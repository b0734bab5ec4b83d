use vstd::prelude::*;
use crate::binary32::less;
use crate::binary32::magnitude;
use crate::binary32::number_lt;
use crate::binary32::CLEAR_SIGN_MASK;
use crate::config::Triple;

verus! {

/// What the volume disk gives at a point, each number by its bits.
#[derive(Clone, Copy, Debug, PartialEq, Eq, Structural)]
pub struct DiskInfo {
    /// Strength of the emissive colour.
    pub emission: Triple,
    /// Optical density at the point.
    pub distance: u32,
}

/// No emission and no density.
pub open spec fn nothing() -> DiskInfo {
    DiskInfo { emission: Triple { x: 0, y: 0, z: 0 }, distance: 0 }
}

/// Whether a point lies outside the disk: its distance from the axis is
/// above the radius, or its height above or below the plane is above the
/// thickness.
pub open spec fn outside(radial: u32, height: u32, radius: u32, thickness: u32) -> bool {
    number_lt(radius, radial) || number_lt(thickness, magnitude(height))
}

/// Whether a point lies outside the disk.
pub fn is_outside(radial: u32, height: u32, radius: u32, thickness: u32) -> (r: bool)
    ensures
        r == outside(radial, height, radius, thickness),
{
    less(radius, radial) || less(thickness, height & CLEAR_SIGN_MASK)
}

/// Samples the volume disk at a point given by its distance from the axis
/// and its height. Outside the disk the result is exactly zero emission and
/// zero density, and `inside` is not called; inside it is what `inside`
/// computes.
pub fn disk_volume<F: FnOnce() -> DiskInfo>(
    radial: u32,
    height: u32,
    radius: u32,
    thickness: u32,
    inside: F,
) -> (r: DiskInfo)
    requires
        !outside(radial, height, radius, thickness) ==> inside.requires(()),
    ensures
        outside(radial, height, radius, thickness) ==> r == nothing(),
        !outside(radial, height, radius, thickness) ==> inside.ensures((), r),
{
    if is_outside(radial, height, radius, thickness) {
        DiskInfo { emission: Triple { x: 0, y: 0, z: 0 }, distance: 0 }
    } else {
        inside()
    }
}

} // verus!
