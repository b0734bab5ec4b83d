use vstd::prelude::*;
use crate::binary32::clamp;
use crate::binary32::equal;
use crate::binary32::less;
use crate::binary32::less_or_equal;
use crate::binary32::number_eq;
use crate::binary32::number_le;
use crate::binary32::number_lt;
use crate::binary32::range_from_range_bounds;
use crate::binary32::spec_clamp;
use crate::binary32::spec_half_open;
use crate::binary32::Bound;
use crate::features::Features;

verus! {

/// The bits of zero.
pub const ZERO: u32 = 0;

/// The bits of a quarter turn, half of pi.
pub const FRAC_PI_2: u32 = 0x3fc9_0fdb;

/// The bits of the lowest inclination of an orbit, a tenth of a radian.
pub const PHI_MIN: u32 = 0x3dcc_cccd;

/// The bits of the highest inclination of an orbit, pi less a tenth.
pub const PHI_MAX: u32 = 0x4042_a975;

/// The bits of the radius that an orbit without a lower bound starts at.
pub const RADIUS_MIN: u32 = 0;

/// The bits of the radius that an orbit without an upper bound ends at, a thousand.
pub const RADIUS_MAX: u32 = 0x447a_0000;

/// Three numbers, each given by its bits: a point, a direction or a colour.
#[derive(Clone, Copy, Debug, PartialEq, Eq, Structural)]
pub struct Triple {
    pub x: u32,
    pub y: u32,
    pub z: u32,
}

/// An angle in radians, given by its bits.
#[derive(Clone, Copy, Debug, PartialEq, Eq, Structural)]
pub struct Radians(pub u32);

/// An angle in degrees, given by its bits.
#[derive(Clone, Copy, Debug, PartialEq, Eq, Structural)]
pub struct Degree(pub u32);

/// The accretion disk.
#[derive(Clone, Copy, Debug, PartialEq, Eq, Structural)]
pub struct Disk {
    /// Radius of the disk.
    pub radius: u32,
    /// Thickness (height) of the disk.
    pub thickness: u32,
    /// The apparent colour of the disk.
    pub color: Triple,
}

/// A camera that orbits around a target. Distance and position of the
/// orbit can be controlled.
#[derive(Clone, Copy, Debug, PartialEq, Eq, Structural)]
pub struct OrbitCamera {
    /// Field of view of the camera.
    pub fov: Radians,
    /// Radius of the orbit.
    pub radius: u32,
    /// The first radius that the orbit may have.
    pub bounds_start: u32,
    /// The first radius beyond those that the orbit may have.
    pub bounds_end: u32,
    /// Target to orbit around.
    pub target: Triple,
    /// Angle on the xz axis.
    pub phi: u32,
    /// Angle on the y axis.
    pub theta: u32,
}

/// The camera used to control perspective of the rays fired from it.
#[derive(Clone, Copy, Debug, PartialEq, Eq, Structural)]
pub enum Camera {
    Orbit(OrbitCamera),
}

/// Everything that decides what a frame looks like.
#[derive(Clone, Copy, Debug, PartialEq, Eq, Structural)]
pub struct Config {
    pub features: Features,
    pub camera: Camera,
    pub disk: Disk,
}

/// Whether two triples hold the same three numbers.
pub open spec fn triple_eq(a: Triple, b: Triple) -> bool {
    number_eq(a.x, b.x) && number_eq(a.y, b.y) && number_eq(a.z, b.z)
}

/// Whether two disks are the same in every number.
pub open spec fn disk_eq(a: Disk, b: Disk) -> bool {
    number_eq(a.radius, b.radius) && number_eq(a.thickness, b.thickness) && triple_eq(
        a.color,
        b.color,
    )
}

/// Whether two orbit cameras are the same in every number.
pub open spec fn orbit_eq(a: OrbitCamera, b: OrbitCamera) -> bool {
    &&& number_eq(a.fov.0, b.fov.0)
    &&& number_eq(a.radius, b.radius)
    &&& number_eq(a.bounds_start, b.bounds_start)
    &&& number_eq(a.bounds_end, b.bounds_end)
    &&& triple_eq(a.target, b.target)
    &&& number_eq(a.phi, b.phi)
    &&& number_eq(a.theta, b.theta)
}

/// Whether two cameras are the same in every number.
pub open spec fn camera_eq(a: Camera, b: Camera) -> bool {
    match (a, b) {
        (Camera::Orbit(p), Camera::Orbit(q)) => orbit_eq(p, q),
    }
}

/// Whether two configurations ask for the same picture: the same switches
/// and the same value in every number. A number that is not a number makes
/// a configuration differ from every other, itself included.
pub open spec fn config_eq(a: Config, b: Config) -> bool {
    a.features@ == b.features@ && camera_eq(a.camera, b.camera) && disk_eq(a.disk, b.disk)
}

impl Degree {
    /// The bits of the angle.
    pub fn bits(&self) -> (r: u32)
        ensures
            r == self.0,
    {
        self.0
    }
}

impl Radians {
    /// The bits of the angle.
    pub fn bits(&self) -> (r: u32)
        ensures
            r == self.0,
    {
        self.0
    }
}

impl Triple {
    /// Whether both triples hold the same three numbers.
    pub fn same(&self, other: &Triple) -> (r: bool)
        ensures
            r == triple_eq(*self, *other),
    {
        equal(self.x, other.x) && equal(self.y, other.y) && equal(self.z, other.z)
    }
}

/// The disk of a fresh configuration: radius 8, thickness a tenth, and a
/// warm brown as its colour.
pub open spec fn default_disk() -> Disk {
    Disk {
        radius: 0x4100_0000,
        thickness: 0x3dcc_cccd,
        color: Triple { x: 0x3e99_999a, y: 0x3e4c_cccd, z: 0x3dcc_cccd },
    }
}

/// The camera of a fresh configuration: a quarter-turn field of view and an
/// orbit of radius 3.3 around the origin that may range from 0.5 to 3.5
/// inclusive.
pub open spec fn default_camera() -> Camera {
    Camera::Orbit(
        OrbitCamera {
            fov: Radians(FRAC_PI_2),
            radius: 0x4053_3333,
            bounds_start: 0x3f00_0000,
            bounds_end: 0x4060_0001,
            target: Triple { x: 0, y: 0, z: 0 },
            phi: FRAC_PI_2,
            theta: 0,
        },
    )
}

impl Default for Disk {
    fn default() -> (r: Disk)
        ensures
            r == default_disk(),
    {
        Disk {
            radius: 0x4100_0000,
            thickness: 0x3dcc_cccd,
            color: Triple { x: 0x3e99_999a, y: 0x3e4c_cccd, z: 0x3dcc_cccd },
        }
    }
}

impl Disk {
    /// Whether both disks are the same in every number.
    pub fn same(&self, other: &Disk) -> (r: bool)
        ensures
            r == disk_eq(*self, *other),
    {
        equal(self.radius, other.radius) && equal(self.thickness, other.thickness)
            && self.color.same(&other.color)
    }
}

impl OrbitCamera {
    /// Create a new camera at `radius` from `target`, a quarter turn above
    /// the pole and facing along the x axis. The radii that the orbit may
    /// have lie between the two bounds; a missing bound is zero or a thousand.
    pub fn new(fov: Radians, radius: u32, start: Bound, end: Bound, target: Triple) -> (r:
        OrbitCamera)
        ensures
            r == (OrbitCamera {
                fov,
                radius,
                bounds_start: spec_half_open(start, end, RADIUS_MIN, RADIUS_MAX).0,
                bounds_end: spec_half_open(start, end, RADIUS_MIN, RADIUS_MAX).1,
                target,
                phi: FRAC_PI_2,
                theta: ZERO,
            }),
    {
        let bounds = range_from_range_bounds(start, end, RADIUS_MIN, RADIUS_MAX);
        OrbitCamera {
            fov,
            radius,
            bounds_start: bounds.0,
            bounds_end: bounds.1,
            target,
            phi: FRAC_PI_2,
            theta: ZERO,
        }
    }

    /// Whether the orbit may have the radius `radius`.
    pub open spec fn admits(&self, radius: u32) -> bool {
        number_le(self.bounds_start, radius) && number_lt(radius, self.bounds_end)
    }

    /// Moves the orbit to the angles `theta` and `phi`, which the caller has
    /// already advanced; the inclination is held off the poles.
    pub fn orbit(&mut self, theta: u32, phi: u32)
        ensures
            *final(self) == (OrbitCamera {
                theta,
                phi: spec_clamp(phi, PHI_MIN, PHI_MAX),
                ..*old(self)
            }),
    {
        assert(number_le(PHI_MIN, PHI_MAX)) by {
            assert(PHI_MIN & 0x7fff_ffff == PHI_MIN && PHI_MAX & 0x7fff_ffff == PHI_MAX && PHI_MIN
                & 0x8000_0000 == 0 && PHI_MAX & 0x8000_0000 == 0) by (bit_vector);
        }
        self.theta = theta;
        self.phi = clamp(phi, PHI_MIN, PHI_MAX);
    }

    /// Zooms to the radius `zoomed`, which the caller has already computed,
    /// if the orbit may have it; else the radius stays.
    pub fn zoom(&mut self, zoomed: u32)
        ensures
            *final(self) == (OrbitCamera {
                radius: if old(self).admits(zoomed) {
                    zoomed
                } else {
                    old(self).radius
                },
                ..*old(self)
            }),
    {
        if less_or_equal(self.bounds_start, zoomed) && less(zoomed, self.bounds_end) {
            self.radius = zoomed;
        }
    }

    /// Change the target of the camera.
    pub fn set_target(&mut self, target: Triple)
        ensures
            *final(self) == (OrbitCamera { target, ..*old(self) }),
    {
        self.target = target;
    }

    /// Manually set phi, the "inclination" component.
    pub fn set_phi(&mut self, phi: u32)
        ensures
            *final(self) == (OrbitCamera { phi, ..*old(self) }),
    {
        self.phi = phi;
    }

    /// Manually set theta, the "horizontal" component.
    pub fn set_theta(&mut self, theta: u32)
        ensures
            *final(self) == (OrbitCamera { theta, ..*old(self) }),
    {
        self.theta = theta;
    }

    /// Whether both cameras are the same in every number.
    pub fn same(&self, other: &OrbitCamera) -> (r: bool)
        ensures
            r == orbit_eq(*self, *other),
    {
        equal(self.fov.0, other.fov.0) && equal(self.radius, other.radius) && equal(
            self.bounds_start,
            other.bounds_start,
        ) && equal(self.bounds_end, other.bounds_end) && self.target.same(&other.target) && equal(
            self.phi,
            other.phi,
        ) && equal(self.theta, other.theta)
    }
}

impl Camera {
    /// The field of view of the camera in radians.
    pub fn fov(&self) -> (r: Radians)
        ensures
            r == (match *self {
                Camera::Orbit(cam) => cam.fov,
            }),
    {
        match self {
            Camera::Orbit(cam) => cam.fov,
        }
    }

    /// Changes the field of view.
    pub fn set_fov(&mut self, fov: Radians)
        ensures
            *final(self) == (match *old(self) {
                Camera::Orbit(cam) => Camera::Orbit(OrbitCamera { fov, ..cam }),
            }),
    {
        match self {
            Camera::Orbit(cam) => {
                let moved = OrbitCamera { fov, ..*cam };
                *self = Camera::Orbit(moved);
            },
        }
    }

    /// Whether both cameras are the same in every number.
    pub fn same(&self, other: &Camera) -> (r: bool)
        ensures
            r == camera_eq(*self, *other),
    {
        match (self, other) {
            (Camera::Orbit(p), Camera::Orbit(q)) => p.same(q),
        }
    }
}

impl Default for Config {
    /// No switch set, the default camera and the default disk.
    fn default() -> (r: Config)
        ensures
            r.features@ == 0,
            r.camera == default_camera(),
            r.disk == default_disk(),
    {
        assert(0x4060_0000u32 & 0x7fff_ffff == 0x4060_0000 && 0x4060_0000u32 & 0x8000_0000 == 0)
            by (bit_vector);
        Config {
            features: Features::empty(),
            camera: Camera::Orbit(
                OrbitCamera::new(
                    Radians(FRAC_PI_2),
                    0x4053_3333,
                    Bound::Included(0x3f00_0000),
                    Bound::Included(0x4060_0000),
                    Triple { x: 0, y: 0, z: 0 },
                ),
            ),
            disk: Disk {
                radius: 0x4100_0000,
                thickness: 0x3dcc_cccd,
                color: Triple { x: 0x3e99_999a, y: 0x3e4c_cccd, z: 0x3dcc_cccd },
            },
        }
    }
}

impl Config {
    /// Whether both configurations ask for the same picture.
    pub fn same(&self, other: &Config) -> (r: bool)
        ensures
            r == config_eq(*self, *other),
    {
        self.features.bits() == other.features.bits() && self.camera.same(&other.camera)
            && self.disk.same(&other.disk)
    }
}

} // verus!
