use vstd::prelude::*;

verus! {

/// Which accretion-disk model a frame uses.
#[derive(Clone, Copy, Debug, PartialEq, Eq, Structural)]
pub enum DiskMode {
    /// No disk is drawn.
    Absent,
    /// The disk is a participating medium sampled at every step.
    Volume,
    /// The disk is a hard surface given by a signed distance.
    Surface,
}

/// Where the colour of an escaped ray comes from.
#[derive(Clone, Copy, Debug, PartialEq, Eq, Structural)]
pub enum SkyMode {
    /// A lookup into the star map.
    Texture,
    /// A generated star field.
    Procedural,
}

/// The method that advances a ray by one step.
#[derive(Clone, Copy, Debug, PartialEq, Eq, Structural)]
pub enum Integrator {
    Euler,
    RungeKutta4,
    Adaptive,
}

/// The choices of a frame, settled once from the switches: which disk,
/// which sky, which integrator, and the two kinds of jitter.
#[derive(Clone, Copy, Debug, PartialEq, Eq, Structural)]
pub struct Plan {
    pub disk: DiskMode,
    pub sky: SkyMode,
    pub integrator: Integrator,
    pub antialias: bool,
    pub bloom: bool,
}

/// A set of independent runtime switches, one bit each.
#[derive(Clone, Copy, Debug, PartialEq, Eq, Structural, Hash)]
pub struct Features {
    bits: u32,
}

/// The disk is a signed-distance surface.
pub const DISK_SDF: u32 = 1;

/// The disk is a volume.
pub const DISK_VOL: u32 = 2;

/// The sky is generated instead of looked up.
pub const SKY_PROC: u32 = 4;

/// Pixel positions are jittered.
pub const AA: u32 = 8;

/// Fourth-order Runge-Kutta integration.
pub const RK4: u32 = 16;

/// Adaptive step-size integration.
pub const ADAPTIVE: u32 = 32;

/// Ray directions are spread for a glow.
pub const BLOOM: u32 = 64;

/// Every bit that names a switch.
pub const ALL: u32 = 127;

impl View for Features {
    type V = u32;

    closed spec fn view(&self) -> u32 {
        self.bits
    }
}

/// The disk model that a bit set selects: the volume wins over the surface.
pub open spec fn disk_mode_of(bits: u32) -> DiskMode {
    if bits & DISK_VOL != 0 {
        DiskMode::Volume
    } else if bits & DISK_SDF != 0 {
        DiskMode::Surface
    } else {
        DiskMode::Absent
    }
}

/// The sky that a bit set selects.
pub open spec fn sky_mode_of(bits: u32) -> SkyMode {
    if bits & SKY_PROC != 0 {
        SkyMode::Procedural
    } else {
        SkyMode::Texture
    }
}

/// The integrator that a bit set selects: adaptive wins over Runge-Kutta,
/// and with neither bit the Euler method is used.
pub open spec fn integrator_of(bits: u32) -> Integrator {
    if bits & ADAPTIVE != 0 {
        Integrator::Adaptive
    } else if bits & RK4 != 0 {
        Integrator::RungeKutta4
    } else {
        Integrator::Euler
    }
}

/// The choices that a bit set selects.
pub open spec fn plan_of(bits: u32) -> Plan {
    Plan {
        disk: disk_mode_of(bits),
        sky: sky_mode_of(bits),
        integrator: integrator_of(bits),
        antialias: bits & AA != 0,
        bloom: bits & BLOOM != 0,
    }
}

impl Features {
    /// Only switches that exist are ever set.
    pub open spec fn wf(&self) -> bool {
        self@ & !ALL == 0
    }

    /// The set without any switch.
    pub fn empty() -> (r: Features)
        ensures
            r@ == 0,
            r.wf(),
    {
        assert(0u32 & !ALL == 0) by (bit_vector);
        Features { bits: 0 }
    }

    /// The set of every switch.
    pub fn all() -> (r: Features)
        ensures
            r@ == ALL,
            r.wf(),
    {
        assert(ALL & !ALL == 0) by (bit_vector);
        Features { bits: ALL }
    }

    /// The raw bits.
    pub fn bits(&self) -> (r: u32)
        ensures
            r == self@,
    {
        self.bits
    }

    /// The set whose switches are the known bits of `bits`; unknown bits are dropped.
    pub fn from_bits_truncate(bits: u32) -> (r: Features)
        ensures
            r@ == bits & ALL,
            r.wf(),
    {
        assert((bits & ALL) & !ALL == 0) by (bit_vector);
        Features { bits: bits & ALL }
    }

    /// The set with exactly the bits of `bits`, if all of them name a switch.
    pub fn from_bits(bits: u32) -> (r: Option<Features>)
        ensures
            r is Some <==> bits & !ALL == 0,
            r is Some ==> r->0@ == bits && r->0.wf(),
    {
        if bits & !ALL == 0 {
            Some(Features { bits })
        } else {
            None
        }
    }

    /// Whether no switch is set.
    pub fn is_empty(&self) -> (r: bool)
        ensures
            r <==> self@ == 0,
    {
        self.bits == 0
    }

    /// Whether every switch of `other` is set in `self`.
    pub fn contains(&self, other: Features) -> (r: bool)
        ensures
            r <==> self@ & other@ == other@,
    {
        self.bits & other.bits == other.bits
    }

    /// Whether `self` and `other` share a switch.
    pub fn intersects(&self, other: Features) -> (r: bool)
        ensures
            r <==> self@ & other@ != 0,
    {
        self.bits & other.bits != 0
    }

    /// Sets every switch of `other`.
    pub fn insert(&mut self, other: Features)
        requires
            old(self).wf(),
            other.wf(),
        ensures
            final(self)@ == old(self)@ | other@,
            final(self).wf(),
    {
        let a: u32 = self.bits;
        let b: u32 = other.bits;
        assert((a | b) & !ALL == 0) by (bit_vector)
            requires
                a & !ALL == 0,
                b & !ALL == 0,
        ;
        self.bits = a | b;
    }

    /// Clears every switch of `other`.
    pub fn remove(&mut self, other: Features)
        requires
            old(self).wf(),
        ensures
            final(self)@ == old(self)@ & !other@,
            final(self).wf(),
    {
        let a: u32 = self.bits;
        let b: u32 = other.bits;
        assert((a & !b) & !ALL == 0) by (bit_vector)
            requires
                a & !ALL == 0,
        ;
        self.bits = a & !b;
    }

    /// Sets the switches of `other` when `on`, clears them otherwise.
    pub fn set(&mut self, other: Features, on: bool)
        requires
            old(self).wf(),
            other.wf(),
        ensures
            on ==> final(self)@ == old(self)@ | other@,
            !on ==> final(self)@ == old(self)@ & !other@,
            final(self).wf(),
    {
        if on {
            self.insert(other);
        } else {
            self.remove(other);
        }
    }

    /// The disk model selected by this set.
    pub fn disk_mode(&self) -> (r: DiskMode)
        ensures
            r == disk_mode_of(self@),
    {
        if self.bits & DISK_VOL != 0 {
            DiskMode::Volume
        } else if self.bits & DISK_SDF != 0 {
            DiskMode::Surface
        } else {
            DiskMode::Absent
        }
    }

    /// The sky selected by this set.
    pub fn sky_mode(&self) -> (r: SkyMode)
        ensures
            r == sky_mode_of(self@),
    {
        if self.bits & SKY_PROC != 0 {
            SkyMode::Procedural
        } else {
            SkyMode::Texture
        }
    }

    /// The integrator selected by this set.
    pub fn integrator(&self) -> (r: Integrator)
        ensures
            r == integrator_of(self@),
    {
        if self.bits & ADAPTIVE != 0 {
            Integrator::Adaptive
        } else if self.bits & RK4 != 0 {
            Integrator::RungeKutta4
        } else {
            Integrator::Euler
        }
    }

    /// The choices of a frame with these switches.
    pub fn plan(&self) -> (r: Plan)
        ensures
            r == plan_of(self@),
    {
        Plan {
            disk: self.disk_mode(),
            sky: self.sky_mode(),
            integrator: self.integrator(),
            antialias: self.antialiased(),
            bloom: self.bloom(),
        }
    }

    /// Whether pixel positions are jittered.
    pub fn antialiased(&self) -> (r: bool)
        ensures
            r <==> self@ & AA != 0,
    {
        self.bits & AA != 0
    }

    /// Whether ray directions are spread for a glow.
    pub fn bloom(&self) -> (r: bool)
        ensures
            r <==> self@ & BLOOM != 0,
    {
        self.bits & BLOOM != 0
    }
}

} // verus!
