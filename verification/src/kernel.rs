use vstd::prelude::*;
use crate::binary32::less;
use crate::binary32::less_or_equal;
use crate::binary32::number_le;
use crate::binary32::number_lt;
use crate::features::DiskMode;
use crate::features::Integrator;

verus! {

/// The most integration steps a single ray may take.
pub const MAX_STEPS: u32 = 128;

/// The most scattering events a ray may survive.
pub const MAX_BOUNCES: u32 = 4;

/// The bits of the squared radius of the horizon, 0.6 squared.
pub const HORIZON_SQUARED: u32 = 0x3eb8_51ec;

/// The bits of the squared radius of the sky sphere, 3.6 squared.
pub const SKY_SQUARED: u32 = 0x414f_5c28;

/// How the march of a ray ended.
#[derive(Clone, Copy, Debug, PartialEq, Eq, Structural)]
pub enum Outcome {
    /// The ray scattered too often; its colour must not enter any average.
    Discarded,
    /// The ray crossed the horizon; its colour is the radiance gathered so far.
    Captured,
    /// The ray struck the surface disk; its colour is the disk's own.
    HitDisk,
    /// The ray left the sky sphere; the sky along its direction is added.
    Escaped,
    /// The ray used up its steps; the sky along its direction is added.
    Exhausted,
}

/// What the driver of a ray has to do next.
#[derive(Clone, Copy, Debug, PartialEq, Eq, Structural)]
pub enum Command {
    /// Measure the squared distance of the ray from the centre.
    Probe,
    /// Sample the volume disk, add its emission over the step to the
    /// radiance, and report its density.
    SampleVolume,
    /// Work out the share of light that passes the medium over the step,
    /// and draw a lot between zero and one.
    DrawLot,
    /// Scatter the ray: reflect its direction at random, keep its speed,
    /// and tint its attenuation by the disk.
    Scatter,
    /// Evaluate the signed distance to the surface disk.
    SampleSurface,
    /// Advance position and velocity by one step of the given method.
    Integrate(Integrator),
    /// Stop and resolve the colour as the outcome says.
    Finish(Outcome),
}

/// What the driver found out by carrying out a command. Every number is
/// given by the bits of a single-precision value.
#[derive(Clone, Copy, Debug, PartialEq, Eq, Structural)]
pub enum Event {
    /// Answer to `Probe`.
    Position { distance_squared: u32 },
    /// Answer to `SampleVolume`.
    Density { density: u32 },
    /// Answer to `DrawLot`.
    Lot { passing: u32, lot: u32 },
    /// Answer to `Scatter`: the ray was scattered.
    Scattered,
    /// Answer to `SampleSurface`.
    Surface { signed_distance: u32 },
    /// Answer to `Integrate`: the step was taken.
    Stepped,
}

/// Where within one iteration a ray stands.
#[derive(Clone, Copy, Debug, PartialEq, Eq, Structural)]
pub enum Phase {
    Probe,
    Shade,
    Lot,
    Scatter,
    Advance,
    Done(Outcome),
}

/// The bookkeeping of one ray: which decisions were taken so far and what
/// comes next. Positions, velocities and colours stay with the driver.
#[derive(Clone, Copy, Debug, PartialEq, Eq, Structural)]
pub struct Ray {
    pub disk: DiskMode,
    pub integrator: Integrator,
    pub phase: Phase,
    /// Integration steps taken.
    pub steps: u32,
    /// Scattering events so far.
    pub bounces: u32,
    /// Volume samples whose emission was added to the radiance.
    pub emissions: u32,
}

/// A ray is inside the horizon when its squared distance from the centre
/// is below the squared radius of the horizon.
pub open spec fn inside_horizon(distance_squared: u32) -> bool {
    number_lt(distance_squared, HORIZON_SQUARED)
}

/// A ray is beyond the sky when its squared distance from the centre is
/// above the squared radius of the sky sphere.
pub open spec fn beyond_sky(distance_squared: u32) -> bool {
    number_lt(SKY_SQUARED, distance_squared)
}

/// A medium is dense where its density is above zero.
pub open spec fn dense(density: u32) -> bool {
    number_lt(0, density)
}

/// A ray in a dense medium scatters when the share of light that passes is
/// below the lot drawn.
pub open spec fn scatters(passing: u32, lot: u32) -> bool {
    number_lt(passing, lot)
}

/// A ray has hit the surface disk where its signed distance is zero or less.
pub open spec fn hit(signed_distance: u32) -> bool {
    number_le(signed_distance, 0)
}

/// The phase in which an iteration starts, given the counters: the step
/// limit is looked at first, then the bounce limit.
pub open spec fn entry_phase(steps: u32, bounces: u32) -> Phase {
    if steps >= MAX_STEPS {
        Phase::Done(Outcome::Exhausted)
    } else if bounces > MAX_BOUNCES {
        Phase::Done(Outcome::Discarded)
    } else {
        Phase::Probe
    }
}

/// The phase that follows a probe which found the ray neither captured nor escaped.
pub open spec fn after_probe(disk: DiskMode) -> Phase {
    match disk {
        DiskMode::Absent => Phase::Advance,
        _ => Phase::Shade,
    }
}

/// The state reached from `ray` by taking the events in turn.
pub open spec fn replay(ray: Ray, events: Seq<Event>) -> Ray
    decreases events.len(),
{
    if events.len() == 0 {
        ray
    } else {
        replay(ray, events.drop_last()).spec_step(events.last())
    }
}

/// Whether every event answers the command of the state it meets, when the
/// events are taken in turn from `ray`.
pub open spec fn in_turn(ray: Ray, events: Seq<Event>) -> bool
    decreases events.len(),
{
    if events.len() == 0 {
        true
    } else {
        in_turn(ray, events.drop_last()) && replay(ray, events.drop_last()).accepts(events.last())
    }
}

impl Outcome {
    /// Whether the sky colour along the final direction is added.
    pub open spec fn spec_adds_sky(self) -> bool {
        self == Outcome::Escaped || self == Outcome::Exhausted
    }

    #[verifier::when_used_as_spec(spec_adds_sky)]
    pub fn adds_sky(self) -> (r: bool)
        ensures
            r == self.spec_adds_sky(),
    {
        match self {
            Outcome::Escaped => true,
            Outcome::Exhausted => true,
            _ => false,
        }
    }

    /// Whether the resolved colour may enter an average.
    pub open spec fn spec_counts(self) -> bool {
        self != Outcome::Discarded
    }

    #[verifier::when_used_as_spec(spec_counts)]
    pub fn counts(self) -> (r: bool)
        ensures
            r == self.spec_counts(),
    {
        match self {
            Outcome::Discarded => false,
            _ => true,
        }
    }
}

impl Ray {
    /// The counters are within their limits and agree with the phase.
    pub open spec fn wf(&self) -> bool {
        &&& self.steps <= MAX_STEPS
        &&& self.bounces <= self.emissions
        &&& self.bounces <= MAX_BOUNCES + 1
        &&& self.disk != DiskMode::Volume ==> self.emissions == 0
        &&& match self.phase {
            Phase::Probe => self.steps < MAX_STEPS && self.bounces <= MAX_BOUNCES
                && self.emissions <= self.steps,
            Phase::Shade => self.steps < MAX_STEPS && self.bounces <= MAX_BOUNCES
                && self.emissions <= self.steps && self.disk != DiskMode::Absent,
            Phase::Lot => self.steps < MAX_STEPS && self.bounces <= MAX_BOUNCES && self.bounces
                < self.emissions && self.emissions <= self.steps + 1 && self.disk
                == DiskMode::Volume,
            Phase::Scatter => self.steps < MAX_STEPS && self.emissions <= self.steps + 1
                && self.disk == DiskMode::Volume,
            Phase::Advance => self.steps < MAX_STEPS && self.emissions <= self.steps + 1,
            Phase::Done(Outcome::Exhausted) => self.steps == MAX_STEPS && self.emissions
                <= self.steps,
            Phase::Done(Outcome::Discarded) => self.bounces > MAX_BOUNCES && self.emissions
                <= self.steps,
            Phase::Done(Outcome::HitDisk) => self.disk == DiskMode::Surface,
            Phase::Done(_) => self.emissions <= self.steps,
        }
    }

    /// The command that the driver has to carry out in this state.
    pub open spec fn spec_command(&self) -> Command {
        match self.phase {
            Phase::Probe => Command::Probe,
            Phase::Shade => if self.disk == DiskMode::Volume {
                Command::SampleVolume
            } else {
                Command::SampleSurface
            },
            Phase::Lot => Command::DrawLot,
            Phase::Scatter => Command::Scatter,
            Phase::Advance => Command::Integrate(self.integrator),
            Phase::Done(o) => Command::Finish(o),
        }
    }

    /// Whether `event` answers the command of this state.
    pub open spec fn accepts(&self, event: Event) -> bool {
        match (self.spec_command(), event) {
            (Command::Probe, Event::Position { .. }) => true,
            (Command::SampleVolume, Event::Density { .. }) => true,
            (Command::DrawLot, Event::Lot { .. }) => true,
            (Command::Scatter, Event::Scattered) => true,
            (Command::SampleSurface, Event::Surface { .. }) => true,
            (Command::Integrate(_), Event::Stepped) => true,
            _ => false,
        }
    }

    /// The state after `event`. An event that does not answer the command
    /// of the state changes nothing.
    pub open spec fn spec_step(&self, event: Event) -> Ray {
        if !self.accepts(event) {
            *self
        } else {
            match event {
                Event::Position { distance_squared } => Ray {
                    phase: if inside_horizon(distance_squared) {
                        Phase::Done(Outcome::Captured)
                    } else if beyond_sky(distance_squared) {
                        Phase::Done(Outcome::Escaped)
                    } else {
                        after_probe(self.disk)
                    },
                    ..*self
                },
                Event::Density { density } => Ray {
                    phase: if dense(density) {
                        Phase::Lot
                    } else {
                        Phase::Advance
                    },
                    emissions: (self.emissions + 1) as u32,
                    ..*self
                },
                Event::Lot { passing, lot } => if scatters(passing, lot) {
                    Ray { phase: Phase::Scatter, bounces: (self.bounces + 1) as u32, ..*self }
                } else {
                    Ray { phase: Phase::Advance, ..*self }
                },
                Event::Scattered => Ray { phase: Phase::Advance, ..*self },
                Event::Surface { signed_distance } => Ray {
                    phase: if hit(signed_distance) {
                        Phase::Done(Outcome::HitDisk)
                    } else {
                        Phase::Advance
                    },
                    ..*self
                },
                Event::Stepped => Ray {
                    phase: entry_phase((self.steps + 1) as u32, self.bounces),
                    steps: (self.steps + 1) as u32,
                    ..*self
                },
            }
        }
    }

    /// How far a state is from its end: every event that is accepted lowers it.
    pub open spec fn fuel(&self) -> nat {
        let rank: nat = match self.phase {
            Phase::Probe => 5,
            Phase::Shade => 4,
            Phase::Lot => 3,
            Phase::Scatter => 2,
            Phase::Advance => 1,
            Phase::Done(_) => 0,
        };
        (5 * (MAX_STEPS - self.steps) + rank) as nat
    }

    /// A fresh ray: no step taken, nothing gathered, about to be probed.
    pub open spec fn fresh(disk: DiskMode, integrator: Integrator) -> Ray {
        Ray { disk, integrator, phase: Phase::Probe, steps: 0, bounces: 0, emissions: 0 }
    }

    /// A fresh ray: no step taken, nothing gathered, about to be probed.
    pub fn new(disk: DiskMode, integrator: Integrator) -> (r: Ray)
        ensures
            r == Ray::fresh(disk, integrator),
            r.wf(),
    {
        Ray { disk, integrator, phase: Phase::Probe, steps: 0, bounces: 0, emissions: 0 }
    }

    /// Whether the counters are within their limits and agree with the phase.
    pub fn is_wf(&self) -> (r: bool)
        ensures
            r == self.wf(),
    {
        let volume = match self.disk {
            DiskMode::Volume => true,
            _ => false,
        };
        let absent = match self.disk {
            DiskMode::Absent => true,
            _ => false,
        };
        let surface = match self.disk {
            DiskMode::Surface => true,
            _ => false,
        };
        let by_phase = match self.phase {
            Phase::Probe => self.steps < MAX_STEPS && self.bounces <= MAX_BOUNCES && self.emissions
                <= self.steps,
            Phase::Shade => self.steps < MAX_STEPS && self.bounces <= MAX_BOUNCES && self.emissions
                <= self.steps && !absent,
            Phase::Lot => self.steps < MAX_STEPS && self.bounces <= MAX_BOUNCES && self.bounces
                < self.emissions && self.emissions <= self.steps + 1 && volume,
            Phase::Scatter => self.steps < MAX_STEPS && self.emissions <= self.steps + 1 && volume,
            Phase::Advance => self.steps < MAX_STEPS && self.emissions <= self.steps + 1,
            Phase::Done(Outcome::Exhausted) => self.steps == MAX_STEPS && self.emissions
                <= self.steps,
            Phase::Done(Outcome::Discarded) => self.bounces > MAX_BOUNCES && self.emissions
                <= self.steps,
            Phase::Done(Outcome::HitDisk) => surface,
            Phase::Done(_) => self.emissions <= self.steps,
        };
        self.steps <= MAX_STEPS && self.bounces <= self.emissions && self.bounces <= MAX_BOUNCES
            + 1 && (volume || self.emissions == 0) && by_phase
    }

    /// The command to carry out next.
    pub fn command(&self) -> (r: Command)
        ensures
            r == self.spec_command(),
    {
        match self.phase {
            Phase::Probe => Command::Probe,
            Phase::Shade => match self.disk {
                DiskMode::Volume => Command::SampleVolume,
                _ => Command::SampleSurface,
            },
            Phase::Lot => Command::DrawLot,
            Phase::Scatter => Command::Scatter,
            Phase::Advance => Command::Integrate(self.integrator),
            Phase::Done(o) => Command::Finish(o),
        }
    }

    /// The outcome, once the march has ended.
    pub fn outcome(&self) -> (r: Option<Outcome>)
        ensures
            r == (match self.phase {
                Phase::Done(o) => Some(o),
                _ => None::<Outcome>,
            }),
    {
        match self.phase {
            Phase::Done(o) => Some(o),
            _ => None,
        }
    }

    /// Takes the answer to the current command, decides on its numbers and
    /// moves to the next state. An event that does not answer the current
    /// command changes nothing. Returns the command of the new state.
    pub fn step(&mut self, event: Event) -> (r: Command)
        requires
            old(self).wf(),
        ensures
            *final(self) == old(self).spec_step(event),
            final(self).wf(),
            old(self).accepts(event) ==> final(self).fuel() < old(self).fuel(),
            r == final(self).spec_command(),
    {
        match (self.command(), event) {
            (Command::Probe, Event::Position { distance_squared }) => {
                if less(distance_squared, HORIZON_SQUARED) {
                    self.phase = Phase::Done(Outcome::Captured);
                } else if less(SKY_SQUARED, distance_squared) {
                    self.phase = Phase::Done(Outcome::Escaped);
                } else {
                    self.phase = match self.disk {
                        DiskMode::Absent => Phase::Advance,
                        _ => Phase::Shade,
                    };
                }
            },
            (Command::SampleVolume, Event::Density { density }) => {
                self.emissions = self.emissions + 1;
                if less(0, density) {
                    self.phase = Phase::Lot;
                } else {
                    self.phase = Phase::Advance;
                }
            },
            (Command::DrawLot, Event::Lot { passing, lot }) => {
                if less(passing, lot) {
                    self.bounces = self.bounces + 1;
                    self.phase = Phase::Scatter;
                } else {
                    self.phase = Phase::Advance;
                }
            },
            (Command::Scatter, Event::Scattered) => {
                self.phase = Phase::Advance;
            },
            (Command::SampleSurface, Event::Surface { signed_distance }) => {
                if less_or_equal(signed_distance, 0) {
                    self.phase = Phase::Done(Outcome::HitDisk);
                } else {
                    self.phase = Phase::Advance;
                }
            },
            (Command::Integrate(_), Event::Stepped) => {
                self.steps = self.steps + 1;
                self.phase = if self.steps >= MAX_STEPS {
                    Phase::Done(Outcome::Exhausted)
                } else if self.bounces > MAX_BOUNCES {
                    Phase::Done(Outcome::Discarded)
                } else {
                    Phase::Probe
                };
            },
            _ => {},
        }
        self.command()
    }
}

/// The bits of a tenth: a lot below it spreads a ray a little.
pub const BLOOM_TIGHT_BELOW: u32 = 0x3dcc_cccd;

/// The bits of nine tenths: a lot above it spreads a ray widely.
pub const BLOOM_WIDE_ABOVE: u32 = 0x3f66_6666;

/// How far the direction of a ray is spread for the glow.
#[derive(Clone, Copy, Debug, PartialEq, Eq, Structural)]
pub enum Bloom {
    /// The direction stays as it is.
    Unspread,
    /// A narrow spread, for one ray in ten.
    Tight,
    /// A wide spread, for one ray in ten.
    Wide,
}

/// The spread that a lot between zero and one selects.
pub open spec fn bloom_of(lot: u32) -> Bloom {
    if number_lt(lot, BLOOM_TIGHT_BELOW) {
        Bloom::Tight
    } else if number_lt(BLOOM_WIDE_ABOVE, lot) {
        Bloom::Wide
    } else {
        Bloom::Unspread
    }
}

/// Reads the lot that decides how a ray is spread for the glow.
pub fn bloom_band(lot: u32) -> (r: Bloom)
    ensures
        r == bloom_of(lot),
{
    if less(lot, BLOOM_TIGHT_BELOW) {
        Bloom::Tight
    } else if less(BLOOM_WIDE_ABOVE, lot) {
        Bloom::Wide
    } else {
        Bloom::Unspread
    }
}

/// A ray that starts inside the horizon ends at its first probe as captured:
/// no step is taken, no disk sample is added and no sky is added.
pub proof fn lemma_capture_is_immediate(
    disk: DiskMode,
    integrator: Integrator,
    distance_squared: u32,
)
    requires
        number_lt(distance_squared, HORIZON_SQUARED),
    ensures
        ({
            let start = Ray::fresh(disk, integrator);
            let end = start.spec_step(Event::Position { distance_squared });
            &&& end.phase == Phase::Done(Outcome::Captured)
            &&& end.steps == 0
            &&& end.emissions == 0
            &&& end.bounces == 0
            &&& !Outcome::Captured.adds_sky()
        }),
{
}

/// A ray that starts beyond the sky sphere ends at its first probe as
/// escaped, before any step is taken.
pub proof fn lemma_escape_is_immediate(
    disk: DiskMode,
    integrator: Integrator,
    distance_squared: u32,
)
    requires
        number_lt(SKY_SQUARED, distance_squared),
    ensures
        ({
            let start = Ray::fresh(disk, integrator);
            let end = start.spec_step(Event::Position { distance_squared });
            &&& end.phase == Phase::Done(Outcome::Escaped)
            &&& end.steps == 0
            &&& end.emissions == 0
            &&& Outcome::Escaped.adds_sky()
        }),
{
    assert(HORIZON_SQUARED & 0x8000_0000 == 0 && SKY_SQUARED & 0x8000_0000 == 0
        && HORIZON_SQUARED & 0x7fff_ffff == HORIZON_SQUARED && SKY_SQUARED & 0x7fff_ffff
        == SKY_SQUARED) by (bit_vector);
}

/// Every event keeps a well-formed ray well-formed, and every event that
/// answers the command of the state brings the ray nearer to its end.
pub proof fn lemma_step_makes_progress(ray: Ray, event: Event)
    requires
        ray.wf(),
    ensures
        ray.spec_step(event).wf(),
        ray.accepts(event) ==> ray.spec_step(event).fuel() < ray.fuel(),
        ray.fuel() <= 5 * MAX_STEPS + 5,
{
}

/// A march is bounded whatever the driver observes: events taken in turn
/// from a well-formed ray are no more than its fuel, at most
/// `5 * MAX_STEPS + 5` from a fresh ray, and lead to a well-formed ray.
pub proof fn lemma_march_is_bounded(ray: Ray, events: Seq<Event>)
    requires
        ray.wf(),
        in_turn(ray, events),
    ensures
        replay(ray, events).wf(),
        replay(ray, events).fuel() + events.len() <= ray.fuel(),
        events.len() <= 5 * MAX_STEPS + 5,
    decreases events.len(),
{
    if events.len() > 0 {
        lemma_march_is_bounded(ray, events.drop_last());
        lemma_step_makes_progress(replay(ray, events.drop_last()), events.last());
    }
}

/// However a march goes, it takes at most `MAX_STEPS` integration steps
/// and at most `MAX_STEPS` samples of the volume disk, and a march that has
/// ended has taken no more samples than steps.
pub proof fn lemma_work_is_bounded(ray: Ray)
    requires
        ray.wf(),
    ensures
        ray.steps <= MAX_STEPS,
        ray.emissions <= MAX_STEPS,
        ray.bounces <= MAX_BOUNCES + 1,
        ray.phase is Done ==> ray.emissions <= ray.steps,
{
}

/// A finished ray accepts no further event, and a ray is finished exactly
/// when its command is `Finish`.
pub proof fn lemma_done_is_final(ray: Ray, event: Event)
    ensures
        ray.phase is Done ==> !ray.accepts(event) && ray.spec_step(event) == ray,
        ray.phase is Done <==> ray.spec_command() is Finish,
{
}

/// A ray is discarded only after more than `MAX_BOUNCES` scattering events,
/// which only the volume disk produces.
pub proof fn lemma_discard_needs_volume(ray: Ray)
    requires
        ray.wf(),
        ray.phase == Phase::Done(Outcome::Discarded),
    ensures
        ray.disk == DiskMode::Volume,
        ray.bounces == MAX_BOUNCES + 1,
        ray.steps >= ray.bounces,
{
}

} // verus!
