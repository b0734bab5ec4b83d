use kerrbhy::features::{DiskMode, Features, Integrator, SkyMode};
use kerrbhy::features::{AA, ADAPTIVE, ALL, BLOOM, DISK_SDF, DISK_VOL, RK4, SKY_PROC};
use kerrbhy::config::Triple;
use kerrbhy::disk::{disk_volume, is_outside, DiskInfo};
use kerrbhy::kernel::{
    bloom_band, Bloom, Command, Event, Outcome, Phase, Ray, BLOOM_TIGHT_BELOW, BLOOM_WIDE_ABOVE,
    HORIZON_SQUARED, MAX_BOUNCES, MAX_STEPS, SKY_SQUARED,
};

fn at(distance_squared: f32) -> Event {
    Event::Position { distance_squared: distance_squared.to_bits() }
}

fn clear() -> Event {
    at(1.0)
}

fn density(d: f32) -> Event {
    Event::Density { density: d.to_bits() }
}

fn lot(passing: f32, lot: f32) -> Event {
    Event::Lot { passing: passing.to_bits(), lot: lot.to_bits() }
}

fn surface(signed_distance: f32) -> Event {
    Event::Surface { signed_distance: signed_distance.to_bits() }
}

/// One round in a dense medium that scatters the ray.
fn bounce(ray: &mut Ray) {
    assert_eq!(ray.step(clear()), Command::SampleVolume);
    assert_eq!(ray.step(density(2.0)), Command::DrawLot);
    assert_eq!(ray.step(lot(0.5, 0.75)), Command::Scatter);
    assert_eq!(ray.step(Event::Scattered), Command::Integrate(Integrator::Euler));
    ray.step(Event::Stepped);
}

#[test]
fn flags_have_the_documented_bits() {
    assert_eq!(DISK_SDF, 1 << 0);
    assert_eq!(DISK_VOL, 1 << 1);
    assert_eq!(SKY_PROC, 1 << 2);
    assert_eq!(AA, 1 << 3);
    assert_eq!(RK4, 1 << 4);
    assert_eq!(ADAPTIVE, 1 << 5);
    assert_eq!(BLOOM, 1 << 6);
    assert_eq!(ALL, 0x7f);
    assert_eq!(Features::all().bits(), 0x7f);
    assert_eq!(Features::empty().bits(), 0);
    assert!(Features::empty().is_empty());
}

#[test]
fn from_bits_refuses_unknown_bits() {
    assert!(Features::from_bits(0x80).is_none());
    assert_eq!(Features::from_bits(0x7f).unwrap().bits(), 0x7f);
    assert_eq!(Features::from_bits_truncate(0xff).bits(), 0x7f);
    assert_eq!(Features::from_bits_truncate(0x182).bits(), 0x02);
}

#[test]
fn volume_disk_wins_over_surface_disk() {
    let both = Features::from_bits_truncate(DISK_SDF | DISK_VOL);
    assert_eq!(both.disk_mode(), DiskMode::Volume);
    assert_eq!(Features::from_bits_truncate(DISK_SDF).disk_mode(), DiskMode::Surface);
    assert_eq!(Features::from_bits_truncate(DISK_VOL).disk_mode(), DiskMode::Volume);
    assert_eq!(Features::from_bits_truncate(AA | RK4).disk_mode(), DiskMode::Absent);
}

#[test]
fn integrator_defaults_to_euler_and_adaptive_wins() {
    assert_eq!(Features::empty().integrator(), Integrator::Euler);
    assert_eq!(Features::from_bits_truncate(RK4).integrator(), Integrator::RungeKutta4);
    assert_eq!(Features::from_bits_truncate(ADAPTIVE).integrator(), Integrator::Adaptive);
    assert_eq!(Features::from_bits_truncate(ADAPTIVE | RK4).integrator(), Integrator::Adaptive);
}

#[test]
fn sky_and_jitter_switches() {
    assert_eq!(Features::empty().sky_mode(), SkyMode::Texture);
    assert_eq!(Features::from_bits_truncate(SKY_PROC).sky_mode(), SkyMode::Procedural);
    assert!(Features::from_bits_truncate(AA).antialiased());
    assert!(!Features::from_bits_truncate(BLOOM).antialiased());
    assert!(Features::from_bits_truncate(BLOOM).bloom());
    assert!(!Features::empty().bloom());
}

#[test]
fn set_operations_on_features() {
    let mut f = Features::empty();
    f.insert(Features::from_bits_truncate(RK4 | AA));
    assert_eq!(f.bits(), RK4 | AA);
    assert!(f.contains(Features::from_bits_truncate(AA)));
    assert!(!f.contains(Features::from_bits_truncate(AA | BLOOM)));
    assert!(f.intersects(Features::from_bits_truncate(AA | BLOOM)));
    f.remove(Features::from_bits_truncate(AA));
    assert_eq!(f.bits(), RK4);
    f.set(Features::from_bits_truncate(BLOOM), true);
    assert_eq!(f.bits(), RK4 | BLOOM);
    f.set(Features::from_bits_truncate(RK4), false);
    assert_eq!(f.bits(), BLOOM);
}

#[test]
fn limits_are_as_documented() {
    assert_eq!(MAX_STEPS, 128);
    assert_eq!(MAX_BOUNCES, 4);
}

#[test]
fn a_ray_inside_the_horizon_is_captured_at_once() {
    for disk in [DiskMode::Absent, DiskMode::Volume, DiskMode::Surface] {
        let mut ray = Ray::new(disk, Integrator::Euler);
        assert!(ray.is_wf());
        assert_eq!(ray.command(), Command::Probe);
        let next = ray.step(at(0.25));
        assert_eq!(next, Command::Finish(Outcome::Captured));
        assert_eq!(ray.outcome(), Some(Outcome::Captured));
        assert_eq!(ray.steps, 0);
        assert_eq!(ray.emissions, 0);
        assert_eq!(ray.bounces, 0);
        assert!(!Outcome::Captured.adds_sky());
        assert!(Outcome::Captured.counts());
    }
}

#[test]
fn a_ray_beyond_the_sky_escapes_within_one_iteration() {
    let mut ray = Ray::new(DiskMode::Volume, Integrator::Adaptive);
    let next = ray.step(at(13.0));
    assert_eq!(next, Command::Finish(Outcome::Escaped));
    assert_eq!(ray.steps, 0);
    assert_eq!(ray.emissions, 0);
    assert!(Outcome::Escaped.adds_sky());
}

#[test]
fn without_a_disk_a_ray_goes_from_probe_to_integrate() {
    let mut ray = Ray::new(DiskMode::Absent, Integrator::RungeKutta4);
    assert_eq!(ray.step(clear()), Command::Integrate(Integrator::RungeKutta4));
    assert_eq!(ray.step(Event::Stepped), Command::Probe);
    assert_eq!(ray.steps, 1);
}

#[test]
fn an_event_that_answers_another_command_changes_nothing() {
    let mut ray = Ray::new(DiskMode::Volume, Integrator::Euler);
    let before = ray;
    for wrong in [Event::Stepped, density(1.0), lot(0.1, 0.9), Event::Scattered, surface(-1.0)] {
        assert_eq!(ray.step(wrong), Command::Probe);
        assert_eq!(ray, before);
    }
    ray.step(at(0.1));
    let done = ray;
    for any in [clear(), Event::Stepped, density(1.0), lot(0.1, 0.9), Event::Scattered] {
        assert_eq!(ray.step(any), Command::Finish(Outcome::Captured));
        assert_eq!(ray, done);
    }
}

#[test]
fn a_ray_that_never_ends_is_exhausted_after_max_steps() {
    let mut ray = Ray::new(DiskMode::Absent, Integrator::Euler);
    let mut events = 0;
    loop {
        match ray.command() {
            Command::Probe => {
                ray.step(clear());
            }
            Command::Integrate(i) => {
                assert_eq!(i, Integrator::Euler);
                ray.step(Event::Stepped);
            }
            Command::Finish(o) => {
                assert_eq!(o, Outcome::Exhausted);
                break;
            }
            other => panic!("no disk, yet {:?}", other),
        }
        events += 1;
        assert!(events <= 5 * 128 + 5);
        assert!(ray.is_wf());
    }
    assert_eq!(ray.steps, 128);
    assert_eq!(events, 256);
    assert!(Outcome::Exhausted.adds_sky());
    assert!(Outcome::Exhausted.counts());
}

#[test]
fn the_longest_march_samples_the_disk_once_per_step() {
    let mut ray = Ray::new(DiskMode::Volume, Integrator::Euler);
    let mut events = 0;
    while ray.outcome().is_none() {
        let event = match ray.command() {
            Command::Probe => clear(),
            Command::SampleVolume => density(2.0),
            // the lot never says "scatter"
            Command::DrawLot => lot(0.5, 0.25),
            Command::Integrate(_) => Event::Stepped,
            other => panic!("unexpected {:?}", other),
        };
        ray.step(event);
        events += 1;
    }
    assert_eq!(ray.outcome(), Some(Outcome::Exhausted));
    assert_eq!(ray.steps, 128);
    assert_eq!(ray.emissions, 128);
    assert_eq!(ray.bounces, 0);
    assert_eq!(events, 4 * 128);
}

#[test]
fn five_bounces_discard_the_sample() {
    let mut ray = Ray::new(DiskMode::Volume, Integrator::Euler);
    let mut rounds = 0;
    while ray.outcome().is_none() {
        bounce(&mut ray);
        rounds += 1;
    }
    assert_eq!(ray.outcome(), Some(Outcome::Discarded));
    assert_eq!(ray.bounces, 5);
    assert_eq!(rounds, 5);
    assert_eq!(ray.emissions, 5);
    assert!(!Outcome::Discarded.counts());
    assert!(!Outcome::Discarded.adds_sky());
}

#[test]
fn four_bounces_are_survived() {
    let mut ray = Ray::new(DiskMode::Volume, Integrator::Euler);
    for _ in 0..4 {
        bounce(&mut ray);
        assert_eq!(ray.command(), Command::Probe);
    }
    assert_eq!(ray.bounces, 4);
    assert_eq!(ray.phase, Phase::Probe);
}

#[test]
fn the_lot_is_drawn_only_in_a_dense_medium() {
    let mut ray = Ray::new(DiskMode::Volume, Integrator::Euler);
    ray.step(clear());
    for thin in [0.0f32, -0.0, -3.0, f32::NAN] {
        let mut probe = ray;
        assert_eq!(probe.step(density(thin)), Command::Integrate(Integrator::Euler));
        assert_eq!(probe.emissions, 1);
        assert_eq!(probe.bounces, 0);
    }
    assert_eq!(ray.step(density(0.001)), Command::DrawLot);
    assert_eq!(ray.emissions, 1);
}

#[test]
fn a_ray_scatters_when_less_light_passes_than_the_lot() {
    let mut ray = Ray::new(DiskMode::Volume, Integrator::Euler);
    ray.step(clear());
    ray.step(density(2.0));
    for (passing, drawn, scatter) in
        [(0.2f32, 0.3f32, true), (0.3, 0.3, false), (1.0, 0.999, false), (f32::NAN, 0.5, false)]
    {
        let mut probe = ray;
        let next = probe.step(lot(passing, drawn));
        if scatter {
            assert_eq!(next, Command::Scatter);
            assert_eq!(probe.bounces, 1);
            assert_eq!(probe.step(Event::Scattered), Command::Integrate(Integrator::Euler));
        } else {
            assert_eq!(next, Command::Integrate(Integrator::Euler));
            assert_eq!(probe.bounces, 0);
        }
    }
}

#[test]
fn a_surface_hit_ends_the_march_with_the_disk_colour() {
    let mut ray = Ray::new(DiskMode::Surface, Integrator::Euler);
    assert_eq!(ray.step(clear()), Command::SampleSurface);
    assert_eq!(ray.step(surface(0.125)), Command::Integrate(Integrator::Euler));
    assert_eq!(ray.step(Event::Stepped), Command::Probe);
    assert_eq!(ray.step(clear()), Command::SampleSurface);
    assert_eq!(ray.step(surface(-0.125)), Command::Finish(Outcome::HitDisk));
    assert_eq!(ray.steps, 1);
    assert!(!Outcome::HitDisk.adds_sky());
    assert!(Outcome::HitDisk.counts());
}

#[test]
fn zero_distance_is_a_hit_and_the_least_above_is_not() {
    for (d, expected) in [
        (0.0f32, true),
        (-0.0, true),
        (-2.0, true),
        (1e-30, false),
        (f32::NAN, false),
        (f32::NEG_INFINITY, true),
    ] {
        let mut ray = Ray::new(DiskMode::Surface, Integrator::Euler);
        ray.step(clear());
        let next = ray.step(surface(d));
        assert_eq!(next == Command::Finish(Outcome::HitDisk), expected, "{d}");
    }
}

#[test]
fn the_step_limit_is_looked_at_before_the_bounce_limit() {
    let mut ray = Ray::new(DiskMode::Volume, Integrator::Euler);
    for round in 0..128 {
        ray.step(clear());
        ray.step(density(2.0));
        // bounce only in the last five rounds
        if round >= 123 {
            ray.step(lot(0.5, 0.75));
            ray.step(Event::Scattered);
        } else {
            ray.step(lot(0.5, 0.25));
        }
        ray.step(Event::Stepped);
    }
    assert_eq!(ray.bounces, 5);
    assert_eq!(ray.outcome(), Some(Outcome::Exhausted));
    assert!(ray.is_wf());
}

#[test]
fn a_state_out_of_its_limits_is_told_apart() {
    let good = Ray::new(DiskMode::Surface, Integrator::Euler);
    assert!(good.is_wf());
    assert!(!Ray { steps: 129, ..good }.is_wf());
    assert!(!Ray { emissions: 1, ..good }.is_wf());
    assert!(!Ray { bounces: 1, ..good }.is_wf());
    assert!(!Ray { phase: Phase::Lot, ..good }.is_wf());
    assert!(!Ray { phase: Phase::Done(Outcome::Exhausted), ..good }.is_wf());
    assert!(Ray { phase: Phase::Done(Outcome::Exhausted), steps: 128, ..good }.is_wf());
}

#[test]
fn the_radii_are_as_documented() {
    assert_eq!(f32::from_bits(HORIZON_SQUARED), 0.6f32 * 0.6f32);
    assert_eq!(f32::from_bits(SKY_SQUARED), 3.6f32 * 3.6f32);
}

#[test]
fn a_probe_compares_with_both_radii() {
    let end = |d: f32| {
        let mut ray = Ray::new(DiskMode::Absent, Integrator::Euler);
        ray.step(at(d));
        ray.outcome()
    };
    assert_eq!(end(0.0), Some(Outcome::Captured));
    assert_eq!(end(0.35), Some(Outcome::Captured));
    assert_eq!(end(0.6 * 0.6), None);
    assert_eq!(end(1.0), None);
    assert_eq!(end(3.6 * 3.6), None);
    assert_eq!(end(12.97), Some(Outcome::Escaped));
    assert_eq!(end(f32::INFINITY), Some(Outcome::Escaped));
    assert_eq!(end(f32::NAN), None);
    assert_eq!(end(-1.0), Some(Outcome::Captured));
}

#[test]
fn a_ray_on_the_sky_sphere_has_not_escaped() {
    let first = |bits: u32| {
        let mut ray = Ray::new(DiskMode::Absent, Integrator::Euler);
        ray.step(Event::Position { distance_squared: bits })
    };
    assert_eq!(first(SKY_SQUARED), Command::Integrate(Integrator::Euler));
    assert_eq!(first(SKY_SQUARED + 1), Command::Finish(Outcome::Escaped));
    assert_eq!(first(HORIZON_SQUARED - 1), Command::Finish(Outcome::Captured));
    assert_eq!(first(HORIZON_SQUARED), Command::Integrate(Integrator::Euler));
}

#[test]
fn outside_the_disk_there_is_nothing() {
    let radius = 8.0f32;
    let thickness = 0.1f32;
    let nothing = DiskInfo { emission: Triple { x: 0, y: 0, z: 0 }, distance: 0 };
    let something = DiskInfo {
        emission: Triple { x: 1.0f32.to_bits(), y: 2.0f32.to_bits(), z: 3.0f32.to_bits() },
        distance: 4.0f32.to_bits(),
    };
    for i in 0..40 {
        for j in -20..=20 {
            let radial = i as f32 * 0.25;
            let height = j as f32 * 0.0125;
            let expected_outside = radial > radius || height.abs() > thickness;
            assert_eq!(
                is_outside(radial.to_bits(), height.to_bits(), radius.to_bits(), thickness.to_bits()),
                expected_outside
            );
            let got = disk_volume(
                radial.to_bits(),
                height.to_bits(),
                radius.to_bits(),
                thickness.to_bits(),
                || {
                    assert!(!expected_outside, "the inside is not asked outside");
                    something
                },
            );
            assert_eq!(got, if expected_outside { nothing } else { something });
        }
    }
}

#[test]
fn the_rim_of_the_disk_is_inside() {
    let r = 8.0f32.to_bits();
    let t = 0.1f32.to_bits();
    assert!(!is_outside(r, t, r, t));
    assert!(!is_outside(r, (-0.1f32).to_bits(), r, t));
    assert!(is_outside(r + 1, 0, r, t));
    assert!(is_outside(0, t + 1, r, t));
    assert!(is_outside(0, (-0.1f32).to_bits() + 1, r, t));
}

#[test]
fn one_ray_in_ten_is_spread_a_little_and_one_in_ten_widely() {
    assert_eq!(f32::from_bits(BLOOM_TIGHT_BELOW), 0.10);
    assert_eq!(f32::from_bits(BLOOM_WIDE_ABOVE), 0.90);
    assert_eq!(bloom_band(0.0f32.to_bits()), Bloom::Tight);
    assert_eq!(bloom_band(0.0999f32.to_bits()), Bloom::Tight);
    assert_eq!(bloom_band(0.10f32.to_bits()), Bloom::Unspread);
    assert_eq!(bloom_band(0.5f32.to_bits()), Bloom::Unspread);
    assert_eq!(bloom_band(0.90f32.to_bits()), Bloom::Unspread);
    assert_eq!(bloom_band(0.9001f32.to_bits()), Bloom::Wide);
    assert_eq!(bloom_band(f32::NAN.to_bits()), Bloom::Unspread);
}
