use kerrbhy::accumulate::{blend_divisor, settle, tally, Resolve, Tally};
use kerrbhy::features::{DiskMode, Integrator};
use kerrbhy::framebuffer::FrameBuffer;
use kerrbhy::grid::Texel;
use kerrbhy::kernel::{Command, Event, Outcome, Ray};
use kerrbhy::texture::{EdgeMode, Filter, Sampler, Texture1D, Texture2D, TextureError};

fn texel(r: f32, g: f32, b: f32, a: f32) -> Texel {
    Texel { red: r.to_bits(), green: g.to_bits(), blue: b.to_bits(), alpha: a.to_bits() }
}

fn png(width: u32, height: u32, bytes: Vec<u8>) -> Vec<u8> {
    let picture = image::RgbaImage::from_raw(width, height, bytes).unwrap();
    let mut out = std::io::Cursor::new(Vec::new());
    picture.write_to(&mut out, image::ImageFormat::Png).unwrap();
    out.into_inner()
}

fn ramp(width: u32, height: u32) -> Vec<u8> {
    let mut bytes = Vec::new();
    for y in 0..height {
        for x in 0..width {
            bytes.push((10 * x + y) as u8);
            bytes.push((100 + x) as u8);
            bytes.push((200 + y) as u8);
            bytes.push(255);
        }
    }
    bytes
}

#[test]
fn a_new_buffer_is_blank() {
    let fb = FrameBuffer::new(3, 2);
    assert_eq!(fb.width(), 3);
    assert_eq!(fb.height(), 2);
    for y in 0..2 {
        for x in 0..3 {
            assert_eq!(fb.get(x, y), Texel { red: 0, green: 0, blue: 0, alpha: 0 });
        }
    }
    assert_eq!(fb.into_vec(), vec![0u8; 24]);
}

#[test]
fn an_empty_buffer_gives_no_bytes() {
    assert_eq!(FrameBuffer::new(0, 5).into_vec(), Vec::<u8>::new());
    assert_eq!(FrameBuffer::new(5, 0).into_vec(), Vec::<u8>::new());
}

#[test]
fn resizing_drops_what_was_accumulated() {
    let mut fb = FrameBuffer::new(2, 2);
    fb.put(1, 1, texel(0.5, 0.5, 0.5, 1.0));
    fb.resize(3, 1);
    assert_eq!((fb.width(), fb.height()), (3, 1));
    assert_eq!(fb.into_vec(), vec![0u8; 12]);
    let mut same = FrameBuffer::new(2, 2);
    same.put(0, 0, texel(1.0, 1.0, 1.0, 1.0));
    same.resize(2, 2);
    assert_eq!(same.get(0, 0), texel(0.0, 0.0, 0.0, 0.0));
}

#[test]
fn put_changes_one_pixel_only() {
    let mut fb = FrameBuffer::new(2, 2);
    let t = texel(0.25, 0.5, 0.75, 1.0);
    fb.put(1, 0, t);
    assert_eq!(fb.get(1, 0), t);
    assert_eq!(fb.get(0, 0), texel(0.0, 0.0, 0.0, 0.0));
    assert_eq!(fb.get(0, 1), texel(0.0, 0.0, 0.0, 0.0));
    assert_eq!(fb.get(1, 1), texel(0.0, 0.0, 0.0, 0.0));
}

#[test]
fn bit_patterns_survive_the_buffer() {
    let mut fb = FrameBuffer::new(1, 1);
    let odd = Texel { red: 0x7fc0_1234, green: 0x8000_0000, blue: 0x0000_0001, alpha: 0xff80_0000 };
    fb.put(0, 0, odd);
    assert_eq!(fb.get(0, 0), odd);
}

#[test]
fn for_each_visits_every_pixel_with_its_coordinates() {
    let mut fb = FrameBuffer::new(3, 2);
    fb.for_each(|x, y, old| {
        assert_eq!(old, Texel { red: 0, green: 0, blue: 0, alpha: 0 });
        texel(x as f32, y as f32, 0.0, 1.0)
    });
    for y in 0..2 {
        for x in 0..3 {
            assert_eq!(fb.get(x, y), texel(x as f32, y as f32, 0.0, 1.0));
        }
    }
    let mut calls = 0;
    let counter = std::cell::Cell::new(0);
    fb.for_each(|_, _, old| {
        counter.set(counter.get() + 1);
        old
    });
    calls += counter.get();
    assert_eq!(calls, 6);
}

#[test]
fn bytes_come_out_row_after_row() {
    let mut fb = FrameBuffer::new(2, 2);
    fb.put(0, 0, texel(1.0, 0.0, 0.0, 1.0));
    fb.put(1, 0, texel(0.0, 1.0, 0.0, 1.0));
    fb.put(0, 1, texel(0.0, 0.0, 1.0, 1.0));
    fb.put(1, 1, texel(1.0, 1.0, 1.0, 0.0));
    assert_eq!(
        fb.into_vec(),
        vec![255, 0, 0, 255, 0, 255, 0, 255, 0, 0, 255, 255, 255, 255, 255, 0]
    );
}

#[test]
fn channels_are_narrowed_with_rounding_and_clamping() {
    let mut fb = FrameBuffer::new(2, 1);
    fb.put(0, 0, texel(0.5, 0.2, 2.0, -1.0));
    fb.put(1, 0, texel(f32::NAN, f32::INFINITY, f32::NEG_INFINITY, -0.0));
    assert_eq!(fb.into_vec(), vec![128, 51, 255, 0, 255, 255, 0, 0]);
}

#[test]
fn tally_counts_valid_samples() {
    let t = tally(&[true, false, true, true, false]);
    assert_eq!(t, Tally { taken: 5, valid: 3 });
    assert_eq!(t.resolve(), Resolve::Average { count: 3 });
    assert_eq!(tally(&[]), Tally { taken: 0, valid: 0 });
    assert_eq!(tally(&[]).resolve(), Resolve::Keep);
}

#[test]
fn all_discarded_samples_keep_the_pixel() {
    let t = tally(&[false, false, false]);
    assert_eq!(t.resolve(), Resolve::Keep);
    let mut fb = FrameBuffer::new(2, 2);
    settle(&mut fb, 1, 1, t.resolve(), texel(f32::NAN, 9.0, 9.0, 9.0));
    assert_eq!(fb.into_vec(), vec![0u8; 16]);
}

#[test]
fn a_resolved_mean_is_written() {
    let mut fb = FrameBuffer::new(2, 1);
    let mean = texel(0.1, 0.2, 0.3, 1.0);
    settle(&mut fb, 1, 0, Resolve::Average { count: 2 }, mean);
    assert_eq!(fb.get(1, 0), mean);
    assert_eq!(fb.get(0, 0), texel(0.0, 0.0, 0.0, 0.0));
}

#[test]
fn record_counts_one_by_one() {
    let mut t = Tally::new();
    t.record(false);
    t.record(true);
    assert_eq!(t, Tally { taken: 2, valid: 1 });
}

#[test]
fn blend_weights_make_a_running_mean() {
    assert_eq!(blend_divisor(0), 1);
    assert_eq!(blend_divisor(1), 2);
    assert_eq!(blend_divisor(4), 5);
    assert_eq!(blend_divisor(u32::MAX), 1 << 32);
    for k in [1u32, 2, 5] {
        let samples: Vec<f64> = (0..k).map(|i| (i * i) as f64 + 0.5).collect();
        let mut mean = 0.0f64;
        for (n, s) in samples.iter().enumerate() {
            mean += (s - mean) / blend_divisor(n as u32) as f64;
        }
        let plain = samples.iter().sum::<f64>() / k as f64;
        assert!((mean - plain).abs() < 1e-12);
    }
}

#[test]
fn a_texture_is_decoded_as_the_image_crate_decodes_it() {
    let bytes = png(3, 2, ramp(3, 2));
    let tex = Texture2D::from_bytes(&bytes).unwrap();
    assert_eq!(tex.size(), (3, 2));
    let reference = image::load_from_memory(&bytes).unwrap().into_rgba32f();
    for y in 0..2 {
        for x in 0..3 {
            let p = reference.get_pixel(x, y).0;
            assert_eq!(tex.get(x, y), texel(p[0], p[1], p[2], p[3]));
            assert_eq!(tex.get_checked(x, y), Some(texel(p[0], p[1], p[2], p[3])));
        }
    }
    assert_eq!(tex.get(2, 1).alpha, 1.0f32.to_bits());
    assert_eq!(tex.get_checked(3, 0), None);
    assert_eq!(tex.get_checked(0, 2), None);
}

#[test]
fn bytes_that_are_no_picture_are_refused() {
    assert!(matches!(Texture2D::from_bytes(b"not a picture"), Err(TextureError::Undecodable)));
    assert!(matches!(Texture2D::from_bytes(&[]), Err(TextureError::Undecodable)));
}

#[test]
fn a_one_dimensional_texture_reads_its_first_row() {
    let bytes = png(3, 2, ramp(3, 2));
    let tex = Texture1D::from_bytes(&bytes).unwrap();
    let two = Texture2D::from_bytes(&bytes).unwrap();
    assert_eq!(tex.size(), 3);
    for x in 0..3 {
        assert_eq!(tex.get(x), two.get(x, 0));
        assert_eq!(tex.get_checked(x), Some(two.get(x, 0)));
    }
    assert_eq!(tex.get_checked(3), None);
}

#[test]
fn wrap_brings_coordinates_into_the_texture() {
    let tex = Texture2D::from_bytes(&png(3, 2, ramp(3, 2))).unwrap();
    assert_eq!(EdgeMode::Wrap.apply2d(&tex, 0, 0), (0, 0));
    assert_eq!(EdgeMode::Wrap.apply2d(&tex, 3, 2), (0, 0));
    assert_eq!(EdgeMode::Wrap.apply2d(&tex, 7, 5), (1, 1));
    assert_eq!(EdgeMode::Wrap.apply2d(&tex, u32::MAX, u32::MAX), (0, 1));
}

#[test]
fn nearest_sampling_wraps_and_reads() {
    let tex = Texture2D::from_bytes(&png(3, 2, ramp(3, 2))).unwrap();
    let sampler = Sampler { filter_mode: Filter::Nearest, edge_mode: EdgeMode::Wrap };
    assert_eq!(sampler.sample_nearest(&tex, 1, 1), tex.get(1, 1));
    assert_eq!(sampler.sample_nearest(&tex, 4, 3), tex.get(1, 1));
    assert_eq!(sampler.sample_nearest(&tex, 3, 0), tex.get(0, 0));
}

#[test]
fn linear_sampling_reads_the_four_corners() {
    let tex = Texture2D::from_bytes(&png(3, 2, ramp(3, 2))).unwrap();
    let sampler = Sampler { filter_mode: Filter::Linear, edge_mode: EdgeMode::Wrap };
    let c = sampler.sample_corners(&tex, 2, 1, 3, 2);
    assert_eq!(c.q11, tex.get(2, 1));
    assert_eq!(c.q12, tex.get(2, 0));
    assert_eq!(c.q21, tex.get(0, 1));
    assert_eq!(c.q22, tex.get(0, 0));
}

#[test]
fn a_constant_texture_gives_its_colour_everywhere() {
    let tex = Texture2D::from_bytes(&png(1, 1, vec![51, 102, 153, 255])).unwrap();
    let sampler = Sampler { filter_mode: Filter::Linear, edge_mode: EdgeMode::Wrap };
    let c = sampler.sample_corners(&tex, 17, 4, 18, 5);
    let only = tex.get(0, 0);
    assert_eq!((c.q11, c.q12, c.q21, c.q22), (only, only, only, only));
    assert_eq!(f32::from_bits(only.red), 51.0 / 255.0);
}

/// A driver that answers from a script and notes what it was asked.
struct Script {
    probes: Vec<f32>,
    densities: Vec<f32>,
    lots: Vec<(f32, f32)>,
    surfaces: Vec<f32>,
    log: Vec<String>,
    colour: (f32, f32, f32),
    accepted: Vec<(u32, u32, u32)>,
}

fn next<T: Copy>(list: &mut Vec<T>, otherwise: T) -> T {
    if list.is_empty() {
        otherwise
    } else {
        list.remove(0)
    }
}

impl Script {
    fn new() -> Self {
        Script {
            probes: Vec::new(),
            densities: Vec::new(),
            lots: Vec::new(),
            surfaces: Vec::new(),
            log: Vec::new(),
            colour: (0.5, 0.5, 0.5),
            accepted: Vec::new(),
        }
    }

    /// Runs the loop of one ray: carries out each command and hands back
    /// what it found, until the ray is finished.
    fn march(&mut self, disk: DiskMode, integrator: Integrator) -> Ray {
        let mut ray = Ray::new(disk, integrator);
        loop {
            assert!(ray.is_wf());
            let event = match ray.command() {
                Command::Probe => {
                    self.log.push("probe".to_string());
                    Event::Position { distance_squared: next(&mut self.probes, 1.0).to_bits() }
                }
                Command::SampleVolume => {
                    self.log.push("volume".to_string());
                    Event::Density { density: next(&mut self.densities, 0.0).to_bits() }
                }
                Command::DrawLot => {
                    self.log.push("lot".to_string());
                    let (passing, lot) = next(&mut self.lots, (0.5, 0.25));
                    Event::Lot { passing: passing.to_bits(), lot: lot.to_bits() }
                }
                Command::Scatter => {
                    self.log.push("scatter".to_string());
                    Event::Scattered
                }
                Command::SampleSurface => {
                    self.log.push("surface".to_string());
                    Event::Surface { signed_distance: next(&mut self.surfaces, 0.125).to_bits() }
                }
                Command::Integrate(method) => {
                    self.log.push(format!("integrate {:?}", method));
                    Event::Stepped
                }
                Command::Finish(_) => return ray,
            };
            ray.step(event);
        }
    }

    /// Takes the samples of one pixel and counts them.
    fn pixel(&mut self, samples: u32, disk: DiskMode) -> Tally {
        let mut tally = Tally::new();
        for _ in 0..samples {
            let outcome = self.march(disk, Integrator::Euler).outcome().unwrap();
            let (r, g, b) = if outcome == Outcome::Discarded {
                (-1.0f32, -1.0f32, -1.0f32)
            } else {
                self.colour
            };
            let bits = (r.to_bits(), g.to_bits(), b.to_bits());
            if tally.take(outcome, bits.0, bits.1, bits.2) {
                self.accepted.push(bits);
            }
        }
        tally
    }
}

#[test]
fn the_march_asks_in_the_order_of_the_loop() {
    let mut s = Script::new();
    s.probes = vec![1.0, 1.0, 13.0];
    let end = s.march(DiskMode::Volume, Integrator::RungeKutta4);
    assert_eq!(end.outcome(), Some(Outcome::Escaped));
    assert_eq!(end.steps, 2);
    assert_eq!(
        s.log,
        vec![
            "probe",
            "volume",
            "integrate RungeKutta4",
            "probe",
            "volume",
            "integrate RungeKutta4",
            "probe"
        ]
    );
}

#[test]
fn the_lot_and_the_scattering_follow_the_density() {
    let mut s = Script::new();
    s.probes = vec![1.0, 1.0, 1.0, 13.0];
    s.densities = vec![0.0, 2.0, 2.0];
    s.lots = vec![(0.5, 0.25), (0.5, 0.75)];
    let end = s.march(DiskMode::Volume, Integrator::Euler);
    assert_eq!(end.outcome(), Some(Outcome::Escaped));
    assert_eq!(end.bounces, 1);
    assert_eq!(end.emissions, 3);
    assert_eq!(
        s.log,
        vec![
            "probe",
            "volume",
            "integrate Euler",
            "probe",
            "volume",
            "lot",
            "integrate Euler",
            "probe",
            "volume",
            "lot",
            "scatter",
            "integrate Euler",
            "probe"
        ]
    );
}

#[test]
fn a_captured_ray_is_never_shaded_or_moved() {
    let mut s = Script::new();
    s.probes = vec![0.25];
    let end = s.march(DiskMode::Volume, Integrator::Euler);
    assert_eq!(end.outcome(), Some(Outcome::Captured));
    assert_eq!(s.log, vec!["probe"]);
}

#[test]
fn the_march_stops_at_the_surface() {
    let mut s = Script::new();
    s.surfaces = vec![0.125, -0.125];
    let end = s.march(DiskMode::Surface, Integrator::Adaptive);
    assert_eq!(end.outcome(), Some(Outcome::HitDisk));
    assert_eq!(s.log, vec!["probe", "surface", "integrate Adaptive", "probe", "surface"]);
}

#[test]
fn the_march_ends_by_itself() {
    let mut s = Script::new();
    let end = s.march(DiskMode::Absent, Integrator::Euler);
    assert_eq!(end.outcome(), Some(Outcome::Exhausted));
    assert_eq!(end.steps, 128);
    assert_eq!(s.log.len(), 256);
}

#[test]
fn a_pixel_whose_samples_are_all_discarded_is_kept() {
    let mut s = Script::new();
    s.densities = vec![2.0; 64];
    s.lots = vec![(0.5, 0.75); 64];
    let t = s.pixel(3, DiskMode::Volume);
    assert_eq!(t, Tally { taken: 3, valid: 0 });
    assert_eq!(t.resolve(), Resolve::Keep);
    assert!(s.accepted.is_empty());
    let mut fb = FrameBuffer::new(1, 1);
    settle(&mut fb, 0, 0, t.resolve(), texel(7.0, 7.0, 7.0, 7.0));
    assert_eq!(fb.get(0, 0), texel(0.0, 0.0, 0.0, 0.0));
}

#[test]
fn an_invalid_colour_is_not_accepted() {
    let mut s = Script::new();
    s.probes = vec![0.25, 0.25];
    s.colour = (f32::NAN, 0.0, 0.0);
    let t = s.pixel(2, DiskMode::Absent);
    assert_eq!(t, Tally { taken: 2, valid: 0 });
    assert!(s.accepted.is_empty());
}

#[test]
fn identical_samples_are_all_accepted() {
    let mut s = Script::new();
    s.probes = vec![13.0; 4];
    s.colour = (0.2, 0.4, 0.6);
    let t = s.pixel(4, DiskMode::Absent);
    assert_eq!(t.resolve(), Resolve::Average { count: 4 });
    assert_eq!(s.accepted, vec![(0.2f32.to_bits(), 0.4f32.to_bits(), 0.6f32.to_bits()); 4]);
}

#[test]
fn a_sample_is_taken_by_its_outcome_and_its_colour() {
    let ok = 0.25f32.to_bits();
    let bad = (-1.0f32).to_bits();
    let mut t = Tally::new();
    assert!(t.take(Outcome::Escaped, ok, ok, ok));
    assert!(t.take(Outcome::Captured, ok, 0, ok));
    assert!(t.take(Outcome::HitDisk, ok, ok, ok));
    assert!(t.take(Outcome::Exhausted, ok, ok, ok));
    assert!(!t.take(Outcome::Discarded, ok, ok, ok));
    assert!(!t.take(Outcome::Escaped, ok, bad, ok));
    assert!(!t.take(Outcome::Escaped, f32::INFINITY.to_bits(), ok, ok));
    assert_eq!(t, Tally { taken: 7, valid: 4 });
}

#[test]
fn what_a_decoder_refuses_is_undecodable() {
    let refusal = image::load_from_memory(b"no picture").unwrap_err();
    assert!(matches!(Texture2D::from_decoded(Err(refusal)), Err(TextureError::Undecodable)));
}
