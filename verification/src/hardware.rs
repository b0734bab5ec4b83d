use vstd::prelude::*;
use vstd::arithmetic::div_mod::lemma_fundamental_div_mod;
use crate::config::config_eq;
use crate::config::default_camera;
use crate::config::default_disk;
use crate::config::Config;

verus! {

/// The work handed to the graphics device for one frame.
#[derive(Clone, Copy, Debug, PartialEq, Eq, Structural)]
pub struct Dispatch {
    /// Workgroups along the width.
    pub x: u32,
    /// Workgroups along the height.
    pub y: u32,
    /// The number of frames blended into the picture before this one.
    pub sample: u32,
}

/// The least number of groups of `size` that cover `extent`.
pub open spec fn groups(extent: int, size: int) -> int {
    (extent + size - 1) / size
}

/// The state of the ray marcher on the graphics device: the size of its
/// picture, the configuration it draws, and how many frames it has blended.
#[derive(Clone, Copy, Debug)]
pub struct Marcher {
    config: Config,
    sample_no: u32,
    width: u32,
    height: u32,
}

/// The renderer on the graphics device.
#[derive(Clone, Copy, Debug)]
pub struct Hardware {
    marcher: Marcher,
    own_encoder: bool,
    dirty: bool,
}

impl Marcher {
    pub closed spec fn spec_config(&self) -> Config {
        self.config
    }

    pub closed spec fn spec_sample_no(&self) -> u32 {
        self.sample_no
    }

    pub closed spec fn spec_size(&self) -> (u32, u32) {
        (self.width, self.height)
    }

    /// Whether an update to the given size and configuration changes what is drawn.
    pub open spec fn changed_by(&self, width: u32, height: u32, cfg: Config) -> bool {
        self.spec_size() != (width, height) || !config_eq(self.spec_config(), cfg)
    }

    /// A marcher with a picture of one pixel, the default configuration and
    /// nothing blended.
    pub fn new() -> (r: Marcher)
        ensures
            r.spec_size() == (1u32, 1u32),
            r.spec_sample_no() == 0,
            r.spec_config().features@ == 0,
            r.spec_config().camera == default_camera(),
            r.spec_config().disk == default_disk(),
    {
        Marcher { config: Config::default(), sample_no: 0, width: 1, height: 1 }
    }

    /// Width and height of the picture.
    #[verifier::when_used_as_spec(spec_size)]
    pub fn size(&self) -> (r: (u32, u32))
        ensures
            r == self.spec_size(),
    {
        (self.width, self.height)
    }

    /// The configuration that is drawn.
    #[verifier::when_used_as_spec(spec_config)]
    pub fn config(&self) -> (r: Config)
        ensures
            r == self.spec_config(),
    {
        self.config
    }

    /// The number of frames blended into the picture.
    #[verifier::when_used_as_spec(spec_sample_no)]
    pub fn sample_no(&self) -> (r: u32)
        ensures
            r == self.spec_sample_no(),
    {
        self.sample_no
    }

    /// Takes a new size and configuration. Returns whether either differs
    /// from what was drawn before; if so the picture is made anew in the
    /// new size and blending starts over.
    pub fn update(&mut self, width: u32, height: u32, cfg: Config) -> (dirty: bool)
        ensures
            dirty == old(self).changed_by(width, height, cfg),
            final(self).config() == cfg,
            dirty ==> final(self).size() == (width, height) && final(self).sample_no() == 0,
            !dirty ==> final(self).size() == old(self).size() && final(self).sample_no() == old(
                self,
            ).sample_no(),
    {
        let dimensions_changed = width != self.width || height != self.height;
        let config_changed = !self.config.same(&cfg);
        self.config = cfg;
        let dirty = dimensions_changed || config_changed;
        if dirty {
            self.width = width;
            self.height = height;
            self.sample_no = 0;
        }
        dirty
    }

    /// Plans one frame: enough workgroups of the given size to cover the
    /// picture, blended in as frame number `sample_no`, which then goes up
    /// by one.
    pub fn record(&mut self, group_width: u32, group_height: u32) -> (d: Dispatch)
        requires
            group_width > 0,
            group_height > 0,
            old(self).sample_no() < u32::MAX,
        ensures
            d.x == groups(old(self).size().0 as int, group_width as int),
            d.y == groups(old(self).size().1 as int, group_height as int),
            d.sample == old(self).sample_no(),
            final(self).sample_no() == old(self).sample_no() + 1,
            final(self).size() == old(self).size(),
            final(self).config() == old(self).config(),
    {
        let x: u32 = cover(self.width, group_width);
        let y: u32 = cover(self.height, group_height);
        let sample = self.sample_no;
        self.sample_no = self.sample_no + 1;
        Dispatch { x, y, sample }
    }
}

/// The least number of groups of `size` that cover `extent`.
pub fn cover(extent: u32, size: u32) -> (r: u32)
    requires
        size > 0,
    ensures
        r == groups(extent as int, size as int),
        r * size >= extent,
        extent > 0 ==> (r - 1) * size < extent,
{
    let wide: u64 = extent as u64 + size as u64 - 1;
    let q: u64 = wide / (size as u64);
    proof {
        let n = extent + size - 1;
        lemma_fundamental_div_mod(n, size as int);
        assert(size * (n / (size as int)) == (n / (size as int)) * size) by (nonlinear_arith);
        assert(q <= extent) by (nonlinear_arith)
            requires
                q * size <= extent + size - 1,
                size >= 1,
                q >= 0,
        ;
        assert((q - 1) * size == q * size - size) by (nonlinear_arith);
    }
    q as u32
}

impl Hardware {
    pub closed spec fn spec_marcher(&self) -> Marcher {
        self.marcher
    }

    pub closed spec fn spec_must_render(&self) -> bool {
        self.dirty
    }

    /// Whether the renderer records into an encoder of its own.
    pub closed spec fn owns_encoder(&self) -> bool {
        self.own_encoder
    }

    /// Create a new renderer. Without a window it records into an encoder
    /// of its own. It starts out in need of rendering.
    pub fn new(headless: bool) -> (r: Hardware)
        ensures
            r.must_render(),
            r.owns_encoder() == headless,
            r.spec_marcher().size() == (1u32, 1u32),
            r.spec_marcher().sample_no() == 0,
            r.spec_marcher().config().features@ == 0,
            r.spec_marcher().config().camera == default_camera(),
            r.spec_marcher().config().disk == default_disk(),
    {
        Hardware { marcher: Marcher::new(), own_encoder: headless, dirty: true }
    }

    /// A flag to determine if the renderer needs to re-render.
    #[verifier::when_used_as_spec(spec_must_render)]
    pub fn must_render(&self) -> (r: bool)
        ensures
            r == self.spec_must_render(),
    {
        self.dirty
    }

    /// The size of the picture that the renderer draws to.
    pub fn view(&self) -> (r: (u32, u32))
        ensures
            r == self.spec_marcher().size(),
    {
        self.marcher.size()
    }

    /// The number of frames blended into the picture.
    pub fn sample_no(&self) -> (r: u32)
        ensures
            r == self.spec_marcher().sample_no(),
    {
        self.marcher.sample_no()
    }

    /// Update the state of the renderer: it needs to re-render exactly when
    /// the size or the configuration changed, and then blending starts over.
    pub fn update(&mut self, width: u32, height: u32, cfg: Config)
        ensures
            final(self).must_render() == old(self).spec_marcher().changed_by(width, height, cfg),
            final(self).owns_encoder() == old(self).owns_encoder(),
            final(self).spec_marcher().config() == cfg,
            final(self).must_render() ==> final(self).spec_marcher().size() == (width, height)
                && final(self).spec_marcher().sample_no() == 0,
            !final(self).must_render() ==> final(self).spec_marcher().size() == old(
                self,
            ).spec_marcher().size() && final(self).spec_marcher().sample_no() == old(
                self,
            ).spec_marcher().sample_no(),
    {
        self.dirty = self.marcher.update(width, height, cfg);
    }

    /// Plans the computation of one frame. There must be an encoder to
    /// record into: the renderer's own, or one that the caller brings.
    pub fn compute(&mut self, encoder_given: bool, group_width: u32, group_height: u32) -> (d:
        Dispatch)
        requires
            old(self).owns_encoder() || encoder_given,
            group_width > 0,
            group_height > 0,
            old(self).spec_marcher().sample_no() < u32::MAX,
        ensures
            d.x == groups(old(self).spec_marcher().size().0 as int, group_width as int),
            d.y == groups(old(self).spec_marcher().size().1 as int, group_height as int),
            d.sample == old(self).spec_marcher().sample_no(),
            final(self).spec_marcher().sample_no() == old(self).spec_marcher().sample_no() + 1,
            final(self).spec_marcher().size() == old(self).spec_marcher().size(),
            final(self).spec_marcher().config() == old(self).spec_marcher().config(),
            final(self).must_render() == old(self).must_render(),
            final(self).owns_encoder() == old(self).owns_encoder(),
    {
        self.marcher.record(group_width, group_height)
    }
}

} // verus!
