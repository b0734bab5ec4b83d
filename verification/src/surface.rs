use vstd::prelude::*;

verus! {

/// How finished frames reach the screen.
#[derive(Clone, Copy, Debug, PartialEq, Eq, Structural)]
pub enum PresentMode {
    AutoVsync,
    AutoNoVsync,
    Fifo,
    FifoRelaxed,
    Immediate,
    Mailbox,
}

/// The format of the pixels of a surface.
#[derive(Clone, Copy, Debug, PartialEq, Eq, Structural)]
pub enum TextureFormat {
    Rgba8Unorm,
    Bgra8Unorm,
    /// Any other format, by the number under which the driver knows it.
    Other(u32),
}

/// The size and the presentation of the surface that is drawn to.
#[derive(Clone, Copy, Debug, PartialEq, Eq, Structural)]
pub struct SurfaceConfiguration {
    pub width: u32,
    pub height: u32,
    pub present_mode: PresentMode,
}

/// What a frame may change about the surface, and whether it did.
#[derive(Clone, Copy, Debug, PartialEq, Eq, Structural)]
pub struct State {
    pub surface_config: SurfaceConfiguration,
    pub dirty: bool,
}

/// How asking the surface for its next picture ended.
#[derive(Clone, Copy, Debug, PartialEq, Eq, Structural)]
pub enum Acquired {
    /// A picture that fits the surface.
    Optimal,
    /// A picture that can be drawn to but no longer fits the surface well.
    Suboptimal,
    /// The surface was lost.
    Lost,
    /// The surface has changed since it was configured.
    Outdated,
    /// No picture came in time.
    Timeout,
    /// The device is out of memory.
    OutOfMemory,
}

/// What the loop does with a frame.
#[derive(Clone, Copy, Debug, PartialEq, Eq, Structural)]
pub enum FrameAction {
    /// Update and draw into the picture.
    Draw,
    /// Configure the surface anew and ask once more.
    Reconfigure,
    /// Leave this frame out and wait for the next.
    Skip,
    /// Leave the loop.
    Exit,
}

/// The mode that stands for a choice of vertical sync.
pub open spec fn spec_present_mode(vsync: bool) -> PresentMode {
    if vsync {
        PresentMode::AutoVsync
    } else {
        PresentMode::AutoNoVsync
    }
}

/// Whether a mode waits for the vertical blank.
pub open spec fn waits_for_blank(mode: PresentMode) -> bool {
    mode == PresentMode::Fifo || mode == PresentMode::FifoRelaxed || mode == PresentMode::AutoVsync
}

/// The larger of an extent and one: no surface has an empty side.
pub open spec fn at_least_one(extent: u32) -> u32 {
    if extent == 0 {
        1
    } else {
        extent
    }
}

/// What the first answer of the surface leads to.
pub open spec fn first_action(answer: Acquired) -> FrameAction {
    match answer {
        Acquired::Optimal => FrameAction::Draw,
        Acquired::Suboptimal => FrameAction::Reconfigure,
        Acquired::Lost => FrameAction::Reconfigure,
        Acquired::Outdated => FrameAction::Reconfigure,
        Acquired::Timeout => FrameAction::Skip,
        Acquired::OutOfMemory => FrameAction::Exit,
    }
}

/// The format to draw in: the first of the formats that is preferred,
/// where red-first comes before blue-first; failing both, the first format
/// there is.
pub open spec fn preferred(formats: Seq<TextureFormat>) -> Option<TextureFormat> {
    if formats.contains(TextureFormat::Rgba8Unorm) {
        Some(TextureFormat::Rgba8Unorm)
    } else if formats.contains(TextureFormat::Bgra8Unorm) {
        Some(TextureFormat::Bgra8Unorm)
    } else if formats.len() > 0 {
        Some(formats[0])
    } else {
        None
    }
}

/// The mode that stands for a choice of vertical sync.
pub fn present_mode(vsync: bool) -> (r: PresentMode)
    ensures
        r == spec_present_mode(vsync),
{
    if vsync {
        PresentMode::AutoVsync
    } else {
        PresentMode::AutoNoVsync
    }
}

/// Takes the size of the window into the configuration of its surface.
pub fn reconfigure_surface(config: &mut SurfaceConfiguration, width: u32, height: u32)
    ensures
        *final(config) == (SurfaceConfiguration {
            width: at_least_one(width),
            height: at_least_one(height),
            present_mode: old(config).present_mode,
        }),
{
    config.width = if width == 0 {
        1
    } else {
        width
    };
    config.height = if height == 0 {
        1
    } else {
        height
    };
}

/// Decides what to do with the first answer of the surface in a frame.
pub fn on_acquired(answer: Acquired) -> (r: FrameAction)
    ensures
        r == first_action(answer),
{
    match answer {
        Acquired::Optimal => FrameAction::Draw,
        Acquired::Suboptimal => FrameAction::Reconfigure,
        Acquired::Lost => FrameAction::Reconfigure,
        Acquired::Outdated => FrameAction::Reconfigure,
        Acquired::Timeout => FrameAction::Skip,
        Acquired::OutOfMemory => FrameAction::Exit,
    }
}

/// Decides what to do with the second answer of the surface in a frame,
/// after it was configured anew: any picture is drawn to, and any failure
/// leaves the frame out.
pub fn on_acquired_again(answer: Acquired) -> (r: FrameAction)
    ensures
        r == (if answer == Acquired::Optimal || answer == Acquired::Suboptimal {
            FrameAction::Draw
        } else {
            FrameAction::Skip
        }),
{
    match answer {
        Acquired::Optimal => FrameAction::Draw,
        Acquired::Suboptimal => FrameAction::Draw,
        _ => FrameAction::Skip,
    }
}

/// Picks the format to draw in from the formats of a surface.
pub fn view_format(formats: &[TextureFormat]) -> (r: Option<TextureFormat>)
    ensures
        r == preferred(formats@),
{
    let mut blue_first = false;
    let mut i: usize = 0;
    while i < formats.len()
        invariant
            i <= formats@.len(),
            !formats@.take(i as int).contains(TextureFormat::Rgba8Unorm),
            blue_first == formats@.take(i as int).contains(TextureFormat::Bgra8Unorm),
        decreases formats@.len() - i,
    {
        let ghost seen = formats@.take(i as int);
        let ghost next = formats@.take(i + 1);
        proof {
            assert(next =~= seen.push(formats@[i as int]));
            assert forall|f: TextureFormat| next.contains(f) <==> seen.contains(f) || f
                == formats@[i as int] by {
                if seen.contains(f) {
                    let k = choose|k: int| 0 <= k < seen.len() && seen[k] == f;
                    assert(next[k] == f);
                }
                if f == formats@[i as int] {
                    assert(next[i as int] == f);
                }
            }
        }
        match formats[i] {
            TextureFormat::Rgba8Unorm => {
                proof {
                    assert(formats@[i as int] == TextureFormat::Rgba8Unorm);
                }
                return Some(TextureFormat::Rgba8Unorm);
            },
            TextureFormat::Bgra8Unorm => {
                blue_first = true;
            },
            TextureFormat::Other(_) => {},
        }
        i = i + 1;
    }
    proof {
        assert(formats@.take(i as int) =~= formats@);
    }
    if blue_first {
        Some(TextureFormat::Bgra8Unorm)
    } else if formats.len() > 0 {
        Some(formats[0])
    } else {
        None
    }
}

impl State {
    /// Whether frames wait for the vertical blank.
    pub fn is_vsync(&self) -> (r: bool)
        ensures
            r == waits_for_blank(self.surface_config.present_mode),
    {
        match self.surface_config.present_mode {
            PresentMode::Fifo => true,
            PresentMode::FifoRelaxed => true,
            PresentMode::AutoVsync => true,
            _ => false,
        }
    }

    /// Chooses whether frames wait for the vertical blank. The state is
    /// dirty exactly when the choice differs from what was in force.
    pub fn set_vsync(&mut self, vsync: bool)
        ensures
            final(self).dirty == (vsync != waits_for_blank(old(self).surface_config.present_mode)),
            final(self).surface_config == (SurfaceConfiguration {
                present_mode: spec_present_mode(vsync),
                ..old(self).surface_config
            }),
    {
        self.dirty = vsync != self.is_vsync();
        self.surface_config.present_mode = present_mode(vsync);
    }

    /// Width and height of the surface.
    pub fn dimensions(&self) -> (r: (u32, u32))
        ensures
            r == (self.surface_config.width, self.surface_config.height),
    {
        (self.surface_config.width, self.surface_config.height)
    }
}

} // verus!
