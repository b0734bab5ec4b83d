use vstd::prelude::*;
use crate::framebuffer::cell;
use crate::framebuffer::FrameBuffer;
use crate::binary32::component_ok;
use crate::binary32::sample_is_valid;
use crate::grid::Texel;
use crate::kernel::Outcome;

verus! {

/// What becomes of a pixel once its samples are in.
#[derive(Clone, Copy, Debug, PartialEq, Eq, Structural)]
pub enum Resolve {
    /// Every sample was discarded: the pixel keeps the colour it had.
    Keep,
    /// The pixel takes the mean of the `count` samples that were kept.
    Average { count: u32 },
}

/// The samples of one pixel in one pass: how many were taken and how many
/// of them may enter the mean.
#[derive(Clone, Copy, Debug, PartialEq, Eq, Structural)]
pub struct Tally {
    pub taken: u32,
    pub valid: u32,
}

/// The number of samples marked valid.
pub open spec fn count_valid(flags: Seq<bool>) -> nat
    decreases flags.len(),
{
    if flags.len() == 0 {
        0
    } else {
        count_valid(flags.drop_last()) + if flags.last() {
            1nat
        } else {
            0nat
        }
    }
}

/// The tally of a run of samples, each marked valid or not.
pub open spec fn tally_of(flags: Seq<bool>) -> Tally {
    Tally { taken: flags.len() as u32, valid: count_valid(flags) as u32 }
}

/// What a tally decides: keep the pixel when nothing valid came in, else
/// take the mean over the valid samples only.
pub open spec fn verdict(t: Tally) -> Resolve {
    if t.valid == 0 {
        Resolve::Keep
    } else {
        Resolve::Average { count: t.valid }
    }
}

/// Whether a sample enters the mean: its ray was not discarded and its
/// colour, given by the bits of red, green and blue, has no component that
/// is below zero, infinite or not a number.
pub open spec fn keeps(outcome: Outcome, red: u32, green: u32, blue: u32) -> bool {
    outcome.counts() && component_ok(red) && component_ok(green) && component_ok(blue)
}

impl Tally {
    /// No more samples are valid than were taken.
    pub open spec fn wf(&self) -> bool {
        self.valid <= self.taken
    }

    /// The tally before any sample.
    pub fn new() -> (r: Tally)
        ensures
            r == tally_of(Seq::<bool>::empty()),
            r.wf(),
    {
        Tally { taken: 0, valid: 0 }
    }

    /// Counts one more sample, valid or discarded.
    pub fn record(&mut self, valid: bool)
        requires
            old(self).wf(),
            old(self).taken < u32::MAX,
        ensures
            final(self).wf(),
            final(self).taken == old(self).taken + 1,
            final(self).valid == old(self).valid + if valid {
                1int
            } else {
                0int
            },
    {
        self.taken = self.taken + 1;
        if valid {
            self.valid = self.valid + 1;
        }
    }

    /// Takes in the sample of a ray that ended with `outcome` and resolved
    /// to the given colour: decides whether it enters the mean, and counts
    /// it. Returns the decision; only a sample for which it is true may be
    /// added to the sum.
    pub fn take(&mut self, outcome: Outcome, red: u32, green: u32, blue: u32) -> (keep: bool)
        requires
            old(self).wf(),
            old(self).taken < u32::MAX,
        ensures
            keep == keeps(outcome, red, green, blue),
            final(self).wf(),
            final(self).taken == old(self).taken + 1,
            final(self).valid == old(self).valid + if keep {
                1int
            } else {
                0int
            },
    {
        let keep = outcome.counts() && sample_is_valid(red, green, blue);
        self.record(keep);
        keep
    }

    /// What becomes of the pixel.
    pub fn resolve(&self) -> (r: Resolve)
        ensures
            r == verdict(*self),
    {
        if self.valid == 0 {
            Resolve::Keep
        } else {
            Resolve::Average { count: self.valid }
        }
    }
}

/// Tallies a run of samples, each marked valid or not.
pub fn tally(flags: &[bool]) -> (r: Tally)
    requires
        flags@.len() <= u32::MAX,
    ensures
        r == tally_of(flags@),
        r.wf(),
{
    let mut t = Tally::new();
    let mut i: usize = 0;
    while i < flags.len()
        invariant
            i <= flags@.len() <= u32::MAX,
            t.wf(),
            t == tally_of(flags@.take(i as int)),
        decreases flags@.len() - i,
    {
        proof {
            let next = flags@.take(i + 1);
            assert(next.drop_last() =~= flags@.take(i as int));
            assert(next.last() == flags@[i as int]);
            lemma_count_valid_bound(flags@.take(i as int));
        }
        t.record(flags[i]);
        i = i + 1;
    }
    proof {
        assert(flags@.take(i as int) =~= flags@);
    }
    t
}

/// No more samples are valid than there are.
pub proof fn lemma_count_valid_bound(flags: Seq<bool>)
    ensures
        count_valid(flags) <= flags.len(),
    decreases flags.len(),
{
    if flags.len() > 0 {
        lemma_count_valid_bound(flags.drop_last());
    }
}

/// The count of valid samples is zero exactly when every sample was discarded.
pub proof fn lemma_count_valid_zero(flags: Seq<bool>)
    ensures
        count_valid(flags) == 0 <==> forall|i: int| 0 <= i < flags.len() ==> !flags[i],
    decreases flags.len(),
{
    if flags.len() > 0 {
        lemma_count_valid_zero(flags.drop_last());
        if count_valid(flags) == 0 {
            assert forall|i: int| 0 <= i < flags.len() implies !flags[i] by {
                if i < flags.len() - 1 {
                    assert(flags.drop_last()[i] == flags[i]);
                }
            }
        } else if forall|i: int| 0 <= i < flags.len() ==> !flags[i] {
            assert forall|i: int| 0 <= i < flags.drop_last().len() implies !flags.drop_last()[i] by {
                assert(flags.drop_last()[i] == flags[i]);
            }
        }
    }
}

/// When every sample of a pixel is discarded, the pixel is kept as it was,
/// however many samples were taken.
pub proof fn lemma_all_discarded_keeps(flags: Seq<bool>)
    requires
        flags.len() <= u32::MAX,
        forall|i: int| 0 <= i < flags.len() ==> !flags[i],
    ensures
        verdict(tally_of(flags)) == Resolve::Keep,
{
    lemma_count_valid_zero(flags);
}

/// When at least one sample of a pixel is valid, the pixel takes a mean, and
/// the mean is over exactly the valid samples.
pub proof fn lemma_some_valid_averages(flags: Seq<bool>, i: int)
    requires
        flags.len() <= u32::MAX,
        0 <= i < flags.len(),
        flags[i],
    ensures
        verdict(tally_of(flags)) == (Resolve::Average { count: count_valid(flags) as u32 }),
        0 < count_valid(flags) <= flags.len(),
{
    lemma_count_valid_zero(flags);
    lemma_count_valid_bound(flags);
}

/// The weight of the newest frame in a running mean over `frame + 1`
/// frames is one over the number returned here.
pub fn blend_divisor(frame: u32) -> (r: u64)
    ensures
        r == frame + 1,
{
    frame as u64 + 1
}

/// Settles pixel `(x, y)` of a buffer: with `Keep` the buffer stays as it
/// is, with `Average` the pixel takes `mean`, which the caller has computed
/// over the valid samples.
pub fn settle(buffer: &mut FrameBuffer, x: u32, y: u32, how: Resolve, mean: Texel)
    requires
        old(buffer).wf(),
        x < old(buffer).width(),
        y < old(buffer).height(),
    ensures
        final(buffer).wf(),
        final(buffer).width() == old(buffer).width(),
        final(buffer).height() == old(buffer).height(),
        how is Keep ==> final(buffer)@ == old(buffer)@,
        how is Average ==> final(buffer)@ == old(buffer)@.update(
            cell(old(buffer).width(), x, y),
            mean,
        ),
{
    match how {
        Resolve::Keep => {},
        Resolve::Average { .. } => {
            buffer.put(x, y, mean);
        },
    }
}

} // verus!
