use vstd::prelude::*;

use crate::capture::copy_range;

verus! {

/// The loopback queue between the capture callback, which only appends,
/// and the output callback, which only takes from the front.
pub struct PlaybackQueue<T> {
    samples: Vec<T>,
}

impl<T> View for PlaybackQueue<T> {
    type V = Seq<T>;

    /// The queued samples, oldest first.
    closed spec fn view(&self) -> Seq<T> {
        self.samples@
    }
}

pub open spec fn min_nat(a: nat, b: nat) -> nat {
    if a <= b {
        a
    } else {
        b
    }
}

/// What one output callback of `wanted` samples plays from a queue `q`: the
/// queued samples as far as they reach, then silence.
pub open spec fn playout<T>(q: Seq<T>, wanted: nat, silence: T) -> Seq<T> {
    let taken = min_nat(wanted, q.len());
    q.subrange(0, taken as int) + Seq::new((wanted - taken) as nat, |i: int| silence)
}

/// What the queue holds after that callback.
pub open spec fn after_playout<T>(q: Seq<T>, wanted: nat) -> Seq<T> {
    q.subrange(min_nat(wanted, q.len()) as int, q.len() as int)
}

/// What becomes of the loopback output stream when playback is switched.
#[derive(Clone, Copy, Debug, PartialEq, Eq, Structural)]
pub enum LoopbackAction {
    Build,
    Drop,
    Keep,
}

/// What a change of the loopback setting does to the output stream.
pub fn loopback_action(enabled: bool, has_output_stream: bool) -> (r: LoopbackAction)
    ensures
        r == LoopbackAction::Build <==> enabled && !has_output_stream,
        r == LoopbackAction::Drop <==> !enabled && has_output_stream,
{
    if enabled && !has_output_stream {
        LoopbackAction::Build
    } else if !enabled && has_output_stream {
        LoopbackAction::Drop
    } else {
        LoopbackAction::Keep
    }
}

impl<T: Copy> PlaybackQueue<T> {
    pub fn new() -> (r: Self)
        ensures
            r@ == Seq::<T>::empty(),
    {
        PlaybackQueue { samples: Vec::new() }
    }

    pub fn len(&self) -> (r: usize)
        ensures
            r == self@.len(),
    {
        self.samples.len()
    }

    /// Appends one capture callback's samples at the back.
    pub fn append(&mut self, input: &[T])
        requires
            old(self)@.len() + input@.len() <= usize::MAX,
        ensures
            final(self)@ == old(self)@ + input@,
    {
        let mut k: usize = 0;
        while k < input.len()
            invariant
                k <= input@.len(),
                self@ == old(self)@ + input@.subrange(0, k as int),
                old(self)@.len() + input@.len() <= usize::MAX,
            decreases input@.len() - k,
        {
            self.samples.push(input[k]);
            k += 1;
            assert(self@ =~= old(self)@ + input@.subrange(0, k as int));
        }
        assert(input@.subrange(0, input@.len() as int) == input@);
    }

    /// Serves one output callback of `wanted` samples: as many as are queued
    /// leave from the front, and silence fills the rest.
    pub fn drain_front(&mut self, wanted: usize, silence: T) -> (out: Vec<T>)
        ensures
            out@ == playout(old(self)@, wanted as nat, silence),
            final(self)@ == after_playout(old(self)@, wanted as nat),
    {
        let taken = if wanted <= self.samples.len() {
            wanted
        } else {
            self.samples.len()
        };
        let mut out = copy_range(self.samples.as_slice(), 0, taken);
        let mut k: usize = taken;
        while k < wanted
            invariant
                taken <= k <= wanted,
                taken == min_nat(wanted as nat, self@.len()),
                self@ == old(self)@,
                out@ == old(self)@.subrange(0, taken as int) + Seq::new(
                    (k - taken) as nat,
                    |i: int| silence,
                ),
            decreases wanted - k,
        {
            out.push(silence);
            k += 1;
            assert(out@ =~= old(self)@.subrange(0, taken as int) + Seq::new(
                (k - taken) as nat,
                |i: int| silence,
            ));
        }
        self.samples = copy_range(self.samples.as_slice(), taken, self.samples.len());
        out
    }
}

} // verus!
