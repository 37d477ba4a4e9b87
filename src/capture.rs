use vstd::prelude::*;

use vstd::arithmetic::div_mod::lemma_fundamental_div_mod_converse;

use crate::device::StreamConfig;

verus! {

/// Copies `v[lo..hi]` into a vector of its own.
pub(crate) fn copy_range<T: Copy>(v: &[T], lo: usize, hi: usize) -> (r: Vec<T>)
    requires
        lo <= hi <= v@.len(),
    ensures
        r@ == v@.subrange(lo as int, hi as int),
{
    let mut r: Vec<T> = Vec::with_capacity(hi - lo);
    let mut k: usize = lo;
    while k < hi
        invariant
            lo <= k <= hi,
            hi <= v@.len(),
            r@ == v@.subrange(lo as int, k as int),
        decreases hi - k,
    {
        r.push(v[k]);
        k += 1;
        assert(r@ =~= v@.subrange(lo as int, k as int));
    }
    r
}

/// The `j`-th piece of `n` items of `s`.
pub open spec fn piece<T>(s: Seq<T>, n: nat, j: int) -> Seq<T> {
    s.subrange(j * n, j * n + n)
}

/// Cuts `v` into consecutive pieces of `n` items, as many whole pieces as fit.
pub fn split_whole<T: Copy>(v: &[T], n: usize) -> (r: Vec<Vec<T>>)
    requires
        n > 0,
    ensures
        r@.len() == (v@.len() as int) / (n as int),
        r@.len() * n <= v@.len(),
        v@.len() - r@.len() * n == (v@.len() as int) % (n as int),
        forall|j: int| 0 <= j < r@.len() ==> (#[trigger] r@[j])@ == piece(v@, n as nat, j),
{
    let mut r: Vec<Vec<T>> = Vec::new();
    let mut start: usize = 0;
    assert(r@.len() * n == 0);
    while v.len() - start >= n
        invariant
            n > 0,
            start <= v@.len(),
            start == r@.len() * n,
            forall|j: int| 0 <= j < r@.len() ==> (#[trigger] r@[j])@ == piece(v@, n as nat, j),
        decreases v@.len() - start,
    {
        let p = copy_range(v, start, start + n);
        proof {
            assert(r@.len() * n + n == (r@.len() + 1) * n) by (nonlinear_arith);
        }
        r.push(p);
        start = start + n;
    }
    proof {
        lemma_fundamental_div_mod_converse(
            v@.len() as int,
            n as int,
            r@.len() as int,
            v@.len() - start,
        );
    }
    r
}

/// Splits an interleaved chunk into its frames, one group of `channels`
/// samples per instant, in sample order. Averaging each group gives the mono
/// downmix.
pub fn split_frames<T: Copy>(chunk: &[T], channels: usize) -> (r: Vec<Vec<T>>)
    requires
        channels >= 1,
        (chunk@.len() as int) % (channels as int) == 0,
    ensures
        r@.len() * channels == chunk@.len(),
        forall|i: int| 0 <= i < r@.len() ==> (#[trigger] r@[i])@ == piece(chunk@, channels as nat, i),
{
    let r = split_whole(chunk, channels);
    proof {
        vstd::arithmetic::div_mod::lemma_fundamental_div_mod(chunk@.len() as int, channels as int);
        vstd::arithmetic::mul::lemma_mul_is_commutative(r@.len() as int, channels as int);
    }
    r
}

/// The capture side's accumulation buffer. Samples arrive in callbacks of
/// any length; every whole second of multi-channel audio leaves as one chunk
/// of `sample_rate * channels` samples, and the excess waits for the next
/// callback.
pub struct ChunkAccumulator<T> {
    pending: Vec<T>,
    chunk_len: usize,
    channels: usize,
}

impl<T> View for ChunkAccumulator<T> {
    type V = Seq<T>;

    /// The samples held back, oldest first.
    closed spec fn view(&self) -> Seq<T> {
        self.pending@
    }
}

impl<T> ChunkAccumulator<T> {
    #[verifier::type_invariant]
    spec fn inv(&self) -> bool {
        &&& self.channels >= 1
        &&& self.chunk_len > 0
        &&& self.chunk_len % self.channels == 0
        &&& self.pending@.len() < self.chunk_len
    }
}

impl<T: Copy> ChunkAccumulator<T> {
    /// Samples in one chunk: one second at every channel.
    pub closed spec fn chunk_len(&self) -> nat {
        self.chunk_len as nat
    }

    pub closed spec fn channels(&self) -> nat {
        self.channels as nat
    }

    /// An empty buffer for a negotiated configuration.
    pub fn new(config: &StreamConfig) -> (r: Self)
        requires
            config.wf(),
            config.sample_rate * config.channels <= usize::MAX,
        ensures
            r@ == Seq::<T>::empty(),
            r.chunk_len() == config.sample_rate * config.channels,
            r.channels() == config.channels,
    {
        let chunk_len = config.sample_rate as usize * config.channels as usize;
        proof {
            vstd::arithmetic::mul::lemma_mul_is_commutative(config.sample_rate as int, config.channels as int);
            vstd::arithmetic::div_mod::lemma_mod_multiples_basic(config.sample_rate as int, config.channels as int);
            assert(chunk_len > 0) by (nonlinear_arith)
                requires chunk_len == config.sample_rate * config.channels, config.wf();
        }
        ChunkAccumulator { pending: Vec::new(), chunk_len, channels: config.channels as usize }
    }

    pub fn chunk_size(&self) -> (r: usize)
        ensures
            r == self.chunk_len(),
    {
        self.chunk_len
    }

    pub fn pending_len(&self) -> (r: usize)
        ensures
            r == self@.len(),
    {
        self.pending.len()
    }

    /// Takes one callback's samples. Returns the whole chunks that are now
    /// complete, oldest first; what is left over stays buffered.
    pub fn push(&mut self, input: &[T]) -> (chunks: Vec<Vec<T>>)
        requires
            old(self)@.len() + input@.len() <= usize::MAX,
        ensures
            final(self).chunk_len() == old(self).chunk_len(),
            final(self).channels() == old(self).channels(),
            chunks@.len() == ((old(self)@ + input@).len() as int) / (old(self).chunk_len() as int),
            forall|j: int|
                0 <= j < chunks@.len() ==> (#[trigger] chunks@[j])@ == piece(
                    old(self)@ + input@,
                    old(self).chunk_len(),
                    j,
                ),
            final(self)@ == (old(self)@ + input@).subrange(
                (chunks@.len() * old(self).chunk_len()) as int,
                (old(self)@ + input@).len() as int,
            ),
            final(self)@.len() == ((old(self)@ + input@).len() as int) % (old(self).chunk_len() as int),
            final(self)@.len() < final(self).chunk_len(),
    {
        proof {
            use_type_invariant(&*self);
        }
        let mut all: Vec<T> = copy_range(self.pending.as_slice(), 0, self.pending.len());
        assert(all@ == self@);
        let mut k: usize = 0;
        while k < input.len()
            invariant
                k <= input@.len(),
                all@ == old(self)@ + input@.subrange(0, k as int),
                old(self)@.len() + input@.len() <= usize::MAX,
            decreases input@.len() - k,
        {
            all.push(input[k]);
            k += 1;
            assert(all@ =~= old(self)@ + input@.subrange(0, k as int));
        }
        assert(input@.subrange(0, input@.len() as int) == input@);
        let chunks = split_whole(all.as_slice(), self.chunk_len);
        let rest = copy_range(all.as_slice(), chunks.len() * self.chunk_len, all.len());
        self.pending = rest;
        chunks
    }
}

} // verus!
