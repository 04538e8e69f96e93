use vstd::prelude::*;

verus! {

/// The number of segments of a traced path: it holds one more sample.
pub const TRACE_SEGMENTS: usize = 500;

/// What a traced path depends on: the two lengths, the fraction along the
/// second bar and the phase, each as the bit pattern of its value.
#[derive(PartialEq, Eq, Structural, Clone, Copy, Debug)]
pub struct TraceKey {
    pub oa: u64,
    pub ab: u64,
    pub fraction: u64,
    pub phase: u64,
}

/// The abstract state of a path cache.
pub struct PathCacheView<T> {
    /// The key of the stored trace, once one was computed.
    pub key: Option<TraceKey>,
    /// The stored samples.
    pub samples: Seq<T>,
    /// How many times a trace was computed (saturating).
    pub recomputations: u64,
}

/// `samples` holds, for each index `i` from 0 to `TRACE_SEGMENTS`, a value
/// that `sample` may return for `i`.
pub open spec fn sampled_by<T, F: Fn(usize) -> T>(samples: Seq<T>, sample: F) -> bool {
    &&& samples.len() == TRACE_SEGMENTS + 1
    &&& forall|i: int| 0 <= i < samples.len() ==> sample.ensures((i as usize,), #[trigger] samples[i])
}

/// One lookup of `key` takes the cache from `c` to `d`: with the stored key
/// the samples and the count stay as they are; with another key the trace is
/// computed once with `sample` and stored under `key`.
pub open spec fn trace_step<T, F: Fn(usize) -> T>(c: PathCacheView<T>, key: TraceKey, sample: F, d: PathCacheView<T>) -> bool {
    &&& d.key == Some(key)
    &&& if c.key == Some(key) {
        d.samples == c.samples && d.recomputations == c.recomputations
    } else {
        &&& sampled_by(d.samples, sample)
        &&& d.recomputations == (if c.recomputations < u64::MAX { (c.recomputations + 1) as u64 } else { c.recomputations })
    }
}

/// Two lookups in a row: with the same key the second returns the samples
/// the first stored and computes nothing; with a different key the second
/// computes the trace exactly once more (unless the count is saturated).
pub proof fn lemma_trace_memoized<T, F: Fn(usize) -> T, G: Fn(usize) -> T>(
    c0: PathCacheView<T>,
    k1: TraceKey,
    f: F,
    c1: PathCacheView<T>,
    k2: TraceKey,
    g: G,
    c2: PathCacheView<T>,
)
    requires
        trace_step(c0, k1, f, c1),
        trace_step(c1, k2, g, c2),
    ensures
        k2 == k1 ==> c2.samples == c1.samples && c2.recomputations == c1.recomputations,
        k2 != k1 ==> sampled_by(c2.samples, g) && c2.key == Some(k2),
        k2 != k1 && c1.recomputations < u64::MAX ==> c2.recomputations == c1.recomputations + 1,
{
}

/// A cache of one traced path, recomputed only when its key changes.
pub struct PathCache<T> {
    key: Option<TraceKey>,
    samples: Vec<T>,
    recomputations: u64,
}

impl<T> View for PathCache<T> {
    type V = PathCacheView<T>;

    closed spec fn view(&self) -> PathCacheView<T> {
        PathCacheView { key: self.key, samples: self.samples@, recomputations: self.recomputations }
    }
}

impl<T> PathCache<T> {
    /// An empty cache.
    pub fn new() -> (r: PathCache<T>)
        ensures
            r@.key is None,
            r@.samples.len() == 0,
            r@.recomputations == 0,
    {
        PathCache { key: None, samples: Vec::new(), recomputations: 0 }
    }

    /// How many times a trace was computed.
    pub fn recomputations(&self) -> (r: u64)
        ensures
            r == self@.recomputations,
    {
        self.recomputations
    }

    /// The trace for `key`: the stored one when `key` is the stored key,
    /// otherwise a fresh one, with sample `i` computed by `sample(i)` for
    /// each `i` from 0 to `TRACE_SEGMENTS`, which then replaces the stored
    /// one.
    pub fn get_trace<F: Fn(usize) -> T>(&mut self, key: TraceKey, sample: F) -> (r: &Vec<T>)
        requires
            forall|i: usize| i <= TRACE_SEGMENTS ==> #[trigger] sample.requires((i,)),
        ensures
            trace_step(old(self)@, key, sample, final(self)@),
            r@ == final(self)@.samples,
    {
        let hit = match self.key {
            Some(k) => k == key,
            None => false,
        };
        if !hit {
            let mut samples: Vec<T> = Vec::new();
            let mut i: usize = 0;
            while i <= TRACE_SEGMENTS
                invariant
                    i <= TRACE_SEGMENTS + 1,
                    samples@.len() == i,
                    forall|i: usize| i <= TRACE_SEGMENTS ==> #[trigger] sample.requires((i,)),
                    forall|j: int| 0 <= j < i ==> sample.ensures((j as usize,), #[trigger] samples@[j]),
                decreases TRACE_SEGMENTS + 1 - i,
            {
                let v = sample(i);
                samples.push(v);
                i = i + 1;
            }
            self.samples = samples;
            self.key = Some(key);
            if self.recomputations < u64::MAX {
                self.recomputations = self.recomputations + 1;
            }
        }
        &self.samples
    }
}

} // verus!
