//! A bounded window over the most recent samples, kept for live display.
use vstd::prelude::*;

verus! {

/// How many samples the window keeps.
pub const WAVEFORM_SIZE: usize = 2048;

/// `w` followed by `chunk`, cut down to its last `WAVEFORM_SIZE` samples.
pub open spec fn appended<T>(w: Seq<T>, chunk: Seq<T>) -> Seq<T> {
    let all = w + chunk;
    if all.len() > WAVEFORM_SIZE {
        all.subrange(all.len() - WAVEFORM_SIZE, all.len() as int)
    } else {
        all
    }
}

/// The window after appending each of `chunks` in turn.
pub open spec fn appended_all<T>(w: Seq<T>, chunks: Seq<Seq<T>>) -> Seq<T>
    decreases chunks.len(),
{
    if chunks.len() == 0 {
        w
    } else {
        appended(appended_all(w, chunks.drop_last()), chunks.last())
    }
}

/// The most recent samples, oldest first, never more than `WAVEFORM_SIZE`.
pub struct WaveformWindow<T> {
    samples: Vec<T>,
}

impl<T> View for WaveformWindow<T> {
    type V = Seq<T>;

    closed spec fn view(&self) -> Seq<T> {
        self.samples@
    }
}

impl<T: Copy> WaveformWindow<T> {
    /// The window holds at most its capacity.
    pub open spec fn wf(&self) -> bool {
        self@.len() <= WAVEFORM_SIZE
    }

    /// An empty window.
    pub fn new() -> (w: Self)
        ensures
            w.wf(),
            w@ == Seq::<T>::empty(),
    {
        WaveformWindow { samples: Vec::new() }
    }

    /// Number of samples held.
    pub fn len(&self) -> (r: usize)
        ensures
            r == self@.len(),
    {
        self.samples.len()
    }

    /// The samples held, oldest first.
    pub fn snapshot(&self) -> (r: Vec<T>)
        ensures
            r@ == self@,
    {
        let mut r: Vec<T> = Vec::with_capacity(self.samples.len());
        let mut k: usize = 0;
        while k < self.samples.len()
            invariant
                0 <= k <= self.samples.len(),
                r@ == self@.subrange(0, k as int),
            decreases self.samples.len() - k,
        {
            r.push(self.samples[k]);
            k = k + 1;
        }
        assert(self@.subrange(0, self@.len() as int) == self@);
        r
    }

    /// Replaces the contents with those of `other`.
    pub fn set_from(&mut self, other: &Self)
        requires
            other.wf(),
        ensures
            final(self).wf(),
            final(self)@ == other@,
    {
        self.samples = other.snapshot();
    }

    /// Drops every sample.
    pub fn clear(&mut self)
        ensures
            final(self).wf(),
            final(self)@ == Seq::<T>::empty(),
    {
        self.samples = Vec::new();
    }

    /// Appends `chunk`, then drops the oldest samples beyond the capacity.
    pub fn append(&mut self, chunk: &[T])
        requires
            old(self).wf(),
        ensures
            final(self).wf(),
            final(self)@ == appended(old(self)@, chunk@),
    {
        let old_len: usize = self.samples.len();
        let n: usize = chunk.len();
        // How many of the old samples and of `chunk` fall off the front.
        let (drop_old, drop_new): (usize, usize) = if n >= WAVEFORM_SIZE {
            (old_len, n - WAVEFORM_SIZE)
        } else if old_len + n > WAVEFORM_SIZE {
            (old_len + n - WAVEFORM_SIZE, 0)
        } else {
            (0, 0)
        };
        let mut kept: Vec<T> = Vec::new();
        let mut k: usize = drop_old;
        while k < old_len
            invariant
                drop_old <= k <= old_len,
                old_len == self@.len(),
                kept@ == self@.subrange(drop_old as int, k as int),
            decreases old_len - k,
        {
            kept.push(self.samples[k]);
            k = k + 1;
        }
        let mut k: usize = drop_new;
        while k < n
            invariant
                drop_new <= k <= n,
                n == chunk@.len(),
                old_len == self@.len(),
                kept@ == self@.subrange(drop_old as int, old_len as int) + chunk@.subrange(
                    drop_new as int,
                    k as int,
                ),
            decreases n - k,
        {
            kept.push(chunk[k]);
            k = k + 1;
        }
        proof {
            let all = old(self)@ + chunk@;
            assert(kept@ =~= appended(old(self)@, chunk@)) by {
                if all.len() > WAVEFORM_SIZE {
                    assert(kept@ =~= all.subrange(all.len() - WAVEFORM_SIZE, all.len() as int));
                } else {
                    assert(kept@ =~= all);
                }
            }
        }
        self.samples = kept;
    }
}

/// However many chunks are appended, the window never holds more than its
/// capacity.
pub proof fn window_stays_bounded<T>(w: Seq<T>, chunks: Seq<Seq<T>>)
    requires
        w.len() <= WAVEFORM_SIZE,
    ensures
        appended_all(w, chunks).len() <= WAVEFORM_SIZE,
    decreases chunks.len(),
{
    if chunks.len() > 0 {
        window_stays_bounded(w, chunks.drop_last());
    }
}

} // verus!
