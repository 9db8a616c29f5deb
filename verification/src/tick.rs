//! One discrete time-step of the pipeline.
//!
//! Each tick drains whatever chunks the capture side polled, feeds them to
//! the accumulator in arrival order, and tries to cut one analysis window.
//! Too little data is not an error — the previously published spectrum just
//! stays; an ill-framed chunk is fatal, reported with the accumulator's
//! state as of the chunks before it.

use vstd::prelude::*;
use crate::format::WaveFormatEx;
use crate::samples::{FramingError, SampleQueue, chunk_samples};

verus! {

/// Number of samples per analysis window.
pub const ANALYSIS_WINDOW: usize = 2048;

/// Every chunk is a whole number of frames.
pub open spec fn all_framed(chunks: Seq<Seq<u8>>, block_align: int) -> bool {
    forall|i: int| 0 <= i < chunks.len() ==> chunks[i].len() as int % block_align == 0
}

/// The queue after feeding `chunks` in order, stopped at the first chunk
/// that is not a whole number of frames.
pub open spec fn queue_after(q: Seq<i16>, chunks: Seq<Seq<u8>>, block_align: int) -> Seq<i16>
    decreases chunks.len(),
{
    if chunks.len() == 0 {
        q
    } else if chunks[0].len() as int % block_align != 0 {
        q
    } else {
        queue_after(q + chunk_samples(chunks[0], block_align), chunks.drop_first(), block_align)
    }
}

/// Feeding one more chunk after well-framed ones appends its samples, or
/// stops the feed right there when it is ill-framed.
proof fn lemma_queue_after_snoc(q: Seq<i16>, chunks: Seq<Seq<u8>>, c: Seq<u8>, block_align: int)
    requires
        all_framed(chunks, block_align),
    ensures
        c.len() as int % block_align == 0 ==> queue_after(q, chunks.push(c), block_align)
            == queue_after(q, chunks, block_align) + chunk_samples(c, block_align),
        c.len() as int % block_align != 0 ==> queue_after(q, chunks.push(c), block_align)
            == queue_after(q, chunks, block_align),
    decreases chunks.len(),
{
    if chunks.len() == 0 {
        assert(chunks.push(c)[0] == c);
        assert(chunks.push(c).drop_first() =~= Seq::<Seq<u8>>::empty());
        assert(queue_after(q + chunk_samples(c, block_align), Seq::<Seq<u8>>::empty(), block_align)
            == q + chunk_samples(c, block_align));
        assert(queue_after(q, Seq::<Seq<u8>>::empty(), block_align) == q);
    } else {
        assert(chunks.push(c)[0] == chunks[0]);
        assert(chunks.push(c).drop_first() =~= chunks.drop_first().push(c));
        assert(all_framed(chunks.drop_first(), block_align)) by {
            assert(forall|i: int| 0 <= i < chunks.drop_first().len()
                ==> chunks.drop_first()[i] == chunks[i + 1]);
        }
        lemma_queue_after_snoc(q + chunk_samples(chunks[0], block_align), chunks.drop_first(), c, block_align);
    }
}

/// The feed never looks past the first ill-framed chunk.
proof fn lemma_queue_after_stops(q: Seq<i16>, chunks: Seq<Seq<u8>>, block_align: int, k: int)
    requires
        0 <= k < chunks.len(),
        all_framed(chunks.take(k), block_align),
        chunks[k].len() as int % block_align != 0,
    ensures
        queue_after(q, chunks, block_align) == queue_after(q, chunks.take(k), block_align),
    decreases k,
{
    if k == 0 {
        assert(chunks.take(0) =~= Seq::<Seq<u8>>::empty());
    } else {
        assert(chunks.take(k)[0] == chunks[0]);
        assert(chunks[0].len() as int % block_align == 0);
        assert(chunks.drop_first().take(k - 1) =~= chunks.take(k).drop_first());
        assert(all_framed(chunks.drop_first().take(k - 1), block_align)) by {
            assert(forall|i: int| 0 <= i < k - 1 ==> #[trigger] chunks.drop_first().take(k - 1)[i] == chunks.take(k)[i + 1]);
        }
        lemma_queue_after_stops(q + chunk_samples(chunks[0], block_align), chunks.drop_first(), block_align, k - 1);
    }
}

/// Drives the accumulator through one tick.
pub struct TickDriver {
    queue: SampleQueue,
    window_size: usize,
}

impl TickDriver {
    /// The samples waiting for the next window.
    pub closed spec fn queued(self) -> Seq<i16> {
        self.queue@
    }

    /// The fixed analysis window size this driver cuts.
    pub closed spec fn window_len(self) -> int {
        self.window_size as int
    }

    /// A driver with an empty backlog, cutting windows of `window_size`
    /// samples.
    pub fn new(window_size: usize) -> (t: TickDriver)
        ensures
            t.queued() == Seq::<i16>::empty(),
            t.window_len() == window_size,
    {
        TickDriver { queue: SampleQueue::new(), window_size }
    }

    /// One tick: feed every polled chunk in arrival order, then try to cut
    /// one window. `Ok(None)` means not enough samples yet — nothing new
    /// this tick. `Ok(Some(w))` hands the freshest window out and leaves the
    /// backlog empty. `Err` reports the first ill-framed chunk; the chunks
    /// before it have been fed.
    pub fn tick(&mut self, chunks: &Vec<Vec<u8>>, format: &WaveFormatEx) -> (r: Result<Option<Vec<i16>>, FramingError>)
        requires
            format.valid(),
        ensures
            final(self).window_len() == old(self).window_len(),
            ({
                let ba = format.block_align as int;
                let qa = queue_after(old(self).queued(), chunks.deep_view(), ba);
                &&& (r is Err <==> !all_framed(chunks.deep_view(), ba))
                &&& (r matches Err(e) ==> ({
                    &&& final(self).queued() == qa
                    &&& exists|i: int| 0 <= i < chunks.deep_view().len()
                        && chunks.deep_view()[i].len() as int % ba != 0
                        && e == (FramingError { chunk_len: chunks@[i].len(), block_align: format.block_align })
                }))
                &&& (r matches Ok(w) ==> ({
                    &&& (qa.len() < old(self).window_len() ==> w is None && final(self).queued() == qa)
                    &&& (qa.len() >= old(self).window_len() ==> ({
                        &&& w matches Some(win)
                        &&& win@ == qa.subrange(qa.len() - old(self).window_len(), qa.len() as int)
                        &&& final(self).queued() == Seq::<i16>::empty()
                    }))
                }))
            }),
    {
        let ghost ba = format.block_align as int;
        let ghost q0 = self.queue@;
        let mut idx: usize = 0;
        while idx < chunks.len()
            invariant
                idx <= chunks@.len(),
                chunks.deep_view().len() == chunks@.len(),
                format.valid(),
                ba == format.block_align as int,
                q0 == old(self).queued(),
                all_framed(chunks.deep_view().take(idx as int), ba),
                self.queue@ == queue_after(q0, chunks.deep_view().take(idx as int), ba),
                self.window_size == old(self).window_size,
            decreases chunks@.len() - idx,
        {
            proof {
                assert(chunks.deep_view()[idx as int] == chunks@[idx as int]@);
            }
            let outcome = self.queue.ingest(&chunks[idx], format);
            proof {
                let dv = chunks.deep_view();
                lemma_queue_after_snoc(q0, dv.take(idx as int), dv[idx as int], ba);
                assert(dv.take(idx + 1) =~= dv.take(idx as int).push(dv[idx as int]));
            }
            match outcome {
                Ok(_) => {},
                Err(e) => {
                    proof {
                        let dv = chunks.deep_view();
                        lemma_queue_after_stops(q0, dv, ba, idx as int);
                        assert(dv.take(idx as int) =~= dv.take(idx + 1).take(idx as int));
                        assert(dv[idx as int].len() as int % ba != 0);
                    }
                    return Err(e);
                },
            }
            idx = idx + 1;
        }
        proof {
            assert(chunks.deep_view().take(idx as int) =~= chunks.deep_view());
        }
        let window = self.queue.extract_window(self.window_size);
        Ok(window)
    }
}

} // verus!
