//! Sample accumulation: raw byte chunks in, fixed-size analysis windows out.

use vstd::prelude::*;
use crate::format::WaveFormatEx;

verus! {

/// The sample carried by a frame whose first two bytes are `b0` and `b1`:
/// those bytes read as a little-endian signed 16-bit integer. Channels past
/// the first are ignored, as are any further bytes of the frame.
pub open spec fn sample_of(b0: u8, b1: u8) -> i16 {
    if b1 < 128 {
        (b0 + 256 * b1) as i16
    } else {
        (b0 + 256 * b1 - 65536) as i16
    }
}

/// Decodes the first two bytes of a frame as a little-endian signed sample.
pub fn decode_sample(b0: u8, b1: u8) -> (s: i16)
    ensures
        s == sample_of(b0, b1),
{
    let unsigned: u32 = b0 as u32 + 256 * (b1 as u32);
    if unsigned < 32768 {
        unsigned as i16
    } else {
        (unsigned as i32 - 65536) as i16
    }
}

/// The samples carried by a chunk of `chunk.len() / block_align` whole
/// frames, in arrival order: one per frame, each read from the frame's first
/// two bytes.
pub open spec fn chunk_samples(chunk: Seq<u8>, block_align: int) -> Seq<i16>
    recommends
        block_align >= 2,
{
    Seq::new((chunk.len() as int / block_align) as nat, |i: int| sample_of(chunk[i * block_align], chunk[i * block_align + 1]))
}

/// A captured chunk whose byte length is not a whole number of frames: a
/// framing bug upstream, reported rather than silently dropped.
#[derive(Clone, Copy, Debug, PartialEq, Eq, Structural)]
pub struct FramingError {
    /// Byte length of the offending chunk.
    pub chunk_len: usize,
    /// Bytes per frame that the length failed to divide by.
    pub block_align: u16,
}

/// Ordered queue of decoded samples: the capture side appends, the analyzer
/// drains whole windows from it.
pub struct SampleQueue {
    samples: Vec<i16>,
}

impl View for SampleQueue {
    type V = Seq<i16>;

    closed spec fn view(&self) -> Seq<i16> {
        self.samples@
    }
}

impl SampleQueue {
    /// An empty queue.
    pub fn new() -> (q: SampleQueue)
        ensures
            q@ == Seq::<i16>::empty(),
    {
        SampleQueue { samples: Vec::new() }
    }

    /// Number of samples currently queued.
    pub fn len(&self) -> (n: usize)
        ensures
            n == self@.len(),
    {
        self.samples.len()
    }

    /// Splits `chunk` into `block_align`-sized frames, decodes one sample per
    /// frame, and appends them in arrival order. A trailing partial frame is
    /// a framing error: the queue is left unchanged and the error says what
    /// failed to divide.
    pub fn ingest(&mut self, chunk: &Vec<u8>, format: &WaveFormatEx) -> (r: Result<usize, FramingError>)
        requires
            format.valid(),
        ensures
            chunk@.len() as int % (format.block_align as int) == 0 ==> ({
                &&& r == Ok::<usize, FramingError>((chunk@.len() as int / (format.block_align as int)) as usize)
                &&& final(self)@ == old(self)@ + chunk_samples(chunk@, format.block_align as int)
            }),
            chunk@.len() as int % (format.block_align as int) != 0 ==> ({
                &&& r == Err::<usize, FramingError>(FramingError { chunk_len: chunk.len(), block_align: format.block_align })
                &&& final(self)@ == old(self)@
            }),
    {
        let block_align = format.block_align as usize;
        if chunk.len() % block_align != 0 {
            return Err(FramingError { chunk_len: chunk.len(), block_align: format.block_align });
        }
        let frames = chunk.len() / block_align;
        proof {
            assert(frames * block_align == chunk@.len()) by (nonlinear_arith)
                requires
                    block_align > 0,
                    chunk@.len() as int % (block_align as int) == 0,
                    frames == chunk@.len() as int / block_align as int,
            ;
        }
        let mut i: usize = 0;
        while i < frames
            invariant
                i <= frames,
                block_align >= 2,
                chunk@.len() <= usize::MAX,
                frames * block_align == chunk@.len(),
                frames == chunk@.len() as int / block_align as int,
                self@ == old(self)@ + chunk_samples(chunk@, block_align as int).take(i as int),
            decreases frames - i,
        {
            proof {
                assert(i * block_align + block_align <= frames * block_align) by (nonlinear_arith)
                    requires
                        i < frames,
                        block_align >= 2,
                ;
                assert(i * block_align >= 0) by (nonlinear_arith)
                    requires
                        i >= 0,
                        block_align >= 2,
                ;
            }
            let base = i * block_align;
            let s = decode_sample(chunk[base], chunk[base + 1]);
            self.samples.push(s);
            proof {
                let cs = chunk_samples(chunk@, block_align as int);
                assert(cs.take(i + 1) == cs.take(i as int).push(cs[i as int]));
            }
            i = i + 1;
        }
        proof {
            let cs = chunk_samples(chunk@, block_align as int);
            assert(cs.take(frames as int) == cs);
        }
        Ok(frames)
    }

    /// Cuts one analysis window of `size` samples, or reports that not
    /// enough samples are queued yet (a normal transient, not an error).
    /// On success the window holds the most recent `size` samples; any older
    /// backlog is discarded with it, so the queue comes back empty — the
    /// analyzer never falls behind by working through stale data.
    pub fn extract_window(&mut self, size: usize) -> (r: Option<Vec<i16>>)
        ensures
            old(self)@.len() < size ==> ({
                &&& r is None
                &&& final(self)@ == old(self)@
            }),
            old(self)@.len() >= size ==> ({
                &&& r matches Some(w) && w@ == old(self)@.subrange(old(self)@.len() - size, old(self)@.len() as int)
                &&& final(self)@ == Seq::<i16>::empty()
            }),
    {
        if self.samples.len() < size {
            return None;
        }
        let skip = self.samples.len() - size;
        let mut window: Vec<i16> = Vec::new();
        let mut i: usize = skip;
        while i < self.samples.len()
            invariant
                skip <= i <= self@.len(),
                skip == self@.len() - size,
                self@ == old(self)@,
                window@ == self@.subrange(skip as int, i as int),
            decreases self@.len() - i,
        {
            let s = self.samples[i];
            window.push(s);
            proof {
                assert(old(self)@.subrange(skip as int, i + 1) == old(self)@.subrange(skip as int, i as int).push(old(self)@[i as int]));
            }
            i = i + 1;
        }
        self.samples = Vec::new();
        Some(window)
    }
}

} // verus!
