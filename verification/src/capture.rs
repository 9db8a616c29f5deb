//! The poll protocol against the device's buffer interface.
//!
//! One poll asks how many frames the device has buffered; if any are ready
//! it acquires a view of exactly that many frames, copies them out, and
//! releases exactly the same count. Releasing more or fewer frames than were
//! acquired is a protocol violation against the device, so the bookkeeping
//! here makes the release count come from the acquisition itself. The device
//! calls live outside this crate; callers drive them through this type so
//! that every exit path releases what it acquired.

use vstd::prelude::*;

verus! {

/// Bookkeeping for the acquire/release discipline of a capture session.
/// Between polls the session is idle and every acquired frame has been
/// released; while one poll is open, exactly its frame count is outstanding.
pub struct CaptureProtocol {
    open_frames: Option<u32>,
    acquired_total: Ghost<nat>,
    released_total: Ghost<nat>,
}

impl CaptureProtocol {
    /// All frames ever recorded as acquired from the device.
    pub closed spec fn acquired(self) -> nat {
        self.acquired_total@
    }

    /// All frames ever recorded as released back to the device.
    pub closed spec fn released(self) -> nat {
        self.released_total@
    }

    /// No poll is open: nothing is outstanding against the device.
    pub closed spec fn idle(self) -> bool {
        self.open_frames is None
    }

    /// The frame count of the poll now open.
    pub closed spec fn open_count(self) -> u32 {
        self.open_frames->0
    }

    /// The books balance: what is outstanding is exactly the open poll's
    /// frame count, and nothing when the session is idle.
    pub closed spec fn inv(self) -> bool {
        match self.open_frames {
            None => self.acquired_total@ == self.released_total@,
            Some(frames) => frames > 0 && self.acquired_total@ == self.released_total@ + frames,
        }
    }

    /// A fresh session: idle, nothing acquired, nothing released.
    pub fn new() -> (s: CaptureProtocol)
        ensures
            s.inv(),
            s.idle(),
            s.acquired() == 0,
            s.released() == 0,
    {
        CaptureProtocol { open_frames: None, acquired_total: Ghost(0), released_total: Ghost(0) }
    }

    /// Decides one poll from the device's available-frame count. Zero frames
    /// ready means nothing is acquired and the session stays idle — the
    /// caller must not treat that as an error or end-of-stream. A positive
    /// count opens the poll: the caller acquires exactly that many frames.
    pub fn begin_poll(&mut self, available: u32) -> (acquire: Option<u32>)
        requires
            old(self).inv(),
            old(self).idle(),
        ensures
            final(self).inv(),
            available == 0 ==> ({
                &&& acquire is None
                &&& final(self).idle()
                &&& final(self).acquired() == old(self).acquired()
                &&& final(self).released() == old(self).released()
            }),
            available > 0 ==> ({
                &&& acquire == Some(available)
                &&& !final(self).idle()
                &&& final(self).open_count() == available
                &&& final(self).acquired() == old(self).acquired() + available
                &&& final(self).released() == old(self).released()
            }),
    {
        if available == 0 {
            None
        } else {
            self.open_frames = Some(available);
            proof {
                self.acquired_total@ = self.acquired_total@ + available as nat;
            }
            Some(available)
        }
    }

    /// Closes the open poll and says how many frames to release: exactly the
    /// count that was acquired, on every path — success or failure of the
    /// processing in between.
    pub fn end_poll(&mut self) -> (release: u32)
        requires
            old(self).inv(),
            !old(self).idle(),
        ensures
            final(self).inv(),
            final(self).idle(),
            release == old(self).open_count(),
            final(self).acquired() == old(self).acquired(),
            final(self).released() == old(self).released() + release,
            final(self).acquired() == final(self).released(),
    {
        let frames = match self.open_frames {
            Some(frames) => frames,
            None => 0,  // unreachable: a poll is open
        };
        self.open_frames = None;
        proof {
            self.released_total@ = self.released_total@ + frames as nat;
        }
        frames
    }
}

/// Round-trip law of one poll: once the session is idle again, the frames
/// acquired and the frames released over its whole history are equal — in
/// particular, each single poll released exactly what it acquired.
pub proof fn lemma_poll_round_trip(s: CaptureProtocol)
    requires
        s.inv(),
        s.idle(),
    ensures
        s.acquired() == s.released(),
{
}

/// Byte length of the buffer one poll must copy before release: the acquired
/// frame count times the frame size. Reports nothing if that does not fit in
/// a buffer length on this machine.
pub fn chunk_byte_len(frames: u32, block_align: u16) -> (r: Option<usize>)
    ensures
        frames * block_align <= usize::MAX ==> r == Some((frames * block_align) as usize),
        frames * block_align > usize::MAX ==> r is None,
{
    proof {
        assert(frames * block_align <= 0xFFFF_FFFFu64 * 0xFFFFu64) by (nonlinear_arith)
            requires
                frames <= 0xFFFF_FFFFu64,
                block_align <= 0xFFFFu64,
        ;
    }
    let bytes: u64 = frames as u64 * block_align as u64;
    if bytes <= usize::MAX as u64 {
        Some(bytes as usize)
    } else {
        None
    }
}

} // verus!
