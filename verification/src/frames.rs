//! The frame-delivery model the queue contract is stated against.
//!
//! A tunnel device moves opaque frames: each completed write hands the
//! kernel one whole frame, and each successful read returns one whole frame,
//! oldest first. Nothing here buffers, splits or reorders — the model is a
//! queue of frames, and the ordering law below is proved over it.

use vstd::prelude::*;

verus! {

/// The frames handed to the device and not yet read back, oldest first.
pub struct FrameStream {
    frames: Vec<Vec<u8>>,
}

impl FrameStream {
    /// The pending frames as mathematical sequences.
    pub closed spec fn frames(self) -> Seq<Seq<u8>> {
        self.frames@.map_values(|f: Vec<u8>| f@)
    }

    /// An empty stream: nothing written, nothing to read.
    pub fn new() -> (s: Self)
        ensures
            s.frames() == Seq::<Seq<u8>>::empty(),
    {
        let s = FrameStream { frames: Vec::new() };
        proof {
            assert(s.frames() =~= Seq::<Seq<u8>>::empty());
        }
        s
    }

    /// One completed write: the frame joins the stream after everything
    /// written before it.
    pub fn write_frame(&mut self, frame: Vec<u8>)
        ensures
            final(self).frames() == old(self).frames().push(frame@),
    {
        let ghost prev = self.frames();
        self.frames.push(frame);
        proof {
            assert(self.frames() =~= prev.push(frame@));
        }
    }

    /// One read: the oldest pending frame, whole, or nothing when the
    /// stream is empty.
    pub fn read_frame(&mut self) -> (r: Option<Vec<u8>>)
        ensures
            old(self).frames().len() == 0 ==> r is None && final(self).frames() == old(
                self).frames(),
            old(self).frames().len() > 0 ==> (r matches Some(f) && f@ == old(self).frames()[0]
                && final(self).frames() == old(self).frames().drop_first()),
    {
        if self.frames.len() == 0 {
            return None;
        }
        let ghost prev = self.frames();
        let f = self.frames.remove(0);
        proof {
            assert(self.frames() =~= prev.drop_first());
        }
        Some(f)
    }
}

/// The pending frames after a sequence of writes, submitted one at a time
/// and each awaited to completion.
pub open spec fn after_writes(pending: Seq<Seq<u8>>, writes: Seq<Seq<u8>>) -> Seq<Seq<u8>>
    decreases writes.len(),
{
    if writes.len() == 0 {
        pending
    } else {
        after_writes(pending.push(writes[0]), writes.drop_first())
    }
}

/// What a single sequential reader observes, reading until the stream is
/// drained: every pending frame, oldest first.
pub open spec fn drained(pending: Seq<Seq<u8>>) -> Seq<Seq<u8>>
    decreases pending.len(),
{
    if pending.len() == 0 {
        Seq::empty()
    } else {
        seq![pending[0]] + drained(pending.drop_first())
    }
}

/// Writing appends, in order: the stream after the writes is the old
/// pending frames followed by the writes themselves.
pub proof fn lemma_after_writes_appends(pending: Seq<Seq<u8>>, writes: Seq<Seq<u8>>)
    ensures
        after_writes(pending, writes) == pending + writes,
    decreases writes.len(),
{
    if writes.len() == 0 {
        assert(pending + writes =~= pending);
    } else {
        lemma_after_writes_appends(pending.push(writes[0]), writes.drop_first());
        assert(pending.push(writes[0]) + writes.drop_first() =~= pending + writes);
    }
}

/// A sequential reader drains the pending frames exactly as they stand.
pub proof fn lemma_drained_in_order(pending: Seq<Seq<u8>>)
    ensures
        drained(pending) == pending,
    decreases pending.len(),
{
    if pending.len() == 0 {
        assert(drained(pending) =~= pending);
    } else {
        lemma_drained_in_order(pending.drop_first());
        assert(seq![pending[0]] + pending.drop_first() =~= pending);
    }
}

/// Frame ordering: for any writes submitted one at a time and awaited to
/// completion, a single sequential reader observes exactly those frames,
/// in order, segmented at the boundaries they were written with.
pub proof fn lemma_frames_read_in_write_order(writes: Seq<Seq<u8>>)
    ensures
        drained(after_writes(Seq::empty(), writes)) == writes,
{
    lemma_after_writes_appends(Seq::empty(), writes);
    assert(Seq::empty() + writes =~= writes);
    lemma_drained_in_order(writes);
}

} // verus!
