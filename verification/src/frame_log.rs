use vstd::prelude::*;
use crate::frame::{Frame, PageWrite, page_writes_wf};
use crate::notifier::FrameNotifier;

verus! {

/// The sequence number a log with committed stream `s` publishes: `None`
/// before any commit, otherwise the number of the newest frame, which in a
/// gapless 1-based stream is the stream's length.
pub open spec fn spec_published(s: Seq<Frame>) -> Option<u64> {
    if s.len() == 0 {
        None
    } else {
        Some(s.len() as u64)
    }
}

/// The frames one transaction's page writes become when its first frame
/// is numbered `base + 1`: sequence numbers run on in order, and only the
/// last frame carries the commit marker.
pub open spec fn txn_frames(base: int, writes: Seq<PageWrite>) -> Seq<Frame> {
    Seq::new(
        writes.len(),
        |k: int|
            Frame {
                frame_no: (base + 1 + k) as u64,
                page_no: writes[k].page_no,
                payload: writes[k].data,
                commit: k == writes.len() - 1,
            },
    )
}

/// The committed stream after appending one transaction's page writes.
pub open spec fn spec_append_frames(log: Seq<Frame>, writes: Seq<PageWrite>) -> Seq<Frame> {
    log + txn_frames(log.len() as int, writes)
}

/// The ordered stream of WAL frames a primary has committed, together with
/// the broadcast point that publishes its newest sequence number.
///
/// Sequence numbers are 1-based and gapless: frame `i` of the stream holds
/// number `i + 1`. Publication happens only after a transaction's frames
/// are wholly appended, so a published number never points into a half
/// appended transaction.
pub struct FrameLog {
    pub frames: Vec<Frame>,
    pub notifier: FrameNotifier,
}

impl FrameLog {
    /// Internal invariant: the stream is gapless and 1-based, every frame
    /// is well formed, the stream ends on a commit boundary, and the
    /// notifier shows exactly the newest committed number.
    pub open spec fn wf(&self) -> bool {
        &&& forall|i: int|
            0 <= i < self.frames@.len() ==> (#[trigger] self.frames@[i]).frame_no == i + 1 && 1
                <= self.frames@[i].page_no
        &&& self.frames@.len() > 0 ==> self.frames@.last().commit
        &&& self.notifier.latest() == spec_published(self.frames@)
    }

    /// A fresh, empty log publishing no sequence number.
    pub fn new() -> (r: FrameLog)
        ensures
            r.wf(),
            r.frames@.len() == 0,
            r.latest_spec() is None,
    {
        let r = FrameLog { frames: Vec::new(), notifier: FrameNotifier::new() };
        r
    }

    /// What the log currently publishes.
    pub open spec fn latest_spec(&self) -> Option<u64> {
        spec_published(self.frames@)
    }

    /// The most recently published sequence number.
    pub fn latest(&self) -> (r: Option<u64>)
        requires
            self.wf(),
        ensures
            r == self.latest_spec(),
    {
        self.notifier.current()
    }

    /// A subscription point on the latest sequence number: the handle
    /// observes this log's own notifier cell, sees the current value at
    /// once and future publications as they happen.
    pub fn subscribe(&self) -> (r: tokio::sync::watch::Receiver<Option<u64>>)
        ensures
            crate::notifier::receiver_cell_of(r) == self.notifier.cell(),
    {
        self.notifier.subscribe()
    }

    /// Append one committed transaction's page writes to the stream.
    ///
    /// The writes take the next sequence numbers in order; the last one is
    /// marked as the transaction's commit boundary; and the new newest
    /// number is published to subscribers only once the whole transaction
    /// stands in the stream. The returned number is the one published.
    pub fn append(&mut self, writes: Vec<PageWrite>) -> (r: u64)
        requires
            old(self).wf(),
            writes@.len() > 0,
            page_writes_wf(writes@),
            old(self).frames@.len() + writes@.len() <= u64::MAX,
        ensures
            final(self).wf(),
            final(self).frames@ == spec_append_frames(old(self).frames@, writes@),
            r == old(self).frames@.len() + writes@.len(),
            final(self).latest_spec() == Some(r),
            final(self).notifier.latest() == Some(r),
            final(self).notifier.cell() == old(self).notifier.cell(),
    {
        let ghost all_writes: Seq<PageWrite> = writes@;
        let ghost base: Seq<Frame> = self.frames@;
        let mut rest: Vec<PageWrite> = writes;
        let n_writes: usize = rest.len();
        proof {
            assert(all_writes.len() == n_writes);
        }
        let mut i: usize = 0;
        while rest.len() > 0
            invariant
                all_writes.len() <= usize::MAX,
                i + rest@.len() == all_writes.len(),
                rest@ == all_writes.subrange(i as int, all_writes.len() as int),
                base.len() + all_writes.len() <= u64::MAX,
                self.frames@.len() == base.len() + i,
                self.frames@.subrange(0, base.len() as int) == base,
                self.notifier == old(self).notifier,
                forall|k: int|
                    0 <= k < i ==> #[trigger] self.frames@[base.len() + k] == (Frame {
                        frame_no: (base.len() + 1 + k) as u64,
                        page_no: all_writes[k].page_no,
                        payload: all_writes[k].data,
                        commit: k == all_writes.len() - 1,
                    }),
            decreases rest@.len(),
        {
            let w: PageWrite = rest.remove(0);
            let is_last: bool = rest.len() == 0;
            let frame_no: u64 = (self.frames.len() as u64) + 1;
            let f = Frame { frame_no, page_no: w.page_no, payload: w.data, commit: is_last };
            self.frames.push(f);
            proof {
                assert(rest@ =~= all_writes.subrange(i + 1, all_writes.len() as int));
                assert(self.frames@.subrange(0, base.len() as int) =~= base);
            }
            i = i + 1;
        }
        proof {
            assert(i == all_writes.len());
            let appended = spec_append_frames(base, all_writes);
            assert forall|j: int| 0 <= j < self.frames@.len() implies self.frames@[j] == appended[j] by {
                if j < base.len() {
                    assert(self.frames@.subrange(0, base.len() as int)[j] == self.frames@[j]);
                } else {
                    let k = j - base.len();
                    assert(self.frames@[base.len() + k] == (Frame {
                        frame_no: (base.len() + 1 + k) as u64,
                        page_no: all_writes[k].page_no,
                        payload: all_writes[k].data,
                        commit: k == all_writes.len() - 1,
                    }));
                }
            }
            assert(self.frames@ =~= spec_append_frames(base, all_writes));
        }
        let published: u64 = self.frames.len() as u64;
        self.notifier.publish(published);
        published
    }
}

/// Law: for every sequence of successful appends, the published sequence
/// number is strictly increasing and matches commit order — each append
/// publishes exactly the length of the stream it produced, which exceeds
/// everything published before it.
pub proof fn lemma_published_strictly_increasing(log: Seq<Frame>, writes: Seq<PageWrite>)
    requires
        writes.len() > 0,
        log.len() + writes.len() <= u64::MAX,
    ensures
        spec_append_frames(log, writes).len() == log.len() + writes.len(),
        spec_published(spec_append_frames(log, writes)) == Some(
            (log.len() + writes.len()) as u64,
        ),
        spec_published(log) matches Some(n) ==> n < (log.len() + writes.len()) as u64,
        spec_published(log) is None ==> log.len() == 0,
{
}

} // verus!
