use vstd::prelude::*;
use crate::engine::{copy_bytes, spec_write_page, EngineState};
use crate::error::Error;
use crate::frame::{frames_wf, Frame, PageWrite};
use crate::frame_log::txn_frames;
use crate::interceptor::spec_apply_writes;

verus! {

/// The last-applied sequence number after consuming batch `b` starting
/// from `last`: frames at or below `last` are skipped, the frame numbered
/// exactly `last + 1` advances it, and a frame further ahead is a gap,
/// which fails the whole application (`None`).
pub open spec fn spec_apply_last(last: u64, b: Seq<Frame>) -> Option<u64>
    decreases b.len(),
{
    if b.len() == 0 {
        Some(last)
    } else if b[0].frame_no <= last {
        spec_apply_last(last, b.drop_first())
    } else if b[0].frame_no == last + 1 {
        spec_apply_last((last + 1) as u64, b.drop_first())
    } else {
        None
    }
}

/// The page store after consuming batch `b` starting from `last`: exactly
/// the frames that advance the sequence number write their payload to
/// their page; skipped frames touch nothing.
pub open spec fn spec_apply_pages(pages: Seq<Seq<u8>>, last: u64, b: Seq<Frame>) -> Seq<Seq<u8>>
    decreases b.len(),
{
    if b.len() == 0 {
        pages
    } else if b[0].frame_no <= last {
        spec_apply_pages(pages, last, b.drop_first())
    } else if b[0].frame_no == last + 1 {
        spec_apply_pages(
            spec_write_page(pages, b[0].page_no, b[0].payload@),
            (last + 1) as u64,
            b.drop_first(),
        )
    } else {
        pages
    }
}

/// How far into a batch the committed material reaches: everything
/// through the batch's last commit-marked frame. Frames after the last
/// commit boundary are a trailing partial transaction; an applier holds
/// them back, so that no transaction is ever half observable.
pub open spec fn commit_prefix_len(b: Seq<Frame>) -> int
    decreases b.len(),
{
    if b.len() == 0 {
        0
    } else if b.last().commit {
        b.len() as int
    } else {
        commit_prefix_len(b.drop_last())
    }
}

/// The committed prefix of a batch: the part an applier may make
/// observable.
pub open spec fn commit_prefix(b: Seq<Frame>) -> Seq<Frame> {
    b.subrange(0, commit_prefix_len(b))
}

/// The committed prefix is a prefix.
pub proof fn lemma_commit_prefix_len_bounds(b: Seq<Frame>)
    ensures
        0 <= commit_prefix_len(b) <= b.len(),
    decreases b.len(),
{
    if b.len() > 0 && !b.last().commit {
        lemma_commit_prefix_len_bounds(b.drop_last());
    }
}

/// Where application of `b` from `last` hits a gap: the sequence number
/// that was needed next, and the frame number found instead. Meaningful
/// exactly when `spec_apply_last` is `None`.
pub open spec fn spec_gap_info(last: u64, b: Seq<Frame>) -> (u64, u64)
    decreases b.len(),
{
    if b.len() == 0 {
        (0, 0)
    } else if b[0].frame_no <= last {
        spec_gap_info(last, b.drop_first())
    } else if b[0].frame_no == last + 1 {
        spec_gap_info((last + 1) as u64, b.drop_first())
    } else {
        ((last + 1) as u64, b[0].frame_no)
    }
}

/// The consumer side of the replication stream: applies frames-batches to
/// a local copy of the database and tracks the highest sequence number
/// whose pages stand in that copy.
///
/// `last_applied` is 0 while nothing has been applied; committed sequence
/// numbers start at 1. The page store is the model of the local database
/// file; a durable-storage collaborator that holds the real file reports
/// its failures before this state is advanced, so `last_applied` never
/// runs ahead of what is durable.
pub struct FrameApplier {
    pub last_applied: u64,
    pub engine: EngineState,
}

impl FrameApplier {
    /// A fresh applier over an empty local copy.
    pub fn new() -> (r: FrameApplier)
        ensures
            r.last_applied == 0,
            r.engine@ == Seq::<Seq<u8>>::empty(),
    {
        FrameApplier { last_applied: 0, engine: EngineState::new() }
    }

    /// The highest sequence number applied so far, 0 when none.
    pub fn last_applied(&self) -> (r: u64)
        ensures
            r == self.last_applied,
    {
        self.last_applied
    }

    /// Apply one frames-batch, presented in non-decreasing sequence-number
    /// order (any order the model below accepts is taken).
    ///
    /// Only the batch's committed prefix — everything through its last
    /// commit-marked frame — is applied; a trailing partial transaction is
    /// held back untouched, so a transaction's frames become observable
    /// all-or-nothing. Within that prefix, frames at or below
    /// `last_applied` are skipped (re-delivery is idempotent); a frame
    /// more than one ahead of the applied point is a replication gap,
    /// which fails the call with nothing changed; otherwise every newer
    /// frame's page is written, `last_applied` advances to the prefix's
    /// highest number, and the count of newly applied frames is returned.
    pub fn apply(&mut self, batch: &Vec<Frame>) -> (r: Result<usize, Error>)
        requires
            frames_wf(batch@),
        ensures
            spec_apply_last(old(self).last_applied, commit_prefix(batch@)) matches Some(new_last)
                ==> {
                &&& r matches Ok(count) && count == new_last - old(self).last_applied
                &&& final(self).last_applied == new_last
                &&& final(self).engine@ == spec_apply_pages(
                    old(self).engine@,
                    old(self).last_applied,
                    commit_prefix(batch@),
                )
            },
            spec_apply_last(old(self).last_applied, commit_prefix(batch@)) is None ==> {
                &&& (r matches Err(e) && e == (Error::ReplicationGap {
                    expected: spec_gap_info(old(self).last_applied, commit_prefix(batch@)).0,
                    got: spec_gap_info(old(self).last_applied, commit_prefix(batch@)).1,
                }))
                &&& *final(self) == *old(self)
            },
    {
        let ghost b: Seq<Frame> = batch@;
        let ghost l0: u64 = self.last_applied;
        let ghost p0: Seq<Seq<u8>> = self.engine@;
        let n: usize = batch.len();

        // locate the committed prefix: everything through the last
        // commit-marked frame
        let mut m: usize = 0;
        let mut i: usize = 0;
        proof {
            assert(b.subrange(0, 0) =~= Seq::<Frame>::empty());
        }
        while i < n
            invariant
                n == b.len(),
                i <= n,
                m <= i,
                b == batch@,
                commit_prefix_len(b.subrange(0, i as int)) == m,
            decreases n - i,
        {
            proof {
                assert(b.subrange(0, i + 1).drop_last() =~= b.subrange(0, i as int));
                assert(b.subrange(0, i + 1).last() == b[i as int]);
            }
            if batch[i].commit {
                m = i + 1;
            }
            i = i + 1;
        }
        proof {
            assert(b.subrange(0, n as int) =~= b);
        }
        let ghost prefix: Seq<Frame> = commit_prefix(b);
        proof {
            assert(prefix == b.subrange(0, m as int));
            assert(prefix.skip(0) =~= prefix);
        }

        // validate the prefix before touching anything: simulate the
        // applied point and stop at the first gap
        let mut cur: u64 = self.last_applied;
        let mut j: usize = 0;
        while j < m
            invariant
                m <= n == b.len(),
                b == batch@,
                frames_wf(b),
                prefix == b.subrange(0, m as int),
                j <= m,
                prefix == commit_prefix(b),
                l0 == self.last_applied,
                l0 == old(self).last_applied,
                l0 <= cur,
                *self == *old(self),
                spec_apply_last(l0, prefix) == spec_apply_last(cur, prefix.skip(j as int)),
                spec_gap_info(l0, prefix) == spec_gap_info(cur, prefix.skip(j as int)),
            decreases m - j,
        {
            proof {
                assert(prefix.skip(j as int)[0] == prefix[j as int]);
                assert(prefix[j as int] == b[j as int]);
                assert(prefix.skip(j as int).drop_first() =~= prefix.skip(j + 1));
            }
            let f_no: u64 = batch[j].frame_no;
            if f_no <= cur {
            } else if f_no - 1 == cur {
                cur = f_no;
            } else {
                proof {
                    assert(spec_apply_last(cur, prefix.skip(j as int)) is None);
                }
                return Err(Error::ReplicationGap { expected: cur + 1, got: f_no });
            }
            j = j + 1;
        }
        proof {
            assert(prefix.skip(m as int) =~= Seq::<Frame>::empty());
            assert(spec_apply_last(l0, prefix) == Some(cur));
        }

        // the prefix is applicable: write its newer frames through
        let ghost new_last: u64 = cur;
        let mut count: usize = 0;
        let mut k: usize = 0;
        proof {
            assert(prefix.skip(0) =~= prefix);
        }
        while k < m
            invariant
                m <= n == b.len(),
                b == batch@,
                frames_wf(b),
                prefix == b.subrange(0, m as int),
                k <= m,
                prefix == commit_prefix(b),
                l0 == old(self).last_applied,
                p0 == old(self).engine@,
                l0 <= self.last_applied,
                count == self.last_applied - l0,
                count <= k,
                spec_apply_last(l0, prefix) == Some(new_last),
                spec_apply_last(self.last_applied, prefix.skip(k as int)) == Some(new_last),
                spec_apply_pages(p0, l0, prefix) == spec_apply_pages(
                    self.engine@,
                    self.last_applied,
                    prefix.skip(k as int),
                ),
            decreases m - k,
        {
            proof {
                assert(prefix.skip(k as int)[0] == prefix[k as int]);
                assert(prefix[k as int] == b[k as int]);
                assert(prefix.skip(k as int).drop_first() =~= prefix.skip(k + 1));
            }
            let f_no: u64 = batch[k].frame_no;
            if f_no > self.last_applied {
                proof {
                    assert(f_no == self.last_applied + 1);
                }
                let payload: Vec<u8> = copy_bytes(&batch[k].payload);
                self.engine.write_page(batch[k].page_no, payload);
                self.last_applied = f_no;
                count = count + 1;
            }
            k = k + 1;
        }
        proof {
            assert(prefix.skip(m as int) =~= Seq::<Frame>::empty());
        }
        Ok(count)
    }
}

/// Law: a frames-batch that begins more than one past the last-applied
/// number is a replication gap: its application fails outright.
pub proof fn lemma_gap_rejected(last: u64, b: Seq<Frame>)
    requires
        b.len() > 0,
        b[0].frame_no > last + 1,
    ensures
        spec_apply_last(last, b) is None,
{
}

/// Every frame of a successfully applied batch sits at or below the
/// resulting last-applied number, which never moves backwards.
pub proof fn lemma_apply_bounds(last: u64, b: Seq<Frame>)
    requires
        spec_apply_last(last, b) is Some,
    ensures
        last <= spec_apply_last(last, b).unwrap(),
        forall|i: int| 0 <= i < b.len() ==> (#[trigger] b[i]).frame_no <= spec_apply_last(
            last,
            b,
        ).unwrap(),
    decreases b.len(),
{
    if b.len() == 0 {
    } else if b[0].frame_no <= last {
        lemma_apply_bounds(last, b.drop_first());
        assert forall|i: int| 0 <= i < b.len() implies (#[trigger] b[i]).frame_no
            <= spec_apply_last(last, b).unwrap() by {
            if i > 0 {
                assert(b.drop_first()[i - 1] == b[i]);
            }
        }
    } else {
        lemma_apply_bounds((last + 1) as u64, b.drop_first());
        assert forall|i: int| 0 <= i < b.len() implies (#[trigger] b[i]).frame_no
            <= spec_apply_last(last, b).unwrap() by {
            if i > 0 {
                assert(b.drop_first()[i - 1] == b[i]);
            }
        }
    }
}

/// A batch whose every frame is already at or below the last-applied
/// number changes nothing: all of it is skipped.
pub proof fn lemma_apply_all_skipped(pages: Seq<Seq<u8>>, last: u64, b: Seq<Frame>)
    requires
        forall|i: int| 0 <= i < b.len() ==> (#[trigger] b[i]).frame_no <= last,
    ensures
        spec_apply_last(last, b) == Some(last),
        spec_apply_pages(pages, last, b) == pages,
    decreases b.len(),
{
    if b.len() > 0 {
        assert forall|i: int| 0 <= i < b.drop_first().len() implies (#[trigger] b.drop_first()[
            i]).frame_no <= last by {
            assert(b.drop_first()[i] == b[i + 1]);
        }
        lemma_apply_all_skipped(pages, last, b.drop_first());
    }
}

/// Law: the frames one commit appends replay on a consumer exactly as the
/// transaction's own page writes: a consumer caught up to sequence number
/// `last` that applies the transaction's frames advances by the number of
/// frames in the commit and ends page-identical to the store that
/// performed the writes directly.
pub proof fn lemma_commit_replays_identically(pages: Seq<Seq<u8>>, last: u64, ws: Seq<PageWrite>)
    requires
        last + ws.len() <= u64::MAX,
    ensures
        spec_apply_last(last, txn_frames(last as int, ws)) == Some((last + ws.len()) as u64),
        spec_apply_pages(pages, last, txn_frames(last as int, ws)) == spec_apply_writes(pages, ws),
        ws.len() > 0 ==> commit_prefix(txn_frames(last as int, ws)) == txn_frames(last as int, ws),
    decreases ws.len(),
{
    let fs = txn_frames(last as int, ws);
    if ws.len() == 0 {
        assert(fs =~= Seq::<Frame>::empty());
    } else {
        assert(fs.last().commit);
        assert(commit_prefix(fs) =~= fs);
        assert(fs[0].frame_no == last + 1);
        assert(fs.drop_first() =~= txn_frames(last + 1, ws.drop_first()));
        lemma_commit_replays_identically(
            spec_write_page(pages, ws[0].page_no, ws[0].data@),
            (last + 1) as u64,
            ws.drop_first(),
        );
    }
}

/// Law: applying the same frames-batch twice yields the same final state
/// as applying it once, and the second application newly applies zero
/// frames.
pub proof fn lemma_apply_idempotent(pages: Seq<Seq<u8>>, last: u64, b: Seq<Frame>)
    requires
        spec_apply_last(last, b) is Some,
    ensures
        spec_apply_last(spec_apply_last(last, b).unwrap(), b) == Some(
            spec_apply_last(last, b).unwrap(),
        ),
        spec_apply_pages(spec_apply_pages(pages, last, b), spec_apply_last(last, b).unwrap(), b)
            == spec_apply_pages(pages, last, b),
{
    lemma_apply_bounds(last, b);
    lemma_apply_all_skipped(spec_apply_pages(pages, last, b), spec_apply_last(last, b).unwrap(), b);
}

} // verus!
