use vstd::prelude::*;
use crate::engine::{copy_bytes, spec_write_page, EngineState};
use crate::error::Error;
use crate::frame::{page_writes_wf, PageWrite};
use crate::frame_log::{spec_append_frames, FrameLog};

verus! {

/// The page store after performing `ws` in order.
pub open spec fn spec_apply_writes(pages: Seq<Seq<u8>>, ws: Seq<PageWrite>) -> Seq<Seq<u8>>
    decreases ws.len(),
{
    if ws.len() == 0 {
        pages
    } else {
        spec_apply_writes(spec_write_page(pages, ws[0].page_no, ws[0].data@), ws.drop_first())
    }
}

/// The state one primary (or schema) database shares across all of its
/// connections: the engine's page store, the frame log feeding the
/// replicas, and the write-block flag an external coordinator uses to
/// pause writers.
pub struct PrimaryShared {
    pub engine: EngineState,
    pub log: FrameLog,
    pub block_writes: bool,
}

impl PrimaryShared {
    pub open spec fn wf(&self) -> bool {
        self.log.wf()
    }

    /// Fresh shared state: empty database, empty log, writes admitted.
    pub fn new() -> (r: PrimaryShared)
        ensures
            r.wf(),
            r.engine@ == Seq::<Seq<u8>>::empty(),
            r.log.frames@.len() == 0,
            !r.block_writes,
    {
        PrimaryShared { engine: EngineState::new(), log: FrameLog::new(), block_writes: false }
    }

    /// The write interceptor's commit path: called with the page writes of
    /// one committing transaction, after admission (the write-block check)
    /// has passed.
    ///
    /// The pages are written to the engine's store and the same writes are
    /// appended to the frame log as one transaction, so that the commit is
    /// replicated before it is acknowledged; the returned sequence number
    /// is the one published for the transaction's commit frame.
    pub fn commit_write_txn(&mut self, writes: Vec<PageWrite>) -> (r: u64)
        requires
            old(self).wf(),
            !old(self).block_writes,
            writes@.len() > 0,
            page_writes_wf(writes@),
            old(self).log.frames@.len() + writes@.len() <= u64::MAX,
        ensures
            final(self).wf(),
            final(self).block_writes == old(self).block_writes,
            r == old(self).log.frames@.len() + writes@.len(),
            final(self).log.frames@ == spec_append_frames(old(self).log.frames@, writes@),
            final(self).log.latest_spec() == Some(r),
            final(self).engine@ == spec_apply_writes(old(self).engine@, writes@),
    {
        let ghost all_writes: Seq<PageWrite> = writes@;
        let ghost p0: Seq<Seq<u8>> = self.engine@;
        let n: usize = writes.len();
        let mut j: usize = 0;
        proof {
            assert(all_writes.subrange(0, n as int) =~= all_writes);
        }
        while j < n
            invariant
                n == all_writes.len(),
                j <= n,
                writes@ == all_writes,
                page_writes_wf(all_writes),
                spec_apply_writes(p0, all_writes) == spec_apply_writes(
                    self.engine@,
                    all_writes.subrange(j as int, n as int),
                ),
                self.log == old(self).log,
                self.block_writes == old(self).block_writes,
            decreases n - j,
        {
            proof {
                assert(all_writes.subrange(j as int, n as int)[0] == all_writes[j as int]);
                assert(all_writes.subrange(j as int, n as int).drop_first() =~= all_writes.subrange(
                    j + 1,
                    n as int,
                ));
            }
            let data: Vec<u8> = copy_bytes(&writes[j].data);
            self.engine.write_page(writes[j].page_no, data);
            j = j + 1;
        }
        proof {
            assert(all_writes.subrange(n as int, n as int) =~= Seq::<PageWrite>::empty());
            assert(writes@.subrange(0, n as int) =~= writes@);
        }
        self.log.append(writes)
    }
}

} // verus!
