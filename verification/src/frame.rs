use vstd::prelude::*;

verus! {

/// One page-sized mutation belonging to a committed transaction.
///
/// `frame_no` is the position of the frame in the primary's committed
/// stream (1-based, gapless); `commit` marks the last frame of its
/// transaction, the point at which the transaction's pages become visible
/// as a whole.
pub struct Frame {
    pub frame_no: u64,
    pub page_no: u32,
    pub payload: Vec<u8>,
    pub commit: bool,
}

/// A single page write as the engine hands it to the commit path, before a
/// sequence number is assigned.
pub struct PageWrite {
    pub page_no: u32,
    pub data: Vec<u8>,
}

/// Well-formedness of one frame: page numbers start at 1 and sequence
/// numbers start at 1 (0 is reserved to mean "nothing applied yet").
pub open spec fn frame_wf(f: Frame) -> bool {
    1 <= f.page_no && 1 <= f.frame_no
}

/// Well-formedness of one page write.
pub open spec fn page_write_wf(w: PageWrite) -> bool {
    1 <= w.page_no
}

pub open spec fn page_writes_wf(ws: Seq<PageWrite>) -> bool {
    forall|i: int| 0 <= i < ws.len() ==> page_write_wf(#[trigger] ws[i])
}

/// Every frame of a batch is well formed. This is all an applier asks of
/// its input: ordering and gaps are judged against its own state.
pub open spec fn frames_wf(b: Seq<Frame>) -> bool {
    forall|i: int| 0 <= i < b.len() ==> frame_wf(#[trigger] b[i])
}

/// A frames-batch as handed to an applier: every frame well formed, and the
/// sequence numbers contiguous, frame `i` carrying `first + i`. A batch is
/// a contiguous slice of the committed stream; re-delivered batches overlap
/// an earlier one but are contiguous in themselves.
pub open spec fn batch_wf(b: Seq<Frame>) -> bool {
    forall|i: int|
        0 <= i < b.len() ==> frame_wf(#[trigger] b[i]) && b[i].frame_no == b[0].frame_no + i
}

/// Check a batch's shape at run time; used by callers that receive frames
/// from outside the process before handing them to an applier.
pub fn check_batch_wf(b: &Vec<Frame>) -> (r: bool)
    ensures
        r == batch_wf(b@),
{
    let n: usize = b.len();
    if n == 0 {
        return true;
    }
    let first: u64 = b[0].frame_no;
    let mut i: usize = 0;
    while i < n
        invariant
            0 < n == b@.len(),
            i <= n,
            first == b@[0].frame_no,
            forall|j: int|
                0 <= j < i ==> frame_wf(#[trigger] b@[j]) && b@[j].frame_no == first + j,
        decreases n - i,
    {
        let f_no: u64 = b[i].frame_no;
        let p_no: u32 = b[i].page_no;
        if p_no < 1 || f_no < 1 {
            return false;
        }
        // the stream position must be exactly `first + i`, which also
        // requires that the sum does not wrap
        if f_no < first || f_no - first != i as u64 {
            return false;
        }
        i = i + 1;
    }
    true
}

} // verus!
