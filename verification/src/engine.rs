use vstd::prelude::*;
use vstd::pervasive::VecAdditionalExecFns;

verus! {

/// The page-level state of one local copy of a database file.
///
/// The embedded SQL engine owns the real file; what the replication core
/// needs of it is the array of pages that frame application mutates. Pages
/// are numbered from 1 and stored densely; a page that was never written
/// holds the empty payload.
pub struct EngineState {
    pub pages: Vec<Vec<u8>>,
}

/// The mathematical model of a page store: page `p` (1-based) is entry
/// `p - 1` of the sequence.
pub open spec fn pages_model(pages: Seq<Vec<u8>>) -> Seq<Seq<u8>> {
    pages.map(|i: int, p: Vec<u8>| p@)
}

/// The page store after writing `data` to page `page_no`: an existing page
/// is overwritten in place; a write past the end extends the store, filling
/// any intervening pages with the empty payload.
pub open spec fn spec_write_page(pages: Seq<Seq<u8>>, page_no: u32, data: Seq<u8>) -> Seq<Seq<u8>>
    recommends
        1 <= page_no,
{
    let idx: int = page_no - 1;
    if idx < pages.len() {
        pages.update(idx, data)
    } else {
        (pages + Seq::new((idx - pages.len()) as nat, |i: int| Seq::<u8>::empty())).push(data)
    }
}

/// An owned copy of a byte buffer, equal to its source element for
/// element.
pub fn copy_bytes(src: &Vec<u8>) -> (r: Vec<u8>)
    ensures
        r@ == src@,
{
    let mut out: Vec<u8> = Vec::new();
    let mut j: usize = 0;
    while j < src.len()
        invariant
            j <= src@.len(),
            out@ == src@.subrange(0, j as int),
        decreases src@.len() - j,
    {
        out.push(src[j]);
        proof {
            assert(out@ =~= src@.subrange(0, j + 1));
        }
        j = j + 1;
    }
    proof {
        assert(out@ =~= src@);
    }
    out
}

impl View for EngineState {
    type V = Seq<Seq<u8>>;

    open spec fn view(&self) -> Seq<Seq<u8>> {
        pages_model(self.pages@)
    }
}

impl EngineState {
    /// A fresh page store with no pages, as a newly created database has.
    pub fn new() -> (r: EngineState)
        ensures
            r@ == Seq::<Seq<u8>>::empty(),
    {
        let r = EngineState { pages: Vec::new() };
        proof {
            assert(r@ =~= Seq::<Seq<u8>>::empty());
        }
        r
    }

    /// Number of pages currently held.
    pub fn page_count(&self) -> (r: usize)
        ensures
            r == self@.len(),
    {
        self.pages.len()
    }

    /// Read access to page `page_no`, or `None` if the store has never
    /// grown that far.
    pub fn page(&self, page_no: u32) -> (r: Option<&Vec<u8>>)
        requires
            1 <= page_no,
        ensures
            page_no - 1 < self@.len() ==> (r matches Some(p) && p@ == self@[page_no - 1]),
            page_no - 1 >= self@.len() ==> r is None,
    {
        let idx: usize = (page_no - 1) as usize;
        if idx < self.pages.len() {
            Some(&self.pages[idx])
        } else {
            None
        }
    }

    /// Write `data` to page `page_no`, growing the store when the page lies
    /// past its current end.
    pub fn write_page(&mut self, page_no: u32, data: Vec<u8>)
        requires
            1 <= page_no,
        ensures
            final(self)@ == spec_write_page(old(self)@, page_no, data@),
    {
        let idx: usize = (page_no - 1) as usize;
        if idx < self.pages.len() {
            self.pages.set(idx, data);
            proof {
                assert(self@ =~= spec_write_page(old(self)@, page_no, data@));
            }
        } else {
            while self.pages.len() < idx
                invariant
                    self.pages@.len() <= idx,
                    idx <= u32::MAX,
                    old(self).pages@.len() <= self.pages@.len(),
                    self.pages@.subrange(0, old(self).pages@.len() as int) == old(self).pages@,
                    forall|j: int|
                        old(self).pages@.len() <= j < self.pages@.len() ==> (
                        #[trigger] self.pages@[j])@ == Seq::<u8>::empty(),
                decreases idx - self.pages@.len(),
            {
                let empty: Vec<u8> = Vec::new();
                self.pages.push(empty);
                proof {
                    assert(self.pages@.subrange(0, old(self).pages@.len() as int) =~= old(
                        self,
                    ).pages@);
                }
            }
            self.pages.push(data);
            proof {
                assert(self@ =~= spec_write_page(old(self)@, page_no, data@));
            }
        }
    }
}

} // verus!
