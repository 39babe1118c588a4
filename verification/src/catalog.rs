//! Ordering the downloaded-comics catalog: metadata files are listed newest
//! first. The filesystem walk happens outside; this module gets each entry's
//! position and modification time and returns the display order.

use vstd::prelude::*;
use vstd::multiset::Multiset;
use vstd::seq_lib::group_to_multiset_ensures;

verus! {

/// One metadata file found in the download directory: its position in the
/// directory walk and its modification time.
#[derive(Clone, Copy, PartialEq, Eq, Structural, Debug)]
pub struct CatalogEntry {
    pub index: usize,
    pub modified: u64,
}

/// Newest first: modification times never increase along the list.
pub open spec fn sorted_newest_first(s: Seq<CatalogEntry>) -> bool {
    forall|i: int, j: int| 0 <= i < j < s.len() ==> s[i].modified >= s[j].modified
}

/// The index of an entry with the largest modification time in `s`.
fn find_newest(entries: &Vec<CatalogEntry>) -> (r: usize)
    requires
        entries@.len() > 0,
    ensures
        r < entries@.len(),
        forall|j: int| 0 <= j < entries@.len()
            ==> entries@[r as int].modified >= (#[trigger] entries@[j]).modified,
{
    let n = entries.len();
    let mut best: usize = 0;
    let mut i: usize = 1;
    while i < n
        invariant
            n == entries@.len(),
            best < i <= n,
            forall|j: int| 0 <= j < i
                ==> entries@[best as int].modified >= (#[trigger] entries@[j]).modified,
        decreases n - i,
    {
        if entries[i].modified > entries[best].modified {
            best = i;
        }
        i = i + 1;
    }
    best
}

/// Sort the catalog newest first. The result is a permutation of the input,
/// ordered by non-increasing modification time.
pub fn sort_newest_first(entries: Vec<CatalogEntry>) -> (r: Vec<CatalogEntry>)
    ensures
        r@.len() == entries@.len(),
        sorted_newest_first(r@),
        r@.to_multiset() == entries@.to_multiset(),
{
    broadcast use group_to_multiset_ensures;

    let mut remaining = entries;
    let mut out: Vec<CatalogEntry> = Vec::new();
    let ghost all = remaining@;
    while remaining.len() > 0
        invariant
            out@.len() + remaining@.len() == all.len(),
            sorted_newest_first(out@),
            out@.to_multiset().add(remaining@.to_multiset()) =~= all.to_multiset(),
            forall|i: int, j: int| 0 <= i < out@.len() && 0 <= j < remaining@.len()
                ==> (#[trigger] out@[i]).modified >= (#[trigger] remaining@[j]).modified,
        decreases remaining@.len(),
    {
        let m = find_newest(&remaining);
        let ghost rem_before = remaining@;
        let ghost out_before = out@;
        let e = remaining.remove(m);
        out.push(e);
        proof {
            out_before.to_multiset_ensures();
            rem_before.to_multiset_ensures();
            assert(out@ == out_before.push(e));
            assert(remaining@ == rem_before.remove(m as int));
            assert(rem_before[m as int] == e);
            assert(out@.to_multiset() =~= out_before.to_multiset().insert(e));
            assert(remaining@.to_multiset() =~= rem_before.to_multiset().remove(e));
            assert(rem_before.to_multiset().count(e) > 0) by {
                assert(rem_before[m as int] == e);
                assert(rem_before.contains(e));
            }
            assert(out@.to_multiset().add(remaining@.to_multiset()) =~= all.to_multiset());
            assert forall|i: int, j: int|
                0 <= i < out@.len() && 0 <= j < remaining@.len()
                implies (#[trigger] out@[i]).modified >= (#[trigger] remaining@[j]).modified by {
                assert(remaining@[j] == rem_before[if j < m { j } else { j + 1 }]);
            }
        }
    }
    proof {
        assert(remaining@.to_multiset() =~= Multiset::empty());
        assert(out@.to_multiset() =~= all.to_multiset());
        assert(out@.len() == out@.to_multiset().len());
        assert(all.len() == all.to_multiset().len());
    }
    out
}

} // verus!
