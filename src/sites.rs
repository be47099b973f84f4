//! Which entry of the site list starts out selected.
use vstd::prelude::*;

use crate::tree::label_seq;

verus! {

/// `k` is the last position at which `current` appears in `items`.
pub open spec fn is_last_match(items: Seq<Seq<char>>, current: Seq<char>, k: int) -> bool {
    &&& 0 <= k < items.len()
    &&& items[k] == current
    &&& forall|j: int| k < j < items.len() ==> items[j] != current
}

/// The position to select when the site list is set to `items` with
/// `current` as the current site: the last entry equal to `current`, or the
/// first entry when none is.
pub fn site_index(items: &Vec<String>, current: &String) -> (idx: usize)
    ensures
        (exists|k: int| 0 <= k < items.len() && #[trigger] items@[k]@ == current@) ==> is_last_match(
            label_seq(items@),
            current@,
            idx as int,
        ),
        (forall|k: int| 0 <= k < items.len() ==> #[trigger] items@[k]@ != current@) ==> idx == 0,
{
    let mut idx: usize = 0;
    let mut found = false;
    let mut i: usize = 0;
    while i < items.len()
        invariant
            i <= items.len(),
            found <==> exists|k: int| 0 <= k < i && #[trigger] items@[k]@ == current@,
            found ==> is_last_match(label_seq(items@.take(i as int)), current@, idx as int),
            !found ==> idx == 0,
        decreases items.len() - i,
    {
        if items[i].eq(current) {
            idx = i;
            found = true;
        }
        i = i + 1;
        assert(label_seq(items@.take(i as int)) =~= label_seq(items@.take(i - 1)).push(items@[i - 1]@));
    }
    assert(items@.take(i as int) =~= items@);
    idx
}

} // verus!
