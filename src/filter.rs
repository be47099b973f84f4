//! Visibility of the top-level rows under a case-sensitive substring filter.
use vstd::prelude::*;

use crate::tree::{package_labels, TreeStore};

verus! {

/// `pattern` appears in `text` starting at position `k`.
pub open spec fn occurs_at(pattern: Seq<char>, text: Seq<char>, k: int) -> bool {
    &&& 0 <= k
    &&& k + pattern.len() <= text.len()
    &&& text.subrange(k, k + pattern.len()) == pattern
}

/// `pattern` appears somewhere in `text` as a run of consecutive characters.
pub open spec fn occurs_in(pattern: Seq<char>, text: Seq<char>) -> bool {
    exists|k: int| occurs_at(pattern, text, k)
}

/// A row stays visible under the filter when the pattern is empty or
/// occurs in its label.
pub open spec fn passes_filter(label: Seq<char>, pattern: Seq<char>) -> bool {
    pattern.len() == 0 || occurs_in(pattern, label)
}

/// The visibility of each row, one flag per label, in order.
pub open spec fn filter_mask(labels: Seq<Seq<char>>, pattern: Seq<char>) -> Seq<bool> {
    labels.map_values(|l: Seq<char>| passes_filter(l, pattern))
}

/// The characters of a string, in order.
fn chars_of(s: &str) -> (r: Vec<char>)
    ensures
        r@ == s@,
{
    let n: usize = s.unicode_len();
    let mut r: Vec<char> = Vec::new();
    let mut i: usize = 0;
    while i < n
        invariant
            n == s@.len(),
            i <= n,
            r@ == s@.take(i as int),
        decreases n - i,
    {
        r.push(s.get_char(i));
        i = i + 1;
        assert(r@ =~= s@.take(i as int));
    }
    assert(s@.take(n as int) =~= s@);
    r
}

/// Whether `pattern` occurs in `text` at position `k`.
fn matches_at(text: &Vec<char>, pattern: &Vec<char>, k: usize) -> (b: bool)
    requires
        k + pattern.len() <= text.len(),
    ensures
        b == occurs_at(pattern@, text@, k as int),
{
    let mut j: usize = 0;
    while j < pattern.len()
        invariant
            k + pattern.len() <= text.len(),
            j <= pattern.len(),
            forall|i: int| 0 <= i < j ==> text@[k + i] == pattern@[i],
        decreases pattern.len() - j,
    {
        if text[k + j] != pattern[j] {
            assert(text@.subrange(k as int, k + pattern.len())[j as int] != pattern@[j as int]);
            return false;
        }
        j = j + 1;
    }
    assert(text@.subrange(k as int, k + pattern.len()) =~= pattern@);
    true
}

/// Whether `pattern` occurs in `text`, comparing characters exactly.
pub fn contains(text: &str, pattern: &str) -> (b: bool)
    ensures
        b == occurs_in(pattern@, text@),
{
    let t = chars_of(text);
    let p = chars_of(pattern);
    if p.len() > t.len() {
        return false;
    }
    let last: usize = t.len() - p.len();
    let mut k: usize = 0;
    while k < last
        invariant
            t@ == text@,
            p@ == pattern@,
            last == t.len() - p.len(),
            k <= last,
            forall|i: int| 0 <= i < k ==> !#[trigger] occurs_at(p@, t@, i),
        decreases last - k,
    {
        if matches_at(&t, &p, k) {
            return true;
        }
        k = k + 1;
    }
    if matches_at(&t, &p, last) {
        return true;
    }
    assert forall|i: int| !#[trigger] occurs_at(p@, t@, i) by {
        if i > last {
            assert(i + p@.len() > t@.len());
        }
    }
    false
}

/// The visibility of each top-level row under the current filter text.
pub struct FilterIndex {
    mask: Vec<bool>,
}

impl View for FilterIndex {
    type V = Seq<bool>;

    closed spec fn view(&self) -> Seq<bool> {
        self.mask@
    }
}

impl FilterIndex {
    /// A mask over no rows.
    pub fn new() -> (f: FilterIndex)
        ensures
            f@ == Seq::<bool>::empty(),
    {
        FilterIndex { mask: Vec::new() }
    }

    /// Recomputes the whole mask from the top-level rows of `store`: with an
    /// empty pattern every row is visible, otherwise a row is visible exactly
    /// when the pattern occurs in its label. Nothing of the previous mask is
    /// kept, and nested rows are not looked at.
    pub fn apply(&mut self, store: &TreeStore, pattern: &str)
        ensures
            final(self)@ == filter_mask(package_labels(store@), pattern@),
    {
        let n: usize = store.len();
        let show_all = pattern.unicode_len() == 0;
        let mut mask: Vec<bool> = Vec::new();
        let mut i: usize = 0;
        while i < n
            invariant
                n == store@.len(),
                show_all == (pattern@.len() == 0),
                i <= n,
                mask.len() == i,
                forall|k: int|
                    0 <= k < i ==> #[trigger] mask@[k] == passes_filter(store@[k].label, pattern@),
            decreases n - i,
        {
            let visible = show_all || contains(store.package_label(i).as_str(), pattern);
            mask.push(visible);
            i = i + 1;
        }
        assert(mask@ =~= filter_mask(package_labels(store@), pattern@));
        self.mask = mask;
    }

    /// The number of rows the mask covers.
    pub fn len(&self) -> (n: usize)
        ensures
            n == self@.len(),
    {
        self.mask.len()
    }

    /// Whether top-level row `row` is shown.
    pub fn is_visible(&self, row: usize) -> (b: bool)
        requires
            row < self@.len(),
        ensures
            b == self@[row as int],
    {
        self.mask[row]
    }
}

/// With an empty filter text every top-level row is visible. The mask is
/// recomputed from the rows alone, so this holds whatever filter was applied
/// before, and applying the empty filter again changes nothing.
pub proof fn lemma_empty_pattern_shows_all(labels: Seq<Seq<char>>)
    ensures
        filter_mask(labels, Seq::empty()).len() == labels.len(),
        forall|i: int| 0 <= i < labels.len() ==> #[trigger] filter_mask(labels, Seq::empty())[i],
{
}

} // verus!
