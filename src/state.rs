//! The state behind the package panel: the tree, the filter over its
//! top-level rows, and the expansion under way, driven by the view's events.
use vstd::prelude::*;

use crate::expansion::{
    expand_query, on_collapse, reply_result, tree_after_reply, CatalogError, CatalogQuery,
    ExpansionController, QueryModel,
};
use crate::filter::{filter_mask, FilterIndex};
use crate::tree::{
    after_add_child, after_replace, child_count, label_seq, lazy_packages, package_labels,
    ref_valid, NodeRef, PackageView, TreeStore,
};

verus! {

pub struct TreeStateView {
    pub tree: Seq<PackageView>,
    pub mask: Seq<bool>,
    pub pattern: Seq<char>,
    pub pending: Option<(NodeRef, QueryModel)>,
}

impl TreeStateView {
    /// The visibility mask is the filter of the current pattern over the
    /// current top-level rows, as if it had just been recomputed.
    pub open spec fn filter_is_current(self) -> bool {
        self.mask == filter_mask(package_labels(self.tree), self.pattern)
    }
}

/// Splicing children in, or appending a child, leaves the top-level labels
/// as they were.
proof fn lemma_nested_change_keeps_labels(t: Seq<PackageView>, r: NodeRef, ls: Seq<Seq<char>>, lazy: bool, l: Seq<char>)
    requires
        ref_valid(t, r),
    ensures
        package_labels(after_replace(t, r, ls, lazy)) == package_labels(t),
        package_labels(after_add_child(t, r, l)) == package_labels(t),
{
    assert(package_labels(after_replace(t, r, ls, lazy)) =~= package_labels(t));
    assert(package_labels(after_add_child(t, r, l)) =~= package_labels(t));
}

/// Handling a catalog reply leaves the top-level labels as they were.
proof fn lemma_reply_keeps_labels(
    t: Seq<PackageView>,
    pending: Option<(NodeRef, QueryModel)>,
    reply: Result<Vec<String>, CatalogError>,
)
    ensures
        package_labels(tree_after_reply(t, pending, reply)) == package_labels(t),
{
    match (pending, reply) {
        (Some((node, q)), Ok(rows)) => {
            if ref_valid(t, node) {
                lemma_nested_change_keeps_labels(
                    t,
                    node,
                    crate::expansion::rows_to_show(q, label_seq(rows@)),
                    node is Package,
                    Seq::empty(),
                );
            }
        },
        _ => {},
    }
}

/// The tree, the filter mask kept in step with it, the filter text, and the
/// expansion controller.
pub struct TreeState {
    store: TreeStore,
    filter: FilterIndex,
    pattern: String,
    controller: ExpansionController,
}

impl View for TreeState {
    type V = TreeStateView;

    closed spec fn view(&self) -> TreeStateView {
        TreeStateView {
            tree: self.store@,
            mask: self.filter@,
            pattern: self.pattern@,
            pending: self.controller@,
        }
    }
}

impl TreeState {
    /// The mask always matches the current rows and filter text.
    #[verifier::type_invariant]
    spec fn filter_in_step(self) -> bool {
        self@.filter_is_current()
    }

    /// Moves the parts out, leaving an empty state behind.
    fn take_parts(&mut self) -> (parts: (TreeStore, FilterIndex, String, ExpansionController))
        ensures
            parts.0@ == old(self)@.tree,
            parts.1@ == old(self)@.mask,
            parts.2@ == old(self)@.pattern,
            parts.3@ == old(self)@.pending,
            old(self)@.filter_is_current(),
    {
        proof {
            use_type_invariant(&*self);
        }
        let mut taken = TreeState::new();
        std::mem::swap(self, &mut taken);
        let TreeState { store, filter, pattern, controller } = taken;
        (store, filter, pattern, controller)
    }

    /// No rows, an empty filter and no expansion under way.
    pub fn new() -> (s: TreeState)
        ensures
            s@.tree == Seq::<PackageView>::empty(),
            s@.pattern == Seq::<char>::empty(),
            s@.pending is None,
            s@.filter_is_current(),
    {
        let store = TreeStore::new();
        let filter = FilterIndex::new();
        let pattern = String::new();
        assert(filter@ =~= filter_mask(package_labels(store@), pattern@));
        TreeState { store, filter, pattern, controller: ExpansionController::new() }
    }

    /// The tree, for reading.
    pub fn store(&self) -> (t: &TreeStore)
        ensures
            t@ == self@.tree,
    {
        &self.store
    }

    /// The visibility of the top-level rows, for reading.
    pub fn filter(&self) -> (f: &FilterIndex)
        ensures
            f@ == self@.mask,
            self@.filter_is_current(),
    {
        proof {
            use_type_invariant(self);
        }
        &self.filter
    }

    /// Replaces every row with one expandable package per name and
    /// recomputes the filter mask for the new rows.
    pub fn set_packages(&mut self, names: &Vec<String>)
        ensures
            final(self)@.tree == lazy_packages(label_seq(names@)),
            final(self)@.pattern == old(self)@.pattern,
            final(self)@.pending == old(self)@.pending,
            final(self)@.filter_is_current(),
    {
        let (mut store, mut filter, pattern, controller) = self.take_parts();
        store.set_packages(names);
        filter.apply(&store, pattern.as_str());
        *self = TreeState { store, filter, pattern, controller };
    }

    /// Removes every row and recomputes the filter mask.
    pub fn clear_packages(&mut self)
        ensures
            final(self)@.tree == Seq::<PackageView>::empty(),
            final(self)@.pattern == old(self)@.pattern,
            final(self)@.pending == old(self)@.pending,
            final(self)@.filter_is_current(),
    {
        let (mut store, mut filter, pattern, controller) = self.take_parts();
        store.clear_packages();
        filter.apply(&store, pattern.as_str());
        *self = TreeState { store, filter, pattern, controller };
    }

    /// Appends a package with no child and recomputes the filter mask.
    pub fn add_package(&mut self, name: &String)
        ensures
            final(self)@.tree == old(self)@.tree.push(
                PackageView { label: name@, children: Seq::empty() },
            ),
            final(self)@.pattern == old(self)@.pattern,
            final(self)@.pending == old(self)@.pending,
            final(self)@.filter_is_current(),
    {
        let (mut store, mut filter, pattern, controller) = self.take_parts();
        store.add_package(name);
        filter.apply(&store, pattern.as_str());
        *self = TreeState { store, filter, pattern, controller };
    }

    /// Appends a plain child to a package or a version. The top-level rows
    /// keep their labels, so the mask stays as it is.
    pub fn add_child(&mut self, parent: NodeRef, label: &String)
        requires
            ref_valid(old(self)@.tree, parent),
            !(parent is Platform),
        ensures
            final(self)@.tree == after_add_child(old(self)@.tree, parent, label@),
            final(self)@.mask == old(self)@.mask,
            final(self)@.pattern == old(self)@.pattern,
            final(self)@.pending == old(self)@.pending,
            final(self)@.filter_is_current(),
    {
        let (mut store, filter, pattern, controller) = self.take_parts();
        proof {
            lemma_nested_change_keeps_labels(store@, parent, Seq::empty(), false, label@);
        }
        store.add_child(parent, label);
        *self = TreeState { store, filter, pattern, controller };
    }

    /// Handles a change of the filter text: the mask is recomputed in full.
    pub fn set_filter_text(&mut self, pattern: &str)
        ensures
            final(self)@.tree == old(self)@.tree,
            final(self)@.pattern == pattern@,
            final(self)@.pending == old(self)@.pending,
            final(self)@.filter_is_current(),
    {
        let (store, mut filter, _, controller) = self.take_parts();
        filter.apply(&store, pattern);
        *self = TreeState { store, filter, pattern: pattern.to_owned(), controller };
    }

    /// Handles an expand event on `node`: returns the query that the caller
    /// must run, or `None` when the row needs none.
    pub fn expand(&mut self, node: NodeRef) -> (q: Option<CatalogQuery>)
        requires
            ref_valid(old(self)@.tree, node),
        ensures
            crate::expansion::query_model(q) == expand_query(old(self)@.tree, node),
            final(self)@.tree == old(self)@.tree,
            final(self)@.mask == old(self)@.mask,
            final(self)@.pattern == old(self)@.pattern,
            final(self)@.pending == match q {
                Some(query) => Some((node, query@)),
                None => old(self)@.pending,
            },
    {
        let (store, filter, pattern, mut controller) = self.take_parts();
        let q = controller.on_expand(&store, node);
        *self = TreeState { store, filter, pattern, controller };
        q
    }

    /// Handles the catalog's reply to the query last handed out. Only nested
    /// rows change, so the mask stays as it is.
    pub fn reply(&mut self, reply: Result<Vec<String>, CatalogError>) -> (r: Result<bool, CatalogError>)
        ensures
            final(self)@.tree == tree_after_reply(old(self)@.tree, old(self)@.pending, reply),
            r == reply_result(old(self)@.tree, old(self)@.pending, reply),
            final(self)@.mask == old(self)@.mask,
            final(self)@.pattern == old(self)@.pattern,
            final(self)@.pending is None,
            final(self)@.filter_is_current(),
    {
        let (mut store, filter, pattern, mut controller) = self.take_parts();
        proof {
            lemma_reply_keeps_labels(store@, controller@, reply);
        }
        let r = controller.on_reply(&mut store, reply);
        *self = TreeState { store, filter, pattern, controller };
        r
    }

    /// Handles a collapse event on `node`: whether its first child row must
    /// be shown again.
    pub fn collapse(&self, node: NodeRef) -> (show_first_child: bool)
        requires
            ref_valid(self@.tree, node),
        ensures
            show_first_child == (child_count(self@.tree, node) == 1),
    {
        on_collapse(&self.store, node)
    }
}

} // verus!
