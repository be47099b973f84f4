//! What happens when the user expands or collapses a row: which catalog
//! query an expansion needs, and how the catalog's reply is spliced into the
//! tree. The catalog itself is queried by the caller, which hands the reply
//! back.
use vstd::prelude::*;

use crate::tree::{
    after_replace, child_count, is_unexpanded, label_seq, lazy_packages, ref_valid, NodeRef,
    PackageView, TreeStore,
};

verus! {

/// A query that an expansion asks the catalog to run.
#[derive(Debug, PartialEq, Eq)]
pub enum CatalogQuery {
    /// The distribution versions of the named package.
    Versions(String),
    /// All platform names.
    Platforms,
}

/// The mathematical form of a [`CatalogQuery`].
pub enum QueryModel {
    Versions(Seq<char>),
    Platforms,
}

impl View for CatalogQuery {
    type V = QueryModel;

    open spec fn view(&self) -> QueryModel {
        match self {
            CatalogQuery::Versions(p) => QueryModel::Versions(p@),
            CatalogQuery::Platforms => QueryModel::Platforms,
        }
    }
}

/// Why the catalog could not answer. Both kinds are handled alike: the
/// error goes back to the caller and the tree is left as it was.
#[derive(Debug, PartialEq, Eq)]
pub enum CatalogError {
    /// The catalog could not be reached.
    Connectivity(String),
    /// The catalog was reached but the query failed.
    Query(String),
}

/// The query, if any, in mathematical form.
pub open spec fn query_model(q: Option<CatalogQuery>) -> Option<QueryModel> {
    match q {
        Some(q) => Some(q@),
        None => None,
    }
}

/// The platform name that stands for "any platform" and is never shown.
pub open spec fn is_any(s: Seq<char>) -> bool {
    s == seq!['a', 'n', 'y']
}

/// The platform names with every "any" taken out, the rest in order.
pub open spec fn without_any(rows: Seq<Seq<char>>) -> Seq<Seq<char>> {
    rows.filter(|s: Seq<char>| !is_any(s))
}

/// The query that expanding row `r` issues. Only a row whose single child
/// is the placeholder is expanded; a top-level package asks for its
/// versions, a version asks for the platforms.
pub open spec fn expand_query(t: Seq<PackageView>, r: NodeRef) -> Option<QueryModel> {
    if is_unexpanded(t, r) {
        match r {
            NodeRef::Package(i) => Some(QueryModel::Versions(t[i as int].label)),
            NodeRef::Version(_, _) => Some(QueryModel::Platforms),
            NodeRef::Platform(_, _, _) => None,
        }
    } else {
        None
    }
}

/// The rows of a reply that become children.
pub open spec fn rows_to_show(q: QueryModel, rows: Seq<Seq<char>>) -> Seq<Seq<char>> {
    match q {
        QueryModel::Versions(_) => rows,
        QueryModel::Platforms => without_any(rows),
    }
}

/// The tree once the reply `rows` to the query of row `r` is spliced in. An
/// empty result leaves the tree, placeholder included, as it was; otherwise
/// the placeholder gives way to the rows, and new versions are expandable.
pub open spec fn after_expand(
    t: Seq<PackageView>,
    r: NodeRef,
    q: QueryModel,
    rows: Seq<Seq<char>>,
) -> Seq<PackageView> {
    if rows_to_show(q, rows).len() == 0 {
        t
    } else {
        after_replace(t, r, rows_to_show(q, rows), r is Package)
    }
}

/// A reply finds its expansion still waiting: a query was handed out for a
/// row that the tree still holds, and expanding that row would still issue
/// the same query.
pub open spec fn reply_applies(t: Seq<PackageView>, pending: Option<(NodeRef, QueryModel)>) -> bool {
    match pending {
        Some((node, q)) => ref_valid(t, node) && expand_query(t, node) == Some(q),
        None => false,
    }
}

/// The tree once `reply` comes back while `pending` waits: the rows are
/// spliced in when the reply applies and holds rows, and nothing changes
/// otherwise.
pub open spec fn tree_after_reply(
    t: Seq<PackageView>,
    pending: Option<(NodeRef, QueryModel)>,
    reply: Result<Vec<String>, CatalogError>,
) -> Seq<PackageView> {
    match (pending, reply) {
        (Some((node, q)), Ok(rows)) => if reply_applies(t, pending) {
            after_expand(t, node, q, label_seq(rows@))
        } else {
            t
        },
        _ => t,
    }
}

/// What handling `reply` returns: the catalog's error when the reply applies
/// and is one, whether rows were added when it applies and holds rows, and
/// `Ok(false)` when it does not apply.
pub open spec fn reply_result(
    t: Seq<PackageView>,
    pending: Option<(NodeRef, QueryModel)>,
    reply: Result<Vec<String>, CatalogError>,
) -> Result<bool, CatalogError> {
    match (pending, reply) {
        (Some((node, q)), Ok(rows)) => if reply_applies(t, pending) {
            Ok(rows_to_show(q, label_seq(rows@)).len() > 0)
        } else {
            Ok(false)
        },
        (Some(_), Err(e)) => if reply_applies(t, pending) {
            Err(e)
        } else {
            Ok(false)
        },
        (None, _) => Ok(false),
    }
}

/// `None` for the platform name "any", which is not a real platform, and
/// the name itself otherwise.
pub fn is_not_any(item: &str) -> (r: Option<&str>)
    ensures
        is_any(item@) ==> r is None,
        !is_any(item@) ==> r == Some(item),
{
    if item.unicode_len() == 3 && item.get_char(0) == 'a' && item.get_char(1) == 'n'
        && item.get_char(2) == 'y' {
        assert(item@ =~= seq!['a', 'n', 'y']);
        None
    } else {
        Some(item)
    }
}

/// The platform names with every "any" taken out, the rest in order.
pub fn filter_platforms(rows: &Vec<String>) -> (r: Vec<String>)
    ensures
        label_seq(r@) == without_any(label_seq(rows@)),
{
    let mut r: Vec<String> = Vec::new();
    let mut i: usize = 0;
    while i < rows.len()
        invariant
            i <= rows.len(),
            label_seq(r@) == without_any(label_seq(rows@).take(i as int)),
        decreases rows.len() - i,
    {
        let ghost before = label_seq(rows@).take(i as int);
        proof {
            assert(label_seq(rows@).take(i + 1) =~= before.push(rows@[i as int]@));
            before.lemma_filter_push(rows@[i as int]@, |s: Seq<char>| !is_any(s));
        }
        if is_not_any(rows[i].as_str()).is_some() {
            r.push(rows[i].clone());
            assert(label_seq(r@) =~= without_any(before).push(rows@[i as int]@));
        }
        i = i + 1;
    }
    assert(label_seq(rows@).take(rows.len() as int) =~= label_seq(rows@));
    r
}

impl CatalogQuery {
    /// A copy of the query.
    fn duplicate(&self) -> (q: CatalogQuery)
        ensures
            q@ == self@,
    {
        match self {
            CatalogQuery::Versions(p) => CatalogQuery::Versions(p.clone()),
            CatalogQuery::Platforms => CatalogQuery::Platforms,
        }
    }
}

/// Decides what expanding `node` asks of the catalog. A row with more than
/// one child was expanded before, and a row whose single child is real, or
/// that has no child, is not expandable: both give `None`. Otherwise a
/// top-level package asks for its versions and a version for the platforms.
pub fn plan_expand(store: &TreeStore, node: NodeRef) -> (q: Option<CatalogQuery>)
    requires
        ref_valid(store@, node),
    ensures
        query_model(q) == expand_query(store@, node),
{
    let n: usize = store.child_count(node);
    if n != 1 || !store.child_is_placeholder(node, 0) {
        return None;
    }
    match node {
        NodeRef::Package(_) => Some(CatalogQuery::Versions(store.label(node).clone())),
        NodeRef::Version(_, _) => Some(CatalogQuery::Platforms),
        NodeRef::Platform(_, _, _) => None,
    }
}

/// Splices the catalog's reply to the query of `node` into the tree. An
/// error is handed back and leaves the tree as it was. Platform replies lose
/// their "any" entries. An empty result leaves the placeholder in place;
/// otherwise the placeholder gives way to the rows in the order received,
/// and new versions get a placeholder each so that they can be expanded in
/// turn. `Ok(true)` says that children were added.
pub fn complete_expand(
    store: &mut TreeStore,
    node: NodeRef,
    query: &CatalogQuery,
    reply: Result<Vec<String>, CatalogError>,
) -> (r: Result<bool, CatalogError>)
    requires
        ref_valid(old(store)@, node),
        expand_query(old(store)@, node) == Some(query@),
    ensures
        match reply {
            Err(e) => {
                &&& r == Err::<bool, CatalogError>(e)
                &&& final(store)@ == old(store)@
            },
            Ok(rows) => {
                &&& r == Ok::<bool, CatalogError>(rows_to_show(query@, label_seq(rows@)).len() > 0)
                &&& final(store)@ == after_expand(old(store)@, node, query@, label_seq(rows@))
            },
        },
{
    match reply {
        Err(e) => Err(e),
        Ok(rows) => {
            let shown = match query {
                CatalogQuery::Versions(_) => rows,
                CatalogQuery::Platforms => filter_platforms(&rows),
            };
            if shown.len() == 0 {
                assert(label_seq(shown@).len() == 0);
                Ok(false)
            } else {
                let lazy = match node {
                    NodeRef::Package(_) => true,
                    _ => false,
                };
                store.replace_children(node, &shown, lazy);
                Ok(true)
            }
        },
    }
}

/// Decides, when `node` is collapsed, whether its first child row must be
/// shown again: it must when the row has exactly one child, so that a
/// visibility flag left from an earlier pass cannot keep it hidden for good.
pub fn on_collapse(store: &TreeStore, node: NodeRef) -> (show_first_child: bool)
    requires
        ref_valid(store@, node),
    ensures
        show_first_child == (child_count(store@, node) == 1),
{
    store.child_count(node) == 1
}

/// An expansion whose query has been handed out and not yet answered.
struct PendingExpansion {
    node: NodeRef,
    query: CatalogQuery,
}

/// The expansion state machine. A row is collapsed until an expand event
/// hands out its query; it is expanding until the reply comes back; then it
/// is expanded if the reply held rows, and collapsed again otherwise.
pub struct ExpansionController {
    pending: Option<PendingExpansion>,
}

impl View for ExpansionController {
    type V = Option<(NodeRef, QueryModel)>;

    closed spec fn view(&self) -> Option<(NodeRef, QueryModel)> {
        match self.pending {
            Some(p) => Some((p.node, p.query@)),
            None => None,
        }
    }
}

impl ExpansionController {
    /// A controller with no expansion under way.
    pub fn new() -> (c: ExpansionController)
        ensures
            c@ is None,
    {
        ExpansionController { pending: None }
    }

    /// Handles an expand event on `node`. Returns the query that the caller
    /// must run, and remembers it until the reply comes; returns `None`, and
    /// changes nothing, when the row needs no query.
    pub fn on_expand(&mut self, store: &TreeStore, node: NodeRef) -> (q: Option<CatalogQuery>)
        requires
            ref_valid(store@, node),
        ensures
            query_model(q) == expand_query(store@, node),
            node matches NodeRef::Package(i) ==> (q is Some ==> q->0@ == QueryModel::Versions(
                store@[i as int].label,
            )),
            node is Version && q is Some ==> q->0@ == QueryModel::Platforms,
            node is Platform ==> q is None,
            final(self)@ == match q {
                Some(query) => Some((node, query@)),
                None => old(self)@,
            },
    {
        let q = plan_expand(store, node);
        match &q {
            Some(query) => {
                self.pending = Some(PendingExpansion { node, query: query.duplicate() });
            },
            None => {},
        }
        q
    }

    /// Handles the catalog's reply to the query last handed out. The reply is
    /// applied only while the row still waits for that same query; a reply
    /// with nothing waiting, or for a row that changed meanwhile, is dropped.
    /// Either way no expansion is under way afterwards.
    pub fn on_reply(&mut self, store: &mut TreeStore, reply: Result<Vec<String>, CatalogError>) -> (r:
        Result<bool, CatalogError>)
        ensures
            final(self)@ is None,
            final(store)@ == tree_after_reply(old(store)@, old(self)@, reply),
            r == reply_result(old(store)@, old(self)@, reply),
    {
        match self.pending.take() {
            None => Ok(false),
            Some(p) => {
                if !store.is_valid(p.node) {
                    return Ok(false);
                }
                let current = plan_expand(store, p.node);
                let same = match (&current, &p.query) {
                    (Some(CatalogQuery::Versions(a)), CatalogQuery::Versions(b)) => a.eq(b),
                    (Some(CatalogQuery::Platforms), CatalogQuery::Platforms) => true,
                    _ => false,
                };
                if !same {
                    return Ok(false);
                }
                complete_expand(store, p.node, &p.query, reply)
            },
        }
    }
}

/// Expanding a row a second time, once its rows have arrived, issues no
/// query, so the second expand event neither asks the catalog again nor adds
/// children twice.
pub proof fn lemma_expand_idempotent(
    t: Seq<PackageView>,
    r: NodeRef,
    q: QueryModel,
    rows: Seq<Seq<char>>,
)
    requires
        ref_valid(t, r),
        expand_query(t, r) == Some(q),
        rows_to_show(q, rows).len() > 0,
    ensures
        ref_valid(after_expand(t, r, q, rows), r),
        expand_query(after_expand(t, r, q, rows), r) is None,
{
    let shown = rows_to_show(q, rows);
    match r {
        NodeRef::Package(i) => {
            assert(t[i as int].children.drop_first() + crate::tree::version_rows(shown, true)
                =~= crate::tree::version_rows(shown, true));
        },
        NodeRef::Version(i, j) => {
            assert(crate::tree::version_at(t, i as int, j as int).children.drop_first()
                + crate::tree::platform_rows(shown) =~= crate::tree::platform_rows(shown));
        },
        NodeRef::Platform(_, _, _) => {},
    }
}

/// A reply with no row to show leaves the tree as it was, and the expanded
/// row keeps its single placeholder child, so it can be expanded again.
pub proof fn lemma_empty_reply_keeps_placeholder(
    t: Seq<PackageView>,
    r: NodeRef,
    q: QueryModel,
    rows: Seq<Seq<char>>,
)
    requires
        ref_valid(t, r),
        expand_query(t, r) == Some(q),
        rows_to_show(q, rows).len() == 0,
    ensures
        after_expand(t, r, q, rows) == t,
        is_unexpanded(after_expand(t, r, q, rows), r),
{
}

/// Every package row that setting the packages creates has never been
/// expanded: its only child is the placeholder.
pub proof fn lemma_new_packages_unexpanded(names: Seq<Seq<char>>)
    ensures
        forall|i: usize|
            i < names.len() ==> ref_valid(lazy_packages(names), NodeRef::Package(i))
                && #[trigger] is_unexpanded(lazy_packages(names), NodeRef::Package(i)),
{
}

/// Every version row that expanding a package adds has never been expanded:
/// its only child is the placeholder.
pub proof fn lemma_new_versions_unexpanded(
    t: Seq<PackageView>,
    i: usize,
    q: QueryModel,
    rows: Seq<Seq<char>>,
)
    requires
        ref_valid(t, NodeRef::Package(i)),
        expand_query(t, NodeRef::Package(i)) == Some(q),
        rows_to_show(q, rows).len() > 0,
    ensures
        forall|j: usize|
            j < rows.len() ==> ref_valid(after_expand(t, NodeRef::Package(i), q, rows), NodeRef::Version(i, j))
                && #[trigger] is_unexpanded(
                after_expand(t, NodeRef::Package(i), q, rows),
                NodeRef::Version(i, j),
            ),
{
    assert(t[i as int].children.drop_first() + crate::tree::version_rows(rows, true)
        =~= crate::tree::version_rows(rows, true));
}

/// Expanding one row leaves every other row that was never expanded with
/// exactly its placeholder child.
pub proof fn lemma_expand_keeps_other_rows_unexpanded(
    t: Seq<PackageView>,
    r: NodeRef,
    q: QueryModel,
    rows: Seq<Seq<char>>,
    other: NodeRef,
)
    requires
        ref_valid(t, r),
        expand_query(t, r) == Some(q),
        other != r,
        ref_valid(t, other),
        is_unexpanded(t, other),
    ensures
        ref_valid(after_expand(t, r, q, rows), other),
        is_unexpanded(after_expand(t, r, q, rows), other),
{
}

} // verus!
