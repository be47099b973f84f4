//! The in-memory tree: packages at the top, versions below them, platforms
//! below versions. A row whose children are not known yet carries a single
//! placeholder child, which makes it look expandable.
use vstd::prelude::*;

verus! {

/// One child slot of a row: either the placeholder that marks a row as not
/// yet expanded, or a real child.
pub enum Entry<T> {
    Placeholder,
    Real(T),
}

impl<T: View> View for Entry<T> {
    type V = Entry<T::V>;

    open spec fn view(&self) -> Entry<T::V> {
        match self {
            Entry::Placeholder => Entry::Placeholder,
            Entry::Real(t) => Entry::Real(t@),
        }
    }
}

/// The level of a row in the tree.
#[derive(Clone, Copy, Debug, PartialEq, Eq, Structural)]
pub enum NodeKind {
    Package,
    Version,
    Platform,
}

/// A distribution version of a package; its real children are platform names.
pub struct Version {
    pub label: String,
    pub children: Vec<Entry<String>>,
}

/// A package at the top level; its real children are versions.
pub struct Package {
    pub label: String,
    pub children: Vec<Entry<Version>>,
}

pub struct VersionView {
    pub label: Seq<char>,
    pub children: Seq<Entry<Seq<char>>>,
}

pub struct PackageView {
    pub label: Seq<char>,
    pub children: Seq<Entry<VersionView>>,
}

impl View for Version {
    type V = VersionView;

    open spec fn view(&self) -> VersionView {
        VersionView {
            label: self.label@,
            children: self.children@.map_values(|e: Entry<String>| e@),
        }
    }
}

impl View for Package {
    type V = PackageView;

    open spec fn view(&self) -> PackageView {
        PackageView {
            label: self.label@,
            children: self.children@.map_values(|e: Entry<Version>| e@),
        }
    }
}

/// The children of a row that has never been expanded.
pub open spec fn unexpanded_children<T>() -> Seq<Entry<T>> {
    seq![Entry::Placeholder]
}

/// The labels of a sequence of strings.
pub open spec fn label_seq(v: Seq<String>) -> Seq<Seq<char>> {
    v.map_values(|s: String| s@)
}

/// The labels of the top-level rows, in order.
pub open spec fn package_labels(t: Seq<PackageView>) -> Seq<Seq<char>> {
    t.map_values(|p: PackageView| p.label)
}

/// A fresh package row for each name, in order, each with a placeholder child.
pub open spec fn lazy_packages(names: Seq<Seq<char>>) -> Seq<PackageView> {
    names.map_values(|n: Seq<char>| PackageView { label: n, children: unexpanded_children() })
}

/// Where a row stands: the package's position among the top-level rows, then
/// the version's position among the package's children, then the platform's
/// position among the version's children.
#[derive(Clone, Copy, Debug, PartialEq, Eq, Structural)]
pub enum NodeRef {
    Package(usize),
    Version(usize, usize),
    Platform(usize, usize, usize),
}

/// The kind of row that a reference points at, given by its depth.
pub open spec fn kind_of(r: NodeRef) -> NodeKind {
    match r {
        NodeRef::Package(_) => NodeKind::Package,
        NodeRef::Version(_, _) => NodeKind::Version,
        NodeRef::Platform(_, _, _) => NodeKind::Platform,
    }
}

/// The version at child position `j` of package `i`.
pub open spec fn version_at(t: Seq<PackageView>, i: int, j: int) -> VersionView {
    t[i].children[j]->0
}

/// The reference names a real row of the tree (never a placeholder).
pub open spec fn ref_valid(t: Seq<PackageView>, r: NodeRef) -> bool {
    match r {
        NodeRef::Package(i) => i < t.len(),
        NodeRef::Version(i, j) => {
            &&& i < t.len()
            &&& j < t[i as int].children.len()
            &&& t[i as int].children[j as int] is Real
        },
        NodeRef::Platform(i, j, k) => {
            &&& i < t.len()
            &&& j < t[i as int].children.len()
            &&& t[i as int].children[j as int] is Real
            &&& k < version_at(t, i as int, j as int).children.len()
            &&& version_at(t, i as int, j as int).children[k as int] is Real
        },
    }
}

/// The label of the row that a valid reference names.
pub open spec fn label_of(t: Seq<PackageView>, r: NodeRef) -> Seq<char> {
    match r {
        NodeRef::Package(i) => t[i as int].label,
        NodeRef::Version(i, j) => version_at(t, i as int, j as int).label,
        NodeRef::Platform(i, j, k) => version_at(t, i as int, j as int).children[k as int]->0,
    }
}

/// How many child rows (placeholders included) the row has; platforms have none.
pub open spec fn child_count(t: Seq<PackageView>, r: NodeRef) -> nat {
    match r {
        NodeRef::Package(i) => t[i as int].children.len(),
        NodeRef::Version(i, j) => version_at(t, i as int, j as int).children.len(),
        NodeRef::Platform(_, _, _) => 0,
    }
}

/// Whether child row `k` of the row is the placeholder.
pub open spec fn child_is_placeholder(t: Seq<PackageView>, r: NodeRef, k: int) -> bool {
    match r {
        NodeRef::Package(i) => t[i as int].children[k] is Placeholder,
        NodeRef::Version(i, j) => version_at(t, i as int, j as int).children[k] is Placeholder,
        NodeRef::Platform(_, _, _) => false,
    }
}

/// The row has never been expanded: its only child is the placeholder.
pub open spec fn is_unexpanded(t: Seq<PackageView>, r: NodeRef) -> bool {
    child_count(t, r) == 1 && child_is_placeholder(t, r, 0)
}

/// Package `i` with its children replaced by `c`.
pub open spec fn with_package_children(
    t: Seq<PackageView>,
    i: int,
    c: Seq<Entry<VersionView>>,
) -> Seq<PackageView> {
    t.update(i, PackageView { label: t[i].label, children: c })
}

/// Version `j` of package `i` with its children replaced by `c`.
pub open spec fn with_version_children(
    t: Seq<PackageView>,
    i: int,
    j: int,
    c: Seq<Entry<Seq<char>>>,
) -> Seq<PackageView> {
    with_package_children(
        t,
        i,
        t[i].children.update(
            j,
            Entry::Real(VersionView { label: version_at(t, i, j).label, children: c }),
        ),
    )
}

/// Real version rows for the labels, each with a placeholder child when
/// `lazy` holds and with no child otherwise.
pub open spec fn version_rows(ls: Seq<Seq<char>>, lazy: bool) -> Seq<Entry<VersionView>> {
    ls.map_values(
        |l: Seq<char>|
            Entry::Real(
                VersionView {
                    label: l,
                    children: if lazy {
                        unexpanded_children()
                    } else {
                        Seq::empty()
                    },
                },
            ),
    )
}

/// Real platform rows for the labels.
pub open spec fn platform_rows(ls: Seq<Seq<char>>) -> Seq<Entry<Seq<char>>> {
    ls.map_values(|l: Seq<char>| Entry::Real(l))
}

/// The tree after appending a plain child row, without a placeholder, to a
/// package or a version.
pub open spec fn after_add_child(t: Seq<PackageView>, parent: NodeRef, l: Seq<char>) -> Seq<
    PackageView,
> {
    match parent {
        NodeRef::Package(i) => with_package_children(
            t,
            i as int,
            t[i as int].children.push(Entry::Real(VersionView { label: l, children: Seq::empty() })),
        ),
        NodeRef::Version(i, j) => with_version_children(
            t,
            i as int,
            j as int,
            version_at(t, i as int, j as int).children.push(Entry::Real(l)),
        ),
        NodeRef::Platform(_, _, _) => t,
    }
}

/// The tree after the placeholder at child position 0 of `parent` gives way
/// to one real child per label, appended in order after the remaining
/// children. New versions carry a placeholder child when `lazy` holds.
pub open spec fn after_replace(
    t: Seq<PackageView>,
    parent: NodeRef,
    ls: Seq<Seq<char>>,
    lazy: bool,
) -> Seq<PackageView> {
    match parent {
        NodeRef::Package(i) => with_package_children(
            t,
            i as int,
            t[i as int].children.drop_first() + version_rows(ls, lazy),
        ),
        NodeRef::Version(i, j) => with_version_children(
            t,
            i as int,
            j as int,
            version_at(t, i as int, j as int).children.drop_first() + platform_rows(ls),
        ),
        NodeRef::Platform(_, _, _) => t,
    }
}

/// The whole tree under the invisible root.
pub struct TreeStore {
    packages: Vec<Package>,
}

impl View for TreeStore {
    type V = Seq<PackageView>;

    closed spec fn view(&self) -> Seq<PackageView> {
        self.packages@.map_values(|p: Package| p@)
    }
}

fn lazy_package(name: &String) -> (p: Package)
    ensures
        p@ == (PackageView { label: name@, children: unexpanded_children() }),
{
    let mut children: Vec<Entry<Version>> = Vec::new();
    children.push(Entry::Placeholder);
    let p = Package { label: name.clone(), children };
    assert(p@.children =~= unexpanded_children());
    p
}

impl TreeStore {
    /// An empty tree.
    pub fn new() -> (t: TreeStore)
        ensures
            t@ == Seq::<PackageView>::empty(),
    {
        let t = TreeStore { packages: Vec::new() };
        assert(t@ =~= Seq::<PackageView>::empty());
        t
    }

    /// Replaces every row with one package per name, in the given order, each
    /// carrying a single placeholder child.
    pub fn set_packages(&mut self, names: &Vec<String>)
        ensures
            final(self)@ == lazy_packages(label_seq(names@)),
    {
        let mut packages: Vec<Package> = Vec::new();
        let mut i: usize = 0;
        while i < names.len()
            invariant
                i <= names.len(),
                packages.len() == i,
                forall|k: int|
                    0 <= k < i ==> #[trigger] packages@[k]@ == (PackageView {
                        label: names@[k]@,
                        children: unexpanded_children(),
                    }),
            decreases names.len() - i,
        {
            let p = lazy_package(&names[i]);
            packages.push(p);
            i = i + 1;
        }
        assert(packages@.map_values(|p: Package| p@) =~= lazy_packages(label_seq(names@)));
        self.packages = packages;
    }

    /// Removes every row.
    pub fn clear_packages(&mut self)
        ensures
            final(self)@ == Seq::<PackageView>::empty(),
    {
        self.packages = Vec::new();
        assert(self@ =~= Seq::<PackageView>::empty());
    }

    /// Appends a top-level package row with no child, so it is not expandable.
    pub fn add_package(&mut self, name: &String)
        ensures
            final(self)@ == old(self)@.push(PackageView { label: name@, children: Seq::empty() }),
    {
        let p = Package { label: name.clone(), children: Vec::new() };
        assert(p@.children =~= Seq::<Entry<VersionView>>::empty());
        self.packages.push(p);
        assert(self@ =~= old(self)@.push(PackageView { label: name@, children: Seq::empty() }));
    }

    /// The number of top-level rows.
    pub fn len(&self) -> (n: usize)
        ensures
            n == self@.len(),
    {
        self.packages.len()
    }

    /// The label of top-level row `i`.
    pub fn package_label(&self, i: usize) -> (l: &String)
        requires
            i < self@.len(),
        ensures
            l@ == self@[i as int].label,
    {
        &self.packages[i].label
    }

    /// Whether the reference names a real row of this tree.
    pub fn is_valid(&self, r: NodeRef) -> (b: bool)
        ensures
            b == ref_valid(self@, r),
    {
        match r {
            NodeRef::Package(i) => i < self.packages.len(),
            NodeRef::Version(i, j) => {
                i < self.packages.len() && j < self.packages[i].children.len() && match &self.packages[i].children[j] {
                    Entry::Real(_) => true,
                    Entry::Placeholder => false,
                }
            },
            NodeRef::Platform(i, j, k) => {
                if i < self.packages.len() && j < self.packages[i].children.len() {
                    match &self.packages[i].children[j] {
                        Entry::Real(v) => k < v.children.len() && match &v.children[k] {
                            Entry::Real(_) => true,
                            Entry::Placeholder => false,
                        },
                        Entry::Placeholder => false,
                    }
                } else {
                    false
                }
            },
        }
    }

    /// The version row at child position `j` of package `i`.
    fn version(&self, i: usize, j: usize) -> (v: &Version)
        requires
            ref_valid(self@, NodeRef::Version(i, j)),
        ensures
            v@ == version_at(self@, i as int, j as int),
    {
        match &self.packages[i].children[j] {
            Entry::Real(v) => v,
            Entry::Placeholder => unreached(),
        }
    }

    /// How many child rows, placeholders included, the row has.
    pub fn child_count(&self, r: NodeRef) -> (n: usize)
        requires
            ref_valid(self@, r),
        ensures
            n == child_count(self@, r),
    {
        match r {
            NodeRef::Package(i) => self.packages[i].children.len(),
            NodeRef::Version(i, j) => self.version(i, j).children.len(),
            NodeRef::Platform(_, _, _) => 0,
        }
    }

    /// Whether child row `k` of the row is the placeholder.
    pub fn child_is_placeholder(&self, r: NodeRef, k: usize) -> (b: bool)
        requires
            ref_valid(self@, r),
            k < child_count(self@, r),
        ensures
            b == child_is_placeholder(self@, r, k as int),
    {
        match r {
            NodeRef::Package(i) => match &self.packages[i].children[k] {
                Entry::Placeholder => true,
                Entry::Real(_) => false,
            },
            NodeRef::Version(i, j) => match &self.version(i, j).children[k] {
                Entry::Placeholder => true,
                Entry::Real(_) => false,
            },
            NodeRef::Platform(_, _, _) => false,
        }
    }

    /// The label of the row.
    pub fn label(&self, r: NodeRef) -> (l: &String)
        requires
            ref_valid(self@, r),
        ensures
            l@ == label_of(self@, r),
    {
        match r {
            NodeRef::Package(i) => &self.packages[i].label,
            NodeRef::Version(i, j) => &self.version(i, j).label,
            NodeRef::Platform(i, j, k) => match &self.version(i, j).children[k] {
                Entry::Real(l) => l,
                Entry::Placeholder => unreached(),
            },
        }
    }

    /// The kind of the row, which its depth decides.
    pub fn kind(&self, r: NodeRef) -> (k: NodeKind)
        ensures
            k == kind_of(r),
    {
        match r {
            NodeRef::Package(_) => NodeKind::Package,
            NodeRef::Version(_, _) => NodeKind::Version,
            NodeRef::Platform(_, _, _) => NodeKind::Platform,
        }
    }

    /// Appends a plain child row, with no placeholder, to a package or a
    /// version. Platforms are leaves and take no child.
    pub fn add_child(&mut self, parent: NodeRef, label: &String)
        requires
            ref_valid(old(self)@, parent),
            !(parent is Platform),
        ensures
            final(self)@ == after_add_child(old(self)@, parent, label@),
    {
        let ghost t = self@;
        match parent {
            NodeRef::Package(i) => {
                let v = Version { label: label.clone(), children: Vec::new() };
                assert(v@.children =~= Seq::<Entry<Seq<char>>>::empty());
                let p = &mut self.packages[i];
                p.children.push(Entry::Real(v));
                assert(p@.children =~= t[i as int].children.push(
                    Entry::Real(VersionView { label: label@, children: Seq::empty() }),
                ));
            },
            NodeRef::Version(i, j) => {
                let p = &mut self.packages[i];
                match &mut p.children[j] {
                    Entry::Real(v) => {
                        v.children.push(Entry::Real(label.clone()));
                        assert(v@.children =~= version_at(t, i as int, j as int).children.push(
                            Entry::Real(label@),
                        ));
                    },
                    Entry::Placeholder => {},
                }
                assert(p@.children =~= t[i as int].children.update(
                    j as int,
                    Entry::Real(VersionView {
                        label: version_at(t, i as int, j as int).label,
                        children: version_at(t, i as int, j as int).children.push(Entry::Real(label@)),
                    }),
                ));
            },
            NodeRef::Platform(_, _, _) => {},
        }
        assert(self@ =~= after_add_child(t, parent, label@));
    }

    /// Removes the placeholder at child position 0 of `parent` and appends one
    /// real child per label, in the order given. New versions under a package
    /// each get a placeholder child of their own when `attach_placeholder`
    /// holds; platforms under a version are leaves and never do.
    pub fn replace_children(&mut self, parent: NodeRef, labels: &Vec<String>, attach_placeholder: bool)
        requires
            ref_valid(old(self)@, parent),
            !(parent is Platform),
            child_count(old(self)@, parent) >= 1,
            child_is_placeholder(old(self)@, parent, 0),
            parent is Version ==> !attach_placeholder,
        ensures
            final(self)@ == after_replace(old(self)@, parent, label_seq(labels@), attach_placeholder),
    {
        let ghost t = self@;
        match parent {
            NodeRef::Package(i) => {
                let mut rows = version_rows_of(labels, attach_placeholder);
                let p = &mut self.packages[i];
                p.children.remove(0);
                p.children.append(&mut rows);
                assert(p@.children =~= t[i as int].children.drop_first() + version_rows(
                    label_seq(labels@),
                    attach_placeholder,
                ));
            },
            NodeRef::Version(i, j) => {
                let mut rows = platform_rows_of(labels);
                let p = &mut self.packages[i];
                match &mut p.children[j] {
                    Entry::Real(v) => {
                        v.children.remove(0);
                        v.children.append(&mut rows);
                        assert(v@.children =~= version_at(t, i as int, j as int).children.drop_first()
                            + platform_rows(label_seq(labels@)));
                    },
                    Entry::Placeholder => {},
                }
                assert(p@.children =~= t[i as int].children.update(
                    j as int,
                    Entry::Real(VersionView {
                        label: version_at(t, i as int, j as int).label,
                        children: version_at(t, i as int, j as int).children.drop_first()
                            + platform_rows(label_seq(labels@)),
                    }),
                ));
            },
            NodeRef::Platform(_, _, _) => {},
        }
        assert(self@ =~= after_replace(t, parent, label_seq(labels@), attach_placeholder));
    }
}

/// One real version row per label, each with a placeholder child when `lazy`
/// holds.
fn version_rows_of(ls: &Vec<String>, lazy: bool) -> (r: Vec<Entry<Version>>)
    ensures
        r@.map_values(|e: Entry<Version>| e@) == version_rows(label_seq(ls@), lazy),
{
    let mut r: Vec<Entry<Version>> = Vec::new();
    let mut i: usize = 0;
    while i < ls.len()
        invariant
            i <= ls.len(),
            r.len() == i,
            forall|k: int|
                0 <= k < i ==> #[trigger] r@[k]@ == version_rows(label_seq(ls@), lazy)[k],
        decreases ls.len() - i,
    {
        let mut children: Vec<Entry<String>> = Vec::new();
        if lazy {
            children.push(Entry::Placeholder);
        }
        let v = Version { label: ls[i].clone(), children };
        assert(v@.children =~= (if lazy {
            unexpanded_children()
        } else {
            Seq::<Entry<Seq<char>>>::empty()
        }));
        r.push(Entry::Real(v));
        i = i + 1;
    }
    assert(r@.map_values(|e: Entry<Version>| e@) =~= version_rows(label_seq(ls@), lazy));
    r
}

/// One real platform row per label.
fn platform_rows_of(ls: &Vec<String>) -> (r: Vec<Entry<String>>)
    ensures
        r@.map_values(|e: Entry<String>| e@) == platform_rows(label_seq(ls@)),
{
    let mut r: Vec<Entry<String>> = Vec::new();
    let mut i: usize = 0;
    while i < ls.len()
        invariant
            i <= ls.len(),
            r.len() == i,
            forall|k: int|
                0 <= k < i ==> #[trigger] r@[k]@ == platform_rows(label_seq(ls@))[k],
        decreases ls.len() - i,
    {
        r.push(Entry::Real(ls[i].clone()));
        i = i + 1;
    }
    assert(r@.map_values(|e: Entry<String>| e@) =~= platform_rows(label_seq(ls@)));
    r
}

} // verus!
