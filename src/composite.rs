use vstd::prelude::*;

verus! {

/// A node of a file tree: it has a name and a recursively computed size.
pub trait FileSystemComponent {
    /// The name stored in the node.
    spec fn spec_name(&self) -> Seq<char>;

    /// The size of the node: its own size for a file, the sum over its
    /// children for a directory.
    spec fn total_size(&self) -> nat;

    fn name(&self) -> (r: &str)
        ensures
            r@ == self.spec_name(),
    ;

    fn calculate_size(&self) -> (r: usize)
        requires
            self.total_size() <= usize::MAX,
        ensures
            r == self.total_size(),
    ;
}

/// A leaf of the tree with a fixed size.
pub struct File {
    name: String,
    size: usize,
}

/// A directory owning an ordered list of children.
pub struct Directory {
    name: String,
    children: Vec<Component>,
}

/// Either kind of node, as held in a directory's child list.
pub enum Component {
    File(File),
    Directory(Directory),
}

/// Size of a node: files contribute their stored size, directories the
/// sum over their children.
pub closed spec fn node_size(c: Component) -> nat
    decreases c,
{
    match c {
        Component::File(f) => f.size as nat,
        Component::Directory(d) => nodes_size(d.children@),
    }
}

/// Sum of the sizes of a sequence of nodes.
pub closed spec fn nodes_size(s: Seq<Component>) -> nat
    decreases s,
{
    if s.len() == 0 {
        0
    } else {
        nodes_size(s.subrange(0, s.len() - 1)) + node_size(s[s.len() - 1])
    }
}


/// The sizes of all files reachable from a node, in depth-first insertion
/// order.
pub closed spec fn leaf_sizes(c: Component) -> Seq<nat>
    decreases c,
{
    match c {
        Component::File(f) => seq![f.size as nat],
        Component::Directory(d) => nodes_leaf_sizes(d.children@),
    }
}

/// The leaf sizes of a sequence of nodes, one node after the other.
pub closed spec fn nodes_leaf_sizes(s: Seq<Component>) -> Seq<nat>
    decreases s,
{
    if s.len() == 0 {
        Seq::empty()
    } else {
        nodes_leaf_sizes(s.subrange(0, s.len() - 1)) + leaf_sizes(s[s.len() - 1])
    }
}

/// Sum of a sequence of natural numbers.
pub open spec fn sum_of(s: Seq<nat>) -> nat
    decreases s.len(),
{
    if s.len() == 0 {
        0
    } else {
        sum_of(s.drop_last()) + s.last()
    }
}

proof fn lemma_sum_of_concat(a: Seq<nat>, b: Seq<nat>)
    ensures
        sum_of(a + b) == sum_of(a) + sum_of(b),
    decreases b.len(),
{
    if b.len() > 0 {
        assert((a + b).drop_last() =~= a + b.drop_last());
        lemma_sum_of_concat(a, b.drop_last());
    } else {
        assert(a + b =~= a);
    }
}

proof fn lemma_prefix_size(s: Seq<Component>, i: int)
    requires
        0 <= i <= s.len(),
    ensures
        nodes_size(s.subrange(0, i)) <= nodes_size(s),
    decreases s.len(),
{
    if i < s.len() {
        lemma_prefix_size(s.subrange(0, s.len() - 1), i);
        assert(s.subrange(0, s.len() - 1).subrange(0, i) =~= s.subrange(0, i));
    } else {
        assert(s.subrange(0, i) =~= s);
    }
}

proof fn lemma_nodes_size_is_leaf_sum(s: Seq<Component>)
    ensures
        nodes_size(s) == sum_of(nodes_leaf_sizes(s)),
    decreases s,
{
    if s.len() > 0 {
        lemma_nodes_size_is_leaf_sum(s.subrange(0, s.len() - 1));
        lemma_size_is_sum_of_leaves(s[s.len() - 1]);
        lemma_sum_of_concat(
            nodes_leaf_sizes(s.subrange(0, s.len() - 1)),
            leaf_sizes(s[s.len() - 1]),
        );
    }
}

/// The size of any tree is the sum of the sizes of the files reachable from
/// it, however deeply they are nested.
pub proof fn lemma_size_is_sum_of_leaves(c: Component)
    ensures
        node_size(c) == sum_of(leaf_sizes(c)),
    decreases c,
{
    match c {
        Component::File(f) => {
            let s = seq![f.size as nat];
            assert(s.drop_last() =~= Seq::<nat>::empty());
            assert(sum_of(s) == sum_of(s.drop_last()) + s.last());
            assert(leaf_sizes(c) == s);
        },
        Component::Directory(d) => {
            lemma_nodes_size_is_leaf_sum(d.children@);
        },
    }
}

proof fn lemma_size_without(t: Seq<Component>, j: int)
    requires
        0 <= j < t.len(),
    ensures
        nodes_size(t) == nodes_size(t.remove(j)) + node_size(t[j]),
    decreases t.len(),
{
    let n = t.len();
    if j == n - 1 {
        assert(t.remove(j) =~= t.subrange(0, n - 1));
    } else {
        let p = t.subrange(0, n - 1);
        lemma_size_without(p, j);
        let r = t.remove(j);
        assert(r.subrange(0, r.len() - 1) =~= p.remove(j));
        assert(r[r.len() - 1] == t[n - 1]);
    }
}

proof fn lemma_nodes_size_ignores_order(s: Seq<Component>, t: Seq<Component>)
    requires
        s.to_multiset() == t.to_multiset(),
    ensures
        nodes_size(s) == nodes_size(t),
    decreases s.len(),
{
    broadcast use vstd::seq_lib::group_to_multiset_ensures;

    if s.len() > 0 {
        let n = s.len();
        let x = s[n - 1];
        let p = s.subrange(0, n - 1);
        assert(s =~= p.push(x));
        assert(t.to_multiset().count(x) > 0);
        assert(t.contains(x));
        let j = choose|j: int| 0 <= j < t.len() && t[j] == x;
        lemma_size_without(t, j);
        assert(t.remove(j).to_multiset() =~= p.to_multiset());
        lemma_nodes_size_ignores_order(p, t.remove(j));
    } else {
        assert(s.to_multiset().len() == 0);
        assert(t.to_multiset().len() == 0);
        assert(t =~= s);
    }
}

/// The size of a directory does not depend on the order of its children:
/// two directories holding the same children in any order have the same
/// size.
pub proof fn lemma_size_ignores_order(a: Directory, b: Directory)
    requires
        a.children().to_multiset() == b.children().to_multiset(),
    ensures
        a.total_size() == b.total_size(),
{
    lemma_nodes_size_ignores_order(a.children@, b.children@);
}

impl File {
    pub fn new(name: String, size: usize) -> (r: File)
        ensures
            r.spec_name() == name@,
            r.total_size() == size,
    {
        File { name, size }
    }
}

impl FileSystemComponent for File {
    closed spec fn spec_name(&self) -> Seq<char> {
        self.name@
    }

    closed spec fn total_size(&self) -> nat {
        self.size as nat
    }

    fn name(&self) -> (r: &str) {
        self.name.as_str()
    }

    fn calculate_size(&self) -> (r: usize) {
        self.size
    }
}

impl Directory {
    /// The children of the directory, in insertion order.
    pub closed spec fn children(&self) -> Seq<Component> {
        self.children@
    }

    pub fn new(name: String) -> (r: Directory)
        ensures
            r.spec_name() == name@,
            r.children() == Seq::<Component>::empty(),
            r.total_size() == 0,
    {
        Directory { name, children: Vec::new() }
    }

    /// Appends a child at the end of the list.
    pub fn add_child(&mut self, child: Component)
        ensures
            final(self).spec_name() == old(self).spec_name(),
            final(self).children() == old(self).children().push(child),
            final(self).total_size() == old(self).total_size() + child.total_size(),
    {
        self.children.push(child);
        assert(self.children@.subrange(0, self.children@.len() - 1) =~= old(self).children@);
        assert(node_size(child) == child.total_size());
    }

    fn children_size(&self) -> (r: usize)
        requires
            nodes_size(self.children@) <= usize::MAX,
        ensures
            r == nodes_size(self.children@),
        decreases self,
    {
        let mut total: usize = 0;
        let mut i: usize = 0;
        while i < self.children.len()
            invariant
                i <= self.children@.len(),
                nodes_size(self.children@) <= usize::MAX,
                total == nodes_size(self.children@.subrange(0, i as int)),
            decreases self.children@.len() - i,
        {
            let ghost s = self.children@;
            proof {
                assert(s.subrange(0, i + 1).subrange(0, i as int) =~= s.subrange(0, i as int));
                lemma_prefix_size(s, i + 1);
            }
            let c = self.children[i].size();
            total = total + c;
            i = i + 1;
        }
        assert(self.children@.subrange(0, i as int) =~= self.children@);
        total
    }
}

impl FileSystemComponent for Directory {
    closed spec fn spec_name(&self) -> Seq<char> {
        self.name@
    }

    closed spec fn total_size(&self) -> nat {
        nodes_size(self.children@)
    }

    fn name(&self) -> (r: &str) {
        self.name.as_str()
    }

    fn calculate_size(&self) -> (r: usize) {
        self.children_size()
    }
}

impl Component {
    fn size(&self) -> (r: usize)
        requires
            node_size(*self) <= usize::MAX,
        ensures
            r == node_size(*self),
        decreases self,
    {
        match self {
            Component::File(f) => f.size,
            Component::Directory(d) => d.children_size(),
        }
    }
}

impl FileSystemComponent for Component {
    open spec fn spec_name(&self) -> Seq<char> {
        match self {
            Component::File(f) => f.spec_name(),
            Component::Directory(d) => d.spec_name(),
        }
    }

    open spec fn total_size(&self) -> nat {
        match self {
            Component::File(f) => f.total_size(),
            Component::Directory(d) => d.total_size(),
        }
    }

    fn name(&self) -> (r: &str) {
        match self {
            Component::File(f) => f.name.as_str(),
            Component::Directory(d) => d.name.as_str(),
        }
    }

    fn calculate_size(&self) -> (r: usize) {
        self.size()
    }
}

} // verus!
