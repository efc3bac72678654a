use vstd::prelude::*;
use super::filter::{flags_match, flags_match_spec, kind_matches_spec, ContentKind, SceneComparer, ValueTypeBool};
use super::sorting::NodeFlags;
use vstd::string::StringExecFns;
use crate::resources::name_order::{lemma_name_irreflexive, lemma_name_total, lemma_name_transitive, name_less, sorted_names, str_less};

verus! {

/// A node of the scene tree: its name, the kind of its content, its flags and its
/// children. In a well-formed tree (`tree_wf`) the children of every node are kept
/// in the order of their names, as `String` compares them, and no two share a name.
pub struct SceneNode {
    pub name: String,
    pub kind: ContentKind,
    pub flags: NodeFlags,
    pub children: Vec<SceneNode>,
}

/// A node is selected by an optional comparer: without one every node is; with one
/// its flags have to match and its kind has to be one of the requested kinds.
pub open spec fn selected(node: SceneNode, sorting: Option<SceneComparer>) -> bool {
    match sorting {
        Some(comp) => flags_match_spec(node.flags, comp) && kind_matches_spec(node.kind, comp),
        None => true,
    }
}

/// The names of the selected nodes of the tree under `node`, in post order: first
/// those under each child, child after child, then the node's own name.
pub open spec fn names_post_order(node: SceneNode, sorting: Option<SceneComparer>) -> Seq<Seq<char>>
    decreases node, 1int,
{
    children_names(node.children@, sorting) + if selected(node, sorting) {
        seq![node.name@]
    } else {
        Seq::empty()
    }
}

/// The names of the selected nodes under `children`, child after child.
pub open spec fn children_names(children: Seq<SceneNode>, sorting: Option<SceneComparer>) -> Seq<Seq<char>>
    decreases children, 0int,
{
    if children.len() == 0 {
        Seq::empty()
    } else {
        children_names(children.drop_last(), sorting) + names_post_order(children.last(), sorting)
    }
}

/// The number of nodes in the tree under `node`, the node included.
pub open spec fn node_count(node: SceneNode) -> nat
    decreases node, 1int,
{
    children_count(node.children@) + 1
}

/// The number of nodes under `children`.
pub open spec fn children_count(children: Seq<SceneNode>) -> nat
    decreases children, 0int,
{
    if children.len() == 0 {
        0
    } else {
        children_count(children.drop_last()) + node_count(children.last())
    }
}

/// The names of `children`, in their order.
pub open spec fn child_names(children: Seq<SceneNode>) -> Seq<Seq<char>> {
    children.map_values(|c: SceneNode| c.name@)
}

/// The children of every node of the tree under `node` are in the order of their
/// names, none twice.
pub open spec fn tree_wf(node: SceneNode) -> bool
    decreases node, 1int,
{
    sorted_names(child_names(node.children@)) && children_wf(node.children@)
}

/// Every tree under `children` is well-formed.
pub open spec fn children_wf(children: Seq<SceneNode>) -> bool
    decreases children, 0int,
{
    if children.len() == 0 {
        true
    } else {
        children_wf(children.drop_last()) && tree_wf(children.last())
    }
}

/// `children_wf` holds exactly when every child is a well-formed tree.
pub proof fn lemma_children_wf(children: Seq<SceneNode>)
    ensures
        children_wf(children) <==> forall|i: int| 0 <= i < children.len() ==> tree_wf(#[trigger] children[i]),
    decreases children.len(),
{
    if children.len() > 0 {
        let rest = children.drop_last();
        lemma_children_wf(rest);
        assert forall|i: int| 0 <= i < rest.len() implies rest[i] == children[i] by {}
        if forall|i: int| 0 <= i < children.len() ==> tree_wf(#[trigger] children[i]) {
            assert(tree_wf(children[children.len() - 1]));
            assert forall|i: int| 0 <= i < rest.len() implies tree_wf(#[trigger] rest[i]) by {
                assert(tree_wf(children[i]));
            }
        }
        if children_wf(children) {
            assert forall|i: int| 0 <= i < children.len() implies tree_wf(#[trigger] children[i]) by {
                if i < rest.len() {
                    assert(tree_wf(rest[i]));
                }
            }
        }
    }
}

impl SceneNode {
    /// A node without children.
    pub fn new(name: &str, kind: ContentKind, flags: NodeFlags) -> (n: Self)
        ensures
            n.name@ == name@,
            n.kind == kind,
            n.flags == flags,
            n.children@ == Seq::<SceneNode>::empty(),
            tree_wf(n),
    {
        let n = SceneNode { name: String::from_str(name), kind, flags, children: Vec::new() };
        assert(child_names(n.children@) =~= Seq::<Seq<char>>::empty());
        n
    }

    /// Adds `child` under this node at the place its name takes among the children;
    /// a child with the same name is replaced.
    pub fn add_child(&mut self, child: SceneNode)
        requires
            tree_wf(*old(self)),
            tree_wf(child),
        ensures
            tree_wf(*final(self)),
            final(self).name == old(self).name,
            final(self).kind == old(self).kind,
            final(self).flags == old(self).flags,
            (exists|i: int|
                0 <= i < old(self).children@.len() && old(self).children@[i].name@ == child.name@)
                ==> exists|i: int|
                0 <= i < old(self).children@.len() && old(self).children@[i].name@ == child.name@
                    && final(self).children@ == old(self).children@.update(i, child),
            (forall|i: int|
                0 <= i < old(self).children@.len() ==> old(self).children@[i].name@ != child.name@)
                ==> exists|p: int|
                0 <= p <= old(self).children@.len() && final(self).children@ == old(
                    self,
                ).children@.insert(p, child),
    {
        let ghost old_children = self.children@;
        let ghost names = child_names(old_children);
        let ghost k = child.name@;
        proof {
            lemma_children_wf(old_children);
        }
        let n = self.children.len();
        let mut p: usize = 0;
        while p < n && !str_less(child.name.as_str(), self.children[p].name.as_str())
            invariant
                n == self.children@.len(),
                p <= n,
                self.children@ == old_children,
                names == child_names(old_children),
                k == child.name@,
                forall|i: int| 0 <= i < p ==> !name_less(k, #[trigger] names[i]),
            decreases n - p,
        {
            p = p + 1;
        }
        proof {
            assert(forall|i: int| 0 <= i < n ==> #[trigger] names[i] == old_children[i].name@);
        }
        if p > 0 && self.children[p - 1].name == child.name {
            let ghost at = (p - 1) as int;
            self.children.remove(p - 1);
            self.children.insert(p - 1, child);
            proof {
                assert(self.children@ =~= old_children.update(at, child));
                let new_names = child_names(self.children@);
                assert(new_names =~= names.update(at, k));
                assert forall|i: int, j: int| 0 <= i < j < new_names.len() implies name_less(
                    #[trigger] new_names[i],
                    #[trigger] new_names[j],
                ) by {
                    assert(name_less(names[i], names[j]));
                }
                assert forall|i: int| 0 <= i < self.children@.len() implies tree_wf(
                    #[trigger] self.children@[i],
                ) by {
                    if i != at {
                        assert(tree_wf(old_children[i]));
                    }
                }
                lemma_children_wf(self.children@);
                assert forall|i: int|
                    0 <= i < old_children.len() && old_children[i].name@ == k implies i == at by {
                    if i < at {
                        assert(name_less(names[i], names[at]));
                        lemma_name_irreflexive(k);
                    } else if i > at {
                        assert(name_less(names[at], names[i]));
                        lemma_name_irreflexive(k);
                    }
                }
            }
        } else {
            proof {
                assert forall|i: int| 0 <= i < p implies name_less(#[trigger] names[i], k) by {
                    if i == p - 1 {
                        lemma_name_total(names[i], k);
                    } else {
                        assert(name_less(names[i], names[p - 1]));
                        lemma_name_total(names[p - 1], k);
                        lemma_name_transitive(names[i], names[p - 1], k);
                    }
                }
                assert forall|j: int| p <= j < names.len() implies name_less(k, #[trigger] names[j]) by {
                    if j > p {
                        lemma_name_transitive(k, names[p as int], names[j]);
                    }
                }
            }
            self.children.insert(p, child);
            proof {
                let new_names = child_names(self.children@);
                assert(new_names =~= names.insert(p as int, k));
                assert forall|i: int, j: int| 0 <= i < j < new_names.len() implies name_less(
                    #[trigger] new_names[i],
                    #[trigger] new_names[j],
                ) by {
                    if i < p && j < p {
                    } else if i < p && j == p {
                    } else if i < p {
                        assert(new_names[j] == names[j - 1]);
                    } else if i == p {
                        assert(new_names[j] == names[j - 1]);
                    } else {
                        assert(new_names[i] == names[i - 1]);
                        assert(new_names[j] == names[j - 1]);
                    }
                }
                assert forall|i: int| 0 <= i < self.children@.len() implies tree_wf(
                    #[trigger] self.children@[i],
                ) by {
                    if i < p {
                        assert(self.children@[i] == old_children[i]);
                    } else if i > p {
                        assert(self.children@[i] == old_children[i - 1]);
                    }
                }
                lemma_children_wf(self.children@);
                assert forall|i: int| 0 <= i < old_children.len() implies old_children[i].name@
                    != k by {
                    if i < p {
                        assert(name_less(names[i], k));
                    } else {
                        assert(name_less(k, names[i]));
                    }
                    lemma_name_irreflexive(k);
                }
            }
        }
    }
    /// Whether this node is selected by `sorting`.
    pub fn is_selected(&self, sorting: &Option<SceneComparer>) -> (r: bool)
        ensures
            r == selected(*self, *sorting),
    {
        match sorting {
            Some(comp) => {
                if !flags_match(&self.flags, comp) {
                    return false;
                }
                match comp.value_type {
                    Some(vt) => ValueTypeBool::of_kind(self.kind).is_part_of(&vt),
                    None => true,
                }
            },
            None => true,
        }
    }

    /// The names of all nodes of the tree under this one that `sorting` selects,
    /// collected from the bottom: the names under each child, children taken in the
    /// order of their names, then this node's name.
    pub fn get_all_names(&self, sorting: &Option<SceneComparer>) -> (names: Vec<String>)
        requires
            tree_wf(*self),
        ensures
            names@.map_values(|s: String| s@) == names_post_order(*self, *sorting),
            sorted_names(child_names(self.children@)),
        decreases self,
    {
        proof {
            lemma_children_wf(self.children@);
        }
        let mut names: Vec<String> = Vec::new();
        let n = self.children.len();
        for i in 0..n
            invariant
                n == self.children@.len(),
                forall|j: int| 0 <= j < n ==> tree_wf(#[trigger] self.children@[j]),
                names@.map_values(|s: String| s@) == children_names(
                    self.children@.take(i as int),
                    *sorting,
                ),
        {
            proof {
                assert(decreases_to!(self => self.children));
                assert(decreases_to!(self.children => self.children@));
            }
            let child_names = self.children[i].get_all_names(sorting);
            let ghost before = names@;
            let m = child_names.len();
            for j in 0..m
                invariant
                    m == child_names@.len(),
                    names@ == before + child_names@.take(j as int),
            {
                names.push(child_names[j].clone());
                assert(child_names@.take(j + 1) =~= child_names@.take(j as int).push(child_names@[j as int]));
            }
            proof {
                let all = self.children@.take(i + 1);
                assert(all.drop_last() =~= self.children@.take(i as int));
                assert(all.last() == self.children@[i as int]);
                assert(child_names@.take(m as int) =~= child_names@);
                assert(names@.map_values(|s: String| s@) =~= before.map_values(|s: String| s@)
                    + child_names@.map_values(|s: String| s@));
            }
        }
        proof {
            assert(self.children@.take(n as int) =~= self.children@);
        }
        if self.is_selected(sorting) {
            let ghost before = names@;
            names.push(self.name.clone());
            assert(names@.map_values(|s: String| s@) =~= before.map_values(|s: String| s@).push(self.name@));
        } else {
            assert(names_post_order(*self, *sorting) =~= children_names(self.children@, *sorting));
        }
        names
    }
}

/// Without a comparer every node of the tree is listed, once: there are as many
/// names as nodes.
pub proof fn law_unfiltered_lists_every_node(node: SceneNode)
    ensures
        names_post_order(node, None).len() == node_count(node),
    decreases node, 1int,
{
    assert(decreases_to!(node => node.children));
    lemma_unfiltered_children(node.children@);
}

/// Without a comparer the children list as many names as they hold nodes.
proof fn lemma_unfiltered_children(children: Seq<SceneNode>)
    ensures
        children_names(children, None).len() == children_count(children),
    decreases children, 0int,
{
    if children.len() > 0 {
        lemma_unfiltered_children(children.drop_last());
        law_unfiltered_lists_every_node(children.last());
    }
}

/// A filtered list never holds more names than the tree has nodes.
pub proof fn law_filter_lists_at_most_every_node(node: SceneNode, sorting: Option<SceneComparer>)
    ensures
        names_post_order(node, sorting).len() <= node_count(node),
    decreases node, 1int,
{
    assert(decreases_to!(node => node.children));
    lemma_filtered_children(node.children@, sorting);
}

/// A filtered list of the children never holds more names than they hold nodes.
proof fn lemma_filtered_children(children: Seq<SceneNode>, sorting: Option<SceneComparer>)
    ensures
        children_names(children, sorting).len() <= children_count(children),
    decreases children, 0int,
{
    if children.len() > 0 {
        lemma_filtered_children(children.drop_last(), sorting);
        law_filter_lists_at_most_every_node(children.last(), sorting);
    }
}

} // verus!
