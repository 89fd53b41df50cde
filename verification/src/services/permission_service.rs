//! Permissions: listing them, arranging them as a tree and deciding whether
//! a user holds one.
use vstd::prelude::*;
use crate::models::permission::{
    serialize_permission, serialize_permission_tree, shows_permission, Permission,
    PermissionNode, PermissionResource,
};
use crate::models::user::opt_view;

verus! {

/// Whether permission `p` sits directly below `parent` (`None`: at the top).
pub open spec fn has_parent(p: Permission, parent: Option<Seq<char>>) -> bool {
    opt_view(p.parent_id) == parent
}

/// The permissions of `all` directly below `parent`, in their order in `all`.
pub open spec fn children_of(all: Seq<Permission>, parent: Option<Seq<char>>) -> Seq<Permission>
    decreases all.len(),
{
    if all.len() == 0 {
        Seq::empty()
    } else if has_parent(all.last(), parent) {
        children_of(all.drop_last(), parent).push(all.last())
    } else {
        children_of(all.drop_last(), parent)
    }
}

/// No two permissions of `all` share an id.
pub open spec fn ids_unique(all: Seq<Permission>) -> bool {
    forall|i: int, j: int| 0 <= i < j < all.len() ==> all[i].id@ != all[j].id@
}

/// Whether `nodes` is the tree of `all` below `parent`, at most `depth`
/// levels deep: the nodes show, in order, the permissions directly below
/// `parent`, each above the tree of its own children.
pub open spec fn is_forest(
    nodes: Seq<PermissionNode>,
    all: Seq<Permission>,
    parent: Option<Seq<char>>,
    depth: nat,
) -> bool
    decreases depth,
{
    let kids = children_of(all, parent);
    if depth == 0 {
        nodes.len() == 0
    } else {
        &&& nodes.len() == kids.len()
        &&& forall|i: int|
            0 <= i < nodes.len() ==> {
                &&& shows_permission(#[trigger] nodes[i].permission, kids[i])
                &&& is_forest(nodes[i].children@, all, Some(kids[i].id@), (depth - 1) as nat)
            }
    }
}

/// `anc` lists indices into `all` that form a path down the tree from a
/// top-level permission, without repetition.
pub open spec fn is_path(all: Seq<Permission>, anc: Seq<int>) -> bool {
    &&& forall|k: int| 0 <= k < anc.len() ==> 0 <= #[trigger] anc[k] < all.len()
    &&& anc.no_duplicates()
    &&& anc.len() > 0 ==> has_parent(all[anc[0]], None)
    &&& forall|k: int|
        0 < k < anc.len() ==> has_parent(all[#[trigger] anc[k]], Some(all[anc[k - 1]].id@))
}

/// The id below which the next level of a path lies.
pub open spec fn path_parent(all: Seq<Permission>, anc: Seq<int>) -> Option<Seq<char>> {
    if anc.len() == 0 {
        None
    } else {
        Some(all[anc.last()].id@)
    }
}

proof fn lemma_path_len(all: Seq<Permission>, anc: Seq<int>)
    requires
        is_path(all, anc),
    ensures
        anc.len() <= all.len(),
{
    anc.unique_seq_to_set();
    vstd::set_lib::lemma_int_range(0, all.len() as int);
    assert(anc.to_set().subset_of(vstd::set_lib::set_int_range(0, all.len() as int)));
    vstd::set_lib::lemma_len_subset(anc.to_set(), vstd::set_lib::set_int_range(0, all.len() as int));
}

/// A permission directly below the end of a path is not on it, so the path
/// extends by it.
proof fn lemma_path_extends(all: Seq<Permission>, anc: Seq<int>, j: int)
    requires
        ids_unique(all),
        is_path(all, anc),
        0 <= j < all.len(),
        has_parent(all[j], path_parent(all, anc)),
    ensures
        !anc.contains(j),
        is_path(all, anc.push(j)),
        anc.push(j).len() <= all.len(),
{
    if anc.contains(j) {
        let m = choose|m: int| 0 <= m < anc.len() && anc[m] == j;
        if m == 0 {
            assert(has_parent(all[anc[0]], None));
        } else {
            let last = anc.len() - 1;
            assert(has_parent(all[anc[m]], Some(all[anc[m - 1]].id@)));
            assert(all[anc[m - 1]].id@ == all[anc[last]].id@);
            if anc[m - 1] != anc[last] {
                if anc[m - 1] < anc[last] {
                    assert(all[anc[m - 1]].id@ != all[anc[last]].id@);
                } else {
                    assert(all[anc[last]].id@ != all[anc[m - 1]].id@);
                }
            }
            assert(m - 1 != last ==> anc[m - 1] != anc[last]);
        }
    }
    let a2 = anc.push(j);
    assert forall|k: int| 0 < k < a2.len() implies has_parent(
        all[#[trigger] a2[k]],
        Some(all[a2[k - 1]].id@),
    ) by {
        if k < anc.len() {
            assert(a2[k] == anc[k] && a2[k - 1] == anc[k - 1]);
        }
    }
    assert forall|x: int, y: int| 0 <= x < a2.len() && 0 <= y < a2.len() && x != y implies a2[x]
        != a2[y] by {
        if x < anc.len() && y < anc.len() {
        } else if x == anc.len() {
            assert(anc[y] == a2[y]);
            assert(anc.contains(a2[y]));
        } else {
            assert(anc[x] == a2[x]);
            assert(anc.contains(a2[x]));
        }
    }
    lemma_path_len(all, a2);
}

/// Each permission directly below `parent` is one of `all` with that parent.
proof fn lemma_child_in_all(all: Seq<Permission>, parent: Option<Seq<char>>, i: int)
    requires
        0 <= i < children_of(all, parent).len(),
    ensures
        exists|j: int|
            0 <= j < all.len() && all[j] == children_of(all, parent)[i] && #[trigger] has_parent(
                all[j],
                parent,
            ),
    decreases all.len(),
{
    let kids = children_of(all, parent);
    let rest = all.drop_last();
    if i < children_of(rest, parent).len() {
        lemma_child_in_all(rest, parent, i);
        let j = choose|j: int|
            0 <= j < rest.len() && rest[j] == children_of(rest, parent)[i] && #[trigger] has_parent(
                rest[j],
                parent,
            );
        assert(all[j] == rest[j]);
        assert(has_parent(all[j], parent));
    } else {
        let j = all.len() - 1;
        assert(has_parent(all[j], parent));
    }
}

/// A tree of `all` below the end of a path, deep enough to reach every
/// permission below it, stays the same tree at any greater depth.
proof fn lemma_forest_deeper(
    nodes: Seq<PermissionNode>,
    all: Seq<Permission>,
    anc: Seq<int>,
    depth: nat,
    deeper: nat,
)
    requires
        ids_unique(all),
        is_path(all, anc),
        anc.len() + depth > all.len(),
        depth <= deeper,
        is_forest(nodes, all, path_parent(all, anc), depth),
    ensures
        is_forest(nodes, all, path_parent(all, anc), deeper),
    decreases depth,
{
    lemma_path_len(all, anc);
    let parent = path_parent(all, anc);
    let kids = children_of(all, parent);
    assert forall|i: int| 0 <= i < nodes.len() implies {
        &&& shows_permission(#[trigger] nodes[i].permission, kids[i])
        &&& is_forest(nodes[i].children@, all, Some(kids[i].id@), (deeper - 1) as nat)
    } by {
        lemma_child_in_all(all, parent, i);
        let j = choose|j: int| 0 <= j < all.len() && all[j] == kids[i] && #[trigger] has_parent(all[j], parent);
        lemma_path_extends(all, anc, j);
        let longer = anc.push(j);
        assert(path_parent(all, longer) == Some(kids[i].id@));
        lemma_forest_deeper(nodes[i].children@, all, longer, (depth - 1) as nat, (deeper - 1) as nat);
    }
}

/// The tree of `all` from the top, built to the depth `build_tree` uses,
/// is the tree to every greater depth: that bound cuts nothing off.
pub proof fn lemma_tree_complete(nodes: Seq<PermissionNode>, all: Seq<Permission>, depth: nat)
    requires
        ids_unique(all),
        is_forest(nodes, all, None, (all.len() + 1) as nat),
        depth > all.len(),
    ensures
        is_forest(nodes, all, None, depth),
{
    assert(is_path(all, Seq::<int>::empty())) by {
        assert(Seq::<int>::empty().no_duplicates());
    }
    lemma_forest_deeper(nodes, all, Seq::empty(), (all.len() + 1) as nat, depth);
}

/// Whether permission `p` has the parent `parent` (`None`: top level).
fn parent_matches(p: &Permission, parent: &Option<String>) -> (b: bool)
    ensures
        b == has_parent(*p, opt_view(*parent)),
{
    match (&p.parent_id, parent) {
        (None, None) => true,
        (Some(a), Some(b)) => crate::text::str_eq(a.as_str(), b.as_str()),
        _ => false,
    }
}

fn children_forest(
    all: &Vec<Permission>,
    parent: &Option<String>,
    depth: usize,
    Ghost(anc): Ghost<Seq<int>>,
) -> (nodes: Vec<PermissionNode>)
    requires
        ids_unique(all@),
        is_path(all@, anc),
        opt_view(*parent) == path_parent(all@, anc),
        depth == all@.len() - anc.len(),
    ensures
        is_forest(nodes@, all@, opt_view(*parent), (depth + 1) as nat),
    decreases depth,
{
    proof {
        lemma_path_len(all@, anc);
    }
    let mut nodes: Vec<PermissionNode> = Vec::new();
    let mut i: usize = 0;
    while i < all.len()
        invariant
            ids_unique(all@),
            is_path(all@, anc),
            opt_view(*parent) == path_parent(all@, anc),
            depth == all@.len() - anc.len(),
            i <= all@.len(),
            nodes@.len() == children_of(all@.take(i as int), opt_view(*parent)).len(),
            forall|k: int|
                0 <= k < nodes@.len() ==> {
                    &&& shows_permission(
                        #[trigger] nodes@[k].permission,
                        children_of(all@.take(i as int), opt_view(*parent))[k],
                    )
                    &&& is_forest(
                        nodes@[k].children@,
                        all@,
                        Some(children_of(all@.take(i as int), opt_view(*parent))[k].id@),
                        depth as nat,
                    )
                },
        decreases all@.len() - i,
    {
        let ghost before = children_of(all@.take(i as int), opt_view(*parent));
        assert(all@.take(i + 1).drop_last() =~= all@.take(i as int));
        assert(all@.take(i + 1).last() == all@[i as int]);
        let p = &all[i];
        if parent_matches(p, parent) {
            proof {
                lemma_path_extends(all@, anc, i as int);
            }
            let below = Some(p.id.clone());
            let sub = children_forest(all, &below, depth - 1, Ghost(anc.push(i as int)));
            let node = serialize_permission_tree(p, sub);
            assert(node.children@ == sub@);
            nodes.push(node);
            proof {
                let after = children_of(all@.take(i + 1), opt_view(*parent));
                assert(after == before.push(all@[i as int]));
                assert forall|k: int| 0 <= k < nodes@.len() implies {
                    &&& shows_permission(#[trigger] nodes@[k].permission, after[k])
                    &&& is_forest(nodes@[k].children@, all@, Some(after[k].id@), depth as nat)
                } by {
                    if k < nodes@.len() - 1 {
                        assert(after[k] == before[k]);
                    }
                }
            }
        } else {
            proof {
                let after = children_of(all@.take(i + 1), opt_view(*parent));
                assert(after == before);
            }
        }
        i = i + 1;
    }
    assert(all@.take(all@.len() as int) =~= all@);
    nodes
}

/// The permissions of `all` as a tree, starting from the top-level ones:
/// each node shows a permission above the tree of its children. Permission
/// ids are unique (they are primary keys); a chain of parents is never
/// longer than the list, so the depth bound cuts nothing off.
pub fn build_tree(all: &Vec<Permission>) -> (nodes: Vec<PermissionNode>)
    requires
        ids_unique(all@),
    ensures
        is_forest(nodes@, all@, None, (all@.len() + 1) as nat),
{
    proof {
        assert(Seq::<int>::empty().no_duplicates());
    }
    let top: Option<String> = None;
    children_forest(all, &top, all.len(), Ghost(Seq::empty()))
}

/// Whether no two permissions of `all` share an id.
pub fn ids_distinct(all: &Vec<Permission>) -> (b: bool)
    ensures
        b == ids_unique(all@),
{
    let mut j: usize = 0;
    while j < all.len()
        invariant
            j <= all@.len(),
            forall|a: int, c: int| 0 <= a < c < j ==> all@[a].id@ != all@[c].id@,
        decreases all@.len() - j,
    {
        let mut i: usize = 0;
        while i < j
            invariant
                i <= j < all@.len(),
                forall|a: int| 0 <= a < i ==> all@[a].id@ != all@[j as int].id@,
            decreases j - i,
        {
            if crate::text::str_eq(all[i].id.as_str(), all[j].id.as_str()) {
                return false;
            }
            i = i + 1;
        }
        j = j + 1;
    }
    true
}

/// The resources that show each permission of `perms`, in order.
pub fn serialize_all(perms: &Vec<Permission>) -> (out: Vec<PermissionResource>)
    ensures
        out@.len() == perms@.len(),
        forall|i: int| 0 <= i < perms@.len() ==> shows_permission(#[trigger] out@[i], perms@[i]),
{
    let mut out: Vec<PermissionResource> = Vec::new();
    let mut i: usize = 0;
    while i < perms.len()
        invariant
            i <= perms@.len(),
            out@.len() == i,
            forall|k: int| 0 <= k < i ==> shows_permission(#[trigger] out@[k], perms@[k]),
        decreases perms@.len() - i,
    {
        out.push(serialize_permission(&perms[i]));
        i = i + 1;
    }
    out
}


/// Whether the permission lookup found a grant: a count above zero.
pub fn permission_granted(count: Option<i64>) -> (b: bool)
    ensures
        b == (count matches Some(c) && c > 0),
{
    match count {
        Some(c) => c > 0,
        None => false,
    }
}

} // verus!
