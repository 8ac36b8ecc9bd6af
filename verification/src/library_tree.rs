//! The library tree's bookkeeping: which loaded node a reload of a path
//! starts from and how deep it scans, and where a yanked node is pasted.
use vstd::prelude::*;
use vstd::string::StringExecFns;

use crate::library::{parent_of, path_parent};

verus! {

/// The components `std::path::Path::components` splits a path into, as text.
pub uninterp spec fn path_components(p: Seq<char>) -> Seq<Seq<char>>;

/// The texts of some strings.
pub open spec fn views(v: Seq<String>) -> Seq<Seq<char>> {
    v.map_values(|s: String| s@)
}

/// `std::path::Path::components` of a path, each component as text. The
/// components are named by `path_components`, a function of the path alone.
#[verifier::external_body]
fn components_of(p: &str) -> (r: Vec<String>)
    ensures
        views(r@) == path_components(p@),
{
    std::path::Path::new(p).components().map(|c| c.as_os_str().to_string_lossy().into_owned()).collect()
}

/// Whether path `a` starts with path `b`: its components begin with all of
/// `b`'s, which is what `Path::starts_with` tests.
pub open spec fn path_starts_with(a: Seq<char>, b: Seq<char>) -> bool {
    path_components(b).len() <= path_components(a).len() && path_components(a).take(
        path_components(b).len() as int,
    ) == path_components(b)
}

/// Whether two paths are equal as `Path`s compare: component by component.
pub open spec fn same_path(a: Seq<char>, b: Seq<char>) -> bool {
    path_components(a) == path_components(b)
}

/// Whether the texts `a` begin with the texts `b`.
fn components_start_with(a: &Vec<String>, b: &Vec<String>) -> (r: bool)
    ensures
        r == (views(b@).len() <= views(a@).len() && views(a@).take(views(b@).len() as int) == views(b@)),
{
    if b.len() > a.len() {
        return false;
    }
    let mut i: usize = 0;
    while i < b.len()
        invariant
            b@.len() <= a@.len(),
            i <= b@.len(),
            forall|j: int| 0 <= j < i ==> a@[j]@ == b@[j]@,
        decreases b@.len() - i,
    {
        if !crate::field_keys::same_text(a[i].as_str(), b[i].as_str()) {
            proof {
                assert(views(a@).take(views(b@).len() as int)[i as int] != views(b@)[i as int]);
            }
            return false;
        }
        i = i + 1;
    }
    proof {
        assert(views(a@).take(views(b@).len() as int) =~= views(b@));
    }
    true
}

/// The state of the search for the node a reload starts from, after some
/// nodes: the index of the nearest node so far, the deepest component index
/// matched so far, and whether the path's own node was found.
pub struct ReloadScan {
    pub nearest: nat,
    pub matched: nat,
    pub found: bool,
}

/// The search after looking at the nodes `nodes` (their paths, in the order
/// the tree is walked depth first, the root first), for `path` under a root
/// with `root_len` components: the path's own node ends the search; a node
/// that the path starts with becomes the nearest when its last component lies
/// deeper below the root than the deepest matched so far.
pub open spec fn reload_scan(nodes: Seq<Seq<char>>, path: Seq<char>, root_len: nat) -> ReloadScan
    decreases nodes.len(),
{
    if nodes.len() == 0 {
        ReloadScan { nearest: 0, matched: 0, found: false }
    } else {
        let s = reload_scan(nodes.drop_last(), path, root_len);
        let k = (nodes.len() - 1) as nat;
        let node = nodes.last();
        if s.found {
            s
        } else if same_path(node, path) {
            ReloadScan { nearest: k, matched: s.matched, found: true }
        } else if !path_starts_with(path, node) {
            s
        } else {
            let rel = path_components(node).len() - root_len;
            if rel >= 1 && rel - 1 > s.matched {
                ReloadScan { nearest: k, matched: (rel - 1) as nat, found: false }
            } else {
                s
            }
        }
    }
}

/// Where a reload of `path` starts and how deep it scans, for a tree whose
/// nodes have the paths `nodes` (walked depth first, the root first): nothing
/// when the tree is empty or the path lies outside the root; otherwise the
/// index of the nearest loaded node (see `reload_scan`), and the number of
/// components between the root and the path less the deepest match, as a
/// `u32` (0 when it does not fit).
pub open spec fn reload_plan_of(nodes: Seq<Seq<char>>, path: Seq<char>) -> Option<(nat, u32)> {
    if nodes.len() == 0 || !path_starts_with(path, nodes[0]) {
        None
    } else {
        let root_len = path_components(nodes[0]).len();
        let s = reload_scan(nodes, path, root_len);
        let between = path_components(path).len() - root_len;
        let depth = if between >= s.matched {
            between - s.matched
        } else {
            0
        };
        Some((s.nearest, if depth <= u32::MAX { depth as u32 } else { 0u32 }))
    }
}

/// Where a reload of `path` starts and how deep it scans; see `reload_plan_of`.
pub fn reload_plan(nodes: &Vec<String>, path: &str) -> (r: Option<(usize, u32)>)
    ensures
        match reload_plan_of(views(nodes@), path@) {
            Some((k, d)) => r == Some((k as usize, d)),
            None => r is None,
        },
{
    if nodes.len() == 0 {
        return None;
    }
    let root = components_of(nodes[0].as_str());
    let target = components_of(path);
    if !components_start_with(&target, &root) {
        return None;
    }
    let root_len = root.len();
    let mut nearest: usize = 0;
    let mut matched: usize = 0;
    let mut found = false;
    let mut k: usize = 0;
    proof {
        assert(views(nodes@).take(0) =~= Seq::<Seq<char>>::empty());
    }
    while k < nodes.len() && !found
        invariant
            k <= nodes@.len(),
            views(root@) == path_components(nodes@[0]@),
            views(target@) == path_components(path@),
            root_len == root@.len(),
            root_len <= target@.len(),
            nearest < nodes@.len(),
            matched <= target@.len(),
            reload_scan(views(nodes@).take(k as int), path@, root_len as nat) == (ReloadScan {
                nearest: nearest as nat,
                matched: matched as nat,
                found,
            }),
            found ==> reload_scan(views(nodes@), path@, root_len as nat) == reload_scan(
                views(nodes@).take(k as int),
                path@,
                root_len as nat,
            ),
        decreases nodes@.len() - k,
    {
        let ghost before = views(nodes@).take(k as int);
        let comps = components_of(nodes[k].as_str());
        proof {
            assert(views(nodes@).take(k + 1).drop_last() =~= before);
            assert(views(nodes@).take(k + 1).last() == nodes@[k as int]@);
        }
        if components_start_with(&comps, &target) && comps.len() == target.len() {
            proof {
                assert(views(comps@) =~= views(target@));
                lemma_scan_stops_when_found(views(nodes@), path@, root_len as nat, (k + 1) as nat);
            }
            nearest = k;
            found = true;
        } else if components_start_with(&target, &comps) {
            proof {
                if views(comps@) == views(target@) {
                    assert(views(comps@).take(views(target@).len() as int) =~= views(target@));
                }
            }
            if comps.len() > root_len && comps.len() - root_len - 1 > matched {
                matched = comps.len() - root_len - 1;
                nearest = k;
            }
        } else {
            proof {
                if views(comps@) == views(target@) {
                    assert(views(target@).take(views(comps@).len() as int) =~= views(comps@));
                }
            }
        }
        k = k + 1;
    }
    proof {
        if !found {
            assert(views(nodes@).take(k as int) =~= views(nodes@));
        }
    }
    let between = target.len() - root_len;
    let depth: usize = if between >= matched {
        between - matched
    } else {
        0
    };
    let d: u32 = if depth <= 0xFFFF_FFFFusize {
        depth as u32
    } else {
        0
    };
    Some((nearest, d))
}

/// Once the path's own node is found among the first nodes, the search stays where it ended.
proof fn lemma_scan_stops_when_found(nodes: Seq<Seq<char>>, path: Seq<char>, root_len: nat, k: nat)
    requires
        k <= nodes.len(),
        reload_scan(nodes.take(k as int), path, root_len).found,
    ensures
        reload_scan(nodes, path, root_len) == reload_scan(nodes.take(k as int), path, root_len),
    decreases nodes.len() - k,
{
    if k < nodes.len() {
        assert(nodes.take((k + 1) as int).drop_last() =~= nodes.take(k as int));
        lemma_scan_stops_when_found(nodes, path, root_len, k + 1);
    } else {
        assert(nodes.take(k as int) =~= nodes);
    }
}

} // verus!

verus! {

/// What `std::path::Path::file_name` gives for a path, as text.
pub uninterp spec fn path_file_name(p: Seq<char>) -> Option<Seq<char>>;

/// `std::path::Path::file_name`, as text; named `path_file_name`.
#[verifier::external_body]
pub(crate) fn file_name_of(p: &str) -> (r: Option<String>)
    ensures
        match path_file_name(p@) {
            Some(q) => r matches Some(s) && s@ == q,
            None => r is None,
        },
{
    std::path::Path::new(p).file_name().map(|q| q.to_string_lossy().into_owned())
}

/// What `std::path::Path::join` gives for a path and a name, as text.
pub uninterp spec fn path_joined(base: Seq<char>, name: Seq<char>) -> Seq<char>;

/// `std::path::Path::join`, as text; named `path_joined`.
#[verifier::external_body]
fn join_path(base: &str, name: &str) -> (r: String)
    ensures
        r@ == path_joined(base@, name@),
{
    std::path::Path::new(base).join(name).to_string_lossy().into_owned()
}

/// Whether path `a` starts with path `b`; see `path_starts_with`.
pub(crate) fn starts_with(a: &str, b: &str) -> (r: bool)
    ensures
        r == path_starts_with(a@, b@),
{
    let ca = components_of(a);
    let cb = components_of(b);
    components_start_with(&ca, &cb)
}

/// Why a yanked node cannot be pasted.
#[derive(Debug, Clone, Copy, PartialEq, Eq, Structural)]
pub enum PasteError {
    /// The yanked path has no file name.
    NoFileName,
    /// The yanked path has no parent.
    NoParent,
    /// The selected path has no parent.
    SelectedWithoutParent,
}

/// Where a yanked node goes: the move to make, then the path to reload and
/// focus, and the other path to reload.
#[derive(Debug)]
pub struct PastePlan {
    pub from: String,
    pub to: String,
    pub reload_focus: String,
    pub reload_other: String,
}

/// A paste plan as values.
pub struct PastePlanView {
    pub from: Seq<char>,
    pub to: Seq<char>,
    pub reload_focus: Seq<char>,
    pub reload_other: Seq<char>,
}

/// A paste plan as values.
pub open spec fn plan_view(p: PastePlan) -> PastePlanView {
    PastePlanView { from: p.from@, to: p.to@, reload_focus: p.reload_focus@, reload_other: p.reload_other@ }
}

/// Pasting the node at `old` into the selected node `sel`: into it when it is a
/// directory, else beside it. The new path is reloaded with the focus; then the
/// old path when the new one lies within the old parent, or the old parent lies
/// within the selected node's parent, and else the old parent.
pub open spec fn paste_plan_of(old: Seq<char>, sel: Seq<char>, sel_is_dir: bool) -> Result<PastePlanView, PasteError> {
    match (path_file_name(old), path_parent(old), path_parent(sel)) {
        (None, _, _) => Err(PasteError::NoFileName),
        (Some(_), None, _) => Err(PasteError::NoParent),
        (Some(_), Some(_), None) => Err(PasteError::SelectedWithoutParent),
        (Some(name), Some(old_parent), Some(sel_parent)) => {
            let to = path_joined(if sel_is_dir { sel } else { sel_parent }, name);
            let other = if path_starts_with(to, old_parent) || path_starts_with(old_parent, sel_parent) {
                old
            } else {
                old_parent
            };
            Ok(PastePlanView { from: old, to, reload_focus: to, reload_other: other })
        },
    }
}

/// The node yanked in the library tree, waiting to be pasted.
#[derive(Debug)]
pub struct LibraryYank {
    pub yanked: Option<String>,
}

impl LibraryYank {
    /// Remember the selected node, if there is one.
    pub fn yank(&mut self, selected: Option<&str>)
        ensures
            match selected {
                Some(s) => final(self).yanked matches Some(y) && y@ == s@,
                None => final(self).yanked == old(self).yanked,
            },
    {
        if let Some(s) = selected {
            self.yanked = Some(String::from_str(s));
        }
    }

    /// Paste the yanked node into the selected one (`selected_is_dir` tells
    /// whether it is a directory): nothing without a selection or a yanked
    /// node; otherwise the yanked node is given up and the plan made, or the
    /// reason it cannot be.
    pub fn paste(&mut self, selected: Option<&str>, selected_is_dir: bool) -> (r: Result<Option<PastePlan>, PasteError>)
        ensures
            selected is None || old(self).yanked is None ==> r == Ok::<Option<PastePlan>, PasteError>(None)
                && final(self).yanked == old(self).yanked,
            selected is Some && old(self).yanked is Some ==> {
                &&& final(self).yanked is None
                &&& match paste_plan_of(old(self).yanked->0@, selected->0@, selected_is_dir) {
                    Ok(p) => r matches Ok(Some(q)) && plan_view(q) == p,
                    Err(e) => r == Err::<Option<PastePlan>, PasteError>(e),
                }
            },
    {
        let sel = match selected {
            Some(s) => s,
            None => {
                return Ok(None);
            },
        };
        let old = match self.yanked.take() {
            Some(o) => o,
            None => {
                return Ok(None);
            },
        };
        let name = match file_name_of(old.as_str()) {
            Some(n) => n,
            None => {
                return Err(PasteError::NoFileName);
            },
        };
        let old_parent = match parent_of(old.as_str()) {
            Some(p) => p,
            None => {
                return Err(PasteError::NoParent);
            },
        };
        let sel_parent = match parent_of(sel) {
            Some(p) => p,
            None => {
                return Err(PasteError::SelectedWithoutParent);
            },
        };
        let to = if selected_is_dir {
            join_path(sel, name.as_str())
        } else {
            join_path(sel_parent.as_str(), name.as_str())
        };
        let other = if starts_with(to.as_str(), old_parent.as_str()) || starts_with(
            old_parent.as_str(),
            sel_parent.as_str(),
        ) {
            old.clone()
        } else {
            old_parent
        };
        let focus = to.clone();
        Ok(Some(PastePlan { from: old, to, reload_focus: focus, reload_other: other }))
    }
}

} // verus!

verus! {

/// Whether two paths are equal as `Path`s compare; see `same_path`.
pub(crate) fn paths_equal(a: &str, b: &str) -> (r: bool)
    ensures
        r == same_path(a@, b@),
{
    let ca = components_of(a);
    let cb = components_of(b);
    let r = components_start_with(&ca, &cb) && ca.len() == cb.len();
    proof {
        if r {
            assert(views(ca@) =~= views(cb@));
        }
        if views(ca@) == views(cb@) {
            assert(views(ca@).take(views(cb@).len() as int) =~= views(cb@));
        }
    }
    r
}

/// The first node, in the order walked, whose path is `path`.
pub open spec fn is_first_node_at(nodes: Seq<Seq<char>>, path: Seq<char>, k: int) -> bool {
    &&& 0 <= k < nodes.len()
    &&& same_path(nodes[k], path)
    &&& forall|j: int| 0 <= j < k ==> !same_path(#[trigger] nodes[j], path)
}

/// The node of the tree at `path`: the first, in the order walked, with that path.
pub fn node_index_of(nodes: &Vec<String>, path: &str) -> (r: Option<usize>)
    ensures
        match r {
            Some(k) => is_first_node_at(views(nodes@), path@, k as int),
            None => forall|j: int| 0 <= j < nodes@.len() ==> !same_path(#[trigger] views(nodes@)[j], path@),
        },
{
    let mut k: usize = 0;
    while k < nodes.len()
        invariant
            k <= nodes@.len(),
            forall|j: int| 0 <= j < k ==> !same_path(#[trigger] views(nodes@)[j], path@),
        decreases nodes@.len() - k,
    {
        if paths_equal(nodes[k].as_str(), path) {
            return Some(k);
        }
        k = k + 1;
    }
    None
}

/// A full reload of the tree: the root to load (the one asked for, else the
/// current root) and the node to focus (the one asked for, else the selected
/// node); nothing without either root.
pub fn full_reload_plan(
    change_root: Option<String>,
    focus: Option<String>,
    root: Option<String>,
    selected: Option<String>,
) -> (r: Option<(String, Option<String>)>)
    ensures
        match (change_root, root) {
            (None, None) => r is None,
            _ => r matches Some((p, f)) && p == (match change_root {
                Some(c) => c,
                None => root->0,
            }) && f == (match focus {
                Some(x) => Some(x),
                None => selected,
            }),
        },
{
    let path = match change_root {
        Some(c) => c,
        None => match root {
            Some(p) => p,
            None => {
                return None;
            },
        },
    };
    let f = match focus {
        Some(x) => Some(x),
        None => selected,
    };
    Some((path, f))
}

/// How scanned data for a path goes into the tree.
#[derive(Debug, PartialEq, Eq)]
pub enum ReadySubPlan {
    /// The data is the root: replace the whole tree.
    ReplaceRoot,
    /// Replace the node at this index with the data; then select the first
    /// node if nothing is selected, and select and open the node at `focus`
    /// if it is in the new tree.
    ReplaceAt { node: usize, select_first: bool, focus: Option<String> },
}

/// How data scanned at `sub_path` goes into a tree whose nodes have the paths
/// `nodes` (walked depth first, the root first): nothing without a root or
/// when no node has that path.
pub fn ready_sub_plan(nodes: &Vec<String>, sub_path: &str, nothing_selected: bool, focus: Option<String>) -> (r:
    Option<ReadySubPlan>)
    ensures
        nodes@.len() == 0 ==> r is None,
        nodes@.len() > 0 && same_path(nodes@[0]@, sub_path@) ==> r == Some(ReadySubPlan::ReplaceRoot),
        nodes@.len() > 0 && !same_path(nodes@[0]@, sub_path@) ==> match r {
            Some(p) => p matches ReadySubPlan::ReplaceAt { node, select_first, focus: f } && is_first_node_at(
                views(nodes@),
                sub_path@,
                node as int,
            ) && select_first == nothing_selected && f == focus,
            None => forall|j: int| 0 <= j < nodes@.len() ==> !same_path(#[trigger] views(nodes@)[j], sub_path@),
        },
{
    if nodes.len() == 0 {
        return None;
    }
    if paths_equal(nodes[0].as_str(), sub_path) {
        return Some(ReadySubPlan::ReplaceRoot);
    }
    match node_index_of(nodes, sub_path) {
        Some(k) => Some(ReadySubPlan::ReplaceAt { node: k, select_first: nothing_selected, focus }),
        None => None,
    }
}

} // verus!

verus! {

/// One step of moving the tree's selection to a wanted node.
#[derive(Debug, Clone, Copy, PartialEq, Eq, Structural)]
pub enum FocusStep {
    /// Stop: the selection cannot be followed.
    Stop,
    /// The wanted node is selected: open it and stop.
    OpenAndStop,
    Up,
    /// Move up, and open the node reached.
    UpAndOpen,
    Down,
    /// Move down, and open the node reached.
    DownAndOpen,
    /// Nothing to do this step.
    Idle,
}

/// The routes left after walking the selected node's route against the wanted
/// one: each index of the selected route that equals the next wanted index
/// takes one index off both the wanted route and the selected route.
pub open spec fn strip_routes(sel: Seq<usize>, want: Seq<usize>, sel_rest: Seq<usize>) -> (Seq<usize>, Seq<usize>)
    decreases sel.len(),
{
    if sel.len() == 0 || want.len() == 0 {
        (want, sel_rest)
    } else if want[0] == sel[0] {
        strip_routes(sel.drop_first(), want.drop_first(), sel_rest.drop_first())
    } else {
        strip_routes(sel.drop_first(), want, sel_rest)
    }
}

/// The next step towards the wanted node, whose route (sibling indexes from
/// the root) is `want`: stop on it, opening it; stop when the selected node has
/// no route; move up while deeper than the wanted node; else compare the first
/// indexes where the routes part: move down towards a later sibling or up
/// towards an earlier one (opening the node reached when it is the wanted
/// sibling), or down when only the wanted route goes on.
pub open spec fn focus_step_of(selected_is_wanted: bool, sel: Option<Seq<usize>>, want: Seq<usize>) -> FocusStep {
    if selected_is_wanted {
        FocusStep::OpenAndStop
    } else {
        match sel {
            None => FocusStep::Stop,
            Some(s) => if s.len() > want.len() {
                FocusStep::Up
            } else {
                let (r, q) = strip_routes(s, want, s);
                if r.len() > 0 && q.len() > 0 {
                    if r[0] > q[0] {
                        if r[0] == q[0] + 1 {
                            FocusStep::DownAndOpen
                        } else {
                            FocusStep::Down
                        }
                    } else if r[0] == (if q[0] > 0 { q[0] - 1 } else { 0 }) {
                        FocusStep::UpAndOpen
                    } else {
                        FocusStep::Up
                    }
                } else if r.len() > 0 {
                    FocusStep::Down
                } else {
                    FocusStep::Idle
                }
            },
        }
    }
}

/// The next step towards the wanted node; see `focus_step_of`.
pub fn focus_step(selected_is_wanted: bool, sel: Option<&Vec<usize>>, want: &Vec<usize>) -> (r: FocusStep)
    ensures
        r == focus_step_of(
            selected_is_wanted,
            match sel {
                Some(s) => Some(s@),
                None => None,
            },
            want@,
        ),
{
    if selected_is_wanted {
        return FocusStep::OpenAndStop;
    }
    let s = match sel {
        Some(s) => s,
        None => {
            return FocusStep::Stop;
        },
    };
    if s.len() > want.len() {
        return FocusStep::Up;
    }
    // walk the selected route, keeping the starts of what is left of both routes
    let mut i: usize = 0;
    let mut r: usize = 0;
    let mut q: usize = 0;
    proof {
        assert(s@.skip(0) =~= s@);
        assert(want@.skip(0) =~= want@);
    }
    while i < s.len() && r < want.len()
        invariant
            i <= s@.len(),
            r <= want@.len(),
            q <= i,
            strip_routes(s@, want@, s@) == strip_routes(s@.skip(i as int), want@.skip(r as int), s@.skip(q as int)),
        decreases s@.len() - i,
    {
        proof {
            assert(s@.skip(i as int)[0] == s@[i as int]);
            assert(want@.skip(r as int)[0] == want@[r as int]);
            assert(s@.skip(i as int).drop_first() =~= s@.skip(i + 1));
            assert(want@.skip(r as int).drop_first() =~= want@.skip(r + 1));
            assert(s@.skip(q as int).drop_first() =~= s@.skip(q + 1));
        }
        if want[r] == s[i] {
            r = r + 1;
            q = q + 1;
        }
        i = i + 1;
    }
    proof {
        assert(s@.skip(i as int).len() == 0 || want@.skip(r as int).len() == 0);
    }
    if r < want.len() && q < s.len() {
        let w = want[r];
        let c = s[q];
        proof {
            assert(want@.skip(r as int)[0] == w);
            assert(s@.skip(q as int)[0] == c);
        }
        if w > c {
            if w == c + 1 {
                FocusStep::DownAndOpen
            } else {
                FocusStep::Down
            }
        } else {
            let below: usize = if c > 0 {
                c - 1
            } else {
                0
            };
            if w == below {
                FocusStep::UpAndOpen
            } else {
                FocusStep::Up
            }
        }
    } else if r < want.len() {
        FocusStep::Down
    } else {
        FocusStep::Idle
    }
}

} // verus!
