//! The music roots of the library: switching the shown root to the next one,
//! adding a root and removing one.
use vstd::prelude::*;
use vstd::string::StringExecFns;

use crate::config_data::{expand_tilde, expansion_of, expands_home};
use crate::library::{parent_of, path_parent};
use crate::library_tree::{path_starts_with, paths_equal, same_path, starts_with, views};
use crate::model::{Model, PlaylistCmd, TuiCmd};
use crate::search::{
    lowercase, make_search_pattern, search_pattern, to_lowercase, wild_matches, wildcard_matches,
};

verus! {

/// Why a music root cannot be added or removed.
#[derive(Debug, Clone, Copy, PartialEq, Eq, Structural)]
pub enum RootError {
    /// The root to add is there already.
    SameRootExists,
    /// Removing the root would leave none.
    LastRoot,
}

/// Whether a configured directory is written without a leading `~`, so that
/// expanding it leaves it as it is.
pub open spec fn no_tilde(d: Seq<char>) -> bool {
    d.len() == 0 || d[0] != '~'
}

/// Whether each expanded directory is a tilde expansion of its configured
/// one (see `expansion_of`): the configured one itself when it is written
/// without a leading `~`.
pub open spec fn expansions_of(dirs: Seq<Seq<char>>, expanded: Seq<Seq<char>>) -> bool {
    &&& expanded.len() == dirs.len()
    &&& forall|i: int| 0 <= i < dirs.len() ==> expansion_of(#[trigger] dirs[i], expanded[i])
}

/// A directory written without a leading `~` is its own only expansion.
pub proof fn lemma_no_tilde_expansion(d: Seq<char>, e: Seq<char>)
    requires
        no_tilde(d),
        expansion_of(d, e),
    ensures
        e == d,
{
}

/// The configured directories with `~` expanded to the home directory.
pub fn expand_dirs(dirs: &Vec<String>) -> (r: Vec<String>)
    ensures
        expansions_of(views(dirs@), views(r@)),
{
    let mut r: Vec<String> = Vec::new();
    let mut i: usize = 0;
    while i < dirs.len()
        invariant
            i <= dirs@.len(),
            r@.len() == i,
            forall|j: int| 0 <= j < i ==> expansion_of(#[trigger] dirs@[j]@, r@[j]@),
        decreases dirs@.len() - i,
    {
        r.push(expand_tilde(dirs[i].as_str()));
        i = i + 1;
    }
    proof {
        assert forall|j: int| 0 <= j < views(dirs@).len() implies expansion_of(
            #[trigger] views(dirs@)[j],
            views(r@)[j],
        ) by {
            assert(views(dirs@)[j] == dirs@[j]@);
            assert(views(r@)[j] == r@[j]@);
        }
    }
    r
}

/// Expanding directories written without a leading `~` leaves them as they are.
pub proof fn lemma_expansions_without_tilde(dirs: Seq<Seq<char>>, expanded: Seq<Seq<char>>)
    requires
        expansions_of(dirs, expanded),
        forall|i: int| 0 <= i < dirs.len() ==> no_tilde(#[trigger] dirs[i]),
    ensures
        expanded == dirs,
{
    assert forall|i: int| 0 <= i < dirs.len() implies expanded[i] == dirs[i] by {
        lemma_no_tilde_expansion(dirs[i], expanded[i]);
    }
    assert(expanded =~= dirs);
}

/// The root shown after switching from `old`, among the roots `roots`: the one
/// after `old`'s first place, wrapping to the first; the first if `old` is not
/// among them; none if there are no roots.
pub open spec fn next_root_of(roots: Seq<Seq<char>>, old: Seq<char>) -> Option<Seq<char>> {
    if roots.len() == 0 {
        None
    } else if exists|i: int| 0 <= i < roots.len() && same_path(old, #[trigger] roots[i]) {
        let i = choose|i: int|
            0 <= i < roots.len() && same_path(old, #[trigger] roots[i]) && forall|j: int|
                0 <= j < i ==> !same_path(old, #[trigger] roots[j]);
        Some(if i + 1 < roots.len() { roots[i + 1] } else { roots[0] })
    } else {
        Some(roots[0])
    }
}

/// The root to show after switching from `old`; see `next_root_of`. `roots`
/// are the music directories, expanded, then the directory given on the
/// command line, if any.
pub fn next_root(roots: &Vec<String>, old: &str) -> (r: Option<String>)
    ensures
        match next_root_of(views(roots@), old@) {
            Some(d) => r matches Some(s) && s@ == d,
            None => r is None,
        },
{
    if roots.len() == 0 {
        return None;
    }
    let mut k: usize = 0;
    while k < roots.len()
        invariant
            k <= roots@.len(),
            forall|j: int| 0 <= j < k ==> !same_path(old@, #[trigger] views(roots@)[j]),
        decreases roots@.len() - k,
    {
        if paths_equal(old, roots[k].as_str()) {
            proof {
                assert(same_path(old@, views(roots@)[k as int]));
                let i = choose|i: int|
                    0 <= i < views(roots@).len() && same_path(old@, #[trigger] views(roots@)[i]) && forall|j: int|
                        0 <= j < i ==> !same_path(old@, #[trigger] views(roots@)[j]);
                if i > k {
                    assert(!same_path(old@, views(roots@)[k as int]));
                }
                assert(i == k);
            }
            let next: usize = if k + 1 < roots.len() {
                k + 1
            } else {
                0
            };
            return Some(roots[next].clone());
        }
        k = k + 1;
    }
    proof {
        assert(!exists|i: int| 0 <= i < views(roots@).len() && same_path(old@, #[trigger] views(roots@)[i]));
    }
    Some(roots[0].clone())
}

/// The music directories after adding `path`, or why not: it must not be one
/// of the (expanded) directories already.
pub open spec fn add_root_of(path: Seq<char>, dirs: Seq<Seq<char>>, expanded: Seq<Seq<char>>) -> Result<
    Seq<Seq<char>>,
    RootError,
> {
    if exists|i: int| 0 <= i < expanded.len() && same_path(#[trigger] expanded[i], path) {
        Err(RootError::SameRootExists)
    } else {
        Ok(dirs.push(path))
    }
}

/// The music directories after adding `path`; `expanded` are the directories
/// `dirs` with `~` expanded. See `add_root_of`.
pub fn add_root_with(path: &str, dirs: &Vec<String>, expanded: &Vec<String>) -> (r: Result<Vec<String>, RootError>)
    requires
        expanded@.len() == dirs@.len(),
    ensures
        match add_root_of(path@, views(dirs@), views(expanded@)) {
            Ok(d) => r matches Ok(v) && views(v@) == d,
            Err(e) => r == Err::<Vec<String>, RootError>(e),
        },
        r matches Ok(v) ==> views(v@) == views(dirs@).push(path@),
        r is Err ==> r == Err::<Vec<String>, RootError>(RootError::SameRootExists),
{
    let mut i: usize = 0;
    while i < expanded.len()
        invariant
            i <= expanded@.len(),
            forall|j: int| 0 <= j < i ==> !same_path(#[trigger] views(expanded@)[j], path@),
        decreases expanded@.len() - i,
    {
        if paths_equal(expanded[i].as_str(), path) {
            proof {
                assert(same_path(views(expanded@)[i as int], path@));
            }
            return Err(RootError::SameRootExists);
        }
        i = i + 1;
    }
    let mut v: Vec<String> = Vec::new();
    let mut j: usize = 0;
    while j < dirs.len()
        invariant
            j <= dirs@.len(),
            v@.len() == j,
            forall|k: int| 0 <= k < j ==> (#[trigger] v@[k])@ == dirs@[k]@,
        decreases dirs@.len() - j,
    {
        v.push(dirs[j].clone());
        j = j + 1;
    }
    v.push(String::from_str(path));
    proof {
        assert(views(v@) =~= views(dirs@).push(path@));
    }
    Ok(v)
}

/// Add `path` to the music directories `dirs`, expanding `~` in them to
/// compare; see `add_root_of`. The home directory comes from the
/// environment: the result is that for some tilde expansion of the
/// directories, and exact for directories written without `~`. Whatever the
/// home directory, success appends `path`, and the only error is
/// `SameRootExists`.
pub fn library_add_root(path: &str, dirs: &Vec<String>) -> (r: Result<Vec<String>, RootError>)
    ensures
        exists|expanded: Seq<Seq<char>>|
            expansions_of(views(dirs@), expanded) && match add_root_of(path@, views(dirs@), expanded) {
                Ok(d) => r matches Ok(v) && views(v@) == d,
                Err(e) => r == Err::<Vec<String>, RootError>(e),
            },
        (forall|i: int| 0 <= i < dirs@.len() ==> no_tilde(#[trigger] dirs@[i]@)) ==> match add_root_of(
            path@,
            views(dirs@),
            views(dirs@),
        ) {
            Ok(d) => r matches Ok(v) && views(v@) == d,
            Err(e) => r == Err::<Vec<String>, RootError>(e),
        },
        r matches Ok(v) ==> views(v@) == views(dirs@).push(path@),
        r is Err ==> r == Err::<Vec<String>, RootError>(RootError::SameRootExists),
{
    let expanded = expand_dirs(dirs);
    proof {
        if forall|i: int| 0 <= i < dirs@.len() ==> no_tilde(#[trigger] dirs@[i]@) {
            assert forall|i: int| 0 <= i < views(dirs@).len() implies no_tilde(
                #[trigger] views(dirs@)[i],
            ) by {
                assert(views(dirs@)[i] == dirs@[i]@);
            }
            lemma_expansions_without_tilde(views(dirs@), views(expanded@));
        }
    }
    add_root_with(path, dirs, &expanded)
}

/// The directories of `dirs` kept when removing `path`: those whose expansion is another path.
pub open spec fn kept_roots(path: Seq<char>, dirs: Seq<Seq<char>>, expanded: Seq<Seq<char>>) -> Seq<Seq<char>>
    decreases dirs.len(),
{
    if dirs.len() == 0 {
        Seq::empty()
    } else {
        let rest = kept_roots(path, dirs.drop_last(), expanded.take(dirs.len() - 1));
        if same_path(expanded[dirs.len() - 1], path) {
            rest
        } else {
            rest.push(dirs.last())
        }
    }
}

/// The music directories after removing `path`, or why not: at least one must stay.
pub open spec fn remove_root_of(path: Seq<char>, dirs: Seq<Seq<char>>, expanded: Seq<Seq<char>>) -> Result<
    Seq<Seq<char>>,
    RootError,
> {
    let kept = kept_roots(path, dirs, expanded);
    if kept.len() == 0 {
        Err(RootError::LastRoot)
    } else {
        Ok(kept)
    }
}

/// The music directories after removing `path`; `expanded` are the
/// directories `dirs` with `~` expanded. See `remove_root_of`.
pub fn remove_root_with(path: &str, dirs: &Vec<String>, expanded: &Vec<String>) -> (r: Result<
    Vec<String>,
    RootError,
>)
    requires
        expanded@.len() == dirs@.len(),
    ensures
        match remove_root_of(path@, views(dirs@), views(expanded@)) {
            Ok(d) => r matches Ok(v) && views(v@) == d,
            Err(e) => r == Err::<Vec<String>, RootError>(e),
        },
{
    let mut v: Vec<String> = Vec::new();
    let mut i: usize = 0;
    while i < dirs.len()
        invariant
            i <= dirs@.len(),
            expanded@.len() == dirs@.len(),
            views(v@) == kept_roots(path@, views(dirs@).take(i as int), views(expanded@).take(i as int)),
        decreases dirs@.len() - i,
    {
        proof {
            assert(views(dirs@).take(i + 1).drop_last() =~= views(dirs@).take(i as int));
            assert(views(expanded@).take(i + 1).take(i as int) =~= views(expanded@).take(i as int));
            assert(views(expanded@).take(i + 1)[i as int] == expanded@[i as int]@);
            assert(views(dirs@).take(i + 1).last() == dirs@[i as int]@);
        }
        if !paths_equal(expanded[i].as_str(), path) {
            v.push(dirs[i].clone());
            proof {
                assert(views(v@) =~= kept_roots(
                    path@,
                    views(dirs@).take(i as int),
                    views(expanded@).take(i as int),
                ).push(dirs@[i as int]@));
            }
        }
        i = i + 1;
    }
    proof {
        assert(views(dirs@).take(i as int) =~= views(dirs@));
        assert(views(expanded@).take(i as int) =~= views(expanded@));
    }
    if v.len() == 0 {
        return Err(RootError::LastRoot);
    }
    Ok(v)
}

/// Remove `path` from the music directories `dirs`, expanding `~` in them to
/// compare; see `remove_root_of`. The home directory comes from the
/// environment: the result is that for some tilde expansion of the
/// directories, and exact for directories written without `~`. Whatever the
/// home directory, the only error is `LastRoot`.
pub fn library_remove_root(path: &str, dirs: &Vec<String>) -> (r: Result<Vec<String>, RootError>)
    ensures
        exists|expanded: Seq<Seq<char>>|
            expansions_of(views(dirs@), expanded) && match remove_root_of(path@, views(dirs@), expanded) {
                Ok(d) => r matches Ok(v) && views(v@) == d,
                Err(e) => r == Err::<Vec<String>, RootError>(e),
            },
        (forall|i: int| 0 <= i < dirs@.len() ==> no_tilde(#[trigger] dirs@[i]@)) ==> match remove_root_of(
            path@,
            views(dirs@),
            views(dirs@),
        ) {
            Ok(d) => r matches Ok(v) && views(v@) == d,
            Err(e) => r == Err::<Vec<String>, RootError>(e),
        },
        r is Err ==> r == Err::<Vec<String>, RootError>(RootError::LastRoot),
{
    let expanded = expand_dirs(dirs);
    proof {
        if forall|i: int| 0 <= i < dirs@.len() ==> no_tilde(#[trigger] dirs@[i]@) {
            assert forall|i: int| 0 <= i < views(dirs@).len() implies no_tilde(
                #[trigger] views(dirs@)[i],
            ) by {
                assert(views(dirs@)[i] == dirs@[i]@);
            }
            lemma_expansions_without_tilde(views(dirs@), views(expanded@));
        }
    }
    remove_root_with(path, dirs, &expanded)
}

/// The roots to switch between: the music directories, then the directory
/// given on the command line, if any.
pub open spec fn roots_of(dirs: Seq<Seq<char>>, overwrite: Option<&str>) -> Seq<Seq<char>> {
    dirs + match overwrite {
        Some(o) => seq![o@],
        None => Seq::empty(),
    }
}

/// The root to show after switching from `old`: the music directories and
/// then the directory given on the command line, each with `~` expanded; see
/// `next_root_of`. The home directory comes from the environment: the result
/// is that for some tilde expansion of the roots, and exact for roots written
/// without `~`. Whatever the home directory, there is none only when there
/// are no roots.
pub fn library_switch_root(old: &str, dirs: &Vec<String>, overwrite: Option<&str>) -> (r: Option<String>)
    ensures
        exists|expanded: Seq<Seq<char>>|
            expansions_of(roots_of(views(dirs@), overwrite), expanded) && match next_root_of(
                expanded,
                old@,
            ) {
                Some(d) => r matches Some(s) && s@ == d,
                None => r is None,
            },
        (forall|i: int| 0 <= i < dirs@.len() ==> no_tilde(#[trigger] dirs@[i]@)) && (match overwrite {
            Some(o) => no_tilde(o@),
            None => true,
        }) ==> match next_root_of(roots_of(views(dirs@), overwrite), old@) {
            Some(d) => r matches Some(s) && s@ == d,
            None => r is None,
        },
        r is None <==> dirs@.len() == 0 && overwrite is None,
{
    let mut roots = expand_dirs(dirs);
    let ghost expanded = views(roots@);
    if let Some(o) = overwrite {
        roots.push(expand_tilde(o));
    }
    let ghost all = roots_of(views(dirs@), overwrite);
    proof {
        assert forall|i: int| 0 <= i < all.len() implies expansion_of(#[trigger] all[i], views(roots@)[i]) by {
            if i < dirs@.len() {
                assert(all[i] == views(dirs@)[i]);
                assert(views(roots@)[i] == expanded[i]);
            }
        }
        if (forall|i: int| 0 <= i < dirs@.len() ==> no_tilde(#[trigger] dirs@[i]@)) && (match overwrite {
            Some(o) => no_tilde(o@),
            None => true,
        }) {
            assert forall|i: int| 0 <= i < all.len() implies no_tilde(#[trigger] all[i]) by {
                if i < dirs@.len() {
                    assert(all[i] == dirs@[i]@);
                }
            }
            lemma_expansions_without_tilde(all, views(roots@));
        }
    }
    next_root(&roots, old)
}

impl Model {
    /// The configuration with the new music roots was saved: the server
    /// reloads it.
    pub fn library_root_added(&mut self)
        ensures
            final(self).same_state(*old(self)),
            final(self).ui@ == old(self).ui@,
            final(self).cmds@ == old(self).cmds@.push(TuiCmd::ReloadConfig),
    {
        self.cmds.push(TuiCmd::ReloadConfig);
    }
}

} // verus!

verus! {

/// Removing a path that no directory is keeps every directory.
proof fn lemma_kept_all(path: Seq<char>, dirs: Seq<Seq<char>>)
    requires
        forall|i: int| 0 <= i < dirs.len() ==> !same_path(#[trigger] dirs[i], path),
    ensures
        kept_roots(path, dirs, dirs) == dirs,
    decreases dirs.len(),
{
    if dirs.len() > 0 {
        assert(dirs.take(dirs.len() - 1) =~= dirs.drop_last());
        assert(!same_path(dirs[dirs.len() - 1], path));
        lemma_kept_all(path, dirs.drop_last());
        assert(dirs.drop_last().push(dirs.last()) =~= dirs);
    }
}

/// Adding a new music root and then removing it gives back the roots as they
/// were (written without `~`, so that they are compared as written).
pub proof fn lemma_add_then_remove_root(path: Seq<char>, dirs: Seq<Seq<char>>)
    requires
        dirs.len() > 0,
        forall|i: int| 0 <= i < dirs.len() ==> !same_path(#[trigger] dirs[i], path),
    ensures
        add_root_of(path, dirs, dirs) == Ok::<Seq<Seq<char>>, RootError>(dirs.push(path)),
        remove_root_of(path, dirs.push(path), dirs.push(path)) == Ok::<Seq<Seq<char>>, RootError>(dirs),
{
    let d = dirs.push(path);
    assert(d.drop_last() =~= dirs);
    assert(d.take(d.len() - 1) =~= dirs);
    assert(same_path(d[d.len() - 1], path));
    lemma_kept_all(path, dirs);
}

} // verus!

verus! {

/// The paths among `paths` that a library search for `input` finds, in order:
/// those whose lowercase form matches the search pattern.
pub open spec fn library_search_hits(input: Seq<char>, paths: Seq<Seq<char>>) -> Seq<Seq<char>>
    decreases paths.len(),
{
    if paths.len() == 0 {
        Seq::empty()
    } else {
        let rest = library_search_hits(input, paths.drop_last());
        if wild_matches(search_pattern(input), lowercase(paths.last())) {
            rest.push(paths.last())
        } else {
            rest
        }
    }
}

/// The rows of a library search for `input` among the files under the tree's
/// root, `paths`, in the order walked; the table numbers them from 1.
pub fn library_update_search(input: &str, paths: &Vec<String>) -> (r: Vec<String>)
    ensures
        views(r@) == library_search_hits(input@, views(paths@)),
{
    let pattern = make_search_pattern(input);
    let mut r: Vec<String> = Vec::new();
    let mut i: usize = 0;
    while i < paths.len()
        invariant
            i <= paths@.len(),
            pattern@ == search_pattern(input@),
            views(r@) == library_search_hits(input@, views(paths@).take(i as int)),
        decreases paths@.len() - i,
    {
        proof {
            assert(views(paths@).take(i + 1).drop_last() =~= views(paths@).take(i as int));
            assert(views(paths@).take(i + 1).last() == paths@[i as int]@);
        }
        let lower = to_lowercase(paths[i].as_str());
        if wildcard_matches(pattern.as_str(), lower.as_str()) {
            let ghost before = r@;
            r.push(paths[i].clone());
            proof {
                assert(views(r@) =~= views(before).push(paths@[i as int]@));
            }
        }
        i = i + 1;
    }
    proof {
        assert(views(paths@).take(i as int) =~= views(paths@));
    }
    r
}

/// The directories among `expanded` that contain `path`.
pub open spec fn dirs_containing(path: Seq<char>, expanded: Seq<Seq<char>>) -> Seq<Seq<char>>
    decreases expanded.len(),
{
    if expanded.len() == 0 {
        Seq::empty()
    } else {
        let rest = dirs_containing(path, expanded.drop_last());
        if path_starts_with(path, expanded.last()) {
            rest.push(expanded.last())
        } else {
            rest
        }
    }
}

/// The music directories, with `~` expanded, that contain `path`: the
/// database scans `path` once for each before the tree reloads it. For
/// directories written without `~` the result is exact.
pub fn library_reload_scans(path: &str, dirs: &Vec<String>) -> (r: Vec<String>)
    ensures
        (forall|i: int| 0 <= i < dirs@.len() ==> no_tilde(#[trigger] dirs@[i]@)) ==> views(r@)
            == dirs_containing(path@, views(dirs@)),
{
    let expanded = expand_dirs(dirs);
    let mut r: Vec<String> = Vec::new();
    let mut i: usize = 0;
    while i < expanded.len()
        invariant
            i <= expanded@.len(),
            views(r@) == dirs_containing(path@, views(expanded@).take(i as int)),
        decreases expanded@.len() - i,
    {
        proof {
            assert(views(expanded@).take(i + 1).drop_last() =~= views(expanded@).take(i as int));
            assert(views(expanded@).take(i + 1).last() == expanded@[i as int]@);
        }
        if starts_with(path, expanded[i].as_str()) {
            let ghost before = r@;
            r.push(expanded[i].clone());
            proof {
                assert(views(r@) =~= views(before).push(expanded@[i as int]@));
            }
        }
        i = i + 1;
    }
    proof {
        assert(views(expanded@).take(i as int) =~= views(expanded@));
        if forall|i: int| 0 <= i < dirs@.len() ==> no_tilde(#[trigger] dirs@[i]@) {
            assert(views(expanded@) =~= views(dirs@));
        }
    }
    r
}

impl Model {
    /// The node at `path` was deleted from the disk: the playlist drops the
    /// deleted tracks, and the tree is to be scanned again from the parent
    /// this gives.
    pub fn library_node_deleted(&mut self, path: &str) -> (parent: String)
        requires
            path_parent(path@) is Some,
        ensures
            parent@ == path_parent(path@)->0,
            final(self).same_state(*old(self)),
            final(self).ui@ == old(self).ui@,
            final(self).cmds@ == old(self).cmds@.push(TuiCmd::Playlist(PlaylistCmd::RemoveDeletedItems)),
    {
        let parent = match parent_of(path) {
            Some(p) => p,
            None => String::new(),
        };
        self.playlist_update_library_delete();
        parent
    }

    /// The node at `path` was deleted from the disk; see `library_node_deleted`.
    /// A path without a parent changes nothing and gives no parent.
    pub fn library_node_deleted_checked(&mut self, path: &str) -> (r: Option<String>)
        ensures
            match path_parent(path@) {
                Some(q) => {
                    &&& r matches Some(p) && p@ == q
                    &&& final(self).same_state(*old(self))
                    &&& final(self).ui@ == old(self).ui@
                    &&& final(self).cmds@ == old(self).cmds@.push(
                        TuiCmd::Playlist(PlaylistCmd::RemoveDeletedItems),
                    )
                },
                None => r is None && final(self).cmds@ == old(self).cmds@ && final(self).ui@ == old(
                    self,
                ).ui@ && final(self).same_state(*old(self)),
            },
    {
        match parent_of(path) {
            Some(_) => Some(self.library_node_deleted(path)),
            None => None,
        }
    }
}

} // verus!
