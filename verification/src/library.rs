//! The music library tree: its node data, which entries a directory shows and
//! in what order, what the keys do on a node, where the focus goes after a
//! delete, and the deletion prompts.
use vstd::prelude::*;
use vstd::string::{StrSliceExecFns, StringExecFns};

use crate::library_tree::{file_name_of, path_file_name};
use crate::database::{is_plain_key, path_order_positions, plain_key, sorted_positions_by_path, string_views};
use crate::field_keys::has_code;
use crate::ids::{Id, IdKey, IdKeyGlobal, IdKeyOther};
use crate::key_config::{bound_to, same_binding, KeyBinding, KeyBindingView, KeyConfig};
use crate::select_states::KeyModifierSet;
use crate::model::{LibraryEvent, Model, UiAction};
use crate::playlist_table::{Direction, Position, TableCmd};

verus! {

/// Data stored in a node of the library tree.
#[derive(Debug)]
pub struct MusicLibData {
    /// The absolute path of the node.
    pub path: String,
    /// Whether the path is a directory.
    pub is_dir: bool,
    /// Whether a request to load this directory is on its way.
    pub is_loading: bool,
    /// Whether loading this file or directory failed.
    pub is_error: bool,
    /// The file name as shown, once it was computed.
    pub as_str: Option<String>,
}

/// Whether `std::path::Path::is_absolute` holds of a path.
pub uninterp spec fn path_is_absolute(p: Seq<char>) -> bool;

/// `std::path::Path::is_absolute`; named `path_is_absolute`.
#[verifier::external_body]
fn is_absolute_path(p: &str) -> (r: bool)
    ensures
        r == path_is_absolute(p@),
{
    std::path::Path::new(p).is_absolute()
}

impl MusicLibData {
    /// Whether this is the data of a new node for `path`: neither loading nor
    /// failed, and a path without a file name (the root `/`) has its name,
    /// `/`, cached at once; any other's name is computed when it is first shown.
    pub open spec fn fresh_for(self, path: String, is_dir: bool) -> bool {
        &&& self.path == path
        &&& self.is_dir == is_dir
        &&& !self.is_loading
        &&& !self.is_error
        &&& path_file_name(path@) is None ==> (self.as_str matches Some(n) && n@ == "/"@)
        &&& path_file_name(path@) is Some ==> self.as_str is None
    }

    /// Data for the node of `path`, which must be absolute; see `fresh_for`.
    pub fn new(path: String, is_dir: bool) -> (r: Self)
        requires
            path_is_absolute(path@),
        ensures
            r.fresh_for(path, is_dir),
    {
        let as_str = match file_name_of(path.as_str()) {
            Some(_) => None,
            None => {
                let root = "/";
                proof {
                    reveal_strlit("/");
                }
                Some(String::from_str(root))
            },
        };
        MusicLibData { path, is_dir, is_loading: false, is_error: false, as_str }
    }

    /// Data for the node of `path` (see `new`), or nothing when the path is
    /// not absolute.
    pub fn try_new(path: String, is_dir: bool) -> (r: Option<Self>)
        ensures
            r is Some <==> path_is_absolute(path@),
            r matches Some(d) ==> d.fresh_for(path, is_dir),
    {
        if is_absolute_path(path.as_str()) {
            Some(Self::new(path, is_dir))
        } else {
            None
        }
    }
}

/// What the left key does on the selected node.
#[derive(Debug, Clone, Copy, PartialEq, Eq, Structural)]
pub enum LeftKeyAction {
    /// Nothing is selected: nothing happens.
    Nothing,
    /// Select the parent directory.
    SelectParent,
    /// Close the open directory.
    CloseNode,
}

/// What the right key does on the selected node.
#[derive(Debug, Clone, Copy, PartialEq, Eq, Structural)]
pub enum RightKeyAction {
    /// Nothing is selected, or the directory is loading: nothing happens.
    Nothing,
    /// Open the directory, whose children are loaded.
    OpenNode,
    /// Load the directory's children and focus it.
    LoadNode,
    /// Add the file to the playlist.
    AddToPlaylist,
}

/// What the library view knows of its selected node.
#[derive(Debug, Clone, Copy)]
pub struct SelectedNode {
    pub is_dir: bool,
    /// Whether the directory is open in the tree.
    pub is_open: bool,
    pub is_loading: bool,
    pub num_children: usize,
}

/// What the left key does: a file or a closed directory moves the selection
/// up to its parent, an open directory is closed.
pub open spec fn left_key_spec(node: Option<SelectedNode>) -> LeftKeyAction {
    match node {
        None => LeftKeyAction::Nothing,
        Some(n) => if !n.is_dir || !n.is_open {
            LeftKeyAction::SelectParent
        } else {
            LeftKeyAction::CloseNode
        },
    }
}

/// What the right key does: a directory with loaded children opens, one
/// without is loaded unless it is loading already, a file is added to the playlist.
pub open spec fn right_key_spec(node: Option<SelectedNode>) -> RightKeyAction {
    match node {
        None => RightKeyAction::Nothing,
        Some(n) => if n.is_dir {
            if n.num_children > 0 {
                RightKeyAction::OpenNode
            } else if !n.is_loading {
                RightKeyAction::LoadNode
            } else {
                RightKeyAction::Nothing
            }
        } else {
            RightKeyAction::AddToPlaylist
        },
    }
}

/// The left key closes only an open directory; on any other selected node (a
/// file, or a directory that is closed) it moves the selection up to the
/// parent. After the right key opens a directory with children, the left key
/// closes it again, and pressed once more moves up to the parent.
pub proof fn lemma_left_key_closes_only_open_dirs(n: SelectedNode)
    ensures
        left_key_spec(None) == LeftKeyAction::Nothing,
        left_key_spec(Some(n)) == LeftKeyAction::CloseNode <==> n.is_dir && n.is_open,
        left_key_spec(Some(n)) == LeftKeyAction::SelectParent <==> !(n.is_dir && n.is_open),
        n.is_dir && n.num_children > 0 ==> {
            &&& right_key_spec(Some(SelectedNode { is_open: false, ..n })) == RightKeyAction::OpenNode
            &&& left_key_spec(Some(SelectedNode { is_open: true, ..n })) == LeftKeyAction::CloseNode
            &&& left_key_spec(Some(SelectedNode { is_open: false, ..n })) == LeftKeyAction::SelectParent
        },
{
}

/// What the left key does on the selected node.
pub fn handle_left_key(node: Option<SelectedNode>) -> (r: LeftKeyAction)
    ensures
        r == left_key_spec(node),
{
    match node {
        None => LeftKeyAction::Nothing,
        Some(n) => if !n.is_dir || !n.is_open {
            LeftKeyAction::SelectParent
        } else {
            LeftKeyAction::CloseNode
        },
    }
}

/// What the right key does on the selected node.
pub fn handle_right_key(node: Option<SelectedNode>) -> (r: RightKeyAction)
    ensures
        r == right_key_spec(node),
{
    match node {
        None => RightKeyAction::Nothing,
        Some(n) => if n.is_dir {
            if n.num_children > 0 {
                RightKeyAction::OpenNode
            } else if !n.is_loading {
                RightKeyAction::LoadNode
            } else {
                RightKeyAction::Nothing
            }
        } else {
            RightKeyAction::AddToPlaylist
        },
    }
}

/// The node to focus once the node at `sibling_idx` among `siblings` (the
/// paths of its parent's children, itself included) is deleted: its parent's
/// path when it is an only child (none for the root), else the child of its
/// parent at `sibling_idx`, capped at the last child.
pub open spec fn focus_after_delete_spec(siblings: Seq<String>, sibling_idx: usize, parent: Option<String>) -> Option<String> {
    if siblings.len() == 1 {
        parent
    } else {
        let last = siblings.len() - 1;
        let i = if sibling_idx < last {
            sibling_idx as int
        } else {
            last
        };
        Some(siblings[i])
    }
}

/// The node to focus after deleting a node; see `focus_after_delete_spec`.
pub fn focus_after_delete(siblings: &Vec<String>, sibling_idx: usize, parent: Option<String>) -> (r: Option<String>)
    requires
        sibling_idx < siblings@.len(),
    ensures
        r == focus_after_delete_spec(siblings@, sibling_idx, parent),
{
    let n = siblings.len();
    if n == 1 {
        parent
    } else {
        let last = n - 1;
        let i = if sibling_idx < last {
            sibling_idx
        } else {
            last
        };
        Some(siblings[i].clone())
    }
}

/// The focus after a delete stays on the deleted node's own place: for a node
/// with siblings it is the path at the node's own index.
pub proof fn lemma_focus_after_delete_keeps_place(siblings: Seq<String>, sibling_idx: usize, parent: Option<String>)
    requires
        sibling_idx < siblings.len(),
        siblings.len() > 1,
    ensures
        focus_after_delete_spec(siblings, sibling_idx, parent) == Some(siblings[sibling_idx as int]),
{
}

/// The warning shown before deleting a whole directory.
pub open spec fn delete_dir_warning() -> Seq<char> {
    "You're about to delete the whole directory."@
}

/// The library's events the library view listens for, always.
pub open spec fn library_events() -> Seq<LibraryEvent> {
    seq![
        LibraryEvent::Reload,
        LibraryEvent::ReloadPath,
        LibraryEvent::TreeNodeReady,
        LibraryEvent::TreeNodeReadySub,
    ]
}

/// The library's events the library view listens for; see `library_events`.
pub fn library_subs() -> (r: Vec<LibraryEvent>)
    ensures
        r@ == library_events(),
{
    let r = vec![
        LibraryEvent::Reload,
        LibraryEvent::ReloadPath,
        LibraryEvent::TreeNodeReady,
        LibraryEvent::TreeNodeReadySub,
    ];
    proof {
        assert(r@ =~= library_events());
    }
    r
}

/// `action` mounts the library view on a tree of the single node `root` (its
/// id and text), or on no tree, listening for `library_events`.
pub open spec fn mounts_library(action: UiAction, root: Option<(Seq<char>, Seq<char>)>) -> bool {
    &&& action matches UiAction::MountLibrary { root: r, events }
    &&& events@ == library_events()
    &&& match (r, root) {
        (Some((i, t)), Some((vi, vt))) => i@ == vi && t@ == vt,
        (None, None) => true,
        _ => false,
    }
}

impl Model {
    /// Mount the library view on the loading tree: a single node `/dev/null`
    /// shown as `Loading...`, focused, listening for the library's events
    /// (see `library_events`).
    pub fn mount_library(&mut self)
        ensures
            final(self).same_state(*old(self)),
            final(self).cmds@ == old(self).cmds@,
            final(self).ui@.len() == old(self).ui@.len() + 1,
            final(self).ui@.drop_last() == old(self).ui@,
            mounts_library(final(self).ui@.last(), Some(("/dev/null"@, "Loading..."@))),
    {
        let ghost before = self.ui@;
        let root = (String::from_str("/dev/null"), String::from_str("Loading..."));
        self.ui.push(UiAction::MountLibrary { root: Some(root), events: library_subs() });
        proof {
            assert(self.ui@.drop_last() =~= before);
        }
    }

    /// Mount the tree-based library view with no tree yet, listening for the
    /// library's events (see `library_events`).
    pub fn mount_new_library(&mut self)
        ensures
            final(self).same_state(*old(self)),
            final(self).cmds@ == old(self).cmds@,
            final(self).ui@.len() == old(self).ui@.len() + 1,
            final(self).ui@.drop_last() == old(self).ui@,
            mounts_library(final(self).ui@.last(), None),
    {
        let ghost before = self.ui@;
        self.ui.push(UiAction::MountLibrary { root: None, events: library_subs() });
        proof {
            assert(self.ui@.drop_last() =~= before);
        }
    }

    /// Ask before deleting `path`: a yes/no question for a file, a typed
    /// confirmation with a warning for a directory.
    pub fn library_show_delete_confirm(&mut self, path: String, is_file: bool, focus_node: Option<String>)
        ensures
            final(self).same_state(*old(self)),
            final(self).cmds@ == old(self).cmds@,
            final(self).ui@.len() == old(self).ui@.len() + 1,
            final(self).ui@.drop_last() == old(self).ui@,
            is_file ==> final(self).ui@.last() == (UiAction::MountDeleteConfirmRadio { path, focus_node }),
            !is_file ==> (final(self).ui@.last() matches UiAction::MountDeleteConfirmInput {
                path: p,
                focus_node: f,
                warning,
            } && p == path && f == focus_node && warning@ == delete_dir_warning()),
    {
        let ghost before = self.ui@;
        if is_file {
            self.ui.push(UiAction::MountDeleteConfirmRadio { path, focus_node });
        } else {
            let warning = String::from_str("You're about to delete the whole directory.");
            proof {
                assert(warning@ == delete_dir_warning());
            }
            self.ui.push(UiAction::MountDeleteConfirmInput { path, focus_node, warning });
        }
        proof {
            assert(self.ui@.drop_last() =~= before);
        }
    }

    /// Ask before deleting `path` in the tree-based library view; as `library_show_delete_confirm`.
    pub fn new_library_show_delete_confirm(&mut self, path: String, is_file: bool, focus_node: Option<String>)
        ensures
            final(self).same_state(*old(self)),
            final(self).cmds@ == old(self).cmds@,
            final(self).ui@.len() == old(self).ui@.len() + 1,
            final(self).ui@.drop_last() == old(self).ui@,
            is_file ==> final(self).ui@.last() == (UiAction::MountDeleteConfirmRadio { path, focus_node }),
            !is_file ==> (final(self).ui@.last() matches UiAction::MountDeleteConfirmInput {
                path: p,
                focus_node: f,
                warning,
            } && p == path && f == focus_node && warning@ == delete_dir_warning()),
    {
        self.library_show_delete_confirm(path, is_file, focus_node);
    }
}

/// What `std::path::Path::parent` gives for a path.
pub uninterp spec fn path_parent(p: Seq<char>) -> Option<Seq<char>>;

/// `std::path::Path::parent`, as text; named `path_parent`.
#[verifier::external_body]
pub(crate) fn parent_of(p: &str) -> (r: Option<String>)
    ensures
        match path_parent(p@) {
            Some(q) => r matches Some(s) && s@ == q,
            None => r is None,
        },
{
    std::path::Path::new(p).parent().map(|q| q.to_string_lossy().into_owned())
}

/// The keys the library view reacts to, as the key configuration and the
/// fixed keys give them.
#[derive(Debug, Clone, Copy, PartialEq, Eq, Structural)]
pub enum LibraryKey {
    Left,
    Right,
    Down,
    Up,
    PageDown,
    PageUp,
    Top,
    Bottom,
    Delete,
    Yank,
    Paste,
    CycleRoot,
    AddRoot,
    RemoveRoot,
    Backspace,
    Enter,
    Search,
    YoutubeSearch,
    LoadDir,
    LoadTrack,
    Blur,
    TagEditor,
}

/// What the library view does with a key.
#[derive(Debug, PartialEq, Eq)]
pub enum LibraryReaction {
    /// What the left key does on the selected node.
    Left(LeftKeyAction),
    /// What the right key does on the selected node.
    Right(RightKeyAction),
    /// Run the command on the tree.
    Perform(TableCmd),
    /// Ask before deleting the selected node.
    Delete,
    /// Remember the selected node for pasting.
    Yank,
    /// Paste the remembered node into the selected directory.
    Paste,
    /// Show the next music root instead of the one at this path.
    SwitchRoot(String),
    /// Add this path as a music root.
    AddRoot(String),
    /// Remove this path from the music roots.
    RemoveRoot(String),
    /// Load the parent directory of the root and focus the old root.
    LoadParent { parent: String, focus: String },
    /// Search under this path.
    SearchLibrary(String),
    /// Open the online search.
    YoutubeSearch,
    /// Add this path to the playlist.
    AddToPlaylist(String),
    /// Hand the focus to the next view.
    Blur,
    /// Open the tag editor on this file.
    OpenTagEditor(String),
    /// Nothing happens.
    Nothing,
}

/// The selected node of the tree: its path and whether it is a directory.
#[derive(Debug)]
pub struct SelectedPath {
    pub path: String,
    pub is_dir: bool,
}

/// What the library view does with a key, on a tree whose root is `root`:
/// `node` is what it knows of its selected node and `selected` its path.
pub open spec fn library_reaction(key: LibraryKey, root: Seq<char>, node: Option<SelectedNode>, selected: Option<SelectedPath>) -> LibraryReaction {
    match key {
        LibraryKey::Left => LibraryReaction::Left(left_key_spec(node)),
        LibraryKey::Right => LibraryReaction::Right(right_key_spec(node)),
        LibraryKey::Down => LibraryReaction::Perform(TableCmd::Move(Direction::Down)),
        LibraryKey::Up => LibraryReaction::Perform(TableCmd::Move(Direction::Up)),
        LibraryKey::PageDown => LibraryReaction::Perform(TableCmd::Scroll(Direction::Down)),
        LibraryKey::PageUp => LibraryReaction::Perform(TableCmd::Scroll(Direction::Up)),
        LibraryKey::Top => LibraryReaction::Perform(TableCmd::GoTo(Position::Begin)),
        LibraryKey::Bottom => LibraryReaction::Perform(TableCmd::GoTo(Position::End)),
        LibraryKey::Delete => LibraryReaction::Delete,
        LibraryKey::Yank => LibraryReaction::Yank,
        LibraryKey::Paste => LibraryReaction::Paste,
        LibraryKey::Enter => LibraryReaction::Perform(TableCmd::Submit),
        LibraryKey::YoutubeSearch => LibraryReaction::YoutubeSearch,
        LibraryKey::Blur => LibraryReaction::Blur,
        _ => LibraryReaction::Nothing,
    }
}

/// Which library key a key press is, trying in order: the configured left,
/// right, down and up keys; the plain arrow and page keys; the configured top
/// and bottom keys, then plain home and end; the configured delete, yank,
/// paste and root keys; plain backspace and enter; the configured search,
/// online search and load-directory keys; `load_track`, the binding that loads
/// a track (the key editor does not edit it); plain tab or shift with
/// back-tab; and the configured tag editor key.
pub open spec fn library_key_of(p: KeyBindingView, keys: KeyConfig, load_track: KeyBindingView) -> Option<LibraryKey> {
    if bound_to(keys, IdKey::Global(IdKeyGlobal::Left), p) {
        Some(LibraryKey::Left)
    } else if bound_to(keys, IdKey::Global(IdKeyGlobal::Right), p) {
        Some(LibraryKey::Right)
    } else if bound_to(keys, IdKey::Global(IdKeyGlobal::Down), p) {
        Some(LibraryKey::Down)
    } else if bound_to(keys, IdKey::Global(IdKeyGlobal::Up), p) {
        Some(LibraryKey::Up)
    } else if plain_key(p, "Left"@) {
        Some(LibraryKey::Left)
    } else if plain_key(p, "Right"@) {
        Some(LibraryKey::Right)
    } else if plain_key(p, "Down"@) {
        Some(LibraryKey::Down)
    } else if plain_key(p, "Up"@) {
        Some(LibraryKey::Up)
    } else if plain_key(p, "PageDown"@) {
        Some(LibraryKey::PageDown)
    } else if plain_key(p, "PageUp"@) {
        Some(LibraryKey::PageUp)
    } else if bound_to(keys, IdKey::Global(IdKeyGlobal::GotoTop), p) {
        Some(LibraryKey::Top)
    } else if bound_to(keys, IdKey::Global(IdKeyGlobal::GotoBottom), p) {
        Some(LibraryKey::Bottom)
    } else if plain_key(p, "Home"@) {
        Some(LibraryKey::Top)
    } else if plain_key(p, "End"@) {
        Some(LibraryKey::Bottom)
    } else if bound_to(keys, IdKey::Other(IdKeyOther::LibraryDelete), p) {
        Some(LibraryKey::Delete)
    } else if bound_to(keys, IdKey::Other(IdKeyOther::LibraryYank), p) {
        Some(LibraryKey::Yank)
    } else if bound_to(keys, IdKey::Other(IdKeyOther::LibraryPaste), p) {
        Some(LibraryKey::Paste)
    } else if bound_to(keys, IdKey::Other(IdKeyOther::LibrarySwitchRoot), p) {
        Some(LibraryKey::CycleRoot)
    } else if bound_to(keys, IdKey::Other(IdKeyOther::LibraryAddRoot), p) {
        Some(LibraryKey::AddRoot)
    } else if bound_to(keys, IdKey::Other(IdKeyOther::LibraryRemoveRoot), p) {
        Some(LibraryKey::RemoveRoot)
    } else if plain_key(p, "Backspace"@) {
        Some(LibraryKey::Backspace)
    } else if plain_key(p, "Enter"@) {
        Some(LibraryKey::Enter)
    } else if bound_to(keys, IdKey::Other(IdKeyOther::LibrarySearch), p) {
        Some(LibraryKey::Search)
    } else if bound_to(keys, IdKey::Other(IdKeyOther::LibrarySearchYoutube), p) {
        Some(LibraryKey::YoutubeSearch)
    } else if bound_to(keys, IdKey::Other(IdKeyOther::LibraryLoadDir), p) {
        Some(LibraryKey::LoadDir)
    } else if p == load_track {
        Some(LibraryKey::LoadTrack)
    } else if plain_key(p, "Tab"@) || (p.code == "BackTab"@ && p.modifiers == (KeyModifierSet {
        shift: true,
        control: false,
        alt: false,
    })) {
        Some(LibraryKey::Blur)
    } else if bound_to(keys, IdKey::Other(IdKeyOther::LibraryTagEditor), p) {
        Some(LibraryKey::TagEditor)
    } else {
        None
    }
}

/// Which library key a key press is; see `library_key_of`.
pub fn library_key(p: &KeyBinding, keys: &KeyConfig, load_track: &KeyBinding) -> (r: Option<LibraryKey>)
    ensures
        r == library_key_of(p@, *keys, load_track@),
{
    if keys.is_bound(IdKey::Global(IdKeyGlobal::Left), p) {
        Some(LibraryKey::Left)
    } else if keys.is_bound(IdKey::Global(IdKeyGlobal::Right), p) {
        Some(LibraryKey::Right)
    } else if keys.is_bound(IdKey::Global(IdKeyGlobal::Down), p) {
        Some(LibraryKey::Down)
    } else if keys.is_bound(IdKey::Global(IdKeyGlobal::Up), p) {
        Some(LibraryKey::Up)
    } else if is_plain_key(p, "Left") {
        Some(LibraryKey::Left)
    } else if is_plain_key(p, "Right") {
        Some(LibraryKey::Right)
    } else if is_plain_key(p, "Down") {
        Some(LibraryKey::Down)
    } else if is_plain_key(p, "Up") {
        Some(LibraryKey::Up)
    } else if is_plain_key(p, "PageDown") {
        Some(LibraryKey::PageDown)
    } else if is_plain_key(p, "PageUp") {
        Some(LibraryKey::PageUp)
    } else if keys.is_bound(IdKey::Global(IdKeyGlobal::GotoTop), p) {
        Some(LibraryKey::Top)
    } else if keys.is_bound(IdKey::Global(IdKeyGlobal::GotoBottom), p) {
        Some(LibraryKey::Bottom)
    } else if is_plain_key(p, "Home") {
        Some(LibraryKey::Top)
    } else if is_plain_key(p, "End") {
        Some(LibraryKey::Bottom)
    } else if keys.is_bound(IdKey::Other(IdKeyOther::LibraryDelete), p) {
        Some(LibraryKey::Delete)
    } else if keys.is_bound(IdKey::Other(IdKeyOther::LibraryYank), p) {
        Some(LibraryKey::Yank)
    } else if keys.is_bound(IdKey::Other(IdKeyOther::LibraryPaste), p) {
        Some(LibraryKey::Paste)
    } else if keys.is_bound(IdKey::Other(IdKeyOther::LibrarySwitchRoot), p) {
        Some(LibraryKey::CycleRoot)
    } else if keys.is_bound(IdKey::Other(IdKeyOther::LibraryAddRoot), p) {
        Some(LibraryKey::AddRoot)
    } else if keys.is_bound(IdKey::Other(IdKeyOther::LibraryRemoveRoot), p) {
        Some(LibraryKey::RemoveRoot)
    } else if is_plain_key(p, "Backspace") {
        Some(LibraryKey::Backspace)
    } else if is_plain_key(p, "Enter") {
        Some(LibraryKey::Enter)
    } else if keys.is_bound(IdKey::Other(IdKeyOther::LibrarySearch), p) {
        Some(LibraryKey::Search)
    } else if keys.is_bound(IdKey::Other(IdKeyOther::LibrarySearchYoutube), p) {
        Some(LibraryKey::YoutubeSearch)
    } else if keys.is_bound(IdKey::Other(IdKeyOther::LibraryLoadDir), p) {
        Some(LibraryKey::LoadDir)
    } else if same_binding(p, load_track) {
        Some(LibraryKey::LoadTrack)
    } else if is_plain_key(p, "Tab") || (has_code(p, "BackTab") && p.modifiers.shift && !p.modifiers.control
        && !p.modifiers.alt) {
        Some(LibraryKey::Blur)
    } else if keys.is_bound(IdKey::Other(IdKeyOther::LibraryTagEditor), p) {
        Some(LibraryKey::TagEditor)
    } else {
        None
    }
}

/// The parent a backspace loads: the root's parent, or none when the root
/// has no parent or is its own.
pub open spec fn backspace_parent(root: Seq<char>) -> Option<Seq<char>> {
    let parent = match path_parent(root) {
        Some(p) => p,
        None => root,
    };
    if parent != root {
        Some(parent)
    } else {
        None
    }
}

/// Whether `r` is what the library view does with the library key `key`, on
/// a tree whose root is `root`: see `library_key_reaction`.
pub open spec fn key_reaction_is(
    key: LibraryKey,
    root: Seq<char>,
    node: Option<SelectedNode>,
    selected: Option<SelectedPath>,
    r: LibraryReaction,
) -> bool {
    match key {
        LibraryKey::CycleRoot => r matches LibraryReaction::SwitchRoot(p) && p@ == root,
        LibraryKey::AddRoot => r matches LibraryReaction::AddRoot(p) && p@ == root,
        LibraryKey::RemoveRoot => r matches LibraryReaction::RemoveRoot(p) && p@ == root,
        LibraryKey::Search => r matches LibraryReaction::SearchLibrary(p) && p@ == root,
        LibraryKey::Backspace => match backspace_parent(root) {
            Some(q) => r matches LibraryReaction::LoadParent { parent, focus } && parent@ == q
                && focus@ == root,
            None => r == LibraryReaction::Nothing,
        },
        LibraryKey::LoadDir => if selected->0.is_dir {
            r matches LibraryReaction::AddToPlaylist(p) && p == selected->0.path
        } else {
            r == LibraryReaction::Nothing
        },
        LibraryKey::LoadTrack => if !selected->0.is_dir {
            r matches LibraryReaction::AddToPlaylist(p) && p == selected->0.path
        } else {
            r == LibraryReaction::Nothing
        },
        LibraryKey::TagEditor => if !selected->0.is_dir {
            r matches LibraryReaction::OpenTagEditor(p) && p == selected->0.path
        } else {
            r == LibraryReaction::Nothing
        },
        _ => r == library_reaction(key, root, node, selected),
    }
}

/// What the library view does with a key; see `library_reaction` for the keys
/// that do not name a path, while these do: the root keys and the search
/// name the root, backspace loads `backspace_parent` of the root focusing the
/// root, and loading a directory or a track, or the tag editor, name the
/// selected path when it is of the right kind.
pub fn library_key_reaction(key: LibraryKey, root: &str, node: Option<SelectedNode>, selected: Option<SelectedPath>) -> (r: LibraryReaction)
    requires
        (key == LibraryKey::LoadDir || key == LibraryKey::LoadTrack || key == LibraryKey::TagEditor)
            ==> selected is Some,
    ensures
        key_reaction_is(key, root@, node, selected, r),
{
    match key {
        LibraryKey::Left => LibraryReaction::Left(handle_left_key(node)),
        LibraryKey::Right => LibraryReaction::Right(handle_right_key(node)),
        LibraryKey::Down => LibraryReaction::Perform(TableCmd::Move(Direction::Down)),
        LibraryKey::Up => LibraryReaction::Perform(TableCmd::Move(Direction::Up)),
        LibraryKey::PageDown => LibraryReaction::Perform(TableCmd::Scroll(Direction::Down)),
        LibraryKey::PageUp => LibraryReaction::Perform(TableCmd::Scroll(Direction::Up)),
        LibraryKey::Top => LibraryReaction::Perform(TableCmd::GoTo(Position::Begin)),
        LibraryKey::Bottom => LibraryReaction::Perform(TableCmd::GoTo(Position::End)),
        LibraryKey::Delete => LibraryReaction::Delete,
        LibraryKey::Yank => LibraryReaction::Yank,
        LibraryKey::Paste => LibraryReaction::Paste,
        LibraryKey::CycleRoot => LibraryReaction::SwitchRoot(String::from_str(root)),
        LibraryKey::AddRoot => LibraryReaction::AddRoot(String::from_str(root)),
        LibraryKey::RemoveRoot => LibraryReaction::RemoveRoot(String::from_str(root)),
        LibraryKey::Backspace => {
            let parent = match parent_of(root) {
                Some(p) => p,
                None => String::from_str(root),
            };
            let root_string = String::from_str(root);
            if parent != root_string {
                LibraryReaction::LoadParent { parent, focus: root_string }
            } else {
                LibraryReaction::Nothing
            }
        },
        LibraryKey::Enter => LibraryReaction::Perform(TableCmd::Submit),
        LibraryKey::Search => LibraryReaction::SearchLibrary(String::from_str(root)),
        LibraryKey::YoutubeSearch => LibraryReaction::YoutubeSearch,
        LibraryKey::LoadDir => {
            let s = selected.unwrap();
            if s.is_dir {
                LibraryReaction::AddToPlaylist(s.path)
            } else {
                LibraryReaction::Nothing
            }
        },
        LibraryKey::LoadTrack => {
            let s = selected.unwrap();
            if !s.is_dir {
                LibraryReaction::AddToPlaylist(s.path)
            } else {
                LibraryReaction::Nothing
            }
        },
        LibraryKey::Blur => LibraryReaction::Blur,
        LibraryKey::TagEditor => {
            let s = selected.unwrap();
            if !s.is_dir {
                LibraryReaction::OpenTagEditor(s.path)
            } else {
                LibraryReaction::Nothing
            }
        },
    }
}

/// The library keys that load or edit the selected node.
pub open spec fn needs_selection(k: LibraryKey) -> bool {
    k == LibraryKey::LoadDir || k == LibraryKey::LoadTrack || k == LibraryKey::TagEditor
}

/// What the library view does with a key press: the library key it is (see
/// `library_key_of`), then what that key does (see `library_key_reaction`);
/// any other key does nothing.
pub fn library_on(
    p: &KeyBinding,
    keys: &KeyConfig,
    load_track: &KeyBinding,
    root: &str,
    node: Option<SelectedNode>,
    selected: Option<SelectedPath>,
) -> (r: LibraryReaction)
    requires
        library_key_of(p@, *keys, load_track@) matches Some(k) && needs_selection(k) ==> selected is Some,
    ensures
        library_key_of(p@, *keys, load_track@) is None ==> r == LibraryReaction::Nothing,
        library_key_of(p@, *keys, load_track@) matches Some(k) ==> key_reaction_is(
            k,
            root@,
            node,
            selected,
            r,
        ),
{
    match library_key(p, keys, load_track) {
        Some(k) => library_key_reaction(k, root, node, selected),
        None => LibraryReaction::Nothing,
    }
}

/// An entry of a directory as the library tree lists it: its file name, the
/// text it is ordered by, and its path.
#[derive(Debug)]
pub struct DirEntryInfo {
    pub name: String,
    pub sort_key: String,
    pub path: String,
}

/// A hidden entry's name starts with a dot.
pub open spec fn is_hidden_name(name: Seq<char>) -> bool {
    name.len() > 0 && name[0] == '.'
}

/// The entries that are not hidden, in order.
pub open spec fn visible_entries(entries: Seq<DirEntryInfo>) -> Seq<DirEntryInfo>
    decreases entries.len(),
{
    if entries.len() == 0 {
        Seq::empty()
    } else {
        let rest = visible_entries(entries.drop_last());
        if is_hidden_name(entries.last().name@) {
            rest
        } else {
            rest.push(entries.last())
        }
    }
}

/// The paths of the children a directory shows in the library tree, given
/// its entries: those that are not hidden, in the order `alphanumeric_sort`
/// gives their sort keys (a stable sort). The keys are texts, which
/// `compare_path` orders as `compare_str` does: it compares paths by their
/// text whenever both are valid text.
pub open spec fn dir_children_of(entries: Seq<DirEntryInfo>) -> Seq<Seq<char>> {
    let v = visible_entries(entries);
    let p = path_order_positions(v.map_values(|e: DirEntryInfo| e.sort_key@));
    Seq::new(p.len(), |j: int| v[p[j] as int].path@)
}

/// Whether a name is hidden; see `is_hidden_name`.
fn hidden_name(name: &str) -> (r: bool)
    ensures
        r == is_hidden_name(name@),
{
    name.unicode_len() > 0 && name.get_char(0) == '.'
}

/// The paths of the children a directory shows in the library tree; see
/// `dir_children_of`.
pub fn dir_children(entries: &Vec<DirEntryInfo>) -> (r: Vec<String>)
    ensures
        string_views(r@) == dir_children_of(entries@),
{
    let mut keys: Vec<String> = Vec::new();
    let mut paths: Vec<String> = Vec::new();
    let mut i: usize = 0;
    while i < entries.len()
        invariant
            i <= entries@.len(),
            keys@.len() == paths@.len(),
            keys@.len() == visible_entries(entries@.take(i as int)).len(),
            forall|k: int| 0 <= k < keys@.len() ==> #[trigger] keys@[k]@ == visible_entries(entries@.take(i as int))[k].sort_key@,
            forall|k: int| 0 <= k < paths@.len() ==> #[trigger] paths@[k]@ == visible_entries(entries@.take(i as int))[k].path@,
        decreases entries@.len() - i,
    {
        proof {
            assert(entries@.take(i + 1).drop_last() =~= entries@.take(i as int));
            assert(entries@.take(i + 1).last() == entries@[i as int]);
        }
        let e = &entries[i];
        if !hidden_name(e.name.as_str()) {
            keys.push(e.sort_key.clone());
            paths.push(e.path.clone());
        }
        i = i + 1;
    }
    proof {
        assert(entries@.take(entries@.len() as int) =~= entries@);
    }
    let ghost v = visible_entries(entries@);
    proof {
        assert(string_views(keys@) =~= v.map_values(|e: DirEntryInfo| e.sort_key@));
    }
    let p = sorted_positions_by_path(&keys);
    let mut r: Vec<String> = Vec::new();
    let mut j: usize = 0;
    while j < p.len()
        invariant
            j <= p@.len(),
            v == visible_entries(entries@),
            p@ == path_order_positions(v.map_values(|e: DirEntryInfo| e.sort_key@)),
            p@.len() == keys@.len(),
            paths@.len() == keys@.len(),
            keys@.len() == v.len(),
            forall|k: int| 0 <= k < p@.len() ==> #[trigger] p@[k] < keys@.len(),
            forall|k: int| 0 <= k < paths@.len() ==> #[trigger] paths@[k]@ == v[k].path@,
            r@.len() == j,
            string_views(r@) == dir_children_of(entries@).take(j as int),
        decreases p@.len() - j,
    {
        let ghost prev = r@;
        r.push(paths[p[j]].clone());
        proof {
            assert forall|k: int| 0 <= k < j + 1 implies #[trigger] string_views(r@)[k] == dir_children_of(
                entries@,
            ).take(j + 1)[k] by {
                if k < j {
                    assert(r@[k] == prev[k]);
                    assert(string_views(prev)[k] == dir_children_of(entries@).take(j as int)[k]);
                }
            }
            assert(string_views(r@) =~= dir_children_of(entries@).take(j + 1));
        }
        j = j + 1;
    }
    proof {
        assert(dir_children_of(entries@).take(p@.len() as int) =~= dir_children_of(entries@));
    }
    r
}

} // verus!
