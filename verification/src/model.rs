//! The state the user interface keeps, and the commands and view updates its
//! decisions produce. Sending the commands to the server and applying the view
//! updates to the terminal widgets is left to the caller, in order.
use vstd::prelude::*;

use crate::ids::{Id, IdConfigEditor, IdKey};
use crate::key_config::{KeyBindingView, KeyConfig};
use crate::theme_style::{ThemeColor, ThemeStyle, COLOR_FIELDS};

verus! {

/// The library's own events that the library view listens for.
#[derive(Debug, Clone, Copy, PartialEq, Eq, Structural)]
pub enum LibraryEvent {
    Reload,
    ReloadPath,
    TreeNodeReady,
    TreeNodeReadySub,
}

/// Where a track comes from.
#[derive(Debug, PartialEq, Eq)]
pub enum TrackSource {
    Path(String),
    Url(String),
    PodcastUrl(String),
}

impl TrackSource {
    /// A copy of this source.
    pub fn duplicate(&self) -> (r: Self)
        ensures
            r == *self,
    {
        match self {
            TrackSource::Path(p) => TrackSource::Path(p.clone()),
            TrackSource::Url(u) => TrackSource::Url(u.clone()),
            TrackSource::PodcastUrl(u) => TrackSource::PodcastUrl(u.clone()),
        }
    }
}

/// A copy of an optional text.
fn duplicate_text(t: &Option<String>) -> (r: Option<String>)
    ensures
        r == *t,
{
    match t {
        Some(s) => Some(s.clone()),
        None => None,
    }
}

impl PlaylistTrack {
    /// A copy of this track.
    pub fn duplicate(&self) -> (r: Self)
        ensures
            r == *self,
    {
        PlaylistTrack {
            source: self.source.duplicate(),
            title: duplicate_text(&self.title),
            artist: duplicate_text(&self.artist),
            album: duplicate_text(&self.album),
            duration_ms: self.duration_ms,
        }
    }
}

/// How the playlist continues after a track.
#[derive(Debug, Clone, Copy, PartialEq, Eq, Structural)]
pub enum LoopMode {
    Single,
    Playlist,
    Random,
    PlaylistOnce,
}

/// A track in the playlist, with what the views show of it.
#[derive(Debug)]
pub struct PlaylistTrack {
    pub source: TrackSource,
    pub title: Option<String>,
    pub artist: Option<String>,
    pub album: Option<String>,
    /// The duration in milliseconds, when known.
    pub duration_ms: Option<u64>,
}

/// The playlist as the user interface knows it.
#[derive(Debug)]
pub struct TuiPlaylist {
    pub tracks: Vec<PlaylistTrack>,
    pub current_track_index: Option<usize>,
    pub loop_mode: LoopMode,
}

/// Commands to the playlist on the server.
#[derive(Debug, PartialEq, Eq)]
pub enum PlaylistCmd {
    AddTrack { at_index: usize, tracks: Vec<TrackSource> },
    RemoveTrack { index: usize, source: TrackSource },
    Clear,
    Shuffle,
    SwapTrack { index_a: usize, index_b: usize },
    RemoveDeletedItems,
    PlaySpecific { index: usize, source: TrackSource },
}

/// Commands to the server.
#[derive(Debug, PartialEq, Eq)]
pub enum TuiCmd {
    Playlist(PlaylistCmd),
    ReloadConfig,
}

/// The main view layouts.
#[derive(Debug, Clone, Copy, PartialEq, Eq, Structural)]
pub enum TermusicLayout {
    TreeView,
    DataBase,
    Podcast,
}

/// Which column set the playlist table shows.
#[derive(Debug, Clone, Copy, PartialEq, Eq, Structural)]
pub enum PlaylistColumns {
    /// Duration and episode title.
    Podcast,
    /// Duration, artist, title and album.
    Music,
}

/// Which list a general search searched.
#[derive(Debug, Clone, Copy, PartialEq, Eq, Structural)]
pub enum SearchSource {
    Playlist,
    Database,
}

/// Updates of the views, to be applied in order.
#[derive(Debug, PartialEq, Eq)]
pub enum UiAction {
    /// Mount the component, replacing it if it is mounted.
    Remount(Id),
    /// Unmount the component; fails if it is not mounted.
    Umount(Id),
    /// Unmount the component if it is mounted.
    UmountIfMounted(Id),
    /// Give the component the focus.
    Activate(Id),
    /// Set the playlist title from the number of tracks, their total duration and the loop mode.
    SetPlaylistTitle { tracks: usize, total_ms: u64, loop_mode: LoopMode, loop_symbol: bool },
    /// Set the columns of the playlist table.
    SetPlaylistColumns(PlaylistColumns),
    /// Select the given row of the playlist table.
    SelectPlaylistRow(usize),
    /// Clear the selection and offsets of the playlist table.
    ResetPlaylistTable,
    /// Follow a change of the current track: layout, progress, lyrics, podcast state.
    CurrentTrackChanged,
    /// Show the rows at these indices of the searched list in the general search popup.
    GeneralSearchShow(SearchSource, Vec<usize>),
    /// Ask whether to overwrite the playlist file at this path.
    MountSavePlaylistConfirm(String),
    /// Write the playlist as an m3u file to this path.
    SaveM3u(String),
    /// Reload this path in the library and focus it.
    LibraryReloadAndFocus(String),
    /// Re-query the database result list.
    DatabaseUpdateSearchResults,
    /// Show these numbered entries in the database result list, and a line
    /// saying the results are empty when the flag is set.
    DatabaseShowResults(Vec<(usize, String)>, bool),
    /// Show these tracks, by title or else by file, in the database track list,
    /// and a line saying the results are empty when the flag is set.
    DatabaseShowTracks(Vec<Option<String>>, bool),
    /// Fill the theme table of the config editor and select this row.
    ThemeSelectShow(usize),
    /// Redraw the album photo.
    UpdatePhoto,
    /// Reload the other views after the config editor closed.
    ReloadMainViews,
    /// Remount the global key listener with the current key bindings.
    RemountGlobalListener,
    /// Show the lyric text lines.
    LyricShow(Vec<String>),
    /// Rescan the library tree.
    LibraryScan,
    /// Reload the progress bar, the help label and the lyric view.
    ReloadOtherViews,
    /// Show an error popup with this context.
    ErrorPopup(String),
    /// Remount this list view, fresh, showing these rows.
    RemountList(Id, Vec<String>),
    /// Mount the library view on a tree of one node (its id and its text),
    /// focused on that node, or on no tree yet; it always listens for `events`.
    MountLibrary { root: Option<(String, String)>, events: Vec<LibraryEvent> },
    /// Preview this theme: the built-in default, the native one, or the named theme file.
    PreviewTheme(ThemeChoice),
    /// Ask whether to add everything found by this criteria to the playlist.
    MountAddConfirm(SearchCriteria),
    /// Ask yes or no before deleting the file at `path`; then focus `focus_node`.
    MountDeleteConfirmRadio { path: String, focus_node: Option<String> },
    /// Ask for a typed confirmation, showing `warning`, before deleting the
    /// directory at `path`; then focus `focus_node`.
    MountDeleteConfirmInput { path: String, focus_node: Option<String>, warning: String },
    /// Draw the config editor showing this page.
    DrawConfigEditor(ConfigEditorLayout),
    /// Set the title of the lyric view.
    SetLyricTitle(String),
    /// Show a message with this title and text for a while.
    ShowMessage { title: String, text: String },
    /// Draw the screen again.
    Redraw,
}

/// A theme the config editor can preview.
#[derive(Debug, PartialEq, Eq)]
pub enum ThemeChoice {
    /// The built-in default theme.
    Default,
    /// The terminal's own colors.
    Native,
    /// A theme loaded from the file with this name.
    File(String),
}

/// What the database view searches by.
#[derive(Debug, Clone, Copy, PartialEq, Eq, Structural)]
pub enum SearchCriteria {
    Artist,
    Album,
    Genre,
    Directory,
    Playlist,
}

/// The state of the database view.
#[derive(Debug)]
pub struct DatabaseWidget {
    pub criteria: SearchCriteria,
    /// The entries of the result list: artists, albums, genres, directories or playlist files.
    pub search_results: Vec<String>,
    /// The tracks of the selected result.
    pub search_tracks: Vec<PlaylistTrack>,
}

/// The pages of the config editor.
#[derive(Debug, Clone, Copy, PartialEq, Eq, Structural)]
pub enum ConfigEditorLayout {
    General,
    Color,
    Key1,
    Key2,
}

/// The state of the config editor.
#[derive(Debug)]
pub struct ConfigEditorState {
    pub layout: ConfigEditorLayout,
    /// Whether a value was edited since the editor was opened or last saved.
    pub config_changed: bool,
    /// The file names of the themes found on disk.
    pub themes: Vec<String>,
    /// The file name of the theme being edited, when it comes from a file.
    pub theme_file_name: Option<String>,
    /// The key bindings being edited.
    pub key_config: KeyConfig,
    /// The theme style being edited.
    pub style: ThemeStyle,
    /// The colours of the theme being edited, as its theme file writes them.
    pub palette: Vec<String>,
}

/// The state of the user interface, with the server commands and view updates
/// its decisions queued so far.
#[derive(Debug)]
pub struct Model {
    pub playlist: TuiPlaylist,
    /// The selected row of the playlist table.
    pub playlist_selected: Option<usize>,
    pub layout: TermusicLayout,
    /// Whether the playlist title shows the loop mode as a symbol.
    pub use_loop_mode_symbol: bool,
    /// How many random tracks to add at once; never zero.
    pub random_track_quantity: u32,
    /// How many tracks an album needs at least to be added at random; never zero.
    pub random_album_min_quantity: u32,
    /// How far the current track has played, in milliseconds.
    pub current_track_pos_ms: u64,
    pub config_editor: ConfigEditorState,
    pub dw: DatabaseWidget,
    /// The line the lyric view shows.
    pub lyric_line: String,
    /// Commands to send to the server, oldest first.
    pub cmds: Vec<TuiCmd>,
    /// View updates to apply, oldest first.
    pub ui: Vec<UiAction>,
}

impl Model {
    /// Everything but the two queues is as in `o`.
    pub open spec fn same_state(self, o: Model) -> bool {
        &&& self.playlist == o.playlist
        &&& self.playlist_selected == o.playlist_selected
        &&& self.same_settings(o)
        &&& self.config_editor == o.config_editor
        &&& self.dw == o.dw
        &&& self.lyric_line == o.lyric_line
    }

    /// The view layout, the settings and the playing position are as in `o`.
    pub open spec fn same_settings(self, o: Model) -> bool {
        &&& self.same_layout_and_quantities(o)
        &&& self.current_track_pos_ms == o.current_track_pos_ms
    }

    /// The view layout and the settings are as in `o`.
    pub open spec fn same_layout_and_quantities(self, o: Model) -> bool {
        &&& self.layout == o.layout
        &&& self.use_loop_mode_symbol == o.use_loop_mode_symbol
        &&& self.random_track_quantity == o.random_track_quantity
        &&& self.random_album_min_quantity == o.random_album_min_quantity
    }

    /// A model with an empty playlist and empty queues.
    pub fn new(layout: TermusicLayout, loop_mode: LoopMode) -> (m: Self)
        ensures
            m.playlist.tracks@.len() == 0,
            m.playlist.current_track_index is None,
            m.playlist.loop_mode == loop_mode,
            m.playlist_selected is None,
            m.layout == layout,
            !m.use_loop_mode_symbol,
            m.random_track_quantity == 20,
            m.random_album_min_quantity == 5,
            m.current_track_pos_ms == 0,
            m.config_editor.layout == ConfigEditorLayout::General,
            !m.config_editor.config_changed,
            m.config_editor.themes@.len() == 0,
            m.config_editor.theme_file_name is None,
            m.config_editor.key_config.bindings() == Map::<IdKey, KeyBindingView>::empty(),
            m.config_editor.style.wf(),
            m.config_editor.palette@.len() == 0,
            forall|i: int| 0 <= i < COLOR_FIELDS ==> m.config_editor.style.colors@[i] == ThemeColor::Reset,
            m.dw.criteria == SearchCriteria::Artist,
            m.dw.search_results@.len() == 0,
            m.dw.search_tracks@.len() == 0,
            m.lyric_line@.len() == 0,
            m.cmds@.len() == 0,
            m.ui@.len() == 0,
    {
        Model {
            playlist: TuiPlaylist { tracks: Vec::new(), current_track_index: None, loop_mode },
            playlist_selected: None,
            layout,
            use_loop_mode_symbol: false,
            random_track_quantity: 20,
            random_album_min_quantity: 5,
            current_track_pos_ms: 0,
            config_editor: ConfigEditorState {
                layout: ConfigEditorLayout::General,
                config_changed: false,
                themes: Vec::new(),
                theme_file_name: None,
                key_config: KeyConfig::new(),
                style: ThemeStyle::plain(),
                palette: Vec::new(),
            },
            dw: DatabaseWidget {
                criteria: SearchCriteria::Artist,
                search_results: Vec::new(),
                search_tracks: Vec::new(),
            },
            lyric_line: String::new(),
            cmds: Vec::new(),
            ui: Vec::new(),
        }
    }
}

/// The total of the known track durations.
pub open spec fn total_duration(tracks: Seq<PlaylistTrack>) -> nat
    decreases tracks.len(),
{
    if tracks.len() == 0 {
        0
    } else {
        total_duration(tracks.drop_last()) + match tracks.last().duration_ms {
            Some(d) => d as nat,
            None => 0,
        }
    }
}

/// A prefix of a playlist never has a larger total duration than the whole.
pub proof fn lemma_total_duration_prefix(tracks: Seq<PlaylistTrack>, i: int)
    requires
        0 <= i <= tracks.len(),
    ensures
        total_duration(tracks.take(i)) <= total_duration(tracks),
    decreases tracks.len(),
{
    if i < tracks.len() {
        assert(tracks.drop_last().take(i) =~= tracks.take(i));
        lemma_total_duration_prefix(tracks.drop_last(), i);
    } else {
        assert(tracks.take(i) =~= tracks);
    }
}

/// The total duration of two playlists one after the other is the sum of theirs.
pub proof fn lemma_total_duration_concat(a: Seq<PlaylistTrack>, b: Seq<PlaylistTrack>)
    ensures
        total_duration(a + b) == total_duration(a) + total_duration(b),
    decreases b.len(),
{
    if b.len() == 0 {
        assert(a + b =~= a);
    } else {
        assert((a + b).drop_last() =~= a + b.drop_last());
        assert((a + b).last() == b.last());
        lemma_total_duration_concat(a, b.drop_last());
    }
}

/// What is mounted after the view update `a` is applied to the components
/// `mounted`, or, when it fails, what is mounted then and the component on
/// which it fails: a remount always mounts;
/// an unmount fails on a component that is not mounted; an unmount-if-mounted
/// never fails; the popups and the library view are mounted by their own
/// updates; every other update leaves what is mounted as it is.
pub open spec fn after_mount_action(mounted: Set<Id>, a: UiAction) -> Result<Set<Id>, (Set<Id>, Id)> {
    match a {
        UiAction::Remount(id) => Ok(mounted.insert(id)),
        UiAction::RemountList(id, _) => Ok(mounted.insert(id)),
        UiAction::Umount(id) => if mounted.contains(id) {
            Ok(mounted.remove(id))
        } else {
            Err((mounted, id))
        },
        UiAction::UmountIfMounted(id) => Ok(mounted.remove(id)),
        UiAction::MountLibrary { .. } => Ok(mounted.insert(Id::Library)),
        UiAction::MountAddConfirm(_) => Ok(mounted.insert(Id::DatabaseAddConfirmPopup)),
        UiAction::MountDeleteConfirmRadio { .. } => Ok(mounted.insert(Id::DeleteConfirmRadioPopup)),
        UiAction::MountDeleteConfirmInput { .. } => Ok(mounted.insert(Id::DeleteConfirmInputPopup)),
        UiAction::MountSavePlaylistConfirm(_) => Ok(mounted.insert(Id::SavePlaylistConfirm)),
        UiAction::ErrorPopup(_) => Ok(mounted.insert(Id::ErrorPopup)),
        _ => Ok(mounted),
    }
}

/// What is mounted after the view updates `acts` are applied in order to the
/// components `mounted`, or, when one fails, what is mounted when the first
/// failing one is reached and the component on which it fails; the updates
/// after it are not applied.
pub open spec fn after_mount_actions(mounted: Set<Id>, acts: Seq<UiAction>) -> Result<Set<Id>, (Set<Id>, Id)>
    decreases acts.len(),
{
    if acts.len() == 0 {
        Ok(mounted)
    } else {
        match after_mount_actions(mounted, acts.drop_last()) {
            Ok(m) => after_mount_action(m, acts.last()),
            Err(e) => Err(e),
        }
    }
}

} // verus!
