//! The decisions of the playlist view: which commands go to the server and how
//! the table's title, columns and selection follow the playlist.
use vstd::prelude::*;
use vstd::string::StrSliceExecFns;

use crate::database::{is_plain_key, plain_key};
use crate::field_keys::has_code;
use crate::ids::{Id, IdKey, IdKeyGlobal, IdKeyOther};
use crate::key_config::{bound_to, KeyBinding, KeyBindingView, KeyConfig};
use crate::playlist_table::{Direction, Position, TableCmd};
use crate::select_states::KeyModifierSet;
use crate::model::{
    lemma_total_duration_concat, lemma_total_duration_prefix, total_duration, LoopMode, Model,
    PlaylistCmd, PlaylistColumns,
    PlaylistTrack, SearchCriteria, SearchSource, TermusicLayout, TrackSource, TuiCmd, TuiPlaylist,
    UiAction,
};
use crate::field_keys::same_text;
use crate::library_tree::{path_starts_with, starts_with};
use crate::lyric::{has_episode, PodcastError, PodcastInfo};
use crate::search::{matching_indices, search_pattern};

verus! {

/// The column set the playlist table shows in a layout.
pub open spec fn columns_for(layout: TermusicLayout) -> PlaylistColumns {
    if layout == TermusicLayout::Podcast {
        PlaylistColumns::Podcast
    } else {
        PlaylistColumns::Music
    }
}

/// Whether the table selection moves to a new current track: when asked to, or
/// when there was a current track and the selection was on it or nowhere.
pub open spec fn follows_current(force: bool, old_current: Option<usize>, selected: Option<usize>) -> bool {
    force || (old_current is Some && (selected is None || selected == old_current))
}

/// Two track sources are of the same kind and name the same text.
pub open spec fn same_source_spec(a: TrackSource, b: TrackSource) -> bool {
    match (a, b) {
        (TrackSource::Path(x), TrackSource::Path(y)) => x@ == y@,
        (TrackSource::Url(x), TrackSource::Url(y)) => x@ == y@,
        (TrackSource::PodcastUrl(x), TrackSource::PodcastUrl(y)) => x@ == y@,
        _ => false,
    }
}

/// The first index at which a track with the same source as `source` occurs in `tracks`, if any.
pub open spec fn first_index_of_source(tracks: Seq<PlaylistTrack>, source: TrackSource) -> Option<int> {
    if exists|j: int| 0 <= j < tracks.len() && #[trigger] same_source_spec(tracks[j].source, source) {
        Some(
            choose|j: int|
                0 <= j < tracks.len() && #[trigger] same_source_spec(tracks[j].source, source)
                    && forall|k: int| 0 <= k < j ==> !same_source_spec(tracks[k].source, source),
        )
    } else {
        None
    }
}

/// The index found for a source holds a track with that source, and no
/// earlier track has it; when none is found, no track has it.
pub proof fn lemma_first_index_of_source(tracks: Seq<PlaylistTrack>, source: TrackSource)
    ensures
        match first_index_of_source(tracks, source) {
            Some(j) => 0 <= j < tracks.len() && same_source_spec(tracks[j].source, source)
                && forall|k: int| 0 <= k < j ==> !same_source_spec(tracks[k].source, source),
            None => forall|k: int|
                0 <= k < tracks.len() ==> !#[trigger] same_source_spec(tracks[k].source, source),
        },
{
    if exists|j: int| 0 <= j < tracks.len() && #[trigger] same_source_spec(tracks[j].source, source) {
        let w = choose|j: int| 0 <= j < tracks.len() && #[trigger] same_source_spec(tracks[j].source, source);
        lemma_least_source_index(tracks, source, w);
    }
}

/// Below a track with the source there is a first one.
proof fn lemma_least_source_index(tracks: Seq<PlaylistTrack>, source: TrackSource, w: int)
    requires
        0 <= w < tracks.len(),
        same_source_spec(tracks[w].source, source),
    ensures
        exists|j: int|
            0 <= j < tracks.len() && #[trigger] same_source_spec(tracks[j].source, source)
                && forall|k: int| 0 <= k < j ==> !same_source_spec(tracks[k].source, source),
    decreases w,
{
    if exists|k: int| 0 <= k < w && #[trigger] same_source_spec(tracks[k].source, source) {
        let k = choose|k: int| 0 <= k < w && #[trigger] same_source_spec(tracks[k].source, source);
        lemma_least_source_index(tracks, source, k);
    } else {
        assert(forall|k: int| 0 <= k < w ==> !same_source_spec(tracks[k].source, source));
    }
}

/// After a shuffle the table selection stays on a track with the source the
/// selected track had, whenever the new order still holds such a track.
pub proof fn lemma_shuffle_keeps_selected_track(tracks: Seq<PlaylistTrack>, source: TrackSource, i: int)
    requires
        0 <= i < tracks.len(),
        same_source_spec(tracks[i].source, source),
    ensures
        first_index_of_source(tracks, source) matches Some(j) && j <= i && same_source_spec(
            tracks[j].source,
            source,
        ),
{
    lemma_first_index_of_source(tracks, source);
}

/// Whether two track sources are the same.
pub fn same_source(a: &TrackSource, b: &TrackSource) -> (r: bool)
    ensures
        r == same_source_spec(*a, *b),
{
    match (a, b) {
        (TrackSource::Path(x), TrackSource::Path(y)) => *x == *y,
        (TrackSource::Url(x), TrackSource::Url(y)) => *x == *y,
        (TrackSource::PodcastUrl(x), TrackSource::PodcastUrl(y)) => *x == *y,
        _ => false,
    }
}

/// A track of the music database, as the random picks see it.
#[derive(Debug)]
pub struct LibraryTrack {
    pub path: String,
    /// Whether the player can play the file's type.
    pub supported: bool,
}

/// `rand::random_range` over `0..len`, with the thread-local generator: the
/// index that `IndexedRandom::choose` draws for a slice of length `len`. It is
/// in bounds; which index comes out is left to chance and not stated.
#[verifier::external_body]
fn random_index(len: usize) -> (r: usize)
    requires
        len > 0,
    ensures
        r < len,
{
    rand::random_range(0..len)
}

/// Tracks as `AddTrack` sends them: each path as a file source.
pub open spec fn path_sources(paths: Seq<String>) -> Seq<TrackSource> {
    paths.map_values(|p: String| TrackSource::Path(p))
}

/// `after` is `before` with one more view update: showing the rows at
/// `indices` of the `source` list in the search popup.
pub open spec fn pushed_search_show(before: Seq<UiAction>, after: Seq<UiAction>, source: SearchSource, indices: Seq<usize>) -> bool {
    &&& after.len() == before.len() + 1
    &&& after.drop_last() == before
    &&& after.last() matches UiAction::GeneralSearchShow(src, rows)
    &&& src == source
    &&& rows@ == indices
}

/// `path` is the path of a supported track of `tracks`.
pub open spec fn is_supported_path(tracks: Seq<LibraryTrack>, path: String) -> bool {
    exists|i: int| 0 <= i < tracks.len() && #[trigger] tracks[i].supported && tracks[i].path == path
}

/// `after` is `before` with one more command: adding `sources` at index `at`.
pub open spec fn pushed_add_track(before: Seq<TuiCmd>, after: Seq<TuiCmd>, at: int, sources: Seq<TrackSource>) -> bool {
    &&& after.len() == before.len() + 1
    &&& after.drop_last() == before
    &&& after.last() matches TuiCmd::Playlist(PlaylistCmd::AddTrack { at_index, tracks })
    &&& at_index == at
    &&& tracks@ == sources
}

/// Pick `quantity` tracks of supported types at random, repeats allowed: each
/// pick is drawn evenly among the supported tracks (as drawing among all
/// tracks and skipping the unsupported ones does), until `quantity` tracks
/// are taken. Which tracks come out is left to chance.
pub fn playlist_get_random_tracks(tracks: &Vec<LibraryTrack>, quantity: u32) -> (r: Vec<String>)
    requires
        quantity > 0,
        exists|i: int| 0 <= i < tracks@.len() && #[trigger] tracks@[i].supported,
    ensures
        r@.len() == quantity,
        forall|k: int| 0 <= k < r@.len() ==> is_supported_path(tracks@, #[trigger] r@[k]),
{
    let mut supported: Vec<usize> = Vec::new();
    let mut i: usize = 0;
    while i < tracks.len()
        invariant
            i <= tracks@.len(),
            forall|k: int| 0 <= k < supported@.len() ==> #[trigger] supported@[k] < tracks@.len()
                && tracks@[supported@[k] as int].supported,
            supported@.len() == 0 ==> forall|j: int| 0 <= j < i ==> !#[trigger] tracks@[j].supported,
        decreases tracks@.len() - i,
    {
        if tracks[i].supported {
            supported.push(i);
        }
        i = i + 1;
    }
    let mut result: Vec<String> = Vec::new();
    let mut q: u32 = 0;
    while q < quantity
        invariant
            q <= quantity,
            result@.len() == q,
            supported@.len() > 0,
            forall|k: int| 0 <= k < supported@.len() ==> #[trigger] supported@[k] < tracks@.len()
                && tracks@[supported@[k] as int].supported,
            forall|k: int| 0 <= k < result@.len() ==> is_supported_path(tracks@, #[trigger] result@[k]),
        decreases quantity - q,
    {
        let pick = random_index(supported.len());
        let idx = supported[pick];
        let ghost before = result@;
        result.push(tracks[idx].path.clone());
        proof {
            assert(tracks@[supported@[pick as int] as int].supported);
            assert forall|k: int| 0 <= k < result@.len() implies is_supported_path(
                tracks@,
                #[trigger] result@[k],
            ) by {
                if k < before.len() {
                    assert(result@[k] == before[k]);
                } else {
                    assert(result@[k] == tracks@[idx as int].path);
                    assert(tracks@[idx as int].supported);
                }
            }
        }
        q = q + 1;
    }
    result
}

/// Pick an album with at least `quantity` tracks at random and give all its
/// tracks: the album is drawn evenly among those large enough (as drawing
/// among all albums and skipping those too small does). Which one comes out is
/// left to chance.
pub fn playlist_get_random_album_tracks(albums: &Vec<Vec<String>>, quantity: u32) -> (r: Vec<String>)
    requires
        exists|i: int| 0 <= i < albums@.len() && #[trigger] albums@[i]@.len() >= quantity,
    ensures
        exists|i: int| 0 <= i < albums@.len() && #[trigger] albums@[i]@.len() >= quantity && r@ == albums@[i]@,
{
    let mut large: Vec<usize> = Vec::new();
    let mut i: usize = 0;
    while i < albums.len()
        invariant
            i <= albums@.len(),
            forall|k: int| 0 <= k < large@.len() ==> #[trigger] large@[k] < albums@.len()
                && albums@[large@[k] as int]@.len() >= quantity,
            large@.len() == 0 ==> forall|j: int| 0 <= j < i ==> #[trigger] albums@[j]@.len() < quantity,
        decreases albums@.len() - i,
    {
        if albums[i].len() >= quantity as usize {
            large.push(i);
        }
        i = i + 1;
    }
    let pick = random_index(large.len());
    let idx = large[pick];
    let album = &albums[idx];
    let mut result: Vec<String> = Vec::new();
    let mut j: usize = 0;
    while j < album.len()
        invariant
            j <= album@.len(),
            result@ == album@.take(j as int),
        decreases album@.len() - j,
    {
        result.push(album[j].clone());
        proof {
            assert(album@.take(j + 1) =~= album@.take(j as int).push(album@[j as int]));
        }
        j = j + 1;
    }
    proof {
        assert(album@.take(j as int) =~= album@);
        assert(albums@[idx as int]@.len() >= quantity);
    }
    result
}

impl Model {
    /// Ask the server to append these files to the playlist.
    pub fn playlist_add_all_from_db(&mut self, paths: &Vec<String>)
        ensures
            final(self).same_state(*old(self)),
            final(self).ui@ == old(self).ui@,
            pushed_add_track(
                old(self).cmds@,
                final(self).cmds@,
                old(self).playlist.tracks@.len() as int,
                path_sources(paths@),
            ),
    {
        let mut sources: Vec<TrackSource> = Vec::new();
        let mut i: usize = 0;
        while i < paths.len()
            invariant
                i <= paths@.len(),
                sources@ == path_sources(paths@.take(i as int)),
            decreases paths@.len() - i,
        {
            sources.push(TrackSource::Path(paths[i].clone()));
            proof {
                assert(path_sources(paths@.take(i + 1)) =~= path_sources(paths@.take(i as int)).push(
                    TrackSource::Path(paths@[i as int]),
                ));
            }
            i = i + 1;
        }
        proof {
            assert(paths@.take(i as int) =~= paths@);
        }
        let at_index = self.playlist.tracks.len();
        let ghost before = self.cmds@;
        self.cmds.push(TuiCmd::Playlist(PlaylistCmd::AddTrack { at_index, tracks: sources }));
        proof {
            assert(self.cmds@.drop_last() =~= before);
        }
    }

    /// Add `random_track_quantity` random tracks of the database to the
    /// playlist; `tracks` is what the database gave, none when asking it
    /// failed, in which case an empty add is sent.
    pub fn playlist_add_random_tracks(&mut self, tracks: Option<&Vec<LibraryTrack>>)
        requires
            old(self).random_track_quantity > 0,
            tracks matches Some(t) ==> exists|i: int| 0 <= i < t@.len() && #[trigger] t@[i].supported,
        ensures
            final(self).same_state(*old(self)),
            final(self).ui@ == old(self).ui@,
            tracks is None ==> pushed_add_track(
                old(self).cmds@,
                final(self).cmds@,
                old(self).playlist.tracks@.len() as int,
                Seq::empty(),
            ),
            tracks matches Some(t) ==> exists|picked: Seq<String>|
                {
                    &&& picked.len() == old(self).random_track_quantity
                    &&& forall|k: int| 0 <= k < picked.len() ==> is_supported_path(t@, #[trigger] picked[k])
                    &&& pushed_add_track(
                        old(self).cmds@,
                        final(self).cmds@,
                        old(self).playlist.tracks@.len() as int,
                        path_sources(picked),
                    )
                },
    {
        let picked = match tracks {
            Some(t) => playlist_get_random_tracks(t, self.random_track_quantity),
            None => Vec::new(),
        };
        proof {
            if tracks is None {
                assert(path_sources(picked@) =~= Seq::<TrackSource>::empty());
            }
        }
        self.playlist_add_all_from_db(&picked);
    }

    /// Add all tracks of a random album with at least `random_album_min_quantity`
    /// tracks to the playlist; `albums` is what the database gave (each
    /// album's tracks), none when asking it failed, in which case an empty add
    /// is sent.
    pub fn playlist_add_random_album(&mut self, albums: Option<&Vec<Vec<String>>>)
        requires
            albums matches Some(a) ==> exists|i: int|
                0 <= i < a@.len() && #[trigger] a@[i]@.len() >= old(self).random_album_min_quantity,
        ensures
            final(self).same_state(*old(self)),
            final(self).ui@ == old(self).ui@,
            albums is None ==> pushed_add_track(
                old(self).cmds@,
                final(self).cmds@,
                old(self).playlist.tracks@.len() as int,
                Seq::empty(),
            ),
            albums matches Some(a) ==> exists|picked: Seq<String>|
                {
                    &&& exists|i: int|
                        0 <= i < a@.len() && #[trigger] a@[i]@.len() >= old(
                            self,
                        ).random_album_min_quantity && picked == a@[i]@
                    &&& pushed_add_track(
                        old(self).cmds@,
                        final(self).cmds@,
                        old(self).playlist.tracks@.len() as int,
                        path_sources(picked),
                    )
                },
    {
        let picked = match albums {
            Some(a) => playlist_get_random_album_tracks(a, self.random_album_min_quantity),
            None => Vec::new(),
        };
        proof {
            if albums is None {
                assert(path_sources(picked@) =~= Seq::<TrackSource>::empty());
            }
        }
        self.playlist_add_all_from_db(&picked);
    }

    /// The title update that describes the current playlist.
    pub open spec fn title_action(self) -> UiAction {
        UiAction::SetPlaylistTitle {
            tracks: self.playlist.tracks@.len() as usize,
            total_ms: total_duration(self.playlist.tracks@) as u64,
            loop_mode: self.playlist.loop_mode,
            loop_symbol: self.use_loop_mode_symbol,
        }
    }

    /// The total duration of the playlist fits in a `u64` of milliseconds.
    pub open spec fn durations_fit(self) -> bool {
        total_duration(self.playlist.tracks@) <= u64::MAX
    }

    /// Set the playlist title from the number of tracks, their total duration and the loop mode.
    pub fn playlist_update_title(&mut self)
        requires
            old(self).durations_fit(),
        ensures
            final(self).same_state(*old(self)),
            final(self).cmds@ == old(self).cmds@,
            final(self).ui@ == old(self).ui@.push(old(self).title_action()),
    {
        let n = self.playlist.tracks.len();
        let mut total: u64 = 0;
        let mut i: usize = 0;
        while i < n
            invariant
                n == self.playlist.tracks@.len(),
                i <= n,
                total == total_duration(self.playlist.tracks@.take(i as int)),
                total_duration(self.playlist.tracks@) <= u64::MAX,
            decreases n - i,
        {
            proof {
                assert(self.playlist.tracks@.take(i + 1).drop_last() =~= self.playlist.tracks@.take(
                    i as int,
                ));
                lemma_total_duration_prefix(self.playlist.tracks@, i + 1);
            }
            match self.playlist.tracks[i].duration_ms {
                Some(d) => {
                    total = total + d;
                },
                None => {},
            }
            i = i + 1;
        }
        proof {
            assert(self.playlist.tracks@.take(n as int) =~= self.playlist.tracks@);
        }
        let action = UiAction::SetPlaylistTitle {
            tracks: n,
            total_ms: total,
            loop_mode: self.playlist.loop_mode,
            loop_symbol: self.use_loop_mode_symbol,
        };
        self.ui.push(action);
    }

    /// Bring the playlist view up to date with the playlist: its title.
    pub fn playlist_sync(&mut self)
        requires
            old(self).durations_fit(),
        ensures
            final(self).same_state(*old(self)),
            final(self).cmds@ == old(self).cmds@,
            final(self).ui@ == old(self).ui@.push(old(self).title_action()),
    {
        self.playlist_update_title();
    }

    /// Show the columns that belong to the current layout, then sync the view.
    pub fn playlist_switch_layout(&mut self)
        requires
            old(self).durations_fit(),
        ensures
            final(self).same_state(*old(self)),
            final(self).cmds@ == old(self).cmds@,
            final(self).ui@ == old(self).ui@.push(
                UiAction::SetPlaylistColumns(columns_for(old(self).layout)),
            ).push(old(self).title_action()),
    {
        let columns = match self.layout {
            TermusicLayout::Podcast => PlaylistColumns::Podcast,
            _ => PlaylistColumns::Music,
        };
        self.ui.push(UiAction::SetPlaylistColumns(columns));
        self.playlist_sync();
    }

    /// Remount the playlist view, show the columns of the layout and sync it.
    pub fn playlist_reload(&mut self)
        requires
            old(self).durations_fit(),
        ensures
            final(self).same_state(*old(self)),
            final(self).cmds@ == old(self).cmds@,
            final(self).ui@ == old(self).ui@.push(UiAction::Remount(Id::Playlist)).push(
                UiAction::SetPlaylistColumns(columns_for(old(self).layout)),
            ).push(old(self).title_action()).push(old(self).title_action()),
    {
        self.ui.push(UiAction::Remount(Id::Playlist));
        self.playlist_switch_layout();
        self.playlist_sync();
    }

    /// Ask the server to swap two tracks; nothing happens if either index is out of bounds.
    fn playlist_swap(&mut self, index_a: usize, index_b: usize)
        ensures
            final(self).same_state(*old(self)),
            final(self).ui@ == old(self).ui@,
            final(self).cmds@ == if index_a < old(self).playlist.tracks@.len() && index_b
                < old(self).playlist.tracks@.len() {
                old(self).cmds@.push(TuiCmd::Playlist(PlaylistCmd::SwapTrack { index_a, index_b }))
            } else {
                old(self).cmds@
            },
    {
        let len = self.playlist.tracks.len();
        let top = if index_a > index_b {
            index_a
        } else {
            index_b
        };
        if top >= len {
            return ;
        }
        self.cmds.push(TuiCmd::Playlist(PlaylistCmd::SwapTrack { index_a, index_b }));
    }

    /// Swap the track at `index` with the one above it; nothing happens for the
    /// first track or an index out of bounds.
    pub fn playlist_swap_up(&mut self, index: usize)
        ensures
            final(self).same_state(*old(self)),
            final(self).ui@ == old(self).ui@,
            final(self).cmds@ == if 0 < index < old(self).playlist.tracks@.len() {
                old(self).cmds@.push(
                    TuiCmd::Playlist(
                        PlaylistCmd::SwapTrack { index_a: index, index_b: (index - 1) as usize },
                    ),
                )
            } else {
                old(self).cmds@
            },
    {
        if index == 0 {
            return ;
        }
        self.playlist_swap(index, index - 1);
    }

    /// Swap the track at `index` with the one below it; nothing happens for the
    /// last track or an index out of bounds.
    pub fn playlist_swap_down(&mut self, index: usize)
        ensures
            final(self).same_state(*old(self)),
            final(self).ui@ == old(self).ui@,
            final(self).cmds@ == if index + 1 < old(self).playlist.tracks@.len() {
                old(self).cmds@.push(
                    TuiCmd::Playlist(
                        PlaylistCmd::SwapTrack { index_a: index, index_b: (index + 1) as usize },
                    ),
                )
            } else {
                old(self).cmds@
            },
    {
        let len = self.playlist.tracks.len();
        let last = if len > 0 {
            len - 1
        } else {
            0
        };
        if index >= last {
            return ;
        }
        self.playlist_swap(index, index + 1);
    }

    /// Ask the server to remove the track at `index`; nothing happens if it is out of bounds.
    pub fn playlist_delete_item(&mut self, index: usize)
        ensures
            final(self).same_state(*old(self)),
            final(self).ui@ == old(self).ui@,
            final(self).cmds@ == if index < old(self).playlist.tracks@.len() {
                old(self).cmds@.push(
                    TuiCmd::Playlist(
                        PlaylistCmd::RemoveTrack {
                            index,
                            source: old(self).playlist.tracks@[index as int].source,
                        },
                    ),
                )
            } else {
                old(self).cmds@
            },
    {
        if self.playlist.tracks.len() == 0 || index >= self.playlist.tracks.len() {
            return ;
        }
        let source = self.playlist.tracks[index].source.duplicate();
        self.cmds.push(TuiCmd::Playlist(PlaylistCmd::RemoveTrack { index, source }));
    }

    /// Ask the server to clear the playlist, unless it is empty already.
    pub fn playlist_clear(&mut self)
        ensures
            final(self).same_state(*old(self)),
            final(self).ui@ == old(self).ui@,
            final(self).cmds@ == if old(self).playlist.tracks@.len() > 0 {
                old(self).cmds@.push(TuiCmd::Playlist(PlaylistCmd::Clear))
            } else {
                old(self).cmds@
            },
    {
        if self.playlist.tracks.len() == 0 {
            return ;
        }
        self.cmds.push(TuiCmd::Playlist(PlaylistCmd::Clear));
    }

    /// Ask the server to shuffle the playlist.
    pub fn playlist_shuffle(&mut self)
        ensures
            final(self).same_state(*old(self)),
            final(self).ui@ == old(self).ui@,
            final(self).cmds@ == old(self).cmds@.push(TuiCmd::Playlist(PlaylistCmd::Shuffle)),
    {
        self.cmds.push(TuiCmd::Playlist(PlaylistCmd::Shuffle));
    }

    /// Ask the server to drop the tracks whose files were deleted.
    pub fn playlist_update_library_delete(&mut self)
        ensures
            final(self).same_state(*old(self)),
            final(self).ui@ == old(self).ui@,
            final(self).cmds@ == old(self).cmds@.push(
                TuiCmd::Playlist(PlaylistCmd::RemoveDeletedItems),
            ),
    {
        self.cmds.push(TuiCmd::Playlist(PlaylistCmd::RemoveDeletedItems));
    }

    /// Ask the server to play the track at `index`; nothing happens if it is out of bounds.
    pub fn playlist_play_selected(&mut self, index: usize)
        ensures
            final(self).same_state(*old(self)),
            final(self).ui@ == old(self).ui@,
            final(self).cmds@ == if index < old(self).playlist.tracks@.len() {
                old(self).cmds@.push(
                    TuiCmd::Playlist(
                        PlaylistCmd::PlaySpecific {
                            index,
                            source: old(self).playlist.tracks@[index as int].source,
                        },
                    ),
                )
            } else {
                old(self).cmds@
            },
    {
        if index >= self.playlist.tracks.len() {
            return ;
        }
        let source = self.playlist.tracks[index].source.duplicate();
        self.cmds.push(TuiCmd::Playlist(PlaylistCmd::PlaySpecific { index, source }));
    }

    /// Search the playlist for `input` and show the matching tracks.
    pub fn playlist_update_search(&mut self, input: &str)
        ensures
            final(self).same_state(*old(self)),
            final(self).cmds@ == old(self).cmds@,
            pushed_search_show(
                old(self).ui@,
                final(self).ui@,
                SearchSource::Playlist,
                matching_indices(old(self).playlist.tracks@, search_pattern(input@)),
            ),
    {
        let rows = Model::update_search(&self.playlist.tracks, input);
        let ghost before = self.ui@;
        self.ui.push(UiAction::GeneralSearchShow(SearchSource::Playlist, rows));
        proof {
            assert(self.ui@.drop_last() =~= before);
        }
    }

    /// Search the tracks of the database for `input` and show the matching ones.
    pub fn database_update_search(&mut self, db_tracks: &Vec<PlaylistTrack>, input: &str)
        ensures
            final(self).same_state(*old(self)),
            final(self).cmds@ == old(self).cmds@,
            pushed_search_show(
                old(self).ui@,
                final(self).ui@,
                SearchSource::Database,
                matching_indices(db_tracks@, search_pattern(input@)),
            ),
    {
        let rows = Model::update_search(db_tracks, input);
        let ghost before = self.ui@;
        self.ui.push(UiAction::GeneralSearchShow(SearchSource::Database, rows));
        proof {
            assert(self.ui@.drop_last() =~= before);
        }
    }

    /// Select `index` in the playlist table.
    pub fn playlist_locate(&mut self, index: usize)
        ensures
            final(self).playlist == old(self).playlist,
            final(self).playlist_selected == Some(index),
            final(self).same_settings(*old(self)),
            final(self).config_editor == old(self).config_editor,
            final(self).dw == old(self).dw,
            final(self).lyric_line == old(self).lyric_line,
            final(self).cmds@ == old(self).cmds@,
            final(self).ui@ == old(self).ui@.push(UiAction::SelectPlaylistRow(index)),
    {
        self.playlist_selected = Some(index);
        self.ui.push(UiAction::SelectPlaylistRow(index));
    }

    /// The server cleared the playlist: empty it here, reset the table and sync the view.
    pub fn handle_playlist_clear(&mut self)
        ensures
            final(self).playlist.tracks@.len() == 0,
            final(self).playlist.current_track_index is None,
            final(self).playlist.loop_mode == old(self).playlist.loop_mode,
            final(self).playlist_selected is None,
            final(self).same_settings(*old(self)),
            final(self).config_editor == old(self).config_editor,
            final(self).dw == old(self).dw,
            final(self).lyric_line == old(self).lyric_line,
            final(self).cmds@ == old(self).cmds@,
            final(self).ui@ == old(self).ui@.push(UiAction::ResetPlaylistTable).push(
                final(self).title_action(),
            ),
    {
        self.playlist.tracks = Vec::new();
        self.playlist.current_track_index = None;
        self.playlist_selected = None;
        self.ui.push(UiAction::ResetPlaylistTable);
        proof {
            assert(self.playlist.tracks@ =~= Seq::<PlaylistTrack>::empty());
        }
        self.playlist_sync();
    }

    /// The server reports `current_track_index` as the current track. The index
    /// is taken if it is in bounds; the table selection follows it when asked to
    /// (`force_relocate`), or when there was a current track and the selection
    /// was on it or nowhere. The playing position goes back to the start, and
    /// the views follow the new current track.
    pub fn handle_current_track_index(&mut self, current_track_index: usize, force_relocate: bool)
        ensures
            final(self).playlist.tracks == old(self).playlist.tracks,
            final(self).playlist.loop_mode == old(self).playlist.loop_mode,
            final(self).playlist.current_track_index == if current_track_index
                < old(self).playlist.tracks@.len() {
                Some(current_track_index)
            } else {
                old(self).playlist.current_track_index
            },
            final(self).playlist_selected == if follows_current(
                force_relocate,
                old(self).playlist.current_track_index,
                old(self).playlist_selected,
            ) {
                Some(current_track_index)
            } else {
                old(self).playlist_selected
            },
            final(self).current_track_pos_ms == 0,
            final(self).same_layout_and_quantities(*old(self)),
            final(self).config_editor == old(self).config_editor,
            final(self).dw == old(self).dw,
            final(self).lyric_line == old(self).lyric_line,
            final(self).cmds@ == old(self).cmds@,
            final(self).ui@ == if follows_current(
                force_relocate,
                old(self).playlist.current_track_index,
                old(self).playlist_selected,
            ) {
                old(self).ui@.push(UiAction::SelectPlaylistRow(current_track_index)).push(
                    UiAction::CurrentTrackChanged,
                )
            } else {
                old(self).ui@.push(UiAction::CurrentTrackChanged)
            },
    {
        let old_current = self.playlist.current_track_index;
        if current_track_index < self.playlist.tracks.len() {
            self.playlist.current_track_index = Some(current_track_index);
        }
        let selected = self.playlist_selected;
        let relocate = force_relocate || match old_current {
            Some(old_index) => match selected {
                None => true,
                Some(v) => v == old_index,
            },
            None => false,
        };
        if relocate {
            self.playlist_locate(current_track_index);
        }
        self.current_track_pos_ms = 0;
        self.ui.push(UiAction::CurrentTrackChanged);
    }

    /// The first index of a track with this source in the playlist.
    pub fn playlist_find_source(&self, source: &TrackSource) -> (r: Option<usize>)
        ensures
            match first_index_of_source(self.playlist.tracks@, *source) {
                Some(j) => r == Some(j as usize),
                None => r is None,
            },
    {
        let n = self.playlist.tracks.len();
        let mut i: usize = 0;
        while i < n
            invariant
                n == self.playlist.tracks@.len(),
                i <= n,
                forall|k: int| 0 <= k < i ==> !same_source_spec(self.playlist.tracks@[k].source, *source),
            decreases n - i,
        {
            if same_source(&self.playlist.tracks[i].source, source) {
                proof {
                    let tracks = self.playlist.tracks@;
                    assert(same_source_spec(tracks[i as int].source, *source));
                    let j = choose|j: int|
                        0 <= j < tracks.len() && #[trigger] same_source_spec(tracks[j].source, *source)
                            && forall|k: int| 0 <= k < j ==> !same_source_spec(tracks[k].source, *source);
                    assert(j == i as int) by {
                        if j < i {
                        } else if j > i {
                            assert(same_source_spec(tracks[i as int].source, *source));
                        }
                    }
                }
                return Some(i);
            }
            i = i + 1;
        }
        None
    }

    /// The server shuffled the playlist: take the new order, sync the view, and
    /// keep the selection on the track it was on, found by its source.
    pub fn handle_playlist_shuffled(&mut self, tracks: Vec<PlaylistTrack>)
        requires
            total_duration(tracks@) <= u64::MAX,
        ensures
            final(self).playlist.tracks@ == tracks@,
            final(self).playlist.current_track_index == old(self).playlist.current_track_index,
            final(self).playlist.loop_mode == old(self).playlist.loop_mode,
            final(self).same_settings(*old(self)),
            final(self).config_editor == old(self).config_editor,
            final(self).dw == old(self).dw,
            final(self).lyric_line == old(self).lyric_line,
            final(self).cmds@ == old(self).cmds@,
            ({
                let old_source = match old(self).playlist_selected {
                    Some(s) => if s < old(self).playlist.tracks@.len() {
                        Some(old(self).playlist.tracks@[s as int].source)
                    } else {
                        None
                    },
                    None => None,
                };
                let found = match old_source {
                    Some(src) => first_index_of_source(tracks@, src),
                    None => None,
                };
                let titled = old(self).ui@.push(final(self).title_action());
                match found {
                    Some(j) => final(self).playlist_selected == Some(j as usize)
                        && final(self).ui@ == titled.push(UiAction::SelectPlaylistRow(j as usize)),
                    None => final(self).playlist_selected == old(self).playlist_selected
                        && final(self).ui@ == titled,
                }
            }),
    {
        let old_source = match self.playlist_selected {
            Some(s) => if s < self.playlist.tracks.len() {
                Some(self.playlist.tracks[s].source.duplicate())
            } else {
                None
            },
            None => None,
        };
        self.playlist.tracks = tracks;
        self.playlist_sync();
        if let Some(src) = old_source {
            let found = self.playlist_find_source(&src);
            if let Some(new_index) = found {
                self.playlist_locate(new_index);
            }
        }
    }

    /// Save the playlist to `path` as m3u, asking first when the file exists.
    pub fn playlist_save_m3u_before(&mut self, path: String, file_exists: bool)
        ensures
            final(self).same_state(*old(self)),
            final(self).cmds@ == old(self).cmds@,
            final(self).ui@ == if file_exists {
                old(self).ui@.push(UiAction::MountSavePlaylistConfirm(path))
            } else {
                old(self).save_m3u_actions(path)
            },
    {
        if file_exists {
            self.ui.push(UiAction::MountSavePlaylistConfirm(path));
            return ;
        }
        self.playlist_save_m3u(path);
    }

    /// The view updates that saving the playlist to `path` queues: writing it.
    pub open spec fn save_m3u_actions(self, path: String) -> Seq<UiAction> {
        self.ui@.push(UiAction::SaveM3u(path))
    }

    /// Write the playlist to `path` as m3u; once it is written, see
    /// `playlist_m3u_saved`.
    pub fn playlist_save_m3u(&mut self, path: String)
        ensures
            final(self).same_state(*old(self)),
            final(self).cmds@ == old(self).cmds@,
            final(self).ui@ == old(self).save_m3u_actions(path),
    {
        self.ui.push(UiAction::SaveM3u(path));
    }

    /// Writing the playlist to `path` went as `written`: a failure is handed
    /// back and nothing more is done; else the library is reloaded there and,
    /// when the database view lists playlists, its results are reloaded too.
    pub fn playlist_m3u_saved(&mut self, path: String, written: Result<(), String>) -> (r: Result<(), String>)
        ensures
            final(self).same_state(*old(self)),
            final(self).cmds@ == old(self).cmds@,
            r == written,
            written is Err ==> final(self).ui@ == old(self).ui@,
            written is Ok ==> final(self).ui@ == if old(self).dw.criteria == SearchCriteria::Playlist {
                old(self).ui@.push(UiAction::LibraryReloadAndFocus(path)).push(
                    UiAction::DatabaseUpdateSearchResults,
                )
            } else {
                old(self).ui@.push(UiAction::LibraryReloadAndFocus(path))
            },
    {
        if written.is_err() {
            return written;
        }
        self.ui.push(UiAction::LibraryReloadAndFocus(path));
        if self.dw.criteria == SearchCriteria::Playlist {
            self.ui.push(UiAction::DatabaseUpdateSearchResults);
        }
        written
    }
}

} // verus!

verus! {

/// Why a change that the server reports cannot be applied to the playlist here.
#[derive(Debug, Clone, Copy, PartialEq, Eq, Structural)]
pub enum PlaylistError {
    /// The index lies outside the playlist.
    IndexOutOfBounds,
    /// The track at the index is not the one the server names.
    TrackMismatch,
    /// The loop mode number stands for no loop mode.
    UnknownLoopMode,
}

/// The current track's index after a track was inserted at `at`: it follows its track.
pub open spec fn current_after_insert(cur: Option<usize>, at: int) -> Option<usize> {
    match cur {
        Some(c) => if c >= at {
            Some((c + 1) as usize)
        } else {
            Some(c)
        },
        None => None,
    }
}

/// The current track's index after the track at `at` was removed: it follows
/// its track, and there is none if that was the one removed.
pub open spec fn current_after_remove(cur: Option<usize>, at: int) -> Option<usize> {
    match cur {
        Some(c) => if c == at {
            None
        } else if c > at {
            Some((c - 1) as usize)
        } else {
            Some(c)
        },
        None => None,
    }
}

/// The current track's index after the tracks at `a` and `b` were swapped: it follows its track.
pub open spec fn current_after_swap(cur: Option<usize>, a: usize, b: usize) -> Option<usize> {
    match cur {
        Some(c) => if c == a {
            Some(b)
        } else if c == b {
            Some(a)
        } else {
            Some(c)
        },
        None => None,
    }
}

/// The loop mode a number stands for, in the order the modes are declared.
pub open spec fn loop_mode_of(n: u32) -> Option<LoopMode> {
    if n == 0 {
        Some(LoopMode::Single)
    } else if n == 1 {
        Some(LoopMode::Playlist)
    } else if n == 2 {
        Some(LoopMode::Random)
    } else if n == 3 {
        Some(LoopMode::PlaylistOnce)
    } else {
        None
    }
}

impl TuiPlaylist {
    /// The current track, if any, is one of the playlist's.
    pub open spec fn current_in_bounds(self) -> bool {
        self.current_track_index matches Some(c) ==> c < self.tracks@.len()
    }
}

/// Swapping two entries of a playlist keeps its total duration.
proof fn lemma_swap_keeps_total(s: Seq<PlaylistTrack>, a: int, b: int)
    requires
        0 <= a < s.len(),
        0 <= b < s.len(),
    ensures
        total_duration(s.update(a, s[b]).update(b, s[a])) == total_duration(s),
{
    if a != b {
        let (i, j) = if a < b { (a, b) } else { (b, a) };
        let t = s.update(a, s[b]).update(b, s[a]);
        let p = s.take(i);
        let m = s.subrange(i + 1, j);
        let q = s.skip(j + 1);
        assert(s =~= p + seq![s[i]] + m + seq![s[j]] + q);
        assert(t =~= p + seq![s[j]] + m + seq![s[i]] + q);
        lemma_total_duration_concat(p + seq![s[i]] + m + seq![s[j]], q);
        lemma_total_duration_concat(p + seq![s[i]] + m, seq![s[j]]);
        lemma_total_duration_concat(p + seq![s[i]], m);
        lemma_total_duration_concat(p, seq![s[i]]);
        lemma_total_duration_concat(p + seq![s[j]] + m + seq![s[i]], q);
        lemma_total_duration_concat(p + seq![s[j]] + m, seq![s[i]]);
        lemma_total_duration_concat(p + seq![s[j]], m);
        lemma_total_duration_concat(p, seq![s[j]]);
    } else {
        assert(s.update(a, s[b]).update(b, s[a]) =~= s);
    }
}

/// Exchange the entries at `a` and `b`.
fn swap_entries(v: &mut Vec<PlaylistTrack>, a: usize, b: usize)
    requires
        a < old(v)@.len(),
        b < old(v)@.len(),
    ensures
        final(v)@ == old(v)@.update(a as int, old(v)@[b as int]).update(b as int, old(v)@[a as int]),
{
    if a == b {
        proof {
            assert(v@.update(a as int, v@[b as int]).update(b as int, v@[a as int]) =~= v@);
        }
        return;
    }
    let ghost s = v@;
    let (i, j) = if a < b {
        (a, b)
    } else {
        (b, a)
    };
    let tj = v.remove(j);
    let ti = v.remove(i);
    v.insert(i, tj);
    v.insert(j, ti);
    proof {
        assert(v@ =~= s.update(a as int, s[b as int]).update(b as int, s[a as int]));
    }
}

/// Removing an entry of a playlist never makes its total duration larger.
proof fn lemma_remove_lowers_total(s: Seq<PlaylistTrack>, i: int)
    requires
        0 <= i < s.len(),
    ensures
        total_duration(s.remove(i)) <= total_duration(s),
{
    let p = s.take(i);
    let q = s.skip(i + 1);
    assert(s.remove(i) =~= p + q);
    assert(s =~= p + seq![s[i]] + q);
    lemma_total_duration_concat(p, q);
    lemma_total_duration_concat(p + seq![s[i]], q);
    lemma_total_duration_concat(p, seq![s[i]]);
}

impl Model {
    /// The server inserted `track` at `at_index` of its playlist: insert it
    /// here too and sync the view; an index past the end is an error, and
    /// then nothing changes.
    pub fn handle_playlist_add(&mut self, at_index: usize, track: PlaylistTrack) -> (r: Result<(), PlaylistError>)
        requires
            old(self).playlist.current_in_bounds(),
            at_index <= old(self).playlist.tracks@.len() ==> total_duration(
                old(self).playlist.tracks@.insert(at_index as int, track),
            ) <= u64::MAX,
        ensures
            at_index > old(self).playlist.tracks@.len() ==> r == Err::<(), PlaylistError>(
                PlaylistError::IndexOutOfBounds,
            ) && final(self).same_state(*old(self)) && final(self).ui@ == old(self).ui@,
            at_index <= old(self).playlist.tracks@.len() ==> {
                &&& r is Ok
                &&& final(self).playlist.tracks@ == old(self).playlist.tracks@.insert(at_index as int, track)
                &&& final(self).playlist.current_track_index == current_after_insert(
                    old(self).playlist.current_track_index,
                    at_index as int,
                )
                &&& final(self).playlist.current_in_bounds()
                &&& final(self).playlist.loop_mode == old(self).playlist.loop_mode
                &&& final(self).playlist_selected == old(self).playlist_selected
                &&& final(self).ui@ == old(self).ui@.push(final(self).title_action())
            },
            final(self).same_settings(*old(self)),
            final(self).config_editor == old(self).config_editor,
            final(self).dw == old(self).dw,
            final(self).lyric_line == old(self).lyric_line,
            final(self).cmds@ == old(self).cmds@,
    {
        if at_index > self.playlist.tracks.len() {
            return Err(PlaylistError::IndexOutOfBounds);
        }
        self.playlist.tracks.insert(at_index, track);
        self.playlist.current_track_index = match self.playlist.current_track_index {
            Some(c) => if c >= at_index {
                Some(c + 1)
            } else {
                Some(c)
            },
            None => None,
        };
        self.playlist_sync();
        Ok(())
    }

    /// The server removed the track at `at_index`, naming it by `source`:
    /// remove it here too and sync the view. An index past the end, or a
    /// track there that is another one, is an error, and then nothing changes.
    pub fn handle_playlist_remove(&mut self, at_index: usize, source: &TrackSource) -> (r: Result<(), PlaylistError>)
        requires
            old(self).playlist.current_in_bounds(),
            old(self).durations_fit(),
        ensures
            at_index >= old(self).playlist.tracks@.len() ==> r == Err::<(), PlaylistError>(
                PlaylistError::IndexOutOfBounds,
            ) && final(self).same_state(*old(self)) && final(self).ui@ == old(self).ui@,
            at_index < old(self).playlist.tracks@.len() && !same_source_spec(
                old(self).playlist.tracks@[at_index as int].source,
                *source,
            ) ==> r == Err::<(), PlaylistError>(PlaylistError::TrackMismatch) && final(self).same_state(
                *old(self),
            ) && final(self).ui@ == old(self).ui@,
            at_index < old(self).playlist.tracks@.len() && same_source_spec(
                old(self).playlist.tracks@[at_index as int].source,
                *source,
            ) ==> {
                &&& r is Ok
                &&& final(self).playlist.tracks@ == old(self).playlist.tracks@.remove(at_index as int)
                &&& final(self).playlist.current_track_index == current_after_remove(
                    old(self).playlist.current_track_index,
                    at_index as int,
                )
                &&& final(self).playlist.current_in_bounds()
                &&& final(self).playlist.loop_mode == old(self).playlist.loop_mode
                &&& final(self).playlist_selected == old(self).playlist_selected
                &&& final(self).ui@ == old(self).ui@.push(final(self).title_action())
            },
            final(self).same_settings(*old(self)),
            final(self).config_editor == old(self).config_editor,
            final(self).dw == old(self).dw,
            final(self).lyric_line == old(self).lyric_line,
            final(self).cmds@ == old(self).cmds@,
    {
        if at_index >= self.playlist.tracks.len() {
            return Err(PlaylistError::IndexOutOfBounds);
        }
        if !same_source(&self.playlist.tracks[at_index].source, source) {
            return Err(PlaylistError::TrackMismatch);
        }
        proof {
            lemma_remove_lowers_total(self.playlist.tracks@, at_index as int);
        }
        self.playlist.tracks.remove(at_index);
        self.playlist.current_track_index = match self.playlist.current_track_index {
            Some(c) => if c == at_index {
                None
            } else if c > at_index {
                Some(c - 1)
            } else {
                Some(c)
            },
            None => None,
        };
        self.playlist_sync();
        Ok(())
    }

    /// The server swapped the tracks at `index_a` and `index_b`: swap them
    /// here too and sync the view; an index past the end is an error, and then
    /// nothing changes.
    pub fn handle_playlist_swap_tracks(&mut self, index_a: usize, index_b: usize) -> (r: Result<(), PlaylistError>)
        requires
            old(self).playlist.current_in_bounds(),
            old(self).durations_fit(),
        ensures
            (index_a >= old(self).playlist.tracks@.len() || index_b >= old(self).playlist.tracks@.len())
                ==> r == Err::<(), PlaylistError>(PlaylistError::IndexOutOfBounds) && final(self).same_state(
                *old(self),
            ) && final(self).ui@ == old(self).ui@,
            index_a < old(self).playlist.tracks@.len() && index_b < old(self).playlist.tracks@.len() ==> {
                let t = old(self).playlist.tracks@;
                &&& r is Ok
                &&& final(self).playlist.tracks@ == t.update(index_a as int, t[index_b as int]).update(
                    index_b as int,
                    t[index_a as int],
                )
                &&& final(self).playlist.current_track_index == current_after_swap(
                    old(self).playlist.current_track_index,
                    index_a,
                    index_b,
                )
                &&& final(self).playlist.current_in_bounds()
                &&& final(self).playlist.loop_mode == old(self).playlist.loop_mode
                &&& final(self).playlist_selected == old(self).playlist_selected
                &&& final(self).ui@ == old(self).ui@.push(final(self).title_action())
            },
            final(self).same_settings(*old(self)),
            final(self).config_editor == old(self).config_editor,
            final(self).dw == old(self).dw,
            final(self).lyric_line == old(self).lyric_line,
            final(self).cmds@ == old(self).cmds@,
    {
        let n = self.playlist.tracks.len();
        if index_a >= n || index_b >= n {
            return Err(PlaylistError::IndexOutOfBounds);
        }
        proof {
            lemma_swap_keeps_total(self.playlist.tracks@, index_a as int, index_b as int);
        }
        swap_entries(&mut self.playlist.tracks, index_a, index_b);
        self.playlist.current_track_index = match self.playlist.current_track_index {
            Some(c) => if c == index_a {
                Some(index_b)
            } else if c == index_b {
                Some(index_a)
            } else {
                Some(c)
            },
            None => None,
        };
        self.playlist_sync();
        Ok(())
    }

    /// The server changed the loop mode to the one numbered `mode`: take it,
    /// update the playlist title and draw again. A number that stands for no
    /// loop mode is an error, and then nothing changes.
    pub fn handle_playlist_loopmode(&mut self, mode: u32) -> (r: Result<(), PlaylistError>)
        requires
            old(self).durations_fit(),
        ensures
            loop_mode_of(mode) is None ==> r == Err::<(), PlaylistError>(PlaylistError::UnknownLoopMode)
                && final(self).same_state(*old(self)) && final(self).ui@ == old(self).ui@,
            loop_mode_of(mode) matches Some(m) ==> {
                &&& r is Ok
                &&& final(self).playlist.loop_mode == m
                &&& final(self).playlist.tracks == old(self).playlist.tracks
                &&& final(self).playlist.current_track_index == old(self).playlist.current_track_index
                &&& final(self).playlist_selected == old(self).playlist_selected
                &&& final(self).ui@ == old(self).ui@.push(final(self).title_action()).push(UiAction::Redraw)
            },
            final(self).same_settings(*old(self)),
            final(self).config_editor == old(self).config_editor,
            final(self).dw == old(self).dw,
            final(self).lyric_line == old(self).lyric_line,
            final(self).cmds@ == old(self).cmds@,
    {
        let m = if mode == 0 {
            LoopMode::Single
        } else if mode == 1 {
            LoopMode::Playlist
        } else if mode == 2 {
            LoopMode::Random
        } else if mode == 3 {
            LoopMode::PlaylistOnce
        } else {
            return Err(PlaylistError::UnknownLoopMode);
        };
        self.playlist.loop_mode = m;
        self.playlist_update_title();
        self.ui.push(UiAction::Redraw);
        Ok(())
    }
}

} // verus!

verus! {

/// Swapping the same two tracks twice gives back the playlist and its current track.
pub proof fn lemma_swap_twice_restores(t: Seq<PlaylistTrack>, cur: Option<usize>, a: usize, b: usize)
    requires
        a < t.len(),
        b < t.len(),
    ensures
        ({
            let t1 = t.update(a as int, t[b as int]).update(b as int, t[a as int]);
            t1.update(a as int, t1[b as int]).update(b as int, t1[a as int]) == t
        }),
        current_after_swap(current_after_swap(cur, a, b), a, b) == cur,
{
    let t1 = t.update(a as int, t[b as int]).update(b as int, t[a as int]);
    assert(t1.update(a as int, t1[b as int]).update(b as int, t1[a as int]) =~= t);
}

/// Swapping the tracks at `a` and `b` keeps the current-track marker on the
/// track it was on, and swapping `a` with `b` is swapping `b` with `a`: the
/// same tracks result and the same current index.
pub proof fn lemma_swap_current_follows_track(t: Seq<PlaylistTrack>, cur: Option<usize>, a: usize, b: usize)
    requires
        a < t.len(),
        b < t.len(),
        cur matches Some(c) ==> c < t.len(),
    ensures
        ({
            let t1 = t.update(a as int, t[b as int]).update(b as int, t[a as int]);
            let t2 = t.update(b as int, t[a as int]).update(a as int, t[b as int]);
            &&& t1 == t2
            &&& current_after_swap(cur, a, b) == current_after_swap(cur, b, a)
            &&& (current_after_swap(cur, a, b) is Some <==> cur is Some)
            &&& cur matches Some(c) ==> (current_after_swap(cur, a, b) matches Some(c1) && c1 < t1.len()
                && t1[c1 as int] == t[c as int])
        }),
{
    let t1 = t.update(a as int, t[b as int]).update(b as int, t[a as int]);
    let t2 = t.update(b as int, t[a as int]).update(a as int, t[b as int]);
    assert(t1 =~= t2);
}

/// Inserting a track and then removing the track at the same index gives back
/// the playlist and its current track.
pub proof fn lemma_insert_then_remove_restores(
    t: Seq<PlaylistTrack>,
    cur: Option<usize>,
    at: int,
    track: PlaylistTrack,
)
    requires
        0 <= at <= t.len(),
        t.len() <= usize::MAX,
        cur matches Some(c) ==> c < t.len(),
    ensures
        t.insert(at, track).remove(at) == t,
        current_after_remove(current_after_insert(cur, at), at) == cur,
{
    assert(t.insert(at, track).remove(at) =~= t);
}

} // verus!

verus! {

/// The source an entry of a playlist file stands for: a stream when the entry
/// starts with `http`, else a file.
pub open spec fn entry_source(e: String) -> TrackSource {
    if e@.len() >= 4 && e@.take(4) == "http"@ {
        TrackSource::Url(e)
    } else {
        TrackSource::Path(e)
    }
}

/// The sources the entries of a playlist file stand for.
pub open spec fn entry_sources(es: Seq<String>) -> Seq<TrackSource> {
    es.map_values(|e: String| entry_source(e))
}

/// The source a path added on its own stands for: a stream when its first
/// component is `http`, else a file.
pub open spec fn item_source(p: String) -> TrackSource {
    if path_starts_with(p@, "http"@) {
        TrackSource::Url(p)
    } else {
        TrackSource::Path(p)
    }
}

/// Whether `s` starts with the text `http`.
fn starts_with_http(s: &str) -> (r: bool)
    ensures
        r == (s@.len() >= 4 && s@.take(4) == "http"@),
{
    if s.unicode_len() < 4 {
        return false;
    }
    let head = s.substring_char(0, 4);
    proof {
        assert(s@.subrange(0, 4) =~= s@.take(4));
    }
    same_text(head, "http")
}

/// The source an entry of a playlist file stands for; see `entry_source`.
fn source_of_entry(e: &String) -> (r: TrackSource)
    ensures
        r == entry_source(*e),
{
    if starts_with_http(e.as_str()) {
        TrackSource::Url(e.clone())
    } else {
        TrackSource::Path(e.clone())
    }
}

/// The sources the entries of a playlist file stand for; see `entry_sources`.
fn sources_of_entries(es: &Vec<String>) -> (r: Vec<TrackSource>)
    ensures
        r@ == entry_sources(es@),
{
    let mut r: Vec<TrackSource> = Vec::new();
    let mut i: usize = 0;
    while i < es.len()
        invariant
            i <= es@.len(),
            r@ == entry_sources(es@.take(i as int)),
        decreases es@.len() - i,
    {
        r.push(source_of_entry(&es[i]));
        proof {
            assert(entry_sources(es@.take(i + 1)) =~= entry_sources(es@.take(i as int)).push(
                entry_source(es@[i as int]),
            ));
        }
        i = i + 1;
    }
    proof {
        assert(es@.take(i as int) =~= es@);
    }
    r
}

/// The sources a path added on its own gives: the entries of the playlist
/// file it is, when they are given, else the path itself.
pub open spec fn item_sources(path: String, playlist_entries: Option<&Vec<String>>) -> Seq<TrackSource> {
    match playlist_entries {
        Some(es) => entry_sources(es@),
        None => seq![item_source(path)],
    }
}

impl Model {
    /// Add the entries of a playlist file, `entries`, at the end of the playlist.
    pub fn playlist_add_playlist(&mut self, entries: &Vec<String>)
        ensures
            final(self).same_state(*old(self)),
            final(self).ui@ == old(self).ui@,
            pushed_add_track(
                old(self).cmds@,
                final(self).cmds@,
                old(self).playlist.tracks@.len() as int,
                entry_sources(entries@),
            ),
    {
        let sources = sources_of_entries(entries);
        let at = self.playlist.tracks.len();
        let ghost before = self.cmds@;
        self.cmds.push(TuiCmd::Playlist(PlaylistCmd::AddTrack { at_index: at, tracks: sources }));
        proof {
            assert(self.cmds@.drop_last() =~= before);
        }
    }

    /// Add a path at the end of the playlist: the entries of the playlist file
    /// it is, when `playlist_entries` holds them, else the path itself.
    pub fn playlist_add_item(&mut self, path: String, playlist_entries: Option<&Vec<String>>)
        ensures
            final(self).same_state(*old(self)),
            final(self).ui@ == old(self).ui@,
            pushed_add_track(
                old(self).cmds@,
                final(self).cmds@,
                old(self).playlist.tracks@.len() as int,
                item_sources(path, playlist_entries),
            ),
    {
        let ghost p0 = path;
        match playlist_entries {
            Some(es) => {
                self.playlist_add_playlist(es);
            },
            None => {
                let source = if starts_with(path.as_str(), "http") {
                    TrackSource::Url(path)
                } else {
                    TrackSource::Path(path)
                };
                assert(source == item_source(p0));
                let at = self.playlist.tracks.len();
                let ghost before = self.cmds@;
                let tracks = vec![source];
                assert(tracks@ =~= item_sources(p0, playlist_entries));
                self.cmds.push(TuiCmd::Playlist(PlaylistCmd::AddTrack { at_index: at, tracks }));
                proof {
                    assert(self.cmds@.drop_last() =~= before);
                }
            },
        }
    }
}

} // verus!

verus! {

impl Model {
    /// Add `path` to the playlist, if it `exists`: a directory adds its
    /// entries, `dir_entries`, in the order the library lists them (see
    /// `library::dir_children`); anything
    /// else is added as an item (see `playlist_add_item`), and then the view
    /// is synced.
    pub fn playlist_add(
        &mut self,
        path: String,
        exists: bool,
        dir_entries: Option<&Vec<String>>,
        playlist_entries: Option<&Vec<String>>,
    )
        requires
            old(self).durations_fit(),
        ensures
            final(self).same_state(*old(self)),
            !exists ==> final(self).cmds@ == old(self).cmds@ && final(self).ui@ == old(self).ui@,
            exists && dir_entries is Some ==> final(self).ui@ == old(self).ui@ && pushed_add_track(
                old(self).cmds@,
                final(self).cmds@,
                old(self).playlist.tracks@.len() as int,
                path_sources(dir_entries->0@),
            ),
            exists && dir_entries is None ==> final(self).ui@ == old(self).ui@.push(old(self).title_action())
                && pushed_add_track(
                old(self).cmds@,
                final(self).cmds@,
                old(self).playlist.tracks@.len() as int,
                item_sources(path, playlist_entries),
            ),
    {
        if !exists {
            return;
        }
        match dir_entries {
            Some(es) => self.playlist_add_all_from_db(es),
            None => {
                self.playlist_add_item(path, playlist_entries);
                self.playlist_sync();
            },
        }
    }

    /// Add episode `episode_index` of the selected podcast to the playlist,
    /// by its URL. With no podcasts nothing happens; a selection past the lists
    /// is an error, and then nothing happens either.
    pub fn playlist_add_episode(&mut self, ps: &Vec<PodcastInfo>, podcasts_index: usize, episode_index: usize) -> (r:
        Result<(), PodcastError>)
        ensures
            final(self).same_state(*old(self)),
            final(self).ui@ == old(self).ui@,
            ps@.len() == 0 ==> r is Ok && final(self).cmds@ == old(self).cmds@,
            ps@.len() > 0 && podcasts_index >= ps@.len() ==> r == Err::<(), PodcastError>(
                PodcastError::PodcastMissing,
            ) && final(self).cmds@ == old(self).cmds@,
            ps@.len() > 0 && podcasts_index < ps@.len() && episode_index >= ps@[podcasts_index as int].episodes@.len()
                ==> r == Err::<(), PodcastError>(PodcastError::EpisodeMissing) && final(self).cmds@ == old(
                self,
            ).cmds@,
            has_episode(ps@, podcasts_index as int, episode_index as int) ==> {
                &&& r is Ok
                &&& final(self).cmds@.len() == old(self).cmds@.len() + 1
                &&& final(self).cmds@.drop_last() == old(self).cmds@
                &&& final(self).cmds@.last() matches TuiCmd::Playlist(PlaylistCmd::AddTrack { at_index, tracks })
                    && at_index == old(self).playlist.tracks@.len() && tracks@.len() == 1 && (
                tracks@[0] matches TrackSource::PodcastUrl(u) && u@
                    == ps@[podcasts_index as int].episodes@[episode_index as int].url@)
            },
    {
        if ps.len() == 0 {
            return Ok(());
        }
        if podcasts_index >= ps.len() {
            return Err(PodcastError::PodcastMissing);
        }
        let pod = &ps[podcasts_index];
        if episode_index >= pod.episodes.len() {
            return Err(PodcastError::EpisodeMissing);
        }
        let url = pod.episodes[episode_index].url.clone();
        let at = self.playlist.tracks.len();
        let ghost before = self.cmds@;
        self.cmds.push(
            TuiCmd::Playlist(PlaylistCmd::AddTrack { at_index: at, tracks: vec![TrackSource::PodcastUrl(url)] }),
        );
        proof {
            assert(self.cmds@.drop_last() =~= before);
        }
        Ok(())
    }
}

/// What the playlist view asks for.
#[derive(Debug, PartialEq, Eq)]
pub enum PlaylistViewMsg {
    /// Hand the focus to the next view.
    BlurDown,
    /// Hand the focus to the previous view.
    BlurUp,
    /// Remove the track at this row.
    Delete(usize),
    DeleteAll,
    Shuffle,
    LoopModeCycle,
    /// Play the track at this row.
    PlaySelected(usize),
    /// Open the search popup over the playlist.
    ShowSearch,
    /// Swap the track at this row with the next one.
    SwapDown(usize),
    /// Swap the track at this row with the previous one.
    SwapUp(usize),
    AddRandomAlbum,
    AddRandomTracks,
}

/// What the playlist view does with a key.
#[derive(Debug, PartialEq, Eq)]
pub enum PlaylistViewReaction {
    /// Run the command on the table; a change redraws.
    Perform(TableCmd),
    Send(PlaylistViewMsg),
    /// Run the command on the table, then send.
    PerformThenSend(TableCmd, PlaylistViewMsg),
    Nothing,
}

/// Shift with the back-tab key.
pub open spec fn shift_back_tab(p: KeyBindingView) -> bool {
    p.code == "BackTab"@ && p.modifiers == (KeyModifierSet { shift: true, control: false, alt: false })
}

/// A message about the selected row, when there is one.
pub open spec fn on_selected(selected: Option<usize>, msg: spec_fn(usize) -> PlaylistViewMsg) -> PlaylistViewReaction {
    match selected {
        Some(i) => PlaylistViewReaction::Send(msg(i)),
        None => PlaylistViewReaction::Nothing,
    }
}

/// What the playlist view does with a key press, `selected` being its
/// selected row, trying in order: the plain down and up keys, the configured
/// down and up keys, the plain page keys, the configured top and bottom keys,
/// plain home and end move the selection; tab and shift with back-tab hand the
/// focus on; then the configured playlist keys, with plain enter playing the
/// selected row after the configured play key; a swap first moves the
/// selection along with the track. The keys that name a row do nothing
/// without a selection.
pub open spec fn playlist_view_reaction(p: KeyBindingView, keys: KeyConfig, selected: Option<usize>) -> PlaylistViewReaction {
    if plain_key(p, "Down"@) {
        PlaylistViewReaction::Perform(TableCmd::Move(Direction::Down))
    } else if plain_key(p, "Up"@) {
        PlaylistViewReaction::Perform(TableCmd::Move(Direction::Up))
    } else if bound_to(keys, IdKey::Global(IdKeyGlobal::Down), p) {
        PlaylistViewReaction::Perform(TableCmd::Move(Direction::Down))
    } else if bound_to(keys, IdKey::Global(IdKeyGlobal::Up), p) {
        PlaylistViewReaction::Perform(TableCmd::Move(Direction::Up))
    } else if plain_key(p, "PageDown"@) {
        PlaylistViewReaction::Perform(TableCmd::Scroll(Direction::Down))
    } else if plain_key(p, "PageUp"@) {
        PlaylistViewReaction::Perform(TableCmd::Scroll(Direction::Up))
    } else if bound_to(keys, IdKey::Global(IdKeyGlobal::GotoTop), p) {
        PlaylistViewReaction::Perform(TableCmd::GoTo(Position::Begin))
    } else if bound_to(keys, IdKey::Global(IdKeyGlobal::GotoBottom), p) {
        PlaylistViewReaction::Perform(TableCmd::GoTo(Position::End))
    } else if plain_key(p, "Home"@) {
        PlaylistViewReaction::Perform(TableCmd::GoTo(Position::Begin))
    } else if plain_key(p, "End"@) {
        PlaylistViewReaction::Perform(TableCmd::GoTo(Position::End))
    } else if plain_key(p, "Tab"@) {
        PlaylistViewReaction::Send(PlaylistViewMsg::BlurDown)
    } else if shift_back_tab(p) {
        PlaylistViewReaction::Send(PlaylistViewMsg::BlurUp)
    } else if bound_to(keys, IdKey::Other(IdKeyOther::PlaylistDelete), p) {
        on_selected(selected, |i: usize| PlaylistViewMsg::Delete(i))
    } else if bound_to(keys, IdKey::Other(IdKeyOther::PlaylistDeleteAll), p) {
        PlaylistViewReaction::Send(PlaylistViewMsg::DeleteAll)
    } else if bound_to(keys, IdKey::Other(IdKeyOther::PlaylistShuffle), p) {
        PlaylistViewReaction::Send(PlaylistViewMsg::Shuffle)
    } else if bound_to(keys, IdKey::Other(IdKeyOther::PlaylistModeCycle), p) {
        PlaylistViewReaction::Send(PlaylistViewMsg::LoopModeCycle)
    } else if bound_to(keys, IdKey::Other(IdKeyOther::PlaylistPlaySelected), p) || plain_key(
        p,
        "Enter"@,
    ) {
        on_selected(selected, |i: usize| PlaylistViewMsg::PlaySelected(i))
    } else if bound_to(keys, IdKey::Other(IdKeyOther::PlaylistSearch), p) {
        PlaylistViewReaction::Send(PlaylistViewMsg::ShowSearch)
    } else if bound_to(keys, IdKey::Other(IdKeyOther::PlaylistSwapDown), p) {
        match selected {
            Some(i) => PlaylistViewReaction::PerformThenSend(
                TableCmd::Move(Direction::Down),
                PlaylistViewMsg::SwapDown(i),
            ),
            None => PlaylistViewReaction::Nothing,
        }
    } else if bound_to(keys, IdKey::Other(IdKeyOther::PlaylistSwapUp), p) {
        match selected {
            Some(i) => PlaylistViewReaction::PerformThenSend(TableCmd::Move(Direction::Up), PlaylistViewMsg::SwapUp(i)),
            None => PlaylistViewReaction::Nothing,
        }
    } else if bound_to(keys, IdKey::Other(IdKeyOther::PlaylistAddRandomAlbum), p) {
        PlaylistViewReaction::Send(PlaylistViewMsg::AddRandomAlbum)
    } else if bound_to(keys, IdKey::Other(IdKeyOther::PlaylistAddRandomTracks), p) {
        PlaylistViewReaction::Send(PlaylistViewMsg::AddRandomTracks)
    } else {
        PlaylistViewReaction::Nothing
    }
}

/// A swap the playlist view sends is that of the swap key field the press is
/// bound to, for the selected row, and the selection moves the same way as
/// the track: swapping up moves it up, swapping down moves it down. With a
/// row selected, a press bound to a swap field always does something. Every
/// message that names a row names the selected one.
pub proof fn lemma_swap_keys_move_with_track(p: KeyBindingView, keys: KeyConfig, selected: Option<usize>)
    ensures
        ({
            let r = playlist_view_reaction(p, keys, selected);
            &&& r matches PlaylistViewReaction::PerformThenSend(cmd, PlaylistViewMsg::SwapUp(i)) ==> cmd
                == TableCmd::Move(Direction::Up) && selected == Some(i) && bound_to(
                keys,
                IdKey::Other(IdKeyOther::PlaylistSwapUp),
                p,
            )
            &&& r matches PlaylistViewReaction::PerformThenSend(cmd, PlaylistViewMsg::SwapDown(i)) ==> cmd
                == TableCmd::Move(Direction::Down) && selected == Some(i) && bound_to(
                keys,
                IdKey::Other(IdKeyOther::PlaylistSwapDown),
                p,
            )
            &&& (bound_to(keys, IdKey::Other(IdKeyOther::PlaylistSwapUp), p) || bound_to(
                keys,
                IdKey::Other(IdKeyOther::PlaylistSwapDown),
                p,
            )) && selected is Some ==> r != PlaylistViewReaction::Nothing
            &&& r matches PlaylistViewReaction::Send(PlaylistViewMsg::Delete(i)) ==> selected == Some(i)
            &&& r matches PlaylistViewReaction::Send(PlaylistViewMsg::PlaySelected(i)) ==> selected == Some(i)
        }),
{
}

/// The key field of the playlist view that names the action of a message.
pub open spec fn field_of_playlist_msg(m: PlaylistViewMsg) -> Option<IdKeyOther> {
    match m {
        PlaylistViewMsg::Delete(_) => Some(IdKeyOther::PlaylistDelete),
        PlaylistViewMsg::DeleteAll => Some(IdKeyOther::PlaylistDeleteAll),
        PlaylistViewMsg::Shuffle => Some(IdKeyOther::PlaylistShuffle),
        PlaylistViewMsg::LoopModeCycle => Some(IdKeyOther::PlaylistModeCycle),
        PlaylistViewMsg::PlaySelected(_) => Some(IdKeyOther::PlaylistPlaySelected),
        PlaylistViewMsg::ShowSearch => Some(IdKeyOther::PlaylistSearch),
        PlaylistViewMsg::SwapDown(_) => Some(IdKeyOther::PlaylistSwapDown),
        PlaylistViewMsg::SwapUp(_) => Some(IdKeyOther::PlaylistSwapUp),
        PlaylistViewMsg::AddRandomAlbum => Some(IdKeyOther::PlaylistAddRandomAlbum),
        PlaylistViewMsg::AddRandomTracks => Some(IdKeyOther::PlaylistAddRandomTracks),
        PlaylistViewMsg::BlurDown | PlaylistViewMsg::BlurUp => None,
    }
}

/// Every message the playlist view sends carries out the action of a key
/// field the press is bound to (playing the selected row also by plain
/// enter), or hands the focus on by tab or shift with back-tab.
pub proof fn lemma_playlist_msg_of_bound_field(p: KeyBindingView, keys: KeyConfig, selected: Option<usize>)
    ensures
        ({
            let r = playlist_view_reaction(p, keys, selected);
            &&& r matches PlaylistViewReaction::Send(m) ==> match field_of_playlist_msg(m) {
                Some(f) => bound_to(keys, IdKey::Other(f), p) || (m is PlaySelected && plain_key(p, "Enter"@)),
                None => (m is BlurDown && plain_key(p, "Tab"@)) || (m is BlurUp && shift_back_tab(p)),
            }
            &&& r matches PlaylistViewReaction::PerformThenSend(_, m) ==> field_of_playlist_msg(m) matches Some(
                f,
            ) && bound_to(keys, IdKey::Other(f), p)
        }),
{
}

/// What the playlist view does with a key press; see `playlist_view_reaction`.
pub fn playlist_view_on(p: &KeyBinding, keys: &KeyConfig, selected: Option<usize>) -> (r: PlaylistViewReaction)
    ensures
        r == playlist_view_reaction(p@, *keys, selected),
{
    if is_plain_key(p, "Down") {
        PlaylistViewReaction::Perform(TableCmd::Move(Direction::Down))
    } else if is_plain_key(p, "Up") {
        PlaylistViewReaction::Perform(TableCmd::Move(Direction::Up))
    } else if keys.is_bound(IdKey::Global(IdKeyGlobal::Down), p) {
        PlaylistViewReaction::Perform(TableCmd::Move(Direction::Down))
    } else if keys.is_bound(IdKey::Global(IdKeyGlobal::Up), p) {
        PlaylistViewReaction::Perform(TableCmd::Move(Direction::Up))
    } else if is_plain_key(p, "PageDown") {
        PlaylistViewReaction::Perform(TableCmd::Scroll(Direction::Down))
    } else if is_plain_key(p, "PageUp") {
        PlaylistViewReaction::Perform(TableCmd::Scroll(Direction::Up))
    } else if keys.is_bound(IdKey::Global(IdKeyGlobal::GotoTop), p) {
        PlaylistViewReaction::Perform(TableCmd::GoTo(Position::Begin))
    } else if keys.is_bound(IdKey::Global(IdKeyGlobal::GotoBottom), p) {
        PlaylistViewReaction::Perform(TableCmd::GoTo(Position::End))
    } else if is_plain_key(p, "Home") {
        PlaylistViewReaction::Perform(TableCmd::GoTo(Position::Begin))
    } else if is_plain_key(p, "End") {
        PlaylistViewReaction::Perform(TableCmd::GoTo(Position::End))
    } else if is_plain_key(p, "Tab") {
        PlaylistViewReaction::Send(PlaylistViewMsg::BlurDown)
    } else if has_code(p, "BackTab") && p.modifiers.shift && !p.modifiers.control && !p.modifiers.alt {
        PlaylistViewReaction::Send(PlaylistViewMsg::BlurUp)
    } else if keys.is_bound(IdKey::Other(IdKeyOther::PlaylistDelete), p) {
        match selected {
            Some(i) => PlaylistViewReaction::Send(PlaylistViewMsg::Delete(i)),
            None => PlaylistViewReaction::Nothing,
        }
    } else if keys.is_bound(IdKey::Other(IdKeyOther::PlaylistDeleteAll), p) {
        PlaylistViewReaction::Send(PlaylistViewMsg::DeleteAll)
    } else if keys.is_bound(IdKey::Other(IdKeyOther::PlaylistShuffle), p) {
        PlaylistViewReaction::Send(PlaylistViewMsg::Shuffle)
    } else if keys.is_bound(IdKey::Other(IdKeyOther::PlaylistModeCycle), p) {
        PlaylistViewReaction::Send(PlaylistViewMsg::LoopModeCycle)
    } else if keys.is_bound(IdKey::Other(IdKeyOther::PlaylistPlaySelected), p) || is_plain_key(p, "Enter") {
        match selected {
            Some(i) => PlaylistViewReaction::Send(PlaylistViewMsg::PlaySelected(i)),
            None => PlaylistViewReaction::Nothing,
        }
    } else if keys.is_bound(IdKey::Other(IdKeyOther::PlaylistSearch), p) {
        PlaylistViewReaction::Send(PlaylistViewMsg::ShowSearch)
    } else if keys.is_bound(IdKey::Other(IdKeyOther::PlaylistSwapDown), p) {
        match selected {
            Some(i) => PlaylistViewReaction::PerformThenSend(
                TableCmd::Move(Direction::Down),
                PlaylistViewMsg::SwapDown(i),
            ),
            None => PlaylistViewReaction::Nothing,
        }
    } else if keys.is_bound(IdKey::Other(IdKeyOther::PlaylistSwapUp), p) {
        match selected {
            Some(i) => PlaylistViewReaction::PerformThenSend(TableCmd::Move(Direction::Up), PlaylistViewMsg::SwapUp(i)),
            None => PlaylistViewReaction::Nothing,
        }
    } else if keys.is_bound(IdKey::Other(IdKeyOther::PlaylistAddRandomAlbum), p) {
        PlaylistViewReaction::Send(PlaylistViewMsg::AddRandomAlbum)
    } else if keys.is_bound(IdKey::Other(IdKeyOther::PlaylistAddRandomTracks), p) {
        PlaylistViewReaction::Send(PlaylistViewMsg::AddRandomTracks)
    } else {
        PlaylistViewReaction::Nothing
    }
}

} // verus!
