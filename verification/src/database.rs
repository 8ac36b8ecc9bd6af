//! The database view: its criteria list, the result and track lists, and
//! adding what was found to the playlist.
use vstd::prelude::*;
use vstd::string::{StrSliceExecFns, StringExecFns};

use crate::field_keys::{has_code, same_text};
use crate::ids::{Id, IdKey, IdKeyGlobal, IdKeyOther};
use crate::key_config::{bound_to, KeyBinding, KeyBindingView, KeyConfig};
use crate::select_states::KeyModifierSet;
use crate::model::{after_mount_actions, Model, PlaylistTrack, SearchCriteria, TrackSource, TuiCmd, UiAction};
use crate::playlist::{path_sources, pushed_add_track};
use crate::playlist_table::{Direction, Position, TableCmd};

verus! {

/// The rows of the criteria list of the database view.
#[derive(Debug, Clone, Copy, PartialEq, Eq, Structural)]
pub enum DBCriteria {
    Artists,
    Albums,
    Genres,
    Directories,
    Playlists,
}

/// The criteria at a row of the criteria list, if the row exists.
pub open spec fn criteria_at(idx: usize) -> Option<DBCriteria> {
    if idx == 0 {
        Some(DBCriteria::Artists)
    } else if idx == 1 {
        Some(DBCriteria::Albums)
    } else if idx == 2 {
        Some(DBCriteria::Genres)
    } else if idx == 3 {
        Some(DBCriteria::Directories)
    } else if idx == 4 {
        Some(DBCriteria::Playlists)
    } else {
        None
    }
}

/// The search criteria a row of the criteria list stands for.
pub open spec fn search_criteria_of(c: DBCriteria) -> SearchCriteria {
    match c {
        DBCriteria::Artists => SearchCriteria::Artist,
        DBCriteria::Albums => SearchCriteria::Album,
        DBCriteria::Genres => SearchCriteria::Genre,
        DBCriteria::Directories => SearchCriteria::Directory,
        DBCriteria::Playlists => SearchCriteria::Playlist,
    }
}

impl DBCriteria {
    /// How many rows the criteria list has.
    pub const NUM_OPTIONS: u16 = 5;

    /// The criteria at row `idx` of the criteria list; `None` past its end.
    pub fn from_table_index(idx: usize) -> (r: Option<Self>)
        ensures
            r == criteria_at(idx),
    {
        match idx {
            0 => Some(DBCriteria::Artists),
            1 => Some(DBCriteria::Albums),
            2 => Some(DBCriteria::Genres),
            3 => Some(DBCriteria::Directories),
            4 => Some(DBCriteria::Playlists),
            _ => None,
        }
    }

    /// The search criteria this row stands for.
    pub fn to_search_criteria(self) -> (r: SearchCriteria)
        ensures
            r == search_criteria_of(self),
    {
        match self {
            DBCriteria::Artists => SearchCriteria::Artist,
            DBCriteria::Albums => SearchCriteria::Album,
            DBCriteria::Genres => SearchCriteria::Genre,
            DBCriteria::Directories => SearchCriteria::Directory,
            DBCriteria::Playlists => SearchCriteria::Playlist,
        }
    }
}

/// Every row of the criteria list maps to a criteria, and no row past it does.
pub proof fn lemma_all_table_rows_mapped(idx: usize)
    ensures
        criteria_at(idx) is Some <==> idx < DBCriteria::NUM_OPTIONS,
{
}

/// The keys the lists of the database view react to; the configured
/// navigation keys count as the arrow and home/end keys they stand for.
#[derive(Debug, Clone, Copy, PartialEq, Eq, Structural)]
pub enum ListKey {
    Up,
    Down,
    PageUp,
    PageDown,
    Home,
    End,
    Tab,
    BackTab,
}

/// What a list of the database view does with a key.
#[derive(Debug, Clone, Copy, PartialEq, Eq, Structural)]
pub enum ListReaction {
    /// Run the command on the list.
    Perform(TableCmd),
    /// Hand the focus to the next list.
    FocusNext,
    /// Hand the focus to the previous list.
    FocusPrev,
}

/// What a list does with a key: moving down from its last row goes on to the
/// next list; `selected` and `rows` are the list's selected row and its
/// number of rows, when it has them.
pub open spec fn list_reaction(key: ListKey, selected: Option<usize>, rows: Option<usize>) -> ListReaction {
    match key {
        ListKey::Up => ListReaction::Perform(TableCmd::Move(Direction::Up)),
        ListKey::Down => if selected is Some && rows is Some && selected->0 >= rows->0 - 1 {
            ListReaction::FocusNext
        } else {
            ListReaction::Perform(TableCmd::Move(Direction::Down))
        },
        ListKey::PageUp => ListReaction::Perform(TableCmd::Scroll(Direction::Up)),
        ListKey::PageDown => ListReaction::Perform(TableCmd::Scroll(Direction::Down)),
        ListKey::Home => ListReaction::Perform(TableCmd::GoTo(Position::Begin)),
        ListKey::End => ListReaction::Perform(TableCmd::GoTo(Position::End)),
        ListKey::Tab => ListReaction::FocusNext,
        ListKey::BackTab => ListReaction::FocusPrev,
    }
}

/// What a list of the database view does with a key; see `list_reaction`.
/// A list with a selection has rows.
pub fn common_list_movement(key: ListKey, selected: Option<usize>, rows: Option<usize>) -> (r: ListReaction)
    requires
        selected is Some && rows is Some ==> rows->0 > 0,
    ensures
        r == list_reaction(key, selected, rows),
{
    match key {
        ListKey::Up => ListReaction::Perform(TableCmd::Move(Direction::Up)),
        ListKey::Down => {
            if let (Some(index), Some(t)) = (selected, rows) {
                if index >= t - 1 {
                    return ListReaction::FocusNext;
                }
            }
            ListReaction::Perform(TableCmd::Move(Direction::Down))
        },
        ListKey::PageUp => ListReaction::Perform(TableCmd::Scroll(Direction::Up)),
        ListKey::PageDown => ListReaction::Perform(TableCmd::Scroll(Direction::Down)),
        ListKey::Home => ListReaction::Perform(TableCmd::GoTo(Position::Begin)),
        ListKey::End => ListReaction::Perform(TableCmd::GoTo(Position::End)),
        ListKey::Tab => ListReaction::FocusNext,
        ListKey::BackTab => ListReaction::FocusPrev,
    }
}

/// The names the criteria list shows, by row.
pub open spec fn criteria_labels() -> Seq<Seq<char>> {
    seq!["Artist"@, "Album"@, "Genre"@, "Directory"@, "Playlists"@]
}

impl DBCriteria {
    /// The names the criteria list shows, by row.
    pub fn build_table() -> (r: Vec<String>)
        ensures
            r@.len() == DBCriteria::NUM_OPTIONS,
            string_views(r@) == criteria_labels(),
    {
        let r = vec![
            String::from_str("Artist"),
            String::from_str("Album"),
            String::from_str("Genre"),
            String::from_str("Directory"),
            String::from_str("Playlists"),
        ];
        proof {
            assert(string_views(r@) =~= criteria_labels());
        }
        r
    }
}

/// The popup asking whether to add everything found by a criteria.
#[derive(Debug)]
pub struct AddAlbumConfirm {
    pub title: String,
}

/// The question the popup asks for a criteria.
pub open spec fn add_confirm_title(criteria: Seq<char>) -> Seq<char> {
    " Are you sure you want to add EVERYTHING from "@ + criteria + "? "@
}

impl AddAlbumConfirm {
    /// The popup for the criteria named `criteria`.
    pub fn new(criteria: &str) -> (r: Self)
        ensures
            r.title@ == add_confirm_title(criteria@),
    {
        let title = String::from_str(" Are you sure you want to add EVERYTHING from ").concat(
            criteria,
        ).concat("? ");
        AddAlbumConfirm { title }
    }
}

/// The texts of some strings.
pub open spec fn string_views(s: Seq<String>) -> Seq<Seq<char>> {
    s.map_values(|x: String| x@)
}

/// The order `alphanumeric_sort` gives these texts.
pub uninterp spec fn alphanumeric_order(items: Seq<Seq<char>>) -> Seq<Seq<char>>;

/// `alphanumeric_sort::sort_slice_by_str_key` with each string as its own
/// key: a stable sort by `alphanumeric_sort::compare_str`. Claimed: the
/// strings are only reordered, and their new order is `alphanumeric_order`
/// of their texts (a stable sort's result depends on its input alone). How
/// `compare_str` orders texts is not stated.
#[verifier::external_body]
fn sort_alphanumeric(v: &mut Vec<String>)
    ensures
        final(v)@.to_multiset() == old(v)@.to_multiset(),
        string_views(final(v)@) == alphanumeric_order(string_views(old(v)@)),
{
    alphanumeric_sort::sort_slice_by_str_key(v.as_mut_slice(), |s: &String| s.as_str());
}

/// The text a track is ordered by: its path, or its address.
pub open spec fn track_path_text(t: PlaylistTrack) -> Seq<char> {
    match t.source {
        TrackSource::Path(p) => p@,
        TrackSource::Url(u) => u@,
        TrackSource::PodcastUrl(u) => u@,
    }
}

/// Pairs of a text and a position, as values.
pub open spec fn keyed_views(s: Seq<(String, usize)>) -> Seq<(Seq<char>, usize)> {
    s.map_values(|e: (String, usize)| (e.0@, e.1))
}

/// The order `alphanumeric_sort` gives these pairs by their texts taken as paths.
pub uninterp spec fn alphanumeric_path_order(items: Seq<(Seq<char>, usize)>) -> Seq<(Seq<char>, usize)>;

/// `alphanumeric_sort::sort_slice_by_path_key`, keyed by each pair's text: a
/// stable sort by `alphanumeric_sort::compare_path`. Claimed: the pairs are
/// only reordered, and their new order is `alphanumeric_path_order` of the
/// pairs as values (a stable sort's result depends on its input alone). How
/// `compare_path` orders paths is not stated.
#[verifier::external_body]
fn sort_keyed_by_path(v: &mut Vec<(String, usize)>)
    ensures
        keyed_views(final(v)@).to_multiset() == keyed_views(old(v)@).to_multiset(),
        keyed_views(final(v)@) == alphanumeric_path_order(keyed_views(old(v)@)),
{
    alphanumeric_sort::sort_slice_by_path_key(v.as_mut_slice(), |e: &(String, usize)| e.0.as_str());
}

/// Each text with its position.
pub open spec fn positioned(keys: Seq<Seq<char>>) -> Seq<(Seq<char>, usize)> {
    Seq::new(keys.len(), |i: int| (keys[i], i as usize))
}

/// The positions of `keys` in the order `alphanumeric_sort` gives their
/// texts taken as paths: a stable sort.
pub open spec fn path_order_positions(keys: Seq<Seq<char>>) -> Seq<usize> {
    alphanumeric_path_order(positioned(keys)).map_values(|e: (Seq<char>, usize)| e.1)
}

/// The positions of `keys` in path order; see `path_order_positions`. There
/// is one for each key, and each is the position of a key.
pub(crate) fn sorted_positions_by_path(keys: &Vec<String>) -> (r: Vec<usize>)
    ensures
        r@ == path_order_positions(string_views(keys@)),
        r@.len() == keys@.len(),
        forall|j: int| 0 <= j < r@.len() ==> #[trigger] r@[j] < keys@.len(),
{
    let ghost texts = string_views(keys@);
    let mut pairs: Vec<(String, usize)> = Vec::new();
    let mut i: usize = 0;
    while i < keys.len()
        invariant
            i <= keys@.len(),
            texts == string_views(keys@),
            pairs@.len() == i,
            keyed_views(pairs@) == positioned(texts).take(i as int),
        decreases keys@.len() - i,
    {
        let t = keys[i].clone();
        let ghost prev = pairs@;
        pairs.push((t, i));
        proof {
            assert forall|k: int| 0 <= k < i + 1 implies #[trigger] keyed_views(pairs@)[k] == positioned(
                texts,
            ).take(i + 1)[k] by {
                if k < i {
                    assert(pairs@[k] == prev[k]);
                    assert(keyed_views(prev)[k] == positioned(texts).take(i as int)[k]);
                }
            }
            assert(keyed_views(pairs@) =~= positioned(texts).take(i + 1));
        }
        i = i + 1;
    }
    proof {
        assert(positioned(texts).take(keys@.len() as int) =~= positioned(texts));
    }
    let ghost unsorted = keyed_views(pairs@);
    sort_keyed_by_path(&mut pairs);
    let ghost order = keyed_views(pairs@);
    proof {
        vstd::seq_lib::to_multiset_len(order);
        vstd::seq_lib::to_multiset_len(unsorted);
        assert forall|j: int| 0 <= j < order.len() implies #[trigger] order[j].1 < keys@.len() by {
            vstd::seq_lib::to_multiset_contains(order, order[j]);
            vstd::seq_lib::to_multiset_contains(unsorted, order[j]);
            assert(order.contains(order[j]));
            let k = choose|k: int| 0 <= k < unsorted.len() && unsorted[k] == order[j];
            assert(unsorted[k].1 == k as usize);
        }
    }
    let mut r: Vec<usize> = Vec::new();
    let mut j: usize = 0;
    while j < pairs.len()
        invariant
            j <= pairs@.len(),
            order == keyed_views(pairs@),
            order == alphanumeric_path_order(positioned(texts)),
            texts == string_views(keys@),
            order.len() == keys@.len(),
            forall|k: int| 0 <= k < order.len() ==> #[trigger] order[k].1 < keys@.len(),
            r@ == path_order_positions(texts).take(j as int),
        decreases pairs@.len() - j,
    {
        let k = pairs[j].1;
        proof {
            assert(order[j as int].1 == k);
        }
        r.push(k);
        proof {
            assert(r@ =~= path_order_positions(texts).take(j + 1));
        }
        j = j + 1;
    }
    proof {
        assert(path_order_positions(texts).take(pairs@.len() as int) =~= path_order_positions(texts));
    }
    r
}

/// The path texts of some tracks.
pub open spec fn track_texts(tracks: Seq<PlaylistTrack>) -> Seq<Seq<char>> {
    tracks.map_values(|t: PlaylistTrack| track_path_text(t))
}

/// The tracks in the order of their paths: a stable sort of `tracks` by path.
pub open spec fn path_ordered(tracks: Seq<PlaylistTrack>) -> Seq<PlaylistTrack> {
    let p = path_order_positions(track_texts(tracks));
    Seq::new(p.len(), |j: int| tracks[p[j] as int])
}

/// The path text of a track.
fn track_path(t: &PlaylistTrack) -> (r: String)
    ensures
        r@ == track_path_text(*t),
{
    match &t.source {
        TrackSource::Path(p) => p.clone(),
        TrackSource::Url(u) => u.clone(),
        TrackSource::PodcastUrl(u) => u.clone(),
    }
}

/// The order the track list shows the tracks found under `criteria`: a
/// playlist's tracks in the playlist's order, any others in the order of
/// their paths.
pub open spec fn found_order(criteria: SearchCriteria, tracks: Seq<PlaylistTrack>) -> Seq<PlaylistTrack> {
    if criteria == SearchCriteria::Playlist {
        tracks
    } else {
        path_ordered(tracks)
    }
}

/// The tracks put in the order of their paths; see `path_ordered`.
pub fn order_tracks_by_path(tracks: &Vec<PlaylistTrack>) -> (r: Vec<PlaylistTrack>)
    ensures
        r@ == path_ordered(tracks@),
        r@.len() == tracks@.len(),
{
    let mut texts: Vec<String> = Vec::new();
    let mut i: usize = 0;
    while i < tracks.len()
        invariant
            i <= tracks@.len(),
            texts@.len() == i,
            string_views(texts@) == track_texts(tracks@).take(i as int),
        decreases tracks@.len() - i,
    {
        let t = track_path(&tracks[i]);
        let ghost prev = texts@;
        texts.push(t);
        proof {
            assert forall|k: int| 0 <= k < i + 1 implies #[trigger] string_views(texts@)[k] == track_texts(
                tracks@,
            ).take(i + 1)[k] by {
                if k < i {
                    assert(texts@[k] == prev[k]);
                    assert(string_views(prev)[k] == track_texts(tracks@).take(i as int)[k]);
                }
            }
            assert(string_views(texts@) =~= track_texts(tracks@).take(i + 1));
        }
        i = i + 1;
    }
    proof {
        assert(track_texts(tracks@).take(tracks@.len() as int) =~= track_texts(tracks@));
    }
    let p = sorted_positions_by_path(&texts);
    let mut r: Vec<PlaylistTrack> = Vec::new();
    let mut j: usize = 0;
    while j < p.len()
        invariant
            j <= p@.len(),
            p@ == path_order_positions(track_texts(tracks@)),
            p@.len() == tracks@.len(),
            forall|k: int| 0 <= k < p@.len() ==> #[trigger] p@[k] < tracks@.len(),
            r@ == path_ordered(tracks@).take(j as int),
        decreases p@.len() - j,
    {
        r.push(tracks[p[j]].duplicate());
        proof {
            assert(r@ =~= path_ordered(tracks@).take(j + 1));
        }
        j = j + 1;
    }
    proof {
        assert(path_ordered(tracks@).take(p@.len() as int) =~= path_ordered(tracks@));
    }
    r
}

/// The position of the last `/` before `end`.
pub open spec fn last_slash(s: Seq<char>, end: int) -> Option<int>
    decreases end,
{
    if end <= 0 {
        None
    } else if s[end - 1] == '/' {
        Some(end - 1)
    } else {
        last_slash(s, end - 1)
    }
}

/// A `/` found before `end` is at a position below `end` holding a `/`.
pub proof fn lemma_last_slash(s: Seq<char>, end: int)
    requires
        end <= s.len(),
    ensures
        last_slash(s, end) matches Some(p) ==> 0 <= p < end && s[p] == '/',
    decreases end,
{
    if end > 0 && s[end - 1] != '/' {
        lemma_last_slash(s, end - 1);
    }
}

/// The last two `/`-separated parts of a path, joined by `/`: the file with
/// its directory. Empty when the path has no `/`.
pub open spec fn last_two_parts(s: Seq<char>) -> Seq<char> {
    match last_slash(s, s.len() as int) {
        Some(p) => {
            let start = match last_slash(s, p) {
                Some(q) => q + 1,
                None => 0,
            };
            s.subrange(start, p) + seq!['/'] + s.subrange(p + 1, s.len() as int)
        },
        None => Seq::empty(),
    }
}

/// How the result list names a result: playlists by their file and its
/// directory, directories by their last two parts and a `/`, everything else
/// as it is. Empty names are not listed.
pub open spec fn result_display_name(criteria: SearchCriteria, record: Seq<char>) -> Seq<char> {
    match criteria {
        SearchCriteria::Playlist => last_two_parts(record),
        SearchCriteria::Directory => if last_two_parts(record).len() == 0 {
            Seq::empty()
        } else {
            last_two_parts(record) + seq!['/']
        },
        _ => record,
    }
}

/// The numbered rows of the result list: each result with a non-empty name,
/// numbered from one by its place among all results.
pub open spec fn result_rows(criteria: SearchCriteria, results: Seq<String>) -> Seq<(usize, Seq<char>)>
    decreases results.len(),
{
    if results.len() == 0 {
        Seq::empty()
    } else {
        let rest = result_rows(criteria, results.drop_last());
        let name = result_display_name(criteria, results.last()@);
        if name.len() == 0 {
            rest
        } else {
            rest.push((results.len() as usize, name))
        }
    }
}

/// The texts of numbered rows.
pub open spec fn row_views(rows: Seq<(usize, String)>) -> Seq<(usize, Seq<char>)> {
    rows.map_values(|r: (usize, String)| (r.0, r.1@))
}

/// The position of the last `/` before `end` in `s`.
fn find_last_slash(s: &str, end: usize) -> (r: Option<usize>)
    requires
        end <= s@.len(),
    ensures
        match last_slash(s@, end as int) {
            Some(p) => r == Some(p as usize),
            None => r is None,
        },
        r matches Some(p) ==> p < end,
{
    let mut i = end;
    while i > 0
        invariant
            i <= end <= s@.len(),
            last_slash(s@, end as int) == last_slash(s@, i as int),
        decreases i,
    {
        if s.get_char(i - 1) == '/' {
            return Some(i - 1);
        }
        i = i - 1;
    }
    None
}

/// The last two `/`-separated parts of `s`, joined by `/`.
pub fn last_two_path_parts(s: &str) -> (r: String)
    ensures
        r@ == last_two_parts(s@),
{
    let n = s.unicode_len();
    match find_last_slash(s, n) {
        Some(p) => {
            let start = match find_last_slash(s, p) {
                Some(q) => q + 1,
                None => 0,
            };
            proof {
                reveal_strlit("/");
                lemma_last_slash(s@, p as int);
                lemma_last_slash(s@, n as int);
            }
            let dir = s.substring_char(start, p);
            let file = s.substring_char(p + 1, n);
            let joined = String::from_str(dir).concat("/").concat(file);
            joined
        },
        None => {
            proof {
                reveal_strlit("");
            }
            String::from_str("")
        },
    }
}

/// How the result list names `record` under `criteria`.
pub fn result_display(criteria: SearchCriteria, record: &String) -> (r: String)
    ensures
        r@ == result_display_name(criteria, record@),
{
    match criteria {
        SearchCriteria::Playlist => last_two_path_parts(record.as_str()),
        SearchCriteria::Directory => {
            let parts = last_two_path_parts(record.as_str());
            if parts.unicode_len() == 0 {
                parts
            } else {
                proof {
                    reveal_strlit("/");
                }
                parts.concat("/")
            }
        },
        _ => record.clone(),
    }
}

/// The view updates that bring the result list up to date with `results`.
pub open spec fn results_show_matches(action: UiAction, criteria: SearchCriteria, results: Seq<String>) -> bool {
    &&& action matches UiAction::DatabaseShowResults(rows, empty)
    &&& row_views(rows@) == result_rows(criteria, results)
    &&& empty == (results.len() == 0)
}

/// The view update that shows the names of `tracks` in the track list.
pub open spec fn tracks_show_matches(action: UiAction, tracks: Seq<PlaylistTrack>, results_empty: bool) -> bool {
    &&& action matches UiAction::DatabaseShowTracks(titles, empty)
    &&& titles@ == tracks.map_values(|t: PlaylistTrack| t.title)
    &&& empty == results_empty
}

/// Unmounting the add-confirmation popup (see
/// `umount_results_add_confirm_database`) never fails and leaves it
/// unmounted and every other component as it was; doing it twice is doing it
/// once.
pub proof fn lemma_umount_add_confirm_twice(mounted: Set<Id>)
    ensures
        after_mount_actions(mounted, seq![UiAction::UmountIfMounted(Id::DatabaseAddConfirmPopup)])
            == Ok::<Set<Id>, (Set<Id>, Id)>(mounted.remove(Id::DatabaseAddConfirmPopup)),
        after_mount_actions(
            mounted,
            seq![
                UiAction::UmountIfMounted(Id::DatabaseAddConfirmPopup),
                UiAction::UmountIfMounted(Id::DatabaseAddConfirmPopup),
            ],
        ) == after_mount_actions(mounted, seq![UiAction::UmountIfMounted(Id::DatabaseAddConfirmPopup)]),
{
    let one = seq![UiAction::UmountIfMounted(Id::DatabaseAddConfirmPopup)];
    let two = seq![
        UiAction::UmountIfMounted(Id::DatabaseAddConfirmPopup),
        UiAction::UmountIfMounted(Id::DatabaseAddConfirmPopup),
    ];
    let m = mounted.remove(Id::DatabaseAddConfirmPopup);
    assert(one.drop_last() =~= Seq::<UiAction>::empty());
    assert(after_mount_actions(mounted, one.drop_last()) == Ok::<Set<Id>, (Set<Id>, Id)>(mounted));
    assert(one.last() == UiAction::UmountIfMounted(Id::DatabaseAddConfirmPopup));
    assert(after_mount_actions(mounted, one) == Ok::<Set<Id>, (Set<Id>, Id)>(m));
    assert(two.drop_last() =~= one);
    assert(after_mount_actions(mounted, two.drop_last()) == Ok::<Set<Id>, (Set<Id>, Id)>(m));
    assert(two.last() == UiAction::UmountIfMounted(Id::DatabaseAddConfirmPopup));
    assert(m.remove(Id::DatabaseAddConfirmPopup) =~= m);
    assert(after_mount_actions(mounted, two) == Ok::<Set<Id>, (Set<Id>, Id)>(m));
}

/// The rows of a list that shows nothing yet: the single row `Empty`.
fn empty_rows() -> (r: Vec<String>)
    ensures
        string_views(r@) == seq!["Empty"@],
{
    let r = vec![String::from_str("Empty")];
    proof {
        assert(string_views(r@) =~= seq!["Empty"@]);
    }
    r
}

/// `action` remounts the list `id`, fresh, with rows of the texts `rows`.
pub open spec fn remounts_list(action: UiAction, id: Id, rows: Seq<Seq<char>>) -> bool {
    action matches UiAction::RemountList(i, r) && i == id && string_views(r@) == rows
}

/// `acts` remount the three lists of the database view, fresh: the criteria
/// list with its five rows, the result and track lists with the single row
/// `Empty`.
pub open spec fn remounts_database_lists(acts: Seq<UiAction>) -> bool {
    &&& acts.len() == 3
    &&& remounts_list(acts[0], Id::DBListCriteria, criteria_labels())
    &&& remounts_list(acts[1], Id::DBListSearchResult, seq!["Empty"@])
    &&& remounts_list(acts[2], Id::DBListSearchTracks, seq!["Empty"@])
}

/// `acts` are the view updates that reloading the database view queues: the
/// three lists remounted, then the emptied track and result lists shown.
pub open spec fn is_database_reload(acts: Seq<UiAction>, criteria: SearchCriteria) -> bool {
    &&& acts.len() == 5
    &&& remounts_database_lists(acts.take(3))
    &&& tracks_show_matches(acts[3], Seq::empty(), true)
    &&& results_show_matches(acts[4], criteria, Seq::empty())
}

impl Model {
    /// The database view state, the queues aside, is as in `o` but for its lists.
    pub open spec fn same_but_db_lists(self, o: Model) -> bool {
        &&& self.playlist == o.playlist
        &&& self.playlist_selected == o.playlist_selected
        &&& self.same_settings(o)
        &&& self.config_editor == o.config_editor
        &&& self.dw.criteria == o.dw.criteria
        &&& self.lyric_line == o.lyric_line
    }

    /// Remount the three lists of the database view.
    pub fn remount_database_search(&mut self)
        ensures
            final(self).same_state(*old(self)),
            final(self).cmds@ == old(self).cmds@,
            final(self).ui@.len() == old(self).ui@.len() + 3,
            final(self).ui@.take(old(self).ui@.len() as int) == old(self).ui@,
            remounts_database_lists(final(self).ui@.skip(old(self).ui@.len() as int)),
    {
        let ghost u0 = self.ui@;
        self.ui.push(UiAction::RemountList(Id::DBListCriteria, DBCriteria::build_table()));
        self.ui.push(UiAction::RemountList(Id::DBListSearchResult, empty_rows()));
        self.ui.push(UiAction::RemountList(Id::DBListSearchTracks, empty_rows()));
        proof {
            let k = u0.len() as int;
            assert(self.ui@.take(k) =~= u0);
            let t = self.ui@.skip(k);
            assert(t[0] == self.ui@[k]);
            assert(t[1] == self.ui@[k + 1]);
            assert(t[2] == self.ui@[k + 2]);
        }
    }

    /// Show the names of the found tracks in the track list.
    pub fn database_sync_tracks_results(&mut self)
        ensures
            final(self).same_state(*old(self)),
            final(self).cmds@ == old(self).cmds@,
            final(self).ui@.len() == old(self).ui@.len() + 1,
            final(self).ui@.drop_last() == old(self).ui@,
            tracks_show_matches(
                final(self).ui@.last(),
                old(self).dw.search_tracks@,
                old(self).dw.search_results@.len() == 0,
            ),
    {
        let mut titles: Vec<Option<String>> = Vec::new();
        let mut i: usize = 0;
        while i < self.dw.search_tracks.len()
            invariant
                i <= self.dw.search_tracks@.len(),
                titles@ == self.dw.search_tracks@.take(i as int).map_values(
                    |t: PlaylistTrack| t.title,
                ),
            decreases self.dw.search_tracks@.len() - i,
        {
            titles.push(self.dw.search_tracks[i].title.clone());
            proof {
                assert(self.dw.search_tracks@.take(i + 1).map_values(|t: PlaylistTrack| t.title)
                    =~= titles@);
            }
            i = i + 1;
        }
        proof {
            assert(self.dw.search_tracks@.take(i as int) =~= self.dw.search_tracks@);
        }
        let empty = self.dw.search_results.len() == 0;
        let ghost before = self.ui@;
        self.ui.push(UiAction::DatabaseShowTracks(titles, empty));
        proof {
            assert(self.ui@.drop_last() =~= before);
        }
    }

    /// Show the named results, numbered, in the result list.
    pub fn database_sync_results(&mut self)
        ensures
            final(self).same_state(*old(self)),
            final(self).cmds@ == old(self).cmds@,
            final(self).ui@.len() == old(self).ui@.len() + 1,
            final(self).ui@.drop_last() == old(self).ui@,
            results_show_matches(
                final(self).ui@.last(),
                old(self).dw.criteria,
                old(self).dw.search_results@,
            ),
    {
        let mut rows: Vec<(usize, String)> = Vec::new();
        let mut i: usize = 0;
        let n = self.dw.search_results.len();
        while i < n
            invariant
                n == self.dw.search_results@.len(),
                i <= n,
                row_views(rows@) == result_rows(
                    self.dw.criteria,
                    self.dw.search_results@.take(i as int),
                ),
            decreases n - i,
        {
            let name = result_display(self.dw.criteria, &self.dw.search_results[i]);
            proof {
                assert(self.dw.search_results@.take(i + 1).drop_last()
                    =~= self.dw.search_results@.take(i as int));
            }
            if name.unicode_len() > 0 {
                let ghost before = rows@;
                rows.push((i + 1, name));
                proof {
                    let pair: (usize, Seq<char>) = ((i + 1) as usize, name@);
                    assert(row_views(rows@) =~= row_views(before).push(pair));
                }
            }
            i = i + 1;
        }
        proof {
            assert(self.dw.search_results@.take(n as int) =~= self.dw.search_results@);
        }
        let empty = n == 0;
        let ghost before = self.ui@;
        self.ui.push(UiAction::DatabaseShowResults(rows, empty));
        proof {
            assert(self.ui@.drop_last() =~= before);
        }
    }

    /// Remount the database view, empty its lists and show them.
    #[verifier::spinoff_prover]
    pub fn database_reload(&mut self)
        ensures
            final(self).same_but_db_lists(*old(self)),
            final(self).dw.search_results@.len() == 0,
            final(self).dw.search_tracks@.len() == 0,
            final(self).cmds@ == old(self).cmds@,
            final(self).ui@.len() == old(self).ui@.len() + 5,
            final(self).ui@.take(old(self).ui@.len() as int) == old(self).ui@,
            is_database_reload(final(self).ui@.skip(old(self).ui@.len() as int), old(self).dw.criteria),
    {
        let ghost u0 = self.ui@;
        self.remount_database_search();
        let ghost u1 = self.ui@;
        self.dw.search_results = Vec::new();
        self.dw.search_tracks = Vec::new();
        proof {
            assert(self.dw.search_tracks@ =~= Seq::<PlaylistTrack>::empty());
            assert(self.dw.search_results@ =~= Seq::<String>::empty());
        }
        self.database_sync_tracks_results();
        let ghost u2 = self.ui@;
        self.database_sync_results();
        proof {
            let u = self.ui@;
            let k = u0.len() as int;
            assert(u.drop_last() == u2);
            assert(u2.drop_last() == u1);
            assert(u1.take(u0.len() as int) == u0);
            assert forall|i: int| 0 <= i < k implies u[i] == u0[i] by {
                assert(u[i] == u.drop_last()[i]);
                assert(u2[i] == u2.drop_last()[i]);
            }
            assert(u.take(k) =~= u0);
            let t = u.skip(k);
            assert(t[0] == u1[k]);
            assert(t[1] == u1[k + 1]);
            assert(t[2] == u1[k + 2]);
            assert(u1.skip(k)[0] == u1[k]);
            assert(u1.skip(k)[1] == u1[k + 1]);
            assert(u1.skip(k)[2] == u1[k + 2]);
            assert(t.take(3)[0] == t[0]);
            assert(t.take(3)[1] == t[1]);
            assert(t.take(3)[2] == t[2]);
            assert(t[3] == u2.last());
            assert(t[4] == u.last());
            assert(Seq::<PlaylistTrack>::empty().map_values(|t: PlaylistTrack| t.title)
                =~= Seq::<Option<String>>::empty());
        }
    }

    /// The results of the current criteria were queried as `results`: sort
    /// them, show them, and focus the result list.
    pub fn database_update_search_results(&mut self, results: Vec<String>)
        ensures
            final(self).same_but_db_lists(*old(self)),
            final(self).dw.search_tracks == old(self).dw.search_tracks,
            final(self).dw.search_results@.to_multiset() == results@.to_multiset(),
            string_views(final(self).dw.search_results@) == alphanumeric_order(
                string_views(results@),
            ),
            final(self).cmds@ == old(self).cmds@,
            final(self).ui@.len() == old(self).ui@.len() + 2,
            final(self).ui@.take(old(self).ui@.len() as int) == old(self).ui@,
            results_show_matches(
                final(self).ui@[old(self).ui@.len() as int],
                old(self).dw.criteria,
                final(self).dw.search_results@,
            ),
            final(self).ui@.last() == UiAction::Activate(Id::DBListSearchResult),
    {
        let mut res = results;
        sort_alphanumeric(&mut res);
        self.dw.search_results = res;
        let ghost before = self.ui@;
        self.database_sync_results();
        self.ui.push(UiAction::Activate(Id::DBListSearchResult));
        proof {
            assert(self.ui@.take(before.len() as int) =~= before);
            assert(self.ui@[before.len() as int] == self.ui@.drop_last().last());
        }
    }

    /// Fill the track list from the result at `index`: `found` are the tracks
    /// the database gave for it, if the query worked. The list is emptied first;
    /// it is filled, shown and focused only for an existing result that was
    /// found, in the order `found_order` gives for the current criteria.
    pub fn database_update_search_tracks(&mut self, index: usize, found: Option<Vec<PlaylistTrack>>)
        ensures
            final(self).same_but_db_lists(*old(self)),
            final(self).dw.search_results == old(self).dw.search_results,
            final(self).cmds@ == old(self).cmds@,
            (index < old(self).dw.search_results@.len() && found is Some) ==> {
                &&& final(self).dw.search_tracks@ == found_order(old(self).dw.criteria, found->0@)
                &&& final(self).ui@.len() == old(self).ui@.len() + 2
                &&& final(self).ui@.take(old(self).ui@.len() as int) == old(self).ui@
                &&& tracks_show_matches(
                    final(self).ui@[old(self).ui@.len() as int],
                    found_order(old(self).dw.criteria, found->0@),
                    old(self).dw.search_results@.len() == 0,
                )
                &&& final(self).ui@.last() == UiAction::Activate(Id::DBListSearchTracks)
            },
            !(index < old(self).dw.search_results@.len() && found is Some) ==> {
                &&& final(self).dw.search_tracks@.len() == 0
                &&& final(self).ui@ == old(self).ui@
            },
    {
        self.dw.search_tracks = Vec::new();
        if index >= self.dw.search_results.len() {
            return ;
        }
        match found {
            Some(tracks) => {
                self.dw.search_tracks = if self.dw.criteria == SearchCriteria::Playlist {
                    tracks
                } else {
                    order_tracks_by_path(&tracks)
                };
                let ghost before = self.ui@;
                self.database_sync_tracks_results();
                self.ui.push(UiAction::Activate(Id::DBListSearchTracks));
                proof {
                    assert(self.ui@.take(before.len() as int) =~= before);
                    assert(self.ui@[before.len() as int] == self.ui@.drop_last().last());
                }
            },
            None => {},
        }
    }

    /// Mount the popup asking whether to add everything found by `criteria`, and focus it.
    pub fn mount_results_add_confirm_database(&mut self, criteria: SearchCriteria)
        ensures
            final(self).same_state(*old(self)),
            final(self).cmds@ == old(self).cmds@,
            final(self).ui@ == old(self).ui@.push(UiAction::MountAddConfirm(criteria)).push(
                UiAction::Activate(Id::DatabaseAddConfirmPopup),
            ),
    {
        self.ui.push(UiAction::MountAddConfirm(criteria));
        self.ui.push(UiAction::Activate(Id::DatabaseAddConfirmPopup));
    }

    /// Unmount the popup asking whether to add everything, if it is mounted.
    pub fn umount_results_add_confirm_database(&mut self)
        ensures
            final(self).same_state(*old(self)),
            final(self).cmds@ == old(self).cmds@,
            final(self).ui@ == old(self).ui@.push(
                UiAction::UmountIfMounted(Id::DatabaseAddConfirmPopup),
            ),
    {
        self.ui.push(UiAction::UmountIfMounted(Id::DatabaseAddConfirmPopup));
    }

    /// Add the tracks of all results to the playlist, after closing the
    /// confirmation popup; `tracks` are the files the database gave for the
    /// results, in the order of the results. Nothing is added when there are no results.
    pub fn database_add_all_results(&mut self, tracks: &Vec<String>)
        ensures
            final(self).same_state(*old(self)),
            final(self).ui@ == old(self).ui@.push(
                UiAction::UmountIfMounted(Id::DatabaseAddConfirmPopup),
            ),
            old(self).dw.search_results@.len() > 0 ==> pushed_add_track(
                old(self).cmds@,
                final(self).cmds@,
                old(self).playlist.tracks@.len() as int,
                path_sources(tracks@),
            ),
            old(self).dw.search_results@.len() == 0 ==> final(self).cmds@ == old(self).cmds@,
    {
        self.umount_results_add_confirm_database();
        if self.dw.search_results.len() > 0 {
            self.playlist_add_all_from_db(tracks);
        }
    }
}

} // verus!

verus! {

/// No modifier held.
pub open spec fn no_modifiers() -> KeyModifierSet {
    KeyModifierSet { shift: false, control: false, alt: false }
}

/// Whether `p` is the key `name` pressed with no modifier.
pub open spec fn plain_key(p: KeyBindingView, name: Seq<char>) -> bool {
    p.code == name && p.modifiers == no_modifiers()
}

/// Which list key a key press is, for a list of the database view: the plain
/// arrow, page, home/end and tab keys, shift with back-tab, and the
/// configured navigation keys.
pub open spec fn list_key_of(p: KeyBindingView, keys: KeyConfig) -> Option<ListKey> {
    if plain_key(p, "Up"@) || bound_to(keys, IdKey::Global(IdKeyGlobal::Up), p) {
        Some(ListKey::Up)
    } else if plain_key(p, "Down"@) || bound_to(keys, IdKey::Global(IdKeyGlobal::Down), p) {
        Some(ListKey::Down)
    } else if plain_key(p, "PageUp"@) {
        Some(ListKey::PageUp)
    } else if plain_key(p, "PageDown"@) {
        Some(ListKey::PageDown)
    } else if plain_key(p, "Home"@) || bound_to(keys, IdKey::Global(IdKeyGlobal::GotoTop), p) {
        Some(ListKey::Home)
    } else if plain_key(p, "End"@) || bound_to(keys, IdKey::Global(IdKeyGlobal::GotoBottom), p) {
        Some(ListKey::End)
    } else if plain_key(p, "Tab"@) {
        Some(ListKey::Tab)
    } else if p.code == "BackTab"@ && p.modifiers == (KeyModifierSet { shift: true, control: false, alt: false }) {
        Some(ListKey::BackTab)
    } else {
        None
    }
}

/// Whether `p` is the key `name` pressed with no modifier.
pub(crate) fn is_plain_key(p: &KeyBinding, name: &str) -> (r: bool)
    ensures
        r == plain_key(p@, name@),
{
    has_code(p, name) && !p.modifiers.shift && !p.modifiers.control && !p.modifiers.alt
}

/// Which list key a key press is; see `list_key_of`.
pub fn list_key(p: &KeyBinding, keys: &KeyConfig) -> (r: Option<ListKey>)
    ensures
        r == list_key_of(p@, *keys),
{
    if is_plain_key(p, "Up") || keys.is_bound(IdKey::Global(IdKeyGlobal::Up), p) {
        Some(ListKey::Up)
    } else if is_plain_key(p, "Down") || keys.is_bound(IdKey::Global(IdKeyGlobal::Down), p) {
        Some(ListKey::Down)
    } else if is_plain_key(p, "PageUp") {
        Some(ListKey::PageUp)
    } else if is_plain_key(p, "PageDown") {
        Some(ListKey::PageDown)
    } else if is_plain_key(p, "Home") || keys.is_bound(IdKey::Global(IdKeyGlobal::GotoTop), p) {
        Some(ListKey::Home)
    } else if is_plain_key(p, "End") || keys.is_bound(IdKey::Global(IdKeyGlobal::GotoBottom), p) {
        Some(ListKey::End)
    } else if is_plain_key(p, "Tab") {
        Some(ListKey::Tab)
    } else if has_code(p, "BackTab") && p.modifiers.shift && !p.modifiers.control && !p.modifiers.alt {
        Some(ListKey::BackTab)
    } else {
        None
    }
}

/// The three lists of the database view.
#[derive(Debug, Clone, Copy, PartialEq, Eq, Structural)]
pub enum DbList {
    Criteria,
    SearchResult,
    SearchTracks,
}

/// What a list of the database view asks for.
#[derive(Debug, Clone, Copy, PartialEq, Eq, Structural)]
pub enum DbListMsg {
    /// Search the database by this criteria.
    SearchResult(SearchCriteria),
    /// Show the tracks of the result at this row.
    SearchTrack(usize),
    /// Add the tracks of the result at this row to the playlist.
    AddResultToPlaylist(usize),
    /// Ask before adding the tracks of all results.
    AddAllResultsConfirmShow,
    /// Add the track at this row to the playlist.
    AddPlaylist(usize),
    /// Add all listed tracks to the playlist.
    AddAllToPlaylist,
    /// Open the search popup of the database view.
    SearchPopupShow,
}

/// What a list of the database view does with a key.
#[derive(Debug, Clone, Copy, PartialEq, Eq, Structural)]
pub enum DbListReaction {
    /// Move within the list or to another list.
    List(ListReaction),
    Send(DbListMsg),
    Nothing,
}

/// What a list of the database view does with a key press: first the common
/// list movement; then Enter opens the selected row (criteria and results),
/// the configured search key opens the search, and the configured database
/// keys add the selected row or everything (results and tracks). `selected`
/// is the selected row and `rows` the number of rows, where there are any.
pub open spec fn db_list_reaction(
    list: DbList,
    p: KeyBindingView,
    keys: KeyConfig,
    selected: Option<usize>,
    rows: Option<usize>,
) -> DbListReaction {
    match list_key_of(p, keys) {
        Some(k) => DbListReaction::List(list_reaction(k, selected, rows)),
        None => {
            let enter = plain_key(p, "Enter"@);
            let search = bound_to(keys, IdKey::Other(IdKeyOther::LibrarySearch), p);
            let add_selected = bound_to(keys, IdKey::Other(IdKeyOther::DatabaseAddSelected), p);
            let add_all = bound_to(keys, IdKey::Other(IdKeyOther::DatabaseAddAll), p);
            match list {
                DbList::Criteria => if enter {
                    match selected {
                        Some(i) => DbListReaction::Send(
                            DbListMsg::SearchResult(search_criteria_of(criteria_at(i)->0)),
                        ),
                        None => DbListReaction::Nothing,
                    }
                } else if search {
                    DbListReaction::Send(DbListMsg::SearchPopupShow)
                } else {
                    DbListReaction::Nothing
                },
                DbList::SearchResult => if enter {
                    match selected {
                        Some(i) => DbListReaction::Send(DbListMsg::SearchTrack(i)),
                        None => DbListReaction::Nothing,
                    }
                } else if search {
                    DbListReaction::Send(DbListMsg::SearchPopupShow)
                } else if add_selected {
                    match selected {
                        Some(i) => DbListReaction::Send(DbListMsg::AddResultToPlaylist(i)),
                        None => DbListReaction::Nothing,
                    }
                } else if add_all {
                    DbListReaction::Send(DbListMsg::AddAllResultsConfirmShow)
                } else {
                    DbListReaction::Nothing
                },
                DbList::SearchTracks => if add_selected {
                    match selected {
                        Some(i) => DbListReaction::Send(DbListMsg::AddPlaylist(i)),
                        None => DbListReaction::Nothing,
                    }
                } else if add_all {
                    DbListReaction::Send(DbListMsg::AddAllToPlaylist)
                } else if search {
                    DbListReaction::Send(DbListMsg::SearchPopupShow)
                } else {
                    DbListReaction::Nothing
                },
            }
        },
    }
}

/// What a list of the database view does with a key press; see
/// `db_list_reaction`. The criteria list has a row for each criteria, and a
/// list with a selection has rows.
pub fn db_list_on(
    list: DbList,
    p: &KeyBinding,
    keys: &KeyConfig,
    selected: Option<usize>,
    rows: Option<usize>,
) -> (r: DbListReaction)
    requires
        selected is Some && rows is Some ==> rows->0 > 0,
        list == DbList::Criteria && selected is Some ==> selected->0 < DBCriteria::NUM_OPTIONS,
    ensures
        r == db_list_reaction(list, p@, *keys, selected, rows),
{
    if let Some(k) = list_key(p, keys) {
        return DbListReaction::List(common_list_movement(k, selected, rows));
    }
    let enter = is_plain_key(p, "Enter");
    let search = keys.is_bound(IdKey::Other(IdKeyOther::LibrarySearch), p);
    let add_selected = keys.is_bound(IdKey::Other(IdKeyOther::DatabaseAddSelected), p);
    let add_all = keys.is_bound(IdKey::Other(IdKeyOther::DatabaseAddAll), p);
    match list {
        DbList::Criteria => if enter {
            match selected {
                Some(i) => {
                    let c = DBCriteria::from_table_index(i);
                    match c {
                        Some(c) => DbListReaction::Send(DbListMsg::SearchResult(c.to_search_criteria())),
                        None => DbListReaction::Nothing,
                    }
                },
                None => DbListReaction::Nothing,
            }
        } else if search {
            DbListReaction::Send(DbListMsg::SearchPopupShow)
        } else {
            DbListReaction::Nothing
        },
        DbList::SearchResult => if enter {
            match selected {
                Some(i) => DbListReaction::Send(DbListMsg::SearchTrack(i)),
                None => DbListReaction::Nothing,
            }
        } else if search {
            DbListReaction::Send(DbListMsg::SearchPopupShow)
        } else if add_selected {
            match selected {
                Some(i) => DbListReaction::Send(DbListMsg::AddResultToPlaylist(i)),
                None => DbListReaction::Nothing,
            }
        } else if add_all {
            DbListReaction::Send(DbListMsg::AddAllResultsConfirmShow)
        } else {
            DbListReaction::Nothing
        },
        DbList::SearchTracks => if add_selected {
            match selected {
                Some(i) => DbListReaction::Send(DbListMsg::AddPlaylist(i)),
                None => DbListReaction::Nothing,
            }
        } else if add_all {
            DbListReaction::Send(DbListMsg::AddAllToPlaylist)
        } else if search {
            DbListReaction::Send(DbListMsg::SearchPopupShow)
        } else {
            DbListReaction::Nothing
        },
    }
}

} // verus!

verus! {

/// What the database is asked for the tracks of a search result.
#[derive(Debug, PartialEq, Eq)]
pub enum TrackQuery {
    /// The tracks listed in the playlist file at this path, in its order.
    PlaylistFile(String),
    /// The tracks of every artist whose name matches this SQL `LIKE` pattern.
    ArtistsLike(String),
    /// The tracks of every album whose title matches this pattern.
    AlbumsLike(String),
    /// The tracks without a genre.
    GenreUnknown,
    /// The tracks whose genre matches this pattern.
    GenreLike(String),
    /// The tracks in this directory.
    Directory(String),
}

/// The `LIKE` pattern that matches any text containing `val`.
pub open spec fn like_pattern(val: Seq<char>) -> Seq<char> {
    seq!['%'] + val + seq!['%']
}

/// A query, with its texts as values.
pub enum TrackQueryView {
    PlaylistFile(Seq<char>),
    ArtistsLike(Seq<char>),
    AlbumsLike(Seq<char>),
    GenreUnknown,
    GenreLike(Seq<char>),
    Directory(Seq<char>),
}

/// A query as a value.
pub open spec fn query_view(q: TrackQuery) -> TrackQueryView {
    match q {
        TrackQuery::PlaylistFile(p) => TrackQueryView::PlaylistFile(p@),
        TrackQuery::ArtistsLike(p) => TrackQueryView::ArtistsLike(p@),
        TrackQuery::AlbumsLike(p) => TrackQueryView::AlbumsLike(p@),
        TrackQuery::GenreUnknown => TrackQueryView::GenreUnknown,
        TrackQuery::GenreLike(p) => TrackQueryView::GenreLike(p@),
        TrackQuery::Directory(p) => TrackQueryView::Directory(p@),
    }
}

/// The query for the tracks of the result `val` under `criteria`: a playlist
/// or a directory by its path; artists, albums and genres by name containing
/// `val`, but the genre `[unknown]` stands for tracks without a genre.
pub open spec fn track_query_of(criteria: SearchCriteria, val: Seq<char>) -> TrackQueryView {
    match criteria {
        SearchCriteria::Playlist => TrackQueryView::PlaylistFile(val),
        SearchCriteria::Artist => TrackQueryView::ArtistsLike(like_pattern(val)),
        SearchCriteria::Album => TrackQueryView::AlbumsLike(like_pattern(val)),
        SearchCriteria::Genre => if val == "[unknown]"@ {
            TrackQueryView::GenreUnknown
        } else {
            TrackQueryView::GenreLike(like_pattern(val))
        },
        SearchCriteria::Directory => TrackQueryView::Directory(val),
    }
}

/// The query for the tracks of the result `val`; see `track_query_of`.
pub fn tracks_query(criteria: SearchCriteria, val: &str) -> (q: TrackQuery)
    ensures
        query_view(q) == track_query_of(criteria, val@),
{
    match criteria {
        SearchCriteria::Playlist => TrackQuery::PlaylistFile(String::from_str(val)),
        SearchCriteria::Artist => TrackQuery::ArtistsLike(like(val)),
        SearchCriteria::Album => TrackQuery::AlbumsLike(like(val)),
        SearchCriteria::Genre => {
            let unknown = "[unknown]";
            if same_text(val, unknown) {
                TrackQuery::GenreUnknown
            } else {
                TrackQuery::GenreLike(like(val))
            }
        },
        SearchCriteria::Directory => TrackQuery::Directory(String::from_str(val)),
    }
}

/// The `LIKE` pattern that matches any text containing `val`.
fn like(val: &str) -> (r: String)
    ensures
        r@ == like_pattern(val@),
{
    let pct = "%";
    proof {
        reveal_strlit("%");
    }
    let r = String::from_str(pct).concat(val).concat(pct);
    proof {
        assert(r@ =~= like_pattern(val@));
    }
    r
}

} // verus!
