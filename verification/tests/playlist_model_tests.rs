use termusic::ids::{Id, IdKey, IdKeyGlobal, IdKeyOther};
use termusic::key_config::{KeyBinding, KeyConfig};
use termusic::playlist_table::{Direction, TableCmd};
use termusic::select_states::KeyModifierSet;
use termusic::lyric::{EpisodeInfo, PodcastError, PodcastInfo};
use termusic::model::{
    LoopMode, Model, PlaylistCmd, PlaylistColumns, PlaylistTrack, SearchCriteria, SearchSource,
    TermusicLayout, TrackSource, TuiCmd, UiAction,
};
use termusic::playlist::{
    playlist_get_random_album_tracks, playlist_get_random_tracks, playlist_view_on, same_source, LibraryTrack,
    PlaylistError, PlaylistViewMsg, PlaylistViewReaction,
};

fn track(path: &str, title: &str, artist: &str, album: Option<&str>, ms: Option<u64>) -> PlaylistTrack {
    PlaylistTrack {
        source: TrackSource::Path(path.to_string()),
        title: Some(title.to_string()),
        artist: Some(artist.to_string()),
        album: album.map(|a| a.to_string()),
        duration_ms: ms,
    }
}

fn model_with(n: usize) -> Model {
    let mut m = Model::new(TermusicLayout::TreeView, LoopMode::Playlist);
    for i in 0..n {
        m.playlist.tracks.push(track(
            &format!("/music/{i}.mp3"),
            &format!("Song {i}"),
            "Artist",
            Some("Album"),
            Some(1000 * (i as u64 + 1)),
        ));
    }
    m
}

#[test]
fn swap_up_sends_swap_with_previous() {
    let mut m = model_with(3);
    m.playlist_swap_up(2);
    assert_eq!(m.cmds, vec![TuiCmd::Playlist(PlaylistCmd::SwapTrack { index_a: 2, index_b: 1 })]);
}

#[test]
fn swap_up_of_first_or_out_of_bounds_does_nothing() {
    let mut m = model_with(3);
    m.playlist_swap_up(0);
    m.playlist_swap_up(3);
    assert!(m.cmds.is_empty());
}

#[test]
fn swap_down_sends_swap_with_next() {
    let mut m = model_with(3);
    m.playlist_swap_down(1);
    assert_eq!(m.cmds, vec![TuiCmd::Playlist(PlaylistCmd::SwapTrack { index_a: 1, index_b: 2 })]);
}

#[test]
fn swap_down_of_last_or_on_empty_does_nothing() {
    let mut m = model_with(3);
    m.playlist_swap_down(2);
    m.playlist_swap_down(7);
    assert!(m.cmds.is_empty());
    let mut e = model_with(0);
    e.playlist_swap_down(0);
    assert!(e.cmds.is_empty());
}

#[test]
fn swap_down_then_up_swaps_the_same_pair() {
    let mut m = model_with(4);
    m.playlist_swap_down(1);
    m.playlist_swap_up(2);
    assert_eq!(
        m.cmds,
        vec![
            TuiCmd::Playlist(PlaylistCmd::SwapTrack { index_a: 1, index_b: 2 }),
            TuiCmd::Playlist(PlaylistCmd::SwapTrack { index_a: 2, index_b: 1 }),
        ]
    );
}

#[test]
fn delete_item_sends_its_source() {
    let mut m = model_with(2);
    m.playlist_delete_item(1);
    m.playlist_delete_item(2);
    assert_eq!(
        m.cmds,
        vec![TuiCmd::Playlist(PlaylistCmd::RemoveTrack {
            index: 1,
            source: TrackSource::Path("/music/1.mp3".to_string())
        })]
    );
}

#[test]
fn play_selected_sends_its_source() {
    let mut m = model_with(2);
    m.playlist_play_selected(0);
    m.playlist_play_selected(5);
    assert_eq!(
        m.cmds,
        vec![TuiCmd::Playlist(PlaylistCmd::PlaySpecific {
            index: 0,
            source: TrackSource::Path("/music/0.mp3".to_string())
        })]
    );
}

#[test]
fn clear_skips_empty_playlist() {
    let mut e = model_with(0);
    e.playlist_clear();
    assert!(e.cmds.is_empty());
    let mut m = model_with(1);
    m.playlist_clear();
    assert_eq!(m.cmds, vec![TuiCmd::Playlist(PlaylistCmd::Clear)]);
}

#[test]
fn shuffle_and_library_delete_send_commands() {
    let mut m = model_with(1);
    m.playlist_shuffle();
    m.playlist_update_library_delete();
    assert_eq!(
        m.cmds,
        vec![
            TuiCmd::Playlist(PlaylistCmd::Shuffle),
            TuiCmd::Playlist(PlaylistCmd::RemoveDeletedItems)
        ]
    );
}

#[test]
fn update_title_sums_known_durations() {
    let mut m = model_with(3);
    m.playlist.tracks[1].duration_ms = None;
    m.use_loop_mode_symbol = true;
    m.playlist_update_title();
    assert_eq!(
        m.ui,
        vec![UiAction::SetPlaylistTitle {
            tracks: 3,
            total_ms: 4000,
            loop_mode: LoopMode::Playlist,
            loop_symbol: true
        }]
    );
}

#[test]
fn reload_shows_columns_of_layout() {
    let mut m = model_with(1);
    m.layout = TermusicLayout::Podcast;
    m.playlist_reload();
    let title = UiAction::SetPlaylistTitle {
        tracks: 1,
        total_ms: 1000,
        loop_mode: LoopMode::Playlist,
        loop_symbol: false,
    };
    assert_eq!(
        m.ui,
        vec![
            UiAction::Remount(Id::Playlist),
            UiAction::SetPlaylistColumns(PlaylistColumns::Podcast),
            title.clone_action(),
            title,
        ]
    );
}

trait CloneAction {
    fn clone_action(&self) -> UiAction;
}

impl CloneAction for UiAction {
    fn clone_action(&self) -> UiAction {
        match self {
            UiAction::SetPlaylistTitle { tracks, total_ms, loop_mode, loop_symbol } => {
                UiAction::SetPlaylistTitle {
                    tracks: *tracks,
                    total_ms: *total_ms,
                    loop_mode: *loop_mode,
                    loop_symbol: *loop_symbol,
                }
            }
            _ => panic!("only titles are cloned here"),
        }
    }
}

#[test]
fn current_track_relocates_selection_when_it_was_on_old_current() {
    let mut m = model_with(5);
    m.playlist.current_track_index = Some(1);
    m.playlist_selected = Some(1);
    m.handle_current_track_index(3, false);
    assert_eq!(m.playlist.current_track_index, Some(3));
    assert_eq!(m.playlist_selected, Some(3));
    assert_eq!(m.ui, vec![UiAction::SelectPlaylistRow(3), UiAction::CurrentTrackChanged]);
}

#[test]
fn current_track_keeps_selection_elsewhere() {
    let mut m = model_with(5);
    m.playlist.current_track_index = Some(1);
    m.playlist_selected = Some(4);
    m.current_track_pos_ms = 83_000;
    m.handle_current_track_index(2, false);
    assert_eq!(m.current_track_pos_ms, 0);
    assert_eq!(m.playlist.current_track_index, Some(2));
    assert_eq!(m.playlist_selected, Some(4));
    assert_eq!(m.ui, vec![UiAction::CurrentTrackChanged]);
}

#[test]
fn current_track_without_old_current_needs_force() {
    let mut m = model_with(5);
    m.handle_current_track_index(2, false);
    assert_eq!(m.playlist_selected, None);
    m.handle_current_track_index(0, true);
    assert_eq!(m.playlist_selected, Some(0));
}

#[test]
fn current_track_out_of_bounds_keeps_current_index() {
    let mut m = model_with(2);
    m.playlist.current_track_index = Some(0);
    m.handle_current_track_index(9, false);
    assert_eq!(m.playlist.current_track_index, Some(0));
    assert_eq!(m.playlist_selected, Some(9));
}

#[test]
fn playlist_clear_event_empties_and_resets() {
    let mut m = model_with(3);
    m.playlist_selected = Some(2);
    m.playlist.current_track_index = Some(1);
    m.handle_playlist_clear();
    assert!(m.playlist.tracks.is_empty());
    assert_eq!(m.playlist.current_track_index, None);
    assert_eq!(m.playlist_selected, None);
    assert_eq!(m.ui[0], UiAction::ResetPlaylistTable);
    assert_eq!(
        m.ui[1],
        UiAction::SetPlaylistTitle { tracks: 0, total_ms: 0, loop_mode: LoopMode::Playlist, loop_symbol: false }
    );
}

#[test]
fn shuffle_keeps_selection_on_same_track() {
    let mut m = model_with(3);
    m.playlist_selected = Some(0);
    let new_order = vec![
        track("/music/2.mp3", "Song 2", "Artist", Some("Album"), Some(3000)),
        track("/music/0.mp3", "Song 0", "Artist", Some("Album"), Some(1000)),
        track("/music/1.mp3", "Song 1", "Artist", Some("Album"), Some(2000)),
    ];
    m.handle_playlist_shuffled(new_order);
    assert_eq!(m.playlist_selected, Some(1));
    assert_eq!(m.ui.last(), Some(&UiAction::SelectPlaylistRow(1)));
}

#[test]
fn same_source_compares_kind_and_text() {
    let a = TrackSource::Path("x".to_string());
    assert!(same_source(&a, &TrackSource::Path("x".to_string())));
    assert!(!same_source(&a, &TrackSource::Url("x".to_string())));
    assert!(!same_source(&a, &TrackSource::Path("y".to_string())));
}

#[test]
fn save_m3u_asks_when_file_exists() {
    let mut m = model_with(1);
    m.playlist_save_m3u_before("/tmp/a.m3u".to_string(), true);
    assert_eq!(m.ui, vec![UiAction::MountSavePlaylistConfirm("/tmp/a.m3u".to_string())]);
}

#[test]
fn save_m3u_reloads_playlist_results() {
    let mut m = model_with(1);
    m.dw.criteria = SearchCriteria::Playlist;
    m.playlist_save_m3u_before("/tmp/a.m3u".to_string(), false);
    assert_eq!(m.ui, vec![UiAction::SaveM3u("/tmp/a.m3u".to_string())]);
    assert_eq!(m.playlist_m3u_saved("/tmp/a.m3u".to_string(), Ok(())), Ok(()));
    assert_eq!(
        m.ui,
        vec![
            UiAction::SaveM3u("/tmp/a.m3u".to_string()),
            UiAction::LibraryReloadAndFocus("/tmp/a.m3u".to_string()),
            UiAction::DatabaseUpdateSearchResults,
        ]
    );
    let mut n = model_with(1);
    n.playlist_save_m3u("/tmp/b.m3u".to_string());
    assert_eq!(n.playlist_m3u_saved("/tmp/b.m3u".to_string(), Err("disk full".to_string())), Err("disk full".to_string()));
    assert_eq!(n.ui.len(), 1);
}

#[test]
fn random_tracks_take_only_supported_files() {
    let tracks = vec![
        LibraryTrack { path: "/a.txt".to_string(), supported: false },
        LibraryTrack { path: "/b.mp3".to_string(), supported: true },
    ];
    let picked = playlist_get_random_tracks(&tracks, 4);
    assert_eq!(picked, vec!["/b.mp3".to_string(); 4]);
}

#[test]
fn random_album_takes_a_big_enough_album() {
    let albums = vec![
        vec!["/small/1.mp3".to_string()],
        vec!["/big/1.mp3".to_string(), "/big/2.mp3".to_string()],
    ];
    let picked = playlist_get_random_album_tracks(&albums, 2);
    assert_eq!(picked, vec!["/big/1.mp3".to_string(), "/big/2.mp3".to_string()]);
}

#[test]
fn add_random_tracks_appends_at_end() {
    let mut m = model_with(2);
    m.random_track_quantity = 2;
    let tracks = vec![LibraryTrack { path: "/b.mp3".to_string(), supported: true }];
    m.playlist_add_random_tracks(Some(&tracks));
    assert_eq!(
        m.cmds,
        vec![TuiCmd::Playlist(PlaylistCmd::AddTrack {
            at_index: 2,
            tracks: vec![
                TrackSource::Path("/b.mp3".to_string()),
                TrackSource::Path("/b.mp3".to_string())
            ]
        })]
    );
}

#[test]
fn add_random_album_appends_whole_album() {
    let mut m = model_with(0);
    m.random_album_min_quantity = 1;
    let albums = vec![vec!["/a/1.mp3".to_string(), "/a/2.mp3".to_string()]];
    m.playlist_add_random_album(Some(&albums));
    assert_eq!(
        m.cmds,
        vec![TuiCmd::Playlist(PlaylistCmd::AddTrack {
            at_index: 0,
            tracks: vec![
                TrackSource::Path("/a/1.mp3".to_string()),
                TrackSource::Path("/a/2.mp3".to_string())
            ]
        })]
    );
}

#[test]
fn playlist_search_is_case_insensitive_substring() {
    let mut m = model_with(0);
    m.playlist.tracks.push(track("/1.mp3", "Yesterday", "The Beatles", Some("Help!"), None));
    m.playlist.tracks.push(track("/2.mp3", "Song", "Queen", None, None));
    m.playlist.tracks.push(track("/3.mp3", "Let It Be", "The BEATLES", None, None));
    m.playlist_update_search("beat");
    assert_eq!(m.ui, vec![UiAction::GeneralSearchShow(SearchSource::Playlist, vec![0, 2])]);
}

#[test]
fn database_search_uses_wildcards() {
    let mut m = model_with(0);
    let db = vec![
        track("/1.mp3", "Yesterday", "The Beatles", None, None),
        track("/2.mp3", "Bohemian Rhapsody", "Queen", Some("A Night at the Opera"), None),
    ];
    m.database_update_search(&db, "n?ght");
    assert_eq!(m.ui, vec![UiAction::GeneralSearchShow(SearchSource::Database, vec![1])]);
    let mut all = model_with(0);
    all.database_update_search(&db, "");
    assert_eq!(all.ui, vec![UiAction::GeneralSearchShow(SearchSource::Database, vec![0, 1])]);
}

fn paths_of(m: &Model) -> Vec<String> {
    m.playlist
        .tracks
        .iter()
        .map(|t| match &t.source {
            TrackSource::Path(p) => p.clone(),
            TrackSource::Url(u) | TrackSource::PodcastUrl(u) => u.clone(),
        })
        .collect()
}

#[test]
fn server_playlist_changes_follow_current_track() {
    let mut m = model_with(3);
    m.playlist.current_track_index = Some(1);
    assert_eq!(m.handle_playlist_add(0, track("/new.mp3", "N", "A", None, Some(500))), Ok(()));
    assert_eq!(paths_of(&m), vec!["/new.mp3", "/music/0.mp3", "/music/1.mp3", "/music/2.mp3"]);
    assert_eq!(m.playlist.current_track_index, Some(2));
    assert_eq!(
        m.ui.last(),
        Some(&UiAction::SetPlaylistTitle { tracks: 4, total_ms: 6500, loop_mode: LoopMode::Playlist, loop_symbol: false })
    );
    assert_eq!(m.handle_playlist_add(9, track("/x.mp3", "X", "A", None, None)), Err(PlaylistError::IndexOutOfBounds));
    assert_eq!(m.handle_playlist_swap_tracks(2, 3), Ok(()));
    assert_eq!(paths_of(&m), vec!["/new.mp3", "/music/0.mp3", "/music/2.mp3", "/music/1.mp3"]);
    assert_eq!(m.playlist.current_track_index, Some(3));
    assert_eq!(m.handle_playlist_swap_tracks(0, 4), Err(PlaylistError::IndexOutOfBounds));
    assert_eq!(
        m.handle_playlist_remove(0, &TrackSource::Path("/music/0.mp3".to_string())),
        Err(PlaylistError::TrackMismatch)
    );
    assert_eq!(m.handle_playlist_remove(0, &TrackSource::Path("/new.mp3".to_string())), Ok(()));
    assert_eq!(m.playlist.current_track_index, Some(2));
    assert_eq!(m.handle_playlist_remove(2, &TrackSource::Path("/music/1.mp3".to_string())), Ok(()));
    assert_eq!(m.playlist.current_track_index, None);
    assert_eq!(paths_of(&m), vec!["/music/0.mp3", "/music/2.mp3"]);
    assert_eq!(m.handle_playlist_remove(5, &TrackSource::Path("/music/1.mp3".to_string())), Err(PlaylistError::IndexOutOfBounds));
}

#[test]
fn server_loop_mode_changes() {
    let mut m = model_with(1);
    assert_eq!(m.handle_playlist_loopmode(2), Ok(()));
    assert_eq!(m.playlist.loop_mode, LoopMode::Random);
    assert_eq!(m.ui.last(), Some(&UiAction::Redraw));
    assert_eq!(m.handle_playlist_loopmode(7), Err(PlaylistError::UnknownLoopMode));
    assert_eq!(m.playlist.loop_mode, LoopMode::Random);
}

fn added(m: &Model) -> (usize, Vec<TrackSource>) {
    match m.cmds.last() {
        Some(TuiCmd::Playlist(PlaylistCmd::AddTrack { at_index, tracks })) => {
            (*at_index, tracks.iter().map(|t| t.duplicate()).collect())
        }
        other => panic!("unexpected {:?}", other),
    }
}

#[test]
fn adding_files_playlists_and_streams() {
    let mut m = model_with(2);
    m.playlist_add_playlist(&vec!["/a.mp3".to_string(), "https://radio/x".to_string(), "htt".to_string()]);
    assert_eq!(
        added(&m),
        (
            2,
            vec![
                TrackSource::Path("/a.mp3".to_string()),
                TrackSource::Url("https://radio/x".to_string()),
                TrackSource::Path("htt".to_string()),
            ]
        )
    );
    // a path on its own is a stream only when its first component is `http`
    m.playlist_add_item("http/stream".to_string(), None);
    assert_eq!(added(&m), (2, vec![TrackSource::Url("http/stream".to_string())]));
    m.playlist_add_item("https://x".to_string(), None);
    assert_eq!(added(&m), (2, vec![TrackSource::Path("https://x".to_string())]));
    let before = m.cmds.len();
    m.playlist_add("/gone.mp3".to_string(), false, None, None);
    assert_eq!(m.cmds.len(), before);
    m.playlist_add("/dir".to_string(), true, Some(&vec!["/dir/1.mp3".to_string()]), None);
    assert_eq!(added(&m), (2, vec![TrackSource::Path("/dir/1.mp3".to_string())]));
    let ui_before = m.ui.len();
    m.playlist_add("/song.mp3".to_string(), true, None, None);
    assert_eq!(added(&m), (2, vec![TrackSource::Path("/song.mp3".to_string())]));
    assert_eq!(m.ui.len(), ui_before + 1);
}

#[test]
fn adding_podcast_episodes() {
    let ep = |u: &str| EpisodeInfo {
        url: u.to_string(),
        title: "t".to_string(),
        published: None,
        duration: "1:00".to_string(),
        description: String::new(),
    };
    let ps = vec![PodcastInfo { title: "P".to_string(), episodes: vec![ep("u0"), ep("u1")] }];
    let mut m = model_with(1);
    assert_eq!(m.playlist_add_episode(&ps, 0, 1), Ok(()));
    assert_eq!(added(&m), (1, vec![TrackSource::PodcastUrl("u1".to_string())]));
    assert_eq!(m.playlist_add_episode(&ps, 3, 0), Err(PodcastError::PodcastMissing));
    assert_eq!(m.playlist_add_episode(&ps, 0, 2), Err(PodcastError::EpisodeMissing));
    assert_eq!(m.playlist_add_episode(&vec![], 0, 0), Ok(()));
    assert_eq!(m.cmds.len(), 1);
}

fn pk(shift: bool, code: &str) -> KeyBinding {
    KeyBinding { modifiers: KeyModifierSet { shift, control: false, alt: false }, code: code.to_string() }
}

#[test]
fn playlist_view_keys() {
    let mut keys = KeyConfig::new();
    keys.set(IdKey::Global(IdKeyGlobal::Down), pk(false, "j"));
    keys.set(IdKey::Other(IdKeyOther::PlaylistDelete), pk(false, "d"));
    keys.set(IdKey::Other(IdKeyOther::PlaylistSwapDown), pk(false, "J"));
    keys.set(IdKey::Other(IdKeyOther::PlaylistModeCycle), pk(false, "m"));
    assert_eq!(
        playlist_view_on(&pk(false, "j"), &keys, None),
        PlaylistViewReaction::Perform(TableCmd::Move(Direction::Down))
    );
    assert_eq!(
        playlist_view_on(&pk(false, "PageUp"), &keys, None),
        PlaylistViewReaction::Perform(TableCmd::Scroll(Direction::Up))
    );
    assert_eq!(playlist_view_on(&pk(true, "BackTab"), &keys, None), PlaylistViewReaction::Send(PlaylistViewMsg::BlurUp));
    assert_eq!(playlist_view_on(&pk(false, "d"), &keys, None), PlaylistViewReaction::Nothing);
    assert_eq!(playlist_view_on(&pk(false, "d"), &keys, Some(3)), PlaylistViewReaction::Send(PlaylistViewMsg::Delete(3)));
    assert_eq!(
        playlist_view_on(&pk(false, "Enter"), &keys, Some(1)),
        PlaylistViewReaction::Send(PlaylistViewMsg::PlaySelected(1))
    );
    assert_eq!(
        playlist_view_on(&pk(false, "J"), &keys, Some(2)),
        PlaylistViewReaction::PerformThenSend(TableCmd::Move(Direction::Down), PlaylistViewMsg::SwapDown(2))
    );
    assert_eq!(playlist_view_on(&pk(false, "m"), &keys, None), PlaylistViewReaction::Send(PlaylistViewMsg::LoopModeCycle));
    assert_eq!(playlist_view_on(&pk(false, "x"), &keys, Some(0)), PlaylistViewReaction::Nothing);
}

#[test]
fn failed_random_queries_send_empty_adds() {
    let mut m = model_with(2);
    m.playlist_add_random_tracks(None);
    m.playlist_add_random_album(None);
    assert_eq!(
        m.cmds,
        vec![
            TuiCmd::Playlist(PlaylistCmd::AddTrack { at_index: 2, tracks: vec![] }),
            TuiCmd::Playlist(PlaylistCmd::AddTrack { at_index: 2, tracks: vec![] }),
        ]
    );
}
