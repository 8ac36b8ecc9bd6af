use termusic::database::{
    common_list_movement, last_two_path_parts, order_tracks_by_path, result_display, AddAlbumConfirm,
    DBCriteria, ListKey, ListReaction,
};
use termusic::ids::{Id, IdKey, IdKeyGlobal, IdKeyOther};
use termusic::library::{
    dir_children, focus_after_delete, handle_left_key, handle_right_key, library_key, library_key_reaction, library_on,
    DirEntryInfo, LeftKeyAction, LibraryKey, LibraryReaction, MusicLibData, RightKeyAction, SelectedNode, SelectedPath,
};
use termusic::key_config::{KeyBinding, KeyConfig};
use termusic::select_states::KeyModifierSet;
use termusic::lyric::{clean_description, split_lines, LyricTitleSource};
use termusic::model::{
    LibraryEvent,
    LoopMode, Model, PlaylistCmd, PlaylistTrack, SearchCriteria, TermusicLayout, TrackSource,
    TuiCmd, UiAction,
};
use termusic::playlist_table::{Direction, Position, TableCmd};
use termusic::search::make_search_pattern;
use termusic::startup::{
    after_attempt, connect_precheck, ctrl_c_action, find_active_server_process, server_address,
    text_occurs_in, ConnectError, ConnectOutcome, CtrlCAction, ProcessInfo, ServerProcess, Transport,
    WaitStep,
};

fn model() -> Model {
    Model::new(TermusicLayout::DataBase, LoopMode::Single)
}

fn track(path: &str, title: Option<&str>) -> PlaylistTrack {
    PlaylistTrack {
        source: TrackSource::Path(path.to_string()),
        title: title.map(|t| t.to_string()),
        artist: None,
        album: None,
        duration_ms: None,
    }
}

#[test]
fn criteria_rows_map_to_criteria() {
    assert_eq!(DBCriteria::from_table_index(0), Some(DBCriteria::Artists));
    assert_eq!(DBCriteria::from_table_index(4), Some(DBCriteria::Playlists));
    assert_eq!(DBCriteria::from_table_index(5), None);
    assert_eq!(DBCriteria::Directories.to_search_criteria(), SearchCriteria::Directory);
    let labels = DBCriteria::build_table();
    assert_eq!(labels.len(), DBCriteria::NUM_OPTIONS as usize);
    assert_eq!(labels[4], "Playlists");
}

#[test]
fn add_album_confirm_title() {
    let c = AddAlbumConfirm::new("Album");
    assert_eq!(c.title, " Are you sure you want to add EVERYTHING from Album? ");
}

#[test]
fn result_names_by_criteria() {
    assert_eq!(last_two_path_parts("/home/u/music/list.m3u"), "music/list.m3u");
    assert_eq!(last_two_path_parts("list.m3u"), "");
    assert_eq!(last_two_path_parts("/list.m3u"), "/list.m3u");
    let dir = "/home/u/music/rock".to_string();
    assert_eq!(result_display(SearchCriteria::Directory, &dir), "music/rock/");
    assert_eq!(result_display(SearchCriteria::Playlist, &dir), "music/rock");
    assert_eq!(result_display(SearchCriteria::Artist, &dir), dir);
}

#[test]
fn sync_results_numbers_all_results_and_skips_unnamed() {
    let mut m = model();
    m.dw.criteria = SearchCriteria::Playlist;
    m.dw.search_results = vec!["a.m3u".to_string(), "/x/b.m3u".to_string()];
    m.database_sync_results();
    assert_eq!(
        m.ui,
        vec![UiAction::DatabaseShowResults(vec![(2, "x/b.m3u".to_string())], false)]
    );
}

#[test]
fn update_search_results_sorts_naturally_and_focuses() {
    let mut m = model();
    m.database_update_search_results(vec![
        "track10".to_string(),
        "track2".to_string(),
        "track1".to_string(),
    ]);
    assert_eq!(
        m.dw.search_results,
        vec!["track1".to_string(), "track2".to_string(), "track10".to_string()]
    );
    assert_eq!(
        m.ui[0],
        UiAction::DatabaseShowResults(
            vec![
                (1, "track1".to_string()),
                (2, "track2".to_string()),
                (3, "track10".to_string())
            ],
            false
        )
    );
    assert_eq!(m.ui[1], UiAction::Activate(Id::DBListSearchResult));
}

#[test]
fn search_tracks_filled_for_existing_result() {
    let mut m = model();
    m.dw.search_results = vec!["Queen".to_string()];
    m.database_update_search_tracks(0, Some(vec![track("/q.mp3", Some("Song")), track("/r.mp3", None)]));
    assert_eq!(m.dw.search_tracks.len(), 2);
    assert_eq!(
        m.ui,
        vec![
            UiAction::DatabaseShowTracks(vec![Some("Song".to_string()), None], false),
            UiAction::Activate(Id::DBListSearchTracks)
        ]
    );
    m.database_update_search_tracks(3, Some(vec![track("/q.mp3", None)]));
    assert!(m.dw.search_tracks.is_empty());
}

#[test]
fn reload_empties_lists() {
    let mut m = model();
    m.dw.search_results = vec!["x".to_string()];
    m.database_reload();
    assert!(m.dw.search_results.is_empty());
    assert_eq!(m.ui.len(), 5);
    assert_eq!(m.ui[3], UiAction::DatabaseShowTracks(vec![], true));
    assert_eq!(m.ui[4], UiAction::DatabaseShowResults(vec![], true));
}

#[test]
fn add_all_results_only_with_results() {
    let mut m = model();
    m.database_add_all_results(&vec!["/a.mp3".to_string()]);
    assert!(m.cmds.is_empty());
    assert_eq!(m.ui, vec![UiAction::UmountIfMounted(Id::DatabaseAddConfirmPopup)]);
    m.dw.search_results = vec!["Album".to_string()];
    m.database_add_all_results(&vec!["/a.mp3".to_string()]);
    assert_eq!(
        m.cmds,
        vec![TuiCmd::Playlist(PlaylistCmd::AddTrack {
            at_index: 0,
            tracks: vec![TrackSource::Path("/a.mp3".to_string())]
        })]
    );
}

#[test]
fn add_confirm_popup_mount() {
    let mut m = model();
    m.mount_results_add_confirm_database(SearchCriteria::Album);
    assert_eq!(
        m.ui,
        vec![
            UiAction::MountAddConfirm(SearchCriteria::Album),
            UiAction::Activate(Id::DatabaseAddConfirmPopup)
        ]
    );
}

#[test]
fn list_down_on_last_row_moves_to_next_list() {
    assert_eq!(common_list_movement(ListKey::Down, Some(2), Some(3)), ListReaction::FocusNext);
    assert_eq!(
        common_list_movement(ListKey::Down, Some(1), Some(3)),
        ListReaction::Perform(TableCmd::Move(Direction::Down))
    );
    assert_eq!(
        common_list_movement(ListKey::End, None, None),
        ListReaction::Perform(TableCmd::GoTo(Position::End))
    );
    assert_eq!(common_list_movement(ListKey::BackTab, None, None), ListReaction::FocusPrev);
}

#[test]
fn match_record_looks_at_artist_title_album() {
    let mut t = track("/a.mp3", Some("Hello"));
    assert!(Model::match_record(&t, "*hell*"));
    assert!(!Model::match_record(&t, "*bye*"));
    t.album = Some("goodbye".to_string());
    assert!(Model::match_record(&t, "*bye*"));
    assert_eq!(make_search_pattern("ÀB"), "*àb*");
    let found = Model::update_search(&vec![t, track("/b.mp3", None)], "O?D");
    assert_eq!(found, vec![0]);
}

#[test]
fn episode_description_is_cleaned() {
    let cleaned = clean_description("Hello<br/>world &amp; <b>friends</b>\n\n\n\nBye");
    assert_eq!(cleaned, "Hello\nworld & friends\n\nBye");
    assert_eq!(clean_description("bad &nosuchentity; x"), "bad &nosuchentity; x");
    assert_eq!(split_lines("a\n\nb"), vec!["a".to_string(), "".to_string(), "b".to_string()]);
}

#[test]
fn episode_lines_wrap_to_view_width() {
    let mut m = model();
    m.lyric_update_for_episode_after(
        "Pod",
        "Ep 1",
        Some("May 1, 2024"),
        "10:00",
        "one two three four five six",
        20,
    );
    let expected: Vec<String> = vec![
        "Pod", "Ep 1", "   ", "Published: May 1, 2024", "Duration: 10:00", "   ", "Description:",
        "one two", "three four", "five six",
    ]
    .into_iter()
    .map(|s| s.to_string())
    .collect();
    assert_eq!(m.ui, vec![UiAction::LyricShow(expected)]);
}

#[test]
fn lyric_title_by_source() {
    let mut m = model();
    m.lyric_update_title(LyricTitleSource::Track {
        artist: "An artist with a very long name".to_string(),
        title: "Song".to_string(),
    });
    m.lyric_update_title(LyricTitleSource::NothingPlaying);
    assert_eq!(
        m.ui,
        vec![
            UiAction::SetLyricTitle(" Lyrics of An artist with a ver - Song ".to_string()),
            UiAction::SetLyricTitle(" No track is playing ".to_string())
        ]
    );
}

#[test]
fn lyric_line_is_set_once() {
    let mut m = model();
    m.lyric_set_lyric("Stopped.".to_string());
    m.lyric_set_lyric("Stopped.".to_string());
    assert_eq!(m.ui.len(), 1);
    m.lyric_update_for_radio("Song", false);
    m.lyric_update_for_radio("", true);
    assert_eq!(m.ui.len(), 1);
    m.lyric_update_for_radio("Song", true);
    assert_eq!(m.lyric_line, "Currently Playing: Song");
    assert_eq!(m.ui.len(), 2);
}

#[test]
fn music_lib_data_starts_idle() {
    let d = MusicLibData::new("/music".to_string(), true);
    assert!(d.is_dir && !d.is_loading && !d.is_error);
    assert_eq!(d.as_str, None);
    assert_eq!(d.path, "/music");
    let root = MusicLibData::new("/".to_string(), true);
    assert_eq!(root.as_str, Some("/".to_string()));
}

#[test]
fn music_lib_data_needs_absolute_path() {
    assert!(MusicLibData::try_new("music/rock".to_string(), true).is_none());
    let d = MusicLibData::try_new("/music/rock.mp3".to_string(), false).unwrap();
    assert!(!d.is_dir && !d.is_loading && !d.is_error);
    assert_eq!(d.path, "/music/rock.mp3");
    assert_eq!(d.as_str, None);
}

#[test]
fn arrow_keys_on_library_nodes() {
    let open_dir = SelectedNode { is_dir: true, is_open: true, is_loading: false, num_children: 2 };
    let file = SelectedNode { is_dir: false, is_open: false, is_loading: false, num_children: 0 };
    let empty_dir = SelectedNode { is_dir: true, is_open: false, is_loading: false, num_children: 0 };
    let loading = SelectedNode { is_loading: true, ..empty_dir };
    assert_eq!(handle_left_key(Some(open_dir)), LeftKeyAction::CloseNode);
    assert_eq!(handle_left_key(Some(file)), LeftKeyAction::SelectParent);
    assert_eq!(handle_left_key(None), LeftKeyAction::Nothing);
    assert_eq!(handle_right_key(Some(open_dir)), RightKeyAction::OpenNode);
    assert_eq!(handle_right_key(Some(empty_dir)), RightKeyAction::LoadNode);
    assert_eq!(handle_right_key(Some(loading)), RightKeyAction::Nothing);
    assert_eq!(handle_right_key(Some(file)), RightKeyAction::AddToPlaylist);
}

#[test]
fn focus_after_delete_stays_in_place() {
    let siblings = vec!["/m/a".to_string(), "/m/b".to_string(), "/m/c".to_string()];
    assert_eq!(focus_after_delete(&siblings, 1, Some("/m".to_string())), Some("/m/b".to_string()));
    let only = vec!["/m/a".to_string()];
    assert_eq!(focus_after_delete(&only, 0, Some("/m".to_string())), Some("/m".to_string()));
    assert_eq!(focus_after_delete(&only, 0, None), None);
}

#[test]
fn delete_confirm_by_kind() {
    let mut m = model();
    m.library_show_delete_confirm("/m/a.mp3".to_string(), true, None);
    m.new_library_show_delete_confirm("/m/dir".to_string(), false, Some("/m".to_string()));
    assert_eq!(
        m.ui,
        vec![
            UiAction::MountDeleteConfirmRadio { path: "/m/a.mp3".to_string(), focus_node: None },
            UiAction::MountDeleteConfirmInput {
                path: "/m/dir".to_string(),
                focus_node: Some("/m".to_string()),
                warning: "You're about to delete the whole directory.".to_string()
            }
        ]
    );
    m.mount_library();
    assert_eq!(
        m.ui.last(),
        Some(&UiAction::MountLibrary {
            root: Some(("/dev/null".to_string(), "Loading...".to_string())),
            events: vec![
                LibraryEvent::Reload,
                LibraryEvent::ReloadPath,
                LibraryEvent::TreeNodeReady,
                LibraryEvent::TreeNodeReadySub,
            ],
        })
    );
}

#[test]
fn lyric_cycle_reports_new_frame() {
    let mut m = model();
    m.lyric_cycle(None);
    assert!(m.ui.is_empty());
    m.lyric_cycle(Some("eng"));
    assert_eq!(
        m.ui,
        vec![UiAction::ShowMessage {
            title: "Lyric switch successful".to_string(),
            text: "eng lyric is showing".to_string()
        }]
    );
}

#[test]
fn server_process_found_by_executable_name() {
    let procs = vec![
        ProcessInfo { pid: 1, exe: None },
        ProcessInfo { pid: 2, exe: Some("/usr/bin/bash".to_string()) },
        ProcessInfo { pid: 3, exe: Some("/usr/local/bin/termusic-server".to_string()) },
        ProcessInfo { pid: 4, exe: Some("/opt/termusic-server".to_string()) },
    ];
    assert_eq!(find_active_server_process(&procs), Some(3));
    assert_eq!(find_active_server_process(&procs[..2].iter().map(|p| ProcessInfo { pid: p.pid, exe: p.exe.clone() }).collect()), None);
    assert!(text_occurs_in("", ""));
    assert!(!text_occurs_in("abc", "ab"));
}

#[test]
fn second_ctrl_c_within_two_seconds_exits() {
    assert_eq!(ctrl_c_action(None), CtrlCAction::Remember);
    assert_eq!(ctrl_c_action(Some(1500)), CtrlCAction::Exit);
    assert_eq!(ctrl_c_action(Some(2000)), CtrlCAction::Exit);
    assert_eq!(ctrl_c_action(Some(2001)), CtrlCAction::Remember);
}

#[test]
fn library_keys_react() {
    use_library_keys();
}

fn use_library_keys() {
    let root = "/music/rock";
    assert_eq!(
        library_key_reaction(LibraryKey::Backspace, root, None, None),
        LibraryReaction::LoadParent { parent: "/music".to_string(), focus: "/music/rock".to_string() }
    );
    assert_eq!(library_key_reaction(LibraryKey::Backspace, "/", None, None), LibraryReaction::Nothing);
    assert_eq!(
        library_key_reaction(LibraryKey::CycleRoot, root, None, None),
        LibraryReaction::SwitchRoot("/music/rock".to_string())
    );
    let file = SelectedPath { path: "/music/rock/a.mp3".to_string(), is_dir: false };
    assert_eq!(
        library_key_reaction(LibraryKey::LoadTrack, root, None, Some(file)),
        LibraryReaction::AddToPlaylist("/music/rock/a.mp3".to_string())
    );
    let dir = SelectedPath { path: "/music/rock/live".to_string(), is_dir: true };
    assert_eq!(library_key_reaction(LibraryKey::TagEditor, root, None, Some(dir)), LibraryReaction::Nothing);
    let open_dir = SelectedNode { is_dir: true, is_open: true, is_loading: false, num_children: 1 };
    assert_eq!(
        library_key_reaction(LibraryKey::Left, root, Some(open_dir), None),
        LibraryReaction::Left(LeftKeyAction::CloseNode)
    );
}

#[test]
fn waiting_for_the_server() {
    assert_eq!(server_address(Transport::Http, "127.0.0.1:50101"), "http://127.0.0.1:50101");
    assert_eq!(server_address(Transport::Uds, "/tmp/termusic.socket"), "unix:///tmp/termusic.socket");
    assert_eq!(connect_precheck(true, ServerProcess::Running, 7), Some(ConnectError::Timeout));
    assert_eq!(connect_precheck(false, ServerProcess::Zombie, 7), Some(ConnectError::Exited(7)));
    assert_eq!(connect_precheck(false, ServerProcess::Gone, 8), Some(ConnectError::Exited(8)));
    assert_eq!(connect_precheck(false, ServerProcess::Running, 7), None);
    assert_eq!(after_attempt(Transport::Http, ConnectOutcome::Refused), WaitStep::Retry);
    assert_eq!(after_attempt(Transport::Http, ConnectOutcome::NotFound), WaitStep::Stop(ConnectError::Failed));
    assert_eq!(after_attempt(Transport::Uds, ConnectOutcome::NotFound), WaitStep::Retry);
    assert_eq!(after_attempt(Transport::Uds, ConnectOutcome::Connected), WaitStep::Connected);
    assert_eq!(after_attempt(Transport::Uds, ConnectOutcome::Failed), WaitStep::Stop(ConnectError::Failed));
}

#[test]
fn found_tracks_ordered_by_path_unless_playlist() {
    let found = vec![
        track("/b/track10.mp3", Some("ten")),
        track("/b/track2.mp3", Some("two")),
        track("/a.mp3", Some("a")),
    ];
    let ordered = order_tracks_by_path(&found);
    let titles: Vec<Option<String>> = ordered.iter().map(|t| t.title.clone()).collect();
    assert_eq!(titles, vec![Some("a".to_string()), Some("two".to_string()), Some("ten".to_string())]);
    let mut m = model();
    m.dw.search_results = vec!["x".to_string()];
    m.database_update_search_tracks(0, Some(found));
    assert_eq!(m.dw.search_tracks[0].title, Some("a".to_string()));
    assert_eq!(m.dw.search_tracks[2].title, Some("ten".to_string()));
    let mut p = model();
    p.dw.criteria = SearchCriteria::Playlist;
    p.dw.search_results = vec!["/list.m3u".to_string()];
    p.database_update_search_tracks(
        0,
        Some(vec![track("/z.mp3", Some("z")), track("/a.mp3", Some("a"))]),
    );
    assert_eq!(p.dw.search_tracks[0].title, Some("z".to_string()));
}

fn press(shift: bool, ctrl: bool, code: &str) -> KeyBinding {
    KeyBinding { modifiers: KeyModifierSet { shift, control: ctrl, alt: false }, code: code.to_string() }
}

#[test]
fn library_key_presses_classified_in_order() {
    let mut keys = KeyConfig::new();
    keys.set(IdKey::Global(IdKeyGlobal::Left), press(false, false, "h"));
    keys.set(IdKey::Global(IdKeyGlobal::Down), press(false, false, "j"));
    keys.set(IdKey::Global(IdKeyGlobal::GotoTop), press(false, false, "g"));
    keys.set(IdKey::Other(IdKeyOther::LibraryDelete), press(false, false, "d"));
    keys.set(IdKey::Other(IdKeyOther::LibraryTagEditor), press(false, false, "t"));
    keys.set(IdKey::Other(IdKeyOther::LibraryLoadDir), press(true, false, "L"));
    let load_track = press(false, false, "l");
    assert_eq!(library_key(&press(false, false, "h"), &keys, &load_track), Some(LibraryKey::Left));
    assert_eq!(library_key(&press(false, false, "Left"), &keys, &load_track), Some(LibraryKey::Left));
    assert_eq!(library_key(&press(false, false, "j"), &keys, &load_track), Some(LibraryKey::Down));
    assert_eq!(library_key(&press(false, false, "g"), &keys, &load_track), Some(LibraryKey::Top));
    assert_eq!(library_key(&press(false, false, "End"), &keys, &load_track), Some(LibraryKey::Bottom));
    assert_eq!(library_key(&press(false, false, "d"), &keys, &load_track), Some(LibraryKey::Delete));
    assert_eq!(library_key(&press(false, false, "l"), &keys, &load_track), Some(LibraryKey::LoadTrack));
    assert_eq!(library_key(&press(true, false, "L"), &keys, &load_track), Some(LibraryKey::LoadDir));
    assert_eq!(library_key(&press(true, false, "BackTab"), &keys, &load_track), Some(LibraryKey::Blur));
    assert_eq!(library_key(&press(false, true, "Left"), &keys, &load_track), None);
    let root = "/music";
    let file = SelectedPath { path: "/music/a.mp3".to_string(), is_dir: false };
    assert_eq!(
        library_on(&press(false, false, "t"), &keys, &load_track, root, None, Some(file)),
        LibraryReaction::OpenTagEditor("/music/a.mp3".to_string())
    );
    assert_eq!(
        library_on(&press(false, false, "Backspace"), &keys, &load_track, root, None, None),
        LibraryReaction::LoadParent { parent: "/".to_string(), focus: "/music".to_string() }
    );
    assert_eq!(library_on(&press(false, false, "z"), &keys, &load_track, root, None, None), LibraryReaction::Nothing);
}

#[test]
fn directory_children_hide_dot_entries_and_sort_by_key() {
    let e = |name: &str, key: &str| DirEntryInfo {
        name: name.to_string(),
        sort_key: key.to_string(),
        path: format!("/m/{}", name),
    };
    let entries = vec![e("b10", "b10"), e(".hidden", ".hidden"), e("b9", "b9"), e("a", "a")];
    assert_eq!(dir_children(&entries), vec!["/m/a".to_string(), "/m/b9".to_string(), "/m/b10".to_string()]);
    assert!(dir_children(&vec![e(".x", ".x")]).is_empty());
}
