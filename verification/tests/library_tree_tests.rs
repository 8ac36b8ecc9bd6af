use termusic::library_roots::{
    library_add_root, library_reload_scans, library_remove_root, library_switch_root, library_update_search,
    RootError,
};
use termusic::model::{LoopMode, Model, TermusicLayout, TuiCmd};
use termusic::library_tree::{
    focus_step, full_reload_plan, node_index_of, FocusStep, ready_sub_plan, reload_plan, LibraryYank, PasteError, ReadySubPlan,
};

fn paths(v: &[&str]) -> Vec<String> {
    v.iter().map(|s| s.to_string()).collect()
}

#[test]
fn reload_starts_at_nearest_loaded_node() {
    let nodes = paths(&["/m", "/m/a", "/m/a/b", "/m/c"]);
    assert_eq!(reload_plan(&nodes, "/m/a/b/x"), Some((2, 2)));
    assert_eq!(reload_plan(&nodes, "/m/a"), Some((1, 1)));
    assert_eq!(reload_plan(&nodes, "/m"), Some((0, 0)));
    assert_eq!(reload_plan(&nodes, "/m/a/x"), Some((0, 2)));
    assert_eq!(reload_plan(&nodes, "/other/place"), None);
    assert_eq!(reload_plan(&vec![], "/m"), None);
}

#[test]
fn paste_moves_into_directory_or_beside_file() {
    let mut y = LibraryYank { yanked: None };
    assert!(matches!(y.paste(Some("/m/c"), true), Ok(None)));
    y.yank(None);
    assert!(y.yanked.is_none());
    y.yank(Some("/m/a/song.mp3"));
    assert!(matches!(y.paste(None, true), Ok(None)));
    assert_eq!(y.yanked.as_deref(), Some("/m/a/song.mp3"));
    let plan = y.paste(Some("/m/c"), true).unwrap().unwrap();
    assert_eq!(plan.from, "/m/a/song.mp3");
    assert_eq!(plan.to, "/m/c/song.mp3");
    assert_eq!(plan.reload_focus, "/m/c/song.mp3");
    assert_eq!(plan.reload_other, "/m/a/song.mp3");
    assert!(y.yanked.is_none());
    y.yank(Some("/m/a/song.mp3"));
    let plan = y.paste(Some("/x/y.mp3"), false).unwrap().unwrap();
    assert_eq!(plan.to, "/x/song.mp3");
    assert_eq!(plan.reload_other, "/m/a");
    y.yank(Some("/"));
    assert_eq!(y.paste(Some("/m"), true).err(), Some(PasteError::NoFileName));
    assert!(y.yanked.is_none());
}

#[test]
fn nodes_found_by_path() {
    let nodes = paths(&["/m", "/m/a", "/m/a/", "/m/c"]);
    assert_eq!(node_index_of(&nodes, "/m/a/"), Some(1));
    assert_eq!(node_index_of(&nodes, "/m/c"), Some(3));
    assert_eq!(node_index_of(&nodes, "/m/d"), None);
}

#[test]
fn reload_and_ready_plans() {
    let s = |x: &str| Some(x.to_string());
    assert_eq!(full_reload_plan(s("/n"), None, s("/m"), s("/m/a")), Some(("/n".to_string(), s("/m/a"))));
    assert_eq!(full_reload_plan(None, s("/m/c"), s("/m"), s("/m/a")), Some(("/m".to_string(), s("/m/c"))));
    assert_eq!(full_reload_plan(None, s("/m/c"), None, None), None);
    let nodes = paths(&["/m", "/m/a", "/m/c"]);
    assert_eq!(ready_sub_plan(&nodes, "/m", true, None), Some(ReadySubPlan::ReplaceRoot));
    assert_eq!(
        ready_sub_plan(&nodes, "/m/c", true, s("/m/c/x")),
        Some(ReadySubPlan::ReplaceAt { node: 2, select_first: true, focus: s("/m/c/x") })
    );
    assert_eq!(ready_sub_plan(&nodes, "/m/z", false, None), None);
    assert_eq!(ready_sub_plan(&vec![], "/m", false, None), None);
}

#[test]
fn focus_moves_towards_wanted_node() {
    let want = vec![0, 2, 1];
    assert_eq!(focus_step(true, Some(&vec![0, 2, 1]), &want), FocusStep::OpenAndStop);
    assert_eq!(focus_step(false, None, &want), FocusStep::Stop);
    assert_eq!(focus_step(false, Some(&vec![0, 1, 0, 3]), &want), FocusStep::Up);
    // on the right parent, one sibling before the wanted one
    assert_eq!(focus_step(false, Some(&vec![0, 1]), &want), FocusStep::DownAndOpen);
    assert_eq!(focus_step(false, Some(&vec![0, 0]), &want), FocusStep::Down);
    assert_eq!(focus_step(false, Some(&vec![0, 3]), &want), FocusStep::UpAndOpen);
    assert_eq!(focus_step(false, Some(&vec![0, 5]), &want), FocusStep::Up);
    // on the wanted parent: go down into it
    assert_eq!(focus_step(false, Some(&vec![0, 2]), &want), FocusStep::Down);
    assert_eq!(focus_step(false, Some(&vec![]), &vec![]), FocusStep::Idle);
}

#[test]
fn music_roots_switch_add_remove() {
    let dirs = paths(&["/music", "/more/music", "/third"]);
    assert_eq!(library_switch_root("/music", &dirs, None), Some("/more/music".to_string()));
    assert_eq!(library_switch_root("/third/", &dirs, None), Some("/music".to_string()));
    assert_eq!(library_switch_root("/elsewhere", &dirs, None), Some("/music".to_string()));
    assert_eq!(library_switch_root("/third", &dirs, Some("/cli")), Some("/cli".to_string()));
    assert_eq!(library_switch_root("/x", &vec![], None), None);
    assert_eq!(library_add_root("/more/music/", &dirs), Err(RootError::SameRootExists));
    assert_eq!(library_add_root("/new", &dirs).unwrap(), paths(&["/music", "/more/music", "/third", "/new"]));
    assert_eq!(library_remove_root("/music", &dirs).unwrap(), paths(&["/more/music", "/third"]));
    assert_eq!(library_remove_root("/gone", &dirs).unwrap(), dirs);
    assert_eq!(library_remove_root("/only", &paths(&["/only"])), Err(RootError::LastRoot));
}

#[test]
fn adding_a_root_reloads_the_server_config() {
    let mut m = Model::new(TermusicLayout::TreeView, LoopMode::Playlist);
    m.library_root_added();
    assert_eq!(m.cmds, vec![TuiCmd::ReloadConfig]);
}

#[test]
fn library_search_and_reload_scans() {
    let files = paths(&["/m/Abba/Song.mp3", "/m/other.flac", "/m/abba2"]);
    assert_eq!(library_update_search("ABBA", &files), paths(&["/m/Abba/Song.mp3", "/m/abba2"]));
    assert_eq!(library_update_search("zzz", &files), Vec::<String>::new());
    let dirs = paths(&["/m", "/x", "/m/sub"]);
    assert_eq!(library_reload_scans("/m/sub/a.mp3", &dirs), paths(&["/m", "/m/sub"]));
    assert_eq!(library_reload_scans("/y", &dirs), Vec::<String>::new());
    let mut m = Model::new(TermusicLayout::TreeView, LoopMode::Playlist);
    assert_eq!(m.library_node_deleted_checked("/m/a.mp3"), Some("/m".to_string()));
    assert_eq!(m.cmds.len(), 1);
    assert_eq!(m.library_node_deleted_checked("/"), None);
    assert_eq!(m.cmds.len(), 1);
}
