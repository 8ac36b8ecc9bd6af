use termusic::config_data::{
    collect_config_data, collect_with_facts, gather_facts, general_page_choices, CollectFacts, ComProtocol, ConfigDataError, GeneralFieldValues,
    GeneralSettings, RememberPosition, XywhAlign,
};
use termusic::config_editor::{
    string_to_unicode_char, ConfigEditorMsg, ConfigSavePopup, EditorSettings, KeyDisplay, KeyDisplayType,
};
use termusic::config_ids::{general_focus_ring_vec, key_global_focus_ring_vec, key_other_focus_ring_vec};
use termusic::focus::config_editor_focus_target;
use termusic::global_keys::{
    global_listener_on, global_msg, is_heard, no_popup_mounted_clause, subscribe, GlobalEvent, GlobalMsg, SubEvent,
    SubWhen,
};
use termusic::key_config::{KeyBinding, KeyConfig};
use termusic::select_states::KeyModifierSet;
use termusic::ids::{Id, IdCEGeneral, IdCETheme, IdConfigEditor, IdKey, IdKeyGlobal, IdKeyOther, IdTagEditor};
use termusic::model::{ConfigEditorLayout, LoopMode, Model, TermusicLayout, ThemeChoice, TuiCmd, UiAction};
use termusic::theme_style::{color_at, color_index, init_color_select, ThemeColor, ThemeStyle};

fn model() -> Model {
    Model::new(TermusicLayout::TreeView, LoopMode::Playlist)
}

#[test]
fn layout_cycles_through_four_pages() {
    let mut m = model();
    m.action_change_layout();
    assert_eq!(m.config_editor.layout, ConfigEditorLayout::Color);
    assert_eq!(
        m.ui,
        vec![
            UiAction::Remount(Id::ConfigEditor(IdConfigEditor::Header)),
            UiAction::Activate(Id::ConfigEditor(IdConfigEditor::Theme(IdCETheme::ThemeSelectTable))),
        ]
    );
    m.action_change_layout();
    assert_eq!(m.config_editor.layout, ConfigEditorLayout::Key1);
    assert_eq!(
        m.ui.last(),
        Some(&UiAction::Activate(Id::ConfigEditor(IdConfigEditor::KeyGlobal(IdKeyGlobal::Quit))))
    );
    m.action_change_layout();
    assert_eq!(m.config_editor.layout, ConfigEditorLayout::Key2);
    assert_eq!(
        m.ui.last(),
        Some(&UiAction::Activate(Id::ConfigEditor(IdConfigEditor::KeyOther(IdKeyOther::LibraryTagEditor))))
    );
    m.action_change_layout();
    assert_eq!(m.config_editor.layout, ConfigEditorLayout::General);
    assert_eq!(
        m.ui.last(),
        Some(&UiAction::Activate(Id::ConfigEditor(IdConfigEditor::General(IdCEGeneral::MusicDir))))
    );
}

#[test]
fn focus_moves_down_and_wraps() {
    let last = IdConfigEditor::General(IdCEGeneral::ExtraYtdlpArgs);
    assert_eq!(
        config_editor_focus_target(last, true),
        Some(IdConfigEditor::General(IdCEGeneral::MusicDir))
    );
    assert_eq!(
        config_editor_focus_target(IdConfigEditor::General(IdCEGeneral::MusicDir), false),
        Some(last)
    );
    assert_eq!(
        config_editor_focus_target(IdConfigEditor::General(IdCEGeneral::PlayerPort), true),
        Some(last)
    );
}

#[test]
fn focus_skips_fields_outside_the_ring() {
    assert_eq!(config_editor_focus_target(IdConfigEditor::General(IdCEGeneral::PlayerBackend), true), None);
    assert_eq!(config_editor_focus_target(IdConfigEditor::Header, true), None);
}

#[test]
fn focus_down_then_up_returns_on_every_page() {
    let rings = vec![general_focus_ring_vec(), key_global_focus_ring_vec(), key_other_focus_ring_vec()];
    for ring in rings {
        for id in ring {
            let down = config_editor_focus_target(id, true).unwrap();
            assert_eq!(config_editor_focus_target(down, false), Some(id));
            let up = config_editor_focus_target(id, false).unwrap();
            assert_eq!(config_editor_focus_target(up, true), Some(id));
        }
    }
    let color = IdConfigEditor::Theme(IdCETheme::LyricBorder);
    assert_eq!(
        config_editor_focus_target(color, true),
        Some(IdConfigEditor::Theme(IdCETheme::ImportantPopupForeground))
    );
}

#[test]
fn global_key_ring_follows_update_order() {
    assert_eq!(
        config_editor_focus_target(IdConfigEditor::KeyGlobal(IdKeyGlobal::Left), true),
        Some(IdConfigEditor::KeyGlobal(IdKeyGlobal::Down))
    );
    assert_eq!(
        config_editor_focus_target(IdConfigEditor::KeyGlobal(IdKeyGlobal::XywhHide), true),
        Some(IdConfigEditor::KeyGlobal(IdKeyGlobal::Quit))
    );
}

#[test]
fn close_ok_asks_to_save_when_changed() {
    let mut m = model();
    m.update_config_editor(ConfigEditorMsg::ConfigChanged);
    assert!(m.config_editor.config_changed);
    m.update_config_editor(ConfigEditorMsg::CloseOk);
    assert!(!m.config_editor.config_changed);
    assert_eq!(
        m.ui,
        vec![
            UiAction::Remount(Id::ConfigEditor(IdConfigEditor::ConfigSavePopup)),
            UiAction::Activate(Id::ConfigEditor(IdConfigEditor::ConfigSavePopup)),
        ]
    );
}

#[test]
fn close_ok_without_changes_closes() {
    let mut m = model();
    m.update_config_editor(ConfigEditorMsg::CloseOk);
    assert_eq!(m.ui[0], UiAction::LibraryScan);
    assert_eq!(m.ui.last(), Some(&UiAction::UpdatePhoto));
    assert!(m.ui.contains(&UiAction::RemountGlobalListener));
    assert!(m.ui.contains(&UiAction::Umount(Id::ConfigEditor(IdConfigEditor::Header))));
}

#[test]
fn save_ok_reloads_config_only_when_all_worked() {
    let mut m = model();
    m.update_config_editor(ConfigEditorMsg::ConfigSaveOk { collected: Ok(()), server_saved: Ok(()), tui_saved: Ok(()) });
    assert_eq!(m.cmds, vec![TuiCmd::ReloadConfig]);
    assert!(!m.ui.iter().any(|a| matches!(a, UiAction::ErrorPopup(_))));
    let mut n = model();
    n.update_config_editor(ConfigEditorMsg::ConfigSaveOk {
        collected: Err("collect config data: port".to_string()),
        server_saved: Ok(()),
        tui_saved: Ok(()),
    });
    assert!(n.cmds.is_empty());
    assert!(n.config_editor.config_changed);
    assert_eq!(
        n.ui,
        vec![
            UiAction::Umount(Id::ConfigEditor(IdConfigEditor::ConfigSavePopup)),
            UiAction::ErrorPopup("collect config data: port".to_string()),
        ]
    );
    let mut k = model();
    k.update_config_editor(ConfigEditorMsg::ConfigSaveOk {
        collected: Ok(()),
        server_saved: Err("server".to_string()),
        tui_saved: Err("tui".to_string()),
    });
    assert!(k.cmds.is_empty());
    assert_eq!(
        k.ui,
        vec![
            UiAction::Umount(Id::ConfigEditor(IdConfigEditor::ConfigSavePopup)),
            UiAction::ErrorPopup("server".to_string()),
            UiAction::ErrorPopup("tui".to_string()),
        ]
    );
}

#[test]
fn symbol_change_stores_only_symbol_fields() {
    let mut m = model();
    m.update_config_editor(ConfigEditorMsg::SymbolChanged(IdConfigEditor::Theme(IdCETheme::LibraryLabel), "x".to_string()));
    assert!(m.config_editor.config_changed);
    assert!(m.ui.is_empty());
    assert_eq!(m.config_editor.style.library_highlight_symbol, "");
    assert_eq!(m.config_editor.style.playlist_highlight_symbol, "");
    let sym = IdConfigEditor::Theme(IdCETheme::PlaylistHighlightSymbol);
    m.update_config_editor(ConfigEditorMsg::SymbolChanged(sym, "\u{1f984}".to_string()));
    assert!(m.ui.is_empty());
    assert_eq!(m.config_editor.style.playlist_highlight_symbol, "\u{1f984}");
    assert_eq!(m.config_editor.style.library_highlight_symbol, "");
    assert_eq!(m.config_editor.style.current_track_symbol, "");
}

#[test]
fn color_change_sets_only_that_field() {
    let mut m = model();
    let f = IdConfigEditor::Theme(IdCETheme::LyricBorder);
    assert_eq!(init_color_select(IdCETheme::LyricBorder, &m.config_editor.style), 0);
    m.update_config_editor(ConfigEditorMsg::ColorChanged(f, ThemeColor::LightCyan));
    assert!(m.config_editor.config_changed);
    assert!(m.ui.is_empty());
    assert_eq!(init_color_select(IdCETheme::LyricBorder, &m.config_editor.style), 17);
    assert_eq!(init_color_select(IdCETheme::LyricForeground, &m.config_editor.style), 0);
    assert_eq!(m.config_editor.style.colors[13], ThemeColor::LightCyan);
    m.update_config_editor(ConfigEditorMsg::ColorChanged(IdConfigEditor::Theme(IdCETheme::LyricLabel), ThemeColor::Red));
    assert_eq!(m.config_editor.style.colors.iter().filter(|c| **c == ThemeColor::Red).count(), 0);
}

#[test]
fn popup_and_fallback_color_changes_are_not_kept() {
    let mut m = model();
    let before = m.config_editor.style.colors.clone();
    m.update_config_editor(ConfigEditorMsg::ColorChanged(
        IdConfigEditor::Theme(IdCETheme::ImportantPopupBorder),
        ThemeColor::Red,
    ));
    m.update_config_editor(ConfigEditorMsg::ColorChanged(
        IdConfigEditor::Theme(IdCETheme::FallbackHighlight),
        ThemeColor::Blue,
    ));
    assert!(m.config_editor.config_changed);
    assert_eq!(m.config_editor.style.colors, before);
    assert_eq!(init_color_select(IdCETheme::ImportantPopupBorder, &m.config_editor.style), 0);
}

#[test]
fn color_list_round_trip() {
    assert_eq!(color_at(0), Some(ThemeColor::Reset));
    assert_eq!(color_at(18), Some(ThemeColor::LightWhite));
    assert_eq!(color_at(19), None);
    for i in 0..19usize {
        assert_eq!(color_index(color_at(i).unwrap()), i);
    }
}

#[test]
fn key_change_binds_and_reads_back() {
    let mut m = model();
    let k = IdKey::Other(IdKeyOther::DatabaseAddAll);
    let ctrl = KeyModifierSet { shift: false, control: true, alt: false };
    m.update_config_editor(ConfigEditorMsg::KeyChange(k, KeyBinding { modifiers: ctrl, code: "a".to_string() }));
    assert!(m.config_editor.config_changed);
    assert!(m.ui.is_empty());
    assert_eq!(m.config_editor.key_config.init_modifier_select(k), Some((2, "a".to_string())));
    let shift = KeyModifierSet { shift: true, control: false, alt: false };
    m.update_key(k, KeyBinding { modifiers: shift, code: "B".to_string() });
    assert_eq!(m.config_editor.key_config.init_modifier_select(k), Some((1, "B".to_string())));
    assert_eq!(m.config_editor.key_config.init_modifier_select(IdKey::Global(IdKeyGlobal::Quit)), None);
}

#[test]
fn key_config_keeps_other_bindings() {
    let mut keys = KeyConfig::new();
    let none = KeyModifierSet { shift: false, control: false, alt: false };
    keys.set(IdKey::Global(IdKeyGlobal::Quit), KeyBinding { modifiers: none, code: "q".to_string() });
    keys.set(IdKey::Global(IdKeyGlobal::Help), KeyBinding { modifiers: none, code: "h".to_string() });
    keys.set(IdKey::Global(IdKeyGlobal::Quit), KeyBinding { modifiers: none, code: "x".to_string() });
    assert_eq!(keys.get(IdKey::Global(IdKeyGlobal::Quit)).map(|b| b.code.clone()), Some("x".to_string()));
    assert_eq!(keys.get(IdKey::Global(IdKeyGlobal::Help)).map(|b| b.code.clone()), Some("h".to_string()));
    let mut m = model();
    let mut style = ThemeStyle::plain();
    style.current_track_symbol = "\u{25b6}".to_string();
    m.update_config_editor(ConfigEditorMsg::Open {
        themes: Ok(None),
        theme_file_name: None,
        keys,
        style,
        palette: vec!["#000000".to_string()],
    });
    assert_eq!(m.config_editor.palette, vec!["#000000".to_string()]);
    assert_eq!(m.config_editor.style.current_track_symbol, "\u{25b6}");
    assert_eq!(
        m.config_editor.key_config.init_modifier_select(IdKey::Global(IdKeyGlobal::Help)),
        Some((0, "h".to_string()))
    );
}

#[test]
fn mount_selects_current_theme_file() {
    let mut m = model();
    m.config_editor.theme_file_name = Some("gruvbox".to_string());
    m.mount_config_editor(Ok(Some(vec!["dracula".to_string(), "gruvbox".to_string()])));
    assert_eq!(m.config_editor.layout, ConfigEditorLayout::General);
    assert_eq!(m.ui.last(), Some(&UiAction::UpdatePhoto));
    assert_eq!(m.ui[m.ui.len() - 2], UiAction::ThemeSelectShow(3));
    assert!(m.ui.contains(&UiAction::Activate(Id::ConfigEditor(IdConfigEditor::General(IdCEGeneral::MusicDir)))));
    assert!(!m.ui.iter().any(|a| matches!(a, UiAction::ErrorPopup(_))));
}

#[test]
fn mount_shows_theme_load_error() {
    let mut m = model();
    m.config_editor.themes = vec!["old".to_string()];
    m.config_editor.theme_file_name = Some("old".to_string());
    m.mount_config_editor(Err("load themes".to_string()));
    let n = m.ui.len();
    assert_eq!(m.ui[n - 1], UiAction::UpdatePhoto);
    assert_eq!(m.ui[n - 2], UiAction::ThemeSelectShow(2));
    assert_eq!(m.ui[n - 3], UiAction::ErrorPopup("load themes".to_string()));
    assert_eq!(
        m.ui[n - 4],
        UiAction::Activate(Id::ConfigEditor(IdConfigEditor::General(IdCEGeneral::MusicDir)))
    );
    assert_eq!(m.config_editor.themes, vec!["old".to_string()]);
}

#[test]
fn theme_index_defaults_to_zero() {
    let mut m = model();
    assert_eq!(m.theme_select_index(None), 0);
    assert_eq!(m.theme_select_index(Some(7)), 7);
    m.config_editor.theme_file_name = Some("missing".to_string());
    m.config_editor.themes = vec!["a".to_string()];
    assert_eq!(m.theme_select_index(None), 0);
}

#[test]
fn preview_choice_by_row() {
    let mut m = model();
    m.config_editor.themes = vec!["solarized".to_string()];
    assert_eq!(m.preview_theme_choice(0), Some(ThemeChoice::Default));
    assert_eq!(m.preview_theme_choice(1), Some(ThemeChoice::Native));
    assert_eq!(m.preview_theme_choice(2), Some(ThemeChoice::File("solarized".to_string())));
    assert_eq!(m.preview_theme_choice(3), None);
}

#[test]
fn theme_loaded_previews_and_marks_changed() {
    let mut m = model();
    m.update_config_editor(ConfigEditorMsg::ThemeLoaded(1, vec!["#101010".to_string()]));
    assert!(m.config_editor.config_changed);
    assert_eq!(m.ui.last(), Some(&UiAction::ThemeSelectShow(1)));
    assert_eq!(m.ui.len(), 28 + 3 + 1);
    assert_eq!(m.config_editor.theme_file_name, None);
}

#[test]
fn previewed_theme_file_is_saved() {
    let mut m = model();
    m.config_editor.themes = vec!["solarized".to_string()];
    let palette = vec!["#002b36".to_string(), "#839496".to_string()];
    m.update_config_editor(ConfigEditorMsg::ThemeLoaded(2, palette.clone()));
    assert_eq!(m.config_editor.theme_file_name, Some("solarized".to_string()));
    assert_eq!(m.config_editor.palette, palette);
    let mut es = EditorSettings {
        general: settings(),
        keys: KeyConfig::new(),
        style: ThemeStyle::plain(),
        theme_file_name: None,
        palette: Vec::new(),
    };
    assert_eq!(m.collect_config_data(&mut es, &empty_values(), Ok(()), true), Ok(()));
    assert_eq!(es.theme_file_name, Some("solarized".to_string()));
    assert_eq!(es.palette, palette);
}

#[test]
fn umount_keys_database_unmounts_both_fields() {
    let mut m = model();
    m.umount_config_keys_database();
    assert_eq!(
        m.ui,
        vec![
            UiAction::Umount(Id::ConfigEditor(IdConfigEditor::KeyOther(IdKeyOther::DatabaseAddAll))),
            UiAction::Umount(Id::ConfigEditor(IdConfigEditor::KeyOther(IdKeyOther::DatabaseAddSelected))),
        ]
    );
    let mut n = model();
    n.remount_config_keys();
    assert_eq!(n.ui.len(), 33 + 10 + 10 + 2 + 9);
}

#[test]
fn save_popup_asks_question() {
    assert_eq!(ConfigSavePopup::new().title, " Config changed. Do you want to save? ");
    let mut m = model();
    m.mount_config_save_popup();
    assert_eq!(m.ui.len(), 2);
}

#[test]
fn key_display_kind_from_first_field() {
    let d = KeyDisplay::new(vec![IdKey::Global(IdKeyGlobal::Quit)], 25);
    assert_eq!(d.discriminant, KeyDisplayType::Global);
    assert_eq!(d.width, 25);
    let o = KeyDisplay::new(vec![IdKey::Other(IdKeyOther::PlaylistDelete)], 27);
    assert_eq!(o.discriminant, KeyDisplayType::Other);
}

#[test]
fn unicode_char_from_hex() {
    assert_eq!(string_to_unicode_char("41"), Some('A'));
    assert_eq!(string_to_unicode_char("1f3b5"), Some('\u{1f3b5}'));
    assert_eq!(string_to_unicode_char("d800"), None);
    assert_eq!(string_to_unicode_char("zz"), None);
    assert_eq!(string_to_unicode_char("110000"), None);
}

#[test]
fn view_draws_current_page() {
    let mut m = model();
    m.view_config_editor();
    assert_eq!(m.ui, vec![UiAction::DrawConfigEditor(ConfigEditorLayout::General)]);
}

fn settings() -> GeneralSettings {
    GeneralSettings {
        music_dirs: vec!["/music".to_string()],
        confirm_quit: true,
        use_loop_mode_symbol: false,
        random_track_quantity: 20,
        random_album_min_quantity: 5,
        podcast_dir: "/podcasts".to_string(),
        concurrent_downloads_max: 3,
        max_download_retries: 3,
        coverart_align: XywhAlign::BottomLeft,
        remember_position: RememberPosition::Other,
        quit_server_on_exit: true,
        use_mediacontrols: false,
        set_discord_status: true,
        port: 50101,
        address: "::1".to_string(),
        protocol: ComProtocol::Http,
        socket_path: "/tmp/termusic.socket".to_string(),
        ytdlp_extra_args: String::new(),
    }
}

fn empty_values() -> GeneralFieldValues {
    GeneralFieldValues {
        music_dir: None,
        exit_confirmation: None,
        playlist_display_symbol: None,
        random_track_quantity: None,
        random_album_quantity: None,
        podcast_dir: None,
        podcast_simul_download: None,
        podcast_max_retries: None,
        album_photo_align: None,
        save_last_position: None,
        kill_daemon: None,
        player_use_mpris: None,
        player_use_discord: None,
        player_port: None,
        player_address: None,
        player_protocol: None,
        player_uds_path: None,
        extra_ytdlp_args: None,
    }
}

#[test]
fn collect_takes_choices_and_counts() {
    let mut s = settings();
    let mut v = empty_values();
    v.exit_confirmation = Some(1);
    v.album_photo_align = Some(3);
    v.save_last_position = Some(2);
    v.random_track_quantity = Some("7".to_string());
    v.random_album_quantity = Some("0".to_string());
    v.player_port = Some("2000".to_string());
    v.extra_ytdlp_args = Some("--foo".to_string());
    assert_eq!(collect_config_data(&mut s, &v, Ok(()), true), Ok(()));
    assert!(!s.confirm_quit);
    assert_eq!(s.coverart_align, XywhAlign::TopLeft);
    assert_eq!(s.remember_position, RememberPosition::AllYes);
    assert_eq!(s.random_track_quantity, 7);
    assert_eq!(s.random_album_min_quantity, 5);
    assert_eq!(s.port, 2000);
    assert_eq!(s.ytdlp_extra_args, "--foo");
}

#[test]
fn collect_refuses_too_many_retries_after_earlier_fields() {
    let mut s = settings();
    let mut v = empty_values();
    v.playlist_display_symbol = Some(0);
    v.podcast_max_retries = Some("11".to_string());
    v.kill_daemon = Some(1);
    let r = collect_config_data(&mut s, &v, Ok(()), true);
    assert_eq!(r, Err(ConfigDataError::MaxRetries));
    assert!(s.use_loop_mode_symbol);
    assert!(s.quit_server_on_exit);
    assert_eq!(
        r.unwrap_err().message(),
        " It's not recommended to set max retries to more than 10. "
    );
}

#[test]
fn collect_refuses_low_and_top_ports() {
    let mut s = settings();
    let mut v = empty_values();
    v.player_port = Some("80".to_string());
    assert_eq!(collect_config_data(&mut s, &v, Ok(()), true), Err(ConfigDataError::Port));
    v.player_port = Some("65535".to_string());
    assert_eq!(collect_config_data(&mut s, &v, Ok(()), true), Err(ConfigDataError::Port));
    v.player_port = Some("not a number".to_string());
    assert_eq!(collect_config_data(&mut s, &v, Ok(()), true), Ok(()));
    assert_eq!(s.port, 50101);
}

#[test]
fn collect_checks_protocol_and_socket_path() {
    let mut s = settings();
    let mut v = empty_values();
    v.player_protocol = Some(1);
    assert_eq!(collect_config_data(&mut s, &v, Ok(()), false), Err(ConfigDataError::UdsUnsupported));
    assert_eq!(s.protocol, ComProtocol::Http);
    v.player_uds_path = Some("relative.socket".to_string());
    assert_eq!(collect_config_data(&mut s, &v, Ok(()), true), Err(ConfigDataError::UdsPath));
    assert_eq!(s.protocol, ComProtocol::Uds);
    v.player_uds_path = Some("/run/termusic.sock".to_string());
    assert_eq!(collect_config_data(&mut s, &v, Ok(()), true), Err(ConfigDataError::UdsPath));
    v.player_uds_path = Some("/run/termusic.socket".to_string());
    assert_eq!(collect_config_data(&mut s, &v, Ok(()), true), Ok(()));
    assert_eq!(s.socket_path, "/run/termusic.socket");
}

#[test]
fn collect_stops_on_key_clash() {
    let mut s = settings();
    let mut v = empty_values();
    v.exit_confirmation = Some(1);
    let r = collect_config_data(&mut s, &v, Err("clash".to_string()), true);
    assert_eq!(r, Err(ConfigDataError::Keys("clash".to_string())));
    assert!(s.confirm_quit);
}

#[test]
fn collect_with_given_facts() {
    let mut s = settings();
    let mut v = empty_values();
    v.music_dir = Some("~/a;/b;/c".to_string());
    v.podcast_dir = Some("~/pods".to_string());
    let facts = CollectFacts {
        music_flags: vec![true, false, true],
        podcast_dir: Some("/home/u/pods".to_string()),
        uds: String::new(),
    };
    assert_eq!(collect_with_facts(&mut s, &v, Ok(()), true, &facts), Ok(()));
    assert_eq!(s.music_dirs, vec!["~/a".to_string(), "/c".to_string()]);
    assert_eq!(s.podcast_dir, "/home/u/pods");
    let f = gather_facts(&v);
    assert_eq!(f.music_flags.len(), 3);
    v.player_uds_path = Some("/run/x.socket".to_string());
    assert_eq!(gather_facts(&v).uds, "/run/x.socket");
}

#[test]
fn collect_keeps_only_existing_music_dirs() {
    let mut s = settings();
    let mut v = empty_values();
    v.music_dir = Some("/;/this/path/does/not/exist/at/all".to_string());
    assert_eq!(collect_config_data(&mut s, &v, Ok(()), true), Ok(()));
    assert_eq!(s.music_dirs, vec!["/".to_string()]);
}

#[test]
fn unedited_choices_keep_settings() {
    let mut s = settings();
    s.protocol = ComProtocol::Uds;
    s.remember_position = RememberPosition::AllNo;
    let v = general_page_choices(&s);
    assert_eq!(v.exit_confirmation, Some(0));
    assert_eq!(v.album_photo_align, Some(1));
    assert_eq!(collect_config_data(&mut s, &v, Ok(()), true), Ok(()));
    let expected = {
        let mut e = settings();
        e.protocol = ComProtocol::Uds;
        e.remember_position = RememberPosition::AllNo;
        e
    };
    assert_eq!(s.confirm_quit, expected.confirm_quit);
    assert_eq!(s.use_loop_mode_symbol, expected.use_loop_mode_symbol);
    assert_eq!(s.coverart_align, expected.coverart_align);
    assert_eq!(s.remember_position, expected.remember_position);
    assert_eq!(s.quit_server_on_exit, expected.quit_server_on_exit);
    assert_eq!(s.use_mediacontrols, expected.use_mediacontrols);
    assert_eq!(s.set_discord_status, expected.set_discord_status);
    assert_eq!(s.protocol, expected.protocol);
}

#[test]
fn collect_expands_home_in_socket_path() {
    let mut s = settings();
    let mut v = empty_values();
    v.player_uds_path = Some("~/termusic.socket".to_string());
    assert_eq!(collect_config_data(&mut s, &v, Ok(()), true), Ok(()));
    assert!(s.socket_path.starts_with('/'));
    assert!(s.socket_path.ends_with("/termusic.socket"));
}

#[test]
fn global_listener_sends_bound_messages() {
    let none = KeyModifierSet { shift: false, control: false, alt: false };
    let ctrl = KeyModifierSet { shift: false, control: true, alt: false };
    let mut keys = KeyConfig::new();
    keys.set(IdKey::Global(IdKeyGlobal::Quit), KeyBinding { modifiers: none, code: "q".to_string() });
    keys.set(IdKey::Global(IdKeyGlobal::LyricAdjustBackward), KeyBinding { modifiers: ctrl, code: "g".to_string() });
    keys.set(IdKey::Global(IdKeyGlobal::LayoutPodcast), KeyBinding { modifiers: none, code: "3".to_string() });
    keys.set(IdKey::Global(IdKeyGlobal::XywhHide), KeyBinding { modifiers: ctrl, code: "e".to_string() });
    let press = |m: KeyModifierSet, c: &str| GlobalEvent::Key(KeyBinding { modifiers: m, code: c.to_string() });
    assert_eq!(global_listener_on(&press(none, "q"), &keys), Some(GlobalMsg::QuitPopupShow));
    assert_eq!(global_listener_on(&press(ctrl, "g"), &keys), Some(GlobalMsg::LyricAdjustDelay(-1000)));
    assert_eq!(global_listener_on(&press(none, "g"), &keys), None);
    assert_eq!(global_listener_on(&press(none, "3"), &keys), Some(GlobalMsg::Layout(TermusicLayout::Podcast)));
    assert_eq!(global_listener_on(&press(ctrl, "e"), &keys), Some(GlobalMsg::XywhToggleHidden));
    assert_eq!(global_listener_on(&GlobalEvent::WindowResize, &keys), Some(GlobalMsg::UpdatePhoto));
}

#[test]
fn global_listener_first_binding_wins() {
    let none = KeyModifierSet { shift: false, control: false, alt: false };
    let mut keys = KeyConfig::new();
    keys.set(IdKey::Global(IdKeyGlobal::Help), KeyBinding { modifiers: none, code: "h".to_string() });
    keys.set(IdKey::Global(IdKeyGlobal::PlayerNext), KeyBinding { modifiers: none, code: "h".to_string() });
    let ev = GlobalEvent::Key(KeyBinding { modifiers: none, code: "h".to_string() });
    assert_eq!(global_listener_on(&ev, &keys), Some(GlobalMsg::NextSong));
}

#[test]
fn global_subscriptions_cover_handled_keys() {
    let subs = subscribe();
    assert_eq!(subs.len(), 28);
    assert_eq!(subs[0], (SubEvent::Key(IdKeyGlobal::Quit), SubWhen::NoPopupMounted));
    assert_eq!(subs[19], (SubEvent::Key(IdKeyGlobal::LayoutPodcast), SubWhen::NoPopupMounted));
    assert_eq!(subs[20], (SubEvent::Key(IdKeyGlobal::XywhMoveLeft), SubWhen::Always));
    assert_eq!(subs[27], (SubEvent::WindowResize, SubWhen::Always));
    for (ev, _) in subs.iter() {
        if let SubEvent::Key(k) = ev {
            assert!(global_msg(*k).is_some());
        }
    }
    assert_eq!(global_msg(IdKeyGlobal::LyricAdjustForward), Some(GlobalMsg::LyricAdjustDelay(1000)));
}

#[test]
fn editor_collect_takes_keys_and_style_unless_keys_clash() {
    let mut m = model();
    let k = IdKey::Global(IdKeyGlobal::Quit);
    let none = KeyModifierSet { shift: false, control: false, alt: false };
    m.update_config_editor(ConfigEditorMsg::KeyChange(k, KeyBinding { modifiers: none, code: "x".to_string() }));
    m.update_config_editor(ConfigEditorMsg::ColorChanged(
        IdConfigEditor::Theme(IdCETheme::LibraryBorder),
        ThemeColor::Green,
    ));
    let mut es = EditorSettings {
        general: settings(),
        keys: KeyConfig::new(),
        style: ThemeStyle::plain(),
        theme_file_name: None,
        palette: Vec::new(),
    };
    let v = empty_values();
    let r = m.collect_config_data(&mut es, &v, Err("clash".to_string()), true);
    assert_eq!(r, Err(ConfigDataError::Keys("clash".to_string())));
    assert!(es.keys.get(k).is_none());
    assert_eq!(es.style.colors[2], ThemeColor::Reset);
    assert_eq!(m.collect_config_data(&mut es, &v, Ok(()), true), Ok(()));
    assert_eq!(es.keys.get(k).map(|b| b.code.clone()), Some("x".to_string()));
    assert_eq!(es.style.colors[2], ThemeColor::Green);
}

#[test]
fn guarded_keys_silenced_by_popups() {
    let popups = no_popup_mounted_clause();
    assert_eq!(popups.len(), 18);
    assert!(popups.contains(&Id::ConfigEditor(IdConfigEditor::Footer)));
    assert!(popups.contains(&Id::TagEditor(IdTagEditor::LabelHint)));
    let mounted = vec![Id::Playlist, Id::Library, Id::Lyric];
    assert!(is_heard(SubWhen::NoPopupMounted, &mounted));
    let with_help = vec![Id::Playlist, Id::HelpPopup];
    assert!(!is_heard(SubWhen::NoPopupMounted, &with_help));
    assert!(is_heard(SubWhen::Always, &with_help));
    assert!(is_heard(SubWhen::NoPopupMounted, &vec![Id::ConfigEditor(IdConfigEditor::Header)]));
}

fn apply_mounts(mounted: &mut Vec<Id>, ui: &[UiAction]) -> Result<(), Id> {
    for a in ui {
        match a {
            UiAction::Remount(id) => {
                if !mounted.contains(id) {
                    mounted.push(*id);
                }
            }
            UiAction::Umount(id) => match mounted.iter().position(|m| m == id) {
                Some(p) => {
                    mounted.remove(p);
                }
                None => return Err(*id),
            },
            _ => {}
        }
    }
    Ok(())
}

fn is_key_field(id: &Id) -> bool {
    matches!(id, Id::ConfigEditor(IdConfigEditor::KeyGlobal(_)) | Id::ConfigEditor(IdConfigEditor::KeyOther(_)))
}

#[test]
fn key_pages_unmount_after_remount_leaves_no_key_field() {
    let mut m = model();
    let mut mounted = vec![Id::Playlist];
    m.remount_config_keys();
    assert_eq!(apply_mounts(&mut mounted, &m.ui), Ok(()));
    assert_eq!(mounted.iter().filter(|i| is_key_field(i)).count(), 64);
    m.ui.clear();
    m.umount_config_keys();
    assert_eq!(apply_mounts(&mut mounted, &m.ui), Ok(()));
    assert_eq!(mounted, vec![Id::Playlist]);
}

#[test]
fn symbol_unmount_stops_at_first_missing_field() {
    let mut m = model();
    m.umount_config_color_symbols();
    let mut mounted = vec![Id::ConfigEditor(IdConfigEditor::Theme(IdCETheme::LibraryHighlightSymbol))];
    assert_eq!(
        apply_mounts(&mut mounted, &m.ui),
        Err(Id::ConfigEditor(IdConfigEditor::Theme(IdCETheme::PlaylistHighlightSymbol)))
    );
    assert!(mounted.is_empty());
}
