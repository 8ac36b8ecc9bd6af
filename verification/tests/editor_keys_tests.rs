use termusic::config_editor::{ConfigEditorMsg, KeyDisplay};
use termusic::config_layout::{general_focus_cell, theme_focus_group, theme_group_heights};
use termusic::database::{
    db_list_on, list_key, tracks_query, DbList, DbListMsg, DbListReaction, ListKey, ListReaction, TrackQuery,
};
use termusic::field_keys::{general_field_on, has_code, typed_char, EditorKeys, FieldCmd, FieldMsg};
use termusic::ids::{Id, IdCEGeneral, IdCETheme, IdConfigEditor, IdKey, IdKeyGlobal, IdKeyOther};
use termusic::key_config::{KeyBinding, KeyConfig};
use termusic::key_editor::{key_name, key_title, KEModifierSelect};
use termusic::model::SearchCriteria;
use termusic::playlist_table::{Direction, Position, TableCmd};
use termusic::select_states::{ComboCmd, ComboCmdResult, ComboState, KeyModifierSet};
use termusic::theme_style::ThemeColor;
use termusic::theme_keys::{
    color_select_after, color_select_on, symbol_field_on, symbol_update, theme_table_on, ColorSelectReaction,
    SymbolFieldReaction, SymbolLook, SymbolResult, ThemeTableReaction,
};

const NONE: KeyModifierSet = KeyModifierSet { shift: false, control: false, alt: false };
const CTRL: KeyModifierSet = KeyModifierSet { shift: false, control: true, alt: false };
const SHIFT: KeyModifierSet = KeyModifierSet { shift: true, control: false, alt: false };

fn key(m: KeyModifierSet, c: &str) -> KeyBinding {
    KeyBinding { modifiers: m, code: c.to_string() }
}

fn editor_keys() -> EditorKeys {
    EditorKeys { escape: key(NONE, "Esc"), save: key(CTRL, "s") }
}

fn config() -> KeyConfig {
    let mut keys = KeyConfig::new();
    keys.set(IdKey::Global(IdKeyGlobal::Quit), key(NONE, "q"));
    keys.set(IdKey::Global(IdKeyGlobal::Down), key(NONE, "j"));
    keys.set(IdKey::Global(IdKeyGlobal::Up), key(NONE, "k"));
    keys.set(IdKey::Global(IdKeyGlobal::GotoTop), key(NONE, "g"));
    keys.set(IdKey::Global(IdKeyGlobal::GotoBottom), key(SHIFT, "G"));
    keys.set(IdKey::Other(IdKeyOther::LibrarySearch), key(NONE, "/"));
    keys.set(IdKey::Other(IdKeyOther::DatabaseAddSelected), key(NONE, "l"));
    keys.set(IdKey::Other(IdKeyOther::DatabaseAddAll), key(SHIFT, "L"));
    keys
}

fn is_editor(m: &Option<FieldMsg>, f: impl Fn(&ConfigEditorMsg) -> bool) -> bool {
    match m {
        Some(FieldMsg::Editor(e)) => f(e),
        _ => false,
    }
}

#[test]
fn key_names_and_typed_chars() {
    assert!(has_code(&key(CTRL, "Down"), "Down"));
    assert!(!has_code(&key(NONE, "D"), "Down"));
    assert_eq!(typed_char(&key(NONE, "x")), Some('x'));
    assert_eq!(typed_char(&key(NONE, "Enter")), None);
}

#[test]
fn text_field_reacts_to_editing_keys() {
    let keys = config();
    let ek = editor_keys();
    let id = IdCEGeneral::MusicDir;
    let (cmd, msg) = general_field_on(id, &key(NONE, "a"), &keys, &ek);
    assert_eq!(cmd, Some(FieldCmd::Type('a')));
    assert!(is_editor(&msg, |e| matches!(e, ConfigEditorMsg::ConfigChanged)));
    // the configured quit key is typed into a text field
    let (cmd, _) = general_field_on(id, &key(NONE, "q"), &keys, &ek);
    assert_eq!(cmd, Some(FieldCmd::Type('q')));
    let (cmd, msg) = general_field_on(id, &key(NONE, "Left"), &keys, &ek);
    assert_eq!(cmd, Some(FieldCmd::MoveLeft));
    assert!(matches!(msg, Some(FieldMsg::Redraw)));
    let (cmd, _) = general_field_on(id, &key(NONE, "Backspace"), &keys, &ek);
    assert_eq!(cmd, Some(FieldCmd::Delete));
    let (cmd, _) = general_field_on(id, &key(NONE, "Delete"), &keys, &ek);
    assert_eq!(cmd, Some(FieldCmd::Cancel));
    let (cmd, msg) = general_field_on(id, &key(CTRL, "s"), &keys, &ek);
    assert_eq!(cmd, None);
    assert!(is_editor(&msg, |e| matches!(e, ConfigEditorMsg::CloseOk)));
    let (_, msg) = general_field_on(id, &key(NONE, "Down"), &keys, &ek);
    assert!(is_editor(&msg, |e| matches!(e, ConfigEditorMsg::FocusDown(IdConfigEditor::General(IdCEGeneral::MusicDir)))));
    let (_, msg) = general_field_on(id, &key(NONE, "Esc"), &keys, &ek);
    assert!(is_editor(&msg, |e| matches!(e, ConfigEditorMsg::CloseCancel)));
    let (cmd, msg) = general_field_on(id, &key(NONE, "F5"), &keys, &ek);
    assert_eq!(cmd, None);
    assert!(msg.is_none());
}

#[test]
fn choice_field_reacts_to_navigation_keys() {
    let keys = config();
    let ek = editor_keys();
    let id = IdCEGeneral::ExitConfirmation;
    let (cmd, msg) = general_field_on(id, &key(NONE, "j"), &keys, &ek);
    assert_eq!(cmd, None);
    assert!(is_editor(&msg, |e| matches!(e, ConfigEditorMsg::FocusDown(IdConfigEditor::General(IdCEGeneral::ExitConfirmation)))));
    let (_, msg) = general_field_on(id, &key(NONE, "q"), &keys, &ek);
    assert!(is_editor(&msg, |e| matches!(e, ConfigEditorMsg::CloseCancel)));
    let (cmd, msg) = general_field_on(id, &key(NONE, "Right"), &keys, &ek);
    assert_eq!(cmd, Some(FieldCmd::MoveRight));
    assert!(is_editor(&msg, |e| matches!(e, ConfigEditorMsg::ConfigChanged)));
    let (cmd, msg) = general_field_on(id, &key(NONE, "a"), &keys, &ek);
    assert_eq!(cmd, None);
    assert!(msg.is_none());
    let (_, msg) = general_field_on(id, &key(NONE, "Tab"), &keys, &ek);
    assert!(is_editor(&msg, |e| matches!(e, ConfigEditorMsg::ChangeLayout)));
}

#[test]
fn database_list_keys() {
    let keys = config();
    assert_eq!(list_key(&key(NONE, "Up"), &keys), Some(ListKey::Up));
    assert_eq!(list_key(&key(CTRL, "Up"), &keys), None);
    assert_eq!(list_key(&key(NONE, "k"), &keys), Some(ListKey::Up));
    assert_eq!(list_key(&key(SHIFT, "G"), &keys), Some(ListKey::End));
    assert_eq!(list_key(&key(SHIFT, "BackTab"), &keys), Some(ListKey::BackTab));
    assert_eq!(list_key(&key(NONE, "BackTab"), &keys), None);
}

#[test]
fn database_lists_react() {
    let keys = config();
    assert_eq!(
        db_list_on(DbList::Criteria, &key(NONE, "Enter"), &keys, Some(2), Some(5)),
        DbListReaction::Send(DbListMsg::SearchResult(SearchCriteria::Genre))
    );
    assert_eq!(
        db_list_on(DbList::Criteria, &key(NONE, "Down"), &keys, Some(4), Some(5)),
        DbListReaction::List(ListReaction::FocusNext)
    );
    assert_eq!(
        db_list_on(DbList::Criteria, &key(NONE, "j"), &keys, Some(1), Some(5)),
        DbListReaction::List(ListReaction::Perform(TableCmd::Move(Direction::Down)))
    );
    assert_eq!(
        db_list_on(DbList::SearchResult, &key(NONE, "g"), &keys, Some(1), Some(5)),
        DbListReaction::List(ListReaction::Perform(TableCmd::GoTo(Position::Begin)))
    );
    assert_eq!(
        db_list_on(DbList::SearchResult, &key(NONE, "Enter"), &keys, Some(3), Some(5)),
        DbListReaction::Send(DbListMsg::SearchTrack(3))
    );
    assert_eq!(
        db_list_on(DbList::SearchResult, &key(NONE, "l"), &keys, Some(3), Some(5)),
        DbListReaction::Send(DbListMsg::AddResultToPlaylist(3))
    );
    assert_eq!(
        db_list_on(DbList::SearchResult, &key(SHIFT, "L"), &keys, None, None),
        DbListReaction::Send(DbListMsg::AddAllResultsConfirmShow)
    );
    assert_eq!(
        db_list_on(DbList::SearchTracks, &key(NONE, "l"), &keys, Some(0), Some(2)),
        DbListReaction::Send(DbListMsg::AddPlaylist(0))
    );
    assert_eq!(
        db_list_on(DbList::SearchTracks, &key(NONE, "Enter"), &keys, Some(0), Some(2)),
        DbListReaction::Nothing
    );
    assert_eq!(
        db_list_on(DbList::SearchTracks, &key(NONE, "/"), &keys, Some(0), Some(2)),
        DbListReaction::Send(DbListMsg::SearchPopupShow)
    );
    assert_eq!(
        db_list_on(DbList::SearchTracks, &key(SHIFT, "L"), &keys, None, None),
        DbListReaction::Send(DbListMsg::AddAllToPlaylist)
    );
}

#[test]
fn theme_page_layout() {
    assert_eq!(theme_group_heights(&vec![]), vec![16, 19, 10, 10, 10, 13]);
    let open = vec![IdCETheme::LibraryBorder, IdCETheme::FallbackHighlight];
    assert_eq!(theme_group_heights(&open), vec![21, 19, 10, 10, 10, 18]);
    let f = |t| Some(Id::ConfigEditor(IdConfigEditor::Theme(t)));
    assert_eq!(theme_focus_group(f(IdCETheme::CurrentlyPlayingTrackSymbol)), Some(1));
    assert_eq!(theme_focus_group(f(IdCETheme::FallbackLabel)), Some(5));
    assert_eq!(theme_focus_group(f(IdCETheme::ThemeSelectTable)), None);
    assert_eq!(theme_focus_group(Some(Id::Playlist)), None);
    let g = |x| Some(Id::ConfigEditor(IdConfigEditor::General(x)));
    assert_eq!(general_focus_cell(g(IdCEGeneral::ExtraYtdlpArgs)), Some(18));
    assert_eq!(general_focus_cell(g(IdCEGeneral::SeekStep)), Some(10));
    assert_eq!(general_focus_cell(None), None);
}

#[test]
fn key_page_layout() {
    let elems = vec![
        IdKey::Global(IdKeyGlobal::Quit),
        IdKey::Global(IdKeyGlobal::Help),
        IdKey::Global(IdKeyGlobal::Config),
    ];
    let page = KeyDisplay::new(elems, 25);
    assert_eq!(page.elem_heights(&vec![IdKey::Global(IdKeyGlobal::Help)]), vec![3, 8, 3]);
    let focus = Some(Id::ConfigEditor(IdConfigEditor::KeyGlobal(IdKeyGlobal::Config)));
    assert_eq!(page.focus_index(focus), Some(2));
    let other = Some(Id::ConfigEditor(IdConfigEditor::KeyOther(IdKeyOther::DatabaseAddAll)));
    assert_eq!(page.focus_index(other), None);
}

fn key_change(m: &Option<FieldMsg>) -> Option<(IdKey, KeyModifierSet, String)> {
    match m {
        Some(FieldMsg::Editor(ConfigEditorMsg::KeyChange(id, b))) => Some((*id, b.modifiers, b.code.clone())),
        _ => None,
    }
}

#[test]
fn key_names_are_recognised() {
    assert_eq!(key_name("a"), Some("a".to_string()));
    assert_eq!(key_name("enter"), Some("Enter".to_string()));
    assert_eq!(key_name("PAGEDOWN"), Some("PageDown".to_string()));
    assert_eq!(key_name("f12"), Some("F12".to_string()));
    assert_eq!(key_name("ab"), None);
    assert_eq!(key_name(""), None);
}

#[test]
fn key_field_edits_and_binds() {
    let keys = config();
    let mut with_help = keys;
    with_help.set(IdKey::Global(IdKeyGlobal::Help), key(NONE, "h"));
    let ek = editor_keys();
    let id = IdKey::Global(IdKeyGlobal::Help);
    let mut field = KEModifierSelect::new(id, &with_help);
    assert_eq!(field.component.state(), ComboState::One(0));
    assert_eq!(field.component.input.get_value(), "h");
    // typing before the name makes no key name
    let m = field.on(&key(NONE, "x"), &with_help, &ek);
    assert!(matches!(m, Some(FieldMsg::Redraw)));
    assert_eq!(field.component.input.get_value(), "xh");
    let m = field.on(&key(NONE, "Backspace"), &with_help, &ek);
    assert!(matches!(m, Some(FieldMsg::Redraw)));
    assert_eq!(field.component.input.get_value(), "h");
    let m = field.on(&key(NONE, "Delete"), &with_help, &ek);
    assert!(matches!(m, Some(FieldMsg::Redraw)));
    assert_eq!(field.component.input.get_value(), "");
    // a single character is a key name: it becomes the binding at once
    let m = field.on(&key(NONE, "a"), &with_help, &ek);
    assert_eq!(key_change(&m), Some((id, NONE, "a".to_string())));
    // open the modifier list, pick shift, confirm: the name turns upper case
    let m = field.on(&key(NONE, "Enter"), &with_help, &ek);
    assert!(matches!(m, Some(FieldMsg::Redraw)));
    assert_eq!(field.component.state(), ComboState::Unset);
    let m = field.on(&key(NONE, "Down"), &with_help, &ek);
    assert!(matches!(m, Some(FieldMsg::Redraw)));
    let m = field.on(&key(NONE, "Enter"), &with_help, &ek);
    assert_eq!(key_change(&m), Some((id, SHIFT, "A".to_string())));
    assert_eq!(field.component.state(), ComboState::One(1));
    assert_eq!(field.component.input.get_value(), "A");
    // with the list closed the arrows leave the field
    let m = field.on(&key(NONE, "Down"), &with_help, &ek);
    assert!(matches!(m, Some(FieldMsg::Editor(ConfigEditorMsg::FocusDown(IdConfigEditor::KeyGlobal(IdKeyGlobal::Help))))));
    // the quit key is typed into a closed field
    let m = field.on(&key(NONE, "q"), &with_help, &ek);
    assert!(m.is_none());
    assert_eq!(field.component.input.get_value(), "Aq");
    let m = field.on(&key(NONE, "Esc"), &with_help, &ek);
    assert!(matches!(m, Some(FieldMsg::Editor(ConfigEditorMsg::CloseCancel))));
}

#[test]
fn key_field_function_keys_and_cancel() {
    let keys = config();
    let ek = editor_keys();
    let id = IdKey::Other(IdKeyOther::DatabaseAddAll);
    let mut field = KEModifierSelect::new(id, &keys);
    assert_eq!(field.component.input.get_value(), "L");
    assert_eq!(field.component.state(), ComboState::One(1));
    field.on(&key(NONE, "End"), &keys, &ek);
    field.on(&key(NONE, "Backspace"), &keys, &ek);
    assert_eq!(field.component.input.get_value(), "");
    let m = field.on(&key(NONE, "f"), &keys, &ek);
    assert_eq!(key_change(&m), Some((id, SHIFT, "F".to_string())));
    let m = field.on(&key(NONE, "5"), &keys, &ek);
    assert_eq!(key_change(&m), Some((id, SHIFT, "F5".to_string())));
    // open the list, move, and cancel with escape: the old choice returns
    field.on(&key(NONE, "Enter"), &keys, &ek);
    field.on(&key(NONE, "j"), &keys, &ek);
    assert_eq!(field.component.states.selected, 2);
    let m = field.on(&key(NONE, "Esc"), &keys, &ek);
    assert!(matches!(m, Some(FieldMsg::Redraw)));
    assert_eq!(field.component.state(), ComboState::One(1));
    let m = field.on(&key(CTRL, "s"), &keys, &ek);
    assert!(matches!(m, Some(FieldMsg::Editor(ConfigEditorMsg::CloseOk))));
}

#[test]
fn theme_table_reacts() {
    let keys = config();
    let ek = editor_keys();
    assert!(matches!(theme_table_on(&key(NONE, "Enter"), &keys, &ek, Some(4)), ThemeTableReaction::Load(4)));
    assert!(matches!(theme_table_on(&key(NONE, "Enter"), &keys, &ek, None), ThemeTableReaction::Nothing));
    assert!(matches!(
        theme_table_on(&key(NONE, "j"), &keys, &ek, Some(0)),
        ThemeTableReaction::Perform(TableCmd::Move(Direction::Down))
    ));
    assert!(matches!(
        theme_table_on(&key(NONE, "End"), &keys, &ek, Some(0)),
        ThemeTableReaction::Perform(TableCmd::GoTo(Position::End))
    ));
    assert!(matches!(
        theme_table_on(&key(NONE, "q"), &keys, &ek, Some(0)),
        ThemeTableReaction::Send(FieldMsg::Editor(ConfigEditorMsg::CloseCancel))
    ));
    assert!(matches!(
        theme_table_on(&key(SHIFT, "BackTab"), &keys, &ek, Some(0)),
        ThemeTableReaction::Send(FieldMsg::Editor(ConfigEditorMsg::FocusUp(IdConfigEditor::Theme(
            IdCETheme::ThemeSelectTable
        ))))
    ));
    assert!(matches!(theme_table_on(&key(NONE, "Home"), &keys, &ek, Some(0)), ThemeTableReaction::Nothing));
}

#[test]
fn color_choice_reacts() {
    let keys = config();
    let ek = editor_keys();
    let id = IdCETheme::LyricBorder;
    assert!(matches!(
        color_select_on(id, false, &key(NONE, "k"), &keys, &ek),
        ColorSelectReaction::Send(FieldMsg::Editor(ConfigEditorMsg::FocusUp(IdConfigEditor::Theme(IdCETheme::LyricBorder))))
    ));
    assert!(matches!(
        color_select_on(id, true, &key(NONE, "k"), &keys, &ek),
        ColorSelectReaction::Perform(ComboCmd::MoveUp)
    ));
    assert!(matches!(
        color_select_on(id, true, &key(NONE, "Esc"), &keys, &ek),
        ColorSelectReaction::Perform(ComboCmd::Cancel)
    ));
    assert!(matches!(
        color_select_on(id, false, &key(NONE, "q"), &keys, &ek),
        ColorSelectReaction::Send(FieldMsg::Editor(ConfigEditorMsg::CloseCancel))
    ));
    assert!(matches!(
        color_select_on(id, false, &key(NONE, "Enter"), &keys, &ek),
        ColorSelectReaction::Perform(ComboCmd::Submit)
    ));
    assert!(matches!(
        color_select_after(id, ComboCmd::Submit, ComboCmdResult::Submit(ComboState::One(3))),
        Some(FieldMsg::Editor(ConfigEditorMsg::ColorChanged(IdConfigEditor::Theme(IdCETheme::LyricBorder), ThemeColor::Black)))
    ));
    assert!(matches!(
        color_select_after(id, ComboCmd::Submit, ComboCmdResult::Submit(ComboState::One(19))),
        Some(FieldMsg::Redraw)
    ));
    assert!(matches!(color_select_after(id, ComboCmd::Submit, ComboCmdResult::Unchanged), Some(FieldMsg::Redraw)));
    assert!(color_select_after(id, ComboCmd::MoveUp, ComboCmdResult::Unchanged).is_none());
}

#[test]
fn symbol_field_reacts_and_checks() {
    let ek = editor_keys();
    let field = IdConfigEditor::Theme(IdCETheme::LibraryHighlightSymbol);
    assert!(matches!(symbol_field_on(field, &key(SHIFT, "A"), &ek), SymbolFieldReaction::EditAndCheck(FieldCmd::Type('A'))));
    assert!(matches!(symbol_field_on(field, &key(CTRL, "a"), &ek), SymbolFieldReaction::Nothing));
    assert!(matches!(symbol_field_on(field, &key(NONE, "Home"), &ek), SymbolFieldReaction::Edit(FieldCmd::GoToBegin)));
    assert!(matches!(symbol_field_on(field, &key(NONE, "Enter"), &ek), SymbolFieldReaction::Submit));
    let u = symbol_update(field, &SymbolResult::Changed("1f984".to_string()));
    assert_eq!(u.look, SymbolLook::Valid);
    assert_eq!(u.symbol, Some('\u{1f984}'));
    assert_eq!(u.show, None);
    match &u.msg {
        FieldMsg::Editor(ConfigEditorMsg::SymbolChanged(f, s)) => {
            assert_eq!(*f, field);
            assert_eq!(s, "\u{1f984}");
        }
        _ => panic!("expected a symbol change"),
    }
    let u = symbol_update(field, &SymbolResult::Changed("zz".to_string()));
    assert_eq!(u.look, SymbolLook::Invalid);
    let u = symbol_update(field, &SymbolResult::Changed(String::new()));
    assert_eq!(u.look, SymbolLook::Plain);
    let u = symbol_update(field, &SymbolResult::Submitted("263a".to_string()));
    assert_eq!(u.show, Some('\u{263a}'));
    let u = symbol_update(field, &SymbolResult::Submitted("d800".to_string()));
    assert_eq!(u.look, SymbolLook::Unchanged);
    assert!(matches!(u.msg, FieldMsg::Redraw));
}

#[test]
fn track_queries_by_criteria() {
    assert_eq!(tracks_query(SearchCriteria::Artist, "abba"), TrackQuery::ArtistsLike("%abba%".to_string()));
    assert_eq!(tracks_query(SearchCriteria::Album, "x"), TrackQuery::AlbumsLike("%x%".to_string()));
    assert_eq!(tracks_query(SearchCriteria::Genre, "[unknown]"), TrackQuery::GenreUnknown);
    assert_eq!(tracks_query(SearchCriteria::Genre, "rock"), TrackQuery::GenreLike("%rock%".to_string()));
    assert_eq!(tracks_query(SearchCriteria::Directory, "/m"), TrackQuery::Directory("/m".to_string()));
    assert_eq!(tracks_query(SearchCriteria::Playlist, "/p.m3u"), TrackQuery::PlaylistFile("/p.m3u".to_string()));
}

#[test]
fn key_fields_have_titles() {
    assert_eq!(key_title(IdKey::Global(IdKeyGlobal::PlayerPrevious)), " Previous Song ");
    assert_eq!(key_title(IdKey::Global(IdKeyGlobal::SavePlaylist)), " Global Save Playlist ");
    assert_eq!(key_title(IdKey::Other(IdKeyOther::PlaylistAddRandomAlbum)), " Playlist Select Album ");
    assert_eq!(key_title(IdKey::Other(IdKeyOther::PodcastEpDownload)), " Episode download");
}
