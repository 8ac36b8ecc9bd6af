//! The config editor: mounting and unmounting its pages, switching between
//! them, moving the focus, previewing themes and the open/close/save flow.
use vstd::prelude::*;

use crate::config_ids::{
    color_ids, color_ids_vec, color_symbol_ids, color_symbol_ids_vec, general_ids,
    general_ids_vec, general_umount_ids, general_umount_ids_vec, key_database_ids,
    key_database_ids_vec, key_database_umount_ids, key_database_umount_ids_vec, key_global_ids,
    key_global_ids_vec, key_global_umount_ids, key_global_umount_ids_vec, key_library_ids,
    key_library_ids_vec, key_other_focus_ring, key_other_focus_ring_vec, key_global_focus_ring,
    key_global_focus_ring_vec, key_playlist_ids, key_playlist_ids_vec, key_playlist_umount_ids,
    key_playlist_umount_ids_vec, key_podcast_ids, key_podcast_ids_vec,
};
use crate::focus::{config_editor_focus_target, page_focus_target};
use crate::database::is_database_reload;
use crate::key_config::{KeyBinding, KeyConfig};
use crate::ids::{Id, IdCEGeneral, IdCETheme, IdConfigEditor, IdKey};
use crate::model::{after_mount_actions, ConfigEditorLayout, Model, ThemeChoice, TuiCmd, UiAction};
use crate::theme_style::{color_change_stored, stores_color_change, ThemeColor, ThemeStyle};
use crate::config_data::{
    collect_config_data, collect_spec, facts_fit, parsed_unsigned, ConfigDataError, GeneralFieldValues, GeneralSettings,
    OutsideFacts,
};

verus! {

/// Remounting each of these config editor components, in order.
pub open spec fn remount_actions(ids: Seq<IdConfigEditor>) -> Seq<UiAction> {
    ids.map_values(|c: IdConfigEditor| UiAction::Remount(Id::ConfigEditor(c)))
}

/// Unmounting each of these config editor components, in order.
pub open spec fn umount_actions(ids: Seq<IdConfigEditor>) -> Seq<UiAction> {
    ids.map_values(|c: IdConfigEditor| UiAction::Umount(Id::ConfigEditor(c)))
}

/// The position of the first of the components `ids` that is not in `mounted`.
pub open spec fn first_missing(mounted: Set<Id>, ids: Seq<IdConfigEditor>) -> Option<int>
    decreases ids.len(),
{
    if ids.len() == 0 {
        None
    } else {
        match first_missing(mounted, ids.drop_last()) {
            Some(k) => Some(k),
            None => if mounted.contains(Id::ConfigEditor(ids.last())) {
                None
            } else {
                Some(ids.len() - 1)
            },
        }
    }
}

/// The components of the config editor `ids`, as a set of components.
pub open spec fn editor_id_set(ids: Seq<IdConfigEditor>) -> Set<Id> {
    Set::new(|i: Id| exists|k: int| 0 <= k < ids.len() && i == Id::ConfigEditor(#[trigger] ids[k]))
}

/// The components `ids` with one more, `c`, after them.
pub proof fn lemma_editor_id_set_push(ids: Seq<IdConfigEditor>, c: IdConfigEditor)
    ensures
        editor_id_set(ids.push(c)) == editor_id_set(ids).insert(Id::ConfigEditor(c)),
{
    let s = ids.push(c);
    assert forall|i: Id| #[trigger] editor_id_set(s).contains(i) == editor_id_set(ids).insert(
        Id::ConfigEditor(c),
    ).contains(i) by {
        if editor_id_set(s).contains(i) {
            let k = choose|k: int| 0 <= k < s.len() && i == Id::ConfigEditor(#[trigger] s[k]);
            if k < ids.len() {
                assert(ids[k] == s[k]);
            }
        }
        if editor_id_set(ids).contains(i) {
            let k = choose|k: int| 0 <= k < ids.len() && i == Id::ConfigEditor(#[trigger] ids[k]);
            assert(s[k] == ids[k]);
        }
        if i == Id::ConfigEditor(c) {
            assert(i == Id::ConfigEditor(s[ids.len() as int]));
        }
    }
    assert(editor_id_set(s) =~= editor_id_set(ids).insert(Id::ConfigEditor(c)));
}

/// Applying `a` then `b` is applying `a` and, unless it failed, then `b`.
pub proof fn lemma_after_mount_actions_concat(mounted: Set<Id>, a: Seq<UiAction>, b: Seq<UiAction>)
    ensures
        after_mount_actions(mounted, a + b) == match after_mount_actions(mounted, a) {
            Ok(m) => after_mount_actions(m, b),
            Err(e) => Err(e),
        },
    decreases b.len(),
{
    if b.len() == 0 {
        assert(a + b =~= a);
    } else {
        assert((a + b).drop_last() =~= a + b.drop_last());
        assert((a + b).last() == b.last());
        lemma_after_mount_actions_concat(mounted, a, b.drop_last());
    }
}

/// Remounting config editor components one after the other never fails and
/// mounts each of them; every other component keeps its state.
pub proof fn lemma_remounts(mounted: Set<Id>, ids: Seq<IdConfigEditor>)
    ensures
        after_mount_actions(mounted, remount_actions(ids)) == Ok::<Set<Id>, (Set<Id>, Id)>(
            mounted.union(editor_id_set(ids)),
        ),
    decreases ids.len(),
{
    if ids.len() == 0 {
        assert(remount_actions(ids) =~= Seq::<UiAction>::empty());
        assert(mounted.union(editor_id_set(ids)) =~= mounted);
    } else {
        let init = ids.drop_last();
        lemma_remounts(mounted, init);
        assert(remount_actions(ids).drop_last() =~= remount_actions(init));
        assert(remount_actions(ids).last() == UiAction::Remount(Id::ConfigEditor(ids.last())));
        assert(init.push(ids.last()) =~= ids);
        lemma_editor_id_set_push(init, ids.last());
        assert(mounted.union(editor_id_set(init)).insert(Id::ConfigEditor(ids.last())) =~= mounted.union(
            editor_id_set(ids),
        ));
    }
}

/// Unmounting distinct config editor components one after the other: when
/// all are mounted, afterwards none of them is and every other component keeps
/// its state; otherwise it fails on the first of them that is not mounted,
/// with those before it unmounted and the rest as they were.
pub proof fn lemma_umounts(mounted: Set<Id>, ids: Seq<IdConfigEditor>)
    requires
        ids.no_duplicates(),
    ensures
        match first_missing(mounted, ids) {
            None => after_mount_actions(mounted, umount_actions(ids)) == Ok::<
                Set<Id>,
                (Set<Id>, Id),
            >(mounted.difference(editor_id_set(ids))),
            Some(k) => 0 <= k < ids.len() && after_mount_actions(mounted, umount_actions(ids))
                == Err::<Set<Id>, (Set<Id>, Id)>(
                (mounted.difference(editor_id_set(ids.take(k))), Id::ConfigEditor(ids[k])),
            ),
        },
    decreases ids.len(),
{
    if ids.len() == 0 {
        assert(umount_actions(ids) =~= Seq::<UiAction>::empty());
        assert(mounted.difference(editor_id_set(ids)) =~= mounted);
    } else {
        let init = ids.drop_last();
        assert(init.no_duplicates());
        lemma_umounts(mounted, init);
        assert(umount_actions(ids).drop_last() =~= umount_actions(init));
        assert(umount_actions(ids).last() == UiAction::Umount(Id::ConfigEditor(ids.last())));
        assert(init.push(ids.last()) =~= ids);
        lemma_editor_id_set_push(init, ids.last());
        match first_missing(mounted, init) {
            Some(k) => {
                assert(ids.take(k) =~= init.take(k));
                assert(ids[k] == init[k]);
            },
            None => {
                let m1 = mounted.difference(editor_id_set(init));
                assert(!editor_id_set(init).contains(Id::ConfigEditor(ids.last()))) by {
                    if editor_id_set(init).contains(Id::ConfigEditor(ids.last())) {
                        let k = choose|k: int| 0 <= k < init.len() && Id::ConfigEditor(ids.last())
                            == Id::ConfigEditor(#[trigger] init[k]);
                        assert(ids[k] == ids[ids.len() - 1]);
                    }
                }
                if mounted.contains(Id::ConfigEditor(ids.last())) {
                    assert(m1.remove(Id::ConfigEditor(ids.last())) =~= mounted.difference(
                        editor_id_set(ids),
                    ));
                } else {
                    assert(ids.take(ids.len() - 1) =~= init);
                }
            },
        }
    }
}

/// Unmounting the symbol fields of the theme page (see
/// `umount_config_color_symbols`): when all three are mounted, afterwards
/// none is and every other component keeps its state; otherwise it fails on
/// the first of them that is not mounted, with those before it unmounted and
/// the rest as they were.
pub proof fn lemma_umount_color_symbols(mounted: Set<Id>)
    ensures
        match first_missing(mounted, color_symbol_ids()) {
            None => after_mount_actions(mounted, umount_actions(color_symbol_ids())) == Ok::<
                Set<Id>,
                (Set<Id>, Id),
            >(mounted.difference(editor_id_set(color_symbol_ids()))),
            Some(k) => 0 <= k < 3 && after_mount_actions(mounted, umount_actions(color_symbol_ids()))
                == Err::<Set<Id>, (Set<Id>, Id)>(
                (
                    mounted.difference(editor_id_set(color_symbol_ids().take(k))),
                    Id::ConfigEditor(color_symbol_ids()[k]),
                ),
            ),
        },
{
    let ids = color_symbol_ids();
    assert(ids.no_duplicates()) by {
        assert forall|i: int, j: int| 0 <= i < ids.len() && 0 <= j < ids.len() && i != j implies ids[i]
            != ids[j] by {}
    }
    lemma_umounts(mounted, ids);
}

/// Queue the remounting of each of these components, in order.
fn push_remounts(ui: &mut Vec<UiAction>, ids: Vec<IdConfigEditor>)
    ensures
        final(ui)@ == old(ui)@ + remount_actions(ids@),
{
    let ghost start = ui@;
    let mut i: usize = 0;
    while i < ids.len()
        invariant
            i <= ids@.len(),
            ui@ == start + remount_actions(ids@.take(i as int)),
        decreases ids@.len() - i,
    {
        ui.push(UiAction::Remount(Id::ConfigEditor(ids[i])));
        proof {
            assert(remount_actions(ids@.take(i + 1)) =~= remount_actions(ids@.take(i as int)).push(
                UiAction::Remount(Id::ConfigEditor(ids@[i as int])),
            ));
        }
        i = i + 1;
    }
    proof {
        assert(ids@.take(i as int) =~= ids@);
    }
}

/// Queue the unmounting of each of these components, in order.
fn push_umounts(ui: &mut Vec<UiAction>, ids: Vec<IdConfigEditor>)
    ensures
        final(ui)@ == old(ui)@ + umount_actions(ids@),
{
    let ghost start = ui@;
    let mut i: usize = 0;
    while i < ids.len()
        invariant
            i <= ids@.len(),
            ui@ == start + umount_actions(ids@.take(i as int)),
        decreases ids@.len() - i,
    {
        ui.push(UiAction::Umount(Id::ConfigEditor(ids[i])));
        proof {
            assert(umount_actions(ids@.take(i + 1)) =~= umount_actions(ids@.take(i as int)).push(
                UiAction::Umount(Id::ConfigEditor(ids@[i as int])),
            ));
        }
        i = i + 1;
    }
    proof {
        assert(ids@.take(i as int) =~= ids@);
    }
}

/// The header and the footer of the config editor.
pub open spec fn header_footer_ids() -> Seq<IdConfigEditor> {
    seq![IdConfigEditor::Header, IdConfigEditor::Footer]
}

/// All key binding fields, in the order they are mounted.
pub open spec fn keys_ids() -> Seq<IdConfigEditor> {
    key_global_ids() + key_library_ids() + key_playlist_ids() + key_database_ids()
        + key_podcast_ids()
}

/// The key binding fields, in the order they are unmounted.
pub open spec fn keys_umount_ids() -> Seq<IdConfigEditor> {
    key_global_umount_ids() + key_library_ids() + key_playlist_umount_ids()
        + key_database_umount_ids() + key_podcast_ids()
}

/// Exchanging two of the components `ids` leaves the same components.
pub proof fn lemma_editor_id_set_swap(ids: Seq<IdConfigEditor>, i: int, j: int)
    requires
        0 <= i < ids.len(),
        0 <= j < ids.len(),
    ensures
        editor_id_set(ids.update(i, ids[j]).update(j, ids[i])) == editor_id_set(ids),
{
    let s = ids.update(i, ids[j]).update(j, ids[i]);
    assert forall|x: Id| #[trigger] editor_id_set(s).contains(x) == editor_id_set(ids).contains(x) by {
        if editor_id_set(s).contains(x) {
            let k = choose|k: int| 0 <= k < s.len() && x == Id::ConfigEditor(#[trigger] s[k]);
            let w = if k == j { i } else if k == i { j } else { k };
            assert(ids[w] == s[k]);
        }
        if editor_id_set(ids).contains(x) {
            let k = choose|k: int| 0 <= k < ids.len() && x == Id::ConfigEditor(#[trigger] ids[k]);
            let w = if k == i { j } else if k == j { i } else { k };
            assert(s[w] == ids[k]);
        }
    }
    assert(editor_id_set(s) =~= editor_id_set(ids));
}

/// No component of `ids` is missing from `mounted` when all of them are in it.
pub proof fn lemma_first_missing_none(mounted: Set<Id>, ids: Seq<IdConfigEditor>)
    requires
        editor_id_set(ids).subset_of(mounted),
    ensures
        first_missing(mounted, ids) is None,
    decreases ids.len(),
{
    if ids.len() > 0 {
        let init = ids.drop_last();
        assert(init.push(ids.last()) =~= ids);
        lemma_editor_id_set_push(init, ids.last());
        lemma_first_missing_none(mounted, init);
    }
}

/// The key binding fields are unmounted in the order they are mounted, but for
/// two pairs exchanged, and none of them twice.
pub proof fn lemma_keys_umount_order()
    ensures
        keys_umount_ids() == keys_ids().update(20, keys_ids()[22]).update(22, keys_ids()[20]).update(
            46,
            keys_ids()[48],
        ).update(48, keys_ids()[46]),
        keys_umount_ids().no_duplicates(),
{
    let a = keys_ids();
    let b = a.update(20, a[22]).update(22, a[20]);
    assert(keys_umount_ids() =~= b.update(46, b[48]).update(48, b[46]));
    assert(keys_umount_ids().no_duplicates());
}

/// Unmounting the key pages (see `umount_config_keys`) while every key
/// binding field that remounting them mounts (see `remount_config_keys`) is
/// mounted never fails: afterwards none of those fields is mounted and every
/// other component keeps its state.
pub proof fn lemma_umount_keys(mounted: Set<Id>)
    requires
        editor_id_set(keys_ids()).subset_of(mounted),
    ensures
        after_mount_actions(mounted, umount_actions(keys_umount_ids())) == Ok::<
            Set<Id>,
            (Set<Id>, Id),
        >(mounted.difference(editor_id_set(keys_ids()))),
{
    lemma_keys_umount_order();
    let a = keys_ids();
    let b = a.update(20, a[22]).update(22, a[20]);
    lemma_editor_id_set_swap(a, 20, 22);
    lemma_editor_id_set_swap(b, 46, 48);
    lemma_first_missing_none(mounted, keys_umount_ids());
    lemma_umounts(mounted, keys_umount_ids());
}

/// Remounting the key pages and then unmounting them never fails: afterwards
/// none of the key binding fields is mounted, and every other component is
/// as it was before.
pub proof fn lemma_umount_keys_after_remount(mounted: Set<Id>)
    ensures
        after_mount_actions(mounted, remount_actions(keys_ids()) + umount_actions(keys_umount_ids()))
            == Ok::<Set<Id>, (Set<Id>, Id)>(mounted.difference(editor_id_set(keys_ids()))),
{
    lemma_after_mount_actions_concat(mounted, remount_actions(keys_ids()), umount_actions(keys_umount_ids()));
    lemma_remounts(mounted, keys_ids());
    let m = mounted.union(editor_id_set(keys_ids()));
    lemma_umount_keys(m);
    assert(m.difference(editor_id_set(keys_ids())) =~= mounted.difference(editor_id_set(keys_ids())));
}

/// The page after `layout`: general, theme, global keys, other keys, and round again.
pub open spec fn next_layout(layout: ConfigEditorLayout) -> ConfigEditorLayout {
    match layout {
        ConfigEditorLayout::General => ConfigEditorLayout::Color,
        ConfigEditorLayout::Color => ConfigEditorLayout::Key1,
        ConfigEditorLayout::Key1 => ConfigEditorLayout::Key2,
        ConfigEditorLayout::Key2 => ConfigEditorLayout::General,
    }
}

/// The field that gets the focus when a page is shown.
pub open spec fn first_field(layout: ConfigEditorLayout) -> IdConfigEditor {
    match layout {
        ConfigEditorLayout::General => IdConfigEditor::General(IdCEGeneral::MusicDir),
        ConfigEditorLayout::Color => IdConfigEditor::Theme(IdCETheme::ThemeSelectTable),
        ConfigEditorLayout::Key1 => key_global_focus_ring()[0],
        ConfigEditorLayout::Key2 => key_other_focus_ring()[0],
    }
}

/// Four page changes come back to the page they started from.
pub proof fn lemma_four_layout_changes(layout: ConfigEditorLayout)
    ensures
        next_layout(next_layout(next_layout(next_layout(layout)))) == layout,
        next_layout(layout) != layout,
{
}

/// Built-in themes come before the theme files in the theme table.
pub const THEMES_WITHOUT_FILES: usize = 2;

/// The first position of a theme named `name` in `themes`.
pub open spec fn theme_position(themes: Seq<String>, name: Seq<char>) -> Option<nat>
    decreases themes.len(),
{
    if themes.len() == 0 {
        None
    } else if themes[0]@ == name {
        Some(0)
    } else {
        match theme_position(themes.drop_first(), name) {
            Some(k) => Some(k + 1),
            None => None,
        }
    }
}

/// The row of the theme table to select: the one given, else the row of the
/// theme file being edited, else the default theme's row.
pub open spec fn theme_select_index(themes: Seq<String>, file_name: Option<String>, previous: Option<usize>) -> usize {
    match previous {
        Some(i) => i,
        None => match file_name {
            Some(f) => match theme_position(themes, f@) {
                Some(k) => (k + THEMES_WITHOUT_FILES) as usize,
                None => 0,
            },
            None => 0,
        },
    }
}

/// The theme file of the theme table's row `index`: none for the built-in
/// themes and past the table.
pub open spec fn theme_file_for(themes: Seq<String>, index: usize) -> Option<String> {
    match theme_choice_for(themes, index) {
        Some(ThemeChoice::File(name)) => Some(name),
        _ => None,
    }
}

/// What previewing the theme table's row `index` shows.
pub open spec fn theme_choice_for(themes: Seq<String>, index: usize) -> Option<ThemeChoice> {
    if index == 0 {
        Some(ThemeChoice::Default)
    } else if index == 1 {
        Some(ThemeChoice::Native)
    } else if index - THEMES_WITHOUT_FILES < themes.len() {
        Some(ThemeChoice::File(themes[index - THEMES_WITHOUT_FILES]))
    } else {
        None
    }
}

/// The question the popup asks before saving.
pub open spec fn config_save_question() -> Seq<char> {
    " Config changed. Do you want to save? "@
}

/// The popup asking whether to save the edited configuration.
#[derive(Debug)]
pub struct ConfigSavePopup {
    pub title: String,
}

impl ConfigSavePopup {
    /// The popup with its question.
    pub fn new() -> (r: Self)
        ensures
            r.title@ == config_save_question(),
    {
        let title = String::from_str(" Config changed. Do you want to save? ");
        ConfigSavePopup { title }
    }
}

/// Which kind of key binding fields a key page shows.
#[derive(Debug, Clone, Copy, PartialEq, Eq, Structural)]
pub enum KeyDisplayType {
    Global,
    Other,
}

/// What draws a page of key binding fields, in order, at least `width` wide.
#[derive(Debug)]
pub struct KeyDisplay {
    pub elems: Vec<IdKey>,
    pub discriminant: KeyDisplayType,
    pub width: u16,
}

/// The kind of a key binding field.
pub open spec fn key_display_type(k: IdKey) -> KeyDisplayType {
    match k {
        IdKey::Global(_) => KeyDisplayType::Global,
        IdKey::Other(_) => KeyDisplayType::Other,
    }
}

impl KeyDisplay {
    /// Draw `elems` in that order, at least `width` wide; the page's kind is
    /// that of its first field, and all fields are expected to be of that kind.
    pub fn new(elems: Vec<IdKey>, width: u16) -> (r: Self)
        requires
            elems@.len() > 0,
        ensures
            r.elems@ == elems@,
            r.discriminant == key_display_type(elems@[0]),
            r.width == width,
    {
        let discriminant = match elems[0] {
            IdKey::Global(_) => KeyDisplayType::Global,
            IdKey::Other(_) => KeyDisplayType::Other,
        };
        KeyDisplay { elems, discriminant, width }
    }
}

/// What `u32::from_str_radix(s, 16)` gives.
pub open spec fn parsed_hex(s: Seq<char>) -> Option<u32> {
    match parsed_unsigned(s, 16, u32::MAX as nat) {
        Some(v) => Some(v as u32),
        None => None,
    }
}

/// `u32::from_str_radix` in base 16: as std documents it, the number an
/// optional `+` and hexadecimal digits give when it fits (see `parsed_hex`).
#[verifier::external_body]
fn parse_hex_u32(s: &str) -> (r: Option<u32>)
    ensures
        r == parsed_hex(s@),
{
    u32::from_str_radix(s, 16).ok()
}

/// The character with code `v`, if `v` is a Unicode scalar value.
pub open spec fn char_of(v: u32) -> Option<char> {
    if v < 0xD800 || (0xE000 <= v && v <= 0x10FFFF) {
        Some(v as char)
    } else {
        None
    }
}

/// `char::from_u32`: as documented, a character exactly for the Unicode scalar
/// values, that is up to `0x10FFFF` but for the surrogates `0xD800..=0xDFFF`,
/// and then the one with that code.
#[verifier::external_body]
fn char_from_u32(v: u32) -> (r: Option<char>)
    ensures
        r == char_of(v),
{
    std::char::from_u32(v)
}

/// The character whose code `s` gives in hexadecimal, if any.
pub fn string_to_unicode_char(s: &str) -> (r: Option<char>)
    ensures
        r == match parsed_hex(s@) {
            Some(v) => char_of(v),
            None => None,
        },
{
    match parse_hex_u32(s) {
        Some(v) => char_from_u32(v),
        None => None,
    }
}

/// The error popups a confirmed save shows: the failure of collecting the
/// edited values; or, when collecting worked, the failure of writing the
/// server's configuration and then that of writing the interface's.
pub open spec fn save_error_popups(
    collected: Result<(), String>,
    server_saved: Result<(), String>,
    tui_saved: Result<(), String>,
) -> Seq<UiAction> {
    match collected {
        Err(e) => seq![UiAction::ErrorPopup(e)],
        Ok(()) => (match server_saved {
            Err(e) => seq![UiAction::ErrorPopup(e)],
            Ok(()) => Seq::empty(),
        }) + (match tui_saved {
            Err(e) => seq![UiAction::ErrorPopup(e)],
            Ok(()) => Seq::empty(),
        }),
    }
}

/// The theme files found when the editor opens, if the theme directory
/// could be read.
pub open spec fn themes_loaded(themes: Result<Option<Vec<String>>, String>) -> Option<Seq<String>> {
    match themes {
        Ok(Some(t)) => Some(t@),
        _ => None,
    }
}

/// The failure to find the theme directory when the editor opens, if any.
pub open spec fn themes_error(themes: Result<Option<Vec<String>>, String>) -> Option<String> {
    match themes {
        Err(e) => Some(e),
        _ => None,
    }
}

/// Messages of the config editor.
#[derive(Debug)]
pub enum ConfigEditorMsg {
    /// Open the editor; `themes` is the list of theme files found, or nothing
    /// when the theme directory could not be read, or the failure to find it
    /// (see `mount_config_editor`), `theme_file_name` the file of the current
    /// theme, `keys` the key bindings, `style` the theme style and `palette`
    /// the theme's colours in force.
    Open {
        themes: Result<Option<Vec<String>>, String>,
        theme_file_name: Option<String>,
        keys: KeyConfig,
        style: ThemeStyle,
        palette: Vec<String>,
    },
    /// Close without saving.
    CloseCancel,
    /// Close, asking to save if something changed.
    CloseOk,
    /// Show the next page.
    ChangeLayout,
    /// A value was edited.
    ConfigChanged,
    /// The focus leaves this field downwards.
    FocusDown(IdConfigEditor),
    /// The focus leaves this field upwards.
    FocusUp(IdConfigEditor),
    /// The user confirmed saving: how collecting the edited values went, and,
    /// when it worked, how writing the server's and the interface's
    /// configuration files went; each failure carries its text.
    ConfigSaveOk {
        collected: Result<(), String>,
        server_saved: Result<(), String>,
        tui_saved: Result<(), String>,
    },
    /// The user declined saving.
    ConfigSaveCancel,
    /// The theme file at this row of the theme table was loaded for preview.
    ThemeLoaded(usize, Vec<String>),
    /// This color field was given this color.
    ColorChanged(IdConfigEditor, ThemeColor),
    /// This symbol field was given this symbol.
    SymbolChanged(IdConfigEditor, String),
    /// This key binding field was edited to this binding.
    KeyChange(IdKey, KeyBinding),
}

impl Model {
    /// The theme table rows fit in a `usize`.
    pub open spec fn themes_fit(self) -> bool {
        self.config_editor.themes@.len() + THEMES_WITHOUT_FILES < usize::MAX
    }

    /// The config editor state is as in `o` but for its page and change flag.
    pub open spec fn same_outside_editor(self, o: Model) -> bool {
        &&& self.playlist == o.playlist
        &&& self.playlist_selected == o.playlist_selected
        &&& self.same_settings(o)
        &&& self.dw == o.dw
        &&& self.lyric_line == o.lyric_line
        &&& self.config_editor.themes == o.config_editor.themes
        &&& self.config_editor.theme_file_name == o.config_editor.theme_file_name
        &&& self.config_editor.style == o.config_editor.style
        &&& self.config_editor.palette == o.config_editor.palette
    }

    /// Remount the header and the footer of the config editor.
    pub fn remount_config_header_footer(&mut self)
        ensures
            final(self).same_state(*old(self)),
            final(self).cmds@ == old(self).cmds@,
            final(self).ui@ == old(self).ui@ + remount_actions(header_footer_ids()),
    {
        let ids = vec![IdConfigEditor::Header, IdConfigEditor::Footer];
        push_remounts(&mut self.ui, ids);
    }

    /// Unmount the header and the footer of the config editor.
    pub fn umount_config_header_footer(&mut self)
        ensures
            final(self).same_state(*old(self)),
            final(self).cmds@ == old(self).cmds@,
            final(self).ui@ == old(self).ui@ + umount_actions(header_footer_ids()),
    {
        let ids = vec![IdConfigEditor::Header, IdConfigEditor::Footer];
        push_umounts(&mut self.ui, ids);
    }

    /// Remount the fields of the general page.
    pub fn remount_config_general(&mut self)
        ensures
            final(self).same_state(*old(self)),
            final(self).cmds@ == old(self).cmds@,
            final(self).ui@ == old(self).ui@ + remount_actions(general_ids()),
    {
        push_remounts(&mut self.ui, general_ids_vec());
    }

    /// Unmount the fields of the general page.
    pub fn umount_config_general(&mut self)
        ensures
            final(self).same_state(*old(self)),
            final(self).cmds@ == old(self).cmds@,
            final(self).ui@ == old(self).ui@ + umount_actions(general_umount_ids()),
    {
        push_umounts(&mut self.ui, general_umount_ids_vec());
    }

    /// Remount the symbol fields of the theme page.
    pub fn remount_config_color_symbols(&mut self)
        ensures
            final(self).same_state(*old(self)),
            final(self).cmds@ == old(self).cmds@,
            final(self).ui@ == old(self).ui@ + remount_actions(color_symbol_ids()),
    {
        push_remounts(&mut self.ui, color_symbol_ids_vec());
    }

    /// Unmount the symbol fields of the theme page.
    pub fn umount_config_color_symbols(&mut self)
        ensures
            final(self).same_state(*old(self)),
            final(self).cmds@ == old(self).cmds@,
            final(self).ui@ == old(self).ui@ + umount_actions(color_symbol_ids()),
    {
        push_umounts(&mut self.ui, color_symbol_ids_vec());
    }

    /// The row of the theme table that `theme_select_sync` selects.
    pub fn theme_select_index(&self, previous_index: Option<usize>) -> (r: usize)
        requires
            self.themes_fit(),
        ensures
            r == theme_select_index(
                self.config_editor.themes@,
                self.config_editor.theme_file_name,
                previous_index,
            ),
    {
        if let Some(index) = previous_index {
            return index;
        }
        match &self.config_editor.theme_file_name {
            Some(current) => {
                assert(self.config_editor.theme_file_name == Some(*current));
                let themes = &self.config_editor.themes;
                let mut i: usize = 0;
                proof {
                    assert(themes@.skip(0) =~= themes@);
                }
                while i < themes.len()
                    invariant
                        i <= themes@.len(),
                        themes@ == self.config_editor.themes@,
                        self.config_editor.theme_file_name == Some(*current),
                        previous_index is None,
                        themes@.len() + THEMES_WITHOUT_FILES < usize::MAX,
                        theme_position(themes@, current@) == match theme_position(
                            themes@.skip(i as int),
                            current@,
                        ) {
                            Some(k) => Some((k + i) as nat),
                            None => None,
                        },
                    decreases themes@.len() - i,
                {
                    proof {
                        assert(themes@.skip(i as int).drop_first() =~= themes@.skip(i + 1));
                    }
                    assert(themes@.skip(i as int)[0] == themes@[i as int]);
                    if themes[i] == *current {
                        proof {
                            assert(theme_position(themes@.skip(i as int), current@) == Some(0nat));
                        }
                        return i + THEMES_WITHOUT_FILES;
                    }
                    i = i + 1;
                }
                proof {
                    assert(themes@.skip(i as int).len() == 0);
                }
                0
            },
            None => 0,
        }
    }

    /// Fill the theme table and select the given row, or that of the theme being edited.
    pub fn theme_select_sync(&mut self, previous_index: Option<usize>)
        requires
            old(self).themes_fit(),
        ensures
            final(self).same_state(*old(self)),
            final(self).cmds@ == old(self).cmds@,
            final(self).ui@ == old(self).ui@.push(
                UiAction::ThemeSelectShow(
                    theme_select_index(
                        old(self).config_editor.themes@,
                        old(self).config_editor.theme_file_name,
                        previous_index,
                    ),
                ),
            ),
    {
        let index = self.theme_select_index(previous_index);
        self.ui.push(UiAction::ThemeSelectShow(index));
    }

    /// Remount the fields of the theme page and select a row of its theme table.
    pub fn remount_config_color(&mut self, theme_idx: Option<usize>)
        requires
            old(self).themes_fit(),
        ensures
            final(self).same_state(*old(self)),
            final(self).cmds@ == old(self).cmds@,
            final(self).ui@ == old(self).ui@ + remount_actions(color_ids()) + remount_actions(
                color_symbol_ids(),
            ) + seq![
                UiAction::ThemeSelectShow(
                    theme_select_index(
                        old(self).config_editor.themes@,
                        old(self).config_editor.theme_file_name,
                        theme_idx,
                    ),
                ),
            ],
    {
        push_remounts(&mut self.ui, color_ids_vec());
        self.remount_config_color_symbols();
        self.theme_select_sync(theme_idx);
    }

    /// Unmount the fields of the theme page.
    pub fn umount_config_color(&mut self)
        ensures
            final(self).same_state(*old(self)),
            final(self).cmds@ == old(self).cmds@,
            final(self).ui@ == old(self).ui@ + umount_actions(color_ids()) + umount_actions(
                color_symbol_ids(),
            ),
    {
        push_umounts(&mut self.ui, color_ids_vec());
        self.umount_config_color_symbols();
    }

    /// Remount the global key binding fields.
    pub fn remount_config_keys_global(&mut self)
        ensures
            final(self).same_state(*old(self)),
            final(self).cmds@ == old(self).cmds@,
            final(self).ui@ == old(self).ui@ + remount_actions(key_global_ids()),
    {
        push_remounts(&mut self.ui, key_global_ids_vec());
    }

    /// Remount the key binding fields of the library view.
    pub fn remount_config_keys_library(&mut self)
        ensures
            final(self).same_state(*old(self)),
            final(self).cmds@ == old(self).cmds@,
            final(self).ui@ == old(self).ui@ + remount_actions(key_library_ids()),
    {
        push_remounts(&mut self.ui, key_library_ids_vec());
    }

    /// Remount the key binding fields of the playlist view.
    pub fn remount_config_keys_playlist(&mut self)
        ensures
            final(self).same_state(*old(self)),
            final(self).cmds@ == old(self).cmds@,
            final(self).ui@ == old(self).ui@ + remount_actions(key_playlist_ids()),
    {
        push_remounts(&mut self.ui, key_playlist_ids_vec());
    }

    /// Remount the key binding fields of the database view.
    pub fn remount_config_keys_database(&mut self)
        ensures
            final(self).same_state(*old(self)),
            final(self).cmds@ == old(self).cmds@,
            final(self).ui@ == old(self).ui@ + remount_actions(key_database_ids()),
    {
        push_remounts(&mut self.ui, key_database_ids_vec());
    }

    /// Remount the key binding fields of the podcast view.
    pub fn remount_config_keys_podcast(&mut self)
        ensures
            final(self).same_state(*old(self)),
            final(self).cmds@ == old(self).cmds@,
            final(self).ui@ == old(self).ui@ + remount_actions(key_podcast_ids()),
    {
        push_remounts(&mut self.ui, key_podcast_ids_vec());
    }

    /// Remount all key binding fields.
    pub fn remount_config_keys(&mut self)
        ensures
            final(self).same_state(*old(self)),
            final(self).cmds@ == old(self).cmds@,
            final(self).ui@ == old(self).ui@ + remount_actions(keys_ids()),
    {
        self.remount_config_keys_global();
        self.remount_config_keys_library();
        self.remount_config_keys_playlist();
        self.remount_config_keys_database();
        self.remount_config_keys_podcast();
        proof {
            assert(remount_actions(keys_ids()) =~= remount_actions(key_global_ids())
                + remount_actions(key_library_ids()) + remount_actions(key_playlist_ids())
                + remount_actions(key_database_ids()) + remount_actions(key_podcast_ids()));
        }
    }

    /// Unmount the global key binding fields.
    pub fn umount_config_keys_global(&mut self)
        ensures
            final(self).same_state(*old(self)),
            final(self).cmds@ == old(self).cmds@,
            final(self).ui@ == old(self).ui@ + umount_actions(key_global_umount_ids()),
    {
        push_umounts(&mut self.ui, key_global_umount_ids_vec());
    }

    /// Unmount the key binding fields of the library view.
    pub fn umount_config_keys_library(&mut self)
        ensures
            final(self).same_state(*old(self)),
            final(self).cmds@ == old(self).cmds@,
            final(self).ui@ == old(self).ui@ + umount_actions(key_library_ids()),
    {
        push_umounts(&mut self.ui, key_library_ids_vec());
    }

    /// Unmount the key binding fields of the playlist view.
    pub fn umount_config_keys_playlist(&mut self)
        ensures
            final(self).same_state(*old(self)),
            final(self).cmds@ == old(self).cmds@,
            final(self).ui@ == old(self).ui@ + umount_actions(key_playlist_umount_ids()),
    {
        push_umounts(&mut self.ui, key_playlist_umount_ids_vec());
    }

    /// Unmount the key binding fields of the database view.
    pub fn umount_config_keys_database(&mut self)
        ensures
            final(self).same_state(*old(self)),
            final(self).cmds@ == old(self).cmds@,
            final(self).ui@ == old(self).ui@ + umount_actions(key_database_umount_ids()),
    {
        push_umounts(&mut self.ui, key_database_umount_ids_vec());
    }

    /// Unmount the key binding fields of the podcast view.
    pub fn umount_config_keys_podcast(&mut self)
        ensures
            final(self).same_state(*old(self)),
            final(self).cmds@ == old(self).cmds@,
            final(self).ui@ == old(self).ui@ + umount_actions(key_podcast_ids()),
    {
        push_umounts(&mut self.ui, key_podcast_ids_vec());
    }

    /// Unmount all key binding fields.
    pub fn umount_config_keys(&mut self)
        ensures
            final(self).same_state(*old(self)),
            final(self).cmds@ == old(self).cmds@,
            final(self).ui@ == old(self).ui@ + umount_actions(keys_umount_ids()),
    {
        self.umount_config_keys_global();
        self.umount_config_keys_library();
        self.umount_config_keys_playlist();
        self.umount_config_keys_database();
        self.umount_config_keys_podcast();
        proof {
            assert(umount_actions(keys_umount_ids()) =~= umount_actions(key_global_umount_ids())
                + umount_actions(key_library_ids()) + umount_actions(key_playlist_umount_ids())
                + umount_actions(key_database_umount_ids()) + umount_actions(key_podcast_ids()));
        }
    }

    /// Show the next page of the config editor: remount the header, which names
    /// the page, and give the page's first field the focus.
    pub fn action_change_layout(&mut self)
        ensures
            final(self).config_editor.layout == next_layout(old(self).config_editor.layout),
            final(self).config_editor.config_changed == old(self).config_editor.config_changed,
            final(self).config_editor.key_config == old(self).config_editor.key_config,
            final(self).same_outside_editor(*old(self)),
            final(self).cmds@ == old(self).cmds@,
            final(self).ui@ == old(self).ui@.push(
                UiAction::Remount(Id::ConfigEditor(IdConfigEditor::Header)),
            ).push(
                UiAction::Activate(
                    Id::ConfigEditor(first_field(next_layout(old(self).config_editor.layout))),
                ),
            ),
    {
        let next = match self.config_editor.layout {
            ConfigEditorLayout::General => ConfigEditorLayout::Color,
            ConfigEditorLayout::Color => ConfigEditorLayout::Key1,
            ConfigEditorLayout::Key1 => ConfigEditorLayout::Key2,
            ConfigEditorLayout::Key2 => ConfigEditorLayout::General,
        };
        self.config_editor.layout = next;
        self.ui.push(UiAction::Remount(Id::ConfigEditor(IdConfigEditor::Header)));
        let first = match next {
            ConfigEditorLayout::General => IdConfigEditor::General(IdCEGeneral::MusicDir),
            ConfigEditorLayout::Color => IdConfigEditor::Theme(IdCETheme::ThemeSelectTable),
            ConfigEditorLayout::Key1 => {
                let ring = key_global_focus_ring_vec();
                ring[0]
            },
            ConfigEditorLayout::Key2 => {
                let ring = key_other_focus_ring_vec();
                ring[0]
            },
        };
        self.ui.push(UiAction::Activate(Id::ConfigEditor(first)));
    }

    /// Draw the config editor with its current page.
    pub fn view_config_editor(&mut self)
        ensures
            final(self).same_state(*old(self)),
            final(self).cmds@ == old(self).cmds@,
            final(self).ui@ == old(self).ui@.push(
                UiAction::DrawConfigEditor(old(self).config_editor.layout),
            ),
    {
        self.ui.push(UiAction::DrawConfigEditor(self.config_editor.layout));
    }

    /// Mount the popup that asks whether to save, and give it the focus.
    pub fn mount_config_save_popup(&mut self)
        ensures
            final(self).same_state(*old(self)),
            final(self).cmds@ == old(self).cmds@,
            final(self).ui@ == old(self).ui@.push(
                UiAction::Remount(Id::ConfigEditor(IdConfigEditor::ConfigSavePopup)),
            ).push(UiAction::Activate(Id::ConfigEditor(IdConfigEditor::ConfigSavePopup))),
    {
        self.ui.push(UiAction::Remount(Id::ConfigEditor(IdConfigEditor::ConfigSavePopup)));
        self.ui.push(UiAction::Activate(Id::ConfigEditor(IdConfigEditor::ConfigSavePopup)));
    }

    /// The view updates that opening the config editor queues after `ui`, with
    /// `themes` and `file` the theme list and theme file before the theme
    /// directory is read, `loaded` the list read from it, if it could be, and
    /// `error` the failure to find the theme directory, if any, which an
    /// error popup shows.
    pub open spec fn mount_editor_actions(
        ui: Seq<UiAction>,
        themes: Seq<String>,
        file: Option<String>,
        loaded: Option<Seq<String>>,
        error: Option<String>,
    ) -> Seq<UiAction> {
        let after_themes = match loaded {
            Some(l) => l,
            None => themes,
        };
        ui + remount_actions(header_footer_ids()) + remount_actions(general_ids())
            + remount_actions(color_ids()) + remount_actions(color_symbol_ids()) + seq![
            UiAction::ThemeSelectShow(theme_select_index(themes, file, None)),
        ] + remount_actions(keys_ids()) + seq![
            UiAction::Activate(Id::ConfigEditor(IdConfigEditor::General(IdCEGeneral::MusicDir))),
        ] + match error {
            Some(e) => seq![UiAction::ErrorPopup(e)],
            None => Seq::empty(),
        } + seq![
            UiAction::ThemeSelectShow(theme_select_index(after_themes, file, None)),
            UiAction::UpdatePhoto,
        ]
    }

    /// Open the config editor on its general page: mount all pages, focus the
    /// first field, take the theme files found and select the current theme.
    /// `themes` is the theme files found (`Ok(Some(..))`), or `Ok(None)` when
    /// the theme directory could not be read, or the failure to find it,
    /// which an error popup shows; the theme list is kept but when found.
    pub fn mount_config_editor(&mut self, themes: Result<Option<Vec<String>>, String>)
        requires
            old(self).themes_fit(),
            themes matches Ok(Some(t)) ==> t@.len() + THEMES_WITHOUT_FILES < usize::MAX,
        ensures
            final(self).config_editor.layout == ConfigEditorLayout::General,
            final(self).config_editor.config_changed == old(self).config_editor.config_changed,
            final(self).config_editor.themes@ == match themes {
                Ok(Some(t)) => t@,
                _ => old(self).config_editor.themes@,
            },
            final(self).config_editor.theme_file_name == old(self).config_editor.theme_file_name,
            final(self).config_editor.key_config == old(self).config_editor.key_config,
            final(self).config_editor.style == old(self).config_editor.style,
            final(self).config_editor.palette == old(self).config_editor.palette,
            final(self).playlist == old(self).playlist,
            final(self).playlist_selected == old(self).playlist_selected,
            final(self).same_settings(*old(self)),
            final(self).dw == old(self).dw,
            final(self).lyric_line == old(self).lyric_line,
            final(self).cmds@ == old(self).cmds@,
            final(self).ui@ == Self::mount_editor_actions(
                old(self).ui@,
                old(self).config_editor.themes@,
                old(self).config_editor.theme_file_name,
                themes_loaded(themes),
                themes_error(themes),
            ),
    {
        self.config_editor.layout = ConfigEditorLayout::General;
        self.remount_config_header_footer();
        self.remount_config_general();
        self.remount_config_color(None);
        self.remount_config_keys();
        self.ui.push(
            UiAction::Activate(Id::ConfigEditor(IdConfigEditor::General(IdCEGeneral::MusicDir))),
        );
        match themes {
            Ok(Some(t)) => {
                self.config_editor.themes = t;
            },
            Ok(None) => {},
            Err(e) => {
                self.ui.push(UiAction::ErrorPopup(e));
            },
        }
        self.theme_select_sync(None);
        self.ui.push(UiAction::UpdatePhoto);
    }

    /// `after` is `prefix` followed by the view updates that closing the config
    /// editor queues in this state: the library rescanned, the playlist view
    /// reloaded, the database view reloaded, the other views reloaded, all
    /// pages unmounted, the global key listener remounted and the photo redrawn.
    pub open spec fn closes_editor(self, prefix: Seq<UiAction>, after: Seq<UiAction>) -> bool {
        let k = prefix.len() as int;
        &&& after.len() == k + 10 + 1 + header_footer_ids().len() + general_umount_ids().len()
            + color_ids().len() + color_symbol_ids().len() + keys_umount_ids().len() + 2
        &&& after.take(k) == prefix
        &&& after.subrange(k, k + 5) == seq![
            UiAction::LibraryScan,
            UiAction::Remount(Id::Playlist),
            UiAction::SetPlaylistColumns(crate::playlist::columns_for(self.layout)),
            self.title_action(),
            self.title_action(),
        ]
        &&& is_database_reload(after.subrange(k + 5, k + 10), self.dw.criteria)
        &&& after.skip(k + 10) == seq![UiAction::ReloadOtherViews] + umount_actions(
            header_footer_ids(),
        ) + umount_actions(general_umount_ids()) + umount_actions(color_ids()) + umount_actions(
            color_symbol_ids(),
        ) + umount_actions(keys_umount_ids()) + seq![
            UiAction::RemountGlobalListener,
            UiAction::UpdatePhoto,
        ]
    }

    /// Close the config editor: reload the main views, unmount all pages, and
    /// remount the global key listener with the key bindings now in force.
    #[verifier::spinoff_prover]
    #[verifier::rlimit(40)]
    pub fn umount_config_editor(&mut self)
        requires
            old(self).durations_fit(),
        ensures
            final(self).playlist == old(self).playlist,
            final(self).playlist_selected == old(self).playlist_selected,
            final(self).same_settings(*old(self)),
            final(self).config_editor == old(self).config_editor,
            final(self).dw.criteria == old(self).dw.criteria,
            final(self).lyric_line == old(self).lyric_line,
            final(self).dw.search_results@.len() == 0,
            final(self).dw.search_tracks@.len() == 0,
            final(self).cmds@ == old(self).cmds@,
            old(self).closes_editor(old(self).ui@, final(self).ui@),
    {
        let ghost start = self.ui@;
        let ghost k = start.len() as int;
        self.ui.push(UiAction::LibraryScan);
        self.playlist_reload();
        let ghost mid = self.ui@;
        self.database_reload();
        let ghost after_db = self.ui@;
        self.ui.push(UiAction::ReloadOtherViews);
        self.umount_config_header_footer();
        self.umount_config_general();
        self.umount_config_color();
        self.umount_config_keys();
        self.ui.push(UiAction::RemountGlobalListener);
        self.ui.push(UiAction::UpdatePhoto);
        proof {
            let tail = seq![UiAction::ReloadOtherViews] + umount_actions(header_footer_ids())
                + umount_actions(general_umount_ids()) + umount_actions(color_ids())
                + umount_actions(color_symbol_ids()) + umount_actions(keys_umount_ids()) + seq![
                UiAction::RemountGlobalListener,
                UiAction::UpdatePhoto,
            ];
            let u = self.ui@;
            assert(u =~= after_db + tail);
            assert(mid.len() == k + 5);
            assert(after_db.len() == k + 10);
            assert(u.take(k + 10) =~= after_db);
            assert(u.skip(k + 10) =~= tail);
            assert forall|i: int| 0 <= i < k + 5 implies u[i] == mid[i] by {
                assert(u[i] == after_db[i]);
                assert(after_db[i] == after_db.take(k + 5)[i]);
            }
            assert(u.take(k) =~= start);
            assert(u.subrange(k, k + 5) =~= mid.subrange(k, k + 5));
            assert(u.subrange(k + 5, k + 10) =~= after_db.skip(k + 5));
            assert(u.len() == k + 10 + 1 + header_footer_ids().len() + general_umount_ids().len()
                + color_ids().len() + color_symbol_ids().len() + keys_umount_ids().len() + 2);
            assert(u.subrange(k, k + 5) == seq![
                UiAction::LibraryScan,
                UiAction::Remount(Id::Playlist),
                UiAction::SetPlaylistColumns(crate::playlist::columns_for(old(self).layout)),
                old(self).title_action(),
                old(self).title_action(),
            ]);
            assert(is_database_reload(u.subrange(k + 5, k + 10), old(self).dw.criteria));
        }
    }

    /// What previewing the theme table's row `index` shows, if anything.
    pub fn preview_theme_choice(&self, index: usize) -> (r: Option<ThemeChoice>)
        ensures
            r == theme_choice_for(self.config_editor.themes@, index),
    {
        if index == 0 {
            return Some(ThemeChoice::Default);
        }
        if index == 1 {
            return Some(ThemeChoice::Native);
        }
        if index - THEMES_WITHOUT_FILES < self.config_editor.themes.len() {
            Some(ThemeChoice::File(self.config_editor.themes[index - THEMES_WITHOUT_FILES].clone()))
        } else {
            None
        }
    }

    /// Preview the theme at row `index` of the theme table, whose colours were
    /// loaded as `palette`: it becomes the theme being edited (with the row's
    /// file, none for the built-in themes), the configuration is marked
    /// changed, and the theme page is remounted with that row selected.
    pub fn preview_theme_apply(&mut self, index: usize, palette: Vec<String>)
        requires
            old(self).themes_fit(),
        ensures
            final(self).config_editor.config_changed,
            final(self).config_editor.layout == old(self).config_editor.layout,
            final(self).config_editor.key_config == old(self).config_editor.key_config,
            final(self).config_editor.palette == palette,
            final(self).config_editor.theme_file_name == theme_file_for(
                old(self).config_editor.themes@,
                index,
            ),
            final(self).config_editor.themes == old(self).config_editor.themes,
            final(self).config_editor.style == old(self).config_editor.style,
            final(self).playlist == old(self).playlist,
            final(self).playlist_selected == old(self).playlist_selected,
            final(self).same_settings(*old(self)),
            final(self).dw == old(self).dw,
            final(self).lyric_line == old(self).lyric_line,
            final(self).cmds@ == old(self).cmds@,
            final(self).ui@ == old(self).ui@ + remount_actions(color_ids()) + remount_actions(
                color_symbol_ids(),
            ) + seq![UiAction::ThemeSelectShow(index)],
    {
        let file = match self.preview_theme_choice(index) {
            Some(ThemeChoice::File(name)) => Some(name),
            _ => None,
        };
        self.config_editor.palette = palette;
        self.config_editor.theme_file_name = file;
        self.config_editor.config_changed = true;
        self.remount_config_color(Some(index));
    }

    /// A key binding field was edited: mark the configuration changed and bind
    /// the field to the new binding.
    pub fn update_key(&mut self, id: IdKey, binding: KeyBinding)
        ensures
            final(self).config_editor.config_changed,
            final(self).config_editor.key_config.bindings()
                == old(self).config_editor.key_config.bindings().insert(id, binding@),
            final(self).config_editor.layout == old(self).config_editor.layout,
            final(self).same_outside_editor(*old(self)),
            final(self).cmds@ == old(self).cmds@,
            final(self).ui@ == old(self).ui@,
    {
        self.config_editor.config_changed = true;
        self.config_editor.key_config.set(id, binding);
    }

    /// The config editor handles a message.
    #[verifier::spinoff_prover]
    #[verifier::rlimit(40)]
    pub fn update_config_editor(&mut self, msg: ConfigEditorMsg)
        requires
            old(self).themes_fit(),
            old(self).durations_fit(),
            old(self).config_editor.style.wf(),
            msg matches ConfigEditorMsg::Open { themes: Ok(Some(t)), .. } ==> t@.len()
                + THEMES_WITHOUT_FILES < usize::MAX,
            msg matches ConfigEditorMsg::Open { style, .. } ==> style.wf(),
        ensures
            final(self).playlist == old(self).playlist,
            final(self).playlist_selected == old(self).playlist_selected,
            final(self).same_settings(*old(self)),
            final(self).dw.criteria == old(self).dw.criteria,
            final(self).lyric_line == old(self).lyric_line,
            final(self).config_editor.config_changed == match msg {
                ConfigEditorMsg::CloseCancel | ConfigEditorMsg::CloseOk => false,
                ConfigEditorMsg::ConfigChanged | ConfigEditorMsg::ColorChanged(_, _)
                | ConfigEditorMsg::SymbolChanged(_, _) | ConfigEditorMsg::KeyChange(_, _)
                | ConfigEditorMsg::ThemeLoaded(_, _) => true,
                ConfigEditorMsg::ConfigSaveOk { collected, .. } => if collected is Err {
                    true
                } else {
                    old(self).config_editor.config_changed
                },
                _ => old(self).config_editor.config_changed,
            },
            match msg {
                ConfigEditorMsg::CloseOk => if old(self).config_editor.config_changed {
                    final(self).ui@ == old(self).ui@.push(
                        UiAction::Remount(Id::ConfigEditor(IdConfigEditor::ConfigSavePopup)),
                    ).push(UiAction::Activate(Id::ConfigEditor(IdConfigEditor::ConfigSavePopup)))
                } else {
                    old(self).closes_editor(old(self).ui@, final(self).ui@)
                },
                ConfigEditorMsg::CloseCancel => old(self).closes_editor(old(self).ui@, final(self).ui@),
                ConfigEditorMsg::ChangeLayout => final(self).config_editor.layout == next_layout(
                    old(self).config_editor.layout,
                ) && final(self).ui@ == old(self).ui@.push(
                    UiAction::Remount(Id::ConfigEditor(IdConfigEditor::Header)),
                ).push(
                    UiAction::Activate(
                        Id::ConfigEditor(first_field(next_layout(old(self).config_editor.layout))),
                    ),
                ),
                ConfigEditorMsg::Open { themes, theme_file_name, keys, style, palette } => {
                    &&& final(self).config_editor.layout == ConfigEditorLayout::General
                    &&& final(self).config_editor.palette == palette
                    &&& final(self).config_editor.key_config == keys
                    &&& final(self).config_editor.style == style
                    &&& final(self).config_editor.theme_file_name == theme_file_name
                    &&& final(self).ui@ == Self::mount_editor_actions(
                        old(self).ui@,
                        old(self).config_editor.themes@,
                        theme_file_name,
                        themes_loaded(themes),
                        themes_error(themes),
                    )
                },
                ConfigEditorMsg::FocusDown(id) => final(self).ui@ == match page_focus_target(
                    id,
                    true,
                ) {
                    Some(t) => old(self).ui@.push(UiAction::Activate(Id::ConfigEditor(t))),
                    None => old(self).ui@,
                },
                ConfigEditorMsg::FocusUp(id) => final(self).ui@ == match page_focus_target(
                    id,
                    false,
                ) {
                    Some(t) => old(self).ui@.push(UiAction::Activate(Id::ConfigEditor(t))),
                    None => old(self).ui@,
                },
                ConfigEditorMsg::ConfigSaveOk { collected, server_saved, tui_saved } => {
                    let popup_gone = old(self).ui@.push(
                        UiAction::Umount(Id::ConfigEditor(IdConfigEditor::ConfigSavePopup)),
                    ) + save_error_popups(collected, server_saved, tui_saved);
                    if collected is Ok && server_saved is Ok && tui_saved is Ok {
                        &&& final(self).cmds@ == old(self).cmds@.push(TuiCmd::ReloadConfig)
                        &&& old(self).closes_editor(popup_gone, final(self).ui@)
                    } else {
                        &&& final(self).cmds@ == old(self).cmds@
                        &&& final(self).ui@ == popup_gone
                    }
                },
                ConfigEditorMsg::ConfigSaveCancel => old(self).closes_editor(
                    old(self).ui@.push(
                        UiAction::Umount(Id::ConfigEditor(IdConfigEditor::ConfigSavePopup)),
                    ),
                    final(self).ui@,
                ),
                ConfigEditorMsg::ThemeLoaded(index, palette) => final(self).config_editor.palette == palette
                    && final(self).config_editor.theme_file_name == theme_file_for(
                    old(self).config_editor.themes@,
                    index,
                ) && final(self).ui@ == old(self).ui@
                    + remount_actions(color_ids()) + remount_actions(color_symbol_ids()) + seq![
                    UiAction::ThemeSelectShow(index),
                ],
                ConfigEditorMsg::SymbolChanged(c, sym) => {
                    &&& final(self).ui@ == old(self).ui@
                    &&& match c {
                        IdConfigEditor::Theme(t) => final(self).config_editor.style.symbol_set(
                            &old(self).config_editor.style,
                            t,
                            sym@,
                        ),
                        _ => final(self).config_editor.style == old(self).config_editor.style,
                    }
                },
                ConfigEditorMsg::KeyChange(k, b) => {
                    &&& final(self).ui@ == old(self).ui@
                    &&& final(self).config_editor.key_config.bindings()
                        == old(self).config_editor.key_config.bindings().insert(k, b@)
                },
                ConfigEditorMsg::ColorChanged(c, color) => {
                    &&& final(self).ui@ == old(self).ui@
                    &&& match c {
                        IdConfigEditor::Theme(t) => if color_change_stored(t) {
                            final(self).config_editor.style.color_set(&old(self).config_editor.style, t, color)
                        } else {
                            final(self).config_editor.style == old(self).config_editor.style
                        },
                        _ => final(self).config_editor.style == old(self).config_editor.style,
                    }
                },
                ConfigEditorMsg::ConfigChanged => final(self).ui@ == old(self).ui@,
            },
            !(msg is ConfigSaveOk) ==> final(self).cmds@ == old(self).cmds@,
            !(msg is KeyChange) && !(msg is Open) ==> final(self).config_editor.key_config == old(
                self,
            ).config_editor.key_config,
            final(self).config_editor.style.wf(),
            !(msg is ColorChanged) && !(msg is SymbolChanged) && !(msg is Open)
                ==> final(self).config_editor.style == old(self).config_editor.style,
            !(msg is ChangeLayout) && !(msg is Open) ==> final(self).config_editor.layout == old(
                self,
            ).config_editor.layout,
            !(msg is Open) ==> final(self).config_editor.themes == old(self).config_editor.themes,
            !(msg is Open) && !(msg is ThemeLoaded) ==> final(self).config_editor.theme_file_name == old(
                self,
            ).config_editor.theme_file_name && final(self).config_editor.palette == old(
                self,
            ).config_editor.palette,
    {
        match msg {
            ConfigEditorMsg::Open { themes, theme_file_name, keys, style, palette } => {
                self.config_editor.key_config = keys;
                self.config_editor.style = style;
                self.config_editor.palette = palette;
                self.config_editor.theme_file_name = theme_file_name;
                self.mount_config_editor(themes);
            },
            ConfigEditorMsg::CloseCancel => {
                self.config_editor.config_changed = false;
                self.umount_config_editor();
            },
            ConfigEditorMsg::CloseOk => {
                if self.config_editor.config_changed {
                    self.config_editor.config_changed = false;
                    self.mount_config_save_popup();
                } else {
                    self.umount_config_editor();
                }
            },
            ConfigEditorMsg::ChangeLayout => self.action_change_layout(),
            ConfigEditorMsg::ConfigChanged => {
                self.config_editor.config_changed = true;
            },
            ConfigEditorMsg::FocusDown(id) => {
                if let Some(t) = config_editor_focus_target(id, true) {
                    self.ui.push(UiAction::Activate(Id::ConfigEditor(t)));
                }
            },
            ConfigEditorMsg::FocusUp(id) => {
                if let Some(t) = config_editor_focus_target(id, false) {
                    self.ui.push(UiAction::Activate(Id::ConfigEditor(t)));
                }
            },
            ConfigEditorMsg::ConfigSaveOk { collected, server_saved, tui_saved } => {
                let ghost (c, sv, tv) = (collected, server_saved, tui_saved);
                let ghost start = self.ui@;
                self.ui.push(UiAction::Umount(Id::ConfigEditor(IdConfigEditor::ConfigSavePopup)));
                match collected {
                    Ok(()) => {
                        let both_ok = server_saved.is_ok() && tui_saved.is_ok();
                        if let Err(e) = server_saved {
                            self.ui.push(UiAction::ErrorPopup(e));
                        }
                        if let Err(e) = tui_saved {
                            self.ui.push(UiAction::ErrorPopup(e));
                        }
                        proof {
                            assert(self.ui@ =~= start.push(
                                UiAction::Umount(Id::ConfigEditor(IdConfigEditor::ConfigSavePopup)),
                            ) + save_error_popups(c, sv, tv));
                        }
                        if both_ok {
                            self.cmds.push(TuiCmd::ReloadConfig);
                            self.umount_config_editor();
                        }
                    },
                    Err(e) => {
                        self.ui.push(UiAction::ErrorPopup(e));
                        self.config_editor.config_changed = true;
                        proof {
                            assert(self.ui@ =~= start.push(
                                UiAction::Umount(Id::ConfigEditor(IdConfigEditor::ConfigSavePopup)),
                            ) + save_error_popups(c, sv, tv));
                        }
                    },
                }
            },
            ConfigEditorMsg::ConfigSaveCancel => {
                self.ui.push(UiAction::Umount(Id::ConfigEditor(IdConfigEditor::ConfigSavePopup)));
                self.umount_config_editor();
            },
            ConfigEditorMsg::ThemeLoaded(index, palette) => {
                self.preview_theme_apply(index, palette);
            },
            ConfigEditorMsg::ColorChanged(id, color) => {
                self.config_editor.config_changed = true;
                if let IdConfigEditor::Theme(t) = id {
                    if stores_color_change(t) {
                        self.config_editor.style.set_color(t, color);
                    }
                }
            },
            ConfigEditorMsg::SymbolChanged(id, symbol) => {
                self.config_editor.config_changed = true;
                if let IdConfigEditor::Theme(t) = id {
                    self.config_editor.style.set_symbol(t, symbol);
                }
            },
            ConfigEditorMsg::KeyChange(id, binding) => {
                self.update_key(id, binding);
            },
        }
    }
}

/// The settings the config editor saves into: the general settings, the key
/// bindings and the theme style.
#[derive(Debug)]
pub struct EditorSettings {
    pub general: GeneralSettings,
    pub keys: KeyConfig,
    pub style: ThemeStyle,
    /// The theme file the theme comes from, none for a built-in theme.
    pub theme_file_name: Option<String>,
    /// The theme's colours.
    pub palette: Vec<String>,
}

/// A copy of some texts.
fn copy_texts(v: &Vec<String>) -> (r: Vec<String>)
    ensures
        r@ == v@,
{
    let mut r: Vec<String> = Vec::new();
    let mut i: usize = 0;
    while i < v.len()
        invariant
            i <= v@.len(),
            r@ == v@.take(i as int),
        decreases v@.len() - i,
    {
        r.push(v[i].clone());
        proof {
            assert(r@ =~= v@.take(i + 1));
        }
        i = i + 1;
    }
    proof {
        assert(v@.take(i as int) =~= v@);
    }
    r
}

impl Model {
    /// Take what the config editor holds into `settings`. `keys` is the
    /// outcome of checking the edited key bindings: when they clash nothing is
    /// taken. Otherwise the edited key bindings and the theme (its style, its
    /// colours and its file) are taken, then the values of the general page as
    /// `collect_config_data` takes them.
    pub fn collect_config_data(
        &self,
        settings: &mut EditorSettings,
        values: &GeneralFieldValues,
        keys: Result<(), String>,
        unix: bool,
    ) -> (r: Result<(), ConfigDataError>)
        requires
            values.save_last_position matches Some(x) ==> x <= 2,
            values.player_protocol matches Some(x) ==> x <= 1,
        ensures
            keys is Err ==> r == Err::<(), ConfigDataError>(ConfigDataError::Keys(keys->Err_0))
                && *final(settings) == *old(settings),
            keys is Ok ==> {
                &&& final(settings).keys.bindings() == self.config_editor.key_config.bindings()
                &&& final(settings).style.colors@ == self.config_editor.style.colors@
                &&& final(settings).style.same_symbols(&self.config_editor.style)
                &&& final(settings).palette@ == self.config_editor.palette@
                &&& final(settings).theme_file_name == self.config_editor.theme_file_name
                &&& exists|f: OutsideFacts|
                    facts_fit(f, *values) && #[trigger] collect_spec(old(settings).general@, *values, unix, f)
                        == (final(settings).general@, r)
            },
    {
        if let Err(e) = keys {
            return Err(ConfigDataError::Keys(e));
        }
        settings.keys = self.config_editor.key_config.duplicate();
        settings.style = self.config_editor.style.duplicate();
        settings.palette = copy_texts(&self.config_editor.palette);
        settings.theme_file_name = match &self.config_editor.theme_file_name {
            Some(f) => Some(f.clone()),
            None => None,
        };
        collect_config_data(&mut settings.general, values, Ok(()), unix)
    }
}

} // verus!
