//! What the fields of the config editor's general page do with a key press.
//!
//! A pressed key is a `KeyBinding`: the modifiers held and the key's name,
//! which for a character key is the character itself and otherwise one of the
//! names `Up`, `Down`, `Left`, `Right`, `Tab`, `BackTab`, `Enter`, `Esc`,
//! `Home`, `End`, `PageUp`, `PageDown`, `Delete` and `Backspace`.
use vstd::prelude::*;

use crate::config_editor::ConfigEditorMsg;
use crate::ids::{IdCEGeneral, IdConfigEditor, IdKey, IdKeyGlobal};
use crate::key_config::{bound_to, same_binding, KeyBinding, KeyBindingView, KeyConfig};

verus! {

/// Whether two texts are equal.
pub fn same_text(a: &str, b: &str) -> (r: bool)
    ensures
        r == (a@ == b@),
{
    let n = a.unicode_len();
    if n != b.unicode_len() {
        return false;
    }
    let mut i: usize = 0;
    while i < n
        invariant
            n == a@.len(),
            n == b@.len(),
            i <= n,
            forall|j: int| 0 <= j < i ==> a@[j] == b@[j],
        decreases n - i,
    {
        if a.get_char(i) != b.get_char(i) {
            return false;
        }
        i = i + 1;
    }
    proof {
        assert(a@ =~= b@);
    }
    true
}

/// Whether `b` names the key `name`, whatever the modifiers.
pub fn has_code(b: &KeyBinding, name: &str) -> (r: bool)
    ensures
        r == (b@.code == name@),
{
    same_text(b.code.as_str(), name)
}

/// The character a key press types, if it is a character key.
pub open spec fn typed_char_of(p: KeyBindingView) -> Option<char> {
    if p.code.len() == 1 {
        Some(p.code[0])
    } else {
        None
    }
}

/// The character a key press types, if it is a character key.
pub fn typed_char(p: &KeyBinding) -> (r: Option<char>)
    ensures
        r == typed_char_of(p@),
{
    let code = p.code.as_str();
    if code.unicode_len() == 1 {
        Some(code.get_char(0))
    } else {
        None
    }
}

/// The keys of the config editor that are no key field of their own: the one
/// that leaves a dialog and the one that saves the configuration.
pub struct EditorKeys {
    pub escape: KeyBinding,
    pub save: KeyBinding,
}

/// What a field does to its own input or choice.
#[derive(Debug, Clone, Copy, PartialEq, Eq, Structural)]
pub enum FieldCmd {
    MoveLeft,
    MoveRight,
    GoToBegin,
    GoToEnd,
    /// Delete the character under the cursor.
    Cancel,
    /// Delete the character before the cursor.
    Delete,
    Type(char),
}

/// What a field sends on.
#[derive(Debug)]
pub enum FieldMsg {
    Editor(ConfigEditorMsg),
    /// Only the screen needs drawing again.
    Redraw,
}

/// What a text field of the config editor does with a key: the configured
/// save and escape keys and the arrow and tab keys move between fields and
/// pages or close the editor; the other editing keys change the text.
pub open spec fn input_field_reaction(
    field: IdConfigEditor,
    p: KeyBindingView,
    escape: KeyBindingView,
    save: KeyBindingView,
) -> (Option<FieldCmd>, Option<FieldMsg>) {
    if p == save {
        (None, Some(FieldMsg::Editor(ConfigEditorMsg::CloseOk)))
    } else if p.code == "Down"@ {
        (None, Some(FieldMsg::Editor(ConfigEditorMsg::FocusDown(field))))
    } else if p.code == "Up"@ {
        (None, Some(FieldMsg::Editor(ConfigEditorMsg::FocusUp(field))))
    } else if p.code == "Tab"@ {
        (None, Some(FieldMsg::Editor(ConfigEditorMsg::ChangeLayout)))
    } else if p == escape {
        (None, Some(FieldMsg::Editor(ConfigEditorMsg::CloseCancel)))
    } else if p.code == "Left"@ {
        (Some(FieldCmd::MoveLeft), Some(FieldMsg::Redraw))
    } else if p.code == "Right"@ {
        (Some(FieldCmd::MoveRight), Some(FieldMsg::Redraw))
    } else if p.code == "Home"@ {
        (Some(FieldCmd::GoToBegin), Some(FieldMsg::Redraw))
    } else if p.code == "End"@ {
        (Some(FieldCmd::GoToEnd), Some(FieldMsg::Redraw))
    } else if p.code == "Delete"@ {
        (Some(FieldCmd::Cancel), Some(FieldMsg::Editor(ConfigEditorMsg::ConfigChanged)))
    } else if p.code == "Backspace"@ {
        (Some(FieldCmd::Delete), Some(FieldMsg::Editor(ConfigEditorMsg::ConfigChanged)))
    } else {
        match typed_char_of(p) {
            Some(c) => (Some(FieldCmd::Type(c)), Some(FieldMsg::Editor(ConfigEditorMsg::ConfigChanged))),
            None => (None, None),
        }
    }
}

/// What a text field of the config editor does with a key; see `input_field_reaction`.
pub fn input_field_on(field: IdConfigEditor, p: &KeyBinding, ek: &EditorKeys) -> (r: (
    Option<FieldCmd>,
    Option<FieldMsg>,
))
    ensures
        r == input_field_reaction(field, p@, ek.escape@, ek.save@),
{
    if same_binding(p, &ek.save) {
        (None, Some(FieldMsg::Editor(ConfigEditorMsg::CloseOk)))
    } else if has_code(p, "Down") {
        (None, Some(FieldMsg::Editor(ConfigEditorMsg::FocusDown(field))))
    } else if has_code(p, "Up") {
        (None, Some(FieldMsg::Editor(ConfigEditorMsg::FocusUp(field))))
    } else if has_code(p, "Tab") {
        (None, Some(FieldMsg::Editor(ConfigEditorMsg::ChangeLayout)))
    } else if same_binding(p, &ek.escape) {
        (None, Some(FieldMsg::Editor(ConfigEditorMsg::CloseCancel)))
    } else if has_code(p, "Left") {
        (Some(FieldCmd::MoveLeft), Some(FieldMsg::Redraw))
    } else if has_code(p, "Right") {
        (Some(FieldCmd::MoveRight), Some(FieldMsg::Redraw))
    } else if has_code(p, "Home") {
        (Some(FieldCmd::GoToBegin), Some(FieldMsg::Redraw))
    } else if has_code(p, "End") {
        (Some(FieldCmd::GoToEnd), Some(FieldMsg::Redraw))
    } else if has_code(p, "Delete") {
        (Some(FieldCmd::Cancel), Some(FieldMsg::Editor(ConfigEditorMsg::ConfigChanged)))
    } else if has_code(p, "Backspace") {
        (Some(FieldCmd::Delete), Some(FieldMsg::Editor(ConfigEditorMsg::ConfigChanged)))
    } else {
        match typed_char(p) {
            Some(c) => (Some(FieldCmd::Type(c)), Some(FieldMsg::Editor(ConfigEditorMsg::ConfigChanged))),
            None => (None, None),
        }
    }
}

/// What a choice field of the config editor does with a key: besides the keys
/// a text field leaves with, the configured up and down keys move between
/// fields and the configured quit key closes the editor; left and right change
/// the choice.
pub open spec fn radio_field_reaction(
    field: IdConfigEditor,
    p: KeyBindingView,
    keys: KeyConfig,
    escape: KeyBindingView,
    save: KeyBindingView,
) -> (Option<FieldCmd>, Option<FieldMsg>) {
    if p == save {
        (None, Some(FieldMsg::Editor(ConfigEditorMsg::CloseOk)))
    } else if p.code == "Down"@ {
        (None, Some(FieldMsg::Editor(ConfigEditorMsg::FocusDown(field))))
    } else if p.code == "Up"@ {
        (None, Some(FieldMsg::Editor(ConfigEditorMsg::FocusUp(field))))
    } else if p.code == "Tab"@ {
        (None, Some(FieldMsg::Editor(ConfigEditorMsg::ChangeLayout)))
    } else if bound_to(keys, IdKey::Global(IdKeyGlobal::Down), p) {
        (None, Some(FieldMsg::Editor(ConfigEditorMsg::FocusDown(field))))
    } else if bound_to(keys, IdKey::Global(IdKeyGlobal::Up), p) {
        (None, Some(FieldMsg::Editor(ConfigEditorMsg::FocusUp(field))))
    } else if bound_to(keys, IdKey::Global(IdKeyGlobal::Quit), p) {
        (None, Some(FieldMsg::Editor(ConfigEditorMsg::CloseCancel)))
    } else if p == escape {
        (None, Some(FieldMsg::Editor(ConfigEditorMsg::CloseCancel)))
    } else if p.code == "Left"@ {
        (Some(FieldCmd::MoveLeft), Some(FieldMsg::Editor(ConfigEditorMsg::ConfigChanged)))
    } else if p.code == "Right"@ {
        (Some(FieldCmd::MoveRight), Some(FieldMsg::Editor(ConfigEditorMsg::ConfigChanged)))
    } else {
        (None, None)
    }
}

/// What a choice field of the config editor does with a key; see `radio_field_reaction`.
pub fn radio_field_on(field: IdConfigEditor, p: &KeyBinding, keys: &KeyConfig, ek: &EditorKeys) -> (r: (
    Option<FieldCmd>,
    Option<FieldMsg>,
))
    ensures
        r == radio_field_reaction(field, p@, *keys, ek.escape@, ek.save@),
{
    if same_binding(p, &ek.save) {
        (None, Some(FieldMsg::Editor(ConfigEditorMsg::CloseOk)))
    } else if has_code(p, "Down") {
        (None, Some(FieldMsg::Editor(ConfigEditorMsg::FocusDown(field))))
    } else if has_code(p, "Up") {
        (None, Some(FieldMsg::Editor(ConfigEditorMsg::FocusUp(field))))
    } else if has_code(p, "Tab") {
        (None, Some(FieldMsg::Editor(ConfigEditorMsg::ChangeLayout)))
    } else if keys.is_bound(IdKey::Global(IdKeyGlobal::Down), p) {
        (None, Some(FieldMsg::Editor(ConfigEditorMsg::FocusDown(field))))
    } else if keys.is_bound(IdKey::Global(IdKeyGlobal::Up), p) {
        (None, Some(FieldMsg::Editor(ConfigEditorMsg::FocusUp(field))))
    } else if keys.is_bound(IdKey::Global(IdKeyGlobal::Quit), p) {
        (None, Some(FieldMsg::Editor(ConfigEditorMsg::CloseCancel)))
    } else if same_binding(p, &ek.escape) {
        (None, Some(FieldMsg::Editor(ConfigEditorMsg::CloseCancel)))
    } else if has_code(p, "Left") {
        (Some(FieldCmd::MoveLeft), Some(FieldMsg::Editor(ConfigEditorMsg::ConfigChanged)))
    } else if has_code(p, "Right") {
        (Some(FieldCmd::MoveRight), Some(FieldMsg::Editor(ConfigEditorMsg::ConfigChanged)))
    } else {
        (None, None)
    }
}

/// Whether a field of the general page is a text field; the others offer choices.
pub open spec fn is_text_field(id: IdCEGeneral) -> bool {
    match id {
        IdCEGeneral::MusicDir
        | IdCEGeneral::PlaylistRandomTrack
        | IdCEGeneral::PlaylistRandomAlbum
        | IdCEGeneral::PodcastDir
        | IdCEGeneral::PodcastSimulDownload
        | IdCEGeneral::PodcastMaxRetries
        | IdCEGeneral::PlayerPort
        | IdCEGeneral::PlayerAddress
        | IdCEGeneral::PlayerUDSPath
        | IdCEGeneral::ExtraYtdlpArgs => true,
        _ => false,
    }
}

/// What a field of the general page does with a key.
pub open spec fn general_field_reaction(
    id: IdCEGeneral,
    p: KeyBindingView,
    keys: KeyConfig,
    escape: KeyBindingView,
    save: KeyBindingView,
) -> (Option<FieldCmd>, Option<FieldMsg>) {
    if is_text_field(id) {
        input_field_reaction(IdConfigEditor::General(id), p, escape, save)
    } else {
        radio_field_reaction(IdConfigEditor::General(id), p, keys, escape, save)
    }
}

/// What a field of the general page does with a key; see `general_field_reaction`.
pub fn general_field_on(id: IdCEGeneral, p: &KeyBinding, keys: &KeyConfig, ek: &EditorKeys) -> (r: (
    Option<FieldCmd>,
    Option<FieldMsg>,
))
    ensures
        r == general_field_reaction(id, p@, *keys, ek.escape@, ek.save@),
{
    let text = match id {
        IdCEGeneral::MusicDir
        | IdCEGeneral::PlaylistRandomTrack
        | IdCEGeneral::PlaylistRandomAlbum
        | IdCEGeneral::PodcastDir
        | IdCEGeneral::PodcastSimulDownload
        | IdCEGeneral::PodcastMaxRetries
        | IdCEGeneral::PlayerPort
        | IdCEGeneral::PlayerAddress
        | IdCEGeneral::PlayerUDSPath
        | IdCEGeneral::ExtraYtdlpArgs => true,
        _ => false,
    };
    if text {
        input_field_on(IdConfigEditor::General(id), p, ek)
    } else {
        radio_field_on(IdConfigEditor::General(id), p, keys, ek)
    }
}

} // verus!
