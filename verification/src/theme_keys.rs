//! What the fields of the config editor's theme page do with a key press: the
//! theme table, the color choice fields and the symbol fields.
use vstd::prelude::*;
use vstd::string::StrSliceExecFns;

use crate::config_editor::{char_of, parsed_hex, string_to_unicode_char, ConfigEditorMsg};
use crate::database::no_modifiers;
use crate::field_keys::{has_code, typed_char, typed_char_of, EditorKeys, FieldCmd, FieldMsg};
use crate::ids::{IdCETheme, IdConfigEditor, IdKey, IdKeyGlobal};
use crate::key_config::{bound_to, same_binding, KeyBinding, KeyBindingView, KeyConfig};
use crate::playlist_table::{Direction, Position, TableCmd};
use crate::input_states::string_from_chars;
use crate::select_states::{ComboCmd, ComboCmdResult, ComboState, KeyModifierSet};
use crate::theme_style::{color_at, color_at_spec};

verus! {

/// What the theme table does with a key.
#[derive(Debug)]
pub enum ThemeTableReaction {
    Send(FieldMsg),
    /// Run the command on the table; a change redraws.
    Perform(TableCmd),
    /// Load the theme at this row for preview.
    Load(usize),
    Nothing,
}

/// The theme table as a field of the config editor.
pub open spec fn theme_table_field() -> IdConfigEditor {
    IdConfigEditor::Theme(IdCETheme::ThemeSelectTable)
}

/// What the theme table does with a key press: the save key saves; escape and
/// the quit key close the editor; the arrows, page keys, end key and the
/// configured navigation keys move in the table; tab and shift back-tab move
/// to the next or previous field; enter loads the selected theme.
pub open spec fn theme_table_reaction(
    p: KeyBindingView,
    keys: KeyConfig,
    save: KeyBindingView,
    selected: Option<usize>,
) -> ThemeTableReaction {
    if p == save {
        ThemeTableReaction::Send(FieldMsg::Editor(ConfigEditorMsg::CloseOk))
    } else if p.code == "Esc"@ || bound_to(keys, IdKey::Global(IdKeyGlobal::Quit), p) {
        ThemeTableReaction::Send(FieldMsg::Editor(ConfigEditorMsg::CloseCancel))
    } else if p.code == "Down"@ || bound_to(keys, IdKey::Global(IdKeyGlobal::Down), p) {
        ThemeTableReaction::Perform(TableCmd::Move(Direction::Down))
    } else if p.code == "Up"@ || bound_to(keys, IdKey::Global(IdKeyGlobal::Up), p) {
        ThemeTableReaction::Perform(TableCmd::Move(Direction::Up))
    } else if p.code == "PageDown"@ {
        ThemeTableReaction::Perform(TableCmd::Scroll(Direction::Down))
    } else if p.code == "PageUp"@ {
        ThemeTableReaction::Perform(TableCmd::Scroll(Direction::Up))
    } else if bound_to(keys, IdKey::Global(IdKeyGlobal::GotoTop), p) {
        ThemeTableReaction::Perform(TableCmd::GoTo(Position::Begin))
    } else if bound_to(keys, IdKey::Global(IdKeyGlobal::GotoBottom), p) || p.code == "End"@ {
        ThemeTableReaction::Perform(TableCmd::GoTo(Position::End))
    } else if p.code == "Tab"@ {
        ThemeTableReaction::Send(FieldMsg::Editor(ConfigEditorMsg::FocusDown(theme_table_field())))
    } else if p.code == "BackTab"@ && p.modifiers == (KeyModifierSet { shift: true, control: false, alt: false }) {
        ThemeTableReaction::Send(FieldMsg::Editor(ConfigEditorMsg::FocusUp(theme_table_field())))
    } else if p.code == "Enter"@ {
        match selected {
            Some(i) => ThemeTableReaction::Load(i),
            None => ThemeTableReaction::Nothing,
        }
    } else {
        ThemeTableReaction::Nothing
    }
}

/// What the theme table does with a key press; `selected` is its selected
/// row, if any. See `theme_table_reaction`.
pub fn theme_table_on(p: &KeyBinding, keys: &KeyConfig, ek: &EditorKeys, selected: Option<usize>) -> (r:
    ThemeTableReaction)
    ensures
        r == theme_table_reaction(p@, *keys, ek.save@, selected),
{
    let field = IdConfigEditor::Theme(IdCETheme::ThemeSelectTable);
    if same_binding(p, &ek.save) {
        ThemeTableReaction::Send(FieldMsg::Editor(ConfigEditorMsg::CloseOk))
    } else if has_code(p, "Esc") || keys.is_bound(IdKey::Global(IdKeyGlobal::Quit), p) {
        ThemeTableReaction::Send(FieldMsg::Editor(ConfigEditorMsg::CloseCancel))
    } else if has_code(p, "Down") || keys.is_bound(IdKey::Global(IdKeyGlobal::Down), p) {
        ThemeTableReaction::Perform(TableCmd::Move(Direction::Down))
    } else if has_code(p, "Up") || keys.is_bound(IdKey::Global(IdKeyGlobal::Up), p) {
        ThemeTableReaction::Perform(TableCmd::Move(Direction::Up))
    } else if has_code(p, "PageDown") {
        ThemeTableReaction::Perform(TableCmd::Scroll(Direction::Down))
    } else if has_code(p, "PageUp") {
        ThemeTableReaction::Perform(TableCmd::Scroll(Direction::Up))
    } else if keys.is_bound(IdKey::Global(IdKeyGlobal::GotoTop), p) {
        ThemeTableReaction::Perform(TableCmd::GoTo(Position::Begin))
    } else if keys.is_bound(IdKey::Global(IdKeyGlobal::GotoBottom), p) || has_code(p, "End") {
        ThemeTableReaction::Perform(TableCmd::GoTo(Position::End))
    } else if has_code(p, "Tab") {
        ThemeTableReaction::Send(FieldMsg::Editor(ConfigEditorMsg::FocusDown(field)))
    } else if has_code(p, "BackTab") && p.modifiers.shift && !p.modifiers.control && !p.modifiers.alt {
        ThemeTableReaction::Send(FieldMsg::Editor(ConfigEditorMsg::FocusUp(field)))
    } else if has_code(p, "Enter") {
        match selected {
            Some(i) => ThemeTableReaction::Load(i),
            None => ThemeTableReaction::Nothing,
        }
    } else {
        ThemeTableReaction::Nothing
    }
}

/// What a color choice field does with a key.
#[derive(Debug)]
pub enum ColorSelectReaction {
    Send(FieldMsg),
    /// Run the command on the choice list, then see `color_select_after`.
    Perform(ComboCmd),
    Nothing,
}

/// What a color choice field does with a key press, `open` telling whether its
/// list is open: the save key saves and tab changes the page; escape and the
/// quit key close the editor, or cancel the open list; the arrows and the
/// configured up and down keys leave the field, or move in the open list;
/// enter opens the list or confirms its choice.
pub open spec fn color_select_reaction(
    id: IdCETheme,
    open: bool,
    p: KeyBindingView,
    keys: KeyConfig,
    escape: KeyBindingView,
    save: KeyBindingView,
) -> ColorSelectReaction {
    let field = IdConfigEditor::Theme(id);
    if p == save {
        ColorSelectReaction::Send(FieldMsg::Editor(ConfigEditorMsg::CloseOk))
    } else if p.code == "Tab"@ {
        ColorSelectReaction::Send(FieldMsg::Editor(ConfigEditorMsg::ChangeLayout))
    } else if p == escape || bound_to(keys, IdKey::Global(IdKeyGlobal::Quit), p) {
        if open {
            ColorSelectReaction::Perform(ComboCmd::Cancel)
        } else {
            ColorSelectReaction::Send(FieldMsg::Editor(ConfigEditorMsg::CloseCancel))
        }
    } else if bound_to(keys, IdKey::Global(IdKeyGlobal::Up), p) {
        if open {
            ColorSelectReaction::Perform(ComboCmd::MoveUp)
        } else {
            ColorSelectReaction::Send(FieldMsg::Editor(ConfigEditorMsg::FocusUp(field)))
        }
    } else if bound_to(keys, IdKey::Global(IdKeyGlobal::Down), p) {
        if open {
            ColorSelectReaction::Perform(ComboCmd::MoveDown)
        } else {
            ColorSelectReaction::Send(FieldMsg::Editor(ConfigEditorMsg::FocusDown(field)))
        }
    } else if p.code == "Up"@ {
        if open {
            ColorSelectReaction::Perform(ComboCmd::MoveUp)
        } else {
            ColorSelectReaction::Send(FieldMsg::Editor(ConfigEditorMsg::FocusUp(field)))
        }
    } else if p.code == "Down"@ {
        if open {
            ColorSelectReaction::Perform(ComboCmd::MoveDown)
        } else {
            ColorSelectReaction::Send(FieldMsg::Editor(ConfigEditorMsg::FocusDown(field)))
        }
    } else if p.code == "Enter"@ {
        ColorSelectReaction::Perform(ComboCmd::Submit)
    } else {
        ColorSelectReaction::Nothing
    }
}

/// What a color choice field does with a key press; see `color_select_reaction`.
pub fn color_select_on(
    id: IdCETheme,
    open: bool,
    p: &KeyBinding,
    keys: &KeyConfig,
    ek: &EditorKeys,
) -> (r: ColorSelectReaction)
    ensures
        r == color_select_reaction(id, open, p@, *keys, ek.escape@, ek.save@),
{
    let field = IdConfigEditor::Theme(id);
    if same_binding(p, &ek.save) {
        ColorSelectReaction::Send(FieldMsg::Editor(ConfigEditorMsg::CloseOk))
    } else if has_code(p, "Tab") {
        ColorSelectReaction::Send(FieldMsg::Editor(ConfigEditorMsg::ChangeLayout))
    } else if same_binding(p, &ek.escape) || keys.is_bound(IdKey::Global(IdKeyGlobal::Quit), p) {
        if open {
            ColorSelectReaction::Perform(ComboCmd::Cancel)
        } else {
            ColorSelectReaction::Send(FieldMsg::Editor(ConfigEditorMsg::CloseCancel))
        }
    } else if keys.is_bound(IdKey::Global(IdKeyGlobal::Up), p) {
        if open {
            ColorSelectReaction::Perform(ComboCmd::MoveUp)
        } else {
            ColorSelectReaction::Send(FieldMsg::Editor(ConfigEditorMsg::FocusUp(field)))
        }
    } else if keys.is_bound(IdKey::Global(IdKeyGlobal::Down), p) {
        if open {
            ColorSelectReaction::Perform(ComboCmd::MoveDown)
        } else {
            ColorSelectReaction::Send(FieldMsg::Editor(ConfigEditorMsg::FocusDown(field)))
        }
    } else if has_code(p, "Up") {
        if open {
            ColorSelectReaction::Perform(ComboCmd::MoveUp)
        } else {
            ColorSelectReaction::Send(FieldMsg::Editor(ConfigEditorMsg::FocusUp(field)))
        }
    } else if has_code(p, "Down") {
        if open {
            ColorSelectReaction::Perform(ComboCmd::MoveDown)
        } else {
            ColorSelectReaction::Send(FieldMsg::Editor(ConfigEditorMsg::FocusDown(field)))
        }
    } else if has_code(p, "Enter") {
        ColorSelectReaction::Perform(ComboCmd::Submit)
    } else {
        ColorSelectReaction::Nothing
    }
}

/// What a color choice field sends after a command: a confirmed choice of a
/// color in the list changes the field to that color, a confirmed choice past
/// the list only redraws; opening the list (a submit that changed nothing) and
/// any other change redraw; no change sends nothing.
pub open spec fn color_select_after_spec(id: IdCETheme, cmd: ComboCmd, r: ComboCmdResult) -> Option<
    FieldMsg,
> {
    match r {
        ComboCmdResult::Submit(ComboState::One(i)) => match color_at_spec(i as int) {
            Some(c) => Some(FieldMsg::Editor(ConfigEditorMsg::ColorChanged(IdConfigEditor::Theme(id), c))),
            None => Some(FieldMsg::Redraw),
        },
        ComboCmdResult::Unchanged => if cmd == ComboCmd::Submit {
            Some(FieldMsg::Redraw)
        } else {
            None
        },
        _ => Some(FieldMsg::Redraw),
    }
}

/// What a color choice field sends after a command; see `color_select_after_spec`.
pub fn color_select_after(id: IdCETheme, cmd: ComboCmd, r: ComboCmdResult) -> (m: Option<FieldMsg>)
    ensures
        m == color_select_after_spec(id, cmd, r),
{
    match r {
        ComboCmdResult::Submit(ComboState::One(i)) => match color_at(i) {
            Some(c) => Some(FieldMsg::Editor(ConfigEditorMsg::ColorChanged(IdConfigEditor::Theme(id), c))),
            None => Some(FieldMsg::Redraw),
        },
        ComboCmdResult::Unchanged => if cmd == ComboCmd::Submit {
            Some(FieldMsg::Redraw)
        } else {
            None
        },
        _ => Some(FieldMsg::Redraw),
    }
}

/// What a symbol field does with a key.
#[derive(Debug)]
pub enum SymbolFieldReaction {
    Send(FieldMsg),
    /// Run the command on the text, then redraw.
    Edit(FieldCmd),
    /// Run the command on the text, then see `symbol_update`.
    EditAndCheck(FieldCmd),
    /// Confirm the text, then see `symbol_update`.
    Submit,
    Nothing,
}

/// What a symbol field does with a key press: the save key saves, tab changes
/// the page, escape closes the editor; the cursor keys move in the text;
/// delete, backspace and characters typed with no modifier or shift edit it
/// and check it; the arrows leave the field; enter confirms the text.
pub open spec fn symbol_field_reaction(
    field: IdConfigEditor,
    p: KeyBindingView,
    escape: KeyBindingView,
    save: KeyBindingView,
) -> SymbolFieldReaction {
    if p == save {
        SymbolFieldReaction::Send(FieldMsg::Editor(ConfigEditorMsg::CloseOk))
    } else if p.code == "Tab"@ {
        SymbolFieldReaction::Send(FieldMsg::Editor(ConfigEditorMsg::ChangeLayout))
    } else if p == escape {
        SymbolFieldReaction::Send(FieldMsg::Editor(ConfigEditorMsg::CloseCancel))
    } else if p.code == "Left"@ {
        SymbolFieldReaction::Edit(FieldCmd::MoveLeft)
    } else if p.code == "Right"@ {
        SymbolFieldReaction::Edit(FieldCmd::MoveRight)
    } else if p.code == "Home"@ {
        SymbolFieldReaction::Edit(FieldCmd::GoToBegin)
    } else if p.code == "End"@ {
        SymbolFieldReaction::Edit(FieldCmd::GoToEnd)
    } else if p.code == "Delete"@ {
        SymbolFieldReaction::EditAndCheck(FieldCmd::Cancel)
    } else if p.code == "Backspace"@ {
        SymbolFieldReaction::EditAndCheck(FieldCmd::Delete)
    } else if typed_char_of(p) is Some && (p.modifiers == no_modifiers() || p.modifiers == (KeyModifierSet {
        shift: true,
        control: false,
        alt: false,
    })) {
        SymbolFieldReaction::EditAndCheck(FieldCmd::Type(typed_char_of(p)->0))
    } else if p.code == "Down"@ {
        SymbolFieldReaction::Send(FieldMsg::Editor(ConfigEditorMsg::FocusDown(field)))
    } else if p.code == "Up"@ {
        SymbolFieldReaction::Send(FieldMsg::Editor(ConfigEditorMsg::FocusUp(field)))
    } else if p.code == "Enter"@ {
        SymbolFieldReaction::Submit
    } else {
        SymbolFieldReaction::Nothing
    }
}

/// What a symbol field does with a key press; see `symbol_field_reaction`.
pub fn symbol_field_on(field: IdConfigEditor, p: &KeyBinding, ek: &EditorKeys) -> (r: SymbolFieldReaction)
    ensures
        r == symbol_field_reaction(field, p@, ek.escape@, ek.save@),
{
    if same_binding(p, &ek.save) {
        return SymbolFieldReaction::Send(FieldMsg::Editor(ConfigEditorMsg::CloseOk));
    } else if has_code(p, "Tab") {
        return SymbolFieldReaction::Send(FieldMsg::Editor(ConfigEditorMsg::ChangeLayout));
    } else if same_binding(p, &ek.escape) {
        return SymbolFieldReaction::Send(FieldMsg::Editor(ConfigEditorMsg::CloseCancel));
    } else if has_code(p, "Left") {
        return SymbolFieldReaction::Edit(FieldCmd::MoveLeft);
    } else if has_code(p, "Right") {
        return SymbolFieldReaction::Edit(FieldCmd::MoveRight);
    } else if has_code(p, "Home") {
        return SymbolFieldReaction::Edit(FieldCmd::GoToBegin);
    } else if has_code(p, "End") {
        return SymbolFieldReaction::Edit(FieldCmd::GoToEnd);
    } else if has_code(p, "Delete") {
        return SymbolFieldReaction::EditAndCheck(FieldCmd::Cancel);
    } else if has_code(p, "Backspace") {
        return SymbolFieldReaction::EditAndCheck(FieldCmd::Delete);
    }
    let plain_or_shift = !p.modifiers.control && !p.modifiers.alt;
    if let Some(c) = typed_char(p) {
        if plain_or_shift {
            return SymbolFieldReaction::EditAndCheck(FieldCmd::Type(c));
        }
    }
    if has_code(p, "Down") {
        SymbolFieldReaction::Send(FieldMsg::Editor(ConfigEditorMsg::FocusDown(field)))
    } else if has_code(p, "Up") {
        SymbolFieldReaction::Send(FieldMsg::Editor(ConfigEditorMsg::FocusUp(field)))
    } else if has_code(p, "Enter") {
        SymbolFieldReaction::Submit
    } else {
        SymbolFieldReaction::Nothing
    }
}

/// How a symbol field's text reports after a command.
#[derive(Debug)]
pub enum SymbolResult {
    /// The text changed to this.
    Changed(String),
    /// The text was confirmed as this.
    Submitted(String),
    Other,
}

/// How a symbol field shows itself after a check.
#[derive(Debug, Clone, Copy, PartialEq, Eq, Structural)]
pub enum SymbolLook {
    /// In the border color of the library: the field is empty.
    Plain,
    /// Green: the text gives a character.
    Valid,
    /// Red: the text gives no character.
    Invalid,
    /// As it was.
    Unchanged,
}

/// The character a hexadecimal text gives, if any.
pub open spec fn symbol_of(s: Seq<char>) -> Option<char> {
    match parsed_hex(s) {
        Some(v) => char_of(v),
        None => None,
    }
}

/// What a symbol field does after a check: how it looks, the symbol it now
/// holds (if it changed), the character to show as its text instead (if
/// any), and the message.
#[derive(Debug)]
pub struct SymbolUpdate {
    pub look: SymbolLook,
    pub symbol: Option<char>,
    pub show: Option<char>,
    pub msg: FieldMsg,
}

/// How a symbol field looks, the symbol it takes and the character it shows
/// after the outcome `r` of a command: an emptied text shows plainly; a
/// changed text that gives a character shows valid and takes that symbol, one
/// that gives none shows invalid; a confirmed text that gives a character is
/// replaced by that character, shows valid and takes the symbol; anything else
/// is left as it is.
pub open spec fn symbol_outcome(r: SymbolResult) -> (SymbolLook, Option<char>, Option<char>) {
    match r {
        SymbolResult::Changed(s) => if s@.len() == 0 {
            (SymbolLook::Plain, None, None)
        } else {
            match symbol_of(s@) {
                Some(c) => (SymbolLook::Valid, Some(c), None),
                None => (SymbolLook::Invalid, None, None),
            }
        },
        SymbolResult::Submitted(s) => match symbol_of(s@) {
            Some(c) => (SymbolLook::Valid, Some(c), Some(c)),
            None => (SymbolLook::Unchanged, None, None),
        },
        SymbolResult::Other => (SymbolLook::Unchanged, None, None),
    }
}

/// What a symbol field does with the outcome of a command; see
/// `symbol_outcome`. A symbol taken is sent to the editor as the text of that
/// one character; otherwise the field only redraws.
pub fn symbol_update(field: IdConfigEditor, r: &SymbolResult) -> (u: SymbolUpdate)
    ensures
        (u.look, u.symbol, u.show) == symbol_outcome(*r),
        match u.symbol {
            Some(c) => u.msg matches FieldMsg::Editor(ConfigEditorMsg::SymbolChanged(f, s)) && f
                == field && s@ == seq![c],
            None => u.msg == FieldMsg::Redraw,
        },
{
    match r {
        SymbolResult::Changed(s) => if s.as_str().unicode_len() == 0 {
            SymbolUpdate { look: SymbolLook::Plain, symbol: None, show: None, msg: FieldMsg::Redraw }
        } else {
            match string_to_unicode_char(s.as_str()) {
                Some(c) => SymbolUpdate {
                    look: SymbolLook::Valid,
                    symbol: Some(c),
                    show: None,
                    msg: symbol_changed(field, c),
                },
                None => SymbolUpdate { look: SymbolLook::Invalid, symbol: None, show: None, msg: FieldMsg::Redraw },
            }
        },
        SymbolResult::Submitted(s) => match string_to_unicode_char(s.as_str()) {
            Some(c) => SymbolUpdate {
                look: SymbolLook::Valid,
                symbol: Some(c),
                show: Some(c),
                msg: symbol_changed(field, c),
            },
            None => SymbolUpdate { look: SymbolLook::Unchanged, symbol: None, show: None, msg: FieldMsg::Redraw },
        },
        SymbolResult::Other => SymbolUpdate {
            look: SymbolLook::Unchanged,
            symbol: None,
            show: None,
            msg: FieldMsg::Redraw,
        },
    }
}

/// The message that gives the symbol field `field` the symbol `c`.
fn symbol_changed(field: IdConfigEditor, c: char) -> (m: FieldMsg)
    ensures
        m matches FieldMsg::Editor(ConfigEditorMsg::SymbolChanged(f, s)) && f == field && s@ == seq![c],
{
    let chars: Vec<char> = vec![c];
    FieldMsg::Editor(ConfigEditorMsg::SymbolChanged(field, string_from_chars(&chars)))
}

} // verus!
