//! The key binding fields of the config editor: how a typed key name becomes
//! a binding, and what a field does with a key press.
use vstd::prelude::*;
use vstd::string::{StrSliceExecFns, StringExecFns};

use crate::config_editor::ConfigEditorMsg;
use crate::field_keys::{has_code, typed_char, typed_char_of, EditorKeys, FieldMsg};
use crate::ids::{id_config_editor_of_key, IdKey, IdKeyGlobal, IdKeyOther};
use crate::input_states::{typed_text, InputView};
use crate::key_config::{bound_to, same_binding, KeyBinding, KeyBindingView, KeyConfig};
use crate::search::{lowercase, to_lowercase};
use crate::select_states::{
    key_combo_perform_spec, modifier_list, modifier_name, modifier_set, ComboCmd, ComboCmdResult,
    ComboState, KeyCombo, KeyComboView, KeyModifierSet, MyModifiers,
};

verus! {

/// The names of the keys that are not characters.
pub open spec fn key_names() -> Seq<Seq<char>> {
    seq![
        "Up"@, "Down"@, "Left"@, "Right"@, "Tab"@, "BackTab"@, "Enter"@, "Esc"@, "Home"@, "End"@,
        "PageUp"@, "PageDown"@, "Delete"@, "Backspace"@, "Insert"@, "F1"@, "F2"@, "F3"@, "F4"@,
        "F5"@, "F6"@, "F7"@, "F8"@, "F9"@, "F10"@, "F11"@, "F12"@,
    ]
}

/// Whether two characters are equal but for the case of an ASCII letter.
pub open spec fn ascii_ci_eq(a: char, b: char) -> bool {
    a == b || ('A' <= a <= 'Z' && (a as u32) + 32 == (b as u32)) || ('A' <= b <= 'Z' && (b as u32)
        + 32 == (a as u32))
}

/// Whether two texts are equal but for the case of ASCII letters.
pub open spec fn eq_ignore_ascii_case(s: Seq<char>, t: Seq<char>) -> bool {
    s.len() == t.len() && forall|i: int| 0 <= i < s.len() ==> ascii_ci_eq(#[trigger] s[i], t[i])
}

/// The first of `names` that `s` spells, ignoring the case of ASCII letters.
pub open spec fn find_key_name(names: Seq<Seq<char>>, s: Seq<char>) -> Option<Seq<char>>
    decreases names.len(),
{
    if names.len() == 0 {
        None
    } else if eq_ignore_ascii_case(s, names[0]) {
        Some(names[0])
    } else {
        find_key_name(names.drop_first(), s)
    }
}

/// The key a typed text names: a single character names itself; a longer text
/// names the key whose name it spells, in any case.
pub open spec fn key_name_of(s: Seq<char>) -> Option<Seq<char>> {
    if s.len() == 1 {
        Some(s)
    } else {
        find_key_name(key_names(), s)
    }
}

/// The names of the keys that are not characters.
fn key_name_list() -> (v: Vec<&'static str>)
    ensures
        v@.len() == key_names().len(),
        forall|i: int| 0 <= i < v@.len() ==> (#[trigger] v@[i])@ == key_names()[i],
{
    let v = vec![
        "Up", "Down", "Left", "Right", "Tab", "BackTab", "Enter", "Esc", "Home", "End", "PageUp",
        "PageDown", "Delete", "Backspace", "Insert", "F1", "F2", "F3", "F4", "F5", "F6", "F7", "F8",
        "F9", "F10", "F11", "F12",
    ];
    proof {
        assert(v@.map_values(|s: &str| s@) =~= key_names());
        assert forall|i: int| 0 <= i < v@.len() implies (#[trigger] v@[i])@ == key_names()[i] by {
            assert(v@.map_values(|s: &str| s@)[i] == v@[i]@);
        }
    }
    v
}

/// Whether two characters are equal but for the case of an ASCII letter.
fn chars_ci_eq(a: char, b: char) -> (r: bool)
    ensures
        r == ascii_ci_eq(a, b),
{
    let x = a as u32;
    let y = b as u32;
    a == b || ('A' <= a && a <= 'Z' && x + 32 == y) || ('A' <= b && b <= 'Z' && y + 32 == x)
}

/// Whether `s` spells `t`, ignoring the case of ASCII letters.
fn texts_ci_eq(s: &str, t: &str) -> (r: bool)
    ensures
        r == eq_ignore_ascii_case(s@, t@),
{
    let n = s.unicode_len();
    if n != t.unicode_len() {
        return false;
    }
    let mut i: usize = 0;
    while i < n
        invariant
            n == s@.len(),
            n == t@.len(),
            i <= n,
            forall|j: int| 0 <= j < i ==> ascii_ci_eq(#[trigger] s@[j], t@[j]),
        decreases n - i,
    {
        if !chars_ci_eq(s.get_char(i), t.get_char(i)) {
            return false;
        }
        i = i + 1;
    }
    true
}

/// The key a typed text names; see `key_name_of`.
pub fn key_name(s: &str) -> (r: Option<String>)
    ensures
        match r {
            Some(n) => key_name_of(s@) == Some(n@),
            None => key_name_of(s@) is None,
        },
{
    if s.unicode_len() == 1 {
        return Some(String::from_str(s));
    }
    let names = key_name_list();
    let mut i: usize = 0;
    proof {
        assert(key_names().skip(0) =~= key_names());
    }
    while i < names.len()
        invariant
            names@.len() == key_names().len(),
            forall|j: int| 0 <= j < names@.len() ==> (#[trigger] names@[j])@ == key_names()[j],
            i <= names@.len(),
            s@.len() != 1,
            key_name_of(s@) == find_key_name(key_names().skip(i as int), s@),
        decreases names@.len() - i,
    {
        proof {
            assert(key_names().skip(i as int)[0] == key_names()[i as int]);
            assert(key_names().skip(i as int).drop_first() =~= key_names().skip(i + 1));
        }
        let n = names[i];
        if texts_ci_eq(s, n) {
            return Some(String::from_str(n));
        }
        i = i + 1;
    }
    None
}

/// What `str::to_uppercase` makes of a text.
pub uninterp spec fn uppercase(s: Seq<char>) -> Seq<char>;

/// `str::to_uppercase`. Its result is named by `uppercase`, a function of the
/// text alone; nothing more is claimed of it.
#[verifier::external_body]
fn to_uppercase(s: &str) -> (r: String)
    ensures
        r@ == uppercase(s@),
{
    s.to_uppercase()
}

/// The modifiers the choice at `i` stands for; no modifier past the list.
pub open spec fn modifier_at(i: nat) -> KeyModifierSet {
    if i < modifier_list().len() {
        modifier_set(modifier_list()[i as int])
    } else {
        modifier_set(MyModifiers::NoModifier)
    }
}

/// The typed name after matching its case to the modifiers: a text that names
/// a key, and is no function key name, is written in capitals with shift and
/// in small letters without.
pub open spec fn case_fixed(input: Seq<char>, m: KeyModifierSet) -> Option<Seq<char>> {
    if key_name_of(input) is Some && !(input.len() > 0 && input[0] == 'F') {
        Some(
            if m.shift {
                uppercase(input)
            } else {
                lowercase(input)
            },
        )
    } else {
        None
    }
}

/// The field after building a binding from it, and the binding: the selected
/// modifiers with the key the typed name names, once its case is matched.
pub open spec fn key_event_spec(v: KeyComboView) -> (KeyComboView, Option<KeyBindingView>) {
    let m = modifier_at(v.select.selected);
    let v1 = match case_fixed(v.input.input, m) {
        Some(t) => KeyComboView { input: typed_text(t, v.input_len), ..v },
        None => v,
    };
    (
        v1,
        match key_name_of(v1.input.input) {
            Some(n) => Some(KeyBindingView { modifiers: m, code: n }),
            None => None,
        },
    )
}

/// What a key binding field sends on.
pub enum KeyFieldOut {
    Nothing,
    Redraw,
    CloseOk,
    FocusDown,
    FocusUp,
    ChangeLayout,
    CloseCancel,
    /// The field's binding is now this one.
    KeyChange(KeyBindingView),
}

/// What a command's outcome leads to: a confirmed choice builds a binding (or
/// redraws if the name names no key); no change sends nothing; any other
/// change redraws.
pub open spec fn finish_spec(v: KeyComboView, r: ComboCmdResult) -> (KeyComboView, KeyFieldOut) {
    match r {
        ComboCmdResult::Submit(ComboState::One(_)) => {
            let (v1, b) = key_event_spec(v);
            match b {
                Some(b) => (v1, KeyFieldOut::KeyChange(b)),
                None => (v1, KeyFieldOut::Redraw),
            }
        },
        ComboCmdResult::Unchanged => (v, KeyFieldOut::Nothing),
        _ => (v, KeyFieldOut::Redraw),
    }
}

/// Run a command and see what its outcome leads to.
pub open spec fn run_spec(v: KeyComboView, cmd: ComboCmd) -> (KeyComboView, KeyFieldOut) {
    let (v1, r) = key_combo_perform_spec(v, cmd);
    finish_spec(v1, r)
}

/// A key that is bound to something else, pressed while the choice list is
/// closed: its character is typed and, if that names a key, becomes the binding.
pub open spec fn type_key_spec(v: KeyComboView, p: KeyBindingView) -> (KeyComboView, KeyFieldOut) {
    match typed_char_of(p) {
        Some(ch) => {
            let (v1, _r) = key_combo_perform_spec(v, ComboCmd::Type(ch));
            let (v2, b) = key_event_spec(v1);
            match b {
                Some(b) => (v2, KeyFieldOut::KeyChange(b)),
                None => (v2, KeyFieldOut::Nothing),
            }
        },
        None => (v, KeyFieldOut::Nothing),
    }
}

/// What a key binding field does with a key press. The save key saves; the
/// down and up arrows leave the field while its choice list is closed and move
/// in the list while it is open; tab changes the page; escape closes the editor
/// or the open list; the configured quit, up and down keys are typed while the
/// list is closed and otherwise act on the list; enter opens the list or
/// confirms its choice; the other editing keys edit the typed name; and any
/// other character is typed, which makes a binding while the list is closed.
pub open spec fn key_field_step(
    v: KeyComboView,
    p: KeyBindingView,
    keys: KeyConfig,
    escape: KeyBindingView,
    save: KeyBindingView,
) -> (KeyComboView, KeyFieldOut) {
    let closed = !v.select.tab_open;
    if p == save {
        (v, KeyFieldOut::CloseOk)
    } else if p.code == "Down"@ {
        if closed {
            (v, KeyFieldOut::FocusDown)
        } else {
            run_spec(v, ComboCmd::MoveDown)
        }
    } else if p.code == "Up"@ {
        if closed {
            (v, KeyFieldOut::FocusUp)
        } else {
            run_spec(v, ComboCmd::MoveUp)
        }
    } else if p.code == "Tab"@ {
        (v, KeyFieldOut::ChangeLayout)
    } else if p == escape {
        if closed {
            (v, KeyFieldOut::CloseCancel)
        } else {
            run_spec(v, ComboCmd::Cancel)
        }
    } else if bound_to(keys, IdKey::Global(IdKeyGlobal::Quit), p) {
        if closed {
            type_key_spec(v, p)
        } else {
            run_spec(v, ComboCmd::Cancel)
        }
    } else if bound_to(keys, IdKey::Global(IdKeyGlobal::Up), p) {
        if closed {
            type_key_spec(v, p)
        } else {
            run_spec(v, ComboCmd::MoveUp)
        }
    } else if bound_to(keys, IdKey::Global(IdKeyGlobal::Down), p) {
        if closed {
            type_key_spec(v, p)
        } else {
            run_spec(v, ComboCmd::MoveDown)
        }
    } else if p.code == "Enter"@ {
        run_spec(v, ComboCmd::Submit)
    } else if p.code == "Left"@ {
        run_spec(v, ComboCmd::MoveLeft)
    } else if p.code == "Right"@ {
        run_spec(v, ComboCmd::MoveRight)
    } else if p.code == "Home"@ {
        run_spec(v, ComboCmd::GoToBegin)
    } else if p.code == "End"@ {
        run_spec(v, ComboCmd::GoToEnd)
    } else if p.code == "Delete"@ {
        run_spec(v, ComboCmd::DeleteAtCursor)
    } else if p.code == "Backspace"@ {
        run_spec(v, ComboCmd::Delete)
    } else {
        match typed_char_of(p) {
            Some(ch) => {
                let (v1, r1) = key_combo_perform_spec(v, ComboCmd::Type(ch));
                if !v1.select.tab_open {
                    let (v2, b) = key_event_spec(v1);
                    match b {
                        Some(b) => (v2, KeyFieldOut::KeyChange(b)),
                        None => finish_spec(v2, r1),
                    }
                } else {
                    finish_spec(v1, r1)
                }
            },
            None => (v, KeyFieldOut::Nothing),
        }
    }
}

/// The field's state stays sound: eight modifier choices, the selection and
/// the remembered selection among them, and the cursor within the typed name.
pub open spec fn combo_sound(v: KeyComboView) -> bool {
    &&& v.select.choices.len() == 8
    &&& v.select.selected < 8
    &&& v.select.previously_selected < 8
    &&& v.input.cursor <= v.input.input.len()
}

/// Every command keeps the field's state sound.
pub proof fn lemma_perform_keeps_sound(v: KeyComboView, cmd: ComboCmd)
    requires
        combo_sound(v),
    ensures
        combo_sound(key_combo_perform_spec(v, cmd).0),
{
}

/// Building a binding keeps the field's state sound.
pub proof fn lemma_key_event_keeps_sound(v: KeyComboView)
    requires
        combo_sound(v),
    ensures
        combo_sound(key_event_spec(v).0),
{
}

/// A key binding field of the config editor.
pub struct KEModifierSelect {
    pub component: KeyCombo,
    pub id: IdKey,
}

/// Whether a message is what a key binding field sends for an outcome.
pub open spec fn sends(id: IdKey, out: KeyFieldOut, r: Option<FieldMsg>) -> bool {
    match out {
        KeyFieldOut::Nothing => r is None,
        KeyFieldOut::Redraw => r matches Some(FieldMsg::Redraw),
        KeyFieldOut::CloseOk => r matches Some(FieldMsg::Editor(ConfigEditorMsg::CloseOk)),
        KeyFieldOut::FocusDown => r matches Some(FieldMsg::Editor(ConfigEditorMsg::FocusDown(f)))
            && f == id_config_editor_of_key(id),
        KeyFieldOut::FocusUp => r matches Some(FieldMsg::Editor(ConfigEditorMsg::FocusUp(f))) && f
            == id_config_editor_of_key(id),
        KeyFieldOut::ChangeLayout => r matches Some(FieldMsg::Editor(ConfigEditorMsg::ChangeLayout)),
        KeyFieldOut::CloseCancel => r matches Some(FieldMsg::Editor(ConfigEditorMsg::CloseCancel)),
        KeyFieldOut::KeyChange(b) => r matches Some(FieldMsg::Editor(ConfigEditorMsg::KeyChange(i, k)))
            && i == id && k@ == b,
    }
}

impl KEModifierSelect {
    /// The field's state is sound; see `combo_sound`.
    pub open spec fn wf(&self) -> bool {
        combo_sound(self.component@) && self.component.input.wf()
    }

    /// The field for `id`, showing its binding in `keys`: the modifier choice
    /// and the key name (as much of it as a field can hold), or no modifier and
    /// an empty name if it has none.
    pub fn new(id: IdKey, keys: &KeyConfig) -> (r: Self)
        ensures
            r.wf(),
            r.id == id,
            r.component@.select.choices == modifier_list().map_values(|m: MyModifiers| modifier_name(m)),
            !r.component@.select.tab_open,
            !r.component@.rewind,
            r.component@.input_len is None,
            r.component@.input.cursor == 0,
            keys.bindings().contains_key(id) ==> {
                &&& r.component@.select.selected == crate::select_states::modifier_list_index(
                    keys.bindings()[id].modifiers,
                )
                &&& r.component@.input.input == typed_text(keys.bindings()[id].code, None).input
            },
            !keys.bindings().contains_key(id) ==> r.component@.select.selected == 0
                && r.component@.input.input.len() == 0,
    {
        let list = MyModifiers::list();
        let mut choices: Vec<String> = Vec::new();
        let mut i: usize = 0;
        while i < list.len()
            invariant
                list@ == modifier_list(),
                i <= list@.len(),
                choices@.len() == i,
                forall|j: int| 0 <= j < i ==> (#[trigger] choices@[j])@ == modifier_name(list@[j]),
            decreases list@.len() - i,
        {
            choices.push(String::from_str(list[i].as_str()));
            i = i + 1;
        }
        proof {
            assert(choices@.map_values(|s: String| s@) =~= modifier_list().map_values(
                |m: MyModifiers| modifier_name(m),
            ));
        }
        let mut component = KeyCombo::new(choices, 0, false);
        match keys.init_modifier_select(id) {
            Some((m, code)) => {
                component.value(m, code.as_str());
            },
            None => {
                let empty = "";
                proof {
                    reveal_strlit("");
                }
                component.value(0, empty);
                proof {
                    assert(typed_text(empty@, None).input =~= empty@);
                }
            },
        }
        KEModifierSelect { component, id }
    }

    /// Match the case of the typed name to the modifiers `m`; see `case_fixed`.
    fn update_key_input_by_modifier(&mut self, m: KeyModifierSet)
        requires
            old(self).wf(),
        ensures
            final(self).wf(),
            final(self).id == old(self).id,
            final(self).component@ == (match case_fixed(old(self).component@.input.input, m) {
                Some(t) => KeyComboView { input: typed_text(t, old(self).component@.input_len), ..old(self).component@ },
                None => old(self).component@,
            }),
    {
        let codes = self.component.input.get_value();
        if key_name(codes.as_str()).is_none() {
            return;
        }
        if codes.as_str().unicode_len() > 0 && codes.as_str().get_char(0) == 'F' {
            return;
        }
        let changed = if m.shift {
            to_uppercase(codes.as_str())
        } else {
            to_lowercase(codes.as_str())
        };
        self.component.input.set_value(changed.as_str(), self.component.input_len);
    }

    /// Build a binding from the field; see `key_event_spec`.
    pub fn key_event(&mut self) -> (r: Option<KeyBinding>)
        requires
            old(self).wf(),
        ensures
            final(self).wf(),
            final(self).id == old(self).id,
            final(self).component@ == key_event_spec(old(self).component@).0,
            match r {
                Some(b) => key_event_spec(old(self).component@).1 == Some(b@),
                None => key_event_spec(old(self).component@).1 is None,
            },
    {
        let list = MyModifiers::list();
        let sel = self.component.states.selected;
        let m = if sel < list.len() {
            list[sel].as_modifier()
        } else {
            MyModifiers::NoModifier.as_modifier()
        };
        self.update_key_input_by_modifier(m);
        let text = self.component.input.get_value();
        match key_name(text.as_str()) {
            Some(code) => Some(KeyBinding { modifiers: m, code }),
            None => None,
        }
    }

    /// Run a command on the field, keeping it sound.
    fn perform(&mut self, cmd: ComboCmd) -> (r: ComboCmdResult)
        requires
            old(self).wf(),
        ensures
            final(self).wf(),
            final(self).id == old(self).id,
            (final(self).component@, r) == key_combo_perform_spec(old(self).component@, cmd),
    {
        proof {
            lemma_perform_keeps_sound(self.component@, cmd);
        }
        self.component.perform(cmd)
    }

    /// What a command's outcome leads to; see `finish_spec`.
    fn finish(&mut self, r: ComboCmdResult) -> (m: Option<FieldMsg>)
        requires
            old(self).wf(),
        ensures
            final(self).wf(),
            final(self).id == old(self).id,
            final(self).component@ == finish_spec(old(self).component@, r).0,
            sends(old(self).id, finish_spec(old(self).component@, r).1, m),
    {
        match r {
            ComboCmdResult::Submit(ComboState::One(_)) => match self.key_event() {
                Some(b) => Some(FieldMsg::Editor(ConfigEditorMsg::KeyChange(self.id, b))),
                None => Some(FieldMsg::Redraw),
            },
            ComboCmdResult::Unchanged => None,
            _ => Some(FieldMsg::Redraw),
        }
    }

    /// Type the pressed key's character and make a binding of it; see `type_key_spec`.
    fn type_key(&mut self, p: &KeyBinding) -> (m: Option<FieldMsg>)
        requires
            old(self).wf(),
        ensures
            final(self).wf(),
            final(self).id == old(self).id,
            final(self).component@ == type_key_spec(old(self).component@, p@).0,
            sends(old(self).id, type_key_spec(old(self).component@, p@).1, m),
    {
        match typed_char(p) {
            Some(ch) => {
                self.perform(ComboCmd::Type(ch));
                match self.key_event() {
                    Some(b) => Some(FieldMsg::Editor(ConfigEditorMsg::KeyChange(self.id, b))),
                    None => None,
                }
            },
            None => None,
        }
    }

    /// What the field does with a key press; see `key_field_step`.
    pub fn on(&mut self, p: &KeyBinding, keys: &KeyConfig, ek: &EditorKeys) -> (m: Option<FieldMsg>)
        requires
            old(self).wf(),
        ensures
            final(self).wf(),
            final(self).id == old(self).id,
            final(self).component@ == key_field_step(old(self).component@, p@, *keys, ek.escape@, ek.save@).0,
            sends(old(self).id, key_field_step(old(self).component@, p@, *keys, ek.escape@, ek.save@).1, m),
    {
        let closed = !self.component.states.tab_open;
        let field = self.id.to_config_editor();
        if same_binding(p, &ek.save) {
            Some(FieldMsg::Editor(ConfigEditorMsg::CloseOk))
        } else if has_code(p, "Down") {
            if closed {
                Some(FieldMsg::Editor(ConfigEditorMsg::FocusDown(field)))
            } else {
                let r = self.perform(ComboCmd::MoveDown);
                self.finish(r)
            }
        } else if has_code(p, "Up") {
            if closed {
                Some(FieldMsg::Editor(ConfigEditorMsg::FocusUp(field)))
            } else {
                let r = self.perform(ComboCmd::MoveUp);
                self.finish(r)
            }
        } else if has_code(p, "Tab") {
            Some(FieldMsg::Editor(ConfigEditorMsg::ChangeLayout))
        } else if same_binding(p, &ek.escape) {
            if closed {
                Some(FieldMsg::Editor(ConfigEditorMsg::CloseCancel))
            } else {
                let r = self.perform(ComboCmd::Cancel);
                self.finish(r)
            }
        } else if keys.is_bound(IdKey::Global(IdKeyGlobal::Quit), p) {
            if closed {
                self.type_key(p)
            } else {
                let r = self.perform(ComboCmd::Cancel);
                self.finish(r)
            }
        } else if keys.is_bound(IdKey::Global(IdKeyGlobal::Up), p) {
            if closed {
                self.type_key(p)
            } else {
                let r = self.perform(ComboCmd::MoveUp);
                self.finish(r)
            }
        } else if keys.is_bound(IdKey::Global(IdKeyGlobal::Down), p) {
            if closed {
                self.type_key(p)
            } else {
                let r = self.perform(ComboCmd::MoveDown);
                self.finish(r)
            }
        } else if has_code(p, "Enter") {
            let r = self.perform(ComboCmd::Submit);
            self.finish(r)
        } else if has_code(p, "Left") {
            let r = self.perform(ComboCmd::MoveLeft);
            self.finish(r)
        } else if has_code(p, "Right") {
            let r = self.perform(ComboCmd::MoveRight);
            self.finish(r)
        } else if has_code(p, "Home") {
            let r = self.perform(ComboCmd::GoToBegin);
            self.finish(r)
        } else if has_code(p, "End") {
            let r = self.perform(ComboCmd::GoToEnd);
            self.finish(r)
        } else if has_code(p, "Delete") {
            let r = self.perform(ComboCmd::DeleteAtCursor);
            self.finish(r)
        } else if has_code(p, "Backspace") {
            let r = self.perform(ComboCmd::Delete);
            self.finish(r)
        } else {
            match typed_char(p) {
                Some(ch) => {
                    let r = self.perform(ComboCmd::Type(ch));
                    if !self.component.states.tab_open {
                        match self.key_event() {
                            Some(b) => Some(FieldMsg::Editor(ConfigEditorMsg::KeyChange(self.id, b))),
                            None => self.finish(r),
                        }
                    } else {
                        self.finish(r)
                    }
                },
                None => None,
            }
        }
    }
}

} // verus!

verus! {

/// Opening the modifier list of a closed key field and cancelling it at once
/// leaves the field showing the choice it showed, with the list closed, and
/// sends nothing but a redraw.
pub proof fn lemma_open_then_cancel_keeps_choice(v: KeyComboView)
    requires
        combo_sound(v),
        !v.select.tab_open,
    ensures
        ({
            let (v1, o1) = run_spec(v, ComboCmd::Submit);
            let (v2, o2) = run_spec(v1, ComboCmd::Cancel);
            &&& v2.select.selected == v.select.selected
            &&& !v2.select.tab_open
            &&& v2.input == v.input
            &&& o1 is Redraw
            &&& o2 is Redraw
        }),
{
}

} // verus!

verus! {

/// The title a key binding field shows.
pub open spec fn key_field_title(id: IdKey) -> Seq<char> {
    match id {
        IdKey::Global(IdKeyGlobal::Quit) => " Quit "@,
        IdKey::Global(IdKeyGlobal::Help) => " Help "@,
        IdKey::Global(IdKeyGlobal::LayoutTreeview) => " Layout Tree "@,
        IdKey::Global(IdKeyGlobal::LayoutDatabase) => " Layout DataBase "@,
        IdKey::Global(IdKeyGlobal::LayoutPodcast) => " Layout Podcast "@,
        IdKey::Global(IdKeyGlobal::Config) => " Config Editor "@,
        IdKey::Global(IdKeyGlobal::SavePlaylist) => " Global Save Playlist "@,
        IdKey::Global(IdKeyGlobal::Left) => " Left "@,
        IdKey::Global(IdKeyGlobal::Right) => " Right "@,
        IdKey::Global(IdKeyGlobal::Down) => " Down "@,
        IdKey::Global(IdKeyGlobal::Up) => " Up "@,
        IdKey::Global(IdKeyGlobal::GotoTop) => " Goto Top "@,
        IdKey::Global(IdKeyGlobal::GotoBottom) => " Goto Bottom "@,
        IdKey::Global(IdKeyGlobal::PlayerTogglePause) => " Toggle Pause/Play "@,
        IdKey::Global(IdKeyGlobal::PlayerNext) => " Next Song "@,
        IdKey::Global(IdKeyGlobal::PlayerPrevious) => " Previous Song "@,
        IdKey::Global(IdKeyGlobal::PlayerVolumeUp) => " Increase Volume "@,
        IdKey::Global(IdKeyGlobal::PlayerVolumeDown) => " Decrease Volume "@,
        IdKey::Global(IdKeyGlobal::PlayerSeekForward) => " Seek Forward "@,
        IdKey::Global(IdKeyGlobal::PlayerSeekBackward) => " Seek Backward "@,
        IdKey::Global(IdKeyGlobal::PlayerSpeedUp) => " Increase Playback Speed "@,
        IdKey::Global(IdKeyGlobal::PlayerSpeedDown) => " Decrease Playback Speed "@,
        IdKey::Global(IdKeyGlobal::PlayerToggleGapless) => " Gapless Toggle "@,
        IdKey::Global(IdKeyGlobal::LyricAdjustForward) => " Lyric Forward "@,
        IdKey::Global(IdKeyGlobal::LyricAdjustBackward) => " Lyric Backward "@,
        IdKey::Global(IdKeyGlobal::LyricCycle) => " Lyric Cycle "@,
        IdKey::Global(IdKeyGlobal::XywhMoveLeft) => " Photo move left "@,
        IdKey::Global(IdKeyGlobal::XywhMoveRight) => " Photo move right "@,
        IdKey::Global(IdKeyGlobal::XywhMoveUp) => " Photo move up "@,
        IdKey::Global(IdKeyGlobal::XywhMoveDown) => " Photo move down "@,
        IdKey::Global(IdKeyGlobal::XywhZoomIn) => " Photo zoom in "@,
        IdKey::Global(IdKeyGlobal::XywhZoomOut) => " Photo zoom out "@,
        IdKey::Global(IdKeyGlobal::XywhHide) => " Photo hide "@,
        IdKey::Other(IdKeyOther::LibraryDelete) => " Library Delete "@,
        IdKey::Other(IdKeyOther::LibraryLoadDir) => " Library Load Dir "@,
        IdKey::Other(IdKeyOther::LibraryYank) => " Library Yank "@,
        IdKey::Other(IdKeyOther::LibraryPaste) => " Library Paste "@,
        IdKey::Other(IdKeyOther::LibrarySearch) => " Library Search "@,
        IdKey::Other(IdKeyOther::LibrarySearchYoutube) => " Library Search Youtube "@,
        IdKey::Other(IdKeyOther::LibraryTagEditor) => " Library Tag Editor "@,
        IdKey::Other(IdKeyOther::LibrarySwitchRoot) => " Library Switch Root "@,
        IdKey::Other(IdKeyOther::LibraryAddRoot) => " Library Add Root "@,
        IdKey::Other(IdKeyOther::LibraryRemoveRoot) => " Library Remove Root "@,
        IdKey::Other(IdKeyOther::PlaylistDelete) => " Playlist Delete "@,
        IdKey::Other(IdKeyOther::PlaylistDeleteAll) => " Playlist Delete All "@,
        IdKey::Other(IdKeyOther::PlaylistShuffle) => " Playlist Shuffle "@,
        IdKey::Other(IdKeyOther::PlaylistModeCycle) => " Playlist Mode Cycle "@,
        IdKey::Other(IdKeyOther::PlaylistPlaySelected) => " Playlist Play Selected "@,
        IdKey::Other(IdKeyOther::PlaylistSearch) => " Playlist Search "@,
        IdKey::Other(IdKeyOther::PlaylistSwapDown) => " Playlist Swap Down "@,
        IdKey::Other(IdKeyOther::PlaylistSwapUp) => " Playlist Swap Up "@,
        IdKey::Other(IdKeyOther::PlaylistAddRandomAlbum) => " Playlist Select Album "@,
        IdKey::Other(IdKeyOther::PlaylistAddRandomTracks) => " Playlist Select Tracks "@,
        IdKey::Other(IdKeyOther::DatabaseAddAll) => " Database Add All "@,
        IdKey::Other(IdKeyOther::DatabaseAddSelected) => " Database Add Selected "@,
        IdKey::Other(IdKeyOther::PodcastMarkPlayed) => " Episode Mark Played"@,
        IdKey::Other(IdKeyOther::PodcastMarkAllPlayed) => " Episode mark all played "@,
        IdKey::Other(IdKeyOther::PodcastEpDownload) => " Episode download"@,
        IdKey::Other(IdKeyOther::PodcastEpDeleteFile) => " Episode delete file "@,
        IdKey::Other(IdKeyOther::PodcastDeleteFeed) => " Podcast delete feed "@,
        IdKey::Other(IdKeyOther::PodcastDeleteAllFeeds) => " Delete all feeds "@,
        IdKey::Other(IdKeyOther::PodcastSearchAddFeed) => " Podcast search add feed "@,
        IdKey::Other(IdKeyOther::PodcastRefreshFeed) => " Refresh feed "@,
        IdKey::Other(IdKeyOther::PodcastRefreshAllFeeds) => " Refresh all feeds "@,
    }
}

/// The title a key binding field shows; see `key_field_title`.
pub fn key_title(id: IdKey) -> (r: &'static str)
    ensures
        r@ == key_field_title(id),
{
    match id {
        IdKey::Global(IdKeyGlobal::Quit) => " Quit ",
        IdKey::Global(IdKeyGlobal::Help) => " Help ",
        IdKey::Global(IdKeyGlobal::LayoutTreeview) => " Layout Tree ",
        IdKey::Global(IdKeyGlobal::LayoutDatabase) => " Layout DataBase ",
        IdKey::Global(IdKeyGlobal::LayoutPodcast) => " Layout Podcast ",
        IdKey::Global(IdKeyGlobal::Config) => " Config Editor ",
        IdKey::Global(IdKeyGlobal::SavePlaylist) => " Global Save Playlist ",
        IdKey::Global(IdKeyGlobal::Left) => " Left ",
        IdKey::Global(IdKeyGlobal::Right) => " Right ",
        IdKey::Global(IdKeyGlobal::Down) => " Down ",
        IdKey::Global(IdKeyGlobal::Up) => " Up ",
        IdKey::Global(IdKeyGlobal::GotoTop) => " Goto Top ",
        IdKey::Global(IdKeyGlobal::GotoBottom) => " Goto Bottom ",
        IdKey::Global(IdKeyGlobal::PlayerTogglePause) => " Toggle Pause/Play ",
        IdKey::Global(IdKeyGlobal::PlayerNext) => " Next Song ",
        IdKey::Global(IdKeyGlobal::PlayerPrevious) => " Previous Song ",
        IdKey::Global(IdKeyGlobal::PlayerVolumeUp) => " Increase Volume ",
        IdKey::Global(IdKeyGlobal::PlayerVolumeDown) => " Decrease Volume ",
        IdKey::Global(IdKeyGlobal::PlayerSeekForward) => " Seek Forward ",
        IdKey::Global(IdKeyGlobal::PlayerSeekBackward) => " Seek Backward ",
        IdKey::Global(IdKeyGlobal::PlayerSpeedUp) => " Increase Playback Speed ",
        IdKey::Global(IdKeyGlobal::PlayerSpeedDown) => " Decrease Playback Speed ",
        IdKey::Global(IdKeyGlobal::PlayerToggleGapless) => " Gapless Toggle ",
        IdKey::Global(IdKeyGlobal::LyricAdjustForward) => " Lyric Forward ",
        IdKey::Global(IdKeyGlobal::LyricAdjustBackward) => " Lyric Backward ",
        IdKey::Global(IdKeyGlobal::LyricCycle) => " Lyric Cycle ",
        IdKey::Global(IdKeyGlobal::XywhMoveLeft) => " Photo move left ",
        IdKey::Global(IdKeyGlobal::XywhMoveRight) => " Photo move right ",
        IdKey::Global(IdKeyGlobal::XywhMoveUp) => " Photo move up ",
        IdKey::Global(IdKeyGlobal::XywhMoveDown) => " Photo move down ",
        IdKey::Global(IdKeyGlobal::XywhZoomIn) => " Photo zoom in ",
        IdKey::Global(IdKeyGlobal::XywhZoomOut) => " Photo zoom out ",
        IdKey::Global(IdKeyGlobal::XywhHide) => " Photo hide ",
        IdKey::Other(IdKeyOther::LibraryDelete) => " Library Delete ",
        IdKey::Other(IdKeyOther::LibraryLoadDir) => " Library Load Dir ",
        IdKey::Other(IdKeyOther::LibraryYank) => " Library Yank ",
        IdKey::Other(IdKeyOther::LibraryPaste) => " Library Paste ",
        IdKey::Other(IdKeyOther::LibrarySearch) => " Library Search ",
        IdKey::Other(IdKeyOther::LibrarySearchYoutube) => " Library Search Youtube ",
        IdKey::Other(IdKeyOther::LibraryTagEditor) => " Library Tag Editor ",
        IdKey::Other(IdKeyOther::LibrarySwitchRoot) => " Library Switch Root ",
        IdKey::Other(IdKeyOther::LibraryAddRoot) => " Library Add Root ",
        IdKey::Other(IdKeyOther::LibraryRemoveRoot) => " Library Remove Root ",
        IdKey::Other(IdKeyOther::PlaylistDelete) => " Playlist Delete ",
        IdKey::Other(IdKeyOther::PlaylistDeleteAll) => " Playlist Delete All ",
        IdKey::Other(IdKeyOther::PlaylistShuffle) => " Playlist Shuffle ",
        IdKey::Other(IdKeyOther::PlaylistModeCycle) => " Playlist Mode Cycle ",
        IdKey::Other(IdKeyOther::PlaylistPlaySelected) => " Playlist Play Selected ",
        IdKey::Other(IdKeyOther::PlaylistSearch) => " Playlist Search ",
        IdKey::Other(IdKeyOther::PlaylistSwapDown) => " Playlist Swap Down ",
        IdKey::Other(IdKeyOther::PlaylistSwapUp) => " Playlist Swap Up ",
        IdKey::Other(IdKeyOther::PlaylistAddRandomAlbum) => " Playlist Select Album ",
        IdKey::Other(IdKeyOther::PlaylistAddRandomTracks) => " Playlist Select Tracks ",
        IdKey::Other(IdKeyOther::DatabaseAddAll) => " Database Add All ",
        IdKey::Other(IdKeyOther::DatabaseAddSelected) => " Database Add Selected ",
        IdKey::Other(IdKeyOther::PodcastMarkPlayed) => " Episode Mark Played",
        IdKey::Other(IdKeyOther::PodcastMarkAllPlayed) => " Episode mark all played ",
        IdKey::Other(IdKeyOther::PodcastEpDownload) => " Episode download",
        IdKey::Other(IdKeyOther::PodcastEpDeleteFile) => " Episode delete file ",
        IdKey::Other(IdKeyOther::PodcastDeleteFeed) => " Podcast delete feed ",
        IdKey::Other(IdKeyOther::PodcastDeleteAllFeeds) => " Delete all feeds ",
        IdKey::Other(IdKeyOther::PodcastSearchAddFeed) => " Podcast search add feed ",
        IdKey::Other(IdKeyOther::PodcastRefreshFeed) => " Refresh feed ",
        IdKey::Other(IdKeyOther::PodcastRefreshAllFeeds) => " Refresh all feeds ",
    }
}

} // verus!
