//! The key-binding editor field (`KeyCombo`): its modifier choice list
//! (`SelectStates`), the modifier names it offers, and the key name typed into it.
use vstd::prelude::*;

use crate::input_states::{
    append_spec, backspace_spec, decr_cursor_spec, delete_spec, incr_cursor_spec, typed_text,
    InputStates, InputView,
};

verus! {

/// The keyboard modifier combinations that a key binding may use.
#[derive(Debug, Clone, Copy, PartialEq, Eq, Structural)]
pub enum MyModifiers {
    NoModifier,
    Shift,
    Control,
    Alt,
    ControlShift,
    AltShift,
    ControlAlt,
    ControlAltShift,
}

/// The name under which a modifier combination is shown and stored.
pub open spec fn modifier_name(m: MyModifiers) -> Seq<char> {
    match m {
        MyModifiers::NoModifier => "none"@,
        MyModifiers::Shift => "shift"@,
        MyModifiers::Control => "control"@,
        MyModifiers::Alt => "alt"@,
        MyModifiers::ControlShift => "ctrl_shift"@,
        MyModifiers::AltShift => "alt_shift"@,
        MyModifiers::ControlAlt => "ctrl_alt"@,
        MyModifiers::ControlAltShift => "ctrl_alt_shift"@,
    }
}

impl MyModifiers {
    /// The name of this modifier combination.
    pub fn as_str(self) -> (s: &'static str)
        ensures
            s@ == modifier_name(self),
    {
        match self {
            MyModifiers::NoModifier => "none",
            MyModifiers::Shift => "shift",
            MyModifiers::Control => "control",
            MyModifiers::Alt => "alt",
            MyModifiers::ControlShift => "ctrl_shift",
            MyModifiers::AltShift => "alt_shift",
            MyModifiers::ControlAlt => "ctrl_alt",
            MyModifiers::ControlAltShift => "ctrl_alt_shift",
        }
    }
}

} // verus!

verus! {

/// A set of keyboard modifiers, as the key events carry them.
#[derive(Debug, Clone, Copy, PartialEq, Eq, Structural)]
pub struct KeyModifierSet {
    pub shift: bool,
    pub control: bool,
    pub alt: bool,
}

/// The modifier set that a modifier combination stands for.
pub open spec fn modifier_set(m: MyModifiers) -> KeyModifierSet {
    match m {
        MyModifiers::NoModifier => KeyModifierSet { shift: false, control: false, alt: false },
        MyModifiers::Shift => KeyModifierSet { shift: true, control: false, alt: false },
        MyModifiers::Control => KeyModifierSet { shift: false, control: true, alt: false },
        MyModifiers::Alt => KeyModifierSet { shift: false, control: false, alt: true },
        MyModifiers::ControlShift => KeyModifierSet { shift: true, control: true, alt: false },
        MyModifiers::AltShift => KeyModifierSet { shift: true, control: false, alt: true },
        MyModifiers::ControlAlt => KeyModifierSet { shift: false, control: true, alt: true },
        MyModifiers::ControlAltShift => KeyModifierSet { shift: true, control: true, alt: true },
    }
}

/// The order in which the modifier combinations are offered in the choice list.
pub open spec fn modifier_list() -> Seq<MyModifiers> {
    seq![
        MyModifiers::NoModifier,
        MyModifiers::Shift,
        MyModifiers::Control,
        MyModifiers::Alt,
        MyModifiers::ControlShift,
        MyModifiers::AltShift,
        MyModifiers::ControlAlt,
        MyModifiers::ControlAltShift,
    ]
}

/// The position in [`modifier_list`] of the combination that equals `m`, or `0`.
pub open spec fn modifier_list_index(m: KeyModifierSet) -> nat {
    if m == modifier_set(MyModifiers::Shift) {
        1
    } else if m == modifier_set(MyModifiers::Control) {
        2
    } else if m == modifier_set(MyModifiers::Alt) {
        3
    } else if m == modifier_set(MyModifiers::ControlShift) {
        4
    } else if m == modifier_set(MyModifiers::AltShift) {
        5
    } else if m == modifier_set(MyModifiers::ControlAlt) {
        6
    } else if m == modifier_set(MyModifiers::ControlAltShift) {
        7
    } else {
        0
    }
}

impl MyModifiers {
    /// All modifier combinations, in the order of the choice list.
    pub fn list() -> (v: Vec<MyModifiers>)
        ensures
            v@ == modifier_list(),
    {
        let v = vec![
            MyModifiers::NoModifier,
            MyModifiers::Shift,
            MyModifiers::Control,
            MyModifiers::Alt,
            MyModifiers::ControlShift,
            MyModifiers::AltShift,
            MyModifiers::ControlAlt,
            MyModifiers::ControlAltShift,
        ];
        assert(v@ =~= modifier_list());
        v
    }

    /// The index in [`MyModifiers::list`] for the given modifier set; `0` for an unknown set.
    pub fn from_modifier_list_index(val: KeyModifierSet) -> (i: usize)
        ensures
            i == modifier_list_index(val),
    {
        if val.shift && !val.control && !val.alt {
            1
        } else if !val.shift && val.control && !val.alt {
            2
        } else if !val.shift && !val.control && val.alt {
            3
        } else if val.shift && val.control && !val.alt {
            4
        } else if val.shift && !val.control && val.alt {
            5
        } else if !val.shift && val.control && val.alt {
            6
        } else if val.shift && val.control && val.alt {
            7
        } else {
            0
        }
    }

    /// The modifier set this combination stands for.
    pub fn as_modifier(self) -> (m: KeyModifierSet)
        ensures
            m == modifier_set(self),
    {
        match self {
            MyModifiers::NoModifier => KeyModifierSet { shift: false, control: false, alt: false },
            MyModifiers::Shift => KeyModifierSet { shift: true, control: false, alt: false },
            MyModifiers::Control => KeyModifierSet { shift: false, control: true, alt: false },
            MyModifiers::Alt => KeyModifierSet { shift: false, control: false, alt: true },
            MyModifiers::ControlShift => KeyModifierSet { shift: true, control: true, alt: false },
            MyModifiers::AltShift => KeyModifierSet { shift: true, control: false, alt: true },
            MyModifiers::ControlAlt => KeyModifierSet { shift: false, control: true, alt: true },
            MyModifiers::ControlAltShift => KeyModifierSet { shift: true, control: true, alt: true },
        }
    }
}

/// Each combination in the choice list is found again at its own position from its modifier set.
pub proof fn lemma_modifier_list_index_round_trip(i: int)
    requires
        0 <= i < 8,
    ensures
        modifier_list_index(modifier_set(modifier_list()[i])) == i,
{
}

// -- states

/// The abstract state of a choice list: the choices, the selected and the
/// previously selected index, and whether the list is open.
pub struct SelectView {
    pub choices: Seq<Seq<char>>,
    pub selected: nat,
    pub previously_selected: nat,
    pub tab_open: bool,
}

/// Component states of a choice list.
pub struct SelectStates {
    /// Available choices
    pub choices: Vec<String>,
    /// Currently selected choice
    pub selected: usize,
    /// Choice selected before opening the tab
    pub previously_selected: usize,
    pub tab_open: bool,
}

/// The selection after moving to the next choice.
pub open spec fn next_choice_spec(v: SelectView, rewind: bool) -> SelectView {
    if v.tab_open {
        if rewind && v.selected + 1 >= v.choices.len() {
            SelectView { selected: 0, ..v }
        } else if v.selected + 1 < v.choices.len() {
            SelectView { selected: v.selected + 1, ..v }
        } else {
            v
        }
    } else {
        v
    }
}

/// The selection after moving to the previous choice.
pub open spec fn prev_choice_spec(v: SelectView, rewind: bool) -> SelectView {
    if v.tab_open {
        if rewind && v.selected == 0 && v.choices.len() > 0 {
            SelectView { selected: (v.choices.len() - 1) as nat, ..v }
        } else if v.selected > 0 {
            SelectView { selected: (v.selected - 1) as nat, ..v }
        } else {
            v
        }
    } else {
        v
    }
}

/// The state after replacing the choices: the index is kept where possible, else
/// clamped to the last choice (or `0` for no choices).
pub open spec fn set_choices_spec(v: SelectView, choices: Seq<Seq<char>>) -> SelectView {
    SelectView {
        choices,
        selected: if v.selected >= choices.len() {
            if choices.len() == 0 { 0 } else { (choices.len() - 1) as nat }
        } else {
            v.selected
        },
        ..v
    }
}

/// The state after selecting index `i`, which only takes effect within bounds.
pub open spec fn select_spec(v: SelectView, i: nat) -> SelectView {
    if i < v.choices.len() {
        SelectView { selected: i, ..v }
    } else {
        v
    }
}

/// The state after closing the list.
pub open spec fn close_tab_spec(v: SelectView) -> SelectView {
    SelectView { tab_open: false, ..v }
}

/// The state after opening the list, which remembers the current selection.
pub open spec fn open_tab_spec(v: SelectView) -> SelectView {
    SelectView { previously_selected: v.selected, tab_open: true, ..v }
}

/// The state after cancelling: the list closes and the remembered selection returns.
pub open spec fn cancel_tab_spec(v: SelectView) -> SelectView {
    SelectView { tab_open: false, selected: v.previously_selected, ..v }
}

/// The selection is within the choices, or `0` when there are none.
pub open spec fn selection_in_bounds(v: SelectView) -> bool {
    v.selected < v.choices.len() || (v.choices.len() == 0 && v.selected == 0)
}

impl SelectStates {
    /// The abstract state of this choice list.
    pub open spec fn view(&self) -> SelectView {
        SelectView {
            choices: self.choices@.map_values(|s: String| s@),
            selected: self.selected as nat,
            previously_selected: self.previously_selected as nat,
            tab_open: self.tab_open,
        }
    }

    /// ### `next_choice`
    ///
    /// Move choice index to next choice
    pub fn next_choice(&mut self, rewind: bool)
        requires
            old(self).tab_open ==> old(self).selected < usize::MAX,
        ensures
            final(self).view() == next_choice_spec(old(self).view(), rewind),
            final(self).choices == old(self).choices,
    {
        if self.tab_open {
            if rewind && self.selected + 1 >= self.choices.len() {
                self.selected = 0;
            } else if self.selected + 1 < self.choices.len() {
                self.selected += 1;
            }
        }
    }

    /// ### `prev_choice`
    ///
    /// Move choice index to previous choice
    pub fn prev_choice(&mut self, rewind: bool)
        ensures
            final(self).view() == prev_choice_spec(old(self).view(), rewind),
            final(self).choices == old(self).choices,
    {
        if self.tab_open {
            if rewind && self.selected == 0 && !self.choices.is_empty() {
                self.selected = self.choices.len() - 1;
            } else if self.selected > 0 {
                self.selected -= 1;
            }
        }
    }

    /// ### `set_choices`
    ///
    /// Set `SelectStates` choices from a vector of str
    /// In addition resets current selection and keep index if possible or set it to the first value
    /// available
    pub fn set_choices(&mut self, choices: Vec<String>)
        ensures
            final(self).view() == set_choices_spec(old(self).view(), choices@.map_values(|s: String| s@)),
            final(self).choices == choices,
    {
        self.choices = choices;
        // Keep index if possible
        if self.selected >= self.choices.len() {
            self.selected = match self.choices.len() {
                0 => 0,
                l => l - 1,
            };
        }
    }

    pub fn select(&mut self, i: usize)
        ensures
            final(self).view() == select_spec(old(self).view(), i as nat),
            final(self).choices == old(self).choices,
    {
        if i < self.choices.len() {
            self.selected = i;
        }
    }

    /// ### `close_tab`
    ///
    /// Close tab
    pub fn close_tab(&mut self)
        ensures
            final(self).view() == close_tab_spec(old(self).view()),
            final(self).choices == old(self).choices,
    {
        self.tab_open = false;
    }

    /// ### `open_tab`
    ///
    /// Open tab
    pub fn open_tab(&mut self)
        ensures
            final(self).view() == open_tab_spec(old(self).view()),
            final(self).choices == old(self).choices,
    {
        self.previously_selected = self.selected;
        self.tab_open = true;
    }

    /// Cancel tab open
    pub fn cancel_tab(&mut self)
        ensures
            final(self).view() == cancel_tab_spec(old(self).view()),
            final(self).choices == old(self).choices,
    {
        self.close_tab();
        self.selected = self.previously_selected;
    }

    /// ### `is_tab_open`
    ///
    /// Returns whether the tab is open
    pub fn is_tab_open(&self) -> (b: bool)
        ensures
            b == self.tab_open,
    {
        self.tab_open
    }
}

impl Default for SelectStates {
    fn default() -> (s: Self)
        ensures
            s.choices@.len() == 0,
            s.selected == 0,
            s.previously_selected == 0,
            !s.tab_open,
    {
        SelectStates { choices: Vec::new(), selected: 0, previously_selected: 0, tab_open: false }
    }
}

/// Opening the list and cancelling right away leaves the selection where it was, and the list closed.
pub proof fn lemma_open_then_cancel_restores(v: SelectView)
    ensures
        cancel_tab_spec(open_tab_spec(v)).selected == v.selected,
        !cancel_tab_spec(open_tab_spec(v)).tab_open,
        cancel_tab_spec(open_tab_spec(v)).choices == v.choices,
{
}

/// Moving, selecting, replacing the choices and opening or closing the list keep
/// the selection within the choices.
pub proof fn lemma_selection_stays_in_bounds(v: SelectView, rewind: bool, i: nat, choices: Seq<Seq<char>>)
    requires
        selection_in_bounds(v),
    ensures
        selection_in_bounds(next_choice_spec(v, rewind)),
        selection_in_bounds(prev_choice_spec(v, rewind)),
        selection_in_bounds(select_spec(v, i)),
        selection_in_bounds(open_tab_spec(v)),
        selection_in_bounds(close_tab_spec(v)),
        selection_in_bounds(set_choices_spec(v, choices)),
{
}

/// With rewinding, moving forward and then back (or back and then forward) returns
/// to the same choice, while the list is open.
pub proof fn lemma_rewind_next_prev_inverse(v: SelectView)
    requires
        v.tab_open,
        v.selected < v.choices.len(),
    ensures
        prev_choice_spec(next_choice_spec(v, true), true).selected == v.selected,
        next_choice_spec(prev_choice_spec(v, true), true).selected == v.selected,
{
}

/// A closed list does not move.
pub proof fn lemma_closed_list_does_not_move(v: SelectView, rewind: bool)
    requires
        !v.tab_open,
    ensures
        next_choice_spec(v, rewind) == v,
        prev_choice_spec(v, rewind) == v,
{
}

} // verus!

verus! {

/// What a choice list reports: nothing while the list is open, the selected index otherwise.
#[derive(Debug, Clone, Copy, PartialEq, Eq, Structural)]
pub enum ComboState {
    Unset,
    One(usize),
}

/// The commands a key combination field reacts to: on its choice list, and on
/// the typed key name.
#[derive(Debug, Clone, Copy, PartialEq, Eq, Structural)]
pub enum ComboCmd {
    MoveUp,
    MoveDown,
    Cancel,
    Submit,
    /// Type a character at the cursor.
    Type(char),
    /// Remove the character before the cursor.
    Delete,
    /// Remove the character under the cursor.
    DeleteAtCursor,
    MoveLeft,
    MoveRight,
    GoToBegin,
    GoToEnd,
}

/// The outcome of a command on a key combination field.
#[derive(Debug, Clone, Copy, PartialEq, Eq, Structural)]
pub enum ComboCmdResult {
    Unchanged,
    Changed(ComboState),
    Submit(ComboState),
}

/// The key-binding editor field: the modifier choice list, whether moving past
/// either end of it wraps around, the typed key name, and how long that name
/// may grow.
pub struct KeyCombo {
    pub states: SelectStates,
    pub rewind: bool,
    pub input: InputStates,
    pub input_len: Option<usize>,
}

/// A key combination field as values.
pub struct KeyComboView {
    pub select: SelectView,
    pub rewind: bool,
    pub input: InputView,
    pub input_len: Option<usize>,
}

impl View for KeyCombo {
    type V = KeyComboView;

    open spec fn view(&self) -> KeyComboView {
        KeyComboView {
            select: self.states.view(),
            rewind: self.rewind,
            input: self.input@,
            input_len: self.input_len,
        }
    }
}

/// What the field reports for the given state.
pub open spec fn combo_state_of(v: SelectView) -> ComboState {
    if v.tab_open {
        ComboState::Unset
    } else {
        ComboState::One(v.selected as usize)
    }
}

/// The state and outcome of a command on the choice list of a key combination field.
pub open spec fn combo_perform_spec(v: SelectView, rewind: bool, cmd: ComboCmd) -> (SelectView, ComboCmdResult) {
    match cmd {
        ComboCmd::MoveDown => {
            let n = next_choice_spec(v, rewind);
            (n, if n.tab_open { ComboCmdResult::Changed(ComboState::One(n.selected as usize)) } else { ComboCmdResult::Unchanged })
        },
        ComboCmd::MoveUp => {
            let n = prev_choice_spec(v, rewind);
            (n, if n.tab_open { ComboCmdResult::Changed(ComboState::One(n.selected as usize)) } else { ComboCmdResult::Unchanged })
        },
        ComboCmd::Cancel => {
            let n = cancel_tab_spec(v);
            (n, ComboCmdResult::Changed(combo_state_of(n)))
        },
        ComboCmd::Submit => {
            if v.tab_open {
                let n = close_tab_spec(v);
                (n, ComboCmdResult::Submit(combo_state_of(n)))
            } else {
                let n = open_tab_spec(v);
                (n, ComboCmdResult::Changed(combo_state_of(n)))
            }
        },
        _ => (v, ComboCmdResult::Unchanged),
    }
}

/// Whether a command works on the typed key name rather than the choice list.
pub open spec fn is_input_cmd(cmd: ComboCmd) -> bool {
    !(cmd is MoveUp || cmd is MoveDown || cmd is Cancel || cmd is Submit)
}

/// The typed key name after a command on it.
pub open spec fn input_perform_spec(v: InputView, max_len: Option<usize>, cmd: ComboCmd) -> InputView {
    match cmd {
        ComboCmd::Type(ch) => append_spec(v, ch, max_len),
        ComboCmd::Delete => backspace_spec(v),
        ComboCmd::DeleteAtCursor => delete_spec(v),
        ComboCmd::MoveLeft => decr_cursor_spec(v),
        ComboCmd::MoveRight => incr_cursor_spec(v),
        ComboCmd::GoToBegin => InputView { input: v.input, cursor: 0 },
        ComboCmd::GoToEnd => InputView { input: v.input, cursor: v.input.len() },
        _ => v,
    }
}

/// The state and outcome of any command on a key combination field: the list
/// commands act on the choice list; the others on the typed name, and they
/// report a change when they move the cursor or change the name's length.
pub open spec fn key_combo_perform_spec(v: KeyComboView, cmd: ComboCmd) -> (KeyComboView, ComboCmdResult) {
    if is_input_cmd(cmd) {
        let n = input_perform_spec(v.input, v.input_len, cmd);
        let edits = cmd is Type || cmd is Delete || cmd is DeleteAtCursor;
        (
            KeyComboView { input: n, ..v },
            if edits && n.input.len() == v.input.input.len() {
                ComboCmdResult::Unchanged
            } else {
                ComboCmdResult::Changed(combo_state_of(v.select))
            },
        )
    } else {
        let (s, r) = combo_perform_spec(v.select, v.rewind, cmd);
        (KeyComboView { select: s, ..v }, r)
    }
}

impl KeyCombo {
    /// A field with the given choices, the given index selected (if within the
    /// choices), the given wrap-around behaviour, no typed name and no limit on it.
    pub fn new(choices: Vec<String>, value: usize, rewind: bool) -> (k: Self)
        ensures
            k.states.view() == select_spec(
                set_choices_spec(
                    SelectView { choices: Seq::empty(), selected: 0, previously_selected: 0, tab_open: false },
                    choices@.map_values(|s: String| s@),
                ),
                value as nat,
            ),
            k.rewind == rewind,
            k.input@ == (InputView { input: Seq::empty(), cursor: 0 }),
            k.input_len is None,
    {
        let mut states = SelectStates::default();
        states.set_choices(choices);
        states.select(value);
        KeyCombo { states, rewind, input: InputStates::new(), input_len: None }
    }

    /// Show the choice at `i` and the key name `s`, with the cursor at its start.
    pub fn value(&mut self, i: usize, s: &str)
        ensures
            final(self).states.view() == select_spec(old(self).states.view(), i as nat),
            final(self).input@ == (InputView { input: typed_text(s@, old(self).input_len).input, cursor: 0 }),
            final(self).rewind == old(self).rewind,
            final(self).input_len == old(self).input_len,
            final(self).input.wf(),
    {
        self.input.set_value(s, self.input_len);
        self.states.select(i);
        self.input.cursor_at_begin();
    }

    /// What the field reports: nothing while the list is open, the selected index otherwise.
    pub fn state(&self) -> (s: ComboState)
        ensures
            s == combo_state_of(self.states.view()),
    {
        if self.states.is_tab_open() {
            ComboState::Unset
        } else {
            ComboState::One(self.states.selected)
        }
    }

    /// Apply a command to the field.
    pub fn perform(&mut self, cmd: ComboCmd) -> (r: ComboCmdResult)
        requires
            old(self).states.tab_open ==> old(self).states.selected < usize::MAX,
            old(self).input.wf(),
        ensures
            (final(self)@, r) == key_combo_perform_spec(old(self)@, cmd),
            final(self).input.wf(),
    {
        match cmd {
            ComboCmd::MoveDown => {
                self.states.next_choice(self.rewind);
                if self.states.is_tab_open() {
                    ComboCmdResult::Changed(ComboState::One(self.states.selected))
                } else {
                    ComboCmdResult::Unchanged
                }
            },
            ComboCmd::MoveUp => {
                self.states.prev_choice(self.rewind);
                if self.states.is_tab_open() {
                    ComboCmdResult::Changed(ComboState::One(self.states.selected))
                } else {
                    ComboCmdResult::Unchanged
                }
            },
            ComboCmd::Cancel => {
                self.states.cancel_tab();
                ComboCmdResult::Changed(self.state())
            },
            ComboCmd::Submit => {
                if self.states.is_tab_open() {
                    self.states.close_tab();
                    ComboCmdResult::Submit(self.state())
                } else {
                    self.states.open_tab();
                    ComboCmdResult::Changed(self.state())
                }
            },
            ComboCmd::Type(ch) => {
                let prev_len = self.input.input.len();
                self.input.append(ch, self.input_len);
                if prev_len == self.input.input.len() {
                    ComboCmdResult::Unchanged
                } else {
                    ComboCmdResult::Changed(self.state())
                }
            },
            ComboCmd::Delete => {
                let prev_len = self.input.input.len();
                self.input.backspace();
                if prev_len == self.input.input.len() {
                    ComboCmdResult::Unchanged
                } else {
                    ComboCmdResult::Changed(self.state())
                }
            },
            ComboCmd::DeleteAtCursor => {
                let prev_len = self.input.input.len();
                self.input.delete();
                if prev_len == self.input.input.len() {
                    ComboCmdResult::Unchanged
                } else {
                    ComboCmdResult::Changed(self.state())
                }
            },
            ComboCmd::MoveLeft => {
                self.input.decr_cursor();
                ComboCmdResult::Changed(self.state())
            },
            ComboCmd::MoveRight => {
                self.input.incr_cursor();
                ComboCmdResult::Changed(self.state())
            },
            ComboCmd::GoToBegin => {
                self.input.cursor_at_begin();
                ComboCmdResult::Changed(self.state())
            },
            ComboCmd::GoToEnd => {
                self.input.cursor_at_end();
                ComboCmdResult::Changed(self.state())
            },
        }
    }
}

/// Submitting twice (open, then confirm) reports the selection that was there before opening.
pub proof fn lemma_submit_twice_confirms(v: SelectView, rewind: bool)
    requires
        !v.tab_open,
        v.selected <= usize::MAX,
    ensures
        ({
            let (v1, r1) = combo_perform_spec(v, rewind, ComboCmd::Submit);
            let (v2, r2) = combo_perform_spec(v1, rewind, ComboCmd::Submit);
            &&& r1 == ComboCmdResult::Changed(ComboState::Unset)
            &&& r2 == ComboCmdResult::Submit(ComboState::One(v.selected as usize))
            &&& !v2.tab_open
        }),
{
}

} // verus!
