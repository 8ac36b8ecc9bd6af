use termusic::select_states::{ComboCmd, ComboCmdResult, ComboState, KeyCombo, KeyModifierSet, MyModifiers, SelectStates};

#[test]
fn test_components_select_states() {
    let mut states: SelectStates = SelectStates::default();
    assert_eq!(states.selected, 0);
    assert_eq!(states.choices.len(), 0);
    assert_eq!(states.tab_open, false);
    let choices = [
        "lemon".to_string(),
        "strawberry".to_string(),
        "vanilla".to_string(),
        "chocolate".to_string(),
    ]
    .to_vec();
    states.set_choices(choices);
    assert_eq!(states.selected, 0);
    assert_eq!(states.choices.len(), 4);
    // Move
    states.prev_choice(false);
    assert_eq!(states.selected, 0);
    states.next_choice(false);
    // Tab is closed!!!
    assert_eq!(states.selected, 0);
    states.open_tab();
    assert_eq!(states.is_tab_open(), true);
    // Now we can move
    states.next_choice(false);
    assert_eq!(states.selected, 1);
    states.next_choice(false);
    assert_eq!(states.selected, 2);
    // Forward overflow
    states.next_choice(false);
    states.next_choice(false);
    assert_eq!(states.selected, 3);
    states.prev_choice(false);
    assert_eq!(states.selected, 2);
    // Close tab
    states.close_tab();
    assert_eq!(states.is_tab_open(), false);
    states.prev_choice(false);
    assert_eq!(states.selected, 2);
    // Update
    let choices = ["lemon".to_string(), "strawberry".to_string()].to_vec();
    states.set_choices(choices);
    assert_eq!(states.selected, 1); // Move to first index available
    assert_eq!(states.choices.len(), 2);
    let choices = Vec::new();
    states.set_choices(choices);
    assert_eq!(states.selected, 0); // Move to first index available
    assert_eq!(states.choices.len(), 0);
    // Rewind
    let choices = [
        "lemon".to_string(),
        "strawberry".to_string(),
        "vanilla".to_string(),
        "chocolate".to_string(),
    ]
    .to_vec();
    states.set_choices(choices);
    states.open_tab();
    assert_eq!(states.selected, 0);
    states.prev_choice(true);
    assert_eq!(states.selected, 3);
    states.next_choice(true);
    assert_eq!(states.selected, 0);
    states.next_choice(true);
    assert_eq!(states.selected, 1);
    states.prev_choice(true);
    assert_eq!(states.selected, 0);
    // Cancel tab
    states.close_tab();
    states.select(2);
    states.open_tab();
    states.prev_choice(true);
    states.prev_choice(true);
    assert_eq!(states.selected, 0);
    states.cancel_tab();
    assert_eq!(states.selected, 2);
    assert_eq!(states.is_tab_open(), false);
}

#[test]
fn test_components_select() {
    // Make component
    let mut component = KeyCombo::new(
        vec!["Oui!".to_string(), "Non".to_string(), "Peut-être".to_string()],
        1,
        false,
    );
    assert_eq!(component.states.is_tab_open(), false);
    component.states.open_tab();
    assert_eq!(component.states.is_tab_open(), true);
    component.states.close_tab();
    assert_eq!(component.states.is_tab_open(), false);
    // Update
    component.states.select(2);
    // Get value
    assert_eq!(component.state(), ComboState::One(2));
    // Open tab
    component.states.open_tab();
    // Move cursor
    assert_eq!(component.perform(ComboCmd::MoveUp), ComboCmdResult::Changed(ComboState::One(1)));
    assert_eq!(component.perform(ComboCmd::MoveUp), ComboCmdResult::Changed(ComboState::One(0)));
    // Upper boundary
    assert_eq!(component.perform(ComboCmd::MoveUp), ComboCmdResult::Changed(ComboState::One(0)));
    // Move down
    assert_eq!(component.perform(ComboCmd::MoveDown), ComboCmdResult::Changed(ComboState::One(1)));
    assert_eq!(component.perform(ComboCmd::MoveDown), ComboCmdResult::Changed(ComboState::One(2)));
    // Lower boundary
    assert_eq!(component.perform(ComboCmd::MoveDown), ComboCmdResult::Changed(ComboState::One(2)));
    // Press enter
    assert_eq!(component.perform(ComboCmd::Submit), ComboCmdResult::Submit(ComboState::One(2)));
    // Tab should be closed
    assert_eq!(component.states.is_tab_open(), false);
    // Re open
    assert_eq!(component.perform(ComboCmd::Submit), ComboCmdResult::Changed(ComboState::Unset));
    assert_eq!(component.states.is_tab_open(), true);
    // Move arrows
    assert_eq!(component.perform(ComboCmd::Submit), ComboCmdResult::Submit(ComboState::One(2)));
    assert_eq!(component.states.is_tab_open(), false);
    assert_eq!(component.perform(ComboCmd::MoveDown), ComboCmdResult::Unchanged);
    assert_eq!(component.perform(ComboCmd::MoveUp), ComboCmdResult::Unchanged);
}

#[test]
fn modifier_names() {
    let names: Vec<&str> = MyModifiers::list().into_iter().map(|m| m.as_str()).collect();
    assert_eq!(
        names,
        vec!["none", "shift", "control", "alt", "ctrl_shift", "alt_shift", "ctrl_alt", "ctrl_alt_shift"]
    );
}

#[test]
fn modifier_list_index_round_trip() {
    for (i, m) in MyModifiers::list().into_iter().enumerate() {
        assert_eq!(MyModifiers::from_modifier_list_index(m.as_modifier()), i);
    }
    assert_eq!(
        MyModifiers::from_modifier_list_index(KeyModifierSet { shift: false, control: false, alt: false }),
        0
    );
}

#[test]
fn open_then_cancel_restores_selection() {
    let mut states = SelectStates::default();
    states.set_choices(vec!["a".to_string(), "b".to_string(), "c".to_string()]);
    states.select(1);
    states.open_tab();
    states.next_choice(false);
    assert_eq!(states.selected, 2);
    states.cancel_tab();
    assert_eq!(states.selected, 1);
    assert!(!states.is_tab_open());
}

#[test]
fn select_out_of_bounds_is_ignored() {
    let mut states = SelectStates::default();
    states.set_choices(vec!["a".to_string(), "b".to_string()]);
    states.select(5);
    assert_eq!(states.selected, 0);
    states.select(1);
    assert_eq!(states.selected, 1);
}

#[test]
fn cancel_reports_selection() {
    let mut combo = KeyCombo::new(vec!["x".to_string(), "y".to_string()], 0, true);
    assert_eq!(combo.perform(ComboCmd::Submit), ComboCmdResult::Changed(ComboState::Unset));
    assert_eq!(combo.perform(ComboCmd::MoveUp), ComboCmdResult::Changed(ComboState::One(1)));
    assert_eq!(combo.perform(ComboCmd::Cancel), ComboCmdResult::Changed(ComboState::One(0)));
}
