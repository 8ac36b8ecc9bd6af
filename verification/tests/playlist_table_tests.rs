use termusic::playlist_table::{
    Column, Direction, ListInfo, ListValueRenderReturn, PlaylistTable, PlaylistTableState, Position, TableCmd,
    TableCmdResult,
};

#[test]
fn should_work_basic() {
    let data = ListInfo::with_len(1);
    let mut table = PlaylistTable::new(data).columns(vec![
        Column::new("", 1, 1),
        Column::new("Col 1", 1, 5),
        Column::new("Col 2", 1, 5),
        Column::new("Col 3", 1, 5),
    ]);

    assert_eq!(table.selected(), None);
    assert_eq!(table.state().get_item_offset(), 0);

    table.perform(TableCmd::Move(Direction::Down));

    assert_eq!(table.selected(), Some(0));
    assert_eq!(table.state().get_item_offset(), 0);
}

#[test]
fn empty_table_ignores_commands() {
    let mut table = PlaylistTable::new(ListInfo::with_len(0));
    assert_eq!(table.perform(TableCmd::Move(Direction::Down)), TableCmdResult::NoChange);
    assert_eq!(table.perform(TableCmd::GoTo(Position::End)), TableCmdResult::NoChange);
    assert_eq!(table.perform(TableCmd::Submit), TableCmdResult::Invalid(TableCmd::Submit));
    assert_eq!(table.selected(), None);
}

#[test]
fn move_left_is_invalid() {
    let mut table = PlaylistTable::new(ListInfo::with_len(3));
    assert_eq!(
        table.perform(TableCmd::Move(Direction::Left)),
        TableCmdResult::Invalid(TableCmd::Move(Direction::Left))
    );
}

#[test]
fn selection_does_not_pass_the_end() {
    let mut table = PlaylistTable::new(ListInfo::with_len(2));
    assert_eq!(table.perform(TableCmd::Move(Direction::Down)), TableCmdResult::Visual);
    assert_eq!(table.perform(TableCmd::Move(Direction::Down)), TableCmdResult::Visual);
    assert_eq!(table.selected(), Some(1));
    assert_eq!(table.perform(TableCmd::Move(Direction::Down)), TableCmdResult::NoChange);
    assert_eq!(table.selected(), Some(1));
    assert_eq!(table.perform(TableCmd::Move(Direction::Up)), TableCmdResult::Visual);
    assert_eq!(table.selected(), Some(0));
}

#[test]
fn goto_end_and_begin() {
    let mut table = PlaylistTable::new(ListInfo::with_len(50));
    table.state_mut().set_last_size_data(11);
    assert_eq!(table.perform(TableCmd::GoTo(Position::End)), TableCmdResult::Visual);
    assert_eq!(table.selected(), Some(49));
    // height 10, preview 2: the selection is the 8th line of the view
    assert_eq!(table.state().get_item_offset(), 41);
    assert_eq!(table.perform(TableCmd::GoTo(Position::Begin)), TableCmdResult::Visual);
    assert_eq!(table.selected(), Some(0));
    assert_eq!(table.state().get_item_offset(), 0);
    assert_eq!(table.perform(TableCmd::GoTo(Position::Begin)), TableCmdResult::NoChange);
}

#[test]
fn goto_at_out_of_bounds_keeps_selection() {
    let mut table = PlaylistTable::new(ListInfo::with_len(5));
    table.perform(TableCmd::GoTo(Position::At(3)));
    assert_eq!(table.selected(), Some(3));
    assert_eq!(table.perform(TableCmd::GoTo(Position::At(9))), TableCmdResult::NoChange);
    assert_eq!(table.selected(), Some(3));
}

#[test]
fn page_down_and_up() {
    let mut table = PlaylistTable::new(ListInfo::with_len(100));
    table.state_mut().set_last_size_data(11);
    table.perform(TableCmd::Move(Direction::Down));
    assert_eq!(table.selected(), Some(0));
    // first page down selects the last line of the view minus the preview distance
    table.perform(TableCmd::PageDown);
    assert_eq!(table.selected(), Some(8));
    // second page down moves by the height minus the preview distance
    table.perform(TableCmd::PageDown);
    assert_eq!(table.selected(), Some(16));
    assert_eq!(table.state().get_item_offset(), 8);
    table.perform(TableCmd::PageUp);
    assert_eq!(table.selected(), Some(10));
    table.perform(TableCmd::PageUp);
    assert_eq!(table.selected(), Some(2));
}

#[test]
fn page_down_is_clamped_to_the_last_item() {
    let mut table = PlaylistTable::new(ListInfo::with_len(5));
    table.state_mut().set_last_size_data(21);
    table.perform(TableCmd::Move(Direction::Down));
    table.perform(TableCmd::PageDown);
    assert_eq!(table.selected(), Some(4));
}

#[test]
fn fallback_selection_is_used() {
    let data = ListInfo { len: Some(10), empty: false, fallback: 6 };
    let mut table = PlaylistTable::new(data);
    table.perform(TableCmd::Move(Direction::Up));
    assert_eq!(table.selected(), Some(6));
}

#[test]
fn scrolling_keeps_selection_in_view() {
    let mut table = PlaylistTable::new(ListInfo::with_len(100)).vertical_scroll_step(4);
    table.state_mut().set_last_size_data(11);
    table.perform(TableCmd::GoTo(Position::At(20)));
    let offset = table.state().get_item_offset();
    assert_eq!(offset, 12);
    table.perform(TableCmd::Scroll(Direction::Down));
    assert_eq!(table.state().get_item_offset(), 16);
    table.perform(TableCmd::Scroll(Direction::Down));
    assert_eq!(table.state().get_item_offset(), 18);
    table.perform(TableCmd::Scroll(Direction::Up));
    assert_eq!(table.state().get_item_offset(), 14);
    table.perform(TableCmd::Scroll(Direction::Up));
    assert_eq!(table.state().get_item_offset(), 12);
    assert_eq!(table.selected(), Some(20));
}

#[test]
fn horizontal_scroll_and_reset() {
    let mut table = PlaylistTable::new(ListInfo::with_len(3));
    table.perform(TableCmd::Scroll(Direction::Right));
    table.perform(TableCmd::Scroll(Direction::Right));
    assert_eq!(table.state().get_offset_horiz(), 2);
    table.perform(TableCmd::Scroll(Direction::Left));
    assert_eq!(table.state().get_offset_horiz(), 1);
    table.perform(TableCmd::Move(Direction::Down));
    table.reset_state();
    assert_eq!(table.selected(), None);
    assert_eq!(table.state().get_offset_horiz(), 0);
    assert_eq!(table.state().get_item_offset(), 0);
}

#[test]
fn state_select_none_unselects() {
    let mut state = PlaylistTableState::new();
    let data = ListInfo::with_len(4);
    assert_eq!(state.select(Some(2), &data), Some(2));
    assert_eq!(state.select(None, &data), None);
    assert_eq!(state.selected(), None);
}

#[test]
fn render_return_empty() {
    let r = ListValueRenderReturn::empty();
    assert_eq!(r.consumed_vertical_size, 0);
    assert!(r.done);
}

#[test]
fn column_new() {
    let c = Column::new("Title", 10, 0);
    assert_eq!(c.header_text, "Title");
    assert_eq!(c.min_size, 10);
    assert_eq!(c.max_size, 0);
}

#[test]
fn scrolling_up_at_the_top_keeps_the_selection_drawn() {
    let mut table = PlaylistTable::new(ListInfo::with_len(10));
    table.perform(TableCmd::GoTo(Position::Begin));
    assert_eq!(table.selected(), Some(0));
    table.perform(TableCmd::Scroll(Direction::Up));
    assert_eq!(table.state().get_item_offset(), 0);
}
