//! The selection and scrolling state of the playlist table: which item is
//! selected, which item is drawn first, and how commands move them.
use vstd::prelude::*;

verus! {

/// The distance to preview instead of always having the last displayed element be the selected one.
///
/// Note that this distance is reduced when there is not enough area to display.
pub const PREVIEW_DISTANCE_DEFAULT: usize = 2;

/// `a - b`, but never below zero.
pub open spec fn sat_sub(a: int, b: int) -> int {
    if a >= b { a - b } else { 0 }
}

/// The smaller of two integers.
pub open spec fn min_int(a: int, b: int) -> int {
    if a <= b { a } else { b }
}

/// The larger of two integers.
pub open spec fn max_int(a: int, b: int) -> int {
    if a >= b { a } else { b }
}

/// What a list reports about its data, for selection purposes.
#[derive(Debug, Clone, Copy)]
pub struct ListInfo {
    /// A known length, if any; selection is bounded by it.
    pub len: Option<usize>,
    /// Whether the list is empty and the empty message should be shown.
    pub empty: bool,
    /// The index to select when nothing was selected before.
    pub fallback: usize,
}

impl ListInfo {
    /// A list of known length `len`, which falls back to its first item.
    pub fn with_len(len: usize) -> (d: Self)
        ensures
            d.len == Some(len),
            d.empty == (len == 0),
            d.fallback == 0,
    {
        ListInfo { len: Some(len), empty: len == 0, fallback: 0 }
    }

    /// A known max length, if possible.
    pub fn len(&self) -> (l: Option<usize>)
        ensures
            l == self.len,
    {
        self.len
    }

    /// Whether the list is empty.
    pub fn is_empty(&self) -> (b: bool)
        ensures
            b == self.empty,
    {
        self.empty
    }

    /// Fallback selection, used when needing an initial selection when there was none previously.
    pub fn fallback_select(&self) -> (i: usize)
        ensures
            i == self.fallback,
    {
        self.fallback
    }
}

/// What drawing one item reports.
#[derive(Debug, Clone, Copy)]
pub struct ListValueRenderReturn {
    /// Indicate how much vertical space was used to draw this item.
    ///
    /// If `0` is set, this will indicate it is done.
    pub consumed_vertical_size: u16,
    /// Indicate that there is no more data following this item (even if space was used).
    pub done: bool,
}

impl ListValueRenderReturn {
    /// Indicate that no space was used and no further data can be displayed.
    pub fn empty() -> (r: Self)
        ensures
            r.consumed_vertical_size == 0,
            r.done,
    {
        ListValueRenderReturn { consumed_vertical_size: 0, done: true }
    }
}

/// A table column.
#[derive(Debug, Clone)]
pub struct Column {
    /// The text to display in the header.
    pub header_text: String,
    /// Minimal size this column should have.
    pub min_size: u16,
    /// Maximal size this column should have; `0` for no maximum.
    pub max_size: u16,
}

impl Column {
    pub fn new(title: &str, min_size: u16, max_size: u16) -> (c: Self)
        ensures
            c.header_text@ == title@,
            c.min_size == min_size,
            c.max_size == max_size,
    {
        Column { header_text: String::from_str(title), min_size, max_size }
    }
}

/// The selection and scroll state of the table.
#[derive(Debug, Clone)]
pub struct PlaylistTableState {
    /// The currently selected index.
    selected: Option<usize>,
    /// The height of the last known Table Data area (excluding block and header), if drawn yet.
    last_size_height: Option<u16>,
    /// The offset to skip while generating horizontal areas.
    display_offset_horiz: usize,
    /// Items to scroll by in a single scroll up/down step.
    vertical_scroll_step: usize,
    /// First item idx to display.
    item_offset: usize,
    /// All columns that are gonna be present.
    columns: Vec<Column>,
}

/// The last index that fits in a view of the given height (the height minus one, at least zero).
pub open spec fn view_height(last: Option<u16>) -> int {
    match last {
        Some(h) => sat_sub(h as int, 1),
        None => 0,
    }
}

/// The first drawn item after making `idx` visible, starting from `old` in a view of height `h`:
/// scrolling down leaves the preview distance below, scrolling up leaves it above.
pub open spec fn vert_offset_for(old: int, h: int, idx: int) -> int {
    if sat_sub(old + h, 2) < idx {
        sat_sub(idx, sat_sub(h, 2))
    } else if old > sat_sub(idx, 2) {
        sat_sub(idx, 2)
    } else {
        old
    }
}

impl PlaylistTableState {
    pub closed spec fn spec_selected(&self) -> Option<usize> {
        self.selected
    }

    pub closed spec fn spec_item_offset(&self) -> usize {
        self.item_offset
    }

    pub closed spec fn spec_last_height(&self) -> Option<u16> {
        self.last_size_height
    }

    pub closed spec fn spec_horiz(&self) -> usize {
        self.display_offset_horiz
    }

    pub closed spec fn spec_step(&self) -> usize {
        self.vertical_scroll_step
    }

    pub closed spec fn spec_columns(&self) -> Seq<Column> {
        self.columns@
    }

    /// The view height the state calculates with.
    pub open spec fn height(&self) -> int {
        view_height(self.spec_last_height())
    }

    /// The other fields are those of `old`.
    pub open spec fn same_layout(&self, old: Self) -> bool {
        &&& self.spec_last_height() == old.spec_last_height()
        &&& self.spec_horiz() == old.spec_horiz()
        &&& self.spec_step() == old.spec_step()
        &&& self.spec_columns() == old.spec_columns()
    }

    /// A fresh state: nothing selected, no offsets, a scroll step of one, no columns.
    pub fn new() -> (s: Self)
        ensures
            s.spec_selected() is None,
            s.spec_last_height() is None,
            s.spec_horiz() == 0,
            s.spec_step() == 1,
            s.spec_item_offset() == 0,
            s.spec_columns().len() == 0,
    {
        PlaylistTableState {
            selected: None,
            last_size_height: None,
            display_offset_horiz: 0,
            item_offset: 0,
            vertical_scroll_step: 1,
            columns: Vec::new(),
        }
    }

    fn view_height_exec(&self) -> (h: usize)
        ensures
            h == self.height(),
            h < 65536,
    {
        match self.last_size_height {
            Some(h) => h.saturating_sub(1) as usize,
            None => 0,
        }
    }

    /// Calculate and set the vertical offset for the newly given index to be within view with the least disruption.
    fn set_vert_offset(&mut self, new_idx: usize)
        requires
            old(self).item_offset + old(self).height() <= usize::MAX,
        ensures
            final(self).item_offset == vert_offset_for(old(self).item_offset as int, old(self).height(), new_idx as int),
            final(self).selected == old(self).selected,
            final(self).same_layout(*old(self)),
    {
        let height_as_usize = self.view_height_exec();
        let old_offset = self.item_offset;

        if (old_offset + height_as_usize).saturating_sub(PREVIEW_DISTANCE_DEFAULT) < new_idx {
            // downwards motion
            self.item_offset = new_idx.saturating_sub(height_as_usize.saturating_sub(PREVIEW_DISTANCE_DEFAULT));
        } else if old_offset > new_idx.saturating_sub(PREVIEW_DISTANCE_DEFAULT) {
            // upwards motion
            self.item_offset = new_idx.saturating_sub(PREVIEW_DISTANCE_DEFAULT);
        }
    }
}

/// The selection that `select` makes for `item`, starting from `sel`.
pub open spec fn select_target(sel: Option<usize>, item: Option<usize>, len: Option<usize>) -> Option<usize> {
    match item {
        None => None,
        Some(idx) => match len {
            Some(l) => if idx < l { Some(idx) } else { sel },
            None => Some(idx),
        },
    }
}

/// The first drawn item after `select` made the selection `sel`.
pub open spec fn offset_after_select(old: int, h: int, sel: Option<usize>) -> int {
    match sel {
        Some(s) => vert_offset_for(old, h, s as int),
        None => old,
    }
}

/// The page-down target from selection `c`, first drawn item `old`, view height `h`.
pub open spec fn pg_down_target(c: int, old: int, h: int, len: Option<usize>) -> int {
    let scroll_by = if sat_sub(old + h, 2) > c { sat_sub(sat_sub(old + h, 2), c) } else { sat_sub(h, 2) };
    let n = c + scroll_by;
    match len {
        Some(l) => min_int(n, sat_sub(l as int, 1)),
        None => n,
    }
}

/// The page-up target from selection `c`, first drawn item `old`, view height `h`.
pub open spec fn pg_up_target(c: int, old: int, h: int, len: Option<usize>) -> int {
    let scroll_by = if old < sat_sub(c, 2) { sat_sub(sat_sub(c, old), 2) } else { sat_sub(h, 2) };
    let n = sat_sub(c, scroll_by);
    match len {
        Some(l) => min_int(n, sat_sub(l as int, 1)),
        None => n,
    }
}

} // verus!

verus! {

impl PlaylistTableState {
    /// Select a specific item or unselect the current node by setting it to `None`.
    ///
    /// Limits to [`ListInfo::len`] if available, otherwise allows any value.
    pub fn select(&mut self, item: Option<usize>, data: &ListInfo) -> (r: Option<usize>)
        requires
            old(self).spec_item_offset() + old(self).height() <= usize::MAX,
        ensures
            r == final(self).spec_selected(),
            final(self).spec_selected() == select_target(old(self).spec_selected(), item, data.len),
            final(self).spec_item_offset() == offset_after_select(
                old(self).spec_item_offset() as int,
                old(self).height(),
                final(self).spec_selected(),
            ),
            final(self).same_layout(*old(self)),
    {
        let idx = match item {
            None => {
                self.selected = None;
                return None;
            },
            Some(idx) => idx,
        };

        match data.len() {
            Some(len) => {
                if idx < len {
                    self.selected = Some(idx);
                }
            },
            None => {
                self.selected = Some(idx);
            },
        }

        if let Some(idx) = self.selected {
            self.set_vert_offset(idx);
        }

        self.selected
    }

    /// Select the first item in the list. Resets the display offset.
    ///
    /// If the list is empty, also clears selection.
    pub fn select_first(&mut self, data: &ListInfo) -> (r: Option<usize>)
        ensures
            r == final(self).spec_selected(),
            final(self).spec_selected() == (if data.empty { None } else { Some(0usize) }),
            final(self).spec_item_offset() == 0,
            final(self).same_layout(*old(self)),
    {
        self.item_offset = 0;
        if data.is_empty() {
            self.selected = None;
        } else {
            self.selected = Some(0);
        }

        self.selected
    }

    /// Select the last item in the list, if the list has a [`ListInfo::len`].
    ///
    /// Otherwise, nothing can be selected.
    pub fn select_last(&mut self, data: &ListInfo) -> (r: Option<usize>)
        requires
            old(self).spec_item_offset() + old(self).height() <= usize::MAX,
        ensures
            r == final(self).spec_selected(),
            final(self).spec_selected() == (match data.len {
                Some(l) => Some(sat_sub(l as int, 1) as usize),
                None => old(self).spec_selected(),
            }),
            final(self).spec_item_offset() == offset_after_select(
                old(self).spec_item_offset() as int,
                old(self).height(),
                final(self).spec_selected(),
            ),
            final(self).same_layout(*old(self)),
    {
        if let Some(len) = data.len() {
            self.selected = Some(len.saturating_sub(1));
        }

        if let Some(idx) = self.selected {
            self.set_vert_offset(idx);
        }

        self.selected
    }

    /// Select the next item in the list.
    ///
    /// Does not wrap around.
    ///
    /// If none was selected previously, select idx [`ListInfo::fallback_select`].
    pub fn select_next(&mut self, data: &ListInfo) -> (r: Option<usize>)
        requires
            old(self).spec_item_offset() + old(self).height() <= usize::MAX,
            old(self).spec_selected() matches Some(c) ==> c < usize::MAX,
        ensures
            r == final(self).spec_selected(),
            final(self).spec_selected() == select_target(
                old(self).spec_selected(),
                Some(match old(self).spec_selected() {
                    Some(c) => (c + 1) as usize,
                    None => data.fallback,
                }),
                data.len,
            ),
            final(self).spec_item_offset() == offset_after_select(
                old(self).spec_item_offset() as int,
                old(self).height(),
                final(self).spec_selected(),
            ),
            final(self).same_layout(*old(self)),
    {
        let next = if let Some(current) = self.selected {
            current + 1
        } else {
            data.fallback_select()
        };
        self.select(Some(next), data)
    }

    /// Select the previous item in the list.
    ///
    /// Does not wrap around.
    ///
    /// If none was selected previously, select idx [`ListInfo::fallback_select`].
    pub fn select_previous(&mut self, data: &ListInfo) -> (r: Option<usize>)
        requires
            old(self).spec_item_offset() + old(self).height() <= usize::MAX,
        ensures
            r == final(self).spec_selected(),
            final(self).spec_selected() == select_target(
                old(self).spec_selected(),
                Some(match old(self).spec_selected() {
                    Some(c) => sat_sub(c as int, 1) as usize,
                    None => data.fallback,
                }),
                data.len,
            ),
            final(self).spec_item_offset() == offset_after_select(
                old(self).spec_item_offset() as int,
                old(self).height(),
                final(self).spec_selected(),
            ),
            final(self).same_layout(*old(self)),
    {
        let previous = if let Some(current) = self.selected {
            current.saturating_sub(1)
        } else {
            data.fallback_select()
        };
        self.select(Some(previous), data)
    }

    /// Select the last element (minus [`PREVIEW_DISTANCE_DEFAULT`]) in current view, if that is already selected, scroll down by `area.height - PREVIEW_DISTANCE_DEFAULT`.
    pub fn select_pg_down(&mut self, data: &ListInfo) -> (r: Option<usize>)
        requires
            old(self).spec_item_offset() + old(self).height() <= usize::MAX,
            old(self).spec_selected() matches Some(c) ==> c + old(self).height() <= usize::MAX,
        ensures
            r == final(self).spec_selected(),
            final(self).spec_selected() == select_target(
                old(self).spec_selected(),
                Some(match old(self).spec_selected() {
                    Some(c) => pg_down_target(c as int, old(self).spec_item_offset() as int, old(self).height(), data.len) as usize,
                    None => data.fallback,
                }),
                data.len,
            ),
            final(self).spec_item_offset() == offset_after_select(
                old(self).spec_item_offset() as int,
                old(self).height(),
                final(self).spec_selected(),
            ),
            final(self).same_layout(*old(self)),
    {
        let offset_curr_sel = match self.selected {
            None => {
                return self.select(Some(data.fallback_select()), data);
            },
            Some(c) => c,
        };
        let old_offset = self.item_offset;
        let height_as_usize = self.view_height_exec();

        // this calculation assumes 1 height per line, so if there is some other usage, this might not be fully correct
        let scroll_by = if (old_offset + height_as_usize).saturating_sub(PREVIEW_DISTANCE_DEFAULT) > offset_curr_sel {
            (old_offset + height_as_usize).saturating_sub(PREVIEW_DISTANCE_DEFAULT).saturating_sub(offset_curr_sel)
        } else {
            height_as_usize.saturating_sub(PREVIEW_DISTANCE_DEFAULT)
        };

        let new_offset = offset_curr_sel + scroll_by;
        let new_offset = if let Some(len) = data.len() {
            let last = len.saturating_sub(1);
            if new_offset <= last { new_offset } else { last }
        } else {
            new_offset
        };

        self.select(Some(new_offset), data)
    }

    /// Select the first element (minus [`PREVIEW_DISTANCE_DEFAULT`]) in current view, if that is already selected, scroll up by `area.height - PREVIEW_DISTANCE_DEFAULT`.
    pub fn select_pg_up(&mut self, data: &ListInfo) -> (r: Option<usize>)
        requires
            old(self).spec_item_offset() + old(self).height() <= usize::MAX,
        ensures
            r == final(self).spec_selected(),
            final(self).spec_selected() == select_target(
                old(self).spec_selected(),
                Some(match old(self).spec_selected() {
                    Some(c) => pg_up_target(c as int, old(self).spec_item_offset() as int, old(self).height(), data.len) as usize,
                    None => data.fallback,
                }),
                data.len,
            ),
            final(self).spec_item_offset() == offset_after_select(
                old(self).spec_item_offset() as int,
                old(self).height(),
                final(self).spec_selected(),
            ),
            final(self).same_layout(*old(self)),
    {
        let offset_curr_sel = match self.selected {
            None => {
                return self.select(Some(data.fallback_select()), data);
            },
            Some(c) => c,
        };
        let old_offset = self.item_offset;
        let height_as_usize = self.view_height_exec();

        let scroll_by = if old_offset < offset_curr_sel.saturating_sub(PREVIEW_DISTANCE_DEFAULT) {
            // current selection is still above old_offset (plus preview), so we dont scroll a page
            // but select the first element in the visible area (plus preview distance)
            offset_curr_sel.saturating_sub(old_offset).saturating_sub(PREVIEW_DISTANCE_DEFAULT)
        } else {
            height_as_usize.saturating_sub(PREVIEW_DISTANCE_DEFAULT)
        };

        let new_offset = offset_curr_sel.saturating_sub(scroll_by);
        let new_offset = if let Some(len) = data.len() {
            let last = len.saturating_sub(1);
            if new_offset <= last { new_offset } else { last }
        } else {
            new_offset
        };

        self.select(Some(new_offset), data)
    }

    /// Get the current select value.
    pub fn selected(&self) -> (r: Option<usize>)
        ensures
            r == self.spec_selected(),
    {
        self.selected
    }

    /// Get a copy of the current horizontal offset.
    pub fn get_offset_horiz(&self) -> (r: usize)
        ensures
            r == self.spec_horiz(),
    {
        self.display_offset_horiz
    }

    /// Get the first drawn item.
    pub fn get_item_offset(&self) -> (r: usize)
        ensures
            r == self.spec_item_offset(),
    {
        self.item_offset
    }

    /// Get the items to scroll by in one step.
    pub fn get_vertical_scroll_step(&self) -> (r: usize)
        ensures
            r == self.spec_step(),
    {
        self.vertical_scroll_step
    }

    /// Set the height of the last known Table Data draw area (excluding block and header).
    pub fn set_last_size_data(&mut self, height: u16)
        ensures
            final(self).spec_last_height() == Some(height),
            final(self).spec_selected() == old(self).spec_selected(),
            final(self).spec_item_offset() == old(self).spec_item_offset(),
            final(self).spec_horiz() == old(self).spec_horiz(),
            final(self).spec_step() == old(self).spec_step(),
            final(self).spec_columns() == old(self).spec_columns(),
    {
        self.last_size_height = Some(height);
    }

    /// The columns of the table.
    pub fn columns(&self) -> (c: &[Column])
        ensures
            c@ == self.spec_columns(),
    {
        self.columns.as_slice()
    }

    /// Replace the columns of the table.
    pub fn set_columns(&mut self, columns: Vec<Column>)
        ensures
            final(self).spec_columns() == columns@,
            final(self).spec_selected() == old(self).spec_selected(),
            final(self).spec_item_offset() == old(self).spec_item_offset(),
            final(self).spec_horiz() == old(self).spec_horiz(),
            final(self).spec_step() == old(self).spec_step(),
            final(self).spec_last_height() == old(self).spec_last_height(),
    {
        self.columns = columns;
    }

    /// Set the items to scroll by in one step; a step of `0` is ignored.
    pub fn set_vertical_scroll_step(&mut self, value: usize)
        ensures
            final(self).spec_step() == (if value != 0 { value } else { old(self).spec_step() }),
            final(self).spec_selected() == old(self).spec_selected(),
            final(self).spec_item_offset() == old(self).spec_item_offset(),
            final(self).spec_horiz() == old(self).spec_horiz(),
            final(self).spec_columns() == old(self).spec_columns(),
            final(self).spec_last_height() == old(self).spec_last_height(),
    {
        if value != 0 {
            self.vertical_scroll_step = value;
        }
    }

    /// Scroll Right by the set stepping.
    pub fn scroll_right(&mut self)
        requires
            old(self).spec_horiz() < usize::MAX,
        ensures
            final(self).spec_horiz() == old(self).spec_horiz() + 1,
            final(self).spec_selected() == old(self).spec_selected(),
            final(self).spec_item_offset() == old(self).spec_item_offset(),
            final(self).spec_step() == old(self).spec_step(),
            final(self).spec_columns() == old(self).spec_columns(),
            final(self).spec_last_height() == old(self).spec_last_height(),
    {
        self.display_offset_horiz += 1;
    }

    /// Scroll Left by the set stepping.
    pub fn scroll_left(&mut self)
        ensures
            final(self).spec_horiz() == sat_sub(old(self).spec_horiz() as int, 1),
            final(self).spec_selected() == old(self).spec_selected(),
            final(self).spec_item_offset() == old(self).spec_item_offset(),
            final(self).spec_step() == old(self).spec_step(),
            final(self).spec_columns() == old(self).spec_columns(),
            final(self).spec_last_height() == old(self).spec_last_height(),
    {
        self.display_offset_horiz = self.display_offset_horiz.saturating_sub(1);
    }

    /// Scroll down by 1 line, but keep the current selection within view.
    pub fn scroll_down(&mut self, data: &ListInfo)
        requires
            old(self).spec_item_offset() + old(self).spec_step() <= usize::MAX,
            old(self).spec_item_offset() < usize::MAX,
        ensures
            final(self).spec_item_offset() == (match old(self).spec_selected() {
                None => match data.len {
                    Some(l) => min_int(old(self).spec_item_offset() + 1, sat_sub(l as int, 1)),
                    None => old(self).spec_item_offset() + 1,
                },
                Some(c) => min_int(old(self).spec_item_offset() + old(self).spec_step(), sat_sub(c as int, 2)),
            }),
            final(self).spec_selected() == old(self).spec_selected(),
            final(self).same_layout(*old(self)),
    {
        let offset_curr_sel = match self.selected {
            None => {
                // nothing is selected, so there are no bounds to keep aside from the data length, if present
                let next_offset = if let Some(len) = data.len() {
                    let last = len.saturating_sub(1);
                    if self.item_offset + 1 <= last { self.item_offset + 1 } else { last }
                } else {
                    self.item_offset + 1
                };
                self.item_offset = next_offset;
                return;
            },
            Some(c) => c,
        };

        let old_offset = self.item_offset;
        let stepped = old_offset + self.vertical_scroll_step;
        let limit = offset_curr_sel.saturating_sub(PREVIEW_DISTANCE_DEFAULT);
        self.item_offset = if stepped <= limit { stepped } else { limit };
    }

    /// Scroll up by the set stepping, but keep the current selection within
    /// view: the selection stays at least the preview distance above the
    /// bottom of the view, the first drawn row never passes the selection, and
    /// scrolling up never moves the view down.
    pub fn scroll_up(&mut self)
        ensures
            final(self).spec_item_offset() == (match old(self).spec_selected() {
                None => sat_sub(old(self).spec_item_offset() as int, 1),
                Some(c) => scroll_up_target(
                    old(self).spec_item_offset() as int,
                    old(self).spec_step() as int,
                    old(self).height(),
                    c as int,
                ),
            }),
            final(self).spec_item_offset() <= old(self).spec_item_offset(),
            old(self).spec_selected() matches Some(c) ==> final(self).spec_item_offset() <= c,
            old(self).spec_selected() matches Some(c) ==> (c <= old(self).spec_item_offset() + old(self).height()
                ==> c <= final(self).spec_item_offset() + old(self).height()),
            final(self).spec_selected() == old(self).spec_selected(),
            final(self).same_layout(*old(self)),
    {
        let offset_curr_sel = match self.selected {
            None => {
                // nothing is selected, so there are no bounds to keep
                self.item_offset = self.item_offset.saturating_sub(1);
                return;
            },
            Some(c) => c,
        };

        let old_offset = self.item_offset;
        let height_as_usize = self.view_height_exec();

        let stepped = old_offset.saturating_sub(self.vertical_scroll_step);
        let floor = if height_as_usize >= PREVIEW_DISTANCE_DEFAULT {
            offset_curr_sel.saturating_sub(height_as_usize - PREVIEW_DISTANCE_DEFAULT)
        } else {
            offset_curr_sel
        };
        let raised = if stepped >= floor { stepped } else { floor };
        let capped = if raised <= offset_curr_sel { raised } else { offset_curr_sel };
        self.item_offset = if capped <= old_offset { capped } else { old_offset };
    }

    /// Reset State.
    ///
    /// - Clears selected state
    /// - Clears item offset
    /// - Clears horizontal offset
    pub fn clear(&mut self)
        ensures
            final(self).spec_selected() is None,
            final(self).spec_item_offset() == 0,
            final(self).spec_horiz() == 0,
            final(self).spec_step() == old(self).spec_step(),
            final(self).spec_columns() == old(self).spec_columns(),
            final(self).spec_last_height() == old(self).spec_last_height(),
    {
        self.selected = None;
        self.item_offset = 0;
        self.display_offset_horiz = 0;
    }
}

} // verus!

verus! {

/// Making an item visible puts the first drawn item at or above it, and keeps the item
/// within the view height (or the preview distance, on a view too small for it) below it.
pub proof fn lemma_vert_offset_keeps_item_visible(old: int, h: int, idx: int)
    requires
        old >= 0,
        h >= 0,
        idx >= 0,
    ensures
        0 <= vert_offset_for(old, h, idx) <= idx,
        idx <= vert_offset_for(old, h, idx) + max_int(h, 2),
{
}

/// With a known length, a selection within the list stays within the list.
pub proof fn lemma_select_target_in_bounds(sel: Option<usize>, item: Option<usize>, l: usize)
    requires
        sel matches Some(s) ==> s < l,
    ensures
        select_target(sel, item, Some(l)) matches Some(s) ==> s < l,
{
}

/// Moving to the next item and back to the previous one returns to the same item.
pub proof fn lemma_next_then_previous(c: usize, l: usize)
    requires
        c + 1 < l,
    ensures
        select_target(Some(c), Some((c + 1) as usize), Some(l)) == Some((c + 1) as usize),
        select_target(Some((c + 1) as usize), Some(sat_sub(c + 1, 1) as usize), Some(l)) == Some(c),
{
}

/// A page down never moves the selection up, a page up never moves it down, and both stay
/// within a list of known length.
pub proof fn lemma_page_targets(c: int, old: int, h: int, len: Option<usize>)
    requires
        c >= 0,
        old >= 0,
        h >= 0,
        len matches Some(l) ==> c < l,
    ensures
        c <= pg_down_target(c, old, h, len),
        0 <= pg_up_target(c, old, h, len) <= c,
        len matches Some(l) ==> pg_down_target(c, old, h, len) < l,
{
}

/// The first drawn row after scrolling up from `old` by `step` with the
/// selection at `c` in a view of height `h`: the stepped row, raised so that
/// the selection stays the preview distance above the bottom, then kept at
/// or above the selection and the old row.
pub open spec fn scroll_up_target(old: int, step: int, h: int, c: int) -> int {
    let floor = if h >= 2 { sat_sub(c, h - 2) } else { c };
    min_int(old, min_int(c, max_int(sat_sub(old, step), floor)))
}

/// Scrolling keeps the selection in view: scrolling down never passes the
/// selection (less the preview distance); scrolling up never passes it and
/// keeps a selection that was in view within the view height.
pub proof fn lemma_scroll_keeps_selection(old: int, step: int, h: int, c: int)
    requires
        old >= 0,
        step >= 0,
        h >= 0,
        c >= 0,
    ensures
        min_int(old + step, sat_sub(c, 2)) <= c,
        scroll_up_target(old, step, h, c) <= c,
        scroll_up_target(old, step, h, c) <= old,
        c <= old + h ==> c <= scroll_up_target(old, step, h, c) + h,
{
}

/// The direction of a move or scroll command.
#[derive(Debug, Clone, Copy, PartialEq, Eq, Structural)]
pub enum Direction {
    Up,
    Down,
    Left,
    Right,
}

/// The target of a go-to command.
#[derive(Debug, Clone, Copy, PartialEq, Eq, Structural)]
pub enum Position {
    Begin,
    End,
    At(usize),
}

/// The commands the table is given.
#[derive(Debug, Clone, Copy, PartialEq, Eq, Structural)]
pub enum TableCmd {
    Move(Direction),
    Scroll(Direction),
    GoTo(Position),
    PageDown,
    PageUp,
    Submit,
    Delete,
    Cancel,
}

/// The outcome of a command on the table.
#[derive(Debug, Clone, Copy, PartialEq, Eq, Structural)]
pub enum TableCmdResult {
    NoChange,
    Visual,
    Invalid(TableCmd),
}

/// The playlist table component: its state and what it knows of its data.
#[derive(Debug, Clone)]
pub struct PlaylistTable {
    state: PlaylistTableState,
    data: ListInfo,
}

/// `NoChange` when the selection is what it was, `Visual` otherwise.
pub open spec fn change_of(before: Option<usize>, after: Option<usize>) -> TableCmdResult {
    if after == before { TableCmdResult::NoChange } else { TableCmdResult::Visual }
}

/// Room for the offset arithmetic of any command.
pub open spec fn room_for_commands(s: PlaylistTableState) -> bool {
    &&& s.spec_item_offset() + 65536 <= usize::MAX
    &&& s.spec_item_offset() + s.spec_step() <= usize::MAX
    &&& s.spec_horiz() < usize::MAX
    &&& s.spec_selected() matches Some(c) ==> c + 65536 <= usize::MAX
}

impl PlaylistTable {
    pub closed spec fn spec_state(&self) -> PlaylistTableState {
        self.state
    }

    pub closed spec fn spec_data(&self) -> ListInfo {
        self.data
    }

    /// A table over the given data, with a fresh state.
    pub fn new(data: ListInfo) -> (t: Self)
        ensures
            t.spec_data() == data,
            t.spec_state().spec_selected() is None,
            t.spec_state().spec_item_offset() == 0,
            t.spec_state().spec_horiz() == 0,
            t.spec_state().spec_step() == 1,
            t.spec_state().spec_last_height() is None,
            t.spec_state().spec_columns().len() == 0,
    {
        PlaylistTable { state: PlaylistTableState::new(), data }
    }

    /// Builder function to set the columns (including Header text) that will be available.
    pub fn columns(self, columns: Vec<Column>) -> (t: Self)
        ensures
            t.spec_data() == self.spec_data(),
            t.spec_state().spec_columns() == columns@,
            t.spec_state().spec_selected() == self.spec_state().spec_selected(),
            t.spec_state().spec_item_offset() == self.spec_state().spec_item_offset(),
            t.spec_state().spec_horiz() == self.spec_state().spec_horiz(),
            t.spec_state().spec_step() == self.spec_state().spec_step(),
            t.spec_state().spec_last_height() == self.spec_state().spec_last_height(),
    {
        let mut t = self;
        t.state.set_columns(columns);
        t
    }

    /// Builder function to set the vertical scroll stepping.
    pub fn vertical_scroll_step(self, value: usize) -> (t: Self)
        requires
            value > 0,
        ensures
            t.spec_data() == self.spec_data(),
            t.spec_state().spec_step() == value,
            t.spec_state().spec_selected() == self.spec_state().spec_selected(),
            t.spec_state().spec_item_offset() == self.spec_state().spec_item_offset(),
            t.spec_state().spec_horiz() == self.spec_state().spec_horiz(),
            t.spec_state().spec_columns() == self.spec_state().spec_columns(),
            t.spec_state().spec_last_height() == self.spec_state().spec_last_height(),
    {
        let mut t = self;
        t.state.set_vertical_scroll_step(value);
        t
    }

    /// The state of the table.
    pub fn state(&self) -> (s: &PlaylistTableState)
        ensures
            *s == self.spec_state(),
    {
        &self.state
    }

    /// The state of the table, to record the drawn height.
    pub fn state_mut(&mut self) -> (s: &mut PlaylistTableState)
        ensures
            *s == old(self).spec_state(),
            final(self).spec_state() == *final(s),
            final(self).spec_data() == old(self).spec_data(),
    {
        &mut self.state
    }

    /// Replace what the table knows of its data.
    pub fn set_data(&mut self, data: ListInfo)
        ensures
            final(self).spec_data() == data,
            final(self).spec_state() == old(self).spec_state(),
    {
        self.data = data;
    }

    /// Get the currently selected item index, if there is one.
    pub fn selected(&self) -> (r: Option<usize>)
        ensures
            r == self.spec_state().spec_selected(),
    {
        self.state.selected()
    }

    /// Whether something is selected.
    pub fn has_selection(&self) -> (b: bool)
        ensures
            b == self.spec_state().spec_selected() is Some,
    {
        self.state.selected().is_some()
    }

    /// Reset the selected item, the item offset and the horizontal display offset.
    pub fn reset_state(&mut self)
        ensures
            final(self).spec_state().spec_selected() is None,
            final(self).spec_state().spec_item_offset() == 0,
            final(self).spec_state().spec_horiz() == 0,
            final(self).spec_state().spec_step() == old(self).spec_state().spec_step(),
            final(self).spec_state().spec_columns() == old(self).spec_state().spec_columns(),
            final(self).spec_state().spec_last_height() == old(self).spec_state().spec_last_height(),
            final(self).spec_data() == old(self).spec_data(),
    {
        self.state.clear();
    }

    /// Handle a go-to command.
    fn handle_goto(&mut self, position: Position) -> (r: TableCmdResult)
        requires
            room_for_commands(old(self).spec_state()),
        ensures
            final(self).spec_data() == old(self).spec_data(),
            old(self).spec_data().empty ==> r == TableCmdResult::NoChange && final(self).spec_state() == old(self).spec_state(),
            !old(self).spec_data().empty ==> r == change_of(old(self).spec_state().spec_selected(), final(self).spec_state().spec_selected()),
            !old(self).spec_data().empty ==> final(self).spec_state().same_layout(old(self).spec_state()),
            !old(self).spec_data().empty ==> final(self).spec_state().spec_item_offset() == (match position {
                Position::Begin => 0,
                _ => offset_after_select(
                    old(self).spec_state().spec_item_offset() as int,
                    old(self).spec_state().height(),
                    final(self).spec_state().spec_selected(),
                ),
            }),
            !old(self).spec_data().empty ==> final(self).spec_state().spec_selected() == (match position {
                Position::Begin => Some(0usize),
                Position::End => match old(self).spec_data().len {
                    Some(l) => Some(sat_sub(l as int, 1) as usize),
                    None => old(self).spec_state().spec_selected(),
                },
                Position::At(idx) => select_target(old(self).spec_state().spec_selected(), Some(idx), old(self).spec_data().len),
            }),
    {
        if self.data.is_empty() {
            return TableCmdResult::NoChange;
        }
        let data = self.data;
        let state_before = self.state.selected();

        let after = match position {
            Position::Begin => self.state.select_first(&data),
            Position::End => self.state.select_last(&data),
            Position::At(idx) => self.state.select(Some(idx), &data),
        };
        if after == state_before {
            TableCmdResult::NoChange
        } else {
            TableCmdResult::Visual
        }
    }

    /// Handle a move command.
    fn handle_move(&mut self, direction: Direction) -> (r: TableCmdResult)
        requires
            room_for_commands(old(self).spec_state()),
        ensures
            final(self).spec_data() == old(self).spec_data(),
            old(self).spec_data().empty ==> r == TableCmdResult::NoChange && final(self).spec_state() == old(self).spec_state(),
            !old(self).spec_data().empty && (direction == Direction::Left || direction == Direction::Right) ==>
                r == TableCmdResult::Invalid(TableCmd::Move(direction)) && final(self).spec_state() == old(self).spec_state(),
            !old(self).spec_data().empty && (direction == Direction::Up || direction == Direction::Down) ==>
                r == change_of(old(self).spec_state().spec_selected(), final(self).spec_state().spec_selected())
                && final(self).spec_state().spec_item_offset() == offset_after_select(
                    old(self).spec_state().spec_item_offset() as int,
                    old(self).spec_state().height(),
                    final(self).spec_state().spec_selected(),
                )
                && final(self).spec_state().same_layout(old(self).spec_state()),
            !old(self).spec_data().empty && direction == Direction::Down ==>
                final(self).spec_state().spec_selected() == select_target(
                    old(self).spec_state().spec_selected(),
                    Some(match old(self).spec_state().spec_selected() {
                        Some(c) => (c + 1) as usize,
                        None => old(self).spec_data().fallback,
                    }),
                    old(self).spec_data().len,
                ),
            !old(self).spec_data().empty && direction == Direction::Up ==>
                final(self).spec_state().spec_selected() == select_target(
                    old(self).spec_state().spec_selected(),
                    Some(match old(self).spec_state().spec_selected() {
                        Some(c) => sat_sub(c as int, 1) as usize,
                        None => old(self).spec_data().fallback,
                    }),
                    old(self).spec_data().len,
                ),
    {
        if self.data.is_empty() {
            return TableCmdResult::NoChange;
        }
        let data = self.data;
        let state_before = self.state.selected();

        let after = match direction {
            Direction::Down => self.state.select_next(&data),
            Direction::Up => self.state.select_previous(&data),
            _ => {
                return TableCmdResult::Invalid(TableCmd::Move(direction));
            },
        };
        if after == state_before {
            TableCmdResult::NoChange
        } else {
            TableCmdResult::Visual
        }
    }

    /// Handle a scroll command.
    fn handle_scroll(&mut self, direction: Direction) -> (r: TableCmdResult)
        requires
            room_for_commands(old(self).spec_state()),
        ensures
            final(self).spec_data() == old(self).spec_data(),
            old(self).spec_data().empty ==> r == TableCmdResult::NoChange && final(self).spec_state() == old(self).spec_state(),
            !old(self).spec_data().empty ==> r == TableCmdResult::Visual,
            final(self).spec_state().spec_selected() == old(self).spec_state().spec_selected(),
            !old(self).spec_data().empty && direction == Direction::Right ==>
                final(self).spec_state().spec_horiz() == old(self).spec_state().spec_horiz() + 1,
            !old(self).spec_data().empty && direction == Direction::Left ==>
                final(self).spec_state().spec_horiz() == sat_sub(old(self).spec_state().spec_horiz() as int, 1),
    {
        if self.data.is_empty() {
            return TableCmdResult::NoChange;
        }
        let data = self.data;

        match direction {
            Direction::Down => self.state.scroll_down(&data),
            Direction::Up => self.state.scroll_up(),
            Direction::Left => self.state.scroll_left(),
            Direction::Right => self.state.scroll_right(),
        }

        TableCmdResult::Visual
    }

    /// Handle a page-down command.
    fn handle_pg_down(&mut self) -> (r: TableCmdResult)
        requires
            room_for_commands(old(self).spec_state()),
        ensures
            final(self).spec_data() == old(self).spec_data(),
            old(self).spec_data().empty ==> r == TableCmdResult::NoChange && final(self).spec_state() == old(self).spec_state(),
            !old(self).spec_data().empty ==> r == change_of(old(self).spec_state().spec_selected(), final(self).spec_state().spec_selected()),
            !old(self).spec_data().empty ==> final(self).spec_state().spec_selected() == select_target(
                old(self).spec_state().spec_selected(),
                Some(match old(self).spec_state().spec_selected() {
                    Some(c) => pg_down_target(
                        c as int,
                        old(self).spec_state().spec_item_offset() as int,
                        old(self).spec_state().height(),
                        old(self).spec_data().len,
                    ) as usize,
                    None => old(self).spec_data().fallback,
                }),
                old(self).spec_data().len,
            ),
            !old(self).spec_data().empty ==> final(self).spec_state().spec_item_offset() == offset_after_select(
                old(self).spec_state().spec_item_offset() as int,
                old(self).spec_state().height(),
                final(self).spec_state().spec_selected(),
            ),
            !old(self).spec_data().empty ==> final(self).spec_state().same_layout(old(self).spec_state()),
    {
        if self.data.is_empty() {
            return TableCmdResult::NoChange;
        }
        let data = self.data;
        let state_before = self.state.selected();

        if self.state.select_pg_down(&data) == state_before {
            TableCmdResult::NoChange
        } else {
            TableCmdResult::Visual
        }
    }

    /// Handle a page-up command.
    fn handle_pg_up(&mut self) -> (r: TableCmdResult)
        requires
            room_for_commands(old(self).spec_state()),
        ensures
            final(self).spec_data() == old(self).spec_data(),
            old(self).spec_data().empty ==> r == TableCmdResult::NoChange && final(self).spec_state() == old(self).spec_state(),
            !old(self).spec_data().empty ==> r == change_of(old(self).spec_state().spec_selected(), final(self).spec_state().spec_selected()),
            !old(self).spec_data().empty ==> final(self).spec_state().spec_selected() == select_target(
                old(self).spec_state().spec_selected(),
                Some(match old(self).spec_state().spec_selected() {
                    Some(c) => pg_up_target(
                        c as int,
                        old(self).spec_state().spec_item_offset() as int,
                        old(self).spec_state().height(),
                        old(self).spec_data().len,
                    ) as usize,
                    None => old(self).spec_data().fallback,
                }),
                old(self).spec_data().len,
            ),
            !old(self).spec_data().empty ==> final(self).spec_state().spec_item_offset() == offset_after_select(
                old(self).spec_state().spec_item_offset() as int,
                old(self).spec_state().height(),
                final(self).spec_state().spec_selected(),
            ),
            !old(self).spec_data().empty ==> final(self).spec_state().same_layout(old(self).spec_state()),
    {
        if self.data.is_empty() {
            return TableCmdResult::NoChange;
        }
        let data = self.data;
        let state_before = self.state.selected();

        if self.state.select_pg_up(&data) == state_before {
            TableCmdResult::NoChange
        } else {
            TableCmdResult::Visual
        }
    }

    /// Apply a command: moves, scrolls and go-tos change the selection or the view,
    /// page up and down move by a page, every other command is invalid.
    pub fn perform(&mut self, cmd: TableCmd) -> (r: TableCmdResult)
        requires
            room_for_commands(old(self).spec_state()),
        ensures
            final(self).spec_data() == old(self).spec_data(),
            (cmd == TableCmd::Submit || cmd == TableCmd::Delete || cmd == TableCmd::Cancel) ==>
                r == TableCmdResult::Invalid(cmd) && final(self).spec_state() == old(self).spec_state(),
            old(self).spec_data().empty && !(cmd == TableCmd::Submit || cmd == TableCmd::Delete || cmd == TableCmd::Cancel) ==>
                r == TableCmdResult::NoChange && final(self).spec_state() == old(self).spec_state(),
            cmd == TableCmd::Move(Direction::Down) && !old(self).spec_data().empty ==>
                final(self).spec_state().spec_selected() == select_target(
                    old(self).spec_state().spec_selected(),
                    Some(match old(self).spec_state().spec_selected() {
                        Some(c) => (c + 1) as usize,
                        None => old(self).spec_data().fallback,
                    }),
                    old(self).spec_data().len,
                )
                && final(self).spec_state().spec_item_offset() == offset_after_select(
                    old(self).spec_state().spec_item_offset() as int,
                    old(self).spec_state().height(),
                    final(self).spec_state().spec_selected(),
                )
                && r == change_of(old(self).spec_state().spec_selected(), final(self).spec_state().spec_selected()),
            cmd == TableCmd::Move(Direction::Up) && !old(self).spec_data().empty ==>
                final(self).spec_state().spec_selected() == select_target(
                    old(self).spec_state().spec_selected(),
                    Some(match old(self).spec_state().spec_selected() {
                        Some(c) => sat_sub(c as int, 1) as usize,
                        None => old(self).spec_data().fallback,
                    }),
                    old(self).spec_data().len,
                )
                && r == change_of(old(self).spec_state().spec_selected(), final(self).spec_state().spec_selected()),
            cmd == TableCmd::GoTo(Position::Begin) && !old(self).spec_data().empty ==>
                final(self).spec_state().spec_selected() == Some(0usize)
                && final(self).spec_state().spec_item_offset() == 0
                && r == change_of(old(self).spec_state().spec_selected(), final(self).spec_state().spec_selected()),
    {
        match cmd {
            TableCmd::Move(direction) => self.handle_move(direction),
            TableCmd::Scroll(direction) => self.handle_scroll(direction),
            TableCmd::GoTo(position) => self.handle_goto(position),
            TableCmd::PageDown => self.handle_pg_down(),
            TableCmd::PageUp => self.handle_pg_up(),
            _ => TableCmdResult::Invalid(cmd),
        }
    }
}

} // verus!
