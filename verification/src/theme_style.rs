//! The style of the theme being edited: the color each part of the interface
//! is drawn in and the symbols that mark highlighted and playing rows.
use vstd::prelude::*;

use crate::ids::IdCETheme;

verus! {

/// A color of the theme, as the color choice fields list them.
#[derive(Debug, Clone, Copy, PartialEq, Eq, Structural)]
pub enum ThemeColor {
    Reset,
    Foreground,
    Background,
    Black,
    Red,
    Green,
    Yellow,
    Blue,
    Magenta,
    Cyan,
    White,
    LightBlack,
    LightRed,
    LightGreen,
    LightYellow,
    LightBlue,
    LightMagenta,
    LightCyan,
    LightWhite,
}

/// How many colors the color choice fields offer.
pub const COLOR_COUNT: usize = 19;

/// How many fields of the theme page hold a color.
pub const COLOR_FIELDS: usize = 21;

/// The color at position `i` of the list the color choice fields offer.
pub open spec fn color_at_spec(i: int) -> Option<ThemeColor> {
    if i == 0 {
        Some(ThemeColor::Reset)
    } else if i == 1 {
        Some(ThemeColor::Foreground)
    } else if i == 2 {
        Some(ThemeColor::Background)
    } else if i == 3 {
        Some(ThemeColor::Black)
    } else if i == 4 {
        Some(ThemeColor::Red)
    } else if i == 5 {
        Some(ThemeColor::Green)
    } else if i == 6 {
        Some(ThemeColor::Yellow)
    } else if i == 7 {
        Some(ThemeColor::Blue)
    } else if i == 8 {
        Some(ThemeColor::Magenta)
    } else if i == 9 {
        Some(ThemeColor::Cyan)
    } else if i == 10 {
        Some(ThemeColor::White)
    } else if i == 11 {
        Some(ThemeColor::LightBlack)
    } else if i == 12 {
        Some(ThemeColor::LightRed)
    } else if i == 13 {
        Some(ThemeColor::LightGreen)
    } else if i == 14 {
        Some(ThemeColor::LightYellow)
    } else if i == 15 {
        Some(ThemeColor::LightBlue)
    } else if i == 16 {
        Some(ThemeColor::LightMagenta)
    } else if i == 17 {
        Some(ThemeColor::LightCyan)
    } else if i == 18 {
        Some(ThemeColor::LightWhite)
    } else {
        None
    }
}

/// The position of `c` in the list the color choice fields offer.
pub open spec fn color_index_spec(c: ThemeColor) -> nat {
    match c {
        ThemeColor::Reset => 0,
        ThemeColor::Foreground => 1,
        ThemeColor::Background => 2,
        ThemeColor::Black => 3,
        ThemeColor::Red => 4,
        ThemeColor::Green => 5,
        ThemeColor::Yellow => 6,
        ThemeColor::Blue => 7,
        ThemeColor::Magenta => 8,
        ThemeColor::Cyan => 9,
        ThemeColor::White => 10,
        ThemeColor::LightBlack => 11,
        ThemeColor::LightRed => 12,
        ThemeColor::LightGreen => 13,
        ThemeColor::LightYellow => 14,
        ThemeColor::LightBlue => 15,
        ThemeColor::LightMagenta => 16,
        ThemeColor::LightCyan => 17,
        ThemeColor::LightWhite => 18,
    }
}

/// The color at position `i` of the list the color choice fields offer.
pub fn color_at(i: usize) -> (r: Option<ThemeColor>)
    ensures
        r == color_at_spec(i as int),
{
    match i {
        0 => Some(ThemeColor::Reset),
        1 => Some(ThemeColor::Foreground),
        2 => Some(ThemeColor::Background),
        3 => Some(ThemeColor::Black),
        4 => Some(ThemeColor::Red),
        5 => Some(ThemeColor::Green),
        6 => Some(ThemeColor::Yellow),
        7 => Some(ThemeColor::Blue),
        8 => Some(ThemeColor::Magenta),
        9 => Some(ThemeColor::Cyan),
        10 => Some(ThemeColor::White),
        11 => Some(ThemeColor::LightBlack),
        12 => Some(ThemeColor::LightRed),
        13 => Some(ThemeColor::LightGreen),
        14 => Some(ThemeColor::LightYellow),
        15 => Some(ThemeColor::LightBlue),
        16 => Some(ThemeColor::LightMagenta),
        17 => Some(ThemeColor::LightCyan),
        18 => Some(ThemeColor::LightWhite),
        _ => None,
    }
}

/// The position of `c` in the list the color choice fields offer.
pub fn color_index(c: ThemeColor) -> (r: usize)
    ensures
        r == color_index_spec(c),
{
    match c {
        ThemeColor::Reset => 0,
        ThemeColor::Foreground => 1,
        ThemeColor::Background => 2,
        ThemeColor::Black => 3,
        ThemeColor::Red => 4,
        ThemeColor::Green => 5,
        ThemeColor::Yellow => 6,
        ThemeColor::Blue => 7,
        ThemeColor::Magenta => 8,
        ThemeColor::Cyan => 9,
        ThemeColor::White => 10,
        ThemeColor::LightBlack => 11,
        ThemeColor::LightRed => 12,
        ThemeColor::LightGreen => 13,
        ThemeColor::LightYellow => 14,
        ThemeColor::LightBlue => 15,
        ThemeColor::LightMagenta => 16,
        ThemeColor::LightCyan => 17,
        ThemeColor::LightWhite => 18,
    }
}

/// Where the color of a color field is kept in `ThemeStyle::colors`; other
/// fields keep none.
pub open spec fn color_slot_spec(id: IdCETheme) -> Option<nat> {
    match id {
        IdCETheme::LibraryForeground => Some(0),
        IdCETheme::LibraryBackground => Some(1),
        IdCETheme::LibraryBorder => Some(2),
        IdCETheme::LibraryHighlight => Some(3),
        IdCETheme::PlaylistForeground => Some(4),
        IdCETheme::PlaylistBackground => Some(5),
        IdCETheme::PlaylistBorder => Some(6),
        IdCETheme::PlaylistHighlight => Some(7),
        IdCETheme::ProgressForeground => Some(8),
        IdCETheme::ProgressBackground => Some(9),
        IdCETheme::ProgressBorder => Some(10),
        IdCETheme::LyricForeground => Some(11),
        IdCETheme::LyricBackground => Some(12),
        IdCETheme::LyricBorder => Some(13),
        IdCETheme::ImportantPopupForeground => Some(14),
        IdCETheme::ImportantPopupBackground => Some(15),
        IdCETheme::ImportantPopupBorder => Some(16),
        IdCETheme::FallbackForeground => Some(17),
        IdCETheme::FallbackBackground => Some(18),
        IdCETheme::FallbackBorder => Some(19),
        IdCETheme::FallbackHighlight => Some(20),
        _ => None,
    }
}

/// Where the color of a color field is kept; see `color_slot_spec`.
pub fn color_slot(id: IdCETheme) -> (r: Option<usize>)
    ensures
        r matches Some(k) ==> color_slot_spec(id) == Some(k as nat),
        r is None ==> color_slot_spec(id) is None,
{
    match id {
        IdCETheme::LibraryForeground => Some(0),
        IdCETheme::LibraryBackground => Some(1),
        IdCETheme::LibraryBorder => Some(2),
        IdCETheme::LibraryHighlight => Some(3),
        IdCETheme::PlaylistForeground => Some(4),
        IdCETheme::PlaylistBackground => Some(5),
        IdCETheme::PlaylistBorder => Some(6),
        IdCETheme::PlaylistHighlight => Some(7),
        IdCETheme::ProgressForeground => Some(8),
        IdCETheme::ProgressBackground => Some(9),
        IdCETheme::ProgressBorder => Some(10),
        IdCETheme::LyricForeground => Some(11),
        IdCETheme::LyricBackground => Some(12),
        IdCETheme::LyricBorder => Some(13),
        IdCETheme::ImportantPopupForeground => Some(14),
        IdCETheme::ImportantPopupBackground => Some(15),
        IdCETheme::ImportantPopupBorder => Some(16),
        IdCETheme::FallbackForeground => Some(17),
        IdCETheme::FallbackBackground => Some(18),
        IdCETheme::FallbackBorder => Some(19),
        IdCETheme::FallbackHighlight => Some(20),
        _ => None,
    }
}

/// Whether the config editor keeps a color chosen in the color field `id`:
/// it does for the fields of the library, playlist, progress and lyric views,
/// and leaves the important-popup and fallback colors as they are.
pub open spec fn color_change_stored(id: IdCETheme) -> bool {
    match color_slot_spec(id) {
        Some(k) => k < 14,
        None => false,
    }
}

/// Whether the config editor keeps a color chosen in `id`; see `color_change_stored`.
pub fn stores_color_change(id: IdCETheme) -> (r: bool)
    ensures
        r == color_change_stored(id),
{
    match color_slot(id) {
        Some(k) => k < 14,
        None => false,
    }
}

/// The style of a theme: the color of each color field of the theme page,
/// at the field's slot, and the three symbols.
#[derive(Debug)]
pub struct ThemeStyle {
    pub colors: Vec<ThemeColor>,
    /// Marks the highlighted row of the library.
    pub library_highlight_symbol: String,
    /// Marks the highlighted row of the playlist.
    pub playlist_highlight_symbol: String,
    /// Marks the playing track in the playlist.
    pub current_track_symbol: String,
}

impl ThemeStyle {
    /// Every color field has its slot.
    pub open spec fn wf(&self) -> bool {
        self.colors@.len() == COLOR_FIELDS
    }

    /// The color a color field holds; none for the other fields.
    pub open spec fn color_of(&self, id: IdCETheme) -> Option<ThemeColor> {
        match color_slot_spec(id) {
            Some(k) => Some(self.colors@[k as int]),
            None => None,
        }
    }

    /// The symbols are as in `o`.
    pub open spec fn same_symbols(&self, o: &ThemeStyle) -> bool {
        &&& self.library_highlight_symbol@ == o.library_highlight_symbol@
        &&& self.playlist_highlight_symbol@ == o.playlist_highlight_symbol@
        &&& self.current_track_symbol@ == o.current_track_symbol@
    }

    /// This style is `o` with the color field `id` (if it is one) given `c`.
    pub open spec fn color_set(&self, o: &ThemeStyle, id: IdCETheme, c: ThemeColor) -> bool {
        &&& self.colors@ == match color_slot_spec(id) {
            Some(k) => o.colors@.update(k as int, c),
            None => o.colors@,
        }
        &&& self.same_symbols(o)
    }

    /// This style is `o` with the symbol field `id` (if it is one) given `s`.
    pub open spec fn symbol_set(&self, o: &ThemeStyle, id: IdCETheme, s: Seq<char>) -> bool {
        &&& self.colors@ == o.colors@
        &&& self.library_highlight_symbol@ == if id == IdCETheme::LibraryHighlightSymbol {
            s
        } else {
            o.library_highlight_symbol@
        }
        &&& self.playlist_highlight_symbol@ == if id == IdCETheme::PlaylistHighlightSymbol {
            s
        } else {
            o.playlist_highlight_symbol@
        }
        &&& self.current_track_symbol@ == if id == IdCETheme::CurrentlyPlayingTrackSymbol {
            s
        } else {
            o.current_track_symbol@
        }
    }

    /// A style with every color reset and no symbols.
    pub fn plain() -> (r: Self)
        ensures
            r.wf(),
            forall|i: int| 0 <= i < COLOR_FIELDS ==> r.colors@[i] == ThemeColor::Reset,
            r.library_highlight_symbol@.len() == 0,
            r.playlist_highlight_symbol@.len() == 0,
            r.current_track_symbol@.len() == 0,
    {
        let mut colors: Vec<ThemeColor> = Vec::new();
        let mut i: usize = 0;
        while i < COLOR_FIELDS
            invariant
                i <= COLOR_FIELDS,
                colors@.len() == i,
                forall|j: int| 0 <= j < i ==> colors@[j] == ThemeColor::Reset,
            decreases COLOR_FIELDS - i,
        {
            colors.push(ThemeColor::Reset);
            i = i + 1;
        }
        ThemeStyle {
            colors,
            library_highlight_symbol: String::new(),
            playlist_highlight_symbol: String::new(),
            current_track_symbol: String::new(),
        }
    }

    /// A copy of this style.
    pub fn duplicate(&self) -> (r: Self)
        ensures
            r.colors@ == self.colors@,
            r.same_symbols(self),
    {
        let mut colors: Vec<ThemeColor> = Vec::new();
        let mut i: usize = 0;
        while i < self.colors.len()
            invariant
                i <= self.colors@.len(),
                colors@ == self.colors@.take(i as int),
            decreases self.colors@.len() - i,
        {
            colors.push(self.colors[i]);
            proof {
                assert(colors@ =~= self.colors@.take(i + 1));
            }
            i = i + 1;
        }
        proof {
            assert(self.colors@.take(self.colors@.len() as int) =~= self.colors@);
        }
        ThemeStyle {
            colors,
            library_highlight_symbol: self.library_highlight_symbol.clone(),
            playlist_highlight_symbol: self.playlist_highlight_symbol.clone(),
            current_track_symbol: self.current_track_symbol.clone(),
        }
    }

    /// Give the color field `id` the color `c`; other fields are left as they are.
    pub fn set_color(&mut self, id: IdCETheme, c: ThemeColor)
        requires
            old(self).wf(),
        ensures
            final(self).wf(),
            final(self).color_set(&*old(self), id, c),
    {
        if let Some(k) = color_slot(id) {
            self.colors.set(k, c);
        }
    }

    /// Give the symbol field `id` the symbol `s`; other fields are left as they are.
    pub fn set_symbol(&mut self, id: IdCETheme, s: String)
        ensures
            final(self).symbol_set(&*old(self), id, s@),
    {
        match id {
            IdCETheme::LibraryHighlightSymbol => self.library_highlight_symbol = s,
            IdCETheme::PlaylistHighlightSymbol => self.playlist_highlight_symbol = s,
            IdCETheme::CurrentlyPlayingTrackSymbol => self.current_track_symbol = s,
            _ => {},
        }
    }
}

/// Giving a color field the color at position `i` of the list, and then
/// mounting the field again, shows position `i` chosen: the field reads back
/// the color it was given, and every other field keeps its color. (The config
/// editor gives a field the color chosen in it when `color_change_stored`.)
pub proof fn lemma_chosen_color_read_back(
    before: ThemeStyle,
    after: ThemeStyle,
    id: IdCETheme,
    other: IdCETheme,
    i: int,
)
    requires
        before.wf(),
        color_slot_spec(id) is Some,
        0 <= i < COLOR_COUNT,
        after.color_set(&before, id, color_at_spec(i)->0),
    ensures
        after.wf(),
        after.color_of(id) matches Some(c) && color_index_spec(c) == i,
        other != id ==> after.color_of(other) == before.color_of(other),
{
}

/// The position in the color list of the color that the color field `id`
/// holds in `style`: the choice the field shows when it is mounted.
pub fn init_color_select(id: IdCETheme, style: &ThemeStyle) -> (r: usize)
    requires
        style.wf(),
        color_slot_spec(id) is Some,
    ensures
        style.color_of(id) matches Some(c) && r == color_index_spec(c),
{
    let k = match color_slot(id) {
        Some(k) => k,
        None => 0,
    };
    color_index(style.colors[k])
}

} // verus!
