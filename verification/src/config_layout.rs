//! How the pages of the config editor are laid out: the height of each group
//! of fields, and which cell holds the focused field.
use vstd::prelude::*;

use crate::config_editor::{KeyDisplay, KeyDisplayType};
use crate::ids::{Id, IdCEGeneral, IdCETheme, IdConfigEditor, IdKey};

verus! {

/// The height of a field with a choice list: taller while the list is expanded.
pub open spec fn field_height(expanded: bool) -> u16 {
    if expanded {
        8
    } else {
        3
    }
}

/// Whether `id` is among `ids`.
fn theme_listed(ids: &Vec<IdCETheme>, id: IdCETheme) -> (r: bool)
    ensures
        r == ids@.contains(id),
{
    let mut i: usize = 0;
    while i < ids.len()
        invariant
            i <= ids@.len(),
            forall|j: int| 0 <= j < i ==> ids@[j] != id,
        decreases ids@.len() - i,
    {
        if ids[i] == id {
            return true;
        }
        i = i + 1;
    }
    false
}

/// Whether `id` is among `ids`.
fn key_listed(ids: &Vec<IdKey>, id: IdKey) -> (r: bool)
    ensures
        r == ids@.contains(id),
{
    let mut i: usize = 0;
    while i < ids.len()
        invariant
            i <= ids@.len(),
            forall|j: int| 0 <= j < i ==> ids@[j] != id,
        decreases ids@.len() - i,
    {
        if ids[i] == id {
            return true;
        }
        i = i + 1;
    }
    false
}

/// The height of a color field of the theme page.
pub open spec fn theme_len(expanded: Seq<IdCETheme>, id: IdCETheme) -> int {
    field_height(expanded.contains(id)) as int
}

/// The heights of the groups of the theme page, in the order they are drawn:
/// library, playlist, progress, lyric, important popup, fallback. Each has a
/// label line, its color fields, and the symbol fields of three lines.
pub open spec fn theme_group_heights_of(expanded: Seq<IdCETheme>) -> Seq<u16> {
    seq![
        (1 + theme_len(expanded, IdCETheme::LibraryForeground) + theme_len(expanded, IdCETheme::LibraryBackground)
            + theme_len(expanded, IdCETheme::LibraryBorder) + theme_len(expanded, IdCETheme::LibraryHighlight)
            + 3) as u16,
        (1 + theme_len(expanded, IdCETheme::PlaylistForeground) + theme_len(expanded, IdCETheme::PlaylistBackground)
            + theme_len(expanded, IdCETheme::PlaylistBorder) + theme_len(expanded, IdCETheme::PlaylistHighlight)
            + 3 + 3) as u16,
        (1 + theme_len(expanded, IdCETheme::ProgressForeground) + theme_len(expanded, IdCETheme::ProgressBackground)
            + theme_len(expanded, IdCETheme::ProgressBorder)) as u16,
        (1 + theme_len(expanded, IdCETheme::LyricForeground) + theme_len(expanded, IdCETheme::LyricBackground)
            + theme_len(expanded, IdCETheme::LyricBorder)) as u16,
        (1 + theme_len(expanded, IdCETheme::ImportantPopupForeground) + theme_len(
            expanded,
            IdCETheme::ImportantPopupBackground,
        ) + theme_len(expanded, IdCETheme::ImportantPopupBorder)) as u16,
        (1 + theme_len(expanded, IdCETheme::FallbackForeground) + theme_len(expanded, IdCETheme::FallbackBackground)
            + theme_len(expanded, IdCETheme::FallbackBorder) + theme_len(expanded, IdCETheme::FallbackHighlight)) as u16,
    ]
}

/// The height of a color field of the theme page.
fn theme_field_len(expanded: &Vec<IdCETheme>, id: IdCETheme) -> (r: u16)
    ensures
        r == theme_len(expanded@, id),
{
    if theme_listed(expanded, id) {
        8
    } else {
        3
    }
}

/// The heights of the groups of the theme page; `expanded` holds the color
/// fields whose choice list is expanded.
pub fn theme_group_heights(expanded: &Vec<IdCETheme>) -> (r: Vec<u16>)
    ensures
        r@ == theme_group_heights_of(expanded@),
{
    let library = 1 + theme_field_len(expanded, IdCETheme::LibraryForeground) + theme_field_len(
        expanded,
        IdCETheme::LibraryBackground,
    ) + theme_field_len(expanded, IdCETheme::LibraryBorder) + theme_field_len(
        expanded,
        IdCETheme::LibraryHighlight,
    ) + 3;
    let playlist = 1 + theme_field_len(expanded, IdCETheme::PlaylistForeground) + theme_field_len(
        expanded,
        IdCETheme::PlaylistBackground,
    ) + theme_field_len(expanded, IdCETheme::PlaylistBorder) + theme_field_len(
        expanded,
        IdCETheme::PlaylistHighlight,
    ) + 3 + 3;
    let progress = 1 + theme_field_len(expanded, IdCETheme::ProgressForeground) + theme_field_len(
        expanded,
        IdCETheme::ProgressBackground,
    ) + theme_field_len(expanded, IdCETheme::ProgressBorder);
    let lyric = 1 + theme_field_len(expanded, IdCETheme::LyricForeground) + theme_field_len(
        expanded,
        IdCETheme::LyricBackground,
    ) + theme_field_len(expanded, IdCETheme::LyricBorder);
    let popup = 1 + theme_field_len(expanded, IdCETheme::ImportantPopupForeground) + theme_field_len(
        expanded,
        IdCETheme::ImportantPopupBackground,
    ) + theme_field_len(expanded, IdCETheme::ImportantPopupBorder);
    let fallback = 1 + theme_field_len(expanded, IdCETheme::FallbackForeground) + theme_field_len(
        expanded,
        IdCETheme::FallbackBackground,
    ) + theme_field_len(expanded, IdCETheme::FallbackBorder) + theme_field_len(
        expanded,
        IdCETheme::FallbackHighlight,
    );
    let r = vec![library, playlist, progress, lyric, popup, fallback];
    proof {
        assert(r@ =~= theme_group_heights_of(expanded@));
    }
    r
}

/// The group of the theme page a field belongs to; the theme table belongs to none.
pub open spec fn theme_group_of(id: IdCETheme) -> Option<usize> {
    match id {
        IdCETheme::ThemeSelectTable => None,
        IdCETheme::LibraryLabel
        | IdCETheme::LibraryForeground
        | IdCETheme::LibraryBackground
        | IdCETheme::LibraryBorder
        | IdCETheme::LibraryHighlight
        | IdCETheme::LibraryHighlightSymbol => Some(0),
        IdCETheme::PlaylistLabel
        | IdCETheme::PlaylistForeground
        | IdCETheme::PlaylistBackground
        | IdCETheme::PlaylistBorder
        | IdCETheme::PlaylistHighlight
        | IdCETheme::PlaylistHighlightSymbol
        | IdCETheme::CurrentlyPlayingTrackSymbol => Some(1),
        IdCETheme::ProgressLabel
        | IdCETheme::ProgressForeground
        | IdCETheme::ProgressBackground
        | IdCETheme::ProgressBorder => Some(2),
        IdCETheme::LyricLabel
        | IdCETheme::LyricForeground
        | IdCETheme::LyricBackground
        | IdCETheme::LyricBorder => Some(3),
        IdCETheme::ImportantPopupLabel
        | IdCETheme::ImportantPopupForeground
        | IdCETheme::ImportantPopupBackground
        | IdCETheme::ImportantPopupBorder => Some(4),
        IdCETheme::FallbackLabel
        | IdCETheme::FallbackForeground
        | IdCETheme::FallbackBackground
        | IdCETheme::FallbackBorder
        | IdCETheme::FallbackHighlight => Some(5),
    }
}

/// The group of the theme page that holds the focused component, if it is one of its fields.
pub open spec fn theme_focus_group_of(focus: Option<Id>) -> Option<usize> {
    match focus {
        Some(Id::ConfigEditor(IdConfigEditor::Theme(t))) => theme_group_of(t),
        _ => None,
    }
}

/// The group of the theme page that holds the focused component; see `theme_focus_group_of`.
pub fn theme_focus_group(focus: Option<Id>) -> (r: Option<usize>)
    ensures
        r == theme_focus_group_of(focus),
{
    match focus {
        Some(Id::ConfigEditor(IdConfigEditor::Theme(t))) => match t {
            IdCETheme::ThemeSelectTable => None,
            IdCETheme::LibraryLabel
            | IdCETheme::LibraryForeground
            | IdCETheme::LibraryBackground
            | IdCETheme::LibraryBorder
            | IdCETheme::LibraryHighlight
            | IdCETheme::LibraryHighlightSymbol => Some(0),
            IdCETheme::PlaylistLabel
            | IdCETheme::PlaylistForeground
            | IdCETheme::PlaylistBackground
            | IdCETheme::PlaylistBorder
            | IdCETheme::PlaylistHighlight
            | IdCETheme::PlaylistHighlightSymbol
            | IdCETheme::CurrentlyPlayingTrackSymbol => Some(1),
            IdCETheme::ProgressLabel
            | IdCETheme::ProgressForeground
            | IdCETheme::ProgressBackground
            | IdCETheme::ProgressBorder => Some(2),
            IdCETheme::LyricLabel
            | IdCETheme::LyricForeground
            | IdCETheme::LyricBackground
            | IdCETheme::LyricBorder => Some(3),
            IdCETheme::ImportantPopupLabel
            | IdCETheme::ImportantPopupForeground
            | IdCETheme::ImportantPopupBackground
            | IdCETheme::ImportantPopupBorder => Some(4),
            IdCETheme::FallbackLabel
            | IdCETheme::FallbackForeground
            | IdCETheme::FallbackBackground
            | IdCETheme::FallbackBorder
            | IdCETheme::FallbackHighlight => Some(5),
        },
        _ => None,
    }
}

/// The cell of the general page that shows a field; the player backend field has none.
pub open spec fn general_cell_of(id: IdCEGeneral) -> Option<usize> {
    match id {
        IdCEGeneral::MusicDir => Some(0),
        IdCEGeneral::ExitConfirmation => Some(1),
        IdCEGeneral::PlaylistDisplaySymbol => Some(2),
        IdCEGeneral::PlaylistRandomTrack => Some(3),
        IdCEGeneral::PlaylistRandomAlbum => Some(4),
        IdCEGeneral::PodcastDir => Some(5),
        IdCEGeneral::PodcastSimulDownload => Some(6),
        IdCEGeneral::PodcastMaxRetries => Some(7),
        IdCEGeneral::AlbumPhotoAlign => Some(8),
        IdCEGeneral::SaveLastPosition => Some(9),
        IdCEGeneral::SeekStep => Some(10),
        IdCEGeneral::KillDamon => Some(11),
        IdCEGeneral::PlayerUseMpris => Some(12),
        IdCEGeneral::PlayerUseDiscord => Some(13),
        IdCEGeneral::PlayerPort => Some(14),
        IdCEGeneral::PlayerAddress => Some(15),
        IdCEGeneral::PlayerProtocol => Some(16),
        IdCEGeneral::PlayerUDSPath => Some(17),
        IdCEGeneral::PlayerBackend => None,
        IdCEGeneral::ExtraYtdlpArgs => Some(18),
    }
}

/// The cell of the general page that holds the focused component, if it is one of its fields.
pub open spec fn general_focus_cell_of(focus: Option<Id>) -> Option<usize> {
    match focus {
        Some(Id::ConfigEditor(IdConfigEditor::General(g))) => general_cell_of(g),
        _ => None,
    }
}

/// The cell of the general page that holds the focused component; see `general_focus_cell_of`.
pub fn general_focus_cell(focus: Option<Id>) -> (r: Option<usize>)
    ensures
        r == general_focus_cell_of(focus),
{
    match focus {
        Some(Id::ConfigEditor(IdConfigEditor::General(g))) => match g {
            IdCEGeneral::MusicDir => Some(0),
            IdCEGeneral::ExitConfirmation => Some(1),
            IdCEGeneral::PlaylistDisplaySymbol => Some(2),
            IdCEGeneral::PlaylistRandomTrack => Some(3),
            IdCEGeneral::PlaylistRandomAlbum => Some(4),
            IdCEGeneral::PodcastDir => Some(5),
            IdCEGeneral::PodcastSimulDownload => Some(6),
            IdCEGeneral::PodcastMaxRetries => Some(7),
            IdCEGeneral::AlbumPhotoAlign => Some(8),
            IdCEGeneral::SaveLastPosition => Some(9),
            IdCEGeneral::SeekStep => Some(10),
            IdCEGeneral::KillDamon => Some(11),
            IdCEGeneral::PlayerUseMpris => Some(12),
            IdCEGeneral::PlayerUseDiscord => Some(13),
            IdCEGeneral::PlayerPort => Some(14),
            IdCEGeneral::PlayerAddress => Some(15),
            IdCEGeneral::PlayerProtocol => Some(16),
            IdCEGeneral::PlayerUDSPath => Some(17),
            IdCEGeneral::PlayerBackend => None,
            IdCEGeneral::ExtraYtdlpArgs => Some(18),
        },
        _ => None,
    }
}

/// The key field a focused component is, for a key page of the given kind.
pub open spec fn focused_key_of(kind: KeyDisplayType, focus: Option<Id>) -> Option<IdKey> {
    match (kind, focus) {
        (KeyDisplayType::Global, Some(Id::ConfigEditor(IdConfigEditor::KeyGlobal(k)))) => Some(IdKey::Global(k)),
        (KeyDisplayType::Other, Some(Id::ConfigEditor(IdConfigEditor::KeyOther(k)))) => Some(IdKey::Other(k)),
        _ => None,
    }
}

impl KeyDisplay {
    /// The height of each field of the page, in order; `expanded` holds the
    /// key fields whose choice list is expanded.
    pub fn elem_heights(&self, expanded: &Vec<IdKey>) -> (r: Vec<u16>)
        ensures
            r@.len() == self.elems@.len(),
            forall|i: int|
                0 <= i < r@.len() ==> r@[i] == field_height(#[trigger] expanded@.contains(self.elems@[i])),
    {
        let mut r: Vec<u16> = Vec::new();
        let mut i: usize = 0;
        while i < self.elems.len()
            invariant
                i <= self.elems@.len(),
                r@.len() == i,
                forall|j: int|
                    0 <= j < i ==> r@[j] == field_height(#[trigger] expanded@.contains(self.elems@[j])),
            decreases self.elems@.len() - i,
        {
            let h: u16 = if key_listed(expanded, self.elems[i]) {
                8
            } else {
                3
            };
            r.push(h);
            i = i + 1;
        }
        r
    }

    /// The cell of the page that holds the focused component: the first field
    /// that is the focused key field, if the focus is on a field of this page's kind.
    pub fn focus_index(&self, focus: Option<Id>) -> (r: Option<usize>)
        ensures
            match r {
                Some(i) => {
                    &&& i < self.elems@.len()
                    &&& focused_key_of(self.discriminant, focus) == Some(self.elems@[i as int])
                    &&& forall|j: int| 0 <= j < i ==> Some(self.elems@[j]) != focused_key_of(self.discriminant, focus)
                },
                None => forall|j: int|
                    0 <= j < self.elems@.len() ==> Some(self.elems@[j]) != focused_key_of(self.discriminant, focus),
            },
    {
        let key = match (self.discriminant, focus) {
            (KeyDisplayType::Global, Some(Id::ConfigEditor(IdConfigEditor::KeyGlobal(k)))) => IdKey::Global(k),
            (KeyDisplayType::Other, Some(Id::ConfigEditor(IdConfigEditor::KeyOther(k)))) => IdKey::Other(k),
            _ => {
                return None;
            },
        };
        let mut i: usize = 0;
        while i < self.elems.len()
            invariant
                i <= self.elems@.len(),
                focused_key_of(self.discriminant, focus) == Some(key),
                forall|j: int| 0 <= j < i ==> self.elems@[j] != key,
            decreases self.elems@.len() - i,
        {
            if self.elems[i] == key {
                return Some(i);
            }
            i = i + 1;
        }
        None
    }
}

} // verus!
