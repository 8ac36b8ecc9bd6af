//! The fields of the config editor's pages: the orders in which they are
//! mounted and unmounted, and the rings along which the focus moves.
use vstd::prelude::*;

use crate::ids::{IdCEGeneral, IdCETheme, IdConfigEditor, IdKeyGlobal, IdKeyOther};

verus! {

/// The fields of the general page, in the order they are mounted.
pub open spec fn general_ids() -> Seq<IdConfigEditor> {
    seq![
        IdConfigEditor::General(IdCEGeneral::MusicDir),
        IdConfigEditor::General(IdCEGeneral::ExitConfirmation),
        IdConfigEditor::General(IdCEGeneral::PlaylistDisplaySymbol),
        IdConfigEditor::General(IdCEGeneral::PlaylistRandomTrack),
        IdConfigEditor::General(IdCEGeneral::PlaylistRandomAlbum),
        IdConfigEditor::General(IdCEGeneral::PodcastDir),
        IdConfigEditor::General(IdCEGeneral::PodcastSimulDownload),
        IdConfigEditor::General(IdCEGeneral::PodcastMaxRetries),
        IdConfigEditor::General(IdCEGeneral::AlbumPhotoAlign),
        IdConfigEditor::General(IdCEGeneral::SaveLastPosition),
        IdConfigEditor::General(IdCEGeneral::SeekStep),
        IdConfigEditor::General(IdCEGeneral::KillDamon),
        IdConfigEditor::General(IdCEGeneral::PlayerUseMpris),
        IdConfigEditor::General(IdCEGeneral::PlayerUseDiscord),
        IdConfigEditor::General(IdCEGeneral::PlayerPort),
        IdConfigEditor::General(IdCEGeneral::PlayerAddress),
        IdConfigEditor::General(IdCEGeneral::PlayerProtocol),
        IdConfigEditor::General(IdCEGeneral::PlayerUDSPath),
        IdConfigEditor::General(IdCEGeneral::PlayerBackend),
        IdConfigEditor::General(IdCEGeneral::ExtraYtdlpArgs),
    ]
}

/// The fields of the general page, in the order they are mounted.
pub fn general_ids_vec() -> (v: Vec<IdConfigEditor>)
    ensures
        v@ == general_ids(),
{
    vec![
        IdConfigEditor::General(IdCEGeneral::MusicDir),
        IdConfigEditor::General(IdCEGeneral::ExitConfirmation),
        IdConfigEditor::General(IdCEGeneral::PlaylistDisplaySymbol),
        IdConfigEditor::General(IdCEGeneral::PlaylistRandomTrack),
        IdConfigEditor::General(IdCEGeneral::PlaylistRandomAlbum),
        IdConfigEditor::General(IdCEGeneral::PodcastDir),
        IdConfigEditor::General(IdCEGeneral::PodcastSimulDownload),
        IdConfigEditor::General(IdCEGeneral::PodcastMaxRetries),
        IdConfigEditor::General(IdCEGeneral::AlbumPhotoAlign),
        IdConfigEditor::General(IdCEGeneral::SaveLastPosition),
        IdConfigEditor::General(IdCEGeneral::SeekStep),
        IdConfigEditor::General(IdCEGeneral::KillDamon),
        IdConfigEditor::General(IdCEGeneral::PlayerUseMpris),
        IdConfigEditor::General(IdCEGeneral::PlayerUseDiscord),
        IdConfigEditor::General(IdCEGeneral::PlayerPort),
        IdConfigEditor::General(IdCEGeneral::PlayerAddress),
        IdConfigEditor::General(IdCEGeneral::PlayerProtocol),
        IdConfigEditor::General(IdCEGeneral::PlayerUDSPath),
        IdConfigEditor::General(IdCEGeneral::PlayerBackend),
        IdConfigEditor::General(IdCEGeneral::ExtraYtdlpArgs),
    ]
}

/// The fields of the general page, in the order they are unmounted.
pub open spec fn general_umount_ids() -> Seq<IdConfigEditor> {
    seq![
        IdConfigEditor::General(IdCEGeneral::MusicDir),
        IdConfigEditor::General(IdCEGeneral::ExitConfirmation),
        IdConfigEditor::General(IdCEGeneral::PlaylistDisplaySymbol),
        IdConfigEditor::General(IdCEGeneral::PlaylistRandomAlbum),
        IdConfigEditor::General(IdCEGeneral::PlaylistRandomTrack),
        IdConfigEditor::General(IdCEGeneral::PodcastDir),
        IdConfigEditor::General(IdCEGeneral::PodcastSimulDownload),
        IdConfigEditor::General(IdCEGeneral::PodcastMaxRetries),
        IdConfigEditor::General(IdCEGeneral::AlbumPhotoAlign),
        IdConfigEditor::General(IdCEGeneral::SaveLastPosition),
        IdConfigEditor::General(IdCEGeneral::SeekStep),
        IdConfigEditor::General(IdCEGeneral::KillDamon),
        IdConfigEditor::General(IdCEGeneral::PlayerUseMpris),
        IdConfigEditor::General(IdCEGeneral::PlayerUseDiscord),
        IdConfigEditor::General(IdCEGeneral::PlayerPort),
        IdConfigEditor::General(IdCEGeneral::PlayerAddress),
        IdConfigEditor::General(IdCEGeneral::PlayerProtocol),
        IdConfigEditor::General(IdCEGeneral::PlayerUDSPath),
        IdConfigEditor::General(IdCEGeneral::PlayerBackend),
        IdConfigEditor::General(IdCEGeneral::ExtraYtdlpArgs),
    ]
}

/// The fields of the general page, in the order they are unmounted.
pub fn general_umount_ids_vec() -> (v: Vec<IdConfigEditor>)
    ensures
        v@ == general_umount_ids(),
{
    vec![
        IdConfigEditor::General(IdCEGeneral::MusicDir),
        IdConfigEditor::General(IdCEGeneral::ExitConfirmation),
        IdConfigEditor::General(IdCEGeneral::PlaylistDisplaySymbol),
        IdConfigEditor::General(IdCEGeneral::PlaylistRandomAlbum),
        IdConfigEditor::General(IdCEGeneral::PlaylistRandomTrack),
        IdConfigEditor::General(IdCEGeneral::PodcastDir),
        IdConfigEditor::General(IdCEGeneral::PodcastSimulDownload),
        IdConfigEditor::General(IdCEGeneral::PodcastMaxRetries),
        IdConfigEditor::General(IdCEGeneral::AlbumPhotoAlign),
        IdConfigEditor::General(IdCEGeneral::SaveLastPosition),
        IdConfigEditor::General(IdCEGeneral::SeekStep),
        IdConfigEditor::General(IdCEGeneral::KillDamon),
        IdConfigEditor::General(IdCEGeneral::PlayerUseMpris),
        IdConfigEditor::General(IdCEGeneral::PlayerUseDiscord),
        IdConfigEditor::General(IdCEGeneral::PlayerPort),
        IdConfigEditor::General(IdCEGeneral::PlayerAddress),
        IdConfigEditor::General(IdCEGeneral::PlayerProtocol),
        IdConfigEditor::General(IdCEGeneral::PlayerUDSPath),
        IdConfigEditor::General(IdCEGeneral::PlayerBackend),
        IdConfigEditor::General(IdCEGeneral::ExtraYtdlpArgs),
    ]
}

/// The fields of the theme page but its symbols, in the order they are mounted and unmounted.
pub open spec fn color_ids() -> Seq<IdConfigEditor> {
    seq![
        IdConfigEditor::Theme(IdCETheme::ThemeSelectTable),
        IdConfigEditor::Theme(IdCETheme::LibraryLabel),
        IdConfigEditor::Theme(IdCETheme::LibraryForeground),
        IdConfigEditor::Theme(IdCETheme::LibraryBackground),
        IdConfigEditor::Theme(IdCETheme::LibraryBorder),
        IdConfigEditor::Theme(IdCETheme::LibraryHighlight),
        IdConfigEditor::Theme(IdCETheme::PlaylistLabel),
        IdConfigEditor::Theme(IdCETheme::PlaylistForeground),
        IdConfigEditor::Theme(IdCETheme::PlaylistBackground),
        IdConfigEditor::Theme(IdCETheme::PlaylistBorder),
        IdConfigEditor::Theme(IdCETheme::PlaylistHighlight),
        IdConfigEditor::Theme(IdCETheme::ProgressLabel),
        IdConfigEditor::Theme(IdCETheme::ProgressForeground),
        IdConfigEditor::Theme(IdCETheme::ProgressBackground),
        IdConfigEditor::Theme(IdCETheme::ProgressBorder),
        IdConfigEditor::Theme(IdCETheme::LyricLabel),
        IdConfigEditor::Theme(IdCETheme::LyricForeground),
        IdConfigEditor::Theme(IdCETheme::LyricBackground),
        IdConfigEditor::Theme(IdCETheme::LyricBorder),
        IdConfigEditor::Theme(IdCETheme::ImportantPopupLabel),
        IdConfigEditor::Theme(IdCETheme::ImportantPopupForeground),
        IdConfigEditor::Theme(IdCETheme::ImportantPopupBackground),
        IdConfigEditor::Theme(IdCETheme::ImportantPopupBorder),
        IdConfigEditor::Theme(IdCETheme::FallbackLabel),
        IdConfigEditor::Theme(IdCETheme::FallbackForeground),
        IdConfigEditor::Theme(IdCETheme::FallbackBackground),
        IdConfigEditor::Theme(IdCETheme::FallbackBorder),
        IdConfigEditor::Theme(IdCETheme::FallbackHighlight),
    ]
}

/// The fields of the theme page but its symbols, in the order they are mounted and unmounted.
pub fn color_ids_vec() -> (v: Vec<IdConfigEditor>)
    ensures
        v@ == color_ids(),
{
    vec![
        IdConfigEditor::Theme(IdCETheme::ThemeSelectTable),
        IdConfigEditor::Theme(IdCETheme::LibraryLabel),
        IdConfigEditor::Theme(IdCETheme::LibraryForeground),
        IdConfigEditor::Theme(IdCETheme::LibraryBackground),
        IdConfigEditor::Theme(IdCETheme::LibraryBorder),
        IdConfigEditor::Theme(IdCETheme::LibraryHighlight),
        IdConfigEditor::Theme(IdCETheme::PlaylistLabel),
        IdConfigEditor::Theme(IdCETheme::PlaylistForeground),
        IdConfigEditor::Theme(IdCETheme::PlaylistBackground),
        IdConfigEditor::Theme(IdCETheme::PlaylistBorder),
        IdConfigEditor::Theme(IdCETheme::PlaylistHighlight),
        IdConfigEditor::Theme(IdCETheme::ProgressLabel),
        IdConfigEditor::Theme(IdCETheme::ProgressForeground),
        IdConfigEditor::Theme(IdCETheme::ProgressBackground),
        IdConfigEditor::Theme(IdCETheme::ProgressBorder),
        IdConfigEditor::Theme(IdCETheme::LyricLabel),
        IdConfigEditor::Theme(IdCETheme::LyricForeground),
        IdConfigEditor::Theme(IdCETheme::LyricBackground),
        IdConfigEditor::Theme(IdCETheme::LyricBorder),
        IdConfigEditor::Theme(IdCETheme::ImportantPopupLabel),
        IdConfigEditor::Theme(IdCETheme::ImportantPopupForeground),
        IdConfigEditor::Theme(IdCETheme::ImportantPopupBackground),
        IdConfigEditor::Theme(IdCETheme::ImportantPopupBorder),
        IdConfigEditor::Theme(IdCETheme::FallbackLabel),
        IdConfigEditor::Theme(IdCETheme::FallbackForeground),
        IdConfigEditor::Theme(IdCETheme::FallbackBackground),
        IdConfigEditor::Theme(IdCETheme::FallbackBorder),
        IdConfigEditor::Theme(IdCETheme::FallbackHighlight),
    ]
}

/// The symbol fields of the theme page.
pub open spec fn color_symbol_ids() -> Seq<IdConfigEditor> {
    seq![
        IdConfigEditor::Theme(IdCETheme::LibraryHighlightSymbol),
        IdConfigEditor::Theme(IdCETheme::PlaylistHighlightSymbol),
        IdConfigEditor::Theme(IdCETheme::CurrentlyPlayingTrackSymbol),
    ]
}

/// The symbol fields of the theme page.
pub fn color_symbol_ids_vec() -> (v: Vec<IdConfigEditor>)
    ensures
        v@ == color_symbol_ids(),
{
    vec![
        IdConfigEditor::Theme(IdCETheme::LibraryHighlightSymbol),
        IdConfigEditor::Theme(IdCETheme::PlaylistHighlightSymbol),
        IdConfigEditor::Theme(IdCETheme::CurrentlyPlayingTrackSymbol),
    ]
}

/// The global key binding fields, in the order they are mounted.
pub open spec fn key_global_ids() -> Seq<IdConfigEditor> {
    seq![
        IdConfigEditor::KeyGlobal(IdKeyGlobal::Quit),
        IdConfigEditor::KeyGlobal(IdKeyGlobal::Left),
        IdConfigEditor::KeyGlobal(IdKeyGlobal::Right),
        IdConfigEditor::KeyGlobal(IdKeyGlobal::Up),
        IdConfigEditor::KeyGlobal(IdKeyGlobal::Down),
        IdConfigEditor::KeyGlobal(IdKeyGlobal::GotoTop),
        IdConfigEditor::KeyGlobal(IdKeyGlobal::GotoBottom),
        IdConfigEditor::KeyGlobal(IdKeyGlobal::PlayerTogglePause),
        IdConfigEditor::KeyGlobal(IdKeyGlobal::PlayerNext),
        IdConfigEditor::KeyGlobal(IdKeyGlobal::PlayerPrevious),
        IdConfigEditor::KeyGlobal(IdKeyGlobal::Help),
        IdConfigEditor::KeyGlobal(IdKeyGlobal::PlayerVolumeUp),
        IdConfigEditor::KeyGlobal(IdKeyGlobal::PlayerVolumeDown),
        IdConfigEditor::KeyGlobal(IdKeyGlobal::PlayerSeekForward),
        IdConfigEditor::KeyGlobal(IdKeyGlobal::PlayerSeekBackward),
        IdConfigEditor::KeyGlobal(IdKeyGlobal::PlayerSpeedUp),
        IdConfigEditor::KeyGlobal(IdKeyGlobal::PlayerSpeedDown),
        IdConfigEditor::KeyGlobal(IdKeyGlobal::LyricAdjustForward),
        IdConfigEditor::KeyGlobal(IdKeyGlobal::LyricAdjustBackward),
        IdConfigEditor::KeyGlobal(IdKeyGlobal::LyricCycle),
        IdConfigEditor::KeyGlobal(IdKeyGlobal::PlayerToggleGapless),
        IdConfigEditor::KeyGlobal(IdKeyGlobal::LayoutTreeview),
        IdConfigEditor::KeyGlobal(IdKeyGlobal::LayoutDatabase),
        IdConfigEditor::KeyGlobal(IdKeyGlobal::Config),
        IdConfigEditor::KeyGlobal(IdKeyGlobal::SavePlaylist),
        IdConfigEditor::KeyGlobal(IdKeyGlobal::LayoutPodcast),
        IdConfigEditor::KeyGlobal(IdKeyGlobal::XywhMoveLeft),
        IdConfigEditor::KeyGlobal(IdKeyGlobal::XywhMoveRight),
        IdConfigEditor::KeyGlobal(IdKeyGlobal::XywhMoveUp),
        IdConfigEditor::KeyGlobal(IdKeyGlobal::XywhMoveDown),
        IdConfigEditor::KeyGlobal(IdKeyGlobal::XywhZoomIn),
        IdConfigEditor::KeyGlobal(IdKeyGlobal::XywhZoomOut),
        IdConfigEditor::KeyGlobal(IdKeyGlobal::XywhHide),
    ]
}

/// The global key binding fields, in the order they are mounted.
pub fn key_global_ids_vec() -> (v: Vec<IdConfigEditor>)
    ensures
        v@ == key_global_ids(),
{
    vec![
        IdConfigEditor::KeyGlobal(IdKeyGlobal::Quit),
        IdConfigEditor::KeyGlobal(IdKeyGlobal::Left),
        IdConfigEditor::KeyGlobal(IdKeyGlobal::Right),
        IdConfigEditor::KeyGlobal(IdKeyGlobal::Up),
        IdConfigEditor::KeyGlobal(IdKeyGlobal::Down),
        IdConfigEditor::KeyGlobal(IdKeyGlobal::GotoTop),
        IdConfigEditor::KeyGlobal(IdKeyGlobal::GotoBottom),
        IdConfigEditor::KeyGlobal(IdKeyGlobal::PlayerTogglePause),
        IdConfigEditor::KeyGlobal(IdKeyGlobal::PlayerNext),
        IdConfigEditor::KeyGlobal(IdKeyGlobal::PlayerPrevious),
        IdConfigEditor::KeyGlobal(IdKeyGlobal::Help),
        IdConfigEditor::KeyGlobal(IdKeyGlobal::PlayerVolumeUp),
        IdConfigEditor::KeyGlobal(IdKeyGlobal::PlayerVolumeDown),
        IdConfigEditor::KeyGlobal(IdKeyGlobal::PlayerSeekForward),
        IdConfigEditor::KeyGlobal(IdKeyGlobal::PlayerSeekBackward),
        IdConfigEditor::KeyGlobal(IdKeyGlobal::PlayerSpeedUp),
        IdConfigEditor::KeyGlobal(IdKeyGlobal::PlayerSpeedDown),
        IdConfigEditor::KeyGlobal(IdKeyGlobal::LyricAdjustForward),
        IdConfigEditor::KeyGlobal(IdKeyGlobal::LyricAdjustBackward),
        IdConfigEditor::KeyGlobal(IdKeyGlobal::LyricCycle),
        IdConfigEditor::KeyGlobal(IdKeyGlobal::PlayerToggleGapless),
        IdConfigEditor::KeyGlobal(IdKeyGlobal::LayoutTreeview),
        IdConfigEditor::KeyGlobal(IdKeyGlobal::LayoutDatabase),
        IdConfigEditor::KeyGlobal(IdKeyGlobal::Config),
        IdConfigEditor::KeyGlobal(IdKeyGlobal::SavePlaylist),
        IdConfigEditor::KeyGlobal(IdKeyGlobal::LayoutPodcast),
        IdConfigEditor::KeyGlobal(IdKeyGlobal::XywhMoveLeft),
        IdConfigEditor::KeyGlobal(IdKeyGlobal::XywhMoveRight),
        IdConfigEditor::KeyGlobal(IdKeyGlobal::XywhMoveUp),
        IdConfigEditor::KeyGlobal(IdKeyGlobal::XywhMoveDown),
        IdConfigEditor::KeyGlobal(IdKeyGlobal::XywhZoomIn),
        IdConfigEditor::KeyGlobal(IdKeyGlobal::XywhZoomOut),
        IdConfigEditor::KeyGlobal(IdKeyGlobal::XywhHide),
    ]
}

/// The global key binding fields, in the order they are unmounted.
pub open spec fn key_global_umount_ids() -> Seq<IdConfigEditor> {
    seq![
        IdConfigEditor::KeyGlobal(IdKeyGlobal::Quit),
        IdConfigEditor::KeyGlobal(IdKeyGlobal::Left),
        IdConfigEditor::KeyGlobal(IdKeyGlobal::Right),
        IdConfigEditor::KeyGlobal(IdKeyGlobal::Up),
        IdConfigEditor::KeyGlobal(IdKeyGlobal::Down),
        IdConfigEditor::KeyGlobal(IdKeyGlobal::GotoTop),
        IdConfigEditor::KeyGlobal(IdKeyGlobal::GotoBottom),
        IdConfigEditor::KeyGlobal(IdKeyGlobal::PlayerTogglePause),
        IdConfigEditor::KeyGlobal(IdKeyGlobal::PlayerNext),
        IdConfigEditor::KeyGlobal(IdKeyGlobal::PlayerPrevious),
        IdConfigEditor::KeyGlobal(IdKeyGlobal::Help),
        IdConfigEditor::KeyGlobal(IdKeyGlobal::PlayerVolumeUp),
        IdConfigEditor::KeyGlobal(IdKeyGlobal::PlayerVolumeDown),
        IdConfigEditor::KeyGlobal(IdKeyGlobal::PlayerSeekForward),
        IdConfigEditor::KeyGlobal(IdKeyGlobal::PlayerSeekBackward),
        IdConfigEditor::KeyGlobal(IdKeyGlobal::PlayerSpeedUp),
        IdConfigEditor::KeyGlobal(IdKeyGlobal::PlayerSpeedDown),
        IdConfigEditor::KeyGlobal(IdKeyGlobal::LyricAdjustForward),
        IdConfigEditor::KeyGlobal(IdKeyGlobal::LyricAdjustBackward),
        IdConfigEditor::KeyGlobal(IdKeyGlobal::LyricCycle),
        IdConfigEditor::KeyGlobal(IdKeyGlobal::LayoutDatabase),
        IdConfigEditor::KeyGlobal(IdKeyGlobal::LayoutTreeview),
        IdConfigEditor::KeyGlobal(IdKeyGlobal::PlayerToggleGapless),
        IdConfigEditor::KeyGlobal(IdKeyGlobal::Config),
        IdConfigEditor::KeyGlobal(IdKeyGlobal::SavePlaylist),
        IdConfigEditor::KeyGlobal(IdKeyGlobal::LayoutPodcast),
        IdConfigEditor::KeyGlobal(IdKeyGlobal::XywhMoveLeft),
        IdConfigEditor::KeyGlobal(IdKeyGlobal::XywhMoveRight),
        IdConfigEditor::KeyGlobal(IdKeyGlobal::XywhMoveUp),
        IdConfigEditor::KeyGlobal(IdKeyGlobal::XywhMoveDown),
        IdConfigEditor::KeyGlobal(IdKeyGlobal::XywhZoomIn),
        IdConfigEditor::KeyGlobal(IdKeyGlobal::XywhZoomOut),
        IdConfigEditor::KeyGlobal(IdKeyGlobal::XywhHide),
    ]
}

/// The global key binding fields, in the order they are unmounted.
pub fn key_global_umount_ids_vec() -> (v: Vec<IdConfigEditor>)
    ensures
        v@ == key_global_umount_ids(),
{
    vec![
        IdConfigEditor::KeyGlobal(IdKeyGlobal::Quit),
        IdConfigEditor::KeyGlobal(IdKeyGlobal::Left),
        IdConfigEditor::KeyGlobal(IdKeyGlobal::Right),
        IdConfigEditor::KeyGlobal(IdKeyGlobal::Up),
        IdConfigEditor::KeyGlobal(IdKeyGlobal::Down),
        IdConfigEditor::KeyGlobal(IdKeyGlobal::GotoTop),
        IdConfigEditor::KeyGlobal(IdKeyGlobal::GotoBottom),
        IdConfigEditor::KeyGlobal(IdKeyGlobal::PlayerTogglePause),
        IdConfigEditor::KeyGlobal(IdKeyGlobal::PlayerNext),
        IdConfigEditor::KeyGlobal(IdKeyGlobal::PlayerPrevious),
        IdConfigEditor::KeyGlobal(IdKeyGlobal::Help),
        IdConfigEditor::KeyGlobal(IdKeyGlobal::PlayerVolumeUp),
        IdConfigEditor::KeyGlobal(IdKeyGlobal::PlayerVolumeDown),
        IdConfigEditor::KeyGlobal(IdKeyGlobal::PlayerSeekForward),
        IdConfigEditor::KeyGlobal(IdKeyGlobal::PlayerSeekBackward),
        IdConfigEditor::KeyGlobal(IdKeyGlobal::PlayerSpeedUp),
        IdConfigEditor::KeyGlobal(IdKeyGlobal::PlayerSpeedDown),
        IdConfigEditor::KeyGlobal(IdKeyGlobal::LyricAdjustForward),
        IdConfigEditor::KeyGlobal(IdKeyGlobal::LyricAdjustBackward),
        IdConfigEditor::KeyGlobal(IdKeyGlobal::LyricCycle),
        IdConfigEditor::KeyGlobal(IdKeyGlobal::LayoutDatabase),
        IdConfigEditor::KeyGlobal(IdKeyGlobal::LayoutTreeview),
        IdConfigEditor::KeyGlobal(IdKeyGlobal::PlayerToggleGapless),
        IdConfigEditor::KeyGlobal(IdKeyGlobal::Config),
        IdConfigEditor::KeyGlobal(IdKeyGlobal::SavePlaylist),
        IdConfigEditor::KeyGlobal(IdKeyGlobal::LayoutPodcast),
        IdConfigEditor::KeyGlobal(IdKeyGlobal::XywhMoveLeft),
        IdConfigEditor::KeyGlobal(IdKeyGlobal::XywhMoveRight),
        IdConfigEditor::KeyGlobal(IdKeyGlobal::XywhMoveUp),
        IdConfigEditor::KeyGlobal(IdKeyGlobal::XywhMoveDown),
        IdConfigEditor::KeyGlobal(IdKeyGlobal::XywhZoomIn),
        IdConfigEditor::KeyGlobal(IdKeyGlobal::XywhZoomOut),
        IdConfigEditor::KeyGlobal(IdKeyGlobal::XywhHide),
    ]
}

/// The key binding fields of the library view.
pub open spec fn key_library_ids() -> Seq<IdConfigEditor> {
    seq![
        IdConfigEditor::KeyOther(IdKeyOther::LibraryDelete),
        IdConfigEditor::KeyOther(IdKeyOther::LibraryLoadDir),
        IdConfigEditor::KeyOther(IdKeyOther::LibraryYank),
        IdConfigEditor::KeyOther(IdKeyOther::LibraryPaste),
        IdConfigEditor::KeyOther(IdKeyOther::LibrarySearch),
        IdConfigEditor::KeyOther(IdKeyOther::LibrarySearchYoutube),
        IdConfigEditor::KeyOther(IdKeyOther::LibraryTagEditor),
        IdConfigEditor::KeyOther(IdKeyOther::LibrarySwitchRoot),
        IdConfigEditor::KeyOther(IdKeyOther::LibraryAddRoot),
        IdConfigEditor::KeyOther(IdKeyOther::LibraryRemoveRoot),
    ]
}

/// The key binding fields of the library view.
pub fn key_library_ids_vec() -> (v: Vec<IdConfigEditor>)
    ensures
        v@ == key_library_ids(),
{
    vec![
        IdConfigEditor::KeyOther(IdKeyOther::LibraryDelete),
        IdConfigEditor::KeyOther(IdKeyOther::LibraryLoadDir),
        IdConfigEditor::KeyOther(IdKeyOther::LibraryYank),
        IdConfigEditor::KeyOther(IdKeyOther::LibraryPaste),
        IdConfigEditor::KeyOther(IdKeyOther::LibrarySearch),
        IdConfigEditor::KeyOther(IdKeyOther::LibrarySearchYoutube),
        IdConfigEditor::KeyOther(IdKeyOther::LibraryTagEditor),
        IdConfigEditor::KeyOther(IdKeyOther::LibrarySwitchRoot),
        IdConfigEditor::KeyOther(IdKeyOther::LibraryAddRoot),
        IdConfigEditor::KeyOther(IdKeyOther::LibraryRemoveRoot),
    ]
}

/// The key binding fields of the playlist view, in the order they are mounted.
pub open spec fn key_playlist_ids() -> Seq<IdConfigEditor> {
    seq![
        IdConfigEditor::KeyOther(IdKeyOther::PlaylistDelete),
        IdConfigEditor::KeyOther(IdKeyOther::PlaylistDeleteAll),
        IdConfigEditor::KeyOther(IdKeyOther::PlaylistShuffle),
        IdConfigEditor::KeyOther(IdKeyOther::PlaylistSearch),
        IdConfigEditor::KeyOther(IdKeyOther::PlaylistPlaySelected),
        IdConfigEditor::KeyOther(IdKeyOther::PlaylistModeCycle),
        IdConfigEditor::KeyOther(IdKeyOther::PlaylistSwapDown),
        IdConfigEditor::KeyOther(IdKeyOther::PlaylistSwapUp),
        IdConfigEditor::KeyOther(IdKeyOther::PlaylistAddRandomAlbum),
        IdConfigEditor::KeyOther(IdKeyOther::PlaylistAddRandomTracks),
    ]
}

/// The key binding fields of the playlist view, in the order they are mounted.
pub fn key_playlist_ids_vec() -> (v: Vec<IdConfigEditor>)
    ensures
        v@ == key_playlist_ids(),
{
    vec![
        IdConfigEditor::KeyOther(IdKeyOther::PlaylistDelete),
        IdConfigEditor::KeyOther(IdKeyOther::PlaylistDeleteAll),
        IdConfigEditor::KeyOther(IdKeyOther::PlaylistShuffle),
        IdConfigEditor::KeyOther(IdKeyOther::PlaylistSearch),
        IdConfigEditor::KeyOther(IdKeyOther::PlaylistPlaySelected),
        IdConfigEditor::KeyOther(IdKeyOther::PlaylistModeCycle),
        IdConfigEditor::KeyOther(IdKeyOther::PlaylistSwapDown),
        IdConfigEditor::KeyOther(IdKeyOther::PlaylistSwapUp),
        IdConfigEditor::KeyOther(IdKeyOther::PlaylistAddRandomAlbum),
        IdConfigEditor::KeyOther(IdKeyOther::PlaylistAddRandomTracks),
    ]
}

/// The key binding fields of the playlist view, in the order they are unmounted.
pub open spec fn key_playlist_umount_ids() -> Seq<IdConfigEditor> {
    seq![
        IdConfigEditor::KeyOther(IdKeyOther::PlaylistDelete),
        IdConfigEditor::KeyOther(IdKeyOther::PlaylistDeleteAll),
        IdConfigEditor::KeyOther(IdKeyOther::PlaylistShuffle),
        IdConfigEditor::KeyOther(IdKeyOther::PlaylistModeCycle),
        IdConfigEditor::KeyOther(IdKeyOther::PlaylistPlaySelected),
        IdConfigEditor::KeyOther(IdKeyOther::PlaylistSearch),
        IdConfigEditor::KeyOther(IdKeyOther::PlaylistSwapDown),
        IdConfigEditor::KeyOther(IdKeyOther::PlaylistSwapUp),
        IdConfigEditor::KeyOther(IdKeyOther::PlaylistAddRandomAlbum),
        IdConfigEditor::KeyOther(IdKeyOther::PlaylistAddRandomTracks),
    ]
}

/// The key binding fields of the playlist view, in the order they are unmounted.
pub fn key_playlist_umount_ids_vec() -> (v: Vec<IdConfigEditor>)
    ensures
        v@ == key_playlist_umount_ids(),
{
    vec![
        IdConfigEditor::KeyOther(IdKeyOther::PlaylistDelete),
        IdConfigEditor::KeyOther(IdKeyOther::PlaylistDeleteAll),
        IdConfigEditor::KeyOther(IdKeyOther::PlaylistShuffle),
        IdConfigEditor::KeyOther(IdKeyOther::PlaylistModeCycle),
        IdConfigEditor::KeyOther(IdKeyOther::PlaylistPlaySelected),
        IdConfigEditor::KeyOther(IdKeyOther::PlaylistSearch),
        IdConfigEditor::KeyOther(IdKeyOther::PlaylistSwapDown),
        IdConfigEditor::KeyOther(IdKeyOther::PlaylistSwapUp),
        IdConfigEditor::KeyOther(IdKeyOther::PlaylistAddRandomAlbum),
        IdConfigEditor::KeyOther(IdKeyOther::PlaylistAddRandomTracks),
    ]
}

/// The key binding fields of the database view, as they are mounted.
pub open spec fn key_database_ids() -> Seq<IdConfigEditor> {
    seq![
        IdConfigEditor::KeyOther(IdKeyOther::DatabaseAddAll),
        IdConfigEditor::KeyOther(IdKeyOther::DatabaseAddSelected),
    ]
}

/// The key binding fields of the database view, as they are mounted.
pub fn key_database_ids_vec() -> (v: Vec<IdConfigEditor>)
    ensures
        v@ == key_database_ids(),
{
    vec![
        IdConfigEditor::KeyOther(IdKeyOther::DatabaseAddAll),
        IdConfigEditor::KeyOther(IdKeyOther::DatabaseAddSelected),
    ]
}

/// The key binding fields of the database view that are unmounted.
pub open spec fn key_database_umount_ids() -> Seq<IdConfigEditor> {
    seq![
        IdConfigEditor::KeyOther(IdKeyOther::DatabaseAddAll),
        IdConfigEditor::KeyOther(IdKeyOther::DatabaseAddSelected),
    ]
}

/// The key binding fields of the database view that are unmounted.
pub fn key_database_umount_ids_vec() -> (v: Vec<IdConfigEditor>)
    ensures
        v@ == key_database_umount_ids(),
{
    vec![
        IdConfigEditor::KeyOther(IdKeyOther::DatabaseAddAll),
        IdConfigEditor::KeyOther(IdKeyOther::DatabaseAddSelected),
    ]
}

/// The key binding fields of the podcast view.
pub open spec fn key_podcast_ids() -> Seq<IdConfigEditor> {
    seq![
        IdConfigEditor::KeyOther(IdKeyOther::PodcastMarkPlayed),
        IdConfigEditor::KeyOther(IdKeyOther::PodcastMarkAllPlayed),
        IdConfigEditor::KeyOther(IdKeyOther::PodcastEpDownload),
        IdConfigEditor::KeyOther(IdKeyOther::PodcastEpDeleteFile),
        IdConfigEditor::KeyOther(IdKeyOther::PodcastDeleteFeed),
        IdConfigEditor::KeyOther(IdKeyOther::PodcastDeleteAllFeeds),
        IdConfigEditor::KeyOther(IdKeyOther::PodcastRefreshFeed),
        IdConfigEditor::KeyOther(IdKeyOther::PodcastRefreshAllFeeds),
        IdConfigEditor::KeyOther(IdKeyOther::PodcastSearchAddFeed),
    ]
}

/// The key binding fields of the podcast view.
pub fn key_podcast_ids_vec() -> (v: Vec<IdConfigEditor>)
    ensures
        v@ == key_podcast_ids(),
{
    vec![
        IdConfigEditor::KeyOther(IdKeyOther::PodcastMarkPlayed),
        IdConfigEditor::KeyOther(IdKeyOther::PodcastMarkAllPlayed),
        IdConfigEditor::KeyOther(IdKeyOther::PodcastEpDownload),
        IdConfigEditor::KeyOther(IdKeyOther::PodcastEpDeleteFile),
        IdConfigEditor::KeyOther(IdKeyOther::PodcastDeleteFeed),
        IdConfigEditor::KeyOther(IdKeyOther::PodcastDeleteAllFeeds),
        IdConfigEditor::KeyOther(IdKeyOther::PodcastRefreshFeed),
        IdConfigEditor::KeyOther(IdKeyOther::PodcastRefreshAllFeeds),
        IdConfigEditor::KeyOther(IdKeyOther::PodcastSearchAddFeed),
    ]
}

/// The order in which the focus moves down through the general page.
pub open spec fn general_focus_ring() -> Seq<IdConfigEditor> {
    seq![
        IdConfigEditor::General(IdCEGeneral::MusicDir),
        IdConfigEditor::General(IdCEGeneral::ExitConfirmation),
        IdConfigEditor::General(IdCEGeneral::PlaylistDisplaySymbol),
        IdConfigEditor::General(IdCEGeneral::PlaylistRandomTrack),
        IdConfigEditor::General(IdCEGeneral::PlaylistRandomAlbum),
        IdConfigEditor::General(IdCEGeneral::PodcastDir),
        IdConfigEditor::General(IdCEGeneral::PodcastSimulDownload),
        IdConfigEditor::General(IdCEGeneral::PodcastMaxRetries),
        IdConfigEditor::General(IdCEGeneral::AlbumPhotoAlign),
        IdConfigEditor::General(IdCEGeneral::SaveLastPosition),
        IdConfigEditor::General(IdCEGeneral::SeekStep),
        IdConfigEditor::General(IdCEGeneral::KillDamon),
        IdConfigEditor::General(IdCEGeneral::PlayerUseMpris),
        IdConfigEditor::General(IdCEGeneral::PlayerUseDiscord),
        IdConfigEditor::General(IdCEGeneral::PlayerPort),
        IdConfigEditor::General(IdCEGeneral::ExtraYtdlpArgs),
    ]
}

/// The order in which the focus moves down through the general page.
pub fn general_focus_ring_vec() -> (v: Vec<IdConfigEditor>)
    ensures
        v@ == general_focus_ring(),
{
    vec![
        IdConfigEditor::General(IdCEGeneral::MusicDir),
        IdConfigEditor::General(IdCEGeneral::ExitConfirmation),
        IdConfigEditor::General(IdCEGeneral::PlaylistDisplaySymbol),
        IdConfigEditor::General(IdCEGeneral::PlaylistRandomTrack),
        IdConfigEditor::General(IdCEGeneral::PlaylistRandomAlbum),
        IdConfigEditor::General(IdCEGeneral::PodcastDir),
        IdConfigEditor::General(IdCEGeneral::PodcastSimulDownload),
        IdConfigEditor::General(IdCEGeneral::PodcastMaxRetries),
        IdConfigEditor::General(IdCEGeneral::AlbumPhotoAlign),
        IdConfigEditor::General(IdCEGeneral::SaveLastPosition),
        IdConfigEditor::General(IdCEGeneral::SeekStep),
        IdConfigEditor::General(IdCEGeneral::KillDamon),
        IdConfigEditor::General(IdCEGeneral::PlayerUseMpris),
        IdConfigEditor::General(IdCEGeneral::PlayerUseDiscord),
        IdConfigEditor::General(IdCEGeneral::PlayerPort),
        IdConfigEditor::General(IdCEGeneral::ExtraYtdlpArgs),
    ]
}

/// The order in which the focus moves down through the theme page.
pub open spec fn color_focus_ring() -> Seq<IdConfigEditor> {
    seq![
        IdConfigEditor::Theme(IdCETheme::ThemeSelectTable),
        IdConfigEditor::Theme(IdCETheme::LibraryForeground),
        IdConfigEditor::Theme(IdCETheme::LibraryBackground),
        IdConfigEditor::Theme(IdCETheme::LibraryBorder),
        IdConfigEditor::Theme(IdCETheme::LibraryHighlight),
        IdConfigEditor::Theme(IdCETheme::LibraryHighlightSymbol),
        IdConfigEditor::Theme(IdCETheme::PlaylistForeground),
        IdConfigEditor::Theme(IdCETheme::PlaylistBackground),
        IdConfigEditor::Theme(IdCETheme::PlaylistBorder),
        IdConfigEditor::Theme(IdCETheme::PlaylistHighlight),
        IdConfigEditor::Theme(IdCETheme::PlaylistHighlightSymbol),
        IdConfigEditor::Theme(IdCETheme::CurrentlyPlayingTrackSymbol),
        IdConfigEditor::Theme(IdCETheme::ProgressForeground),
        IdConfigEditor::Theme(IdCETheme::ProgressBackground),
        IdConfigEditor::Theme(IdCETheme::ProgressBorder),
        IdConfigEditor::Theme(IdCETheme::LyricForeground),
        IdConfigEditor::Theme(IdCETheme::LyricBackground),
        IdConfigEditor::Theme(IdCETheme::LyricBorder),
        IdConfigEditor::Theme(IdCETheme::ImportantPopupForeground),
        IdConfigEditor::Theme(IdCETheme::ImportantPopupBackground),
        IdConfigEditor::Theme(IdCETheme::ImportantPopupBorder),
        IdConfigEditor::Theme(IdCETheme::FallbackForeground),
        IdConfigEditor::Theme(IdCETheme::FallbackBackground),
        IdConfigEditor::Theme(IdCETheme::FallbackBorder),
        IdConfigEditor::Theme(IdCETheme::FallbackHighlight),
    ]
}

/// The order in which the focus moves down through the theme page.
pub fn color_focus_ring_vec() -> (v: Vec<IdConfigEditor>)
    ensures
        v@ == color_focus_ring(),
{
    vec![
        IdConfigEditor::Theme(IdCETheme::ThemeSelectTable),
        IdConfigEditor::Theme(IdCETheme::LibraryForeground),
        IdConfigEditor::Theme(IdCETheme::LibraryBackground),
        IdConfigEditor::Theme(IdCETheme::LibraryBorder),
        IdConfigEditor::Theme(IdCETheme::LibraryHighlight),
        IdConfigEditor::Theme(IdCETheme::LibraryHighlightSymbol),
        IdConfigEditor::Theme(IdCETheme::PlaylistForeground),
        IdConfigEditor::Theme(IdCETheme::PlaylistBackground),
        IdConfigEditor::Theme(IdCETheme::PlaylistBorder),
        IdConfigEditor::Theme(IdCETheme::PlaylistHighlight),
        IdConfigEditor::Theme(IdCETheme::PlaylistHighlightSymbol),
        IdConfigEditor::Theme(IdCETheme::CurrentlyPlayingTrackSymbol),
        IdConfigEditor::Theme(IdCETheme::ProgressForeground),
        IdConfigEditor::Theme(IdCETheme::ProgressBackground),
        IdConfigEditor::Theme(IdCETheme::ProgressBorder),
        IdConfigEditor::Theme(IdCETheme::LyricForeground),
        IdConfigEditor::Theme(IdCETheme::LyricBackground),
        IdConfigEditor::Theme(IdCETheme::LyricBorder),
        IdConfigEditor::Theme(IdCETheme::ImportantPopupForeground),
        IdConfigEditor::Theme(IdCETheme::ImportantPopupBackground),
        IdConfigEditor::Theme(IdCETheme::ImportantPopupBorder),
        IdConfigEditor::Theme(IdCETheme::FallbackForeground),
        IdConfigEditor::Theme(IdCETheme::FallbackBackground),
        IdConfigEditor::Theme(IdCETheme::FallbackBorder),
        IdConfigEditor::Theme(IdCETheme::FallbackHighlight),
    ]
}

/// The order in which the focus moves down through the global key bindings.
pub open spec fn key_global_focus_ring() -> Seq<IdConfigEditor> {
    seq![
        IdConfigEditor::KeyGlobal(IdKeyGlobal::Quit),
        IdConfigEditor::KeyGlobal(IdKeyGlobal::Left),
        IdConfigEditor::KeyGlobal(IdKeyGlobal::Down),
        IdConfigEditor::KeyGlobal(IdKeyGlobal::Up),
        IdConfigEditor::KeyGlobal(IdKeyGlobal::Right),
        IdConfigEditor::KeyGlobal(IdKeyGlobal::GotoTop),
        IdConfigEditor::KeyGlobal(IdKeyGlobal::GotoBottom),
        IdConfigEditor::KeyGlobal(IdKeyGlobal::PlayerTogglePause),
        IdConfigEditor::KeyGlobal(IdKeyGlobal::PlayerNext),
        IdConfigEditor::KeyGlobal(IdKeyGlobal::PlayerPrevious),
        IdConfigEditor::KeyGlobal(IdKeyGlobal::Help),
        IdConfigEditor::KeyGlobal(IdKeyGlobal::PlayerVolumeUp),
        IdConfigEditor::KeyGlobal(IdKeyGlobal::PlayerVolumeDown),
        IdConfigEditor::KeyGlobal(IdKeyGlobal::PlayerSeekForward),
        IdConfigEditor::KeyGlobal(IdKeyGlobal::PlayerSeekBackward),
        IdConfigEditor::KeyGlobal(IdKeyGlobal::PlayerSpeedUp),
        IdConfigEditor::KeyGlobal(IdKeyGlobal::PlayerSpeedDown),
        IdConfigEditor::KeyGlobal(IdKeyGlobal::LyricAdjustForward),
        IdConfigEditor::KeyGlobal(IdKeyGlobal::LyricAdjustBackward),
        IdConfigEditor::KeyGlobal(IdKeyGlobal::LyricCycle),
        IdConfigEditor::KeyGlobal(IdKeyGlobal::LayoutTreeview),
        IdConfigEditor::KeyGlobal(IdKeyGlobal::LayoutDatabase),
        IdConfigEditor::KeyGlobal(IdKeyGlobal::PlayerToggleGapless),
        IdConfigEditor::KeyGlobal(IdKeyGlobal::Config),
        IdConfigEditor::KeyGlobal(IdKeyGlobal::SavePlaylist),
        IdConfigEditor::KeyGlobal(IdKeyGlobal::LayoutPodcast),
        IdConfigEditor::KeyGlobal(IdKeyGlobal::XywhMoveLeft),
        IdConfigEditor::KeyGlobal(IdKeyGlobal::XywhMoveRight),
        IdConfigEditor::KeyGlobal(IdKeyGlobal::XywhMoveUp),
        IdConfigEditor::KeyGlobal(IdKeyGlobal::XywhMoveDown),
        IdConfigEditor::KeyGlobal(IdKeyGlobal::XywhZoomIn),
        IdConfigEditor::KeyGlobal(IdKeyGlobal::XywhZoomOut),
        IdConfigEditor::KeyGlobal(IdKeyGlobal::XywhHide),
    ]
}

/// The order in which the focus moves down through the global key bindings.
pub fn key_global_focus_ring_vec() -> (v: Vec<IdConfigEditor>)
    ensures
        v@ == key_global_focus_ring(),
{
    vec![
        IdConfigEditor::KeyGlobal(IdKeyGlobal::Quit),
        IdConfigEditor::KeyGlobal(IdKeyGlobal::Left),
        IdConfigEditor::KeyGlobal(IdKeyGlobal::Down),
        IdConfigEditor::KeyGlobal(IdKeyGlobal::Up),
        IdConfigEditor::KeyGlobal(IdKeyGlobal::Right),
        IdConfigEditor::KeyGlobal(IdKeyGlobal::GotoTop),
        IdConfigEditor::KeyGlobal(IdKeyGlobal::GotoBottom),
        IdConfigEditor::KeyGlobal(IdKeyGlobal::PlayerTogglePause),
        IdConfigEditor::KeyGlobal(IdKeyGlobal::PlayerNext),
        IdConfigEditor::KeyGlobal(IdKeyGlobal::PlayerPrevious),
        IdConfigEditor::KeyGlobal(IdKeyGlobal::Help),
        IdConfigEditor::KeyGlobal(IdKeyGlobal::PlayerVolumeUp),
        IdConfigEditor::KeyGlobal(IdKeyGlobal::PlayerVolumeDown),
        IdConfigEditor::KeyGlobal(IdKeyGlobal::PlayerSeekForward),
        IdConfigEditor::KeyGlobal(IdKeyGlobal::PlayerSeekBackward),
        IdConfigEditor::KeyGlobal(IdKeyGlobal::PlayerSpeedUp),
        IdConfigEditor::KeyGlobal(IdKeyGlobal::PlayerSpeedDown),
        IdConfigEditor::KeyGlobal(IdKeyGlobal::LyricAdjustForward),
        IdConfigEditor::KeyGlobal(IdKeyGlobal::LyricAdjustBackward),
        IdConfigEditor::KeyGlobal(IdKeyGlobal::LyricCycle),
        IdConfigEditor::KeyGlobal(IdKeyGlobal::LayoutTreeview),
        IdConfigEditor::KeyGlobal(IdKeyGlobal::LayoutDatabase),
        IdConfigEditor::KeyGlobal(IdKeyGlobal::PlayerToggleGapless),
        IdConfigEditor::KeyGlobal(IdKeyGlobal::Config),
        IdConfigEditor::KeyGlobal(IdKeyGlobal::SavePlaylist),
        IdConfigEditor::KeyGlobal(IdKeyGlobal::LayoutPodcast),
        IdConfigEditor::KeyGlobal(IdKeyGlobal::XywhMoveLeft),
        IdConfigEditor::KeyGlobal(IdKeyGlobal::XywhMoveRight),
        IdConfigEditor::KeyGlobal(IdKeyGlobal::XywhMoveUp),
        IdConfigEditor::KeyGlobal(IdKeyGlobal::XywhMoveDown),
        IdConfigEditor::KeyGlobal(IdKeyGlobal::XywhZoomIn),
        IdConfigEditor::KeyGlobal(IdKeyGlobal::XywhZoomOut),
        IdConfigEditor::KeyGlobal(IdKeyGlobal::XywhHide),
    ]
}

/// The order in which the focus moves down through the other key bindings.
pub open spec fn key_other_focus_ring() -> Seq<IdConfigEditor> {
    seq![
        IdConfigEditor::KeyOther(IdKeyOther::LibraryTagEditor),
        IdConfigEditor::KeyOther(IdKeyOther::LibraryDelete),
        IdConfigEditor::KeyOther(IdKeyOther::LibraryLoadDir),
        IdConfigEditor::KeyOther(IdKeyOther::LibraryYank),
        IdConfigEditor::KeyOther(IdKeyOther::LibraryPaste),
        IdConfigEditor::KeyOther(IdKeyOther::LibrarySearch),
        IdConfigEditor::KeyOther(IdKeyOther::LibrarySearchYoutube),
        IdConfigEditor::KeyOther(IdKeyOther::PlaylistDelete),
        IdConfigEditor::KeyOther(IdKeyOther::PlaylistDeleteAll),
        IdConfigEditor::KeyOther(IdKeyOther::PlaylistSearch),
        IdConfigEditor::KeyOther(IdKeyOther::PlaylistShuffle),
        IdConfigEditor::KeyOther(IdKeyOther::PlaylistModeCycle),
        IdConfigEditor::KeyOther(IdKeyOther::PlaylistPlaySelected),
        IdConfigEditor::KeyOther(IdKeyOther::PlaylistSwapDown),
        IdConfigEditor::KeyOther(IdKeyOther::PlaylistSwapUp),
        IdConfigEditor::KeyOther(IdKeyOther::DatabaseAddAll),
        IdConfigEditor::KeyOther(IdKeyOther::DatabaseAddSelected),
        IdConfigEditor::KeyOther(IdKeyOther::PlaylistAddRandomAlbum),
        IdConfigEditor::KeyOther(IdKeyOther::PlaylistAddRandomTracks),
        IdConfigEditor::KeyOther(IdKeyOther::LibrarySwitchRoot),
        IdConfigEditor::KeyOther(IdKeyOther::LibraryAddRoot),
        IdConfigEditor::KeyOther(IdKeyOther::LibraryRemoveRoot),
        IdConfigEditor::KeyOther(IdKeyOther::PodcastMarkPlayed),
        IdConfigEditor::KeyOther(IdKeyOther::PodcastMarkAllPlayed),
        IdConfigEditor::KeyOther(IdKeyOther::PodcastEpDownload),
        IdConfigEditor::KeyOther(IdKeyOther::PodcastEpDeleteFile),
        IdConfigEditor::KeyOther(IdKeyOther::PodcastDeleteFeed),
        IdConfigEditor::KeyOther(IdKeyOther::PodcastDeleteAllFeeds),
        IdConfigEditor::KeyOther(IdKeyOther::PodcastRefreshFeed),
        IdConfigEditor::KeyOther(IdKeyOther::PodcastRefreshAllFeeds),
        IdConfigEditor::KeyOther(IdKeyOther::PodcastSearchAddFeed),
    ]
}

/// The order in which the focus moves down through the other key bindings.
pub fn key_other_focus_ring_vec() -> (v: Vec<IdConfigEditor>)
    ensures
        v@ == key_other_focus_ring(),
{
    vec![
        IdConfigEditor::KeyOther(IdKeyOther::LibraryTagEditor),
        IdConfigEditor::KeyOther(IdKeyOther::LibraryDelete),
        IdConfigEditor::KeyOther(IdKeyOther::LibraryLoadDir),
        IdConfigEditor::KeyOther(IdKeyOther::LibraryYank),
        IdConfigEditor::KeyOther(IdKeyOther::LibraryPaste),
        IdConfigEditor::KeyOther(IdKeyOther::LibrarySearch),
        IdConfigEditor::KeyOther(IdKeyOther::LibrarySearchYoutube),
        IdConfigEditor::KeyOther(IdKeyOther::PlaylistDelete),
        IdConfigEditor::KeyOther(IdKeyOther::PlaylistDeleteAll),
        IdConfigEditor::KeyOther(IdKeyOther::PlaylistSearch),
        IdConfigEditor::KeyOther(IdKeyOther::PlaylistShuffle),
        IdConfigEditor::KeyOther(IdKeyOther::PlaylistModeCycle),
        IdConfigEditor::KeyOther(IdKeyOther::PlaylistPlaySelected),
        IdConfigEditor::KeyOther(IdKeyOther::PlaylistSwapDown),
        IdConfigEditor::KeyOther(IdKeyOther::PlaylistSwapUp),
        IdConfigEditor::KeyOther(IdKeyOther::DatabaseAddAll),
        IdConfigEditor::KeyOther(IdKeyOther::DatabaseAddSelected),
        IdConfigEditor::KeyOther(IdKeyOther::PlaylistAddRandomAlbum),
        IdConfigEditor::KeyOther(IdKeyOther::PlaylistAddRandomTracks),
        IdConfigEditor::KeyOther(IdKeyOther::LibrarySwitchRoot),
        IdConfigEditor::KeyOther(IdKeyOther::LibraryAddRoot),
        IdConfigEditor::KeyOther(IdKeyOther::LibraryRemoveRoot),
        IdConfigEditor::KeyOther(IdKeyOther::PodcastMarkPlayed),
        IdConfigEditor::KeyOther(IdKeyOther::PodcastMarkAllPlayed),
        IdConfigEditor::KeyOther(IdKeyOther::PodcastEpDownload),
        IdConfigEditor::KeyOther(IdKeyOther::PodcastEpDeleteFile),
        IdConfigEditor::KeyOther(IdKeyOther::PodcastDeleteFeed),
        IdConfigEditor::KeyOther(IdKeyOther::PodcastDeleteAllFeeds),
        IdConfigEditor::KeyOther(IdKeyOther::PodcastRefreshFeed),
        IdConfigEditor::KeyOther(IdKeyOther::PodcastRefreshAllFeeds),
        IdConfigEditor::KeyOther(IdKeyOther::PodcastSearchAddFeed),
    ]
}
} // verus!
