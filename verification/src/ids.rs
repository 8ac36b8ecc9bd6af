//! Identifiers of the mounted user interface components.
use vstd::prelude::*;

verus! {

/// Fields of the general page of the config editor.
#[derive(Debug, Clone, Copy, PartialEq, Eq, Structural)]
pub enum IdCEGeneral {
    MusicDir,
    ExitConfirmation,
    PlaylistDisplaySymbol,
    PlaylistRandomTrack,
    PlaylistRandomAlbum,
    PodcastDir,
    PodcastSimulDownload,
    PodcastMaxRetries,
    AlbumPhotoAlign,
    SaveLastPosition,
    SeekStep,
    KillDamon,
    PlayerUseMpris,
    PlayerUseDiscord,
    PlayerPort,
    PlayerAddress,
    PlayerProtocol,
    PlayerUDSPath,
    PlayerBackend,
    ExtraYtdlpArgs,
}

/// Fields of the theme page of the config editor.
#[derive(Debug, Clone, Copy, PartialEq, Eq, Structural)]
pub enum IdCETheme {
    ThemeSelectTable,
    LibraryLabel,
    LibraryForeground,
    LibraryBackground,
    LibraryBorder,
    LibraryHighlight,
    LibraryHighlightSymbol,
    PlaylistLabel,
    PlaylistForeground,
    PlaylistBackground,
    PlaylistBorder,
    PlaylistHighlight,
    PlaylistHighlightSymbol,
    CurrentlyPlayingTrackSymbol,
    ProgressLabel,
    ProgressForeground,
    ProgressBackground,
    ProgressBorder,
    LyricLabel,
    LyricForeground,
    LyricBackground,
    LyricBorder,
    ImportantPopupLabel,
    ImportantPopupForeground,
    ImportantPopupBackground,
    ImportantPopupBorder,
    FallbackLabel,
    FallbackForeground,
    FallbackBackground,
    FallbackBorder,
    FallbackHighlight,
}

/// Global key binding fields of the config editor.
#[derive(Debug, Clone, Copy, PartialEq, Eq, Structural)]
pub enum IdKeyGlobal {
    Quit,
    Left,
    Right,
    Up,
    Down,
    GotoTop,
    GotoBottom,
    PlayerTogglePause,
    PlayerNext,
    PlayerPrevious,
    Help,
    PlayerVolumeUp,
    PlayerVolumeDown,
    PlayerSeekForward,
    PlayerSeekBackward,
    PlayerSpeedUp,
    PlayerSpeedDown,
    LyricAdjustForward,
    LyricAdjustBackward,
    LyricCycle,
    PlayerToggleGapless,
    LayoutTreeview,
    LayoutDatabase,
    Config,
    SavePlaylist,
    LayoutPodcast,
    XywhMoveLeft,
    XywhMoveRight,
    XywhMoveUp,
    XywhMoveDown,
    XywhZoomIn,
    XywhZoomOut,
    XywhHide,
}

/// Key binding fields of the config editor that belong to one view.
#[derive(Debug, Clone, Copy, PartialEq, Eq, Structural)]
pub enum IdKeyOther {
    LibraryDelete,
    LibraryLoadDir,
    LibraryYank,
    LibraryPaste,
    LibrarySearch,
    LibrarySearchYoutube,
    LibraryTagEditor,
    LibrarySwitchRoot,
    LibraryAddRoot,
    LibraryRemoveRoot,
    PlaylistDelete,
    PlaylistDeleteAll,
    PlaylistShuffle,
    PlaylistSearch,
    PlaylistPlaySelected,
    PlaylistModeCycle,
    PlaylistSwapDown,
    PlaylistSwapUp,
    PlaylistAddRandomAlbum,
    PlaylistAddRandomTracks,
    DatabaseAddAll,
    DatabaseAddSelected,
    PodcastMarkPlayed,
    PodcastMarkAllPlayed,
    PodcastEpDownload,
    PodcastEpDeleteFile,
    PodcastDeleteFeed,
    PodcastDeleteAllFeeds,
    PodcastRefreshFeed,
    PodcastRefreshAllFeeds,
    PodcastSearchAddFeed,
}

/// A key binding field: global or belonging to one view.
#[derive(Debug, Clone, Copy, PartialEq, Eq, Structural)]
pub enum IdKey {
    Global(IdKeyGlobal),
    Other(IdKeyOther),
}

/// Components of the config editor.
#[derive(Debug, Clone, Copy, PartialEq, Eq, Structural)]
pub enum IdConfigEditor {
    Header,
    Footer,
    ConfigSavePopup,
    General(IdCEGeneral),
    Theme(IdCETheme),
    KeyGlobal(IdKeyGlobal),
    KeyOther(IdKeyOther),
}

/// Components of the user interface.
#[derive(Debug, Clone, Copy, PartialEq, Eq, Structural)]
pub enum Id {
    Playlist,
    Library,
    Lyric,
    GlobalListener,
    DBListCriteria,
    DBListSearchResult,
    DBListSearchTracks,
    DatabaseAddConfirmPopup,
    DeleteConfirmRadioPopup,
    DeleteConfirmInputPopup,
    SavePlaylistConfirm,
    SavePlaylistPopup,
    HelpPopup,
    ErrorPopup,
    QuitPopup,
    GeneralSearchInput,
    YoutubeSearchInputPopup,
    YoutubeSearchTablePopup,
    FeedDeleteConfirmRadioPopup,
    FeedDeleteConfirmInputPopup,
    PodcastSearchTablePopup,
    PodcastAddPopup,
    TagEditor(IdTagEditor),
    ConfigEditor(IdConfigEditor),
}

/// Components of the tag editor.
#[derive(Debug, Clone, Copy, PartialEq, Eq, Structural)]
pub enum IdTagEditor {
    /// The hint label at its bottom.
    LabelHint,
}

/// The config editor component for a key binding field.
pub open spec fn id_config_editor_of_key(k: IdKey) -> IdConfigEditor {
    match k {
        IdKey::Global(g) => IdConfigEditor::KeyGlobal(g),
        IdKey::Other(o) => IdConfigEditor::KeyOther(o),
    }
}

impl IdKey {
    /// The config editor component for this key binding field.
    pub fn to_config_editor(self) -> (r: IdConfigEditor)
        ensures
            r == id_config_editor_of_key(self),
    {
        match self {
            IdKey::Global(g) => IdConfigEditor::KeyGlobal(g),
            IdKey::Other(o) => IdConfigEditor::KeyOther(o),
        }
    }
}

} // verus!
