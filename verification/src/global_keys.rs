//! The global key listener: which messages the global key bindings send, and
//! the key events it subscribes to.
use vstd::prelude::*;

use crate::ids::{Id, IdConfigEditor, IdKey, IdKeyGlobal, IdTagEditor};
use crate::key_config::{bound_to, KeyBinding, KeyConfig};
use crate::model::TermusicLayout;

verus! {

/// Messages of the global key listener.
#[derive(Debug, Clone, Copy, PartialEq, Eq, Structural)]
pub enum GlobalMsg {
    QuitPopupShow,
    TogglePause,
    NextSong,
    PrevSong,
    VolumeDown,
    VolumeUp,
    HelpPopupShow,
    SeekForward,
    SeekBackward,
    SpeedUp,
    SpeedDown,
    /// Shift the lyric timing by this many milliseconds.
    LyricAdjustDelay(i64),
    LyricCycle,
    Layout(TermusicLayout),
    ToggleGapless,
    ConfigEditorOpen,
    SavePlaylistPopupShow,
    XywhMoveLeft,
    XywhMoveRight,
    XywhMoveUp,
    XywhMoveDown,
    XywhZoomIn,
    XywhZoomOut,
    XywhToggleHidden,
    UpdatePhoto,
}

/// What reaches the global key listener.
#[derive(Debug)]
pub enum GlobalEvent {
    /// The terminal was resized.
    WindowResize,
    /// A key was pressed.
    Key(KeyBinding),
}

/// The global key fields in the order the listener tries them.
pub open spec fn global_dispatch_order() -> Seq<IdKeyGlobal> {
    seq![
        IdKeyGlobal::Quit,
        IdKeyGlobal::PlayerTogglePause,
        IdKeyGlobal::PlayerNext,
        IdKeyGlobal::PlayerPrevious,
        IdKeyGlobal::PlayerVolumeDown,
        IdKeyGlobal::PlayerVolumeUp,
        IdKeyGlobal::Help,
        IdKeyGlobal::PlayerSeekForward,
        IdKeyGlobal::PlayerSeekBackward,
        IdKeyGlobal::PlayerSpeedUp,
        IdKeyGlobal::PlayerSpeedDown,
        IdKeyGlobal::LyricAdjustForward,
        IdKeyGlobal::LyricAdjustBackward,
        IdKeyGlobal::LyricCycle,
        IdKeyGlobal::LayoutTreeview,
        IdKeyGlobal::LayoutDatabase,
        IdKeyGlobal::LayoutPodcast,
        IdKeyGlobal::PlayerToggleGapless,
        IdKeyGlobal::Config,
        IdKeyGlobal::SavePlaylist,
        IdKeyGlobal::XywhMoveLeft,
        IdKeyGlobal::XywhMoveRight,
        IdKeyGlobal::XywhMoveUp,
        IdKeyGlobal::XywhMoveDown,
        IdKeyGlobal::XywhZoomIn,
        IdKeyGlobal::XywhZoomOut,
        IdKeyGlobal::XywhHide,
    ]
}

/// The global key fields in the order the listener tries them.
pub fn global_dispatch_order_vec() -> (v: Vec<IdKeyGlobal>)
    ensures
        v@ == global_dispatch_order(),
{
    vec![
        IdKeyGlobal::Quit,
        IdKeyGlobal::PlayerTogglePause,
        IdKeyGlobal::PlayerNext,
        IdKeyGlobal::PlayerPrevious,
        IdKeyGlobal::PlayerVolumeDown,
        IdKeyGlobal::PlayerVolumeUp,
        IdKeyGlobal::Help,
        IdKeyGlobal::PlayerSeekForward,
        IdKeyGlobal::PlayerSeekBackward,
        IdKeyGlobal::PlayerSpeedUp,
        IdKeyGlobal::PlayerSpeedDown,
        IdKeyGlobal::LyricAdjustForward,
        IdKeyGlobal::LyricAdjustBackward,
        IdKeyGlobal::LyricCycle,
        IdKeyGlobal::LayoutTreeview,
        IdKeyGlobal::LayoutDatabase,
        IdKeyGlobal::LayoutPodcast,
        IdKeyGlobal::PlayerToggleGapless,
        IdKeyGlobal::Config,
        IdKeyGlobal::SavePlaylist,
        IdKeyGlobal::XywhMoveLeft,
        IdKeyGlobal::XywhMoveRight,
        IdKeyGlobal::XywhMoveUp,
        IdKeyGlobal::XywhMoveDown,
        IdKeyGlobal::XywhZoomIn,
        IdKeyGlobal::XywhZoomOut,
        IdKeyGlobal::XywhHide,
    ]
}

/// The message a global key field's binding sends; `None` for the fields the
/// listener does not handle.
pub open spec fn global_msg_for(k: IdKeyGlobal) -> Option<GlobalMsg> {
    match k {
        IdKeyGlobal::Quit => Some(GlobalMsg::QuitPopupShow),
        IdKeyGlobal::PlayerTogglePause => Some(GlobalMsg::TogglePause),
        IdKeyGlobal::PlayerNext => Some(GlobalMsg::NextSong),
        IdKeyGlobal::PlayerPrevious => Some(GlobalMsg::PrevSong),
        IdKeyGlobal::PlayerVolumeDown => Some(GlobalMsg::VolumeDown),
        IdKeyGlobal::PlayerVolumeUp => Some(GlobalMsg::VolumeUp),
        IdKeyGlobal::Help => Some(GlobalMsg::HelpPopupShow),
        IdKeyGlobal::PlayerSeekForward => Some(GlobalMsg::SeekForward),
        IdKeyGlobal::PlayerSeekBackward => Some(GlobalMsg::SeekBackward),
        IdKeyGlobal::PlayerSpeedUp => Some(GlobalMsg::SpeedUp),
        IdKeyGlobal::PlayerSpeedDown => Some(GlobalMsg::SpeedDown),
        IdKeyGlobal::LyricAdjustForward => Some(GlobalMsg::LyricAdjustDelay(1000i64)),
        IdKeyGlobal::LyricAdjustBackward => Some(GlobalMsg::LyricAdjustDelay(-1000i64)),
        IdKeyGlobal::LyricCycle => Some(GlobalMsg::LyricCycle),
        IdKeyGlobal::LayoutTreeview => Some(GlobalMsg::Layout(TermusicLayout::TreeView)),
        IdKeyGlobal::LayoutDatabase => Some(GlobalMsg::Layout(TermusicLayout::DataBase)),
        IdKeyGlobal::LayoutPodcast => Some(GlobalMsg::Layout(TermusicLayout::Podcast)),
        IdKeyGlobal::PlayerToggleGapless => Some(GlobalMsg::ToggleGapless),
        IdKeyGlobal::Config => Some(GlobalMsg::ConfigEditorOpen),
        IdKeyGlobal::SavePlaylist => Some(GlobalMsg::SavePlaylistPopupShow),
        IdKeyGlobal::XywhMoveLeft => Some(GlobalMsg::XywhMoveLeft),
        IdKeyGlobal::XywhMoveRight => Some(GlobalMsg::XywhMoveRight),
        IdKeyGlobal::XywhMoveUp => Some(GlobalMsg::XywhMoveUp),
        IdKeyGlobal::XywhMoveDown => Some(GlobalMsg::XywhMoveDown),
        IdKeyGlobal::XywhZoomIn => Some(GlobalMsg::XywhZoomIn),
        IdKeyGlobal::XywhZoomOut => Some(GlobalMsg::XywhZoomOut),
        IdKeyGlobal::XywhHide => Some(GlobalMsg::XywhToggleHidden),
        _ => None,
    }
}

/// The message a global key field's binding sends.
pub fn global_msg(k: IdKeyGlobal) -> (r: Option<GlobalMsg>)
    ensures
        r == global_msg_for(k),
{
    match k {
        IdKeyGlobal::Quit => Some(GlobalMsg::QuitPopupShow),
        IdKeyGlobal::PlayerTogglePause => Some(GlobalMsg::TogglePause),
        IdKeyGlobal::PlayerNext => Some(GlobalMsg::NextSong),
        IdKeyGlobal::PlayerPrevious => Some(GlobalMsg::PrevSong),
        IdKeyGlobal::PlayerVolumeDown => Some(GlobalMsg::VolumeDown),
        IdKeyGlobal::PlayerVolumeUp => Some(GlobalMsg::VolumeUp),
        IdKeyGlobal::Help => Some(GlobalMsg::HelpPopupShow),
        IdKeyGlobal::PlayerSeekForward => Some(GlobalMsg::SeekForward),
        IdKeyGlobal::PlayerSeekBackward => Some(GlobalMsg::SeekBackward),
        IdKeyGlobal::PlayerSpeedUp => Some(GlobalMsg::SpeedUp),
        IdKeyGlobal::PlayerSpeedDown => Some(GlobalMsg::SpeedDown),
        IdKeyGlobal::LyricAdjustForward => Some(GlobalMsg::LyricAdjustDelay(1000i64)),
        IdKeyGlobal::LyricAdjustBackward => Some(GlobalMsg::LyricAdjustDelay(-1000i64)),
        IdKeyGlobal::LyricCycle => Some(GlobalMsg::LyricCycle),
        IdKeyGlobal::LayoutTreeview => Some(GlobalMsg::Layout(TermusicLayout::TreeView)),
        IdKeyGlobal::LayoutDatabase => Some(GlobalMsg::Layout(TermusicLayout::DataBase)),
        IdKeyGlobal::LayoutPodcast => Some(GlobalMsg::Layout(TermusicLayout::Podcast)),
        IdKeyGlobal::PlayerToggleGapless => Some(GlobalMsg::ToggleGapless),
        IdKeyGlobal::Config => Some(GlobalMsg::ConfigEditorOpen),
        IdKeyGlobal::SavePlaylist => Some(GlobalMsg::SavePlaylistPopupShow),
        IdKeyGlobal::XywhMoveLeft => Some(GlobalMsg::XywhMoveLeft),
        IdKeyGlobal::XywhMoveRight => Some(GlobalMsg::XywhMoveRight),
        IdKeyGlobal::XywhMoveUp => Some(GlobalMsg::XywhMoveUp),
        IdKeyGlobal::XywhMoveDown => Some(GlobalMsg::XywhMoveDown),
        IdKeyGlobal::XywhZoomIn => Some(GlobalMsg::XywhZoomIn),
        IdKeyGlobal::XywhZoomOut => Some(GlobalMsg::XywhZoomOut),
        IdKeyGlobal::XywhHide => Some(GlobalMsg::XywhToggleHidden),
        _ => None,
    }
}

/// The first field of `order` whose binding in `keys` is `pressed`.
pub open spec fn first_bound(order: Seq<IdKeyGlobal>, keys: KeyConfig, pressed: KeyBinding) -> Option<IdKeyGlobal>
    decreases order.len(),
{
    if order.len() == 0 {
        None
    } else if bound_to(keys, IdKey::Global(order[0]), pressed@) {
        Some(order[0])
    } else {
        first_bound(order.drop_first(), keys, pressed)
    }
}

/// What the global key listener sends for an event: a resize redraws the
/// photo; a key sends the message of the first global field, in the order the
/// listener tries them, that is bound to it; other keys send nothing.
pub open spec fn global_listener_msg(event: GlobalEvent, keys: KeyConfig) -> Option<GlobalMsg> {
    match event {
        GlobalEvent::WindowResize => Some(GlobalMsg::UpdatePhoto),
        GlobalEvent::Key(pressed) => match first_bound(global_dispatch_order(), keys, pressed) {
            Some(k) => global_msg_for(k),
            None => None,
        },
    }
}

/// What the global key listener sends for an event; see `global_listener_msg`.
pub fn global_listener_on(event: &GlobalEvent, keys: &KeyConfig) -> (r: Option<GlobalMsg>)
    ensures
        r == global_listener_msg(*event, *keys),
{
    match event {
        GlobalEvent::WindowResize => Some(GlobalMsg::UpdatePhoto),
        GlobalEvent::Key(pressed) => {
            let order = global_dispatch_order_vec();
            let mut i: usize = 0;
            proof {
                assert(order@.skip(0) =~= order@);
            }
            while i < order.len()
                invariant
                    order@ == global_dispatch_order(),
                    *event == GlobalEvent::Key(*pressed),
                    i <= order@.len(),
                    first_bound(global_dispatch_order(), *keys, *pressed) == first_bound(
                        order@.skip(i as int),
                        *keys,
                        *pressed,
                    ),
                decreases order@.len() - i,
            {
                proof {
                    assert(order@.skip(i as int)[0] == order@[i as int]);
                    assert(order@.skip(i as int).drop_first() =~= order@.skip(i + 1));
                }
                let k = order[i];
                if keys.is_bound(IdKey::Global(k), pressed) {
                    return global_msg(k);
                }
                i = i + 1;
            }
            None
        },
    }
}

/// When the listener hears a subscribed key event.
#[derive(Debug, Clone, Copy, PartialEq, Eq, Structural)]
pub enum SubWhen {
    Always,
    /// Only while no popup is mounted.
    NoPopupMounted,
}

/// What the listener subscribes to: the binding of a global key field, or a
/// terminal resize.
#[derive(Debug, Clone, Copy, PartialEq, Eq, Structural)]
pub enum SubEvent {
    Key(IdKeyGlobal),
    WindowResize,
}

/// The global key fields the listener hears only while no popup is mounted, in order.
pub open spec fn popup_guarded_keys() -> Seq<IdKeyGlobal> {
    seq![
        IdKeyGlobal::Quit,
        IdKeyGlobal::PlayerTogglePause,
        IdKeyGlobal::PlayerNext,
        IdKeyGlobal::PlayerPrevious,
        IdKeyGlobal::PlayerSpeedUp,
        IdKeyGlobal::PlayerSpeedDown,
        IdKeyGlobal::PlayerVolumeDown,
        IdKeyGlobal::PlayerVolumeUp,
        IdKeyGlobal::Help,
        IdKeyGlobal::PlayerSeekForward,
        IdKeyGlobal::PlayerSeekBackward,
        IdKeyGlobal::LyricAdjustForward,
        IdKeyGlobal::LyricAdjustBackward,
        IdKeyGlobal::LyricCycle,
        IdKeyGlobal::LayoutTreeview,
        IdKeyGlobal::LayoutDatabase,
        IdKeyGlobal::PlayerToggleGapless,
        IdKeyGlobal::Config,
        IdKeyGlobal::SavePlaylist,
        IdKeyGlobal::LayoutPodcast,
    ]
}

/// The cover art keys, which the listener always hears, in order.
pub open spec fn always_keys() -> Seq<IdKeyGlobal> {
    seq![
        IdKeyGlobal::XywhMoveLeft,
        IdKeyGlobal::XywhMoveRight,
        IdKeyGlobal::XywhMoveUp,
        IdKeyGlobal::XywhMoveDown,
        IdKeyGlobal::XywhZoomIn,
        IdKeyGlobal::XywhZoomOut,
        IdKeyGlobal::XywhHide,
    ]
}

/// The subscriptions of the global listener: the guarded keys, the cover art
/// keys, then the resize.
pub open spec fn subscriptions() -> Seq<(SubEvent, SubWhen)> {
    popup_guarded_keys().map_values(|k: IdKeyGlobal| (SubEvent::Key(k), SubWhen::NoPopupMounted))
        + always_keys().map_values(|k: IdKeyGlobal| (SubEvent::Key(k), SubWhen::Always)) + seq![
        (SubEvent::WindowResize, SubWhen::Always),
    ]
}

/// The subscriptions of the global listener; see `subscriptions`.
pub fn subscribe() -> (r: Vec<(SubEvent, SubWhen)>)
    ensures
        r@ == subscriptions(),
{
    let guarded = vec![
        IdKeyGlobal::Quit,
        IdKeyGlobal::PlayerTogglePause,
        IdKeyGlobal::PlayerNext,
        IdKeyGlobal::PlayerPrevious,
        IdKeyGlobal::PlayerSpeedUp,
        IdKeyGlobal::PlayerSpeedDown,
        IdKeyGlobal::PlayerVolumeDown,
        IdKeyGlobal::PlayerVolumeUp,
        IdKeyGlobal::Help,
        IdKeyGlobal::PlayerSeekForward,
        IdKeyGlobal::PlayerSeekBackward,
        IdKeyGlobal::LyricAdjustForward,
        IdKeyGlobal::LyricAdjustBackward,
        IdKeyGlobal::LyricCycle,
        IdKeyGlobal::LayoutTreeview,
        IdKeyGlobal::LayoutDatabase,
        IdKeyGlobal::PlayerToggleGapless,
        IdKeyGlobal::Config,
        IdKeyGlobal::SavePlaylist,
        IdKeyGlobal::LayoutPodcast,
    ];
    let always = vec![
        IdKeyGlobal::XywhMoveLeft,
        IdKeyGlobal::XywhMoveRight,
        IdKeyGlobal::XywhMoveUp,
        IdKeyGlobal::XywhMoveDown,
        IdKeyGlobal::XywhZoomIn,
        IdKeyGlobal::XywhZoomOut,
        IdKeyGlobal::XywhHide,
    ];
    let mut subs: Vec<(SubEvent, SubWhen)> = Vec::new();
    let mut i: usize = 0;
    while i < guarded.len()
        invariant
            guarded@ == popup_guarded_keys(),
            i <= guarded@.len(),
            subs@ == guarded@.take(i as int).map_values(
                |k: IdKeyGlobal| (SubEvent::Key(k), SubWhen::NoPopupMounted),
            ),
        decreases guarded@.len() - i,
    {
        subs.push((SubEvent::Key(guarded[i]), SubWhen::NoPopupMounted));
        proof {
            assert(guarded@.take(i + 1).map_values(
                |k: IdKeyGlobal| (SubEvent::Key(k), SubWhen::NoPopupMounted),
            ) =~= subs@);
        }
        i = i + 1;
    }
    let ghost first = subs@;
    proof {
        assert(guarded@.take(i as int) =~= guarded@);
    }
    let mut j: usize = 0;
    while j < always.len()
        invariant
            always@ == always_keys(),
            j <= always@.len(),
            subs@ == first + always@.take(j as int).map_values(
                |k: IdKeyGlobal| (SubEvent::Key(k), SubWhen::Always),
            ),
        decreases always@.len() - j,
    {
        subs.push((SubEvent::Key(always[j]), SubWhen::Always));
        proof {
            assert(first + always@.take(j + 1).map_values(
                |k: IdKeyGlobal| (SubEvent::Key(k), SubWhen::Always),
            ) =~= subs@);
        }
        j = j + 1;
    }
    proof {
        assert(always@.take(j as int) =~= always@);
    }
    subs.push((SubEvent::WindowResize, SubWhen::Always));
    proof {
        assert(subs@ =~= subscriptions());
    }
    subs
}

/// The popups whose being mounted silences the popup-guarded keys: the
/// podcast popups, the popups that can come up anywhere (help, error, quit),
/// the delete confirmations, the YouTube search popups, then the general search,
/// the tag editor, the config editor, the playlist saving popups and the
/// database's add confirmation.
pub open spec fn blocking_popups() -> Seq<Id> {
    seq![
        Id::FeedDeleteConfirmRadioPopup,
        Id::FeedDeleteConfirmInputPopup,
        Id::PodcastSearchTablePopup,
        Id::PodcastAddPopup,
        Id::HelpPopup,
        Id::ErrorPopup,
        Id::QuitPopup,
        Id::DeleteConfirmInputPopup,
        Id::DeleteConfirmRadioPopup,
        Id::YoutubeSearchInputPopup,
        Id::YoutubeSearchTablePopup,
        Id::YoutubeSearchTablePopup,
        Id::GeneralSearchInput,
        Id::TagEditor(IdTagEditor::LabelHint),
        Id::ConfigEditor(IdConfigEditor::Footer),
        Id::SavePlaylistPopup,
        Id::SavePlaylistConfirm,
        Id::DatabaseAddConfirmPopup,
    ]
}

/// The popups that silence the popup-guarded keys; see `blocking_popups`.
pub fn no_popup_mounted_clause() -> (r: Vec<Id>)
    ensures
        r@ == blocking_popups(),
{
    let r = vec![
        Id::FeedDeleteConfirmRadioPopup,
        Id::FeedDeleteConfirmInputPopup,
        Id::PodcastSearchTablePopup,
        Id::PodcastAddPopup,
        Id::HelpPopup,
        Id::ErrorPopup,
        Id::QuitPopup,
        Id::DeleteConfirmInputPopup,
        Id::DeleteConfirmRadioPopup,
        Id::YoutubeSearchInputPopup,
        Id::YoutubeSearchTablePopup,
        Id::YoutubeSearchTablePopup,
        Id::GeneralSearchInput,
        Id::TagEditor(IdTagEditor::LabelHint),
        Id::ConfigEditor(IdConfigEditor::Footer),
        Id::SavePlaylistPopup,
        Id::SavePlaylistConfirm,
        Id::DatabaseAddConfirmPopup,
    ];
    proof {
        assert(r@ =~= blocking_popups());
    }
    r
}

/// Whether a subscription made with `clause` is heard while the components
/// `mounted` are mounted: always, or only while no blocking popup is.
pub open spec fn heard(clause: SubWhen, mounted: Seq<Id>) -> bool {
    match clause {
        SubWhen::Always => true,
        SubWhen::NoPopupMounted => !exists|i: int|
            0 <= i < blocking_popups().len() && #[trigger] mounted.contains(blocking_popups()[i]),
    }
}

/// Whether a subscription made with `clause` is heard; see `heard`.
pub fn is_heard(clause: SubWhen, mounted: &Vec<Id>) -> (r: bool)
    ensures
        r == heard(clause, mounted@),
{
    match clause {
        SubWhen::Always => true,
        SubWhen::NoPopupMounted => {
            let popups = no_popup_mounted_clause();
            let mut i: usize = 0;
            while i < popups.len()
                invariant
                    clause == SubWhen::NoPopupMounted,
                    popups@ == blocking_popups(),
                    i <= popups@.len(),
                    forall|k: int| 0 <= k < i ==> !mounted@.contains(#[trigger] blocking_popups()[k]),
                decreases popups@.len() - i,
            {
                let mut j: usize = 0;
                while j < mounted.len()
                    invariant
                        clause == SubWhen::NoPopupMounted,
                        popups@ == blocking_popups(),
                        i < popups@.len(),
                        j <= mounted@.len(),
                        forall|k: int| 0 <= k < j ==> mounted@[k] != popups@[i as int],
                    decreases mounted@.len() - j,
                {
                    if mounted[j] == popups[i] {
                        proof {
                            assert(mounted@[j as int] == blocking_popups()[i as int]);
                            assert(mounted@.contains(blocking_popups()[i as int]));
                        }
                        return false;
                    }
                    j = j + 1;
                }
                i = i + 1;
            }
            true
        },
    }
}

/// Every key the listener subscribes to sends a message, and every message of
/// a key comes from a subscribed key.
pub proof fn lemma_subscribed_keys_are_handled(k: IdKeyGlobal)
    ensures
        (popup_guarded_keys().contains(k) || always_keys().contains(k)) <==> global_msg_for(k) is Some,
{
    if global_msg_for(k) is Some {
        assert(popup_guarded_keys().contains(k) || always_keys().contains(k)) by {
            match k {
                IdKeyGlobal::Quit => assert(popup_guarded_keys()[0] == k),
                IdKeyGlobal::PlayerTogglePause => assert(popup_guarded_keys()[1] == k),
                IdKeyGlobal::PlayerNext => assert(popup_guarded_keys()[2] == k),
                IdKeyGlobal::PlayerPrevious => assert(popup_guarded_keys()[3] == k),
                IdKeyGlobal::PlayerSpeedUp => assert(popup_guarded_keys()[4] == k),
                IdKeyGlobal::PlayerSpeedDown => assert(popup_guarded_keys()[5] == k),
                IdKeyGlobal::PlayerVolumeDown => assert(popup_guarded_keys()[6] == k),
                IdKeyGlobal::PlayerVolumeUp => assert(popup_guarded_keys()[7] == k),
                IdKeyGlobal::Help => assert(popup_guarded_keys()[8] == k),
                IdKeyGlobal::PlayerSeekForward => assert(popup_guarded_keys()[9] == k),
                IdKeyGlobal::PlayerSeekBackward => assert(popup_guarded_keys()[10] == k),
                IdKeyGlobal::LyricAdjustForward => assert(popup_guarded_keys()[11] == k),
                IdKeyGlobal::LyricAdjustBackward => assert(popup_guarded_keys()[12] == k),
                IdKeyGlobal::LyricCycle => assert(popup_guarded_keys()[13] == k),
                IdKeyGlobal::LayoutTreeview => assert(popup_guarded_keys()[14] == k),
                IdKeyGlobal::LayoutDatabase => assert(popup_guarded_keys()[15] == k),
                IdKeyGlobal::PlayerToggleGapless => assert(popup_guarded_keys()[16] == k),
                IdKeyGlobal::Config => assert(popup_guarded_keys()[17] == k),
                IdKeyGlobal::SavePlaylist => assert(popup_guarded_keys()[18] == k),
                IdKeyGlobal::LayoutPodcast => assert(popup_guarded_keys()[19] == k),
                IdKeyGlobal::XywhMoveLeft => assert(always_keys()[0] == k),
                IdKeyGlobal::XywhMoveRight => assert(always_keys()[1] == k),
                IdKeyGlobal::XywhMoveUp => assert(always_keys()[2] == k),
                IdKeyGlobal::XywhMoveDown => assert(always_keys()[3] == k),
                IdKeyGlobal::XywhZoomIn => assert(always_keys()[4] == k),
                IdKeyGlobal::XywhZoomOut => assert(always_keys()[5] == k),
                IdKeyGlobal::XywhHide => assert(always_keys()[6] == k),
                _ => {},
            }
        }
    }
    if popup_guarded_keys().contains(k) {
        let i = choose|i: int| 0 <= i < popup_guarded_keys().len() && popup_guarded_keys()[i] == k;
        assert(global_msg_for(popup_guarded_keys()[i]) is Some);
    }
    if always_keys().contains(k) {
        let i = choose|i: int| 0 <= i < always_keys().len() && always_keys()[i] == k;
        assert(global_msg_for(always_keys()[i]) is Some);
    }
}

/// The global key field that names the action a message carries out: volume
/// up for `VolumeUp`, a forward lyric shift for a positive delay, and so on;
/// a redraw of the photo is asked for by no key.
pub open spec fn field_of_action(m: GlobalMsg) -> Option<IdKeyGlobal> {
    match m {
        GlobalMsg::QuitPopupShow => Some(IdKeyGlobal::Quit),
        GlobalMsg::TogglePause => Some(IdKeyGlobal::PlayerTogglePause),
        GlobalMsg::NextSong => Some(IdKeyGlobal::PlayerNext),
        GlobalMsg::PrevSong => Some(IdKeyGlobal::PlayerPrevious),
        GlobalMsg::VolumeDown => Some(IdKeyGlobal::PlayerVolumeDown),
        GlobalMsg::VolumeUp => Some(IdKeyGlobal::PlayerVolumeUp),
        GlobalMsg::HelpPopupShow => Some(IdKeyGlobal::Help),
        GlobalMsg::SeekForward => Some(IdKeyGlobal::PlayerSeekForward),
        GlobalMsg::SeekBackward => Some(IdKeyGlobal::PlayerSeekBackward),
        GlobalMsg::SpeedUp => Some(IdKeyGlobal::PlayerSpeedUp),
        GlobalMsg::SpeedDown => Some(IdKeyGlobal::PlayerSpeedDown),
        GlobalMsg::LyricAdjustDelay(d) => if d > 0 {
            Some(IdKeyGlobal::LyricAdjustForward)
        } else if d < 0 {
            Some(IdKeyGlobal::LyricAdjustBackward)
        } else {
            None
        },
        GlobalMsg::LyricCycle => Some(IdKeyGlobal::LyricCycle),
        GlobalMsg::Layout(TermusicLayout::TreeView) => Some(IdKeyGlobal::LayoutTreeview),
        GlobalMsg::Layout(TermusicLayout::DataBase) => Some(IdKeyGlobal::LayoutDatabase),
        GlobalMsg::Layout(TermusicLayout::Podcast) => Some(IdKeyGlobal::LayoutPodcast),
        GlobalMsg::ToggleGapless => Some(IdKeyGlobal::PlayerToggleGapless),
        GlobalMsg::ConfigEditorOpen => Some(IdKeyGlobal::Config),
        GlobalMsg::SavePlaylistPopupShow => Some(IdKeyGlobal::SavePlaylist),
        GlobalMsg::XywhMoveLeft => Some(IdKeyGlobal::XywhMoveLeft),
        GlobalMsg::XywhMoveRight => Some(IdKeyGlobal::XywhMoveRight),
        GlobalMsg::XywhMoveUp => Some(IdKeyGlobal::XywhMoveUp),
        GlobalMsg::XywhMoveDown => Some(IdKeyGlobal::XywhMoveDown),
        GlobalMsg::XywhZoomIn => Some(IdKeyGlobal::XywhZoomIn),
        GlobalMsg::XywhZoomOut => Some(IdKeyGlobal::XywhZoomOut),
        GlobalMsg::XywhToggleHidden => Some(IdKeyGlobal::XywhHide),
        GlobalMsg::UpdatePhoto => None,
    }
}

/// Each global key field sends the message of the action it names: the
/// volume-up field raises the volume, the volume-down field lowers it, and so
/// on; two fields never send the same message.
pub proof fn lemma_key_sends_its_own_action(k: IdKeyGlobal, k2: IdKeyGlobal)
    ensures
        global_msg_for(k) matches Some(m) ==> field_of_action(m) == Some(k),
        global_msg_for(k) is Some && global_msg_for(k) == global_msg_for(k2) ==> k == k2,
{
}

/// The field that `first_bound` finds is bound to the pressed key.
proof fn lemma_first_bound_is_bound(order: Seq<IdKeyGlobal>, keys: KeyConfig, pressed: KeyBinding)
    ensures
        first_bound(order, keys, pressed) matches Some(k) ==> bound_to(keys, IdKey::Global(k), pressed@)
            && order.contains(k),
    decreases order.len(),
{
    if order.len() > 0 && !bound_to(keys, IdKey::Global(order[0]), pressed@) {
        lemma_first_bound_is_bound(order.drop_first(), keys, pressed);
        if let Some(k) = first_bound(order, keys, pressed) {
            let j = choose|j: int| 0 <= j < order.drop_first().len() && order.drop_first()[j] == k;
            assert(order[j + 1] == k);
        }
    } else if order.len() > 0 {
        assert(order[0] == order[0]);
    }
}

/// What the global key listener sends for a pressed key carries out the
/// action of a global key field that the key is bound to: a key bound to
/// volume up alone raises the volume.
pub proof fn lemma_listener_sends_action_of_pressed_key(pressed: KeyBinding, keys: KeyConfig)
    ensures
        global_listener_msg(GlobalEvent::Key(pressed), keys) matches Some(m) ==> (field_of_action(m) matches Some(
            k,
        ) && bound_to(keys, IdKey::Global(k), pressed@)),
{
    lemma_first_bound_is_bound(global_dispatch_order(), keys, pressed);
    if let Some(k) = first_bound(global_dispatch_order(), keys, pressed) {
        lemma_key_sends_its_own_action(k, k);
    }
}

} // verus!
