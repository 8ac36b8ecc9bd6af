use termusic::key_config::{KeyBinding, KeyConfig};
use termusic::ids::{Id, IdKey, IdKeyGlobal};
use termusic::lyric::{
    find_episode, lyric_view_on, DelayTarget, EpisodeInfo, LoadedLyrics, PodcastError, LyricTitleSource, LyricUpdate,
    LyricViewReaction, NowPlaying, PodcastInfo,
};
use termusic::model::{LoopMode, Model, TermusicLayout, UiAction};
use termusic::playlist_table::{Direction, Position, TableCmd};
use termusic::select_states::KeyModifierSet;

const NONE: KeyModifierSet = KeyModifierSet { shift: false, control: false, alt: false };
const SHIFT: KeyModifierSet = KeyModifierSet { shift: true, control: false, alt: false };

fn key(m: KeyModifierSet, c: &str) -> KeyBinding {
    KeyBinding { modifiers: m, code: c.to_string() }
}

fn lyrics(path: &str, caption: Option<&str>) -> LoadedLyrics {
    LoadedLyrics { for_track: path.to_string(), parsed: true, has_captions: true, caption: caption.map(|c| c.to_string()) }
}

fn episode(url: &str, title: &str) -> EpisodeInfo {
    EpisodeInfo {
        url: url.to_string(),
        title: title.to_string(),
        published: None,
        duration: "10:00".to_string(),
        description: "About it".to_string(),
    }
}

fn podcasts() -> Vec<PodcastInfo> {
    vec![
        PodcastInfo { title: "One".to_string(), episodes: vec![episode("u1", "a"), episode("u2", "b")] },
        PodcastInfo { title: "Two".to_string(), episodes: vec![] },
        PodcastInfo { title: "Three".to_string(), episodes: vec![episode("u3", "c"), episode("u2", "d")] },
    ]
}

#[test]
fn lyric_update_follows_what_plays() {
    let mut m = Model::new(TermusicLayout::TreeView, LoopMode::Playlist);
    assert_eq!(m.lyric_update(NowPlaying::Stopped, None), LyricUpdate::Done);
    assert_eq!(m.lyric_line, "Stopped.");
    assert_eq!(m.lyric_update(NowPlaying::Radio, None), LyricUpdate::Done);
    assert_eq!(m.lyric_line, "Stopped.");
    assert_eq!(m.lyric_update(NowPlaying::Podcast, None), LyricUpdate::DropLyrics);
    assert_eq!(m.lyric_line, "No lyrics available.");
    let l = lyrics("/a.mp3", Some("la la"));
    assert_eq!(m.lyric_update(NowPlaying::Track("/b.mp3".to_string()), Some(&l)), LyricUpdate::Load("/b.mp3".to_string()));
    assert_eq!(m.lyric_line, "No lyrics available.");
    assert_eq!(m.lyric_update(NowPlaying::Track("/a.mp3".to_string()), Some(&l)), LyricUpdate::Done);
    assert_eq!(m.lyric_line, "la la");
    let mut none = lyrics("/a.mp3", Some("x"));
    none.has_captions = false;
    m.lyric_update_loaded(Some(&none));
    assert_eq!(m.lyric_line, "No lyrics available.");
    m.lyric_update_loaded(Some(&lyrics("/a.mp3", None)));
    assert_eq!(m.lyric_line, "");
    let mut p = Model::new(TermusicLayout::Podcast, LoopMode::Playlist);
    assert_eq!(p.lyric_update(NowPlaying::Stopped, None), LyricUpdate::ForPodcast);
    assert_eq!(p.lyric_line, "");
}

#[test]
fn lyric_view_keys() {
    let mut keys = KeyConfig::new();
    keys.set(IdKey::Global(IdKeyGlobal::Down), key(NONE, "j"));
    assert_eq!(lyric_view_on(&key(NONE, "j"), &keys), LyricViewReaction::Perform(TableCmd::Move(Direction::Down)));
    assert_eq!(lyric_view_on(&key(NONE, "End"), &keys), LyricViewReaction::Perform(TableCmd::GoTo(Position::End)));
    assert_eq!(lyric_view_on(&key(SHIFT, "End"), &keys), LyricViewReaction::Nothing);
    assert_eq!(lyric_view_on(&key(NONE, "Tab"), &keys), LyricViewReaction::BlurDown);
    assert_eq!(lyric_view_on(&key(SHIFT, "BackTab"), &keys), LyricViewReaction::BlurUp);
}

#[test]
fn episodes_are_found_by_url() {
    let ps = podcasts();
    assert_eq!(find_episode(&ps, "u2"), Some((0, 1)));
    assert_eq!(find_episode(&ps, "u3"), Some((2, 0)));
    assert_eq!(find_episode(&ps, "nope"), None);
}

#[test]
fn podcast_episode_shown_in_lyric_view() {
    let ps = podcasts();
    let mut m = Model::new(TermusicLayout::Podcast, LoopMode::Playlist);
    m.lyric_update_for_podcast_by_current_track(&ps, Some("u3"), 100, LyricTitleSource::Podcast);
    assert_eq!(m.ui.len(), 2);
    match &m.ui[0] {
        UiAction::LyricShow(lines) => {
            assert_eq!(lines[0], "Three");
            assert_eq!(lines[1], "c");
            assert_eq!(lines[3], "Duration: 10:00");
            assert_eq!(lines.last().unwrap(), "About it");
        }
        other => panic!("unexpected {:?}", other),
    }
    assert!(matches!(&m.ui[1], UiAction::SetLyricTitle(t) if t == " Details: "));
    let mut m = Model::new(TermusicLayout::Podcast, LoopMode::Playlist);
    m.lyric_update_for_podcast_by_current_track(&ps, Some("none"), 100, LyricTitleSource::Podcast);
    assert_eq!(m.ui.len(), 1);
    let mut m = Model::new(TermusicLayout::Podcast, LoopMode::Playlist);
    assert_eq!(m.lyric_update_for_podcast(&ps, 0, Some(1), 100, LyricTitleSource::Podcast), Ok(()));
    assert_eq!(m.ui.len(), 2);
    assert_eq!(m.lyric_update_for_podcast(&ps, 5, Some(0), 100, LyricTitleSource::Podcast), Err(PodcastError::PodcastMissing));
    assert_eq!(m.lyric_update_for_podcast(&ps, 1, Some(0), 100, LyricTitleSource::Podcast), Err(PodcastError::EpisodeMissing));
    assert_eq!(m.ui.len(), 2);
    assert_eq!(m.lyric_update_for_podcast(&ps, 1, None, 100, LyricTitleSource::Podcast), Ok(()));
    assert_eq!(m.ui.len(), 3);
    assert_eq!(m.lyric_update_for_podcast(&vec![], 0, Some(0), 100, LyricTitleSource::Podcast), Ok(()));
    assert_eq!(m.ui.len(), 3);
}

#[test]
fn lyric_delay_only_for_matching_music() {
    let mut m = Model::new(TermusicLayout::TreeView, LoopMode::Playlist);
    assert_eq!(m.lyric_adjust_delay(DelayTarget::Music { lyrics_match: true }, -1000), Some(-1000));
    assert_eq!(m.lyric_adjust_delay(DelayTarget::Music { lyrics_match: false }, 1000), None);
    assert_eq!(m.lyric_adjust_delay(DelayTarget::NotMusic, 1000), None);
    assert_eq!(m.lyric_adjust_delay(DelayTarget::NoTrack, 1000), None);
    m.lyric_adjust_delay_saved(Ok(()));
    assert!(m.ui.is_empty());
    m.lyric_adjust_delay_saved(Err("read-only".to_string()));
    assert_eq!(m.ui, vec![UiAction::ErrorPopup("adjust lyric delay: read-only".to_string())]);
}

#[test]
fn lyric_reload_remounts_and_retitles() {
    let mut m = Model::new(TermusicLayout::TreeView, LoopMode::Playlist);
    m.lyric_set_lyric("a line".to_string());
    m.ui.clear();
    m.lyric_reload(LyricTitleSource::Track { artist: "ABBA".to_string(), title: "Waterloo".to_string() });
    assert_eq!(m.ui.len(), 2);
    assert_eq!(m.ui[0], UiAction::Remount(Id::Lyric));
    assert!(matches!(&m.ui[1], UiAction::SetLyricTitle(t) if t == " Lyrics of ABBA - Waterloo "));
    assert_eq!(m.lyric_line, "a line");
}
