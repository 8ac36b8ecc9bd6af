//! The lyric view: what it shows for the playing track, a radio station or a
//! podcast episode (titles, dates, a description cleaned of HTML and wrapped to
//! the view's width), what its keys do, and moving the lyric delay.
use vstd::prelude::*;
use vstd::string::{StrSliceExecFns, StringExecFns};

use crate::database::plain_key;
use crate::field_keys::{has_code, same_text};
use crate::ids::{Id, IdKey, IdKeyGlobal};
use crate::key_config::{bound_to, KeyBinding, KeyBindingView, KeyConfig};
use crate::model::{Model, TermusicLayout, UiAction};
use crate::playlist_table::{Direction, Position, TableCmd};
use crate::select_states::KeyModifierSet;

verus! {

/// What `Regex::new(pattern)` and then `replace_all(text, replacement)` give:
/// `None` when the pattern does not compile.
pub uninterp spec fn regex_replaced(pattern: Seq<char>, text: Seq<char>, replacement: Seq<char>) -> Option<Seq<char>>;

/// What `escaper::decode_html` gives for a text: `None` where it reports an error.
pub uninterp spec fn html_decoded(text: Seq<char>) -> Option<Seq<char>>;

/// The display width `unicode_width::UnicodeWidthStr::width` gives a text.
pub uninterp spec fn display_width(text: Seq<char>) -> nat;

/// The lines `textwrap::wrap` breaks a text into at a width.
pub uninterp spec fn wrapped(text: Seq<char>, width: nat) -> Seq<Seq<char>>;

/// `regex::Regex::new(pattern)` and, when it compiles, `Regex::replace_all`
/// of `replacement` in `text`. The result is a function of the three texts,
/// named `regex_replaced`; how the regex matches is not stated.
#[verifier::external_body]
fn regex_replace_all(pattern: &str, text: &str, replacement: &str) -> (r: Option<String>)
    ensures
        match regex_replaced(pattern@, text@, replacement@) {
            Some(t) => r matches Some(s) && s@ == t,
            None => r is None,
        },
{
    match regex::Regex::new(pattern) {
        Ok(re) => Some(re.replace_all(text, replacement).into_owned()),
        Err(_) => None,
    }
}

/// `escaper::decode_html`: the text with its HTML entities decoded, or an
/// error for a malformed or unknown entity. The result is named
/// `html_decoded`; which entities decode to what is not stated.
#[verifier::external_body]
fn decode_html(text: &str) -> (r: Option<String>)
    ensures
        match html_decoded(text@) {
            Some(t) => r matches Some(s) && s@ == t,
            None => r is None,
        },
{
    match escaper::decode_html(text) {
        Ok(s) => Some(s),
        Err(_) => None,
    }
}

/// `unicode_width::UnicodeWidthStr::width`: the columns a text takes on a
/// terminal, named `display_width`.
#[verifier::external_body]
fn text_width(text: &str) -> (r: usize)
    ensures
        r == display_width(text@),
{
    unicode_width::UnicodeWidthStr::width(text)
}

/// `textwrap::wrap` at `width` columns, each line taken as a string; the
/// lines are named `wrapped`. How the text is broken is not stated.
#[verifier::external_body]
fn wrap_text(text: &str, width: usize) -> (r: Vec<String>)
    ensures
        r@.map_values(|s: String| s@) == wrapped(text@, width as nat),
{
    textwrap::wrap(text, width).into_iter().map(|c| c.into_owned()).collect()
}

/// The regex of `<br>` tags with the line breaks around them.
pub open spec fn re_br_tags() -> Seq<char> {
    "((\\r\\n)|\\r|\\n)*<br */?>((\\r\\n)|\\r|\\n)*"@
}

/// The regex of HTML tags.
pub open spec fn re_html_tags() -> Seq<char> {
    "<[^<>]*>"@
}

/// The regex of runs of three or more line breaks.
pub open spec fn re_mult_line_breaks() -> Seq<char> {
    "((\\r\\n)|\\r|\\n){3,}"@
}

/// The parts of `s` between the `sep` characters, in order; at least one.
pub open spec fn split_on(s: Seq<char>, sep: char) -> Seq<Seq<char>>
    decreases s.len(),
{
    if s.len() == 0 {
        seq![Seq::empty()]
    } else {
        let rest = split_on(s.drop_last(), sep);
        if s.last() == sep {
            rest.push(Seq::empty())
        } else {
            rest.update(rest.len() - 1, rest.last().push(s.last()))
        }
    }
}

/// Splitting gives at least one part.
pub proof fn lemma_split_on_nonempty(s: Seq<char>, sep: char)
    ensures
        split_on(s, sep).len() >= 1,
    decreases s.len(),
{
    if s.len() > 0 {
        lemma_split_on_nonempty(s.drop_last(), sep);
    }
}

/// The texts of some strings.
pub open spec fn texts(v: Seq<String>) -> Seq<Seq<char>> {
    v.map_values(|s: String| s@)
}

/// The parts of `s` between its `\n` characters.
pub fn split_lines(s: &str) -> (r: Vec<String>)
    ensures
        texts(r@) == split_on(s@, '\n'),
{
    let n = s.unicode_len();
    let mut parts: Vec<String> = Vec::new();
    let mut start: usize = 0;
    let mut i: usize = 0;
    proof {
        assert(texts(parts@) =~= Seq::<Seq<char>>::empty());
        assert(s@.take(0) =~= Seq::<char>::empty());
        assert(s@.subrange(0, 0) =~= Seq::<char>::empty());
        assert(texts(parts@).push(s@.subrange(0, 0)) =~= seq![Seq::<char>::empty()]);
    }
    while i < n
        invariant
            n == s@.len(),
            start <= i <= n,
            texts(parts@).push(s@.subrange(start as int, i as int)) == split_on(
                s@.take(i as int),
                '\n',
            ),
        decreases n - i,
    {
        let c = s.get_char(i);
        proof {
            assert(s@.take(i + 1).drop_last() =~= s@.take(i as int));
            assert(s@.take(i + 1).last() == c);
            lemma_split_on_nonempty(s@.take(i as int), '\n');
        }
        if c == '\n' {
            let part = String::from_str(s.substring_char(start, i));
            let ghost before = parts@;
            parts.push(part);
            proof {
                assert(texts(parts@) =~= texts(before).push(s@.subrange(start as int, i as int)));
                assert(s@.subrange(i + 1, i + 1) =~= Seq::<char>::empty());
            }
            start = i + 1;
        } else {
            proof {
                let prev = texts(parts@).push(s@.subrange(start as int, i as int));
                assert(s@.subrange(start as int, i + 1) =~= s@.subrange(start as int, i as int).push(c));
                assert(texts(parts@).push(s@.subrange(start as int, i + 1)) =~= prev.update(
                    prev.len() - 1,
                    prev.last().push(c),
                ));
            }
        }
        i = i + 1;
    }
    let last = String::from_str(s.substring_char(start, n));
    let ghost before = parts@;
    parts.push(last);
    proof {
        assert(s@.take(n as int) =~= s@);
        assert(texts(parts@) =~= texts(before).push(s@.subrange(start as int, n as int)));
    }
    parts
}

/// Lines wider than `width` broken as `textwrap` breaks them; the others kept.
pub open spec fn fit_lines(lines: Seq<Seq<char>>, width: nat) -> Seq<Seq<char>>
    decreases lines.len(),
{
    if lines.len() == 0 {
        Seq::empty()
    } else {
        let rest = fit_lines(lines.drop_last(), width);
        if display_width(lines.last()) > width {
            rest + wrapped(lines.last(), width)
        } else {
            rest.push(lines.last())
        }
    }
}

/// Break the lines wider than `width` as `textwrap` breaks them.
pub fn fit_to_width(lines: &Vec<String>, width: usize) -> (r: Vec<String>)
    ensures
        texts(r@) == fit_lines(texts(lines@), width as nat),
{
    let mut out: Vec<String> = Vec::new();
    let mut i: usize = 0;
    while i < lines.len()
        invariant
            i <= lines@.len(),
            texts(out@) == fit_lines(texts(lines@.take(i as int)), width as nat),
        decreases lines@.len() - i,
    {
        proof {
            assert(texts(lines@.take(i + 1)).drop_last() =~= texts(lines@.take(i as int)));
            assert(texts(lines@.take(i + 1)).last() == lines@[i as int]@);
        }
        let line = &lines[i];
        if text_width(line.as_str()) > width {
            let pieces = wrap_text(line.as_str(), width);
            let mut j: usize = 0;
            let ghost base = out@;
            while j < pieces.len()
                invariant
                    j <= pieces@.len(),
                    texts(out@) == texts(base) + texts(pieces@.take(j as int)),
                decreases pieces@.len() - j,
            {
                let ghost prev = out@;
                out.push(pieces[j].clone());
                proof {
                    assert(texts(out@) =~= texts(prev).push(pieces@[j as int]@));
                    assert(texts(pieces@.take(j + 1)) =~= texts(pieces@.take(j as int)).push(
                        pieces@[j as int]@,
                    ));
                    assert(texts(out@) =~= texts(base) + texts(pieces@.take(j + 1)));
                }
                j = j + 1;
            }
            proof {
                assert(pieces@.take(j as int) =~= pieces@);
            }
        } else {
            let ghost before = out@;
            out.push(line.clone());
            proof {
                assert(texts(out@) =~= texts(before).push(line@));
            }
        }
        i = i + 1;
    }
    proof {
        assert(lines@.take(i as int) =~= lines@);
    }
    out
}

/// Apply a regex replacement when the pattern compiles; keep the text otherwise.
fn replace_or_keep(pattern: &str, text: String, replacement: &str) -> (r: String)
    ensures
        r@ == match regex_replaced(pattern@, text@, replacement@) {
            Some(t) => t,
            None => text@,
        },
{
    match regex_replace_all(pattern, text.as_str(), replacement) {
        Some(s) => s,
        None => text,
    }
}

/// An episode description as text: `<br>` tags become line breaks, other tags
/// go, HTML entities are decoded (the text stays as it is where that fails)
/// and runs of blank lines shrink to one.
pub open spec fn cleaned_description(description: Seq<char>) -> Seq<char> {
    let keep = |o: Option<Seq<char>>, t: Seq<char>|
        match o {
            Some(x) => x,
            None => t,
        };
    let br = keep(regex_replaced(re_br_tags(), description, "\n"@), description);
    let stripped = keep(regex_replaced(re_html_tags(), br, ""@), br);
    let decoded = keep(html_decoded(stripped), stripped);
    keep(regex_replaced(re_mult_line_breaks(), decoded, "\n\n"@), decoded)
}

/// Clean an episode description of HTML: see `cleaned_description`.
pub fn clean_description(description: &str) -> (r: String)
    ensures
        r@ == cleaned_description(description@),
{
    let br_to_lb = replace_or_keep("((\\r\\n)|\\r|\\n)*<br */?>((\\r\\n)|\\r|\\n)*", String::from_str(description), "\n");
    let stripped = replace_or_keep("<[^<>]*>", br_to_lb, "");
    let decoded = match decode_html(stripped.as_str()) {
        Some(s) => s,
        None => stripped,
    };
    replace_or_keep("((\\r\\n)|\\r|\\n){3,}", decoded, "\n\n")
}

/// The width of the description text in a terminal `term_width` columns wide.
pub open spec fn lyric_width(term_width: u16) -> nat {
    (term_width * 3 / 5) as nat
}

/// The lines the lyric view shows for an episode: the podcast and episode
/// titles, the publication date when known, the duration, and the cleaned
/// description split into lines that fit the view.
pub open spec fn episode_lines(
    po_title: Seq<char>,
    ep_title: Seq<char>,
    published: Option<Seq<char>>,
    duration: Seq<char>,
    description: Seq<char>,
    term_width: u16,
) -> Seq<Seq<char>> {
    let head = seq![po_title, ep_title, "   "@];
    let dated = match published {
        Some(d) => head.push("Published: "@ + d),
        None => head,
    };
    dated + seq!["Duration: "@ + duration, "   "@, "Description:"@] + fit_lines(
        split_on(cleaned_description(description), '\n'),
        lyric_width(term_width),
    )
}

impl Model {
    /// Show an episode in the lyric view: `published` and `duration` are the
    /// episode's date and duration as text, `term_width` the terminal's width.
    pub fn lyric_update_for_episode_after(
        &mut self,
        po_title: &str,
        ep_title: &str,
        published: Option<&str>,
        duration: &str,
        description: &str,
        term_width: u16,
    )
        ensures
            final(self).same_state(*old(self)),
            final(self).cmds@ == old(self).cmds@,
            final(self).ui@.len() == old(self).ui@.len() + 1,
            final(self).ui@.drop_last() == old(self).ui@,
            final(self).ui@.last() matches UiAction::LyricShow(lines) && texts(lines@)
                == episode_lines(
                po_title@,
                ep_title@,
                match published {
                    Some(p) => Some(p@),
                    None => None,
                },
                duration@,
                description@,
                term_width,
            ),
    {
        let cleaned = clean_description(description);
        let width: usize = (term_width as usize) * 3 / 5;
        let lines = split_lines(cleaned.as_str());
        let fitted = fit_to_width(&lines, width);
        let mut all: Vec<String> = Vec::new();
        all.push(String::from_str(po_title));
        all.push(String::from_str(ep_title));
        all.push(String::from_str("   "));
        if let Some(date) = published {
            all.push(String::from_str("Published: ").concat(date));
        }
        all.push(String::from_str("Duration: ").concat(duration));
        all.push(String::from_str("   "));
        all.push(String::from_str("Description:"));
        let ghost head = all@;
        let mut j: usize = 0;
        while j < fitted.len()
            invariant
                j <= fitted@.len(),
                all@ == head + fitted@.take(j as int),
            decreases fitted@.len() - j,
        {
            all.push(fitted[j].clone());
            proof {
                assert(fitted@.take(j + 1) =~= fitted@.take(j as int).push(fitted@[j as int]));
            }
            j = j + 1;
        }
        proof {
            assert(fitted@.take(j as int) =~= fitted@);
            assert(width as nat == lyric_width(term_width));
            assert(texts(all@) =~= texts(head) + texts(fitted@));
            let pub_view = match published {
                Some(p) => Some(p@),
                None => None,
            };
            assert(texts(head) =~= {
                let h = seq![po_title@, ep_title@, "   "@];
                let dated = match pub_view {
                    Some(d) => h.push("Published: "@ + d),
                    None => h,
                };
                dated + seq!["Duration: "@ + duration@, "   "@, "Description:"@]
            });
        }
        let ghost before = self.ui@;
        self.ui.push(UiAction::LyricShow(all));
        proof {
            assert(self.ui@.drop_last() =~= before);
        }
    }
}

/// What the lyric view's title is about.
#[derive(Debug)]
pub enum LyricTitleSource {
    /// Playback is stopped or there is no current track.
    NothingPlaying,
    /// A music track, with its artist and title (placeholders where unknown).
    Track { artist: String, title: String },
    /// A live radio stream.
    Radio,
    /// A podcast episode.
    Podcast,
}

/// The first `n` characters of a text, or all of it when shorter.
pub open spec fn truncated(s: Seq<char>, n: nat) -> Seq<char> {
    if s.len() <= n {
        s
    } else {
        s.take(n as int)
    }
}

/// The title of the lyric view: the artist and the title of a track, each
/// cut to 20 characters, or what kind of thing plays.
pub open spec fn lyric_title_text(source: LyricTitleSource) -> Seq<char> {
    match source {
        LyricTitleSource::NothingPlaying => " No track is playing "@,
        LyricTitleSource::Track { artist, title } => " Lyrics of "@ + truncated(artist@, 20) + " - "@
            + truncated(title@, 20) + " "@,
        LyricTitleSource::Radio => " Live Radio "@,
        LyricTitleSource::Podcast => " Details: "@,
    }
}

/// The first `n` characters of `s`, or all of it when shorter.
fn truncate_chars(s: &str, n: usize) -> (r: &str)
    ensures
        r@ == truncated(s@, n as nat),
{
    let len = s.unicode_len();
    if len <= n {
        s
    } else {
        let r = s.substring_char(0, n);
        proof {
            assert(s@.subrange(0, n as int) =~= s@.take(n as int));
        }
        r
    }
}

/// The text that a line shows when the current radio stream reports a title.
pub open spec fn radio_line(radio_title: Seq<char>) -> Seq<char> {
    "Currently Playing: "@ + radio_title
}

impl Model {
    /// Set the title of the lyric view for what is playing.
    pub fn lyric_update_title(&mut self, source: LyricTitleSource)
        ensures
            final(self).same_state(*old(self)),
            final(self).cmds@ == old(self).cmds@,
            final(self).ui@.len() == old(self).ui@.len() + 1,
            final(self).ui@.drop_last() == old(self).ui@,
            final(self).ui@.last() matches UiAction::SetLyricTitle(t) && t@ == lyric_title_text(
                source,
            ),
    {
        let ghost src = source;
        let title = match source {
            LyricTitleSource::NothingPlaying => String::from_str(" No track is playing "),
            LyricTitleSource::Track { artist, title } => {
                let a = truncate_chars(artist.as_str(), 20);
                let t = truncate_chars(title.as_str(), 20);
                String::from_str(" Lyrics of ").concat(a).concat(" - ").concat(t).concat(" ")
            },
            LyricTitleSource::Radio => String::from_str(" Live Radio "),
            LyricTitleSource::Podcast => String::from_str(" Details: "),
        };
        let ghost before = self.ui@;
        self.ui.push(UiAction::SetLyricTitle(title));
        proof {
            assert(self.ui@.drop_last() =~= before);
        }
    }

    /// Remount the lyric view and set its title for what is playing. The line
    /// it showed is handed to `lyric_set_lyric` again, which finds it already
    /// shown and leaves it: the remounted view starts empty.
    pub fn lyric_reload(&mut self, source: LyricTitleSource)
        ensures
            final(self).same_state(*old(self)),
            final(self).cmds@ == old(self).cmds@,
            final(self).ui@.len() == old(self).ui@.len() + 2,
            final(self).ui@.take(old(self).ui@.len() as int) == old(self).ui@,
            final(self).ui@[old(self).ui@.len() as int] == UiAction::Remount(Id::Lyric),
            final(self).ui@.last() matches UiAction::SetLyricTitle(t) && t@ == lyric_title_text(
                source,
            ),
    {
        let ghost before = self.ui@;
        self.ui.push(UiAction::Remount(Id::Lyric));
        self.lyric_update_title(source);
        let line = self.lyric_line.clone();
        self.lyric_set_lyric(line);
        proof {
            assert(self.ui@.take(before.len() as int) =~= before);
            assert(self.ui@[before.len() as int] == self.ui@.drop_last()[before.len() as int]);
        }
    }

    /// Show `text` as the lyric line, unless it is already shown.
    pub fn lyric_set_lyric(&mut self, text: String)
        ensures
            final(self).playlist == old(self).playlist,
            final(self).playlist_selected == old(self).playlist_selected,
            final(self).same_settings(*old(self)),
            final(self).config_editor == old(self).config_editor,
            final(self).dw == old(self).dw,
            final(self).cmds@ == old(self).cmds@,
            final(self).lyric_line@ == text@,
            old(self).lyric_line@ == text@ ==> final(self).ui@ == old(self).ui@ && final(self).lyric_line
                == old(self).lyric_line,
            old(self).lyric_line@ != text@ ==> {
                &&& final(self).ui@.len() == old(self).ui@.len() + 1
                &&& final(self).ui@.drop_last() == old(self).ui@
                &&& final(self).ui@.last() matches UiAction::LyricShow(lines) && texts(lines@)
                    == seq![text@]
            },
    {
        if self.lyric_line == text {
            return ;
        }
        let ghost before = self.ui@;
        let shown = text.clone();
        let lines = vec![shown];
        self.ui.push(UiAction::LyricShow(lines));
        self.lyric_line = text;
        proof {
            assert(self.ui@.drop_last() =~= before);
            assert(texts(lines@) =~= seq![text@]);
        }
    }

    /// A radio stream reports a title: show it as the lyric line, when the
    /// current track is a radio stream and the title is not empty.
    pub fn lyric_update_for_radio(&mut self, radio_title: &str, playing_radio: bool)
        ensures
            final(self).playlist == old(self).playlist,
            final(self).playlist_selected == old(self).playlist_selected,
            final(self).same_settings(*old(self)),
            final(self).config_editor == old(self).config_editor,
            final(self).dw == old(self).dw,
            final(self).cmds@ == old(self).cmds@,
            !playing_radio || radio_title@.len() == 0 ==> final(self).lyric_line == old(
                self,
            ).lyric_line && final(self).ui@ == old(self).ui@,
            playing_radio && radio_title@.len() > 0 ==> final(self).lyric_line@ == radio_line(
                radio_title@,
            ),
    {
        if !playing_radio {
            return ;
        }
        if radio_title.unicode_len() == 0 {
            return ;
        }
        let line = String::from_str("Currently Playing: ").concat(radio_title);
        self.lyric_set_lyric(line);
    }
}

/// The message that a switch to the lyric frame described `description` shows.
pub open spec fn lyric_switch_text(description: Seq<char>) -> Seq<char> {
    description + " lyric is showing"@
}

impl Model {
    /// The lyric frames of the current track were cycled: `switched_to` is the
    /// description of the frame now shown, if cycling moved to one. Then a
    /// message says so.
    pub fn lyric_cycle(&mut self, switched_to: Option<&str>)
        ensures
            final(self).same_state(*old(self)),
            final(self).cmds@ == old(self).cmds@,
            switched_to is None ==> final(self).ui@ == old(self).ui@,
            switched_to matches Some(d) ==> {
                &&& final(self).ui@.len() == old(self).ui@.len() + 1
                &&& final(self).ui@.drop_last() == old(self).ui@
                &&& final(self).ui@.last() matches UiAction::ShowMessage { title, text }
                    && title@ == "Lyric switch successful"@ && text@ == lyric_switch_text(d@)
            },
    {
        if let Some(d) = switched_to {
            let title = String::from_str("Lyric switch successful");
            let text = String::from_str(d).concat(" lyric is showing");
            let ghost before = self.ui@;
            self.ui.push(UiAction::ShowMessage { title, text });
            proof {
                assert(self.ui@.drop_last() =~= before);
            }
        }
    }
}

} // verus!

verus! {

/// What plays, as the lyric view sees it.
#[derive(Debug)]
pub enum NowPlaying {
    /// Playback is stopped.
    Stopped,
    /// No current track.
    Nothing,
    /// A live radio stream.
    Radio,
    /// A podcast episode.
    Podcast,
    /// A music track, by its path.
    Track(String),
}

/// The lyric frames loaded for a track: the track's path, whether they parse
/// as timed lyrics, whether those have any captions, and the caption for the
/// current position, if any.
#[derive(Debug)]
pub struct LoadedLyrics {
    pub for_track: String,
    pub parsed: bool,
    pub has_captions: bool,
    pub caption: Option<String>,
}

/// What the app does after a lyric update.
#[derive(Debug, PartialEq, Eq)]
pub enum LyricUpdate {
    /// Show the selected podcast episode instead (see `lyric_update_for_episode_after`).
    ForPodcast,
    /// Nothing more.
    Done,
    /// Drop the lyrics loaded before: they belong to no music track.
    DropLyrics,
    /// Drop the lyrics loaded before, load those of the track at this path,
    /// and go on with `lyric_update_loaded`.
    Load(String),
}

/// The line shown when there are no lyrics.
pub open spec fn no_lyrics() -> Seq<char> {
    "No lyrics available."@
}

/// The line the loaded lyrics give: the caption for the position (empty if
/// none), or the no-lyrics line when they do not parse or have no captions.
pub open spec fn lyric_line_of(l: LoadedLyrics) -> Seq<char> {
    if !l.parsed || !l.has_captions {
        no_lyrics()
    } else {
        match l.caption {
            Some(c) => c@,
            None => Seq::empty(),
        }
    }
}

/// What a lyric update does, and the line it then shows (if it shows one): the
/// podcast layout shows the episode; a stopped player shows `Stopped.`; radio
/// and no track leave the line; a podcast episode has no lyrics; a music track
/// uses the lyrics loaded for it, or has them loaded.
pub open spec fn lyric_update_plan(
    layout: TermusicLayout,
    now: NowPlaying,
    loaded_for: Option<Seq<char>>,
) -> (LyricUpdate, Option<Seq<char>>) {
    if layout == TermusicLayout::Podcast {
        (LyricUpdate::ForPodcast, None)
    } else {
        match now {
            NowPlaying::Stopped => (LyricUpdate::Done, Some("Stopped."@)),
            NowPlaying::Nothing | NowPlaying::Radio => (LyricUpdate::Done, None),
            NowPlaying::Podcast => (LyricUpdate::DropLyrics, Some(no_lyrics())),
            NowPlaying::Track(p) => if loaded_for == Some(p@) {
                (LyricUpdate::Done, None)
            } else {
                (LyricUpdate::Load(p), None)
            },
        }
    }
}

/// Outside the podcast layout, while a music track plays the lyric update
/// either keeps lyrics that were loaded for that very track, or asks to load
/// that track's lyrics: it loads exactly when none are loaded or those loaded
/// belong to another track, and never loads another track's.
pub proof fn lemma_playing_track_gets_its_lyrics(
    layout: TermusicLayout,
    p: String,
    loaded_for: Option<Seq<char>>,
)
    requires
        layout != TermusicLayout::Podcast,
    ensures
        ({
            let r = lyric_update_plan(layout, NowPlaying::Track(p), loaded_for).0;
            &&& r == LyricUpdate::Done || r is Load
            &&& r matches LyricUpdate::Load(q) ==> q@ == p@
            &&& r == LyricUpdate::Done <==> loaded_for == Some(p@)
            &&& loaded_for is None ==> r is Load
        }),
{
}

/// The lyric update loads lyrics only for a playing music track outside the
/// podcast layout, and only that track's; the podcast layout always shows the
/// episode instead.
pub proof fn lemma_lyrics_loaded_only_for_playing_track(
    layout: TermusicLayout,
    now: NowPlaying,
    loaded_for: Option<Seq<char>>,
)
    ensures
        lyric_update_plan(layout, now, loaded_for).0 matches LyricUpdate::Load(q) ==> layout
            != TermusicLayout::Podcast && (now matches NowPlaying::Track(p) && p@ == q@),
        layout == TermusicLayout::Podcast ==> lyric_update_plan(layout, now, loaded_for).0
            == LyricUpdate::ForPodcast,
{
}

impl Model {
    /// The lyric view's update: see `lyric_update_plan`. `loaded` are the
    /// lyrics loaded before, if any; when they belong to the playing track
    /// their line is shown (see `lyric_line_of`).
    pub fn lyric_update(&mut self, now: NowPlaying, loaded: Option<&LoadedLyrics>) -> (r: LyricUpdate)
        ensures
            final(self).playlist == old(self).playlist,
            final(self).playlist_selected == old(self).playlist_selected,
            final(self).same_settings(*old(self)),
            final(self).config_editor == old(self).config_editor,
            final(self).dw == old(self).dw,
            final(self).cmds@ == old(self).cmds@,
            ({
                let loaded_for = match loaded {
                    Some(l) => Some(l.for_track@),
                    None => None,
                };
                let (plan, line) = lyric_update_plan(old(self).layout, now, loaded_for);
                &&& r == plan
                &&& match line {
                    Some(t) => final(self).lyric_line@ == t,
                    None => match (r, loaded) {
                        (LyricUpdate::Done, Some(l)) if now is Track && old(self).layout != TermusicLayout::Podcast =>
                            final(self).lyric_line@ == lyric_line_of(*l),
                        _ => final(self).lyric_line == old(self).lyric_line && final(self).ui@ == old(self).ui@,
                    },
                }
            }),
    {
        if self.layout == TermusicLayout::Podcast {
            return LyricUpdate::ForPodcast;
        }
        match now {
            NowPlaying::Stopped => {
                self.lyric_set_lyric(String::from_str("Stopped."));
                LyricUpdate::Done
            },
            NowPlaying::Nothing => LyricUpdate::Done,
            NowPlaying::Radio => LyricUpdate::Done,
            NowPlaying::Podcast => {
                self.lyric_set_lyric(String::from_str("No lyrics available."));
                LyricUpdate::DropLyrics
            },
            NowPlaying::Track(p) => {
                match loaded {
                    Some(l) => {
                        if l.for_track == p {
                            self.lyric_show_loaded(l);
                            return LyricUpdate::Done;
                        }
                    },
                    None => {},
                }
                LyricUpdate::Load(p)
            },
        }
    }

    /// Show the line that loaded lyrics give; see `lyric_line_of`.
    fn lyric_show_loaded(&mut self, l: &LoadedLyrics)
        ensures
            final(self).playlist == old(self).playlist,
            final(self).playlist_selected == old(self).playlist_selected,
            final(self).same_settings(*old(self)),
            final(self).config_editor == old(self).config_editor,
            final(self).dw == old(self).dw,
            final(self).cmds@ == old(self).cmds@,
            final(self).lyric_line@ == lyric_line_of(*l),
    {
        if !l.parsed || !l.has_captions {
            self.lyric_set_lyric(String::from_str("No lyrics available."));
        } else {
            match &l.caption {
                Some(c) => self.lyric_set_lyric(c.clone()),
                None => self.lyric_set_lyric(String::new()),
            }
        }
    }

    /// The lyrics of the playing track were loaded, if it has any: show their
    /// line, or the no-lyrics line.
    pub fn lyric_update_loaded(&mut self, loaded: Option<&LoadedLyrics>)
        ensures
            final(self).playlist == old(self).playlist,
            final(self).playlist_selected == old(self).playlist_selected,
            final(self).same_settings(*old(self)),
            final(self).config_editor == old(self).config_editor,
            final(self).dw == old(self).dw,
            final(self).cmds@ == old(self).cmds@,
            final(self).lyric_line@ == match loaded {
                Some(l) => lyric_line_of(*l),
                None => no_lyrics(),
            },
    {
        match loaded {
            Some(l) => self.lyric_show_loaded(l),
            None => self.lyric_set_lyric(String::from_str("No lyrics available.")),
        }
    }
}

/// What the lyric view does with a key.
#[derive(Debug, Clone, Copy, PartialEq, Eq, Structural)]
pub enum LyricViewReaction {
    /// Scroll the text; the view is drawn again.
    Perform(TableCmd),
    /// Hand the focus to the next view.
    BlurDown,
    /// Hand the focus to the previous view.
    BlurUp,
    Nothing,
}

/// What the lyric view does with a key press: the plain arrow, page and
/// home/end keys and the configured navigation keys scroll; tab and shift
/// back-tab hand the focus on.
pub open spec fn lyric_view_reaction(p: KeyBindingView, keys: KeyConfig) -> LyricViewReaction {
    if plain_key(p, "Down"@) {
        LyricViewReaction::Perform(TableCmd::Move(Direction::Down))
    } else if plain_key(p, "Up"@) {
        LyricViewReaction::Perform(TableCmd::Move(Direction::Up))
    } else if plain_key(p, "PageDown"@) {
        LyricViewReaction::Perform(TableCmd::Scroll(Direction::Down))
    } else if plain_key(p, "PageUp"@) {
        LyricViewReaction::Perform(TableCmd::Scroll(Direction::Up))
    } else if plain_key(p, "Home"@) {
        LyricViewReaction::Perform(TableCmd::GoTo(Position::Begin))
    } else if plain_key(p, "End"@) {
        LyricViewReaction::Perform(TableCmd::GoTo(Position::End))
    } else if plain_key(p, "Tab"@) {
        LyricViewReaction::BlurDown
    } else if p.code == "BackTab"@ && p.modifiers == (KeyModifierSet { shift: true, control: false, alt: false }) {
        LyricViewReaction::BlurUp
    } else if bound_to(keys, IdKey::Global(IdKeyGlobal::Down), p) {
        LyricViewReaction::Perform(TableCmd::Move(Direction::Down))
    } else if bound_to(keys, IdKey::Global(IdKeyGlobal::Up), p) {
        LyricViewReaction::Perform(TableCmd::Move(Direction::Up))
    } else if bound_to(keys, IdKey::Global(IdKeyGlobal::GotoTop), p) {
        LyricViewReaction::Perform(TableCmd::GoTo(Position::Begin))
    } else if bound_to(keys, IdKey::Global(IdKeyGlobal::GotoBottom), p) {
        LyricViewReaction::Perform(TableCmd::GoTo(Position::End))
    } else {
        LyricViewReaction::Nothing
    }
}

/// Whether `p` is the key `name` pressed with no modifier.
fn plain(p: &KeyBinding, name: &str) -> (r: bool)
    ensures
        r == plain_key(p@, name@),
{
    has_code(p, name) && !p.modifiers.shift && !p.modifiers.control && !p.modifiers.alt
}

/// What the lyric view does with a key press; see `lyric_view_reaction`.
pub fn lyric_view_on(p: &KeyBinding, keys: &KeyConfig) -> (r: LyricViewReaction)
    ensures
        r == lyric_view_reaction(p@, *keys),
{
    if plain(p, "Down") {
        LyricViewReaction::Perform(TableCmd::Move(Direction::Down))
    } else if plain(p, "Up") {
        LyricViewReaction::Perform(TableCmd::Move(Direction::Up))
    } else if plain(p, "PageDown") {
        LyricViewReaction::Perform(TableCmd::Scroll(Direction::Down))
    } else if plain(p, "PageUp") {
        LyricViewReaction::Perform(TableCmd::Scroll(Direction::Up))
    } else if plain(p, "Home") {
        LyricViewReaction::Perform(TableCmd::GoTo(Position::Begin))
    } else if plain(p, "End") {
        LyricViewReaction::Perform(TableCmd::GoTo(Position::End))
    } else if plain(p, "Tab") {
        LyricViewReaction::BlurDown
    } else if has_code(p, "BackTab") && p.modifiers.shift && !p.modifiers.control && !p.modifiers.alt {
        LyricViewReaction::BlurUp
    } else if keys.is_bound(IdKey::Global(IdKeyGlobal::Down), p) {
        LyricViewReaction::Perform(TableCmd::Move(Direction::Down))
    } else if keys.is_bound(IdKey::Global(IdKeyGlobal::Up), p) {
        LyricViewReaction::Perform(TableCmd::Move(Direction::Up))
    } else if keys.is_bound(IdKey::Global(IdKeyGlobal::GotoTop), p) {
        LyricViewReaction::Perform(TableCmd::GoTo(Position::Begin))
    } else if keys.is_bound(IdKey::Global(IdKeyGlobal::GotoBottom), p) {
        LyricViewReaction::Perform(TableCmd::GoTo(Position::End))
    } else {
        LyricViewReaction::Nothing
    }
}

} // verus!

verus! {

/// An episode of a podcast, with what the lyric view shows of it: its date and
/// duration already written out as text.
#[derive(Debug)]
pub struct EpisodeInfo {
    pub url: String,
    pub title: String,
    pub published: Option<String>,
    pub duration: String,
    pub description: String,
}

/// A podcast: its title and its episodes.
#[derive(Debug)]
pub struct PodcastInfo {
    pub title: String,
    pub episodes: Vec<EpisodeInfo>,
}

/// Whether podcast `i` has an episode `j`.
pub open spec fn has_episode(ps: Seq<PodcastInfo>, i: int, j: int) -> bool {
    0 <= i < ps.len() && 0 <= j < ps[i].episodes@.len()
}

/// Whether episode `(i, j)` comes before `(i2, j2)`: by podcast, then by episode.
pub open spec fn comes_before(i: int, j: int, i2: int, j2: int) -> bool {
    i < i2 || (i == i2 && j < j2)
}

/// Whether `(i, j)` is the first episode, by podcast and then by episode, whose URL is `url`.
pub open spec fn first_episode_with_url(ps: Seq<PodcastInfo>, url: Seq<char>, i: int, j: int) -> bool {
    &&& has_episode(ps, i, j)
    &&& ps[i].episodes@[j].url@ == url
    &&& forall|i2: int, j2: int|
        has_episode(ps, i2, j2) && comes_before(i2, j2, i, j) ==> #[trigger] ps[i2].episodes@[j2].url@ != url
}

/// The first episode, by podcast and then by episode, whose URL is `url`.
pub fn find_episode(ps: &Vec<PodcastInfo>, url: &str) -> (r: Option<(usize, usize)>)
    ensures
        match r {
            Some((i, j)) => first_episode_with_url(ps@, url@, i as int, j as int),
            None => forall|i: int, j: int| has_episode(ps@, i, j) ==> #[trigger] ps@[i].episodes@[j].url@ != url@,
        },
{
    let mut i: usize = 0;
    while i < ps.len()
        invariant
            i <= ps@.len(),
            forall|i2: int, j2: int|
                has_episode(ps@, i2, j2) && i2 < i ==> #[trigger] ps@[i2].episodes@[j2].url@ != url@,
        decreases ps@.len() - i,
    {
        let eps = &ps[i].episodes;
        let mut j: usize = 0;
        while j < eps.len()
            invariant
                i < ps@.len(),
                *eps == ps@[i as int].episodes,
                j <= eps@.len(),
                forall|i2: int, j2: int|
                    has_episode(ps@, i2, j2) && i2 < i ==> #[trigger] ps@[i2].episodes@[j2].url@ != url@,
                forall|j2: int| 0 <= j2 < j ==> #[trigger] eps@[j2].url@ != url@,
            decreases eps@.len() - j,
        {
            if same_text(eps[j].url.as_str(), url) {
                proof {
                    assert forall|i2: int, j2: int|
                        has_episode(ps@, i2, j2) && comes_before(
                            i2,
                            j2,
                            i as int,
                            j as int,
                        ) implies #[trigger] ps@[i2].episodes@[j2].url@ != url@ by {
                        if i2 == i {
                            assert(eps@[j2] == ps@[i2].episodes@[j2]);
                        }
                    }
                }
                return Some((i, j));
            }
            j = j + 1;
        }
        proof {
            assert forall|i2: int, j2: int|
                has_episode(ps@, i2, j2) && i2 < i + 1 implies #[trigger] ps@[i2].episodes@[j2].url@ != url@ by {
                if i2 == i {
                    assert(eps@[j2] == ps@[i2].episodes@[j2]);
                }
            }
        }
        i = i + 1;
    }
    None
}

} // verus!

verus! {

/// The lines the lyric view shows for episode `j` of podcast `i`.
pub open spec fn episode_view(ps: Seq<PodcastInfo>, i: int, j: int, term_width: u16) -> Seq<Seq<char>> {
    let e = ps[i].episodes@[j];
    episode_lines(
        ps[i].title@,
        e.title@,
        match e.published {
            Some(p) => Some(p@),
            None => None,
        },
        e.duration@,
        e.description@,
        term_width,
    )
}

/// Why the selected podcast episode cannot be used.
#[derive(Debug, Clone, Copy, PartialEq, Eq, Structural)]
pub enum PodcastError {
    /// The selected podcast is not in the list.
    PodcastMissing,
    /// The selected episode is not in the podcast.
    EpisodeMissing,
}

impl Model {
    /// Show episode `j` of podcast `i` in the lyric view.
    fn lyric_show_episode(&mut self, ps: &Vec<PodcastInfo>, i: usize, j: usize, term_width: u16)
        requires
            has_episode(ps@, i as int, j as int),
        ensures
            final(self).same_state(*old(self)),
            final(self).cmds@ == old(self).cmds@,
            final(self).ui@.len() == old(self).ui@.len() + 1,
            final(self).ui@.drop_last() == old(self).ui@,
            final(self).ui@.last() matches UiAction::LyricShow(lines) && texts(lines@) == episode_view(
                ps@,
                i as int,
                j as int,
                term_width,
            ),
    {
        let pod = &ps[i];
        let ep = &pod.episodes[j];
        let published = match &ep.published {
            Some(p) => Some(p.as_str()),
            None => None,
        };
        self.lyric_update_for_episode_after(
            pod.title.as_str(),
            ep.title.as_str(),
            published,
            ep.duration.as_str(),
            ep.description.as_str(),
            term_width,
        );
    }

    /// Show the podcast episode that plays, found by its URL among the
    /// episodes of `ps` (the first with that URL), if it plays one and it is
    /// found; then set the lyric view's title for `title`.
    pub fn lyric_update_for_podcast_by_current_track(
        &mut self,
        ps: &Vec<PodcastInfo>,
        playing_url: Option<&str>,
        term_width: u16,
        title: LyricTitleSource,
    )
        ensures
            final(self).same_state(*old(self)),
            final(self).cmds@ == old(self).cmds@,
            ({
                let found = playing_url matches Some(u) && exists|i: int, j: int|
                    has_episode(ps@, i, j) && #[trigger] ps@[i].episodes@[j].url@ == u@;
                &&& final(self).ui@.len() == old(self).ui@.len() + if found {
                    2int
                } else {
                    1int
                }
                &&& final(self).ui@.take(old(self).ui@.len() as int) == old(self).ui@
                &&& final(self).ui@.last() matches UiAction::SetLyricTitle(t) && t@ == lyric_title_text(title)
                &&& found ==> exists|i: int, j: int|
                    #![trigger first_episode_with_url(ps@, playing_url->0@, i, j)]
                    first_episode_with_url(ps@, playing_url->0@, i, j) && (final(self).ui@[old(
                        self,
                    ).ui@.len() as int] matches UiAction::LyricShow(lines) && texts(lines@) == episode_view(
                        ps@,
                        i,
                        j,
                        term_width,
                    ))
            }),
    {
        let ghost before = self.ui@;
        let mut shown = false;
        if let Some(url) = playing_url {
            if let Some((i, j)) = find_episode(ps, url) {
                self.lyric_show_episode(ps, i, j, term_width);
                shown = true;
                proof {
                    assert(first_episode_with_url(ps@, url@, i as int, j as int));
                }
            }
        }
        let ghost mid = self.ui@;
        self.lyric_update_title(title);
        proof {
            assert(self.ui@.take(before.len() as int) =~= before);
            if shown {
                assert(mid.drop_last() == before);
                assert(self.ui@[before.len() as int] == mid.last());
            }
        }
    }

    /// Show the selected episode of the selected podcast, then set the lyric
    /// view's title for `title`. With no podcasts nothing happens; with no
    /// episode selected only the title is set; a selection past the lists is
    /// an error, and then nothing happens.
    pub fn lyric_update_for_podcast(
        &mut self,
        ps: &Vec<PodcastInfo>,
        podcasts_index: usize,
        selected_episode: Option<usize>,
        term_width: u16,
        title: LyricTitleSource,
    ) -> (r: Result<(), PodcastError>)
        ensures
            final(self).same_state(*old(self)),
            final(self).cmds@ == old(self).cmds@,
            ps@.len() == 0 ==> r is Ok && final(self).ui@ == old(self).ui@,
            ps@.len() > 0 && selected_episode is None ==> {
                &&& r is Ok
                &&& final(self).ui@.len() == old(self).ui@.len() + 1
                &&& final(self).ui@.drop_last() == old(self).ui@
                &&& final(self).ui@.last() matches UiAction::SetLyricTitle(t) && t@ == lyric_title_text(title)
            },
            ps@.len() > 0 && selected_episode is Some ==> {
                let j = selected_episode->0;
                if podcasts_index >= ps@.len() {
                    r == Err::<(), PodcastError>(PodcastError::PodcastMissing) && final(self).ui@ == old(self).ui@
                } else if j >= ps@[podcasts_index as int].episodes@.len() {
                    r == Err::<(), PodcastError>(PodcastError::EpisodeMissing) && final(self).ui@ == old(self).ui@
                } else {
                    &&& r is Ok
                    &&& final(self).ui@.len() == old(self).ui@.len() + 2
                    &&& final(self).ui@.take(old(self).ui@.len() as int) == old(self).ui@
                    &&& final(self).ui@[old(self).ui@.len() as int] matches UiAction::LyricShow(lines)
                        && texts(lines@) == episode_view(ps@, podcasts_index as int, j as int, term_width)
                    &&& final(self).ui@.last() matches UiAction::SetLyricTitle(t) && t@ == lyric_title_text(
                        title,
                    )
                }
            },
    {
        if ps.len() == 0 {
            return Ok(());
        }
        let ghost before = self.ui@;
        if let Some(j) = selected_episode {
            if podcasts_index >= ps.len() {
                return Err(PodcastError::PodcastMissing);
            }
            if j >= ps[podcasts_index].episodes.len() {
                return Err(PodcastError::EpisodeMissing);
            }
            self.lyric_show_episode(ps, podcasts_index, j, term_width);
        }
        let ghost mid = self.ui@;
        self.lyric_update_title(title);
        proof {
            assert(self.ui@.take(before.len() as int) =~= before);
            if selected_episode is Some {
                assert(mid.drop_last() == before);
                assert(self.ui@[before.len() as int] == mid.last());
            }
        }
        Ok(())
    }
}

} // verus!

verus! {

/// What the playing track is, for shifting its lyric timing.
#[derive(Debug, Clone, Copy, PartialEq, Eq, Structural)]
pub enum DelayTarget {
    /// No current track.
    NoTrack,
    /// The current track is no music file (a radio stream or a podcast episode).
    NotMusic,
    /// A music file; `lyrics_match` tells whether the lyrics loaded are its own.
    Music { lyrics_match: bool },
}

/// The message shown when saving the shifted lyrics failed.
pub open spec fn delay_error_text(err: Seq<char>) -> Seq<char> {
    "adjust lyric delay: "@ + err
}

impl Model {
    /// Shift the timing of the playing track's lyrics by `offset` milliseconds:
    /// the shift to apply at the current position and then save to the file,
    /// only for a music file whose loaded lyrics are its own. Nothing changes here.
    pub fn lyric_adjust_delay(&self, target: DelayTarget, offset: i64) -> (r: Option<i64>)
        ensures
            r == (match target {
                DelayTarget::Music { lyrics_match: true } => Some(offset),
                _ => None,
            }),
    {
        match target {
            DelayTarget::Music { lyrics_match } => if lyrics_match {
                Some(offset)
            } else {
                None
            },
            _ => None,
        }
    }

    /// The shifted lyrics were saved, or saving failed with `err`: a failure
    /// is shown in an error popup.
    pub fn lyric_adjust_delay_saved(&mut self, saved: Result<(), String>)
        ensures
            final(self).same_state(*old(self)),
            final(self).cmds@ == old(self).cmds@,
            saved is Ok ==> final(self).ui@ == old(self).ui@,
            saved matches Err(e) ==> {
                &&& final(self).ui@.len() == old(self).ui@.len() + 1
                &&& final(self).ui@.drop_last() == old(self).ui@
                &&& final(self).ui@.last() matches UiAction::ErrorPopup(t) && t@ == delay_error_text(e@)
            },
    {
        if let Err(e) = saved {
            let text = String::from_str("adjust lyric delay: ").concat(e.as_str());
            let ghost before = self.ui@;
            self.ui.push(UiAction::ErrorPopup(text));
            proof {
                assert(self.ui@.drop_last() =~= before);
            }
        }
    }
}

} // verus!
