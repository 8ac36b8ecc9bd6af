//! Taking the values of the config editor's general page into the settings,
//! with the checks that refuse unwise values.
use vstd::prelude::*;
use vstd::string::{StrSliceExecFns, StringExecFns};

use crate::lyric::{split_on, texts};

verus! {

/// Where the cover art is drawn.
#[derive(Debug, Clone, Copy, PartialEq, Eq, Structural)]
pub enum XywhAlign {
    BottomRight,
    BottomLeft,
    TopRight,
    TopLeft,
}

/// How the server talks to the user interface.
#[derive(Debug, Clone, Copy, PartialEq, Eq, Structural)]
pub enum ComProtocol {
    Http,
    Uds,
}

/// Whether the playing position is remembered: never, always, or as set
/// some other way in the configuration file.
#[derive(Debug, Clone, Copy, PartialEq, Eq, Structural)]
pub enum RememberPosition {
    AllNo,
    AllYes,
    Other,
}

/// The settings the general page edits.
#[derive(Debug)]
pub struct GeneralSettings {
    pub music_dirs: Vec<String>,
    pub confirm_quit: bool,
    pub use_loop_mode_symbol: bool,
    pub random_track_quantity: u32,
    pub random_album_min_quantity: u32,
    pub podcast_dir: String,
    pub concurrent_downloads_max: u8,
    pub max_download_retries: u8,
    pub coverart_align: XywhAlign,
    pub remember_position: RememberPosition,
    pub quit_server_on_exit: bool,
    pub use_mediacontrols: bool,
    pub set_discord_status: bool,
    pub port: u16,
    /// The server address, as text.
    pub address: String,
    pub protocol: ComProtocol,
    pub socket_path: String,
    pub ytdlp_extra_args: String,
}

/// What the fields of the general page hold: a number for a choice field, a
/// text for an input field; `None` where a field holds nothing of its kind.
#[derive(Debug)]
pub struct GeneralFieldValues {
    pub music_dir: Option<String>,
    pub exit_confirmation: Option<usize>,
    pub playlist_display_symbol: Option<usize>,
    pub random_track_quantity: Option<String>,
    pub random_album_quantity: Option<String>,
    pub podcast_dir: Option<String>,
    pub podcast_simul_download: Option<String>,
    pub podcast_max_retries: Option<String>,
    pub album_photo_align: Option<usize>,
    pub save_last_position: Option<usize>,
    pub kill_daemon: Option<usize>,
    pub player_use_mpris: Option<usize>,
    pub player_use_discord: Option<usize>,
    pub player_port: Option<String>,
    /// The address field's text, when it parses as an IP address.
    pub player_address: Option<String>,
    pub player_protocol: Option<usize>,
    pub player_uds_path: Option<String>,
    pub extra_ytdlp_args: Option<String>,
}

/// Why the edited values were refused.
#[derive(Debug, PartialEq, Eq)]
pub enum ConfigDataError {
    /// The key bindings clash; the text says how.
    Keys(String),
    /// Podcast download retries outside 1 to 10.
    MaxRetries,
    /// A player port outside 1024 to 65534.
    Port,
    /// The socket protocol on a system without Unix sockets.
    UdsUnsupported,
    /// A socket path that is not absolute or does not end in `.socket`.
    UdsPath,
}

impl ConfigDataError {
    /// The message shown for the error.
    pub fn message(&self) -> (r: String)
        ensures
            r@ == error_message(*self),
    {
        match self {
            ConfigDataError::Keys(s) => s.clone(),
            ConfigDataError::MaxRetries => String::from_str(
                " It's not recommended to set max retries to more than 10. ",
            ),
            ConfigDataError::Port => String::from_str(
                " It's not recommended to use ports below 1024 for the player. ",
            ),
            ConfigDataError::UdsUnsupported => String::from_str(
                "UDS Protocol is only supported on unix systems",
            ),
            ConfigDataError::UdsPath => String::from_str(
                "Invalid UDS socket Path.\nPath need to be absolute and end with \".socket\".",
            ),
        }
    }
}

/// The message shown for an error.
pub open spec fn error_message(e: ConfigDataError) -> Seq<char> {
    match e {
        ConfigDataError::Keys(s) => s@,
        ConfigDataError::MaxRetries => " It's not recommended to set max retries to more than 10. "@,
        ConfigDataError::Port => " It's not recommended to use ports below 1024 for the player. "@,
        ConfigDataError::UdsUnsupported => "UDS Protocol is only supported on unix systems"@,
        ConfigDataError::UdsPath => "Invalid UDS socket Path.\nPath need to be absolute and end with \".socket\"."@,
    }
}

/// The value of a digit in base `radix` (10 or 16): `0` to `9`, and for base
/// 16 also `a` to `f` and `A` to `F`.
pub open spec fn digit_value(c: char, radix: nat) -> Option<nat> {
    if '0' <= c && c <= '9' {
        Some((c as nat - '0' as nat) as nat)
    } else if radix == 16 && 'a' <= c && c <= 'f' {
        Some((c as nat - 'a' as nat + 10) as nat)
    } else if radix == 16 && 'A' <= c && c <= 'F' {
        Some((c as nat - 'A' as nat + 10) as nat)
    } else {
        None
    }
}

/// The value of a text of digits in base `radix`, if it holds only digits.
pub open spec fn digits_value(s: Seq<char>, radix: nat) -> Option<nat>
    decreases s.len(),
{
    if s.len() == 0 {
        Some(0)
    } else {
        match (digits_value(s.drop_last(), radix), digit_value(s.last(), radix)) {
            (Some(v), Some(d)) => Some(v * radix + d),
            _ => None,
        }
    }
}

/// What parsing an unsigned number up to `max` in base `radix` gives, as
/// std documents it: an optional `+`, then at least one digit and nothing
/// else, with a value that fits.
pub open spec fn parsed_unsigned(s: Seq<char>, radix: nat, max: nat) -> Option<nat> {
    let body = if s.len() > 0 && s[0] == '+' {
        s.subrange(1, s.len() as int)
    } else {
        s
    };
    if body.len() == 0 {
        None
    } else {
        match digits_value(body, radix) {
            Some(v) => if v <= max {
                Some(v)
            } else {
                None
            },
            None => None,
        }
    }
}

/// What `u32::from_str` gives for a text.
pub open spec fn parsed_u32(s: Seq<char>) -> Option<u32> {
    match parsed_unsigned(s, 10, u32::MAX as nat) {
        Some(v) => Some(v as u32),
        None => None,
    }
}

/// What `u16::from_str` gives for a text.
pub open spec fn parsed_u16(s: Seq<char>) -> Option<u16> {
    match parsed_unsigned(s, 10, u16::MAX as nat) {
        Some(v) => Some(v as u16),
        None => None,
    }
}

/// What `u8::from_str` gives for a text.
pub open spec fn parsed_u8(s: Seq<char>) -> Option<u8> {
    match parsed_unsigned(s, 10, u8::MAX as nat) {
        Some(v) => Some(v as u8),
        None => None,
    }
}

/// `str::parse::<u32>`: as std documents it, the number an optional `+` and
/// decimal digits give when it fits (see `parsed_u32`).
#[verifier::external_body]
fn parse_u32(s: &str) -> (r: Option<u32>)
    ensures
        r == parsed_u32(s@),
{
    s.parse::<u32>().ok()
}

/// `str::parse::<u16>`: as std documents it, the number an optional `+` and
/// decimal digits give when it fits (see `parsed_u16`).
#[verifier::external_body]
fn parse_u16(s: &str) -> (r: Option<u16>)
    ensures
        r == parsed_u16(s@),
{
    s.parse::<u16>().ok()
}

/// `str::parse::<u8>`: as std documents it, the number an optional `+` and
/// decimal digits give when it fits (see `parsed_u8`).
#[verifier::external_body]
fn parse_u8(s: &str) -> (r: Option<u8>)
    ensures
        r == parsed_u8(s@),
{
    s.parse::<u8>().ok()
}

/// `shellexpand::path::tilde`, as text. The home directory comes from the
/// environment, so only what the crate's source shows for every home is
/// claimed: a path that does not start with `~`, or starts with `~` followed
/// by something other than a separator (another user's home), comes back
/// unchanged; `~` alone, `~/rest` or `~\rest` comes back with the home
/// directory in place of the `~` (for `~\`, on Windows only), or unchanged,
/// so the result ends with what follows the `~`.
#[verifier::external_body]
pub(crate) fn expand_tilde(p: &str) -> (r: String)
    ensures
        !expands_home(p@) ==> r@ == p@,
        expands_home(p@) ==> r@.len() >= p@.len() - 1 && r@.subrange(
            r@.len() - (p@.len() - 1),
            r@.len() as int,
        ) == p@.subrange(1, p@.len() as int),
{
    shellexpand::path::tilde(p).to_string_lossy().into_owned()
}

/// Whether tilde expansion may put a home directory in place of the first
/// character: the path is `~` alone or starts with `~/`, or with `~\` (which
/// Windows expands too, and other systems leave as it is).
pub open spec fn expands_home(p: Seq<char>) -> bool {
    p.len() > 0 && p[0] == '~' && (p.len() == 1 || p[1] == '/' || p[1] == '\\')
}

/// `std::path::Path::exists`. It depends on the disk; nothing is claimed.
#[verifier::external_body]
fn path_exists(p: &str) -> (r: bool) {
    std::path::Path::new(p).exists()
}

/// Whether `std::path::Path::has_root` holds of a path.
pub uninterp spec fn path_has_root(p: Seq<char>) -> bool;

/// Whether `std::path::Path::file_name` finds a file name in a path.
pub uninterp spec fn path_has_file_name(p: Seq<char>) -> bool;

/// What `std::path::Path::extension` gives for a path.
pub uninterp spec fn path_extension(p: Seq<char>) -> Option<Seq<char>>;

/// `std::path::Path::has_root`; named `path_has_root`.
#[verifier::external_body]
fn has_root(p: &str) -> (r: bool)
    ensures
        r == path_has_root(p@),
{
    std::path::Path::new(p).has_root()
}

/// Whether `std::path::Path::file_name` is `Some`; named `path_has_file_name`.
#[verifier::external_body]
fn has_file_name(p: &str) -> (r: bool)
    ensures
        r == path_has_file_name(p@),
{
    std::path::Path::new(p).file_name().is_some()
}

/// `std::path::Path::extension`, as text; named `path_extension`.
#[verifier::external_body]
fn extension(p: &str) -> (r: Option<String>)
    ensures
        match path_extension(p@) {
            Some(e) => r matches Some(s) && s@ == e,
            None => r is None,
        },
{
    std::path::Path::new(p).extension().map(|e| e.to_string_lossy().into_owned())
}

/// A socket path the server accepts: absolute, with a file name ending in `.socket`.
pub open spec fn valid_socket_path(p: Seq<char>) -> bool {
    path_has_root(p) && path_has_file_name(p) && path_extension(p) == Some("socket"@)
}

/// Whether a path is a valid socket path.
fn is_valid_socket_path(p: &str) -> (r: bool)
    ensures
        r == valid_socket_path(p@),
{
    if !has_root(p) || !has_file_name(p) {
        return false;
    }
    match extension(p) {
        Some(e) => {
            let socket = String::from_str("socket");
            e == socket
        },
        None => false,
    }
}

/// `sub` keeps some of the parts of `full`, in order: those whose flag is set.
pub open spec fn kept_parts(full: Seq<Seq<char>>, flags: Seq<bool>) -> Seq<Seq<char>>
    decreases full.len(),
{
    if full.len() == 0 || flags.len() != full.len() {
        Seq::empty()
    } else {
        let rest = kept_parts(full.drop_last(), flags.drop_last());
        if flags.last() {
            rest.push(full.last())
        } else {
            rest
        }
    }
}

/// The parts of `s` between its `;` characters.
pub fn split_semicolons(s: &str) -> (r: Vec<String>)
    ensures
        texts(r@) == split_on(s@, ';'),
{
    let n = s.unicode_len();
    let mut parts: Vec<String> = Vec::new();
    let mut start: usize = 0;
    let mut i: usize = 0;
    proof {
        assert(texts(parts@) =~= Seq::<Seq<char>>::empty());
        assert(s@.take(0) =~= Seq::<char>::empty());
        assert(s@.subrange(0, 0) =~= Seq::<char>::empty());
        assert(texts(parts@).push(s@.subrange(0, 0)) =~= seq![Seq::<char>::empty()]);
    }
    while i < n
        invariant
            n == s@.len(),
            start <= i <= n,
            texts(parts@).push(s@.subrange(start as int, i as int)) == split_on(
                s@.take(i as int),
                ';',
            ),
        decreases n - i,
    {
        let c = s.get_char(i);
        proof {
            assert(s@.take(i + 1).drop_last() =~= s@.take(i as int));
            assert(s@.take(i + 1).last() == c);
            crate::lyric::lemma_split_on_nonempty(s@.take(i as int), ';');
        }
        if c == ';' {
            let part = String::from_str(s.substring_char(start, i));
            let ghost before = parts@;
            parts.push(part);
            proof {
                assert(texts(parts@) =~= texts(before).push(s@.subrange(start as int, i as int)));
                assert(s@.subrange(i + 1, i + 1) =~= Seq::<char>::empty());
            }
            start = i + 1;
        } else {
            proof {
                let prev = texts(parts@).push(s@.subrange(start as int, i as int));
                assert(s@.subrange(start as int, i + 1) =~= s@.subrange(start as int, i as int).push(c));
                assert(texts(parts@).push(s@.subrange(start as int, i + 1)) =~= prev.update(
                    prev.len() - 1,
                    prev.last().push(c),
                ));
            }
        }
        i = i + 1;
    }
    let last = String::from_str(s.substring_char(start, n));
    let ghost before = parts@;
    parts.push(last);
    proof {
        assert(s@.take(n as int) =~= s@);
        assert(texts(parts@) =~= texts(before).push(s@.subrange(start as int, n as int)));
    }
    parts
}

/// The `;`-parts of the music directories field whose flag is set, kept as
/// written; none when there is not one flag per part.
fn kept_music_dirs(field: &str, flags: &Vec<bool>) -> (r: Vec<String>)
    ensures
        texts(r@) == kept_parts(split_on(field@, ';'), flags@),
{
    let parts = split_semicolons(field);
    let mut kept: Vec<String> = Vec::new();
    if flags.len() != parts.len() {
        proof {
            let full = split_on(field@, ';');
            if full.len() == 0 {
                assert(kept_parts(full, flags@) =~= Seq::<Seq<char>>::empty());
            }
            assert(texts(kept@) =~= kept_parts(full, flags@));
        }
        return kept;
    }
    let mut i: usize = 0;
    while i < parts.len()
        invariant
            i <= parts@.len(),
            flags@.len() == parts@.len(),
            texts(kept@) == kept_parts(texts(parts@).take(i as int), flags@.take(i as int)),
        decreases parts@.len() - i,
    {
        proof {
            assert(texts(parts@).take(i + 1).drop_last() =~= texts(parts@).take(i as int));
            assert(flags@.take(i + 1).drop_last() =~= flags@.take(i as int));
        }
        if flags[i] {
            let ghost before = kept@;
            kept.push(parts[i].clone());
            proof {
                assert(texts(kept@) =~= texts(before).push(parts@[i as int]@));
            }
        }
        i = i + 1;
    }
    proof {
        assert(texts(parts@).take(i as int) =~= texts(parts@));
        assert(flags@.take(i as int) =~= flags@);
    }
    kept
}

/// Ask the disk and the environment what the values depend on: each
/// `;`-part of the music directories field is expanded and whether that
/// exists is asked; the podcast directory is expanded and kept if it exists;
/// the socket path is expanded. What the disk and the environment answer is
/// not stated, only that the answers fit the fields (see `facts_fit`).
pub fn gather_facts(values: &GeneralFieldValues) -> (f: CollectFacts)
    ensures
        facts_fit(f@, *values),
{
    let mut music_flags: Vec<bool> = Vec::new();
    if let Some(m) = &values.music_dir {
        let parts = split_semicolons(m.as_str());
        let mut i: usize = 0;
        while i < parts.len()
            invariant
                i <= parts@.len(),
                music_flags@.len() == i,
            decreases parts@.len() - i,
        {
            let expanded = expand_tilde(parts[i].as_str());
            music_flags.push(path_exists(expanded.as_str()));
            i = i + 1;
        }
        proof {
            assert(texts(parts@).len() == parts@.len());
        }
    }
    let podcast_dir = match &values.podcast_dir {
        Some(d) => {
            let expanded = expand_tilde(d.as_str());
            if path_exists(expanded.as_str()) {
                Some(expanded)
            } else {
                None
            }
        },
        None => None,
    };
    let uds = match &values.player_uds_path {
        Some(p) => expand_tilde(p.as_str()),
        None => String::new(),
    };
    CollectFacts { music_flags, podcast_dir, uds }
}

/// Yes/no fields: the first choice is yes.
pub open spec fn yes_chosen(v: usize) -> bool {
    v == 0
}

/// The cover art alignment at a choice of the alignment field.
pub open spec fn align_of(v: usize) -> XywhAlign {
    if v == 0 {
        XywhAlign::BottomRight
    } else if v == 1 {
        XywhAlign::BottomLeft
    } else if v == 2 {
        XywhAlign::TopRight
    } else {
        XywhAlign::TopLeft
    }
}

/// The choice of the alignment field that shows an alignment.
pub open spec fn align_choice(a: XywhAlign) -> usize {
    match a {
        XywhAlign::BottomRight => 0,
        XywhAlign::BottomLeft => 1,
        XywhAlign::TopRight => 2,
        XywhAlign::TopLeft => 3,
    }
}

/// The choice of the remember-position field that shows a setting.
pub open spec fn remember_choice(r: RememberPosition) -> usize {
    match r {
        RememberPosition::Other => 0,
        RememberPosition::AllNo => 1,
        RememberPosition::AllYes => 2,
    }
}

/// The choice of a yes/no field that shows a flag.
pub open spec fn yes_no_choice(b: bool) -> usize {
    if b {
        0
    } else {
        1
    }
}

/// The choice of the protocol field that shows a protocol.
pub open spec fn protocol_choice(p: ComProtocol) -> usize {
    match p {
        ComProtocol::Http => 0,
        ComProtocol::Uds => 1,
    }
}

/// The settings of the general page, their texts taken as texts.
pub struct GeneralSettingsView {
    pub music_dirs: Seq<Seq<char>>,
    pub confirm_quit: bool,
    pub use_loop_mode_symbol: bool,
    pub random_track_quantity: u32,
    pub random_album_min_quantity: u32,
    pub podcast_dir: Seq<char>,
    pub concurrent_downloads_max: u8,
    pub max_download_retries: u8,
    pub coverart_align: XywhAlign,
    pub remember_position: RememberPosition,
    pub quit_server_on_exit: bool,
    pub use_mediacontrols: bool,
    pub set_discord_status: bool,
    pub port: u16,
    pub address: Seq<char>,
    pub protocol: ComProtocol,
    pub socket_path: Seq<char>,
    pub ytdlp_extra_args: Seq<char>,
}

impl View for GeneralSettings {
    type V = GeneralSettingsView;

    open spec fn view(&self) -> GeneralSettingsView {
        GeneralSettingsView {
            music_dirs: texts(self.music_dirs@),
            confirm_quit: self.confirm_quit,
            use_loop_mode_symbol: self.use_loop_mode_symbol,
            random_track_quantity: self.random_track_quantity,
            random_album_min_quantity: self.random_album_min_quantity,
            podcast_dir: self.podcast_dir@,
            concurrent_downloads_max: self.concurrent_downloads_max,
            max_download_retries: self.max_download_retries,
            coverart_align: self.coverart_align,
            remember_position: self.remember_position,
            quit_server_on_exit: self.quit_server_on_exit,
            use_mediacontrols: self.use_mediacontrols,
            set_discord_status: self.set_discord_status,
            port: self.port,
            address: self.address@,
            protocol: self.protocol,
            socket_path: self.socket_path@,
            ytdlp_extra_args: self.ytdlp_extra_args@,
        }
    }
}

/// What the disk and the environment decide while the values are taken in:
/// which music directories exist, the podcast directory after `~` expansion
/// if it exists, and the socket path after `~` expansion.
pub struct OutsideFacts {
    pub music_flags: Seq<bool>,
    pub podcast_dir: Option<Seq<char>>,
    pub uds: Seq<char>,
}

/// `e` can be the tilde expansion of `p`: `p` itself when no home directory
/// goes in its place, else a text ending with what follows the `~`.
pub open spec fn expansion_of(p: Seq<char>, e: Seq<char>) -> bool {
    &&& !expands_home(p) ==> e == p
    &&& expands_home(p) ==> e.len() >= p.len() - 1 && e.subrange(e.len() - (p.len() - 1), e.len() as int)
        == p.subrange(1, p.len() as int)
}

/// What the outside facts can be for these field values: one flag per music
/// directory, and the podcast directory (when it exists) and the socket path
/// as tilde expansions of their fields.
pub open spec fn facts_fit(f: OutsideFacts, v: GeneralFieldValues) -> bool {
    &&& (v.music_dir matches Some(m) ==> f.music_flags.len() == split_on(m@, ';').len())
    &&& (v.podcast_dir matches Some(d) ==> (f.podcast_dir matches Some(e) ==> expansion_of(d@, e)))
    &&& (v.player_uds_path matches Some(p) ==> expansion_of(p@, f.uds))
}

/// What the disk and the environment gave while the values were looked at:
/// for each `;`-part of the music directories field, whether its expansion
/// exists; the expanded podcast directory, if it exists; and the expanded
/// socket path.
#[derive(Debug)]
pub struct CollectFacts {
    pub music_flags: Vec<bool>,
    pub podcast_dir: Option<String>,
    pub uds: String,
}

impl View for CollectFacts {
    type V = OutsideFacts;

    open spec fn view(&self) -> OutsideFacts {
        OutsideFacts {
            music_flags: self.music_flags@,
            podcast_dir: match self.podcast_dir {
                Some(d) => Some(d@),
                None => None,
            },
            uds: self.uds@,
        }
    }
}

/// A count field's text as a non-zero count, if it is one.
pub open spec fn nonzero_u32(s: Seq<char>) -> Option<u32> {
    match parsed_u32(s) {
        Some(n) => if n != 0 {
            Some(n)
        } else {
            None
        },
        None => None,
    }
}

/// A count field's text as a non-zero small count, if it is one.
pub open spec fn nonzero_u8(s: Seq<char>) -> Option<u8> {
    match parsed_u8(s) {
        Some(n) => if n != 0 {
            Some(n)
        } else {
            None
        },
        None => None,
    }
}

/// The fields before the retries check taken in.
pub open spec fn take_early(s: GeneralSettingsView, v: GeneralFieldValues, f: OutsideFacts) -> GeneralSettingsView {
    GeneralSettingsView {
        music_dirs: match v.music_dir {
            Some(m) => kept_parts(split_on(m@, ';'), f.music_flags),
            None => s.music_dirs,
        },
        confirm_quit: match v.exit_confirmation {
            Some(x) => yes_chosen(x),
            None => s.confirm_quit,
        },
        use_loop_mode_symbol: match v.playlist_display_symbol {
            Some(x) => yes_chosen(x),
            None => s.use_loop_mode_symbol,
        },
        random_track_quantity: match v.random_track_quantity {
            Some(t) => match nonzero_u32(t@) {
                Some(n) => n,
                None => s.random_track_quantity,
            },
            None => s.random_track_quantity,
        },
        random_album_min_quantity: match v.random_album_quantity {
            Some(t) => match nonzero_u32(t@) {
                Some(n) => n,
                None => s.random_album_min_quantity,
            },
            None => s.random_album_min_quantity,
        },
        podcast_dir: match v.podcast_dir {
            Some(_) => match f.podcast_dir {
                Some(e) => e,
                None => s.podcast_dir,
            },
            None => s.podcast_dir,
        },
        concurrent_downloads_max: match v.podcast_simul_download {
            Some(t) => match nonzero_u8(t@) {
                Some(n) => n,
                None => s.concurrent_downloads_max,
            },
            None => s.concurrent_downloads_max,
        },
        ..s
    }
}

/// Whether the retries field holds a number outside 1 to 10.
pub open spec fn retries_refused(v: GeneralFieldValues) -> bool {
    match v.podcast_max_retries {
        Some(t) => match parsed_u8(t@) {
            Some(q) => !(1 <= q < 11),
            None => false,
        },
        None => false,
    }
}

/// The retries field taken in.
pub open spec fn take_retries(s: GeneralSettingsView, v: GeneralFieldValues) -> GeneralSettingsView {
    GeneralSettingsView {
        max_download_retries: match v.podcast_max_retries {
            Some(t) => match parsed_u8(t@) {
                Some(q) => q,
                None => s.max_download_retries,
            },
            None => s.max_download_retries,
        },
        ..s
    }
}

/// The choice fields after the retries check taken in.
pub open spec fn take_middle(s: GeneralSettingsView, v: GeneralFieldValues) -> GeneralSettingsView {
    GeneralSettingsView {
        coverart_align: match v.album_photo_align {
            Some(x) => align_of(x),
            None => s.coverart_align,
        },
        remember_position: match v.save_last_position {
            Some(x) => if x == 1 {
                RememberPosition::AllNo
            } else if x == 2 {
                RememberPosition::AllYes
            } else {
                s.remember_position
            },
            None => s.remember_position,
        },
        quit_server_on_exit: match v.kill_daemon {
            Some(x) => yes_chosen(x),
            None => s.quit_server_on_exit,
        },
        use_mediacontrols: match v.player_use_mpris {
            Some(x) => yes_chosen(x),
            None => s.use_mediacontrols,
        },
        set_discord_status: match v.player_use_discord {
            Some(x) => yes_chosen(x),
            None => s.set_discord_status,
        },
        ..s
    }
}

/// Whether the port field holds a port outside 1024 to 65534.
pub open spec fn port_refused(v: GeneralFieldValues) -> bool {
    match v.player_port {
        Some(t) => match parsed_u16(t@) {
            Some(p) => !(1024 <= p < 65535),
            None => false,
        },
        None => false,
    }
}

/// The port and the address taken in.
pub open spec fn take_port_address(s: GeneralSettingsView, v: GeneralFieldValues) -> GeneralSettingsView {
    GeneralSettingsView {
        port: match v.player_port {
            Some(t) => match parsed_u16(t@) {
                Some(p) => p,
                None => s.port,
            },
            None => s.port,
        },
        address: match v.player_address {
            Some(a) => a@,
            None => s.address,
        },
        ..s
    }
}

/// Whether the socket protocol is chosen where there are no Unix sockets.
pub open spec fn protocol_refused(v: GeneralFieldValues, unix: bool) -> bool {
    v.player_protocol == Some(1usize) && !unix
}

/// The protocol taken in.
pub open spec fn take_protocol(s: GeneralSettingsView, v: GeneralFieldValues) -> GeneralSettingsView {
    GeneralSettingsView {
        protocol: match v.player_protocol {
            Some(x) => if x == 0 {
                ComProtocol::Http
            } else {
                ComProtocol::Uds
            },
            None => s.protocol,
        },
        ..s
    }
}

/// The socket path and the extra `yt-dlp` arguments taken in.
pub open spec fn take_last(s: GeneralSettingsView, v: GeneralFieldValues, uds: Seq<char>) -> GeneralSettingsView {
    GeneralSettingsView {
        socket_path: match v.player_uds_path {
            Some(_) => uds,
            None => s.socket_path,
        },
        ytdlp_extra_args: match v.extra_ytdlp_args {
            Some(a) => a@,
            None => s.ytdlp_extra_args,
        },
        ..s
    }
}

/// The settings and the outcome after taking the general page's values into
/// `s` with the key bindings fine: the fields are taken in the page's order,
/// and the first refused value stops the taking there.
pub open spec fn collect_spec(s: GeneralSettingsView, v: GeneralFieldValues, unix: bool, f: OutsideFacts) -> (GeneralSettingsView, Result<(), ConfigDataError>) {
    let s1 = take_early(s, v, f);
    if retries_refused(v) {
        (s1, Err(ConfigDataError::MaxRetries))
    } else {
        let s2 = take_middle(take_retries(s1, v), v);
        if port_refused(v) {
            (s2, Err(ConfigDataError::Port))
        } else {
            let s3 = take_port_address(s2, v);
            if protocol_refused(v, unix) {
                (s3, Err(ConfigDataError::UdsUnsupported))
            } else {
                let s4 = take_protocol(s3, v);
                if v.player_uds_path is Some && !valid_socket_path(f.uds) {
                    (s4, Err(ConfigDataError::UdsPath))
                } else {
                    (take_last(s4, v, f.uds), Ok(()))
                }
            }
        }
    }
}

/// Take the values of the general page's fields into `settings`, in the
/// order of the page. `keys` is the outcome of checking the edited key
/// bindings; when they clash nothing is taken. A refused value stops the
/// taking there: what came before it stays taken; see `collect_spec`.
///
/// The choice fields set their flags (the first choice means yes), the cover
/// art alignment, the remembered position (only for its second and third
/// choice) and the protocol; count fields are taken when they hold a non-zero
/// count; podcast retries must be 1 to 10 and the port 1024 to 65534; the
/// socket protocol needs Unix; the socket path, with `~` expanded, must be
/// absolute and end in `.socket`; the podcast directory is taken, expanded,
/// when it exists; the music directories are the parts of their field that
/// exist on disk; the address is taken as given. The disk and the
/// environment are asked first (see `gather_facts`), then the values are
/// taken with their answers (see `collect_with_facts`).
pub fn collect_config_data(
    settings: &mut GeneralSettings,
    values: &GeneralFieldValues,
    keys: Result<(), String>,
    unix: bool,
) -> (r: Result<(), ConfigDataError>)
    requires
        values.save_last_position matches Some(x) ==> x <= 2,
        values.player_protocol matches Some(x) ==> x <= 1,
    ensures
        keys is Err ==> r == Err::<(), ConfigDataError>(ConfigDataError::Keys(keys->Err_0))
            && *final(settings) == *old(settings),
        keys is Ok ==> exists|f: OutsideFacts|
            facts_fit(f, *values) && #[trigger] collect_spec(old(settings)@, *values, unix, f) == (
            final(settings)@,
            r,
        ),
{
    if let Err(e) = keys {
        return Err(ConfigDataError::Keys(e));
    }
    let facts = gather_facts(values);
    collect_with_facts(settings, values, Ok(()), unix, &facts)
}

/// Take in the music directories field: the parts whose flag is set.
fn take_music_dirs(settings: &mut GeneralSettings, values: &GeneralFieldValues, facts: &CollectFacts)
    ensures
        values.music_dir matches Some(m) ==> final(settings)@ == (GeneralSettingsView {
            music_dirs: kept_parts(split_on(m@, ';'), facts@.music_flags),
            ..old(settings)@
        }),
        values.music_dir is None ==> final(settings)@ == old(settings)@,
{
    if let Some(m) = &values.music_dir {
        settings.music_dirs = kept_music_dirs(m.as_str(), &facts.music_flags);
    }
}

/// Take in the podcast directory field: its expansion, when that exists.
fn take_podcast_dir(settings: &mut GeneralSettings, values: &GeneralFieldValues, facts: &CollectFacts)
    ensures
        final(settings)@ == (GeneralSettingsView {
            podcast_dir: match values.podcast_dir {
                Some(_) => match facts@.podcast_dir {
                    Some(e) => e,
                    None => old(settings)@.podcast_dir,
                },
                None => old(settings)@.podcast_dir,
            },
            ..old(settings)@
        }),
{
    if values.podcast_dir.is_some() {
        if let Some(e) = &facts.podcast_dir {
            settings.podcast_dir = e.clone();
        }
    }
}

/// Take in the fields that come before the retries check.
fn take_early_values(settings: &mut GeneralSettings, values: &GeneralFieldValues, facts: &CollectFacts)
    ensures
        final(settings)@ == take_early(old(settings)@, *values, facts@),
{
    take_music_dirs(settings, values, facts);
    if let Some(x) = values.exit_confirmation {
        settings.confirm_quit = x == 0;
    }
    if let Some(x) = values.playlist_display_symbol {
        settings.use_loop_mode_symbol = x == 0;
    }
    if let Some(t) = &values.random_track_quantity {
        if let Some(n) = parse_u32(t.as_str()) {
            if n != 0 {
                settings.random_track_quantity = n;
            }
        }
    }
    if let Some(t) = &values.random_album_quantity {
        if let Some(n) = parse_u32(t.as_str()) {
            if n != 0 {
                settings.random_album_min_quantity = n;
            }
        }
    }
    take_podcast_dir(settings, values, facts);
    if let Some(t) = &values.podcast_simul_download {
        if let Some(n) = parse_u8(t.as_str()) {
            if n != 0 {
                settings.concurrent_downloads_max = n;
            }
        }
    }
}

/// Take in the `kill_daemon` choice.
fn take_kill_daemon(settings: &mut GeneralSettings, values: &GeneralFieldValues)
    ensures
        final(settings)@ == (GeneralSettingsView {
            quit_server_on_exit: match values.kill_daemon {
                Some(x) => yes_chosen(x),
                None => old(settings)@.quit_server_on_exit,
            },
            ..old(settings)@
        }),
{
    if let Some(x) = values.kill_daemon {
        settings.quit_server_on_exit = x == 0;
    }
}

/// Take in the `player_use_mpris` choice.
fn take_mpris(settings: &mut GeneralSettings, values: &GeneralFieldValues)
    ensures
        final(settings)@ == (GeneralSettingsView {
            use_mediacontrols: match values.player_use_mpris {
                Some(x) => yes_chosen(x),
                None => old(settings)@.use_mediacontrols,
            },
            ..old(settings)@
        }),
{
    if let Some(x) = values.player_use_mpris {
        settings.use_mediacontrols = x == 0;
    }
}

/// Take in the `player_use_discord` choice.
fn take_discord(settings: &mut GeneralSettings, values: &GeneralFieldValues)
    ensures
        final(settings)@ == (GeneralSettingsView {
            set_discord_status: match values.player_use_discord {
                Some(x) => yes_chosen(x),
                None => old(settings)@.set_discord_status,
            },
            ..old(settings)@
        }),
{
    if let Some(x) = values.player_use_discord {
        settings.set_discord_status = x == 0;
    }
}

/// Take in the cover art alignment and the remembered position.
fn take_align_position(settings: &mut GeneralSettings, values: &GeneralFieldValues)
    requires
        values.save_last_position matches Some(x) ==> x <= 2,
    ensures
        final(settings)@ == (GeneralSettingsView {
            coverart_align: match values.album_photo_align {
                Some(x) => align_of(x),
                None => old(settings)@.coverart_align,
            },
            remember_position: match values.save_last_position {
                Some(x) => if x == 1 {
                    RememberPosition::AllNo
                } else if x == 2 {
                    RememberPosition::AllYes
                } else {
                    old(settings)@.remember_position
                },
                None => old(settings)@.remember_position,
            },
            ..old(settings)@
        }),
{
    if let Some(x) = values.album_photo_align {
        settings.coverart_align = if x == 0 {
            XywhAlign::BottomRight
        } else if x == 1 {
            XywhAlign::BottomLeft
        } else if x == 2 {
            XywhAlign::TopRight
        } else {
            XywhAlign::TopLeft
        };
    }
    if let Some(x) = values.save_last_position {
        if x == 1 {
            settings.remember_position = RememberPosition::AllNo;
        } else if x == 2 {
            settings.remember_position = RememberPosition::AllYes;
        }
    }
}

/// Take in the choice fields that come after the retries check.
fn take_middle_choices(settings: &mut GeneralSettings, values: &GeneralFieldValues)
    requires
        values.save_last_position matches Some(x) ==> x <= 2,
    ensures
        final(settings)@ == take_middle(old(settings)@, *values),
{
    take_align_position(settings, values);
    take_kill_daemon(settings, values);
    take_mpris(settings, values);
    take_discord(settings, values);
}

/// Check and take in the retries field; says whether it was refused, in
/// which case nothing changes.
fn take_retries_value(settings: &mut GeneralSettings, values: &GeneralFieldValues) -> (refused: bool)
    ensures
        refused == retries_refused(*values),
        final(settings)@ == if refused {
            old(settings)@
        } else {
            take_retries(old(settings)@, *values)
        },
{
    if let Some(t) = &values.podcast_max_retries {
        if let Some(q) = parse_u8(t.as_str()) {
            if 1 <= q && q < 11 {
                settings.max_download_retries = q;
            } else {
                return true;
            }
        }
    }
    false
}

/// Check and take in the port field, then the address; says whether the port
/// was refused, in which case nothing changes.
fn take_port_address_values(settings: &mut GeneralSettings, values: &GeneralFieldValues) -> (refused: bool)
    ensures
        refused == port_refused(*values),
        final(settings)@ == if refused {
            old(settings)@
        } else {
            take_port_address(old(settings)@, *values)
        },
{
    if let Some(t) = &values.player_port {
        if let Some(p) = parse_u16(t.as_str()) {
            if 1024 <= p && p < 65535 {
                settings.port = p;
            } else {
                return true;
            }
        }
    }
    if let Some(a) = &values.player_address {
        settings.address = a.clone();
    }
    false
}

/// Check and take in the protocol field; says whether it was refused, in
/// which case nothing changes.
fn take_protocol_value(settings: &mut GeneralSettings, values: &GeneralFieldValues, unix: bool) -> (refused: bool)
    requires
        values.player_protocol matches Some(x) ==> x <= 1,
    ensures
        refused == protocol_refused(*values, unix),
        final(settings)@ == if refused {
            old(settings)@
        } else {
            take_protocol(old(settings)@, *values)
        },
{
    if let Some(x) = values.player_protocol {
        if x == 0 {
            settings.protocol = ComProtocol::Http;
        } else {
            if !unix {
                return true;
            }
            settings.protocol = ComProtocol::Uds;
        }
    }
    false
}

/// Check and take in the socket path (its expansion, from `facts`), then the
/// extra arguments; says whether the socket path was refused, in which case
/// nothing changes.
fn take_last_values(settings: &mut GeneralSettings, values: &GeneralFieldValues, facts: &CollectFacts) -> (refused: bool)
    ensures
        refused == (values.player_uds_path is Some && !valid_socket_path(facts@.uds)),
        final(settings)@ == if refused {
            old(settings)@
        } else {
            take_last(old(settings)@, *values, facts@.uds)
        },
{
    if values.player_uds_path.is_some() {
        if !is_valid_socket_path(facts.uds.as_str()) {
            return true;
        }
        settings.socket_path = facts.uds.clone();
    }
    if let Some(a) = &values.extra_ytdlp_args {
        settings.ytdlp_extra_args = a.clone();
    }
    false
}

/// Take the values in given what the disk and the environment gave (see
/// `gather_facts`): in the page's order, the first refused value stopping the
/// taking there; see `collect_spec`. `keys` is the outcome of checking the
/// edited key bindings: when they clash nothing is taken.
pub fn collect_with_facts(
    settings: &mut GeneralSettings,
    values: &GeneralFieldValues,
    keys: Result<(), String>,
    unix: bool,
    facts: &CollectFacts,
) -> (r: Result<(), ConfigDataError>)
    requires
        values.save_last_position matches Some(x) ==> x <= 2,
        values.player_protocol matches Some(x) ==> x <= 1,
    ensures
        keys is Err ==> r == Err::<(), ConfigDataError>(ConfigDataError::Keys(keys->Err_0))
            && *final(settings) == *old(settings),
        keys is Ok ==> collect_spec(old(settings)@, *values, unix, facts@) == (final(settings)@, r),
{
    if let Err(e) = keys {
        return Err(ConfigDataError::Keys(e));
    }
    take_early_values(settings, values, facts);
    if take_retries_value(settings, values) {
        return Err(ConfigDataError::MaxRetries);
    }
    take_middle_choices(settings, values);
    if take_port_address_values(settings, values) {
        return Err(ConfigDataError::Port);
    }
    if take_protocol_value(settings, values, unix) {
        return Err(ConfigDataError::UdsUnsupported);
    }
    if take_last_values(settings, values, facts) {
        return Err(ConfigDataError::UdsPath);
    }
    Ok(())
}

/// The values the choice fields of the general page show when it is opened on
/// settings `s`; the input fields are left out.
pub open spec fn opening_choices(s: GeneralSettingsView) -> GeneralFieldValues {
    GeneralFieldValues {
        music_dir: None,
        exit_confirmation: Some(yes_no_choice(s.confirm_quit)),
        playlist_display_symbol: Some(yes_no_choice(s.use_loop_mode_symbol)),
        random_track_quantity: None,
        random_album_quantity: None,
        podcast_dir: None,
        podcast_simul_download: None,
        podcast_max_retries: None,
        album_photo_align: Some(align_choice(s.coverart_align)),
        save_last_position: Some(remember_choice(s.remember_position)),
        kill_daemon: Some(yes_no_choice(s.quit_server_on_exit)),
        player_use_mpris: Some(yes_no_choice(s.use_mediacontrols)),
        player_use_discord: Some(yes_no_choice(s.set_discord_status)),
        player_port: None,
        player_address: None,
        player_protocol: Some(protocol_choice(s.protocol)),
        player_uds_path: None,
        extra_ytdlp_args: None,
    }
}

/// The values the choice fields of the general page show when it is opened.
pub fn general_page_choices(settings: &GeneralSettings) -> (v: GeneralFieldValues)
    ensures
        v == opening_choices(settings@),
{
    let yes_no = |b: bool| -> (r: usize)
        ensures
            r == yes_no_choice(b),
        {
            if b {
                0
            } else {
                1
            }
        };
    GeneralFieldValues {
        music_dir: None,
        exit_confirmation: Some(yes_no(settings.confirm_quit)),
        playlist_display_symbol: Some(yes_no(settings.use_loop_mode_symbol)),
        random_track_quantity: None,
        random_album_quantity: None,
        podcast_dir: None,
        podcast_simul_download: None,
        podcast_max_retries: None,
        album_photo_align: Some(
            match settings.coverart_align {
                XywhAlign::BottomRight => 0,
                XywhAlign::BottomLeft => 1,
                XywhAlign::TopRight => 2,
                XywhAlign::TopLeft => 3,
            },
        ),
        save_last_position: Some(
            match settings.remember_position {
                RememberPosition::Other => 0,
                RememberPosition::AllNo => 1,
                RememberPosition::AllYes => 2,
            },
        ),
        kill_daemon: Some(yes_no(settings.quit_server_on_exit)),
        player_use_mpris: Some(yes_no(settings.use_mediacontrols)),
        player_use_discord: Some(yes_no(settings.set_discord_status)),
        player_port: None,
        player_address: None,
        player_protocol: Some(
            match settings.protocol {
                ComProtocol::Http => 0,
                ComProtocol::Uds => 1,
            },
        ),
        player_uds_path: None,
        extra_ytdlp_args: None,
    }
}

/// Saving the general page's choices as they were shown when it opened is
/// accepted and changes no setting, on any system where the chosen protocol
/// works, whatever the disk and the environment hold.
pub proof fn lemma_unedited_choices_keep_settings(s: GeneralSettingsView, unix: bool, f: OutsideFacts)
    requires
        s.protocol == ComProtocol::Uds ==> unix,
    ensures
        collect_spec(s, opening_choices(s), unix, f) == (s, Ok::<(), ConfigDataError>(())),
{
    let v = opening_choices(s);
    assert(take_early(s, v, f) == s);
    assert(take_retries(s, v) == s);
    assert(take_middle(s, v) == s);
    assert(take_port_address(s, v) == s);
    assert(take_protocol(s, v) == s);
    assert(take_last(s, v, f.uds) == s);
}

} // verus!
