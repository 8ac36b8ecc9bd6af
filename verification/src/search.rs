//! Searching tracks by a wildcard pattern over their artist, title and album.
use vstd::prelude::*;
use vstd::string::StringExecFns;

use crate::model::{Model, PlaylistTrack, TrackSource};

verus! {

/// Whether the whole of `text` matches `pattern`, where `?` stands for any one
/// character, `*` for any run of characters (none too) and every other
/// character for itself.
pub open spec fn wild_matches(pattern: Seq<char>, text: Seq<char>) -> bool
    decreases pattern.len() + text.len(),
{
    if pattern.len() == 0 {
        text.len() == 0
    } else if pattern[0] == '*' {
        wild_matches(pattern.drop_first(), text) || (text.len() > 0 && wild_matches(
            pattern,
            text.drop_first(),
        ))
    } else {
        text.len() > 0 && (pattern[0] == '?' || pattern[0] == text[0]) && wild_matches(
            pattern.drop_first(),
            text.drop_first(),
        )
    }
}

/// What `str::to_lowercase` makes of a text.
pub uninterp spec fn lowercase(s: Seq<char>) -> Seq<char>;

/// `wildmatch::WildMatch::new(pattern).matches(text)`. As the crate documents
/// it, the pattern must match all of the text, `?` matches exactly one
/// character, `*` any number of characters including none, and every other
/// character matches itself, case included; that is what is claimed here.
#[verifier::external_body]
pub(crate) fn wildcard_matches(pattern: &str, text: &str) -> (r: bool)
    ensures
        r == wild_matches(pattern@, text@),
{
    wildmatch::WildMatch::new(pattern).matches(text)
}

/// `str::to_lowercase`. Its result is named by `lowercase`, a function of the
/// text alone; nothing more is claimed of it.
#[verifier::external_body]
pub(crate) fn to_lowercase(s: &str) -> (r: String)
    ensures
        r@ == lowercase(s@),
{
    s.to_lowercase()
}

/// The pattern a search for `input` uses: its lowercase form inside `*`.
pub open spec fn search_pattern(input: Seq<char>) -> Seq<char> {
    seq!['*'] + lowercase(input) + seq!['*']
}

/// Build the pattern a search for `input` uses.
pub fn make_search_pattern(input: &str) -> (r: String)
    ensures
        r@ == search_pattern(input@),
{
    let lower = to_lowercase(input);
    let star = "*";
    proof {
        reveal_strlit("*");
    }
    let pattern = String::from_str(star).concat(lower.as_str()).concat(star);
    pattern
}

/// A field matches when it is there and its lowercase form matches the pattern.
pub open spec fn field_matches(field: Option<Seq<char>>, pattern: Seq<char>) -> bool {
    match field {
        Some(t) => wild_matches(pattern, lowercase(t)),
        None => false,
    }
}

/// The text of an optional string slice.
pub open spec fn opt_str_view(o: Option<&str>) -> Option<Seq<char>> {
    match o {
        Some(s) => Some(s@),
        None => None,
    }
}

/// The text of an optional string.
pub open spec fn opt_string_view(o: Option<String>) -> Option<Seq<char>> {
    match o {
        Some(s) => Some(s@),
        None => None,
    }
}

/// What a search looks at in a record, and what a result list shows of it.
pub trait Matchable {
    /// The file of the record.
    spec fn spec_file(&self) -> Option<Seq<char>>;

    /// The title of the record.
    spec fn spec_title(&self) -> Option<Seq<char>>;

    /// The album of the record.
    spec fn spec_album(&self) -> Option<Seq<char>>;

    /// The artist of the record.
    spec fn spec_artist(&self) -> Option<Seq<char>>;

    /// The duration of the record in milliseconds.
    spec fn spec_duration(&self) -> Option<u64>;

    fn meta_file(&self) -> (r: Option<String>)
        ensures
            opt_string_view(r) == self.spec_file(),
    ;

    fn meta_title(&self) -> (r: Option<&str>)
        ensures
            opt_str_view(r) == self.spec_title(),
    ;

    fn meta_album(&self) -> (r: Option<&str>)
        ensures
            opt_str_view(r) == self.spec_album(),
    ;

    fn meta_artist(&self) -> (r: Option<&str>)
        ensures
            opt_str_view(r) == self.spec_artist(),
    ;

    fn meta_duration(&self) -> (r: Option<u64>)
        ensures
            r == self.spec_duration(),
    ;
}

/// The text of an optional string field, borrowed.
fn opt_as_str(o: &Option<String>) -> (r: Option<&str>)
    ensures
        opt_str_view(r) == opt_string_view(*o),
{
    match o {
        Some(s) => Some(s.as_str()),
        None => None,
    }
}

impl Matchable for PlaylistTrack {
    open spec fn spec_file(&self) -> Option<Seq<char>> {
        match self.source {
            TrackSource::Path(p) => Some(p@),
            _ => None,
        }
    }

    open spec fn spec_title(&self) -> Option<Seq<char>> {
        opt_string_view(self.title)
    }

    open spec fn spec_album(&self) -> Option<Seq<char>> {
        opt_string_view(self.album)
    }

    open spec fn spec_artist(&self) -> Option<Seq<char>> {
        opt_string_view(self.artist)
    }

    open spec fn spec_duration(&self) -> Option<u64> {
        self.duration_ms
    }

    fn meta_file(&self) -> (r: Option<String>) {
        match &self.source {
            TrackSource::Path(p) => Some(p.clone()),
            _ => None,
        }
    }

    fn meta_title(&self) -> (r: Option<&str>) {
        opt_as_str(&self.title)
    }

    fn meta_album(&self) -> (r: Option<&str>) {
        opt_as_str(&self.album)
    }

    fn meta_artist(&self) -> (r: Option<&str>) {
        opt_as_str(&self.artist)
    }

    fn meta_duration(&self) -> (r: Option<u64>) {
        self.duration_ms
    }
}

/// A record matches a pattern when its artist, title or album does.
pub open spec fn record_matches<T: Matchable>(record: T, pattern: Seq<char>) -> bool {
    field_matches(record.spec_artist(), pattern) || field_matches(record.spec_title(), pattern)
        || field_matches(record.spec_album(), pattern)
}

/// Whether the field's lowercase form matches the pattern.
fn match_field(field: Option<&str>, search: &str) -> (r: bool)
    ensures
        r == field_matches(opt_str_view(field), search@),
{
    match field {
        Some(t) => {
            let lower = to_lowercase(t);
            wildcard_matches(search, lower.as_str())
        },
        None => false,
    }
}

/// The indices, in increasing order, of the records that match `pattern`.
pub open spec fn matching_indices<T: Matchable>(records: Seq<T>, pattern: Seq<char>) -> Seq<usize>
    decreases records.len(),
{
    if records.len() == 0 {
        Seq::empty()
    } else {
        let rest = matching_indices(records.drop_last(), pattern);
        if record_matches(records.last(), pattern) {
            rest.push((records.len() - 1) as usize)
        } else {
            rest
        }
    }
}

impl Model {
    /// Whether the record's artist, title or album matches the pattern `search`.
    pub fn match_record<T: Matchable>(record: &T, search: &str) -> (r: bool)
        ensures
            r == record_matches(*record, search@),
    {
        let artist_match = match_field(record.meta_artist(), search);
        let title_match = match_field(record.meta_title(), search);
        let album_match = match_field(record.meta_album(), search);
        artist_match || title_match || album_match
    }

    /// The indices of the records whose artist, title or album contains a match
    /// for `input`, ignoring case: each field's lowercase form is matched against
    /// `*` + the lowercase input + `*`, so `?` and `*` in the input act as wildcards.
    pub fn update_search<T: Matchable>(indexable_songs: &Vec<T>, input: &str) -> (r: Vec<usize>)
        ensures
            r@ == matching_indices(indexable_songs@, search_pattern(input@)),
    {
        let search = make_search_pattern(input);
        let mut result: Vec<usize> = Vec::new();
        let mut i: usize = 0;
        while i < indexable_songs.len()
            invariant
                i <= indexable_songs@.len(),
                search@ == search_pattern(input@),
                result@ == matching_indices(indexable_songs@.take(i as int), search@),
            decreases indexable_songs@.len() - i,
        {
            proof {
                assert(indexable_songs@.take(i + 1).drop_last() =~= indexable_songs@.take(i as int));
            }
            if Model::match_record(&indexable_songs[i], search.as_str()) {
                result.push(i);
            }
            i = i + 1;
        }
        proof {
            assert(indexable_songs@.take(i as int) =~= indexable_songs@);
        }
        result
    }
}

/// The text has neither of the wildcard characters `*` and `?`.
pub open spec fn no_wildcards(x: Seq<char>) -> bool {
    forall|i: int| 0 <= i < x.len() ==> x[i] != '*' && x[i] != '?'
}

/// `x` occurs in `t`.
pub open spec fn occurs_in(x: Seq<char>, t: Seq<char>) -> bool {
    exists|k: int| 0 <= k && k + x.len() <= t.len() && #[trigger] t.subrange(k, k + x.len()) == x
}

/// A lone `*` matches every text.
pub proof fn lemma_star_matches_all(t: Seq<char>)
    ensures
        wild_matches(seq!['*'], t),
    decreases t.len(),
{
    let star = seq!['*'];
    assert(star.len() == 1 && star[0] == '*');
    assert(star.drop_first() =~= Seq::<char>::empty());
    if t.len() > 0 {
        lemma_star_matches_all(t.drop_first());
    } else {
        assert(wild_matches(star.drop_first(), t));
    }
}

/// A pattern that starts with text free of wildcards matches exactly when the
/// text starts with it and the rest of the pattern matches the rest.
pub proof fn lemma_plain_prefix(x: Seq<char>, q: Seq<char>, t: Seq<char>)
    requires
        no_wildcards(x),
    ensures
        wild_matches(x + q, t) <==> (x.len() <= t.len() && t.subrange(0, x.len() as int) == x
            && wild_matches(q, t.skip(x.len() as int))),
    decreases x.len(),
{
    if x.len() == 0 {
        assert(x + q =~= q);
        assert(t.skip(0) =~= t);
        assert(t.subrange(0, 0) =~= x);
    } else {
        let p = x + q;
        assert(p[0] == x[0]);
        assert(p.drop_first() =~= x.drop_first() + q);
        assert(no_wildcards(x.drop_first()));
        assert(x[0] != '*' && x[0] != '?');
        if t.len() > 0 {
            lemma_plain_prefix(x.drop_first(), q, t.drop_first());
            if x.len() <= t.len() {
                assert(t.drop_first().skip(x.len() - 1) =~= t.skip(x.len() as int));
                assert(t.subrange(0, x.len() as int) == x <==> (t[0] == x[0] && t.drop_first().subrange(
                    0,
                    x.len() - 1,
                ) == x.drop_first())) by {
                    if t.subrange(0, x.len() as int) == x {
                        assert(t.subrange(0, x.len() as int)[0] == t[0]);
                        assert(t.drop_first().subrange(0, x.len() - 1) =~= x.drop_first());
                    }
                    if t[0] == x[0] && t.drop_first().subrange(0, x.len() - 1) == x.drop_first() {
                        assert forall|i: int| 0 <= i < x.len() implies t.subrange(0, x.len() as int)[i]
                            == x[i] by {
                            if i > 0 {
                                assert(t.drop_first().subrange(0, x.len() - 1)[i - 1] == x.drop_first()[i
                                    - 1]);
                            }
                        }
                        assert(t.subrange(0, x.len() as int) =~= x);
                    }
                }
            }
        }
    }
}

/// A pattern `*` + `q` matches exactly when `q` matches some suffix of the text.
pub proof fn lemma_star_prefix(q: Seq<char>, t: Seq<char>)
    ensures
        wild_matches(seq!['*'] + q, t) <==> exists|k: int|
            0 <= k <= t.len() && #[trigger] wild_matches(q, t.skip(k)),
    decreases t.len(),
{
    let p = seq!['*'] + q;
    assert(p[0] == '*');
    assert(p.drop_first() =~= q);
    assert(t.skip(0) =~= t);
    if wild_matches(q, t) {
        assert(wild_matches(q, t.skip(0)));
    }
    if t.len() > 0 {
        lemma_star_prefix(q, t.drop_first());
        if wild_matches(p, t) {
            if !wild_matches(q, t) {
                let k = choose|k: int|
                    0 <= k <= t.drop_first().len() && #[trigger] wild_matches(
                        q,
                        t.drop_first().skip(k),
                    );
                assert(t.drop_first().skip(k) =~= t.skip(k + 1));
                assert(wild_matches(q, t.skip(k + 1)));
            }
        }
        if exists|k: int| 0 <= k <= t.len() && #[trigger] wild_matches(q, t.skip(k)) {
            let k = choose|k: int| 0 <= k <= t.len() && #[trigger] wild_matches(q, t.skip(k));
            if k > 0 {
                assert(t.drop_first().skip(k - 1) =~= t.skip(k));
                assert(wild_matches(q, t.drop_first().skip(k - 1)));
            }
        }
    } else {
        if exists|k: int| 0 <= k <= t.len() && #[trigger] wild_matches(q, t.skip(k)) {
            let k = choose|k: int| 0 <= k <= t.len() && #[trigger] wild_matches(q, t.skip(k));
            assert(k == 0);
        }
    }
}

/// A search pattern `*` + `x` + `*` with `x` free of wildcards matches exactly
/// the texts in which `x` occurs.
pub proof fn lemma_search_pattern_is_substring(x: Seq<char>, t: Seq<char>)
    requires
        no_wildcards(x),
    ensures
        wild_matches(seq!['*'] + x + seq!['*'], t) <==> occurs_in(x, t),
{
    let star = seq!['*'];
    assert(star + x + star =~= star + (x + star));
    lemma_star_prefix(x + star, t);
    if wild_matches(star + x + star, t) {
        let k = choose|k: int| 0 <= k <= t.len() && #[trigger] wild_matches(x + star, t.skip(k));
        lemma_plain_prefix(x, star, t.skip(k));
        assert(t.skip(k).subrange(0, x.len() as int) =~= t.subrange(k, k + x.len()));
    }
    if occurs_in(x, t) {
        let k = choose|k: int|
            0 <= k && k + x.len() <= t.len() && #[trigger] t.subrange(k, k + x.len()) == x;
        lemma_plain_prefix(x, star, t.skip(k));
        assert(t.skip(k).subrange(0, x.len() as int) =~= t.subrange(k, k + x.len()));
        lemma_star_matches_all(t.skip(k).skip(x.len() as int));
        assert(wild_matches(x + star, t.skip(k)));
    }
}

/// Searching for a text that, lowercased, holds no wildcard finds a record
/// exactly when that lowercased text occurs in the lowercased artist, title
/// or album of the record.
pub proof fn lemma_search_finds_substrings<T: Matchable>(record: T, input: Seq<char>)
    requires
        no_wildcards(lowercase(input)),
    ensures
        record_matches(record, search_pattern(input)) <==> {
            ||| (record.spec_artist() matches Some(a) && occurs_in(lowercase(input), lowercase(a)))
            ||| (record.spec_title() matches Some(a) && occurs_in(lowercase(input), lowercase(a)))
            ||| (record.spec_album() matches Some(a) && occurs_in(lowercase(input), lowercase(a)))
        },
{
    let x = lowercase(input);
    if let Some(a) = record.spec_artist() {
        lemma_search_pattern_is_substring(x, lowercase(a));
    }
    if let Some(a) = record.spec_title() {
        lemma_search_pattern_is_substring(x, lowercase(a));
    }
    if let Some(a) = record.spec_album() {
        lemma_search_pattern_is_substring(x, lowercase(a));
    }
}

} // verus!
