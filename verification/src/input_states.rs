//! The text typed into a key combination field, with the cursor within it.
use vstd::prelude::*;
use vstd::string::StrSliceExecFns;

verus! {

/// The typed text and the cursor position: the cursor stands before the
/// character at its index, or after the text when it equals the length.
#[derive(Debug)]
pub struct InputStates {
    pub input: Vec<char>,
    pub cursor: usize,
}

/// The typed text and the cursor, as values.
pub struct InputView {
    pub input: Seq<char>,
    pub cursor: nat,
}

impl View for InputStates {
    type V = InputView;

    open spec fn view(&self) -> InputView {
        InputView { input: self.input@, cursor: self.cursor as nat }
    }
}

/// How long the text may grow: the given limit, or `usize::MAX`.
pub open spec fn limit(max_len: Option<usize>) -> nat {
    match max_len {
        Some(m) => m as nat,
        None => usize::MAX as nat,
    }
}

/// Typing `ch`: inserted at the cursor, which moves past it, unless the text
/// has reached its limit.
pub open spec fn append_spec(v: InputView, ch: char, max_len: Option<usize>) -> InputView {
    if v.input.len() < limit(max_len) {
        InputView { input: v.input.insert(v.cursor as int, ch), cursor: v.cursor + 1 }
    } else {
        v
    }
}

/// Backspace: the character before the cursor goes, and the cursor moves back.
pub open spec fn backspace_spec(v: InputView) -> InputView {
    if v.cursor > 0 && v.input.len() > 0 {
        InputView { input: v.input.remove(v.cursor - 1), cursor: (v.cursor - 1) as nat }
    } else {
        v
    }
}

/// Delete: the character under the cursor goes.
pub open spec fn delete_spec(v: InputView) -> InputView {
    if v.cursor < v.input.len() {
        InputView { input: v.input.remove(v.cursor as int), cursor: v.cursor }
    } else {
        v
    }
}

/// The cursor one step right, if not at the end.
pub open spec fn incr_cursor_spec(v: InputView) -> InputView {
    if v.cursor < v.input.len() {
        InputView { input: v.input, cursor: v.cursor + 1 }
    } else {
        v
    }
}

/// The cursor one step left, if not at the start.
pub open spec fn decr_cursor_spec(v: InputView) -> InputView {
    if v.cursor > 0 {
        InputView { input: v.input, cursor: (v.cursor - 1) as nat }
    } else {
        v
    }
}

/// The text `s` typed into an empty field: as much of it as the limit allows,
/// with the cursor after it.
pub open spec fn typed_text(s: Seq<char>, max_len: Option<usize>) -> InputView {
    let n = if s.len() <= limit(max_len) {
        s.len()
    } else {
        limit(max_len)
    };
    InputView { input: s.take(n as int), cursor: n }
}

/// The text as a `String`; `FromIterator<char>` for `String` collects the
/// characters in order.
#[verifier::external_body]
pub(crate) fn string_from_chars(chars: &Vec<char>) -> (r: String)
    ensures
        r@ == chars@,
{
    chars.iter().collect()
}

impl InputStates {
    /// The cursor stands within the text or right after it.
    pub open spec fn wf(&self) -> bool {
        self.cursor <= self.input@.len()
    }

    /// An empty field.
    pub fn new() -> (r: Self)
        ensures
            r@.input == Seq::<char>::empty(),
            r@.cursor == 0,
    {
        InputStates { input: Vec::new(), cursor: 0 }
    }

    /// Type `ch` at the cursor, unless the text has reached `max_len`.
    pub fn append(&mut self, ch: char, max_len: Option<usize>)
        requires
            old(self).wf(),
        ensures
            final(self).wf(),
            final(self)@ == append_spec(old(self)@, ch, max_len),
    {
        let lim: usize = match max_len {
            Some(m) => m,
            None => usize::MAX,
        };
        if self.input.len() < lim {
            self.input.insert(self.cursor, ch);
            self.incr_cursor();
        }
    }

    /// Remove the character before the cursor.
    pub fn backspace(&mut self)
        requires
            old(self).wf(),
        ensures
            final(self).wf(),
            final(self)@ == backspace_spec(old(self)@),
    {
        if self.cursor > 0 && !self.input.is_empty() {
            self.input.remove(self.cursor - 1);
            self.cursor = self.cursor - 1;
        }
    }

    /// Remove the character under the cursor.
    pub fn delete(&mut self)
        requires
            old(self).wf(),
        ensures
            final(self).wf(),
            final(self)@ == delete_spec(old(self)@),
    {
        if self.cursor < self.input.len() {
            self.input.remove(self.cursor);
        }
    }

    /// Move the cursor right.
    pub fn incr_cursor(&mut self)
        requires
            old(self).cursor <= old(self).input@.len(),
        ensures
            final(self).wf(),
            final(self)@ == incr_cursor_spec(old(self)@),
    {
        if self.cursor < self.input.len() {
            self.cursor = self.cursor + 1;
        }
    }

    /// Move the cursor left.
    pub fn decr_cursor(&mut self)
        requires
            old(self).wf(),
        ensures
            final(self).wf(),
            final(self)@ == decr_cursor_spec(old(self)@),
    {
        if self.cursor > 0 {
            self.cursor = self.cursor - 1;
        }
    }

    /// Move the cursor to the start.
    pub fn cursor_at_begin(&mut self)
        ensures
            final(self).wf(),
            final(self)@ == (InputView { input: old(self)@.input, cursor: 0 }),
    {
        self.cursor = 0;
    }

    /// Move the cursor past the end.
    pub fn cursor_at_end(&mut self)
        ensures
            final(self).wf(),
            final(self)@ == (InputView { input: old(self)@.input, cursor: old(self)@.input.len() }),
    {
        self.cursor = self.input.len();
    }

    /// The typed text.
    pub fn get_value(&self) -> (r: String)
        ensures
            r@ == self@.input,
    {
        string_from_chars(&self.input)
    }

    /// Replace the text by `s`, typed from the start under the limit `max_len`.
    pub fn set_value(&mut self, s: &str, max_len: Option<usize>)
        ensures
            final(self).wf(),
            final(self)@ == typed_text(s@, max_len),
    {
        self.input = Vec::new();
        self.cursor = 0;
        let n = s.unicode_len();
        let mut i: usize = 0;
        proof {
            assert(s@.take(0).take(0) =~= self@.input);
        }
        while i < n
            invariant
                n == s@.len(),
                i <= n,
                self.wf(),
                self@ == typed_text(s@.take(i as int), max_len),
            decreases n - i,
        {
            let ghost before = self@;
            let c = s.get_char(i);
            self.append(c, max_len);
            proof {
                let t = s@.take(i as int);
                let t1 = s@.take(i + 1);
                assert(t1 =~= t.push(c));
                if t.len() < limit(max_len) {
                    assert(before.cursor == before.input.len());
                    assert(before.input.insert(before.cursor as int, c) =~= t1.take(t1.len() as int));
                    assert(t1.take((i + 1) as int) =~= t1);
                } else {
                    assert(t1.take(limit(max_len) as int) =~= t.take(limit(max_len) as int));
                }
            }
            i = i + 1;
        }
        proof {
            assert(s@.take(n as int) =~= s@);
        }
    }
}

} // verus!

verus! {

/// Typing a character and then deleting it with backspace gives back the text
/// and the cursor, when the text had room for it.
pub proof fn lemma_type_then_backspace(v: InputView, ch: char, max_len: Option<usize>)
    requires
        v.cursor <= v.input.len(),
        v.input.len() < limit(max_len),
    ensures
        backspace_spec(append_spec(v, ch, max_len)) == v,
{
    let t = append_spec(v, ch, max_len);
    assert(t.input.remove(v.cursor as int) =~= v.input);
}

/// Moving the cursor left and then right gives it back, unless it was at the start.
pub proof fn lemma_left_then_right(v: InputView)
    requires
        0 < v.cursor <= v.input.len(),
    ensures
        incr_cursor_spec(decr_cursor_spec(v)) == v,
{
}

} // verus!
