//! The free-text input prompt.
//!
//! [`Input`] holds the immutable configuration of one prompt run: the message
//! shown before the editable region and the minimum number of characters a
//! submitted answer must keep after trimming. [`EditState`] is the live state
//! of a run: the answer buffer and the logical insertion offset. The offset is
//! the single source of truth; the on-screen cursor column is derived from it
//! as `message_len + 1 + offset` (the `+ 1` is the blank column between the
//! message and the answer).

use vstd::prelude::*;
use vstd::string::StrSliceExecFns;

use crate::events::Key;
use crate::events::TermEvent;

verus! {

/// Terminal columns are 16-bit device coordinates, so the message, the
/// separating blank, and the buffer together must stay below this bound.
pub const COLUMN_LIMIT: usize = 65535;

/// The minimum accepted character count when none is configured.
pub const DEFAULT_MINIMUM_CHAR: u16 = 0;

/// Whether `c` is trimmed from the ends of a submitted answer: the Unicode
/// whitespace property, written out code point by code point.
pub open spec fn is_prompt_whitespace(c: char) -> bool {
    ||| c == ' '
    ||| c == '\t'
    ||| c == '\n'
    ||| c == '\u{b}'
    ||| c == '\u{c}'
    ||| c == '\r'
    ||| c == '\u{85}'
    ||| c == '\u{a0}'
    ||| c == '\u{1680}'
    ||| c == '\u{2000}'
    ||| c == '\u{2001}'
    ||| c == '\u{2002}'
    ||| c == '\u{2003}'
    ||| c == '\u{2004}'
    ||| c == '\u{2005}'
    ||| c == '\u{2006}'
    ||| c == '\u{2007}'
    ||| c == '\u{2008}'
    ||| c == '\u{2009}'
    ||| c == '\u{200a}'
    ||| c == '\u{2028}'
    ||| c == '\u{2029}'
    ||| c == '\u{202f}'
    ||| c == '\u{205f}'
    ||| c == '\u{3000}'
}

/// Decides [`is_prompt_whitespace`] on a concrete character.
pub fn prompt_whitespace(c: char) -> (r: bool)
    ensures
        r == is_prompt_whitespace(c),
{
    c == ' ' || c == '\t' || c == '\n' || c == '\u{b}' || c == '\u{c}' || c == '\r'
        || c == '\u{85}' || c == '\u{a0}' || c == '\u{1680}' || c == '\u{2000}'
        || c == '\u{2001}' || c == '\u{2002}' || c == '\u{2003}' || c == '\u{2004}'
        || c == '\u{2005}' || c == '\u{2006}' || c == '\u{2007}' || c == '\u{2008}'
        || c == '\u{2009}' || c == '\u{200a}' || c == '\u{2028}' || c == '\u{2029}'
        || c == '\u{202f}' || c == '\u{205f}' || c == '\u{3000}'
}

/// The number of leading characters of `s` that are whitespace.
pub open spec fn ws_prefix(s: Seq<char>) -> nat
    decreases s.len(),
{
    if s.len() > 0 && is_prompt_whitespace(s[0]) {
        (ws_prefix(s.drop_first()) + 1) as nat
    } else {
        0
    }
}

/// The number of trailing characters of `s` that are whitespace.
pub open spec fn ws_suffix(s: Seq<char>) -> nat
    decreases s.len(),
{
    if s.len() > 0 && is_prompt_whitespace(s.last()) {
        (ws_suffix(s.drop_last()) + 1) as nat
    } else {
        0
    }
}

/// `s` with leading and trailing whitespace removed.
pub open spec fn trimmed(s: Seq<char>) -> Seq<char> {
    if ws_prefix(s) == s.len() {
        Seq::empty()
    } else {
        s.subrange(ws_prefix(s) as int, s.len() - ws_suffix(s))
    }
}

/// `ws_prefix(s)` is exactly the first index carrying a non-whitespace
/// character (or the length, when there is none).
pub proof fn lemma_ws_prefix_is(s: Seq<char>, a: int)
    requires
        0 <= a <= s.len(),
        forall|j: int| 0 <= j < a ==> is_prompt_whitespace(#[trigger] s[j]),
        a < s.len() ==> !is_prompt_whitespace(s[a]),
    ensures
        ws_prefix(s) == a,
    decreases s.len(),
{
    if a == 0 {
    } else {
        assert(is_prompt_whitespace(s[0]));
        assert forall|j: int| 0 <= j < a - 1 implies is_prompt_whitespace(
            #[trigger] s.drop_first()[j],
        ) by {
            assert(s.drop_first()[j] == s[j + 1]);
        }
        if a - 1 < s.drop_first().len() {
            assert(s.drop_first()[a - 1] == s[a]);
        }
        lemma_ws_prefix_is(s.drop_first(), a - 1);
    }
}

/// `ws_suffix(s)` is exactly the number of places in the maximal whitespace
/// run at the end of `s`.
pub proof fn lemma_ws_suffix_is(s: Seq<char>, k: int)
    requires
        0 <= k <= s.len(),
        forall|j: int| s.len() - k <= j < s.len() ==> is_prompt_whitespace(#[trigger] s[j]),
        k < s.len() ==> !is_prompt_whitespace(s[s.len() - k - 1]),
    ensures
        ws_suffix(s) == k,
    decreases s.len(),
{
    if k == 0 {
    } else {
        assert(is_prompt_whitespace(s.last()));
        assert forall|j: int| s.drop_last().len() - (k - 1) <= j < s.drop_last().len()
            implies is_prompt_whitespace(#[trigger] s.drop_last()[j]) by {
            assert(s.drop_last()[j] == s[j]);
        }
        if k - 1 < s.drop_last().len() {
            assert(s.drop_last()[s.drop_last().len() - (k - 1) - 1] == s[s.len() - k - 1]);
        }
        lemma_ws_suffix_is(s.drop_last(), k - 1);
    }
}

/// Prompt configuration for a free-text question.
#[derive(Debug)]
pub struct Input<'a> {
    pub message: &'a str,
    pub minimum_chars: u16,
}

impl<'a> Input<'a> {
    /// Creates an [`Input`] with the provided message.
    pub fn new(message: &'a str) -> (r: Self)
        ensures
            r.message == message,
            r.minimum_chars == DEFAULT_MINIMUM_CHAR,
    {
        Input { message, minimum_chars: DEFAULT_MINIMUM_CHAR }
    }

    /// Sets the minimum number of characters required for the response.
    pub fn with_minimum_chars(self, min_chars: u16) -> (r: Self)
        ensures
            r.message == self.message,
            r.minimum_chars == min_chars,
    {
        Input { minimum_chars: min_chars, ..self }
    }

    /// Starts an editing session for this prompt: an empty buffer with the
    /// insertion offset at its start.
    pub fn begin(&self) -> (s: EditState)
        requires
            self.message@.len() + 1 <= COLUMN_LIMIT,
        ensures
            s.wf(),
            s.buffer@.len() == 0,
            s.offset == 0,
            s.message_len == self.message@.len(),
            s.minimum_chars == self.minimum_chars,
    {
        let message_len: usize = self.message.unicode_len();
        EditState { buffer: Vec::new(), offset: 0, message_len, minimum_chars: self.minimum_chars }
    }
}

/// The live state of a text-input run.
#[derive(Debug)]
pub struct EditState {
    /// The answer typed so far, one entry per character.
    pub buffer: Vec<char>,
    /// The logical insertion offset into `buffer`, `0 ..= buffer.len()`.
    pub offset: usize,
    /// The character count of the prompt message.
    pub message_len: usize,
    /// The minimum trimmed character count a submission must reach.
    pub minimum_chars: u16,
}

impl EditState {
    /// Well-formedness: the offset stays inside the buffer, and the whole
    /// line fits into the terminal's column coordinate space.
    pub open spec fn wf(self) -> bool {
        &&& self.offset <= self.buffer@.len()
        &&& self.message_len + 1 + self.buffer@.len() <= COLUMN_LIMIT
    }

    /// There is room in the column space for one more character.
    pub open spec fn can_grow(self) -> bool {
        self.message_len + 1 + self.buffer@.len() < COLUMN_LIMIT
    }

    /// The terminal column where the next typed character appears.
    pub open spec fn spec_screen_cursor_column(self) -> int {
        self.message_len + 1 + self.offset
    }

    /// Computes the on-screen cursor column from the logical offset.
    pub fn screen_cursor_column(&self) -> (col: usize)
        requires
            self.wf(),
        ensures
            col == self.spec_screen_cursor_column(),
    {
        self.message_len + 1 + self.offset
    }

    /// Inserts `c` at the insertion offset and advances the offset — and so
    /// the derived screen column — one place to the right.
    pub fn insert_char(&mut self, c: char)
        requires
            old(self).wf(),
            old(self).can_grow(),
        ensures
            final(self).wf(),
            inserted(*old(self), *final(self), c),
    {
        self.buffer.insert(self.offset, c);
        self.offset = self.offset + 1;
    }

    /// Removes the character immediately left of the insertion offset and
    /// moves the offset one place left. When nothing stands left of the
    /// offset — in particular whenever the buffer is empty — nothing changes.
    pub fn delete_char(&mut self)
        requires
            old(self).wf(),
        ensures
            final(self).wf(),
            deleted(*old(self), *final(self)),
            old(self).buffer@.len() == 0 ==> *final(self) == *old(self),
    {
        if self.offset > 0 {
            self.buffer.remove(self.offset - 1);
            self.offset = self.offset - 1;
        }
    }

    /// Moves the insertion offset one place left, clamped at the start of
    /// the buffer (the first editable column on screen).
    pub fn move_left(&mut self)
        requires
            old(self).wf(),
        ensures
            final(self).wf(),
            moved_left(*old(self), *final(self)),
    {
        if self.offset > 0 {
            self.offset = self.offset - 1;
        }
    }

    /// Moves the insertion offset one place right, clamped at one past the
    /// last character of the buffer.
    pub fn move_right(&mut self)
        requires
            old(self).wf(),
        ensures
            final(self).wf(),
            moved_right(*old(self), *final(self)),
    {
        if self.offset < self.buffer.len() {
            self.offset = self.offset + 1;
        }
    }

    /// A submission is accepted exactly when the trimmed buffer keeps at
    /// least `minimum_chars` characters. Interior whitespace counts; only the
    /// surrounding whitespace is discounted.
    pub open spec fn submit_allowed(self) -> bool {
        trimmed(self.buffer@).len() >= self.minimum_chars
    }

    /// Tries to submit the answer: returns the trimmed buffer when its
    /// character count reaches `minimum_chars`, and nothing otherwise — the
    /// caller then keeps editing with the state unchanged.
    pub fn submit(&self) -> (r: Option<Vec<char>>)
        requires
            self.wf(),
        ensures
            r is Some <==> self.submit_allowed(),
            r is Some ==> r.unwrap()@ == trimmed(self.buffer@),
    {
        let n: usize = self.buffer.len();
        let mut a: usize = 0;
        while a < n && prompt_whitespace(self.buffer[a])
            invariant
                self.wf(),
                n == self.buffer@.len(),
                a <= n,
                forall|j: int| 0 <= j < a ==> is_prompt_whitespace(#[trigger] self.buffer@[j]),
            decreases n - a,
        {
            a = a + 1;
        }
        if a == n {
            proof {
                lemma_ws_prefix_is(self.buffer@, a as int);
                assert(trimmed(self.buffer@) =~= Seq::<char>::empty());
            }
            if self.minimum_chars == 0 {
                Some(Vec::new())
            } else {
                None
            }
        } else {
            let mut b: usize = n;
            while b > 0 && prompt_whitespace(self.buffer[b - 1])
                invariant
                    self.wf(),
                    n == self.buffer@.len(),
                    b <= n,
                    forall|j: int| b <= j < n ==> is_prompt_whitespace(#[trigger] self.buffer@[j]),
                decreases b,
            {
                b = b - 1;
            }
            proof {
                lemma_ws_prefix_is(self.buffer@, a as int);
                assert(b > a) by {
                    if b <= a {
                        assert(is_prompt_whitespace(self.buffer@[a as int]));
                    }
                }
                lemma_ws_suffix_is(self.buffer@, n - b);
            }
            let mut out: Vec<char> = Vec::new();
            let mut i: usize = a;
            while i < b
                invariant
                    self.wf(),
                    n == self.buffer@.len(),
                    a <= i <= b <= n,
                    out@ =~= self.buffer@.subrange(a as int, i as int),
                decreases b - i,
            {
                let c = self.buffer[i];
                out.push(c);
                i = i + 1;
            }
            proof {
                assert(out@ =~= trimmed(self.buffer@));
            }
            if out.len() >= self.minimum_chars as usize {
                Some(out)
            } else {
                None
            }
        }
    }

    /// Consumes one key press, mutating the state as [`input_key_step`]
    /// prescribes and reporting whether the prompt finished.
    pub fn handle_key(&mut self, key: Key, ctrl: bool) -> (out: InputOutcome)
        requires
            old(self).wf(),
        ensures
            final(self).wf(),
            input_key_step(*old(self), *final(self), key, ctrl, out),
    {
        match key {
            Key::Enter => {
                match self.submit() {
                    Some(ans) => InputOutcome::Confirmed(ans),
                    None => InputOutcome::Active,
                }
            },
            Key::Esc => InputOutcome::Cancelled,
            Key::Left => {
                self.move_left();
                InputOutcome::Active
            },
            Key::Right => {
                self.move_right();
                InputOutcome::Active
            },
            Key::Backspace | Key::Delete => {
                self.delete_char();
                InputOutcome::Active
            },
            Key::Char(c) => {
                if ctrl && c == 'c' {
                    InputOutcome::Cancelled
                } else {
                    if self.message_len + 1 + self.buffer.len() < COLUMN_LIMIT {
                        self.insert_char(c);
                    }
                    InputOutcome::Active
                }
            },
            _ => InputOutcome::Active,
        }
    }

    /// Consumes one decoded terminal event, as [`input_event_step`]
    /// prescribes.
    pub fn handle_event(&mut self, event: TermEvent) -> (out: InputOutcome)
        requires
            old(self).wf(),
        ensures
            final(self).wf(),
            input_event_step(*old(self), *final(self), event, out),
    {
        match event {
            TermEvent::Key { key, ctrl } => self.handle_key(key, ctrl),
            _ => InputOutcome::Cancelled,
        }
    }
}

/// What one consumed event left behind: editing goes on, the prompt finished
/// with the trimmed answer, or the prompt was dismissed with no answer.
#[derive(Debug, PartialEq, Eq)]
pub enum InputOutcome {
    Active,
    Confirmed(Vec<char>),
    Cancelled,
}

/// The decision table of the input widget: how one key press relates the
/// state before (`pre`) to the state after (`post`) and to the outcome.
///
/// - Enter submits when the trimmed buffer is long enough, else it is
///   ignored and editing continues.
/// - Escape, and a control-modified `c`, cancel.
/// - Left/Right move the insertion offset, clamped to the buffer.
/// - Backspace and Delete both erase left of the offset.
/// - Any other character key inserts, as long as the line still fits the
///   column space; every remaining key is ignored.
pub open spec fn input_key_step(
    pre: EditState,
    post: EditState,
    key: Key,
    ctrl: bool,
    out: InputOutcome,
) -> bool {
    match key {
        Key::Enter => if pre.submit_allowed() {
            &&& out matches InputOutcome::Confirmed(ans) && ans@ == trimmed(pre.buffer@)
            &&& post == pre
        } else {
            &&& out is Active
            &&& post == pre
        },
        Key::Esc => out is Cancelled && post == pre,
        Key::Left => out is Active && moved_left(pre, post),
        Key::Right => out is Active && moved_right(pre, post),
        Key::Backspace | Key::Delete => out is Active && deleted(pre, post),
        Key::Char(c) => if ctrl && c == 'c' {
            out is Cancelled && post == pre
        } else if pre.can_grow() {
            out is Active && inserted(pre, post, c)
        } else {
            out is Active && post == pre
        },
        _ => out is Active && post == pre,
    }
}

/// The decision table of the input widget at the event level: key presses go
/// through [`input_key_step`]; any other event — a resize, a focus change, or
/// an unreadable stream — cancels the prompt.
pub open spec fn input_event_step(
    pre: EditState,
    post: EditState,
    event: TermEvent,
    out: InputOutcome,
) -> bool {
    match event {
        TermEvent::Key { key, ctrl } => input_key_step(pre, post, key, ctrl, out),
        _ => out is Cancelled && post == pre,
    }
}

/// Transition relation of [`EditState::insert_char`].
pub open spec fn inserted(pre: EditState, post: EditState, c: char) -> bool {
    &&& post.buffer@ == pre.buffer@.insert(pre.offset as int, c)
    &&& post.offset == pre.offset + 1
    &&& post.message_len == pre.message_len
    &&& post.minimum_chars == pre.minimum_chars
}

/// Transition relation of [`EditState::delete_char`].
pub open spec fn deleted(pre: EditState, post: EditState) -> bool {
    if pre.offset == 0 {
        post == pre
    } else {
        &&& post.buffer@ == pre.buffer@.remove(pre.offset - 1)
        &&& post.offset == pre.offset - 1
        &&& post.message_len == pre.message_len
        &&& post.minimum_chars == pre.minimum_chars
    }
}

/// Transition relation of [`EditState::move_left`].
pub open spec fn moved_left(pre: EditState, post: EditState) -> bool {
    &&& post.buffer@ == pre.buffer@
    &&& post.offset == if pre.offset > 0 { (pre.offset - 1) as int } else { 0int }
    &&& post.message_len == pre.message_len
    &&& post.minimum_chars == pre.minimum_chars
}

/// Transition relation of [`EditState::move_right`].
pub open spec fn moved_right(pre: EditState, post: EditState) -> bool {
    &&& post.buffer@ == pre.buffer@
    &&& post.offset == if pre.offset < pre.buffer@.len() {
        pre.offset + 1
    } else {
        pre.offset as int
    }
    &&& post.message_len == pre.message_len
    &&& post.minimum_chars == pre.minimum_chars
}

/// The screen cursor column of a well-formed state never leaves the editable
/// region `[message_len + 1, message_len + 1 + buffer.len()]`. Together with
/// the transition relations above — all of which keep well-formedness — this
/// bounds the column after any sequence of moves and edits.
pub proof fn lemma_cursor_column_in_bounds(s: EditState)
    requires
        s.wf(),
    ensures
        s.message_len + 1 <= s.spec_screen_cursor_column(),
        s.spec_screen_cursor_column() <= s.message_len + 1 + s.buffer@.len(),
{
}

/// The two cursor moves keep the state well-formed and the buffer intact, so
/// after any sequence of `move_left` and `move_right` calls the screen
/// cursor column is still inside the editable region of the unchanged
/// buffer.
pub proof fn lemma_moves_keep_column_in_bounds(pre: EditState, post: EditState)
    requires
        pre.wf(),
        moved_left(pre, post) || moved_right(pre, post),
    ensures
        post.wf(),
        post.buffer@ == pre.buffer@,
        pre.message_len + 1 <= post.spec_screen_cursor_column(),
        post.spec_screen_cursor_column() <= pre.message_len + 1 + pre.buffer@.len(),
{
}

/// Inserting a character and then deleting at the same position restores the
/// original buffer content and insertion offset — and with them the derived
/// screen cursor column.
pub proof fn lemma_insert_delete_roundtrip(pre: EditState, mid: EditState, post: EditState, c: char)
    requires
        pre.wf(),
        inserted(pre, mid, c),
        deleted(mid, post),
    ensures
        post.buffer@ == pre.buffer@,
        post.offset == pre.offset,
        post.spec_screen_cursor_column() == pre.spec_screen_cursor_column(),
{
    assert(mid.buffer@.remove(pre.offset as int) =~= pre.buffer@);
}

} // verus!
