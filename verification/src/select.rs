//! The paginated single-choice selection prompt.
//!
//! [`Select`] holds the immutable configuration of one prompt run: the
//! message, the ordered option labels, the configured page size, an optional
//! help message, the alternate (vim-style) navigation toggle, and optional
//! per-option image paths for an external preview collaborator.
//! [`SelectState`] is the live state of a run: the page window sliding over
//! the option list, the absolute selected index, and the 1-based on-screen
//! cursor row, tied together by the invariant
//! `selected == window_start + cursor_row - 1`.

use vstd::prelude::*;

use crate::events::Key;
use crate::events::TermEvent;

verus! {

/// The window length used when none is configured.
pub const DEFAULT_PAGE_SIZE: usize = 7;

/// Whether the alternate (vim-style) navigation keys start enabled.
pub const DEFAULT_VIM_MODE: bool = false;

/// The help line shown when none is configured.
pub const DEFAULT_HELP_MESSAGE: &'static str =
    "[Move with the arrows and click enter to select]";

/// Prompt configuration for a single-choice question.
#[derive(Debug)]
pub struct Select<'a> {
    pub options: Vec<&'a str>,
    pub images_path: Option<Vec<&'a str>>,
    pub message: &'a str,
    pub help_message: Option<&'a str>,
    pub page_size: usize,
    pub vim_mode: bool,
}

impl<'a> Select<'a> {
    /// Creates a [`Select`] with the provided message and options, along
    /// with default configuration values.
    pub fn new(message: &'a str, options: Vec<&'a str>) -> (r: Self)
        ensures
            r.options == options,
            r.images_path is None,
            r.message == message,
            r.help_message == Some(DEFAULT_HELP_MESSAGE),
            r.page_size == DEFAULT_PAGE_SIZE,
            r.vim_mode == DEFAULT_VIM_MODE,
    {
        Select {
            options,
            images_path: None,
            message,
            help_message: Some(DEFAULT_HELP_MESSAGE),
            page_size: DEFAULT_PAGE_SIZE,
            vim_mode: DEFAULT_VIM_MODE,
        }
    }

    /// Sets the help message of the prompt.
    pub fn with_help_message(self, message: &'a str) -> (r: Self)
        ensures
            r == (Select { help_message: Some(message), ..self }),
    {
        Select { help_message: Some(message), ..self }
    }

    /// Removes the set help message.
    pub fn without_help_message(self) -> (r: Self)
        ensures
            r == (Select { help_message: None, ..self }),
    {
        Select { help_message: None, ..self }
    }

    /// Sets the page size, the greatest number of options shown at once.
    pub fn with_page_size(self, page_size: usize) -> (r: Self)
        ensures
            r == (Select { page_size, ..self }),
    {
        Select { page_size, ..self }
    }

    /// Enables or disables the alternate (vim-style) navigation keys.
    pub fn with_vim_mode(self, vim_mode: bool) -> (r: Self)
        ensures
            r == (Select { vim_mode, ..self }),
    {
        Select { vim_mode, ..self }
    }

    /// Sets the images to show while selecting, one path per option.
    pub fn with_images(self, images_path: Vec<&'a str>) -> (r: Self)
        ensures
            r == (Select { images_path: Some(images_path), ..self }),
    {
        Select { images_path: Some(images_path), ..self }
    }

    /// Starts a selection session: the window at the head of the list, the
    /// highlight on its first row. The configured page size is clamped to
    /// the option count; an empty list or a zero page size is rejected here,
    /// at construction, rather than surfacing mid-run.
    pub fn begin(self) -> (s: SelectState<'a>)
        requires
            self.options@.len() >= 1,
            self.page_size >= 1,
        ensures
            s.wf(),
            s.options == self.options,
            s.page_size == if self.page_size <= self.options@.len() {
                self.page_size as int
            } else {
                self.options@.len() as int
            },
            s.window_start == 0,
            s.cursor_row == 1,
            s.selected == 0,
            s.vim_mode == self.vim_mode,
    {
        let n: usize = self.options.len();
        let page_size: usize = if self.page_size <= n {
            self.page_size
        } else {
            n
        };
        SelectState {
            options: self.options,
            page_size,
            window_start: 0,
            cursor_row: 1,
            selected: 0,
            vim_mode: self.vim_mode,
        }
    }
}

/// The live state of a selection run.
#[derive(Debug)]
pub struct SelectState<'a> {
    /// The full ordered option list.
    pub options: Vec<&'a str>,
    /// The effective window length `P`, fixed for the run.
    pub page_size: usize,
    /// The first option index currently visible; the window is
    /// `[window_start, window_start + page_size)`.
    pub window_start: usize,
    /// The 1-based row within the window carrying the highlight.
    pub cursor_row: usize,
    /// The absolute index of the highlighted option.
    pub selected: usize,
    /// Whether the alternate (vim-style) navigation keys are active.
    pub vim_mode: bool,
}

impl<'a> SelectState<'a> {
    /// Well-formedness: the window has length `page_size`, lies inside the
    /// option list, the cursor row lies inside the window, and the selected
    /// index is the option under the cursor row.
    pub open spec fn wf(self) -> bool {
        &&& 1 <= self.page_size <= self.options@.len()
        &&& self.window_start + self.page_size <= self.options@.len()
        &&& 1 <= self.cursor_row <= self.page_size
        &&& self.selected == self.window_start + self.cursor_row - 1
    }

    /// Moves the highlight one option up. On the top row with options above
    /// the window, the window slides up instead; at the very top of the
    /// list, nothing changes.
    pub fn option_up(&mut self)
        requires
            old(self).wf(),
        ensures
            final(self).wf(),
            moved_up(*old(self), *final(self)),
    {
        if self.cursor_row == 1 && self.window_start > 0 {
            self.window_start = self.window_start - 1;
            self.selected = self.selected - 1;
        } else if self.cursor_row > 1 {
            self.cursor_row = self.cursor_row - 1;
            self.selected = self.selected - 1;
        }
    }

    /// Moves the highlight one option down. On the bottom row, nothing
    /// changes. On the window's vertical midpoint with more options below
    /// the window, the window slides down and the row stays put — a
    /// look-ahead scroll that keeps upcoming options visible.
    pub fn option_down(&mut self)
        requires
            old(self).wf(),
        ensures
            final(self).wf(),
            moved_down(*old(self), *final(self)),
    {
        if self.cursor_row == self.page_size {
            return ;
        }
        let n: usize = self.options.len();
        let more_below = self.window_start + self.page_size < n;
        if self.cursor_row == self.page_size / 2 && more_below {
            self.window_start = self.window_start + 1;
            self.selected = self.selected + 1;
        } else {
            self.cursor_row = self.cursor_row + 1;
            self.selected = self.selected + 1;
        }
    }

    /// Returns the option under the highlight.
    pub fn confirm(&self) -> (r: &'a str)
        requires
            self.wf(),
        ensures
            r == self.options@[self.selected as int],
    {
        self.options[self.selected]
    }

    /// Consumes one key press, mutating the state as [`select_key_step`]
    /// prescribes and reporting whether the prompt finished.
    pub fn handle_key(&mut self, key: Key, ctrl: bool) -> (out: SelectOutcome<'a>)
        requires
            old(self).wf(),
        ensures
            final(self).wf(),
            select_key_step(*old(self), *final(self), key, ctrl, out),
    {
        match key {
            Key::Up => {
                self.option_up();
                SelectOutcome::Active
            },
            Key::Down => {
                self.option_down();
                SelectOutcome::Active
            },
            Key::Enter => SelectOutcome::Confirmed(self.confirm()),
            Key::Esc => SelectOutcome::Cancelled,
            Key::Char(c) => {
                if c == 'k' {
                    if self.vim_mode {
                        self.option_up();
                    }
                    SelectOutcome::Active
                } else if c == 'j' {
                    if self.vim_mode {
                        self.option_down();
                    }
                    SelectOutcome::Active
                } else if ctrl && c == 'c' {
                    SelectOutcome::Cancelled
                } else {
                    SelectOutcome::Active
                }
            },
            _ => SelectOutcome::Active,
        }
    }

    /// Consumes one decoded terminal event, as [`select_event_step`]
    /// prescribes.
    pub fn handle_event(&mut self, event: TermEvent) -> (out: SelectOutcome<'a>)
        requires
            old(self).wf(),
        ensures
            final(self).wf(),
            select_event_step(*old(self), *final(self), event, out),
    {
        match event {
            TermEvent::Key { key, ctrl } => self.handle_key(key, ctrl),
            TermEvent::Resize => SelectOutcome::Active,
            TermEvent::Focus => SelectOutcome::Active,
            TermEvent::Other => SelectOutcome::Cancelled,
        }
    }
}

/// What one consumed event left behind: selecting goes on, the prompt
/// finished on the highlighted option, or it was dismissed with no answer.
#[derive(Debug, PartialEq, Eq)]
pub enum SelectOutcome<'a> {
    Active,
    Confirmed(&'a str),
    Cancelled,
}

/// Transition relation of [`SelectState::option_up`].
pub open spec fn moved_up(pre: SelectState, post: SelectState) -> bool {
    if pre.cursor_row == 1 && pre.window_start > 0 {
        &&& post.window_start == pre.window_start - 1
        &&& post.cursor_row == 1
        &&& post.selected == pre.selected - 1
        &&& unchanged_config(pre, post)
    } else if pre.cursor_row == 1 {
        post == pre
    } else {
        &&& post.window_start == pre.window_start
        &&& post.cursor_row == pre.cursor_row - 1
        &&& post.selected == pre.selected - 1
        &&& unchanged_config(pre, post)
    }
}

/// Transition relation of [`SelectState::option_down`].
pub open spec fn moved_down(pre: SelectState, post: SelectState) -> bool {
    if pre.cursor_row == pre.page_size {
        post == pre
    } else if pre.cursor_row == pre.page_size / 2 && pre.window_start + pre.page_size
        < pre.options@.len() {
        &&& post.window_start == pre.window_start + 1
        &&& post.cursor_row == pre.cursor_row
        &&& post.selected == pre.selected + 1
        &&& unchanged_config(pre, post)
    } else {
        &&& post.window_start == pre.window_start
        &&& post.cursor_row == pre.cursor_row + 1
        &&& post.selected == pre.selected + 1
        &&& unchanged_config(pre, post)
    }
}

/// The parts of the state that navigation never touches.
pub open spec fn unchanged_config(pre: SelectState, post: SelectState) -> bool {
    &&& post.options == pre.options
    &&& post.page_size == pre.page_size
    &&& post.vim_mode == pre.vim_mode
}

/// The decision table of the selection widget: how one key press relates the
/// state before (`pre`) to the state after (`post`) and to the outcome.
///
/// - Up/Down navigate; `k`/`j` navigate too, but only in vim mode.
/// - Enter confirms the highlighted option.
/// - Escape, and a control-modified `c`, cancel.
/// - Every other key is ignored.
pub open spec fn select_key_step<'a>(
    pre: SelectState<'a>,
    post: SelectState<'a>,
    key: Key,
    ctrl: bool,
    out: SelectOutcome<'a>,
) -> bool {
    match key {
        Key::Up => out is Active && moved_up(pre, post),
        Key::Down => out is Active && moved_down(pre, post),
        Key::Enter => {
            &&& out matches SelectOutcome::Confirmed(o) && o == pre.options@[pre.selected as int]
            &&& post == pre
        },
        Key::Esc => out is Cancelled && post == pre,
        Key::Char(c) => if c == 'k' {
            out is Active && if pre.vim_mode {
                moved_up(pre, post)
            } else {
                post == pre
            }
        } else if c == 'j' {
            out is Active && if pre.vim_mode {
                moved_down(pre, post)
            } else {
                post == pre
            }
        } else if ctrl && c == 'c' {
            out is Cancelled && post == pre
        } else {
            out is Active && post == pre
        },
        _ => out is Active && post == pre,
    }
}

/// The decision table of the selection widget at the event level: key
/// presses go through [`select_key_step`]; resize and focus notifications
/// are absorbed (the embedding program may repaint); an unreadable stream
/// cancels the prompt.
pub open spec fn select_event_step<'a>(
    pre: SelectState<'a>,
    post: SelectState<'a>,
    event: TermEvent,
    out: SelectOutcome<'a>,
) -> bool {
    match event {
        TermEvent::Key { key, ctrl } => select_key_step(pre, post, key, ctrl, out),
        TermEvent::Resize => out is Active && post == pre,
        TermEvent::Focus => out is Active && post == pre,
        TermEvent::Other => out is Cancelled && post == pre,
    }
}

/// The pagination invariant in one line: in a well-formed state the
/// highlighted option is exactly the one under the cursor row. Every
/// navigation step keeps well-formedness, so this alignment holds after any
/// sequence of moves.
pub proof fn lemma_highlight_alignment(s: SelectState)
    requires
        s.wf(),
    ensures
        s.selected == s.window_start + s.cursor_row - 1,
        s.selected < s.options@.len(),
{
}

/// Every navigation step keeps the state well-formed and leaves the option
/// list and the window length alone, so the alignment of
/// [`lemma_highlight_alignment`] holds after any sequence of moves.
pub proof fn lemma_navigation_preserves_wf(pre: SelectState, post: SelectState)
    requires
        pre.wf(),
        moved_up(pre, post) || moved_down(pre, post),
    ensures
        post.wf(),
        post.options == pre.options,
        post.page_size == pre.page_size,
{
}

/// A window that spans the whole option list never slides: when the
/// effective page size equals the option count — as it does whenever the
/// configured page size is clamped down to the count — the window start is
/// pinned at zero, in every reachable state.
pub proof fn lemma_full_window_never_slides(s: SelectState)
    requires
        s.wf(),
        s.page_size == s.options@.len(),
    ensures
        s.window_start == 0,
{
}

} // verus!
