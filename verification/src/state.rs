//! The interactive state machine.
//!
//! One [`InteractionState`] owns everything the keyboard can change: the
//! focused region, the query buffer and its cursor, the result list and its
//! highlighted index, and the footer line. The surrounding render loop feeds
//! it one [`InputEvent`] per tick through [`InteractionState::on_event`] and
//! performs the [`Action`] handed back: fetching results or launching
//! playback, work the library does not do itself. The outcome of a fetch is
//! handed back through [`InteractionState::apply_search_success`] or
//! [`InteractionState::apply_search_failure`].
//!
//! The whole transition relation is the spec function [`step`]: every event
//! handler is proved to change the state exactly as `step` says.
//!
//! Policy choices, stated once and kept:
//! - a failed re-search keeps the previous results and only writes a failure
//!   note into the footer;
//! - re-entering the list region by cycling always resets the highlight to
//!   the top;
//! - replacing the buffer wholesale (after a submitted search) also resets
//!   the cursor, so the cursor never dangles past the buffer's end;
//! - submitting an empty query asks for the trending listing, the same
//!   request the client starts with.

use vstd::prelude::*;

use crate::backend::{OrangeResult, ResultView};
use crate::duration::{dec_text, push_dec};
use crate::text::{chars_to_string, push_str_chars, push_vec_chars};

verus! {

/// The character that jumps to the query region from anywhere.
pub const BEGIN_SEARCH_KEY: char = '/';

/// The character that quits, pressed outside the query region.
pub const QUIT_KEY: char = 'q';

/// Which of the three regions holds keyboard focus.
#[derive(Clone, Copy, Debug, PartialEq, Eq, Structural)]
pub enum Mode {
    /// The query line is focused; printable keys edit the buffer.
    InputMode,
    /// The result list is focused; up and down move the highlight.
    ListMode,
    /// The footer is focused; only region switching and quitting act.
    StatusMode,
}

/// One keyboard event, as the terminal reports it.
#[derive(Clone, Copy, Debug, PartialEq, Eq, Structural)]
pub enum InputEvent {
    /// A printable character.
    Char(char),
    /// Delete backward.
    Backspace,
    /// Cursor left.
    Left,
    /// Cursor right.
    Right,
    /// Move the highlight up.
    Up,
    /// Move the highlight down.
    Down,
    /// Enter: submit the query, or play the highlighted result.
    Confirm,
    /// Tab: focus the next region.
    RegionSwitch,
}

/// What the caller must do after a transition. The state machine never
/// performs outside work itself; it hands the request back to the loop.
#[derive(Clone, Copy, Debug, PartialEq, Eq, Structural)]
pub enum Action {
    /// Nothing to do.
    Idle,
    /// Fetch the trending listing (no query was given).
    FetchTrending,
    /// Fetch results for the current query buffer.
    FetchSearch,
    /// Launch playback of the highlighted result.
    Play,
    /// Leave the loop.
    Quit,
}

/// The mathematical image of an [`InteractionState`].
#[verifier::ext_equal]
pub struct StateModel {
    pub mode: Mode,
    pub query_buffer: Seq<char>,
    pub query_cursor: int,
    pub results: Seq<ResultView>,
    pub highlight: int,
    pub footer_message: Seq<char>,
}

/// The interactive state: focused region, query buffer and cursor, result
/// list and highlight, and the footer line.
///
/// The buffer is a vector of characters, so the cursor counts characters
/// and every cursor position is a character boundary by construction.
pub struct InteractionState {
    pub mode: Mode,
    pub query_buffer: Vec<char>,
    pub query_cursor: usize,
    pub results: Vec<OrangeResult>,
    pub highlight: usize,
    pub footer_message: String,
}

impl View for InteractionState {
    type V = StateModel;

    open spec fn view(&self) -> StateModel {
        StateModel {
            mode: self.mode,
            query_buffer: self.query_buffer@,
            query_cursor: self.query_cursor as int,
            results: self.results.deep_view(),
            highlight: self.highlight as int,
            footer_message: self.footer_message@,
        }
    }
}

/// The state invariant: the cursor lies within the buffer (both ends
/// included), and the highlight lies within the result list whenever the
/// list is non-empty, and rests at the top when it is empty.
pub open spec fn state_wf(s: StateModel) -> bool {
    &&& 0 <= s.query_cursor <= s.query_buffer.len()
    &&& 0 <= s.highlight
    &&& s.results.len() == 0 ==> s.highlight == 0
    &&& s.results.len() > 0 ==> s.highlight < s.results.len()
}

/// The region after one switch: query, list, footer, and around again.
pub open spec fn next_mode(m: Mode) -> Mode {
    match m {
        Mode::InputMode => Mode::ListMode,
        Mode::ListMode => Mode::StatusMode,
        Mode::StatusMode => Mode::InputMode,
    }
}

/// The footer after a submitted search: a record of the query issued.
pub open spec fn search_footer(query: Seq<char>) -> Seq<char> {
    "Search results for: "@ + query
}

/// The footer while a result plays: a record of its title.
pub open spec fn playing_footer(title: Seq<char>) -> Seq<char> {
    "Playing: "@ + title
}

/// The footer after a failed re-search.
pub open spec fn search_failed_text() -> Seq<char> {
    "Search failed, results unchanged"@
}

/// The footer after a playback launch that failed to start.
pub open spec fn play_failed_text() -> Seq<char> {
    "Failed to start playback"@
}

/// The standing help line the footer shows until an action writes a
/// message of its own.
pub open spec fn footer_help() -> Seq<char> {
    "Press / to search | Press q to quit"@
}

/// The title of the list region: the highlighted position (counted from
/// one) over the number of results.
pub open spec fn list_title_text(highlight: int, count: int) -> Seq<char> {
    "Videos ["@ + dec_text((highlight + 1) as nat) + "/"@ + dec_text(count as nat) + "]"@
}

/// The transition relation: the state and the requested action after one
/// keyboard event. Events with no meaning in the current region leave the
/// state unchanged and request nothing.
pub open spec fn step(s: StateModel, ev: InputEvent) -> (StateModel, Action) {
    match ev {
        InputEvent::Char(c) => {
            if c == BEGIN_SEARCH_KEY {
                (
                    StateModel { mode: Mode::InputMode, query_cursor: s.query_buffer.len() as int, ..s },
                    Action::Idle,
                )
            } else if s.mode is InputMode {
                (
                    StateModel {
                        query_buffer: s.query_buffer.insert(s.query_cursor, c),
                        query_cursor: s.query_cursor + 1,
                        ..s
                    },
                    Action::Idle,
                )
            } else if c == QUIT_KEY {
                (s, Action::Quit)
            } else {
                (s, Action::Idle)
            }
        },
        InputEvent::Backspace => {
            if s.mode is InputMode && s.query_cursor > 0 {
                (
                    StateModel {
                        query_buffer: s.query_buffer.remove(s.query_cursor - 1),
                        query_cursor: s.query_cursor - 1,
                        ..s
                    },
                    Action::Idle,
                )
            } else {
                (s, Action::Idle)
            }
        },
        InputEvent::Left => {
            if s.mode is InputMode && s.query_cursor > 0 {
                (StateModel { query_cursor: s.query_cursor - 1, ..s }, Action::Idle)
            } else {
                (s, Action::Idle)
            }
        },
        InputEvent::Right => {
            if s.mode is InputMode && s.query_cursor < s.query_buffer.len() {
                (StateModel { query_cursor: s.query_cursor + 1, ..s }, Action::Idle)
            } else {
                (s, Action::Idle)
            }
        },
        InputEvent::Up => {
            if s.mode is ListMode && s.results.len() > 0 && s.highlight > 0 {
                (StateModel { highlight: s.highlight - 1, ..s }, Action::Idle)
            } else {
                (s, Action::Idle)
            }
        },
        InputEvent::Down => {
            if s.mode is ListMode && s.results.len() > 0 && s.highlight < s.results.len() - 1 {
                (StateModel { highlight: s.highlight + 1, ..s }, Action::Idle)
            } else {
                (s, Action::Idle)
            }
        },
        InputEvent::Confirm => {
            match s.mode {
                Mode::InputMode => (
                    s,
                    if s.query_buffer.len() == 0 {
                        Action::FetchTrending
                    } else {
                        Action::FetchSearch
                    },
                ),
                Mode::ListMode => {
                    if s.results.len() > 0 {
                        (
                            StateModel {
                                footer_message: playing_footer(s.results[s.highlight].title),
                                ..s
                            },
                            Action::Play,
                        )
                    } else {
                        (s, Action::Idle)
                    }
                },
                Mode::StatusMode => (s, Action::Idle),
            }
        },
        InputEvent::RegionSwitch => {
            let m = next_mode(s.mode);
            (
                StateModel {
                    mode: m,
                    highlight: if m is ListMode {
                        0
                    } else {
                        s.highlight
                    },
                    ..s
                },
                Action::Idle,
            )
        },
    }
}

/// The state at startup, around the listing the first fetch produced: the
/// list region is focused, the buffer and the footer are empty.
pub open spec fn initial_model(rs: Seq<ResultView>) -> StateModel {
    StateModel {
        mode: Mode::ListMode,
        query_buffer: Seq::<char>::empty(),
        query_cursor: 0,
        results: rs,
        highlight: 0,
        footer_message: Seq::<char>::empty(),
    }
}

/// The state after a successful fetch for the submitted query: the results
/// are replaced wholesale, the highlight rests at the top, the list region
/// takes focus, the footer records the query, and the buffer is cleared
/// (with its cursor, so the cursor stays within the buffer).
pub open spec fn applied_model(s: StateModel, rs: Seq<ResultView>) -> StateModel {
    StateModel {
        mode: Mode::ListMode,
        query_buffer: Seq::<char>::empty(),
        query_cursor: 0,
        results: rs,
        highlight: 0,
        footer_message: search_footer(s.query_buffer),
    }
}

/// The state after a failed re-search: everything is kept, only the footer
/// reports the failure.
pub open spec fn failed_model(s: StateModel) -> StateModel {
    StateModel { footer_message: search_failed_text(), ..s }
}

/// The state after a playback launch that failed to start: everything is
/// kept, only the footer reports the failure.
pub open spec fn play_failed_model(s: StateModel) -> StateModel {
    StateModel { footer_message: play_failed_text(), ..s }
}

impl InteractionState {
    /// The state at startup, around the results of the first fetch.
    pub fn new(results: Vec<OrangeResult>) -> (s: Self)
        ensures
            s@ == initial_model(results.deep_view()),
            state_wf(s@),
    {
        let s = InteractionState {
            mode: Mode::ListMode,
            query_buffer: Vec::new(),
            query_cursor: 0,
            results,
            highlight: 0,
            footer_message: String::new(),
        };
        proof {
            assert(s@ =~= initial_model(s.results.deep_view()));
        }
        s
    }

    /// Applies one keyboard event, exactly as [`step`] describes, and hands
    /// back the action the caller must perform.
    pub fn on_event(&mut self, ev: InputEvent) -> (act: Action)
        requires
            state_wf(old(self)@),
        ensures
            final(self)@ == step(old(self)@, ev).0,
            act == step(old(self)@, ev).1,
            state_wf(final(self)@),
    {
        let act = match ev {
            InputEvent::Char(c) => {
                if c == BEGIN_SEARCH_KEY {
                    self.mode = Mode::InputMode;
                    self.query_cursor = self.query_buffer.len();
                    Action::Idle
                } else if self.mode == Mode::InputMode {
                    self.query_buffer.insert(self.query_cursor, c);
                    let grown: usize = self.query_buffer.len();
                    proof {
                        assert(self.query_cursor < grown);
                    }
                    self.query_cursor = self.query_cursor + 1;
                    Action::Idle
                } else if c == QUIT_KEY {
                    Action::Quit
                } else {
                    Action::Idle
                }
            },
            InputEvent::Backspace => {
                if self.mode == Mode::InputMode && self.query_cursor > 0 {
                    self.query_buffer.remove(self.query_cursor - 1);
                    self.query_cursor = self.query_cursor - 1;
                }
                Action::Idle
            },
            InputEvent::Left => {
                if self.mode == Mode::InputMode && self.query_cursor > 0 {
                    self.query_cursor = self.query_cursor - 1;
                }
                Action::Idle
            },
            InputEvent::Right => {
                if self.mode == Mode::InputMode && self.query_cursor < self.query_buffer.len() {
                    self.query_cursor = self.query_cursor + 1;
                }
                Action::Idle
            },
            InputEvent::Up => {
                if self.mode == Mode::ListMode && self.results.len() > 0 && self.highlight > 0 {
                    self.highlight = self.highlight - 1;
                }
                Action::Idle
            },
            InputEvent::Down => {
                let n: usize = self.results.len();
                if self.mode == Mode::ListMode && n > 0 && self.highlight < n - 1 {
                    self.highlight = self.highlight + 1;
                }
                Action::Idle
            },
            InputEvent::Confirm => {
                match self.mode {
                    Mode::InputMode => {
                        if self.query_buffer.len() == 0 {
                            Action::FetchTrending
                        } else {
                            Action::FetchSearch
                        }
                    },
                    Mode::ListMode => {
                        if self.results.len() > 0 {
                            let mut f: Vec<char> = Vec::new();
                            push_str_chars(&mut f, "Playing: ");
                            push_str_chars(&mut f, self.results[self.highlight].title.as_str());
                            self.footer_message = chars_to_string(&f);
                            Action::Play
                        } else {
                            Action::Idle
                        }
                    },
                    Mode::StatusMode => Action::Idle,
                }
            },
            InputEvent::RegionSwitch => {
                self.mode = match self.mode {
                    Mode::InputMode => Mode::ListMode,
                    Mode::ListMode => Mode::StatusMode,
                    Mode::StatusMode => Mode::InputMode,
                };
                if self.mode == Mode::ListMode {
                    self.highlight = 0;
                }
                Action::Idle
            },
        };
        proof {
            assert(self@ =~= step(old(self)@, ev).0);
        }
        act
    }

    /// Replaces the results after a successful fetch for the submitted
    /// query, as [`applied_model`] describes.
    pub fn apply_search_success(&mut self, results: Vec<OrangeResult>)
        ensures
            final(self)@ == applied_model(old(self)@, results.deep_view()),
            state_wf(final(self)@),
    {
        let mut f: Vec<char> = Vec::new();
        push_str_chars(&mut f, "Search results for: ");
        push_vec_chars(&mut f, &self.query_buffer);
        self.footer_message = chars_to_string(&f);
        self.results = results;
        self.highlight = 0;
        self.mode = Mode::ListMode;
        self.query_buffer = Vec::new();
        self.query_cursor = 0;
        proof {
            assert(self@ =~= applied_model(old(self)@, self.results.deep_view()));
        }
    }

    /// Records a failed re-search: the previous results are kept, and only
    /// the footer reports the failure, as [`failed_model`] describes.
    pub fn apply_search_failure(&mut self)
        requires
            state_wf(old(self)@),
        ensures
            final(self)@ == failed_model(old(self)@),
            state_wf(final(self)@),
    {
        let mut f: Vec<char> = Vec::new();
        push_str_chars(&mut f, "Search failed, results unchanged");
        self.footer_message = chars_to_string(&f);
        proof {
            assert(self@ =~= failed_model(old(self)@));
        }
    }

    /// Records a playback launch that failed to start. The launch itself is
    /// fire-and-forget, so the failure never stops the loop: it is surfaced
    /// in the footer and nothing else changes, as [`play_failed_model`]
    /// describes.
    pub fn apply_play_failure(&mut self)
        requires
            state_wf(old(self)@),
        ensures
            final(self)@ == play_failed_model(old(self)@),
            state_wf(final(self)@),
    {
        let mut f: Vec<char> = Vec::new();
        push_str_chars(&mut f, "Failed to start playback");
        self.footer_message = chars_to_string(&f);
        proof {
            assert(self@ =~= play_failed_model(old(self)@));
        }
    }

    /// The footer line as the status region displays it: the message of
    /// the last action, or the standing help line while none has been
    /// written.
    pub fn footer_display(&self) -> (r: String)
        ensures
            r@ == if self@.footer_message.len() == 0 {
                footer_help()
            } else {
                self@.footer_message
            },
    {
        if self.footer_message.as_str().is_empty() {
            let mut f: Vec<char> = Vec::new();
            push_str_chars(&mut f, "Press / to search | Press q to quit");
            chars_to_string(&f)
        } else {
            self.footer_message.clone()
        }
    }

    /// The title of the list region for a non-empty result list.
    pub fn list_title(&self) -> (r: String)
        requires
            state_wf(self@),
            self@.results.len() > 0,
        ensures
            r@ == list_title_text(self@.highlight, self@.results.len() as int),
    {
        let n: usize = self.results.len();
        let pos: usize = self.highlight + 1;
        let mut f: Vec<char> = Vec::new();
        push_str_chars(&mut f, "Videos [");
        push_dec(&mut f, pos as u64);
        push_str_chars(&mut f, "/");
        push_dec(&mut f, n as u64);
        push_str_chars(&mut f, "]");
        proof {
            assert(f@ =~= list_title_text(self@.highlight, self@.results.len() as int));
        }
        chars_to_string(&f)
    }

    /// The query line as the input region displays it: the buffer with the
    /// cursor marker inserted at the cursor.
    pub fn query_display(&self) -> (v: Vec<char>)
        requires
            state_wf(self@),
        ensures
            v@ == self@.query_buffer.insert(self@.query_cursor, '|'),
    {
        let mut v: Vec<char> = Vec::new();
        let mut i: usize = 0;
        while i < self.query_cursor
            invariant
                state_wf(self@),
                i <= self.query_cursor,
                v@ == self@.query_buffer.take(i as int),
            decreases self.query_cursor - i,
        {
            v.push(self.query_buffer[i]);
            proof {
                assert(self@.query_buffer.take(i as int).push(self@.query_buffer[i as int])
                    =~= self@.query_buffer.take(i as int + 1));
            }
            i += 1;
        }
        v.push('|');
        let mut j: usize = self.query_cursor;
        while j < self.query_buffer.len()
            invariant
                state_wf(self@),
                self.query_cursor <= j <= self@.query_buffer.len(),
                v@ == self@.query_buffer.take(self@.query_cursor).push('|') + self@.query_buffer.subrange(
                    self@.query_cursor,
                    j as int,
                ),
            decreases self@.query_buffer.len() - j,
        {
            v.push(self.query_buffer[j]);
            proof {
                assert(self@.query_buffer.subrange(self@.query_cursor, j as int).push(
                    self@.query_buffer[j as int],
                ) =~= self@.query_buffer.subrange(self@.query_cursor, j as int + 1));
            }
            j += 1;
        }
        proof {
            assert(v@ =~= self@.query_buffer.insert(self@.query_cursor, '|'));
        }
        v
    }
}

} // verus!
