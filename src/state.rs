//! The pager's state and the events that change it.
use vstd::prelude::*;

use crate::line_numbers::LineNumbers;
use crate::pager::{ExitStrategy, Pager};
use crate::search::{
    compile_matcher, first_at_or_after, match_flags, pattern_compiles, positions_of, prev_cursor, search_index, strictly_ascending,
    Matcher, SearchMode,
};
use crate::text::push_str;
use crate::render::{decimal, law_number_padding, padded};
use crate::search::law_search_index_ascending;
use crate::wrap::{law_short_lines_one_to_one, lemma_wrap_empty, logical_lines, split_at_width, views, wrap_text};

verus! {

/// What the user or the terminal asks for.
pub enum InputEvent {
    /// Quit the pager.
    Exit,
    /// Clear the transient message and show the prompt again.
    RestorePrompt,
    /// Scroll so that this display line is the first one shown.
    UpdateUpperMark(usize),
    /// The terminal now has these columns and rows.
    UpdateTermArea(usize, usize),
    /// Switch line numbers to this mode.
    UpdateLineNumber(LineNumbers),
    /// Start a search in this direction.
    Search(SearchMode),
    /// Go to the next match.
    NextMatch,
    /// Go to the previous match.
    PrevMatch,
    /// Anything else: ignored.
    Ignore,
}

/// A request to change the pager's state.
pub enum Event {
    /// Replace the text.
    SetData(String),
    /// Append to the text.
    AppendData(String),
    /// Set the prompt.
    SetPrompt(String),
    /// Show a transient message in place of the prompt.
    SendMessage(String),
    /// Set the line-number mode.
    SetLineNumbers(LineNumbers),
    /// Set what quitting does.
    SetExitStrategy(ExitStrategy),
    /// Whether static output that fits on one screen skips the pager.
    SetRunNoOverflow(bool),
    /// An input from the user or the terminal.
    UserInput(InputEvent),
}

/// What the caller of [`handle_event`] must do after it.
#[derive(Clone, Copy, Debug, PartialEq, Eq, Structural)]
pub enum Command {
    /// Nothing more: go on with the next event.
    Continue,
    /// End the session with this strategy.
    Quit(ExitStrategy),
    /// Read a search query from the terminal, then hand it to
    /// [`PagerState::apply_search_query`].
    ReadQuery(SearchMode),
}

/// The text shown when a query is not a valid expression.
pub open spec fn invalid_regex_message() -> Seq<char> {
    "Invalid regular expression. Press Enter"@
}

/// The pager's whole state.
pub struct PagerState {
    /// The raw text.
    pub lines: String,
    /// The raw text wrapped at `cols`.
    pub formatted_lines: Vec<String>,
    /// The first display line shown.
    pub upper_mark: usize,
    /// Terminal rows.
    pub rows: usize,
    /// Terminal columns.
    pub cols: usize,
    /// Whether line numbers are shown.
    pub line_numbers: LineNumbers,
    /// The prompt shown at the bottom.
    pub prompt: String,
    /// A transient message shown in place of the prompt.
    pub message: Option<String>,
    /// What quitting does.
    pub exit_strategy: ExitStrategy,
    /// Whether static output that fits on one screen skips the pager.
    pub run_no_overflow: bool,
    /// The compiled search expression, if any.
    pub search_term: Option<Matcher>,
    /// The direction of the last search.
    pub search_mode: SearchMode,
    /// The display lines that match `search_term`, ascending.
    pub search_idx: Vec<usize>,
    /// The current match: a position in `search_idx`.
    pub search_mark: usize,
}

impl PagerState {
    /// The display lines are the raw text wrapped at `cols`, and the match
    /// index is sorted, free of duplicates and within the display lines.
    pub open spec fn wf(self) -> bool {
        &&& self.cols > 0
        &&& views(self.formatted_lines@) == wrap_text(self.lines@, self.cols as nat)
        &&& strictly_ascending(self.search_idx@)
        &&& forall|i: int| 0 <= i < self.search_idx@.len() ==> self.search_idx@[i] < self.formatted_lines@.len()
        &&& match self.search_term {
            Some(m) => positions_of(self.search_idx@, match_flags(m.source(), views(self.formatted_lines@))),
            None => self.search_idx@.len() == 0,
        }
    }

    /// The scroll position, terminal size and line-number mode are as in `o`.
    pub open spec fn same_view(self, o: PagerState) -> bool {
        &&& self.upper_mark == o.upper_mark
        &&& self.rows == o.rows
        &&& self.cols == o.cols
        &&& self.line_numbers == o.line_numbers
    }

    /// The prompt and the message are as in `o`.
    pub open spec fn same_bar(self, o: PagerState) -> bool {
        &&& self.prompt == o.prompt
        &&& self.message == o.message
    }

    /// The exit strategy and the no-overflow flag are as in `o`.
    pub open spec fn same_config(self, o: PagerState) -> bool {
        &&& self.exit_strategy == o.exit_strategy
        &&& self.run_no_overflow == o.run_no_overflow
    }

    /// The search expression, direction and cursor are as in `o`.
    pub open spec fn same_search(self, o: PagerState) -> bool {
        &&& self.search_term == o.search_term
        &&& self.search_mode == o.search_mode
        &&& self.search_mark == o.search_mark
    }

    /// Everything but the text, its wrapping and the match index is as in `o`.
    pub open spec fn same_settings(self, o: PagerState) -> bool {
        &&& self.same_view(o)
        &&& self.same_bar(o)
        &&& self.same_config(o)
        &&& self.same_search(o)
    }

    /// The text, its wrapping and the match index are as in `o`.
    pub open spec fn same_text(self, o: PagerState) -> bool {
        &&& self.lines == o.lines
        &&& self.formatted_lines == o.formatted_lines
        &&& self.search_idx == o.search_idx
    }

    /// An empty pager on an 80x24 terminal, with the prompt `"minus"`.
    pub fn new() -> (r: PagerState)
        ensures
            r.wf(),
            r.lines@.len() == 0,
            r.formatted_lines@.len() == 1,
            r.upper_mark == 0,
            r.cols == 80,
            r.rows == 24,
            r.line_numbers == LineNumbers::Disabled,
            r.prompt@ == "minus"@,
            r.message is None,
            r.exit_strategy == ExitStrategy::ProcessQuit,
            r.run_no_overflow,
            r.search_term is None,
            r.search_mode == SearchMode::Unknown,
            r.search_idx@.len() == 0,
            r.search_mark == 0,
    {
        let prompt = "minus".to_owned();
        let lines = String::new();
        let formatted_lines = split_at_width(lines.as_str(), 80);
        proof { lemma_wrap_empty(80); }
        PagerState {
            lines,
            formatted_lines,
            upper_mark: 0,
            rows: 24,
            cols: 80,
            line_numbers: LineNumbers::Disabled,
            prompt,
            message: None,
            exit_strategy: ExitStrategy::ProcessQuit,
            run_no_overflow: true,
            search_term: None,
            search_mode: SearchMode::Unknown,
            search_idx: Vec::new(),
            search_mark: 0,
        }
    }

    /// The text of the bottom bar: the message when there is one, else the
    /// prompt.
    pub fn bottom_text(&self) -> (r: String)
        ensures
            r@ == match self.message {
                Some(m) => m@,
                None => self.prompt@,
            },
    {
        match &self.message {
            Some(m) => m.clone(),
            None => self.prompt.clone(),
        }
    }

    /// The state of a session that starts from the host's pager: its text,
    /// wrapped at its width, its prompt, line-number mode, exit strategy,
    /// scroll position and terminal size; no message and no search.
    pub fn from_pager(pager: &Pager) -> (r: PagerState)
        requires
            pager.cols > 0,
        ensures
            r.wf(),
            r.lines@ == pager.unwraped_text@,
            r.upper_mark == pager.upper_mark,
            r.rows == pager.rows,
            r.cols == pager.cols,
            r.line_numbers == pager.line_numbers,
            r.prompt@ == pager.prompt@,
            r.message is None,
            r.exit_strategy == pager.exit_strategy,
            r.run_no_overflow,
            r.search_term is None,
            r.search_mode == SearchMode::Unknown,
            r.search_idx@.len() == 0,
            r.search_mark == 0,
    {
        let lines = pager.unwraped_text.clone();
        let formatted_lines = split_at_width(lines.as_str(), pager.cols);
        PagerState {
            lines,
            formatted_lines,
            upper_mark: pager.upper_mark,
            rows: pager.rows,
            cols: pager.cols,
            line_numbers: pager.line_numbers,
            prompt: pager.prompt.clone(),
            message: None,
            exit_strategy: pager.exit_strategy,
            run_no_overflow: true,
            search_term: None,
            search_mode: SearchMode::Unknown,
            search_idx: Vec::new(),
            search_mark: 0,
        }
    }

    /// The number of display lines.
    pub fn num_lines(&self) -> (r: usize)
        ensures
            r == self.formatted_lines@.len(),
    {
        self.formatted_lines.len()
    }

    /// Wraps the raw text again at `cols`, and indexes the matches of the
    /// search expression, if there is one, in the new display lines.
    pub fn format_lines(&mut self)
        requires
            old(self).cols > 0,
        ensures
            final(self).wf(),
            final(self).lines == old(self).lines,
            final(self).same_settings(*old(self)),
    {
        self.formatted_lines = split_at_width(self.lines.as_str(), self.cols);
        match &self.search_term {
            Some(re) => {
                self.search_idx = search_index(re, &self.formatted_lines);
            },
            None => {
                self.search_idx = Vec::new();
            },
        }
    }

    /// Moves the match cursor forward to the first match at or below the
    /// upper mark, and scrolls to that match; without one the view stays.
    pub fn next_match(&mut self)
        ensures
            final(self).search_mark == first_at_or_after(
                old(self).search_idx@,
                old(self).search_mark as nat,
                old(self).upper_mark as nat,
            ),
            final(self).search_mark < final(self).search_idx@.len() ==> final(self).upper_mark
                == final(self).search_idx@[final(self).search_mark as int],
            final(self).search_mark >= final(self).search_idx@.len() ==> final(self).upper_mark
                == old(self).upper_mark,
            final(self).same_text(*old(self)),
            final(self).rows == old(self).rows,
            final(self).cols == old(self).cols,
            final(self).line_numbers == old(self).line_numbers,
            final(self).prompt == old(self).prompt,
            final(self).message == old(self).message,
            final(self).exit_strategy == old(self).exit_strategy,
            final(self).run_no_overflow == old(self).run_no_overflow,
            final(self).search_term == old(self).search_term,
            final(self).search_mode == old(self).search_mode,
    {
        let mut m = self.search_mark;
        let n = self.search_idx.len();
        while m < n && self.search_idx[m] < self.upper_mark
            invariant
                n == self.search_idx@.len(),
                self.search_idx == old(self).search_idx,
                self.upper_mark == old(self).upper_mark,
                first_at_or_after(self.search_idx@, m as nat, self.upper_mark as nat)
                    == first_at_or_after(old(self).search_idx@, old(self).search_mark as nat, old(self).upper_mark as nat),
            decreases n - m,
        {
            m += 1;
        }
        if m > n {
            m = n;
        }
        assert(first_at_or_after(self.search_idx@, m as nat, self.upper_mark as nat) == m);
        self.search_mark = m;
        if m < n {
            self.upper_mark = self.search_idx[m];
        }
    }

    /// Runs a search for `query`: an empty query changes nothing; a query
    /// that compiles becomes the search expression, the matches are indexed
    /// and the view moves to the first match at or below the upper mark; one
    /// that does not compile clears the expression and shows a message.
    pub fn apply_search_query(&mut self, query: &str)
        requires
            old(self).wf(),
        ensures
            final(self).wf(),
            query@.len() == 0 ==> *final(self) == *old(self),
            query@.len() > 0 ==> {
                &&& final(self).lines == old(self).lines
                &&& final(self).formatted_lines == old(self).formatted_lines
                &&& final(self).rows == old(self).rows
                &&& final(self).cols == old(self).cols
                &&& final(self).prompt == old(self).prompt
                &&& final(self).line_numbers == old(self).line_numbers
                &&& final(self).same_config(*old(self))
                &&& final(self).search_mode == old(self).search_mode
            },
            query@.len() > 0 && !pattern_compiles(query@) ==> {
                &&& final(self).search_term == old(self).search_term
                &&& final(self).search_idx == old(self).search_idx
                &&& final(self).search_mark == old(self).search_mark
                &&& final(self).upper_mark == old(self).upper_mark
                &&& final(self).message is Some
                &&& final(self).message->Some_0@ == invalid_regex_message()
            },
            query@.len() > 0 && pattern_compiles(query@) ==> {
                &&& final(self).search_term is Some
                &&& final(self).search_term->Some_0.source() == query@
                &&& positions_of(
                    final(self).search_idx@,
                    match_flags(query@, views(final(self).formatted_lines@)),
                )
                &&& final(self).message == old(self).message
                &&& final(self).search_mark == first_at_or_after(
                    final(self).search_idx@,
                    0,
                    old(self).upper_mark as nat,
                )
                &&& final(self).search_mark < final(self).search_idx@.len() ==> final(self).upper_mark
                    == final(self).search_idx@[final(self).search_mark as int]
                &&& final(self).search_mark >= final(self).search_idx@.len() ==> final(self).upper_mark
                    == old(self).upper_mark
            },
    {
        if query.is_empty() {
            return;
        }
        let compiled = compile_matcher(query);
        self.apply_compiled(compiled);
    }

    /// Takes the outcome of compiling a query. A compiled expression becomes
    /// the search expression: the matches are indexed and the view moves to
    /// the first match at or below the upper mark. A compile error only shows
    /// a message: the earlier search stays as it was.
    pub fn apply_compiled(&mut self, compiled: Result<Matcher, regex::Error>)
        requires
            old(self).wf(),
        ensures
            final(self).wf(),
            final(self).lines == old(self).lines,
            final(self).formatted_lines == old(self).formatted_lines,
            final(self).rows == old(self).rows,
            final(self).cols == old(self).cols,
            final(self).prompt == old(self).prompt,
            final(self).line_numbers == old(self).line_numbers,
            final(self).same_config(*old(self)),
            final(self).search_mode == old(self).search_mode,
            compiled is Ok ==> {
                &&& final(self).search_term == Some(compiled->Ok_0)
                &&& final(self).message == old(self).message
                &&& positions_of(
                    final(self).search_idx@,
                    match_flags(compiled->Ok_0.source(), views(final(self).formatted_lines@)),
                )
                &&& final(self).search_mark == first_at_or_after(
                    final(self).search_idx@,
                    0,
                    old(self).upper_mark as nat,
                )
                &&& final(self).search_mark < final(self).search_idx@.len() ==> final(self).upper_mark
                    == final(self).search_idx@[final(self).search_mark as int]
                &&& final(self).search_mark >= final(self).search_idx@.len() ==> final(self).upper_mark
                    == old(self).upper_mark
            },
            compiled is Err ==> {
                &&& final(self).search_term == old(self).search_term
                &&& final(self).search_idx == old(self).search_idx
                &&& final(self).search_mark == old(self).search_mark
                &&& final(self).message is Some
                &&& final(self).message->Some_0@ == invalid_regex_message()
                &&& final(self).upper_mark == old(self).upper_mark
            },
    {
        match compiled {
            Ok(re) => {
                let idx = search_index(&re, &self.formatted_lines);
                self.search_idx = idx;
                self.search_term = Some(re);
                self.search_mark = 0;
                self.next_match();
            },
            Err(_) => {
                self.message = Some("Invalid regular expression. Press Enter".to_owned());
            },
        }
    }
}

/// In every well-formed state, which [`handle_event`] keeps, the match index
/// is strictly ascending and lists no display line twice.
pub proof fn law_state_index_ascending(p: PagerState)
    requires
        p.wf(),
    ensures
        forall|i: int, j: int| 0 <= i < j < p.search_idx@.len() ==> p.search_idx@[i] < p.search_idx@[j],
        forall|i: int, j: int|
            0 <= i < p.search_idx@.len() && 0 <= j < p.search_idx@.len() && i != j
                ==> p.search_idx@[i] != p.search_idx@[j],
{
    match p.search_term {
        Some(m) => law_search_index_ascending(
            p.search_idx@,
            match_flags(m.source(), views(p.formatted_lines@)),
        ),
        None => {},
    }
}

/// A well-formed state whose text has 110 logical lines, none wider than the
/// terminal, has 110 display lines, and every line number 1 to 110 is drawn
/// in exactly 3 characters.
pub proof fn law_state_numbers_padded(p: PagerState, n: nat)
    requires
        p.wf(),
        logical_lines(p.lines@).len() == 110,
        forall|i: int| 0 <= i < logical_lines(p.lines@).len() ==> #[trigger] logical_lines(p.lines@)[i].len() <= p.cols,
        1 <= n <= 110,
    ensures
        p.formatted_lines@.len() == 110,
        padded(n, decimal(p.formatted_lines@.len() as nat).len()).len() == 3,
{
    law_short_lines_one_to_one(p.lines@, p.cols as nat);
    assert(views(p.formatted_lines@).len() == p.formatted_lines@.len());
    law_number_padding(n, 110);
}

/// The cursor that `NextMatch` moves to before scrolling: one further, as
/// long as a further match exists and the last display line is not yet on
/// screen.
pub open spec fn next_cursor(p: PagerState) -> nat {
    if p.search_mark + 1 < p.search_idx@.len() && p.upper_mark + p.rows < p.formatted_lines@.len() {
        (p.search_mark + 1) as nat
    } else {
        p.search_mark as nat
    }
}

/// What one event does to the state; see [`handle_event`].
pub open spec fn event_effect(ev: Event, o: PagerState, p: PagerState, c: Command) -> bool {
    match ev {
        Event::SetData(t) => p.lines@ == t@ && p.same_settings(o) && c == Command::Continue,
        Event::AppendData(t) => p.lines@ == o.lines@ + t@ && p.same_settings(o) && c == Command::Continue,
        Event::SetPrompt(t) => {
            &&& p.prompt@ == t@
            &&& p.message == o.message
            &&& p.same_text(o) && p.same_view(o) && p.same_config(o) && p.same_search(o)
            &&& c == Command::Continue
        },
        Event::SendMessage(t) => {
            &&& p.message == Some(t)
            &&& p.prompt == o.prompt
            &&& p.same_text(o) && p.same_view(o) && p.same_config(o) && p.same_search(o)
            &&& c == Command::Continue
        },
        Event::SetLineNumbers(l) => {
            &&& p.line_numbers == l
            &&& p.lines == o.lines
            &&& p.upper_mark == o.upper_mark && p.rows == o.rows && p.cols == o.cols
            &&& p.same_bar(o) && p.same_config(o) && p.same_search(o)
            &&& c == Command::Continue
        },
        Event::SetExitStrategy(e) => {
            &&& p.exit_strategy == e
            &&& p.run_no_overflow == o.run_no_overflow
            &&& p.same_text(o) && p.same_view(o) && p.same_bar(o) && p.same_search(o)
            &&& c == Command::Continue
        },
        Event::SetRunNoOverflow(b) => {
            &&& p.run_no_overflow == b
            &&& p.exit_strategy == o.exit_strategy
            &&& p.same_text(o) && p.same_view(o) && p.same_bar(o) && p.same_search(o)
            &&& c == Command::Continue
        },
        Event::UserInput(InputEvent::Exit) => p == o && c == Command::Quit(o.exit_strategy),
        Event::UserInput(InputEvent::RestorePrompt) => {
            &&& p.message is None
            &&& p.prompt == o.prompt
            &&& p.same_text(o) && p.same_view(o) && p.same_config(o) && p.same_search(o)
            &&& c == Command::Continue
        },
        Event::UserInput(InputEvent::UpdateUpperMark(n)) => {
            &&& p.upper_mark == n
            &&& p.rows == o.rows && p.cols == o.cols && p.line_numbers == o.line_numbers
            &&& p.same_text(o) && p.same_bar(o) && p.same_config(o) && p.same_search(o)
            &&& c == Command::Continue
        },
        Event::UserInput(InputEvent::UpdateTermArea(cols, rows)) => {
            &&& c == Command::Continue
            &&& cols == 0 ==> p == o
            &&& cols > 0 ==> {
                &&& p.cols == cols && p.rows == rows
                &&& p.lines == o.lines
                &&& p.upper_mark == o.upper_mark && p.line_numbers == o.line_numbers
                &&& p.same_bar(o) && p.same_config(o) && p.same_search(o)
            }
        },
        Event::UserInput(InputEvent::UpdateLineNumber(l)) => {
            &&& p.line_numbers == l
            &&& p.lines == o.lines
            &&& p.upper_mark == o.upper_mark && p.rows == o.rows && p.cols == o.cols
            &&& p.same_bar(o) && p.same_config(o) && p.same_search(o)
            &&& c == Command::Continue
        },
        Event::UserInput(InputEvent::Search(m)) => {
            &&& p.search_mode == m
            &&& p.search_term == o.search_term && p.search_mark == o.search_mark
            &&& p.same_text(o) && p.same_view(o) && p.same_bar(o) && p.same_config(o)
            &&& c == Command::ReadQuery(m)
        },
        Event::UserInput(InputEvent::NextMatch) => {
            &&& c == Command::Continue
            &&& o.search_term is None ==> p == o
            &&& o.search_term is Some ==> {
                &&& p.search_mark == first_at_or_after(o.search_idx@, next_cursor(o), o.upper_mark as nat)
                &&& p.search_mark < p.search_idx@.len() ==> p.upper_mark == p.search_idx@[p.search_mark as int]
                &&& p.search_mark >= p.search_idx@.len() ==> p.upper_mark == o.upper_mark
                &&& p.rows == o.rows && p.cols == o.cols && p.line_numbers == o.line_numbers
                &&& p.search_term == o.search_term && p.search_mode == o.search_mode
                &&& p.same_text(o) && p.same_bar(o) && p.same_config(o)
            }
        },
        Event::UserInput(InputEvent::PrevMatch) => {
            &&& c == Command::Continue
            &&& (o.search_term is None || o.search_idx@.len() == 0) ==> p == o
            &&& (o.search_term is Some && o.search_idx@.len() > 0) ==> {
                let m = prev_cursor(o.search_mark as nat, o.search_idx@.len());
                let y = o.search_idx@[m as int];
                &&& p.search_mark == m
                &&& p.upper_mark == (if y < o.upper_mark { y } else { o.upper_mark })
                &&& p.rows == o.rows && p.cols == o.cols && p.line_numbers == o.line_numbers
                &&& p.search_term == o.search_term && p.search_mode == o.search_mode
                &&& p.same_text(o) && p.same_bar(o) && p.same_config(o)
            }
        },
        Event::UserInput(InputEvent::Ignore) => p == o && c == Command::Continue,
    }
}

/// Applies one event to the state and says what the caller must do next.
/// Changes of the text, the width or the line-number mode wrap the text
/// again and index the matches anew; quitting and reading a search query are
/// left to the caller. A resize to zero columns leaves the state as it is:
/// no text can be wrapped at that width.
pub fn handle_event(ev: Event, p: &mut PagerState) -> (c: Command)
    requires
        old(p).wf(),
    ensures
        final(p).wf(),
        event_effect(ev, *old(p), *final(p), c),
{
    match ev {
        Event::SetData(text) => {
            p.lines = text;
            p.format_lines();
        },
        Event::AppendData(text) => {
            push_str(&mut p.lines, text.as_str());
            p.format_lines();
        },
        Event::SetPrompt(prompt) => {
            p.prompt = prompt;
        },
        Event::SendMessage(message) => {
            p.message = Some(message);
        },
        Event::SetLineNumbers(l) => {
            p.line_numbers = l;
            p.format_lines();
        },
        Event::SetExitStrategy(e) => {
            p.exit_strategy = e;
        },
        Event::SetRunNoOverflow(b) => {
            p.run_no_overflow = b;
        },
        Event::UserInput(InputEvent::Exit) => {
            return Command::Quit(p.exit_strategy);
        },
        Event::UserInput(InputEvent::RestorePrompt) => {
            p.message = None;
        },
        Event::UserInput(InputEvent::UpdateUpperMark(n)) => {
            p.upper_mark = n;
        },
        Event::UserInput(InputEvent::UpdateTermArea(cols, rows)) => {
            if cols == 0 {
                return Command::Continue;
            }
            p.rows = rows;
            p.cols = cols;
            p.format_lines();
        },
        Event::UserInput(InputEvent::UpdateLineNumber(l)) => {
            p.line_numbers = l;
            p.format_lines();
        },
        Event::UserInput(InputEvent::Search(m)) => {
            p.search_mode = m;
            return Command::ReadQuery(m);
        },
        Event::UserInput(InputEvent::NextMatch) => {
            if p.search_term.is_some() {
                let n = p.formatted_lines.len();
                if p.search_mark < p.search_idx.len() && p.search_idx.len() - p.search_mark > 1
                    && p.upper_mark < n && p.rows < n - p.upper_mark {
                    p.search_mark = p.search_mark + 1;
                }
                p.next_match();
            }
        },
        Event::UserInput(InputEvent::PrevMatch) => {
            if p.search_term.is_some() && p.search_idx.len() > 0 {
                let len = p.search_idx.len();
                let m = if p.search_mark == 0 {
                    0
                } else if p.search_mark > len {
                    len - 1
                } else {
                    p.search_mark - 1
                };
                p.search_mark = m;
                let y = p.search_idx[m];
                if y < p.upper_mark {
                    p.upper_mark = y;
                }
            }
        },
        Event::UserInput(InputEvent::Ignore) => {},
    }
    Command::Continue
}

} // verus!
