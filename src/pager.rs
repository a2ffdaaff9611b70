//! The pager's configuration and text, as a host application builds it.
use vstd::prelude::*;

use crate::line_numbers::LineNumbers;
use crate::text::{push_char, push_str};
use crate::wrap::{join_lines, split_at_width, views, wrap_text};

verus! {

/// What happens when the user quits the pager.
#[derive(Clone, Copy, Debug, PartialEq, Eq, Structural)]
pub enum ExitStrategy {
    /// End the whole process (the default).
    ProcessQuit,
    /// End the pager only, and return to the host application.
    PagerQuit,
}

/// The pager's configuration and text.
///
/// Before the pager runs, text is only collected in `unwraped_text`. Once it
/// runs, `lines` holds that text wrapped at `cols` columns, and every change
/// of the text wraps it again.
pub struct Pager {
    /// The display lines.
    pub lines: Vec<String>,
    /// Whether line numbers are shown.
    pub line_numbers: LineNumbers,
    /// The prompt shown at the bottom.
    pub prompt: String,
    /// Whether the pager is running.
    pub running: bool,
    /// All text given so far, as it was given.
    pub unwraped_text: String,
    /// What quitting does.
    pub exit_strategy: ExitStrategy,
    /// The first display line shown.
    pub upper_mark: usize,
    /// Terminal rows.
    pub rows: usize,
    /// Terminal columns.
    pub cols: usize,
}

impl Pager {
    /// The display lines are the raw text wrapped at the terminal width.
    pub open spec fn wrapped(self) -> bool {
        self.cols > 0 && views(self.lines@) == wrap_text(self.unwraped_text@, self.cols as nat)
    }

    /// A pager with no text, line numbers off, the prompt `"minus"`, the
    /// process-quit strategy, not running, on a 1x1 terminal.
    pub fn new() -> (r: Pager)
        ensures
            r.lines@.len() == 0,
            r.line_numbers == LineNumbers::Disabled,
            r.prompt@ == seq!['m', 'i', 'n', 'u', 's'],
            !r.running,
            r.unwraped_text@.len() == 0,
            r.exit_strategy == ExitStrategy::ProcessQuit,
            r.upper_mark == 0,
            r.rows == 1,
            r.cols == 1,
    {
        let prompt = "minus".to_owned();
        proof { reveal_strlit("minus"); }
        assert(prompt@ =~= seq!['m', 'i', 'n', 'u', 's']);
        Pager {
            lines: Vec::new(),
            line_numbers: LineNumbers::Disabled,
            prompt,
            running: false,
            unwraped_text: String::new(),
            exit_strategy: ExitStrategy::ProcessQuit,
            upper_mark: 0,
            rows: 1,
            cols: 1,
        }
    }

    /// Replaces the text; while running, wraps it again.
    pub fn set_text(&mut self, text: &str)
        requires
            old(self).running ==> old(self).cols > 0,
        ensures
            final(self).unwraped_text@ == text@,
            final(self).running ==> final(self).wrapped(),
            !final(self).running ==> final(self).lines == old(self).lines,
            final(self).running == old(self).running,
            final(self).cols == old(self).cols,
            final(self).rows == old(self).rows,
            final(self).upper_mark == old(self).upper_mark,
            final(self).prompt == old(self).prompt,
            final(self).line_numbers == old(self).line_numbers,
            final(self).exit_strategy == old(self).exit_strategy,
    {
        self.unwraped_text = text.to_owned();
        if self.running {
            self.lines = split_at_width(self.unwraped_text.as_str(), self.cols);
        }
    }

    /// Appends text; while running, wraps the whole text again.
    pub fn push_str(&mut self, text: &str)
        requires
            old(self).running ==> old(self).cols > 0,
        ensures
            final(self).unwraped_text@ == old(self).unwraped_text@ + text@,
            final(self).running ==> final(self).wrapped(),
            !final(self).running ==> final(self).lines == old(self).lines,
            final(self).running == old(self).running,
            final(self).cols == old(self).cols,
            final(self).rows == old(self).rows,
            final(self).upper_mark == old(self).upper_mark,
            final(self).prompt == old(self).prompt,
            final(self).line_numbers == old(self).line_numbers,
            final(self).exit_strategy == old(self).exit_strategy,
    {
        push_str(&mut self.unwraped_text, text);
        if self.running {
            self.lines = split_at_width(self.unwraped_text.as_str(), self.cols);
        }
    }

    /// Sets the line-number mode.
    pub fn set_line_numbers(&mut self, l: LineNumbers)
        ensures
            final(self).line_numbers == l,
            final(self).lines == old(self).lines,
            final(self).prompt == old(self).prompt,
            final(self).running == old(self).running,
            final(self).unwraped_text == old(self).unwraped_text,
            final(self).exit_strategy == old(self).exit_strategy,
            final(self).upper_mark == old(self).upper_mark,
            final(self).rows == old(self).rows,
            final(self).cols == old(self).cols,
    {
        self.line_numbers = l;
    }

    /// Sets the prompt.
    pub fn set_prompt(&mut self, t: &str)
        ensures
            final(self).prompt@ == t@,
            final(self).lines == old(self).lines,
            final(self).line_numbers == old(self).line_numbers,
            final(self).running == old(self).running,
            final(self).unwraped_text == old(self).unwraped_text,
            final(self).exit_strategy == old(self).exit_strategy,
            final(self).upper_mark == old(self).upper_mark,
            final(self).rows == old(self).rows,
            final(self).cols == old(self).cols,
    {
        self.prompt = t.to_owned();
    }

    /// Sets what quitting does.
    pub fn set_exit_strategy(&mut self, strategy: ExitStrategy)
        ensures
            final(self).exit_strategy == strategy,
            final(self).lines == old(self).lines,
            final(self).line_numbers == old(self).line_numbers,
            final(self).prompt == old(self).prompt,
            final(self).running == old(self).running,
            final(self).unwraped_text == old(self).unwraped_text,
            final(self).upper_mark == old(self).upper_mark,
            final(self).rows == old(self).rows,
            final(self).cols == old(self).cols,
    {
        self.exit_strategy = strategy;
    }

    /// The display lines joined with newlines.
    pub fn get_lines(&self) -> (r: String)
        ensures
            r@ == join_lines(views(self.lines@)),
    {
        let mut r = String::new();
        let mut i: usize = 0;
        while i < self.lines.len()
            invariant
                i <= self.lines@.len(),
                r@ == join_lines(views(self.lines@).take(i as int)),
            decreases self.lines@.len() - i,
        {
            let ghost ls = views(self.lines@);
            if i > 0 {
                push_char(&mut r, '\n');
            }
            push_str(&mut r, self.lines[i].as_str());
            assert(ls.take(i + 1).drop_last() =~= ls.take(i as int));
            assert(r@ =~= join_lines(ls.take(i + 1))) by {
                if i == 0 {
                    assert(ls.take(0) =~= Seq::<Seq<char>>::empty());
                }
            }
            i += 1;
        }
        assert(views(self.lines@).take(self.lines@.len() as int) =~= views(self.lines@));
        r
    }

    /// Starts the pager on a terminal of `cols` x `rows`: wraps the text
    /// collected so far.
    pub fn prepare(&mut self, cols: usize, rows: usize)
        requires
            !old(self).running,
            cols > 0,
        ensures
            final(self).running,
            final(self).cols == cols,
            final(self).rows == rows,
            final(self).wrapped(),
            final(self).unwraped_text == old(self).unwraped_text,
            final(self).prompt == old(self).prompt,
            final(self).line_numbers == old(self).line_numbers,
            final(self).exit_strategy == old(self).exit_strategy,
            final(self).upper_mark == old(self).upper_mark,
    {
        self.cols = cols;
        self.rows = rows;
        self.running = true;
        self.lines = split_at_width(self.unwraped_text.as_str(), self.cols);
    }

    /// Wraps the text again at the current width.
    pub fn readjust_wraps(&mut self)
        requires
            old(self).cols > 0,
        ensures
            final(self).wrapped(),
            final(self).unwraped_text == old(self).unwraped_text,
            final(self).running == old(self).running,
            final(self).cols == old(self).cols,
            final(self).rows == old(self).rows,
            final(self).upper_mark == old(self).upper_mark,
            final(self).prompt == old(self).prompt,
            final(self).line_numbers == old(self).line_numbers,
            final(self).exit_strategy == old(self).exit_strategy,
    {
        self.lines = split_at_width(self.unwraped_text.as_str(), self.cols);
    }
}

impl Default for Pager {
    fn default() -> (r: Pager)
        ensures
            r.lines@.len() == 0,
            r.line_numbers == LineNumbers::Disabled,
            r.prompt@ == seq!['m', 'i', 'n', 'u', 's'],
            !r.running,
            r.unwraped_text@.len() == 0,
            r.exit_strategy == ExitStrategy::ProcessQuit,
            r.upper_mark == 0,
            r.rows == 1,
            r.cols == 1,
    {
        Pager::new()
    }
}

} // verus!
