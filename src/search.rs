//! Incremental search: compiling a query and indexing the display lines
//! that match it.
use vstd::prelude::*;

use crate::wrap::views;

verus! {

#[verifier::external_type_specification]
#[verifier::external_body]
pub struct ExRegex(regex::Regex);

#[verifier::external_type_specification]
#[verifier::external_body]
pub struct ExRegexError(regex::Error);

/// The direction of a search.
#[derive(Clone, Copy, Debug, PartialEq, Eq, Structural)]
pub enum SearchMode {
    Forward,
    Reverse,
    Unknown,
}

/// Whether `regex::Regex::new` accepts the pattern.
pub uninterp spec fn pattern_compiles(pattern: Seq<char>) -> bool;

/// Relies on regex::Regex::new: compiles a pattern, or reports why it is not
/// a valid expression (it returns an error rather than panicking); which of
/// the two depends on the pattern alone.
#[verifier::external_body]
pub(crate) fn compile_pattern(pattern: &str) -> (r: Result<regex::Regex, regex::Error>)
    ensures
        r is Ok <==> pattern_compiles(pattern@),
{
    regex::Regex::new(pattern)
}

/// Whether the expression compiled from `pattern` matches somewhere in `line`.
pub uninterp spec fn line_matches(pattern: Seq<char>, line: Seq<char>) -> bool;

/// A compiled search expression, with the pattern it was compiled from.
pub struct Matcher {
    re: regex::Regex,
    pattern: Ghost<Seq<char>>,
}

impl Matcher {
    /// The pattern this expression was compiled from.
    pub closed spec fn source(&self) -> Seq<char> {
        self.pattern@
    }
}

/// Compiles `pattern` into a matcher, or reports why it is not a valid
/// expression.
pub fn compile_matcher(pattern: &str) -> (r: Result<Matcher, regex::Error>)
    ensures
        r is Ok <==> pattern_compiles(pattern@),
        r is Ok ==> r->Ok_0.source() == pattern@,
{
    match compile_pattern(pattern) {
        Ok(re) => Ok(Matcher { re, pattern: Ghost(pattern@) }),
        Err(e) => Err(e),
    }
}

/// Relies on regex::Regex::is_match: whether the expression, which was
/// compiled from the matcher's pattern, matches somewhere in `line`; the
/// answer depends on the pattern and the line alone.
#[verifier::external_body]
fn matcher_is_match(m: &Matcher, line: &str) -> (r: bool)
    ensures
        r == line_matches(m.source(), line@),
{
    m.re.is_match(line)
}

/// For each line, whether the expression compiled from `pattern` matches it.
pub open spec fn match_flags(pattern: Seq<char>, lines: Seq<Seq<char>>) -> Seq<bool> {
    Seq::new(lines.len(), |i: int| line_matches(pattern, lines[i]))
}

/// Each entry is smaller than the next: the sequence is sorted and holds
/// no index twice.
pub open spec fn strictly_ascending(s: Seq<usize>) -> bool {
    forall|i: int, j: int| 0 <= i < j < s.len() ==> s[i] < s[j]
}

/// `idx` lists, in ascending order, exactly the positions of `flags` that
/// are true.
pub open spec fn positions_of(idx: Seq<usize>, flags: Seq<bool>) -> bool {
    &&& strictly_ascending(idx)
    &&& forall|i: int| 0 <= i < idx.len() ==> idx[i] < flags.len() && flags[idx[i] as int]
    &&& forall|k: int| 0 <= k < flags.len() && flags[k] ==> idx.contains(k as usize)
}

/// The positions of `flags` that are true, in ascending order.
pub fn match_positions(flags: &Vec<bool>) -> (r: Vec<usize>)
    ensures
        positions_of(r@, flags@),
{
    let mut r: Vec<usize> = Vec::new();
    let mut k: usize = 0;
    while k < flags.len()
        invariant
            k <= flags@.len(),
            strictly_ascending(r@),
            forall|i: int| 0 <= i < r@.len() ==> r@[i] < k && flags@[r@[i] as int],
            forall|j: int| 0 <= j < k && flags@[j] ==> r@.contains(j as usize),
        decreases flags@.len() - k,
    {
        if flags[k] {
            let ghost before = r@;
            r.push(k);
            assert forall|j: int| 0 <= j < k + 1 && flags@[j] implies r@.contains(j as usize) by {
                if j < k {
                    let w = choose|w: int| 0 <= w < before.len() && before[w] == j as usize;
                    assert(r@[w] == j as usize);
                } else {
                    assert(r@[r@.len() - 1] == j as usize);
                }
            }
        }
        k += 1;
    }
    r
}

/// The positions of the display lines that the matcher's expression
/// matches, in ascending order.
pub fn search_index(m: &Matcher, lines: &Vec<String>) -> (r: Vec<usize>)
    ensures
        positions_of(r@, match_flags(m.source(), views(lines@))),
{
    let mut flags: Vec<bool> = Vec::new();
    let mut i: usize = 0;
    while i < lines.len()
        invariant
            i <= lines@.len(),
            flags@.len() == i,
            forall|k: int| 0 <= k < i ==> flags@[k] == line_matches(m.source(), lines@[k]@),
        decreases lines@.len() - i,
    {
        flags.push(matcher_is_match(m, lines[i].as_str()));
        i += 1;
    }
    assert(flags@ =~= match_flags(m.source(), views(lines@)));
    match_positions(&flags)
}

/// The first cursor at or after `from` whose match is at or below line
/// `upper_mark`; `idx.len()` when there is none.
pub open spec fn first_at_or_after(idx: Seq<usize>, from: nat, upper_mark: nat) -> nat
    decreases idx.len() - from,
{
    if from >= idx.len() {
        idx.len()
    } else if idx[from as int] >= upper_mark {
        from
    } else {
        first_at_or_after(idx, from + 1, upper_mark)
    }
}

/// The cursor that a step back from `mark` lands on, among `len > 0`
/// matches: one less, stopping at the first match, and the last match when
/// the cursor lies past the end.
pub open spec fn prev_cursor(mark: nat, len: nat) -> nat {
    if mark == 0 {
        0
    } else if mark > len {
        (len - 1) as nat
    } else {
        (mark - 1) as nat
    }
}

/// A match index is always sorted and free of duplicates, whatever the
/// expression engine reported for each line.
pub proof fn law_search_index_ascending(idx: Seq<usize>, flags: Seq<bool>)
    requires
        positions_of(idx, flags),
    ensures
        forall|i: int, j: int| 0 <= i < j < idx.len() ==> idx[i] < idx[j],
        forall|i: int, j: int| 0 <= i < idx.len() && 0 <= j < idx.len() && i != j ==> idx[i] != idx[j],
{
    assert forall|i: int, j: int| 0 <= i < idx.len() && 0 <= j < idx.len() && i != j implies idx[i] != idx[j] by {
        if i < j {
            assert(idx[i] < idx[j]);
        } else {
            assert(idx[j] < idx[i]);
        }
    }
}

} // verus!
