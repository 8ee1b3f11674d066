//! Classification of engine output lines.
//!
//! Each line the engine emits is one of a handful of shapes: the
//! startup banner, the ready acknowledgment that closes a
//! synchronization round-trip, the terminal line that ends a search
//! and carries the chosen move, a progress report, or free-form
//! informational text.  Lines are consumed destructively, so a session
//! must recognize the terminal line of each exchange exactly; the spec
//! functions here are what the session's contracts are stated over.

use vstd::prelude::*;

use crate::text::contains_seq;
use crate::text::contains_str;
use crate::text::has_prefix;
use crate::text::last_token_or_empty;
use crate::text::last_token;
use crate::text::starts_with_str;
use crate::text::token_at_or_empty;
use crate::text::token_or_empty;
use crate::text::trim_str;
use crate::text::trimmed;

verus! {

/// Whether two texts hold the same characters.
pub fn str_eq(a: &str, b: &str) -> (r: bool)
    ensures
        r == (a@ == b@),
{
    let an: usize = a.unicode_len();
    let bn: usize = b.unicode_len();
    if an != bn {
        return false;
    }
    let r = starts_with_str(a, b);
    proof {
        if has_prefix(a@, b@) {
            assert(a@.subrange(0, b@.len() as int) =~= a@);
        }
        if a@ == b@ {
            assert(a@.subrange(0, b@.len() as int) =~= b@);
        }
    }
    r
}

/// The ready acknowledgment: the line, shorn of surrounding
/// whitespace, is exactly the sentinel that ends a synchronization
/// round-trip.
pub open spec fn is_ready_line(l: Seq<char>) -> bool {
    trimmed(l) == "readyok"@
}

/// Whether the line is the ready acknowledgment.
pub fn is_ready_ack(line: &str) -> (r: bool)
    ensures
        r == is_ready_line(line@),
{
    let t = trim_str(line);
    str_eq(t, "readyok")
}

/// The terminal line of a search: it opens with the move marker.
pub open spec fn is_bestmove_line(l: Seq<char>) -> bool {
    has_prefix(l, "bestmove"@)
}

/// The move a terminal line carries: its second token, or nothing
/// where the line has fewer than two tokens.
pub open spec fn bestmove_of(l: Seq<char>) -> Seq<char> {
    token_or_empty(l, 1)
}

/// If the line is the terminal line of a search, the move it carries.
pub fn match_bestmove(line: &str) -> (r: Option<String>)
    ensures
        match r {
            Some(m) => is_bestmove_line(line@) && m@ == bestmove_of(line@),
            None => !is_bestmove_line(line@),
        },
{
    if starts_with_str(line, "bestmove") {
        Some(token_at_or_empty(line, 1))
    } else {
        None
    }
}

/// The startup banner is acceptable: it names the expected engine.
pub open spec fn banner_ok(l: Seq<char>) -> bool {
    contains_seq(l, "Stockfish"@)
}

/// Whether the first line the subprocess emitted identifies it as the
/// expected engine.
pub fn banner_accepted(line: &str) -> (r: bool)
    ensures
        r == banner_ok(line@),
{
    contains_str(line, "Stockfish")
}

/// A search progress report: the line speaks of a search depth.
pub open spec fn is_depth_line(l: Seq<char>) -> bool {
    contains_seq(l, "depth"@)
}

/// A progress report that names the move currently being examined.
pub open spec fn is_currmove_line(l: Seq<char>) -> bool {
    contains_seq(l, "currmove"@)
}

/// The move a progress report carries: the last token of a plain depth
/// report, or the fifth token of one that names the move under
/// examination.
pub open spec fn current_move_of(l: Seq<char>) -> Seq<char> {
    if is_currmove_line(l) {
        token_or_empty(l, 4)
    } else {
        last_token_or_empty(l)
    }
}

/// If the line is a progress report, the move it carries.
pub fn match_current_move(line: &str) -> (r: Option<String>)
    ensures
        match r {
            Some(m) => is_depth_line(line@) && m@ == current_move_of(line@),
            None => !is_depth_line(line@),
        },
{
    if contains_str(line, "depth") {
        if contains_str(line, "currmove") {
            Some(token_at_or_empty(line, 4))
        } else {
            Some(last_token(line))
        }
    } else {
        None
    }
}

/// The side-channel response that tells an option apart from an
/// unknown one: an empty response, or free-form informational text,
/// means the engine accepted it.
pub open spec fn option_accepted(response: Seq<char>) -> bool {
    response.len() == 0 || has_prefix(response, "info string"@)
}

/// Whether the text collected by the synchronization round-trip after
/// an option command means the option was accepted.
pub fn option_response_accepted(response: &str) -> (r: bool)
    ensures
        r == option_accepted(response@),
{
    if response.is_empty() {
        true
    } else {
        starts_with_str(response, "info string")
    }
}

/// The position of the first ready acknowledgment at or after `from`,
/// or the length of `lines` where there is none.
pub open spec fn ack_at(lines: Seq<Seq<char>>, from: int) -> int
    decreases lines.len() - from,
    when 0 <= from
{
    if from >= lines.len() {
        lines.len() as int
    } else if is_ready_line(lines[from]) {
        from
    } else {
        ack_at(lines, from + 1)
    }
}

/// Where the scan for the ready acknowledgment stops: at the first
/// sentinel at or after `from`, never earlier and never later.
pub proof fn lemma_ack_at(lines: Seq<Seq<char>>, from: int)
    requires
        0 <= from <= lines.len(),
    ensures
        from <= ack_at(lines, from) <= lines.len(),
        ack_at(lines, from) < lines.len() ==> is_ready_line(lines[ack_at(lines, from)]),
        forall|k: int| from <= k < ack_at(lines, from) ==> !is_ready_line(lines[k]),
    decreases lines.len() - from,
{
    if from < lines.len() && !is_ready_line(lines[from]) {
        lemma_ack_at(lines, from + 1);
    }
}

/// The position of the first terminal move line at or after `from`,
/// or the length of `lines` where there is none.
pub open spec fn terminal_at(lines: Seq<Seq<char>>, from: int) -> int
    decreases lines.len() - from,
    when 0 <= from
{
    if from >= lines.len() {
        lines.len() as int
    } else if is_bestmove_line(lines[from]) {
        from
    } else {
        terminal_at(lines, from + 1)
    }
}

/// Where the scan for the terminal move line stops: at the first such
/// line at or after `from`, never earlier and never later.
pub proof fn lemma_terminal_at(lines: Seq<Seq<char>>, from: int)
    requires
        0 <= from <= lines.len(),
    ensures
        from <= terminal_at(lines, from) <= lines.len(),
        terminal_at(lines, from) < lines.len() ==> is_bestmove_line(
            lines[terminal_at(lines, from)],
        ),
        forall|k: int| from <= k < terminal_at(lines, from) ==> !is_bestmove_line(lines[k]),
    decreases lines.len() - from,
{
    if from < lines.len() && !is_bestmove_line(lines[from]) {
        lemma_terminal_at(lines, from + 1);
    }
}

/// The position of the first progress report at or after `from`, or
/// the length of `lines` where there is none.
pub open spec fn report_at(lines: Seq<Seq<char>>, from: int) -> int
    decreases lines.len() - from,
    when 0 <= from
{
    if from >= lines.len() {
        lines.len() as int
    } else if is_depth_line(lines[from]) {
        from
    } else {
        report_at(lines, from + 1)
    }
}

/// Where the scan for a progress report stops: at the first such line
/// at or after `from`, never earlier and never later.
pub proof fn lemma_report_at(lines: Seq<Seq<char>>, from: int)
    requires
        0 <= from <= lines.len(),
    ensures
        from <= report_at(lines, from) <= lines.len(),
        report_at(lines, from) < lines.len() ==> is_depth_line(lines[report_at(lines, from)]),
        forall|k: int| from <= k < report_at(lines, from) ==> !is_depth_line(lines[k]),
    decreases lines.len() - from,
{
    if from < lines.len() && !is_depth_line(lines[from]) {
        lemma_report_at(lines, from + 1);
    }
}

/// The lines of the segment `[from, to)` as the round-trip collects
/// them: each shorn of surrounding whitespace.
pub open spec fn collected_lines(lines: Seq<Seq<char>>, from: int, to: int) -> Seq<Seq<char>> {
    Seq::new((to - from) as nat, |k: int| trimmed(lines[from + k]))
}

} // verus!
