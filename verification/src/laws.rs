//! Protocol laws: what holds of every exchange, proved once.
//!
//! The session's operations state, line by line, how far each exchange
//! consumes the output stream.  The proofs here draw the consequences
//! a caller relies on across exchanges: round-trips and searches stay
//! in step with one another, a well-formed terminal line yields the
//! engine's own move token, and a later position command wholly
//! replaces an earlier one.

use vstd::prelude::*;

use crate::cmd::position_line;
use crate::protocol::ack_at;
use crate::protocol::bestmove_of;
use crate::protocol::is_bestmove_line;
use crate::protocol::is_ready_line;
use crate::protocol::lemma_ack_at;
use crate::protocol::lemma_terminal_at;
use crate::protocol::terminal_at;
use crate::text::has_prefix;
use crate::text::is_space_char;
use crate::text::lemma_word_len_at;
use crate::text::token_or_empty;
use crate::text::tokens_of;

verus! {

/// A well-formed terminal line — the marker, one blank, the move, then
/// nothing or a blank-led tail — is recognized as the terminal line,
/// and the move extracted from it is exactly the engine's move token:
/// a search that ends on such a line returns that token and nothing
/// else.
pub proof fn lemma_terminal_move_exact(mv: Seq<char>, rest: Seq<char>)
    requires
        mv.len() > 0,
        forall|k: int| 0 <= k < mv.len() ==> !is_space_char(mv[k]),
        rest.len() > 0 ==> is_space_char(rest[0]),
    ensures
        is_bestmove_line("bestmove "@ + mv + rest),
        bestmove_of("bestmove "@ + mv + rest) == mv,
{
    reveal_strlit("bestmove ");
    reveal_strlit("bestmove");
    let l = "bestmove "@ + mv + rest;
    assert(l.subrange(0, 8) =~= "bestmove"@);
    assert(has_prefix(l, "bestmove"@));
    assert(forall|k: int| 0 <= k < 8 ==> !is_space_char(l[k]));
    assert(is_space_char(l[8]));
    lemma_word_len_at(l, 8);
    let tail = l.skip(8);
    assert(tokens_of(l) == seq![l.take(8)] + tokens_of(tail));
    assert(tail[0] == ' ');
    let body = tail.drop_first();
    assert(tokens_of(tail) == tokens_of(body));
    assert(body =~= mv + rest);
    assert(body[0] == mv[0]);
    assert(forall|k: int| 0 <= k < mv.len() ==> body[k] == mv[k]);
    assert(mv.len() < body.len() ==> is_space_char(body[mv.len() as int]));
    lemma_word_len_at(body, mv.len() as int);
    assert(tokens_of(body) == seq![body.take(mv.len() as int)] + tokens_of(
        body.skip(mv.len() as int),
    ));
    assert(body.take(mv.len() as int) =~= mv);
    assert(tokens_of(l)[1] == mv);
    assert(tokens_of(l).len() >= 2);
    assert(token_or_empty(l, 1) == mv);
}

/// Repeated synchronization round-trips stay in step: each consumes
/// the stream exactly through its own acknowledgment, the next begins
/// on the line after it, and no acknowledgment is skipped in between —
/// so a sequence of configuration commands never needs more reads than
/// it has round-trips, and never steals a later exchange's lines.
pub proof fn lemma_round_trips_consecutive(lines: Seq<Seq<char>>, from: int)
    requires
        0 <= from <= lines.len(),
        ack_at(lines, from) < lines.len(),
    ensures
        from <= ack_at(lines, from),
        is_ready_line(lines[ack_at(lines, from)]),
        forall|k: int| from <= k < ack_at(lines, from) ==> !is_ready_line(lines[k]),
        ack_at(lines, from) + 1 <= ack_at(lines, ack_at(lines, from) + 1) <= lines.len(),
{
    lemma_ack_at(lines, from);
    lemma_ack_at(lines, ack_at(lines, from) + 1);
}

/// Searches run in sequence take their answers in order: a search
/// consumes the stream exactly through the first terminal line after
/// its own command, and the terminal line the next search stops at
/// lies strictly beyond it.  Each caller's move therefore comes from
/// its own response segment, never another's.
pub proof fn lemma_searches_in_order(lines: Seq<Seq<char>>, from: int)
    requires
        0 <= from <= lines.len(),
        terminal_at(lines, from) < lines.len(),
    ensures
        from <= terminal_at(lines, from),
        is_bestmove_line(lines[terminal_at(lines, from)]),
        forall|k: int| from <= k < terminal_at(lines, from) ==> !is_bestmove_line(lines[k]),
        terminal_at(lines, from) < terminal_at(lines, terminal_at(lines, from) + 1),
        terminal_at(lines, terminal_at(lines, from) + 1) <= lines.len(),
{
    lemma_terminal_at(lines, from);
    lemma_terminal_at(lines, terminal_at(lines, from) + 1);
}

/// Setting a position twice writes two self-contained commands, in
/// order.  The later command embeds the whole later position and is a
/// function of that position alone, so it wholly replaces the earlier
/// one; nothing of the first position survives in what the engine is
/// last told.
pub proof fn lemma_set_position_overwrites(
    sent0: Seq<Seq<char>>,
    f1: Seq<char>,
    f2: Seq<char>,
)
    ensures
        ({
            let after = sent0.push(position_line(f1, Seq::empty())).push(
                position_line(f2, Seq::empty()),
            );
            &&& after.len() == sent0.len() + 2
            &&& after.last() == position_line(f2, Seq::empty())
            &&& after.subrange(0, sent0.len() as int) == sent0
        }),
{
    let after = sent0.push(position_line(f1, Seq::empty())).push(
        position_line(f2, Seq::empty()),
    );
    assert(after.subrange(0, sent0.len() as int) =~= sent0);
}

} // verus!
