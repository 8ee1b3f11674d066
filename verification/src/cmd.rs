//! The outbound command vocabulary.
//!
//! Every command is one newline-terminated text line of the form
//! `<verb> <space-separated arguments>`.  Commands carry no
//! identifiers: the pairing of a command with its response rests
//! entirely on protocol ordering, so each line must be reproduced
//! exactly as the engine expects it.

use vstd::prelude::*;
use vstd::string::StringExecFns;

use crate::text::dec_str;
use crate::text::join_strings;
use crate::text::join_with;
use crate::text::trim_str;
use crate::text::trimmed;
use crate::text::u32_string;

verus! {

/// The command that replays the given moves from the initial position.
pub open spec fn startpos_line(moves: Seq<Seq<char>>) -> Seq<char> {
    "position startpos moves "@ + join_with(moves, " "@) + "\n"@
}

/// The command that loads the position the FEN text describes and then
/// replays the given moves from it.  An empty move list still carries
/// the `moves` keyword, followed by nothing.
pub open spec fn position_line(fen: Seq<char>, moves: Seq<Seq<char>>) -> Seq<char> {
    "position fen "@ + fen + " moves "@ + join_with(moves, " "@) + "\n"@
}

/// The command that sets the named option to the given value.
pub open spec fn setoption_line(name: Seq<char>, value: Seq<char>) -> Seq<char> {
    "setoption name "@ + name + " value "@ + value + "\n"@
}

/// The command that starts a search bounded by the given time budget,
/// in milliseconds.
pub open spec fn go_movetime_line(movetime: nat) -> Seq<char> {
    "go movetime "@ + dec_str(movetime) + "\n"@
}

/// The command that starts an unbounded search.
pub open spec fn go_infinite_line() -> Seq<char> {
    "go infinite\n"@
}

/// The command that interrupts an unbounded search.
pub open spec fn stop_line() -> Seq<char> {
    "stop\n"@
}

/// The synchronization command whose acknowledgment closes a
/// round-trip.
pub open spec fn isready_line() -> Seq<char> {
    "isready\n"@
}

/// A free-form command: the text shorn of surrounding whitespace, then
/// the line terminator.
pub open spec fn free_command_line(cmd: Seq<char>) -> Seq<char> {
    trimmed(cmd) + "\n"@
}

/// Builds the command that replays the moves from the initial
/// position.
pub fn build_startpos(moves: &Vec<String>) -> (r: String)
    ensures
        r@ == startpos_line(moves.deep_view()),
{
    let mut r = String::from_str("position startpos moves ");
    let joined = join_strings(moves, " ");
    r.append(joined.as_str());
    r.append("\n");
    r
}

/// Builds the command that loads a position from FEN text and replays
/// the moves from it.
pub fn build_position(fen: &str, moves: &Vec<String>) -> (r: String)
    ensures
        r@ == position_line(fen@, moves.deep_view()),
{
    let mut r = String::from_str("position fen ");
    r.append(fen);
    r.append(" moves ");
    let joined = join_strings(moves, " ");
    r.append(joined.as_str());
    r.append("\n");
    r
}

/// Builds the command that sets the named option to the given value.
pub fn build_setoption(name: &str, value: &str) -> (r: String)
    ensures
        r@ == setoption_line(name@, value@),
{
    let mut r = String::from_str("setoption name ");
    r.append(name);
    r.append(" value ");
    r.append(value);
    r.append("\n");
    r
}

/// Builds the command that starts a search bounded by the given time
/// budget, in milliseconds.
pub fn build_go_movetime(movetime: u32) -> (r: String)
    ensures
        r@ == go_movetime_line(movetime as nat),
{
    let mut r = String::from_str("go movetime ");
    let digits = u32_string(movetime);
    r.append(digits.as_str());
    r.append("\n");
    r
}

/// Builds the command that starts an unbounded search.
pub fn build_go_infinite() -> (r: String)
    ensures
        r@ == go_infinite_line(),
{
    String::from_str("go infinite\n")
}

/// Builds the command that interrupts an unbounded search.
pub fn build_stop() -> (r: String)
    ensures
        r@ == stop_line(),
{
    String::from_str("stop\n")
}

/// Builds the synchronization command.
pub fn build_isready() -> (r: String)
    ensures
        r@ == isready_line(),
{
    String::from_str("isready\n")
}

/// Builds a free-form command line from the given text.
pub fn build_free_command(cmd: &str) -> (r: String)
    ensures
        r@ == free_command_line(cmd@),
{
    let t = trim_str(cmd);
    let mut r = String::from_str(t);
    r.append("\n");
    r
}

} // verus!
