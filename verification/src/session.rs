//! The engine session: protocol vocabulary and serialized access.
//!
//! An `Engine` holds the session-local state — the time budget for
//! bounded searches and whether an unbounded search is outstanding —
//! and drives one exchange at a time over a transcript.  Exclusive
//! possession for the whole of each operation is what keeps the line
//! stream paired with the right command: the operations take the
//! session and the transcript by exclusive reference, so no two
//! exchanges can interleave their writes or reads.
//!
//! An unbounded search leaves the session in a state where stopping is
//! the only way to retrieve the move; starting another exchange first
//! would desynchronize the stream.  The operations therefore carry the
//! state as an explicit precondition rather than leaving the hazard to
//! the caller's discipline.

use vstd::prelude::*;
use vstd::string::StringExecFns;

use crate::cmd::build_free_command;
use crate::cmd::build_go_infinite;
use crate::cmd::build_go_movetime;
use crate::cmd::build_position;
use crate::cmd::build_setoption;
use crate::cmd::build_startpos;
use crate::cmd::build_stop;
use crate::cmd::free_command_line;
use crate::cmd::go_infinite_line;
use crate::cmd::go_movetime_line;
use crate::cmd::isready_line;
use crate::cmd::position_line;
use crate::cmd::setoption_line;
use crate::cmd::startpos_line;
use crate::cmd::stop_line;
use crate::error::EngineError;
use crate::error::EngineResult;
use crate::protocol::ack_at;
use crate::protocol::banner_accepted;
use crate::protocol::banner_ok;
use crate::protocol::bestmove_of;
use crate::protocol::collected_lines;
use crate::protocol::current_move_of;
use crate::protocol::lemma_terminal_at;
use crate::protocol::lemma_report_at;
use crate::protocol::match_bestmove;
use crate::protocol::match_current_move;
use crate::protocol::option_accepted;
use crate::protocol::option_response_accepted;
use crate::protocol::report_at;
use crate::protocol::terminal_at;
use crate::text::join_strings;
use crate::text::join_with;
use crate::transcript::Transcript;

verus! {

/// The time budget, in milliseconds, that a fresh session gives a
/// bounded search.
pub const DEFAULT_TIME: u32 = 100;

/// One engine session: the session-local search-time budget and
/// whether an unbounded search is outstanding.
pub struct Engine {
    movetime: u32,
    searching: bool,
}

/// The joined response of a synchronization round-trip: the collected
/// lines of the segment, laid end to end with line terminators.
pub open spec fn round_trip_response(lines: Seq<Seq<char>>, from: int, to: int) -> Seq<char> {
    join_with(collected_lines(lines, from, to), "\n"@)
}

impl Engine {
    /// The time budget, in milliseconds, of a bounded search.
    pub closed spec fn time_budget(&self) -> u32 {
        self.movetime
    }

    /// Whether an unbounded search is outstanding, so that stopping it
    /// is the only operation that will not desynchronize the stream.
    pub closed spec fn is_searching(&self) -> bool {
        self.searching
    }

    /// Builds a session from the first line the spawned subprocess
    /// emitted.  The line must identify the expected engine; otherwise
    /// no session is constructed and the error names the path the
    /// caller gave.  The banner is discarded after validation.
    pub fn new(path: &str, first_line: &str) -> (r: EngineResult<Engine>)
        ensures
            banner_ok(first_line@) ==> {
                &&& r matches Ok(e)
                &&& e.time_budget() == DEFAULT_TIME
                &&& !e.is_searching()
            },
            !banner_ok(first_line@) ==> {
                &&& r matches Err(EngineError::Message(m)) && m@
                    == "ERROR_STOCKFISH: Stockfish not found at "@ + path@
            },
    {
        if banner_accepted(first_line) {
            Ok(Engine { movetime: DEFAULT_TIME, searching: false })
        } else {
            let mut m = String::from_str("ERROR_STOCKFISH: Stockfish not found at ");
            m.append(path);
            Err(EngineError::Message(m))
        }
    }

    /// Changes the amount of time the engine spends looking for a
    /// move.
    pub fn movetime(self, new_movetime: u32) -> (r: Engine)
        ensures
            r.time_budget() == new_movetime,
            r.is_searching() == self.is_searching(),
    {
        Engine { movetime: new_movetime, ..self }
    }

    /// Asks the engine to play the given moves from the initial
    /// position on its internal board.
    pub fn make_moves(&self, t: &mut Transcript, moves: &Vec<String>) -> (r: EngineResult<()>)
        requires
            old(t).wf(),
            !self.is_searching(),
        ensures
            final(t).wf(),
            final(t).sent() == old(t).sent().push(startpos_line(moves.deep_view())),
            final(t).output() == old(t).output(),
            final(t).taken() == old(t).taken(),
            r is Ok,
    {
        let line = build_startpos(moves);
        t.write_line(line);
        Ok(())
    }

    /// Asks the engine to use the position the FEN text represents and
    /// then play the given moves from that position.  The FEN is not
    /// validated here: the command embeds it as given, and each such
    /// command carries the whole position, so a later one fully
    /// replaces an earlier one.
    pub fn make_moves_from_position(
        &self,
        t: &mut Transcript,
        fen: &str,
        moves: &Vec<String>,
    ) -> (r: EngineResult<()>)
        requires
            old(t).wf(),
            !self.is_searching(),
        ensures
            final(t).wf(),
            final(t).sent() == old(t).sent().push(position_line(fen@, moves.deep_view())),
            final(t).output() == old(t).output(),
            final(t).taken() == old(t).taken(),
            r is Ok,
    {
        let line = build_position(fen, moves);
        t.write_line(line);
        Ok(())
    }

    /// Asks the engine to use the position the FEN text represents,
    /// with no moves to replay.
    pub fn set_position(&self, t: &mut Transcript, fen: &str) -> (r: EngineResult<()>)
        requires
            old(t).wf(),
            !self.is_searching(),
        ensures
            final(t).wf(),
            final(t).sent() == old(t).sent().push(
                position_line(fen@, Seq::<Seq<char>>::empty()),
            ),
            final(t).output() == old(t).output(),
            final(t).taken() == old(t).taken(),
            r is Ok,
    {
        let moves: Vec<String> = Vec::new();
        proof {
            assert(moves.deep_view() =~= Seq::<Seq<char>>::empty());
        }
        self.make_moves_from_position(t, fen, &moves)
    }

    /// Consumes output lines until the terminal move line, discarding
    /// everything before it, and returns the move that line carries.
    /// Where the output ends first, the scan fails as the read does.
    fn scan_terminal(t: &mut Transcript) -> (r: EngineResult<String>)
        requires
            old(t).wf(),
        ensures
            final(t).wf(),
            final(t).sent() == old(t).sent(),
            final(t).output() == old(t).output(),
            terminal_at(old(t).output(), old(t).taken()) < old(t).output().len() ==> {
                &&& final(t).taken() == terminal_at(old(t).output(), old(t).taken()) + 1
                &&& r matches Ok(m) && m@ == bestmove_of(
                    old(t).output()[terminal_at(old(t).output(), old(t).taken())],
                )
            },
            terminal_at(old(t).output(), old(t).taken()) >= old(t).output().len() ==> {
                &&& final(t).taken() == old(t).output().len()
                &&& r matches Err(EngineError::Io(m)) && m@ == "unexpected end of stream"@
            },
    {
        let ghost lines = t.output();
        let ghost from = t.taken();
        proof {
            lemma_terminal_at(lines, from);
        }
        let found: String;
        loop
            invariant_except_break
                terminal_at(lines, from) == terminal_at(lines, t.taken()),
            invariant
                t.wf(),
                t.sent() == old(t).sent(),
                t.output() == lines,
                lines == old(t).output(),
                from == old(t).taken(),
                0 <= from <= t.taken() <= lines.len(),
            ensures
                t.wf(),
                t.sent() == old(t).sent(),
                t.output() == lines,
                terminal_at(lines, from) < lines.len(),
                t.taken() == terminal_at(lines, from) + 1,
                found@ == bestmove_of(lines[terminal_at(lines, from)]),
            decreases lines.len() - t.taken(),
        {
            let ghost cur = t.taken();
            let next = match t.read_line() {
                Ok(line) => line,
                Err(e) => {
                    proof {
                        lemma_terminal_at(lines, cur);
                        assert(terminal_at(lines, cur) == lines.len());
                    }
                    return Err(e);
                },
            };
            match match_bestmove(next.as_str()) {
                Some(m) => {
                    proof {
                        assert(terminal_at(lines, cur) == cur);
                    }
                    found = m;
                    break;
                },
                None => {
                    proof {
                        assert(terminal_at(lines, cur) == terminal_at(lines, cur + 1));
                    }
                },
            }
        }
        Ok(found)
    }

    /// Starts a search.  With `infinite` false, the search is bounded
    /// by the stored time budget and this call blocks on the output
    /// stream until the terminal move line arrives, returning the move
    /// it carries.  With `infinite` true, an unbounded search is
    /// started, confirmed by a synchronization round-trip whose
    /// collected lines are discarded, and the call returns at once
    /// with a fixed acknowledgment; the move is then retrieved by
    /// stopping the search, and nothing else may be asked of the
    /// session before that.
    pub fn bestmove(&mut self, t: &mut Transcript, infinite: bool) -> (r: EngineResult<String>)
        requires
            old(t).wf(),
            !old(self).is_searching(),
        ensures
            final(t).wf(),
            final(t).output() == old(t).output(),
            final(self).time_budget() == old(self).time_budget(),
            final(self).is_searching() == infinite,
            infinite ==> {
                &&& final(t).sent() == old(t).sent() + seq![go_infinite_line(), isready_line()]
                &&& ack_at(old(t).output(), old(t).taken()) < old(t).output().len() ==> {
                    &&& final(t).taken() == ack_at(old(t).output(), old(t).taken()) + 1
                    &&& r matches Ok(m) && m@ == "Started searching"@
                }
                &&& ack_at(old(t).output(), old(t).taken()) >= old(t).output().len() ==> {
                    &&& final(t).taken() == old(t).output().len()
                    &&& r matches Err(EngineError::Io(m)) && m@ == "unexpected end of stream"@
                }
            },
            !infinite ==> {
                &&& final(t).sent() == old(t).sent().push(
                    go_movetime_line(old(self).time_budget() as nat),
                )
                &&& terminal_at(old(t).output(), old(t).taken()) < old(t).output().len() ==> {
                    &&& final(t).taken() == terminal_at(old(t).output(), old(t).taken()) + 1
                    &&& r matches Ok(m) && m@ == bestmove_of(
                        old(t).output()[terminal_at(old(t).output(), old(t).taken())],
                    )
                }
                &&& terminal_at(old(t).output(), old(t).taken()) >= old(t).output().len() ==> {
                    &&& final(t).taken() == old(t).output().len()
                    &&& r matches Err(EngineError::Io(m)) && m@ == "unexpected end of stream"@
                }
            },
    {
        if infinite {
            let line = build_go_infinite();
            t.write_line(line);
            self.searching = true;
            match t.drain_until_ready() {
                Ok(_) => Ok(String::from_str("Started searching")),
                Err(e) => Err(e),
            }
        } else {
            let line = build_go_movetime(self.movetime);
            t.write_line(line);
            Self::scan_terminal(t)
        }
    }

    /// Stops the outstanding unbounded search and returns the move the
    /// engine settled on: the interrupt is written, then output lines
    /// are consumed up to and including the terminal move line exactly
    /// as a bounded search consumes them.
    pub fn stop_search(&mut self, t: &mut Transcript) -> (r: EngineResult<String>)
        requires
            old(t).wf(),
            old(self).is_searching(),
        ensures
            final(t).wf(),
            final(t).output() == old(t).output(),
            final(self).time_budget() == old(self).time_budget(),
            !final(self).is_searching(),
            final(t).sent() == old(t).sent().push(stop_line()),
            terminal_at(old(t).output(), old(t).taken()) < old(t).output().len() ==> {
                &&& final(t).taken() == terminal_at(old(t).output(), old(t).taken()) + 1
                &&& r matches Ok(m) && m@ == bestmove_of(
                    old(t).output()[terminal_at(old(t).output(), old(t).taken())],
                )
            },
            terminal_at(old(t).output(), old(t).taken()) >= old(t).output().len() ==> {
                &&& final(t).taken() == old(t).output().len()
                &&& r matches Err(EngineError::Io(m)) && m@ == "unexpected end of stream"@
            },
    {
        let line = build_stop();
        t.write_line(line);
        self.searching = false;
        Self::scan_terminal(t)
    }

    /// Reads the engine's progress reports while a search is running
    /// and returns the move named by the first line that reports a
    /// search depth; lines before it are discarded.
    pub fn current_best_move(&self, t: &mut Transcript) -> (r: EngineResult<String>)
        requires
            old(t).wf(),
            self.is_searching(),
        ensures
            final(t).wf(),
            final(t).sent() == old(t).sent(),
            final(t).output() == old(t).output(),
            report_at(old(t).output(), old(t).taken()) < old(t).output().len() ==> {
                &&& final(t).taken() == report_at(old(t).output(), old(t).taken()) + 1
                &&& r matches Ok(m) && m@ == current_move_of(
                    old(t).output()[report_at(old(t).output(), old(t).taken())],
                )
            },
            report_at(old(t).output(), old(t).taken()) >= old(t).output().len() ==> {
                &&& final(t).taken() == old(t).output().len()
                &&& r matches Err(EngineError::Io(m)) && m@ == "unexpected end of stream"@
            },
    {
        let ghost lines = t.output();
        let ghost from = t.taken();
        proof {
            lemma_report_at(lines, from);
        }
        let found: String;
        loop
            invariant_except_break
                report_at(lines, from) == report_at(lines, t.taken()),
            invariant
                t.wf(),
                t.sent() == old(t).sent(),
                t.output() == lines,
                lines == old(t).output(),
                from == old(t).taken(),
                0 <= from <= t.taken() <= lines.len(),
            ensures
                t.wf(),
                t.sent() == old(t).sent(),
                t.output() == lines,
                report_at(lines, from) < lines.len(),
                t.taken() == report_at(lines, from) + 1,
                found@ == current_move_of(lines[report_at(lines, from)]),
            decreases lines.len() - t.taken(),
        {
            let ghost cur = t.taken();
            let next = match t.read_line() {
                Ok(line) => line,
                Err(e) => {
                    proof {
                        lemma_report_at(lines, cur);
                        assert(report_at(lines, cur) == lines.len());
                    }
                    return Err(e);
                },
            };
            match match_current_move(next.as_str()) {
                Some(m) => {
                    proof {
                        assert(report_at(lines, cur) == cur);
                    }
                    found = m;
                    break;
                },
                None => {
                    proof {
                        assert(report_at(lines, cur) == report_at(lines, cur + 1));
                    }
                },
            }
        }
        Ok(found)
    }

    /// Sets an engine-specific option to the given value.  The engine
    /// answers no such command directly, so acceptance is decided by a
    /// synchronization round-trip: an empty response, or free-form
    /// informational text, means the option was applied; anything else
    /// means the engine does not know it, and the error carries the
    /// name as given.  Either way the stream is consumed exactly
    /// through the acknowledgment, so the session stays usable.
    pub fn set_option(&self, t: &mut Transcript, name: &str, value: &str) -> (r: EngineResult<()>)
        requires
            old(t).wf(),
            !self.is_searching(),
        ensures
            final(t).wf(),
            final(t).output() == old(t).output(),
            final(t).sent() == old(t).sent() + seq![
                setoption_line(name@, value@),
                isready_line(),
            ],
            ack_at(old(t).output(), old(t).taken()) < old(t).output().len() ==> {
                &&& final(t).taken() == ack_at(old(t).output(), old(t).taken()) + 1
                &&& option_accepted(
                    round_trip_response(
                        old(t).output(),
                        old(t).taken(),
                        ack_at(old(t).output(), old(t).taken()),
                    ),
                ) ==> r is Ok
                &&& !option_accepted(
                    round_trip_response(
                        old(t).output(),
                        old(t).taken(),
                        ack_at(old(t).output(), old(t).taken()),
                    ),
                ) ==> (r matches Err(EngineError::UnknownOption(n)) && n@ == name@)
            },
            ack_at(old(t).output(), old(t).taken()) >= old(t).output().len() ==> {
                &&& final(t).taken() == old(t).output().len()
                &&& r matches Err(EngineError::Io(m)) && m@ == "unexpected end of stream"@
            },
    {
        let line = build_setoption(name, value);
        t.write_line(line);
        let collected = match t.drain_until_ready() {
            Ok(v) => v,
            Err(e) => {
                return Err(e);
            },
        };
        let response = join_strings(&collected, "\n");
        if option_response_accepted(response.as_str()) {
            Ok(())
        } else {
            Err(EngineError::UnknownOption(String::from_str(name)))
        }
    }

    /// Sends a free-form command — the text shorn of surrounding
    /// whitespace, then the line terminator — and returns whatever the
    /// engine answered before the closing acknowledgment, joined with
    /// line terminators.
    pub fn command(&self, t: &mut Transcript, cmd: &str) -> (r: EngineResult<String>)
        requires
            old(t).wf(),
            !self.is_searching(),
        ensures
            final(t).wf(),
            final(t).output() == old(t).output(),
            final(t).sent() == old(t).sent() + seq![free_command_line(cmd@), isready_line()],
            ack_at(old(t).output(), old(t).taken()) < old(t).output().len() ==> {
                &&& final(t).taken() == ack_at(old(t).output(), old(t).taken()) + 1
                &&& r matches Ok(response) && response@ == round_trip_response(
                    old(t).output(),
                    old(t).taken(),
                    ack_at(old(t).output(), old(t).taken()),
                )
            },
            ack_at(old(t).output(), old(t).taken()) >= old(t).output().len() ==> {
                &&& final(t).taken() == old(t).output().len()
                &&& r matches Err(EngineError::Io(m)) && m@ == "unexpected end of stream"@
            },
    {
        let line = build_free_command(cmd);
        t.write_line(line);
        let collected = match t.drain_until_ready() {
            Ok(v) => v,
            Err(e) => {
                return Err(e);
            },
        };
        Ok(join_strings(&collected, "\n"))
    }
}

} // verus!
