//! A recorded exchange with the engine process.
//!
//! The channel to the live subprocess is a pair of pipes; what the
//! protocol logic sees of it is only this: a sequence of output lines
//! that can be read once each, in order, and a sequence of command
//! lines written to it.  A `Transcript` holds exactly that, so every
//! protocol operation can run — and be checked — against recorded or
//! simulated engine output, line for line as it would against the
//! live process.  The embedding program drives the live pipes itself
//! and uses the same line classifiers to make the same decisions.

use vstd::prelude::*;
use vstd::string::StringExecFns;

use crate::cmd::build_isready;
use crate::cmd::isready_line;
use crate::error::EngineError;
use crate::error::EngineResult;
use crate::protocol::ack_at;
use crate::protocol::collected_lines;
use crate::protocol::is_ready_ack;
use crate::protocol::lemma_ack_at;
use crate::text::trim_str;
use crate::text::trimmed;

verus! {

/// A channel with a recorded sequence of engine output lines and a log
/// of the commands written to it.  Output lines are consumed
/// destructively, in order; once read, a line cannot be replayed.
pub struct Transcript {
    written: Vec<String>,
    lines: Vec<String>,
    cursor: usize,
}

impl Transcript {
    /// The commands written so far, in order.
    pub closed spec fn sent(&self) -> Seq<Seq<char>> {
        self.written.deep_view()
    }

    /// Every output line of the recorded exchange, consumed or not.
    pub closed spec fn output(&self) -> Seq<Seq<char>> {
        self.lines.deep_view()
    }

    /// How many output lines have been consumed.
    pub closed spec fn taken(&self) -> int {
        self.cursor as int
    }

    /// The transcript is well formed: no more lines have been consumed
    /// than exist.
    pub open spec fn wf(&self) -> bool {
        0 <= self.taken() <= self.output().len()
    }

    /// A fresh transcript over the given engine output, with nothing
    /// written and nothing consumed yet.
    pub fn new(lines: Vec<String>) -> (t: Transcript)
        ensures
            t.wf(),
            t.sent() == Seq::<Seq<char>>::empty(),
            t.output() == lines.deep_view(),
            t.taken() == 0,
    {
        let t = Transcript { written: Vec::new(), lines, cursor: 0 };
        proof {
            assert(t.sent() =~= Seq::<Seq<char>>::empty());
        }
        t
    }

    /// The commands written so far, for inspection.
    pub fn written_so_far(&self) -> (r: &Vec<String>)
        ensures
            r.deep_view() == self.sent(),
    {
        &self.written
    }

    /// How many output lines have been consumed, for inspection.
    pub fn lines_taken(&self) -> (r: usize)
        ensures
            r as int == self.taken(),
    {
        self.cursor
    }

    /// Appends one command line to the log.  On the live channel this
    /// is the write-and-flush of one newline-terminated command.
    pub fn write_line(&mut self, line: String)
        requires
            old(self).wf(),
        ensures
            final(self).wf(),
            final(self).sent() == old(self).sent().push(line@),
            final(self).output() == old(self).output(),
            final(self).taken() == old(self).taken(),
    {
        let ghost old_sent = self.sent();
        self.written.push(line);
        proof {
            assert(self.sent() =~= old_sent.push(self.written@[self.written@.len() - 1]@));
        }
    }

    /// Consumes and returns the next output line.  At the end of the
    /// recorded output — where the live process would have closed its
    /// pipe — the read fails instead of returning a partial line.
    pub fn read_line(&mut self) -> (r: EngineResult<String>)
        requires
            old(self).wf(),
        ensures
            final(self).wf(),
            final(self).sent() == old(self).sent(),
            final(self).output() == old(self).output(),
            old(self).taken() < old(self).output().len() ==> {
                &&& final(self).taken() == old(self).taken() + 1
                &&& r matches Ok(line) && line@ == old(self).output()[old(self).taken()]
            },
            old(self).taken() >= old(self).output().len() ==> {
                &&& final(self).taken() == old(self).taken()
                &&& r matches Err(EngineError::Io(m)) && m@ == "unexpected end of stream"@
            },
    {
        if self.cursor < self.lines.len() {
            let line = self.lines[self.cursor].clone();
            self.cursor += 1;
            Ok(line)
        } else {
            Err(EngineError::Io(String::from_str("unexpected end of stream")))
        }
    }

    /// Writes the synchronization command, then consumes output lines
    /// until the ready acknowledgment, collecting every other line
    /// shorn of surrounding whitespace.  This round-trip is the only
    /// way to learn that the engine has finished processing what came
    /// before: the protocol gives configuration commands no completion
    /// signal of their own.  Where the output ends with no
    /// acknowledgment, the drain fails as the read does.
    pub fn drain_until_ready(&mut self) -> (r: EngineResult<Vec<String>>)
        requires
            old(self).wf(),
        ensures
            final(self).wf(),
            final(self).sent() == old(self).sent().push(isready_line()),
            final(self).output() == old(self).output(),
            ack_at(old(self).output(), old(self).taken()) < old(self).output().len() ==> {
                &&& final(self).taken() == ack_at(old(self).output(), old(self).taken()) + 1
                &&& r matches Ok(collected) && collected.deep_view() == collected_lines(
                    old(self).output(),
                    old(self).taken(),
                    ack_at(old(self).output(), old(self).taken()),
                )
            },
            ack_at(old(self).output(), old(self).taken()) >= old(self).output().len() ==> {
                &&& final(self).taken() == old(self).output().len()
                &&& r matches Err(EngineError::Io(m)) && m@ == "unexpected end of stream"@
            },
    {
        let sync = build_isready();
        self.write_line(sync);
        let ghost lines = self.output();
        let ghost from = self.taken();
        proof {
            lemma_ack_at(lines, from);
        }
        let mut collected: Vec<String> = Vec::new();
        loop
            invariant_except_break
                ack_at(lines, from) == ack_at(lines, self.taken()),
                collected.deep_view() == collected_lines(lines, from, self.taken()),
            invariant
                self.wf(),
                self.sent() == old(self).sent().push(isready_line()),
                self.output() == lines,
                lines == old(self).output(),
                from == old(self).taken(),
                0 <= from <= self.taken() <= lines.len(),
            ensures
                self.wf(),
                self.sent() == old(self).sent().push(isready_line()),
                self.output() == lines,
                ack_at(lines, from) < lines.len(),
                self.taken() == ack_at(lines, from) + 1,
                collected.deep_view() == collected_lines(lines, from, ack_at(lines, from)),
            decreases lines.len() - self.taken(),
        {
            let ghost cur = self.taken();
            let next = match self.read_line() {
                Ok(line) => line,
                Err(e) => {
                    proof {
                        lemma_ack_at(lines, cur);
                        assert(ack_at(lines, cur) == lines.len());
                    }
                    return Err(e);
                },
            };
            let t = trim_str(next.as_str());
            if is_ready_ack(next.as_str()) {
                proof {
                    assert(ack_at(lines, cur) == cur);
                }
                break;
            }
            let trimmed_line = String::from_str(t);
            let ghost before = collected.deep_view();
            collected.push(trimmed_line);
            proof {
                assert(ack_at(lines, cur) == ack_at(lines, cur + 1));
                assert(collected.deep_view() =~= before.push(trimmed(lines[cur])));
                assert(collected.deep_view() =~= collected_lines(lines, from, cur + 1));
            }
        }
        proof {
            lemma_ack_at(lines, from);
        }
        Ok(collected)
    }
}

} // verus!
