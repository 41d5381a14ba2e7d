//! Bounded, timestamped message log.
//!
//! The pipeline appends human-readable lines here; the presentation layer
//! reads the whole log as one text blob. The log keeps at most
//! `LOG_CAPACITY` lines, dropping the oldest first.

use vstd::prelude::*;
use vstd::string::StringExecFns;

verus! {

/// Most lines the log retains; beyond it the oldest line is evicted.
pub const LOG_CAPACITY: usize = 1000;

/// The line sequence after an append: the new line at the back, the oldest
/// line dropped once the capacity is passed.
pub open spec fn logs_after_append(logs: Seq<Seq<char>>, line: Seq<char>) -> Seq<Seq<char>> {
    let grown = logs.push(line);
    if grown.len() > LOG_CAPACITY {
        grown.drop_first()
    } else {
        grown
    }
}

/// The line sequence after appending each of `lines` in order.
pub open spec fn logs_after_lines(logs: Seq<Seq<char>>, lines: Seq<Seq<char>>) -> Seq<Seq<char>>
    decreases lines.len(),
{
    if lines.len() == 0 {
        logs
    } else {
        logs_after_append(logs_after_lines(logs, lines.drop_last()), lines.last())
    }
}

/// A log line as `log` writes it: the timestamp in brackets, then the body.
pub open spec fn stamped(ts: Seq<char>, body: Seq<char>) -> Seq<char> {
    "["@ + ts + "] "@ + body
}

/// All lines joined with newlines.
pub open spec fn join_lines(lines: Seq<Seq<char>>) -> Seq<char>
    decreases lines.len(),
{
    if lines.len() == 0 {
        Seq::empty()
    } else if lines.len() == 1 {
        lines[0]
    } else {
        join_lines(lines.drop_last()) + "\n"@ + lines.last()
    }
}

/// The append-only log the dispatcher and the connection manager write and
/// the presentation layer reads.
pub struct MessageLogger {
    logs: Vec<String>,
}

impl View for MessageLogger {
    type V = Seq<Seq<char>>;

    closed spec fn view(&self) -> Seq<Seq<char>> {
        self.logs@.map_values(|s: String| s@)
    }
}

impl Default for MessageLogger {
    /// An empty log.
    fn default() -> (r: Self)
        ensures
            r@ == Seq::<Seq<char>>::empty(),
            r.wf(),
    {
        let r = MessageLogger { logs: Vec::new() };
        proof {
            assert(r@ =~= Seq::<Seq<char>>::empty());
        }
        r
    }
}

impl MessageLogger {
    /// The log never holds more than `LOG_CAPACITY` lines.
    pub open spec fn wf(&self) -> bool {
        self@.len() <= LOG_CAPACITY
    }

    /// Appends one already-formatted line, evicting the oldest line past
    /// capacity.
    pub fn push_line(&mut self, line: String)
        requires
            old(self).wf(),
        ensures
            final(self)@ == logs_after_append(old(self)@, line@),
            final(self).wf(),
    {
        self.logs.push(line);
        if self.logs.len() > LOG_CAPACITY {
            self.logs.remove(0);
            proof {
                assert(self@ =~= logs_after_append(old(self)@, line@));
            }
        } else {
            proof {
                assert(self@ =~= logs_after_append(old(self)@, line@));
            }
        }
    }

    /// Relies on chrono::Local::now and its formatter: the current
    /// wall-clock time as `HH:MM:SS` text. The result depends on the clock,
    /// so nothing is promised of it.
    #[verifier::external_body]
    fn local_time_text() -> String {
        chrono::Local::now().format("%H:%M:%S").to_string()
    }

    /// Appends `message` under a wall-clock timestamp: exactly one line,
    /// `stamped` with some time text, joins the log.
    pub fn log(&mut self, message: &str)
        requires
            old(self).wf(),
        ensures
            final(self).wf(),
            exists|ts: Seq<char>|
                final(self)@ == logs_after_append(old(self)@, stamped(ts, message@)),
    {
        let ts = Self::local_time_text();
        let mut line = String::new();
        line.append("[");
        line.append(ts.as_str());
        line.append("] ");
        line.append(message);
        proof {
            assert(line@ =~= stamped(ts@, message@));
        }
        self.push_line(line);
        proof {
            assert(self@ == logs_after_append(old(self)@, stamped(ts@, message@)));
        }
    }

    /// The whole log as one text blob, lines joined with newlines.
    pub fn get_text(&self) -> (r: String)
        ensures
            r@ == join_lines(self@),
    {
        let mut out = String::new();
        let mut i: usize = 0;
        while i < self.logs.len()
            invariant
                0 <= i <= self.logs@.len(),
                out@ == join_lines(self@.take(i as int)),
            decreases self.logs@.len() - i,
        {
            if i > 0 {
                out.append("\n");
            }
            out.append(self.logs[i].as_str());
            proof {
                assert(self@.take((i + 1) as int).drop_last() =~= self@.take(i as int));
                assert(self@.take((i + 1) as int).last() == self@[i as int]);
                if i == 0 {
                    assert(out@ =~= self@[0]);
                    assert(out@ =~= join_lines(self@.take(1)));
                }
            }
            i = i + 1;
        }
        proof {
            assert(self@.take(self.logs@.len() as int) =~= self@);
        }
        out
    }
}

} // verus!
