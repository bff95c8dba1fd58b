//! A bounded log of text messages: the oldest message leaves when a new one
//! arrives at capacity.

use vstd::prelude::*;
use vstd::string::StringExecFns;

verus! {

/// How many messages the log keeps.
pub const LOG_CAPACITY: usize = 5;

/// The messages after `m` is appended to `lines`.
pub open spec fn log_push(lines: Seq<Seq<char>>, m: Seq<char>) -> Seq<Seq<char>> {
    if lines.len() >= LOG_CAPACITY {
        lines.subrange(1, lines.len() as int).push(m)
    } else {
        lines.push(m)
    }
}

/// The messages, oldest first, one per line.
pub open spec fn joined(lines: Seq<Seq<char>>) -> Seq<char>
    decreases lines.len(),
{
    if lines.len() == 0 {
        Seq::empty()
    } else if lines.len() == 1 {
        lines[0]
    } else {
        joined(lines.drop_last()) + "\n"@ + lines.last()
    }
}

#[derive(Debug)]
pub struct EventLog {
    lines: Vec<String>,
}

impl View for EventLog {
    type V = Seq<Seq<char>>;

    closed spec fn view(&self) -> Seq<Seq<char>> {
        self.lines@.map_values(|s: String| s@)
    }
}

impl EventLog {
    pub closed spec fn wf(&self) -> bool {
        self.lines@.len() <= LOG_CAPACITY
    }

    pub fn new() -> (r: EventLog)
        ensures
            r.wf(),
            r@ == Seq::<Seq<char>>::empty(),
    {
        let r = EventLog { lines: Vec::new() };
        assert(r@ =~= Seq::<Seq<char>>::empty());
        r
    }

    pub fn len(&self) -> (r: usize)
        ensures
            r == self@.len(),
    {
        self.lines.len()
    }

    pub fn log(&mut self, message: String)
        requires
            old(self).wf(),
        ensures
            final(self).wf(),
            final(self)@ == log_push(old(self)@, message@),
    {
        let ghost m = message@;
        if self.lines.len() >= LOG_CAPACITY {
            self.lines.remove(0);
        }
        self.lines.push(message);
        proof {
            let old_view = old(self)@;
            if old_view.len() >= LOG_CAPACITY {
                assert(self@ =~= old_view.subrange(1, old_view.len() as int).push(m));
            } else {
                assert(self@ =~= old_view.push(m));
            }
        }
    }

    /// The messages, oldest first, separated by line breaks.
    pub fn render(&self) -> (r: String)
        ensures
            r@ == joined(self@),
    {
        let mut out = String::new();
        let mut i: usize = 0;
        while i < self.lines.len()
            invariant
                i <= self@.len(),
                self@.len() == self.lines@.len(),
                out@ == joined(self@.subrange(0, i as int)),
            decreases self.lines@.len() - i,
        {
            proof {
                let next = self@.subrange(0, i + 1);
                assert(next.drop_last() =~= self@.subrange(0, i as int));
                assert(next.last() == self.lines@[i as int]@);
                if i == 0 {
                    assert(self@.subrange(0, 0) =~= Seq::<Seq<char>>::empty());
                }
            }
            if i > 0 {
                out.append("\n");
            }
            out.append(self.lines[i].as_str());
            proof {
                if i == 0 {
                    assert(out@ =~= self@.subrange(0, 1)[0]);
                }
            }
            i = i + 1;
        }
        assert(self@.subrange(0, self@.len() as int) =~= self@);
        out
    }
}

} // verus!
