//! The host: what the interpreter needs from its surroundings. The verified
//! library holds a number only as the bit pattern of an IEEE-754 double and
//! never rounds one itself; arithmetic, the reading and the writing of
//! numerals, the clock and the standard output are the host's.

use vstd::prelude::*;

verus! {

/// The four arithmetic operations that the host performs.
#[derive(Clone, Copy, Debug, PartialEq, Eq, Structural)]
pub enum Arithmetic {
    Add,
    Subtract,
    Multiply,
    Divide,
}

/// The services of the host. Numbers go in and out as the bit patterns of
/// IEEE-754 doubles. Nothing is assumed of what an implementation returns.
pub trait Host {
    /// The double nearest to the decimal numeral `text`.
    fn parse_number(&mut self, text: &str) -> u64;

    /// The result of `op` on the doubles `a` and `b`.
    fn arithmetic(&mut self, op: Arithmetic, a: u64, b: u64) -> u64;

    /// The decimal text of the double `bits`.
    fn format_number(&mut self, bits: u64) -> String;

    /// The seconds since the Unix epoch, as a double.
    fn current_unix_seconds(&mut self) -> u64;

    /// Writes `line` and a line terminator to the standard output.
    fn write_stdout(&mut self, line: &str);
}

/// One call of the host: what was handed to it and what it returned.
pub enum HostCall {
    ParseNumber { text: Seq<char>, bits: u64 },
    Arithmetic { op: Arithmetic, a: u64, b: u64, bits: u64 },
    FormatNumber { bits: u64, text: Seq<char> },
    CurrentUnixSeconds { bits: u64 },
    WriteStdout { line: Seq<char> },
}

/// `after` holds every call of `before`, in order, and then the later ones.
pub open spec fn continues(before: Seq<HostCall>, after: Seq<HostCall>) -> bool {
    &&& before.len() <= after.len()
    &&& forall|i: int| 0 <= i < before.len() ==> #[trigger] after[i] == before[i]
}

/// A host together with the record of every call made through it. The
/// library reaches the host only through this type, so its contracts can
/// say which calls a function made and what it did with the answers.
pub struct Recorded<H: Host> {
    host: H,
    calls: Ghost<Seq<HostCall>>,
}

impl<H: Host> Recorded<H> {
    /// The calls made so far, oldest first.
    pub closed spec fn calls(&self) -> Seq<HostCall> {
        self.calls@
    }

    pub fn new(host: H) -> (r: Self)
        ensures
            r.calls() == Seq::<HostCall>::empty(),
            r.inner() == host,
    {
        Recorded { host, calls: Ghost(Seq::empty()) }
    }

    /// The host itself.
    pub closed spec fn inner(&self) -> H {
        self.host
    }

    /// Hands the host back.
    pub fn into_inner(self) -> (host: H)
        ensures
            host == self.inner(),
    {
        self.host
    }

    /// The host itself, to look at.
    pub fn host(&self) -> (host: &H)
        ensures
            *host == self.inner(),
    {
        &self.host
    }

    pub fn parse_number(&mut self, text: &str) -> (bits: u64)
        ensures
            final(self).calls() == old(self).calls().push(
                HostCall::ParseNumber { text: text@, bits },
            ),
    {
        let bits = self.host.parse_number(text);
        proof {
            self.calls@ = self.calls@.push(HostCall::ParseNumber { text: text@, bits });
        }
        bits
    }

    pub fn arithmetic(&mut self, op: Arithmetic, a: u64, b: u64) -> (bits: u64)
        ensures
            final(self).calls() == old(self).calls().push(
                HostCall::Arithmetic { op, a, b, bits },
            ),
    {
        let bits = self.host.arithmetic(op, a, b);
        proof {
            self.calls@ = self.calls@.push(HostCall::Arithmetic { op, a, b, bits });
        }
        bits
    }

    pub fn format_number(&mut self, bits: u64) -> (text: String)
        ensures
            final(self).calls() == old(self).calls().push(
                HostCall::FormatNumber { bits, text: text@ },
            ),
    {
        let text = self.host.format_number(bits);
        proof {
            self.calls@ = self.calls@.push(HostCall::FormatNumber { bits, text: text@ });
        }
        text
    }

    pub fn current_unix_seconds(&mut self) -> (bits: u64)
        ensures
            final(self).calls() == old(self).calls().push(HostCall::CurrentUnixSeconds { bits }),
    {
        let bits = self.host.current_unix_seconds();
        proof {
            self.calls@ = self.calls@.push(HostCall::CurrentUnixSeconds { bits });
        }
        bits
    }

    pub fn write_stdout(&mut self, line: &str)
        ensures
            final(self).calls() == old(self).calls().push(HostCall::WriteStdout { line: line@ }),
    {
        self.host.write_stdout(line);
        proof {
            self.calls@ = self.calls@.push(HostCall::WriteStdout { line: line@ });
        }
    }
}

} // verus!
