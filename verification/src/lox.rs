//! The diagnostics of the interpreter's driver: the text of an error report
//! and the flag that remembers that one was made.

use vstd::prelude::*;
use vstd::string::StringExecFns;

verus! {

/// The character of a decimal digit's value.
pub open spec fn digit(d: nat) -> char {
    if d == 0 {
        '0'
    } else if d == 1 {
        '1'
    } else if d == 2 {
        '2'
    } else if d == 3 {
        '3'
    } else if d == 4 {
        '4'
    } else if d == 5 {
        '5'
    } else if d == 6 {
        '6'
    } else if d == 7 {
        '7'
    } else if d == 8 {
        '8'
    } else {
        '9'
    }
}

/// A number in decimal, without leading zeros.
pub open spec fn decimal(n: nat) -> Seq<char>
    decreases n,
{
    if n < 10 {
        seq![digit(n)]
    } else {
        decimal(n / 10).push(digit(n % 10))
    }
}

/// The report of an error: `[line N] Error WHERE: MESSAGE`.
pub open spec fn diagnostic(line: nat, at: Seq<char>, message: Seq<char>) -> Seq<char> {
    "[line "@ + decimal(line) + "] Error "@ + at + ": "@ + message
}

fn digit_char(d: usize) -> (c: char)
    requires
        d < 10,
    ensures
        c == digit(d as nat),
{
    if d == 0 {
        '0'
    } else if d == 1 {
        '1'
    } else if d == 2 {
        '2'
    } else if d == 3 {
        '3'
    } else if d == 4 {
        '4'
    } else if d == 5 {
        '5'
    } else if d == 6 {
        '6'
    } else if d == 7 {
        '7'
    } else if d == 8 {
        '8'
    } else {
        '9'
    }
}

/// Appends `n` in decimal to `out`.
pub fn push_decimal(out: &mut String, n: usize)
    ensures
        final(out)@ == old(out)@ + decimal(n as nat),
    decreases n,
{
    if n >= 10 {
        push_decimal(out, n / 10);
    }
    out.push(digit_char(n % 10));
    assert(out@ =~= old(out)@ + decimal(n as nat));
}

/// The driver's memory of whether an error was reported.
pub struct Lox {
    pub had_error: bool,
}

impl Lox {
    /// Reports an error on `line`, with no place named: sets the flag and
    /// gives the text to show.
    pub fn error(&mut self, line: usize, message: String) -> (text: String)
        ensures
            final(self).had_error,
            text@ == diagnostic(line as nat, Seq::empty(), message@),
    {
        let text = self.report(line, "", message.as_str());
        proof {
            reveal_strlit("");
            assert(""@ =~= Seq::<char>::empty());
        }
        text
    }

    /// Reports an error on `line` at the place `at`: sets the flag and gives
    /// the text to show.
    pub fn report(&mut self, line: usize, at: &str, message: &str) -> (text: String)
        ensures
            final(self).had_error,
            text@ == diagnostic(line as nat, at@, message@),
    {
        let mut text = String::from_str("[line ");
        push_decimal(&mut text, line);
        text.append("] Error ");
        text.append(at);
        text.append(": ");
        text.append(message);
        self.had_error = true;
        text
    }
}

} // verus!
