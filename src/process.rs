use vstd::prelude::*;
use crate::errors::{opt_text, BoxedError, CargoError, ErrorLayer, FromError};

verus! {

/// The character of a decimal digit.
pub open spec fn digit_char(d: nat) -> char {
    seq!['0', '1', '2', '3', '4', '5', '6', '7', '8', '9'][d as int]
}

/// The decimal rendering of a natural number, most significant digit first.
pub open spec fn nat_text(n: nat) -> Seq<char>
    decreases n,
{
    if n < 10 {
        seq![digit_char(n)]
    } else {
        nat_text(n / 10).push(digit_char(n % 10))
    }
}

/// The decimal rendering of an integer, with a leading `-` when negative.
pub open spec fn int_text(i: int) -> Seq<char> {
    if i < 0 {
        seq!['-'] + nat_text(-i as nat)
    } else {
        nat_text(i as nat)
    }
}

fn push_digits(out: &mut String, n: u64)
    ensures
        final(out)@ == old(out)@ + nat_text(n as nat),
    decreases n,
{
    if n >= 10 {
        push_digits(out, n / 10);
    }
    let digits = "0123456789";
    proof {
        reveal_strlit("0123456789");
    }
    let d: usize = (n % 10) as usize;
    let one = digits.substring_char(d, d + 1);
    assert(one@ =~= seq![digit_char(d as nat)]);
    out.append(one);
    assert(final(out)@ =~= old(out)@ + nat_text(n as nat));
}

/// Renders an integer in decimal.
pub fn int_to_text(i: i32) -> (r: String)
    ensures
        r@ == int_text(i as int),
{
    let mut out = String::new();
    if i < 0 {
        out.append("-");
        proof {
            reveal_strlit("-");
        }
        let magnitude: u64 = (0i64 - i as i64) as u64;
        push_digits(&mut out, magnitude);
    } else {
        push_digits(&mut out, i as u64);
    }
    assert(out@ =~= int_text(i as int));
    out
}

/// How an external command ended: its exit status, or the signal that
/// stopped it.
#[derive(Clone, Copy, Debug, PartialEq, Eq, Structural)]
pub enum ProcessExit {
    ExitStatus(i32),
    ExitSignal(i32),
}

/// What an external command left behind: how it ended and the bytes it
/// wrote to its standard output and standard error.
pub struct ProcessOutput {
    pub status: ProcessExit,
    pub output: Vec<u8>,
    pub error: Vec<u8>,
}

impl Clone for ProcessOutput {
    fn clone(&self) -> (r: Self)
        ensures
            r.status == self.status,
            r.output@ == self.output@,
            r.error@ == self.error@,
    {
        ProcessOutput { status: self.status, output: self.output.clone(), error: self.error.clone() }
    }
}

/// The status fragment of a failed command's description.
pub open spec fn status_text(exit: Option<ProcessExit>) -> Seq<char> {
    match exit {
        Some(ProcessExit::ExitStatus(i)) => int_text(i as int),
        Some(ProcessExit::ExitSignal(i)) => int_text(i as int),
        None => "never executed"@,
    }
}

/// The description of a failed command: its message, then its status.
pub open spec fn process_description(msg: Seq<char>, exit: Option<ProcessExit>) -> Seq<char> {
    msg + " (status="@ + status_text(exit) + ")"@
}

/// An external command that did not give the expected result.
pub struct ProcessError {
    pub msg: String,
    pub command: String,
    pub exit: Option<ProcessExit>,
    pub output: Option<ProcessOutput>,
    pub detail: Option<String>,
    pub cause: Option<BoxedError>,
}

impl CargoError for ProcessError {
    open spec fn head(&self) -> ErrorLayer {
        ErrorLayer {
            description: process_description(self.msg@, self.exit),
            detail: opt_text(self.detail),
            is_human: false,
        }
    }

    open spec fn causes(&self) -> Seq<ErrorLayer> {
        match self.cause {
            Some(c) => c.layers(),
            None => Seq::empty(),
        }
    }

    fn description(&self) -> (r: String) {
        let status = match self.exit {
            Some(ProcessExit::ExitStatus(i)) => int_to_text(i),
            Some(ProcessExit::ExitSignal(i)) => int_to_text(i),
            None => "never executed".to_owned(),
        };
        let mut r = self.msg.clone();
        r.append(" (status=");
        r.append(status.as_str());
        r.append(")");
        r
    }

    fn detail(&self) -> (r: Option<String>) {
        self.detail.clone()
    }

    fn cause(&self) -> (r: Option<&crate::errors::ConcreteCargoError>) {
        match &self.cause {
            Some(c) => Some(&**c),
            None => None,
        }
    }

    fn is_human(&self) -> (r: bool) {
        false
    }
}

impl FromError<ProcessError> for ProcessError {
    open spec fn converted(error: ProcessError, r: Self) -> bool {
        r == error
    }

    fn from_error(error: ProcessError) -> (r: Self) {
        error
    }
}

/// The record of a failed command, with no detail and no cause yet.
pub fn process_error(
    msg: &str,
    command: &str,
    status: Option<&ProcessExit>,
    output: Option<&ProcessOutput>,
) -> (r: ProcessError)
    ensures
        r.msg@ == msg@,
        r.command@ == command@,
        r.exit == match status {
            Some(s) => Some(*s),
            None => None::<ProcessExit>,
        },
        match (output, r.output) {
            (Some(o), Some(c)) => c.status == o.status && c.output@ == o.output@ && c.error@
                == o.error@,
            (None, None) => true,
            _ => false,
        },
        r.detail is None,
        r.cause is None,
{
    let exit = match status {
        Some(s) => Some(*s),
        None => None,
    };
    let output = match output {
        Some(o) => Some(o.clone()),
        None => None,
    };
    ProcessError {
        msg: msg.to_owned(),
        command: command.to_owned(),
        exit,
        output,
        detail: None,
        cause: None,
    }
}

} // verus!
