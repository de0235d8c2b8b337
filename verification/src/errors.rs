//! The error channel: engine status codes and locally raised errors.
use vstd::prelude::*;
use vstd::string::StringExecFns;

verus! {

/// The status code that the engine returns for a call that succeeded.
pub const STATUS_OK: i32 = 0;

/// The status code carried by an error that this library raised itself.
pub const STATUS_LOCAL: i32 = 0;

/// The character of a decimal digit.
pub open spec fn digit_char(d: nat) -> char {
    if d == 0 {
        '0'
    } else if d == 1 {
        '1'
    } else if d == 2 {
        '2'
    } else if d == 3 {
        '3'
    } else if d == 4 {
        '4'
    } else if d == 5 {
        '5'
    } else if d == 6 {
        '6'
    } else if d == 7 {
        '7'
    } else if d == 8 {
        '8'
    } else {
        '9'
    }
}

/// The decimal digits of a natural number, most significant first, with no
/// leading zero.
pub open spec fn digits_of(n: nat) -> Seq<char>
    decreases n,
{
    if n < 10 {
        seq![digit_char(n)]
    } else {
        digits_of(n / 10).push(digit_char(n % 10))
    }
}

/// A status code in decimal, with a minus sign where it is negative.
pub open spec fn decimal(code: int) -> Seq<char> {
    if code < 0 {
        seq!['-'] + digits_of((-code) as nat)
    } else {
        digits_of(code as nat)
    }
}

/// The text that describes an error with the given code and message.
pub open spec fn description(code: int, message: Seq<char>) -> Seq<char> {
    "Synthizer error "@ + decimal(code) + ": "@ + message
}

fn digit_str(d: u64) -> (r: &'static str)
    requires
        d < 10,
    ensures
        r@ == seq![digit_char(d as nat)],
{
    proof {
        reveal_strlit("0");
        reveal_strlit("1");
        reveal_strlit("2");
        reveal_strlit("3");
        reveal_strlit("4");
        reveal_strlit("5");
        reveal_strlit("6");
        reveal_strlit("7");
        reveal_strlit("8");
        reveal_strlit("9");
    }
    if d == 0 {
        "0"
    } else if d == 1 {
        "1"
    } else if d == 2 {
        "2"
    } else if d == 3 {
        "3"
    } else if d == 4 {
        "4"
    } else if d == 5 {
        "5"
    } else if d == 6 {
        "6"
    } else if d == 7 {
        "7"
    } else if d == 8 {
        "8"
    } else {
        "9"
    }
}

fn push_digits(out: &mut String, n: u64)
    ensures
        final(out)@ == old(out)@ + digits_of(n as nat),
    decreases n,
{
    if n >= 10 {
        push_digits(out, n / 10);
    }
    out.append(digit_str(n % 10));
    proof {
        assert(out@ =~= old(out)@ + digits_of(n as nat));
    }
}

/// What kind of error the engine has given back. The engine does not yet
/// tell its errors apart, so there is one kind.
#[derive(Copy, Clone, Debug, PartialEq, Eq, Structural)]
#[non_exhaustive]
pub enum ErrorKind {
    Other,
}

/// An error of the engine, or of a check made on this side of the boundary.
#[derive(Clone, Debug)]
pub struct Error {
    message: String,
    kind: ErrorKind,
    code: i32,
}

impl Error {
    /// The message text, as a sequence of characters.
    pub closed spec fn message_spec(&self) -> Seq<char> {
        self.message@
    }

    /// The kind of the error.
    pub closed spec fn kind_spec(&self) -> ErrorKind {
        self.kind
    }

    /// The status code that came with the error.
    pub closed spec fn code_spec(&self) -> i32 {
        self.code
    }

    /// Whether this is the error with the given status code and message.
    pub open spec fn is_error(&self, code: i32, message: Seq<char>) -> bool {
        &&& self.code_spec() == code
        &&& self.message_spec() == message
        &&& self.kind_spec() == ErrorKind::Other
    }

    /// The human-readable message.
    pub fn message(&self) -> (r: &str)
        ensures
            r@ == self.message_spec(),
    {
        self.message.as_str()
    }

    /// The kind of the error.
    pub fn get_kind(&self) -> (r: ErrorKind)
        ensures
            r == self.kind_spec(),
    {
        self.kind
    }

    /// The status code that the engine returned, or `STATUS_LOCAL` for an
    /// error raised on this side.
    pub fn code(&self) -> (r: i32)
        ensures
            r == self.code_spec(),
    {
        self.code
    }

    /// The text that describes the error: its code in decimal, then its
    /// message.
    pub fn describe(&self) -> (r: String)
        ensures
            r@ == description(self.code_spec() as int, self.message_spec()),
    {
        let mut out = String::new();
        out.append("Synthizer error ");
        if self.code < 0 {
            proof {
                reveal_strlit("-");
            }
            out.append("-");
            let magnitude: u64 = (-(self.code as i64)) as u64;
            push_digits(&mut out, magnitude);
        } else {
            push_digits(&mut out, self.code as u64);
        }
        out.append(": ");
        out.append(self.message.as_str());
        proof {
            assert(out@ =~= description(self.code as int, self.message@));
        }
        out
    }

    /// An error raised on this side of the boundary, with the given text.
    pub fn rust_error(message: &str) -> (r: Error)
        ensures
            r.is_error(STATUS_LOCAL, message@),
    {
        Error { message: message.to_owned(), kind: ErrorKind::Other, code: STATUS_LOCAL }
    }
}

/// The error for a status code, with the text of the engine's last error
/// message.
pub fn error_from_code(code: i32, last_message: &str) -> (r: Error)
    ensures
        r.is_error(code, last_message@),
{
    Error { message: last_message.to_owned(), kind: ErrorKind::Other, code }
}

/// `Ok` exactly for the success code; any other code becomes the error that
/// carries it and the engine's last error message.
pub fn check_error(code: i32, last_message: &str) -> (r: Result<(), Error>)
    ensures
        r is Ok <==> code == STATUS_OK,
        r matches Err(e) ==> e.is_error(code, last_message@),
{
    if code != STATUS_OK {
        return Err(error_from_code(code, last_message));
    }
    Ok(())
}

} // verus!
