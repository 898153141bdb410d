//! Error kinds reported by environment, pool and buffer operations.
use vstd::prelude::*;
use vstd::string::*;

verus! {

/// What went wrong in an operation of this library.
#[derive(Debug)]
pub enum Error {
    /// Environment bring-up failed.
    EalInit(String),
    /// Pool creation or a pool operation failed.
    Mempool(String),
    /// Buffer allocation, append or prepend failed.
    Mbuf(String),
    /// A caller-supplied string held an embedded null character.
    InvalidArgument(String),
    /// A named resource does not exist.
    NotFound(String),
    /// The operation is not supported.
    NotSupported(String),
    /// An error identified by a native (negative errno-style) code.
    Dpdk { code: i32, message: String },
}

/// The character for a decimal digit `d < 10`.
pub open spec fn digit_char(d: nat) -> char {
    seq!['0', '1', '2', '3', '4', '5', '6', '7', '8', '9'][(d % 10) as int]
}

/// The decimal digits of `n`, most significant first, without leading zeros.
pub open spec fn decimal_digits(n: nat) -> Seq<char>
    decreases n,
{
    if n < 10 {
        seq![digit_char(n)]
    } else {
        decimal_digits(n / 10).push(digit_char(n % 10))
    }
}

/// `v` written in decimal, with a leading `-` when negative.
pub open spec fn decimal_text(v: int) -> Seq<char> {
    if v < 0 {
        seq!['-'] + decimal_digits((-v) as nat)
    } else {
        decimal_digits(v as nat)
    }
}

/// The human-readable text for a native error code.
pub open spec fn errno_text(code: i32) -> Seq<char> {
    if code == -1 {
        "Operation not permitted"@
    } else if code == -2 {
        "No such file or directory"@
    } else if code == -12 {
        "Out of memory"@
    } else if code == -22 {
        "Invalid argument"@
    } else if code == -95 {
        "Operation not supported"@
    } else {
        "Unknown error code: "@ + decimal_text(code as int)
    }
}

/// Relies on `i32`'s `to_string` (its `Display`): the value in decimal,
/// with a leading `-` when negative.
#[verifier::external_body]
fn decimal_string(v: i32) -> (r: String)
    ensures
        r@ == decimal_text(v as int),
{
    v.to_string()
}

impl Error {
    /// The error for a native code, carrying the code and its text.
    pub fn from_errno(code: i32) -> (r: Error)
        ensures
            r matches Error::Dpdk { code: c, message: m } && c == code && m@ == errno_text(code),
    {
        let message = if code == -1 {
            String::from_str("Operation not permitted")
        } else if code == -2 {
            String::from_str("No such file or directory")
        } else if code == -12 {
            String::from_str("Out of memory")
        } else if code == -22 {
            String::from_str("Invalid argument")
        } else if code == -95 {
            String::from_str("Operation not supported")
        } else {
            let digits = decimal_string(code);
            String::from_str("Unknown error code: ").concat(digits.as_str())
        };
        Error::Dpdk { code, message }
    }
}

} // verus!
