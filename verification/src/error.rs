//! Error types for finger data parsing and report generation.
use vstd::prelude::*;

verus! {

/// Errors that can occur during finger data parsing or report generation.
#[derive(Debug, Clone, Copy, PartialEq, Eq, Structural)]
pub enum Error {
    /// Input buffer is shorter than the expected header size.
    BufferTooShort {
        /// Number of bytes received.
        actual: usize,
        /// Minimum expected (header size).
        expected: usize,
    },
    /// The finger data after the header (and the header-to-finger delta) is
    /// not a whole number of finger blocks.
    MalformedPayload {
        /// Payload bytes (total - header).
        payload_len: usize,
        /// Expected finger block size.
        finger_size: usize,
    },
    /// Requested finger index is out of range.
    FingerIndexOutOfRange {
        /// Requested index.
        index: usize,
        /// Number of fingers in the report.
        count: usize,
    },
}


/// The decimal character for a digit `d` (0 ≤ d < 10).
pub open spec fn digit_char(d: nat) -> char {
    (48 + d) as char
}

/// The decimal representation of `n`, most significant digit first.
pub open spec fn decimal(n: nat) -> Seq<char>
    decreases n,
{
    if n < 10 {
        seq![digit_char(n)]
    } else {
        decimal(n / 10) + seq![digit_char(n % 10)]
    }
}

/// Appends the decimal character of the digit `d`.
fn push_digit(s: &mut String, d: usize)
    requires
        d < 10,
    ensures
        final(s)@ == old(s)@ + seq![digit_char(d as nat)],
{
    let t = match d {
        0 => "0",
        1 => "1",
        2 => "2",
        3 => "3",
        4 => "4",
        5 => "5",
        6 => "6",
        7 => "7",
        8 => "8",
        _ => "9",
    };
    proof {
        reveal_strlit("0");
        reveal_strlit("1");
        reveal_strlit("2");
        reveal_strlit("3");
        reveal_strlit("4");
        reveal_strlit("5");
        reveal_strlit("6");
        reveal_strlit("7");
        reveal_strlit("8");
        reveal_strlit("9");
    }
    assert(t@ =~= seq![digit_char(d as nat)]);
    s.append(t);
}

/// Appends the decimal representation of `n`.
fn push_decimal(s: &mut String, n: usize)
    ensures
        final(s)@ == old(s)@ + decimal(n as nat),
    decreases n,
{
    if n >= 10 {
        push_decimal(s, n / 10);
    }
    push_digit(s, n % 10);
    assert(s@ =~= old(s)@ + decimal(n as nat));
}

impl Error {
    /// The message describing this error.
    pub open spec fn spec_message(self) -> Seq<char> {
        match self {
            Error::BufferTooShort { actual, expected } => "buffer too short: "@ + decimal(actual as nat)
                + " bytes, need at least "@ + decimal(expected as nat),
            Error::MalformedPayload { payload_len, finger_size } => "malformed payload: "@
                + decimal(payload_len as nat) + " bytes is not a multiple of finger size "@
                + decimal(finger_size as nat),
            Error::FingerIndexOutOfRange { index, count } => "finger index "@ + decimal(index as nat)
                + " out of range (count = "@ + decimal(count as nat) + ")"@,
        }
    }

    /// The message describing this error, e.g.
    /// `buffer too short: 3 bytes, need at least 12`.
    pub fn message(&self) -> (r: String)
        ensures
            r@ == self.spec_message(),
    {
        let mut s = String::new();
        match *self {
            Error::BufferTooShort { actual, expected } => {
                s.append("buffer too short: ");
                push_decimal(&mut s, actual);
                s.append(" bytes, need at least ");
                push_decimal(&mut s, expected);
            },
            Error::MalformedPayload { payload_len, finger_size } => {
                s.append("malformed payload: ");
                push_decimal(&mut s, payload_len);
                s.append(" bytes is not a multiple of finger size ");
                push_decimal(&mut s, finger_size);
            },
            Error::FingerIndexOutOfRange { index, count } => {
                s.append("finger index ");
                push_decimal(&mut s, index);
                s.append(" out of range (count = ");
                push_decimal(&mut s, count);
                s.append(")");
            },
        }
        s
    }
}

} // verus!
