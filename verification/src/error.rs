//! The crate-level error value with its string-keyed constructor.

use vstd::prelude::*;
use vstd::string::{StrSliceExecFns, StringExecFns};

verus! {

/// A tagged error message. `InvalidInput` covers bad caller input,
/// `MatrixError` a failed matrix operation.
#[derive(Debug)]
pub enum Error {
    InvalidInput(String),
    MatrixError(String),
}

/// ASCII lowercase of one character; other characters pass through.
pub open spec fn lower_char(c: char) -> char {
    if 'A' <= c && c <= 'Z' {
        (((c as u8) + 32) as char)
    } else {
        c
    }
}

/// A character sequence lowered character by character.
pub open spec fn lower_seq(s: Seq<char>) -> Seq<char> {
    s.map_values(|c: char| lower_char(c))
}

/// ASCII lowercase of one character, executable.
fn lower_char_exec(c: char) -> (r: char)
    ensures
        r == lower_char(c),
{
    if 'A' <= c && c <= 'Z' {
        ((c as u8) + 32) as char
    } else {
        c
    }
}

/// Whether the string, lowered, equals the (already lowercase) keyword.
fn matches_keyword(s: &str, kw: &str) -> (b: bool)
    ensures
        b == (lower_seq(s@) == kw@),
{
    let n = s.unicode_len();
    let m = kw.unicode_len();
    if n != m {
        proof {
            assert(lower_seq(s@).len() == s@.len());
        }
        return false;
    }
    let mut i: usize = 0;
    while i < n
        invariant
            0 <= i <= n,
            n == s@.len(),
            n == kw@.len(),
            forall|j: int| 0 <= j < i ==> lower_char(s@[j]) == kw@[j],
        decreases n - i,
    {
        let c = lower_char_exec(s.get_char(i));
        let k = kw.get_char(i);
        if c != k {
            proof {
                assert(lower_seq(s@)[i as int] != kw@[i as int]);
            }
            return false;
        }
        i = i + 1;
    }
    proof {
        assert(lower_seq(s@) =~= kw@);
    }
    true
}

impl Error {
    /// Builds an error from a case-insensitive type name and a message:
    /// `"invalidinput"` selects `InvalidInput`, `"matrixerror"` selects
    /// `MatrixError`, and anything else (a missing or unknown name) falls
    /// back to `InvalidInput` with a fixed note. Case folding is per ASCII
    /// letter.
    pub fn new(error_type: Option<String>, error_message: String) -> (r: Error)
        ensures
            (error_type matches Some(s) && lower_seq(s@) == "invalidinput"@) ==> (r matches
                Error::InvalidInput(m) && m == error_message),
            (error_type matches Some(s) && lower_seq(s@) == "matrixerror"@) ==> (r matches
                Error::MatrixError(m) && m == error_message),
            (match error_type {
                Option::None => true,
                Option::Some(s) => lower_seq(s@) != "invalidinput"@ && lower_seq(s@)
                    != "matrixerror"@,
            }) ==> (r matches Error::InvalidInput(m) && m@ == "Invalid error type"@),
    {
        proof {
            reveal_strlit("invalidinput");
            reveal_strlit("matrixerror");
            assert("invalidinput"@.len() != "matrixerror"@.len());
        }
        match error_type {
            Option::Some(s) => {
                if matches_keyword(s.as_str(), "invalidinput") {
                    Error::InvalidInput(error_message)
                } else if matches_keyword(s.as_str(), "matrixerror") {
                    Error::MatrixError(error_message)
                } else {
                    Error::InvalidInput(String::from_str("Invalid error type"))
                }
            },
            Option::None => Error::InvalidInput(String::from_str("Invalid error type")),
        }
    }

    /// The error rendered as one line, tag first.
    pub fn message(&self) -> (s: String)
        ensures
            self matches Error::InvalidInput(m) ==> s@ == "Invalid input: "@ + m@,
            self matches Error::MatrixError(m) ==> s@ == "Matrix error: "@ + m@,
    {
        match self {
            Error::InvalidInput(m) => String::from_str("Invalid input: ").concat(m.as_str()),
            Error::MatrixError(m) => String::from_str("Matrix error: ").concat(m.as_str()),
        }
    }
}

} // verus!
