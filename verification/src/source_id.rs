//! The public retrieval identifier.
//!
//! A content hash travels to clients as its decimal rendering, so the only
//! identifiers this service ever hands out consist of the characters `'0'`
//! through `'9'`. The retrieval path accepts an identifier only after
//! checking exactly that, and the check is a pure function: a malformed
//! identifier is rejected before any filesystem path is even formed.

use crate::hash::fnv64;
use crate::hash::hash_source;
use crate::outcome::Error;
use vstd::prelude::*;
use vstd::string::StringSliceAdditionalSpecFns;

verus! {

/// Whether `c` is a decimal digit.
pub open spec fn is_digit(c: char) -> bool {
    ('0' as u32) <= (c as u32) && (c as u32) <= ('9' as u32)
}

/// Whether every character of `s` is a decimal digit. Vacuously true of the
/// empty sequence.
pub open spec fn all_digits(s: Seq<char>) -> bool {
    forall|i: int| 0 <= i < s.len() ==> is_digit(#[trigger] s[i])
}

/// The digit character for a value below ten.
pub open spec fn digit_char(d: nat) -> char {
    if d == 0 {
        '0'
    } else if d == 1 {
        '1'
    } else if d == 2 {
        '2'
    } else if d == 3 {
        '3'
    } else if d == 4 {
        '4'
    } else if d == 5 {
        '5'
    } else if d == 6 {
        '6'
    } else if d == 7 {
        '7'
    } else if d == 8 {
        '8'
    } else {
        '9'
    }
}

/// The decimal rendering of `n`: most significant digit first, no leading
/// zero except for `n == 0` itself.
pub open spec fn dec_seq(n: nat) -> Seq<char>
    decreases n,
{
    if n < 10 {
        seq![digit_char(n)]
    } else {
        dec_seq(n / 10).push(digit_char(n % 10))
    }
}

/// Every character of a decimal rendering is a digit.
pub proof fn lemma_dec_seq_all_digits(n: nat)
    ensures
        all_digits(dec_seq(n)),
    decreases n,
{
    if n < 10 {
    } else {
        lemma_dec_seq_all_digits(n / 10);
    }
}

/// The single-character string for a digit value.
fn digit_str(d: u64) -> (r: &'static str)
    requires
        d < 10,
    ensures
        r@ == seq![digit_char(d as nat)],
{
    proof {
        reveal_strlit("0");
        reveal_strlit("1");
        reveal_strlit("2");
        reveal_strlit("3");
        reveal_strlit("4");
        reveal_strlit("5");
        reveal_strlit("6");
        reveal_strlit("7");
        reveal_strlit("8");
        reveal_strlit("9");
    }
    let r: &'static str = if d == 0 {
        "0"
    } else if d == 1 {
        "1"
    } else if d == 2 {
        "2"
    } else if d == 3 {
        "3"
    } else if d == 4 {
        "4"
    } else if d == 5 {
        "5"
    } else if d == 6 {
        "6"
    } else if d == 7 {
        "7"
    } else if d == 8 {
        "8"
    } else {
        "9"
    };
    proof {
        assert(r@ =~= seq![digit_char(d as nat)]);
    }
    r
}

/// Render `n` in decimal.
pub fn to_decimal(n: u64) -> (r: String)
    ensures
        r@ == dec_seq(n as nat),
    decreases n,
{
    if n < 10 {
        let r = digit_str(n).to_owned();
        proof {
            assert(r@ =~= dec_seq(n as nat));
        }
        r
    } else {
        let q = to_decimal(n / 10);
        let r = q.concat(digit_str(n % 10));
        proof {
            assert(r@ =~= dec_seq(n as nat));
        }
        r
    }
}

/// A validated retrieval identifier: a string of decimal digits naming one
/// content hash.
#[derive(Clone, Debug)]
pub struct SourceHash(pub String);

impl View for SourceHash {
    type V = Seq<char>;

    open spec fn view(&self) -> Seq<char> {
        self.0@
    }
}

impl SourceHash {
    /// The identifier is well formed when it holds digits alone.
    pub open spec fn wf(&self) -> bool {
        all_digits(self@)
    }

    /// Accept an identifier presented by a client, if and only if every one
    /// of its characters is a decimal digit. A pure check: nothing is read
    /// from disk on either outcome.
    pub fn parse(s: &str) -> (r: Result<SourceHash, Error>)
        ensures
            (r is Ok) <==> all_digits(s@),
            (r is Ok) ==> r->Ok_0@ == s@ && r->Ok_0.wf(),
            (r is Err) ==> r->Err_0@ == (crate::outcome::ErrorV::Validation {
                message: "expected a numeric string\n"@,
            }),
    {
        let n = s.unicode_len();
        let mut i: usize = 0;
        while i < n
            invariant
                n == s@.len(),
                i <= n,
                forall|j: int| 0 <= j < i ==> is_digit(#[trigger] s@[j]),
            decreases n - i,
        {
            let c = s.get_char(i);
            let v = c as u32;
            if v < '0' as u32 || v > '9' as u32 {
                return Err(
                    Error::Validation { message: String::from_str("expected a numeric string\n") },
                );
            }
            i = i + 1;
        }
        Ok(SourceHash(s.to_owned()))
    }

    /// The identifier of a source text: the decimal rendering of its content
    /// hash.
    pub fn of_source(source: &str) -> (r: SourceHash)
        ensures
            r@ == dec_seq(fnv64(source.spec_bytes()) as nat),
            r.wf(),
    {
        let h = hash_source(source);
        let r = SourceHash(to_decimal(h));
        proof {
            lemma_dec_seq_all_digits(h as nat);
        }
        r
    }

    /// The identifier's text.
    pub fn as_str(&self) -> (r: &str)
        ensures
            r@ == self@,
    {
        self.0.as_str()
    }
}

} // verus!
