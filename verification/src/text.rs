//! Small helpers on strings, shared by the other modules.

use vstd::prelude::*;
use vstd::string::{StringExecFns, StringSliceAdditionalSpecFns};

verus! {

/// Appends one character to a string (`String::push`): the text afterwards is
/// the text before followed by `c`.
#[verifier::external_body]
pub(crate) fn push_char(s: &mut String, c: char)
    ensures
        final(s)@ == old(s)@.push(c),
{
    s.push(c);
}

/// Two texts with the same UTF-8 encoding are the same text.
pub proof fn lemma_utf8_injective(a: Seq<char>, b: Seq<char>)
    requires
        vstd::utf8::encode_utf8(a) == vstd::utf8::encode_utf8(b),
    ensures
        a == b,
{
    vstd::utf8::encode_utf8_decode_utf8(a);
    vstd::utf8::encode_utf8_decode_utf8(b);
}

/// Compares two string slices character for character.
pub fn str_eq(a: &str, b: &str) -> (same: bool)
    ensures
        same == (a@ == b@),
{
    let x = a.as_bytes();
    let y = b.as_bytes();
    if x.len() != y.len() {
        return false;
    }
    let n = x.len();
    let mut i: usize = 0;
    while i < n
        invariant
            i <= n,
            n == x@.len(),
            n == y@.len(),
            x@ == a.spec_bytes(),
            y@ == b.spec_bytes(),
            forall|k: int| 0 <= k < i ==> x@[k] == y@[k],
        decreases n - i,
    {
        if x[i] != y[i] {
            return false;
        }
        i += 1;
    }
    proof {
        assert(x@ =~= y@);
        lemma_utf8_injective(a@, b@);
    }
    true
}

/// The decimal digits of a natural number, most significant first; `"0"` for
/// zero.
pub open spec fn decimal_digits(n: nat) -> Seq<char>
    decreases n,
{
    if n < 10 {
        seq![((48 + n) as u8) as char]
    } else {
        decimal_digits(n / 10).push(((48 + n % 10) as u8) as char)
    }
}

/// The decimal text of an integer: a minus sign for a negative one, then the
/// digits of its magnitude.
pub open spec fn decimal(n: int) -> Seq<char> {
    if n < 0 {
        seq!['-'] + decimal_digits((-n) as nat)
    } else {
        decimal_digits(n as nat)
    }
}

/// Writes a natural number in decimal.
pub fn decimal_u64(n: u64) -> (s: String)
    ensures
        s@ == decimal_digits(n as nat),
    decreases n,
{
    if n < 10 {
        let mut s = String::new();
        push_char(&mut s, (48 + n) as u8 as char);
        assert(s@ =~= decimal_digits(n as nat));
        s
    } else {
        let mut s = decimal_u64(n / 10);
        push_char(&mut s, (48 + n % 10) as u8 as char);
        s
    }
}

/// Writes an integer in decimal.
pub fn decimal_i64(n: i64) -> (s: String)
    ensures
        s@ == decimal(n as int),
{
    if n < 0 {
        let magnitude: u64 = if n == i64::MIN {
            0x8000_0000_0000_0000u64
        } else {
            (-n) as u64
        };
        let mut s = String::new();
        push_char(&mut s, '-');
        let digits = decimal_u64(magnitude);
        s.append(digits.as_str());
        assert(s@ =~= decimal(n as int));
        s
    } else {
        decimal_u64(n as u64)
    }
}

} // verus!
