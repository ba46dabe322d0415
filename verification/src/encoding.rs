//! Decoding of source bytes: UTF-8, the case of a first letter, and decimal
//! integers.

use crate::arena::{alloc_slice_in, lemma_slice_of, slice_of};
use bumpalo::Bump;
use vstd::prelude::*;
use vstd::slice::slice_subrange;
use vstd::string::*;
use vstd::utf8::*;

verus! {

broadcast use lemma_slice_of;

/// What `bumpalo::collections::String::from_utf8_lossy_in` makes of the given
/// bytes.
pub uninterp spec fn lossy_in_arena(bytes: Seq<u8>) -> Seq<u8>;

/// What `std::string::String::from_utf8_lossy` makes of the given bytes.
pub uninterp spec fn lossy_owned(bytes: Seq<u8>) -> Seq<u8>;

/// Whether a character has the Unicode property Lowercase, as
/// `char::is_lowercase` answers it.
pub uninterp spec fn has_lowercase_property(c: char) -> bool;

/// Calls `std::str::from_utf8`. The contract claims that it succeeds on
/// exactly the well-formed UTF-8 and then hands back the same bytes.
#[verifier::external_body]
fn checked_utf8<'b>(bytes: &'b [u8]) -> (r: Option<&'b str>)
    ensures
        r is Some <==> valid_utf8(bytes@),
        r matches Some(s) ==> s.spec_bytes() == bytes@,
{
    std::str::from_utf8(bytes).ok()
}

/// Calls `bumpalo::collections::String::from_utf8_lossy_in`, which replaces
/// ill-formed parts by the replacement character. The contract names its
/// result, and claims that this is well-formed UTF-8, and the bytes themselves
/// where they were well-formed.
#[verifier::external_body]
fn lossy_utf8_in<'a>(arena: &'a Bump, bytes: &[u8]) -> (r: &'a [u8])
    ensures
        r@ == lossy_in_arena(bytes@),
        valid_utf8(r@),
        valid_utf8(bytes@) ==> r@ == bytes@,
{
    bumpalo::collections::String::from_utf8_lossy_in(bytes, arena).into_bump_str().as_bytes()
}

/// Calls `std::string::String::from_utf8_lossy`. The contract names its result,
/// and claims that this is well-formed UTF-8, and the bytes themselves where
/// they were well-formed.
#[verifier::external_body]
fn lossy_utf8_owned(bytes: &[u8]) -> (r: Vec<u8>)
    ensures
        r@ == lossy_owned(bytes@),
        valid_utf8(r@),
        valid_utf8(bytes@) ==> r@ == bytes@,
{
    std::string::String::from_utf8_lossy(bytes).into_owned().into_bytes()
}

/// Calls `char::is_lowercase`. The contract names its result, and claims that
/// of the ASCII characters exactly the letters a to z are lower case.
#[verifier::external_body]
fn is_lowercase(c: char) -> (r: bool)
    ensures
        r == has_lowercase_property(c),
        (c as u32) < 0x80 ==> r == (0x61 <= c as u32 <= 0x7a),
{
    c.is_lowercase()
}

/// Whether bytes are well-formed UTF-8.
pub fn is_utf8(bytes: &[u8]) -> (r: bool)
    ensures
        r == valid_utf8(bytes@),
{
    checked_utf8(bytes).is_some()
}

/// The text that stands for source bytes: the bytes themselves where they are
/// well-formed UTF-8, else what the lossy conversion makes of them.
pub open spec fn decoded(bytes: Seq<u8>) -> Seq<u8> {
    if valid_utf8(bytes) {
        bytes
    } else {
        lossy_in_arena(bytes)
    }
}

/// Decodes bytes that live in the arena already: they are copied only where
/// they are not well-formed.
pub fn decode_in<'a>(arena: &'a Bump, bytes: &'a [u8]) -> (r: &'a [u8])
    ensures
        r == slice_of(decoded(bytes@)),
        r@ == decoded(bytes@),
        valid_utf8(r@),
{
    if is_utf8(bytes) {
        bytes
    } else {
        lossy_utf8_in(arena, bytes)
    }
}

/// Copies bytes that are not known to be text, decoded, into the arena.
pub fn lossy_copy_in<'a>(arena: &'a Bump, bytes: &[u8]) -> (r: &'a [u8])
    ensures
        r == slice_of(lossy_owned(bytes@)),
        r@ == lossy_owned(bytes@),
        valid_utf8(bytes@) ==> r@ == bytes@,
{
    let owned = lossy_utf8_owned(bytes);
    alloc_slice_in(arena, owned.as_slice())
}

/// The lossy conversion of bytes that are not well-formed, in the arena.
pub fn lossy_decode_in<'a>(arena: &'a Bump, bytes: &[u8]) -> (r: &'a [u8])
    ensures
        r == slice_of(lossy_in_arena(bytes@)),
        r@ == lossy_in_arena(bytes@),
        valid_utf8(r@),
{
    lossy_utf8_in(arena, bytes)
}

/// Whether a text begins with a lower-case letter.
pub open spec fn begins_lowercase(bytes: Seq<u8>) -> bool {
    &&& valid_utf8(bytes)
    &&& decode_utf8(bytes).len() > 0
    &&& has_lowercase_property(decode_utf8(bytes)[0])
}

pub fn starts_with_lowercase(bytes: &[u8]) -> (r: bool)
    ensures
        r == begins_lowercase(bytes@),
        bytes@.len() > 0 && bytes@[0] < 0x80 && valid_utf8(bytes@) ==> r == (0x61 <= bytes@[0]
            <= 0x7a),
{
    match checked_utf8(bytes) {
        Some(s) => {
            proof {
                encode_utf8_decode_utf8(s@);
                assert(decode_utf8(bytes@) == s@);
                if bytes@.len() > 0 {
                    decode_utf8_first_scalar(bytes@);
                    let b = bytes@[0];
                    assert(b < 0x80 ==> b & 0x7f == b) by (bit_vector);
                }
            }
            if s.unicode_len() == 0 {
                false
            } else {
                is_lowercase(s.get_char(0))
            }
        },
        None => false,
    }
}

/// Whether a byte string consists of decimal digits.
pub open spec fn all_digits(s: Seq<u8>) -> bool {
    forall|i: int| 0 <= i < s.len() ==> 0x30 <= #[trigger] s[i] <= 0x39
}

/// The number that decimal digits denote.
pub open spec fn decimal(s: Seq<u8>) -> nat
    decreases s.len(),
{
    if s.len() == 0 {
        0
    } else {
        decimal(s.drop_last()) * 10 + (s.last() - 0x30) as nat
    }
}

/// The integer that a byte string denotes: an optional sign and one or more
/// decimal digits whose value a machine integer can hold.
pub open spec fn integer(s: Seq<u8>) -> Option<int> {
    let negative = s.len() > 0 && s[0] == 0x2d;
    let signed = negative || s.len() > 0 && s[0] == 0x2b;
    let digits = if signed {
        s.drop_first()
    } else {
        s
    };
    let value = if negative {
        -(decimal(digits) as int)
    } else {
        decimal(digits) as int
    };
    if digits.len() > 0 && all_digits(digits) && isize::MIN <= value <= isize::MAX {
        Some(value)
    } else {
        None
    }
}

proof fn lemma_decimal_monotone(s: Seq<u8>, n: int, m: int)
    requires
        0 <= n <= m <= s.len(),
        all_digits(s.take(m)),
    ensures
        decimal(s.take(n)) <= decimal(s.take(m)),
    decreases m - n,
{
    if n < m {
        let t = s.take(m);
        assert(t.drop_last() =~= s.take(m - 1));
        assert(0x30 <= t[m - 1] <= 0x39);
        assert(all_digits(s.take(m - 1))) by {
            assert forall|i: int| 0 <= i < m - 1 implies 0x30 <= #[trigger] s.take(m - 1)[i]
                <= 0x39 by {
                assert(s.take(m - 1)[i] == t[i]);
            }
        }
        lemma_decimal_monotone(s, n, m - 1);
    }
}

/// Reads a decimal integer.
pub fn parse_integer(s: &[u8]) -> (r: Option<isize>)
    ensures
        match r {
            Some(value) => integer(s@) == Some(value as int),
            None => integer(s@) is None,
        },
{
    let negative = s.len() > 0 && s[0] == 0x2d;
    let signed = negative || s.len() > 0 && s[0] == 0x2b;
    let digits = if signed {
        slice_subrange(s, 1, s.len())
    } else {
        s
    };
    proof {
        if signed {
            assert(digits@ =~= s@.drop_first());
        }
    }
    if digits.len() == 0 {
        return None;
    }
    // One more than the largest absolute value that is needed; past it the
    // value only grows.
    let limit: u128 = 0x1_0000_0000_0000_0000;
    let mut value: u128 = 0;
    let mut i: usize = 0;
    assert(digits@.take(0) =~= Seq::<u8>::empty());
    while i < digits.len()
        invariant
            limit == 0x1_0000_0000_0000_0000,
            i <= digits@.len(),
            all_digits(digits@.take(i as int)),
            value < limit ==> value == decimal(digits@.take(i as int)),
            value >= limit ==> decimal(digits@.take(i as int)) >= limit,
            value < limit * 10 + 10,
            integer(s@) is Some ==> all_digits(digits@),
        decreases digits@.len() - i,
    {
        let d = digits[i];
        if d < 0x30 || d > 0x39 {
            assert(!all_digits(digits@)) by {
                assert(!(0x30 <= digits@[i as int] <= 0x39));
            }
            return None;
        }
        proof {
            let next = digits@.take(i + 1);
            assert(next.drop_last() =~= digits@.take(i as int));
            assert(next.last() == d);
            assert(all_digits(next)) by {
                assert forall|j: int| 0 <= j < next.len() implies 0x30 <= #[trigger] next[j]
                    <= 0x39 by {
                    if j < i {
                        assert(next[j] == digits@.take(i as int)[j]);
                    }
                }
            }
            lemma_decimal_monotone(digits@, i as int, i + 1);
        }
        if value < limit {
            value = value * 10 + (d - 0x30) as u128;
        }
        i = i + 1;
    }
    assert(digits@.take(i as int) =~= digits@);
    if value >= limit {
        return None;
    }
    let magnitude: i128 = value as i128;
    let value: i128 = if negative {
        -magnitude
    } else {
        magnitude
    };
    if (isize::MIN as i128) <= value && value <= (isize::MAX as i128) {
        Some(value as isize)
    } else {
        None
    }
}

/// A digit more makes a number ten times as large, and adds the digit.
pub proof fn law_decimal_digits(s: Seq<u8>, digit: u8)
    requires
        0x30 <= digit <= 0x39,
    ensures
        decimal(Seq::<u8>::empty()) == 0,
        decimal(s.push(digit)) == 10 * decimal(s) + (digit - 0x30),
{
    assert(s.push(digit).drop_last() =~= s);
}

/// A minus sign in front of digits denotes the negative number, a plus sign the
/// number itself. Without a digit, or with anything but digits, there is none.
pub proof fn law_signed_integers(digits: Seq<u8>)
    requires
        digits.len() > 0,
        all_digits(digits),
    ensures
        decimal(digits) <= isize::MAX ==> integer(digits) == Some(decimal(digits) as int)
            && integer(seq![0x2bu8] + digits) == Some(decimal(digits) as int) && integer(
            seq![0x2du8] + digits,
        ) == Some(-(decimal(digits) as int)),
        decimal(digits) > isize::MAX ==> integer(digits) is None,
        integer(Seq::<u8>::empty()) is None,
        integer(seq![0x2du8]) is None,
        integer(seq![0x2bu8]) is None,
{
    assert((seq![0x2bu8] + digits).drop_first() =~= digits);
    assert((seq![0x2du8] + digits).drop_first() =~= digits);
    assert(0x30 <= digits[0] <= 0x39);
    assert(seq![0x2du8].drop_first().len() == 0);
    assert(seq![0x2bu8].drop_first().len() == 0);
}

/// What denotes an integer is made of digits, but for a sign in front.
pub proof fn law_integers_are_digits(s: Seq<u8>, i: int)
    requires
        integer(s) is Some,
        0 <= i < s.len(),
    ensures
        0x30 <= s[i] <= 0x39 || (i == 0 && s.len() > 1 && (s[0] == 0x2d || s[0] == 0x2b)),
{
    if s[0] == 0x2d || s[0] == 0x2b {
        if i > 0 {
            assert(s.drop_first()[i - 1] == s[i]);
        }
    }
}

/// Text that is well-formed is kept byte for byte.
pub proof fn law_text_is_kept(bytes: Seq<u8>)
    requires
        valid_utf8(bytes),
    ensures
        decoded(bytes) == bytes,
{
}

} // verus!
