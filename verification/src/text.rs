//! Names and literals as byte strings, and the few string operations that
//! reading declarations needs.

use crate::arena::{alloc_slice_in, lemma_slice_of, slice_of};
use bumpalo::Bump;
use vstd::prelude::*;
use vstd::slice::slice_subrange;
use vstd::string::*;
use vstd::utf8::*;

verus! {

broadcast use lemma_slice_of;

/// The byte that separates the parts of a qualified name.
pub const BACKSLASH: u8 = 0x5c;

pub const COLON: u8 = 0x3a;

pub const DOLLAR: u8 = 0x24;

pub const DOT: u8 = 0x2e;

/// The bytes of a string literal, as a slice.
pub open spec fn lit<'a>(s: &str) -> &'a [u8] {
    slice_of(s.spec_bytes())
}

/// The bytes of a string literal.
pub fn literal(s: &'static str) -> (r: &'static [u8])
    ensures
        r@ == s.spec_bytes(),
        r == lit(s),
{
    s.as_bytes()
}

/// Whether two byte strings are equal.
pub fn same(a: &[u8], b: &[u8]) -> (r: bool)
    ensures
        r == (a@ == b@),
        r == (a == b),
{
    if a.len() != b.len() {
        return false;
    }
    let mut i: usize = 0;
    while i < a.len()
        invariant
            a@.len() == b@.len(),
            i <= a@.len(),
            forall|j: int| 0 <= j < i ==> a@[j] == b@[j],
        decreases a@.len() - i,
    {
        if a[i] != b[i] {
            return false;
        }
        i = i + 1;
    }
    assert(a@ =~= b@);
    assert(slice_of(a@) == a && slice_of(b@) == b);
    true
}

/// Whether a byte string is the given literal.
pub fn is(a: &[u8], b: &'static str) -> (r: bool)
    ensures
        r == (a@ == b.spec_bytes()),
{
    same(a, b.as_bytes())
}

pub open spec fn begins_with(s: Seq<u8>, b: u8) -> bool {
    s.len() > 0 && s[0] == b
}

pub fn starts_with_byte(s: &[u8], b: u8) -> (r: bool)
    ensures
        r == begins_with(s@, b),
{
    s.len() > 0 && s[0] == b
}

/// Whether `s` begins with `prefix`.
pub fn starts_with(s: &[u8], prefix: &[u8]) -> (r: bool)
    ensures
        r == prefix@.is_prefix_of(s@),
{
    if prefix.len() > s.len() {
        return false;
    }
    let head = slice_subrange(s, 0, prefix.len());
    let r = same(prefix, head);
    assert(r ==> prefix@ =~= s@.subrange(0, prefix@.len() as int));
    r
}

pub fn contains_byte(s: &[u8], b: u8) -> (r: bool)
    ensures
        r == s@.contains(b),
{
    let mut i: usize = 0;
    while i < s.len()
        invariant
            i <= s@.len(),
            forall|j: int| 0 <= j < i ==> s@[j] != b,
        decreases s@.len() - i,
    {
        if s[i] == b {
            assert(s@[i as int] == b);
            return true;
        }
        i = i + 1;
    }
    false
}

/// `s` without the bytes `b` that it begins with.
pub open spec fn trim_start(s: Seq<u8>, b: u8) -> Seq<u8>
    decreases s.len(),
{
    if s.len() > 0 && s[0] == b {
        trim_start(s.drop_first(), b)
    } else {
        s
    }
}

pub fn trim_start_byte<'a>(s: &'a [u8], b: u8) -> (r: &'a [u8])
    ensures
        r@ == trim_start(s@, b),
{
    let mut i: usize = 0;
    assert(s@.subrange(0, s@.len() as int) =~= s@);
    while i < s.len() && s[i] == b
        invariant
            i <= s@.len(),
            trim_start(s@, b) == trim_start(s@.subrange(i as int, s@.len() as int), b),
        decreases s@.len() - i,
    {
        assert(s@.subrange(i as int, s@.len() as int).drop_first() =~= s@.subrange(
            i + 1,
            s@.len() as int,
        ));
        i = i + 1;
    }
    slice_subrange(s, i, s.len())
}

/// `s` without the bytes `b` that it ends with.
pub open spec fn trim_end(s: Seq<u8>, b: u8) -> Seq<u8>
    decreases s.len(),
{
    if s.len() > 0 && s.last() == b {
        trim_end(s.drop_last(), b)
    } else {
        s
    }
}

pub fn trim_end_byte<'a>(s: &'a [u8], b: u8) -> (r: &'a [u8])
    ensures
        r@ == trim_end(s@, b),
{
    let mut i: usize = s.len();
    assert(s@.subrange(0, s@.len() as int) =~= s@);
    while i > 0 && s[i - 1] == b
        invariant
            i <= s@.len(),
            trim_end(s@, b) == trim_end(s@.subrange(0, i as int), b),
        decreases i,
    {
        assert(s@.subrange(0, i as int).drop_last() =~= s@.subrange(0, i - 1));
        i = i - 1;
    }
    slice_subrange(s, 0, i)
}

/// What stands behind the last byte `b` of `s`; all of `s` where it has none.
pub open spec fn after_last(s: Seq<u8>, b: u8) -> Seq<u8>
    decreases s.len(),
{
    if s.len() == 0 || s.last() == b {
        Seq::<u8>::empty()
    } else {
        after_last(s.drop_last(), b).push(s.last())
    }
}

/// The last part of a string holds no separator, and is all that stands behind
/// the last one.
pub proof fn law_last_part(s: Seq<u8>, b: u8)
    ensures
        !after_last(s, b).contains(b),
        after_last(s, b).is_suffix_of(s),
        after_last(s, b).len() < s.len() ==> s[s.len() - after_last(s, b).len() - 1] == b,
        !s.contains(b) ==> after_last(s, b) == s,
    decreases s.len(),
{
    if s.len() == 0 || s.last() == b {
        assert(after_last(s, b) =~= s.subrange(s.len() as int, s.len() as int));
        if s.len() > 0 {
            assert(s.contains(b)) by {
                assert(s[s.len() - 1] == b);
            }
        } else {
            assert(after_last(s, b) =~= s);
        }
    } else {
        let t = s.drop_last();
        law_last_part(t, b);
        let r = after_last(t, b);
        assert(r =~= t.subrange(t.len() - r.len(), t.len() as int));
        assert(after_last(s, b) =~= s.subrange(
            s.len() - after_last(s, b).len(),
            s.len() as int,
        ));
        assert forall|i: int| 0 <= i < r.push(s.last()).len() implies r.push(s.last())[i] != b by {
            if i < r.len() {
                assert(r.contains(r[i]));
            }
        }
        if !s.contains(b) {
            assert forall|i: int| 0 <= i < t.len() implies t[i] != b by {
                assert(s.contains(s[i]));
            }
            assert(r == t);
            assert(t.push(s.last()) =~= s);
        }
    }
}

pub fn last_part<'a>(s: &'a [u8], b: u8) -> (r: &'a [u8])
    ensures
        r@ == after_last(s@, b),
{
    let mut i: usize = s.len();
    assert(s@.subrange(0, s@.len() as int) =~= s@);
    assert(after_last(s@, b) =~= after_last(s@, b) + s@.subrange(
        s@.len() as int,
        s@.len() as int,
    ));
    while i > 0 && s[i - 1] != b
        invariant
            i <= s@.len(),
            after_last(s@, b) == after_last(s@.subrange(0, i as int), b) + s@.subrange(
                i as int,
                s@.len() as int,
            ),
        decreases i,
    {
        let ghost head = s@.subrange(0, i as int);
        assert(head.drop_last() =~= s@.subrange(0, i - 1));
        assert(after_last(head, b) + s@.subrange(i as int, s@.len() as int) =~= after_last(
            head.drop_last(),
            b,
        ) + s@.subrange(i - 1, s@.len() as int));
        i = i - 1;
    }
    assert(after_last(s@.subrange(0, i as int), b) =~= Seq::<u8>::empty());
    assert(after_last(s@, b) =~= s@.subrange(i as int, s@.len() as int));
    slice_subrange(s, i, s.len())
}

/// The position of the first byte `b` of `s`; its length where it has none.
pub open spec fn first_at(s: Seq<u8>, b: u8) -> nat
    decreases s.len(),
{
    if s.len() == 0 || s[0] == b {
        0
    } else {
        1 + first_at(s.drop_first(), b)
    }
}

proof fn lemma_first_at(s: Seq<u8>, b: u8, n: int)
    requires
        0 <= n <= s.len(),
        forall|j: int| 0 <= j < n ==> s[j] != b,
        n < s.len() ==> s[n] == b,
    ensures
        first_at(s, b) == n,
    decreases n,
{
    if n > 0 {
        assert(s[0] != b);
        let t = s.drop_first();
        assert forall|j: int| 0 <= j < n - 1 implies t[j] != b by {
            assert(s[j + 1] != b);
        }
        lemma_first_at(t, b, n - 1);
    }
}

/// The parts of `s` between the bytes `b`: one more than there are such bytes.
pub open spec fn split<'a>(s: Seq<u8>, b: u8) -> Seq<&'a [u8]>
    decreases s.len(),
{
    let n = first_at(s, b);
    if n >= s.len() {
        seq![slice_of(s)]
    } else {
        seq![slice_of(s.subrange(0, n as int))] + split(
            s.subrange((n + 1) as int, s.len() as int),
            b,
        )
    }
}

/// The bytes of the parts of `s` between the bytes `b`.
pub open spec fn split_bytes(s: Seq<u8>, b: u8) -> Seq<Seq<u8>>
    decreases s.len(),
{
    let n = first_at(s, b);
    if n >= s.len() {
        seq![s]
    } else {
        seq![s.subrange(0, n as int)] + split_bytes(
            s.subrange((n + 1) as int, s.len() as int),
            b,
        )
    }
}

/// Whether parts have the given bytes.
pub open spec fn have_bytes<'a>(parts: Seq<&'a [u8]>, bytes: Seq<Seq<u8>>) -> bool {
    &&& parts.len() == bytes.len()
    &&& forall|i: int| 0 <= i < parts.len() ==> (#[trigger] parts[i])@ == bytes[i]
}

pub fn split_at_byte<'a>(s: &'a [u8], b: u8) -> (r: Vec<&'a [u8]>)
    ensures
        r@ == split(s@, b),
        have_bytes(r@, split_bytes(s@, b)),
        r@.len() > 0,
{
    let mut r: Vec<&'a [u8]> = Vec::new();
    let mut rest: &'a [u8] = s;
    let ghost mut bytes = Seq::<Seq<u8>>::empty();
    let mut i: usize = 0;
    assert(r@ + split(s@, b) =~= split(s@, b));
    assert(bytes + split_bytes(s@, b) =~= split_bytes(s@, b));
    while i < rest.len()
        invariant
            i <= rest@.len(),
            forall|j: int| 0 <= j < i ==> rest@[j] != b,
            split(s@, b) == r@ + split(rest@, b),
            split_bytes(s@, b) == bytes + split_bytes(rest@, b),
            have_bytes(r@, bytes),
        decreases rest@.len() - i,
    {
        if rest[i] == b {
            proof {
                lemma_first_at(rest@, b, i as int);
            }
            let part = slice_subrange(rest, 0, i);
            let tail = slice_subrange(rest, i + 1, rest.len());
            proof {
                assert(r@ + (seq![part] + split(tail@, b)) =~= r@.push(part) + split(
                    tail@,
                    b,
                ));
                assert(bytes + (seq![part@] + split_bytes(tail@, b)) =~= bytes.push(part@)
                    + split_bytes(tail@, b));
                bytes = bytes.push(part@);
            }
            r.push(part);
            rest = tail;
            i = 0;
        } else {
            i = i + 1;
        }
    }
    proof {
        lemma_first_at(rest@, b, i as int);
        assert(r@ + split(rest@, b) =~= r@.push(rest));
        assert(bytes + split_bytes(rest@, b) =~= bytes.push(rest@));
    }
    r.push(rest);
    r
}

/// Concatenates two byte strings in the arena.
pub fn concat<'a>(arena: &'a Bump, str1: &[u8], str2: &[u8]) -> (r: &'a [u8])
    ensures
        r@ == str1@ + str2@,
{
    let mut buf: Vec<u8> = Vec::new();
    push_bytes(&mut buf, str1);
    push_bytes(&mut buf, str2);
    assert(buf@ =~= str1@ + str2@);
    alloc_slice_in(arena, buf.as_slice())
}

/// Appends a byte string to a buffer.
pub fn push_bytes(buf: &mut Vec<u8>, s: &[u8])
    ensures
        final(buf)@ == old(buf)@ + s@,
{
    let mut i: usize = 0;
    assert(s@.subrange(0, 0) =~= Seq::<u8>::empty());
    assert(buf@ =~= old(buf)@ + s@.subrange(0, 0));
    while i < s.len()
        invariant
            i <= s@.len(),
            buf@ == old(buf)@ + s@.subrange(0, i as int),
        decreases s@.len() - i,
    {
        buf.push(s[i]);
        assert(buf@ =~= old(buf)@ + s@.subrange(0, i + 1));
        i = i + 1;
    }
    assert(s@.subrange(0, i as int) =~= s@);
}

pub fn prefix_slash<'a>(arena: &'a Bump, name: &[u8]) -> (r: &'a [u8])
    ensures
        r@ == seq![BACKSLASH] + name@,
{
    prefix_byte(arena, BACKSLASH, name)
}

pub fn prefix_colon<'a>(arena: &'a Bump, name: &[u8]) -> (r: &'a [u8])
    ensures
        r@ == seq![COLON] + name@,
{
    prefix_byte(arena, COLON, name)
}

fn prefix_byte<'a>(arena: &'a Bump, b: u8, name: &[u8]) -> (r: &'a [u8])
    ensures
        r@ == seq![b] + name@,
{
    let mut buf: Vec<u8> = Vec::new();
    buf.push(b);
    push_bytes(&mut buf, name);
    assert(buf@ =~= seq![b] + name@);
    alloc_slice_in(arena, buf.as_slice())
}

/// The name of a variable without its dollar signs.
pub fn strip_dollar_prefix<'a>(name: &'a [u8]) -> (r: &'a [u8])
    ensures
        r@ == trim_start(name@, DOLLAR),
{
    trim_start_byte(name, DOLLAR)
}

/// The lower-case form of an ASCII letter; any other byte as it is.
pub open spec fn ascii_lower(b: u8) -> u8 {
    if 0x41 <= b <= 0x5a {
        (b + 0x20) as u8
    } else {
        b
    }
}

/// Equality up to the case of ASCII letters.
pub open spec fn equal_ignoring_case(a: Seq<u8>, b: Seq<u8>) -> bool {
    &&& a.len() == b.len()
    &&& forall|i: int| 0 <= i < a.len() ==> ascii_lower(#[trigger] a[i]) == ascii_lower(b[i])
}

pub fn eq_ignore_ascii_case(a: &[u8], b: &[u8]) -> (r: bool)
    ensures
        r == equal_ignoring_case(a@, b@),
{
    if a.len() != b.len() {
        return false;
    }
    let mut i: usize = 0;
    while i < a.len()
        invariant
            a@.len() == b@.len(),
            i <= a@.len(),
            forall|j: int| 0 <= j < i ==> ascii_lower(#[trigger] a@[j]) == ascii_lower(b@[j]),
        decreases a@.len() - i,
    {
        if lower_byte(a[i]) != lower_byte(b[i]) {
            assert(ascii_lower(a@[i as int]) != ascii_lower(b@[i as int]));
            return false;
        }
        i = i + 1;
    }
    true
}

fn lower_byte(b: u8) -> (r: u8)
    ensures
        r == ascii_lower(b),
{
    if 0x41 <= b && b <= 0x5a {
        b + 0x20
    } else {
        b
    }
}

/// The order of byte strings: by the first byte in which they differ, and
/// where there is none, the shorter one first.
pub open spec fn lex_less(a: Seq<u8>, b: Seq<u8>) -> bool
    decreases a.len(),
{
    if b.len() == 0 {
        false
    } else if a.len() == 0 {
        true
    } else if a[0] != b[0] {
        a[0] < b[0]
    } else {
        lex_less(a.drop_first(), b.drop_first())
    }
}

pub fn less(a: &[u8], b: &[u8]) -> (r: bool)
    ensures
        r == lex_less(a@, b@),
{
    let mut i: usize = 0;
    assert(a@.skip(0) =~= a@);
    assert(b@.skip(0) =~= b@);
    while i < a.len() && i < b.len()
        invariant
            i <= a@.len(),
            i <= b@.len(),
            lex_less(a@, b@) == lex_less(a@.skip(i as int), b@.skip(i as int)),
        decreases a@.len() - i,
    {
        if a[i] != b[i] {
            return a[i] < b[i];
        }
        assert(a@.skip(i as int).drop_first() =~= a@.skip(i + 1));
        assert(b@.skip(i as int).drop_first() =~= b@.skip(i + 1));
        i = i + 1;
    }
    i < b.len()
}

/// Of two byte strings one is the smaller, or they are equal.
pub proof fn lemma_lex_total(a: Seq<u8>, b: Seq<u8>)
    ensures
        lex_less(a, b) || lex_less(b, a) || a == b,
        !(lex_less(a, b) && lex_less(b, a)),
        !lex_less(a, a),
    decreases a.len(),
{
    if a.len() > 0 {
        lemma_lex_total(a.drop_first(), a.drop_first());
    }
    if a.len() > 0 && b.len() > 0 && a[0] == b[0] {
        lemma_lex_total(a.drop_first(), b.drop_first());
        if a.drop_first() == b.drop_first() {
            assert(a =~= seq![a[0]] + a.drop_first());
            assert(b =~= seq![b[0]] + b.drop_first());
        }
    } else if a.len() == 0 && b.len() == 0 {
        assert(a =~= b);
    }
}

pub proof fn lemma_lex_transitive(a: Seq<u8>, b: Seq<u8>, c: Seq<u8>)
    requires
        lex_less(a, b),
        lex_less(b, c),
    ensures
        lex_less(a, c),
    decreases a.len(),
{
    if a.len() > 0 && a[0] == b[0] && b[0] == c[0] {
        lemma_lex_transitive(a.drop_first(), b.drop_first(), c.drop_first());
    }
}

/// Trimming takes bytes of one kind away and no others, from the front, as long
/// as there are any.
pub proof fn law_trimmed_front(s: Seq<u8>, b: u8)
    ensures
        trim_start(s, b).is_suffix_of(s),
        !begins_with(trim_start(s, b), b),
        forall|i: int| 0 <= i < s.len() - trim_start(s, b).len() ==> #[trigger] s[i] == b,
    decreases s.len(),
{
    if s.len() > 0 && s[0] == b {
        let rest = s.drop_first();
        law_trimmed_front(rest, b);
        let r = trim_start(rest, b);
        assert(r =~= rest.subrange(rest.len() - r.len(), rest.len() as int));
        assert(r =~= s.subrange(s.len() - r.len(), s.len() as int));
        assert forall|i: int| 0 <= i < s.len() - r.len() implies #[trigger] s[i] == b by {
            if i > 0 {
                assert(rest[i - 1] == s[i]);
            }
        }
    } else {
        assert(s =~= s.subrange(0, s.len() as int));
    }
}

/// Trimming the end takes bytes of one kind away and no others, as long as there
/// are any.
pub proof fn law_trimmed_end(s: Seq<u8>, b: u8)
    ensures
        trim_end(s, b).is_prefix_of(s),
        trim_end(s, b).len() > 0 ==> trim_end(s, b).last() != b,
        forall|i: int| trim_end(s, b).len() <= i < s.len() ==> #[trigger] s[i] == b,
    decreases s.len(),
{
    if s.len() > 0 && s.last() == b {
        let rest = s.drop_last();
        law_trimmed_end(rest, b);
        let r = trim_end(rest, b);
        assert(r =~= rest.subrange(0, r.len() as int));
        assert(r =~= s.subrange(0, r.len() as int));
        assert forall|i: int| r.len() <= i < s.len() implies #[trigger] s[i] == b by {
            if i < rest.len() {
                assert(rest[i] == s[i]);
            }
        }
    } else {
        assert(s =~= s.subrange(0, s.len() as int));
    }
}

proof fn lemma_first_is_there(s: Seq<u8>, b: u8)
    ensures
        first_at(s, b) <= s.len(),
        first_at(s, b) < s.len() ==> s[first_at(s, b) as int] == b,
        forall|i: int| 0 <= i < first_at(s, b) ==> #[trigger] s[i] != b,
    decreases s.len(),
{
    if s.len() > 0 && s[0] != b {
        let rest = s.drop_first();
        lemma_first_is_there(rest, b);
        assert forall|i: int| 0 <= i < first_at(s, b) implies #[trigger] s[i] != b by {
            if i > 0 {
                assert(rest[i - 1] == s[i]);
            }
        }
    }
}

/// Parts put together with a separator between them.
pub open spec fn joined(parts: Seq<Seq<u8>>, b: u8) -> Seq<u8>
    decreases parts.len(),
{
    if parts.len() == 0 {
        Seq::<u8>::empty()
    } else if parts.len() == 1 {
        parts[0]
    } else {
        parts[0] + seq![b] + joined(parts.drop_first(), b)
    }
}

/// Splitting loses nothing: no part holds the separator, and put together again
/// they are the whole.
pub proof fn law_split_parts(s: Seq<u8>, b: u8)
    ensures
        split_bytes(s, b).len() > 0,
        joined(split_bytes(s, b), b) == s,
        forall|i: int|
            0 <= i < split_bytes(s, b).len() ==> !(#[trigger] split_bytes(s, b)[i]).contains(b),
    decreases s.len(),
{
    let n = first_at(s, b);
    lemma_first_is_there(s, b);
    if n >= s.len() {
        assert forall|i: int| 0 <= i < s.len() implies s[i] != b by {}
    } else {
        let front = s.subrange(0, n as int);
        let rest = s.subrange((n + 1) as int, s.len() as int);
        law_split_parts(rest, b);
        let parts = split_bytes(s, b);
        assert(parts.drop_first() =~= split_bytes(rest, b));
        assert(front + seq![b] + rest =~= s);
        assert forall|i: int| 0 <= i < parts.len() implies !(#[trigger] parts[i]).contains(b) by {
            if i > 0 {
                assert(parts[i] == split_bytes(rest, b)[i - 1]);
            } else {
                assert forall|j: int| 0 <= j < front.len() implies front[j] != b by {
                    assert(front[j] == s[j]);
                }
            }
        }
    }
}

/// The parts of a text as slices stand for the parts of it.
pub proof fn law_split_slices<'a>(s: Seq<u8>, b: u8)
    ensures
        split::<'a>(s, b).len() == split_bytes(s, b).len(),
        forall|i: int|
            0 <= i < split::<'a>(s, b).len() ==> #[trigger] split::<'a>(s, b)[i] == slice_of::<'a>(
                split_bytes(s, b)[i],
            ),
    decreases s.len(),
{
    let n = first_at(s, b);
    if n < s.len() {
        let rest = s.subrange((n + 1) as int, s.len() as int);
        law_split_slices(rest, b);
        assert forall|i: int| 0 <= i < split::<'a>(s, b).len() implies #[trigger] split::<'a>(
            s,
            b,
        )[i] == slice_of::<'a>(split_bytes(s, b)[i]) by {
            if i > 0 {
                assert(split::<'a>(s, b)[i] == split::<'a>(rest, b)[i - 1]);
                assert(split_bytes(s, b)[i] == split_bytes(rest, b)[i - 1]);
            }
        }
    }
}

/// Only the case of letters is ignored: an upper-case letter is equal to the
/// lower-case one, and every other byte to itself alone.
pub proof fn law_ignoring_case(a: u8, b: u8)
    ensures
        0x41 <= a <= 0x5a ==> ascii_lower(a) == a + 0x20,
        !(0x41 <= a <= 0x5a) ==> ascii_lower(a) == a,
        equal_ignoring_case(seq![a], seq![b]) <==> a == b || (0x41 <= a <= 0x5a && b == a + 0x20)
            || (0x41 <= b <= 0x5a && a == b + 0x20),
{
    let x = seq![a];
    let y = seq![b];
    assert(x[0] == a && y[0] == b);
    if equal_ignoring_case(x, y) {
        assert(ascii_lower(x[0]) == ascii_lower(y[0]));
    }
}

/// Byte strings are ordered by the first byte in which they differ; where one is
/// the beginning of the other, the shorter one comes first.
pub proof fn law_order_of_strings(common: Seq<u8>, a: Seq<u8>, b: Seq<u8>)
    ensures
        a.len() > 0 && b.len() > 0 && a[0] != b[0] ==> (lex_less(common + a, common + b) <==> a[0]
            < b[0]),
        a.len() > 0 ==> lex_less(common, common + a) && !lex_less(common + a, common),
        !lex_less(common, common),
    decreases common.len(),
{
    if common.len() == 0 {
        assert(common + a =~= a);
        assert(common + b =~= b);
    } else {
        let rest = common.drop_first();
        law_order_of_strings(rest, a, b);
        assert((common + a).drop_first() =~= rest + a);
        assert((common + b).drop_first() =~= rest + b);
    }
}

/// Parts that have given bytes are as many, and each has its own.
pub proof fn law_parts_with_bytes<'a>(parts: Seq<&'a [u8]>, bytes: Seq<Seq<u8>>)
    ensures
        have_bytes(parts, bytes) <==> bytes == Seq::new(parts.len(), |i: int| parts[i]@),
{
    if have_bytes(parts, bytes) {
        assert(bytes =~= Seq::new(parts.len(), |i: int| parts[i]@));
    }
}

} // verus!
