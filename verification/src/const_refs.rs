//! The set of the class constants that an initializer refers to.

use crate::arena::{lemma_items_of, lemma_slice_of, slice_of, Items};
use crate::decls::{ClassConstFrom, ClassConstRef};
use crate::text::{lemma_lex_total, lemma_lex_transitive, less, lex_less, same};
use bumpalo::Bump;
use vstd::prelude::*;

verus! {

broadcast use {lemma_items_of, lemma_slice_of};

/// The order of the classes that constants belong to: `self` first, the others
/// by their names.
pub open spec fn from_less<'a>(a: ClassConstFrom<'a>, b: ClassConstFrom<'a>) -> bool {
    match (a, b) {
        (_, ClassConstFrom::Self_) => false,
        (ClassConstFrom::Self_, ClassConstFrom::From(_)) => true,
        (ClassConstFrom::From(x), ClassConstFrom::From(y)) => lex_less(x@, y@),
    }
}

/// The order of references: by class, and within a class by constant.
pub open spec fn ref_less<'a>(a: ClassConstRef<'a>, b: ClassConstRef<'a>) -> bool {
    from_less(a.0, b.0) || a.0 == b.0 && lex_less(a.1@, b.1@)
}

/// Strictly ascending, so that nothing occurs twice.
pub open spec fn ascending<'a>(s: Seq<ClassConstRef<'a>>) -> bool {
    forall|i: int, j: int| 0 <= i < j < s.len() ==> ref_less(#[trigger] s[i], #[trigger] s[j])
}

/// An ascending sequence with one more element, in its place.
pub open spec fn inserted<'a>(s: Seq<ClassConstRef<'a>>, x: ClassConstRef<'a>) -> Seq<
    ClassConstRef<'a>,
>
    decreases s.len(),
{
    if s.len() == 0 || ref_less(s.last(), x) {
        s.push(x)
    } else if s.last() == x {
        s
    } else {
        inserted(s.drop_last(), x).push(s.last())
    }
}

pub proof fn lemma_ref_total<'a>(a: ClassConstRef<'a>, b: ClassConstRef<'a>)
    ensures
        ref_less(a, b) || ref_less(b, a) || a == b,
        !(ref_less(a, b) && ref_less(b, a)),
        !ref_less(a, a),
{
    lemma_lex_total(a.1@, b.1@);
    assert(slice_of(a.1@) == a.1 && slice_of(b.1@) == b.1);
    match (a.0, b.0) {
        (ClassConstFrom::From(x), ClassConstFrom::From(y)) => {
            lemma_lex_total(x@, y@);
            assert(slice_of(x@) == x && slice_of(y@) == y);
        },
        _ => {},
    }
    lemma_lex_total(a.1@, a.1@);
    match a.0 {
        ClassConstFrom::From(x) => lemma_lex_total(x@, x@),
        _ => {},
    }
}

pub proof fn lemma_ref_transitive<'a>(
    a: ClassConstRef<'a>,
    b: ClassConstRef<'a>,
    c: ClassConstRef<'a>,
)
    requires
        ref_less(a, b),
        ref_less(b, c),
    ensures
        ref_less(a, c),
{
    if a.0 == b.0 && b.0 == c.0 {
        if lex_less(a.1@, b.1@) && lex_less(b.1@, c.1@) {
            lemma_lex_transitive(a.1@, b.1@, c.1@);
        }
    }
    match (a.0, b.0, c.0) {
        (ClassConstFrom::From(x), ClassConstFrom::From(y), ClassConstFrom::From(z)) => {
            if lex_less(x@, y@) && lex_less(y@, z@) {
                lemma_lex_transitive(x@, y@, z@);
            }
        },
        _ => {},
    }
}

/// Inserting keeps the order, keeps what was there, and adds the element and
/// nothing else.
pub proof fn law_inserted<'a>(s: Seq<ClassConstRef<'a>>, x: ClassConstRef<'a>)
    requires
        ascending(s),
    ensures
        ascending(inserted(s, x)),
        forall|y: ClassConstRef<'a>| #[trigger] inserted(s, x).contains(y) <==> s.contains(y) || y == x,
    decreases s.len(),
{
    let r = inserted(s, x);
    if s.len() == 0 || ref_less(s.last(), x) {
        assert forall|i: int, j: int| 0 <= i < j < r.len() implies ref_less(
            #[trigger] r[i],
            #[trigger] r[j],
        ) by {
            if j == s.len() && i < s.len() - 1 {
                assert(ref_less(s[i], s[s.len() - 1]));
                lemma_ref_transitive(s[i], s.last(), x);
            }
        }
        assert forall|y: ClassConstRef<'a>| #[trigger] r.contains(y) <==> s.contains(y) || y == x by {
            if s.contains(y) {
                let i = choose|i: int| 0 <= i < s.len() && s[i] == y;
                assert(r[i] == y);
            }
            if y == x {
                assert(r[s.len() as int] == y);
            }
        }
    } else if s.last() == x {
        assert(s.contains(x)) by {
            assert(s[s.len() - 1] == x);
        }
    } else {
        let t = s.drop_last();
        law_inserted(t, x);
        let u = inserted(t, x);
        lemma_ref_total(s.last(), x);
        assert forall|i: int, j: int| 0 <= i < j < r.len() implies ref_less(
            #[trigger] r[i],
            #[trigger] r[j],
        ) by {
            if j < u.len() {
                assert(ref_less(u[i], u[j]));
            } else {
                assert(u.contains(u[i]));
                if t.contains(u[i]) {
                    let k = choose|k: int| 0 <= k < t.len() && t[k] == u[i];
                    assert(ref_less(s[k], s[s.len() - 1]));
                }
            }
        }
        assert forall|y: ClassConstRef<'a>| #[trigger] r.contains(y) <==> s.contains(y) || y == x by {
            if r.contains(y) {
                let i = choose|i: int| 0 <= i < r.len() && r[i] == y;
                if i < u.len() {
                    assert(u.contains(y));
                    if t.contains(y) {
                        let k = choose|k: int| 0 <= k < t.len() && t[k] == y;
                        assert(s[k] == y);
                    }
                } else {
                    assert(s[s.len() - 1] == y);
                }
            }
            if s.contains(y) {
                let k = choose|k: int| 0 <= k < s.len() && s[k] == y;
                if k < t.len() {
                    assert(t[k] == y);
                    assert(t.contains(y));
                    assert(u.contains(y));
                    let i = choose|i: int| 0 <= i < u.len() && u[i] == y;
                    assert(r[i] == y);
                } else {
                    assert(r[u.len() as int] == y);
                }
            }
            if y == x {
                assert(u.contains(y));
                let i = choose|i: int| 0 <= i < u.len() && u[i] == y;
                assert(r[i] == y);
            }
        }
    }
}

/// Inserting the same element again changes nothing.
pub proof fn law_inserted_twice<'a>(s: Seq<ClassConstRef<'a>>, x: ClassConstRef<'a>)
    requires
        ascending(s),
    ensures
        inserted(inserted(s, x), x) == inserted(s, x),
    decreases s.len(),
{
    let r = inserted(s, x);
    if s.len() == 0 || ref_less(s.last(), x) {
        lemma_ref_total(x, x);
    } else if s.last() != x {
        law_inserted_twice(s.drop_last(), x);
        assert(r.drop_last() =~= inserted(s.drop_last(), x));
    }
}

fn from_is_less<'a>(a: ClassConstFrom<'a>, b: ClassConstFrom<'a>) -> (r: bool)
    ensures
        r == from_less(a, b),
{
    match (a, b) {
        (_, ClassConstFrom::Self_) => false,
        (ClassConstFrom::Self_, ClassConstFrom::From(_)) => true,
        (ClassConstFrom::From(x), ClassConstFrom::From(y)) => less(x, y),
    }
}

fn same_from<'a>(a: ClassConstFrom<'a>, b: ClassConstFrom<'a>) -> (r: bool)
    ensures
        r == (a == b),
{
    match (a, b) {
        (ClassConstFrom::Self_, ClassConstFrom::Self_) => true,
        (ClassConstFrom::From(x), ClassConstFrom::From(y)) => same(x, y),
        _ => false,
    }
}

fn ref_is_less<'a>(a: ClassConstRef<'a>, b: ClassConstRef<'a>) -> (r: bool)
    ensures
        r == ref_less(a, b),
{
    from_is_less(a.0, b.0) || same_from(a.0, b.0) && less(a.1, b.1)
}

fn same_ref<'a>(a: ClassConstRef<'a>, b: ClassConstRef<'a>) -> (r: bool)
    ensures
        r == (a == b),
{
    same_from(a.0, b.0) && same(a.1, b.1)
}

/// The set with one more reference.
pub fn insert_ref<'a>(
    arena: &'a Bump,
    refs: Items<'a, ClassConstRef<'a>>,
    x: ClassConstRef<'a>,
) -> (r: Items<'a, ClassConstRef<'a>>)
    ensures
        r == Items::of(inserted(refs@, x)),
        r@ == inserted(refs@, x),
{
    let len = refs.len();
    let mut i: usize = len;
    let ghost tail = Seq::<ClassConstRef<'a>>::empty();
    assert(refs@.take(len as int) =~= refs@);
    assert(inserted(refs@, x) + tail =~= inserted(refs@, x));
    while i > 0 && !ref_is_less(*refs.at(i - 1), x) && !same_ref(*refs.at(i - 1), x)
        invariant
            len == refs@.len(),
            i <= len,
            tail == refs@.subrange(i as int, len as int),
            inserted(refs@, x) == inserted(refs@.take(i as int), x) + tail,
        decreases i,
    {
        proof {
            let head = refs@.take(i as int);
            assert(head.drop_last() =~= refs@.take(i - 1));
            let longer = seq![refs@[i - 1]] + tail;
            assert(inserted(head.drop_last(), x).push(head.last()) + tail =~= inserted(
                head.drop_last(),
                x,
            ) + longer);
            assert(longer =~= refs@.subrange(i - 1, len as int));
            tail = longer;
        }
        i = i - 1;
    }
    if i > 0 && same_ref(*refs.at(i - 1), x) {
        proof {
            lemma_ref_total(x, x);
            assert(refs@.take(i as int) + tail =~= refs@);
        }
        return Items::copied(arena, refs.as_slice());
    }
    let mut buf: Vec<ClassConstRef<'a>> = Vec::new();
    let mut j: usize = 0;
    while j < len
        invariant
            len == refs@.len(),
            i <= len,
            j <= len,
            buf@ == (if j <= i {
                refs@.take(j as int)
            } else {
                refs@.take(i as int).push(x) + refs@.subrange(i as int, j as int)
            }),
        decreases len - j,
    {
        if j == i {
            buf.push(x);
        }
        buf.push(*refs.at(j));
        proof {
            if j < i {
                assert(buf@ =~= refs@.take(j + 1));
            } else {
                assert(buf@ =~= refs@.take(i as int).push(x) + refs@.subrange(i as int, j + 1));
            }
        }
        j = j + 1;
    }
    if i == len {
        buf.push(x);
        assert(buf@ =~= refs@.take(i as int).push(x) + tail);
    } else {
        assert(buf@ =~= refs@.take(i as int).push(x) + tail);
    }
    Items::copied(arena, buf.as_slice())
}

/// References to `self` come first, the others by the name of the class, and
/// those to one class by the name of the constant.
pub proof fn law_order_of_references<'a>(
    class: &'a [u8],
    other: &'a [u8],
    x: &'a [u8],
    y: &'a [u8],
)
    ensures
        ref_less(
            ClassConstRef(ClassConstFrom::Self_, x),
            ClassConstRef(ClassConstFrom::From(class), y),
        ),
        !ref_less(
            ClassConstRef(ClassConstFrom::From(class), y),
            ClassConstRef(ClassConstFrom::Self_, x),
        ),
        lex_less(class@, other@) ==> ref_less(
            ClassConstRef(ClassConstFrom::From(class), x),
            ClassConstRef(ClassConstFrom::From(other), y),
        ),
        ref_less(
            ClassConstRef(ClassConstFrom::From(class), x),
            ClassConstRef(ClassConstFrom::From(class), y),
        ) <==> lex_less(x@, y@) || lex_less(class@, class@),
        ref_less(
            ClassConstRef(ClassConstFrom::Self_, x),
            ClassConstRef(ClassConstFrom::Self_, y),
        ) <==> lex_less(x@, y@),
{
}

} // verus!
