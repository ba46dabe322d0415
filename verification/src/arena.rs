//! Allocation in a bump arena, and the immutable lists that live there.
//!
//! Everything the parser builds is allocated in one arena and shared by
//! reference from then on, so that nodes and types can be copied freely.

use bumpalo::Bump;
use vstd::prelude::*;

verus! {

/// The arena type of the `bumpalo` crate. Nothing is known of its inside.
#[verifier::external_type_specification]
#[verifier::external_body]
pub struct ExBump<const MIN_ALIGN: usize>(bumpalo::Bump<MIN_ALIGN>);

/// Calls `bumpalo::Bump::alloc`, which moves a value into the arena. The
/// contract claims that the reference handed back points to that value. It
/// says nothing of an arena that can reserve no more space: there the call does
/// not return.
#[verifier::external_body]
pub(crate) fn alloc_in<'a, T>(arena: &'a Bump, value: T) -> (r: &'a T)
    ensures
        *r == value,
{
    arena.alloc(value)
}

/// Calls `bumpalo::Bump::alloc_slice_copy`, which copies a slice into the
/// arena. The contract claims that the copy has the elements of the slice. It
/// says nothing of an arena that can reserve no more space: there the call does
/// not return.
#[verifier::external_body]
pub(crate) fn alloc_slice_in<'a, T: Copy>(arena: &'a Bump, values: &[T]) -> (r: &'a [T])
    ensures
        r@ == values@,
{
    arena.alloc_slice_copy(values)
}

/// The slice with the given elements.
pub open spec fn slice_of<'a, T>(s: Seq<T>) -> &'a [T] {
    choose|x: &'a [T]| x@ == s
}

/// Whether there is a slice with the given elements: some sequences are longer
/// than any slice can be.
pub open spec fn realised<T>(s: Seq<T>) -> bool {
    slice_of(s)@ == s
}

/// A slice is determined by its elements.
pub broadcast proof fn lemma_slice_of<'a, T>(x: &'a [T])
    ensures
        slice_of(#[trigger] x@) == x,
{
    let y: &'a [T] = slice_of(x@);
    assert(y@ == x@);
    assert(y =~= x);
}

/// An immutable list of values in the arena.
///
/// Beside the slice stands the sequence of its elements, so that a recursive
/// type whose values hold lists of that same type can be taken apart by
/// structural recursion.
pub struct Items<'a, T> {
    slice: &'a [T],
    elements: Ghost<Seq<T>>,
}

impl<'a, T> Copy for Items<'a, T> {

}

impl<'a, T> Clone for Items<'a, T> {
    fn clone(&self) -> (r: Self)
        ensures
            r == *self,
    {
        *self
    }
}

impl<'a, T> View for Items<'a, T> {
    type V = Seq<T>;

    open spec fn view(&self) -> Seq<T> {
        self.elements()
    }
}

impl<'a, T> Items<'a, T> {
    pub closed spec fn elements(&self) -> Seq<T> {
        self.elements@
    }

    /// The list with the given elements.
    pub closed spec fn of(s: Seq<T>) -> Self {
        Items { slice: slice_of(s), elements: Ghost(s) }
    }

    #[verifier::type_invariant]
    spec fn consistent(self) -> bool {
        self.slice@ == self.elements@
    }

    /// The list of the elements of `slice`.
    pub fn from_slice(slice: &'a [T]) -> (r: Self)
        ensures
            r == Items::of(slice@),
            r@ == slice@,
    {
        proof {
            lemma_slice_of(slice);
        }
        Items { slice, elements: Ghost(slice@) }
    }

    /// The list without elements.
    pub fn none() -> (r: Self)
        ensures
            r == Items::of(Seq::<T>::empty()),
            r@ == Seq::<T>::empty(),
    {
        let slice: &'a [T] = &[];
        assert(slice@ =~= Seq::<T>::empty());
        Items::from_slice(slice)
    }

    pub fn as_slice(&self) -> (r: &'a [T])
        ensures
            r@ == self@,
            *self == Items::of(r@),
    {
        proof {
            use_type_invariant(self);
            lemma_slice_of(self.slice);
        }
        self.slice
    }

    pub fn len(&self) -> (r: usize)
        ensures
            r == self@.len(),
    {
        proof {
            use_type_invariant(self);
        }
        self.slice.len()
    }

    pub fn is_empty(&self) -> (r: bool)
        ensures
            r == (self@.len() == 0),
    {
        self.len() == 0
    }

    pub fn at(&self, i: usize) -> (r: &'a T)
        requires
            i < self@.len(),
        ensures
            *r == self@[i as int],
    {
        proof {
            use_type_invariant(self);
        }
        &self.slice[i]
    }

    /// Taking an element of a list leads to something smaller.
    pub proof fn lemma_decreases(x: Self, i: int)
        requires
            0 <= i < x@.len(),
        ensures
            decreases_to!(x => x@[i]),
    {
        assert(decreases_to!(x => x.elements));
        assert(decreases_to!(x => x.elements@));
    }
}

/// The elements of `Items::of(s)` are `s`.
pub broadcast proof fn lemma_items_of<'a, T>(s: Seq<T>)
    ensures
        #[trigger] Items::<'a, T>::of(s)@ == s,
{
}

impl<'a, T: Copy> Items<'a, T> {
    /// Copies the elements of `values` into the arena.
    pub fn copied(arena: &'a Bump, values: &[T]) -> (r: Self)
        ensures
            r == Items::of(values@),
            r@ == values@,
    {
        Items::from_slice(alloc_slice_in(arena, values))
    }

    /// The elements in a vector of their own.
    pub fn to_vec(self) -> (r: Vec<T>)
        ensures
            r@ == self@,
    {
        let mut r: Vec<T> = Vec::new();
        let mut i: usize = 0;
        while i < self.len()
            invariant
                i <= self@.len(),
                r@ == self@.take(i as int),
            decreases self@.len() - i,
        {
            r.push(*self.at(i));
            assert(r@ =~= self@.take(i + 1));
            i = i + 1;
        }
        assert(self@.take(i as int) =~= self@);
        r
    }

    /// The list that holds `value` alone.
    pub fn single(arena: &'a Bump, value: T) -> (r: Self)
        ensures
            r == Items::of(seq![value]),
            r@ == seq![value],
    {
        let values: [T; 1] = [value];
        let slice: &[T] = &values;
        assert(slice@ =~= seq![value]);
        Items::copied(arena, slice)
    }

    /// The list that holds two values.
    pub fn pair(arena: &'a Bump, fst: T, snd: T) -> (r: Self)
        ensures
            r == Items::of(seq![fst, snd]),
            r@ == seq![fst, snd],
    {
        let values: [T; 2] = [fst, snd];
        let slice: &[T] = &values;
        assert(slice@ =~= seq![fst, snd]);
        Items::copied(arena, slice)
    }

    /// The list that holds one value three times.
    pub fn triple(arena: &'a Bump, value: T) -> (r: Self)
        ensures
            r == Items::of(seq![value, value, value]),
            r@ == seq![value, value, value],
    {
        let values: [T; 3] = [value, value, value];
        let slice: &[T] = &values;
        assert(slice@ =~= seq![value, value, value]);
        Items::copied(arena, slice)
    }
}

} // verus!
