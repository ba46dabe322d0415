//! The name of the class that is being read.

use crate::arena::{alloc_in, lemma_slice_of, slice_of};
use crate::source::Pos;
use crate::text::{begins_with, prefix_slash, starts_with_byte, BACKSLASH, COLON};
use crate::token::TokenKind;
use bumpalo::Bump;
use vstd::prelude::*;

verus! {

broadcast use lemma_slice_of;

#[derive(Copy, Clone)]
pub enum ClassishNameBuilder<'a> {
    /// No class declaration has begun.
    NotInClassish,
    /// A name came behind one of the keywords that begin a class declaration:
    /// this name, its position and the keyword.
    InClassish(&'a (&'a [u8], &'a Pos<'a>, TokenKind)),
}

impl<'a> ClassishNameBuilder<'a> {
    pub fn new() -> (r: Self)
        ensures
            r == ClassishNameBuilder::<'a>::NotInClassish,
    {
        ClassishNameBuilder::NotInClassish
    }

    /// The state after a name has come behind a keyword. Inside a class it is
    /// the name of something else.
    pub open spec fn named(
        self,
        name: &'a [u8],
        pos: &'a Pos<'a>,
        token_kind: TokenKind,
    ) -> Self {
        match self {
            ClassishNameBuilder::NotInClassish => {
                let name = if begins_with(name@, COLON) {
                    slice_of(seq![BACKSLASH] + name@)
                } else {
                    name
                };
                ClassishNameBuilder::InClassish(&(name, pos, token_kind))
            },
            ClassishNameBuilder::InClassish(_) => self,
        }
    }

    pub open spec fn current(self) -> Option<(&'a [u8], &'a Pos<'a>)> {
        match self {
            ClassishNameBuilder::NotInClassish => None,
            ClassishNameBuilder::InClassish(of) => Some((of.0, of.1)),
        }
    }

    pub fn lexed_name_after_classish_keyword(
        &mut self,
        arena: &'a Bump,
        name: &'a [u8],
        pos: &'a Pos<'a>,
        token_kind: TokenKind,
    )
        ensures
            *final(self) == old(self).named(name, pos, token_kind),
            *old(self) is NotInClassish ==> (final(self).current() matches Some(current)
                && current.0@ == (if begins_with(name@, COLON) {
                seq![BACKSLASH] + name@
            } else {
                name@
            })),
    {
        match *self {
            ClassishNameBuilder::NotInClassish => {
                let name = if starts_with_byte(name, COLON) {
                    prefix_slash(arena, name)
                } else {
                    name
                };
                assert(slice_of(name@) == name);
                *self = ClassishNameBuilder::InClassish(alloc_in(arena, (name, pos, token_kind)));
            },
            ClassishNameBuilder::InClassish(_) => {},
        }
    }

    pub fn parsed_classish_declaration(&mut self)
        ensures
            *final(self) == ClassishNameBuilder::<'a>::NotInClassish,
    {
        *self = ClassishNameBuilder::NotInClassish;
    }

    pub fn get_current_classish_name(&self) -> (r: Option<(&'a [u8], &'a Pos<'a>)>)
        ensures
            r == self.current(),
    {
        match self {
            ClassishNameBuilder::NotInClassish => None,
            ClassishNameBuilder::InClassish(of) => Some((of.0, of.1)),
        }
    }

    pub open spec fn spec_in_interface(self) -> bool {
        self matches ClassishNameBuilder::InClassish(of) && of.2 == TokenKind::Interface
    }

    pub fn in_interface(&self) -> (r: bool)
        ensures
            r == self.spec_in_interface(),
    {
        match self {
            ClassishNameBuilder::InClassish(of) => of.2 == TokenKind::Interface,
            ClassishNameBuilder::NotInClassish => false,
        }
    }
}

/// The first name behind a keyword is the name of the class; those that follow
/// inside it change nothing.
pub proof fn law_first_name_is_kept<'a>(
    builder: ClassishNameBuilder<'a>,
    name: &'a [u8],
    pos: &'a Pos<'a>,
    token_kind: TokenKind,
    later_name: &'a [u8],
    later_pos: &'a Pos<'a>,
    later_kind: TokenKind,
)
    ensures
        builder.named(name, pos, token_kind).named(later_name, later_pos, later_kind)
            == builder.named(name, pos, token_kind),
        builder.named(name, pos, token_kind).current() is Some,
{
}

/// The class that is being read has the name and the position that it was given,
/// with a backslash in front of an XHP name, and is an interface exactly where
/// its keyword says so. Outside classes there is none.
pub proof fn law_class_that_is_being_read<'a>(
    name: &'a [u8],
    pos: &'a Pos<'a>,
    token_kind: TokenKind,
)
    ensures
        ({
            let outside = ClassishNameBuilder::<'a>::NotInClassish;
            let inside = outside.named(name, pos, token_kind);
            &&& outside.current() is None
            &&& !outside.spec_in_interface()
            &&& inside.current() matches Some(current) && current.1 == pos && (!begins_with(
                name@,
                COLON,
            ) ==> current.0 == name) && (begins_with(name@, COLON) ==> current.0 == slice_of::<'a>(
                seq![BACKSLASH] + name@,
            ))
            &&& inside.spec_in_interface() <==> token_kind == TokenKind::Interface
        }),
{
}

} // verus!
