//! The syntax that declarations keep: identifiers, modifiers and the constant
//! expressions that initializers are made of.

use crate::arena::Items;
use crate::source::Pos;
use vstd::prelude::*;

verus! {

/// An identifier and its position.
#[derive(Copy, Clone)]
pub struct Id<'a>(pub &'a Pos<'a>, pub &'a [u8]);

/// A name in a declaration, with the position it was written at.
pub type PosId<'a> = (&'a Pos<'a>, &'a [u8]);

impl<'a> Id<'a> {
    pub open spec fn pos_id(self) -> PosId<'a> {
        (self.0, self.1)
    }

    pub fn to_pos_id(self) -> (r: PosId<'a>)
        ensures
            r == self.pos_id(),
    {
        (self.0, self.1)
    }
}

#[derive(Copy, Clone, PartialEq, Eq, Structural, Debug)]
pub enum Visibility {
    Private,
    Public,
    Protected,
    Internal,
}

#[derive(Copy, Clone, PartialEq, Eq, Structural, Debug)]
pub enum Tprim {
    Tnull,
    Tvoid,
    Tint,
    Tbool,
    Tfloat,
    Tstring,
    Tresource,
    Tnum,
    Tarraykey,
    Tnoreturn,
}

#[derive(Copy, Clone, PartialEq, Eq, Structural, Debug)]
pub enum ReifyKind {
    Erased,
    SoftReified,
    Reified,
}

#[derive(Copy, Clone, PartialEq, Eq, Structural, Debug)]
pub enum Variance {
    Covariant,
    Contravariant,
    Invariant,
}

#[derive(Copy, Clone, PartialEq, Eq, Structural, Debug)]
pub enum ConstraintKind {
    ConstraintAs,
    ConstraintEq,
    ConstraintSuper,
}

#[derive(Copy, Clone, PartialEq, Eq, Structural, Debug)]
pub enum FunKind {
    FSync,
    FAsync,
    FGenerator,
    FAsyncGenerator,
}

#[derive(Copy, Clone, PartialEq, Eq, Structural, Debug)]
pub enum ParamMode {
    FPnormal,
    FPinout,
}

/// The mode that a file declares; `Mhhi` is that of interface files.
#[derive(Copy, Clone, PartialEq, Eq, Structural, Debug)]
pub enum Mode {
    Mhhi,
    Mstrict,
}

#[derive(Copy, Clone, PartialEq, Eq, Structural, Debug)]
pub enum TypedefVisibility {
    Transparent,
    Opaque,
    Tinternal,
}

#[derive(Copy, Clone, PartialEq, Eq, Structural, Debug)]
pub enum XhpAttrTag {
    Required,
    Lateinit,
}

#[derive(Copy, Clone, PartialEq, Eq, Structural, Debug)]
pub enum RecordFieldReq {
    ValueRequired,
    HasDefaultValue,
}

#[derive(Copy, Clone, PartialEq, Eq, Structural, Debug)]
pub enum Abstraction {
    Concrete,
    Abstract,
}

#[derive(Copy, Clone, PartialEq, Eq, Structural, Debug)]
pub enum ClassishKind {
    Cclass(Abstraction),
    Cinterface,
    Ctrait,
    Cenum,
    CenumClass(Abstraction),
}

/// The unary operators; `Upincr` and `Updecr` stand behind their operand.
#[derive(Copy, Clone, PartialEq, Eq, Structural, Debug)]
pub enum Uop {
    Utild,
    Unot,
    Uplus,
    Uminus,
    Uincr,
    Udecr,
    Upincr,
    Updecr,
    Usilence,
}

#[derive(Copy, Clone, PartialEq, Eq, Structural, Debug)]
pub enum Bop {
    Plus,
    Minus,
    Star,
    Slash,
    Eq,
    Eqeq,
    Eqeqeq,
    Starstar,
    Ampamp,
    Barbar,
    Lt,
    Lte,
    Ltlt,
    Gt,
    Gte,
    Gtgt,
    Dot,
    Amp,
    Bar,
    Percent,
    QuestionQuestion,
}

/// What names are elaborated as.
#[derive(Copy, Clone, PartialEq, Eq, Structural, Debug)]
pub enum ElaborateKind {
    Class,
    Const,
}

/// A value in the enumeration of an XHP attribute.
#[derive(Copy, Clone)]
pub enum XhpEnumValue<'a> {
    XEVInt(isize),
    XEVString(&'a [u8]),
}

/// The name of a module: its first part and the others.
#[derive(Copy, Clone)]
pub struct Module_<'a>(pub &'a [u8], pub Items<'a, &'a [u8]>);

/// A constant expression at its position.
#[derive(Copy, Clone)]
pub struct Expr<'a>(pub &'a Pos<'a>, pub Expr_<'a>);

#[derive(Copy, Clone)]
pub enum Expr_<'a> {
    Null,
    This,
    True,
    False,
    Int(&'a [u8]),
    Float(&'a [u8]),
    String(&'a [u8]),
    String2,
    PrefixedString,
    Id(&'a Id<'a>),
    Unop(&'a (Uop, &'a Expr<'a>)),
    Binop(&'a (Bop, &'a Expr<'a>, &'a Expr<'a>)),
    ClassConst(&'a (&'a ClassId<'a>, &'a PosId<'a>)),
    Hole(&'a Expr<'a>),
    /// An expression of which declarations read nothing.
    Other,
}

/// What stands before the colons of a class constant.
#[derive(Copy, Clone)]
pub struct ClassId<'a>(pub &'a Pos<'a>, pub ClassId_<'a>);

#[derive(Copy, Clone)]
pub enum ClassId_<'a> {
    CIparent,
    CIself,
    CIstatic,
    CIexpr(&'a Expr<'a>),
    CI(&'a Id<'a>),
}

} // verus!
