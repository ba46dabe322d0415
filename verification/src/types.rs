//! Types as declarations hold them.

use crate::arena::Items;
use crate::source::Pos;
use crate::syntax::{ConstraintKind, FunKind, PosId, ReifyKind, Tprim, Variance, Id};
use vstd::prelude::*;

verus! {

/// Why a type is what it is, with the position that says so.
#[derive(Copy, Clone)]
pub enum Reason<'a> {
    Rnone,
    Rhint(&'a Pos<'a>),
    RwitnessFromDecl(&'a Pos<'a>),
    RvecOrDictKey(&'a Pos<'a>),
    RretFunKindFromDecl(&'a (&'a Pos<'a>, FunKind)),
    RvarParamFromDecl(&'a Pos<'a>),
}

impl<'a> Reason<'a> {
    pub open spec fn at(self) -> Option<&'a Pos<'a>> {
        match self {
            Reason::Rnone => None,
            Reason::Rhint(pos) => Some(pos),
            Reason::RwitnessFromDecl(pos) => Some(pos),
            Reason::RvecOrDictKey(pos) => Some(pos),
            Reason::RretFunKindFromDecl(of) => Some(of.0),
            Reason::RvarParamFromDecl(pos) => Some(pos),
        }
    }

    pub fn pos(&self) -> (r: Option<&'a Pos<'a>>)
        ensures
            r == self.at(),
    {
        match self {
            Reason::Rnone => None,
            Reason::Rhint(pos) => Some(*pos),
            Reason::RwitnessFromDecl(pos) => Some(*pos),
            Reason::RvecOrDictKey(pos) => Some(*pos),
            Reason::RretFunKindFromDecl(of) => Some(of.0),
            Reason::RvarParamFromDecl(pos) => Some(*pos),
        }
    }
}

/// A type and the reason for it.
#[derive(Copy, Clone)]
pub struct Ty<'a>(pub &'a Reason<'a>, pub Ty_<'a>);

impl<'a> Ty<'a> {
    pub fn get_pos(&self) -> (r: Option<&'a Pos<'a>>)
        ensures
            r == self.0.at(),
    {
        self.0.pos()
    }
}

#[derive(Copy, Clone)]
pub enum Ty_<'a> {
    Tany,
    Terr,
    Tmixed,
    Tnonnull,
    Tdynamic,
    Tthis,
    Tprim(Tprim),
    Tapply(&'a (PosId<'a>, Items<'a, &'a Ty<'a>>)),
    Tgeneric(&'a (&'a [u8], Items<'a, &'a Ty<'a>>)),
    Tlike(&'a Ty<'a>),
    Toption(&'a Ty<'a>),
    Tfun(&'a FunType<'a>),
    /// The fields stand in the order in which they were added.
    Tshape(&'a (ShapeKind, Items<'a, (TShapeField<'a>, &'a ShapeFieldType<'a>)>)),
    Tdarray(&'a (&'a Ty<'a>, &'a Ty<'a>)),
    Tvarray(&'a Ty<'a>),
    TvarrayOrDarray(&'a (&'a Ty<'a>, &'a Ty<'a>)),
    TvecOrDict(&'a (&'a Ty<'a>, &'a Ty<'a>)),
    Ttuple(Items<'a, &'a Ty<'a>>),
    Tunion(Items<'a, &'a Ty<'a>>),
    Tintersection(Items<'a, &'a Ty<'a>>),
    Taccess(&'a TaccessType<'a>),
}

/// A type constant of a type.
#[derive(Copy, Clone)]
pub struct TaccessType<'a>(pub &'a Ty<'a>, pub PosId<'a>);

#[derive(Copy, Clone, PartialEq, Eq, Structural, Debug)]
pub enum ShapeKind {
    ClosedShape,
    OpenShape,
}

#[derive(Copy, Clone)]
pub struct ShapeFieldType<'a> {
    pub optional: bool,
    pub ty: &'a Ty<'a>,
}

/// The name of a shape field as the syntax has it.
#[derive(Copy, Clone)]
pub enum ShapeFieldName<'a> {
    SFlitInt(&'a PosId<'a>),
    SFlitStr(&'a PosId<'a>),
    SFclassConst(&'a (Id<'a>, &'a PosId<'a>)),
}

#[derive(Copy, Clone)]
pub struct ShapeField<'a>(pub ShapeFieldName<'a>);

/// The name of a shape field as a type has it.
#[derive(Copy, Clone)]
pub enum TshapeFieldName<'a> {
    TSFlitInt(&'a PosId<'a>),
    TSFlitStr(&'a PosId<'a>),
    TSFclassConst(&'a (PosId<'a>, PosId<'a>)),
}

#[derive(Copy, Clone)]
pub struct TShapeField<'a>(pub TshapeFieldName<'a>);

#[derive(Copy, Clone)]
pub struct FunType<'a> {
    pub arity: FunArity<'a>,
    pub tparams: Items<'a, &'a Tparam<'a>>,
    pub where_constraints: Items<'a, &'a WhereConstraint<'a>>,
    pub params: Items<'a, &'a FunParam<'a>>,
    pub implicit_params: &'a FunImplicitParams<'a>,
    pub ret: &'a PossiblyEnforcedTy<'a>,
    pub flags: FunTypeFlags,
    pub ifc_decl: IfcFunDecl<'a>,
}

#[derive(Copy, Clone)]
pub enum FunArity<'a> {
    Fstandard,
    Fvariadic(&'a FunParam<'a>),
}

#[derive(Copy, Clone)]
pub struct FunParam<'a> {
    pub pos: &'a Pos<'a>,
    pub name: Option<&'a [u8]>,
    pub type_: &'a PossiblyEnforcedTy<'a>,
    pub flags: FunParamFlags,
}

#[derive(Copy, Clone, PartialEq, Eq, Structural, Debug)]
pub enum Enforcement {
    Unenforced,
    Enforced,
}

#[derive(Copy, Clone)]
pub struct PossiblyEnforcedTy<'a> {
    pub enforced: Enforcement,
    pub type_: &'a Ty<'a>,
}

#[derive(Copy, Clone)]
pub struct FunImplicitParams<'a> {
    pub capability: Capability<'a>,
}

#[derive(Copy, Clone)]
pub enum Capability<'a> {
    CapDefaults(&'a Pos<'a>),
    CapTy(&'a Ty<'a>),
}

#[derive(Copy, Clone)]
pub struct Tparam<'a> {
    pub variance: Variance,
    pub name: PosId<'a>,
    pub tparams: &'a [&'a Tparam<'a>],
    pub constraints: Items<'a, (ConstraintKind, &'a Ty<'a>)>,
    pub reified: ReifyKind,
    pub user_attributes: Items<'a, &'a UserAttribute<'a>>,
}

#[derive(Copy, Clone)]
pub struct UserAttribute<'a> {
    pub name: PosId<'a>,
    pub classname_params: Items<'a, &'a [u8]>,
}

#[derive(Copy, Clone)]
pub struct WhereConstraint<'a>(pub &'a Ty<'a>, pub ConstraintKind, pub &'a Ty<'a>);

#[derive(Copy, Clone)]
pub enum IfcFunDecl<'a> {
    FDPolicied(Option<&'a [u8]>),
    FDInferFlows,
}

#[derive(Copy, Clone, PartialEq, Eq, Structural, Debug)]
pub struct FunTypeFlags {
    pub async_: bool,
    pub generator: bool,
    pub return_disposable: bool,
    pub returns_readonly: bool,
    pub readonly_this: bool,
}

#[derive(Copy, Clone, PartialEq, Eq, Structural, Debug)]
pub struct FunParamFlags {
    pub accept_disposable: bool,
    pub ifc_external: bool,
    pub ifc_can_call: bool,
    pub via_label: bool,
    pub readonly: bool,
    pub inout: bool,
    pub has_default: bool,
}

} // verus!
