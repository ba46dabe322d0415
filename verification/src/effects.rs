//! Polymorphic contexts: capabilities of a function that depend on those of
//! its parameters. They are spelled out with type parameters of their own.

use crate::arena::{alloc_slice_in, lemma_items_of, lemma_slice_of, realised, slice_of, Items};
use crate::hints::{hinted, plain_generic};
use crate::host::{Answer, Query};
use crate::parser::{DirectDeclSmartConstructors, SourceTextAllocator};
use crate::source::Pos;
use crate::str_map::{lemma_lookup_with_entry, lookup, StrMap};
use crate::syntax::{ConstraintKind, PosId, ReifyKind, Variance};
use crate::text::{
    begins_with, concat, contains_byte, is, literal, push_bytes, same, starts_with_byte, DOLLAR,
};
use crate::types::{
    Capability, FunImplicitParams, FunParam, FunType, PossiblyEnforcedTy, Reason, TaccessType,
    Tparam, Ty, Ty_, UserAttribute, WhereConstraint,
};
use vstd::prelude::*;
use vstd::string::*;

verus! {

broadcast use {lemma_items_of, lemma_slice_of};

pub open spec fn fun_ctx_bytes(name: Seq<u8>) -> Seq<u8> {
    "T/[ctx ".spec_bytes() + name + "]".spec_bytes()
}

/// The type parameter for the context `ctx $f`.
pub open spec fn fun_ctx_name<'a>(name: Seq<u8>) -> &'a [u8] {
    slice_of(fun_ctx_bytes(name))
}

pub open spec fn dependent_ctx_bytes(name: Seq<u8>, cst: Seq<u8>) -> Seq<u8> {
    "T/[".spec_bytes() + name + "::".spec_bytes() + cst + "]".spec_bytes()
}

/// The type parameter for the context `$g::C`.
pub open spec fn dependent_ctx_name<'a>(name: Seq<u8>, cst: Seq<u8>) -> &'a [u8] {
    slice_of(dependent_ctx_bytes(name, cst))
}

/// The type parameter for the type of `$g`.
pub open spec fn arg_bytes(name: Seq<u8>) -> Seq<u8> {
    "T/".spec_bytes() + name
}

/// Whether a path of type constants begins at a type parameter.
pub open spec fn root_is_generic<'a>(ty: Ty<'a>) -> bool
    decreases ty,
{
    match ty.1 {
        Ty_::Tgeneric(of) => of.1@.len() == 0,
        Ty_::Taccess(of) => root_is_generic(*of.0),
        _ => false,
    }
}

/// A path of type constants as it is written.
pub open spec fn taccess_path<'a>(ty: Ty<'a>, cst: Seq<u8>) -> Seq<u8>
    decreases ty,
{
    let left = match ty.1 {
        Ty_::Tgeneric(of) => of.0@,
        Ty_::Taccess(of) => taccess_path(*of.0, of.1.1@),
        _ => Seq::<u8>::empty(),
    };
    left + "::".spec_bytes() + cst
}

pub open spec fn generic_ctx_bytes<'a>(ty: Ty<'a>, cst: Seq<u8>) -> Seq<u8> {
    "T/[".spec_bytes() + taccess_path(ty, cst) + "]".spec_bytes()
}

/// The type parameter for the context `T::C`, where `T` is a type parameter.
pub open spec fn generic_ctx_name<'a>(ty: Ty<'a>, cst: Seq<u8>) -> &'a [u8] {
    slice_of(generic_ctx_bytes(ty, cst))
}

/// Whether a context depends on a parameter or a type parameter.
pub open spec fn polymorphic<'a>(ty: Ty<'a>) -> bool {
    match ty.1 {
        Ty_::Tapply(of) => of.1@.len() == 0 && of.0.1@.contains(DOLLAR),
        Ty_::Taccess(of) => match of.0.1 {
            Ty_::Tapply(root) => root.1@.len() == 0 && root.0.1@.contains(DOLLAR),
            _ => root_is_generic(*of.0),
        },
        _ => false,
    }
}

pub open spec fn any_polymorphic<'a>(contexts: Seq<&'a Ty<'a>>) -> bool {
    exists|i: int| 0 <= i < contexts.len() && polymorphic(*#[trigger] contexts[i])
}

/// The contexts of a capability, where one of them is polymorphic.
pub open spec fn polymorphic_contexts<'a>(capability: Capability<'a>) -> Option<
    Seq<&'a Ty<'a>>,
> {
    match capability {
        Capability::CapTy(ty) => match ty.1 {
            Ty_::Tintersection(tys) => if any_polymorphic(tys@) {
                Some(tys@)
            } else {
                None
            },
            _ => if polymorphic(*ty) {
                Some(seq![ty])
            } else {
                None
            },
        },
        Capability::CapDefaults(_) => None,
    }
}

/// A type parameter that the source does not show.
pub open spec fn added_tparam<'a>(
    name: PosId<'a>,
    constraints: Seq<(ConstraintKind, &'a Ty<'a>)>,
) -> &'a Tparam<'a> {
    &Tparam {
        variance: Variance::Invariant,
        name,
        tparams: slice_of(Seq::<&'a Tparam<'a>>::empty()),
        constraints: Items::of(constraints),
        reified: ReifyKind::Erased,
        user_attributes: Items::of(Seq::<&'a UserAttribute<'a>>::empty()),
    }
}

pub open spec fn unconstrained<'a>(name: PosId<'a>) -> &'a Tparam<'a> {
    added_tparam(name, Seq::<(ConstraintKind, &'a Ty<'a>)>::empty())
}

/// The type inside `~` and `?`.
pub open spec fn core_ty<'a>(ty: Ty<'a>) -> Ty<'a> {
    match ty.1 {
        Ty_::Tlike(inner) => match inner.1 {
            Ty_::Toption(innermost) => *innermost,
            _ => *inner,
        },
        Ty_::Toption(inner) => *inner,
        _ => ty,
    }
}

/// A type with another one inside its `~` and `?`.
pub open spec fn with_core<'a>(ty: Ty<'a>, core: Ty<'a>) -> Ty<'a> {
    match ty.1 {
        Ty_::Tlike(inner) => match inner.1 {
            Ty_::Toption(_) => Ty(ty.0, Ty_::Tlike(&Ty(inner.0, Ty_::Toption(&core)))),
            _ => Ty(ty.0, Ty_::Tlike(&core)),
        },
        Ty_::Toption(_) => Ty(ty.0, Ty_::Toption(&core)),
        _ => core,
    }
}

/// The context `_` of a function type that has no other one.
pub open spec fn open_context<'a>(ty: Ty<'a>) -> Option<(&'a Ty<'a>, &'a Pos<'a>)> {
    match ty.1 {
        Ty_::Tfun(ft) => match ft.implicit_params.capability {
            Capability::CapTy(cap) => {
                let cap_ty = match cap.1 {
                    Ty_::Tintersection(tys) => if tys@.len() == 1 {
                        tys@[0]
                    } else {
                        cap
                    },
                    _ => cap,
                };
                match cap_ty.1 {
                    Ty_::Tapply(of) => if of.0.1@ == "_".spec_bytes() {
                        Some((cap_ty, of.0.0))
                    } else {
                        None
                    },
                    _ => None,
                }
            },
            Capability::CapDefaults(_) => None,
        },
        _ => None,
    }
}

/// A function type with one type parameter for a capability.
pub open spec fn with_capability<'a>(ty: Ty<'a>, reason: &'a Reason<'a>, name: &'a [u8]) -> Ty<
    'a,
> {
    Ty(
        ty.0,
        Ty_::Tfun(
            &FunType {
                implicit_params: &FunImplicitParams {
                    capability: Capability::CapTy(&Ty(reason, plain_generic(name))),
                },
                ..*ty.1->Tfun_0
            },
        ),
    )
}

/// What the signature of a function has become while its contexts are
/// spelled out: its type parameters, its where clauses, and the type and
/// position of each parameter by its name.
pub struct Signature<'a> {
    pub tparams: Seq<&'a Tparam<'a>>,
    pub where_constraints: Seq<&'a WhereConstraint<'a>>,
    pub ty_by_param: StrMap<'a, (Ty<'a>, &'a Pos<'a>)>,
}

/// The context `ctx $f`: where the type of `$f` is `(function (ts)[_]: t)`, it
/// gets a new type parameter for its context.
pub open spec fn with_fun_ctx<'a>(sig: Signature<'a>, name: &'a [u8]) -> Signature<'a> {
    match lookup(sig.ty_by_param.entries@, name@) {
        None => sig,
        Some(param) => match open_context(core_ty(param.0)) {
            None => sig,
            Some(open) => {
                let ctx = fun_ctx_name(name@);
                let ty = with_core(param.0, with_capability(core_ty(param.0), open.0.0, ctx));
                Signature {
                    tparams: sig.tparams.push(unconstrained((open.1, ctx))),
                    ty_by_param: sig.ty_by_param.added(name, (ty, param.1)),
                    ..sig
                }
            },
        },
    }
}

/// Whether a type is a type parameter of the function.
pub open spec fn is_own_tparam<'a>(ty: Ty<'a>, tparams: Seq<&'a Tparam<'a>>) -> bool {
    ty.1 matches Ty_::Tgeneric(of) && exists|i: int|
        0 <= i < tparams.len() && (#[trigger] tparams[i]).name.1@ == of.0@
}

pub open spec fn pos_or_none<'a>(reason: Reason<'a>) -> &'a Pos<'a> {
    match reason.at() {
        Some(pos) => pos,
        None => &Pos::NoPos,
    }
}

/// The context `$g::C`: the type `G` of `$g` becomes a type parameter
/// `T/$g as G`, unless it is one already, and a type parameter `T/[$g::C]`
/// stands for its constant.
pub open spec fn with_arg_ctx<'a>(
    sig: Signature<'a>,
    name: &'a [u8],
    context_reason: &'a Reason<'a>,
    cst: PosId<'a>,
) -> Signature<'a> {
    match lookup(sig.ty_by_param.entries@, name@) {
        None => sig,
        Some(param) => {
            let ty = core_ty(param.0);
            let own = is_own_tparam(ty, sig.tparams);
            let id: PosId<'a> = (param.1, slice_of(arg_bytes(name@)));
            let rewritten = if own {
                ty
            } else {
                hinted(param.1, plain_generic(id.1))
            };
            let tparams = if own {
                sig.tparams
            } else {
                sig.tparams.push(added_tparam(id, seq![(ConstraintKind::ConstraintAs, &ty)]))
            };
            let left_id: PosId<'a> = (
                pos_or_none(*context_reason),
                dependent_ctx_name(name@, cst.1@),
            );
            let left = &Ty(context_reason, plain_generic(left_id.1));
            let right = &Ty(
                context_reason,
                Ty_::Taccess(&TaccessType(&Ty(context_reason, rewritten.1), cst)),
            );
            Signature {
                tparams: tparams.push(unconstrained(left_id)),
                where_constraints: sig.where_constraints.push(
                    &WhereConstraint(left, ConstraintKind::ConstraintEq, right),
                ),
                ty_by_param: sig.ty_by_param.added(
                    name,
                    (with_core(param.0, rewritten), param.1),
                ),
            }
        },
    }
}

/// The context `T::C`, where `T` is a type parameter: another type parameter
/// stands for it.
pub open spec fn with_generic_ctx<'a>(
    sig: Signature<'a>,
    context_ty: &'a Ty<'a>,
    ty: &'a Ty<'a>,
    cst: PosId<'a>,
) -> Signature<'a> {
    let left_id: PosId<'a> = (pos_or_none(*context_ty.0), generic_ctx_name(*ty, cst.1@));
    let left = &Ty(context_ty.0, plain_generic(left_id.1));
    Signature {
        tparams: sig.tparams.push(unconstrained(left_id)),
        where_constraints: sig.where_constraints.push(
            &WhereConstraint(left, ConstraintKind::ConstraintEq, context_ty),
        ),
        ..sig
    }
}

/// A signature with one more of its contexts spelled out.
pub open spec fn with_context<'a>(sig: Signature<'a>, context_ty: &'a Ty<'a>) -> Signature<'a> {
    match context_ty.1 {
        Ty_::Tapply(of) => if begins_with(of.0.1@, DOLLAR) {
            with_fun_ctx(sig, of.0.1)
        } else {
            sig
        },
        Ty_::Taccess(of) => match of.0.1 {
            Ty_::Tapply(root) => with_arg_ctx(sig, root.0.1, context_ty.0, of.1),
            _ => if root_is_generic(*of.0) {
                with_generic_ctx(sig, context_ty, of.0, of.1)
            } else {
                sig
            },
        },
        _ => sig,
    }
}

pub open spec fn with_contexts<'a>(sig: Signature<'a>, contexts: Seq<&'a Ty<'a>>) -> Signature<'a>
    decreases contexts.len(),
{
    if contexts.len() == 0 {
        sig
    } else {
        with_context(with_contexts(sig, contexts.drop_last()), contexts.last())
    }
}

/// The names of the type parameters that a context adds to a signature.
pub open spec fn context_names<'a>(sig: Signature<'a>, context_ty: &'a Ty<'a>) -> Seq<Seq<u8>> {
    match context_ty.1 {
        Ty_::Tapply(of) => match lookup(sig.ty_by_param.entries@, of.0.1@) {
            Some(param) => if begins_with(of.0.1@, DOLLAR) && open_context(
                core_ty(param.0),
            ) is Some {
                seq![fun_ctx_bytes(of.0.1@)]
            } else {
                Seq::<Seq<u8>>::empty()
            },
            None => Seq::<Seq<u8>>::empty(),
        },
        Ty_::Taccess(of) => match of.0.1 {
            Ty_::Tapply(root) => match lookup(sig.ty_by_param.entries@, root.0.1@) {
                Some(param) => if is_own_tparam(core_ty(param.0), sig.tparams) {
                    seq![dependent_ctx_bytes(root.0.1@, of.1.1@)]
                } else {
                    seq![arg_bytes(root.0.1@), dependent_ctx_bytes(root.0.1@, of.1.1@)]
                },
                None => Seq::<Seq<u8>>::empty(),
            },
            _ => if root_is_generic(*of.0) {
                seq![generic_ctx_bytes(*of.0, of.1.1@)]
            } else {
                Seq::<Seq<u8>>::empty()
            },
        },
        _ => Seq::<Seq<u8>>::empty(),
    }
}

/// The names of the type parameters that contexts add to a signature.
pub open spec fn names_added<'a>(sig: Signature<'a>, contexts: Seq<&'a Ty<'a>>) -> Seq<Seq<u8>>
    decreases contexts.len(),
{
    if contexts.len() == 0 {
        Seq::<Seq<u8>>::empty()
    } else {
        names_added(sig, contexts.drop_last()) + context_names(
            with_contexts(sig, contexts.drop_last()),
            contexts.last(),
        )
    }
}

/// Whether the type parameters from the `n`th on have the given names.
pub open spec fn named_from<'a>(tparams: Seq<&'a Tparam<'a>>, n: int, names: Seq<Seq<u8>>) -> bool {
    &&& tparams.len() == n + names.len()
    &&& forall|i: int| n <= i < tparams.len() ==> (#[trigger] tparams[i]).name.1@ == names[i - n]
}

/// The types and positions of the parameters that have a name.
pub open spec fn param_tys<'a>(params: Seq<&'a FunParam<'a>>) -> StrMap<'a, (Ty<'a>, &'a Pos<'a>)>
    decreases params.len(),
{
    if params.len() == 0 {
        StrMap::nothing()
    } else {
        let before = param_tys(params.drop_last());
        let param = params.last();
        match param.name {
            Some(name) => before.added(name, (*param.type_.type_, param.pos)),
            None => before,
        }
    }
}

/// A parameter with the type that it has been given.
pub open spec fn retyped<'a>(
    param: &'a FunParam<'a>,
    ty_by_param: StrMap<'a, (Ty<'a>, &'a Pos<'a>)>,
) -> &'a FunParam<'a> {
    match param.name {
        None => param,
        Some(name) => match lookup(ty_by_param.entries@, name@) {
            None => param,
            Some(of) => &FunParam {
                type_: &PossiblyEnforcedTy { type_: &of.0, ..*param.type_ },
                ..*param
            },
        },
    }
}

/// The name of the type parameter that stands for a context, where one does.
pub open spec fn spelled_out_name<'a>(ty: Ty<'a>) -> Option<Seq<u8>> {
    match ty.1 {
        Ty_::Tapply(of) => if of.1@.len() == 0 && begins_with(of.0.1@, DOLLAR) {
            Some(fun_ctx_bytes(of.0.1@))
        } else {
            None
        },
        Ty_::Taccess(of) => match of.0.1 {
            Ty_::Tapply(root) => if root.1@.len() == 0 && begins_with(root.0.1@, DOLLAR) {
                Some(dependent_ctx_bytes(root.0.1@, of.1.1@))
            } else {
                None
            },
            _ => if root_is_generic(*of.0) {
                Some(generic_ctx_bytes(*of.0, of.1.1@))
            } else {
                None
            },
        },
        _ => None,
    }
}

/// A context as the type parameter that stands for it.
pub open spec fn spelled_out<'a>(ty: &'a Ty<'a>) -> &'a Ty<'a> {
    match spelled_out_name(*ty) {
        Some(name) => &Ty(ty.0, plain_generic(slice_of(name))),
        None => ty,
    }
}

/// Whether the names of the type parameters that stand for contexts are at
/// hand.
pub open spec fn contexts_realised<'a>(contexts: Seq<&'a Ty<'a>>) -> bool {
    forall|i: int|
        0 <= i < contexts.len() ==> (spelled_out_name(*#[trigger] contexts[i]) matches Some(name)
            ==> realised(name))
}

/// The signature of a function whose contexts have been spelled out.
pub open spec fn effects_spelled_out<'a>(
    params: Items<'a, &'a FunParam<'a>>,
    tparams: Items<'a, &'a Tparam<'a>>,
    implicit_params: &'a FunImplicitParams<'a>,
    where_constraints: Items<'a, &'a WhereConstraint<'a>>,
) -> (
    Items<'a, &'a FunParam<'a>>,
    Items<'a, &'a Tparam<'a>>,
    &'a FunImplicitParams<'a>,
    Items<'a, &'a WhereConstraint<'a>>,
) {
    match polymorphic_contexts(implicit_params.capability) {
        None => (params, tparams, implicit_params, where_constraints),
        Some(contexts) => {
            let sig = with_contexts(
                Signature {
                    tparams: tparams@,
                    where_constraints: where_constraints@,
                    ty_by_param: param_tys(params@),
                },
                contexts,
            );
            let new_contexts = Seq::new(contexts.len(), |i: int| spelled_out(contexts[i]));
            let cap_ty = if new_contexts.len() == 1 {
                new_contexts[0]
            } else {
                &Ty(
                    implicit_params.capability->CapTy_0.0,
                    Ty_::Tintersection(Items::of(new_contexts)),
                )
            };
            (
                Items::of(Seq::new(params@.len(), |i: int| retyped(params@[i], sig.ty_by_param))),
                Items::of(sig.tparams),
                &FunImplicitParams { capability: Capability::CapTy(cap_ty) },
                Items::of(sig.where_constraints),
            )
        },
    }
}

pub fn taccess_root_is_generic<'a>(ty: &Ty<'a>) -> (r: bool)
    ensures
        r == root_is_generic(*ty),
    decreases ty,
{
    match ty.1 {
        Ty_::Tgeneric(of) => of.1.is_empty(),
        Ty_::Taccess(of) => taccess_root_is_generic(of.0),
        _ => false,
    }
}

fn is_polymorphic<'a>(ty: &Ty<'a>) -> (r: bool)
    ensures
        r == polymorphic(*ty),
{
    match ty.1 {
        Ty_::Tapply(of) => of.1.is_empty() && contains_byte(of.0.1, DOLLAR),
        Ty_::Taccess(of) => match of.0.1 {
            Ty_::Tapply(root) => root.1.is_empty() && contains_byte(root.0.1, DOLLAR),
            _ => taccess_root_is_generic(of.0),
        },
        _ => false,
    }
}

pub fn has_polymorphic_context<'a>(contexts: Items<'a, &'a Ty<'a>>) -> (r: bool)
    ensures
        r == any_polymorphic(contexts@),
{
    let mut i: usize = 0;
    while i < contexts.len()
        invariant
            i <= contexts@.len(),
            forall|j: int| 0 <= j < i ==> !polymorphic(*#[trigger] contexts@[j]),
        decreases contexts@.len() - i,
    {
        if is_polymorphic(*contexts.at(i)) {
            assert(polymorphic(*contexts@[i as int]));
            return true;
        }
        i = i + 1;
    }
    false
}

fn core_of<'a>(ty: &Ty<'a>) -> (r: Ty<'a>)
    ensures
        r == core_ty(*ty),
{
    match ty.1 {
        Ty_::Tlike(inner) => match inner.1 {
            Ty_::Toption(innermost) => *innermost,
            _ => *inner,
        },
        Ty_::Toption(inner) => *inner,
        _ => *ty,
    }
}

impl<
    'a,
    'text,
    S: SourceTextAllocator<'text, 'a>,
    H: Fn(Query<'a, 'text>) -> Answer<'a, 'text>,
> DirectDeclSmartConstructors<'a, 'text, S, H> {
    pub fn ctx_generic_for_fun(&self, name: &[u8]) -> (r: &'a [u8])
        ensures
            r == fun_ctx_name::<'a>(name@),
            r@ == fun_ctx_bytes(name@),
    {
        let mut buf: Vec<u8> = Vec::new();
        push_bytes(&mut buf, literal("T/[ctx "));
        push_bytes(&mut buf, name);
        push_bytes(&mut buf, literal("]"));
        let r = alloc_slice_in(self.arena, buf.as_slice());
        assert(r@ =~= "T/[ctx ".spec_bytes() + name@ + "]".spec_bytes());
        assert(slice_of(r@) == r);
        r
    }

    pub fn ctx_generic_for_dependent(&self, name: &[u8], cst: &[u8]) -> (r: &'a [u8])
        ensures
            r == dependent_ctx_name::<'a>(name@, cst@),
            r@ == dependent_ctx_bytes(name@, cst@),
    {
        let mut buf: Vec<u8> = Vec::new();
        push_bytes(&mut buf, literal("T/["));
        push_bytes(&mut buf, name);
        push_bytes(&mut buf, literal("::"));
        push_bytes(&mut buf, cst);
        push_bytes(&mut buf, literal("]"));
        let r = alloc_slice_in(self.arena, buf.as_slice());
        assert(r@ =~= "T/[".spec_bytes() + name@ + "::".spec_bytes() + cst@ + "]".spec_bytes());
        assert(slice_of(r@) == r);
        r
    }

    pub fn ctx_generic_for_generic_taccess_inner(&self, ty: &Ty<'a>, cst: &[u8]) -> (r: Vec<u8>)
        requires
            root_is_generic(*ty),
        ensures
            r@ == taccess_path(*ty, cst@),
        decreases ty,
    {
        let mut path = match ty.1 {
            Ty_::Tgeneric(of) => {
                let mut name: Vec<u8> = Vec::new();
                push_bytes(&mut name, of.0);
                assert(name@ =~= of.0@);
                name
            },
            Ty_::Taccess(of) => self.ctx_generic_for_generic_taccess_inner(of.0, of.1.1),
            _ => {
                assert(false);
                Vec::new()
            },
        };
        push_bytes(&mut path, literal("::"));
        push_bytes(&mut path, cst);
        path
    }

    pub fn ctx_generic_for_generic_taccess(&self, ty: &Ty<'a>, cst: &[u8]) -> (r: &'a [u8])
        requires
            root_is_generic(*ty),
        ensures
            r == generic_ctx_name(*ty, cst@),
            r@ == generic_ctx_bytes(*ty, cst@),
    {
        let path = self.ctx_generic_for_generic_taccess_inner(ty, cst);
        let mut buf: Vec<u8> = Vec::new();
        push_bytes(&mut buf, literal("T/["));
        push_bytes(&mut buf, path.as_slice());
        push_bytes(&mut buf, literal("]"));
        let r = alloc_slice_in(self.arena, buf.as_slice());
        assert(r@ =~= "T/[".spec_bytes() + taccess_path(*ty, cst@) + "]".spec_bytes());
        assert(slice_of(r@) == r);
        r
    }

    fn make_tparam(
        &self,
        name: PosId<'a>,
        constraints: Items<'a, (ConstraintKind, &'a Ty<'a>)>,
    ) -> (r: &'a Tparam<'a>)
        requires
            constraints == Items::of(constraints@),
        ensures
            r == added_tparam(name, constraints@),
    {
        let none: &'a [&'a Tparam<'a>] = &[];
        assert(none@ =~= Seq::<&'a Tparam<'a>>::empty());
        assert(slice_of(none@) == none);
        self.allocate(
            Tparam {
                variance: Variance::Invariant,
                name,
                tparams: none,
                constraints,
                reified: ReifyKind::Erased,
                user_attributes: Items::none(),
            },
        )
    }

    fn wrap_core(&self, ty: &Ty<'a>, core: Ty<'a>) -> (r: Ty<'a>)
        ensures
            r == with_core(*ty, core),
    {
        match ty.1 {
            Ty_::Tlike(inner) => match inner.1 {
                Ty_::Toption(_) => Ty(
                    ty.0,
                    Ty_::Tlike(self.allocate(Ty(inner.0, Ty_::Toption(self.allocate(core))))),
                ),
                _ => Ty(ty.0, Ty_::Tlike(self.allocate(core))),
            },
            Ty_::Toption(_) => Ty(ty.0, Ty_::Toption(self.allocate(core))),
            _ => core,
        }
    }

    /// For `ctx $f`: adds a type parameter, and rewrites the type of `$f` from
    /// `(function (ts)[_]: t)` to one with that parameter for its context.
    /// Any other type stays as it is.
    fn rewrite_fun_ctx(
        &self,
        tparams: &mut Vec<&'a Tparam<'a>>,
        ty: Ty<'a>,
        param_name: &[u8],
    ) -> (r: Option<Ty<'a>>)
        ensures
            match open_context(ty) {
                None => r is None && final(tparams)@ == old(tparams)@,
                Some(open) => r == Some(
                    with_capability(ty, open.0.0, fun_ctx_name(param_name@)),
                ) && final(tparams)@ == old(tparams)@.push(
                    unconstrained((open.1, fun_ctx_name(param_name@))),
                ) && realised(fun_ctx_bytes(param_name@)),
            },
    {
        let ft = match ty.1 {
            Ty_::Tfun(ft) => ft,
            _ => return None,
        };
        let cap = match ft.implicit_params.capability {
            Capability::CapTy(cap) => cap,
            Capability::CapDefaults(_) => return None,
        };
        let cap_ty = match cap.1 {
            Ty_::Tintersection(tys) => {
                if tys.len() == 1 {
                    *tys.at(0)
                } else {
                    cap
                }
            },
            _ => cap,
        };
        let pos = match cap_ty.1 {
            Ty_::Tapply(of) => {
                if is(of.0.1, "_") {
                    of.0.0
                } else {
                    return None;
                }
            },
            _ => return None,
        };
        let name = self.ctx_generic_for_fun(param_name);
        let tparam = self.make_tparam((pos, name), Items::none());
        tparams.push(tparam);
        let cap_ty = self.allocate(Ty(cap_ty.0, self.generic_plain(name)));
        let implicit_params = self.allocate(
            FunImplicitParams { capability: Capability::CapTy(cap_ty) },
        );
        Some(Ty(ty.0, Ty_::Tfun(self.allocate(FunType { implicit_params, ..*ft }))))
    }

    fn own_tparam(&self, ty: Ty<'a>, tparams: &Vec<&'a Tparam<'a>>) -> (r: bool)
        ensures
            r == is_own_tparam(ty, tparams@),
    {
        match ty.1 {
            Ty_::Tgeneric(of) => {
                let mut i: usize = 0;
                while i < tparams.len()
                    invariant
                        ty.1 == Ty_::Tgeneric(of),
                        i <= tparams@.len(),
                        forall|j: int| 0 <= j < i ==> (#[trigger] tparams@[j]).name.1@ != of.0@,
                    decreases tparams@.len() - i,
                {
                    if same(tparams[i].name.1, of.0) {
                        assert(tparams@[i as int].name.1@ == of.0@);
                        return true;
                    }
                    i = i + 1;
                }
                false
            },
            _ => false,
        }
    }

    /// For `$g::C`, where the type of `$g` is `G`: unless `G` is a type
    /// parameter of the function, adds a type parameter `T/$g as G` and
    /// replaces the type of `$g` by it; then adds a type parameter
    /// `T/[$g::C]` and a where clause that equates it with the constant.
    fn rewrite_arg_ctx(
        &self,
        tparams: &mut Vec<&'a Tparam<'a>>,
        where_constraints: &mut Vec<&'a WhereConstraint<'a>>,
        ty: Ty<'a>,
        param_pos: &'a Pos<'a>,
        name: &'a [u8],
        context_reason: &'a Reason<'a>,
        cst: PosId<'a>,
        Ghost(sig): Ghost<Signature<'a>>,
        Ghost(param_ty): Ghost<Ty<'a>>,
    ) -> (r: Ty<'a>)
        requires
            sig.tparams == old(tparams)@,
            sig.where_constraints == old(where_constraints)@,
            lookup(sig.ty_by_param.entries@, name@) == Some((param_ty, param_pos)),
            ty == core_ty(param_ty),
        ensures
            with_arg_ctx(sig, name, context_reason, cst) == (Signature {
                tparams: final(tparams)@,
                where_constraints: final(where_constraints)@,
                ty_by_param: sig.ty_by_param.added(name, (with_core(param_ty, r), param_pos)),
            }),
            !is_own_tparam(ty, sig.tparams) ==> realised(arg_bytes(name@)),
            realised(dependent_ctx_bytes(name@, cst.1@)),
    {
        let rewritten_ty = if self.own_tparam(ty, tparams) {
            ty
        } else {
            let new_name = concat(self.arena, literal("T/"), name);
            assert(slice_of(new_name@) == new_name);
            let constraint = Items::single(
                self.arena,
                (ConstraintKind::ConstraintAs, self.allocate(ty)),
            );
            tparams.push(self.make_tparam((param_pos, new_name), constraint));
            *self.hint(param_pos, self.generic_plain(new_name))
        };
        let ty = self.allocate(Ty(context_reason, rewritten_ty.1));
        let right = self.allocate(
            Ty(context_reason, Ty_::Taccess(self.allocate(TaccessType(ty, cst)))),
        );
        let left_pos = match context_reason.pos() {
            Some(pos) => pos,
            None => Pos::none(),
        };
        let left_name = self.ctx_generic_for_dependent(name, cst.1);
        tparams.push(self.make_tparam((left_pos, left_name), Items::none()));
        let left = self.allocate(Ty(context_reason, self.generic_plain(left_name)));
        where_constraints.push(
            self.allocate(WhereConstraint(left, ConstraintKind::ConstraintEq, right)),
        );
        rewritten_ty
    }

    fn types_by_param(&self, params: Items<'a, &'a FunParam<'a>>) -> (r: StrMap<
        'a,
        (Ty<'a>, &'a Pos<'a>),
    >)
        ensures
            r == param_tys(params@),
    {
        let mut table: StrMap<'a, (Ty<'a>, &'a Pos<'a>)> = StrMap::empty();
        let mut i: usize = 0;
        assert(params@.take(0) =~= Seq::<&'a FunParam<'a>>::empty());
        while i < params.len()
            invariant
                i <= params@.len(),
                table == param_tys(params@.take(i as int)),
            decreases params@.len() - i,
        {
            assert(params@.take(i + 1).drop_last() =~= params@.take(i as int));
            let param = *params.at(i);
            if let Some(name) = param.name {
                table = table.add(self.arena, name, (*param.type_.type_, param.pos));
            }
            i = i + 1;
        }
        assert(params@.take(i as int) =~= params@);
        table
    }

    fn retype(
        &self,
        params: Items<'a, &'a FunParam<'a>>,
        table: StrMap<'a, (Ty<'a>, &'a Pos<'a>)>,
    ) -> (r: Items<'a, &'a FunParam<'a>>)
        ensures
            r == Items::of(Seq::new(params@.len(), |i: int| retyped(params@[i], table))),
    {
        let mut new_params: Vec<&'a FunParam<'a>> = Vec::new();
        let mut i: usize = 0;
        while i < params.len()
            invariant
                i <= params@.len(),
                new_params@.len() == i,
                forall|j: int|
                    0 <= j < i ==> #[trigger] new_params@[j] == retyped(params@[j], table),
            decreases params@.len() - i,
        {
            let param = *params.at(i);
            let new_param = match param.name {
                None => param,
                Some(name) => match table.get(name) {
                    None => param,
                    Some(of) => {
                        let type_ = self.allocate(
                            PossiblyEnforcedTy { type_: self.allocate(of.0), ..*param.type_ },
                        );
                        self.allocate(FunParam { type_, ..*param })
                    },
                },
            };
            new_params.push(new_param);
            i = i + 1;
        }
        assert(new_params@ =~= Seq::new(params@.len(), |i: int| retyped(params@[i], table)));
        Items::copied(self.arena, new_params.as_slice())
    }

    fn spell_out(&self, ty: &'a Ty<'a>) -> (r: &'a Ty<'a>)
        ensures
            r == spelled_out(ty),
            spelled_out_name(*ty) matches Some(name) ==> realised(name),
    {
        let name = match ty.1 {
            Ty_::Tapply(of) => {
                if of.1.is_empty() && starts_with_byte(of.0.1, DOLLAR) {
                    self.ctx_generic_for_fun(of.0.1)
                } else {
                    return ty;
                }
            },
            Ty_::Taccess(of) => match of.0.1 {
                Ty_::Tapply(root) => {
                    if root.1.is_empty() && starts_with_byte(root.0.1, DOLLAR) {
                        self.ctx_generic_for_dependent(root.0.1, of.1.1)
                    } else {
                        return ty;
                    }
                },
                _ => {
                    if taccess_root_is_generic(of.0) {
                        self.ctx_generic_for_generic_taccess(of.0, of.1.1)
                    } else {
                        return ty;
                    }
                },
            },
            _ => return ty,
        };
        self.allocate(Ty(ty.0, self.generic_plain(name)))
    }

    pub fn rewrite_effect_polymorphism(
        &self,
        params: Items<'a, &'a FunParam<'a>>,
        tparams: Items<'a, &'a Tparam<'a>>,
        implicit_params: &'a FunImplicitParams<'a>,
        where_constraints: Items<'a, &'a WhereConstraint<'a>>,
    ) -> (r: (
        Items<'a, &'a FunParam<'a>>,
        Items<'a, &'a Tparam<'a>>,
        &'a FunImplicitParams<'a>,
        Items<'a, &'a WhereConstraint<'a>>,
    ))
        ensures
            r == effects_spelled_out(params, tparams, implicit_params, where_constraints),
            polymorphic_contexts(implicit_params.capability) matches Some(contexts) ==> named_from(
                r.1@,
                tparams@.len() as int,
                names_added(
                    Signature {
                        tparams: tparams@,
                        where_constraints: where_constraints@,
                        ty_by_param: param_tys(params@),
                    },
                    contexts,
                ),
            ) && contexts_realised(contexts),
    {
        let cap = match implicit_params.capability {
            Capability::CapTy(cap) => cap,
            Capability::CapDefaults(_) => {
                return (params, tparams, implicit_params, where_constraints);
            },
        };
        let context_tys = match cap.1 {
            Ty_::Tintersection(tys) => {
                if !has_polymorphic_context(tys) {
                    return (params, tparams, implicit_params, where_constraints);
                }
                tys
            },
            _ => {
                if !is_polymorphic(cap) {
                    return (params, tparams, implicit_params, where_constraints);
                }
                Items::single(self.arena, cap)
            },
        };
        let ghost initial = Signature {
            tparams: tparams@,
            where_constraints: where_constraints@,
            ty_by_param: param_tys(params@),
        };
        let mut new_tparams: Vec<&'a Tparam<'a>> = tparams.to_vec();
        let mut new_wheres: Vec<&'a WhereConstraint<'a>> = where_constraints.to_vec();
        let mut ty_by_param = self.types_by_param(params);
        let mut new_contexts: Vec<&'a Ty<'a>> = Vec::new();
        let mut i: usize = 0;
        assert(context_tys@.take(0) =~= Seq::<&'a Ty<'a>>::empty());
        while i < context_tys.len()
            invariant
                i <= context_tys@.len(),
                with_contexts(initial, context_tys@.take(i as int)) == (Signature {
                    tparams: new_tparams@,
                    where_constraints: new_wheres@,
                    ty_by_param,
                }),
                named_from(
                    new_tparams@,
                    tparams@.len() as int,
                    names_added(initial, context_tys@.take(i as int)),
                ),
                contexts_realised(context_tys@.take(i as int)),
                new_contexts@.len() == i,
                forall|j: int|
                    0 <= j < i ==> #[trigger] new_contexts@[j] == spelled_out(context_tys@[j]),
            decreases context_tys@.len() - i,
        {
            let context_ty = *context_tys.at(i);
            let ghost sig = with_contexts(initial, context_tys@.take(i as int));
            let ghost written = new_tparams@;
            assert(context_tys@.take(i + 1).drop_last() =~= context_tys@.take(i as int));
            match context_ty.1 {
                Ty_::Tapply(of) => {
                    let name = of.0.1;
                    if starts_with_byte(name, DOLLAR) {
                        if let Some(param) = ty_by_param.get(name) {
                            let core = core_of(&param.0);
                            if let Some(new_core) = self.rewrite_fun_ctx(
                                &mut new_tparams,
                                core,
                                name,
                            ) {
                                let new_ty = self.wrap_core(&param.0, new_core);
                                ty_by_param =
                                ty_by_param.add(self.arena, name, (new_ty, param.1));
                            }
                        }
                    }
                },
                Ty_::Taccess(of) => match of.0.1 {
                    Ty_::Tapply(root) => {
                        let name = root.0.1;
                        if let Some(param) = ty_by_param.get(name) {
                            let core = core_of(&param.0);
                            let new_core = self.rewrite_arg_ctx(
                                &mut new_tparams,
                                &mut new_wheres,
                                core,
                                param.1,
                                name,
                                context_ty.0,
                                of.1,
                                Ghost(sig),
                                Ghost(param.0),
                            );
                            let new_ty = self.wrap_core(&param.0, new_core);
                            ty_by_param = ty_by_param.add(self.arena, name, (new_ty, param.1));
                        }
                    },
                    _ => {
                        if taccess_root_is_generic(of.0) {
                            let left_pos = match context_ty.0.pos() {
                                Some(pos) => pos,
                                None => Pos::none(),
                            };
                            let left_name = self.ctx_generic_for_generic_taccess(of.0, of.1.1);
                            new_tparams.push(
                                self.make_tparam((left_pos, left_name), Items::none()),
                            );
                            let left = self.allocate(
                                Ty(context_ty.0, self.generic_plain(left_name)),
                            );
                            new_wheres.push(
                                self.allocate(
                                    WhereConstraint(
                                        left,
                                        ConstraintKind::ConstraintEq,
                                        context_ty,
                                    ),
                                ),
                            );
                        }
                    },
                },
                _ => {},
            }
            proof {
                let names = context_names(sig, context_ty);
                assert(new_tparams@.len() == written.len() + names.len());
                assert(forall|j: int| 0 <= j < written.len() ==> new_tparams@[j] == written[j]);
                assert(forall|j: int|
                    0 <= j < names.len() ==> new_tparams@[written.len() + j].name.1@ == names[j]);
            }
            new_contexts.push(self.spell_out(context_ty));
            i = i + 1;
        }
        assert(context_tys@.take(i as int) =~= context_tys@);
        assert(new_contexts@ =~= Seq::new(
            context_tys@.len(),
            |i: int| spelled_out(context_tys@[i]),
        ));
        let cap_ty = if new_contexts.len() == 1 {
            new_contexts[0]
        } else {
            self.allocate(
                Ty(
                    cap.0,
                    Ty_::Tintersection(Items::copied(self.arena, new_contexts.as_slice())),
                ),
            )
        };
        (
            self.retype(params, ty_by_param),
            Items::copied(self.arena, new_tparams.as_slice()),
            self.allocate(FunImplicitParams { capability: Capability::CapTy(cap_ty) }),
            Items::copied(self.arena, new_wheres.as_slice()),
        )
    }
}

/// Without a polymorphic context the signature of a function stays as it is.
pub proof fn law_plain_contexts_change_nothing<'a>(
    params: Items<'a, &'a FunParam<'a>>,
    tparams: Items<'a, &'a Tparam<'a>>,
    implicit_params: &'a FunImplicitParams<'a>,
    where_constraints: Items<'a, &'a WhereConstraint<'a>>,
)
    requires
        match implicit_params.capability {
            Capability::CapDefaults(_) => true,
            Capability::CapTy(ty) => match ty.1 {
                Ty_::Tintersection(tys) => !any_polymorphic(tys@),
                _ => !polymorphic(*ty),
            },
        },
    ensures
        effects_spelled_out(params, tparams, implicit_params, where_constraints) == (
            params,
            tparams,
            implicit_params,
            where_constraints,
        ),
{
}

proof fn lemma_contexts_only_add<'a>(sig: Signature<'a>, contexts: Seq<&'a Ty<'a>>)
    ensures
        sig.tparams.is_prefix_of(with_contexts(sig, contexts).tparams),
        sig.where_constraints.is_prefix_of(with_contexts(sig, contexts).where_constraints),
    decreases contexts.len(),
{
    if contexts.len() == 0 {
        assert(sig.tparams =~= sig.tparams.subrange(0, sig.tparams.len() as int));
        assert(sig.where_constraints =~= sig.where_constraints.subrange(
            0,
            sig.where_constraints.len() as int,
        ));
    } else {
        let before = with_contexts(sig, contexts.drop_last());
        let after = with_contexts(sig, contexts);
        lemma_contexts_only_add(sig, contexts.drop_last());
        assert(before.tparams =~= after.tparams.subrange(0, before.tparams.len() as int));
        assert(before.where_constraints =~= after.where_constraints.subrange(
            0,
            before.where_constraints.len() as int,
        ));
        assert(sig.tparams =~= after.tparams.subrange(0, sig.tparams.len() as int));
        assert(sig.where_constraints =~= after.where_constraints.subrange(
            0,
            sig.where_constraints.len() as int,
        ));
    }
}

/// Whether a context depends on the parameter with the given name.
pub open spec fn mentions<'a>(context_ty: Ty<'a>, name: Seq<u8>) -> bool {
    match context_ty.1 {
        Ty_::Tapply(of) => of.0.1@ == name,
        Ty_::Taccess(of) => of.0.1 matches Ty_::Tapply(root) && root.0.1@ == name,
        _ => false,
    }
}

/// Whether no context depends on a parameter. Where two parameters have one
/// name, it means the later one.
pub open spec fn unmentioned<'a>(
    params: Seq<&'a FunParam<'a>>,
    contexts: Seq<&'a Ty<'a>>,
    i: int,
) -> bool {
    params[i].name matches Some(name) ==> {
        &&& forall|j: int|
            i < j < params.len() ==> ((#[trigger] params[j]).name matches Some(later) ==> later@
                != name@)
        &&& forall|j: int|
            0 <= j < contexts.len() ==> !mentions(*#[trigger] contexts[j], name@)
    }
}

proof fn lemma_unmentioned_stays<'a>(
    sig: Signature<'a>,
    contexts: Seq<&'a Ty<'a>>,
    name: Seq<u8>,
)
    requires
        forall|j: int| 0 <= j < contexts.len() ==> !mentions(*#[trigger] contexts[j], name),
    ensures
        lookup(with_contexts(sig, contexts).ty_by_param.entries@, name) == lookup(
            sig.ty_by_param.entries@,
            name,
        ),
    decreases contexts.len(),
{
    if contexts.len() > 0 {
        let rest = contexts.drop_last();
        assert forall|j: int| 0 <= j < rest.len() implies !mentions(*#[trigger] rest[j], name) by {
            assert(rest[j] == contexts[j]);
        }
        lemma_unmentioned_stays(sig, rest, name);
        let before = with_contexts(sig, rest);
        let context_ty = contexts.last();
        assert(!mentions(*contexts[contexts.len() - 1], name));
        let asked: Option<&'a [u8]> = match context_ty.1 {
            Ty_::Tapply(of) => Some(of.0.1),
            Ty_::Taccess(of) => match of.0.1 {
                Ty_::Tapply(root) => Some(root.0.1),
                _ => None,
            },
            _ => None,
        };
        if let Some(key) = asked {
            let entries = before.ty_by_param.entries@;
            assert forall|value: (Ty<'a>, &'a Pos<'a>)| lookup(
                (#[trigger] before.ty_by_param.added(key, value)).entries@,
                name,
            ) == lookup(entries, name) by {
                lemma_lookup_with_entry(entries, key, value, name);
            }
        }
    }
}

proof fn lemma_param_ty<'a>(params: Seq<&'a FunParam<'a>>, i: int)
    requires
        0 <= i < params.len(),
        params[i].name is Some,
        forall|j: int|
            i < j < params.len() ==> ((#[trigger] params[j]).name matches Some(later) ==> later@
                != params[i].name->Some_0@),
    ensures
        lookup(param_tys(params).entries@, params[i].name->Some_0@) == Some(
            (*params[i].type_.type_, params[i].pos),
        ),
    decreases params.len(),
{
    let name = params[i].name->Some_0;
    let rest = params.drop_last();
    let last = params.last();
    if let Some(key) = last.name {
        lemma_lookup_with_entry(
            param_tys(rest).entries@,
            key,
            (*last.type_.type_, last.pos),
            name@,
        );
    }
    if i < rest.len() {
        assert(params[params.len() - 1] == last);
        assert forall|j: int| i < j < rest.len() implies ((#[trigger] rest[j]).name matches Some(
            later,
        ) ==> later@ != name@) by {
            assert(rest[j] == params[j]);
        }
        lemma_param_ty(rest, i);
    }
}

/// Spelling out contexts keeps the type parameters and where clauses that were
/// written, in front, and every parameter in its place with its name, its
/// position and its flags. A parameter that no context depends on stays as it
/// is.
pub proof fn law_spelling_out_keeps_the_signature<'a>(
    params: Items<'a, &'a FunParam<'a>>,
    tparams: Items<'a, &'a Tparam<'a>>,
    implicit_params: &'a FunImplicitParams<'a>,
    where_constraints: Items<'a, &'a WhereConstraint<'a>>,
)
    ensures
        ({
            let r = effects_spelled_out(params, tparams, implicit_params, where_constraints);
            &&& tparams@.is_prefix_of(r.1@)
            &&& where_constraints@.is_prefix_of(r.3@)
            &&& r.0@.len() == params@.len()
            &&& forall|i: int|
                0 <= i < params@.len() ==> {
                    &&& (#[trigger] r.0@[i]).name == params@[i].name
                    &&& r.0@[i].pos == params@[i].pos
                    &&& r.0@[i].flags == params@[i].flags
                    &&& r.0@[i].type_.enforced == params@[i].type_.enforced
                }
            &&& match polymorphic_contexts(implicit_params.capability) {
                None => r.0 == params,
                Some(contexts) => forall|i: int|
                    0 <= i < params@.len() && #[trigger] unmentioned(params@, contexts, i)
                        ==> r.0@[i] == params@[i],
            }
        }),
{
    match polymorphic_contexts(implicit_params.capability) {
        None => {
            assert(tparams@ =~= tparams@.subrange(0, tparams@.len() as int));
            assert(where_constraints@ =~= where_constraints@.subrange(
                0,
                where_constraints@.len() as int,
            ));
        },
        Some(contexts) => {
            let written = Signature {
                tparams: tparams@,
                where_constraints: where_constraints@,
                ty_by_param: param_tys(params@),
            };
            lemma_contexts_only_add(written, contexts);
            let r = effects_spelled_out(params, tparams, implicit_params, where_constraints);
            assert forall|i: int|
                0 <= i < params@.len() && #[trigger] unmentioned(params@, contexts, i) implies r.0@[i]
                == params@[i] by {
                if let Some(name) = params@[i].name {
                    lemma_param_ty(params@, i);
                    lemma_unmentioned_stays(written, contexts, name@);
                }
            }
        },
    }
}

/// After a context has been spelled out no part of it is left that depends on
/// a parameter.
pub proof fn law_spelled_out_context_is_a_type_parameter<'a>(ty: &'a Ty<'a>)
    requires
        match ty.1 {
            Ty_::Tapply(of) => of.1@.len() == 0 && begins_with(of.0.1@, DOLLAR),
            Ty_::Taccess(of) => root_is_generic(*of.0) || (of.0.1 matches Ty_::Tapply(root)
                && root.1@.len() == 0 && begins_with(root.0.1@, DOLLAR)),
            _ => false,
        },
    ensures
        spelled_out(ty).1 is Tgeneric,
        spelled_out(ty).0 == ty.0,
        !polymorphic(*spelled_out(ty)),
{
}

/// Whether a function type agrees with another in all but its capability.
pub open spec fn only_capability_differs<'a>(written: FunType<'a>, read: FunType<'a>) -> bool {
    &&& read.arity == written.arity
    &&& read.tparams == written.tparams
    &&& read.where_constraints == written.where_constraints
    &&& read.params == written.params
    &&& read.ret == written.ret
    &&& read.flags == written.flags
    &&& read.ifc_decl == written.ifc_decl
}

/// Whether a type is a type parameter of the given name, without arguments.
pub open spec fn is_param_named<'a>(ty: Ty<'a>, name: Seq<u8>) -> bool {
    ty.1 matches Ty_::Tgeneric(of) && of.0 == slice_of::<'a>(name) && of.1@.len() == 0
}

/// Whether one type is another with the capability of the function type in it
/// replaced by a type parameter of the given name.
pub open spec fn capability_replaced<'a>(written: Ty<'a>, read: Ty<'a>, name: Seq<u8>) -> bool
    decreases written,
{
    &&& read.0 == written.0
    &&& match (written.1, read.1) {
        (Ty_::Tlike(w), Ty_::Tlike(r)) => capability_replaced(*w, *r, name),
        (Ty_::Toption(w), Ty_::Toption(r)) => capability_replaced(*w, *r, name),
        (Ty_::Tfun(w), Ty_::Tfun(r)) => {
            &&& only_capability_differs(*w, *r)
            &&& r.implicit_params.capability matches Capability::CapTy(cap) && is_param_named(
                *cap,
                name,
            )
        },
        _ => false,
    }
}

/// Whether a context is `_`.
pub open spec fn is_wildcard<'a>(ty: Ty<'a>) -> bool {
    ty.1 matches Ty_::Tapply(of) && of.0.1@ == "_".spec_bytes()
}

/// Whether a type is that of a function with `_` for its only context.
pub open spec fn is_open_fun<'a>(ty: Ty<'a>) -> bool {
    ty.1 matches Ty_::Tfun(ft) && ft.implicit_params.capability matches Capability::CapTy(cap) && (
    is_wildcard(*cap) || (cap.1 matches Ty_::Tintersection(tys) && tys@.len() == 1 && is_wildcard(
        *tys@[0],
    )))
}

/// Whether a type is `f`, `?f`, `~f` or `~?f` for such a function type `f`.
pub open spec fn takes_open_fun<'a>(ty: Ty<'a>) -> bool {
    ||| is_open_fun(ty)
    ||| ty.1 matches Ty_::Toption(inner) && is_open_fun(*inner)
    ||| ty.1 matches Ty_::Tlike(inner) && (is_open_fun(*inner) || (
    inner.1 matches Ty_::Toption(innermost) && is_open_fun(*innermost)))
}

/// The contexts that make up a capability.
pub open spec fn contexts_written<'a>(capability: Capability<'a>) -> Seq<&'a Ty<'a>> {
    match capability {
        Capability::CapTy(ty) => match ty.1 {
            Ty_::Tintersection(tys) => tys@,
            _ => seq![ty],
        },
        Capability::CapDefaults(_) => Seq::<&'a Ty<'a>>::empty(),
    }
}

/// Whether a context is `ctx $f` for the given `$f`.
pub open spec fn is_fun_ctx<'a>(context_ty: Ty<'a>, name: Seq<u8>) -> bool {
    context_ty.1 matches Ty_::Tapply(of) && of.0.1@ == name
}

/// Whether a context is `$g::C` for the given `$g`.
pub open spec fn is_arg_ctx<'a>(context_ty: Ty<'a>, name: Seq<u8>) -> bool {
    context_ty.1 matches Ty_::Taccess(of) && of.0.1 matches Ty_::Tapply(root) && root.0.1@ == name
}

/// Whether a type parameter is one that nothing constrains.
pub open spec fn is_bare_tparam<'a>(tparam: Tparam<'a>, name: Seq<u8>) -> bool {
    &&& tparam.name.1 == slice_of::<'a>(name)
    &&& tparam.variance == Variance::Invariant
    &&& tparam.reified == ReifyKind::Erased
    &&& tparam.constraints@.len() == 0
    &&& tparam.user_attributes@.len() == 0
    &&& tparam.tparams == slice_of(Seq::<&'a Tparam<'a>>::empty())
}

/// The type of `$f` once `ctx $f` has been spelled out.
spec fn fun_ctx_target<'a>(ty: Ty<'a>, name: Seq<u8>) -> Ty<'a> {
    with_core(
        ty,
        with_capability(
            core_ty(ty),
            open_context(core_ty(ty))->Some_0.0.0,
            fun_ctx_name(name),
        ),
    )
}

proof fn lemma_fun_ctx_target<'a>(ty: Ty<'a>, name: Seq<u8>)
    requires
        takes_open_fun(ty),
    ensures
        open_context(core_ty(ty)) is Some,
        capability_replaced(
            ty,
            fun_ctx_target(ty, name),
            "T/[ctx ".spec_bytes() + name + "]".spec_bytes(),
        ),
        open_context(core_ty(fun_ctx_target(ty, name))) is None,
{
    reveal_with_fuel(capability_replaced, 4);
}

spec fn has_fun_ctx<'a>(contexts: Seq<&'a Ty<'a>>, name: Seq<u8>) -> bool {
    exists|k: int| 0 <= k < contexts.len() && is_fun_ctx(*#[trigger] contexts[k], name)
}

proof fn lemma_fun_ctx<'a>(
    sig: Signature<'a>,
    contexts: Seq<&'a Ty<'a>>,
    name: Seq<u8>,
    ty: Ty<'a>,
    pos: &'a Pos<'a>,
)
    requires
        lookup(sig.ty_by_param.entries@, name) == Some((ty, pos)),
        takes_open_fun(ty),
        begins_with(name, DOLLAR),
        forall|j: int| 0 <= j < contexts.len() ==> !is_arg_ctx(*#[trigger] contexts[j], name),
    ensures
        ({
            let after = with_contexts(sig, contexts);
            &&& lookup(after.ty_by_param.entries@, name) == Some(
                (
                    if has_fun_ctx(contexts, name) {
                        fun_ctx_target(ty, name)
                    } else {
                        ty
                    },
                    pos,
                ),
            )
            &&& sig.tparams.len() <= after.tparams.len()
            &&& has_fun_ctx(contexts, name) ==> exists|t: int|
                sig.tparams.len() <= t < after.tparams.len() && is_bare_tparam(
                    *#[trigger] after.tparams[t],
                    fun_ctx_bytes(name),
                )
        }),
    decreases contexts.len(),
{
    lemma_fun_ctx_target(ty, name);
    if contexts.len() > 0 {
        let rest = contexts.drop_last();
        assert forall|j: int| 0 <= j < rest.len() implies !is_arg_ctx(
            *#[trigger] rest[j],
            name,
        ) by {
            assert(rest[j] == contexts[j]);
        }
        lemma_fun_ctx(sig, rest, name, ty, pos);
        let before = with_contexts(sig, rest);
        let after = with_contexts(sig, contexts);
        let context_ty = contexts.last();
        assert(context_ty == contexts[contexts.len() - 1]);
        assert(!is_arg_ctx(*contexts[contexts.len() - 1], name));
        lemma_one_context_adds(before, context_ty);
        if has_fun_ctx(rest, name) {
            let k = choose|k: int| 0 <= k < rest.len() && is_fun_ctx(*#[trigger] rest[k], name);
            assert(is_fun_ctx(*contexts[k], name));
            let t = choose|t: int|
                sig.tparams.len() <= t < before.tparams.len() && is_bare_tparam(
                    *#[trigger] before.tparams[t],
                    fun_ctx_bytes(name),
                );
            assert(after.tparams[t] == before.tparams[t]);
        }
        if has_fun_ctx(contexts, name) && !has_fun_ctx(rest, name) {
            let k = choose|k: int|
                0 <= k < contexts.len() && is_fun_ctx(*#[trigger] contexts[k], name);
            if k < rest.len() {
                assert(is_fun_ctx(*rest[k], name));
            }
            assert(is_fun_ctx(*context_ty, name));
        }
        let asked: Option<&'a [u8]> = match context_ty.1 {
            Ty_::Tapply(of) => Some(of.0.1),
            Ty_::Taccess(of) => match of.0.1 {
                Ty_::Tapply(root) => Some(root.0.1),
                _ => None,
            },
            _ => None,
        };
        if let Some(key) = asked {
            let entries = before.ty_by_param.entries@;
            assert forall|value: (Ty<'a>, &'a Pos<'a>)| lookup(
                (#[trigger] before.ty_by_param.added(key, value)).entries@,
                name,
            ) == (if key@ == name {
                Some(value)
            } else {
                lookup(entries, name)
            }) by {
                lemma_lookup_with_entry(entries, key, value, name);
            }
        }
        if is_fun_ctx(*context_ty, name) {
            assert(is_fun_ctx(*contexts[contexts.len() - 1], name));
            if !has_fun_ctx(rest, name) {
                let n = before.tparams.len() as int;
                assert(is_bare_tparam(*after.tparams[n], fun_ctx_bytes(name)));
            }
        }
    }
}

proof fn lemma_one_context_adds<'a>(sig: Signature<'a>, context_ty: &'a Ty<'a>)
    ensures
        ({
            let after = with_context(sig, context_ty);
            &&& sig.tparams.len() <= after.tparams.len() <= sig.tparams.len() + 2
            &&& sig.where_constraints.len() <= after.where_constraints.len()
                <= sig.where_constraints.len() + 1
            &&& forall|t: int| 0 <= t < sig.tparams.len() ==> after.tparams[t] == sig.tparams[t]
            &&& forall|t: int|
                0 <= t < sig.where_constraints.len() ==> after.where_constraints[t]
                    == sig.where_constraints[t]
        }),
{
}

/// Where a context is `ctx $f` and the type of `$f` is that of a function with
/// the context `_`, inside `~` and `?` or not, this type keeps its parameters,
/// its result and everything else but its capability, which becomes a type
/// parameter `T/[ctx $f]`. The function gets that type parameter.
pub proof fn law_fun_ctx_replaces_the_capability_alone<'a>(
    params: Items<'a, &'a FunParam<'a>>,
    tparams: Items<'a, &'a Tparam<'a>>,
    implicit_params: &'a FunImplicitParams<'a>,
    where_constraints: Items<'a, &'a WhereConstraint<'a>>,
    i: int,
    k: int,
)
    requires
        0 <= i < params@.len(),
        params@[i].name is Some,
        begins_with(params@[i].name->Some_0@, DOLLAR),
        forall|j: int|
            i < j < params@.len() ==> ((#[trigger] params@[j]).name matches Some(later) ==> later@
                != params@[i].name->Some_0@),
        takes_open_fun(*params@[i].type_.type_),
        0 <= k < contexts_written(implicit_params.capability).len(),
        is_fun_ctx(
            *contexts_written(implicit_params.capability)[k],
            params@[i].name->Some_0@,
        ),
        forall|j: int|
            0 <= j < contexts_written(implicit_params.capability).len() ==> !is_arg_ctx(
                *#[trigger] contexts_written(implicit_params.capability)[j],
                params@[i].name->Some_0@,
            ),
        contexts_written(implicit_params.capability)[k].1->Tapply_0.1@.len() == 0,
    ensures
        ({
            let r = effects_spelled_out(params, tparams, implicit_params, where_constraints);
            let name = params@[i].name->Some_0@;
            let ctx = "T/[ctx ".spec_bytes() + name + "]".spec_bytes();
            &&& r.0@.len() == params@.len()
            &&& capability_replaced(*params@[i].type_.type_, *r.0@[i].type_.type_, ctx)
            &&& exists|t: int|
                tparams@.len() <= t < r.1@.len() && is_bare_tparam(*#[trigger] r.1@[t], ctx)
        }),
{
    let contexts = contexts_written(implicit_params.capability);
    let name = params@[i].name->Some_0@;
    let written = Signature {
        tparams: tparams@,
        where_constraints: where_constraints@,
        ty_by_param: param_tys(params@),
    };
    assert(name[0] == DOLLAR);
    assert(contexts[k].1->Tapply_0.0.1@.contains(DOLLAR));
    assert(polymorphic(*contexts[k]));
    assert(polymorphic_contexts(implicit_params.capability) == Some(contexts));
    lemma_param_ty(params@, i);
    lemma_fun_ctx(written, contexts, name, *params@[i].type_.type_, params@[i].pos);
    lemma_fun_ctx_target(*params@[i].type_.type_, name);
    assert(has_fun_ctx(contexts, name));
    let r = effects_spelled_out(params, tparams, implicit_params, where_constraints);
    let sig = with_contexts(written, contexts);
    assert(r.1@ == sig.tparams);
    let t = choose|t: int|
        written.tparams.len() <= t < sig.tparams.len() && is_bare_tparam(
            *#[trigger] sig.tparams[t],
            fun_ctx_bytes(name),
        );
    assert(is_bare_tparam(*r.1@[t], fun_ctx_bytes(name)));
}

/// Each context of a function is spelled out in its place and for the same
/// reason: `ctx $f` as `T/[ctx $f]`, `$g::C` as `T/[$g::C]`. A context of
/// another form than those and `T::C` stays as it is. One context is a
/// capability by itself; several keep the reason of the whole.
pub proof fn law_contexts_keep_their_places<'a>(
    params: Items<'a, &'a FunParam<'a>>,
    tparams: Items<'a, &'a Tparam<'a>>,
    implicit_params: &'a FunImplicitParams<'a>,
    where_constraints: Items<'a, &'a WhereConstraint<'a>>,
    i: int,
)
    requires
        0 <= i < contexts_written(implicit_params.capability).len(),
        any_polymorphic(contexts_written(implicit_params.capability)),
    ensures
        ({
            let r = effects_spelled_out(params, tparams, implicit_params, where_constraints);
            let contexts = contexts_written(implicit_params.capability);
            let read = contexts_written(r.2.capability);
            &&& r.2.capability matches Capability::CapTy(cap) && (contexts.len() > 1
                ==> cap.1 is Tintersection && cap.0 == implicit_params.capability->CapTy_0.0)
            &&& contexts.len() != 1 ==> read.len() == contexts.len()
            &&& {
                let context = *contexts[i];
                let spelled = if contexts.len() == 1 {
                    *r.2.capability->CapTy_0
                } else {
                    *read[i]
                };
                &&& spelled.0 == context.0
                &&& forall|name: Seq<u8>|
                    begins_with(name, DOLLAR) && #[trigger] is_fun_ctx(context, name)
                        && context.1->Tapply_0.1@.len() == 0 ==> is_param_named(
                        spelled,
                        "T/[ctx ".spec_bytes() + name + "]".spec_bytes(),
                    )
                &&& forall|name: Seq<u8>|
                    begins_with(name, DOLLAR) && #[trigger] is_arg_ctx(context, name)
                        && context.1->Taccess_0.0.1->Tapply_0.1@.len() == 0 ==> is_param_named(
                        spelled,
                        "T/[".spec_bytes() + name + "::".spec_bytes()
                            + context.1->Taccess_0.1.1@ + "]".spec_bytes(),
                    )
                &&& !polymorphic(context) && !(context.1 is Taccess) && !(context.1 is Tapply
                    && begins_with(context.1->Tapply_0.0.1@, DOLLAR)) ==> spelled == context
            }
        }),
{
    let contexts = contexts_written(implicit_params.capability);
    let cap = implicit_params.capability->CapTy_0;
    if !(cap.1 is Tintersection) {
        assert(contexts[0] == cap);
    }
    assert(polymorphic_contexts(implicit_params.capability) == Some(contexts));
}

/// For `$g::C`, where `$g` is a parameter of type `G`: the function gets a type
/// parameter `T/[$g::C]` at the end, and a where clause that equates it with
/// `X::C`, where `X` is what the type of `$g` has become. That is `G` itself
/// where `G` is a type parameter of the function. Elsewhere it is a new type
/// parameter `T/$g` that `G` constrains. Other parameters keep their types.
pub proof fn law_arg_ctx_is_a_constant_of_the_type<'a>(
    sig: Signature<'a>,
    context_ty: &'a Ty<'a>,
    name: Seq<u8>,
    ty: Ty<'a>,
    pos: &'a Pos<'a>,
    other: Seq<u8>,
)
    requires
        is_arg_ctx(*context_ty, name),
        lookup(sig.ty_by_param.entries@, name) == Some((ty, pos)),
        other != name,
    ensures
        ({
            let after = with_context(sig, context_ty);
            let cst = context_ty.1->Taccess_0.1;
            let ctx = "T/[".spec_bytes() + name + "::".spec_bytes() + cst.1@ + "]".spec_bytes();
            let core = core_ty(ty);
            let own = core.1 matches Ty_::Tgeneric(of) && exists|i: int|
                0 <= i < sig.tparams.len() && (#[trigger] sig.tparams[i]).name.1@ == of.0@;
            let n = sig.tparams.len() as int;
            let m = sig.where_constraints.len() as int;
            &&& lookup(after.ty_by_param.entries@, other) == lookup(
                sig.ty_by_param.entries@,
                other,
            )
            &&& lookup(after.ty_by_param.entries@, name) matches Some(now) && now.1 == pos && {
                let clause = *after.where_constraints[m];
                let new_core = core_ty(now.0);
                &&& now.0 == with_core(ty, new_core)
                &&& own ==> now.0 == ty && after.tparams.len() == n + 1
                &&& !own ==> {
                    &&& is_param_named(new_core, "T/".spec_bytes() + name)
                    &&& new_core.0 == &Reason::Rhint(pos)
                    &&& after.tparams.len() == n + 2
                    &&& after.tparams[n].name == (pos, slice_of::<'a>("T/".spec_bytes() + name))
                    &&& after.tparams[n].variance == Variance::Invariant
                    &&& after.tparams[n].reified == ReifyKind::Erased
                    &&& after.tparams[n].constraints@ == seq![
                        (ConstraintKind::ConstraintAs, &core),
                    ]
                }
                &&& is_bare_tparam(*after.tparams.last(), ctx)
                &&& context_ty.0.at() matches Some(at) ==> after.tparams.last().name.0 == at
                &&& context_ty.0.at() is None ==> *after.tparams.last().name.0 is NoPos
                &&& after.where_constraints.len() == m + 1
                &&& is_param_named(*clause.0, ctx)
                &&& clause.0.0 == context_ty.0
                &&& clause.1 == ConstraintKind::ConstraintEq
                &&& clause.2.0 == context_ty.0
                &&& clause.2.1 matches Ty_::Taccess(access) && access.0.1 == new_core.1 && access.1
                    == cst
            }
        }),
{
    let key = context_ty.1->Taccess_0.0.1->Tapply_0.0.1;
    assert forall|value: (Ty<'a>, &'a Pos<'a>)|
        lookup((#[trigger] sig.ty_by_param.added(key, value)).entries@, name) == Some(value)
            && lookup(sig.ty_by_param.added(key, value).entries@, other) == lookup(
            sig.ty_by_param.entries@,
            other,
        ) by {
        lemma_lookup_with_entry(sig.ty_by_param.entries@, key, value, name);
        lemma_lookup_with_entry(sig.ty_by_param.entries@, key, value, other);
    }
}

/// What is done to a type is done inside its `~` and `?`: these stay around it,
/// each for its reason.
pub proof fn law_nullable_and_like_stay_around<'a>(ty: Ty<'a>, core: Ty<'a>)
    ensures
        match ty.1 {
            Ty_::Tlike(inner) => with_core(ty, core).0 == ty.0 && (with_core(
                ty,
                core,
            ).1 matches Ty_::Tlike(new_inner) && match inner.1 {
                Ty_::Toption(innermost) => core_ty(ty) == *innermost && new_inner.0 == inner.0 && (
                new_inner.1 matches Ty_::Toption(new_innermost) && *new_innermost == core),
                _ => core_ty(ty) == *inner && *new_inner == core,
            }),
            Ty_::Toption(inner) => core_ty(ty) == *inner && with_core(ty, core).0 == ty.0 && (
            with_core(ty, core).1 matches Ty_::Toption(new_inner) && *new_inner == core),
            _ => core_ty(ty) == ty && with_core(ty, core) == core,
        },
        with_core(ty, core_ty(ty)) == ty,
{
}

/// For `T::C` and `T::C::D`, where `T` is a type parameter: the function gets
/// one more type parameter with the path in its name, and a where clause that
/// equates it with the context. No parameter changes.
pub proof fn law_generic_ctx_is_equated<'a>(sig: Signature<'a>, context_ty: &'a Ty<'a>)
    requires
        context_ty.1 matches Ty_::Taccess(of) && match of.0.1 {
            Ty_::Tgeneric(root) => root.1@.len() == 0,
            _ => false,
        },
    ensures
        ({
            let after = with_context(sig, context_ty);
            let of = context_ty.1->Taccess_0;
            let ctx = "T/[".spec_bytes() + (of.0.1->Tgeneric_0.0@ + "::".spec_bytes() + of.1.1@)
                + "]".spec_bytes();
            let clause = *after.where_constraints.last();
            &&& after.ty_by_param == sig.ty_by_param
            &&& after.tparams.len() == sig.tparams.len() + 1
            &&& after.tparams.drop_last() == sig.tparams
            &&& is_bare_tparam(*after.tparams.last(), ctx)
            &&& context_ty.0.at() matches Some(at) ==> after.tparams.last().name.0 == at
            &&& context_ty.0.at() is None ==> *after.tparams.last().name.0 is NoPos
            &&& after.where_constraints.len() == sig.where_constraints.len() + 1
            &&& after.where_constraints.drop_last() == sig.where_constraints
            &&& is_param_named(*clause.0, ctx)
            &&& clause.0.0 == context_ty.0
            &&& clause.1 == ConstraintKind::ConstraintEq
            &&& clause.2 == context_ty
            &&& spelled_out(context_ty).0 == context_ty.0
            &&& is_param_named(*spelled_out(context_ty), ctx)
        }),
{
    reveal_with_fuel(taccess_path, 2);
    reveal_with_fuel(root_is_generic, 2);
    let after = with_context(sig, context_ty);
    assert(after.tparams.drop_last() =~= sig.tparams);
    assert(after.where_constraints.drop_last() =~= sig.where_constraints);
}

/// A longer path of type constants is written behind a shorter one.
pub proof fn law_path_of_constants<'a>(ty: Ty<'a>, cst: Seq<u8>)
    requires
        ty.1 is Taccess,
    ensures
        taccess_path(ty, cst) == taccess_path(*ty.1->Taccess_0.0, ty.1->Taccess_0.1.1@)
            + "::".spec_bytes() + cst,
        root_is_generic(ty) == root_is_generic(*ty.1->Taccess_0.0),
{
}

/// Contexts are spelled out one behind the other, from the first to the last.
pub proof fn law_contexts_in_order<'a>(
    sig: Signature<'a>,
    contexts: Seq<&'a Ty<'a>>,
    context_ty: &'a Ty<'a>,
)
    ensures
        with_contexts(sig, Seq::<&'a Ty<'a>>::empty()) == sig,
        with_contexts(sig, contexts.push(context_ty)) == with_context(
            with_contexts(sig, contexts),
            context_ty,
        ),
{
    assert(contexts.push(context_ty).drop_last() =~= contexts);
}

/// With one context, `$g::C`, where the type `G` of `$g` is not a type
/// parameter: the function has two more type parameters, `T/$g as G` and
/// `T/[$g::C]`, one more where clause, `T/$g` for the type of `$g`, and
/// `T/[$g::C]` for its capability.
pub proof fn law_one_arg_ctx<'a>(
    params: Items<'a, &'a FunParam<'a>>,
    tparams: Items<'a, &'a Tparam<'a>>,
    context_ty: &'a Ty<'a>,
    where_constraints: Items<'a, &'a WhereConstraint<'a>>,
    i: int,
)
    requires
        0 <= i < params@.len(),
        params@[i].name is Some,
        begins_with(params@[i].name->Some_0@, DOLLAR),
        forall|j: int|
            i < j < params@.len() ==> ((#[trigger] params@[j]).name matches Some(later) ==> later@
                != params@[i].name->Some_0@),
        is_arg_ctx(*context_ty, params@[i].name->Some_0@),
        context_ty.1->Taccess_0.0.1->Tapply_0.1@.len() == 0,
        !(params@[i].type_.type_.1 is Tgeneric),
        !(params@[i].type_.type_.1 is Tlike),
        !(params@[i].type_.type_.1 is Toption),
    ensures
        ({
            let r = effects_spelled_out(
                params,
                tparams,
                &FunImplicitParams { capability: Capability::CapTy(context_ty) },
                where_constraints,
            );
            let name = params@[i].name->Some_0@;
            let cst = context_ty.1->Taccess_0.1;
            let ctx = "T/[".spec_bytes() + name + "::".spec_bytes() + cst.1@ + "]".spec_bytes();
            let n = tparams@.len() as int;
            let clause = *r.3@.last();
            &&& is_param_named(*r.0@[i].type_.type_, "T/".spec_bytes() + name)
            &&& r.1@.len() == n + 2
            &&& r.1@[n].name.1 == slice_of::<'a>("T/".spec_bytes() + name)
            &&& r.1@[n].constraints@ == seq![
                (ConstraintKind::ConstraintAs, params@[i].type_.type_),
            ]
            &&& is_bare_tparam(*r.1@[n + 1], ctx)
            &&& r.2.capability matches Capability::CapTy(cap) && is_param_named(*cap, ctx)
            &&& r.3@.len() == where_constraints@.len() + 1
            &&& is_param_named(*clause.0, ctx)
            &&& clause.1 == ConstraintKind::ConstraintEq
            &&& clause.2.1 matches Ty_::Taccess(access) && access.1 == cst && is_param_named(
                *access.0,
                "T/".spec_bytes() + name,
            )
        }),
{
    let contexts = seq![context_ty];
    let name = params@[i].name->Some_0@;
    assert(name[0] == DOLLAR);
    assert(context_ty.1->Taccess_0.0.1->Tapply_0.0.1@.contains(DOLLAR));
    let written = Signature {
        tparams: tparams@,
        where_constraints: where_constraints@,
        ty_by_param: param_tys(params@),
    };
    assert(contexts.drop_last() =~= Seq::<&'a Ty<'a>>::empty());
    reveal_with_fuel(with_contexts, 2);
    lemma_param_ty(params@, i);
    law_arg_ctx_is_a_constant_of_the_type(
        written,
        context_ty,
        name,
        *params@[i].type_.type_,
        params@[i].pos,
        name.push(DOLLAR),
    );
    assert(with_contexts(written, contexts) == with_context(written, context_ty));
}

/// A context depends on something exactly where it is a plain name with a dollar
/// sign in it, a constant of such a name, or a path of constants that begins at a
/// type parameter without arguments.
pub proof fn law_which_contexts_are_polymorphic<'a>(ty: Ty<'a>)
    ensures
        ({
            let is_variable = ty.1 matches Ty_::Tapply(of) && of.1@.len() == 0
                && of.0.1@.contains(DOLLAR);
            let of_variable = ty.1 matches Ty_::Taccess(of) && (of.0.1 matches Ty_::Tapply(root)
                && root.1@.len() == 0 && root.0.1@.contains(DOLLAR));
            let of_param = ty.1 matches Ty_::Taccess(of) && (of.0.1 matches Ty_::Tgeneric(root)
                && root.1@.len() == 0);
            let of_path = ty.1 matches Ty_::Taccess(of) && of.0.1 is Taccess && root_is_generic(
                *of.0,
            );
            polymorphic(ty) <==> is_variable || of_variable || of_param || of_path
        }),
{
    reveal_with_fuel(root_is_generic, 2);
}

/// The context `ctx $f` adds one type parameter, where `_` stands in the type of
/// `$f`, and no where clause. The types of other parameters stay. Where `$f` is
/// no parameter, or has another type, nothing changes.
pub proof fn law_one_fun_ctx<'a>(
    sig: Signature<'a>,
    context_ty: &'a Ty<'a>,
    name: Seq<u8>,
    other: Seq<u8>,
)
    requires
        is_fun_ctx(*context_ty, name),
        begins_with(name, DOLLAR),
        other != name,
    ensures
        ({
            let after = with_context(sig, context_ty);
            let param = lookup(sig.ty_by_param.entries@, name);
            let n = sig.tparams.len() as int;
            &&& after.where_constraints == sig.where_constraints
            &&& lookup(after.ty_by_param.entries@, other) == lookup(
                sig.ty_by_param.entries@,
                other,
            )
            &&& param is None ==> after == sig
            &&& param matches Some(of) ==> {
                &&& !takes_open_fun(of.0) ==> after == sig
                &&& takes_open_fun(of.0) ==> {
                    let cap = core_ty(of.0).1->Tfun_0.implicit_params.capability->CapTy_0;
                    let wildcard = match cap.1 {
                        Ty_::Tintersection(tys) => *tys@[0],
                        _ => *cap,
                    };
                    let ctx = "T/[ctx ".spec_bytes() + name + "]".spec_bytes();
                    &&& after.tparams.len() == n + 1
                    &&& after.tparams.drop_last() == sig.tparams
                    &&& is_bare_tparam(*after.tparams[n], ctx)
                    &&& after.tparams[n].name.0 == wildcard.1->Tapply_0.0.0
                    &&& lookup(after.ty_by_param.entries@, name) matches Some(now) && now.1 == of.1
                        && capability_replaced(of.0, now.0, ctx) && core_ty(
                        now.0,
                    ).1->Tfun_0.implicit_params.capability->CapTy_0.0 == wildcard.0
                }
            }
        }),
{
    let key = context_ty.1->Tapply_0.0.1;
    assert forall|value: (Ty<'a>, &'a Pos<'a>)|
        lookup((#[trigger] sig.ty_by_param.added(key, value)).entries@, name) == Some(value)
            && lookup(sig.ty_by_param.added(key, value).entries@, other) == lookup(
            sig.ty_by_param.entries@,
            other,
        ) by {
        lemma_lookup_with_entry(sig.ty_by_param.entries@, key, value, name);
        lemma_lookup_with_entry(sig.ty_by_param.entries@, key, value, other);
    }
    if let Some(of) = lookup(sig.ty_by_param.entries@, name) {
        if takes_open_fun(of.0) {
            lemma_fun_ctx_target(of.0, name);
            assert(with_context(sig, context_ty).tparams.drop_last() =~= sig.tparams);
        }
    }
}

/// With one context, `T::C` for a type parameter `T`: the function has one more
/// type parameter, which the context is equated with and which is its
/// capability. Its parameters keep their names, positions and flags.
pub proof fn law_one_generic_ctx<'a>(
    params: Items<'a, &'a FunParam<'a>>,
    tparams: Items<'a, &'a Tparam<'a>>,
    context_ty: &'a Ty<'a>,
    where_constraints: Items<'a, &'a WhereConstraint<'a>>,
)
    requires
        context_ty.1 matches Ty_::Taccess(of) && match of.0.1 {
            Ty_::Tgeneric(root) => root.1@.len() == 0,
            _ => false,
        },
    ensures
        ({
            let r = effects_spelled_out(
                params,
                tparams,
                &FunImplicitParams { capability: Capability::CapTy(context_ty) },
                where_constraints,
            );
            let of = context_ty.1->Taccess_0;
            let ctx = "T/[".spec_bytes() + (of.0.1->Tgeneric_0.0@ + "::".spec_bytes() + of.1.1@)
                + "]".spec_bytes();
            let clause = *r.3@.last();
            &&& r.0@.len() == params@.len()
            &&& r.1@.len() == tparams@.len() + 1
            &&& is_bare_tparam(*r.1@.last(), ctx)
            &&& r.2.capability matches Capability::CapTy(cap) && is_param_named(*cap, ctx) && cap.0
                == context_ty.0
            &&& r.3@.len() == where_constraints@.len() + 1
            &&& is_param_named(*clause.0, ctx)
            &&& clause.1 == ConstraintKind::ConstraintEq
            &&& clause.2 == context_ty
        }),
{
    let contexts = seq![context_ty];
    let written = Signature {
        tparams: tparams@,
        where_constraints: where_constraints@,
        ty_by_param: param_tys(params@),
    };
    assert(contexts.drop_last() =~= Seq::<&'a Ty<'a>>::empty());
    reveal_with_fuel(with_contexts, 2);
    law_generic_ctx_is_equated(written, context_ty);
    law_which_contexts_are_polymorphic(*context_ty);
    assert(with_contexts(written, contexts) == with_context(written, context_ty));
}

} // verus!
