//! Types that turn out to be type parameters.

use crate::arena::{lemma_items_of, lemma_slice_of, slice_of, Items};
use crate::host::{Answer, Query};
use crate::parser::{DirectDeclSmartConstructors, SourceTextAllocator};
use crate::syntax::PosId;
use crate::text::{after_last, contains_byte, last_part, BACKSLASH};
use crate::types::{
    FunArity, FunParam, FunType, PossiblyEnforcedTy, Reason, ShapeFieldType, TShapeField,
    TaccessType, Ty, Ty_,
};
use vstd::prelude::*;

verus! {

broadcast use {lemma_items_of, lemma_slice_of};

/// A path of type constants with another reason for each of its steps.
pub open spec fn with_reasons<'a>(ty: Ty<'a>, reason: &'a Reason<'a>) -> Ty<'a>
    decreases ty,
{
    match ty.1 {
        Ty_::Taccess(of) => Ty(
            reason,
            Ty_::Taccess(&TaccessType(&with_reasons(*of.0, reason), of.1)),
        ),
        _ => Ty(reason, ty.1),
    }
}

impl<
    'a,
    'text,
    S: SourceTextAllocator<'text, 'a>,
    H: Fn(Query<'a, 'text>) -> Answer<'a, 'text>,
> DirectDeclSmartConstructors<'a, 'text, S, H> {
    /// The type parameter that the name of a type stands for, if any. A name
    /// that was written with a backslash cannot stand for one; any other name
    /// has had the current namespace put in front of it.
    pub open spec fn spec_generic_name(&self, reason: Reason<'a>, id: PosId<'a>) -> Option<
        &'a [u8],
    > {
        match reason.at() {
            None => None,
            Some(pos) => {
                let name = after_last(id.1@, BACKSLASH);
                if !self.bytes_at(pos).contains(BACKSLASH) && self.spec_in_scope(name) {
                    Some(slice_of(name))
                } else {
                    None
                }
            },
        }
    }

    pub fn tapply_should_be_tgeneric(&self, reason: &'a Reason<'a>, id: PosId<'a>) -> (r: Option<
        &'a [u8],
    >)
        ensures
            r == self.spec_generic_name(*reason, id),
            r matches Some(name) ==> name@ == after_last(id.1@, BACKSLASH),
    {
        match reason.pos() {
            Some(pos) => {
                if contains_byte(self.source_text_at_pos(pos), BACKSLASH) {
                    return None;
                }
            },
            None => return None,
        }
        let name = last_part(id.1, BACKSLASH);
        assert(slice_of(name@) == name);
        if self.is_type_param_in_scope(name) {
            Some(name)
        } else {
            None
        }
    }

    /// Whether no type parameter is in scope.
    pub open spec fn nothing_in_scope(&self) -> bool {
        forall|i: int|
            0 <= i < self.type_parameters@.len() ==> (#[trigger] self.type_parameters@[i])@.len()
                == 0
    }

    /// A type in which every name of a type parameter in scope has become that
    /// type parameter.
    pub open spec fn spec_generic(&self, ty: &'a Ty<'a>) -> &'a Ty<'a>
        decreases ty, 0int,
    {
        match ty.1 {
            Ty_::Tapply(of) => {
                let targs = Items::of(self.spec_generic_tys(of.1, of.1@.len() as int));
                match self.spec_generic_name(*ty.0, of.0) {
                    Some(name) => &Ty(ty.0, Ty_::Tgeneric(&(name, targs))),
                    None => &Ty(ty.0, Ty_::Tapply(&(of.0, targs))),
                }
            },
            Ty_::Tlike(inner) => &Ty(ty.0, Ty_::Tlike(self.spec_generic(inner))),
            Ty_::Toption(inner) => &Ty(ty.0, Ty_::Toption(self.spec_generic(inner))),
            Ty_::Tfun(f) => {
                let arity = match f.arity {
                    FunArity::Fstandard => FunArity::Fstandard,
                    FunArity::Fvariadic(param) => FunArity::Fvariadic(
                        &FunParam {
                            type_: &PossiblyEnforcedTy {
                                enforced: param.type_.enforced,
                                type_: self.spec_generic(param.type_.type_),
                            },
                            ..*param
                        },
                    ),
                };
                &Ty(
                    ty.0,
                    Ty_::Tfun(
                        &FunType {
                            arity,
                            params: Items::of(
                                self.spec_generic_params(f.params, f.params@.len() as int),
                            ),
                            ret: &PossiblyEnforcedTy {
                                enforced: f.ret.enforced,
                                type_: self.spec_generic(f.ret.type_),
                            },
                            ..*f
                        },
                    ),
                )
            },
            Ty_::Tshape(of) => &Ty(
                ty.0,
                Ty_::Tshape(
                    &(of.0, Items::of(self.spec_generic_fields(of.1, of.1@.len() as int))),
                ),
            ),
            Ty_::Tdarray(of) => &Ty(
                ty.0,
                Ty_::Tdarray(&(self.spec_generic(of.0), self.spec_generic(of.1))),
            ),
            Ty_::Tvarray(inner) => &Ty(ty.0, Ty_::Tvarray(self.spec_generic(inner))),
            Ty_::TvarrayOrDarray(of) => &Ty(
                ty.0,
                Ty_::TvarrayOrDarray(&(self.spec_generic(of.0), self.spec_generic(of.1))),
            ),
            Ty_::TvecOrDict(of) => &Ty(
                ty.0,
                Ty_::TvecOrDict(&(self.spec_generic(of.0), self.spec_generic(of.1))),
            ),
            Ty_::Ttuple(tys) => &Ty(
                ty.0,
                Ty_::Ttuple(Items::of(self.spec_generic_tys(tys, tys@.len() as int))),
            ),
            _ => ty,
        }
    }

    /// The first `n` types of a list, converted.
    pub open spec fn spec_generic_tys(&self, tys: Items<'a, &'a Ty<'a>>, n: int) -> Seq<
        &'a Ty<'a>,
    >
        decreases tys, n,
    {
        if 0 < n <= tys@.len() {
            proof {
                Items::lemma_decreases(tys, n - 1);
            }
            self.spec_generic_tys(tys, n - 1).push(self.spec_generic(tys@[n - 1]))
        } else {
            Seq::<&'a Ty<'a>>::empty()
        }
    }

    /// The first `n` parameters of a list, with their types converted.
    pub open spec fn spec_generic_params(
        &self,
        params: Items<'a, &'a FunParam<'a>>,
        n: int,
    ) -> Seq<&'a FunParam<'a>>
        decreases params, n,
    {
        if 0 < n <= params@.len() {
            proof {
                Items::lemma_decreases(params, n - 1);
            }
            let param = params@[n - 1];
            self.spec_generic_params(params, n - 1).push(
                &FunParam {
                    type_: &PossiblyEnforcedTy {
                        enforced: param.type_.enforced,
                        type_: self.spec_generic(param.type_.type_),
                    },
                    ..*param
                },
            )
        } else {
            Seq::<&'a FunParam<'a>>::empty()
        }
    }

    /// The first `n` fields of a shape, with their types converted.
    pub open spec fn spec_generic_fields(
        &self,
        fields: Items<'a, (TShapeField<'a>, &'a ShapeFieldType<'a>)>,
        n: int,
    ) -> Seq<(TShapeField<'a>, &'a ShapeFieldType<'a>)>
        decreases fields, n,
    {
        if 0 < n <= fields@.len() {
            proof {
                Items::lemma_decreases(fields, n - 1);
            }
            let field = fields@[n - 1];
            self.spec_generic_fields(fields, n - 1).push(
                (
                    field.0,
                    &ShapeFieldType {
                        optional: field.1.optional,
                        ty: self.spec_generic(field.1.ty),
                    },
                ),
            )
        } else {
            Seq::<(TShapeField<'a>, &'a ShapeFieldType<'a>)>::empty()
        }
    }

    /// Whether a name is a type parameter is known when it is read, with one
    /// exception: the constraints of type parameters may refer to type
    /// parameters that come after them. Once the whole list has been read, its
    /// constraints are converted with all of them in scope. Where none is in
    /// scope the type stays as it is.
    pub fn convert_tapply_to_tgeneric(&self, ty: &'a Ty<'a>) -> (r: &'a Ty<'a>)
        ensures
            r == self.spec_generic(ty),
            self.nothing_in_scope() ==> r == ty,
            r.1 matches Ty_::Tgeneric(of) ==> (ty.1 matches Ty_::Tapply(written) ==> of.0@
                == after_last(written.0.1@, BACKSLASH)),
        decreases ty, 0int,
    {
        let ty_ = match ty.1 {
            Ty_::Tapply(of) => {
                let targs = self.convert_tys(of.1);
                match self.tapply_should_be_tgeneric(ty.0, of.0) {
                    Some(name) => Ty_::Tgeneric(self.allocate((name, targs))),
                    None => Ty_::Tapply(self.allocate((of.0, targs))),
                }
            },
            Ty_::Tlike(inner) => Ty_::Tlike(self.convert_tapply_to_tgeneric(inner)),
            Ty_::Toption(inner) => Ty_::Toption(self.convert_tapply_to_tgeneric(inner)),
            Ty_::Tfun(f) => {
                let arity = match f.arity {
                    FunArity::Fstandard => FunArity::Fstandard,
                    FunArity::Fvariadic(param) => {
                        let type_ = self.allocate(
                            PossiblyEnforcedTy {
                                enforced: param.type_.enforced,
                                type_: self.convert_tapply_to_tgeneric(param.type_.type_),
                            },
                        );
                        FunArity::Fvariadic(self.allocate(FunParam { type_, ..*param }))
                    },
                };
                let params = self.convert_params(f.params);
                let ret = self.allocate(
                    PossiblyEnforcedTy {
                        enforced: f.ret.enforced,
                        type_: self.convert_tapply_to_tgeneric(f.ret.type_),
                    },
                );
                Ty_::Tfun(self.allocate(FunType { arity, params, ret, ..*f }))
            },
            Ty_::Tshape(of) => Ty_::Tshape(self.allocate((of.0, self.convert_fields(of.1)))),
            Ty_::Tdarray(of) => {
                let key = self.convert_tapply_to_tgeneric(of.0);
                let value = self.convert_tapply_to_tgeneric(of.1);
                Ty_::Tdarray(self.allocate((key, value)))
            },
            Ty_::Tvarray(inner) => Ty_::Tvarray(self.convert_tapply_to_tgeneric(inner)),
            Ty_::TvarrayOrDarray(of) => {
                let key = self.convert_tapply_to_tgeneric(of.0);
                let value = self.convert_tapply_to_tgeneric(of.1);
                Ty_::TvarrayOrDarray(self.allocate((key, value)))
            },
            Ty_::TvecOrDict(of) => {
                let key = self.convert_tapply_to_tgeneric(of.0);
                let value = self.convert_tapply_to_tgeneric(of.1);
                Ty_::TvecOrDict(self.allocate((key, value)))
            },
            Ty_::Ttuple(tys) => Ty_::Ttuple(self.convert_tys(tys)),
            _ => return ty,
        };
        self.allocate(Ty(ty.0, ty_))
    }

    fn convert_tys(&self, tys: Items<'a, &'a Ty<'a>>) -> (r: Items<'a, &'a Ty<'a>>)
        ensures
            r == Items::of(self.spec_generic_tys(tys, tys@.len() as int)),
            self.nothing_in_scope() ==> r == tys,
        decreases tys, tys@.len(),
    {
        let slice = tys.as_slice();
        let mut converted: Vec<&'a Ty<'a>> = Vec::new();
        let mut i: usize = 0;
        while i < slice.len()
            invariant
                slice@ == tys@,
                i <= tys@.len(),
                converted@ == self.spec_generic_tys(tys, i as int),
                self.nothing_in_scope() ==> converted@ == tys@.take(i as int),
            decreases tys@.len() - i,
        {
            proof {
                Items::lemma_decreases(tys, i as int);
            }
            converted.push(self.convert_tapply_to_tgeneric(slice[i]));
            assert(self.nothing_in_scope() ==> converted@ =~= tys@.take(i + 1));
            i = i + 1;
        }
        assert(tys@.take(i as int) =~= tys@);
        Items::copied(self.arena, converted.as_slice())
    }

    fn convert_params(&self, params: Items<'a, &'a FunParam<'a>>) -> (r: Items<
        'a,
        &'a FunParam<'a>,
    >)
        ensures
            r == Items::of(self.spec_generic_params(params, params@.len() as int)),
            self.nothing_in_scope() ==> r == params,
        decreases params, params@.len(),
    {
        let slice = params.as_slice();
        let mut converted: Vec<&'a FunParam<'a>> = Vec::new();
        let mut i: usize = 0;
        while i < slice.len()
            invariant
                slice@ == params@,
                i <= params@.len(),
                converted@ == self.spec_generic_params(params, i as int),
                self.nothing_in_scope() ==> converted@ == params@.take(i as int),
            decreases params@.len() - i,
        {
            proof {
                Items::lemma_decreases(params, i as int);
            }
            let param = slice[i];
            let type_ = self.allocate(
                PossiblyEnforcedTy {
                    enforced: param.type_.enforced,
                    type_: self.convert_tapply_to_tgeneric(param.type_.type_),
                },
            );
            converted.push(self.allocate(FunParam { type_, ..*param }));
            assert(self.nothing_in_scope() ==> converted@ =~= params@.take(i + 1));
            i = i + 1;
        }
        assert(params@.take(i as int) =~= params@);
        Items::copied(self.arena, converted.as_slice())
    }

    fn convert_fields(
        &self,
        fields: Items<'a, (TShapeField<'a>, &'a ShapeFieldType<'a>)>,
    ) -> (r: Items<'a, (TShapeField<'a>, &'a ShapeFieldType<'a>)>)
        ensures
            r == Items::of(self.spec_generic_fields(fields, fields@.len() as int)),
            self.nothing_in_scope() ==> r == fields,
        decreases fields, fields@.len(),
    {
        let slice = fields.as_slice();
        let mut converted: Vec<(TShapeField<'a>, &'a ShapeFieldType<'a>)> = Vec::new();
        let mut i: usize = 0;
        while i < slice.len()
            invariant
                slice@ == fields@,
                i <= fields@.len(),
                converted@ == self.spec_generic_fields(fields, i as int),
                self.nothing_in_scope() ==> converted@ == fields@.take(i as int),
            decreases fields@.len() - i,
        {
            proof {
                Items::lemma_decreases(fields, i as int);
            }
            let field = slice[i];
            let ty = self.convert_tapply_to_tgeneric(field.1.ty);
            converted.push(
                (field.0, self.allocate(ShapeFieldType { optional: field.1.optional, ty })),
            );
            assert(self.nothing_in_scope() ==> converted@ =~= fields@.take(i + 1));
            i = i + 1;
        }
        assert(fields@.take(i as int) =~= fields@);
        Items::copied(self.arena, converted.as_slice())
    }

    pub fn rewrite_taccess_reasons(&self, ty: &'a Ty<'a>, r: &'a Reason<'a>) -> (res: &'a Ty<'a>)
        ensures
            *res == with_reasons(*ty, r),
        decreases ty,
    {
        let ty_ = match ty.1 {
            Ty_::Taccess(of) => Ty_::Taccess(
                self.allocate(TaccessType(self.rewrite_taccess_reasons(of.0, r), of.1)),
            ),
            _ => ty.1,
        };
        self.allocate(Ty(r, ty_))
    }

    /// Converting a type keeps the reason for it.
    pub proof fn law_converting_keeps_the_reason(&self, ty: &'a Ty<'a>)
        ensures
            self.spec_generic(ty).0 == ty.0,
    {
    }

    /// Converting a type a second time changes nothing.
    pub proof fn law_converting_twice(&self, ty: &'a Ty<'a>)
        ensures
            self.spec_generic(self.spec_generic(ty)) == self.spec_generic(ty),
        decreases ty, 0int,
    {
        match ty.1 {
            Ty_::Tapply(of) => {
                self.lemma_tys_twice(of.1, of.1@.len() as int);
            },
            Ty_::Tlike(inner) => self.law_converting_twice(inner),
            Ty_::Toption(inner) => self.law_converting_twice(inner),
            Ty_::Tfun(f) => {
                if let FunArity::Fvariadic(param) = f.arity {
                    self.law_converting_twice(param.type_.type_);
                }
                self.lemma_params_twice(f.params, f.params@.len() as int);
                self.law_converting_twice(f.ret.type_);
            },
            Ty_::Tshape(of) => self.lemma_fields_twice(of.1, of.1@.len() as int),
            Ty_::Tdarray(of) => {
                self.law_converting_twice(of.0);
                self.law_converting_twice(of.1);
            },
            Ty_::Tvarray(inner) => self.law_converting_twice(inner),
            Ty_::TvarrayOrDarray(of) => {
                self.law_converting_twice(of.0);
                self.law_converting_twice(of.1);
            },
            Ty_::TvecOrDict(of) => {
                self.law_converting_twice(of.0);
                self.law_converting_twice(of.1);
            },
            Ty_::Ttuple(tys) => self.lemma_tys_twice(tys, tys@.len() as int),
            _ => {},
        }
    }

    proof fn lemma_tys_twice(&self, tys: Items<'a, &'a Ty<'a>>, n: int)
        requires
            0 <= n <= tys@.len(),
        ensures
            self.spec_generic_tys(tys, n).len() == n,
            forall|m: Seq<&'a Ty<'a>>|
                self.spec_generic_tys(tys, n).is_prefix_of(m) ==> #[trigger] self.spec_generic_tys(
                    Items::of(m),
                    n,
                ) == self.spec_generic_tys(tys, n),
            self.spec_generic_tys(Items::of(self.spec_generic_tys(tys, n)), n)
                == self.spec_generic_tys(tys, n),
        decreases tys, n,
    {
        let once = self.spec_generic_tys(tys, n);
        if n > 0 {
            Items::lemma_decreases(tys, n - 1);
            self.lemma_tys_twice(tys, n - 1);
            self.law_converting_twice(tys@[n - 1]);
            let before = self.spec_generic_tys(tys, n - 1);
            assert forall|m: Seq<&'a Ty<'a>>| once.is_prefix_of(m) implies #[trigger] self.spec_generic_tys(
                Items::of(m),
                n,
            ) == once by {
                assert(before =~= m.subrange(0, before.len() as int));
                assert(self.spec_generic_tys(Items::of(m), n - 1) == before);
                assert(m[n - 1] == once[n - 1]);
            }
        }
        assert(once =~= once.subrange(0, once.len() as int));
    }

    proof fn lemma_params_twice(&self, params: Items<'a, &'a FunParam<'a>>, n: int)
        requires
            0 <= n <= params@.len(),
        ensures
            self.spec_generic_params(params, n).len() == n,
            forall|m: Seq<&'a FunParam<'a>>|
                self.spec_generic_params(params, n).is_prefix_of(m)
                    ==> #[trigger] self.spec_generic_params(Items::of(m), n)
                    == self.spec_generic_params(params, n),
            self.spec_generic_params(Items::of(self.spec_generic_params(params, n)), n)
                == self.spec_generic_params(params, n),
        decreases params, n,
    {
        let once = self.spec_generic_params(params, n);
        if n > 0 {
            Items::lemma_decreases(params, n - 1);
            self.lemma_params_twice(params, n - 1);
            self.law_converting_twice(params@[n - 1].type_.type_);
            let before = self.spec_generic_params(params, n - 1);
            assert forall|m: Seq<&'a FunParam<'a>>| once.is_prefix_of(m) implies #[trigger] self.spec_generic_params(
                Items::of(m),
                n,
            ) == once by {
                assert(before =~= m.subrange(0, before.len() as int));
                assert(self.spec_generic_params(Items::of(m), n - 1) == before);
                assert(m[n - 1] == once[n - 1]);
            }
        }
        assert(once =~= once.subrange(0, once.len() as int));
    }

    proof fn lemma_fields_twice(
        &self,
        fields: Items<'a, (TShapeField<'a>, &'a ShapeFieldType<'a>)>,
        n: int,
    )
        requires
            0 <= n <= fields@.len(),
        ensures
            self.spec_generic_fields(fields, n).len() == n,
            forall|m: Seq<(TShapeField<'a>, &'a ShapeFieldType<'a>)>|
                self.spec_generic_fields(fields, n).is_prefix_of(m)
                    ==> #[trigger] self.spec_generic_fields(Items::of(m), n)
                    == self.spec_generic_fields(fields, n),
            self.spec_generic_fields(Items::of(self.spec_generic_fields(fields, n)), n)
                == self.spec_generic_fields(fields, n),
        decreases fields, n,
    {
        let once = self.spec_generic_fields(fields, n);
        if n > 0 {
            Items::lemma_decreases(fields, n - 1);
            self.lemma_fields_twice(fields, n - 1);
            self.law_converting_twice(fields@[n - 1].1.ty);
            let before = self.spec_generic_fields(fields, n - 1);
            assert forall|m: Seq<(TShapeField<'a>, &'a ShapeFieldType<'a>)>| once.is_prefix_of(
                m,
            ) implies #[trigger] self.spec_generic_fields(Items::of(m), n) == once by {
                assert(before =~= m.subrange(0, before.len() as int));
                assert(self.spec_generic_fields(Items::of(m), n - 1) == before);
                assert(m[n - 1] == once[n - 1]);
            }
        }
        assert(once =~= once.subrange(0, once.len() as int));
    }
}

/// A path of type constants gets one reason for all of its steps, and keeps its
/// constants; any other type keeps everything but its reason.
pub proof fn law_one_reason_for_a_path<'a>(ty: Ty<'a>, reason: &'a Reason<'a>)
    ensures
        with_reasons(ty, reason).0 == reason,
        !(ty.1 is Taccess) ==> with_reasons(ty, reason).1 == ty.1,
        ty.1 matches Ty_::Taccess(of) ==> (with_reasons(ty, reason).1 matches Ty_::Taccess(read)
            && read.1 == of.1 && *read.0 == with_reasons(*of.0, reason)),
{
}

/// Whether one parameter is another with its type replaced by the given one.
pub open spec fn param_with_type<'a>(
    written: FunParam<'a>,
    read: FunParam<'a>,
    ty: &'a Ty<'a>,
) -> bool {
    &&& read.name == written.name
    &&& read.pos == written.pos
    &&& read.flags == written.flags
    &&& read.type_.enforced == written.type_.enforced
    &&& read.type_.type_ == ty
}

impl<
    'a,
    'text,
    S: SourceTextAllocator<'text, 'a>,
    H: Fn(Query<'a, 'text>) -> Answer<'a, 'text>,
> DirectDeclSmartConstructors<'a, 'text, S, H> {
    /// A name is that of a type parameter exactly where it was written without a
    /// backslash and its last part is in scope.
    pub proof fn law_names_of_type_parameters_in_scope(&self, reason: Reason<'a>, id: PosId<'a>)
        ensures
            ({
                let last = after_last(id.1@, BACKSLASH);
                &&& self.spec_generic_name(reason, id) is Some <==> reason.at() is Some
                    && !self.bytes_at(reason.at()->Some_0).contains(BACKSLASH)
                    && self.spec_in_scope(last)
                &&& self.spec_generic_name(reason, id) matches Some(name) ==> name == slice_of::<
                    'a,
                >(last)
            }),
    {
    }

    proof fn lemma_generic_tys(&self, tys: Items<'a, &'a Ty<'a>>, n: int)
        requires
            0 <= n <= tys@.len(),
        ensures
            self.spec_generic_tys(tys, n).len() == n,
            forall|i: int|
                0 <= i < n ==> #[trigger] self.spec_generic_tys(tys, n)[i] == self.spec_generic(
                    tys@[i],
                ),
        decreases n,
    {
        if n > 0 {
            self.lemma_generic_tys(tys, n - 1);
        }
    }

    proof fn lemma_generic_params(&self, params: Items<'a, &'a FunParam<'a>>, n: int)
        requires
            0 <= n <= params@.len(),
        ensures
            self.spec_generic_params(params, n).len() == n,
            forall|i: int|
                0 <= i < n ==> param_with_type(
                    *params@[i],
                    *#[trigger] self.spec_generic_params(params, n)[i],
                    self.spec_generic(params@[i].type_.type_),
                ),
        decreases n,
    {
        if n > 0 {
            self.lemma_generic_params(params, n - 1);
        }
    }

    proof fn lemma_generic_fields(
        &self,
        fields: Items<'a, (TShapeField<'a>, &'a ShapeFieldType<'a>)>,
        n: int,
    )
        requires
            0 <= n <= fields@.len(),
        ensures
            self.spec_generic_fields(fields, n).len() == n,
            forall|i: int|
                0 <= i < n ==> {
                    &&& (#[trigger] self.spec_generic_fields(fields, n)[i]).0 == fields@[i].0
                    &&& self.spec_generic_fields(fields, n)[i].1.optional == fields@[i].1.optional
                    &&& self.spec_generic_fields(fields, n)[i].1.ty == self.spec_generic(
                        fields@[i].1.ty,
                    )
                },
        decreases n,
    {
        if n > 0 {
            self.lemma_generic_fields(fields, n - 1);
        }
    }

    /// Converting a type changes nothing but the names of type parameters in it:
    /// an application becomes a type parameter exactly where its name is one,
    /// with its arguments converted; every other type keeps its form, its
    /// members in their order, and all that is not a type.
    pub proof fn law_converting_changes_only_names(&self, ty: &'a Ty<'a>)
        ensures
            ({
                let read = self.spec_generic(ty);
                &&& read.0 == ty.0
                &&& ty.1 matches Ty_::Tapply(of) ==> match self.spec_generic_name(*ty.0, of.0) {
                    Some(name) => read.1 matches Ty_::Tgeneric(now) && now.0 == name
                        && now.1@.len() == of.1@.len() && (forall|i: int|
                        0 <= i < of.1@.len() ==> #[trigger] now.1@[i] == self.spec_generic(
                            of.1@[i],
                        )),
                    None => read.1 matches Ty_::Tapply(now) && now.0 == of.0 && now.1@.len()
                        == of.1@.len() && (forall|i: int|
                        0 <= i < of.1@.len() ==> #[trigger] now.1@[i] == self.spec_generic(
                            of.1@[i],
                        )),
                }
                &&& ty.1 matches Ty_::Tlike(inner) ==> read.1 == Ty_::Tlike(
                    self.spec_generic(inner),
                )
                &&& ty.1 matches Ty_::Toption(inner) ==> read.1 == Ty_::Toption(
                    self.spec_generic(inner),
                )
                &&& ty.1 matches Ty_::Tvarray(inner) ==> read.1 == Ty_::Tvarray(
                    self.spec_generic(inner),
                )
                &&& ty.1 matches Ty_::Tdarray(of) ==> (read.1 matches Ty_::Tdarray(now) && now.0
                    == self.spec_generic(of.0) && now.1 == self.spec_generic(of.1))
                &&& ty.1 matches Ty_::TvarrayOrDarray(of) ==> (
                read.1 matches Ty_::TvarrayOrDarray(now) && now.0 == self.spec_generic(of.0)
                    && now.1 == self.spec_generic(of.1))
                &&& ty.1 matches Ty_::TvecOrDict(of) ==> (read.1 matches Ty_::TvecOrDict(now)
                    && now.0 == self.spec_generic(of.0) && now.1 == self.spec_generic(of.1))
                &&& ty.1 matches Ty_::Ttuple(tys) ==> (read.1 matches Ty_::Ttuple(now) && now@.len()
                    == tys@.len() && (forall|i: int|
                    0 <= i < tys@.len() ==> #[trigger] now@[i] == self.spec_generic(tys@[i])))
                &&& ty.1 matches Ty_::Tshape(of) ==> (read.1 matches Ty_::Tshape(now) && now.0
                    == of.0 && now.1@.len() == of.1@.len() && (forall|i: int|
                    0 <= i < of.1@.len() ==> {
                        &&& (#[trigger] now.1@[i]).0 == of.1@[i].0
                        &&& now.1@[i].1.optional == of.1@[i].1.optional
                        &&& now.1@[i].1.ty == self.spec_generic(of.1@[i].1.ty)
                    }))
                &&& ty.1 matches Ty_::Tfun(f) ==> (read.1 matches Ty_::Tfun(now) && {
                    &&& now.tparams == f.tparams
                    &&& now.where_constraints == f.where_constraints
                    &&& now.implicit_params == f.implicit_params
                    &&& now.flags == f.flags
                    &&& now.ifc_decl == f.ifc_decl
                    &&& now.ret.enforced == f.ret.enforced
                    &&& now.ret.type_ == self.spec_generic(f.ret.type_)
                    &&& now.params@.len() == f.params@.len()
                    &&& forall|i: int|
                        0 <= i < f.params@.len() ==> param_with_type(
                            *f.params@[i],
                            *#[trigger] now.params@[i],
                            self.spec_generic(f.params@[i].type_.type_),
                        )
                    &&& f.arity is Fstandard ==> now.arity is Fstandard
                    &&& f.arity matches FunArity::Fvariadic(param) ==> (
                    now.arity matches FunArity::Fvariadic(variadic) && param_with_type(
                        *param,
                        *variadic,
                        self.spec_generic(param.type_.type_),
                    ))
                })
                &&& ty.1 is Tany || ty.1 is Terr || ty.1 is Tmixed || ty.1 is Tnonnull
                    || ty.1 is Tdynamic || ty.1 is Tthis || ty.1 is Tprim || ty.1 is Tgeneric
                    || ty.1 is Tunion || ty.1 is Tintersection || ty.1 is Taccess ==> read == ty
            }),
    {
        match ty.1 {
            Ty_::Tapply(of) => self.lemma_generic_tys(of.1, of.1@.len() as int),
            Ty_::Ttuple(tys) => self.lemma_generic_tys(tys, tys@.len() as int),
            Ty_::Tshape(of) => self.lemma_generic_fields(of.1, of.1@.len() as int),
            Ty_::Tfun(f) => self.lemma_generic_params(f.params, f.params@.len() as int),
            _ => {},
        }
    }
}

} // verus!
