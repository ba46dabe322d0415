//! Parameters and types of functions and methods.

use crate::arena::{lemma_items_of, lemma_slice_of, realised, slice_of, Items};
use crate::attributes::{attributes_in, bears, law_attributes_say_what_is_written, Attributes};
use crate::decls::{PropFlags, ShallowProp};
use crate::effects::{
    any_polymorphic, contexts_written, effects_spelled_out, law_plain_contexts_change_nothing,
    law_spelling_out_keeps_the_signature,
};
use crate::hints::{kind_wrapped, popped, tparams_of, witnessed};
use crate::host::{Answer, Query};
use crate::node::{is_visibility_keyword, visibility_of, FunParamDecl, FunctionHeader, Node};
use crate::parser::{DirectDeclSmartConstructors, SourceTextAllocator};
use crate::syntax::{FunKind, Id, Mode, ParamMode, PosId, Tprim, Visibility};
use crate::text::{is, lit, literal, strip_dollar_prefix, trim_start, DOLLAR};
use crate::token::TokenKind;
use crate::types::{
    Capability, Enforcement, FunArity, FunParam, FunParamFlags, FunType, FunTypeFlags,
    PossiblyEnforcedTy, Reason, Ty, Ty_, WhereConstraint,
};
use vstd::prelude::*;
use vstd::string::*;

verus! {

broadcast use {lemma_items_of, lemma_slice_of};

/// A type without the markers of mutability that function types once had.
pub open spec fn without_mutability<'a>(ty: &'a Ty<'a>) -> &'a Ty<'a> {
    match ty.1 {
        Ty_::Tapply(of) => if of.1@.len() == 1 && (of.0.1@ == "\\Mutable".spec_bytes() || of.0.1@
            == "\\OwnedMutable".spec_bytes() || of.0.1@ == "\\MaybeMutable".spec_bytes()) {
            of.1@[0]
        } else {
            ty
        },
        _ => ty,
    }
}

pub fn strip_mutability<'a>(ty: &'a Ty<'a>) -> (r: &'a Ty<'a>)
    ensures
        r == without_mutability(ty),
{
    match ty.1 {
        Ty_::Tapply(of) => {
            if of.1.len() == 1 && (is(of.0.1, "\\Mutable") || is(of.0.1, "\\OwnedMutable") || is(
                of.0.1,
                "\\MaybeMutable",
            )) {
                *of.1.at(0)
            } else {
                ty
            }
        },
        _ => ty,
    }
}

pub open spec fn unenforced<'a>(ty: &'a Ty<'a>) -> &'a PossiblyEnforcedTy<'a> {
    &PossiblyEnforcedTy { enforced: Enforcement::Unenforced, type_: ty }
}

pub open spec fn param_flags<'a>(decl: FunParamDecl<'a>) -> FunParamFlags {
    let attributes = attributes_in(decl.attributes);
    FunParamFlags {
        accept_disposable: attributes.accept_disposable,
        ifc_external: attributes.external,
        ifc_can_call: attributes.can_call,
        via_label: attributes.via_label,
        readonly: decl.readonly,
        inout: decl.kind == ParamMode::FPinout,
        has_default: !(decl.initializer is Ignored),
    }
}

/// A parameter with a default value is not variadic.
pub open spec fn is_variadic<'a>(decl: FunParamDecl<'a>) -> bool {
    decl.initializer is Ignored && decl.variadic
}

/// The name of the property that a constructor parameter declares.
pub open spec fn promoted_bytes<'a>(decl: FunParamDecl<'a>) -> Seq<u8> {
    trim_start(
        match decl.name {
            Some(name) => name@,
            None => "".spec_bytes(),
        },
        DOLLAR,
    )
}

/// Whether the names of the properties that parameters declare are at hand.
pub open spec fn promoted_realised<'a>(nodes: Seq<Node<'a>>) -> bool {
    forall|i: int|
        0 <= i < nodes.len() ==> ((#[trigger] nodes[i]) matches Node::FunParam(decl)
            ==> visibility_of(decl.visibility.spec_token_kind()) is Some ==> realised(
            promoted_bytes(*decl),
        ))
}

/// The where clauses among nodes.
pub open spec fn wheres_of<'a>(nodes: Seq<Node<'a>>) -> Seq<&'a WhereConstraint<'a>>
    decreases nodes.len(),
{
    if nodes.len() == 0 {
        Seq::<&'a WhereConstraint<'a>>::empty()
    } else {
        let before = wheres_of(nodes.drop_last());
        match nodes.last() {
            Node::WhereConstraint(x) => before.push(x),
            _ => before,
        }
    }
}

/// What kind of function it is by its modifiers and its body.
pub open spec fn fun_kind_of<'a>(modifiers: Node<'a>, body: Node<'a>) -> FunKind {
    let is_async = modifiers.spec_holds_token(TokenKind::Async);
    if body.spec_holds_token(TokenKind::Yield) {
        if is_async {
            FunKind::FAsyncGenerator
        } else {
            FunKind::FGenerator
        }
    } else if is_async {
        FunKind::FAsync
    } else {
        FunKind::FSync
    }
}

pub open spec fn fun_flags<'a>(
    kind: FunKind,
    attributes: Attributes<'a>,
    header: FunctionHeader<'a>,
) -> FunTypeFlags {
    FunTypeFlags {
        async_: kind == FunKind::FAsync || kind == FunKind::FAsyncGenerator,
        generator: kind == FunKind::FGenerator || kind == FunKind::FAsyncGenerator,
        return_disposable: attributes.returns_disposable,
        returns_readonly: header.readonly_return.spec_is_token(TokenKind::Readonly),
        readonly_this: header.modifiers.spec_holds_token(TokenKind::Readonly),
    }
}

impl<
    'a,
    'text,
    S: SourceTextAllocator<'text, 'a>,
    H: Fn(Query<'a, 'text>) -> Answer<'a, 'text>,
> DirectDeclSmartConstructors<'a, 'text, S, H> {
    /// The property that a constructor parameter with a visibility declares.
    pub open spec fn spec_promoted(
        &self,
        decl: FunParamDecl<'a>,
        visibility: Visibility,
    ) -> ShallowProp<'a> {
        let attributes = attributes_in(decl.attributes);
        ShallowProp {
            xhp_attr: None,
            name: (decl.pos, slice_of(promoted_bytes(decl))),
            type_: self.spec_node_to_ty(decl.hint),
            visibility,
            flags: PropFlags {
                const_: attributes.const_,
                lateinit: false,
                lsb: false,
                needs_init: self.file_mode != Mode::Mhhi,
                abstract_: false,
                readonly: decl.readonly,
                php_std_lib: attributes.php_std_lib,
            },
        }
    }

    fn promoted(&self, decl: &FunParamDecl<'a>, visibility: Visibility) -> (r: ShallowProp<'a>)
        requires
            self.wf(),
        ensures
            r == self.spec_promoted(*decl, visibility),
            r.name.1@ == promoted_bytes(*decl),
    {
        let attributes = self.to_attributes(decl.attributes);
        let name = match decl.name {
            Some(name) => name,
            None => literal(""),
        };
        let name = strip_dollar_prefix(name);
        assert(slice_of(name@) == name);
        ShallowProp {
            xhp_attr: None,
            name: (decl.pos, name),
            type_: self.node_to_ty(decl.hint),
            visibility,
            flags: PropFlags {
                const_: attributes.const_,
                lateinit: false,
                lsb: false,
                needs_init: self.file_mode != Mode::Mhhi,
                abstract_: false,
                readonly: decl.readonly,
                php_std_lib: attributes.php_std_lib,
            },
        }
    }

    /// The type of a parameter; none where its hint cannot be read.
    pub open spec fn spec_param_ty(&self, decl: FunParamDecl<'a>) -> Option<&'a Ty<'a>> {
        let hint: Option<&'a Ty<'a>> = if decl.hint is Ignored {
            Some(&witnessed(decl.pos, Ty_::Tany))
        } else {
            self.spec_node_to_ty(decl.hint)
        };
        match hint {
            None => None,
            Some(hint) => {
                let ty = without_mutability(hint);
                if is_variadic(decl) {
                    let reason = if decl.name is Some {
                        Reason::RvarParamFromDecl(decl.pos)
                    } else {
                        Reason::RwitnessFromDecl(decl.pos)
                    };
                    Some(&Ty(&reason, ty.1))
                } else {
                    Some(ty)
                }
            },
        }
    }

    fn param_ty(&self, decl: &FunParamDecl<'a>) -> (r: Option<&'a Ty<'a>>)
        requires
            self.wf(),
        ensures
            r == self.spec_param_ty(*decl),
    {
        let type_ = if decl.hint.is_ignored() {
            self.tany_with_pos(decl.pos)
        } else {
            match self.node_to_ty(decl.hint) {
                Some(ty) => ty,
                None => return None,
            }
        };
        // The markers are not allowed here. They are dropped all the same, so
        // that reading can go on.
        let type_ = strip_mutability(type_);
        if decl.initializer.is_ignored() && decl.variadic {
            let reason = self.allocate(
                if decl.name.is_some() {
                    Reason::RvarParamFromDecl(decl.pos)
                } else {
                    Reason::RwitnessFromDecl(decl.pos)
                },
            );
            Some(self.allocate(Ty(reason, type_.1)))
        } else {
            Some(type_)
        }
    }

    /// What the parameters among nodes declare: the parameters, the properties
    /// that a constructor makes of them, and the arity. The first variadic
    /// parameter makes the arity. None where the hint of one cannot be read.
    pub open spec fn spec_params(&self, nodes: Seq<Node<'a>>) -> Option<
        (Seq<&'a FunParam<'a>>, Seq<ShallowProp<'a>>, FunArity<'a>),
    >
        decreases nodes.len(),
    {
        if nodes.len() == 0 {
            Some(
                (
                    Seq::<&'a FunParam<'a>>::empty(),
                    Seq::<ShallowProp<'a>>::empty(),
                    FunArity::Fstandard,
                ),
            )
        } else {
            match (self.spec_params(nodes.drop_last()), nodes.last()) {
                (None, _) => None,
                (Some(before), Node::FunParam(decl)) => match self.spec_param_ty(*decl) {
                    None => None,
                    Some(ty) => {
                        let param = &FunParam {
                            pos: decl.pos,
                            name: decl.name,
                            type_: unenforced(ty),
                            flags: param_flags(*decl),
                        };
                        let properties = match visibility_of(decl.visibility.spec_token_kind()) {
                            Some(visibility) => before.1.push(
                                self.spec_promoted(*decl, visibility),
                            ),
                            None => before.1,
                        };
                        if before.2 is Fstandard && is_variadic(*decl) {
                            Some((before.0, properties, FunArity::Fvariadic(param)))
                        } else {
                            Some((before.0.push(param), properties, before.2))
                        }
                    },
                },
                (Some(before), _) => Some(before),
            }
        }
    }

    pub open spec fn spec_as_fun_params(&self, list: Node<'a>) -> Option<
        (Items<'a, &'a FunParam<'a>>, Items<'a, ShallowProp<'a>>, FunArity<'a>),
    > {
        match list {
            Node::List(nodes) => match self.spec_params(nodes@) {
                Some(read) => Some((Items::of(read.0), Items::of(read.1), read.2)),
                None => None,
            },
            Node::Ignored(_) => Some(
                (
                    Items::of(Seq::<&'a FunParam<'a>>::empty()),
                    Items::of(Seq::<ShallowProp<'a>>::empty()),
                    FunArity::Fstandard,
                ),
            ),
            _ => None,
        }
    }

    pub fn as_fun_params(&self, list: Node<'a>) -> (r: Option<
        (Items<'a, &'a FunParam<'a>>, Items<'a, ShallowProp<'a>>, FunArity<'a>),
    >)
        requires
            self.wf(),
        ensures
            r == self.spec_as_fun_params(list),
            r is Some && list is List ==> promoted_realised(list.elements()),
    {
        let nodes = match list {
            Node::List(nodes) => *nodes,
            Node::Ignored(_) => return Some((Items::none(), Items::none(), FunArity::Fstandard)),
            _ => return None,
        };
        let mut params: Vec<&'a FunParam<'a>> = Vec::new();
        let mut properties: Vec<ShallowProp<'a>> = Vec::new();
        let mut arity: FunArity<'a> = FunArity::Fstandard;
        let mut i: usize = 0;
        assert(nodes@.take(0) =~= Seq::<Node<'a>>::empty());
        while i < nodes.len()
            invariant
                self.wf(),
                list matches Node::List(items) && *items == nodes,
                i <= nodes@.len(),
                self.spec_params(nodes@.take(i as int)) == Some((params@, properties@, arity)),
                promoted_realised(nodes@.take(i as int)),
            decreases nodes@.len() - i,
        {
            assert(nodes@.take(i + 1).drop_last() =~= nodes@.take(i as int));
            if let Node::FunParam(decl) = *nodes.at(i) {
                let attributes = self.to_attributes(decl.attributes);
                if let Some(visibility) = decl.visibility.as_visibility() {
                    properties.push(self.promoted(decl, visibility));
                }
                let type_ = match self.param_ty(decl) {
                    Some(type_) => type_,
                    None => {
                        proof {
                            self.lemma_params_fail(nodes@, i + 1);
                        }
                        return None;
                    },
                };
                let flags = FunParamFlags {
                    accept_disposable: attributes.accept_disposable,
                    ifc_external: attributes.external,
                    ifc_can_call: attributes.can_call,
                    via_label: attributes.via_label,
                    readonly: decl.readonly,
                    inout: decl.kind == ParamMode::FPinout,
                    has_default: decl.initializer.is_present(),
                };
                let variadic = decl.initializer.is_ignored() && decl.variadic;
                let param = self.allocate(
                    FunParam {
                        pos: decl.pos,
                        name: decl.name,
                        type_: self.allocate(
                            PossiblyEnforcedTy { enforced: Enforcement::Unenforced, type_ },
                        ),
                        flags,
                    },
                );
                match arity {
                    FunArity::Fstandard => {
                        if variadic {
                            arity = FunArity::Fvariadic(param);
                        } else {
                            params.push(param);
                        }
                    },
                    FunArity::Fvariadic(_) => params.push(param),
                }
            }
            i = i + 1;
        }
        assert(nodes@.take(i as int) =~= nodes@);
        Some(
            (
                Items::copied(self.arena, params.as_slice()),
                Items::copied(self.arena, properties.as_slice()),
                arity,
            ),
        )
    }

    /// A parameter that cannot be read is not made up for by later ones.
    proof fn lemma_params_fail(&self, nodes: Seq<Node<'a>>, n: int)
        requires
            0 <= n <= nodes.len(),
            self.spec_params(nodes.take(n)) is None,
        ensures
            self.spec_params(nodes) is None,
        decreases nodes.len() - n,
    {
        if n < nodes.len() {
            assert(nodes.take(n + 1).drop_last() =~= nodes.take(n));
            self.lemma_params_fail(nodes, n + 1);
        } else {
            assert(nodes.take(n) =~= nodes);
        }
    }

    pub fn where_constraints(&self, list: Node<'a>) -> (r: Items<'a, &'a WhereConstraint<'a>>)
        ensures
            r == Items::of(wheres_of(list.elements())),
    {
        let mut found: Vec<&'a WhereConstraint<'a>> = Vec::new();
        let len = list.len();
        let ghost nodes = list.elements();
        let mut i: usize = 0;
        assert(nodes.take(0) =~= Seq::<Node<'a>>::empty());
        while i < len
            invariant
                nodes == list.elements(),
                len == nodes.len(),
                i <= len,
                found@ == wheres_of(nodes.take(i as int)),
            decreases len - i,
        {
            assert(nodes.take(i + 1).drop_last() =~= nodes.take(i as int));
            if let Node::WhereConstraint(x) = list.nth(i) {
                found.push(x);
            }
            i = i + 1;
        }
        assert(nodes.take(i as int) =~= nodes);
        Items::copied(self.arena, found.as_slice())
    }

    /// The name that a function or method is declared under.
    pub open spec fn spec_fun_id(&self, is_method: bool, name: Node<'a>) -> Id<'a> {
        let id = if is_method && name.spec_is_token(TokenKind::Construct) {
            Some(Id(&self.spec_pos(name), lit("__construct")))
        } else if is_method {
            self.spec_expect_name(name)
        } else {
            self.spec_elaborate_defined_id(name)
        };
        match id {
            Some(id) => id,
            None => Id(&self.spec_pos(name), lit("")),
        }
    }

    /// What a function returns.
    pub open spec fn spec_ret_ty(&self, header: FunctionHeader<'a>, kind: FunKind) -> &'a Ty<'a> {
        let pos = &self.spec_pos(header.name);
        let ty: &'a Ty<'a> = if header.name.spec_is_token(TokenKind::Construct) {
            &witnessed(pos, Ty_::Tprim(Tprim::Tvoid))
        } else {
            match self.spec_node_to_ty(header.ret_hint) {
                Some(ty) => ty,
                None => &witnessed(pos, Ty_::Tany),
            }
        };
        if header.ret_hint is Ignored {
            kind_wrapped(kind, ty)
        } else {
            ty
        }
    }

    /// The name and type of a function or method, and the properties that it
    /// declares where it is a constructor.
    pub open spec fn spec_function_to_ty(
        &self,
        is_method: bool,
        attributes: Node<'a>,
        header: FunctionHeader<'a>,
        body: Node<'a>,
    ) -> Option<(PosId<'a>, &'a Ty<'a>, Items<'a, ShallowProp<'a>>)> {
        match self.spec_as_fun_params(header.param_list) {
            None => None,
            Some(read) => {
                let id = self.spec_fun_id(is_method, header.name);
                let kind = fun_kind_of(header.modifiers, body);
                let spelled = effects_spelled_out(
                    read.0,
                    tparams_of(header.type_params),
                    self.spec_implicit_params(header.capability, &self.spec_pos(header.name)),
                    Items::of(wheres_of(header.where_constraints.elements())),
                );
                let ft = &FunType {
                    arity: read.2,
                    tparams: spelled.1,
                    where_constraints: spelled.3,
                    params: spelled.0,
                    implicit_params: spelled.2,
                    ret: unenforced(self.spec_ret_ty(header, kind)),
                    flags: fun_flags(kind, attributes_in(attributes), header),
                    ifc_decl: attributes_in(attributes).ifc_attribute,
                };
                Some((id.pos_id(), &witnessed(id.0, Ty_::Tfun(ft)), read.1))
            },
        }
    }

    /// Whether the type parameters that a function declares can go out of
    /// scope.
    pub open spec fn can_pop(&self, type_params: Node<'a>) -> bool {
        type_params is TypeParameters ==> self.type_parameters@.len() > 0
    }

    pub fn function_to_ty(
        &mut self,
        is_method: bool,
        attributes: Node<'a>,
        header: &'a FunctionHeader<'a>,
        body: Node<'a>,
    ) -> (r: Option<(PosId<'a>, &'a Ty<'a>, Items<'a, ShallowProp<'a>>)>)
        requires
            old(self).wf(),
            old(self).spec_as_fun_params(header.param_list) is Some ==> old(self).can_pop(
                header.type_params,
            ),
        ensures
            final(self).wf(),
            r == old(self).spec_function_to_ty(is_method, attributes, *header, body),
            r is Some && header.param_list is List ==> promoted_realised(
                header.param_list.elements(),
            ),
            final(self).type_parameters@ == (if r is Some {
                popped(old(self).type_parameters@, header.type_params)
            } else {
                old(self).type_parameters@
            }),
            *final(self) == (DirectDeclSmartConstructors {
                type_parameters: final(self).type_parameters,
                ..*old(self)
            }),
    {
        let is_constructor = header.name.is_token(TokenKind::Construct);
        let f_pos = self.get_pos(header.name);
        let id_opt = if is_method && is_constructor {
            Some(Id(f_pos, literal("__construct")))
        } else if is_method {
            self.expect_name(header.name)
        } else {
            self.elaborate_defined_id(header.name)
        };
        let id = match id_opt {
            Some(id) => id,
            None => Id(f_pos, literal("")),
        };
        let (params, properties, arity) = match self.as_fun_params(header.param_list) {
            Some(read) => read,
            None => return None,
        };
        let implicit_params = self.as_fun_implicit_params(header.capability, f_pos);
        let type_ = if is_constructor {
            self.witness(f_pos, Ty_::Tprim(Tprim::Tvoid))
        } else {
            match self.node_to_ty(header.ret_hint) {
                Some(ty) => ty,
                None => self.tany_with_pos(f_pos),
            }
        };
        let async_ = header.modifiers.holds_token(TokenKind::Async);
        let readonly = header.modifiers.holds_token(TokenKind::Readonly);
        let fun_kind = if body.holds_token(TokenKind::Yield) {
            if async_ {
                FunKind::FAsyncGenerator
            } else {
                FunKind::FGenerator
            }
        } else {
            if async_ {
                FunKind::FAsync
            } else {
                FunKind::FSync
            }
        };
        let type_ = if !header.ret_hint.is_present() {
            self.ret_from_fun_kind(fun_kind, type_)
        } else {
            type_
        };
        let attributes = self.to_attributes(attributes);
        let flags = FunTypeFlags {
            async_: fun_kind == FunKind::FAsync || fun_kind == FunKind::FAsyncGenerator,
            generator: fun_kind == FunKind::FGenerator || fun_kind == FunKind::FAsyncGenerator,
            return_disposable: attributes.returns_disposable,
            returns_readonly: header.readonly_return.is_token(TokenKind::Readonly),
            readonly_this: readonly,
        };
        let ifc_decl = attributes.ifc_attribute;
        // The type parameters go out of scope only now that all types inside
        // have been made.
        let tparams = self.pop_type_params(header.type_params);
        let where_constraints = self.where_constraints(header.where_constraints);
        let (params, tparams, implicit_params, where_constraints) =
            self.rewrite_effect_polymorphism(params, tparams, implicit_params, where_constraints);
        let ret = self.allocate(PossiblyEnforcedTy { enforced: Enforcement::Unenforced, type_ });
        let ft = self.allocate(
            FunType {
                arity,
                tparams,
                where_constraints,
                params,
                implicit_params,
                ret,
                flags,
                ifc_decl,
            },
        );
        let ty = self.witness(id.0, Ty_::Tfun(ft));
        Some((id.to_pos_id(), ty, properties))
    }
}

/// The parameters among nodes.
pub open spec fn param_count<'a>(nodes: Seq<Node<'a>>) -> nat
    decreases nodes.len(),
{
    if nodes.len() == 0 {
        0
    } else if nodes.last() is FunParam {
        param_count(nodes.drop_last()) + 1
    } else {
        param_count(nodes.drop_last())
    }
}

impl<
    'a,
    'text,
    S: SourceTextAllocator<'text, 'a>,
    H: Fn(Query<'a, 'text>) -> Answer<'a, 'text>,
> DirectDeclSmartConstructors<'a, 'text, S, H> {
    /// Every parameter that is written is one of the parameters that are read,
    /// or makes the arity.
    pub proof fn law_every_parameter_is_read(&self, nodes: Seq<Node<'a>>)
        ensures
            self.spec_params(nodes) matches Some(read) ==> read.0.len() + (if read.2 is Fvariadic {
                1nat
            } else {
                0nat
            }) == param_count(nodes),
        decreases nodes.len(),
    {
        if nodes.len() > 0 {
            self.law_every_parameter_is_read(nodes.drop_last());
        }
    }
}

/// The markers of mutability are taken off a type with one argument, which is
/// what is left. Any other type stays.
pub proof fn law_mutability_markers<'a>(ty: &'a Ty<'a>)
    ensures
        ({
            let marked = ty.1 matches Ty_::Tapply(of) && of.1@.len() == 1 && (of.0.1@
                == "\\Mutable".spec_bytes() || of.0.1@ == "\\OwnedMutable".spec_bytes() || of.0.1@
                == "\\MaybeMutable".spec_bytes());
            &&& marked ==> without_mutability(ty) == ty.1->Tapply_0.1@[0]
            &&& !marked ==> without_mutability(ty) == ty
        }),
{
}

/// Where clauses are taken from a list in their order; what else stands in it
/// is passed over.
pub proof fn law_where_clauses_in_order<'a>(nodes: Seq<Node<'a>>, node: Node<'a>)
    ensures
        wheres_of(Seq::<Node<'a>>::empty()).len() == 0,
        node matches Node::WhereConstraint(of) ==> wheres_of(nodes.push(node)) == wheres_of(
            nodes,
        ).push(of),
        !(node is WhereConstraint) ==> wheres_of(nodes.push(node)) == wheres_of(nodes),
{
    assert(nodes.push(node).drop_last() =~= nodes);
}

/// A function is asynchronous exactly where `async` is one of its modifiers,
/// and a generator exactly where its body yields.
pub proof fn law_kind_of_a_function<'a>(modifiers: Node<'a>, body: Node<'a>)
    ensures
        ({
            let kind = fun_kind_of(modifiers, body);
            let is_async = modifiers.spec_holds_token(TokenKind::Async);
            let yields = body.spec_holds_token(TokenKind::Yield);
            &&& kind == FunKind::FAsyncGenerator <==> is_async && yields
            &&& kind == FunKind::FGenerator <==> !is_async && yields
            &&& kind == FunKind::FAsync <==> is_async && !yields
            &&& kind == FunKind::FSync <==> !is_async && !yields
        }),
{
}

impl<
    'a,
    'text,
    S: SourceTextAllocator<'text, 'a>,
    H: Fn(Query<'a, 'text>) -> Answer<'a, 'text>,
> DirectDeclSmartConstructors<'a, 'text, S, H> {
    /// A parameter keeps its name and position. It has a default value exactly
    /// where an initializer is written, and is `inout` or `readonly` where that
    /// is written. Its attributes say the rest. The first variadic parameter
    /// makes the arity; every other one stands behind those before it.
    pub proof fn law_parameter_as_written(&self, nodes: Seq<Node<'a>>, decl: &'a FunParamDecl<'a>)
        requires
            self.spec_params(nodes.push(Node::FunParam(decl))) is Some,
        ensures
            self.spec_params(nodes) is Some,
            ({
                let before = self.spec_params(nodes)->Some_0;
                let after = self.spec_params(nodes.push(Node::FunParam(decl)))->Some_0;
                let is_last = decl.variadic && decl.initializer is Ignored;
                let makes_arity = is_last && before.2 is Fstandard;
                let param = if makes_arity {
                    after.2->Fvariadic_0
                } else {
                    after.0.last()
                };
                &&& makes_arity ==> after.0 == before.0 && after.2 is Fvariadic
                &&& !makes_arity ==> after.0.len() == before.0.len() + 1 && after.0.drop_last()
                    == before.0 && after.2 == before.2
                &&& param.name == decl.name
                &&& param.pos == decl.pos
                &&& param.type_.enforced == Enforcement::Unenforced
                &&& param.flags.has_default <==> !(decl.initializer is Ignored)
                &&& param.flags.inout <==> decl.kind == ParamMode::FPinout
                &&& param.flags.readonly <==> decl.readonly
                &&& param.flags.accept_disposable <==> bears(
                    decl.attributes,
                    "__AcceptDisposable".spec_bytes(),
                )
                &&& param.flags.ifc_external <==> bears(decl.attributes, "__External".spec_bytes())
                &&& param.flags.ifc_can_call <==> bears(decl.attributes, "__CanCall".spec_bytes())
                &&& param.flags.via_label <==> bears(decl.attributes, "__ViaLabel".spec_bytes())
                &&& decl.hint is Ignored ==> param.type_.type_.1 == Ty_::<'a>::Tany
                &&& !(decl.hint is Ignored) ==> (self.spec_node_to_ty(decl.hint) matches Some(ty)
                    && param.type_.type_.1 == without_mutability(ty).1 && (!is_last
                    ==> param.type_.type_ == without_mutability(ty)))
                &&& !is_last && decl.hint is Ignored ==> param.type_.type_.0
                    == &Reason::RwitnessFromDecl(decl.pos)
                &&& is_last && decl.name is Some ==> param.type_.type_.0
                    == &Reason::RvarParamFromDecl(decl.pos)
                &&& is_last && decl.name is None ==> param.type_.type_.0
                    == &Reason::RwitnessFromDecl(decl.pos)
            }),
    {
        law_attributes_say_what_is_written(decl.attributes);
        assert(nodes.push(Node::FunParam(decl)).drop_last() =~= nodes);
        let before = self.spec_params(nodes)->Some_0;
        let after = self.spec_params(nodes.push(Node::FunParam(decl)))->Some_0;
        if after.0.len() == before.0.len() + 1 {
            assert(after.0.drop_last() =~= before.0);
        }
    }

    /// A parameter declares a property exactly where it has a visibility. The
    /// property has this visibility, the name of the parameter without its
    /// dollar sign, and its type.
    pub proof fn law_promoted_parameter(&self, nodes: Seq<Node<'a>>, decl: &'a FunParamDecl<'a>)
        requires
            self.spec_params(nodes.push(Node::FunParam(decl))) is Some,
        ensures
            ({
                let before = self.spec_params(nodes)->Some_0.1;
                let after = self.spec_params(nodes.push(Node::FunParam(decl)))->Some_0.1;
                let prop = after.last();
                &&& !is_visibility_keyword(decl.visibility) ==> after == before
                &&& is_visibility_keyword(decl.visibility) ==> {
                    &&& after.len() == before.len() + 1
                    &&& after.drop_last() == before
                    &&& prop.xhp_attr is None
                    &&& prop.name.0 == decl.pos
                    &&& decl.name matches Some(name) ==> prop.name.1 == slice_of::<'a>(
                        trim_start(name@, DOLLAR),
                    )
                    &&& prop.type_ == self.spec_node_to_ty(decl.hint)
                    &&& prop.visibility == Visibility::Private
                        <==> decl.visibility.spec_is_token(TokenKind::Private)
                    &&& prop.visibility == Visibility::Protected
                        <==> decl.visibility.spec_is_token(TokenKind::Protected)
                    &&& prop.visibility == Visibility::Public
                        <==> decl.visibility.spec_is_token(TokenKind::Public)
                    &&& prop.flags.const_ <==> bears(decl.attributes, "__Const".spec_bytes())
                    &&& prop.flags.php_std_lib <==> bears(
                        decl.attributes,
                        "__PHPStdLib".spec_bytes(),
                    )
                    &&& prop.flags.needs_init <==> self.file_mode != Mode::Mhhi
                    &&& prop.flags.readonly <==> decl.readonly
                    &&& !prop.flags.lateinit && !prop.flags.lsb && !prop.flags.abstract_
                }
            }),
    {
        law_attributes_say_what_is_written(decl.attributes);
        assert(nodes.push(Node::FunParam(decl)).drop_last() =~= nodes);
        let before = self.spec_params(nodes)->Some_0.1;
        let after = self.spec_params(nodes.push(Node::FunParam(decl)))->Some_0.1;
        if after.len() == before.len() + 1 {
            assert(after.drop_last() =~= before);
        }
    }

    /// A function without parameters has none, and what is not a parameter adds
    /// none. A parameter is read unless its hint cannot be.
    pub proof fn law_only_parameters_are_read(&self, nodes: Seq<Node<'a>>, node: Node<'a>)
        ensures
            self.spec_params(Seq::<Node<'a>>::empty()) matches Some(read) && read.0.len() == 0
                && read.1.len() == 0 && read.2 is Fstandard,
            !(node is FunParam) ==> self.spec_params(nodes.push(node)) == self.spec_params(nodes),
            node matches Node::FunParam(decl) ==> (self.spec_params(nodes.push(node)) is Some <==> {
                &&& self.spec_params(nodes) is Some
                &&& decl.hint is Ignored || self.spec_node_to_ty(decl.hint) is Some
            }),
            node is Ignored ==> (self.spec_as_fun_params(node) matches Some(read) && read.0@.len()
                == 0 && read.1@.len() == 0 && read.2 is Fstandard),
            node matches Node::List(items) ==> match self.spec_as_fun_params(node) {
                Some(read) => self.spec_params(items@) == Some((read.0@, read.1@, read.2)),
                None => self.spec_params(items@) is None,
            },
            !(node is Ignored) && !(node is List) ==> self.spec_as_fun_params(node) is None,
    {
        assert(nodes.push(node).drop_last() =~= nodes);
    }

    /// Where no parameter is variadic, the parameters that are read are those
    /// that are written, one for one, each with its name, its position and a
    /// default value exactly where it has an initializer.
    pub proof fn law_parameters_one_for_one(&self, nodes: Seq<Node<'a>>)
        requires
            forall|i: int|
                0 <= i < nodes.len() ==> ((#[trigger] nodes[i]) matches Node::FunParam(decl) && !(
                decl.variadic && decl.initializer is Ignored)),
            self.spec_params(nodes) is Some,
        ensures
            ({
                let read = self.spec_params(nodes)->Some_0;
                &&& read.0.len() == nodes.len()
                &&& read.2 is Fstandard
                &&& forall|i: int|
                    0 <= i < nodes.len() ==> {
                        let decl = nodes[i]->FunParam_0;
                        &&& (#[trigger] read.0[i]).name == decl.name
                        &&& read.0[i].pos == decl.pos
                        &&& read.0[i].flags.has_default <==> !(decl.initializer is Ignored)
                        &&& read.0[i].flags.inout <==> decl.kind == ParamMode::FPinout
                    }
            }),
        decreases nodes.len(),
    {
        if nodes.len() > 0 {
            let rest = nodes.drop_last();
            assert forall|i: int| 0 <= i < rest.len() implies ((
            #[trigger] rest[i]) matches Node::FunParam(decl) && !(decl.variadic
                && decl.initializer is Ignored)) by {
                assert(rest[i] == nodes[i]);
            }
            let decl = nodes[nodes.len() - 1]->FunParam_0;
            assert(rest.push(Node::FunParam(decl)) =~= nodes);
            self.law_parameter_as_written(rest, decl);
            self.law_parameters_one_for_one(rest);
            let read = self.spec_params(nodes)->Some_0.0;
            let before = self.spec_params(rest)->Some_0.0;
            assert(forall|i: int| 0 <= i < before.len() ==> read.drop_last()[i] == before[i]);
        }
    }

    /// What a function returns is what its hint says. Without a hint nothing is
    /// known of it, but that a constructor returns nothing; and it is wrapped
    /// as the kind of the function asks.
    pub proof fn law_return_type_as_written(&self, header: FunctionHeader<'a>, kind: FunKind)
        ensures
            ({
                let ret = self.spec_ret_ty(header, kind);
                let constructs = header.name.spec_token_kind() == Some(TokenKind::Construct);
                let at_name = &Reason::RwitnessFromDecl(&self.spec_pos(header.name));
                let unknown: &'a Ty<'a> = &Ty(at_name, Ty_::Tany);
                let nothing: &'a Ty<'a> = &Ty(at_name, Ty_::Tprim(Tprim::Tvoid));
                let hint = self.spec_node_to_ty(header.ret_hint);
                &&& !(header.ret_hint is Ignored) && constructs ==> ret == nothing
                &&& !(header.ret_hint is Ignored) && !constructs && hint is Some ==> Some(ret)
                    == hint
                &&& !(header.ret_hint is Ignored) && !constructs && hint is None ==> ret == unknown
                &&& header.ret_hint is Ignored && hint is None ==> ret == kind_wrapped(
                    kind,
                    if constructs {
                        nothing
                    } else {
                        unknown
                    },
                )
            }),
    {
    }

    /// A method is declared under its own name, a function under its full name,
    /// and a constructor as `__construct`.
    pub proof fn law_name_of_a_function(&self, is_method: bool, name: Node<'a>)
        ensures
            ({
                let id = self.spec_fun_id(is_method, name);
                let constructs = name.spec_token_kind() == Some(TokenKind::Construct);
                &&& is_method && constructs ==> id.1 == lit("__construct") && id.0
                    == &self.spec_pos(name)
                &&& is_method && !constructs && self.spec_expect_name(name) is Some ==> Some(id)
                    == self.spec_expect_name(name)
                &&& !is_method && self.spec_elaborate_defined_id(name) is Some ==> Some(id)
                    == self.spec_elaborate_defined_id(name)
            }),
    {
    }

    /// The type of a function has the parameters, the arity and the return type
    /// that are written, and the flags that its modifiers, its body and its
    /// attributes show. Without a polymorphic context it has the written type
    /// parameters, where clauses and capability, too.
    pub proof fn law_function_type_as_written(
        &self,
        is_method: bool,
        attributes: Node<'a>,
        header: FunctionHeader<'a>,
        body: Node<'a>,
    )
        ensures
            match (
                self.spec_as_fun_params(header.param_list),
                self.spec_function_to_ty(is_method, attributes, header, body),
            ) {
                (None, read) => read is None,
                (Some(params), read) => read matches Some(of) && {
                    let id = self.spec_fun_id(is_method, header.name);
                    let capability = self.spec_implicit_params(
                        header.capability,
                        &self.spec_pos(header.name),
                    );
                    let is_async = header.modifiers.spec_holds_token(TokenKind::Async);
                    let yields = body.spec_holds_token(TokenKind::Yield);
                    &&& of.0.0 == id.0
                    &&& of.0.1 == id.1
                    &&& of.2 == params.1
                    &&& of.1.0 == &Reason::RwitnessFromDecl(id.0)
                    &&& of.1.1 matches Ty_::Tfun(ft) && {
                        &&& ft.arity == params.2
                        &&& ft.params@.len() == params.0@.len()
                        &&& forall|i: int|
                            0 <= i < params.0@.len() ==> {
                                &&& (#[trigger] ft.params@[i]).name == params.0@[i].name
                                &&& ft.params@[i].pos == params.0@[i].pos
                                &&& ft.params@[i].flags == params.0@[i].flags
                            }
                        &&& ft.ret.enforced == Enforcement::Unenforced
                        &&& ft.ret.type_ == self.spec_ret_ty(
                            header,
                            fun_kind_of(header.modifiers, body),
                        )
                        &&& ft.flags.async_ <==> is_async
                        &&& ft.flags.generator <==> yields
                        &&& ft.flags.return_disposable <==> bears(
                            attributes,
                            "__ReturnDisposable".spec_bytes(),
                        )
                        &&& ft.flags.returns_readonly <==> header.readonly_return.spec_token_kind()
                            == Some(TokenKind::Readonly)
                        &&& ft.flags.readonly_this <==> header.modifiers.spec_holds_token(
                            TokenKind::Readonly,
                        )
                        &&& ft.ifc_decl == attributes_in(attributes).ifc_attribute
                        &&& header.type_params matches Node::TypeParameters(written)
                            ==> written@.is_prefix_of(ft.tparams@)
                        &&& wheres_of(header.where_constraints.elements()).is_prefix_of(
                            ft.where_constraints@,
                        )
                        &&& (ft.params, ft.tparams, ft.implicit_params, ft.where_constraints)
                            == effects_spelled_out(
                            params.0,
                            tparams_of(header.type_params),
                            capability,
                            Items::of(wheres_of(header.where_constraints.elements())),
                        )
                        &&& !any_polymorphic(contexts_written(capability.capability)) ==> {
                            &&& ft.params@ == params.0@
                            &&& ft.implicit_params == capability
                            &&& ft.where_constraints@ == wheres_of(
                                header.where_constraints.elements(),
                            )
                            &&& header.type_params matches Node::TypeParameters(written)
                                ==> ft.tparams@ == written@
                            &&& !(header.type_params is TypeParameters) ==> ft.tparams@.len() == 0
                        }
                    }
                },
            },
    {
        law_attributes_say_what_is_written(attributes);
        if let Some(params) = self.spec_as_fun_params(header.param_list) {
            let capability = self.spec_implicit_params(
                header.capability,
                &self.spec_pos(header.name),
            );
            let tparams = tparams_of(header.type_params);
            let wheres = Items::of(wheres_of(header.where_constraints.elements()));
            law_spelling_out_keeps_the_signature(params.0, tparams, capability, wheres);
            if !any_polymorphic(contexts_written(capability.capability)) {
                if let Capability::CapTy(ty) = capability.capability {
                    if !(ty.1 is Tintersection) {
                        assert(contexts_written(capability.capability)[0] == ty);
                    }
                }
                law_plain_contexts_change_nothing(params.0, tparams, capability, wheres);
            }
        }
    }
}

} // verus!
