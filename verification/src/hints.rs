//! How nodes are read as types and as constant expressions.

use crate::arena::{lemma_items_of, lemma_slice_of, Items};
use crate::host::{Answer, Query};
use crate::node::Node;
use crate::parser::{DirectDeclSmartConstructors, SourceTextAllocator};
use crate::source::Pos;
use crate::syntax::{Expr, Expr_, FunKind, Id, PosId, Tprim, Uop};
use crate::text::{equal_ignoring_case, eq_ignore_ascii_case, is, lit, literal, same};
use crate::token::{FixedWidthToken, TokenKind};
use crate::types::{Capability, FunImplicitParams, FunType, IfcFunDecl, Reason, Tparam, Ty, Ty_};
use vstd::prelude::*;
use vstd::string::*;

verus! {

broadcast use {lemma_items_of, lemma_slice_of};

/// A type that was written down at the given position.
pub open spec fn hinted<'a>(pos: &'a Pos<'a>, ty_: Ty_<'a>) -> Ty<'a> {
    Ty(&Reason::Rhint(pos), ty_)
}

/// A type that something at the given position shows.
pub open spec fn witnessed<'a>(pos: &'a Pos<'a>, ty_: Ty_<'a>) -> Ty<'a> {
    Ty(&Reason::RwitnessFromDecl(pos), ty_)
}

/// The type of a key that was left out at the given position.
pub open spec fn missing_key<'a>(pos: &'a Pos<'a>) -> Ty<'a> {
    Ty(&Reason::RvecOrDictKey(pos), Ty_::Tprim(Tprim::Tarraykey))
}

/// The application of a class without type arguments.
pub open spec fn plain_apply<'a>(id: PosId<'a>) -> Ty_<'a> {
    Ty_::Tapply(&(id, Items::of(Seq::<&'a Ty<'a>>::empty())))
}

/// A type parameter without type arguments.
pub open spec fn plain_generic<'a>(name: &'a [u8]) -> Ty_<'a> {
    Ty_::Tgeneric(&(name, Items::of(Seq::<&'a Ty<'a>>::empty())))
}

pub open spec fn no_tys<'a>() -> Items<'a, &'a Ty<'a>> {
    Items::of(Seq::<&'a Ty<'a>>::empty())
}

/// The type of what is not known.
pub fn tany() -> (r: &'static Ty<'static>)
    ensures
        *r == Ty(&Reason::<'static>::Rnone, Ty_::<'static>::Tany),
{
    &Ty(&Reason::Rnone, Ty_::Tany)
}

pub open spec fn public_policy<'a>() -> IfcFunDecl<'a> {
    IfcFunDecl::FDPolicied(Some(lit("PUBLIC")))
}

pub fn default_ifc_fun_decl<'a>() -> (r: IfcFunDecl<'a>)
    ensures
        r == public_policy::<'a>(),
{
    IfcFunDecl::FDPolicied(Some(literal("PUBLIC")))
}

/// The type of a literal expression: signs and holes around it do not matter.
pub open spec fn literal_ty<'a>(expr: Expr<'a>) -> Option<Ty_<'a>>
    decreases expr,
{
    match expr.1 {
        Expr_::Null => Some(Ty_::Tprim(Tprim::Tnull)),
        Expr_::This => Some(Ty_::Tthis),
        Expr_::True => Some(Ty_::Tprim(Tprim::Tbool)),
        Expr_::False => Some(Ty_::Tprim(Tprim::Tbool)),
        Expr_::Int(_) => Some(Ty_::Tprim(Tprim::Tint)),
        Expr_::Float(_) => Some(Ty_::Tprim(Tprim::Tfloat)),
        Expr_::String(_) => Some(Ty_::Tprim(Tprim::Tstring)),
        Expr_::String2 => Some(Ty_::Tprim(Tprim::Tstring)),
        Expr_::PrefixedString => Some(Ty_::Tprim(Tprim::Tstring)),
        Expr_::Unop(of) => literal_ty(*of.1),
        Expr_::Hole(inner) => literal_ty(*inner),
        _ => None,
    }
}

pub fn expr_to_ty<'a>(expr: &'a Expr<'a>) -> (r: Option<Ty_<'a>>)
    ensures
        r == literal_ty(*expr),
    decreases expr,
{
    match expr.1 {
        Expr_::Null => Some(Ty_::Tprim(Tprim::Tnull)),
        Expr_::This => Some(Ty_::Tthis),
        Expr_::True | Expr_::False => Some(Ty_::Tprim(Tprim::Tbool)),
        Expr_::Int(_) => Some(Ty_::Tprim(Tprim::Tint)),
        Expr_::Float(_) => Some(Ty_::Tprim(Tprim::Tfloat)),
        Expr_::String(_) | Expr_::String2 | Expr_::PrefixedString => Some(
            Ty_::Tprim(Tprim::Tstring),
        ),
        Expr_::Unop(of) => expr_to_ty(of.1),
        Expr_::Hole(inner) => expr_to_ty(inner),
        Expr_::Id(_) | Expr_::Binop(_) | Expr_::ClassConst(_) | Expr_::Other => None,
    }
}

/// What a function of the given kind returns where its hint says only what it
/// yields or awaits.
pub open spec fn kind_wrapped<'a>(kind: FunKind, ty: &'a Ty<'a>) -> &'a Ty<'a> {
    let pos: &'a Pos<'a> = match ty.0.at() {
        Some(pos) => pos,
        None => &Pos::NoPos,
    };
    let reason = &Reason::RretFunKindFromDecl(&(pos, kind));
    match kind {
        FunKind::FAsyncGenerator => &Ty(
            reason,
            Ty_::Tapply(&((pos, lit("\\HH\\AsyncGenerator")), Items::of(seq![ty, ty, ty]))),
        ),
        FunKind::FGenerator => &Ty(
            reason,
            Ty_::Tapply(&((pos, lit("\\Generator")), Items::of(seq![ty, ty, ty]))),
        ),
        FunKind::FAsync => &Ty(
            reason,
            Ty_::Tapply(&((pos, lit("\\HH\\Awaitable")), Items::of(seq![ty]))),
        ),
        FunKind::FSync => ty,
    }
}

/// A capability that points to the whole of a type.
pub open spec fn capability_at<'a>(capability: Capability<'a>, pos: &'a Pos<'a>) -> Capability<'a> {
    match capability {
        Capability::CapTy(ty) => Capability::CapTy(&hinted(pos, ty.1)),
        Capability::CapDefaults(_) => Capability::CapDefaults(pos),
    }
}

/// The type that applying a class to type arguments gives. `\Pure` around a
/// function type is that function type.
pub open spec fn applied<'a>(
    base_ty: PosId<'a>,
    tys: Seq<&'a Ty<'a>>,
    pos: &'a Pos<'a>,
) -> Ty_<'a> {
    if base_ty.1@ == "\\Pure".spec_bytes() && tys.len() == 1 && tys[0].1 is Tfun {
        let f = tys[0].1->Tfun_0;
        Ty_::Tfun(
            &FunType {
                implicit_params: &FunImplicitParams {
                    capability: capability_at(f.implicit_params.capability, pos),
                },
                ..*f
            },
        )
    } else {
        Ty_::Tapply(&(base_ty, Items::of(tys)))
    }
}

impl<
    'a,
    'text,
    S: SourceTextAllocator<'text, 'a>,
    H: Fn(Query<'a, 'text>) -> Answer<'a, 'text>,
> DirectDeclSmartConstructors<'a, 'text, S, H> {
    pub fn hint(&self, pos: &'a Pos<'a>, ty_: Ty_<'a>) -> (r: &'a Ty<'a>)
        ensures
            *r == hinted(pos, ty_),
    {
        self.allocate(Ty(self.allocate(Reason::Rhint(pos)), ty_))
    }

    pub fn witness(&self, pos: &'a Pos<'a>, ty_: Ty_<'a>) -> (r: &'a Ty<'a>)
        ensures
            *r == witnessed(pos, ty_),
    {
        self.allocate(Ty(self.allocate(Reason::RwitnessFromDecl(pos)), ty_))
    }

    pub fn hint_ty(&self, pos: &'a Pos<'a>, ty_: Ty_<'a>) -> (r: Node<'a>)
        ensures
            r == Node::Ty(&hinted(pos, ty_)),
    {
        Node::Ty(self.hint(pos, ty_))
    }

    pub fn prim_ty(&self, tprim: Tprim, pos: &'a Pos<'a>) -> (r: Node<'a>)
        ensures
            r == Node::Ty(&hinted(pos, Ty_::Tprim(tprim))),
    {
        self.hint_ty(pos, Ty_::Tprim(tprim))
    }

    pub fn tany_with_pos(&self, pos: &'a Pos<'a>) -> (r: &'a Ty<'a>)
        ensures
            *r == witnessed(pos, Ty_::Tany),
    {
        self.witness(pos, Ty_::Tany)
    }

    /// The type of the keys of a `vec_or_dict` that does not give one.
    pub fn vec_or_dict_key(&self, pos: &'a Pos<'a>) -> (r: &'a Ty<'a>)
        ensures
            *r == missing_key(pos),
    {
        self.allocate(Ty(self.allocate(Reason::RvecOrDictKey(pos)), Ty_::Tprim(Tprim::Tarraykey)))
    }

    /// The application of a class without type arguments.
    pub fn apply_plain(&self, id: PosId<'a>) -> (r: Ty_<'a>)
        ensures
            r == plain_apply(id),
    {
        Ty_::Tapply(self.allocate((id, Items::none())))
    }

    pub fn generic_plain(&self, name: &'a [u8]) -> (r: Ty_<'a>)
        ensures
            r == plain_generic(name),
    {
        Ty_::Tgeneric(self.allocate((name, Items::none())))
    }

    pub open spec fn spec_in_scope(&self, name: Seq<u8>) -> bool {
        exists|i: int, j: int|
            0 <= i < self.type_parameters@.len() && 0 <= j < self.type_parameters@[i]@.len()
                && #[trigger] self.type_parameters@[i]@[j]@ == name
    }

    pub fn is_type_param_in_scope(&self, name: &[u8]) -> (r: bool)
        ensures
            r == self.spec_in_scope(name@),
    {
        let mut i: usize = 0;
        while i < self.type_parameters.len()
            invariant
                i <= self.type_parameters@.len(),
                forall|k: int, j: int|
                    0 <= k < i && 0 <= j < self.type_parameters@[k]@.len()
                        ==> #[trigger] self.type_parameters@[k]@[j]@ != name@,
            decreases self.type_parameters@.len() - i,
        {
            let names = self.type_parameters[i];
            let mut j: usize = 0;
            while j < names.len()
                invariant
                    i < self.type_parameters@.len(),
                    names == self.type_parameters@[i as int],
                    j <= names@.len(),
                    forall|n: int| 0 <= n < j ==> #[trigger] names@[n]@ != name@,
                decreases names@.len() - j,
            {
                if same(*names.at(j), name) {
                    assert(self.type_parameters@[i as int]@[j as int]@ == name@);
                    return true;
                }
                j = j + 1;
            }
            i = i + 1;
        }
        false
    }

    pub open spec fn spec_node_to_expr(&self, node: Node<'a>) -> Option<&'a Expr<'a>> {
        let expr_ = match node {
            Node::IntLiteral(of) => Some(Expr_::Int(of.0)),
            Node::FloatingLiteral(of) => Some(Expr_::Float(of.0)),
            Node::StringLiteral(of) => Some(Expr_::String(of.0)),
            Node::BooleanLiteral(of) => if equal_ignoring_case(of.0@, "true".spec_bytes()) {
                Some(Expr_::True)
            } else {
                Some(Expr_::False)
            },
            Node::Token(t) => if t.spec_kind() == TokenKind::NullLiteral {
                Some(Expr_::Null)
            } else {
                None
            },
            Node::Name(_) => Some(
                Expr_::Id(&self.spec_elaborate_const_id(self.spec_expect_name(node)->Some_0)),
            ),
            Node::QualifiedName(_) => Some(
                Expr_::Id(&self.spec_elaborate_const_id(self.spec_expect_name(node)->Some_0)),
            ),
            _ => None,
        };
        match node {
            Node::Expr(expr) => Some(expr),
            _ => match expr_ {
                Some(expr_) => Some(&Expr(&self.spec_pos(node), expr_)),
                None => None,
            },
        }
    }

    pub fn node_to_expr(&self, node: Node<'a>) -> (r: Option<&'a Expr<'a>>)
        requires
            self.wf(),
        ensures
            r == self.spec_node_to_expr(node),
    {
        let expr_ = match node {
            Node::Expr(expr) => return Some(expr),
            Node::IntLiteral(of) => Expr_::Int(of.0),
            Node::FloatingLiteral(of) => Expr_::Float(of.0),
            Node::StringLiteral(of) => Expr_::String(of.0),
            Node::BooleanLiteral(of) => {
                if eq_ignore_ascii_case(of.0, literal("true")) {
                    Expr_::True
                } else {
                    Expr_::False
                }
            },
            Node::Token(t) => {
                if t.kind() == TokenKind::NullLiteral {
                    Expr_::Null
                } else {
                    return None;
                }
            },
            Node::Name(_) | Node::QualifiedName(_) => match self.expect_name(node) {
                Some(name) => Expr_::Id(self.allocate(self.elaborate_const_id(name))),
                None => return None,
            },
            _ => return None,
        };
        let pos = self.get_pos(node);
        Some(self.allocate(Expr(pos, expr_)))
    }

    /// The type that a name stands for.
    pub open spec fn spec_named_ty(&self, id: Id<'a>) -> Ty_<'a> {
        let Id(pos, name) = id;
        if self.spec_in_scope(name@) {
            plain_generic(name)
        } else if name@ == "nothing".spec_bytes() {
            Ty_::Tunion(no_tys())
        } else if name@ == "nonnull".spec_bytes() {
            Ty_::Tnonnull
        } else if name@ == "dynamic".spec_bytes() {
            Ty_::Tdynamic
        } else if name@ == "varray_or_darray".spec_bytes() || name@ == "vec_or_dict".spec_bytes() {
            Ty_::TvecOrDict(&(&missing_key(pos), &hinted(pos, Ty_::Tany)))
        } else if name@ == "_".spec_bytes() {
            Ty_::Terr
        } else {
            plain_apply((pos, self.spec_elaborate_raw_id(name)))
        }
    }

    fn named_ty(&self, id: Id<'a>) -> (r: Ty_<'a>)
        requires
            self.wf(),
        ensures
            r == self.spec_named_ty(id),
    {
        let Id(pos, name) = id;
        if self.is_type_param_in_scope(name) {
            self.generic_plain(name)
        } else if is(name, "nothing") {
            Ty_::Tunion(Items::none())
        } else if is(name, "nonnull") {
            Ty_::Tnonnull
        } else if is(name, "dynamic") {
            Ty_::Tdynamic
        } else if is(name, "varray_or_darray") || is(name, "vec_or_dict") {
            let key_type = self.vec_or_dict_key(pos);
            let value_type = self.hint(pos, Ty_::Tany);
            Ty_::TvecOrDict(self.allocate((key_type, value_type)))
        } else if is(name, "_") {
            Ty_::Terr
        } else {
            self.apply_plain((pos, self.elaborate_raw_id(name)))
        }
    }

    /// The type that a node stands for. Where a type is not that of a return
    /// value, `void` and `noreturn` are errors.
    pub open spec fn spec_node_to_ty_(&self, node: Node<'a>, allow_non_ret_ty: bool) -> Option<
        &'a Ty<'a>,
    > {
        let by_name = match self.spec_expect_name(node) {
            Some(id) => Some(&hinted(id.0, self.spec_named_ty(id))),
            None => None,
        };
        match node {
            Node::Ty(ty) => if !allow_non_ret_ty && (ty.1 == Ty_::<'a>::Tprim(Tprim::Tvoid) || ty.1
                == Ty_::<'a>::Tprim(Tprim::Tnoreturn)) {
                Some(&Ty(ty.0, Ty_::Terr))
            } else {
                Some(ty)
            },
            Node::Expr(expr) => match literal_ty(*expr) {
                Some(ty_) => Some(&witnessed(expr.0, ty_)),
                None => None,
            },
            Node::IntLiteral(of) => Some(&witnessed(of.1, Ty_::Tprim(Tprim::Tint))),
            Node::FloatingLiteral(of) => Some(&witnessed(of.1, Ty_::Tprim(Tprim::Tfloat))),
            Node::StringLiteral(of) => Some(&witnessed(of.1, Ty_::Tprim(Tprim::Tstring))),
            Node::BooleanLiteral(of) => Some(&witnessed(of.1, Ty_::Tprim(Tprim::Tbool))),
            Node::Token(t) => {
                let pos = &self.spec_token_pos(t);
                let any = &hinted(pos, Ty_::Tany);
                if t.spec_kind() == TokenKind::Varray {
                    Some(
                        &hinted(
                            pos,
                            Ty_::Tapply(&((pos, lit("\\HH\\vec")), Items::of(seq![any]))),
                        ),
                    )
                } else if t.spec_kind() == TokenKind::Darray {
                    Some(
                        &hinted(
                            pos,
                            Ty_::Tapply(&((pos, lit("\\HH\\dict")), Items::of(seq![any, any]))),
                        ),
                    )
                } else if t.spec_kind() == TokenKind::This {
                    Some(&hinted(pos, Ty_::Tthis))
                } else if t.spec_kind() == TokenKind::NullLiteral {
                    Some(&hinted(pos, Ty_::Tprim(Tprim::Tnull)))
                } else {
                    by_name
                }
            },
            // Contexts hold types such as `ctx $f` and `$v::C`; their variables
            // are not elaborated as names.
            Node::Variable(of) => Some(&hinted(of.1, plain_apply((of.1, of.0)))),
            _ => by_name,
        }
    }

    pub fn node_to_ty_(&self, node: Node<'a>, allow_non_ret_ty: bool) -> (r: Option<&'a Ty<'a>>)
        requires
            self.wf(),
        ensures
            r == self.spec_node_to_ty_(node, allow_non_ret_ty),
    {
        match node {
            Node::Ty(ty) => {
                if !allow_non_ret_ty && matches!(
                    ty.1,
                    Ty_::Tprim(Tprim::Tvoid) | Ty_::Tprim(Tprim::Tnoreturn)
                ) {
                    return Some(self.allocate(Ty(ty.0, Ty_::Terr)));
                }
                return Some(ty);
            },
            Node::Expr(expr) => {
                return match expr_to_ty(expr) {
                    Some(ty_) => Some(self.witness(expr.0, ty_)),
                    None => None,
                };
            },
            Node::IntLiteral(of) => return Some(self.witness(of.1, Ty_::Tprim(Tprim::Tint))),
            Node::FloatingLiteral(of) => {
                return Some(self.witness(of.1, Ty_::Tprim(Tprim::Tfloat)));
            },
            Node::StringLiteral(of) => {
                return Some(self.witness(of.1, Ty_::Tprim(Tprim::Tstring)));
            },
            Node::BooleanLiteral(of) => return Some(self.witness(of.1, Ty_::Tprim(Tprim::Tbool))),
            Node::Token(t) => {
                let pos = self.token_pos(t);
                match t.kind() {
                    TokenKind::Varray => {
                        let any = self.hint(pos, Ty_::Tany);
                        let targs = Items::single(self.arena, any);
                        let ty_ = Ty_::Tapply(self.allocate(((pos, literal("\\HH\\vec")), targs)));
                        return Some(self.hint(pos, ty_));
                    },
                    TokenKind::Darray => {
                        let any = self.hint(pos, Ty_::Tany);
                        let targs = Items::pair(self.arena, any, any);
                        let ty_ = Ty_::Tapply(self.allocate(((pos, literal("\\HH\\dict")), targs)));
                        return Some(self.hint(pos, ty_));
                    },
                    TokenKind::This => return Some(self.hint(pos, Ty_::Tthis)),
                    TokenKind::NullLiteral => {
                        return Some(self.hint(pos, Ty_::Tprim(Tprim::Tnull)));
                    },
                    _ => {},
                }
            },
            Node::Variable(of) => return Some(self.hint(of.1, self.apply_plain((of.1, of.0)))),
            _ => {},
        }
        match self.expect_name(node) {
            Some(id) => Some(self.hint(id.0, self.named_ty(id))),
            None => None,
        }
    }

    pub open spec fn spec_node_to_non_ret_ty(&self, node: Node<'a>) -> Option<&'a Ty<'a>> {
        self.spec_node_to_ty_(node, false)
    }

    pub fn node_to_non_ret_ty(&self, node: Node<'a>) -> (r: Option<&'a Ty<'a>>)
        requires
            self.wf(),
        ensures
            r == self.spec_node_to_non_ret_ty(node),
    {
        self.node_to_ty_(node, false)
    }

    pub open spec fn spec_node_to_ty(&self, node: Node<'a>) -> Option<&'a Ty<'a>> {
        self.spec_node_to_ty_(node, true)
    }

    pub fn node_to_ty(&self, node: Node<'a>) -> (r: Option<&'a Ty<'a>>)
        requires
            self.wf(),
        ensures
            r == self.spec_node_to_ty(node),
    {
        self.node_to_ty_(node, true)
    }

    /// The types among nodes, in their order; other nodes are passed over.
    pub open spec fn spec_tys(&self, nodes: Seq<Node<'a>>) -> Seq<&'a Ty<'a>>
        decreases nodes.len(),
    {
        if nodes.len() == 0 {
            Seq::<&'a Ty<'a>>::empty()
        } else {
            let before = self.spec_tys(nodes.drop_last());
            match self.spec_node_to_ty(nodes.last()) {
                Some(ty) => before.push(ty),
                None => before,
            }
        }
    }

    pub fn tys(&self, list: Node<'a>) -> (r: Items<'a, &'a Ty<'a>>)
        requires
            self.wf(),
        ensures
            r == Items::of(self.spec_tys(list.elements())),
    {
        let mut found: Vec<&'a Ty<'a>> = Vec::new();
        let len = list.len();
        let ghost nodes = list.elements();
        let mut i: usize = 0;
        assert(nodes.take(0) =~= Seq::<Node<'a>>::empty());
        while i < len
            invariant
                self.wf(),
                nodes == list.elements(),
                len == nodes.len(),
                i <= len,
                found@ == self.spec_tys(nodes.take(i as int)),
            decreases len - i,
        {
            assert(nodes.take(i + 1).drop_last() =~= nodes.take(i as int));
            if let Some(ty) = self.node_to_ty(list.nth(i)) {
                found.push(ty);
            }
            i = i + 1;
        }
        assert(nodes.take(i as int) =~= nodes);
        Items::copied(self.arena, found.as_slice())
    }

    /// The type of a constant as far as its value shows it.
    pub open spec fn spec_infer_const(&self, name: Node<'a>, node: Node<'a>) -> Option<
        &'a Ty<'a>,
    > {
        let shown = match node {
            Node::StringLiteral(_) => true,
            Node::BooleanLiteral(_) => true,
            Node::IntLiteral(_) => true,
            Node::FloatingLiteral(_) => true,
            Node::Expr(expr) => match expr.1 {
                Expr_::Unop(of) => of.0 == Uop::Uminus || of.0 == Uop::Uplus,
                Expr_::String(_) => true,
                _ => false,
            },
            _ => false,
        };
        if shown {
            self.spec_node_to_ty(node)
        } else if node.spec_is_token(TokenKind::NullLiteral) {
            Some(&witnessed(&self.spec_pos(node), Ty_::Tprim(Tprim::Tnull)))
        } else {
            Some(&witnessed(&self.spec_pos(name), Ty_::Tany))
        }
    }

    pub fn infer_const(&self, name: Node<'a>, node: Node<'a>) -> (r: Option<&'a Ty<'a>>)
        requires
            self.wf(),
        ensures
            r == self.spec_infer_const(name, node),
    {
        match node {
            Node::StringLiteral(_)
            | Node::BooleanLiteral(_)
            | Node::IntLiteral(_)
            | Node::FloatingLiteral(_) => return self.node_to_ty(node),
            Node::Expr(expr) => match expr.1 {
                Expr_::Unop(of) => {
                    if of.0 == Uop::Uminus || of.0 == Uop::Uplus {
                        return self.node_to_ty(node);
                    }
                },
                Expr_::String(_) => return self.node_to_ty(node),
                _ => {},
            },
            Node::Token(t) => {
                if t.kind() == TokenKind::NullLiteral {
                    let pos = self.get_pos(node);
                    return Some(self.witness(pos, Ty_::Tprim(Tprim::Tnull)));
                }
            },
            _ => {},
        }
        Some(self.tany_with_pos(self.get_pos(name)))
    }

    /// The type parameters of a declaration whose types have all been read:
    /// they go out of scope.
    pub fn pop_type_params(&mut self, node: Node<'a>) -> (r: Items<'a, &'a Tparam<'a>>)
        requires
            node is TypeParameters ==> old(self).type_parameters@.len() > 0,
        ensures
            r == tparams_of(node),
            final(self).type_parameters@ == popped(old(self).type_parameters@, node),
            *final(self) == (DirectDeclSmartConstructors {
                type_parameters: final(self).type_parameters,
                ..*old(self)
            }),
    {
        match node {
            Node::TypeParameters(tparams) => {
                let _ = self.type_parameters.pop();
                *tparams
            },
            _ => Items::none(),
        }
    }

    pub fn ret_from_fun_kind(&self, kind: FunKind, type_: &'a Ty<'a>) -> (r: &'a Ty<'a>)
        ensures
            r == kind_wrapped(kind, type_),
    {
        let pos = match type_.get_pos() {
            Some(pos) => pos,
            None => Pos::none(),
        };
        let reason: &'a Reason<'a> = self.allocate(
            Reason::RretFunKindFromDecl(self.allocate((pos, kind))),
        );
        match kind {
            FunKind::FAsyncGenerator => {
                let targs = Items::triple(self.arena, type_);
                let id = (pos, literal("\\HH\\AsyncGenerator"));
                self.allocate(Ty(reason, Ty_::Tapply(self.allocate((id, targs)))))
            },
            FunKind::FGenerator => {
                let targs = Items::triple(self.arena, type_);
                let id = (pos, literal("\\Generator"));
                self.allocate(Ty(reason, Ty_::Tapply(self.allocate((id, targs)))))
            },
            FunKind::FAsync => {
                let targs = Items::single(self.arena, type_);
                let id = (pos, literal("\\HH\\Awaitable"));
                self.allocate(Ty(reason, Ty_::Tapply(self.allocate((id, targs)))))
            },
            FunKind::FSync => type_,
        }
    }

    pub open spec fn spec_implicit_params(
        &self,
        capability: Node<'a>,
        default_pos: &'a Pos<'a>,
    ) -> &'a FunImplicitParams<'a> {
        &FunImplicitParams {
            capability: match self.spec_node_to_ty(capability) {
                Some(ty) => Capability::CapTy(ty),
                None => Capability::CapDefaults(default_pos),
            },
        }
    }

    pub fn as_fun_implicit_params(
        &self,
        capability: Node<'a>,
        default_pos: &'a Pos<'a>,
    ) -> (r: &'a FunImplicitParams<'a>)
        requires
            self.wf(),
        ensures
            r == self.spec_implicit_params(capability, default_pos),
    {
        // Intersections are not simplified: contexts keep them even where they
        // have one part or none.
        let capability = match self.node_to_ty(capability) {
            Some(ty) => Capability::CapTy(ty),
            None => Capability::CapDefaults(default_pos),
        };
        self.allocate(FunImplicitParams { capability })
    }

    pub open spec fn spec_make_apply(
        &self,
        base_ty: PosId<'a>,
        type_arguments: Node<'a>,
        pos_to_merge: &'a Pos<'a>,
    ) -> Node<'a> {
        let pos = &base_ty.0.merged(*pos_to_merge);
        Node::Ty(&hinted(pos, applied(base_ty, self.spec_tys(type_arguments.elements()), pos)))
    }

    pub fn make_apply(
        &self,
        base_ty: PosId<'a>,
        type_arguments: Node<'a>,
        pos_to_merge: &'a Pos<'a>,
    ) -> (r: Node<'a>)
        requires
            self.wf(),
        ensures
            r == self.spec_make_apply(base_ty, type_arguments, pos_to_merge),
    {
        let tys = self.tys(type_arguments);
        let pos = self.merge(Some(base_ty.0), Some(pos_to_merge));
        if is(base_ty.1, "\\Pure") && tys.len() == 1 {
            let ty = *tys.at(0);
            if let Ty_::Tfun(f) = ty.1 {
                // The capability points to the whole type, `\Pure` included.
                let capability = match f.implicit_params.capability {
                    Capability::CapTy(ty) => Capability::CapTy(self.hint(pos, ty.1)),
                    Capability::CapDefaults(_) => Capability::CapDefaults(pos),
                };
                let implicit_params = self.allocate(FunImplicitParams { capability });
                let ft = self.allocate(FunType { implicit_params, ..*f });
                return self.hint_ty(pos, Ty_::Tfun(ft));
            }
        }
        self.hint_ty(pos, Ty_::Tapply(self.allocate((base_ty, tys))))
    }
}

/// The type parameters that a node declares.
pub open spec fn tparams_of<'a>(node: Node<'a>) -> Items<'a, &'a Tparam<'a>> {
    match node {
        Node::TypeParameters(tparams) => *tparams,
        _ => Items::of(Seq::<&'a Tparam<'a>>::empty()),
    }
}

/// The scopes of type parameters after those of a node have been left.
pub open spec fn popped<'a>(
    scopes: Seq<Items<'a, &'a [u8]>>,
    node: Node<'a>,
) -> Seq<Items<'a, &'a [u8]>> {
    if node is TypeParameters {
        scopes.drop_last()
    } else {
        scopes
    }
}

impl<
    'a,
    'text,
    S: SourceTextAllocator<'text, 'a>,
    H: Fn(Query<'a, 'text>) -> Answer<'a, 'text>,
> DirectDeclSmartConstructors<'a, 'text, S, H> {
    /// Where a type is not that of a return value, it is read as elsewhere,
    /// but for `void` and `noreturn`, which are errors.
    pub proof fn law_non_return_types(&self, node: Node<'a>)
        ensures
            match self.spec_node_to_ty(node) {
                Some(ty) => self.spec_node_to_non_ret_ty(node) == Some(
                    if node is Ty && (ty.1 == Ty_::<'a>::Tprim(Tprim::Tvoid) || ty.1 == Ty_::<
                        'a,
                    >::Tprim(Tprim::Tnoreturn)) {
                        &Ty(ty.0, Ty_::Terr)
                    } else {
                        ty
                    },
                ),
                None => self.spec_node_to_non_ret_ty(node) is None,
            },
    {
    }

    /// The type parameters of a declaration are in scope once they have been
    /// read, and those around it stay so.
    pub proof fn law_declared_type_parameters_are_in_scope(
        &self,
        before: &Self,
        names: Seq<&'a [u8]>,
        name: Seq<u8>,
    )
        requires
            self.type_parameters@ == before.type_parameters@.push(Items::of(names)),
        ensures
            self.spec_in_scope(name) == (before.spec_in_scope(name) || exists|i: int|
                0 <= i < names.len() && #[trigger] names[i]@ == name),
    {
        let n = before.type_parameters@.len();
        assert(self.type_parameters@[n as int]@ == names);
        if before.spec_in_scope(name) {
            let (i, j) = choose|i: int, j: int|
                0 <= i < before.type_parameters@.len() && 0 <= j
                    < before.type_parameters@[i]@.len()
                    && #[trigger] before.type_parameters@[i]@[j]@ == name;
            assert(self.type_parameters@[i]@[j]@ == name);
        }
        if exists|i: int| 0 <= i < names.len() && #[trigger] names[i]@ == name {
            let i = choose|i: int| 0 <= i < names.len() && #[trigger] names[i]@ == name;
            assert(self.type_parameters@[n as int]@[i]@ == name);
        }
        if self.spec_in_scope(name) {
            let (i, j) = choose|i: int, j: int|
                0 <= i < self.type_parameters@.len() && 0 <= j < self.type_parameters@[i]@.len()
                    && #[trigger] self.type_parameters@[i]@[j]@ == name;
            if i < n {
                assert(before.type_parameters@[i]@[j]@ == name);
            } else {
                assert(names[j]@ == name);
            }
        }
    }
}

/// The type of a literal is that of its form: an integer is an `int`, a string
/// of any form a `string`, and so on. A sign or a hole around it changes
/// nothing.
pub proof fn law_types_of_literals<'a>(expr: Expr<'a>)
    ensures
        ({
            let ty = literal_ty(expr);
            &&& expr.1 is Int ==> ty == Some(Ty_::<'a>::Tprim(Tprim::Tint))
            &&& expr.1 is Float ==> ty == Some(Ty_::<'a>::Tprim(Tprim::Tfloat))
            &&& expr.1 is True || expr.1 is False ==> ty == Some(Ty_::<'a>::Tprim(Tprim::Tbool))
            &&& expr.1 is String || expr.1 is String2 || expr.1 is PrefixedString ==> ty == Some(
                Ty_::<'a>::Tprim(Tprim::Tstring),
            )
            &&& expr.1 is Null ==> ty == Some(Ty_::<'a>::Tprim(Tprim::Tnull))
            &&& expr.1 is This ==> ty == Some(Ty_::<'a>::Tthis)
            &&& expr.1 matches Expr_::Unop(of) ==> ty == literal_ty(*of.1)
            &&& expr.1 matches Expr_::Hole(inner) ==> ty == literal_ty(*inner)
            &&& expr.1 is Id || expr.1 is Binop || expr.1 is ClassConst || expr.1 is Other
                ==> ty is None
        }),
{
}

/// Without a hint an asynchronous function returns an `\HH\Awaitable` of what is
/// known, a generator a `\Generator` and an asynchronous one an
/// `\HH\AsyncGenerator`, both with three arguments. Any other function returns
/// just that.
pub proof fn law_wrapped_return_types<'a>(kind: FunKind, ty: &'a Ty<'a>)
    ensures
        ({
            let read = kind_wrapped(kind, ty);
            &&& kind == FunKind::FSync ==> read == ty
            &&& kind != FunKind::FSync ==> {
                &&& read.1 matches Ty_::Tapply(of) && {
                    &&& kind == FunKind::FAsync ==> of.0.1 == lit("\\HH\\Awaitable") && of.1@
                        == seq![ty]
                    &&& kind == FunKind::FGenerator ==> of.0.1 == lit("\\Generator") && of.1@
                        == seq![ty, ty, ty]
                    &&& kind == FunKind::FAsyncGenerator ==> of.0.1 == lit(
                        "\\HH\\AsyncGenerator",
                    ) && of.1@ == seq![ty, ty, ty]
                    &&& ty.0.at() matches Some(pos) ==> of.0.0 == pos
                    &&& ty.0.at() is None ==> *of.0.0 == Pos::<'a>::NoPos
                    &&& *read.0 matches Reason::RretFunKindFromDecl(at) && at.0 == of.0.0 && at.1
                        == kind
                }
            }
        }),
{
}

/// A class applied to types is the application of that class to them, in their
/// order. Only `\Pure` around one function type is this function type itself,
/// with its capability at the position of the whole and nothing else changed.
pub proof fn law_applied_class<'a>(base_ty: PosId<'a>, tys: Seq<&'a Ty<'a>>, pos: &'a Pos<'a>)
    ensures
        ({
            let read = applied(base_ty, tys, pos);
            let pure = base_ty.1@ == "\\Pure".spec_bytes() && tys.len() == 1 && tys[0].1 is Tfun;
            &&& !pure ==> (read matches Ty_::Tapply(of) && of.0 == base_ty && of.1@ == tys)
            &&& pure ==> (read matches Ty_::Tfun(ft) && {
                let written = tys[0].1->Tfun_0;
                &&& ft.arity == written.arity
                &&& ft.tparams == written.tparams
                &&& ft.where_constraints == written.where_constraints
                &&& ft.params == written.params
                &&& ft.ret == written.ret
                &&& ft.flags == written.flags
                &&& ft.ifc_decl == written.ifc_decl
                &&& written.implicit_params.capability matches Capability::CapTy(ty) ==> (
                ft.implicit_params.capability matches Capability::CapTy(now) && now.1 == ty.1
                    && now.0 == &Reason::Rhint(pos))
                &&& written.implicit_params.capability is CapDefaults
                    ==> ft.implicit_params.capability == Capability::CapDefaults(pos)
            })
        }),
{
}

/// Types at a position: what is written there has that for its reason, and so
/// has what something there shows.
pub proof fn law_reasons<'a>(pos: &'a Pos<'a>, ty_: Ty_<'a>)
    ensures
        hinted(pos, ty_).1 == ty_,
        witnessed(pos, ty_).1 == ty_,
        *hinted(pos, ty_).0 matches Reason::Rhint(at) && at == pos,
        *witnessed(pos, ty_).0 matches Reason::RwitnessFromDecl(at) && at == pos,
        *missing_key(pos).0 matches Reason::RvecOrDictKey(at) && at == pos,
        missing_key(pos).1 == Ty_::<'a>::Tprim(Tprim::Tarraykey),
{
}

/// A node that declares type parameters leaves one scope, any other node none.
pub proof fn law_leaving_scopes<'a>(scopes: Seq<Items<'a, &'a [u8]>>, node: Node<'a>)
    ensures
        !(node is TypeParameters) ==> popped(scopes, node) == scopes && tparams_of(node)@.len()
            == 0,
        node matches Node::TypeParameters(tparams) ==> tparams_of(node) == *tparams && (
        scopes.len() > 0 ==> popped(scopes, node).len() == scopes.len() - 1 && popped(
            scopes,
            node,
        ).is_prefix_of(scopes)),
{
    if scopes.len() > 0 {
        assert(scopes.drop_last() =~= scopes.subrange(0, scopes.len() - 1));
    }
}

impl<
    'a,
    'text,
    S: SourceTextAllocator<'text, 'a>,
    H: Fn(Query<'a, 'text>) -> Answer<'a, 'text>,
> DirectDeclSmartConstructors<'a, 'text, S, H> {
    /// A name stands for the type parameter of that name where one is in scope.
    /// `nothing`, `nonnull`, `dynamic`, `vec_or_dict` and `varray_or_darray`
    /// stand for types of their own, and `_` for an error. Any other name is
    /// that of a class, under its full name.
    pub proof fn law_types_by_name(&self, id: Id<'a>)
        ensures
            ({
                let ty = self.spec_named_ty(id);
                let name = id.1@;
                let is_special = name == "nothing".spec_bytes() || name == "nonnull".spec_bytes()
                    || name == "dynamic".spec_bytes() || name == "vec_or_dict".spec_bytes() || name
                    == "varray_or_darray".spec_bytes() || name == "_".spec_bytes();
                &&& self.spec_in_scope(name) ==> (ty matches Ty_::Tgeneric(of) && of.0 == id.1
                    && of.1@.len() == 0)
                &&& !self.spec_in_scope(name) && !is_special ==> (ty matches Ty_::Tapply(of)
                    && of.0.0 == id.0 && of.0.1 == self.spec_elaborate_raw_id(id.1) && of.1@.len()
                    == 0)
                &&& !self.spec_in_scope(name) && is_special ==> {
                    &&& ty is Tunion || ty is Tnonnull || ty is Tdynamic || ty is TvecOrDict
                        || ty is Terr
                    &&& ty matches Ty_::Tunion(of) ==> of@.len() == 0
                    &&& ty matches Ty_::TvecOrDict(of) ==> *of.0 == missing_key(id.0) && of.1.1
                        == Ty_::<'a>::Tany && *of.1.0 == Reason::Rhint(id.0)
                    &&& ty is Tunion ==> name == "nothing".spec_bytes()
                    &&& ty is Tnonnull ==> name == "nonnull".spec_bytes()
                    &&& ty is Tdynamic ==> name == "dynamic".spec_bytes()
                    &&& ty is Terr ==> name == "_".spec_bytes()
                    &&& ty is TvecOrDict ==> name == "vec_or_dict".spec_bytes() || name
                        == "varray_or_darray".spec_bytes()
                }
            }),
    {
    }

    /// A type is read as itself, a literal as the type of its form where it
    /// stands, a name as what it stands for, and a variable, in a context, as an
    /// application under its own text.
    pub proof fn law_nodes_as_types(&self, node: Node<'a>)
        ensures
            ({
                let read = self.spec_node_to_ty(node);
                &&& node matches Node::Ty(ty) ==> read == Some(ty)
                &&& node matches Node::IntLiteral(of) ==> read == Some(
                    &witnessed(of.1, Ty_::Tprim(Tprim::Tint)),
                )
                &&& node matches Node::FloatingLiteral(of) ==> read == Some(
                    &witnessed(of.1, Ty_::Tprim(Tprim::Tfloat)),
                )
                &&& node matches Node::StringLiteral(of) ==> read == Some(
                    &witnessed(of.1, Ty_::Tprim(Tprim::Tstring)),
                )
                &&& node matches Node::BooleanLiteral(of) ==> read == Some(
                    &witnessed(of.1, Ty_::Tprim(Tprim::Tbool)),
                )
                &&& node matches Node::Expr(expr) ==> match literal_ty(*expr) {
                    Some(ty_) => read == Some(&witnessed(expr.0, ty_)),
                    None => read is None,
                }
                &&& node matches Node::Variable(of) ==> (read matches Some(ty) && *ty.0
                    == Reason::Rhint(of.1) && (ty.1 matches Ty_::Tapply(applied) && applied.0.0
                    == of.1 && applied.0.1 == of.0 && applied.1@.len() == 0))
                &&& node matches Node::Name(of) ==> read == Some(
                    &hinted(of.1, self.spec_named_ty(Id(of.1, of.0))),
                )
                &&& node matches Node::XhpName(of) ==> read == Some(
                    &hinted(of.1, self.spec_named_ty(Id(of.1, of.0))),
                )
                &&& node matches Node::QualifiedName(of) ==> read == Some(
                    &hinted(
                        of.1,
                        self.spec_named_ty(self.spec_qualified_name(of.0@, of.1)),
                    ),
                )
                &&& node is Ignored || node is List || node is BracketedList || node is ListItem
                    || node is Attribute || node is TypeParameters ==> read is None
            }),
    {
    }

    /// The tokens `varray`, `darray`, `this` and `null` are read as types:
    /// `\HH\vec` and `\HH\dict` of anything, `this`, and `null`. Of the other
    /// tokens only `xhp` is a name.
    pub proof fn law_tokens_as_types(&self, token: FixedWidthToken)
        ensures
            ({
                let read = self.spec_node_to_ty(Node::Token(token));
                let kind = token.spec_kind();
                let pos = self.spec_token_pos(token);
                &&& kind == TokenKind::This ==> (read matches Some(ty) && ty.1 is Tthis)
                &&& kind == TokenKind::NullLiteral ==> (read matches Some(ty) && ty.1 == Ty_::<
                    'a,
                >::Tprim(Tprim::Tnull))
                &&& kind == TokenKind::Varray ==> (read matches Some(ty) && (
                ty.1 matches Ty_::Tapply(of) && of.0.1 == lit("\\HH\\vec") && of.1@.len() == 1
                    && of.1@[0].1 == Ty_::<'a>::Tany && *of.0.0 == pos && *of.1@[0].0
                    == Reason::Rhint(&pos)))
                &&& kind == TokenKind::Darray ==> (read matches Some(ty) && (
                ty.1 matches Ty_::Tapply(of) && of.0.1 == lit("\\HH\\dict") && of.1@.len() == 2
                    && of.1@[0].1 == Ty_::<'a>::Tany && of.1@[1].1 == Ty_::<'a>::Tany && *of.0.0
                    == pos && *of.1@[0].0 == Reason::Rhint(&pos) && *of.1@[1].0 == Reason::Rhint(
                    &pos,
                )))
                &&& kind == TokenKind::This || kind == TokenKind::NullLiteral || kind
                    == TokenKind::Varray || kind == TokenKind::Darray ==> (read matches Some(ty)
                    && *ty.0 == Reason::Rhint(&pos))
                &&& kind != TokenKind::This && kind != TokenKind::NullLiteral && kind
                    != TokenKind::Varray && kind != TokenKind::Darray && kind != TokenKind::XHP
                    ==> read is None
            }),
    {
    }

    /// The types among nodes are those of the nodes that can be read as types,
    /// one behind the other.
    pub proof fn law_types_in_order(&self, nodes: Seq<Node<'a>>, node: Node<'a>)
        ensures
            self.spec_tys(Seq::<Node<'a>>::empty()).len() == 0,
            match self.spec_node_to_ty(node) {
                Some(ty) => self.spec_tys(nodes.push(node)) == self.spec_tys(nodes).push(ty),
                None => self.spec_tys(nodes.push(node)) == self.spec_tys(nodes),
            },
    {
        assert(nodes.push(node).drop_last() =~= nodes);
    }

    /// The value of a constant shows its type where it is a literal, with a sign
    /// or not. Of any other value nothing is known.
    pub proof fn law_inferred_constants(&self, name: Node<'a>, node: Node<'a>)
        ensures
            ({
                let read = self.spec_infer_const(name, node);
                let is_literal = node is IntLiteral || node is FloatingLiteral
                    || node is StringLiteral || node is BooleanLiteral;
                let is_signed = node matches Node::Expr(expr) && (expr.1 matches Expr_::Unop(of) && (
                of.0 == Uop::Uminus || of.0 == Uop::Uplus));
                let is_string = node matches Node::Expr(expr) && expr.1 is String;
                &&& is_literal || is_signed || is_string ==> read == self.spec_node_to_ty(node)
                &&& node.spec_token_kind() == Some(TokenKind::NullLiteral) ==> (read matches Some(
                    ty,
                ) && ty.1 == Ty_::<'a>::Tprim(Tprim::Tnull) && *ty.0 == Reason::RwitnessFromDecl(
                    &self.spec_pos(node),
                ))
                &&& !is_literal && !is_signed && !is_string && node.spec_token_kind() != Some(
                    TokenKind::NullLiteral,
                ) ==> (read matches Some(ty) && ty.1 == Ty_::<'a>::Tany && *ty.0
                    == Reason::RwitnessFromDecl(&self.spec_pos(name)))
            }),
    {
    }

    /// A function has the capability that is written, or the defaults where none
    /// is.
    pub proof fn law_capability_as_written(&self, capability: Node<'a>, default_pos: &'a Pos<'a>)
        ensures
            match self.spec_node_to_ty(capability) {
                Some(ty) => self.spec_implicit_params(capability, default_pos).capability
                    == Capability::CapTy(ty),
                None => self.spec_implicit_params(capability, default_pos).capability
                    == Capability::CapDefaults(default_pos),
            },
    {
    }

    /// A constant expression is of the form of its node. Of the booleans the one
    /// that reads `true`, in any case, is true.
    pub proof fn law_nodes_as_expressions(&self, node: Node<'a>)
        ensures
            ({
                let read = self.spec_node_to_expr(node);
                &&& node matches Node::Expr(expr) ==> read == Some(expr)
                &&& node matches Node::IntLiteral(of) ==> (read matches Some(expr) && expr.1
                    == Expr_::Int(of.0))
                &&& node matches Node::FloatingLiteral(of) ==> (read matches Some(expr) && expr.1
                    == Expr_::Float(of.0))
                &&& node matches Node::StringLiteral(of) ==> (read matches Some(expr) && expr.1
                    == Expr_::String(of.0))
                &&& node matches Node::BooleanLiteral(of) ==> (read matches Some(expr) && (
                expr.1 is True <==> equal_ignoring_case(of.0@, "true".spec_bytes())) && (
                expr.1 is False <==> !equal_ignoring_case(of.0@, "true".spec_bytes())))
                &&& node matches Node::Token(t) ==> (read is Some <==> t.spec_kind()
                    == TokenKind::NullLiteral) && (read matches Some(expr) ==> expr.1 is Null)
                &&& node is Name || node is QualifiedName ==> (read matches Some(expr) && (
                expr.1 matches Expr_::Id(id) && *id == self.spec_elaborate_const_id(
                    self.spec_expect_name(node)->Some_0,
                )))
                &&& read matches Some(expr) ==> node is Expr || *expr.0 == self.spec_pos(node)
                &&& node is Ignored || node is List || node is Ty || node is Variable
                    ==> read is None
            }),
    {
    }

    /// Applying a class gives a type that reaches from the class to the end of
    /// its arguments.
    pub proof fn law_application_as_written(
        &self,
        base_ty: PosId<'a>,
        type_arguments: Node<'a>,
        pos_to_merge: &'a Pos<'a>,
    )
        ensures
            self.spec_make_apply(base_ty, type_arguments, pos_to_merge) matches Node::Ty(ty) && {
                let pos = &base_ty.0.merged(*pos_to_merge);
                &&& *ty.0 == Reason::Rhint(pos)
                &&& ty.1 == applied(base_ty, self.spec_tys(type_arguments.elements()), pos)
            },
    {
    }
}

} // verus!
