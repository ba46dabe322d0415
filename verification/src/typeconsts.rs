//! Type constants and context constants of classes.

use crate::arena::{lemma_items_of, lemma_slice_of};
use crate::attributes::{attributes_in, bears, law_attributes_say_what_is_written};
use crate::decls::{AbstractTypeconst, ConcreteTypeconst, ShallowTypeconst, Typeconst};
use crate::host::{Answer, Query};
use crate::node::Node;
use crate::parser::{DirectDeclSmartConstructors, SourceTextAllocator};
use crate::source::Pos;
use crate::syntax::{ConstraintKind, Id};
use crate::token::{SyntaxKind, TokenKind};
use crate::types::Ty;
use vstd::prelude::*;
use vstd::string::*;

verus! {

broadcast use {lemma_items_of, lemma_slice_of};

/// What a type constant is: abstract ones may lack a value, concrete ones may
/// not.
pub open spec fn typeconst_kind<'a>(
    is_abstract: bool,
    as_constraint: Option<&'a Ty<'a>>,
    super_constraint: Option<&'a Ty<'a>>,
    value: Option<&'a Ty<'a>>,
) -> Option<Typeconst<'a>> {
    if is_abstract {
        Some(
            Typeconst::TCAbstract(
                &AbstractTypeconst { as_constraint, super_constraint, default: value },
            ),
        )
    } else {
        match value {
            Some(tc_type) => Some(Typeconst::TCConcrete(&ConcreteTypeconst { tc_type })),
            None => None,
        }
    }
}

impl<
    'a,
    'text,
    S: SourceTextAllocator<'text, 'a>,
    H: Fn(Query<'a, 'text>) -> Answer<'a, 'text>,
> DirectDeclSmartConstructors<'a, 'text, S, H> {
    fn kind_of_typeconst(
        &self,
        is_abstract: bool,
        as_constraint: Option<&'a Ty<'a>>,
        super_constraint: Option<&'a Ty<'a>>,
        value: Option<&'a Ty<'a>>,
    ) -> (r: Option<Typeconst<'a>>)
        ensures
            r == typeconst_kind(is_abstract, as_constraint, super_constraint, value),
    {
        if is_abstract {
            Some(
                Typeconst::TCAbstract(
                    self.allocate(
                        AbstractTypeconst { as_constraint, super_constraint, default: value },
                    ),
                ),
            )
        } else {
            match value {
                Some(tc_type) => Some(
                    Typeconst::TCConcrete(self.allocate(ConcreteTypeconst { tc_type })),
                ),
                None => None,
            }
        }
    }

    pub open spec fn spec_make_type_const(
        &self,
        attributes: Node<'a>,
        modifiers: Node<'a>,
        name: Node<'a>,
        as_constraint: Node<'a>,
        type_: Node<'a>,
    ) -> Node<'a> {
        let attrs = attributes_in(attributes);
        let kind = typeconst_kind(
            modifiers.spec_holds_token(TokenKind::Abstract),
            match as_constraint {
                Node::TypeConstraint(of) => self.spec_node_to_ty(of.1),
                _ => None,
            },
            None,
            self.spec_node_to_ty(type_),
        );
        match (kind, name.spec_as_id()) {
            (Some(kind), Some(id)) => Node::TypeConstant(
                &ShallowTypeconst {
                    name: id.pos_id(),
                    kind,
                    enforceable: match attrs.enforceable {
                        Some(pos) => (pos, true),
                        None => (&Pos::NoPos, false),
                    },
                    reifiable: attrs.reifiable,
                    is_ctx: false,
                },
            ),
            _ => Node::Ignored(SyntaxKind::TypeConstDeclaration),
        }
    }

    /// A type constant: `abstract const type T [as X] [= Z];` or
    /// `const type T = Z;`.
    pub fn make_type_const_declaration(
        &self,
        attributes: Node<'a>,
        modifiers: Node<'a>,
        _const_keyword: Node<'a>,
        _type_keyword: Node<'a>,
        name: Node<'a>,
        _type_parameters: Node<'a>,
        as_constraint: Node<'a>,
        _equal: Node<'a>,
        type_: Node<'a>,
        _semicolon: Node<'a>,
    ) -> (r: Node<'a>)
        requires
            self.wf(),
        ensures
            r == self.spec_make_type_const(attributes, modifiers, name, as_constraint, type_),
    {
        let attributes = self.to_attributes(attributes);
        let has_abstract_keyword = modifiers.holds_token(TokenKind::Abstract);
        let as_constraint = match as_constraint {
            Node::TypeConstraint(of) => self.node_to_ty(of.1),
            _ => None,
        };
        let type_ = self.node_to_ty(type_);
        let kind = match self.kind_of_typeconst(has_abstract_keyword, as_constraint, None, type_) {
            Some(kind) => kind,
            None => return Node::Ignored(SyntaxKind::TypeConstDeclaration),
        };
        let name = match name.as_id() {
            Some(name) => name,
            None => return Node::Ignored(SyntaxKind::TypeConstDeclaration),
        };
        let enforceable = match attributes.enforceable {
            Some(pos) => (pos, true),
            None => (Pos::none(), false),
        };
        Node::TypeConstant(
            self.allocate(
                ShallowTypeconst {
                    name: name.to_pos_id(),
                    kind,
                    enforceable,
                    reifiable: attributes.reifiable,
                    is_ctx: false,
                },
            ),
        )
    }

    pub open spec fn spec_make_context_const(
        &self,
        modifiers: Node<'a>,
        name: Node<'a>,
        constraints: Node<'a>,
        ctx_list: Node<'a>,
    ) -> Node<'a> {
        let kind = typeconst_kind(
            modifiers.spec_holds_token(TokenKind::Abstract),
            self.spec_context_bound(constraints.elements(), ConstraintKind::ConstraintAs),
            self.spec_context_bound(constraints.elements(), ConstraintKind::ConstraintSuper),
            self.spec_node_to_ty(ctx_list),
        );
        match (kind, name.spec_as_id()) {
            (Some(kind), Some(id)) => Node::TypeConstant(
                &ShallowTypeconst {
                    name: id.pos_id(),
                    kind,
                    enforceable: (&Pos::NoPos, false),
                    reifiable: None,
                    is_ctx: true,
                },
            ),
            _ => Node::Ignored(SyntaxKind::TypeConstDeclaration),
        }
    }

    pub fn make_context_const_declaration(
        &self,
        modifiers: Node<'a>,
        _const_keyword: Node<'a>,
        _ctx_keyword: Node<'a>,
        name: Node<'a>,
        _type_parameters: Node<'a>,
        constraints: Node<'a>,
        _equal: Node<'a>,
        ctx_list: Node<'a>,
        _semicolon: Node<'a>,
    ) -> (r: Node<'a>)
        requires
            self.wf(),
        ensures
            r == self.spec_make_context_const(modifiers, name, constraints, ctx_list),
    {
        let name = match name.as_id() {
            Some(name) => name,
            None => return Node::Ignored(SyntaxKind::TypeConstDeclaration),
        };
        let has_abstract_keyword = modifiers.holds_token(TokenKind::Abstract);
        let context = self.node_to_ty(ctx_list);
        let as_constraint = self.context_bound(constraints, ConstraintKind::ConstraintAs);
        let super_constraint = self.context_bound(constraints, ConstraintKind::ConstraintSuper);
        let kind = match self.kind_of_typeconst(
            has_abstract_keyword,
            as_constraint,
            super_constraint,
            context,
        ) {
            Some(kind) => kind,
            None => return Node::Ignored(SyntaxKind::TypeConstDeclaration),
        };
        Node::TypeConstant(
            self.allocate(
                ShallowTypeconst {
                    name: name.to_pos_id(),
                    kind,
                    enforceable: (Pos::none(), false),
                    reifiable: None,
                    is_ctx: true,
                },
            ),
        )
    }
}

impl<
    'a,
    'text,
    S: SourceTextAllocator<'text, 'a>,
    H: Fn(Query<'a, 'text>) -> Answer<'a, 'text>,
> DirectDeclSmartConstructors<'a, 'text, S, H> {
    /// A type constant is abstract exactly where that is written, and has the
    /// bound and the default that are written. A concrete one needs a type.
    pub proof fn law_type_constant_as_written(
        &self,
        attributes: Node<'a>,
        modifiers: Node<'a>,
        name: Node<'a>,
        as_constraint: Node<'a>,
        type_: Node<'a>,
    )
        ensures
            ({
                let node = self.spec_make_type_const(
                    attributes,
                    modifiers,
                    name,
                    as_constraint,
                    type_,
                );
                let is_abstract = modifiers.spec_holds_token(TokenKind::Abstract);
                let value = self.spec_node_to_ty(type_);
                &&& node is TypeConstant <==> (name is Name || name is XhpName) && (is_abstract
                    || value is Some)
                &&& !(node is TypeConstant) ==> node is Ignored
                &&& node matches Node::TypeConstant(of) ==> {
                    &&& name.spec_as_id() == Some(Id(of.name.0, of.name.1))
                    &&& !of.is_ctx
                    &&& of.enforceable.1 <==> bears(attributes, "__Enforceable".spec_bytes())
                    &&& attributes_in(attributes).enforceable matches Some(pos)
                        ==> of.enforceable.0 == pos
                    &&& attributes_in(attributes).enforceable is None ==> *of.enforceable.0
                        == Pos::<'a>::NoPos
                    &&& of.reifiable == attributes_in(attributes).reifiable
                    &&& of.kind is TCAbstract <==> is_abstract
                    &&& of.kind matches Typeconst::TCConcrete(tc) ==> Some(tc.tc_type) == value
                    &&& of.kind matches Typeconst::TCAbstract(tc) ==> {
                        &&& tc.default == value
                        &&& tc.super_constraint is None
                        &&& as_constraint matches Node::TypeConstraint(bound) ==> tc.as_constraint
                            == self.spec_node_to_ty(bound.1)
                        &&& !(as_constraint is TypeConstraint) ==> tc.as_constraint is None
                    }
                }
            }),
    {
        law_attributes_say_what_is_written(attributes);
    }

    /// A context constant is abstract exactly where that is written, with the
    /// bounds behind `as` and `super` and the default that are written. A
    /// concrete one needs a value.
    pub proof fn law_context_constant_as_written(
        &self,
        modifiers: Node<'a>,
        name: Node<'a>,
        constraints: Node<'a>,
        ctx_list: Node<'a>,
    )
        ensures
            ({
                let node = self.spec_make_context_const(modifiers, name, constraints, ctx_list);
                let is_abstract = modifiers.spec_holds_token(TokenKind::Abstract);
                let value = self.spec_node_to_ty(ctx_list);
                &&& node is TypeConstant <==> (name is Name || name is XhpName) && (is_abstract
                    || value is Some)
                &&& !(node is TypeConstant) ==> node is Ignored
                &&& node matches Node::TypeConstant(of) ==> {
                    &&& name.spec_as_id() == Some(Id(of.name.0, of.name.1))
                    &&& of.is_ctx
                    &&& !of.enforceable.1
                    &&& *of.enforceable.0 == Pos::<'a>::NoPos
                    &&& of.reifiable is None
                    &&& of.kind is TCAbstract <==> is_abstract
                    &&& of.kind matches Typeconst::TCConcrete(tc) ==> Some(tc.tc_type) == value
                    &&& of.kind matches Typeconst::TCAbstract(tc) ==> {
                        &&& tc.default == value
                        &&& tc.as_constraint == self.spec_context_bound(
                            constraints.elements(),
                            ConstraintKind::ConstraintAs,
                        )
                        &&& tc.super_constraint == self.spec_context_bound(
                            constraints.elements(),
                            ConstraintKind::ConstraintSuper,
                        )
                    }
                }
            }),
    {
    }
}

} // verus!
