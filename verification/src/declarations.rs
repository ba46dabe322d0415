//! Records, type aliases, type parameters and constants.

use crate::arena::{lemma_items_of, lemma_slice_of, slice_of, Items};
use crate::attributes::{
    attributes_in, bears, declared_attribute, is_attribute, law_attributes_say_what_is_written,
};
use crate::decls::{
    ClassConstKind, ClassConstRef, ConstDecl, Decl, RecordDefType, ShallowClassConst, TypedefType,
};
use crate::hints::{hinted, plain_apply, popped, tany, tparams_of, witnessed};
use crate::host::{Answer, Query};
use crate::node::{
    law_member_modifiers, member_modifiers, read_member_modifiers, Node, TypeParameterDecl,
    UserAttributeNode,
};
use crate::parser::{DirectDeclSmartConstructors, SourceTextAllocator};
use crate::source::Pos;
use crate::syntax::{
    ConstraintKind, Id, PosId, RecordFieldReq, ReifyKind, TypedefVisibility, Variance,
};
use crate::text::{is, lit, literal};
use crate::token::{SyntaxKind, TokenKind};
use crate::types::{Reason, Tparam, Ty, Ty_, UserAttribute, WhereConstraint};
use vstd::prelude::*;
use vstd::string::*;

verus! {

broadcast use {lemma_items_of, lemma_slice_of};

/// The fields of a record.
pub open spec fn record_fields<'a>(nodes: Seq<Node<'a>>) -> Seq<(PosId<'a>, RecordFieldReq)>
    decreases nodes.len(),
{
    if nodes.len() == 0 {
        Seq::<(PosId<'a>, RecordFieldReq)>::empty()
    } else {
        let before = record_fields(nodes.drop_last());
        match nodes.last() {
            Node::RecordField(field) => before.push((field.0.pos_id(), field.1)),
            _ => before,
        }
    }
}

fn read_record_fields<'a>(list: Node<'a>) -> (r: Vec<(PosId<'a>, RecordFieldReq)>)
    ensures
        r@ == record_fields(list.elements()),
{
    let mut fields: Vec<(PosId<'a>, RecordFieldReq)> = Vec::new();
    let len = list.len();
    let ghost nodes = list.elements();
    let mut i: usize = 0;
    assert(nodes.take(0) =~= Seq::<Node<'a>>::empty());
    while i < len
        invariant
            nodes == list.elements(),
            len == nodes.len(),
            i <= len,
            fields@ == record_fields(nodes.take(i as int)),
        decreases len - i,
    {
        assert(nodes.take(i + 1).drop_last() =~= nodes.take(i as int));
        if let Node::RecordField(field) = list.nth(i) {
            fields.push((field.0.to_pos_id(), field.1));
        }
        i = i + 1;
    }
    assert(nodes.take(i as int) =~= nodes);
    fields
}

/// The kind of constraint that a keyword begins.
pub open spec fn constraint_keyword(kind: Option<TokenKind>) -> Option<ConstraintKind> {
    match kind {
        Some(TokenKind::As) => Some(ConstraintKind::ConstraintAs),
        Some(TokenKind::Super) => Some(ConstraintKind::ConstraintSuper),
        _ => None,
    }
}

/// The constraint of a type that a keyword begins.
pub open spec fn type_constraint<'a>(kind: Node<'a>, value: Node<'a>) -> Node<'a> {
    match constraint_keyword(kind.spec_token_kind()) {
        Some(kind) => Node::TypeConstraint(&(kind, value)),
        None => Node::Ignored(SyntaxKind::TypeConstraint),
    }
}

/// The constraint of a context that a keyword begins.
pub open spec fn context_constraint<'a>(kind: Node<'a>, value: Node<'a>) -> Node<'a> {
    match constraint_keyword(kind.spec_token_kind()) {
        Some(kind) => Node::ContextConstraint(&(kind, value)),
        None => Node::Ignored(SyntaxKind::ContextConstraint),
    }
}

/// The name, the value and the references of a constant declarator.
pub open spec fn constant_declarator<'a>(
    name: Node<'a>,
    initializer: Node<'a>,
    refs: Items<'a, ClassConstRef<'a>>,
) -> Node<'a> {
    if name is Ignored {
        Node::Ignored(SyntaxKind::ConstantDeclarator)
    } else {
        Node::ConstInitializer(&(name, initializer, refs))
    }
}

/// The attributes among nodes.
pub open spec fn attribute_list<'a>(nodes: Seq<Node<'a>>) -> Seq<&'a UserAttributeNode<'a>>
    decreases nodes.len(),
{
    if nodes.len() == 0 {
        Seq::<&'a UserAttributeNode<'a>>::empty()
    } else {
        let before = attribute_list(nodes.drop_last());
        match nodes.last() {
            Node::Attribute(attribute) => before.push(attribute),
            _ => before,
        }
    }
}

pub fn read_attribute_list<'a>(list: Node<'a>) -> (r: Vec<&'a UserAttributeNode<'a>>)
    ensures
        r@ == attribute_list(list.elements()),
{
    let mut found: Vec<&'a UserAttributeNode<'a>> = Vec::new();
    let len = list.len();
    let ghost nodes = list.elements();
    let mut i: usize = 0;
    assert(nodes.take(0) =~= Seq::<Node<'a>>::empty());
    while i < len
        invariant
            nodes == list.elements(),
            len == nodes.len(),
            i <= len,
            found@ == attribute_list(nodes.take(i as int)),
        decreases len - i,
    {
        assert(nodes.take(i + 1).drop_last() =~= nodes.take(i as int));
        if let Node::Attribute(attribute) = list.nth(i) {
            found.push(attribute);
        }
        i = i + 1;
    }
    assert(nodes.take(i as int) =~= nodes);
    found
}

/// The constraints among nodes.
pub open spec fn type_constraints<'a>(nodes: Seq<Node<'a>>) -> Seq<(ConstraintKind, Node<'a>)>
    decreases nodes.len(),
{
    if nodes.len() == 0 {
        Seq::<(ConstraintKind, Node<'a>)>::empty()
    } else {
        let before = type_constraints(nodes.drop_last());
        match nodes.last() {
            Node::TypeConstraint(constraint) => before.push(*constraint),
            _ => before,
        }
    }
}

fn read_type_constraints<'a>(list: Node<'a>) -> (r: Vec<(ConstraintKind, Node<'a>)>)
    ensures
        r@ == type_constraints(list.elements()),
{
    let mut found: Vec<(ConstraintKind, Node<'a>)> = Vec::new();
    let len = list.len();
    let ghost nodes = list.elements();
    let mut i: usize = 0;
    assert(nodes.take(0) =~= Seq::<Node<'a>>::empty());
    while i < len
        invariant
            nodes == list.elements(),
            len == nodes.len(),
            i <= len,
            found@ == type_constraints(nodes.take(i as int)),
        decreases len - i,
    {
        assert(nodes.take(i + 1).drop_last() =~= nodes.take(i as int));
        if let Node::TypeConstraint(constraint) = list.nth(i) {
            found.push(*constraint);
        }
        i = i + 1;
    }
    assert(nodes.take(i as int) =~= nodes);
    found
}

/// Whether one of the attributes has the given name.
pub open spec fn has_attribute<'a>(
    attributes: Seq<&'a UserAttributeNode<'a>>,
    name: Seq<u8>,
) -> bool {
    exists|i: int| 0 <= i < attributes.len() && (#[trigger] attributes[i]).name.1@ == name
}

fn find_attribute<'a>(attributes: &Vec<&'a UserAttributeNode<'a>>, name: &'static str) -> (r: bool)
    ensures
        r == has_attribute(attributes@, name.spec_bytes()),
{
    let mut i: usize = 0;
    while i < attributes.len()
        invariant
            i <= attributes@.len(),
            forall|j: int|
                0 <= j < i ==> (#[trigger] attributes@[j]).name.1@ != name.spec_bytes(),
        decreases attributes@.len() - i,
    {
        if is(attributes[i].name.1, name) {
            assert(attributes@[i as int].name.1@ == name.spec_bytes());
            return true;
        }
        i = i + 1;
    }
    false
}

/// A type parameter as it is written.
pub open spec fn type_parameter<'a>(
    user_attributes: Node<'a>,
    reify: Node<'a>,
    variance: Node<'a>,
    name: Node<'a>,
    tparam_params: Node<'a>,
    constraints: Node<'a>,
) -> TypeParameterDecl<'a> {
    let attributes = match user_attributes {
        Node::BracketedList(list) => attribute_list(list.1@),
        _ => Seq::<&'a UserAttributeNode<'a>>::empty(),
    };
    TypeParameterDecl {
        name,
        reified: if !reify.spec_is_token(TokenKind::Reify) {
            ReifyKind::Erased
        } else if has_attribute(attributes, "__Soft".spec_bytes()) {
            ReifyKind::SoftReified
        } else {
            ReifyKind::Reified
        },
        variance: match variance.spec_token_kind() {
            Some(TokenKind::Minus) => Variance::Contravariant,
            Some(TokenKind::Plus) => Variance::Covariant,
            _ => Variance::Invariant,
        },
        constraints: Items::of(type_constraints(constraints.elements())),
        tparam_params: tparams_of(tparam_params),
        user_attributes: Items::of(attributes),
    }
}

/// The type parameters of a list with their names; none where one has no name.
pub open spec fn named_tparams<'a>(nodes: Seq<Node<'a>>) -> Option<
    Seq<(&'a TypeParameterDecl<'a>, Id<'a>)>,
>
    decreases nodes.len(),
{
    if nodes.len() == 0 {
        Some(Seq::<(&'a TypeParameterDecl<'a>, Id<'a>)>::empty())
    } else {
        match (named_tparams(nodes.drop_last()), nodes.last()) {
            (None, _) => None,
            (Some(before), Node::TypeParameter(decl)) => match decl.name.spec_as_id() {
                Some(id) => Some(before.push((decl, id))),
                None => None,
            },
            (Some(before), _) => Some(before),
        }
    }
}

proof fn lemma_named_tparams_fail<'a>(nodes: Seq<Node<'a>>, n: int)
    requires
        0 <= n <= nodes.len(),
        named_tparams(nodes.take(n)) is None,
    ensures
        named_tparams(nodes) is None,
    decreases nodes.len() - n,
{
    if n < nodes.len() {
        assert(nodes.take(n + 1).drop_last() =~= nodes.take(n));
        lemma_named_tparams_fail(nodes, n + 1);
    } else {
        assert(nodes.take(n) =~= nodes);
    }
}

fn read_named_tparams<'a>(list: Node<'a>) -> (r: Option<
    Vec<(&'a TypeParameterDecl<'a>, Id<'a>)>,
>)
    ensures
        match r {
            Some(read) => named_tparams(list.elements()) == Some(read@),
            None => named_tparams(list.elements()) is None,
        },
{
    let mut read: Vec<(&'a TypeParameterDecl<'a>, Id<'a>)> = Vec::new();
    let len = list.len();
    let ghost nodes = list.elements();
    let mut i: usize = 0;
    assert(nodes.take(0) =~= Seq::<Node<'a>>::empty());
    while i < len
        invariant
            nodes == list.elements(),
            len == nodes.len(),
            i <= len,
            named_tparams(nodes.take(i as int)) == Some(read@),
        decreases len - i,
    {
        assert(nodes.take(i + 1).drop_last() =~= nodes.take(i as int));
        if let Node::TypeParameter(decl) = list.nth(i) {
            match decl.name.as_id() {
                Some(name) => read.push((decl, name)),
                None => {
                    proof {
                        lemma_named_tparams_fail(nodes, i + 1);
                    }
                    return None;
                },
            }
        }
        i = i + 1;
    }
    assert(nodes.take(i as int) =~= nodes);
    Some(read)
}

/// The names of type parameters.
pub open spec fn tparam_names<'a>(tparams: Seq<(&'a TypeParameterDecl<'a>, Id<'a>)>) -> Seq<
    &'a [u8],
> {
    Seq::new(tparams.len(), |i: int| tparams[i].1.1)
}

/// Attributes as declarations keep them: the last one first.
pub open spec fn attributes_reversed<'a>(attributes: Seq<&'a UserAttributeNode<'a>>) -> Seq<
    &'a UserAttribute<'a>,
> {
    Seq::new(
        attributes.len(),
        |i: int| declared_attribute(*attributes[attributes.len() - 1 - i]),
    )
}

impl<
    'a,
    'text,
    S: SourceTextAllocator<'text, 'a>,
    H: Fn(Query<'a, 'text>) -> Answer<'a, 'text>,
> DirectDeclSmartConstructors<'a, 'text, S, H> {
    pub open spec fn spec_record(
        &self,
        attribute_spec: Node<'a>,
        modifier: Node<'a>,
        record_keyword: Node<'a>,
        name: Id<'a>,
        extends_opt: Node<'a>,
        fields: Node<'a>,
        right_brace: Node<'a>,
    ) -> &'a RecordDefType<'a> {
        &RecordDefType {
            module: None,
            name: name.pos_id(),
            extends: match self.spec_expect_name(extends_opt) {
                Some(id) => Some(self.spec_elaborate_id(id).pos_id()),
                None => None,
            },
            fields: Items::of(record_fields(fields.elements())),
            abstract_: modifier.spec_is_token(TokenKind::Abstract),
            pos: &self.spec_pos_of(seq![attribute_spec, modifier, record_keyword, right_brace]),
        }
    }

    pub fn make_record_declaration(
        &mut self,
        attribute_spec: Node<'a>,
        modifier: Node<'a>,
        record_keyword: Node<'a>,
        name: Node<'a>,
        _extends_keyword: Node<'a>,
        extends_opt: Node<'a>,
        _left_brace: Node<'a>,
        fields: Node<'a>,
        right_brace: Node<'a>,
    ) -> (r: Node<'a>)
        requires
            old(self).wf(),
        ensures
            final(self).wf(),
            r == Node::<'a>::Ignored(SyntaxKind::RecordDeclaration),
            final(self).decls@ == (match old(self).spec_elaborate_defined_id(name) {
                Some(id) => old(self).decls@.push(
                    (
                        id.1,
                        Decl::Record(
                            old(self).spec_record(
                                attribute_spec,
                                modifier,
                                record_keyword,
                                id,
                                extends_opt,
                                fields,
                                right_brace,
                            ),
                        ),
                    ),
                ),
                None => old(self).decls@,
            }),
            old(self).decls@.is_prefix_of(final(self).decls@),
            *final(self) == (DirectDeclSmartConstructors {
                decls: final(self).decls,
                ..*old(self)
            }),
    {
        let name = match self.elaborate_defined_id(name) {
            Some(name) => name,
            None => return Node::Ignored(SyntaxKind::RecordDeclaration),
        };
        let extends = match self.expect_name(extends_opt) {
            Some(id) => Some(self.elaborate_id(id).to_pos_id()),
            None => None,
        };
        let read = read_record_fields(fields);
        let around: [Node<'a>; 4] = [attribute_spec, modifier, record_keyword, right_brace];
        let parts: &[Node<'a>] = &around;
        assert(parts@ =~= seq![attribute_spec, modifier, record_keyword, right_brace]);
        let record = self.allocate(
            RecordDefType {
                module: None,
                name: name.to_pos_id(),
                extends,
                fields: Items::copied(self.arena, read.as_slice()),
                abstract_: modifier.is_token(TokenKind::Abstract),
                pos: self.pos_from_slice(parts),
            },
        );
        self.add_record(name.1, record);
        Node::Ignored(SyntaxKind::RecordDeclaration)
    }

    pub open spec fn spec_make_record_field(&self, name: Node<'a>, initializer: Node<'a>) -> Node<
        'a,
    > {
        match self.spec_expect_name(name) {
            Some(id) => Node::RecordField(
                &(
                    id,
                    if initializer is Ignored {
                        RecordFieldReq::ValueRequired
                    } else {
                        RecordFieldReq::HasDefaultValue
                    },
                ),
            ),
            None => Node::Ignored(SyntaxKind::RecordField),
        }
    }

    pub fn make_record_field(
        &self,
        _type_: Node<'a>,
        name: Node<'a>,
        initializer: Node<'a>,
        _semicolon: Node<'a>,
    ) -> (r: Node<'a>)
        requires
            self.wf(),
        ensures
            r == self.spec_make_record_field(name, initializer),
    {
        let name = match self.expect_name(name) {
            Some(name) => name,
            None => return Node::Ignored(SyntaxKind::RecordField),
        };
        let field_req = if initializer.is_ignored() {
            RecordFieldReq::ValueRequired
        } else {
            RecordFieldReq::HasDefaultValue
        };
        Node::RecordField(self.allocate((name, field_req)))
    }

    /// A type alias under its name, where it has a name and a type.
    pub open spec fn spec_alias(
        &self,
        attributes: Node<'a>,
        keyword: Node<'a>,
        name: Node<'a>,
        generic_params: Node<'a>,
        constraint: Node<'a>,
        aliased_type: Node<'a>,
    ) -> Option<(&'a [u8], &'a TypedefType<'a>)> {
        match (self.spec_elaborate_defined_id(name), self.spec_node_to_ty(aliased_type)) {
            (Some(id), Some(ty)) => Some(
                (
                    id.1,
                    &TypedefType {
                        module: attributes_in(attributes).module,
                        pos: id.0,
                        vis: if attributes_in(attributes).internal {
                            TypedefVisibility::Tinternal
                        } else if keyword.spec_is_token(TokenKind::Newtype) {
                            TypedefVisibility::Opaque
                        } else {
                            TypedefVisibility::Transparent
                        },
                        tparams: tparams_of(generic_params),
                        constraint: match constraint {
                            Node::TypeConstraint(of) => self.spec_node_to_ty(of.1),
                            _ => None,
                        },
                        type_: ty,
                        is_ctx: false,
                    },
                ),
            ),
            _ => None,
        }
    }

    pub fn make_alias_declaration(
        &mut self,
        attributes: Node<'a>,
        keyword: Node<'a>,
        name: Node<'a>,
        generic_params: Node<'a>,
        constraint: Node<'a>,
        _equal: Node<'a>,
        aliased_type: Node<'a>,
        _semicolon: Node<'a>,
    ) -> (r: Node<'a>)
        requires
            old(self).wf(),
            old(self).spec_alias(
                attributes,
                keyword,
                name,
                generic_params,
                constraint,
                aliased_type,
            ) is Some ==> old(self).can_pop(generic_params),
        ensures
            final(self).wf(),
            r == Node::<'a>::Ignored(SyntaxKind::AliasDeclaration),
            match old(self).spec_alias(
                attributes,
                keyword,
                name,
                generic_params,
                constraint,
                aliased_type,
            ) {
                Some(alias) => final(self).decls@ == old(self).decls@.push(
                    (alias.0, Decl::Typedef(alias.1)),
                ) && final(self).type_parameters@ == popped(
                    old(self).type_parameters@,
                    generic_params,
                ),
                None => *final(self) == *old(self),
            },
            old(self).decls@.is_prefix_of(final(self).decls@),
            *final(self) == (DirectDeclSmartConstructors {
                decls: final(self).decls,
                type_parameters: final(self).type_parameters,
                ..*old(self)
            }),
    {
        if name.is_ignored() {
            return Node::Ignored(SyntaxKind::AliasDeclaration);
        }
        let Id(pos, name) = match self.elaborate_defined_id(name) {
            Some(id) => id,
            None => return Node::Ignored(SyntaxKind::AliasDeclaration),
        };
        let ty = match self.node_to_ty(aliased_type) {
            Some(ty) => ty,
            None => return Node::Ignored(SyntaxKind::AliasDeclaration),
        };
        let constraint = match constraint {
            Node::TypeConstraint(of) => self.node_to_ty(of.1),
            _ => None,
        };
        // The type parameters go out of scope only now that all types inside
        // have been made.
        let tparams = self.pop_type_params(generic_params);
        let parsed_attributes = self.to_attributes(attributes);
        let typedef = self.allocate(
            TypedefType {
                module: parsed_attributes.module,
                pos,
                vis: if parsed_attributes.internal {
                    TypedefVisibility::Tinternal
                } else if keyword.is_token(TokenKind::Newtype) {
                    TypedefVisibility::Opaque
                } else {
                    TypedefVisibility::Transparent
                },
                tparams,
                constraint,
                type_: ty,
                is_ctx: false,
            },
        );
        self.add_typedef(name, typedef);
        Node::Ignored(SyntaxKind::AliasDeclaration)
    }

    /// The type behind the last constraint of the given kind on a context.
    pub open spec fn spec_context_bound(
        &self,
        nodes: Seq<Node<'a>>,
        kind: ConstraintKind,
    ) -> Option<&'a Ty<'a>>
        decreases nodes.len(),
    {
        if nodes.len() == 0 {
            None
        } else {
            match nodes.last() {
                Node::ContextConstraint(of) => if of.0 == kind {
                    self.spec_node_to_ty(of.1)
                } else {
                    self.spec_context_bound(nodes.drop_last(), kind)
                },
                _ => self.spec_context_bound(nodes.drop_last(), kind),
            }
        }
    }

    pub fn context_bound(&self, list: Node<'a>, kind: ConstraintKind) -> (r: Option<&'a Ty<'a>>)
        requires
            self.wf(),
        ensures
            r == self.spec_context_bound(list.elements(), kind),
    {
        let mut bound: Option<&'a Ty<'a>> = None;
        let len = list.len();
        let ghost nodes = list.elements();
        let mut i: usize = 0;
        assert(nodes.take(0) =~= Seq::<Node<'a>>::empty());
        while i < len
            invariant
                self.wf(),
                nodes == list.elements(),
                len == nodes.len(),
                i <= len,
                bound == self.spec_context_bound(nodes.take(i as int), kind),
            decreases len - i,
        {
            assert(nodes.take(i + 1).drop_last() =~= nodes.take(i as int));
            if let Node::ContextConstraint(of) = list.nth(i) {
                if of.0 == kind {
                    bound = self.node_to_ty(of.1);
                }
            }
            i = i + 1;
        }
        assert(nodes.take(i as int) =~= nodes);
        bound
    }

    /// A context alias under its name, where it has one.
    pub open spec fn spec_context_alias(
        &self,
        attributes: Node<'a>,
        name: Node<'a>,
        generic_params: Node<'a>,
        constraint: Node<'a>,
        ctx_list: Node<'a>,
    ) -> Option<(&'a [u8], &'a TypedefType<'a>)> {
        match self.spec_elaborate_defined_id(name) {
            None => None,
            Some(id) => Some(
                (
                    id.1,
                    &TypedefType {
                        module: attributes_in(attributes).module,
                        pos: id.0,
                        vis: if attributes_in(attributes).internal {
                            TypedefVisibility::Tinternal
                        } else {
                            TypedefVisibility::Opaque
                        },
                        tparams: tparams_of(generic_params),
                        constraint: self.spec_context_bound(
                            constraint.elements(),
                            ConstraintKind::ConstraintAs,
                        ),
                        type_: match self.spec_node_to_ty(ctx_list) {
                            Some(ty) => ty,
                            None => &hinted(
                                id.0,
                                plain_apply((id.0, lit("\\HH\\Contexts\\defaults"))),
                            ),
                        },
                        is_ctx: true,
                    },
                ),
            ),
        }
    }

    pub fn make_context_alias_declaration(
        &mut self,
        attributes: Node<'a>,
        _keyword: Node<'a>,
        name: Node<'a>,
        generic_params: Node<'a>,
        constraint: Node<'a>,
        _equal: Node<'a>,
        ctx_list: Node<'a>,
        _semicolon: Node<'a>,
    ) -> (r: Node<'a>)
        requires
            old(self).wf(),
            old(self).spec_elaborate_defined_id(name) is Some ==> old(self).can_pop(
                generic_params,
            ),
        ensures
            final(self).wf(),
            r == Node::<'a>::Ignored(SyntaxKind::ContextAliasDeclaration),
            match old(self).spec_context_alias(
                attributes,
                name,
                generic_params,
                constraint,
                ctx_list,
            ) {
                Some(alias) => final(self).decls@ == old(self).decls@.push(
                    (alias.0, Decl::Typedef(alias.1)),
                ) && final(self).type_parameters@ == popped(
                    old(self).type_parameters@,
                    generic_params,
                ),
                None => *final(self) == *old(self),
            },
            old(self).decls@.is_prefix_of(final(self).decls@),
            *final(self) == (DirectDeclSmartConstructors {
                decls: final(self).decls,
                type_parameters: final(self).type_parameters,
                ..*old(self)
            }),
    {
        if name.is_ignored() {
            return Node::Ignored(SyntaxKind::ContextAliasDeclaration);
        }
        let Id(pos, name) = match self.elaborate_defined_id(name) {
            Some(id) => id,
            None => return Node::Ignored(SyntaxKind::ContextAliasDeclaration),
        };
        let ty = match self.node_to_ty(ctx_list) {
            Some(ty) => ty,
            None => self.hint(pos, self.apply_plain((pos, literal("\\HH\\Contexts\\defaults")))),
        };
        let as_constraint = self.context_bound(constraint, ConstraintKind::ConstraintAs);
        // The type parameters go out of scope only now that all types inside
        // have been made.
        let tparams = self.pop_type_params(generic_params);
        let parsed_attributes = self.to_attributes(attributes);
        let typedef = self.allocate(
            TypedefType {
                module: parsed_attributes.module,
                pos,
                vis: if parsed_attributes.internal {
                    TypedefVisibility::Tinternal
                } else {
                    TypedefVisibility::Opaque
                },
                tparams,
                constraint: as_constraint,
                type_: ty,
                is_ctx: true,
            },
        );
        self.add_typedef(name, typedef);
        Node::Ignored(SyntaxKind::ContextAliasDeclaration)
    }

    pub fn make_type_constraint(&self, kind: Node<'a>, value: Node<'a>) -> (r: Node<'a>)
        ensures
            r == type_constraint(kind, value),
    {
        let kind = match kind.token_kind() {
            Some(TokenKind::As) => ConstraintKind::ConstraintAs,
            Some(TokenKind::Super) => ConstraintKind::ConstraintSuper,
            _ => return Node::Ignored(SyntaxKind::TypeConstraint),
        };
        Node::TypeConstraint(self.allocate((kind, value)))
    }

    pub fn make_context_constraint(&self, kind: Node<'a>, value: Node<'a>) -> (r: Node<'a>)
        ensures
            r == context_constraint(kind, value),
    {
        let kind = match kind.token_kind() {
            Some(TokenKind::As) => ConstraintKind::ConstraintAs,
            Some(TokenKind::Super) => ConstraintKind::ConstraintSuper,
            _ => return Node::Ignored(SyntaxKind::ContextConstraint),
        };
        Node::ContextConstraint(self.allocate((kind, value)))
    }

    /// A type parameter. The type parameters of its own go out of scope at
    /// once.
    pub fn make_type_parameter(
        &mut self,
        user_attributes: Node<'a>,
        reify: Node<'a>,
        variance: Node<'a>,
        name: Node<'a>,
        tparam_params: Node<'a>,
        constraints: Node<'a>,
    ) -> (r: Node<'a>)
        requires
            old(self).wf(),
            old(self).can_pop(tparam_params),
        ensures
            final(self).wf(),
            r == Node::TypeParameter(
                &type_parameter(
                    user_attributes,
                    reify,
                    variance,
                    name,
                    tparam_params,
                    constraints,
                ),
            ),
            final(self).type_parameters@ == popped(old(self).type_parameters@, tparam_params),
            *final(self) == (DirectDeclSmartConstructors {
                type_parameters: final(self).type_parameters,
                ..*old(self)
            }),
    {
        let attributes = match user_attributes {
            Node::BracketedList(_) => read_attribute_list(user_attributes),
            _ => Vec::new(),
        };
        let constraints = read_type_constraints(constraints);
        let tparam_params = self.pop_type_params(tparam_params);
        let variance = match variance.token_kind() {
            Some(TokenKind::Minus) => Variance::Contravariant,
            Some(TokenKind::Plus) => Variance::Covariant,
            _ => Variance::Invariant,
        };
        let reified = if reify.is_token(TokenKind::Reify) {
            if find_attribute(&attributes, "__Soft") {
                ReifyKind::SoftReified
            } else {
                ReifyKind::Reified
            }
        } else {
            ReifyKind::Erased
        };
        Node::TypeParameter(
            self.allocate(
                TypeParameterDecl {
                    name,
                    reified,
                    variance,
                    constraints: Items::copied(self.arena, constraints.as_slice()),
                    tparam_params,
                    user_attributes: Items::copied(self.arena, attributes.as_slice()),
                },
            ),
        )
    }

    /// The constraints of a type parameter whose types can be read.
    pub open spec fn spec_constraints(&self, constraints: Seq<(ConstraintKind, Node<'a>)>) -> Seq<
        (ConstraintKind, &'a Ty<'a>),
    >
        decreases constraints.len(),
    {
        if constraints.len() == 0 {
            Seq::<(ConstraintKind, &'a Ty<'a>)>::empty()
        } else {
            let before = self.spec_constraints(constraints.drop_last());
            match self.spec_node_to_ty(constraints.last().1) {
                Some(ty) => before.push((constraints.last().0, self.spec_generic(ty))),
                None => before,
            }
        }
    }

    fn constraints(&self, constraints: Items<'a, (ConstraintKind, Node<'a>)>) -> (r: Items<
        'a,
        (ConstraintKind, &'a Ty<'a>),
    >)
        requires
            self.wf(),
        ensures
            r == Items::of(self.spec_constraints(constraints@)),
    {
        let mut read: Vec<(ConstraintKind, &'a Ty<'a>)> = Vec::new();
        let mut i: usize = 0;
        assert(constraints@.take(0) =~= Seq::<(ConstraintKind, Node<'a>)>::empty());
        while i < constraints.len()
            invariant
                self.wf(),
                i <= constraints@.len(),
                read@ == self.spec_constraints(constraints@.take(i as int)),
            decreases constraints@.len() - i,
        {
            assert(constraints@.take(i + 1).drop_last() =~= constraints@.take(i as int));
            let constraint = constraints.at(i);
            if let Some(ty) = self.node_to_ty(constraint.1) {
                read.push((constraint.0, self.convert_tapply_to_tgeneric(ty)));
            }
            i = i + 1;
        }
        assert(constraints@.take(i as int) =~= constraints@);
        Items::copied(self.arena, read.as_slice())
    }

    pub fn attributes_to_decls(&self, attributes: &[&'a UserAttributeNode<'a>]) -> (r: Items<
        'a,
        &'a UserAttribute<'a>,
    >)
        ensures
            r == Items::of(attributes_reversed(attributes@)),
    {
        let mut read: Vec<&'a UserAttribute<'a>> = Vec::new();
        let len = attributes.len();
        let mut i: usize = 0;
        while i < len
            invariant
                len == attributes@.len(),
                i <= len,
                read@ == attributes_reversed(attributes@).take(i as int),
            decreases len - i,
        {
            read.push(self.user_attribute_to_decl(attributes[len - 1 - i]));
            assert(read@ =~= attributes_reversed(attributes@).take(i + 1));
            i = i + 1;
        }
        assert(read@ =~= attributes_reversed(attributes@));
        Items::copied(self.arena, read.as_slice())
    }

    /// A type parameter as a declaration keeps it.
    pub open spec fn spec_tparam(&self, decl: TypeParameterDecl<'a>, name: Id<'a>) -> &'a Tparam<
        'a,
    > {
        &Tparam {
            variance: decl.variance,
            name: name.pos_id(),
            tparams: slice_of(decl.tparam_params@),
            constraints: Items::of(self.spec_constraints(decl.constraints@)),
            reified: decl.reified,
            user_attributes: Items::of(attributes_reversed(decl.user_attributes@)),
        }
    }

    pub open spec fn spec_tparams(
        &self,
        tparams: Seq<(&'a TypeParameterDecl<'a>, Id<'a>)>,
    ) -> Seq<&'a Tparam<'a>> {
        Seq::new(tparams.len(), |i: int| self.spec_tparam(*tparams[i].0, tparams[i].1))
    }

    fn tparams(&self, named: &Vec<(&'a TypeParameterDecl<'a>, Id<'a>)>) -> (r: Items<
        'a,
        &'a Tparam<'a>,
    >)
        requires
            self.wf(),
        ensures
            r == Items::of(self.spec_tparams(named@)),
    {
        let mut tparams: Vec<&'a Tparam<'a>> = Vec::new();
        let mut i: usize = 0;
        while i < named.len()
            invariant
                self.wf(),
                i <= named@.len(),
                tparams@ == self.spec_tparams(named@).take(i as int),
            decreases named@.len() - i,
        {
            let (decl, name) = named[i];
            let tparam = self.allocate(
                Tparam {
                    variance: decl.variance,
                    name: name.to_pos_id(),
                    tparams: decl.tparam_params.as_slice(),
                    constraints: self.constraints(decl.constraints),
                    reified: decl.reified,
                    user_attributes: self.attributes_to_decls(decl.user_attributes.as_slice()),
                },
            );
            assert(slice_of(tparam.tparams@) == tparam.tparams);
            tparams.push(tparam);
            assert(tparams@ =~= self.spec_tparams(named@).take(i + 1));
            i = i + 1;
        }
        assert(tparams@ =~= self.spec_tparams(named@));
        Items::copied(self.arena, tparams.as_slice())
    }

    /// Whether this is the state after type parameters have been read as the
    /// given node: all of them are in scope, also in their own constraints.
    pub open spec fn has_read_type_parameters(
        &self,
        before: &Self,
        tparams: Node<'a>,
        node: Node<'a>,
    ) -> bool {
        match named_tparams(tparams.elements()) {
            Some(named) => node == Node::TypeParameters(&Items::of(self.spec_tparams(named)))
                && self.type_parameters@ == before.type_parameters@.push(
                Items::of(tparam_names(named)),
            ),
            None => node == Node::<'a>::Ignored(SyntaxKind::TypeParameters) && *self == *before,
        }
    }

    /// The type parameters of a declaration. They are in scope from here on,
    /// and their constraints are read with all of them in scope.
    pub fn make_type_parameters(
        &mut self,
        _lt: Node<'a>,
        tparams: Node<'a>,
        _gt: Node<'a>,
    ) -> (r: Node<'a>)
        requires
            old(self).wf(),
        ensures
            final(self).wf(),
            final(self).has_read_type_parameters(old(self), tparams, r),
            *final(self) == (DirectDeclSmartConstructors {
                type_parameters: final(self).type_parameters,
                ..*old(self)
            }),
    {
        let named = match read_named_tparams(tparams) {
            Some(named) => named,
            None => return Node::Ignored(SyntaxKind::TypeParameters),
        };
        let mut names: Vec<&'a [u8]> = Vec::new();
        let mut i: usize = 0;
        while i < named.len()
            invariant
                i <= named@.len(),
                names@ == tparam_names(named@).take(i as int),
            decreases named@.len() - i,
        {
            names.push(named[i].1.1);
            assert(names@ =~= tparam_names(named@).take(i + 1));
            i = i + 1;
        }
        assert(names@ =~= tparam_names(named@));
        self.type_parameters.push(Items::copied(self.arena, names.as_slice()));
        Node::TypeParameters(self.allocate(self.tparams(&named)))
    }

    pub fn make_where_clause(&self, _keyword: Node<'a>, where_constraints: Node<'a>) -> (r: Node<
        'a,
    >)
        ensures
            r == where_constraints,
    {
        where_constraints
    }

    pub open spec fn spec_make_where_constraint(
        &self,
        left_type: Node<'a>,
        operator: Node<'a>,
        right_type: Node<'a>,
    ) -> Node<'a> {
        Node::WhereConstraint(
            &WhereConstraint(
                self.spec_ty_or_tany(left_type),
                match operator.spec_token_kind() {
                    Some(TokenKind::Equal) => ConstraintKind::ConstraintEq,
                    Some(TokenKind::Super) => ConstraintKind::ConstraintSuper,
                    _ => ConstraintKind::ConstraintAs,
                },
                self.spec_ty_or_tany(right_type),
            ),
        )
    }

    pub fn make_where_constraint(
        &self,
        left_type: Node<'a>,
        operator: Node<'a>,
        right_type: Node<'a>,
    ) -> (r: Node<'a>)
        requires
            self.wf(),
        ensures
            r == self.spec_make_where_constraint(left_type, operator, right_type),
    {
        let kind = match operator.token_kind() {
            Some(TokenKind::Equal) => ConstraintKind::ConstraintEq,
            Some(TokenKind::Super) => ConstraintKind::ConstraintSuper,
            _ => ConstraintKind::ConstraintAs,
        };
        let left = self.ty_or_tany(left_type);
        let right = self.ty_or_tany(right_type);
        Node::WhereConstraint(self.allocate(WhereConstraint(left, kind, right)))
    }

    /// The type of a constant: that of its hint, else what its value shows.
    pub open spec fn spec_const_ty(
        &self,
        hint: Node<'a>,
        name: Node<'a>,
        initializer: Node<'a>,
    ) -> Option<&'a Ty<'a>> {
        match self.spec_node_to_ty(hint) {
            Some(ty) => Some(ty),
            None => self.spec_infer_const(name, initializer),
        }
    }

    fn const_ty(
        &self,
        hint: Node<'a>,
        name: Node<'a>,
        initializer: Node<'a>,
    ) -> (r: Option<&'a Ty<'a>>)
        requires
            self.wf(),
        ensures
            r == self.spec_const_ty(hint, name, initializer),
    {
        match self.node_to_ty(hint) {
            Some(ty) => Some(ty),
            None => self.infer_const(name, initializer),
        }
    }

    /// The class constants of a declaration.
    pub open spec fn spec_class_consts(
        &self,
        modifiers: Node<'a>,
        hint: Node<'a>,
        consts: Seq<Node<'a>>,
    ) -> Seq<Node<'a>>
        decreases consts.len(),
    {
        if consts.len() == 0 {
            Seq::<Node<'a>>::empty()
        } else {
            let before = self.spec_class_consts(modifiers, hint, consts.drop_last());
            match consts.last() {
                Node::ConstInitializer(of) => match of.0.spec_as_id() {
                    Some(id) => before.push(
                        Node::Const(
                            &ShallowClassConst {
                                abstract_: if member_modifiers(modifiers.elements()).is_abstract {
                                    ClassConstKind::CCAbstract(!(of.1 is Ignored))
                                } else {
                                    ClassConstKind::CCConcrete
                                },
                                name: id.pos_id(),
                                type_: match self.spec_const_ty(hint, of.0, of.1) {
                                    Some(ty) => ty,
                                    None => &Ty(&Reason::Rnone, Ty_::Tany),
                                },
                                refs: of.2,
                            },
                        ),
                    ),
                    None => before,
                },
                _ => before,
            }
        }
    }

    fn class_consts(
        &self,
        modifiers: Node<'a>,
        hint: Node<'a>,
        consts: Items<'a, Node<'a>>,
    ) -> (r: Items<'a, Node<'a>>)
        requires
            self.wf(),
        ensures
            r == Items::of(self.spec_class_consts(modifiers, hint, consts@)),
    {
        let modifiers_read = read_member_modifiers(modifiers);
        let mut read: Vec<Node<'a>> = Vec::new();
        let mut i: usize = 0;
        assert(consts@.take(0) =~= Seq::<Node<'a>>::empty());
        while i < consts.len()
            invariant
                self.wf(),
                modifiers_read == member_modifiers(modifiers.elements()),
                i <= consts@.len(),
                read@ == self.spec_class_consts(modifiers, hint, consts@.take(i as int)),
            decreases consts@.len() - i,
        {
            assert(consts@.take(i + 1).drop_last() =~= consts@.take(i as int));
            if let Node::ConstInitializer(of) = *consts.at(i) {
                if let Some(id) = of.0.as_id() {
                    let abstract_ = if modifiers_read.is_abstract {
                        ClassConstKind::CCAbstract(!of.1.is_ignored())
                    } else {
                        ClassConstKind::CCConcrete
                    };
                    let type_ = match self.const_ty(hint, of.0, of.1) {
                        Some(ty) => ty,
                        None => tany(),
                    };
                    read.push(
                        Node::Const(
                            self.allocate(
                                ShallowClassConst {
                                    abstract_,
                                    name: id.to_pos_id(),
                                    type_,
                                    refs: of.2,
                                },
                            ),
                        ),
                    );
                }
            }
            i = i + 1;
        }
        assert(consts@.take(i as int) =~= consts@);
        Items::copied(self.arena, read.as_slice())
    }

    /// The constants that a declaration outside classes declares. All of them
    /// have the position of the whole declaration.
    pub open spec fn spec_global_consts(
        &self,
        pos: &'a Pos<'a>,
        hint: Node<'a>,
        consts: Seq<Node<'a>>,
    ) -> Seq<(&'a [u8], Decl<'a>)>
        decreases consts.len(),
    {
        if consts.len() == 0 {
            Seq::<(&'a [u8], Decl<'a>)>::empty()
        } else {
            let before = self.spec_global_consts(pos, hint, consts.drop_last());
            match consts.last() {
                Node::ConstInitializer(of) => match self.spec_elaborate_defined_id(of.0) {
                    Some(id) => before.push(
                        (
                            id.1,
                            Decl::Const(
                                &ConstDecl {
                                    pos,
                                    type_: match self.spec_const_ty(hint, of.0, of.1) {
                                        Some(ty) => ty,
                                        None => &witnessed(id.0, Ty_::Tany),
                                    },
                                },
                            ),
                        ),
                    ),
                    None => before,
                },
                _ => before,
            }
        }
    }

    fn global_consts(
        &self,
        pos: &'a Pos<'a>,
        hint: Node<'a>,
        consts: Items<'a, Node<'a>>,
    ) -> (r: Vec<(&'a [u8], &'a ConstDecl<'a>)>)
        requires
            self.wf(),
        ensures
            r@.map_values(|of: (&'a [u8], &'a ConstDecl<'a>)| (of.0, Decl::Const(of.1)))
                == self.spec_global_consts(pos, hint, consts@),
    {
        let ghost as_decl = |of: (&'a [u8], &'a ConstDecl<'a>)| (of.0, Decl::Const(of.1));
        let mut read: Vec<(&'a [u8], &'a ConstDecl<'a>)> = Vec::new();
        let mut i: usize = 0;
        assert(consts@.take(0) =~= Seq::<Node<'a>>::empty());
        assert(read@.map_values(as_decl) =~= Seq::<(&'a [u8], Decl<'a>)>::empty());
        while i < consts.len()
            invariant
                self.wf(),
                as_decl == (|of: (&'a [u8], &'a ConstDecl<'a>)| (of.0, Decl::Const(of.1))),
                i <= consts@.len(),
                read@.map_values(as_decl) == self.spec_global_consts(
                    pos,
                    hint,
                    consts@.take(i as int),
                ),
            decreases consts@.len() - i,
        {
            assert(consts@.take(i + 1).drop_last() =~= consts@.take(i as int));
            if let Node::ConstInitializer(of) = *consts.at(i) {
                if let Some(Id(id_pos, id)) = self.elaborate_defined_id(of.0) {
                    let type_ = match self.const_ty(hint, of.0, of.1) {
                        Some(ty) => ty,
                        None => self.tany_with_pos(id_pos),
                    };
                    let ghost before = read@;
                    let decl = self.allocate(ConstDecl { pos, type_ });
                    read.push((id, decl));
                    assert(read@.map_values(as_decl) =~= before.map_values(as_decl).push(
                        (id, Decl::Const(decl)),
                    ));
                }
            }
            i = i + 1;
        }
        assert(consts@.take(i as int) =~= consts@);
        read
    }

    /// What a constant declaration is read as. Inside a class that is the list
    /// of its constants.
    pub open spec fn spec_make_const_declaration(
        &self,
        modifiers: Node<'a>,
        hint: Node<'a>,
        decls: Node<'a>,
    ) -> Node<'a> {
        match decls {
            Node::List(consts) => if self.classish_name_builder.current() is Some {
                Node::List(&Items::of(self.spec_class_consts(modifiers, hint, consts@)))
            } else {
                Node::Ignored(SyntaxKind::ConstDeclaration)
            },
            _ => Node::Ignored(SyntaxKind::ConstDeclaration),
        }
    }

    /// The declarations that a constant declaration adds. Inside a class there
    /// are none.
    pub open spec fn spec_consts_added(
        &self,
        const_keyword: Node<'a>,
        hint: Node<'a>,
        decls: Node<'a>,
        semicolon: Node<'a>,
    ) -> Seq<(&'a [u8], Decl<'a>)> {
        match decls {
            Node::List(consts) => if self.classish_name_builder.current() is Some {
                Seq::<(&'a [u8], Decl<'a>)>::empty()
            } else {
                self.spec_global_consts(
                    &self.spec_merge_positions(const_keyword, semicolon),
                    hint,
                    consts@,
                )
            },
            _ => Seq::<(&'a [u8], Decl<'a>)>::empty(),
        }
    }

    pub fn make_const_declaration(
        &mut self,
        modifiers: Node<'a>,
        const_keyword: Node<'a>,
        hint: Node<'a>,
        decls: Node<'a>,
        semicolon: Node<'a>,
    ) -> (r: Node<'a>)
        requires
            old(self).wf(),
        ensures
            final(self).wf(),
            r == old(self).spec_make_const_declaration(modifiers, hint, decls),
            final(self).decls@ == old(self).decls@ + old(self).spec_consts_added(
                const_keyword,
                hint,
                decls,
                semicolon,
            ),
            old(self).decls@.is_prefix_of(final(self).decls@),
            *final(self) == (DirectDeclSmartConstructors {
                decls: final(self).decls,
                ..*old(self)
            }),
    {
        let consts = match decls {
            Node::List(consts) => *consts,
            _ => return Node::Ignored(SyntaxKind::ConstDeclaration),
        };
        if self.classish_name_builder.get_current_classish_name().is_some() {
            return Node::List(self.allocate(self.class_consts(modifiers, hint, consts)));
        }
        let pos = self.merge_positions(const_keyword, semicolon);
        let read = self.global_consts(pos, hint, consts);
        let ghost as_decl = |of: (&'a [u8], &'a ConstDecl<'a>)| (of.0, Decl::Const(of.1));
        let mut i: usize = 0;
        assert(self.decls@ =~= old(self).decls@ + read@.map_values(as_decl).take(0));
        while i < read.len()
            invariant
                as_decl == (|of: (&'a [u8], &'a ConstDecl<'a>)| (of.0, Decl::Const(of.1))),
                i <= read@.len(),
                self.wf(),
                self.decls@ == old(self).decls@ + read@.map_values(as_decl).take(i as int),
                *self == (DirectDeclSmartConstructors { decls: self.decls, ..*old(self) }),
            decreases read@.len() - i,
        {
            self.add_const(read[i].0, read[i].1);
            assert(self.decls@ =~= old(self).decls@ + read@.map_values(as_decl).take(i + 1));
            i = i + 1;
        }
        assert(read@.map_values(as_decl).take(i as int) =~= read@.map_values(as_decl));
        Node::Ignored(SyntaxKind::ConstDeclaration)
    }

    pub fn begin_constant_declarator(&mut self)
        requires
            old(self).wf(),
        ensures
            final(self).wf(),
            *final(self) == (DirectDeclSmartConstructors {
                const_refs: Some(Items::of(Seq::<ClassConstRef<'a>>::empty())),
                ..*old(self)
            }),
    {
        self.start_accumulating_const_refs();
    }

    /// The references that have been collected; none where nothing was.
    pub open spec fn spec_refs(&self) -> Items<'a, ClassConstRef<'a>> {
        match self.const_refs {
            Some(refs) => refs,
            None => Items::of(Seq::<ClassConstRef<'a>>::empty()),
        }
    }

    /// The `X = 1` of a constant, inside or outside a class. Its type, if it
    /// is given one, is known only to the declaration around it.
    pub fn make_constant_declarator(
        &mut self,
        name: Node<'a>,
        initializer: Node<'a>,
    ) -> (r: Node<'a>)
        requires
            old(self).wf(),
        ensures
            final(self).wf(),
            r == constant_declarator(name, initializer, old(self).spec_refs()),
            *final(self) == (DirectDeclSmartConstructors { const_refs: None, ..*old(self) }),
    {
        let refs = self.stop_accumulating_const_refs();
        if name.is_ignored() {
            Node::Ignored(SyntaxKind::ConstantDeclarator)
        } else {
            Node::ConstInitializer(self.allocate((name, initializer, refs)))
        }
    }
}

/// Leaving the scope of type parameters undoes entering it.
pub proof fn law_type_parameters_go_out_of_scope<'a>(
    scopes: Seq<Items<'a, &'a [u8]>>,
    names: Items<'a, &'a [u8]>,
    tparams: &'a Items<'a, &'a Tparam<'a>>,
)
    ensures
        popped(scopes.push(names), Node::TypeParameters(tparams)) == scopes,
{
    assert(scopes.push(names).drop_last() =~= scopes);
}

impl<
    'a,
    'text,
    S: SourceTextAllocator<'text, 'a>,
    H: Fn(Query<'a, 'text>) -> Answer<'a, 'text>,
> DirectDeclSmartConstructors<'a, 'text, S, H> {
    /// The constants of one declaration all have its position.
    pub proof fn law_constants_share_a_position(
        &self,
        pos: &'a Pos<'a>,
        hint: Node<'a>,
        consts: Seq<Node<'a>>,
    )
        ensures
            forall|i: int|
                0 <= i < self.spec_global_consts(pos, hint, consts).len() ==> ((
                #[trigger] self.spec_global_consts(pos, hint, consts)[i]).1 matches Decl::Const(
                    decl,
                ) && decl.pos == pos),
        decreases consts.len(),
    {
        if consts.len() > 0 {
            self.law_constants_share_a_position(pos, hint, consts.drop_last());
        }
    }
}

/// `as` begins an upper bound and `super` a lower one; no other token begins a
/// constraint.
pub proof fn law_constraint_keywords(kind: Option<TokenKind>)
    ensures
        constraint_keyword(kind) == Some(ConstraintKind::ConstraintAs) <==> kind == Some(
            TokenKind::As,
        ),
        constraint_keyword(kind) == Some(ConstraintKind::ConstraintSuper) <==> kind == Some(
            TokenKind::Super,
        ),
        constraint_keyword(kind) is Some <==> kind == Some(TokenKind::As) || kind == Some(
            TokenKind::Super,
        ),
{
}

/// A constraint of a type and one of a context keep what stands behind `as` or
/// `super`, each in the form of its own. Without these there is no constraint.
pub proof fn law_constraints_as_written<'a>(kind: Node<'a>, value: Node<'a>)
    ensures
        ({
            let bounds = kind.spec_token_kind() == Some(TokenKind::As) || kind.spec_token_kind()
                == Some(TokenKind::Super);
            &&& type_constraint(kind, value) is TypeConstraint <==> bounds
            &&& !bounds ==> type_constraint(kind, value) is Ignored
            &&& type_constraint(kind, value) matches Node::TypeConstraint(of) ==> of.1 == value && (
            of.0 == ConstraintKind::ConstraintAs <==> kind.spec_token_kind() == Some(TokenKind::As))
                && (of.0 == ConstraintKind::ConstraintSuper <==> kind.spec_token_kind() == Some(
                TokenKind::Super,
            ))
            &&& context_constraint(kind, value) is ContextConstraint <==> bounds
            &&& !bounds ==> context_constraint(kind, value) is Ignored
            &&& context_constraint(kind, value) matches Node::ContextConstraint(of) ==> of.1
                == value && (of.0 == ConstraintKind::ConstraintAs <==> kind.spec_token_kind()
                == Some(TokenKind::As)) && (of.0 == ConstraintKind::ConstraintSuper
                <==> kind.spec_token_kind() == Some(TokenKind::Super))
        }),
{
}

/// A type parameter with `+` is covariant, one with `-` contravariant, and any
/// other invariant. It is reified exactly where `reify` is written, softly so
/// with the attribute `__Soft`.
pub proof fn law_type_parameter_as_written<'a>(
    user_attributes: Node<'a>,
    reify: Node<'a>,
    variance: Node<'a>,
    name: Node<'a>,
    tparam_params: Node<'a>,
    constraints: Node<'a>,
)
    ensures
        ({
            let read = type_parameter(
                user_attributes,
                reify,
                variance,
                name,
                tparam_params,
                constraints,
            );
            let reifies = reify.spec_token_kind() == Some(TokenKind::Reify);
            let is_soft = user_attributes is BracketedList && bears(
                user_attributes,
                "__Soft".spec_bytes(),
            );
            &&& read.name == name
            &&& read.variance == Variance::Covariant <==> variance.spec_token_kind() == Some(
                TokenKind::Plus,
            )
            &&& read.variance == Variance::Contravariant <==> variance.spec_token_kind() == Some(
                TokenKind::Minus,
            )
            &&& read.variance == Variance::Invariant <==> variance.spec_token_kind() != Some(
                TokenKind::Plus,
            ) && variance.spec_token_kind() != Some(TokenKind::Minus)
            &&& read.reified == ReifyKind::Erased <==> !reifies
            &&& read.reified == ReifyKind::SoftReified <==> reifies && is_soft
            &&& read.reified == ReifyKind::Reified <==> reifies && !is_soft
            &&& tparam_params matches Node::TypeParameters(of) ==> read.tparam_params@ == of@
            &&& !(tparam_params is TypeParameters) ==> read.tparam_params@.len() == 0
            &&& read.constraints@ == type_constraints(constraints.elements())
            &&& user_attributes matches Node::BracketedList(list) ==> read.user_attributes@
                == attribute_list(list.1@)
            &&& !(user_attributes is BracketedList) ==> read.user_attributes@.len() == 0
        }),
{
    if let Node::BracketedList(list) = user_attributes {
        lemma_soft(list.1@);
    }
}

proof fn lemma_soft<'a>(nodes: Seq<Node<'a>>)
    ensures
        has_attribute(attribute_list(nodes), "__Soft".spec_bytes()) == exists|i: int|
            0 <= i < nodes.len() && is_attribute(#[trigger] nodes[i], "__Soft".spec_bytes()),
    decreases nodes.len(),
{
    let name = "__Soft".spec_bytes();
    let all = attribute_list(nodes);
    if nodes.len() > 0 {
        let rest = nodes.drop_last();
        let before = attribute_list(rest);
        lemma_soft(rest);
        assert(forall|i: int| 0 <= i < before.len() ==> all[i] == before[i]);
        if has_attribute(before, name) {
            let i = choose|i: int| 0 <= i < before.len() && (#[trigger] before[i]).name.1@ == name;
            assert(all[i].name.1@ == name);
            let j = choose|j: int| 0 <= j < rest.len() && is_attribute(#[trigger] rest[j], name);
            assert(is_attribute(nodes[j], name));
        }
        if is_attribute(nodes.last(), name) {
            assert(is_attribute(nodes[nodes.len() - 1], name));
            assert(all[all.len() - 1].name.1@ == name);
        }
        if exists|i: int| 0 <= i < nodes.len() && is_attribute(#[trigger] nodes[i], name) {
            let i = choose|i: int| 0 <= i < nodes.len() && is_attribute(#[trigger] nodes[i], name);
            if i < rest.len() {
                assert(is_attribute(rest[i], name));
            }
        }
        if has_attribute(all, name) && !has_attribute(before, name) {
            let i = choose|i: int| 0 <= i < all.len() && (#[trigger] all[i]).name.1@ == name;
            if i < before.len() {
                assert(before[i].name.1@ == name);
            }
        }
    }
}

/// Fields, attributes and constraints are each taken from a list in their
/// order; what else stands in it is passed over.
pub proof fn law_lists_are_read_in_order<'a>(nodes: Seq<Node<'a>>, node: Node<'a>)
    ensures
        record_fields(Seq::<Node<'a>>::empty()).len() == 0,
        node matches Node::RecordField(field) ==> record_fields(nodes.push(node)) == record_fields(
            nodes,
        ).push(((field.0.0, field.0.1), field.1)),
        !(node is RecordField) ==> record_fields(nodes.push(node)) == record_fields(nodes),
        attribute_list(Seq::<Node<'a>>::empty()).len() == 0,
        node matches Node::Attribute(of) ==> attribute_list(nodes.push(node)) == attribute_list(
            nodes,
        ).push(of),
        !(node is Attribute) ==> attribute_list(nodes.push(node)) == attribute_list(nodes),
        type_constraints(Seq::<Node<'a>>::empty()).len() == 0,
        node matches Node::TypeConstraint(of) ==> type_constraints(nodes.push(node))
            == type_constraints(nodes).push(*of),
        !(node is TypeConstraint) ==> type_constraints(nodes.push(node)) == type_constraints(nodes),
        named_tparams(Seq::<Node<'a>>::empty()) matches Some(read) && read.len() == 0,
        !(node is TypeParameter) ==> named_tparams(nodes.push(node)) == named_tparams(nodes),
        node matches Node::TypeParameter(decl) ==> match (
            named_tparams(nodes),
            decl.name.spec_as_id(),
        ) {
            (Some(before), Some(id)) => named_tparams(nodes.push(node)) == Some(
                before.push((decl, id)),
            ),
            _ => named_tparams(nodes.push(node)) is None,
        },
{
    assert(nodes.push(node).drop_last() =~= nodes);
}

/// The names of type parameters that come into scope are those that are
/// written, in their order.
pub proof fn law_names_of_type_parameters<'a>(
    tparams: Seq<(&'a TypeParameterDecl<'a>, Id<'a>)>,
    i: int,
)
    requires
        0 <= i < tparams.len(),
    ensures
        tparam_names(tparams).len() == tparams.len(),
        tparam_names(tparams)[i] == tparams[i].1.1,
{
}

/// Declarations keep all attributes, the last one first.
pub proof fn law_attributes_are_reversed<'a>(
    attributes: Seq<&'a UserAttributeNode<'a>>,
    attribute: &'a UserAttributeNode<'a>,
)
    ensures
        attributes_reversed(attributes).len() == attributes.len(),
        attributes_reversed(attributes.push(attribute)) == seq![declared_attribute(*attribute)]
            + attributes_reversed(attributes),
{
    assert(attributes_reversed(attributes.push(attribute)) =~= seq![declared_attribute(*attribute)]
        + attributes_reversed(attributes));
}

/// A constant declarator with a name keeps its name, its value and the
/// references that were collected in it. Without a name it is nothing.
pub proof fn law_constant_declarator_keeps_its_parts<'a>(
    name: Node<'a>,
    initializer: Node<'a>,
    refs: Items<'a, ClassConstRef<'a>>,
)
    ensures
        name is Ignored ==> constant_declarator(name, initializer, refs) is Ignored,
        !(name is Ignored) ==> (constant_declarator(
            name,
            initializer,
            refs,
        ) matches Node::ConstInitializer(of) && of.0 == name && of.1 == initializer && of.2 == refs),
{
}

impl<
    'a,
    'text,
    S: SourceTextAllocator<'text, 'a>,
    H: Fn(Query<'a, 'text>) -> Answer<'a, 'text>,
> DirectDeclSmartConstructors<'a, 'text, S, H> {
    /// A record keeps its name, its parent and its fields, and is abstract
    /// exactly where that is written.
    pub proof fn law_record_as_written(
        &self,
        attribute_spec: Node<'a>,
        modifier: Node<'a>,
        record_keyword: Node<'a>,
        name: Id<'a>,
        extends_opt: Node<'a>,
        fields: Node<'a>,
        right_brace: Node<'a>,
    )
        ensures
            ({
                let record = self.spec_record(
                    attribute_spec,
                    modifier,
                    record_keyword,
                    name,
                    extends_opt,
                    fields,
                    right_brace,
                );
                &&& record.name.0 == name.0
                &&& record.name.1 == name.1
                &&& record.module is None
                &&& record.abstract_ <==> modifier.spec_token_kind() == Some(TokenKind::Abstract)
                &&& record.fields@ == record_fields(fields.elements())
                &&& record.extends is Some <==> self.spec_expect_name(extends_opt) is Some
                &&& self.spec_expect_name(extends_opt) matches Some(id) ==> {
                    let full = self.spec_elaborate_id(id);
                    record.extends == Some((full.0, full.1))
                }
                &&& record.pos == &self.spec_pos_of(
                    seq![attribute_spec, modifier, record_keyword, right_brace],
                )
            }),
    {
    }

    /// A field of a record has a default value exactly where an initializer is
    /// written for it; else a value is required.
    pub proof fn law_record_field_as_written(&self, name: Node<'a>, initializer: Node<'a>)
        ensures
            match self.spec_expect_name(name) {
                Some(id) => self.spec_make_record_field(name, initializer) matches
                    Node::RecordField(field) && field.0 == id && (field.1
                    == RecordFieldReq::HasDefaultValue <==> !(initializer is Ignored)) && (field.1
                    == RecordFieldReq::ValueRequired <==> initializer is Ignored),
                None => self.spec_make_record_field(name, initializer) is Ignored,
            },
    {
    }

    /// A type alias stands for the type behind it. It is opaque exactly where
    /// it begins with `newtype`, and internal with `__Internal`, whatever it
    /// begins with.
    pub proof fn law_alias_as_written(
        &self,
        attributes: Node<'a>,
        keyword: Node<'a>,
        name: Node<'a>,
        generic_params: Node<'a>,
        constraint: Node<'a>,
        aliased_type: Node<'a>,
    )
        ensures
            ({
                let read = self.spec_alias(
                    attributes,
                    keyword,
                    name,
                    generic_params,
                    constraint,
                    aliased_type,
                );
                let is_internal = bears(attributes, "__Internal".spec_bytes());
                let is_newtype = keyword.spec_token_kind() == Some(TokenKind::Newtype);
                &&& read is Some <==> self.spec_elaborate_defined_id(name) is Some
                    && self.spec_node_to_ty(aliased_type) is Some
                &&& read matches Some(of) ==> {
                    let id = self.spec_elaborate_defined_id(name)->Some_0;
                    &&& of.0 == id.1
                    &&& of.1.pos == id.0
                    &&& Some(of.1.type_) == self.spec_node_to_ty(aliased_type)
                    &&& of.1.vis == TypedefVisibility::Tinternal <==> is_internal
                    &&& of.1.vis == TypedefVisibility::Opaque <==> !is_internal && is_newtype
                    &&& of.1.vis == TypedefVisibility::Transparent <==> !is_internal && !is_newtype
                    &&& !of.1.is_ctx
                    &&& of.1.module == attributes_in(attributes).module
                    &&& generic_params matches Node::TypeParameters(tparams) ==> of.1.tparams@
                        == tparams@
                    &&& !(generic_params is TypeParameters) ==> of.1.tparams@.len() == 0
                    &&& constraint matches Node::TypeConstraint(bound) ==> of.1.constraint
                        == self.spec_node_to_ty(bound.1)
                    &&& !(constraint is TypeConstraint) ==> of.1.constraint is None
                }
            }),
    {
        law_attributes_say_what_is_written(attributes);
    }

    /// A context alias stands for the contexts behind it, or for the defaults
    /// where there are none. It is opaque, or internal with `__Internal`, and
    /// bounded by what stands behind `as`.
    pub proof fn law_context_alias_as_written(
        &self,
        attributes: Node<'a>,
        name: Node<'a>,
        generic_params: Node<'a>,
        constraint: Node<'a>,
        ctx_list: Node<'a>,
    )
        ensures
            ({
                let read = self.spec_context_alias(
                    attributes,
                    name,
                    generic_params,
                    constraint,
                    ctx_list,
                );
                let is_internal = bears(attributes, "__Internal".spec_bytes());
                &&& read is Some <==> self.spec_elaborate_defined_id(name) is Some
                &&& read matches Some(of) ==> {
                    let id = self.spec_elaborate_defined_id(name)->Some_0;
                    &&& of.0 == id.1
                    &&& of.1.pos == id.0
                    &&& self.spec_node_to_ty(ctx_list) matches Some(ty) ==> of.1.type_ == ty
                    &&& self.spec_node_to_ty(ctx_list) is None ==> (
                    of.1.type_.1 matches Ty_::Tapply(applied) && applied.0.1 == lit(
                        "\\HH\\Contexts\\defaults",
                    ) && applied.0.0 == id.0 && applied.1@.len() == 0) && *of.1.type_.0
                        == Reason::Rhint(id.0)
                    &&& of.1.vis == TypedefVisibility::Tinternal <==> is_internal
                    &&& of.1.vis == TypedefVisibility::Opaque <==> !is_internal
                    &&& of.1.is_ctx
                    &&& of.1.module == attributes_in(attributes).module
                    &&& generic_params matches Node::TypeParameters(tparams) ==> of.1.tparams@
                        == tparams@
                    &&& !(generic_params is TypeParameters) ==> of.1.tparams@.len() == 0
                    &&& of.1.constraint == self.spec_context_bound(
                        constraint.elements(),
                        ConstraintKind::ConstraintAs,
                    )
                }
            }),
    {
        law_attributes_say_what_is_written(attributes);
    }

    /// Of several bounds of one kind on a context the last one counts. Bounds
    /// of the other kind and other nodes do not.
    pub proof fn law_last_bound_counts(
        &self,
        nodes: Seq<Node<'a>>,
        node: Node<'a>,
        kind: ConstraintKind,
    )
        ensures
            self.spec_context_bound(Seq::<Node<'a>>::empty(), kind) is None,
            self.spec_context_bound(nodes.push(node), kind) == (match node {
                Node::ContextConstraint(of) => if of.0 == kind {
                    self.spec_node_to_ty(of.1)
                } else {
                    self.spec_context_bound(nodes, kind)
                },
                _ => self.spec_context_bound(nodes, kind),
            }),
    {
        assert(nodes.push(node).drop_last() =~= nodes);
    }

    /// A declaration keeps a type parameter with the name, the variance and the
    /// reification that are written.
    pub proof fn law_kept_type_parameter(
        &self,
        tparams: Seq<(&'a TypeParameterDecl<'a>, Id<'a>)>,
        i: int,
    )
        requires
            0 <= i < tparams.len(),
        ensures
            self.spec_tparams(tparams).len() == tparams.len(),
            ({
                let kept = self.spec_tparams(tparams)[i];
                let decl = tparams[i].0;
                let id = tparams[i].1;
                &&& kept.name.0 == id.0
                &&& kept.name.1 == id.1
                &&& kept.variance == decl.variance
                &&& kept.reified == decl.reified
                &&& kept.tparams == slice_of::<'a>(decl.tparam_params@)
                &&& kept.constraints@ == self.spec_constraints(decl.constraints@)
                &&& kept.user_attributes@ == attributes_reversed(decl.user_attributes@)
            }),
    {
    }

    /// The constraints of a type parameter are kept in their order, each with
    /// its kind; one whose type cannot be read is passed over.
    pub proof fn law_constraints_in_order(
        &self,
        constraints: Seq<(ConstraintKind, Node<'a>)>,
        constraint: (ConstraintKind, Node<'a>),
    )
        ensures
            self.spec_constraints(Seq::<(ConstraintKind, Node<'a>)>::empty()).len() == 0,
            match self.spec_node_to_ty(constraint.1) {
                Some(ty) => self.spec_constraints(constraints.push(constraint))
                    == self.spec_constraints(constraints).push(
                    (constraint.0, self.spec_generic(ty)),
                ),
                None => self.spec_constraints(constraints.push(constraint))
                    == self.spec_constraints(constraints),
            },
    {
        assert(constraints.push(constraint).drop_last() =~= constraints);
    }

    /// A where clause relates the type on its left to that on its right: by
    /// `=`, by `super`, or by `as`.
    pub proof fn law_where_clause_as_written(
        &self,
        left_type: Node<'a>,
        operator: Node<'a>,
        right_type: Node<'a>,
    )
        ensures
            self.spec_make_where_constraint(left_type, operator, right_type) matches
                Node::WhereConstraint(of) && {
                let kind = operator.spec_token_kind();
                &&& self.spec_node_to_ty(left_type) matches Some(ty) ==> of.0 == ty
                &&& self.spec_node_to_ty(right_type) matches Some(ty) ==> of.2 == ty
                &&& self.spec_node_to_ty(left_type) is None ==> of.0.1 == Ty_::<'a>::Tany
                &&& self.spec_node_to_ty(right_type) is None ==> of.2.1 == Ty_::<'a>::Tany
                &&& of.1 == ConstraintKind::ConstraintEq <==> kind == Some(TokenKind::Equal)
                &&& of.1 == ConstraintKind::ConstraintSuper <==> kind == Some(TokenKind::Super)
                &&& of.1 == ConstraintKind::ConstraintAs <==> kind != Some(TokenKind::Equal)
                    && kind != Some(TokenKind::Super)
            },
    {
    }

    /// The type of a constant is that of its hint. Without a hint its value
    /// shows it.
    pub proof fn law_type_of_a_constant(
        &self,
        hint: Node<'a>,
        name: Node<'a>,
        initializer: Node<'a>,
    )
        ensures
            self.spec_node_to_ty(hint) matches Some(ty) ==> self.spec_const_ty(
                hint,
                name,
                initializer,
            ) == Some(ty),
            self.spec_node_to_ty(hint) is None ==> self.spec_const_ty(hint, name, initializer)
                == self.spec_infer_const(name, initializer),
    {
    }

    /// Every declarator with a name declares a class constant, in their order.
    /// With `abstract` the constant is abstract, and has a default exactly
    /// where a value is written; without it is concrete.
    pub proof fn law_class_constants_in_order(
        &self,
        modifiers: Node<'a>,
        hint: Node<'a>,
        consts: Seq<Node<'a>>,
        node: Node<'a>,
    )
        ensures
            ({
                let before = self.spec_class_consts(modifiers, hint, consts);
                let after = self.spec_class_consts(modifiers, hint, consts.push(node));
                let named = node matches Node::ConstInitializer(of) && (of.0 is Name
                    || of.0 is XhpName);
                &&& self.spec_class_consts(modifiers, hint, Seq::<Node<'a>>::empty()).len() == 0
                &&& !named ==> after == before
                &&& named ==> {
                    let of = node->ConstInitializer_0;
                    let is_abstract = modifiers.spec_holds_token(TokenKind::Abstract);
                    &&& after.len() == before.len() + 1
                    &&& after.drop_last() == before
                    &&& after.last() matches Node::Const(decl) && {
                        &&& of.0.spec_as_id() == Some(Id(decl.name.0, decl.name.1))
                        &&& decl.refs == of.2
                        &&& decl.abstract_ == ClassConstKind::CCConcrete <==> !is_abstract
                        &&& decl.abstract_ == ClassConstKind::CCAbstract(true) <==> is_abstract
                            && !(of.1 is Ignored)
                        &&& decl.abstract_ == ClassConstKind::CCAbstract(false) <==> is_abstract
                            && of.1 is Ignored
                        &&& self.spec_const_ty(hint, of.0, of.1) matches Some(ty) ==> decl.type_
                            == ty
                        &&& self.spec_const_ty(hint, of.0, of.1) is None ==> decl.type_.1
                            == Ty_::<'a>::Tany && *decl.type_.0 is Rnone
                    }
                }
            }),
    {
        law_member_modifiers(modifiers.elements());
        assert(consts.push(node).drop_last() =~= consts);
        let before = self.spec_class_consts(modifiers, hint, consts);
        let after = self.spec_class_consts(modifiers, hint, consts.push(node));
        if after.len() == before.len() + 1 {
            assert(after.drop_last() =~= before);
        }
    }

    /// Outside classes every declarator with a name adds a constant under its
    /// full name, in their order.
    pub proof fn law_global_constants_in_order(
        &self,
        pos: &'a Pos<'a>,
        hint: Node<'a>,
        consts: Seq<Node<'a>>,
        node: Node<'a>,
    )
        ensures
            ({
                let before = self.spec_global_consts(pos, hint, consts);
                let after = self.spec_global_consts(pos, hint, consts.push(node));
                let id = match node {
                    Node::ConstInitializer(of) => self.spec_elaborate_defined_id(of.0),
                    _ => None,
                };
                &&& self.spec_global_consts(pos, hint, Seq::<Node<'a>>::empty()).len() == 0
                &&& id is None ==> after == before
                &&& id matches Some(id) ==> {
                    let of = node->ConstInitializer_0;
                    &&& after.len() == before.len() + 1
                    &&& after.drop_last() == before
                    &&& after.last().0 == id.1
                    &&& after.last().1 matches Decl::Const(decl) && decl.pos == pos && (
                    self.spec_const_ty(hint, of.0, of.1) matches Some(ty) ==> decl.type_ == ty) && (
                    self.spec_const_ty(hint, of.0, of.1) is None ==> decl.type_.1 == Ty_::<
                        'a,
                    >::Tany && *decl.type_.0 == Reason::RwitnessFromDecl(id.0))
                }
            }),
    {
        assert(consts.push(node).drop_last() =~= consts);
        let before = self.spec_global_consts(pos, hint, consts);
        let after = self.spec_global_consts(pos, hint, consts.push(node));
        if after.len() == before.len() + 1 {
            assert(after.drop_last() =~= before);
        }
    }

    /// A constant declaration inside a class is read as the list of its
    /// constants and adds no declaration. Outside classes it adds declarations
    /// and is read as nothing.
    pub proof fn law_constants_in_and_outside_classes(
        &self,
        modifiers: Node<'a>,
        const_keyword: Node<'a>,
        hint: Node<'a>,
        consts: &'a Items<'a, Node<'a>>,
        semicolon: Node<'a>,
    )
        ensures
            ({
                let node = self.spec_make_const_declaration(modifiers, hint, Node::List(consts));
                let added = self.spec_consts_added(
                    const_keyword,
                    hint,
                    Node::List(consts),
                    semicolon,
                );
                let inside = self.classish_name_builder is InClassish;
                &&& inside ==> added.len() == 0 && (node matches Node::List(list) && list@
                    == self.spec_class_consts(modifiers, hint, consts@))
                &&& !inside ==> node is Ignored && added == self.spec_global_consts(
                    &self.spec_merge_positions(const_keyword, semicolon),
                    hint,
                    consts@,
                )
            }),
    {
    }
}

impl<
    'a,
    'text,
    S: SourceTextAllocator<'text, 'a>,
    H: Fn(Query<'a, 'text>) -> Answer<'a, 'text>,
> DirectDeclSmartConstructors<'a, 'text, S, H> {
    /// After type parameters have been read each of them is in scope, with the
    /// names that were so before, and their constraints are those that are
    /// written, read with all of them in scope. Where one has no name, nothing is
    /// read and no name comes into scope.
    pub proof fn law_type_parameters_are_in_scope(
        &self,
        before: &Self,
        tparams: Node<'a>,
        node: Node<'a>,
        i: int,
        outer: Seq<u8>,
    )
        requires
            self.has_read_type_parameters(before, tparams, node),
            named_tparams(tparams.elements()) matches Some(named) ==> 0 <= i < named.len(),
        ensures
            match named_tparams(tparams.elements()) {
                Some(named) => {
                    &&& self.spec_in_scope(named[i].1.1@)
                    &&& before.spec_in_scope(outer) ==> self.spec_in_scope(outer)
                    &&& self.type_parameters@.len() == before.type_parameters@.len() + 1
                    &&& node matches Node::TypeParameters(read) && read@.len() == named.len()
                        && read@[i].name.1 == named[i].1.1 && read@[i].variance
                        == named[i].0.variance && read@[i].reified == named[i].0.reified
                        && read@[i].constraints@ == self.spec_constraints(
                        named[i].0.constraints@,
                    )
                },
                None => node is Ignored && self.type_parameters@ == before.type_parameters@,
            },
    {
        if let Some(named) = named_tparams(tparams.elements()) {
            let names = tparam_names(named);
            self.law_declared_type_parameters_are_in_scope(before, names, named[i].1.1@);
            self.law_declared_type_parameters_are_in_scope(before, names, outer);
            assert(names[i]@ == named[i].1.1@);
        }
    }
}

} // verus!
