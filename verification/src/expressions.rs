//! Expressions, as far as declarations need them.

use crate::arena::{lemma_items_of, lemma_slice_of, Items};
use crate::hints::literal_ty;
use crate::host::{Answer, Query};
use crate::node::Node;
use crate::parser::{const_refs_with, DirectDeclSmartConstructors, SourceTextAllocator};
use crate::source::Pos;
use crate::syntax::{Bop, ClassId, ClassId_, Expr, Expr_, Uop};
use crate::text::is;
use crate::token::{SyntaxKind, TokenKind};
use vstd::prelude::*;
use vstd::string::*;

verus! {

broadcast use {lemma_items_of, lemma_slice_of};

/// The operator that a token in front of an operand stands for.
pub open spec fn prefix_operator(kind: Option<TokenKind>) -> Option<Uop> {
    match kind {
        Some(TokenKind::Tilde) => Some(Uop::Utild),
        Some(TokenKind::Exclamation) => Some(Uop::Unot),
        Some(TokenKind::Plus) => Some(Uop::Uplus),
        Some(TokenKind::Minus) => Some(Uop::Uminus),
        Some(TokenKind::PlusPlus) => Some(Uop::Uincr),
        Some(TokenKind::MinusMinus) => Some(Uop::Udecr),
        Some(TokenKind::At) => Some(Uop::Usilence),
        _ => None,
    }
}

/// The operator that a token behind an operand stands for.
pub open spec fn postfix_operator(kind: Option<TokenKind>) -> Option<Uop> {
    match kind {
        Some(TokenKind::PlusPlus) => Some(Uop::Upincr),
        Some(TokenKind::MinusMinus) => Some(Uop::Updecr),
        _ => None,
    }
}

pub open spec fn binary_operator(kind: Option<TokenKind>) -> Option<Bop> {
    match kind {
        Some(TokenKind::Plus) => Some(Bop::Plus),
        Some(TokenKind::Minus) => Some(Bop::Minus),
        Some(TokenKind::Star) => Some(Bop::Star),
        Some(TokenKind::Slash) => Some(Bop::Slash),
        Some(TokenKind::Equal) => Some(Bop::Eq),
        Some(TokenKind::EqualEqual) => Some(Bop::Eqeq),
        Some(TokenKind::EqualEqualEqual) => Some(Bop::Eqeqeq),
        Some(TokenKind::StarStar) => Some(Bop::Starstar),
        Some(TokenKind::AmpersandAmpersand) => Some(Bop::Ampamp),
        Some(TokenKind::BarBar) => Some(Bop::Barbar),
        Some(TokenKind::LessThan) => Some(Bop::Lt),
        Some(TokenKind::LessThanEqual) => Some(Bop::Lte),
        Some(TokenKind::LessThanLessThan) => Some(Bop::Ltlt),
        Some(TokenKind::GreaterThan) => Some(Bop::Gt),
        Some(TokenKind::GreaterThanEqual) => Some(Bop::Gte),
        Some(TokenKind::GreaterThanGreaterThan) => Some(Bop::Gtgt),
        Some(TokenKind::Dot) => Some(Bop::Dot),
        Some(TokenKind::Ampersand) => Some(Bop::Amp),
        Some(TokenKind::Bar) => Some(Bop::Bar),
        Some(TokenKind::Percent) => Some(Bop::Percent),
        Some(TokenKind::QuestionQuestion) => Some(Bop::QuestionQuestion),
        _ => None,
    }
}

/// What an item of a list and the separator behind it are together.
pub open spec fn list_item<'a>(item: Node<'a>, sep: Node<'a>) -> Node<'a> {
    match (item is Ignored, sep is Ignored) {
        (true, true) => Node::Ignored(SyntaxKind::ListItem),
        (false, true) => item,
        (true, false) => sep,
        (false, false) => Node::ListItem(&(item, sep)),
    }
}

/// What an equals sign and the value behind it are together.
pub open spec fn initializer_of<'a>(equals: Node<'a>, expr: Node<'a>) -> Node<'a> {
    if expr is Ignored {
        equals
    } else {
        expr
    }
}

/// Whether a node is the keyword `self`.
pub open spec fn is_self_name<'a>(node: Node<'a>) -> bool {
    node matches Node::Name(of) && of.0@ == "self".spec_bytes()
}

impl<
    'a,
    'text,
    S: SourceTextAllocator<'text, 'a>,
    H: Fn(Query<'a, 'text>) -> Answer<'a, 'text>,
> DirectDeclSmartConstructors<'a, 'text, S, H> {
    pub open spec fn spec_make_qualified_name(&self, parts: Node<'a>) -> Node<'a> {
        let pos = &self.spec_pos(parts);
        match parts {
            Node::List(nodes) => Node::QualifiedName(&(*nodes, pos)),
            Node::Ignored(_) => Node::Ignored(SyntaxKind::QualifiedName),
            _ => Node::QualifiedName(&(Items::of(seq![parts]), pos)),
        }
    }

    pub fn make_qualified_name(&self, parts: Node<'a>) -> (r: Node<'a>)
        requires
            self.wf(),
        ensures
            r == self.spec_make_qualified_name(parts),
    {
        let pos = self.get_pos(parts);
        match parts {
            Node::List(nodes) => Node::QualifiedName(self.allocate((*nodes, pos))),
            Node::Ignored(_) => Node::Ignored(SyntaxKind::QualifiedName),
            _ => Node::QualifiedName(self.allocate((Items::single(self.arena, parts), pos))),
        }
    }

    pub fn make_literal_expression(&self, expression: Node<'a>) -> (r: Node<'a>)
        ensures
            r == expression,
    {
        expression
    }

    /// Where the value is ignored, the equals sign shows at least that there
    /// is one: a property without a value has to be set in the constructor.
    pub fn make_simple_initializer(&self, equals: Node<'a>, expr: Node<'a>) -> (r: Node<'a>)
        ensures
            r == initializer_of(equals, expr),
    {
        if expr.is_ignored() {
            equals
        } else {
            expr
        }
    }

    /// A `yield` in the body of an anonymous function is none of the function
    /// around it.
    pub fn make_anonymous_function(
        &self,
        _attribute_spec: Node<'a>,
        _async_keyword: Node<'a>,
        _function_keyword: Node<'a>,
        _left_paren: Node<'a>,
        _parameters: Node<'a>,
        _right_paren: Node<'a>,
        _ctx_list: Node<'a>,
        _colon: Node<'a>,
        _readonly_return: Node<'a>,
        _type_: Node<'a>,
        _use_: Node<'a>,
        _body: Node<'a>,
    ) -> (r: Node<'a>)
        ensures
            r == Node::<'a>::Ignored(SyntaxKind::AnonymousFunction),
    {
        Node::Ignored(SyntaxKind::AnonymousFunction)
    }

    pub fn make_lambda_expression(
        &self,
        _attribute_spec: Node<'a>,
        _async_: Node<'a>,
        _signature: Node<'a>,
        _arrow: Node<'a>,
        _body: Node<'a>,
    ) -> (r: Node<'a>)
        ensures
            r == Node::<'a>::Ignored(SyntaxKind::LambdaExpression),
    {
        Node::Ignored(SyntaxKind::LambdaExpression)
    }

    pub fn make_awaitable_creation_expression(
        &self,
        _attribute_spec: Node<'a>,
        _async_: Node<'a>,
        _compound_statement: Node<'a>,
    ) -> (r: Node<'a>)
        ensures
            r == Node::<'a>::Ignored(SyntaxKind::AwaitableCreationExpression),
    {
        Node::Ignored(SyntaxKind::AwaitableCreationExpression)
    }

    pub fn make_element_initializer(
        &self,
        key: Node<'a>,
        _arrow: Node<'a>,
        value: Node<'a>,
    ) -> (r: Node<'a>)
        ensures
            r == Node::ListItem(&(key, value)),
    {
        Node::ListItem(self.allocate((key, value)))
    }

    /// The application of an operator to an operand that is an expression.
    pub open spec fn spec_unary(
        &self,
        op: Option<Uop>,
        value: Node<'a>,
        pos: Pos<'a>,
        otherwise: SyntaxKind,
    ) -> Node<'a> {
        match (op, self.spec_node_to_expr(value)) {
            (Some(op), Some(expr)) => Node::Expr(&Expr(&pos, Expr_::Unop(&(op, expr)))),
            _ => Node::Ignored(otherwise),
        }
    }

    pub fn make_prefix_unary_expression(&self, op: Node<'a>, value: Node<'a>) -> (r: Node<'a>)
        requires
            self.wf(),
        ensures
            r == self.spec_unary(
                prefix_operator(op.spec_token_kind()),
                value,
                self.spec_merge_positions(op, value),
                SyntaxKind::PrefixUnaryExpression,
            ),
    {
        let pos = self.merge_positions(op, value);
        let op = match op.token_kind() {
            Some(TokenKind::Tilde) => Uop::Utild,
            Some(TokenKind::Exclamation) => Uop::Unot,
            Some(TokenKind::Plus) => Uop::Uplus,
            Some(TokenKind::Minus) => Uop::Uminus,
            Some(TokenKind::PlusPlus) => Uop::Uincr,
            Some(TokenKind::MinusMinus) => Uop::Udecr,
            Some(TokenKind::At) => Uop::Usilence,
            _ => return Node::Ignored(SyntaxKind::PrefixUnaryExpression),
        };
        let value = match self.node_to_expr(value) {
            Some(value) => value,
            None => return Node::Ignored(SyntaxKind::PrefixUnaryExpression),
        };
        Node::Expr(self.allocate(Expr(pos, Expr_::Unop(self.allocate((op, value))))))
    }

    pub fn make_postfix_unary_expression(&self, value: Node<'a>, op: Node<'a>) -> (r: Node<'a>)
        requires
            self.wf(),
        ensures
            r == self.spec_unary(
                postfix_operator(op.spec_token_kind()),
                value,
                self.spec_merge_positions(value, op),
                SyntaxKind::PostfixUnaryExpression,
            ),
    {
        let pos = self.merge_positions(value, op);
        let op = match op.token_kind() {
            Some(TokenKind::PlusPlus) => Uop::Upincr,
            Some(TokenKind::MinusMinus) => Uop::Updecr,
            _ => return Node::Ignored(SyntaxKind::PostfixUnaryExpression),
        };
        let value = match self.node_to_expr(value) {
            Some(value) => value,
            None => return Node::Ignored(SyntaxKind::PostfixUnaryExpression),
        };
        Node::Expr(self.allocate(Expr(pos, Expr_::Unop(self.allocate((op, value))))))
    }

    /// The application of an operator to two operands. The assignment of a
    /// `yield` is that `yield`.
    pub open spec fn spec_make_binary_expression(
        &self,
        lhs: Node<'a>,
        op_node: Node<'a>,
        rhs: Node<'a>,
    ) -> Node<'a> {
        let pos = self.spec_merge_positions(lhs, op_node).merged(self.spec_pos(rhs));
        match binary_operator(op_node.spec_token_kind()) {
            None => Node::Ignored(SyntaxKind::BinaryExpression),
            Some(op) => if op == Bop::Eq && rhs.spec_is_token(TokenKind::Yield) {
                rhs
            } else {
                match (self.spec_node_to_expr(lhs), self.spec_node_to_expr(rhs)) {
                    (Some(lhs), Some(rhs)) => Node::Expr(
                        &Expr(&pos, Expr_::Binop(&(op, lhs, rhs))),
                    ),
                    _ => Node::Ignored(SyntaxKind::BinaryExpression),
                }
            },
        }
    }

    pub fn make_binary_expression(
        &self,
        lhs: Node<'a>,
        op_node: Node<'a>,
        rhs: Node<'a>,
    ) -> (r: Node<'a>)
        requires
            self.wf(),
        ensures
            r == self.spec_make_binary_expression(lhs, op_node, rhs),
    {
        let op = match op_node.token_kind() {
            Some(TokenKind::Plus) => Bop::Plus,
            Some(TokenKind::Minus) => Bop::Minus,
            Some(TokenKind::Star) => Bop::Star,
            Some(TokenKind::Slash) => Bop::Slash,
            Some(TokenKind::Equal) => Bop::Eq,
            Some(TokenKind::EqualEqual) => Bop::Eqeq,
            Some(TokenKind::EqualEqualEqual) => Bop::Eqeqeq,
            Some(TokenKind::StarStar) => Bop::Starstar,
            Some(TokenKind::AmpersandAmpersand) => Bop::Ampamp,
            Some(TokenKind::BarBar) => Bop::Barbar,
            Some(TokenKind::LessThan) => Bop::Lt,
            Some(TokenKind::LessThanEqual) => Bop::Lte,
            Some(TokenKind::LessThanLessThan) => Bop::Ltlt,
            Some(TokenKind::GreaterThan) => Bop::Gt,
            Some(TokenKind::GreaterThanEqual) => Bop::Gte,
            Some(TokenKind::GreaterThanGreaterThan) => Bop::Gtgt,
            Some(TokenKind::Dot) => Bop::Dot,
            Some(TokenKind::Ampersand) => Bop::Amp,
            Some(TokenKind::Bar) => Bop::Bar,
            Some(TokenKind::Percent) => Bop::Percent,
            Some(TokenKind::QuestionQuestion) => Bop::QuestionQuestion,
            _ => return Node::Ignored(SyntaxKind::BinaryExpression),
        };
        if op == Bop::Eq && rhs.is_token(TokenKind::Yield) {
            return rhs;
        }
        let pos = self.merge(Some(self.merge_positions(lhs, op_node)), Some(self.get_pos(rhs)));
        let lhs = match self.node_to_expr(lhs) {
            Some(lhs) => lhs,
            None => return Node::Ignored(SyntaxKind::BinaryExpression),
        };
        let rhs = match self.node_to_expr(rhs) {
            Some(rhs) => rhs,
            None => return Node::Ignored(SyntaxKind::BinaryExpression),
        };
        Node::Expr(self.allocate(Expr(pos, Expr_::Binop(self.allocate((op, lhs, rhs))))))
    }

    pub fn make_parenthesized_expression(
        &self,
        _lparen: Node<'a>,
        expr: Node<'a>,
        _rparen: Node<'a>,
    ) -> (r: Node<'a>)
        ensures
            r == expr,
    {
        expr
    }

    pub fn make_list_item(&self, item: Node<'a>, sep: Node<'a>) -> (r: Node<'a>)
        ensures
            r == list_item(item, sep),
    {
        match (item.is_ignored(), sep.is_ignored()) {
            (true, true) => Node::Ignored(SyntaxKind::ListItem),
            (false, true) => item,
            (true, false) => sep,
            (false, false) => Node::ListItem(self.allocate((item, sep))),
        }
    }

    pub fn make_yield_expression(&self, keyword: Node<'a>, _operand: Node<'a>) -> (r: Node<'a>)
        requires
            keyword.spec_is_token(TokenKind::Yield),
        ensures
            r == keyword,
    {
        keyword
    }

    /// What stands before the colons of a class constant.
    pub open spec fn spec_class_id(&self, class_name: Node<'a>) -> Option<&'a ClassId<'a>> {
        match self.spec_expect_name(class_name) {
            None => None,
            Some(name) => {
                let id = self.spec_elaborate_id(name);
                Some(
                    &ClassId(
                        id.0,
                        if is_self_name(class_name) {
                            ClassId_::CIself
                        } else {
                            ClassId_::CI(&id)
                        },
                    ),
                )
            },
        }
    }

    pub open spec fn spec_make_scope_resolution_expression(
        &self,
        class_name: Node<'a>,
        value: Node<'a>,
    ) -> Node<'a> {
        match (self.spec_class_id(class_name), self.spec_expect_name(value)) {
            (Some(class_id), Some(id)) => Node::Expr(
                &Expr(
                    &self.spec_merge_positions(class_name, value),
                    Expr_::ClassConst(&(class_id, &id.pos_id())),
                ),
            ),
            _ => Node::Ignored(SyntaxKind::ScopeResolutionExpression),
        }
    }

    pub fn make_scope_resolution_expression(
        &mut self,
        class_name: Node<'a>,
        _operator: Node<'a>,
        value: Node<'a>,
    ) -> (r: Node<'a>)
        requires
            old(self).wf(),
        ensures
            final(self).wf(),
            r == old(self).spec_make_scope_resolution_expression(class_name, value),
            *final(self) == (DirectDeclSmartConstructors {
                const_refs: match (
                    old(self).spec_class_id(class_name),
                    old(self).spec_expect_name(value),
                ) {
                    (Some(class_id), Some(id)) => const_refs_with(
                        old(self).const_refs,
                        *class_id,
                        id.1,
                    ),
                    _ => old(self).const_refs,
                },
                ..*old(self)
            }),
    {
        let pos = self.merge_positions(class_name, value);
        let id = match self.expect_name(class_name) {
            Some(id) => self.elaborate_id(id),
            None => return Node::Ignored(SyntaxKind::ScopeResolutionExpression),
        };
        let is_self = match class_name {
            Node::Name(of) => is(of.0, "self"),
            _ => false,
        };
        let class_id: &'a ClassId<'a> = self.allocate(
            ClassId(
                id.0,
                if is_self {
                    ClassId_::CIself
                } else {
                    ClassId_::CI(self.allocate(id))
                },
            ),
        );
        let value_id = match self.expect_name(value) {
            Some(id) => id,
            None => return Node::Ignored(SyntaxKind::ScopeResolutionExpression),
        };
        self.accumulate_const_ref(class_id, &value_id);
        let const_id = self.allocate(value_id.to_pos_id());
        Node::Expr(
            self.allocate(Expr(pos, Expr_::ClassConst(self.allocate((class_id, const_id))))),
        )
    }

    pub fn make_field_initializer(
        &self,
        key: Node<'a>,
        _arrow: Node<'a>,
        value: Node<'a>,
    ) -> (r: Node<'a>)
        ensures
            r == Node::ListItem(&(key, value)),
    {
        Node::ListItem(self.allocate((key, value)))
    }

    pub fn make_decorated_expression(&self, decorator: Node<'a>, expr: Node<'a>) -> (r: Node<'a>)
        ensures
            r == Node::ListItem(&(decorator, expr)),
    {
        Node::ListItem(self.allocate((decorator, expr)))
    }

    pub fn make_variable_expression(&self, _expression: Node<'a>) -> (r: Node<'a>)
        ensures
            r == Node::<'a>::Ignored(SyntaxKind::VariableExpression),
    {
        Node::Ignored(SyntaxKind::VariableExpression)
    }

    pub fn make_subscript_expression(
        &self,
        _receiver: Node<'a>,
        _left_bracket: Node<'a>,
        _index: Node<'a>,
        _right_bracket: Node<'a>,
    ) -> (r: Node<'a>)
        ensures
            r == Node::<'a>::Ignored(SyntaxKind::SubscriptExpression),
    {
        Node::Ignored(SyntaxKind::SubscriptExpression)
    }

    pub fn make_member_selection_expression(
        &self,
        _object: Node<'a>,
        _operator: Node<'a>,
        _name: Node<'a>,
    ) -> (r: Node<'a>)
        ensures
            r == Node::<'a>::Ignored(SyntaxKind::MemberSelectionExpression),
    {
        Node::Ignored(SyntaxKind::MemberSelectionExpression)
    }

    pub fn make_object_creation_expression(
        &self,
        _new_keyword: Node<'a>,
        _object: Node<'a>,
    ) -> (r: Node<'a>)
        ensures
            r == Node::<'a>::Ignored(SyntaxKind::ObjectCreationExpression),
    {
        Node::Ignored(SyntaxKind::ObjectCreationExpression)
    }

    pub fn make_safe_member_selection_expression(
        &self,
        _object: Node<'a>,
        _operator: Node<'a>,
        _name: Node<'a>,
    ) -> (r: Node<'a>)
        ensures
            r == Node::<'a>::Ignored(SyntaxKind::SafeMemberSelectionExpression),
    {
        Node::Ignored(SyntaxKind::SafeMemberSelectionExpression)
    }

    pub fn make_function_call_expression(
        &self,
        _receiver: Node<'a>,
        _type_args: Node<'a>,
        _enum_class_label: Node<'a>,
        _left_paren: Node<'a>,
        _argument_list: Node<'a>,
        _right_paren: Node<'a>,
    ) -> (r: Node<'a>)
        ensures
            r == Node::<'a>::Ignored(SyntaxKind::FunctionCallExpression),
    {
        Node::Ignored(SyntaxKind::FunctionCallExpression)
    }

    pub fn make_list_expression(
        &self,
        _keyword: Node<'a>,
        _left_paren: Node<'a>,
        _members: Node<'a>,
        _right_paren: Node<'a>,
    ) -> (r: Node<'a>)
        ensures
            r == Node::<'a>::Ignored(SyntaxKind::ListExpression),
    {
        Node::Ignored(SyntaxKind::ListExpression)
    }
}

/// Only class constants of named classes and of `self` are collected, and none
/// while nothing is being collected.
pub proof fn law_collecting_const_refs<'a>(class_id: ClassId<'a>, value: &'a [u8])
    ensures
        const_refs_with(None, class_id, value) is None,
        forall|refs: Items<'a, crate::decls::ClassConstRef<'a>>|
            class_id.1 is CIparent || class_id.1 is CIstatic || class_id.1 is CIexpr
                ==> #[trigger] const_refs_with(Some(refs), class_id, value) == Some(refs),
{
}

/// Each mark in front of an operand is the operator of its own, and no other
/// token is one.
pub proof fn law_prefix_operators(kind: Option<TokenKind>)
    ensures
        ({
            let op = prefix_operator(kind);
            &&& op == Some(Uop::Utild) <==> kind == Some(TokenKind::Tilde)
            &&& op == Some(Uop::Unot) <==> kind == Some(TokenKind::Exclamation)
            &&& op == Some(Uop::Uplus) <==> kind == Some(TokenKind::Plus)
            &&& op == Some(Uop::Uminus) <==> kind == Some(TokenKind::Minus)
            &&& op == Some(Uop::Uincr) <==> kind == Some(TokenKind::PlusPlus)
            &&& op == Some(Uop::Udecr) <==> kind == Some(TokenKind::MinusMinus)
            &&& op == Some(Uop::Usilence) <==> kind == Some(TokenKind::At)
            &&& op != Some(Uop::Upincr) && op != Some(Uop::Updecr)
        }),
{
}

/// Behind an operand only `++` and `--` are operators, others than in front of
/// it.
pub proof fn law_postfix_operators(kind: Option<TokenKind>)
    ensures
        ({
            let op = postfix_operator(kind);
            &&& op == Some(Uop::Upincr) <==> kind == Some(TokenKind::PlusPlus)
            &&& op == Some(Uop::Updecr) <==> kind == Some(TokenKind::MinusMinus)
            &&& op is Some <==> kind == Some(TokenKind::PlusPlus) || kind == Some(
                TokenKind::MinusMinus,
            )
            &&& op is Some ==> op != prefix_operator(kind)
        }),
{
}

/// Each mark between two operands is the operator of its own, and no other
/// token is one.
pub proof fn law_binary_operators(kind: Option<TokenKind>)
    ensures
        ({
            let op = binary_operator(kind);
            &&& op == Some(Bop::Plus) <==> kind == Some(TokenKind::Plus)
            &&& op == Some(Bop::Minus) <==> kind == Some(TokenKind::Minus)
            &&& op == Some(Bop::Star) <==> kind == Some(TokenKind::Star)
            &&& op == Some(Bop::Slash) <==> kind == Some(TokenKind::Slash)
            &&& op == Some(Bop::Eq) <==> kind == Some(TokenKind::Equal)
            &&& op == Some(Bop::Eqeq) <==> kind == Some(TokenKind::EqualEqual)
            &&& op == Some(Bop::Eqeqeq) <==> kind == Some(TokenKind::EqualEqualEqual)
            &&& op == Some(Bop::Starstar) <==> kind == Some(TokenKind::StarStar)
            &&& op == Some(Bop::Ampamp) <==> kind == Some(TokenKind::AmpersandAmpersand)
            &&& op == Some(Bop::Barbar) <==> kind == Some(TokenKind::BarBar)
            &&& op == Some(Bop::Lt) <==> kind == Some(TokenKind::LessThan)
            &&& op == Some(Bop::Lte) <==> kind == Some(TokenKind::LessThanEqual)
            &&& op == Some(Bop::Ltlt) <==> kind == Some(TokenKind::LessThanLessThan)
            &&& op == Some(Bop::Gt) <==> kind == Some(TokenKind::GreaterThan)
            &&& op == Some(Bop::Gte) <==> kind == Some(TokenKind::GreaterThanEqual)
            &&& op == Some(Bop::Gtgt) <==> kind == Some(TokenKind::GreaterThanGreaterThan)
            &&& op == Some(Bop::Dot) <==> kind == Some(TokenKind::Dot)
            &&& op == Some(Bop::Amp) <==> kind == Some(TokenKind::Ampersand)
            &&& op == Some(Bop::Bar) <==> kind == Some(TokenKind::Bar)
            &&& op == Some(Bop::Percent) <==> kind == Some(TokenKind::Percent)
            &&& op == Some(Bop::QuestionQuestion) <==> kind == Some(TokenKind::QuestionQuestion)
        }),
{
}

/// An item and a separator stay together where both are there; else the one that
/// is there is what they are.
pub proof fn law_items_and_separators<'a>(item: Node<'a>, sep: Node<'a>)
    ensures
        item is Ignored && sep is Ignored ==> list_item(item, sep) is Ignored,
        !(item is Ignored) && sep is Ignored ==> list_item(item, sep) == item,
        item is Ignored && !(sep is Ignored) ==> list_item(item, sep) == sep,
        !(item is Ignored) && !(sep is Ignored) ==> (list_item(item, sep) matches Node::ListItem(of)
            && of.0 == item && of.1 == sep),
{
}

/// An initializer is its value, and still there where that value is ignored.
pub proof fn law_initializers<'a>(equals: Node<'a>, expr: Node<'a>)
    ensures
        !(expr is Ignored) ==> initializer_of(equals, expr) == expr,
        expr is Ignored ==> initializer_of(equals, expr) == equals,
        !(equals is Ignored) ==> !(initializer_of(equals, expr) is Ignored),
{
}

impl<
    'a,
    'text,
    S: SourceTextAllocator<'text, 'a>,
    H: Fn(Query<'a, 'text>) -> Answer<'a, 'text>,
> DirectDeclSmartConstructors<'a, 'text, S, H> {
    /// A qualified name has the parts that are written, and covers them.
    pub proof fn law_qualified_name_as_written(&self, parts: Node<'a>)
        ensures
            parts is Ignored ==> self.spec_make_qualified_name(parts) is Ignored,
            !(parts is Ignored) && !(parts is BracketedList) ==> (self.spec_make_qualified_name(
                parts,
            ) matches Node::QualifiedName(of) && of.0@ == parts.elements() && *of.1
                == self.spec_pos(parts)),
    {
    }

    /// An operator with an operand is the application of it to that operand; a
    /// sign does not change the type that a literal shows.
    pub proof fn law_unary_expressions(
        &self,
        op: Option<Uop>,
        value: Node<'a>,
        pos: Pos<'a>,
        otherwise: SyntaxKind,
    )
        ensures
            match (op, self.spec_node_to_expr(value)) {
                (Some(op), Some(operand)) => self.spec_unary(
                    Some(op),
                    value,
                    pos,
                    otherwise,
                ) matches Node::Expr(expr) && *expr.0 == pos && (expr.1 matches Expr_::Unop(of)
                    && of.0 == op && of.1 == operand) && literal_ty(*expr) == literal_ty(*operand),
                _ => self.spec_unary(op, value, pos, otherwise) is Ignored,
            },
    {
    }

    /// An operator between two operands is the application of it to them, in
    /// their order. The assignment of a `yield` is that `yield`.
    pub proof fn law_binary_expressions(&self, lhs: Node<'a>, op_node: Node<'a>, rhs: Node<'a>)
        ensures
            ({
                let node = self.spec_make_binary_expression(lhs, op_node, rhs);
                let op = binary_operator(op_node.spec_token_kind());
                let takes_yield = op_node.spec_token_kind() == Some(TokenKind::Equal)
                    && rhs.spec_token_kind() == Some(TokenKind::Yield);
                let left = self.spec_node_to_expr(lhs);
                let right = self.spec_node_to_expr(rhs);
                &&& takes_yield ==> node == rhs
                &&& !takes_yield ==> (node is Expr <==> op is Some && left is Some && right is Some)
                &&& !takes_yield && !(node is Expr) ==> node is Ignored
                &&& !takes_yield ==> (node matches Node::Expr(expr) ==> *expr.0
                    == self.spec_merge_positions(lhs, op_node).merged(self.spec_pos(rhs)) && (
                expr.1 matches Expr_::Binop(of) && Some(of.0) == op && Some(of.1) == left && Some(
                    of.2,
                ) == right))
            }),
    {
    }

    /// `C::X` is the constant `X` of the class `C`, under its full name; with
    /// `self` it is a constant of the class that is being read.
    pub proof fn law_class_constants_as_written(&self, class_name: Node<'a>, value: Node<'a>)
        ensures
            ({
                let node = self.spec_make_scope_resolution_expression(class_name, value);
                let is_self = class_name matches Node::Name(of) && of.0@ == "self".spec_bytes();
                &&& node is Expr <==> self.spec_expect_name(class_name) is Some
                    && self.spec_expect_name(value) is Some
                &&& !(node is Expr) ==> node is Ignored
                &&& node matches Node::Expr(expr) ==> {
                    let class = self.spec_expect_name(class_name)->Some_0;
                    let constant = self.spec_expect_name(value)->Some_0;
                    &&& *expr.0 == self.spec_merge_positions(class_name, value)
                    &&& expr.1 matches Expr_::ClassConst(of) && {
                        &&& of.1.0 == constant.0
                        &&& of.1.1 == constant.1
                        &&& of.0.0 == class.0
                        &&& of.0.1 is CIself <==> is_self
                        &&& !is_self ==> (of.0.1 matches ClassId_::CI(id) && *id
                            == self.spec_elaborate_id(class))
                    }
                }
            }),
    {
    }
}

impl<
    'a,
    'text,
    S: SourceTextAllocator<'text, 'a>,
    H: Fn(Query<'a, 'text>) -> Answer<'a, 'text>,
> DirectDeclSmartConstructors<'a, 'text, S, H> {
    /// A literal and an expression in parentheses are what they hold. A pair of a
    /// key and a value, or of a decorator and what it decorates, keeps both, in
    /// their order.
    pub proof fn law_parts_of_expressions(
        &self,
        first: Node<'a>,
        middle: Node<'a>,
        last: Node<'a>,
        literal: Node<'a>,
        in_parentheses: Node<'a>,
        element: Node<'a>,
        field: Node<'a>,
        decorated: Node<'a>,
    )
        requires
            call_ensures(Self::make_literal_expression, (self, middle), literal),
            call_ensures(
                Self::make_parenthesized_expression,
                (self, first, middle, last),
                in_parentheses,
            ),
            call_ensures(Self::make_element_initializer, (self, first, middle, last), element),
            call_ensures(Self::make_field_initializer, (self, first, middle, last), field),
            call_ensures(Self::make_decorated_expression, (self, first, last), decorated),
        ensures
            literal == middle,
            in_parentheses == middle,
            element matches Node::ListItem(of) && of.0 == first && of.1 == last,
            field matches Node::ListItem(of) && of.0 == first && of.1 == last,
            decorated matches Node::ListItem(of) && of.0 == first && of.1 == last,
    {
    }
}

impl<
    'a,
    'text,
    S: SourceTextAllocator<'text, 'a>,
    H: Fn(Query<'a, 'text>) -> Answer<'a, 'text>,
> DirectDeclSmartConstructors<'a, 'text, S, H> {
    /// In front of an operand a mark is the prefix operator, behind it the postfix
    /// operator; each is applied to that operand, and the whole covers both.
    pub proof fn law_operators_before_and_behind(
        &self,
        op: Node<'a>,
        value: Node<'a>,
        before: Node<'a>,
        behind: Node<'a>,
    )
        requires
            self.wf(),
            call_ensures(Self::make_prefix_unary_expression, (self, op, value), before),
            call_ensures(Self::make_postfix_unary_expression, (self, value, op), behind),
        ensures
            ({
                let kind = op.spec_token_kind();
                let operand = self.spec_node_to_expr(value);
                &&& before is Expr <==> prefix_operator(kind) is Some && operand is Some
                &&& behind is Expr <==> postfix_operator(kind) is Some && operand is Some
                &&& before matches Node::Expr(expr) ==> *expr.0 == self.spec_merge_positions(
                    op,
                    value,
                ) && (expr.1 matches Expr_::Unop(of) && Some(of.0) == prefix_operator(kind) && Some(
                    of.1,
                ) == operand)
                &&& behind matches Node::Expr(expr) ==> *expr.0 == self.spec_merge_positions(
                    value,
                    op,
                ) && (expr.1 matches Expr_::Unop(of) && Some(of.0) == postfix_operator(kind)
                    && Some(of.1) == operand)
            }),
    {
    }

    /// A `yield` inside a lambda or an asynchronous block is none of the function
    /// around it: nothing of the body is left.
    pub proof fn law_yield_stays_inside(
        &self,
        attributes: Node<'a>,
        async_: Node<'a>,
        signature: Node<'a>,
        arrow: Node<'a>,
        body: Node<'a>,
        lambda: Node<'a>,
        block: Node<'a>,
    )
        requires
            call_ensures(
                Self::make_lambda_expression,
                (self, attributes, async_, signature, arrow, body),
                lambda,
            ),
            call_ensures(
                Self::make_awaitable_creation_expression,
                (self, attributes, async_, body),
                block,
            ),
        ensures
            !lambda.spec_holds_token(TokenKind::Yield),
            !block.spec_holds_token(TokenKind::Yield),
            lambda is Ignored,
            block is Ignored,
    {
    }

    /// Nor is a `yield` inside an anonymous function.
    pub proof fn law_yield_stays_inside_anonymous_functions(
        &self,
        attributes: Node<'a>,
        async_: Node<'a>,
        keyword: Node<'a>,
        left_paren: Node<'a>,
        parameters: Node<'a>,
        right_paren: Node<'a>,
        ctx_list: Node<'a>,
        colon: Node<'a>,
        readonly_return: Node<'a>,
        type_: Node<'a>,
        use_: Node<'a>,
        body: Node<'a>,
        function: Node<'a>,
    )
        requires
            call_ensures(
                Self::make_anonymous_function,
                (
                    self,
                    attributes,
                    async_,
                    keyword,
                    left_paren,
                    parameters,
                    right_paren,
                    ctx_list,
                    colon,
                    readonly_return,
                    type_,
                    use_,
                    body,
                ),
                function,
            ),
        ensures
            !function.spec_holds_token(TokenKind::Yield),
            function is Ignored,
    {
    }
}

} // verus!
