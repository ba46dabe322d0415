//! The nodes that stand for the parts of a file while it is being read.

use crate::arena::{lemma_items_of, Items};
use crate::decls::{ClassConstRef, ShallowClassConst, ShallowMethod, ShallowProp, ShallowTypeconst};
use crate::namespace::NamespaceUseKind;
use crate::source::Pos;
use crate::syntax::{
    ConstraintKind, Expr, Expr_, Id, ParamMode, RecordFieldReq, ReifyKind, Variance, Visibility,
    XhpAttrTag, XhpEnumValue,
};
use crate::token::{FixedWidthToken, SyntaxKind, TokenKind};
use crate::types::{ShapeField, ShapeFieldType, Tparam, Ty, WhereConstraint};
use bumpalo::Bump;
use vstd::prelude::*;

verus! {

broadcast use lemma_items_of;

#[derive(Copy, Clone)]
pub struct FunParamDecl<'a> {
    pub attributes: Node<'a>,
    pub visibility: Node<'a>,
    pub kind: ParamMode,
    pub readonly: bool,
    pub hint: Node<'a>,
    pub pos: &'a Pos<'a>,
    pub name: Option<&'a [u8]>,
    pub variadic: bool,
    pub initializer: Node<'a>,
}

#[derive(Copy, Clone)]
pub struct FunctionHeader<'a> {
    pub name: Node<'a>,
    pub modifiers: Node<'a>,
    pub type_params: Node<'a>,
    pub param_list: Node<'a>,
    pub capability: Node<'a>,
    pub ret_hint: Node<'a>,
    pub readonly_return: Node<'a>,
    pub where_constraints: Node<'a>,
}

#[derive(Copy, Clone)]
pub struct RequireClause<'a> {
    pub require_type: Node<'a>,
    pub name: Node<'a>,
}

#[derive(Copy, Clone)]
pub struct TypeParameterDecl<'a> {
    pub name: Node<'a>,
    pub reified: ReifyKind,
    pub variance: Variance,
    pub constraints: Items<'a, (ConstraintKind, Node<'a>)>,
    pub tparam_params: Items<'a, &'a Tparam<'a>>,
    pub user_attributes: Items<'a, &'a UserAttributeNode<'a>>,
}

#[derive(Copy, Clone)]
pub struct ClosureTypeHint<'a> {
    pub args: Node<'a>,
    pub ret_hint: Node<'a>,
}

#[derive(Copy, Clone)]
pub struct NamespaceUseClause<'a> {
    pub kind: NamespaceUseKind,
    pub id: Id<'a>,
    pub as_: Option<&'a [u8]>,
}

#[derive(Copy, Clone)]
pub struct ConstructorNode<'a> {
    pub method: &'a ShallowMethod<'a>,
    pub properties: Items<'a, ShallowProp<'a>>,
}

#[derive(Copy, Clone)]
pub struct MethodNode<'a> {
    pub method: &'a ShallowMethod<'a>,
    pub is_static: bool,
}

#[derive(Copy, Clone)]
pub struct PropertyNode<'a> {
    pub decls: Items<'a, ShallowProp<'a>>,
    pub is_static: bool,
}

#[derive(Copy, Clone)]
pub struct XhpClassAttributeDeclarationNode<'a> {
    pub xhp_attr_enum_values: Items<'a, (&'a [u8], Items<'a, XhpEnumValue<'a>>)>,
    pub xhp_attr_decls: Items<'a, ShallowProp<'a>>,
    pub xhp_attr_uses_decls: Items<'a, Node<'a>>,
}

#[derive(Copy, Clone)]
pub struct XhpClassAttributeNode<'a> {
    pub name: Id<'a>,
    pub tag: Option<XhpAttrTag>,
    pub needs_init: bool,
    pub nullable: bool,
    pub hint: Node<'a>,
}

#[derive(Copy, Clone)]
pub struct ShapeFieldNode<'a> {
    pub name: &'a ShapeField<'a>,
    pub type_: &'a ShapeFieldType<'a>,
}

/// A parameter of an attribute that names a class.
#[derive(Copy, Clone)]
pub struct ClassNameParam<'a> {
    pub name: Id<'a>,
    /// The position of the whole expression `Foo::class`.
    pub full_pos: &'a Pos<'a>,
}

#[derive(Copy, Clone)]
pub struct UserAttributeNode<'a> {
    pub name: Id<'a>,
    pub classname_params: Items<'a, ClassNameParam<'a>>,
    /// The messages and names that attributes such as `__Deprecated` take.
    pub string_literal_params: Items<'a, &'a [u8]>,
}

/// What a part of a file has been read as.
#[derive(Copy, Clone)]
pub enum Node<'a> {
    /// A part that no declaration needs. Its kind is kept, since the parser
    /// asks for it in some places.
    Ignored(SyntaxKind),
    List(&'a Items<'a, Node<'a>>),
    BracketedList(&'a (&'a Pos<'a>, Items<'a, Node<'a>>, &'a Pos<'a>)),
    Name(&'a (&'a [u8], &'a Pos<'a>)),
    XhpName(&'a (&'a [u8], &'a Pos<'a>)),
    Variable(&'a (&'a [u8], &'a Pos<'a>)),
    QualifiedName(&'a (Items<'a, Node<'a>>, &'a Pos<'a>)),
    /// For the keys of shapes and for constant expressions.
    StringLiteral(&'a (&'a [u8], &'a Pos<'a>)),
    IntLiteral(&'a (&'a [u8], &'a Pos<'a>)),
    FloatingLiteral(&'a (&'a [u8], &'a Pos<'a>)),
    BooleanLiteral(&'a (&'a [u8], &'a Pos<'a>)),
    Ty(&'a Ty<'a>),
    XhpEnumTy(&'a (&'a Ty<'a>, Items<'a, XhpEnumValue<'a>>)),
    ListItem(&'a (Node<'a>, Node<'a>)),
    /// For the `X = 1` of enums and enum classes, and for class constants.
    Const(&'a ShallowClassConst<'a>),
    /// The name, the value and the references of a constant declarator.
    ConstInitializer(&'a (Node<'a>, Node<'a>, Items<'a, ClassConstRef<'a>>)),
    FunParam(&'a FunParamDecl<'a>),
    Attribute(&'a UserAttributeNode<'a>),
    FunctionHeader(&'a FunctionHeader<'a>),
    Constructor(&'a ConstructorNode<'a>),
    Method(&'a MethodNode<'a>),
    Property(&'a PropertyNode<'a>),
    EnumUse(&'a Node<'a>),
    TraitUse(&'a Node<'a>),
    XhpClassAttributeDeclaration(&'a XhpClassAttributeDeclarationNode<'a>),
    XhpClassAttribute(&'a XhpClassAttributeNode<'a>),
    XhpAttributeUse(&'a Node<'a>),
    TypeConstant(&'a ShallowTypeconst<'a>),
    ContextConstraint(&'a (ConstraintKind, Node<'a>)),
    RequireClause(&'a RequireClause<'a>),
    ClassishBody(&'a Items<'a, Node<'a>>),
    TypeParameter(&'a TypeParameterDecl<'a>),
    TypeConstraint(&'a (ConstraintKind, Node<'a>)),
    ShapeFieldSpecifier(&'a ShapeFieldNode<'a>),
    NamespaceUseClause(&'a NamespaceUseClause<'a>),
    Expr(&'a Expr<'a>),
    TypeParameters(&'a Items<'a, &'a Tparam<'a>>),
    WhereConstraint(&'a WhereConstraint<'a>),
    RecordField(&'a (Id<'a>, RecordFieldReq)),
    /// A token of fixed width that matters: a keyword, an operator, a brace.
    Token(FixedWidthToken),
}

/// What the parser asks about a node.
impl<'a> Node<'a> {
    pub fn extract(self) -> (r: Self)
        ensures
            r == self,
    {
        self
    }

    pub fn is_abstract(&self) -> (r: bool)
        ensures
            r == (self.spec_token_kind() == Some(TokenKind::Abstract) || self == Node::<
                'a,
            >::Ignored(SyntaxKind::Token(TokenKind::Abstract))),
    {
        self.is_token(TokenKind::Abstract) || matches!(
            self,
            Node::Ignored(SyntaxKind::Token(TokenKind::Abstract))
        )
    }

    pub fn is_name(&self) -> (r: bool)
        ensures
            r == (self is Name || self == Node::<'a>::Ignored(SyntaxKind::Token(TokenKind::Name))),
    {
        matches!(self, Node::Name(..)) || matches!(
            self,
            Node::Ignored(SyntaxKind::Token(TokenKind::Name))
        )
    }

    pub fn is_qualified_name(&self) -> (r: bool)
        ensures
            r == (self is QualifiedName || self == Node::<'a>::Ignored(SyntaxKind::QualifiedName)),
    {
        matches!(self, Node::QualifiedName(..)) || matches!(
            self,
            Node::Ignored(SyntaxKind::QualifiedName)
        )
    }

    pub fn is_prefix_unary_expression(&self) -> (r: bool)
        ensures
            r == (match self {
                Node::Expr(expr) => expr.1 is Unop,
                _ => self == Node::<'a>::Ignored(SyntaxKind::PrefixUnaryExpression),
            }),
    {
        match self {
            Node::Expr(expr) => matches!(expr.1, Expr_::Unop(..)),
            _ => matches!(self, Node::Ignored(SyntaxKind::PrefixUnaryExpression)),
        }
    }

    pub fn is_scope_resolution_expression(&self) -> (r: bool)
        ensures
            r == (match self {
                Node::Expr(expr) => expr.1 is ClassConst,
                _ => self == Node::<'a>::Ignored(SyntaxKind::ScopeResolutionExpression),
            }),
    {
        match self {
            Node::Expr(expr) => matches!(expr.1, Expr_::ClassConst(..)),
            _ => matches!(self, Node::Ignored(SyntaxKind::ScopeResolutionExpression)),
        }
    }

    pub fn is_missing(&self) -> (r: bool)
        ensures
            r == (self == Node::<'a>::Ignored(SyntaxKind::Missing)),
    {
        matches!(self, Node::Ignored(SyntaxKind::Missing))
    }

    pub fn is_variable_expression(&self) -> (r: bool)
        ensures
            r == (self == Node::<'a>::Ignored(SyntaxKind::VariableExpression)),
    {
        matches!(self, Node::Ignored(SyntaxKind::VariableExpression))
    }

    pub fn is_subscript_expression(&self) -> (r: bool)
        ensures
            r == (self == Node::<'a>::Ignored(SyntaxKind::SubscriptExpression)),
    {
        matches!(self, Node::Ignored(SyntaxKind::SubscriptExpression))
    }

    pub fn is_member_selection_expression(&self) -> (r: bool)
        ensures
            r == (self == Node::<'a>::Ignored(SyntaxKind::MemberSelectionExpression)),
    {
        matches!(self, Node::Ignored(SyntaxKind::MemberSelectionExpression))
    }

    pub fn is_object_creation_expression(&self) -> (r: bool)
        ensures
            r == (self == Node::<'a>::Ignored(SyntaxKind::ObjectCreationExpression)),
    {
        matches!(self, Node::Ignored(SyntaxKind::ObjectCreationExpression))
    }

    pub fn is_safe_member_selection_expression(&self) -> (r: bool)
        ensures
            r == (self == Node::<'a>::Ignored(SyntaxKind::SafeMemberSelectionExpression)),
    {
        matches!(self, Node::Ignored(SyntaxKind::SafeMemberSelectionExpression))
    }

    pub fn is_function_call_expression(&self) -> (r: bool)
        ensures
            r == (self == Node::<'a>::Ignored(SyntaxKind::FunctionCallExpression)),
    {
        matches!(self, Node::Ignored(SyntaxKind::FunctionCallExpression))
    }

    pub fn is_list_expression(&self) -> (r: bool)
        ensures
            r == (self == Node::<'a>::Ignored(SyntaxKind::ListExpression)),
    {
        matches!(self, Node::Ignored(SyntaxKind::ListExpression))
    }
}

/// The visibility that a keyword stands for.
pub open spec fn visibility_of(kind: Option<TokenKind>) -> Option<Visibility> {
    match kind {
        Some(TokenKind::Private) => Some(Visibility::Private),
        Some(TokenKind::Protected) => Some(Visibility::Protected),
        Some(TokenKind::Public) => Some(Visibility::Public),
        _ => None,
    }
}

impl<'a> Node<'a> {
    pub open spec fn spec_token_kind(self) -> Option<TokenKind> {
        match self {
            Node::Token(token) => Some(token.spec_kind()),
            _ => None,
        }
    }

    pub open spec fn spec_is_token(self, kind: TokenKind) -> bool {
        self.spec_token_kind() == Some(kind)
    }

    /// The elements of a list; of an ignored node none, and of any other node
    /// the node itself.
    pub open spec fn elements(self) -> Seq<Node<'a>> {
        match self {
            Node::List(items) => items@,
            Node::BracketedList(list) => list.1@,
            Node::Ignored(_) => Seq::<Node<'a>>::empty(),
            _ => seq![self],
        }
    }

    pub open spec fn spec_as_id(self) -> Option<Id<'a>> {
        match self {
            Node::Name(of) => Some(Id(of.1, of.0)),
            Node::XhpName(of) => Some(Id(of.1, of.0)),
            _ => None,
        }
    }

    pub open spec fn spec_as_variable(self) -> Option<Id<'a>> {
        match self {
            Node::Variable(of) => Some(Id(of.1, of.0)),
            Node::Name(of) => Some(Id(of.1, of.0)),
            _ => None,
        }
    }

    pub fn is_token(self, kind: TokenKind) -> (r: bool)
        ensures
            r == self.spec_is_token(kind),
    {
        match self {
            Node::Token(token) => token.kind() == kind,
            _ => false,
        }
    }

    pub fn token_kind(self) -> (r: Option<TokenKind>)
        ensures
            r == self.spec_token_kind(),
    {
        match self {
            Node::Token(token) => Some(token.kind()),
            _ => None,
        }
    }

    /// The elements of the node as a list in the arena.
    pub fn as_slice(self, arena: &'a Bump) -> (r: Items<'a, Node<'a>>)
        ensures
            r@ == self.elements(),
    {
        match self {
            Node::List(items) => *items,
            Node::BracketedList(list) => list.1,
            Node::Ignored(_) => Items::none(),
            _ => Items::single(arena, self),
        }
    }

    /// The number of elements.
    pub fn len(&self) -> (r: usize)
        ensures
            r == self.elements().len(),
    {
        match self {
            Node::List(items) => items.len(),
            Node::BracketedList(list) => list.1.len(),
            Node::Ignored(_) => 0,
            _ => 1,
        }
    }

    /// The element with the given index.
    pub fn nth(&self, i: usize) -> (r: Node<'a>)
        requires
            i < self.elements().len(),
        ensures
            r == self.elements()[i as int],
    {
        match self {
            Node::List(items) => *items.at(i),
            Node::BracketedList(list) => *list.1.at(i),
            _ => *self,
        }
    }

    pub fn as_visibility(&self) -> (r: Option<Visibility>)
        ensures
            r == visibility_of(self.spec_token_kind()),
    {
        match self.token_kind() {
            Some(TokenKind::Private) => Some(Visibility::Private),
            Some(TokenKind::Protected) => Some(Visibility::Protected),
            Some(TokenKind::Public) => Some(Visibility::Public),
            _ => None,
        }
    }

    /// If this node is a simple unqualified identifier, its position and text.
    pub fn as_id(&self) -> (r: Option<Id<'a>>)
        ensures
            r == self.spec_as_id(),
    {
        match self {
            Node::Name(of) => Some(Id(of.1, of.0)),
            Node::XhpName(of) => Some(Id(of.1, of.0)),
            _ => None,
        }
    }

    /// If this node is a variable, its position and text. A plain name counts
    /// too: its dollar sign may have been forgotten.
    pub fn as_variable(&self) -> (r: Option<Id<'a>>)
        ensures
            r == self.spec_as_variable(),
    {
        match self {
            Node::Variable(of) => Some(Id(of.1, of.0)),
            Node::Name(of) => Some(Id(of.1, of.0)),
            _ => None,
        }
    }

    pub fn is_ignored(&self) -> (r: bool)
        ensures
            r == (self is Ignored),
    {
        matches!(self, Node::Ignored(..))
    }

    pub fn is_present(&self) -> (r: bool)
        ensures
            r == !(self is Ignored),
    {
        !self.is_ignored()
    }

    /// Whether an element of this node is a token of the given kind.
    pub open spec fn spec_holds_token(self, kind: TokenKind) -> bool {
        exists|i: int|
            0 <= i < self.elements().len() && (#[trigger] self.elements()[i]).spec_is_token(kind)
    }

    pub fn holds_token(self, kind: TokenKind) -> (r: bool)
        ensures
            r == self.spec_holds_token(kind),
    {
        let len = self.len();
        let mut i: usize = 0;
        while i < len
            invariant
                len == self.elements().len(),
                i <= len,
                forall|j: int|
                    0 <= j < i ==> !(#[trigger] self.elements()[j]).spec_is_token(kind),
            decreases len - i,
        {
            if self.nth(i).is_token(kind) {
                assert(self.elements()[i as int].spec_is_token(kind));
                return true;
            }
            i = i + 1;
        }
        false
    }
}

/// A node that is not a list has at most one element, itself.
pub proof fn law_elements_of_a_plain_node<'a>(node: Node<'a>)
    requires
        !(node is List),
        !(node is BracketedList),
    ensures
        node is Ignored ==> node.elements() == Seq::<Node<'a>>::empty(),
        !(node is Ignored) ==> node.elements() == seq![node],
{
}

/// What the modifiers of a member say.
#[derive(Copy, Clone, PartialEq, Eq, Structural, Debug)]
pub struct Modifiers {
    pub is_static: bool,
    pub visibility: Visibility,
    pub is_abstract: bool,
    pub is_final: bool,
    pub is_readonly: bool,
}

/// The modifiers with one more that stands behind them.
pub open spec fn modified(modifiers: Modifiers, kind: Option<TokenKind>) -> Modifiers {
    Modifiers {
        is_static: modifiers.is_static || kind == Some(TokenKind::Static),
        visibility: match visibility_of(kind) {
            Some(visibility) => visibility,
            None => modifiers.visibility,
        },
        is_abstract: modifiers.is_abstract || kind == Some(TokenKind::Abstract),
        is_final: modifiers.is_final || kind == Some(TokenKind::Final),
        is_readonly: modifiers.is_readonly || kind == Some(TokenKind::Readonly),
    }
}

/// What a sequence of modifiers says. Without a visibility a member is public;
/// with several of them the last one counts.
pub open spec fn member_modifiers<'a>(nodes: Seq<Node<'a>>) -> Modifiers
    decreases nodes.len(),
{
    if nodes.len() == 0 {
        Modifiers {
            is_static: false,
            visibility: Visibility::Public,
            is_abstract: false,
            is_final: false,
            is_readonly: false,
        }
    } else {
        modified(member_modifiers(nodes.drop_last()), nodes.last().spec_token_kind())
    }
}

pub fn read_member_modifiers<'a>(modifiers: Node<'a>) -> (r: Modifiers)
    ensures
        r == member_modifiers(modifiers.elements()),
{
    let mut ret = Modifiers {
        is_static: false,
        visibility: Visibility::Public,
        is_abstract: false,
        is_final: false,
        is_readonly: false,
    };
    let len = modifiers.len();
    let ghost nodes = modifiers.elements();
    let mut i: usize = 0;
    while i < len
        invariant
            nodes == modifiers.elements(),
            len == nodes.len(),
            i <= len,
            ret == member_modifiers(nodes.take(i as int)),
        decreases len - i,
    {
        let modifier = modifiers.nth(i);
        assert(nodes.take(i + 1).drop_last() =~= nodes.take(i as int));
        if let Some(visibility) = modifier.as_visibility() {
            ret.visibility = visibility;
        }
        match modifier.token_kind() {
            Some(TokenKind::Static) => ret.is_static = true,
            Some(TokenKind::Abstract) => ret.is_abstract = true,
            Some(TokenKind::Final) => ret.is_final = true,
            Some(TokenKind::Readonly) => ret.is_readonly = true,
            _ => {},
        }
        i = i + 1;
    }
    assert(nodes.take(i as int) =~= nodes);
    ret
}

/// The modifiers of a member are those that occur, in whatever order.
pub proof fn law_member_modifiers<'a>(nodes: Seq<Node<'a>>)
    ensures
        member_modifiers(nodes).is_static == exists|i: int|
            0 <= i < nodes.len() && (#[trigger] nodes[i]).spec_is_token(TokenKind::Static),
        member_modifiers(nodes).is_abstract == exists|i: int|
            0 <= i < nodes.len() && (#[trigger] nodes[i]).spec_is_token(TokenKind::Abstract),
        member_modifiers(nodes).is_final == exists|i: int|
            0 <= i < nodes.len() && (#[trigger] nodes[i]).spec_is_token(TokenKind::Final),
        member_modifiers(nodes).is_readonly == exists|i: int|
            0 <= i < nodes.len() && (#[trigger] nodes[i]).spec_is_token(TokenKind::Readonly),
    decreases nodes.len(),
{
    if nodes.len() > 0 {
        let rest = nodes.drop_last();
        law_member_modifiers(rest);
        assert(forall|i: int| 0 <= i < rest.len() ==> rest[i] == nodes[i]);
        assert(nodes.last() == nodes[nodes.len() - 1]);
        assert(member_modifiers(nodes) == modified(
            member_modifiers(rest),
            nodes.last().spec_token_kind(),
        ));
        let kinds = seq![
            TokenKind::Static,
            TokenKind::Abstract,
            TokenKind::Final,
            TokenKind::Readonly,
        ];
        assert forall|k: int| 0 <= k < 4 implies ((exists|i: int|
            0 <= i < nodes.len() && (#[trigger] nodes[i]).spec_is_token(#[trigger] kinds[k])) == ((
        exists|i: int| 0 <= i < rest.len() && (#[trigger] rest[i]).spec_is_token(kinds[k]))
            || nodes.last().spec_is_token(kinds[k]))) by {
            if exists|i: int| 0 <= i < nodes.len() && (#[trigger] nodes[i]).spec_is_token(kinds[k]) {
                let i = choose|i: int|
                    0 <= i < nodes.len() && (#[trigger] nodes[i]).spec_is_token(kinds[k]);
                if i < rest.len() {
                    assert(rest[i].spec_is_token(kinds[k]));
                }
            }
            if exists|i: int| 0 <= i < rest.len() && (#[trigger] rest[i]).spec_is_token(kinds[k]) {
                let i = choose|i: int|
                    0 <= i < rest.len() && (#[trigger] rest[i]).spec_is_token(kinds[k]);
                assert(nodes[i].spec_is_token(kinds[k]));
            }
        }
        assert(kinds[0] == TokenKind::Static && kinds[1] == TokenKind::Abstract && kinds[2]
            == TokenKind::Final && kinds[3] == TokenKind::Readonly);
    }
}

/// Each of the three keywords of visibility stands for the visibility of its
/// own name, and no other token for any.
pub proof fn law_visibility_keywords(kind: Option<TokenKind>)
    ensures
        visibility_of(kind) == Some(Visibility::Private) <==> kind == Some(TokenKind::Private),
        visibility_of(kind) == Some(Visibility::Protected) <==> kind == Some(TokenKind::Protected),
        visibility_of(kind) == Some(Visibility::Public) <==> kind == Some(TokenKind::Public),
        visibility_of(kind) is Some <==> (kind == Some(TokenKind::Private) || kind == Some(
            TokenKind::Protected,
        ) || kind == Some(TokenKind::Public)),
{
}

/// Whether a node is one of the keywords of visibility.
pub open spec fn is_visibility_keyword<'a>(node: Node<'a>) -> bool {
    node.spec_is_token(TokenKind::Private) || node.spec_is_token(TokenKind::Protected)
        || node.spec_is_token(TokenKind::Public)
}

/// The last keyword of visibility makes the visibility of a member. Without one
/// a member is public.
pub proof fn law_last_visibility_counts<'a>(nodes: Seq<Node<'a>>, i: int)
    requires
        -1 <= i < nodes.len(),
        i >= 0 ==> is_visibility_keyword(nodes[i]),
        forall|j: int| i < j < nodes.len() ==> !is_visibility_keyword(#[trigger] nodes[j]),
    ensures
        i < 0 ==> member_modifiers(nodes).visibility == Visibility::Public,
        i >= 0 ==> {
            let read = member_modifiers(nodes).visibility;
            &&& read == Visibility::Private <==> nodes[i].spec_is_token(TokenKind::Private)
            &&& read == Visibility::Protected <==> nodes[i].spec_is_token(TokenKind::Protected)
            &&& read == Visibility::Public <==> nodes[i].spec_is_token(TokenKind::Public)
        },
    decreases nodes.len(),
{
    if nodes.len() > 0 && i < nodes.len() - 1 {
        let rest = nodes.drop_last();
        assert forall|j: int| i < j < rest.len() implies !is_visibility_keyword(
            #[trigger] rest[j],
        ) by {
            assert(rest[j] == nodes[j]);
        }
        law_last_visibility_counts(rest, i);
        assert(!is_visibility_keyword(nodes[nodes.len() - 1]));
    }
}

/// The elements of a list, in brackets or not, are what was put into it.
pub proof fn law_elements_of_a_list<'a>(
    items: &'a Items<'a, Node<'a>>,
    list: &'a (&'a Pos<'a>, Items<'a, Node<'a>>, &'a Pos<'a>),
)
    ensures
        Node::List(items).elements() == items@,
        Node::BracketedList(list).elements() == list.1@,
{
}

/// Names of both forms are identifiers; variables and plain names can be
/// variables. Each keeps its text and its position, and nothing else is either.
pub proof fn law_identifiers<'a>(node: Node<'a>)
    ensures
        node.spec_as_id() is Some <==> node is Name || node is XhpName,
        node.spec_as_variable() is Some <==> node is Variable || node is Name,
        node matches Node::Name(of) ==> node.spec_as_id() == Some(Id(of.1, of.0))
            && node.spec_as_variable() == node.spec_as_id(),
        node matches Node::XhpName(of) ==> node.spec_as_id() == Some(Id(of.1, of.0)),
        node matches Node::Variable(of) ==> node.spec_as_variable() == Some(Id(of.1, of.0)),
{
}

/// A token is a token of its own kind and of no other; what is not a token is
/// of none.
pub proof fn law_kind_of_a_token<'a>(token: FixedWidthToken, node: Node<'a>, kind: TokenKind)
    ensures
        Node::<'a>::Token(token).spec_is_token(kind) <==> token.spec_kind() == kind,
        Node::<'a>::Token(token).spec_token_kind() == Some(token.spec_kind()),
        node.spec_is_token(kind) ==> node is Token && node.spec_token_kind() == Some(kind),
        !(node is Token) ==> node.spec_token_kind() is None,
{
}

/// What the parser asks about a node is answered by what the node has been read
/// as, or by the kind under which it is ignored.
pub proof fn law_questions_of_the_parser<'a>(
    node: &Node<'a>,
    is_abstract: bool,
    is_name: bool,
    is_qualified_name: bool,
    is_missing: bool,
)
    requires
        call_ensures(Node::<'a>::is_abstract, (node,), is_abstract),
        call_ensures(Node::<'a>::is_name, (node,), is_name),
        call_ensures(Node::<'a>::is_qualified_name, (node,), is_qualified_name),
        call_ensures(Node::<'a>::is_missing, (node,), is_missing),
    ensures
        is_abstract <==> node.spec_is_token(TokenKind::Abstract) || *node == Node::<'a>::Ignored(
            SyntaxKind::Token(TokenKind::Abstract),
        ),
        is_name <==> node is Name || *node == Node::<'a>::Ignored(
            SyntaxKind::Token(TokenKind::Name),
        ),
        is_qualified_name <==> node is QualifiedName || *node == Node::<'a>::Ignored(
            SyntaxKind::QualifiedName,
        ),
        is_missing <==> *node == Node::<'a>::Ignored(SyntaxKind::Missing),
{
}

/// What the parser asks about an expression is answered by its form, or by the
/// kind under which it is ignored; most expressions are always ignored.
pub proof fn law_questions_about_expressions<'a>(
    node: &Node<'a>,
    is_prefix_unary: bool,
    is_scope_resolution: bool,
    is_variable: bool,
    is_subscript: bool,
    is_member_selection: bool,
    is_object_creation: bool,
    is_safe_member_selection: bool,
    is_function_call: bool,
    is_list: bool,
)
    requires
        call_ensures(Node::<'a>::is_prefix_unary_expression, (node,), is_prefix_unary),
        call_ensures(Node::<'a>::is_scope_resolution_expression, (node,), is_scope_resolution),
        call_ensures(Node::<'a>::is_variable_expression, (node,), is_variable),
        call_ensures(Node::<'a>::is_subscript_expression, (node,), is_subscript),
        call_ensures(Node::<'a>::is_member_selection_expression, (node,), is_member_selection),
        call_ensures(Node::<'a>::is_object_creation_expression, (node,), is_object_creation),
        call_ensures(
            Node::<'a>::is_safe_member_selection_expression,
            (node,),
            is_safe_member_selection,
        ),
        call_ensures(Node::<'a>::is_function_call_expression, (node,), is_function_call),
        call_ensures(Node::<'a>::is_list_expression, (node,), is_list),
    ensures
        is_prefix_unary <==> (node matches Node::Expr(expr) && expr.1 is Unop) || *node == Node::<
            'a,
        >::Ignored(SyntaxKind::PrefixUnaryExpression),
        is_scope_resolution <==> (node matches Node::Expr(expr) && expr.1 is ClassConst) || *node
            == Node::<'a>::Ignored(SyntaxKind::ScopeResolutionExpression),
        is_variable <==> *node == Node::<'a>::Ignored(SyntaxKind::VariableExpression),
        is_subscript <==> *node == Node::<'a>::Ignored(SyntaxKind::SubscriptExpression),
        is_member_selection <==> *node == Node::<'a>::Ignored(
            SyntaxKind::MemberSelectionExpression,
        ),
        is_object_creation <==> *node == Node::<'a>::Ignored(SyntaxKind::ObjectCreationExpression),
        is_safe_member_selection <==> *node == Node::<'a>::Ignored(
            SyntaxKind::SafeMemberSelectionExpression,
        ),
        is_function_call <==> *node == Node::<'a>::Ignored(SyntaxKind::FunctionCallExpression),
        is_list <==> *node == Node::<'a>::Ignored(SyntaxKind::ListExpression),
{
}

} // verus!
