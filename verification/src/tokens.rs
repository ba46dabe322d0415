//! Tokens and lists: what the parser hands over piece by piece.

use crate::arena::{lemma_items_of, lemma_slice_of, slice_of, Items};
use crate::classish::ClassishNameBuilder;
use crate::hints::{hinted, plain_apply};
use crate::host::{ask_name_opt, named, unquote, unquoted, Answer, Query};
use crate::node::Node;
use crate::parser::{DirectDeclSmartConstructors, SourceTextAllocator};
use crate::source::Pos;
use crate::syntax::Tprim;
use crate::text::{begins_with, BACKSLASH, COLON};
use crate::token::{
    law_packed_token_is_its_parts, CompactToken, FixedWidthToken, SyntaxKind, TokenKind,
    MAX_OFFSET,
};
use crate::types::{Reason, Ty_};
use crate::encoding::decoded;
use vstd::prelude::*;

verus! {

broadcast use {lemma_items_of, lemma_slice_of};

/// Whether tokens of a kind are kept as they are: what they mean shows only in
/// the syntax around them.
pub open spec fn is_kept(kind: TokenKind) -> bool {
    match kind {
        TokenKind::NullLiteral
        | TokenKind::Darray
        | TokenKind::Varray
        | TokenKind::Backslash
        | TokenKind::Construct
        | TokenKind::LeftParen
        | TokenKind::RightParen
        | TokenKind::LeftBracket
        | TokenKind::RightBracket
        | TokenKind::Shape
        | TokenKind::Question
        | TokenKind::This
        | TokenKind::Tilde
        | TokenKind::Exclamation
        | TokenKind::Plus
        | TokenKind::Minus
        | TokenKind::PlusPlus
        | TokenKind::MinusMinus
        | TokenKind::At
        | TokenKind::Star
        | TokenKind::Slash
        | TokenKind::EqualEqual
        | TokenKind::EqualEqualEqual
        | TokenKind::StarStar
        | TokenKind::AmpersandAmpersand
        | TokenKind::BarBar
        | TokenKind::LessThan
        | TokenKind::LessThanEqual
        | TokenKind::GreaterThan
        | TokenKind::GreaterThanEqual
        | TokenKind::Dot
        | TokenKind::Ampersand
        | TokenKind::Bar
        | TokenKind::LessThanLessThan
        | TokenKind::GreaterThanGreaterThan
        | TokenKind::Percent
        | TokenKind::QuestionQuestion
        | TokenKind::Equal
        | TokenKind::Abstract
        | TokenKind::As
        | TokenKind::Super
        | TokenKind::Async
        | TokenKind::DotDotDot
        | TokenKind::Extends
        | TokenKind::Final
        | TokenKind::Implements
        | TokenKind::Inout
        | TokenKind::Interface
        | TokenKind::Newctx
        | TokenKind::Newtype
        | TokenKind::Type
        | TokenKind::Yield
        | TokenKind::Semicolon
        | TokenKind::Private
        | TokenKind::Protected
        | TokenKind::Public
        | TokenKind::Reify
        | TokenKind::Static
        | TokenKind::Trait
        | TokenKind::Lateinit
        | TokenKind::RecordDec
        | TokenKind::RightBrace
        | TokenKind::Enum
        | TokenKind::Const
        | TokenKind::Function
        | TokenKind::Namespace
        | TokenKind::XHP
        | TokenKind::Required
        | TokenKind::Ctx
        | TokenKind::Readonly => true,
        _ => false,
    }
}

/// Whether tokens of a kind are kept as they are.
pub fn keeps_token(kind: TokenKind) -> (r: bool)
    ensures
        r == is_kept(kind),
{
    match kind {
        TokenKind::NullLiteral
        | TokenKind::Darray
        | TokenKind::Varray
        | TokenKind::Backslash
        | TokenKind::Construct
        | TokenKind::LeftParen
        | TokenKind::RightParen
        | TokenKind::LeftBracket
        | TokenKind::RightBracket
        | TokenKind::Shape
        | TokenKind::Question
        | TokenKind::This
        | TokenKind::Tilde
        | TokenKind::Exclamation
        | TokenKind::Plus
        | TokenKind::Minus
        | TokenKind::PlusPlus
        | TokenKind::MinusMinus
        | TokenKind::At
        | TokenKind::Star
        | TokenKind::Slash
        | TokenKind::EqualEqual
        | TokenKind::EqualEqualEqual
        | TokenKind::StarStar
        | TokenKind::AmpersandAmpersand
        | TokenKind::BarBar
        | TokenKind::LessThan
        | TokenKind::LessThanEqual
        | TokenKind::GreaterThan
        | TokenKind::GreaterThanEqual
        | TokenKind::Dot
        | TokenKind::Ampersand
        | TokenKind::Bar
        | TokenKind::LessThanLessThan
        | TokenKind::GreaterThanGreaterThan
        | TokenKind::Percent
        | TokenKind::QuestionQuestion
        | TokenKind::Equal
        | TokenKind::Abstract
        | TokenKind::As
        | TokenKind::Super
        | TokenKind::Async
        | TokenKind::DotDotDot
        | TokenKind::Extends
        | TokenKind::Final
        | TokenKind::Implements
        | TokenKind::Inout
        | TokenKind::Interface
        | TokenKind::Newctx
        | TokenKind::Newtype
        | TokenKind::Type
        | TokenKind::Yield
        | TokenKind::Semicolon
        | TokenKind::Private
        | TokenKind::Protected
        | TokenKind::Public
        | TokenKind::Reify
        | TokenKind::Static
        | TokenKind::Trait
        | TokenKind::Lateinit
        | TokenKind::RecordDec
        | TokenKind::RightBrace
        | TokenKind::Enum
        | TokenKind::Const
        | TokenKind::Function
        | TokenKind::Namespace
        | TokenKind::XHP
        | TokenKind::Required
        | TokenKind::Ctx
        | TokenKind::Readonly => true,
        _ => false,
    }
}

/// The primitive type that a keyword stands for.
pub open spec fn prim_of(kind: TokenKind) -> Option<Tprim> {
    match kind {
        TokenKind::String => Some(Tprim::Tstring),
        TokenKind::Int => Some(Tprim::Tint),
        TokenKind::Float => Some(Tprim::Tfloat),
        TokenKind::Num => Some(Tprim::Tnum),
        TokenKind::Bool => Some(Tprim::Tbool),
        TokenKind::Void => Some(Tprim::Tvoid),
        TokenKind::Arraykey => Some(Tprim::Tarraykey),
        TokenKind::Noreturn => Some(Tprim::Tnoreturn),
        TokenKind::Resource => Some(Tprim::Tresource),
        _ => None,
    }
}

/// Whether tokens of a kind are read as names. A few keywords are: the text of
/// some types is needed in any case.
pub open spec fn is_name_like(kind: TokenKind) -> bool {
    match kind {
        TokenKind::Name
        | TokenKind::Class
        | TokenKind::Vec
        | TokenKind::Dict
        | TokenKind::Keyset
        | TokenKind::Tuple
        | TokenKind::Classname
        | TokenKind::SelfToken => true,
        _ => false,
    }
}

pub open spec fn is_quoted(kind: TokenKind) -> bool {
    match kind {
        TokenKind::SingleQuotedStringLiteral
        | TokenKind::DoubleQuotedStringLiteral
        | TokenKind::HeredocStringLiteral
        | TokenKind::NowdocStringLiteral => true,
        _ => false,
    }
}

pub open spec fn is_integer_literal(kind: TokenKind) -> bool {
    match kind {
        TokenKind::DecimalLiteral
        | TokenKind::OctalLiteral
        | TokenKind::HexadecimalLiteral
        | TokenKind::BinaryLiteral => true,
        _ => false,
    }
}

/// Whether a keyword begins the declaration of a class.
pub open spec fn begins_class(kind: TokenKind) -> bool {
    kind == TokenKind::Class || kind == TokenKind::Trait || kind == TokenKind::Interface
}

/// Every kind of token that is kept has a width of its own.
proof fn lemma_kept_tokens_have_a_width(kind: TokenKind)
    requires
        is_kept(kind),
    ensures
        kind.width() is Some,
{
}

/// The first token of the given kind in a sequence.
pub open spec fn first_token<'a>(nodes: Seq<Node<'a>>, kind: TokenKind) -> Option<Node<'a>>
    decreases nodes.len(),
{
    if nodes.len() == 0 {
        None
    } else if nodes[0].spec_is_token(kind) {
        Some(nodes[0])
    } else {
        first_token(nodes.drop_first(), kind)
    }
}

/// The first token of the given kind among the elements of nodes.
pub open spec fn first_token_within<'a>(nodes: Seq<Node<'a>>, kind: TokenKind) -> Option<Node<'a>>
    decreases nodes.len(),
{
    if nodes.len() == 0 {
        None
    } else {
        match first_token(nodes[0].elements(), kind) {
            Some(token) => Some(token),
            None => first_token_within(nodes.drop_first(), kind),
        }
    }
}

/// The nodes that are not ignored.
pub open spec fn present<'a>(nodes: Seq<Node<'a>>) -> Seq<Node<'a>>
    decreases nodes.len(),
{
    if nodes.len() == 0 {
        Seq::<Node<'a>>::empty()
    } else if nodes.last() is Ignored {
        present(nodes.drop_last())
    } else {
        present(nodes.drop_last()).push(nodes.last())
    }
}

/// The list of nodes that the parser has read. A `yield` in it takes the place
/// of everything else, so that the function around it is known to be a
/// generator.
pub open spec fn list_of<'a>(nodes: Seq<Node<'a>>) -> Node<'a> {
    match first_token_within(nodes, TokenKind::Yield) {
        Some(token) => token,
        None => if present(nodes).len() == 0 {
            Node::Ignored(SyntaxKind::SyntaxList)
        } else {
            Node::List(&Items::of(present(nodes)))
        },
    }
}

/// Whether a node says nothing to the nodes around it.
pub open spec fn zero_node<'a>(node: Node<'a>) -> bool
    decreases node, 0int,
{
    match node {
        Node::Token(token) => !(token.spec_kind() == TokenKind::Yield || token.spec_kind()
            == TokenKind::Required || token.spec_kind() == TokenKind::Lateinit),
        Node::List(inner) => zero_nodes(*inner, inner@.len() as int),
        _ => true,
    }
}

/// Whether the first `n` nodes of a list say nothing.
pub open spec fn zero_nodes<'a>(nodes: Items<'a, Node<'a>>, n: int) -> bool
    decreases nodes, n,
{
    if 0 < n <= nodes@.len() {
        proof {
            Items::lemma_decreases(nodes, n - 1);
        }
        zero_nodes(nodes, n - 1) && zero_node(nodes@[n - 1])
    } else {
        true
    }
}

/// What is left of nodes that no rule of their own takes apart: lists are
/// opened, and nodes that say nothing are dropped.
pub open spec fn flattened<'a>(nodes: Seq<Node<'a>>) -> Seq<Node<'a>>
    decreases nodes.len(),
{
    if nodes.len() == 0 {
        Seq::<Node<'a>>::empty()
    } else {
        let before = flattened(nodes.drop_last());
        match nodes.last() {
            Node::List(children) => before + children@,
            node => if zero_node(node) {
                before
            } else {
                before.push(node)
            },
        }
    }
}

pub open spec fn flat_node<'a>(kind: SyntaxKind, nodes: Seq<Node<'a>>) -> Node<'a> {
    let flat = flattened(nodes);
    if flat.len() == 0 {
        Node::Ignored(kind)
    } else if flat.len() == 1 {
        flat[0]
    } else {
        Node::List(&Items::of(flat))
    }
}

fn find_token<'a>(node: Node<'a>, kind: TokenKind) -> (r: Option<Node<'a>>)
    ensures
        r == first_token(node.elements(), kind),
{
    let len = node.len();
    let ghost nodes = node.elements();
    let mut i: usize = 0;
    assert(nodes.skip(0) =~= nodes);
    while i < len
        invariant
            nodes == node.elements(),
            len == nodes.len(),
            i <= len,
            first_token(nodes, kind) == first_token(nodes.skip(i as int), kind),
        decreases len - i,
    {
        let item = node.nth(i);
        assert(nodes.skip(i as int)[0] == nodes[i as int]);
        assert(nodes.skip(i as int).drop_first() =~= nodes.skip(i + 1));
        if item.is_token(kind) {
            return Some(item);
        }
        i = i + 1;
    }
    None
}

pub fn is_zero<'a>(s: &Node<'a>) -> (r: bool)
    ensures
        r == zero_node(*s),
    decreases s, 0int,
{
    match s {
        Node::Token(token) => match token.kind() {
            TokenKind::Yield | TokenKind::Required | TokenKind::Lateinit => false,
            _ => true,
        },
        Node::List(inner) => all_zero(**inner),
        _ => true,
    }
}

fn all_zero<'a>(nodes: Items<'a, Node<'a>>) -> (r: bool)
    ensures
        r == zero_nodes(nodes, nodes@.len() as int),
    decreases nodes, nodes@.len(),
{
    let mut all = true;
    let mut i: usize = 0;
    while i < nodes.len()
        invariant
            i <= nodes@.len(),
            all == zero_nodes(nodes, i as int),
        decreases nodes@.len() - i,
    {
        proof {
            Items::lemma_decreases(nodes, i as int);
        }
        all = all && is_zero(nodes.at(i));
        i = i + 1;
    }
    all
}

pub fn zero<'a>(kind: SyntaxKind) -> (r: Node<'a>)
    ensures
        r == Node::<'a>::Ignored(kind),
{
    Node::Ignored(kind)
}

/// The text of a node that stands for a token as it was written.
pub open spec fn text_of<'a>(node: Node<'a>) -> Option<&'a [u8]> {
    match node {
        Node::Name(of) => Some(of.0),
        Node::XhpName(of) => Some(of.0),
        Node::Variable(of) => Some(of.0),
        Node::IntLiteral(of) => Some(of.0),
        Node::FloatingLiteral(of) => Some(of.0),
        Node::BooleanLiteral(of) => Some(of.0),
        _ => None,
    }
}

impl<
    'a,
    'text,
    S: SourceTextAllocator<'text, 'a>,
    H: Fn(Query<'a, 'text>) -> Answer<'a, 'text>,
> DirectDeclSmartConstructors<'a, 'text, S, H> {
    pub fn flatten(&self, kind: SyntaxKind, lst: Vec<Node<'a>>) -> (r: Node<'a>)
        ensures
            r == flat_node(kind, lst@),
    {
        let mut flat: Vec<Node<'a>> = Vec::new();
        let mut i: usize = 0;
        assert(lst@.take(0) =~= Seq::<Node<'a>>::empty());
        while i < lst.len()
            invariant
                i <= lst@.len(),
                flat@ == flattened(lst@.take(i as int)),
            decreases lst@.len() - i,
        {
            let ghost before = flat@;
            assert(lst@.take(i + 1).drop_last() =~= lst@.take(i as int));
            match lst[i] {
                Node::List(children) => {
                    let mut j: usize = 0;
                    while j < children.len()
                        invariant
                            j <= children@.len(),
                            flat@ == before + children@.take(j as int),
                        decreases children@.len() - j,
                    {
                        flat.push(*children.at(j));
                        assert(flat@ =~= before + children@.take(j + 1));
                        j = j + 1;
                    }
                    assert(children@.take(j as int) =~= children@);
                },
                node => {
                    if !is_zero(&node) {
                        flat.push(node);
                    }
                },
            }
            i = i + 1;
        }
        assert(lst@.take(i as int) =~= lst@);
        if flat.len() == 0 {
            Node::Ignored(kind)
        } else if flat.len() == 1 {
            flat[0]
        } else {
            Node::List(self.allocate(Items::copied(self.arena, flat.as_slice())))
        }
    }

    pub open spec fn spec_compact_pos(&self, token: CompactToken) -> Pos<'a> {
        Pos::At(
            self.filename,
            self.source_text.file_pos(token.start_offset),
            self.source_text.file_pos(token.spec_end()),
        )
    }

    /// What a token is read as.
    pub open spec fn spec_make_token(&self, token: CompactToken) -> Node<'a> {
        let kind = token.kind;
        let text = self.spec_text(self.spec_token_bytes(token));
        let pos = &self.spec_compact_pos(token);
        if is_name_like(kind) {
            Node::Name(&(text, pos))
        } else if kind == TokenKind::XHPClassName || kind == TokenKind::XHPElementName {
            Node::XhpName(&(text, pos))
        } else if kind == TokenKind::Variable {
            Node::Variable(&(text, pos))
        } else if is_quoted(kind) {
            let inner = unquoted(self.host, slice_of(self.spec_token_bytes(token)));
            match named(self.host, Query::Unescape(kind, self.spec_text(inner@))) {
                Some(value) => Node::StringLiteral(&(value, pos)),
                None => Node::Ignored(SyntaxKind::Token(kind)),
            }
        } else if is_integer_literal(kind) {
            Node::IntLiteral(&(text, pos))
        } else if kind == TokenKind::FloatingLiteral {
            Node::FloatingLiteral(&(text, pos))
        } else if kind == TokenKind::BooleanLiteral {
            Node::BooleanLiteral(&(text, pos))
        } else if prim_of(kind) is Some {
            Node::Ty(&hinted(pos, Ty_::Tprim(prim_of(kind)->Some_0)))
        } else if kind == TokenKind::Double || kind == TokenKind::Boolean {
            // These are errors for `float` and `bool`. They are read as the
            // names of classes.
            Node::Ty(&hinted(pos, plain_apply((pos, text))))
        } else if kind == TokenKind::Mixed {
            Node::Ty(&hinted(pos, Ty_::Tmixed))
        } else if is_kept(kind) {
            Node::Token(FixedWidthToken::of(kind, token.start_offset))
        } else {
            Node::Ignored(SyntaxKind::Token(kind))
        }
    }

    /// The position that stands for the name of a class. Traits are not types:
    /// behind their keyword it is no position, so that `self` in a trait keeps
    /// its own.
    pub open spec fn spec_classish_pos(&self, token: CompactToken) -> Pos<'a> {
        if self.previous_token_kind == TokenKind::Trait {
            Pos::NoPos
        } else {
            self.spec_compact_pos(token)
        }
    }

    /// What is known of the current class after a token. A name behind the
    /// keyword of a class declaration is that of the class.
    pub open spec fn spec_classish_after(&self, token: CompactToken) -> ClassishNameBuilder<'a> {
        if (token.kind == TokenKind::Name || token.kind == TokenKind::XHPClassName) && begins_class(
            self.previous_token_kind,
        ) {
            let name = self.spec_elaborate_defined_id(self.spec_make_token(token))->Some_0;
            self.classish_name_builder.named(
                name.1,
                &self.spec_classish_pos(token),
                self.previous_token_kind,
            )
        } else {
            self.classish_name_builder
        }
    }

    fn compact_pos(&self, token: &CompactToken) -> (r: &'a Pos<'a>)
        requires
            self.wf(),
            token.start_offset + token.width <= usize::MAX,
        ensures
            *r == self.spec_compact_pos(*token),
    {
        let start = self.source_text.offset_to_file_pos_triple(token.start_offset);
        let end = self.source_text.offset_to_file_pos_triple(token.end_offset());
        Pos::from_lnum_bol_cnum(self.arena, self.filename, start, end)
    }

    fn token_text(&self, token: &CompactToken) -> (r: &'a [u8])
        ensures
            r == self.spec_text(self.spec_token_bytes(*token)),
            r@ == decoded(self.spec_token_bytes(*token)),
    {
        self.str_from_utf8(self.token_bytes(token))
    }

    fn string_literal(&self, token: &CompactToken) -> (r: Node<'a>)
        requires
            self.wf(),
            is_quoted(token.kind),
            token.start_offset + token.width <= usize::MAX,
        ensures
            r == self.spec_make_token(*token),
    {
        let bytes = self.token_bytes(token);
        assert(slice_of(bytes@) == bytes);
        let inner = self.str_from_utf8(unquote(&self.host, bytes));
        match ask_name_opt(&self.host, Query::Unescape(token.kind, inner)) {
            Some(value) => Node::StringLiteral(self.allocate((value, self.compact_pos(token)))),
            None => Node::Ignored(SyntaxKind::Token(token.kind)),
        }
    }

    pub fn make_token(&mut self, token: CompactToken) -> (r: Node<'a>)
        requires
            old(self).wf(),
            token.start_offset + token.width <= usize::MAX,
            is_kept(token.kind) ==> token.start_offset <= MAX_OFFSET && token.start_offset
                + token.kind.width()->Some_0 <= usize::MAX,
        ensures
            final(self).wf(),
            r == old(self).spec_make_token(token),
            text_of(r) matches Some(text) ==> text@ == decoded(old(self).spec_token_bytes(token)),
            *final(self) == (DirectDeclSmartConstructors {
                previous_token_kind: token.kind,
                classish_name_builder: old(self).spec_classish_after(token),
                ..*old(self)
            }),
    {
        let kind = token.kind;
        let result = match kind {
            TokenKind::Name | TokenKind::XHPClassName => {
                let text = self.token_text(&token);
                let pos = self.compact_pos(&token);
                let name = if kind == TokenKind::XHPClassName {
                    Node::XhpName(self.allocate((text, pos)))
                } else {
                    Node::Name(self.allocate((text, pos)))
                };
                let previous = self.previous_token_kind;
                if previous == TokenKind::Class || previous == TokenKind::Trait || previous
                    == TokenKind::Interface {
                    if let Some(current_class_name) = self.elaborate_defined_id(name) {
                        let class_pos = if previous == TokenKind::Trait {
                            Pos::none()
                        } else {
                            pos
                        };
                        self.classish_name_builder.lexed_name_after_classish_keyword(
                            self.arena,
                            current_class_name.1,
                            class_pos,
                            previous,
                        );
                    }
                }
                name
            },
            TokenKind::Class
            | TokenKind::Vec
            | TokenKind::Dict
            | TokenKind::Keyset
            | TokenKind::Tuple
            | TokenKind::Classname
            | TokenKind::SelfToken => {
                let text = self.token_text(&token);
                Node::Name(self.allocate((text, self.compact_pos(&token))))
            },
            TokenKind::XHPElementName => {
                let text = self.token_text(&token);
                Node::XhpName(self.allocate((text, self.compact_pos(&token))))
            },
            TokenKind::Variable => {
                let text = self.token_text(&token);
                Node::Variable(self.allocate((text, self.compact_pos(&token))))
            },
            TokenKind::SingleQuotedStringLiteral
            | TokenKind::DoubleQuotedStringLiteral
            | TokenKind::HeredocStringLiteral
            | TokenKind::NowdocStringLiteral => self.string_literal(&token),
            TokenKind::DecimalLiteral
            | TokenKind::OctalLiteral
            | TokenKind::HexadecimalLiteral
            | TokenKind::BinaryLiteral => {
                let text = self.token_text(&token);
                Node::IntLiteral(self.allocate((text, self.compact_pos(&token))))
            },
            TokenKind::FloatingLiteral => {
                let text = self.token_text(&token);
                Node::FloatingLiteral(self.allocate((text, self.compact_pos(&token))))
            },
            TokenKind::BooleanLiteral => {
                let text = self.token_text(&token);
                Node::BooleanLiteral(self.allocate((text, self.compact_pos(&token))))
            },
            TokenKind::String => self.prim_ty(Tprim::Tstring, self.compact_pos(&token)),
            TokenKind::Int => self.prim_ty(Tprim::Tint, self.compact_pos(&token)),
            TokenKind::Float => self.prim_ty(Tprim::Tfloat, self.compact_pos(&token)),
            TokenKind::Double | TokenKind::Boolean => {
                let pos = self.compact_pos(&token);
                let text = self.token_text(&token);
                self.hint_ty(pos, self.apply_plain((pos, text)))
            },
            TokenKind::Num => self.prim_ty(Tprim::Tnum, self.compact_pos(&token)),
            TokenKind::Bool => self.prim_ty(Tprim::Tbool, self.compact_pos(&token)),
            TokenKind::Mixed => self.hint_ty(self.compact_pos(&token), Ty_::Tmixed),
            TokenKind::Void => self.prim_ty(Tprim::Tvoid, self.compact_pos(&token)),
            TokenKind::Arraykey => self.prim_ty(Tprim::Tarraykey, self.compact_pos(&token)),
            TokenKind::Noreturn => self.prim_ty(Tprim::Tnoreturn, self.compact_pos(&token)),
            TokenKind::Resource => self.prim_ty(Tprim::Tresource, self.compact_pos(&token)),
            _ => {
                if keeps_token(kind) {
                    proof {
                        lemma_kept_tokens_have_a_width(kind);
                    }
                    Node::Token(FixedWidthToken::new(kind, token.start_offset))
                } else {
                    Node::Ignored(SyntaxKind::Token(kind))
                }
            },
        };
        self.previous_token_kind = kind;
        result
    }

    pub fn make_missing(&self, _offset: usize) -> (r: Node<'a>)
        ensures
            r == Node::<'a>::Ignored(SyntaxKind::Missing),
    {
        Node::Ignored(SyntaxKind::Missing)
    }

    pub fn make_list(&self, items: Vec<Node<'a>>, _offset: usize) -> (r: Node<'a>)
        ensures
            r == list_of(items@),
    {
        let mut i: usize = 0;
        assert(items@.skip(0) =~= items@);
        while i < items.len()
            invariant
                i <= items@.len(),
                first_token_within(items@, TokenKind::Yield) == first_token_within(
                    items@.skip(i as int),
                    TokenKind::Yield,
                ),
            decreases items@.len() - i,
        {
            assert(items@.skip(i as int)[0] == items@[i as int]);
            assert(items@.skip(i as int).drop_first() =~= items@.skip(i + 1));
            if let Some(token) = find_token(items[i], TokenKind::Yield) {
                return token;
            }
            i = i + 1;
        }
        let mut kept: Vec<Node<'a>> = Vec::new();
        i = 0;
        assert(items@.take(0) =~= Seq::<Node<'a>>::empty());
        while i < items.len()
            invariant
                i <= items@.len(),
                kept@ == present(items@.take(i as int)),
            decreases items@.len() - i,
        {
            assert(items@.take(i + 1).drop_last() =~= items@.take(i as int));
            if items[i].is_present() {
                kept.push(items[i]);
            }
            i = i + 1;
        }
        assert(items@.take(i as int) =~= items@);
        if kept.len() == 0 {
            Node::Ignored(SyntaxKind::SyntaxList)
        } else {
            Node::List(self.allocate(Items::copied(self.arena, kept.as_slice())))
        }
    }
}

/// A `yield` anywhere among the elements of a list bubbles up.
pub proof fn law_yield_bubbles_up<'a>(nodes: Seq<Node<'a>>, i: int)
    requires
        0 <= i < nodes.len(),
        nodes[i].spec_holds_token(TokenKind::Yield),
    ensures
        list_of(nodes).spec_is_token(TokenKind::Yield),
    decreases nodes.len(),
{
    if i == 0 {
        let elements = nodes[0].elements();
        let j = choose|j: int|
            0 <= j < elements.len() && (#[trigger] elements[j]).spec_is_token(TokenKind::Yield);
        lemma_first_token(elements, TokenKind::Yield, j);
    } else {
        let rest = nodes.drop_first();
        assert(rest[i - 1] == nodes[i]);
        law_yield_bubbles_up(rest, i - 1);
        lemma_first_token_within(rest);
        match first_token(nodes[0].elements(), TokenKind::Yield) {
            Some(token) => lemma_first_token_kind(nodes[0].elements(), TokenKind::Yield),
            None => {},
        }
    }
}

proof fn lemma_first_token<'a>(nodes: Seq<Node<'a>>, kind: TokenKind, j: int)
    requires
        0 <= j < nodes.len(),
        nodes[j].spec_is_token(kind),
    ensures
        first_token(nodes, kind) matches Some(token) && token.spec_is_token(kind),
    decreases nodes.len(),
{
    if !nodes[0].spec_is_token(kind) {
        assert(nodes.drop_first()[j - 1] == nodes[j]);
        lemma_first_token(nodes.drop_first(), kind, j - 1);
    }
}

proof fn lemma_first_token_kind<'a>(nodes: Seq<Node<'a>>, kind: TokenKind)
    ensures
        first_token(nodes, kind) matches Some(token) ==> token.spec_is_token(kind),
    decreases nodes.len(),
{
    if nodes.len() > 0 {
        lemma_first_token_kind(nodes.drop_first(), kind);
    }
}

/// A list that is a token holds that token.
proof fn lemma_first_token_within<'a>(nodes: Seq<Node<'a>>)
    requires
        list_of(nodes).spec_is_token(TokenKind::Yield),
    ensures
        first_token_within(nodes, TokenKind::Yield) matches Some(token) && token.spec_is_token(
            TokenKind::Yield,
        ),
{
}

/// Without a `yield` a list holds the nodes that are not ignored, in their
/// order, and no others.
pub proof fn law_list_without_yield<'a>(nodes: Seq<Node<'a>>)
    requires
        forall|i: int|
            0 <= i < nodes.len() ==> !(#[trigger] nodes[i]).spec_holds_token(TokenKind::Yield),
    ensures
        list_of(nodes).elements() == present(nodes),
        forall|x: Node<'a>| #[trigger]
            present(nodes).contains(x) <==> nodes.contains(x) && !(x is Ignored),
{
    lemma_no_token_within(nodes);
    lemma_present(nodes);
    assert(present(nodes).len() == 0 ==> present(nodes) =~= Seq::<Node<'a>>::empty());
}

proof fn lemma_no_token_within<'a>(nodes: Seq<Node<'a>>)
    requires
        forall|i: int|
            0 <= i < nodes.len() ==> !(#[trigger] nodes[i]).spec_holds_token(TokenKind::Yield),
    ensures
        first_token_within(nodes, TokenKind::Yield) is None,
    decreases nodes.len(),
{
    if nodes.len() > 0 {
        assert(!nodes[0].spec_holds_token(TokenKind::Yield));
        lemma_no_token(nodes[0].elements(), TokenKind::Yield);
        assert forall|i: int| 0 <= i < nodes.drop_first().len() implies !(
        #[trigger] nodes.drop_first()[i]).spec_holds_token(TokenKind::Yield) by {
            assert(nodes.drop_first()[i] == nodes[i + 1]);
        }
        lemma_no_token_within(nodes.drop_first());
    }
}

proof fn lemma_no_token<'a>(nodes: Seq<Node<'a>>, kind: TokenKind)
    requires
        forall|i: int| 0 <= i < nodes.len() ==> !(#[trigger] nodes[i]).spec_is_token(kind),
    ensures
        first_token(nodes, kind) is None,
    decreases nodes.len(),
{
    if nodes.len() > 0 {
        assert(!nodes[0].spec_is_token(kind));
        assert forall|i: int| 0 <= i < nodes.drop_first().len() implies !(
        #[trigger] nodes.drop_first()[i]).spec_is_token(kind) by {
            assert(nodes.drop_first()[i] == nodes[i + 1]);
        }
        lemma_no_token(nodes.drop_first(), kind);
    }
}

proof fn lemma_present<'a>(nodes: Seq<Node<'a>>)
    ensures
        forall|x: Node<'a>| #[trigger]
            present(nodes).contains(x) <==> nodes.contains(x) && !(x is Ignored),
    decreases nodes.len(),
{
    if nodes.len() > 0 {
        let rest = nodes.drop_last();
        lemma_present(rest);
        assert(nodes =~= rest.push(nodes.last()));
        assert forall|x: Node<'a>| #[trigger]
            present(nodes).contains(x) <==> nodes.contains(x) && !(x is Ignored) by {
            vstd::seq_lib::lemma_seq_contains_after_push(rest, nodes.last(), x);
            vstd::seq_lib::lemma_seq_contains_after_push(present(rest), nodes.last(), x);
        }
    }
}

/// A list says nothing exactly where none of its nodes does.
pub proof fn law_zero_list<'a>(nodes: Items<'a, Node<'a>>)
    ensures
        zero_node(Node::List(&nodes)) == (forall|i: int|
            0 <= i < nodes@.len() ==> zero_node(#[trigger] nodes@[i])),
{
    lemma_zero_nodes(nodes, nodes@.len() as int);
}

proof fn lemma_zero_nodes<'a>(nodes: Items<'a, Node<'a>>, n: int)
    requires
        0 <= n <= nodes@.len(),
    ensures
        zero_nodes(nodes, n) == (forall|i: int| 0 <= i < n ==> zero_node(#[trigger] nodes@[i])),
    decreases n,
{
    if n > 0 {
        lemma_zero_nodes(nodes, n - 1);
    }
}

/// Flattening loses nothing that matters: the nodes of lists are kept, and so
/// is every other node that says something to those around it.
pub proof fn law_flattening_keeps_what_matters<'a>(nodes: Seq<Node<'a>>, i: int)
    requires
        0 <= i < nodes.len(),
    ensures
        match nodes[i] {
            Node::List(children) => forall|j: int|
                0 <= j < children@.len() ==> flattened(nodes).contains(#[trigger] children@[j]),
            node => !zero_node(node) ==> flattened(nodes).contains(node),
        },
    decreases nodes.len(),
{
    let rest = nodes.drop_last();
    let before = flattened(rest);
    let after = flattened(nodes);
    assert(forall|j: int| 0 <= j < before.len() ==> after[j] == before[j]);
    if i < rest.len() {
        law_flattening_keeps_what_matters(rest, i);
        assert(rest[i] == nodes[i]);
        assert forall|x: Node<'a>| before.contains(x) implies #[trigger] after.contains(x) by {
            let j = choose|j: int| 0 <= j < before.len() && before[j] == x;
            assert(after[j] == x);
        }
    } else {
        match nodes[i] {
            Node::List(children) => {
                assert forall|j: int| 0 <= j < children@.len() implies after.contains(
                    #[trigger] children@[j],
                ) by {
                    assert(after[before.len() + j] == children@[j]);
                }
            },
            node => {
                if !zero_node(node) {
                    assert(after[before.len() as int] == node);
                }
            },
        }
    }
}

/// Whether a node is the primitive type, written at the given position.
pub open spec fn reads_as<'a>(node: Node<'a>, prim: Tprim, pos: Pos<'a>) -> bool {
    node matches Node::Ty(ty) && ty.1 == Ty_::<'a>::Tprim(prim) && ty.0 == &Reason::Rhint(&pos)
}

/// Whether a node is a primitive type.
pub open spec fn is_primitive<'a>(node: Node<'a>) -> bool {
    node matches Node::Ty(ty) && ty.1 is Tprim
}

/// The keywords that say how a declaration is meant.
pub open spec fn is_modifier_keyword(kind: TokenKind) -> bool {
    kind == TokenKind::Abstract || kind == TokenKind::Final || kind == TokenKind::Static || kind
        == TokenKind::Async || kind == TokenKind::Readonly || kind == TokenKind::Private || kind
        == TokenKind::Protected || kind == TokenKind::Public || kind == TokenKind::Reify || kind
        == TokenKind::Inout || kind == TokenKind::Lateinit || kind == TokenKind::Required || kind
        == TokenKind::Const || kind == TokenKind::XHP
}

/// The keywords that begin a declaration, a part of one or a special type.
pub open spec fn is_leading_keyword(kind: TokenKind) -> bool {
    kind == TokenKind::Interface || kind == TokenKind::Trait || kind == TokenKind::Enum || kind
        == TokenKind::Type || kind == TokenKind::Newtype || kind == TokenKind::Newctx || kind
        == TokenKind::Ctx || kind == TokenKind::Function || kind == TokenKind::Namespace || kind
        == TokenKind::RecordDec || kind == TokenKind::Extends || kind == TokenKind::Implements
        || kind == TokenKind::As || kind == TokenKind::Super || kind == TokenKind::Construct || kind
        == TokenKind::Yield || kind == TokenKind::Shape || kind == TokenKind::This || kind
        == TokenKind::Varray || kind == TokenKind::Darray || kind == TokenKind::NullLiteral
}

/// Brackets, operators and other marks.
pub open spec fn is_mark(kind: TokenKind) -> bool {
    kind == TokenKind::Backslash || kind == TokenKind::LeftParen || kind == TokenKind::RightParen
        || kind == TokenKind::LeftBracket || kind == TokenKind::RightBracket || kind
        == TokenKind::RightBrace || kind == TokenKind::Question || kind == TokenKind::Tilde || kind
        == TokenKind::Exclamation || kind == TokenKind::Plus || kind == TokenKind::Minus || kind
        == TokenKind::PlusPlus || kind == TokenKind::MinusMinus || kind == TokenKind::At || kind
        == TokenKind::Star || kind == TokenKind::Slash || kind == TokenKind::Equal || kind
        == TokenKind::EqualEqual || kind == TokenKind::EqualEqualEqual || kind
        == TokenKind::StarStar || kind == TokenKind::AmpersandAmpersand || kind
        == TokenKind::BarBar || kind == TokenKind::LessThan || kind == TokenKind::LessThanEqual
        || kind == TokenKind::GreaterThan || kind == TokenKind::GreaterThanEqual || kind
        == TokenKind::Dot || kind == TokenKind::DotDotDot || kind == TokenKind::Ampersand || kind
        == TokenKind::Bar || kind == TokenKind::LessThanLessThan || kind
        == TokenKind::GreaterThanGreaterThan || kind == TokenKind::Percent || kind
        == TokenKind::QuestionQuestion || kind == TokenKind::Semicolon
}

/// The nodes of a list that are not ignored keep their order.
pub proof fn law_present_nodes_in_order<'a>(nodes: Seq<Node<'a>>, node: Node<'a>)
    ensures
        present(Seq::<Node<'a>>::empty()).len() == 0,
        node is Ignored ==> present(nodes.push(node)) == present(nodes),
        !(node is Ignored) ==> present(nodes.push(node)) == present(nodes).push(node),
{
    assert(nodes.push(node).drop_last() =~= nodes);
}

/// Of the tokens only `yield` and the tags of XHP attributes say anything to the
/// nodes around them; other nodes that are not lists say nothing.
pub proof fn law_what_matters_around<'a>(node: Node<'a>)
    requires
        !(node is List),
    ensures
        zero_node(node) <==> !(node.spec_is_token(TokenKind::Yield) || node.spec_is_token(
            TokenKind::Required,
        ) || node.spec_is_token(TokenKind::Lateinit)),
{
}

/// Flattening opens a list, keeps a node that says something, drops any other,
/// and keeps the order.
pub proof fn law_flattening_in_order<'a>(nodes: Seq<Node<'a>>, node: Node<'a>)
    ensures
        flattened(Seq::<Node<'a>>::empty()).len() == 0,
        node matches Node::List(children) ==> flattened(nodes.push(node)) == flattened(nodes)
            + children@,
        !(node is List) && zero_node(node) ==> flattened(nodes.push(node)) == flattened(nodes),
        !(node is List) && !zero_node(node) ==> flattened(nodes.push(node)) == flattened(
            nodes,
        ).push(node),
{
    assert(nodes.push(node).drop_last() =~= nodes);
}

/// What is left of nodes is nothing, the one node that is left, or the list of
/// them.
pub proof fn law_what_is_left<'a>(kind: SyntaxKind, nodes: Seq<Node<'a>>)
    ensures
        flattened(nodes).len() == 0 ==> flat_node(kind, nodes) == Node::<'a>::Ignored(kind),
        flattened(nodes).len() == 1 ==> flat_node(kind, nodes) == flattened(nodes)[0],
        flattened(nodes).len() > 1 ==> (flat_node(kind, nodes) matches Node::List(items) && items@
            == flattened(nodes)),
{
}

impl<
    'a,
    'text,
    S: SourceTextAllocator<'text, 'a>,
    H: Fn(Query<'a, 'text>) -> Answer<'a, 'text>,
> DirectDeclSmartConstructors<'a, 'text, S, H> {
    /// Each keyword of a primitive type is read as the type of its own name,
    /// where it stands, and no other token is read as a primitive type.
    pub proof fn law_primitive_keywords(&self, token: CompactToken)
        ensures
            ({
                let node = self.spec_make_token(token);
                let pos = self.spec_compact_pos(token);
                &&& token.kind == TokenKind::String <==> reads_as(node, Tprim::Tstring, pos)
                &&& token.kind == TokenKind::Int <==> reads_as(node, Tprim::Tint, pos)
                &&& token.kind == TokenKind::Float <==> reads_as(node, Tprim::Tfloat, pos)
                &&& token.kind == TokenKind::Num <==> reads_as(node, Tprim::Tnum, pos)
                &&& token.kind == TokenKind::Bool <==> reads_as(node, Tprim::Tbool, pos)
                &&& token.kind == TokenKind::Void <==> reads_as(node, Tprim::Tvoid, pos)
                &&& token.kind == TokenKind::Arraykey <==> reads_as(node, Tprim::Tarraykey, pos)
                &&& token.kind == TokenKind::Noreturn <==> reads_as(node, Tprim::Tnoreturn, pos)
                &&& token.kind == TokenKind::Resource <==> reads_as(node, Tprim::Tresource, pos)
                &&& is_primitive(node) ==> !reads_as(node, Tprim::Tnull, pos)
            }),
    {
    }

    /// No two keywords are read as the same primitive type.
    pub proof fn law_primitive_keywords_differ(&self, token: CompactToken, other: CompactToken)
        requires
            is_primitive(self.spec_make_token(token)),
            is_primitive(self.spec_make_token(other)),
        ensures
            self.spec_make_token(token)->Ty_0.1 == self.spec_make_token(other)->Ty_0.1
                <==> token.kind == other.kind,
    {
    }

    /// `mixed` is read as the type of that name. The misspellings `double` and
    /// `boolean` are read as the names of classes.
    pub proof fn law_other_type_keywords(&self, token: CompactToken)
        ensures
            ({
                let node = self.spec_make_token(token);
                let pos = &self.spec_compact_pos(token);
                &&& token.kind == TokenKind::Mixed <==> (node matches Node::Ty(ty)
                    && ty.1 is Tmixed)
                &&& token.kind == TokenKind::Double || token.kind == TokenKind::Boolean <==> (
                node matches Node::Ty(ty) && ty.1 is Tapply)
                &&& node matches Node::Ty(ty) ==> ty.0 == &Reason::Rhint(pos) && (
                ty.1 matches Ty_::Tapply(of) ==> of.0.0 == pos && of.1@.len() == 0 && of.0.1
                    == slice_of::<'a>(decoded(self.spec_token_bytes(token))))
            }),
    {
    }

    /// Names, variables and literals keep their text and their position, each
    /// in the form of its own.
    pub proof fn law_tokens_with_a_text(&self, token: CompactToken)
        ensures
            ({
                let node = self.spec_make_token(token);
                let kind = token.kind;
                let of = (
                    slice_of::<'a>(decoded(self.spec_token_bytes(token))),
                    &self.spec_compact_pos(token),
                );
                &&& node is Name <==> kind == TokenKind::Name || kind == TokenKind::Class || kind
                    == TokenKind::Vec || kind == TokenKind::Dict || kind == TokenKind::Keyset
                    || kind == TokenKind::Tuple || kind == TokenKind::Classname || kind
                    == TokenKind::SelfToken
                &&& node is XhpName <==> kind == TokenKind::XHPClassName || kind
                    == TokenKind::XHPElementName
                &&& node is Variable <==> kind == TokenKind::Variable
                &&& node is IntLiteral <==> kind == TokenKind::DecimalLiteral || kind
                    == TokenKind::OctalLiteral || kind == TokenKind::HexadecimalLiteral || kind
                    == TokenKind::BinaryLiteral
                &&& node is FloatingLiteral <==> kind == TokenKind::FloatingLiteral
                &&& node is BooleanLiteral <==> kind == TokenKind::BooleanLiteral
                &&& node matches Node::Name(read) ==> *read == of
                &&& node matches Node::XhpName(read) ==> *read == of
                &&& node matches Node::Variable(read) ==> *read == of
                &&& node matches Node::IntLiteral(read) ==> *read == of
                &&& node matches Node::FloatingLiteral(read) ==> *read == of
                &&& node matches Node::BooleanLiteral(read) ==> *read == of
            }),
    {
    }

    /// A quoted literal is read as the string that the host makes of the text
    /// between its quotes, at the position of the whole; as nothing where the
    /// host makes none.
    pub proof fn law_quoted_literals(&self, token: CompactToken)
        ensures
            ({
                let node = self.spec_make_token(token);
                let quoted = token.kind == TokenKind::SingleQuotedStringLiteral || token.kind
                    == TokenKind::DoubleQuotedStringLiteral || token.kind
                    == TokenKind::HeredocStringLiteral || token.kind
                    == TokenKind::NowdocStringLiteral;
                let inner = unquoted(self.host, slice_of(self.spec_token_bytes(token)));
                let value = named(
                    self.host,
                    Query::Unescape(token.kind, slice_of(decoded(inner@))),
                );
                &&& node is StringLiteral <==> quoted && value is Some
                &&& quoted && value is None ==> node is Ignored
                &&& node matches Node::StringLiteral(of) ==> Some(of.0) == value && *of.1
                    == self.spec_compact_pos(token)
            }),
    {
    }

    /// A modifier, a leading keyword or a mark is kept as a token of its own
    /// kind where it stands. Every other token that is read as nothing else is
    /// ignored under its kind.
    pub proof fn law_kept_tokens(&self, token: CompactToken)
        requires
            token.start_offset <= MAX_OFFSET,
        ensures
            ({
                let node = self.spec_make_token(token);
                let matters = is_modifier_keyword(token.kind) || is_leading_keyword(token.kind)
                    || is_mark(token.kind);
                &&& node is Token <==> matters
                &&& matters ==> node.spec_token_kind() == Some(token.kind)
                &&& node matches Node::Token(kept) ==> kept.spec_offset() == token.start_offset
                &&& node matches Node::Ignored(kind) ==> kind == SyntaxKind::Token(token.kind)
            }),
    {
        if is_kept(token.kind) {
            lemma_kept_tokens_have_a_width(token.kind);
            law_packed_token_is_its_parts(token.kind, token.start_offset);
        }
    }

    /// The position of a token reaches from its first byte to behind its last.
    pub proof fn law_position_of_a_read_token(&self, token: CompactToken)
        requires
            token.start_offset + token.width <= usize::MAX,
        ensures
            self.spec_compact_pos(token) matches Pos::At(file, start, end) && file == self.filename
                && start.offset == token.start_offset && end.offset == token.start_offset
                + token.width,
    {
    }

    /// A name behind `class`, `interface` or `trait`, outside any class, is that
    /// of the class that is being read, under this keyword. No other token
    /// changes what is known of it.
    pub proof fn law_name_behind_a_class_keyword(&self, token: CompactToken)
        ensures
            ({
                let before = self.classish_name_builder;
                let after = self.spec_classish_after(token);
                let keyword = self.previous_token_kind;
                let begins = (token.kind == TokenKind::Name || token.kind
                    == TokenKind::XHPClassName) && (keyword == TokenKind::Class || keyword
                    == TokenKind::Interface || keyword == TokenKind::Trait);
                &&& !begins || before is InClassish ==> after == before
                &&& begins && before is NotInClassish ==> (
                after matches ClassishNameBuilder::InClassish(of) && {
                    let full = self.spec_elaborate_defined_id(
                        self.spec_make_token(token),
                    )->Some_0.1;
                    &&& of.2 == keyword
                    &&& !begins_with(full@, COLON) ==> of.0 == full
                    &&& begins_with(full@, COLON) ==> of.0 == slice_of::<'a>(
                        seq![BACKSLASH] + full@,
                    )
                    &&& keyword == TokenKind::Trait ==> *of.1 is NoPos
                    &&& keyword != TokenKind::Trait ==> *of.1 == self.spec_compact_pos(token)
                })
            }),
    {
    }
}

} // verus!
