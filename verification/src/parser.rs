//! The state of the parser, and how it reads names and positions.

use crate::arena::{alloc_in, alloc_slice_in, lemma_items_of, lemma_slice_of, slice_of, Items};
use crate::classish::ClassishNameBuilder;
use crate::const_refs::{ascending, insert_ref, inserted, law_inserted};
use crate::decls::{
    ClassConstFrom, ClassConstRef, ConstDecl, Decl, Decls, FunElt, RecordDefType, ShallowClass,
    TypedefType,
};
use crate::encoding::{decode_in, decoded, is_utf8, lossy_decode_in};
use crate::host::{host_wf, Answer, Query};
use crate::namespace::{
    declared, elaborated, gives_full_names, global_env, AutoImport, NamespaceBuilder,
};
use crate::node::Node;
use crate::source::{part, IndexedSourceText, Pos, RelativePath};
use crate::syntax::{ClassId, ClassId_, ElaborateKind, Id, Mode};
use crate::text::{begins_with, concat, literal, push_bytes, BACKSLASH};
use crate::token::{CompactToken, FixedWidthToken, TokenKind};
use bumpalo::Bump;
use vstd::prelude::*;
use vstd::string::*;
use vstd::utf8::*;

verus! {

broadcast use {lemma_items_of, lemma_slice_of};

/// How pieces of the source text become available for as long as the arena.
pub trait SourceTextAllocator<'text, 'target>: Clone {
    fn alloc_text(&self, text: &'text [u8]) -> (r: &'target [u8])
        ensures
            r@ == text@,
    ;
}

/// For a source text that lives as long as the arena.
#[derive(Clone)]
pub struct NoSourceTextAllocator;

impl<'text> SourceTextAllocator<'text, 'text> for NoSourceTextAllocator {
    fn alloc_text(&self, text: &'text [u8]) -> (r: &'text [u8]) {
        text
    }
}

/// For a source text that is gone before the arena is: what is kept of it is
/// copied.
#[derive(Clone)]
pub struct ArenaSourceTextAllocator<'arena>(pub &'arena Bump);

impl<'text, 'arena> SourceTextAllocator<'text, 'arena> for ArenaSourceTextAllocator<'arena> {
    fn alloc_text(&self, text: &'text [u8]) -> (r: &'arena [u8]) {
        alloc_slice_in(self.0, text)
    }
}

#[derive(Copy, Clone)]
pub struct DeclParserOptions<'a> {
    pub auto_namespace_map: Items<'a, (&'a [u8], &'a [u8])>,
    pub auto_import: AutoImport<'a>,
    pub disable_xhp_element_mangling: bool,
    pub interpret_soft_types_as_like_types: bool,
    pub everything_sdt: bool,
}

/// Reads the declarations of a file while its syntax is being parsed, without
/// building the syntax tree.
#[derive(Clone)]
pub struct DirectDeclSmartConstructors<
    'a,
    'text,
    S: SourceTextAllocator<'text, 'a>,
    H: Fn(Query<'a, 'text>) -> Answer<'a, 'text>,
> {
    pub source_text: IndexedSourceText<'text>,
    pub arena: &'a Bump,
    pub decls: Decls<'a>,
    /// While this is there, it collects the class constants that expressions
    /// refer to.
    pub const_refs: Option<Items<'a, ClassConstRef<'a>>>,
    pub opts: &'a DeclParserOptions<'a>,
    pub filename: &'a RelativePath<'a>,
    pub file_mode: Mode,
    pub namespace_builder: NamespaceBuilder<'a>,
    pub classish_name_builder: ClassishNameBuilder<'a>,
    /// The names of the type parameters in scope, one list for each
    /// declaration that has some.
    pub type_parameters: Vec<Items<'a, &'a [u8]>>,
    /// The kind of the token before the current one; `EndOfFile` at the
    /// beginning of the file.
    pub previous_token_kind: TokenKind,
    pub source_text_allocator: S,
    pub host: H,
}

/// The bytes that a part of a qualified name contributes to it.
pub open spec fn part_of_name<'a>(part: Node<'a>) -> Seq<u8> {
    match part {
        Node::Name(of) => of.0@,
        Node::Token(t) => if t.spec_kind() == TokenKind::Backslash {
            seq![BACKSLASH]
        } else {
            Seq::<u8>::empty()
        },
        Node::ListItem(item) => match item.0 {
            Node::Name(of) => of.0@.push(BACKSLASH),
            Node::Token(t) => if t.spec_kind() == TokenKind::Namespace {
                "namespace\\".spec_bytes()
            } else {
                Seq::<u8>::empty()
            },
            _ => Seq::<u8>::empty(),
        },
        _ => Seq::<u8>::empty(),
    }
}

/// The name that the parts of a qualified name make up.
pub open spec fn joined_name<'a>(parts: Seq<Node<'a>>) -> Seq<u8>
    decreases parts.len(),
{
    if parts.len() == 0 {
        Seq::<u8>::empty()
    } else {
        joined_name(parts.drop_last()) + part_of_name(parts.last())
    }
}

/// What is known of the class constants that are referred to after one more.
/// Only named classes and `self` count.
pub open spec fn const_refs_with<'a>(
    const_refs: Option<Items<'a, ClassConstRef<'a>>>,
    class_id: ClassId<'a>,
    value: &'a [u8],
) -> Option<Items<'a, ClassConstRef<'a>>> {
    match const_refs {
        None => None,
        Some(refs) => match class_id.1 {
            ClassId_::CI(sid) => Some(
                Items::of(inserted(refs@, ClassConstRef(ClassConstFrom::From(sid.1), value))),
            ),
            ClassId_::CIself => Some(
                Items::of(inserted(refs@, ClassConstRef(ClassConstFrom::Self_, value))),
            ),
            _ => Some(refs),
        },
    }
}

/// The two positions merged, where each of them may be missing.
pub open spec fn merged_pos<'a>(pos1: Option<&'a Pos<'a>>, pos2: Option<&'a Pos<'a>>) -> Pos<'a> {
    match (pos1, pos2) {
        (None, None) => Pos::NoPos,
        (Some(pos), None) => *pos,
        (None, Some(pos)) => *pos,
        (Some(pos1), Some(pos2)) => pos1.merged(*pos2),
    }
}

impl<
    'a,
    'text,
    S: SourceTextAllocator<'text, 'a>,
    H: Fn(Query<'a, 'text>) -> Answer<'a, 'text>,
> DirectDeclSmartConstructors<'a, 'text, S, H> {
    /// The invariant of the state: the line table and the stack of namespaces
    /// are in order, the host answers what it is asked, and the constants that
    /// are collected stand in ascending order.
    pub open spec fn wf(&self) -> bool {
        &&& self.source_text.wf()
        &&& self.namespace_builder.wf()
        &&& host_wf(self.host)
        &&& self.const_refs matches Some(refs) ==> ascending(refs@)
    }

    pub fn new(
        opts: &'a DeclParserOptions<'a>,
        source_text: IndexedSourceText<'text>,
        file_mode: Mode,
        arena: &'a Bump,
        source_text_allocator: S,
        host: H,
    ) -> (r: Self)
        requires
            source_text.wf(),
            host_wf(host),
        ensures
            r.wf(),
            r.source_text == source_text,
            r.arena == arena,
            r.opts == opts,
            *r.filename == source_text.source_text.file_path,
            r.file_mode == file_mode,
            r.decls@.len() == 0,
            r.const_refs is None,
            r.namespace_builder.stack@ == seq![
                global_env(
                    opts.auto_namespace_map,
                    opts.auto_import,
                    opts.disable_xhp_element_mangling,
                ),
            ],
            r.classish_name_builder is NotInClassish,
            r.type_parameters@.len() == 0,
            r.previous_token_kind == TokenKind::EndOfFile,
            r.source_text_allocator == source_text_allocator,
            r.host == host,
    {
        let path = source_text.source_text.file_path;
        let copy = alloc_slice_in(arena, path.path);
        assert(slice_of(copy@) == copy && slice_of(path.path@) == path.path);
        let filename = alloc_in(arena, RelativePath { prefix: path.prefix, path: copy });
        DirectDeclSmartConstructors {
            source_text,
            arena,
            decls: Decls::empty(),
            const_refs: None,
            opts,
            filename,
            file_mode,
            namespace_builder: NamespaceBuilder::new_in(
                opts.auto_namespace_map,
                opts.auto_import,
                opts.disable_xhp_element_mangling,
                arena,
            ),
            classish_name_builder: ClassishNameBuilder::new(),
            type_parameters: Vec::new(),
            previous_token_kind: TokenKind::EndOfFile,
            source_text_allocator,
            host,
        }
    }

    /// Moves a value into the arena.
    pub fn allocate<T>(&self, val: T) -> (r: &'a T)
        ensures
            *r == val,
    {
        alloc_in(self.arena, val)
    }

    /// The text that stands for a piece of the source.
    pub open spec fn spec_text(&self, bytes: Seq<u8>) -> &'a [u8] {
        slice_of(decoded(bytes))
    }

    /// The bytes of the source between the ends of a position.
    pub open spec fn bytes_at(&self, pos: &'a Pos<'a>) -> Seq<u8> {
        part(self.source_text.source_text.text@, pos.start() as int, pos.extent() as int)
    }

    /// The bytes of the name that a qualified name stands for. Where its parts
    /// take up all the space between their ends, that is the text itself.
    pub open spec fn spec_qualified_bytes(
        &self,
        parts: Seq<Node<'a>>,
        pos: &'a Pos<'a>,
    ) -> Seq<u8> {
        if joined_name(parts).len() == pos.extent() {
            decoded(self.bytes_at(pos))
        } else {
            joined_name(parts)
        }
    }

    /// That name at its position.
    pub open spec fn spec_qualified_name(
        &self,
        parts: Seq<Node<'a>>,
        pos: &'a Pos<'a>,
    ) -> Id<'a> {
        Id(pos, slice_of(self.spec_qualified_bytes(parts, pos)))
    }

    pub fn qualified_name_from_parts(
        &self,
        parts: Items<'a, Node<'a>>,
        pos: &'a Pos<'a>,
    ) -> (r: Id<'a>)
        ensures
            r == self.spec_qualified_name(parts@, pos),
            r.1@ == self.spec_qualified_bytes(parts@, pos),
    {
        let mut name: Vec<u8> = Vec::new();
        let mut i: usize = 0;
        assert(parts@.take(0) =~= Seq::<Node<'a>>::empty());
        while i < parts.len()
            invariant
                i <= parts@.len(),
                name@ == joined_name(parts@.take(i as int)),
            decreases parts@.len() - i,
        {
            let ghost before = name@;
            let part = *parts.at(i);
            assert(parts@.take(i + 1).drop_last() =~= parts@.take(i as int));
            match part {
                Node::Name(of) => push_bytes(&mut name, of.0),
                Node::Token(t) => {
                    if t.kind() == TokenKind::Backslash {
                        name.push(BACKSLASH);
                    }
                },
                Node::ListItem(item) => match item.0 {
                    Node::Name(of) => {
                        push_bytes(&mut name, of.0);
                        name.push(BACKSLASH);
                    },
                    Node::Token(t) => {
                        if t.kind() == TokenKind::Namespace {
                            push_bytes(&mut name, literal("namespace\\"));
                        }
                    },
                    _ => {},
                },
                _ => {},
            }
            assert(name@ =~= before + part_of_name(part));
            i = i + 1;
        }
        assert(parts@.take(i as int) =~= parts@);
        // Without trivia inside, the name can be taken from the source.
        if name.len() == pos.width() {
            return Id(pos, self.str_from_utf8(self.source_text_at_pos(pos)));
        }
        Id(pos, alloc_slice_in(self.arena, name.as_slice()))
    }

    pub open spec fn spec_elaborate_defined_id(&self, name: Node<'a>) -> Option<Id<'a>> {
        let id = match name {
            Node::Name(of) => Some(Id(of.1, of.0)),
            Node::XhpName(of) => Some(Id(of.1, of.0)),
            Node::QualifiedName(of) => Some(self.spec_qualified_name(of.0@, of.1)),
            _ => None,
        };
        match id {
            Some(id) => Some(Id(id.0, declared(self.host, self.namespace_builder.env(), id.1))),
            None => None,
        }
    }

    /// If the node is an identifier, XHP name or qualified name, the full name
    /// that a declaration under it has in the current namespace.
    pub fn elaborate_defined_id(&self, name: Node<'a>) -> (r: Option<Id<'a>>)
        requires
            self.wf(),
        ensures
            r == self.spec_elaborate_defined_id(name),
    {
        let id = match name {
            Node::Name(of) => Id(of.1, of.0),
            Node::XhpName(of) => Id(of.1, of.0),
            Node::QualifiedName(of) => self.qualified_name_from_parts(of.0, of.1),
            _ => return None,
        };
        Some(self.namespace_builder.elaborate_defined_id(&self.host, id))
    }

    pub open spec fn spec_expect_name(&self, name: Node<'a>) -> Option<Id<'a>> {
        match name {
            Node::Name(of) => Some(Id(of.1, of.0)),
            Node::XhpName(of) => Some(Id(of.1, of.0)),
            Node::QualifiedName(of) => Some(self.spec_qualified_name(of.0@, of.1)),
            Node::Token(t) => if t.spec_kind() == TokenKind::XHP {
                let pos = &self.spec_token_pos(t);
                Some(Id(pos, self.spec_text(self.bytes_at(pos))))
            } else {
                None
            },
            _ => None,
        }
    }

    /// If the node is a name, that name as it was written.
    pub fn expect_name(&self, name: Node<'a>) -> (r: Option<Id<'a>>)
        requires
            self.wf(),
        ensures
            r == self.spec_expect_name(name),
            name matches Node::QualifiedName(of) ==> r->Some_0.1@ == self.spec_qualified_bytes(
                of.0@,
                of.1,
            ),
            name.spec_is_token(TokenKind::XHP) ==> r->Some_0.1@ == decoded(
                self.bytes_at(r->Some_0.0),
            ),
    {
        if let Some(id) = name.as_id() {
            return Some(id);
        }
        match name {
            Node::QualifiedName(of) => Some(self.qualified_name_from_parts(of.0, of.1)),
            Node::Token(t) => {
                if t.kind() == TokenKind::XHP {
                    let pos = self.token_pos(t);
                    let text = self.str_from_utf8(self.source_text_at_pos(pos));
                    Some(Id(pos, text))
                } else {
                    None
                }
            },
            _ => None,
        }
    }

    pub open spec fn spec_elaborate_id(&self, id: Id<'a>) -> Id<'a> {
        Id(id.0, self.spec_elaborate_raw_id(id.1))
    }

    /// The full name that an identifier has as a type.
    pub fn elaborate_id(&self, id: Id<'a>) -> (r: Id<'a>)
        requires
            self.wf(),
        ensures
            r == self.spec_elaborate_id(id),
    {
        let Id(pos, name) = id;
        Id(pos, self.elaborate_raw_id(name))
    }

    pub open spec fn spec_elaborate_raw_id(&self, id: &'a [u8]) -> &'a [u8] {
        elaborated(self.host, self.namespace_builder.env(), ElaborateKind::Class, id)
    }

    /// The full name that a name has as a type.
    pub fn elaborate_raw_id(&self, id: &'a [u8]) -> (r: &'a [u8])
        requires
            self.wf(),
        ensures
            r == self.spec_elaborate_raw_id(id),
    {
        self.namespace_builder.elaborate_raw_id(&self.host, ElaborateKind::Class, id)
    }

    pub open spec fn spec_elaborate_const_id(&self, id: Id<'a>) -> Id<'a> {
        Id(
            id.0,
            elaborated(self.host, self.namespace_builder.env(), ElaborateKind::Const, id.1),
        )
    }

    /// The full name that an identifier has as a constant.
    pub fn elaborate_const_id(&self, id: Id<'a>) -> (r: Id<'a>)
        requires
            self.wf(),
        ensures
            r == self.spec_elaborate_const_id(id),
    {
        let Id(pos, name) = id;
        Id(pos, self.namespace_builder.elaborate_raw_id(&self.host, ElaborateKind::Const, name))
    }

    pub fn start_accumulating_const_refs(&mut self)
        requires
            old(self).wf(),
        ensures
            final(self).wf(),
            *final(self) == (DirectDeclSmartConstructors {
                const_refs: Some(Items::of(Seq::<ClassConstRef<'a>>::empty())),
                ..*old(self)
            }),
    {
        self.const_refs = Some(Items::none());
    }

    /// A class constant keeps the constants that its initializer refers to, so
    /// that circles among them can be found.
    pub fn accumulate_const_ref(&mut self, class_id: &'a ClassId<'a>, value_id: &Id<'a>)
        requires
            old(self).wf(),
        ensures
            final(self).wf(),
            *final(self) == (DirectDeclSmartConstructors {
                const_refs: const_refs_with(old(self).const_refs, *class_id, value_id.1),
                ..*old(self)
            }),
    {
        if let Some(const_refs) = self.const_refs {
            let from = match class_id.1 {
                ClassId_::CI(sid) => ClassConstFrom::From(sid.1),
                ClassId_::CIself => ClassConstFrom::Self_,
                // These are not allowed in the initializer of a constant.
                ClassId_::CIparent | ClassId_::CIstatic | ClassId_::CIexpr(_) => return,
            };
            let added = ClassConstRef(from, value_id.1);
            proof {
                law_inserted(const_refs@, added);
            }
            self.const_refs = Some(insert_ref(self.arena, const_refs, added));
        }
    }

    pub fn stop_accumulating_const_refs(&mut self) -> (r: Items<'a, ClassConstRef<'a>>)
        requires
            old(self).wf(),
        ensures
            final(self).wf(),
            *final(self) == (DirectDeclSmartConstructors { const_refs: None, ..*old(self) }),
            r == (match old(self).const_refs {
                Some(refs) => refs,
                None => Items::of(Seq::<ClassConstRef<'a>>::empty()),
            }),
            ascending(r@),
    {
        let const_refs = self.const_refs;
        self.const_refs = None;
        match const_refs {
            Some(refs) => refs,
            None => Items::none(),
        }
    }

    pub open spec fn spec_token_pos(&self, token: FixedWidthToken) -> Pos<'a> {
        let start = token.spec_offset();
        Pos::At(
            self.filename,
            self.source_text.file_pos(start),
            self.source_text.file_pos((start + token.spec_width()) as usize),
        )
    }

    pub fn token_pos(&self, token: FixedWidthToken) -> (r: &'a Pos<'a>)
        requires
            self.wf(),
        ensures
            *r == self.spec_token_pos(token),
    {
        let start = self.source_text.offset_to_file_pos_triple(token.offset());
        let end = self.source_text.offset_to_file_pos_triple(token.end());
        Pos::from_lnum_bol_cnum(self.arena, self.filename, start, end)
    }

    pub fn source_text_at_pos(&self, pos: &'a Pos<'a>) -> (r: &'text [u8])
        ensures
            r@ == self.bytes_at(pos),
    {
        self.source_text.source_text.sub(pos.start_cnum(), pos.width())
    }

    /// The text that stands for a piece of the source: that piece itself where
    /// it is well-formed UTF-8, else a copy in the arena.
    pub fn str_from_utf8(&self, slice: &'text [u8]) -> (r: &'a [u8])
        ensures
            r == self.spec_text(slice@),
            r@ == decoded(slice@),
            valid_utf8(r@),
    {
        if is_utf8(slice) {
            let r = self.source_text_allocator.alloc_text(slice);
            assert(slice_of(r@) == r);
            r
        } else {
            lossy_decode_in(self.arena, slice)
        }
    }

    pub fn str_from_utf8_for_bytes_in_arena(&self, slice: &'a [u8]) -> (r: &'a [u8])
        ensures
            r == slice_of(decoded(slice@)),
            r@ == decoded(slice@),
            valid_utf8(r@),
    {
        decode_in(self.arena, slice)
    }

    pub fn concat(&self, str1: &[u8], str2: &[u8]) -> (r: &'a [u8])
        ensures
            r@ == str1@ + str2@,
    {
        concat(self.arena, str1, str2)
    }

    /// The bytes of a token in the source.
    pub open spec fn spec_token_bytes(&self, token: CompactToken) -> Seq<u8> {
        part(
            self.source_text.source_text.text@,
            token.start_offset as int,
            token.width as int,
        )
    }

    pub fn token_bytes(&self, token: &CompactToken) -> (r: &'text [u8])
        ensures
            r@ == self.spec_token_bytes(*token),
    {
        self.source_text.source_text.sub(token.start_offset, token.width)
    }

    pub fn add_class(&mut self, name: &'a [u8], decl: &'a ShallowClass<'a>)
        ensures
            final(self).decls@ == old(self).decls@.push((name, Decl::Class(decl))),
            *final(self) == (DirectDeclSmartConstructors {
                decls: final(self).decls,
                ..*old(self)
            }),
    {
        self.decls.add(name, Decl::Class(decl));
    }

    pub fn add_fun(&mut self, name: &'a [u8], decl: &'a FunElt<'a>)
        ensures
            final(self).decls@ == old(self).decls@.push((name, Decl::Fun(decl))),
            *final(self) == (DirectDeclSmartConstructors {
                decls: final(self).decls,
                ..*old(self)
            }),
    {
        self.decls.add(name, Decl::Fun(decl));
    }

    pub fn add_typedef(&mut self, name: &'a [u8], decl: &'a TypedefType<'a>)
        ensures
            final(self).decls@ == old(self).decls@.push((name, Decl::Typedef(decl))),
            *final(self) == (DirectDeclSmartConstructors {
                decls: final(self).decls,
                ..*old(self)
            }),
    {
        self.decls.add(name, Decl::Typedef(decl));
    }

    pub fn add_const(&mut self, name: &'a [u8], decl: &'a ConstDecl<'a>)
        ensures
            final(self).decls@ == old(self).decls@.push((name, Decl::Const(decl))),
            *final(self) == (DirectDeclSmartConstructors {
                decls: final(self).decls,
                ..*old(self)
            }),
    {
        self.decls.add(name, Decl::Const(decl));
    }

    pub fn add_record(&mut self, name: &'a [u8], decl: &'a RecordDefType<'a>)
        ensures
            final(self).decls@ == old(self).decls@.push((name, Decl::Record(decl))),
            *final(self) == (DirectDeclSmartConstructors {
                decls: final(self).decls,
                ..*old(self)
            }),
    {
        self.decls.add(name, Decl::Record(decl));
    }

    /// The position that covers both, where each of them may be missing.
    pub fn merge(
        &self,
        pos1: Option<&'a Pos<'a>>,
        pos2: Option<&'a Pos<'a>>,
    ) -> (r: &'a Pos<'a>)
        ensures
            *r == merged_pos(pos1, pos2),
    {
        match (pos1, pos2) {
            (None, None) => Pos::none(),
            (Some(pos), None) => pos,
            (None, Some(pos)) => pos,
            (Some(pos1), Some(pos2)) => match (pos1.is_none(), pos2.is_none()) {
                (true, true) => Pos::none(),
                (true, false) => pos2,
                (false, true) => pos1,
                (false, false) => Pos::merge_without_checking_filename(self.arena, pos1, pos2),
            },
        }
    }

    pub open spec fn spec_merge_positions(&self, node1: Node<'a>, node2: Node<'a>) -> Pos<'a> {
        self.spec_pos(node1).merged(self.spec_pos(node2))
    }

    pub fn merge_positions(&self, node1: Node<'a>, node2: Node<'a>) -> (r: &'a Pos<'a>)
        requires
            self.wf(),
        ensures
            *r == self.spec_merge_positions(node1, node2),
    {
        self.merge(Some(self.get_pos(node1)), Some(self.get_pos(node2)))
    }

    /// The position of a node: nowhere where it has none.
    pub open spec fn spec_pos(&self, node: Node<'a>) -> Pos<'a>
        decreases node, 1int,
    {
        match self.spec_pos_opt(node) {
            Some(pos) => *pos,
            None => Pos::NoPos,
        }
    }

    pub fn get_pos(&self, node: Node<'a>) -> (r: &'a Pos<'a>)
        requires
            self.wf(),
        ensures
            *r == self.spec_pos(node),
        decreases node, 1int,
    {
        match self.get_pos_opt(node) {
            Some(pos) => pos,
            None => Pos::none(),
        }
    }

    /// The positions of the first `n` nodes of a list merged.
    pub open spec fn spec_pos_of_items(&self, nodes: Items<'a, Node<'a>>, n: int) -> Pos<'a>
        decreases nodes, n,
    {
        if 0 < n <= nodes@.len() {
            proof {
                Items::lemma_decreases(nodes, n - 1);
            }
            self.spec_pos_of_items(nodes, n - 1).merged(self.spec_pos(nodes@[n - 1]))
        } else {
            Pos::NoPos
        }
    }

    /// The position that a list of nodes covers.
    pub fn pos_from_items(&self, nodes: Items<'a, Node<'a>>) -> (r: &'a Pos<'a>)
        requires
            self.wf(),
        ensures
            *r == self.spec_pos_of_items(nodes, nodes@.len() as int),
        decreases nodes, nodes@.len(),
    {
        let mut acc: &'a Pos<'a> = Pos::none();
        let mut i: usize = 0;
        while i < nodes.len()
            invariant
                self.wf(),
                i <= nodes@.len(),
                *acc == self.spec_pos_of_items(nodes, i as int),
            decreases nodes@.len() - i,
        {
            proof {
                Items::lemma_decreases(nodes, i as int);
            }
            acc = self.merge(Some(acc), Some(self.get_pos(*nodes.at(i))));
            i = i + 1;
        }
        acc
    }

    /// The positions of nodes merged.
    pub open spec fn spec_pos_of(&self, nodes: Seq<Node<'a>>) -> Pos<'a>
        decreases nodes.len(),
    {
        if nodes.len() == 0 {
            Pos::NoPos
        } else {
            self.spec_pos_of(nodes.drop_last()).merged(self.spec_pos(nodes.last()))
        }
    }

    pub fn pos_from_slice(&self, nodes: &[Node<'a>]) -> (r: &'a Pos<'a>)
        requires
            self.wf(),
        ensures
            *r == self.spec_pos_of(nodes@),
    {
        let mut acc: &'a Pos<'a> = Pos::none();
        let mut i: usize = 0;
        assert(nodes@.take(0) =~= Seq::<Node<'a>>::empty());
        while i < nodes.len()
            invariant
                self.wf(),
                i <= nodes@.len(),
                *acc == self.spec_pos_of(nodes@.take(i as int)),
            decreases nodes@.len() - i,
        {
            assert(nodes@.take(i + 1).drop_last() =~= nodes@.take(i as int));
            acc = self.merge(Some(acc), Some(self.get_pos(nodes[i])));
            i = i + 1;
        }
        assert(nodes@.take(i as int) =~= nodes@);
        acc
    }

    pub open spec fn spec_pos_opt(&self, node: Node<'a>) -> Option<&'a Pos<'a>>
        decreases node, 0int,
    {
        let pos = match node {
            Node::Name(of) => Some(of.1),
            Node::Variable(of) => Some(of.1),
            Node::XhpName(of) => Some(of.1),
            Node::QualifiedName(of) => Some(of.1),
            Node::IntLiteral(of) => Some(of.1),
            Node::FloatingLiteral(of) => Some(of.1),
            Node::StringLiteral(of) => Some(of.1),
            Node::BooleanLiteral(of) => Some(of.1),
            Node::ListItem(item) => Some(&self.spec_pos(item.0).merged(self.spec_pos(item.1))),
            Node::List(items) => Some(&self.spec_pos_of_items(*items, items@.len() as int)),
            Node::BracketedList(list) => Some(
                &list.0.merged(
                    self.spec_pos_of_items(list.1, list.1@.len() as int).merged(*list.2),
                ),
            ),
            Node::Expr(expr) => Some(expr.0),
            Node::Token(token) => Some(&self.spec_token_pos(token)),
            _ => None,
        };
        match node {
            Node::Ty(ty) => ty.0.at(),
            _ => match pos {
                Some(pos) => if *pos is NoPos {
                    None
                } else {
                    Some(pos)
                },
                None => None,
            },
        }
    }

    pub fn get_pos_opt(&self, node: Node<'a>) -> (r: Option<&'a Pos<'a>>)
        requires
            self.wf(),
        ensures
            r == self.spec_pos_opt(node),
        decreases node, 0int,
    {
        let pos = match node {
            Node::Name(of) => of.1,
            Node::Variable(of) => of.1,
            Node::Ty(ty) => return ty.get_pos(),
            Node::XhpName(of) => of.1,
            Node::QualifiedName(of) => of.1,
            Node::IntLiteral(of) => of.1,
            Node::FloatingLiteral(of) => of.1,
            Node::StringLiteral(of) => of.1,
            Node::BooleanLiteral(of) => of.1,
            Node::ListItem(item) => self.merge(
                Some(self.get_pos(item.0)),
                Some(self.get_pos(item.1)),
            ),
            Node::List(items) => self.pos_from_items(*items),
            Node::BracketedList(list) => {
                let inner = self.merge(Some(self.pos_from_items(list.1)), Some(list.2));
                self.merge(Some(list.0), Some(inner))
            },
            Node::Expr(expr) => expr.0,
            Node::Token(token) => self.token_pos(token),
            _ => return None,
        };
        if pos.is_none() {
            None
        } else {
            Some(pos)
        }
    }
}

impl<
    'a,
    'text,
    S: SourceTextAllocator<'text, 'a>,
    H: Fn(Query<'a, 'text>) -> Answer<'a, 'text>,
> DirectDeclSmartConstructors<'a, 'text, S, H> {
    /// The position that is found for a node is somewhere. (That of a type is
    /// the one its reason gives.)
    pub proof fn law_found_position_is_somewhere(&self, node: Node<'a>)
        requires
            !(node is Ty),
        ensures
            self.spec_pos_opt(node) matches Some(pos) ==> *pos is At,
    {
    }

    /// Elaborating a name keeps its position, and leaves a full name as it is.
    /// With a host that answers with full names, elaborating a second time
    /// changes nothing.
    pub proof fn law_elaborating_twice(&self, id: Id<'a>)
        requires
            begins_with(id.1@, BACKSLASH) || gives_full_names(self.host),
        ensures
            self.spec_elaborate_id(id).0 == id.0,
            begins_with(id.1@, BACKSLASH) ==> self.spec_elaborate_id(id) == id,
            self.spec_elaborate_id(self.spec_elaborate_id(id)) == self.spec_elaborate_id(id),
    {
    }

    /// A token has a position, which is as wide as the token.
    pub proof fn law_position_of_a_token(&self, token: FixedWidthToken)
        requires
            token.spec_offset() + token.spec_width() <= usize::MAX,
        ensures
            self.spec_pos(Node::Token(token)) == self.spec_token_pos(token),
            self.spec_token_pos(token).start() == token.spec_offset(),
            self.spec_token_pos(token).extent() == token.spec_width(),
    {
    }
}

/// The reference that an expression on a class makes, if any: only named
/// classes and `self` count.
pub open spec fn ref_to<'a>(class_id: ClassId<'a>, value: &'a [u8]) -> Option<ClassConstRef<'a>> {
    match class_id.1 {
        ClassId_::CI(sid) => Some(ClassConstRef(ClassConstFrom::From(sid.1), value)),
        ClassId_::CIself => Some(ClassConstRef(ClassConstFrom::Self_, value)),
        _ => None,
    }
}

/// While constants are being collected, a reference to a named class or to
/// `self` joins those that are known. None is lost and no other one is added. A
/// class of any other form changes nothing.
pub proof fn law_collected_refs<'a>(
    refs: Items<'a, ClassConstRef<'a>>,
    class_id: ClassId<'a>,
    value: &'a [u8],
)
    requires
        ascending(refs@),
    ensures
        const_refs_with(Some(refs), class_id, value) matches Some(after) && {
            &&& ascending(after@)
            &&& forall|x: ClassConstRef<'a>| #[trigger]
                after@.contains(x) <==> refs@.contains(x) || ref_to(class_id, value) == Some(x)
            &&& ref_to(class_id, value) is None ==> after == refs
        },
{
    match class_id.1 {
        ClassId_::CI(sid) => law_inserted(refs@, ClassConstRef(ClassConstFrom::From(sid.1), value)),
        ClassId_::CIself => law_inserted(refs@, ClassConstRef(ClassConstFrom::Self_, value)),
        _ => {},
    }
}

/// A qualified name is made of its parts one behind the other.
pub proof fn law_qualified_name_in_order<'a>(parts: Seq<Node<'a>>, part: Node<'a>)
    ensures
        joined_name(Seq::<Node<'a>>::empty()).len() == 0,
        joined_name(parts.push(part)) == joined_name(parts) + part_of_name(part),
{
    assert(parts.push(part).drop_last() =~= parts);
}

/// A name contributes its text to a qualified name, with a backslash behind it
/// where one follows; a backslash contributes itself, and a leading
/// `namespace\` is spelled out. Nothing else contributes anything.
pub proof fn law_parts_of_a_qualified_name<'a>(part: Node<'a>)
    ensures
        ({
            let bytes = part_of_name(part);
            &&& part matches Node::Name(of) ==> bytes == of.0@
            &&& part.spec_token_kind() == Some(TokenKind::Backslash) ==> bytes == seq![BACKSLASH]
            &&& part matches Node::ListItem(item) ==> {
                &&& item.0 matches Node::Name(of) ==> bytes == of.0@ + seq![BACKSLASH]
                &&& item.0.spec_token_kind() == Some(TokenKind::Namespace) ==> bytes
                    == "namespace\\".spec_bytes()
                &&& !(item.0 is Name) && item.0.spec_token_kind() != Some(TokenKind::Namespace)
                    ==> bytes.len() == 0
            }
            &&& !(part is Name) && !(part is ListItem) && part.spec_token_kind() != Some(
                TokenKind::Backslash,
            ) ==> bytes.len() == 0
        }),
{
    if let Node::ListItem(item) = part {
        if let Node::Name(of) = item.0 {
            assert(part_of_name(part) =~= of.0@ + seq![BACKSLASH]);
        }
    }
}

/// Merging with a position that is missing gives the other one.
pub proof fn law_merging_what_may_be_missing<'a>(
    pos1: Option<&'a Pos<'a>>,
    pos2: Option<&'a Pos<'a>>,
)
    ensures
        pos1 is None && pos2 is None ==> merged_pos(pos1, pos2) is NoPos,
        pos1 is None ==> (pos2 matches Some(pos) ==> merged_pos(pos1, pos2) == *pos),
        pos2 is None ==> (pos1 matches Some(pos) ==> merged_pos(pos1, pos2) == *pos),
        pos1 is Some && pos2 is Some ==> merged_pos(pos1, pos2) == pos1->Some_0.merged(
            *pos2->Some_0,
        ),
{
}

impl<
    'a,
    'text,
    S: SourceTextAllocator<'text, 'a>,
    H: Fn(Query<'a, 'text>) -> Answer<'a, 'text>,
> DirectDeclSmartConstructors<'a, 'text, S, H> {
    /// Names of the three forms, and the keyword `xhp`, can be names. A plain
    /// name keeps its text and its position.
    pub proof fn law_names_as_written(&self, node: Node<'a>)
        ensures
            ({
                let read = self.spec_expect_name(node);
                &&& read is Some <==> node is Name || node is XhpName || node is QualifiedName
                    || node.spec_token_kind() == Some(TokenKind::XHP)
                &&& node matches Node::Name(of) ==> read == Some(Id(of.1, of.0))
                &&& node matches Node::XhpName(of) ==> read == Some(Id(of.1, of.0))
                &&& node matches Node::QualifiedName(of) ==> (read matches Some(id) && id.0 == of.1
                    && id.1 == slice_of::<'a>(self.spec_qualified_bytes(of.0@, of.1)))
                &&& node matches Node::Token(token) ==> (read matches Some(id) ==> *id.0
                    == self.spec_token_pos(token) && id.1 == slice_of::<'a>(
                    decoded(self.bytes_at(id.0)),
                ))
            }),
    {
    }

    /// What is declared under a name keeps its position, and has the full name
    /// that the current namespace gives it.
    pub proof fn law_declared_names(&self, node: Node<'a>)
        ensures
            ({
                let read = self.spec_elaborate_defined_id(node);
                let written = self.spec_expect_name(node);
                &&& read is Some <==> node is Name || node is XhpName || node is QualifiedName
                &&& read matches Some(id) ==> written is Some && id.0 == written->Some_0.0 && id.1
                    == declared(
                    self.host,
                    self.namespace_builder.env(),
                    written->Some_0.1,
                )
            }),
    {
    }

    /// A qualified name that takes up all of its space in the source is its
    /// text there; with space inside it is what its parts make up.
    pub proof fn law_qualified_names(&self, parts: Seq<Node<'a>>, pos: &'a Pos<'a>)
        ensures
            self.spec_qualified_name(parts, pos).0 == pos,
            joined_name(parts).len() == pos.extent() ==> self.spec_qualified_bytes(parts, pos)
                == decoded(self.bytes_at(pos)),
            joined_name(parts).len() != pos.extent() ==> self.spec_qualified_bytes(parts, pos)
                == joined_name(parts),
    {
    }

    /// Types and constants are looked up as what they are, in the namespace that
    /// is current, and keep their positions.
    pub proof fn law_looked_up_names(&self, id: Id<'a>)
        ensures
            self.spec_elaborate_id(id).0 == id.0,
            self.spec_elaborate_const_id(id).0 == id.0,
            self.spec_elaborate_id(id).1 == elaborated(
                self.host,
                self.namespace_builder.env(),
                ElaborateKind::Class,
                id.1,
            ),
            self.spec_elaborate_const_id(id).1 == elaborated(
                self.host,
                self.namespace_builder.env(),
                ElaborateKind::Const,
                id.1,
            ),
    {
    }

    /// A name, a variable, a literal or an expression is where it was read. A
    /// pair or a list covers its parts, and brackets what is between them.
    pub proof fn law_positions_of_nodes(&self, node: Node<'a>)
        ensures
            ({
                let pos = self.spec_pos(node);
                &&& node matches Node::Name(of) ==> pos == *of.1
                &&& node matches Node::XhpName(of) ==> pos == *of.1
                &&& node matches Node::Variable(of) ==> pos == *of.1
                &&& node matches Node::QualifiedName(of) ==> pos == *of.1
                &&& node matches Node::IntLiteral(of) ==> pos == *of.1
                &&& node matches Node::FloatingLiteral(of) ==> pos == *of.1
                &&& node matches Node::StringLiteral(of) ==> pos == *of.1
                &&& node matches Node::BooleanLiteral(of) ==> pos == *of.1
                &&& node matches Node::Expr(expr) ==> pos == *expr.0
                &&& node matches Node::ListItem(item) ==> pos == self.spec_pos(item.0).merged(
                    self.spec_pos(item.1),
                )
                &&& node matches Node::List(items) ==> pos == self.spec_pos_of_items(
                    *items,
                    items@.len() as int,
                )
                &&& node matches Node::BracketedList(list) ==> pos == list.0.merged(
                    self.spec_pos_of_items(list.1, list.1@.len() as int).merged(*list.2),
                )
                &&& node matches Node::Ty(ty) ==> (ty.0.at() matches Some(at) ==> pos == *at) && (
                ty.0.at() is None ==> pos is NoPos)
                &&& node is Ignored ==> pos is NoPos
            }),
    {
        reveal_with_fuel(DirectDeclSmartConstructors::spec_pos, 2);
        reveal_with_fuel(DirectDeclSmartConstructors::spec_pos_opt, 2);
    }

    /// The positions of nodes are merged from the first to the last.
    pub proof fn law_positions_are_merged(&self, nodes: Seq<Node<'a>>, node: Node<'a>)
        ensures
            self.spec_pos_of(Seq::<Node<'a>>::empty()) is NoPos,
            self.spec_pos_of(nodes.push(node)) == self.spec_pos_of(nodes).merged(
                self.spec_pos(node),
            ),
    {
        assert(nodes.push(node).drop_last() =~= nodes);
    }

    /// The position that a list covers is that of its nodes merged.
    pub proof fn law_position_of_a_list(&self, items: Items<'a, Node<'a>>, n: int)
        requires
            0 <= n <= items@.len(),
        ensures
            self.spec_pos_of_items(items, n) == self.spec_pos_of(items@.take(n)),
        decreases n,
    {
        if n > 0 {
            self.law_position_of_a_list(items, n - 1);
            assert(items@.take(n).drop_last() =~= items@.take(n - 1));
        }
    }
}

} // verus!
