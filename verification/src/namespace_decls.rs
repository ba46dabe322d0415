//! Namespace declarations and imports.

use crate::arena::{lemma_items_of, lemma_slice_of, realised, slice_of};
use crate::host::{Answer, Query};
use crate::namespace::{
    entered, import_realised, imported, left, nested_bytes, previous_left, NamespaceEnv,
    NamespaceUseKind,
};
use crate::node::{NamespaceUseClause, Node};
use crate::parser::{DirectDeclSmartConstructors, SourceTextAllocator};
use crate::syntax::Id;
use crate::text::concat;
use crate::token::{SyntaxKind, TokenKind};
use vstd::prelude::*;

verus! {

broadcast use {lemma_items_of, lemma_slice_of};

/// What a `use` declaration imports. Functions and constants are not needed.
pub open spec fn use_kind<'a>(node: Node<'a>) -> Option<NamespaceUseKind> {
    match node.spec_token_kind() {
        Some(TokenKind::Type) => Some(NamespaceUseKind::Type),
        Some(TokenKind::Namespace) => Some(NamespaceUseKind::Namespace),
        _ => if node is Ignored {
            Some(NamespaceUseKind::Mixed)
        } else {
            None
        },
    }
}

pub fn namespace_use_kind<'a>(node: &Node<'a>) -> (r: Option<NamespaceUseKind>)
    ensures
        r == use_kind(*node),
{
    match node.token_kind() {
        Some(TokenKind::Const) => None,
        Some(TokenKind::Function) => None,
        Some(TokenKind::Type) => Some(NamespaceUseKind::Type),
        Some(TokenKind::Namespace) => Some(NamespaceUseKind::Namespace),
        _ => {
            if !node.is_present() {
                Some(NamespaceUseKind::Mixed)
            } else {
                None
            }
        },
    }
}

/// The stack behind a namespace declaration with the given body.
pub open spec fn behind_namespace<'a>(stack: Seq<NamespaceEnv<'a>>, body: Node<'a>) -> Seq<
    NamespaceEnv<'a>,
> {
    if body == Node::<'a>::Ignored(SyntaxKind::NamespaceBody) {
        left(stack)
    } else {
        stack
    }
}

/// An environment with the imports of the given clauses.
pub open spec fn with_imports<'a>(
    env: NamespaceEnv<'a>,
    kind: NamespaceUseKind,
    clauses: Seq<Node<'a>>,
) -> NamespaceEnv<'a>
    decreases clauses.len(),
{
    if clauses.len() == 0 {
        env
    } else {
        let before = with_imports(env, kind, clauses.drop_last());
        match clauses.last() {
            Node::NamespaceUseClause(clause) => imported(before, kind, clause.id.1, clause.as_),
            _ => before,
        }
    }
}

/// An environment with the imports of a group: the prefix stands before each
/// of their names.
pub open spec fn with_group_imports<'a>(
    env: NamespaceEnv<'a>,
    prefix: Seq<u8>,
    clauses: Seq<Node<'a>>,
) -> NamespaceEnv<'a>
    decreases clauses.len(),
{
    if clauses.len() == 0 {
        env
    } else {
        let before = with_group_imports(env, prefix, clauses.drop_last());
        match clauses.last() {
            Node::NamespaceUseClause(clause) => imported(
                before,
                clause.kind,
                slice_of(prefix + clause.id.1@),
                clause.as_,
            ),
            _ => before,
        }
    }
}

/// Whether the names that the imports of clauses make are at hand.
pub open spec fn imports_realised<'a>(prefix: Seq<u8>, clauses: Seq<Node<'a>>) -> bool {
    forall|i: int|
        0 <= i < clauses.len() ==> ((#[trigger] clauses[i]) matches Node::NamespaceUseClause(clause)
            ==> realised(prefix + clause.id.1@) && import_realised(
            prefix + clause.id.1@,
            clause.as_,
        ))
}

/// Whether every clause has an alias or a name to take one from.
pub open spec fn have_aliases<'a>(prefix: Seq<u8>, clauses: Seq<Node<'a>>) -> bool {
    forall|i: int|
        0 <= i < clauses.len() ==> ((#[trigger] clauses[i]) matches Node::NamespaceUseClause(clause)
            ==> clause.as_ is Some || (prefix + clause.id.1@).len() > 0)
}

impl<
    'a,
    'text,
    S: SourceTextAllocator<'text, 'a>,
    H: Fn(Query<'a, 'text>) -> Answer<'a, 'text>,
> DirectDeclSmartConstructors<'a, 'text, S, H> {
    /// Whether this state differs from another one in the stack of namespaces
    /// alone.
    pub open spec fn same_but_namespaces(&self, other: &Self) -> bool {
        &&& *self == (DirectDeclSmartConstructors {
            namespace_builder: self.namespace_builder,
            ..*other
        })
        &&& self.namespace_builder.arena == other.namespace_builder.arena
        &&& self.namespace_builder.auto_ns_map == other.namespace_builder.auto_ns_map
    }

    /// A namespace with a body in braces ends behind it; one without lasts
    /// until the next.
    pub fn make_namespace_declaration(&mut self, _name: Node<'a>, body: Node<'a>) -> (r: Node<'a>)
        requires
            old(self).wf(),
        ensures
            final(self).wf(),
            r == Node::<'a>::Ignored(SyntaxKind::NamespaceDeclaration),
            final(self).namespace_builder.stack@ == behind_namespace(
                old(self).namespace_builder.stack@,
                body,
            ),
            final(self).same_but_namespaces(old(self)),
    {
        if let Node::Ignored(SyntaxKind::NamespaceBody) = body {
            self.namespace_builder.pop_namespace();
        }
        Node::Ignored(SyntaxKind::NamespaceDeclaration)
    }

    /// Enters a namespace. One that is declared without braces ends the one
    /// before it, but whether it is shows only when its body is reached; the
    /// one before it is left then.
    pub fn make_namespace_declaration_header(
        &mut self,
        _keyword: Node<'a>,
        name: Node<'a>,
    ) -> (r: Node<'a>)
        requires
            old(self).wf(),
        ensures
            final(self).wf(),
            r == Node::<'a>::Ignored(SyntaxKind::NamespaceDeclarationHeader),
            final(self).namespace_builder.stack@ == entered(
                old(self).namespace_builder.stack@,
                match old(self).spec_expect_name(name) {
                    Some(id) => Some(id.1@),
                    None => None,
                },
            ),
            old(self).spec_expect_name(name) matches Some(id) ==> (
            final(self).namespace_builder.env().name matches Some(full) && full@ == nested_bytes(
                old(self).namespace_builder.env().name,
                id.1@,
            )),
            final(self).same_but_namespaces(old(self)),
    {
        let name = match self.expect_name(name) {
            Some(id) => Some(id.1),
            None => None,
        };
        self.namespace_builder.push_namespace(name);
        Node::Ignored(SyntaxKind::NamespaceDeclarationHeader)
    }

    pub fn make_namespace_body(
        &self,
        _left_brace: Node<'a>,
        _declarations: Node<'a>,
        _right_brace: Node<'a>,
    ) -> (r: Node<'a>)
        ensures
            r == Node::<'a>::Ignored(SyntaxKind::NamespaceBody),
    {
        Node::Ignored(SyntaxKind::NamespaceBody)
    }

    pub fn make_namespace_empty_body(&mut self, _semicolon: Node<'a>) -> (r: Node<'a>)
        requires
            old(self).wf(),
        ensures
            final(self).wf(),
            r == Node::<'a>::Ignored(SyntaxKind::NamespaceEmptyBody),
            final(self).namespace_builder.stack@ == previous_left(
                old(self).namespace_builder.stack@,
            ),
            final(self).same_but_namespaces(old(self)),
    {
        self.namespace_builder.pop_previous_namespace();
        Node::Ignored(SyntaxKind::NamespaceEmptyBody)
    }

    pub fn make_namespace_use_declaration(
        &mut self,
        _keyword: Node<'a>,
        namespace_use_kind_node: Node<'a>,
        clauses: Node<'a>,
        _semicolon: Node<'a>,
    ) -> (r: Node<'a>)
        requires
            old(self).wf(),
            use_kind(namespace_use_kind_node) is Some ==> have_aliases(
                Seq::<u8>::empty(),
                clauses.elements(),
            ),
        ensures
            final(self).wf(),
            r == Node::<'a>::Ignored(SyntaxKind::NamespaceUseDeclaration),
            final(self).namespace_builder.stack@ == (match use_kind(namespace_use_kind_node) {
                Some(kind) => old(self).namespace_builder.stack@.drop_last().push(
                    with_imports(old(self).namespace_builder.env(), kind, clauses.elements()),
                ),
                None => old(self).namespace_builder.stack@,
            }),
            use_kind(namespace_use_kind_node) is Some ==> imports_realised(
                Seq::<u8>::empty(),
                clauses.elements(),
            ),
            final(self).same_but_namespaces(old(self)),
    {
        if let Some(import_kind) = namespace_use_kind(&namespace_use_kind_node) {
            let len = clauses.len();
            let ghost nodes = clauses.elements();
            let ghost stack = self.namespace_builder.stack@;
            let mut i: usize = 0;
            assert(nodes.take(0) =~= Seq::<Node<'a>>::empty());
            assert(stack =~= stack.drop_last().push(stack.last()));
            while i < len
                invariant
                    nodes == clauses.elements(),
                    have_aliases(Seq::<u8>::empty(), nodes),
                    imports_realised(Seq::<u8>::empty(), nodes.take(i as int)),
                    len == nodes.len(),
                    i <= len,
                    self.wf(),
                    stack == old(self).namespace_builder.stack@,
                    stack.len() > 0,
                    self.namespace_builder.stack@ == stack.drop_last().push(
                        with_imports(stack.last(), import_kind, nodes.take(i as int)),
                    ),
                    self.same_but_namespaces(old(self)),
                decreases len - i,
            {
                assert(nodes.take(i + 1).drop_last() =~= nodes.take(i as int));
                if let Node::NamespaceUseClause(clause) = clauses.nth(i) {
                    assert(nodes[i as int] is NamespaceUseClause);
                    assert(Seq::<u8>::empty() + clause.id.1@ =~= clause.id.1@);
                    self.namespace_builder.add_import(import_kind, clause.id.1, clause.as_);
                    assert(self.namespace_builder.stack@ =~= stack.drop_last().push(
                        with_imports(stack.last(), import_kind, nodes.take(i + 1)),
                    ));
                }
                i = i + 1;
            }
            assert(nodes.take(i as int) =~= nodes);
        }
        Node::Ignored(SyntaxKind::NamespaceUseDeclaration)
    }

    pub fn make_namespace_group_use_declaration(
        &mut self,
        _keyword: Node<'a>,
        _kind: Node<'a>,
        prefix: Node<'a>,
        _left_brace: Node<'a>,
        clauses: Node<'a>,
        _right_brace: Node<'a>,
        _semicolon: Node<'a>,
    ) -> (r: Node<'a>)
        requires
            old(self).wf(),
            old(self).spec_expect_name(prefix) matches Some(id) ==> have_aliases(
                id.1@,
                clauses.elements(),
            ),
        ensures
            final(self).wf(),
            r == Node::<'a>::Ignored(SyntaxKind::NamespaceGroupUseDeclaration),
            final(self).namespace_builder.stack@ == (match old(self).spec_expect_name(prefix) {
                Some(id) => old(self).namespace_builder.stack@.drop_last().push(
                    with_group_imports(
                        old(self).namespace_builder.env(),
                        id.1@,
                        clauses.elements(),
                    ),
                ),
                None => old(self).namespace_builder.stack@,
            }),
            old(self).spec_expect_name(prefix) matches Some(id) ==> imports_realised(
                id.1@,
                clauses.elements(),
            ),
            final(self).same_but_namespaces(old(self)),
    {
        let Id(_, prefix) = match self.expect_name(prefix) {
            Some(id) => id,
            None => return Node::Ignored(SyntaxKind::NamespaceGroupUseDeclaration),
        };
        let len = clauses.len();
        let ghost nodes = clauses.elements();
        let ghost stack = self.namespace_builder.stack@;
        let mut i: usize = 0;
        assert(nodes.take(0) =~= Seq::<Node<'a>>::empty());
        assert(stack =~= stack.drop_last().push(stack.last()));
        while i < len
            invariant
                nodes == clauses.elements(),
                have_aliases(prefix@, nodes),
                imports_realised(prefix@, nodes.take(i as int)),
                len == nodes.len(),
                i <= len,
                self.wf(),
                stack == old(self).namespace_builder.stack@,
                stack.len() > 0,
                self.namespace_builder.stack@ == stack.drop_last().push(
                    with_group_imports(stack.last(), prefix@, nodes.take(i as int)),
                ),
                self.same_but_namespaces(old(self)),
            decreases len - i,
        {
            assert(nodes.take(i + 1).drop_last() =~= nodes.take(i as int));
            if let Node::NamespaceUseClause(clause) = clauses.nth(i) {
                assert(nodes[i as int] is NamespaceUseClause);
                let id = concat(self.arena, prefix, clause.id.1);
                assert(slice_of(id@) == id);
                self.namespace_builder.add_import(clause.kind, id, clause.as_);
                assert(self.namespace_builder.stack@ =~= stack.drop_last().push(
                    with_group_imports(stack.last(), prefix@, nodes.take(i + 1)),
                ));
            }
            i = i + 1;
        }
        assert(nodes.take(i as int) =~= nodes);
        Node::Ignored(SyntaxKind::NamespaceGroupUseDeclaration)
    }

    pub open spec fn spec_make_namespace_use_clause(
        &self,
        clause_kind: Node<'a>,
        name: Node<'a>,
        as_: Node<'a>,
        aliased_name: Node<'a>,
    ) -> Node<'a> {
        let otherwise = Node::Ignored(SyntaxKind::NamespaceUseClause);
        match (self.spec_expect_name(name), use_kind(clause_kind)) {
            (Some(id), Some(kind)) => if !as_.spec_is_token(TokenKind::As) {
                Node::NamespaceUseClause(&NamespaceUseClause { kind, id, as_: None })
            } else {
                match aliased_name.spec_as_id() {
                    Some(alias) => Node::NamespaceUseClause(
                        &NamespaceUseClause { kind, id, as_: Some(alias.1) },
                    ),
                    None => otherwise,
                }
            },
            _ => otherwise,
        }
    }

    pub fn make_namespace_use_clause(
        &self,
        clause_kind: Node<'a>,
        name: Node<'a>,
        as_: Node<'a>,
        aliased_name: Node<'a>,
    ) -> (r: Node<'a>)
        requires
            self.wf(),
        ensures
            r == self.spec_make_namespace_use_clause(clause_kind, name, as_, aliased_name),
    {
        let id = match self.expect_name(name) {
            Some(id) => id,
            None => return Node::Ignored(SyntaxKind::NamespaceUseClause),
        };
        let as_ = if as_.is_token(TokenKind::As) {
            match aliased_name.as_id() {
                Some(name) => Some(name.1),
                None => return Node::Ignored(SyntaxKind::NamespaceUseClause),
            }
        } else {
            None
        };
        match namespace_use_kind(&clause_kind) {
            Some(kind) => Node::NamespaceUseClause(
                self.allocate(NamespaceUseClause { kind, id, as_ }),
            ),
            None => Node::Ignored(SyntaxKind::NamespaceUseClause),
        }
    }
}

/// `use type` imports types, `use namespace` namespaces, and a plain `use` both.
/// Functions and constants are not imported.
pub proof fn law_kinds_of_imports<'a>(node: Node<'a>)
    ensures
        use_kind(node) == Some(NamespaceUseKind::Type) <==> node.spec_token_kind() == Some(
            TokenKind::Type,
        ),
        use_kind(node) == Some(NamespaceUseKind::Namespace) <==> node.spec_token_kind() == Some(
            TokenKind::Namespace,
        ),
        use_kind(node) == Some(NamespaceUseKind::Mixed) <==> node is Ignored,
{
}

/// The imports of clauses come into force one behind the other, each as the
/// declaration says; what is not a clause imports nothing.
pub proof fn law_imports_in_order<'a>(
    env: NamespaceEnv<'a>,
    kind: NamespaceUseKind,
    clauses: Seq<Node<'a>>,
    node: Node<'a>,
)
    ensures
        with_imports(env, kind, Seq::<Node<'a>>::empty()) == env,
        node matches Node::NamespaceUseClause(clause) ==> with_imports(
            env,
            kind,
            clauses.push(node),
        ) == imported(with_imports(env, kind, clauses), kind, clause.id.1, clause.as_),
        !(node is NamespaceUseClause) ==> with_imports(env, kind, clauses.push(node))
            == with_imports(env, kind, clauses),
{
    assert(clauses.push(node).drop_last() =~= clauses);
}

/// In a group each name is imported behind the prefix, as its own clause says.
pub proof fn law_group_imports_in_order<'a>(
    env: NamespaceEnv<'a>,
    prefix: Seq<u8>,
    clauses: Seq<Node<'a>>,
    node: Node<'a>,
)
    ensures
        with_group_imports(env, prefix, Seq::<Node<'a>>::empty()) == env,
        node matches Node::NamespaceUseClause(clause) ==> with_group_imports(
            env,
            prefix,
            clauses.push(node),
        ) == imported(
            with_group_imports(env, prefix, clauses),
            clause.kind,
            slice_of(prefix + clause.id.1@),
            clause.as_,
        ),
        !(node is NamespaceUseClause) ==> with_group_imports(env, prefix, clauses.push(node))
            == with_group_imports(env, prefix, clauses),
{
    assert(clauses.push(node).drop_last() =~= clauses);
}

/// A namespace with a body in braces is left behind it; one without lasts.
pub proof fn law_namespace_with_a_body<'a>(stack: Seq<NamespaceEnv<'a>>, body: Node<'a>)
    ensures
        body == Node::<'a>::Ignored(SyntaxKind::NamespaceBody) ==> behind_namespace(stack, body)
            == left(stack),
        body != Node::<'a>::Ignored(SyntaxKind::NamespaceBody) ==> behind_namespace(stack, body)
            == stack,
{
}

impl<
    'a,
    'text,
    S: SourceTextAllocator<'text, 'a>,
    H: Fn(Query<'a, 'text>) -> Answer<'a, 'text>,
> DirectDeclSmartConstructors<'a, 'text, S, H> {
    /// A clause imports the name that is written, under the alias behind `as`
    /// where there is one.
    pub proof fn law_import_clause_as_written(
        &self,
        clause_kind: Node<'a>,
        name: Node<'a>,
        as_: Node<'a>,
        aliased_name: Node<'a>,
    )
        ensures
            ({
                let node = self.spec_make_namespace_use_clause(
                    clause_kind,
                    name,
                    as_,
                    aliased_name,
                );
                let has_alias = as_.spec_token_kind() == Some(TokenKind::As);
                &&& node is NamespaceUseClause <==> self.spec_expect_name(name) is Some && use_kind(
                    clause_kind,
                ) is Some && (has_alias ==> aliased_name.spec_as_id() is Some)
                &&& !(node is NamespaceUseClause) ==> node is Ignored
                &&& node matches Node::NamespaceUseClause(clause) ==> {
                    &&& Some(clause.id) == self.spec_expect_name(name)
                    &&& Some(clause.kind) == use_kind(clause_kind)
                    &&& clause.as_ is Some <==> has_alias
                    &&& has_alias ==> clause.as_ == Some(aliased_name.spec_as_id()->Some_0.1)
                }
            }),
    {
    }
}

impl<
    'a,
    'text,
    S: SourceTextAllocator<'text, 'a>,
    H: Fn(Query<'a, 'text>) -> Answer<'a, 'text>,
> DirectDeclSmartConstructors<'a, 'text, S, H> {
    /// What is done to namespaces leaves everything else as it was.
    pub proof fn law_only_namespaces_change(&self, other: &Self)
        requires
            self.same_but_namespaces(other),
        ensures
            self.source_text == other.source_text,
            self.arena == other.arena,
            self.decls == other.decls,
            self.const_refs == other.const_refs,
            self.opts == other.opts,
            self.filename == other.filename,
            self.file_mode == other.file_mode,
            self.classish_name_builder == other.classish_name_builder,
            self.type_parameters == other.type_parameters,
            self.previous_token_kind == other.previous_token_kind,
            self.source_text_allocator == other.source_text_allocator,
            self.host == other.host,
            self.namespace_builder.auto_ns_map == other.namespace_builder.auto_ns_map,
    {
    }
}

} // verus!
