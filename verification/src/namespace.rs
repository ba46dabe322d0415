//! Namespaces and the imports that are in force in them.

use crate::arena::{alloc_slice_in, lemma_items_of, lemma_slice_of, realised, slice_of, Items};
use crate::host::{ask_name, ask_name_opt, host_wf, named, Answer, Query};
use crate::str_map::{lemma_lookup_with_entry, lookup, StrMap};
use crate::syntax::{ElaborateKind, Id};
use crate::text::{
    after_last, begins_with, concat, contains_byte, last_part, law_last_part, literal,
    prefix_slash, push_bytes, same, starts_with_byte, trim_end, trim_end_byte, BACKSLASH, COLON,
};
use bumpalo::Bump;
use vstd::prelude::*;
use vstd::slice::slice_subrange;
use vstd::string::*;

verus! {

broadcast use {lemma_items_of, lemma_slice_of};

/// The imports of a namespace, and its own name: none for the global one.
#[derive(Copy, Clone)]
pub struct NamespaceEnv<'a> {
    pub ns_uses: StrMap<'a, &'a [u8]>,
    pub class_uses: StrMap<'a, &'a [u8]>,
    pub fun_uses: StrMap<'a, &'a [u8]>,
    pub const_uses: StrMap<'a, &'a [u8]>,
    pub record_def_uses: StrMap<'a, &'a [u8]>,
    pub name: Option<&'a [u8]>,
    pub auto_ns_map: Items<'a, (&'a [u8], &'a [u8])>,
    pub is_codegen: bool,
    pub disable_xhp_element_mangling: bool,
}

/// The names that are imported from the namespace `HH` without being asked for.
#[derive(Copy, Clone)]
pub struct AutoImport<'a> {
    pub namespaces: Items<'a, &'a [u8]>,
    pub types: Items<'a, &'a [u8]>,
}

/// What a `use` clause imports.
#[derive(Copy, Clone, PartialEq, Eq, Structural, Debug)]
pub enum NamespaceUseKind {
    Type,
    Namespace,
    Mixed,
}

/// The namespaces around the current place: the innermost one last, the global
/// one first.
#[derive(Clone)]
pub struct NamespaceBuilder<'a> {
    pub arena: &'a Bump,
    pub stack: Vec<NamespaceEnv<'a>>,
    pub auto_ns_map: Items<'a, (&'a [u8], &'a [u8])>,
}

/// `uses` with each of the aliases standing for a name in the namespace `HH`.
pub open spec fn imported_from_hh<'a>(
    uses: StrMap<'a, &'a [u8]>,
    aliases: Seq<&'a [u8]>,
) -> StrMap<'a, &'a [u8]>
    decreases aliases.len(),
{
    if aliases.len() == 0 {
        uses
    } else {
        imported_from_hh(uses, aliases.drop_last()).added(
            aliases.last(),
            slice_of("HH\\".spec_bytes() + aliases.last()@),
        )
    }
}

/// `uses` with each of the given aliases standing for the name beside it.
pub open spec fn with_aliases<'a>(
    uses: StrMap<'a, &'a [u8]>,
    aliases: Seq<(&'a [u8], &'a [u8])>,
) -> StrMap<'a, &'a [u8]>
    decreases aliases.len(),
{
    if aliases.len() == 0 {
        uses
    } else {
        with_aliases(uses, aliases.drop_last()).added(aliases.last().0, aliases.last().1)
    }
}

/// The environment that a file begins in.
pub open spec fn global_env<'a>(
    auto_ns_map: Items<'a, (&'a [u8], &'a [u8])>,
    auto_import: AutoImport<'a>,
    disable_xhp_element_mangling: bool,
) -> NamespaceEnv<'a> {
    NamespaceEnv {
        ns_uses: with_aliases(
            imported_from_hh(StrMap::nothing(), auto_import.namespaces@),
            auto_ns_map@,
        ),
        class_uses: imported_from_hh(StrMap::nothing(), auto_import.types@),
        fun_uses: StrMap::nothing(),
        const_uses: StrMap::nothing(),
        record_def_uses: StrMap::nothing(),
        name: None,
        auto_ns_map,
        is_codegen: false,
        disable_xhp_element_mangling,
    }
}

fn import_from_hh<'a>(arena: &'a Bump, aliases: Items<'a, &'a [u8]>) -> (r: StrMap<'a, &'a [u8]>)
    ensures
        r == imported_from_hh(StrMap::nothing(), aliases@),
        forall|j: int|
            0 <= j < aliases@.len() ==> realised("HH\\".spec_bytes() + (#[trigger] aliases@[j])@),
{
    let mut uses: StrMap<'a, &'a [u8]> = StrMap::empty();
    let mut i: usize = 0;
    while i < aliases.len()
        invariant
            i <= aliases@.len(),
            uses == imported_from_hh(StrMap::nothing(), aliases@.take(i as int)),
            forall|j: int|
                0 <= j < i ==> realised("HH\\".spec_bytes() + (#[trigger] aliases@[j])@),
        decreases aliases@.len() - i,
    {
        let alias = *aliases.at(i);
        uses = uses.add(arena, alias, concat(arena, literal("HH\\"), alias));
        assert(aliases@.take(i + 1).drop_last() =~= aliases@.take(i as int));
        i = i + 1;
    }
    assert(aliases@.take(i as int) =~= aliases@);
    uses
}

/// The full name of a namespace that is declared inside another one.
pub open spec fn nested_bytes<'a>(current: Option<&'a [u8]>, name: Seq<u8>) -> Seq<u8> {
    match current {
        None => name,
        Some(outer) => outer@.push(BACKSLASH) + name,
    }
}

pub open spec fn nested<'a>(current: Option<&'a [u8]>, name: Seq<u8>) -> &'a [u8] {
    slice_of(nested_bytes(current, name))
}

/// The stack inside a namespace with the given name; without a name, inside
/// another block of the current namespace.
pub open spec fn entered<'a>(stack: Seq<NamespaceEnv<'a>>, name: Option<Seq<u8>>) -> Seq<
    NamespaceEnv<'a>,
> {
    let current = stack.last().name;
    stack.push(
        NamespaceEnv {
            name: match name {
                Some(name) => Some(nested(current, name)),
                None => current,
            },
            ..stack.last()
        },
    )
}

/// The stack outside the innermost namespace. The global one is never left.
pub open spec fn left<'a>(stack: Seq<NamespaceEnv<'a>>) -> Seq<NamespaceEnv<'a>> {
    if stack.len() > 1 {
        stack.drop_last()
    } else {
        stack
    }
}

/// Whether a namespace with the second name can stand directly inside one with
/// the first. Inside a block without a name its name is the same.
pub open spec fn inside<'a>(outer: Option<&'a [u8]>, inner: Option<&'a [u8]>) -> bool {
    match (outer, inner) {
        (None, _) => true,
        (Some(_), None) => false,
        (Some(outer), Some(inner)) => inner@ == outer@ || outer@.push(BACKSLASH).is_prefix_of(
            inner@,
        ),
    }
}

/// The name that a namespace was entered with, told from its full name and
/// that of the namespace around it.
pub open spec fn entered_with<'a>(outer: Option<&'a [u8]>, inner: Option<&'a [u8]>) -> Option<
    Seq<u8>,
> {
    match (outer, inner) {
        (_, None) => None,
        (None, Some(inner)) => Some(inner@),
        (Some(outer), Some(inner)) => if inner@ == outer@ {
            None
        } else {
            Some(inner@.skip(outer@.len() as int + 1))
        },
    }
}

/// The stack as if the namespace before the innermost one had been left before
/// the innermost one was entered.
pub open spec fn previous_left<'a>(stack: Seq<NamespaceEnv<'a>>) -> Seq<NamespaceEnv<'a>> {
    if stack.len() > 2 {
        entered(
            stack.drop_last().drop_last(),
            entered_with(stack[stack.len() - 2].name, stack[stack.len() - 1].name),
        )
    } else {
        stack
    }
}

/// The alias of an import that gives none: the last part of the name, where a
/// backslash at the end is not counted.
pub open spec fn implied_alias(name: Seq<u8>) -> Seq<u8> {
    if name.len() > 0 && name.last() == BACKSLASH {
        after_last(name.drop_last(), BACKSLASH)
    } else {
        after_last(name, BACKSLASH)
    }
}

/// The full name of something that is imported: it begins with a backslash,
/// and ends with none.
pub open spec fn imported_name(name: Seq<u8>) -> Seq<u8> {
    let trimmed = trim_end(name, BACKSLASH);
    if begins_with(trimmed, BACKSLASH) {
        trimmed
    } else {
        seq![BACKSLASH] + trimmed
    }
}

/// Whether the names that an import makes are at hand.
pub open spec fn import_realised<'a>(name: Seq<u8>, aliased_name: Option<&'a [u8]>) -> bool {
    &&& realised(imported_name(name))
    &&& aliased_name is None ==> realised(implied_alias(name))
}

/// An environment with one more import.
pub open spec fn imported<'a>(
    env: NamespaceEnv<'a>,
    kind: NamespaceUseKind,
    name: &'a [u8],
    aliased_name: Option<&'a [u8]>,
) -> NamespaceEnv<'a> {
    let alias = match aliased_name {
        Some(alias) => alias,
        None => slice_of(implied_alias(name@)),
    };
    let full = slice_of(imported_name(name@));
    NamespaceEnv {
        class_uses: if kind is Namespace {
            env.class_uses
        } else {
            env.class_uses.added(alias, full)
        },
        ns_uses: if kind is Type {
            env.ns_uses
        } else {
            env.ns_uses.added(alias, full)
        },
        ..env
    }
}

/// The name that a reference elaborates to. A name that begins with a
/// backslash is full already.
pub open spec fn elaborated<'a, 'text, H: Fn(Query<'a, 'text>) -> Answer<'a, 'text>>(
    host: H,
    env: NamespaceEnv<'a>,
    kind: ElaborateKind,
    name: &'a [u8],
) -> &'a [u8] {
    if begins_with(name@, BACKSLASH) {
        name
    } else {
        named(host, Query::RawId(env, kind, name))->Some_0
    }
}

/// The full name of something that is declared under the given name.
pub open spec fn declared<'a, 'text, H: Fn(Query<'a, 'text>) -> Answer<'a, 'text>>(
    host: H,
    env: NamespaceEnv<'a>,
    name: &'a [u8],
) -> &'a [u8] {
    if env.disable_xhp_element_mangling && name@.contains(COLON) {
        let name = match named(host, Query::XhpNamespace(name)) {
            Some(path) => path,
            None => name,
        };
        if begins_with(name@, BACKSLASH) {
            name
        } else {
            named(host, Query::CurrentNamespace(env, name))->Some_0
        }
    } else {
        named(host, Query::CurrentNamespace(env, name))->Some_0
    }
}

impl<'a> NamespaceBuilder<'a> {
    /// There is always a namespace to be in, and each of them stands inside the
    /// one before it.
    pub open spec fn wf(&self) -> bool {
        &&& self.stack@.len() > 0
        &&& forall|i: int|
            0 < i < self.stack@.len() ==> inside(
                self.stack@[i - 1].name,
                (#[trigger] self.stack@[i]).name,
            )
    }

    pub open spec fn env(&self) -> NamespaceEnv<'a> {
        self.stack@.last()
    }

    pub fn new_in(
        auto_ns_map: Items<'a, (&'a [u8], &'a [u8])>,
        auto_import: AutoImport<'a>,
        disable_xhp_element_mangling: bool,
        arena: &'a Bump,
    ) -> (r: Self)
        ensures
            r.stack@ == seq![
                global_env(auto_ns_map, auto_import, disable_xhp_element_mangling),
            ],
            forall|j: int|
                0 <= j < auto_import.namespaces@.len() ==> realised(
                    "HH\\".spec_bytes() + (#[trigger] auto_import.namespaces@[j])@,
                ),
            forall|j: int|
                0 <= j < auto_import.types@.len() ==> realised(
                    "HH\\".spec_bytes() + (#[trigger] auto_import.types@[j])@,
                ),
            r.auto_ns_map == auto_ns_map,
            r.arena == arena,
            r.wf(),
    {
        let mut ns_uses = import_from_hh(arena, auto_import.namespaces);
        let ghost autoimported = ns_uses;
        let mut i: usize = 0;
        assert(auto_ns_map@.take(0) =~= Seq::<(&'a [u8], &'a [u8])>::empty());
        while i < auto_ns_map.len()
            invariant
                i <= auto_ns_map@.len(),
                ns_uses == with_aliases(autoimported, auto_ns_map@.take(i as int)),
            decreases auto_ns_map@.len() - i,
        {
            let entry = auto_ns_map.at(i);
            ns_uses = ns_uses.add(arena, entry.0, entry.1);
            assert(auto_ns_map@.take(i + 1).drop_last() =~= auto_ns_map@.take(i as int));
            i = i + 1;
        }
        assert(auto_ns_map@.take(i as int) =~= auto_ns_map@);
        let class_uses = import_from_hh(arena, auto_import.types);
        let env = NamespaceEnv {
            ns_uses,
            class_uses,
            fun_uses: StrMap::empty(),
            const_uses: StrMap::empty(),
            record_def_uses: StrMap::empty(),
            name: None,
            auto_ns_map,
            is_codegen: false,
            disable_xhp_element_mangling,
        };
        let mut stack: Vec<NamespaceEnv<'a>> = Vec::new();
        stack.push(env);
        assert(stack@ =~= seq![env]);
        NamespaceBuilder { arena, stack, auto_ns_map }
    }

    pub fn current_env(&self) -> (r: NamespaceEnv<'a>)
        requires
            self.wf(),
        ensures
            r == self.env(),
    {
        self.stack[self.stack.len() - 1]
    }

    pub fn push_namespace(&mut self, name: Option<&[u8]>)
        requires
            old(self).wf(),
        ensures
            final(self).wf(),
            final(self).stack@ == entered(
                old(self).stack@,
                match name {
                    Some(name) => Some(name@),
                    None => None,
                },
            ),
            name matches Some(name) ==> (final(self).env().name matches Some(full) && full@
                == nested_bytes(old(self).env().name, name@)),
            final(self).arena == old(self).arena,
            final(self).auto_ns_map == old(self).auto_ns_map,
    {
        let nsenv = self.current_env();
        let current = nsenv.name;
        match name {
            Some(name) => {
                let mut fully_qualified: Vec<u8> = Vec::new();
                match current {
                    None => {},
                    Some(current) => {
                        push_bytes(&mut fully_qualified, current);
                        fully_qualified.push(BACKSLASH);
                    },
                }
                push_bytes(&mut fully_qualified, name);
                let full = alloc_slice_in(self.arena, fully_qualified.as_slice());
                proof {
                    match current {
                        None => assert(full@ =~= name@),
                        Some(outer) => assert(full@ =~= outer@.push(BACKSLASH) + name@),
                    }
                    assert(slice_of(full@) == full);
                    if let Some(outer) = current {
                        let prefix = outer@.push(BACKSLASH);
                        assert(prefix =~= full@.subrange(0, prefix.len() as int));
                    }
                }
                self.stack.push(NamespaceEnv { name: Some(full), ..nsenv });
            },
            None => {
                self.stack.push(NamespaceEnv { name: current, ..nsenv });
            },
        }
    }

    pub fn pop_namespace(&mut self)
        requires
            old(self).wf(),
        ensures
            final(self).wf(),
            final(self).stack@ == left(old(self).stack@),
            final(self).arena == old(self).arena,
            final(self).auto_ns_map == old(self).auto_ns_map,
    {
        // The global namespace is never pushed, so it is never popped either.
        if self.stack.len() > 1 {
            let _ = self.stack.pop();
        }
    }

    /// Leaves the namespace before the innermost one, behind its back.
    pub fn pop_previous_namespace(&mut self)
        requires
            old(self).wf(),
        ensures
            final(self).wf(),
            final(self).stack@ == previous_left(old(self).stack@),
            final(self).arena == old(self).arena,
            final(self).auto_ns_map == old(self).auto_ns_map,
    {
        let len = self.stack.len();
        if len > 2 {
            let last = self.stack[len - 1].name;
            let previous = self.stack[len - 2].name;
            assert(inside(previous, last));
            let name: Option<&'a [u8]> = match (previous, last) {
                (_, None) => None,
                (None, Some(inner)) => Some(inner),
                (Some(outer), Some(inner)) => {
                    if same(inner, outer) {
                        None
                    } else {
                        let end: usize = inner.len();
                        let start: usize = outer.len();
                        proof {
                            let prefix = outer@.push(BACKSLASH);
                            assert(prefix.is_prefix_of(inner@));
                            assert(prefix.len() <= inner@.len());
                            assert(inner@.skip(start + 1) =~= inner@.subrange(
                                start + 1,
                                end as int,
                            ));
                        }
                        Some(slice_subrange(inner, start + 1, end))
                    }
                },
            };
            let _ = self.stack.pop();
            let _ = self.stack.pop();
            self.push_namespace(name);
        }
    }

    pub fn current_namespace(&self) -> (r: Option<&'a [u8]>)
        requires
            self.wf(),
        ensures
            r == self.env().name,
    {
        self.current_env().name
    }

    pub fn add_import(
        &mut self,
        kind: NamespaceUseKind,
        name: &'a [u8],
        aliased_name: Option<&'a [u8]>,
    )
        requires
            old(self).wf(),
            aliased_name is None ==> name@.len() > 0,
        ensures
            final(self).wf(),
            final(self).stack@ == old(self).stack@.drop_last().push(
                imported(old(self).env(), kind, name, aliased_name),
            ),
            import_realised(name@, aliased_name),
            ({
                let alias = match aliased_name {
                    Some(alias) => alias@,
                    None => implied_alias(name@),
                };
                let env = final(self).env();
                &&& !(kind is Namespace) ==> (lookup(env.class_uses.entries@, alias) matches Some(
                    full,
                ) && full@ == imported_name(name@))
                &&& !(kind is Type) ==> (lookup(env.ns_uses.entries@, alias) matches Some(full)
                    && full@ == imported_name(name@))
            }),
            final(self).arena == old(self).arena,
            final(self).auto_ns_map == old(self).auto_ns_map,
    {
        let env = self.current_env();
        let alias = match aliased_name {
            Some(alias) => alias,
            None => {
                let len = name.len();
                if name[len - 1] == BACKSLASH {
                    let shorter = slice_subrange(name, 0, len - 1);
                    assert(shorter@ =~= name@.drop_last());
                    last_part(shorter, BACKSLASH)
                } else {
                    last_part(name, BACKSLASH)
                }
            },
        };
        let trimmed = trim_end_byte(name, BACKSLASH);
        let full = if starts_with_byte(trimmed, BACKSLASH) {
            trimmed
        } else {
            prefix_slash(self.arena, trimmed)
        };
        assert(slice_of(full@) == full);
        assert(slice_of(alias@) == alias);
        proof {
            lemma_lookup_with_entry(env.class_uses.entries@, alias, full, alias@);
            lemma_lookup_with_entry(env.ns_uses.entries@, alias, full, alias@);
        }
        let class_uses = match kind {
            NamespaceUseKind::Namespace => env.class_uses,
            _ => env.class_uses.add(self.arena, alias, full),
        };
        let ns_uses = match kind {
            NamespaceUseKind::Type => env.ns_uses,
            _ => env.ns_uses.add(self.arena, alias, full),
        };
        let _ = self.stack.pop();
        self.stack.push(NamespaceEnv { class_uses, ns_uses, ..env });
    }

    pub fn elaborate_raw_id<'text, H: Fn(Query<'a, 'text>) -> Answer<'a, 'text>>(
        &self,
        host: &H,
        kind: ElaborateKind,
        name: &'a [u8],
    ) -> (r: &'a [u8])
        requires
            self.wf(),
            host_wf(*host),
        ensures
            r == elaborated(*host, self.env(), kind, name),
    {
        if starts_with_byte(name, BACKSLASH) {
            return name;
        }
        ask_name(host, Query::RawId(self.current_env(), kind, name))
    }

    pub fn elaborate_defined_id<'text, H: Fn(Query<'a, 'text>) -> Answer<'a, 'text>>(
        &self,
        host: &H,
        id: Id<'a>,
    ) -> (r: Id<'a>)
        requires
            self.wf(),
            host_wf(*host),
        ensures
            r == Id(id.0, declared(*host, self.env(), id.1)),
    {
        let Id(pos, name) = id;
        let env = self.current_env();
        let full = if env.disable_xhp_element_mangling && contains_byte(name, COLON) {
            let name = match ask_name_opt(host, Query::XhpNamespace(name)) {
                Some(path) => path,
                None => name,
            };
            if !starts_with_byte(name, BACKSLASH) {
                ask_name(host, Query::CurrentNamespace(env, name))
            } else {
                name
            }
        } else {
            ask_name(host, Query::CurrentNamespace(env, name))
        };
        Id(pos, full)
    }
}

/// Entering a namespace and leaving it leads back to where one was.
pub proof fn law_leaving_undoes_entering<'a>(
    stack: Seq<NamespaceEnv<'a>>,
    name: Option<Seq<u8>>,
)
    requires
        stack.len() > 0,
    ensures
        left(entered(stack, name)) == stack,
{
    assert(left(entered(stack, name)) =~= stack);
}

/// Entering Y, leaving it and entering X is the same as entering Y, entering X
/// and leaving the namespace before the innermost one, whether they have names
/// or not. The full name of X has to fit in memory.
pub proof fn law_leaving_the_previous_namespace<'a>(
    stack: Seq<NamespaceEnv<'a>>,
    y: Option<Seq<u8>>,
    x: Option<Seq<u8>>,
)
    requires
        stack.len() > 0,
        x matches Some(x) ==> realised(nested_bytes(entered(stack, y).last().name, x)),
    ensures
        previous_left(entered(entered(stack, y), x)) == entered(left(entered(stack, y)), x),
{
    let once = entered(stack, y);
    let twice = entered(once, x);
    let previous = twice[twice.len() - 2].name;
    let last = twice[twice.len() - 1].name;
    assert(twice.drop_last().drop_last() =~= stack);
    assert(left(once) =~= stack);
    if let Some(x) = x {
        if let Some(outer) = previous {
            let full = outer@.push(BACKSLASH) + x;
            assert(last->Some_0@ == full);
            assert(full.len() > outer@.len());
            assert(full.skip(outer@.len() as int + 1) =~= x);
        }
    }
}

/// The global namespace is never left: it stays the first one.
pub proof fn law_global_namespace_stays<'a>(stack: Seq<NamespaceEnv<'a>>, name: Option<Seq<u8>>)
    requires
        stack.len() > 0,
    ensures
        entered(stack, name).len() > 0,
        entered(stack, name)[0] == stack[0],
        left(stack).len() > 0,
        left(stack)[0] == stack[0],
        previous_left(stack).len() > 0,
        previous_left(stack)[0] == stack[0],
{
}

/// What is imported has a full name.
pub proof fn law_imported_name_is_full(name: Seq<u8>)
    ensures
        begins_with(imported_name(name), BACKSLASH),
{
}

/// An import is found under its alias, and every other alias keeps its
/// meaning. The import of a type leaves the namespaces as they were, and the
/// import of a namespace the types.
pub proof fn law_import_is_found<'a>(
    env: NamespaceEnv<'a>,
    kind: NamespaceUseKind,
    name: &'a [u8],
    alias: &'a [u8],
    asked: Seq<u8>,
)
    ensures
        ({
            let after = imported(env, kind, name, Some(alias));
            let full = slice_of(imported_name(name@));
            &&& lookup(after.class_uses.entries@, asked) == (if asked == alias@ && !(
            kind is Namespace) {
                Some(full)
            } else {
                lookup(env.class_uses.entries@, asked)
            })
            &&& lookup(after.ns_uses.entries@, asked) == (if asked == alias@ && !(kind is Type) {
                Some(full)
            } else {
                lookup(env.ns_uses.entries@, asked)
            })
        }),
{
    let full: &'a [u8] = slice_of(imported_name(name@));
    lemma_lookup_with_entry(env.class_uses.entries@, alias, full, asked);
    lemma_lookup_with_entry(env.ns_uses.entries@, alias, full, asked);
}

/// A name that begins with a backslash is full, and elaborating it changes
/// nothing.
pub proof fn law_full_names_stay<'a, 'text, H: Fn(Query<'a, 'text>) -> Answer<'a, 'text>>(
    host: H,
    env: NamespaceEnv<'a>,
    kind: ElaborateKind,
    name: &'a [u8],
)
    requires
        begins_with(name@, BACKSLASH),
    ensures
        elaborated(host, env, kind, name) == name,
{
}

/// Whether a host gives the meaning of a plain name that is imported as a type
/// by that import.
pub open spec fn follows_imports<'a, 'text, H: Fn(Query<'a, 'text>) -> Answer<'a, 'text>>(
    host: H,
) -> bool {
    forall|env: NamespaceEnv<'a>, name: &'a [u8]|
        !name@.contains(BACKSLASH) && lookup(env.class_uses.entries@, name@) is Some ==> (
        #[trigger] named(host, Query::RawId(env, ElaborateKind::Class, name))) == lookup(
            env.class_uses.entries@,
            name@,
        )
}

/// Whether a host answers with full names when it is asked for the meaning of
/// a type.
pub open spec fn gives_full_names<'a, 'text, H: Fn(Query<'a, 'text>) -> Answer<'a, 'text>>(
    host: H,
) -> bool {
    forall|env: NamespaceEnv<'a>, name: &'a [u8]|
        ((#[trigger] named(host, Query::RawId(env, ElaborateKind::Class, name))) matches Some(full)
            && begins_with(full@, BACKSLASH))
}

/// With a host that follows imports, the last part of the name of an imported
/// type elaborates to the full name, and elaborating that again changes
/// nothing. The full name has to fit in memory.
pub proof fn law_import_is_used<'a, 'text, H: Fn(Query<'a, 'text>) -> Answer<'a, 'text>>(
    host: H,
    env: NamespaceEnv<'a>,
    kind: NamespaceUseKind,
    name: &'a [u8],
    alias: &'a [u8],
)
    requires
        follows_imports(host),
        !(kind is Namespace),
        alias@ == implied_alias(name@),
        realised(imported_name(name@)),
    ensures
        ({
            let after = imported(env, kind, name, None);
            let full = elaborated(host, after, ElaborateKind::Class, alias);
            &&& full@ == imported_name(name@)
            &&& elaborated(host, after, ElaborateKind::Class, full) == full
        }),
{
    let written = if name@.len() > 0 && name@.last() == BACKSLASH {
        name@.drop_last()
    } else {
        name@
    };
    law_last_part(written, BACKSLASH);
    assert(!alias@.contains(BACKSLASH));
    assert(begins_with(alias@, BACKSLASH) ==> alias@.contains(alias@[0]));
    assert(slice_of(alias@) == alias);
    law_import_is_found(env, kind, name, alias, alias@);
    law_imported_name_is_full(name@);
    assert(named(host, Query::RawId(imported(env, kind, name, None), ElaborateKind::Class, alias))
        == lookup(imported(env, kind, name, None).class_uses.entries@, alias@));
}

/// Inside a namespace its name stands behind that of the namespace around it and
/// a backslash; inside a block without a name the name is the same. All imports
/// stay in force, and the namespaces around it as they were.
pub proof fn law_inside_a_namespace<'a>(stack: Seq<NamespaceEnv<'a>>, name: Seq<u8>)
    requires
        stack.len() > 0,
    ensures
        ({
            let outer = stack.last();
            let inner = entered(stack, Some(name)).last();
            let block = entered(stack, None).last();
            &&& entered(stack, Some(name)).drop_last() == stack
            &&& entered(stack, None).drop_last() == stack
            &&& block == outer
            &&& outer.name is None ==> inner.name == Some(slice_of::<'a>(name))
            &&& outer.name matches Some(around) ==> inner.name == Some(
                slice_of::<'a>(around@ + seq![BACKSLASH] + name),
            )
            &&& inner.ns_uses == outer.ns_uses
            &&& inner.class_uses == outer.class_uses
            &&& inner.fun_uses == outer.fun_uses
            &&& inner.const_uses == outer.const_uses
            &&& inner.record_def_uses == outer.record_def_uses
            &&& inner.auto_ns_map == outer.auto_ns_map
            &&& inner.is_codegen == outer.is_codegen
            &&& inner.disable_xhp_element_mangling == outer.disable_xhp_element_mangling
        }),
{
    assert(entered(stack, Some(name)).drop_last() =~= stack);
    assert(entered(stack, None).drop_last() =~= stack);
    if let Some(around) = stack.last().name {
        assert(around@.push(BACKSLASH) + name =~= around@ + seq![BACKSLASH] + name);
    }
}

/// Leaving a namespace leads to the one around it, except from the global one.
pub proof fn law_leaving_a_namespace<'a>(stack: Seq<NamespaceEnv<'a>>)
    requires
        stack.len() > 0,
    ensures
        stack.len() > 1 ==> left(stack) == stack.drop_last() && left(stack).last()
            == stack[stack.len() - 2],
        stack.len() == 1 ==> left(stack) == stack,
{
}

/// Each name that is imported without being asked for stands for the one behind
/// `HH\`; a later one does not change the meaning of others.
pub proof fn law_imports_from_hh<'a>(
    uses: StrMap<'a, &'a [u8]>,
    aliases: Seq<&'a [u8]>,
    alias: &'a [u8],
    asked: Seq<u8>,
)
    ensures
        imported_from_hh(uses, Seq::<&'a [u8]>::empty()) == uses,
        lookup(imported_from_hh(uses, aliases.push(alias)).entries@, asked) == (if asked == alias@ {
            Some(slice_of::<'a>("HH\\".spec_bytes() + alias@))
        } else {
            lookup(imported_from_hh(uses, aliases).entries@, asked)
        }),
{
    assert(aliases.push(alias).drop_last() =~= aliases);
    let full: &'a [u8] = slice_of("HH\\".spec_bytes() + alias@);
    lemma_lookup_with_entry(imported_from_hh(uses, aliases).entries@, alias, full, asked);
}

/// Each alias stands for the name beside it; a later one does not change the
/// meaning of others.
pub proof fn law_given_aliases<'a>(
    uses: StrMap<'a, &'a [u8]>,
    aliases: Seq<(&'a [u8], &'a [u8])>,
    alias: (&'a [u8], &'a [u8]),
    asked: Seq<u8>,
)
    ensures
        with_aliases(uses, Seq::<(&'a [u8], &'a [u8])>::empty()) == uses,
        lookup(with_aliases(uses, aliases.push(alias)).entries@, asked) == (if asked == alias.0@ {
            Some(alias.1)
        } else {
            lookup(with_aliases(uses, aliases).entries@, asked)
        }),
{
    assert(aliases.push(alias).drop_last() =~= aliases);
    lemma_lookup_with_entry(with_aliases(uses, aliases).entries@, alias.0, alias.1, asked);
}

/// A file begins in the global namespace, with the types and namespaces of `HH`
/// imported, the given aliases for namespaces, and nothing else.
pub proof fn law_where_a_file_begins<'a>(
    auto_ns_map: Items<'a, (&'a [u8], &'a [u8])>,
    auto_import: AutoImport<'a>,
    disable_xhp_element_mangling: bool,
)
    ensures
        ({
            let env = global_env(auto_ns_map, auto_import, disable_xhp_element_mangling);
            &&& env.name is None
            &&& env.class_uses == imported_from_hh(StrMap::nothing(), auto_import.types@)
            &&& env.ns_uses == with_aliases(
                imported_from_hh(StrMap::nothing(), auto_import.namespaces@),
                auto_ns_map@,
            )
            &&& env.fun_uses.entries@.len() == 0
            &&& env.const_uses.entries@.len() == 0
            &&& env.record_def_uses.entries@.len() == 0
            &&& env.auto_ns_map == auto_ns_map
            &&& !env.is_codegen
            &&& env.disable_xhp_element_mangling == disable_xhp_element_mangling
        }),
{
}

/// The alias of an import that gives none has no backslash, and is the end of
/// the name, but for a backslash behind it.
pub proof fn law_implied_alias(name: Seq<u8>)
    ensures
        !implied_alias(name).contains(BACKSLASH),
        !(name.len() > 0 && name.last() == BACKSLASH) ==> implied_alias(name).is_suffix_of(name)
            && implied_alias(name.push(BACKSLASH)) == implied_alias(name),
        !name.contains(BACKSLASH) ==> implied_alias(name) == name,
{
    law_last_part(name, BACKSLASH);
    if name.len() > 0 && name.last() == BACKSLASH {
        law_last_part(name.drop_last(), BACKSLASH);
        assert(name.contains(name.last())) by {
            assert(name[name.len() - 1] == BACKSLASH);
        }
    } else {
        assert(name.push(BACKSLASH).drop_last() =~= name);
    }
}

/// The full name of an import is its name behind a backslash. One that has a
/// backslash in front already gets no other, and those at the end are dropped.
pub proof fn law_full_name_of_an_import(name: Seq<u8>)
    requires
        !(name.len() > 0 && name.last() == BACKSLASH),
    ensures
        begins_with(name, BACKSLASH) ==> imported_name(name) == name,
        !begins_with(name, BACKSLASH) ==> imported_name(name) == seq![BACKSLASH] + name,
        imported_name(name.push(BACKSLASH)) == imported_name(name),
{
    assert(name.push(BACKSLASH).drop_last() =~= name);
    reveal_with_fuel(trim_end, 2);
}

/// An import without an alias is found under the implied one. No import changes
/// anything but the types and namespaces that are imported.
pub proof fn law_imports_change_only_imports<'a>(
    env: NamespaceEnv<'a>,
    kind: NamespaceUseKind,
    name: &'a [u8],
    aliased_name: Option<&'a [u8]>,
)
    ensures
        ({
            let after = imported(env, kind, name, aliased_name);
            &&& aliased_name is None ==> after == imported(
                env,
                kind,
                name,
                Some(slice_of(implied_alias(name@))),
            )
            &&& kind is Namespace ==> after.class_uses == env.class_uses
            &&& kind is Type ==> after.ns_uses == env.ns_uses
            &&& after.fun_uses == env.fun_uses
            &&& after.const_uses == env.const_uses
            &&& after.record_def_uses == env.record_def_uses
            &&& after.name == env.name
            &&& after.auto_ns_map == env.auto_ns_map
            &&& after.is_codegen == env.is_codegen
            &&& after.disable_xhp_element_mangling == env.disable_xhp_element_mangling
        }),
{
}

/// What a name stands for that is not full is what the host answers for it in
/// the environment, as a type or as a constant.
pub proof fn law_names_are_looked_up<'a, 'text, H: Fn(Query<'a, 'text>) -> Answer<'a, 'text>>(
    host: H,
    env: NamespaceEnv<'a>,
    kind: ElaborateKind,
    name: &'a [u8],
)
    ensures
        !begins_with(name@, BACKSLASH) ==> (named(
            host,
            Query::RawId(env, kind, name),
        ) matches Some(full) ==> elaborated(host, env, kind, name) == full),
{
}

/// What is declared has the name that the current namespace gives it. Where XHP
/// names are not mangled, one with a colon is a path through namespaces first,
/// and stays as it is where that path is full.
pub proof fn law_declared_in_a_namespace<'a, 'text, H: Fn(Query<'a, 'text>) -> Answer<'a, 'text>>(
    host: H,
    env: NamespaceEnv<'a>,
    name: &'a [u8],
)
    ensures
        ({
            let is_path = env.disable_xhp_element_mangling && name@.contains(COLON);
            let path = named(host, Query::XhpNamespace(name));
            let inner = if is_path && path is Some {
                path->Some_0
            } else {
                name
            };
            &&& is_path && begins_with(inner@, BACKSLASH) ==> declared(host, env, name) == inner
            &&& !is_path || !begins_with(inner@, BACKSLASH) ==> (named(
                host,
                Query::CurrentNamespace(env, inner),
            ) matches Some(full) ==> declared(host, env, name) == full)
        }),
{
}

} // verus!
