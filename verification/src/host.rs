//! The questions that reading declarations puts to the toolchain around it.
//!
//! What a name means under the imports of a namespace, and what a quoted
//! literal denotes, is settled by tables that live elsewhere. The parser holds
//! a function that answers such questions, and every contract speaks of the
//! answers that this function gives.

use crate::namespace::NamespaceEnv;
use crate::syntax::ElaborateKind;
use crate::token::TokenKind;
use vstd::prelude::*;

verus! {

#[derive(Copy, Clone)]
pub enum Query<'a, 'text> {
    /// The full name of something that is referred to.
    RawId(NamespaceEnv<'a>, ElaborateKind, &'a [u8]),
    /// The full name of something that is declared in the current namespace.
    CurrentNamespace(NamespaceEnv<'a>, &'a [u8]),
    /// The name of an XHP class as a path through namespaces.
    XhpNamespace(&'a [u8]),
    /// The text of a literal without its quotes.
    Unquote(&'text [u8]),
    /// What the text of a literal of the given kind denotes.
    Unescape(TokenKind, &'a [u8]),
}

#[derive(Copy, Clone)]
pub enum Answer<'a, 'text> {
    Name(&'a [u8]),
    Source(&'text [u8]),
    Nothing,
}

/// Whether an answer is of the form that a question asks for.
pub open spec fn fits<'a, 'text>(query: Query<'a, 'text>, answer: Answer<'a, 'text>) -> bool {
    match query {
        Query::RawId(_, _, _) => answer is Name,
        Query::CurrentNamespace(_, _) => answer is Name,
        Query::XhpNamespace(_) => answer is Name || answer is Nothing,
        Query::Unquote(_) => answer is Source,
        Query::Unescape(_, _) => answer is Name || answer is Nothing,
    }
}

/// A host can be asked anything, gives the same answer to the same question,
/// and answers in the form that is asked for.
pub open spec fn host_wf<'a, 'text, H: Fn(Query<'a, 'text>) -> Answer<'a, 'text>>(
    host: H,
) -> bool {
    &&& forall|q: Query<'a, 'text>| call_requires(host, (q,))
    &&& forall|q: Query<'a, 'text>, r1: Answer<'a, 'text>, r2: Answer<'a, 'text>|
        #[trigger] call_ensures(host, (q,), r1) && #[trigger] call_ensures(host, (q,), r2) ==> r1
            == r2
    &&& forall|q: Query<'a, 'text>, r: Answer<'a, 'text>| #[trigger]
        call_ensures(host, (q,), r) ==> fits(q, r)
}

/// The answer of a host to a question.
pub open spec fn answer<'a, 'text, H: Fn(Query<'a, 'text>) -> Answer<'a, 'text>>(
    host: H,
    query: Query<'a, 'text>,
) -> Answer<'a, 'text> {
    choose|r: Answer<'a, 'text>| call_ensures(host, (query,), r)
}

/// The name that answers a question for a name.
pub open spec fn named<'a, 'text, H: Fn(Query<'a, 'text>) -> Answer<'a, 'text>>(
    host: H,
    query: Query<'a, 'text>,
) -> Option<&'a [u8]> {
    match answer(host, query) {
        Answer::Name(name) => Some(name),
        _ => None,
    }
}

pub fn ask<'a, 'text, H: Fn(Query<'a, 'text>) -> Answer<'a, 'text>>(
    host: &H,
    query: Query<'a, 'text>,
) -> (r: Answer<'a, 'text>)
    requires
        host_wf(*host),
    ensures
        r == answer(*host, query),
        fits(query, r),
{
    host(query)
}

/// Asks for a name that every host gives.
pub fn ask_name<'a, 'text, H: Fn(Query<'a, 'text>) -> Answer<'a, 'text>>(
    host: &H,
    query: Query<'a, 'text>,
) -> (r: &'a [u8])
    requires
        host_wf(*host),
        query is RawId || query is CurrentNamespace,
    ensures
        Some(r) == named(*host, query),
{
    match ask(host, query) {
        Answer::Name(name) => name,
        _ => {
            assert(false);
            &[]
        },
    }
}

/// Asks for a name that there need not be.
pub fn ask_name_opt<'a, 'text, H: Fn(Query<'a, 'text>) -> Answer<'a, 'text>>(
    host: &H,
    query: Query<'a, 'text>,
) -> (r: Option<&'a [u8]>)
    requires
        host_wf(*host),
    ensures
        r == named(*host, query),
{
    match ask(host, query) {
        Answer::Name(name) => Some(name),
        _ => None,
    }
}

/// The text of a literal without its quotes.
pub open spec fn unquoted<'a, 'text, H: Fn(Query<'a, 'text>) -> Answer<'a, 'text>>(
    host: H,
    text: &'text [u8],
) -> &'text [u8] {
    match answer(host, Query::Unquote(text)) {
        Answer::Source(inner) => inner,
        _ => text,
    }
}

pub fn unquote<'a, 'text, H: Fn(Query<'a, 'text>) -> Answer<'a, 'text>>(
    host: &H,
    text: &'text [u8],
) -> (r: &'text [u8])
    requires
        host_wf(*host),
    ensures
        r == unquoted(*host, text),
{
    match ask(host, Query::Unquote(text)) {
        Answer::Source(inner) => inner,
        _ => text,
    }
}

} // verus!
