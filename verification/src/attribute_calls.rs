//! Attributes as they are written: a name with arguments.

use crate::arena::{alloc_slice_in, lemma_items_of, lemma_slice_of, realised, slice_of, Items};
use crate::host::{Answer, Query};
use crate::node::{ClassNameParam, Node, UserAttributeNode};
use crate::parser::{DirectDeclSmartConstructors, SourceTextAllocator};
use crate::syntax::{Bop, ClassId_, Expr, Expr_, Id};
use crate::text::{is, literal, push_bytes, starts_with};
use crate::token::SyntaxKind;
use vstd::prelude::*;
use vstd::string::*;

verus! {

broadcast use {lemma_items_of, lemma_slice_of};

/// The string that a concatenation of literals denotes. Other parts of it are
/// left out.
pub open spec fn concatenated<'a>(expr: Expr<'a>) -> Seq<u8>
    decreases expr,
{
    match expr.1 {
        Expr_::String(value) => value@,
        Expr_::Binop(of) => if of.0 == Bop::Dot {
            concatenated(*of.1) + concatenated(*of.2)
        } else {
            Seq::<u8>::empty()
        },
        _ => Seq::<u8>::empty(),
    }
}

pub fn fold_string_concat<'a>(expr: &'a Expr<'a>, acc: &mut Vec<u8>)
    ensures
        final(acc)@ == old(acc)@ + concatenated(*expr),
    decreases expr,
{
    match expr.1 {
        Expr_::String(value) => push_bytes(acc, value),
        Expr_::Binop(of) => {
            if of.0 == Bop::Dot {
                fold_string_concat(of.1, acc);
                fold_string_concat(of.2, acc);
            }
        },
        _ => {},
    }
    assert(acc@ =~= old(acc)@ + concatenated(*expr));
}

/// The strings among the arguments of an attribute: literals, and what
/// operators make of them.
pub open spec fn string_params<'a>(nodes: Seq<Node<'a>>) -> Seq<&'a [u8]>
    decreases nodes.len(),
{
    if nodes.len() == 0 {
        Seq::<&'a [u8]>::empty()
    } else {
        let before = string_params(nodes.drop_last());
        match nodes.last() {
            Node::StringLiteral(of) => before.push(of.0),
            Node::Expr(expr) => if expr.1 is Binop {
                before.push(slice_of(concatenated(*expr)))
            } else {
                before
            },
            _ => before,
        }
    }
}

/// Whether the strings that are put together are at hand.
pub open spec fn concatenations_realised<'a>(nodes: Seq<Node<'a>>) -> bool {
    forall|i: int|
        0 <= i < nodes.len() ==> ((#[trigger] nodes[i]) matches Node::Expr(expr)
            ==> expr.1 is Binop ==> realised(concatenated(*expr)))
}

/// Whether the strings that an attribute takes are kept.
pub open spec fn keeps_strings(name: Seq<u8>) -> bool {
    name == "__Deprecated".spec_bytes() || name == "__Cipp".spec_bytes() || name
        == "__CippLocal".spec_bytes() || name == "__Policied".spec_bytes() || name
        == "__Module".spec_bytes()
}

impl<
    'a,
    'text,
    S: SourceTextAllocator<'text, 'a>,
    H: Fn(Query<'a, 'text>) -> Answer<'a, 'text>,
> DirectDeclSmartConstructors<'a, 'text, S, H> {
    /// The class that an argument such as `Foo::class` names.
    pub open spec fn spec_class_name_param(&self, node: Node<'a>) -> Option<ClassNameParam<'a>> {
        match node {
            Node::Expr(expr) => match expr.1 {
                Expr_::ClassConst(of) => match of.0.1 {
                    ClassId_::CI(id) => if of.1.1@ == "class".spec_bytes() {
                        Some(
                            ClassNameParam {
                                name: self.spec_elaborate_id(*id),
                                full_pos: expr.0,
                            },
                        )
                    } else {
                        None
                    },
                    _ => None,
                },
                _ => None,
            },
            _ => None,
        }
    }

    fn class_name_param(&self, node: Node<'a>) -> (r: Option<ClassNameParam<'a>>)
        requires
            self.wf(),
        ensures
            r == self.spec_class_name_param(node),
    {
        match node {
            Node::Expr(expr) => match expr.1 {
                Expr_::ClassConst(of) => match of.0.1 {
                    ClassId_::CI(id) => {
                        if is(of.1.1, "class") {
                            Some(
                                ClassNameParam {
                                    name: self.elaborate_id(*id),
                                    full_pos: expr.0,
                                },
                            )
                        } else {
                            None
                        }
                    },
                    _ => None,
                },
                _ => None,
            },
            _ => None,
        }
    }

    pub open spec fn spec_class_name_params(&self, nodes: Seq<Node<'a>>) -> Seq<
        ClassNameParam<'a>,
    >
        decreases nodes.len(),
    {
        if nodes.len() == 0 {
            Seq::<ClassNameParam<'a>>::empty()
        } else {
            let before = self.spec_class_name_params(nodes.drop_last());
            match self.spec_class_name_param(nodes.last()) {
                Some(param) => before.push(param),
                None => before,
            }
        }
    }

    /// The name of an attribute. Those of the language begin with two
    /// underscores; any other one is the name of a class.
    pub open spec fn spec_attribute_id(&self, name: Node<'a>) -> Option<Id<'a>> {
        match self.spec_expect_name(name) {
            Some(id) => if "__".spec_bytes().is_prefix_of(id.1@) {
                Some(id)
            } else {
                Some(self.spec_elaborate_id(id))
            },
            None => None,
        }
    }

    pub open spec fn spec_make_constructor_call(&self, name: Node<'a>, args: Node<'a>) -> Node<
        'a,
    > {
        match self.spec_attribute_id(name) {
            Some(id) => Node::Attribute(
                &UserAttributeNode {
                    name: id,
                    classname_params: Items::of(self.spec_class_name_params(args.elements())),
                    string_literal_params: Items::of(
                        if keeps_strings(id.1@) {
                            string_params(args.elements())
                        } else {
                            Seq::<&'a [u8]>::empty()
                        },
                    ),
                },
            ),
            None => Node::Ignored(SyntaxKind::ConstructorCall),
        }
    }

    pub fn make_constructor_call(
        &self,
        name: Node<'a>,
        _left_paren: Node<'a>,
        args: Node<'a>,
        _right_paren: Node<'a>,
    ) -> (r: Node<'a>)
        requires
            self.wf(),
        ensures
            r == self.spec_make_constructor_call(name, args),
            self.spec_attribute_id(name) matches Some(id) ==> (keeps_strings(id.1@)
                ==> concatenations_realised(args.elements())),
    {
        let unqualified_name = match self.expect_name(name) {
            Some(name) => name,
            None => return Node::Ignored(SyntaxKind::ConstructorCall),
        };
        let name = if starts_with(unqualified_name.1, literal("__")) {
            unqualified_name
        } else {
            self.elaborate_id(unqualified_name)
        };
        let len = args.len();
        let ghost nodes = args.elements();
        assert(nodes.take(0) =~= Seq::<Node<'a>>::empty());
        let mut classes: Vec<ClassNameParam<'a>> = Vec::new();
        let mut i: usize = 0;
        while i < len
            invariant
                self.wf(),
                nodes == args.elements(),
                len == nodes.len(),
                i <= len,
                classes@ == self.spec_class_name_params(nodes.take(i as int)),
            decreases len - i,
        {
            assert(nodes.take(i + 1).drop_last() =~= nodes.take(i as int));
            if let Some(param) = self.class_name_param(args.nth(i)) {
                classes.push(param);
            }
            i = i + 1;
        }
        let mut strings: Vec<&'a [u8]> = Vec::new();
        if is(name.1, "__Deprecated") || is(name.1, "__Cipp") || is(name.1, "__CippLocal") || is(
            name.1,
            "__Policied",
        ) || is(name.1, "__Module") {
            i = 0;
            while i < len
                invariant
                    nodes == args.elements(),
                    len == nodes.len(),
                    i <= len,
                    strings@ == string_params(nodes.take(i as int)),
                    concatenations_realised(nodes.take(i as int)),
                decreases len - i,
            {
                assert(nodes.take(i + 1).drop_last() =~= nodes.take(i as int));
                match args.nth(i) {
                    Node::StringLiteral(of) => strings.push(of.0),
                    Node::Expr(expr) => {
                        if let Expr_::Binop(_) = expr.1 {
                            let mut acc: Vec<u8> = Vec::new();
                            fold_string_concat(expr, &mut acc);
                            let joined = alloc_slice_in(self.arena, acc.as_slice());
                            assert(joined@ =~= concatenated(*expr));
                            assert(slice_of(joined@) == joined);
                            strings.push(joined);
                        }
                    },
                    _ => {},
                }
                i = i + 1;
            }
        }
        assert(nodes.take(len as int) =~= nodes);
        Node::Attribute(
            self.allocate(
                UserAttributeNode {
                    name,
                    classname_params: Items::copied(self.arena, classes.as_slice()),
                    string_literal_params: Items::copied(self.arena, strings.as_slice()),
                },
            ),
        )
    }

    pub open spec fn spec_make_old_attribute_specification(
        &self,
        ltlt: Node<'a>,
        attrs: Node<'a>,
        gtgt: Node<'a>,
    ) -> Node<'a> {
        match attrs {
            Node::List(nodes) => Node::BracketedList(
                &(&self.spec_pos(ltlt), *nodes, &self.spec_pos(gtgt)),
            ),
            _ => Node::Ignored(SyntaxKind::OldAttributeSpecification),
        }
    }

    pub fn make_old_attribute_specification(
        &self,
        ltlt: Node<'a>,
        attrs: Node<'a>,
        gtgt: Node<'a>,
    ) -> (r: Node<'a>)
        requires
            self.wf(),
        ensures
            r == self.spec_make_old_attribute_specification(ltlt, attrs, gtgt),
    {
        match attrs {
            Node::List(nodes) => Node::BracketedList(
                self.allocate((self.get_pos(ltlt), *nodes, self.get_pos(gtgt))),
            ),
            _ => Node::Ignored(SyntaxKind::OldAttributeSpecification),
        }
    }
}

/// A concatenation denotes what its parts denote, one behind the other. What is
/// neither a string nor a concatenation denotes nothing.
pub proof fn law_concatenated_strings<'a>(expr: Expr<'a>)
    ensures
        expr.1 matches Expr_::String(value) ==> concatenated(expr) == value@,
        expr.1 matches Expr_::Binop(of) ==> {
            &&& of.0 == Bop::Dot ==> concatenated(expr) == concatenated(*of.1) + concatenated(*of.2)
            &&& of.0 != Bop::Dot ==> concatenated(expr).len() == 0
        },
        !(expr.1 is String) && !(expr.1 is Binop) ==> concatenated(expr).len() == 0,
{
}

/// The strings among arguments keep their order: literals, and what operators
/// make of them. Other arguments are passed over.
pub proof fn law_strings_in_order<'a>(nodes: Seq<Node<'a>>, node: Node<'a>)
    ensures
        ({
            let before = string_params(nodes);
            let after = string_params(nodes.push(node));
            let operates = node matches Node::Expr(expr) && expr.1 is Binop;
            &&& string_params(Seq::<Node<'a>>::empty()).len() == 0
            &&& node matches Node::StringLiteral(of) ==> after == before.push(of.0)
            &&& operates ==> after == before.push(slice_of(concatenated(*node->Expr_0)))
            &&& !(node is StringLiteral) && !operates ==> after == before
        }),
{
    assert(nodes.push(node).drop_last() =~= nodes);
}

/// Only the attributes whose strings mean something keep them.
pub proof fn law_attributes_that_keep_strings(name: Seq<u8>)
    ensures
        keeps_strings("__Deprecated".spec_bytes()),
        keeps_strings("__Cipp".spec_bytes()),
        keeps_strings("__CippLocal".spec_bytes()),
        keeps_strings("__Policied".spec_bytes()),
        keeps_strings("__Module".spec_bytes()),
        keeps_strings(name) ==> name == "__Deprecated".spec_bytes() || name
            == "__Cipp".spec_bytes() || name == "__CippLocal".spec_bytes() || name
            == "__Policied".spec_bytes() || name == "__Module".spec_bytes(),
{
}

impl<
    'a,
    'text,
    S: SourceTextAllocator<'text, 'a>,
    H: Fn(Query<'a, 'text>) -> Answer<'a, 'text>,
> DirectDeclSmartConstructors<'a, 'text, S, H> {
    /// An argument names a class exactly where it is `C::class` for a class that
    /// is named; it is kept under its full name with the position of the whole.
    pub proof fn law_class_arguments(&self, nodes: Seq<Node<'a>>, node: Node<'a>)
        ensures
            ({
                let before = self.spec_class_name_params(nodes);
                let after = self.spec_class_name_params(nodes.push(node));
                let names = node matches Node::Expr(expr) && (expr.1 matches Expr_::ClassConst(of)
                    && of.0.1 is CI && of.1.1@ == "class".spec_bytes());
                &&& self.spec_class_name_params(Seq::<Node<'a>>::empty()).len() == 0
                &&& !names ==> after == before
                &&& names ==> {
                    let expr = node->Expr_0;
                    let id = expr.1->ClassConst_0.0.1->CI_0;
                    after == before.push(
                        ClassNameParam { name: self.spec_elaborate_id(*id), full_pos: expr.0 },
                    )
                }
            }),
    {
        assert(nodes.push(node).drop_last() =~= nodes);
    }

    /// An attribute whose name begins with two underscores keeps that name; any
    /// other has the full name of a class. It takes the classes among its
    /// arguments, and the strings where they mean something.
    pub proof fn law_attribute_as_written(&self, name: Node<'a>, args: Node<'a>)
        ensures
            match self.spec_expect_name(name) {
                None => self.spec_make_constructor_call(name, args) is Ignored,
                Some(id) => self.spec_make_constructor_call(name, args) matches Node::Attribute(
                    attribute,
                ) && {
                    let built_in = "__".spec_bytes().is_prefix_of(id.1@);
                    &&& built_in ==> attribute.name == id
                    &&& !built_in ==> attribute.name == self.spec_elaborate_id(id)
                    &&& attribute.classname_params@ == self.spec_class_name_params(args.elements())
                    &&& keeps_strings(attribute.name.1@) ==> attribute.string_literal_params@
                        == string_params(args.elements())
                    &&& !keeps_strings(attribute.name.1@)
                        ==> attribute.string_literal_params@.len() == 0
                },
            },
    {
    }

    /// A list of attributes in double angle brackets keeps them in their order,
    /// with the positions of the brackets.
    pub proof fn law_bracketed_attributes(&self, ltlt: Node<'a>, attrs: Node<'a>, gtgt: Node<'a>)
        ensures
            attrs matches Node::List(nodes) ==> (self.spec_make_old_attribute_specification(
                ltlt,
                attrs,
                gtgt,
            ) matches Node::BracketedList(list) && list.1 == *nodes && *list.0 == self.spec_pos(
                ltlt,
            ) && *list.2 == self.spec_pos(gtgt)),
            !(attrs is List) ==> self.spec_make_old_attribute_specification(
                ltlt,
                attrs,
                gtgt,
            ) is Ignored,
    {
    }
}

} // verus!
