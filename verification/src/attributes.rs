//! What the attributes of a declaration say.

use crate::arena::{lemma_items_of, lemma_slice_of, realised, slice_of, Items};
use crate::encoding::decoded;
use crate::hints::{default_ifc_fun_decl, public_policy};
use crate::host::{Answer, Query};
use crate::node::{ClassNameParam, Node, UserAttributeNode};
use crate::parser::{DirectDeclSmartConstructors, SourceTextAllocator};
use crate::source::Pos;
use crate::syntax::Module_;
use crate::text::{have_bytes, is, lit, split, split_at_byte, split_bytes, DOT};
use crate::types::{IfcFunDecl, UserAttribute};
use vstd::prelude::*;
use vstd::slice::slice_subrange;
use vstd::string::*;

verus! {

broadcast use {lemma_items_of, lemma_slice_of};

#[derive(Copy, Clone)]
pub struct Attributes<'a> {
    pub deprecated: Option<&'a [u8]>,
    pub reifiable: Option<&'a Pos<'a>>,
    pub late_init: bool,
    pub const_: bool,
    pub lsb: bool,
    pub memoizelsb: bool,
    pub override_: bool,
    pub enforceable: Option<&'a Pos<'a>>,
    pub accept_disposable: bool,
    pub dynamically_callable: bool,
    pub returns_disposable: bool,
    pub php_std_lib: bool,
    pub ifc_attribute: IfcFunDecl<'a>,
    pub external: bool,
    pub can_call: bool,
    pub via_label: bool,
    pub soft: bool,
    pub support_dynamic_type: bool,
    pub module: Option<&'a Module_<'a>>,
    pub internal: bool,
}

/// The first attribute with the given name.
#[verifier::opaque]
pub open spec fn first_named<'a>(nodes: Seq<Node<'a>>, name: Seq<u8>) -> Option<
    &'a UserAttributeNode<'a>,
>
    decreases nodes.len(),
{
    if nodes.len() == 0 {
        None
    } else {
        match nodes[0] {
            Node::Attribute(attribute) => if attribute.name.1@ == name {
                Some(attribute)
            } else {
                first_named(nodes.drop_first(), name)
            },
            _ => first_named(nodes.drop_first(), name),
        }
    }
}

proof fn lemma_first_named<'a>(
    nodes: Seq<Node<'a>>,
    rest: Seq<Node<'a>>,
    attribute: &'a UserAttributeNode<'a>,
)
    requires
        nodes.len() > 0,
        nodes[0] == Node::Attribute(attribute),
        rest == nodes.drop_first(),
    ensures
        forall|name: Seq<u8>| #[trigger]
            first_named(nodes, name) == (if attribute.name.1@ == name {
                Some(attribute)
            } else {
                first_named(rest, name)
            }),
{
    reveal(first_named);
}

proof fn lemma_first_named_other<'a>(nodes: Seq<Node<'a>>, rest: Seq<Node<'a>>)
    requires
        nodes.len() > 0 ==> !(nodes[0] is Attribute) && rest == nodes.drop_first(),
    ensures
        nodes.len() > 0 ==> forall|name: Seq<u8>| #[trigger]
            first_named(nodes, name) == first_named(rest, name),
        nodes.len() == 0 ==> forall|name: Seq<u8>| #[trigger] first_named(nodes, name) is None,
{
    reveal(first_named);
}

pub open spec fn has_named<'a>(nodes: Seq<Node<'a>>, name: Seq<u8>) -> bool {
    first_named(nodes, name) is Some
}

/// The position of the first attribute with the given name.
pub open spec fn pos_of_named<'a>(nodes: Seq<Node<'a>>, name: Seq<u8>) -> Option<&'a Pos<'a>> {
    match first_named(nodes, name) {
        Some(attribute) => Some(attribute.name.0),
        None => None,
    }
}

/// The first string that an attribute takes.
pub open spec fn first_string<'a>(attribute: &'a UserAttributeNode<'a>) -> Option<&'a [u8]> {
    if attribute.string_literal_params@.len() > 0 {
        Some(slice_of(decoded(attribute.string_literal_params@[0]@)))
    } else {
        None
    }
}

/// The policy that an attribute names: by a class, else by a string.
pub open spec fn policy<'a>(attribute: &'a UserAttributeNode<'a>) -> Option<&'a [u8]> {
    if attribute.classname_params@.len() > 0 {
        Some(attribute.classname_params@[0].name.1)
    } else {
        first_string(attribute)
    }
}

/// A module by the text that names it, with a dot between its parts.
pub open spec fn module_named<'a>(name: Seq<u8>) -> &'a Module_<'a> {
    let parts = split(name, DOT);
    &Module_(parts[0], Items::of(parts.drop_first()))
}

/// Whether the first string of an attribute is at hand.
pub open spec fn string_realised<'a>(attribute: &'a UserAttributeNode<'a>) -> bool {
    attribute.string_literal_params@.len() > 0 ==> realised(
        decoded(attribute.string_literal_params@[0]@),
    )
}

/// Whether the texts that are taken from attributes are at hand.
pub open spec fn texts_realised<'a>(nodes: Seq<Node<'a>>) -> bool {
    &&& first_named(nodes, "__Deprecated".spec_bytes()) matches Some(attribute)
        ==> string_realised(attribute)
    &&& first_named(nodes, "__Policied".spec_bytes()) matches Some(attribute)
        ==> attribute.classname_params@.len() == 0 ==> string_realised(attribute)
    &&& first_named(nodes, "__Module".spec_bytes()) matches Some(attribute) ==> {
        &&& string_realised(attribute)
        &&& first_string(attribute) matches Some(name) ==> have_bytes(
            split(name@, DOT),
            split_bytes(name@, DOT),
        )
    }
}

/// What a list of attributes says. Of several with one name the first counts.
pub open spec fn attributes_of<'a>(nodes: Seq<Node<'a>>) -> Attributes<'a> {
    Attributes {
        deprecated: match first_named(nodes, "__Deprecated".spec_bytes()) {
            Some(attribute) => first_string(attribute),
            None => None,
        },
        reifiable: pos_of_named(nodes, "__Reifiable".spec_bytes()),
        late_init: has_named(nodes, "__LateInit".spec_bytes()),
        const_: has_named(nodes, "__Const".spec_bytes()),
        lsb: has_named(nodes, "__LSB".spec_bytes()),
        memoizelsb: has_named(nodes, "__MemoizeLSB".spec_bytes()),
        override_: has_named(nodes, "__Override".spec_bytes()),
        enforceable: pos_of_named(nodes, "__Enforceable".spec_bytes()),
        accept_disposable: has_named(nodes, "__AcceptDisposable".spec_bytes()),
        dynamically_callable: has_named(nodes, "__DynamicallyCallable".spec_bytes()),
        returns_disposable: has_named(nodes, "__ReturnDisposable".spec_bytes()),
        php_std_lib: has_named(nodes, "__PHPStdLib".spec_bytes()),
        ifc_attribute: match first_named(nodes, "__Policied".spec_bytes()) {
            Some(attribute) => IfcFunDecl::FDPolicied(policy(attribute)),
            None => if has_named(nodes, "__InferFlows".spec_bytes()) {
                IfcFunDecl::FDInferFlows
            } else {
                public_policy()
            },
        },
        external: has_named(nodes, "__External".spec_bytes()),
        can_call: has_named(nodes, "__CanCall".spec_bytes()),
        via_label: has_named(nodes, "__ViaLabel".spec_bytes()),
        soft: has_named(nodes, "__Soft".spec_bytes()),
        support_dynamic_type: has_named(nodes, "__SupportDynamicType".spec_bytes()),
        module: match first_named(nodes, "__Module".spec_bytes()) {
            Some(attribute) => match first_string(attribute) {
                Some(name) => Some(module_named(name@)),
                None => None,
            },
            None => None,
        },
        internal: has_named(nodes, "__Internal".spec_bytes()),
    }
}

/// The attributes that a node holds: those of a list.
pub open spec fn attribute_nodes<'a>(node: Node<'a>) -> Seq<Node<'a>> {
    match node {
        Node::List(items) => items@,
        Node::BracketedList(list) => list.1@,
        _ => Seq::<Node<'a>>::empty(),
    }
}

/// What the attributes of a node say.
pub open spec fn attributes_in<'a>(node: Node<'a>) -> Attributes<'a> {
    attributes_of(attribute_nodes(node))
}

/// The names of the classes that an attribute takes.
pub open spec fn class_names<'a>(params: Seq<ClassNameParam<'a>>) -> Seq<&'a [u8]> {
    Seq::new(params.len(), |i: int| params[i].name.1)
}

/// An attribute as a declaration keeps it.
pub open spec fn declared_attribute<'a>(attribute: UserAttributeNode<'a>) -> &'a UserAttribute<
    'a,
> {
    &UserAttribute {
        name: attribute.name.pos_id(),
        classname_params: Items::of(class_names(attribute.classname_params@)),
    }
}

impl<
    'a,
    'text,
    S: SourceTextAllocator<'text, 'a>,
    H: Fn(Query<'a, 'text>) -> Answer<'a, 'text>,
> DirectDeclSmartConstructors<'a, 'text, S, H> {
    fn first_string_param(&self, attribute: &'a UserAttributeNode<'a>) -> (r: Option<&'a [u8]>)
        ensures
            r == first_string(attribute),
            string_realised(attribute),
    {
        if attribute.string_literal_params.len() > 0 {
            Some(self.str_from_utf8_for_bytes_in_arena(*attribute.string_literal_params.at(0)))
        } else {
            None
        }
    }

    fn module_from_text(&self, text: &'a [u8]) -> (r: &'a Module_<'a>)
        ensures
            r == module_named(text@),
            have_bytes(split(text@, DOT), split_bytes(text@, DOT)),
    {
        let parts = split_at_byte(text, DOT);
        let rest = slice_subrange(parts.as_slice(), 1, parts.len());
        assert(rest@ =~= split(text@, DOT).drop_first());
        self.allocate(Module_(parts[0], Items::copied(self.arena, rest)))
    }

    /// What attributes say with one more in front of them.
    fn with_attribute(
        &self,
        rest: Attributes<'a>,
        policied: bool,
        attribute: &'a UserAttributeNode<'a>,
        Ghost(nodes): Ghost<Seq<Node<'a>>>,
        Ghost(rest_nodes): Ghost<Seq<Node<'a>>>,
    ) -> (r: Attributes<'a>)
        requires
            forall|name: Seq<u8>| #[trigger]
                first_named(nodes, name) == (if attribute.name.1@ == name {
                    Some(attribute)
                } else {
                    first_named(rest_nodes, name)
                }),
            rest == attributes_of(rest_nodes),
            policied == has_named(rest_nodes, "__Policied".spec_bytes()),
            texts_realised(rest_nodes),
        ensures
            r == attributes_of(nodes),
            texts_realised(nodes),
    {
        let name = attribute.name.1;
        Attributes {
            deprecated: if is(name, "__Deprecated") {
                self.first_string_param(attribute)
            } else {
                rest.deprecated
            },
            reifiable: if is(name, "__Reifiable") {
                Some(attribute.name.0)
            } else {
                rest.reifiable
            },
            late_init: rest.late_init || is(name, "__LateInit"),
            const_: rest.const_ || is(name, "__Const"),
            lsb: rest.lsb || is(name, "__LSB"),
            memoizelsb: rest.memoizelsb || is(name, "__MemoizeLSB"),
            override_: rest.override_ || is(name, "__Override"),
            enforceable: if is(name, "__Enforceable") {
                Some(attribute.name.0)
            } else {
                rest.enforceable
            },
            accept_disposable: rest.accept_disposable || is(name, "__AcceptDisposable"),
            dynamically_callable: rest.dynamically_callable || is(name, "__DynamicallyCallable"),
            returns_disposable: rest.returns_disposable || is(name, "__ReturnDisposable"),
            php_std_lib: rest.php_std_lib || is(name, "__PHPStdLib"),
            ifc_attribute: if is(name, "__Policied") {
                // A class is taken before a string.
                IfcFunDecl::FDPolicied(
                    if attribute.classname_params.len() > 0 {
                        Some(attribute.classname_params.at(0).name.1)
                    } else {
                        self.first_string_param(attribute)
                    },
                )
            } else if is(name, "__InferFlows") && !policied {
                IfcFunDecl::FDInferFlows
            } else {
                rest.ifc_attribute
            },
            external: rest.external || is(name, "__External"),
            can_call: rest.can_call || is(name, "__CanCall"),
            via_label: rest.via_label || is(name, "__ViaLabel"),
            soft: rest.soft || is(name, "__Soft"),
            support_dynamic_type: rest.support_dynamic_type || is(name, "__SupportDynamicType"),
            module: if is(name, "__Module") {
                match self.first_string_param(attribute) {
                    Some(text) => Some(self.module_from_text(text)),
                    None => None,
                }
            } else {
                rest.module
            },
            internal: rest.internal || is(name, "__Internal"),
        }
    }

    pub fn to_attributes(&self, node: Node<'a>) -> (r: Attributes<'a>)
        ensures
            r == attributes_in(node),
            texts_realised(attribute_nodes(node)),
    {
        let mut attributes = Attributes {
            deprecated: None,
            reifiable: None,
            late_init: false,
            const_: false,
            lsb: false,
            memoizelsb: false,
            override_: false,
            enforceable: None,
            accept_disposable: false,
            dynamically_callable: false,
            returns_disposable: false,
            php_std_lib: false,
            ifc_attribute: default_ifc_fun_decl(),
            external: false,
            can_call: false,
            via_label: false,
            soft: false,
            support_dynamic_type: false,
            module: None,
            internal: false,
        };
        proof {
            lemma_first_named_other(Seq::<Node<'a>>::empty(), Seq::<Node<'a>>::empty());
        }
        let nodes = match node {
            Node::List(items) => *items,
            Node::BracketedList(list) => list.1,
            _ => return attributes,
        };
        let mut ifc_already_policied = false;
        // In reverse, so that of several with one name the first is kept.
        let mut i: usize = nodes.len();
        assert(nodes@.skip(i as int) =~= Seq::<Node<'a>>::empty());
        while i > 0
            invariant
                i <= nodes@.len(),
                attributes == attributes_of(nodes@.skip(i as int)),
                ifc_already_policied == has_named(
                    nodes@.skip(i as int),
                    "__Policied".spec_bytes(),
                ),
                texts_realised(nodes@.skip(i as int)),
            decreases i,
        {
            i = i - 1;
            assert(nodes@.skip(i as int).drop_first() =~= nodes@.skip(i + 1));
            if let Node::Attribute(attribute) = *nodes.at(i) {
                proof {
                    lemma_first_named(nodes@.skip(i as int), nodes@.skip(i + 1), attribute);
                }
                attributes =
                self.with_attribute(
                    attributes,
                    ifc_already_policied,
                    attribute,
                    Ghost(nodes@.skip(i as int)),
                    Ghost(nodes@.skip(i + 1)),
                );
                ifc_already_policied = ifc_already_policied || is(
                    attribute.name.1,
                    "__Policied",
                );
            } else {
                proof {
                    lemma_first_named_other(nodes@.skip(i as int), nodes@.skip(i + 1));
                }
            }
        }
        assert(nodes@.skip(0) =~= nodes@);
        attributes
    }

    pub fn user_attribute_to_decl(&self, attr: &UserAttributeNode<'a>) -> (r: &'a UserAttribute<
        'a,
    >)
        ensures
            r == declared_attribute(*attr),
    {
        let mut names: Vec<&'a [u8]> = Vec::new();
        let params = attr.classname_params;
        let mut i: usize = 0;
        while i < params.len()
            invariant
                i <= params@.len(),
                names@ == class_names(params@.take(i as int)),
            decreases params@.len() - i,
        {
            names.push(params.at(i).name.1);
            assert(names@ =~= class_names(params@.take(i + 1)));
            i = i + 1;
        }
        assert(params@.take(i as int) =~= params@);
        self.allocate(
            UserAttribute {
                name: attr.name.to_pos_id(),
                classname_params: Items::copied(self.arena, names.as_slice()),
            },
        )
    }
}

/// The attribute that is found under a name is the first with that name; where
/// none is found there is none.
pub proof fn law_first_named<'a>(nodes: Seq<Node<'a>>, name: Seq<u8>)
    ensures
        match first_named(nodes, name) {
            Some(attribute) => exists|i: int|
                0 <= i < nodes.len() && #[trigger] nodes[i] == Node::Attribute(attribute)
                    && attribute.name.1@ == name && !has_named(nodes.take(i), name),
            None => forall|i: int|
                0 <= i < nodes.len() ==> ((#[trigger] nodes[i]) matches Node::Attribute(attribute)
                    ==> attribute.name.1@ != name),
        },
    decreases nodes.len(),
{
    reveal(first_named);
    if nodes.len() > 0 {
        let rest = nodes.drop_first();
        law_first_named(rest, name);
        let here = nodes[0] matches Node::Attribute(attribute) && attribute.name.1@ == name;
        if here {
            assert(nodes.take(0) =~= Seq::<Node<'a>>::empty());
            assert(nodes[0] == Node::Attribute(first_named(nodes, name)->Some_0));
        } else {
            match first_named(rest, name) {
                Some(attribute) => {
                    let i = choose|i: int|
                        0 <= i < rest.len() && #[trigger] rest[i] == Node::Attribute(attribute)
                            && attribute.name.1@ == name && !has_named(rest.take(i), name);
                    assert(nodes[i + 1] == rest[i]);
                    assert(nodes.take(i + 1).drop_first() =~= rest.take(i));
                    assert(nodes.take(i + 1)[0] == nodes[0]);
                },
                None => {
                    assert forall|i: int| 0 <= i < nodes.len() implies ((
                    #[trigger] nodes[i]) matches Node::Attribute(attribute)
                        ==> attribute.name.1@ != name) by {
                        if i > 0 {
                            assert(rest[i - 1] == nodes[i]);
                        }
                    }
                },
            }
        }
    }
}

/// Whether an attribute with the given name stands in a list of attributes.
pub open spec fn bears<'a>(node: Node<'a>, name: Seq<u8>) -> bool {
    match node {
        Node::List(items) => exists|i: int|
            0 <= i < items@.len() && is_attribute(#[trigger] items@[i], name),
        Node::BracketedList(list) => exists|i: int|
            0 <= i < list.1@.len() && is_attribute(#[trigger] list.1@[i], name),
        _ => false,
    }
}

/// Whether a node is an attribute with the given name.
pub open spec fn is_attribute<'a>(node: Node<'a>, name: Seq<u8>) -> bool {
    node matches Node::Attribute(attribute) && attribute.name.1@ == name
}

/// Whether a node of a list is the first attribute in it with the given name.
pub open spec fn is_first_named<'a>(node: Node<'a>, i: int, name: Seq<u8>) -> bool {
    &&& 0 <= i < node.elements().len()
    &&& node is List || node is BracketedList
    &&& is_attribute(node.elements()[i], name)
    &&& forall|j: int| 0 <= j < i ==> !is_attribute(#[trigger] node.elements()[j], name)
}

proof fn lemma_bears<'a>(node: Node<'a>, name: Seq<u8>)
    ensures
        has_named(attribute_nodes(node), name) == bears(node, name),
        first_named(attribute_nodes(node), name) matches Some(attribute) ==> attribute.name.1@
            == name,
{
    let nodes = attribute_nodes(node);
    law_first_named(nodes, name);
    match first_named(nodes, name) {
        Some(attribute) => {
            let i = choose|i: int|
                0 <= i < nodes.len() && #[trigger] nodes[i] == Node::Attribute(attribute)
                    && attribute.name.1@ == name && !has_named(nodes.take(i), name);
            assert(is_attribute(nodes[i], name));
        },
        None => {
            if bears(node, name) {
                let i = choose|i: int| 0 <= i < nodes.len() && is_attribute(#[trigger] nodes[i], name);
                assert(false);
            }
        },
    }
}

proof fn lemma_first<'a>(nodes: Seq<Node<'a>>, i: int, name: Seq<u8>)
    requires
        0 <= i < nodes.len(),
        is_attribute(nodes[i], name),
        forall|j: int| 0 <= j < i ==> !is_attribute(#[trigger] nodes[j], name),
    ensures
        first_named(nodes, name) == Some(nodes[i]->Attribute_0),
    decreases i,
{
    reveal(first_named);
    if i > 0 {
        let rest = nodes.drop_first();
        assert(rest[i - 1] == nodes[i]);
        assert forall|j: int| 0 <= j < i - 1 implies !is_attribute(#[trigger] rest[j], name) by {
            assert(rest[j] == nodes[j + 1]);
        }
        assert(!is_attribute(nodes[0], name));
        lemma_first(rest, i - 1, name);
    }
}

/// Each attribute of the language says one thing of a declaration, and it is
/// said exactly where the attribute of that name is written.
pub proof fn law_attributes_say_what_is_written<'a>(node: Node<'a>)
    ensures
        ({
            let read = attributes_in(node);
            &&& read.late_init <==> bears(node, "__LateInit".spec_bytes())
            &&& read.const_ <==> bears(node, "__Const".spec_bytes())
            &&& read.lsb <==> bears(node, "__LSB".spec_bytes())
            &&& read.memoizelsb <==> bears(node, "__MemoizeLSB".spec_bytes())
            &&& read.override_ <==> bears(node, "__Override".spec_bytes())
            &&& read.accept_disposable <==> bears(node, "__AcceptDisposable".spec_bytes())
            &&& read.dynamically_callable <==> bears(node, "__DynamicallyCallable".spec_bytes())
            &&& read.returns_disposable <==> bears(node, "__ReturnDisposable".spec_bytes())
            &&& read.php_std_lib <==> bears(node, "__PHPStdLib".spec_bytes())
            &&& read.external <==> bears(node, "__External".spec_bytes())
            &&& read.can_call <==> bears(node, "__CanCall".spec_bytes())
            &&& read.via_label <==> bears(node, "__ViaLabel".spec_bytes())
            &&& read.soft <==> bears(node, "__Soft".spec_bytes())
            &&& read.support_dynamic_type <==> bears(node, "__SupportDynamicType".spec_bytes())
            &&& read.internal <==> bears(node, "__Internal".spec_bytes())
            &&& read.reifiable is Some <==> bears(node, "__Reifiable".spec_bytes())
            &&& read.enforceable is Some <==> bears(node, "__Enforceable".spec_bytes())
            &&& read.ifc_attribute is FDInferFlows <==> bears(node, "__InferFlows".spec_bytes())
                && !bears(node, "__Policied".spec_bytes())
            &&& !bears(node, "__InferFlows".spec_bytes()) && !bears(
                node,
                "__Policied".spec_bytes(),
            ) ==> read.ifc_attribute == IfcFunDecl::<'a>::FDPolicied(Some(lit("PUBLIC")))
            &&& read.deprecated is Some ==> bears(node, "__Deprecated".spec_bytes())
            &&& read.module is Some ==> bears(node, "__Module".spec_bytes())
        }),
{
    lemma_bears(node, "__LateInit".spec_bytes());
    lemma_bears(node, "__Const".spec_bytes());
    lemma_bears(node, "__LSB".spec_bytes());
    lemma_bears(node, "__MemoizeLSB".spec_bytes());
    lemma_bears(node, "__Override".spec_bytes());
    lemma_bears(node, "__AcceptDisposable".spec_bytes());
    lemma_bears(node, "__DynamicallyCallable".spec_bytes());
    lemma_bears(node, "__ReturnDisposable".spec_bytes());
    lemma_bears(node, "__PHPStdLib".spec_bytes());
    lemma_bears(node, "__External".spec_bytes());
    lemma_bears(node, "__CanCall".spec_bytes());
    lemma_bears(node, "__ViaLabel".spec_bytes());
    lemma_bears(node, "__Soft".spec_bytes());
    lemma_bears(node, "__SupportDynamicType".spec_bytes());
    lemma_bears(node, "__Internal".spec_bytes());
    lemma_bears(node, "__Reifiable".spec_bytes());
    lemma_bears(node, "__Enforceable".spec_bytes());
    lemma_bears(node, "__InferFlows".spec_bytes());
    lemma_bears(node, "__Policied".spec_bytes());
    lemma_bears(node, "__Deprecated".spec_bytes());
    lemma_bears(node, "__Module".spec_bytes());
}

/// What an attribute says beyond its name is taken from the first one with that
/// name: its position, or the first string or class that it takes. A string is
/// taken as the text that its bytes encode.
pub proof fn law_attributes_take_the_first<'a>(node: Node<'a>, i: int)
    requires
        0 <= i < node.elements().len(),
        node.elements()[i] is Attribute,
    ensures
        ({
            let read = attributes_in(node);
            let attribute = node.elements()[i]->Attribute_0;
            let strings = attribute.string_literal_params@;
            let classes = attribute.classname_params@;
            let text = slice_of::<'a>(decoded(strings[0]@));
            &&& is_first_named(node, i, "__Reifiable".spec_bytes()) ==> read.reifiable == Some(
                attribute.name.0,
            )
            &&& is_first_named(node, i, "__Enforceable".spec_bytes()) ==> read.enforceable == Some(
                attribute.name.0,
            )
            &&& is_first_named(node, i, "__Deprecated".spec_bytes()) ==> if strings.len() > 0 {
                read.deprecated == Some(text)
            } else {
                read.deprecated is None
            }
            &&& is_first_named(node, i, "__Policied".spec_bytes()) ==> {
                &&& read.ifc_attribute matches IfcFunDecl::FDPolicied(policy) && if classes.len()
                    > 0 {
                    policy == Some(classes[0].name.1)
                } else if strings.len() > 0 {
                    policy == Some(text)
                } else {
                    policy is None
                }
            }
            &&& is_first_named(node, i, "__Module".spec_bytes()) ==> if strings.len() > 0 {
                read.module matches Some(module) && seq![module.0] + module.1@ == split(
                    text@,
                    DOT,
                )
            } else {
                read.module is None
            }
        }),
{
    let nodes = attribute_nodes(node);
    let strings = node.elements()[i]->Attribute_0.string_literal_params@;
    if is_first_named(node, i, "__Reifiable".spec_bytes()) {
        lemma_first(nodes, i, "__Reifiable".spec_bytes());
    }
    if is_first_named(node, i, "__Enforceable".spec_bytes()) {
        lemma_first(nodes, i, "__Enforceable".spec_bytes());
    }
    if is_first_named(node, i, "__Deprecated".spec_bytes()) {
        lemma_first(nodes, i, "__Deprecated".spec_bytes());
    }
    if is_first_named(node, i, "__Policied".spec_bytes()) {
        lemma_first(nodes, i, "__Policied".spec_bytes());
    }
    if is_first_named(node, i, "__Module".spec_bytes()) {
        lemma_first(nodes, i, "__Module".spec_bytes());
        if strings.len() > 0 {
            let parts = split(slice_of::<'a>(decoded(strings[0]@))@, DOT);
            assert(seq![parts[0]] + parts.drop_first() =~= parts);
        }
    }
}

/// A declaration keeps the name of an attribute with its position, and the
/// names of the classes that it takes, in their order.
pub proof fn law_kept_attribute<'a>(attribute: UserAttributeNode<'a>)
    ensures
        ({
            let kept = declared_attribute(attribute);
            &&& kept.name.0 == attribute.name.0
            &&& kept.name.1 == attribute.name.1
            &&& kept.classname_params@.len() == attribute.classname_params@.len()
            &&& forall|i: int|
                0 <= i < kept.classname_params@.len() ==> #[trigger] kept.classname_params@[i]
                    == attribute.classname_params@[i].name.1
        }),
{
}

} // verus!
