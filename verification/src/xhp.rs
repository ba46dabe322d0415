//! XHP attributes of classes.

use crate::arena::{lemma_items_of, lemma_slice_of, realised, slice_of, Items};
use crate::decls::{PropFlags, ShallowProp, XhpAttr};
use crate::encoding::{integer, lossy_copy_in, lossy_owned, parse_integer};
use crate::hints::hinted;
use crate::host::{Answer, Query};
use crate::node::{Node, XhpClassAttributeDeclarationNode, XhpClassAttributeNode};
use crate::parser::{DirectDeclSmartConstructors, SourceTextAllocator};
use crate::syntax::{Visibility, XhpAttrTag, XhpEnumValue};
use crate::text::{prefix_colon, COLON};
use crate::token::{SyntaxKind, TokenKind};
use crate::types::{Reason, Ty, Ty_};
use vstd::prelude::*;

verus! {

broadcast use {lemma_items_of, lemma_slice_of};

/// The name of an XHP attribute as a property.
pub open spec fn attribute_name<'a>(node: XhpClassAttributeNode<'a>) -> &'a [u8] {
    slice_of(seq![COLON] + node.name.1@)
}

/// The values of the enumerations among XHP attributes.
pub open spec fn enum_values<'a>(nodes: Seq<Node<'a>>) -> Seq<
    (&'a [u8], Items<'a, XhpEnumValue<'a>>),
>
    decreases nodes.len(),
{
    if nodes.len() == 0 {
        Seq::<(&'a [u8], Items<'a, XhpEnumValue<'a>>)>::empty()
    } else {
        let before = enum_values(nodes.drop_last());
        match nodes.last() {
            Node::XhpClassAttribute(node) => match node.hint {
                Node::XhpEnumTy(of) => before.push((attribute_name(*node), of.1)),
                _ => before,
            },
            _ => before,
        }
    }
}

/// The classes whose attributes are taken over.
pub open spec fn attribute_uses<'a>(nodes: Seq<Node<'a>>) -> Seq<Node<'a>>
    decreases nodes.len(),
{
    if nodes.len() == 0 {
        Seq::<Node<'a>>::empty()
    } else {
        let before = attribute_uses(nodes.drop_last());
        match nodes.last() {
            Node::XhpAttributeUse(name) => before.push(*name),
            _ => before,
        }
    }
}

/// A type made nullable, where it is not so already.
pub open spec fn nullable<'a>(ty: &'a Ty<'a>) -> Option<&'a Ty<'a>> {
    if ty.1 is Toption || ty.1 is Tmixed {
        Some(ty)
    } else {
        match ty.0.at() {
            Some(pos) => Some(&hinted(pos, Ty_::Toption(ty))),
            None => None,
        }
    }
}

/// The values of an enumeration. Only literals count, and an integer that no
/// machine integer can hold is read as zero.
pub open spec fn literal_values<'a>(nodes: Seq<Node<'a>>) -> Seq<XhpEnumValue<'a>>
    decreases nodes.len(),
{
    if nodes.len() == 0 {
        Seq::<XhpEnumValue<'a>>::empty()
    } else {
        let before = literal_values(nodes.drop_last());
        match nodes.last() {
            Node::IntLiteral(of) => before.push(
                XhpEnumValue::XEVInt(
                    match integer(of.0@) {
                        Some(value) => value as isize,
                        None => 0,
                    },
                ),
            ),
            Node::StringLiteral(of) => before.push(
                XhpEnumValue::XEVString(slice_of(lossy_owned(of.0@))),
            ),
            _ => before,
        }
    }
}

impl<
    'a,
    'text,
    S: SourceTextAllocator<'text, 'a>,
    H: Fn(Query<'a, 'text>) -> Answer<'a, 'text>,
> DirectDeclSmartConstructors<'a, 'text, S, H> {
    /// The type of an XHP attribute. One that need not be given is nullable.
    pub open spec fn spec_attribute_ty(&self, node: XhpClassAttributeNode<'a>) -> Option<
        &'a Ty<'a>,
    > {
        let ty = match node.hint {
            Node::XhpEnumTy(of) => Some(of.0),
            _ => self.spec_node_to_ty(node.hint),
        };
        match ty {
            Some(ty) => if node.nullable && node.tag is None {
                nullable(ty)
            } else {
                Some(ty)
            },
            None => None,
        }
    }

    fn attribute_ty(&self, node: &XhpClassAttributeNode<'a>) -> (r: Option<&'a Ty<'a>>)
        requires
            self.wf(),
        ensures
            r == self.spec_attribute_ty(*node),
    {
        let ty = match node.hint {
            Node::XhpEnumTy(of) => of.0,
            _ => match self.node_to_ty(node.hint) {
                Some(ty) => ty,
                None => return None,
            },
        };
        if node.nullable && node.tag.is_none() {
            match ty.1 {
                Ty_::Toption(_) | Ty_::Tmixed => Some(ty),
                _ => match ty.get_pos() {
                    Some(pos) => Some(self.hint(pos, Ty_::Toption(ty))),
                    None => None,
                },
            }
        } else {
            Some(ty)
        }
    }

    /// The property that an XHP attribute declares.
    pub open spec fn spec_attribute_prop(&self, node: XhpClassAttributeNode<'a>) -> ShallowProp<
        'a,
    > {
        ShallowProp {
            xhp_attr: Some(XhpAttr { tag: node.tag, has_default: !node.needs_init }),
            name: (node.name.0, attribute_name(node)),
            type_: self.spec_attribute_ty(node),
            visibility: Visibility::Public,
            flags: PropFlags {
                const_: false,
                lateinit: false,
                lsb: false,
                needs_init: node.needs_init,
                abstract_: false,
                readonly: false,
                php_std_lib: false,
            },
        }
    }

    pub open spec fn spec_attribute_props(&self, nodes: Seq<Node<'a>>) -> Seq<ShallowProp<'a>>
        decreases nodes.len(),
    {
        if nodes.len() == 0 {
            Seq::<ShallowProp<'a>>::empty()
        } else {
            let before = self.spec_attribute_props(nodes.drop_last());
            match nodes.last() {
                Node::XhpClassAttribute(node) => before.push(self.spec_attribute_prop(*node)),
                _ => before,
            }
        }
    }

    pub fn make_xhp_class_attribute_declaration(
        &self,
        _keyword: Node<'a>,
        attributes: Node<'a>,
        _semicolon: Node<'a>,
    ) -> (r: Node<'a>)
        requires
            self.wf(),
        ensures
            r == Node::XhpClassAttributeDeclaration(
                &XhpClassAttributeDeclarationNode {
                    xhp_attr_enum_values: Items::of(enum_values(attributes.elements())),
                    xhp_attr_decls: Items::of(self.spec_attribute_props(attributes.elements())),
                    xhp_attr_uses_decls: Items::of(attribute_uses(attributes.elements())),
                },
            ),
            forall|i: int|
                0 <= i < attributes.elements().len() ==> ((
                #[trigger] attributes.elements()[i]) matches Node::XhpClassAttribute(node)
                    ==> attribute_name(*node)@ == seq![COLON] + node.name.1@),
    {
        let mut values: Vec<(&'a [u8], Items<'a, XhpEnumValue<'a>>)> = Vec::new();
        let mut props: Vec<ShallowProp<'a>> = Vec::new();
        let mut uses: Vec<Node<'a>> = Vec::new();
        let len = attributes.len();
        let ghost nodes = attributes.elements();
        let mut i: usize = 0;
        assert(nodes.take(0) =~= Seq::<Node<'a>>::empty());
        while i < len
            invariant
                self.wf(),
                nodes == attributes.elements(),
                len == nodes.len(),
                i <= len,
                values@ == enum_values(nodes.take(i as int)),
                props@ == self.spec_attribute_props(nodes.take(i as int)),
                uses@ == attribute_uses(nodes.take(i as int)),
                forall|j: int|
                    0 <= j < i ==> ((#[trigger] nodes[j]) matches Node::XhpClassAttribute(node)
                        ==> attribute_name(*node)@ == seq![COLON] + node.name.1@),
            decreases len - i,
        {
            assert(nodes.take(i + 1).drop_last() =~= nodes.take(i as int));
            match attributes.nth(i) {
                Node::XhpClassAttribute(node) => {
                    let name = prefix_colon(self.arena, node.name.1);
                    assert(slice_of(name@) == name);
                    if let Node::XhpEnumTy(of) = node.hint {
                        values.push((name, of.1));
                    }
                    props.push(
                        ShallowProp {
                            xhp_attr: Some(
                                XhpAttr { tag: node.tag, has_default: !node.needs_init },
                            ),
                            name: (node.name.0, name),
                            type_: self.attribute_ty(node),
                            visibility: Visibility::Public,
                            flags: PropFlags {
                                const_: false,
                                lateinit: false,
                                lsb: false,
                                needs_init: node.needs_init,
                                abstract_: false,
                                readonly: false,
                                php_std_lib: false,
                            },
                        },
                    );
                },
                Node::XhpAttributeUse(name) => uses.push(*name),
                _ => {},
            }
            i = i + 1;
        }
        assert(nodes.take(i as int) =~= nodes);
        Node::XhpClassAttributeDeclaration(
            self.allocate(
                XhpClassAttributeDeclarationNode {
                    xhp_attr_enum_values: Items::copied(self.arena, values.as_slice()),
                    xhp_attr_decls: Items::copied(self.arena, props.as_slice()),
                    xhp_attr_uses_decls: Items::copied(self.arena, uses.as_slice()),
                },
            ),
        )
    }

    pub open spec fn spec_make_xhp_enum_type(
        &self,
        enum_keyword: Node<'a>,
        xhp_enum_values: Node<'a>,
        right_brace: Node<'a>,
    ) -> Node<'a> {
        let values = xhp_enum_values.elements();
        let first = if values.len() > 0 {
            self.spec_node_to_ty(values[0])
        } else {
            None
        };
        match first {
            Some(ty) => Node::XhpEnumTy(
                &(
                    &hinted(&self.spec_merge_positions(enum_keyword, right_brace), ty.1),
                    Items::of(literal_values(values)),
                ),
            ),
            None => Node::Ignored(SyntaxKind::XHPEnumType),
        }
    }

    /// The enumeration of an XHP attribute, such as the `enum {'big', 'small'}`
    /// of `attribute enum {'big', 'small'} size;`. Its type is that of the
    /// first value.
    pub fn make_xhp_enum_type(
        &self,
        enum_keyword: Node<'a>,
        _left_brace: Node<'a>,
        xhp_enum_values: Node<'a>,
        right_brace: Node<'a>,
    ) -> (r: Node<'a>)
        requires
            self.wf(),
        ensures
            r == self.spec_make_xhp_enum_type(enum_keyword, xhp_enum_values, right_brace),
            forall|i: int|
                0 <= i < xhp_enum_values.elements().len() ==> ((
                #[trigger] xhp_enum_values.elements()[i]) matches Node::StringLiteral(of)
                    ==> realised(lossy_owned(of.0@))),
    {
        let len = xhp_enum_values.len();
        let first = if len > 0 {
            self.node_to_ty(xhp_enum_values.nth(0))
        } else {
            None
        };
        let mut values: Vec<XhpEnumValue<'a>> = Vec::new();
        let ghost nodes = xhp_enum_values.elements();
        let mut i: usize = 0;
        assert(nodes.take(0) =~= Seq::<Node<'a>>::empty());
        while i < len
            invariant
                nodes == xhp_enum_values.elements(),
                len == nodes.len(),
                i <= len,
                values@ == literal_values(nodes.take(i as int)),
                forall|j: int|
                    0 <= j < i ==> ((#[trigger] nodes[j]) matches Node::StringLiteral(of)
                        ==> realised(lossy_owned(of.0@))),
            decreases len - i,
        {
            assert(nodes.take(i + 1).drop_last() =~= nodes.take(i as int));
            match xhp_enum_values.nth(i) {
                Node::IntLiteral(of) => {
                    let value: isize = match parse_integer(of.0) {
                        Some(value) => value,
                        None => 0,
                    };
                    values.push(XhpEnumValue::XEVInt(value));
                },
                Node::StringLiteral(of) => {
                    values.push(XhpEnumValue::XEVString(lossy_copy_in(self.arena, of.0)));
                },
                _ => {},
            }
            i = i + 1;
        }
        assert(nodes.take(i as int) =~= nodes);
        match first {
            Some(ty) => {
                let pos = self.merge_positions(enum_keyword, right_brace);
                let items = Items::copied(self.arena, values.as_slice());
                Node::XhpEnumTy(self.allocate((self.hint(pos, ty.1), items)))
            },
            None => Node::Ignored(SyntaxKind::XHPEnumType),
        }
    }

    pub open spec fn spec_make_xhp_class_attribute(
        &self,
        type_: Node<'a>,
        name: Node<'a>,
        initializer: Node<'a>,
        tag: Node<'a>,
    ) -> Node<'a> {
        match name.spec_as_id() {
            Some(id) => Node::XhpClassAttribute(
                &XhpClassAttributeNode {
                    name: id,
                    tag: match tag.spec_token_kind() {
                        Some(TokenKind::Required) => Some(XhpAttrTag::Required),
                        Some(TokenKind::Lateinit) => Some(XhpAttrTag::Lateinit),
                        _ => None,
                    },
                    needs_init: initializer is Ignored,
                    nullable: initializer is Ignored || initializer.spec_is_token(
                        TokenKind::NullLiteral,
                    ),
                    hint: type_,
                },
            ),
            None => Node::Ignored(SyntaxKind::XHPClassAttribute),
        }
    }

    pub fn make_xhp_class_attribute(
        &self,
        type_: Node<'a>,
        name: Node<'a>,
        initializer: Node<'a>,
        tag: Node<'a>,
    ) -> (r: Node<'a>)
        ensures
            r == self.spec_make_xhp_class_attribute(type_, name, initializer, tag),
    {
        let name = match name.as_id() {
            Some(name) => name,
            None => return Node::Ignored(SyntaxKind::XHPClassAttribute),
        };
        let tag = match tag.token_kind() {
            Some(TokenKind::Required) => Some(XhpAttrTag::Required),
            Some(TokenKind::Lateinit) => Some(XhpAttrTag::Lateinit),
            _ => None,
        };
        Node::XhpClassAttribute(
            self.allocate(
                XhpClassAttributeNode {
                    name,
                    tag,
                    needs_init: !initializer.is_present(),
                    nullable: initializer.is_token(TokenKind::NullLiteral)
                        || !initializer.is_present(),
                    hint: type_,
                },
            ),
        )
    }

    pub fn make_xhp_simple_class_attribute(&self, name: Node<'a>) -> (r: Node<'a>)
        ensures
            r == Node::XhpAttributeUse(&name),
    {
        Node::XhpAttributeUse(self.allocate(name))
    }
}

/// Enumerations, uses and values are each taken from a list in their order;
/// what else stands in it is passed over.
pub proof fn law_xhp_lists_in_order<'a>(nodes: Seq<Node<'a>>, node: Node<'a>)
    ensures
        enum_values(Seq::<Node<'a>>::empty()).len() == 0,
        (node matches Node::XhpClassAttribute(of) && of.hint is XhpEnumTy) ==> enum_values(
            nodes.push(node),
        ) == enum_values(nodes).push(
            (
                slice_of::<'a>(seq![COLON] + node->XhpClassAttribute_0.name.1@),
                node->XhpClassAttribute_0.hint->XhpEnumTy_0.1,
            ),
        ),
        !(node matches Node::XhpClassAttribute(of) && of.hint is XhpEnumTy) ==> enum_values(
            nodes.push(node),
        ) == enum_values(nodes),
        attribute_uses(Seq::<Node<'a>>::empty()).len() == 0,
        node matches Node::XhpAttributeUse(name) ==> attribute_uses(nodes.push(node))
            == attribute_uses(nodes).push(*name),
        !(node is XhpAttributeUse) ==> attribute_uses(nodes.push(node)) == attribute_uses(nodes),
        literal_values(Seq::<Node<'a>>::empty()).len() == 0,
        node matches Node::IntLiteral(of) ==> {
            let after = literal_values(nodes.push(node));
            &&& after.drop_last() == literal_values(nodes)
            &&& after.last() matches XhpEnumValue::XEVInt(value) && (integer(of.0@) matches Some(
                n,
            ) ==> value == n as isize) && (integer(of.0@) is None ==> value == 0)
        },
        node matches Node::StringLiteral(of) ==> literal_values(nodes.push(node))
            == literal_values(nodes).push(
            XhpEnumValue::XEVString(slice_of::<'a>(lossy_owned(of.0@))),
        ),
        !(node is IntLiteral) && !(node is StringLiteral) ==> literal_values(nodes.push(node))
            == literal_values(nodes),
{
    assert(nodes.push(node).drop_last() =~= nodes);
    if node is IntLiteral {
        assert(literal_values(nodes.push(node)).drop_last() =~= literal_values(nodes));
    }
}

/// A type is made nullable once: one that is `?T` or `mixed` stays as it is.
pub proof fn law_nullable_once<'a>(ty: &'a Ty<'a>)
    ensures
        ty.1 is Toption || ty.1 is Tmixed ==> nullable(ty) == Some(ty),
        !(ty.1 is Toption) && !(ty.1 is Tmixed) ==> match nullable(ty) {
            Some(read) => read.1 == Ty_::Toption(ty) && (ty.0.at() matches Some(pos) && read.0
                == &Reason::Rhint(pos)),
            None => ty.0.at() is None,
        },
        nullable(ty) matches Some(read) ==> nullable(read) == Some(read),
{
}

impl<
    'a,
    'text,
    S: SourceTextAllocator<'text, 'a>,
    H: Fn(Query<'a, 'text>) -> Answer<'a, 'text>,
> DirectDeclSmartConstructors<'a, 'text, S, H> {
    /// An XHP attribute keeps its tag, has a default exactly where a value is
    /// written, and is nullable where none or `null` is.
    pub proof fn law_xhp_attribute_as_written(
        &self,
        type_: Node<'a>,
        name: Node<'a>,
        initializer: Node<'a>,
        tag: Node<'a>,
    )
        ensures
            ({
                let node = self.spec_make_xhp_class_attribute(type_, name, initializer, tag);
                &&& node is XhpClassAttribute <==> name is Name || name is XhpName
                &&& !(node is XhpClassAttribute) ==> node is Ignored
                &&& node matches Node::XhpClassAttribute(of) ==> {
                    &&& name.spec_as_id() == Some(of.name)
                    &&& of.hint == type_
                    &&& of.tag == Some(XhpAttrTag::Required) <==> tag.spec_token_kind() == Some(
                        TokenKind::Required,
                    )
                    &&& of.tag == Some(XhpAttrTag::Lateinit) <==> tag.spec_token_kind() == Some(
                        TokenKind::Lateinit,
                    )
                    &&& of.needs_init <==> initializer is Ignored
                    &&& of.nullable <==> initializer is Ignored || initializer.spec_token_kind()
                        == Some(TokenKind::NullLiteral)
                }
            }),
    {
    }

    /// The property of an XHP attribute is public, has the name of the attribute
    /// behind a colon, and is nullable where the attribute is, unless its tag
    /// says that it will be given.
    pub proof fn law_property_of_an_xhp_attribute(
        &self,
        nodes: Seq<Node<'a>>,
        node: &'a XhpClassAttributeNode<'a>,
    )
        ensures
            self.spec_attribute_props(Seq::<Node<'a>>::empty()).len() == 0,
            ({
                let after = self.spec_attribute_props(nodes.push(Node::XhpClassAttribute(node)));
                let prop = after.last();
                let ty = match node.hint {
                    Node::XhpEnumTy(of) => Some(of.0),
                    _ => self.spec_node_to_ty(node.hint),
                };
                &&& after.drop_last() == self.spec_attribute_props(nodes)
                &&& prop.xhp_attr matches Some(attr) && attr.tag == node.tag && (attr.has_default
                    <==> !node.needs_init)
                &&& prop.name.0 == node.name.0
                &&& prop.name.1 == slice_of::<'a>(seq![COLON] + node.name.1@)
                &&& prop.visibility == Visibility::Public
                &&& prop.flags.needs_init <==> node.needs_init
                &&& !prop.flags.const_ && !prop.flags.lateinit && !prop.flags.lsb
                &&& !prop.flags.abstract_ && !prop.flags.readonly && !prop.flags.php_std_lib
                &&& ty is None ==> prop.type_ is None
                &&& ty matches Some(ty) ==> if node.nullable && node.tag is None {
                    prop.type_ == nullable(ty)
                } else {
                    prop.type_ == Some(ty)
                }
            }),
    {
        let one = Node::XhpClassAttribute(node);
        assert(nodes.push(one).drop_last() =~= nodes);
        assert(self.spec_attribute_props(nodes.push(one)).drop_last()
            =~= self.spec_attribute_props(nodes));
    }

    /// What is not an attribute declares no property.
    pub proof fn law_only_xhp_attributes_are_properties(&self, nodes: Seq<Node<'a>>, node: Node<'a>)
        requires
            !(node is XhpClassAttribute),
        ensures
            self.spec_attribute_props(nodes.push(node)) == self.spec_attribute_props(nodes),
    {
        assert(nodes.push(node).drop_last() =~= nodes);
    }

    /// An enumeration has the type of its first value and all of its values.
    pub proof fn law_xhp_enum_as_written(
        &self,
        enum_keyword: Node<'a>,
        xhp_enum_values: Node<'a>,
        right_brace: Node<'a>,
    )
        ensures
            ({
                let values = xhp_enum_values.elements();
                let node = self.spec_make_xhp_enum_type(
                    enum_keyword,
                    xhp_enum_values,
                    right_brace,
                );
                &&& node is XhpEnumTy <==> values.len() > 0 && self.spec_node_to_ty(
                    values[0],
                ) is Some
                &&& !(node is XhpEnumTy) ==> node is Ignored
                &&& node matches Node::XhpEnumTy(of) ==> {
                    &&& of.0.1 == self.spec_node_to_ty(values[0])->Some_0.1
                    &&& of.0.0 == &Reason::Rhint(
                        &self.spec_merge_positions(enum_keyword, right_brace),
                    )
                    &&& of.1@ == literal_values(values)
                }
            }),
    {
    }
}

} // verus!
