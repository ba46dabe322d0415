//! Class declarations: classes, interfaces and traits with their members.

use crate::arena::{lemma_items_of, lemma_slice_of, realised, slice_of, Items};
use crate::attributes::{
    attributes_in, bears, declared_attribute, law_attributes_say_what_is_written, Attributes,
};
use crate::classish::ClassishNameBuilder;
use crate::declarations::{attribute_list, attributes_reversed, read_attribute_list};
use crate::decls::{
    Decl, MethodFlags, PropFlags, ShallowClass, ShallowClassConst, ShallowMethod, ShallowProp,
    ShallowTypeconst,
};
use crate::functions::{promoted_realised, wheres_of};
use crate::hints::{hinted, popped, tparams_of};
use crate::host::{Answer, Query};
use crate::node::{
    law_member_modifiers, member_modifiers, read_member_modifiers, ConstructorNode, FunctionHeader,
    MethodNode, Modifiers, Node, PropertyNode, RequireClause,
};
use crate::parser::{DirectDeclSmartConstructors, SourceTextAllocator};
use crate::str_map::{law_added_entry, lookup, StrMap};
use crate::syntax::{Abstraction, ClassishKind, Id, Mode, PosId, Visibility, XhpEnumValue};
use crate::text::{begins_with, starts_with_byte, strip_dollar_prefix, trim_start, COLON, DOLLAR};
use crate::token::{SyntaxKind, TokenKind};
use crate::types::{Reason, Ty, Ty_};
use bumpalo::Bump;
use vstd::prelude::*;
use vstd::string::*;

verus! {

broadcast use {lemma_items_of, lemma_slice_of};

/// The members of a class, sorted by what they are.
pub struct Members<'a> {
    pub uses: Seq<&'a Ty<'a>>,
    pub xhp_attr_uses: Seq<&'a Ty<'a>>,
    pub xhp_enum_values: StrMap<'a, Items<'a, XhpEnumValue<'a>>>,
    pub req_extends: Seq<&'a Ty<'a>>,
    pub req_implements: Seq<&'a Ty<'a>>,
    pub consts: Seq<&'a ShallowClassConst<'a>>,
    pub typeconsts: Seq<&'a ShallowTypeconst<'a>>,
    pub props: Seq<&'a ShallowProp<'a>>,
    pub xhp_props: Seq<&'a ShallowProp<'a>>,
    pub sprops: Seq<&'a ShallowProp<'a>>,
    pub constructor: Option<&'a ShallowMethod<'a>>,
    pub static_methods: Seq<&'a ShallowMethod<'a>>,
    pub methods: Seq<&'a ShallowMethod<'a>>,
}

/// A class without members.
pub open spec fn no_members<'a>() -> Members<'a> {
    Members {
        uses: Seq::empty(),
        xhp_attr_uses: Seq::empty(),
        xhp_enum_values: StrMap::nothing(),
        req_extends: Seq::empty(),
        req_implements: Seq::empty(),
        consts: Seq::empty(),
        typeconsts: Seq::empty(),
        props: Seq::empty(),
        xhp_props: Seq::empty(),
        sprops: Seq::empty(),
        constructor: None,
        static_methods: Seq::empty(),
        methods: Seq::empty(),
    }
}

/// Properties by reference.
pub open spec fn refs_to<'a>(props: Seq<ShallowProp<'a>>) -> Seq<&'a ShallowProp<'a>> {
    Seq::new(props.len(), |i: int| &props[i])
}

/// The class constants among nodes.
pub open spec fn consts_of<'a>(nodes: Seq<Node<'a>>) -> Seq<&'a ShallowClassConst<'a>>
    decreases nodes.len(),
{
    if nodes.len() == 0 {
        Seq::<&'a ShallowClassConst<'a>>::empty()
    } else {
        let before = consts_of(nodes.drop_last());
        match nodes.last() {
            Node::Const(decl) => before.push(decl),
            _ => before,
        }
    }
}

/// A map with the values of the given XHP enumerations.
pub open spec fn with_enum_values<'a>(
    map: StrMap<'a, Items<'a, XhpEnumValue<'a>>>,
    values: Seq<(&'a [u8], Items<'a, XhpEnumValue<'a>>)>,
) -> StrMap<'a, Items<'a, XhpEnumValue<'a>>>
    decreases values.len(),
{
    if values.len() == 0 {
        map
    } else {
        with_enum_values(map, values.drop_last()).added(values.last().0, values.last().1)
    }
}

/// A property of a class whose properties are all constant.
pub open spec fn made_const<'a>(prop: &'a ShallowProp<'a>) -> &'a ShallowProp<'a> {
    &ShallowProp { flags: PropFlags { const_: true, ..prop.flags }, ..*prop }
}

/// The properties of a class: those of XHP attributes stand behind the others.
/// The attribute `__Const` makes all of them constant.
pub open spec fn class_props<'a>(members: Members<'a>, all_const: bool) -> Seq<
    &'a ShallowProp<'a>,
> {
    let props = members.props + members.xhp_props;
    if all_const {
        Seq::new(props.len(), |i: int| made_const(props[i]))
    } else {
        props
    }
}

/// The kind of a class by its keyword and modifiers.
pub open spec fn class_kind<'a>(class_keyword: Node<'a>, modifiers: Node<'a>) -> ClassishKind {
    if modifiers.spec_holds_token(TokenKind::Abstract) {
        ClassishKind::Cclass(Abstraction::Abstract)
    } else if class_keyword.spec_is_token(TokenKind::Interface) {
        ClassishKind::Cinterface
    } else if class_keyword.spec_is_token(TokenKind::Trait) {
        ClassishKind::Ctrait
    } else {
        ClassishKind::Cclass(Abstraction::Concrete)
    }
}

/// Whether the names of the properties of declarators are at hand without
/// their dollar signs.
pub open spec fn prop_names_realised<'a>(declarators: Seq<Node<'a>>) -> bool {
    forall|i: int|
        0 <= i < declarators.len() ==> ((#[trigger] declarators[i]) matches Node::ListItem(item)
            ==> (item.0.spec_as_variable() matches Some(id) ==> realised(
            trim_start(id.1@, DOLLAR),
        )))
}

/// The method that a node holds.
pub open spec fn method_of<'a>(node: Node<'a>) -> Option<&'a ShallowMethod<'a>> {
    match node {
        Node::Constructor(of) => Some(of.method),
        Node::Method(of) => Some(of.method),
        _ => None,
    }
}

/// The message about the use of a method that is deprecated.
pub open spec fn deprecated_method(name: Seq<u8>, message: Seq<u8>) -> Seq<u8> {
    "The method ".spec_bytes() + name + " is deprecated: ".spec_bytes() + message
}

/// The members of a class while they are being read.
pub struct ClassMembers<'a> {
    pub uses: Vec<&'a Ty<'a>>,
    pub xhp_attr_uses: Vec<&'a Ty<'a>>,
    pub xhp_enum_values: StrMap<'a, Items<'a, XhpEnumValue<'a>>>,
    pub req_extends: Vec<&'a Ty<'a>>,
    pub req_implements: Vec<&'a Ty<'a>>,
    pub consts: Vec<&'a ShallowClassConst<'a>>,
    pub typeconsts: Vec<&'a ShallowTypeconst<'a>>,
    pub props: Vec<&'a ShallowProp<'a>>,
    pub xhp_props: Vec<&'a ShallowProp<'a>>,
    pub sprops: Vec<&'a ShallowProp<'a>>,
    pub constructor: Option<&'a ShallowMethod<'a>>,
    pub static_methods: Vec<&'a ShallowMethod<'a>>,
    pub methods: Vec<&'a ShallowMethod<'a>>,
}

impl<'a> View for ClassMembers<'a> {
    type V = Members<'a>;

    open spec fn view(&self) -> Members<'a> {
        Members {
            uses: self.uses@,
            xhp_attr_uses: self.xhp_attr_uses@,
            xhp_enum_values: self.xhp_enum_values,
            req_extends: self.req_extends@,
            req_implements: self.req_implements@,
            consts: self.consts@,
            typeconsts: self.typeconsts@,
            props: self.props@,
            xhp_props: self.xhp_props@,
            sprops: self.sprops@,
            constructor: self.constructor,
            static_methods: self.static_methods@,
            methods: self.methods@,
        }
    }
}

impl<'a> ClassMembers<'a> {
    pub fn new() -> (r: Self)
        ensures
            r@ == no_members::<'a>(),
    {
        ClassMembers {
            uses: Vec::new(),
            xhp_attr_uses: Vec::new(),
            xhp_enum_values: StrMap::empty(),
            req_extends: Vec::new(),
            req_implements: Vec::new(),
            consts: Vec::new(),
            typeconsts: Vec::new(),
            props: Vec::new(),
            xhp_props: Vec::new(),
            sprops: Vec::new(),
            constructor: None,
            static_methods: Vec::new(),
            methods: Vec::new(),
        }
    }
}

fn push_all<'a, T: Copy>(to: &mut Vec<T>, from: Items<'a, T>)
    ensures
        final(to)@ == old(to)@ + from@,
{
    let mut i: usize = 0;
    assert(from@.take(0) =~= Seq::<T>::empty());
    assert(to@ =~= old(to)@ + from@.take(0));
    while i < from.len()
        invariant
            i <= from@.len(),
            to@ == old(to)@ + from@.take(i as int),
        decreases from@.len() - i,
    {
        to.push(*from.at(i));
        assert(to@ =~= old(to)@ + from@.take(i + 1));
        i = i + 1;
    }
    assert(from@.take(i as int) =~= from@);
}

fn push_refs<'a>(to: &mut Vec<&'a ShallowProp<'a>>, from: Items<'a, ShallowProp<'a>>)
    ensures
        final(to)@ == old(to)@ + refs_to(from@),
{
    let mut i: usize = 0;
    assert(to@ =~= old(to)@ + refs_to(from@).take(0));
    while i < from.len()
        invariant
            i <= from@.len(),
            to@ == old(to)@ + refs_to(from@).take(i as int),
        decreases from@.len() - i,
    {
        to.push(from.at(i));
        assert(to@ =~= old(to)@ + refs_to(from@).take(i + 1));
        i = i + 1;
    }
    assert(refs_to(from@).take(i as int) =~= refs_to(from@));
}

fn push_consts<'a>(to: &mut Vec<&'a ShallowClassConst<'a>>, from: Items<'a, Node<'a>>)
    ensures
        final(to)@ == old(to)@ + consts_of(from@),
{
    let mut i: usize = 0;
    assert(from@.take(0) =~= Seq::<Node<'a>>::empty());
    assert(to@ =~= old(to)@ + consts_of(from@.take(0)));
    while i < from.len()
        invariant
            i <= from@.len(),
            to@ == old(to)@ + consts_of(from@.take(i as int)),
        decreases from@.len() - i,
    {
        assert(from@.take(i + 1).drop_last() =~= from@.take(i as int));
        if let Node::Const(decl) = *from.at(i) {
            to.push(decl);
        }
        assert(to@ =~= old(to)@ + consts_of(from@.take(i + 1)));
        i = i + 1;
    }
    assert(from@.take(i as int) =~= from@);
}

/// The class constants among the elements of a node.
pub fn read_consts<'a>(list: Node<'a>, arena: &'a Bump) -> (r: Vec<&'a ShallowClassConst<'a>>)
    ensures
        r@ == consts_of(list.elements()),
{
    let mut found: Vec<&'a ShallowClassConst<'a>> = Vec::new();
    push_consts(&mut found, list.as_slice(arena));
    assert(found@ =~= consts_of(list.elements()));
    found
}

fn add_enum_values<'a>(
    arena: &'a Bump,
    map: StrMap<'a, Items<'a, XhpEnumValue<'a>>>,
    values: Items<'a, (&'a [u8], Items<'a, XhpEnumValue<'a>>)>,
) -> (r: StrMap<'a, Items<'a, XhpEnumValue<'a>>>)
    ensures
        r == with_enum_values(map, values@),
{
    let mut added: StrMap<'a, Items<'a, XhpEnumValue<'a>>> = map;
    let mut i: usize = 0;
    assert(values@.take(0) =~= Seq::<(&'a [u8], Items<'a, XhpEnumValue<'a>>)>::empty());
    while i < values.len()
        invariant
            i <= values@.len(),
            added == with_enum_values(map, values@.take(i as int)),
        decreases values@.len() - i,
    {
        assert(values@.take(i + 1).drop_last() =~= values@.take(i as int));
        let entry = values.at(i);
        added = added.add(arena, entry.0, entry.1);
        i = i + 1;
    }
    assert(values@.take(i as int) =~= values@);
    added
}

impl<
    'a,
    'text,
    S: SourceTextAllocator<'text, 'a>,
    H: Fn(Query<'a, 'text>) -> Answer<'a, 'text>,
> DirectDeclSmartConstructors<'a, 'text, S, H> {
    /// The members of a class with one more element of its body.
    pub open spec fn spec_with_member(&self, members: Members<'a>, element: Node<'a>) -> Members<
        'a,
    > {
        match element {
            Node::TraitUse(names) => Members {
                uses: members.uses + self.spec_tys(names.elements()),
                ..members
            },
            Node::XhpClassAttributeDeclaration(of) => Members {
                xhp_props: members.xhp_props + refs_to(of.xhp_attr_decls@),
                xhp_attr_uses: members.xhp_attr_uses + self.spec_tys(of.xhp_attr_uses_decls@),
                xhp_enum_values: with_enum_values(
                    members.xhp_enum_values,
                    of.xhp_attr_enum_values@,
                ),
                ..members
            },
            Node::TypeConstant(constant) => Members {
                typeconsts: members.typeconsts.push(constant),
                ..members
            },
            Node::RequireClause(require) => match (
                require.require_type.spec_token_kind(),
                self.spec_node_to_ty(require.name),
            ) {
                (Some(TokenKind::Extends), Some(ty)) => Members {
                    req_extends: members.req_extends.push(ty),
                    ..members
                },
                (Some(TokenKind::Implements), Some(ty)) => Members {
                    req_implements: members.req_implements.push(ty),
                    ..members
                },
                _ => members,
            },
            Node::List(nodes) => if nodes@.len() > 0 && nodes@[0] is Const {
                Members { consts: members.consts + consts_of(nodes@), ..members }
            } else {
                members
            },
            Node::Property(of) => if of.is_static {
                Members { sprops: members.sprops + refs_to(of.decls@), ..members }
            } else {
                Members { props: members.props + refs_to(of.decls@), ..members }
            },
            Node::Constructor(of) => Members {
                constructor: Some(of.method),
                props: members.props + refs_to(of.properties@),
                ..members
            },
            Node::Method(of) => if of.is_static {
                Members { static_methods: members.static_methods.push(of.method), ..members }
            } else {
                Members { methods: members.methods.push(of.method), ..members }
            },
            _ => members,
        }
    }

    pub open spec fn spec_members(&self, body: Seq<Node<'a>>) -> Members<'a>
        decreases body.len(),
    {
        if body.len() == 0 {
            no_members()
        } else {
            self.spec_with_member(self.spec_members(body.drop_last()), body.last())
        }
    }

    fn add_member(&self, members: &mut ClassMembers<'a>, element: Node<'a>)
        requires
            self.wf(),
        ensures
            final(members)@ == self.spec_with_member(old(members)@, element),
    {
        match element {
            Node::TraitUse(names) => {
                let tys = self.tys(*names);
                push_all(&mut members.uses, tys);
            },
            Node::XhpClassAttributeDeclaration(of) => {
                push_refs(&mut members.xhp_props, of.xhp_attr_decls);
                let names = Node::List(self.allocate(of.xhp_attr_uses_decls));
                let tys = self.tys(names);
                push_all(&mut members.xhp_attr_uses, tys);
                members.xhp_enum_values =
                add_enum_values(self.arena, members.xhp_enum_values, of.xhp_attr_enum_values);
            },
            Node::TypeConstant(constant) => members.typeconsts.push(constant),
            Node::RequireClause(require) => {
                if let Some(ty) = self.node_to_ty(require.name) {
                    match require.require_type.token_kind() {
                        Some(TokenKind::Extends) => members.req_extends.push(ty),
                        Some(TokenKind::Implements) => members.req_implements.push(ty),
                        _ => {},
                    }
                }
            },
            Node::List(nodes) => {
                if nodes.len() > 0 {
                    if let Node::Const(_) = *nodes.at(0) {
                        push_consts(&mut members.consts, *nodes);
                    }
                }
            },
            Node::Property(of) => {
                if of.is_static {
                    push_refs(&mut members.sprops, of.decls);
                } else {
                    push_refs(&mut members.props, of.decls);
                }
            },
            Node::Constructor(of) => {
                members.constructor = Some(of.method);
                push_refs(&mut members.props, of.properties);
            },
            Node::Method(of) => {
                if of.is_static {
                    members.static_methods.push(of.method);
                } else {
                    members.methods.push(of.method);
                }
            },
            // Other elements are errors, which others report.
            _ => {},
        }
    }

    fn members(&self, body: Items<'a, Node<'a>>) -> (r: ClassMembers<'a>)
        requires
            self.wf(),
        ensures
            r@ == self.spec_members(body@),
    {
        let mut members = ClassMembers::new();
        let mut i: usize = 0;
        assert(body@.take(0) =~= Seq::<Node<'a>>::empty());
        while i < body.len()
            invariant
                self.wf(),
                i <= body@.len(),
                members@ == self.spec_members(body@.take(i as int)),
            decreases body@.len() - i,
        {
            assert(body@.take(i + 1).drop_last() =~= body@.take(i as int));
            self.add_member(&mut members, *body.at(i));
            i = i + 1;
        }
        assert(body@.take(i as int) =~= body@);
        members
    }

    fn class_props(&self, members: &ClassMembers<'a>, all_const: bool) -> (r: Items<
        'a,
        &'a ShallowProp<'a>,
    >)
        ensures
            r == Items::of(class_props(members@, all_const)),
    {
        let ghost all = members.props@ + members.xhp_props@;
        let mut props: Vec<&'a ShallowProp<'a>> = Vec::new();
        let regular = members.props.len();
        let len_xhp = members.xhp_props.len();
        let mut i: usize = 0;
        while i < regular
            invariant
                regular == members.props@.len(),
                all == members.props@ + members.xhp_props@,
                i <= regular,
                props@.len() == i,
                forall|j: int|
                    0 <= j < i ==> #[trigger] props@[j] == (if all_const {
                        made_const(all[j])
                    } else {
                        all[j]
                    }),
            decreases regular - i,
        {
            props.push(self.const_if(members.props[i], all_const));
            i = i + 1;
        }
        i = 0;
        while i < len_xhp
            invariant
                regular == members.props@.len(),
                len_xhp == members.xhp_props@.len(),
                all == members.props@ + members.xhp_props@,
                i <= len_xhp,
                props@.len() == regular + i,
                forall|j: int|
                    0 <= j < regular + i ==> #[trigger] props@[j] == (if all_const {
                        made_const(all[j])
                    } else {
                        all[j]
                    }),
            decreases len_xhp - i,
        {
            props.push(self.const_if(members.xhp_props[i], all_const));
            i = i + 1;
        }
        assert(props@ =~= class_props(members@, all_const));
        Items::copied(self.arena, props.as_slice())
    }

    fn const_if(&self, prop: &'a ShallowProp<'a>, all_const: bool) -> (r: &'a ShallowProp<'a>)
        ensures
            r == (if all_const {
                made_const(prop)
            } else {
                prop
            }),
    {
        if all_const && !prop.flags.const_ {
            self.allocate(
                ShallowProp { flags: PropFlags { const_: true, ..prop.flags }, ..*prop },
            )
        } else {
            prop
        }
    }

    /// A class under its name, where it has a name and a body.
    pub open spec fn spec_class(
        &self,
        attributes: Node<'a>,
        modifiers: Node<'a>,
        xhp_keyword: Node<'a>,
        class_keyword: Node<'a>,
        name: Node<'a>,
        tparams: Node<'a>,
        extends: Node<'a>,
        implements: Node<'a>,
        where_clause: Node<'a>,
        body: Node<'a>,
    ) -> Option<(&'a [u8], &'a ShallowClass<'a>)> {
        match (self.spec_expect_name(name), self.spec_elaborate_defined_id(name), body) {
            (Some(raw), Some(id), Node::ClassishBody(elements)) => {
                let members = self.spec_members(elements@);
                let attrs = attributes_in(attributes);
                Some(
                    (
                        id.1,
                        &ShallowClass {
                            mode: self.file_mode,
                            final_: modifiers.spec_holds_token(TokenKind::Final),
                            is_xhp: begins_with(raw.1@, COLON) || !(xhp_keyword is Ignored),
                            has_xhp_keyword: xhp_keyword.spec_is_token(TokenKind::XHP),
                            kind: class_kind(class_keyword, modifiers),
                            module: attrs.module,
                            name: id.pos_id(),
                            tparams: tparams_of(tparams),
                            where_constraints: Items::of(wheres_of(where_clause.elements())),
                            extends: Items::of(self.spec_tys(extends.elements())),
                            uses: Items::of(members.uses),
                            xhp_attr_uses: Items::of(members.xhp_attr_uses),
                            xhp_enum_values: members.xhp_enum_values,
                            req_extends: Items::of(members.req_extends),
                            req_implements: Items::of(members.req_implements),
                            implements: Items::of(self.spec_tys(implements.elements())),
                            support_dynamic_type: self.opts.everything_sdt
                                || attrs.support_dynamic_type,
                            consts: Items::of(members.consts),
                            typeconsts: Items::of(members.typeconsts),
                            props: Items::of(class_props(members, attrs.const_)),
                            sprops: Items::of(members.sprops),
                            constructor: members.constructor,
                            static_methods: Items::of(members.static_methods),
                            methods: Items::of(members.methods),
                            user_attributes: Items::of(
                                attributes_reversed(attribute_list(attributes.elements())),
                            ),
                            enum_type: None,
                        },
                    ),
                )
            },
            _ => None,
        }
    }

    pub fn make_classish_declaration(
        &mut self,
        attributes: Node<'a>,
        modifiers: Node<'a>,
        xhp_keyword: Node<'a>,
        class_keyword: Node<'a>,
        name: Node<'a>,
        tparams: Node<'a>,
        _extends_keyword: Node<'a>,
        extends: Node<'a>,
        _implements_keyword: Node<'a>,
        implements: Node<'a>,
        where_clause: Node<'a>,
        body: Node<'a>,
    ) -> (r: Node<'a>)
        requires
            old(self).wf(),
            old(self).spec_class(
                attributes,
                modifiers,
                xhp_keyword,
                class_keyword,
                name,
                tparams,
                extends,
                implements,
                where_clause,
                body,
            ) is Some ==> old(self).can_pop(tparams),
        ensures
            final(self).wf(),
            r == Node::<'a>::Ignored(SyntaxKind::ClassishDeclaration),
            match old(self).spec_class(
                attributes,
                modifiers,
                xhp_keyword,
                class_keyword,
                name,
                tparams,
                extends,
                implements,
                where_clause,
                body,
            ) {
                Some(class) => {
                    &&& final(self).decls@ == old(self).decls@.push(
                        (class.0, Decl::Class(class.1)),
                    )
                    &&& final(self).type_parameters@ == popped(
                        old(self).type_parameters@,
                        tparams,
                    )
                    &&& final(self).classish_name_builder is NotInClassish
                },
                None => *final(self) == *old(self),
            },
            old(self).decls@.is_prefix_of(final(self).decls@),
            *final(self) == (DirectDeclSmartConstructors {
                decls: final(self).decls,
                type_parameters: final(self).type_parameters,
                classish_name_builder: final(self).classish_name_builder,
                ..*old(self)
            }),
    {
        let raw_name = match self.expect_name(name) {
            Some(Id(_, name)) => name,
            None => return Node::Ignored(SyntaxKind::ClassishDeclaration),
        };
        let id = match self.elaborate_defined_id(name) {
            Some(id) => id,
            None => return Node::Ignored(SyntaxKind::ClassishDeclaration),
        };
        let is_xhp = starts_with_byte(raw_name, COLON) || xhp_keyword.is_present();
        let kind = if modifiers.holds_token(TokenKind::Abstract) {
            ClassishKind::Cclass(Abstraction::Abstract)
        } else {
            match class_keyword.token_kind() {
                Some(TokenKind::Interface) => ClassishKind::Cinterface,
                Some(TokenKind::Trait) => ClassishKind::Ctrait,
                _ => ClassishKind::Cclass(Abstraction::Concrete),
            }
        };
        let final_ = modifiers.holds_token(TokenKind::Final);
        let where_constraints = self.where_constraints(where_clause);
        let body = match body {
            Node::ClassishBody(body) => *body,
            _ => return Node::Ignored(SyntaxKind::ClassishDeclaration),
        };
        let members = self.members(body);
        let class_attributes = self.to_attributes(attributes);
        let props = self.class_props(&members, class_attributes.const_);
        let attribute_nodes = read_attribute_list(attributes);
        let user_attributes = self.attributes_to_decls(attribute_nodes.as_slice());
        let extends = self.tys(extends);
        let implements = self.tys(implements);
        let support_dynamic_type = self.opts.everything_sdt
            || class_attributes.support_dynamic_type;
        // The type parameters go out of scope only now that all types inside
        // have been made.
        let tparams = self.pop_type_params(tparams);
        let cls = self.allocate(
            ShallowClass {
                mode: self.file_mode,
                final_,
                is_xhp,
                has_xhp_keyword: xhp_keyword.is_token(TokenKind::XHP),
                kind,
                module: class_attributes.module,
                name: id.to_pos_id(),
                tparams,
                where_constraints,
                extends,
                uses: Items::copied(self.arena, members.uses.as_slice()),
                xhp_attr_uses: Items::copied(self.arena, members.xhp_attr_uses.as_slice()),
                xhp_enum_values: members.xhp_enum_values,
                req_extends: Items::copied(self.arena, members.req_extends.as_slice()),
                req_implements: Items::copied(self.arena, members.req_implements.as_slice()),
                implements,
                support_dynamic_type,
                consts: Items::copied(self.arena, members.consts.as_slice()),
                typeconsts: Items::copied(self.arena, members.typeconsts.as_slice()),
                props,
                sprops: Items::copied(self.arena, members.sprops.as_slice()),
                constructor: members.constructor,
                static_methods: Items::copied(self.arena, members.static_methods.as_slice()),
                methods: Items::copied(self.arena, members.methods.as_slice()),
                user_attributes,
                enum_type: None,
            },
        );
        self.add_class(id.1, cls);
        self.classish_name_builder.parsed_classish_declaration();
        Node::Ignored(SyntaxKind::ClassishDeclaration)
    }

    pub fn make_classish_body(
        &self,
        _left_brace: Node<'a>,
        elements: Node<'a>,
        _right_brace: Node<'a>,
    ) -> (r: Node<'a>)
        ensures
            r matches Node::ClassishBody(body) && body@ == elements.elements(),
    {
        Node::ClassishBody(self.allocate(elements.as_slice(self.arena)))
    }

    /// The type of a property. Where the options have it, `<<__Soft>>` makes a
    /// like type of it.
    pub open spec fn spec_prop_ty(&self, attributes: Attributes<'a>, hint: Node<'a>) -> Option<
        &'a Ty<'a>,
    > {
        match self.spec_node_to_non_ret_ty(hint) {
            None => None,
            Some(ty) => if self.opts.interpret_soft_types_as_like_types && attributes.soft {
                Some(&hinted(&self.spec_pos(hint), Ty_::Tlike(ty)))
            } else {
                Some(ty)
            },
        }
    }

    /// A property with the given name. An instance property loses its dollar
    /// sign, a static one keeps it.
    pub open spec fn spec_prop(
        &self,
        attributes: Attributes<'a>,
        modifiers: Modifiers,
        hint: Node<'a>,
        id: Id<'a>,
        initializer: Node<'a>,
    ) -> ShallowProp<'a> {
        ShallowProp {
            xhp_attr: None,
            name: (
                id.0,
                if modifiers.is_static {
                    id.1
                } else {
                    slice_of(trim_start(id.1@, DOLLAR))
                },
            ),
            type_: self.spec_prop_ty(attributes, hint),
            visibility: modifiers.visibility,
            flags: PropFlags {
                const_: attributes.const_,
                lateinit: attributes.late_init,
                lsb: attributes.lsb,
                needs_init: self.file_mode != Mode::Mhhi && initializer is Ignored,
                abstract_: modifiers.is_abstract,
                readonly: modifiers.is_readonly,
                php_std_lib: attributes.php_std_lib,
            },
        }
    }

    fn prop(
        &self,
        attributes: &Attributes<'a>,
        modifiers: Modifiers,
        hint: Node<'a>,
        id: Id<'a>,
        initializer: Node<'a>,
    ) -> (r: ShallowProp<'a>)
        requires
            self.wf(),
        ensures
            r == self.spec_prop(*attributes, modifiers, hint, id, initializer),
            r.name.1@ == (if modifiers.is_static {
                id.1@
            } else {
                trim_start(id.1@, DOLLAR)
            }),
    {
        let Id(pos, name) = id;
        let name = if modifiers.is_static {
            name
        } else {
            strip_dollar_prefix(name)
        };
        assert(slice_of(name@) == name);
        let ty = match self.node_to_non_ret_ty(hint) {
            Some(ty) => {
                if self.opts.interpret_soft_types_as_like_types && attributes.soft {
                    Some(self.hint(self.get_pos(hint), Ty_::Tlike(ty)))
                } else {
                    Some(ty)
                }
            },
            None => None,
        };
        let needs_init = if self.file_mode == Mode::Mhhi {
            false
        } else {
            initializer.is_ignored()
        };
        ShallowProp {
            xhp_attr: None,
            name: (pos, name),
            type_: ty,
            visibility: modifiers.visibility,
            flags: PropFlags {
                const_: attributes.const_,
                lateinit: attributes.late_init,
                lsb: attributes.lsb,
                needs_init,
                abstract_: modifiers.is_abstract,
                readonly: modifiers.is_readonly,
                php_std_lib: attributes.php_std_lib,
            },
        }
    }

    /// The properties of a declaration, one for each declarator with a name.
    pub open spec fn spec_props(
        &self,
        attrs: Node<'a>,
        modifiers: Modifiers,
        hint: Node<'a>,
        declarators: Seq<Node<'a>>,
    ) -> Seq<ShallowProp<'a>>
        decreases declarators.len(),
    {
        if declarators.len() == 0 {
            Seq::<ShallowProp<'a>>::empty()
        } else {
            let before = self.spec_props(attrs, modifiers, hint, declarators.drop_last());
            match declarators.last() {
                Node::ListItem(item) => match item.0.spec_as_variable() {
                    Some(id) => before.push(
                        self.spec_prop(attributes_in(attrs), modifiers, hint, id, item.1),
                    ),
                    None => before,
                },
                _ => before,
            }
        }
    }

    pub open spec fn spec_make_property_declaration(
        &self,
        attrs: Node<'a>,
        modifiers: Node<'a>,
        hint: Node<'a>,
        declarators: Node<'a>,
    ) -> Node<'a> {
        Node::Property(
            &PropertyNode {
                decls: Items::of(
                    self.spec_props(
                        attrs,
                        member_modifiers(modifiers.elements()),
                        hint,
                        declarators.elements(),
                    ),
                ),
                is_static: member_modifiers(modifiers.elements()).is_static,
            },
        )
    }

    pub fn make_property_declaration(
        &self,
        attrs: Node<'a>,
        modifiers: Node<'a>,
        hint: Node<'a>,
        declarators: Node<'a>,
        _semicolon: Node<'a>,
    ) -> (r: Node<'a>)
        requires
            self.wf(),
        ensures
            r == self.spec_make_property_declaration(attrs, modifiers, hint, declarators),
            !member_modifiers(modifiers.elements()).is_static ==> prop_names_realised(
                declarators.elements(),
            ),
    {
        let modifiers = read_member_modifiers(modifiers);
        let attributes = self.to_attributes(attrs);
        let mut props: Vec<ShallowProp<'a>> = Vec::new();
        let len = declarators.len();
        let ghost nodes = declarators.elements();
        let mut i: usize = 0;
        assert(nodes.take(0) =~= Seq::<Node<'a>>::empty());
        while i < len
            invariant
                self.wf(),
                attributes == attributes_in(attrs),
                nodes == declarators.elements(),
                len == nodes.len(),
                i <= len,
                props@ == self.spec_props(attrs, modifiers, hint, nodes.take(i as int)),
                !modifiers.is_static ==> prop_names_realised(nodes.take(i as int)),
            decreases len - i,
        {
            assert(nodes.take(i + 1).drop_last() =~= nodes.take(i as int));
            if let Node::ListItem(item) = declarators.nth(i) {
                if let Some(id) = item.0.as_variable() {
                    props.push(self.prop(&attributes, modifiers, hint, id, item.1));
                }
            }
            i = i + 1;
        }
        assert(nodes.take(i as int) =~= nodes);
        Node::Property(
            self.allocate(
                PropertyNode {
                    decls: Items::copied(self.arena, props.as_slice()),
                    is_static: modifiers.is_static,
                },
            ),
        )
    }

    pub fn make_property_declarator(&self, name: Node<'a>, initializer: Node<'a>) -> (r: Node<'a>)
        ensures
            r == Node::ListItem(&(name, initializer)),
    {
        Node::ListItem(self.allocate((name, initializer)))
    }

    /// A method as a class keeps it. The methods of an interface are abstract.
    pub open spec fn spec_method(
        &self,
        attributes: Attributes<'a>,
        modifiers: Modifiers,
        id: PosId<'a>,
        ty: &'a Ty<'a>,
    ) -> &'a ShallowMethod<'a> {
        &ShallowMethod {
            name: id,
            type_: ty,
            visibility: if modifiers.visibility == Visibility::Public && attributes.internal {
                Visibility::Internal
            } else {
                modifiers.visibility
            },
            deprecated: match attributes.deprecated {
                Some(message) => Some(slice_of(deprecated_method(id.1@, message@))),
                None => None,
            },
            flags: MethodFlags {
                abstract_: self.classish_name_builder.spec_in_interface() || modifiers.is_abstract,
                final_: modifiers.is_final,
                override_: attributes.override_,
                dynamically_callable: attributes.dynamically_callable,
                php_std_lib: attributes.php_std_lib,
            },
        }
    }

    pub open spec fn spec_make_methodish(
        &self,
        attributes: Node<'a>,
        header: Node<'a>,
        body: Node<'a>,
        closer: Node<'a>,
    ) -> Node<'a> {
        match header {
            Node::FunctionHeader(header) => {
                let body = if body is Ignored {
                    closer
                } else {
                    body
                };
                let modifiers = member_modifiers(header.modifiers.elements());
                match self.spec_function_to_ty(true, attributes, *header, body) {
                    Some(of) => {
                        let method = self.spec_method(
                            attributes_in(attributes),
                            modifiers,
                            of.0,
                            of.1,
                        );
                        if header.name.spec_is_token(TokenKind::Construct) {
                            Node::Constructor(&ConstructorNode { method, properties: of.2 })
                        } else {
                            Node::Method(
                                &MethodNode { method, is_static: modifiers.is_static },
                            )
                        }
                    },
                    None => Node::Ignored(SyntaxKind::MethodishDeclaration),
                }
            },
            _ => Node::Ignored(SyntaxKind::MethodishDeclaration),
        }
    }

    pub fn make_methodish_declaration(
        &mut self,
        attributes: Node<'a>,
        header: Node<'a>,
        body: Node<'a>,
        closer: Node<'a>,
    ) -> (r: Node<'a>)
        requires
            old(self).wf(),
            old(self).can_pop_header(header),
        ensures
            final(self).wf(),
            r == old(self).spec_make_methodish(attributes, header, body, closer),
            method_of(r) matches Some(method) ==> (attributes_in(
                attributes,
            ).deprecated matches Some(message) ==> (method.deprecated matches Some(text) && text@
                == deprecated_method(method.name.1@, message@))),
            !(r is Ignored) && header->FunctionHeader_0.param_list is List ==> promoted_realised(
                header->FunctionHeader_0.param_list.elements(),
            ),
            final(self).type_parameters@ == (if r is Ignored {
                old(self).type_parameters@
            } else {
                popped(old(self).type_parameters@, header->FunctionHeader_0.type_params)
            }),
            *final(self) == (DirectDeclSmartConstructors {
                type_parameters: final(self).type_parameters,
                ..*old(self)
            }),
    {
        let header = match header {
            Node::FunctionHeader(header) => header,
            _ => return Node::Ignored(SyntaxKind::MethodishDeclaration),
        };
        // Without a body the closing token is used. It is a brace for a regular
        // method and a semicolon for an abstract one.
        let body = if body.is_ignored() {
            closer
        } else {
            body
        };
        let modifiers = read_member_modifiers(header.modifiers);
        let is_constructor = header.name.is_token(TokenKind::Construct);
        let (id, ty, properties) = match self.function_to_ty(true, attributes, header, body) {
            Some(of) => of,
            None => return Node::Ignored(SyntaxKind::MethodishDeclaration),
        };
        let attributes = self.to_attributes(attributes);
        let deprecated = match attributes.deprecated {
            Some(message) => {
                let text = self.deprecation("The method ", id.1, message);
                assert(slice_of(text@) == text);
                Some(text)
            },
            None => None,
        };
        let flags = MethodFlags {
            abstract_: self.classish_name_builder.in_interface() || modifiers.is_abstract,
            final_: modifiers.is_final,
            override_: attributes.override_,
            dynamically_callable: attributes.dynamically_callable,
            php_std_lib: attributes.php_std_lib,
        };
        let visibility = match modifiers.visibility {
            Visibility::Public => {
                if attributes.internal {
                    Visibility::Internal
                } else {
                    Visibility::Public
                }
            },
            visibility => visibility,
        };
        let method = self.allocate(
            ShallowMethod { name: id, type_: ty, visibility, deprecated, flags },
        );
        if is_constructor {
            Node::Constructor(self.allocate(ConstructorNode { method, properties }))
        } else {
            Node::Method(self.allocate(MethodNode { method, is_static: modifiers.is_static }))
        }
    }

    pub fn make_trait_use(
        &self,
        _keyword: Node<'a>,
        names: Node<'a>,
        _semicolon: Node<'a>,
    ) -> (r: Node<'a>)
        ensures
            r == Node::TraitUse(&names),
    {
        Node::TraitUse(self.allocate(names))
    }

    pub fn make_trait_use_conflict_resolution(
        &self,
        _keyword: Node<'a>,
        names: Node<'a>,
        _left_brace: Node<'a>,
        _clauses: Node<'a>,
        _right_brace: Node<'a>,
    ) -> (r: Node<'a>)
        ensures
            r == Node::TraitUse(&names),
    {
        Node::TraitUse(self.allocate(names))
    }

    pub fn make_require_clause(
        &self,
        _keyword: Node<'a>,
        require_type: Node<'a>,
        name: Node<'a>,
        _semicolon: Node<'a>,
    ) -> (r: Node<'a>)
        ensures
            r == Node::RequireClause(&RequireClause { require_type, name }),
    {
        Node::RequireClause(self.allocate(RequireClause { require_type, name }))
    }
}

/// The properties of XHP attributes stand behind the others, whatever their
/// order in the file, and with `__Const` all of them are constant. Nothing
/// else about a property changes.
pub proof fn law_class_props<'a>(members: Members<'a>, all_const: bool, i: int)
    requires
        0 <= i < members.props.len() + members.xhp_props.len(),
    ensures
        class_props(members, all_const).len() == members.props.len() + members.xhp_props.len(),
        ({
            let prop = class_props(members, all_const)[i];
            let written = if i < members.props.len() {
                members.props[i]
            } else {
                members.xhp_props[i - members.props.len()]
            };
            *prop == (ShallowProp {
                flags: PropFlags {
                    const_: all_const || written.flags.const_,
                    ..written.flags
                },
                ..*written
            })
        }),
{
}

/// Class constants are taken from a list in their order; what else stands in it
/// is passed over.
pub proof fn law_consts_in_order<'a>(nodes: Seq<Node<'a>>, node: Node<'a>)
    ensures
        consts_of(Seq::<Node<'a>>::empty()).len() == 0,
        node matches Node::Const(decl) ==> consts_of(nodes.push(node)) == consts_of(nodes).push(
            decl,
        ),
        !(node is Const) ==> consts_of(nodes.push(node)) == consts_of(nodes),
{
    assert(nodes.push(node).drop_last() =~= nodes);
}

/// The values of XHP enumerations are kept under the name of each, the later ones
/// in place of earlier ones of the same name.
pub proof fn law_values_of_xhp_enumerations<'a>(
    map: StrMap<'a, Items<'a, XhpEnumValue<'a>>>,
    values: Seq<(&'a [u8], Items<'a, XhpEnumValue<'a>>)>,
    value: (&'a [u8], Items<'a, XhpEnumValue<'a>>),
    asked: Seq<u8>,
)
    ensures
        with_enum_values(map, Seq::<(&'a [u8], Items<'a, XhpEnumValue<'a>>)>::empty()) == map,
        lookup(with_enum_values(map, values.push(value)).entries@, asked) == (if asked == value.0@ {
            Some(value.1)
        } else {
            lookup(with_enum_values(map, values).entries@, asked)
        }),
{
    assert(values.push(value).drop_last() =~= values);
    law_added_entry(with_enum_values(map, values), value.0, value.1, asked);
}

/// The keyword `interface` begins an interface, `trait` a trait and `class` a
/// class, which `abstract` makes abstract; nothing else does.
pub proof fn law_kind_of_a_class<'a>(class_keyword: Node<'a>, modifiers: Node<'a>)
    ensures
        ({
            let kind = class_kind(class_keyword, modifiers);
            let is_abstract = modifiers.spec_holds_token(TokenKind::Abstract);
            &&& kind == ClassishKind::Cclass(Abstraction::Abstract) <==> is_abstract
            &&& kind is Cinterface <==> !is_abstract && class_keyword.spec_token_kind() == Some(
                TokenKind::Interface,
            )
            &&& kind is Ctrait <==> !is_abstract && class_keyword.spec_token_kind() == Some(
                TokenKind::Trait,
            )
            &&& kind == ClassishKind::Cclass(Abstraction::Concrete) <==> !is_abstract
                && class_keyword.spec_token_kind() != Some(TokenKind::Interface)
                && class_keyword.spec_token_kind() != Some(TokenKind::Trait)
        }),
{
}

/// Properties by reference are the properties themselves, in their order.
pub proof fn law_properties_by_reference<'a>(props: Seq<ShallowProp<'a>>, i: int)
    requires
        0 <= i < props.len(),
    ensures
        refs_to(props).len() == props.len(),
        *refs_to(props)[i] == props[i],
{
}

/// The message about a deprecated method names it and ends with what the
/// attribute says.
pub proof fn law_deprecated_method(name: Seq<u8>, message: Seq<u8>)
    ensures
        ("The method ".spec_bytes() + name).is_prefix_of(deprecated_method(name, message)),
        (" is deprecated: ".spec_bytes() + message).is_suffix_of(deprecated_method(name, message)),
        deprecated_method(name, message).len() == ("The method ".spec_bytes() + name
            + " is deprecated: ".spec_bytes() + message).len(),
{
    let text = deprecated_method(name, message);
    let front = "The method ".spec_bytes() + name;
    let back = " is deprecated: ".spec_bytes() + message;
    assert(text =~= front + back);
    assert(front =~= text.subrange(0, front.len() as int));
    assert(back =~= text.subrange(text.len() - back.len(), text.len() as int));
}

impl<
    'a,
    'text,
    S: SourceTextAllocator<'text, 'a>,
    H: Fn(Query<'a, 'text>) -> Answer<'a, 'text>,
> DirectDeclSmartConstructors<'a, 'text, S, H> {
    proof fn lemma_member_is_added(&self, members: Members<'a>, element: Node<'a>)
        ensures
            ({
                let one = self.spec_with_member(no_members(), element);
                let all = self.spec_with_member(members, element);
                &&& all.uses == members.uses + one.uses
                &&& all.xhp_attr_uses == members.xhp_attr_uses + one.xhp_attr_uses
                &&& all.req_extends == members.req_extends + one.req_extends
                &&& all.req_implements == members.req_implements + one.req_implements
                &&& all.consts == members.consts + one.consts
                &&& all.typeconsts == members.typeconsts + one.typeconsts
                &&& all.props == members.props + one.props
                &&& all.xhp_props == members.xhp_props + one.xhp_props
                &&& all.sprops == members.sprops + one.sprops
                &&& all.static_methods == members.static_methods + one.static_methods
                &&& all.methods == members.methods + one.methods
                &&& all.constructor == (if one.constructor is Some {
                    one.constructor
                } else {
                    members.constructor
                })
            }),
    {
    }

    /// What the parts of a class body declare is put together in the order of
    /// the parts. Of two constructors the later one counts.
    #[verifier::rlimit(40)]
    pub proof fn law_members_in_order(&self, first: Seq<Node<'a>>, second: Seq<Node<'a>>)
        ensures
            ({
                let x = self.spec_members(first);
                let y = self.spec_members(second);
                let all = self.spec_members(first + second);
                &&& all.uses == x.uses + y.uses
                &&& all.xhp_attr_uses == x.xhp_attr_uses + y.xhp_attr_uses
                &&& all.req_extends == x.req_extends + y.req_extends
                &&& all.req_implements == x.req_implements + y.req_implements
                &&& all.consts == x.consts + y.consts
                &&& all.typeconsts == x.typeconsts + y.typeconsts
                &&& all.props == x.props + y.props
                &&& all.xhp_props == x.xhp_props + y.xhp_props
                &&& all.sprops == x.sprops + y.sprops
                &&& all.static_methods == x.static_methods + y.static_methods
                &&& all.methods == x.methods + y.methods
                &&& all.constructor == (if y.constructor is Some {
                    y.constructor
                } else {
                    x.constructor
                })
            }),
        decreases second.len(),
    {
        if second.len() == 0 {
            assert(first + second =~= first);
            let y = self.spec_members(second);
            assert(y == no_members::<'a>());
        } else {
            let rest = second.drop_last();
            let element = second.last();
            self.law_members_in_order(first, rest);
            assert((first + second).drop_last() =~= first + rest);
            assert((first + second).last() == element);
            self.lemma_member_is_added(self.spec_members(first + rest), element);
            self.lemma_member_is_added(self.spec_members(rest), element);
        }
    }

    /// A method stands among the methods of its class, a static one among the
    /// static methods, and likewise for properties. A constructor adds the
    /// properties that its parameters declare. The classes and interfaces
    /// behind `use` and `require` stand in the list of their own. No element of
    /// a class body adds anything else.
    pub proof fn law_one_member(&self, element: Node<'a>)
        ensures
            ({
                let read = self.spec_members(seq![element]);
                &&& read.methods == (match element {
                    Node::Method(of) => if of.is_static {
                        seq![]
                    } else {
                        seq![of.method]
                    },
                    _ => seq![],
                })
                &&& read.static_methods == (match element {
                    Node::Method(of) => if of.is_static {
                        seq![of.method]
                    } else {
                        seq![]
                    },
                    _ => seq![],
                })
                &&& read.constructor == (match element {
                    Node::Constructor(of) => Some(of.method),
                    _ => None,
                })
                &&& read.props == (match element {
                    Node::Property(of) => if of.is_static {
                        seq![]
                    } else {
                        refs_to(of.decls@)
                    },
                    Node::Constructor(of) => refs_to(of.properties@),
                    _ => seq![],
                })
                &&& read.sprops == (match element {
                    Node::Property(of) => if of.is_static {
                        refs_to(of.decls@)
                    } else {
                        seq![]
                    },
                    _ => seq![],
                })
                &&& read.typeconsts == (match element {
                    Node::TypeConstant(of) => seq![of],
                    _ => seq![],
                })
                &&& read.consts == (match element {
                    Node::List(nodes) => if nodes@.len() > 0 && nodes@[0] is Const {
                        consts_of(nodes@)
                    } else {
                        seq![]
                    },
                    _ => seq![],
                })
                &&& read.uses == (match element {
                    Node::TraitUse(names) => self.spec_tys(names.elements()),
                    _ => seq![],
                })
                &&& read.xhp_props == (match element {
                    Node::XhpClassAttributeDeclaration(of) => refs_to(of.xhp_attr_decls@),
                    _ => seq![],
                })
                &&& read.xhp_enum_values == (match element {
                    Node::XhpClassAttributeDeclaration(of) => with_enum_values(
                        StrMap::nothing(),
                        of.xhp_attr_enum_values@,
                    ),
                    _ => StrMap::nothing(),
                })
                &&& read.xhp_attr_uses == (match element {
                    Node::XhpClassAttributeDeclaration(of) => self.spec_tys(
                        of.xhp_attr_uses_decls@,
                    ),
                    _ => seq![],
                })
                &&& read.req_extends == (match element {
                    Node::RequireClause(of) => if of.require_type.spec_is_token(TokenKind::Extends) {
                        self.spec_tys(seq![of.name])
                    } else {
                        seq![]
                    },
                    _ => seq![],
                })
                &&& read.req_implements == (match element {
                    Node::RequireClause(of) => if of.require_type.spec_is_token(
                        TokenKind::Implements,
                    ) {
                        self.spec_tys(seq![of.name])
                    } else {
                        seq![]
                    },
                    _ => seq![],
                })
            }),
    {
        assert(seq![element].drop_last() =~= seq![]);
        reveal_with_fuel(DirectDeclSmartConstructors::spec_members, 2);
        if let Node::RequireClause(of) = element {
            assert(seq![of.name].drop_last() =~= seq![]);
            reveal_with_fuel(DirectDeclSmartConstructors::spec_tys, 2);
        }
    }

    /// The enumerations of an element of a class body are added to those before
    /// it; no other element changes them.
    pub proof fn law_enumerations_in_order(&self, body: Seq<Node<'a>>, element: Node<'a>)
        ensures
            element matches Node::XhpClassAttributeDeclaration(of) ==> self.spec_members(
                body.push(element),
            ).xhp_enum_values == with_enum_values(
                self.spec_members(body).xhp_enum_values,
                of.xhp_attr_enum_values@,
            ),
            !(element is XhpClassAttributeDeclaration) ==> self.spec_members(
                body.push(element),
            ).xhp_enum_values == self.spec_members(body).xhp_enum_values,
    {
        assert(body.push(element).drop_last() =~= body);
    }

    /// A class is declared where it has a name and a body, under its full name,
    /// and says what its parts say: `final` makes it final, `__Const` its
    /// properties constant, and so on.
    pub proof fn law_class_as_written(
        &self,
        attributes: Node<'a>,
        modifiers: Node<'a>,
        xhp_keyword: Node<'a>,
        class_keyword: Node<'a>,
        name: Node<'a>,
        tparams: Node<'a>,
        extends: Node<'a>,
        implements: Node<'a>,
        where_clause: Node<'a>,
        body: Node<'a>,
    )
        ensures
            match self.spec_class(
                attributes,
                modifiers,
                xhp_keyword,
                class_keyword,
                name,
                tparams,
                extends,
                implements,
                where_clause,
                body,
            ) {
                Some(of) => {
                    let class = of.1;
                    let members = self.spec_members(body->ClassishBody_0@);
                    &&& body is ClassishBody
                    &&& self.spec_elaborate_defined_id(name) matches Some(id) && class.name.0
                        == id.0 && class.name.1 == id.1 && of.0 == id.1
                    &&& class.mode == self.file_mode
                    &&& class.final_ <==> modifiers.spec_holds_token(TokenKind::Final)
                    &&& class.kind == class_kind(class_keyword, modifiers)
                    &&& class.has_xhp_keyword <==> xhp_keyword.spec_token_kind() == Some(
                        TokenKind::XHP,
                    )
                    &&& class.is_xhp <==> !(xhp_keyword is Ignored) || (
                    self.spec_expect_name(name)->Some_0.1@.len() > 0 && self.spec_expect_name(
                        name,
                    )->Some_0.1@[0] == COLON)
                    &&& class.module == attributes_in(attributes).module
                    &&& tparams matches Node::TypeParameters(of) ==> class.tparams@ == of@
                    &&& !(tparams is TypeParameters) ==> class.tparams@.len() == 0
                    &&& class.extends@ == self.spec_tys(extends.elements())
                    &&& class.implements@ == self.spec_tys(implements.elements())
                    &&& class.where_constraints@ == wheres_of(where_clause.elements())
                    &&& class.support_dynamic_type <==> self.opts.everything_sdt || bears(
                        attributes,
                        "__SupportDynamicType".spec_bytes(),
                    )
                    &&& class.enum_type is None
                    &&& class.uses@ == members.uses
                    &&& class.xhp_attr_uses@ == members.xhp_attr_uses
                    &&& class.xhp_enum_values == members.xhp_enum_values
                    &&& class.req_extends@ == members.req_extends
                    &&& class.req_implements@ == members.req_implements
                    &&& class.consts@ == members.consts
                    &&& class.typeconsts@ == members.typeconsts
                    &&& class.sprops@ == members.sprops
                    &&& class.constructor == members.constructor
                    &&& class.methods@ == members.methods
                    &&& class.static_methods@ == members.static_methods
                    &&& class.props@ == class_props(
                        members,
                        bears(attributes, "__Const".spec_bytes()),
                    )
                    &&& class.user_attributes@.len() == attribute_list(attributes.elements()).len()
                    &&& forall|i: int|
                        0 <= i < class.user_attributes@.len() ==> #[trigger] class.user_attributes@[i]
                            == declared_attribute(
                            *attribute_list(attributes.elements())[class.user_attributes@.len() - 1
                                - i],
                        )
                },
                None => !(body is ClassishBody) || self.spec_elaborate_defined_id(name) is None
                    || self.spec_expect_name(name) is None,
            },
    {
        law_attributes_say_what_is_written(attributes);
    }

    /// A method is abstract exactly where `abstract` is one of its modifiers or
    /// it stands in an interface, and final where `final` is one of them. It is
    /// a constructor where its name is `__construct`, else static where
    /// `static` is one of its modifiers. Its attributes say the rest.
    pub proof fn law_method_as_written(
        &self,
        attributes: Node<'a>,
        header: &'a FunctionHeader<'a>,
        body: Node<'a>,
        closer: Node<'a>,
    )
        ensures
            ({
                let node = self.spec_make_methodish(
                    attributes,
                    Node::FunctionHeader(header),
                    body,
                    closer,
                );
                let in_interface = self.classish_name_builder matches
                    ClassishNameBuilder::InClassish(of) && of.2 == TokenKind::Interface;
                let is_constructor = header.name.spec_token_kind() == Some(TokenKind::Construct);
                let read = self.spec_function_to_ty(
                    true,
                    attributes,
                    *header,
                    if body is Ignored {
                        closer
                    } else {
                        body
                    },
                );
                let written = member_modifiers(header.modifiers.elements()).visibility;
                &&& method_of(node) is Some <==> self.spec_as_fun_params(header.param_list) is Some
                &&& method_of(node) matches Some(method) ==> {
                    &&& node is Constructor <==> is_constructor
                    &&& node is Method <==> !is_constructor
                    &&& node matches Node::Method(of) ==> (of.is_static
                        <==> header.modifiers.spec_holds_token(TokenKind::Static))
                    &&& node matches Node::Constructor(of) ==> of.properties == read->Some_0.2
                    &&& method.name == read->Some_0.0
                    &&& method.type_ == read->Some_0.1
                    &&& method.flags.abstract_ <==> in_interface
                        || header.modifiers.spec_holds_token(TokenKind::Abstract)
                    &&& method.flags.final_ <==> header.modifiers.spec_holds_token(
                        TokenKind::Final,
                    )
                    &&& method.flags.override_ <==> bears(attributes, "__Override".spec_bytes())
                    &&& method.flags.dynamically_callable <==> bears(
                        attributes,
                        "__DynamicallyCallable".spec_bytes(),
                    )
                    &&& method.flags.php_std_lib <==> bears(
                        attributes,
                        "__PHPStdLib".spec_bytes(),
                    )
                    &&& method.visibility == Visibility::Internal <==> written
                        == Visibility::Public && bears(attributes, "__Internal".spec_bytes())
                    &&& method.visibility != Visibility::Internal ==> method.visibility == written
                    &&& method.deprecated is Some <==> attributes_in(attributes).deprecated is Some
                    &&& attributes_in(attributes).deprecated matches Some(message)
                        ==> method.deprecated == Some(
                        slice_of::<'a>(
                            "The method ".spec_bytes() + method.name.1@
                                + " is deprecated: ".spec_bytes() + message@,
                        ),
                    )
                }
            }),
    {
        law_member_modifiers(header.modifiers.elements());
        law_attributes_say_what_is_written(attributes);
        lemma_never_internal(header.modifiers.elements());
    }

    /// What is not a function header is not read as a method.
    pub proof fn law_method_needs_a_header(
        &self,
        attributes: Node<'a>,
        header: Node<'a>,
        body: Node<'a>,
        closer: Node<'a>,
    )
        requires
            !(header is FunctionHeader),
        ensures
            method_of(self.spec_make_methodish(attributes, header, body, closer)) is None,
            self.spec_make_methodish(attributes, header, body, closer) is Ignored,
    {
    }

    /// A property has the visibility and the flags of its modifiers and
    /// attributes, and needs to be initialized where its declarator has no
    /// value, outside interface files. An instance property loses the dollar
    /// sign of its name, a static one keeps it.
    pub proof fn law_property_as_written(
        &self,
        attributes: Node<'a>,
        modifiers: Node<'a>,
        hint: Node<'a>,
        id: Id<'a>,
        initializer: Node<'a>,
    )
        ensures
            ({
                let read = member_modifiers(modifiers.elements());
                let prop = self.spec_prop(attributes_in(attributes), read, hint, id, initializer);
                let is_soft = self.opts.interpret_soft_types_as_like_types && bears(
                    attributes,
                    "__Soft".spec_bytes(),
                );
                let ty = self.spec_node_to_non_ret_ty(hint);
                &&& prop.xhp_attr is None
                &&& prop.name.0 == id.0
                &&& modifiers.spec_holds_token(TokenKind::Static) ==> prop.name.1 == id.1
                &&& !modifiers.spec_holds_token(TokenKind::Static) ==> prop.name.1 == slice_of::<
                    'a,
                >(trim_start(id.1@, DOLLAR))
                &&& prop.visibility == read.visibility
                &&& prop.flags.const_ <==> bears(attributes, "__Const".spec_bytes())
                &&& prop.flags.lateinit <==> bears(attributes, "__LateInit".spec_bytes())
                &&& prop.flags.lsb <==> bears(attributes, "__LSB".spec_bytes())
                &&& prop.flags.php_std_lib <==> bears(attributes, "__PHPStdLib".spec_bytes())
                &&& prop.flags.needs_init <==> initializer is Ignored && self.file_mode
                    != Mode::Mhhi
                &&& prop.flags.abstract_ <==> modifiers.spec_holds_token(TokenKind::Abstract)
                &&& prop.flags.readonly <==> modifiers.spec_holds_token(TokenKind::Readonly)
                &&& ty is None ==> prop.type_ is None
                &&& ty matches Some(ty) ==> if is_soft {
                    prop.type_ matches Some(like) && like.0 == &Reason::Rhint(&self.spec_pos(hint))
                        && like.1 == Ty_::Tlike(ty)
                } else {
                    prop.type_ == Some(ty)
                }
            }),
    {
        law_member_modifiers(modifiers.elements());
        law_attributes_say_what_is_written(attributes);
    }

    /// Properties are static exactly where `static` is one of their modifiers.
    pub proof fn law_static_properties(
        &self,
        attrs: Node<'a>,
        modifiers: Node<'a>,
        hint: Node<'a>,
        declarators: Node<'a>,
    )
        ensures
            self.spec_make_property_declaration(attrs, modifiers, hint, declarators) matches
                Node::Property(of) && (of.is_static <==> modifiers.spec_holds_token(
                TokenKind::Static,
            )) && of.decls@ == self.spec_props(
                attrs,
                member_modifiers(modifiers.elements()),
                hint,
                declarators.elements(),
            ),
    {
        law_member_modifiers(modifiers.elements());
    }

    /// A declaration of properties declares one for each declarator that has a
    /// name, in their order.
    pub proof fn law_properties_in_order(
        &self,
        attrs: Node<'a>,
        modifiers: Modifiers,
        hint: Node<'a>,
        declarators: Seq<Node<'a>>,
        declarator: Node<'a>,
    )
        ensures
            ({
                let before = self.spec_props(attrs, modifiers, hint, declarators);
                let after = self.spec_props(attrs, modifiers, hint, declarators.push(declarator));
                let named = declarator matches Node::ListItem(item) && (item.0 is Variable
                    || item.0 is Name);
                &&& self.spec_props(attrs, modifiers, hint, Seq::<Node<'a>>::empty()).len() == 0
                &&& !named ==> after == before
                &&& named ==> after.len() == before.len() + 1 && after.drop_last() == before
                    && after.last() == self.spec_prop(
                    attributes_in(attrs),
                    modifiers,
                    hint,
                    declarator->ListItem_0.0.spec_as_variable()->Some_0,
                    declarator->ListItem_0.1,
                )
            }),
    {
        assert(declarators.push(declarator).drop_last() =~= declarators);
        let before = self.spec_props(attrs, modifiers, hint, declarators);
        let after = self.spec_props(attrs, modifiers, hint, declarators.push(declarator));
        if after.len() == before.len() + 1 {
            assert(after.drop_last() =~= before);
        }
    }
}

proof fn lemma_never_internal<'a>(nodes: Seq<Node<'a>>)
    ensures
        member_modifiers(nodes).visibility != Visibility::Internal,
    decreases nodes.len(),
{
    if nodes.len() > 0 {
        lemma_never_internal(nodes.drop_last());
    }
}

impl<
    'a,
    'text,
    S: SourceTextAllocator<'text, 'a>,
    H: Fn(Query<'a, 'text>) -> Answer<'a, 'text>,
> DirectDeclSmartConstructors<'a, 'text, S, H> {
    /// The parts of a class body keep what they hold: a `use` its names, with or
    /// without conflict resolution, a `require` its keyword and its name, a
    /// declarator its name and its value, and the body its elements.
    pub proof fn law_parts_of_a_class_body(
        &self,
        keyword: Node<'a>,
        names: Node<'a>,
        semicolon: Node<'a>,
        require_type: Node<'a>,
        trait_use: Node<'a>,
        require: Node<'a>,
        declarator: Node<'a>,
        body: Node<'a>,
    )
        requires
            call_ensures(Self::make_trait_use, (self, keyword, names, semicolon), trait_use),
            call_ensures(
                Self::make_require_clause,
                (self, keyword, require_type, names, semicolon),
                require,
            ),
            call_ensures(Self::make_property_declarator, (self, names, semicolon), declarator),
            call_ensures(Self::make_classish_body, (self, keyword, names, semicolon), body),
        ensures
            trait_use matches Node::TraitUse(of) && *of == names,
            require matches Node::RequireClause(of) && of.require_type == require_type && of.name
                == names,
            declarator matches Node::ListItem(of) && of.0 == names && of.1 == semicolon,
            body matches Node::ClassishBody(elements) && elements@ == names.elements(),
    {
    }
}

} // verus!
