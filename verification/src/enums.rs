//! Enums and enum classes.

use crate::arena::{lemma_items_of, lemma_slice_of, Items};
use crate::classes::{consts_of, read_consts};
use crate::declarations::{attribute_list, attributes_reversed, read_attribute_list};
use crate::decls::{
    ClassConstKind, ClassConstRef, Decl, EnumType, ShallowClass, ShallowClassConst, ShallowMethod,
    ShallowProp, ShallowTypeconst,
};
use crate::hints::{hinted, plain_apply, witnessed};
use crate::host::{Answer, Query};
use crate::node::Node;
use crate::parser::{DirectDeclSmartConstructors, SourceTextAllocator};
use crate::source::Pos;
use crate::str_map::StrMap;
use crate::syntax::{Abstraction, ClassishKind, Id, Mode, PosId};
use crate::text::{lit, literal};
use crate::token::{SyntaxKind, TokenKind};
use crate::types::{Reason, Tparam, Ty, Ty_, UserAttribute, WhereConstraint};
use vstd::prelude::*;
use vstd::string::*;

verus! {

broadcast use {lemma_items_of, lemma_slice_of};

/// An enum or enum class as a class: it has constants and nothing else.
pub open spec fn enum_as_class<'a>(
    mode: Mode,
    kind: ClassishKind,
    name: PosId<'a>,
    extends: Seq<&'a Ty<'a>>,
    consts: Seq<&'a ShallowClassConst<'a>>,
    user_attributes: Seq<&'a UserAttribute<'a>>,
    enum_type: EnumType<'a>,
) -> &'a ShallowClass<'a> {
    let no_tys = Items::of(Seq::<&'a Ty<'a>>::empty());
    let no_props = Items::of(Seq::<&'a ShallowProp<'a>>::empty());
    let no_methods = Items::of(Seq::<&'a ShallowMethod<'a>>::empty());
    &ShallowClass {
        mode,
        final_: false,
        is_xhp: false,
        has_xhp_keyword: false,
        kind,
        module: None,
        name,
        tparams: Items::of(Seq::<&'a Tparam<'a>>::empty()),
        where_constraints: Items::of(Seq::<&'a WhereConstraint<'a>>::empty()),
        extends: Items::of(extends),
        uses: no_tys,
        xhp_attr_uses: no_tys,
        xhp_enum_values: StrMap::nothing(),
        req_extends: no_tys,
        req_implements: no_tys,
        implements: no_tys,
        support_dynamic_type: false,
        consts: Items::of(consts),
        typeconsts: Items::of(Seq::<&'a ShallowTypeconst<'a>>::empty()),
        props: no_props,
        sprops: no_props,
        constructor: None,
        static_methods: no_methods,
        methods: no_methods,
        user_attributes: Items::of(user_attributes),
        enum_type: Some(&enum_type),
    }
}

/// The type `\HH\MemberOf<enum, ty>` of a constant of an enum class.
pub open spec fn member_of<'a>(pos: &'a Pos<'a>, class: PosId<'a>, ty: &'a Ty<'a>) -> &'a Ty<'a> {
    let enum_class_ty: &'a Ty<'a> = &hinted(pos, plain_apply(class));
    &hinted(
        pos,
        Ty_::Tapply(&((pos, lit("\\HH\\MemberOf")), Items::of(seq![enum_class_ty, ty]))),
    )
}

/// What every enum class extends.
pub open spec fn builtin_enum_class<'a>(
    name: Id<'a>,
    base: &'a Ty<'a>,
    is_abstract: bool,
) -> &'a Ty<'a> {
    let pos = name.0;
    if is_abstract {
        &hinted(pos, plain_apply((pos, lit("\\HH\\BuiltinAbstractEnumClass"))))
    } else {
        &hinted(
            pos,
            Ty_::Tapply(
                &(
                    (pos, lit("\\HH\\BuiltinEnumClass")),
                    Items::of(seq![member_of(pos, name.pos_id(), base)]),
                ),
            ),
        )
    }
}

/// The attribute that marks an enum class.
pub open spec fn enum_class_attribute<'a>(pos: &'a Pos<'a>) -> &'a UserAttribute<'a> {
    &UserAttribute {
        name: (pos, lit("__EnumClass")),
        classname_params: Items::of(Seq::<&'a [u8]>::empty()),
    }
}

impl<
    'a,
    'text,
    S: SourceTextAllocator<'text, 'a>,
    H: Fn(Query<'a, 'text>) -> Answer<'a, 'text>,
> DirectDeclSmartConstructors<'a, 'text, S, H> {
    fn enum_class(
        &self,
        kind: ClassishKind,
        name: PosId<'a>,
        extends: &Vec<&'a Ty<'a>>,
        consts: &Vec<&'a ShallowClassConst<'a>>,
        user_attributes: Items<'a, &'a UserAttribute<'a>>,
        enum_type: EnumType<'a>,
    ) -> (r: &'a ShallowClass<'a>)
        requires
            user_attributes == Items::of(user_attributes@),
        ensures
            r == enum_as_class(
                self.file_mode,
                kind,
                name,
                extends@,
                consts@,
                user_attributes@,
                enum_type,
            ),
    {
        self.allocate(
            ShallowClass {
                mode: self.file_mode,
                final_: false,
                is_xhp: false,
                has_xhp_keyword: false,
                kind,
                module: None,
                name,
                tparams: Items::none(),
                where_constraints: Items::none(),
                extends: Items::copied(self.arena, extends.as_slice()),
                uses: Items::none(),
                xhp_attr_uses: Items::none(),
                xhp_enum_values: StrMap::empty(),
                req_extends: Items::none(),
                req_implements: Items::none(),
                implements: Items::none(),
                support_dynamic_type: false,
                consts: Items::copied(self.arena, consts.as_slice()),
                typeconsts: Items::none(),
                props: Items::none(),
                sprops: Items::none(),
                constructor: None,
                static_methods: Items::none(),
                methods: Items::none(),
                user_attributes,
                enum_type: Some(self.allocate(enum_type)),
            },
        )
    }

    /// The enums that `use` clauses name.
    pub open spec fn spec_includes(&self, clauses: Seq<Node<'a>>) -> Seq<&'a Ty<'a>>
        decreases clauses.len(),
    {
        if clauses.len() == 0 {
            Seq::<&'a Ty<'a>>::empty()
        } else {
            let before = self.spec_includes(clauses.drop_last());
            match clauses.last() {
                Node::EnumUse(names) => before + self.spec_tys(names.elements()),
                _ => before,
            }
        }
    }

    fn includes(&self, clauses: Node<'a>) -> (r: Items<'a, &'a Ty<'a>>)
        requires
            self.wf(),
        ensures
            r == Items::of(self.spec_includes(clauses.elements())),
    {
        let mut found: Vec<&'a Ty<'a>> = Vec::new();
        let len = clauses.len();
        let ghost nodes = clauses.elements();
        let mut i: usize = 0;
        assert(nodes.take(0) =~= Seq::<Node<'a>>::empty());
        while i < len
            invariant
                self.wf(),
                nodes == clauses.elements(),
                len == nodes.len(),
                i <= len,
                found@ == self.spec_includes(nodes.take(i as int)),
            decreases len - i,
        {
            assert(nodes.take(i + 1).drop_last() =~= nodes.take(i as int));
            if let Node::EnumUse(names) = clauses.nth(i) {
                let ghost before = found@;
                let tys = self.tys(*names);
                let mut j: usize = 0;
                while j < tys.len()
                    invariant
                        j <= tys@.len(),
                        found@ == before + tys@.take(j as int),
                    decreases tys@.len() - j,
                {
                    found.push(*tys.at(j));
                    assert(found@ =~= before + tys@.take(j + 1));
                    j = j + 1;
                }
                assert(tys@.take(j as int) =~= tys@);
            }
            i = i + 1;
        }
        assert(nodes.take(i as int) =~= nodes);
        Items::copied(self.arena, found.as_slice())
    }

    /// An enum under its name, where it has a name and a base type.
    pub open spec fn spec_enum(
        &self,
        attributes: Node<'a>,
        name: Node<'a>,
        extends: Node<'a>,
        constraint: Node<'a>,
        use_clauses: Node<'a>,
        enumerators: Node<'a>,
    ) -> Option<(&'a [u8], &'a ShallowClass<'a>)> {
        let parent = self.spec_node_to_ty(
            self.spec_make_apply(
                (&self.spec_pos(name), lit("\\HH\\BuiltinEnum")),
                name,
                &Pos::NoPos,
            ),
        );
        match (self.spec_elaborate_defined_id(name), self.spec_node_to_ty(extends), parent) {
            (Some(id), Some(base), Some(parent)) => Some(
                (
                    id.1,
                    enum_as_class(
                        self.file_mode,
                        ClassishKind::Cenum,
                        id.pos_id(),
                        seq![parent],
                        consts_of(enumerators.elements()),
                        attributes_reversed(attribute_list(attributes.elements())),
                        EnumType {
                            base,
                            constraint: match constraint {
                                Node::TypeConstraint(of) => self.spec_node_to_ty(of.1),
                                _ => None,
                            },
                            includes: Items::of(self.spec_includes(use_clauses.elements())),
                        },
                    ),
                ),
            ),
            _ => None,
        }
    }

    pub fn make_enum_declaration(
        &mut self,
        attributes: Node<'a>,
        _keyword: Node<'a>,
        name: Node<'a>,
        _colon: Node<'a>,
        extends: Node<'a>,
        constraint: Node<'a>,
        _left_brace: Node<'a>,
        use_clauses: Node<'a>,
        enumerators: Node<'a>,
        _right_brace: Node<'a>,
    ) -> (r: Node<'a>)
        requires
            old(self).wf(),
        ensures
            final(self).wf(),
            r == Node::<'a>::Ignored(SyntaxKind::EnumDeclaration),
            match old(self).spec_enum(
                attributes,
                name,
                extends,
                constraint,
                use_clauses,
                enumerators,
            ) {
                Some(class) => final(self).decls@ == old(self).decls@.push(
                    (class.0, Decl::Class(class.1)),
                ) && final(self).classish_name_builder is NotInClassish,
                None => *final(self) == *old(self),
            },
            old(self).decls@.is_prefix_of(final(self).decls@),
            *final(self) == (DirectDeclSmartConstructors {
                decls: final(self).decls,
                classish_name_builder: final(self).classish_name_builder,
                ..*old(self)
            }),
    {
        let id = match self.elaborate_defined_id(name) {
            Some(id) => id,
            None => return Node::Ignored(SyntaxKind::EnumDeclaration),
        };
        let base = match self.node_to_ty(extends) {
            Some(ty) => ty,
            None => return Node::Ignored(SyntaxKind::EnumDeclaration),
        };
        let parent = match self.node_to_ty(
            self.make_apply(
                (self.get_pos(name), literal("\\HH\\BuiltinEnum")),
                name,
                Pos::none(),
            ),
        ) {
            Some(ty) => ty,
            None => return Node::Ignored(SyntaxKind::EnumDeclaration),
        };
        let consts = read_consts(enumerators, self.arena);
        let attribute_nodes = read_attribute_list(attributes);
        let user_attributes = self.attributes_to_decls(attribute_nodes.as_slice());
        let constraint = match constraint {
            Node::TypeConstraint(of) => self.node_to_ty(of.1),
            _ => None,
        };
        let includes = self.includes(use_clauses);
        let mut parents: Vec<&'a Ty<'a>> = Vec::new();
        parents.push(parent);
        assert(parents@ =~= seq![parent]);
        let cls = self.enum_class(
            ClassishKind::Cenum,
            id.to_pos_id(),
            &parents,
            &consts,
            user_attributes,
            EnumType { base, constraint, includes },
        );
        self.add_class(id.1, cls);
        self.classish_name_builder.parsed_classish_declaration();
        Node::Ignored(SyntaxKind::EnumDeclaration)
    }

    pub fn make_enum_use(
        &self,
        _keyword: Node<'a>,
        names: Node<'a>,
        _semicolon: Node<'a>,
    ) -> (r: Node<'a>)
        ensures
            r == Node::EnumUse(&names),
    {
        Node::EnumUse(self.allocate(names))
    }

    pub fn begin_enumerator(&mut self)
        requires
            old(self).wf(),
        ensures
            final(self).wf(),
            *final(self) == (DirectDeclSmartConstructors {
                const_refs: Some(Items::of(Seq::<ClassConstRef<'a>>::empty())),
                ..*old(self)
            }),
    {
        self.start_accumulating_const_refs();
    }

    pub open spec fn spec_make_enumerator(&self, name: Node<'a>, value: Node<'a>) -> Node<'a> {
        match self.spec_expect_name(name) {
            Some(id) => Node::Const(
                &ShallowClassConst {
                    abstract_: ClassConstKind::CCConcrete,
                    name: id.pos_id(),
                    type_: match self.spec_infer_const(name, value) {
                        Some(ty) => ty,
                        None => &witnessed(id.0, Ty_::Tany),
                    },
                    refs: self.spec_refs(),
                },
            ),
            None => Node::Ignored(SyntaxKind::Enumerator),
        }
    }

    pub fn make_enumerator(
        &mut self,
        name: Node<'a>,
        _equal: Node<'a>,
        value: Node<'a>,
        _semicolon: Node<'a>,
    ) -> (r: Node<'a>)
        requires
            old(self).wf(),
        ensures
            final(self).wf(),
            r == old(self).spec_make_enumerator(name, value),
            *final(self) == (DirectDeclSmartConstructors { const_refs: None, ..*old(self) }),
    {
        let id = self.expect_name(name);
        let inferred = self.infer_const(name, value);
        let refs = self.stop_accumulating_const_refs();
        let id = match id {
            Some(id) => id,
            None => return Node::Ignored(SyntaxKind::Enumerator),
        };
        let type_ = match inferred {
            Some(ty) => ty,
            None => self.tany_with_pos(id.0),
        };
        Node::Const(
            self.allocate(
                ShallowClassConst {
                    abstract_: ClassConstKind::CCConcrete,
                    name: id.to_pos_id(),
                    type_,
                    refs,
                },
            ),
        )
    }

    fn make_member_of(&self, pos: &'a Pos<'a>, class: PosId<'a>, ty: &'a Ty<'a>) -> (r: &'a Ty<
        'a,
    >)
        ensures
            r == member_of(pos, class, ty),
    {
        let enum_class_ty = self.hint(pos, self.apply_plain(class));
        let targs = Items::pair(self.arena, enum_class_ty, ty);
        self.hint(pos, Ty_::Tapply(self.allocate(((pos, literal("\\HH\\MemberOf")), targs))))
    }

    /// An enum class under its name, where it has one.
    pub open spec fn spec_enum_class(
        &self,
        attributes: Node<'a>,
        modifiers: Node<'a>,
        name: Node<'a>,
        base: Node<'a>,
        extends_list: Node<'a>,
        elements: Node<'a>,
    ) -> Option<(&'a [u8], &'a ShallowClass<'a>)> {
        match self.spec_elaborate_defined_id(name) {
            None => None,
            Some(id) => {
                let base_ty = self.spec_ty_or_any(base, id.0);
                let is_abstract = modifiers.spec_holds_token(TokenKind::Abstract);
                let includes = self.spec_tys(extends_list.elements());
                Some(
                    (
                        id.1,
                        enum_as_class(
                            self.file_mode,
                            ClassishKind::CenumClass(
                                if is_abstract {
                                    Abstraction::Abstract
                                } else {
                                    Abstraction::Concrete
                                },
                            ),
                            id.pos_id(),
                            seq![builtin_enum_class(id, base_ty, is_abstract)] + includes,
                            consts_of(elements.elements()),
                            seq![enum_class_attribute(id.0)] + attributes_reversed(
                                attribute_list(attributes.elements()),
                            ),
                            EnumType {
                                base: base_ty,
                                constraint: None,
                                includes: Items::of(includes),
                            },
                        ),
                    ),
                )
            },
        }
    }

    pub fn make_enum_class_declaration(
        &mut self,
        attributes: Node<'a>,
        modifiers: Node<'a>,
        _enum_keyword: Node<'a>,
        _class_keyword: Node<'a>,
        name: Node<'a>,
        _colon: Node<'a>,
        base: Node<'a>,
        _extends_keyword: Node<'a>,
        extends_list: Node<'a>,
        _left_brace: Node<'a>,
        elements: Node<'a>,
        _right_brace: Node<'a>,
    ) -> (r: Node<'a>)
        requires
            old(self).wf(),
        ensures
            final(self).wf(),
            r == Node::<'a>::Ignored(SyntaxKind::EnumClassDeclaration),
            match old(self).spec_enum_class(
                attributes,
                modifiers,
                name,
                base,
                extends_list,
                elements,
            ) {
                Some(class) => final(self).decls@ == old(self).decls@.push(
                    (class.0, Decl::Class(class.1)),
                ) && final(self).classish_name_builder is NotInClassish,
                None => *final(self) == *old(self),
            },
            old(self).decls@.is_prefix_of(final(self).decls@),
            *final(self) == (DirectDeclSmartConstructors {
                decls: final(self).decls,
                classish_name_builder: final(self).classish_name_builder,
                ..*old(self)
            }),
    {
        let name = match self.elaborate_defined_id(name) {
            Some(name) => name,
            None => return Node::Ignored(SyntaxKind::EnumClassDeclaration),
        };
        let pos = name.0;
        let base = self.ty_or_any(base, pos);
        let is_abstract = modifiers.holds_token(TokenKind::Abstract);
        let kind = ClassishKind::CenumClass(
            if is_abstract {
                Abstraction::Abstract
            } else {
                Abstraction::Concrete
            },
        );
        let builtin_enum_class_ty = if is_abstract {
            self.hint(pos, self.apply_plain((pos, literal("\\HH\\BuiltinAbstractEnumClass"))))
        } else {
            let elt_ty = self.make_member_of(pos, name.to_pos_id(), base);
            let targs = Items::single(self.arena, elt_ty);
            self.hint(
                pos,
                Ty_::Tapply(self.allocate(((pos, literal("\\HH\\BuiltinEnumClass")), targs))),
            )
        };
        let consts = read_consts(elements, self.arena);
        let includes = self.tys(extends_list);
        let mut extends: Vec<&'a Ty<'a>> = Vec::new();
        extends.push(builtin_enum_class_ty);
        let mut i: usize = 0;
        assert(extends@ =~= seq![builtin_enum_class_ty] + includes@.take(0));
        while i < includes.len()
            invariant
                i <= includes@.len(),
                extends@ == seq![builtin_enum_class_ty] + includes@.take(i as int),
            decreases includes@.len() - i,
        {
            extends.push(*includes.at(i));
            assert(extends@ =~= seq![builtin_enum_class_ty] + includes@.take(i + 1));
            i = i + 1;
        }
        assert(includes@.take(i as int) =~= includes@);
        let attribute_nodes = read_attribute_list(attributes);
        let written = self.attributes_to_decls(attribute_nodes.as_slice());
        let marker = self.allocate(
            UserAttribute {
                name: (pos, literal("__EnumClass")),
                classname_params: Items::none(),
            },
        );
        let mut user_attributes: Vec<&'a UserAttribute<'a>> = Vec::new();
        user_attributes.push(marker);
        i = 0;
        assert(user_attributes@ =~= seq![marker] + written@.take(0));
        while i < written.len()
            invariant
                i <= written@.len(),
                user_attributes@ == seq![marker] + written@.take(i as int),
            decreases written@.len() - i,
        {
            user_attributes.push(*written.at(i));
            assert(user_attributes@ =~= seq![marker] + written@.take(i + 1));
            i = i + 1;
        }
        assert(written@.take(i as int) =~= written@);
        let cls = self.enum_class(
            kind,
            name.to_pos_id(),
            &extends,
            &consts,
            Items::copied(self.arena, user_attributes.as_slice()),
            EnumType { base, constraint: None, includes },
        );
        self.add_class(name.1, cls);
        self.classish_name_builder.parsed_classish_declaration();
        Node::Ignored(SyntaxKind::EnumClassDeclaration)
    }

    pub fn begin_enum_class_enumerator(&mut self)
        requires
            old(self).wf(),
        ensures
            final(self).wf(),
            *final(self) == (DirectDeclSmartConstructors {
                const_refs: Some(Items::of(Seq::<ClassConstRef<'a>>::empty())),
                ..*old(self)
            }),
    {
        self.start_accumulating_const_refs();
    }

    /// A constant of the enum class that is being read.
    pub open spec fn spec_make_enum_class_enumerator(
        &self,
        modifiers: Node<'a>,
        type_: Node<'a>,
        name: Node<'a>,
    ) -> Node<'a> {
        match (self.spec_expect_name(name), self.classish_name_builder.current()) {
            (Some(id), Some(current)) => Node::Const(
                &ShallowClassConst {
                    abstract_: if modifiers.spec_holds_token(TokenKind::Abstract) {
                        ClassConstKind::CCAbstract(false)
                    } else {
                        ClassConstKind::CCConcrete
                    },
                    name: id.pos_id(),
                    type_: member_of(
                        id.0,
                        (id.0, current.0),
                        self.spec_ty_or_any(type_, id.0),
                    ),
                    refs: self.spec_refs(),
                },
            ),
            _ => Node::Ignored(SyntaxKind::EnumClassEnumerator),
        }
    }

    pub fn make_enum_class_enumerator(
        &mut self,
        modifiers: Node<'a>,
        type_: Node<'a>,
        name: Node<'a>,
        _initializer: Node<'a>,
        _semicolon: Node<'a>,
    ) -> (r: Node<'a>)
        requires
            old(self).wf(),
        ensures
            final(self).wf(),
            r == old(self).spec_make_enum_class_enumerator(modifiers, type_, name),
            *final(self) == (DirectDeclSmartConstructors { const_refs: None, ..*old(self) }),
    {
        let id = self.expect_name(name);
        let written = self.node_to_ty(type_);
        let refs = self.stop_accumulating_const_refs();
        let id = match id {
            Some(id) => id,
            None => return Node::Ignored(SyntaxKind::EnumClassEnumerator),
        };
        let pos = id.0;
        // Default values are not allowed for abstract constants.
        let abstract_ = if modifiers.holds_token(TokenKind::Abstract) {
            ClassConstKind::CCAbstract(false)
        } else {
            ClassConstKind::CCConcrete
        };
        let type_ = match written {
            Some(ty) => ty,
            None => self.tany_with_pos(pos),
        };
        let class_name = match self.classish_name_builder.get_current_classish_name() {
            Some(name) => name,
            None => return Node::Ignored(SyntaxKind::EnumClassEnumerator),
        };
        let type_ = self.make_member_of(pos, (pos, class_name.0), type_);
        Node::Const(
            self.allocate(ShallowClassConst { abstract_, name: id.to_pos_id(), type_, refs }),
        )
    }
}

impl<
    'a,
    'text,
    S: SourceTextAllocator<'text, 'a>,
    H: Fn(Query<'a, 'text>) -> Answer<'a, 'text>,
> DirectDeclSmartConstructors<'a, 'text, S, H> {
    /// An enum class includes exactly what it extends, but for the built-in
    /// class that every enum class extends first.
    pub proof fn law_enum_class_includes_what_it_extends(
        &self,
        attributes: Node<'a>,
        modifiers: Node<'a>,
        name: Node<'a>,
        base: Node<'a>,
        extends_list: Node<'a>,
        elements: Node<'a>,
    )
        ensures
            self.spec_enum_class(
                attributes,
                modifiers,
                name,
                base,
                extends_list,
                elements,
            ) matches Some(class) ==> {
                &&& class.1.enum_type is Some
                &&& class.1.extends@.len() > 0
                &&& class.1.extends@.drop_first() == class.1.enum_type->Some_0.includes@
            },
    {
        if let Some(class) = self.spec_enum_class(
            attributes,
            modifiers,
            name,
            base,
            extends_list,
            elements,
        ) {
            assert(class.1.extends@.drop_first() =~= class.1.enum_type->Some_0.includes@);
        }
    }
}

/// An enum as a class has the constants, the parents and the attributes that it
/// is given, and no other members.
pub proof fn law_enums_have_only_constants<'a>(
    mode: Mode,
    kind: ClassishKind,
    name: PosId<'a>,
    extends: Seq<&'a Ty<'a>>,
    consts: Seq<&'a ShallowClassConst<'a>>,
    user_attributes: Seq<&'a UserAttribute<'a>>,
    enum_type: EnumType<'a>,
)
    ensures
        ({
            let class = enum_as_class(
                mode,
                kind,
                name,
                extends,
                consts,
                user_attributes,
                enum_type,
            );
            &&& class.mode == mode
            &&& class.kind == kind
            &&& class.name == name
            &&& class.extends@ == extends
            &&& class.consts@ == consts
            &&& class.user_attributes@ == user_attributes
            &&& class.enum_type == Some(&enum_type)
            &&& !class.final_ && !class.is_xhp && !class.has_xhp_keyword
            &&& !class.support_dynamic_type
            &&& class.module is None
            &&& class.tparams@.len() == 0 && class.where_constraints@.len() == 0
            &&& class.uses@.len() == 0 && class.xhp_attr_uses@.len() == 0
            &&& class.req_extends@.len() == 0 && class.req_implements@.len() == 0
            &&& class.implements@.len() == 0 && class.typeconsts@.len() == 0
            &&& class.props@.len() == 0 && class.sprops@.len() == 0
            &&& class.constructor is None
            &&& class.methods@.len() == 0 && class.static_methods@.len() == 0
            &&& class.xhp_enum_values.entries@.len() == 0
        }),
{
}

/// The type `\HH\MemberOf` of a constant is applied to the enum class first and
/// to the type of the constant second.
pub proof fn law_member_of<'a>(pos: &'a Pos<'a>, class: PosId<'a>, ty: &'a Ty<'a>)
    ensures
        ({
            let member = member_of(pos, class, ty);
            &&& member.0 == &Reason::Rhint(pos)
            &&& member.1 matches Ty_::Tapply(of) && {
                &&& of.0.0 == pos
                &&& of.0.1 == lit("\\HH\\MemberOf")
                &&& of.1@.len() == 2
                &&& of.1@[1] == ty
                &&& of.1@[0].0 == &Reason::Rhint(pos)
                &&& of.1@[0].1 matches Ty_::Tapply(applied) && applied.0 == class
                    && applied.1@.len() == 0
            }
        }),
{
}

impl<
    'a,
    'text,
    S: SourceTextAllocator<'text, 'a>,
    H: Fn(Query<'a, 'text>) -> Answer<'a, 'text>,
> DirectDeclSmartConstructors<'a, 'text, S, H> {
    /// The enums behind `use` clauses are included in their order; what else
    /// stands among the clauses is passed over.
    pub proof fn law_includes_in_order(&self, clauses: Seq<Node<'a>>, clause: Node<'a>)
        ensures
            self.spec_includes(Seq::<Node<'a>>::empty()).len() == 0,
            clause matches Node::EnumUse(names) ==> self.spec_includes(clauses.push(clause))
                == self.spec_includes(clauses) + self.spec_tys(names.elements()),
            !(clause is EnumUse) ==> self.spec_includes(clauses.push(clause))
                == self.spec_includes(clauses),
    {
        assert(clauses.push(clause).drop_last() =~= clauses);
    }

    /// An enum is declared under its full name, with its base type, its
    /// constants, and `\HH\BuiltinEnum` applied to itself for a parent.
    pub proof fn law_enum_as_written(
        &self,
        attributes: Node<'a>,
        name: Node<'a>,
        extends: Node<'a>,
        constraint: Node<'a>,
        use_clauses: Node<'a>,
        enumerators: Node<'a>,
    )
        ensures
            ({
                let read = self.spec_enum(
                    attributes,
                    name,
                    extends,
                    constraint,
                    use_clauses,
                    enumerators,
                );
                &&& read is Some <==> self.spec_elaborate_defined_id(name) is Some
                    && self.spec_node_to_ty(extends) is Some
                &&& read matches Some(of) ==> {
                    let class = of.1;
                    let id = self.spec_elaborate_defined_id(name)->Some_0;
                    &&& of.0 == id.1
                    &&& class.name.0 == id.0
                    &&& class.name.1 == id.1
                    &&& class.mode == self.file_mode
                    &&& class.kind is Cenum
                    &&& class.consts@ == consts_of(enumerators.elements())
                    &&& class.user_attributes@ == attributes_reversed(
                        attribute_list(attributes.elements()),
                    )
                    &&& class.methods@.len() == 0 && class.static_methods@.len() == 0
                    &&& class.props@.len() == 0 && class.sprops@.len() == 0
                    &&& class.tparams@.len() == 0
                    &&& class.extends@.len() == 1
                    &&& *class.extends@[0].0 == Reason::Rhint(&self.spec_pos(name))
                    &&& *class.extends@[0].1->Tapply_0.0.0 == self.spec_pos(name)
                    &&& class.extends@[0].1 matches Ty_::Tapply(parent) && parent.0.1 == lit(
                        "\\HH\\BuiltinEnum",
                    ) && parent.1@ == self.spec_tys(name.elements())
                    &&& class.enum_type matches Some(enum_type) && {
                        &&& Some(enum_type.base) == self.spec_node_to_ty(extends)
                        &&& constraint matches Node::TypeConstraint(bound) ==> enum_type.constraint
                            == self.spec_node_to_ty(bound.1)
                        &&& !(constraint is TypeConstraint) ==> enum_type.constraint is None
                        &&& enum_type.includes@ == self.spec_includes(use_clauses.elements())
                    }
                }
            }),
    {
        if self.spec_elaborate_defined_id(name) is Some {
            assert(name.elements() =~= seq![name]);
            assert(seq![name].drop_last() =~= seq![]);
            reveal_with_fuel(DirectDeclSmartConstructors::spec_tys, 2);
            let id = self.spec_expect_name(name)->Some_0;
            assert(!(self.spec_named_ty(id) is Tfun));
            assert(self.spec_tys(name.elements()) =~= seq![&hinted(id.0, self.spec_named_ty(id))]);
        }
    }

    /// A constant of an enum keeps its name and the references in its value,
    /// which shows its type. It is never abstract.
    pub proof fn law_enumerator_as_written(&self, name: Node<'a>, value: Node<'a>)
        ensures
            match self.spec_expect_name(name) {
                Some(id) => self.spec_make_enumerator(name, value) matches Node::Const(decl) && {
                    &&& decl.name.0 == id.0
                    &&& decl.name.1 == id.1
                    &&& decl.abstract_ is CCConcrete
                    &&& self.spec_infer_const(name, value) matches Some(ty) ==> decl.type_ == ty
                    &&& self.const_refs matches Some(refs) ==> decl.refs == refs
                    &&& self.const_refs is None ==> decl.refs@.len() == 0
                },
                None => self.spec_make_enumerator(name, value) is Ignored,
            },
    {
    }

    /// An enum class is declared under its full name. It is abstract exactly
    /// where that is written, extends the built-in class for that case first,
    /// and its own parents behind it. The mark `__EnumClass` stands in front of
    /// its attributes.
    pub proof fn law_enum_class_as_written(
        &self,
        attributes: Node<'a>,
        modifiers: Node<'a>,
        name: Node<'a>,
        base: Node<'a>,
        extends_list: Node<'a>,
        elements: Node<'a>,
    )
        ensures
            ({
                let read = self.spec_enum_class(
                    attributes,
                    modifiers,
                    name,
                    base,
                    extends_list,
                    elements,
                );
                let is_abstract = modifiers.spec_holds_token(TokenKind::Abstract);
                &&& read is Some <==> self.spec_elaborate_defined_id(name) is Some
                &&& read matches Some(of) ==> {
                    let class = of.1;
                    let id = self.spec_elaborate_defined_id(name)->Some_0;
                    &&& of.0 == id.1
                    &&& class.name.0 == id.0
                    &&& class.name.1 == id.1
                    &&& class.mode == self.file_mode
                    &&& class.kind == ClassishKind::CenumClass(Abstraction::Abstract)
                        <==> is_abstract
                    &&& class.kind == ClassishKind::CenumClass(Abstraction::Concrete)
                        <==> !is_abstract
                    &&& class.consts@ == consts_of(elements.elements())
                    &&& class.extends@.drop_first() == self.spec_tys(extends_list.elements())
                    &&& *class.extends@[0].0 == Reason::Rhint(id.0)
                    &&& class.extends@[0].1->Tapply_0.0.0 == id.0
                    &&& class.extends@[0].1 matches Ty_::Tapply(parent) && if is_abstract {
                        parent.0.1 == lit("\\HH\\BuiltinAbstractEnumClass")
                            && parent.1@.len() == 0
                    } else {
                        parent.0.1 == lit("\\HH\\BuiltinEnumClass") && parent.1@ == seq![
                            member_of(id.0, (id.0, id.1), class.enum_type->Some_0.base),
                        ]
                    }
                    &&& class.user_attributes@[0].name.1 == lit("__EnumClass")
                    &&& class.user_attributes@[0].name.0 == id.0
                    &&& class.user_attributes@.drop_first() == attributes_reversed(
                        attribute_list(attributes.elements()),
                    )
                    &&& class.enum_type matches Some(enum_type) && {
                        &&& self.spec_node_to_ty(base) matches Some(ty) ==> enum_type.base == ty
                        &&& self.spec_node_to_ty(base) is None ==> enum_type.base.1 == Ty_::<
                            'a,
                        >::Tany && *enum_type.base.0 == Reason::RwitnessFromDecl(id.0)
                        &&& enum_type.constraint is None
                        &&& enum_type.includes@ == self.spec_tys(extends_list.elements())
                    }
                    &&& class.methods@.len() == 0 && class.static_methods@.len() == 0
                    &&& class.props@.len() == 0 && class.sprops@.len() == 0
                }
            }),
    {
        if let Some(of) = self.spec_enum_class(
            attributes,
            modifiers,
            name,
            base,
            extends_list,
            elements,
        ) {
            assert(of.1.extends@.drop_first() =~= self.spec_tys(extends_list.elements()));
            assert(of.1.user_attributes@.drop_first() =~= attributes_reversed(
                attribute_list(attributes.elements()),
            ));
        }
    }

    /// A constant of an enum class is abstract exactly where that is written,
    /// and its type is a member of the class that is being read.
    pub proof fn law_enum_class_enumerator_as_written(
        &self,
        modifiers: Node<'a>,
        type_: Node<'a>,
        name: Node<'a>,
    )
        ensures
            ({
                let node = self.spec_make_enum_class_enumerator(modifiers, type_, name);
                let is_abstract = modifiers.spec_holds_token(TokenKind::Abstract);
                &&& node is Const <==> self.spec_expect_name(name) is Some
                    && self.classish_name_builder is InClassish
                &&& !(node is Const) ==> node is Ignored
                &&& node matches Node::Const(decl) ==> {
                    let id = self.spec_expect_name(name)->Some_0;
                    let class = self.classish_name_builder->InClassish_0.0;
                    &&& decl.name.0 == id.0
                    &&& decl.name.1 == id.1
                    &&& decl.abstract_ == ClassConstKind::CCAbstract(false) <==> is_abstract
                    &&& decl.abstract_ == ClassConstKind::CCConcrete <==> !is_abstract
                    &&& self.spec_node_to_ty(type_) matches Some(ty) ==> decl.type_ == member_of(
                        id.0,
                        (id.0, class),
                        ty,
                    )
                    &&& self.const_refs matches Some(refs) ==> decl.refs == refs
                }
            }),
    {
    }
}

} // verus!
