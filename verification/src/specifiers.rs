//! Type specifiers: how types are written down.

use crate::arena::{lemma_items_of, lemma_slice_of, realised, slice_of, Items};
use crate::encoding::{begins_lowercase, starts_with_lowercase};
use crate::functions::unenforced;
use crate::generics::with_reasons;
use crate::classish::ClassishNameBuilder;
use crate::hints::{
    applied, default_ifc_fun_decl, hinted, missing_key, plain_apply, public_policy, tany,
    witnessed,
};
use crate::host::{Answer, Query};
use crate::node::{FunParamDecl, Node, ShapeFieldNode};
use crate::parser::{DirectDeclSmartConstructors, SourceTextAllocator};
use crate::source::Pos;
use crate::syntax::{ClassId_, Expr_, Id, ParamMode, Tprim};
use crate::text::{
    after_last, begins_with, concat, is, last_part, lit, literal, starts_with_byte, trim_end,
    trim_end_byte, trim_start, trim_start_byte, BACKSLASH, DOLLAR,
};
use crate::token::{CompactToken, SyntaxKind, TokenKind};
use crate::tokens::begins_class;
use crate::types::{
    Enforcement, FunArity, FunParam, FunParamFlags, FunType, FunTypeFlags, IfcFunDecl,
    PossiblyEnforcedTy, Reason, ShapeField, ShapeFieldName, ShapeFieldType, ShapeKind, TShapeField,
    TaccessType, Tparam, TshapeFieldName, Ty, Ty_, WhereConstraint,
};
use vstd::prelude::*;
use vstd::string::*;

verus! {

broadcast use {lemma_items_of, lemma_slice_of};

/// A node without the separator behind it.
pub open spec fn item_of<'a>(node: Node<'a>) -> Node<'a> {
    match node {
        Node::ListItem(item) => item.0,
        _ => node,
    }
}

pub fn without_separator<'a>(node: Node<'a>) -> (r: Node<'a>)
    ensures
        r == item_of(node),
{
    match node {
        Node::ListItem(item) => item.0,
        _ => node,
    }
}

/// The name of a shape field as a type has it.
pub open spec fn t_shape_field_name<'a>(field: ShapeField<'a>) -> TShapeField<'a> {
    match field.0 {
        ShapeFieldName::SFlitInt(of) => TShapeField(TshapeFieldName::TSFlitInt(of)),
        ShapeFieldName::SFlitStr(of) => TShapeField(TshapeFieldName::TSFlitStr(of)),
        ShapeFieldName::SFclassConst(of) => TShapeField(
            TshapeFieldName::TSFclassConst(&(of.0.pos_id(), *of.1)),
        ),
    }
}

/// The fields of a shape, in the order in which they are written.
pub open spec fn shape_fields<'a>(nodes: Seq<Node<'a>>) -> Seq<
    (TShapeField<'a>, &'a ShapeFieldType<'a>),
>
    decreases nodes.len(),
{
    if nodes.len() == 0 {
        Seq::<(TShapeField<'a>, &'a ShapeFieldType<'a>)>::empty()
    } else {
        let before = shape_fields(nodes.drop_last());
        match nodes.last() {
            Node::ShapeFieldSpecifier(field) => before.push(
                (t_shape_field_name(*field.name), field.type_),
            ),
            _ => before,
        }
    }
}

/// The name of a built-in context. A name that begins with a lower-case letter
/// stands for one in the namespace of contexts, whatever namespace it has been
/// elaborated in.
pub open spec fn context_bytes(name: Seq<u8>) -> Seq<u8> {
    let last = after_last(trim_end(name, BACKSLASH), BACKSLASH);
    if begins_lowercase(last) {
        "\\HH\\Contexts\\".spec_bytes() + last
    } else {
        name
    }
}

pub open spec fn context_name<'a>(name: &'a [u8]) -> &'a [u8] {
    slice_of(context_bytes(name@))
}

/// A context with its name in the namespace of contexts. Those that depend on
/// a variable have none.
pub open spec fn context_of<'a>(ty: &'a Ty<'a>) -> &'a Ty<'a> {
    match ty.1 {
        Ty_::Tapply(of) => if begins_with(of.0.1@, DOLLAR) {
            ty
        } else {
            &Ty(ty.0, Ty_::Tapply(&((of.0.0, context_name(of.0.1)), of.1)))
        },
        _ => ty,
    }
}

/// Whether attributes are the single attribute `__Soft`.
pub open spec fn is_soft_list<'a>(attributes: Seq<Node<'a>>) -> bool {
    attributes.len() == 1 && (attributes[0] matches Node::Attribute(attribute)
        && attribute.name.1@ == "__Soft".spec_bytes())
}

impl<
    'a,
    'text,
    S: SourceTextAllocator<'text, 'a>,
    H: Fn(Query<'a, 'text>) -> Answer<'a, 'text>,
> DirectDeclSmartConstructors<'a, 'text, S, H> {
    /// A specifier that is a single word. It is not left to `flatten`, which
    /// drops what says nothing to the nodes around it.
    pub fn make_simple_type_specifier(&self, specifier: Node<'a>) -> (r: Node<'a>)
        ensures
            r == specifier,
    {
        specifier
    }

    pub fn make_type_arguments(
        &self,
        less_than: Node<'a>,
        arguments: Node<'a>,
        greater_than: Node<'a>,
    ) -> (r: Node<'a>)
        requires
            self.wf(),
        ensures
            r matches Node::BracketedList(list) && *list.0 == self.spec_pos(less_than)
                && list.1@ == arguments.elements() && *list.2 == self.spec_pos(greater_than),
    {
        Node::BracketedList(
            self.allocate(
                (
                    self.get_pos(less_than),
                    arguments.as_slice(self.arena),
                    self.get_pos(greater_than),
                ),
            ),
        )
    }

    /// The type that a node stands for, or any type at the given position.
    pub open spec fn spec_ty_or_any(&self, node: Node<'a>, pos: &'a Pos<'a>) -> &'a Ty<'a> {
        match self.spec_node_to_ty(node) {
            Some(ty) => ty,
            None => &witnessed(pos, Ty_::Tany),
        }
    }

    pub fn ty_or_any(&self, node: Node<'a>, pos: &'a Pos<'a>) -> (r: &'a Ty<'a>)
        requires
            self.wf(),
        ensures
            r == self.spec_ty_or_any(node, pos),
    {
        match self.node_to_ty(node) {
            Some(ty) => ty,
            None => self.tany_with_pos(pos),
        }
    }

    pub open spec fn spec_make_generic_type_specifier(
        &self,
        class_type: Node<'a>,
        type_arguments: Node<'a>,
    ) -> Node<'a> {
        match self.spec_expect_name(class_type) {
            None => Node::Ignored(SyntaxKind::GenericTypeSpecifier),
            Some(class_id) => {
                let pos = &class_id.0.merged(self.spec_pos(type_arguments));
                let targs = type_arguments.elements();
                let bare = trim_start(class_id.1@, BACKSLASH);
                let name = after_last(class_id.1@, BACKSLASH);
                if bare == "varray_or_darray".spec_bytes() || bare == "vec_or_dict".spec_bytes() {
                    let ty_ = if targs.len() == 2 {
                        Ty_::TvecOrDict(
                            &(
                                self.spec_ty_or_any(targs[0], class_id.0),
                                self.spec_ty_or_any(targs[1], class_id.0),
                            ),
                        )
                    } else if targs.len() == 1 {
                        Ty_::TvecOrDict(
                            &(&missing_key(pos), self.spec_ty_or_any(targs[0], class_id.0)),
                        )
                    } else {
                        Ty_::Tany
                    };
                    Node::Ty(&hinted(pos, ty_))
                } else if self.spec_in_scope(name) {
                    Node::Ty(
                        &hinted(
                            pos,
                            Ty_::Tgeneric(&(slice_of(name), Items::of(self.spec_tys(targs)))),
                        ),
                    )
                } else {
                    self.spec_make_apply(
                        (class_id.0, self.spec_elaborate_raw_id(class_id.1)),
                        type_arguments,
                        &self.spec_pos(type_arguments),
                    )
                }
            },
        }
    }

    pub fn make_generic_type_specifier(
        &self,
        class_type: Node<'a>,
        type_arguments: Node<'a>,
    ) -> (r: Node<'a>)
        requires
            self.wf(),
        ensures
            r == self.spec_make_generic_type_specifier(class_type, type_arguments),
            r matches Node::Ty(ty) ==> (ty.1 matches Ty_::Tgeneric(of) ==> of.0@ == after_last(
                self.spec_expect_name(class_type)->Some_0.1@,
                BACKSLASH,
            )),
    {
        let class_id = match self.expect_name(class_type) {
            Some(id) => id,
            None => return Node::Ignored(SyntaxKind::GenericTypeSpecifier),
        };
        let args_pos = self.get_pos(type_arguments);
        let pos = self.merge(Some(class_id.0), Some(args_pos));
        let bare = trim_start_byte(class_id.1, BACKSLASH);
        if is(bare, "varray_or_darray") || is(bare, "vec_or_dict") {
            let len = type_arguments.len();
            let ty_ = if len == 2 {
                let key = self.ty_or_any(type_arguments.nth(0), class_id.0);
                let value = self.ty_or_any(type_arguments.nth(1), class_id.0);
                Ty_::TvecOrDict(self.allocate((key, value)))
            } else if len == 1 {
                let value = self.ty_or_any(type_arguments.nth(0), class_id.0);
                Ty_::TvecOrDict(self.allocate((self.vec_or_dict_key(pos), value)))
            } else {
                Ty_::Tany
            };
            return self.hint_ty(pos, ty_);
        }
        let name = last_part(class_id.1, BACKSLASH);
        assert(slice_of(name@) == name);
        if self.is_type_param_in_scope(name) {
            let tys = self.tys(type_arguments);
            self.hint_ty(pos, Ty_::Tgeneric(self.allocate((name, tys))))
        } else {
            let class_type = self.elaborate_raw_id(class_id.1);
            self.make_apply((class_id.0, class_type), type_arguments, args_pos)
        }
    }

    pub open spec fn spec_make_tuple(
        &self,
        left_paren: Node<'a>,
        tys: Node<'a>,
        right_paren: Node<'a>,
    ) -> Node<'a> {
        Node::Ty(
            &hinted(
                &self.spec_merge_positions(left_paren, right_paren),
                Ty_::Ttuple(Items::of(self.spec_tys(tys.elements()))),
            ),
        )
    }

    pub fn make_tuple_type_specifier(
        &self,
        left_paren: Node<'a>,
        tys: Node<'a>,
        right_paren: Node<'a>,
    ) -> (r: Node<'a>)
        requires
            self.wf(),
        ensures
            r == self.spec_make_tuple(left_paren, tys, right_paren),
    {
        // The types stand between the two parentheses, so these cover all.
        let pos = self.merge_positions(left_paren, right_paren);
        self.hint_ty(pos, Ty_::Ttuple(self.tys(tys)))
    }

    /// `tuple<A, B>` is an error for `(A, B)`. It is read as a class.
    pub fn make_tuple_type_explicit_specifier(
        &self,
        keyword: Node<'a>,
        _left_angle: Node<'a>,
        types: Node<'a>,
        right_angle: Node<'a>,
    ) -> (r: Node<'a>)
        requires
            self.wf(),
        ensures
            r == self.spec_make_apply(
                (&self.spec_pos(keyword), lit("\\tuple")),
                types,
                &self.spec_pos(right_angle),
            ),
    {
        let id = (self.get_pos(keyword), literal("\\tuple"));
        self.make_apply(id, types, self.get_pos(right_angle))
    }

    /// The types among the items of a list with separators.
    pub open spec fn spec_item_tys(&self, nodes: Seq<Node<'a>>) -> Seq<&'a Ty<'a>>
        decreases nodes.len(),
    {
        if nodes.len() == 0 {
            Seq::<&'a Ty<'a>>::empty()
        } else {
            let before = self.spec_item_tys(nodes.drop_last());
            match self.spec_node_to_ty(item_of(nodes.last())) {
                Some(ty) => before.push(ty),
                None => before,
            }
        }
    }

    fn item_tys(&self, list: Node<'a>) -> (r: Items<'a, &'a Ty<'a>>)
        requires
            self.wf(),
        ensures
            r == Items::of(self.spec_item_tys(list.elements())),
    {
        let mut found: Vec<&'a Ty<'a>> = Vec::new();
        let len = list.len();
        let ghost nodes = list.elements();
        let mut i: usize = 0;
        assert(nodes.take(0) =~= Seq::<Node<'a>>::empty());
        while i < len
            invariant
                self.wf(),
                nodes == list.elements(),
                len == nodes.len(),
                i <= len,
                found@ == self.spec_item_tys(nodes.take(i as int)),
            decreases len - i,
        {
            assert(nodes.take(i + 1).drop_last() =~= nodes.take(i as int));
            if let Some(ty) = self.node_to_ty(without_separator(list.nth(i))) {
                found.push(ty);
            }
            i = i + 1;
        }
        assert(nodes.take(i as int) =~= nodes);
        Items::copied(self.arena, found.as_slice())
    }

    pub open spec fn spec_make_intersection(
        &self,
        left_paren: Node<'a>,
        tys: Node<'a>,
        right_paren: Node<'a>,
    ) -> Node<'a> {
        Node::Ty(
            &hinted(
                &self.spec_merge_positions(left_paren, right_paren),
                Ty_::Tintersection(Items::of(self.spec_item_tys(tys.elements()))),
            ),
        )
    }

    pub fn make_intersection_type_specifier(
        &self,
        left_paren: Node<'a>,
        tys: Node<'a>,
        right_paren: Node<'a>,
    ) -> (r: Node<'a>)
        requires
            self.wf(),
        ensures
            r == self.spec_make_intersection(left_paren, tys, right_paren),
    {
        let pos = self.merge_positions(left_paren, right_paren);
        self.hint_ty(pos, Ty_::Tintersection(self.item_tys(tys)))
    }

    pub open spec fn spec_make_union(
        &self,
        left_paren: Node<'a>,
        tys: Node<'a>,
        right_paren: Node<'a>,
    ) -> Node<'a> {
        Node::Ty(
            &hinted(
                &self.spec_merge_positions(left_paren, right_paren),
                Ty_::Tunion(Items::of(self.spec_item_tys(tys.elements()))),
            ),
        )
    }

    pub fn make_union_type_specifier(
        &self,
        left_paren: Node<'a>,
        tys: Node<'a>,
        right_paren: Node<'a>,
    ) -> (r: Node<'a>)
        requires
            self.wf(),
        ensures
            r == self.spec_make_union(left_paren, tys, right_paren),
    {
        let pos = self.merge_positions(left_paren, right_paren);
        self.hint_ty(pos, Ty_::Tunion(self.item_tys(tys)))
    }

    /// The name of a shape field: a literal or a class constant. The class
    /// that `self` stands for is the one that is being read.
    pub open spec fn spec_make_shape_field_name(&self, name: Node<'a>) -> Option<
        ShapeFieldName<'a>,
    > {
        match name {
            Node::StringLiteral(of) => Some(ShapeFieldName::SFlitStr(&(of.1, of.0))),
            // Integer keys are kept as strings too.
            Node::IntLiteral(of) => Some(ShapeFieldName::SFlitStr(&(of.1, of.0))),
            Node::Expr(expr) => match expr.1 {
                Expr_::ClassConst(of) => match of.0.1 {
                    ClassId_::CI(class_name) => Some(
                        ShapeFieldName::SFclassConst(&(*class_name, of.1)),
                    ),
                    ClassId_::CIself => match self.classish_name_builder.current() {
                        Some(current) => Some(
                            ShapeFieldName::SFclassConst(&(Id(of.0.0, current.0), of.1)),
                        ),
                        None => None,
                    },
                    _ => None,
                },
                _ => None,
            },
            _ => None,
        }
    }

    pub fn make_shape_field_name(&self, name: Node<'a>) -> (r: Option<ShapeFieldName<'a>>)
        ensures
            r == self.spec_make_shape_field_name(name),
    {
        match name {
            Node::StringLiteral(of) => Some(
                ShapeFieldName::SFlitStr(self.allocate((of.1, of.0))),
            ),
            Node::IntLiteral(of) => Some(ShapeFieldName::SFlitStr(self.allocate((of.1, of.0)))),
            Node::Expr(expr) => match expr.1 {
                Expr_::ClassConst(of) => match of.0.1 {
                    ClassId_::CI(class_name) => Some(
                        ShapeFieldName::SFclassConst(self.allocate((*class_name, of.1))),
                    ),
                    ClassId_::CIself => match self.classish_name_builder
                        .get_current_classish_name() {
                        Some(current) => Some(
                            ShapeFieldName::SFclassConst(
                                self.allocate((Id(of.0.0, current.0), of.1)),
                            ),
                        ),
                        None => None,
                    },
                    _ => None,
                },
                _ => None,
            },
            _ => None,
        }
    }

    pub fn make_t_shape_field_name(&self, field: &ShapeField<'a>) -> (r: TShapeField<'a>)
        ensures
            r == t_shape_field_name(*field),
    {
        match field.0 {
            ShapeFieldName::SFlitInt(of) => TShapeField(TshapeFieldName::TSFlitInt(of)),
            ShapeFieldName::SFlitStr(of) => TShapeField(TshapeFieldName::TSFlitStr(of)),
            ShapeFieldName::SFclassConst(of) => TShapeField(
                TshapeFieldName::TSFclassConst(self.allocate((of.0.to_pos_id(), *of.1))),
            ),
        }
    }

    pub open spec fn spec_make_shape(
        &self,
        shape: Node<'a>,
        fields: Node<'a>,
        open: Node<'a>,
        rparen: Node<'a>,
    ) -> Node<'a> {
        Node::Ty(
            &hinted(
                &self.spec_merge_positions(shape, rparen),
                Ty_::Tshape(
                    &(
                        if open.spec_is_token(TokenKind::DotDotDot) {
                            ShapeKind::OpenShape
                        } else {
                            ShapeKind::ClosedShape
                        },
                        Items::of(shape_fields(fields.elements())),
                    ),
                ),
            ),
        )
    }

    pub fn make_shape_type_specifier(
        &self,
        shape: Node<'a>,
        _lparen: Node<'a>,
        fields: Node<'a>,
        open: Node<'a>,
        rparen: Node<'a>,
    ) -> (r: Node<'a>)
        requires
            self.wf(),
        ensures
            r == self.spec_make_shape(shape, fields, open, rparen),
    {
        let mut read: Vec<(TShapeField<'a>, &'a ShapeFieldType<'a>)> = Vec::new();
        let len = fields.len();
        let ghost nodes = fields.elements();
        let mut i: usize = 0;
        assert(nodes.take(0) =~= Seq::<Node<'a>>::empty());
        while i < len
            invariant
                nodes == fields.elements(),
                len == nodes.len(),
                i <= len,
                read@ == shape_fields(nodes.take(i as int)),
            decreases len - i,
        {
            assert(nodes.take(i + 1).drop_last() =~= nodes.take(i as int));
            if let Node::ShapeFieldSpecifier(field) = fields.nth(i) {
                read.push((self.make_t_shape_field_name(field.name), field.type_));
            }
            i = i + 1;
        }
        assert(nodes.take(i as int) =~= nodes);
        let kind = if open.is_token(TokenKind::DotDotDot) {
            ShapeKind::OpenShape
        } else {
            ShapeKind::ClosedShape
        };
        let pos = self.merge_positions(shape, rparen);
        let items = Items::copied(self.arena, read.as_slice());
        self.hint_ty(pos, Ty_::Tshape(self.allocate((kind, items))))
    }

    pub open spec fn spec_make_classname_type_specifier(
        &self,
        classname: Node<'a>,
        targ: Node<'a>,
        gt: Node<'a>,
    ) -> Node<'a> {
        match classname.spec_as_id() {
            None => Node::Ignored(SyntaxKind::ClassnameTypeSpecifier),
            Some(id) => if gt is Ignored {
                Node::Ty(&hinted(id.0, Ty_::Tprim(Tprim::Tstring)))
            } else {
                self.spec_make_apply(
                    (id.0, self.spec_elaborate_raw_id(id.1)),
                    targ,
                    &self.spec_merge_positions(classname, gt),
                )
            },
        }
    }

    pub fn make_classname_type_specifier(
        &self,
        classname: Node<'a>,
        _lt: Node<'a>,
        targ: Node<'a>,
        _trailing_comma: Node<'a>,
        gt: Node<'a>,
    ) -> (r: Node<'a>)
        requires
            self.wf(),
        ensures
            r == self.spec_make_classname_type_specifier(classname, targ, gt),
    {
        let id = match classname.as_id() {
            Some(id) => id,
            None => return Node::Ignored(SyntaxKind::ClassnameTypeSpecifier),
        };
        if gt.is_ignored() {
            self.prim_ty(Tprim::Tstring, id.0)
        } else {
            self.make_apply(
                (id.0, self.elaborate_raw_id(id.1)),
                targ,
                self.merge_positions(classname, gt),
            )
        }
    }

    pub open spec fn spec_make_field_specifier(
        &self,
        question_token: Node<'a>,
        name: Node<'a>,
        type_: Node<'a>,
    ) -> Node<'a> {
        match (self.spec_node_to_ty(type_), self.spec_make_shape_field_name(name)) {
            (Some(ty), Some(name)) => Node::ShapeFieldSpecifier(
                &ShapeFieldNode {
                    name: &ShapeField(name),
                    type_: &ShapeFieldType { optional: !(question_token is Ignored), ty },
                },
            ),
            _ => Node::Ignored(SyntaxKind::FieldSpecifier),
        }
    }

    pub fn make_field_specifier(
        &self,
        question_token: Node<'a>,
        name: Node<'a>,
        _arrow: Node<'a>,
        type_: Node<'a>,
    ) -> (r: Node<'a>)
        requires
            self.wf(),
        ensures
            r == self.spec_make_field_specifier(question_token, name, type_),
    {
        let optional = question_token.is_present();
        let ty = match self.node_to_ty(type_) {
            Some(ty) => ty,
            None => return Node::Ignored(SyntaxKind::FieldSpecifier),
        };
        let name = match self.make_shape_field_name(name) {
            Some(name) => name,
            None => return Node::Ignored(SyntaxKind::FieldSpecifier),
        };
        Node::ShapeFieldSpecifier(
            self.allocate(
                ShapeFieldNode {
                    name: self.allocate(ShapeField(name)),
                    type_: self.allocate(ShapeFieldType { optional, ty }),
                },
            ),
        )
    }

    pub open spec fn spec_make_varray(
        &self,
        varray_keyword: Node<'a>,
        tparam: Node<'a>,
        greater_than: Node<'a>,
    ) -> Node<'a> {
        Node::Ty(
            &hinted(
                &self.spec_merge_positions(varray_keyword, greater_than),
                Ty_::Tapply(
                    &(
                        (&self.spec_pos(varray_keyword), lit("\\HH\\vec")),
                        Items::of(
                            seq![
                                self.spec_ty_or_any(tparam, &self.spec_pos(varray_keyword)),
                            ],
                        ),
                    ),
                ),
            ),
        )
    }

    pub fn make_varray_type_specifier(
        &self,
        varray_keyword: Node<'a>,
        _less_than: Node<'a>,
        tparam: Node<'a>,
        _trailing_comma: Node<'a>,
        greater_than: Node<'a>,
    ) -> (r: Node<'a>)
        requires
            self.wf(),
        ensures
            r == self.spec_make_varray(varray_keyword, tparam, greater_than),
    {
        let keyword_pos = self.get_pos(varray_keyword);
        let targs = Items::single(self.arena, self.ty_or_any(tparam, keyword_pos));
        self.hint_ty(
            self.merge_positions(varray_keyword, greater_than),
            Ty_::Tapply(self.allocate(((keyword_pos, literal("\\HH\\vec")), targs))),
        )
    }

    /// The type that a node stands for, or any type at all.
    pub open spec fn spec_ty_or_tany(&self, node: Node<'a>) -> &'a Ty<'a> {
        match self.spec_node_to_ty(node) {
            Some(ty) => ty,
            None => &Ty(&Reason::Rnone, Ty_::Tany),
        }
    }

    pub fn ty_or_tany(&self, node: Node<'a>) -> (r: &'a Ty<'a>)
        requires
            self.wf(),
        ensures
            r == self.spec_ty_or_tany(node),
    {
        match self.node_to_ty(node) {
            Some(ty) => ty,
            None => tany(),
        }
    }

    pub open spec fn spec_make_darray(
        &self,
        darray: Node<'a>,
        key_type: Node<'a>,
        value_type: Node<'a>,
        greater_than: Node<'a>,
    ) -> Node<'a> {
        Node::Ty(
            &hinted(
                &self.spec_merge_positions(darray, greater_than),
                Ty_::Tapply(
                    &(
                        (&self.spec_pos(darray), lit("\\HH\\dict")),
                        Items::of(
                            seq![
                                self.spec_ty_or_tany(key_type),
                                self.spec_ty_or_tany(value_type),
                            ],
                        ),
                    ),
                ),
            ),
        )
    }

    pub fn make_darray_type_specifier(
        &self,
        darray: Node<'a>,
        _less_than: Node<'a>,
        key_type: Node<'a>,
        _comma: Node<'a>,
        value_type: Node<'a>,
        _trailing_comma: Node<'a>,
        greater_than: Node<'a>,
    ) -> (r: Node<'a>)
        requires
            self.wf(),
        ensures
            r == self.spec_make_darray(darray, key_type, value_type, greater_than),
    {
        let pos = self.merge_positions(darray, greater_than);
        let key_type = self.ty_or_tany(key_type);
        let value_type = self.ty_or_tany(value_type);
        let targs = Items::pair(self.arena, key_type, value_type);
        self.hint_ty(
            pos,
            Ty_::Tapply(self.allocate(((self.get_pos(darray), literal("\\HH\\dict")), targs))),
        )
    }

    pub open spec fn spec_make_nullable(&self, question_mark: Node<'a>, hint: Node<'a>) -> Node<
        'a,
    > {
        match self.spec_node_to_ty(hint) {
            Some(ty) => Node::Ty(
                &hinted(&self.spec_merge_positions(question_mark, hint), Ty_::Toption(ty)),
            ),
            None => Node::Ignored(SyntaxKind::NullableTypeSpecifier),
        }
    }

    pub fn make_nullable_type_specifier(
        &self,
        question_mark: Node<'a>,
        hint: Node<'a>,
    ) -> (r: Node<'a>)
        requires
            self.wf(),
        ensures
            r == self.spec_make_nullable(question_mark, hint),
    {
        let pos = self.merge_positions(question_mark, hint);
        match self.node_to_ty(hint) {
            Some(ty) => self.hint_ty(pos, Ty_::Toption(ty)),
            None => Node::Ignored(SyntaxKind::NullableTypeSpecifier),
        }
    }

    pub open spec fn spec_make_like(&self, tilde: Node<'a>, hint: Node<'a>) -> Node<'a> {
        match self.spec_node_to_ty(hint) {
            Some(ty) => Node::Ty(&hinted(&self.spec_merge_positions(tilde, hint), Ty_::Tlike(ty))),
            None => Node::Ignored(SyntaxKind::LikeTypeSpecifier),
        }
    }

    pub fn make_like_type_specifier(&self, tilde: Node<'a>, hint: Node<'a>) -> (r: Node<'a>)
        requires
            self.wf(),
        ensures
            r == self.spec_make_like(tilde, hint),
    {
        let pos = self.merge_positions(tilde, hint);
        match self.node_to_ty(hint) {
            Some(ty) => self.hint_ty(pos, Ty_::Tlike(ty)),
            None => Node::Ignored(SyntaxKind::LikeTypeSpecifier),
        }
    }

    /// A parameter of a function type. It has no name.
    pub open spec fn spec_closure_param(&self, decl: FunParamDecl<'a>) -> &'a FunParam<'a> {
        &FunParam {
            pos: &self.spec_pos(decl.hint),
            name: None,
            type_: unenforced(self.spec_ty_or_tany(decl.hint)),
            flags: FunParamFlags {
                accept_disposable: false,
                ifc_external: false,
                ifc_can_call: false,
                via_label: false,
                readonly: decl.readonly,
                inout: decl.kind == ParamMode::FPinout,
                has_default: false,
            },
        }
    }

    fn closure_param(&self, decl: &FunParamDecl<'a>) -> (r: &'a FunParam<'a>)
        requires
            self.wf(),
        ensures
            r == self.spec_closure_param(*decl),
    {
        let type_ = self.allocate(
            PossiblyEnforcedTy {
                enforced: Enforcement::Unenforced,
                type_: self.ty_or_tany(decl.hint),
            },
        );
        self.allocate(
            FunParam {
                pos: self.get_pos(decl.hint),
                name: None,
                type_,
                flags: FunParamFlags {
                    accept_disposable: false,
                    ifc_external: false,
                    ifc_can_call: false,
                    via_label: false,
                    readonly: decl.readonly,
                    inout: decl.kind == ParamMode::FPinout,
                    has_default: false,
                },
            },
        )
    }

    /// The parameters of a function type that are not variadic.
    pub open spec fn spec_closure_params(&self, nodes: Seq<Node<'a>>) -> Seq<&'a FunParam<'a>>
        decreases nodes.len(),
    {
        if nodes.len() == 0 {
            Seq::<&'a FunParam<'a>>::empty()
        } else {
            let before = self.spec_closure_params(nodes.drop_last());
            match nodes.last() {
                Node::FunParam(decl) => if decl.variadic {
                    before
                } else {
                    before.push(self.spec_closure_param(*decl))
                },
                _ => before,
            }
        }
    }

    /// The arity of a function type: the first variadic parameter makes it.
    pub open spec fn spec_closure_arity(&self, nodes: Seq<Node<'a>>) -> FunArity<'a>
        decreases nodes.len(),
    {
        if nodes.len() == 0 {
            FunArity::Fstandard
        } else {
            match (self.spec_closure_arity(nodes.drop_last()), nodes.last()) {
                (FunArity::Fstandard, Node::FunParam(decl)) => if decl.variadic {
                    FunArity::Fvariadic(self.spec_closure_param(*decl))
                } else {
                    FunArity::Fstandard
                },
                (arity, _) => arity,
            }
        }
    }

    pub open spec fn spec_make_closure_type_specifier(
        &self,
        outer_left_paren: Node<'a>,
        readonly_keyword: Node<'a>,
        parameter_list: Node<'a>,
        capability: Node<'a>,
        readonly_ret: Node<'a>,
        return_type: Node<'a>,
        outer_right_paren: Node<'a>,
    ) -> Node<'a> {
        let pos = &self.spec_merge_positions(outer_left_paren, outer_right_paren);
        match self.spec_node_to_ty(return_type) {
            None => Node::Ignored(SyntaxKind::ClosureTypeSpecifier),
            Some(ret) => Node::Ty(
                &hinted(
                    pos,
                    Ty_::Tfun(
                        &FunType {
                            arity: self.spec_closure_arity(parameter_list.elements()),
                            tparams: Items::of(Seq::<&'a Tparam<'a>>::empty()),
                            where_constraints: Items::of(Seq::<&'a WhereConstraint<'a>>::empty()),
                            params: Items::of(self.spec_closure_params(parameter_list.elements())),
                            implicit_params: self.spec_implicit_params(capability, pos),
                            ret: unenforced(ret),
                            flags: FunTypeFlags {
                                async_: false,
                                generator: false,
                                return_disposable: false,
                                returns_readonly: readonly_ret.spec_is_token(TokenKind::Readonly),
                                readonly_this: readonly_keyword.spec_is_token(
                                    TokenKind::Readonly,
                                ),
                            },
                            ifc_decl: public_policy(),
                        },
                    ),
                ),
            ),
        }
    }

    pub fn make_closure_type_specifier(
        &self,
        outer_left_paren: Node<'a>,
        readonly_keyword: Node<'a>,
        _function_keyword: Node<'a>,
        _inner_left_paren: Node<'a>,
        parameter_list: Node<'a>,
        _inner_right_paren: Node<'a>,
        capability: Node<'a>,
        _colon: Node<'a>,
        readonly_ret: Node<'a>,
        return_type: Node<'a>,
        outer_right_paren: Node<'a>,
    ) -> (r: Node<'a>)
        requires
            self.wf(),
        ensures
            r == self.spec_make_closure_type_specifier(
                outer_left_paren,
                readonly_keyword,
                parameter_list,
                capability,
                readonly_ret,
                return_type,
                outer_right_paren,
            ),
    {
        let mut params: Vec<&'a FunParam<'a>> = Vec::new();
        let mut arity: FunArity<'a> = FunArity::Fstandard;
        let len = parameter_list.len();
        let ghost nodes = parameter_list.elements();
        let mut i: usize = 0;
        assert(nodes.take(0) =~= Seq::<Node<'a>>::empty());
        while i < len
            invariant
                self.wf(),
                nodes == parameter_list.elements(),
                len == nodes.len(),
                i <= len,
                params@ == self.spec_closure_params(nodes.take(i as int)),
                arity == self.spec_closure_arity(nodes.take(i as int)),
            decreases len - i,
        {
            assert(nodes.take(i + 1).drop_last() =~= nodes.take(i as int));
            if let Node::FunParam(decl) = parameter_list.nth(i) {
                if decl.variadic {
                    if let FunArity::Fstandard = arity {
                        arity = FunArity::Fvariadic(self.closure_param(decl));
                    }
                } else {
                    params.push(self.closure_param(decl));
                }
            }
            i = i + 1;
        }
        assert(nodes.take(i as int) =~= nodes);
        let ret = match self.node_to_ty(return_type) {
            Some(ty) => ty,
            None => return Node::Ignored(SyntaxKind::ClosureTypeSpecifier),
        };
        let pos = self.merge_positions(outer_left_paren, outer_right_paren);
        let implicit_params = self.as_fun_implicit_params(capability, pos);
        let flags = FunTypeFlags {
            async_: false,
            generator: false,
            return_disposable: false,
            returns_readonly: readonly_ret.is_token(TokenKind::Readonly),
            readonly_this: readonly_keyword.is_token(TokenKind::Readonly),
        };
        let ret = self.allocate(
            PossiblyEnforcedTy { enforced: Enforcement::Unenforced, type_: ret },
        );
        let ft = self.allocate(
            FunType {
                arity,
                tparams: Items::none(),
                where_constraints: Items::none(),
                params: Items::copied(self.arena, params.as_slice()),
                implicit_params,
                ret,
                flags,
                ifc_decl: default_ifc_fun_decl(),
            },
        );
        self.hint_ty(pos, Ty_::Tfun(ft))
    }

    pub open spec fn spec_make_closure_parameter(
        &self,
        inout: Node<'a>,
        readonly: Node<'a>,
        hint: Node<'a>,
    ) -> Node<'a> {
        Node::FunParam(
            &FunParamDecl {
                attributes: Node::Ignored(SyntaxKind::Missing),
                visibility: Node::Ignored(SyntaxKind::Missing),
                kind: if inout.spec_is_token(TokenKind::Inout) {
                    ParamMode::FPinout
                } else {
                    ParamMode::FPnormal
                },
                readonly: readonly.spec_is_token(TokenKind::Readonly),
                hint,
                pos: &self.spec_pos(hint),
                name: Some(lit("")),
                variadic: false,
                initializer: Node::Ignored(SyntaxKind::Missing),
            },
        )
    }

    pub fn make_closure_parameter_type_specifier(
        &self,
        inout: Node<'a>,
        readonly: Node<'a>,
        hint: Node<'a>,
    ) -> (r: Node<'a>)
        requires
            self.wf(),
        ensures
            r == self.spec_make_closure_parameter(inout, readonly, hint),
    {
        let kind = if inout.is_token(TokenKind::Inout) {
            ParamMode::FPinout
        } else {
            ParamMode::FPnormal
        };
        Node::FunParam(
            self.allocate(
                FunParamDecl {
                    attributes: Node::Ignored(SyntaxKind::Missing),
                    visibility: Node::Ignored(SyntaxKind::Missing),
                    kind,
                    readonly: readonly.is_token(TokenKind::Readonly),
                    hint,
                    pos: self.get_pos(hint),
                    name: Some(literal("")),
                    variadic: false,
                    initializer: Node::Ignored(SyntaxKind::Missing),
                },
            ),
        )
    }

    /// The type in front of the colons of a type constant. Inside a class
    /// `self` is that class, with the position of its name. Inside a trait it is
    /// the trait, but keeps its own position: a trait is not a type. That the
    /// position is to be kept shows in the name having none.
    pub open spec fn spec_type_constant_root(&self, ty: Node<'a>) -> Option<&'a Ty<'a>> {
        match (ty, self.classish_name_builder.current()) {
            (Node::Name(of), Some(current)) => if of.0@ == "self".spec_bytes() {
                let id_pos = if *current.1 is NoPos {
                    of.1
                } else {
                    current.1
                };
                Some(&hinted(of.1, plain_apply((id_pos, current.0))))
            } else {
                self.spec_node_to_ty(ty)
            },
            _ => self.spec_node_to_ty(ty),
        }
    }

    pub open spec fn spec_make_type_constant(
        &self,
        ty: Node<'a>,
        constant_name: Node<'a>,
    ) -> Node<'a> {
        match (self.spec_expect_name(constant_name), self.spec_type_constant_root(ty)) {
            (Some(id), Some(root)) => {
                let reason = &Reason::Rhint(&self.spec_merge_positions(ty, constant_name));
                Node::Ty(
                    &Ty(
                        reason,
                        Ty_::Taccess(&TaccessType(&with_reasons(*root, reason), id.pos_id())),
                    ),
                )
            },
            _ => Node::Ignored(SyntaxKind::TypeConstant),
        }
    }

    pub fn make_type_constant(
        &self,
        ty: Node<'a>,
        _coloncolon: Node<'a>,
        constant_name: Node<'a>,
    ) -> (r: Node<'a>)
        requires
            self.wf(),
        ensures
            r == self.spec_make_type_constant(ty, constant_name),
    {
        let id = match self.expect_name(constant_name) {
            Some(id) => id,
            None => return Node::Ignored(SyntaxKind::TypeConstant),
        };
        let pos = self.merge_positions(ty, constant_name);
        let mut root = self.node_to_ty(ty);
        if let Node::Name(of) = ty {
            if is(of.0, "self") {
                if let Some(current) = self.classish_name_builder.get_current_classish_name() {
                    let id_pos = if current.1.is_none() {
                        of.1
                    } else {
                        current.1
                    };
                    root = Some(self.hint(of.1, self.apply_plain((id_pos, current.0))));
                }
            }
        }
        let root = match root {
            Some(ty) => ty,
            None => return Node::Ignored(SyntaxKind::TypeConstant),
        };
        let reason = self.allocate(Reason::Rhint(pos));
        // All steps of a path have the position of the whole path.
        let root = self.rewrite_taccess_reasons(root, reason);
        Node::Ty(
            self.allocate(
                Ty(reason, Ty_::Taccess(self.allocate(TaccessType(root, id.to_pos_id())))),
            ),
        )
    }

    /// What a soft type is read as. That it is soft is forgotten, or it is a
    /// like type, as the options have it.
    pub open spec fn spec_soft_ty(&self, hint: &'a Ty<'a>) -> Ty_<'a> {
        if self.opts.interpret_soft_types_as_like_types {
            Ty_::Tlike(hint)
        } else {
            hint.1
        }
    }

    fn soft_ty(&self, hint: &'a Ty<'a>) -> (r: Ty_<'a>)
        ensures
            r == self.spec_soft_ty(hint),
    {
        if self.opts.interpret_soft_types_as_like_types {
            Ty_::Tlike(hint)
        } else {
            hint.1
        }
    }

    pub open spec fn spec_make_soft(&self, at_token: Node<'a>, hint: Node<'a>) -> Node<'a> {
        match self.spec_node_to_ty(hint) {
            Some(ty) => Node::Ty(
                &hinted(&self.spec_merge_positions(at_token, hint), self.spec_soft_ty(ty)),
            ),
            None => Node::Ignored(SyntaxKind::SoftTypeSpecifier),
        }
    }

    pub fn make_soft_type_specifier(&self, at_token: Node<'a>, hint: Node<'a>) -> (r: Node<'a>)
        requires
            self.wf(),
        ensures
            r == self.spec_make_soft(at_token, hint),
    {
        let pos = self.merge_positions(at_token, hint);
        match self.node_to_ty(hint) {
            Some(ty) => self.hint_ty(pos, self.soft_ty(ty)),
            None => Node::Ignored(SyntaxKind::SoftTypeSpecifier),
        }
    }

    pub open spec fn spec_make_attributized(&self, attributes: Node<'a>, hint: Node<'a>) -> Node<
        'a,
    > {
        match attributes {
            Node::BracketedList(list) => if is_soft_list(list.1@) {
                match self.spec_node_to_ty(hint) {
                    Some(ty) => Node::Ty(
                        &hinted(
                            &list.0.merged(*list.2).merged(self.spec_pos(hint)),
                            self.spec_soft_ty(ty),
                        ),
                    ),
                    None => Node::Ignored(SyntaxKind::AttributizedSpecifier),
                }
            } else {
                hint
            },
            _ => hint,
        }
    }

    /// A type with attributes in front of it. Only `<<__Soft>>` means anything
    /// there.
    pub fn make_attributized_specifier(
        &self,
        attributes: Node<'a>,
        hint: Node<'a>,
    ) -> (r: Node<'a>)
        requires
            self.wf(),
        ensures
            r == self.spec_make_attributized(attributes, hint),
    {
        if let Node::BracketedList(list) = attributes {
            if list.1.len() == 1 {
                if let Node::Attribute(attribute) = *list.1.at(0) {
                    if is(attribute.name.1, "__Soft") {
                        let attributes_pos = self.merge(Some(list.0), Some(list.2));
                        let hint_pos = self.get_pos(hint);
                        return match self.node_to_ty(hint) {
                            Some(ty) => self.hint_ty(
                                self.merge(Some(attributes_pos), Some(hint_pos)),
                                self.soft_ty(ty),
                            ),
                            None => Node::Ignored(SyntaxKind::AttributizedSpecifier),
                        };
                    }
                }
            }
        }
        hint
    }

    /// The application of a built-in class that is written by its keyword.
    pub open spec fn spec_keyword_apply(
        &self,
        keyword: Node<'a>,
        type_arguments: Node<'a>,
        right_angle: Node<'a>,
        otherwise: SyntaxKind,
    ) -> Node<'a> {
        match self.spec_expect_name(keyword) {
            Some(id) => self.spec_make_apply(
                (id.0, self.spec_elaborate_raw_id(id.1)),
                type_arguments,
                &self.spec_pos(right_angle),
            ),
            None => Node::Ignored(otherwise),
        }
    }

    fn keyword_apply(
        &self,
        keyword: Node<'a>,
        type_arguments: Node<'a>,
        right_angle: Node<'a>,
        otherwise: SyntaxKind,
    ) -> (r: Node<'a>)
        requires
            self.wf(),
        ensures
            r == self.spec_keyword_apply(keyword, type_arguments, right_angle, otherwise),
    {
        let id = match self.expect_name(keyword) {
            Some(id) => id,
            None => return Node::Ignored(otherwise),
        };
        let id = (id.0, self.elaborate_raw_id(id.1));
        self.make_apply(id, type_arguments, self.get_pos(right_angle))
    }

    pub fn make_vector_type_specifier(
        &self,
        vec: Node<'a>,
        _left_angle: Node<'a>,
        hint: Node<'a>,
        _trailing_comma: Node<'a>,
        right_angle: Node<'a>,
    ) -> (r: Node<'a>)
        requires
            self.wf(),
        ensures
            r == self.spec_keyword_apply(vec, hint, right_angle, SyntaxKind::VectorTypeSpecifier),
    {
        self.keyword_apply(vec, hint, right_angle, SyntaxKind::VectorTypeSpecifier)
    }

    pub fn make_dictionary_type_specifier(
        &self,
        dict: Node<'a>,
        _left_angle: Node<'a>,
        type_arguments: Node<'a>,
        right_angle: Node<'a>,
    ) -> (r: Node<'a>)
        requires
            self.wf(),
        ensures
            r == self.spec_keyword_apply(
                dict,
                type_arguments,
                right_angle,
                SyntaxKind::DictionaryTypeSpecifier,
            ),
    {
        self.keyword_apply(dict, type_arguments, right_angle, SyntaxKind::DictionaryTypeSpecifier)
    }

    pub fn make_keyset_type_specifier(
        &self,
        keyset: Node<'a>,
        _left_angle: Node<'a>,
        hint: Node<'a>,
        _trailing_comma: Node<'a>,
        right_angle: Node<'a>,
    ) -> (r: Node<'a>)
        requires
            self.wf(),
        ensures
            r == self.spec_keyword_apply(
                keyset,
                hint,
                right_angle,
                SyntaxKind::KeysetTypeSpecifier,
            ),
    {
        self.keyword_apply(keyset, hint, right_angle, SyntaxKind::KeysetTypeSpecifier)
    }

    /// The context that a node stands for. The wildcard `_` is that of a
    /// function parameter whose context is left open.
    pub open spec fn spec_context(&self, node: Node<'a>) -> Option<&'a Ty<'a>> {
        let item = item_of(node);
        let named = self.spec_expect_name(item);
        if named matches Some(id) && id.1@ == "_".spec_bytes() {
            let id = named->Some_0;
            Some(&hinted(id.0, plain_apply((id.0, lit("_")))))
        } else {
            match self.spec_node_to_ty(item) {
                Some(ty) => Some(context_of(ty)),
                None => None,
            }
        }
    }

    /// Whether the name that a context gets is at hand.
    pub open spec fn spec_context_realised(&self, node: Node<'a>) -> bool {
        let wildcard = self.spec_expect_name(item_of(node)) matches Some(id) && id.1@
            == "_".spec_bytes();
        self.spec_node_to_ty(item_of(node)) matches Some(ty) ==> (ty.1 matches Ty_::Tapply(of)
            ==> !wildcard && !begins_with(of.0.1@, DOLLAR) ==> realised(context_bytes(of.0.1@)))
    }

    fn context(&self, node: Node<'a>) -> (r: Option<&'a Ty<'a>>)
        requires
            self.wf(),
        ensures
            r == self.spec_context(node),
            self.spec_context_realised(node),
    {
        let item = without_separator(node);
        if let Some(id) = self.expect_name(item) {
            if is(id.1, "_") {
                return Some(self.hint(id.0, self.apply_plain((id.0, literal("_")))));
            }
        }
        let ty = match self.node_to_ty(item) {
            Some(ty) => ty,
            None => return None,
        };
        match ty.1 {
            Ty_::Tapply(of) => {
                if starts_with_byte(of.0.1, DOLLAR) {
                    return Some(ty);
                }
                // The name has been elaborated in the current namespace; its
                // last part is what counts.
                let last = last_part(trim_end_byte(of.0.1, BACKSLASH), BACKSLASH);
                let name = if starts_with_lowercase(last) {
                    concat(self.arena, literal("\\HH\\Contexts\\"), last)
                } else {
                    of.0.1
                };
                assert(slice_of(name@) == name);
                Some(
                    self.allocate(Ty(ty.0, Ty_::Tapply(self.allocate(((of.0.0, name), of.1))))),
                )
            },
            _ => Some(ty),
        }
    }

    pub open spec fn spec_contexts(&self, nodes: Seq<Node<'a>>) -> Seq<&'a Ty<'a>>
        decreases nodes.len(),
    {
        if nodes.len() == 0 {
            Seq::<&'a Ty<'a>>::empty()
        } else {
            let before = self.spec_contexts(nodes.drop_last());
            match self.spec_context(nodes.last()) {
                Some(ty) => before.push(ty),
                None => before,
            }
        }
    }

    pub open spec fn spec_make_contexts(
        &self,
        left_bracket: Node<'a>,
        tys: Node<'a>,
        right_bracket: Node<'a>,
    ) -> Node<'a> {
        Node::Ty(
            &hinted(
                &self.spec_merge_positions(left_bracket, right_bracket),
                Ty_::Tintersection(Items::of(self.spec_contexts(tys.elements()))),
            ),
        )
    }

    pub fn make_contexts(
        &self,
        left_bracket: Node<'a>,
        tys: Node<'a>,
        right_bracket: Node<'a>,
    ) -> (r: Node<'a>)
        requires
            self.wf(),
        ensures
            r == self.spec_make_contexts(left_bracket, tys, right_bracket),
            forall|i: int|
                0 <= i < tys.elements().len() ==> self.spec_context_realised(
                    #[trigger] tys.elements()[i],
                ),
    {
        let mut found: Vec<&'a Ty<'a>> = Vec::new();
        let len = tys.len();
        let ghost nodes = tys.elements();
        let mut i: usize = 0;
        assert(nodes.take(0) =~= Seq::<Node<'a>>::empty());
        while i < len
            invariant
                self.wf(),
                nodes == tys.elements(),
                len == nodes.len(),
                i <= len,
                found@ == self.spec_contexts(nodes.take(i as int)),
                forall|j: int| 0 <= j < i ==> self.spec_context_realised(#[trigger] nodes[j]),
            decreases len - i,
        {
            assert(nodes.take(i + 1).drop_last() =~= nodes.take(i as int));
            if let Some(ty) = self.context(tys.nth(i)) {
                found.push(ty);
            }
            i = i + 1;
        }
        assert(nodes.take(i as int) =~= nodes);
        // The intersection is kept even where it has one part or none.
        let pos = self.merge_positions(left_bracket, right_bracket);
        self.hint_ty(pos, Ty_::Tintersection(Items::copied(self.arena, found.as_slice())))
    }

    pub open spec fn spec_make_function_ctx(
        &self,
        ctx_keyword: Node<'a>,
        variable: Node<'a>,
    ) -> Node<'a> {
        match variable.spec_as_variable() {
            Some(id) => Node::Variable(&(id.1, &id.0.merged(self.spec_pos(ctx_keyword)))),
            None => Node::Ignored(SyntaxKind::FunctionCtxTypeSpecifier),
        }
    }

    pub fn make_function_ctx_type_specifier(
        &self,
        ctx_keyword: Node<'a>,
        variable: Node<'a>,
    ) -> (r: Node<'a>)
        requires
            self.wf(),
        ensures
            r == self.spec_make_function_ctx(ctx_keyword, variable),
    {
        match variable.as_variable() {
            Some(Id(pos, name)) => {
                let pos = self.merge(Some(pos), Some(self.get_pos(ctx_keyword)));
                Node::Variable(self.allocate((name, pos)))
            },
            None => Node::Ignored(SyntaxKind::FunctionCtxTypeSpecifier),
        }
    }

    /// Once the name of a class or of a trait has been read, `self` in front of
    /// a type constant stands for it. It points to the name of a class, but in a
    /// trait to itself.
    pub proof fn law_position_of_self(
        &self,
        token: CompactToken,
        this: &'a (&'a [u8], &'a Pos<'a>),
    )
        requires
            token.kind == TokenKind::Name || token.kind == TokenKind::XHPClassName,
            begins_class(self.previous_token_kind),
            self.classish_name_builder is NotInClassish,
            this.0@ == "self".spec_bytes(),
        ensures
            ({
                let after = DirectDeclSmartConstructors {
                    classish_name_builder: self.spec_classish_after(token),
                    ..*self
                };
                let name = after.classish_name_builder.current()->Some_0.0;
                let pos: &'a Pos<'a> = if self.previous_token_kind == TokenKind::Trait {
                    this.1
                } else {
                    &self.spec_compact_pos(token)
                };
                after.spec_type_constant_root(Node::Name(this)) == Some(
                    &hinted(this.1, plain_apply((pos, name))),
                )
            }),
    {
    }
}

/// The name of a shape field is of the same form as a type has it, with the
/// same text and position.
pub proof fn law_shape_field_names<'a>(field: ShapeField<'a>)
    ensures
        field.0 matches ShapeFieldName::SFlitInt(of) ==> t_shape_field_name(field).0
            == TshapeFieldName::TSFlitInt(of),
        field.0 matches ShapeFieldName::SFlitStr(of) ==> t_shape_field_name(field).0
            == TshapeFieldName::TSFlitStr(of),
        field.0 matches ShapeFieldName::SFclassConst(of) ==> (t_shape_field_name(
            field,
        ).0 matches TshapeFieldName::TSFclassConst(read) && read.0.0 == of.0.0 && read.0.1 == of.0.1
            && read.1 == *of.1),
{
}

/// The fields of a shape keep their order and their types; what else stands
/// among them is passed over.
pub proof fn law_shape_fields_in_order<'a>(nodes: Seq<Node<'a>>, node: Node<'a>)
    ensures
        shape_fields(Seq::<Node<'a>>::empty()).len() == 0,
        node matches Node::ShapeFieldSpecifier(field) ==> shape_fields(nodes.push(node))
            == shape_fields(nodes).push((t_shape_field_name(*field.name), field.type_)),
        !(node is ShapeFieldSpecifier) ==> shape_fields(nodes.push(node)) == shape_fields(nodes),
{
    assert(nodes.push(node).drop_last() =~= nodes);
}

/// A context whose last part begins with a lower-case letter is the one of that
/// name among the built-in contexts; any other context keeps its name.
pub proof fn law_names_of_contexts(name: Seq<u8>)
    ensures
        ({
            let last = after_last(trim_end(name, BACKSLASH), BACKSLASH);
            &&& begins_lowercase(last) ==> "\\HH\\Contexts\\".spec_bytes().is_prefix_of(
                context_bytes(name),
            ) && last.is_suffix_of(context_bytes(name)) && context_bytes(name).len()
                == "\\HH\\Contexts\\".spec_bytes().len() + last.len()
            &&& !begins_lowercase(last) ==> context_bytes(name) == name
        }),
{
    let last = after_last(trim_end(name, BACKSLASH), BACKSLASH);
    let front = "\\HH\\Contexts\\".spec_bytes();
    let whole = front + last;
    assert(front =~= whole.subrange(0, front.len() as int));
    assert(last =~= whole.subrange(whole.len() - last.len(), whole.len() as int));
}

/// A context keeps its reason, its position and its arguments; one that depends
/// on a variable, or is no application, stays as it is.
pub proof fn law_contexts_as_types<'a>(ty: &'a Ty<'a>)
    ensures
        ({
            let depends = ty.1 matches Ty_::Tapply(of) && of.0.1@.len() > 0 && of.0.1@[0] == DOLLAR;
            &&& !(ty.1 is Tapply) || depends ==> context_of(ty) == ty
            &&& ty.1 matches Ty_::Tapply(of) ==> !depends ==> context_of(ty).0 == ty.0 && (
            context_of(ty).1 matches Ty_::Tapply(read) && read.0.0 == of.0.0 && read.0.1
                == slice_of::<'a>(context_bytes(of.0.1@)) && read.1 == of.1)
        }),
{
}

/// A separator behind an item is dropped.
pub proof fn law_items_without_separators<'a>(node: Node<'a>)
    ensures
        node matches Node::ListItem(item) ==> item_of(node) == item.0,
        !(node is ListItem) ==> item_of(node) == node,
{
}

impl<
    'a,
    'text,
    S: SourceTextAllocator<'text, 'a>,
    H: Fn(Query<'a, 'text>) -> Answer<'a, 'text>,
> DirectDeclSmartConstructors<'a, 'text, S, H> {
    /// A type that cannot be read is any type.
    pub proof fn law_types_or_any(&self, node: Node<'a>, pos: &'a Pos<'a>)
        ensures
            match self.spec_node_to_ty(node) {
                Some(ty) => self.spec_ty_or_any(node, pos) == ty && self.spec_ty_or_tany(node)
                    == ty,
                None => self.spec_ty_or_any(node, pos).1 == Ty_::<'a>::Tany && *self.spec_ty_or_any(
                    node,
                    pos,
                ).0 == Reason::RwitnessFromDecl(pos) && self.spec_ty_or_tany(node).1 == Ty_::<
                    'a,
                >::Tany && *self.spec_ty_or_tany(node).0 is Rnone,
            },
    {
    }

    /// A name with type arguments is that type parameter where one of the name
    /// is in scope, else that class, applied to the arguments in their order.
    /// `vec_or_dict` takes the type of its values, behind that of its keys or
    /// alone.
    pub proof fn law_generic_types_as_written(&self, class_type: Node<'a>, type_arguments: Node<'a>)
        ensures
            ({
                let node = self.spec_make_generic_type_specifier(class_type, type_arguments);
                let targs = type_arguments.elements();
                &&& self.spec_expect_name(class_type) is None ==> node is Ignored
                &&& self.spec_expect_name(class_type) matches Some(id) ==> {
                    let bare = trim_start(id.1@, BACKSLASH);
                    let last = after_last(id.1@, BACKSLASH);
                    let either = bare == "vec_or_dict".spec_bytes() || bare
                        == "varray_or_darray".spec_bytes();
                    let pos = &id.0.merged(self.spec_pos(type_arguments));
                    &&& node matches Node::Ty(ty) && {
                        &&& *ty.0 == Reason::Rhint(pos)
                        &&& either && targs.len() == 2 ==> (ty.1 matches Ty_::TvecOrDict(of)
                            && of.0 == self.spec_ty_or_any(targs[0], id.0) && of.1
                            == self.spec_ty_or_any(targs[1], id.0))
                        &&& either && targs.len() == 1 ==> (ty.1 matches Ty_::TvecOrDict(of)
                            && *of.0 == missing_key(pos) && of.1 == self.spec_ty_or_any(
                            targs[0],
                            id.0,
                        ))
                        &&& either && targs.len() != 1 && targs.len() != 2 ==> ty.1 is Tany
                        &&& !either && self.spec_in_scope(last) ==> (ty.1 matches Ty_::Tgeneric(of)
                            && of.0 == slice_of::<'a>(last) && of.1@ == self.spec_tys(targs))
                        &&& !either && !self.spec_in_scope(last) ==> ty.1 == applied(
                            (id.0, self.spec_elaborate_raw_id(id.1)),
                            self.spec_tys(targs),
                            pos,
                        )
                    }
                }
            }),
    {
    }

    /// Tuples, unions and intersections hold their types in their order, each in
    /// the form of its own, from one parenthesis to the other.
    pub proof fn law_tuples_unions_and_intersections(
        &self,
        left_paren: Node<'a>,
        tys: Node<'a>,
        right_paren: Node<'a>,
    )
        ensures
            ({
                let reason = Reason::Rhint(&self.spec_merge_positions(left_paren, right_paren));
                &&& self.spec_make_tuple(left_paren, tys, right_paren) matches Node::Ty(ty)
                    && *ty.0 == reason && (ty.1 matches Ty_::Ttuple(of) && of@ == self.spec_tys(
                    tys.elements(),
                ))
                &&& self.spec_make_union(left_paren, tys, right_paren) matches Node::Ty(ty)
                    && *ty.0 == reason && (ty.1 matches Ty_::Tunion(of) && of@
                    == self.spec_item_tys(tys.elements()))
                &&& self.spec_make_intersection(left_paren, tys, right_paren) matches Node::Ty(ty)
                    && *ty.0 == reason && (ty.1 matches Ty_::Tintersection(of) && of@
                    == self.spec_item_tys(tys.elements()))
            }),
    {
    }

    /// The types of a list with separators are those of its items, in their
    /// order.
    pub proof fn law_item_types_in_order(&self, nodes: Seq<Node<'a>>, node: Node<'a>)
        ensures
            ({
                let item = match node {
                    Node::ListItem(of) => of.0,
                    _ => node,
                };
                &&& self.spec_item_tys(Seq::<Node<'a>>::empty()).len() == 0
                &&& self.spec_node_to_ty(item) matches Some(ty) ==> self.spec_item_tys(
                    nodes.push(node),
                ) == self.spec_item_tys(nodes).push(ty)
                &&& self.spec_node_to_ty(item) is None ==> self.spec_item_tys(nodes.push(node))
                    == self.spec_item_tys(nodes)
            }),
    {
        assert(nodes.push(node).drop_last() =~= nodes);
    }

    /// `?T` is the option of `T` and `~T` its like type, from the mark to the
    /// end of `T`.
    pub proof fn law_nullable_and_like_types(&self, mark: Node<'a>, hint: Node<'a>)
        ensures
            match self.spec_node_to_ty(hint) {
                Some(ty) => {
                    let reason = Reason::Rhint(&self.spec_merge_positions(mark, hint));
                    &&& self.spec_make_nullable(mark, hint) matches Node::Ty(read) && *read.0
                        == reason && read.1 == Ty_::Toption(ty)
                    &&& self.spec_make_like(mark, hint) matches Node::Ty(read) && *read.0 == reason
                        && read.1 == Ty_::Tlike(ty)
                },
                None => self.spec_make_nullable(mark, hint) is Ignored && self.spec_make_like(
                    mark,
                    hint,
                ) is Ignored,
            },
    {
    }

    /// A shape is open exactly where it ends with three dots, and has the fields
    /// that are written.
    pub proof fn law_shapes_as_written(
        &self,
        shape: Node<'a>,
        fields: Node<'a>,
        open: Node<'a>,
        rparen: Node<'a>,
    )
        ensures
            self.spec_make_shape(shape, fields, open, rparen) matches Node::Ty(ty) && *ty.0
                == Reason::Rhint(&self.spec_merge_positions(shape, rparen)) && (
            ty.1 matches Ty_::Tshape(of) && {
                &&& of.0 == ShapeKind::OpenShape <==> open.spec_token_kind() == Some(
                    TokenKind::DotDotDot,
                )
                &&& of.0 == ShapeKind::ClosedShape <==> open.spec_token_kind() != Some(
                    TokenKind::DotDotDot,
                )
                &&& of.1@ == shape_fields(fields.elements())
            }),
    {
    }

    /// A field of a shape has the type that is written, and is optional exactly
    /// where a question mark stands in front of it.
    pub proof fn law_shape_field_as_written(
        &self,
        question_token: Node<'a>,
        name: Node<'a>,
        type_: Node<'a>,
    )
        ensures
            ({
                let node = self.spec_make_field_specifier(question_token, name, type_);
                &&& node is ShapeFieldSpecifier <==> self.spec_node_to_ty(type_) is Some
                    && self.spec_make_shape_field_name(name) is Some
                &&& !(node is ShapeFieldSpecifier) ==> node is Ignored
                &&& node matches Node::ShapeFieldSpecifier(field) ==> {
                    &&& Some(field.name.0) == self.spec_make_shape_field_name(name)
                    &&& Some(field.type_.ty) == self.spec_node_to_ty(type_)
                    &&& field.type_.optional <==> !(question_token is Ignored)
                }
            }),
    {
    }

    /// A shape field is named by a literal, kept as a string with its position,
    /// or by a constant of a class. `self` is the class that is being read.
    pub proof fn law_names_of_shape_fields(&self, name: Node<'a>)
        ensures
            ({
                let read = self.spec_make_shape_field_name(name);
                &&& name matches Node::StringLiteral(of) ==> (read matches Some(
                    ShapeFieldName::SFlitStr(field),
                ) && field.0 == of.1 && field.1 == of.0)
                &&& name matches Node::IntLiteral(of) ==> (read matches Some(
                    ShapeFieldName::SFlitStr(field),
                ) && field.0 == of.1 && field.1 == of.0)
                &&& name matches Node::Expr(expr) ==> {
                    &&& !(expr.1 is ClassConst) ==> read is None
                    &&& expr.1 matches Expr_::ClassConst(of) ==> {
                        &&& of.0.1 matches ClassId_::CI(class) ==> (read matches Some(
                            ShapeFieldName::SFclassConst(field),
                        ) && field.0 == *class && field.1 == of.1)
                        &&& of.0.1 is CIself ==> match self.classish_name_builder {
                            ClassishNameBuilder::InClassish(class) => read matches Some(
                                ShapeFieldName::SFclassConst(field),
                            ) && field.0.0 == of.0.0 && field.0.1 == class.0 && field.1 == of.1,
                            ClassishNameBuilder::NotInClassish => read is None,
                        }
                        &&& of.0.1 is CIparent || of.0.1 is CIstatic || of.0.1 is CIexpr
                            ==> read is None
                    }
                }
                &&& !(name is StringLiteral) && !(name is IntLiteral) && !(name is Expr)
                    ==> read is None
            }),
    {
    }

    /// `classname` alone is a string; with an argument it is the class of that
    /// name, applied to it.
    pub proof fn law_classname_types(&self, classname: Node<'a>, targ: Node<'a>, gt: Node<'a>)
        ensures
            ({
                let node = self.spec_make_classname_type_specifier(classname, targ, gt);
                &&& classname.spec_as_id() is None ==> node is Ignored
                &&& classname.spec_as_id() matches Some(id) ==> {
                    &&& gt is Ignored ==> (node matches Node::Ty(ty) && ty.1 == Ty_::<'a>::Tprim(
                        Tprim::Tstring,
                    ) && *ty.0 == Reason::Rhint(id.0))
                    &&& !(gt is Ignored) ==> node == self.spec_make_apply(
                        (id.0, self.spec_elaborate_raw_id(id.1)),
                        targ,
                        &self.spec_merge_positions(classname, gt),
                    )
                }
            }),
    {
    }

    /// `varray<T>` is an `\HH\vec` of `T` and `darray<K, V>` an `\HH\dict` from
    /// `K` to `V`.
    pub proof fn law_varray_and_darray(
        &self,
        keyword: Node<'a>,
        key: Node<'a>,
        value: Node<'a>,
        greater_than: Node<'a>,
    )
        ensures
            ({
                let reason = Reason::Rhint(&self.spec_merge_positions(keyword, greater_than));
                let pos = &self.spec_pos(keyword);
                &&& self.spec_make_varray(keyword, value, greater_than) matches Node::Ty(ty)
                    && *ty.0 == reason && (ty.1 matches Ty_::Tapply(of) && of.0.0 == pos && of.0.1
                    == lit("\\HH\\vec") && of.1@ == seq![self.spec_ty_or_any(value, pos)])
                &&& self.spec_make_darray(keyword, key, value, greater_than) matches Node::Ty(ty)
                    && *ty.0 == reason && (ty.1 matches Ty_::Tapply(of) && of.0.0 == pos && of.0.1
                    == lit("\\HH\\dict") && of.1@ == seq![
                    self.spec_ty_or_tany(key),
                    self.spec_ty_or_tany(value),
                ])
            }),
    {
    }

    /// A parameter of a function type has the type that is written and no name.
    /// It is `inout` and `readonly` exactly where that is written, and never has
    /// a default value.
    pub proof fn law_parameter_of_a_function_type(&self, nodes: Seq<Node<'a>>, node: Node<'a>)
        ensures
            ({
                let before = self.spec_closure_params(nodes);
                let after = self.spec_closure_params(nodes.push(node));
                let arity = self.spec_closure_arity(nodes);
                let arity_after = self.spec_closure_arity(nodes.push(node));
                &&& self.spec_closure_params(Seq::<Node<'a>>::empty()).len() == 0
                &&& self.spec_closure_arity(Seq::<Node<'a>>::empty()) is Fstandard
                &&& !(node is FunParam) ==> after == before && arity_after == arity
                &&& node matches Node::FunParam(decl) ==> {
                    &&& decl.variadic ==> after == before
                    &&& decl.variadic && arity is Fstandard ==> arity_after is Fvariadic
                    &&& !decl.variadic || arity is Fvariadic ==> arity_after == arity
                    &&& !decl.variadic ==> after.len() == before.len() + 1 && after.drop_last()
                        == before
                    &&& !decl.variadic || arity is Fstandard ==> {
                        let param = if decl.variadic {
                            arity_after->Fvariadic_0
                        } else {
                            after.last()
                        };
                        &&& param.name is None
                        &&& *param.pos == self.spec_pos(decl.hint)
                        &&& param.type_.enforced == Enforcement::Unenforced
                        &&& param.type_.type_ == self.spec_ty_or_tany(decl.hint)
                        &&& param.flags.inout <==> decl.kind == ParamMode::FPinout
                        &&& param.flags.readonly <==> decl.readonly
                        &&& !param.flags.has_default
                        &&& !param.flags.accept_disposable && !param.flags.ifc_external
                        &&& !param.flags.ifc_can_call && !param.flags.via_label
                    }
                }
            }),
    {
        assert(nodes.push(node).drop_last() =~= nodes);
        let before = self.spec_closure_params(nodes);
        let after = self.spec_closure_params(nodes.push(node));
        if after.len() == before.len() + 1 {
            assert(after.drop_last() =~= before);
        }
    }

    /// A function type has the parameters, the return type and the capability
    /// that are written, and returns or is `readonly` exactly where that is
    /// written. It has no type parameters and is neither asynchronous nor a
    /// generator.
    pub proof fn law_function_types_as_written(
        &self,
        outer_left_paren: Node<'a>,
        readonly_keyword: Node<'a>,
        parameter_list: Node<'a>,
        capability: Node<'a>,
        readonly_ret: Node<'a>,
        return_type: Node<'a>,
        outer_right_paren: Node<'a>,
    )
        ensures
            ({
                let node = self.spec_make_closure_type_specifier(
                    outer_left_paren,
                    readonly_keyword,
                    parameter_list,
                    capability,
                    readonly_ret,
                    return_type,
                    outer_right_paren,
                );
                let pos = &self.spec_merge_positions(outer_left_paren, outer_right_paren);
                &&& self.spec_node_to_ty(return_type) is None ==> node is Ignored
                &&& self.spec_node_to_ty(return_type) matches Some(ret) ==> (
                node matches Node::Ty(ty) && *ty.0 == Reason::Rhint(pos) && (
                ty.1 matches Ty_::Tfun(ft) && {
                    &&& ft.ret.type_ == ret
                    &&& ft.ret.enforced == Enforcement::Unenforced
                    &&& ft.params@ == self.spec_closure_params(parameter_list.elements())
                    &&& ft.arity == self.spec_closure_arity(parameter_list.elements())
                    &&& ft.implicit_params == self.spec_implicit_params(capability, pos)
                    &&& ft.tparams@.len() == 0 && ft.where_constraints@.len() == 0
                    &&& ft.flags.returns_readonly <==> readonly_ret.spec_token_kind() == Some(
                        TokenKind::Readonly,
                    )
                    &&& ft.flags.readonly_this <==> readonly_keyword.spec_token_kind() == Some(
                        TokenKind::Readonly,
                    )
                    &&& !ft.flags.async_ && !ft.flags.generator && !ft.flags.return_disposable
                    &&& ft.ifc_decl == IfcFunDecl::<'a>::FDPolicied(Some(lit("PUBLIC")))
                }))
            }),
    {
    }

    /// The declaration of a parameter of a function type keeps its hint, and is
    /// `inout` or `readonly` exactly where that is written.
    pub proof fn law_closure_parameter_as_written(
        &self,
        inout: Node<'a>,
        readonly: Node<'a>,
        hint: Node<'a>,
    )
        ensures
            self.spec_make_closure_parameter(inout, readonly, hint) matches Node::FunParam(decl)
                && {
                &&& decl.hint == hint
                &&& *decl.pos == self.spec_pos(hint)
                &&& decl.kind == ParamMode::FPinout <==> inout.spec_token_kind() == Some(
                    TokenKind::Inout,
                )
                &&& decl.readonly <==> readonly.spec_token_kind() == Some(TokenKind::Readonly)
                &&& !decl.variadic
                &&& decl.initializer is Ignored && decl.attributes is Ignored
                    && decl.visibility is Ignored
            },
    {
    }

    /// `T::C` is the constant `C` of the type `T`, with one reason for every step
    /// of the path, which reaches from `T` to `C`.
    pub proof fn law_type_constants_as_written(&self, ty: Node<'a>, constant_name: Node<'a>)
        ensures
            ({
                let node = self.spec_make_type_constant(ty, constant_name);
                let reason = &Reason::Rhint(&self.spec_merge_positions(ty, constant_name));
                let is_self = ty matches Node::Name(of) && of.0@ == "self".spec_bytes()
                    && self.classish_name_builder is InClassish;
                &&& self.spec_expect_name(constant_name) is None ==> node is Ignored
                &&& !is_self && self.spec_node_to_ty(ty) is None ==> node is Ignored
                &&& self.spec_expect_name(constant_name) matches Some(id) ==> !is_self ==> (
                self.spec_node_to_ty(ty) matches Some(root) ==> (node matches Node::Ty(read)
                    && read.0 == reason && (read.1 matches Ty_::Taccess(of) && of.1.0 == id.0
                    && of.1.1 == id.1 && *of.0 == with_reasons(*root, reason))))
                &&& self.spec_expect_name(constant_name) matches Some(id) ==> is_self ==> (
                node matches Node::Ty(read) && read.0 == reason && (
                read.1 matches Ty_::Taccess(of) && of.1.0 == id.0 && of.1.1 == id.1 && of.0.0
                    == reason && (of.0.1 matches Ty_::Tapply(class) && class.0.1
                    == self.classish_name_builder->InClassish_0.0 && class.1@.len() == 0)))
            }),
    {
    }

    /// That a type is soft is forgotten, or makes a like type of it where the
    /// options say so. Of attributes in front of a type only `__Soft` alone does
    /// that; with others the type stays as it is.
    pub proof fn law_soft_types(&self, mark: Node<'a>, attributes: Node<'a>, hint: Node<'a>)
        ensures
            ({
                let as_like = self.opts.interpret_soft_types_as_like_types;
                let soft = attributes matches Node::BracketedList(list) && list.1@.len() == 1 && (
                list.1@[0] matches Node::Attribute(attribute) && attribute.name.1@
                    == "__Soft".spec_bytes());
                &&& !soft ==> self.spec_make_attributized(attributes, hint) == hint
                &&& self.spec_node_to_ty(hint) is None ==> self.spec_make_soft(
                    mark,
                    hint,
                ) is Ignored && (soft ==> self.spec_make_attributized(attributes, hint) is Ignored)
                &&& self.spec_node_to_ty(hint) matches Some(ty) ==> {
                    &&& self.spec_make_soft(mark, hint) matches Node::Ty(read) && *read.0
                        == Reason::Rhint(&self.spec_merge_positions(mark, hint)) && (as_like
                        ==> read.1 == Ty_::Tlike(ty)) && (!as_like ==> read.1 == ty.1)
                    &&& soft ==> (self.spec_make_attributized(attributes, hint) matches Node::Ty(
                        read,
                    ) && *read.0 == Reason::Rhint(
                        &attributes->BracketedList_0.0.merged(
                            *attributes->BracketedList_0.2,
                        ).merged(self.spec_pos(hint)),
                    ) && (as_like ==> read.1 == Ty_::Tlike(ty)) && (!as_like ==> read.1 == ty.1))
                }
            }),
    {
    }

    /// `vec`, `dict` and `keyset` are the classes of these names, applied to
    /// their arguments.
    pub proof fn law_keyword_collections(
        &self,
        keyword: Node<'a>,
        type_arguments: Node<'a>,
        right_angle: Node<'a>,
        otherwise: SyntaxKind,
    )
        ensures
            ({
                let node = self.spec_keyword_apply(
                    keyword,
                    type_arguments,
                    right_angle,
                    otherwise,
                );
                &&& self.spec_expect_name(keyword) is None ==> node == Node::<'a>::Ignored(
                    otherwise,
                )
                &&& self.spec_expect_name(keyword) matches Some(id) ==> (node matches Node::Ty(ty)
                    && *ty.0 == Reason::Rhint(&id.0.merged(self.spec_pos(right_angle))) && ty.1
                    == applied(
                    (id.0, self.spec_elaborate_raw_id(id.1)),
                    self.spec_tys(type_arguments.elements()),
                    &id.0.merged(self.spec_pos(right_angle)),
                ))
            }),
    {
    }

    /// The contexts in brackets are kept in their order, as one capability. `_`
    /// is the context that is left open; any other one is read as a type.
    pub proof fn law_contexts_in_brackets(
        &self,
        left_bracket: Node<'a>,
        nodes: Seq<Node<'a>>,
        node: Node<'a>,
        tys: Node<'a>,
        right_bracket: Node<'a>,
    )
        ensures
            ({
                let item = match node {
                    Node::ListItem(of) => of.0,
                    _ => node,
                };
                let is_open = self.spec_expect_name(item) matches Some(id) && id.1@
                    == "_".spec_bytes();
                let before = self.spec_contexts(nodes);
                let after = self.spec_contexts(nodes.push(node));
                &&& self.spec_contexts(Seq::<Node<'a>>::empty()).len() == 0
                &&& is_open ==> after.drop_last() == before && after.len() == before.len() + 1 && (
                after.last().1 matches Ty_::Tapply(of) && of.0.1 == lit("_") && of.0.0
                    == self.spec_expect_name(item)->Some_0.0 && of.1@.len() == 0 && *after.last().0
                    == Reason::Rhint(of.0.0))
                &&& !is_open && self.spec_node_to_ty(item) is None ==> after == before
                &&& !is_open ==> (self.spec_node_to_ty(item) matches Some(ty) ==> after
                    == before.push(context_of(ty)))
                &&& self.spec_make_contexts(left_bracket, tys, right_bracket) matches Node::Ty(ty)
                    && *ty.0 == Reason::Rhint(
                    &self.spec_merge_positions(left_bracket, right_bracket),
                ) && (ty.1 matches Ty_::Tintersection(of) && of@ == self.spec_contexts(
                    tys.elements(),
                ))
            }),
    {
        assert(nodes.push(node).drop_last() =~= nodes);
        let before = self.spec_contexts(nodes);
        let after = self.spec_contexts(nodes.push(node));
        if after.len() == before.len() + 1 {
            assert(after.drop_last() =~= before);
        }
    }

    /// `ctx $f` keeps the text of the variable, and reaches from the keyword to
    /// it.
    pub proof fn law_context_of_a_function(&self, ctx_keyword: Node<'a>, variable: Node<'a>)
        ensures
            match variable.spec_as_variable() {
                Some(id) => self.spec_make_function_ctx(ctx_keyword, variable) matches
                    Node::Variable(of) && of.0 == id.1 && *of.1 == id.0.merged(
                    self.spec_pos(ctx_keyword),
                ),
                None => self.spec_make_function_ctx(ctx_keyword, variable) is Ignored,
            },
    {
    }
}

impl<
    'a,
    'text,
    S: SourceTextAllocator<'text, 'a>,
    H: Fn(Query<'a, 'text>) -> Answer<'a, 'text>,
> DirectDeclSmartConstructors<'a, 'text, S, H> {
    /// The arguments of a type keep their order, between the positions of their
    /// brackets. A specifier of one word is that word, and `tuple<..>` is read
    /// as a class.
    pub proof fn law_arguments_and_simple_specifiers(
        &self,
        less_than: Node<'a>,
        arguments: Node<'a>,
        greater_than: Node<'a>,
        in_brackets: Node<'a>,
        simple: Node<'a>,
        keyword: Node<'a>,
        explicit: Node<'a>,
    )
        requires
            self.wf(),
            call_ensures(
                Self::make_type_arguments,
                (self, less_than, arguments, greater_than),
                in_brackets,
            ),
            call_ensures(Self::make_simple_type_specifier, (self, arguments), simple),
            call_ensures(
                Self::make_tuple_type_explicit_specifier,
                (self, keyword, less_than, arguments, greater_than),
                explicit,
            ),
        ensures
            in_brackets matches Node::BracketedList(list) && *list.0 == self.spec_pos(less_than)
                && list.1@ == arguments.elements() && *list.2 == self.spec_pos(greater_than),
            simple == arguments,
            explicit == self.spec_make_apply(
                (&self.spec_pos(keyword), lit("\\tuple")),
                arguments,
                &self.spec_pos(greater_than),
            ),
    {
    }
}

} // verus!
