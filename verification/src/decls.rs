//! The declarations of a file.

use crate::arena::Items;
use crate::source::Pos;
use crate::str_map::StrMap;
use crate::syntax::{
    ClassishKind, Mode, Module_, PosId, RecordFieldReq, TypedefVisibility, Visibility, XhpAttrTag,
    XhpEnumValue,
};
use crate::types::{Tparam, Ty, UserAttribute, WhereConstraint};
use vstd::prelude::*;

verus! {

/// Where the class of a constant reference comes from.
#[derive(Copy, Clone)]
pub enum ClassConstFrom<'a> {
    Self_,
    From(&'a [u8]),
}

/// A reference to a class constant in the initializer of a constant.
#[derive(Copy, Clone)]
pub struct ClassConstRef<'a>(pub ClassConstFrom<'a>, pub &'a [u8]);

#[derive(Copy, Clone, PartialEq, Eq, Structural, Debug)]
pub enum ClassConstKind {
    /// Whether the abstract constant has a default value.
    CCAbstract(bool),
    CCConcrete,
}

#[derive(Copy, Clone)]
pub struct ShallowClassConst<'a> {
    pub abstract_: ClassConstKind,
    pub name: PosId<'a>,
    pub type_: &'a Ty<'a>,
    pub refs: Items<'a, ClassConstRef<'a>>,
}

#[derive(Copy, Clone, PartialEq, Eq, Structural, Debug)]
pub struct XhpAttr {
    pub tag: Option<XhpAttrTag>,
    pub has_default: bool,
}

#[derive(Copy, Clone, PartialEq, Eq, Structural, Debug)]
pub struct PropFlags {
    pub const_: bool,
    pub lateinit: bool,
    pub lsb: bool,
    pub needs_init: bool,
    pub abstract_: bool,
    pub readonly: bool,
    pub php_std_lib: bool,
}

#[derive(Copy, Clone)]
pub struct ShallowProp<'a> {
    pub xhp_attr: Option<XhpAttr>,
    pub name: PosId<'a>,
    pub type_: Option<&'a Ty<'a>>,
    pub visibility: Visibility,
    pub flags: PropFlags,
}

#[derive(Copy, Clone, PartialEq, Eq, Structural, Debug)]
pub struct MethodFlags {
    pub abstract_: bool,
    pub final_: bool,
    pub override_: bool,
    pub dynamically_callable: bool,
    pub php_std_lib: bool,
}

#[derive(Copy, Clone)]
pub struct ShallowMethod<'a> {
    pub name: PosId<'a>,
    pub type_: &'a Ty<'a>,
    pub visibility: Visibility,
    pub deprecated: Option<&'a [u8]>,
    pub flags: MethodFlags,
}

#[derive(Copy, Clone)]
pub struct AbstractTypeconst<'a> {
    pub as_constraint: Option<&'a Ty<'a>>,
    pub super_constraint: Option<&'a Ty<'a>>,
    pub default: Option<&'a Ty<'a>>,
}

#[derive(Copy, Clone)]
pub struct ConcreteTypeconst<'a> {
    pub tc_type: &'a Ty<'a>,
}

#[derive(Copy, Clone)]
pub enum Typeconst<'a> {
    TCAbstract(&'a AbstractTypeconst<'a>),
    TCConcrete(&'a ConcreteTypeconst<'a>),
}

#[derive(Copy, Clone)]
pub struct ShallowTypeconst<'a> {
    pub name: PosId<'a>,
    pub kind: Typeconst<'a>,
    pub enforceable: (&'a Pos<'a>, bool),
    pub reifiable: Option<&'a Pos<'a>>,
    pub is_ctx: bool,
}

#[derive(Copy, Clone)]
pub struct EnumType<'a> {
    pub base: &'a Ty<'a>,
    pub constraint: Option<&'a Ty<'a>>,
    pub includes: Items<'a, &'a Ty<'a>>,
}

#[derive(Copy, Clone)]
pub struct ShallowClass<'a> {
    pub mode: Mode,
    pub final_: bool,
    pub is_xhp: bool,
    pub has_xhp_keyword: bool,
    pub kind: ClassishKind,
    pub module: Option<&'a Module_<'a>>,
    pub name: PosId<'a>,
    pub tparams: Items<'a, &'a Tparam<'a>>,
    pub where_constraints: Items<'a, &'a WhereConstraint<'a>>,
    pub extends: Items<'a, &'a Ty<'a>>,
    pub uses: Items<'a, &'a Ty<'a>>,
    pub xhp_attr_uses: Items<'a, &'a Ty<'a>>,
    pub xhp_enum_values: StrMap<'a, Items<'a, XhpEnumValue<'a>>>,
    pub req_extends: Items<'a, &'a Ty<'a>>,
    pub req_implements: Items<'a, &'a Ty<'a>>,
    pub implements: Items<'a, &'a Ty<'a>>,
    pub support_dynamic_type: bool,
    pub consts: Items<'a, &'a ShallowClassConst<'a>>,
    pub typeconsts: Items<'a, &'a ShallowTypeconst<'a>>,
    pub props: Items<'a, &'a ShallowProp<'a>>,
    pub sprops: Items<'a, &'a ShallowProp<'a>>,
    pub constructor: Option<&'a ShallowMethod<'a>>,
    pub static_methods: Items<'a, &'a ShallowMethod<'a>>,
    pub methods: Items<'a, &'a ShallowMethod<'a>>,
    pub user_attributes: Items<'a, &'a UserAttribute<'a>>,
    pub enum_type: Option<&'a EnumType<'a>>,
}

#[derive(Copy, Clone)]
pub struct FunElt<'a> {
    pub module: Option<&'a Module_<'a>>,
    pub internal: bool,
    pub deprecated: Option<&'a [u8]>,
    pub type_: &'a Ty<'a>,
    pub pos: &'a Pos<'a>,
    pub php_std_lib: bool,
    pub support_dynamic_type: bool,
}

#[derive(Copy, Clone)]
pub struct TypedefType<'a> {
    pub module: Option<&'a Module_<'a>>,
    pub pos: &'a Pos<'a>,
    pub vis: TypedefVisibility,
    pub tparams: Items<'a, &'a Tparam<'a>>,
    pub constraint: Option<&'a Ty<'a>>,
    pub type_: &'a Ty<'a>,
    pub is_ctx: bool,
}

#[derive(Copy, Clone)]
pub struct ConstDecl<'a> {
    pub pos: &'a Pos<'a>,
    pub type_: &'a Ty<'a>,
}

#[derive(Copy, Clone)]
pub struct RecordDefType<'a> {
    pub module: Option<&'a Module_<'a>>,
    pub name: PosId<'a>,
    pub extends: Option<PosId<'a>>,
    pub fields: Items<'a, (PosId<'a>, RecordFieldReq)>,
    pub abstract_: bool,
    pub pos: &'a Pos<'a>,
}

#[derive(Copy, Clone)]
pub enum Decl<'a> {
    Class(&'a ShallowClass<'a>),
    Fun(&'a FunElt<'a>),
    Typedef(&'a TypedefType<'a>),
    Const(&'a ConstDecl<'a>),
    Record(&'a RecordDefType<'a>),
}

/// The declarations that have been read, in the order in which they were
/// added, each under the name it declares.
#[derive(Clone)]
pub struct Decls<'a> {
    pub entries: Vec<(&'a [u8], Decl<'a>)>,
}

impl<'a> View for Decls<'a> {
    type V = Seq<(&'a [u8], Decl<'a>)>;

    open spec fn view(&self) -> Seq<(&'a [u8], Decl<'a>)> {
        self.entries@
    }
}

impl<'a> Decls<'a> {
    pub fn empty() -> (r: Self)
        ensures
            r@ == Seq::<(&'a [u8], Decl<'a>)>::empty(),
    {
        Decls { entries: Vec::new() }
    }

    pub fn add(&mut self, name: &'a [u8], decl: Decl<'a>)
        ensures
            final(self)@ == old(self)@.push((name, decl)),
    {
        self.entries.push((name, decl));
    }
}

} // verus!
