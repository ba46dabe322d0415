//! Function declarations and the parameters in them.

use crate::arena::{alloc_slice_in, lemma_items_of, lemma_slice_of, slice_of};
use crate::attributes::{attributes_in, bears, law_attributes_say_what_is_written, Attributes};
use crate::decls::{Decl, FunElt};
use crate::hints::{hinted, popped};
use crate::host::{Answer, Query};
use crate::node::{FunParamDecl, FunctionHeader, Node};
use crate::parser::{DirectDeclSmartConstructors, SourceTextAllocator};
use crate::syntax::{Id, ParamMode, PosId};
use crate::text::{literal, push_bytes, trim_start, trim_start_byte, BACKSLASH};
use crate::token::{SyntaxKind, TokenKind};
use crate::types::{Reason, Ty, Ty_};
use vstd::prelude::*;
use vstd::string::*;

verus! {

broadcast use {lemma_items_of, lemma_slice_of};

/// The name of a parameter, and whether three dots in front of it make it
/// variadic.
pub open spec fn param_name<'a>(name: Node<'a>) -> Option<(Id<'a>, bool)> {
    let (node, variadic) = match name {
        Node::ListItem(item) => (item.1, item.0.spec_is_token(TokenKind::DotDotDot)),
        _ => (name, false),
    };
    match node.spec_as_variable() {
        Some(id) => Some((id, variadic)),
        None => None,
    }
}

pub open spec fn param_mode<'a>(inout: Node<'a>) -> ParamMode {
    if inout.spec_is_token(TokenKind::Inout) {
        ParamMode::FPinout
    } else {
        ParamMode::FPnormal
    }
}

/// The header of a function.
pub open spec fn function_header<'a>(
    modifiers: Node<'a>,
    name: Node<'a>,
    type_params: Node<'a>,
    left_paren: Node<'a>,
    param_list: Node<'a>,
    capability: Node<'a>,
    readonly_return: Node<'a>,
    ret_hint: Node<'a>,
    where_constraints: Node<'a>,
) -> Node<'a> {
    Node::FunctionHeader(
        &FunctionHeader {
            name: if name is Ignored {
                left_paren
            } else {
                name
            },
            modifiers,
            type_params,
            param_list,
            capability,
            ret_hint,
            readonly_return,
            where_constraints,
        },
    )
}

pub open spec fn deprecated_bytes(name: Seq<u8>, message: Seq<u8>) -> Seq<u8> {
    "The function ".spec_bytes() + trim_start(name, BACKSLASH) + " is deprecated: ".spec_bytes()
        + message
}

/// The message about the use of a function that is deprecated.
pub open spec fn deprecated_function<'a>(name: Seq<u8>, message: Seq<u8>) -> &'a [u8] {
    slice_of(deprecated_bytes(name, message))
}

impl<
    'a,
    'text,
    S: SourceTextAllocator<'text, 'a>,
    H: Fn(Query<'a, 'text>) -> Answer<'a, 'text>,
> DirectDeclSmartConstructors<'a, 'text, S, H> {
    /// The hint of a parameter. Where the options have it, `<<__Soft>>` makes
    /// a like type of it.
    pub open spec fn spec_param_hint(&self, attributes: Node<'a>, hint: Node<'a>) -> Node<'a> {
        if self.opts.interpret_soft_types_as_like_types && attributes_in(attributes).soft {
            match hint {
                Node::Ty(ty) => Node::Ty(&hinted(&self.spec_pos(hint), Ty_::Tlike(ty))),
                _ => hint,
            }
        } else {
            hint
        }
    }

    pub open spec fn spec_make_parameter_declaration(
        &self,
        attributes: Node<'a>,
        visibility: Node<'a>,
        inout: Node<'a>,
        readonly: Node<'a>,
        hint: Node<'a>,
        name: Node<'a>,
        initializer: Node<'a>,
    ) -> Node<'a> {
        match param_name(name) {
            None => Node::Ignored(SyntaxKind::ParameterDeclaration),
            Some((id, variadic)) => Node::FunParam(
                &FunParamDecl {
                    attributes,
                    visibility,
                    kind: param_mode(inout),
                    readonly: readonly.spec_is_token(TokenKind::Readonly),
                    hint: self.spec_param_hint(attributes, hint),
                    pos: id.0,
                    name: Some(id.1),
                    variadic,
                    initializer,
                },
            ),
        }
    }

    pub fn make_parameter_declaration(
        &self,
        attributes: Node<'a>,
        visibility: Node<'a>,
        inout: Node<'a>,
        readonly: Node<'a>,
        hint: Node<'a>,
        name: Node<'a>,
        initializer: Node<'a>,
    ) -> (r: Node<'a>)
        requires
            self.wf(),
        ensures
            r == self.spec_make_parameter_declaration(
                attributes,
                visibility,
                inout,
                readonly,
                hint,
                name,
                initializer,
            ),
    {
        let (variadic, name) = match name {
            Node::ListItem(item) => (item.0.is_token(TokenKind::DotDotDot), item.1),
            _ => (false, name),
        };
        let Id(pos, name) = match name.as_variable() {
            Some(id) => id,
            None => return Node::Ignored(SyntaxKind::ParameterDeclaration),
        };
        let kind = if inout.is_token(TokenKind::Inout) {
            ParamMode::FPinout
        } else {
            ParamMode::FPnormal
        };
        let is_readonly = readonly.is_token(TokenKind::Readonly);
        let hint = if self.opts.interpret_soft_types_as_like_types && self.to_attributes(
            attributes,
        ).soft {
            match hint {
                Node::Ty(ty) => self.hint_ty(self.get_pos(hint), Ty_::Tlike(ty)),
                _ => hint,
            }
        } else {
            hint
        };
        Node::FunParam(
            self.allocate(
                FunParamDecl {
                    attributes,
                    visibility,
                    kind,
                    readonly: is_readonly,
                    hint,
                    pos,
                    name: Some(name),
                    variadic,
                    initializer,
                },
            ),
        )
    }

    pub open spec fn spec_make_variadic_parameter(&self, hint: Node<'a>, ellipsis: Node<'a>) -> Node<
        'a,
    > {
        Node::FunParam(
            &FunParamDecl {
                attributes: Node::Ignored(SyntaxKind::Missing),
                visibility: Node::Ignored(SyntaxKind::Missing),
                kind: ParamMode::FPnormal,
                readonly: false,
                hint,
                pos: match self.spec_pos_opt(hint) {
                    Some(pos) => pos,
                    None => &self.spec_pos(ellipsis),
                },
                name: None,
                variadic: true,
                initializer: Node::Ignored(SyntaxKind::Missing),
            },
        )
    }

    /// A variadic parameter without a name.
    pub fn make_variadic_parameter(
        &self,
        _inout: Node<'a>,
        hint: Node<'a>,
        ellipsis: Node<'a>,
    ) -> (r: Node<'a>)
        requires
            self.wf(),
        ensures
            r == self.spec_make_variadic_parameter(hint, ellipsis),
    {
        let pos = match self.get_pos_opt(hint) {
            Some(pos) => pos,
            None => self.get_pos(ellipsis),
        };
        Node::FunParam(
            self.allocate(
                FunParamDecl {
                    attributes: Node::Ignored(SyntaxKind::Missing),
                    visibility: Node::Ignored(SyntaxKind::Missing),
                    kind: ParamMode::FPnormal,
                    readonly: false,
                    hint,
                    pos,
                    name: None,
                    variadic: true,
                    initializer: Node::Ignored(SyntaxKind::Missing),
                },
            ),
        )
    }

    pub fn deprecation(&self, subject: &'static str, name: &[u8], message: &[u8]) -> (r: &'a [u8])
        ensures
            r@ == subject.spec_bytes() + name@ + " is deprecated: ".spec_bytes() + message@,
    {
        let mut buf: Vec<u8> = Vec::new();
        push_bytes(&mut buf, literal(subject));
        push_bytes(&mut buf, name);
        push_bytes(&mut buf, literal(" is deprecated: "));
        push_bytes(&mut buf, message);
        assert(buf@ =~= subject.spec_bytes() + name@ + " is deprecated: ".spec_bytes()
            + message@);
        alloc_slice_in(self.arena, buf.as_slice())
    }

    /// A function as a declaration keeps it.
    pub open spec fn spec_fun_elt(
        &self,
        attributes: Attributes<'a>,
        id: PosId<'a>,
        ty: &'a Ty<'a>,
    ) -> &'a FunElt<'a> {
        &FunElt {
            module: attributes.module,
            internal: attributes.internal,
            deprecated: match attributes.deprecated {
                Some(message) => Some(deprecated_function(id.1@, message@)),
                None => None,
            },
            type_: ty,
            pos: id.0,
            php_std_lib: attributes.php_std_lib,
            support_dynamic_type: self.opts.everything_sdt || attributes.support_dynamic_type,
        }
    }

    /// The name and the declaration of a function, where its header can be
    /// read.
    pub open spec fn spec_function(
        &self,
        attributes: Node<'a>,
        header: Node<'a>,
        body: Node<'a>,
    ) -> Option<(&'a [u8], &'a FunElt<'a>)> {
        match header {
            Node::FunctionHeader(header) => match self.spec_function_to_ty(
                false,
                attributes,
                *header,
                body,
            ) {
                Some(of) => Some(
                    (of.0.1, self.spec_fun_elt(attributes_in(attributes), of.0, of.1)),
                ),
                None => None,
            },
            _ => None,
        }
    }

    /// Whether the type parameters of a function can go out of scope, where
    /// its header can be read.
    pub open spec fn can_pop_header(&self, header: Node<'a>) -> bool {
        match header {
            Node::FunctionHeader(of) => self.spec_as_fun_params(of.param_list) is Some
                ==> self.can_pop(of.type_params),
            _ => true,
        }
    }

    pub fn make_function_declaration(
        &mut self,
        attributes: Node<'a>,
        header: Node<'a>,
        body: Node<'a>,
    ) -> (r: Node<'a>)
        requires
            old(self).wf(),
            old(self).can_pop_header(header),
        ensures
            final(self).wf(),
            r == Node::<'a>::Ignored(SyntaxKind::FunctionDeclaration),
            match old(self).spec_function(attributes, header, body) {
                Some(fun) => final(self).decls@ == old(self).decls@.push(
                    (fun.0, Decl::Fun(fun.1)),
                ) && final(self).type_parameters@ == popped(
                    old(self).type_parameters@,
                    header->FunctionHeader_0.type_params,
                ),
                None => final(self).decls@ == old(self).decls@ && final(self).type_parameters@
                    == old(self).type_parameters@,
            },
            old(self).spec_function(attributes, header, body) matches Some(fun) ==> (
            attributes_in(attributes).deprecated matches Some(message) ==> (
            fun.1.deprecated matches Some(text) && text@ == deprecated_bytes(fun.0@, message@))),
            old(self).decls@.is_prefix_of(final(self).decls@),
            *final(self) == (DirectDeclSmartConstructors {
                decls: final(self).decls,
                type_parameters: final(self).type_parameters,
                ..*old(self)
            }),
    {
        let parsed_attributes = self.to_attributes(attributes);
        let header = match header {
            Node::FunctionHeader(header) => header,
            _ => return Node::Ignored(SyntaxKind::FunctionDeclaration),
        };
        let (id, type_, _) = match self.function_to_ty(false, attributes, header, body) {
            Some(x) => x,
            None => return Node::Ignored(SyntaxKind::FunctionDeclaration),
        };
        let deprecated = match parsed_attributes.deprecated {
            Some(message) => {
                let name = trim_start_byte(id.1, BACKSLASH);
                let text = self.deprecation("The function ", name, message);
                assert(slice_of(text@) == text);
                Some(text)
            },
            None => None,
        };
        let fun_elt = self.allocate(
            FunElt {
                module: parsed_attributes.module,
                internal: parsed_attributes.internal,
                deprecated,
                type_,
                pos: id.0,
                php_std_lib: parsed_attributes.php_std_lib,
                support_dynamic_type: self.opts.everything_sdt
                    || parsed_attributes.support_dynamic_type,
            },
        );
        self.add_fun(id.1, fun_elt);
        Node::Ignored(SyntaxKind::FunctionDeclaration)
    }

    pub fn make_function_declaration_header(
        &self,
        modifiers: Node<'a>,
        _keyword: Node<'a>,
        name: Node<'a>,
        type_params: Node<'a>,
        left_paren: Node<'a>,
        param_list: Node<'a>,
        _right_paren: Node<'a>,
        capability: Node<'a>,
        _colon: Node<'a>,
        readonly_return: Node<'a>,
        ret_hint: Node<'a>,
        where_constraints: Node<'a>,
    ) -> (r: Node<'a>)
        ensures
            r == function_header(
                modifiers,
                name,
                type_params,
                left_paren,
                param_list,
                capability,
                readonly_return,
                ret_hint,
                where_constraints,
            ),
    {
        // Where the name is missing, the parenthesis shows the position.
        let name = if name.is_ignored() {
            left_paren
        } else {
            name
        };
        Node::FunctionHeader(
            self.allocate(
                FunctionHeader {
                    name,
                    modifiers,
                    type_params,
                    param_list,
                    capability,
                    ret_hint,
                    readonly_return,
                    where_constraints,
                },
            ),
        )
    }
}

/// The message about a deprecated function gives its name without the leading
/// backslash and ends with what the attribute says.
pub proof fn law_deprecated_function(name: Seq<u8>, message: Seq<u8>)
    ensures
        ("The function ".spec_bytes() + trim_start(name, BACKSLASH)).is_prefix_of(
            deprecated_bytes(name, message),
        ),
        (" is deprecated: ".spec_bytes() + message).is_suffix_of(deprecated_bytes(name, message)),
        deprecated_bytes(name, message).len() == ("The function ".spec_bytes() + trim_start(
            name,
            BACKSLASH,
        ) + " is deprecated: ".spec_bytes() + message).len(),
{
    let text = deprecated_bytes(name, message);
    let front = "The function ".spec_bytes() + trim_start(name, BACKSLASH);
    let back = " is deprecated: ".spec_bytes() + message;
    assert(text =~= front + back);
    assert(front =~= text.subrange(0, front.len() as int));
    assert(back =~= text.subrange(text.len() - back.len(), text.len() as int));
}

impl<
    'a,
    'text,
    S: SourceTextAllocator<'text, 'a>,
    H: Fn(Query<'a, 'text>) -> Answer<'a, 'text>,
> DirectDeclSmartConstructors<'a, 'text, S, H> {
    /// A parameter declaration has the name that is written, behind three dots
    /// or not, and is `inout`, `readonly` or variadic exactly where that is
    /// written. Its initializer and its visibility stay as they are.
    pub proof fn law_parameter_declaration_as_written(
        &self,
        attributes: Node<'a>,
        visibility: Node<'a>,
        inout: Node<'a>,
        readonly: Node<'a>,
        hint: Node<'a>,
        name: Node<'a>,
        initializer: Node<'a>,
    )
        ensures
            ({
                let node = self.spec_make_parameter_declaration(
                    attributes,
                    visibility,
                    inout,
                    readonly,
                    hint,
                    name,
                    initializer,
                );
                let name_node = match name {
                    Node::ListItem(item) => item.1,
                    _ => name,
                };
                let is_soft = self.opts.interpret_soft_types_as_like_types && bears(
                    attributes,
                    "__Soft".spec_bytes(),
                );
                &&& node is FunParam <==> name_node is Variable || name_node is Name
                &&& !(node is FunParam) ==> node is Ignored
                &&& node matches Node::FunParam(decl) ==> {
                    &&& name_node matches Node::Variable(of) ==> decl.name == Some(of.0) && decl.pos
                        == of.1
                    &&& name_node matches Node::Name(of) ==> decl.name == Some(of.0) && decl.pos
                        == of.1
                    &&& decl.variadic <==> (name matches Node::ListItem(item)
                        && item.0.spec_token_kind() == Some(TokenKind::DotDotDot))
                    &&& decl.kind == ParamMode::FPinout <==> inout.spec_token_kind() == Some(
                        TokenKind::Inout,
                    )
                    &&& decl.readonly <==> readonly.spec_token_kind() == Some(TokenKind::Readonly)
                    &&& decl.attributes == attributes
                    &&& decl.visibility == visibility
                    &&& decl.initializer == initializer
                    &&& !is_soft || !(hint is Ty) ==> decl.hint == hint
                    &&& hint matches Node::Ty(ty) ==> is_soft ==> (decl.hint matches Node::Ty(like)
                        && like.1 == Ty_::Tlike(ty) && *like.0 == Reason::Rhint(
                        &self.spec_pos(hint),
                    ))
                }
            }),
    {
        law_attributes_say_what_is_written(attributes);
    }

    /// A variadic parameter without a name has the hint that is written, and
    /// neither a default value nor a mode.
    pub proof fn law_unnamed_variadic_parameter(&self, hint: Node<'a>, ellipsis: Node<'a>)
        ensures
            self.spec_make_variadic_parameter(hint, ellipsis) matches Node::FunParam(decl) && {
                &&& decl.variadic
                &&& decl.name is None
                &&& decl.hint == hint
                &&& decl.initializer is Ignored
                &&& decl.attributes is Ignored
                &&& decl.visibility is Ignored
                &&& decl.kind == ParamMode::FPnormal
                &&& !decl.readonly
                &&& self.spec_pos_opt(hint) matches Some(pos) ==> decl.pos == pos
                &&& self.spec_pos_opt(hint) is None ==> decl.pos == &self.spec_pos(ellipsis)
            },
    {
    }

    /// A function is declared where its header can be read, under the name in
    /// it, with the type that its header gives it and what its attributes say.
    pub proof fn law_function_as_written(
        &self,
        attributes: Node<'a>,
        header: Node<'a>,
        body: Node<'a>,
    )
        ensures
            self.spec_function(attributes, header, body) is Some <==> (
            header matches Node::FunctionHeader(of) && self.spec_as_fun_params(
                of.param_list,
            ) is Some),
            self.spec_function(attributes, header, body) matches Some(of) ==> {
                let read = self.spec_function_to_ty(
                    false,
                    attributes,
                    *header->FunctionHeader_0,
                    body,
                )->Some_0;
                &&& of.0 == read.0.1
                &&& of.1.pos == read.0.0
                &&& of.1.type_ == read.1
                &&& of.1.module == attributes_in(attributes).module
                &&& of.1.internal <==> bears(attributes, "__Internal".spec_bytes())
                &&& of.1.php_std_lib <==> bears(attributes, "__PHPStdLib".spec_bytes())
                &&& of.1.support_dynamic_type <==> self.opts.everything_sdt || bears(
                    attributes,
                    "__SupportDynamicType".spec_bytes(),
                )
                &&& of.1.deprecated is Some <==> attributes_in(attributes).deprecated is Some
                &&& attributes_in(attributes).deprecated matches Some(message)
                    ==> of.1.deprecated == Some(
                    slice_of::<'a>(
                        "The function ".spec_bytes() + trim_start(of.0@, BACKSLASH)
                            + " is deprecated: ".spec_bytes() + message@,
                    ),
                )
            },
    {
        law_attributes_say_what_is_written(attributes);
    }

    /// A header keeps its parts. Where a function has no name, its parenthesis
    /// stands for one.
    pub proof fn law_header_keeps_its_parts(
        &self,
        modifiers: Node<'a>,
        name: Node<'a>,
        type_params: Node<'a>,
        left_paren: Node<'a>,
        param_list: Node<'a>,
        capability: Node<'a>,
        readonly_return: Node<'a>,
        ret_hint: Node<'a>,
        where_constraints: Node<'a>,
    )
        ensures
            function_header(
                modifiers,
                name,
                type_params,
                left_paren,
                param_list,
                capability,
                readonly_return,
                ret_hint,
                where_constraints,
            ) matches Node::FunctionHeader(header) && {
                &&& !(name is Ignored) ==> header.name == name
                &&& name is Ignored ==> header.name == left_paren
                &&& header.modifiers == modifiers
                &&& header.type_params == type_params
                &&& header.param_list == param_list
                &&& header.capability == capability
                &&& header.ret_hint == ret_hint
                &&& header.readonly_return == readonly_return
                &&& header.where_constraints == where_constraints
            },
    {
    }
}

} // verus!
