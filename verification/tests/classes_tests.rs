use bumpalo::Bump;
use direct_decl::arena::Items;
use direct_decl::decls::{ClassConstKind, Decl, ShallowClass, Typeconst};
use direct_decl::host::{Answer, Query};
use direct_decl::namespace::{AutoImport, NamespaceEnv};
use direct_decl::node::Node;
use direct_decl::parser::{DeclParserOptions, DirectDeclSmartConstructors, NoSourceTextAllocator};
use direct_decl::source::{IndexedSourceText, Pos, Prefix, RelativePath, SourceText};
use direct_decl::syntax::{
    Abstraction,
    ClassishKind,
    ElaborateKind,
    Mode,
    Tprim,
    Visibility,
    XhpAttrTag,
    XhpEnumValue,
};
use direct_decl::token::{CompactToken, SyntaxKind, TokenKind};
use direct_decl::types::{Ty, Ty_};

type Parser = DirectDeclSmartConstructors<
    'static,
    'static,
    NoSourceTextAllocator,
    fn(Query<'static, 'static>) -> Answer<'static, 'static>,
>;

fn leak(bytes: Vec<u8>) -> &'static [u8] {
    Box::leak(bytes.into_boxed_slice())
}

fn in_namespace(env: &NamespaceEnv<'static>, name: &[u8]) -> Vec<u8> {
    let mut full = b"\\".to_vec();
    if let Some(ns) = env.name {
        full.extend_from_slice(ns);
        full.push(b'\\');
    }
    full.extend_from_slice(name);
    full
}

/// A small stand-in for the rest of the toolchain.
fn answer(query: Query<'static, 'static>) -> Answer<'static, 'static> {
    match query {
        Query::RawId(env, ElaborateKind::Class, name) => match env.class_uses.get(name) {
            Some(full) => Answer::Name(full),
            None => Answer::Name(leak(in_namespace(&env, name))),
        },
        Query::RawId(_, ElaborateKind::Const, name) => {
            let mut full = b"\\const\\".to_vec();
            full.extend_from_slice(name);
            Answer::Name(leak(full))
        }
        Query::CurrentNamespace(env, name) => Answer::Name(leak(in_namespace(&env, name))),
        Query::XhpNamespace(name) => {
            if name.starts_with(b":x") {
                Answer::Name(b"\\x\\elt")
            } else {
                Answer::Nothing
            }
        }
        Query::Unquote(text) => Answer::Source(&text[1..text.len() - 1]),
        Query::Unescape(_, text) => {
            if text.starts_with(b"bad") {
                Answer::Nothing
            } else {
                Answer::Name(text)
            }
        }
    }
}

struct Reader {
    p: Parser,
    at: usize,
}

impl Reader {
    fn with(source: &'static [u8], mode: Mode, soft: bool, mangling: bool) -> Reader {
        let arena: &'static Bump = Box::leak(Box::new(Bump::new()));
        let mut starts: Vec<usize> = vec![0];
        for i in 0..source.len() {
            if source[i] == b'\n' {
                starts.push(i + 1);
            }
        }
        let opts: &'static DeclParserOptions<'static> = Box::leak(Box::new(DeclParserOptions {
            auto_namespace_map: Items::from_slice(Box::leak(Box::new([(
                &b"C"[..],
                &b"HH\\Lib\\C"[..],
            )]))),
            auto_import: AutoImport {
                namespaces: Items::from_slice(Box::leak(Box::new([&b"Lib"[..]]))),
                types: Items::from_slice(Box::leak(Box::new([&b"Vector"[..]]))),
            },
            disable_xhp_element_mangling: mangling,
            interpret_soft_types_as_like_types: soft,
            everything_sdt: false,
        }));
        let text = IndexedSourceText {
            source_text: SourceText {
                file_path: RelativePath { prefix: Prefix::Root, path: b"a.php" },
                text: source,
            },
            line_starts: Box::leak(starts.into_boxed_slice()),
        };
        let host: fn(Query<'static, 'static>) -> Answer<'static, 'static> = answer;
        Reader {
            p: DirectDeclSmartConstructors::new(
                opts,
                text,
                mode,
                arena,
                NoSourceTextAllocator,
                host,
            ),
            at: 0,
        }
    }

    fn new(source: &'static str) -> Reader {
        Reader::with(source.as_bytes(), Mode::Mstrict, false, false)
    }

    /// Reads the next occurrence of `text` as a token of the given kind.
    fn tok(&mut self, kind: TokenKind, text: &str) -> Node<'static> {
        let source = self.p.source_text.source_text.text;
        let bytes = text.as_bytes();
        let mut start = self.at;
        while &source[start..start + bytes.len()] != bytes {
            start += 1;
        }
        self.at = start + bytes.len();
        self.p.make_token(CompactToken { kind, start_offset: start, width: bytes.len() })
    }

    fn list(&mut self, nodes: Vec<Node<'static>>) -> Node<'static> {
        self.p.make_list(nodes, 0)
    }
}

fn missing() -> Node<'static> {
    Node::Ignored(SyntaxKind::Missing)
}


fn applied_to(ty: &Ty<'static>) -> (&'static [u8], Items<'static, &'static Ty<'static>>) {
    match ty.1 {
        Ty_::Tapply(of) => (of.0.1, of.1),
        _ => panic!("not an application"),
    }
}

fn span(pos: &Pos<'static>) -> (usize, usize) {
    (pos.start_cnum(), pos.end_cnum())
}

fn name(r: &mut Reader, text: &str) -> Node<'static> {
    r.tok(TokenKind::Name, text)
}

fn attrs(r: &mut Reader, names: &[&str]) -> Node<'static> {
    let mut nodes = Vec::new();
    for text in names {
        let n = name(r, text);
        nodes.push(r.p.make_constructor_call(n, missing(), missing(), missing()));
    }
    let list = r.list(nodes);
    r.p.make_old_attribute_specification(missing(), list, missing())
}

fn class(r: &Reader, i: usize) -> (&'static [u8], &'static ShallowClass<'static>) {
    match r.p.decls.entries[i] {
        (name, Decl::Class(c)) => (name, c),
        _ => panic!("not a class"),
    }
}

fn method(r: &mut Reader, modifiers: Node<'static>, name: Node<'static>, params: Node<'static>)
    -> Node<'static> {
    let h = r.p.make_function_declaration_header(
        modifiers, missing(), name, missing(), missing(), params, missing(), missing(), missing(),
        missing(), missing(), missing(),
    );
    r.p.make_methodish_declaration(missing(), h, missing(), missing())
}

fn property(r: &mut Reader, attrs: Node<'static>, modifiers: Node<'static>, var: &str)
    -> Node<'static> {
    let var = r.tok(TokenKind::Variable, var);
    let declarator = r.p.make_property_declarator(var, missing());
    r.p.make_property_declaration(attrs, modifiers, missing(), declarator, missing())
}

#[test]
fn a_class_with_members() {
    let mut r = Reader::new(
        "abstract final class C<T> extends D implements I, J { use Tr; require extends E; \
         require implements K; $p static $q __construct private $r m static n X }",
    );
    let abs = r.tok(TokenKind::Abstract, "abstract");
    let fin = r.tok(TokenKind::Final, "final");
    let modifiers = r.list(vec![abs, fin]);
    let keyword = r.tok(TokenKind::Class, "class");
    let c = name(&mut r, "C");
    let t = name(&mut r, "T");
    let t = r.p.make_type_parameter(missing(), missing(), missing(), t, missing(), missing());
    let tparams = r.p.make_type_parameters(missing(), t, missing());
    let d = name(&mut r, "D");
    let i = name(&mut r, "I");
    let j = name(&mut r, "J");
    let implements = r.list(vec![i, j]);
    let tr = name(&mut r, "Tr");
    let use_ = r.p.make_trait_use(missing(), tr, missing());
    let ext = r.tok(TokenKind::Extends, "extends");
    let e = name(&mut r, "E");
    let req1 = r.p.make_require_clause(missing(), ext, e, missing());
    let imp = r.tok(TokenKind::Implements, "implements");
    let k = name(&mut r, "K");
    let req2 = r.p.make_require_clause(missing(), imp, k, missing());
    let p = property(&mut r, missing(), missing(), "$p");
    let static_ = r.tok(TokenKind::Static, "static");
    let q = property(&mut r, missing(), static_, "$q");
    let construct = r.tok(TokenKind::Construct, "__construct");
    let private = r.tok(TokenKind::Private, "private");
    let promoted = r.tok(TokenKind::Variable, "$r");
    let promoted = r.p.make_parameter_declaration(
        missing(), private, missing(), missing(), missing(), promoted, missing(),
    );
    let params = r.list(vec![promoted]);
    let constructor = method(&mut r, missing(), construct, params);
    let m = name(&mut r, "m");
    let m = method(&mut r, missing(), m, missing());
    let static_ = r.tok(TokenKind::Static, "static");
    let n = name(&mut r, "n");
    let n = method(&mut r, static_, n, missing());
    let x = name(&mut r, "X");
    r.p.begin_constant_declarator();
    let x = r.p.make_constant_declarator(x, missing());
    let x = r.list(vec![x]);
    let x = r.p.make_const_declaration(missing(), missing(), missing(), x, missing());
    let body = r.p.make_classish_body(
        missing(),
        Node::List(r.p.allocate(Items::copied(
            r.p.arena,
            &[use_, req1, req2, p, q, constructor, m, n, x],
        ))),
        missing(),
    );
    r.p.make_classish_declaration(
        missing(), modifiers, missing(), keyword, c, tparams, missing(), d, missing(), implements,
        missing(), body,
    );
    let (full, cls) = class(&r, 0);
    assert_eq!(full, b"\\C");
    assert!(cls.kind == ClassishKind::Cclass(Abstraction::Abstract));
    assert!(cls.final_ && !cls.is_xhp && !cls.has_xhp_keyword);
    assert_eq!(cls.tparams.len(), 1);
    assert_eq!(applied_to(cls.extends.at(0)).0, b"\\D");
    assert_eq!(cls.implements.len(), 2);
    assert_eq!(applied_to(cls.uses.at(0)).0, b"\\Tr");
    assert_eq!(applied_to(cls.req_extends.at(0)).0, b"\\E");
    assert_eq!(applied_to(cls.req_implements.at(0)).0, b"\\K");
    assert_eq!(cls.props.len(), 2);
    assert_eq!(cls.props.at(0).name.1, b"p");
    assert!(cls.props.at(0).visibility == Visibility::Public);
    assert!(cls.props.at(0).flags.needs_init);
    assert_eq!(cls.props.at(1).name.1, b"r");
    assert!(cls.props.at(1).visibility == Visibility::Private);
    assert_eq!(cls.sprops.len(), 1);
    assert_eq!(cls.sprops.at(0).name.1, b"$q");
    let constructor = cls.constructor.unwrap();
    assert_eq!(constructor.name.1, b"__construct");
    match constructor.type_.1 {
        Ty_::Tfun(ft) => assert!(matches!(ft.ret.type_.1, Ty_::Tprim(Tprim::Tvoid))),
        _ => panic!("not a function type"),
    }
    assert_eq!(cls.methods.len(), 1);
    assert_eq!(cls.methods.at(0).name.1, b"m");
    assert!(!cls.methods.at(0).flags.abstract_);
    assert_eq!(cls.static_methods.at(0).name.1, b"n");
    assert_eq!(cls.consts.len(), 1);
    assert_eq!(cls.consts.at(0).name.1, b"X");
    assert!(cls.enum_type.is_none());
    assert!(r.p.type_parameters.is_empty());
    assert!(r.p.classish_name_builder.get_current_classish_name().is_none());
}

#[test]
fn classes_that_cannot_be_read() {
    let mut r = Reader::new("class C");
    let keyword = r.tok(TokenKind::Class, "class");
    let c = name(&mut r, "C");
    for n in [c, missing()] {
        r.p.make_classish_declaration(
            missing(), missing(), missing(), keyword, n, missing(), missing(), missing(),
            missing(), missing(), missing(), missing(),
        );
    }
    assert!(r.p.decls.entries.is_empty());
    assert_eq!(r.p.classish_name_builder.get_current_classish_name().unwrap().0, b"\\C");
}

#[test]
fn interfaces_and_traits() {
    let mut r = Reader::new("interface I m trait T xhp :x");
    let keyword = r.tok(TokenKind::Interface, "interface");
    let i = name(&mut r, "I");
    let m = name(&mut r, "m");
    let m = method(&mut r, missing(), m, missing());
    let body = r.p.make_classish_body(missing(), m, missing());
    r.p.make_classish_declaration(
        missing(), missing(), missing(), keyword, i, missing(), missing(), missing(), missing(),
        missing(), missing(), body,
    );
    let (_, cls) = class(&r, 0);
    assert!(cls.kind == ClassishKind::Cinterface);
    assert!(cls.methods.at(0).flags.abstract_);
    let keyword = r.tok(TokenKind::Trait, "trait");
    let t = name(&mut r, "T");
    let body = r.p.make_classish_body(missing(), missing(), missing());
    r.p.make_classish_declaration(
        missing(), missing(), missing(), keyword, t, missing(), missing(), missing(), missing(),
        missing(), missing(), body,
    );
    assert!(class(&r, 1).1.kind == ClassishKind::Ctrait);
    let xhp = r.tok(TokenKind::XHP, "xhp");
    let x = r.tok(TokenKind::XHPClassName, ":x");
    r.p.make_classish_declaration(
        missing(), missing(), xhp, missing(), x, missing(), missing(), missing(), missing(),
        missing(), missing(), body,
    );
    let (full, cls) = class(&r, 2);
    assert_eq!(full, b"\\:x");
    assert!(cls.is_xhp && cls.has_xhp_keyword);
    assert!(cls.kind == ClassishKind::Cclass(Abstraction::Concrete));
}

#[test]
fn constant_classes_and_their_attributes() {
    let mut r = Reader::new("<<__Const, __SupportDynamicType, Foo>> class C $p");
    let attributes = attrs(&mut r, &["__Const", "__SupportDynamicType", "Foo"]);
    let keyword = r.tok(TokenKind::Class, "class");
    let c = name(&mut r, "C");
    let p = property(&mut r, missing(), missing(), "$p");
    let body = r.p.make_classish_body(missing(), p, missing());
    r.p.make_classish_declaration(
        attributes, missing(), missing(), keyword, c, missing(), missing(), missing(), missing(),
        missing(), missing(), body,
    );
    let (_, cls) = class(&r, 0);
    assert!(cls.props.at(0).flags.const_ && cls.support_dynamic_type);
    // The last attribute stands first.
    let names: Vec<&[u8]> = (0..3).map(|i| cls.user_attributes.at(i).name.1).collect();
    assert_eq!(names, vec![&b"\\Foo"[..], &b"__SupportDynamicType"[..], &b"__Const"[..]]);
}

#[test]
fn constant_classes_change_nothing_else_of_a_property() {
    let mut r = Reader::new("<<__Const>> class C private readonly $p");
    let attributes = attrs(&mut r, &["__Const"]);
    let keyword = r.tok(TokenKind::Class, "class");
    let c = name(&mut r, "C");
    let private = r.tok(TokenKind::Private, "private");
    let readonly = r.tok(TokenKind::Readonly, "readonly");
    let modifiers = r.list(vec![private, readonly]);
    let p = property(&mut r, missing(), modifiers, "$p");
    let written = match p {
        Node::Property(of) => *of.decls.at(0),
        _ => panic!("not a property"),
    };
    let body = r.p.make_classish_body(missing(), p, missing());
    r.p.make_classish_declaration(
        attributes, missing(), missing(), keyword, c, missing(), missing(), missing(), missing(),
        missing(), missing(), body,
    );
    let (_, cls) = class(&r, 0);
    let read = cls.props.at(0);
    assert_eq!(read.name.1, written.name.1);
    assert!(read.visibility == Visibility::Private && written.visibility == Visibility::Private);
    assert!(!written.flags.const_ && read.flags.const_);
    assert!(written.flags.readonly && read.flags.readonly);
    assert_eq!(read.flags.needs_init, written.flags.needs_init);
    assert!(!read.flags.lateinit && !read.flags.lsb && !read.flags.abstract_);
}

#[test]
fn interface_files_need_no_initializers() {
    let mut r = Reader::with(b"$p $q", Mode::Mhhi, false, false);
    match property(&mut r, missing(), missing(), "$p") {
        Node::Property(of) => {
            assert!(!of.is_static);
            assert!(!of.decls.at(0).flags.needs_init);
        }
        _ => panic!("not a property"),
    }
}

#[test]
fn methods() {
    let mut r = Reader::new("<<__Deprecated('no'), __Internal, __Override>> m final private");
    let n = name(&mut r, "__Deprecated");
    let s = r.tok(TokenKind::SingleQuotedStringLiteral, "'no'");
    let a1 = r.p.make_constructor_call(n, missing(), s, missing());
    let n = name(&mut r, "__Internal");
    let a2 = r.p.make_constructor_call(n, missing(), missing(), missing());
    let n = name(&mut r, "__Override");
    let a3 = r.p.make_constructor_call(n, missing(), missing(), missing());
    let list = r.list(vec![a1, a2, a3]);
    let attributes = r.p.make_old_attribute_specification(missing(), list, missing());
    let m = name(&mut r, "m");
    let fin = r.tok(TokenKind::Final, "final");
    let h = r.p.make_function_declaration_header(
        fin, missing(), m, missing(), missing(), missing(), missing(), missing(), missing(),
        missing(), missing(), missing(),
    );
    match r.p.make_methodish_declaration(attributes, h, missing(), missing()) {
        Node::Method(of) => {
            let m = of.method;
            assert!(!of.is_static);
            assert_eq!(m.deprecated, Some(&b"The method m is deprecated: no"[..]));
            assert!(m.visibility == Visibility::Internal);
            assert!(m.flags.final_ && m.flags.override_ && !m.flags.abstract_);
        }
        _ => panic!("not a method"),
    }
    let private = r.tok(TokenKind::Private, "private");
    let h = r.p.make_function_declaration_header(
        private, missing(), m, missing(), missing(), missing(), missing(), missing(), missing(),
        missing(), missing(), missing(),
    );
    match r.p.make_methodish_declaration(attributes, h, missing(), missing()) {
        Node::Method(of) => assert!(of.method.visibility == Visibility::Private),
        _ => panic!("not a method"),
    }
    assert!(matches!(
        r.p.make_methodish_declaration(attributes, missing(), missing(), missing()),
        Node::Ignored(SyntaxKind::MethodishDeclaration)
    ));
}

#[test]
fn enums() {
    let mut r = Reader::new("enum E: int as arraykey { use F; A = 1; }");
    let e = name(&mut r, "E");
    let int = r.tok(TokenKind::Int, "int");
    let as_ = r.tok(TokenKind::As, "as");
    let bound = r.tok(TokenKind::Arraykey, "arraykey");
    let constraint = r.p.make_type_constraint(as_, bound);
    let f = name(&mut r, "F");
    let use_ = r.p.make_enum_use(missing(), f, missing());
    r.p.begin_enumerator();
    let a = name(&mut r, "A");
    let one = r.tok(TokenKind::DecimalLiteral, "1");
    let a = r.p.make_enumerator(a, missing(), one, missing());
    r.p.make_enum_declaration(
        missing(), missing(), e, missing(), int, constraint, missing(), use_, a, missing(),
    );
    let (full, cls) = class(&r, 0);
    assert_eq!(full, b"\\E");
    assert!(cls.kind == ClassishKind::Cenum);
    let (parent, targs) = applied_to(cls.extends.at(0));
    assert_eq!(parent, b"\\HH\\BuiltinEnum");
    assert_eq!(applied_to(targs.at(0)).0, b"\\E");
    assert_eq!(cls.consts.len(), 1);
    assert_eq!(cls.consts.at(0).name.1, b"A");
    assert!(matches!(cls.consts.at(0).type_.1, Ty_::Tprim(Tprim::Tint)));
    let enum_type = cls.enum_type.unwrap();
    assert!(matches!(enum_type.base.1, Ty_::Tprim(Tprim::Tint)));
    assert!(matches!(enum_type.constraint.unwrap().1, Ty_::Tprim(Tprim::Tarraykey)));
    assert_eq!(applied_to(enum_type.includes.at(0)).0, b"\\F");
    // Without a base type there is no enum.
    r.p.make_enum_declaration(
        missing(), missing(), e, missing(), missing(), constraint, missing(), use_, a, missing(),
    );
    assert_eq!(r.p.decls.entries.len(), 1);
    assert!(matches!(
        r.p.make_enumerator(missing(), missing(), one, missing()),
        Node::Ignored(SyntaxKind::Enumerator)
    ));
}

#[test]
fn enum_classes() {
    let mut r = Reader::new("enum class E: Base extends F { int A = 1; } abstract");
    let keyword = r.tok(TokenKind::Class, "class");
    let e = name(&mut r, "E");
    let base = name(&mut r, "Base");
    let f = name(&mut r, "F");
    r.p.begin_enum_class_enumerator();
    let int = r.tok(TokenKind::Int, "int");
    let a = name(&mut r, "A");
    let a = r.p.make_enum_class_enumerator(missing(), int, a, missing(), missing());
    match a {
        Node::Const(c) => {
            assert!(c.abstract_ == ClassConstKind::CCConcrete);
            let (member, targs) = applied_to(c.type_);
            assert_eq!(member, b"\\HH\\MemberOf");
            assert_eq!(applied_to(targs.at(0)).0, b"\\E");
            assert!(matches!(targs.at(1).1, Ty_::Tprim(Tprim::Tint)));
        }
        _ => panic!("not a constant"),
    }
    r.p.make_enum_class_declaration(
        missing(), missing(), missing(), keyword, e, missing(), base, missing(), f, missing(), a,
        missing(),
    );
    let (full, cls) = class(&r, 0);
    assert_eq!(full, b"\\E");
    assert!(cls.kind == ClassishKind::CenumClass(Abstraction::Concrete));
    assert_eq!(cls.extends.len(), 2);
    let (builtin, targs) = applied_to(cls.extends.at(0));
    assert_eq!(builtin, b"\\HH\\BuiltinEnumClass");
    let (member, targs) = applied_to(targs.at(0));
    assert_eq!(member, b"\\HH\\MemberOf");
    assert_eq!(applied_to(targs.at(1)).0, b"\\Base");
    let includes = cls.enum_type.unwrap().includes;
    assert_eq!(includes.len(), 1);
    assert_eq!(applied_to(includes.at(0)).0, b"\\F");
    assert_eq!(cls.user_attributes.at(0).name.1, b"__EnumClass");
    assert_eq!(cls.consts.len(), 1);
    // Outside a class there is no enum class to be a member of.
    let again = r.p.make_enum_class_enumerator(missing(), int, e, missing(), missing());
    assert!(matches!(again, Node::Ignored(SyntaxKind::EnumClassEnumerator)));
    let abs = r.tok(TokenKind::Abstract, "abstract");
    r.p.make_enum_class_declaration(
        missing(), abs, missing(), keyword, e, missing(), missing(), missing(), missing(),
        missing(), missing(), missing(),
    );
    let (_, cls) = class(&r, 1);
    assert!(cls.kind == ClassishKind::CenumClass(Abstraction::Abstract));
    assert_eq!(applied_to(cls.extends.at(0)).0, b"\\HH\\BuiltinAbstractEnumClass");
}

#[test]
fn type_constants_of_classes() {
    let mut r = Reader::new("<<__Enforceable>> abstract const type T as int = string; const ctx C");
    let attributes = attrs(&mut r, &["__Enforceable"]);
    let abs = r.tok(TokenKind::Abstract, "abstract");
    let t = name(&mut r, "T");
    let as_ = r.tok(TokenKind::As, "as");
    let int = r.tok(TokenKind::Int, "int");
    let constraint = r.p.make_type_constraint(as_, int);
    let string = r.tok(TokenKind::String, "string");
    match r.p.make_type_const_declaration(
        attributes, abs, missing(), missing(), t, missing(), constraint, missing(), string,
        missing(),
    ) {
        Node::TypeConstant(of) => {
            assert_eq!(of.name.1, b"T");
            assert!(of.enforceable.1 && !of.is_ctx);
            assert_eq!(span(of.enforceable.0), (2, 15));
            assert!(matches!(of.kind, Typeconst::TCAbstract(a)
                if a.as_constraint.is_some() && a.default.is_some()));
        }
        _ => panic!("not a type constant"),
    }
    match r.p.make_type_const_declaration(
        missing(), missing(), missing(), missing(), t, missing(), missing(), missing(), string,
        missing(),
    ) {
        Node::TypeConstant(of) => {
            assert!(!of.enforceable.1 && of.enforceable.0.is_none());
            assert!(matches!(of.kind, Typeconst::TCConcrete(_)));
        }
        _ => panic!("not a type constant"),
    }
    assert!(matches!(
        r.p.make_type_const_declaration(
            missing(), missing(), missing(), missing(), t, missing(), missing(), missing(),
            missing(), missing(),
        ),
        Node::Ignored(SyntaxKind::TypeConstDeclaration)
    ));
    let c = name(&mut r, "C");
    let bound = r.p.make_context_constraint(as_, int);
    match r.p.make_context_const_declaration(
        abs, missing(), missing(), c, missing(), bound, missing(), missing(), missing(),
    ) {
        Node::TypeConstant(of) => {
            assert!(of.is_ctx);
            assert!(matches!(of.kind, Typeconst::TCAbstract(a)
                if a.as_constraint.is_some() && a.super_constraint.is_none()
                    && a.default.is_none()));
        }
        _ => panic!("not a type constant"),
    }
}

#[test]
fn xhp_attributes() {
    let mut r = Reader::with(
        b"attribute enum {'big', 12, 'sm\xffall'} size; int count @required; :other;",
        Mode::Mstrict,
        false,
        false,
    );
    let keyword = r.tok(TokenKind::Enum, "enum");
    let big = r.tok(TokenKind::SingleQuotedStringLiteral, "'big'");
    let twelve = r.tok(TokenKind::DecimalLiteral, "12");
    let small = r.p.allocate((&b"sm\xffall"[..], r.p.get_pos(big)));
    let values = r.list(vec![big, twelve, Node::StringLiteral(small)]);
    let brace = r.tok(TokenKind::RightBrace, "}");
    let hint = r.p.make_xhp_enum_type(keyword, missing(), values, brace);
    let size = name(&mut r, "size");
    let size = r.p.make_xhp_class_attribute(hint, size, missing(), missing());
    let int = r.tok(TokenKind::Int, "int");
    let count = name(&mut r, "count");
    let required = r.tok(TokenKind::Required, "required");
    let count = r.p.make_xhp_class_attribute(int, count, missing(), required);
    let other = r.tok(TokenKind::XHPClassName, ":other");
    let other = r.p.make_xhp_simple_class_attribute(other);
    let list = r.list(vec![size, count, other]);
    let node = r.p.make_xhp_class_attribute_declaration(missing(), list, missing());
    let body = r.p.make_classish_body(missing(), node, missing());
    r.at = 0;
    let c = name(&mut r, "a");
    r.p.make_classish_declaration(
        missing(), missing(), missing(), missing(), c, missing(), missing(), missing(), missing(),
        missing(), missing(), body,
    );
    let (_, cls) = class(&r, 0);
    assert_eq!(cls.props.len(), 2);
    let size = cls.props.at(0);
    assert_eq!(size.name.1, b":size");
    assert!(size.flags.needs_init && !size.xhp_attr.unwrap().has_default);
    // Without a tag and a default the attribute is nullable.
    assert!(matches!(size.type_.unwrap().1, Ty_::Toption(Ty(_, Ty_::Tprim(Tprim::Tstring)))));
    let count = cls.props.at(1);
    assert!(count.xhp_attr.unwrap().tag == Some(XhpAttrTag::Required));
    assert!(matches!(count.type_.unwrap().1, Ty_::Tprim(Tprim::Tint)));
    assert_eq!(cls.xhp_attr_uses.len(), 1);
    assert_eq!(applied_to(cls.xhp_attr_uses.at(0)).0, b"\\:other");
    let values = cls.xhp_enum_values.get(b":size").unwrap();
    assert_eq!(values.len(), 3);
    assert!(matches!(values.at(0), XhpEnumValue::XEVString(b"big")));
    assert!(matches!(values.at(1), XhpEnumValue::XEVInt(12)));
    match values.at(2) {
        XhpEnumValue::XEVString(s) => assert_eq!(*s, "sm\u{fffd}all".as_bytes()),
        _ => panic!("not a string"),
    }
    assert!(matches!(
        r.p.make_xhp_enum_type(keyword, missing(), missing(), brace),
        Node::Ignored(SyntaxKind::XHPEnumType)
    ));
}
