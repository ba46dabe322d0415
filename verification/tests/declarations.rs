use bumpalo::Bump;
use direct_decl::arena::Items;
use direct_decl::decls::{ClassConstKind, Decl, FunElt, TypedefType};
use direct_decl::host::{Answer, Query};
use direct_decl::namespace::{AutoImport, NamespaceEnv, NamespaceUseKind};
use direct_decl::namespace_decls::namespace_use_kind;
use direct_decl::node::Node;
use direct_decl::parser::{DeclParserOptions, DirectDeclSmartConstructors, NoSourceTextAllocator};
use direct_decl::source::{IndexedSourceText, Pos, Prefix, RelativePath, SourceText};
use direct_decl::syntax::{
    ConstraintKind,
    ElaborateKind,
    Mode,
    RecordFieldReq,
    Tprim,
    TypedefVisibility,
};
use direct_decl::token::{CompactToken, SyntaxKind, TokenKind};
use direct_decl::types::{Capability, FunArity, FunType, Reason, Ty, Ty_, WhereConstraint};

type Parser = DirectDeclSmartConstructors<
    'static,
    'static,
    NoSourceTextAllocator,
    fn(Query<'static, 'static>) -> Answer<'static, 'static>,
>;

fn leak(bytes: Vec<u8>) -> &'static [u8] {
    Box::leak(bytes.into_boxed_slice())
}

fn in_namespace(env: &NamespaceEnv<'static>, name: &[u8]) -> Vec<u8> {
    let mut full = b"\\".to_vec();
    if let Some(ns) = env.name {
        full.extend_from_slice(ns);
        full.push(b'\\');
    }
    full.extend_from_slice(name);
    full
}

/// A small stand-in for the rest of the toolchain.
fn answer(query: Query<'static, 'static>) -> Answer<'static, 'static> {
    match query {
        Query::RawId(env, ElaborateKind::Class, name) => match env.class_uses.get(name) {
            Some(full) => Answer::Name(full),
            None => Answer::Name(leak(in_namespace(&env, name))),
        },
        Query::RawId(_, ElaborateKind::Const, name) => {
            let mut full = b"\\const\\".to_vec();
            full.extend_from_slice(name);
            Answer::Name(leak(full))
        }
        Query::CurrentNamespace(env, name) => Answer::Name(leak(in_namespace(&env, name))),
        Query::XhpNamespace(name) => {
            if name.starts_with(b":x") {
                Answer::Name(b"\\x\\elt")
            } else {
                Answer::Nothing
            }
        }
        Query::Unquote(text) => Answer::Source(&text[1..text.len() - 1]),
        Query::Unescape(_, text) => {
            if text.starts_with(b"bad") {
                Answer::Nothing
            } else {
                Answer::Name(text)
            }
        }
    }
}

struct Reader {
    p: Parser,
    at: usize,
}

impl Reader {
    fn with(source: &'static [u8], mode: Mode, soft: bool, mangling: bool) -> Reader {
        let arena: &'static Bump = Box::leak(Box::new(Bump::new()));
        let mut starts: Vec<usize> = vec![0];
        for i in 0..source.len() {
            if source[i] == b'\n' {
                starts.push(i + 1);
            }
        }
        let opts: &'static DeclParserOptions<'static> = Box::leak(Box::new(DeclParserOptions {
            auto_namespace_map: Items::from_slice(Box::leak(Box::new([(
                &b"C"[..],
                &b"HH\\Lib\\C"[..],
            )]))),
            auto_import: AutoImport {
                namespaces: Items::from_slice(Box::leak(Box::new([&b"Lib"[..]]))),
                types: Items::from_slice(Box::leak(Box::new([&b"Vector"[..]]))),
            },
            disable_xhp_element_mangling: mangling,
            interpret_soft_types_as_like_types: soft,
            everything_sdt: false,
        }));
        let text = IndexedSourceText {
            source_text: SourceText {
                file_path: RelativePath { prefix: Prefix::Root, path: b"a.php" },
                text: source,
            },
            line_starts: Box::leak(starts.into_boxed_slice()),
        };
        let host: fn(Query<'static, 'static>) -> Answer<'static, 'static> = answer;
        Reader {
            p: DirectDeclSmartConstructors::new(
                opts,
                text,
                mode,
                arena,
                NoSourceTextAllocator,
                host,
            ),
            at: 0,
        }
    }

    fn new(source: &'static str) -> Reader {
        Reader::with(source.as_bytes(), Mode::Mstrict, false, false)
    }

    /// Reads the next occurrence of `text` as a token of the given kind.
    fn tok(&mut self, kind: TokenKind, text: &str) -> Node<'static> {
        let source = self.p.source_text.source_text.text;
        let bytes = text.as_bytes();
        let mut start = self.at;
        while &source[start..start + bytes.len()] != bytes {
            start += 1;
        }
        self.at = start + bytes.len();
        self.p.make_token(CompactToken { kind, start_offset: start, width: bytes.len() })
    }

    fn list(&mut self, nodes: Vec<Node<'static>>) -> Node<'static> {
        self.p.make_list(nodes, 0)
    }
}

fn missing() -> Node<'static> {
    Node::Ignored(SyntaxKind::Missing)
}


fn applied_to(ty: &Ty<'static>) -> (&'static [u8], Items<'static, &'static Ty<'static>>) {
    match ty.1 {
        Ty_::Tapply(of) => (of.0.1, of.1),
        _ => panic!("not an application"),
    }
}

fn span(pos: &Pos<'static>) -> (usize, usize) {
    (pos.start_cnum(), pos.end_cnum())
}

fn name(r: &mut Reader, text: &str) -> Node<'static> {
    r.tok(TokenKind::Name, text)
}

fn typedef(r: &Reader, i: usize) -> (&'static [u8], &'static TypedefType<'static>) {
    match r.p.decls.entries[i] {
        (name, Decl::Typedef(t)) => (name, t),
        _ => panic!("not a typedef"),
    }
}

fn fun(r: &Reader, i: usize) -> (&'static [u8], &'static FunElt<'static>) {
    match r.p.decls.entries[i] {
        (name, Decl::Fun(f)) => (name, f),
        _ => panic!("not a function"),
    }
}

fn fun_type(ty: &Ty<'static>) -> &'static FunType<'static> {
    match ty.1 {
        Ty_::Tfun(ft) => ft,
        _ => panic!("not a function type"),
    }
}

fn param(r: &mut Reader, kind: TokenKind, hint: &str, var: &str) -> Node<'static> {
    let hint = r.tok(kind, hint);
    let var = r.tok(TokenKind::Variable, var);
    r.p.make_parameter_declaration(
        missing(), missing(), missing(), missing(), hint, var, missing(),
    )
}

fn header(
    r: &mut Reader,
    modifiers: Node<'static>,
    name: Node<'static>,
    type_params: Node<'static>,
    params: Node<'static>,
    capability: Node<'static>,
    ret: Node<'static>,
) -> Node<'static> {
    r.p.make_function_declaration_header(
        modifiers, missing(), name, type_params, missing(), params, missing(), capability,
        missing(), missing(), ret, missing(),
    )
}

#[test]
fn records() {
    let mut r = Reader::new("abstract record R extends Base { int a; int b = 1; }");
    let abs = r.tok(TokenKind::Abstract, "abstract");
    let keyword = r.tok(TokenKind::RecordDec, "record");
    let n = name(&mut r, "R");
    let base = name(&mut r, "Base");
    let a = name(&mut r, "a");
    let a = r.p.make_record_field(missing(), a, missing(), missing());
    let b = name(&mut r, "b");
    let one = r.tok(TokenKind::DecimalLiteral, "1");
    let b = r.p.make_record_field(missing(), b, one, missing());
    assert!(matches!(
        r.p.make_record_field(missing(), missing(), one, missing()),
        Node::Ignored(SyntaxKind::RecordField)
    ));
    let fields = r.list(vec![a, b]);
    let brace = r.tok(TokenKind::RightBrace, "}");
    r.p.make_record_declaration(
        missing(), abs, keyword, n, missing(), base, missing(), fields, brace,
    );
    match r.p.decls.entries[0] {
        (b"\\R", Decl::Record(record)) => {
            assert!(record.abstract_ && record.module.is_none());
            assert_eq!(record.extends.unwrap().1, b"\\Base");
            assert_eq!(record.fields.len(), 2);
            assert!(matches!(record.fields.at(0), ((_, b"a"), RecordFieldReq::ValueRequired)));
            assert!(matches!(record.fields.at(1), ((_, b"b"), RecordFieldReq::HasDefaultValue)));
            assert_eq!(span(record.pos), (0, 52));
        }
        _ => panic!("not a record"),
    }
    r.p.make_record_declaration(
        missing(), abs, keyword, missing(), missing(), base, missing(), fields, brace,
    );
    assert_eq!(r.p.decls.entries.len(), 1);
}

#[test]
fn type_aliases() {
    let mut r = Reader::new("newtype A<T> as int = T; type B = int;");
    let keyword = r.tok(TokenKind::Newtype, "newtype");
    let a = name(&mut r, "A");
    let t = name(&mut r, "T");
    let t = r.p.make_type_parameter(missing(), missing(), missing(), t, missing(), missing());
    let tparams = r.p.make_type_parameters(missing(), t, missing());
    let as_ = r.tok(TokenKind::As, "as");
    let int = r.tok(TokenKind::Int, "int");
    let constraint = r.p.make_type_constraint(as_, int);
    let aliased = name(&mut r, "T");
    r.p.make_alias_declaration(
        missing(), keyword, a, tparams, constraint, missing(), aliased, missing(),
    );
    let (n, alias) = typedef(&r, 0);
    assert_eq!(n, b"\\A");
    assert!(alias.vis == TypedefVisibility::Opaque && !alias.is_ctx);
    assert_eq!(alias.tparams.len(), 1);
    assert!(matches!(alias.type_.1, Ty_::Tgeneric((b"T", _))));
    assert!(matches!(alias.constraint.unwrap().1, Ty_::Tprim(Tprim::Tint)));
    assert!(r.p.type_parameters.is_empty());
    let keyword = r.tok(TokenKind::Type, "type");
    let b = name(&mut r, "B");
    r.p.make_alias_declaration(
        missing(), keyword, b, missing(), missing(), missing(), int, missing(),
    );
    let (n, alias) = typedef(&r, 1);
    assert_eq!(n, b"\\B");
    assert!(alias.vis == TypedefVisibility::Transparent && alias.constraint.is_none());
    r.p.make_alias_declaration(
        missing(), keyword, b, missing(), missing(), missing(), missing(), missing(),
    );
    r.p.make_alias_declaration(
        missing(), keyword, missing(), missing(), missing(), missing(), int, missing(),
    );
    assert_eq!(r.p.decls.entries.len(), 2);
}

#[test]
fn context_aliases() {
    let mut r = Reader::new("newctx X as A super B; newctx Y");
    let x = name(&mut r, "X");
    let as_ = r.tok(TokenKind::As, "as");
    let a = name(&mut r, "A");
    let c1 = r.p.make_context_constraint(as_, a);
    let super_ = r.tok(TokenKind::Super, "super");
    let b = name(&mut r, "B");
    let c2 = r.p.make_context_constraint(super_, b);
    let constraints = r.list(vec![c1, c2]);
    r.p.make_context_alias_declaration(
        missing(), missing(), x, missing(), constraints, missing(), missing(), missing(),
    );
    let (n, alias) = typedef(&r, 0);
    assert_eq!(n, b"\\X");
    assert!(alias.is_ctx && alias.vis == TypedefVisibility::Opaque);
    assert_eq!(applied_to(alias.type_).0, b"\\HH\\Contexts\\defaults");
    assert_eq!(applied_to(alias.constraint.unwrap()).0, b"\\A");
    let y = name(&mut r, "Y");
    r.p.make_context_alias_declaration(
        missing(), missing(), y, missing(), missing(), missing(), a, missing(),
    );
    let (_, alias) = typedef(&r, 1);
    assert_eq!(applied_to(alias.type_).0, b"\\A");
    assert!(alias.constraint.is_none());
}

#[test]
fn functions() {
    let mut r = Reader::new(
        "<<__Deprecated('old'), __Internal>> async function f<T>(T $x, int ...$rest): void",
    );
    let ltlt = r.tok(TokenKind::LessThanLessThan, "<<");
    let n1 = name(&mut r, "__Deprecated");
    let s = r.tok(TokenKind::SingleQuotedStringLiteral, "'old'");
    let a1 = r.p.make_constructor_call(n1, missing(), s, missing());
    let n2 = name(&mut r, "__Internal");
    let a2 = r.p.make_constructor_call(n2, missing(), missing(), missing());
    let gtgt = r.tok(TokenKind::GreaterThanGreaterThan, ">>");
    let list = r.list(vec![a1, a2]);
    let attrs = r.p.make_old_attribute_specification(ltlt, list, gtgt);
    let async_ = r.tok(TokenKind::Async, "async");
    r.tok(TokenKind::Function, "function");
    let f = name(&mut r, "f");
    let t = name(&mut r, "T");
    let t = r.p.make_type_parameter(missing(), missing(), missing(), t, missing(), missing());
    let tparams = r.p.make_type_parameters(missing(), t, missing());
    let x = param(&mut r, TokenKind::Name, "T", "$x");
    let int = r.tok(TokenKind::Int, "int");
    let dots = r.tok(TokenKind::DotDotDot, "...");
    let var = r.tok(TokenKind::Variable, "$rest");
    let var = r.p.make_decorated_expression(dots, var);
    let rest = r.p.make_parameter_declaration(
        missing(), missing(), missing(), missing(), int, var, missing(),
    );
    let params = r.list(vec![x, rest]);
    let void = r.tok(TokenKind::Void, "void");
    let h = header(&mut r, async_, f, tparams, params, missing(), void);
    r.p.make_function_declaration(attrs, h, missing());
    let (n, elt) = fun(&r, 0);
    assert_eq!(n, b"\\f");
    assert_eq!(elt.deprecated, Some(&b"The function f is deprecated: old"[..]));
    assert!(elt.internal && !elt.php_std_lib && !elt.support_dynamic_type);
    let ft = fun_type(elt.type_);
    assert!(ft.flags.async_ && !ft.flags.generator);
    assert_eq!(ft.tparams.len(), 1);
    assert_eq!(ft.params.len(), 1);
    let p = ft.params.at(0);
    assert_eq!(p.name, Some(&b"$x"[..]));
    assert!(matches!(p.type_.type_.1, Ty_::Tgeneric((b"T", _))));
    assert!(matches!(ft.arity, FunArity::Fvariadic(p)
        if p.name == Some(b"$rest") && matches!(p.type_.type_.0, Reason::RvarParamFromDecl(_))));
    assert!(matches!(ft.ret.type_.1, Ty_::Tprim(Tprim::Tvoid)));
    assert!(matches!(ft.implicit_params.capability, Capability::CapDefaults(_)));
    assert!(r.p.type_parameters.is_empty());
}

#[test]
fn return_types_by_kind() {
    let mut r = Reader::new("f yield async");
    let f = name(&mut r, "f");
    let y = r.tok(TokenKind::Yield, "yield");
    let a = r.tok(TokenKind::Async, "async");
    for (modifiers, body, class, targs, async_, generator) in [
        (missing(), y, &b"\\Generator"[..], 3, false, true),
        (a, y, &b"\\HH\\AsyncGenerator"[..], 3, true, true),
        (a, missing(), &b"\\HH\\Awaitable"[..], 1, true, false),
    ] {
        let h = header(&mut r, modifiers, f, missing(), missing(), missing(), missing());
        r.p.make_function_declaration(missing(), h, body);
        let (_, elt) = fun(&r, r.p.decls.entries.len() - 1);
        let ft = fun_type(elt.type_);
        let (applied, args) = applied_to(ft.ret.type_);
        assert_eq!(applied, class);
        assert_eq!(args.len(), targs);
        assert!(matches!(ft.ret.type_.0, Reason::RretFunKindFromDecl(_)));
        assert_eq!((ft.flags.async_, ft.flags.generator), (async_, generator));
    }
    let h = header(&mut r, missing(), f, missing(), missing(), missing(), missing());
    r.p.make_function_declaration(missing(), h, missing());
    let (_, elt) = fun(&r, 3);
    assert!(matches!(fun_type(elt.type_).ret.type_.1, Ty_::Tany));
}

#[test]
fn functions_that_cannot_be_read() {
    let mut r = Reader::new("f $x");
    let f = name(&mut r, "f");
    let x = r.tok(TokenKind::Variable, "$x");
    r.p.make_function_declaration(missing(), missing(), missing());
    // A parameter list that is no list.
    let h = header(&mut r, missing(), f, missing(), x, missing(), missing());
    r.p.make_function_declaration(missing(), h, missing());
    // A hint that is no type.
    let bad = r.p.make_list_item(f, x);
    let p = r.p.make_parameter_declaration(
        missing(), missing(), missing(), missing(), bad, x, missing(),
    );
    let params = r.list(vec![p]);
    let h = header(&mut r, missing(), f, missing(), params, missing(), missing());
    r.p.make_function_declaration(missing(), h, missing());
    assert!(r.p.decls.entries.is_empty());
    assert!(matches!(
        r.p.make_parameter_declaration(
            missing(), missing(), missing(), missing(), f, missing(), missing(),
        ),
        Node::Ignored(SyntaxKind::ParameterDeclaration)
    ));
    assert!(r.p.as_fun_params(missing()).unwrap().0.is_empty());
}

#[test]
fn where_constraints() {
    let mut r = Reader::new("A = B");
    let a = name(&mut r, "A");
    let eq = r.tok(TokenKind::Equal, "=");
    let b = name(&mut r, "B");
    match r.p.make_where_constraint(a, eq, b) {
        Node::WhereConstraint(WhereConstraint(left, ConstraintKind::ConstraintEq, right)) => {
            assert_eq!(applied_to(left).0, b"\\A");
            assert_eq!(applied_to(right).0, b"\\B");
        }
        _ => panic!("not a constraint"),
    }
    assert!(matches!(
        r.p.make_where_constraint(missing(), missing(), b),
        Node::WhereConstraint(WhereConstraint(
            Ty(Reason::Rnone, Ty_::Tany),
            ConstraintKind::ConstraintAs,
            _
        ))
    ));
}

fn constant(r: &mut Reader, n: &str, value: &str) -> Node<'static> {
    r.p.begin_constant_declarator();
    let n = name(r, n);
    let value = r.tok(TokenKind::DecimalLiteral, value);
    r.p.make_constant_declarator(n, value)
}

#[test]
fn global_constants() {
    let mut r = Reader::new("const X = 1, Y = 2;");
    let keyword = r.tok(TokenKind::Const, "const");
    let x = constant(&mut r, "X", "1");
    let y = constant(&mut r, "Y", "2");
    let list = r.list(vec![x, y]);
    let semicolon = r.tok(TokenKind::Semicolon, ";");
    let node = r.p.make_const_declaration(missing(), keyword, missing(), list, semicolon);
    assert!(matches!(node, Node::Ignored(SyntaxKind::ConstDeclaration)));
    assert_eq!(r.p.decls.entries.len(), 2);
    for (i, full) in [&b"\\X"[..], &b"\\Y"[..]].into_iter().enumerate() {
        match r.p.decls.entries[i] {
            (n, Decl::Const(decl)) => {
                assert_eq!(n, full);
                assert_eq!(span(decl.pos), (0, 19));
                assert!(matches!(decl.type_.1, Ty_::Tprim(Tprim::Tint)));
            }
            _ => panic!("not a constant"),
        }
    }
    assert!(matches!(
        r.p.make_constant_declarator(missing(), missing()),
        Node::Ignored(SyntaxKind::ConstantDeclarator)
    ));
}

#[test]
fn class_constants() {
    let mut r = Reader::new("class C abstract const X = 1 string");
    r.tok(TokenKind::Class, "class");
    name(&mut r, "C");
    let abs = r.tok(TokenKind::Abstract, "abstract");
    let x = constant(&mut r, "X", "1");
    let list = r.list(vec![x]);
    let node = r.p.make_const_declaration(abs, missing(), missing(), list, missing());
    assert!(r.p.decls.entries.is_empty());
    match node.nth(0) {
        Node::Const(c) => {
            assert_eq!(c.name.1, b"X");
            assert!(c.abstract_ == ClassConstKind::CCAbstract(true));
            assert!(matches!(c.type_.1, Ty_::Tprim(Tprim::Tint)));
        }
        _ => panic!("not a constant"),
    }
    let string = r.tok(TokenKind::String, "string");
    let node = r.p.make_const_declaration(missing(), missing(), string, list, missing());
    match node.nth(0) {
        Node::Const(c) => {
            assert!(c.abstract_ == ClassConstKind::CCConcrete);
            assert!(matches!(c.type_.1, Ty_::Tprim(Tprim::Tstring)));
        }
        _ => panic!("not a constant"),
    }
}

#[test]
fn namespaces_with_braces() {
    let mut r = Reader::new("namespace A { type B = int; } type C = int;");
    let a = name(&mut r, "A");
    r.p.make_namespace_declaration_header(missing(), a);
    assert_eq!(r.p.namespace_builder.current_namespace(), Some(&b"A"[..]));
    let b = name(&mut r, "B");
    let int = r.tok(TokenKind::Int, "int");
    r.p.make_alias_declaration(
        missing(), missing(), b, missing(), missing(), missing(), int, missing(),
    );
    assert_eq!(typedef(&r, 0).0, b"\\A\\B");
    let body = r.p.make_namespace_body(missing(), missing(), missing());
    r.p.make_namespace_declaration(missing(), body);
    assert_eq!(r.p.namespace_builder.current_namespace(), None);
    let c = name(&mut r, "C");
    r.p.make_alias_declaration(
        missing(), missing(), c, missing(), missing(), missing(), int, missing(),
    );
    assert_eq!(typedef(&r, 1).0, b"\\C");
}

#[test]
fn namespaces_without_braces() {
    let mut r = Reader::new("namespace Y; namespace X;");
    for n in ["Y", "X"] {
        let node = name(&mut r, n);
        r.p.make_namespace_declaration_header(missing(), node);
        let body = r.p.make_namespace_empty_body(missing());
        r.p.make_namespace_declaration(missing(), body);
        assert_eq!(r.p.namespace_builder.current_namespace(), Some(n.as_bytes()));
    }
    assert_eq!(r.p.namespace_builder.stack.len(), 2);
}

#[test]
fn use_declarations() {
    let mut r = Reader::new("use type A\\B as D; use N\\{P, Q as R};");
    let type_ = r.tok(TokenKind::Type, "type");
    let a = name(&mut r, "A");
    let slash = r.tok(TokenKind::Backslash, "\\");
    let item = r.p.make_list_item(a, slash);
    let b = name(&mut r, "B");
    let parts = r.list(vec![item, b]);
    let full = r.p.make_qualified_name(parts);
    let as_ = r.tok(TokenKind::As, "as");
    let d = name(&mut r, "D");
    let clause = r.p.make_namespace_use_clause(missing(), full, as_, d);
    r.p.make_namespace_use_declaration(missing(), type_, clause, missing());
    let env = r.p.namespace_builder.current_env();
    assert_eq!(env.class_uses.get(b"D"), Some(&&b"\\A\\B"[..]));
    assert_eq!(env.ns_uses.get(b"D"), None);
    let n = name(&mut r, "N");
    let slash = r.tok(TokenKind::Backslash, "\\");
    let prefix = r.p.make_list_item(n, slash);
    let prefix = r.list(vec![prefix]);
    let prefix = r.p.make_qualified_name(prefix);
    let p = name(&mut r, "P");
    let p = r.p.make_namespace_use_clause(missing(), p, missing(), missing());
    let q = name(&mut r, "Q");
    let as_ = r.tok(TokenKind::As, "as");
    let alias = name(&mut r, "R");
    assert!(matches!(
        r.p.make_namespace_use_clause(missing(), q, as_, missing()),
        Node::Ignored(SyntaxKind::NamespaceUseClause)
    ));
    let q = r.p.make_namespace_use_clause(missing(), q, as_, alias);
    let clauses = r.list(vec![p, q]);
    r.p.make_namespace_group_use_declaration(
        missing(), missing(), prefix, missing(), clauses, missing(), missing(),
    );
    let env = r.p.namespace_builder.current_env();
    assert_eq!(env.class_uses.get(b"P"), Some(&&b"\\N\\P"[..]));
    assert_eq!(env.ns_uses.get(b"R"), Some(&&b"\\N\\Q"[..]));
    let dname = r.p.node_to_ty(d).unwrap();
    assert_eq!(applied_to(dname).0, b"\\A\\B");
    let function = r.tok(TokenKind::RightBrace, "}");
    assert!(namespace_use_kind(&function).is_none());
    assert!(matches!(namespace_use_kind(&type_), Some(NamespaceUseKind::Type)));
    assert!(matches!(namespace_use_kind(&missing()), Some(NamespaceUseKind::Mixed)));
}
