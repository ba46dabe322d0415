use bumpalo::Bump;
use direct_decl::arena::Items;
use direct_decl::decls::{ClassConstFrom, ClassConstRef};
use direct_decl::host::{Answer, Query};
use direct_decl::namespace::{AutoImport, NamespaceEnv, NamespaceUseKind};
use direct_decl::node::{read_member_modifiers, Modifiers, Node};
use direct_decl::parser::{DeclParserOptions, DirectDeclSmartConstructors, NoSourceTextAllocator};
use direct_decl::source::{IndexedSourceText, Pos, Prefix, RelativePath, SourceText};
use direct_decl::syntax::{
    Bop,
    ClassId,
    ClassId_,
    ElaborateKind,
    Expr,
    Expr_,
    Id,
    Mode,
    Tprim,
    Uop,
    Visibility,
};
use direct_decl::token::{CompactToken, SyntaxKind, TokenKind};
use direct_decl::tokens::{is_zero, zero};
use direct_decl::types::{IfcFunDecl, Reason, Ty, Ty_};

type Parser = DirectDeclSmartConstructors<
    'static,
    'static,
    NoSourceTextAllocator,
    fn(Query<'static, 'static>) -> Answer<'static, 'static>,
>;

fn leak(bytes: Vec<u8>) -> &'static [u8] {
    Box::leak(bytes.into_boxed_slice())
}

fn in_namespace(env: &NamespaceEnv<'static>, name: &[u8]) -> Vec<u8> {
    let mut full = b"\\".to_vec();
    if let Some(ns) = env.name {
        full.extend_from_slice(ns);
        full.push(b'\\');
    }
    full.extend_from_slice(name);
    full
}

/// A small stand-in for the rest of the toolchain.
fn answer(query: Query<'static, 'static>) -> Answer<'static, 'static> {
    match query {
        Query::RawId(env, ElaborateKind::Class, name) => match env.class_uses.get(name) {
            Some(full) => Answer::Name(full),
            None => Answer::Name(leak(in_namespace(&env, name))),
        },
        Query::RawId(_, ElaborateKind::Const, name) => {
            let mut full = b"\\const\\".to_vec();
            full.extend_from_slice(name);
            Answer::Name(leak(full))
        }
        Query::CurrentNamespace(env, name) => Answer::Name(leak(in_namespace(&env, name))),
        Query::XhpNamespace(name) => {
            if name.starts_with(b":x") {
                Answer::Name(b"\\x\\elt")
            } else {
                Answer::Nothing
            }
        }
        Query::Unquote(text) => Answer::Source(&text[1..text.len() - 1]),
        Query::Unescape(_, text) => {
            if text.starts_with(b"bad") {
                Answer::Nothing
            } else {
                Answer::Name(text)
            }
        }
    }
}

struct Reader {
    p: Parser,
    at: usize,
}

impl Reader {
    fn with(source: &'static [u8], mode: Mode, soft: bool, mangling: bool) -> Reader {
        let arena: &'static Bump = Box::leak(Box::new(Bump::new()));
        let mut starts: Vec<usize> = vec![0];
        for i in 0..source.len() {
            if source[i] == b'\n' {
                starts.push(i + 1);
            }
        }
        let opts: &'static DeclParserOptions<'static> = Box::leak(Box::new(DeclParserOptions {
            auto_namespace_map: Items::from_slice(Box::leak(Box::new([(
                &b"C"[..],
                &b"HH\\Lib\\C"[..],
            )]))),
            auto_import: AutoImport {
                namespaces: Items::from_slice(Box::leak(Box::new([&b"Lib"[..]]))),
                types: Items::from_slice(Box::leak(Box::new([&b"Vector"[..]]))),
            },
            disable_xhp_element_mangling: mangling,
            interpret_soft_types_as_like_types: soft,
            everything_sdt: false,
        }));
        let text = IndexedSourceText {
            source_text: SourceText {
                file_path: RelativePath { prefix: Prefix::Root, path: b"a.php" },
                text: source,
            },
            line_starts: Box::leak(starts.into_boxed_slice()),
        };
        let host: fn(Query<'static, 'static>) -> Answer<'static, 'static> = answer;
        Reader {
            p: DirectDeclSmartConstructors::new(
                opts,
                text,
                mode,
                arena,
                NoSourceTextAllocator,
                host,
            ),
            at: 0,
        }
    }

    fn new(source: &'static str) -> Reader {
        Reader::with(source.as_bytes(), Mode::Mstrict, false, false)
    }

    /// Reads the next occurrence of `text` as a token of the given kind.
    fn tok(&mut self, kind: TokenKind, text: &str) -> Node<'static> {
        let source = self.p.source_text.source_text.text;
        let bytes = text.as_bytes();
        let mut start = self.at;
        while &source[start..start + bytes.len()] != bytes {
            start += 1;
        }
        self.at = start + bytes.len();
        self.p.make_token(CompactToken { kind, start_offset: start, width: bytes.len() })
    }

    fn list(&mut self, nodes: Vec<Node<'static>>) -> Node<'static> {
        self.p.make_list(nodes, 0)
    }
}

fn missing() -> Node<'static> {
    Node::Ignored(SyntaxKind::Missing)
}

fn ty_of(node: Node<'static>) -> &'static Ty<'static> {
    match node {
        Node::Ty(ty) => ty,
        _ => panic!("not a type"),
    }
}

fn applied_to(ty: &Ty<'static>) -> (&'static [u8], Items<'static, &'static Ty<'static>>) {
    match ty.1 {
        Ty_::Tapply(of) => (of.0.1, of.1),
        _ => panic!("not an application"),
    }
}

fn span(pos: &Pos<'static>) -> (usize, usize) {
    (pos.start_cnum(), pos.end_cnum())
}

#[test]
fn a_new_parser_is_in_the_global_namespace() {
    let r = Reader::new("");
    assert!(r.p.decls.entries.is_empty());
    assert!(r.p.const_refs.is_none());
    assert!(r.p.type_parameters.is_empty());
    assert!(r.p.previous_token_kind == TokenKind::EndOfFile);
    assert_eq!(r.p.filename.path, b"a.php");
    let env = r.p.namespace_builder.current_env();
    assert_eq!(env.name, None);
    assert_eq!(env.ns_uses.get(b"Lib"), Some(&&b"HH\\Lib"[..]));
    assert_eq!(env.ns_uses.get(b"C"), Some(&&b"HH\\Lib\\C"[..]));
    assert_eq!(env.class_uses.get(b"Vector"), Some(&&b"HH\\Vector"[..]));
    assert_eq!(env.class_uses.get(b"Lib"), None);
}

#[test]
fn tokens_are_read_by_kind() {
    let mut r = Reader::new("foo $bar 12 1.5 TRUE int mixed double + ; while vec");
    assert!(matches!(r.tok(TokenKind::Name, "foo"), Node::Name((b"foo", pos)) if span(pos) == (0, 3)));
    assert!(matches!(r.tok(TokenKind::Variable, "$bar"), Node::Variable((b"$bar", _))));
    assert!(matches!(r.tok(TokenKind::DecimalLiteral, "12"), Node::IntLiteral((b"12", _))));
    assert!(matches!(r.tok(TokenKind::FloatingLiteral, "1.5"), Node::FloatingLiteral(_)));
    assert!(matches!(r.tok(TokenKind::BooleanLiteral, "TRUE"), Node::BooleanLiteral(_)));
    let int = ty_of(r.tok(TokenKind::Int, "int"));
    assert!(matches!(int.1, Ty_::Tprim(Tprim::Tint)));
    assert_eq!(span(int.get_pos().unwrap()), (21, 24));
    assert!(matches!(ty_of(r.tok(TokenKind::Mixed, "mixed")).1, Ty_::Tmixed));
    let double = ty_of(r.tok(TokenKind::Double, "double"));
    assert_eq!(applied_to(double).0, b"double");
    let plus = r.tok(TokenKind::Plus, "+");
    assert!(plus.is_token(TokenKind::Plus));
    assert!(r.tok(TokenKind::Semicolon, ";").is_token(TokenKind::Semicolon));
    assert!(matches!(
        r.tok(TokenKind::While, "while"),
        Node::Ignored(SyntaxKind::Token(TokenKind::While))
    ));
    assert!(matches!(r.tok(TokenKind::Vec, "vec"), Node::Name((b"vec", _))));
    assert!(r.p.previous_token_kind == TokenKind::Vec);
}

#[test]
fn string_literals_are_unescaped() {
    let mut r = Reader::new("'abc' \"bad\\q\"");
    assert!(matches!(
        r.tok(TokenKind::SingleQuotedStringLiteral, "'abc'"),
        Node::StringLiteral((b"abc", pos)) if span(pos) == (0, 5)
    ));
    assert!(matches!(
        r.tok(TokenKind::DoubleQuotedStringLiteral, "\"bad\\q\""),
        Node::Ignored(SyntaxKind::Token(TokenKind::DoubleQuotedStringLiteral))
    ));
}

#[test]
fn ill_formed_text_is_replaced() {
    let mut r = Reader::with(b"a\xff", Mode::Mstrict, false, false);
    let node = r.p.make_token(CompactToken { kind: TokenKind::Name, start_offset: 0, width: 2 });
    r.at = 2;
    match node {
        Node::Name(of) => assert_eq!(of.0, "a\u{fffd}".as_bytes()),
        _ => panic!("not a name"),
    }
}

#[test]
fn a_name_behind_class_is_the_current_class() {
    let mut r = Reader::new("class C trait D");
    r.tok(TokenKind::Class, "class");
    assert!(r.p.classish_name_builder.get_current_classish_name().is_none());
    r.tok(TokenKind::Name, "C");
    let (name, pos) = r.p.classish_name_builder.get_current_classish_name().unwrap();
    assert_eq!(name, b"\\C");
    assert_eq!(span(pos), (6, 7));
    r.tok(TokenKind::Trait, "trait");
    r.tok(TokenKind::Name, "D");
    assert_eq!(r.p.classish_name_builder.get_current_classish_name().unwrap().0, b"\\C");
}

#[test]
fn xhp_names_are_paths_where_mangling_is_off() {
    let mut r = Reader::with(b":x:elt :y", Mode::Mstrict, false, true);
    let x = r.tok(TokenKind::XHPClassName, ":x:elt");
    assert_eq!(r.p.elaborate_defined_id(x).unwrap().1, b"\\x\\elt");
    let y = r.tok(TokenKind::XHPClassName, ":y");
    assert_eq!(r.p.elaborate_defined_id(y).unwrap().1, b"\\:y");
    let mut r = Reader::new(":x:elt");
    let x = r.tok(TokenKind::XHPClassName, ":x:elt");
    assert_eq!(r.p.elaborate_defined_id(x).unwrap().1, b"\\:x:elt");
}

fn qualified(r: &mut Reader) -> Node<'static> {
    let a = r.tok(TokenKind::Name, "A");
    let slash = r.tok(TokenKind::Backslash, "\\");
    let first = r.p.make_list_item(a, slash);
    let b = r.tok(TokenKind::Name, "B");
    let parts = r.list(vec![first, b]);
    r.p.make_qualified_name(parts)
}

#[test]
fn qualified_names() {
    let mut r = Reader::new("A\\B");
    let node = qualified(&mut r);
    let id = r.p.expect_name(node).unwrap();
    assert_eq!(id.1, b"A\\B");
    assert_eq!(span(id.0), (0, 3));
    assert_eq!(r.p.elaborate_defined_id(node).unwrap().1, b"\\A\\B");
    // With space inside, the parts are put together.
    let mut r = Reader::new("A \\ B");
    let node = qualified(&mut r);
    let id = r.p.expect_name(node).unwrap();
    assert_eq!(id.1, b"A\\B");
    assert_eq!(span(id.0), (0, 5));
    assert!(matches!(
        r.p.make_qualified_name(missing()),
        Node::Ignored(SyntaxKind::QualifiedName)
    ));
}

#[test]
fn names_relative_to_the_namespace() {
    let mut r = Reader::new("namespace \\ B");
    let ns = r.tok(TokenKind::Namespace, "namespace");
    let slash = r.tok(TokenKind::Backslash, "\\");
    let first = r.p.make_list_item(ns, slash);
    let b = r.tok(TokenKind::Name, "B");
    let parts = r.list(vec![first, b]);
    let node = r.p.make_qualified_name(parts);
    assert_eq!(r.p.expect_name(node).unwrap().1, b"namespace\\B");
}

#[test]
fn lists() {
    let mut r = Reader::new("a yield ; required");
    let a = r.tok(TokenKind::Name, "a");
    let yield_ = r.tok(TokenKind::Yield, "yield");
    let semicolon = r.tok(TokenKind::Semicolon, ";");
    let required = r.tok(TokenKind::Required, "required");
    assert!(matches!(r.list(vec![missing()]), Node::Ignored(SyntaxKind::SyntaxList)));
    let list = r.list(vec![a, missing(), semicolon]);
    assert_eq!(list.len(), 2);
    assert!(matches!(list.nth(0), Node::Name(_)));
    assert!(list.nth(1).is_token(TokenKind::Semicolon));
    let inner = r.list(vec![a, yield_]);
    assert!(inner.is_token(TokenKind::Yield));
    let outer = r.list(vec![list, r.p.make_list_item(yield_, missing())]);
    assert!(outer.is_token(TokenKind::Yield));
    assert!(is_zero(&a) && is_zero(&semicolon) && is_zero(&list));
    assert!(!is_zero(&yield_) && !is_zero(&required));
    assert!(matches!(
        r.p.flatten(SyntaxKind::Missing, vec![a, semicolon]),
        Node::Ignored(SyntaxKind::Missing)
    ));
    assert!(r.p.flatten(SyntaxKind::Missing, vec![a, yield_]).is_token(TokenKind::Yield));
    let flat = r.p.flatten(SyntaxKind::Missing, vec![list, a, required]);
    assert_eq!(flat.len(), 3);
    assert!(flat.nth(2).is_token(TokenKind::Required));
    assert!(matches!(zero(SyntaxKind::ListItem), Node::Ignored(SyntaxKind::ListItem)));
}

#[test]
fn elements_of_nodes() {
    let mut r = Reader::new("a ,");
    let a = r.tok(TokenKind::Name, "a");
    assert_eq!(a.len(), 1);
    assert!(matches!(a.nth(0), Node::Name(_)));
    assert_eq!(a.as_slice(r.p.arena).len(), 1);
    assert_eq!(missing().len(), 0);
    assert_eq!(missing().as_slice(r.p.arena).len(), 0);
    assert!(a.is_name() && a.is_present() && !a.is_ignored());
    assert!(missing().is_missing());
    assert_eq!(a.as_id().unwrap().1, b"a");
    assert_eq!(a.as_variable().unwrap().1, b"a");
    assert!(a.as_visibility().is_none());
}

#[test]
fn modifiers_are_collected() {
    let mut r = Reader::new("public static abstract private");
    let nodes = vec![
        r.tok(TokenKind::Public, "public"),
        r.tok(TokenKind::Static, "static"),
        r.tok(TokenKind::Abstract, "abstract"),
        r.tok(TokenKind::Private, "private"),
    ];
    let list = r.list(nodes);
    let read = read_member_modifiers(list);
    assert_eq!(
        read,
        Modifiers {
            is_static: true,
            visibility: Visibility::Private,
            is_abstract: true,
            is_final: false,
            is_readonly: false,
        }
    );
    assert!(read_member_modifiers(missing()).visibility == Visibility::Public);
}

#[test]
fn positions_of_nodes() {
    let mut r = Reader::new("a bb\nccc");
    let a = r.tok(TokenKind::Name, "a");
    let b = r.tok(TokenKind::Name, "bb");
    let c = r.tok(TokenKind::Name, "ccc");
    assert_eq!(span(r.p.get_pos(b)), (2, 4));
    let list = r.list(vec![c, a]);
    assert_eq!(span(r.p.get_pos(list)), (0, 8));
    assert_eq!(span(r.p.merge_positions(b, c)), (2, 8));
    assert!(r.p.get_pos_opt(missing()).is_none());
    assert!(r.p.get_pos(missing()).is_none());
    let bracketed = r.p.make_type_arguments(a, b, c);
    assert_eq!(span(r.p.get_pos(bracketed)), (0, 8));
    assert_eq!(bracketed.len(), 1);
    match r.p.get_pos(c) {
        Pos::At(file, start, end) => {
            assert_eq!(file.path, b"a.php");
            assert_eq!((start.line, start.bol, start.offset), (2, 5, 5));
            assert_eq!((end.line, end.bol, end.offset), (2, 5, 8));
        }
        Pos::NoPos => panic!("no position"),
    }
    assert_eq!(span(r.p.pos_from_slice(&[a, missing(), b])), (0, 4));
}

fn ty(r: &Reader, node: Node<'static>) -> Ty_<'static> {
    r.p.node_to_ty(node).unwrap().1
}

#[test]
fn names_as_types() {
    let mut r = Reader::new("Foo nothing nonnull dynamic vec_or_dict _ Vector T");
    let foo = r.tok(TokenKind::Name, "Foo");
    assert_eq!(applied_to(r.p.node_to_ty(foo).unwrap()).0, b"\\Foo");
    let n = r.tok(TokenKind::Name, "nothing");
    assert!(matches!(ty(&r, n), Ty_::Tunion(tys) if tys.is_empty()));
    let n = r.tok(TokenKind::Name, "nonnull");
    assert!(matches!(ty(&r, n), Ty_::Tnonnull));
    let n = r.tok(TokenKind::Name, "dynamic");
    assert!(matches!(ty(&r, n), Ty_::Tdynamic));
    let n = r.tok(TokenKind::Name, "vec_or_dict");
    match ty(&r, n) {
        Ty_::TvecOrDict(of) => {
            assert!(matches!(of.0 .0, Reason::RvecOrDictKey(_)));
            assert!(matches!(of.0 .1, Ty_::Tprim(Tprim::Tarraykey)));
            assert!(matches!(of.1 .1, Ty_::Tany));
        }
        _ => panic!("not a vec_or_dict"),
    }
    let n = r.tok(TokenKind::Name, "_");
    assert!(matches!(ty(&r, n), Ty_::Terr));
    let n = r.tok(TokenKind::Name, "Vector");
    assert_eq!(applied_to(r.p.node_to_ty(n).unwrap()).0, b"HH\\Vector");
    let t = r.tok(TokenKind::Name, "T");
    r.p.type_parameters.push(Items::from_slice(Box::leak(Box::new([&b"T"[..]]))));
    assert!(matches!(ty(&r, t), Ty_::Tgeneric((b"T", targs)) if targs.is_empty()));
    assert!(r.p.is_type_param_in_scope(b"T"));
    assert!(!r.p.is_type_param_in_scope(b"U"));
    assert!(r.p.node_to_ty(missing()).is_none());
}

#[test]
fn tokens_and_literals_as_types() {
    let mut r = Reader::new("varray darray this null void 1 'a' $f");
    let n = r.tok(TokenKind::Varray, "varray");
    let (name, targs) = applied_to(r.p.node_to_ty(n).unwrap());
    assert_eq!(name, b"\\HH\\vec");
    assert_eq!(targs.len(), 1);
    let n = r.tok(TokenKind::Darray, "darray");
    let (name, targs) = applied_to(r.p.node_to_ty(n).unwrap());
    assert_eq!(name, b"\\HH\\dict");
    assert_eq!(targs.len(), 2);
    let n = r.tok(TokenKind::This, "this");
    assert!(matches!(ty(&r, n), Ty_::Tthis));
    let n = r.tok(TokenKind::NullLiteral, "null");
    assert!(matches!(ty(&r, n), Ty_::Tprim(Tprim::Tnull)));
    let n = r.tok(TokenKind::Void, "void");
    assert!(matches!(ty(&r, n), Ty_::Tprim(Tprim::Tvoid)));
    assert!(matches!(r.p.node_to_non_ret_ty(n).unwrap().1, Ty_::Terr));
    let n = r.tok(TokenKind::DecimalLiteral, "1");
    let int = r.p.node_to_ty(n).unwrap();
    assert!(matches!(int.0, Reason::RwitnessFromDecl(_)));
    assert!(matches!(int.1, Ty_::Tprim(Tprim::Tint)));
    assert!(matches!(r.p.node_to_non_ret_ty(n).unwrap().1, Ty_::Tprim(Tprim::Tint)));
    let n = r.tok(TokenKind::SingleQuotedStringLiteral, "'a'");
    assert!(matches!(ty(&r, n), Ty_::Tprim(Tprim::Tstring)));
    let n = r.tok(TokenKind::Variable, "$f");
    assert_eq!(applied_to(r.p.node_to_ty(n).unwrap()).0, b"$f");
}

#[test]
fn expressions() {
    let mut r = Reader::new("-1 $x++ 1 + FOO true null");
    let minus = r.tok(TokenKind::Minus, "-");
    let one = r.tok(TokenKind::DecimalLiteral, "1");
    let neg = r.p.make_prefix_unary_expression(minus, one);
    match neg {
        Node::Expr(Expr(pos, Expr_::Unop((Uop::Uminus, Expr(_, Expr_::Int(b"1")))))) => {
            assert_eq!(span(pos), (0, 2));
        }
        _ => panic!("not a negation"),
    }
    assert!(neg.is_prefix_unary_expression());
    assert!(matches!(ty(&r, neg), Ty_::Tprim(Tprim::Tint)));
    assert!(matches!(r.p.infer_const(missing(), neg).unwrap().1, Ty_::Tprim(Tprim::Tint)));
    let x = r.tok(TokenKind::Variable, "$x");
    let incr = r.tok(TokenKind::PlusPlus, "++");
    assert!(matches!(
        r.p.make_postfix_unary_expression(x, incr),
        Node::Ignored(SyntaxKind::PostfixUnaryExpression)
    ));
    assert!(matches!(
        r.p.make_postfix_unary_expression(one, incr),
        Node::Expr(Expr(_, Expr_::Unop((Uop::Upincr, _))))
    ));
    let lhs = r.tok(TokenKind::DecimalLiteral, "1");
    let plus = r.tok(TokenKind::Plus, "+");
    let foo = r.tok(TokenKind::Name, "FOO");
    match r.p.make_binary_expression(lhs, plus, foo) {
        Node::Expr(Expr(pos, Expr_::Binop((Bop::Plus, _, Expr(_, Expr_::Id(id)))))) => {
            assert_eq!(id.1, b"\\const\\FOO");
            assert_eq!(span(pos), (8, 15));
        }
        _ => panic!("not a sum"),
    }
    let t = r.tok(TokenKind::BooleanLiteral, "true");
    assert!(matches!(r.p.node_to_expr(t), Some(Expr(_, Expr_::True))));
    let null = r.tok(TokenKind::NullLiteral, "null");
    assert!(matches!(r.p.node_to_expr(null), Some(Expr(_, Expr_::Null))));
    assert!(matches!(r.p.infer_const(foo, null).unwrap().1, Ty_::Tprim(Tprim::Tnull)));
    let unknown = r.p.infer_const(foo, missing()).unwrap();
    assert!(matches!(unknown.1, Ty_::Tany));
    assert_eq!(span(unknown.get_pos().unwrap()), (12, 15));
    assert!(matches!(
        r.p.make_prefix_unary_expression(foo, one),
        Node::Ignored(SyntaxKind::PrefixUnaryExpression)
    ));
}

#[test]
fn assignments_of_yield() {
    let mut r = Reader::new("a = yield");
    let a = r.tok(TokenKind::Name, "a");
    let eq = r.tok(TokenKind::Equal, "=");
    let y = r.tok(TokenKind::Yield, "yield");
    let y = r.p.make_yield_expression(y, missing());
    assert!(r.p.make_binary_expression(a, eq, y).is_token(TokenKind::Yield));
    assert!(matches!(r.p.make_simple_initializer(eq, missing()), n if n.is_token(TokenKind::Equal)));
    assert!(matches!(r.p.make_simple_initializer(eq, a), Node::Name(_)));
    assert!(matches!(
        r.p.make_lambda_expression(missing(), missing(), missing(), missing(), y),
        Node::Ignored(SyntaxKind::LambdaExpression)
    ));
}

#[test]
fn list_items() {
    let mut r = Reader::new("a ;");
    let a = r.tok(TokenKind::Name, "a");
    let sep = r.tok(TokenKind::Semicolon, ";");
    assert!(matches!(r.p.make_list_item(a, sep), Node::ListItem((Node::Name(_), Node::Token(_)))));
    assert!(matches!(r.p.make_list_item(a, missing()), Node::Name(_)));
    assert!(r.p.make_list_item(missing(), sep).is_token(TokenKind::Semicolon));
    assert!(matches!(
        r.p.make_list_item(missing(), missing()),
        Node::Ignored(SyntaxKind::ListItem)
    ));
}

#[test]
fn class_constants_are_collected() {
    let mut r = Reader::new("B::X self::Y A::X X");
    let b = r.tok(TokenKind::Name, "B");
    let x = r.tok(TokenKind::Name, "X");
    // Nothing is collected before it has begun.
    r.p.make_scope_resolution_expression(b, missing(), x);
    assert!(r.p.const_refs.is_none());
    r.p.begin_constant_declarator();
    let expr = r.p.make_scope_resolution_expression(b, missing(), x);
    assert!(expr.is_scope_resolution_expression());
    let s = r.tok(TokenKind::SelfToken, "self");
    let y = r.tok(TokenKind::Name, "Y");
    let expr = r.p.make_scope_resolution_expression(s, missing(), y);
    assert!(matches!(
        expr,
        Node::Expr(Expr(_, Expr_::ClassConst((ClassId(_, ClassId_::CIself), (_, b"Y")))))
    ));
    let a = r.tok(TokenKind::Name, "A");
    let x = r.tok(TokenKind::Name, "X");
    r.p.make_scope_resolution_expression(a, missing(), x);
    let name = r.tok(TokenKind::Name, "X");
    match r.p.make_constant_declarator(name, expr) {
        Node::ConstInitializer(of) => {
            let refs = of.2;
            assert_eq!(refs.len(), 3);
            assert!(matches!(refs.at(0), ClassConstRef(ClassConstFrom::Self_, b"Y")));
            assert!(matches!(refs.at(1), ClassConstRef(ClassConstFrom::From(b"\\A"), b"X")));
            assert!(matches!(refs.at(2), ClassConstRef(ClassConstFrom::From(b"\\B"), b"X")));
        }
        _ => panic!("not a declarator"),
    }
    assert!(r.p.const_refs.is_none());
    assert!(r.p.stop_accumulating_const_refs().is_empty());
}

#[test]
fn attributes() {
    let mut r = Reader::new("<<__Deprecated('no'.'w'), __Policied(Foo::class), __Module('a.b.c'), Bar>>");
    let ltlt = r.tok(TokenKind::LessThanLessThan, "<<");
    let name = r.tok(TokenKind::Name, "__Deprecated");
    let s1 = r.tok(TokenKind::SingleQuotedStringLiteral, "'no'");
    let dot = r.tok(TokenKind::Dot, ".");
    let s2 = r.tok(TokenKind::SingleQuotedStringLiteral, "'w'");
    let sum = r.p.make_binary_expression(s1, dot, s2);
    let deprecated = r.p.make_constructor_call(name, missing(), sum, missing());
    let name = r.tok(TokenKind::Name, "__Policied");
    let foo = r.tok(TokenKind::Name, "Foo");
    let class = r.tok(TokenKind::Class, "class");
    let class = r.p.make_scope_resolution_expression(foo, missing(), class);
    let policied = r.p.make_constructor_call(name, missing(), class, missing());
    let name = r.tok(TokenKind::Name, "__Module");
    let module = r.tok(TokenKind::SingleQuotedStringLiteral, "'a.b.c'");
    let module = r.p.make_constructor_call(name, missing(), module, missing());
    let bar = r.tok(TokenKind::Name, "Bar");
    let bar = r.p.make_constructor_call(bar, missing(), s1, missing());
    match bar {
        Node::Attribute(of) => {
            assert_eq!(of.name.1, b"\\Bar");
            assert!(of.string_literal_params.is_empty());
        }
        _ => panic!("not an attribute"),
    }
    let gtgt = r.tok(TokenKind::GreaterThanGreaterThan, ">>");
    let list = r.list(vec![deprecated, policied, module, bar]);
    let spec = r.p.make_old_attribute_specification(ltlt, list, gtgt);
    let read = r.p.to_attributes(spec);
    assert_eq!(read.deprecated, Some(&b"now"[..]));
    assert!(matches!(read.ifc_attribute, IfcFunDecl::FDPolicied(Some(b"\\Foo"))));
    let module = read.module.unwrap();
    assert_eq!(module.0, b"a");
    assert_eq!(module.1.len(), 2);
    assert_eq!(*module.1.at(1), b"c");
    assert!(!read.const_ && !read.internal && !read.soft);
    let none = r.p.to_attributes(missing());
    assert!(none.deprecated.is_none() && none.module.is_none());
    assert!(matches!(none.ifc_attribute, IfcFunDecl::FDPolicied(Some(b"PUBLIC"))));
    assert!(matches!(
        r.p.make_old_attribute_specification(ltlt, missing(), gtgt),
        Node::Ignored(SyntaxKind::OldAttributeSpecification)
    ));
}

#[test]
fn of_two_attributes_the_first_counts() {
    let mut r = Reader::new("__InferFlows __Reifiable __Reifiable __LateInit __Policied");
    let mut nodes = Vec::new();
    for text in ["__InferFlows", "__Reifiable", "__Reifiable", "__LateInit"] {
        let name = r.tok(TokenKind::Name, text);
        nodes.push(r.p.make_constructor_call(name, missing(), missing(), missing()));
    }
    let list = r.list(nodes.clone());
    let read = r.p.to_attributes(list);
    assert_eq!(span(read.reifiable.unwrap()), (13, 24));
    assert!(read.late_init);
    assert!(matches!(read.ifc_attribute, IfcFunDecl::FDInferFlows));
    let name = r.tok(TokenKind::Name, "__Policied");
    nodes.push(r.p.make_constructor_call(name, missing(), missing(), missing()));
    let list = r.list(nodes);
    assert!(matches!(r.p.to_attributes(list).ifc_attribute, IfcFunDecl::FDPolicied(None)));
}

#[test]
fn imported_types_are_elaborated() {
    let mut r = Reader::new("B");
    r.p.namespace_builder.push_namespace(Some(b"N"));
    r.p.namespace_builder.add_import(NamespaceUseKind::Type, b"A\\B", None);
    let b = r.tok(TokenKind::Name, "B").as_id().unwrap();
    let full = r.p.elaborate_id(b);
    assert_eq!(full.1, b"\\A\\B");
    assert_eq!(span(full.0), span(b.0));
    assert_eq!(r.p.elaborate_id(full).1, b"\\A\\B");
    let other = r.p.elaborate_id(Id(b.0, b"C"));
    assert_eq!(other.1, b"\\N\\C");
}

#[test]
fn only_named_classes_and_self_are_referred_to() {
    let mut r = Reader::new("X");
    let x = r.tok(TokenKind::Name, "X").as_id().unwrap();
    let named: &'static Id<'static> = Box::leak(Box::new(Id(x.0, b"\\A")));
    let class = |of| -> &'static ClassId<'static> { Box::leak(Box::new(ClassId(x.0, of))) };
    r.p.accumulate_const_ref(class(ClassId_::CI(named)), &x);
    assert!(r.p.stop_accumulating_const_refs().is_empty());
    r.p.start_accumulating_const_refs();
    for of in [ClassId_::CIparent, ClassId_::CIstatic] {
        r.p.accumulate_const_ref(class(of), &x);
    }
    assert!(r.p.const_refs.unwrap().is_empty());
    for _ in 0..2 {
        r.p.accumulate_const_ref(class(ClassId_::CI(named)), &x);
        r.p.accumulate_const_ref(class(ClassId_::CIself), &x);
    }
    let refs = r.p.stop_accumulating_const_refs();
    assert_eq!(refs.len(), 2);
    assert!(matches!(refs.at(0), ClassConstRef(ClassConstFrom::Self_, b"X")));
    assert!(matches!(refs.at(1), ClassConstRef(ClassConstFrom::From(b"\\A"), b"X")));
}
