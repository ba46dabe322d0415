use bumpalo::Bump;
use direct_decl::arena::Items;
use direct_decl::decls::Decl;
use direct_decl::effects::{has_polymorphic_context, taccess_root_is_generic};
use direct_decl::host::{Answer, Query};
use direct_decl::namespace::{AutoImport, NamespaceEnv};
use direct_decl::node::Node;
use direct_decl::parser::{DeclParserOptions, DirectDeclSmartConstructors, NoSourceTextAllocator};
use direct_decl::source::{IndexedSourceText, Pos, Prefix, RelativePath, SourceText};
use direct_decl::syntax::{ConstraintKind, ElaborateKind, Mode};
use direct_decl::token::{CompactToken, SyntaxKind, TokenKind};
use direct_decl::types::{Capability, FunType, TaccessType, Ty, Ty_, WhereConstraint};

type Parser = DirectDeclSmartConstructors<
    'static,
    'static,
    NoSourceTextAllocator,
    fn(Query<'static, 'static>) -> Answer<'static, 'static>,
>;

fn leak(bytes: Vec<u8>) -> &'static [u8] {
    Box::leak(bytes.into_boxed_slice())
}

fn in_namespace(env: &NamespaceEnv<'static>, name: &[u8]) -> Vec<u8> {
    let mut full = b"\\".to_vec();
    if let Some(ns) = env.name {
        full.extend_from_slice(ns);
        full.push(b'\\');
    }
    full.extend_from_slice(name);
    full
}

/// A small stand-in for the rest of the toolchain.
fn answer(query: Query<'static, 'static>) -> Answer<'static, 'static> {
    match query {
        Query::RawId(env, ElaborateKind::Class, name) => match env.class_uses.get(name) {
            Some(full) => Answer::Name(full),
            None => Answer::Name(leak(in_namespace(&env, name))),
        },
        Query::RawId(_, ElaborateKind::Const, name) => {
            let mut full = b"\\const\\".to_vec();
            full.extend_from_slice(name);
            Answer::Name(leak(full))
        }
        Query::CurrentNamespace(env, name) => Answer::Name(leak(in_namespace(&env, name))),
        Query::XhpNamespace(name) => {
            if name.starts_with(b":x") {
                Answer::Name(b"\\x\\elt")
            } else {
                Answer::Nothing
            }
        }
        Query::Unquote(text) => Answer::Source(&text[1..text.len() - 1]),
        Query::Unescape(_, text) => {
            if text.starts_with(b"bad") {
                Answer::Nothing
            } else {
                Answer::Name(text)
            }
        }
    }
}

struct Reader {
    p: Parser,
    at: usize,
}

impl Reader {
    fn with(source: &'static [u8], mode: Mode, soft: bool, mangling: bool) -> Reader {
        let arena: &'static Bump = Box::leak(Box::new(Bump::new()));
        let mut starts: Vec<usize> = vec![0];
        for i in 0..source.len() {
            if source[i] == b'\n' {
                starts.push(i + 1);
            }
        }
        let opts: &'static DeclParserOptions<'static> = Box::leak(Box::new(DeclParserOptions {
            auto_namespace_map: Items::from_slice(Box::leak(Box::new([(
                &b"C"[..],
                &b"HH\\Lib\\C"[..],
            )]))),
            auto_import: AutoImport {
                namespaces: Items::from_slice(Box::leak(Box::new([&b"Lib"[..]]))),
                types: Items::from_slice(Box::leak(Box::new([&b"Vector"[..]]))),
            },
            disable_xhp_element_mangling: mangling,
            interpret_soft_types_as_like_types: soft,
            everything_sdt: false,
        }));
        let text = IndexedSourceText {
            source_text: SourceText {
                file_path: RelativePath { prefix: Prefix::Root, path: b"a.php" },
                text: source,
            },
            line_starts: Box::leak(starts.into_boxed_slice()),
        };
        let host: fn(Query<'static, 'static>) -> Answer<'static, 'static> = answer;
        Reader {
            p: DirectDeclSmartConstructors::new(
                opts,
                text,
                mode,
                arena,
                NoSourceTextAllocator,
                host,
            ),
            at: 0,
        }
    }

    fn new(source: &'static str) -> Reader {
        Reader::with(source.as_bytes(), Mode::Mstrict, false, false)
    }

    /// Reads the next occurrence of `text` as a token of the given kind.
    fn tok(&mut self, kind: TokenKind, text: &str) -> Node<'static> {
        let source = self.p.source_text.source_text.text;
        let bytes = text.as_bytes();
        let mut start = self.at;
        while &source[start..start + bytes.len()] != bytes {
            start += 1;
        }
        self.at = start + bytes.len();
        self.p.make_token(CompactToken { kind, start_offset: start, width: bytes.len() })
    }

    fn list(&mut self, nodes: Vec<Node<'static>>) -> Node<'static> {
        self.p.make_list(nodes, 0)
    }
}

fn missing() -> Node<'static> {
    Node::Ignored(SyntaxKind::Missing)
}

fn ty_of(node: Node<'static>) -> &'static Ty<'static> {
    match node {
        Node::Ty(ty) => ty,
        _ => panic!("not a type"),
    }
}

fn applied_to(ty: &Ty<'static>) -> (&'static [u8], Items<'static, &'static Ty<'static>>) {
    match ty.1 {
        Ty_::Tapply(of) => (of.0.1, of.1),
        _ => panic!("not an application"),
    }
}

fn span(pos: &Pos<'static>) -> (usize, usize) {
    (pos.start_cnum(), pos.end_cnum())
}

fn name(r: &mut Reader, text: &str) -> Node<'static> {
    r.tok(TokenKind::Name, text)
}

fn header(r: &mut Reader, params: Node<'static>, ctxs: Node<'static>, tparams: Node<'static>)
    -> &'static FunType<'static> {
    r.at = 0;
    let f = name(r, "f");
    let h = r.p.make_function_declaration_header(
        missing(), missing(), f, tparams, missing(), params, missing(), ctxs, missing(), missing(),
        missing(), missing(),
    );
    r.p.make_function_declaration(missing(), h, missing());
    match r.p.decls.entries.last() {
        Some((_, Decl::Fun(elt))) => match elt.type_.1 {
            Ty_::Tfun(ft) => ft,
            _ => panic!("not a function type"),
        },
        _ => panic!("not a function"),
    }
}

fn param(r: &mut Reader, hint: Node<'static>, var: &str) -> Node<'static> {
    let var = r.tok(TokenKind::Variable, var);
    r.p.make_parameter_declaration(
        missing(), missing(), missing(), missing(), hint, var, missing(),
    )
}

fn generic_name(ty: &Ty<'static>) -> &'static [u8] {
    match ty.1 {
        Ty_::Tgeneric(of) => of.0,
        _ => panic!("not a type parameter"),
    }
}

fn capability(ft: &FunType<'static>) -> &'static Ty<'static> {
    match ft.implicit_params.capability {
        Capability::CapTy(ty) => ty,
        Capability::CapDefaults(_) => panic!("no capability"),
    }
}

#[test]
fn contexts_of_function_parameters() {
    let mut r = Reader::new("f (function()[_]: void) $g [ctx $g]");
    let lp = r.tok(TokenKind::LeftParen, "(");
    let lb = r.tok(TokenKind::LeftBracket, "[");
    let wild = name(&mut r, "_");
    let wild = r.list(vec![wild]);
    let rb = r.tok(TokenKind::RightBracket, "]");
    let inner = r.p.make_contexts(lb, wild, rb);
    let void = r.tok(TokenKind::Void, "void");
    let rp = r.tok(TokenKind::RightParen, ")");
    let closure = r.p.make_closure_type_specifier(
        lp, missing(), missing(), missing(), missing(), missing(), inner, missing(), missing(),
        void, rp,
    );
    let g = param(&mut r, closure, "$g");
    let lb = r.tok(TokenKind::LeftBracket, "[");
    let ctx = r.tok(TokenKind::Ctx, "ctx");
    let var = r.tok(TokenKind::Variable, "$g");
    let ctx = r.p.make_function_ctx_type_specifier(ctx, var);
    let ctx = r.list(vec![ctx]);
    let rb = r.tok(TokenKind::RightBracket, "]");
    let ctxs = r.p.make_contexts(lb, ctx, rb);
    let params = r.list(vec![g]);
    let ft = header(&mut r, params, ctxs, missing());
    assert_eq!(ft.tparams.len(), 1);
    assert_eq!(ft.tparams.at(0).name.1, b"T/[ctx $g]");
    assert_eq!(generic_name(capability(ft)), b"T/[ctx $g]");
    match ft.params.at(0).type_.type_.1 {
        Ty_::Tfun(inner) => assert_eq!(generic_name(capability(inner)), b"T/[ctx $g]"),
        _ => panic!("not a function type"),
    }
    assert!(ft.where_constraints.is_empty());
}

#[test]
fn contexts_of_arguments() {
    let mut r = Reader::new("f ?Foo $g [$g::C, rx]");
    let q = r.tok(TokenKind::Question, "?");
    let foo = name(&mut r, "Foo");
    let hint = r.p.make_nullable_type_specifier(q, foo);
    let g = param(&mut r, hint, "$g");
    let lb = r.tok(TokenKind::LeftBracket, "[");
    let var = r.tok(TokenKind::Variable, "$g");
    let c = name(&mut r, "C");
    let path = r.p.make_type_constant(var, missing(), c);
    let rx = name(&mut r, "rx");
    let list = r.list(vec![path, rx]);
    let rb = r.tok(TokenKind::RightBracket, "]");
    let ctxs = r.p.make_contexts(lb, list, rb);
    let params = r.list(vec![g]);
    let ft = header(&mut r, params, ctxs, missing());
    assert_eq!(ft.tparams.len(), 2);
    let first = ft.tparams.at(0);
    assert_eq!(first.name.1, b"T/$g");
    let (kind, bound) = first.constraints.at(0);
    assert!(*kind == ConstraintKind::ConstraintAs);
    assert_eq!(applied_to(bound).0, b"\\Foo");
    assert_eq!(ft.tparams.at(1).name.1, b"T/[$g::C]");
    assert_eq!(ft.where_constraints.len(), 1);
    match ft.where_constraints.at(0) {
        WhereConstraint(left, ConstraintKind::ConstraintEq, right) => {
            assert_eq!(generic_name(left), b"T/[$g::C]");
            assert!(matches!(right.1, Ty_::Taccess(TaccessType(root, (_, b"C")))
                if generic_name(root) == b"T/$g"));
        }
        _ => panic!("not an equality"),
    }
    // The question mark stays around the new type parameter.
    assert!(matches!(ft.params.at(0).type_.type_.1, Ty_::Toption(t)
        if generic_name(t) == b"T/$g"));
    match capability(ft).1 {
        Ty_::Tintersection(tys) => {
            assert_eq!(generic_name(tys.at(0)), b"T/[$g::C]");
            assert_eq!(applied_to(tys.at(1)).0, b"\\HH\\Contexts\\rx");
        }
        _ => panic!("not an intersection"),
    }
}

#[test]
fn contexts_of_type_parameters() {
    let mut r = Reader::new("f <T> T $g [T::C]");
    let t = name(&mut r, "T");
    let t = r.p.make_type_parameter(missing(), missing(), missing(), t, missing(), missing());
    let tparams = r.p.make_type_parameters(missing(), t, missing());
    let hint = name(&mut r, "T");
    let g = param(&mut r, hint, "$g");
    let lb = r.tok(TokenKind::LeftBracket, "[");
    let t = name(&mut r, "T");
    let c = name(&mut r, "C");
    let path = r.p.make_type_constant(t, missing(), c);
    let list = r.list(vec![path]);
    let rb = r.tok(TokenKind::RightBracket, "]");
    let ctxs = r.p.make_contexts(lb, list, rb);
    assert!(matches!(ty_of(ctxs).1, Ty_::Tintersection(tys) if has_polymorphic_context(tys)));
    assert!(!taccess_root_is_generic(ty_of(ctxs)));
    let params = r.list(vec![g]);
    let ft = header(&mut r, params, ctxs, tparams);
    assert_eq!(ft.tparams.len(), 2);
    assert_eq!(ft.tparams.at(0).name.1, b"T");
    assert_eq!(ft.tparams.at(1).name.1, b"T/[T::C]");
    assert_eq!(generic_name(capability(ft)), b"T/[T::C]");
    assert_eq!(ft.where_constraints.len(), 1);
    assert_eq!(generic_name(ft.params.at(0).type_.type_), b"T");
    let access = ty_of(path);
    let inner = match access.1 {
        Ty_::Taccess(of) => of.0,
        _ => panic!("not a path"),
    };
    assert!(taccess_root_is_generic(inner));
    assert_eq!(r.p.ctx_generic_for_generic_taccess(access, b"D"), b"T/[T::C::D]");
}

#[test]
fn plain_contexts_change_nothing() {
    let mut r = Reader::new("f Foo $g [rx]");
    let foo = name(&mut r, "Foo");
    let g = param(&mut r, foo, "$g");
    let lb = r.tok(TokenKind::LeftBracket, "[");
    let rx = name(&mut r, "rx");
    let list = r.list(vec![rx]);
    let rb = r.tok(TokenKind::RightBracket, "]");
    let ctxs = r.p.make_contexts(lb, list, rb);
    assert_eq!(span(ty_of(ctxs).get_pos().unwrap()), (9, 13));
    let params = r.list(vec![g]);
    let ft = header(&mut r, params, ctxs, missing());
    assert!(ft.tparams.is_empty() && ft.where_constraints.is_empty());
    assert!(matches!(capability(ft).1, Ty_::Tintersection(tys) if tys.len() == 1));
    assert_eq!(applied_to(ft.params.at(0).type_.type_).0, b"\\Foo");
}

#[test]
fn parameters_that_no_context_mentions_stay() {
    let mut r = Reader::new("f Foo $g Bar $h [$g::C]");
    let foo = name(&mut r, "Foo");
    let g = param(&mut r, foo, "$g");
    let bar = name(&mut r, "Bar");
    let h = param(&mut r, bar, "$h");
    let lb = r.tok(TokenKind::LeftBracket, "[");
    let var = r.tok(TokenKind::Variable, "$g");
    let c = name(&mut r, "C");
    let path = r.p.make_type_constant(var, missing(), c);
    let list = r.list(vec![path]);
    let rb = r.tok(TokenKind::RightBracket, "]");
    let ctxs = r.p.make_contexts(lb, list, rb);
    let params = r.list(vec![g, h]);
    let ft = header(&mut r, params, ctxs, missing());
    assert_eq!(generic_name(ft.params.at(0).type_.type_), b"T/$g");
    assert_eq!(applied_to(ft.params.at(1).type_.type_).0, b"\\Bar");
}
