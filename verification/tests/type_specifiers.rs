use bumpalo::Bump;
use direct_decl::arena::Items;
use direct_decl::functions::strip_mutability;
use direct_decl::host::{Answer, Query};
use direct_decl::namespace::{AutoImport, NamespaceEnv};
use direct_decl::node::Node;
use direct_decl::parser::{DeclParserOptions, DirectDeclSmartConstructors, NoSourceTextAllocator};
use direct_decl::source::{IndexedSourceText, Pos, Prefix, RelativePath, SourceText};
use direct_decl::syntax::{ConstraintKind, ElaborateKind, Mode, ReifyKind, Tprim, Variance};
use direct_decl::token::{CompactToken, SyntaxKind, TokenKind};
use direct_decl::types::{
    Capability,
    FunArity,
    FunParam,
    Reason,
    ShapeKind,
    TaccessType,
    TshapeFieldName,
    Ty,
    Ty_,
};

type Parser = DirectDeclSmartConstructors<
    'static,
    'static,
    NoSourceTextAllocator,
    fn(Query<'static, 'static>) -> Answer<'static, 'static>,
>;

fn leak(bytes: Vec<u8>) -> &'static [u8] {
    Box::leak(bytes.into_boxed_slice())
}

fn in_namespace(env: &NamespaceEnv<'static>, name: &[u8]) -> Vec<u8> {
    let mut full = b"\\".to_vec();
    if let Some(ns) = env.name {
        full.extend_from_slice(ns);
        full.push(b'\\');
    }
    full.extend_from_slice(name);
    full
}

/// A small stand-in for the rest of the toolchain.
fn answer(query: Query<'static, 'static>) -> Answer<'static, 'static> {
    match query {
        Query::RawId(env, ElaborateKind::Class, name) => match env.class_uses.get(name) {
            Some(full) => Answer::Name(full),
            None => Answer::Name(leak(in_namespace(&env, name))),
        },
        Query::RawId(_, ElaborateKind::Const, name) => {
            let mut full = b"\\const\\".to_vec();
            full.extend_from_slice(name);
            Answer::Name(leak(full))
        }
        Query::CurrentNamespace(env, name) => Answer::Name(leak(in_namespace(&env, name))),
        Query::XhpNamespace(name) => {
            if name.starts_with(b":x") {
                Answer::Name(b"\\x\\elt")
            } else {
                Answer::Nothing
            }
        }
        Query::Unquote(text) => Answer::Source(&text[1..text.len() - 1]),
        Query::Unescape(_, text) => {
            if text.starts_with(b"bad") {
                Answer::Nothing
            } else {
                Answer::Name(text)
            }
        }
    }
}

struct Reader {
    p: Parser,
    at: usize,
}

impl Reader {
    fn with(source: &'static [u8], mode: Mode, soft: bool, mangling: bool) -> Reader {
        let arena: &'static Bump = Box::leak(Box::new(Bump::new()));
        let mut starts: Vec<usize> = vec![0];
        for i in 0..source.len() {
            if source[i] == b'\n' {
                starts.push(i + 1);
            }
        }
        let opts: &'static DeclParserOptions<'static> = Box::leak(Box::new(DeclParserOptions {
            auto_namespace_map: Items::from_slice(Box::leak(Box::new([(
                &b"C"[..],
                &b"HH\\Lib\\C"[..],
            )]))),
            auto_import: AutoImport {
                namespaces: Items::from_slice(Box::leak(Box::new([&b"Lib"[..]]))),
                types: Items::from_slice(Box::leak(Box::new([&b"Vector"[..]]))),
            },
            disable_xhp_element_mangling: mangling,
            interpret_soft_types_as_like_types: soft,
            everything_sdt: false,
        }));
        let text = IndexedSourceText {
            source_text: SourceText {
                file_path: RelativePath { prefix: Prefix::Root, path: b"a.php" },
                text: source,
            },
            line_starts: Box::leak(starts.into_boxed_slice()),
        };
        let host: fn(Query<'static, 'static>) -> Answer<'static, 'static> = answer;
        Reader {
            p: DirectDeclSmartConstructors::new(
                opts,
                text,
                mode,
                arena,
                NoSourceTextAllocator,
                host,
            ),
            at: 0,
        }
    }

    fn new(source: &'static str) -> Reader {
        Reader::with(source.as_bytes(), Mode::Mstrict, false, false)
    }

    /// Reads the next occurrence of `text` as a token of the given kind.
    fn tok(&mut self, kind: TokenKind, text: &str) -> Node<'static> {
        let source = self.p.source_text.source_text.text;
        let bytes = text.as_bytes();
        let mut start = self.at;
        while &source[start..start + bytes.len()] != bytes {
            start += 1;
        }
        self.at = start + bytes.len();
        self.p.make_token(CompactToken { kind, start_offset: start, width: bytes.len() })
    }

    fn list(&mut self, nodes: Vec<Node<'static>>) -> Node<'static> {
        self.p.make_list(nodes, 0)
    }
}

fn missing() -> Node<'static> {
    Node::Ignored(SyntaxKind::Missing)
}

fn ty_of(node: Node<'static>) -> &'static Ty<'static> {
    match node {
        Node::Ty(ty) => ty,
        _ => panic!("not a type"),
    }
}

fn applied_to(ty: &Ty<'static>) -> (&'static [u8], Items<'static, &'static Ty<'static>>) {
    match ty.1 {
        Ty_::Tapply(of) => (of.0.1, of.1),
        _ => panic!("not an application"),
    }
}

fn span(pos: &Pos<'static>) -> (usize, usize) {
    (pos.start_cnum(), pos.end_cnum())
}

fn name(r: &mut Reader, text: &str) -> Node<'static> {
    r.tok(TokenKind::Name, text)
}

fn scope(r: &mut Reader, names: &[&'static str]) {
    let names: Vec<&'static [u8]> = names.iter().map(|n| n.as_bytes()).collect();
    r.p.type_parameters.push(Items::from_slice(Box::leak(names.into_boxed_slice())));
}

#[test]
fn generic_types() {
    let mut r = Reader::new("Foo<int, string> T<int> vec_or_dict<int>");
    scope(&mut r, &["T"]);
    let foo = name(&mut r, "Foo");
    let lt = r.tok(TokenKind::LessThan, "<");
    let int = r.tok(TokenKind::Int, "int");
    let string = r.tok(TokenKind::String, "string");
    let args = r.list(vec![int, string]);
    let gt = r.tok(TokenKind::GreaterThan, ">");
    let args = r.p.make_type_arguments(lt, args, gt);
    let ty = ty_of(r.p.make_generic_type_specifier(foo, args));
    let (applied, targs) = applied_to(ty);
    assert_eq!(applied, b"\\Foo");
    assert_eq!(targs.len(), 2);
    assert_eq!(span(ty.get_pos().unwrap()), (0, 16));
    let t = name(&mut r, "T");
    let ty = ty_of(r.p.make_generic_type_specifier(t, int));
    assert!(matches!(ty.1, Ty_::Tgeneric((b"T", targs)) if targs.len() == 1));
    let v = name(&mut r, "vec_or_dict");
    let ty = ty_of(r.p.make_generic_type_specifier(v, args));
    assert!(matches!(
        ty.1,
        Ty_::TvecOrDict((Ty(_, Ty_::Tprim(Tprim::Tint)), Ty(_, Ty_::Tprim(Tprim::Tstring))))
    ));
    let ty = ty_of(r.p.make_generic_type_specifier(v, int));
    assert!(matches!(
        ty.1,
        Ty_::TvecOrDict((Ty(Reason::RvecOrDictKey(_), _), Ty(_, Ty_::Tprim(Tprim::Tint))))
    ));
    let ty = ty_of(r.p.make_generic_type_specifier(v, missing()));
    assert!(matches!(ty.1, Ty_::Tany));
    assert!(matches!(
        r.p.make_generic_type_specifier(missing(), args),
        Node::Ignored(SyntaxKind::GenericTypeSpecifier)
    ));
}

#[test]
fn simple_type_specifiers() {
    let mut r = Reader::new("?int ~int @int (int, int) vec<int> classname<C>");
    let q = r.tok(TokenKind::Question, "?");
    let int = r.tok(TokenKind::Int, "int");
    let ty = ty_of(r.p.make_nullable_type_specifier(q, int));
    assert!(matches!(ty.1, Ty_::Toption(Ty(_, Ty_::Tprim(Tprim::Tint)))));
    assert_eq!(span(ty.get_pos().unwrap()), (0, 4));
    let tilde = r.tok(TokenKind::Tilde, "~");
    let ty = ty_of(r.p.make_like_type_specifier(tilde, int));
    assert!(matches!(ty.1, Ty_::Tlike(_)));
    let at = r.tok(TokenKind::At, "@");
    let ty = ty_of(r.p.make_soft_type_specifier(at, int));
    assert!(matches!(ty.1, Ty_::Tprim(Tprim::Tint)));
    let lp = r.tok(TokenKind::LeftParen, "(");
    let rp = r.tok(TokenKind::RightParen, ")");
    let list = r.list(vec![int, int]);
    let ty = ty_of(r.p.make_tuple_type_specifier(lp, list, rp));
    assert!(matches!(ty.1, Ty_::Ttuple(tys) if tys.len() == 2));
    assert_eq!(span(ty.get_pos().unwrap()), (15, 25));
    let item = r.p.make_list_item(int, at);
    let list = r.list(vec![item, int]);
    let ty = ty_of(r.p.make_union_type_specifier(lp, list, rp));
    assert!(matches!(ty.1, Ty_::Tunion(tys) if tys.len() == 2));
    let ty = ty_of(r.p.make_intersection_type_specifier(lp, list, rp));
    assert!(matches!(ty.1, Ty_::Tintersection(tys) if tys.len() == 2));
    let vec = r.tok(TokenKind::Vec, "vec");
    let gt = r.tok(TokenKind::GreaterThan, ">");
    let ty = ty_of(r.p.make_vector_type_specifier(vec, missing(), int, missing(), gt));
    let (applied, targs) = applied_to(ty);
    assert_eq!(applied, b"\\vec");
    assert_eq!(targs.len(), 1);
    let classname = r.tok(TokenKind::Classname, "classname");
    let c = name(&mut r, "C");
    let gt = r.tok(TokenKind::GreaterThan, ">");
    let ty = ty_of(r.p.make_classname_type_specifier(classname, missing(), c, missing(), gt));
    let (applied, targs) = applied_to(ty);
    assert_eq!(applied, b"\\classname");
    assert_eq!(applied_to(targs.at(0)).0, b"\\C");
    let ty = ty_of(r.p.make_classname_type_specifier(
        classname,
        missing(),
        missing(),
        missing(),
        missing(),
    ));
    assert!(matches!(ty.1, Ty_::Tprim(Tprim::Tstring)));
    let ty = ty_of(r.p.make_darray_type_specifier(
        classname, missing(), int, missing(), missing(), missing(), gt,
    ));
    let (applied, targs) = applied_to(ty);
    assert_eq!(applied, b"\\HH\\dict");
    assert!(matches!(targs.at(1), Ty(Reason::Rnone, Ty_::Tany)));
    assert!(matches!(
        r.p.make_nullable_type_specifier(q, missing()),
        Node::Ignored(SyntaxKind::NullableTypeSpecifier)
    ));
}

#[test]
fn soft_types() {
    let mut r = Reader::with(b"<<__Soft>> int", Mode::Mstrict, true, false);
    let ltlt = r.tok(TokenKind::LessThanLessThan, "<<");
    let soft = name(&mut r, "__Soft");
    let soft = r.p.make_constructor_call(soft, missing(), missing(), missing());
    let gtgt = r.tok(TokenKind::GreaterThanGreaterThan, ">>");
    let list = r.list(vec![soft]);
    let attrs = r.p.make_old_attribute_specification(ltlt, list, gtgt);
    let int = r.tok(TokenKind::Int, "int");
    let ty = ty_of(r.p.make_attributized_specifier(attrs, int));
    assert!(matches!(ty.1, Ty_::Tlike(Ty(_, Ty_::Tprim(Tprim::Tint)))));
    assert_eq!(span(ty.get_pos().unwrap()), (0, 14));
    assert!(matches!(r.p.make_attributized_specifier(missing(), int), Node::Ty(_)));
    r.at = 0;
    let name = r.tok(TokenKind::Variable, "int");
    match r.p.make_parameter_declaration(
        attrs, missing(), missing(), missing(), int, name, missing(),
    ) {
        Node::FunParam(decl) => assert!(matches!(ty_of(decl.hint).1, Ty_::Tlike(_))),
        _ => panic!("not a parameter"),
    }
}

#[test]
fn shapes() {
    let mut r = Reader::new("class C shape('a' => int, ?'b' => int, self::K => int, ...)");
    r.tok(TokenKind::Class, "class");
    name(&mut r, "C");
    let shape = r.tok(TokenKind::Shape, "shape");
    let a = r.tok(TokenKind::SingleQuotedStringLiteral, "'a'");
    let int = r.tok(TokenKind::Int, "int");
    let q = r.tok(TokenKind::Question, "?");
    let b = r.tok(TokenKind::SingleQuotedStringLiteral, "'b'");
    let s = r.tok(TokenKind::SelfToken, "self");
    let k = name(&mut r, "K");
    let k = r.p.make_scope_resolution_expression(s, missing(), k);
    let dots = r.tok(TokenKind::DotDotDot, "...");
    let rp = r.tok(TokenKind::RightParen, ")");
    let fields = vec![
        r.p.make_field_specifier(missing(), a, missing(), int),
        r.p.make_field_specifier(q, b, missing(), int),
        r.p.make_field_specifier(missing(), k, missing(), int),
    ];
    assert!(matches!(
        r.p.make_field_specifier(missing(), missing(), missing(), int),
        Node::Ignored(SyntaxKind::FieldSpecifier)
    ));
    let fields = r.list(fields);
    let ty = ty_of(r.p.make_shape_type_specifier(shape, missing(), fields, dots, rp));
    match ty.1 {
        Ty_::Tshape((ShapeKind::OpenShape, fields)) => {
            assert_eq!(fields.len(), 3);
            let first = fields.at(0);
            assert!(matches!(first.0 .0, TshapeFieldName::TSFlitStr((_, b"a"))));
            assert!(!first.1.optional);
            assert!(fields.at(1).1.optional);
            assert!(matches!(
                fields.at(2).0 .0,
                TshapeFieldName::TSFclassConst(((_, b"\\C"), (_, b"K")))
            ));
        }
        _ => panic!("not an open shape"),
    }
    let ty = ty_of(r.p.make_shape_type_specifier(shape, missing(), missing(), missing(), rp));
    assert!(matches!(ty.1, Ty_::Tshape((ShapeKind::ClosedShape, fields)) if fields.is_empty()));
}

#[test]
fn function_types() {
    let mut r = Reader::new("(function(inout int, string...)[rx, Foo]: void)");
    let lp = r.tok(TokenKind::LeftParen, "(");
    let inout = r.tok(TokenKind::Inout, "inout");
    let int = r.tok(TokenKind::Int, "int");
    let first = r.p.make_closure_parameter_type_specifier(inout, missing(), int);
    let string = r.tok(TokenKind::String, "string");
    let dots = r.tok(TokenKind::DotDotDot, "...");
    let rest = r.p.make_variadic_parameter(missing(), string, dots);
    let params = r.list(vec![first, rest]);
    let lb = r.tok(TokenKind::LeftBracket, "[");
    let rx = name(&mut r, "rx");
    let foo = name(&mut r, "Foo");
    let ctxs = r.list(vec![rx, foo]);
    let rb = r.tok(TokenKind::RightBracket, "]");
    let ctxs = r.p.make_contexts(lb, ctxs, rb);
    match ty_of(ctxs).1 {
        Ty_::Tintersection(tys) => {
            assert_eq!(applied_to(tys.at(0)).0, b"\\HH\\Contexts\\rx");
            assert_eq!(applied_to(tys.at(1)).0, b"\\Foo");
        }
        _ => panic!("not an intersection"),
    }
    let void = r.tok(TokenKind::Void, "void");
    let rp = r.tok(TokenKind::RightParen, ")");
    let node = r.p.make_closure_type_specifier(
        lp, missing(), missing(), missing(), params, missing(), ctxs, missing(), missing(), void, rp,
    );
    let ty = ty_of(node);
    assert_eq!(span(ty.get_pos().unwrap()), (0, 47));
    match ty.1 {
        Ty_::Tfun(ft) => {
            assert_eq!(ft.params.len(), 1);
            let param = ft.params.at(0);
            assert!(param.flags.inout && param.name.is_none());
            assert!(matches!(ft.arity, FunArity::Fvariadic(p)
                if matches!(p.type_.type_.1, Ty_::Tprim(Tprim::Tstring))));
            assert!(matches!(ft.implicit_params.capability, Capability::CapTy(_)));
            assert!(!ft.flags.async_);
        }
        _ => panic!("not a function type"),
    }
    // `\Pure` around a function type is that function type.
    let pos = r.p.get_pos(lp);
    let pure = ty_of(r.p.make_apply((pos, b"\\Pure"), node, r.p.get_pos(rp)));
    assert!(matches!(pure.1, Ty_::Tfun(_)));
    let other = ty_of(r.p.make_apply((pos, b"\\Other"), node, r.p.get_pos(rp)));
    assert_eq!(applied_to(other).1.len(), 1);
    assert!(matches!(
        r.p.make_closure_type_specifier(
            lp, missing(), missing(), missing(), params, missing(), ctxs, missing(), missing(),
            missing(), rp,
        ),
        Node::Ignored(SyntaxKind::ClosureTypeSpecifier)
    ));
}

#[test]
fn type_constants_of_types() {
    let mut r = Reader::new("class C self::T::U D::V");
    r.tok(TokenKind::Class, "class");
    name(&mut r, "C");
    let s = r.tok(TokenKind::SelfToken, "self");
    let t = name(&mut r, "T");
    let first = r.p.make_type_constant(s, missing(), t);
    let u = name(&mut r, "U");
    let second = ty_of(r.p.make_type_constant(first, missing(), u));
    match second.1 {
        Ty_::Taccess(TaccessType(inner, (_, b"U"))) => {
            // Every step has the position of the whole path.
            assert_eq!(span(inner.get_pos().unwrap()), (8, 18));
            match inner.1 {
                Ty_::Taccess(TaccessType(root, (_, b"T"))) => {
                    assert_eq!(span(root.get_pos().unwrap()), (8, 18));
                    assert_eq!(applied_to(root).0, b"\\C");
                }
                _ => panic!("not a path"),
            }
        }
        _ => panic!("not a path"),
    }
    assert!(matches!(
        r.p.make_type_constant(s, missing(), missing()),
        Node::Ignored(SyntaxKind::TypeConstant)
    ));
}

#[test]
fn type_parameters_are_converted_in_constraints() {
    // The constraint of `T` names `U`, which comes after it.
    let mut r = Reader::new("<T as Foo<U>, -U super \\U>");
    let t = name(&mut r, "T");
    let as_ = r.tok(TokenKind::As, "as");
    let foo = name(&mut r, "Foo");
    let u = name(&mut r, "U");
    let foo_u = r.p.make_generic_type_specifier(foo, u);
    let constraint = r.p.make_type_constraint(as_, foo_u);
    let t = r.p.make_type_parameter(missing(), missing(), missing(), t, missing(), constraint);
    let minus = r.tok(TokenKind::Minus, "-");
    let u = name(&mut r, "U");
    let super_ = r.tok(TokenKind::Super, "super");
    let slash = r.tok(TokenKind::Backslash, "\\");
    let u2 = name(&mut r, "U");
    let parts = r.list(vec![slash, u2]);
    let full = r.p.make_qualified_name(parts);
    let constraint = r.p.make_type_constraint(super_, full);
    let u = r.p.make_type_parameter(missing(), missing(), minus, u, missing(), constraint);
    let list = r.list(vec![t, u]);
    let node = r.p.make_type_parameters(missing(), list, missing());
    assert_eq!(r.p.type_parameters.len(), 1);
    assert!(r.p.is_type_param_in_scope(b"T") && r.p.is_type_param_in_scope(b"U"));
    match node {
        Node::TypeParameters(tparams) => {
            let t = tparams.at(0);
            assert_eq!(t.name.1, b"T");
            assert!(t.variance == Variance::Invariant && t.reified == ReifyKind::Erased);
            let (kind, ty) = t.constraints.at(0);
            assert!(*kind == ConstraintKind::ConstraintAs);
            let (applied, targs) = applied_to(ty);
            assert_eq!(applied, b"\\Foo");
            assert!(matches!(targs.at(0).1, Ty_::Tgeneric((b"U", _))));
            let again = r.p.convert_tapply_to_tgeneric(ty);
            assert!(matches!(applied_to(again).1.at(0).1, Ty_::Tgeneric((b"U", _))));
            let u = tparams.at(1);
            assert!(u.variance == Variance::Contravariant);
            let (kind, ty) = u.constraints.at(0);
            assert!(*kind == ConstraintKind::ConstraintSuper);
            // A name with a backslash is no type parameter.
            assert_eq!(applied_to(ty).0, b"\\U");
        }
        _ => panic!("not type parameters"),
    }
    let popped = r.p.pop_type_params(node);
    assert_eq!(popped.len(), 2);
    assert!(r.p.type_parameters.is_empty());
}

#[test]
fn a_type_parameter_without_a_name_spoils_the_list() {
    let mut r = Reader::new("");
    let nameless = r.p.make_type_parameter(
        missing(), missing(), missing(), missing(), missing(), missing(),
    );
    assert!(matches!(
        r.p.make_type_parameters(missing(), nameless, missing()),
        Node::Ignored(SyntaxKind::TypeParameters)
    ));
    assert!(r.p.type_parameters.is_empty());
}

#[test]
fn reified_type_parameters() {
    let mut r = Reader::new("<<__Soft>> reify T");
    let ltlt = r.tok(TokenKind::LessThanLessThan, "<<");
    let soft = name(&mut r, "__Soft");
    let soft = r.p.make_constructor_call(soft, missing(), missing(), missing());
    let gtgt = r.tok(TokenKind::GreaterThanGreaterThan, ">>");
    let list = r.list(vec![soft]);
    let attrs = r.p.make_old_attribute_specification(ltlt, list, gtgt);
    let reify = r.tok(TokenKind::Reify, "reify");
    let t = name(&mut r, "T");
    match r.p.make_type_parameter(attrs, reify, missing(), t, missing(), missing()) {
        Node::TypeParameter(decl) => assert!(decl.reified == ReifyKind::SoftReified),
        _ => panic!("not a type parameter"),
    }
    match r.p.make_type_parameter(missing(), reify, missing(), t, missing(), missing()) {
        Node::TypeParameter(decl) => assert!(decl.reified == ReifyKind::Reified),
        _ => panic!("not a type parameter"),
    }
}

#[test]
fn markers_of_mutability_are_dropped() {
    let mut r = Reader::new("int");
    let int = r.tok(TokenKind::Int, "int");
    let pos = r.p.get_pos(int);
    for marker in [&b"\\Mutable"[..], &b"\\OwnedMutable"[..], &b"\\MaybeMutable"[..]] {
        let ty = ty_of(r.p.make_apply((pos, marker), int, pos));
        assert!(matches!(strip_mutability(ty).1, Ty_::Tprim(Tprim::Tint)));
    }
    let ty = ty_of(r.p.make_apply((pos, b"\\Other"), int, pos));
    assert_eq!(applied_to(strip_mutability(ty)).0, b"\\Other");
}

#[test]
fn types_stay_without_type_parameters_in_scope() {
    let mut r = Reader::new("Foo Bar ()");
    let foo = r.tok(TokenKind::Name, "Foo");
    let bar = r.tok(TokenKind::Name, "Bar");
    let left = r.tok(TokenKind::LeftParen, "(");
    let right = r.tok(TokenKind::RightParen, ")");
    let list = r.list(vec![foo, bar]);
    let tuple = ty_of(r.p.make_tuple_type_specifier(left, list, right));
    let same = r.p.convert_tapply_to_tgeneric(tuple);
    assert_eq!(span(same.get_pos().unwrap()), span(tuple.get_pos().unwrap()));
    match same.1 {
        Ty_::Ttuple(tys) => {
            assert_eq!(tys.len(), 2);
            assert_eq!(applied_to(tys.at(0)).0, b"\\Foo");
            assert_eq!(applied_to(tys.at(1)).0, b"\\Bar");
        }
        _ => panic!("not a tuple"),
    }
}

#[test]
fn the_position_of_self() {
    // In a class `self` points to the name of the class, in a trait to itself.
    for (source, keyword, text, at) in [
        ("class T { self::C }", TokenKind::Class, "class", (6, 7)),
        ("interface T { self::C }", TokenKind::Interface, "interface", (10, 11)),
        ("trait T { self::C }", TokenKind::Trait, "trait", (10, 14)),
    ] {
        let mut r = Reader::new(source);
        r.tok(keyword, text);
        r.tok(TokenKind::Name, "T");
        let this = r.tok(TokenKind::SelfToken, "self");
        let c = r.tok(TokenKind::Name, "C");
        match ty_of(r.p.make_type_constant(this, missing(), c)).1 {
            Ty_::Taccess(TaccessType(root, (pos, b"C"))) => {
                assert_eq!(span(pos), span(r.p.get_pos(c)));
                match root.1 {
                    Ty_::Tapply(of) => {
                        assert_eq!(of.0.1, b"\\T");
                        assert_eq!(span(of.0.0), at);
                        assert!(of.1.is_empty());
                    }
                    _ => panic!("not a class"),
                }
            }
            _ => panic!("not a type constant"),
        }
    }
}
