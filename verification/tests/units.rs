use bumpalo::Bump;
use direct_decl::arena::Items;
use direct_decl::classish::ClassishNameBuilder;
use direct_decl::const_refs::insert_ref;
use direct_decl::decls::{ClassConstFrom, ClassConstRef, ConstDecl, Decl, Decls};
use direct_decl::encoding::{is_utf8, parse_integer, starts_with_lowercase};
use direct_decl::hints::tany;
use direct_decl::namespace::{AutoImport, NamespaceBuilder, NamespaceUseKind};
use direct_decl::parser::{ArenaSourceTextAllocator, NoSourceTextAllocator, SourceTextAllocator};
use direct_decl::source::{FilePos, IndexedSourceText, Pos, Prefix, RelativePath, SourceText};
use direct_decl::str_map::StrMap;
use direct_decl::text::{
    contains_byte,
    eq_ignore_ascii_case,
    last_part,
    less,
    prefix_colon,
    prefix_slash,
    same,
    split_at_byte,
    starts_with_byte,
    strip_dollar_prefix,
    trim_end_byte,
    trim_start_byte,
};
use direct_decl::token::{FixedWidthToken, TokenKind};

fn arena() -> &'static Bump {
    Box::leak(Box::new(Bump::new()))
}

fn path() -> &'static RelativePath<'static> {
    Box::leak(Box::new(RelativePath { prefix: Prefix::Root, path: b"a.php" }))
}

fn at(start: usize, end: usize) -> &'static Pos<'static> {
    let file_pos = |offset: usize| FilePos { line: 1, bol: 0, offset };
    Pos::from_lnum_bol_cnum(arena(), path(), file_pos(start), file_pos(end))
}

#[test]
fn byte_strings() {
    assert!(same(b"abc", b"abc"));
    assert!(!same(b"abc", b"abd"));
    assert!(starts_with_byte(b"\\a", b'\\'));
    assert!(!starts_with_byte(b"", b'\\'));
    assert!(contains_byte(b"a:b", b':'));
    assert_eq!(trim_start_byte(b"\\\\a\\", b'\\'), b"a\\");
    assert_eq!(trim_end_byte(b"\\a\\\\", b'\\'), b"\\a");
    assert_eq!(last_part(b"A\\B\\C", b'\\'), b"C");
    assert_eq!(last_part(b"C", b'\\'), b"C");
    assert_eq!(last_part(b"A\\", b'\\'), b"");
    assert_eq!(strip_dollar_prefix(b"$$x"), b"x");
    assert!(eq_ignore_ascii_case(b"TRUE", b"true"));
    assert!(!eq_ignore_ascii_case(b"trues", b"true"));
    assert_eq!(prefix_slash(arena(), b"a"), b"\\a");
    assert_eq!(prefix_colon(arena(), b"a"), b":a");
    assert_eq!(direct_decl::text::concat(arena(), b"ab", b"c"), b"abc");
    assert!(less(b"a", b"ab"));
    assert!(less(b"a", b"b"));
    assert!(!less(b"b", b"ab"));
    let parts = split_at_byte(b"a..b", b'.');
    assert_eq!(parts, vec![&b"a"[..], &b""[..], &b"b"[..]]);
    assert_eq!(split_at_byte(b"", b'.'), vec![&b""[..]]);
}

#[test]
fn decoding() {
    assert!(is_utf8("\u{e9}t\u{e9}".as_bytes()));
    assert!(!is_utf8(b"\xff"));
    assert!(starts_with_lowercase(b"rx"));
    assert!(!starts_with_lowercase(b"Rx"));
    assert!(starts_with_lowercase("\u{e9}".as_bytes()));
    assert!(!starts_with_lowercase("\u{c9}".as_bytes()));
    assert!(!starts_with_lowercase(b""));
    assert!(!starts_with_lowercase(b"_a"));
}

#[test]
fn integers() {
    assert_eq!(parse_integer(b"0"), Some(0));
    assert_eq!(parse_integer(b"-12"), Some(-12));
    assert_eq!(parse_integer(b"+7"), Some(7));
    assert_eq!(parse_integer(b""), None);
    assert_eq!(parse_integer(b"-"), None);
    assert_eq!(parse_integer(b"1_000"), None);
    assert_eq!(parse_integer(b"0x10"), None);
    assert_eq!(parse_integer(b"9223372036854775807"), Some(isize::MAX));
    assert_eq!(parse_integer(b"9223372036854775808"), None);
    assert_eq!(parse_integer(b"-9223372036854775808"), Some(isize::MIN));
    assert_eq!(parse_integer(b"99999999999999999999999999"), None);
}

#[test]
fn packed_tokens() {
    let token = FixedWidthToken::new(TokenKind::Namespace, 1234);
    assert!(token.kind() == TokenKind::Namespace);
    assert_eq!(token.offset(), 1234);
    assert_eq!(token.width(), 9);
    assert_eq!(token.end(), 1243);
    let token = FixedWidthToken::new(TokenKind::Backslash, 0x00ff_ffff_ffff_ffff);
    assert!(token.kind() == TokenKind::Backslash);
    assert_eq!(token.offset(), 0x00ff_ffff_ffff_ffff);
    assert_eq!(token.width(), 1);
}

#[test]
fn token_kinds_by_number() {
    assert!(TokenKind::try_from_u8(TokenKind::Yield as u8) == Some(TokenKind::Yield));
    assert!(TokenKind::try_from_u8(255).is_none());
    assert_eq!(TokenKind::Yield.fixed_width(), Some(5));
    assert_eq!(TokenKind::Name.fixed_width(), None);
}

#[test]
fn merging_positions() {
    let merged = Pos::merge_without_checking_filename(arena(), at(4, 6), at(1, 5));
    assert_eq!((merged.start_cnum(), merged.end_cnum()), (1, 6));
    assert_eq!(merged.width(), 5);
    let same = Pos::merge_without_checking_filename(arena(), at(4, 6), Pos::none());
    assert_eq!((same.start_cnum(), same.end_cnum()), (4, 6));
    let same = Pos::merge_without_checking_filename(arena(), Pos::none(), at(4, 6));
    assert_eq!((same.start_cnum(), same.end_cnum()), (4, 6));
    assert!(Pos::merge_without_checking_filename(arena(), Pos::none(), Pos::none()).is_none());
}

#[test]
fn lines_of_offsets() {
    let text = IndexedSourceText {
        source_text: SourceText { file_path: *path(), text: b"ab\ncd\n\ne" },
        line_starts: &[0, 3, 6, 7],
    };
    assert_eq!(text.offset_to_file_pos_triple(0), FilePos { line: 1, bol: 0, offset: 0 });
    assert_eq!(text.offset_to_file_pos_triple(2), FilePos { line: 1, bol: 0, offset: 2 });
    assert_eq!(text.offset_to_file_pos_triple(3), FilePos { line: 2, bol: 3, offset: 3 });
    assert_eq!(text.offset_to_file_pos_triple(6), FilePos { line: 3, bol: 6, offset: 6 });
    assert_eq!(text.offset_to_file_pos_triple(99), FilePos { line: 4, bol: 7, offset: 99 });
    assert_eq!(text.source_text.sub(3, 2), b"cd");
    assert_eq!(text.source_text.sub(6, 50), b"\ne");
    assert_eq!(text.source_text.sub(50, 1), b"");
}

#[test]
fn maps_of_byte_strings() {
    let arena = arena();
    let empty: StrMap<'static, u8> = StrMap::empty();
    let one = empty.add(arena, b"a", 1);
    let two = one.add(arena, b"b", 2);
    let again = two.add(arena, b"a", 3);
    assert_eq!(empty.get(b"a"), None);
    assert_eq!(two.get(b"a"), Some(&1));
    assert_eq!(two.get(b"b"), Some(&2));
    assert_eq!(again.get(b"a"), Some(&3));
    assert_eq!(again.get(b"b"), Some(&2));
    assert_eq!(again.get(b"c"), None);
}

#[test]
fn sets_of_constants() {
    let arena = arena();
    let from = |class: &'static [u8], name: &'static [u8]| {
        ClassConstRef(ClassConstFrom::From(class), name)
    };
    let mut refs: Items<'static, ClassConstRef<'static>> = Items::none();
    refs = insert_ref(arena, refs, from(b"\\B", b"X"));
    refs = insert_ref(arena, refs, ClassConstRef(ClassConstFrom::Self_, b"Z"));
    refs = insert_ref(arena, refs, from(b"\\A", b"Y"));
    refs = insert_ref(arena, refs, from(b"\\B", b"X"));
    refs = insert_ref(arena, refs, from(b"\\B", b"A"));
    assert_eq!(refs.len(), 4);
    assert!(matches!(refs.at(0), ClassConstRef(ClassConstFrom::Self_, b"Z")));
    assert!(matches!(refs.at(1), ClassConstRef(ClassConstFrom::From(b"\\A"), b"Y")));
    assert!(matches!(refs.at(2), ClassConstRef(ClassConstFrom::From(b"\\B"), b"A")));
    assert!(matches!(refs.at(3), ClassConstRef(ClassConstFrom::From(b"\\B"), b"X")));
}

fn builder() -> NamespaceBuilder<'static> {
    NamespaceBuilder::new_in(
        Items::none(),
        AutoImport { namespaces: Items::none(), types: Items::none() },
        false,
        arena(),
    )
}

#[test]
fn entering_and_leaving_namespaces() {
    let mut b = builder();
    assert_eq!(b.current_namespace(), None);
    b.push_namespace(Some(b"A"));
    assert_eq!(b.current_namespace(), Some(&b"A"[..]));
    b.push_namespace(Some(b"B\\C"));
    assert_eq!(b.current_namespace(), Some(&b"A\\B\\C"[..]));
    b.push_namespace(None);
    assert_eq!(b.current_namespace(), Some(&b"A\\B\\C"[..]));
    b.pop_namespace();
    b.pop_namespace();
    assert_eq!(b.current_namespace(), Some(&b"A"[..]));
    b.pop_namespace();
    assert_eq!(b.current_namespace(), None);
    b.pop_namespace();
    assert_eq!(b.stack.len(), 1);
}

#[test]
fn leaving_the_previous_namespace() {
    let mut b = builder();
    b.push_namespace(Some(b"Y"));
    b.push_namespace(Some(b"X"));
    assert_eq!(b.current_namespace(), Some(&b"Y\\X"[..]));
    b.pop_previous_namespace();
    assert_eq!(b.current_namespace(), Some(&b"X"[..]));
    assert_eq!(b.stack.len(), 2);
    // With one namespace entered there is no previous one to leave.
    b.pop_previous_namespace();
    assert_eq!(b.current_namespace(), Some(&b"X"[..]));
}

#[test]
fn leaving_the_previous_namespace_without_names() {
    let names: [Option<&[u8]>; 3] = [None, Some(b"A"), Some(b"B\\C")];
    for outer in names {
        for y in names {
            for x in names {
                let mut b = builder();
                b.push_namespace(outer);
                b.push_namespace(y);
                b.push_namespace(x);
                b.pop_previous_namespace();
                let mut c = builder();
                c.push_namespace(outer);
                c.push_namespace(y);
                c.pop_namespace();
                c.push_namespace(x);
                assert_eq!(b.stack.len(), c.stack.len());
                assert_eq!(b.current_namespace(), c.current_namespace());
            }
        }
    }
    let mut b = builder();
    b.push_namespace(Some(b"Y"));
    b.push_namespace(None);
    b.pop_previous_namespace();
    assert_eq!(b.stack.len(), 2);
    assert_eq!(b.current_namespace(), None);
    let mut b = builder();
    b.push_namespace(None);
    b.push_namespace(Some(b"\\Foo"));
    b.pop_previous_namespace();
    assert_eq!(b.current_namespace(), Some(&b"\\Foo"[..]));
}

#[test]
fn imports() {
    let mut b = builder();
    b.add_import(NamespaceUseKind::Type, b"A\\B", None);
    b.add_import(NamespaceUseKind::Namespace, b"\\N\\M\\", None);
    b.add_import(NamespaceUseKind::Mixed, b"P\\Q", Some(b"R"));
    let env = b.current_env();
    assert_eq!(env.class_uses.get(b"B"), Some(&&b"\\A\\B"[..]));
    assert_eq!(env.ns_uses.get(b"B"), None);
    assert_eq!(env.ns_uses.get(b"M"), Some(&&b"\\N\\M"[..]));
    assert_eq!(env.class_uses.get(b"M"), None);
    assert_eq!(env.class_uses.get(b"R"), Some(&&b"\\P\\Q"[..]));
    assert_eq!(env.ns_uses.get(b"R"), Some(&&b"\\P\\Q"[..]));
    assert_eq!(env.ns_uses.get(b"Q"), None);
}

#[test]
fn first_classish_name_is_kept() {
    let mut b = ClassishNameBuilder::new();
    assert!(b.get_current_classish_name().is_none());
    b.lexed_name_after_classish_keyword(arena(), b":x", at(1, 2), TokenKind::Interface);
    b.lexed_name_after_classish_keyword(arena(), b"\\D", at(3, 4), TokenKind::Class);
    let (name, pos) = b.get_current_classish_name().unwrap();
    assert_eq!(name, b"\\:x");
    assert_eq!(pos.start_cnum(), 1);
    assert!(b.in_interface());
    b.parsed_classish_declaration();
    assert!(b.get_current_classish_name().is_none());
    assert!(!b.in_interface());
}

#[test]
fn declarations_keep_their_order() {
    let arena = arena();
    let decl = |start: usize| {
        Decl::Const(arena.alloc(ConstDecl { pos: at(start, start + 1), type_: tany() }))
    };
    let mut decls = Decls::empty();
    decls.add(b"\\A", decl(1));
    decls.add(b"\\B", decl(2));
    decls.add(b"\\A", decl(3));
    assert_eq!(decls.entries.len(), 3);
    assert_eq!(decls.entries[0].0, b"\\A");
    assert_eq!(decls.entries[1].0, b"\\B");
    assert!(matches!(decls.entries[2].1, Decl::Const(c) if c.pos.start_cnum() == 3));
}

#[test]
fn source_text_allocators() {
    let text: &'static [u8] = b"abc";
    assert_eq!(SourceTextAllocator::alloc_text(&NoSourceTextAllocator, text), b"abc");
    let copy = SourceTextAllocator::alloc_text(&ArenaSourceTextAllocator(arena()), text);
    assert_eq!(copy, b"abc");
    assert!(copy.as_ptr() != text.as_ptr());
}
