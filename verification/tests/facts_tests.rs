use direct_decl::facts::{
    extract_as_json_ffi,
    extract_facts_as_json_ffi0,
    extract_facts_ffi0,
    facts_to_json_ffi,
    opts_from_flags,
    FactsOpts,
};
use direct_decl::source::{Prefix, RelativePath};

fn file() -> RelativePath<'static> {
    RelativePath { prefix: Prefix::Root, path: b"a.php" }
}

#[test]
fn flags_select_options() {
    let opts = opts_from_flags(0x25, file());
    assert!(opts.php5_compat_mode);
    assert!(!opts.hhvm_compat_mode);
    assert!(opts.allow_new_attribute_syntax);
    assert!(!opts.enable_xhp_class_modifier);
    assert!(!opts.disable_xhp_element_mangling);
    assert!(opts.disallow_hash_comments);
    assert_eq!(opts.filename.path, b"a.php");
    let opts = opts_from_flags(-1, file());
    assert!(opts.hhvm_compat_mode && opts.enable_xhp_class_modifier);
    assert!(opts.disable_xhp_element_mangling);
}

fn render(what: &str, text: &[u8], opts: FactsOpts<'_>) -> Option<String> {
    if text.is_empty() {
        None
    } else {
        Some(format!(
            "{} {} {} {}",
            what,
            text.len(),
            opts.hhvm_compat_mode,
            opts.disallow_hash_comments
        ))
    }
}

#[test]
fn mangling_selects_the_extraction() {
    let mangled = |text: &'static [u8], opts: FactsOpts<'static>| render("mangled", text, opts);
    let plain = |text: &'static [u8], opts: FactsOpts<'static>| render("plain", text, opts);
    let r = extract_as_json_ffi(0x02, file(), b"abc", true, mangled, plain);
    assert_eq!(r, Some("mangled 3 true false".to_string()));
    let r = extract_as_json_ffi(0x20, file(), b"abc", false, mangled, plain);
    assert_eq!(r, Some("plain 3 false true".to_string()));
    let r = extract_facts_as_json_ffi0(
        false, true, false, false, false, true, file(), b"", true, mangled, plain,
    );
    assert_eq!(r, None);
}

#[test]
fn facts_are_handed_through() {
    let from_text = |text: &'static [u8], opts: FactsOpts<'static>| {
        if opts.php5_compat_mode {
            Some(text.len())
        } else {
            None
        }
    };
    let with = extract_facts_ffi0(
        true, false, false, false, false, false, file(), b"ab", true, from_text,
    );
    assert_eq!(with, Some(2));
    let unmangled = extract_facts_ffi0(
        true, false, false, false, false, false, file(), b"ab", false, from_text,
    );
    assert_eq!(with, unmangled);
    let without = extract_facts_ffi0(
        false, true, true, true, true, true, file(), b"ab", true, from_text,
    );
    assert_eq!(without, None);
    let json = facts_to_json_ffi(7usize, b"ab", |facts: usize, text: &'static [u8]| {
        format!("{} {}", facts, text.len())
    });
    assert_eq!(json, "7 2");
}
