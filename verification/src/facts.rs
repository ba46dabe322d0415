//! Extraction of the facts of a file, as the callers of the toolchain ask for
//! it: a word of flags selects how the file is parsed. The extraction itself
//! is handed in as a function.

use crate::source::RelativePath;
use vstd::prelude::*;

verus! {

pub const PHP5_COMPAT_MODE: i32 = 0x01;

pub const HHVM_COMPAT_MODE: i32 = 0x02;

pub const ALLOW_NEW_ATTRIBUTE_SYNTAX: i32 = 0x04;

pub const ENABLE_XHP_CLASS_MODIFIER: i32 = 0x08;

pub const DISABLE_XHP_ELEMENT_MANGLING: i32 = 0x10;

pub const DISALLOW_HASH_COMMENTS: i32 = 0x20;

#[derive(Copy, Clone, Debug)]
pub struct FactsOpts<'t> {
    pub php5_compat_mode: bool,
    pub hhvm_compat_mode: bool,
    pub allow_new_attribute_syntax: bool,
    pub enable_xhp_class_modifier: bool,
    pub disable_xhp_element_mangling: bool,
    pub filename: RelativePath<'t>,
    pub disallow_hash_comments: bool,
}

/// The options that a word of flags selects: one bit for each.
pub open spec fn opts_in<'t>(flags: i32, filename: RelativePath<'t>) -> FactsOpts<'t> {
    FactsOpts {
        php5_compat_mode: flags & PHP5_COMPAT_MODE != 0,
        hhvm_compat_mode: flags & HHVM_COMPAT_MODE != 0,
        allow_new_attribute_syntax: flags & ALLOW_NEW_ATTRIBUTE_SYNTAX != 0,
        enable_xhp_class_modifier: flags & ENABLE_XHP_CLASS_MODIFIER != 0,
        disable_xhp_element_mangling: flags & DISABLE_XHP_ELEMENT_MANGLING != 0,
        filename,
        disallow_hash_comments: flags & DISALLOW_HASH_COMMENTS != 0,
    }
}

/// Reads the options from a word of flags.
pub fn opts_from_flags<'t>(flags: i32, filename: RelativePath<'t>) -> (r: FactsOpts<'t>)
    ensures
        r == opts_in(flags, filename),
{
    FactsOpts {
        php5_compat_mode: flags & PHP5_COMPAT_MODE != 0,
        hhvm_compat_mode: flags & HHVM_COMPAT_MODE != 0,
        allow_new_attribute_syntax: flags & ALLOW_NEW_ATTRIBUTE_SYNTAX != 0,
        enable_xhp_class_modifier: flags & ENABLE_XHP_CLASS_MODIFIER != 0,
        disable_xhp_element_mangling: flags & DISABLE_XHP_ELEMENT_MANGLING != 0,
        filename,
        disallow_hash_comments: flags & DISALLOW_HASH_COMMENTS != 0,
    }
}

/// Extracts the facts of a file as JSON under the options that a word of flags
/// selects. `extract_as_json` does so with the names of XHP classes mangled,
/// `without_xhp_mangling` without.
pub fn extract_as_json_ffi<
    't,
    F: Fn(&'t [u8], FactsOpts<'t>) -> Option<String>,
    G: Fn(&'t [u8], FactsOpts<'t>) -> Option<String>,
>(
    flags: i32,
    filename: RelativePath<'t>,
    text: &'t [u8],
    mangle_xhp: bool,
    extract_as_json: F,
    without_xhp_mangling: G,
) -> (r: Option<String>)
    requires
        mangle_xhp ==> call_requires(extract_as_json, (text, opts_in(flags, filename))),
        !mangle_xhp ==> call_requires(without_xhp_mangling, (text, opts_in(flags, filename))),
    ensures
        mangle_xhp ==> call_ensures(extract_as_json, (text, opts_in(flags, filename)), r),
        !mangle_xhp ==> call_ensures(without_xhp_mangling, (text, opts_in(flags, filename)), r),
{
    let opts = opts_from_flags(flags, filename);
    extract_facts_as_json_ffi0(
        opts.php5_compat_mode,
        opts.hhvm_compat_mode,
        opts.allow_new_attribute_syntax,
        opts.enable_xhp_class_modifier,
        opts.disable_xhp_element_mangling,
        opts.disallow_hash_comments,
        opts.filename,
        text,
        mangle_xhp,
        extract_as_json,
        without_xhp_mangling,
    )
}

pub fn extract_facts_as_json_ffi0<
    't,
    F: Fn(&'t [u8], FactsOpts<'t>) -> Option<String>,
    G: Fn(&'t [u8], FactsOpts<'t>) -> Option<String>,
>(
    php5_compat_mode: bool,
    hhvm_compat_mode: bool,
    allow_new_attribute_syntax: bool,
    enable_xhp_class_modifier: bool,
    disable_xhp_element_mangling: bool,
    disallow_hash_comments: bool,
    filename: RelativePath<'t>,
    text: &'t [u8],
    mangle_xhp: bool,
    extract_as_json: F,
    without_xhp_mangling: G,
) -> (r: Option<String>)
    requires
        ({
            let opts = FactsOpts {
                php5_compat_mode,
                hhvm_compat_mode,
                allow_new_attribute_syntax,
                enable_xhp_class_modifier,
                disable_xhp_element_mangling,
                filename,
                disallow_hash_comments,
            };
            if mangle_xhp {
                call_requires(extract_as_json, (text, opts))
            } else {
                call_requires(without_xhp_mangling, (text, opts))
            }
        }),
    ensures
        ({
            let opts = FactsOpts {
                php5_compat_mode,
                hhvm_compat_mode,
                allow_new_attribute_syntax,
                enable_xhp_class_modifier,
                disable_xhp_element_mangling,
                filename,
                disallow_hash_comments,
            };
            if mangle_xhp {
                call_ensures(extract_as_json, (text, opts), r)
            } else {
                call_ensures(without_xhp_mangling, (text, opts), r)
            }
        }),
{
    let opts = FactsOpts {
        php5_compat_mode,
        hhvm_compat_mode,
        allow_new_attribute_syntax,
        enable_xhp_class_modifier,
        disable_xhp_element_mangling,
        filename,
        disallow_hash_comments,
    };
    if mangle_xhp {
        extract_as_json(text, opts)
    } else {
        without_xhp_mangling(text, opts)
    }
}

pub fn extract_facts_ffi0<'t, Facts, F: Fn(&'t [u8], FactsOpts<'t>) -> Option<Facts>>(
    php5_compat_mode: bool,
    hhvm_compat_mode: bool,
    allow_new_attribute_syntax: bool,
    enable_xhp_class_modifier: bool,
    disable_xhp_element_mangling: bool,
    disallow_hash_comments: bool,
    filename: RelativePath<'t>,
    text: &'t [u8],
    _mangle_xhp: bool,
    from_text: F,
) -> (r: Option<Facts>)
    requires
        call_requires(
            from_text,
            (
                text,
                (FactsOpts {
                    php5_compat_mode,
                    hhvm_compat_mode,
                    allow_new_attribute_syntax,
                    enable_xhp_class_modifier,
                    disable_xhp_element_mangling,
                    filename,
                    disallow_hash_comments,
                }),
            ),
        ),
    ensures
        call_ensures(
            from_text,
            (
                text,
                (FactsOpts {
                    php5_compat_mode,
                    hhvm_compat_mode,
                    allow_new_attribute_syntax,
                    enable_xhp_class_modifier,
                    disable_xhp_element_mangling,
                    filename,
                    disallow_hash_comments,
                }),
            ),
            r,
        ),
{
    let opts = FactsOpts {
        php5_compat_mode,
        hhvm_compat_mode,
        allow_new_attribute_syntax,
        enable_xhp_class_modifier,
        disable_xhp_element_mangling,
        filename,
        disallow_hash_comments,
    };
    from_text(text, opts)
}

pub fn facts_to_json_ffi<'t, Facts, F: Fn(Facts, &'t [u8]) -> String>(
    facts: Facts,
    text: &'t [u8],
    to_json: F,
) -> (r: String)
    requires
        call_requires(to_json, (facts, text)),
    ensures
        call_ensures(to_json, (facts, text), r),
{
    to_json(facts, text)
}

/// Whether a function gives the same facts for the same text and options.
pub open spec fn gives_one_answer<'t, Facts, F: Fn(&'t [u8], FactsOpts<'t>) -> Option<Facts>>(
    from_text: F,
) -> bool {
    forall|text: &'t [u8], opts: FactsOpts<'t>, r1: Option<Facts>, r2: Option<Facts>|
        #[trigger] call_ensures(from_text, (text, opts), r1) && #[trigger] call_ensures(
            from_text,
            (text, opts),
            r2,
        ) ==> r1 == r2
}

/// Two extractions that differ at most in whether XHP names are to be mangled
/// give equal facts, namely those of the text under the options.
pub proof fn law_mangling_does_not_change_the_facts<
    't,
    Facts,
    F: Fn(&'t [u8], FactsOpts<'t>) -> Option<Facts>,
>(
    opts: FactsOpts<'t>,
    text: &'t [u8],
    mangle_xhp1: bool,
    mangle_xhp2: bool,
    from_text: F,
    r1: Option<Facts>,
    r2: Option<Facts>,
)
    requires
        gives_one_answer(from_text),
        call_ensures(
            extract_facts_ffi0::<Facts, F>,
            (
                opts.php5_compat_mode,
                opts.hhvm_compat_mode,
                opts.allow_new_attribute_syntax,
                opts.enable_xhp_class_modifier,
                opts.disable_xhp_element_mangling,
                opts.disallow_hash_comments,
                opts.filename,
                text,
                mangle_xhp1,
                from_text,
            ),
            r1,
        ),
        call_ensures(
            extract_facts_ffi0::<Facts, F>,
            (
                opts.php5_compat_mode,
                opts.hhvm_compat_mode,
                opts.allow_new_attribute_syntax,
                opts.enable_xhp_class_modifier,
                opts.disable_xhp_element_mangling,
                opts.disallow_hash_comments,
                opts.filename,
                text,
                mangle_xhp2,
                from_text,
            ),
            r2,
        ),
    ensures
        r1 == r2,
        call_ensures(from_text, (text, opts), r1),
{
}

/// Whether a word is the flag of one option.
pub open spec fn is_flag(flag: i32) -> bool {
    flag == PHP5_COMPAT_MODE || flag == HHVM_COMPAT_MODE || flag == ALLOW_NEW_ATTRIBUTE_SYNTAX
        || flag == ENABLE_XHP_CLASS_MODIFIER || flag == DISABLE_XHP_ELEMENT_MANGLING || flag
        == DISALLOW_HASH_COMMENTS
}

/// Each option has a bit of its own: setting one leaves the others as they
/// were.
pub proof fn law_flags_are_independent(flags: i32, set: i32, other: i32)
    requires
        is_flag(set),
        is_flag(other),
        set != other,
    ensures
        (flags | set) & set != 0,
        (flags | set) & other == flags & other,
{
    assert((flags | set) & set != 0 && (flags | set) & other == flags & other) by (bit_vector)
        requires
            set == 0x01 || set == 0x02 || set == 0x04 || set == 0x08 || set == 0x10 || set == 0x20,
            other == 0x01 || other == 0x02 || other == 0x04 || other == 0x08 || other == 0x10
                || other == 0x20,
            set != other,
    ;
}

/// Setting the bit of one option switches that option on and changes no other;
/// the name of the file is kept. Without bits all options are off.
pub proof fn law_each_bit_is_one_option<'t>(flags: i32, filename: RelativePath<'t>)
    ensures
        ({
            let opts = opts_in(flags, filename);
            &&& opts.filename == filename
            &&& opts_in(0, filename) == (FactsOpts {
                php5_compat_mode: false,
                hhvm_compat_mode: false,
                allow_new_attribute_syntax: false,
                enable_xhp_class_modifier: false,
                disable_xhp_element_mangling: false,
                filename,
                disallow_hash_comments: false,
            })
            &&& opts_in(flags | 0x01, filename) == (FactsOpts { php5_compat_mode: true, ..opts })
            &&& opts_in(flags | 0x02, filename) == (FactsOpts { hhvm_compat_mode: true, ..opts })
            &&& opts_in(flags | 0x04, filename) == (FactsOpts {
                allow_new_attribute_syntax: true,
                ..opts
            })
            &&& opts_in(flags | 0x08, filename) == (FactsOpts {
                enable_xhp_class_modifier: true,
                ..opts
            })
            &&& opts_in(flags | 0x10, filename) == (FactsOpts {
                disable_xhp_element_mangling: true,
                ..opts
            })
            &&& opts_in(flags | 0x20, filename) == (FactsOpts {
                disallow_hash_comments: true,
                ..opts
            })
        }),
{
    lemma_flag(flags, 0x01);
    lemma_flag(flags, 0x02);
    lemma_flag(flags, 0x04);
    lemma_flag(flags, 0x08);
    lemma_flag(flags, 0x10);
    lemma_flag(flags, 0x20);
    assert(0i32 & 0x01 == 0 && 0i32 & 0x02 == 0 && 0i32 & 0x04 == 0 && 0i32 & 0x08 == 0 && 0i32
        & 0x10 == 0 && 0i32 & 0x20 == 0) by (bit_vector);
}

proof fn lemma_flag(flags: i32, set: i32)
    requires
        set == 0x01 || set == 0x02 || set == 0x04 || set == 0x08 || set == 0x10 || set == 0x20,
    ensures
        (flags | set) & set != 0,
        set != 0x01 ==> (flags | set) & 0x01 == flags & 0x01,
        set != 0x02 ==> (flags | set) & 0x02 == flags & 0x02,
        set != 0x04 ==> (flags | set) & 0x04 == flags & 0x04,
        set != 0x08 ==> (flags | set) & 0x08 == flags & 0x08,
        set != 0x10 ==> (flags | set) & 0x10 == flags & 0x10,
        set != 0x20 ==> (flags | set) & 0x20 == flags & 0x20,
{
    assert((flags | set) & set != 0 && (set != 0x01 ==> (flags | set) & 0x01 == flags & 0x01) && (set
        != 0x02 ==> (flags | set) & 0x02 == flags & 0x02) && (set != 0x04 ==> (flags | set) & 0x04
        == flags & 0x04) && (set != 0x08 ==> (flags | set) & 0x08 == flags & 0x08) && (set != 0x10
        ==> (flags | set) & 0x10 == flags & 0x10) && (set != 0x20 ==> (flags | set) & 0x20 == flags
        & 0x20)) by (bit_vector)
        requires
            set == 0x01 || set == 0x02 || set == 0x04 || set == 0x08 || set == 0x10 || set == 0x20,
    ;
}

/// The options are handed on one for one, with the text, to the function that
/// mangles XHP names or to the one that does not, as is asked for.
pub proof fn law_options_are_handed_on<
    't,
    F: Fn(&'t [u8], FactsOpts<'t>) -> Option<String>,
    G: Fn(&'t [u8], FactsOpts<'t>) -> Option<String>,
>(
    opts: FactsOpts<'t>,
    text: &'t [u8],
    mangle_xhp: bool,
    extract_as_json: F,
    without_xhp_mangling: G,
    r: Option<String>,
)
    requires
        call_ensures(
            extract_facts_as_json_ffi0::<F, G>,
            (
                opts.php5_compat_mode,
                opts.hhvm_compat_mode,
                opts.allow_new_attribute_syntax,
                opts.enable_xhp_class_modifier,
                opts.disable_xhp_element_mangling,
                opts.disallow_hash_comments,
                opts.filename,
                text,
                mangle_xhp,
                extract_as_json,
                without_xhp_mangling,
            ),
            r,
        ),
    ensures
        mangle_xhp ==> call_ensures(extract_as_json, (text, opts), r),
        !mangle_xhp ==> call_ensures(without_xhp_mangling, (text, opts), r),
{
}

/// Asking by a word of flags is asking by the options that it selects.
pub proof fn law_flags_are_handed_on<
    't,
    F: Fn(&'t [u8], FactsOpts<'t>) -> Option<String>,
    G: Fn(&'t [u8], FactsOpts<'t>) -> Option<String>,
>(
    flags: i32,
    filename: RelativePath<'t>,
    text: &'t [u8],
    mangle_xhp: bool,
    extract_as_json: F,
    without_xhp_mangling: G,
    r: Option<String>,
)
    requires
        call_ensures(
            extract_as_json_ffi::<F, G>,
            (flags, filename, text, mangle_xhp, extract_as_json, without_xhp_mangling),
            r,
        ),
    ensures
        mangle_xhp ==> call_ensures(extract_as_json, (text, opts_in(flags, filename)), r),
        !mangle_xhp ==> call_ensures(without_xhp_mangling, (text, opts_in(flags, filename)), r),
{
}

} // verus!
