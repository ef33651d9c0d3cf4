//! Texts of a new project: its module name, its starter IDL and README.
use vstd::prelude::*;
use vstd::string::StrSliceExecFns;
use crate::text::push_char;

verus! {

/// The lower-case form of a text, as std computes it.
pub uninterp spec fn lower_of(s: Seq<char>) -> Seq<char>;

/// Relies on str::to_lowercase: the lower-case mapping of the text, which
/// depends on its characters alone.
#[verifier::external_body]
fn lowercase(s: &str) -> (r: String)
    ensures
        r@ == lower_of(s@),
{
    s.to_lowercase()
}

pub open spec fn is_ascii_alnum(c: char) -> bool {
    ('a' <= c && c <= 'z') || ('A' <= c && c <= 'Z') || ('0' <= c && c <= '9')
}

/// What a character contributes to a module name: itself when it is an
/// ASCII letter or digit, `_` for `-`, `_` and space, nothing otherwise.
pub open spec fn module_char(c: char) -> Seq<char> {
    if is_ascii_alnum(c) {
        seq![c]
    } else if c == '-' || c == '_' || c == ' ' {
        seq!['_']
    } else {
        Seq::empty()
    }
}

pub open spec fn module_chars(s: Seq<char>) -> Seq<char>
    decreases s.len(),
{
    if s.len() == 0 {
        Seq::empty()
    } else {
        module_chars(s.drop_last()) + module_char(s.last())
    }
}

/// The module name made from an already lower-cased project name;
/// `module` when no character is kept.
pub open spec fn module_name_from(lowered: Seq<char>) -> Seq<char> {
    if module_chars(lowered).len() == 0 {
        "module"@
    } else {
        module_chars(lowered)
    }
}

/// The module name made from a lower-cased project name.
pub fn sanitize_lowered(lowered: &str) -> (r: String)
    ensures
        r@ == module_name_from(lowered@),
{
    let n = lowered.unicode_len();
    let mut out = String::new();
    let mut i: usize = 0;
    while i < n
        invariant
            n == lowered@.len(),
            i <= n,
            out@ == module_chars(lowered@.take(i as int)),
        decreases n - i,
    {
        assert(lowered@.take(i as int + 1).drop_last() =~= lowered@.take(i as int));
        let c = lowered.get_char(i);
        if ('a' <= c && c <= 'z') || ('A' <= c && c <= 'Z') || ('0' <= c && c <= '9') {
            push_char(&mut out, c);
        } else if c == '-' || c == '_' || c == ' ' {
            push_char(&mut out, '_');
        }
        i = i + 1;
    }
    assert(lowered@.take(n as int) =~= lowered@);
    if out.unicode_len() == 0 {
        String::from_str("module")
    } else {
        out
    }
}

/// The module name of a new project: its name lower-cased, reduced to
/// ASCII letters, digits and `_`.
pub fn sanitize_module_name(name: &str) -> (r: String)
    ensures
        r@ == module_name_from(lower_of(name@)),
{
    let lowered = lowercase(name);
    sanitize_lowered(lowered.as_str())
}

pub const NEW_IDL_HEAD: &'static str = "version: \"0.1.0\"\nmodules:\n  - name: ";

pub const NEW_IDL_BODY: &'static str = "\n    functions:\n      - name: add\n        params:\n          - { name: a, type: i32 }\n          - { name: b, type: i32 }\n        return: i32\n      - name: mul\n        params:\n          - { name: a, type: i32 }\n          - { name: b, type: i32 }\n        return: i32\n      - name: echo\n        params:\n          - { name: s, type: string }\n        return: string\n";

pub const NEW_README_BODY: &'static str = "\n\nThis project was bootstrapped with WeaveFFI.\n\n- Edit `weaveffi.yml` to define your API.\n- Generate outputs: `weaveffi generate weaveffi.yml -o ../generated` (or choose any out dir).\n- See docs for memory/error model and platform specifics.\n";

/// The starter IDL of a new project whose module is `module`.
pub open spec fn new_idl_text(module: Seq<char>) -> Seq<char> {
    NEW_IDL_HEAD@ + module + NEW_IDL_BODY@
}

/// The README of a new project named `name`.
pub open spec fn new_readme_text(name: Seq<char>) -> Seq<char> {
    "# "@ + name + NEW_README_BODY@
}

pub fn render_new_idl(module: &str) -> (r: String)
    ensures
        r@ == new_idl_text(module@),
{
    let mut out = String::from_str(NEW_IDL_HEAD);
    out.append(module);
    out.append(NEW_IDL_BODY);
    out
}

pub fn render_new_readme(name: &str) -> (r: String)
    ensures
        r@ == new_readme_text(name@),
{
    let mut out = String::from_str("# ");
    out.append(name);
    out.append(NEW_README_BODY);
    out
}

} // verus!
