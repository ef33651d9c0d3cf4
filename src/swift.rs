//! The Swift wrapper: one namespace per module, one throwing static method
//! per function.
use vstd::prelude::*;
use vstd::string::StrSliceExecFns;
use crate::c_header::{c_symbol, c_symbol_name};
use crate::ir::{Api, Function, Module, Param, TypeRef};
use crate::text::{join, join_texts, lemma_texts_push, push_char, texts};

verus! {

/// The error type, the `check` helper, and the import, ahead of the modules.
pub const SWIFT_PRELUDE: &'static str = "import WeaveFFI\n\npublic enum WeaveFFIError: Error, CustomStringConvertible {\n    case error(code: Int32, message: String)\n    public var description: String {\n        switch self { case let .error(code, message): return \"(\\(code)) \\(message)\" }\n    }\n}\n\n@inline(__always)\nfunc check(_ err: inout weaveffi_error) throws {\n    if err.code != 0 {\n        let code = err.code\n        let message = err.message.flatMap { String(cString: $0) } ?? \"\"\n        weaveffi_error_clear(&err)\n        throw WeaveFFIError.error(code: code, message: message)\n    }\n}\n\n";

/// What follows the call when a string is returned: release on every
/// path, then convert.
pub const SWIFT_STRING_RETURN: &'static str = "        defer { weaveffi_free_string(rv) }\n        try check(&err)\n        guard let rv = rv else { throw WeaveFFIError.error(code: -1, message: \"null string\") }\n        return String(cString: rv)\n";

/// What follows the call when bytes are returned: release on every path,
/// then copy `out_len` bytes into `Data`.
pub const SWIFT_BYTES_RETURN: &'static str = "        defer { weaveffi_free_bytes(UnsafeMutablePointer(mutating: rv), out_len) }\n        try check(&err)\n        guard let rv = rv else { return Data() }\n        return Data(bytes: rv, count: out_len)\n";

/// What follows the call when a scalar or handle is returned.
pub const SWIFT_VALUE_RETURN: &'static str = "        try check(&err)\n        return rv\n";

/// What follows the call when nothing is returned.
pub const SWIFT_VOID_RETURN: &'static str = "        try check(&err)\n";

pub open spec fn swift_type(t: TypeRef) -> Seq<char> {
    match t {
        TypeRef::I32 => "Int32"@,
        TypeRef::U32 => "UInt32"@,
        TypeRef::I64 => "Int64"@,
        TypeRef::F64 => "Double"@,
        TypeRef::Bool => "Bool"@,
        TypeRef::StringUtf8 => "String"@,
        TypeRef::Bytes => "Data"@,
        TypeRef::Handle => "UInt64"@,
    }
}

pub open spec fn swift_ret_type(ret: Option<TypeRef>) -> Seq<char> {
    match ret {
        Some(t) => swift_type(t),
        None => "Void"@,
    }
}

/// ASCII upper case of one character; other characters stay.
pub open spec fn ascii_upper(c: char) -> char {
    if 'a' <= c && c <= 'z' {
        (((c as u8) - 32) as u8) as char
    } else {
        c
    }
}

/// What the character at `i` of `s` contributes to the camel-case name:
/// nothing for `_`, its upper case at the start of a part, else itself.
pub open spec fn camel_piece(s: Seq<char>, i: int) -> Seq<char> {
    if s[i] == '_' {
        Seq::empty()
    } else if i == 0 || s[i - 1] == '_' {
        seq![ascii_upper(s[i])]
    } else {
        seq![s[i]]
    }
}

/// The camel-case name built from the first `n` characters of `s`.
pub open spec fn camel_prefix(s: Seq<char>, n: int) -> Seq<char>
    decreases n,
{
    if n <= 0 {
        Seq::empty()
    } else {
        camel_prefix(s, n - 1) + camel_piece(s, n - 1)
    }
}

/// `s` split at `_`, each part with its first letter in upper case, joined.
pub open spec fn camel(s: Seq<char>) -> Seq<char> {
    camel_prefix(s, s.len() as int)
}

/// The Swift parameter declarations, one per parameter.
pub open spec fn swift_sig_params(ps: Seq<Param>) -> Seq<Seq<char>>
    decreases ps.len(),
{
    if ps.len() == 0 {
        Seq::empty()
    } else {
        swift_sig_params(ps.drop_last()).push(
            "_ "@ + ps.last().name@ + ": "@ + swift_type(ps.last().ty),
        )
    }
}

/// The C call arguments of the parameters: `<name>_ptr, <name>_len` for
/// strings and bytes, the name itself otherwise.
pub open spec fn swift_call_args(ps: Seq<Param>) -> Seq<Seq<char>>
    decreases ps.len(),
{
    if ps.len() == 0 {
        Seq::empty()
    } else {
        let p = ps.last();
        let pre = swift_call_args(ps.drop_last());
        if p.ty.is_buffer() {
            pre.push(p.name@ + "_ptr"@).push(p.name@ + "_len"@)
        } else {
            pre.push(p.name@)
        }
    }
}

/// The lines that borrow a pointer and a length for one parameter.
pub open spec fn swift_prep_param(p: Param) -> Seq<char> {
    let n = p.name@;
    match p.ty {
        TypeRef::StringUtf8 => "        let "@ + n + "_bytes = Array("@ + n + ".utf8)\n        let "@ + n
            + "_ptr = UnsafePointer<UInt8>("@ + n + "_bytes)\n        let "@ + n + "_len = "@ + n
            + "_bytes.count\n"@,
        TypeRef::Bytes => "        let "@ + n + "_ptr = "@ + n
            + ".withUnsafeBytes { (raw: UnsafeRawBufferPointer) in\n            return raw.bindMemory(to: UInt8.self).baseAddress\n        }\n        let "@
            + n + "_len = "@ + n + ".count\n"@,
        _ => Seq::empty(),
    }
}

pub open spec fn swift_prep(ps: Seq<Param>) -> Seq<char>
    decreases ps.len(),
{
    if ps.len() == 0 {
        Seq::empty()
    } else {
        swift_prep(ps.drop_last()) + swift_prep_param(ps.last())
    }
}

/// The lines after the call, and the binding of the call's result.
pub open spec fn swift_post(ret: Option<TypeRef>) -> (Seq<char>, Seq<char>) {
    match ret {
        None => (SWIFT_VOID_RETURN@, Seq::empty()),
        Some(TypeRef::StringUtf8) => (SWIFT_STRING_RETURN@, "let rv = "@),
        Some(TypeRef::Bytes) => (SWIFT_BYTES_RETURN@, "let rv = "@),
        Some(_) => (SWIFT_VALUE_RETURN@, "let rv = "@),
    }
}

/// All arguments of the C call: the parameters, `&out_len` when bytes are
/// returned, and `&err`.
pub open spec fn swift_call_list(f: Function) -> Seq<Seq<char>> {
    let base = swift_call_args(f.params@);
    let with_len = if f.returns == Some(TypeRef::Bytes) {
        base.push("&out_len"@)
    } else {
        base
    };
    with_len.push("&err"@)
}

pub open spec fn swift_out_len_decl(ret: Option<TypeRef>) -> Seq<char> {
    if ret == Some(TypeRef::Bytes) {
        "        var out_len: Int = 0\n"@
    } else {
        Seq::empty()
    }
}

/// The first line of the method of a function.
pub open spec fn swift_func_head(f: Function) -> Seq<char> {
    "    public static func "@ + f.name@ + "("@ + join(swift_sig_params(f.params@), ", "@)
        + ") throws -> "@ + swift_ret_type(f.returns) + " {\n"@
}

/// The line that calls the C symbol of a function of module `module`.
pub open spec fn swift_call_text(module: Seq<char>, f: Function) -> Seq<char> {
    "        "@ + swift_post(f.returns).1 + c_symbol(module, f.name@) + "("@ + join(
        swift_call_list(f),
        ", "@,
    ) + ")\n"@
}

/// The method of one function of module `module`.
pub open spec fn swift_function_text(module: Seq<char>, f: Function) -> Seq<char> {
    swift_func_head(f) + "        var err = weaveffi_error(code: 0, message: nil)\n"@ + swift_prep(
        f.params@,
    ) + swift_out_len_decl(f.returns) + swift_call_text(module, f) + swift_post(f.returns).0
        + "    }\n"@
}

pub open spec fn swift_functions_text(module: Seq<char>, fs: Seq<Function>) -> Seq<char>
    decreases fs.len(),
{
    if fs.len() == 0 {
        Seq::empty()
    } else {
        swift_functions_text(module, fs.drop_last()) + swift_function_text(module, fs.last())
    }
}

/// The namespace of one module.
pub open spec fn swift_module_text(m: Module) -> Seq<char> {
    "public enum "@ + camel(m.name@) + " {\n"@ + swift_functions_text(m.name@, m.functions@)
        + "}\n\n"@
}

pub open spec fn swift_modules_text(ms: Seq<Module>) -> Seq<char>
    decreases ms.len(),
{
    if ms.len() == 0 {
        Seq::empty()
    } else {
        swift_modules_text(ms.drop_last()) + swift_module_text(ms.last())
    }
}

/// The whole Swift wrapper for an api.
pub open spec fn swift_text(api: Api) -> Seq<char> {
    SWIFT_PRELUDE@ + swift_modules_text(api.modules@)
}

pub fn swift_type_for(t: &TypeRef) -> (r: &'static str)
    ensures
        r@ == swift_type(*t),
{
    match t {
        TypeRef::I32 => "Int32",
        TypeRef::U32 => "UInt32",
        TypeRef::I64 => "Int64",
        TypeRef::F64 => "Double",
        TypeRef::Bool => "Bool",
        TypeRef::StringUtf8 => "String",
        TypeRef::Bytes => "Data",
        TypeRef::Handle => "UInt64",
    }
}

/// Upper camel case of a snake-case name.
pub fn to_camel(s: &str) -> (r: String)
    ensures
        r@ == camel(s@),
{
    let n = s.unicode_len();
    let mut out = String::new();
    let mut prev: char = '_';
    let mut i: usize = 0;
    while i < n
        invariant
            n == s@.len(),
            i <= n,
            out@ == camel_prefix(s@, i as int),
            i > 0 ==> prev == s@[i - 1],
            i == 0 ==> prev == '_',
        decreases n - i,
    {
        let c = s.get_char(i);
        if c != '_' {
            if prev == '_' {
                let u = if 'a' <= c && c <= 'z' {
                    (((c as u8) - 32) as u8) as char
                } else {
                    c
                };
                push_char(&mut out, u);
            } else {
                push_char(&mut out, c);
            }
        }
        prev = c;
        i = i + 1;
    }
    out
}

pub fn swift_call_args_for_params(params: &[Param]) -> (r: Vec<String>)
    ensures
        texts(r@) == swift_call_args(params@),
{
    let mut out: Vec<String> = Vec::new();
    let mut i: usize = 0;
    while i < params.len()
        invariant
            i <= params.len(),
            texts(out@) == swift_call_args(params@.take(i as int)),
        decreases params.len() - i,
    {
        assert(params@.take(i as int + 1).drop_last() =~= params@.take(i as int));
        let p = &params[i];
        if p.ty.passes_as_buffer() {
            let mut a = p.name.clone();
            a.append("_ptr");
            let mut b = p.name.clone();
            b.append("_len");
            proof {
                lemma_texts_push(out@, a);
                lemma_texts_push(out@.push(a), b);
            }
            out.push(a);
            out.push(b);
        } else {
            let a = p.name.clone();
            proof {
                lemma_texts_push(out@, a);
            }
            out.push(a);
        }
        i = i + 1;
    }
    assert(params@.take(params.len() as int) =~= params@);
    out
}

pub fn swift_prep_params(params: &[Param]) -> (r: String)
    ensures
        r@ == swift_prep(params@),
{
    let mut out = String::new();
    let mut i: usize = 0;
    while i < params.len()
        invariant
            i <= params.len(),
            out@ == swift_prep(params@.take(i as int)),
        decreases params.len() - i,
    {
        assert(params@.take(i as int + 1).drop_last() =~= params@.take(i as int));
        let p = &params[i];
        let n = p.name.as_str();
        match p.ty {
            TypeRef::StringUtf8 => {
                out.append("        let ");
                out.append(n);
                out.append("_bytes = Array(");
                out.append(n);
                out.append(".utf8)\n        let ");
                out.append(n);
                out.append("_ptr = UnsafePointer<UInt8>(");
                out.append(n);
                out.append("_bytes)\n        let ");
                out.append(n);
                out.append("_len = ");
                out.append(n);
                out.append("_bytes.count\n");
            },
            TypeRef::Bytes => {
                out.append("        let ");
                out.append(n);
                out.append("_ptr = ");
                out.append(n);
                out.append(
                    ".withUnsafeBytes { (raw: UnsafeRawBufferPointer) in\n            return raw.bindMemory(to: UInt8.self).baseAddress\n        }\n        let ",
                );
                out.append(n);
                out.append("_len = ");
                out.append(n);
                out.append(".count\n");
            },
            _ => {},
        }
        i = i + 1;
    }
    assert(params@.take(params.len() as int) =~= params@);
    out
}

/// The lines after the call, and the binding of the call's result.
pub fn swift_return_postprocess(ret: Option<&TypeRef>) -> (r: (String, String))
    ensures
        (r.0@, r.1@) == swift_post(
            match ret {
                Some(t) => Some(*t),
                None => None,
            },
        ),
{
    match ret {
        None => (String::from_str(SWIFT_VOID_RETURN), String::new()),
        Some(TypeRef::StringUtf8) => (
            String::from_str(SWIFT_STRING_RETURN),
            String::from_str("let rv = "),
        ),
        Some(TypeRef::Bytes) => (String::from_str(SWIFT_BYTES_RETURN), String::from_str("let rv = ")),
        Some(_) => (String::from_str(SWIFT_VALUE_RETURN), String::from_str("let rv = ")),
    }
}

fn swift_sig_params_for(params: &[Param]) -> (r: Vec<String>)
    ensures
        texts(r@) == swift_sig_params(params@),
{
    let mut out: Vec<String> = Vec::new();
    let mut i: usize = 0;
    while i < params.len()
        invariant
            i <= params.len(),
            texts(out@) == swift_sig_params(params@.take(i as int)),
        decreases params.len() - i,
    {
        assert(params@.take(i as int + 1).drop_last() =~= params@.take(i as int));
        let p = &params[i];
        let mut a = String::from_str("_ ");
        a.append(p.name.as_str());
        a.append(": ");
        a.append(swift_type_for(&p.ty));
        proof {
            lemma_texts_push(out@, a);
        }
        out.push(a);
        i = i + 1;
    }
    assert(params@.take(params.len() as int) =~= params@);
    out
}

fn swift_func_head_for(f: &Function) -> (r: String)
    ensures
        r@ == swift_func_head(*f),
{
    let sig = swift_sig_params_for(f.params.as_slice());
    let ret_swift: &str = match &f.returns {
        Some(t) => swift_type_for(t),
        None => "Void",
    };
    let mut out = String::from_str("    public static func ");
    out.append(f.name.as_str());
    out.append("(");
    let sig_text = join_texts(&sig, ", ");
    out.append(sig_text.as_str());
    out.append(") throws -> ");
    out.append(ret_swift);
    out.append(" {\n");
    out
}

fn swift_call_line(module: &str, f: &Function) -> (r: String)
    ensures
        r@ == swift_call_text(module@, *f),
{
    let returns_bytes = match &f.returns {
        Some(TypeRef::Bytes) => true,
        _ => false,
    };
    let mut args = swift_call_args_for_params(f.params.as_slice());
    if returns_bytes {
        let extra = String::from_str("&out_len");
        proof {
            lemma_texts_push(args@, extra);
        }
        args.push(extra);
    }
    let err_arg = String::from_str("&err");
    proof {
        lemma_texts_push(args@, err_arg);
    }
    args.push(err_arg);
    let (_, let_rv) = swift_return_postprocess(f.returns.as_ref());
    let mut out = String::from_str("        ");
    out.append(let_rv.as_str());
    let sym = c_symbol_name(module, f.name.as_str());
    out.append(sym.as_str());
    out.append("(");
    let args_text = join_texts(&args, ", ");
    out.append(args_text.as_str());
    out.append(")\n");
    out
}

fn render_swift_function(out: &mut String, module: &str, f: &Function)
    ensures
        final(out)@ == old(out)@ + swift_function_text(module@, *f),
{
    let head = swift_func_head_for(f);
    out.append(head.as_str());
    out.append("        var err = weaveffi_error(code: 0, message: nil)\n");
    let prep = swift_prep_params(f.params.as_slice());
    out.append(prep.as_str());
    match &f.returns {
        Some(TypeRef::Bytes) => out.append("        var out_len: Int = 0\n"),
        _ => {},
    }
    let call = swift_call_line(module, f);
    out.append(call.as_str());
    let (ret_post, _) = swift_return_postprocess(f.returns.as_ref());
    out.append(ret_post.as_str());
    out.append("    }\n");
}

fn render_swift_module(out: &mut String, m: &Module)
    ensures
        final(out)@ == old(out)@ + swift_module_text(*m),
{
    out.append("public enum ");
    let enum_name = to_camel(m.name.as_str());
    out.append(enum_name.as_str());
    out.append(" {\n");
    let ghost head = out@;
    let mut k: usize = 0;
    while k < m.functions.len()
        invariant
            k <= m.functions.len(),
            out@ == head + swift_functions_text(m.name@, m.functions@.take(k as int)),
        decreases m.functions.len() - k,
    {
        assert(m.functions@.take(k as int + 1).drop_last() =~= m.functions@.take(k as int));
        render_swift_function(out, m.name.as_str(), &m.functions[k]);
        k = k + 1;
    }
    assert(m.functions@.take(m.functions.len() as int) =~= m.functions@);
    out.append("}\n\n");
}

pub fn render_swift_wrapper(api: &Api) -> (r: String)
    ensures
        r@ == swift_text(*api),
{
    let mut out = String::from_str(SWIFT_PRELUDE);
    let mut i: usize = 0;
    while i < api.modules.len()
        invariant
            i <= api.modules.len(),
            out@ == SWIFT_PRELUDE@ + swift_modules_text(api.modules@.take(i as int)),
        decreases api.modules.len() - i,
    {
        assert(api.modules@.take(i as int + 1).drop_last() =~= api.modules@.take(i as int));
        render_swift_module(&mut out, &api.modules[i]);
        i = i + 1;
    }
    assert(api.modules@.take(api.modules.len() as int) =~= api.modules@);
    out
}

} // verus!
