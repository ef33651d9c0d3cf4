//! The C header: the ABI that the native library implements.
use vstd::prelude::*;
use crate::ir::{Api, Function, Module, Param, TypeRef};
use crate::text::{join, join_texts, lemma_texts_push, texts};

verus! {

/// Everything in the header before the first module.
pub const C_HEADER_PRELUDE: &'static str = "#ifndef WEAVEFFI_H\n#define WEAVEFFI_H\n\n#include <stdint.h>\n#include <stddef.h>\n#include <stdbool.h>\n\n#ifdef __cplusplus\nextern \"C\" {\n#endif\n\ntypedef uint64_t weaveffi_handle_t;\n\ntypedef struct weaveffi_error { int32_t code; const char* message; } weaveffi_error;\n\nvoid weaveffi_error_clear(weaveffi_error* err);\nvoid weaveffi_free_string(const char* ptr);\nvoid weaveffi_free_bytes(uint8_t* ptr, size_t len);\n\n";

/// Everything in the header after the last module.
pub const C_HEADER_EPILOGUE: &'static str = "\n#ifdef __cplusplus\n}\n#endif\n\n#endif // WEAVEFFI_H\n";

/// The companion C source file.
pub const C_CONVENIENCE_SOURCE: &'static str = "#include \"weaveffi.h\"\n\n// Optional convenience wrappers can be added here in future versions.\n";

/// The C parameter declaration(s) for a parameter: by value for scalars
/// and handles, a pointer and a length for strings and bytes.
pub open spec fn c_param_decl(ty: TypeRef, name: Seq<char>) -> Seq<char> {
    match ty {
        TypeRef::I32 => "int32_t "@ + name,
        TypeRef::U32 => "uint32_t "@ + name,
        TypeRef::I64 => "int64_t "@ + name,
        TypeRef::F64 => "double "@ + name,
        TypeRef::Bool => "bool "@ + name,
        TypeRef::StringUtf8 | TypeRef::Bytes => "const uint8_t* "@ + name + "_ptr, size_t "@ + name
            + "_len"@,
        TypeRef::Handle => "weaveffi_handle_t "@ + name,
    }
}

/// The C return type for a returned value.
pub open spec fn c_ret_type(ty: TypeRef) -> Seq<char> {
    match ty {
        TypeRef::I32 => "int32_t"@,
        TypeRef::U32 => "uint32_t"@,
        TypeRef::I64 => "int64_t"@,
        TypeRef::F64 => "double"@,
        TypeRef::Bool => "bool"@,
        TypeRef::StringUtf8 => "const char*"@,
        TypeRef::Bytes => "const uint8_t*"@,
        TypeRef::Handle => "weaveffi_handle_t"@,
    }
}

/// The C return type of a function, `void` when it returns nothing.
pub open spec fn c_ret_text(returns: Option<TypeRef>) -> Seq<char> {
    match returns {
        Some(t) => c_ret_type(t),
        None => "void"@,
    }
}

/// A function's C symbol: `weaveffi_<module>_<function>`.
pub open spec fn c_symbol(module: Seq<char>, func: Seq<char>) -> Seq<char> {
    "weaveffi_"@ + module + "_"@ + func
}

/// The C declarations of the parameters, one entry per parameter.
pub open spec fn c_param_decls(params: Seq<Param>) -> Seq<Seq<char>>
    decreases params.len(),
{
    if params.len() == 0 {
        Seq::empty()
    } else {
        c_param_decls(params.drop_last()).push(c_param_decl(params.last().ty, params.last().name@))
    }
}

/// The parameter list of a prototype: the parameters, then `out_len` when
/// bytes are returned, then the error out-parameter.
pub open spec fn c_proto_params(f: Function) -> Seq<Seq<char>> {
    let base = c_param_decls(f.params@);
    let with_len = if f.returns == Some(TypeRef::Bytes) {
        base.push("size_t* out_len"@)
    } else {
        base
    };
    with_len.push("weaveffi_error* out_err"@)
}

/// The prototype line of a function of module `module`.
pub open spec fn c_prototype(module: Seq<char>, f: Function) -> Seq<char> {
    c_ret_text(f.returns) + " "@ + c_symbol(module, f.name@) + "("@ + join(c_proto_params(f), ", "@)
        + ");\n"@
}

/// The prototypes of `fs`, in order.
pub open spec fn c_prototypes(module: Seq<char>, fs: Seq<Function>) -> Seq<char>
    decreases fs.len(),
{
    if fs.len() == 0 {
        Seq::empty()
    } else {
        c_prototypes(module, fs.drop_last()) + c_prototype(module, fs.last())
    }
}

/// The block of a module: a comment naming it, its prototypes, a blank line.
pub open spec fn c_module_text(m: Module) -> Seq<char> {
    "// Module: "@ + m.name@ + "\n"@ + c_prototypes(m.name@, m.functions@) + "\n"@
}

/// The blocks of `ms`, in order.
pub open spec fn c_modules_text(ms: Seq<Module>) -> Seq<char>
    decreases ms.len(),
{
    if ms.len() == 0 {
        Seq::empty()
    } else {
        c_modules_text(ms.drop_last()) + c_module_text(ms.last())
    }
}

/// The whole header for an api.
pub open spec fn c_header_text(api: Api) -> Seq<char> {
    C_HEADER_PRELUDE@ + c_modules_text(api.modules@) + C_HEADER_EPILOGUE@
}

pub fn c_type_for_param(ty: &TypeRef, name: &str) -> (r: String)
    ensures
        r@ == c_param_decl(*ty, name@),
{
    let mut out = String::new();
    match ty {
        TypeRef::I32 => out.append("int32_t "),
        TypeRef::U32 => out.append("uint32_t "),
        TypeRef::I64 => out.append("int64_t "),
        TypeRef::F64 => out.append("double "),
        TypeRef::Bool => out.append("bool "),
        TypeRef::StringUtf8 | TypeRef::Bytes => out.append("const uint8_t* "),
        TypeRef::Handle => out.append("weaveffi_handle_t "),
    }
    out.append(name);
    if ty.passes_as_buffer() {
        out.append("_ptr, size_t ");
        out.append(name);
        out.append("_len");
    }
    out
}

/// The C return type, and whether an `out_len` parameter is needed.
pub fn c_ret_type_for(ty: &TypeRef) -> (r: (&'static str, bool))
    ensures
        r.0@ == c_ret_type(*ty),
        r.1 == (*ty == TypeRef::Bytes),
{
    match ty {
        TypeRef::I32 => ("int32_t", false),
        TypeRef::U32 => ("uint32_t", false),
        TypeRef::I64 => ("int64_t", false),
        TypeRef::F64 => ("double", false),
        TypeRef::Bool => ("bool", false),
        TypeRef::StringUtf8 => ("const char*", false),
        TypeRef::Bytes => ("const uint8_t*", true),
        TypeRef::Handle => ("weaveffi_handle_t", false),
    }
}

pub fn c_symbol_name(module: &str, func: &str) -> (r: String)
    ensures
        r@ == c_symbol(module@, func@),
{
    let mut out = String::from_str("weaveffi_");
    out.append(module);
    out.append("_");
    out.append(func);
    out
}

pub fn c_params_sig(params: &[Param]) -> (r: Vec<String>)
    ensures
        texts(r@) == c_param_decls(params@),
{
    let mut out: Vec<String> = Vec::new();
    let mut i: usize = 0;
    while i < params.len()
        invariant
            i <= params.len(),
            texts(out@) == c_param_decls(params@.take(i as int)),
        decreases params.len() - i,
    {
        let p = &params[i];
        let decl = c_type_for_param(&p.ty, p.name.as_str());
        proof {
            assert(params@.take(i as int + 1).drop_last() =~= params@.take(i as int));
            lemma_texts_push(out@, decl);
        }
        out.push(decl);
        i = i + 1;
    }
    assert(params@.take(params.len() as int) =~= params@);
    out
}

/// The prototype line of one function.
pub fn c_prototype_line(module: &str, f: &Function) -> (r: String)
    ensures
        r@ == c_prototype(module@, *f),
{
    let mut params_sig = c_params_sig(f.params.as_slice());
    let ret_sig: &str = match &f.returns {
        Some(ret) => {
            let (ret_ty, needs_len) = c_ret_type_for(ret);
            if needs_len {
                let extra = String::from_str("size_t* out_len");
                proof {
                    lemma_texts_push(params_sig@, extra);
                }
                params_sig.push(extra);
            }
            ret_ty
        },
        None => "void",
    };
    let err = String::from_str("weaveffi_error* out_err");
    proof {
        lemma_texts_push(params_sig@, err);
    }
    params_sig.push(err);
    let mut out = String::from_str(ret_sig);
    out.append(" ");
    let sym = c_symbol_name(module, f.name.as_str());
    out.append(sym.as_str());
    out.append("(");
    let joined = join_texts(&params_sig, ", ");
    out.append(joined.as_str());
    out.append(");\n");
    out
}

pub fn render_module_header(out: &mut String, module: &Module)
    ensures
        final(out)@ == old(out)@ + c_module_text(*module),
{
    let ghost start = out@;
    out.append("// Module: ");
    out.append(module.name.as_str());
    out.append("\n");
    let ghost head = out@;
    let mut i: usize = 0;
    while i < module.functions.len()
        invariant
            i <= module.functions.len(),
            head == start + "// Module: "@ + module.name@ + "\n"@,
            out@ == head + c_prototypes(module.name@, module.functions@.take(i as int)),
        decreases module.functions.len() - i,
    {
        assert(module.functions@.take(i as int + 1).drop_last() =~= module.functions@.take(
            i as int,
        ));
        let line = c_prototype_line(module.name.as_str(), &module.functions[i]);
        out.append(line.as_str());
        i = i + 1;
    }
    assert(module.functions@.take(module.functions.len() as int) =~= module.functions@);
    out.append("\n");
}

pub fn render_c_header(api: &Api) -> (r: String)
    ensures
        r@ == c_header_text(*api),
{
    let mut out = String::from_str(C_HEADER_PRELUDE);
    let mut i: usize = 0;
    while i < api.modules.len()
        invariant
            i <= api.modules.len(),
            out@ == C_HEADER_PRELUDE@ + c_modules_text(api.modules@.take(i as int)),
        decreases api.modules.len() - i,
    {
        assert(api.modules@.take(i as int + 1).drop_last() =~= api.modules@.take(i as int));
        render_module_header(&mut out, &api.modules[i]);
        i = i + 1;
    }
    assert(api.modules@.take(api.modules.len() as int) =~= api.modules@);
    out.append(C_HEADER_EPILOGUE);
    out
}

pub fn render_c_convenience_c() -> (r: String)
    ensures
        r@ == C_CONVENIENCE_SOURCE@,
{
    String::from_str(C_CONVENIENCE_SOURCE)
}

proof fn lemma_param_decls_index(ps: Seq<Param>)
    ensures
        c_param_decls(ps).len() == ps.len(),
        forall|i: int|
            0 <= i < ps.len() ==> #[trigger] c_param_decls(ps)[i] == c_param_decl(ps[i].ty, ps[i].name@),
    decreases ps.len(),
{
    if ps.len() > 0 {
        lemma_param_decls_index(ps.drop_last());
        assert(forall|i: int| 0 <= i < ps.len() - 1 ==> ps.drop_last()[i] == ps[i]);
    }
}

/// Signature shape: the parameter list of every prototype is one entry
/// per parameter (the value itself, or a pointer and a length for strings
/// and bytes), then `size_t* out_len` exactly when bytes are returned, then
/// `weaveffi_error* out_err`.
pub proof fn lemma_signature_shape(f: Function)
    ensures
        c_proto_params(f).len() == f.params@.len() + (if f.returns == Some(TypeRef::Bytes) {
            1int
        } else {
            0int
        }) + 1,
        forall|i: int|
            0 <= i < f.params@.len() ==> #[trigger] c_proto_params(f)[i] == c_param_decl(
                f.params@[i].ty,
                f.params@[i].name@,
            ),
        f.returns == Some(TypeRef::Bytes) ==> c_proto_params(f)[f.params@.len() as int]
            == "size_t* out_len"@,
        c_proto_params(f).last() == "weaveffi_error* out_err"@,
{
    lemma_param_decls_index(f.params@);
}

/// Symbol naming: two different (module, function) pairs get different C
/// symbols, provided the module names hold no `_`. (With `_` in module
/// names they can meet: `a_b`/`c` and `a`/`b_c` both give `weaveffi_a_b_c`.)
pub proof fn lemma_symbols_distinct(m1: Seq<char>, f1: Seq<char>, m2: Seq<char>, f2: Seq<char>)
    requires
        m1 != m2 || f1 != f2,
        forall|i: int| 0 <= i < m1.len() ==> #[trigger] m1[i] != '_',
        forall|i: int| 0 <= i < m2.len() ==> #[trigger] m2[i] != '_',
    ensures
        c_symbol(m1, f1) != c_symbol(m2, f2),
{
    let p = "weaveffi_"@;
    let s1 = c_symbol(m1, f1);
    let s2 = c_symbol(m2, f2);
    if s1 == s2 {
        let k: int = p.len() as int;
        let l1: int = m1.len() as int;
        let l2: int = m2.len() as int;
        assert(s1 =~= p + m1 + "_"@ + f1);
        assert(s2 =~= p + m2 + "_"@ + f2);
        reveal_strlit("_");
        if l1 < l2 {
            assert(s1[k + l1] == '_');
            assert(s2[k + l1] == m2[l1]);
        } else if l2 < l1 {
            assert(s2[k + l2] == '_');
            assert(s1[k + l2] == m1[l2]);
        } else {
            assert(m1 =~= s1.subrange(k, k + l1));
            assert(m2 =~= s2.subrange(k, k + l2));
            assert(f1 =~= s1.subrange(k + l1 + 1, s1.len() as int));
            assert(f2 =~= s2.subrange(k + l2 + 1, s2.len() as int));
        }
    }
}

} // verus!
