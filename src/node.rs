//! The Node bindings: an FFI loader (`index.ts`) and declarations
//! (`types.d.ts`).
use vstd::prelude::*;
use crate::c_header::{c_symbol, c_symbol_name};
use crate::ir::{Api, Function, Module, Param, TypeRef};
use crate::text::{join, join_texts, lemma_texts_push, texts};

verus! {

/// The loader's imports, type aliases and memory helpers.
pub const NODE_INDEX_PRELUDE: &'static str = "import ffi from 'ffi-napi'\nimport ref from 'ref-napi'\n\nconst libPath = process.env.WEAVEFFI_LIB || './libweaveffi.dylib'\nconst CString = ref.types.CString as any\nconst bool = ref.types.bool as any\nconst uint = ref.types.uint as any\nconst int = ref.types.int as any\nconst int64 = ref.types.int64 as any\nconst uint64 = ref.types.uint64 as any\nconst double = ref.types.double as any\nconst size_t = ref.types.size_t as any\nconst pointer = ref.refType(ref.types.void) as any\n\nexport const lib = ffi.Library(libPath, {\n  'weaveffi_free_string': ['void', [CString]],\n  'weaveffi_free_bytes': ['void', [pointer, size_t]],\n  'weaveffi_error_clear': ['void', [pointer]],\n";

/// The end of the loader.
pub const NODE_INDEX_EPILOGUE: &'static str = "})\n\nexport default lib\n";

/// The first line of the declarations file.
pub const NODE_DTS_PRELUDE: &'static str = "// Generated types for WeaveFFI functions\n";

/// The package manifest of the Node bindings.
pub const NODE_PACKAGE_JSON: &'static str = "{\n  \"name\": \"weaveffi\",\n  \"version\": \"0.1.0\",\n  \"main\": \"index.ts\",\n  \"types\": \"types.d.ts\",\n  \"dependencies\": {\n    \"ffi-napi\": \"^4.0.3\",\n    \"ref-napi\": \"^3.0.3\"\n  }\n}\n";

/// The FFI bridge's name for a type.
pub open spec fn napi_type(t: TypeRef) -> Seq<char> {
    match t {
        TypeRef::I32 => "int"@,
        TypeRef::U32 => "uint"@,
        TypeRef::I64 => "int64"@,
        TypeRef::F64 => "double"@,
        TypeRef::Bool => "bool"@,
        TypeRef::StringUtf8 => "CString"@,
        TypeRef::Bytes => "pointer"@,
        TypeRef::Handle => "uint64"@,
    }
}

/// The bridge's argument types of the parameters: `pointer, size_t` for
/// strings and bytes.
pub open spec fn napi_param_types(ps: Seq<Param>) -> Seq<Seq<char>>
    decreases ps.len(),
{
    if ps.len() == 0 {
        Seq::empty()
    } else {
        let pre = napi_param_types(ps.drop_last());
        if ps.last().ty.is_buffer() {
            pre.push("pointer"@).push("size_t"@)
        } else {
            pre.push(napi_type(ps.last().ty))
        }
    }
}

/// All argument types of a function: the parameters, a pointer for
/// `out_len` when bytes are returned, and a pointer for `out_err`.
pub open spec fn napi_args(f: Function) -> Seq<Seq<char>> {
    let base = napi_param_types(f.params@);
    let with_len = if f.returns == Some(TypeRef::Bytes) {
        base.push("pointer"@)
    } else {
        base
    };
    with_len.push("pointer"@)
}

pub open spec fn napi_ret(ret: Option<TypeRef>) -> Seq<char> {
    match ret {
        Some(t) => napi_type(t),
        None => "'void'"@,
    }
}

/// The loader's entry for one function of module `module`.
pub open spec fn node_decl(module: Seq<char>, f: Function) -> Seq<char> {
    "  '"@ + c_symbol(module, f.name@) + "': ["@ + napi_ret(f.returns) + ", ["@ + join(
        napi_args(f),
        ", "@,
    ) + "]],\n"@
}

pub open spec fn node_decls(module: Seq<char>, fs: Seq<Function>) -> Seq<char>
    decreases fs.len(),
{
    if fs.len() == 0 {
        Seq::empty()
    } else {
        node_decls(module, fs.drop_last()) + node_decl(module, fs.last())
    }
}

pub open spec fn node_modules_decls(ms: Seq<Module>) -> Seq<char>
    decreases ms.len(),
{
    if ms.len() == 0 {
        Seq::empty()
    } else {
        node_modules_decls(ms.drop_last()) + node_decls(ms.last().name@, ms.last().functions@)
    }
}

/// The whole loader for an api.
pub open spec fn node_index_text(api: Api) -> Seq<char> {
    NODE_INDEX_PRELUDE@ + node_modules_decls(api.modules@) + NODE_INDEX_EPILOGUE@
}

/// The TypeScript type of a value.
pub open spec fn ts_type(t: TypeRef) -> Seq<char> {
    match t {
        TypeRef::I32 | TypeRef::U32 | TypeRef::I64 | TypeRef::F64 | TypeRef::Handle => "number"@,
        TypeRef::Bool => "boolean"@,
        TypeRef::StringUtf8 => "string"@,
        TypeRef::Bytes => "Buffer"@,
    }
}

pub open spec fn ts_ret(ret: Option<TypeRef>) -> Seq<char> {
    match ret {
        Some(t) => ts_type(t),
        None => "void"@,
    }
}

pub open spec fn ts_params(ps: Seq<Param>) -> Seq<Seq<char>>
    decreases ps.len(),
{
    if ps.len() == 0 {
        Seq::empty()
    } else {
        ts_params(ps.drop_last()).push(ps.last().name@ + ": "@ + ts_type(ps.last().ty))
    }
}

/// The declaration of one function.
pub open spec fn dts_decl(f: Function) -> Seq<char> {
    "export function "@ + f.name@ + "("@ + join(ts_params(f.params@), ", "@) + "): "@ + ts_ret(
        f.returns,
    ) + "\n"@
}

pub open spec fn dts_decls(fs: Seq<Function>) -> Seq<char>
    decreases fs.len(),
{
    if fs.len() == 0 {
        Seq::empty()
    } else {
        dts_decls(fs.drop_last()) + dts_decl(fs.last())
    }
}

/// A comment naming the module, then its declarations.
pub open spec fn dts_module(m: Module) -> Seq<char> {
    "// module "@ + m.name@ + "\n"@ + dts_decls(m.functions@)
}

pub open spec fn dts_modules(ms: Seq<Module>) -> Seq<char>
    decreases ms.len(),
{
    if ms.len() == 0 {
        Seq::empty()
    } else {
        dts_modules(ms.drop_last()) + dts_module(ms.last())
    }
}

/// The whole declarations file for an api.
pub open spec fn dts_text(api: Api) -> Seq<char> {
    NODE_DTS_PRELUDE@ + dts_modules(api.modules@)
}

pub fn ffi_napi_type_for(t: &TypeRef) -> (r: &'static str)
    ensures
        r@ == napi_type(*t),
{
    match t {
        TypeRef::I32 => "int",
        TypeRef::U32 => "uint",
        TypeRef::I64 => "int64",
        TypeRef::F64 => "double",
        TypeRef::Bool => "bool",
        TypeRef::StringUtf8 => "CString",
        TypeRef::Bytes => "pointer",
        TypeRef::Handle => "uint64",
    }
}

fn napi_args_for(f: &Function) -> (r: Vec<String>)
    ensures
        texts(r@) == napi_args(*f),
{
    let params = f.params.as_slice();
    let mut out: Vec<String> = Vec::new();
    let mut i: usize = 0;
    while i < params.len()
        invariant
            params@ == f.params@,
            i <= params.len(),
            texts(out@) == napi_param_types(params@.take(i as int)),
        decreases params.len() - i,
    {
        assert(params@.take(i as int + 1).drop_last() =~= params@.take(i as int));
        let p = &params[i];
        if p.ty.passes_as_buffer() {
            let a = String::from_str("pointer");
            let b = String::from_str("size_t");
            proof {
                lemma_texts_push(out@, a);
                lemma_texts_push(out@.push(a), b);
            }
            out.push(a);
            out.push(b);
        } else {
            let a = String::from_str(ffi_napi_type_for(&p.ty));
            proof {
                lemma_texts_push(out@, a);
            }
            out.push(a);
        }
        i = i + 1;
    }
    assert(params@.take(params.len() as int) =~= params@);
    match &f.returns {
        Some(TypeRef::Bytes) => {
            let a = String::from_str("pointer");
            proof {
                lemma_texts_push(out@, a);
            }
            out.push(a);
        },
        _ => {},
    }
    let a = String::from_str("pointer");
    proof {
        lemma_texts_push(out@, a);
    }
    out.push(a);
    out
}

fn node_decl_line(module: &str, f: &Function) -> (r: String)
    ensures
        r@ == node_decl(module@, *f),
{
    let sym = c_symbol_name(module, f.name.as_str());
    let ret: &str = match &f.returns {
        Some(t) => ffi_napi_type_for(t),
        None => "'void'",
    };
    let args = napi_args_for(f);
    let mut out = String::from_str("  '");
    out.append(sym.as_str());
    out.append("': [");
    out.append(ret);
    out.append(", [");
    let joined = join_texts(&args, ", ");
    out.append(joined.as_str());
    out.append("]],\n");
    out
}

pub fn render_node_index_ts(api: &Api) -> (r: String)
    ensures
        r@ == node_index_text(*api),
{
    let mut out = String::from_str(NODE_INDEX_PRELUDE);
    let mut i: usize = 0;
    while i < api.modules.len()
        invariant
            i <= api.modules.len(),
            out@ == NODE_INDEX_PRELUDE@ + node_modules_decls(api.modules@.take(i as int)),
        decreases api.modules.len() - i,
    {
        assert(api.modules@.take(i as int + 1).drop_last() =~= api.modules@.take(i as int));
        let m = &api.modules[i];
        let ghost head = out@;
        let mut k: usize = 0;
        while k < m.functions.len()
            invariant
                k <= m.functions.len(),
                out@ == head + node_decls(m.name@, m.functions@.take(k as int)),
            decreases m.functions.len() - k,
        {
            assert(m.functions@.take(k as int + 1).drop_last() =~= m.functions@.take(k as int));
            let line = node_decl_line(m.name.as_str(), &m.functions[k]);
            out.append(line.as_str());
            k = k + 1;
        }
        assert(m.functions@.take(m.functions.len() as int) =~= m.functions@);
        i = i + 1;
    }
    assert(api.modules@.take(api.modules.len() as int) =~= api.modules@);
    out.append(NODE_INDEX_EPILOGUE);
    out
}

fn ts_type_for(t: &TypeRef) -> (r: &'static str)
    ensures
        r@ == ts_type(*t),
{
    match t {
        TypeRef::I32 | TypeRef::U32 | TypeRef::I64 | TypeRef::F64 | TypeRef::Handle => "number",
        TypeRef::Bool => "boolean",
        TypeRef::StringUtf8 => "string",
        TypeRef::Bytes => "Buffer",
    }
}

fn dts_decl_line(f: &Function) -> (r: String)
    ensures
        r@ == dts_decl(*f),
{
    let params = f.params.as_slice();
    let mut parts: Vec<String> = Vec::new();
    let mut i: usize = 0;
    while i < params.len()
        invariant
            params@ == f.params@,
            i <= params.len(),
            texts(parts@) == ts_params(params@.take(i as int)),
        decreases params.len() - i,
    {
        assert(params@.take(i as int + 1).drop_last() =~= params@.take(i as int));
        let p = &params[i];
        let mut a = p.name.clone();
        a.append(": ");
        a.append(ts_type_for(&p.ty));
        proof {
            lemma_texts_push(parts@, a);
        }
        parts.push(a);
        i = i + 1;
    }
    assert(params@.take(params.len() as int) =~= params@);
    let ret: &str = match &f.returns {
        Some(t) => ts_type_for(t),
        None => "void",
    };
    let mut out = String::from_str("export function ");
    out.append(f.name.as_str());
    out.append("(");
    let joined = join_texts(&parts, ", ");
    out.append(joined.as_str());
    out.append("): ");
    out.append(ret);
    out.append("\n");
    out
}

pub fn render_node_dts(api: &Api) -> (r: String)
    ensures
        r@ == dts_text(*api),
{
    let mut out = String::from_str(NODE_DTS_PRELUDE);
    let mut i: usize = 0;
    while i < api.modules.len()
        invariant
            i <= api.modules.len(),
            out@ == NODE_DTS_PRELUDE@ + dts_modules(api.modules@.take(i as int)),
        decreases api.modules.len() - i,
    {
        assert(api.modules@.take(i as int + 1).drop_last() =~= api.modules@.take(i as int));
        let m = &api.modules[i];
        out.append("// module ");
        out.append(m.name.as_str());
        out.append("\n");
        let ghost head = out@;
        let mut k: usize = 0;
        while k < m.functions.len()
            invariant
                k <= m.functions.len(),
                out@ == head + dts_decls(m.functions@.take(k as int)),
            decreases m.functions.len() - k,
        {
            assert(m.functions@.take(k as int + 1).drop_last() =~= m.functions@.take(k as int));
            let line = dts_decl_line(&m.functions[k]);
            out.append(line.as_str());
            k = k + 1;
        }
        assert(m.functions@.take(m.functions.len() as int) =~= m.functions@);
        i = i + 1;
    }
    assert(api.modules@.take(api.modules.len() as int) =~= api.modules@);
    out
}

} // verus!
