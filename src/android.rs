//! The Android bindings: a Kotlin class of external methods and the JNI
//! shim in C that forwards each of them to the C ABI.
use vstd::prelude::*;
use crate::c_header::{c_ret_type, c_ret_type_for, c_symbol, c_symbol_name};
use crate::ir::{Api, Function, Module, Param, TypeRef};
use crate::text::{join, join_texts, lemma_texts_push, texts};

verus! {

pub const KOTLIN_PRELUDE: &'static str = "package com.weaveffi\n\nclass WeaveFFI {\n    companion object {\n        init { System.loadLibrary(\"weaveffi\") }\n\n";

pub const KOTLIN_EPILOGUE: &'static str = "    }\n}\n";

pub const JNI_PRELUDE: &'static str = "#include <jni.h>\n#include <stdbool.h>\n#include <stdint.h>\n#include <stddef.h>\n#include \"weaveffi.h\"\n\n";

/// The start of the failure branch: raise the error as a Java exception,
/// then release its message.
pub const JNI_THROW_OPEN: &'static str = "    if (err.code != 0) {\n        jclass exClass = (*env)->FindClass(env, \"java/lang/RuntimeException\");\n        const char* msg = err.message ? err.message : \"WeaveFFI error\";\n        (*env)->ThrowNew(env, exClass, msg);\n        weaveffi_error_clear(&err);\n";

pub const JNI_STRING_TAIL: &'static str = "    jstring out = rv ? (*env)->NewStringUTF(env, rv) : (*env)->NewStringUTF(env, \"\");\n    weaveffi_free_string(rv);\n    return out;\n";

pub const JNI_BYTES_TAIL: &'static str = "    jbyteArray out = (*env)->NewByteArray(env, (jsize)out_len);\n    if (out && rv) { (*env)->SetByteArrayRegion(env, out, 0, (jsize)out_len, (const jbyte*)rv); }\n    weaveffi_free_bytes((uint8_t*)rv, out_len);\n    return out;\n";

pub const SETTINGS_GRADLE: &'static str = "rootProject.name = 'weaveffi'\n";

pub const BUILD_GRADLE: &'static str = "plugins {\n    id 'com.android.library'\n    id 'org.jetbrains.kotlin.android' version '1.9.22'\n}\n\nandroid {\n    namespace 'com.weaveffi'\n    compileSdk 34\n    defaultConfig { minSdk 24 }\n    externalNativeBuild {\n        cmake { path 'src/main/cpp/CMakeLists.txt' }\n    }\n}\n";

pub const CMAKE_LISTS: &'static str = "cmake_minimum_required(VERSION 3.22)\nproject(weaveffi)\nadd_library(weaveffi SHARED weaveffi_jni.c)\ntarget_include_directories(weaveffi PRIVATE ../../../../c)\n";

pub open spec fn kotlin_type_of(t: TypeRef) -> Seq<char> {
    match t {
        TypeRef::I32 | TypeRef::U32 => "Int"@,
        TypeRef::I64 | TypeRef::Handle => "Long"@,
        TypeRef::F64 => "Double"@,
        TypeRef::Bool => "Boolean"@,
        TypeRef::StringUtf8 => "String"@,
        TypeRef::Bytes => "ByteArray"@,
    }
}

pub open spec fn kotlin_params(ps: Seq<Param>) -> Seq<Seq<char>>
    decreases ps.len(),
{
    if ps.len() == 0 {
        Seq::empty()
    } else {
        kotlin_params(ps.drop_last()).push(ps.last().name@ + ": "@ + kotlin_type_of(ps.last().ty))
    }
}

pub open spec fn kotlin_decl(f: Function) -> Seq<char> {
    "        @JvmStatic external fun "@ + f.name@ + "("@ + join(kotlin_params(f.params@), ", "@)
        + "): "@ + match f.returns {
        Some(t) => kotlin_type_of(t),
        None => "Unit"@,
    } + "\n"@
}

pub open spec fn kotlin_decls(fs: Seq<Function>) -> Seq<char>
    decreases fs.len(),
{
    if fs.len() == 0 {
        Seq::empty()
    } else {
        kotlin_decls(fs.drop_last()) + kotlin_decl(fs.last())
    }
}

pub open spec fn kotlin_modules(ms: Seq<Module>) -> Seq<char>
    decreases ms.len(),
{
    if ms.len() == 0 {
        Seq::empty()
    } else {
        kotlin_modules(ms.drop_last()) + kotlin_decls(ms.last().functions@)
    }
}

/// The Kotlin class: one external static method per function of every module.
pub open spec fn kotlin_text(api: Api) -> Seq<char> {
    KOTLIN_PRELUDE@ + kotlin_modules(api.modules@) + KOTLIN_EPILOGUE@
}

pub open spec fn jni_param_type_of(t: TypeRef) -> Seq<char> {
    match t {
        TypeRef::I32 | TypeRef::U32 => "jint"@,
        TypeRef::I64 | TypeRef::Handle => "jlong"@,
        TypeRef::F64 => "jdouble"@,
        TypeRef::Bool => "jboolean"@,
        TypeRef::StringUtf8 => "jstring"@,
        TypeRef::Bytes => "jbyteArray"@,
    }
}

pub open spec fn jni_ret_type_of(ret: Option<TypeRef>) -> Seq<char> {
    match ret {
        Some(t) => jni_param_type_of(t),
        None => "void"@,
    }
}

pub open spec fn jni_params(ps: Seq<Param>) -> Seq<Seq<char>>
    decreases ps.len(),
{
    if ps.len() == 0 {
        seq!["JNIEnv* env"@, "jclass clazz"@]
    } else {
        jni_params(ps.drop_last()).push(jni_param_type_of(ps.last().ty) + " "@ + ps.last().name@)
    }
}

/// The first line of the JNI function of `f`.
pub open spec fn jni_head(f: Function) -> Seq<char> {
    "JNIEXPORT "@ + jni_ret_type_of(f.returns) + " JNICALL Java_com_weaveffi_WeaveFFI_"@ + f.name@
        + "("@ + join(jni_params(f.params@), ", "@) + ") {\n"@
}

/// The lines that take hold of a string or byte-array argument.
pub open spec fn jni_acquire(p: Param) -> Seq<char> {
    let n = p.name@;
    match p.ty {
        TypeRef::StringUtf8 => "    const char* "@ + n + "_chars = (*env)->GetStringUTFChars(env, "@ + n
            + ", NULL);\n    jsize "@ + n + "_len = (*env)->GetStringUTFLength(env, "@ + n + ");\n"@,
        TypeRef::Bytes => "    jboolean "@ + n + "_is_copy = 0;\n    jbyte* "@ + n
            + "_elems = (*env)->GetByteArrayElements(env, "@ + n + ", &"@ + n + "_is_copy);\n    jsize "@
            + n + "_len = (*env)->GetArrayLength(env, "@ + n + ");\n"@,
        _ => Seq::empty(),
    }
}

/// The line that lets go of a string or byte-array argument.
pub open spec fn jni_release(p: Param) -> Seq<char> {
    let n = p.name@;
    match p.ty {
        TypeRef::StringUtf8 => "    (*env)->ReleaseStringUTFChars(env, "@ + n + ", "@ + n
            + "_chars);\n"@,
        TypeRef::Bytes => "    (*env)->ReleaseByteArrayElements(env, "@ + n + ", "@ + n
            + "_elems, JNI_ABORT);\n"@,
        _ => Seq::empty(),
    }
}

pub open spec fn jni_acquires(ps: Seq<Param>) -> Seq<char>
    decreases ps.len(),
{
    if ps.len() == 0 {
        Seq::empty()
    } else {
        jni_acquires(ps.drop_last()) + jni_acquire(ps.last())
    }
}

pub open spec fn jni_releases(ps: Seq<Param>) -> Seq<char>
    decreases ps.len(),
{
    if ps.len() == 0 {
        Seq::empty()
    } else {
        jni_releases(ps.drop_last()) + jni_release(ps.last())
    }
}

/// The C call arguments of the parameters, cast to the ABI's types.
pub open spec fn jni_call_args(ps: Seq<Param>) -> Seq<Seq<char>>
    decreases ps.len(),
{
    if ps.len() == 0 {
        Seq::empty()
    } else {
        let pre = jni_call_args(ps.drop_last());
        let n = ps.last().name@;
        match ps.last().ty {
            TypeRef::StringUtf8 => pre.push("(const uint8_t*)"@ + n + "_chars"@).push(
                "(size_t)"@ + n + "_len"@,
            ),
            TypeRef::Bytes => pre.push("(const uint8_t*)"@ + n + "_elems"@).push(
                "(size_t)"@ + n + "_len"@,
            ),
            TypeRef::Bool => pre.push("(bool)("@ + n + " == JNI_TRUE)"@),
            TypeRef::I32 => pre.push("(int32_t)"@ + n),
            TypeRef::U32 => pre.push("(uint32_t)"@ + n),
            TypeRef::I64 => pre.push("(int64_t)"@ + n),
            TypeRef::F64 => pre.push("(double)"@ + n),
            TypeRef::Handle => pre.push("(weaveffi_handle_t)"@ + n),
        }
    }
}

pub open spec fn jni_call_list(f: Function) -> Seq<Seq<char>> {
    let base = jni_call_args(f.params@);
    let with_len = if f.returns == Some(TypeRef::Bytes) {
        base.push("&out_len"@)
    } else {
        base
    };
    with_len.push("&err"@)
}

/// The line that calls the C symbol and keeps what it returns.
pub open spec fn jni_call(module: Seq<char>, f: Function) -> Seq<char> {
    "    "@ + match f.returns {
        Some(t) => c_ret_type(t) + " rv = "@,
        None => Seq::empty(),
    } + c_symbol(module, f.name@) + "("@ + join(jni_call_list(f), ", "@) + ");\n"@
}

/// The failure branch: throw, release the message and any returned
/// buffer, and return a default value.
pub open spec fn jni_error_block(ret: Option<TypeRef>) -> Seq<char> {
    JNI_THROW_OPEN@ + match ret {
        None => "        return;\n"@,
        Some(TypeRef::StringUtf8) => "        weaveffi_free_string(rv);\n        return NULL;\n"@,
        Some(TypeRef::Bytes) => "        weaveffi_free_bytes((uint8_t*)rv, out_len);\n        return NULL;\n"@,
        Some(TypeRef::Bool) => "        return JNI_FALSE;\n"@,
        Some(_) => "        return 0;\n"@,
    } + "    }\n"@
}

/// The success path after the call.
pub open spec fn jni_tail(ret: Option<TypeRef>) -> Seq<char> {
    match ret {
        None => "    return;\n"@,
        Some(TypeRef::StringUtf8) => JNI_STRING_TAIL@,
        Some(TypeRef::Bytes) => JNI_BYTES_TAIL@,
        Some(TypeRef::Bool) => "    return rv ? JNI_TRUE : JNI_FALSE;\n"@,
        Some(TypeRef::I32) | Some(TypeRef::U32) => "    return (jint)rv;\n"@,
        Some(TypeRef::I64) | Some(TypeRef::Handle) => "    return (jlong)rv;\n"@,
        Some(TypeRef::F64) => "    return (jdouble)rv;\n"@,
    }
}

pub open spec fn jni_out_len_decl(ret: Option<TypeRef>) -> Seq<char> {
    if ret == Some(TypeRef::Bytes) {
        "    size_t out_len = 0;\n"@
    } else {
        Seq::empty()
    }
}

/// The JNI function of `f` of module `module`: take hold of the arguments,
/// call, let go of the arguments, then fail or convert the result.
pub open spec fn jni_function_text(module: Seq<char>, f: Function) -> Seq<char> {
    jni_head(f) + "    weaveffi_error err = {0, NULL};\n"@ + jni_acquires(f.params@) + jni_out_len_decl(
        f.returns,
    ) + jni_call(module, f) + jni_releases(f.params@) + jni_error_block(f.returns) + jni_tail(
        f.returns,
    ) + "}\n\n"@
}

pub open spec fn jni_functions(module: Seq<char>, fs: Seq<Function>) -> Seq<char>
    decreases fs.len(),
{
    if fs.len() == 0 {
        Seq::empty()
    } else {
        jni_functions(module, fs.drop_last()) + jni_function_text(module, fs.last())
    }
}

pub open spec fn jni_modules(ms: Seq<Module>) -> Seq<char>
    decreases ms.len(),
{
    if ms.len() == 0 {
        Seq::empty()
    } else {
        jni_modules(ms.drop_last()) + jni_functions(ms.last().name@, ms.last().functions@)
    }
}

/// The whole JNI shim for an api.
pub open spec fn jni_text(api: Api) -> Seq<char> {
    JNI_PRELUDE@ + jni_modules(api.modules@)
}

pub fn kotlin_type(t: &TypeRef) -> (r: &'static str)
    ensures
        r@ == kotlin_type_of(*t),
{
    match t {
        TypeRef::I32 | TypeRef::U32 => "Int",
        TypeRef::I64 | TypeRef::Handle => "Long",
        TypeRef::F64 => "Double",
        TypeRef::Bool => "Boolean",
        TypeRef::StringUtf8 => "String",
        TypeRef::Bytes => "ByteArray",
    }
}

pub fn jni_param_type(t: &TypeRef) -> (r: &'static str)
    ensures
        r@ == jni_param_type_of(*t),
{
    match t {
        TypeRef::I32 | TypeRef::U32 => "jint",
        TypeRef::I64 | TypeRef::Handle => "jlong",
        TypeRef::F64 => "jdouble",
        TypeRef::Bool => "jboolean",
        TypeRef::StringUtf8 => "jstring",
        TypeRef::Bytes => "jbyteArray",
    }
}

pub fn jni_ret_type(t: Option<&TypeRef>) -> (r: &'static str)
    ensures
        r@ == jni_ret_type_of(
            match t {
                Some(x) => Some(*x),
                None => None,
            },
        ),
{
    match t {
        Some(x) => jni_param_type(x),
        None => "void",
    }
}

fn kotlin_decl_line(f: &Function) -> (r: String)
    ensures
        r@ == kotlin_decl(*f),
{
    let params = f.params.as_slice();
    let mut parts: Vec<String> = Vec::new();
    let mut i: usize = 0;
    while i < params.len()
        invariant
            params@ == f.params@,
            i <= params.len(),
            texts(parts@) == kotlin_params(params@.take(i as int)),
        decreases params.len() - i,
    {
        assert(params@.take(i as int + 1).drop_last() =~= params@.take(i as int));
        let p = &params[i];
        let mut a = p.name.clone();
        a.append(": ");
        a.append(kotlin_type(&p.ty));
        proof {
            lemma_texts_push(parts@, a);
        }
        parts.push(a);
        i = i + 1;
    }
    assert(params@.take(params.len() as int) =~= params@);
    let ret: &str = match &f.returns {
        Some(t) => kotlin_type(t),
        None => "Unit",
    };
    let mut out = String::from_str("        @JvmStatic external fun ");
    out.append(f.name.as_str());
    out.append("(");
    let joined = join_texts(&parts, ", ");
    out.append(joined.as_str());
    out.append("): ");
    out.append(ret);
    out.append("\n");
    out
}

pub fn render_kotlin(api: &Api) -> (r: String)
    ensures
        r@ == kotlin_text(*api),
{
    let mut out = String::from_str(KOTLIN_PRELUDE);
    let mut i: usize = 0;
    while i < api.modules.len()
        invariant
            i <= api.modules.len(),
            out@ == KOTLIN_PRELUDE@ + kotlin_modules(api.modules@.take(i as int)),
        decreases api.modules.len() - i,
    {
        assert(api.modules@.take(i as int + 1).drop_last() =~= api.modules@.take(i as int));
        let m = &api.modules[i];
        let ghost head = out@;
        let mut k: usize = 0;
        while k < m.functions.len()
            invariant
                k <= m.functions.len(),
                out@ == head + kotlin_decls(m.functions@.take(k as int)),
            decreases m.functions.len() - k,
        {
            assert(m.functions@.take(k as int + 1).drop_last() =~= m.functions@.take(k as int));
            let line = kotlin_decl_line(&m.functions[k]);
            out.append(line.as_str());
            k = k + 1;
        }
        assert(m.functions@.take(m.functions.len() as int) =~= m.functions@);
        i = i + 1;
    }
    assert(api.modules@.take(api.modules.len() as int) =~= api.modules@);
    out.append(KOTLIN_EPILOGUE);
    out
}

fn jni_head_line(f: &Function) -> (r: String)
    ensures
        r@ == jni_head(*f),
{
    let params = f.params.as_slice();
    let mut parts: Vec<String> = Vec::new();
    let env = String::from_str("JNIEnv* env");
    let clazz = String::from_str("jclass clazz");
    proof {
        lemma_texts_push(parts@, env);
        lemma_texts_push(parts@.push(env), clazz);
    }
    parts.push(env);
    parts.push(clazz);
    assert(texts(parts@) =~= jni_params(params@.take(0)));
    let mut i: usize = 0;
    while i < params.len()
        invariant
            params@ == f.params@,
            i <= params.len(),
            texts(parts@) == jni_params(params@.take(i as int)),
        decreases params.len() - i,
    {
        assert(params@.take(i as int + 1).drop_last() =~= params@.take(i as int));
        let p = &params[i];
        let mut a = String::from_str(jni_param_type(&p.ty));
        a.append(" ");
        a.append(p.name.as_str());
        proof {
            lemma_texts_push(parts@, a);
        }
        parts.push(a);
        i = i + 1;
    }
    assert(params@.take(params.len() as int) =~= params@);
    let mut out = String::from_str("JNIEXPORT ");
    out.append(jni_ret_type(f.returns.as_ref()));
    out.append(" JNICALL Java_com_weaveffi_WeaveFFI_");
    out.append(f.name.as_str());
    out.append("(");
    let joined = join_texts(&parts, ", ");
    out.append(joined.as_str());
    out.append(") {\n");
    out
}

fn jni_acquire_lines(params: &[Param]) -> (r: String)
    ensures
        r@ == jni_acquires(params@),
{
    let mut out = String::new();
    let mut i: usize = 0;
    while i < params.len()
        invariant
            i <= params.len(),
            out@ == jni_acquires(params@.take(i as int)),
        decreases params.len() - i,
    {
        assert(params@.take(i as int + 1).drop_last() =~= params@.take(i as int));
        let p = &params[i];
        let n = p.name.as_str();
        match p.ty {
            TypeRef::StringUtf8 => {
                out.append("    const char* ");
                out.append(n);
                out.append("_chars = (*env)->GetStringUTFChars(env, ");
                out.append(n);
                out.append(", NULL);\n    jsize ");
                out.append(n);
                out.append("_len = (*env)->GetStringUTFLength(env, ");
                out.append(n);
                out.append(");\n");
            },
            TypeRef::Bytes => {
                out.append("    jboolean ");
                out.append(n);
                out.append("_is_copy = 0;\n    jbyte* ");
                out.append(n);
                out.append("_elems = (*env)->GetByteArrayElements(env, ");
                out.append(n);
                out.append(", &");
                out.append(n);
                out.append("_is_copy);\n    jsize ");
                out.append(n);
                out.append("_len = (*env)->GetArrayLength(env, ");
                out.append(n);
                out.append(");\n");
            },
            _ => {},
        }
        i = i + 1;
    }
    assert(params@.take(params.len() as int) =~= params@);
    out
}

fn jni_release_lines(params: &[Param]) -> (r: String)
    ensures
        r@ == jni_releases(params@),
{
    let mut out = String::new();
    let mut i: usize = 0;
    while i < params.len()
        invariant
            i <= params.len(),
            out@ == jni_releases(params@.take(i as int)),
        decreases params.len() - i,
    {
        assert(params@.take(i as int + 1).drop_last() =~= params@.take(i as int));
        let p = &params[i];
        let n = p.name.as_str();
        match p.ty {
            TypeRef::StringUtf8 => {
                out.append("    (*env)->ReleaseStringUTFChars(env, ");
                out.append(n);
                out.append(", ");
                out.append(n);
                out.append("_chars);\n");
            },
            TypeRef::Bytes => {
                out.append("    (*env)->ReleaseByteArrayElements(env, ");
                out.append(n);
                out.append(", ");
                out.append(n);
                out.append("_elems, JNI_ABORT);\n");
            },
            _ => {},
        }
        i = i + 1;
    }
    assert(params@.take(params.len() as int) =~= params@);
    out
}

fn jni_call_arg(p: &Param) -> (r: Vec<String>)
    ensures
        texts(r@) == jni_call_args(seq![*p]),
{
    assert(seq![*p].drop_last() =~= Seq::<Param>::empty());
    assert(jni_call_args(Seq::<Param>::empty()) == Seq::<Seq<char>>::empty());
    let n = p.name.as_str();
    let mut out: Vec<String> = Vec::new();
    assert(texts(out@) =~= Seq::<Seq<char>>::empty());
    match p.ty {
        TypeRef::StringUtf8 | TypeRef::Bytes => {
            let mut a = String::from_str("(const uint8_t*)");
            a.append(n);
            match p.ty {
                TypeRef::StringUtf8 => a.append("_chars"),
                _ => a.append("_elems"),
            }
            let mut b = String::from_str("(size_t)");
            b.append(n);
            b.append("_len");
            proof {
                lemma_texts_push(out@, a);
                lemma_texts_push(out@.push(a), b);
            }
            out.push(a);
            out.push(b);
        },
        TypeRef::Bool => {
            let mut a = String::from_str("(bool)(");
            a.append(n);
            a.append(" == JNI_TRUE)");
            proof {
                lemma_texts_push(out@, a);
            }
            out.push(a);
        },
        _ => {
            let mut a = String::from_str(
                match p.ty {
                    TypeRef::I32 => "(int32_t)",
                    TypeRef::U32 => "(uint32_t)",
                    TypeRef::I64 => "(int64_t)",
                    TypeRef::F64 => "(double)",
                    _ => "(weaveffi_handle_t)",
                },
            );
            a.append(n);
            proof {
                lemma_texts_push(out@, a);
            }
            out.push(a);
        },
    }
    out
}

proof fn lemma_jni_call_args_append(ps: Seq<Param>, p: Param)
    ensures
        jni_call_args(ps.push(p)) == jni_call_args(ps) + jni_call_args(seq![p]),
{
    assert(ps.push(p).drop_last() =~= ps);
    assert(seq![p].drop_last() =~= Seq::<Param>::empty());
    assert(jni_call_args(Seq::<Param>::empty()) == Seq::<Seq<char>>::empty());
    assert(jni_call_args(ps.push(p)) =~= jni_call_args(ps) + jni_call_args(seq![p]));
}

fn jni_call_line(module: &str, f: &Function) -> (r: String)
    ensures
        r@ == jni_call(module@, *f),
{
    let params = f.params.as_slice();
    let mut args: Vec<String> = Vec::new();
    let mut i: usize = 0;
    while i < params.len()
        invariant
            params@ == f.params@,
            i <= params.len(),
            texts(args@) == jni_call_args(params@.take(i as int)),
        decreases params.len() - i,
    {
        assert(params@.take(i as int + 1) =~= params@.take(i as int).push(params@[i as int]));
        let mut more = jni_call_arg(&params[i]);
        proof {
            lemma_jni_call_args_append(params@.take(i as int), params@[i as int]);
            assert(texts(args@ + more@) =~= texts(args@) + texts(more@));
        }
        args.append(&mut more);
        i = i + 1;
    }
    assert(params@.take(params.len() as int) =~= params@);
    match &f.returns {
        Some(TypeRef::Bytes) => {
            let a = String::from_str("&out_len");
            proof {
                lemma_texts_push(args@, a);
            }
            args.push(a);
        },
        _ => {},
    }
    let e = String::from_str("&err");
    proof {
        lemma_texts_push(args@, e);
    }
    args.push(e);
    let mut out = String::from_str("    ");
    match &f.returns {
        Some(t) => {
            let (ret_ty, _) = c_ret_type_for(t);
            out.append(ret_ty);
            out.append(" rv = ");
        },
        None => {},
    }
    let sym = c_symbol_name(module, f.name.as_str());
    out.append(sym.as_str());
    out.append("(");
    let joined = join_texts(&args, ", ");
    out.append(joined.as_str());
    out.append(");\n");
    out
}

/// Appends the failure branch for a function returning `ret`.
pub fn write_error_throw(out: &mut String, ret: Option<&TypeRef>)
    ensures
        final(out)@ == old(out)@ + jni_error_block(
            match ret {
                Some(t) => Some(*t),
                None => None,
            },
        ),
{
    out.append(JNI_THROW_OPEN);
    match ret {
        None => out.append("        return;\n"),
        Some(TypeRef::StringUtf8) => out.append("        weaveffi_free_string(rv);\n        return NULL;\n"),
        Some(TypeRef::Bytes) => out.append("        weaveffi_free_bytes((uint8_t*)rv, out_len);\n        return NULL;\n"),
        Some(TypeRef::Bool) => out.append("        return JNI_FALSE;\n"),
        Some(_) => out.append("        return 0;\n"),
    }
    out.append("    }\n");
}

fn jni_tail_text(ret: Option<&TypeRef>) -> (r: &'static str)
    ensures
        r@ == jni_tail(
            match ret {
                Some(t) => Some(*t),
                None => None,
            },
        ),
{
    match ret {
        None => "    return;\n",
        Some(TypeRef::StringUtf8) => JNI_STRING_TAIL,
        Some(TypeRef::Bytes) => JNI_BYTES_TAIL,
        Some(TypeRef::Bool) => "    return rv ? JNI_TRUE : JNI_FALSE;\n",
        Some(TypeRef::I32) | Some(TypeRef::U32) => "    return (jint)rv;\n",
        Some(TypeRef::I64) | Some(TypeRef::Handle) => "    return (jlong)rv;\n",
        Some(TypeRef::F64) => "    return (jdouble)rv;\n",
    }
}

fn render_jni_function(out: &mut String, module: &str, f: &Function)
    ensures
        final(out)@ == old(out)@ + jni_function_text(module@, *f),
{
    let head = jni_head_line(f);
    out.append(head.as_str());
    out.append("    weaveffi_error err = {0, NULL};\n");
    let acquire = jni_acquire_lines(f.params.as_slice());
    out.append(acquire.as_str());
    match &f.returns {
        Some(TypeRef::Bytes) => out.append("    size_t out_len = 0;\n"),
        _ => {},
    }
    let call = jni_call_line(module, f);
    out.append(call.as_str());
    let release = jni_release_lines(f.params.as_slice());
    out.append(release.as_str());
    write_error_throw(out, f.returns.as_ref());
    out.append(jni_tail_text(f.returns.as_ref()));
    out.append("}\n\n");
}

pub fn render_jni_c(api: &Api) -> (r: String)
    ensures
        r@ == jni_text(*api),
{
    let mut out = String::from_str(JNI_PRELUDE);
    let mut i: usize = 0;
    while i < api.modules.len()
        invariant
            i <= api.modules.len(),
            out@ == JNI_PRELUDE@ + jni_modules(api.modules@.take(i as int)),
        decreases api.modules.len() - i,
    {
        assert(api.modules@.take(i as int + 1).drop_last() =~= api.modules@.take(i as int));
        let m = &api.modules[i];
        let ghost head = out@;
        let mut k: usize = 0;
        while k < m.functions.len()
            invariant
                k <= m.functions.len(),
                out@ == head + jni_functions(m.name@, m.functions@.take(k as int)),
            decreases m.functions.len() - k,
        {
            assert(m.functions@.take(k as int + 1).drop_last() =~= m.functions@.take(k as int));
            render_jni_function(&mut out, m.name.as_str(), &m.functions[k]);
            k = k + 1;
        }
        assert(m.functions@.take(m.functions.len() as int) =~= m.functions@);
        i = i + 1;
    }
    assert(api.modules@.take(api.modules.len() as int) =~= api.modules@);
    out
}

} // verus!
