use weaveffi::android::{render_jni_c, render_kotlin};
use weaveffi::swift::to_camel;
use weaveffi::{
    render_node_dts, render_node_index_ts, render_swift_wrapper, render_wasm_js_stub, render_wasm_readme, Api,
    Function, Module, Param, TypeRef,
};

fn param(name: &str, ty: TypeRef) -> Param {
    Param { name: name.to_string(), ty }
}

fn func(name: &str, params: Vec<Param>, returns: Option<TypeRef>) -> Function {
    Function { name: name.to_string(), params, returns, doc: None, is_async: false }
}

fn sample() -> Api {
    Api {
        version: "0.1.0".to_string(),
        modules: vec![Module {
            name: "calculator".to_string(),
            functions: vec![
                func("add", vec![param("a", TypeRef::I32), param("b", TypeRef::I32)], Some(TypeRef::I32)),
                func("echo", vec![param("s", TypeRef::StringUtf8)], Some(TypeRef::StringUtf8)),
                func("digest", vec![param("data", TypeRef::Bytes)], Some(TypeRef::Bytes)),
                func("reset", vec![], None),
                func("ok", vec![param("h", TypeRef::Handle)], Some(TypeRef::Bool)),
            ],
            errors: None,
        }],
    }
}

#[test]
fn camel_case_of_module_names() {
    assert_eq!(to_camel("calculator"), "Calculator");
    assert_eq!(to_camel("my_module_name"), "MyModuleName");
    assert_eq!(to_camel("a__b_"), "AB");
    assert_eq!(to_camel("x9_y"), "X9Y");
}

#[test]
fn swift_namespace_and_methods() {
    let s = render_swift_wrapper(&sample());
    assert!(s.starts_with("import WeaveFFI\n"));
    assert!(s.contains("public enum Calculator {\n"));
    assert!(s.contains("    public static func add(_ a: Int32, _ b: Int32) throws -> Int32 {\n"));
    assert!(s.contains("        let rv = weaveffi_calculator_add(a, b, &err)\n        try check(&err)\n        return rv\n"));
    assert!(s.contains("    public static func reset() throws -> Void {\n"));
    assert!(s.contains("        weaveffi_calculator_reset(&err)\n        try check(&err)\n    }\n"));
}

#[test]
fn swift_string_marshalling() {
    let s = render_swift_wrapper(&sample());
    assert!(s.contains("        let s_bytes = Array(s.utf8)\n"));
    assert!(s.contains("let rv = weaveffi_calculator_echo(s_ptr, s_len, &err)\n        defer { weaveffi_free_string(rv) }\n"));
    assert!(s.contains("return String(cString: rv)"));
}

#[test]
fn swift_bytes_return_becomes_data() {
    let s = render_swift_wrapper(&sample());
    assert!(s.contains("    public static func digest(_ data: Data) throws -> Data {\n"));
    assert!(s.contains("        var out_len: Int = 0\n        let rv = weaveffi_calculator_digest(data_ptr, data_len, &out_len, &err)\n"));
    assert!(s.contains("weaveffi_free_bytes"));
    assert!(s.contains("return Data(bytes: rv, count: out_len)"));
}

#[test]
fn swift_error_keeps_code_before_clearing() {
    let s = render_swift_wrapper(&sample());
    let code_at = s.find("let code = err.code").unwrap();
    let clear_at = s.find("weaveffi_error_clear(&err)").unwrap();
    assert!(code_at < clear_at);
    assert!(s.contains("throw WeaveFFIError.error(code: code, message: message)"));
}

#[test]
fn node_loader_declarations() {
    let s = render_node_index_ts(&sample());
    assert!(s.contains("process.env.WEAVEFFI_LIB"));
    assert!(s.contains("  'weaveffi_free_string': ['void', [CString]],\n"));
    assert!(s.contains("  'weaveffi_calculator_add': [int, [int, int, pointer]],\n"));
    assert!(s.contains("  'weaveffi_calculator_echo': [CString, [pointer, size_t, pointer]],\n"));
    assert!(s.contains("  'weaveffi_calculator_digest': [pointer, [pointer, size_t, pointer, pointer]],\n"));
    assert!(s.contains("  'weaveffi_calculator_reset': ['void', [pointer]],\n"));
    assert!(s.contains("  'weaveffi_calculator_ok': [bool, [uint64, pointer]],\n"));
    assert!(s.ends_with("})\n\nexport default lib\n"));
}

#[test]
fn node_type_declarations() {
    let s = render_node_dts(&sample());
    assert!(s.starts_with("// Generated types for WeaveFFI functions\n// module calculator\n"));
    assert!(s.contains("export function add(a: number, b: number): number\n"));
    assert!(s.contains("export function echo(s: string): string\n"));
    assert!(s.contains("export function digest(data: Buffer): Buffer\n"));
    assert!(s.contains("export function reset(): void\n"));
    assert!(s.contains("export function ok(h: number): boolean\n"));
}

#[test]
fn kotlin_external_methods() {
    let s = render_kotlin(&sample());
    assert!(s.starts_with("package com.weaveffi\n"));
    assert!(s.contains("        @JvmStatic external fun add(a: Int, b: Int): Int\n"));
    assert!(s.contains("        @JvmStatic external fun digest(data: ByteArray): ByteArray\n"));
    assert!(s.contains("        @JvmStatic external fun reset(): Unit\n"));
    assert!(s.contains("        @JvmStatic external fun ok(h: Long): Boolean\n"));
}

#[test]
fn jni_shim_scalar_function() {
    let s = render_jni_c(&sample());
    assert!(s.contains("JNIEXPORT jint JNICALL Java_com_weaveffi_WeaveFFI_add(JNIEnv* env, jclass clazz, jint a, jint b) {\n"));
    assert!(s.contains("    weaveffi_error err = {0, NULL};\n"));
    assert!(s.contains("    int32_t rv = weaveffi_calculator_add((int32_t)a, (int32_t)b, &err);\n"));
    assert!(s.contains("    return (jint)rv;\n"));
}

#[test]
fn jni_shim_releases_inputs_before_failing() {
    let s = render_jni_c(&sample());
    let start = s.find("Java_com_weaveffi_WeaveFFI_echo").unwrap();
    let body = &s[start..];
    let call = body.find("    const char* rv = weaveffi_calculator_echo((const uint8_t*)s_chars, (size_t)s_len, &err);\n").unwrap();
    let release = body.find("    (*env)->ReleaseStringUTFChars(env, s, s_chars);\n").unwrap();
    let throw = body.find("    if (err.code != 0) {\n").unwrap();
    assert!(call < release && release < throw);
    assert!(body.contains("java/lang/RuntimeException"));
}

#[test]
fn jni_shim_bytes_function() {
    let s = render_jni_c(&sample());
    assert!(s.contains("JNIEXPORT jbyteArray JNICALL Java_com_weaveffi_WeaveFFI_digest(JNIEnv* env, jclass clazz, jbyteArray data) {\n"));
    assert!(s.contains("    size_t out_len = 0;\n"));
    assert!(s.contains("weaveffi_calculator_digest((const uint8_t*)data_elems, (size_t)data_len, &out_len, &err);\n"));
    assert!(s.contains("(*env)->NewByteArray(env, (jsize)out_len)"));
    assert!(s.contains("    (*env)->ReleaseByteArrayElements(env, data, data_elems, JNI_ABORT);\n"));
}

#[test]
fn wasm_stub_texts() {
    assert!(render_wasm_js_stub().contains("export async function loadWeaveFFI(url) {\n"));
    assert!(render_wasm_js_stub().contains("WebAssembly.instantiate(bytes, {})"));
    let readme = render_wasm_readme();
    assert!(readme.starts_with("# WeaveFFI WASM (experimental)\n"));
    assert_eq!(readme.matches("```").count(), 2);
}

#[test]
fn jni_shim_void_and_bool_functions() {
    let s = render_jni_c(&sample());
    assert!(s.contains("JNIEXPORT void JNICALL Java_com_weaveffi_WeaveFFI_reset(JNIEnv* env, jclass clazz) {\n"));
    assert!(s.contains("    weaveffi_calculator_reset(&err);\n"));
    assert!(s.contains("JNIEXPORT jboolean JNICALL Java_com_weaveffi_WeaveFFI_ok(JNIEnv* env, jclass clazz, jlong h) {\n"));
    assert!(s.contains("    bool rv = weaveffi_calculator_ok((weaveffi_handle_t)h, &err);\n"));
    assert!(s.contains("        return JNI_FALSE;\n"));
    assert!(s.contains("    return rv ? JNI_TRUE : JNI_FALSE;\n"));
}

#[test]
fn jni_shim_casts_scalar_arguments() {
    let api = Api {
        version: "0.1.0".to_string(),
        modules: vec![Module {
            name: "m".to_string(),
            functions: vec![func(
                "scale",
                vec![param("x", TypeRef::F64), param("n", TypeRef::U32), param("flag", TypeRef::Bool)],
                Some(TypeRef::F64),
            )],
            errors: None,
        }],
    };
    let s = render_jni_c(&api);
    assert!(s.contains("    double rv = weaveffi_m_scale((double)x, (uint32_t)n, (bool)(flag == JNI_TRUE), &err);\n"));
    assert!(s.contains("    return (jdouble)rv;\n"));
}
