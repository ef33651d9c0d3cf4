use weaveffi::{render_c_convenience_c, render_c_header, Api, Function, Module, Param, TypeRef};

fn param(name: &str, ty: TypeRef) -> Param {
    Param { name: name.to_string(), ty }
}

fn func(name: &str, params: Vec<Param>, returns: Option<TypeRef>) -> Function {
    Function { name: name.to_string(), params, returns, doc: None, is_async: false }
}

fn api_of(module: &str, functions: Vec<Function>) -> Api {
    Api {
        version: "0.1.0".to_string(),
        modules: vec![Module { name: module.to_string(), functions, errors: None }],
    }
}

#[test]
fn calculator_add_prototype() {
    let api = api_of(
        "calculator",
        vec![func("add", vec![param("a", TypeRef::I32), param("b", TypeRef::I32)], Some(TypeRef::I32))],
    );
    let header = render_c_header(&api);
    assert!(header.contains("int32_t weaveffi_calculator_add(int32_t a, int32_t b, weaveffi_error* out_err);"));
    assert!(header.contains("// Module: calculator\n"));
}

#[test]
fn echo_string_prototype() {
    let api = api_of("m", vec![func("echo", vec![param("s", TypeRef::StringUtf8)], Some(TypeRef::StringUtf8))]);
    let header = render_c_header(&api);
    assert!(header.contains(
        "const char* weaveffi_m_echo(const uint8_t* s_ptr, size_t s_len, weaveffi_error* out_err);"
    ));
}

#[test]
fn digest_bytes_prototype() {
    let api = api_of("m", vec![func("digest", vec![param("data", TypeRef::Bytes)], Some(TypeRef::Bytes))]);
    let header = render_c_header(&api);
    assert!(header.contains(
        "const uint8_t* weaveffi_m_digest(const uint8_t* data_ptr, size_t data_len, size_t* out_len, weaveffi_error* out_err);"
    ));
}

#[test]
fn void_function_takes_only_out_err() {
    let api = api_of("m", vec![func("ping", vec![], None)]);
    let header = render_c_header(&api);
    assert!(header.contains("void weaveffi_m_ping(weaveffi_error* out_err);"));
}

#[test]
fn every_scalar_and_handle_passes_by_value() {
    let api = api_of(
        "m",
        vec![func(
            "mix",
            vec![
                param("a", TypeRef::U32),
                param("b", TypeRef::I64),
                param("c", TypeRef::F64),
                param("d", TypeRef::Bool),
                param("h", TypeRef::Handle),
            ],
            Some(TypeRef::Handle),
        )],
    );
    let header = render_c_header(&api);
    assert!(header.contains(
        "weaveffi_handle_t weaveffi_m_mix(uint32_t a, int64_t b, double c, bool d, weaveffi_handle_t h, weaveffi_error* out_err);"
    ));
}

#[test]
fn empty_api_header_is_prelude_and_epilogue() {
    let api = Api { version: "0.1.0".to_string(), modules: vec![] };
    let header = render_c_header(&api);
    let expected = "#ifndef WEAVEFFI_H\n#define WEAVEFFI_H\n\n#include <stdint.h>\n#include <stddef.h>\n#include <stdbool.h>\n\n#ifdef __cplusplus\nextern \"C\" {\n#endif\n\ntypedef uint64_t weaveffi_handle_t;\n\ntypedef struct weaveffi_error { int32_t code; const char* message; } weaveffi_error;\n\nvoid weaveffi_error_clear(weaveffi_error* err);\nvoid weaveffi_free_string(const char* ptr);\nvoid weaveffi_free_bytes(uint8_t* ptr, size_t len);\n\n\n#ifdef __cplusplus\n}\n#endif\n\n#endif // WEAVEFFI_H\n";
    assert_eq!(header, expected);
}

#[test]
fn modules_keep_their_order_and_symbols_are_unique() {
    let api = Api {
        version: "0.1.0".to_string(),
        modules: vec![
            Module { name: "zeta".to_string(), functions: vec![func("f", vec![], None)], errors: None },
            Module { name: "alpha".to_string(), functions: vec![func("f", vec![], None)], errors: None },
        ],
    };
    let header = render_c_header(&api);
    let z = header.find("// Module: zeta").unwrap();
    let a = header.find("// Module: alpha").unwrap();
    assert!(z < a);
    assert_eq!(header.matches("weaveffi_zeta_f(").count(), 1);
    assert_eq!(header.matches("weaveffi_alpha_f(").count(), 1);
}

#[test]
fn convenience_source_includes_header() {
    assert!(render_c_convenience_c().starts_with("#include \"weaveffi.h\"\n"));
}
