use weaveffi::{validate_api, Api, ErrorCode, ErrorDomain, Function, Module, Param, TypeRef, ValidationError};

fn func(name: &str, params: Vec<Param>) -> Function {
    Function { name: name.to_string(), params, returns: None, doc: None, is_async: false }
}

fn module(name: &str, functions: Vec<Function>, errors: Option<ErrorDomain>) -> Module {
    Module { name: name.to_string(), functions, errors }
}

fn api(modules: Vec<Module>) -> Api {
    Api { version: "0.1.0".to_string(), modules }
}

fn code(name: &str, code: i32) -> ErrorCode {
    ErrorCode { name: name.to_string(), code, message: "msg".to_string() }
}

fn domain(name: &str, codes: Vec<ErrorCode>) -> Option<ErrorDomain> {
    Some(ErrorDomain { name: name.to_string(), codes })
}

#[test]
fn well_formed_api_passes() {
    let a = api(vec![module(
        "calculator",
        vec![func("add", vec![Param { name: "a".to_string(), ty: TypeRef::I32 }])],
        domain("CalculatorError", vec![code("DivisionByZero", 2), code("Overflow", 3)]),
    )]);
    assert_eq!(validate_api(&a), Ok(()));
}

#[test]
fn duplicate_module_name() {
    let a = api(vec![module("m", vec![], None), module("m", vec![], None)]);
    assert_eq!(validate_api(&a), Err(ValidationError::DuplicateModuleName("m".to_string())));
}

#[test]
fn zero_error_code() {
    let a = api(vec![module("m", vec![], domain("E", vec![code("Bad", 0)]))]);
    assert_eq!(
        validate_api(&a),
        Err(ValidationError::InvalidErrorCode { module: "m".to_string(), name: "Bad".to_string() })
    );
}

#[test]
fn async_function_rejected() {
    let mut f = func("f", vec![]);
    f.is_async = true;
    let a = api(vec![module("m", vec![f], None)]);
    assert_eq!(
        validate_api(&a),
        Err(ValidationError::AsyncNotSupported { module: "m".to_string(), function: "f".to_string() })
    );
}

#[test]
fn blank_module_name() {
    let a = api(vec![module(" \t", vec![], None)]);
    assert_eq!(validate_api(&a), Err(ValidationError::NoModuleName));
    let b = api(vec![module("", vec![], None)]);
    assert_eq!(validate_api(&b), Err(ValidationError::NoModuleName));
}

#[test]
fn reserved_module_name() {
    let a = api(vec![module("match", vec![], None)]);
    assert_eq!(
        validate_api(&a),
        Err(ValidationError::InvalidModuleName("match".to_string(), "reserved word"))
    );
}

#[test]
fn duplicate_function_name() {
    let a = api(vec![module("m", vec![func("f", vec![]), func("f", vec![])], None)]);
    assert_eq!(
        validate_api(&a),
        Err(ValidationError::DuplicateFunctionName { module: "m".to_string(), function: "f".to_string() })
    );
}

#[test]
fn reserved_function_and_param_names() {
    let a = api(vec![module("m", vec![func("fn", vec![])], None)]);
    assert_eq!(validate_api(&a), Err(ValidationError::ReservedKeyword("fn".to_string())));
    let p = Param { name: "type".to_string(), ty: TypeRef::I32 };
    let b = api(vec![module("m", vec![func("f", vec![p])], None)]);
    assert_eq!(validate_api(&b), Err(ValidationError::ReservedKeyword("type".to_string())));
}

#[test]
fn duplicate_param_name() {
    let p = Param { name: "x".to_string(), ty: TypeRef::I32 };
    let a = api(vec![module("m", vec![func("f", vec![p.clone(), p])], None)]);
    assert_eq!(
        validate_api(&a),
        Err(ValidationError::DuplicateParamName {
            module: "m".to_string(),
            function: "f".to_string(),
            param: "x".to_string()
        })
    );
}

#[test]
fn error_domain_without_name() {
    let a = api(vec![module("m", vec![], domain("  ", vec![]))]);
    assert_eq!(validate_api(&a), Err(ValidationError::ErrorDomainMissingName("m".to_string())));
}

#[test]
fn error_domain_named_like_a_function() {
    let a = api(vec![module("m", vec![func("Err", vec![])], domain("Err", vec![]))]);
    assert_eq!(
        validate_api(&a),
        Err(ValidationError::NameCollisionWithErrorDomain { module: "m".to_string(), name: "Err".to_string() })
    );
}

#[test]
fn duplicate_error_name_and_code() {
    let a = api(vec![module("m", vec![], domain("E", vec![code("A", 1), code("A", 2)]))]);
    assert_eq!(
        validate_api(&a),
        Err(ValidationError::DuplicateErrorName { module: "m".to_string(), name: "A".to_string() })
    );
    let b = api(vec![module("m", vec![], domain("E", vec![code("A", 1), code("B", 1)]))]);
    assert_eq!(
        validate_api(&b),
        Err(ValidationError::DuplicateErrorCode { module: "m".to_string(), code: 1 })
    );
}

#[test]
fn first_violation_wins() {
    let mut late = func("g", vec![]);
    late.is_async = true;
    let a = api(vec![
        module("m", vec![func("if", vec![]), late], None),
        module("m", vec![], None),
    ]);
    assert_eq!(validate_api(&a), Err(ValidationError::ReservedKeyword("if".to_string())));
}
