//! WeaveFFI: from a declarative description of modules, functions and
//! primitive types, emit a stable C ABI header and the host-language
//! bindings (Swift, Kotlin/JNI, Node, WASM) that call it.
//!
//! The library holds the intermediate representation, its validation, and
//! every template as a pure function from an api to text, each with a
//! contract that states the text exactly.
use vstd::prelude::*;

pub mod ir;
pub mod parse;
pub mod text;
pub mod c_header;
pub mod validate;
pub mod swift;
pub mod node;
pub mod android;
pub mod wasm;
pub mod codegen;
pub mod abi;
pub mod scaffold;

pub use crate::c_header::{render_c_convenience_c, render_c_header};
pub use crate::codegen::{
    AndroidGenerator, CGenerator, Generator, NodeGenerator, Orchestrator, OutputFile, SwiftGenerator, Target,
    WasmGenerator,
};
pub use crate::ir::{Api, ErrorCode, ErrorDomain, Function, Module, Param, TypeRef};
pub use crate::node::{render_node_dts, render_node_index_ts};
pub use crate::parse::{Format, ParseError};
pub use crate::swift::render_swift_wrapper;
pub use crate::validate::{validate_api, ValidationError};
pub use crate::wasm::{render_wasm_js_stub, render_wasm_readme};

verus! {

} // verus!
