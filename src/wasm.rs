//! The WASM loader stub and its README; they do not depend on the api.
use vstd::prelude::*;

verus! {

pub const WASM_README: &'static str = "# WeaveFFI WASM (experimental)\n\nThis folder contains a minimal stub to help you load a `wasm32-unknown-unknown` build of your WeaveFFI library.\n\nBuild (example):\n\n```bash\ncargo build --target wasm32-unknown-unknown --release\n```\n\nThen serve the `.wasm` and use `weaveffi_wasm.js` to load it.\n";

pub const WASM_JS_STUB: &'static str = "// Minimal JS loader for WeaveFFI WASM\nexport async function loadWeaveFFI(url) {\n  const response = await fetch(url);\n  const bytes = await response.arrayBuffer();\n  const { instance } = await WebAssembly.instantiate(bytes, {});\n  return instance.exports;\n}\n";

pub fn render_wasm_readme() -> (r: String)
    ensures
        r@ == WASM_README@,
{
    String::from_str(WASM_README)
}

pub fn render_wasm_js_stub() -> (r: String)
    ensures
        r@ == WASM_JS_STUB@,
{
    String::from_str(WASM_JS_STUB)
}

} // verus!
