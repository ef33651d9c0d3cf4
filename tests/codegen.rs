use weaveffi::{
    AndroidGenerator, Api, CGenerator, Function, Generator, Module, NodeGenerator, Orchestrator, SwiftGenerator, Target,
    WasmGenerator,
};

fn sample() -> Api {
    Api {
        version: "0.1.0".to_string(),
        modules: vec![Module {
            name: "m".to_string(),
            functions: vec![Function {
                name: "f".to_string(),
                params: vec![],
                returns: None,
                doc: None,
                is_async: false,
            }],
            errors: None,
        }],
    }
}

fn paths(files: &[weaveffi::OutputFile]) -> Vec<String> {
    files.iter().map(|f| f.path.clone()).collect()
}

#[test]
fn generator_names() {
    assert_eq!(CGenerator.name(), "c-header");
    assert_eq!(SwiftGenerator.name(), "swift");
    assert_eq!(AndroidGenerator.name(), "android");
    assert_eq!(NodeGenerator.name(), "node");
    assert_eq!(WasmGenerator.name(), "wasm");
    assert_eq!(Target::Node.name(), "node");
}

#[test]
fn each_generator_writes_its_own_directory() {
    let api = sample();
    assert_eq!(paths(&CGenerator.generate(&api)), vec!["c/weaveffi.h", "c/weaveffi.c"]);
    assert_eq!(
        paths(&SwiftGenerator.generate(&api)),
        vec!["swift/Package.swift", "swift/WeaveFFI/module.modulemap", "swift/Sources/WeaveFFI/WeaveFFI.swift"]
    );
    assert_eq!(
        paths(&AndroidGenerator.generate(&api)),
        vec![
            "android/settings.gradle",
            "android/build.gradle",
            "android/src/main/java/com/weaveffi/WeaveFFI.kt",
            "android/src/main/cpp/CMakeLists.txt",
            "android/src/main/cpp/weaveffi_jni.c"
        ]
    );
    assert_eq!(paths(&NodeGenerator.generate(&api)), vec!["node/index.ts", "node/types.d.ts", "node/package.json"]);
    assert_eq!(paths(&WasmGenerator.generate(&api)), vec!["wasm/README.md", "wasm/weaveffi_wasm.js"]);
}

#[test]
fn c_generator_contents_are_the_header() {
    let api = sample();
    let files = CGenerator.generate(&api);
    assert_eq!(files[0].contents, weaveffi::render_c_header(&api));
    assert!(files[0].contents.contains("void weaveffi_m_f(weaveffi_error* out_err);"));
}

#[test]
fn orchestrator_runs_targets_in_registration_order() {
    let api = sample();
    let orchestrator = Orchestrator::new().with_generator(Target::Wasm).with_generator(Target::C);
    assert_eq!(orchestrator.generators(), &vec![Target::Wasm, Target::C]);
    let plan = orchestrator.plan(&api);
    assert_eq!(paths(&plan), vec!["wasm/README.md", "wasm/weaveffi_wasm.js", "c/weaveffi.h", "c/weaveffi.c"]);
}

#[test]
fn empty_orchestrator_plans_nothing() {
    assert!(Orchestrator::new().plan(&sample()).is_empty());
}

#[test]
fn target_dispatches_to_its_generator() {
    let api = sample();
    assert_eq!(Target::C.generate(&api), CGenerator.generate(&api));
    assert_eq!(Target::Android.generate(&api), AndroidGenerator.generate(&api));
}

#[test]
fn every_target_stays_in_its_directory() {
    let api = sample();
    for (t, dir) in [
        (Target::C, "c/"),
        (Target::Swift, "swift/"),
        (Target::Android, "android/"),
        (Target::Node, "node/"),
        (Target::Wasm, "wasm/"),
    ] {
        for f in t.generate(&api) {
            assert!(f.path.starts_with(dir));
        }
    }
}
