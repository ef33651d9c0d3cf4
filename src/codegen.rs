//! Generators and the orchestrator. A generator turns an api into the
//! files of one target, each under the target's own directory; writing
//! them is left to the caller.
use vstd::prelude::*;
use crate::android::{
    jni_text, kotlin_text, render_jni_c, render_kotlin, BUILD_GRADLE, CMAKE_LISTS,
    SETTINGS_GRADLE,
};
use crate::c_header::{c_header_text, render_c_convenience_c, render_c_header, C_CONVENIENCE_SOURCE};
use crate::ir::Api;
use crate::node::{
    dts_text, node_index_text, render_node_dts, render_node_index_ts, NODE_PACKAGE_JSON,
};
use crate::swift::{render_swift_wrapper, swift_text};
use crate::wasm::{render_wasm_js_stub, render_wasm_readme, WASM_JS_STUB, WASM_README};

verus! {

/// A file to write: its path relative to the output root, and its text.
#[derive(Debug, Clone, PartialEq, Eq)]
pub struct OutputFile {
    pub path: String,
    pub contents: String,
}

pub const SWIFT_PACKAGE: &'static str = "// swift-tools-version:5.7\nimport PackageDescription\n\nlet package = Package(\n    name: \"WeaveFFI\",\n    products: [\n        .library(name: \"WeaveFFI\", targets: [\"WeaveFFI\"]),\n    ],\n    targets: [\n        .systemLibrary(name: \"WeaveFFI\", pkgConfig: nil)\n    ]\n)\n";

pub const SWIFT_MODULEMAP: &'static str = "module WeaveFFI [system] {\n  header \"../../c/weaveffi.h\"\n  link \"weaveffi\"\n  export *\n}\n";

/// Paths and texts of a list of files.
pub open spec fn file_views(v: Seq<OutputFile>) -> Seq<(Seq<char>, Seq<char>)> {
    v.map_values(|f: OutputFile| (f.path@, f.contents@))
}

/// The files of the C target: the header and its companion source.
pub open spec fn c_files(api: Api) -> Seq<(Seq<char>, Seq<char>)> {
    seq![("c/weaveffi.h"@, c_header_text(api)), ("c/weaveffi.c"@, C_CONVENIENCE_SOURCE@)]
}

/// The files of the Swift target: the package, the module map, the wrapper.
pub open spec fn swift_files(api: Api) -> Seq<(Seq<char>, Seq<char>)> {
    seq![
        ("swift/Package.swift"@, SWIFT_PACKAGE@),
        ("swift/WeaveFFI/module.modulemap"@, SWIFT_MODULEMAP@),
        ("swift/Sources/WeaveFFI/WeaveFFI.swift"@, swift_text(api)),
    ]
}

/// The files of the Android target: Gradle files, the Kotlin class, CMake, the JNI shim.
pub open spec fn android_files(api: Api) -> Seq<(Seq<char>, Seq<char>)> {
    seq![
        ("android/settings.gradle"@, SETTINGS_GRADLE@),
        ("android/build.gradle"@, BUILD_GRADLE@),
        ("android/src/main/java/com/weaveffi/WeaveFFI.kt"@, kotlin_text(api)),
        ("android/src/main/cpp/CMakeLists.txt"@, CMAKE_LISTS@),
        ("android/src/main/cpp/weaveffi_jni.c"@, jni_text(api)),
    ]
}

/// The files of the Node target: the loader, its declarations, the manifest.
pub open spec fn node_files(api: Api) -> Seq<(Seq<char>, Seq<char>)> {
    seq![
        ("node/index.ts"@, node_index_text(api)),
        ("node/types.d.ts"@, dts_text(api)),
        ("node/package.json"@, NODE_PACKAGE_JSON@),
    ]
}

/// The files of the WASM target: the README and the loader stub.
pub open spec fn wasm_files() -> Seq<(Seq<char>, Seq<char>)> {
    seq![("wasm/README.md"@, WASM_README@), ("wasm/weaveffi_wasm.js"@, WASM_JS_STUB@)]
}

fn file(path: &str, contents: String) -> (r: OutputFile)
    ensures
        r.path@ == path@,
        r.contents@ == contents@,
{
    OutputFile { path: String::from_str(path), contents }
}

/// A target's generator: a stable name, and the files it produces for an api.
pub trait Generator {
    /// The files of this target for `api`: paths and texts.
    spec fn files(&self, api: Api) -> Seq<(Seq<char>, Seq<char>)>;

    /// The name of this target.
    spec fn target_name(&self) -> Seq<char>;

    fn name(&self) -> (r: &'static str)
        ensures
            r@ == self.target_name(),
    ;

    fn generate(&self, api: &Api) -> (r: Vec<OutputFile>)
        ensures
            file_views(r@) == self.files(*api),
    ;
}

pub struct CGenerator;

impl Generator for CGenerator {
    open spec fn files(&self, api: Api) -> Seq<(Seq<char>, Seq<char>)> {
        c_files(api)
    }

    open spec fn target_name(&self) -> Seq<char> {
        "c-header"@
    }

    fn name(&self) -> (r: &'static str) {
        "c-header"
    }

    fn generate(&self, api: &Api) -> (r: Vec<OutputFile>) {
        let v = vec![
            file("c/weaveffi.h", render_c_header(api)),
            file("c/weaveffi.c", render_c_convenience_c()),
        ];
        assert(file_views(v@) =~= c_files(*api));
        v
    }
}

pub struct SwiftGenerator;

impl Generator for SwiftGenerator {
    open spec fn files(&self, api: Api) -> Seq<(Seq<char>, Seq<char>)> {
        swift_files(api)
    }

    open spec fn target_name(&self) -> Seq<char> {
        "swift"@
    }

    fn name(&self) -> (r: &'static str) {
        "swift"
    }

    fn generate(&self, api: &Api) -> (r: Vec<OutputFile>) {
        let v = vec![
            file("swift/Package.swift", String::from_str(SWIFT_PACKAGE)),
            file("swift/WeaveFFI/module.modulemap", String::from_str(SWIFT_MODULEMAP)),
            file("swift/Sources/WeaveFFI/WeaveFFI.swift", render_swift_wrapper(api)),
        ];
        assert(file_views(v@) =~= swift_files(*api));
        v
    }
}

pub struct AndroidGenerator;

impl Generator for AndroidGenerator {
    open spec fn files(&self, api: Api) -> Seq<(Seq<char>, Seq<char>)> {
        android_files(api)
    }

    open spec fn target_name(&self) -> Seq<char> {
        "android"@
    }

    fn name(&self) -> (r: &'static str) {
        "android"
    }

    fn generate(&self, api: &Api) -> (r: Vec<OutputFile>) {
        let v = vec![
            file("android/settings.gradle", String::from_str(SETTINGS_GRADLE)),
            file("android/build.gradle", String::from_str(BUILD_GRADLE)),
            file("android/src/main/java/com/weaveffi/WeaveFFI.kt", render_kotlin(api)),
            file("android/src/main/cpp/CMakeLists.txt", String::from_str(CMAKE_LISTS)),
            file("android/src/main/cpp/weaveffi_jni.c", render_jni_c(api)),
        ];
        assert(file_views(v@) =~= android_files(*api));
        v
    }
}

pub struct NodeGenerator;

impl Generator for NodeGenerator {
    open spec fn files(&self, api: Api) -> Seq<(Seq<char>, Seq<char>)> {
        node_files(api)
    }

    open spec fn target_name(&self) -> Seq<char> {
        "node"@
    }

    fn name(&self) -> (r: &'static str) {
        "node"
    }

    fn generate(&self, api: &Api) -> (r: Vec<OutputFile>) {
        let v = vec![
            file("node/index.ts", render_node_index_ts(api)),
            file("node/types.d.ts", render_node_dts(api)),
            file("node/package.json", String::from_str(NODE_PACKAGE_JSON)),
        ];
        assert(file_views(v@) =~= node_files(*api));
        v
    }
}

pub struct WasmGenerator;

impl Generator for WasmGenerator {
    open spec fn files(&self, api: Api) -> Seq<(Seq<char>, Seq<char>)> {
        wasm_files()
    }

    open spec fn target_name(&self) -> Seq<char> {
        "wasm"@
    }

    fn name(&self) -> (r: &'static str) {
        "wasm"
    }

    fn generate(&self, api: &Api) -> (r: Vec<OutputFile>) {
        let v = vec![
            file("wasm/README.md", render_wasm_readme()),
            file("wasm/weaveffi_wasm.js", render_wasm_js_stub()),
        ];
        assert(file_views(v@) =~= wasm_files());
        v
    }
}

/// The targets that the orchestrator can run.
#[derive(Debug, Clone, Copy, PartialEq, Eq, Structural)]
pub enum Target {
    C,
    Swift,
    Android,
    Node,
    Wasm,
}

/// The files of one target.
pub open spec fn target_files(t: Target, api: Api) -> Seq<(Seq<char>, Seq<char>)> {
    match t {
        Target::C => c_files(api),
        Target::Swift => swift_files(api),
        Target::Android => android_files(api),
        Target::Node => node_files(api),
        Target::Wasm => wasm_files(),
    }
}

/// The files of several targets, target after target.
pub open spec fn plan_files(ts: Seq<Target>, api: Api) -> Seq<(Seq<char>, Seq<char>)>
    decreases ts.len(),
{
    if ts.len() == 0 {
        Seq::empty()
    } else {
        plan_files(ts.drop_last(), api) + target_files(ts.last(), api)
    }
}

/// The name of each target.
pub open spec fn name_of_target(t: Target) -> Seq<char> {
    match t {
        Target::C => "c-header"@,
        Target::Swift => "swift"@,
        Target::Android => "android"@,
        Target::Node => "node"@,
        Target::Wasm => "wasm"@,
    }
}

impl Generator for Target {
    open spec fn files(&self, api: Api) -> Seq<(Seq<char>, Seq<char>)> {
        target_files(*self, api)
    }

    open spec fn target_name(&self) -> Seq<char> {
        name_of_target(*self)
    }

    fn name(&self) -> (r: &'static str) {
        match self {
            Target::C => CGenerator.name(),
            Target::Swift => SwiftGenerator.name(),
            Target::Android => AndroidGenerator.name(),
            Target::Node => NodeGenerator.name(),
            Target::Wasm => WasmGenerator.name(),
        }
    }

    fn generate(&self, api: &Api) -> (r: Vec<OutputFile>) {
        match self {
            Target::C => CGenerator.generate(api),
            Target::Swift => SwiftGenerator.generate(api),
            Target::Android => AndroidGenerator.generate(api),
            Target::Node => NodeGenerator.generate(api),
            Target::Wasm => WasmGenerator.generate(api),
        }
    }
}

/// The directory of each target under the output root.
pub open spec fn target_dir(t: Target) -> Seq<char> {
    match t {
        Target::C => "c/"@,
        Target::Swift => "swift/"@,
        Target::Android => "android/"@,
        Target::Node => "node/"@,
        Target::Wasm => "wasm/"@,
    }
}

/// Each target writes only into its own directory: every path it produces
/// starts with the target's directory name and a `/`.
pub proof fn lemma_target_paths_in_own_directory(t: Target, api: Api)
    ensures
        forall|i: int|
            0 <= i < target_files(t, api).len() ==> (#[trigger] target_files(t, api)[i]).0.take(
                target_dir(t).len() as int,
            ) == target_dir(t),
{
    reveal_strlit("c/");
    reveal_strlit("swift/");
    reveal_strlit("android/");
    reveal_strlit("node/");
    reveal_strlit("wasm/");
    reveal_strlit("c/weaveffi.h");
    reveal_strlit("c/weaveffi.c");
    reveal_strlit("swift/Package.swift");
    reveal_strlit("swift/WeaveFFI/module.modulemap");
    reveal_strlit("swift/Sources/WeaveFFI/WeaveFFI.swift");
    reveal_strlit("android/settings.gradle");
    reveal_strlit("android/build.gradle");
    reveal_strlit("android/src/main/java/com/weaveffi/WeaveFFI.kt");
    reveal_strlit("android/src/main/cpp/CMakeLists.txt");
    reveal_strlit("android/src/main/cpp/weaveffi_jni.c");
    reveal_strlit("node/index.ts");
    reveal_strlit("node/types.d.ts");
    reveal_strlit("node/package.json");
    reveal_strlit("wasm/README.md");
    reveal_strlit("wasm/weaveffi_wasm.js");
    let fs = target_files(t, api);
    let d = target_dir(t);
    assert forall|i: int| 0 <= i < fs.len() implies (#[trigger] fs[i]).0.take(d.len() as int) == d by {
        assert(fs[i].0.take(d.len() as int) =~= d);
    }
}

/// An ordered list of targets, run one after another against one api.
pub struct Orchestrator {
    generators: Vec<Target>,
}

impl View for Orchestrator {
    type V = Seq<Target>;

    closed spec fn view(&self) -> Seq<Target> {
        self.generators@
    }
}

impl Orchestrator {
    pub fn new() -> (r: Self)
        ensures
            r@ == Seq::<Target>::empty(),
    {
        Orchestrator { generators: Vec::new() }
    }

    /// Registers a target after those already registered.
    pub fn with_generator(self, generator: Target) -> (r: Self)
        ensures
            r@ == self@.push(generator),
    {
        let mut generators = self.generators;
        generators.push(generator);
        Orchestrator { generators }
    }

    /// The registered targets, in order.
    pub fn generators(&self) -> (r: &Vec<Target>)
        ensures
            r@ == self@,
    {
        &self.generators
    }

    /// Every file of every registered target, in registration order.
    pub fn plan(&self, api: &Api) -> (r: Vec<OutputFile>)
        ensures
            file_views(r@) == plan_files(self@, *api),
    {
        let mut out: Vec<OutputFile> = Vec::new();
        let mut i: usize = 0;
        while i < self.generators.len()
            invariant
                i <= self.generators.len(),
                file_views(out@) == plan_files(self.generators@.take(i as int), *api),
            decreases self.generators.len() - i,
        {
            assert(self.generators@.take(i as int + 1).drop_last() =~= self.generators@.take(
                i as int,
            ));
            let mut files = self.generators[i].generate(api);
            assert(file_views(out@ + files@) =~= file_views(out@) + file_views(files@));
            out.append(&mut files);
            i = i + 1;
        }
        assert(self.generators@.take(self.generators.len() as int) =~= self.generators@);
        out
    }
}

} // verus!
