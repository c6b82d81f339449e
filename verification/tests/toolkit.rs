use micyou_plugin::cli::templates::{NATIVE_CARGO, WASM_PANEL_HTML, WASM_README, WASM_TEMPLATE_WAT};
use micyou_plugin::cli::{
    id_last_segment, is_skipped_entry, unknown_platform, package_output_path, run, scaffold_plan, zip_entry_name,
    PluginAction, PluginTask, ScaffoldStep,
};
use micyou_plugin::manifest::{platforms, PluginKind, PluginManifest, RuntimeKind};
use micyou_plugin::path::join_path;
use micyou_plugin::text::{decimal_i64, decimal_u64, replace};

fn file(step: &ScaffoldStep) -> (&str, &str) {
    match step {
        ScaffoldStep::WriteFile { path, content } => (path.as_str(), content.as_str()),
        ScaffoldStep::CreateDir(d) => panic!("expected a file, got directory {d}"),
    }
}

fn dir(step: &ScaffoldStep) -> &str {
    match step {
        ScaffoldStep::CreateDir(d) => d.as_str(),
        other => panic!("expected a directory, got {other:?}"),
    }
}

#[test]
fn validate_and_package_read_the_manifest_of_the_directory() {
    match run(PluginAction::Validate { dir: "plugins/gain".to_string() }) {
        PluginTask::Validate { dir, manifest_path } => {
            assert_eq!(dir, "plugins/gain");
            assert_eq!(manifest_path, "plugins/gain/plugin.json");
        }
        other => panic!("unexpected {other:?}"),
    }
    match run(PluginAction::Package { dir: "p/".to_string(), out: None }) {
        PluginTask::Package { dir, manifest_path, out } => {
            assert_eq!(dir, "p/");
            assert_eq!(manifest_path, "p/plugin.json");
            assert!(out.is_none());
        }
        other => panic!("unexpected {other:?}"),
    }
}

#[test]
fn package_naming() {
    assert_eq!(package_output_path(None, "dev.micyou.eq"), "dev.micyou.eq.zip");
    assert_eq!(package_output_path(Some("out/x.zip"), "dev.micyou.eq"), "out/x.zip");
    assert!(is_skipped_entry("target"));
    assert!(is_skipped_entry(".git"));
    assert!(is_skipped_entry("."));
    assert!(!is_skipped_entry("targets"));
    assert!(!is_skipped_entry("src"));
    assert!(!is_skipped_entry(""));
    assert_eq!(zip_entry_name("src\\lib.rs"), "src/lib.rs");
    assert_eq!(zip_entry_name("a/b\\c\\d"), "a/b/c/d");
    assert_eq!(zip_entry_name("plugin.json"), "plugin.json");
}

#[test]
fn last_segment_of_ids() {
    assert_eq!(id_last_segment("dev.micyou.myplugin"), "myplugin");
    assert_eq!(id_last_segment("single"), "single");
    assert_eq!(id_last_segment("trailing."), "");
    assert_eq!(id_last_segment(""), "");
}

#[test]
fn creates_a_wasm_plugin() {
    let steps = scaffold_plan("dev.micyou.counter", "wasm", None, None);
    assert_eq!(steps.len(), 5);
    assert_eq!(dir(&steps[0]), "counter");
    let (p, json) = file(&steps[1]);
    assert_eq!(p, "counter/plugin.json");
    assert!(json.contains("\"id\": \"dev.micyou.counter\""));
    assert!(json.contains("\"name\": \"counter\""));
    assert!(!json.contains("myplugin"));
    assert_eq!(file(&steps[2]), ("counter/README.md", WASM_README));
    assert_eq!(file(&steps[3]), ("counter/main.wat", WASM_TEMPLATE_WAT));
    assert_eq!(file(&steps[4]), ("counter/panel.html", WASM_PANEL_HTML));
}

#[test]
fn creates_a_native_plugin() {
    let steps = scaffold_plan("dev.micyou.gain", "native", Some("Gain"), Some("out/gain"));
    assert_eq!(steps.len(), 6);
    assert_eq!(dir(&steps[0]), "out/gain");
    let (p, json) = file(&steps[1]);
    assert_eq!(p, "out/gain/plugin.json");
    assert!(json.contains("\"id\": \"dev.micyou.gain\""));
    assert!(json.contains("\"name\": \"Gain\""));
    assert!(json.contains("\"entry\": \"libgain.so\""));
    assert_eq!(file(&steps[3]), ("out/gain/Cargo.toml", NATIVE_CARGO));
    assert_eq!(dir(&steps[4]), "out/gain/src");
    let (p, lib) = file(&steps[5]);
    assert_eq!(p, "out/gain/src/lib.rs");
    assert!(lib.contains("const ID: &str = \"dev.micyou.gain\";"));
    assert!(!lib.contains("mynative"));
}

#[test]
fn create_runs_the_plan() {
    match run(PluginAction::Create {
        id: "dev.micyou.x".to_string(),
        runtime: "wasm".to_string(),
        name: None,
        out: None,
    }) {
        PluginTask::Create { runtime, out_dir, steps } => {
            assert_eq!(runtime, "wasm");
            assert_eq!(out_dir, "x");
            assert_eq!(steps.len(), 5);
        }
        other => panic!("unexpected {other:?}"),
    }
}

#[test]
fn text_helpers() {
    assert_eq!(replace("aXbXXc", "X", "yy"), "ayybyyyyc");
    assert_eq!(replace("aaaa", "aa", "b"), "bb");
    assert_eq!(replace("abc", "zz", "q"), "abc");
    assert_eq!(replace("中文.id", ".", "·"), "中文·id");
    assert_eq!(decimal_u64(0), "0");
    assert_eq!(decimal_u64(10), "10");
    assert_eq!(decimal_u64(u64::MAX), "18446744073709551615");
    assert_eq!(decimal_i64(-7), "-7");
    assert_eq!(decimal_i64(i64::MIN), "-9223372036854775808");
    assert_eq!(join_path("/a", "/etc/x"), "/etc/x");
    assert_eq!(join_path("a", ""), "a/");
}

#[test]
fn wasm_template_imports_match_the_host_functions() {
    assert!(WASM_TEMPLATE_WAT
        .contains(r#"(import "micyou" "log" (func $log (param i32 i32)))"#));
    assert!(WASM_TEMPLATE_WAT
        .contains(r#"(import "micyou" "get_config" (func $get_config (param i32) (result i32)))"#));
    assert!(WASM_TEMPLATE_WAT.contains(
        r#"(import "micyou" "set_config" (func $set_config (param i32 i32) (result i32)))"#
    ));
    let steps = scaffold_plan("dev.micyou.t", "wasm", None, None);
    assert_eq!(file(&steps[3]).1, WASM_TEMPLATE_WAT);
}

fn manifest_with_platforms(tags: &[&str]) -> PluginManifest {
    PluginManifest {
        id: "a.b".to_string(),
        name: "x".to_string(),
        version: "1.0.0".to_string(),
        author: None,
        description: None,
        runtime: RuntimeKind::Wasm,
        entry: "x.wasm".to_string(),
        platforms: tags.iter().map(|t| t.to_string()).collect(),
        api_version: 1,
        capabilities: Vec::new(),
        kind: PluginKind::Utility,
        ui: None,
        dsp: None,
        config: None,
    }
}

#[test]
fn rejects_unknown_platform_tags() {
    let m = manifest_with_platforms(&["linux", "beos", "plan9"]);
    assert_eq!(unknown_platform(&m).as_deref(), Some("beos"));
    let m = manifest_with_platforms(&[
        platforms::WINDOWS,
        platforms::LINUX,
        platforms::MACOS,
        platforms::ANDROID,
    ]);
    assert_eq!(unknown_platform(&m), None);
    assert_eq!(unknown_platform(&manifest_with_platforms(&[])), None);
    assert_eq!(unknown_platform(&manifest_with_platforms(&["Linux"])).as_deref(), Some("Linux"));
}
