use ecsact::events::ExecutionEventsCollector;
use ecsact::example::{Attacking, Player};
use ecsact::json_input::json_fraction_overflows;
use ecsact::rtb::{
    bindings_clang_args, cfg_directives, crate_lib_source, generated_file_name, generated_modules,
    handle_rtb_line, link_directives, links_runtime_library, runtime_library_location,
    runtime_output_path, runtime_temp_dir, try_bindings_clang_args, try_handle_rtb_line, RtbAction,
    RtbRefusal,
};
use ecsact::runtime::{is_c_string_bytes, registry_c_name, try_registry_c_name};
use ecsact::sdk::{include_dir_of_header, try_include_dir_of_header};
use ecsact::{CodegenPluginContext, ComponentId, EcsactRuntime, EcsactRuntimeBuilder, PackageId};

fn printed(a: RtbAction) -> Option<String> {
    match a {
        RtbAction::Print(s) => Some(s),
        _ => None,
    }
}

#[test]
fn builder_defaults_and_settings() {
    let mut b = EcsactRuntime::builder();
    assert_eq!(
        b.codegen_args(),
        vec!["codegen", "-p", "../target/debug/ecsact_rust_source_codegen.dll", "-o", "ecsact_rtb_out"]
    );
    b.src("a.ecsact").src("b.ecsact");
    b.output_dir("out");
    b.lib_rs_path("src/lib.rs");
    assert_eq!(
        b.codegen_args(),
        vec![
            "codegen",
            "a.ecsact",
            "b.ecsact",
            "-p",
            "../target/debug/ecsact_rust_source_codegen.dll",
            "-o",
            "out"
        ]
    );
    assert_eq!(b.generated_sources(), vec!["out/a.ecsact.rs", "out/b.ecsact.rs"]);
    assert_eq!(b.bindings_output_path(), "out/bindings.generated.rs");
    assert_eq!(b.template_output_path("core.rs"), "out/core.rs");
    assert_eq!(
        b.rtb_args("rt.dll", "tmp"),
        vec!["a.ecsact", "b.ecsact", "--output=rt.dll", "--temp_dir=tmp"]
    );
    let d = EcsactRuntimeBuilder::default();
    assert_eq!(d.bindings_output_path(), "ecsact_rtb_out/bindings.generated.rs");
}

#[test]
fn runtime_paths() {
    assert_eq!(runtime_output_path("/o", "game"), "/o/runtime/game_ecsact_rt.dll");
    assert_eq!(runtime_temp_dir("/o"), "/o/tmp");
}

#[test]
fn rtb_messages() {
    let mut rt = EcsactRuntime::default();
    assert_eq!(printed(handle_rtb_line(&mut rt, r#"{"type":"info","content":"hi"}"#)), Some("hi".to_string()));
    assert_eq!(printed(handle_rtb_line(&mut rt, r#"{"type":"success","content":"done"}"#)), Some("done".to_string()));
    assert_eq!(
        printed(handle_rtb_line(&mut rt, r#"{"type":"warning","content":"w"}"#)),
        Some("cargo:warning=w".to_string())
    );
    assert_eq!(
        printed(handle_rtb_line(&mut rt, r#"{"type":"subcommand_stderr","line":"e1"}"#)),
        Some("cargo:warning=e1".to_string())
    );
    assert_eq!(
        printed(handle_rtb_line(&mut rt, r#"{"type":"other"}"#)),
        Some("cargo:warning='other' message not implemented: {\"type\":\"other\"}".to_string())
    );
    assert!(matches!(handle_rtb_line(&mut rt, r#"{"type":"subcommand_start"}"#), RtbAction::Nothing));
    assert!(matches!(
        try_handle_rtb_line(&mut rt, r#"{"type":"error","content":"bad"}"#),
        Err(RtbRefusal::Failed(ref s)) if s == "bad"
    ));
    assert!(matches!(
        try_handle_rtb_line(&mut rt, r#"{"type":"alert","content":"x"}"#),
        Err(RtbRefusal::Failed(ref s)) if s == "x"
    ));
    let invalid = "Invalid output from Ecsact RTB. May be a bug with the ecsact_rtb crate or the wrong version of ecsact_rtb is being used.";
    assert!(matches!(try_handle_rtb_line(&mut rt, "not json"), Err(RtbRefusal::Failed(ref s)) if s == invalid));
    assert!(matches!(try_handle_rtb_line(&mut rt, "[1,2]"), Err(RtbRefusal::Failed(ref s)) if s == invalid));
    assert!(matches!(try_handle_rtb_line(&mut rt, r#"{"type":3}"#), Err(RtbRefusal::MissingType)));
    assert!(matches!(
        try_handle_rtb_line(&mut rt, r#"{"type":"info","content":"ok"}"#),
        Ok(RtbAction::Print(ref s)) if s == "ok"
    ));
    assert!(rt.available_methods.is_empty());
    let methods = r#"{"type":"module_methods","methods":[{"method_name":"ecsact_create_registry","available":true},{"method_name":"ecsact_stream","available":false},{"method_name":"ecsact_execute_systems","available":true}]}"#;
    assert!(matches!(handle_rtb_line(&mut rt, methods), RtbAction::Nothing));
    assert_eq!(rt.available_methods, vec!["ecsact_create_registry", "ecsact_execute_systems"]);
    assert_eq!(
        cfg_directives(&rt),
        vec!["cargo:cfg=ecsact_create_registry", "cargo:cfg=ecsact_execute_systems"]
    );
}

#[test]
fn generated_crate_root() {
    let m = generated_modules("../out", &vec!["a.ecsact.rs".to_string(), "b.ecsact.rs".to_string()]);
    assert_eq!(m, "include!(r\"../out/a.ecsact.rs\");\ninclude!(r\"../out/b.ecsact.rs\");\n");
    let src = crate_lib_source("../out", "");
    assert!(src.contains("mod bindings {\r\n\tinclude!(r\"../out/bindings.generated.rs\");\r\n}"));
    assert!(src.contains("pub mod core {\r\n\tinclude!(r\"../out/core.rs\");\r\n}"));
    assert!(src.ends_with("// Modules generated from .ecsact files\r\n\r\n\r\n\r\n"));
    let b = EcsactRuntime::builder();
    let (rel, text) = b
        .lib_rs_source("/p/out", "/p/src", &vec!["g.ecsact.rs".to_string()])
        .unwrap();
    assert_eq!(rel, "../out");
    assert!(text.contains("include!(r\"../out/g.ecsact.rs\");\n"));
}

#[test]
fn linking() {
    assert!(links_runtime_library("x86_64-unknown-linux-gnu"));
    assert!(!links_runtime_library("wasm32-unknown-unknown"));
    assert_eq!(
        link_directives("/o/runtime", "game_ecsact_rt"),
        vec!["cargo:rustc-link-search=/o/runtime", "cargo:rustc-link-lib=game_ecsact_rt"]
    );
    assert_eq!(
        bindings_clang_args(r#"{"include_dir":"/sdk/include"}"#),
        vec!["--target=wasm32-unknown-unknown".to_string(), "-I/sdk/include".to_string()]
    );
    assert_eq!(
        try_bindings_clang_args(r#"{"include_dir":"/sdk/include","x":1.5}"#),
        Some(vec!["--target=wasm32-unknown-unknown".to_string(), "-I/sdk/include".to_string()])
    );
    assert_eq!(try_bindings_clang_args(r#"{"include_dir":3}"#), None);
    assert_eq!(try_bindings_clang_args("nope"), None);
}

#[test]
fn sdk_include_dir_from_header() {
    assert_eq!(include_dir_of_header("C:\\sdk\\include\\ecsact\\runtime.h"), "C:/sdk/include");
    assert_eq!(include_dir_of_header("/x/ecsact_runtime/ecsact/runtime.h"), "/x/ecsact_runtime");
    assert_eq!(
        try_include_dir_of_header("C:\\rf\\ecsact_runtime\\ecsact\\runtime.h"),
        Some("C:/rf/ecsact_runtime".to_string())
    );
    assert_eq!(try_include_dir_of_header("/x/runtime.h"), None);
}

#[test]
fn registry_names() {
    assert_eq!(registry_c_name("Reg"), b"Reg\0".to_vec());
    assert_eq!(registry_c_name("Example Registry"), b"Example Registry\0".to_vec());
    assert_eq!(try_registry_c_name("Reg"), Some(b"Reg\0".to_vec()));
    assert_eq!(try_registry_c_name("a\0b"), None);
    assert!(is_c_string_bytes(b"abc\0"));
    assert!(!is_c_string_bytes(b"abc"));
    assert!(!is_c_string_bytes(b"a\0c\0"));
    assert!(!is_c_string_bytes(b""));
}

#[test]
fn plugin_context() {
    let ctx = CodegenPluginContext::new(4);
    assert_eq!(ctx.package_id(), PackageId::new(4));
    assert_eq!(ctx.write_len("héllo"), 6);
    assert_eq!(ctx.write_len(""), 0);
}

#[test]
fn events_are_dispatched_per_component_in_order() {
    let c: ExecutionEventsCollector<&str, u32> = ExecutionEventsCollector::default()
        .on_init::<Player>(1)
        .on_init::<Attacking>(2)
        .on_init::<Player>(3)
        .on_update::<Player>(4)
        .on_remove::<Attacking>(5)
        .on_entity_created("created")
        .on_entity_destroyed("destroyed");
    assert_eq!(c.init_callbacks_for(ComponentId::new(2)), Some(&vec![1, 3]));
    assert_eq!(c.init_callbacks_for(ComponentId::new(5)), Some(&vec![2]));
    assert_eq!(c.update_callbacks_for(ComponentId::new(2)), Some(&vec![4]));
    assert_eq!(c.update_callbacks_for(ComponentId::new(5)), None);
    assert_eq!(c.remove_callbacks_for(ComponentId::new(5)), Some(&vec![5]));
    assert_eq!(c.remove_callbacks_for(ComponentId::new(9)), None);
    assert_eq!(c.entity_created_callbacks, vec!["created"]);
    assert_eq!(c.entity_destroyed_callbacks, vec!["destroyed"]);
}

#[test]
fn lib_rs_in_the_output_directory() {
    let b = EcsactRuntime::builder();
    let (rel, text) = b.lib_rs_source("/p/out", "/p/out", &vec!["g.ecsact.rs".to_string()]).unwrap();
    assert_eq!(rel, "");
    assert!(text.contains("include!(r\"/g.ecsact.rs\");\n"));
}

#[test]
fn generated_file_names_and_library_location() {
    assert_eq!(generated_file_name("src/example.ecsact"), Some("example.ecsact.rs".to_string()));
    assert_eq!(generated_file_name("game.ecsact"), Some("game.ecsact.rs".to_string()));
    assert_eq!(generated_file_name("noext"), Some("noext.ecsact.rs".to_string()));
    assert_eq!(generated_file_name("a/b.c.ecsact"), Some("b.c.ecsact.rs".to_string()));
    assert_eq!(generated_file_name(".hidden"), Some(".hidden.ecsact.rs".to_string()));
    assert_eq!(generated_file_name("x."), Some("x.ecsact.rs".to_string()));
    assert_eq!(generated_file_name(".."), None);
    assert_eq!(generated_file_name(""), None);
    let mut b = EcsactRuntime::builder();
    b.src("src/a.ecsact").src("b.ecsact");
    assert_eq!(
        b.generated_file_names(),
        Some(vec!["a.ecsact.rs".to_string(), "b.ecsact.rs".to_string()])
    );
    b.src("/");
    assert_eq!(b.generated_file_names(), None);
    assert_eq!(
        runtime_library_location("/o/runtime/game_ecsact_rt.dll"),
        Some(("/o/runtime".to_string(), "game_ecsact_rt".to_string()))
    );
    assert_eq!(
        runtime_library_location("game_ecsact_rt.dll"),
        Some(("".to_string(), "game_ecsact_rt".to_string()))
    );
    assert_eq!(runtime_library_location("/"), None);
}

#[test]
fn lib_rs_directly_above_the_output_directory() {
    let b = EcsactRuntime::builder();
    let (rel, text) = b.lib_rs_source("/p/src/gen", "/p/src", &vec!["g.ecsact.rs".to_string()]).unwrap();
    assert_eq!(rel, "gen");
    assert!(text.contains("include!(r\"gen/g.ecsact.rs\");\n"));
}

#[test]
fn long_fractions_are_detected() {
    assert!(!json_fraction_overflows(r#"{"type":"info","content":"1.5"}"#));
    let mut line = String::from("0.");
    line.push_str(&"0".repeat(32768));
    assert!(!json_fraction_overflows(&line));
    line.push('0');
    assert!(json_fraction_overflows(&line));
    let mut other = String::from("[1.");
    other.push_str(&"7".repeat(40000));
    other.push(']');
    assert!(json_fraction_overflows(&other));
    let mut broken = String::from("1.");
    broken.push_str(&"0".repeat(20000));
    broken.push('.');
    broken.push_str(&"0".repeat(20000));
    assert!(!json_fraction_overflows(&broken));
}

#[test]
fn generated_names_of_paths_with_dot_and_empty_segments() {
    assert_eq!(generated_file_name("./src/x.ecsact"), Some("x.ecsact.rs".to_string()));
    assert_eq!(generated_file_name("a//b.ecsact"), Some("b.ecsact.rs".to_string()));
    assert_eq!(generated_file_name("a/./b.ecsact"), Some("b.ecsact.rs".to_string()));
    assert_eq!(generated_file_name("src/"), Some("src.ecsact.rs".to_string()));
    assert_eq!(
        runtime_library_location("./o/x.dll"),
        Some(("./o".to_string(), "x".to_string()))
    );
    assert_eq!(
        runtime_library_location("./x.dll"),
        Some((".".to_string(), "x".to_string()))
    );
    assert_eq!(
        runtime_library_location("a//b/x.dll"),
        Some(("a//b".to_string(), "x".to_string()))
    );
}

#[test]
fn lib_rs_beside_the_output_directory() {
    let b = EcsactRuntime::builder();
    let names = vec!["g.ecsact.rs".to_string()];
    let (rel, _) = b.lib_rs_source("out", "src", &names).unwrap();
    assert_eq!(rel, "../out");
    let (rel, _) = b.lib_rs_source("/p/a/out", "/p/b/src", &names).unwrap();
    assert_eq!(rel, "../../a/out");
    assert_eq!(b.lib_rs_source("out", "/p/src", &names), None);
}
