use ssr_rs::{
    call_piece, entry_script, factory_outcome, factory_script, parse_module_type, CallOutcome,
    LoadPlan, ModuleExport, ModuleOutcome, ModuleType, Property, RenderStart, ScriptCache,
    ScriptRun, ScriptValue, Ssr, SsrError, SCRIPT_CACHE_CAPACITY,
};

// Carries out a render as a host does, with `call` standing for the engine.
fn render(
    ssr: &mut Ssr,
    params: Option<&str>,
    mut call: impl FnMut(u64, Option<&str>) -> CallOutcome,
) -> Result<String, SsrError> {
    let mut job = match ssr.begin_render(params) {
        RenderStart::Cached(out) => return Ok(out),
        RenderStart::Run(job) => job,
    };
    while let Some(f) = ssr.next_function(&job) {
        let outcome = call(f, job.argument());
        job.record(outcome)?;
    }
    Ok(ssr.finish_render(job))
}

// Loads a CommonJS bundle whose entry script gives an object with `props`;
// returns how many times the bundle's top-level code ran.
fn load_cjs(
    ssr: &mut Ssr,
    source: &str,
    entry_point: &str,
    props: Vec<Property>,
) -> Result<usize, SsrError> {
    match ssr.begin_load(source, entry_point, "cjs")? {
        LoadPlan::AlreadyLoaded => Ok(0),
        LoadPlan::CommonJs { factory, script } => {
            assert_eq!(factory, factory_script(source));
            assert_eq!(script, entry_script(source, entry_point));
            factory_outcome(ScriptRun::Ran)?;
            ssr.note_compiled(&script, Some(1))?;
            ssr.finish_commonjs(source, ScriptValue::Object(props))?;
            Ok(1)
        }
        LoadPlan::EsModule => panic!("a CommonJS load was planned as a module"),
    }
}

fn load_esm(ssr: &mut Ssr, source: &str, entry_point: &str, export: ModuleExport) -> Result<(), SsrError> {
    match ssr.begin_load(source, entry_point, "esm")? {
        LoadPlan::AlreadyLoaded => Ok(()),
        LoadPlan::EsModule => ssr.finish_module(source, ModuleOutcome::Evaluated(export)),
        LoadPlan::CommonJs { .. } => panic!("a module load was planned as CommonJS"),
    }
}

fn function(name: &str, id: u64) -> Property {
    Property { name: name.to_string(), function: Some(id) }
}

fn text(s: &str) -> CallOutcome {
    CallOutcome::Returned(Some(s.to_string()))
}

#[test]
fn test_render_simple_html() {
    let source = r##"var SSR = {x: () => "<html><body>Hello, world!</body></html>"};"##;
    let mut ssr = Ssr::new();
    load_cjs(&mut ssr, source, "SSR", vec![function("x", 7)]).unwrap();
    let html = render(&mut ssr, None, |f, arg| {
        assert_eq!(f, 7);
        assert_eq!(arg, None);
        text("<html><body>Hello, world!</body></html>")
    })
    .unwrap();
    assert_eq!(html, "<html><body>Hello, world!</body></html>");
}

#[test]
fn test_render_with_params() {
    let source = r##"var SSR = {x: (params) => `<html><body>${params}</body></html>`};"##;
    let mut ssr = Ssr::new();
    load_cjs(&mut ssr, source, "SSR", vec![function("x", 3)]).unwrap();
    let params = r#"{"message": "Hello, parameters!"}"#;
    let html = render(&mut ssr, Some(params), |_, arg| {
        text(&format!("<html><body>{}</body></html>", arg.unwrap()))
    })
    .unwrap();
    assert_eq!(html, "<html><body>{\"message\": \"Hello, parameters!\"}</body></html>");
}

#[test]
fn test_esm_module() {
    let source = r##"
        export function render() {
            return "<html><body>ESM Hello, world!</body></html>";
        }
        "##;
    let mut ssr = Ssr::new();
    load_esm(&mut ssr, source, "render", ModuleExport::Function(5)).unwrap();
    let mut calls = 0;
    let html = render(&mut ssr, None, |f, _| {
        calls += 1;
        assert_eq!(f, 5);
        text("<html><body>ESM Hello, world!</body></html>")
    })
    .unwrap();
    assert_eq!(html, "<html><body>ESM Hello, world!</body></html>");
    assert_eq!(calls, 1);
}

#[test]
fn test_invalid_js() {
    let source = r##"var SSR = {x: () => { throw new Error("Test error"); }};"##;
    let mut ssr = Ssr::new();
    load_cjs(&mut ssr, source, "SSR", vec![function("x", 1)]).unwrap();
    let result = render(&mut ssr, None, |_, _| CallOutcome::Threw);
    assert!(result.is_err());
    assert_eq!(result, Err(SsrError::CallFailure));
}

#[test]
fn commonjs_plan_wraps_source_and_names_entry_point() {
    let ssr = Ssr::new();
    let plan = ssr.begin_load("var A = {};", "A", "cjs").unwrap();
    match plan {
        LoadPlan::CommonJs { factory, script } => {
            assert_eq!(factory, "(function(require, module, exports) {var A = {};})()");
            assert_eq!(script, "var A = {};;A");
        }
        _ => panic!("expected a CommonJS plan"),
    }
}

#[test]
fn empty_entry_point_leaves_the_bundle_value_last() {
    assert_eq!(entry_script("(function(){ return {}; })()", ""), "(function(){ return {}; })();");
}

#[test]
fn unsupported_module_type_is_refused() {
    let ssr = Ssr::new();
    assert!(matches!(ssr.begin_load("x", "y", "amd"), Err(SsrError::UnsupportedModuleType)));
    assert!(matches!(ssr.begin_load("x", "y", ""), Err(SsrError::UnsupportedModuleType)));
    assert!(matches!(ssr.begin_load("x", "y", "CJS"), Err(SsrError::UnsupportedModuleType)));
    assert_eq!(parse_module_type("cjs"), Ok(ModuleType::CommonJs));
    assert_eq!(parse_module_type("esm"), Ok(ModuleType::EsModule));
    assert_eq!(parse_module_type("esm "), Err(SsrError::UnsupportedModuleType));
}

#[test]
fn loaded_source_is_not_loaded_again() {
    let source = "globalThis.count = (globalThis.count || 0) + 1; var SSR = {x: () => 'a'};";
    let mut ssr = Ssr::new();
    let mut runs = load_cjs(&mut ssr, source, "SSR", vec![function("x", 1)]).unwrap();
    runs += load_cjs(&mut ssr, source, "SSR", vec![function("x", 1)]).unwrap();
    assert_eq!(runs, 1);
    assert!(ssr.is_loaded(source));
    assert!(matches!(ssr.begin_load(source, "SSR", "esm"), Ok(LoadPlan::AlreadyLoaded)));
    assert!(matches!(ssr.begin_load(source, "SSR", "nonsense"), Ok(LoadPlan::AlreadyLoaded)));
}

#[test]
fn repeated_render_is_served_from_cache() {
    let mut ssr = Ssr::new();
    load_cjs(&mut ssr, "var S = {x: () => 'a'};", "S", vec![function("x", 1)]).unwrap();
    let mut calls = 0;
    let first = render(&mut ssr, Some("p"), |_, _| {
        calls += 1;
        text(&format!("out{}", calls))
    })
    .unwrap();
    let second = render(&mut ssr, Some("p"), |_, _| {
        calls += 1;
        text(&format!("out{}", calls))
    })
    .unwrap();
    assert_eq!(first, "out1");
    assert_eq!(second, "out1");
    assert_eq!(calls, 1);
    let other = render(&mut ssr, None, |_, _| {
        calls += 1;
        text(&format!("out{}", calls))
    })
    .unwrap();
    assert_eq!(other, "out2");
    assert!(matches!(ssr.begin_render(Some("p")), RenderStart::Cached(s) if s == "out1"));
}

#[test]
fn empty_params_share_the_key_of_no_params() {
    let mut ssr = Ssr::new();
    load_cjs(&mut ssr, "var S = {x: () => 'a'};", "S", vec![function("x", 1)]).unwrap();
    render(&mut ssr, None, |_, _| text("none")).unwrap();
    assert!(matches!(ssr.begin_render(Some("")), RenderStart::Cached(s) if s == "none"));
}

#[test]
fn failed_render_is_not_cached() {
    let mut ssr = Ssr::new();
    load_cjs(&mut ssr, "var S = {x: () => 'a'};", "S", vec![function("x", 1)]).unwrap();
    assert_eq!(render(&mut ssr, None, |_, _| CallOutcome::Rejected), Err(SsrError::PromiseRejected));
    assert!(matches!(ssr.begin_render(None), RenderStart::Run(_)));
    assert_eq!(render(&mut ssr, None, |_, _| text("ok")), Ok("ok".to_string()));
}

#[test]
fn echo_passes_non_ascii_params_verbatim() {
    let mut ssr = Ssr::new();
    load_cjs(&mut ssr, "var S = {x: (p) => p};", "S", vec![function("x", 1)]).unwrap();
    let params = "{\"name\":\"Zoë — 東京 🚀\"}";
    let out = render(&mut ssr, Some(params), |_, arg| text(arg.unwrap())).unwrap();
    assert!(out.contains(params));
    assert_eq!(out, params);
}

#[test]
fn outputs_concatenate_in_registration_order() {
    let mut ssr = Ssr::new();
    let props = vec![
        function("head", 10),
        Property { name: "version".to_string(), function: None },
        function("body", 20),
    ];
    load_cjs(&mut ssr, "var S = {head, version: 1, body};", "S", props).unwrap();
    let mut order = Vec::new();
    let out = render(&mut ssr, None, |f, _| {
        order.push(f);
        text(if f == 10 { "<head/>" } else { "<body/>" })
    })
    .unwrap();
    assert_eq!(order, vec![10, 20]);
    assert_eq!(out, "<head/><body/>");
}

#[test]
fn registered_name_keeps_its_place() {
    let mut ssr = Ssr::new();
    load_cjs(&mut ssr, "one", "A", vec![function("a", 1), function("b", 2)]).unwrap();
    load_cjs(&mut ssr, "two", "B", vec![function("c", 3), function("a", 4)]).unwrap();
    let mut order = Vec::new();
    render(&mut ssr, None, |f, _| {
        order.push(f);
        text("")
    })
    .unwrap();
    assert_eq!(order, vec![4, 2, 3]);
}

#[test]
fn module_and_commonjs_functions_render_together() {
    let mut ssr = Ssr::new();
    load_esm(&mut ssr, "export function r() {}", "r", ModuleExport::Function(1)).unwrap();
    load_cjs(&mut ssr, "var S = {x};", "S", vec![function("x", 2)]).unwrap();
    let out = render(&mut ssr, None, |f, _| text(&f.to_string())).unwrap();
    assert_eq!(out, "12");
}

#[test]
fn second_module_entry_replaces_default() {
    let mut ssr = Ssr::new();
    load_esm(&mut ssr, "export function a() {}", "a", ModuleExport::Function(1)).unwrap();
    load_esm(&mut ssr, "export function b() {}", "b", ModuleExport::Function(2)).unwrap();
    let mut order = Vec::new();
    render(&mut ssr, None, |f, _| {
        order.push(f);
        text("")
    })
    .unwrap();
    assert_eq!(order, vec![2]);
}

#[test]
fn non_object_exports_fail_and_change_nothing() {
    let mut ssr = Ssr::new();
    assert!(matches!(ssr.begin_load("var S = 1;", "S", "cjs"), Ok(LoadPlan::CommonJs { .. })));
    assert_eq!(ssr.finish_commonjs("var S = 1;", ScriptValue::NotAnObject), Err(SsrError::MissingExports));
    assert!(!ssr.is_loaded("var S = 1;"));
    assert!(matches!(ssr.begin_load("var S = 1;", "S", "cjs"), Ok(LoadPlan::CommonJs { .. })));
    assert_eq!(ssr.next_function(&match ssr.begin_render(None) {
        RenderStart::Run(job) => job,
        RenderStart::Cached(_) => panic!("nothing was rendered yet"),
    }), None);
}

#[test]
fn module_entry_point_errors() {
    let mut ssr = Ssr::new();
    assert_eq!(load_esm(&mut ssr, "export const a = 1;", "b", ModuleExport::Missing), Err(SsrError::EntryPointNotFound));
    assert_eq!(load_esm(&mut ssr, "export const a = 1;", "a", ModuleExport::NotCallable), Err(SsrError::EntryPointNotCallable));
    assert!(!ssr.is_loaded("export const a = 1;"));
    assert_eq!(ssr.finish_module("m", ModuleOutcome::CompileFailed), Err(SsrError::CompileFailure));
    assert_eq!(ssr.finish_module("m", ModuleOutcome::InstantiateFailed), Err(SsrError::InstantiateFailure));
    assert_eq!(ssr.finish_module("m", ModuleOutcome::EvaluateFailed), Err(SsrError::EvaluateFailure));
    assert!(!ssr.is_loaded("m"));
    assert_eq!(ssr.finish_module("m", ModuleOutcome::Evaluated(ModuleExport::Function(3))), Ok(()));
    assert!(ssr.is_loaded("m"));
}

#[test]
fn factory_outcomes_map_to_load_errors() {
    assert_eq!(factory_outcome(ScriptRun::CompileFailed), Err(SsrError::CompileFailure));
    assert_eq!(factory_outcome(ScriptRun::Threw), Err(SsrError::EvaluateFailure));
    assert_eq!(factory_outcome(ScriptRun::Ran), Ok(()));
}

#[test]
fn throwing_entry_script_fails_the_load() {
    let mut ssr = Ssr::new();
    assert_eq!(ssr.finish_commonjs("s", ScriptValue::Threw), Err(SsrError::EvaluateFailure));
    assert!(!ssr.is_loaded("s"));
}

#[test]
fn render_with_no_functions_is_empty() {
    let mut ssr = Ssr::new();
    assert_eq!(render(&mut ssr, None, |_, _| panic!("no function to call")), Ok(String::new()));
}

#[test]
fn failing_call_stops_later_calls() {
    let mut ssr = Ssr::new();
    load_cjs(&mut ssr, "s", "S", vec![function("a", 1), function("b", 2), function("c", 3)]).unwrap();
    let mut called = Vec::new();
    let result = render(&mut ssr, None, |f, _| {
        called.push(f);
        if f == 2 { CallOutcome::FulfilledEmpty } else { text("x") }
    });
    assert_eq!(result, Err(SsrError::PromiseRejected));
    assert_eq!(called, vec![1, 2]);
}

#[test]
fn call_outcomes_map_to_text_or_error() {
    assert_eq!(call_piece(CallOutcome::Threw), Err(SsrError::CallFailure));
    assert_eq!(call_piece(CallOutcome::Returned(Some("a".to_string()))), Ok("a".to_string()));
    assert_eq!(call_piece(CallOutcome::Returned(None)), Err(SsrError::StringCoercionFailure));
    assert_eq!(call_piece(CallOutcome::Rejected), Err(SsrError::PromiseRejected));
    assert_eq!(call_piece(CallOutcome::FulfilledEmpty), Err(SsrError::PromiseRejected));
    assert_eq!(call_piece(CallOutcome::Fulfilled(Some("b".to_string()))), Ok("b".to_string()));
    assert_eq!(call_piece(CallOutcome::Fulfilled(None)), Err(SsrError::StringCoercionFailure));
}

#[test]
fn promise_result_is_rendered() {
    let mut ssr = Ssr::new();
    load_cjs(&mut ssr, "s", "S", vec![function("x", 1)]).unwrap();
    let out = render(&mut ssr, None, |_, _| CallOutcome::Fulfilled(Some("<p>async</p>".to_string())));
    assert_eq!(out, Ok("<p>async</p>".to_string()));
}

#[test]
fn uncoercible_result_fails_the_render() {
    let mut ssr = Ssr::new();
    load_cjs(&mut ssr, "s", "S", vec![function("x", 1)]).unwrap();
    assert_eq!(render(&mut ssr, None, |_, _| CallOutcome::Returned(None)), Err(SsrError::StringCoercionFailure));
}

#[test]
fn script_cache_keeps_recent_entries() {
    let mut cache = ScriptCache::new();
    assert!(!cache.lookup("a"));
    cache.store("a".to_string(), 1);
    assert!(cache.lookup("a"));
    assert!(!cache.lookup("b"));
    for i in 0..SCRIPT_CACHE_CAPACITY - 1 {
        cache.store(format!("s{}", i), i as u64);
    }
    // Full: "a" is the least recently used entry.
    assert!(cache.lookup("s0"));
    cache.store("new".to_string(), 500);
    assert!(!cache.lookup("a"));
    assert!(cache.lookup("s0"));
    assert!(cache.lookup("new"));
    // Using "s1" keeps it; "s2" is now the oldest.
    assert!(cache.lookup("s1"));
    cache.store("newer".to_string(), 501);
    assert!(cache.lookup("s1"));
    assert!(!cache.lookup("s2"));
}

#[test]
fn script_cache_store_of_present_key_evicts_nothing() {
    let mut cache = ScriptCache::new();
    for i in 0..SCRIPT_CACHE_CAPACITY {
        cache.store(format!("s{}", i), i as u64);
    }
    cache.store("s0".to_string(), 7);
    for i in 0..SCRIPT_CACHE_CAPACITY {
        assert!(cache.lookup(&format!("s{}", i)));
    }
}

#[test]
fn compile_failure_is_reported() {
    let mut ssr = Ssr::new();
    assert_eq!(ssr.note_compiled("bad(", None), Err(SsrError::CompileFailure));
    assert_eq!(ssr.note_compiled("good", Some(4)), Ok(4));
    assert_eq!(ssr.note_compiled("good", Some(9)), Ok(9));
}

#[test]
fn two_instances_are_independent() {
    let mut a = Ssr::new();
    let mut b = Ssr::new();
    load_cjs(&mut a, "var A = {x};", "A", vec![function("x", 1)]).unwrap();
    load_esm(&mut b, "export function r() {}", "r", ModuleExport::Function(2)).unwrap();
    let out_a = render(&mut a, None, |f, _| text(&format!("a{}", f))).unwrap();
    let out_b = render(&mut b, None, |f, _| text(&format!("b{}", f))).unwrap();
    assert_eq!(out_a, "a1");
    assert_eq!(out_b, "b2");
    assert!(!a.is_loaded("export function r() {}"));
    assert!(!b.is_loaded("var A = {x};"));
}
