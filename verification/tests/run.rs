use mod_loader::descriptor::Descriptor;
use mod_loader::error::{RunError, RunStage};
use mod_loader::host::{
    HostCall, HostState, RunReport, ENTRY_POINT, HOST_FUNC, HOST_NAMESPACE, HOST_STATE,
};
use mod_loader::mods::Mod;
use mod_loader::run::{called, compiled, engine_made, export_found, instantiated, linked};

const GREETER: &str = r#"
(module
  (import "host" "host_func" (func $host_func (param i32)))
  (func (export "hello")
    i32.const 7
    call $host_func))
"#;

fn a_mod() -> Mod {
    let text = "{name: \"Test\", version: \"1.0\", description: \"x\", precompiled: true, run: \"main.wat\"}";
    Mod::new("/opt/game", String::from("mods/test_mod/"), Ok(text.as_bytes().to_vec())).unwrap()
}

fn run(wat: &str) -> RunReport {
    a_mod().init(Ok(String::from(wat)))
}

fn seen(param: i32) -> HostCall {
    HostCall { param, state: 4 }
}

fn stage_of(report: &RunReport) -> RunStage {
    match &report.outcome {
        Ok(()) => panic!("the run went through"),
        Err(e) => e.stage,
    }
}

#[test]
fn host_state_is_four() {
    assert_eq!(HOST_STATE, 4);
    assert_eq!(HostState::new().value(), 4);
}

#[test]
fn linked_and_exported_names_are_fixed() {
    assert_eq!(HOST_NAMESPACE, "host");
    assert_eq!(HOST_FUNC, "host_func");
    assert_eq!(ENTRY_POINT, "hello");
}

#[test]
fn host_function_is_found_under_its_name_only() {
    let wat = r#"
(module
  (import "Host" "host_func" (func $h (param i32)))
  (func (export "hello")))
"#;
    assert_eq!(stage_of(&run(wat)), RunStage::Instantiate);
    let wat = r#"
(module
  (func (export "Hello")))
"#;
    assert_eq!(stage_of(&run(wat)), RunStage::Export);
}

#[test]
fn runs_hello_once_and_host_sees_argument_and_state() {
    let report = run(GREETER);
    assert_eq!(report.outcome, Ok(()));
    assert_eq!(report.calls, vec![seen(7)]);
}

#[test]
fn end_to_end_from_descriptor_to_run() {
    let m = a_mod();
    assert_eq!(m.debug_name(), "Test v1.0");
    assert_eq!(m.wat_source_path(), "/opt/game/mods/test_mod/main.wat");
    let report = m.init(Ok(String::from(GREETER)));
    assert_eq!(report.outcome, Ok(()));
    assert_eq!(report.calls.len(), 1);
    assert_eq!(report.calls[0].param, 7);
    assert_eq!(report.calls[0].state, 4);
}

#[test]
fn a_mod_can_be_run_again() {
    let m = a_mod();
    let first = m.init(Ok(String::from(GREETER)));
    let second = m.init(Ok(String::from(GREETER)));
    assert_eq!(first, second);
    assert_eq!(second.calls, vec![seen(7)]);
}

#[test]
fn module_without_host_import_runs() {
    let report = run("(module (func (export \"hello\")))");
    assert_eq!(report.outcome, Ok(()));
    assert_eq!(report.calls, vec![]);
}

#[test]
fn host_sees_each_call_in_order() {
    let wat = r#"
(module
  (import "host" "host_func" (func $h (param i32)))
  (func (export "hello")
    i32.const 1
    call $h
    i32.const -2
    call $h
    i32.const 2147483647
    call $h
    i32.const -2147483648
    call $h))
"#;
    let report = run(wat);
    assert_eq!(report.outcome, Ok(()));
    assert_eq!(report.calls, vec![seen(1), seen(-2), seen(i32::MAX), seen(i32::MIN)]);
}

#[test]
fn start_function_runs_at_instantiation() {
    let wat = r#"
(module
  (import "host" "host_func" (func $h (param i32)))
  (func $begin
    i32.const 3
    call $h)
  (start $begin)
  (func (export "hello")
    i32.const 5
    call $h))
"#;
    let report = run(wat);
    assert_eq!(report.outcome, Ok(()));
    assert_eq!(report.calls, vec![seen(3), seen(5)]);
}

#[test]
fn unreadable_source_is_reported_with_the_reason() {
    let report = a_mod().init(Err(String::from("No such file or directory (os error 2)")));
    assert_eq!(
        report.outcome,
        Err(RunError {
            stage: RunStage::Source,
            detail: String::from("No such file or directory (os error 2)"),
        })
    );
    assert_eq!(report.calls, vec![]);
    assert_eq!(
        report.outcome.unwrap_err().message(),
        "Failed to read the wat file: No such file or directory (os error 2)"
    );
}

#[test]
fn text_that_does_not_compile_fails_before_instantiation() {
    let report = run("(module (func (export \"hello\"");
    assert_eq!(stage_of(&report), RunStage::Compile);
    assert_eq!(report.calls, vec![]);
    let e = report.outcome.unwrap_err();
    assert!(!e.detail.is_empty());
    assert_eq!(e.message(), format!("Failed to compile the wat file: {}", e.detail));
}

#[test]
fn invalid_module_fails_to_compile() {
    let wat = "(module (func (export \"hello\") i32.const 1))";
    let report = run(wat);
    assert_eq!(stage_of(&report), RunStage::Compile);
    assert_eq!(report.calls, vec![]);
}

#[test]
fn start_function_does_not_run_when_compilation_fails() {
    let wat = r#"
(module
  (import "host" "host_func" (func $h (param i32)))
  (func $begin
    i32.const 3
    call $h)
  (start $begin)
  (func (export "hello")
    i64.const 5
    call $h))
"#;
    let report = run(wat);
    assert_eq!(stage_of(&report), RunStage::Compile);
    assert_eq!(report.calls, vec![]);
}

#[test]
fn unknown_import_fails_at_instantiation() {
    let wat = r#"
(module
  (import "host" "other_func" (func $h (param i32)))
  (func (export "hello")))
"#;
    let report = run(wat);
    assert_eq!(stage_of(&report), RunStage::Instantiate);
    assert_eq!(report.calls, vec![]);
}

#[test]
fn import_of_another_signature_fails_at_instantiation() {
    let wat = r#"
(module
  (import "host" "host_func" (func $h (param i64)))
  (func (export "hello")))
"#;
    let report = run(wat);
    assert_eq!(stage_of(&report), RunStage::Instantiate);
    let wat = r#"
(module
  (import "host" "host_func" (func $h (param i32) (result i32)))
  (func (export "hello")))
"#;
    assert_eq!(stage_of(&run(wat)), RunStage::Instantiate);
}

#[test]
fn trap_in_start_function_fails_at_instantiation() {
    let wat = r#"
(module
  (import "host" "host_func" (func $h (param i32)))
  (func $begin
    i32.const 9
    call $h
    unreachable)
  (start $begin)
  (func (export "hello")))
"#;
    let report = run(wat);
    assert_eq!(stage_of(&report), RunStage::Instantiate);
    assert_eq!(report.calls, vec![seen(9)]);
}

#[test]
fn missing_hello_fails_at_export_after_instantiation() {
    let wat = r#"
(module
  (import "host" "host_func" (func $h (param i32)))
  (func $begin
    i32.const 11
    call $h)
  (start $begin)
  (func (export "goodbye")))
"#;
    let report = run(wat);
    assert_eq!(stage_of(&report), RunStage::Export);
    assert_eq!(report.calls, vec![seen(11)]);
    let e = report.outcome.unwrap_err();
    assert_eq!(e.message(), format!("Failed to get the hello function: {}", e.detail));
}

#[test]
fn module_with_import_only_lacks_hello() {
    let report = run("(module (import \"host\" \"host_func\" (func (param i32))))");
    assert_eq!(stage_of(&report), RunStage::Export);
    assert_eq!(report.calls, vec![]);
}

#[test]
fn hello_of_another_signature_fails_at_export() {
    assert_eq!(stage_of(&run("(module (func (export \"hello\") (param i32)))")), RunStage::Export);
    assert_eq!(
        stage_of(&run("(module (func (export \"hello\") (result i32) i32.const 0))")),
        RunStage::Export
    );
    assert_eq!(
        stage_of(&run("(module (global (export \"hello\") i32 (i32.const 0)))")),
        RunStage::Export
    );
}

#[test]
fn trap_in_hello_fails_at_the_call_and_keeps_the_calls() {
    let wat = r#"
(module
  (import "host" "host_func" (func $h (param i32)))
  (func (export "hello")
    i32.const 1
    call $h
    unreachable))
"#;
    let report = run(wat);
    assert_eq!(stage_of(&report), RunStage::Call);
    assert_eq!(report.calls, vec![seen(1)]);
    let e = report.outcome.unwrap_err();
    assert_eq!(e.message(), format!("Failed to call the hello function: {}", e.detail));
}

#[test]
fn division_by_zero_traps_at_the_call() {
    let wat = r#"
(module
  (func (export "hello")
    i32.const 1
    i32.const 0
    i32.div_s
    drop))
"#;
    let report = run(wat);
    assert_eq!(stage_of(&report), RunStage::Call);
    assert_eq!(report.calls, vec![]);
}

#[test]
fn run_does_not_depend_on_the_descriptor() {
    let d = Descriptor {
        name: Some(String::from("other")),
        description: Some(String::new()),
        version: Some(String::from("2")),
        precompiled: Some(true),
        run: Some(String::from("x.wat")),
    };
    let m = Mod::from_descriptor(String::from("/"), d).unwrap();
    let report = m.init(Ok(String::from(GREETER)));
    assert_eq!(report.outcome, Ok(()));
    assert_eq!(report.calls, vec![seen(7)]);
}

#[test]
fn stopped_report_holds_no_calls() {
    let report = RunReport::stopped(RunStage::Link, String::from("taken"));
    assert_eq!(report.calls, vec![]);
    assert_eq!(
        report.outcome,
        Err(RunError { stage: RunStage::Link, detail: String::from("taken") })
    );
}

#[test]
fn record_notes_argument_and_state() {
    let mut state = HostState::new();
    assert_eq!(state.calls(), vec![]);
    state.record(5);
    state.record(-1);
    assert_eq!(state.calls(), vec![seen(5), seen(-1)]);
    assert_eq!(state.value(), 4);
}

#[test]
fn each_stage_has_its_message() {
    let said = |stage: RunStage| RunError { stage, detail: String::from("why") }.message();
    assert_eq!(said(RunStage::Source), "Failed to read the wat file: why");
    assert_eq!(said(RunStage::Engine), "Failed to create the engine: why");
    assert_eq!(said(RunStage::Compile), "Failed to compile the wat file: why");
    assert_eq!(said(RunStage::Link), "Failed to wrap the host function: why");
    assert_eq!(said(RunStage::Instantiate), "Failed to instantiate the module: why");
    assert_eq!(said(RunStage::Export), "Failed to get the hello function: why");
    assert_eq!(said(RunStage::Call), "Failed to call the hello function: why");
}

fn engine_error(engine: &wasmtime::Engine, text: &str) -> wasmtime::Error {
    match wasmtime::Module::new(engine, text) {
        Ok(_) => panic!("the text compiled"),
        Err(e) => e,
    }
}

fn store_with(engine: &wasmtime::Engine, params: &[i32]) -> wasmtime::Store<HostState> {
    let mut store = wasmtime::Store::new(engine, HostState::new());
    for param in params {
        store.data_mut().record(*param);
    }
    store
}

fn lines_of(report: &RunReport) -> Vec<String> {
    report.lines()
}

#[test]
fn unbalanced_module_text_is_a_compile_failure() {
    let report = run("(module");
    assert_eq!(stage_of(&report), RunStage::Compile);
    assert_eq!(report.calls, vec![]);
    assert_eq!(lines_of(&report), Vec::<String>::new());
}

#[test]
fn compile_failure_carries_the_engine_words() {
    let engine = wasmtime::Engine::default();
    let said = engine_error(&engine, "(module").to_string();
    assert!(!said.is_empty());
    let report = run("(module");
    assert_eq!(
        report.outcome,
        Err(RunError { stage: RunStage::Compile, detail: said.clone() })
    );
    assert_eq!(
        report.outcome.unwrap_err().message(),
        format!("Failed to compile the wat file: {}", said)
    );
}

#[test]
fn start_function_call_is_kept_when_hello_is_missing() {
    let wat = "(module (import \"host\" \"host_func\" (func $h (param i32))) (func $s i32.const 7 call $h) (start $s))";
    let report = run(wat);
    assert_eq!(stage_of(&report), RunStage::Export);
    assert_eq!(report.calls, vec![seen(7)]);
    assert_eq!(lines_of(&report), vec!["Got 7 from WebAssembly", "my host state is: 4"]);
}

#[test]
fn unresolved_import_is_reported_before_the_missing_export() {
    let report = run("(module (import \"host\" \"other\" (func)))");
    assert_eq!(stage_of(&report), RunStage::Instantiate);
    assert_eq!(report.calls, vec![]);
    let e = report.outcome.unwrap_err();
    assert_eq!(e.message(), format!("Failed to instantiate the module: {}", e.detail));
}

#[test]
fn end_to_end_prints_the_argument_and_the_state_once() {
    let text = "{name: \"Test\", version: \"1.0\", description: \"x\", precompiled: true, run: \"main.wat\"}";
    let m = Mod::new("/opt/app", String::from("mods/test_mod/"), Ok(text.as_bytes().to_vec()))
        .unwrap();
    assert_eq!(m.wat_source_path(), "/opt/app/mods/test_mod/main.wat");
    let wat = "(module (import \"host\" \"host_func\" (func $h (param i32))) (func (export \"hello\") i32.const 3 call $h))";
    let report = m.init(Ok(String::from(wat)));
    assert_eq!(report.outcome, Ok(()));
    assert_eq!(report.calls, vec![seen(3)]);
    assert_eq!(lines_of(&report), vec!["Got 3 from WebAssembly", "my host state is: 4"]);
}

#[test]
fn module_that_never_calls_the_host_prints_nothing() {
    let wat = "(module (import \"host\" \"host_func\" (func $h (param i32))) (func (export \"hello\")))";
    let report = run(wat);
    assert_eq!(report.outcome, Ok(()));
    assert_eq!(lines_of(&report), Vec::<String>::new());
}

#[test]
fn steps_before_the_store_pass_values_on() {
    let engine = wasmtime::Engine::default();
    assert!(engine_made(Ok(engine.clone())).is_ok());
    assert!(compiled(wasmtime::Module::new(&engine, "(module)")).is_ok());
    assert_eq!(linked(Ok(())), Ok(()));
}

#[test]
fn steps_before_the_store_name_their_stage() {
    let engine = wasmtime::Engine::default();
    let said = engine_error(&engine, "(module").to_string();
    let stopped = |stage: RunStage| RunReport {
        calls: vec![],
        outcome: Err(RunError { stage, detail: said.clone() }),
    };
    match engine_made(Err(engine_error(&engine, "(module"))) {
        Ok(_) => panic!("an engine came back"),
        Err(report) => assert_eq!(report, stopped(RunStage::Engine)),
    }
    match compiled(Err(engine_error(&engine, "(module"))) {
        Ok(_) => panic!("a module came back"),
        Err(report) => assert_eq!(report, stopped(RunStage::Compile)),
    }
    assert_eq!(linked(Err(engine_error(&engine, "(module"))), Err(stopped(RunStage::Link)));
}

#[test]
fn steps_on_the_store_name_their_stage_and_keep_the_calls() {
    let engine = wasmtime::Engine::default();
    let said = engine_error(&engine, "(module").to_string();
    let store = store_with(&engine, &[3, -8]);
    let ended = |stage: RunStage| RunReport {
        calls: vec![seen(3), seen(-8)],
        outcome: Err(RunError { stage, detail: said.clone() }),
    };
    match instantiated(&store, Err(engine_error(&engine, "(module"))) {
        Ok(_) => panic!("an instance came back"),
        Err(report) => assert_eq!(report, ended(RunStage::Instantiate)),
    }
    match export_found(&store, Err(engine_error(&engine, "(module"))) {
        Ok(_) => panic!("a function came back"),
        Err(report) => assert_eq!(report, ended(RunStage::Export)),
    }
    assert_eq!(called(&store, Err(engine_error(&engine, "(module"))), ended(RunStage::Call));
}

#[test]
fn a_call_that_came_back_is_a_success() {
    let engine = wasmtime::Engine::default();
    let report = called(&store_with(&engine, &[]), Ok(()));
    assert_eq!(report, RunReport { calls: vec![], outcome: Ok(()) });
    let report = called(&store_with(&engine, &[1, 2, 3]), Ok(()));
    assert_eq!(report, RunReport { calls: vec![seen(1), seen(2), seen(3)], outcome: Ok(()) });
}

#[test]
fn steps_on_the_store_pass_values_on() {
    let engine = wasmtime::Engine::default();
    let module = wasmtime::Module::new(&engine, "(module (func (export \"hello\")))").unwrap();
    let mut store = store_with(&engine, &[4]);
    let linker: wasmtime::Linker<HostState> = wasmtime::Linker::new(&engine);
    let instantiating = linker.instantiate(&mut store, &module);
    let instance = instantiated(&store, instantiating).unwrap();
    let finding = instance.get_typed_func::<(), ()>(&mut store, "hello");
    let hello = export_found(&store, finding).unwrap();
    let calling = hello.call(&mut store, ());
    assert_eq!(called(&store, calling), RunReport { calls: vec![seen(4)], outcome: Ok(()) });
}

#[test]
fn ended_report_holds_the_calls_of_the_store() {
    let engine = wasmtime::Engine::default();
    let store = store_with(&engine, &[10, 20]);
    let report = RunReport::ended(&store, Ok(()));
    assert_eq!(report, RunReport { calls: vec![seen(10), seen(20)], outcome: Ok(()) });
    let failure = RunError { stage: RunStage::Call, detail: String::from("why") };
    let report = RunReport::ended(&store, Err(failure.clone()));
    assert_eq!(report, RunReport { calls: vec![seen(10), seen(20)], outcome: Err(failure) });
}

#[test]
fn report_lines_are_two_for_each_call_in_order() {
    let report = RunReport { calls: vec![seen(3), seen(-8), seen(0)], outcome: Ok(()) };
    assert_eq!(
        report.lines(),
        vec![
            "Got 3 from WebAssembly",
            "my host state is: 4",
            "Got -8 from WebAssembly",
            "my host state is: 4",
            "Got 0 from WebAssembly",
            "my host state is: 4",
        ]
    );
}

#[test]
fn report_without_calls_has_no_lines() {
    let report = RunReport { calls: vec![], outcome: Ok(()) };
    assert_eq!(report.lines(), Vec::<String>::new());
    let report = RunReport::stopped(RunStage::Compile, String::from("why"));
    assert_eq!(report.lines(), Vec::<String>::new());
}

#[test]
fn report_lines_agree_with_the_lines_of_each_call() {
    let report = RunReport {
        calls: vec![
            HostCall { param: i32::MIN, state: 4 },
            HostCall { param: i32::MAX, state: 4 },
        ],
        outcome: Ok(()),
    };
    let lines = report.lines();
    assert_eq!(lines.len(), 4);
    for (k, call) in report.calls.iter().enumerate() {
        let (greeting, state) = call.lines();
        assert_eq!(lines[2 * k], greeting);
        assert_eq!(lines[2 * k + 1], state);
    }
}

#[test]
fn many_calls_arrive_unchanged_and_in_order() {
    let wat = r#"
(module
  (import "host" "host_func" (func $h (param i32)))
  (func (export "hello")
    (local $n i32)
    (local.set $n (i32.const -50))
    (loop $again
      (call $h (local.get $n))
      (local.set $n (i32.add (local.get $n) (i32.const 1)))
      (br_if $again (i32.lt_s (local.get $n) (i32.const 50))))))
"#;
    let report = run(wat);
    assert_eq!(report.outcome, Ok(()));
    let mut expected = Vec::new();
    let mut lines = Vec::new();
    for n in -50..50 {
        expected.push(seen(n));
        lines.push(format!("Got {} from WebAssembly", n));
        lines.push(String::from("my host state is: 4"));
    }
    assert_eq!(report.calls, expected);
    assert_eq!(report.lines(), lines);
}

#[test]
fn record_keeps_any_number_of_arguments_in_order() {
    let mut state = HostState::new();
    let mut expected = Vec::new();
    for k in 0..200 {
        let param = (k * 7919) % 1000 - 500;
        state.record(param);
        expected.push(seen(param));
    }
    assert_eq!(state.calls(), expected);
}
