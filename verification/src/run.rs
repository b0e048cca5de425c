//! The steps of a run, each as a function from what the engine answered to
//! what the run does next: go on with the value that the step gave, or stop
//! with a report that names the step.

use vstd::prelude::*;
use crate::error::{RunError, RunStage};
use crate::host::{saw_host_state, HostCall, HostState, RunReport};
use crate::wasm::{
    describe, engine_error_text, entry_calls, entry_returned, holds_func, holds_instance,
    linker_host_only, store_calls,
};

verus! {

/// Whether a report is that of a failure at `stage` with the engine's words
/// for `error`, after the host function received `calls`.
pub open spec fn failed_at(
    report: RunReport,
    stage: RunStage,
    error: wasmtime::Error,
    calls: Seq<HostCall>,
) -> bool {
    &&& report.calls@ == calls
    &&& report.outcome matches Err(failure) && failure.stage == stage && failure.detail@
        == engine_error_text(error)
}

/// Whether these are the calls that some store holds which the host has
/// called into `entries` times.
pub open spec fn left_by_store(calls: Seq<HostCall>, entries: nat) -> bool {
    exists|store: wasmtime::Store<HostState>|
        #![trigger store_calls(store)]
        calls == store_calls(store) && entry_calls(store) == entries
}

/// Whether a linker of host functions was made.
pub open spec fn linker_made() -> bool {
    exists|linker: wasmtime::Linker<HostState>| #[trigger] linker_host_only(linker)
}

/// Whether a module was instantiated in some store.
pub open spec fn instance_made() -> bool {
    exists|store: wasmtime::Store<HostState>, instance: wasmtime::Instance| #[trigger]
        holds_instance(store, instance)
}

/// Whether the entry point was found in some store.
pub open spec fn entry_found() -> bool {
    exists|store: wasmtime::Store<HostState>, func: wasmtime::TypedFunc<(), ()>| #[trigger]
        holds_func(store, func)
}

/// Whether these are the calls of a store into which the host has called
/// once, a call of the entry point that came back without an error.
pub open spec fn entry_came_back(calls: Seq<HostCall>) -> bool {
    exists|store: wasmtime::Store<HostState>, func: wasmtime::TypedFunc<(), ()>|
        #![trigger entry_returned(store, func)]
        entry_returned(store, func) && entry_calls(store) == 1 && calls == store_calls(store)
}

/// What a run has behind it when it fails at `stage` with `calls` received:
/// the steps before that one were taken, the entry point was called once
/// where the call is what failed and not at all where an earlier step did,
/// and no call was received before there was a store.
pub open spec fn reached(stage: RunStage, calls: Seq<HostCall>) -> bool {
    match stage {
        RunStage::Source | RunStage::Engine | RunStage::Compile => calls.len() == 0,
        RunStage::Link => calls.len() == 0 && linker_made(),
        RunStage::Instantiate => linker_made() && left_by_store(calls, 0),
        RunStage::Export => linker_made() && instance_made() && left_by_store(calls, 0),
        RunStage::Call => linker_made() && instance_made() && entry_found() && left_by_store(
            calls,
            1,
        ),
    }
}

/// A step before the store exists: its value, or the report of its failure,
/// in which no call can stand.
fn before_store<T>(stage: RunStage, answer: Result<T, wasmtime::Error>) -> (r: Result<
    T,
    RunReport,
>)
    ensures
        match answer {
            Ok(value) => r == Ok::<T, RunReport>(value),
            Err(e) => r matches Err(report) && failed_at(report, stage, e, Seq::empty()),
        },
{
    match answer {
        Ok(value) => Ok(value),
        Err(e) => Err(RunReport::stopped(stage, describe(&e))),
    }
}

/// A step on the store: its value, or the report of its failure with the
/// calls that the store holds by then.
fn on_store<T>(
    store: &wasmtime::Store<HostState>,
    stage: RunStage,
    answer: Result<T, wasmtime::Error>,
) -> (r: Result<T, RunReport>)
    ensures
        match answer {
            Ok(value) => r == Ok::<T, RunReport>(value),
            Err(e) => r matches Err(report) && failed_at(report, stage, e, store_calls(*store))
                && saw_host_state(report.calls@),
        },
{
    match answer {
        Ok(value) => Ok(value),
        Err(e) => {
            let failure = RunError { stage, detail: describe(&e) };
            Err(RunReport::ended(store, Err(failure)))
        },
    }
}

/// After the engine was set up: the engine, or a failure at
/// `RunStage::Engine` without calls.
pub fn engine_made(making: Result<wasmtime::Engine, wasmtime::Error>) -> (r: Result<
    wasmtime::Engine,
    RunReport,
>)
    ensures
        match making {
            Ok(engine) => r == Ok::<wasmtime::Engine, RunReport>(engine),
            Err(e) => r matches Err(report) && failed_at(
                report,
                RunStage::Engine,
                e,
                Seq::empty(),
            ),
        },
{
    before_store(RunStage::Engine, making)
}

/// After the source was compiled: the module, or a failure at
/// `RunStage::Compile` without calls.
pub fn compiled(compiling: Result<wasmtime::Module, wasmtime::Error>) -> (r: Result<
    wasmtime::Module,
    RunReport,
>)
    ensures
        match compiling {
            Ok(module) => r == Ok::<wasmtime::Module, RunReport>(module),
            Err(e) => r matches Err(report) && failed_at(
                report,
                RunStage::Compile,
                e,
                Seq::empty(),
            ),
        },
{
    before_store(RunStage::Compile, compiling)
}

/// After the host function was registered: nothing, or a failure at
/// `RunStage::Link` without calls.
pub fn linked(linking: Result<(), wasmtime::Error>) -> (r: Result<(), RunReport>)
    ensures
        match linking {
            Ok(done) => r == Ok::<(), RunReport>(done),
            Err(e) => r matches Err(report) && failed_at(report, RunStage::Link, e, Seq::empty()),
        },
{
    before_store(RunStage::Link, linking)
}

/// After the module was instantiated in `store`: the instance, or a failure
/// at `RunStage::Instantiate` with the calls that the store holds.
pub fn instantiated(
    store: &wasmtime::Store<HostState>,
    instantiating: Result<wasmtime::Instance, wasmtime::Error>,
) -> (r: Result<wasmtime::Instance, RunReport>)
    ensures
        match instantiating {
            Ok(instance) => r == Ok::<wasmtime::Instance, RunReport>(instance),
            Err(e) => r matches Err(report) && failed_at(
                report,
                RunStage::Instantiate,
                e,
                store_calls(*store),
            ) && saw_host_state(report.calls@),
        },
{
    on_store(store, RunStage::Instantiate, instantiating)
}

/// After the entry point was looked up: the function, or a failure at
/// `RunStage::Export` with the calls that the store holds.
pub fn export_found(
    store: &wasmtime::Store<HostState>,
    finding: Result<wasmtime::TypedFunc<(), ()>, wasmtime::Error>,
) -> (r: Result<wasmtime::TypedFunc<(), ()>, RunReport>)
    ensures
        match finding {
            Ok(func) => r == Ok::<wasmtime::TypedFunc<(), ()>, RunReport>(func),
            Err(e) => r matches Err(report) && failed_at(
                report,
                RunStage::Export,
                e,
                store_calls(*store),
            ) && saw_host_state(report.calls@),
        },
{
    on_store(store, RunStage::Export, finding)
}

/// After the entry point was called: the report of the whole run. A call
/// that came back gives success, one that failed a failure at
/// `RunStage::Call`; either way the report holds the calls that the store
/// holds.
pub fn called(store: &wasmtime::Store<HostState>, calling: Result<(), wasmtime::Error>) -> (r:
    RunReport)
    ensures
        r.calls@ == store_calls(*store),
        saw_host_state(r.calls@),
        match calling {
            Ok(done) => r.outcome == Ok::<(), RunError>(done),
            Err(e) => failed_at(r, RunStage::Call, e, store_calls(*store)),
        },
{
    match on_store(store, RunStage::Call, calling) {
        Ok(done) => RunReport::ended(store, Ok(done)),
        Err(report) => report,
    }
}

} // verus!
