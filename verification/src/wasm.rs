//! The embedded WebAssembly engine: the types of `wasmtime` that a run passes
//! along, and the calls into it that a run makes.
//!
//! Nothing in this file is proved. The engine alone decides whether a module
//! compiles, links and runs, so no function here promises success. What the
//! contracts state is which engine a linker and a store were made for, that
//! a linker holds host functions only, and which store holds an instance or
//! a function: `wasmtime` documents that a call panics where these do not
//! fit. Further names stand for what a store's data holds, for the text of
//! an engine error, for how often the host has called into a store, and for
//! a call that came back, so that a report can be held to them.

use vstd::prelude::*;
use crate::host::{HostCall, HostState};

verus! {

/// `wasmtime::Engine`, which compiles modules; carried along, never looked into.
#[verifier::external_type_specification]
#[verifier::external_body]
pub struct ExEngine(wasmtime::Engine);

/// `wasmtime::Module`, a compiled module.
#[verifier::external_type_specification]
#[verifier::external_body]
pub struct ExModule(wasmtime::Module);

/// `wasmtime::Linker`, which holds the host functions that imports resolve to.
#[verifier::external_type_specification]
#[verifier::external_body]
#[verifier::reject_recursive_types(T)]
pub struct ExLinker<T>(wasmtime::Linker<T>);

/// `wasmtime::Store`, which owns the instances of a run and the data that
/// host functions see.
#[verifier::external_type_specification]
#[verifier::external_body]
#[verifier::reject_recursive_types(T)]
pub struct ExStore<T: 'static>(wasmtime::Store<T>);

/// `wasmtime::Instance`, an instantiated module.
#[verifier::external_type_specification]
#[verifier::external_body]
pub struct ExInstance(wasmtime::Instance);

/// `wasmtime::TypedFunc`, a function of an instance with its signature.
#[verifier::external_type_specification]
#[verifier::external_body]
#[verifier::reject_recursive_types(Params)]
#[verifier::reject_recursive_types(Results)]
pub struct ExTypedFunc<Params, Results>(wasmtime::TypedFunc<Params, Results>);

/// `wasmtime::Error`, with which every call into the engine fails.
#[verifier::external_type_specification]
#[verifier::external_body]
pub struct ExEngineError(wasmtime::Error);

/// The engine that a linker was created for.
pub uninterp spec fn linker_engine(linker: wasmtime::Linker<HostState>) -> wasmtime::Engine;

/// Whether every item that a linker holds is a host function, which belongs
/// to no store.
pub uninterp spec fn linker_host_only(linker: wasmtime::Linker<HostState>) -> bool;

/// The engine that a store was created for.
pub uninterp spec fn store_engine(store: wasmtime::Store<HostState>) -> wasmtime::Engine;

/// Whether an instance was made in this store.
pub uninterp spec fn holds_instance(
    store: wasmtime::Store<HostState>,
    instance: wasmtime::Instance,
) -> bool;

/// Whether a function belongs to an instance of this store.
pub uninterp spec fn holds_func(
    store: wasmtime::Store<HostState>,
    func: wasmtime::TypedFunc<(), ()>,
) -> bool;

/// The calls that the data of a store holds, oldest first.
pub uninterp spec fn store_calls(store: wasmtime::Store<HostState>) -> Seq<HostCall>;

/// How many times the host has called a function of this store through
/// `TypedFunc::call`, whatever became of the calls. Instantiating a module
/// and looking up an export are no such calls.
pub uninterp spec fn entry_calls(store: wasmtime::Store<HostState>) -> nat;

/// Whether the host's latest call into this store was a call of this
/// function that came back without an error.
pub uninterp spec fn entry_returned(
    store: wasmtime::Store<HostState>,
    func: wasmtime::TypedFunc<(), ()>,
) -> bool;

/// The text with which `wasmtime` displays one of its errors.
pub uninterp spec fn engine_error_text(error: wasmtime::Error) -> Seq<char>;

/// Calls `Engine::new` with `Config::default()`: an engine with the default
/// configuration, or the error with which the engine refuses that
/// configuration on this machine.
#[verifier::external_body]
pub(crate) fn new_engine() -> Result<wasmtime::Engine, wasmtime::Error> {
    wasmtime::Engine::new(&wasmtime::Config::default())
}

/// Calls `Module::new` on the text or bytes of a module. Whether the source
/// compiles is for the engine to say.
#[verifier::external_body]
pub(crate) fn compile(engine: &wasmtime::Engine, source: &str) -> Result<
    wasmtime::Module,
    wasmtime::Error,
> {
    wasmtime::Module::new(engine, source)
}

/// Calls `Linker::new`: a linker for the engine that holds nothing yet.
#[verifier::external_body]
pub(crate) fn new_linker(engine: &wasmtime::Engine) -> (r: wasmtime::Linker<HostState>)
    ensures
        linker_engine(r) == *engine,
        linker_host_only(r),
{
    wasmtime::Linker::new(engine)
}

/// Calls `Linker::func_wrap` to define, under `module` and `name`, a host
/// function from one `i32` to nothing whose body is `HostState::record` on
/// the store's data. The linker stays with its engine, and what the call
/// adds to it is a host function.
#[verifier::external_body]
pub(crate) fn define_host_func(
    linker: &mut wasmtime::Linker<HostState>,
    module: &str,
    name: &str,
) -> (r: Result<(), wasmtime::Error>)
    ensures
        linker_engine(*final(linker)) == linker_engine(*old(linker)),
        linker_host_only(*old(linker)) ==> linker_host_only(*final(linker)),
{
    linker.func_wrap(
        module,
        name,
        |mut caller: wasmtime::Caller<'_, HostState>, param: i32| caller.data_mut().record(param),
    ).map(|_| ())
}

/// Calls `Store::new`: a store for the engine that carries `data`, and so
/// holds the calls that `data` holds. The host has not called into it yet.
#[verifier::external_body]
pub(crate) fn new_store(engine: &wasmtime::Engine, data: HostState) -> (r: wasmtime::Store<
    HostState,
>)
    ensures
        store_engine(r) == *engine,
        store_calls(r) == data.received(),
        entry_calls(r) == 0,
{
    wasmtime::Store::new(engine, data)
}

/// Calls `Linker::instantiate`, which resolves the module's imports against
/// the linker and runs the module's start function. `wasmtime` documents a
/// panic where linker and store are of different engines, and where the
/// linker holds an item of another store, which a linker of host functions
/// alone never does. An instance that comes back was made in the store.
/// The start function is run by the engine, not called by the host.
#[verifier::external_body]
pub(crate) fn instantiate(
    linker: &wasmtime::Linker<HostState>,
    store: &mut wasmtime::Store<HostState>,
    module: &wasmtime::Module,
) -> (r: Result<wasmtime::Instance, wasmtime::Error>)
    requires
        linker_engine(*linker) == store_engine(*old(store)),
        linker_host_only(*linker),
    ensures
        r matches Ok(instance) ==> holds_instance(*final(store), instance),
        entry_calls(*final(store)) == entry_calls(*old(store)),
{
    linker.instantiate(store, module)
}

/// Calls `Instance::get_typed_func` for an export that takes nothing and
/// returns nothing. `wasmtime` documents a panic where the store does not own
/// the instance. A function that comes back belongs to the store. The
/// lookup runs no guest code.
#[verifier::external_body]
pub(crate) fn typed_export(
    instance: &wasmtime::Instance,
    store: &mut wasmtime::Store<HostState>,
    name: &str,
) -> (r: Result<wasmtime::TypedFunc<(), ()>, wasmtime::Error>)
    requires
        holds_instance(*old(store), *instance),
    ensures
        r matches Ok(func) ==> holds_func(*final(store), func),
        entry_calls(*final(store)) == entry_calls(*old(store)),
{
    instance.get_typed_func::<(), ()>(store, name)
}

/// Calls `TypedFunc::call` without arguments. `wasmtime` documents a panic
/// where the store does not contain the function. The call lasts as long as
/// the guest runs, and gives an error where the guest trapped. It is one
/// call of the host into the store.
#[verifier::external_body]
pub(crate) fn call_export(
    func: &wasmtime::TypedFunc<(), ()>,
    store: &mut wasmtime::Store<HostState>,
) -> (r: Result<(), wasmtime::Error>)
    requires
        holds_func(*old(store), *func),
    ensures
        entry_calls(*final(store)) == entry_calls(*old(store)) + 1,
        r is Ok ==> entry_returned(*final(store), *func),
{
    func.call(store, ())
}

/// Calls `Store::data`: the data that the store carries, with the calls
/// that it holds.
#[verifier::external_body]
pub(crate) fn host_state(store: &wasmtime::Store<HostState>) -> (r: &HostState)
    ensures
        r.received() == store_calls(*store),
{
    store.data()
}

/// Formats a `wasmtime::Error` with its `Display` impl.
#[verifier::external_body]
pub(crate) fn describe(error: &wasmtime::Error) -> (r: String)
    ensures
        r@ == engine_error_text(*error),
{
    format!("{}", error)
}

} // verus!
