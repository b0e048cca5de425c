//! The host's side of a run: the state that the host function can see, the
//! calls that it received, and what a run reports when it is over.

use vstd::prelude::*;
use vstd::string::StringExecFns;
use crate::error::{RunError, RunStage};
use crate::text::{decimal, push_decimal, push_signed_decimal, signed_decimal};
use crate::wasm::{host_state, store_calls};

verus! {

/// The number that the host function reads as the host's state.
pub const HOST_STATE: u32 = 4;

/// The namespace under which the host function is linked.
pub const HOST_NAMESPACE: &'static str = "host";

/// The name under which the host function is linked.
pub const HOST_FUNC: &'static str = "host_func";

/// The name of the function that a module must export, taking and returning
/// nothing.
pub const ENTRY_POINT: &'static str = "hello";

/// One call of the host function by the guest: the integer that the guest
/// passed, and the host state that the function read when it ran.
#[derive(Clone, Copy, Debug, PartialEq, Eq, Structural)]
pub struct HostCall {
    pub param: i32,
    pub state: u32,
}

impl HostCall {
    /// The first line that the host function prints for a call.
    pub open spec fn greeting(self) -> Seq<char> {
        "Got "@ + signed_decimal(self.param as int) + " from WebAssembly"@
    }

    /// The second line that the host function prints for a call.
    pub open spec fn state_line(self) -> Seq<char> {
        "my host state is: "@ + decimal(self.state as nat)
    }

    /// The two lines that the host function prints for this call: the
    /// integer it got, then the host state it saw.
    pub fn lines(&self) -> (r: (String, String))
        ensures
            r.0@ == self.greeting(),
            r.1@ == self.state_line(),
    {
        let mut first = String::from_str("Got ");
        push_signed_decimal(&mut first, self.param as i64);
        first.append(" from WebAssembly");
        let mut second = String::from_str("my host state is: ");
        push_decimal(&mut second, self.state as u64);
        (first, second)
    }
}

/// What the store of a run carries for the host function: the host's state,
/// and the calls that the function has received so far.
#[derive(Debug)]
pub struct HostState {
    value: u32,
    calls: Vec<HostCall>,
}

impl HostState {
    #[verifier::type_invariant]
    spec fn inv(self) -> bool {
        &&& self.value == HOST_STATE
        &&& forall|i: int| 0 <= i < self.calls@.len() ==> (#[trigger] self.calls@[i]).state == HOST_STATE
    }

    /// The calls received so far, oldest first.
    pub closed spec fn received(&self) -> Seq<HostCall> {
        self.calls@
    }

    /// The state of a fresh run: no call received yet.
    pub fn new() -> (r: HostState)
        ensures
            r.received() == Seq::<HostCall>::empty(),
    {
        HostState { value: HOST_STATE, calls: Vec::new() }
    }

    /// The host's state, which is the same number throughout.
    pub fn value(&self) -> (r: u32)
        ensures
            r == HOST_STATE,
    {
        proof {
            use_type_invariant(self);
        }
        self.value
    }

    /// What the host function does when the guest calls it with `param`: it
    /// notes the integer together with the host state that it sees.
    pub fn record(&mut self, param: i32)
        ensures
            final(self).received() == noted(old(self).received(), param),
    {
        let mut taken = HostState::new();
        core::mem::swap(self, &mut taken);
        proof {
            use_type_invariant(&taken);
        }
        let HostState { value, mut calls } = taken;
        calls.push(HostCall { param, state: value });
        *self = HostState { value, calls };
    }

    /// The calls received so far, oldest first. Each of them saw the host
    /// state.
    pub fn calls(&self) -> (r: Vec<HostCall>)
        ensures
            r@ == self.received(),
            forall|i: int| 0 <= i < r@.len() ==> (#[trigger] r@[i]).state == HOST_STATE,
    {
        proof {
            use_type_invariant(self);
        }
        self.calls.clone()
    }
}

/// The calls received once one more call, with `param`, has come in.
pub open spec fn noted(received: Seq<HostCall>, param: i32) -> Seq<HostCall> {
    received.push(HostCall { param, state: HOST_STATE })
}

/// The calls received once the guest has called with each of `params` in
/// turn.
pub open spec fn noted_all(received: Seq<HostCall>, params: Seq<i32>) -> Seq<HostCall>
    decreases params.len(),
{
    if params.len() == 0 {
        received
    } else {
        noted(noted_all(received, params.drop_last()), params.last())
    }
}

/// The lines that the host prints for these calls: two for each call, its
/// greeting and then its state line, in the order of the calls.
pub open spec fn printed(calls: Seq<HostCall>) -> Seq<Seq<char>> {
    Seq::new(
        2 * calls.len(),
        |i: int|
            if i % 2 == 0 {
                calls[i / 2].greeting()
            } else {
                calls[i / 2].state_line()
            },
    )
}

/// Whether each of these calls saw the host state.
pub open spec fn saw_host_state(calls: Seq<HostCall>) -> bool {
    forall|i: int| 0 <= i < calls.len() ==> (#[trigger] calls[i]).state == HOST_STATE
}

/// What a run leaves behind: the calls that the host function received, and
/// whether the run went through.
#[derive(Debug, PartialEq, Eq)]
pub struct RunReport {
    pub calls: Vec<HostCall>,
    pub outcome: Result<(), RunError>,
}

impl RunReport {
    /// The report of a run that failed at `stage` before any guest code ran.
    pub fn stopped(stage: RunStage, detail: String) -> (r: RunReport)
        ensures
            r.calls@ == Seq::<HostCall>::empty(),
            r.outcome == Err::<(), RunError>(RunError { stage, detail }),
    {
        RunReport { calls: Vec::new(), outcome: Err(RunError { stage, detail }) }
    }

    /// The lines that the host prints for the calls of this run, in order:
    /// for each call the integer it got, then the host state it saw.
    pub fn lines(&self) -> (r: Vec<String>)
        ensures
            r@.len() == printed(self.calls@).len(),
            forall|i: int| 0 <= i < r@.len() ==> (#[trigger] r@[i])@ == printed(self.calls@)[i],
    {
        let mut lines: Vec<String> = Vec::new();
        let mut done: usize = 0;
        while done < self.calls.len()
            invariant
                done <= self.calls@.len(),
                lines@.len() == 2 * done,
                forall|i: int|
                    0 <= i < lines@.len() ==> (#[trigger] lines@[i])@ == printed(self.calls@)[i],
            decreases self.calls@.len() - done,
        {
            let (greeting, state) = self.calls[done].lines();
            lines.push(greeting);
            lines.push(state);
            done = done + 1;
        }
        lines
    }

    /// The report of a run that got as far as making its store: the calls
    /// that the store's data holds, and the outcome.
    pub fn ended(store: &wasmtime::Store<HostState>, outcome: Result<(), RunError>) -> (r:
        RunReport)
        ensures
            r.outcome == outcome,
            r.calls@ == store_calls(*store),
            saw_host_state(r.calls@),
    {
        RunReport { calls: host_state(store).calls(), outcome }
    }
}

/// However many times the guest calls the host function, every argument
/// reaches the host unchanged and in the order of the calls, each call sees
/// the host state, and what was received before stays as it was.
pub proof fn calls_arrive_unchanged_and_in_order(received: Seq<HostCall>, params: Seq<i32>)
    ensures
        noted_all(received, params).len() == received.len() + params.len(),
        forall|i: int| 0 <= i < received.len() ==> noted_all(received, params)[i] == received[i],
        forall|j: int|
            0 <= j < params.len() ==> #[trigger] noted_all(received, params)[received.len() + j]
                == (HostCall { param: params[j], state: HOST_STATE }),
        saw_host_state(received) ==> saw_host_state(noted_all(received, params)),
    decreases params.len(),
{
    if params.len() > 0 {
        calls_arrive_unchanged_and_in_order(received, params.drop_last());
        let before = noted_all(received, params.drop_last());
        assert forall|j: int| 0 <= j < params.len() implies #[trigger] noted_all(
            received,
            params,
        )[received.len() + j] == (HostCall { param: params[j], state: HOST_STATE }) by {
            if j < params.len() - 1 {
                assert(before[received.len() + j] == (HostCall {
                    param: params.drop_last()[j],
                    state: HOST_STATE,
                }));
            }
        }
    }
}

/// For calls with the arguments `params` on a fresh host state, the host
/// prints two lines for each call and none besides: the greeting with the
/// call's argument in decimal, then the host state, which is 4, in the order
/// of the calls.
pub proof fn lines_show_each_argument_in_order(params: Seq<i32>)
    ensures
        printed(noted_all(Seq::empty(), params)).len() == 2 * params.len(),
        forall|j: int|
            0 <= j < params.len() ==> {
                &&& #[trigger] printed(noted_all(Seq::empty(), params))[2 * j] == "Got "@
                    + signed_decimal(params[j] as int) + " from WebAssembly"@
                &&& printed(noted_all(Seq::empty(), params))[2 * j + 1] == "my host state is: "@
                    + seq!['4']
            },
{
    calls_arrive_unchanged_and_in_order(Seq::empty(), params);
    let calls = noted_all(Seq::empty(), params);
    assert forall|j: int| 0 <= j < params.len() implies {
        &&& #[trigger] printed(calls)[2 * j] == "Got "@ + signed_decimal(params[j] as int)
            + " from WebAssembly"@
        &&& printed(calls)[2 * j + 1] == "my host state is: "@ + seq!['4']
    } by {
        assert(calls[0 + j] == (HostCall { param: params[j], state: HOST_STATE }));
        assert(decimal(4) =~= seq!['4']);
    }
}

} // verus!
