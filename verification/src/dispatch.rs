//! Method dispatch: the request model, the outcome model, and the one
//! function that turns a parsed request into the outcome of the invocation.

use vstd::prelude::*;

use crate::state::ContractState;

verus! {

/// What input acquisition and envelope parsing produced. The surrounding
/// binary reads at most one line from standard input and tries to
/// deserialize it as the request envelope; the library only sees which of
/// the three cases held, and the plain fields of a valid request.
pub enum RequestInput {
    /// No line could be read (immediate end of input, or a read error).
    NoInput,
    /// A line was read but was not valid JSON, or did not match the
    /// envelope shape (for example, the required `method` field is missing).
    InvalidJson,
    /// A well-formed request: the method name, and the optional
    /// caller-supplied state that wholly replaces the default.
    Valid { method: String, state: Option<ContractState> },
}

/// The recognized methods, plus a catch-all for every other string.
#[derive(Clone, Copy, PartialEq, Eq, Structural, Debug)]
pub enum MethodKind {
    Initialize,
    Increment,
    ListMethods,
    Unknown,
}

/// Why an `Error` event is emitted.
#[derive(Clone, Copy, PartialEq, Eq, Structural, Debug)]
pub enum ErrorReason {
    InvalidJsonInput,
    NoInputReceived,
    UnknownMethod,
}

/// An event notification, written as one JSON line to the error stream.
#[derive(Clone, Copy, PartialEq, Eq, Structural, Debug)]
pub enum Event {
    Initialized(ContractState),
    CounterIncremented(ContractState),
    Error(ErrorReason),
}

/// The `result` field of the response: `null`, or the list of method names
/// that `list_methods` returns.
#[derive(Debug, PartialEq, Eq)]
pub enum ResultValue {
    Null,
    MethodNames(Vec<&'static str>),
}

/// Everything the invocation produces: the final state, the response's
/// `result`, at most one event, and the process exit code.
pub struct Outcome {
    pub state: ContractState,
    pub result: ResultValue,
    pub event: Option<Event>,
    pub exit_code: u8,
}

/// Which method a given method string names. Matching is exact and
/// case-sensitive.
pub open spec fn method_kind_of(m: Seq<char>) -> MethodKind {
    if m == "initialize"@ {
        MethodKind::Initialize
    } else if m == "increment"@ {
        MethodKind::Increment
    } else if m == "list_methods"@ {
        MethodKind::ListMethods
    } else {
        MethodKind::Unknown
    }
}

/// The counter the dispatch starts from: the caller-supplied state if one
/// was given, the default otherwise.
pub open spec fn resolved_counter(state: Option<ContractState>) -> u64 {
    match state {
        Some(s) => s.counter,
        None => 0,
    }
}

/// The counter after dispatching a method on a resolved counter.
/// `increment` wraps at the width of the counter: the successor of
/// `u64::MAX` is `0`.
pub open spec fn counter_after(k: MethodKind, c0: u64) -> u64 {
    match k {
        MethodKind::Initialize => 0,
        MethodKind::Increment => if c0 == u64::MAX {
            0
        } else {
            (c0 + 1) as u64
        },
        MethodKind::ListMethods => c0,
        MethodKind::Unknown => c0,
    }
}

/// The process exit code for a dispatched method: `0` for every recognized
/// method, `1` for an unknown one.
pub open spec fn exit_code_of(k: MethodKind) -> u8 {
    match k {
        MethodKind::Unknown => 1,
        _ => 0,
    }
}

/// Law: `increment` adds exactly one to the resolved counter. Stated for
/// every counter below the maximum of the width; at the maximum itself the
/// counter wraps to zero, as `counter_after` says.
pub proof fn lemma_increment_adds_one(st: Option<ContractState>)
    requires
        resolved_counter(st) < u64::MAX,
    ensures
        counter_after(MethodKind::Increment, resolved_counter(st)) == resolved_counter(st) + 1,
{
}

/// Law: round trip. A counter produced by dispatching any first request is
/// reproduced unchanged when it is supplied as the state of a second request
/// whose method is anything other than `initialize` or `increment` — both
/// `list_methods` and every unknown method pass the state through untouched.
pub proof fn lemma_state_round_trip(m1: Seq<char>, st: Option<ContractState>, m2: Seq<char>)
    requires
        method_kind_of(m2) != MethodKind::Initialize,
        method_kind_of(m2) != MethodKind::Increment,
    ensures
        counter_after(method_kind_of(m2), counter_after(method_kind_of(m1), resolved_counter(st)))
            == counter_after(method_kind_of(m1), resolved_counter(st)),
{
}

/// Classifies a method string. Relied on by `handle_request`; matching is
/// exact and case-sensitive.
pub fn method_kind(method: &str) -> (k: MethodKind)
    ensures
        k == method_kind_of(method@),
{
    let m = method.to_owned();
    if m == "initialize".to_owned() {
        MethodKind::Initialize
    } else if m == "increment".to_owned() {
        MethodKind::Increment
    } else if m == "list_methods".to_owned() {
        MethodKind::ListMethods
    } else {
        MethodKind::Unknown
    }
}

/// The methods that `list_methods` advertises. The listing deliberately
/// omits `list_methods` itself, although that method is dispatchable.
pub fn list_methods() -> (r: Vec<&'static str>)
    ensures
        r@.len() == 2,
        r@[0]@ == "initialize"@,
        r@[1]@ == "increment"@,
{
    let mut v: Vec<&'static str> = Vec::new();
    v.push("initialize");
    v.push("increment");
    v
}

/// Handles one request from start to finish: resolves the state, dispatches
/// on the method, and reports the final state, the response's `result`, the
/// event to emit (if any), and the exit code.
///
/// - `initialize` zeroes the counter and announces `Initialized`.
/// - `increment` adds one to the resolved counter, wrapping at the width of
///   the counter, and announces `CounterIncremented`.
/// - `list_methods` leaves the state untouched, returns the method names,
///   and emits no event.
/// - Any other method string leaves the state untouched and announces an
///   `Error` with reason `UnknownMethod`.
/// - A missing or malformed input line never reaches dispatch: the outcome
///   carries the default state, a `null` result, and the matching `Error`
///   event.
pub fn handle_request(input: RequestInput) -> (out: Outcome)
    ensures
        out.exit_code == 0 || out.exit_code == 1,
        (input is NoInput) ==> {
            &&& out.state.counter == 0
            &&& out.result is Null
            &&& out.event == Some(Event::Error(ErrorReason::NoInputReceived))
            &&& out.exit_code == 1
        },
        (input is InvalidJson) ==> {
            &&& out.state.counter == 0
            &&& out.result is Null
            &&& out.event == Some(Event::Error(ErrorReason::InvalidJsonInput))
            &&& out.exit_code == 1
        },
        input matches RequestInput::Valid { method, state } ==> {
            let k = method_kind_of(method@);
            let c0 = resolved_counter(state);
            &&& out.state.counter == counter_after(k, c0)
            &&& out.exit_code == exit_code_of(k)
            &&& (k is Initialize ==> out.result is Null && out.event == Some(
                Event::Initialized(out.state),
            ))
            &&& (k is Increment ==> out.result is Null && out.event == Some(
                Event::CounterIncremented(out.state),
            ))
            &&& (k is ListMethods ==> out.event is None && (out.result matches
            ResultValue::MethodNames(v) && v@.len() == 2 && v@[0]@ == "initialize"@ && v@[1]@
                == "increment"@))
            &&& (k is Unknown ==> out.result is Null && out.event == Some(
                Event::Error(ErrorReason::UnknownMethod),
            ))
        },
{
    match input {
        RequestInput::NoInput => Outcome {
            state: ContractState::initial(),
            result: ResultValue::Null,
            event: Some(Event::Error(ErrorReason::NoInputReceived)),
            exit_code: 1,
        },
        RequestInput::InvalidJson => Outcome {
            state: ContractState::initial(),
            result: ResultValue::Null,
            event: Some(Event::Error(ErrorReason::InvalidJsonInput)),
            exit_code: 1,
        },
        RequestInput::Valid { method, state } => {
            let s0 = match state {
                Some(s) => s,
                None => ContractState::initial(),
            };
            match method_kind(method.as_str()) {
                MethodKind::Initialize => {
                    let ns = ContractState { counter: 0 };
                    Outcome {
                        state: ns,
                        result: ResultValue::Null,
                        event: Some(Event::Initialized(ns)),
                        exit_code: 0,
                    }
                },
                MethodKind::Increment => {
                    let ns = ContractState { counter: s0.counter.wrapping_add(1) };
                    Outcome {
                        state: ns,
                        result: ResultValue::Null,
                        event: Some(Event::CounterIncremented(ns)),
                        exit_code: 0,
                    }
                },
                MethodKind::ListMethods => Outcome {
                    state: s0,
                    result: ResultValue::MethodNames(list_methods()),
                    event: None,
                    exit_code: 0,
                },
                MethodKind::Unknown => Outcome {
                    state: s0,
                    result: ResultValue::Null,
                    event: Some(Event::Error(ErrorReason::UnknownMethod)),
                    exit_code: 1,
                },
            }
        },
    }
}

} // verus!
