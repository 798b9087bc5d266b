//! Exact JSON framing of the two output lines: the response written to
//! standard output and the event notification written to the error stream.
//!
//! Every function here returns text whose character sequence is pinned down
//! exactly by a spec function, so a caller knows the emitted line byte for
//! byte.

use vstd::prelude::*;

use crate::dispatch::ErrorReason;
use crate::dispatch::Event;
use crate::dispatch::ResultValue;
use crate::state::ContractState;

verus! {

/// The decimal digit character for a value below ten.
pub open spec fn digit_char(d: nat) -> char {
    if d == 0 {
        '0'
    } else if d == 1 {
        '1'
    } else if d == 2 {
        '2'
    } else if d == 3 {
        '3'
    } else if d == 4 {
        '4'
    } else if d == 5 {
        '5'
    } else if d == 6 {
        '6'
    } else if d == 7 {
        '7'
    } else if d == 8 {
        '8'
    } else {
        '9'
    }
}

/// The decimal representation of `n`, most significant digit first, with no
/// leading zeros (a single `'0'` for zero itself).
pub open spec fn spec_u64_digits(n: nat) -> Seq<char>
    decreases n,
{
    if n < 10 {
        seq![digit_char(n)]
    } else {
        spec_u64_digits(n / 10) + seq![digit_char(n % 10)]
    }
}

/// A character sequence wrapped in JSON string quotes.
pub open spec fn spec_quote(s: Seq<char>) -> Seq<char> {
    "\""@ + s + "\""@
}

/// The views of a sequence of string slices.
pub open spec fn spec_names_of(v: Seq<&str>) -> Seq<Seq<char>> {
    v.map_values(|s: &str| s@)
}

/// A JSON array of strings: the names quoted and joined by commas, inside
/// brackets.
pub open spec fn spec_name_items(names: Seq<Seq<char>>) -> Seq<char>
    decreases names.len(),
{
    if names.len() == 0 {
        Seq::<char>::empty()
    } else if names.len() == 1 {
        spec_quote(names.last())
    } else {
        spec_name_items(names.drop_last()) + ","@ + spec_quote(names.last())
    }
}

/// See `spec_name_items`: the full array, brackets included.
pub open spec fn spec_name_array(names: Seq<Seq<char>>) -> Seq<char> {
    "["@ + spec_name_items(names) + "]"@
}

/// The JSON serialization of a state: an object with the single `counter`
/// field.
pub open spec fn spec_state_json(c: u64) -> Seq<char> {
    "{\"counter\":"@ + spec_u64_digits(c as nat) + "}"@
}

/// The JSON serialization of a response `result` value.
pub open spec fn spec_result_json(r: ResultValue) -> Seq<char> {
    match r {
        ResultValue::Null => "null"@,
        ResultValue::MethodNames(v) => spec_name_array(spec_names_of(v@)),
    }
}

/// The one JSON line written to standard output: the `result` first, then
/// the final `state`.
pub open spec fn spec_response_line(r: ResultValue, c: u64) -> Seq<char> {
    "{\"result\":"@ + spec_result_json(r) + ",\"state\":"@ + spec_state_json(c) + "}"@
}

/// The fixed payload text of each `Error` event.
pub open spec fn spec_error_text(r: ErrorReason) -> Seq<char> {
    match r {
        ErrorReason::InvalidJsonInput => "Invalid JSON input"@,
        ErrorReason::NoInputReceived => "No input received"@,
        ErrorReason::UnknownMethod => "Unknown method"@,
    }
}

/// The name under which an event is announced.
pub open spec fn spec_event_name(e: Event) -> Seq<char> {
    match e {
        Event::Initialized(_) => "Initialized"@,
        Event::CounterIncremented(_) => "CounterIncremented"@,
        Event::Error(_) => "Error"@,
    }
}

/// The `data` payload of an event: a state snapshot for the two state
/// mutations, a quoted reason text for errors.
pub open spec fn spec_event_data(e: Event) -> Seq<char> {
    match e {
        Event::Initialized(s) => spec_state_json(s.counter),
        Event::CounterIncremented(s) => spec_state_json(s.counter),
        Event::Error(r) => spec_quote(spec_error_text(r)),
    }
}

/// The one JSON line written to the error stream for an event: the event
/// name first, then the payload.
pub open spec fn spec_event_line(e: Event) -> Seq<char> {
    "{\"event\":"@ + spec_quote(spec_event_name(e)) + ",\"data\":"@ + spec_event_data(e) + "}"@
}

/// The one-character string slice for a decimal digit.
fn digit_str(d: u64) -> (r: &'static str)
    requires
        d < 10,
    ensures
        r@ == seq![digit_char(d as nat)],
{
    let r: &'static str = if d == 0 {
        "0"
    } else if d == 1 {
        "1"
    } else if d == 2 {
        "2"
    } else if d == 3 {
        "3"
    } else if d == 4 {
        "4"
    } else if d == 5 {
        "5"
    } else if d == 6 {
        "6"
    } else if d == 7 {
        "7"
    } else if d == 8 {
        "8"
    } else {
        "9"
    };
    proof {
        reveal_strlit("0");
        reveal_strlit("1");
        reveal_strlit("2");
        reveal_strlit("3");
        reveal_strlit("4");
        reveal_strlit("5");
        reveal_strlit("6");
        reveal_strlit("7");
        reveal_strlit("8");
        reveal_strlit("9");
        assert(r@ =~= seq![digit_char(d as nat)]);
    }
    r
}

/// Formats a counter value in decimal, exactly as `spec_u64_digits` says.
pub fn u64_to_string(n: u64) -> (r: String)
    ensures
        r@ == spec_u64_digits(n as nat),
    decreases n,
{
    if n < 10 {
        digit_str(n).to_owned()
    } else {
        let mut s = u64_to_string(n / 10);
        s.append(digit_str(n % 10));
        proof {
            assert(s@ =~= spec_u64_digits(n as nat));
        }
        s
    }
}

/// Serializes a state as its JSON object.
pub fn state_json(s: &ContractState) -> (r: String)
    ensures
        r@ == spec_state_json(s.counter),
{
    let mut acc = "{\"counter\":".to_owned();
    acc.append(u64_to_string(s.counter).as_str());
    acc.append("}");
    proof {
        assert(acc@ =~= spec_state_json(s.counter));
    }
    acc
}

/// Serializes a list of method names as a JSON array of strings.
fn name_array_json(v: &Vec<&'static str>) -> (r: String)
    ensures
        r@ == spec_name_array(spec_names_of(v@)),
{
    let ghost mapped = spec_names_of(v@);
    let mut acc = "[".to_owned();
    proof {
        assert(mapped.take(0) =~= Seq::<Seq<char>>::empty());
        assert(acc@ =~= "["@ + spec_name_items(mapped.take(0)));
    }
    let mut i: usize = 0;
    while i < v.len()
        invariant
            i <= v.len(),
            mapped == spec_names_of(v@),
            mapped.len() == v@.len(),
            acc@ == "["@ + spec_name_items(mapped.take(i as int)),
        decreases v.len() - i,
    {
        if i > 0 {
            acc.append(",");
        }
        acc.append("\"");
        acc.append(v[i]);
        acc.append("\"");
        proof {
            let t = mapped.take(i as int + 1);
            assert(t.drop_last() =~= mapped.take(i as int));
            assert(t.last() == v@[i as int]@);
            assert(acc@ =~= "["@ + spec_name_items(t));
        }
        i = i + 1;
    }
    acc.append("]");
    proof {
        assert(mapped.take(v@.len() as int) =~= mapped);
        assert(acc@ =~= spec_name_array(mapped));
    }
    acc
}

/// Serializes a response `result` value.
fn result_json(r: &ResultValue) -> (out: String)
    ensures
        out@ == spec_result_json(*r),
{
    match r {
        ResultValue::Null => "null".to_owned(),
        ResultValue::MethodNames(v) => name_array_json(v),
    }
}

/// Frames the response line: `result` first, then the final `state`,
/// exactly as `spec_response_line` says.
pub fn response_line(result: &ResultValue, state: &ContractState) -> (r: String)
    ensures
        r@ == spec_response_line(*result, state.counter),
{
    let mut acc = "{\"result\":".to_owned();
    acc.append(result_json(result).as_str());
    acc.append(",\"state\":");
    acc.append(state_json(state).as_str());
    acc.append("}");
    proof {
        assert(acc@ =~= spec_response_line(*result, state.counter));
    }
    acc
}

/// Frames the event line: the event name first, then the payload, exactly
/// as `spec_event_line` says.
pub fn event_line(e: &Event) -> (r: String)
    ensures
        r@ == spec_event_line(*e),
{
    let mut acc = "{\"event\":".to_owned();
    acc.append("\"");
    match e {
        Event::Initialized(_) => acc.append("Initialized"),
        Event::CounterIncremented(_) => acc.append("CounterIncremented"),
        Event::Error(_) => acc.append("Error"),
    }
    acc.append("\"");
    acc.append(",\"data\":");
    match e {
        Event::Initialized(s) => acc.append(state_json(s).as_str()),
        Event::CounterIncremented(s) => acc.append(state_json(s).as_str()),
        Event::Error(r) => {
            acc.append("\"");
            match r {
                ErrorReason::InvalidJsonInput => acc.append("Invalid JSON input"),
                ErrorReason::NoInputReceived => acc.append("No input received"),
                ErrorReason::UnknownMethod => acc.append("Unknown method"),
            }
            acc.append("\"");
        },
    }
    acc.append("}");
    proof {
        assert(acc@ =~= spec_event_line(*e));
    }
    acc
}

} // verus!
