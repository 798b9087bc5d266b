//! A single-shot, line-oriented request dispatcher for a small counter
//! contract.
//!
//! The library is the verified core: it resolves the caller-supplied state,
//! dispatches on a method name, and frames the response and event lines as
//! exact JSON text. Reading standard input, deserializing the request
//! envelope, and writing the two output lines are left to the thin binary
//! around the library.

pub mod dispatch;
pub mod emit;
pub mod state;

pub use dispatch::ErrorReason;
pub use dispatch::Event;
pub use dispatch::MethodKind;
pub use dispatch::Outcome;
pub use dispatch::RequestInput;
pub use dispatch::ResultValue;
pub use dispatch::handle_request;
pub use dispatch::list_methods;
pub use dispatch::method_kind;
pub use emit::event_line;
pub use emit::response_line;
pub use emit::state_json;
pub use emit::u64_to_string;
pub use state::ContractState;
