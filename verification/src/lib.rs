//! Verified core of the rocode terminal client: a tolerant streaming parser
//! for JSON-like tool calls, and the state machines and text helpers behind
//! the terminal views.
pub mod text;
pub mod jsonish;
pub mod types;
pub mod tui;
