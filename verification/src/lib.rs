//! Verified core of a per-application audio mixer.
//!
//! The crate holds the rules of the mixer as functions on plain values: which
//! sessions of the endpoint tree are listed and in what order, which session a
//! volume or mute request is directed at, how an interface is negotiated, what
//! a routing request writes, and how icons and names are prepared for display.
//! Talking to the operating system is left to the embedding program.

pub mod control;
pub mod error;
pub mod events;
pub mod icon;
pub mod laws;
pub mod listing;
pub mod manager;
pub mod policy;
pub mod session;
pub mod text;
pub mod volume;

use vstd::prelude::*;
use vstd::string::StringExecFns;

verus! {

/// The greeting for the user called `name`.
pub fn greet(name: &str) -> (text: String)
    ensures
        text@ == "Hello, "@ + name@ + "! You've been greeted from Rust!"@,
{
    let mut text = String::from_str("Hello, ");
    text.append(name);
    text.append("! You've been greeted from Rust!");
    text
}

} // verus!
