//! Decision core of a remote command agent that listens on one MQTT topic:
//! which payloads are commands, what reply a finished command gets, and how
//! the broker session is connected, retried and torn down.
use vstd::prelude::*;

pub mod protocol;
pub mod reply;
pub mod session;
pub mod laws;

verus! {

} // verus!
