//! Client-side engine for an instant-messaging wire protocol: device identity,
//! packet kinds and the keys that seal them, and the login session state machine.
use vstd::prelude::*;

pub mod device;
pub mod engine;
pub mod packet;
pub mod wire;

verus! {

} // verus!
