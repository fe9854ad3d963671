//! SocketCAN support.
use vstd::prelude::*;

pub mod id;
pub mod errors;
pub mod io;
pub mod text;
pub mod frame;
pub mod dump;
pub mod nl;
pub mod socket;
pub mod err;
pub mod timestamp;

verus! {

} // verus!
