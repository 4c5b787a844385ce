//! The value side of a C boundary between a game engine and an embedded
//! game-logic module: the tags of its enums, the plain values that cross it,
//! the layout of every structure on it, a byte codec for its spatial values,
//! the lifecycle of a loaded module, the fill convention of caller-allocated
//! buffers, and the reading of line-trace answers.
use vstd::prelude::*;

pub mod abi;
pub mod buffer;
pub mod codec;
pub mod layout;
pub mod session;
pub mod tags;
pub mod trace;
pub mod values;

pub use crate::tags::{ActionState, ActorClass, ActorComponentType, ResultCode};
pub use crate::values::{
    ActorHandle, Color, ComponentRef, Entity, QuaternionBits, Uuid, Vector3Bits,
};

verus! {

} // verus!
