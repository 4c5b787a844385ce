use crate::tags::ActorComponentType;
use vstd::prelude::*;

verus! {

/// Handle that ties an engine actor to module-side game state.
#[derive(Debug, Clone, Copy, PartialEq, Eq, Structural)]
pub struct Entity {
    pub id: u64,
}

/// An RGBA colour, one byte per channel.
#[derive(Debug, Clone, Copy, PartialEq, Eq, Structural)]
pub struct Color {
    pub r: u8,
    pub g: u8,
    pub b: u8,
    pub a: u8,
}

impl Color {
    /// Opaque red.
    pub fn red() -> (c: Color)
        ensures
            c.r == 255 && c.g == 0 && c.b == 0 && c.a == 255,
    {
        Color { r: 255, g: 0, b: 0, a: 255 }
    }
}

/// A 128-bit identifier of a module-side entity.
#[derive(Debug, Clone, Copy, PartialEq, Eq)]
pub struct Uuid {
    pub bytes: [u8; 16],
}

/// A three-component vector as it crosses the boundary: the bit pattern of
/// each 32-bit float component, unchanged.
#[derive(Debug, Clone, Copy, PartialEq, Eq, Structural)]
pub struct Vector3Bits {
    pub x: u32,
    pub y: u32,
    pub z: u32,
}

/// A rotation quaternion as it crosses the boundary: the bit pattern of each
/// 32-bit float component, unchanged. Normalisation is the caller's affair.
#[derive(Debug, Clone, Copy, PartialEq, Eq, Structural)]
pub struct QuaternionBits {
    pub x: u32,
    pub y: u32,
    pub z: u32,
    pub w: u32,
}

/// The address of an engine-owned actor. The module only borrows it; zero
/// is the null handle.
#[derive(Debug, Clone, Copy, PartialEq, Eq, Structural)]
pub struct ActorHandle {
    pub addr: usize,
}

impl ActorHandle {
    pub open spec fn spec_is_null(self) -> bool {
        self.addr == 0
    }

    pub fn null() -> (r: ActorHandle)
        ensures
            r.spec_is_null(),
    {
        ActorHandle { addr: 0 }
    }

    pub fn is_null(&self) -> (r: bool)
        ensures
            r == self.spec_is_null(),
    {
        self.addr == 0
    }
}

/// A reference to an engine component: its kind and its address. The
/// module only borrows it.
#[derive(Debug, Clone, Copy, PartialEq, Eq, Structural)]
pub struct ComponentRef {
    pub ty: ActorComponentType,
    pub addr: usize,
}

impl ComponentRef {
    /// Reads a component reference from its boundary form, a 32-bit kind tag
    /// and an address; a tag that names no kind gives `None`.
    pub fn from_raw(tag: u32, addr: usize) -> (r: Option<ComponentRef>)
        ensures
            r == match ActorComponentType::spec_from_tag(tag) {
                Some(ty) => Some(ComponentRef { ty, addr }),
                None => None,
            },
    {
        match ActorComponentType::from_tag(tag) {
            Some(ty) => Some(ComponentRef { ty, addr }),
            None => None,
        }
    }

    /// The boundary form: the kind's tag and the address.
    pub fn to_raw(&self) -> (r: (u32, usize))
        ensures
            r == (self.ty.spec_tag(), self.addr),
    {
        (self.ty.tag(), self.addr)
    }
}

} // verus!
