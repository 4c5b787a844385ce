use vstd::prelude::*;

verus! {

/// Outcome of a lifecycle call (`begin_play`, `tick`) that the engine makes
/// into the module. On the boundary it is one byte: `0` or `1`.
#[derive(Debug, Clone, Copy, PartialEq, Eq, Structural)]
pub enum ResultCode {
    Success,
    Panic,
}

/// State of a named input action, as the engine reports it. One byte.
#[derive(Debug, Clone, Copy, PartialEq, Eq, Structural)]
pub enum ActionState {
    Pressed,
    Released,
    Held,
    Nothing,
}

/// Class of actor that the engine is asked to spawn. A 32-bit tag.
#[derive(Debug, Clone, Copy, PartialEq, Eq, Structural)]
pub enum ActorClass {
    RustActor,
    CameraActor,
}

/// Kind of engine component behind a component reference. A 32-bit tag.
#[derive(Debug, Clone, Copy, PartialEq, Eq, Structural)]
pub enum ActorComponentType {
    Primitive,
}

impl ResultCode {
    pub open spec fn spec_tag(self) -> u8 {
        match self {
            ResultCode::Success => 0,
            ResultCode::Panic => 1,
        }
    }

    pub open spec fn spec_from_tag(t: u8) -> Option<ResultCode> {
        if t == 0 {
            Some(ResultCode::Success)
        } else if t == 1 {
            Some(ResultCode::Panic)
        } else {
            None
        }
    }

    /// The byte that stands for this code on the boundary.
    pub fn tag(self) -> (r: u8)
        ensures
            r == self.spec_tag(),
    {
        match self {
            ResultCode::Success => 0,
            ResultCode::Panic => 1,
        }
    }

    /// Reads a code from its byte; a byte that names no code gives `None`.
    pub fn from_tag(t: u8) -> (r: Option<ResultCode>)
        ensures
            r == Self::spec_from_tag(t),
    {
        match t {
            0 => Some(ResultCode::Success),
            1 => Some(ResultCode::Panic),
            _ => None,
        }
    }
}

impl ActionState {
    pub open spec fn spec_tag(self) -> u8 {
        match self {
            ActionState::Pressed => 0,
            ActionState::Released => 1,
            ActionState::Held => 2,
            ActionState::Nothing => 3,
        }
    }

    pub open spec fn spec_from_tag(t: u8) -> Option<ActionState> {
        if t == 0 {
            Some(ActionState::Pressed)
        } else if t == 1 {
            Some(ActionState::Released)
        } else if t == 2 {
            Some(ActionState::Held)
        } else if t == 3 {
            Some(ActionState::Nothing)
        } else {
            None
        }
    }

    /// The byte that stands for this state on the boundary.
    pub fn tag(self) -> (r: u8)
        ensures
            r == self.spec_tag(),
    {
        match self {
            ActionState::Pressed => 0,
            ActionState::Released => 1,
            ActionState::Held => 2,
            ActionState::Nothing => 3,
        }
    }

    /// Reads a state from its byte; a byte that names no state gives `None`.
    pub fn from_tag(t: u8) -> (r: Option<ActionState>)
        ensures
            r == Self::spec_from_tag(t),
    {
        match t {
            0 => Some(ActionState::Pressed),
            1 => Some(ActionState::Released),
            2 => Some(ActionState::Held),
            3 => Some(ActionState::Nothing),
            _ => None,
        }
    }
}

impl ActorClass {
    pub open spec fn spec_tag(self) -> u32 {
        match self {
            ActorClass::RustActor => 0,
            ActorClass::CameraActor => 1,
        }
    }

    pub open spec fn spec_from_tag(t: u32) -> Option<ActorClass> {
        if t == 0 {
            Some(ActorClass::RustActor)
        } else if t == 1 {
            Some(ActorClass::CameraActor)
        } else {
            None
        }
    }

    /// The 32-bit tag that stands for this class on the boundary.
    pub fn tag(self) -> (r: u32)
        ensures
            r == self.spec_tag(),
    {
        match self {
            ActorClass::RustActor => 0,
            ActorClass::CameraActor => 1,
        }
    }

    /// Reads a class from its tag; a tag that names no class gives `None`.
    pub fn from_tag(t: u32) -> (r: Option<ActorClass>)
        ensures
            r == Self::spec_from_tag(t),
    {
        match t {
            0 => Some(ActorClass::RustActor),
            1 => Some(ActorClass::CameraActor),
            _ => None,
        }
    }
}

impl ActorComponentType {
    pub open spec fn spec_tag(self) -> u32 {
        match self {
            ActorComponentType::Primitive => 0,
        }
    }

    pub open spec fn spec_from_tag(t: u32) -> Option<ActorComponentType> {
        if t == 0 {
            Some(ActorComponentType::Primitive)
        } else {
            None
        }
    }

    /// The 32-bit tag that stands for this component type on the boundary.
    pub fn tag(self) -> (r: u32)
        ensures
            r == self.spec_tag(),
    {
        match self {
            ActorComponentType::Primitive => 0,
        }
    }

    /// Reads a component type from its tag; an unknown tag gives `None`.
    pub fn from_tag(t: u32) -> (r: Option<ActorComponentType>)
        ensures
            r == Self::spec_from_tag(t),
    {
        match t {
            0 => Some(ActorComponentType::Primitive),
            _ => None,
        }
    }
}

/// Every result code survives a trip through its byte, and a byte that is
/// read as a code is that code's byte.
pub proof fn lemma_result_code_tag_round_trip(c: ResultCode, t: u8)
    ensures
        ResultCode::spec_from_tag(c.spec_tag()) == Some(c),
        ResultCode::spec_from_tag(t) matches Some(d) ==> d.spec_tag() == t,
{
}

/// Every action state survives a trip through its byte, and a byte that is
/// read as a state is that state's byte.
pub proof fn lemma_action_state_tag_round_trip(s: ActionState, t: u8)
    ensures
        ActionState::spec_from_tag(s.spec_tag()) == Some(s),
        ActionState::spec_from_tag(t) matches Some(d) ==> d.spec_tag() == t,
{
}

/// Every actor class survives a trip through its tag, and a tag that is
/// read as a class is that class's tag.
pub proof fn lemma_actor_class_tag_round_trip(c: ActorClass, t: u32)
    ensures
        ActorClass::spec_from_tag(c.spec_tag()) == Some(c),
        ActorClass::spec_from_tag(t) matches Some(d) ==> d.spec_tag() == t,
{
}

/// Every component type survives a trip through its tag, and a tag that is
/// read as a component type is that type's tag.
pub proof fn lemma_component_type_tag_round_trip(c: ActorComponentType, t: u32)
    ensures
        ActorComponentType::spec_from_tag(c.spec_tag()) == Some(c),
        ActorComponentType::spec_from_tag(t) matches Some(d) ==> d.spec_tag() == t,
{
}

} // verus!
