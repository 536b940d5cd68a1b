//! The errors that a call can end in.

use vstd::prelude::*;

verus! {

/// The exit code of a caller that may not make the call.
pub const USR_FORBIDDEN: u32 = 18;

/// The exit code of a state that cannot be read or written.
pub const USR_ILLEGAL_STATE: u32 = 20;

/// Why a call failed. `Forbidden` is the one authorization error; every other
/// variant is an illegal state and names the step that met it.
///
/// `CreateState`, `Greeting` and `Reply` stand for an error of the outside
/// encoder, which it gives only where memory cannot be reserved.
#[derive(Clone, Copy, Debug, PartialEq, Eq, Structural)]
pub enum ActorError {
    /// The caller is not the one that may initialize the actor.
    Forbidden,
    /// The empty map of a new state could not be written.
    CreateState,
    /// The root of the map could not be loaded.
    LoadMap,
    /// A node of the map on the key's path could not be loaded.
    ReadMap,
    /// The map could not be loaded, changed or written back.
    ModifyMap,
    /// The greeting could not be encoded.
    Greeting,
    /// The value of a reply could not be encoded.
    Reply,
}

impl ActorError {
    /// The error is an illegal state.
    pub open spec fn is_illegal_state(self) -> bool {
        self != ActorError::Forbidden
    }

    /// The exit code that the error carries.
    pub open spec fn code(self) -> u32 {
        if self == ActorError::Forbidden {
            USR_FORBIDDEN
        } else {
            USR_ILLEGAL_STATE
        }
    }

    /// The text that the error carries.
    pub open spec fn text(self) -> Seq<char> {
        match self {
            ActorError::Forbidden => "caller is not the init actor"@,
            ActorError::CreateState => "Failed to create actor state"@,
            ActorError::LoadMap => "Cannot load map"@,
            ActorError::ReadMap => "Cannot get value from hamt"@,
            ActorError::ModifyMap => "Cannot modify map"@,
            ActorError::Greeting => "Error in executing SayHello"@,
            ActorError::Reply => "Cannot serialize the reply"@,
        }
    }

    /// The exit code of the error.
    pub fn exit_code(&self) -> (code: u32)
        ensures
            code == self.code(),
            code == USR_FORBIDDEN || code == USR_ILLEGAL_STATE,
            code == USR_ILLEGAL_STATE <==> self.is_illegal_state(),
    {
        match self {
            ActorError::Forbidden => USR_FORBIDDEN,
            _ => USR_ILLEGAL_STATE,
        }
    }

    /// The message of the error.
    pub fn msg(&self) -> (text: &'static str)
        ensures
            text@ == self.text(),
    {
        match self {
            ActorError::Forbidden => "caller is not the init actor",
            ActorError::CreateState => "Failed to create actor state",
            ActorError::LoadMap => "Cannot load map",
            ActorError::ReadMap => "Cannot get value from hamt",
            ActorError::ModifyMap => "Cannot modify map",
            ActorError::Greeting => "Error in executing SayHello",
            ActorError::Reply => "Cannot serialize the reply",
        }
    }
}

} // verus!
