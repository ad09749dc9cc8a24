use crate::frame::EXIT_FAILURE;
use vstd::prelude::*;
use vstd::string::StringExecFns;

verus! {

/// What ends the program before or while it draws.
#[derive(Clone, Debug, PartialEq, Eq)]
pub enum FatalError {
    /// Instance extensions are missing; `names` is the line of their names.
    MissingExtensions { names: String },
    /// Validation layers are missing; `names` is the line of their names.
    MissingValidationLayers { names: String },
    /// No physical device can draw and present.
    NoSuitableDevice,
    /// A graphics call failed; `call` says which.
    GraphicsCall { call: String },
}

impl FatalError {
    /// What is said of the error.
    pub open spec fn spec_message(&self) -> Seq<char> {
        match self {
            FatalError::MissingExtensions { names } => "Missing extensions: "@ + names@,
            FatalError::MissingValidationLayers { names } => "Missing validation layers: "@
                + names@,
            FatalError::NoSuitableDevice => "Failed to find a suitable device."@,
            FatalError::GraphicsCall { call } => "Graphics call failed: "@ + call@,
        }
    }

    /// What is said of the error: it names what is missing or what failed.
    pub fn message(&self) -> (r: String)
        ensures
            r@ == self.spec_message(),
    {
        match self {
            FatalError::MissingExtensions { names } => {
                let mut message = "Missing extensions: ".to_owned();
                message.append(names.as_str());
                message
            },
            FatalError::MissingValidationLayers { names } => {
                let mut message = "Missing validation layers: ".to_owned();
                message.append(names.as_str());
                message
            },
            FatalError::NoSuitableDevice => "Failed to find a suitable device.".to_owned(),
            FatalError::GraphicsCall { call } => {
                let mut message = "Graphics call failed: ".to_owned();
                message.append(call.as_str());
                message
            },
        }
    }

    /// The code with which the program ends on the error: never zero.
    pub fn exit_code(&self) -> (r: i32)
        ensures
            r == EXIT_FAILURE,
            r != 0,
    {
        EXIT_FAILURE
    }
}

} // verus!
