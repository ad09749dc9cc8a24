use crate::driver::packed_version;
use vstd::prelude::*;

verus! {

/// Message type bit: a general message.
pub const MESSAGE_TYPE_GENERAL: u32 = 0x1;

/// Message type bit: a message of the validation layers.
pub const MESSAGE_TYPE_VALIDATION: u32 = 0x2;

/// Message type bit: a hint on performance.
pub const MESSAGE_TYPE_PERFORMANCE: u32 = 0x4;

/// Severity bit: a verbose message.
pub const SEVERITY_VERBOSE: u32 = 0x1;

/// Severity bit: an information.
pub const SEVERITY_INFO: u32 = 0x10;

/// Severity bit: a warning.
pub const SEVERITY_WARNING: u32 = 0x100;

/// Severity bit: an error.
pub const SEVERITY_ERROR: u32 = 0x1000;

/// The level at which a message is logged.
#[derive(Clone, Copy, Debug, PartialEq, Eq, Structural)]
pub enum LogLevel {
    Debug,
    Info,
    Warn,
    Error,
}

/// The application's version as the instance takes it.
pub fn application_version(major: u32, minor: u32, patch: u32) -> (r: u32)
    ensures
        r == packed_version(0, major, minor, patch),
{
    ash::vk::make_api_version(0, major, minor, patch)
}

/// The severities that the debug messenger asks for.
pub fn debug_messenger_severities() -> (r: u32)
    ensures
        r == SEVERITY_VERBOSE | SEVERITY_WARNING | SEVERITY_ERROR,
{
    SEVERITY_VERBOSE | SEVERITY_WARNING | SEVERITY_ERROR
}

/// The message types that the debug messenger asks for.
pub fn debug_messenger_types() -> (r: u32)
    ensures
        r == MESSAGE_TYPE_GENERAL | MESSAGE_TYPE_VALIDATION | MESSAGE_TYPE_PERFORMANCE,
{
    MESSAGE_TYPE_GENERAL | MESSAGE_TYPE_VALIDATION | MESSAGE_TYPE_PERFORMANCE
}

/// The tag of a debug message by its type.
pub open spec fn label_of(message_types: u32) -> Seq<char> {
    if message_types == MESSAGE_TYPE_GENERAL {
        "[General]"@
    } else if message_types == MESSAGE_TYPE_VALIDATION {
        "[Validation]"@
    } else if message_types == MESSAGE_TYPE_PERFORMANCE {
        "[Performance]"@
    } else {
        "[Unknown]"@
    }
}

/// The level of a debug message by its severity: a severity that is
/// none of the four known ones is logged as an error.
pub open spec fn level_of(severity: u32) -> LogLevel {
    if severity == SEVERITY_VERBOSE {
        LogLevel::Debug
    } else if severity == SEVERITY_INFO {
        LogLevel::Info
    } else if severity == SEVERITY_WARNING {
        LogLevel::Warn
    } else {
        LogLevel::Error
    }
}

/// The severity is one of the four known ones.
pub open spec fn is_known_severity(severity: u32) -> bool {
    severity == SEVERITY_VERBOSE || severity == SEVERITY_INFO || severity == SEVERITY_WARNING
        || severity == SEVERITY_ERROR
}

/// The tag under which a debug message of this type is logged.
pub fn debug_message_label(message_types: u32) -> (r: &'static str)
    ensures
        r@ == label_of(message_types),
{
    if message_types == MESSAGE_TYPE_GENERAL {
        "[General]"
    } else if message_types == MESSAGE_TYPE_VALIDATION {
        "[Validation]"
    } else if message_types == MESSAGE_TYPE_PERFORMANCE {
        "[Performance]"
    } else {
        "[Unknown]"
    }
}

/// The level at which a debug message of this severity is logged, and
/// whether the severity is a known one.
pub fn debug_message_level(severity: u32) -> (r: (LogLevel, bool))
    ensures
        r.0 == level_of(severity),
        r.1 == is_known_severity(severity),
{
    if severity == SEVERITY_VERBOSE {
        (LogLevel::Debug, true)
    } else if severity == SEVERITY_INFO {
        (LogLevel::Info, true)
    } else if severity == SEVERITY_WARNING {
        (LogLevel::Warn, true)
    } else if severity == SEVERITY_ERROR {
        (LogLevel::Error, true)
    } else {
        (LogLevel::Error, false)
    }
}

} // verus!
