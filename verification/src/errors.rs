//! The errors a probe invocation can end in, and their one-line
//! human-readable messages.

use vstd::prelude::*;
use vstd::string::StrSliceExecFns;
use vstd::string::StringExecFns;

verus! {

/// An error while generating installer shell code.
#[derive(Debug, PartialEq, Eq)]
pub enum ShellCodeError {
    /// An underlying read or write failed; holds the failure's text.
    IO(String),
    /// The program's name or path is not representable as text, or failed
    /// the safety whitelist; holds a description.
    Encoding(String),
}

/// The message of a shell-code error.
pub open spec fn shell_code_message(e: ShellCodeError) -> Seq<char> {
    match e {
        ShellCodeError::IO(text) => "IO error: "@ + text@,
        ShellCodeError::Encoding(text) => "Encoding error: "@ + text@,
    }
}

impl ShellCodeError {
    /// The one-line human-readable message of this error.
    pub fn message(&self) -> (r: String)
        ensures
            r@ == shell_code_message(*self),
    {
        match self {
            ShellCodeError::IO(text) => String::from_str("IO error: ").concat(text.as_str()),
            ShellCodeError::Encoding(text) => String::from_str("Encoding error: ").concat(
                text.as_str(),
            ),
        }
    }
}

/// An error while handling a completion probe.
#[derive(Debug, PartialEq, Eq)]
pub enum CompletersError {
    /// Generating installer shell code failed.
    ShellCode(ShellCodeError),
    /// The probe supplied fewer than the five mandatory positional fields.
    MissingField,
    /// A positional field failed to parse or did not match its enumeration.
    InvalidValue {
        /// The field that holds the invalid value.
        field: String,
        /// The invalid value as it arrived.
        value: String,
        /// What was wrong with it.
        what: String,
    },
    /// The mode environment variable is set to an unsupported value.
    UnrecognizedEnvVar(String),
    /// A custom message from the application's own handler.
    Custom(String),
}

/// The message of a completion error.
pub open spec fn completers_message(e: CompletersError) -> Seq<char> {
    match e {
        CompletersError::ShellCode(inner) => "Shell code error: "@ + shell_code_message(inner),
        CompletersError::MissingField => "Missing required field"@,
        CompletersError::InvalidValue { field, value, what } => "Invalid value for field "@
            + field@ + ": "@ + value@ + " ("@ + what@ + ")"@,
        CompletersError::UnrecognizedEnvVar(value) => "Unrecognized environment variable value: "@
            + value@,
        CompletersError::Custom(message) => "Custom error: "@ + message@,
    }
}

impl CompletersError {
    /// The one-line human-readable message of this error, with enough
    /// context — field name, offending raw value, underlying cause — to
    /// debug a misconfigured shell integration.
    pub fn message(&self) -> (r: String)
        ensures
            r@ == completers_message(*self),
    {
        match self {
            CompletersError::ShellCode(inner) => {
                let tail = inner.message();
                String::from_str("Shell code error: ").concat(tail.as_str())
            },
            CompletersError::MissingField => String::from_str("Missing required field"),
            CompletersError::InvalidValue { field, value, what } => {
                let mut r = String::from_str("Invalid value for field ");
                r.append(field.as_str());
                r.append(": ");
                r.append(value.as_str());
                r.append(" (");
                r.append(what.as_str());
                r.append(")");
                r
            },
            CompletersError::UnrecognizedEnvVar(value) => String::from_str(
                "Unrecognized environment variable value: ",
            ).concat(value.as_str()),
            CompletersError::Custom(message) => String::from_str("Custom error: ").concat(
                message.as_str(),
            ),
        }
    }
}

impl From<ShellCodeError> for CompletersError {
    /// Wraps a shell-code error.
    fn from(err: ShellCodeError) -> (r: Self)
        ensures
            r == CompletersError::ShellCode(err),
    {
        CompletersError::ShellCode(err)
    }
}

impl vstd::std_specs::convert::FromSpecImpl<ShellCodeError> for CompletersError {
    open spec fn obeys_from_spec() -> bool {
        true
    }

    open spec fn from_spec(err: ShellCodeError) -> Self {
        CompletersError::ShellCode(err)
    }
}

} // verus!
