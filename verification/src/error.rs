//! The closed set of failures that the worker distinguishes.

use vstd::prelude::*;

verus! {

/// A field that a builder may be asked to build without.
#[derive(Debug, Clone, Copy, PartialEq, Eq, Structural)]
pub enum Field {
    /// The worker's name, of a request.
    WorkerName,
    /// The maximal workload, of a request.
    MaxWorkLoad,
    /// The identifier span, of a result.
    Id,
    /// The grid dimensions, of a result.
    Resolution,
    /// The region of the plane, of a result.
    Range,
    /// The pixel span, of a result.
    Pixels,
}

/// An input that was refused before any network activity.
#[derive(Debug, Clone, Copy, PartialEq, Eq, Structural)]
pub enum ValidationError {
    /// A builder was asked to build while this field was not set.
    Missing(Field),
    /// The workload text is not a non-negative integer that fits 32 bits.
    InvalidWorkload,
    /// The port text is not an integer that fits 16 bits.
    InvalidPort,
    /// The target of a connection is not of the form `<ip>:<port>`.
    InvalidFormat,
    /// The address is neither `localhost` nor a dotted IPv4 address.
    InvalidAddress,
}

/// A message that does not follow the wire format.
#[derive(Debug, Clone, Copy, PartialEq, Eq, Structural)]
pub enum ProtocolError {
    /// The message would not fit the 32-bit length fields.
    FrameTooLarge,
    /// Fewer bytes than a header or a declared length asks for.
    Truncated,
    /// The declared JSON length exceeds the declared total length.
    LengthMismatch,
    /// The JSON text could not be parsed.
    MalformedJson,
    /// The JSON document has no `FragmentTask` member.
    MissingTask,
    /// The identifier span ends beyond the last 32-bit buffer position.
    SpanOverflow,
    /// A message could not be written as JSON text.
    EncodeFailed,
}

/// Every failure of a worker run, by kind.
#[derive(Debug, Clone, Copy, PartialEq, Eq, Structural)]
pub enum WorkerError {
    /// Connecting, reading or writing failed.
    Io,
    /// The peer sent something that is not a well-formed message.
    Protocol(ProtocolError),
    /// An input was refused before any network activity.
    Validation(ValidationError),
    /// The task names a fractal that has no generator.
    UnsupportedDescriptor,
}

impl Field {
    /// The field's name as it is shown to an operator.
    pub fn name(&self) -> (s: &'static str)
        ensures
            s@ == match *self {
                Field::WorkerName => "Worker name"@,
                Field::MaxWorkLoad => "Max work load"@,
                Field::Id => "Id"@,
                Field::Resolution => "Resolution"@,
                Field::Range => "Range"@,
                Field::Pixels => "Pixels"@,
            },
    {
        match self {
            Field::WorkerName => "Worker name",
            Field::MaxWorkLoad => "Max work load",
            Field::Id => "Id",
            Field::Resolution => "Resolution",
            Field::Range => "Range",
            Field::Pixels => "Pixels",
        }
    }
}

impl ValidationError {
    /// The message shown to an operator for this refusal.
    pub fn message(&self) -> (s: &'static str)
        ensures
            s@ == match *self {
                ValidationError::Missing(Field::WorkerName) => "Worker name is missing"@,
                ValidationError::Missing(Field::MaxWorkLoad) => "Max work load is missing"@,
                ValidationError::Missing(Field::Id) => "Id is missing"@,
                ValidationError::Missing(Field::Resolution) => "Resolution is missing"@,
                ValidationError::Missing(Field::Range) => "Range is missing"@,
                ValidationError::Missing(Field::Pixels) => "Pixels is missing"@,
                ValidationError::InvalidWorkload => "Invalid number for workload"@,
                ValidationError::InvalidPort => "Invalid number for port"@,
                ValidationError::InvalidFormat => "Invalid format. Use: worker connect <ip>:<port>"@,
                ValidationError::InvalidAddress => "Invalid IP address."@,
            },
    {
        match self {
            ValidationError::Missing(Field::WorkerName) => "Worker name is missing",
            ValidationError::Missing(Field::MaxWorkLoad) => "Max work load is missing",
            ValidationError::Missing(Field::Id) => "Id is missing",
            ValidationError::Missing(Field::Resolution) => "Resolution is missing",
            ValidationError::Missing(Field::Range) => "Range is missing",
            ValidationError::Missing(Field::Pixels) => "Pixels is missing",
            ValidationError::InvalidWorkload => "Invalid number for workload",
            ValidationError::InvalidPort => "Invalid number for port",
            ValidationError::InvalidFormat => "Invalid format. Use: worker connect <ip>:<port>",
            ValidationError::InvalidAddress => "Invalid IP address.",
        }
    }
}

} // verus!
