use vstd::prelude::*;

verus! {

/// Why a decimal integer field failed to parse. The cases mirror the ones a
/// caller can observe from std's integer parsing: an empty field, a character
/// that is no digit (a sign with nothing after it counts as such a character),
/// and a value too large or too small for the target type.
#[derive(Clone, Copy, Debug, PartialEq, Eq, Structural)]
pub enum IntErrorKind {
    Empty,
    InvalidDigit,
    PosOverflow,
    NegOverflow,
}

/// Every error the resolution engine can surface. Any of these aborts the
/// whole resolution; guard rejections and unrecognized tokens are not errors
/// and never produce one.
#[derive(Clone, Copy, Debug, PartialEq, Eq, Structural)]
pub enum ConfigError {
    /// A log level name outside the recognized vocabulary.
    InvalidLogLevel,
    /// A log level token that does not have exactly two `=`-separated fields.
    InvalidLogLevelParam,
    /// A log level token whose key is not the log level key.
    InvalidLogLevelKey,
    /// A timeout token that does not have exactly two `=`-separated fields.
    InvalidTimeout,
    /// A timeout token whose key is neither recognized timeout key.
    InvalidTimeoutKey,
    /// A timeout value that is not a non-negative integer number of seconds.
    InvalidTimeoutParam(IntErrorKind),
    /// A vsock port token that does not have exactly two `=`-separated fields.
    InvalidPort,
    /// A vsock port value that is not a signed 32-bit integer.
    InvalidPortParam(IntErrorKind),
    /// A `name=value` token without any `=`.
    InvalidGetValueParam,
    /// A `name=value` token with an empty name.
    MissingName,
    /// A `name=value` token with an empty value.
    MissingValue,
    /// A pipe size token that does not have exactly two `=`-separated fields.
    InvalidContainerPipeSize,
    /// A pipe size token whose key is not the pipe size key.
    InvalidContainerPipeSizeKey,
    /// A pipe size value that is not a signed 32-bit integer.
    InvalidContainerPipeSizeParam(IntErrorKind),
    /// A pipe size value that parsed but is negative.
    ContainerPipeSizeNegative,
    /// A guest components REST API value outside `all|attestation|resource`.
    InvalidGuestComponentsRestApi,
    /// A guest components process value outside the recognized set.
    InvalidGuestComponentsProcs,
    /// An HTTPS proxy value that is not a well-formed URL.
    InvalidUrl,
}

} // verus!
