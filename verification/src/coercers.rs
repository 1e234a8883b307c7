//! Per-field value coercers. Each takes one whole `key=value` token (or, for
//! the lenient boolean, any token) and yields a typed value or a named
//! failure.

use vstd::prelude::*;
use vstd::string::StrSliceExecFns;
use vstd::string::StringExecFns;

use crate::errors::{ConfigError, IntErrorKind};
use crate::numparse::{i32_parse, parse_i32, parse_u64, u64_parse};
use crate::strutil::{
    contains_eq_from, exactly_one_eq, find_eq, has_eq, name_of, seq_eq_ci, str_eq, str_eq_ci,
    value_of,
};

verus! {

/// The guest components REST surface a configuration can select.
#[derive(Clone, Copy, Debug, PartialEq, Eq, Structural)]
pub enum GuestComponentsFeatures {
    All,
    Attestation,
    Resource,
}

/// The set of guest component processes spawned as children of the agent.
#[derive(Clone, Copy, Debug, PartialEq, Eq, Structural)]
pub enum GuestComponentsProcs {
    NoProcs,
    ApiServerRest,
    AttestationAgent,
    ConfidentialDataHub,
}

/// What extracting the value of a `name=value` token yields: the name must be
/// non-empty, the value is everything after the first `=` and must be
/// non-empty.
pub open spec fn string_value_of(t: Seq<char>) -> Result<Seq<char>, ConfigError> {
    if !has_eq(t) {
        Err(ConfigError::InvalidGetValueParam)
    } else if name_of(t).len() == 0 {
        Err(ConfigError::MissingName)
    } else if value_of(t).len() == 0 {
        Err(ConfigError::MissingValue)
    } else {
        Ok(value_of(t))
    }
}

/// The boolean a bare value denotes under the lenient rule: canonical `true`
/// or `false`, else a non-negative integer with zero meaning `false`, else
/// `false`.
pub open spec fn lenient_bool_value(v: Seq<char>) -> bool {
    if v == "true"@ {
        true
    } else if v == "false"@ {
        false
    } else {
        match u64_parse(v) {
            Ok(x) => x != 0,
            Err(_) => false,
        }
    }
}

/// The boolean a whole token denotes under the lenient rule: a token without
/// exactly two `=`-separated fields is `false`, never a failure.
pub open spec fn lenient_bool_of(t: Seq<char>) -> bool {
    if !exactly_one_eq(t) {
        false
    } else {
        lenient_bool_value(value_of(t))
    }
}

/// What a `key=<seconds>` timeout token yields: exactly two fields, one of
/// the two recognized timeout keys, and a non-negative number of seconds.
pub open spec fn timeout_of(t: Seq<char>) -> Result<u64, ConfigError> {
    if !exactly_one_eq(t) {
        Err(ConfigError::InvalidTimeout)
    } else if name_of(t) != "agent.hotplug_timeout"@ && name_of(t) != "agent.cdh_api_timeout"@ {
        Err(ConfigError::InvalidTimeoutKey)
    } else {
        match u64_parse(value_of(t)) {
            Ok(secs) => Ok(secs),
            Err(k) => Err(ConfigError::InvalidTimeoutParam(k)),
        }
    }
}

/// What a `key=<port>` vsock port token yields: exactly two fields and a
/// signed 32-bit value. Positivity is the caller's guard, not this coercer's.
pub open spec fn vsock_port_of(t: Seq<char>) -> Result<i32, ConfigError> {
    if !exactly_one_eq(t) {
        Err(ConfigError::InvalidPort)
    } else {
        match i32_parse(value_of(t)) {
            Ok(p) => Ok(p),
            Err(k) => Err(ConfigError::InvalidPortParam(k)),
        }
    }
}

/// What a pipe size token yields: exactly two fields, the pipe size key, and
/// a non-negative signed 32-bit value.
pub open spec fn pipe_size_of(t: Seq<char>) -> Result<i32, ConfigError> {
    if !exactly_one_eq(t) {
        Err(ConfigError::InvalidContainerPipeSize)
    } else if name_of(t) != "agent.container_pipe_size"@ {
        Err(ConfigError::InvalidContainerPipeSizeKey)
    } else {
        match i32_parse(value_of(t)) {
            Ok(v) => if v >= 0 {
                Ok(v)
            } else {
                Err(ConfigError::ContainerPipeSizeNegative)
            },
            Err(k) => Err(ConfigError::InvalidContainerPipeSizeParam(k)),
        }
    }
}

/// The REST surface a bare value names, matched case-insensitively, if any.
pub open spec fn features_value(v: Seq<char>) -> Option<GuestComponentsFeatures> {
    if seq_eq_ci(v, "all"@) {
        Some(GuestComponentsFeatures::All)
    } else if seq_eq_ci(v, "attestation"@) {
        Some(GuestComponentsFeatures::Attestation)
    } else if seq_eq_ci(v, "resource"@) {
        Some(GuestComponentsFeatures::Resource)
    } else {
        None
    }
}

/// What a guest components REST API token yields: the generic string
/// extraction (with its three shape errors), then the fixed case-insensitive
/// vocabulary.
pub open spec fn features_of(t: Seq<char>) -> Result<GuestComponentsFeatures, ConfigError> {
    match string_value_of(t) {
        Ok(v) => match features_value(v) {
            Some(f) => Ok(f),
            None => Err(ConfigError::InvalidGuestComponentsRestApi),
        },
        Err(e) => Err(e),
    }
}

/// The process set a bare value names, matched case-insensitively, if any.
pub open spec fn procs_value(v: Seq<char>) -> Option<GuestComponentsProcs> {
    if seq_eq_ci(v, "none"@) {
        Some(GuestComponentsProcs::NoProcs)
    } else if seq_eq_ci(v, "api-server-rest"@) {
        Some(GuestComponentsProcs::ApiServerRest)
    } else if seq_eq_ci(v, "attestation-agent"@) {
        Some(GuestComponentsProcs::AttestationAgent)
    } else if seq_eq_ci(v, "confidential-data-hub"@) {
        Some(GuestComponentsProcs::ConfidentialDataHub)
    } else {
        None
    }
}

/// What a guest components process token yields, shaped as `features_of`.
pub open spec fn procs_of(t: Seq<char>) -> Result<GuestComponentsProcs, ConfigError> {
    match string_value_of(t) {
        Ok(v) => match procs_value(v) {
            Some(p) => Ok(p),
            None => Err(ConfigError::InvalidGuestComponentsProcs),
        },
        Err(e) => Err(e),
    }
}

/// The canonical text a well-formed URL renders back to, or nothing when the
/// text is not a well-formed URL. Named, not stated: the URL grammar and its
/// normalization live in the `url` crate.
pub uninterp spec fn url_normal_form(s: Seq<char>) -> Option<Seq<char>>;

/// What an HTTPS proxy token yields: the generic string extraction, then the
/// URL re-rendered in its canonical form.
pub open spec fn url_value_of(t: Seq<char>) -> Result<Seq<char>, ConfigError> {
    match string_value_of(t) {
        Ok(v) => match url_normal_form(v) {
            Some(u) => Ok(u),
            None => Err(ConfigError::InvalidUrl),
        },
        Err(e) => Err(e),
    }
}

/// Return the value from a `name=value` token. The value may itself contain
/// any number of `=` characters; a name and a non-empty value are required.
pub fn get_string_value(param: &str) -> (r: Result<String, ConfigError>)
    ensures
        ({
            let sv = string_value_of(param@);
            match r {
                Ok(v) => sv == Ok::<Seq<char>, ConfigError>(v@),
                Err(e) => sv == Err::<Seq<char>, ConfigError>(e),
            }
        }),
{
    let n = param.unicode_len();
    match find_eq(param) {
        None => Err(ConfigError::InvalidGetValueParam),
        Some(i) => {
            if i == 0 {
                return Err(ConfigError::MissingName);
            }
            if i + 1 == n {
                return Err(ConfigError::MissingValue);
            }
            Ok(String::from_str(param.substring_char(i + 1, n)))
        },
    }
}

/// Coerce a token to a boolean under the lenient rule. Total: the result is
/// always `Ok`, and an unparseable value yields `false`.
pub fn get_bool_value(param: &str) -> (r: Result<bool, ConfigError>)
    ensures
        r == Ok::<bool, ConfigError>(lenient_bool_of(param@)),
{
    let n = param.unicode_len();
    match find_eq(param) {
        None => Ok(false),
        Some(i) => {
            if contains_eq_from(param, i + 1) {
                return Ok(false);
            }
            let v = param.substring_char(i + 1, n);
            if str_eq(v, "true") {
                Ok(true)
            } else if str_eq(v, "false") {
                Ok(false)
            } else {
                match parse_u64(v) {
                    Ok(x) => Ok(x != 0),
                    Err(_) => Ok(false),
                }
            }
        },
    }
}

/// Extract the number of seconds from a timeout token. Whether zero is
/// accepted is the caller's guard.
pub fn get_timeout(param: &str) -> (r: Result<u64, ConfigError>)
    ensures
        r == timeout_of(param@),
{
    let n = param.unicode_len();
    match find_eq(param) {
        None => Err(ConfigError::InvalidTimeout),
        Some(i) => {
            if contains_eq_from(param, i + 1) {
                return Err(ConfigError::InvalidTimeout);
            }
            let name = param.substring_char(0, i);
            if !str_eq(name, "agent.hotplug_timeout") && !str_eq(name, "agent.cdh_api_timeout") {
                return Err(ConfigError::InvalidTimeoutKey);
            }
            match parse_u64(param.substring_char(i + 1, n)) {
                Ok(secs) => Ok(secs),
                Err(k) => Err(ConfigError::InvalidTimeoutParam(k)),
            }
        },
    }
}

/// Extract the signed 32-bit port from a vsock port token. Positivity is the
/// caller's guard.
pub fn get_vsock_port(p: &str) -> (r: Result<i32, ConfigError>)
    ensures
        r == vsock_port_of(p@),
{
    let n = p.unicode_len();
    match find_eq(p) {
        None => Err(ConfigError::InvalidPort),
        Some(i) => {
            if contains_eq_from(p, i + 1) {
                return Err(ConfigError::InvalidPort);
            }
            match parse_i32(p.substring_char(i + 1, n)) {
                Ok(v) => Ok(v),
                Err(k) => Err(ConfigError::InvalidPortParam(k)),
            }
        },
    }
}

/// Extract the pipe size from a pipe size token, rejecting negatives.
pub fn get_container_pipe_size(param: &str) -> (r: Result<i32, ConfigError>)
    ensures
        r == pipe_size_of(param@),
{
    let n = param.unicode_len();
    match find_eq(param) {
        None => Err(ConfigError::InvalidContainerPipeSize),
        Some(i) => {
            if contains_eq_from(param, i + 1) {
                return Err(ConfigError::InvalidContainerPipeSize);
            }
            let name = param.substring_char(0, i);
            if !str_eq(name, "agent.container_pipe_size") {
                return Err(ConfigError::InvalidContainerPipeSizeKey);
            }
            match parse_i32(param.substring_char(i + 1, n)) {
                Ok(v) => {
                    if v >= 0 {
                        Ok(v)
                    } else {
                        Err(ConfigError::ContainerPipeSizeNegative)
                    }
                },
                Err(k) => Err(ConfigError::InvalidContainerPipeSizeParam(k)),
            }
        },
    }
}

/// Extract the REST surface from a guest components REST API token.
pub fn get_guest_components_features_value(param: &str) -> (r: Result<
    GuestComponentsFeatures,
    ConfigError,
>)
    ensures
        r == features_of(param@),
{
    let value = match get_string_value(param) {
        Ok(v) => v,
        Err(e) => {
            return Err(e);
        },
    };
    if str_eq_ci(value.as_str(), "all") {
        Ok(GuestComponentsFeatures::All)
    } else if str_eq_ci(value.as_str(), "attestation") {
        Ok(GuestComponentsFeatures::Attestation)
    } else if str_eq_ci(value.as_str(), "resource") {
        Ok(GuestComponentsFeatures::Resource)
    } else {
        Err(ConfigError::InvalidGuestComponentsRestApi)
    }
}

/// Extract the process set from a guest components process token.
pub fn get_guest_components_procs_value(param: &str) -> (r: Result<
    GuestComponentsProcs,
    ConfigError,
>)
    ensures
        r == procs_of(param@),
{
    let value = match get_string_value(param) {
        Ok(v) => v,
        Err(e) => {
            return Err(e);
        },
    };
    if str_eq_ci(value.as_str(), "none") {
        Ok(GuestComponentsProcs::NoProcs)
    } else if str_eq_ci(value.as_str(), "api-server-rest") {
        Ok(GuestComponentsProcs::ApiServerRest)
    } else if str_eq_ci(value.as_str(), "attestation-agent") {
        Ok(GuestComponentsProcs::AttestationAgent)
    } else if str_eq_ci(value.as_str(), "confidential-data-hub") {
        Ok(GuestComponentsProcs::ConfidentialDataHub)
    } else {
        Err(ConfigError::InvalidGuestComponentsProcs)
    }
}

/// The error variants the `url` crate's parser can report. The value only
/// passes through; the resolution engine maps any of them to `InvalidUrl`.
#[verifier::external_type_specification]
#[verifier::external_body]
pub struct ExUrlParseError(url::ParseError);

/// Relies on `url::Url::parse` and on `url::Url`'s `Display`, which renders
/// the parsed URL's normalized serialization. Both depend on the input text
/// alone, so together they realize `url_normal_form`.
#[verifier::external_body]
fn parse_and_render_url(value: &str) -> (r: Result<String, url::ParseError>)
    ensures
        r matches Ok(u) ==> url_normal_form(value@) == Some(u@),
        r is Err ==> url_normal_form(value@) is None,
{
    match url::Url::parse(value) {
        Ok(u) => Ok(u.to_string()),
        Err(e) => Err(e),
    }
}

/// Extract a URL-valued field: the generic string extraction, then the URL
/// re-rendered in its canonical textual form.
pub fn get_url_value(param: &str) -> (r: Result<String, ConfigError>)
    ensures
        ({
            let uv = url_value_of(param@);
            match r {
                Ok(v) => uv == Ok::<Seq<char>, ConfigError>(v@),
                Err(e) => uv == Err::<Seq<char>, ConfigError>(e),
            }
        }),
{
    let value = match get_string_value(param) {
        Ok(v) => v,
        Err(e) => {
            return Err(e);
        },
    };
    match parse_and_render_url(value.as_str()) {
        Ok(u) => Ok(u),
        Err(_) => Err(ConfigError::InvalidUrl),
    }
}

} // verus!
