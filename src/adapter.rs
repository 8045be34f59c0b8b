//! The interface that request builders share, and its error type.

use vstd::prelude::*;

use crate::cli::{CliRequest, CliRequestError};
use crate::context::ExecutionContext;
use crate::text::{concat, owned, push_text};
use crate::web::{WebRequest, WebRequestError};

verus! {

/// Why an adapter could not build an execution context.
#[derive(Debug, Clone)]
pub enum AdapterError {
    ScriptNotFound(String),
    MissingConfiguration(String),
    InvalidConfiguration { field: String, value: String, reason: String },
    Web(WebRequestError),
    Cli(CliRequestError),
}

/// The error that an adapter error wraps.
#[derive(Debug)]
pub enum ErrorSource<'a> {
    Web(&'a WebRequestError),
    Cli(&'a CliRequestError),
}

impl AdapterError {
    /// A sentence for people.
    pub fn to_string(&self) -> (r: String)
        ensures
            match self {
                AdapterError::ScriptNotFound(p) => r@ == "Script not found: "@ + p@,
                AdapterError::MissingConfiguration(f) => r@ == "Missing required configuration: "@
                    + f@,
                AdapterError::InvalidConfiguration { field, value, reason } => r@
                    == "Invalid configuration for '"@ + field@ + "' = '"@ + value@ + "': "@
                    + reason@,
                _ => true,
            },
    {
        match self {
            AdapterError::ScriptNotFound(p) => concat("Script not found: ", p.as_str()),
            AdapterError::MissingConfiguration(f) => concat(
                "Missing required configuration: ",
                f.as_str(),
            ),
            AdapterError::InvalidConfiguration { field, value, reason } => {
                let mut r = concat("Invalid configuration for '", field.as_str());
                push_text(&mut r, "' = '");
                push_text(&mut r, value.as_str());
                push_text(&mut r, "': ");
                push_text(&mut r, reason.as_str());
                r
            },
            AdapterError::Web(e) => e.to_string(),
            AdapterError::Cli(e) => e.to_string(),
        }
    }

    /// The wrapped builder error, if any.
    pub fn source(&self) -> (r: Option<ErrorSource<'_>>)
        ensures
            r is Some <==> (self is Web || self is Cli),
    {
        match self {
            AdapterError::Web(e) => Some(ErrorSource::Web(e)),
            AdapterError::Cli(e) => Some(ErrorSource::Cli(e)),
            _ => None,
        }
    }
}

impl From<WebRequestError> for AdapterError {
    fn from(e: WebRequestError) -> Self {
        AdapterError::Web(e)
    }
}

impl vstd::std_specs::convert::FromSpecImpl<WebRequestError> for AdapterError {
    open spec fn obeys_from_spec() -> bool {
        true
    }

    open spec fn from_spec(e: WebRequestError) -> Self {
        AdapterError::Web(e)
    }
}

impl From<CliRequestError> for AdapterError {
    fn from(e: CliRequestError) -> Self {
        AdapterError::Cli(e)
    }
}

impl vstd::std_specs::convert::FromSpecImpl<CliRequestError> for AdapterError {
    open spec fn obeys_from_spec() -> bool {
        true
    }

    open spec fn from_spec(e: CliRequestError) -> Self {
        AdapterError::Cli(e)
    }
}

/// A builder that turns some request into an execution context, with the
/// checks that builders share.
pub trait PhpSapiAdapter: Sized {
    /// Builds the context for the script at `script_path`; `resolved` is
    /// the script's canonical path where it exists, `None` where it does not.
    fn build(self, script_path: &str, resolved: Option<String>) -> Result<ExecutionContext, AdapterError>;

    /// The script's path, where it exists.
    fn validate_script_path(script_path: &str, resolved: Option<String>) -> (r: Result<
        String,
        AdapterError,
    >)
        ensures
            resolved is None ==> (r matches Err(AdapterError::ScriptNotFound(p)) && p@
                == script_path@),
            resolved matches Some(p) ==> (r matches Ok(q) && q == p),
    {
        match resolved {
            Some(p) => Ok(p),
            None => Err(AdapterError::ScriptNotFound(owned(script_path))),
        }
    }

    /// A required setting must not be empty.
    fn validate_non_empty(field: &str, value: &str) -> (r: Result<(), AdapterError>)
        ensures
            value@.len() == 0 ==> (r matches Err(AdapterError::MissingConfiguration(f)) && f@
                == field@),
            value@.len() > 0 ==> r is Ok,
    {
        if value.unicode_len() == 0 {
            Err(AdapterError::MissingConfiguration(owned(field)))
        } else {
            Ok(())
        }
    }

    /// A setting must pass `valid`; otherwise the error names the field,
    /// shows the value and gives the reason.
    fn validate_field<T: std::fmt::Display, F: Fn(&T) -> bool>(
        field: &str,
        value: &T,
        valid: F,
        reason: &str,
    ) -> (r: Result<(), AdapterError>)
        requires
            valid.requires((value,)),
        ensures
            r is Ok ==> valid.ensures((value,), true),
            r is Err ==> valid.ensures((value,), false),
            r matches Err(AdapterError::InvalidConfiguration { field: f, value: v, reason: w })
                ==> f@ == field@ && w@ == reason@ && vstd::string::to_string_from_display_ensures::<
                T,
            >(value, v),
            r is Err ==> r matches Err(AdapterError::InvalidConfiguration { .. }),
    {
        if valid(value) {
            Ok(())
        } else {
            Err(
                AdapterError::InvalidConfiguration {
                    field: owned(field),
                    value: value.to_string(),
                    reason: owned(reason),
                },
            )
        }
    }
}

impl PhpSapiAdapter for WebRequest {
    fn build(self, script_path: &str, resolved: Option<String>) -> Result<ExecutionContext, AdapterError> {
        match WebRequest::build(self, script_path, resolved) {
            Ok(ctx) => Ok(ctx),
            Err(e) => Err(AdapterError::Web(e)),
        }
    }
}

impl PhpSapiAdapter for CliRequest {
    fn build(self, script_path: &str, resolved: Option<String>) -> Result<ExecutionContext, AdapterError> {
        match CliRequest::build(self, script_path, resolved) {
            Ok(ctx) => Ok(ctx),
            Err(e) => Err(AdapterError::Cli(e)),
        }
    }
}

} // verus!
