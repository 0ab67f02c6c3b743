//! The structured error taxonomy for the fingerprint service.
//!
//! Remote failures reach this library as the failure's named error
//! identifier (when the remote call failed with a named protocol error)
//! plus its diagnostic text. `map_error` translates that pair into a
//! structured [`AppError`]; every recognized identifier maps to a fixed
//! tag, anything else becomes `Unknown` carrying the original text.

use vstd::prelude::*;
use vstd::string::StringExecFns;
use crate::text::str_eq;

verus! {

/// A structured, user-facing error. Only `ConnectDbus` and `Unknown`
/// carry diagnostic text; every other tag has a fixed message.
#[derive(Debug, Clone)]
pub enum AppError {
    PermissionDenied,
    AlreadyInUse,
    Internal,
    NoEnrolledPrints,
    ClaimDevice,
    PrintsNotDeleted,
    Timeout,
    DeviceNotFound,
    ConnectDbus(String),
    Unknown(String),
}

impl PartialEq for AppError {
    fn eq(&self, other: &AppError) -> bool {
        match (self, other) {
            (AppError::PermissionDenied, AppError::PermissionDenied) => true,
            (AppError::AlreadyInUse, AppError::AlreadyInUse) => true,
            (AppError::Internal, AppError::Internal) => true,
            (AppError::NoEnrolledPrints, AppError::NoEnrolledPrints) => true,
            (AppError::ClaimDevice, AppError::ClaimDevice) => true,
            (AppError::PrintsNotDeleted, AppError::PrintsNotDeleted) => true,
            (AppError::Timeout, AppError::Timeout) => true,
            (AppError::DeviceNotFound, AppError::DeviceNotFound) => true,
            (AppError::ConnectDbus(a), AppError::ConnectDbus(b)) => str_eq(
                a.as_str(),
                b.as_str(),
            ),
            (AppError::Unknown(a), AppError::Unknown(b)) => str_eq(a.as_str(), b.as_str()),
            _ => false,
        }
    }
}

impl vstd::std_specs::cmp::PartialEqSpecImpl for AppError {
    open spec fn obeys_eq_spec() -> bool {
        true
    }

    open spec fn eq_spec(&self, other: &AppError) -> bool {
        match (self, other) {
            (AppError::PermissionDenied, AppError::PermissionDenied) => true,
            (AppError::AlreadyInUse, AppError::AlreadyInUse) => true,
            (AppError::Internal, AppError::Internal) => true,
            (AppError::NoEnrolledPrints, AppError::NoEnrolledPrints) => true,
            (AppError::ClaimDevice, AppError::ClaimDevice) => true,
            (AppError::PrintsNotDeleted, AppError::PrintsNotDeleted) => true,
            (AppError::Timeout, AppError::Timeout) => true,
            (AppError::DeviceNotFound, AppError::DeviceNotFound) => true,
            (AppError::ConnectDbus(a), AppError::ConnectDbus(b)) => a@ == b@,
            (AppError::Unknown(a), AppError::Unknown(b)) => a@ == b@,
            _ => false,
        }
    }
}

/// Whether an error identifier is one of the device protocol's named errors.
pub open spec fn recognized_error_name(n: Seq<char>) -> bool {
    ||| n == "net.reactivated.Fprint.Error.PermissionDenied"@
    ||| n == "net.reactivated.Fprint.Error.AlreadyInUse"@
    ||| n == "net.reactivated.Fprint.Error.Internal"@
    ||| n == "net.reactivated.Fprint.Error.NoEnrolledPrints"@
    ||| n == "net.reactivated.Fprint.Error.ClaimDevice"@
    ||| n == "net.reactivated.Fprint.Error.PrintsNotDeleted"@
    ||| n == "net.reactivated.Fprint.Error.Timeout"@
    ||| n == "net.reactivated.Fprint.Error.DeviceNotFound"@
}

/// The tag a recognized error identifier maps to.
pub open spec fn error_kind_for(n: Seq<char>) -> AppError
    recommends
        recognized_error_name(n),
{
    if n == "net.reactivated.Fprint.Error.PermissionDenied"@ {
        AppError::PermissionDenied
    } else if n == "net.reactivated.Fprint.Error.AlreadyInUse"@ {
        AppError::AlreadyInUse
    } else if n == "net.reactivated.Fprint.Error.Internal"@ {
        AppError::Internal
    } else if n == "net.reactivated.Fprint.Error.NoEnrolledPrints"@ {
        AppError::NoEnrolledPrints
    } else if n == "net.reactivated.Fprint.Error.ClaimDevice"@ {
        AppError::ClaimDevice
    } else if n == "net.reactivated.Fprint.Error.PrintsNotDeleted"@ {
        AppError::PrintsNotDeleted
    } else if n == "net.reactivated.Fprint.Error.Timeout"@ {
        AppError::Timeout
    } else {
        AppError::DeviceNotFound
    }
}

/// Translates a remote failure into a structured error: a recognized named
/// identifier maps to its fixed tag; any other failure becomes `Unknown`
/// carrying the failure's original text. Total: every input yields exactly
/// one tag.
pub fn map_error(error_name: Option<&str>, message: &str) -> (r: AppError)
    ensures
        match error_name {
            Some(n) => {
                &&& recognized_error_name(n@) ==> r == error_kind_for(n@)
                &&& !recognized_error_name(n@) ==> (r matches AppError::Unknown(m) && m@
                    == message@)
            },
            None => r matches AppError::Unknown(m) && m@ == message@,
        },
{
    match error_name {
        Some(name) => {
            if str_eq(name, "net.reactivated.Fprint.Error.PermissionDenied") {
                AppError::PermissionDenied
            } else if str_eq(name, "net.reactivated.Fprint.Error.AlreadyInUse") {
                AppError::AlreadyInUse
            } else if str_eq(name, "net.reactivated.Fprint.Error.Internal") {
                AppError::Internal
            } else if str_eq(name, "net.reactivated.Fprint.Error.NoEnrolledPrints") {
                AppError::NoEnrolledPrints
            } else if str_eq(name, "net.reactivated.Fprint.Error.ClaimDevice") {
                AppError::ClaimDevice
            } else if str_eq(name, "net.reactivated.Fprint.Error.PrintsNotDeleted") {
                AppError::PrintsNotDeleted
            } else if str_eq(name, "net.reactivated.Fprint.Error.Timeout") {
                AppError::Timeout
            } else if str_eq(name, "net.reactivated.Fprint.Error.DeviceNotFound") {
                AppError::DeviceNotFound
            } else {
                AppError::Unknown(message.to_owned())
            }
        },
        None => AppError::Unknown(message.to_owned()),
    }
}

/// The user-facing message of an error, as a character sequence.
pub open spec fn spec_message(e: AppError) -> Seq<char> {
    match e {
        AppError::PermissionDenied => "Permission denied."@,
        AppError::AlreadyInUse => "Device is already in use by another application."@,
        AppError::Internal => "An internal error occurred."@,
        AppError::NoEnrolledPrints => "No fingerprints are enrolled."@,
        AppError::ClaimDevice => "Failed to claim the fingerprint device."@,
        AppError::PrintsNotDeleted => "Failed to delete fingerprints."@,
        AppError::Timeout => "Operation timed out."@,
        AppError::DeviceNotFound => "Fingerprint device not found."@,
        AppError::ConnectDbus(m) => "Failed to connect to DBus: \u{2068}"@ + m@ + "\u{2069}"@,
        AppError::Unknown(m) => m@,
    }
}

impl AppError {
    /// The fixed user-facing message of this error; `ConnectDbus` and
    /// `Unknown` embed their diagnostic text.
    pub fn localized_message(&self) -> (r: String)
        ensures
            r@ == spec_message(*self),
    {
        match self {
            AppError::PermissionDenied => "Permission denied.".to_owned(),
            AppError::AlreadyInUse => "Device is already in use by another application."
                .to_owned(),
            AppError::Internal => "An internal error occurred.".to_owned(),
            AppError::NoEnrolledPrints => "No fingerprints are enrolled.".to_owned(),
            AppError::ClaimDevice => "Failed to claim the fingerprint device.".to_owned(),
            AppError::PrintsNotDeleted => "Failed to delete fingerprints.".to_owned(),
            AppError::Timeout => "Operation timed out.".to_owned(),
            AppError::DeviceNotFound => "Fingerprint device not found.".to_owned(),
            AppError::ConnectDbus(m) => "Failed to connect to DBus: \u{2068}".to_owned().concat(
                m.as_str(),
            ).concat("\u{2069}"),
            AppError::Unknown(m) => m.clone(),
        }
    }

    /// Prepends a context note to the message, but only for `Unknown`
    /// errors; every other tag keeps its fixed message and is returned
    /// unchanged.
    pub fn with_context(self, context: &str) -> (r: AppError)
        ensures
            !(self is Unknown) ==> r == self,
            self matches AppError::Unknown(m) ==> (r matches AppError::Unknown(m2) && m2@
                == context@ + ": "@ + m@),
            spec_message(r) == if self is Unknown {
                context@ + ": "@ + spec_message(self)
            } else {
                spec_message(self)
            },
    {
        match self {
            AppError::Unknown(msg) => {
                let mut s: String = context.to_owned();
                s.append(": ");
                s.append(msg.as_str());
                AppError::Unknown(s)
            },
            other => other,
        }
    }
}

/// Normalizes a device discovery failure: an unrecognized failure means
/// "no device is present", the expected common case, and is reported as
/// `DeviceNotFound`; recognized tags pass through unchanged.
pub fn normalize_discovery_error(e: AppError) -> (r: AppError)
    ensures
        e is Unknown ==> r == AppError::DeviceNotFound,
        !(e is Unknown) ==> r == e,
{
    match e {
        AppError::Unknown(_) => AppError::DeviceNotFound,
        other => other,
    }
}

} // verus!
