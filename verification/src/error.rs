//! Error type for discovery operations.

use vstd::prelude::*;
use vstd::string::StringExecFns;

verus! {

/// The OS error classes the library distinguishes when a device cannot be
/// opened. A driver around the library maps its platform error kind to one
/// of these before calling in.
#[derive(Debug, Clone, Copy, PartialEq, Eq, Structural)]
pub enum OsErrorKind {
    /// The caller may not open the device.
    PermissionDenied,
    /// The device node does not exist.
    NotFound,
    /// Any other failure.
    Other,
}

/// Main error type for discovery operations.
#[derive(Debug)]
pub enum DiscoveryError {
    /// No GPU device found on the system.
    NoDevice,
    /// Failed to open the device; carries the OS error text.
    DeviceOpen(String),
    /// No matching GPU profile found.
    NoProfile,
    /// Discovery operation failed.
    Discovery(String),
    /// Invalid parameter or configuration.
    InvalidParameter(String),
    /// An ioctl call could not be executed; carries the OS error text.
    IoctlFailed(String),
    /// Serialization failed; carries the serializer's error text.
    Json(String),
    /// System permission error.
    Permission(String),
    /// Profile parsing error.
    Profile(String),
    /// The configuration was rejected before any device I/O.
    ConfigurationInvalid(String),
    /// A command type is not permitted under the current policy.
    PolicyViolation {
        /// The type that the policy refused.
        ty: u8,
    },
    /// The session's total call budget is exhausted.
    BudgetExceeded,
    /// The device stopped answering the liveness check.
    DeviceUnresponsive,
    /// Unknown error.
    Unknown(String),
}

impl Clone for DiscoveryError {
    /// An exact copy of the error.
    fn clone(&self) -> (r: Self)
        ensures
            r == *self,
    {
        match self {
            DiscoveryError::NoDevice => DiscoveryError::NoDevice,
            DiscoveryError::DeviceOpen(s) => DiscoveryError::DeviceOpen(s.clone()),
            DiscoveryError::NoProfile => DiscoveryError::NoProfile,
            DiscoveryError::Discovery(s) => DiscoveryError::Discovery(s.clone()),
            DiscoveryError::InvalidParameter(s) => DiscoveryError::InvalidParameter(s.clone()),
            DiscoveryError::IoctlFailed(s) => DiscoveryError::IoctlFailed(s.clone()),
            DiscoveryError::Json(s) => DiscoveryError::Json(s.clone()),
            DiscoveryError::Permission(s) => DiscoveryError::Permission(s.clone()),
            DiscoveryError::Profile(s) => DiscoveryError::Profile(s.clone()),
            DiscoveryError::ConfigurationInvalid(s) => DiscoveryError::ConfigurationInvalid(
                s.clone(),
            ),
            DiscoveryError::PolicyViolation { ty } => DiscoveryError::PolicyViolation {
                ty: *ty,
            },
            DiscoveryError::BudgetExceeded => DiscoveryError::BudgetExceeded,
            DiscoveryError::DeviceUnresponsive => DiscoveryError::DeviceUnresponsive,
            DiscoveryError::Unknown(s) => DiscoveryError::Unknown(s.clone()),
        }
    }
}

/// Map an OS error observed while opening a device into the library's
/// error type: a permission problem keeps its text, a missing node means no
/// device, and anything else is an open failure with its text.
pub fn error_from_os(kind: OsErrorKind, message: String) -> (r: DiscoveryError)
    ensures
        spec_matches_os_error(r, kind, message@),
{
    match kind {
        OsErrorKind::PermissionDenied => DiscoveryError::Permission(message),
        OsErrorKind::NotFound => DiscoveryError::NoDevice,
        OsErrorKind::Other => DiscoveryError::DeviceOpen(message),
    }
}

/// Whether an error is the image of the given OS error under the mapping of
/// [`error_from_os`].
pub open spec fn spec_matches_os_error(
    r: DiscoveryError,
    kind: OsErrorKind,
    message: Seq<char>,
) -> bool {
    match kind {
        OsErrorKind::PermissionDenied => r matches DiscoveryError::Permission(s) && s@ == message,
        OsErrorKind::NotFound => r is NoDevice,
        OsErrorKind::Other => r matches DiscoveryError::DeviceOpen(s) && s@ == message,
    }
}

/// The human-readable text of an error.
pub open spec fn spec_error_message(e: DiscoveryError) -> Seq<char> {
    match e {
        DiscoveryError::NoDevice => "No GPU device found"@,
        DiscoveryError::DeviceOpen(s) => "Failed to open device: "@ + s@,
        DiscoveryError::NoProfile => "No matching GPU profile found"@,
        DiscoveryError::Discovery(s) => "Discovery error: "@ + s@,
        DiscoveryError::InvalidParameter(s) => "Invalid parameter: "@ + s@,
        DiscoveryError::IoctlFailed(s) => "IOCTL execution failed: "@ + s@,
        DiscoveryError::Json(s) => "JSON error: "@ + s@,
        DiscoveryError::Permission(s) => "Permission denied: "@ + s@,
        DiscoveryError::Profile(s) => "Profile error: "@ + s@,
        DiscoveryError::ConfigurationInvalid(s) => "Invalid configuration: "@ + s@,
        DiscoveryError::PolicyViolation { ty: _ } => "Command type not allowed by configuration"@,
        DiscoveryError::BudgetExceeded => "Exceeded maximum call limit"@,
        DiscoveryError::DeviceUnresponsive => "Device appears to be unresponsive"@,
        DiscoveryError::Unknown(s) => "Unknown error: "@ + s@,
    }
}

impl DiscoveryError {
    /// The human-readable text of this error.
    pub fn message(&self) -> (r: String)
        ensures
            r@ == spec_error_message(*self),
    {
        match self {
            DiscoveryError::NoDevice => String::from_str("No GPU device found"),
            DiscoveryError::DeviceOpen(s) => String::from_str("Failed to open device: ").concat(
                s.as_str(),
            ),
            DiscoveryError::NoProfile => String::from_str("No matching GPU profile found"),
            DiscoveryError::Discovery(s) => String::from_str("Discovery error: ").concat(
                s.as_str(),
            ),
            DiscoveryError::InvalidParameter(s) => String::from_str(
                "Invalid parameter: ",
            ).concat(s.as_str()),
            DiscoveryError::IoctlFailed(s) => String::from_str(
                "IOCTL execution failed: ",
            ).concat(s.as_str()),
            DiscoveryError::Json(s) => String::from_str("JSON error: ").concat(s.as_str()),
            DiscoveryError::Permission(s) => String::from_str("Permission denied: ").concat(
                s.as_str(),
            ),
            DiscoveryError::Profile(s) => String::from_str("Profile error: ").concat(s.as_str()),
            DiscoveryError::ConfigurationInvalid(s) => String::from_str(
                "Invalid configuration: ",
            ).concat(s.as_str()),
            DiscoveryError::PolicyViolation { ty: _ } => String::from_str(
                "Command type not allowed by configuration",
            ),
            DiscoveryError::BudgetExceeded => String::from_str("Exceeded maximum call limit"),
            DiscoveryError::DeviceUnresponsive => String::from_str(
                "Device appears to be unresponsive",
            ),
            DiscoveryError::Unknown(s) => String::from_str("Unknown error: ").concat(s.as_str()),
        }
    }
}

} // verus!
