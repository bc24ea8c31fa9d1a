//! Typed failures of the engine and of the cgroup manager, each with a
//! rendered message whose text is pinned by a spec function.

use vstd::prelude::*;
use vstd::string::StringExecFns;

use crate::num::{dec_str, u64_to_string};

verus! {

/// Engine-level failure kinds.
#[derive(Debug)]
pub enum Error {
    /// Service-manager transport or refusal.
    Systemd(String),
    /// Process scanning failed.
    Scanner(String),
    /// A signal or priority action failed.
    Executor(String),
    /// Malformed text from a kernel interface.
    Parse(String),
    /// Input/output failure, carried as its rendered message.
    Io(String),
    /// Anything else.
    Other(String),
}

/// The message `Error::message` renders.
pub open spec fn error_text(e: Error) -> Seq<char> {
    match e {
        Error::Systemd(s) => "Systemd error: "@ + s@,
        Error::Scanner(s) => "Scanner error: "@ + s@,
        Error::Executor(s) => "Executor error: "@ + s@,
        Error::Parse(s) => "Parse error: "@ + s@,
        Error::Io(s) => "IO error: "@ + s@,
        Error::Other(s) => "Other error: "@ + s@,
    }
}

impl Error {
    /// Human-readable message, a kind prefix and the detail.
    pub fn message(&self) -> (r: String)
        ensures
            r@ == error_text(*self),
    {
        match self {
            Error::Systemd(s) => {
                let mut m = "Systemd error: ".to_owned();
                m.append(s.as_str());
                m
            },
            Error::Scanner(s) => {
                let mut m = "Scanner error: ".to_owned();
                m.append(s.as_str());
                m
            },
            Error::Executor(s) => {
                let mut m = "Executor error: ".to_owned();
                m.append(s.as_str());
                m
            },
            Error::Parse(s) => {
                let mut m = "Parse error: ".to_owned();
                m.append(s.as_str());
                m
            },
            Error::Io(s) => {
                let mut m = "IO error: ".to_owned();
                m.append(s.as_str());
                m
            },
            Error::Other(s) => {
                let mut m = "Other error: ".to_owned();
                m.append(s.as_str());
                m
            },
        }
    }
}

/// Failures of the cgroup manager.
#[derive(Debug)]
pub enum CgroupError {
    /// Named group is not managed.
    NotFound(String),
    /// Filesystem or capability refusal.
    PermissionDenied(String),
    /// A limit value is out of range.
    InvalidLimit(String),
    /// Named group already exists.
    AlreadyExists(String),
    /// Malformed cgroup file text.
    ParseError(String),
    /// Input/output failure, carried as its rendered message.
    Io(String),
    /// No live process with that id.
    ProcessNotFound(u32),
    /// The dynamic-group cap was reached.
    MaxCgroupsReached(usize),
    /// A path or configuration check failed.
    ValidationError(String),
    /// The service manager is absent.
    SystemdNotAvailable,
    /// The unified cgroup hierarchy is absent.
    CgroupV2NotAvailable,
    /// Root or CAP_SYS_ADMIN is needed.
    InsufficientPrivileges,
}

/// The message `CgroupError::message` renders.
pub open spec fn cgroup_error_text(e: CgroupError) -> Seq<char> {
    match e {
        CgroupError::NotFound(s) => "Cgroup not found: "@ + s@,
        CgroupError::PermissionDenied(s) => "Permission denied: "@ + s@,
        CgroupError::InvalidLimit(s) => "Invalid limit value: "@ + s@,
        CgroupError::AlreadyExists(s) => "Cgroup already exists: "@ + s@,
        CgroupError::ParseError(s) => "Failed to parse cgroup file: "@ + s@,
        CgroupError::Io(s) => "IO error: "@ + s@,
        CgroupError::ProcessNotFound(pid) => "Process not found: "@ + dec_str(pid as nat),
        CgroupError::MaxCgroupsReached(n) => "Max dynamic cgroups reached (limit: "@ + dec_str(
            n as nat,
        ) + ")"@,
        CgroupError::ValidationError(s) => "Cgroup validation failed: "@ + s@,
        CgroupError::SystemdNotAvailable => "Systemd not available"@,
        CgroupError::CgroupV2NotAvailable => "Cgroup v2 not available"@,
        CgroupError::InsufficientPrivileges =>
            "Insufficient privileges (need root or CAP_SYS_ADMIN)"@,
    }
}

impl CgroupError {
    /// Human-readable message, a kind prefix and the detail.
    pub fn message(&self) -> (r: String)
        ensures
            r@ == cgroup_error_text(*self),
    {
        match self {
            CgroupError::NotFound(s) => {
                let mut m = "Cgroup not found: ".to_owned();
                m.append(s.as_str());
                m
            },
            CgroupError::PermissionDenied(s) => {
                let mut m = "Permission denied: ".to_owned();
                m.append(s.as_str());
                m
            },
            CgroupError::InvalidLimit(s) => {
                let mut m = "Invalid limit value: ".to_owned();
                m.append(s.as_str());
                m
            },
            CgroupError::AlreadyExists(s) => {
                let mut m = "Cgroup already exists: ".to_owned();
                m.append(s.as_str());
                m
            },
            CgroupError::ParseError(s) => {
                let mut m = "Failed to parse cgroup file: ".to_owned();
                m.append(s.as_str());
                m
            },
            CgroupError::Io(s) => {
                let mut m = "IO error: ".to_owned();
                m.append(s.as_str());
                m
            },
            CgroupError::ProcessNotFound(pid) => {
                let mut m = "Process not found: ".to_owned();
                let d = u64_to_string(*pid as u64);
                m.append(d.as_str());
                m
            },
            CgroupError::MaxCgroupsReached(n) => {
                let mut m = "Max dynamic cgroups reached (limit: ".to_owned();
                let d = u64_to_string(*n as u64);
                m.append(d.as_str());
                m.append(")");
                m
            },
            CgroupError::ValidationError(s) => {
                let mut m = "Cgroup validation failed: ".to_owned();
                m.append(s.as_str());
                m
            },
            CgroupError::SystemdNotAvailable => "Systemd not available".to_owned(),
            CgroupError::CgroupV2NotAvailable => "Cgroup v2 not available".to_owned(),
            CgroupError::InsufficientPrivileges => "Insufficient privileges (need root or CAP_SYS_ADMIN)".to_owned(),
        }
    }
}

// ---------------------------------------------------------------------------
// conversions from std's io error
// ---------------------------------------------------------------------------

/// Declares std's io error type so the conversions below can take it;
/// its insides stay opaque.
#[verifier::external_type_specification]
#[verifier::external_body]
pub struct ExIoError(std::io::Error);

/// Relies on the `Display` rendering of `std::io::Error` for the carried
/// message; nothing is assumed about the text.
#[verifier::external_body]
fn io_error_message(e: &std::io::Error) -> String {
    e.to_string()
}

impl From<std::io::Error> for Error {
    /// Wraps the rendered io error; the text itself is unspecified.
    fn from(e: std::io::Error) -> (r: Self)
        ensures
            r is Io,
    {
        Error::Io(io_error_message(&e))
    }
}

impl vstd::std_specs::convert::FromSpecImpl<std::io::Error> for Error {
    open spec fn obeys_from_spec() -> bool {
        false
    }

    open spec fn from_spec(e: std::io::Error) -> Self {
        arbitrary()
    }
}

impl From<std::io::Error> for CgroupError {
    /// Wraps the rendered io error; the text itself is unspecified.
    fn from(e: std::io::Error) -> (r: Self)
        ensures
            r is Io,
    {
        CgroupError::Io(io_error_message(&e))
    }
}

impl vstd::std_specs::convert::FromSpecImpl<std::io::Error> for CgroupError {
    open spec fn obeys_from_spec() -> bool {
        false
    }

    open spec fn from_spec(e: std::io::Error) -> Self {
        arbitrary()
    }
}

} // verus!
