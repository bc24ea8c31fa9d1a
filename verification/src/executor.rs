//! Signal and priority actions on processes: existence probe, graceful
//! then forceful termination, freeze and unfreeze, and the validated
//! re-nice request.
//!
//! The signal sends go through the operating system and may fail for
//! reasons outside the program (a process gone, a permission); the
//! contracts therefore pin the validation and the error taxonomy, not
//! the outcome of a send.

use vstd::prelude::*;
use vstd::string::StringExecFns;

use crate::errors::Error;
use crate::num::{dec_str, u64_to_string};

verus! {

/// Which signal a send carries; the probe carries none.
#[derive(Debug, Clone, Copy, PartialEq, Eq, Structural)]
pub enum SignalKind {
    /// Signal 0: existence probe.
    Probe,
    /// SIGTERM: graceful termination.
    Term,
    /// SIGKILL: forced termination.
    Kill,
    /// SIGSTOP: freeze.
    Stop,
    /// SIGCONT: resume.
    Cont,
}

/// How a signal send failed.
#[derive(Debug, Clone, Copy, PartialEq, Eq, Structural)]
pub enum SignalError {
    /// No such process.
    NotFound,
    /// The process exists but may not be signalled.
    Permission,
    /// Any other failure.
    Other,
}

/// Relies on `nix::sys::signal::kill`: sends the named signal (or the
/// bare existence probe) to the process; ESRCH and EPERM are told apart
/// from the rest. Nothing is assumed about which outcome occurs.
#[verifier::external_body]
fn sys_kill(pid: u32, sig: SignalKind) -> Result<(), SignalError> {
    let p = nix::unistd::Pid::from_raw(pid as i32);
    let s = match sig {
        SignalKind::Probe => None,
        SignalKind::Term => Some(nix::sys::signal::Signal::SIGTERM),
        SignalKind::Kill => Some(nix::sys::signal::Signal::SIGKILL),
        SignalKind::Stop => Some(nix::sys::signal::Signal::SIGSTOP),
        SignalKind::Cont => Some(nix::sys::signal::Signal::SIGCONT),
    };
    match nix::sys::signal::kill(p, s) {
        Ok(()) => Ok(()),
        Err(nix::errno::Errno::ESRCH) => Err(SignalError::NotFound),
        Err(nix::errno::Errno::EPERM) => Err(SignalError::Permission),
        Err(_) => Err(SignalError::Other),
    }
}

/// Relies on `nix::unistd::sleep`: blocks the calling thread for about
/// the given number of seconds.
#[verifier::external_body]
pub fn sleep_secs(seconds: u32) {
    let _ = nix::unistd::sleep(seconds);
}

/// Relies on `nix::poll::poll` with no descriptors: blocks the calling
/// thread for about the given number of milliseconds.
#[verifier::external_body]
pub fn sleep_millis(ms: u16) {
    let mut fds: [nix::poll::PollFd; 0] = [];
    let _ = nix::poll::poll(&mut fds, nix::poll::PollTimeout::from(ms));
}

/// A validated priority change, for the host to apply.
#[derive(Debug, Clone, Copy, PartialEq, Eq, Structural)]
pub struct NiceRequest {
    pub pid: u32,
    pub nice_level: i32,
}

/// Executes signal actions against live processes.
pub struct ProcessExecutor;

/// The message for a process that is not there.
pub open spec fn no_process_text(pid: u32) -> Seq<char> {
    "Process "@ + dec_str(pid as nat) + " does not exist"@
}

impl ProcessExecutor {
    /// A fresh executor; it holds no state.
    pub fn new() -> Self {
        ProcessExecutor
    }

    /// Probe with signal 0: gone is `false`, refused-but-alive is
    /// `true`, anything else is an error.
    pub fn process_exists(pid: u32) -> (r: Result<bool, Error>)
        ensures
            r matches Err(e) ==> e is Executor,
    {
        match sys_kill(pid, SignalKind::Probe) {
            Ok(()) => Ok(true),
            Err(SignalError::NotFound) => Ok(false),
            Err(SignalError::Permission) => Ok(true),
            Err(SignalError::Other) => {
                let mut m = "Failed to check process ".to_owned();
                let d = u64_to_string(pid as u64);
                m.append(d.as_str());
                Err(Error::Executor(m))
            },
        }
    }

    /// Terminate a process: require it to exist, send SIGTERM, wait two
    /// seconds, and if it is still there send SIGKILL and probe once
    /// more after a short wait.
    pub fn kill_process(pid: u32) -> (r: Result<(), Error>)
        ensures
            r matches Err(e) ==> e is Executor,
    {
        match Self::process_exists(pid) {
            Ok(true) => {},
            Ok(false) => {
                return Err(Error::Executor(Self::absent_message(pid)));
            },
            Err(e) => {
                return Err(e);
            },
        }
        if let Err(_) = sys_kill(pid, SignalKind::Term) {
            let mut m = "Failed to send SIGTERM to process ".to_owned();
            let d = u64_to_string(pid as u64);
            m.append(d.as_str());
            return Err(Error::Executor(m));
        }
        sleep_secs(2);
        match Self::process_exists(pid) {
            Ok(false) => {
                return Ok(());
            },
            Ok(true) => {},
            Err(e) => {
                return Err(e);
            },
        }
        if let Err(_) = sys_kill(pid, SignalKind::Kill) {
            let mut m = "Failed to send SIGKILL to process ".to_owned();
            let d = u64_to_string(pid as u64);
            m.append(d.as_str());
            return Err(Error::Executor(m));
        }
        sleep_millis(500);
        match Self::process_exists(pid) {
            Ok(false) => Ok(()),
            Ok(true) => {
                let mut m = "Failed to kill process ".to_owned();
                let d = u64_to_string(pid as u64);
                m.append(d.as_str());
                m.append(" even with SIGKILL");
                Err(Error::Executor(m))
            },
            Err(e) => Err(e),
        }
    }

    /// Suspend a process with SIGSTOP; it must exist first.
    pub fn freeze_process(pid: u32) -> (r: Result<(), Error>)
        ensures
            r matches Err(e) ==> e is Executor,
    {
        match Self::process_exists(pid) {
            Ok(true) => {},
            Ok(false) => {
                return Err(Error::Executor(Self::absent_message(pid)));
            },
            Err(e) => {
                return Err(e);
            },
        }
        match sys_kill(pid, SignalKind::Stop) {
            Ok(()) => Ok(()),
            Err(_) => {
                let mut m = "Failed to freeze process ".to_owned();
                let d = u64_to_string(pid as u64);
                m.append(d.as_str());
                Err(Error::Executor(m))
            },
        }
    }

    /// Resume a process with SIGCONT; it must exist first.
    pub fn unfreeze_process(pid: u32) -> (r: Result<(), Error>)
        ensures
            r matches Err(e) ==> e is Executor,
    {
        match Self::process_exists(pid) {
            Ok(true) => {},
            Ok(false) => {
                return Err(Error::Executor(Self::absent_message(pid)));
            },
            Err(e) => {
                return Err(e);
            },
        }
        match sys_kill(pid, SignalKind::Cont) {
            Ok(()) => Ok(()),
            Err(_) => {
                let mut m = "Failed to unfreeze process ".to_owned();
                let d = u64_to_string(pid as u64);
                m.append(d.as_str());
                Err(Error::Executor(m))
            },
        }
    }

    /// Validate a priority change: the process must exist and the level
    /// must lie in `[-20, 19]`. The validated request is handed back
    /// for the host to apply; an out-of-range level is refused whatever
    /// the process state.
    pub fn renice_process(pid: u32, nice_level: i32) -> (r: Result<NiceRequest, Error>)
        ensures
            r matches Ok(q) ==> q == (NiceRequest { pid, nice_level }) && -20 <= nice_level <= 19,
            !(-20 <= nice_level <= 19) ==> (r matches Err(e) && e is Executor),
            r matches Err(e) ==> e is Executor,
    {
        match Self::process_exists(pid) {
            Ok(true) => {},
            Ok(false) => {
                return Err(Error::Executor(Self::absent_message(pid)));
            },
            Err(e) => {
                return Err(e);
            },
        }
        if nice_level < -20 || nice_level > 19 {
            return Err(Error::Executor("Invalid nice level, must be -20 to 19".to_owned()));
        }
        Ok(NiceRequest { pid, nice_level })
    }

    /// The not-there message.
    fn absent_message(pid: u32) -> (r: String)
        ensures
            r@ == no_process_text(pid),
    {
        let mut m = "Process ".to_owned();
        let d = u64_to_string(pid as u64);
        m.append(d.as_str());
        m.append(" does not exist");
        m
    }
}

} // verus!
