//! Errors raised by actions and by the plan that runs them.
use vstd::prelude::*;

use crate::action::ActionTag;
use crate::init_service::SupervisorCmd;

verus! {

/// What went wrong inside one action.
#[derive(Debug)]
pub enum ActionErrorKind {
    /// systemd is not running, or `systemctl` cannot be found.
    SystemdMissing,
    /// OpenRC is not running, or `rc-update` cannot be found.
    OpenRCMissing,
    /// runit is not running, or `sv` cannot be found.
    RunitMissing,
    /// A regular file stands where the action would put its own.
    FileExists(&'static str),
    /// A symlink to somewhere unexpected stands at the destination.
    SymlinkExists(&'static str),
    /// A directory stands where the action would put its own.
    DirExists(&'static str),
    /// Reading the target of a symlink failed.
    ReadSymlink(&'static str, String),
    /// Creating the symlink `.1` pointing at `.0` failed.
    Symlink(&'static str, &'static str, String),
    /// Removing a file or directory failed.
    Remove(&'static str, String),
    /// Writing a file failed.
    Write(&'static str, String),
    /// Setting the permission bits `.0` on a file failed.
    SetPermissions(u32, &'static str, String),
    /// Creating a directory failed.
    CreateDirectory(&'static str, String),
    /// Copying `.0` to `.1` failed.
    Copy(&'static str, &'static str, String),
    /// A supervisor command could not be run or exited unsuccessfully.
    Command(SupervisorCmd, String),
    /// Several independent steps failed; none of the failures is dropped.
    Multiple(Vec<ActionErrorKind>),
}

/// An error of one action, carrying the tag of the action that raised it.
#[derive(Debug)]
pub struct ActionError {
    pub tag: ActionTag,
    pub kind: ActionErrorKind,
}

/// What a plan's install or revert surfaces.
#[derive(Debug)]
pub enum InstallError {
    /// An action failed, and everything rolled back cleanly.
    Action(ActionError),
    /// The primary failures (`.0`), together with every revert that failed
    /// afterwards (`.1`).
    FailedReverts(Vec<ActionError>, Vec<ActionError>),
}

/// No init system that the service can be registered with was found.
#[non_exhaustive]
#[derive(Clone, Copy, Debug, PartialEq, Eq, Structural)]
pub enum ConfigureNixDaemonServiceError {
    InitNotSupported,
}

impl ConfigureNixDaemonServiceError {
    pub open spec fn spec_message(self) -> Seq<char> {
        match self {
            ConfigureNixDaemonServiceError::InitNotSupported => "No supported init system found"@,
        }
    }

    /// The human-readable message of the error.
    pub fn message(&self) -> (r: &'static str)
        ensures
            r@ == self.spec_message(),
    {
        match self {
            ConfigureNixDaemonServiceError::InitNotSupported => "No supported init system found",
        }
    }
}

} // verus!
