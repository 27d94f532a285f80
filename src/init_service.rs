//! Registering the daemon with the host's service supervisor: systemd,
//! OpenRC, runit or launchd.
//!
//! Every decision is a function of the action's parameters and of
//! [`HostFacts`], which the caller observes on the host. What the action does
//! to the host is a list of [`HostOp`]s that the caller performs in order.
use vstd::prelude::*;

use crate::action::{texts, Action, ActionDescription, ActionState, ActionTag, DescriptionText, StatefulAction};
use crate::error::{ActionError, ActionErrorKind};

verus! {

pub const SERVICE_SRC: &'static str = "/nix/var/nix/profiles/default/lib/systemd/system/nix-daemon.service";
pub const SERVICE_DEST: &'static str = "/etc/systemd/system/nix-daemon.service";
pub const SERVICE_OVERRIDES: &'static str = "/etc/systemd/system/nix-daemon.service.d";
pub const SOCKET_SRC: &'static str = "/nix/var/nix/profiles/default/lib/systemd/system/nix-daemon.socket";
pub const SOCKET_DEST: &'static str = "/etc/systemd/system/nix-daemon.socket";
pub const SOCKET_OVERRIDES: &'static str = "/etc/systemd/system/nix-daemon.socket.d";
pub const TMPFILES_SRC: &'static str = "/nix/var/nix/profiles/default/lib/tmpfiles.d/nix-daemon.conf";
pub const TMPFILES_DEST: &'static str = "/etc/tmpfiles.d/nix-daemon.conf";
pub const OPENRC_SERVICE: &'static str = "/etc/init.d/nix-daemon";
pub const RUNIT_SERVICE: &'static str = "/etc/sv/nix-daemon";
pub const RUNIT_DOWN: &'static str = "/etc/sv/nix-daemon/down";
pub const RUNIT_SYMLINK: &'static str = "/var/service/nix-daemon";
pub const RUNIT_RUN_PATH: &'static str = "/etc/sv/nix-daemon/run";
pub const DARWIN_NIX_DAEMON_DEST: &'static str = "/Library/LaunchDaemons/org.nixos.nix-daemon.plist";
pub const DARWIN_NIX_DAEMON_SOURCE: &'static str =
    "/nix/var/nix/profiles/default/Library/LaunchDaemons/org.nixos.nix-daemon.plist";
pub const DARWIN_SERVICE_TARGET: &'static str = "system/org.nixos.nix-daemon";

pub const SERVICE_UNIT: &'static str = "nix-daemon.service";
pub const SOCKET_UNIT: &'static str = "nix-daemon.socket";

/// The OpenRC init script: runs the daemon under `supervise-daemon`.
pub const OPENRC_SCRIPT: &'static str = "#!/sbin/openrc-run\nname=$RC_SVCNAME\ndescription=\"Nix Daemon\"\nsupervisor=\"supervise-daemon\"\ncommand=\"/nix/var/nix/profiles/default/bin/nix-daemon\"\ncommand_args=\"--daemon\"";
/// The runit run script: execs the daemon.
pub const RUNIT_SCRIPT: &'static str = "#!/bin/sh\nexec /nix/var/nix/profiles/default/bin/nix-daemon";
/// Permission bits of the generated scripts.
pub const EXECUTABLE_MODE: u32 = 0o755;

/// The stable tag of the init-service action.
pub const CONFIGURE_INIT_SERVICE_TAG: &'static str = "configure_init_service";

/// The service supervisor of the host, resolved once before planning.
#[derive(Clone, Copy, Debug, PartialEq, Eq, Structural)]
pub enum InitSystem {
    Systemd,
    Launchd,
    OpenRC,
    Runit,
    /// No supervisor: the daemon is left unconfigured.
    NoInit,
}

/// The two systemd units of the daemon.
#[derive(Clone, Copy, Debug, PartialEq, Eq, Structural)]
pub enum Unit {
    Service,
    Socket,
}

/// A command on the host's service supervisor.
#[derive(Clone, Copy, Debug, PartialEq, Eq, Structural)]
pub enum SupervisorCmd {
    SystemctlDaemonReload,
    SystemctlIsActive(Unit),
    SystemctlIsEnabled(Unit),
    SystemctlStop(Unit),
    /// Enable the unit; with `true`, start it as well (`--now`).
    SystemctlEnable(Unit, bool),
    /// Disable the unit; with `true`, stop it as well (`--now`).
    SystemctlDisable(Unit, bool),
    TmpfilesCreate,
    TmpfilesRemove,
    RcUpdateAdd,
    RcUpdateDel,
    RcServiceStart,
    RcServiceStop,
    SvDown,
    LaunchctlLoad,
    LaunchctlEnable,
    LaunchctlKickstart,
    LaunchctlUnload,
}

pub open spec fn unit_name(u: Unit) -> &'static str {
    match u {
        Unit::Service => SERVICE_UNIT,
        Unit::Socket => SOCKET_UNIT,
    }
}

pub open spec fn unit_source(u: Unit) -> &'static str {
    match u {
        Unit::Service => SERVICE_SRC,
        Unit::Socket => SOCKET_SRC,
    }
}

fn unit_name_of(u: Unit) -> (r: &'static str)
    ensures
        r == unit_name(u),
{
    match u {
        Unit::Service => SERVICE_UNIT,
        Unit::Socket => SOCKET_UNIT,
    }
}

fn unit_source_of(u: Unit) -> (r: &'static str)
    ensures
        r == unit_source(u),
{
    match u {
        Unit::Service => SERVICE_SRC,
        Unit::Socket => SOCKET_SRC,
    }
}

impl SupervisorCmd {
    /// The program and its arguments.
    pub open spec fn spec_argv(self) -> Seq<&'static str> {
        match self {
            SupervisorCmd::SystemctlDaemonReload => seq!["systemctl", "daemon-reload"],
            SupervisorCmd::SystemctlIsActive(u) => seq!["systemctl", "is-active", unit_name(u)],
            SupervisorCmd::SystemctlIsEnabled(u) => seq!["systemctl", "is-enabled", unit_name(u)],
            SupervisorCmd::SystemctlStop(u) => seq!["systemctl", "stop", unit_name(u)],
            SupervisorCmd::SystemctlEnable(u, now) => if now {
                seq!["systemctl", "enable", unit_source(u), "--now"]
            } else {
                seq!["systemctl", "enable", unit_source(u)]
            },
            SupervisorCmd::SystemctlDisable(u, now) => if now {
                seq!["systemctl", "disable", unit_name(u), "--now"]
            } else {
                seq!["systemctl", "disable", unit_name(u)]
            },
            SupervisorCmd::TmpfilesCreate => seq!["systemd-tmpfiles", "--create", "--prefix=/nix/var/nix"],
            SupervisorCmd::TmpfilesRemove => seq!["systemd-tmpfiles", "--remove", "--prefix=/nix/var/nix"],
            SupervisorCmd::RcUpdateAdd => seq!["rc-update", "add", "nix-daemon"],
            SupervisorCmd::RcUpdateDel => seq!["rc-update", "del", "nix-daemon"],
            SupervisorCmd::RcServiceStart => seq!["rc-service", "nix-daemon", "start"],
            SupervisorCmd::RcServiceStop => seq!["rc-service", "nix-daemon", "stop"],
            SupervisorCmd::SvDown => seq!["sv", "down", "nix-daemon"],
            SupervisorCmd::LaunchctlLoad => seq!["launchctl", "load", "-w", DARWIN_NIX_DAEMON_DEST],
            SupervisorCmd::LaunchctlEnable => seq!["launchctl", "enable", DARWIN_SERVICE_TARGET],
            SupervisorCmd::LaunchctlKickstart => seq!["launchctl", "kickstart", "-k", DARWIN_SERVICE_TARGET],
            SupervisorCmd::LaunchctlUnload => seq!["launchctl", "unload", DARWIN_NIX_DAEMON_DEST],
        }
    }

    /// The command line to run: the program first, then its arguments.
    pub fn argv(&self) -> (r: Vec<&'static str>)
        ensures
            r@ == self.spec_argv(),
    {
        let mut v: Vec<&'static str> = Vec::new();
        match *self {
            SupervisorCmd::SystemctlDaemonReload => {
                v.push("systemctl");
                v.push("daemon-reload");
            },
            SupervisorCmd::SystemctlIsActive(u) => {
                v.push("systemctl");
                v.push("is-active");
                v.push(unit_name_of(u));
            },
            SupervisorCmd::SystemctlIsEnabled(u) => {
                v.push("systemctl");
                v.push("is-enabled");
                v.push(unit_name_of(u));
            },
            SupervisorCmd::SystemctlStop(u) => {
                v.push("systemctl");
                v.push("stop");
                v.push(unit_name_of(u));
            },
            SupervisorCmd::SystemctlEnable(u, now) => {
                v.push("systemctl");
                v.push("enable");
                v.push(unit_source_of(u));
                if now {
                    v.push("--now");
                }
            },
            SupervisorCmd::SystemctlDisable(u, now) => {
                v.push("systemctl");
                v.push("disable");
                v.push(unit_name_of(u));
                if now {
                    v.push("--now");
                }
            },
            SupervisorCmd::TmpfilesCreate => {
                v.push("systemd-tmpfiles");
                v.push("--create");
                v.push("--prefix=/nix/var/nix");
            },
            SupervisorCmd::TmpfilesRemove => {
                v.push("systemd-tmpfiles");
                v.push("--remove");
                v.push("--prefix=/nix/var/nix");
            },
            SupervisorCmd::RcUpdateAdd => {
                v.push("rc-update");
                v.push("add");
                v.push("nix-daemon");
            },
            SupervisorCmd::RcUpdateDel => {
                v.push("rc-update");
                v.push("del");
                v.push("nix-daemon");
            },
            SupervisorCmd::RcServiceStart => {
                v.push("rc-service");
                v.push("nix-daemon");
                v.push("start");
            },
            SupervisorCmd::RcServiceStop => {
                v.push("rc-service");
                v.push("nix-daemon");
                v.push("stop");
            },
            SupervisorCmd::SvDown => {
                v.push("sv");
                v.push("down");
                v.push("nix-daemon");
            },
            SupervisorCmd::LaunchctlLoad => {
                v.push("launchctl");
                v.push("load");
                v.push("-w");
                v.push(DARWIN_NIX_DAEMON_DEST);
            },
            SupervisorCmd::LaunchctlEnable => {
                v.push("launchctl");
                v.push("enable");
                v.push(DARWIN_SERVICE_TARGET);
            },
            SupervisorCmd::LaunchctlKickstart => {
                v.push("launchctl");
                v.push("kickstart");
                v.push("-k");
                v.push(DARWIN_SERVICE_TARGET);
            },
            SupervisorCmd::LaunchctlUnload => {
                v.push("launchctl");
                v.push("unload");
                v.push(DARWIN_NIX_DAEMON_DEST);
            },
        }
        assert(v@ =~= self.spec_argv());
        v
    }
}

/// A host mutation, performed by the caller.
#[derive(Clone, Copy, Debug, PartialEq, Eq)]
pub enum HostOp {
    /// Run a supervisor command; it fails unless it exits successfully.
    Run(SupervisorCmd),
    /// Create a symlink at `.1` that points at `.0`.
    Symlink(&'static str, &'static str),
    RemoveFile(&'static str),
    /// Remove a directory tree, or the symlink standing at the path.
    RemoveDirAll(&'static str),
    CreateDir(&'static str),
    /// Create an empty file.
    CreateFile(&'static str),
    /// Write the contents `.1` to the file `.0`.
    Write(&'static str, &'static str),
    /// Set the permission bits `.1` on the file `.0`.
    SetPermissions(&'static str, u32),
    /// Copy the file `.0` to `.1`.
    Copy(&'static str, &'static str),
}

impl HostOp {
    /// The error kind that reports this operation failing with `detail`.
    pub open spec fn spec_failure(self, detail: String) -> ActionErrorKind {
        match self {
            HostOp::Run(c) => ActionErrorKind::Command(c, detail),
            HostOp::Symlink(src, dest) => ActionErrorKind::Symlink(src, dest, detail),
            HostOp::RemoveFile(p) => ActionErrorKind::Remove(p, detail),
            HostOp::RemoveDirAll(p) => ActionErrorKind::Remove(p, detail),
            HostOp::CreateDir(p) => ActionErrorKind::CreateDirectory(p, detail),
            HostOp::CreateFile(p) => ActionErrorKind::Write(p, detail),
            HostOp::Write(p, _) => ActionErrorKind::Write(p, detail),
            HostOp::SetPermissions(p, mode) => ActionErrorKind::SetPermissions(mode, p, detail),
            HostOp::Copy(src, dest) => ActionErrorKind::Copy(src, dest, detail),
        }
    }

    /// The error kind that reports this operation failing with `detail`.
    pub fn failure(&self, detail: String) -> (r: ActionErrorKind)
        ensures
            r == self.spec_failure(detail),
    {
        match *self {
            HostOp::Run(c) => ActionErrorKind::Command(c, detail),
            HostOp::Symlink(src, dest) => ActionErrorKind::Symlink(src, dest, detail),
            HostOp::RemoveFile(p) => ActionErrorKind::Remove(p, detail),
            HostOp::RemoveDirAll(p) => ActionErrorKind::Remove(p, detail),
            HostOp::CreateDir(p) => ActionErrorKind::CreateDirectory(p, detail),
            HostOp::CreateFile(p) => ActionErrorKind::Write(p, detail),
            HostOp::Write(p, _) => ActionErrorKind::Write(p, detail),
            HostOp::SetPermissions(p, mode) => ActionErrorKind::SetPermissions(mode, p, detail),
            HostOp::Copy(src, dest) => ActionErrorKind::Copy(src, dest, detail),
        }
    }
}

/// What stands at a destination path (not following a final symlink).
#[derive(Clone, Debug)]
pub enum PathEntry {
    Missing,
    /// A symlink, with the path it points at.
    Symlink(String),
    /// A regular file, a directory, or anything else that is not a symlink.
    Other,
}

/// Whether a systemd unit is enabled and whether it is active.
#[derive(Clone, Copy, Debug, PartialEq, Eq, Structural)]
pub struct UnitStatus {
    pub enabled: bool,
    pub active: bool,
}

/// The enablement and activation of the daemon's two systemd units.
#[derive(Clone, Copy, Debug, PartialEq, Eq, Structural)]
pub struct SystemdUnits {
    pub service: UnitStatus,
    pub socket: UnitStatus,
}

/// What the caller observed on the host. Only the fields that concern the
/// selected init system are read.
#[derive(Clone, Debug)]
pub struct HostFacts {
    /// The supervisor's runtime sentinel exists ([`InitSystem::sentinel`]).
    pub supervisor_live: bool,
    /// The supervisor's control binary resolves ([`InitSystem::control_binary`]).
    pub control_binary_found: bool,
    /// What stands at [`InitSystem::unit_destination`].
    pub unit_dest: PathEntry,
    /// The systemd drop-in directory [`SERVICE_OVERRIDES`] exists.
    pub unit_overrides: bool,
    /// What stands at [`SOCKET_DEST`].
    pub socket_dest: PathEntry,
    /// The systemd drop-in directory [`SOCKET_OVERRIDES`] exists.
    pub socket_overrides: bool,
    /// Something stands at [`TMPFILES_DEST`].
    pub tmpfiles_present: bool,
    /// The state of the systemd units, as `systemctl is-enabled/is-active` report it.
    pub units: SystemdUnits,
    /// launchd reports the service as disabled.
    pub launchd_disabled: bool,
}

impl InitSystem {
    pub open spec fn spec_sentinel(self) -> Option<&'static str> {
        match self {
            InitSystem::Systemd => Some("/run/systemd/system"),
            InitSystem::OpenRC => Some("/run/openrc"),
            InitSystem::Runit => Some("/run/runit"),
            _ => None,
        }
    }

    /// The path whose existence shows that the supervisor is running.
    pub fn sentinel(&self) -> (r: Option<&'static str>)
        ensures
            r == self.spec_sentinel(),
    {
        match self {
            InitSystem::Systemd => Some("/run/systemd/system"),
            InitSystem::OpenRC => Some("/run/openrc"),
            InitSystem::Runit => Some("/run/runit"),
            _ => None,
        }
    }

    pub open spec fn spec_control_binary(self) -> Option<&'static str> {
        match self {
            InitSystem::Systemd => Some("systemctl"),
            InitSystem::OpenRC => Some("rc-update"),
            InitSystem::Runit => Some("sv"),
            _ => None,
        }
    }

    /// The binary that must resolve on the search path for the supervisor to be usable.
    pub fn control_binary(&self) -> (r: Option<&'static str>)
        ensures
            r == self.spec_control_binary(),
    {
        match self {
            InitSystem::Systemd => Some("systemctl"),
            InitSystem::OpenRC => Some("rc-update"),
            InitSystem::Runit => Some("sv"),
            _ => None,
        }
    }

    pub open spec fn spec_unit_destination(self) -> Option<&'static str> {
        match self {
            InitSystem::Systemd => Some(SERVICE_DEST),
            InitSystem::OpenRC => Some(OPENRC_SERVICE),
            InitSystem::Runit => Some(RUNIT_SERVICE),
            _ => None,
        }
    }

    /// Where the service definition is placed, when planning checks it.
    pub fn unit_destination(&self) -> (r: Option<&'static str>)
        ensures
            r == self.spec_unit_destination(),
    {
        match self {
            InitSystem::Systemd => Some(SERVICE_DEST),
            InitSystem::OpenRC => Some(OPENRC_SERVICE),
            InitSystem::Runit => Some(RUNIT_SERVICE),
            _ => None,
        }
    }

    pub open spec fn spec_missing_error(self) -> ActionErrorKind {
        match self {
            InitSystem::OpenRC => ActionErrorKind::OpenRCMissing,
            InitSystem::Runit => ActionErrorKind::RunitMissing,
            _ => ActionErrorKind::SystemdMissing,
        }
    }
}

/// The conflict, if any, that keeps a systemd unit from being linked from
/// `src` to `dest`: a file that is not a symlink, a symlink pointing anywhere
/// but `src`, or a drop-in directory.
pub open spec fn systemd_unit_conflict(
    src: &'static str,
    dest: &'static str,
    overrides_path: &'static str,
    entry: PathEntry,
    overrides: bool,
) -> Option<ActionErrorKind> {
    match entry {
        PathEntry::Other => Some(ActionErrorKind::FileExists(dest)),
        PathEntry::Symlink(target) if target@ != src@ => Some(ActionErrorKind::SymlinkExists(dest)),
        _ => if overrides {
            Some(ActionErrorKind::DirExists(overrides_path))
        } else {
            None
        },
    }
}

/// The result type of a check: `Ok` when there is no conflict, else the conflict.
pub open spec fn check_result(c: Option<ActionErrorKind>) -> Result<(), ActionErrorKind> {
    match c {
        Some(k) => Err(k),
        None => Ok(()),
    }
}

fn check_systemd_unit(
    src: &'static str,
    dest: &'static str,
    overrides_path: &'static str,
    entry: &PathEntry,
    overrides: bool,
) -> (r: Result<(), ActionErrorKind>)
    ensures
        r == check_result(systemd_unit_conflict(src, dest, overrides_path, *entry, overrides)),
{
    match entry {
        PathEntry::Other => {
            return Err(ActionErrorKind::FileExists(dest));
        },
        PathEntry::Symlink(target) => {
            let expected: String = src.to_owned();
            if !(*target == expected) {
                return Err(ActionErrorKind::SymlinkExists(dest));
            }
        },
        PathEntry::Missing => {},
    }
    if overrides {
        return Err(ActionErrorKind::DirExists(overrides_path));
    }
    Ok(())
}

/// The conflict found by the two systemd unit checks, service first.
pub open spec fn systemd_conflict(f: HostFacts) -> Option<ActionErrorKind> {
    match systemd_unit_conflict(SERVICE_SRC, SERVICE_DEST, SERVICE_OVERRIDES, f.unit_dest, f.unit_overrides) {
        Some(k) => Some(k),
        None => systemd_unit_conflict(SOCKET_SRC, SOCKET_DEST, SOCKET_OVERRIDES, f.socket_dest, f.socket_overrides),
    }
}

fn check_systemd_units(f: &HostFacts) -> (r: Result<(), ActionErrorKind>)
    ensures
        r == check_result(systemd_conflict(*f)),
{
    check_systemd_unit(SERVICE_SRC, SERVICE_DEST, SERVICE_OVERRIDES, &f.unit_dest, f.unit_overrides)?;
    check_systemd_unit(SOCKET_SRC, SOCKET_DEST, SOCKET_OVERRIDES, &f.socket_dest, f.socket_overrides)
}

/// Why planning refuses `init` on a host with facts `f`, if it does.
pub open spec fn plan_refusal(init: InitSystem, f: HostFacts) -> Option<ActionErrorKind> {
    match init {
        InitSystem::Systemd | InitSystem::OpenRC | InitSystem::Runit => if !f.supervisor_live
            || !f.control_binary_found {
            Some(init.spec_missing_error())
        } else {
            match init {
                InitSystem::Systemd => systemd_conflict(f),
                InitSystem::OpenRC => if f.unit_dest is Missing {
                    None
                } else {
                    Some(ActionErrorKind::FileExists(OPENRC_SERVICE))
                },
                _ => if f.unit_dest is Missing {
                    None
                } else {
                    Some(ActionErrorKind::DirExists(RUNIT_SERVICE))
                },
            }
        },
        _ => None,
    }
}

/// Registers the daemon with the host's service supervisor.
#[derive(Clone, Copy, Debug, PartialEq, Eq, Structural)]
pub struct ConfigureInitService {
    pub init: InitSystem,
    /// Start (or enable for immediate start) the daemon once it is registered.
    pub start_daemon: bool,
}

pub open spec fn tagged(kind: ActionErrorKind) -> ActionError {
    ActionError { tag: ActionTag(CONFIGURE_INIT_SERVICE_TAG), kind }
}

impl ConfigureInitService {
    /// The stable tag of this action.
    pub fn action_tag() -> (r: ActionTag)
        ensures
            r == ActionTag(CONFIGURE_INIT_SERVICE_TAG),
    {
        ActionTag(CONFIGURE_INIT_SERVICE_TAG)
    }

    /// The error of this action that carries `kind`.
    pub fn error(kind: ActionErrorKind) -> (r: ActionError)
        ensures
            r == tagged(kind),
    {
        ActionError { tag: ActionTag(CONFIGURE_INIT_SERVICE_TAG), kind }
    }

    /// Validates the host for registering the daemon with `init`: the
    /// supervisor must be live and nothing unexpected may stand where the
    /// service definition goes. Nothing is changed on the host.
    pub fn plan(init: InitSystem, start_daemon: bool, facts: &HostFacts) -> (r: Result<
        StatefulAction,
        ActionError,
    >)
        ensures
            match plan_refusal(init, *facts) {
                Some(k) => r == Err::<StatefulAction, ActionError>(tagged(k)),
                None => r == Ok::<StatefulAction, ActionError>(
                    StatefulAction {
                        action: Action::ConfigureInitService(
                            ConfigureInitService { init, start_daemon },
                        ),
                        state: ActionState::Uncompleted,
                    },
                ),
            },
    {
        match init {
            InitSystem::Systemd | InitSystem::OpenRC | InitSystem::Runit => {
                if !facts.supervisor_live || !facts.control_binary_found {
                    let kind = match init {
                        InitSystem::OpenRC => ActionErrorKind::OpenRCMissing,
                        InitSystem::Runit => ActionErrorKind::RunitMissing,
                        _ => ActionErrorKind::SystemdMissing,
                    };
                    return Err(Self::error(kind));
                }
                match init {
                    InitSystem::Systemd => {
                        if let Err(k) = check_systemd_units(facts) {
                            return Err(Self::error(k));
                        }
                    },
                    InitSystem::OpenRC => {
                        if !matches!(facts.unit_dest, PathEntry::Missing) {
                            return Err(Self::error(ActionErrorKind::FileExists(OPENRC_SERVICE)));
                        }
                    },
                    _ => {
                        if !matches!(facts.unit_dest, PathEntry::Missing) {
                            return Err(Self::error(ActionErrorKind::DirExists(RUNIT_SERVICE)));
                        }
                    },
                }
            },
            _ => {},
        }
        Ok(
            StatefulAction {
                action: Action::ConfigureInitService(ConfigureInitService { init, start_daemon }),
                state: ActionState::Uncompleted,
            },
        )
    }
}

/// `op` when `c` holds, else nothing.
pub open spec fn op_if(c: bool, op: HostOp) -> Seq<HostOp> {
    if c {
        seq![op]
    } else {
        Seq::empty()
    }
}

/// Bring both systemd units to rest before relinking them: disable the
/// socket, stop it, and disable (stopping along) or stop the service.
pub open spec fn systemd_quiesce(u: SystemdUnits) -> Seq<HostOp> {
    op_if(u.socket.enabled, HostOp::Run(SupervisorCmd::SystemctlDisable(Unit::Socket, false)))
        + op_if(u.socket.active, HostOp::Run(SupervisorCmd::SystemctlStop(Unit::Socket)))
        + if u.service.enabled {
        seq![HostOp::Run(SupervisorCmd::SystemctlDisable(Unit::Service, u.service.active))]
    } else {
        op_if(u.service.active, HostOp::Run(SupervisorCmd::SystemctlStop(Unit::Service)))
    }
}

/// Link the tmpfiles rule and the two unit files into place, replacing what
/// stands at the unit destinations.
pub open spec fn systemd_link(f: HostFacts) -> Seq<HostOp> {
    op_if(!f.tmpfiles_present, HostOp::Symlink(TMPFILES_SRC, TMPFILES_DEST))
        + seq![HostOp::Run(SupervisorCmd::TmpfilesCreate)]
        + op_if(!(f.unit_dest is Missing), HostOp::RemoveFile(SERVICE_DEST))
        + seq![HostOp::Symlink(SERVICE_SRC, SERVICE_DEST)]
        + op_if(!(f.socket_dest is Missing), HostOp::RemoveFile(SOCKET_DEST))
        + seq![HostOp::Symlink(SOCKET_SRC, SOCKET_DEST)]
}

/// Reload the unit cache and enable the socket, starting it when asked to or
/// when it was active before.
pub open spec fn systemd_activate(start: bool, u: SystemdUnits) -> Seq<HostOp> {
    seq![
        HostOp::Run(SupervisorCmd::SystemctlDaemonReload),
        HostOp::Run(SupervisorCmd::SystemctlEnable(Unit::Socket, start || u.socket.active)),
    ]
}

fn systemd_quiesce_ops(u: SystemdUnits) -> (r: Vec<HostOp>)
    ensures
        r@ == systemd_quiesce(u),
{
    let mut ops: Vec<HostOp> = Vec::new();
    if u.socket.enabled {
        ops.push(HostOp::Run(SupervisorCmd::SystemctlDisable(Unit::Socket, false)));
    }
    if u.socket.active {
        ops.push(HostOp::Run(SupervisorCmd::SystemctlStop(Unit::Socket)));
    }
    if u.service.enabled {
        ops.push(HostOp::Run(SupervisorCmd::SystemctlDisable(Unit::Service, u.service.active)));
    } else if u.service.active {
        ops.push(HostOp::Run(SupervisorCmd::SystemctlStop(Unit::Service)));
    }
    assert(ops@ =~= systemd_quiesce(u));
    ops
}

fn push_systemd_link_ops(ops: &mut Vec<HostOp>, f: &HostFacts)
    ensures
        final(ops)@ == old(ops)@ + systemd_link(*f),
{
    let ghost start = ops@;
    if !f.tmpfiles_present {
        ops.push(HostOp::Symlink(TMPFILES_SRC, TMPFILES_DEST));
    }
    ops.push(HostOp::Run(SupervisorCmd::TmpfilesCreate));
    if !matches!(f.unit_dest, PathEntry::Missing) {
        ops.push(HostOp::RemoveFile(SERVICE_DEST));
    }
    ops.push(HostOp::Symlink(SERVICE_SRC, SERVICE_DEST));
    if !matches!(f.socket_dest, PathEntry::Missing) {
        ops.push(HostOp::RemoveFile(SOCKET_DEST));
    }
    ops.push(HostOp::Symlink(SOCKET_SRC, SOCKET_DEST));
    assert(ops@ =~= start + systemd_link(*f));
}

impl ConfigureInitService {
    /// The operations that install the service, in order, or the conflict
    /// that forbids it.
    pub open spec fn spec_execute_ops(self, f: HostFacts) -> Result<Seq<HostOp>, ActionErrorKind> {
        match self.init {
            InitSystem::Systemd => match systemd_conflict(f) {
                Some(k) => Err(k),
                None => Ok(
                    systemd_quiesce(f.units) + systemd_link(f) + systemd_activate(
                        self.start_daemon,
                        f.units,
                    ),
                ),
            },
            InitSystem::OpenRC => Ok(
                seq![
                    HostOp::Write(OPENRC_SERVICE, OPENRC_SCRIPT),
                    HostOp::SetPermissions(OPENRC_SERVICE, EXECUTABLE_MODE),
                    HostOp::Run(SupervisorCmd::RcUpdateAdd),
                ] + op_if(self.start_daemon, HostOp::Run(SupervisorCmd::RcServiceStart)),
            ),
            InitSystem::Runit => Ok(
                seq![HostOp::CreateDir(RUNIT_SERVICE)] + op_if(
                    !self.start_daemon,
                    HostOp::CreateFile(RUNIT_DOWN),
                ) + seq![
                    HostOp::Write(RUNIT_RUN_PATH, RUNIT_SCRIPT),
                    HostOp::SetPermissions(RUNIT_RUN_PATH, EXECUTABLE_MODE),
                    HostOp::Symlink(RUNIT_SERVICE, RUNIT_SYMLINK),
                ],
            ),
            InitSystem::Launchd => Ok(
                seq![
                    HostOp::Copy(DARWIN_NIX_DAEMON_SOURCE, DARWIN_NIX_DAEMON_DEST),
                    HostOp::Run(SupervisorCmd::LaunchctlLoad),
                ] + op_if(f.launchd_disabled, HostOp::Run(SupervisorCmd::LaunchctlEnable)) + op_if(
                    self.start_daemon,
                    HostOp::Run(SupervisorCmd::LaunchctlKickstart),
                ),
            ),
            InitSystem::NoInit => Ok(Seq::empty()),
        }
    }

    /// The operations that uninstall the service, in order. Each is
    /// independent of the others: a revert attempts all of them.
    pub open spec fn spec_revert_ops(self, f: HostFacts) -> Seq<HostOp> {
        match self.init {
            InitSystem::Systemd => op_if(
                f.units.socket.active,
                HostOp::Run(SupervisorCmd::SystemctlStop(Unit::Socket)),
            ) + op_if(
                f.units.socket.enabled,
                HostOp::Run(SupervisorCmd::SystemctlDisable(Unit::Socket, false)),
            ) + op_if(
                f.units.service.active,
                HostOp::Run(SupervisorCmd::SystemctlStop(Unit::Service)),
            ) + op_if(
                f.units.service.enabled,
                HostOp::Run(SupervisorCmd::SystemctlDisable(Unit::Service, false)),
            ) + seq![
                HostOp::Run(SupervisorCmd::TmpfilesRemove),
                HostOp::RemoveFile(TMPFILES_DEST),
                HostOp::Run(SupervisorCmd::SystemctlDaemonReload),
            ],
            InitSystem::OpenRC => seq![
                HostOp::Run(SupervisorCmd::RcServiceStop),
                HostOp::Run(SupervisorCmd::RcUpdateDel),
                HostOp::RemoveFile(OPENRC_SERVICE),
            ],
            InitSystem::Runit => seq![
                HostOp::Run(SupervisorCmd::SvDown),
                HostOp::RemoveDirAll(RUNIT_SYMLINK),
                HostOp::RemoveDirAll(RUNIT_SERVICE),
            ],
            InitSystem::Launchd => seq![HostOp::Run(SupervisorCmd::LaunchctlUnload)],
            InitSystem::NoInit => Seq::empty(),
        }
    }

    /// The operations that install the service on a host with `facts`, in
    /// order; performing them stops at the first failure. A destination in an
    /// unexpected form is refused before anything is changed.
    pub fn execute_ops(&self, facts: &HostFacts) -> (r: Result<Vec<HostOp>, ActionErrorKind>)
        ensures
            match self.spec_execute_ops(*facts) {
                Ok(ops) => r is Ok && r->Ok_0@ == ops,
                Err(k) => r == Err::<Vec<HostOp>, ActionErrorKind>(k),
            },
    {
        match self.init {
            InitSystem::Systemd => {
                check_systemd_units(facts)?;
                let mut ops = systemd_quiesce_ops(facts.units);
                push_systemd_link_ops(&mut ops, facts);
                ops.push(HostOp::Run(SupervisorCmd::SystemctlDaemonReload));
                ops.push(
                    HostOp::Run(
                        SupervisorCmd::SystemctlEnable(
                            Unit::Socket,
                            self.start_daemon || facts.units.socket.active,
                        ),
                    ),
                );
                assert(ops@ =~= self.spec_execute_ops(*facts)->Ok_0);
                Ok(ops)
            },
            InitSystem::OpenRC => {
                let mut ops: Vec<HostOp> = Vec::new();
                ops.push(HostOp::Write(OPENRC_SERVICE, OPENRC_SCRIPT));
                ops.push(HostOp::SetPermissions(OPENRC_SERVICE, EXECUTABLE_MODE));
                ops.push(HostOp::Run(SupervisorCmd::RcUpdateAdd));
                if self.start_daemon {
                    ops.push(HostOp::Run(SupervisorCmd::RcServiceStart));
                }
                assert(ops@ =~= self.spec_execute_ops(*facts)->Ok_0);
                Ok(ops)
            },
            InitSystem::Runit => {
                let mut ops: Vec<HostOp> = Vec::new();
                ops.push(HostOp::CreateDir(RUNIT_SERVICE));
                if !self.start_daemon {
                    ops.push(HostOp::CreateFile(RUNIT_DOWN));
                }
                ops.push(HostOp::Write(RUNIT_RUN_PATH, RUNIT_SCRIPT));
                ops.push(HostOp::SetPermissions(RUNIT_RUN_PATH, EXECUTABLE_MODE));
                ops.push(HostOp::Symlink(RUNIT_SERVICE, RUNIT_SYMLINK));
                assert(ops@ =~= self.spec_execute_ops(*facts)->Ok_0);
                Ok(ops)
            },
            InitSystem::Launchd => {
                let mut ops: Vec<HostOp> = Vec::new();
                ops.push(HostOp::Copy(DARWIN_NIX_DAEMON_SOURCE, DARWIN_NIX_DAEMON_DEST));
                ops.push(HostOp::Run(SupervisorCmd::LaunchctlLoad));
                if facts.launchd_disabled {
                    ops.push(HostOp::Run(SupervisorCmd::LaunchctlEnable));
                }
                if self.start_daemon {
                    ops.push(HostOp::Run(SupervisorCmd::LaunchctlKickstart));
                }
                assert(ops@ =~= self.spec_execute_ops(*facts)->Ok_0);
                Ok(ops)
            },
            InitSystem::NoInit => Ok(Vec::new()),
        }
    }

    /// The operations that uninstall the service on a host with `facts`, in
    /// order. Only what is active is stopped and only what is enabled is
    /// disabled.
    pub fn revert_ops(&self, facts: &HostFacts) -> (r: Vec<HostOp>)
        ensures
            r@ == self.spec_revert_ops(*facts),
    {
        let mut ops: Vec<HostOp> = Vec::new();
        match self.init {
            InitSystem::Systemd => {
                let u = facts.units;
                if u.socket.active {
                    ops.push(HostOp::Run(SupervisorCmd::SystemctlStop(Unit::Socket)));
                }
                if u.socket.enabled {
                    ops.push(HostOp::Run(SupervisorCmd::SystemctlDisable(Unit::Socket, false)));
                }
                if u.service.active {
                    ops.push(HostOp::Run(SupervisorCmd::SystemctlStop(Unit::Service)));
                }
                if u.service.enabled {
                    ops.push(HostOp::Run(SupervisorCmd::SystemctlDisable(Unit::Service, false)));
                }
                ops.push(HostOp::Run(SupervisorCmd::TmpfilesRemove));
                ops.push(HostOp::RemoveFile(TMPFILES_DEST));
                ops.push(HostOp::Run(SupervisorCmd::SystemctlDaemonReload));
            },
            InitSystem::OpenRC => {
                ops.push(HostOp::Run(SupervisorCmd::RcServiceStop));
                ops.push(HostOp::Run(SupervisorCmd::RcUpdateDel));
                ops.push(HostOp::RemoveFile(OPENRC_SERVICE));
            },
            InitSystem::Runit => {
                ops.push(HostOp::Run(SupervisorCmd::SvDown));
                ops.push(HostOp::RemoveDirAll(RUNIT_SYMLINK));
                ops.push(HostOp::RemoveDirAll(RUNIT_SERVICE));
            },
            InitSystem::Launchd => {
                ops.push(HostOp::Run(SupervisorCmd::LaunchctlUnload));
            },
            InitSystem::NoInit => {},
        }
        assert(ops@ =~= self.spec_revert_ops(*facts));
        ops
    }
}

/// Planning with systemd on a live systemd host where a regular file (not a
/// symlink) stands at the service unit's destination fails with a conflict
/// naming that destination. On a host where systemd is not live it fails too,
/// with the supervisor reported missing.
pub proof fn systemd_plan_refuses_foreign_unit_file(f: HostFacts)
    requires
        f.unit_dest is Other,
    ensures
        plan_refusal(InitSystem::Systemd, f) is Some,
        f.supervisor_live && f.control_binary_found ==> plan_refusal(InitSystem::Systemd, f)
            == Some(ActionErrorKind::FileExists(SERVICE_DEST)),
{
}

/// Planning with systemd succeeds on a live systemd host where the unit
/// destinations are missing or are symlinks to exactly the expected sources,
/// and no drop-in directory exists: planning again after an install is
/// accepted.
pub proof fn systemd_plan_accepts_own_links(f: HostFacts)
    requires
        f.supervisor_live,
        f.control_binary_found,
        f.unit_dest is Missing || (f.unit_dest is Symlink && f.unit_dest->Symlink_0@ == SERVICE_SRC@),
        f.socket_dest is Missing || (f.socket_dest is Symlink && f.socket_dest->Symlink_0@
            == SOCKET_SRC@),
        !f.unit_overrides,
        !f.socket_overrides,
    ensures
        plan_refusal(InitSystem::Systemd, f) is None,
{
}

pub const SYNOPSIS_SYSTEMD: &'static str = "Configure Nix daemon related settings with systemd";
pub const SYNOPSIS_RUNIT: &'static str = "Configure Nix daemon related settings with runit";
pub const SYNOPSIS_OPENRC: &'static str = "Configure Nix daemon related settings with openrc";
pub const SYNOPSIS_LAUNCHD: &'static str = "Configure Nix daemon related settings with launchctl";
pub const SYNOPSIS_NONE: &'static str = "Leave the Nix daemon unconfigured";
pub const UNDO_SYSTEMD: &'static str = "Unconfigure Nix daemon related settings with systemd";
pub const UNDO_RUNIT: &'static str = "Unconfigure Nix daemon related settings with runit";
pub const UNDO_OPENRC: &'static str = "Unconfigure Nix daemon related settings with openrc";
pub const UNDO_LAUNCHD: &'static str = "Unconfigure Nix daemon related settings with launchctl";

pub const LINE_TMPFILES_CREATE: &'static str = "Run `systemd-tmpfiles --create --prefix=/nix/var/nix`";
pub const LINE_LINK_SERVICE: &'static str = "Symlink `/nix/var/nix/profiles/default/lib/systemd/system/nix-daemon.service` to `/etc/systemd/system/nix-daemon.service`";
pub const LINE_LINK_SOCKET: &'static str = "Symlink `/nix/var/nix/profiles/default/lib/systemd/system/nix-daemon.socket` to `/etc/systemd/system/nix-daemon.socket`";
pub const LINE_RELOAD: &'static str = "Run `systemctl daemon-reload`";
pub const LINE_ENABLE_SOCKET: &'static str = "Run `systemctl enable --now /nix/var/nix/profiles/default/lib/systemd/system/nix-daemon.socket`";
pub const LINE_DISABLE_SOCKET: &'static str = "Run `systemctl disable /nix/var/nix/profiles/default/lib/systemd/system/nix-daemon.socket`";
pub const LINE_DISABLE_SERVICE: &'static str = "Run `systemctl disable /nix/var/nix/profiles/default/lib/systemd/system/nix-daemon.service`";
pub const LINE_TMPFILES_REMOVE: &'static str = "Run `systemd-tmpfiles --remove --prefix=/nix/var/nix`";
pub const LINE_CREATE_OPENRC: &'static str = "Create `/etc/init.d/nix-daemon`";
pub const LINE_RC_ADD: &'static str = "Run `rc-update add nix-daemon`";
pub const LINE_RC_START: &'static str = "Run `rc-service nix-daemon start`";
pub const LINE_RC_STOP: &'static str = "Run `rc-service nix-daemon stop`";
pub const LINE_RC_DEL: &'static str = "Run `rc-update del nix-daemon`";
pub const LINE_REMOVE_OPENRC: &'static str = "Remove `/etc/init.d/nix-daemon`";
pub const LINE_CREATE_RUNIT: &'static str = "Create /etc/sv/nix-daemon";
pub const LINE_CREATE_RUNIT_DOWN: &'static str = "Create /etc/sv/nix-daemon/down";
pub const LINE_LINK_RUNIT: &'static str = "Symlink /etc/sv/nix-daemon to /var/service/nix-daemon";
pub const LINE_SV_DOWN: &'static str = "Run `sv down nix-daemon`";
pub const LINE_UNLINK_RUNIT: &'static str = "Remove symlink /var/service/nix-daemon";
pub const LINE_REMOVE_RUNIT: &'static str = "Remove /etc/sv/nix-daemon";
pub const LINE_COPY_PLIST: &'static str = "Copy `/nix/var/nix/profiles/default/Library/LaunchDaemons/org.nixos.nix-daemon.plist` to `/Library/LaunchDaemons/org.nixos.nix-daemon.plist`";
pub const LINE_LAUNCHCTL_LOAD: &'static str = "Run `launchctl load /Library/LaunchDaemons/org.nixos.nix-daemon.plist`";
pub const LINE_LAUNCHCTL_UNLOAD: &'static str = "Run `launchctl unload /Library/LaunchDaemons/org.nixos.nix-daemon.plist`";

/// `line` when `c` holds, else nothing.
pub open spec fn line_if(c: bool, line: &'static str) -> Seq<&'static str> {
    if c {
        seq![line]
    } else {
        Seq::empty()
    }
}

/// The text of each line.
pub open spec fn line_texts(ls: Seq<&'static str>) -> Seq<Seq<char>> {
    ls.map_values(|l: &'static str| l@)
}

fn owned_lines(ls: Vec<&'static str>) -> (r: Vec<String>)
    ensures
        r@.map_values(|l: String| l@) == line_texts(ls@),
{
    let mut out: Vec<String> = Vec::new();
    let mut i: usize = 0;
    while i < ls.len()
        invariant
            i <= ls@.len(),
            out@.len() == i,
            forall|k: int| 0 <= k < i ==> #[trigger] out@[k]@ == ls@[k]@,
        decreases ls@.len() - i,
    {
        out.push(ls[i].to_owned());
        i = i + 1;
    }
    assert(out@.map_values(|l: String| l@) =~= line_texts(ls@));
    out
}

impl ConfigureInitService {
    pub open spec fn spec_synopsis(self) -> &'static str {
        match self.init {
            InitSystem::Systemd => SYNOPSIS_SYSTEMD,
            InitSystem::Runit => SYNOPSIS_RUNIT,
            InitSystem::OpenRC => SYNOPSIS_OPENRC,
            InitSystem::Launchd => SYNOPSIS_LAUNCHD,
            InitSystem::NoInit => SYNOPSIS_NONE,
        }
    }

    /// A one-line summary of what the action does.
    pub fn tracing_synopsis(&self) -> (r: String)
        ensures
            r@ == self.spec_synopsis()@,
    {
        let s = match self.init {
            InitSystem::Systemd => SYNOPSIS_SYSTEMD,
            InitSystem::Runit => SYNOPSIS_RUNIT,
            InitSystem::OpenRC => SYNOPSIS_OPENRC,
            InitSystem::Launchd => SYNOPSIS_LAUNCHD,
            InitSystem::NoInit => SYNOPSIS_NONE,
        };
        s.to_owned()
    }

    /// The explanation lines of an execute.
    pub open spec fn spec_execute_lines(self) -> Seq<&'static str> {
        match self.init {
            InitSystem::Systemd => seq![LINE_TMPFILES_CREATE, LINE_LINK_SERVICE, LINE_LINK_SOCKET, LINE_RELOAD]
                + line_if(self.start_daemon, LINE_ENABLE_SOCKET),
            InitSystem::OpenRC => seq![LINE_CREATE_OPENRC, LINE_RC_ADD] + line_if(
                self.start_daemon,
                LINE_RC_START,
            ),
            InitSystem::Runit => seq![LINE_CREATE_RUNIT] + line_if(
                !self.start_daemon,
                LINE_CREATE_RUNIT_DOWN,
            ) + seq![LINE_LINK_RUNIT],
            InitSystem::Launchd => seq![LINE_COPY_PLIST] + line_if(
                self.start_daemon,
                LINE_LAUNCHCTL_LOAD,
            ),
            InitSystem::NoInit => Seq::empty(),
        }
    }

    /// What an execute will do: nothing to describe without an init system.
    pub open spec fn spec_execute_description(self) -> Seq<DescriptionText> {
        match self.init {
            InitSystem::NoInit => Seq::empty(),
            _ => seq![
                DescriptionText {
                    description: self.spec_synopsis()@,
                    explanation: line_texts(self.spec_execute_lines()),
                },
            ],
        }
    }

    /// The undo synopsis and the explanation lines of a revert.
    pub open spec fn spec_revert_text(self) -> (&'static str, Seq<&'static str>) {
        match self.init {
            InitSystem::Systemd => (
                UNDO_SYSTEMD,
                seq![LINE_DISABLE_SOCKET, LINE_DISABLE_SERVICE, LINE_TMPFILES_REMOVE, LINE_RELOAD],
            ),
            InitSystem::OpenRC => (UNDO_OPENRC, seq![LINE_RC_STOP, LINE_RC_DEL, LINE_REMOVE_OPENRC]),
            InitSystem::Runit => (UNDO_RUNIT, seq![LINE_SV_DOWN, LINE_UNLINK_RUNIT, LINE_REMOVE_RUNIT]),
            _ => (UNDO_LAUNCHD, seq![LINE_LAUNCHCTL_UNLOAD]),
        }
    }

    /// What a revert will do: nothing to describe without an init system.
    pub open spec fn spec_revert_description(self) -> Seq<DescriptionText> {
        match self.init {
            InitSystem::NoInit => Seq::empty(),
            _ => seq![
                DescriptionText {
                    description: self.spec_revert_text().0@,
                    explanation: line_texts(self.spec_revert_text().1),
                },
            ],
        }
    }

    fn execute_lines(&self) -> (r: Vec<&'static str>)
        ensures
            r@ == self.spec_execute_lines(),
    {
        let mut v: Vec<&'static str> = Vec::new();
        match self.init {
            InitSystem::Systemd => {
                v.push(LINE_TMPFILES_CREATE);
                v.push(LINE_LINK_SERVICE);
                v.push(LINE_LINK_SOCKET);
                v.push(LINE_RELOAD);
                if self.start_daemon {
                    v.push(LINE_ENABLE_SOCKET);
                }
            },
            InitSystem::OpenRC => {
                v.push(LINE_CREATE_OPENRC);
                v.push(LINE_RC_ADD);
                if self.start_daemon {
                    v.push(LINE_RC_START);
                }
            },
            InitSystem::Runit => {
                v.push(LINE_CREATE_RUNIT);
                if !self.start_daemon {
                    v.push(LINE_CREATE_RUNIT_DOWN);
                }
                v.push(LINE_LINK_RUNIT);
            },
            InitSystem::Launchd => {
                v.push(LINE_COPY_PLIST);
                if self.start_daemon {
                    v.push(LINE_LAUNCHCTL_LOAD);
                }
            },
            InitSystem::NoInit => {},
        }
        assert(v@ =~= self.spec_execute_lines());
        v
    }

    /// Describes what an execute will do, before it is done.
    pub fn execute_description(&self) -> (r: Vec<ActionDescription>)
        ensures
            texts(r@) == self.spec_execute_description(),
    {
        let mut out: Vec<ActionDescription> = Vec::new();
        if self.init != InitSystem::NoInit {
            let explanation = owned_lines(self.execute_lines());
            out.push(ActionDescription::new(self.tracing_synopsis(), explanation));
        }
        assert(texts(out@) =~= self.spec_execute_description());
        out
    }

    /// Describes what a revert will do, before it is done.
    pub fn revert_description(&self) -> (r: Vec<ActionDescription>)
        ensures
            texts(r@) == self.spec_revert_description(),
    {
        let mut out: Vec<ActionDescription> = Vec::new();
        let mut lines: Vec<&'static str> = Vec::new();
        let synopsis = match self.init {
            InitSystem::Systemd => {
                lines.push(LINE_DISABLE_SOCKET);
                lines.push(LINE_DISABLE_SERVICE);
                lines.push(LINE_TMPFILES_REMOVE);
                lines.push(LINE_RELOAD);
                UNDO_SYSTEMD
            },
            InitSystem::OpenRC => {
                lines.push(LINE_RC_STOP);
                lines.push(LINE_RC_DEL);
                lines.push(LINE_REMOVE_OPENRC);
                UNDO_OPENRC
            },
            InitSystem::Runit => {
                lines.push(LINE_SV_DOWN);
                lines.push(LINE_UNLINK_RUNIT);
                lines.push(LINE_REMOVE_RUNIT);
                UNDO_RUNIT
            },
            _ => {
                lines.push(LINE_LAUNCHCTL_UNLOAD);
                UNDO_LAUNCHD
            },
        };
        assert(lines@ =~= self.spec_revert_text().1);
        if self.init != InitSystem::NoInit {
            let explanation = owned_lines(lines);
            out.push(ActionDescription::new(synopsis.to_owned(), explanation));
        }
        assert(texts(out@) =~= self.spec_revert_description());
        out
    }
}


} // verus!
