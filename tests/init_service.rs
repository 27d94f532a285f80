use harmonic::init_service::{
    OPENRC_SCRIPT, OPENRC_SERVICE, RUNIT_SERVICE, SERVICE_DEST, SERVICE_OVERRIDES, SERVICE_SRC,
    SOCKET_DEST, SOCKET_SRC, TMPFILES_DEST, TMPFILES_SRC,
};
use harmonic::{
    unit_is_active, unit_is_enabled, Action, ActionErrorKind, ActionState, ConfigureInitService,
    ConfigureNixDaemonServiceError, HostFacts, HostOp, InitSystem, PathEntry, SupervisorCmd,
    SystemdUnits, Unit, UnitStatus,
};

fn idle() -> UnitStatus {
    UnitStatus { enabled: false, active: false }
}

fn live_host() -> HostFacts {
    HostFacts {
        supervisor_live: true,
        control_binary_found: true,
        unit_dest: PathEntry::Missing,
        unit_overrides: false,
        socket_dest: PathEntry::Missing,
        socket_overrides: false,
        tmpfiles_present: false,
        units: SystemdUnits { service: idle(), socket: idle() },
        launchd_disabled: false,
    }
}

/// Plays the systemctl commands among `ops` against a model of the two units.
fn simulate(mut units: SystemdUnits, ops: &[HostOp]) -> SystemdUnits {
    for op in ops {
        if let HostOp::Run(cmd) = op {
            let (unit, f): (Unit, Box<dyn Fn(UnitStatus) -> UnitStatus>) = match *cmd {
                SupervisorCmd::SystemctlStop(u) => {
                    (u, Box::new(|s: UnitStatus| UnitStatus { active: false, ..s }))
                },
                SupervisorCmd::SystemctlEnable(u, now) => (
                    u,
                    Box::new(move |s: UnitStatus| UnitStatus { enabled: true, active: now || s.active }),
                ),
                SupervisorCmd::SystemctlDisable(u, now) => (
                    u,
                    Box::new(move |s: UnitStatus| UnitStatus { enabled: false, active: !now && s.active }),
                ),
                _ => continue,
            };
            match unit {
                Unit::Service => units.service = f(units.service),
                Unit::Socket => units.socket = f(units.socket),
            }
        }
    }
    units
}

#[test]
fn systemd_plan_refuses_regular_unit_file() {
    let mut facts = live_host();
    facts.unit_dest = PathEntry::Other;
    let err = ConfigureInitService::plan(InitSystem::Systemd, false, &facts).unwrap_err();
    assert_eq!(err.tag.0, "configure_init_service");
    assert!(matches!(err.kind, ActionErrorKind::FileExists(p) if p == SERVICE_DEST));
}

#[test]
fn systemd_plan_accepts_existing_own_symlink() {
    let mut facts = live_host();
    facts.unit_dest = PathEntry::Symlink(SERVICE_SRC.to_string());
    facts.socket_dest = PathEntry::Symlink(SOCKET_SRC.to_string());
    let planned = ConfigureInitService::plan(InitSystem::Systemd, true, &facts).unwrap();
    assert_eq!(planned.state, ActionState::Uncompleted);
    assert_eq!(
        planned.action,
        Action::ConfigureInitService(ConfigureInitService { init: InitSystem::Systemd, start_daemon: true })
    );
}

#[test]
fn systemd_plan_refuses_foreign_symlink_and_dropins() {
    let mut facts = live_host();
    facts.socket_dest = PathEntry::Symlink("/elsewhere/nix-daemon.socket".to_string());
    let err = ConfigureInitService::plan(InitSystem::Systemd, false, &facts).unwrap_err();
    assert!(matches!(err.kind, ActionErrorKind::SymlinkExists(p) if p == SOCKET_DEST));

    let mut facts = live_host();
    facts.unit_overrides = true;
    let err = ConfigureInitService::plan(InitSystem::Systemd, false, &facts).unwrap_err();
    assert!(matches!(err.kind, ActionErrorKind::DirExists(p) if p == SERVICE_OVERRIDES));
}

#[test]
fn plan_reports_missing_supervisors() {
    let mut facts = live_host();
    facts.supervisor_live = false;
    let err = ConfigureInitService::plan(InitSystem::Systemd, false, &facts).unwrap_err();
    assert!(matches!(err.kind, ActionErrorKind::SystemdMissing));
    let mut facts = live_host();
    facts.control_binary_found = false;
    let err = ConfigureInitService::plan(InitSystem::OpenRC, false, &facts).unwrap_err();
    assert!(matches!(err.kind, ActionErrorKind::OpenRCMissing));
    let err = ConfigureInitService::plan(InitSystem::Runit, false, &facts).unwrap_err();
    assert!(matches!(err.kind, ActionErrorKind::RunitMissing));
    // launchd and no init system have no liveness check
    assert!(ConfigureInitService::plan(InitSystem::Launchd, false, &facts).is_ok());
    assert!(ConfigureInitService::plan(InitSystem::NoInit, false, &facts).is_ok());
}

#[test]
fn plan_refuses_existing_openrc_and_runit_destinations() {
    let mut facts = live_host();
    facts.unit_dest = PathEntry::Other;
    let err = ConfigureInitService::plan(InitSystem::OpenRC, false, &facts).unwrap_err();
    assert!(matches!(err.kind, ActionErrorKind::FileExists(p) if p == OPENRC_SERVICE));
    let err = ConfigureInitService::plan(InitSystem::Runit, false, &facts).unwrap_err();
    assert!(matches!(err.kind, ActionErrorKind::DirExists(p) if p == RUNIT_SERVICE));
    // launchd overwrites its destination
    assert!(ConfigureInitService::plan(InitSystem::Launchd, false, &facts).is_ok());
}

#[test]
fn systemd_install_without_start_leaves_socket_idle() {
    let mut facts = live_host();
    facts.units = SystemdUnits {
        service: UnitStatus { enabled: true, active: true },
        socket: UnitStatus { enabled: true, active: false },
    };
    let svc = ConfigureInitService { init: InitSystem::Systemd, start_daemon: false };
    let ops = svc.execute_ops(&facts).unwrap();
    let end = simulate(facts.units, &ops);
    assert!(!end.service.enabled);
    assert!(end.socket.enabled);
    assert!(!end.socket.active);
    assert_eq!(
        ops,
        vec![
            HostOp::Run(SupervisorCmd::SystemctlDisable(Unit::Socket, false)),
            HostOp::Run(SupervisorCmd::SystemctlDisable(Unit::Service, true)),
            HostOp::Symlink(TMPFILES_SRC, TMPFILES_DEST),
            HostOp::Run(SupervisorCmd::TmpfilesCreate),
            HostOp::Symlink(SERVICE_SRC, SERVICE_DEST),
            HostOp::Symlink(SOCKET_SRC, SOCKET_DEST),
            HostOp::Run(SupervisorCmd::SystemctlDaemonReload),
            HostOp::Run(SupervisorCmd::SystemctlEnable(Unit::Socket, false)),
        ]
    );
}

#[test]
fn systemd_install_with_start_activates_socket() {
    let mut facts = live_host();
    facts.tmpfiles_present = true;
    facts.unit_dest = PathEntry::Symlink(SERVICE_SRC.to_string());
    facts.units.service = UnitStatus { enabled: false, active: true };
    let svc = ConfigureInitService { init: InitSystem::Systemd, start_daemon: true };
    let ops = svc.execute_ops(&facts).unwrap();
    let end = simulate(facts.units, &ops);
    assert!(!end.service.enabled);
    assert!(!end.service.active);
    assert!(end.socket.enabled);
    assert!(end.socket.active);
    assert!(ops.contains(&HostOp::RemoveFile(SERVICE_DEST)));
    assert!(!ops.contains(&HostOp::Symlink(TMPFILES_SRC, TMPFILES_DEST)));
}

#[test]
fn systemd_install_keeps_previously_active_socket_active() {
    let mut facts = live_host();
    facts.units.socket = UnitStatus { enabled: true, active: true };
    let svc = ConfigureInitService { init: InitSystem::Systemd, start_daemon: false };
    let ops = svc.execute_ops(&facts).unwrap();
    assert_eq!(ops.last(), Some(&HostOp::Run(SupervisorCmd::SystemctlEnable(Unit::Socket, true))));
    let end = simulate(facts.units, &ops);
    assert!(end.socket.enabled && end.socket.active);
}

#[test]
fn systemd_execute_refuses_conflict_before_any_change() {
    let mut facts = live_host();
    facts.socket_dest = PathEntry::Other;
    let svc = ConfigureInitService { init: InitSystem::Systemd, start_daemon: true };
    let err = svc.execute_ops(&facts).unwrap_err();
    assert!(matches!(err, ActionErrorKind::FileExists(p) if p == SOCKET_DEST));
}

#[test]
fn openrc_runit_launchd_execute_ops() {
    let facts = live_host();
    let openrc = ConfigureInitService { init: InitSystem::OpenRC, start_daemon: true };
    assert_eq!(
        openrc.execute_ops(&facts).unwrap(),
        vec![
            HostOp::Write(OPENRC_SERVICE, OPENRC_SCRIPT),
            HostOp::SetPermissions(OPENRC_SERVICE, 0o755),
            HostOp::Run(SupervisorCmd::RcUpdateAdd),
            HostOp::Run(SupervisorCmd::RcServiceStart),
        ]
    );
    let runit = ConfigureInitService { init: InitSystem::Runit, start_daemon: false };
    let ops = runit.execute_ops(&facts).unwrap();
    assert_eq!(ops.len(), 5);
    assert_eq!(ops[1], HostOp::CreateFile("/etc/sv/nix-daemon/down"));
    assert_eq!(ops[4], HostOp::Symlink("/etc/sv/nix-daemon", "/var/service/nix-daemon"));
    let runit_started = ConfigureInitService { init: InitSystem::Runit, start_daemon: true };
    assert_eq!(runit_started.execute_ops(&facts).unwrap().len(), 4);
    let mut disabled = live_host();
    disabled.launchd_disabled = true;
    let launchd = ConfigureInitService { init: InitSystem::Launchd, start_daemon: true };
    assert_eq!(
        launchd.execute_ops(&disabled).unwrap(),
        vec![
            HostOp::Copy(
                "/nix/var/nix/profiles/default/Library/LaunchDaemons/org.nixos.nix-daemon.plist",
                "/Library/LaunchDaemons/org.nixos.nix-daemon.plist"
            ),
            HostOp::Run(SupervisorCmd::LaunchctlLoad),
            HostOp::Run(SupervisorCmd::LaunchctlEnable),
            HostOp::Run(SupervisorCmd::LaunchctlKickstart),
        ]
    );
    let none = ConfigureInitService { init: InitSystem::NoInit, start_daemon: true };
    assert!(none.execute_ops(&facts).unwrap().is_empty());
}

#[test]
fn systemd_revert_only_stops_what_is_active() {
    let mut facts = live_host();
    facts.units.socket = UnitStatus { enabled: true, active: true };
    let svc = ConfigureInitService { init: InitSystem::Systemd, start_daemon: true };
    assert_eq!(
        svc.revert_ops(&facts),
        vec![
            HostOp::Run(SupervisorCmd::SystemctlStop(Unit::Socket)),
            HostOp::Run(SupervisorCmd::SystemctlDisable(Unit::Socket, false)),
            HostOp::Run(SupervisorCmd::TmpfilesRemove),
            HostOp::RemoveFile(TMPFILES_DEST),
            HostOp::Run(SupervisorCmd::SystemctlDaemonReload),
        ]
    );
    let runit = ConfigureInitService { init: InitSystem::Runit, start_daemon: true };
    assert_eq!(
        runit.revert_ops(&facts),
        vec![
            HostOp::Run(SupervisorCmd::SvDown),
            HostOp::RemoveDirAll("/var/service/nix-daemon"),
            HostOp::RemoveDirAll("/etc/sv/nix-daemon"),
        ]
    );
}

#[test]
fn supervisor_command_lines() {
    assert_eq!(
        SupervisorCmd::SystemctlEnable(Unit::Socket, true).argv(),
        vec!["systemctl", "enable", SOCKET_SRC, "--now"]
    );
    assert_eq!(
        SupervisorCmd::SystemctlDisable(Unit::Service, false).argv(),
        vec!["systemctl", "disable", "nix-daemon.service"]
    );
    assert_eq!(SupervisorCmd::SystemctlIsActive(Unit::Socket).argv(), vec!["systemctl", "is-active", "nix-daemon.socket"]);
    assert_eq!(SupervisorCmd::TmpfilesCreate.argv(), vec!["systemd-tmpfiles", "--create", "--prefix=/nix/var/nix"]);
    assert_eq!(SupervisorCmd::RcServiceStop.argv(), vec!["rc-service", "nix-daemon", "stop"]);
    assert_eq!(
        SupervisorCmd::LaunchctlKickstart.argv(),
        vec!["launchctl", "kickstart", "-k", "system/org.nixos.nix-daemon"]
    );
}

#[test]
fn systemctl_output_is_read() {
    assert!(unit_is_active("active\n"));
    assert!(!unit_is_active("inactive\n"));
    assert!(!unit_is_active("activ"));
    assert!(unit_is_enabled("enabled\n"));
    assert!(unit_is_enabled("linked-runtime\n"));
    assert!(!unit_is_enabled("disabled\n"));
    assert!(!unit_is_enabled(""));
}

#[test]
fn failures_name_the_operation() {
    let k = HostOp::Symlink(SERVICE_SRC, SERVICE_DEST).failure("denied".to_string());
    assert!(matches!(k, ActionErrorKind::Symlink(s, d, m) if s == SERVICE_SRC && d == SERVICE_DEST && m == "denied"));
    let k = HostOp::SetPermissions(OPENRC_SERVICE, 0o755).failure("ro".to_string());
    assert!(matches!(k, ActionErrorKind::SetPermissions(0o755, p, _) if p == OPENRC_SERVICE));
    let k = HostOp::Run(SupervisorCmd::SvDown).failure("exit 1".to_string());
    assert!(matches!(k, ActionErrorKind::Command(SupervisorCmd::SvDown, _)));
}

#[test]
fn descriptions_of_the_action() {
    let svc = ConfigureInitService { init: InitSystem::Runit, start_daemon: false };
    assert_eq!(svc.tracing_synopsis(), "Configure Nix daemon related settings with runit");
    let d = svc.execute_description();
    assert_eq!(d.len(), 1);
    assert_eq!(
        d[0].explanation,
        vec![
            "Create /etc/sv/nix-daemon".to_string(),
            "Create /etc/sv/nix-daemon/down".to_string(),
            "Symlink /etc/sv/nix-daemon to /var/service/nix-daemon".to_string(),
        ]
    );
    let r = ConfigureInitService { init: InitSystem::OpenRC, start_daemon: true }.revert_description();
    assert_eq!(r[0].description, "Unconfigure Nix daemon related settings with openrc");
    assert_eq!(r[0].explanation.len(), 3);
    let none = ConfigureInitService { init: InitSystem::NoInit, start_daemon: true };
    assert!(none.execute_description().is_empty());
    assert!(none.revert_description().is_empty());
    assert_eq!(none.tracing_synopsis(), "Leave the Nix daemon unconfigured");
}

#[test]
fn host_probe_locations() {
    assert_eq!(InitSystem::Systemd.sentinel(), Some("/run/systemd/system"));
    assert_eq!(InitSystem::Runit.control_binary(), Some("sv"));
    assert_eq!(InitSystem::OpenRC.unit_destination(), Some(OPENRC_SERVICE));
    assert_eq!(InitSystem::Launchd.sentinel(), None);
    assert_eq!(ConfigureInitService::action_tag().0, "configure_init_service");
    assert_eq!(ConfigureNixDaemonServiceError::InitNotSupported.message(), "No supported init system found");
}

#[test]
fn launchd_disabled_listing_is_read() {
    let listing = "disabled services = {\n\t\"com.apple.ftpd\" => disabled\n\t\"org.nixos.nix-daemon\" => disabled\n}\n";
    assert!(harmonic::launchd_reports_disabled(listing));
    assert!(harmonic::launchd_reports_disabled("\"org.nixos.nix-daemon\" => true"));
    assert!(!harmonic::launchd_reports_disabled("\t\"org.nixos.nix-daemon\" => enabled\n"));
    assert!(!harmonic::launchd_reports_disabled(""));
}
