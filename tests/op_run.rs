use harmonic::init_service::OPENRC_SERVICE;
use harmonic::{
    Action, ActionErrorKind, ActionState, ConfigureInitService, HostFacts, HostOp, InitSystem,
    OpRun, PathEntry, StatefulAction, SupervisorCmd, SystemdUnits, UnitStatus,
};

fn facts() -> HostFacts {
    let idle = UnitStatus { enabled: false, active: false };
    HostFacts {
        supervisor_live: true,
        control_binary_found: true,
        unit_dest: PathEntry::Missing,
        unit_overrides: false,
        socket_dest: PathEntry::Missing,
        socket_overrides: false,
        tmpfiles_present: false,
        units: SystemdUnits { service: idle, socket: idle },
        launchd_disabled: false,
    }
}

fn openrc(state: ActionState) -> StatefulAction {
    StatefulAction {
        action: Action::ConfigureInitService(ConfigureInitService { init: InitSystem::OpenRC, start_daemon: false }),
        state,
    }
}

#[test]
fn revert_goes_on_after_a_failed_step() {
    let mut run = OpRun::revert(&openrc(ActionState::Completed), &facts());
    let first = run.next_op().unwrap();
    assert_eq!(first, HostOp::Run(SupervisorCmd::RcServiceStop));
    run.record(Err(first.failure("not running".to_string())));
    // the second step is still attempted
    let second = run.next_op().unwrap();
    assert_eq!(second, HostOp::Run(SupervisorCmd::RcUpdateDel));
    run.record(Ok(()));
    assert_eq!(run.next_op(), Some(HostOp::RemoveFile(OPENRC_SERVICE)));
    run.record(Ok(()));
    assert_eq!(run.next_op(), None);
    let err = run.finish().unwrap_err();
    assert_eq!(err.tag.0, "configure_init_service");
    assert!(matches!(err.kind, ActionErrorKind::Command(SupervisorCmd::RcServiceStop, ref m) if m == "not running"));
}

#[test]
fn revert_reports_every_failure() {
    let mut run = OpRun::revert(&openrc(ActionState::Completed), &facts());
    while let Some(op) = run.next_op() {
        if op == HostOp::Run(SupervisorCmd::RcUpdateDel) {
            run.record(Ok(()));
        } else {
            run.record(Err(op.failure("failed".to_string())));
        }
    }
    let err = run.finish().unwrap_err();
    match err.kind {
        ActionErrorKind::Multiple(ks) => {
            assert_eq!(ks.len(), 2);
            assert!(matches!(ks[0], ActionErrorKind::Command(SupervisorCmd::RcServiceStop, _)));
            assert!(matches!(ks[1], ActionErrorKind::Remove(p, _) if p == OPENRC_SERVICE));
        },
        _ => panic!("expected an aggregate error"),
    }
}

#[test]
fn execute_stops_at_the_first_failure() {
    let mut run = OpRun::execute(&openrc(ActionState::Uncompleted), &facts()).unwrap();
    let op = run.next_op().unwrap();
    run.record(Ok(()));
    let op2 = run.next_op().unwrap();
    assert_ne!(op, op2);
    run.record(Err(op2.failure("read-only".to_string())));
    assert_eq!(run.next_op(), None);
    let err = run.finish().unwrap_err();
    assert!(matches!(err.kind, ActionErrorKind::SetPermissions(0o755, _, _)));
}

#[test]
fn clean_run_succeeds() {
    let mut run = OpRun::execute(&openrc(ActionState::Uncompleted), &facts()).unwrap();
    let mut n = 0;
    while run.next_op().is_some() {
        run.record(Ok(()));
        n += 1;
    }
    assert_eq!(n, 3);
    assert!(run.finish().is_ok());
}

#[test]
fn execute_refusal_is_tagged() {
    let mut f = facts();
    f.unit_dest = PathEntry::Other;
    let systemd = StatefulAction {
        action: Action::ConfigureInitService(ConfigureInitService { init: InitSystem::Systemd, start_daemon: false }),
        state: ActionState::Uncompleted,
    };
    let err = OpRun::execute(&systemd, &f).err().unwrap();
    assert_eq!(err.tag.0, "configure_init_service");
    assert!(matches!(err.kind, ActionErrorKind::FileExists(_)));
}
