use harmonic::{
    Action, ActionError, ActionErrorKind, ActionState, ActionTag, ConfigureInitService, HostFacts,
    InitSystem, InstallError, InstallPlan, InstallSettings, InstallStep, PathEntry, Receipt,
    StatefulAction, SystemdUnits, UnitStatus,
};

fn facts() -> HostFacts {
    let idle = UnitStatus { enabled: false, active: false };
    HostFacts {
        supervisor_live: true,
        control_binary_found: true,
        unit_dest: PathEntry::Missing,
        unit_overrides: false,
        socket_dest: PathEntry::Missing,
        socket_overrides: false,
        tmpfiles_present: false,
        units: SystemdUnits { service: idle, socket: idle },
        launchd_disabled: false,
    }
}

fn settings(init: InitSystem, explain: bool) -> InstallSettings {
    InstallSettings {
        init,
        start_daemon: true,
        channels: vec![("nixpkgs".to_string(), "https://nixos.org/channels/nixpkgs-unstable".to_string())],
        explain,
    }
}

fn planned(init: InitSystem) -> StatefulAction {
    ConfigureInitService::plan(init, false, &facts()).unwrap()
}

fn err(msg: &str) -> ActionError {
    ActionError { tag: ActionTag("configure_init_service"), kind: ActionErrorKind::Command(harmonic::SupervisorCmd::SvDown, msg.to_string()) }
}

fn message(e: &ActionError) -> String {
    match &e.kind {
        ActionErrorKind::Command(_, m) => m.clone(),
        _ => String::new(),
    }
}

fn plan_of(n: usize) -> InstallPlan {
    let actions = (0..n).map(|_| planned(InitSystem::Runit)).collect();
    InstallPlan::from_actions(settings(InitSystem::Runit, false), actions)
}

#[test]
fn failing_action_rolls_back_earlier_ones_in_reverse() {
    let mut install = plan_of(4).install();
    let mut asked = Vec::new();
    loop {
        let step = install.next();
        asked.push(step);
        match step {
            InstallStep::Execute(2) => install.record(Err(err("boom"))),
            InstallStep::Execute(_) | InstallStep::Revert(_) => install.record(Ok(())),
            InstallStep::Finished => break,
        }
    }
    assert_eq!(
        asked,
        vec![
            InstallStep::Execute(0),
            InstallStep::Execute(1),
            InstallStep::Execute(2),
            InstallStep::Revert(1),
            InstallStep::Revert(0),
            InstallStep::Finished,
        ]
    );
    match install.finish() {
        Err(InstallError::Action(e)) => assert_eq!(message(&e), "boom"),
        _ => panic!("expected the execute failure alone"),
    }
}

#[test]
fn failed_reverts_are_surfaced_with_the_original_failure() {
    let mut install = plan_of(3).install();
    loop {
        match install.next() {
            InstallStep::Execute(2) => install.record(Err(err("boom"))),
            InstallStep::Execute(_) => install.record(Ok(())),
            InstallStep::Revert(i) => install.record(Err(err(&format!("revert {i}")))),
            InstallStep::Finished => break,
        }
    }
    match install.finish() {
        Err(InstallError::FailedReverts(primary, reverts)) => {
            assert_eq!(primary.len(), 1);
            assert_eq!(message(&primary[0]), "boom");
            assert_eq!(reverts.iter().map(message).collect::<Vec<_>>(), vec!["revert 1", "revert 0"]);
        },
        _ => panic!("expected the failed reverts"),
    }
}

#[test]
fn first_action_failing_reverts_nothing() {
    let mut install = plan_of(2).install();
    assert_eq!(install.next(), InstallStep::Execute(0));
    install.record(Err(err("early")));
    assert_eq!(install.next(), InstallStep::Finished);
    assert!(matches!(install.finish(), Err(InstallError::Action(_))));
}

#[test]
fn successful_install_yields_receipt_in_order() {
    let plan = InstallPlan::from_actions(
        settings(InitSystem::Runit, false),
        vec![planned(InitSystem::Runit), planned(InitSystem::OpenRC)],
    );
    let mut install = plan.install();
    while let InstallStep::Execute(i) = install.next() {
        assert_eq!(install.action(i).state, ActionState::Uncompleted);
        install.record(Ok(()));
    }
    let receipt = install.finish().unwrap();
    assert_eq!(receipt.actions.len(), 2);
    assert!(receipt.is_complete());
    assert!(matches!(receipt.actions[1].action, Action::ConfigureInitService(c) if c.init == InitSystem::OpenRC));
}

#[test]
fn empty_plan_finishes_at_once() {
    let install = plan_of(0).install();
    assert_eq!(install.next(), InstallStep::Finished);
    assert!(install.finish().unwrap().actions.is_empty());
}

#[test]
fn receipt_revert_walks_backwards() {
    let completed = |init| StatefulAction {
        action: Action::ConfigureInitService(ConfigureInitService { init, start_daemon: false }),
        state: ActionState::Completed,
    };
    let receipt = Receipt { actions: vec![completed(InitSystem::Runit), completed(InitSystem::OpenRC), completed(InitSystem::Systemd)] };
    assert_eq!(receipt.describe_revert()[0].description, "Unconfigure Nix daemon related settings with systemd");
    let mut run = receipt.revert();
    let mut asked = Vec::new();
    loop {
        let step = run.next();
        asked.push(step);
        match step {
            InstallStep::Revert(1) => run.record(Err(err("stuck"))),
            InstallStep::Revert(i) => {
                assert_eq!(run.action(i).state, ActionState::Completed);
                run.record(Ok(()))
            },
            _ => break,
        }
    }
    assert_eq!(
        asked,
        vec![InstallStep::Revert(2), InstallStep::Revert(1), InstallStep::Revert(0), InstallStep::Finished]
    );
    match run.finish() {
        Err(InstallError::FailedReverts(primary, reverts)) => {
            assert!(primary.is_empty());
            assert_eq!(reverts.len(), 1);
            assert_eq!(message(&reverts[0]), "stuck");
        },
        _ => panic!("expected the failed revert"),
    }
}

#[test]
fn incomplete_receipt_is_detected() {
    let receipt = Receipt { actions: vec![planned(InitSystem::Runit)] };
    assert!(!receipt.is_complete());
}

#[test]
fn new_plan_plans_the_init_service() {
    let plan = InstallPlan::new(settings(InitSystem::Systemd, false), &facts()).unwrap();
    assert_eq!(plan.actions.len(), 1);
    let mut f = facts();
    f.unit_dest = PathEntry::Other;
    let e = InstallPlan::new(settings(InitSystem::Systemd, false), &f).unwrap_err();
    assert!(matches!(e.kind, ActionErrorKind::FileExists(_)));
}

#[test]
fn plan_description_text() {
    let plan = InstallPlan::new(settings(InitSystem::OpenRC, false), &facts()).unwrap();
    assert_eq!(
        plan.description(),
        "This Nix install is for:\n\
         Operating System: Linux\n\
         Init system: openrc\n\
         Nix channels: nixpkgs=https://nixos.org/channels/nixpkgs-unstable\n\
         \n\
         The following actions will be taken:\n\
         * Configure Nix daemon related settings with openrc\n\
         \n"
    );
    let mut s = settings(InitSystem::OpenRC, true);
    s.channels.push(("home".to_string(), "https://example.org/home".to_string()));
    let plan = InstallPlan::new(s, &facts()).unwrap();
    assert_eq!(
        plan.description(),
        "This Nix install is for:\n\
         Operating System: Linux\n\
         Init system: openrc\n\
         Nix channels: nixpkgs=https://nixos.org/channels/nixpkgs-unstable,home=https://example.org/home\n\
         \n\
         The following actions will be taken:\n\
         * Configure Nix daemon related settings with openrc\n\
         \x20 Create `/etc/init.d/nix-daemon`\n\
         \x20 Run `rc-update add nix-daemon`\n\
         \x20 Run `rc-service nix-daemon start`\n\
         \n"
    );
}

#[test]
fn description_separates_actions_and_skips_empty_ones() {
    let mut s = settings(InitSystem::Launchd, false);
    s.channels.clear();
    let plan = InstallPlan::from_actions(
        s,
        vec![planned(InitSystem::Launchd), planned(InitSystem::NoInit), planned(InitSystem::Runit)],
    );
    assert_eq!(
        plan.description(),
        "This Nix install is for:\n\
         Operating System: macOS\n\
         Init system: launchd\n\
         Nix channels: \n\
         \n\
         The following actions will be taken:\n\
         * Configure Nix daemon related settings with launchctl\n\
         \n\
         * Configure Nix daemon related settings with runit\n\
         \n"
    );
}

#[test]
fn revert_descriptions_render_with_explanations() {
    let receipt = Receipt {
        actions: vec![StatefulAction {
            action: Action::ConfigureInitService(ConfigureInitService { init: InitSystem::Launchd, start_daemon: true }),
            state: ActionState::Completed,
        }],
    };
    assert_eq!(
        harmonic::render_descriptions(&receipt.describe_revert(), true),
        "* Unconfigure Nix daemon related settings with launchctl\n  Run `launchctl unload /Library/LaunchDaemons/org.nixos.nix-daemon.plist`\n"
    );
    assert_eq!(
        harmonic::render_descriptions(&receipt.describe_revert(), false),
        "* Unconfigure Nix daemon related settings with launchctl\n"
    );
}
