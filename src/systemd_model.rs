//! A model of what systemd does with the daemon's two units, and what an
//! install leaves them in.
use vstd::prelude::*;

use crate::error::ActionErrorKind;
use crate::init_service::{
    systemd_activate, systemd_link, systemd_quiesce, op_if, ConfigureInitService, HostFacts,
    HostOp, InitSystem, SupervisorCmd, SystemdUnits, Unit, UnitStatus, SERVICE_DEST, SERVICE_SRC,
    SOCKET_DEST, SOCKET_SRC, TMPFILES_DEST, TMPFILES_SRC,
};

verus! {

impl SystemdUnits {
    pub open spec fn unit(self, u: Unit) -> UnitStatus {
        match u {
            Unit::Service => self.service,
            Unit::Socket => self.socket,
        }
    }

    pub open spec fn with_unit(self, u: Unit, st: UnitStatus) -> SystemdUnits {
        match u {
            Unit::Service => SystemdUnits { service: st, ..self },
            Unit::Socket => SystemdUnits { socket: st, ..self },
        }
    }

    /// The units after systemd carries out `c`: `stop` deactivates, `enable`
    /// enables (and with `--now` activates), `disable` disables (and with
    /// `--now` deactivates); other commands leave them as they are.
    pub open spec fn after_cmd(self, c: SupervisorCmd) -> SystemdUnits {
        match c {
            SupervisorCmd::SystemctlStop(u) => self.with_unit(
                u,
                UnitStatus { active: false, ..self.unit(u) },
            ),
            SupervisorCmd::SystemctlEnable(u, now) => self.with_unit(
                u,
                UnitStatus { enabled: true, active: now || self.unit(u).active },
            ),
            SupervisorCmd::SystemctlDisable(u, now) => self.with_unit(
                u,
                UnitStatus { enabled: false, active: !now && self.unit(u).active },
            ),
            _ => self,
        }
    }

    pub open spec fn after_op(self, op: HostOp) -> SystemdUnits {
        match op {
            HostOp::Run(c) => self.after_cmd(c),
            _ => self,
        }
    }

    /// The units after the operations `ops` all succeed, in order.
    pub open spec fn after_ops(self, ops: Seq<HostOp>) -> SystemdUnits
        decreases ops.len(),
    {
        if ops.len() == 0 {
            self
        } else {
            self.after_ops(ops.drop_last()).after_op(ops.last())
        }
    }
}

proof fn lemma_after_ops_concat(s: SystemdUnits, a: Seq<HostOp>, b: Seq<HostOp>)
    ensures
        s.after_ops(a + b) == s.after_ops(a).after_ops(b),
    decreases b.len(),
{
    if b.len() == 0 {
        assert(a + b =~= a);
    } else {
        assert((a + b).drop_last() =~= a + b.drop_last());
        lemma_after_ops_concat(s, a, b.drop_last());
    }
}

proof fn lemma_after_ops_one(s: SystemdUnits, op: HostOp)
    ensures
        s.after_ops(seq![op]) == s.after_op(op),
{
    assert(seq![op].drop_last() =~= Seq::<HostOp>::empty());
    assert(s.after_ops(Seq::<HostOp>::empty()) == s);
    assert(seq![op].last() == op);
}

proof fn lemma_after_ops_op_if(s: SystemdUnits, c: bool, op: HostOp)
    ensures
        s.after_ops(op_if(c, op)) == if c { s.after_op(op) } else { s },
{
    if c {
        lemma_after_ops_one(s, op);
    }
}

/// Linking the unit files changes neither unit's enablement nor activation.
proof fn lemma_link_keeps_units(s: SystemdUnits, f: HostFacts)
    ensures
        s.after_ops(systemd_link(f)) == s,
{
    let a = op_if(!f.tmpfiles_present, HostOp::Symlink(TMPFILES_SRC, TMPFILES_DEST));
    let b = seq![HostOp::Run(SupervisorCmd::TmpfilesCreate)];
    let c = op_if(!(f.unit_dest is Missing), HostOp::RemoveFile(SERVICE_DEST));
    let d = seq![HostOp::Symlink(SERVICE_SRC, SERVICE_DEST)];
    let e = op_if(!(f.socket_dest is Missing), HostOp::RemoveFile(SOCKET_DEST));
    let g = seq![HostOp::Symlink(SOCKET_SRC, SOCKET_DEST)];
    lemma_after_ops_concat(s, a + b + c + d + e, g);
    lemma_after_ops_concat(s, a + b + c + d, e);
    lemma_after_ops_concat(s, a + b + c, d);
    lemma_after_ops_concat(s, a + b, c);
    lemma_after_ops_concat(s, a, b);
    lemma_after_ops_op_if(s, !f.tmpfiles_present, HostOp::Symlink(TMPFILES_SRC, TMPFILES_DEST));
    lemma_after_ops_one(s, HostOp::Run(SupervisorCmd::TmpfilesCreate));
    lemma_after_ops_op_if(s, !(f.unit_dest is Missing), HostOp::RemoveFile(SERVICE_DEST));
    lemma_after_ops_one(s, HostOp::Symlink(SERVICE_SRC, SERVICE_DEST));
    lemma_after_ops_op_if(s, !(f.socket_dest is Missing), HostOp::RemoveFile(SOCKET_DEST));
    lemma_after_ops_one(s, HostOp::Symlink(SOCKET_SRC, SOCKET_DEST));
}

/// Quiescing leaves the service disabled and inactive, and the socket
/// disabled and inactive.
proof fn lemma_quiesce_rests_units(u: SystemdUnits)
    ensures
        u.after_ops(systemd_quiesce(u)) == (SystemdUnits {
            service: UnitStatus { enabled: false, active: false },
            socket: UnitStatus { enabled: false, active: false },
        }),
{
    let a = op_if(u.socket.enabled, HostOp::Run(SupervisorCmd::SystemctlDisable(Unit::Socket, false)));
    let b = op_if(u.socket.active, HostOp::Run(SupervisorCmd::SystemctlStop(Unit::Socket)));
    let c = if u.service.enabled {
        seq![HostOp::Run(SupervisorCmd::SystemctlDisable(Unit::Service, u.service.active))]
    } else {
        op_if(u.service.active, HostOp::Run(SupervisorCmd::SystemctlStop(Unit::Service)))
    };
    lemma_after_ops_concat(u, a + b, c);
    lemma_after_ops_concat(u, a, b);
    lemma_after_ops_op_if(u, u.socket.enabled, HostOp::Run(SupervisorCmd::SystemctlDisable(Unit::Socket, false)));
    let u1 = u.after_ops(a);
    lemma_after_ops_op_if(u1, u.socket.active, HostOp::Run(SupervisorCmd::SystemctlStop(Unit::Socket)));
    let u2 = u1.after_ops(b);
    if u.service.enabled {
        lemma_after_ops_one(u2, HostOp::Run(SupervisorCmd::SystemctlDisable(Unit::Service, u.service.active)));
    } else {
        lemma_after_ops_op_if(u2, u.service.active, HostOp::Run(SupervisorCmd::SystemctlStop(Unit::Service)));
    }
}

/// Installing with systemd ends with the service disabled and inactive (it is
/// started through its socket) and the socket enabled, active exactly when
/// the start flag is set or it was active before.
proof fn lemma_systemd_install_units(svc: ConfigureInitService, f: HostFacts, ops: Seq<HostOp>)
    requires
        svc.init == InitSystem::Systemd,
        svc.spec_execute_ops(f) == Ok::<Seq<HostOp>, ActionErrorKind>(ops),
    ensures
        f.units.after_ops(ops) == (SystemdUnits {
            service: UnitStatus { enabled: false, active: false },
            socket: UnitStatus { enabled: true, active: svc.start_daemon || f.units.socket.active },
        }),
{
    let u = f.units;
    let q = systemd_quiesce(u);
    let l = systemd_link(f);
    let a = systemd_activate(svc.start_daemon, u);
    assert(ops == q + l + a);
    lemma_after_ops_concat(u, q + l, a);
    lemma_after_ops_concat(u, q, l);
    lemma_quiesce_rests_units(u);
    let rest = u.after_ops(q);
    lemma_link_keeps_units(rest, f);
    let r1 = rest.after_op(HostOp::Run(SupervisorCmd::SystemctlDaemonReload));
    assert(a =~= seq![HostOp::Run(SupervisorCmd::SystemctlDaemonReload)] + seq![
        HostOp::Run(SupervisorCmd::SystemctlEnable(Unit::Socket, svc.start_daemon || u.socket.active)),
    ]);
    lemma_after_ops_concat(rest, seq![HostOp::Run(SupervisorCmd::SystemctlDaemonReload)], seq![
        HostOp::Run(SupervisorCmd::SystemctlEnable(Unit::Socket, svc.start_daemon || u.socket.active)),
    ]);
    lemma_after_ops_one(rest, HostOp::Run(SupervisorCmd::SystemctlDaemonReload));
    lemma_after_ops_one(r1, HostOp::Run(SupervisorCmd::SystemctlEnable(Unit::Socket, svc.start_daemon || u.socket.active)));
}

/// A systemd install without the start flag, on a host where the socket was
/// not active, leaves the service disabled, and the socket enabled but
/// inactive.
pub proof fn systemd_install_without_start(f: HostFacts, ops: Seq<HostOp>)
    requires
        (ConfigureInitService { init: InitSystem::Systemd, start_daemon: false }).spec_execute_ops(
            f,
        ) == Ok::<Seq<HostOp>, ActionErrorKind>(ops),
        !f.units.socket.active,
    ensures
        !f.units.after_ops(ops).service.enabled,
        f.units.after_ops(ops).socket.enabled,
        !f.units.after_ops(ops).socket.active,
{
    lemma_systemd_install_units(
        ConfigureInitService { init: InitSystem::Systemd, start_daemon: false },
        f,
        ops,
    );
}

/// A systemd install with the start flag leaves the service disabled, and the
/// socket enabled and active.
pub proof fn systemd_install_with_start(f: HostFacts, ops: Seq<HostOp>)
    requires
        (ConfigureInitService { init: InitSystem::Systemd, start_daemon: true }).spec_execute_ops(f)
            == Ok::<Seq<HostOp>, ActionErrorKind>(ops),
    ensures
        !f.units.after_ops(ops).service.enabled,
        f.units.after_ops(ops).socket.enabled,
        f.units.after_ops(ops).socket.active,
{
    lemma_systemd_install_units(
        ConfigureInitService { init: InitSystem::Systemd, start_daemon: true },
        f,
        ops,
    );
}

} // verus!
