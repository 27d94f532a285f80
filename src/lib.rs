//! A transactional, revertible provisioning engine: actions that mutate the
//! host, a plan that runs them in order and rolls back on failure, and a
//! receipt from which a later run can revert them.
//!
//! The library decides; the caller performs. Every host mutation is handed
//! out as a [`HostOp`] and every observation of the host comes back as plain
//! values ([`HostFacts`], `Result`s), so the whole decision logic is verified
//! and can be driven against a fake host.
use vstd::prelude::*;

pub mod action;
pub mod error;
pub mod init_service;
pub mod op_run;
pub mod plan;
pub mod supervisor_output;
pub mod systemd_model;

pub use action::{Action, ActionDescription, ActionState, ActionTag, StatefulAction};
pub use error::{ActionError, ActionErrorKind, ConfigureNixDaemonServiceError, InstallError};
pub use init_service::{
    ConfigureInitService, HostFacts, HostOp, InitSystem,
    PathEntry, SupervisorCmd, SystemdUnits, Unit, UnitStatus,
};
pub use op_run::OpRun;
pub use supervisor_output::{launchd_reports_disabled, unit_is_active, unit_is_enabled};
pub use plan::{render_descriptions, Install, InstallPlan, InstallSettings, InstallStep, Receipt, RevertRun};
