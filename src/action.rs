//! The uniform action contract: a closed set of actions, their completion
//! state, and their human-facing descriptions.
use vstd::prelude::*;

use crate::error::ActionErrorKind;
use crate::init_service::{ConfigureInitService, HostFacts, HostOp, CONFIGURE_INIT_SERVICE_TAG};

verus! {

/// Where an action stands: not yet done (or undone), or done.
#[derive(Clone, Copy, Debug, PartialEq, Eq, Structural)]
pub enum ActionState {
    Uncompleted,
    Completed,
}

/// The stable tag that identifies an action in errors and receipts.
#[derive(Clone, Copy, Debug)]
pub struct ActionTag(pub &'static str);

/// A synopsis and its explanation lines, for reporting only.
#[derive(Debug)]
pub struct ActionDescription {
    pub description: String,
    pub explanation: Vec<String>,
}

/// The text of a description: its synopsis and its explanation lines.
pub struct DescriptionText {
    pub description: Seq<char>,
    pub explanation: Seq<Seq<char>>,
}

impl View for ActionDescription {
    type V = DescriptionText;

    open spec fn view(&self) -> DescriptionText {
        DescriptionText {
            description: self.description@,
            explanation: self.explanation@.map_values(|l: String| l@),
        }
    }
}

/// The texts of a list of descriptions.
pub open spec fn texts(ds: Seq<ActionDescription>) -> Seq<DescriptionText> {
    ds.map_values(|d: ActionDescription| d@)
}

impl ActionDescription {
    pub fn new(description: String, explanation: Vec<String>) -> (r: ActionDescription)
        ensures
            r.description == description,
            r.explanation == explanation,
    {
        ActionDescription { description, explanation }
    }
}

/// Every unit of work the engine knows.
#[derive(Clone, Copy, Debug, PartialEq, Eq, Structural)]
pub enum Action {
    ConfigureInitService(ConfigureInitService),
}

impl Action {
    pub open spec fn spec_tag(self) -> ActionTag {
        match self {
            Action::ConfigureInitService(_) => ActionTag(CONFIGURE_INIT_SERVICE_TAG),
        }
    }

    /// The action's stable tag.
    pub fn tag(&self) -> (r: ActionTag)
        ensures
            r == self.spec_tag(),
    {
        match self {
            Action::ConfigureInitService(_) => ActionTag(CONFIGURE_INIT_SERVICE_TAG),
        }
    }

    pub open spec fn spec_execute_ops(self, f: HostFacts) -> Result<Seq<HostOp>, ActionErrorKind> {
        match self {
            Action::ConfigureInitService(a) => a.spec_execute_ops(f),
        }
    }

    pub open spec fn spec_revert_ops(self, f: HostFacts) -> Seq<HostOp> {
        match self {
            Action::ConfigureInitService(a) => a.spec_revert_ops(f),
        }
    }

    pub open spec fn spec_execute_description(self) -> Seq<DescriptionText> {
        match self {
            Action::ConfigureInitService(a) => a.spec_execute_description(),
        }
    }

    pub open spec fn spec_revert_description(self) -> Seq<DescriptionText> {
        match self {
            Action::ConfigureInitService(a) => a.spec_revert_description(),
        }
    }

    /// Describes what executing the action will do.
    pub fn execute_description(&self) -> (r: Vec<ActionDescription>)
        ensures
            texts(r@) == self.spec_execute_description(),
    {
        match self {
            Action::ConfigureInitService(a) => a.execute_description(),
        }
    }

    /// Describes what reverting the action will do.
    pub fn revert_description(&self) -> (r: Vec<ActionDescription>)
        ensures
            texts(r@) == self.spec_revert_description(),
    {
        match self {
            Action::ConfigureInitService(a) => a.revert_description(),
        }
    }

    /// The operations that perform the action, or why it cannot be performed.
    pub fn execute_ops(&self, facts: &HostFacts) -> (r: Result<Vec<HostOp>, ActionErrorKind>)
        ensures
            match self.spec_execute_ops(*facts) {
                Ok(ops) => r is Ok && r->Ok_0@ == ops,
                Err(k) => r == Err::<Vec<HostOp>, ActionErrorKind>(k),
            },
    {
        match self {
            Action::ConfigureInitService(a) => a.execute_ops(facts),
        }
    }

    /// The operations that undo the action.
    pub fn revert_ops(&self, facts: &HostFacts) -> (r: Vec<HostOp>)
        ensures
            r@ == self.spec_revert_ops(*facts),
    {
        match self {
            Action::ConfigureInitService(a) => a.revert_ops(facts),
        }
    }
}

/// An action together with its completion state.
#[derive(Clone, Copy, Debug)]
pub struct StatefulAction {
    pub action: Action,
    pub state: ActionState,
}

impl StatefulAction {
    /// Records that the action was executed.
    pub fn mark_completed(&mut self)
        requires
            old(self).state == ActionState::Uncompleted,
        ensures
            final(self).action == old(self).action,
            final(self).state == ActionState::Completed,
    {
        self.state = ActionState::Completed;
    }

    /// Records that the action was reverted.
    pub fn mark_uncompleted(&mut self)
        requires
            old(self).state == ActionState::Completed,
        ensures
            final(self).action == old(self).action,
            final(self).state == ActionState::Uncompleted,
    {
        self.state = ActionState::Uncompleted;
    }
}

} // verus!
