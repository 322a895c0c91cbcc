//! What the operator decided to do with an entry.

use crate::catalog::BootTarget;
use vstd::prelude::*;

verus! {

/// The outcome of a selection: nothing, restart into an entry now, or only
/// mark an entry for the next boot.
#[derive(Debug, Clone, Copy, PartialEq, Eq)]
pub enum ChosenAction<'a> {
    Nothing,
    RebootTo(&'a BootTarget),
    SetNext(&'a BootTarget),
}

impl<'a> ChosenAction<'a> {
    /// The entry that the action is about, if it has one.
    pub open spec fn spec_target(self) -> Option<BootTarget> {
        match self {
            ChosenAction::Nothing => None,
            ChosenAction::RebootTo(target) => Some(*target),
            ChosenAction::SetNext(target) => Some(*target),
        }
    }

    /// Whether the action ends in a restart.
    pub open spec fn spec_restarts(self) -> bool {
        self is RebootTo
    }

    /// The entry that the action is about, if it has one.
    pub fn target(&self) -> (target: Option<&'a BootTarget>)
        ensures
            match target {
                Some(t) => self.spec_target() == Some(*t),
                None => self.spec_target() is None,
            },
    {
        match self {
            ChosenAction::Nothing => None,
            ChosenAction::RebootTo(target) => Some(*target),
            ChosenAction::SetNext(target) => Some(*target),
        }
    }

    /// Whether the action ends in a restart.
    pub fn restarts(&self) -> (restarts: bool)
        ensures
            restarts == self.spec_restarts(),
    {
        match self {
            ChosenAction::RebootTo(_) => true,
            _ => false,
        }
    }
}

} // verus!
