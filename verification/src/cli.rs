//! What a command line asks for, once its options are read.

use crate::action::ChosenAction;
use crate::catalog::BootTargets;
use crate::dispatch::{Command, CommandOutcome, Dispatch};
use vstd::prelude::*;

verus! {

/// The options of the command line: `--list`, `--next DEST` and
/// `--reboot-to DEST`.
#[derive(Debug, Clone, PartialEq, Eq)]
pub struct Arguments {
    pub list: Option<bool>,
    pub next: Option<String>,
    pub reboot_to: Option<String>,
}

/// What is to be done for a command line.
#[derive(Debug, Clone, Copy, PartialEq, Eq)]
pub enum Plan<'a> {
    /// Print the entries and their ids.
    List,
    /// Carry out this action.
    Act(ChosenAction<'a>),
    /// No entry answers this destination.
    Unresolved(&'a str),
    /// Let the operator choose from the list.
    Interactive,
}

/// The exit code of a run that ended well.
pub const EXIT_SUCCESS: u8 = 0;

/// The exit code of a run whose destination no entry answers.
pub const EXIT_FAILURE: u8 = 1;

impl Arguments {
    /// Whether the entries are to be listed.
    pub open spec fn wants_list(self) -> bool {
        self.list == Some(true)
    }
}

impl<'a> Plan<'a> {
    /// Whether `self` is what becomes of the destination `dest`: the action on
    /// the first entry that answers it, restarting where `reboot` holds, or
    /// unresolved where no entry answers it.
    pub open spec fn resolves(self, targets: &'a BootTargets, dest: Seq<char>, reboot: bool) -> bool {
        if targets@.has_answer(dest) {
            exists|i: int| #[trigger]
                targets@.is_first_answer(dest, i) && self == Plan::Act(
                    if reboot {
                        ChosenAction::RebootTo(&targets.targets@[i])
                    } else {
                        ChosenAction::SetNext(&targets.targets@[i])
                    },
                )
        } else {
            self matches Plan::Unresolved(unresolved) && unresolved@ == dest
        }
    }

    /// Whether `self` is the plan for `args` over `targets`.  Listing comes
    /// before everything else, then `--reboot-to`, then `--next`; without any
    /// of them the operator chooses.
    pub open spec fn is_plan_for(self, args: &'a Arguments, targets: &'a BootTargets) -> bool {
        if args.wants_list() {
            self == Plan::<'a>::List
        } else if args.reboot_to is Some {
            self.resolves(targets, args.reboot_to->0@, true)
        } else if args.next is Some {
            self.resolves(targets, args.next->0@, false)
        } else {
            self == Plan::<'a>::Interactive
        }
    }

    /// The action that the plan carries out by itself.
    pub open spec fn spec_action(self) -> ChosenAction<'a> {
        match self {
            Plan::Act(action) => action,
            _ => ChosenAction::Nothing,
        }
    }

    /// The exit code of a run with this plan: failure where the destination
    /// is unresolved, success otherwise.
    pub open spec fn spec_exit_code(self) -> u8 {
        if self is Unresolved {
            EXIT_FAILURE
        } else {
            EXIT_SUCCESS
        }
    }

    /// What is written to the error stream, where anything is.
    pub open spec fn spec_complaint(self) -> Option<Seq<char>> {
        match self {
            Plan::Unresolved(dest) => Some(
                "Could not find UEFI boot entry from specifier \""@ + dest@ + "\""@,
            ),
            _ => None,
        }
    }

    /// The action that the plan carries out by itself: none for listing, for
    /// an unresolved destination and for the interactive selection.
    pub fn action(&self) -> (action: ChosenAction<'a>)
        ensures
            action == self.spec_action(),
    {
        match self {
            Plan::Act(action) => *action,
            _ => ChosenAction::Nothing,
        }
    }

    /// The exit code of a run with this plan.
    pub fn exit_code(&self) -> (code: u8)
        ensures
            code == self.spec_exit_code(),
    {
        match self {
            Plan::Unresolved(_) => EXIT_FAILURE,
            _ => EXIT_SUCCESS,
        }
    }

    /// What is written to the error stream, where anything is.
    pub fn complaint(&self) -> (complaint: Option<String>)
        ensures
            complaint.deep_view() == self.spec_complaint(),
    {
        match self {
            Plan::Unresolved(dest) => {
                let mut complaint = String::from_str(
                    "Could not find UEFI boot entry from specifier \"",
                );
                complaint.append(dest);
                complaint.append("\"");
                Some(complaint)
            },
            _ => None,
        }
    }
}

/// What becomes of the destination `dest`.
pub fn resolve<'a>(targets: &'a BootTargets, dest: &'a str, reboot: bool) -> (plan: Plan<'a>)
    ensures
        plan.resolves(targets, dest@, reboot),
{
    match targets.lookup(dest) {
        Some(target) => if reboot {
            Plan::Act(ChosenAction::RebootTo(target))
        } else {
            Plan::Act(ChosenAction::SetNext(target))
        },
        None => Plan::Unresolved(dest),
    }
}

/// The plan for `args` over `targets`.
pub fn plan<'a>(args: &'a Arguments, targets: &'a BootTargets) -> (plan: Plan<'a>)
    ensures
        plan.is_plan_for(args, targets),
{
    if let Some(true) = args.list {
        Plan::List
    } else if let Some(dest) = &args.reboot_to {
        resolve(targets, dest.as_str(), true)
    } else if let Some(dest) = &args.next {
        resolve(targets, dest.as_str(), false)
    } else {
        Plan::Interactive
    }
}

/// A destination that no entry answers ends the run with the failure code,
/// and no command is run for it.
pub proof fn lemma_unresolved_runs_nothing<'a>(
    plan: Plan<'a>,
    targets: &'a BootTargets,
    dest: Seq<char>,
    reboot: bool,
    outcomes: Seq<CommandOutcome>,
)
    requires
        plan.resolves(targets, dest, reboot),
        !targets@.has_answer(dest),
    ensures
        plan is Unresolved,
        plan.spec_exit_code() == EXIT_FAILURE,
        Dispatch::spec_begin(plan.spec_action()).issued(outcomes) == Seq::<Command>::empty(),
{
}

} // verus!
