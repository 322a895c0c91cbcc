//! Carrying out a chosen action with the firmware tool and the restart tool.
//!
//! The commands themselves are run by the caller.  This module decides which
//! command comes next, given how the one before it ended, and what is reported
//! when one fails.  No command is run twice.

use crate::action::ChosenAction;
use crate::decimal::{push_signed_decimal, signed_decimal, zero_padded, zero_padded4};
use vstd::prelude::*;

verus! {

/// The program that lists the boot entries and marks one for the next boot.
pub const FIRMWARE_TOOL: &'static str = "efibootmgr";

/// The program that restarts the machine.
pub const RESTART_TOOL: &'static str = "shutdown";

/// A command that carrying out an action may call for.
#[derive(Debug, Clone, Copy, PartialEq, Eq, Structural)]
pub enum Command {
    /// Mark the entry with this id for the next boot.
    SetNextBoot(u16),
    /// Restart the machine now.
    Reboot,
}

/// How a command ended.
#[derive(Debug, Clone, Copy, PartialEq, Eq)]
pub enum CommandOutcome {
    /// The program could not be started.
    NotLaunched,
    /// The program ran and ended, with this exit code where it has one.
    Exited(Option<i32>),
}

/// What went wrong while carrying out an action.
#[derive(Debug, Clone, Copy, PartialEq, Eq)]
pub enum Failure {
    /// The firmware tool could not be started.
    SetNextNotLaunched,
    /// The firmware tool ended with an exit code other than 0, or with none.
    SetNextExited(Option<i32>),
    /// The entry is marked for the next boot, but the restart tool could not
    /// be started or did not end with exit code 0.
    RebootNotTriggered,
}

/// Where the carrying out of an action stands.
#[derive(Debug, Clone, Copy, PartialEq, Eq)]
pub enum Dispatch {
    /// The entry with this id is to be marked for the next boot, and the
    /// machine restarted after that where `then_reboot` holds.
    SetNext { id: u16, then_reboot: bool },
    /// The entry is marked; the machine is to be restarted.
    Reboot,
    /// A command failed; nothing more is run.
    Failed(Failure),
    /// Everything that the action asked for is done.
    Done,
}

impl Command {
    /// The program that the command runs.
    pub open spec fn spec_program(self) -> Seq<char> {
        match self {
            Command::SetNextBoot(_) => FIRMWARE_TOOL@,
            Command::Reboot => RESTART_TOOL@,
        }
    }

    /// The arguments that the program is given: for the firmware tool the
    /// option `--bootnext` and the id in four digits, with zeros in front;
    /// for the restart tool `-r` and `now`.
    pub open spec fn spec_arguments(self) -> Seq<Seq<char>> {
        match self {
            Command::SetNextBoot(id) => seq!["--bootnext"@, zero_padded(id as nat, 4)],
            Command::Reboot => seq!["-r"@, "now"@],
        }
    }

    /// The program that the command runs.
    pub fn program(&self) -> (program: &'static str)
        ensures
            program@ == self.spec_program(),
    {
        match self {
            Command::SetNextBoot(_) => FIRMWARE_TOOL,
            Command::Reboot => RESTART_TOOL,
        }
    }

    /// The arguments that the program is given.
    pub fn arguments(&self) -> (arguments: Vec<String>)
        ensures
            arguments.deep_view() == self.spec_arguments(),
    {
        let mut arguments: Vec<String> = Vec::new();
        match self {
            Command::SetNextBoot(id) => {
                arguments.push(String::from_str("--bootnext"));
                arguments.push(zero_padded4(*id));
            },
            Command::Reboot => {
                arguments.push(String::from_str("-r"));
                arguments.push(String::from_str("now"));
            },
        }
        arguments
    }
}

impl CommandOutcome {
    /// Whether the command ran and ended with exit code 0.
    pub open spec fn spec_succeeded(self) -> bool {
        self == CommandOutcome::Exited(Some(0i32))
    }

    /// Whether the command ran and ended with exit code 0.
    pub fn succeeded(&self) -> (yes: bool)
        ensures
            yes == self.spec_succeeded(),
    {
        match self {
            CommandOutcome::Exited(Some(code)) => *code == 0,
            _ => false,
        }
    }
}

impl Failure {
    /// What the operator is told.  An exit code that is missing is given as
    /// -1.
    pub open spec fn spec_message(self) -> Seq<char> {
        match self {
            Failure::SetNextNotLaunched => "Could not set boot target using efibootmgr, aborting..."@,
            Failure::SetNextExited(code) => "efibootmgr exited with non-zero status: "@
                + signed_decimal(
                match code {
                    Some(code) => code as int,
                    None => -1,
                },
            ),
            Failure::RebootNotTriggered => "Unable to reboot using shutdown command. Bootnext has been set, either reboot manually or clear"@,
        }
    }

    /// What the operator is told.
    pub fn message(&self) -> (message: String)
        ensures
            message@ == self.spec_message(),
    {
        match self {
            Failure::SetNextNotLaunched => String::from_str(
                "Could not set boot target using efibootmgr, aborting...",
            ),
            Failure::SetNextExited(code) => {
                let mut message = String::from_str("efibootmgr exited with non-zero status: ");
                let shown: i32 = match code {
                    Some(code) => *code,
                    None => -1,
                };
                push_signed_decimal(&mut message, shown);
                message
            },
            Failure::RebootNotTriggered => String::from_str(
                "Unable to reboot using shutdown command. Bootnext has been set, either reboot manually or clear",
            ),
        }
    }
}

impl Dispatch {
    /// Where the carrying out of `action` starts: with marking its entry, or
    /// done at once where there is no action.
    pub open spec fn spec_begin(action: ChosenAction) -> Dispatch {
        match action {
            ChosenAction::Nothing => Dispatch::Done,
            ChosenAction::SetNext(target) => Dispatch::SetNext { id: target.id, then_reboot: false },
            ChosenAction::RebootTo(target) => Dispatch::SetNext { id: target.id, then_reboot: true },
        }
    }

    /// The command that is to be run now, if any.
    pub open spec fn spec_command(self) -> Option<Command> {
        match self {
            Dispatch::SetNext { id, .. } => Some(Command::SetNextBoot(id)),
            Dispatch::Reboot => Some(Command::Reboot),
            _ => None,
        }
    }

    /// Where things stand once the command that was to be run has ended with
    /// `outcome`.  After marking the entry the restart follows if it was asked
    /// for and the marking succeeded; any failure ends the dispatch.  A
    /// dispatch that has ended stays as it is.
    pub open spec fn spec_after(self, outcome: CommandOutcome) -> Dispatch {
        match self {
            Dispatch::SetNext { id, then_reboot } => match outcome {
                CommandOutcome::NotLaunched => Dispatch::Failed(Failure::SetNextNotLaunched),
                CommandOutcome::Exited(code) => if code != Some(0i32) {
                    Dispatch::Failed(Failure::SetNextExited(code))
                } else if then_reboot {
                    Dispatch::Reboot
                } else {
                    Dispatch::Done
                },
            },
            Dispatch::Reboot => if outcome.spec_succeeded() {
                Dispatch::Done
            } else {
                Dispatch::Failed(Failure::RebootNotTriggered)
            },
            _ => self,
        }
    }

    /// The failure that ended the dispatch, if one did.
    pub open spec fn spec_failure(self) -> Option<Failure> {
        match self {
            Dispatch::Failed(failure) => Some(failure),
            _ => None,
        }
    }

    /// The commands that are run, in order, when the commands end with
    /// `outcomes`, one after the other.  Outcomes beyond the end of the
    /// dispatch are not used.
    pub open spec fn issued(self, outcomes: Seq<CommandOutcome>) -> Seq<Command>
        decreases outcomes.len(),
    {
        match self.spec_command() {
            None => Seq::empty(),
            Some(command) => if outcomes.len() == 0 {
                seq![command]
            } else {
                seq![command] + self.spec_after(outcomes[0]).issued(outcomes.drop_first())
            },
        }
    }

    /// Where the carrying out of `action` starts.
    pub fn begin(action: &ChosenAction) -> (state: Dispatch)
        ensures
            state == Dispatch::spec_begin(*action),
    {
        match action {
            ChosenAction::Nothing => Dispatch::Done,
            ChosenAction::SetNext(target) => Dispatch::SetNext { id: target.id, then_reboot: false },
            ChosenAction::RebootTo(target) => Dispatch::SetNext { id: target.id, then_reboot: true },
        }
    }

    /// The command that is to be run now, if any.
    pub fn command(&self) -> (command: Option<Command>)
        ensures
            command == self.spec_command(),
    {
        match self {
            Dispatch::SetNext { id, .. } => Some(Command::SetNextBoot(*id)),
            Dispatch::Reboot => Some(Command::Reboot),
            _ => None,
        }
    }

    /// Where things stand once the command that was to be run has ended with
    /// `outcome`.
    pub fn after(self, outcome: &CommandOutcome) -> (state: Dispatch)
        ensures
            state == self.spec_after(*outcome),
    {
        match self {
            Dispatch::SetNext { id, then_reboot } => match outcome {
                CommandOutcome::NotLaunched => Dispatch::Failed(Failure::SetNextNotLaunched),
                CommandOutcome::Exited(code) => if !outcome.succeeded() {
                    Dispatch::Failed(Failure::SetNextExited(*code))
                } else if then_reboot {
                    Dispatch::Reboot
                } else {
                    Dispatch::Done
                },
            },
            Dispatch::Reboot => if outcome.succeeded() {
                Dispatch::Done
            } else {
                Dispatch::Failed(Failure::RebootNotTriggered)
            },
            _ => self,
        }
    }

    /// The failure that ended the dispatch, if one did.
    pub fn failure(&self) -> (failure: Option<Failure>)
        ensures
            failure == self.spec_failure(),
    {
        match self {
            Dispatch::Failed(failure) => Some(*failure),
            _ => None,
        }
    }
}

/// What is run for an action, whatever the outcomes: nothing where there is
/// no action; the firmware tool alone for marking an entry; the firmware tool
/// and, only once it has succeeded, the restart tool for restarting into an
/// entry.  Each is run at most once.
pub proof fn lemma_issued_commands(action: ChosenAction, outcomes: Seq<CommandOutcome>)
    ensures
        ({
            let issued = Dispatch::spec_begin(action).issued(outcomes);
            match action {
                ChosenAction::Nothing => issued == Seq::<Command>::empty(),
                ChosenAction::SetNext(target) => issued == seq![Command::SetNextBoot(target.id)],
                ChosenAction::RebootTo(target) => if outcomes.len() > 0
                    && outcomes[0].spec_succeeded() {
                    issued == seq![Command::SetNextBoot(target.id), Command::Reboot]
                } else {
                    issued == seq![Command::SetNextBoot(target.id)]
                },
            }
        }),
{
    if action !is Nothing && outcomes.len() > 0 {
        let second = Dispatch::spec_begin(action).spec_after(outcomes[0]);
        let rest = outcomes.drop_first();
        if second.spec_command() is Some {
            if rest.len() > 0 {
                let third = second.spec_after(rest[0]);
                assert(third.issued(rest.drop_first()) =~= Seq::empty());
            }
            assert(second.issued(rest) =~= seq![Command::Reboot]);
        } else {
            assert(second.issued(rest) =~= Seq::empty());
        }
    }
}

/// Where marking the entry fails, the restart is never asked for: restarting
/// into an entry runs the firmware tool once and nothing after it, however
/// later commands would have ended.
pub proof fn lemma_no_reboot_after_failed_set_next(
    action: ChosenAction,
    first: CommandOutcome,
    later: Seq<CommandOutcome>,
)
    requires
        action is RebootTo,
        !first.spec_succeeded(),
    ensures
        Dispatch::spec_begin(action).issued(seq![first] + later) == seq![
            Command::SetNextBoot(action.spec_target()->0.id),
        ],
        Dispatch::spec_begin(action).spec_after(first).spec_failure() is Some,
{
    lemma_issued_commands(action, seq![first] + later);
}

} // verus!
