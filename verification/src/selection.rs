//! The interactive selection: a cursor over the entries, moved by keys until
//! the operator quits or picks an action.

use crate::action::ChosenAction;
use crate::catalog::BootTargets;
use vstd::prelude::*;

verus! {

/// The key of a keyboard event, as far as the selection tells keys apart.
#[derive(Debug, Clone, Copy, PartialEq, Eq, Structural)]
pub enum KeyCode {
    Char(char),
    Esc,
    Enter,
    Up,
    Down,
    Home,
    End,
    Other,
}

/// Whether a key went down, is held, or came up.
#[derive(Debug, Clone, Copy, PartialEq, Eq, Structural)]
pub enum KeyKind {
    Press,
    Repeat,
    Release,
}

/// One keyboard event.
#[derive(Debug, Clone, Copy, PartialEq, Eq, Structural)]
pub struct KeyEvent {
    pub code: KeyCode,
    pub kind: KeyKind,
    pub control: bool,
}

/// What a keyboard event asks of the selection.
#[derive(Debug, Clone, Copy, PartialEq, Eq, Structural)]
pub enum Intent {
    Quit,
    Down,
    Up,
    Home,
    End,
    Reboot,
    SetNext,
    Ignore,
}

/// Where the selection stands.
#[derive(Debug, Clone, Copy, PartialEq, Eq, Structural)]
pub enum Phase {
    Running,
    Quit,
    Acted,
}

/// How long one wait for a keyboard event lasts, in milliseconds, before the
/// list is drawn again.
pub const POLL_MILLIS: u64 = 16;

/// The meaning of a keyboard event.  Only presses count.  `q`, Escape and
/// Control-`c` quit; the arrows, Home and End move; Enter restarts into the
/// selected entry and `n` marks it for the next boot.
pub open spec fn intent_of(key: KeyEvent) -> Intent {
    if key.kind != KeyKind::Press {
        Intent::Ignore
    } else {
        match key.code {
            KeyCode::Esc => Intent::Quit,
            KeyCode::Char(c) => if c == 'q' || (c == 'c' && key.control) {
                Intent::Quit
            } else if c == 'n' {
                Intent::SetNext
            } else {
                Intent::Ignore
            },
            KeyCode::Down => Intent::Down,
            KeyCode::Up => Intent::Up,
            KeyCode::Home => Intent::Home,
            KeyCode::End => Intent::End,
            KeyCode::Enter => Intent::Reboot,
            KeyCode::Other => Intent::Ignore,
        }
    }
}

/// The index below `selected` in a list of `count` rows; the last row wraps to
/// the first.  An empty list keeps index 0.
pub open spec fn index_below(selected: int, count: int) -> int {
    if count <= 0 || selected >= count - 1 {
        0
    } else {
        selected + 1
    }
}

/// The index above `selected` in a list of `count` rows; the first row wraps
/// to the last.  An empty list keeps index 0.
pub open spec fn index_above(selected: int, count: int) -> int {
    if count <= 0 {
        0
    } else if selected <= 0 || selected >= count {
        count - 1
    } else {
        selected - 1
    }
}

/// The index of the last row, or 0 in an empty list.
pub open spec fn index_last(count: int) -> int {
    if count <= 0 {
        0
    } else {
        count - 1
    }
}

/// The index that a cursor at `selected` has after `intent`.
pub open spec fn index_after(selected: int, count: int, intent: Intent) -> int {
    match intent {
        Intent::Down => index_below(selected, count),
        Intent::Up => index_above(selected, count),
        Intent::Home => 0,
        Intent::End => index_last(count),
        _ => selected,
    }
}

/// The state of one interactive selection.
#[derive(Debug, Clone, Copy, PartialEq, Eq)]
pub struct Selection<'a> {
    pub selected: usize,
    pub phase: Phase,
    pub action: ChosenAction<'a>,
}

impl<'a> Selection<'a> {
    /// The state is one that a session over `targets` can be in: the cursor is
    /// on a row (or at 0 in an empty list), and an action is chosen only once
    /// the selection has been acted on, and then on an entry of `targets`.
    pub open spec fn wf(self, targets: &BootTargets) -> bool {
        &&& self.selected == 0 || self.selected < targets.targets@.len()
        &&& match self.action {
            ChosenAction::Nothing => true,
            ChosenAction::RebootTo(target) => self.phase == Phase::Acted
                && targets.targets@.contains(*target),
            ChosenAction::SetNext(target) => self.phase == Phase::Acted
                && targets.targets@.contains(*target),
        }
    }

    /// The state after `intent`.  A finished selection stays as it is.  Moving
    /// changes only the cursor.  Acting ends the selection, with the action on
    /// the selected entry where the cursor is on one.
    pub open spec fn after(self, targets: &'a BootTargets, intent: Intent) -> Selection<'a> {
        let count = targets.targets@.len() as int;
        if self.phase != Phase::Running {
            self
        } else {
            match intent {
                Intent::Ignore => self,
                Intent::Quit => Selection { phase: Phase::Quit, ..self },
                Intent::Reboot => Selection {
                    phase: Phase::Acted,
                    action: if self.selected < count {
                        ChosenAction::RebootTo(&targets.targets@[self.selected as int])
                    } else {
                        self.action
                    },
                    ..self
                },
                Intent::SetNext => Selection {
                    phase: Phase::Acted,
                    action: if self.selected < count {
                        ChosenAction::SetNext(&targets.targets@[self.selected as int])
                    } else {
                        self.action
                    },
                    ..self
                },
                _ => Selection {
                    selected: index_after(self.selected as int, count, intent) as usize,
                    ..self
                },
            }
        }
    }

    /// The row that is shown highlighted: the one under the cursor, or none
    /// where the cursor is on no row.
    pub open spec fn spec_highlighted(self, targets: &BootTargets) -> Option<usize> {
        if self.selected < targets.targets@.len() {
            Some(self.selected)
        } else {
            None
        }
    }

    /// The state in which a session starts: the cursor on the first row and
    /// nothing chosen.
    pub open spec fn spec_start() -> Selection<'a> {
        Selection { selected: 0, phase: Phase::Running, action: ChosenAction::Nothing }
    }

    /// The state after the intents of `intents`, one after the other.
    pub open spec fn after_all(self, targets: &'a BootTargets, intents: Seq<Intent>) -> Selection<
        'a,
    >
        decreases intents.len(),
    {
        if intents.len() == 0 {
            self
        } else {
            self.after(targets, intents[0]).after_all(targets, intents.drop_first())
        }
    }

    /// The state in which a session starts: the cursor on the first row and
    /// nothing chosen.
    pub fn start() -> (state: Selection<'a>)
        ensures
            state == Selection::<'a>::spec_start(),
    {
        Selection { selected: 0, phase: Phase::Running, action: ChosenAction::Nothing }
    }

    /// The row that is shown highlighted.
    pub fn highlighted(&self, targets: &BootTargets) -> (row: Option<usize>)
        ensures
            row == self.spec_highlighted(targets),
    {
        if self.selected < targets.targets.len() {
            Some(self.selected)
        } else {
            None
        }
    }

    /// Whether the selection still takes keys.
    pub fn is_running(&self) -> (running: bool)
        ensures
            running == (self.phase == Phase::Running),
    {
        match self.phase {
            Phase::Running => true,
            _ => false,
        }
    }

    /// The state after `intent`.
    pub fn apply(self, targets: &'a BootTargets, intent: Intent) -> (next: Selection<'a>)
        ensures
            next == self.after(targets, intent),
    {
        if !self.is_running() {
            return self;
        }
        let count = targets.targets.len();
        match intent {
            Intent::Ignore => self,
            Intent::Quit => Selection {
                selected: self.selected,
                phase: Phase::Quit,
                action: self.action,
            },
            Intent::Reboot => Selection {
                selected: self.selected,
                phase: Phase::Acted,
                action: if self.selected < count {
                    ChosenAction::RebootTo(&targets.targets[self.selected])
                } else {
                    self.action
                },
            },
            Intent::SetNext => Selection {
                selected: self.selected,
                phase: Phase::Acted,
                action: if self.selected < count {
                    ChosenAction::SetNext(&targets.targets[self.selected])
                } else {
                    self.action
                },
            },
            _ => Selection {
                selected: move_cursor(self.selected, count, intent),
                phase: self.phase,
                action: self.action,
            },
        }
    }

    /// The state after a keyboard event.
    pub fn on_key(self, targets: &'a BootTargets, key: &KeyEvent) -> (next: Selection<'a>)
        ensures
            next == self.after(targets, intent_of(*key)),
    {
        self.apply(targets, interpret(key))
    }
}

/// The index that a cursor at `selected` has after `intent`, in a list of
/// `count` rows.
pub fn move_cursor(selected: usize, count: usize, intent: Intent) -> (moved: usize)
    ensures
        moved == index_after(selected as int, count as int, intent),
{
    match intent {
        Intent::Down => if count == 0 || selected >= count - 1 {
            0
        } else {
            selected + 1
        },
        Intent::Up => if count == 0 {
            0
        } else if selected == 0 || selected >= count {
            count - 1
        } else {
            selected - 1
        },
        Intent::Home => 0,
        Intent::End => if count == 0 {
            0
        } else {
            count - 1
        },
        _ => selected,
    }
}

/// The meaning of a keyboard event.
pub fn interpret(key: &KeyEvent) -> (intent: Intent)
    ensures
        intent == intent_of(*key),
{
    match key.kind {
        KeyKind::Press => match key.code {
            KeyCode::Esc => Intent::Quit,
            KeyCode::Char(c) => if c == 'q' || (c == 'c' && key.control) {
                Intent::Quit
            } else if c == 'n' {
                Intent::SetNext
            } else {
                Intent::Ignore
            },
            KeyCode::Down => Intent::Down,
            KeyCode::Up => Intent::Up,
            KeyCode::Home => Intent::Home,
            KeyCode::End => Intent::End,
            KeyCode::Enter => Intent::Reboot,
            KeyCode::Other => Intent::Ignore,
        },
        _ => Intent::Ignore,
    }
}

/// Every step of a selection leads from a state of a session over `targets`
/// to another: the cursor stays on a row, and only acting chooses an action.
pub proof fn lemma_after_keeps_wf(state: Selection, targets: &BootTargets, intent: Intent)
    requires
        state.wf(targets),
    ensures
        state.after(targets, intent).wf(targets),
{
}

/// Whatever the operator does, a session over `targets` is in a state of such
/// a session: the cursor never leaves the list, and an action is chosen only
/// by acting on an entry of the list.
pub proof fn lemma_session_stays_wf<'a>(
    state: Selection<'a>,
    targets: &'a BootTargets,
    intents: Seq<Intent>,
)
    requires
        state.wf(targets),
    ensures
        state.after_all(targets, intents).wf(targets),
        Selection::<'a>::spec_start().wf(targets),
    decreases intents.len(),
{
    if intents.len() > 0 {
        lemma_after_keeps_wf(state, targets, intents[0]);
        lemma_session_stays_wf(state.after(targets, intents[0]), targets, intents.drop_first());
    }
}

/// A selection that has ended is final: no later key changes the cursor or
/// the action.
pub proof fn lemma_ended_selection_is_final<'a>(
    state: Selection<'a>,
    targets: &'a BootTargets,
    intents: Seq<Intent>,
)
    requires
        state.phase != Phase::Running,
    ensures
        state.after_all(targets, intents) == state,
    decreases intents.len(),
{
    if intents.len() > 0 {
        lemma_ended_selection_is_final(state, targets, intents.drop_first());
    }
}

/// Moving down from any row and then up again, or up and then down, comes
/// back to the same row.
pub proof fn lemma_down_and_up_cancel(selected: int, count: int)
    requires
        0 <= selected < count,
    ensures
        index_above(index_below(selected, count), count) == selected,
        index_below(index_above(selected, count), count) == selected,
{
}

} // verus!
