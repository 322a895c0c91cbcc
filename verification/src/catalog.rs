//! The boot entries that the firmware reports, and how they are labelled.

use crate::decimal::{decimal_digits, parse_u16, parsed_u16, push_decimal};
use crate::text::starts_with;
use vstd::prelude::*;

verus! {

/// One firmware boot entry.
#[derive(Debug, Clone, PartialEq, Eq)]
pub struct BootTarget {
    pub id: u16,
    pub name: String,
}

/// The mathematical content of a [`BootTarget`].
pub struct BootTargetView {
    pub id: u16,
    pub name: Seq<char>,
}

impl View for BootTarget {
    type V = BootTargetView;

    open spec fn view(&self) -> BootTargetView {
        BootTargetView { id: self.id, name: self.name@ }
    }
}

/// The entries in listing order, with the entry that was booted and the entry
/// marked for the next boot.  Either mark may name an id that no entry has.
#[derive(Debug, Clone, PartialEq, Eq)]
pub struct BootTargets {
    pub targets: Vec<BootTarget>,
    pub current: Option<u16>,
    pub next: Option<u16>,
}

/// The mathematical content of a [`BootTargets`].
pub struct BootTargetsView {
    pub targets: Seq<BootTargetView>,
    pub current: Option<u16>,
    pub next: Option<u16>,
}

impl View for BootTargets {
    type V = BootTargetsView;

    open spec fn view(&self) -> BootTargetsView {
        BootTargetsView {
            targets: Seq::new(self.targets@.len(), |i: int| self.targets@[i]@),
            current: self.current,
            next: self.next,
        }
    }
}

/// How an entry is marked in the list.
#[derive(Debug, Clone, Copy, PartialEq, Eq, Structural)]
pub enum Mark {
    Next,
    Current,
    Plain,
}

impl Mark {
    /// The five characters that stand before the name of an entry so marked.
    pub open spec fn spec_prefix(self) -> Seq<char> {
        match self {
            Mark::Next => "nxt: "@,
            Mark::Current => "cur: "@,
            Mark::Plain => "     "@,
        }
    }

    /// The five characters that stand before the name of an entry so marked.
    pub fn prefix(&self) -> (prefix: &'static str)
        ensures
            prefix@ == self.spec_prefix(),
    {
        match self {
            Mark::Next => "nxt: ",
            Mark::Current => "cur: ",
            Mark::Plain => "     ",
        }
    }
}

impl BootTargetView {
    /// Whether the entry answers `query`.  A query that reads as an unsigned
    /// 16-bit number asks for that id and for nothing else; any other query
    /// asks for a name that begins with it, character for character.
    pub open spec fn answers(self, query: Seq<char>) -> bool {
        match parsed_u16(query) {
            Some(id) => self.id == id,
            None => query.is_prefix_of(self.name),
        }
    }

    /// The line that lists the entry: its id, a space, a tab, a space, its
    /// name.
    pub open spec fn list_line(self) -> Seq<char> {
        decimal_digits(self.id as nat) + " \t "@ + self.name
    }
}

impl BootTargetsView {
    /// The mark of an entry with this id: the next-boot mark wins over the
    /// current-boot mark.
    pub open spec fn mark_of(self, id: u16) -> Mark {
        if self.next == Some(id) {
            Mark::Next
        } else if self.current == Some(id) {
            Mark::Current
        } else {
            Mark::Plain
        }
    }

    /// The label of row `i`: the mark of its entry, then the entry's name.
    pub open spec fn label(self, i: int) -> Seq<char> {
        self.mark_of(self.targets[i].id).spec_prefix() + self.targets[i].name
    }

    /// The labels of all rows, in order.
    pub open spec fn labels(self) -> Seq<Seq<char>> {
        Seq::new(self.targets.len(), |i: int| self.label(i))
    }

    /// The listing lines of all entries, in order.
    pub open spec fn list_lines(self) -> Seq<Seq<char>> {
        Seq::new(self.targets.len(), |i: int| self.targets[i].list_line())
    }

    /// Whether some entry answers `query`.
    pub open spec fn has_answer(self, query: Seq<char>) -> bool {
        exists|i: int| 0 <= i < self.targets.len() && (#[trigger] self.targets[i]).answers(query)
    }

    /// Whether row `i` is the first whose entry answers `query`.
    pub open spec fn is_first_answer(self, query: Seq<char>, i: int) -> bool {
        &&& 0 <= i < self.targets.len()
        &&& self.targets[i].answers(query)
        &&& forall|j: int| 0 <= j < i ==> !(#[trigger] self.targets[j]).answers(query)
    }
}

impl BootTarget {
    /// Whether the entry answers `query`.
    pub fn answers(&self, query: &str) -> (yes: bool)
        ensures
            yes == self@.answers(query@),
    {
        match parse_u16(query) {
            Some(id) => self.id == id,
            None => starts_with(self.name.as_str(), query),
        }
    }

    /// The line that lists the entry.
    pub fn list_line(&self) -> (line: String)
        ensures
            line@ == self@.list_line(),
    {
        let mut line = String::new();
        push_decimal(&mut line, self.id as u32);
        line.append(" \t ");
        line.append(self.name.as_str());
        line
    }
}

impl BootTargets {
    /// The mark of an entry with this id.
    pub fn mark_of(&self, id: u16) -> (mark: Mark)
        ensures
            mark == self@.mark_of(id),
    {
        let is_next = match self.next {
            Some(next) => next == id,
            None => false,
        };
        let is_current = match self.current {
            Some(current) => current == id,
            None => false,
        };
        if is_next {
            Mark::Next
        } else if is_current {
            Mark::Current
        } else {
            Mark::Plain
        }
    }

    /// The labels of all rows, in order: for each entry `"nxt: "` where it is
    /// marked for the next boot, else `"cur: "` where it is the one that was
    /// booted, else five spaces, and then its name.
    pub fn get_names(&self) -> (names: Vec<String>)
        ensures
            names.deep_view() == self@.labels(),
    {
        let mut names: Vec<String> = Vec::new();
        let mut i: usize = 0;
        while i < self.targets.len()
            invariant
                i <= self.targets@.len(),
                names@.len() == i,
                forall|j: int| 0 <= j < i ==> (#[trigger] names@[j])@ == self@.label(j),
            decreases self.targets@.len() - i,
        {
            let target = &self.targets[i];
            let mut label = String::from_str(self.mark_of(target.id).prefix());
            label.append(target.name.as_str());
            names.push(label);
            i = i + 1;
        }
        names
    }

    /// The listing lines of all entries, in order.
    pub fn list_lines(&self) -> (lines: Vec<String>)
        ensures
            lines.deep_view() == self@.list_lines(),
    {
        let mut lines: Vec<String> = Vec::new();
        let mut i: usize = 0;
        while i < self.targets.len()
            invariant
                i <= self.targets@.len(),
                lines@.len() == i,
                forall|j: int| 0 <= j < i ==> (#[trigger] lines@[j])@ == self@.targets[j].list_line(),
            decreases self.targets@.len() - i,
        {
            lines.push(self.targets[i].list_line());
            i = i + 1;
        }
        lines
    }

    /// The first entry that answers `query`: the first with that id where the
    /// query reads as an unsigned 16-bit number, else the first whose name
    /// begins with the query.
    pub fn lookup(&self, query: &str) -> (found: Option<&BootTarget>)
        ensures
            match found {
                Some(target) => exists|i: int| #[trigger]
                    self@.is_first_answer(query@, i) && *target == self.targets@[i],
                None => !self@.has_answer(query@),
            },
    {
        let mut i: usize = 0;
        while i < self.targets.len()
            invariant
                i <= self.targets@.len(),
                forall|j: int| 0 <= j < i ==> !(#[trigger] self@.targets[j]).answers(query@),
            decreases self.targets@.len() - i,
        {
            let target = &self.targets[i];
            if target.answers(query) {
                assert(self@.is_first_answer(query@, i as int));
                return Some(target);
            }
            i = i + 1;
        }
        None
    }
}

/// A query that reads as a number finds entries by id alone.  The first answer
/// is the first entry with that id, and there is none where no entry has it:
/// an entry whose name begins with the query, or is the query, does not
/// answer.
pub proof fn lemma_number_asks_for_id(targets: BootTargetsView, query: Seq<char>, id: u16)
    requires
        parsed_u16(query) == Some(id),
    ensures
        targets.has_answer(query) <==> exists|i: int|
            0 <= i < targets.targets.len() && (#[trigger] targets.targets[i]).id == id,
        forall|i: int|
            targets.is_first_answer(query, i) <==> {
                &&& 0 <= i < targets.targets.len()
                &&& (#[trigger] targets.targets[i]).id == id
                &&& forall|j: int| 0 <= j < i ==> (#[trigger] targets.targets[j]).id != id
            },
{
}

/// At most one row is the first that answers a query.
pub proof fn lemma_first_answer_is_unique(
    targets: BootTargetsView,
    query: Seq<char>,
    i: int,
    j: int,
)
    requires
        targets.is_first_answer(query, i),
        targets.is_first_answer(query, j),
    ensures
        i == j,
{
}

} // verus!
