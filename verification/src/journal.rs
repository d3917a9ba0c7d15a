use vstd::prelude::*;

use crate::sound::unique_keys;
use crate::text::{decimal, message_with_number};

verus! {

/// The entries the journal can hold.
#[derive(Copy, Clone, PartialEq, Eq, Structural, Debug, Hash)]
pub enum JournalEntryKind {
    CurrentSituation,
}

impl Default for JournalEntryKind {
    fn default() -> (r: Self)
        ensures
            r == JournalEntryKind::CurrentSituation,
    {
        JournalEntryKind::CurrentSituation
    }
}

/// The title and text shown for a journal entry.
#[derive(Clone, Debug)]
pub struct JournalEntryDefinition {
    pub title: String,
    pub text: String,
}

/// The definitions of the journal entries, one per kind.
pub struct JournalEntryDefinitionContainer {
    pub entries: Vec<(JournalEntryKind, JournalEntryDefinition)>,
}

/// The definition listed for `kind`, if any (the first one listed).
pub open spec fn definition_index(
    entries: Seq<(JournalEntryKind, JournalEntryDefinition)>,
    kind: JournalEntryKind,
) -> int {
    choose|i: int|
        0 <= i < entries.len() && entries[i].0 == kind && forall|j: int|
            0 <= j < i ==> entries[j].0 != kind
}

pub open spec fn has_definition(
    entries: Seq<(JournalEntryKind, JournalEntryDefinition)>,
    kind: JournalEntryKind,
) -> bool {
    exists|i: int| 0 <= i < entries.len() && entries[i].0 == kind
}

impl JournalEntryDefinitionContainer {
    /// No kind has two definitions.
    pub open spec fn well_formed(&self) -> bool {
        unique_keys(self.entries@)
    }

    /// Whether no kind has two definitions.
    pub fn has_unique_kinds(&self) -> (r: bool)
        ensures
            r == self.well_formed(),
    {
        let mut i: usize = 0;
        while i < self.entries.len()
            invariant
                i <= self.entries@.len(),
                forall|a: int, b: int| 0 <= a < i && 0 <= b < i && a != b
                    ==> #[trigger] self.entries@[a].0 != #[trigger] self.entries@[b].0,
            decreases self.entries@.len() - i,
        {
            let mut j: usize = 0;
            while j < i
                invariant
                    i < self.entries@.len(),
                    j <= i,
                    forall|b: int| 0 <= b < j ==> self.entries@[i as int].0 != #[trigger] self.entries@[b].0,
                decreases i - j,
            {
                if self.entries[i].0 == self.entries[j].0 {
                    return false;
                }
                j = j + 1;
            }
            i = i + 1;
        }
        true
    }

    /// Whether some definition is listed for `kind`.
    pub fn contains(&self, kind: JournalEntryKind) -> (r: bool)
        ensures
            r == has_definition(self.entries@, kind),
    {
        let mut i: usize = 0;
        while i < self.entries.len()
            invariant
                i <= self.entries@.len(),
                forall|j: int| 0 <= j < i ==> self.entries@[j].0 != kind,
            decreases self.entries@.len() - i,
        {
            if self.entries[i].0 == kind {
                return true;
            }
            i = i + 1;
        }
        false
    }
}

impl JournalEntryKind {
    /// The kind saved as `id`; any number but 0 is an error.
    pub fn from_id(id: u32) -> (r: Result<Self, String>)
        ensures
            id == 0 <==> r is Ok,
            r matches Ok(k) ==> k == JournalEntryKind::CurrentSituation,
            r matches Err(e) ==> e@ == "Invalid journal entry kind "@ + decimal(id as nat) + "!"@,
    {
        match id {
            0 => Ok(JournalEntryKind::CurrentSituation),
            _ => Err(message_with_number("Invalid journal entry kind ", id as u64, "!")),
        }
    }

    /// The number the kind is saved as.
    pub fn id(self) -> (r: u32)
        ensures
            r == 0,
    {
        0
    }

    /// The definition of this entry: the first one listed for its kind.
    pub fn get_definition(self, container: &JournalEntryDefinitionContainer) -> (r:
        &JournalEntryDefinition)
        requires
            has_definition(container.entries@, self),
        ensures
            *r == container.entries@[definition_index(container.entries@, self)].1,
            container.well_formed() ==> forall|i: int|
                0 <= i < container.entries@.len() && container.entries@[i].0 == self ==> *r
                    == #[trigger] container.entries@[i].1,
    {
        let mut i: usize = 0;
        while i < container.entries.len()
            invariant
                i <= container.entries@.len(),
                has_definition(container.entries@, self),
                forall|j: int| 0 <= j < i ==> container.entries@[j].0 != self,
            decreases container.entries@.len() - i,
        {
            if container.entries[i].0 == self {
                proof {
                    let d = definition_index(container.entries@, self);
                    assert(0 <= d < container.entries@.len() && container.entries@[d].0 == self
                        && forall|j: int| 0 <= j < d ==> container.entries@[j].0 != self);
                    assert(d == i as int);
                }
                return &container.entries[i].1;
            }
            i = i + 1;
        }
        proof {
            let w = choose|w: int| 0 <= w < container.entries@.len() && container.entries@[w].0 == self;
            assert(container.entries@[w].0 != self);
        }
        &container.entries[0].1
    }
}

/// The entries the player has collected, in the order they were found.
#[derive(Clone, Debug)]
pub struct Journal {
    pub messages: Vec<JournalEntryKind>,
}

impl Default for Journal {
    fn default() -> (r: Self)
        ensures
            r.messages@ == Seq::<JournalEntryKind>::empty(),
    {
        Journal { messages: Vec::new() }
    }
}

impl Journal {
    /// A new journal holds the entry on the current situation.
    pub fn new() -> (r: Self)
        ensures
            r.messages@ == seq![JournalEntryKind::CurrentSituation],
    {
        let mut messages = Vec::new();
        messages.push(JournalEntryKind::CurrentSituation);
        Journal { messages }
    }

    /// The entry at a position of the list, if there is one.
    pub fn entry(&self, index: usize) -> (r: Option<JournalEntryKind>)
        ensures
            index < self.messages@.len() ==> r == Some(self.messages@[index as int]),
            index >= self.messages@.len() ==> r.is_none(),
    {
        if index < self.messages.len() {
            Some(self.messages[index])
        } else {
            None
        }
    }
}

/// The journal's selection after one press of the cursor key up (`up`) or down: up stops
/// at the first line, down goes to the next line; with nothing selected, either key
/// selects the first line.
pub open spec fn spec_move_selection(current: Option<usize>, up: bool) -> Option<usize> {
    match current {
        None => Some(0usize),
        Some(n) => if up {
            Some(if n == 0 { 0 } else { (n - 1) as usize })
        } else {
            Some((n + 1) as usize)
        },
    }
}

/// Moves the journal's selection one line.
pub fn move_journal_selection(current: Option<usize>, up: bool) -> (r: Option<usize>)
    requires
        !up ==> current != Some(usize::MAX),
    ensures
        r == spec_move_selection(current, up),
{
    match current {
        None => Some(0),
        Some(n) => if up {
            Some(n.saturating_sub(1))
        } else {
            Some(n + 1)
        },
    }
}

} // verus!
