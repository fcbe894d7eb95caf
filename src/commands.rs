use vstd::prelude::*;

verus! {

/// Input events delivered by the terminal, one at a time.
#[derive(Clone, Copy, Debug, PartialEq, Eq, Structural)]
pub enum EVENTS {
    Edit,
    Switch,
    Confirm,
    Cancel,
    GoToNext,
    GoToPrev,
    New,
    Save,
    Help,
    Quit,
}

/// Names of the UI modes; exactly one is active at a time.
#[derive(Clone, Copy, Debug, PartialEq, Eq, Structural)]
pub enum StatesNames {
    Default,
    Response,
    Help,
}

/// Commands that an event can resolve to.
#[derive(Clone, Copy, Debug, PartialEq, Eq, Structural)]
pub enum Command {
    DoNothing,
    Quit,
    ChangeState(StatesNames),
    NewRequest,
    NextRequest,
    PrevRequest,
    SaveRequest,
    EditRequest,
}

/// Result of looking `e` up in a list of (event, command) pairs: the
/// command of the last pair for `e`, if any.
pub open spec fn table_lookup(entries: Seq<(EVENTS, Command)>, e: EVENTS) -> Option<Command>
    decreases entries.len(),
{
    if entries.len() == 0 {
        None
    } else if entries.last().0 == e {
        Some(entries.last().1)
    } else {
        table_lookup(entries.drop_last(), e)
    }
}

/// An immutable table from events to commands. An event with no entry
/// resolves to no command.
pub struct CommandMap {
    entries: Vec<(EVENTS, Command)>,
}

impl CommandMap {
    /// The command `e` maps to, if any.
    pub closed spec fn lookup(&self, e: EVENTS) -> Option<Command> {
        table_lookup(self.entries@, e)
    }

    /// Builds a table from pairs; a later pair for the same event wins.
    pub fn from_entries(entries: Vec<(EVENTS, Command)>) -> (r: CommandMap)
        ensures
            forall|e: EVENTS| #[trigger] r.lookup(e) == table_lookup(entries@, e),
    {
        CommandMap { entries }
    }

    /// Looks `e` up.
    pub fn get(&self, e: EVENTS) -> (r: Option<Command>)
        ensures
            r == self.lookup(e),
    {
        let mut i: usize = self.entries.len();
        proof {
            assert(self.entries@.subrange(0, i as int) =~= self.entries@);
        }
        while i > 0
            invariant
                i <= self.entries@.len(),
                table_lookup(self.entries@, e) == table_lookup(self.entries@.subrange(0, i as int), e),
            decreases i,
        {
            let pair = self.entries[i - 1];
            proof {
                assert(self.entries@.subrange(0, i as int).drop_last() =~= self.entries@.subrange(0, i - 1));
            }
            if pair.0 == e {
                return Some(pair.1);
            }
            i = i - 1;
        }
        None
    }
}

} // verus!
