use vstd::prelude::*;
use crate::commands::{Command, CommandMap, EVENTS, StatesNames, table_lookup};

verus! {

/// The fixed event table of each mode.
pub open spec fn mode_table(s: StatesNames, e: EVENTS) -> Option<Command> {
    match s {
        StatesNames::Default => match e {
            EVENTS::GoToNext => Some(Command::NextRequest),
            EVENTS::GoToPrev => Some(Command::PrevRequest),
            EVENTS::New => Some(Command::NewRequest),
            EVENTS::Save => Some(Command::SaveRequest),
            EVENTS::Edit => Some(Command::EditRequest),
            EVENTS::Switch => Some(Command::ChangeState(StatesNames::Response)),
            EVENTS::Help => Some(Command::ChangeState(StatesNames::Help)),
            EVENTS::Quit => Some(Command::Quit),
            _ => None,
        },
        StatesNames::Response => match e {
            EVENTS::Edit => Some(Command::DoNothing),
            EVENTS::Switch => Some(Command::DoNothing),
            _ => None,
        },
        StatesNames::Help => match e {
            EVENTS::Cancel => Some(Command::ChangeState(StatesNames::Default)),
            EVENTS::Quit => Some(Command::Quit),
            _ => None,
        },
    }
}

/// Bindings that hold in every mode whose own table has no entry for the
/// event: a way back to the default mode, and quitting.
pub open spec fn global_table(e: EVENTS) -> Option<Command> {
    match e {
        EVENTS::Cancel => Some(Command::ChangeState(StatesNames::Default)),
        EVENTS::Quit => Some(Command::Quit),
        _ => None,
    }
}

/// The list and editing mode.
pub struct DefaultState {
    pub maps: CommandMap,
}

impl DefaultState {
    pub fn get_state_name(&self) -> (r: StatesNames)
        ensures
            r == StatesNames::Default,
    {
        StatesNames::Default
    }

    pub fn init() -> (r: Self)
        ensures
            forall|e: EVENTS| #[trigger] r.maps.lookup(e) == mode_table(StatesNames::Default, e),
    {
        let entries = vec![
            (EVENTS::GoToNext, Command::NextRequest),
            (EVENTS::GoToPrev, Command::PrevRequest),
            (EVENTS::New, Command::NewRequest),
            (EVENTS::Save, Command::SaveRequest),
            (EVENTS::Edit, Command::EditRequest),
            (EVENTS::Switch, Command::ChangeState(StatesNames::Response)),
            (EVENTS::Help, Command::ChangeState(StatesNames::Help)),
            (EVENTS::Quit, Command::Quit),
        ];
        proof {
            assert forall|e: EVENTS| #[trigger] table_lookup(entries@, e) == mode_table(StatesNames::Default, e) by {
                reveal_with_fuel(table_lookup, 9);
            }
        }
        DefaultState { maps: CommandMap::from_entries(entries) }
    }
}

/// The mode in which the response pane has focus.
pub struct TabActiveState {
    pub maps: CommandMap,
}

impl TabActiveState {
    pub fn get_state_name(&self) -> (r: StatesNames)
        ensures
            r == StatesNames::Response,
    {
        StatesNames::Response
    }

    pub fn init() -> (r: Self)
        ensures
            forall|e: EVENTS| #[trigger] r.maps.lookup(e) == mode_table(StatesNames::Response, e),
    {
        let entries = vec![
            (EVENTS::Edit, Command::DoNothing),
            (EVENTS::Switch, Command::DoNothing),
        ];
        proof {
            assert forall|e: EVENTS| #[trigger] table_lookup(entries@, e) == mode_table(StatesNames::Response, e) by {
                reveal_with_fuel(table_lookup, 3);
            }
        }
        TabActiveState { maps: CommandMap::from_entries(entries) }
    }
}

/// The help overlay.
pub struct HelpState {
    pub maps: CommandMap,
}

impl HelpState {
    pub fn get_state_name(&self) -> (r: StatesNames)
        ensures
            r == StatesNames::Help,
    {
        StatesNames::Help
    }

    pub fn init() -> (r: Self)
        ensures
            forall|e: EVENTS| #[trigger] r.maps.lookup(e) == mode_table(StatesNames::Help, e),
    {
        let entries = vec![
            (EVENTS::Cancel, Command::ChangeState(StatesNames::Default)),
            (EVENTS::Quit, Command::Quit),
        ];
        proof {
            assert forall|e: EVENTS| #[trigger] table_lookup(entries@, e) == mode_table(StatesNames::Help, e) by {
                reveal_with_fuel(table_lookup, 3);
            }
        }
        HelpState { maps: CommandMap::from_entries(entries) }
    }
}

/// The active mode and the table of every mode.
pub struct StateManager {
    current_state: StatesNames,
    default_state: DefaultState,
    response_state: TabActiveState,
    help_state: HelpState,
}

impl StateManager {
    /// The active mode.
    pub closed spec fn active(&self) -> StatesNames {
        self.current_state
    }

    pub closed spec fn wf(&self) -> bool {
        &&& forall|e: EVENTS| #[trigger] self.default_state.maps.lookup(e) == mode_table(StatesNames::Default, e)
        &&& forall|e: EVENTS| #[trigger] self.response_state.maps.lookup(e) == mode_table(StatesNames::Response, e)
        &&& forall|e: EVENTS| #[trigger] self.help_state.maps.lookup(e) == mode_table(StatesNames::Help, e)
    }

    /// Builds every mode's table; the default mode is active.
    pub fn init() -> (r: Self)
        ensures
            r.wf(),
            r.active() == StatesNames::Default,
    {
        StateManager {
            current_state: StatesNames::Default,
            default_state: DefaultState::init(),
            response_state: TabActiveState::init(),
            help_state: HelpState::init(),
        }
    }

    /// The active mode.
    pub fn get_state_name(&self) -> (r: StatesNames)
        ensures
            r == self.active(),
    {
        self.current_state
    }

    /// Makes `state` the active mode; the tables stay as they are.
    pub fn set_state(&mut self, state: StatesNames)
        requires
            old(self).wf(),
        ensures
            final(self).wf(),
            final(self).active() == state,
    {
        self.current_state = state;
    }

    /// The table of the active mode.
    pub fn get_command_map(&self) -> (r: &CommandMap)
        requires
            self.wf(),
        ensures
            forall|e: EVENTS| #[trigger] r.lookup(e) == mode_table(self.active(), e),
    {
        match self.current_state {
            StatesNames::Default => &self.default_state.maps,
            StatesNames::Response => &self.response_state.maps,
            StatesNames::Help => &self.help_state.maps,
        }
    }
}

/// Resolves events against the active mode's table.
#[derive(Clone)]
pub struct ActionsManager {}

impl ActionsManager {
    pub fn new() -> (r: Self) {
        ActionsManager {}
    }

    /// The command `action` maps to in the active mode of `states`, or none
    /// when that mode has no entry for it.
    pub fn get_command_of_action(&self, action: EVENTS, states: &StateManager) -> (r: Option<Command>)
        requires
            states.wf(),
        ensures
            r == mode_table(states.active(), action),
    {
        states.get_command_map().get(action)
    }

    /// The command of the active mode's table for `action`; where that
    /// table has no entry, the global binding for it, if any.
    pub fn get_command_or_global(&self, action: EVENTS, states: &StateManager) -> (r: Option<Command>)
        requires
            states.wf(),
        ensures
            r == match mode_table(states.active(), action) {
                Some(c) => Some(c),
                None => global_table(action),
            },
    {
        match self.get_command_of_action(action, states) {
            Some(c) => Some(c),
            None => match action {
                EVENTS::Cancel => Some(Command::ChangeState(StatesNames::Default)),
                EVENTS::Quit => Some(Command::Quit),
                _ => None,
            },
        }
    }
}

/// Resolution depends on the event and the active mode alone: two managers
/// in the same mode resolve an event to the same command.
pub proof fn lemma_resolve_is_pure(a: &StateManager, b: &StateManager, action: EVENTS, r1: Option<Command>, r2: Option<Command>)
    requires
        a.wf(),
        b.wf(),
        a.active() == b.active(),
        r1 == mode_table(a.active(), action),
        r2 == mode_table(b.active(), action),
    ensures
        r1 == r2,
{
}

} // verus!
