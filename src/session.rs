use vstd::prelude::*;
use crate::commands::Command;
use crate::requests::{RequestStore, next_index, prev_index};
use crate::states::StateManager;

verus! {

/// What the caller has to do outside the library after a command ran.
#[derive(Clone, Copy, Debug, PartialEq, Eq, Structural)]
pub enum Effect {
    /// Nothing more: read the next event.
    Continue,
    /// Leave the event loop.
    Quit,
    /// Write `current_entry()` to the persistence layer, then hand its
    /// answer to `save_current_request`.
    Persist,
    /// Let the user edit the current request, then hand the edited request
    /// to `update_request`.
    OpenEditor,
}

/// Runs one resolved command against the request store and the mode
/// manager, and says what is left for the caller to do.
pub fn execute(cmd: Command, store: &mut RequestStore, states: &mut StateManager) -> (r: Effect)
    requires
        old(store).wf(),
        old(states).wf(),
    ensures
        final(store).wf(),
        final(states).wf(),
        match cmd {
            Command::ChangeState(s) => final(states).active() == s,
            _ => final(states).active() == old(states).active(),
        },
        match cmd {
            Command::NewRequest => if old(store).fresh_bound() < u64::MAX {
                RequestStore::is_add_step(*old(store), *final(store))
                    && final(store).current() == crate::request::default_model()
            } else {
                *final(store) == *old(store)
            },
            Command::NextRequest => final(store).order() == old(store).order()
                && final(store).entities() == old(store).entities()
                && final(store).cursor() == next_index(old(store).cursor(), old(store).order().len()),
            Command::PrevRequest => final(store).order() == old(store).order()
                && final(store).entities() == old(store).entities()
                && final(store).cursor() == prev_index(old(store).cursor(), old(store).order().len()),
            _ => *final(store) == *old(store),
        },
        r == match cmd {
            Command::Quit => Effect::Quit,
            Command::SaveRequest => Effect::Persist,
            Command::EditRequest => Effect::OpenEditor,
            _ => Effect::Continue,
        },
{
    match cmd {
        Command::DoNothing => Effect::Continue,
        Command::Quit => Effect::Quit,
        Command::ChangeState(s) => {
            states.set_state(s);
            Effect::Continue
        },
        Command::NewRequest => {
            if store.can_add() {
                let _ = store.add_request();
            }
            Effect::Continue
        },
        Command::NextRequest => {
            store.goto_next_request();
            Effect::Continue
        },
        Command::PrevRequest => {
            store.goto_prev_request();
            Effect::Continue
        },
        Command::SaveRequest => Effect::Persist,
        Command::EditRequest => Effect::OpenEditor,
    }
}

} // verus!
