use reqtui::commands::{Command, CommandMap, StatesNames, EVENTS};
use reqtui::requests::RequestStore;
use reqtui::session::{execute, Effect};
use reqtui::states::{ActionsManager, StateManager, TabActiveState};

#[test]
fn default_mode_resolves_navigation() {
    let states = StateManager::init();
    let actions = ActionsManager::new();
    assert_eq!(states.get_state_name(), StatesNames::Default);
    assert_eq!(actions.get_command_of_action(EVENTS::GoToNext, &states), Some(Command::NextRequest));
    assert_eq!(actions.get_command_of_action(EVENTS::GoToPrev, &states), Some(Command::PrevRequest));
    assert_eq!(actions.get_command_of_action(EVENTS::Confirm, &states), None);
}

#[test]
fn resolution_follows_active_mode() {
    let mut states = StateManager::init();
    let actions = ActionsManager::new();
    assert_eq!(
        actions.get_command_of_action(EVENTS::Switch, &states),
        Some(Command::ChangeState(StatesNames::Response))
    );
    states.set_state(StatesNames::Response);
    assert_eq!(actions.get_command_of_action(EVENTS::Switch, &states), Some(Command::DoNothing));
    assert_eq!(actions.get_command_of_action(EVENTS::GoToNext, &states), None);
    states.set_state(StatesNames::Help);
    assert_eq!(
        actions.get_command_of_action(EVENTS::Cancel, &states),
        Some(Command::ChangeState(StatesNames::Default))
    );
}

#[test]
fn resolving_twice_gives_same_command() {
    let states = StateManager::init();
    let actions = ActionsManager::new();
    let a = actions.get_command_of_action(EVENTS::Save, &states);
    let b = actions.get_command_of_action(EVENTS::Save, &states);
    assert_eq!(a, b);
    assert_eq!(a, Some(Command::SaveRequest));
}

#[test]
fn response_tab_table() {
    let tab = TabActiveState::init();
    assert_eq!(tab.get_state_name(), StatesNames::Response);
    assert_eq!(tab.maps.get(EVENTS::Edit), Some(Command::DoNothing));
    assert_eq!(tab.maps.get(EVENTS::New), None);
}

#[test]
fn later_entry_wins_in_table() {
    let map = CommandMap::from_entries(vec![
        (EVENTS::Quit, Command::DoNothing),
        (EVENTS::Quit, Command::Quit),
    ]);
    assert_eq!(map.get(EVENTS::Quit), Some(Command::Quit));
    assert_eq!(map.get(EVENTS::Edit), None);
}

#[test]
fn execute_runs_store_commands() {
    let mut store = RequestStore::init(vec![]);
    let mut states = StateManager::init();
    assert_eq!(execute(Command::NewRequest, &mut store, &mut states), Effect::Continue);
    assert_eq!(store.get_total_requests(), 2);
    assert_eq!(store.request_ind(), 1);
    assert_eq!(execute(Command::NextRequest, &mut store, &mut states), Effect::Continue);
    assert_eq!(store.request_ind(), 0);
    assert_eq!(execute(Command::PrevRequest, &mut store, &mut states), Effect::Continue);
    assert_eq!(store.request_ind(), 1);
    assert_eq!(execute(Command::SaveRequest, &mut store, &mut states), Effect::Persist);
    assert_eq!(execute(Command::EditRequest, &mut store, &mut states), Effect::OpenEditor);
    assert_eq!(
        execute(Command::ChangeState(StatesNames::Help), &mut store, &mut states),
        Effect::Continue
    );
    assert_eq!(states.get_state_name(), StatesNames::Help);
    assert_eq!(execute(Command::Quit, &mut store, &mut states), Effect::Quit);
    assert_eq!(store.request_ind(), 1);
}

#[test]
fn response_mode_maps_only_edit_and_switch() {
    let mut states = StateManager::init();
    let actions = ActionsManager::new();
    states.set_state(StatesNames::Response);
    assert_eq!(actions.get_command_of_action(EVENTS::Edit, &states), Some(Command::DoNothing));
    assert_eq!(actions.get_command_of_action(EVENTS::Cancel, &states), None);
    assert_eq!(actions.get_command_of_action(EVENTS::Quit, &states), None);
    assert_eq!(
        actions.get_command_or_global(EVENTS::Cancel, &states),
        Some(Command::ChangeState(StatesNames::Default))
    );
    assert_eq!(actions.get_command_or_global(EVENTS::Quit, &states), Some(Command::Quit));
    assert_eq!(actions.get_command_or_global(EVENTS::Switch, &states), Some(Command::DoNothing));
    assert_eq!(actions.get_command_or_global(EVENTS::New, &states), None);
}

#[test]
fn mode_table_entry_takes_precedence_over_global() {
    let states = StateManager::init();
    let actions = ActionsManager::new();
    assert_eq!(actions.get_command_or_global(EVENTS::GoToNext, &states), Some(Command::NextRequest));
    assert_eq!(actions.get_command_or_global(EVENTS::Cancel, &states), Some(Command::ChangeState(StatesNames::Default)));
}
