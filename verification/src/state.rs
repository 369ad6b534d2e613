//! What the player is doing.

use vstd::prelude::*;

use crate::journal_event::JournalEvent;

verus! {

/// What the player is doing.
#[derive(Debug, Clone, Copy, PartialEq, Eq, Structural)]
pub enum GameState {
    InGame,
    Dead,
    Docked,
    Landed,
    Body,
    DeepSpace,
    Supercruise,
}

impl Default for GameState {
    fn default() -> (state: GameState)
        ensures
            state == GameState::InGame,
    {
        GameState::InGame
    }
}

/// The state after `event`, from `state`.
pub open spec fn next_state(state: GameState, event: JournalEvent) -> GameState {
    match event {
        JournalEvent::Docked { .. } => GameState::Docked,
        JournalEvent::Undocked => GameState::Body,
        JournalEvent::Touchdown => GameState::Landed,
        JournalEvent::Liftoff => GameState::Body,
        JournalEvent::SupercruiseEntry { .. } => GameState::Supercruise,
        JournalEvent::SupercruiseExit { .. } => GameState::DeepSpace,
        JournalEvent::LoadGame { start_dead, start_landed } => if start_dead {
            GameState::Dead
        } else if start_landed {
            GameState::Landed
        } else {
            state
        },
        JournalEvent::Location { docked, .. } => if docked {
            GameState::Docked
        } else {
            state
        },
        _ => state,
    }
}

/// Docking makes the player docked, undocking and lifting off put the player
/// near a body, touching down lands, entering supercruise and leaving it put
/// the player in supercruise and in deep space; events that tell nothing of
/// the state leave it as it was.
pub proof fn lemma_state_events(state: GameState, station_name: Option<String>, star_system: String, body: String)
    ensures
        next_state(state, JournalEvent::Docked { station_name }) == GameState::Docked,
        next_state(state, JournalEvent::Undocked) == GameState::Body,
        next_state(state, JournalEvent::Liftoff) == GameState::Body,
        next_state(state, JournalEvent::Touchdown) == GameState::Landed,
        next_state(state, JournalEvent::SupercruiseEntry { star_system }) == GameState::Supercruise,
        next_state(state, JournalEvent::SupercruiseExit { body }) == GameState::DeepSpace,
        next_state(state, JournalEvent::Other) == state,
        next_state(state, JournalEvent::Shutdown) == state,
{
}

/// Loading the game dead makes the player dead, whether landed or not;
/// loading it landed and alive lands the player; otherwise the state stays.
/// A location docked at a station makes the player docked; any other
/// location leaves the state.
pub proof fn lemma_state_on_load_and_location(
    state: GameState,
    start_dead: bool,
    start_landed: bool,
    body: String,
    station_name: Option<String>,
    docked: bool,
    on_foot: bool,
    in_srv: bool,
)
    ensures
        start_dead ==> next_state(state, JournalEvent::LoadGame { start_dead, start_landed })
            == GameState::Dead,
        !start_dead && start_landed ==> next_state(
            state,
            JournalEvent::LoadGame { start_dead, start_landed },
        ) == GameState::Landed,
        !start_dead && !start_landed ==> next_state(
            state,
            JournalEvent::LoadGame { start_dead, start_landed },
        ) == state,
        next_state(
            state,
            JournalEvent::Location { body, station_name, docked, on_foot, in_srv },
        ) == (if docked {
            GameState::Docked
        } else {
            state
        }),
{
}

impl GameState {
    /// Follows one journal event.
    pub fn update(&mut self, event: &JournalEvent)
        ensures
            *final(self) == next_state(*old(self), *event),
    {
        match event {
            JournalEvent::Docked { .. } => {
                *self = GameState::Docked;
            },
            JournalEvent::Undocked => {
                *self = GameState::Body;
            },
            JournalEvent::Touchdown => {
                *self = GameState::Landed;
            },
            JournalEvent::Liftoff => {
                *self = GameState::Body;
            },
            JournalEvent::SupercruiseEntry { .. } => {
                *self = GameState::Supercruise;
            },
            JournalEvent::SupercruiseExit { .. } => {
                *self = GameState::DeepSpace;
            },
            JournalEvent::LoadGame { start_dead, start_landed } => {
                if *start_dead {
                    *self = GameState::Dead
                } else if *start_landed {
                    *self = GameState::Landed
                }
            },
            JournalEvent::Location { docked, .. } => {
                if *docked {
                    *self = GameState::Docked
                }
            },
            _ => (),
        }
    }
}

/// Following the same event twice leaves the state where following it once did.
pub proof fn lemma_state_update_idempotent(state: GameState, event: JournalEvent)
    ensures
        next_state(next_state(state, event), event) == next_state(state, event),
{
}

} // verus!
