//! A game session: from the journal's start to its shutdown.

use vstd::prelude::*;

use crate::journal_event::JournalEvent;
use crate::loadout::{next_loadout, Loadout};
use crate::location::{next_location, Location};
use crate::state::{next_state, GameState};

verus! {

/// What is known of the player during one session, and when the session began
/// (seconds since the Unix epoch).
#[derive(Debug, Clone, PartialEq, Eq)]
pub struct GameSession {
    pub state: GameState,
    pub location: Location,
    pub loadout: Loadout,
    pub timestamp: i64,
}

/// The session after `event`: state, location and loadout each follow it.
pub open spec fn next_session(session: GameSession, event: JournalEvent) -> GameSession {
    GameSession {
        state: next_state(session.state, event),
        location: next_location(session.location, event),
        loadout: next_loadout(session.loadout, event),
        timestamp: session.timestamp,
    }
}

impl GameSession {
    /// A session that began at `timestamp`, of which nothing else is known yet.
    pub fn new(timestamp: i64) -> (session: GameSession)
        ensures
            session == (GameSession {
                state: GameState::InGame,
                location: Location::Unkonwn,
                loadout: Loadout::Unknown,
                timestamp,
            }),
    {
        GameSession {
            timestamp,
            state: GameState::default(),
            location: Location::default(),
            loadout: Loadout::default(),
        }
    }

    /// Follows one journal event.
    pub fn update(&mut self, event: JournalEvent)
        ensures
            *final(self) == next_session(*old(self), event),
    {
        self.state.update(&event);
        self.location.update(&event);
        self.loadout.update(&event)
    }
}

/// Following the same event twice leaves the session where following it once did.
pub proof fn lemma_session_update_idempotent(session: GameSession, event: JournalEvent)
    ensures
        next_session(next_session(session, event), event) == next_session(session, event),
{
    crate::state::lemma_state_update_idempotent(session.state, event);
    crate::location::lemma_location_update_idempotent(session.location, event);
    crate::loadout::lemma_loadout_update_idempotent(session.loadout, event);
}

} // verus!
