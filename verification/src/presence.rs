//! The presence side that shows the updates of the journal side: the state
//! and the loadout, in words.

use vstd::prelude::*;

use crate::discord::activity::{Activity, ActivityModel, ActivityType, StatusDisplayType, plain_activity};
use crate::elite::status::{
    GameState, GameStateModel, Loadout, LoadoutModel, Message, loadout_text, state_text,
};

verus! {

/// What the presence knows of the player.
#[derive(Debug, Clone, PartialEq, Eq)]
pub struct Session {
    pub state: GameState,
    pub loadout: Loadout,
}

impl Default for Session {
    fn default() -> (session: Session)
        ensures
            session.state == GameState::Idle,
            session.loadout == Loadout::Unknown,
    {
        Session { state: GameState::Idle, loadout: Loadout::Unknown }
    }
}

/// The activity shown for a state and a loadout: the game's name, the state
/// in words, and the loadout in words as details.
pub open spec fn presence_activity(state: GameStateModel, loadout: LoadoutModel) -> ActivityModel {
    ActivityModel {
        state: Some(state_text(state)),
        details: Some(loadout_text(loadout)),
        ..plain_activity("Elite Dangerous"@)
    }
}

/// The session after an update: the state and the loadout that the update
/// carries replace those known; what it does not carry is kept.
pub open spec fn patched(session: Session, state: Option<GameState>, loadout: Option<Loadout>) -> Session {
    Session {
        state: match state {
            Some(s) => s,
            None => session.state,
        },
        loadout: match loadout {
            Some(l) => l,
            None => session.loadout,
        },
    }
}

/// The session after a message: an update is patched in; the start of a
/// session changes nothing.
pub open spec fn handled(session: Session, message: Message) -> Session {
    match message {
        Message::Update { state, loadout } => patched(session, state, loadout),
        Message::Session { .. } => session,
    }
}

/// An update that carries nothing changes nothing, and patching the same
/// update twice leaves the session where patching it once did.
pub proof fn lemma_patch_laws(session: Session, state: Option<GameState>, loadout: Option<Loadout>)
    ensures
        patched(session, None, None) == session,
        patched(patched(session, state, loadout), state, loadout) == patched(session, state, loadout),
{
}

/// An update's state replaces the known state whatever loadout it carries,
/// and its loadout replaces the known loadout whatever state it carries; what
/// the update does not carry is kept.
pub proof fn lemma_patch_replaces_each(
    session: Session,
    state: Option<GameState>,
    loadout: Option<Loadout>,
)
    ensures
        state matches Some(s) ==> patched(session, state, loadout).state == s,
        loadout matches Some(l) ==> patched(session, state, loadout).loadout == l,
        state is None ==> patched(session, state, loadout).state == session.state,
        loadout is None ==> patched(session, state, loadout).loadout == session.loadout,
        handled(session, Message::Update { state, loadout }) == patched(session, state, loadout),
{
}

impl Session {
    /// Takes in an update: the state and the loadout that it carries replace
    /// those known; what it does not carry is kept.
    pub fn patch(&mut self, state: Option<GameState>, loadout: Option<Loadout>)
        ensures
            *final(self) == patched(*old(self), state, loadout),
    {
        if let Some(state) = state {
            self.state = state
        }
        if let Some(loadout) = loadout {
            self.loadout = loadout
        }
    }

    /// The activity shown for what is known.
    pub fn activity(&self) -> (activity: Activity)
        ensures
            activity@ == presence_activity(self.state@, self.loadout@),
    {
        Activity {
            name: String::from_str("Elite Dangerous"),
            activity_type: ActivityType::Playing,
            created_at: 0,
            status_display_type: StatusDisplayType::Name,
            application_id: None,
            details: Some(self.loadout.to_string()),
            details_url: None,
            state: Some(self.state.to_string()),
            state_url: None,
            timestamps: None,
            assets: None,
            url: None,
            buttons: None,
        }
    }

    /// Takes in one message of the journal side, and gives the activity to
    /// show: an update is patched in; the start of a session changes nothing.
    pub fn handle(&mut self, message: Message) -> (activity: Activity)
        ensures
            *final(self) == handled(*old(self), message),
            activity@ == presence_activity(final(self).state@, final(self).loadout@),
    {
        match message {
            Message::Session { .. } => {},
            Message::Update { state, loadout } => self.patch(state, loadout),
        }
        self.activity()
    }
}

} // verus!
