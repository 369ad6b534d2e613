//! The presence side: follows the messages of the journal watcher and decides
//! which activity Discord shows.

use vstd::prelude::*;

use crate::discord::activity::{
    Activity, ActivityAssets, ActivityModel, ActivityTimestamps, ActivityType, AssetsModel,
    StatusDisplayType, empty_assets, plain_activity,
};
use crate::journal_event::JournalEvent;
use crate::loadout::Loadout;
use crate::message::Message;
use crate::session::{next_session, GameSession};
use crate::state::GameState;

verus! {

/// What Discord is to be told after a message.
#[derive(Debug, Clone, PartialEq, Eq)]
pub enum ActivityCommand {
    /// Clear the activity of process `pid`.
    Clear { pid: u32 },
    /// Show `activity` for process `pid`.
    Show { pid: u32, activity: Activity },
}

/// An [`ActivityCommand`] with its texts as character sequences.
pub enum ActivityCommandModel {
    Clear { pid: u32 },
    Show { pid: u32, activity: ActivityModel },
}

impl View for ActivityCommand {
    type V = ActivityCommandModel;

    open spec fn view(&self) -> ActivityCommandModel {
        match self {
            ActivityCommand::Clear { pid } => ActivityCommandModel::Clear { pid: *pid },
            ActivityCommand::Show { pid, activity } => ActivityCommandModel::Show {
                pid: *pid,
                activity: activity@,
            },
        }
    }
}

/// The presence: the process it speaks for, and the session in course, if any.
pub struct Rpc {
    pub pid: u32,
    pub game_session: Option<GameSession>,
}

/// The session after following each of `events` in turn.
pub open spec fn follow_events(session: GameSession, events: Seq<JournalEvent>) -> GameSession
    decreases events.len(),
{
    if events.len() == 0 {
        session
    } else {
        next_session(follow_events(session, events.drop_last()), events.last())
    }
}

/// The session in course after `message`: a new one on a start, none on an
/// end; the events of the journal move the session in course, and are
/// dropped when there is none.
pub open spec fn next_game_session(session: Option<GameSession>, message: Message) -> Option<
    GameSession,
> {
    match message {
        Message::SessionStart { timestamp } => Some(
            GameSession {
                state: GameState::InGame,
                location: crate::location::Location::Unkonwn,
                loadout: Loadout::Unknown,
                timestamp,
            },
        ),
        Message::SessionEnd => None,
        Message::JournalEvent(event) => match session {
            Some(s) => Some(next_session(s, event)),
            None => None,
        },
        Message::JournalEvents(events) => match session {
            Some(s) => Some(follow_events(s, events@)),
            None => None,
        },
    }
}

/// The images and texts shown for a loadout: those of the ship, the SRV or the
/// suit, with the game's small logo; the game's large image where the loadout
/// is unknown.
pub open spec fn loadout_assets(loadout: Loadout) -> AssetsModel {
    match loadout {
        Loadout::Ship { ship_type, .. } => AssetsModel {
            large_image: Some("ship"@),
            large_text: Some(ship_type@),
            small_image: Some("elite-dangerous-minimalistic"@),
            small_text: Some("Elite Dangerous"@),
            ..empty_assets()
        },
        Loadout::Srv => AssetsModel {
            large_image: Some("srv"@),
            small_image: Some("elite-dangerous-minimalistic"@),
            small_text: Some("Elite Dangerous"@),
            ..empty_assets()
        },
        Loadout::Suit { suit_type } => AssetsModel {
            large_image: Some("srv"@),
            large_text: suit_type.deep_view(),
            small_image: Some("elite-dangerous-minimalistic"@),
            small_text: Some("Elite Dangerous"@),
            ..empty_assets()
        },
        Loadout::Unknown => AssetsModel {
            large_image: Some("elite-dangerous"@),
            ..empty_assets()
        },
    }
}

/// The activity shown for a session: the game's name, the images of the
/// loadout, the session's start, and "In game" while no other state is known.
pub open spec fn session_activity(session: GameSession) -> ActivityModel {
    ActivityModel {
        state: if session.state == GameState::InGame {
            Some("In game"@)
        } else {
            None
        },
        timestamps: Some(ActivityTimestamps { start: Some(session.timestamp), end: None }),
        assets: Some(loadout_assets(session.loadout)),
        ..plain_activity("Elite Dangerous"@)
    }
}

/// What Discord is told while `session` is in course for process `pid`.
pub open spec fn activity_command(pid: u32, session: Option<GameSession>) -> ActivityCommandModel {
    match session {
        None => ActivityCommandModel::Clear { pid },
        Some(s) => ActivityCommandModel::Show { pid, activity: session_activity(s) },
    }
}

/// Following a run of events and then another is following the two runs
/// joined: a batch of events moves the session as its events sent one by one do.
pub proof fn lemma_follow_events_split(
    session: GameSession,
    first: Seq<JournalEvent>,
    second: Seq<JournalEvent>,
)
    ensures
        follow_events(session, first + second) == follow_events(
            follow_events(session, first),
            second,
        ),
    decreases second.len(),
{
    if second.len() == 0 {
        assert(first + second =~= first);
    } else {
        lemma_follow_events_split(session, first, second.drop_last());
        assert((first + second).drop_last() =~= first + second.drop_last());
        assert((first + second).last() == second.last());
    }
}

/// A batch of events moves the presence as its parts sent one after the
/// other do, and a batch of one event as that event sent alone.
pub proof fn lemma_batch_split(
    session: Option<GameSession>,
    whole: Vec<JournalEvent>,
    first: Vec<JournalEvent>,
    second: Vec<JournalEvent>,
    event: JournalEvent,
    single: Vec<JournalEvent>,
)
    requires
        whole@ == first@ + second@,
        single@ == seq![event],
    ensures
        next_game_session(session, Message::JournalEvents(whole)) == next_game_session(
            next_game_session(session, Message::JournalEvents(first)),
            Message::JournalEvents(second),
        ),
        next_game_session(session, Message::JournalEvents(single)) == next_game_session(
            session,
            Message::JournalEvent(event),
        ),
{
    if let Some(s) = session {
        lemma_follow_events_split(s, first@, second@);
        assert(single@.drop_last() =~= Seq::<JournalEvent>::empty());
        assert(follow_events(s, single@.drop_last()) == s);
        assert(follow_events(s, single@) == next_session(s, event));
    }
}

/// Without a session in course, the events of the journal are dropped and
/// Discord is told to clear the activity.
pub proof fn lemma_events_without_session(pid: u32, message: Message)
    requires
        message is JournalEvent || message is JournalEvents,
    ensures
        next_game_session(None, message) is None,
        activity_command(pid, next_game_session(None, message)) == (ActivityCommandModel::Clear {
            pid,
        }),
{
}

/// The end of a session always clears the activity; the start of one always
/// begins afresh, whatever was known before, and shows the session's start.
pub proof fn lemma_session_bounds(pid: u32, session: Option<GameSession>, timestamp: i64)
    ensures
        activity_command(pid, next_game_session(session, Message::SessionEnd))
            == (ActivityCommandModel::Clear { pid }),
        next_game_session(session, Message::SessionStart { timestamp }) == next_game_session(
            None,
            Message::SessionStart { timestamp },
        ),
        activity_command(pid, next_game_session(session, Message::SessionStart { timestamp }))
            matches ActivityCommandModel::Show { activity, .. } && activity.timestamps == Some(
            ActivityTimestamps { start: Some(timestamp), end: None },
        ),
{
}

/// The activity shown for a session: always named "Elite Dangerous", started
/// at the session's start; its state reads "In game" exactly while the
/// session's state is `InGame`, and is absent in every other state.
pub proof fn lemma_session_activity_state(session: GameSession)
    ensures
        session_activity(session).name == "Elite Dangerous"@,
        session_activity(session).timestamps == Some(
            ActivityTimestamps { start: Some(session.timestamp), end: None },
        ),
        session_activity(session).state == Some("In game"@) <==> session.state == GameState::InGame,
        session.state != GameState::InGame ==> session_activity(session).state is None,
        session_activity(session).details is None,
{
}

/// The large image shows the vehicle: the ship for a ship, the SRV for the
/// SRV and for a suit, the game's own image where the loadout is unknown; the
/// large text is the ship's type or the suit's.
pub proof fn lemma_session_activity_assets(session: GameSession)
    ensures
        ({
            let assets = session_activity(session).assets->0;
            &&& session_activity(session).assets is Some
            &&& session.loadout is Ship ==> assets.large_image == Some("ship"@) && assets.large_text
                == Some(session.loadout->ship_type@)
            &&& session.loadout is Srv ==> assets.large_image == Some("srv"@) && assets.large_text
                is None
            &&& session.loadout is Suit ==> assets.large_image == Some("srv"@) && assets.large_text
                == session.loadout->suit_type.deep_view()
            &&& session.loadout is Unknown ==> assets.large_image == Some("elite-dangerous"@)
                && assets.small_image is None
        }),
{
}

fn text(s: &str) -> (t: Option<String>)
    ensures
        t.deep_view() == Some(s@),
{
    Some(String::from_str(s))
}

fn loadout_assets_of(loadout: &Loadout) -> (assets: ActivityAssets)
    ensures
        assets@ == loadout_assets(*loadout),
{
    match loadout {
        Loadout::Ship { ship_type, .. } => ActivityAssets {
            large_image: text("ship"),
            large_text: Some(ship_type.clone()),
            small_image: text("elite-dangerous-minimalistic"),
            small_text: text("Elite Dangerous"),
            large_url: None,
            small_url: None,
        },
        Loadout::Srv => ActivityAssets {
            large_image: text("srv"),
            small_image: text("elite-dangerous-minimalistic"),
            small_text: text("Elite Dangerous"),
            large_text: None,
            large_url: None,
            small_url: None,
        },
        Loadout::Suit { suit_type } => ActivityAssets {
            large_image: text("srv"),
            large_text: suit_type.clone(),
            small_image: text("elite-dangerous-minimalistic"),
            small_text: text("Elite Dangerous"),
            large_url: None,
            small_url: None,
        },
        Loadout::Unknown => ActivityAssets {
            large_image: text("elite-dangerous"),
            large_text: None,
            large_url: None,
            small_image: None,
            small_text: None,
            small_url: None,
        },
    }
}

/// The activity shown for `session`.
pub fn activity_of(session: &GameSession) -> (activity: Activity)
    ensures
        activity@ == session_activity(*session),
{
    let state = if session.state == GameState::InGame {
        text("In game")
    } else {
        None
    };
    Activity {
        name: String::from_str("Elite Dangerous"),
        activity_type: ActivityType::Playing,
        created_at: 0,
        status_display_type: StatusDisplayType::Name,
        application_id: None,
        details: None,
        details_url: None,
        state,
        state_url: None,
        timestamps: Some(ActivityTimestamps { start: Some(session.timestamp), end: None }),
        assets: Some(loadout_assets_of(&session.loadout)),
        url: None,
        buttons: None,
    }
}

impl Rpc {
    /// The presence of process `pid`, before any session.
    pub fn new(pid: u32) -> (rpc: Rpc)
        ensures
            rpc.pid == pid,
            rpc.game_session is None,
    {
        Rpc { pid, game_session: None }
    }

    /// Follows one message of the journal watcher, and says what Discord is to
    /// be told.
    pub fn update(&mut self, message: Message) -> (command: ActivityCommand)
        ensures
            final(self).pid == old(self).pid,
            final(self).game_session == next_game_session(old(self).game_session, message),
            command@ == activity_command(final(self).pid, final(self).game_session),
    {
        let ghost m = message;
        match message {
            Message::SessionStart { timestamp } => {
                self.game_session = Some(GameSession::new(timestamp))
            },
            Message::SessionEnd => self.game_session = None,
            Message::JournalEvent(event) => {
                let session = self.game_session.take();
                match session {
                    Some(mut s) => {
                        s.update(event);
                        self.game_session = Some(s);
                    },
                    None => {},
                }
            },
            Message::JournalEvents(events) => {
                let session = self.game_session.take();
                match session {
                    Some(mut s) => {
                        follow_all(&mut s, events);
                        self.game_session = Some(s);
                    },
                    None => {},
                }
            },
        }
        self.update_activity()
    }

    /// What Discord is told while the session in course (if any) lasts.
    pub fn update_activity(&self) -> (command: ActivityCommand)
        ensures
            command@ == activity_command(self.pid, self.game_session),
    {
        match &self.game_session {
            None => ActivityCommand::Clear { pid: self.pid },
            Some(session) => ActivityCommand::Show { pid: self.pid, activity: activity_of(session) },
        }
    }
}

fn follow_all(session: &mut GameSession, events: Vec<JournalEvent>)
    ensures
        *final(session) == follow_events(*old(session), events@),
{
    let ghost all = events@;
    let ghost start = *session;
    let total = events.len();
    let mut rest = events;
    let mut i: usize = 0;
    while rest.len() > 0
        invariant
            i + rest@.len() == all.len(),
            all.len() == total,
            rest@ == all.skip(i as int),
            *session == follow_events(start, all.take(i as int)),
        decreases rest@.len(),
    {
        let event = rest.remove(0);
        proof {
            assert(all.take(i + 1).drop_last() =~= all.take(i as int));
            assert(all.take(i + 1).last() == event);
            assert(all.skip(i + 1) =~= all.skip(i as int).drop_first());
        }
        session.update(event);
        i = i + 1;
    }
    proof {
        assert(all.take(i as int) =~= all);
    }
}

} // verus!
