use elite_presence::discord::activity::{ActivityAssets, ActivityTimestamps, ActivityType, StatusDisplayType};
use elite_presence::journal_event::JournalEvent;
use elite_presence::loadout::Loadout;
use elite_presence::message::Message;
use elite_presence::rpc::{activity_of, ActivityCommand, Rpc};
use elite_presence::session::GameSession;
use elite_presence::state::GameState;

fn s(text: &str) -> String {
    text.to_string()
}

fn shown(command: ActivityCommand) -> elite_presence::discord::activity::Activity {
    match command {
        ActivityCommand::Show { pid, activity } => {
            assert_eq!(pid, 42);
            activity
        }
        ActivityCommand::Clear { .. } => panic!("expected an activity"),
    }
}

#[test]
fn new_rpc_has_no_session() {
    let rpc = Rpc::new(42);
    assert_eq!(rpc.pid, 42);
    assert!(rpc.game_session.is_none());
    assert_eq!(rpc.update_activity(), ActivityCommand::Clear { pid: 42 });
}

#[test]
fn events_without_session_clear() {
    let mut rpc = Rpc::new(42);
    let command = rpc.update(Message::JournalEvent(JournalEvent::Docked { station_name: None }));
    assert_eq!(command, ActivityCommand::Clear { pid: 42 });
    assert!(rpc.game_session.is_none());
    let command = rpc.update(Message::JournalEvents(vec![JournalEvent::Touchdown]));
    assert_eq!(command, ActivityCommand::Clear { pid: 42 });
    assert!(rpc.game_session.is_none());
}

#[test]
fn session_start_shows_game() {
    let mut rpc = Rpc::new(42);
    let activity = shown(rpc.update(Message::SessionStart { timestamp: 1_700_000_000 }));
    assert_eq!(activity.name, "Elite Dangerous");
    assert_eq!(activity.activity_type, ActivityType::Playing);
    assert_eq!(activity.status_display_type, StatusDisplayType::Name);
    assert_eq!(activity.created_at, 0);
    assert_eq!(activity.state.as_deref(), Some("In game"));
    assert_eq!(activity.details, None);
    assert_eq!(
        activity.timestamps,
        Some(ActivityTimestamps { start: Some(1_700_000_000), end: None })
    );
    assert_eq!(
        activity.assets,
        Some(ActivityAssets { large_image: Some(s("elite-dangerous")), ..ActivityAssets::default() })
    );
    assert_eq!(activity.buttons, None);
}

#[test]
fn ship_loadout_shows_ship() {
    let mut rpc = Rpc::new(42);
    rpc.update(Message::SessionStart { timestamp: 10 });
    let activity = shown(rpc.update(Message::JournalEvent(JournalEvent::Loadout {
        ship: s("python"),
        ship_name: Some(s("Snake")),
    })));
    assert_eq!(
        activity.assets,
        Some(ActivityAssets {
            large_image: Some(s("ship")),
            large_text: Some(s("python")),
            small_image: Some(s("elite-dangerous-minimalistic")),
            small_text: Some(s("Elite Dangerous")),
            ..ActivityAssets::default()
        })
    );
    assert_eq!(activity.state.as_deref(), Some("In game"));
}

#[test]
fn srv_and_suit_show_srv_image() {
    let mut rpc = Rpc::new(42);
    rpc.update(Message::SessionStart { timestamp: 10 });
    let activity = shown(rpc.update(Message::JournalEvent(JournalEvent::Disembark { in_srv: true })));
    let assets = activity.assets.unwrap();
    assert_eq!(assets.large_image.as_deref(), Some("srv"));
    assert_eq!(assets.large_text, None);
    assert_eq!(assets.small_text.as_deref(), Some("Elite Dangerous"));
    let activity = shown(rpc.update(Message::JournalEvent(JournalEvent::SuitLoadout {
        suit_name: s("utilitysuit_class1"),
    })));
    let assets = activity.assets.unwrap();
    assert_eq!(assets.large_image.as_deref(), Some("srv"));
    assert_eq!(assets.large_text.as_deref(), Some("utilitysuit_class1"));
    assert_eq!(assets.small_image.as_deref(), Some("elite-dangerous-minimalistic"));
}

#[test]
fn state_other_than_in_game_shows_no_state() {
    let mut rpc = Rpc::new(42);
    rpc.update(Message::SessionStart { timestamp: 10 });
    let activity = shown(rpc.update(Message::JournalEvent(JournalEvent::Touchdown)));
    assert_eq!(activity.state, None);
    assert_eq!(rpc.game_session.as_ref().unwrap().state, GameState::Landed);
}

#[test]
fn session_end_clears() {
    let mut rpc = Rpc::new(42);
    rpc.update(Message::SessionStart { timestamp: 10 });
    assert_eq!(rpc.update(Message::SessionEnd), ActivityCommand::Clear { pid: 42 });
    assert!(rpc.game_session.is_none());
}

#[test]
fn session_start_begins_afresh() {
    let mut rpc = Rpc::new(42);
    rpc.update(Message::SessionStart { timestamp: 10 });
    rpc.update(Message::JournalEvent(JournalEvent::Disembark { in_srv: true }));
    rpc.update(Message::SessionStart { timestamp: 20 });
    assert_eq!(rpc.game_session, Some(GameSession::new(20)));
}

#[test]
fn batch_is_events_one_by_one() {
    let events = vec![
        JournalEvent::Loadout { ship: s("sidewinder"), ship_name: None },
        JournalEvent::Docked { station_name: Some(s("Daedalus")) },
        JournalEvent::Disembark { in_srv: false },
    ];
    let mut batched = Rpc::new(42);
    batched.update(Message::SessionStart { timestamp: 1 });
    let batch_command = batched.update(Message::JournalEvents(events.clone()));
    let mut single = Rpc::new(42);
    single.update(Message::SessionStart { timestamp: 1 });
    let mut last = None;
    for event in events {
        last = Some(single.update(Message::JournalEvent(event)));
    }
    assert_eq!(batched.game_session, single.game_session);
    assert_eq!(Some(batch_command), last);
    assert_eq!(batched.game_session.as_ref().unwrap().loadout, Loadout::Suit { suit_type: None });
}

#[test]
fn activity_of_session_matches_command() {
    let session = GameSession::new(77);
    let mut rpc = Rpc::new(42);
    let command = rpc.update(Message::SessionStart { timestamp: 77 });
    assert_eq!(command, ActivityCommand::Show { pid: 42, activity: activity_of(&session) });
}
