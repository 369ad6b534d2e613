use elite_presence::journal_event::JournalEvent;
use elite_presence::loadout::Loadout;
use elite_presence::location::Location;
use elite_presence::session::GameSession;
use elite_presence::state::GameState;

fn s(text: &str) -> String {
    text.to_string()
}

fn location_event(station: Option<&str>, docked: bool, on_foot: bool, in_srv: bool) -> JournalEvent {
    JournalEvent::Location {
        body: s("Earth"),
        station_name: station.map(s),
        docked,
        on_foot,
        in_srv,
    }
}

#[test]
fn state_follows_docking_and_flight() {
    let mut state = GameState::default();
    assert_eq!(state, GameState::InGame);
    state.update(&JournalEvent::Docked { station_name: Some(s("Abraham Lincoln")) });
    assert_eq!(state, GameState::Docked);
    state.update(&JournalEvent::Undocked);
    assert_eq!(state, GameState::Body);
    state.update(&JournalEvent::SupercruiseEntry { star_system: s("Sol") });
    assert_eq!(state, GameState::Supercruise);
    state.update(&JournalEvent::SupercruiseExit { body: s("Earth") });
    assert_eq!(state, GameState::DeepSpace);
    state.update(&JournalEvent::Touchdown);
    assert_eq!(state, GameState::Landed);
    state.update(&JournalEvent::Liftoff);
    assert_eq!(state, GameState::Body);
}

#[test]
fn state_on_load_game() {
    let mut state = GameState::Body;
    state.update(&JournalEvent::LoadGame { start_dead: false, start_landed: false });
    assert_eq!(state, GameState::Body);
    state.update(&JournalEvent::LoadGame { start_dead: false, start_landed: true });
    assert_eq!(state, GameState::Landed);
    state.update(&JournalEvent::LoadGame { start_dead: true, start_landed: true });
    assert_eq!(state, GameState::Dead);
}

#[test]
fn state_on_location() {
    let mut state = GameState::Supercruise;
    state.update(&location_event(None, false, false, false));
    assert_eq!(state, GameState::Supercruise);
    state.update(&location_event(Some("Jameson Memorial"), true, false, false));
    assert_eq!(state, GameState::Docked);
}

#[test]
fn state_ignores_other_events() {
    let mut state = GameState::Landed;
    state.update(&JournalEvent::Other);
    state.update(&JournalEvent::Fileheader);
    state.update(&JournalEvent::ApproachBody { body: s("Mars") });
    assert_eq!(state, GameState::Landed);
}

#[test]
fn state_update_twice_is_once() {
    for event in [
        JournalEvent::Docked { station_name: None },
        JournalEvent::LoadGame { start_dead: false, start_landed: true },
        location_event(None, true, false, false),
    ] {
        let mut once = GameState::DeepSpace;
        once.update(&event);
        let mut twice = once;
        twice.update(&event);
        assert_eq!(once, twice);
    }
}

#[test]
fn location_follows_events() {
    let mut location = Location::default();
    assert_eq!(location, Location::Unkonwn);
    location.update(&location_event(Some("Jameson Memorial"), true, false, false));
    assert_eq!(location, Location::Station { station_name: s("Jameson Memorial") });
    location.update(&location_event(None, false, false, false));
    assert_eq!(location, Location::Body { body: s("Earth") });
    location.update(&JournalEvent::ApproachSettlement { name: s("Hudson Base") });
    assert_eq!(location, Location::Settlement { name: s("Hudson Base") });
    location.update(&JournalEvent::SupercruiseEntry { star_system: s("Sol") });
    assert_eq!(location, Location::System { star_system: s("Sol") });
    location.update(&JournalEvent::ApproachBody { body: s("Mars") });
    assert_eq!(location, Location::Body { body: s("Mars") });
    location.update(&JournalEvent::Docked { station_name: None });
    assert_eq!(location, Location::Body { body: s("Mars") });
    location.update(&JournalEvent::Docked { station_name: Some(s("Daedalus")) });
    assert_eq!(location, Location::Station { station_name: s("Daedalus") });
}

#[test]
fn supercruise_exit_keeps_a_signal_source() {
    let mut location = Location::Body { body: s("Mars") };
    location.update(&JournalEvent::UssDrop { uss_threat: 3, uss_type: s("$USS_Type_Salvage;") });
    let signal = Location::UssSignal { threat: 3, uss_type: s("$USS_Type_Salvage;") };
    assert_eq!(location, signal);
    location.update(&JournalEvent::SupercruiseExit { body: s("Mars") });
    assert_eq!(location, signal);
    let mut other = Location::System { star_system: s("Sol") };
    other.update(&JournalEvent::SupercruiseExit { body: s("Mars") });
    assert_eq!(other, Location::Body { body: s("Mars") });
}

#[test]
fn location_update_twice_is_once() {
    let event = JournalEvent::SupercruiseExit { body: s("Moon") };
    let mut once = Location::System { star_system: s("Sol") };
    once.update(&event);
    let mut twice = once.clone();
    twice.update(&event);
    assert_eq!(once, twice);
}

#[test]
fn loadout_follows_events() {
    let mut loadout = Loadout::default();
    assert_eq!(loadout, Loadout::Unknown);
    loadout.update(&JournalEvent::Loadout { ship: s("krait_mkii"), ship_name: Some(s("Roadrunner")) });
    assert_eq!(
        loadout,
        Loadout::Ship { ship_type: s("krait_mkii"), ship_name: Some(s("Roadrunner")) }
    );
    loadout.update(&JournalEvent::Disembark { in_srv: true });
    assert_eq!(loadout, Loadout::Srv);
    loadout.update(&JournalEvent::Disembark { in_srv: false });
    assert_eq!(loadout, Loadout::Suit { suit_type: None });
    loadout.update(&JournalEvent::SuitLoadout { suit_name: s("explorationsuit_class1") });
    assert_eq!(loadout, Loadout::Suit { suit_type: Some(s("explorationsuit_class1")) });
}

#[test]
fn loadout_on_location() {
    let mut loadout = Loadout::Unknown;
    loadout.update(&location_event(None, false, false, false));
    assert_eq!(loadout, Loadout::Unknown);
    loadout.update(&location_event(None, false, true, false));
    assert_eq!(loadout, Loadout::Suit { suit_type: None });
    loadout.update(&location_event(None, false, true, true));
    assert_eq!(loadout, Loadout::Srv);
}

#[test]
fn new_session_knows_only_its_start() {
    let session = GameSession::new(1_700_000_000);
    assert_eq!(session.state, GameState::InGame);
    assert_eq!(session.location, Location::Unkonwn);
    assert_eq!(session.loadout, Loadout::Unknown);
    assert_eq!(session.timestamp, 1_700_000_000);
}

#[test]
fn session_update_moves_all_three() {
    let mut session = GameSession::new(5);
    session.update(location_event(Some("Jameson Memorial"), true, true, false));
    assert_eq!(session.state, GameState::Docked);
    assert_eq!(session.location, Location::Station { station_name: s("Jameson Memorial") });
    assert_eq!(session.loadout, Loadout::Suit { suit_type: None });
    assert_eq!(session.timestamp, 5);
    let before = session.clone();
    session.update(location_event(Some("Jameson Memorial"), true, true, false));
    assert_eq!(session, before);
}
