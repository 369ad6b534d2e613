//! From journal events to the updates that the presence shows.

use vstd::prelude::*;

use crate::elite::events::{Event, JumpType};
use crate::elite::status::{GameState, GameStateModel, Loadout, LoadoutModel, Message, MessageModel};

verus! {

/// The text of `preferred` where there is one, else that of `fallback`.
pub open spec fn chars_or(preferred: Option<String>, fallback: String) -> Seq<char> {
    match preferred {
        Some(s) => s@,
        None => fallback@,
    }
}

/// An update of the state alone.
pub open spec fn state_update(state: GameStateModel) -> Option<MessageModel> {
    Some(MessageModel::Update { state: Some(state), loadout: None })
}

/// The landing place that a touchdown names: the localised nearest destination,
/// else the nearest destination, else the body, else the star system.
pub open spec fn touchdown_place(
    body: Option<String>,
    nearest_destination: Option<String>,
    nearest_localised: Option<String>,
    star_system: Option<String>,
) -> Option<Seq<char>> {
    match nearest_localised {
        Some(s) => Some(s@),
        None => match nearest_destination {
            Some(s) => Some(s@),
            None => match body {
                Some(s) => Some(s@),
                None => star_system.deep_view(),
            },
        },
    }
}

/// The update that the presence takes from one journal event, if any.
pub open spec fn event_message(event: Event) -> Option<MessageModel> {
    match event {
        Event::ApproachBody { body, .. } => state_update(GameStateModel::Approaching(body@)),
        Event::ApproachSettlement { name, name_localised, .. } => state_update(
            GameStateModel::Approaching(chars_or(name_localised, name)),
        ),
        Event::CarrierJump { on_foot, .. } => Some(
            MessageModel::Update {
                state: Some(GameStateModel::OnCarrier),
                loadout: if on_foot {
                    Some(LoadoutModel::OnFoot)
                } else {
                    None
                },
            },
        ),
        Event::Disembark { body, on_srv, station_name, .. } => Some(
            MessageModel::Update {
                state: Some(GameStateModel::Location(chars_or(station_name, body))),
                loadout: Some(
                    if on_srv {
                        LoadoutModel::Srv
                    } else {
                        LoadoutModel::OnFoot
                    },
                ),
            },
        ),
        Event::LeaveBody { star_system, .. } => state_update(
            GameStateModel::Supercruise(Some(star_system@)),
        ),
        Event::Liftoff { body: Some(body), .. } => state_update(GameStateModel::Location(body@)),
        Event::LoadGame {
            ship: Some(ship),
            ship_ident: Some(ship_id),
            ship_name: Some(ship_name),
            start_dead,
            start_landed,
        } => Some(
            MessageModel::Update {
                state: Some(
                    if start_dead == Some(true) {
                        GameStateModel::Dead
                    } else if start_landed == Some(true) {
                        GameStateModel::Landed(None)
                    } else {
                        GameStateModel::Idle
                    },
                ),
                loadout: Some(
                    LoadoutModel::Ship {
                        ship_type: ship@,
                        ship_name: ship_name@,
                        ship_id: ship_id@,
                    },
                ),
            },
        ),
        Event::Location { body, docked, on_foot, station_name, .. } => Some(
            if docked && station_name is Some {
                MessageModel::Update {
                    state: Some(GameStateModel::Docked(station_name->0@)),
                    loadout: None,
                }
            } else if on_foot {
                MessageModel::Update {
                    state: Some(GameStateModel::Location(chars_or(station_name, body))),
                    loadout: Some(LoadoutModel::OnFoot),
                }
            } else {
                MessageModel::Update {
                    state: Some(GameStateModel::Location(body@)),
                    loadout: None,
                }
            },
        ),
        Event::Loadout { ship, ship_ident, ship_name } => Some(
            MessageModel::Update {
                state: None,
                loadout: Some(
                    LoadoutModel::Ship {
                        ship_type: ship@,
                        ship_name: ship_name@,
                        ship_id: ship_ident@,
                    },
                ),
            },
        ),
        Event::SupercruiseEntry { star_system } => state_update(
            GameStateModel::Supercruise(Some(star_system@)),
        ),
        Event::SupercruiseDestinationDrop { destination, destination_localized } => state_update(
            GameStateModel::Location(chars_or(destination_localized, destination)),
        ),
        Event::Touchdown { body, nearest_destination, nearest_localised, star_system } =>
            state_update(
            GameStateModel::Landed(
                touchdown_place(body, nearest_destination, nearest_localised, star_system),
            ),
        ),
        Event::USSDrop { name } => state_update(GameStateModel::Location(name@)),
        Event::Undocked { station_name } => state_update(GameStateModel::Location(station_name@)),
        Event::Died => state_update(GameStateModel::Dead),
        Event::StartJump { jump_type: JumpType::Supercruise, star_system: Some(star_system) } =>
            state_update(GameStateModel::Supercruise(Some(star_system@))),
        Event::StartJump { jump_type: JumpType::Hyperspace, star_system: Some(star_system) } =>
            state_update(GameStateModel::JumpingTo(star_system@)),
        _ => None,
    }
}

/// Every message taken from an event is an update that carries a state or a
/// loadout; a shutdown and an event of an unknown kind give none.
pub proof fn lemma_messages_carry_updates(event: Event)
    ensures
        event_message(event) matches Some(m) ==> (m matches MessageModel::Update { state, loadout }
            && (state is Some || loadout is Some)),
        event is Shutdown ==> event_message(event) is None,
        event is Unknown ==> event_message(event) is None,
{
}

/// Entering supercruise, leaving a body's orbit and starting a supercruise
/// jump towards a system all tell that the player is in supercruise in that
/// system, and carry no loadout.
pub proof fn lemma_supercruise_messages(star_system: String, body: String)
    ensures
        event_message(Event::SupercruiseEntry { star_system }) == Some(
            MessageModel::Update {
                state: Some(GameStateModel::Supercruise(Some(star_system@))),
                loadout: None,
            },
        ),
        event_message(Event::LeaveBody { body, star_system }) == Some(
            MessageModel::Update {
                state: Some(GameStateModel::Supercruise(Some(star_system@))),
                loadout: None,
            },
        ),
        event_message(
            Event::StartJump { jump_type: JumpType::Supercruise, star_system: Some(star_system) },
        ) == Some(
            MessageModel::Update {
                state: Some(GameStateModel::Supercruise(Some(star_system@))),
                loadout: None,
            },
        ),
{
}

/// The events that give no message are exactly a shutdown, an event of an
/// unknown kind, and the events that change nothing the presence shows: a
/// codex entry, docking, an FSD jump, the two FSS scans, leaving supercruise,
/// a liftoff with no body, a load of the game that does not name the whole
/// ship, and a jump to no named system.
pub proof fn lemma_events_without_message(event: Event)
    ensures
        event_message(event) is None <==> (match event {
            Event::Shutdown | Event::Unknown | Event::CodexEntry { .. } | Event::Docked { .. }
            | Event::FSDJump { .. } | Event::FSSAllBodiesFound { .. }
            | Event::FSSDiscoveryScan { .. } | Event::SupercruiseExit { .. } => true,
            Event::Liftoff { body, .. } => body is None,
            Event::LoadGame { ship, ship_ident, ship_name, .. } => ship is None || ship_ident is None
                || ship_name is None,
            Event::StartJump { star_system, .. } => star_system is None,
            _ => false,
        }),
{
}

/// Dying, or loading the game dead, tells that the player is dead.
pub proof fn lemma_death_messages(
    ship: String,
    ship_ident: String,
    ship_name: String,
    start_landed: Option<bool>,
)
    ensures
        event_message(Event::Died) == Some(
            MessageModel::Update { state: Some(GameStateModel::Dead), loadout: None },
        ),
        event_message(
            Event::LoadGame {
                ship: Some(ship),
                ship_ident: Some(ship_ident),
                ship_name: Some(ship_name),
                start_dead: Some(true),
                start_landed,
            },
        ) matches Some(MessageModel::Update { state: Some(GameStateModel::Dead), loadout: Some(_) }),
{
}

/// Leaving a vehicle tells the location (the station where there is one, else
/// the body) and the loadout (the SRV or on foot); a location docked at a
/// station tells the player docked there; a ship loadout tells the ship and
/// no state.
pub proof fn lemma_location_messages(
    body: String,
    on_srv: bool,
    star_system: String,
    station_name: Option<String>,
    ship: String,
    ship_ident: String,
    ship_name: String,
    body_type: crate::elite::events::BodyType,
    on_foot: bool,
)
    ensures
        event_message(Event::Disembark { body, on_srv, star_system, station_name }) == Some(
            MessageModel::Update {
                state: Some(
                    GameStateModel::Location(
                        match station_name {
                            Some(s) => s@,
                            None => body@,
                        },
                    ),
                ),
                loadout: Some(
                    if on_srv {
                        LoadoutModel::Srv
                    } else {
                        LoadoutModel::OnFoot
                    },
                ),
            },
        ),
        station_name matches Some(s) ==> event_message(
            Event::Location { body, body_type, docked: true, on_foot, star_system, station_name },
        ) == Some(MessageModel::Update { state: Some(GameStateModel::Docked(s@)), loadout: None }),
        event_message(Event::Loadout { ship, ship_ident, ship_name }) == Some(
            MessageModel::Update {
                state: None,
                loadout: Some(
                    LoadoutModel::Ship {
                        ship_type: ship@,
                        ship_name: ship_name@,
                        ship_id: ship_ident@,
                    },
                ),
            },
        ),
{
}

fn state_message(state: GameState) -> (m: Message)
    ensures
        Some(m@) == state_update(state@),
{
    Message::Update { state: Some(state), loadout: None }
}

fn string_or(preferred: Option<String>, fallback: String) -> (s: String)
    ensures
        s@ == chars_or(preferred, fallback),
{
    match preferred {
        Some(s) => s,
        None => fallback,
    }
}

/// The update that the presence takes from one journal event: `None` for a
/// shutdown, for an event of an unknown kind, and for the events that change
/// nothing that the presence shows.
pub fn event_to_message(event: Event) -> (message: Option<Message>)
    ensures
        message.deep_view() == event_message(event),
{
    match event {
        Event::ApproachBody { body, .. } => Some(state_message(GameState::Approaching(body))),
        Event::ApproachSettlement { name, name_localised, .. } => Some(
            state_message(GameState::Approaching(string_or(name_localised, name))),
        ),
        Event::CarrierJump { on_foot, .. } => Some(
            Message::Update {
                state: Some(GameState::OnCarrier),
                loadout: if on_foot {
                    Some(Loadout::OnFoot)
                } else {
                    None
                },
            },
        ),
        Event::Disembark { body, on_srv, station_name, .. } => {
            let loadout = if on_srv {
                Loadout::Srv
            } else {
                Loadout::OnFoot
            };
            Some(
                Message::Update {
                    state: Some(GameState::Location(string_or(station_name, body))),
                    loadout: Some(loadout),
                },
            )
        },
        Event::LeaveBody { star_system, .. } => Some(
            state_message(GameState::Supercruise(Some(star_system))),
        ),
        Event::Liftoff { body: Some(body), .. } => Some(state_message(GameState::Location(body))),
        Event::LoadGame {
            ship: Some(ship),
            ship_ident: Some(ship_id),
            ship_name: Some(ship_name),
            start_dead,
            start_landed,
        } => {
            let state = if start_dead.unwrap_or(false) {
                GameState::Dead
            } else if start_landed.unwrap_or(false) {
                GameState::Landed(None)
            } else {
                GameState::Idle
            };
            Some(
                Message::Update {
                    state: Some(state),
                    loadout: Some(Loadout::Ship { ship_type: ship, ship_id, ship_name }),
                },
            )
        },
        Event::Location { body, docked, on_foot, station_name, .. } => {
            if docked && station_name.is_some() {
                Some(state_message(GameState::Docked(station_name.unwrap())))
            } else if on_foot {
                Some(
                    Message::Update {
                        state: Some(GameState::Location(string_or(station_name, body))),
                        loadout: Some(Loadout::OnFoot),
                    },
                )
            } else {
                Some(state_message(GameState::Location(body)))
            }
        },
        Event::Loadout { ship, ship_ident, ship_name } => Some(
            Message::Update {
                state: None,
                loadout: Some(Loadout::Ship { ship_type: ship, ship_name, ship_id: ship_ident }),
            },
        ),
        Event::Shutdown => None,
        Event::SupercruiseEntry { star_system } => Some(
            state_message(GameState::Supercruise(Some(star_system))),
        ),
        Event::SupercruiseDestinationDrop { destination, destination_localized } => Some(
            state_message(GameState::Location(string_or(destination_localized, destination))),
        ),
        Event::Touchdown { body, nearest_destination, nearest_localised, star_system } => {
            let location: Option<String> = match nearest_localised {
                Some(s) => Some(s),
                None => match nearest_destination {
                    Some(s) => Some(s),
                    None => match body {
                        Some(s) => Some(s),
                        None => star_system,
                    },
                },
            };
            Some(state_message(GameState::Landed(location)))
        },
        Event::USSDrop { name } => Some(state_message(GameState::Location(name))),
        Event::Undocked { station_name } => Some(state_message(GameState::Location(station_name))),
        Event::Died => Some(state_message(GameState::Dead)),
        Event::StartJump { jump_type: JumpType::Supercruise, star_system: Some(star_system) } =>
            Some(state_message(GameState::Supercruise(Some(star_system)))),
        Event::StartJump { jump_type: JumpType::Hyperspace, star_system: Some(star_system) } =>
            Some(state_message(GameState::JumpingTo(star_system))),
        Event::Unknown => None,
        _ => None,
    }
}

} // verus!
