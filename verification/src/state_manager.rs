//! From a batch of journal events to the state and loadout updates they carry.

use vstd::prelude::*;

use crate::elite::events::Event;
use crate::elite::status::{GameState, GameStateModel, Loadout, LoadoutModel};
use crate::watchdog::chars_or;

verus! {

/// One update that a journal event carries.
#[derive(Debug, Clone, PartialEq, Eq)]
pub enum StateEvent {
    GameStateUpdate(GameState),
    LoadoutUpdate(Loadout),
}

/// A [`StateEvent`] with its texts as character sequences.
pub enum StateEventModel {
    GameStateUpdate(GameStateModel),
    LoadoutUpdate(LoadoutModel),
}

impl View for StateEvent {
    type V = StateEventModel;

    open spec fn view(&self) -> StateEventModel {
        match self {
            StateEvent::GameStateUpdate(s) => StateEventModel::GameStateUpdate(s@),
            StateEvent::LoadoutUpdate(l) => StateEventModel::LoadoutUpdate(l@),
        }
    }
}

impl DeepView for StateEvent {
    type V = StateEventModel;

    open spec fn deep_view(&self) -> StateEventModel {
        self@
    }
}

/// A single state update.
pub open spec fn state(s: GameStateModel) -> Seq<StateEventModel> {
    seq![StateEventModel::GameStateUpdate(s)]
}

/// A single loadout update.
pub open spec fn loadout(l: LoadoutModel) -> Seq<StateEventModel> {
    seq![StateEventModel::LoadoutUpdate(l)]
}

/// The updates that one journal event carries, in order.
pub open spec fn event_updates(event: Event) -> Seq<StateEventModel> {
    match event {
        Event::ApproachBody { body, .. } => state(GameStateModel::Approaching(body@)),
        Event::ApproachSettlement { name, name_localised, .. } => state(
            GameStateModel::Approaching(chars_or(name_localised, name)),
        ),
        Event::CarrierJump { on_foot, .. } => if on_foot {
            loadout(LoadoutModel::OnFoot)
        } else {
            state(GameStateModel::OnCarrier)
        },
        Event::Disembark { body, on_srv, station_name, .. } => loadout(
            if on_srv {
                LoadoutModel::Srv
            } else {
                LoadoutModel::OnFoot
            },
        ) + state(GameStateModel::Location(chars_or(station_name, body))),
        Event::Docked { station_name, .. } => state(GameStateModel::Docked(station_name@)),
        Event::FSDJump { star_system, .. } => state(
            GameStateModel::Supercruise(Some(star_system@)),
        ),
        Event::LeaveBody { body, .. } => state(GameStateModel::Location(body@)),
        Event::Liftoff { body, star_system } => state(
            GameStateModel::Location(
                match body {
                    Some(b) => b@,
                    None => match star_system {
                        Some(s) => s@,
                        None => "Unknown"@,
                    },
                },
            ),
        ),
        Event::LoadGame { ship, ship_ident, ship_name, start_dead, start_landed } => {
            if ship is Some && ship_ident is Some && ship_name is Some {
                loadout(
                    LoadoutModel::Ship {
                        ship_type: ship->0@,
                        ship_name: ship_name->0@,
                        ship_id: ship_ident->0@,
                    },
                )
            } else if start_dead == Some(true) {
                state(GameStateModel::Dead)
            } else if start_landed == Some(true) {
                state(GameStateModel::Landed(None))
            } else {
                state(GameStateModel::Idle)
            }
        },
        Event::Loadout { ship, ship_ident, ship_name } => loadout(
            LoadoutModel::Ship { ship_type: ship@, ship_name: ship_name@, ship_id: ship_ident@ },
        ),
        Event::Location { body, docked, on_foot, station_name, .. } => match station_name {
            Some(s) => state(GameStateModel::Docked(s@)),
            None => if docked {
                state(GameStateModel::Landed(Some(body@)))
            } else if on_foot {
                loadout(LoadoutModel::OnFoot)
            } else {
                Seq::empty()
            },
        },
        Event::SupercruiseEntry { star_system } => state(
            GameStateModel::Supercruise(Some(star_system@)),
        ),
        Event::SupercruiseDestinationDrop { destination, destination_localized } => state(
            GameStateModel::Location(chars_or(destination_localized, destination)),
        ),
        Event::Touchdown { body, nearest_destination, nearest_localised, .. } =>
            match nearest_destination {
            Some(nd) => state(
                GameStateModel::Landed(Some(chars_or(nearest_localised, nd))),
            ),
            None => match body {
                Some(b) => state(GameStateModel::Landed(Some(b@))),
                None => Seq::empty(),
            },
        },
        Event::USSDrop { name } => state(GameStateModel::Location(name@)),
        Event::Undocked { station_name } => state(GameStateModel::Location(station_name@)),
        Event::Died => state(GameStateModel::Dead),
        Event::StartJump { star_system: Some(s), .. } => state(GameStateModel::JumpingTo(s@)),
        _ => Seq::empty(),
    }
}

/// The updates that a batch of journal events carries: those of each event,
/// in the order of the events.
pub open spec fn batch_updates(events: Seq<Event>) -> Seq<StateEventModel>
    decreases events.len(),
{
    if events.len() == 0 {
        Seq::empty()
    } else {
        batch_updates(events.drop_last()) + event_updates(events.last())
    }
}

/// The updates of two batches read one after the other are those of the two
/// batches read as one: how the journal is split into polls does not matter.
pub proof fn lemma_batch_updates_split(first: Seq<Event>, second: Seq<Event>)
    ensures
        batch_updates(first + second) == batch_updates(first) + batch_updates(second),
    decreases second.len(),
{
    if second.len() == 0 {
        assert(first + second =~= first);
        assert(batch_updates(first) + batch_updates(second) =~= batch_updates(first));
    } else {
        lemma_batch_updates_split(first, second.drop_last());
        assert((first + second).drop_last() =~= first + second.drop_last());
        assert((first + second).last() == second.last());
        assert(batch_updates(first) + batch_updates(second.drop_last()) + event_updates(
            second.last(),
        ) =~= batch_updates(first) + (batch_updates(second.drop_last()) + event_updates(
            second.last(),
        )));
    }
}

/// A batch of one event carries that event's updates.
pub proof fn lemma_single_event_batch(event: Event)
    ensures
        batch_updates(seq![event]) == event_updates(event),
{
    let single = seq![event];
    assert(single.drop_last() =~= Seq::<Event>::empty());
    assert(single.last() == event);
    assert(batch_updates(single.drop_last()) == Seq::<StateEventModel>::empty());
    assert(batch_updates(single) == batch_updates(single.drop_last()) + event_updates(single.last()));
    assert(Seq::<StateEventModel>::empty() + event_updates(event) =~= event_updates(event));
}

/// A liftoff carries exactly one update, a location: the body lifted off
/// from where the journal names one, else the star system, else "Unknown".
/// A liftoff never tells that the player is landed, docked, or in another
/// loadout.
pub proof fn lemma_liftoff_updates(body: Option<String>, star_system: Option<String>)
    ensures
        ({
            let updates = event_updates(Event::Liftoff { body, star_system });
            &&& updates.len() == 1
            &&& updates[0] matches StateEventModel::GameStateUpdate(GameStateModel::Location(place))
            &&& body matches Some(b) ==> place == b@
            &&& body is None ==> (star_system matches Some(s) ==> place == s@)
            &&& body is None && star_system is None ==> place == "Unknown"@
            &&& !(updates[0] matches StateEventModel::GameStateUpdate(GameStateModel::Landed(_)))
        }),
{
}

/// A touchdown tells only that the player is landed: at the localised nearest
/// destination, else the nearest destination, else the body; where the
/// journal names none of them it carries nothing.
pub proof fn lemma_touchdown_updates(
    body: Option<String>,
    nearest_destination: Option<String>,
    nearest_localised: Option<String>,
    star_system: Option<String>,
)
    ensures
        ({
            let updates = event_updates(
                Event::Touchdown { body, nearest_destination, nearest_localised, star_system },
            );
            &&& (nearest_destination is None && body is None) <==> updates.len() == 0
            &&& updates.len() <= 1
            &&& updates.len() == 1 ==> (updates[0] matches StateEventModel::GameStateUpdate(
                GameStateModel::Landed(Some(place)),
            ) && (match nearest_destination {
                Some(nd) => place == (match nearest_localised {
                    Some(nl) => nl@,
                    None => nd@,
                }),
                None => place == body->0@,
            }))
        }),
{
}

/// Leaving a vehicle carries two updates, in this order: the loadout (the
/// SRV where the player is in it, else on foot), then the location (the
/// station where there is one, else the body).
pub proof fn lemma_disembark_updates(
    body: String,
    on_srv: bool,
    star_system: String,
    station_name: Option<String>,
)
    ensures
        ({
            let updates = event_updates(Event::Disembark { body, on_srv, star_system, station_name });
            &&& updates.len() == 2
            &&& updates[0] matches StateEventModel::LoadoutUpdate(l) && (if on_srv {
                l is Srv
            } else {
                l is OnFoot
            })
            &&& updates[1] matches StateEventModel::GameStateUpdate(GameStateModel::Location(place))
                && place == (match station_name {
                Some(s) => s@,
                None => body@,
            })
        }),
{
}

/// Shutdowns and events of unknown kinds carry nothing; no event carries
/// more than two updates, and only leaving a vehicle carries two.
pub proof fn lemma_update_counts(event: Event)
    ensures
        event is Shutdown ==> event_updates(event).len() == 0,
        event is Unknown ==> event_updates(event).len() == 0,
        event_updates(event).len() <= 2,
        event_updates(event).len() == 2 <==> event is Disembark,
{
}

fn push_state(out: &mut Vec<StateEvent>, s: GameState)
    ensures
        final(out).deep_view() == old(out).deep_view() + state(s@),
{
    let ghost before = out.deep_view();
    out.push(StateEvent::GameStateUpdate(s));
    assert(out.deep_view() =~= before + state(s@));
}

fn push_loadout(out: &mut Vec<StateEvent>, l: Loadout)
    ensures
        final(out).deep_view() == old(out).deep_view() + loadout(l@),
{
    let ghost before = out.deep_view();
    out.push(StateEvent::LoadoutUpdate(l));
    assert(out.deep_view() =~= before + loadout(l@));
}

fn string_or(preferred: Option<String>, fallback: String) -> (s: String)
    ensures
        s@ == chars_or(preferred, fallback),
{
    match preferred {
        Some(s) => s,
        None => fallback,
    }
}

/// Appends to `out` the updates that `event` carries.
pub fn push_event_updates(out: &mut Vec<StateEvent>, event: Event)
    ensures
        final(out).deep_view() == old(out).deep_view() + event_updates(event),
{
    match event {
        Event::ApproachBody { body, .. } => push_state(out, GameState::Approaching(body)),
        Event::ApproachSettlement { name, name_localised, .. } => push_state(
            out,
            GameState::Approaching(string_or(name_localised, name)),
        ),
        Event::CarrierJump { on_foot: true, .. } => push_loadout(out, Loadout::OnFoot),
        Event::CarrierJump { .. } => push_state(out, GameState::OnCarrier),
        Event::Disembark { body, on_srv, station_name, .. } => {
            if on_srv {
                push_loadout(out, Loadout::Srv);
            } else {
                push_loadout(out, Loadout::OnFoot);
            }
            push_state(out, GameState::Location(string_or(station_name, body)));
        },
        Event::Docked { station_name, .. } => push_state(out, GameState::Docked(station_name)),
        Event::FSDJump { star_system, .. } => push_state(
            out,
            GameState::Supercruise(Some(star_system)),
        ),
        Event::LeaveBody { body, .. } => push_state(out, GameState::Location(body)),
        Event::Liftoff { body: Some(body), .. } => push_state(out, GameState::Location(body)),
        Event::Liftoff { star_system: Some(star_system), .. } => push_state(
            out,
            GameState::Location(star_system),
        ),
        Event::Liftoff { .. } => push_state(out, GameState::Location(String::from_str("Unknown"))),
        Event::LoadGame {
            ship: Some(ship),
            ship_ident: Some(ship_ident),
            ship_name: Some(ship_name),
            ..
        } => push_loadout(out, Loadout::Ship { ship_type: ship, ship_name, ship_id: ship_ident }),
        Event::LoadGame { start_dead: Some(true), .. } => push_state(out, GameState::Dead),
        Event::LoadGame { start_landed: Some(true), .. } => push_state(
            out,
            GameState::Landed(None),
        ),
        Event::LoadGame { .. } => push_state(out, GameState::Idle),
        Event::Loadout { ship, ship_ident, ship_name } => push_loadout(
            out,
            Loadout::Ship { ship_type: ship, ship_name, ship_id: ship_ident },
        ),
        Event::Location { docked: true, station_name: Some(station_name), .. } => push_state(
            out,
            GameState::Docked(station_name),
        ),
        Event::Location { station_name: Some(station_name), .. } => push_state(
            out,
            GameState::Docked(station_name),
        ),
        Event::Location { body, docked: true, .. } => push_state(
            out,
            GameState::Landed(Some(body)),
        ),
        Event::Location { on_foot: true, .. } => push_loadout(out, Loadout::OnFoot),
        Event::Shutdown => {},
        Event::SupercruiseEntry { star_system } => push_state(
            out,
            GameState::Supercruise(Some(star_system)),
        ),
        Event::SupercruiseDestinationDrop { destination, destination_localized } => push_state(
            out,
            GameState::Location(string_or(destination_localized, destination)),
        ),
        Event::Touchdown {
            nearest_destination: Some(nearest_destination),
            nearest_localised,
            ..
        } => push_state(
            out,
            GameState::Landed(Some(string_or(nearest_localised, nearest_destination))),
        ),
        Event::Touchdown { body: Some(body), .. } => push_state(
            out,
            GameState::Landed(Some(body)),
        ),
        Event::USSDrop { name } => push_state(out, GameState::Location(name)),
        Event::Undocked { station_name } => push_state(out, GameState::Location(station_name)),
        Event::Died => push_state(out, GameState::Dead),
        Event::StartJump { star_system: Some(star_system), .. } => push_state(
            out,
            GameState::JumpingTo(star_system),
        ),
        Event::Unknown => {},
        _ => {},
    }
    proof {
        assert(old(out).deep_view() + Seq::<StateEventModel>::empty() =~= old(out).deep_view());
    }
}

/// The updates that a batch of journal entries carries: for each entry in
/// turn, the updates of its event.
pub fn listen_journal(entries: Vec<Event>) -> (events: Vec<StateEvent>)
    ensures
        events.deep_view() == batch_updates(entries@),
{
    let mut events: Vec<StateEvent> = Vec::new();
    let ghost all = entries@;
    let total = entries.len();
    let mut rest = entries;
    let mut i: usize = 0;
    while rest.len() > 0
        invariant
            i + rest@.len() == all.len(),
            all.len() == total,
            rest@ == all.skip(i as int),
            events.deep_view() == batch_updates(all.take(i as int)),
        decreases rest@.len(),
    {
        let entry = rest.remove(0);
        proof {
            assert(all.take(i + 1).drop_last() =~= all.take(i as int));
            assert(all.take(i + 1).last() == entry);
            assert(all.skip(i + 1) =~= all.skip(i as int).drop_first());
        }
        push_event_updates(&mut events, entry);
        i = i + 1;
    }
    proof {
        assert(all.take(i as int) =~= all);
    }
    events
}

} // verus!
