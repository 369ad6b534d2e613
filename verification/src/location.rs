//! Where the player is.

use vstd::prelude::*;

use crate::journal_event::JournalEvent;

verus! {

/// Where the player is.
#[derive(Debug, Clone, PartialEq, Eq)]
pub enum Location {
    Station { station_name: String },
    Body { body: String },
    System { star_system: String },
    Settlement { name: String },
    UssSignal { threat: u8, uss_type: String },
    Unkonwn,
}

impl Default for Location {
    fn default() -> (location: Location)
        ensures
            location == Location::Unkonwn,
    {
        Location::Unkonwn
    }
}

/// The location after `event`, from `location`.
pub open spec fn next_location(location: Location, event: JournalEvent) -> Location {
    match event {
        JournalEvent::Location { body, station_name, .. } => match station_name {
            Some(name) => Location::Station { station_name: name },
            None => Location::Body { body },
        },
        JournalEvent::ApproachBody { body } => Location::Body { body },
        JournalEvent::ApproachSettlement { name } => Location::Settlement { name },
        JournalEvent::SupercruiseEntry { star_system } => Location::System { star_system },
        JournalEvent::SupercruiseExit { body } => if location is UssSignal {
            location
        } else {
            Location::Body { body }
        },
        JournalEvent::Docked { station_name } => match station_name {
            Some(name) => Location::Station { station_name: name },
            None => location,
        },
        JournalEvent::UssDrop { uss_threat, uss_type } => Location::UssSignal {
            threat: uss_threat,
            uss_type,
        },
        _ => location,
    }
}

/// A location names the station where there is one, else the body;
/// approaching names the body or the settlement; entering supercruise names
/// the system; dropping at a signal source names the signal; docking at a
/// named station names it. Leaving supercruise names the body, except at a
/// signal source, which is kept.
pub proof fn lemma_location_events(location: Location, body: String, name: String, star_system: String, uss_threat: u8, uss_type: String)
    ensures
        next_location(location, JournalEvent::ApproachBody { body }) == (Location::Body { body }),
        next_location(location, JournalEvent::ApproachSettlement { name }) == (Location::Settlement {
            name,
        }),
        next_location(location, JournalEvent::SupercruiseEntry { star_system }) == (Location::System {
            star_system,
        }),
        next_location(location, JournalEvent::UssDrop { uss_threat, uss_type }) == (
        Location::UssSignal { threat: uss_threat, uss_type }),
        next_location(location, JournalEvent::Docked { station_name: Some(name) }) == (
        Location::Station { station_name: name }),
        next_location(location, JournalEvent::Docked { station_name: None }) == location,
        location is UssSignal ==> next_location(location, JournalEvent::SupercruiseExit { body })
            == location,
        !(location is UssSignal) ==> next_location(location, JournalEvent::SupercruiseExit { body })
            == (Location::Body { body }),
        next_location(location, JournalEvent::Other) == location,
{
}

impl Location {
    /// Follows one journal event.
    pub fn update(&mut self, event: &JournalEvent)
        ensures
            *final(self) == next_location(*old(self), *event),
    {
        match event {
            JournalEvent::Location { body, station_name, .. } => {
                if let Some(station) = station_name {
                    *self = Location::Station { station_name: station.clone() }
                } else {
                    *self = Location::Body { body: body.clone() }
                }
            },
            JournalEvent::ApproachBody { body } => {
                *self = Location::Body { body: body.clone() }
            },
            JournalEvent::ApproachSettlement { name } => {
                *self = Location::Settlement { name: name.clone() }
            },
            JournalEvent::SupercruiseEntry { star_system } => {
                *self = Location::System { star_system: star_system.clone() }
            },
            JournalEvent::SupercruiseExit { body } => {
                if !matches!(self, Location::UssSignal { .. }) {
                    *self = Location::Body { body: body.clone() }
                }
            },
            JournalEvent::Docked { station_name } => {
                if let Some(station) = station_name {
                    *self = Location::Station { station_name: station.clone() }
                }
            },
            JournalEvent::UssDrop { uss_threat, uss_type } => {
                *self = Location::UssSignal { threat: *uss_threat, uss_type: uss_type.clone() }
            },
            _ => (),
        }
    }
}

/// Following the same event twice leaves the location where following it once did.
pub proof fn lemma_location_update_idempotent(location: Location, event: JournalEvent)
    ensures
        next_location(next_location(location, event), event) == next_location(location, event),
{
}

} // verus!
