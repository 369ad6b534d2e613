//! The journal events that the presence reads, with the fields that it reads.

use vstd::prelude::*;

verus! {

/// One event of the game's journal. Events of any other kind are `Unknown`.
#[allow(inconsistent_fields)]
#[derive(Debug, Clone, PartialEq, Eq)]
pub enum Event {
    ApproachBody { body: String, star_system: String },
    ApproachSettlement { body: String, name: String, name_localised: Option<String> },
    CarrierJump { body: String, on_foot: bool },
    CodexEntry { system: String },
    Died,
    Disembark { body: String, on_srv: bool, star_system: String, station_name: Option<String> },
    Docked { star_system: String, station_name: String },
    FSDJump { body: String, star_system: String },
    FSSAllBodiesFound { star_system: String },
    FSSDiscoveryScan { star_system: String },
    LeaveBody { body: String, star_system: String },
    Liftoff { body: Option<String>, star_system: Option<String> },
    LoadGame {
        ship: Option<String>,
        ship_ident: Option<String>,
        ship_name: Option<String>,
        start_dead: Option<bool>,
        start_landed: Option<bool>,
    },
    Loadout { ship: String, ship_ident: String, ship_name: String },
    Location {
        body: String,
        body_type: BodyType,
        docked: bool,
        on_foot: bool,
        star_system: String,
        station_name: Option<String>,
    },
    Shutdown,
    StartJump { jump_type: JumpType, star_system: Option<String> },
    SupercruiseDestinationDrop { destination: String, destination_localized: Option<String> },
    SupercruiseEntry { star_system: String },
    SupercruiseExit { body: String, star_system: String },
    Touchdown {
        body: Option<String>,
        nearest_destination: Option<String>,
        nearest_localised: Option<String>,
        star_system: Option<String>,
    },
    USSDrop { name: String },
    Undocked { station_name: String },
    Unknown,
}

/// The kind of body that a location is on or near.
#[derive(Debug, Clone, Copy, PartialEq, Eq)]
pub enum BodyType {
    Null,
    Planet,
    PlanetaryRing,
    Star,
    Station,
    StellarRing,
}

/// The kind of a jump that starts.
#[derive(Debug, Clone, Copy, PartialEq, Eq)]
pub enum JumpType {
    Hyperspace,
    Supercruise,
}

} // verus!
