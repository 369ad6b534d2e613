//! The journal events that the game session follows, with the fields that it
//! reads. Events of any other kind are `Other`.

use vstd::prelude::*;

verus! {

/// One event of the game's journal.
#[derive(Debug, Clone, PartialEq, Eq)]
pub enum JournalEvent {
    ApproachBody { body: String },
    ApproachSettlement { name: String },
    Disembark { in_srv: bool },
    Docked { station_name: Option<String> },
    Fileheader,
    Liftoff,
    LoadGame { start_dead: bool, start_landed: bool },
    Loadout { ship: String, ship_name: Option<String> },
    Location {
        body: String,
        station_name: Option<String>,
        docked: bool,
        on_foot: bool,
        in_srv: bool,
    },
    Shutdown,
    SuitLoadout { suit_name: String },
    SupercruiseEntry { star_system: String },
    SupercruiseExit { body: String },
    Touchdown,
    Undocked,
    UssDrop { uss_threat: u8, uss_type: String },
    Other,
}

/// One line of the journal: when it was written (seconds since the Unix
/// epoch) and its event.
#[derive(Debug, Clone, PartialEq, Eq)]
pub struct JournalEntry {
    pub timestamp: i64,
    pub event: JournalEvent,
}

} // verus!
