//! What the player is in.

use vstd::prelude::*;

use crate::journal_event::JournalEvent;

verus! {

/// What the player is in.
#[derive(Debug, Clone, PartialEq, Eq)]
pub enum Loadout {
    Ship { ship_type: String, ship_name: Option<String> },
    Srv,
    Suit { suit_type: Option<String> },
    Unknown,
}

impl Default for Loadout {
    fn default() -> (loadout: Loadout)
        ensures
            loadout == Loadout::Unknown,
    {
        Loadout::Unknown
    }
}

/// The loadout after `event`, from `loadout`.
pub open spec fn next_loadout(loadout: Loadout, event: JournalEvent) -> Loadout {
    match event {
        JournalEvent::Loadout { ship, ship_name } => Loadout::Ship { ship_type: ship, ship_name },
        JournalEvent::SuitLoadout { suit_name } => Loadout::Suit { suit_type: Some(suit_name) },
        JournalEvent::Disembark { in_srv } => if in_srv {
            Loadout::Srv
        } else {
            Loadout::Suit { suit_type: None }
        },
        JournalEvent::Location { in_srv, on_foot, .. } => if in_srv {
            Loadout::Srv
        } else if on_foot {
            Loadout::Suit { suit_type: None }
        } else {
            loadout
        },
        _ => loadout,
    }
}

/// Where the journal tells the player's location: in the SRV the loadout is
/// the SRV, whether or not the player is also said to be on foot; out of it
/// and on foot it is a suit of unknown type; otherwise it stays as it was.
pub proof fn lemma_location_loadout(
    loadout: Loadout,
    body: String,
    station_name: Option<String>,
    docked: bool,
    on_foot: bool,
    in_srv: bool,
)
    ensures
        ({
            let after = next_loadout(
                loadout,
                JournalEvent::Location { body, station_name, docked, on_foot, in_srv },
            );
            &&& in_srv ==> after == Loadout::Srv
            &&& !in_srv && on_foot ==> after == (Loadout::Suit { suit_type: None })
            &&& !in_srv && !on_foot ==> after == loadout
        }),
{
}

/// Leaving a vehicle puts the player in the SRV or on foot in a suit of
/// unknown type; a ship loadout names the ship; a suit loadout names the suit.
pub proof fn lemma_loadout_events(loadout: Loadout, in_srv: bool, ship: String, ship_name: Option<String>, suit_name: String)
    ensures
        next_loadout(loadout, JournalEvent::Disembark { in_srv }) == (if in_srv {
            Loadout::Srv
        } else {
            Loadout::Suit { suit_type: None }
        }),
        next_loadout(loadout, JournalEvent::Loadout { ship, ship_name }) == (Loadout::Ship {
            ship_type: ship,
            ship_name,
        }),
        next_loadout(loadout, JournalEvent::SuitLoadout { suit_name }) == (Loadout::Suit {
            suit_type: Some(suit_name),
        }),
{
}

impl Loadout {
    /// Follows one journal event.
    pub fn update(&mut self, event: &JournalEvent)
        ensures
            *final(self) == next_loadout(*old(self), *event),
    {
        match event {
            JournalEvent::Loadout { ship, ship_name } => {
                *self = Loadout::Ship { ship_type: ship.clone(), ship_name: ship_name.clone() }
            },
            JournalEvent::SuitLoadout { suit_name } => {
                *self = Loadout::Suit { suit_type: Some(suit_name.clone()) }
            },
            JournalEvent::Disembark { in_srv } => {
                if *in_srv {
                    *self = Loadout::Srv;
                } else {
                    *self = Loadout::Suit { suit_type: None }
                }
            },
            JournalEvent::Location { in_srv, on_foot, .. } => {
                if *in_srv {
                    *self = Loadout::Srv;
                } else if *on_foot {
                    *self = Loadout::Suit { suit_type: None }
                }
            },
            _ => (),
        }
    }
}

/// Following the same event twice leaves the loadout where following it once did.
pub proof fn lemma_loadout_update_idempotent(loadout: Loadout, event: JournalEvent)
    ensures
        next_loadout(next_loadout(loadout, event), event) == next_loadout(loadout, event),
{
}

} // verus!
