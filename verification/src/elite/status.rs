//! What the player is doing and what the player is in, as the presence shows it.

use vstd::prelude::*;

verus! {

/// What the player is doing.
#[derive(Debug, Clone, PartialEq, Eq)]
pub enum GameState {
    Idle,
    Dead,
    Approaching(String),
    Docked(String),
    JumpingTo(String),
    Supercruise(Option<String>),
    Landed(Option<String>),
    Location(String),
    OnCarrier,
}

/// What the player is in.
#[derive(Debug, Clone, PartialEq, Eq)]
pub enum Loadout {
    Ship { ship_type: String, ship_name: String, ship_id: String },
    Srv,
    OnFoot,
    Unknown,
}

/// What the journal side tells the presence side.
#[derive(Debug, Clone, PartialEq, Eq)]
pub enum Message {
    Session { created_at: i64 },
    Update { state: Option<GameState>, loadout: Option<Loadout> },
}

/// A [`GameState`] with its texts as character sequences.
pub enum GameStateModel {
    Idle,
    Dead,
    Approaching(Seq<char>),
    Docked(Seq<char>),
    JumpingTo(Seq<char>),
    Supercruise(Option<Seq<char>>),
    Landed(Option<Seq<char>>),
    Location(Seq<char>),
    OnCarrier,
}

/// A [`Loadout`] with its texts as character sequences.
pub enum LoadoutModel {
    Ship { ship_type: Seq<char>, ship_name: Seq<char>, ship_id: Seq<char> },
    Srv,
    OnFoot,
    Unknown,
}

/// A [`Message`] with its texts as character sequences.
pub enum MessageModel {
    Session { created_at: i64 },
    Update { state: Option<GameStateModel>, loadout: Option<LoadoutModel> },
}

impl View for GameState {
    type V = GameStateModel;

    open spec fn view(&self) -> GameStateModel {
        match self {
            GameState::Idle => GameStateModel::Idle,
            GameState::Dead => GameStateModel::Dead,
            GameState::Approaching(s) => GameStateModel::Approaching(s@),
            GameState::Docked(s) => GameStateModel::Docked(s@),
            GameState::JumpingTo(s) => GameStateModel::JumpingTo(s@),
            GameState::Supercruise(s) => GameStateModel::Supercruise(s.deep_view()),
            GameState::Landed(s) => GameStateModel::Landed(s.deep_view()),
            GameState::Location(s) => GameStateModel::Location(s@),
            GameState::OnCarrier => GameStateModel::OnCarrier,
        }
    }
}

impl DeepView for GameState {
    type V = GameStateModel;

    open spec fn deep_view(&self) -> GameStateModel {
        self@
    }
}

impl View for Loadout {
    type V = LoadoutModel;

    open spec fn view(&self) -> LoadoutModel {
        match self {
            Loadout::Ship { ship_type, ship_name, ship_id } => LoadoutModel::Ship {
                ship_type: ship_type@,
                ship_name: ship_name@,
                ship_id: ship_id@,
            },
            Loadout::Srv => LoadoutModel::Srv,
            Loadout::OnFoot => LoadoutModel::OnFoot,
            Loadout::Unknown => LoadoutModel::Unknown,
        }
    }
}

impl DeepView for Loadout {
    type V = LoadoutModel;

    open spec fn deep_view(&self) -> LoadoutModel {
        self@
    }
}

impl View for Message {
    type V = MessageModel;

    open spec fn view(&self) -> MessageModel {
        match self {
            Message::Session { created_at } => MessageModel::Session { created_at: *created_at },
            Message::Update { state, loadout } => MessageModel::Update {
                state: state.deep_view(),
                loadout: loadout.deep_view(),
            },
        }
    }
}

impl DeepView for Message {
    type V = MessageModel;

    open spec fn deep_view(&self) -> MessageModel {
        self@
    }
}

} // verus!

verus! {

/// How the presence words a state.
pub open spec fn state_text(state: GameStateModel) -> Seq<char> {
    match state {
        GameStateModel::Idle => "Idle"@,
        GameStateModel::Dead => "Dead"@,
        GameStateModel::Approaching(location) => "Approaching "@ + location,
        GameStateModel::Docked(station_name) => "Docked in "@ + station_name,
        GameStateModel::JumpingTo(star_system) => "Jumping to "@ + star_system,
        GameStateModel::Supercruise(Some(star_system)) => "Supercruise in "@ + star_system,
        GameStateModel::Supercruise(None) => "Supercruise"@,
        GameStateModel::Landed(Some(body)) => "Landed on "@ + body,
        GameStateModel::Landed(None) => "Landed"@,
        GameStateModel::Location(location) => location,
        GameStateModel::OnCarrier => "On fleet carrier"@,
    }
}

/// How the presence words a loadout.
pub open spec fn loadout_text(loadout: LoadoutModel) -> Seq<char> {
    match loadout {
        LoadoutModel::Ship { ship_type, ship_name, ship_id } => ship_type + " ("@ + ship_name
            + ", "@ + ship_id + ")"@,
        LoadoutModel::Srv => "On SRV"@,
        LoadoutModel::OnFoot => "On foot"@,
        LoadoutModel::Unknown => Seq::empty(),
    }
}

/// The words of a state name the place that it carries, after a fixed
/// opening for each kind of state.
pub proof fn lemma_state_words(place: Seq<char>)
    ensures
        state_text(GameStateModel::Approaching(place)) == "Approaching "@ + place,
        state_text(GameStateModel::Docked(place)) == "Docked in "@ + place,
        state_text(GameStateModel::JumpingTo(place)) == "Jumping to "@ + place,
        state_text(GameStateModel::Supercruise(Some(place))) == "Supercruise in "@ + place,
        state_text(GameStateModel::Landed(Some(place))) == "Landed on "@ + place,
        state_text(GameStateModel::Location(place)) == place,
        loadout_text(LoadoutModel::Unknown).len() == 0,
{
}

fn prefixed(prefix: &str, text: &String) -> (s: String)
    ensures
        s@ == prefix@ + text@,
{
    String::from_str(prefix).concat(text.as_str())
}

impl GameState {
    /// How the presence words this state.
    pub fn to_string(&self) -> (s: String)
        ensures
            s@ == state_text(self@),
    {
        match self {
            GameState::Idle => String::from_str("Idle"),
            GameState::Dead => String::from_str("Dead"),
            GameState::Approaching(location) => prefixed("Approaching ", location),
            GameState::Docked(station_name) => prefixed("Docked in ", station_name),
            GameState::JumpingTo(star_system) => prefixed("Jumping to ", star_system),
            GameState::Supercruise(Some(star_system)) => prefixed("Supercruise in ", star_system),
            GameState::Supercruise(None) => String::from_str("Supercruise"),
            GameState::Landed(Some(body)) => prefixed("Landed on ", body),
            GameState::Landed(None) => String::from_str("Landed"),
            GameState::Location(location) => location.clone(),
            GameState::OnCarrier => String::from_str("On fleet carrier"),
        }
    }
}

impl Loadout {
    /// How the presence words this loadout.
    pub fn to_string(&self) -> (s: String)
        ensures
            s@ == loadout_text(self@),
    {
        match self {
            Loadout::Ship { ship_type, ship_name, ship_id } => {
                let mut s = ship_type.clone();
                s.append(" (");
                s.append(ship_name.as_str());
                s.append(", ");
                s.append(ship_id.as_str());
                s.append(")");
                s
            },
            Loadout::Srv => String::from_str("On SRV"),
            Loadout::OnFoot => String::from_str("On foot"),
            Loadout::Unknown => String::new(),
        }
    }
}

} // verus!
