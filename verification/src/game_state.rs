//! Decoded game-controller state: the enums and records carried by the
//! game-controller radio messages after the wire format has been decoded by
//! the (external) protocol layer.
//!
//! Durations coming off the wire are kept in whole seconds, exactly as the
//! protocol transmits them.

use vstd::prelude::*;

verus! {

/// The team number this robot plays for, as registered with the league.
pub const TEAM_NUMBER: u8 = 8;

/// Number of player slots per team.
pub const PLAYERS: usize = 7;

#[derive(Clone, Copy, Debug, PartialEq, Eq, Structural)]
pub enum Half {
    First,
    Second,
}

#[derive(Clone, Copy, Debug, PartialEq, Eq, Structural)]
pub enum GameState {
    Initial,
    Ready,
    Setup,
    Playing,
    Finished,
}

#[derive(Clone, Copy, Debug, PartialEq, Eq, Structural)]
pub enum GamePhase {
    Normal,
    PenaltyShootout { kicking_team: Team },
    Overtime,
    Timeout,
}

#[derive(Clone, Copy, Debug, PartialEq, Eq, Structural)]
pub enum SubState {
    NoSubState,
    GoalKick,
    PushingFreeKick,
    CornerKick,
    KickIn,
    PenaltyKick,
}

#[derive(Clone, Copy, Debug, PartialEq, Eq, Structural)]
pub enum Team {
    Hulks,
    Opponent,
    Uncertain,
}

impl From<u8> for Team {
    /// A team number equal to our own registered number means us; any other
    /// number is the opponent.
    fn from(team_number: u8) -> (team: Self) {
        if team_number == TEAM_NUMBER {
            Team::Hulks
        } else {
            Team::Opponent
        }
    }
}

impl vstd::std_specs::convert::FromSpecImpl<u8> for Team {
    open spec fn obeys_from_spec() -> bool {
        true
    }

    open spec fn from_spec(team_number: u8) -> Team {
        if team_number == TEAM_NUMBER {
            Team::Hulks
        } else {
            Team::Opponent
        }
    }
}

#[derive(Clone, Copy, Debug, PartialEq, Eq, Structural)]
pub enum TeamColor {
    Blue,
    Red,
    Yellow,
    Black,
    White,
    Green,
    Orange,
    Purple,
    Brown,
    Gray,
}

#[derive(Clone, Debug)]
pub struct TeamState {
    pub team_number: u8,
    pub field_player_colour: TeamColor,
    pub goalkeeper_colour: TeamColor,
    pub score: u8,
    pub penalty_shoot_index: u8,
    pub penalty_shoots: Vec<PenaltyShoot>,
    pub remaining_amount_of_messages: u16,
    pub players: Vec<Player>,
}

#[derive(Clone, Copy, Debug, PartialEq, Eq, Structural)]
pub enum PenaltyShoot {
    Successful,
    Unsuccessful,
}

#[derive(Clone, Copy, Debug, PartialEq, Eq, Structural)]
pub struct Player {
    pub penalty: Penalty,
}

/// A penalty called against one player. The payload is the remaining penalty
/// time in whole seconds, as the game controller transmits it.
#[derive(Clone, Copy, Debug, PartialEq, Eq, Structural)]
pub enum Penalty {
    NoPenalty,
    IllegalBallContact { remaining: u64 },
    PlayerPushing { remaining: u64 },
    IllegalMotionInSet { remaining: u64 },
    InactivePlayer { remaining: u64 },
    IllegalPosition { remaining: u64 },
    LeavingTheField { remaining: u64 },
    RequestForPickup { remaining: u64 },
    LocalGameStuck { remaining: u64 },
    IllegalPositionInSet { remaining: u64 },
    PlayerStance { remaining: u64 },
    Substitute { remaining: u64 },
    Manual { remaining: u64 },
}

impl Penalty {
    pub fn is_some(&self) -> (r: bool)
        ensures
            r == !(*self is NoPenalty),
    {
        !matches!(self, Penalty::NoPenalty)
    }

    pub fn is_none(&self) -> (r: bool)
        ensures
            r == (*self is NoPenalty),
    {
        matches!(self, Penalty::NoPenalty)
    }
}

#[derive(Clone, Copy, Debug, PartialEq, Eq, Structural)]
pub enum CompetitionPhase {
    RoundRobin,
    PlayOff,
}

#[derive(Clone, Copy, Debug, PartialEq, Eq, Structural)]
pub enum CompetitionType {
    Normal,
    DynamicBallHandling,
}

#[derive(Clone, Copy, Debug, PartialEq, Eq, Structural, Hash)]
pub enum PlayerNumber {
    One,
    Two,
    Three,
    Four,
    Five,
}

impl PlayerNumber {
    /// The jersey number, counting from one.
    pub open spec fn spec_number(self) -> u8 {
        match self {
            PlayerNumber::One => 1,
            PlayerNumber::Two => 2,
            PlayerNumber::Three => 3,
            PlayerNumber::Four => 4,
            PlayerNumber::Five => 5,
        }
    }

    pub fn number(&self) -> (n: u8)
        ensures
            n == self.spec_number(),
    {
        match self {
            PlayerNumber::One => 1,
            PlayerNumber::Two => 2,
            PlayerNumber::Three => 3,
            PlayerNumber::Four => 4,
            PlayerNumber::Five => 5,
        }
    }
}

/// One decoded game-controller broadcast, with the data already split into
/// our team and the opponent team.
#[derive(Clone, Debug)]
pub struct GameControllerStateMessage {
    pub game_phase: GamePhase,
    pub game_state: GameState,
    pub sub_state: SubState,
    pub half: Half,
    /// Remaining time in the current half, whole seconds.
    pub remaining_time_in_half: u64,
    /// Secondary timer of the game controller, whole seconds.
    pub secondary_time: u64,
    pub hulks_team: TeamState,
    pub opponent_team: TeamState,
    pub kicking_team: Team,
}

/// One value per player slot of a team.
#[derive(Clone, Copy, Debug)]
pub struct Players<T> {
    pub players: [T; PLAYERS],
}

impl<T> Players<T> {
    pub fn get(&self, index: usize) -> (r: Option<&T>)
        ensures
            match r {
                Some(v) => index < PLAYERS && *v == self.players@[index as int],
                None => index >= PLAYERS,
            },
    {
        if index < PLAYERS {
            Some(&self.players[index])
        } else {
            None
        }
    }

    pub fn set(&mut self, index: usize, value: T)
        requires
            index < PLAYERS,
        ensures
            final(self).players@ == old(self).players@.update(index as int, value),
    {
        self.players[index] = value;
    }
}

/// The penalty of the player in the given slot; a slot the message did not
/// fill counts as unpenalized.
pub fn get_penalty(players: &Vec<Player>, player_index: usize) -> (p: Penalty)
    ensures
        p == spec_get_penalty(players@, player_index as int),
{
    if players.len() > player_index {
        players[player_index].penalty
    } else {
        Penalty::NoPenalty
    }
}

pub open spec fn spec_get_penalty(players: Seq<Player>, player_index: int) -> Penalty {
    if players.len() > player_index {
        players[player_index].penalty
    } else {
        Penalty::NoPenalty
    }
}

/// The per-slot penalties of a team, padded with `Penalty::NoPenalty` for slots
/// the message did not fill.
pub fn penalties_from_team_state(team_state: &TeamState) -> (r: Players<Penalty>)
    ensures
        forall|i: int|
            0 <= i < PLAYERS ==> r.players@[i] == spec_get_penalty(team_state.players@, i),
{
    Players {
        players: [
            get_penalty(&team_state.players, 0),
            get_penalty(&team_state.players, 1),
            get_penalty(&team_state.players, 2),
            get_penalty(&team_state.players, 3),
            get_penalty(&team_state.players, 4),
            get_penalty(&team_state.players, 5),
            get_penalty(&team_state.players, 6),
        ],
    }
}

} // verus!
