//! The decoded radio messages the core reads and the outbound reports it
//! produces. Wire encoding and decoding belong to the protocol layer, not
//! here.

use vstd::prelude::*;

use crate::game_state::{GameControllerStateMessage, PlayerNumber};

verus! {

/// A teammate broadcast, reduced to the fields the core reads.
#[derive(Clone, Copy, Debug, PartialEq, Eq, Structural)]
pub struct SplMessage {
    pub player_number: PlayerNumber,
    pub fallen: bool,
}

impl Default for SplMessage {
    fn default() -> (r: Self)
        ensures
            r == (SplMessage { player_number: PlayerNumber::Five, fallen: false }),
    {
        SplMessage { player_number: PlayerNumber::Five, fallen: false }
    }
}

/// One decoded incoming radio message.
#[derive(Clone, Debug)]
pub enum IncomingMessage {
    GameController(GameControllerStateMessage),
    Spl(SplMessage),
}

impl Default for IncomingMessage {
    fn default() -> (r: Self)
        ensures
            r matches IncomingMessage::Spl(m) && m == (SplMessage {
                player_number: PlayerNumber::Five,
                fallen: false,
            }),
    {
        IncomingMessage::Spl(SplMessage { player_number: PlayerNumber::Five, fallen: false })
    }
}

/// One outbound radio message handed to the network sink.
#[derive(Clone, Copy, Debug)]
pub enum OutgoingMessage {
    RefereeReturnData(RefereeMessage),
    Spl(SplMessage),
}

impl Default for OutgoingMessage {
    fn default() -> (r: Self)
        ensures
            r matches OutgoingMessage::Spl(m) && m == (SplMessage {
                player_number: PlayerNumber::Five,
                fallen: false,
            }),
    {
        OutgoingMessage::Spl(SplMessage { player_number: PlayerNumber::Five, fallen: false })
    }
}

/// A provisional referee hand-signal classification.
#[derive(Clone, Copy, Debug, PartialEq, Eq, Structural)]
pub struct HandSignal {
    pub handsignal: u8,
}

/// The outbound referee report. Pose coordinates are integer millimetres and
/// milliradians in field coordinates; the wire encoder scales them as the
/// protocol demands.
#[derive(Clone, Copy, Debug, PartialEq, Eq)]
pub struct RefereeMessage {
    /// Protocol magic, always `RGrt`.
    pub header: [u8; 4],
    /// Protocol version.
    pub version: u8,
    /// Jersey number, counting from one.
    pub player_num: u8,
    /// Team number.
    pub team_num: u8,
    /// Carries the provisional hand-signal classification.
    pub fallen: u8,
    /// Robot pose: x and y in millimetres, orientation in milliradians.
    pub pose: [i64; 3],
    /// Milliseconds since the whistle opening this episode was heard.
    pub ball_age: u64,
    /// Ball position relative to the robot, millimetres.
    pub ball: [i64; 2],
}

impl RefereeMessage {
    #[allow(clippy::too_many_arguments)]
    pub fn new(
        header: [u8; 4],
        version: u8,
        player_num: u8,
        team_num: u8,
        fallen: u8,
        pose: [i64; 3],
        ball_age: u64,
        ball: [i64; 2],
    ) -> (r: Self)
        ensures
            r == (RefereeMessage { header, version, player_num, team_num, fallen, pose, ball_age, ball }),
    {
        Self { header, version, player_num, team_num, fallen, pose, ball_age, ball }
    }
}

} // verus!
