//! Fold the game-controller broadcasts of one cycle into the filtered
//! game-controller state, tracking when the game state last changed.

use vstd::prelude::*;

use crate::game_state::{
    spec_get_penalty, penalties_from_team_state, GameControllerStateMessage, GameState, SubState,
    PLAYERS,
};
use crate::world::GameControllerState;

verus! {

pub struct CreationContext {}

/// The per-cycle inputs of the filter.
pub struct CycleContext {
    /// Monotonic cycle timestamp, milliseconds.
    pub cycle_start_time: u64,
    /// The game-controller messages decoded in this cycle's slice, oldest
    /// first.
    pub game_controller_state_messages: Vec<GameControllerStateMessage>,
}

pub struct MainOutputs {
    pub game_controller_state: Option<GameControllerState>,
}

/// The filter's persistent state.
pub struct GameControllerFilter {
    pub game_controller_state: Option<GameControllerState>,
    /// When the game state last changed, milliseconds.
    pub last_game_state_change: Option<u64>,
}

/// The sub state a message carries, with "none" mapped out of the enum.
pub open spec fn spec_sub_state_of(message: GameControllerStateMessage) -> Option<SubState> {
    if message.sub_state == SubState::NoSubState {
        None
    } else {
        Some(message.sub_state)
    }
}

/// The game state the filter currently holds, if any.
pub open spec fn spec_game_state_of(state: Option<GameControllerState>) -> Option<GameState> {
    match state {
        Some(s) => Some(s.game_state),
        None => None,
    }
}

/// Whether folding the messages over the given initial game state passes
/// any game-state change (a first message over an empty state counts).
pub open spec fn spec_any_change(
    initial: Option<GameState>,
    messages: Seq<GameControllerStateMessage>,
) -> bool
    decreases messages.len(),
{
    if messages.len() == 0 {
        false
    } else {
        let changed = match initial {
            Some(game_state) => game_state != messages[0].game_state,
            None => true,
        };
        changed || spec_any_change(Some(messages[0].game_state), messages.drop_first())
    }
}

/// The filtered state a message produces, apart from the change timestamp.
pub open spec fn spec_matches_message(
    state: GameControllerState,
    message: GameControllerStateMessage,
) -> bool {
    &&& state.game_state == message.game_state
    &&& state.game_phase == message.game_phase
    &&& state.kicking_team == message.kicking_team
    &&& state.remaining_amount_of_messages == message.hulks_team.remaining_amount_of_messages
    &&& state.sub_state == spec_sub_state_of(message)
    &&& forall|i: int|
        0 <= i < PLAYERS ==> state.penalties.players@[i] == spec_get_penalty(
            message.hulks_team.players@,
            i,
        )
}

/// Runtime equality of two game states.
fn same_game_state(a: GameState, b: GameState) -> (r: bool)
    ensures
        r == (a == b),
{
    match (a, b) {
        (GameState::Initial, GameState::Initial) => true,
        (GameState::Ready, GameState::Ready) => true,
        (GameState::Setup, GameState::Setup) => true,
        (GameState::Playing, GameState::Playing) => true,
        (GameState::Finished, GameState::Finished) => true,
        _ => false,
    }
}

impl GameControllerFilter {
    /// The filter is kept consistent: whenever it holds a state, it also
    /// holds the matching change timestamp.
    pub open spec fn wf(self) -> bool {
        self.game_controller_state matches Some(s) ==> self.last_game_state_change == Some(
            s.last_game_state_change,
        )
    }

    pub fn new(_context: CreationContext) -> (r: Self)
        ensures
            r.game_controller_state is None,
            r.last_game_state_change is None,
            r.wf(),
    {
        GameControllerFilter { game_controller_state: None, last_game_state_change: None }
    }

    /// Fold this cycle's messages into the filtered state. Without messages
    /// the state is kept; otherwise the state mirrors the last message, and
    /// the change timestamp moves to this cycle exactly when some message
    /// changed the game state.
    pub fn cycle(&mut self, context: &CycleContext) -> (outputs: MainOutputs)
        requires
            old(self).wf(),
        ensures
            final(self).wf(),
            context.game_controller_state_messages@.len() == 0 ==> *final(self) == *old(self),
            context.game_controller_state_messages@.len() > 0 ==> ({
                let messages = context.game_controller_state_messages@;
                &&& final(self).game_controller_state matches Some(s) && spec_matches_message(
                    s,
                    messages.last(),
                )
                &&& final(self).last_game_state_change == (if spec_any_change(
                    spec_game_state_of(old(self).game_controller_state),
                    messages,
                ) {
                    Some(context.cycle_start_time)
                } else {
                    old(self).last_game_state_change
                })
            }),
            outputs.game_controller_state == final(self).game_controller_state,
    {
        let messages = &context.game_controller_state_messages;
        let now = context.cycle_start_time;
        let ghost initial = spec_game_state_of(self.game_controller_state);
        let ghost old_change = self.last_game_state_change;
        let mut changed_so_far: bool = false;
        let mut i: usize = 0;
        assert(messages@.skip(0) =~= messages@);
        while i < messages.len()
            invariant
                i <= messages@.len(),
                self.wf(),
                i == 0 ==> *self == *old(self) && !changed_so_far,
                i > 0 ==> (self.game_controller_state matches Some(s) && spec_matches_message(
                    s,
                    messages@[i - 1],
                )),
                self.last_game_state_change == (if changed_so_far {
                    Some(now)
                } else {
                    old_change
                }),
                !changed_so_far ==> self.last_game_state_change == old_change,
                i > 0 ==> spec_game_state_of(self.game_controller_state) == Some(
                    messages@[i - 1].game_state,
                ),
                spec_any_change(initial, messages@) == (changed_so_far || spec_any_change(
                    spec_game_state_of(self.game_controller_state),
                    messages@.skip(i as int),
                )),
                initial == spec_game_state_of(old(self).game_controller_state),
                old_change == old(self).last_game_state_change,
            decreases messages@.len() - i,
        {
            assert(messages@.skip(i as int)[0] == messages@[i as int]);
            let message = &messages[i];
            let game_state_changed = match &self.game_controller_state {
                Some(state) => !same_game_state(state.game_state, message.game_state),
                None => true,
            };
            if game_state_changed {
                self.last_game_state_change = Some(now);
                changed_so_far = true;
            }
            let last_game_state_change = self.last_game_state_change.unwrap();
            self.game_controller_state = Some(
                GameControllerState {
                    game_state: message.game_state,
                    game_phase: message.game_phase,
                    kicking_team: message.kicking_team,
                    last_game_state_change,
                    penalties: penalties_from_team_state(&message.hulks_team),
                    remaining_amount_of_messages: message.hulks_team.remaining_amount_of_messages,
                    sub_state: match message.sub_state {
                        SubState::NoSubState => None,
                        sub_state => Some(sub_state),
                    },
                },
            );
            assert(messages@.skip(i as int).drop_first() =~= messages@.skip(i as int + 1));
            i += 1;
        }
        assert(messages@.skip(messages@.len() as int) =~= Seq::<
            GameControllerStateMessage,
        >::empty());
        MainOutputs { game_controller_state: self.game_controller_state }
    }
}

} // verus!
