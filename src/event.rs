use vstd::prelude::*;

use crate::actor::ActorId;

verus! {

/// The phase of a match.
#[derive(Clone, Copy, Debug, PartialEq, Eq, Structural)]
pub enum BattleState {
    Registration,
    Moves,
    Waiting,
    GameIsOver,
}

impl Default for BattleState {
    fn default() -> (r: BattleState)
        ensures
            r == BattleState::Registration,
    {
        BattleState::Registration
    }
}

/// An inbound request.
#[derive(Clone, Copy, Debug, PartialEq, Eq)]
pub enum BattleAction {
    /// Re-read both participants' attributes; only the program itself may
    /// send it, as a delayed message.
    UpdateInfo,
    /// A move by the sender, who must own the active seat.
    MakeMove,
    /// Enter the participant `tmg_id`.
    Registration { tmg_id: ActorId },
}

/// A reply to an inbound request.
#[derive(Clone, Copy, Debug, PartialEq, Eq)]
pub enum BattleEvent {
    Registered { tmg_id: ActorId },
    GameIsOver,
    MoveMade,
    InfoUpdated,
    GoToWaitingState,
}

/// Why a request was rejected; a rejected request changes nothing.
#[derive(Clone, Copy, Debug, PartialEq, Eq, Structural)]
pub enum BattleError {
    /// A registration arrived after the match left `Registration`.
    GameAlreadyStarted,
    /// A move arrived outside `Moves`.
    NotMovesState,
    /// A move arrived from someone other than the owner of the active seat.
    NotYourTurn,
    /// A refresh arrived from someone other than the program itself.
    NotProgramItself,
    /// A refresh arrived outside `Waiting`.
    NotWaitingState,
}

/// What the caller does after a move: send `reply`, and send `delayed` to
/// the program itself after the refresh delay when it is there.
#[derive(Clone, Copy, Debug, PartialEq, Eq)]
pub struct Reaction {
    pub reply: BattleEvent,
    pub delayed: Option<BattleAction>,
}

} // verus!
