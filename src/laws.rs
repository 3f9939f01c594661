use vstd::prelude::*;

use crate::actor::ActorId;
use crate::battle::{BattleView, PlayerView, MAX_STEPS_FOR_ROUND};
use crate::combat::AttributeId;
use crate::event::{BattleAction, BattleError, BattleEvent, BattleState, Reaction};
use crate::random::seat_of;

verus! {

/// `after` is what a move by `source` makes of `before`, and the defender
/// survived it.
pub open spec fn survived_move(before: BattleView, source: ActorId, after: BattleView) -> bool {
    &&& before.make_move(source).0 == after
    &&& match before.make_move(source).1 {
        Ok(reaction) => reaction.reply != BattleEvent::GameIsOver,
        Err(_) => false,
    }
}

/// Two registrations that both succeed start the match: it is in `Moves`,
/// both seats are taken and the cursor names one of them.
pub proof fn lemma_two_registrations_start_moves(
    b: BattleView,
    first_token: ActorId,
    first_owner: ActorId,
    first_attributes: Set<AttributeId>,
    first_energy: [u8; 32],
    first_power: [u8; 32],
    first_turn: [u8; 32],
    second_token: ActorId,
    second_owner: ActorId,
    second_attributes: Set<AttributeId>,
    second_energy: [u8; 32],
    second_power: [u8; 32],
    second_turn: [u8; 32],
)
    requires
        b.wf(),
        b.register(
            first_token,
            first_owner,
            first_attributes,
            first_energy,
            first_power,
            first_turn,
        ).1 is Ok,
        b.register(
            first_token,
            first_owner,
            first_attributes,
            first_energy,
            first_power,
            first_turn,
        ).0.register(
            second_token,
            second_owner,
            second_attributes,
            second_energy,
            second_power,
            second_turn,
        ).1 is Ok,
    ensures
        ({
            let after = b.register(
                first_token,
                first_owner,
                first_attributes,
                first_energy,
                first_power,
                first_turn,
            ).0.register(
                second_token,
                second_owner,
                second_attributes,
                second_energy,
                second_power,
                second_turn,
            ).0;
            &&& after.state == BattleState::Moves
            &&& after.current_turn < 2
            &&& after.current_turn == seat_of(second_turn[0])
            &&& after.players.len() == 2
            &&& after.players[0].tmg_id == first_token
            &&& after.players[1].tmg_id == second_token
            &&& after.wf()
        }),
{
    let mid = b.register(
        first_token,
        first_owner,
        first_attributes,
        first_energy,
        first_power,
        first_turn,
    ).0;
    assert(b.players.len() == 0);
    assert(mid.players.len() == 1);
}

/// Once the match has left `Registration`, a registration is rejected and
/// changes nothing.
pub proof fn lemma_register_after_start_rejected(
    b: BattleView,
    tmg_id: ActorId,
    owner: ActorId,
    attributes: Set<AttributeId>,
    energy_random: [u8; 32],
    power_random: [u8; 32],
    turn_random: [u8; 32],
)
    requires
        b.state != BattleState::Registration,
    ensures
        b.register(tmg_id, owner, attributes, energy_random, power_random, turn_random) == (
            b,
            Err::<BattleEvent, BattleError>(BattleError::GameAlreadyStarted),
        ),
        b.registration_check() == Err::<(), BattleError>(BattleError::GameAlreadyStarted),
{
}

/// A move by the owner of the waiting seat, who does not own the active one,
/// is rejected and changes nothing, the turn cursor included.
pub proof fn lemma_move_out_of_turn_rejected(b: BattleView, source: ActorId)
    requires
        b.wf(),
        b.state == BattleState::Moves,
        source == b.players[BattleView::other_seat(b.current_turn) as int].owner,
        source != b.players[b.current_turn as int].owner,
    ensures
        b.make_move(source) == (b, Err::<Reaction, BattleError>(BattleError::NotYourTurn)),
{
}

/// Every transition keeps the match well formed.
pub proof fn lemma_make_move_keeps_wf(b: BattleView, source: ActorId)
    requires
        b.wf(),
    ensures
        b.make_move(source).0.wf(),
{
}

proof fn lemma_survived_step(before: BattleView, source: ActorId, after: BattleView)
    requires
        before.wf(),
        survived_move(before, source, after),
    ensures
        after.wf(),
        before.state == BattleState::Moves,
        before.steps <= MAX_STEPS_FOR_ROUND ==> after.state == BattleState::Moves && after.steps
            == before.steps + 1 && before.make_move(source).1 == Ok::<Reaction, BattleError>(
            Reaction { reply: BattleEvent::MoveMade, delayed: None },
        ),
        before.steps > MAX_STEPS_FOR_ROUND ==> after.state == BattleState::Waiting && after.steps
            == 0 && before.make_move(source).1 == Ok::<Reaction, BattleError>(
            Reaction {
                reply: BattleEvent::GoToWaitingState,
                delayed: Some(BattleAction::UpdateInfo),
            },
        ),
{
}

proof fn lemma_cycle_prefix(states: Seq<BattleView>, sources: Seq<ActorId>, n: nat)
    requires
        states.len() == sources.len() + 1,
        states[0].wf(),
        states[0].state == BattleState::Moves,
        states[0].steps == 0,
        forall|i: int|
            0 <= i < sources.len() ==> #[trigger] survived_move(states[i], sources[i], states[i + 1]),
        n < states.len(),
        n <= MAX_STEPS_FOR_ROUND + 1,
    ensures
        states[n as int].wf(),
        states[n as int].state == BattleState::Moves,
        states[n as int].steps == n,
    decreases n,
{
    if n > 0 {
        let k = (n - 1) as nat;
        lemma_cycle_prefix(states, sources, k);
        assert(survived_move(states[k as int], sources[k as int], states[(k + 1) as int]));
        lemma_survived_step(states[k as int], sources[k as int], states[n as int]);
    }
}

/// Counting from the start of play or from a refresh, the first
/// `MAX_STEPS_FOR_ROUND + 1` survived moves keep the match in `Moves`, one
/// more each on the round counter; the survived move after them enters
/// `Waiting`, resets the counter and asks for exactly one delayed refresh.
pub proof fn lemma_refresh_after_full_cycle(states: Seq<BattleView>, sources: Seq<ActorId>)
    requires
        states.len() == sources.len() + 1,
        states[0].wf(),
        states[0].state == BattleState::Moves,
        states[0].steps == 0,
        forall|i: int|
            0 <= i < sources.len() ==> #[trigger] survived_move(states[i], sources[i], states[i + 1]),
    ensures
        forall|i: int|
            0 <= i < states.len() && i <= MAX_STEPS_FOR_ROUND + 1 ==> #[trigger] states[i].state
                == BattleState::Moves && states[i].steps == i,
        sources.len() > MAX_STEPS_FOR_ROUND + 1 ==> {
            let last = MAX_STEPS_FOR_ROUND + 1;
            &&& states[last + 1].state == BattleState::Waiting
            &&& states[last + 1].steps == 0
            &&& states[last].make_move(sources[last]).1 == Ok::<Reaction, BattleError>(
                Reaction {
                    reply: BattleEvent::GoToWaitingState,
                    delayed: Some(BattleAction::UpdateInfo),
                },
            )
        },
{
    assert forall|i: int| 0 <= i < states.len() && i <= MAX_STEPS_FOR_ROUND + 1 implies #[trigger] states[i].state
        == BattleState::Moves && states[i].steps == i by {
        lemma_cycle_prefix(states, sources, i as nat);
    }
    if sources.len() > MAX_STEPS_FOR_ROUND + 1 {
        let last: int = MAX_STEPS_FOR_ROUND + 1;
        lemma_cycle_prefix(states, sources, last as nat);
        assert(survived_move(states[last], sources[last], states[last + 1]));
        lemma_survived_step(states[last], sources[last], states[last + 1]);
    }
}

/// A refresh from anyone but the program itself is rejected and changes
/// nothing. From the program itself in `Waiting`, it replaces the attributes
/// of both seats, keeps everything else of them, returns to `Moves` and takes
/// the seat that moves next from the fresh entropy block.
pub proof fn lemma_refresh_only_from_self(
    b: BattleView,
    source: ActorId,
    program_id: ActorId,
    first: Set<AttributeId>,
    second: Set<AttributeId>,
    turn_random: [u8; 32],
)
    requires
        b.wf(),
    ensures
        source != program_id ==> b.update_info(source, program_id, first, second, turn_random) == (
            b,
            Err::<BattleEvent, BattleError>(BattleError::NotProgramItself),
        ),
        source == program_id && b.state == BattleState::Waiting ==> {
            let (after, r) = b.update_info(source, program_id, first, second, turn_random);
            &&& r == Ok::<BattleEvent, BattleError>(BattleEvent::InfoUpdated)
            &&& after.wf()
            &&& after.state == BattleState::Moves
            &&& after.current_turn == seat_of(turn_random[0])
            &&& after.players.len() == 2
            &&& after.players[0] == PlayerView { attributes: first, ..b.players[0] }
            &&& after.players[1] == PlayerView { attributes: second, ..b.players[1] }
            &&& after.steps == b.steps
            &&& after.winner == b.winner
        },
{
}

} // verus!
