use vstd::prelude::*;

use std::collections::BTreeSet;

use crate::actor::ActorId;
use crate::combat::{after_hit, damage_of, resolve_move, AttributeId, SWORD_ID};
use crate::event::{BattleAction, BattleError, BattleEvent, BattleState, Reaction};
use crate::random::{generate_power, get_turn, seat_of, stat_of};

verus! {

/// Survived moves in a cycle go on while the counter is at most this; the
/// next survived move starts a refresh.
pub const MAX_STEPS_FOR_ROUND: u8 = 5;

/// Blocks between entering `Waiting` and the refresh request.
pub const TIME_FOR_UPDATE: u32 = 500;

/// Gas sent with the delayed refresh request.
pub const GAS_AMOUNT: u64 = 100_000_000_000;

/// A participant as the match sees it.
pub struct PlayerView {
    pub owner: ActorId,
    pub tmg_id: ActorId,
    pub energy: u16,
    pub power: u16,
    pub attributes: Set<AttributeId>,
}

/// A match as a mathematical value.
pub struct BattleView {
    pub players: Seq<PlayerView>,
    pub state: BattleState,
    pub current_turn: u8,
    pub tmg_store_id: ActorId,
    pub winner: Option<ActorId>,
    pub steps: u8,
}

/// One entrant of the match.
pub struct Player {
    pub owner: ActorId,
    pub tmg_id: ActorId,
    pub energy: u16,
    pub power: u16,
    pub attributes: BTreeSet<AttributeId>,
}

impl View for Player {
    type V = PlayerView;

    open spec fn view(&self) -> PlayerView {
        PlayerView {
            owner: self.owner,
            tmg_id: self.tmg_id,
            energy: self.energy,
            power: self.power,
            attributes: self.attributes@,
        }
    }
}

impl BattleView {
    /// The roster fits the phase, the cursor names a seat and the round
    /// counter stays within one cycle.
    pub open spec fn wf(self) -> bool {
        &&& self.current_turn < 2
        &&& self.steps <= MAX_STEPS_FOR_ROUND + 1
        &&& match self.state {
            BattleState::Registration => self.players.len() < 2,
            BattleState::Moves => self.players.len() == 2,
            BattleState::Waiting => self.players.len() == 2,
            BattleState::GameIsOver => self.players.len() == 0,
        }
    }

    /// A match that has not begun.
    pub open spec fn initial(tmg_store_id: ActorId) -> BattleView {
        BattleView {
            players: Seq::empty(),
            state: BattleState::Registration,
            current_turn: 0,
            tmg_store_id,
            winner: None,
            steps: 0,
        }
    }

    /// The check made before a registration asks for the owner and the
    /// attributes of its token.
    pub open spec fn registration_check(self) -> Result<(), BattleError> {
        if self.state != BattleState::Registration {
            Err(BattleError::GameAlreadyStarted)
        } else {
            Ok(())
        }
    }

    /// Seats `player` in the next free seat; when this fills the roster the
    /// match enters `Moves` and the first seat comes from an entropy block.
    /// Only a match in `Registration` takes one, and such a match has a free
    /// seat.
    pub open spec fn seat_player(self, player: PlayerView, turn_random: [u8; 32]) -> (
        BattleView,
        Result<usize, BattleError>,
    ) {
        if self.state != BattleState::Registration {
            (self, Err(BattleError::GameAlreadyStarted))
        } else {
            let players = self.players.push(player);
            let next = if players.len() == 2 {
                BattleView {
                    players,
                    state: BattleState::Moves,
                    current_turn: seat_of(turn_random[0]),
                    ..self
                }
            } else {
                BattleView { players, ..self }
            };
            (next, Ok(self.players.len() as usize))
        }
    }

    /// A registration of `tmg_id`, owned by `owner` with `attributes`, once
    /// both are known; the stats come from two entropy blocks and the first
    /// seat, when this fills the roster, from a third.
    pub open spec fn register(
        self,
        tmg_id: ActorId,
        owner: ActorId,
        attributes: Set<AttributeId>,
        energy_random: [u8; 32],
        power_random: [u8; 32],
        turn_random: [u8; 32],
    ) -> (BattleView, Result<BattleEvent, BattleError>) {
        let player = PlayerView {
            owner,
            tmg_id,
            energy: stat_of(energy_random[0], energy_random[1]),
            power: stat_of(power_random[0], power_random[1]),
            attributes,
        };
        let (next, r) = self.seat_player(player, turn_random);
        match r {
            Ok(_) => (next, Ok(BattleEvent::Registered { tmg_id })),
            Err(e) => (next, Err(e)),
        }
    }

    /// The seat after `turn`.
    pub open spec fn other_seat(turn: u8) -> u8 {
        if turn == 0 {
            1
        } else {
            0
        }
    }

    /// A move by `source`.
    pub open spec fn make_move(self, source: ActorId) -> (BattleView, Result<Reaction, BattleError>)
        recommends
            self.wf(),
    {
        if self.state != BattleState::Moves {
            (self, Err(BattleError::NotMovesState))
        } else {
            let turn = self.current_turn as int;
            let next = BattleView::other_seat(self.current_turn);
            let player = self.players[turn];
            let opponent = self.players[next as int];
            if player.owner != source {
                (self, Err(BattleError::NotYourTurn))
            } else {
                let energy = after_hit(
                    opponent.energy,
                    damage_of(player.power, player.attributes.contains(SWORD_ID)),
                );
                if energy == 0 {
                    (
                        BattleView {
                            players: Seq::empty(),
                            state: BattleState::GameIsOver,
                            winner: Some(player.tmg_id),
                            ..self
                        },
                        Ok(Reaction { reply: BattleEvent::GameIsOver, delayed: None }),
                    )
                } else {
                    let players = self.players.update(
                        next as int,
                        PlayerView { energy, ..opponent },
                    );
                    if self.steps <= MAX_STEPS_FOR_ROUND {
                        (
                            BattleView {
                                players,
                                steps: (self.steps + 1) as u8,
                                current_turn: next,
                                ..self
                            },
                            Ok(Reaction { reply: BattleEvent::MoveMade, delayed: None }),
                        )
                    } else {
                        (
                            BattleView {
                                players,
                                state: BattleState::Waiting,
                                steps: 0,
                                ..self
                            },
                            Ok(
                                Reaction {
                                    reply: BattleEvent::GoToWaitingState,
                                    delayed: Some(BattleAction::UpdateInfo),
                                },
                            ),
                        )
                    }
                }
            }
        }
    }

    /// The check made before a refresh asks for the attributes of both
    /// participants.
    pub open spec fn refresh_check(self, source: ActorId, program_id: ActorId) -> Result<
        (),
        BattleError,
    > {
        if source != program_id {
            Err(BattleError::NotProgramItself)
        } else if self.state != BattleState::Waiting {
            Err(BattleError::NotWaitingState)
        } else {
            Ok(())
        }
    }

    /// A refresh from `source` once the attributes of seats 0 and 1 are
    /// known; the seat that moves next comes from an entropy block.
    pub open spec fn update_info(
        self,
        source: ActorId,
        program_id: ActorId,
        first: Set<AttributeId>,
        second: Set<AttributeId>,
        turn_random: [u8; 32],
    ) -> (BattleView, Result<BattleEvent, BattleError>)
        recommends
            self.wf(),
    {
        match self.refresh_check(source, program_id) {
            Err(e) => (self, Err(e)),
            Ok(_) => (
                BattleView {
                    players: seq![
                        PlayerView { attributes: first, ..self.players[0] },
                        PlayerView { attributes: second, ..self.players[1] },
                    ],
                    state: BattleState::Moves,
                    current_turn: seat_of(turn_random[0]),
                    ..self
                },
                Ok(BattleEvent::InfoUpdated),
            ),
        }
    }
}

/// The match: its roster, phase, turn cursor and result.
pub struct Battle {
    players: Vec<Player>,
    state: BattleState,
    current_turn: u8,
    tmg_store_id: ActorId,
    winner: Option<ActorId>,
    steps: u8,
}

impl View for Battle {
    type V = BattleView;

    closed spec fn view(&self) -> BattleView {
        BattleView {
            players: self.players@.map_values(|p: Player| p@),
            state: self.state,
            current_turn: self.current_turn,
            tmg_store_id: self.tmg_store_id,
            winner: self.winner,
            steps: self.steps,
        }
    }
}

impl Battle {
    /// A match that has not begun, whose participants' attributes are kept
    /// by the store at `tmg_store_id`.
    pub fn new(tmg_store_id: ActorId) -> (r: Battle)
        ensures
            r@ == BattleView::initial(tmg_store_id),
            r@.wf(),
    {
        let r = Battle {
            players: Vec::new(),
            state: BattleState::Registration,
            current_turn: 0,
            tmg_store_id,
            winner: None,
            steps: 0,
        };
        assert(r@.players =~= Seq::<PlayerView>::empty());
        r
    }

    /// Whether a registration may ask for the owner and attributes of its
    /// token now.
    pub fn can_register(&self) -> (r: Result<(), BattleError>)
        ensures
            r == self@.registration_check(),
    {
        if self.state != BattleState::Registration {
            Err(BattleError::GameAlreadyStarted)
        } else {
            Ok(())
        }
    }

    /// Admits `tmg_id` once its owner and attributes are known. The state is
    /// checked again here, since another registration may have filled the
    /// roster while these were fetched.
    pub fn register(
        &mut self,
        tmg_id: ActorId,
        owner: ActorId,
        attributes: BTreeSet<AttributeId>,
        energy_random: &[u8; 32],
        power_random: &[u8; 32],
        turn_random: &[u8; 32],
    ) -> (r: Result<BattleEvent, BattleError>)
        requires
            old(self)@.wf(),
        ensures
            (final(self)@, r) == old(self)@.register(
                tmg_id,
                owner,
                attributes@,
                *energy_random,
                *power_random,
                *turn_random,
            ),
            final(self)@.wf(),
    {
        let player = Player {
            owner,
            tmg_id,
            energy: generate_power(energy_random),
            power: generate_power(power_random),
            attributes,
        };
        match self.seat_player(player, turn_random) {
            Ok(_) => Ok(BattleEvent::Registered { tmg_id }),
            Err(e) => Err(e),
        }
    }

    /// Seats a participant whose record is complete and returns its seat;
    /// filling the roster starts the match with the seat drawn from
    /// `turn_random`.
    pub fn seat_player(&mut self, player: Player, turn_random: &[u8; 32]) -> (r: Result<
        usize,
        BattleError,
    >)
        requires
            old(self)@.wf(),
        ensures
            (final(self)@, r) == old(self)@.seat_player(player@, *turn_random),
            final(self)@.wf(),
    {
        if self.state != BattleState::Registration {
            return Err(BattleError::GameAlreadyStarted);
        }
        let seat = self.players.len();
        let ghost seated = player@;
        self.players.push(player);
        assert(self@.players =~= old(self)@.players.push(seated));
        if self.players.len() == 2 {
            self.current_turn = get_turn(turn_random);
            self.state = BattleState::Moves;
        }
        Ok(seat)
    }

    /// A move by `source`: the active seat hits the other one. A defeat ends
    /// the match; otherwise the turn passes, or after the last move of a
    /// cycle the match waits for a refresh that the caller schedules.
    pub fn make_move(&mut self, source: ActorId) -> (r: Result<Reaction, BattleError>)
        requires
            old(self)@.wf(),
        ensures
            (final(self)@, r) == old(self)@.make_move(source),
            final(self)@.wf(),
    {
        if self.state != BattleState::Moves {
            return Err(BattleError::NotMovesState);
        }
        let turn: usize = self.current_turn as usize;
        let next: usize = if turn == 0 {
            1
        } else {
            0
        };
        if !self.players[turn].owner.same_as(&source) {
            return Err(BattleError::NotYourTurn);
        }
        let has_weapon = self.players[turn].attributes.contains(&SWORD_ID);
        let energy = resolve_move(self.players[turn].power, has_weapon, self.players[next].energy);
        if energy == 0 {
            let winner = self.players[turn].tmg_id;
            self.players = Vec::new();
            self.state = BattleState::GameIsOver;
            self.winner = Some(winner);
            assert(self@.players =~= Seq::<PlayerView>::empty());
            return Ok(Reaction { reply: BattleEvent::GameIsOver, delayed: None });
        }
        let opponent = Player {
            owner: self.players[next].owner,
            tmg_id: self.players[next].tmg_id,
            energy,
            power: self.players[next].power,
            attributes: self.players[next].attributes.clone(),
        };
        let ghost hit = opponent@;
        self.players.set(next, opponent);
        assert(self@.players =~= old(self)@.players.update(next as int, hit));
        if self.steps <= MAX_STEPS_FOR_ROUND {
            self.steps = self.steps + 1;
            self.current_turn = next as u8;
            Ok(Reaction { reply: BattleEvent::MoveMade, delayed: None })
        } else {
            self.state = BattleState::Waiting;
            self.steps = 0;
            Ok(Reaction { reply: BattleEvent::GoToWaitingState, delayed: Some(BattleAction::UpdateInfo) })
        }
    }

    /// Whether a refresh from `source` may ask for the participants'
    /// attributes now.
    pub fn check_update_info(&self, source: ActorId, program_id: ActorId) -> (r: Result<
        (),
        BattleError,
    >)
        ensures
            r == self@.refresh_check(source, program_id),
    {
        if !source.same_as(&program_id) {
            Err(BattleError::NotProgramItself)
        } else if self.state != BattleState::Waiting {
            Err(BattleError::NotWaitingState)
        } else {
            Ok(())
        }
    }

    /// Completes a refresh from `source` with the attributes fetched for
    /// seats 0 and 1, and draws the seat that moves next.
    pub fn update_info(
        &mut self,
        source: ActorId,
        program_id: ActorId,
        first: BTreeSet<AttributeId>,
        second: BTreeSet<AttributeId>,
        turn_random: &[u8; 32],
    ) -> (r: Result<BattleEvent, BattleError>)
        requires
            old(self)@.wf(),
        ensures
            (final(self)@, r) == old(self)@.update_info(
                source,
                program_id,
                first@,
                second@,
                *turn_random,
            ),
            final(self)@.wf(),
    {
        if let Err(e) = self.check_update_info(source, program_id) {
            return Err(e);
        }
        let p0 = Player {
            owner: self.players[0].owner,
            tmg_id: self.players[0].tmg_id,
            energy: self.players[0].energy,
            power: self.players[0].power,
            attributes: first,
        };
        let p1 = Player {
            owner: self.players[1].owner,
            tmg_id: self.players[1].tmg_id,
            energy: self.players[1].energy,
            power: self.players[1].power,
            attributes: second,
        };
        let ghost fresh = seq![p0@, p1@];
        self.players.set(0, p0);
        self.players.set(1, p1);
        assert(self@.players =~= fresh);
        assert(fresh =~= seq![
            PlayerView { attributes: first@, ..old(self)@.players[0] },
            PlayerView { attributes: second@, ..old(self)@.players[1] },
        ]);
        self.state = BattleState::Moves;
        self.current_turn = get_turn(turn_random);
        Ok(BattleEvent::InfoUpdated)
    }

    pub fn state(&self) -> (r: BattleState)
        ensures
            r == self@.state,
    {
        self.state
    }

    /// The seat whose owner moves next.
    pub fn current_turn(&self) -> (r: u8)
        ensures
            r == self@.current_turn,
    {
        self.current_turn
    }

    /// The survived moves of the current cycle.
    pub fn steps(&self) -> (r: u8)
        ensures
            r == self@.steps,
    {
        self.steps
    }

    /// The token of the participant that won, once the match is over.
    pub fn winner(&self) -> (r: Option<ActorId>)
        ensures
            r == self@.winner,
    {
        self.winner
    }

    pub fn tmg_store_id(&self) -> (r: ActorId)
        ensures
            r == self@.tmg_store_id,
    {
        self.tmg_store_id
    }

    /// The number of occupied seats.
    pub fn players_len(&self) -> (r: usize)
        ensures
            r == self@.players.len(),
    {
        self.players.len()
    }

    /// The participant in `seat`.
    pub fn player(&self, seat: usize) -> (r: &Player)
        requires
            seat < self@.players.len(),
        ensures
            r@ == self@.players[seat as int],
    {
        &self.players[seat]
    }
}

} // verus!
