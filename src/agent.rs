use vstd::prelude::*;
use crate::fallback::{fallback_action, fallback_exists, fallback_spec, lemma_fallback_cases};
use crate::model::{held, normal_code, Action, Discard, Reaction, Seat, Tile};
use crate::observation::PlayerInformation;
use crate::strategies::Strategy;
use crate::utils::Named;

verus! {

/// Information required to decide how a player should react to the active seat's action.
pub struct PlayerReactionInformation {
    pub player_information: PlayerInformation,
    pub reactor: Seat,
    pub action: Action,
}

/// A strategy that chooses the active seat's action.
pub trait ActionStrategy: Strategy<PlayerInformation, Action> {

}

impl<T: Strategy<PlayerInformation, Action>> ActionStrategy for T {

}

/// A strategy that chooses a reaction, or none, to another seat's action.
pub trait ReactionStrategy: Strategy<PlayerReactionInformation, Option<Reaction>> {

}

impl<T: Strategy<PlayerReactionInformation, Option<Reaction>>> ReactionStrategy for T {

}

/// A full agent: it acts on its own turns and reacts on the others'.
pub trait MahjongAgent: ActionStrategy + ReactionStrategy {

}

impl<T: ActionStrategy + ReactionStrategy> MahjongAgent for T {

}

/// The discard of the drawn tile at once, the only discard open to a seat under a ready lock.
pub open spec fn forced_discard(t: Tile, actor: Seat) -> Action {
    Action::Discard(Discard { tile: t, called_by: actor, declares_riichi: false, is_tsumogiri: true })
}

/// The active seat holds a ready lock.
pub open spec fn is_locked(info: PlayerInformation) -> bool {
    info.riichi[(info.actor.index % 4) as int] is Some
}

/// The discard path: the picked discard, declaring ready only where that is legal and approved.
pub open spec fn discard_outcome(info: PlayerInformation, riichi_vote: bool, pick: Discard) -> Action {
    Action::Discard(Discard { declares_riichi: info.legal.riichi && riichi_vote, ..pick })
}

/// The turn action that the composite engine settles on, given what each role answered:
/// a legal and approved win first, then the forced discard under a ready lock, then a legal and
/// approved quad (concealed when the hand holds the drawn tile's kind, promoted otherwise), and
/// else the picked discard.
pub open spec fn turn_outcome(
    info: PlayerInformation,
    tsumo_vote: bool,
    kan_vote: bool,
    riichi_vote: bool,
    pick: Discard,
) -> Action {
    match info.draw {
        Some(t) => if info.legal.tsumo && tsumo_vote {
            Action::TsumoAgari(t)
        } else if is_locked(info) {
            forced_discard(t, info.actor)
        } else if info.legal.kan && kan_vote {
            if held(info.closed_hand@, normal_code(t.code) as int) > 0 {
                Action::Ankan(t)
            } else {
                Action::Kakan(t)
            }
        } else {
            discard_outcome(info, riichi_vote, pick)
        },
        None => discard_outcome(info, riichi_vote, pick),
    }
}

/// The reaction that the composite engine settles on: a legal and approved win claim takes
/// precedence; otherwise whatever the call picker chose.
pub open spec fn reaction_outcome(can_ron: bool, ron_vote: bool, call: Option<Reaction>) -> Option<Reaction> {
    if can_ron && ron_vote {
        Some(Reaction::RonAgari)
    } else {
        call
    }
}

/// The win on the drawn tile is taken: it is legal and the tsumo gate approves.
pub open spec fn takes_tsumo(info: PlayerInformation, tsumo_vote: bool) -> bool {
    info.draw is Some && info.legal.tsumo && tsumo_vote
}

/// The quad gate is consulted: a tile was drawn, no win was taken, no ready lock holds, and a
/// quad is legal.
pub open spec fn consults_kan(info: PlayerInformation, tsumo_vote: bool) -> bool {
    info.draw is Some && !takes_tsumo(info, tsumo_vote) && !is_locked(info) && info.legal.kan
}

/// The turn ends in the discard path: no win, no forced discard and no quad came first.
pub open spec fn on_discard_path(info: PlayerInformation, tsumo_vote: bool, kan_vote: bool) -> bool {
    !(info.draw is Some && (takes_tsumo(info, tsumo_vote) || is_locked(info) || (info.legal.kan && kan_vote)))
}

/// What a seat with neither a drawn tile nor a tile in hand names: the tile of the first
/// encoding, which the authority refuses, so that the turn ends on its fatal path.
pub open spec fn no_fallback_discard() -> Action {
    Action::Discard(
        Discard { tile: Tile { code: 0 }, called_by: Seat { index: 0 }, declares_riichi: false, is_tsumogiri: true },
    )
}

/// Really simple player: never reacts, and always plays the fallback action (the drawn tile
/// discarded at once, or the first tile in hand).
pub struct VeryStupid;

impl VeryStupid {
    /// The fallback action for the observing seat's draw and hand, if there is one.
    pub fn decide_action(&mut self, player_info: &PlayerInformation) -> (r: Option<Action>)
        ensures
            r == fallback_spec(player_info.draw, player_info.closed_hand@),
    {
        if fallback_exists(player_info.draw, &player_info.closed_hand) {
            Some(fallback_action(player_info.draw, &player_info.closed_hand))
        } else {
            proof {
                lemma_fallback_cases(player_info.draw, player_info.closed_hand@);
            }
            None
        }
    }
}

impl Strategy<PlayerInformation, Action> for VeryStupid {
    /// The fallback action, or `no_fallback_discard` where no fallback exists.
    open spec fn answer(&self, player_info: PlayerInformation) -> Action {
        match fallback_spec(player_info.draw, player_info.closed_hand@) {
            Some(a) => a,
            None => no_fallback_discard(),
        }
    }

    fn decide(&mut self, player_info: &PlayerInformation) -> (r: Action) {
        match self.decide_action(player_info) {
            Some(a) => a,
            None => Action::Discard(
                Discard { tile: Tile { code: 0 }, called_by: Seat::new(0), declares_riichi: false, is_tsumogiri: true },
            ),
        }
    }
}

impl Strategy<PlayerReactionInformation, Option<Reaction>> for VeryStupid {
    /// Never reacts.
    open spec fn answer(&self, state: PlayerReactionInformation) -> Option<Reaction> {
        None
    }

    fn decide(&mut self, _state: &PlayerReactionInformation) -> (r: Option<Reaction>) {
        None
    }
}

impl Named for VeryStupid {
    open spec fn name_spec() -> Seq<char> {
        "VeryStupid"@
    }

    fn name(&self) -> (r: String) {
        proof {
            reveal_strlit("VeryStupid");
        }
        String::from_str("VeryStupid")
    }
}

/// An agent assembled from one strategy per decision role.
pub struct Modular<R, D, K, T, Rn, C> {
    /// Decides whether to declare ready.
    pub riichi: R,
    /// Picks the discard.
    pub discard: D,
    /// Decides whether to form a quad.
    pub kan: K,
    /// Decides whether to take a win on the drawn tile.
    pub tsumo: T,
    /// Decides whether to claim a win on another seat's tile.
    pub ron: Rn,
    /// Picks a call on another seat's tile, or none. Unlike the other roles, it is consulted even
    /// when no call is possible.
    pub call: C,
}

/// Assembles an agent from its role strategies.
pub fn modular<R, D, K, T, Rn, C>(riichi: R, discard: D, kan: K, tsumo: T, ron: Rn, call: C) -> (r: Modular<R, D, K, T, Rn, C>)
    where
        R: Strategy<PlayerInformation, bool>,
        D: Strategy<PlayerInformation, Discard>,
        K: Strategy<PlayerInformation, bool>,
        T: Strategy<PlayerInformation, bool>,
        Rn: Strategy<PlayerReactionInformation, bool>,
        C: Strategy<PlayerReactionInformation, Option<Reaction>>,
    ensures
        r.riichi == riichi,
        r.discard == discard,
        r.kan == kan,
        r.tsumo == tsumo,
        r.ron == ron,
        r.call == call,
{
    Modular { riichi, discard, kan, tsumo, ron, call }
}

impl<R, D, K, T, Rn, C> Modular<R, D, K, T, Rn, C> where
    R: Strategy<PlayerInformation, bool>,
    D: Strategy<PlayerInformation, Discard>,
    K: Strategy<PlayerInformation, bool>,
    T: Strategy<PlayerInformation, bool>,
    Rn: Strategy<PlayerReactionInformation, bool>,
    C: Strategy<PlayerReactionInformation, Option<Reaction>>,
 {
    /// The turn action that the roles, as they stand, settle on.
    pub open spec fn action_answer(&self, state: PlayerInformation) -> Action {
        turn_outcome(
            state,
            self.tsumo.answer(state),
            self.kan.answer(state),
            self.riichi.answer(state),
            self.discard.answer(state),
        )
    }

    /// The reaction that the roles, as they stand, settle on.
    pub open spec fn reaction_answer(&self, pri: PlayerReactionInformation) -> Option<Reaction> {
        reaction_outcome(pri.player_information.legal.ron, self.ron.answer(pri), self.call.answer(pri))
    }

    /// Resolves the turn action by the fixed priority of `turn_outcome`, over what each role
    /// answers. A role is consulted only where its decision can matter, a gate only where the
    /// authority holds its decision legal; a role not consulted is left as it was.
    pub fn decide_action(&mut self, state: &PlayerInformation) -> (r: Action)
        ensures
            r == old(self).action_answer(*state),
            !(state.draw is Some && state.legal.tsumo) ==> final(self).tsumo == old(self).tsumo,
            !consults_kan(*state, old(self).tsumo.answer(*state)) ==> final(self).kan == old(self).kan,
            !(on_discard_path(*state, old(self).tsumo.answer(*state), old(self).kan.answer(*state))
                && state.legal.riichi) ==> final(self).riichi == old(self).riichi,
            !on_discard_path(*state, old(self).tsumo.answer(*state), old(self).kan.answer(*state))
                ==> final(self).discard == old(self).discard,
            final(self).ron == old(self).ron,
            final(self).call == old(self).call,
    {
        if let Some(draw) = state.draw {
            if state.legal.tsumo && self.tsumo.decide(state) {
                return Action::TsumoAgari(draw);
            }
            if state.riichi[(state.actor.index % 4) as usize].is_some() {
                return Action::Discard(
                    Discard { tile: draw, called_by: state.actor, declares_riichi: false, is_tsumogiri: true },
                );
            }
            if state.legal.kan && self.kan.decide(state) {
                return if state.closed_hand.get(draw.normal_encoding() as usize) > 0 {
                    Action::Ankan(draw)
                } else {
                    Action::Kakan(draw)
                };
            }
        }
        let riichi_vote = state.legal.riichi && self.riichi.decide(state);
        let mut d = self.discard.decide(state);
        d.declares_riichi = riichi_vote;
        Action::Discard(d)
    }

    /// Resolves the reaction: a legal win claim that the ron gate approves, else the call
    /// picker's choice. The ron gate is consulted only where the claim is legal, and the call
    /// picker only where no claim was made.
    pub fn decide_reaction(&mut self, pri: &PlayerReactionInformation) -> (r: Option<Reaction>)
        ensures
            r == old(self).reaction_answer(*pri),
            !pri.player_information.legal.ron ==> final(self).ron == old(self).ron,
            (pri.player_information.legal.ron && old(self).ron.answer(*pri)) ==> final(self).call == old(self).call,
            final(self).tsumo == old(self).tsumo,
            final(self).kan == old(self).kan,
            final(self).riichi == old(self).riichi,
            final(self).discard == old(self).discard,
    {
        if pri.player_information.legal.ron && self.ron.decide(pri) {
            Some(Reaction::RonAgari)
        } else {
            self.call.decide(pri)
        }
    }
}

impl<R, D, K, T, Rn, C> Named for Modular<R, D, K, T, Rn, C> {
    open spec fn name_spec() -> Seq<char> {
        "Modular"@
    }

    fn name(&self) -> (r: String) {
        proof {
            reveal_strlit("Modular");
        }
        String::from_str("Modular")
    }
}

impl<R, D, K, T, Rn, C> Strategy<PlayerInformation, Action> for Modular<R, D, K, T, Rn, C> where
    R: Strategy<PlayerInformation, bool>,
    D: Strategy<PlayerInformation, Discard>,
    K: Strategy<PlayerInformation, bool>,
    T: Strategy<PlayerInformation, bool>,
    Rn: Strategy<PlayerReactionInformation, bool>,
    C: Strategy<PlayerReactionInformation, Option<Reaction>>,
 {
    /// The turn action by the fixed priority of `turn_outcome` over each role's answer.
    open spec fn answer(&self, state: PlayerInformation) -> Action {
        self.action_answer(state)
    }

    fn decide(&mut self, state: &PlayerInformation) -> (r: Action)
        ensures
            !(state.draw is Some && state.legal.tsumo) ==> final(self).tsumo == old(self).tsumo,
            !consults_kan(*state, old(self).tsumo.answer(*state)) ==> final(self).kan == old(self).kan,
            !(on_discard_path(*state, old(self).tsumo.answer(*state), old(self).kan.answer(*state))
                && state.legal.riichi) ==> final(self).riichi == old(self).riichi,
            !on_discard_path(*state, old(self).tsumo.answer(*state), old(self).kan.answer(*state))
                ==> final(self).discard == old(self).discard,
            final(self).ron == old(self).ron,
            final(self).call == old(self).call,
    {
        self.decide_action(state)
    }
}

impl<R, D, K, T, Rn, C> Strategy<PlayerReactionInformation, Option<Reaction>> for Modular<R, D, K, T, Rn, C> where
    R: Strategy<PlayerInformation, bool>,
    D: Strategy<PlayerInformation, Discard>,
    K: Strategy<PlayerInformation, bool>,
    T: Strategy<PlayerInformation, bool>,
    Rn: Strategy<PlayerReactionInformation, bool>,
    C: Strategy<PlayerReactionInformation, Option<Reaction>>,
 {
    /// A legal, approved win claim, else the call picker's choice.
    open spec fn answer(&self, pri: PlayerReactionInformation) -> Option<Reaction> {
        self.reaction_answer(pri)
    }

    fn decide(&mut self, pri: &PlayerReactionInformation) -> (r: Option<Reaction>)
        ensures
            !pri.player_information.legal.ron ==> final(self).ron == old(self).ron,
            (pri.player_information.legal.ron && old(self).ron.answer(*pri)) ==> final(self).call == old(self).call,
            final(self).tsumo == old(self).tsumo,
            final(self).kan == old(self).kan,
            final(self).riichi == old(self).riichi,
            final(self).discard == old(self).discard,
    {
        self.decide_reaction(pri)
    }
}

/// Under a ready lock, every discard that the composite engine can settle on is the drawn tile,
/// discarded at once without a new declaration; the only other outcome is a legal, approved win.
/// Unless that win is taken, the quad gate, the ready gate and the discard picker have no
/// influence on the result.
pub proof fn lemma_ready_lock_forces_discard(
    info: PlayerInformation,
    tsumo_vote: bool,
    kan_vote: bool,
    riichi_vote: bool,
    pick: Discard,
)
    requires
        info.draw is Some,
        is_locked(info),
    ensures
        ({
            let t = info.draw->Some_0;
            let r = turn_outcome(info, tsumo_vote, kan_vote, riichi_vote, pick);
            &&& r is Discard ==> r == forced_discard(t, info.actor)
            &&& r is Ankan || r is Kakan ==> false
            &&& r is TsumoAgari ==> info.legal.tsumo && tsumo_vote && r == Action::TsumoAgari(t)
            &&& !(info.legal.tsumo && tsumo_vote) ==> r == forced_discard(t, info.actor)
        }),
        forall|kv: bool, rv: bool, p: Discard|
            !(info.legal.tsumo && tsumo_vote) ==> #[trigger] turn_outcome(info, tsumo_vote, kv, rv, p) == turn_outcome(
                info,
                tsumo_vote,
                kan_vote,
                riichi_vote,
                pick,
            ),
{
}

/// A composite agent under a ready lock settles on the drawn tile, discarded at once, unless it
/// takes a legal win; what its quad gate, ready gate and discard picker answer does not matter.
pub proof fn lemma_composite_ready_lock<R, D, K, T, Rn, C>(m: Modular<R, D, K, T, Rn, C>, info: PlayerInformation)
    where
        R: Strategy<PlayerInformation, bool>,
        D: Strategy<PlayerInformation, Discard>,
        K: Strategy<PlayerInformation, bool>,
        T: Strategy<PlayerInformation, bool>,
        Rn: Strategy<PlayerReactionInformation, bool>,
        C: Strategy<PlayerReactionInformation, Option<Reaction>>,
    requires
        info.draw is Some,
        is_locked(info),
        !takes_tsumo(info, m.tsumo.answer(info)),
    ensures
        m.action_answer(info) == forced_discard(info.draw->Some_0, info.actor),
{
}

} // verus!
