use vstd::prelude::*;
use crate::fallback::{fallback_action, fallback_exists, fallback_spec, lemma_fallback_cases};
use crate::model::{seat_after, Action, Reaction, Seat, Tile, TileSet37};
use crate::observation::{RoundContext, RoundId, WALL_SIZE};

verus! {

/// Number of seats that react to each action.
pub const NUM_REACTORS: u8 = 3;

/// Where a turn stands.
#[derive(Clone, Copy, PartialEq, Eq, Structural, Debug)]
pub enum Stage {
    /// Waiting for the active seat's agent to choose an action.
    AwaitingAction,
    /// The action was handed to the authority; `is_fallback` tells whether it is the substitute
    /// for a refused one.
    ActionSubmitted { action: Action, is_fallback: bool },
    /// Waiting for the `k`-th reacting seat's agent to choose a reaction.
    AwaitingReaction { action: Action, k: u8 },
    /// The `k`-th reacting seat's reaction was handed to the authority.
    ReactionSubmitted { action: Action, k: u8, reaction: Reaction },
    /// Every reaction is settled; waiting for the authority to advance by one step.
    Advancing { action: Action },
    /// The turn is over.
    Done,
    /// The turn cannot go on: the fallback was refused or did not exist, or an event came out
    /// of order.
    Aborted,
}

/// What happened since the last command.
pub enum Event {
    /// The active seat's agent chose an action.
    ActionDecided(Action),
    /// The authority accepted the submitted action.
    ActionAccepted,
    /// The authority refused the submitted action; the active seat's drawn tile and closed hand
    /// as the authority holds them.
    ActionRejected { draw: Option<Tile>, hand: TileSet37 },
    /// The asked seat's agent chose a reaction, or none.
    ReactionDecided(Option<Reaction>),
    /// The authority accepted the submitted reaction.
    ReactionAccepted,
    /// The authority refused the submitted reaction.
    ReactionRejected,
    /// The authority advanced by one step.
    Advanced,
}

/// What the driver must do next.
#[derive(Clone, Copy, PartialEq, Eq, Structural, Debug)]
pub enum Command {
    /// Ask the seat's agent for its action.
    AskAction(Seat),
    /// Hand the action to the authority.
    SubmitAction(Action),
    /// Ask the seat's agent for its reaction to the action.
    AskReaction { seat: Seat, action: Action },
    /// Hand the seat's reaction to the authority.
    SubmitReaction { seat: Seat, reaction: Reaction },
    /// Have the authority advance by one step.
    Advance,
    /// The turn is over.
    EndTurn,
    /// Stop the round: the authority or the driver broke an invariant.
    Abort,
}

/// What a turn records of the authority's verdicts, in order.
#[derive(Clone, Copy, PartialEq, Eq, Structural, Debug)]
pub enum Record {
    ActionAccepted(Action),
    ActionRejected(Action),
    ReactionAccepted(Seat, Reaction),
    ReactionRejected(Seat, Reaction),
}

/// The `k`-th seat asked to react to `actor`'s action: successor, opposite, then predecessor.
pub open spec fn reaction_seat(actor: Seat, k: u8) -> Seat {
    Seat { index: seat_after(actor.index, (k + 1) as u8) }
}

/// Ask the next reacting seat after the `k`-th, or have the authority advance after the last.
pub open spec fn after_reaction(actor: Seat, action: Action, k: u8) -> (Stage, Command) {
    if k + 1 < NUM_REACTORS {
        (
            Stage::AwaitingReaction { action, k: (k + 1) as u8 },
            Command::AskReaction { seat: reaction_seat(actor, (k + 1) as u8), action },
        )
    } else {
        (Stage::Advancing { action }, Command::Advance)
    }
}

/// The next stage and command of a turn of `actor` at `stage` on event `ev`.
pub open spec fn transition(actor: Seat, stage: Stage, ev: Event) -> (Stage, Command) {
    match (stage, ev) {
        (Stage::AwaitingAction, Event::ActionDecided(a)) => (
            Stage::ActionSubmitted { action: a, is_fallback: false },
            Command::SubmitAction(a),
        ),
        (Stage::ActionSubmitted { action, is_fallback: _ }, Event::ActionAccepted) => (
            Stage::AwaitingReaction { action, k: 0 },
            Command::AskReaction { seat: reaction_seat(actor, 0), action },
        ),
        (Stage::ActionSubmitted { action: _, is_fallback }, Event::ActionRejected { draw, hand }) => {
            if is_fallback {
                (Stage::Aborted, Command::Abort)
            } else {
                match fallback_spec(draw, hand@) {
                    Some(f) => (Stage::ActionSubmitted { action: f, is_fallback: true }, Command::SubmitAction(f)),
                    None => (Stage::Aborted, Command::Abort),
                }
            }
        },
        (Stage::AwaitingReaction { action, k }, Event::ReactionDecided(choice)) => match choice {
            Some(reaction) => (
                Stage::ReactionSubmitted { action, k, reaction },
                Command::SubmitReaction { seat: reaction_seat(actor, k), reaction },
            ),
            None => after_reaction(actor, action, k),
        },
        (Stage::ReactionSubmitted { action, k, reaction: _ }, Event::ReactionAccepted) => after_reaction(
            actor,
            action,
            k,
        ),
        (Stage::ReactionSubmitted { action, k, reaction: _ }, Event::ReactionRejected) => after_reaction(
            actor,
            action,
            k,
        ),
        (Stage::Advancing { action: _ }, Event::Advanced) => (Stage::Done, Command::EndTurn),
        _ => (Stage::Aborted, Command::Abort),
    }
}

/// What a verdict at `stage` adds to the record of the turn.
pub open spec fn record_of(actor: Seat, stage: Stage, ev: Event) -> Seq<Record> {
    match (stage, ev) {
        (Stage::ActionSubmitted { action, is_fallback: _ }, Event::ActionAccepted) => seq![
            Record::ActionAccepted(action),
        ],
        (Stage::ActionSubmitted { action, is_fallback: _ }, Event::ActionRejected { draw: _, hand: _ }) => seq![
            Record::ActionRejected(action),
        ],
        (Stage::ReactionSubmitted { action: _, k, reaction }, Event::ReactionAccepted) => seq![
            Record::ReactionAccepted(reaction_seat(actor, k), reaction),
        ],
        (Stage::ReactionSubmitted { action: _, k, reaction }, Event::ReactionRejected) => seq![
            Record::ReactionRejected(reaction_seat(actor, k), reaction),
        ],
        _ => Seq::empty(),
    }
}

impl Stage {
    pub open spec fn wf(self) -> bool {
        match self {
            Stage::AwaitingReaction { action: _, k } => k < NUM_REACTORS,
            Stage::ReactionSubmitted { action: _, k, reaction: _ } => k < NUM_REACTORS,
            _ => true,
        }
    }
}

/// One turn of the round: the active seat's action, the other seats' reactions in fixed order,
/// then one step of the authority.
pub struct Turn {
    pub actor: Seat,
    pub stage: Stage,
    /// The authority's verdicts so far, in order.
    pub log: Vec<Record>,
}

impl Turn {
    pub open spec fn wf(&self) -> bool {
        self.actor.wf() && self.stage.wf()
    }

    /// Starts the turn of `actor`: its agent is asked for an action first.
    pub fn new(actor: Seat) -> (r: (Turn, Command))
        requires
            actor.wf(),
        ensures
            r.0.wf(),
            r.0.actor == actor,
            r.0.stage == Stage::AwaitingAction,
            r.0.log@ == Seq::<Record>::empty(),
            r.1 == Command::AskAction(actor),
    {
        (Turn { actor, stage: Stage::AwaitingAction, log: Vec::new() }, Command::AskAction(actor))
    }

    fn reaction_seat(&self, k: u8) -> (r: Seat)
        requires
            self.wf(),
            k < NUM_REACTORS,
        ensures
            r == reaction_seat(self.actor, k),
    {
        self.actor.add(k + 1)
    }

    fn after_reaction(&self, action: Action, k: u8) -> (r: (Stage, Command))
        requires
            self.wf(),
            k < NUM_REACTORS,
        ensures
            r == after_reaction(self.actor, action, k),
            r.0.wf(),
    {
        if k + 1 < NUM_REACTORS {
            (
                Stage::AwaitingReaction { action, k: k + 1 },
                Command::AskReaction { seat: self.reaction_seat(k + 1), action },
            )
        } else {
            (Stage::Advancing { action }, Command::Advance)
        }
    }

    /// Takes in what happened and says what to do next, by `transition`; verdicts of the
    /// authority are appended to the log.
    pub fn step(&mut self, ev: Event) -> (r: Command)
        requires
            old(self).wf(),
        ensures
            final(self).wf(),
            final(self).actor == old(self).actor,
            (final(self).stage, r) == transition(old(self).actor, old(self).stage, ev),
            final(self).log@ == old(self).log@ + record_of(old(self).actor, old(self).stage, ev),
    {
        let ghost ev0 = ev;
        let ghost log0 = self.log@;
        let (stage, cmd) = match (self.stage, ev) {
            (Stage::AwaitingAction, Event::ActionDecided(a)) => (
                Stage::ActionSubmitted { action: a, is_fallback: false },
                Command::SubmitAction(a),
            ),
            (Stage::ActionSubmitted { action, is_fallback: _ }, Event::ActionAccepted) => {
                self.log.push(Record::ActionAccepted(action));
                (
                    Stage::AwaitingReaction { action, k: 0 },
                    Command::AskReaction { seat: self.reaction_seat(0), action },
                )
            },
            (Stage::ActionSubmitted { action, is_fallback }, Event::ActionRejected { draw, hand }) => {
                self.log.push(Record::ActionRejected(action));
                if is_fallback || !fallback_exists(draw, &hand) {
                    proof {
                        lemma_fallback_cases(draw, hand@);
                    }
                    (Stage::Aborted, Command::Abort)
                } else {
                    let f = fallback_action(draw, &hand);
                    (Stage::ActionSubmitted { action: f, is_fallback: true }, Command::SubmitAction(f))
                }
            },
            (Stage::AwaitingReaction { action, k }, Event::ReactionDecided(choice)) => match choice {
                Some(reaction) => (
                    Stage::ReactionSubmitted { action, k, reaction },
                    Command::SubmitReaction { seat: self.reaction_seat(k), reaction },
                ),
                None => self.after_reaction(action, k),
            },
            (Stage::ReactionSubmitted { action, k, reaction }, Event::ReactionAccepted) => {
                let next = self.after_reaction(action, k);
                self.log.push(Record::ReactionAccepted(self.reaction_seat(k), reaction));
                next
            },
            (Stage::ReactionSubmitted { action, k, reaction }, Event::ReactionRejected) => {
                let next = self.after_reaction(action, k);
                self.log.push(Record::ReactionRejected(self.reaction_seat(k), reaction));
                next
            },
            (Stage::Advancing { action: _ }, Event::Advanced) => (Stage::Done, Command::EndTurn),
            _ => (Stage::Aborted, Command::Abort),
        };
        self.stage = stage;
        proof {
            assert(self.log@ =~= log0 + record_of(self.actor, old(self).stage, ev0));
        }
        cmd
    }
}

/// How a round ended, as far as the next round depends on it.
pub struct RoundEnd {
    pub pot: i64,
    pub points: [i64; 4],
    /// The next round, or `None` when the match is over.
    pub next_round_id: Option<RoundId>,
}

/// The next round's configuration: the scheduled round, on the fresh `wall`, with the pot and the
/// points carried over. `None` when the match is over.
pub fn next_round(end: &RoundEnd, wall: Vec<Tile>) -> (r: Option<RoundContext>)
    requires
        wall@.len() == WALL_SIZE,
    ensures
        end.next_round_id is None ==> r is None,
        end.next_round_id matches Some(id) ==> (r matches Some(c) && c.round_id == id && c.pot == end.pot
            && c.points == end.points && c.wall@ == wall@ && c.wf()),
{
    match end.next_round_id {
        Some(id) => Some(RoundContext { round_id: id, wall, pot: end.pot, points: end.points }),
        None => None,
    }
}

/// The `k`-th reacting seat is asked about `action` only right after the action was accepted
/// (for the first) or right after the previous seat's reaction was settled.
pub open spec fn asked_after(stage: Stage, action: Action, k: u8) -> bool {
    if k == 0 {
        stage matches Stage::ActionSubmitted { action: b, is_fallback: _ } && b == action
    } else {
        ||| (stage matches Stage::AwaitingReaction { action: b, k: j } && b == action && j + 1 == k)
        ||| (stage matches Stage::ReactionSubmitted { action: b, k: j, reaction: _ } && b == action && j + 1 == k)
    }
}

/// The last reacting seat's reaction is being settled at `stage`.
pub open spec fn settled_last(stage: Stage) -> bool {
    ||| (stage matches Stage::AwaitingReaction { action: _, k } && k + 1 == NUM_REACTORS)
    ||| (stage matches Stage::ReactionSubmitted { action: _, k, reaction: _ } && k + 1 == NUM_REACTORS)
}

/// Reactions are asked of the successor, then the opposite seat, then the predecessor: the first
/// only once the action is accepted, each next one only once the previous seat's reaction is
/// settled, and the authority advances only after the last.
pub proof fn lemma_reaction_order(actor: Seat, stage: Stage, ev: Event)
    requires
        actor.wf(),
        stage.wf(),
    ensures
        reaction_seat(actor, 0).index == seat_after(actor.index, 1),
        reaction_seat(actor, 1).index == seat_after(actor.index, 2),
        reaction_seat(actor, 2).index == seat_after(actor.index, 3),
        ({
            let (next, cmd) = transition(actor, stage, ev);
            cmd matches Command::AskReaction { seat, action } ==> (next matches Stage::AwaitingReaction {
                action: a,
                k,
            } && a == action && seat == reaction_seat(actor, k) && asked_after(stage, action, k))
        }),
        ({
            let (next, cmd) = transition(actor, stage, ev);
            cmd matches Command::SubmitReaction { seat, reaction: _ } ==> (stage matches Stage::AwaitingReaction {
                action: _,
                k,
            } && seat == reaction_seat(actor, k))
        }),
        transition(actor, stage, ev).1 is Advance ==> settled_last(stage),
{
}

/// A refused action is replaced by the fallback once: the first refusal submits the fallback,
/// marked as such, when one exists; a refusal of the fallback, or a refusal with no fallback,
/// ends the turn. No stage submits a third action.
pub proof fn lemma_single_fallback(actor: Seat, action: Action, is_fallback: bool, draw: Option<Tile>, hand: TileSet37)
    ensures
        ({
            let (next, cmd) = transition(
                actor,
                Stage::ActionSubmitted { action, is_fallback },
                Event::ActionRejected { draw, hand },
            );
            &&& is_fallback ==> next == Stage::Aborted && cmd == Command::Abort
            &&& !is_fallback ==> match fallback_spec(draw, hand@) {
                Some(f) => next == (Stage::ActionSubmitted { action: f, is_fallback: true }) && cmd
                    == Command::SubmitAction(f),
                None => next == Stage::Aborted && cmd == Command::Abort,
            }
            &&& record_of(actor, Stage::ActionSubmitted { action, is_fallback }, Event::ActionRejected { draw, hand })
                == seq![Record::ActionRejected(action)]
        }),
{
}

/// A refused reaction is dropped: the turn goes on exactly as if it had been accepted, and it is
/// not submitted again.
pub proof fn lemma_rejected_reaction_dropped(actor: Seat, action: Action, k: u8, reaction: Reaction)
    ensures
        ({
            let stage = Stage::ReactionSubmitted { action, k, reaction };
            let (next, cmd) = transition(actor, stage, Event::ReactionRejected);
            &&& (next, cmd) == transition(actor, stage, Event::ReactionAccepted)
            &&& !(cmd is SubmitReaction)
            &&& !(cmd is SubmitAction)
            &&& record_of(actor, stage, Event::ReactionRejected) == seq![
                Record::ReactionRejected(reaction_seat(actor, k), reaction),
            ]
        }),
{
}

/// How far a turn has come: every event that neither ends nor aborts the turn moves it strictly
/// further, up to the end.
pub open spec fn stage_rank(stage: Stage) -> int {
    match stage {
        Stage::AwaitingAction => 0,
        Stage::ActionSubmitted { action: _, is_fallback } => if is_fallback {
            2
        } else {
            1
        },
        Stage::AwaitingReaction { action: _, k } => 3 + 2 * k,
        Stage::ReactionSubmitted { action: _, k, reaction: _ } => 4 + 2 * k,
        Stage::Advancing { action: _ } => 9,
        Stage::Done => 10,
        Stage::Aborted => 10,
    }
}

/// A turn ends: from any stage that is not over, each event either aborts the turn or moves it to
/// a stage of higher rank, and ranks are bounded, so a turn is over after at most eleven events.
pub proof fn lemma_turn_progress(actor: Seat, stage: Stage, ev: Event)
    requires
        stage.wf(),
    ensures
        0 <= stage_rank(stage) <= 10,
        !(stage is Done || stage is Aborted) ==> (transition(actor, stage, ev).0 is Aborted || stage_rank(
            transition(actor, stage, ev).0,
        ) > stage_rank(stage)),
        transition(actor, stage, ev).0.wf(),
{
}

} // verus!
