use vstd::prelude::*;
use crate::model::{Discard, Seat, Tile, TileSet37};

verus! {

/// Number of tiles in a full wall.
pub const WALL_SIZE: usize = 136;

/// Most bonus-tile indicators a round can reveal.
pub const MAX_DORA_INDICATORS: u8 = 5;

/// Identifies a round: its index with the prevailing wind, and the count of repeats.
#[derive(Clone, Copy, PartialEq, Eq, Structural, Debug)]
pub struct RoundId {
    pub kyoku: u8,
    pub honba: u8,
}

/// A meld, in the authority's packed 16-bit form.
#[derive(Clone, Copy, PartialEq, Eq, Structural, Debug)]
pub struct Meld {
    pub packed: u16,
}

/// Why a seat may not win on another seat's tile.
#[derive(Clone, Copy, PartialEq, Eq, Structural, Debug)]
pub struct FuritenFlags {
    pub by_discard: bool,
    pub miss_temporary: bool,
    pub miss_permanent: bool,
}

/// A seat's standing ready declaration.
#[derive(Clone, Copy, PartialEq, Eq, Structural, Debug)]
pub struct Riichi {
    pub is_double: bool,
    pub is_ippatsu: bool,
}

/// The set of normal tile kinds that a seat has discarded, one bit per kind.
#[derive(Clone, Copy, PartialEq, Eq, Structural, Debug)]
pub struct TileMask34 {
    pub bits: u64,
}

/// Which decisions the authority holds legal for a seat right now.
#[derive(Clone, Copy, PartialEq, Eq, Structural, Debug)]
pub struct Legal {
    /// A win on the drawn tile.
    pub tsumo: bool,
    /// A concealed or promoted quad with the drawn tile.
    pub kan: bool,
    /// A ready declaration with this turn's discard.
    pub riichi: bool,
    /// A win on the tile that the active seat just played.
    pub ron: bool,
}

/// The fixed configuration of a round.
pub struct RoundContext {
    pub round_id: RoundId,
    /// The dealt wall; only read, to reveal bonus-tile indicators.
    pub wall: Vec<Tile>,
    pub pot: i64,
    pub points: [i64; 4],
}

impl RoundContext {
    pub open spec fn wf(&self) -> bool {
        self.wall@.len() == WALL_SIZE
    }
}

/// The small, copyable part of the authority's round state.
#[derive(Clone, Copy)]
pub struct StateCore {
    pub seq: u8,
    pub actor: Seat,
    pub num_drawn_head: u8,
    pub num_drawn_tail: u8,
    pub num_dora_indicators: u8,
    /// The tile that the active seat drew this turn, if any.
    pub draw: Option<Tile>,
    pub incoming_meld: Option<Meld>,
    pub furiten: [FuritenFlags; 4],
    pub riichi: [Option<Riichi>; 4],
    /// What the authority holds legal for each seat.
    pub legal: [Legal; 4],
}

/// The authority's full round state, with every seat's private information.
pub struct State {
    pub core: StateCore,
    pub melds: Vec<Vec<Meld>>,
    pub closed_hands: Vec<TileSet37>,
    pub discards: Vec<Vec<Discard>>,
    pub discard_sets: [TileMask34; 4],
}

impl State {
    pub open spec fn wf(&self) -> bool {
        &&& self.core.actor.wf()
        &&& self.core.num_dora_indicators <= MAX_DORA_INDICATORS
        &&& (self.core.draw matches Some(t) ==> t.wf())
        &&& self.melds@.len() == 4
        &&& self.closed_hands@.len() == 4
        &&& forall|i: int| 0 <= i < 4 ==> (#[trigger] self.closed_hands@[i]).wf()
        &&& self.discards@.len() == 4
    }
}

/// What one seat can see of a round.
pub struct PlayerInformation {
    pub round_id: RoundId,
    pub pot: i64,
    pub points: [i64; 4],
    pub seq: u8,
    pub actor: Seat,
    pub num_drawn_head: u8,
    pub num_drawn_tail: u8,
    pub dora_indicators: Vec<Tile>,
    /// The drawn tile, shown only to the seat that drew it.
    pub draw: Option<Tile>,
    pub incoming_meld: Option<Meld>,
    /// The observing seat's own furiten flags.
    pub furiten: FuritenFlags,
    pub riichi: [Option<Riichi>; 4],
    /// What the authority holds legal for the observing seat.
    pub legal: Legal,
    pub melds: Vec<Vec<Meld>>,
    /// The observing seat's own closed hand.
    pub closed_hand: TileSet37,
    pub discards: Vec<Vec<Discard>>,
    pub discard_sets: [TileMask34; 4],
}

impl PlayerInformation {
    pub open spec fn wf(&self) -> bool {
        &&& self.actor.wf()
        &&& self.closed_hand.wf()
        &&& (self.draw matches Some(t) ==> t.wf())
    }
}

/// Wall position of the `i`-th bonus-tile indicator, first revealed first.
pub open spec fn dora_index(i: int) -> int {
    130 - 2 * i
}

/// The drawn tile as the given seat sees it.
pub open spec fn visible_draw(core: StateCore, seat: Seat) -> Option<Tile> {
    if seat == core.actor {
        core.draw
    } else {
        None
    }
}

/// Two tables of rows hold the same rows.
pub open spec fn same_rows<T>(a: Seq<Vec<T>>, b: Seq<Vec<T>>) -> bool {
    &&& a.len() == b.len()
    &&& forall|i: int| 0 <= i < a.len() ==> (#[trigger] a[i])@ == b[i]@
}

/// `obs` is the view of round `rb` in state `state` for seat `seat`: public fields copied,
/// the draw only for the active seat, furiten, legality and closed hand of `seat` alone, and
/// as many bonus-tile indicators as the state reports revealed, read from the wall.
pub open spec fn is_view_of(state: State, seat: Seat, rb: RoundContext, obs: PlayerInformation) -> bool {
    let s = seat.index as int;
    &&& obs.round_id == rb.round_id
    &&& obs.pot == rb.pot
    &&& obs.points == rb.points
    &&& obs.seq == state.core.seq
    &&& obs.actor == state.core.actor
    &&& obs.num_drawn_head == state.core.num_drawn_head
    &&& obs.num_drawn_tail == state.core.num_drawn_tail
    &&& obs.dora_indicators@.len() == state.core.num_dora_indicators
    &&& forall|i: int|
        0 <= i < obs.dora_indicators@.len() ==> #[trigger] obs.dora_indicators@[i] == rb.wall@[dora_index(i)]
    &&& obs.draw == visible_draw(state.core, seat)
    &&& obs.incoming_meld == state.core.incoming_meld
    &&& obs.furiten == state.core.furiten[s]
    &&& obs.riichi == state.core.riichi
    &&& obs.legal == state.core.legal[s]
    &&& same_rows(obs.melds@, state.melds@)
    &&& obs.closed_hand@ == state.closed_hands@[s]@
    &&& same_rows(obs.discards@, state.discards@)
    &&& obs.discard_sets == state.discard_sets
}

/// The `i`-th bonus-tile indicator of the wall.
pub fn dora_indicator(wall: &Vec<Tile>, i: usize) -> (r: Tile)
    requires
        wall@.len() == WALL_SIZE,
        i < MAX_DORA_INDICATORS,
    ensures
        r == wall@[dora_index(i as int)],
{
    wall[130 - 2 * i]
}

/// A copy of a sequence of plain values.
pub fn copy_row<T: Copy>(v: &Vec<T>) -> (r: Vec<T>)
    ensures
        r@ == v@,
{
    let mut r: Vec<T> = Vec::new();
    let mut i: usize = 0;
    while i < v.len()
        invariant
            i <= v@.len(),
            r@ == v@.subrange(0, i as int),
        decreases v@.len() - i,
    {
        r.push(v[i]);
        i = i + 1;
        proof {
            assert(r@ =~= v@.subrange(0, i as int));
        }
    }
    assert(r@ =~= v@);
    r
}

/// A copy of a table of plain values, row by row.
pub fn copy_table<T: Copy>(v: &Vec<Vec<T>>) -> (r: Vec<Vec<T>>)
    ensures
        same_rows(r@, v@),
{
    let mut r: Vec<Vec<T>> = Vec::new();
    let mut i: usize = 0;
    while i < v.len()
        invariant
            i <= v@.len(),
            r@.len() == i,
            forall|j: int| 0 <= j < i ==> (#[trigger] r@[j])@ == v@[j]@,
        decreases v@.len() - i,
    {
        r.push(copy_row(&v[i]));
        i = i + 1;
    }
    r
}

impl PlayerInformation {
    /// Builds what `player` can see of round `round_begin` in state `state`. The result shares
    /// nothing with the state: every field is a copy.
    pub fn new(state: &State, player: Seat, round_begin: &RoundContext) -> (r: PlayerInformation)
        requires
            state.wf(),
            round_begin.wf(),
            player.wf(),
        ensures
            is_view_of(*state, player, *round_begin, r),
            r.wf(),
    {
        let core = state.core;
        let draw = if player == core.actor {
            core.draw
        } else {
            None
        };
        let mut dora_indicators: Vec<Tile> = Vec::new();
        let mut i: usize = 0;
        while i < core.num_dora_indicators as usize
            invariant
                core == state.core,
                state.wf(),
                round_begin.wf(),
                i <= core.num_dora_indicators,
                dora_indicators@.len() == i,
                forall|j: int|
                    0 <= j < i ==> #[trigger] dora_indicators@[j] == round_begin.wall@[dora_index(j)],
            decreases core.num_dora_indicators as usize - i,
        {
            dora_indicators.push(dora_indicator(&round_begin.wall, i));
            i = i + 1;
        }
        let p = player.to_usize();
        PlayerInformation {
            round_id: round_begin.round_id,
            pot: round_begin.pot,
            points: round_begin.points,
            seq: core.seq,
            actor: core.actor,
            num_drawn_head: core.num_drawn_head,
            num_drawn_tail: core.num_drawn_tail,
            dora_indicators,
            draw,
            incoming_meld: core.incoming_meld,
            furiten: core.furiten[p],
            riichi: core.riichi,
            legal: core.legal[p],
            melds: copy_table(&state.melds),
            closed_hand: state.closed_hands[p].clone(),
            discards: copy_table(&state.discards),
            discard_sets: state.discard_sets,
        }
    }
}

/// The drawn tile appears in a seat's view exactly when that seat is the active one and the
/// active seat has drawn.
pub proof fn lemma_draw_only_for_active(state: State, seat: Seat, rb: RoundContext, obs: PlayerInformation)
    requires
        is_view_of(state, seat, rb, obs),
    ensures
        obs.draw is Some <==> (seat == state.core.actor && state.core.draw is Some),
        obs.draw is Some ==> obs.draw == state.core.draw,
{
}

/// In the view of any seat other than the active one, the furiten flags, the legality and the
/// closed hand are those of the observing seat.
pub proof fn lemma_private_fields_follow_seat(
    state: State,
    seat: Seat,
    rb: RoundContext,
    obs: PlayerInformation,
)
    requires
        is_view_of(state, seat, rb, obs),
        seat != state.core.actor,
    ensures
        obs.furiten == state.core.furiten[seat.index as int],
        obs.legal == state.core.legal[seat.index as int],
        obs.closed_hand@ == state.closed_hands@[seat.index as int]@,
        obs.draw is None,
{
}

} // verus!
