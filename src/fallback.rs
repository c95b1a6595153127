use vstd::prelude::*;
use crate::model::{held, Action, Discard, Seat, Tile, TileSet37, NUM_TILE_KINDS};

verus! {

/// The lowest encoding that the counts hold at least once, if any.
pub open spec fn lowest_held(counts: Seq<u8>, code: int) -> bool {
    &&& 0 <= code < NUM_TILE_KINDS
    &&& held(counts, code) > 0
    &&& forall|j: int| 0 <= j < code ==> held(counts, j) == 0
}

/// The action that stands in for one the authority refused: with a tile drawn this turn, that
/// tile is discarded at once; otherwise the lowest tile in hand is discarded. Nothing remains
/// when there is neither a drawn tile nor a tile in hand.
pub open spec fn fallback_spec(draw: Option<Tile>, hand: Seq<u8>) -> Option<Action> {
    match draw {
        Some(t) => Some(
            Action::Discard(
                Discard {
                    tile: t,
                    called_by: Seat { index: 0 },
                    declares_riichi: false,
                    is_tsumogiri: true,
                },
            ),
        ),
        None => if exists|c: int| lowest_held(hand, c) {
            let c = choose|c: int| lowest_held(hand, c);
            Some(
                Action::Discard(
                    Discard {
                        tile: Tile { code: c as u8 },
                        called_by: Seat { index: 0 },
                        declares_riichi: false,
                        is_tsumogiri: false,
                    },
                ),
            )
        } else {
            None
        },
    }
}

/// The first tile of the hand in encoding order.
pub fn first_tile(hand: &TileSet37) -> (r: Option<Tile>)
    ensures
        r matches Some(t) ==> t.wf() && lowest_held(hand@, t.code as int),
        r is None <==> forall|j: int| 0 <= j < NUM_TILE_KINDS ==> held(hand@, j) == 0,
{
    let mut i: usize = 0;
    while i < NUM_TILE_KINDS
        invariant
            i <= NUM_TILE_KINDS,
            forall|j: int| 0 <= j < i ==> held(hand@, j) == 0,
        decreases NUM_TILE_KINDS - i,
    {
        if hand.get(i) > 0 {
            return Some(Tile { code: i as u8 });
        }
        i = i + 1;
    }
    None
}

/// A fallback exists: a tile was drawn this turn, or the hand holds a tile.
pub open spec fn has_fallback(draw: Option<Tile>, hand: Seq<u8>) -> bool {
    draw is Some || exists|j: int| 0 <= j < NUM_TILE_KINDS && held(hand, j) > 0
}

/// Whether a fallback exists for this draw and hand; without one, a refused action is fatal.
pub fn fallback_exists(draw: Option<Tile>, hand: &TileSet37) -> (r: bool)
    ensures
        r == has_fallback(draw, hand@),
{
    if draw.is_some() {
        true
    } else {
        let first = first_tile(hand);
        proof {
            if let Some(t) = first {
                assert(0 <= t.code < NUM_TILE_KINDS && held(hand@, t.code as int) > 0);
            }
        }
        first.is_some()
    }
}

/// Default action for a seat whose own choice was refused: discard the drawn tile at once if it
/// drew this turn, else discard the first tile in hand (as after a call). It needs a drawn tile
/// or a tile in hand; without either the caller treats the refusal as fatal.
pub fn fallback_action(draw: Option<Tile>, hand: &TileSet37) -> (r: Action)
    requires
        has_fallback(draw, hand@),
    ensures
        fallback_spec(draw, hand@) == Some(r),
        (r matches Action::Discard(d) && !d.declares_riichi && d.called_by == (Seat { index: 0 })),
        draw matches Some(t) ==> (r matches Action::Discard(d) && d.tile == t && d.is_tsumogiri),
        draw is None ==> (r matches Action::Discard(d) && lowest_held(hand@, d.tile.code as int)
            && !d.is_tsumogiri),
{
    match draw {
        Some(t) => Action::Discard(
            Discard { tile: t, called_by: Seat::new(0), declares_riichi: false, is_tsumogiri: true },
        ),
        None => match first_tile(hand) {
            Some(t) => {
                proof {
                    let c = choose|c: int| lowest_held(hand@, c);
                    assert(c == t.code as int) by {
                        if c < t.code as int {
                        } else if c > t.code as int {
                        }
                    }
                }
                Action::Discard(
                    Discard { tile: t, called_by: Seat::new(0), declares_riichi: false, is_tsumogiri: false },
                )
            },
            None => {
                proof {
                    let j = choose|j: int| 0 <= j < NUM_TILE_KINDS && held(hand@, j) > 0;
                    assert(held(hand@, j) == 0);
                }
                Action::Discard(
                    Discard { tile: Tile { code: 0 }, called_by: Seat::new(0), declares_riichi: false, is_tsumogiri: false },
                )
            },
        },
    }
}

/// The fallback is fixed by its inputs: with a drawn tile it discards that tile at once; with
/// none and a tile in hand it discards the lowest tile in hand, not at once; with neither it
/// does not exist.
pub proof fn lemma_fallback_cases(draw: Option<Tile>, hand: Seq<u8>)
    ensures
        draw matches Some(t) ==> (fallback_spec(draw, hand) matches Some(Action::Discard(d))
            && d.tile == t && d.is_tsumogiri && !d.declares_riichi),
        (draw is None && exists|c: int| lowest_held(hand, c)) ==> (fallback_spec(draw, hand) matches Some(
            Action::Discard(d),
        ) && lowest_held(hand, d.tile.code as int) && !d.is_tsumogiri && !d.declares_riichi),
        (draw is None && forall|j: int| 0 <= j < NUM_TILE_KINDS ==> held(hand, j) == 0) ==> fallback_spec(
            draw,
            hand,
        ) is None,
{
    if draw is None {
        if exists|c: int| lowest_held(hand, c) {
            let c = choose|c: int| lowest_held(hand, c);
            assert(0 <= c < 256);
            assert((c as u8) as int == c);
        }
        if forall|j: int| 0 <= j < NUM_TILE_KINDS ==> held(hand, j) == 0 {
            assert forall|c: int| !lowest_held(hand, c) by {
                if lowest_held(hand, c) {
                    assert(held(hand, c) == 0);
                }
            }
        }
    }
}

/// With a drawn tile, the fallback does not depend on the hand.
pub proof fn lemma_fallback_ignores_hand_with_draw(t: Tile, hand1: Seq<u8>, hand2: Seq<u8>)
    ensures
        fallback_spec(Some(t), hand1) == fallback_spec(Some(t), hand2),
{
}

} // verus!
