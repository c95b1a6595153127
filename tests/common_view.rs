use mahjong_agents::model::{Discard, Seat, Tile, TileSet37};
use mahjong_agents::observation::{
    FuritenFlags, Legal, Meld, PlayerInformation, RoundContext, RoundId, State, StateCore, TileMask34,
};

fn tile(code: u8) -> Tile {
    Tile::from_encoding(code).unwrap()
}

fn hand_of(codes: &[u8]) -> TileSet37 {
    let mut h = TileSet37::new();
    for &c in codes {
        assert!(h.insert(tile(c)));
    }
    h
}

fn no_legal() -> Legal {
    Legal { tsumo: false, kan: false, riichi: false, ron: false }
}

fn sample_state(actor: u8, draw: Option<Tile>) -> State {
    let furiten = [
        FuritenFlags { by_discard: true, miss_temporary: false, miss_permanent: false },
        FuritenFlags { by_discard: false, miss_temporary: true, miss_permanent: false },
        FuritenFlags { by_discard: false, miss_temporary: false, miss_permanent: true },
        FuritenFlags { by_discard: false, miss_temporary: false, miss_permanent: false },
    ];
    let mut legal = [no_legal(); 4];
    legal[2].ron = true;
    State {
        core: StateCore {
            seq: 7,
            actor: Seat::new(actor),
            num_drawn_head: 60,
            num_drawn_tail: 1,
            num_dora_indicators: 2,
            draw,
            incoming_meld: None,
            furiten,
            riichi: [None; 4],
            legal,
        },
        melds: vec![vec![Meld { packed: 0x1155 }], vec![], vec![], vec![]],
        closed_hands: vec![hand_of(&[0, 1, 2]), hand_of(&[9, 10]), hand_of(&[27, 27, 27]), hand_of(&[33])],
        discards: vec![
            vec![Discard { tile: tile(5), called_by: Seat::new(0), declares_riichi: false, is_tsumogiri: true }],
            vec![],
            vec![],
            vec![],
        ],
        discard_sets: [TileMask34 { bits: 32 }, TileMask34 { bits: 0 }, TileMask34 { bits: 0 }, TileMask34 { bits: 0 }],
    }
}

fn sample_round() -> RoundContext {
    let wall: Vec<Tile> = (0..136u32).map(|i| tile((i / 4) as u8)).collect();
    RoundContext { round_id: RoundId { kyoku: 1, honba: 2 }, wall, pot: 1000, points: [25000, 24000, 26000, 25000] }
}

fn counts(h: &TileSet37) -> Vec<u8> {
    (0..37usize).map(|i| h.get(i)).collect()
}

#[test]
fn draw_visible_only_to_active_seat() {
    let state = sample_state(1, Some(tile(20)));
    let rb = sample_round();
    for s in 0..4u8 {
        let obs = PlayerInformation::new(&state, Seat::new(s), &rb);
        if s == 1 {
            assert_eq!(obs.draw, Some(tile(20)));
        } else {
            assert_eq!(obs.draw, None);
        }
    }
}

#[test]
fn no_draw_visible_when_active_seat_has_not_drawn() {
    let state = sample_state(1, None);
    let rb = sample_round();
    let obs = PlayerInformation::new(&state, Seat::new(1), &rb);
    assert_eq!(obs.draw, None);
}

#[test]
fn private_fields_belong_to_observer() {
    let state = sample_state(0, Some(tile(3)));
    let rb = sample_round();
    let obs = PlayerInformation::new(&state, Seat::new(2), &rb);
    assert_eq!(obs.furiten, state.core.furiten[2]);
    assert_ne!(obs.furiten, state.core.furiten[0]);
    assert_eq!(counts(&obs.closed_hand), counts(&state.closed_hands[2]));
    assert_eq!(obs.closed_hand.get(27), 3);
    assert_eq!(obs.closed_hand.get(0), 0);
    assert!(obs.legal.ron);
}

#[test]
fn public_fields_copied_and_dora_read_from_wall() {
    let state = sample_state(3, Some(tile(8)));
    let rb = sample_round();
    let obs = PlayerInformation::new(&state, Seat::new(0), &rb);
    assert_eq!(obs.round_id, RoundId { kyoku: 1, honba: 2 });
    assert_eq!(obs.pot, 1000);
    assert_eq!(obs.points, [25000, 24000, 26000, 25000]);
    assert_eq!(obs.seq, 7);
    assert_eq!(obs.actor, Seat::new(3));
    assert_eq!(obs.num_drawn_head, 60);
    assert_eq!(obs.num_drawn_tail, 1);
    // Indicators sit at wall positions 130 and 128.
    assert_eq!(obs.dora_indicators, vec![tile(32), tile(32)]);
    assert_eq!(obs.melds.len(), 4);
    assert_eq!(obs.melds[0], vec![Meld { packed: 0x1155 }]);
    assert_eq!(obs.discards[0].len(), 1);
    assert_eq!(obs.discard_sets[0], TileMask34 { bits: 32 });
}

#[test]
fn dora_indicator_positions() {
    let rb = sample_round();
    assert_eq!(mahjong_agents::observation::dora_indicator(&rb.wall, 0), tile(32));
    assert_eq!(mahjong_agents::observation::dora_indicator(&rb.wall, 4), tile(30));
}
