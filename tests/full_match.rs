use mahjong_agents::agent::VeryStupid;
use mahjong_agents::model::{self as lib, Action as LibAction};
use mahjong_agents::observation::{self as obs, PlayerInformation};
use mahjong_agents::strategies::Strategy;
use mahjong_agents::turn::{next_round, Command, Event, RoundEnd, Turn};
use rand::rngs::StdRng;
use rand::seq::SliceRandom;
use rand::SeedableRng;
use riichi::prelude::{wall, Action, Discard, Engine, GamePoints, Player, RoundBegin, RoundId, Ruleset, State, Tile, TileSet37, Wall};

fn tile_in(t: Tile) -> lib::Tile {
    lib::Tile { code: t.encoding() }
}

fn hand_in(h: &TileSet37) -> lib::TileSet37 {
    lib::TileSet37::from_counts(h.0.to_vec()).unwrap()
}

fn action_out(a: LibAction) -> Action {
    match a {
        LibAction::Discard(d) => Action::Discard(Discard {
            tile: Tile::from_encoding(d.tile.code).unwrap(),
            called_by: Player::new(d.called_by.index),
            declares_riichi: d.declares_riichi,
            is_tsumogiri: d.is_tsumogiri,
        }),
        LibAction::Ankan(t) => Action::Ankan(Tile::from_encoding(t.code).unwrap()),
        LibAction::Kakan(t) => Action::Kakan(Tile::from_encoding(t.code).unwrap()),
        LibAction::TsumoAgari(t) => Action::TsumoAgari(Tile::from_encoding(t.code).unwrap()),
    }
}

fn state_in(s: &State) -> obs::State {
    let none = obs::Legal { tsumo: false, kan: false, riichi: false, ron: false };
    let c = &s.core;
    obs::State {
        core: obs::StateCore {
            seq: c.seq,
            actor: lib::Seat::new(c.actor.to_u8()),
            num_drawn_head: c.num_drawn_head,
            num_drawn_tail: c.num_drawn_tail,
            num_dora_indicators: c.num_dora_indicators,
            draw: c.draw.map(tile_in),
            incoming_meld: c.incoming_meld.map(|m| obs::Meld { packed: m.packed() }),
            furiten: c.furiten.map(|f| obs::FuritenFlags {
                by_discard: f.by_discard,
                miss_temporary: f.miss_temporary,
                miss_permanent: f.miss_permanent,
            }),
            riichi: c.riichi.map(|r| r.map(|r| obs::Riichi { is_double: r.is_double, is_ippatsu: r.is_ippatsu })),
            legal: [none; 4],
        },
        melds: s.melds.iter().map(|ms| ms.iter().map(|m| obs::Meld { packed: m.packed() }).collect()).collect(),
        closed_hands: s.closed_hands.iter().map(hand_in).collect(),
        discards: vec![vec![], vec![], vec![], vec![]],
        discard_sets: s.discard_sets.map(|m| obs::TileMask34 { bits: m.0 }),
    }
}

fn round_in(rb: &RoundBegin) -> obs::RoundContext {
    obs::RoundContext {
        round_id: obs::RoundId { kyoku: rb.round_id.kyoku, honba: rb.round_id.honba },
        wall: rb.wall.iter().map(|&t| tile_in(t)).collect(),
        pot: rb.pot,
        points: rb.points,
    }
}

fn shuffled(rng: &mut StdRng) -> Wall {
    let mut w = wall::make_sorted_wall([1; 3]);
    w.shuffle(rng);
    w
}

/// Plays a whole match of four agents that always discard their draw; returns every accepted
/// action and the final points.
fn play(seed: u64) -> (Vec<LibAction>, [GamePoints; 4]) {
    let mut rng = StdRng::seed_from_u64(seed);
    let mut agents = [VeryStupid, VeryStupid, VeryStupid, VeryStupid];
    let mut engine = Engine::new();
    let mut rb = RoundBegin {
        ruleset: Ruleset::default(),
        round_id: RoundId { kyoku: 0, honba: 0 },
        wall: shuffled(&mut rng),
        pot: 0,
        points: [25000; 4],
    };
    engine.begin_round(rb.clone());
    let mut actions = Vec::new();
    for _round in 0..64 {
        let round = round_in(&rb);
        while engine.end().is_none() {
            let actor = lib::Seat::new(engine.state().core.actor.to_u8());
            let (mut turn, mut cmd) = Turn::new(actor);
            loop {
                cmd = match cmd {
                    Command::AskAction(seat) => {
                        let info = PlayerInformation::new(&state_in(engine.state()), seat, &round);
                        let a = Strategy::<PlayerInformation, LibAction>::decide(&mut agents[seat.to_usize()], &info);
                        turn.step(Event::ActionDecided(a))
                    }
                    Command::SubmitAction(a) => {
                        if engine.register_action(action_out(a)).is_ok() {
                            actions.push(a);
                            turn.step(Event::ActionAccepted)
                        } else {
                            let s = engine.state();
                            let hand = hand_in(&s.closed_hands[actor.to_usize()]);
                            turn.step(Event::ActionRejected { draw: s.core.draw.map(tile_in), hand })
                        }
                    }
                    Command::AskReaction { .. } => turn.step(Event::ReactionDecided(None)),
                    Command::SubmitReaction { .. } => panic!("no agent reacts"),
                    Command::Advance => {
                        engine.step();
                        turn.step(Event::Advanced)
                    }
                    Command::EndTurn => break,
                    Command::Abort => panic!("turn aborted"),
                };
            }
        }
        let e = engine.end().as_ref().unwrap();
        let end = RoundEnd {
            pot: e.pot,
            points: e.points,
            next_round_id: e.next_round_id.map(|r| obs::RoundId { kyoku: r.kyoku, honba: r.honba }),
        };
        let w = shuffled(&mut rng);
        match (next_round(&end, w.iter().map(|&t| tile_in(t)).collect()), e.next_round_id) {
            (Some(_), Some(round_id)) => {
                rb = RoundBegin { ruleset: Ruleset::default(), round_id, wall: w, pot: end.pot, points: end.points };
                engine.begin_round(rb.clone());
            }
            _ => return (actions, end.points),
        }
    }
    panic!("match did not end");
}

#[test]
fn seeded_match_is_reproducible() {
    let (actions1, points1) = play(7);
    let (actions2, points2) = play(7);
    assert!(!actions1.is_empty());
    assert_eq!(actions1, actions2);
    assert_eq!(points1, points2);
    assert!(actions1.iter().all(|a| matches!(a, LibAction::Discard(d) if d.is_tsumogiri && !d.declares_riichi)));
}
