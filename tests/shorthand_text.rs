use mahjong_agents::model::{Tile, TileSet37};
use mahjong_agents::shorthand::TileSetExt;

fn from_text(s: &str) -> TileSet37 {
    let mut h = TileSet37::new();
    for t in riichi::prelude::tiles_from_str(s) {
        assert!(h.insert(Tile::from_encoding(t.encoding()).unwrap()));
    }
    h
}

#[test]
fn shorthand_basic() {
    assert_eq!(from_text("123m456p789s11155z").to_shorthand(), "123m456p789s11155z");
}

#[test]
fn shorthand_skips_empty_suits() {
    assert_eq!(from_text("1112345678999m").to_shorthand(), "1112345678999m");
}

#[test]
fn shorthand_of_empty_set() {
    assert_eq!(TileSet37::new().to_shorthand(), "");
}

#[test]
fn shorthand_puts_red_five_last_in_suit() {
    assert_eq!(from_text("405m7z0s").to_shorthand(), "450m0s7z");
}
