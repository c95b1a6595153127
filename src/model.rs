use vstd::prelude::*;

verus! {

/// Number of distinct tile encodings: 34 normal kinds plus three red fives.
pub const NUM_TILE_KINDS: usize = 37;

/// A tile, by its encoding: `0..=8` are 1m..9m, `9..=17` 1p..9p, `18..=26` 1s..9s,
/// `27..=33` the honors 1z..7z, and `34..=36` the red fives 0m, 0p, 0s.
#[derive(Clone, Copy, PartialEq, Eq, Structural, Debug)]
pub struct Tile {
    pub code: u8,
}

/// Encoding of a tile with a red five read as the normal five of its suit.
pub open spec fn normal_code(code: u8) -> u8 {
    if code == 34 {
        4
    } else if code == 35 {
        13
    } else if code == 36 {
        22
    } else {
        code
    }
}

impl Tile {
    pub open spec fn wf(self) -> bool {
        self.code < 37
    }

    /// The tile with the given encoding, if the encoding names one.
    pub fn from_encoding(code: u8) -> (r: Option<Tile>)
        ensures
            code < 37 ==> r == Some(Tile { code }),
            code >= 37 ==> r is None,
    {
        if code < 37 {
            Some(Tile { code })
        } else {
            None
        }
    }

    /// Encoding of this tile, except that a red five becomes the normal five.
    pub fn normal_encoding(self) -> (r: u8)
        ensures
            r == normal_code(self.code),
    {
        if self.code == 34 {
            4
        } else if self.code == 35 {
            13
        } else if self.code == 36 {
            22
        } else {
            self.code
        }
    }
}

/// One of the four seats of a round, numbered `0..4` in turn order.
#[derive(Clone, Copy, PartialEq, Eq, Structural, Debug)]
pub struct Seat {
    pub index: u8,
}

/// The seat `k` turns after seat `i`.
pub open spec fn seat_after(i: u8, k: u8) -> u8 {
    ((i as int + k as int) % 4) as u8
}

impl Seat {
    pub open spec fn wf(self) -> bool {
        self.index < 4
    }

    /// The seat with the given number taken modulo four.
    pub fn new(x: u8) -> (r: Seat)
        ensures
            r.index == x % 4,
            r.wf(),
    {
        Seat { index: x % 4 }
    }

    /// The seat `k` turns after this one.
    pub fn add(self, k: u8) -> (r: Seat)
        requires
            self.wf(),
        ensures
            r.index == seat_after(self.index, k),
            r.wf(),
    {
        Seat { index: ((self.index as u16 + k as u16) % 4) as u8 }
    }

    /// The next seat in turn order.
    pub fn succ(self) -> (r: Seat)
        requires
            self.wf(),
        ensures
            r.index == seat_after(self.index, 1),
            r.wf(),
    {
        self.add(1)
    }

    /// The seat across the table.
    pub fn oppo(self) -> (r: Seat)
        requires
            self.wf(),
        ensures
            r.index == seat_after(self.index, 2),
            r.wf(),
    {
        self.add(2)
    }

    /// The previous seat in turn order.
    pub fn pred(self) -> (r: Seat)
        requires
            self.wf(),
        ensures
            r.index == seat_after(self.index, 3),
            r.wf(),
    {
        self.add(3)
    }

    pub fn to_usize(self) -> (r: usize)
        ensures
            r == self.index as usize,
    {
        self.index as usize
    }
}

/// A multiset of tiles, held as a count for each encoding.
pub struct TileSet37 {
    counts: Vec<u8>,
}

impl View for TileSet37 {
    type V = Seq<u8>;

    closed spec fn view(&self) -> Seq<u8> {
        self.counts@
    }
}

impl TileSet37 {
    pub open spec fn wf(&self) -> bool {
        self@.len() == NUM_TILE_KINDS
    }

    /// The empty set.
    pub fn new() -> (r: TileSet37)
        ensures
            r.wf(),
            forall|i: int| 0 <= i < NUM_TILE_KINDS ==> r@[i] == 0,
    {
        let mut counts: Vec<u8> = Vec::new();
        let mut i: usize = 0;
        while i < NUM_TILE_KINDS
            invariant
                i <= NUM_TILE_KINDS,
                counts@.len() == i,
                forall|j: int| 0 <= j < i ==> counts@[j] == 0,
            decreases NUM_TILE_KINDS - i,
        {
            counts.push(0);
            i = i + 1;
        }
        TileSet37 { counts }
    }

    /// The set with the given count for each encoding, if exactly one count is given per encoding.
    pub fn from_counts(counts: Vec<u8>) -> (r: Option<TileSet37>)
        ensures
            counts@.len() == NUM_TILE_KINDS ==> (r matches Some(s) && s@ == counts@),
            counts@.len() != NUM_TILE_KINDS ==> r is None,
    {
        if counts.len() == NUM_TILE_KINDS {
            Some(TileSet37 { counts })
        } else {
            None
        }
    }

    /// How many copies of the tile the set holds.
    pub fn count(&self, t: Tile) -> (r: u8)
        requires
            self.wf(),
            t.wf(),
        ensures
            r == self@[t.code as int],
    {
        self.counts[t.code as usize]
    }

    /// How many tiles carry the given encoding.
    pub fn count_of(&self, code: usize) -> (r: u8)
        requires
            self.wf(),
            code < NUM_TILE_KINDS,
        ensures
            r == self@[code as int],
    {
        self.counts[code]
    }

    /// Adds one copy of the tile, unless its count is already at the largest value it can hold.
    pub fn insert(&mut self, t: Tile) -> (added: bool)
        requires
            old(self).wf(),
            t.wf(),
        ensures
            final(self).wf(),
            added == (old(self)@[t.code as int] < 255),
            added ==> final(self)@ == old(self)@.update(t.code as int, (old(self)@[t.code as int] + 1) as u8),
            !added ==> final(self)@ == old(self)@,
    {
        let c = self.counts[t.code as usize];
        if c < 255 {
            self.counts.set(t.code as usize, c + 1);
            true
        } else {
            false
        }
    }
}

/// The count that `s` holds at position `i`, or zero outside it.
pub open spec fn held(s: Seq<u8>, i: int) -> u8 {
    if 0 <= i < s.len() {
        s[i]
    } else {
        0
    }
}

impl TileSet37 {
    /// How many tiles carry the given encoding; zero for an encoding that the set does not hold.
    pub fn get(&self, code: usize) -> (r: u8)
        ensures
            r == held(self@, code as int),
    {
        if code < self.counts.len() {
            self.counts[code]
        } else {
            0
        }
    }
}

impl Clone for TileSet37 {
    fn clone(&self) -> (r: TileSet37)
        ensures
            r@ == self@,
    {
        TileSet37 { counts: self.counts.clone() }
    }
}

/// A tile laid down from a hand.
#[derive(Clone, Copy, PartialEq, Eq, Structural, Debug)]
pub struct Discard {
    pub tile: Tile,
    pub called_by: Seat,
    pub declares_riichi: bool,
    /// The tile was the one just drawn, discarded at once.
    pub is_tsumogiri: bool,
}

/// What the active seat does on its turn.
#[derive(Clone, Copy, PartialEq, Eq, Structural, Debug)]
pub enum Action {
    Discard(Discard),
    /// A concealed quad formed with the drawn tile.
    Ankan(Tile),
    /// An open triplet promoted to a quad with the drawn tile.
    Kakan(Tile),
    /// A win on the drawn tile.
    TsumoAgari(Tile),
}

/// What a seat other than the active one does in answer to an action.
#[derive(Clone, Copy, PartialEq, Eq, Structural, Debug)]
pub enum Reaction {
    /// A sequence call with the two given tiles from hand.
    Chii(Tile, Tile),
    /// A triplet call with the two given tiles from hand.
    Pon(Tile, Tile),
    /// An open quad call.
    Daiminkan,
    /// A win on the discarded tile.
    RonAgari,
}

} // verus!
