use vstd::prelude::*;
use crate::model::{held, TileSet37};

verus! {

/// The digit that stands for a tile in shorthand: its number, or `0` for a red five.
pub open spec fn digit_char(code: int) -> char {
    if code <= 33 {
        seq!['1', '2', '3', '4', '5', '6', '7', '8', '9'][code % 9]
    } else {
        '0'
    }
}

/// The letter of a suit in shorthand.
pub open spec fn suit_char(suit: int) -> char {
    seq!['m', 'p', 's', 'z'][suit]
}

/// Number of encodings in a suit: nine numbers and a red five, or seven honors.
pub open spec fn suit_size(suit: int) -> int {
    if suit < 3 {
        10
    } else {
        7
    }
}

/// The `i`-th encoding of a suit: its numbers in order, then its red five.
pub open spec fn suit_code(suit: int, i: int) -> int {
    if suit < 3 {
        if i < 9 {
            9 * suit + i
        } else {
            34 + suit
        }
    } else {
        27 + i
    }
}

/// The digits of the first `n` encodings of a suit, each repeated as often as the set holds it.
pub open spec fn suit_digits(counts: Seq<u8>, suit: int, n: int) -> Seq<char>
    decreases n,
{
    if n <= 0 {
        Seq::empty()
    } else {
        let code = suit_code(suit, n - 1);
        suit_digits(counts, suit, n - 1) + Seq::new(held(counts, code) as nat, |k: int| digit_char(code))
    }
}

/// A suit's part of the shorthand: its digits then its letter, or nothing when the set holds none.
pub open spec fn suit_group(counts: Seq<u8>, suit: int) -> Seq<char> {
    let d = suit_digits(counts, suit, suit_size(suit));
    if d.len() == 0 {
        Seq::empty()
    } else {
        d.push(suit_char(suit))
    }
}

/// The shorthand of the first `n` suits.
pub open spec fn shorthand_upto(counts: Seq<u8>, n: int) -> Seq<char>
    decreases n,
{
    if n <= 0 {
        Seq::empty()
    } else {
        shorthand_upto(counts, n - 1) + suit_group(counts, n - 1)
    }
}

/// Human-readable shorthand of a set of tiles, such as `123m456p789s1155z`: for each suit that the
/// set holds, the digits of its tiles in encoding order (red fives, written `0`, last) then the
/// suit's letter.
pub open spec fn shorthand(counts: Seq<u8>) -> Seq<char> {
    shorthand_upto(counts, 4)
}

fn digit_str(code: usize) -> (r: &'static str)
    requires
        code < 37,
    ensures
        r@ == seq![digit_char(code as int)],
{
    proof {
        reveal_strlit("0");
        reveal_strlit("1");
        reveal_strlit("2");
        reveal_strlit("3");
        reveal_strlit("4");
        reveal_strlit("5");
        reveal_strlit("6");
        reveal_strlit("7");
        reveal_strlit("8");
        reveal_strlit("9");
    }
    if code > 33 {
        "0"
    } else {
        let n = code % 9;
        if n == 0 {
            "1"
        } else if n == 1 {
            "2"
        } else if n == 2 {
            "3"
        } else if n == 3 {
            "4"
        } else if n == 4 {
            "5"
        } else if n == 5 {
            "6"
        } else if n == 6 {
            "7"
        } else if n == 7 {
            "8"
        } else {
            "9"
        }
    }
}

fn suit_str(suit: usize) -> (r: &'static str)
    requires
        suit < 4,
    ensures
        r@ == seq![suit_char(suit as int)],
{
    proof {
        reveal_strlit("m");
        reveal_strlit("p");
        reveal_strlit("s");
        reveal_strlit("z");
    }
    if suit == 0 {
        "m"
    } else if suit == 1 {
        "p"
    } else if suit == 2 {
        "s"
    } else {
        "z"
    }
}

/// Shorthand notation of a set of tiles.
pub trait TileSetExt {
    spec fn shorthand_spec(&self) -> Seq<char>;

    /// Converts the set to human-readable shorthand (e.g. `123m456p789s1155z`).
    fn to_shorthand(&self) -> (r: String)
        ensures
            r@ == self.shorthand_spec(),
    ;
}

impl TileSetExt for TileSet37 {
    open spec fn shorthand_spec(&self) -> Seq<char> {
        shorthand(self@)
    }

    fn to_shorthand(&self) -> (r: String) {
        let mut out = String::new();
        let mut suit: usize = 0;
        while suit < 4
            invariant
                suit <= 4,
                out@ == shorthand_upto(self@, suit as int),
            decreases 4 - suit,
        {
            let size: usize = if suit < 3 {
                10
            } else {
                7
            };
            let mut digits = String::new();
            let mut i: usize = 0;
            while i < size
                invariant
                    suit < 4,
                    size == suit_size(suit as int),
                    i <= size,
                    digits@ == suit_digits(self@, suit as int, i as int),
                decreases size - i,
            {
                let code: usize = if suit < 3 {
                    if i < 9 {
                        9 * suit + i
                    } else {
                        34 + suit
                    }
                } else {
                    27 + i
                };
                assert(code as int == suit_code(suit as int, i as int));
                let c = self.get(code);
                let ghost before = digits@;
                let mut k: u8 = 0;
                while k < c
                    invariant
                        code < 37,
                        k <= c,
                        digits@ == before + Seq::new(k as nat, |j: int| digit_char(code as int)),
                    decreases c - k,
                {
                    digits.append(digit_str(code));
                    k = k + 1;
                    assert(digits@ =~= before + Seq::new(k as nat, |j: int| digit_char(code as int)));
                }
                i = i + 1;
            }
            let ghost d = digits@;
            if digits.as_str().is_empty() {
                assert(d.len() == 0);
            } else {
                digits.append(suit_str(suit));
                out.append(digits.as_str());
            }
            suit = suit + 1;
        }
        out
    }
}

} // verus!
