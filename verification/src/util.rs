//! Shared utilities: integer tile-grid coordinates derived from continuous
//! translations, and character-level string helpers used by the level
//! metadata readers.
//!
//! Translations are carried in thousandths of a world unit. A translation
//! maps to the grid cell whose span contains it: cell `n` covers the
//! half-open span `[n * tile, (n + 1) * tile)`.

use vstd::prelude::*;

verus! {

use vstd::arithmetic::div_mod::{lemma_fundamental_div_mod, lemma_fundamental_div_mod_converse};
use vstd::string::StrSliceExecFns;

/// Side length of one grid tile, in thousandths of a unit.
pub const TILE_SIZE_MILLI: i64 = 16_000;

/// The player's collider width, in thousandths of a unit.
pub const PLAYER_DIM_X_MILLI: i64 = 16_000;

/// The player's collider height, in thousandths of a unit.
pub const PLAYER_DIM_Y_MILLI: i64 = 28_000;

/// A position on the integer tile grid. Level-goal comparisons use exact
/// integer equality on these, never a float distance.
#[derive(Clone, Copy, PartialEq, Eq, Structural, Debug)]
pub struct GridCoords {
    pub x: i32,
    pub y: i32,
}

impl GridCoords {
    pub fn new(x: i32, y: i32) -> (g: GridCoords)
        ensures
            g.x == x,
            g.y == y,
    {
        GridCoords { x, y }
    }
}

/// The grid cell a translation falls in: the floor of `translation / tile`.
pub open spec fn spec_grid_coord(translation_milli: int, tile_milli: int) -> int {
    translation_milli / tile_milli
}

/// Floor division of a translation by a positive tile size.
fn floor_div(a: i64, b: i64) -> (q: i64)
    requires
        1 <= b <= 1_000_000_000,
        -1_000_000_000_000_000_000 <= a <= 1_000_000_000_000_000_000,
    ensures
        q == a as int / b as int,
{
    if a >= 0 {
        ((a as u64) / (b as u64)) as i64
    } else {
        let n = (-a) as u64;
        let bu = b as u64;
        let q0 = n / bu;
        let r0 = n % bu;
        proof {
            lemma_fundamental_div_mod(n as int, b as int);
            if r0 == 0 {
                assert((b as int) * (-(q0 as int)) == -((b as int) * (q0 as int)))
                    by (nonlinear_arith);
                lemma_fundamental_div_mod_converse(a as int, b as int, -(q0 as int), 0);
            } else {
                assert((b as int) * (-(q0 as int) - 1) == -((b as int) * (q0 as int)) - (b as int))
                    by (nonlinear_arith);
                lemma_fundamental_div_mod_converse(
                    a as int,
                    b as int,
                    -(q0 as int) - 1,
                    b as int - r0 as int,
                );
            }
        }
        if r0 == 0 {
            -(q0 as i64)
        } else {
            -(q0 as i64) - 1
        }
    }
}

/// The grid cell containing a continuous translation, for a given tile size.
/// Each cell spans `[n * tile, (n + 1) * tile)`, so the cell index is the
/// floored quotient on each axis.
pub fn grid_coords_from_vec3(x_milli: i64, y_milli: i64, tile_milli: i64) -> (g: GridCoords)
    requires
        1 <= tile_milli <= 1_000_000_000,
        -1_000_000_000_000_000_000 <= x_milli <= 1_000_000_000_000_000_000,
        -1_000_000_000_000_000_000 <= y_milli <= 1_000_000_000_000_000_000,
        i32::MIN <= spec_grid_coord(x_milli as int, tile_milli as int) <= i32::MAX,
        i32::MIN <= spec_grid_coord(y_milli as int, tile_milli as int) <= i32::MAX,
    ensures
        g.x == spec_grid_coord(x_milli as int, tile_milli as int),
        g.y == spec_grid_coord(y_milli as int, tile_milli as int),
{
    let gx = floor_div(x_milli, tile_milli);
    let gy = floor_div(y_milli, tile_milli);
    GridCoords { x: gx as i32, y: gy as i32 }
}

/// Character-for-character string equality, decided without assuming
/// anything about either string's contents.
pub fn str_eq(a: &str, b: &str) -> (r: bool)
    ensures
        r == (a@ == b@),
{
    let alen = a.unicode_len();
    let blen = b.unicode_len();
    if alen != blen {
        return false;
    }
    let mut i: usize = 0;
    while i < alen
        invariant
            0 <= i <= alen,
            alen == a@.len(),
            alen == b@.len(),
            forall|j: int| 0 <= j < i ==> a@[j] == b@[j],
        decreases alen - i,
    {
        let ca = a.get_char(i);
        let cb = b.get_char(i);
        if ca != cb {
            return false;
        }
        i = i + 1;
    }
    proof {
        assert(a@ =~= b@);
    }
    true
}

/// Whether a character is an ASCII decimal digit.
pub open spec fn is_digit_char(c: char) -> bool {
    48 <= c as int <= 57
}

/// Whether every character of the sequence is an ASCII decimal digit.
pub open spec fn all_digits(s: Seq<char>) -> bool {
    forall|i: int| 0 <= i < s.len() ==> is_digit_char(s[i])
}

/// The numeric value of one digit character.
pub open spec fn digit_val(c: char) -> int {
    c as int - 48
}

/// The value of a digit string read most-significant first.
pub open spec fn digits_val(s: Seq<char>) -> int
    decreases s.len(),
{
    if s.len() == 0 {
        0
    } else {
        digits_val(s.drop_last()) * 10 + digit_val(s.last())
    }
}

proof fn lemma_digits_val_nonneg(s: Seq<char>)
    requires
        all_digits(s),
    ensures
        digits_val(s) >= 0,
    decreases s.len(),
{
    if s.len() > 0 {
        assert(all_digits(s.drop_last()));
        lemma_digits_val_nonneg(s.drop_last());
    }
}

/// Reading further digits never shrinks the value: every prefix of a digit
/// string is worth at most the whole string.
proof fn lemma_digits_val_prefix(s: Seq<char>, k: int)
    requires
        all_digits(s),
        0 <= k <= s.len(),
    ensures
        digits_val(s.subrange(0, k)) <= digits_val(s),
    decreases s.len() - k,
{
    if k < s.len() {
        let next = s.subrange(0, k + 1);
        assert(next.drop_last() =~= s.subrange(0, k));
        assert(all_digits(s.subrange(0, k)));
        lemma_digits_val_nonneg(s.subrange(0, k));
        lemma_digits_val_prefix(s, k + 1);
    } else {
        assert(s.subrange(0, k) =~= s);
    }
}

/// What parsing a signed 32-bit integer from text yields: an optional sign,
/// then one or more decimal digits, and the signed value must fit; any other
/// shape, and any out-of-range value, parses to nothing.
pub open spec fn spec_parse_i32(s: Seq<char>) -> Option<i32> {
    let signed = s.len() > 0 && (s[0] == '-' || s[0] == '+');
    let body = if signed {
        s.subrange(1, s.len() as int)
    } else {
        s
    };
    if body.len() == 0 || !all_digits(body) {
        None
    } else {
        let v = if s.len() > 0 && s[0] == '-' {
            -digits_val(body)
        } else {
            digits_val(body)
        };
        if i32::MIN <= v <= i32::MAX {
            Some(v as i32)
        } else {
            None
        }
    }
}

/// Parses a signed 32-bit integer: an optional `+` or `-` sign followed by
/// one or more decimal digits, rejecting anything else and any value outside
/// the 32-bit range.
pub fn parse_i32(s: &str) -> (r: Option<i32>)
    ensures
        r == spec_parse_i32(s@),
{
    let len = s.unicode_len();
    if len == 0 {
        return None;
    }
    let first = s.get_char(0);
    let negative = first == '-';
    let signed = first == '-' || first == '+';
    let start: usize = if signed {
        1
    } else {
        0
    };
    let ghost body = if signed {
        s@.subrange(1, s@.len() as int)
    } else {
        s@
    };
    if start == len {
        return None;
    }

    let mut acc: i64 = 0;
    let mut i: usize = start;
    while i < len
        invariant
            start <= i <= len,
            len == s@.len(),
            signed == (s@.len() > 0 && (s@[0] == '-' || s@[0] == '+')),
            start == (if signed {
                1int
            } else {
                0int
            }),
            body == (if signed {
                s@.subrange(1, s@.len() as int)
            } else {
                s@
            }),
            all_digits(body.subrange(0, i - start)),
            acc == digits_val(body.subrange(0, i - start)),
            0 <= acc <= 2_147_483_648,
        decreases len - i,
    {
        let c = s.get_char(i);
        let cu = c as u32;
        if cu < 48 || cu > 57 {
            proof {
                assert(body[i - start] == s@[i as int]);
                assert(!is_digit_char(body[i - start]));
                assert(!all_digits(body));
            }
            return None;
        }
        let d = (cu - 48) as i64;
        proof {
            assert(body.subrange(0, i - start + 1).drop_last() =~= body.subrange(0, i - start));
            assert(body.subrange(0, i - start + 1).last() == body[i - start]);
            assert(body[i - start] == s@[i as int]);
        }
        acc = acc * 10 + d;
        i = i + 1;
        if acc > 2_147_483_648 {
            proof {
                assert(all_digits(body) ==> {
                    &&& digits_val(body.subrange(0, i - start)) <= digits_val(body)
                    &&& digits_val(body.subrange(0, i - start)) >= 0
                }) by {
                    if all_digits(body) {
                        lemma_digits_val_prefix(body, i - start);
                        lemma_digits_val_nonneg(body.subrange(0, i - start));
                    }
                }
            }
            return None;
        }
    }
    proof {
        assert(body.subrange(0, len - start) =~= body);
    }

    if negative {
        let v = -acc;
        if v < -2_147_483_648 {
            return None;
        }
        Some(v as i32)
    } else {
        if acc > 2_147_483_647 {
            return None;
        }
        Some(acc as i32)
    }
}

} // verus!
