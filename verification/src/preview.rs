//! Principal-variation previews: GTP vertices such as `D4` projected onto the
//! board as numbered ghost stones of alternating colors.
use vstd::prelude::*;

use crate::board::{Color, Vertex};
use crate::text::chars_of;

verus! {

/// Zero-based column of a GTP column letter (`A` to `Z` without `I`, in
/// either case); `-1` for any other character.
pub open spec fn gtp_column_index(c: char) -> int {
    let u = c as int;
    if 65 <= u <= 72 {
        u - 65
    } else if 74 <= u <= 90 {
        u - 66
    } else if 97 <= u <= 104 {
        u - 97
    } else if 106 <= u <= 122 {
        u - 98
    } else {
        -1
    }
}

pub open spec fn is_decimal_digit(c: char) -> bool {
    48 <= c as int <= 57
}

/// The number a string of decimal digits spells.
pub open spec fn decimal_value(s: Seq<char>) -> int
    decreases s.len(),
{
    if s.len() == 0 {
        0
    } else {
        decimal_value(s.drop_last()) * 10 + (s.last() as int - 48)
    }
}

/// The `(column, row)` that the GTP vertex `s` names on a board `width`
/// wide, rows counted from the bottom edge; `None` for `pass` and for
/// anything that names no intersection of the board.
pub open spec fn gtp_vertex(width: int, s: Seq<char>) -> Option<(int, int)> {
    if s.len() >= 2 && gtp_column_index(s[0]) >= 0 && (forall|i: int|
        1 <= i < s.len() ==> is_decimal_digit(#[trigger] s[i])) {
        let column = gtp_column_index(s[0]);
        let number = decimal_value(s.subrange(1, s.len() as int));
        if column < width && 1 <= number <= width {
            Some((column, width - number))
        } else {
            None
        }
    } else {
        None
    }
}

proof fn lemma_decimal_value_nonnegative(s: Seq<char>)
    requires
        forall|i: int| 0 <= i < s.len() ==> is_decimal_digit(#[trigger] s[i]),
    ensures
        decimal_value(s) >= 0,
    decreases s.len(),
{
    if s.len() > 0 {
        lemma_decimal_value_nonnegative(s.drop_last());
    }
}

/// Appending digits never makes the value smaller.
proof fn lemma_decimal_value_prefix(s: Seq<char>, k: int)
    requires
        0 <= k <= s.len(),
        forall|i: int| 0 <= i < s.len() ==> is_decimal_digit(#[trigger] s[i]),
    ensures
        decimal_value(s.take(k)) <= decimal_value(s),
    decreases s.len(),
{
    if k == s.len() {
        assert(s.take(k) =~= s);
    } else {
        lemma_decimal_value_prefix(s.drop_last(), k);
        assert(s.drop_last().take(k) =~= s.take(k));
        lemma_decimal_value_nonnegative(s.drop_last());
    }
}

/// Parses a GTP vertex such as `D4` into `(column, row)` on a board
/// `board_width` wide, rows counted from the bottom edge. `None` for `pass`
/// and for anything that names no intersection of the board.
pub fn parse_gtp_vertex(board_width: usize, value: &str) -> (v: Option<(usize, usize)>)
    ensures
        match gtp_vertex(board_width as int, value@) {
            Some((column, row)) => v == Some((column as usize, row as usize)),
            None => v is None,
        },
{
    let chars = chars_of(value);
    if chars.len() < 2 {
        return None;
    }
    let first = chars[0];
    let column: usize = if 'A' <= first && first <= 'H' {
        (first as u32 - 65) as usize
    } else if 'J' <= first && first <= 'Z' {
        (first as u32 - 66) as usize
    } else if 'a' <= first && first <= 'h' {
        (first as u32 - 97) as usize
    } else if 'j' <= first && first <= 'z' {
        (first as u32 - 98) as usize
    } else {
        return None;
    };
    let wide = board_width as u128;
    let mut number: u128 = 0;
    let mut i: usize = 1;
    let ghost digits = value@.subrange(1, value@.len() as int);
    while i < chars.len()
        invariant
            chars@ == value@,
            chars@.len() >= 2,
            digits == value@.subrange(1, value@.len() as int),
            1 <= i <= chars.len(),
            wide == board_width,
            number <= wide,
            number == decimal_value(digits.take(i - 1)),
            forall|j: int| 1 <= j < i ==> is_decimal_digit(#[trigger] chars@[j]),
        decreases chars.len() - i,
    {
        let c = chars[i];
        if !('0' <= c && c <= '9') {
            assert(!is_decimal_digit(value@[i as int]));
            return None;
        }
        assert(digits.take(i as int).drop_last() =~= digits.take(i - 1));
        assert(digits.take(i as int).last() == c);
        number = number * 10 + (c as u32 - 48) as u128;
        i += 1;
        if number > wide {
            proof {
                if forall|j: int| 1 <= j < value@.len() ==> is_decimal_digit(#[trigger] value@[j]) {
                    assert forall|j: int| 0 <= j < digits.len() implies is_decimal_digit(
                        #[trigger] digits[j],
                    ) by {
                        assert(digits[j] == value@[j + 1]);
                    }
                    lemma_decimal_value_prefix(digits, i - 1);
                }
            }
            return None;
        }
    }
    assert(digits.take(i - 1) =~= digits);
    if number == 0 || column >= board_width {
        return None;
    }
    Some((column, board_width - number as usize))
}

/// The numbered points of a preview of the moves `toks`, the first played
/// by `first`, and the color to move after them. A move that names no
/// intersection is skipped and keeps the color.
pub open spec fn preview_state(width: int, first: Color, toks: Seq<Seq<char>>) -> (
    Seq<(Vertex, Color, usize)>,
    Color,
)
    decreases toks.len(),
{
    if toks.len() == 0 {
        (Seq::empty(), first)
    } else {
        let (points, next) = preview_state(width, first, toks.drop_last());
        match gtp_vertex(width, toks.last()) {
            Some((column, row)) => (
                points.push(
                    (
                        Vertex { column: column as usize, row: row as usize },
                        next,
                        (points.len() + 1) as usize,
                    ),
                ),
                next.spec_opponent(),
            ),
            None => (points, next),
        }
    }
}

pub open spec fn string_chars() -> spec_fn(String) -> Seq<char> {
    |s: String| s@
}

/// The characters of the first `limit` moves of `pv`.
pub open spec fn leading_moves(pv: Seq<String>, limit: int) -> Seq<Seq<char>> {
    pv.take(if limit < pv.len() {
        limit
    } else {
        pv.len() as int
    }).map_values(string_chars())
}

/// Projects a GTP principal variation into numbered ghost stones, colors
/// alternating from `next_player`; moves that name no intersection (a pass,
/// anything unparsable) are skipped. Only the first `limit` moves are read.
pub fn pv_preview_points(board_width: usize, next_player: Color, pv: &[String], limit: usize) -> (points: Vec<
    (Vertex, Color, usize),
>)
    ensures
        points@ == preview_state(board_width as int, next_player, leading_moves(pv@, limit as int)).0,
{
    let end = if limit < pv.len() {
        limit
    } else {
        pv.len()
    };
    let ghost toks = leading_moves(pv@, limit as int);
    let mut color = next_player;
    let mut points: Vec<(Vertex, Color, usize)> = Vec::new();
    let mut i: usize = 0;
    while i < end
        invariant
            end <= pv@.len(),
            toks == leading_moves(pv@, limit as int),
            toks.len() == end,
            i <= end,
            (points@, color) == preview_state(board_width as int, next_player, toks.take(i as int)),
            points@.len() <= i,
        decreases end - i,
    {
        let ghost prefix = toks.take(i as int);
        assert(toks.take(i + 1).drop_last() =~= prefix);
        assert(toks[i as int] == pv@[i as int]@);
        match parse_gtp_vertex(board_width, pv[i].as_str()) {
            Some((column, row)) => {
                let number = points.len() + 1;
                points.push((Vertex { column, row }, color, number));
                color = color.opponent();
            },
            None => {},
        }
        i += 1;
    }
    assert(toks.take(end as int) =~= toks);
    points
}

/// Preview points are numbered `1, 2, 3, ...` in order, the first is played
/// by `first`, and colors alternate from one point to the next; the color to
/// move after them is the opponent of the last point's.
pub proof fn law_preview_numbered_and_alternating(width: int, first: Color, toks: Seq<Seq<char>>)
    ensures
        ({
            let (points, next) = preview_state(width, first, toks);
            &&& forall|i: int| 0 <= i < points.len() ==> (#[trigger] points[i]).2 == (i + 1) as usize
            &&& points.len() > 0 ==> points[0].1 == first
            &&& forall|i: int|
                0 <= i < points.len() - 1 ==> (#[trigger] points[i + 1]).1 == points[i].1.spec_opponent()
            &&& next == if points.len() == 0 {
                first
            } else {
                points.last().1.spec_opponent()
            }
        }),
    decreases toks.len(),
{
    if toks.len() > 0 {
        law_preview_numbered_and_alternating(width, first, toks.drop_last());
        let (points, next) = preview_state(width, first, toks.drop_last());
        match gtp_vertex(width, toks.last()) {
            Some((column, row)) => {
                let grown = points.push(
                    (Vertex { column: column as usize, row: row as usize }, next, (points.len() + 1) as usize),
                );
                assert forall|i: int| 0 <= i < grown.len() - 1 implies (#[trigger] grown[i + 1]).1
                    == grown[i].1.spec_opponent() by {
                    if i + 1 < points.len() {
                        assert(grown[i + 1] == points[i + 1]);
                    }
                }
            },
            None => {},
        }
    }
}

} // verus!

verus! {

/// A GTP vertex names an intersection of the board, its rows counted from the
/// bottom edge (row `0` is the top line, number `width`); its first
/// character is a column letter other than `I`, and the rest is the row
/// number in decimal digits.
pub proof fn law_gtp_rows_count_from_the_bottom(width: int, s: Seq<char>)
    ensures
        gtp_vertex(width, s) matches Some((c, r)) ==> {
            &&& 0 <= c < width && 0 <= r < width
            &&& r + decimal_value(s.subrange(1, s.len() as int)) == width
            &&& s[0] != 'I' && s[0] != 'i'
            &&& forall|i: int| 1 <= i < s.len() ==> is_decimal_digit(#[trigger] s[i])
        },
{
}

} // verus!
