//! Board coordinates: SGF point encoding, column labels and star points.
use vstd::prelude::*;

use crate::text::{chars_of, push_char};

verus! {

/// A zero-based intersection of the board.
#[derive(Clone, Copy, Debug, PartialEq, Eq, Hash, PartialOrd, Ord, Structural)]
pub struct Vertex {
    pub column: usize,
    pub row: usize,
}

/// Stone colors.
#[derive(Clone, Copy, Debug, PartialEq, Eq, Hash, Structural)]
pub enum Color {
    Black,
    White,
}

impl Color {
    pub open spec fn spec_opponent(self) -> Color {
        match self {
            Color::Black => Color::White,
            Color::White => Color::Black,
        }
    }

    pub fn opponent(self) -> (c: Color)
        ensures
            c == self.spec_opponent(),
    {
        match self {
            Color::Black => Color::White,
            Color::White => Color::Black,
        }
    }
}

/// One played move: a color and an intersection, or a pass (`None`).
#[derive(Clone, Copy, Debug, PartialEq, Eq, Structural)]
pub struct MoveDto {
    pub color: Color,
    pub vertex: Option<Vertex>,
}

/// The character `base + index` (index taken modulo 256), as the byte
/// arithmetic of the encoders produces it.
pub open spec fn offset_char(base: int, index: int) -> char {
    (base + index % 256) as char
}

/// Whether the byte arithmetic `base + (index as u8)` stays within a byte.
pub open spec fn offset_fits(base: int, index: int) -> bool {
    base + index % 256 <= 255
}

/// The SGF point encoding of `v`: column letter then row letter, `a` for 0.
pub open spec fn sgf_point(v: Vertex) -> Seq<char> {
    seq![offset_char(97, v.column as int), offset_char(97, v.row as int)]
}

/// Whether `v` can be encoded without byte overflow.
pub open spec fn sgf_encodable(v: Vertex) -> bool {
    offset_fits(97, v.column as int) && offset_fits(97, v.row as int)
}

pub open spec fn is_ascii_lowercase(c: char) -> bool {
    'a' <= c <= 'z'
}

/// The vertex an SGF point denotes: exactly two lowercase ASCII letters.
pub open spec fn parse_sgf_point(s: Seq<char>) -> Option<Vertex> {
    if s.len() == 2 && is_ascii_lowercase(s[0]) && is_ascii_lowercase(s[1]) {
        Some(Vertex { column: (s[0] as int - 97) as usize, row: (s[1] as int - 97) as usize })
    } else {
        None
    }
}

/// The character `base + index as u8`.
fn offset_byte_char(base: u8, index: usize) -> (c: char)
    requires
        offset_fits(base as int, index as int),
    ensures
        c == offset_char(base as int, index as int),
{
    let low = (index % 256) as u8;
    let byte = base + low;
    byte as char
}

/// The column label used in board margins: `A`, `B`, ... skipping `I`.
pub fn column_letter(column: usize) -> (c: char)
    requires
        column < usize::MAX,
        offset_fits(65, if column >= 8 { column + 1 } else { column as int }),
    ensures
        c == offset_char(65, if column >= 8 { column + 1 } else { column as int }),
{
    let offset = if column >= 8 {
        column + 1
    } else {
        column
    };
    offset_byte_char(65u8, offset)
}

/// Formats a zero-based vertex as an SGF point like `dd` (lowercase).
pub fn format_sgf_vertex(vertex: Vertex) -> (s: String)
    requires
        sgf_encodable(vertex),
    ensures
        s@ == sgf_point(vertex),
{
    let column = offset_byte_char(97u8, vertex.column);
    let row = offset_byte_char(97u8, vertex.row);
    let mut s = String::new();
    push_char(&mut s, column);
    push_char(&mut s, row);
    s
}

/// Parses an SGF point like `dd` back into a zero-based vertex.
pub fn parse_sgf_vertex(value: &str) -> (v: Option<Vertex>)
    ensures
        v == parse_sgf_point(value@),
{
    let characters = chars_of(value);
    if characters.len() != 2 {
        return None;
    }
    let column_char = characters[0];
    let row_char = characters[1];
    if !('a' <= column_char && column_char <= 'z') || !('a' <= row_char && row_char <= 'z') {
        return None;
    }
    Some(
        Vertex {
            column: ((column_char as u32) - 97) as usize,
            row: ((row_char as u32) - 97) as usize,
        },
    )
}

/// Encoding a vertex with both coordinates below 26 and parsing it back
/// yields the vertex.
pub proof fn law_sgf_point_round_trip(v: Vertex)
    requires
        v.column < 26,
        v.row < 26,
    ensures
        sgf_encodable(v),
        parse_sgf_point(sgf_point(v)) == Some(v),
{
}

/// Every point that parses is the encoding of the vertex it parses to.
pub proof fn law_sgf_parse_then_format(s: Seq<char>)
    requires
        parse_sgf_point(s) is Some,
    ensures
        parse_sgf_point(s).unwrap().column < 26,
        parse_sgf_point(s).unwrap().row < 26,
        sgf_point(parse_sgf_point(s).unwrap()) == s,
{
    assert(sgf_point(parse_sgf_point(s).unwrap()) =~= s);
}

/// Star-point lines of one board dimension: the fourth line from each edge,
/// plus the middle line on boards of 13 or more.
pub open spec fn star_lines(n: int) -> Seq<int> {
    if n >= 13 {
        seq![3, n / 2, n - 4]
    } else {
        seq![3, n - 4]
    }
}

/// Star points of a `width` x `height` board (none below 9 lines), columns
/// outer, rows inner.
pub open spec fn star_points(width: int, height: int) -> Seq<(int, int)> {
    if width < 9 || height < 9 {
        Seq::empty()
    } else {
        let cs = star_lines(width);
        let rs = star_lines(height);
        Seq::new(cs.len() * rs.len(), |k: int| (cs[k / rs.len() as int], rs[k % rs.len() as int]))
    }
}

fn star_line_positions(n: usize) -> (v: Vec<usize>)
    requires
        n >= 9,
    ensures
        v@.len() == star_lines(n as int).len(),
        forall|i: int| 0 <= i < v@.len() ==> v@[i] as int == star_lines(n as int)[i],
{
    if n >= 13 {
        vec![3, n / 2, n - 4]
    } else {
        vec![3, n - 4]
    }
}

/// The star points (`(column, row)` pairs) of a board.
pub fn star_point_vertices(width: usize, height: usize) -> (points: Vec<(usize, usize)>)
    ensures
        points@.len() == star_points(width as int, height as int).len(),
        forall|k: int|
            0 <= k < points@.len() ==> (points@[k].0 as int, points@[k].1 as int) == star_points(
                width as int,
                height as int,
            )[k],
{
    if width < 9 || height < 9 {
        return Vec::new();
    }
    let columns = star_line_positions(width);
    let rows = star_line_positions(height);
    let ghost cs = star_lines(width as int);
    let ghost rs = star_lines(height as int);
    let mut result: Vec<(usize, usize)> = Vec::new();
    let mut i: usize = 0;
    while i < columns.len()
        invariant
            columns@.len() == cs.len(),
            rows@.len() == rs.len(),
            2 <= rs.len() <= 3,
            forall|x: int| 0 <= x < columns@.len() ==> columns@[x] as int == cs[x],
            forall|x: int| 0 <= x < rows@.len() ==> rows@[x] as int == rs[x],
            i <= columns.len(),
            result@.len() == i * rows@.len(),
            forall|k: int|
                0 <= k < result@.len() ==> (result@[k].0 as int, result@[k].1 as int) == (
                    cs[k / rs.len() as int],
                    rs[k % rs.len() as int],
                ),
        decreases columns.len() - i,
    {
        let mut j: usize = 0;
        while j < rows.len()
            invariant
                columns@.len() == cs.len(),
                rows@.len() == rs.len(),
                2 <= rs.len() <= 3,
                forall|x: int| 0 <= x < columns@.len() ==> columns@[x] as int == cs[x],
                forall|x: int| 0 <= x < rows@.len() ==> rows@[x] as int == rs[x],
                i < columns.len(),
                j <= rows.len(),
                result@.len() == i * rows@.len() + j,
                forall|k: int|
                    0 <= k < result@.len() ==> (result@[k].0 as int, result@[k].1 as int) == (
                        cs[k / rs.len() as int],
                        rs[k % rs.len() as int],
                    ),
            decreases rows.len() - j,
        {
            let ghost k = result@.len() as int;
            proof {
                let r = rs.len() as int;
                assert(k == i * r + j);
                assert(k / r == i as int && k % r == j as int) by (nonlinear_arith)
                    requires
                        k == i * r + j,
                        0 <= j < r,
                        0 <= i,
                ;
            }
            result.push((columns[i], rows[j]));
            j += 1;
        }
        proof {
            assert((i + 1) * rows@.len() == i * rows@.len() + rows@.len()) by (nonlinear_arith);
        }
        i += 1;
    }
    proof {
        let r = rs.len() as int;
        assert(columns@.len() * r == cs.len() * r);
    }
    result
}

} // verus!

verus! {

/// Boards of 9 or more lines get star points on the fourth line from each
/// edge, plus the middle line from 13 lines up: every point lies on those
/// lines, all four corner points are there, and the center is there on
/// boards of 13 or more lines. Smaller boards get none.
pub proof fn law_star_points_on_the_fourth_lines(width: int, height: int)
    ensures
        (width < 9 || height < 9) ==> star_points(width, height).len() == 0,
        width >= 9 && height >= 9 ==> {
            let pts = star_points(width, height);
            &&& forall|k: int|
                0 <= k < pts.len() ==> ((#[trigger] pts[k]).0 == 3 || pts[k].0 == width - 4 || (width
                    >= 13 && pts[k].0 == width / 2)) && (pts[k].1 == 3 || pts[k].1 == height - 4 || (
                height >= 13 && pts[k].1 == height / 2))
            &&& pts.contains((3, 3)) && pts.contains((3, height - 4)) && pts.contains((width - 4, 3))
                && pts.contains((width - 4, height - 4))
            &&& width >= 13 && height >= 13 ==> pts.contains((width / 2, height / 2))
        },
{
    if width >= 9 && height >= 9 {
        let cs = star_lines(width);
        let rs = star_lines(height);
        let pts = star_points(width, height);
        let m = rs.len() as int;
        assert forall|k: int| 0 <= k < pts.len() implies ((#[trigger] pts[k]).0 == 3 || pts[k].0
            == width - 4 || (width >= 13 && pts[k].0 == width / 2)) && (pts[k].1 == 3 || pts[k].1
            == height - 4 || (height >= 13 && pts[k].1 == height / 2)) by {
            assert(0 <= k / m < cs.len()) by (nonlinear_arith)
                requires
                    0 <= k < cs.len() * m,
                    m > 0,
            ;
            assert(0 <= k % m < m) by (nonlinear_arith)
                requires
                    m > 0,
            ;
        }
        let last_c = cs.len() - 1;
        let last_r = m - 1;
        assert(cs.len() >= 2 && m >= 2);
        assert(cs.len() * m >= 4) by (nonlinear_arith)
            requires
                cs.len() >= 2,
                m >= 2,
        ;
        assert(last_c * m + last_r < cs.len() * m) by (nonlinear_arith)
            requires
                0 <= last_r < m,
                0 <= last_c < cs.len(),
        ;
        assert(pts[0] == (cs[0], rs[0])) by {
            assert(0int / m == 0 && 0int % m == 0) by (nonlinear_arith)
                requires
                    m > 0,
            ;
        }
        assert(pts[last_r] == (cs[0], rs[last_r])) by {
            assert(last_r / m == 0 && last_r % m == last_r) by (nonlinear_arith)
                requires
                    0 <= last_r < m,
            ;
        }
        assert(pts[last_c * m] == (cs[last_c], rs[0])) by {
            assert((last_c * m) / m == last_c && (last_c * m) % m == 0) by (nonlinear_arith)
                requires
                    m > 0,
                    last_c >= 0,
            ;
            assert(last_c * m < cs.len() * m) by (nonlinear_arith)
                requires
                    m > 0,
                    last_c < cs.len(),
            ;
        }
        assert(pts[last_c * m + last_r] == (cs[last_c], rs[last_r])) by {
            assert((last_c * m + last_r) / m == last_c && (last_c * m + last_r) % m == last_r)
                by (nonlinear_arith)
                requires
                    m > 0,
                    last_c >= 0,
                    0 <= last_r < m,
            ;
            assert(last_c * m + last_r < cs.len() * m) by (nonlinear_arith)
                requires
                    0 <= last_r < m,
                    last_c < cs.len(),
            ;
        }
        if width >= 13 && height >= 13 {
            assert(pts[m + 1] == (cs[1], rs[1])) by {
                assert((m + 1) / m == 1 && (m + 1) % m == 1) by (nonlinear_arith)
                    requires
                        m == 3,
                ;
            }
        }
    }
}

} // verus!
