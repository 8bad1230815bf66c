//! Per-piece movement legality and the geometry of blocking squares.
//!
//! Legality is stateless: a displacement is checked against the moving
//! kind's permitted offsets, and for sliding moves the squares strictly
//! between source and destination are reported so the caller can check that
//! they are vacant. Occupancy is never consulted here.

use vstd::prelude::*;

use crate::coord::Coord;
use crate::coord::col_idx;
use crate::coord::coord_index;
use crate::coord::row_idx;
use crate::kinds::Profession;
use crate::kinds::Side;

verus! {

/// The unsigned column distance of a displacement; column moves are
/// symmetric for every kind.
pub open spec fn dx_abs_spec(src: Coord, dst: Coord) -> int {
    let d = col_idx(dst.0) - col_idx(src.0);
    if d < 0 {
        -d
    } else {
        d
    }
}

/// The signed row displacement, oriented "forward" for the moving side: the
/// second mover's rows are flipped so both sides share one movement table.
pub open spec fn dy_spec(side: Side, src: Coord, dst: Coord) -> int {
    if side == Side::Sente {
        row_idx(dst.1) - row_idx(src.1)
    } else {
        row_idx(src.1) - row_idx(dst.1)
    }
}

/// The movement table: whether a (column-distance, signed row) displacement
/// is permitted for a kind. Negative rows are forward.
pub open spec fn offset_permitted(prof: Profession, dxa: int, dy: int) -> bool {
    match prof {
        Profession::Kyo => dxa == 0 && (dy == -1 || dy == -2 || dy == -3 || dy == -4),
        Profession::Gin => (dxa == 0 && dy == -1) || (dxa == 1 && (dy == 1 || dy == -1)),
        Profession::Kaku => (dxa == 1 && (dy == 1 || dy == -1)) || (dxa == 2 && (dy == 2 || dy
            == -2)) || (dxa == 3 && (dy == 3 || dy == -3)) || (dxa == 4 && (dy == 4 || dy == -4)),
        Profession::To | Profession::Kin => (dxa == 0 && (dy == -1 || dy == 1)) || (dxa == 1 && (dy
            == 0 || dy == -1)),
        Profession::Kei => dxa == 1 && dy == -2,
        Profession::Hi => (dxa == 0 && (dy == -1 || dy == -2 || dy == -3 || dy == -4 || dy == 1
            || dy == 2 || dy == 3 || dy == 4)) || (dy == 0 && (dxa == 1 || dxa == 2 || dxa == 3
            || dxa == 4)),
        Profession::Fu => dxa == 0 && dy == -1,
        Profession::Ou => (dxa == 0 && (dy == -1 || dy == 1)) || (dxa == 1 && (dy == 0 || dy == 1
            || dy == -1)),
    }
}

/// Whether a square lies strictly between source and destination on the
/// move's line: collinear with the displacement (zero cross product), on the
/// ray beyond the source (positive dot product), and strictly nearer than
/// the destination (smaller squared length).
pub open spec fn between(src: Coord, dst: Coord, c: Coord) -> bool {
    let vx = col_idx(dst.0) - col_idx(src.0);
    let vy = row_idx(dst.1) - row_idx(src.1);
    let wx = col_idx(c.0) - col_idx(src.0);
    let wy = row_idx(c.1) - row_idx(src.1);
    vx * wx + vy * wy > 0 && vx * wy - vy * wx == 0 && vx * vx + vy * vy > wx * wx + wy * wy
}

/// Decides whether a square lies strictly between source and destination.
fn between_check(src: Coord, dst: Coord, c: Coord) -> (r: bool)
    ensures
        r == between(src, dst, c),
{
    let (x1, y1) = crate::coord::foo(src);
    let (x2, y2) = crate::coord::foo(dst);
    let (x3, y3) = crate::coord::foo(c);
    let v_x: i64 = x2 as i64 - x1 as i64;
    let v_y: i64 = y2 as i64 - y1 as i64;
    let w_x: i64 = x3 as i64 - x1 as i64;
    let w_y: i64 = y3 as i64 - y1 as i64;
    proof {
        lemma_small_product(v_x as int, w_x as int);
        lemma_small_product(v_y as int, w_y as int);
        lemma_small_product(v_x as int, w_y as int);
        lemma_small_product(v_y as int, w_x as int);
        lemma_small_product(v_x as int, v_x as int);
        lemma_small_product(v_y as int, v_y as int);
        lemma_small_product(w_x as int, w_x as int);
        lemma_small_product(w_y as int, w_y as int);
    }
    v_x * w_x + v_y * w_y > 0 && v_x * w_y - v_y * w_x == 0 && v_x * v_x + v_y * v_y > w_x * w_x
        + w_y * w_y
}

/// The product of two displacements on a 5x5 grid stays within 16.
proof fn lemma_small_product(a: int, b: int)
    requires
        -4 <= a <= 4,
        -4 <= b <= 4,
    ensures
        -16 <= a * b <= 16,
{
    assert(-16 <= a * b <= 16) by (nonlinear_arith)
        requires
            -4 <= a <= 4,
            -4 <= b <= 4,
    ;
}

/// Checks a displacement against the movement table and, if permitted,
/// returns exactly the squares strictly between source and destination,
/// which must be vacant for the move to be legal (none for non-sliding
/// kinds). `None` means the displacement itself is not permitted.
pub fn validate_move_legality(side: Side, src: Coord, dst: Coord, prof: Profession) -> (r: Option<
    Vec<Coord>,
>)
    ensures
        r is Some <==> offset_permitted(prof, dx_abs_spec(src, dst), dy_spec(side, src, dst)),
        r matches Some(v) ==> (forall|c: Coord| v@.contains(c) <==> between(src, dst, c)),
{
    let (x1, y1) = crate::coord::foo(src);
    let (x2, y2) = crate::coord::foo(dst);

    let x_diff: i64 = x2 as i64 - x1 as i64;
    let x_diff_abs: i64 = if x_diff < 0 {
        -x_diff
    } else {
        x_diff
    };

    let y_diff: i64 = if matches!(side, Side::Sente) {
        y2 as i64 - y1 as i64
    } else {
        y1 as i64 - y2 as i64
    };

    let dxa = x_diff_abs;
    let dy = y_diff;
    let permitted: bool = match prof {
        Profession::Kyo => dxa == 0 && (dy == -1 || dy == -2 || dy == -3 || dy == -4),
        Profession::Gin => (dxa == 0 && dy == -1) || (dxa == 1 && (dy == 1 || dy == -1)),
        Profession::Kaku => (dxa == 1 && (dy == 1 || dy == -1)) || (dxa == 2 && (dy == 2 || dy
            == -2)) || (dxa == 3 && (dy == 3 || dy == -3)) || (dxa == 4 && (dy == 4 || dy == -4)),
        Profession::To | Profession::Kin => (dxa == 0 && (dy == -1 || dy == 1)) || (dxa == 1 && (dy
            == 0 || dy == -1)),
        Profession::Kei => dxa == 1 && dy == -2,
        Profession::Hi => (dxa == 0 && (dy == -1 || dy == -2 || dy == -3 || dy == -4 || dy == 1
            || dy == 2 || dy == 3 || dy == 4)) || (dy == 0 && (dxa == 1 || dxa == 2 || dxa == 3
            || dxa == 4)),
        Profession::Fu => dxa == 0 && dy == -1,
        Profession::Ou => (dxa == 0 && (dy == -1 || dy == 1)) || (dxa == 1 && (dy == 0 || dy == 1
            || dy == -1)),
    };
    if !permitted {
        return None;
    }

    let mut ans: Vec<Coord> = Vec::new();
    let mut i: usize = 0;
    while i < 25
        invariant
            i <= 25,
            forall|k: int| 0 <= k < ans@.len() ==> between(src, dst, ans@[k]),
            forall|c: Coord|
                between(src, dst, c) && coord_index(c) < i ==> ans@.contains(c),
        decreases 25 - i,
    {
        let c = crate::coord::coord_from_index(i);
        let ghost prev = ans@;
        if between_check(src, dst, c) {
            ans.push(c);
        }
        proof {
            assert forall|d: Coord|
                between(src, dst, d) && coord_index(d) < i + 1 implies ans@.contains(d) by {
                if coord_index(d) < i {
                    if between(src, dst, d) {
                        let k = choose|k: int| 0 <= k < prev.len() && prev[k] == d;
                        assert(ans@[k] == d);
                    }
                } else {
                    crate::coord::lemma_coord_index_bijective(d, i as int);
                    assert(d == c);
                    assert(ans@[ans@.len() - 1] == c);
                }
            }
        }
        i = i + 1;
    }
    proof {
        assert forall|c: Coord| between(src, dst, c) implies ans@.contains(c) by {
            crate::coord::lemma_coord_index_bijective(c, 0);
        }
    }
    Some(ans)
}

} // verus!
