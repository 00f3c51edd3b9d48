use std::collections::VecDeque;

use vstd::arithmetic::div_mod::{
    lemma_div_pos_is_pos, lemma_fundamental_div_mod, lemma_mod_bound, lemma_multiply_divide_lt,
};
use vstd::prelude::*;

use crate::point::{in_grid, Point};
use crate::rng;

verus! {

broadcast use vstd::set::group_set_axioms;

/// The grid cell visited at position `k` of the fixed respawn scan, which
/// walks the arena column by column: `x` from `0` to `width`, and `y` from
/// `0` to `height` inside each column.
spec fn scan_cell(height: int, k: int) -> Point {
    Point { x: (k / height) as isize, y: (k % height) as isize }
}

/// How many cells at scan positions `k..width * height` are not obstructed.
spec fn free_cells_from(occupied: Set<Point>, width: int, height: int, k: int) -> int
    decreases width * height - k,
{
    if k < 0 || k >= width * height {
        0
    } else {
        (if occupied.contains(scan_cell(height, k)) {
            0int
        } else {
            1int
        }) + free_cells_from(occupied, width, height, k + 1)
    }
}

/// Distinct scan positions visit distinct cells.
proof fn lemma_scan_cell_injective(width: int, height: int, k1: int, k2: int)
    requires
        1 <= height <= isize::MAX,
        width <= isize::MAX,
        0 <= k1 < width * height,
        0 <= k2 < width * height,
        k1 != k2,
    ensures
        scan_cell(height, k1) != scan_cell(height, k2),
{
    lemma_mod_bound(k1, height);
    lemma_mod_bound(k2, height);
    lemma_div_pos_is_pos(k1, height);
    lemma_div_pos_is_pos(k2, height);
    vstd::arithmetic::mul::lemma_mul_is_commutative(width, height);
    lemma_multiply_divide_lt(k1, height, width);
    lemma_multiply_divide_lt(k2, height, width);
    if scan_cell(height, k1) == scan_cell(height, k2) {
        lemma_fundamental_div_mod(k1, height);
        lemma_fundamental_div_mod(k2, height);
        assert(k1 / height == k2 / height);
        assert(k1 % height == k2 % height);
        assert(false);
    }
}

/// An obstruction that no cell of the remaining scan ever visits does not
/// change the free-cell count of that remaining scan.
proof fn lemma_free_cells_drop_unseen(
    occupied: Set<Point>,
    p: Point,
    width: int,
    height: int,
    k: int,
)
    requires
        forall|j: int| k <= j < width * height ==> scan_cell(height, j) != p,
    ensures
        free_cells_from(occupied.remove(p), width, height, k) == free_cells_from(
            occupied,
            width,
            height,
            k,
        ),
    decreases width * height - k,
{
    if 0 <= k < width * height {
        assert(scan_cell(height, k) != p);
        lemma_free_cells_drop_unseen(occupied, p, width, height, k + 1);
    }
}

/// At least `width * height - k - |occupied|` of the cells at scan
/// positions `k..width * height` are free: each obstruction can block at
/// most one scan position.
proof fn lemma_free_cells_lower_bound(occupied: Set<Point>, width: int, height: int, k: int)
    requires
        occupied.finite(),
        0 <= k,
        1 <= height <= isize::MAX,
        width <= isize::MAX,
    ensures
        free_cells_from(occupied, width, height, k) >= (width * height - k) - occupied.len(),
    decreases width * height - k,
{
    if k >= width * height {
        assert(occupied.len() >= 0);
    } else {
        let c = scan_cell(height, k);
        if occupied.contains(c) {
            let rest = occupied.remove(c);
            assert forall|j: int| k + 1 <= j < width * height implies scan_cell(height, j)
                != c by {
                lemma_scan_cell_injective(width, height, k, j);
            }
            lemma_free_cells_drop_unseen(occupied, c, width, height, k + 1);
            lemma_free_cells_lower_bound(rest, width, height, k + 1);
        } else {
            lemma_free_cells_lower_bound(occupied, width, height, k + 1);
        }
    }
}

/// Whether `p` occurs in `v`.
fn contains_point(v: &VecDeque<Point>, p: Point) -> (r: bool)
    ensures
        r == v@.contains(p),
{
    let mut idx: usize = 0;
    while idx < v.len()
        invariant
            0 <= idx <= v@.len(),
            forall|m: int| 0 <= m < idx ==> v@[m] != p,
        decreases v@.len() - idx,
    {
        if v[idx] == p {
            return true;
        }
        idx += 1;
    }
    false
}

/// The food cell: a single point on the grid.
#[derive(Debug, Clone, Copy, PartialEq, Eq, Structural)]
pub struct Apple(pub Point);

impl View for Apple {
    type V = Point;

    open spec fn view(&self) -> Point {
        self.0
    }
}

impl Apple {
    /// Respawns the apple on a cell that none of `occupied` covers, chosen
    /// by drawing a random rank and walking the fixed column-major scan,
    /// skipping obstructed cells, until the rank is spent. The grid must
    /// keep at least two cells free beside the obstructions; a match that
    /// full must already have been ended by the caller.
    pub fn new(occupied: &VecDeque<Point>, width: usize, height: usize) -> (r: Apple)
        requires
            occupied@.no_duplicates(),
            occupied@.len() + 2 <= width * height,
            width * height <= usize::MAX,
            width <= isize::MAX,
            height <= isize::MAX,
        ensures
            !occupied@.contains(r@),
            in_grid(r@, width as int, height as int),
    {
        let ghost occ_set = occupied@.to_set();
        proof {
            assert(height >= 1) by {
                if height == 0 {
                    assert(width * height == 0);
                }
            }
            occupied@.unique_seq_to_set();
            vstd::seq_lib::seq_to_set_is_finite(occupied@);
            lemma_free_cells_lower_bound(occ_set, width as int, height as int, 0);
        }

        let total = width * height;
        let free_count = total - occupied.len();
        let mut i = rng::random_usize_in(1, free_count);
        let mut k: usize = 0;
        while k < total
            invariant
                0 <= k <= total,
                total == width * height,
                width <= isize::MAX,
                1 <= height <= isize::MAX,
                occ_set == occupied@.to_set(),
                1 <= i,
                i <= free_cells_from(occ_set, width as int, height as int, k as int),
            decreases total - k,
        {
            let x = k / height;
            let y = k % height;
            proof {
                lemma_mod_bound(k as int, height as int);
                lemma_div_pos_is_pos(k as int, height as int);
                vstd::arithmetic::mul::lemma_mul_is_commutative(width as int, height as int);
                lemma_multiply_divide_lt(k as int, height as int, width as int);
            }
            let p = Point::new(x as isize, y as isize);
            proof {
                assert(p == scan_cell(height as int, k as int));
            }
            if !contains_point(occupied, p) {
                if i == 1 {
                    proof {
                        assert(!occ_set.contains(p));
                    }
                    return Apple(p);
                }
                i -= 1;
            }
            k += 1;
        }
        proof {
            assert(free_cells_from(occ_set, width as int, height as int, total as int) == 0);
            assert(false);
        }
        vstd::pervasive::unreached()
    }

    /// Where the apple lies.
    pub fn position(&self) -> (r: &Point)
        ensures
            *r == self@,
    {
        &self.0
    }
}

impl From<Point> for Apple {
    /// An apple placed directly on the given cell.
    fn from(value: Point) -> (r: Self) {
        Apple(value)
    }
}

impl vstd::std_specs::convert::FromSpecImpl<Point> for Apple {
    open spec fn obeys_from_spec() -> bool {
        true
    }

    open spec fn from_spec(t: Point) -> Apple {
        Apple(t)
    }
}

} // verus!
