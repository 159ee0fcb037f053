use vstd::prelude::*;

use crate::level::{kind_at, lookup, HexCoordinate, Level};
use crate::tile::TileType;

verus! {

/// Largest column over the cells, or 0 when there are none.
pub open spec fn max_q(s: Seq<(HexCoordinate, TileType)>) -> int
    decreases s.len(),
{
    if s.len() == 0 {
        0
    } else if s.len() == 1 {
        s[0].0.q as int
    } else {
        let m = max_q(s.drop_last());
        if s.last().0.q > m {
            s.last().0.q as int
        } else {
            m
        }
    }
}

/// Largest row over the cells, or 0 when there are none.
pub open spec fn max_r(s: Seq<(HexCoordinate, TileType)>) -> int
    decreases s.len(),
{
    if s.len() == 0 {
        0
    } else if s.len() == 1 {
        s[0].0.r as int
    } else {
        let m = max_r(s.drop_last());
        if s.last().0.r > m {
            s.last().0.r as int
        } else {
            m
        }
    }
}

/// Odd columns sit half a row higher. Negative columns never count as odd
/// (the remainder of a negative number is not positive).
pub open spec fn raised(q: int) -> bool {
    q > 0 && q % 2 == 1
}

/// Cell `a` comes before cell `b` column by column, top row first.
pub open spec fn cell_before(a: HexCoordinate, b: HexCoordinate) -> bool {
    a.q < b.q || (a.q == b.q && a.r < b.r)
}

/// Whether column `q` is one of the raised (odd) columns.
pub fn column_is_raised(q: i32) -> (r: bool)
    ensures
        r == raised(q as int),
{
    q > 0 && (q as u32) % 2 == 1
}

/// Where a cell sits in the grid's lattice: `column` steps of the horizontal
/// spacing from the left, `visual_row` steps of the vertical spacing from
/// the bottom, plus half a step when the column is raised.
#[derive(Clone, Copy, Debug, PartialEq, Eq, Structural)]
pub struct CellPlacement {
    pub column: i64,
    pub visual_row: i64,
    pub raised: bool,
}

/// The layout of a level's cells: how many columns and rows the grid spans,
/// the hex radius in world units, and the tiles.
#[derive(Clone, Debug)]
pub struct HexGrid {
    pub hex_radius: u32,
    pub cols: i32,
    pub rows: i32,
    pub tiles: Vec<(HexCoordinate, TileType)>,
}

impl HexGrid {
    /// The grid of a level: one column past the largest column used and one
    /// row past the largest row used.
    pub fn new(hex_radius: u32, level: &Level) -> (g: HexGrid)
        requires
            forall|i: int|
                0 <= i < level.grid@.len() ==> (#[trigger] level.grid@[i]).0.q < i32::MAX
                    && level.grid@[i].0.r < i32::MAX,
        ensures
            g.hex_radius == hex_radius,
            g.cols == max_q(level.grid@) + 1,
            g.rows == max_r(level.grid@) + 1,
            g.tiles@ == level.grid@,
    {
        let s = &level.grid;
        let n = s.len();
        let mut mq: i32 = 0;
        let mut mr: i32 = 0;
        let mut i: usize = 0;
        while i < n
            invariant
                n == s@.len(),
                i <= n,
                forall|k: int| 0 <= k < s@.len() ==> (#[trigger] s@[k]).0.q < i32::MAX && s@[k].0.r < i32::MAX,
                mq == max_q(s@.take(i as int)),
                mr == max_r(s@.take(i as int)),
                i > 0 ==> mq < i32::MAX && mr < i32::MAX,
            decreases n - i,
        {
            let c = s[i].0;
            proof {
                assert(s@.take(i as int + 1).drop_last() =~= s@.take(i as int));
            }
            if i == 0 || c.q > mq {
                mq = c.q;
            }
            if i == 0 || c.r > mr {
                mr = c.r;
            }
            i = i + 1;
        }
        proof {
            assert(s@.take(n as int) =~= s@);
        }
        let mut tiles: Vec<(HexCoordinate, TileType)> = Vec::new();
        let mut j: usize = 0;
        while j < n
            invariant
                n == s@.len(),
                j <= n,
                tiles@ == s@.take(j as int),
            decreases n - j,
        {
            tiles.push(s[j]);
            proof {
                assert(tiles@ =~= s@.take(j as int + 1));
            }
            j = j + 1;
        }
        proof {
            assert(s@.take(n as int) =~= s@);
        }
        HexGrid { hex_radius, cols: mq + 1, rows: mr + 1, tiles }
    }

    /// Where cell `c` sits in the lattice; the world position is
    /// `offset + column * horizontal spacing` across and
    /// `offset + visual_row * vertical spacing (+ half of it when raised)` up.
    pub fn placement(&self, c: HexCoordinate) -> (p: CellPlacement)
        ensures
            p.column == c.q,
            p.visual_row == self.rows - 1 - c.r,
            p.raised == raised(c.q as int),
    {
        CellPlacement {
            column: c.q as i64,
            visual_row: self.rows as i64 - 1 - c.r as i64,
            raised: column_is_raised(c.q),
        }
    }

    /// The cell at column `q`, at `visual_row` rows up from the bottom, when
    /// it lies within the grid.
    pub fn locate(&self, q: i64, visual_row: i64) -> (r: Option<HexCoordinate>)
        ensures
            r == if 0 <= q < self.cols && 0 <= self.rows - 1 - visual_row < self.rows {
                Some(HexCoordinate { q: q as i32, r: (self.rows - 1 - visual_row) as i32 })
            } else {
                None::<HexCoordinate>
            },
    {
        if q < 0 || q >= self.cols as i64 {
            return None;
        }
        if visual_row < i32::MIN as i64 || visual_row > i32::MAX as i64 {
            return None;
        }
        let r = self.rows as i64 - 1 - visual_row;
        if r < 0 || r >= self.rows as i64 {
            return None;
        }
        Some(HexCoordinate { q: q as i32, r: r as i32 })
    }

    /// Kind of the tile at `c`, if any.
    pub fn kind_at(&self, c: HexCoordinate) -> (r: Option<TileType>)
        ensures
            r == kind_at(self.tiles@, c),
    {
        lookup(&self.tiles, c)
    }

    /// The tiles within the grid's bounds, column by column and top row
    /// first within a column: the order in which tiles are laid out and in
    /// which their effects apply.
    pub fn tiles_in_order(&self) -> (r: Vec<(HexCoordinate, TileType)>)
        ensures
            forall|i: int|
                0 <= i < r@.len() ==> {
                    let c = (#[trigger] r@[i]).0;
                    &&& 0 <= c.q < self.cols
                    &&& 0 <= c.r < self.rows
                    &&& kind_at(self.tiles@, c) == Some(r@[i].1)
                },
            forall|i: int, j: int| 0 <= i < j < r@.len() ==> cell_before(r@[i].0, r@[j].0),
            forall|c: HexCoordinate|
                0 <= c.q < self.cols && 0 <= c.r < self.rows && (#[trigger] kind_at(self.tiles@, c))
                    is Some ==> exists|i: int| 0 <= i < r@.len() && r@[i].0 == c,
    {
        let mut r: Vec<(HexCoordinate, TileType)> = Vec::new();
        let mut q: i32 = 0;
        while q < self.cols
            invariant
                0 <= q,
                q <= self.cols || (q == 0 && r@.len() == 0),
                forall|i: int|
                    0 <= i < r@.len() ==> {
                        let c = (#[trigger] r@[i]).0;
                        &&& 0 <= c.q < q
                        &&& 0 <= c.r < self.rows
                        &&& kind_at(self.tiles@, c) == Some(r@[i].1)
                    },
                forall|i: int, j: int| 0 <= i < j < r@.len() ==> cell_before(r@[i].0, r@[j].0),
                forall|c: HexCoordinate|
                    0 <= c.q < q && 0 <= c.r < self.rows && (#[trigger] kind_at(self.tiles@, c))
                        is Some ==> exists|i: int| 0 <= i < r@.len() && r@[i].0 == c,
            decreases self.cols - q,
        {
            let mut row: i32 = 0;
            let ghost start = r@.len();
            while row < self.rows
                invariant
                    0 <= q < self.cols,
                    0 <= row,
                    row <= self.rows || self.rows <= 0,
                    start <= r@.len(),
                    forall|i: int|
                        0 <= i < r@.len() ==> {
                            let c = (#[trigger] r@[i]).0;
                            &&& 0 <= c.q <= q
                            &&& 0 <= c.r < self.rows
                            &&& kind_at(self.tiles@, c) == Some(r@[i].1)
                            &&& (c.q == q ==> c.r < row)
                        },
                    forall|i: int| start <= i < r@.len() ==> (#[trigger] r@[i]).0.q == q,
                    forall|i: int| 0 <= i < start ==> (#[trigger] r@[i]).0.q < q,
                    forall|i: int, j: int| 0 <= i < j < r@.len() ==> cell_before(r@[i].0, r@[j].0),
                    forall|c: HexCoordinate|
                        (0 <= c.q < q || (c.q == q && 0 <= c.r < row)) && 0 <= c.r < self.rows && (
                        #[trigger] kind_at(self.tiles@, c)) is Some ==> exists|i: int|
                            0 <= i < r@.len() && r@[i].0 == c,
                decreases self.rows - row,
            {
                let c = HexCoordinate { q, r: row };
                match lookup(&self.tiles, c) {
                    Some(k) => {
                        let ghost old_r = r@;
                        r.push((c, k));
                        proof {
                            assert forall|d: HexCoordinate|
                                (0 <= d.q < q || (d.q == q && 0 <= d.r < row + 1)) && 0 <= d.r
                                    < self.rows && (#[trigger] kind_at(self.tiles@, d)) is Some
                                implies exists|i: int| 0 <= i < r@.len() && r@[i].0 == d by {
                                if d == c {
                                    assert(r@[r@.len() - 1].0 == d);
                                } else {
                                    let i = choose|i: int| 0 <= i < old_r.len() && old_r[i].0 == d;
                                    assert(r@[i] == old_r[i]);
                                }
                            }
                        }
                    },
                    None => {},
                }
                row = row + 1;
            }
            q = q + 1;
        }
        r
    }
}

} // verus!
