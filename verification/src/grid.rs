//! The spatial index: a map from 20-unit grid cells to the store indices of
//! the lines passing through them, over the flat `RawStore`.

use std::collections::HashMap;

use vstd::prelude::*;

use crate::fbits::abs_bits;
use crate::fbits::div_euclid_20;
use crate::fbits::eq_bits;
use crate::fbits::floor_to_i64;
use crate::fbits::fmod20_bits;
use crate::fbits::le_bits;
use crate::fbits::lt_bits;
use crate::fbits::spec_abs_bits;
use crate::fbits::spec_eq_bits;
use crate::fbits::spec_floor_to_i64;
use crate::fbits::spec_fmod20;
use crate::fbits::spec_le_bits;
use crate::fbits::spec_lt_bits;
use crate::fbits::spec_total_lt;
use crate::fbits::total_lt_bits;
use crate::fops::add_bits;
use crate::fops::div_bits;
use crate::fops::mul_bits;
use crate::fops::spec_add_bits;
use crate::fops::spec_div_bits;
use crate::fops::spec_mul_bits;
use crate::fops::spec_sqrt_bits;
use crate::fops::spec_sub_bits;
use crate::fops::sqrt_bits;
use crate::fops::sub_bits;
use crate::line::Line;
use crate::line::spec_line_length_squared;
use crate::store::RawStore;
use crate::store::RemoveLineResult;
use crate::store::StoreIndex;
use crate::store::spec_find_line;
use crate::vector::Vector2D;
use crate::vector::spec_length_squared;
use crate::vector::spec_vec_minus;

verus! {

broadcast use vstd::std_specs::hash::group_hash_axioms;

/// Bit pattern of 20.0, the grid cell size.
pub const BITS_CELL_SIZE: u64 = 0x4034_0000_0000_0000;

/// Bit pattern of 2^-52, the machine epsilon nudging downhill walks off
/// exact cell boundaries.
pub const BITS_EPSILON: u64 = 0x3CB0_0000_0000_0000;

/// The most cells a single line walk will visit. At 20 units per cell this
/// covers any line up to about 1.3 billion units long, far beyond what the
/// track formats carry (and beyond where binary64 coordinates can still
/// resolve single cells). Its real purpose is termination: a walk whose
/// step rounds to no forward progress (degenerate or non-finite
/// coordinates) stops here instead of spinning forever.
pub const CELL_WALK_FUEL: usize = 0x0400_0000;

/// Integer coordinates of one 20-by-20 grid cell.
#[derive(Clone, Copy, PartialEq, Eq, Hash, Debug, Structural)]
pub struct CellIndex {
    pub x: i64,
    pub y: i64,
}

/// The cell containing a location: floor each coordinate, then divide by the
/// cell size rounding toward negative infinity.
pub open spec fn spec_cell_of(loc: Vector2D) -> CellIndex {
    CellIndex {
        x: (spec_floor_to_i64(loc.0) / 20) as i64,
        y: (spec_floor_to_i64(loc.1) / 20) as i64,
    }
}

/// The map key of a cell: both coordinates packed into one integer.
pub open spec fn spec_cell_key(c: CellIndex) -> u128 {
    ((c.x as u64 as u128) << 64) | (c.y as u64 as u128)
}

pub fn cell_key(c: CellIndex) -> (r: u128)
    ensures
        r == spec_cell_key(c),
{
    ((c.x as u64 as u128) << 64) | (c.y as u64 as u128)
}

pub fn cell_of(loc: Vector2D) -> (r: CellIndex)
    ensures
        r == spec_cell_of(loc),
{
    let fx = floor_to_i64(loc.0);
    let fy = floor_to_i64(loc.1);
    CellIndex { x: div_euclid_20(fx), y: div_euclid_20(fy) }
}

/// The remainder of a coordinate by the cell size, folded into [0, 20):
/// Rust's `rem_euclid` with a second guard against a negative result.
pub open spec fn spec_rem_floor(v: u64) -> u64 {
    let r = spec_fmod20(v);
    let r2 = if spec_lt_bits(r, 0) {
        spec_add_bits(r, BITS_CELL_SIZE)
    } else {
        r
    };
    if spec_lt_bits(r2, 0) {
        spec_add_bits(r2, BITS_CELL_SIZE)
    } else {
        r2
    }
}

fn rem_floor(v: u64) -> (r: u64)
    ensures
        r == spec_rem_floor(v),
{
    let r = fmod20_bits(v);
    let r2 = if lt_bits(r, 0) {
        add_bits(r, BITS_CELL_SIZE)
    } else {
        r
    };
    if lt_bits(r2, 0) {
        add_bits(r2, BITS_CELL_SIZE)
    } else {
        r2
    }
}

/// One step of the cell walk: advance to the nearest cell boundary, along
/// the line's slope, nudging downhill steps off exact horizontal borders.
pub open spec fn spec_walk_step(p: Vector2D, slope: u64) -> Vector2D {
    let x_until_hit = spec_sub_bits(BITS_CELL_SIZE, spec_rem_floor(p.0));
    let y_until_hit = if spec_le_bits(0, slope) {
        spec_sub_bits(BITS_CELL_SIZE, spec_rem_floor(p.1))
    } else {
        let r = spec_rem_floor(p.1);
        if !spec_eq_bits(r, 0) {
            r
        } else {
            BITS_CELL_SIZE
        }
    };
    let x_until_vert = x_until_hit;
    let x_until_horiz = spec_div_bits(y_until_hit, spec_abs_bits(slope));
    if spec_lt_bits(x_until_vert, x_until_horiz) {
        Vector2D(
            spec_add_bits(p.0, x_until_hit),
            spec_add_bits(p.1, spec_mul_bits(x_until_hit, slope)),
        )
    } else if spec_lt_bits(x_until_horiz, x_until_vert) {
        let x2 = spec_add_bits(p.0, x_until_horiz);
        if spec_le_bits(0, slope) {
            Vector2D(x2, spec_add_bits(p.1, y_until_hit))
        } else {
            let y1 = spec_sub_bits(p.1, y_until_hit);
            Vector2D(x2, spec_sub_bits(y1, spec_mul_bits(BITS_EPSILON, spec_abs_bits(y1))))
        }
    } else {
        Vector2D(spec_add_bits(p.0, x_until_hit), spec_add_bits(p.1, y_until_hit))
    }
}

fn walk_step(p: Vector2D, slope: u64) -> (r: Vector2D)
    ensures
        r == spec_walk_step(p, slope),
{
    let x_until_hit = sub_bits(BITS_CELL_SIZE, rem_floor(p.0));
    let y_until_hit = if le_bits(0, slope) {
        sub_bits(BITS_CELL_SIZE, rem_floor(p.1))
    } else {
        let r = rem_floor(p.1);
        if !eq_bits(r, 0) {
            r
        } else {
            BITS_CELL_SIZE
        }
    };
    let x_until_vert = x_until_hit;
    let x_until_horiz = div_bits(y_until_hit, abs_bits(slope));
    if lt_bits(x_until_vert, x_until_horiz) {
        Vector2D(add_bits(p.0, x_until_hit), add_bits(p.1, mul_bits(x_until_hit, slope)))
    } else if lt_bits(x_until_horiz, x_until_vert) {
        let x2 = add_bits(p.0, x_until_horiz);
        if le_bits(0, slope) {
            Vector2D(x2, add_bits(p.1, y_until_hit))
        } else {
            let y1 = sub_bits(p.1, y_until_hit);
            Vector2D(x2, sub_bits(y1, mul_bits(BITS_EPSILON, abs_bits(y1))))
        }
    } else {
        Vector2D(add_bits(p.0, x_until_hit), add_bits(p.1, y_until_hit))
    }
}

/// The cells a walk visits: the current cell, then the cells of the stepped
/// walk, until the traveled distance passes the line's length or the fuel
/// runs out.
pub open spec fn spec_walk_cells(p: Vector2D, slope: u64, traveled: u64, max: u64, fuel: nat) -> Seq<
    CellIndex,
>
    decreases fuel,
{
    if fuel == 0 {
        Seq::empty()
    } else if spec_lt_bits(max, traveled) {
        Seq::empty()
    } else {
        seq![spec_cell_of(p)] + spec_walk_cells(
            spec_walk_step(p, slope),
            slope,
            spec_add_bits(
                traveled,
                spec_sqrt_bits(spec_length_squared(spec_vec_minus(spec_walk_step(p, slope), p))),
            ),
            max,
            (fuel - 1) as nat,
        )
    }
}

/// Every cell a line passes through: walk from the left-most endpoint along
/// the line's slope until its length is covered.
pub open spec fn spec_cells_of_line(l: Line) -> Seq<CellIndex> {
    let p0 = l.ends.start.location;
    let p1 = l.ends.end.location;
    let start = if spec_total_lt(p1.0, p0.0) {
        p1
    } else {
        p0
    };
    let slope = spec_div_bits(spec_sub_bits(p1.1, p0.1), spec_sub_bits(p1.0, p0.0));
    let max = spec_sqrt_bits(spec_line_length_squared(l));
    spec_walk_cells(start, slope, 0, max, CELL_WALK_FUEL as nat)
}

pub fn cells_of_line(l: &Line) -> (r: Vec<CellIndex>)
    ensures
        r@ == spec_cells_of_line(*l),
{
    let p0 = l.ends.start.location;
    let p1 = l.ends.end.location;
    let start = if total_lt_bits(p1.0, p0.0) {
        p1
    } else {
        p0
    };
    let slope = div_bits(sub_bits(p1.1, p0.1), sub_bits(p1.0, p0.0));
    let max = sqrt_bits(l.length_squared());
    let mut cells: Vec<CellIndex> = Vec::new();
    let mut p = start;
    let mut traveled: u64 = 0;
    let mut fuel: usize = CELL_WALK_FUEL;
    let mut stop = lt_bits(max, traveled);
    while fuel > 0 && !stop
        invariant
            stop == spec_lt_bits(max, traveled),
            spec_cells_of_line(*l) == cells@ + spec_walk_cells(
                p,
                slope,
                traveled,
                max,
                fuel as nat,
            ),
        decreases fuel,
    {
        cells.push(cell_of(p));
        let next = walk_step(p, slope);
        let step_len = sqrt_bits(next.minus(p).length_squared());
        traveled = add_bits(traveled, step_len);
        p = next;
        fuel = fuel - 1;
        stop = lt_bits(max, traveled);
        proof {
            assert(spec_cells_of_line(*l) == cells@ + spec_walk_cells(
                p,
                slope,
                traveled,
                max,
                fuel as nat,
            )) by {
                assert(cells@ =~= cells@.drop_last().push(cells@.last()));
                assert(cells@.drop_last() + (seq![cells@.last()] + spec_walk_cells(
                    p,
                    slope,
                    traveled,
                    max,
                    fuel as nat,
                )) =~= cells@ + spec_walk_cells(p, slope, traveled, max, fuel as nat));
            }
        }
    }
    proof {
        if fuel == 0 || stop {
            assert(spec_walk_cells(p, slope, traveled, max, fuel as nat) =~= Seq::empty());
        }
        assert(cells@ =~= spec_cells_of_line(*l));
    }
    cells
}

/// The index list a cell model holds at a key; empty when the key is absent.
pub open spec fn spec_cell_seq(m: Map<u128, Seq<StoreIndex>>, key: u128) -> Seq<StoreIndex> {
    if m.dom().contains(key) {
        m[key]
    } else {
        Seq::empty()
    }
}

/// Appends `idx` to each listed cell in turn.
pub open spec fn spec_cells_add(
    m: Map<u128, Seq<StoreIndex>>,
    cells: Seq<CellIndex>,
    idx: StoreIndex,
) -> Map<u128, Seq<StoreIndex>>
    decreases cells.len(),
{
    if cells.len() == 0 {
        m
    } else {
        let key = spec_cell_key(cells[0]);
        spec_cells_add(m.insert(key, spec_cell_seq(m, key).push(idx)), cells.drop_first(), idx)
    }
}

/// The first position of `idx` in `s`, or the length of `s` when absent.
pub open spec fn spec_find_index(s: Seq<StoreIndex>, idx: StoreIndex) -> int
    decreases s.len(),
{
    if s.len() == 0 {
        0
    } else if s[0] == idx {
        0
    } else {
        1 + spec_find_index(s.drop_first(), idx)
    }
}

/// Removes one occurrence of `idx` (by swap-removal) from each listed cell
/// that holds it.
pub open spec fn spec_cells_remove(
    m: Map<u128, Seq<StoreIndex>>,
    cells: Seq<CellIndex>,
    idx: StoreIndex,
) -> Map<u128, Seq<StoreIndex>>
    decreases cells.len(),
{
    if cells.len() == 0 {
        m
    } else {
        let key = spec_cell_key(cells[0]);
        let v = spec_cell_seq(m, key);
        let f = spec_find_index(v, idx);
        let m1 = if m.dom().contains(key) && f < v.len() {
            m.insert(key, v.update(f, v.last()).drop_last())
        } else {
            m
        };
        spec_cells_remove(m1, cells.drop_first(), idx)
    }
}

/// `s` with every occurrence of `from` rewritten to `to`.
pub open spec fn spec_rewrite_seq(s: Seq<StoreIndex>, from: StoreIndex, to: StoreIndex) -> Seq<
    StoreIndex,
>
    decreases s.len(),
{
    if s.len() == 0 {
        Seq::empty()
    } else {
        seq![
            if s[0] == from {
                to
            } else {
                s[0]
            },
        ] + spec_rewrite_seq(s.drop_first(), from, to)
    }
}

/// Rewrites `from` to `to` in each listed cell that is present.
pub open spec fn spec_cells_rewrite(
    m: Map<u128, Seq<StoreIndex>>,
    cells: Seq<CellIndex>,
    from: StoreIndex,
    to: StoreIndex,
) -> Map<u128, Seq<StoreIndex>>
    decreases cells.len(),
{
    if cells.len() == 0 {
        m
    } else {
        let key = spec_cell_key(cells[0]);
        let m1 = if m.dom().contains(key) {
            m.insert(key, spec_rewrite_seq(m[key], from, to))
        } else {
            m
        };
        spec_cells_rewrite(m1, cells.drop_first(), from, to)
    }
}

/// The cell model after adding each line of `lines` in order, the first at
/// store index `base`.
pub open spec fn spec_cells_accum(
    m: Map<u128, Seq<StoreIndex>>,
    lines: Seq<Line>,
    base: int,
) -> Map<u128, Seq<StoreIndex>>
    decreases lines.len(),
{
    if lines.len() == 0 {
        m
    } else {
        spec_cells_accum(
            spec_cells_add(m, spec_cells_of_line(lines[0]), StoreIndex(base as usize)),
            lines.drop_first(),
            base + 1,
        )
    }
}

/// The keys of the cells in one column of the query window.
pub open spec fn spec_col_keys(cx: int, cy: int, dy: int, radius: int) -> Seq<u128>
    decreases radius + 1 - dy,
{
    if dy > radius {
        Seq::empty()
    } else {
        seq![spec_cell_key(CellIndex { x: cx as i64, y: (cy + dy) as i64 })] + spec_col_keys(
            cx,
            cy,
            dy + 1,
            radius,
        )
    }
}

/// The keys of all cells within `radius` of the center cell, column by
/// column.
pub open spec fn spec_window_keys(cx: int, cy: int, dx: int, radius: int) -> Seq<u128>
    decreases radius + 1 - dx,
{
    if dx > radius {
        Seq::empty()
    } else {
        spec_col_keys(cx + dx, cy, -radius, radius) + spec_window_keys(cx, cy, dx + 1, radius)
    }
}

/// Appends to `acc` the elements of `s` it does not already hold, in order.
pub open spec fn spec_insert_dedup(acc: Seq<StoreIndex>, s: Seq<StoreIndex>) -> Seq<StoreIndex>
    decreases s.len(),
{
    if s.len() == 0 {
        acc
    } else {
        let acc1 = if acc.contains(s[0]) {
            acc
        } else {
            acc.push(s[0])
        };
        spec_insert_dedup(acc1, s.drop_first())
    }
}

/// Gathers the distinct indices of the cells named by `keys`, keeping the
/// order in which they are first seen.
pub open spec fn spec_gather(
    m: Map<u128, Seq<StoreIndex>>,
    keys: Seq<u128>,
    acc: Seq<StoreIndex>,
) -> Seq<StoreIndex>
    decreases keys.len(),
{
    if keys.len() == 0 {
        acc
    } else {
        spec_gather(m, keys.drop_first(), spec_insert_dedup(acc, spec_cell_seq(m, keys[0])))
    }
}

/// The lines at the given store indices; an index out of range names no
/// line and is skipped.
pub open spec fn spec_lines_at(lines: Seq<Line>, idxs: Seq<StoreIndex>) -> Seq<Line>
    decreases idxs.len(),
{
    if idxs.len() == 0 {
        Seq::empty()
    } else {
        (
        if idxs[0].0 < lines.len() {
            seq![lines[idxs[0].0 as int]]
        } else {
            Seq::empty()
        }) + spec_lines_at(lines, idxs.drop_first())
    }
}

/// The spatial index: the flat store of all lines and a map from cell keys
/// to the store indices of the lines whose walk visits the cell.
#[derive(Debug)]
pub struct Grid {
    lines: RawStore,
    grid: HashMap<u128, Vec<StoreIndex>>,
}

impl Grid {
    /// All stored lines, in storage order.
    pub closed spec fn spec_lines(&self) -> Seq<Line> {
        self.lines.spec_lines()
    }

    /// The cell model: which store indices each cell holds.
    pub closed spec fn spec_cells(&self) -> Map<u128, Seq<StoreIndex>> {
        self.grid@.map_values(|v: Vec<StoreIndex>| v@)
    }

    /// The distinct store indices found in the cells within `radius` of the
    /// cell containing `loc`, in first-seen order.
    pub open spec fn spec_nearby_indices(&self, loc: Vector2D, radius: u8) -> Seq<StoreIndex> {
        let c = spec_cell_of(loc);
        spec_gather(
            self.spec_cells(),
            spec_window_keys(c.x as int, c.y as int, -(radius as int), radius as int),
            Seq::empty(),
        )
    }

    /// What a nearby-lines query returns.
    pub open spec fn spec_lines_near(&self, loc: Vector2D, radius: u8) -> Seq<Line> {
        spec_lines_at(self.spec_lines(), self.spec_nearby_indices(loc, radius))
    }

    /// A grid holding the given lines, added in order.
    pub fn new(lines: &Vec<Line>) -> (r: Grid)
        ensures
            r.spec_lines() == lines@,
            r.spec_cells() == spec_cells_accum(
                Map::<u128, Seq<StoreIndex>>::empty(),
                lines@,
                0,
            ),
    {
        let mut g = Grid { lines: RawStore::new(), grid: HashMap::new() };
        proof {
            assert(g.spec_cells() =~= Map::<u128, Seq<StoreIndex>>::empty());
        }
        proof {
            assert(lines@.skip(0) =~= lines@);
            assert(g.spec_lines() =~= lines@.take(0));
        }
        let mut i: usize = 0;
        while i < lines.len()
            invariant
                i <= lines.len(),
                g.spec_lines() == lines@.take(i as int),
                spec_cells_accum(Map::<u128, Seq<StoreIndex>>::empty(), lines@, 0)
                    == spec_cells_accum(g.spec_cells(), lines@.skip(i as int), i as int),
            decreases lines.len() - i,
        {
            let ghost pre_cells = g.spec_cells();
            g.add_line(lines[i]);
            i = i + 1;
            proof {
                assert(lines@.skip(i - 1).drop_first() =~= lines@.skip(i as int));
                assert(lines@.skip(i - 1)[0] == lines@[i - 1]);
                assert(lines@.take(i - 1).push(lines@[i - 1]) =~= lines@.take(i as int));
            }
        }
        proof {
            assert(lines@.take(lines@.len() as int) =~= lines@);
            assert(lines@.skip(lines@.len() as int) =~= Seq::<Line>::empty());
        }
        g
    }

    /// All lines in the grid.
    pub fn all_lines(&self) -> (r: &Vec<Line>)
        ensures
            r@ == self.spec_lines(),
    {
        self.lines.all_lines()
    }

    /// Adds a line to the store and records its index in every cell its walk
    /// visits.
    pub fn add_line(&mut self, line: Line)
        ensures
            final(self).spec_lines() == old(self).spec_lines().push(line),
            final(self).spec_cells() == spec_cells_add(
                old(self).spec_cells(),
                spec_cells_of_line(line),
                StoreIndex(old(self).spec_lines().len() as usize),
            ),
    {
        let lines_idx = self.lines.add_line(line);
        let cells = cells_of_line(&line);
        let ghost cs = cells@;
        let ghost m0 = self.spec_cells();
        let ghost store_after = self.lines;
        proof {
            assert(cs.skip(0) =~= cs);
        }
        let mut i: usize = 0;
        while i < cells.len()
            invariant
                i <= cells.len(),
                cells@ == cs,
                self.lines == store_after,
                spec_cells_add(m0, cs, lines_idx) == spec_cells_add(
                    self.spec_cells(),
                    cs.skip(i as int),
                    lines_idx,
                ),
            decreases cells.len() - i,
        {
            let key = cell_key(cells[i]);
            let ghost pre = self.spec_cells();
            let mut v: Vec<StoreIndex> = match self.grid.remove(&key) {
                Some(v) => v,
                None => Vec::new(),
            };
            v.push(lines_idx);
            self.grid.insert(key, v);
            i = i + 1;
            proof {
                assert(self.spec_cells() =~= pre.insert(key, spec_cell_seq(pre, key).push(
                    lines_idx,
                )));
                assert(cs.skip(i - 1).drop_first() =~= cs.skip(i as int));
                assert(cs.skip(i - 1)[0] == cs[i - 1]);
            }
        }
        proof {
            assert(cs.skip(cs.len() as int) =~= Seq::<CellIndex>::empty());
        }
    }

    /// Removes the freed index from every cell of the removed line's walk.
    fn remove_index_for_line(&mut self, line: &Line, replaced_idx: StoreIndex)
        ensures
            final(self).lines == old(self).lines,
            final(self).spec_lines() == old(self).spec_lines(),
            final(self).spec_cells() == spec_cells_remove(
                old(self).spec_cells(),
                spec_cells_of_line(*line),
                replaced_idx,
            ),
    {
        let cells = cells_of_line(line);
        let ghost cs = cells@;
        let ghost m0 = self.spec_cells();
        proof {
            assert(cs.skip(0) =~= cs);
        }
        let mut i: usize = 0;
        while i < cells.len()
            invariant
                i <= cells.len(),
                cells@ == cs,
                self.lines == old(self).lines,
                spec_cells_remove(m0, cs, replaced_idx) == spec_cells_remove(
                    self.spec_cells(),
                    cs.skip(i as int),
                    replaced_idx,
                ),
            decreases cells.len() - i,
        {
            let key = cell_key(cells[i]);
            let ghost pre = self.spec_cells();
            match self.grid.remove(&key) {
                Some(mut v) => {
                    let pos = find_index(&v, replaced_idx);
                    if pos < v.len() {
                        v.swap_remove(pos);
                    }
                    self.grid.insert(key, v);
                    proof {
                        let vs = spec_cell_seq(pre, key);
                        let f = spec_find_index(vs, replaced_idx);
                        if f < vs.len() {
                            assert(self.spec_cells() =~= pre.insert(key, vs.update(
                                f,
                                vs.last(),
                            ).drop_last()));
                        } else {
                            assert(self.spec_cells() =~= pre.insert(key, vs));
                            assert(pre.insert(key, vs) =~= pre);
                        }
                    }
                },
                None => {
                    proof {
                        assert(self.spec_cells() =~= pre);
                    }
                },
            }
            i = i + 1;
            proof {
                assert(cs.skip(i - 1).drop_first() =~= cs.skip(i as int));
                assert(cs.skip(i - 1)[0] == cs[i - 1]);
            }
        }
        proof {
            assert(cs.skip(cs.len() as int) =~= Seq::<CellIndex>::empty());
        }
    }

    /// Rewrites the moved index in every cell of the moved line's walk.
    fn rewrite_index_for_line(&mut self, line: &Line, from: StoreIndex, to: StoreIndex)
        ensures
            final(self).lines == old(self).lines,
            final(self).spec_lines() == old(self).spec_lines(),
            final(self).spec_cells() == spec_cells_rewrite(
                old(self).spec_cells(),
                spec_cells_of_line(*line),
                from,
                to,
            ),
    {
        let cells = cells_of_line(line);
        let ghost cs = cells@;
        let ghost m0 = self.spec_cells();
        proof {
            assert(cs.skip(0) =~= cs);
        }
        let mut i: usize = 0;
        while i < cells.len()
            invariant
                i <= cells.len(),
                cells@ == cs,
                self.lines == old(self).lines,
                spec_cells_rewrite(m0, cs, from, to) == spec_cells_rewrite(
                    self.spec_cells(),
                    cs.skip(i as int),
                    from,
                    to,
                ),
            decreases cells.len() - i,
        {
            let key = cell_key(cells[i]);
            let ghost pre = self.spec_cells();
            match self.grid.remove(&key) {
                Some(v) => {
                    let v2 = rewrite_indices(&v, from, to);
                    self.grid.insert(key, v2);
                    proof {
                        assert(self.spec_cells() =~= pre.insert(key, spec_rewrite_seq(
                            pre[key],
                            from,
                            to,
                        )));
                    }
                },
                None => {
                    proof {
                        assert(self.spec_cells() =~= pre);
                    }
                },
            }
            i = i + 1;
            proof {
                assert(cs.skip(i - 1).drop_first() =~= cs.skip(i as int));
                assert(cs.skip(i - 1)[0] == cs[i - 1]);
            }
        }
        proof {
            assert(cs.skip(cs.len() as int) =~= Seq::<CellIndex>::empty());
        }
    }

    /// Removes one occurrence of a line: pops it from the store, clears its
    /// index from the cells of its walk, and, when the store moved its last
    /// line into the freed slot, rewrites that line's index in the cells of
    /// its own walk.
    pub fn remove_line(&mut self, line: &Line)
        ensures
            ({
                let s = old(self).spec_lines();
                let m = old(self).spec_cells();
                let f = spec_find_line(s, *line);
                if f >= s.len() {
                    final(self).spec_lines() == s && final(self).spec_cells() == m
                } else if f == s.len() - 1 {
                    final(self).spec_lines() == s.take(f) && final(self).spec_cells()
                        == spec_cells_remove(
                        m,
                        spec_cells_of_line(*line),
                        StoreIndex(f as usize),
                    )
                } else {
                    final(self).spec_lines() == s.update(f, s.last()).drop_last()
                        && final(self).spec_cells() == spec_cells_rewrite(
                        spec_cells_remove(m, spec_cells_of_line(*line), StoreIndex(f as usize)),
                        spec_cells_of_line(s.last()),
                        StoreIndex((s.len() - 1) as usize),
                        StoreIndex(f as usize),
                    )
                }
            }),
    {
        proof {
            crate::store::lemma_find_line(old(self).spec_lines(), *line);
        }
        let result = self.lines.remove_line(line);
        match result {
            RemoveLineResult::NoneRemoved => {
                proof {
                    let s = old(self).spec_lines();
                    let f = spec_find_line(s, *line);
                    assert(f >= s.len());
                    assert(self.spec_lines() == s);
                    assert(self.spec_cells() =~= old(self).spec_cells());
                }
            },
            RemoveLineResult::RemovedNoSwap(idx) => {
                self.remove_index_for_line(line, idx);
                proof {
                    let s = old(self).spec_lines();
                    let f = spec_find_line(s, *line);
                    assert(0 <= f && f == s.len() - 1);
                    assert(idx == StoreIndex(f as usize));
                    assert(self.spec_lines() == s.take(f));
                    assert(self.spec_cells() == spec_cells_remove(
                        old(self).spec_cells(),
                        spec_cells_of_line(*line),
                        StoreIndex(f as usize),
                    ));
                }
            },
            RemoveLineResult::RemovedAndNeedsSwap { from: from_idx, to: to_idx } => {
                self.remove_index_for_line(line, to_idx);
                proof {
                    let s = old(self).spec_lines();
                    let f = spec_find_line(s, *line);
                    assert(0 <= f && f < s.len() - 1);
                    assert(to_idx == StoreIndex(f as usize));
                    assert(from_idx == StoreIndex((s.len() - 1) as usize));
                    assert(self.spec_lines() == s.update(f, s.last()).drop_last());
                    assert(self.spec_lines().len() == s.len() - 1);
                    assert(self.spec_lines()[f] == s.last());
                }
                if let Some(swapped) = self.lines.line_at(to_idx) {
                    proof {
                        let s = old(self).spec_lines();
                        let f = spec_find_line(s, *line);
                        assert(s.update(f, s.last()).drop_last()[f] == s.update(f, s.last())[f]);
                        assert(swapped == s.last());
                    }
                    self.rewrite_index_for_line(&swapped, from_idx, to_idx);
                }
            },
        }
    }

    /// The distinct lines indexed in the cells within `grid_radius` of the
    /// cell containing `loc`; an index out of range names no line.
    pub fn lines_near(&self, loc: Vector2D, grid_radius: u8) -> (r: Vec<Line>)
        ensures
            r@ == self.spec_lines_near(loc, grid_radius),
            forall|k: int| 0 <= k < r@.len() ==> self.spec_lines().contains(r@[k]),
    {
        let idxs = self.nearby_line_indices(loc, grid_radius);
        let mut out: Vec<Line> = Vec::new();
        let ghost is = idxs@;
        proof {
            assert(is.skip(0) =~= is);
            assert(Seq::<Line>::empty() + spec_lines_at(self.spec_lines(), is) =~= spec_lines_at(
                self.spec_lines(),
                is,
            ));
        }
        let mut i: usize = 0;
        while i < idxs.len()
            invariant
                i <= idxs.len(),
                idxs@ == is,
                out@ + spec_lines_at(self.spec_lines(), is.skip(i as int)) == spec_lines_at(
                    self.spec_lines(),
                    is,
                ),
                forall|k: int| 0 <= k < out@.len() ==> self.spec_lines().contains(out@[k]),
            decreases idxs.len() - i,
        {
            let ghost pre = out@;
            match self.lines.line_at(idxs[i]) {
                Some(l) => {
                    out.push(l);
                    proof {
                        assert(self.spec_lines()[is[i as int].0 as int] == l);
                        assert(self.spec_lines().contains(l));
                    }
                },
                None => {},
            }
            i = i + 1;
            proof {
                assert(is.skip(i - 1).drop_first() =~= is.skip(i as int));
                assert(is.skip(i - 1)[0] == is[i - 1]);
                if is[i - 1].0 < self.spec_lines().len() {
                    assert(pre + (seq![self.spec_lines()[is[i - 1].0 as int]] + spec_lines_at(
                        self.spec_lines(),
                        is.skip(i as int),
                    )) =~= out@ + spec_lines_at(self.spec_lines(), is.skip(i as int)));
                }
            }
        }
        proof {
            assert(is.skip(is.len() as int) =~= Seq::<StoreIndex>::empty());
            assert(out@ + Seq::<Line>::empty() =~= out@);
        }
        out
    }

    /// The distinct store indices in the query window, in first-seen order.
    fn nearby_line_indices(&self, loc: Vector2D, grid_radius: u8) -> (r: Vec<StoreIndex>)
        ensures
            r@ == self.spec_nearby_indices(loc, grid_radius),
    {
        let center = cell_of(loc);
        let radius = grid_radius as i64;
        let mut keys: Vec<u128> = Vec::new();
        proof {
            assert(keys@ + spec_window_keys(
                center.x as int,
                center.y as int,
                -(radius as int),
                radius as int,
            ) =~= spec_window_keys(
                center.x as int,
                center.y as int,
                -(radius as int),
                radius as int,
            ));
        }
        let mut dx: i64 = 0 - radius;
        while dx <= radius
            invariant
                -radius <= dx <= radius + 1,
                -500_000_000_000_000_000 <= center.x <= 500_000_000_000_000_000,
                -500_000_000_000_000_000 <= center.y <= 500_000_000_000_000_000,
                0 <= radius <= 255,
                keys@ + spec_window_keys(center.x as int, center.y as int, dx as int, radius as int)
                    == spec_window_keys(
                    center.x as int,
                    center.y as int,
                    -(radius as int),
                    radius as int,
                ),
            decreases radius + 1 - dx,
        {
            let mut dy: i64 = 0 - radius;
            while dy <= radius
                invariant
                    -radius <= dy <= radius + 1,
                    -radius <= dx <= radius,
                    -500_000_000_000_000_000 <= center.x <= 500_000_000_000_000_000,
                    -500_000_000_000_000_000 <= center.y <= 500_000_000_000_000_000,
                    0 <= radius <= 255,
                    keys@ + spec_col_keys(
                        (center.x + dx) as int,
                        center.y as int,
                        dy as int,
                        radius as int,
                    ) + spec_window_keys(
                        center.x as int,
                        center.y as int,
                        dx + 1 as int,
                        radius as int,
                    ) == spec_window_keys(
                        center.x as int,
                        center.y as int,
                        -(radius as int),
                        radius as int,
                    ),
                decreases radius + 1 - dy,
            {
                keys.push(cell_key(CellIndex { x: center.x + dx, y: center.y + dy }));
                dy = dy + 1;
                proof {
                    assert(keys@ + spec_col_keys(
                        (center.x + dx) as int,
                        center.y as int,
                        dy as int,
                        radius as int,
                    ) + spec_window_keys(
                        center.x as int,
                        center.y as int,
                        dx + 1 as int,
                        radius as int,
                    ) =~= keys@.drop_last() + spec_col_keys(
                        (center.x + dx) as int,
                        center.y as int,
                        dy - 1 as int,
                        radius as int,
                    ) + spec_window_keys(
                        center.x as int,
                        center.y as int,
                        dx + 1 as int,
                        radius as int,
                    ));
                }
            }
            dx = dx + 1;
            proof {
                assert(spec_col_keys(
                    (center.x + (dx - 1)) as int,
                    center.y as int,
                    radius as int + 1,
                    radius as int,
                ) =~= Seq::<u128>::empty());
                assert(keys@ + Seq::<u128>::empty() + spec_window_keys(
                    center.x as int,
                    center.y as int,
                    dx as int,
                    radius as int,
                ) =~= keys@ + spec_window_keys(
                    center.x as int,
                    center.y as int,
                    dx as int,
                    radius as int,
                ));
            }
        }
        proof {
            assert(spec_window_keys(center.x as int, center.y as int, dx as int, radius as int)
                =~= Seq::<u128>::empty());
            assert(keys@ + Seq::<u128>::empty() =~= keys@);
        }
        let ghost ks = keys@;
        let mut seen: Vec<StoreIndex> = Vec::new();
        proof {
            assert(ks.skip(0) =~= ks);
        }
        let mut i: usize = 0;
        while i < keys.len()
            invariant
                i <= keys.len(),
                keys@ == ks,
                spec_gather(self.spec_cells(), ks.skip(i as int), seen@) == spec_gather(
                    self.spec_cells(),
                    ks,
                    Seq::empty(),
                ),
            decreases keys.len() - i,
        {
            let ghost pre_seen = seen@;
            match self.grid.get(&keys[i]) {
                Some(v) => {
                    let ghost vs = v@;
                    proof {
                        assert(spec_cell_seq(self.spec_cells(), ks[i as int]) == vs);
                        assert(vs.skip(0) =~= vs);
                    }
                    let mut j: usize = 0;
                    while j < v.len()
                        invariant
                            j <= v.len(),
                            v@ == vs,
                            spec_insert_dedup(seen@, vs.skip(j as int)) == spec_insert_dedup(
                                pre_seen,
                                vs,
                            ),
                        decreases v.len() - j,
                    {
                        if !contains_index(&seen, v[j]) {
                            seen.push(v[j]);
                        }
                        j = j + 1;
                        proof {
                            assert(vs.skip(j - 1).drop_first() =~= vs.skip(j as int));
                            assert(vs.skip(j - 1)[0] == vs[j - 1]);
                        }
                    }
                    proof {
                        assert(vs.skip(vs.len() as int) =~= Seq::<StoreIndex>::empty());
                    }
                },
                None => {
                    proof {
                        assert(spec_cell_seq(self.spec_cells(), ks[i as int]) =~= Seq::<
                            StoreIndex,
                        >::empty());
                        assert(spec_insert_dedup(seen@, Seq::<StoreIndex>::empty()) == seen@);
                    }
                },
            }
            i = i + 1;
            proof {
                assert(ks.skip(i - 1).drop_first() =~= ks.skip(i as int));
                assert(ks.skip(i - 1)[0] == ks[i - 1]);
            }
        }
        proof {
            assert(ks.skip(ks.len() as int) =~= Seq::<u128>::empty());
        }
        seen
    }
}

fn find_index(v: &Vec<StoreIndex>, idx: StoreIndex) -> (r: usize)
    ensures
        r == spec_find_index(v@, idx),
{
    let ghost s = v@;
    let mut i: usize = 0;
    while i < v.len() && !(v[i].0 == idx.0)
        invariant
            i <= v.len(),
            v@ == s,
            forall|k: int| 0 <= k < i ==> s[k] != idx,
        decreases v.len() - i,
    {
        i = i + 1;
    }
    proof {
        lemma_find_index(s, idx);
        if i < s.len() {
            assert(s[i as int] == idx);
        }
    }
    i
}

pub proof fn lemma_find_index(s: Seq<StoreIndex>, idx: StoreIndex)
    ensures
        0 <= spec_find_index(s, idx) <= s.len(),
        spec_find_index(s, idx) < s.len() ==> s[spec_find_index(s, idx)] == idx,
        forall|k: int| 0 <= k < spec_find_index(s, idx) ==> s[k] != idx,
    decreases s.len(),
{
    if s.len() > 0 && s[0] != idx {
        lemma_find_index(s.drop_first(), idx);
        let f = spec_find_index(s, idx);
        assert forall|k: int| 0 <= k < f implies s[k] != idx by {
            if k > 0 {
                assert(s.drop_first()[k - 1] == s[k]);
            }
        }
        if f < s.len() {
            assert(s.drop_first()[f - 1] == s[f]);
        }
    }
}

fn rewrite_indices(v: &Vec<StoreIndex>, from: StoreIndex, to: StoreIndex) -> (r: Vec<StoreIndex>)
    ensures
        r@ == spec_rewrite_seq(v@, from, to),
{
    let mut out: Vec<StoreIndex> = Vec::new();
    let ghost s = v@;
    proof {
        assert(s.skip(0) =~= s);
        assert(Seq::<StoreIndex>::empty() + spec_rewrite_seq(s, from, to) =~= spec_rewrite_seq(
            s,
            from,
            to,
        ));
    }
    let mut i: usize = 0;
    while i < v.len()
        invariant
            i <= v.len(),
            v@ == s,
            out@ + spec_rewrite_seq(s.skip(i as int), from, to) == spec_rewrite_seq(s, from, to),
        decreases v.len() - i,
    {
        let ghost pre = out@;
        if v[i].0 == from.0 {
            out.push(to);
        } else {
            out.push(v[i]);
        }
        i = i + 1;
        proof {
            assert(s.skip(i - 1).drop_first() =~= s.skip(i as int));
            assert(s.skip(i - 1)[0] == s[i - 1]);
            assert(pre + (seq![
                if s[i - 1] == from {
                    to
                } else {
                    s[i - 1]
                },
            ] + spec_rewrite_seq(s.skip(i as int), from, to)) =~= out@ + spec_rewrite_seq(
                s.skip(i as int),
                from,
                to,
            ));
        }
    }
    proof {
        assert(s.skip(s.len() as int) =~= Seq::<StoreIndex>::empty());
        assert(out@ + Seq::<StoreIndex>::empty() =~= out@);
    }
    out
}

fn contains_index(v: &Vec<StoreIndex>, idx: StoreIndex) -> (r: bool)
    ensures
        r == v@.contains(idx),
{
    let mut i: usize = 0;
    while i < v.len()
        invariant
            i <= v.len(),
            forall|k: int| 0 <= k < i ==> v@[k] != idx,
        decreases v.len() - i,
    {
        if v[i].0 == idx.0 {
            return true;
        }
        i = i + 1;
    }
    false
}

} // verus!
