//! A track: the authored lines behind the spatial grid, the riders of frame
//! zero, and a lazily extended cache of later frames. Every frame is a pure
//! function of the initial riders, the line set and the frame index; editing
//! the track truncates the cache back to frame zero.

use vstd::prelude::*;

use crate::fbits::spec_total_lt;
use crate::fbits::total_lt_bits;
use crate::fops::mul_bits;
use crate::fops::spec_mul_bits;
use crate::grid::Grid;
use crate::grid::spec_cells_accum;
use crate::grid::spec_cells_add;
use crate::grid::spec_cells_of_line;
use crate::line::Line;
use crate::physics::EntityModel;
use crate::physics::UpdateBonesResult;
use crate::physics::distance_below_line as physics_distance_below_line;
use crate::physics::frame_riders;
use crate::physics::spec_apply_all_physics;
use crate::physics::spec_default_gravity;
use crate::physics::spec_distance_below_line;
use crate::physics::spec_frame_after;
use crate::physics::spec_shape_ok;
use crate::rider::Entity;
use crate::rider::EntityPoint;
use crate::store::StoreIndex;
use crate::store::spec_find_line;
use crate::vector::Vector2D;
use crate::vector::spec_distance_squared;

verus! {

/// The ghost values of a list of riders.
pub open spec fn spec_models_of(s: Seq<Entity>) -> Seq<EntityModel> {
    s.map_values(|e: Entity| e.model())
}

/// Every rider of the list is well-formed.
pub open spec fn spec_all_shapes_ok(s: Seq<EntityModel>) -> bool {
    forall|i: int| 0 <= i < s.len() ==> spec_shape_ok(#[trigger] s[i])
}

/// One rider of the list is well-formed.
pub open spec fn spec_all_shapes_ok_at(s: Seq<EntityModel>, i: int) -> bool {
    0 <= i < s.len() ==> spec_shape_ok(s[i])
}

/// The riders at a frame: frame zero is the initial set, every later frame
/// is the physics step of the one before it.
pub open spec fn spec_positions_at(init: Seq<EntityModel>, grid: Grid, n: nat) -> Seq<EntityModel>
    decreases n,
{
    if n == 0 {
        init
    } else {
        spec_frame_after(spec_positions_at(init, grid, (n - 1) as nat), grid)
    }
}

/// The first index of a rider with the given ghost value, or the length of
/// the list when there is none.
pub open spec fn spec_find_model(s: Seq<EntityModel>, m: EntityModel) -> int
    decreases s.len(),
{
    if s.len() == 0 {
        0
    } else if s[0] == m {
        0
    } else {
        1 + spec_find_model(s.drop_first(), m)
    }
}

pub proof fn lemma_find_model(s: Seq<EntityModel>, m: EntityModel)
    ensures
        0 <= spec_find_model(s, m) <= s.len(),
        spec_find_model(s, m) < s.len() ==> s[spec_find_model(s, m)] == m,
        forall|k: int| 0 <= k < spec_find_model(s, m) ==> s[k] != m,
    decreases s.len(),
{
    if s.len() > 0 && s[0] != m {
        lemma_find_model(s.drop_first(), m);
        let f = spec_find_model(s, m);
        assert forall|k: int| 0 <= k < f implies s[k] != m by {
            if k > 0 {
                assert(s.drop_first()[k - 1] == s[k]);
            }
        }
        if f < s.len() {
            assert(s.drop_first()[f - 1] == s[f]);
        }
    }
}

/// Querying a frame is pure: the riders a frame yields are a function of the
/// track's initial riders, its spatial index and the frame index alone, so
/// two tracks that agree on those observables agree on every frame — and
/// `entity_positions_at` both returns that function's value and leaves the
/// observables unchanged, so calling it twice yields identical output.
pub proof fn lemma_positions_pure(a: &Track, b: &Track, n: nat)
    requires
        a.spec_initial() == b.spec_initial(),
        a.spec_grid() == b.spec_grid(),
    ensures
        spec_positions_at(a.spec_initial(), a.spec_grid(), n) == spec_positions_at(
            b.spec_initial(),
            b.spec_grid(),
            n,
        ),
{
}

/// A track: a grid of lines and the cached rider positions per frame.
#[derive(Debug)]
pub struct Track {
    grid: Grid,
    precomputed_rider_positions: Vec<Vec<Entity>>,
}

impl Track {
    /// The spatial index this track queries.
    pub closed spec fn spec_grid(&self) -> Grid {
        self.grid
    }

    /// The authored lines, in storage order.
    pub open spec fn spec_lines(&self) -> Seq<Line> {
        self.spec_grid().spec_lines()
    }

    /// The ghost values of the frame-zero riders.
    pub closed spec fn spec_initial(&self) -> Seq<EntityModel> {
        spec_models_of(self.precomputed_rider_positions[0]@)
    }

    /// How many frames the cache holds.
    pub closed spec fn spec_frame_count(&self) -> int {
        self.precomputed_rider_positions@.len() as int
    }

    /// The cache always holds frame zero; every cached frame is the pure
    /// function of the initial riders, the lines and its index; and every
    /// cached rider is well-formed.
    pub closed spec fn wf(&self) -> bool {
        &&& self.precomputed_rider_positions@.len() >= 1
        &&& forall|i: int|
            0 <= i < self.precomputed_rider_positions@.len() ==> spec_models_of(
                (#[trigger] self.precomputed_rider_positions@[i])@,
            ) == spec_positions_at(self.spec_initial(), self.spec_grid(), i as nat)
        &&& forall|i: int|
            0 <= i < self.precomputed_rider_positions@.len() ==> spec_all_shapes_ok(
                spec_models_of((#[trigger] self.precomputed_rider_positions@[i])@),
            )
    }

    /// A track over the given riders and lines; the cache holds frame zero.
    pub fn new(starting_positions: &Vec<Entity>, lines: &Vec<Line>) -> (r: Track)
        requires
            spec_all_shapes_ok(spec_models_of(starting_positions@)),
        ensures
            r.wf(),
            r.spec_lines() == lines@,
            r.spec_grid().spec_cells() == spec_cells_accum(
                Map::<u128, Seq<StoreIndex>>::empty(),
                lines@,
                0,
            ),
            r.spec_initial() == spec_models_of(starting_positions@),
            r.spec_frame_count() == 1,
    {
        let initial = duplicate_entities(starting_positions);
        let mut cache: Vec<Vec<Entity>> = Vec::new();
        cache.push(initial);
        let t = Track { grid: Grid::new(lines), precomputed_rider_positions: cache };
        proof {
            assert(t.spec_initial() =~= spec_models_of(starting_positions@));
        }
        t
    }

    /// All lines in the track.
    pub fn all_lines(&self) -> (r: &Vec<Line>)
        ensures
            r@ == self.spec_lines(),
    {
        self.grid.all_lines()
    }

    /// The lines near a point: the distinct lines indexed within one cell of
    /// the point's cell.
    pub fn lines_near(&self, point: Vector2D) -> (r: Vec<Line>)
        ensures
            r@ == self.spec_grid().spec_lines_near(point, 1),
            forall|k: int| 0 <= k < r@.len() ==> self.spec_lines().contains(r@[k]),
    {
        self.grid.lines_near(point, 1)
    }

    /// Adds a line and truncates the cache to frame zero.
    pub fn add_line(&mut self, line: Line)
        requires
            old(self).wf(),
        ensures
            final(self).wf(),
            final(self).spec_lines() == old(self).spec_lines().push(line),
            final(self).spec_grid().spec_cells() == spec_cells_add(
                old(self).spec_grid().spec_cells(),
                spec_cells_of_line(line),
                StoreIndex(old(self).spec_lines().len() as usize),
            ),
            final(self).spec_initial() == old(self).spec_initial(),
            final(self).spec_frame_count() == 1,
    {
        self.grid.add_line(line);
        self.precomputed_rider_positions.truncate(1);
    }

    /// Removes one occurrence of a line and truncates the cache to frame
    /// zero; removing an absent line changes nothing but the cache.
    pub fn remove_line(&mut self, line: &Line)
        requires
            old(self).wf(),
        ensures
            final(self).wf(),
            final(self).spec_initial() == old(self).spec_initial(),
            final(self).spec_frame_count() == 1,
            ({
                let s = old(self).spec_lines();
                let f = spec_find_line(s, *line);
                if f >= s.len() {
                    final(self).spec_lines() == s
                } else if f == s.len() - 1 {
                    final(self).spec_lines() == s.take(f)
                } else {
                    final(self).spec_lines() == s.update(f, s.last()).drop_last()
                }
            }),
    {
        self.grid.remove_line(line);
        self.precomputed_rider_positions.truncate(1);
    }

    /// Appends a rider to frame zero and truncates the cache.
    pub fn create_entity(&mut self, entity: Entity)
        requires
            old(self).wf(),
            spec_shape_ok(entity.model()),
        ensures
            final(self).wf(),
            final(self).spec_lines() == old(self).spec_lines(),
            final(self).spec_grid() == old(self).spec_grid(),
            final(self).spec_initial() == old(self).spec_initial().push(entity.model()),
            final(self).spec_frame_count() == 1,
    {
        let mut first = self.precomputed_rider_positions.remove(0);
        first.push(entity);
        let mut cache: Vec<Vec<Entity>> = Vec::new();
        cache.push(first);
        self.precomputed_rider_positions = cache;
        proof {
            assert(final(self).spec_initial() =~= old(self).spec_initial().push(entity.model()));
        }
    }

    /// Removes the first frame-zero rider equal to the given one and
    /// truncates the cache; `None` when no rider matches.
    pub fn remove_entity(&mut self, entity: Entity) -> (r: Option<()>)
        requires
            old(self).wf(),
        ensures
            final(self).wf(),
            final(self).spec_lines() == old(self).spec_lines(),
            final(self).spec_grid() == old(self).spec_grid(),
            final(self).spec_frame_count() == 1,
            ({
                let s = old(self).spec_initial();
                let f = spec_find_model(s, entity.model());
                if f < s.len() {
                    r is Some && final(self).spec_initial() == s.remove(f)
                } else {
                    r is None && final(self).spec_initial() == s
                }
            }),
    {
        proof {
            lemma_find_model(old(self).spec_initial(), entity.model());
        }
        let mut first = self.precomputed_rider_positions.remove(0);
        let ghost s = spec_models_of(first@);
        let mut i: usize = 0;
        let n = first.len();
        let mut found = false;
        while i < n && !found
            invariant
                n == first@.len(),
                i <= n,
                s == spec_models_of(first@),
                forall|k: int| 0 <= k < i ==> s[k] != entity.model(),
                found ==> i < n && s[i as int] == entity.model(),
            decreases
                    n - i,
                    (if found {
                        0int
                    } else {
                        1int
                    }),
        {
            if first[i].same_as(&entity) {
                found = true;
                proof {
                    assert(s[i as int] == entity.model());
                }
            } else {
                i = i + 1;
            }
        }
        let result: Option<()>;
        if found {
            proof {
                let f = spec_find_model(s, entity.model());
                assert(s[i as int] == entity.model());
                assert(f <= i);
                assert(f >= i);
            }
            first.remove(i);
            result = Some(());
            proof {
                assert(spec_models_of(first@) =~= s.remove(spec_find_model(s, entity.model())));
            }
        } else {
            proof {
                let f = spec_find_model(s, entity.model());
                if f < n {
                    assert(s[f] == entity.model());
                }
            }
            result = None;
        }
        let mut cache: Vec<Vec<Entity>> = Vec::new();
        cache.push(first);
        self.precomputed_rider_positions = cache;
        result
    }

    /// The riders at a zero-indexed frame. Extends the cache as needed; the
    /// result and the observable track state are a pure function of the
    /// initial riders, the line set and the frame index.
    pub fn entity_positions_at(&mut self, frame: usize) -> (r: Vec<Entity>)
        requires
            old(self).wf(),
        ensures
            final(self).wf(),
            final(self).spec_lines() == old(self).spec_lines(),
            final(self).spec_grid() == old(self).spec_grid(),
            final(self).spec_initial() == old(self).spec_initial(),
            spec_models_of(r@) == spec_positions_at(
                old(self).spec_initial(),
                old(self).spec_grid(),
                frame as nat,
            ),
    {
        while self.precomputed_rider_positions.len() <= frame
            invariant
                self.wf(),
                self.spec_lines() == old(self).spec_lines(),
                self.spec_grid() == old(self).spec_grid(),
                self.spec_initial() == old(self).spec_initial(),
            decreases frame + 1 - self.precomputed_rider_positions.len(),
        {
            let idx = self.precomputed_rider_positions.len() - 1;
            proof {
                let v = self.precomputed_rider_positions@[idx as int]@;
                assert forall|j: int| 0 <= j < v.len() implies spec_shape_ok(
                    (#[trigger] v[j]).model(),
                ) by {
                    assert(spec_models_of(v)[j] == v[j].model());
                }
            }
            let next = frame_riders(&self.precomputed_rider_positions[idx], &self.grid);
            self.precomputed_rider_positions.push(next);
            proof {
                assert forall|j: int|
                    0 <= j < spec_models_of(next@).len() implies spec_all_shapes_ok_at(
                    spec_models_of(next@),
                    j,
                ) by {
                    assert(spec_models_of(next@)[j] == next@[j].model());
                }
            }
        }
        duplicate_entities(&self.precomputed_rider_positions[frame])
    }

    /// Snaps a point to the closest line endpoint within `max_dist` of it
    /// (by squared distance), or returns the point unchanged.
    pub fn snap_point(&self, max_dist: u64, to_snap: Vector2D) -> (r: Vector2D)
        ensures
            r == spec_snap_point(
                self.spec_grid().spec_lines_near(to_snap, 1),
                spec_mul_bits(max_dist, max_dist),
                to_snap,
            ),
    {
        let max_dist_sq = mul_bits(max_dist, max_dist);
        let lines = self.lines_near(to_snap);
        let ghost ls = lines@;
        let mut best: Option<(Vector2D, u64)> = None;
        let mut i: usize = 0;
        proof {
            assert(ls.take(0) =~= Seq::<Line>::empty());
        }
        while i < lines.len()
            invariant
                i <= lines.len(),
                lines@ == ls,
                best == spec_snap_best(ls.take(i as int), max_dist_sq, to_snap),
            decreases lines.len() - i,
        {
            let line = lines[i];
            best = snap_candidate(best, line.ends.start.location, max_dist_sq, to_snap);
            best = snap_candidate(best, line.ends.end.location, max_dist_sq, to_snap);
            i = i + 1;
            proof {
                assert(ls.take(i as int).drop_last() =~= ls.take(i - 1));
                assert(ls.take(i as int).last() == ls[i - 1]);
            }
        }
        proof {
            assert(ls.take(ls.len() as int) =~= ls);
        }
        match best {
            Some(p) => p.0,
            None => to_snap,
        }
    }

    /// How far below a line's colliding face a point sits; zero for scenery
    /// lines, points moving away, points beyond the extended ends, and
    /// points outside the gravity well.
    pub fn distance_below_line(&self, line: &Line, point: &EntityPoint) -> (r: u64)
        ensures
            r == spec_distance_below_line(*line, *point),
    {
        physics_distance_below_line(line, point)
    }
}

/// One snap candidate folded into the running best: candidates at or past
/// the cut-off are skipped, and only a strictly closer candidate replaces
/// the best, so the earliest of equally close endpoints wins.
pub open spec fn spec_snap_step(
    best: Option<(Vector2D, u64)>,
    p: Vector2D,
    max_dist_sq: u64,
    to_snap: Vector2D,
) -> Option<(Vector2D, u64)> {
    let d = spec_distance_squared(p, to_snap);
    if !spec_total_lt(d, max_dist_sq) {
        best
    } else {
        match best {
            None => Some((p, d)),
            Some(b) => if spec_total_lt(d, b.1) {
                Some((p, d))
            } else {
                best
            },
        }
    }
}

/// The best snap candidate over the endpoints of the listed lines, first
/// endpoint before second, in line order.
pub open spec fn spec_snap_best(lines: Seq<Line>, max_dist_sq: u64, to_snap: Vector2D) -> Option<
    (Vector2D, u64),
>
    decreases lines.len(),
{
    if lines.len() == 0 {
        None
    } else {
        let prev = spec_snap_best(lines.drop_last(), max_dist_sq, to_snap);
        let line = lines.last();
        spec_snap_step(
            spec_snap_step(prev, line.ends.start.location, max_dist_sq, to_snap),
            line.ends.end.location,
            max_dist_sq,
            to_snap,
        )
    }
}

/// Where a snap lands: the closest endpoint within range, or the point
/// itself.
pub open spec fn spec_snap_point(lines: Seq<Line>, max_dist_sq: u64, to_snap: Vector2D) -> Vector2D {
    match spec_snap_best(lines, max_dist_sq, to_snap) {
        Some(b) => b.0,
        None => to_snap,
    }
}

fn snap_candidate(
    best: Option<(Vector2D, u64)>,
    p: Vector2D,
    max_dist_sq: u64,
    to_snap: Vector2D,
) -> (r: Option<(Vector2D, u64)>)
    ensures
        r == spec_snap_step(best, p, max_dist_sq, to_snap),
{
    let d = p.distance_squared(to_snap);
    if !total_lt_bits(d, max_dist_sq) {
        best
    } else {
        match best {
            None => Some((p, d)),
            Some(b) => if total_lt_bits(d, b.1) {
                Some((p, d))
            } else {
                Some(b)
            },
        }
    }
}

/// Copies a rider list; the copies denote the same ghost values.
pub fn duplicate_entities(v: &Vec<Entity>) -> (r: Vec<Entity>)
    ensures
        spec_models_of(r@) == spec_models_of(v@),
{
    let mut out: Vec<Entity> = Vec::new();
    let mut i: usize = 0;
    while i < v.len()
        invariant
            i <= v.len(),
            out@.len() == i,
            forall|k: int| 0 <= k < i ==> (#[trigger] out@[k]).model() == v@[k].model(),
        decreases v.len() - i,
    {
        out.push(v[i].duplicate());
        i = i + 1;
    }
    proof {
        assert(spec_models_of(out@) =~= spec_models_of(v@));
    }
    out
}

/// Runs the physics engine on a frame's riders to get the next frame.
pub fn frame_after(riders: &Vec<Entity>, track: &Track) -> (r: Vec<Entity>)
    requires
        spec_all_shapes_ok(spec_models_of(riders@)),
    ensures
        spec_models_of(r@) == spec_frame_after(spec_models_of(riders@), track.spec_grid()),
        spec_all_shapes_ok(spec_models_of(r@)),
{
    proof {
        assert forall|j: int| 0 <= j < riders@.len() implies spec_shape_ok(
            (#[trigger] riders@[j]).model(),
        ) by {
            assert(spec_models_of(riders@)[j] == riders@[j].model());
        }
    }
    let out = frame_riders(riders, &track.grid);
    proof {
        assert forall|i: int| 0 <= i < spec_models_of(out@).len() implies spec_shape_ok(
            #[trigger] spec_models_of(out@)[i],
        ) by {
            assert(spec_shape_ok(out@[i].model()));
        }
    }
    out
}

impl Entity {
    /// The standard physics step of one rider on a track: gravity of
    /// (0, 0.175) and six relaxation passes.
    pub fn apply_all_physics_ez(self, track: &Track) -> (r: UpdateBonesResult)
        requires
            spec_shape_ok(self.model()),
        ensures
            r.model() == spec_apply_all_physics(
                self.model(),
                track.spec_grid(),
                spec_default_gravity(),
                6,
            ),
    {
        self.apply_all_physics(track.grid_ref(), Vector2D(0, crate::physics::BITS_GRAVITY_Y), 6)
    }
}

impl Track {
    /// The spatial index, for callers that run the kernel directly.
    pub fn grid_ref(&self) -> (r: &Grid)
        ensures
            *r == self.spec_grid(),
    {
        &self.grid
    }
}

} // verus!
