//! The per-frame physics kernel: Verlet integration, bone relaxation,
//! gravity-well collision, joint checks, and breakage of the mounted rider.

use vstd::prelude::*;

use crate::fbits::eq_bits;
use crate::fbits::from_u64_bits;
use crate::fbits::le_bits;
use crate::fbits::lt_bits;
use crate::fbits::neg_bits;
use crate::fbits::spec_eq_bits;
use crate::fbits::spec_from_u64;
use crate::fbits::spec_le_bits;
use crate::fbits::spec_lt_bits;
use crate::fbits::spec_neg_bits;
use crate::fops::add_bits;
use crate::fops::div_bits;
use crate::fops::mul_bits;
use crate::fops::spec_add_bits;
use crate::fops::spec_div_bits;
use crate::fops::spec_mul_bits;
use crate::fops::spec_sqrt_bits;
use crate::fops::spec_sub_bits;
use crate::fops::sqrt_bits;
use crate::fops::sub_bits;
use crate::grid::Grid;
use crate::line::BITS_TEN;
use crate::line::Line;
use crate::line::LineType;
use crate::line::spec_as_vector2d;
use crate::line::spec_hitbox_extensions;
use crate::line::spec_perpendicular;
use crate::rider::Bone;
use crate::rider::BoneType;
use crate::rider::Entity;
use crate::rider::EntityPoint;
use crate::rider::EntityPoints;
use crate::rider::Joint;
use crate::rider::PointIndex;
use crate::vector::Vector2D;
use crate::vector::spec_cross;
use crate::vector::spec_distance_squared;
use crate::vector::spec_dot;
use crate::vector::spec_length_squared;
use crate::vector::spec_normalize;
use crate::vector::spec_rotate90_right;
use crate::vector::spec_vec_div_scalar;
use crate::vector::spec_vec_minus;
use crate::vector::spec_vec_neg;
use crate::vector::spec_vec_plus;
use crate::vector::spec_vec_scale;

verus! {

/// Bit pattern of 0.5, the symmetric half of a bone correction.
pub const BITS_HALF: u64 = 0x3FE0_0000_0000_0000;

/// Bit pattern of 0.175, the vertical gravity per frame.
pub const BITS_GRAVITY_Y: u64 = 0x3FC6_6666_6666_6666;

/// Bit pattern of 0.1, the accelerator boost per unit of `amount`.
pub const BITS_ACCEL: u64 = 0x3FB9_9999_9999_999A;

/// Bit pattern of 1.0.
pub const BITS_ONE: u64 = 0x3FF0_0000_0000_0000;

/// Bit pattern of -1.0.
pub const BITS_NEG_ONE: u64 = 0xBFF0_0000_0000_0000;

/// How many relaxation passes one frame runs.
pub const PHYSICS_ITERATIONS: u64 = 6;

/// The ghost value of a rider: its point slots, bone list and joint list.
pub ghost struct EntityModel {
    pub points: EntityPoints,
    pub bones: Seq<Bone>,
    pub joints: Seq<Joint>,
}

impl Entity {
    /// The ghost value this rider denotes.
    pub open spec fn model(&self) -> EntityModel {
        EntityModel { points: self.points, bones: self.bones@, joints: self.joints@ }
    }
}

/// The ghost value of a step's outcome: the rider survived whole, or it
/// broke into a body and a sled.
pub ghost enum ResultModel {
    Same(EntityModel),
    Broken(EntityModel, EntityModel),
}

/// A rider seen through the physics kernel.
pub type PhysicsEntity = Entity;

/// The outcome of a physics step on one rider.
pub enum UpdateBonesResult {
    Same(Entity),
    Broken(Entity, Entity),
}

impl UpdateBonesResult {
    pub open spec fn model(&self) -> ResultModel {
        match self {
            UpdateBonesResult::Same(e) => ResultModel::Same(e.model()),
            UpdateBonesResult::Broken(b, s) => ResultModel::Broken(b.model(), s.model()),
        }
    }

    /// The surviving rider; the step must not have broken it.
    pub fn unwrap_same(self) -> (r: Entity)
        requires
            self is Same,
        ensures
            ResultModel::Same(r.model()) == self.model(),
    {
        match self {
            UpdateBonesResult::Same(entity) => entity,
            UpdateBonesResult::Broken(b, _) => b,
        }
    }
}

/// A rider is well-formed when every bone and joint names points the rider
/// has, and every mount bone spans the body and the sled.
pub open spec fn spec_shape_ok(m: EntityModel) -> bool {
    &&& forall|i: int|
        0 <= i < m.bones.len() ==> {
            &&& m.points.spec_slot((#[trigger] m.bones[i]).p1) is Some
            &&& m.points.spec_slot(m.bones[i].p2) is Some
            &&& m.bones[i].bone_type is Mount ==> m.bones[i].p1.spec_is_bosh()
                != m.bones[i].p2.spec_is_bosh()
        }
    &&& forall|i: int|
        0 <= i < m.joints.len() ==> {
            &&& m.points.spec_slot((#[trigger] m.joints[i]).pair1.first) is Some
            &&& m.points.spec_slot(m.joints[i].pair1.second) is Some
            &&& m.points.spec_slot(m.joints[i].pair2.first) is Some
            &&& m.points.spec_slot(m.joints[i].pair2.second) is Some
        }
}

/// Whether no bone of the rider is a mount bone.
pub open spec fn spec_no_mounts(m: EntityModel) -> bool {
    forall|i: int| 0 <= i < m.bones.len() ==> !((#[trigger] m.bones[i]).bone_type is Mount)
}

/// Two slot sets with the same populated slots.
pub open spec fn spec_same_shape(a: EntityPoints, b: EntityPoints) -> bool {
    forall|id: PointIndex| a.spec_slot(id) is Some <==> #[trigger] b.spec_slot(id) is Some
}

// ---------------------------------------------------------------------------
// Bones
// ---------------------------------------------------------------------------
/// The half-correction factor of a bone at the current length: zero for a
/// degenerate bone, else half the relative deviation from the target length.
pub open spec fn spec_get_diff(resting_length: u64, current_length: u64) -> u64 {
    if spec_eq_bits(current_length, 0) {
        0
    } else {
        spec_mul_bits(
            spec_div_bits(spec_sub_bits(current_length, resting_length), current_length),
            BITS_HALF,
        )
    }
}

fn get_diff(resting_length: u64, current_length: u64) -> (r: u64)
    ensures
        r == spec_get_diff(resting_length, current_length),
{
    if eq_bits(current_length, 0) {
        0
    } else {
        mul_bits(div_bits(sub_bits(current_length, resting_length), current_length), BITS_HALF)
    }
}

/// Moves the two points toward or away from each other by the correction.
pub open spec fn spec_bone_resolve(p1: Vector2D, p2: Vector2D, diff: u64) -> (Vector2D, Vector2D) {
    let delta = spec_vec_scale(spec_vec_minus(p1, p2), diff);
    (spec_vec_minus(p1, delta), spec_vec_plus(delta, p2))
}

fn bone_resolve(p1: Vector2D, p2: Vector2D, diff: u64) -> (r: (Vector2D, Vector2D))
    ensures
        r == spec_bone_resolve(p1, p2, diff),
{
    let delta = p1.minus(p2).scale(diff);
    (p1.minus(delta), delta.plus(p2))
}

/// Where a bone puts its two points, or `None` when a mount bone is
/// stretched past its endurance and the rider must break; compression
/// never breaks a mount.
pub open spec fn spec_next_bone_locations(bone: Bone, points: EntityPoints) -> Option<
    (Vector2D, Vector2D),
> {
    let p1 = points.spec_slot(bone.p1).unwrap();
    let p2 = points.spec_slot(bone.p2).unwrap();
    let length = spec_sqrt_bits(spec_distance_squared(p2.location, p1.location));
    match bone.bone_type {
        BoneType::Normal => Some(
            spec_bone_resolve(
                p1.location,
                p2.location,
                spec_get_diff(bone.resting_length, length),
            ),
        ),
        BoneType::Repel { length_factor } => {
            if spec_le_bits(spec_mul_bits(bone.resting_length, length_factor), length) {
                Some((p1.location, p2.location))
            } else {
                Some(
                    spec_bone_resolve(
                        p1.location,
                        p2.location,
                        spec_get_diff(spec_mul_bits(bone.resting_length, length_factor), length),
                    ),
                )
            }
        },
        BoneType::Mount { endurance } => {
            let diff = spec_get_diff(bone.resting_length, length);
            if spec_lt_bits(
                spec_mul_bits(spec_mul_bits(endurance, bone.resting_length), BITS_HALF),
                diff,
            ) {
                None
            } else {
                Some(spec_bone_resolve(p1.location, p2.location, diff))
            }
        },
    }
}

/// Where a bone puts its two points, or `None` when a mount bone breaks.
pub fn next_bone_locations(bone: &Bone, entity: &Entity) -> (r: Option<(Vector2D, Vector2D)>)
    requires
        entity.points.spec_slot(bone.p1) is Some,
        entity.points.spec_slot(bone.p2) is Some,
    ensures
        r == spec_next_bone_locations(*bone, entity.points),
{
    next_bone_locations_at(bone, &entity.points)
}

fn next_bone_locations_at(bone: &Bone, points: &EntityPoints) -> (r: Option<(Vector2D, Vector2D)>)
    requires
        points.spec_slot(bone.p1) is Some,
        points.spec_slot(bone.p2) is Some,
    ensures
        r == spec_next_bone_locations(*bone, *points),
{
    let p1 = points.slot(bone.p1).unwrap();
    let p2 = points.slot(bone.p2).unwrap();
    let length = sqrt_bits(p2.location.distance_squared(p1.location));
    match bone.bone_type {
        BoneType::Normal => Some(
            bone_resolve(p1.location, p2.location, get_diff(bone.resting_length, length)),
        ),
        BoneType::Repel { length_factor } => {
            if le_bits(mul_bits(bone.resting_length, length_factor), length) {
                Some((p1.location, p2.location))
            } else {
                Some(
                    bone_resolve(
                        p1.location,
                        p2.location,
                        get_diff(mul_bits(bone.resting_length, length_factor), length),
                    ),
                )
            }
        },
        BoneType::Mount { endurance } => {
            let diff = get_diff(bone.resting_length, length);
            if lt_bits(mul_bits(mul_bits(endurance, bone.resting_length), BITS_HALF), diff) {
                None
            } else {
                Some(bone_resolve(p1.location, p2.location, diff))
            }
        },
    }
}

/// `points` with the location of one slot replaced.
pub open spec fn spec_set_location(
    points: EntityPoints,
    id: PointIndex,
    loc: Vector2D,
) -> EntityPoints {
    points.spec_with(
        id,
        EntityPoint { location: loc, ..points.spec_slot(id).unwrap() },
    )
}

/// The slot set and break flag after one relaxation pass over the bones, in
/// list order. A pass keeps applying corrections after a mount breaks; the
/// flag only records that the rider must split.
pub open spec fn spec_bones_pass(points: EntityPoints, bones: Seq<Bone>) -> (EntityPoints, bool)
    decreases bones.len(),
{
    if bones.len() == 0 {
        (points, false)
    } else {
        let (p, broken) = spec_bones_pass(points, bones.drop_last());
        let bone = bones.last();
        match spec_next_bone_locations(bone, p) {
            Some(locs) => (
                spec_set_location(spec_set_location(p, bone.p1, locs.0), bone.p2, locs.1),
                broken,
            ),
            None => (p, true),
        }
    }
}

// ---------------------------------------------------------------------------
// Joints
// ---------------------------------------------------------------------------
/// A joint breaks when the cross product of its two edge vectors is negative.
pub open spec fn spec_joint_should_break(joint: Joint, points: EntityPoints) -> bool {
    let p1 = points.spec_slot(joint.pair1.first).unwrap();
    let p2 = points.spec_slot(joint.pair1.second).unwrap();
    let q1 = points.spec_slot(joint.pair2.first).unwrap();
    let q2 = points.spec_slot(joint.pair2.second).unwrap();
    spec_lt_bits(
        spec_cross(
            spec_vec_minus(p2.location, p1.location),
            spec_vec_minus(q2.location, q1.location),
        ),
        0,
    )
}

/// A joint breaks when the cross product of its two edge vectors is negative.
pub fn joint_should_break(joint: &Joint, entity: &Entity) -> (r: bool)
    requires
        entity.points.spec_slot(joint.pair1.first) is Some,
        entity.points.spec_slot(joint.pair1.second) is Some,
        entity.points.spec_slot(joint.pair2.first) is Some,
        entity.points.spec_slot(joint.pair2.second) is Some,
    ensures
        r == spec_joint_should_break(*joint, entity.points),
{
    let p1 = entity.points.slot(joint.pair1.first).unwrap();
    let p2 = entity.points.slot(joint.pair1.second).unwrap();
    let q1 = entity.points.slot(joint.pair2.first).unwrap();
    let q2 = entity.points.slot(joint.pair2.second).unwrap();
    lt_bits(
        p2.location.minus(p1.location).cross_product_length(q2.location.minus(q1.location)),
        0,
    )
}

/// Whether any joint of the list breaks on the given points.
pub open spec fn spec_any_joint_breaks(points: EntityPoints, joints: Seq<Joint>) -> bool
    decreases joints.len(),
{
    if joints.len() == 0 {
        false
    } else {
        spec_any_joint_breaks(points, joints.drop_last()) || spec_joint_should_break(
            joints.last(),
            points,
        )
    }
}

// ---------------------------------------------------------------------------
// Collision with gravity wells
// ---------------------------------------------------------------------------
/// Whether the point is moving into the line's colliding side: its stored
/// momentum (the velocity the frame's integration applied) points against
/// the line's face.
pub open spec fn spec_is_moving_into_line(line: Line, point: EntityPoint) -> bool {
    spec_lt_bits(spec_dot(spec_perpendicular(line), point.momentum), 0)
}

/// Whether the point is moving into the line's colliding side.
pub fn is_moving_into_line(line: &Line, point: &EntityPoint) -> (r: bool)
    ensures
        r == spec_is_moving_into_line(*line, *point),
{
    lt_bits(line.perpendicular().dot_product(point.momentum), 0)
}

/// How far below the line's colliding face the point sits, or zero when the
/// line is scenery, the point moves away from the face, the point is outside
/// the segment and its extensions, or the point is outside the well.
pub open spec fn spec_distance_below_line(line: Line, point: EntityPoint) -> u64 {
    if line.line_type is Scenery {
        0
    } else if !spec_is_moving_into_line(line, point) {
        0
    } else {
        let line_vec = spec_as_vector2d(line);
        let point_from_start = spec_vec_minus(point.location, line.ends.start.location);
        let perpendicular = spec_perpendicular(line);
        let line_length = spec_sqrt_bits(spec_length_squared(line_vec));
        let line_normalized = spec_vec_div_scalar(line_vec, line_length);
        let exts = spec_hitbox_extensions(line);
        let parallel_component = spec_dot(point_from_start, line_normalized);
        if spec_lt_bits(parallel_component, spec_neg_bits(exts.0)) || spec_lt_bits(
            spec_add_bits(exts.1, line_length),
            parallel_component,
        ) {
            0
        } else {
            let distance_below = spec_dot(spec_vec_neg(perpendicular), point_from_start);
            if spec_lt_bits(0, distance_below) && spec_lt_bits(distance_below, BITS_TEN) {
                distance_below
            } else {
                0
            }
        }
    }
}

/// How far below the line's colliding face the point sits; see
/// `spec_distance_below_line` for the cases that yield zero.
pub fn distance_below_line(line: &Line, point: &EntityPoint) -> (r: u64)
    ensures
        r == spec_distance_below_line(*line, *point),
{
    if matches!(line.line_type, LineType::Scenery) {
        return 0;
    }
    if !is_moving_into_line(line, point) {
        return 0;
    }
    let line_vec = line.as_vector2d();
    let point_from_start = point.location.minus(line.ends.start.location);
    let line_length = sqrt_bits(line_vec.length_squared());
    let line_normalized = line_vec.div_scalar(line_length);
    let exts = line.hitbox_extensions();
    let parallel_component = point_from_start.dot_product(line_normalized);
    if lt_bits(parallel_component, neg_bits(exts.0)) || lt_bits(
        add_bits(exts.1, line_length),
        parallel_component,
    ) {
        return 0;
    }
    let perpendicular = line.perpendicular();
    let distance_below = perpendicular.negated().dot_product(point_from_start);
    if lt_bits(0, distance_below) && lt_bits(distance_below, BITS_TEN) {
        distance_below
    } else {
        0
    }
}

/// A point moving away from the line's face is not below it: the distance
/// below the line is zero whenever `is_moving_into_line` is false.
pub proof fn lemma_not_moving_means_no_distance(line: Line, point: EntityPoint)
    ensures
        !spec_is_moving_into_line(line, point) ==> spec_distance_below_line(line, point) == 0,
{
}

/// A scenery line never collides: its distance below is zero and a collision
/// pass leaves the point exactly as it was.
pub proof fn lemma_scenery_line_is_inert(line: Line, point: EntityPoint)
    requires
        line.line_type is Scenery,
    ensures
        spec_distance_below_line(line, point) == 0,
        spec_well_step(point, line) == point,
{
}

/// One line's effect on one point: push the point out of the well, bend its
/// implied velocity by friction, and boost it along an accelerator line.
pub open spec fn spec_well_step(point: EntityPoint, line: Line) -> EntityPoint {
    if line.line_type is Scenery {
        point
    } else {
        let distance_below = spec_distance_below_line(line, point);
        if spec_eq_bits(distance_below, 0) {
            point
        } else {
            let perpendicular = spec_perpendicular(line);
            let next_location = spec_vec_plus(
                point.location,
                spec_vec_scale(perpendicular, distance_below),
            );
            let fa0 = spec_vec_scale(
                spec_vec_scale(spec_rotate90_right(perpendicular), point.friction),
                distance_below,
            );
            let fa1 = if spec_le_bits(next_location.0, point.previous_location.0) {
                Vector2D(spec_neg_bits(fa0.0), fa0.1)
            } else {
                fa0
            };
            let fa2 = if spec_lt_bits(point.previous_location.1, next_location.1) {
                Vector2D(fa1.0, spec_neg_bits(fa1.1))
            } else {
                fa1
            };
            let prev1 = match line.line_type {
                LineType::Accelerate { amount } => spec_vec_plus(
                    point.previous_location,
                    spec_vec_scale(
                        spec_normalize(spec_as_vector2d(line)),
                        spec_mul_bits(
                            spec_mul_bits(spec_from_u64(amount), BITS_ACCEL),
                            if line.flipped {
                                BITS_ONE
                            } else {
                                BITS_NEG_ONE
                            },
                        ),
                    ),
                ),
                _ => point.previous_location,
            };
            let prev2 = spec_vec_plus(prev1, fa2);
            EntityPoint {
                previous_location: prev2,
                location: next_location,
                momentum: point.momentum,
                friction: point.friction,
            }
        }
    }
}

fn well_step(point: EntityPoint, line: &Line) -> (r: EntityPoint)
    ensures
        r == spec_well_step(point, *line),
{
    if matches!(line.line_type, LineType::Scenery) {
        return point;
    }
    let distance_below = distance_below_line(line, &point);
    if eq_bits(distance_below, 0) {
        return point;
    }
    let perpendicular = line.perpendicular();
    let next_location = point.location.plus(perpendicular.scale(distance_below));
    let mut friction_adjustment = perpendicular.rotate90_right().scale(point.friction).scale(
        distance_below,
    );
    if le_bits(next_location.0, point.previous_location.0) {
        friction_adjustment.0 = neg_bits(friction_adjustment.0);
    }
    if lt_bits(point.previous_location.1, next_location.1) {
        friction_adjustment.1 = neg_bits(friction_adjustment.1);
    }
    let mut previous_location = point.previous_location;
    if let LineType::Accelerate { amount } = line.line_type {
        // The boost pulls the previous location backward along the line,
        // which adds velocity in the line's direction.
        let direction: u64 = if line.flipped {
            BITS_ONE
        } else {
            BITS_NEG_ONE
        };
        previous_location = previous_location.plus(
            line.as_vector2d().normalize().scale(
                mul_bits(mul_bits(from_u64_bits(amount), BITS_ACCEL), direction),
            ),
        );
    }
    previous_location = previous_location.plus(friction_adjustment);
    EntityPoint {
        previous_location,
        location: next_location,
        momentum: point.momentum,
        friction: point.friction,
    }
}

/// A point after the gravity wells of all listed lines acted, in order.
pub open spec fn spec_wells_point(point: EntityPoint, lines: Seq<Line>) -> EntityPoint
    decreases lines.len(),
{
    if lines.len() == 0 {
        point
    } else {
        spec_well_step(spec_wells_point(point, lines.drop_last()), lines.last())
    }
}

/// A point after the gravity wells of every line near it acted.
pub open spec fn spec_wells_at(point: EntityPoint, grid: Grid) -> EntityPoint {
    spec_wells_point(point, grid.spec_lines_near(point.location, 1))
}

/// Pushes one rider point out of the gravity wells of the lines near it.
pub fn apply_gravity_wells_point(point: &mut EntityPoint, grid: &Grid)
    ensures
        *final(point) == spec_wells_at(*old(point), *grid),
{
    let lines = grid.lines_near(point.location, 1);
    let ghost ls = lines@;
    let mut i: usize = 0;
    while i < lines.len()
        invariant
            i <= lines.len(),
            lines@ == ls,
            *point == spec_wells_point(*old(point), ls.take(i as int)),
        decreases lines.len() - i,
    {
        *point = well_step(*point, &lines[i]);
        i = i + 1;
        proof {
            assert(ls.take(i as int).drop_last() =~= ls.take(i - 1));
            assert(ls.take(i as int).last() == ls[i - 1]);
        }
    }
    proof {
        assert(ls.take(ls.len() as int) =~= ls);
    }
}

// ---------------------------------------------------------------------------
// Whole-rider steps
// ---------------------------------------------------------------------------
/// One Verlet step of a point: keep its implied velocity, add gravity, and
/// record the applied velocity as the point's momentum for this frame.
pub open spec fn spec_step_point(p: EntityPoint, gravity: Vector2D) -> EntityPoint {
    let new_velocity = spec_vec_plus(spec_vec_minus(p.location, p.previous_location), gravity);
    EntityPoint {
        previous_location: p.location,
        location: spec_vec_plus(p.location, new_velocity),
        momentum: new_velocity,
        friction: p.friction,
    }
}

pub open spec fn spec_opt_step(o: Option<EntityPoint>, gravity: Vector2D) -> Option<EntityPoint> {
    match o {
        Some(p) => Some(spec_step_point(p, gravity)),
        None => None,
    }
}

/// Every populated slot stepped under gravity.
pub open spec fn spec_points_integrated(p: EntityPoints, gravity: Vector2D) -> EntityPoints {
    EntityPoints {
        left_foot: spec_opt_step(p.left_foot, gravity),
        right_foot: spec_opt_step(p.right_foot, gravity),
        left_hand: spec_opt_step(p.left_hand, gravity),
        right_hand: spec_opt_step(p.right_hand, gravity),
        shoulder: spec_opt_step(p.shoulder, gravity),
        butt: spec_opt_step(p.butt, gravity),
        peg: spec_opt_step(p.peg, gravity),
        tail: spec_opt_step(p.tail, gravity),
        nose: spec_opt_step(p.nose, gravity),
        rope: spec_opt_step(p.rope, gravity),
    }
}

pub open spec fn spec_next_points_model(m: EntityModel, gravity: Vector2D) -> EntityModel {
    EntityModel { points: spec_points_integrated(m.points, gravity), ..m }
}

pub open spec fn spec_opt_wells(o: Option<EntityPoint>, grid: Grid) -> Option<EntityPoint> {
    match o {
        Some(p) => Some(spec_wells_at(p, grid)),
        None => None,
    }
}

/// Every populated slot pushed out of the gravity wells near it.
pub open spec fn spec_points_wells(p: EntityPoints, grid: Grid) -> EntityPoints {
    EntityPoints {
        left_foot: spec_opt_wells(p.left_foot, grid),
        right_foot: spec_opt_wells(p.right_foot, grid),
        left_hand: spec_opt_wells(p.left_hand, grid),
        right_hand: spec_opt_wells(p.right_hand, grid),
        shoulder: spec_opt_wells(p.shoulder, grid),
        butt: spec_opt_wells(p.butt, grid),
        peg: spec_opt_wells(p.peg, grid),
        tail: spec_opt_wells(p.tail, grid),
        nose: spec_opt_wells(p.nose, grid),
        rope: spec_opt_wells(p.rope, grid),
    }
}

pub open spec fn spec_wells_model(m: EntityModel, grid: Grid) -> EntityModel {
    EntityModel { points: spec_points_wells(m.points, grid), ..m }
}

/// The body half after a break: the body's points and the bones both of
/// whose endpoints are body points.
pub open spec fn spec_bosh_half(p: EntityPoints) -> EntityPoints {
    EntityPoints { peg: None, tail: None, nose: None, rope: None, ..p }
}

/// The sled half after a break: the sled's points and the bones both of
/// whose endpoints are sled points.
pub open spec fn spec_sled_half(p: EntityPoints) -> EntityPoints {
    EntityPoints {
        left_foot: None,
        right_foot: None,
        left_hand: None,
        right_hand: None,
        shoulder: None,
        butt: None,
        ..p
    }
}

/// The bones whose two endpoints both lie on the given side.
pub open spec fn spec_side_bones(bones: Seq<Bone>, bosh: bool) -> Seq<Bone>
    decreases bones.len(),
{
    if bones.len() == 0 {
        Seq::empty()
    } else {
        let rest = spec_side_bones(bones.drop_last(), bosh);
        let b = bones.last();
        if b.p1.spec_is_bosh() == bosh && b.p2.spec_is_bosh() == bosh {
            rest.push(b)
        } else {
            rest
        }
    }
}

/// The two riders a break produces: mount bones and joints are discarded,
/// each half keeps its own points and bones.
pub open spec fn spec_split(m: EntityModel) -> (EntityModel, EntityModel) {
    (
        EntityModel {
            points: spec_bosh_half(m.points),
            bones: spec_side_bones(m.bones, true),
            joints: Seq::empty(),
        },
        EntityModel {
            points: spec_sled_half(m.points),
            bones: spec_side_bones(m.bones, false),
            joints: Seq::empty(),
        },
    )
}

/// One relaxation pass: apply every bone, then split if a mount broke.
pub open spec fn spec_apply_bones(m: EntityModel) -> ResultModel {
    let r = spec_bones_pass(m.points, m.bones);
    let m2 = EntityModel { points: r.0, ..m };
    if r.1 {
        let halves = spec_split(m2);
        ResultModel::Broken(halves.0, halves.1)
    } else {
        ResultModel::Same(m2)
    }
}

/// The joint check: split when any joint's cross product turned negative.
pub open spec fn spec_apply_joints(m: EntityModel) -> ResultModel {
    if spec_any_joint_breaks(m.points, m.joints) {
        let halves = spec_split(m);
        ResultModel::Broken(halves.0, halves.1)
    } else {
        ResultModel::Same(m)
    }
}

pub open spec fn spec_unwrap_same(r: ResultModel) -> EntityModel {
    match r {
        ResultModel::Same(e) => e,
        ResultModel::Broken(b, _) => b,
    }
}

/// One of the six per-frame passes: a bones pass on the rider (or on both
/// halves if it is already broken), then gravity wells on every point.
pub open spec fn spec_iter_once(r: ResultModel, grid: Grid) -> ResultModel {
    match r {
        ResultModel::Same(e) => match spec_apply_bones(e) {
            ResultModel::Same(e2) => ResultModel::Same(spec_wells_model(e2, grid)),
            ResultModel::Broken(b, s) => ResultModel::Broken(
                spec_wells_model(b, grid),
                spec_wells_model(s, grid),
            ),
        },
        ResultModel::Broken(b, s) => {
            let b2 = spec_unwrap_same(spec_apply_bones(b));
            let s2 = spec_unwrap_same(spec_apply_bones(s));
            ResultModel::Broken(spec_wells_model(b2, grid), spec_wells_model(s2, grid))
        },
    }
}

pub open spec fn spec_iterate(r: ResultModel, grid: Grid, n: nat) -> ResultModel
    decreases n,
{
    if n == 0 {
        r
    } else {
        spec_iterate(spec_iter_once(r, grid), grid, (n - 1) as nat)
    }
}

/// The whole per-frame step of one rider: integrate, run the relaxation
/// passes, and check the joints of a rider that is still whole.
pub open spec fn spec_apply_all_physics(
    m: EntityModel,
    grid: Grid,
    gravity: Vector2D,
    iterations: nat,
) -> ResultModel {
    let r = spec_iterate(
        ResultModel::Same(spec_next_points_model(m, gravity)),
        grid,
        iterations,
    );
    match r {
        ResultModel::Same(e) => spec_apply_joints(e),
        ResultModel::Broken(b, s) => r,
    }
}

/// The gravity vector of the standard frame step.
pub open spec fn spec_default_gravity() -> Vector2D {
    Vector2D(0, BITS_GRAVITY_Y)
}

/// Every rider of a frame stepped once; a broken rider contributes its body
/// and its sled, in that order.
pub open spec fn spec_frame_after(rs: Seq<EntityModel>, grid: Grid) -> Seq<EntityModel>
    decreases rs.len(),
{
    if rs.len() == 0 {
        Seq::empty()
    } else {
        spec_frame_after(rs.drop_last(), grid) + (match spec_apply_all_physics(
            rs.last(),
            grid,
            spec_default_gravity(),
            PHYSICS_ITERATIONS as nat,
        ) {
            ResultModel::Same(e) => seq![e],
            ResultModel::Broken(b, s) => seq![b, s],
        })
    }
}

/// A step result whose parts are well-formed; broken halves also carry no
/// mount bones, so later passes cannot break them again.
pub open spec fn spec_result_ok(r: ResultModel) -> bool {
    match r {
        ResultModel::Same(e) => spec_shape_ok(e),
        ResultModel::Broken(b, s) => spec_shape_ok(b) && spec_shape_ok(s) && spec_no_mounts(b)
            && spec_no_mounts(s),
    }
}

// ---------------------------------------------------------------------------
// Shape lemmas
// ---------------------------------------------------------------------------
/// Replacing a populated slot's location keeps the populated slots the same.
proof fn lemma_set_location_shape(points: EntityPoints, id: PointIndex, loc: Vector2D)
    requires
        points.spec_slot(id) is Some,
    ensures
        spec_same_shape(points, spec_set_location(points, id, loc)),
{
    assert forall|x: PointIndex|
        points.spec_slot(x) is Some <==> #[trigger] spec_set_location(
            points,
            id,
            loc,
        ).spec_slot(x) is Some by {
        let after = spec_set_location(points, id, loc);
        match x {
            PointIndex::BoshLeftFoot => {},
            PointIndex::BoshRightFoot => {},
            PointIndex::BoshLeftHand => {},
            PointIndex::BoshRightHand => {},
            PointIndex::BoshShoulder => {},
            PointIndex::BoshButt => {},
            PointIndex::SledPeg => {},
            PointIndex::SledTail => {},
            PointIndex::SledNose => {},
            PointIndex::SledRope => {},
        }
    }
}

/// A bones pass never adds or removes points.
proof fn lemma_bones_pass_shape(points: EntityPoints, bones: Seq<Bone>)
    requires
        forall|i: int|
            0 <= i < bones.len() ==> points.spec_slot((#[trigger] bones[i]).p1) is Some
                && points.spec_slot(bones[i].p2) is Some,
    ensures
        spec_same_shape(points, spec_bones_pass(points, bones).0),
    decreases bones.len(),
{
    if bones.len() > 0 {
        lemma_bones_pass_shape(points, bones.drop_last());
        let p = spec_bones_pass(points, bones.drop_last()).0;
        let bone = bones.last();
        match spec_next_bone_locations(bone, p) {
            Some(locs) => {
                lemma_set_location_shape(p, bone.p1, locs.0);
                let p1 = spec_set_location(p, bone.p1, locs.0);
                lemma_set_location_shape(p1, bone.p2, locs.1);
            },
            None => {},
        }
    }
}

/// A rider without mount bones cannot break in a bones pass.
proof fn lemma_no_mounts_no_break(points: EntityPoints, bones: Seq<Bone>)
    requires
        forall|i: int| 0 <= i < bones.len() ==> !((#[trigger] bones[i]).bone_type is Mount),
    ensures
        !spec_bones_pass(points, bones).1,
    decreases bones.len(),
{
    if bones.len() > 0 {
        lemma_no_mounts_no_break(points, bones.drop_last());
        assert(!(bones.last().bone_type is Mount));
    }
}

/// Every bone a side keeps lies wholly on that side and comes from the
/// original list.
proof fn lemma_side_bones_elems(bones: Seq<Bone>, bosh: bool)
    ensures
        forall|j: int|
            0 <= j < spec_side_bones(bones, bosh).len() ==> {
                &&& (#[trigger] spec_side_bones(bones, bosh)[j]).p1.spec_is_bosh() == bosh
                &&& spec_side_bones(bones, bosh)[j].p2.spec_is_bosh() == bosh
                &&& bones.contains(spec_side_bones(bones, bosh)[j])
            },
    decreases bones.len(),
{
    if bones.len() > 0 {
        lemma_side_bones_elems(bones.drop_last(), bosh);
        let side = spec_side_bones(bones, bosh);
        let rest = spec_side_bones(bones.drop_last(), bosh);
        assert forall|j: int| 0 <= j < side.len() implies {
            &&& (#[trigger] side[j]).p1.spec_is_bosh() == bosh
            &&& side[j].p2.spec_is_bosh() == bosh
            &&& bones.contains(side[j])
        } by {
            if j < rest.len() {
                assert(side[j] == rest[j]);
                assert(bones.drop_last().contains(rest[j]));
                let w = choose|w: int|
                    0 <= w < bones.drop_last().len() && bones.drop_last()[w] == rest[j];
                assert(bones[w] == rest[j]);
            } else {
                assert(side[j] == bones.last());
                assert(bones[bones.len() - 1] == bones.last());
            }
        }
    }
}

/// A populated body slot stays populated in the body half, and likewise for
/// the sled half.
proof fn lemma_half_slots(p: EntityPoints, id: PointIndex)
    ensures
        id.spec_is_bosh() ==> spec_bosh_half(p).spec_slot(id) == p.spec_slot(id),
        !id.spec_is_bosh() ==> spec_sled_half(p).spec_slot(id) == p.spec_slot(id),
{
}

/// Splitting a well-formed rider yields two well-formed halves without
/// mount bones.
proof fn lemma_split_ok(m: EntityModel)
    requires
        spec_shape_ok(m),
    ensures
        spec_result_ok(ResultModel::Broken(spec_split(m).0, spec_split(m).1)),
{
    let b = spec_split(m).0;
    let s = spec_split(m).1;
    lemma_side_bones_elems(m.bones, true);
    lemma_side_bones_elems(m.bones, false);
    assert forall|i: int| 0 <= i < b.bones.len() implies {
        &&& b.points.spec_slot((#[trigger] b.bones[i]).p1) is Some
        &&& b.points.spec_slot(b.bones[i].p2) is Some
        &&& !(b.bones[i].bone_type is Mount)
    } by {
        let bone = b.bones[i];
        assert(m.bones.contains(bone));
        let w = choose|w: int| 0 <= w < m.bones.len() && m.bones[w] == bone;
        lemma_half_slots(m.points, bone.p1);
        lemma_half_slots(m.points, bone.p2);
    }
    assert forall|i: int| 0 <= i < s.bones.len() implies {
        &&& s.points.spec_slot((#[trigger] s.bones[i]).p1) is Some
        &&& s.points.spec_slot(s.bones[i].p2) is Some
        &&& !(s.bones[i].bone_type is Mount)
    } by {
        let bone = s.bones[i];
        assert(m.bones.contains(bone));
        let w = choose|w: int| 0 <= w < m.bones.len() && m.bones[w] == bone;
        lemma_half_slots(m.points, bone.p1);
        lemma_half_slots(m.points, bone.p2);
    }
}

/// Shape carries over to a model with the same populated slots and the same
/// bones and joints.
proof fn lemma_shape_transfer(a: EntityModel, b: EntityModel)
    requires
        spec_shape_ok(a),
        spec_same_shape(a.points, b.points),
        a.bones == b.bones,
        a.joints == b.joints,
    ensures
        spec_shape_ok(b),
{
}

/// Integration and gravity wells keep the populated slots.
proof fn lemma_pointwise_same_shape(p: EntityPoints, gravity: Vector2D, grid: Grid)
    ensures
        spec_same_shape(p, spec_points_integrated(p, gravity)),
        spec_same_shape(p, spec_points_wells(p, grid)),
{
    assert forall|x: PointIndex|
        p.spec_slot(x) is Some <==> #[trigger] spec_points_integrated(
            p,
            gravity,
        ).spec_slot(x) is Some by {
        match x {
            PointIndex::BoshLeftFoot => {},
            PointIndex::BoshRightFoot => {},
            PointIndex::BoshLeftHand => {},
            PointIndex::BoshRightHand => {},
            PointIndex::BoshShoulder => {},
            PointIndex::BoshButt => {},
            PointIndex::SledPeg => {},
            PointIndex::SledTail => {},
            PointIndex::SledNose => {},
            PointIndex::SledRope => {},
        }
    }
    assert forall|x: PointIndex|
        p.spec_slot(x) is Some <==> #[trigger] spec_points_wells(p, grid).spec_slot(x) is Some by {
        match x {
            PointIndex::BoshLeftFoot => {},
            PointIndex::BoshRightFoot => {},
            PointIndex::BoshLeftHand => {},
            PointIndex::BoshRightHand => {},
            PointIndex::BoshShoulder => {},
            PointIndex::BoshButt => {},
            PointIndex::SledPeg => {},
            PointIndex::SledTail => {},
            PointIndex::SledNose => {},
            PointIndex::SledRope => {},
        }
    }
}

/// A bones pass on a well-formed rider yields a well-formed result.
proof fn lemma_apply_bones_ok(m: EntityModel)
    requires
        spec_shape_ok(m),
    ensures
        spec_result_ok(spec_apply_bones(m)),
        spec_no_mounts(m) ==> spec_apply_bones(m) == ResultModel::Same(
            EntityModel { points: spec_bones_pass(m.points, m.bones).0, ..m },
        ),
{
    lemma_bones_pass_shape(m.points, m.bones);
    let r = spec_bones_pass(m.points, m.bones);
    let m2 = EntityModel { points: r.0, ..m };
    lemma_shape_transfer(m, m2);
    if r.1 {
        lemma_split_ok(m2);
    }
    if spec_no_mounts(m) {
        lemma_no_mounts_no_break(m.points, m.bones);
    }
}

/// Gravity wells keep a rider well-formed.
proof fn lemma_wells_ok(m: EntityModel, grid: Grid)
    requires
        spec_shape_ok(m),
    ensures
        spec_shape_ok(spec_wells_model(m, grid)),
        spec_no_mounts(m) ==> spec_no_mounts(spec_wells_model(m, grid)),
{
    lemma_pointwise_same_shape(m.points, spec_default_gravity(), grid);
    lemma_shape_transfer(m, spec_wells_model(m, grid));
}

/// One relaxation pass keeps the step result well-formed.
proof fn lemma_iter_once_ok(r: ResultModel, grid: Grid)
    requires
        spec_result_ok(r),
    ensures
        spec_result_ok(spec_iter_once(r, grid)),
{
    match r {
        ResultModel::Same(e) => {
            lemma_apply_bones_ok(e);
            match spec_apply_bones(e) {
                ResultModel::Same(e2) => {
                    lemma_wells_ok(e2, grid);
                },
                ResultModel::Broken(b, s) => {
                    lemma_wells_ok(b, grid);
                    lemma_wells_ok(s, grid);
                },
            }
        },
        ResultModel::Broken(b, s) => {
            lemma_apply_bones_ok(b);
            lemma_apply_bones_ok(s);
            let b2 = spec_unwrap_same(spec_apply_bones(b));
            let s2 = spec_unwrap_same(spec_apply_bones(s));
            lemma_bones_pass_shape(b.points, b.bones);
            lemma_shape_transfer(b, b2);
            lemma_bones_pass_shape(s.points, s.bones);
            lemma_shape_transfer(s, s2);
            lemma_wells_ok(b2, grid);
            lemma_wells_ok(s2, grid);
        },
    }
}

/// Iterating appends one pass at the end.
proof fn lemma_iterate_snoc(r: ResultModel, grid: Grid, n: nat)
    ensures
        spec_iterate(r, grid, n + 1) == spec_iter_once(spec_iterate(r, grid, n), grid),
    decreases n,
{
    if n == 0 {
        assert(spec_iterate(r, grid, 1) == spec_iterate(spec_iter_once(r, grid), grid, 0));
    } else {
        lemma_iterate_snoc(spec_iter_once(r, grid), grid, (n - 1) as nat);
        assert(spec_iterate(r, grid, n + 1) == spec_iterate(spec_iter_once(r, grid), grid, n));
        assert(spec_iterate(r, grid, n) == spec_iterate(
            spec_iter_once(r, grid),
            grid,
            (n - 1) as nat,
        ));
    }
}

impl Entity {
    /// Steps every point one frame under gravity; no collision or bone
    /// physics is applied here.
    pub fn next_points(&mut self, gravity: Vector2D)
        ensures
            final(self).model() == spec_next_points_model(old(self).model(), gravity),
    {
        self.points.left_foot = step_opt(self.points.left_foot, gravity);
        self.points.right_foot = step_opt(self.points.right_foot, gravity);
        self.points.left_hand = step_opt(self.points.left_hand, gravity);
        self.points.right_hand = step_opt(self.points.right_hand, gravity);
        self.points.shoulder = step_opt(self.points.shoulder, gravity);
        self.points.butt = step_opt(self.points.butt, gravity);
        self.points.peg = step_opt(self.points.peg, gravity);
        self.points.tail = step_opt(self.points.tail, gravity);
        self.points.nose = step_opt(self.points.nose, gravity);
        self.points.rope = step_opt(self.points.rope, gravity);
    }

    /// Pushes every point of the rider out of the gravity wells near it.
    pub fn apply_gravity_wells(&mut self, grid: &Grid)
        ensures
            final(self).model() == spec_wells_model(old(self).model(), *grid),
    {
        self.points.left_foot = wells_opt(self.points.left_foot, grid);
        self.points.right_foot = wells_opt(self.points.right_foot, grid);
        self.points.left_hand = wells_opt(self.points.left_hand, grid);
        self.points.right_hand = wells_opt(self.points.right_hand, grid);
        self.points.shoulder = wells_opt(self.points.shoulder, grid);
        self.points.butt = wells_opt(self.points.butt, grid);
        self.points.peg = wells_opt(self.points.peg, grid);
        self.points.tail = wells_opt(self.points.tail, grid);
        self.points.nose = wells_opt(self.points.nose, grid);
        self.points.rope = wells_opt(self.points.rope, grid);
    }

    /// Breaks the rider into its body and its sled, both keeping their
    /// current point positions; mount bones and joints are discarded.
    pub fn split(self) -> (r: (Entity, Entity))
        ensures
            r.0.model() == spec_split(self.model()).0,
            r.1.model() == spec_split(self.model()).1,
    {
        let mut bosh_points = self.points;
        bosh_points.peg = None;
        bosh_points.tail = None;
        bosh_points.nose = None;
        bosh_points.rope = None;
        let mut sled_points = self.points;
        sled_points.left_foot = None;
        sled_points.right_foot = None;
        sled_points.left_hand = None;
        sled_points.right_hand = None;
        sled_points.shoulder = None;
        sled_points.butt = None;
        let mut bosh_bones: Vec<Bone> = Vec::new();
        let mut sled_bones: Vec<Bone> = Vec::new();
        let ghost bs = self.bones@;
        let mut i: usize = 0;
        while i < self.bones.len()
            invariant
                i <= self.bones.len(),
                self.bones@ == bs,
                bosh_bones@ == spec_side_bones(bs.take(i as int), true),
                sled_bones@ == spec_side_bones(bs.take(i as int), false),
            decreases self.bones.len() - i,
        {
            let bone = self.bones[i];
            if bone.is_bosh_bone() {
                bosh_bones.push(bone);
            }
            if bone.is_sled_bone() {
                sled_bones.push(bone);
            }
            i = i + 1;
            proof {
                assert(bs.take(i as int).drop_last() =~= bs.take(i - 1));
                assert(bs.take(i as int).last() == bs[i - 1]);
            }
        }
        proof {
            assert(bs.take(bs.len() as int) =~= bs);
        }
        (
            Entity { points: bosh_points, bones: bosh_bones, joints: Vec::new() },
            Entity { points: sled_points, bones: sled_bones, joints: Vec::new() },
        )
    }

    /// One relaxation pass over the rider's bones, in list order; when a
    /// mount bone broke, the rider splits after the pass finishes.
    pub fn apply_bones(self) -> (r: UpdateBonesResult)
        requires
            spec_shape_ok(self.model()),
        ensures
            r.model() == spec_apply_bones(self.model()),
    {
        let ghost m = self.model();
        let mut this = self;
        let mut broken = false;
        let ghost bs = this.bones@;
        proof {
            assert(bs.take(0) =~= Seq::<Bone>::empty());
        }
        let mut i: usize = 0;
        while i < this.bones.len()
            invariant
                i <= this.bones.len(),
                this.bones@ == bs,
                this.joints@ == m.joints,
                bs == m.bones,
                spec_shape_ok(m),
                (this.points, broken) == spec_bones_pass(m.points, bs.take(i as int)),
                spec_same_shape(m.points, this.points),
            decreases this.bones.len() - i,
        {
            let bone = this.bones[i];
            match next_bone_locations_at(&bone, &this.points) {
                Some(locs) => {
                    let p1 = this.points.slot(bone.p1).unwrap();
                    this.points.set_slot(
                        bone.p1,
                        EntityPoint { location: locs.0, ..p1 },
                    );
                    let p2 = this.points.slot(bone.p2).unwrap();
                    this.points.set_slot(
                        bone.p2,
                        EntityPoint { location: locs.1, ..p2 },
                    );
                },
                None => {
                    broken = true;
                },
            }
            i = i + 1;
            proof {
                assert(bs.take(i as int).drop_last() =~= bs.take(i - 1));
                assert(bs.take(i as int).last() == bs[i - 1]);
                lemma_bones_pass_shape(m.points, bs.take(i as int));
            }
        }
        proof {
            assert(bs.take(bs.len() as int) =~= bs);
        }
        if broken {
            let halves = this.split();
            UpdateBonesResult::Broken(halves.0, halves.1)
        } else {
            UpdateBonesResult::Same(this)
        }
    }

    /// The joint check of an unbroken rider: splits it when any joint's
    /// cross product turned negative. A rider without joints never splits.
    pub fn apply_all_joints(self) -> (r: UpdateBonesResult)
        requires
            spec_shape_ok(self.model()),
        ensures
            r.model() == spec_apply_joints(self.model()),
    {
        let ghost m = self.model();
        let mut any = false;
        let ghost js = self.joints@;
        proof {
            assert(js.take(0) =~= Seq::<Joint>::empty());
        }
        let mut i: usize = 0;
        while i < self.joints.len()
            invariant
                i <= self.joints.len(),
                self.joints@ == js,
                js == m.joints,
                m == self.model(),
                spec_shape_ok(m),
                any == spec_any_joint_breaks(m.points, js.take(i as int)),
            decreases self.joints.len() - i,
        {
            let joint = self.joints[i];
            if joint_should_break(&joint, &self) {
                any = true;
            }
            i = i + 1;
            proof {
                assert(js.take(i as int).drop_last() =~= js.take(i - 1));
                assert(js.take(i as int).last() == js[i - 1]);
            }
        }
        proof {
            assert(js.take(js.len() as int) =~= js);
        }
        if any {
            let halves = self.split();
            UpdateBonesResult::Broken(halves.0, halves.1)
        } else {
            UpdateBonesResult::Same(self)
        }
    }

    /// The full physics step of one rider: integrate under `gravity`, run
    /// `iterations` relaxation passes with gravity wells after each, and
    /// check the joints of a rider that is still whole.
    pub fn apply_all_physics(self, grid: &Grid, gravity: Vector2D, iterations: u64) -> (r:
        UpdateBonesResult)
        requires
            spec_shape_ok(self.model()),
        ensures
            r.model() == spec_apply_all_physics(self.model(), *grid, gravity, iterations as nat),
            spec_result_ok(r.model()),
    {
        let ghost m = self.model();
        let mut this = self;
        this.next_points(gravity);
        proof {
            lemma_pointwise_same_shape(m.points, gravity, *grid);
            lemma_shape_transfer(m, this.model());
        }
        let mut result = UpdateBonesResult::Same(this);
        let ghost m1 = result.model();
        let mut k: u64 = 0;
        while k < iterations
            invariant
                k <= iterations,
                result.model() == spec_iterate(m1, *grid, k as nat),
                spec_result_ok(result.model()),
            decreases iterations - k,
        {
            result = match result {
                UpdateBonesResult::Same(same) => same.apply_bones(),
                UpdateBonesResult::Broken(bosh, sled) => {
                    proof {
                        lemma_apply_bones_ok(bosh.model());
                        lemma_apply_bones_ok(sled.model());
                    }
                    let bosh = bosh.apply_bones().unwrap_same();
                    let sled = sled.apply_bones().unwrap_same();
                    UpdateBonesResult::Broken(bosh, sled)
                },
            };
            proof {
                lemma_iter_once_ok(spec_iterate(m1, *grid, k as nat), *grid);
                match spec_iterate(m1, *grid, k as nat) {
                    ResultModel::Same(e) => {
                        lemma_apply_bones_ok(e);
                    },
                    ResultModel::Broken(b, s) => {
                        lemma_apply_bones_ok(b);
                        lemma_apply_bones_ok(s);
                        lemma_bones_pass_shape(b.points, b.bones);
                        lemma_bones_pass_shape(s.points, s.bones);
                    },
                }
            }
            match &mut result {
                UpdateBonesResult::Same(same) => {
                    same.apply_gravity_wells(grid);
                },
                UpdateBonesResult::Broken(bosh, sled) => {
                    bosh.apply_gravity_wells(grid);
                    sled.apply_gravity_wells(grid);
                },
            }
            k = k + 1;
            proof {
                lemma_iterate_snoc(m1, *grid, (k - 1) as nat);
            }
        }
        match result {
            UpdateBonesResult::Same(same) => {
                proof {
                    lemma_split_ok(same.model());
                }
                same.apply_all_joints()
            },
            UpdateBonesResult::Broken(bosh, sled) => UpdateBonesResult::Broken(bosh, sled),
        }
    }
}

impl Entity {
    /// Whether the rider is well-formed: every bone and joint names points
    /// the rider has, and every mount bone spans the body and the sled.
    /// Decoders check this before a rider from outside enters the kernel.
    pub fn is_well_formed(&self) -> (r: bool)
        ensures
            r == spec_shape_ok(self.model()),
    {
        let ghost m = self.model();
        let mut i: usize = 0;
        while i < self.bones.len()
            invariant
                i <= self.bones.len(),
                m == self.model(),
                forall|k: int|
                    0 <= k < i ==> {
                        &&& m.points.spec_slot((#[trigger] m.bones[k]).p1) is Some
                        &&& m.points.spec_slot(m.bones[k].p2) is Some
                        &&& m.bones[k].bone_type is Mount ==> m.bones[k].p1.spec_is_bosh()
                            != m.bones[k].p2.spec_is_bosh()
                    },
            decreases self.bones.len() - i,
        {
            let bone = self.bones[i];
            if self.points.slot(bone.p1).is_none() || self.points.slot(bone.p2).is_none() {
                return false;
            }
            if matches!(bone.bone_type, BoneType::Mount { .. }) && bone.p1.is_bosh()
                == bone.p2.is_bosh() {
                return false;
            }
            i = i + 1;
        }
        let mut j: usize = 0;
        while j < self.joints.len()
            invariant
                j <= self.joints.len(),
                m == self.model(),
                forall|k: int|
                    0 <= k < j ==> {
                        &&& m.points.spec_slot((#[trigger] m.joints[k]).pair1.first) is Some
                        &&& m.points.spec_slot(m.joints[k].pair1.second) is Some
                        &&& m.points.spec_slot(m.joints[k].pair2.first) is Some
                        &&& m.points.spec_slot(m.joints[k].pair2.second) is Some
                    },
                forall|k: int|
                    0 <= k < m.bones.len() ==> {
                        &&& m.points.spec_slot((#[trigger] m.bones[k]).p1) is Some
                        &&& m.points.spec_slot(m.bones[k].p2) is Some
                        &&& m.bones[k].bone_type is Mount ==> m.bones[k].p1.spec_is_bosh()
                            != m.bones[k].p2.spec_is_bosh()
                    },
            decreases self.joints.len() - j,
        {
            let joint = self.joints[j];
            if self.points.slot(joint.pair1.first).is_none() || self.points.slot(
                joint.pair1.second,
            ).is_none() || self.points.slot(joint.pair2.first).is_none() || self.points.slot(
                joint.pair2.second,
            ).is_none() {
                return false;
            }
            j = j + 1;
        }
        true
    }
}

fn step_opt(o: Option<EntityPoint>, gravity: Vector2D) -> (r: Option<EntityPoint>)
    ensures
        r == spec_opt_step(o, gravity),
{
    match o {
        Some(p) => {
            let new_velocity = p.location.minus(p.previous_location).plus(gravity);
            Some(
                EntityPoint {
                    previous_location: p.location,
                    location: p.location.plus(new_velocity),
                    momentum: new_velocity,
                    friction: p.friction,
                },
            )
        },
        None => None,
    }
}

fn wells_opt(o: Option<EntityPoint>, grid: &Grid) -> (r: Option<EntityPoint>)
    ensures
        r == spec_opt_wells(o, *grid),
{
    match o {
        Some(p) => {
            let mut p2 = p;
            apply_gravity_wells_point(&mut p2, grid);
            Some(p2)
        },
        None => None,
    }
}

/// Runs the physics step on every rider of a frame to get the next frame; a
/// rider that broke contributes its body and its sled.
pub fn frame_riders(riders: &Vec<Entity>, grid: &Grid) -> (r: Vec<Entity>)
    requires
        forall|i: int|
            0 <= i < riders@.len() ==> spec_shape_ok((#[trigger] riders@[i]).model()),
    ensures
        r@.map_values(|e: Entity| e.model()) == spec_frame_after(
            riders@.map_values(|e: Entity| e.model()),
            *grid,
        ),
        forall|i: int| 0 <= i < r@.len() ==> spec_shape_ok((#[trigger] r@[i]).model()),
{
    let mut out: Vec<Entity> = Vec::new();
    let ghost rs = riders@.map_values(|e: Entity| e.model());
    proof {
        assert(rs.take(0) =~= Seq::<EntityModel>::empty());
        assert(out@.map_values(|e: Entity| e.model()) =~= Seq::<EntityModel>::empty());
    }
    let mut i: usize = 0;
    while i < riders.len()
        invariant
            i <= riders.len(),
            rs == riders@.map_values(|e: Entity| e.model()),
            forall|j: int|
                0 <= j < riders@.len() ==> spec_shape_ok((#[trigger] riders@[j]).model()),
            out@.map_values(|e: Entity| e.model()) == spec_frame_after(
                rs.take(i as int),
                *grid,
            ),
            forall|j: int| 0 <= j < out@.len() ==> spec_shape_ok((#[trigger] out@[j]).model()),
        decreases riders.len() - i,
    {
        let entity = riders[i].duplicate();
        proof {
            assert(entity.model() == riders@[i as int].model());
        }
        let stepped = entity.apply_all_physics(grid, Vector2D(0, BITS_GRAVITY_Y), 6);
        let ghost pre = out@.map_values(|e: Entity| e.model());
        match stepped {
            UpdateBonesResult::Same(bosh_sled) => {
                out.push(bosh_sled);
            },
            UpdateBonesResult::Broken(bosh, sled) => {
                out.push(bosh);
                out.push(sled);
            },
        }
        i = i + 1;
        proof {
            assert(rs.take(i as int).drop_last() =~= rs.take(i - 1));
            assert(rs.take(i as int).last() == rs[i - 1]);
            assert(out@.map_values(|e: Entity| e.model()) =~= spec_frame_after(
                rs.take(i as int),
                *grid,
            ));
        }
    }
    proof {
        assert(rs.take(rs.len() as int) =~= rs);
    }
    out
}

} // verus!
