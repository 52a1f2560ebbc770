//! The rider model: point ids, physics points, bones, joints, and the
//! canonical body, sled and mounted constructions with their resting lengths.

use vstd::prelude::*;

use crate::fops::spec_sqrt_bits;
use crate::fops::sqrt_bits;
use crate::vector::Vector2D;
use crate::vector::spec_length_squared;
use crate::vector::spec_vec_minus;

verus! {

/// Bit pattern of 0.057, the endurance of every mount bone.
pub const BITS_MOUNT_ENDURANCE: u64 = 0x3FAD_2F1A_9FBE_76C9;

/// Bit pattern of 0.5, the length factor of every repel bone.
pub const BITS_REPEL_FACTOR: u64 = 0x3FE0_0000_0000_0000;

/// Identifies one of the ten semantic rider points.
#[derive(Clone, Copy, PartialEq, Eq, Hash, Debug, Structural)]
pub enum PointIndex {
    BoshLeftFoot,
    BoshRightFoot,
    BoshLeftHand,
    BoshRightHand,
    BoshShoulder,
    BoshButt,
    SledPeg,
    SledTail,
    SledNose,
    SledRope,
}

impl PointIndex {
    /// Whether this point belongs to the body rather than the sled.
    pub open spec fn spec_is_bosh(self) -> bool {
        match self {
            PointIndex::BoshLeftFoot => true,
            PointIndex::BoshRightFoot => true,
            PointIndex::BoshLeftHand => true,
            PointIndex::BoshRightHand => true,
            PointIndex::BoshShoulder => true,
            PointIndex::BoshButt => true,
            _ => false,
        }
    }

    /// Whether this point belongs to the body rather than the sled.
    pub fn is_bosh(&self) -> (r: bool)
        ensures
            r == self.spec_is_bosh(),
    {
        match self {
            PointIndex::BoshLeftFoot => true,
            PointIndex::BoshRightFoot => true,
            PointIndex::BoshLeftHand => true,
            PointIndex::BoshRightHand => true,
            PointIndex::BoshShoulder => true,
            PointIndex::BoshButt => true,
            _ => false,
        }
    }
}

/// A physics particle. Velocity is implicit as `location` minus
/// `previous_location`; `momentum` records the velocity the last integration
/// step applied, which the collision gate reads for the rest of that frame.
/// `friction` is a binary64 bit pattern.
#[derive(Clone, Copy, PartialEq, Eq, Hash, Debug, Structural)]
pub struct EntityPoint {
    pub previous_location: Vector2D,
    pub location: Vector2D,
    pub momentum: Vector2D,
    pub friction: u64,
}

/// How a bone constrains the distance of its two points.
#[derive(Clone, Copy, PartialEq, Eq, Hash, Debug, Structural)]
pub enum BoneType {
    /// Symmetric half-correction toward the resting length.
    Normal,
    /// Like `Normal`, but breaks the body off the sled when stretched past
    /// `endurance` times half the resting length (both binary64 patterns).
    Mount { endurance: u64 },
    /// One-way minimum separation: inactive at or beyond `length_factor`
    /// times the resting length.
    Repel { length_factor: u64 },
}

/// A distance constraint between two rider points, with the resting length
/// measured at the default construction (a binary64 bit pattern).
#[derive(Clone, Copy, PartialEq, Eq, Hash, Debug, Structural)]
pub struct Bone {
    pub p1: PointIndex,
    pub p2: PointIndex,
    pub resting_length: u64,
    pub bone_type: BoneType,
}

impl Bone {
    pub fn is_bosh_bone(&self) -> (r: bool)
        ensures
            r == (self.p1.spec_is_bosh() && self.p2.spec_is_bosh()),
    {
        self.p1.is_bosh() && self.p2.is_bosh()
    }

    pub fn is_sled_bone(&self) -> (r: bool)
        ensures
            r == (!self.p1.spec_is_bosh() && !self.p2.spec_is_bosh()),
    {
        !self.p1.is_bosh() && !self.p2.is_bosh()
    }
}

/// An ordered pair of point ids naming one edge vector of a joint.
#[derive(Clone, Copy, PartialEq, Eq, Hash, Debug, Structural)]
pub struct JointPair {
    pub first: PointIndex,
    pub second: PointIndex,
}

/// A joint breaks when the cross product of its two edge vectors turns
/// negative. Joints never move points; they only sever the mount.
#[derive(Clone, Copy, PartialEq, Eq, Hash, Debug, Structural)]
pub struct Joint {
    pub pair1: JointPair,
    pub pair2: JointPair,
}

/// The ten point slots of a rider; a slot is `None` when the rider has no
/// such point (a body has no sled points and a sled no body points).
#[derive(Clone, Copy, Debug)]
pub struct EntityPoints {
    pub left_foot: Option<EntityPoint>,
    pub right_foot: Option<EntityPoint>,
    pub left_hand: Option<EntityPoint>,
    pub right_hand: Option<EntityPoint>,
    pub shoulder: Option<EntityPoint>,
    pub butt: Option<EntityPoint>,
    pub peg: Option<EntityPoint>,
    pub tail: Option<EntityPoint>,
    pub nose: Option<EntityPoint>,
    pub rope: Option<EntityPoint>,
}

impl EntityPoints {
    /// The slot a point id refers to.
    pub open spec fn spec_slot(self, index: PointIndex) -> Option<EntityPoint> {
        match index {
            PointIndex::BoshLeftFoot => self.left_foot,
            PointIndex::BoshRightFoot => self.right_foot,
            PointIndex::BoshLeftHand => self.left_hand,
            PointIndex::BoshRightHand => self.right_hand,
            PointIndex::BoshShoulder => self.shoulder,
            PointIndex::BoshButt => self.butt,
            PointIndex::SledPeg => self.peg,
            PointIndex::SledTail => self.tail,
            PointIndex::SledNose => self.nose,
            PointIndex::SledRope => self.rope,
        }
    }

    /// The all-empty slot set.
    pub open spec fn spec_empty() -> EntityPoints {
        EntityPoints {
            left_foot: None,
            right_foot: None,
            left_hand: None,
            right_hand: None,
            shoulder: None,
            butt: None,
            peg: None,
            tail: None,
            nose: None,
            rope: None,
        }
    }

    /// `points` with the slot of `index` set to `p`.
    pub open spec fn spec_with(self, index: PointIndex, p: EntityPoint) -> EntityPoints {
        match index {
            PointIndex::BoshLeftFoot => EntityPoints { left_foot: Some(p), ..self },
            PointIndex::BoshRightFoot => EntityPoints { right_foot: Some(p), ..self },
            PointIndex::BoshLeftHand => EntityPoints { left_hand: Some(p), ..self },
            PointIndex::BoshRightHand => EntityPoints { right_hand: Some(p), ..self },
            PointIndex::BoshShoulder => EntityPoints { shoulder: Some(p), ..self },
            PointIndex::BoshButt => EntityPoints { butt: Some(p), ..self },
            PointIndex::SledPeg => EntityPoints { peg: Some(p), ..self },
            PointIndex::SledTail => EntityPoints { tail: Some(p), ..self },
            PointIndex::SledNose => EntityPoints { nose: Some(p), ..self },
            PointIndex::SledRope => EntityPoints { rope: Some(p), ..self },
        }
    }

    /// Reads the slot of a point id.
    pub fn slot(&self, index: PointIndex) -> (r: Option<EntityPoint>)
        ensures
            r == self.spec_slot(index),
    {
        match index {
            PointIndex::BoshLeftFoot => self.left_foot,
            PointIndex::BoshRightFoot => self.right_foot,
            PointIndex::BoshLeftHand => self.left_hand,
            PointIndex::BoshRightHand => self.right_hand,
            PointIndex::BoshShoulder => self.shoulder,
            PointIndex::BoshButt => self.butt,
            PointIndex::SledPeg => self.peg,
            PointIndex::SledTail => self.tail,
            PointIndex::SledNose => self.nose,
            PointIndex::SledRope => self.rope,
        }
    }

    /// Overwrites the slot of a point id.
    pub fn set_slot(&mut self, index: PointIndex, p: EntityPoint)
        ensures
            *final(self) == old(self).spec_with(index, p),
    {
        match index {
            PointIndex::BoshLeftFoot => self.left_foot = Some(p),
            PointIndex::BoshRightFoot => self.right_foot = Some(p),
            PointIndex::BoshLeftHand => self.left_hand = Some(p),
            PointIndex::BoshRightHand => self.right_hand = Some(p),
            PointIndex::BoshShoulder => self.shoulder = Some(p),
            PointIndex::BoshButt => self.butt = Some(p),
            PointIndex::SledPeg => self.peg = Some(p),
            PointIndex::SledTail => self.tail = Some(p),
            PointIndex::SledNose => self.nose = Some(p),
            PointIndex::SledRope => self.rope = Some(p),
        }
    }

    /// Whether two slot sets hold the same points.
    pub fn same_as(&self, other: &EntityPoints) -> (r: bool)
        ensures
            r == (*self == *other),
    {
        let r = slot_eq(&self.left_foot, &other.left_foot) && slot_eq(
            &self.right_foot,
            &other.right_foot,
        ) && slot_eq(&self.left_hand, &other.left_hand) && slot_eq(
            &self.right_hand,
            &other.right_hand,
        ) && slot_eq(&self.shoulder, &other.shoulder) && slot_eq(&self.butt, &other.butt)
            && slot_eq(&self.peg, &other.peg) && slot_eq(&self.tail, &other.tail) && slot_eq(
            &self.nose,
            &other.nose,
        ) && slot_eq(&self.rope, &other.rope);
        r
    }
}

fn slot_eq(a: &Option<EntityPoint>, b: &Option<EntityPoint>) -> (r: bool)
    ensures
        r == (*a == *b),
{
    match (a, b) {
        (None, None) => true,
        (Some(x), Some(y)) => *x == *y,
        _ => false,
    }
}

/// One rider: its points, its distance constraints in solve order, and its
/// angular break constraints. A body-only or sled-only rider has no joints.
#[derive(Clone, Debug)]
pub struct Entity {
    pub points: EntityPoints,
    pub bones: Vec<Bone>,
    pub joints: Vec<Joint>,
}

impl Entity {
    /// The point at a point id; the id must be one of this rider's points.
    pub fn point_at(&self, index: PointIndex) -> (r: EntityPoint)
        requires
            self.points.spec_slot(index) is Some,
        ensures
            Some(r) == self.points.spec_slot(index),
    {
        self.points.slot(index).unwrap()
    }

    /// Whether two riders hold the same points, bones and joints.
    pub fn same_as(&self, other: &Entity) -> (r: bool)
        ensures
            r == (self.points == other.points && self.bones@ == other.bones@ && self.joints@
                == other.joints@),
    {
        if !self.points.same_as(&other.points) {
            return false;
        }
        if !bones_eq(&self.bones, &other.bones) {
            return false;
        }
        joints_eq(&self.joints, &other.joints)
    }

    /// An exact copy.
    pub fn duplicate(&self) -> (r: Entity)
        ensures
            r.points == self.points,
            r.bones@ == self.bones@,
            r.joints@ == self.joints@,
    {
        let mut bones: Vec<Bone> = Vec::new();
        let mut i: usize = 0;
        while i < self.bones.len()
            invariant
                i <= self.bones.len(),
                bones@ == self.bones@.subrange(0, i as int),
            decreases self.bones.len() - i,
        {
            bones.push(self.bones[i]);
            i = i + 1;
            proof {
                assert(bones@ =~= self.bones@.subrange(0, i as int));
            }
        }
        let mut joints: Vec<Joint> = Vec::new();
        let mut j: usize = 0;
        while j < self.joints.len()
            invariant
                j <= self.joints.len(),
                joints@ == self.joints@.subrange(0, j as int),
            decreases self.joints.len() - j,
        {
            joints.push(self.joints[j]);
            j = j + 1;
            proof {
                assert(joints@ =~= self.joints@.subrange(0, j as int));
            }
        }
        proof {
            assert(bones@ =~= self.bones@);
            assert(joints@ =~= self.joints@);
        }
        Entity { points: self.points, bones, joints }
    }
}

fn bones_eq(a: &Vec<Bone>, b: &Vec<Bone>) -> (r: bool)
    ensures
        r == (a@ == b@),
{
    if a.len() != b.len() {
        proof {
            assert(a@.len() != b@.len());
        }
        return false;
    }
    let mut i: usize = 0;
    while i < a.len()
        invariant
            i <= a.len(),
            a@.len() == b@.len(),
            forall|k: int| 0 <= k < i ==> a@[k] == b@[k],
        decreases a.len() - i,
    {
        if a[i] != b[i] {
            return false;
        }
        i = i + 1;
    }
    proof {
        assert(a@ =~= b@);
    }
    true
}

/// Bit pattern of 10.0, a default coordinate.
pub const BITS_P10: u64 = 0x4024_0000_0000_0000;

/// Bit pattern of 5.0, a default coordinate.
pub const BITS_P5: u64 = 0x4014_0000_0000_0000;

/// Bit pattern of 11.5, a default coordinate.
pub const BITS_P11_5: u64 = 0x4027_0000_0000_0000;

/// Bit pattern of -5.0, a default coordinate.
pub const BITS_N5: u64 = 0xC014_0000_0000_0000;

/// Bit pattern of -5.5, a default coordinate.
pub const BITS_N5_5: u64 = 0xC016_0000_0000_0000;

/// Bit pattern of 15.0, a default coordinate.
pub const BITS_P15: u64 = 0x402E_0000_0000_0000;

/// Bit pattern of 17.5, a default coordinate.
pub const BITS_P17_5: u64 = 0x4031_8000_0000_0000;

/// Bit pattern of 0.1, a default friction.
pub const BITS_F01: u64 = 0x3FB9_9999_9999_999A;

/// Bit pattern of 0.8, a default friction.
pub const BITS_F08: u64 = 0x3FE9_9999_9999_999A;

/// Bit pattern of 0.4, the x velocity every canonical rider starts with.
pub const BITS_START_VELOCITY_X: u64 = 0x3FD9_9999_9999_999A;

/// A default point at `loc`: it carries the canonical start velocity, so its
/// previous location sits (0.4, 0) behind its location.
pub open spec fn spec_make_point(loc: Vector2D, friction: u64) -> EntityPoint {
    EntityPoint {
        previous_location: spec_vec_minus(loc, Vector2D(BITS_START_VELOCITY_X, 0)),
        location: loc,
        momentum: Vector2D(0, 0),
        friction,
    }
}

/// The resting length of a bone between two point slots: the Euclidean
/// distance of their locations at construction time.
pub open spec fn spec_resting_length(points: EntityPoints, p1: PointIndex, p2: PointIndex) -> u64 {
    spec_sqrt_bits(
        spec_length_squared(
            spec_vec_minus(
                points.spec_slot(p2).unwrap().location,
                points.spec_slot(p1).unwrap().location,
            ),
        ),
    )
}

pub open spec fn spec_make_bone(
    points: EntityPoints,
    p1: PointIndex,
    p2: PointIndex,
    bone_type: BoneType,
) -> Bone {
    Bone { p1, p2, resting_length: spec_resting_length(points, p1, p2), bone_type }
}

/// The six body points at their default locations and frictions.
pub open spec fn spec_default_bosh_points() -> EntityPoints {
    EntityPoints {
        left_foot: Some(spec_make_point(Vector2D(BITS_P10, BITS_P5), 0)),
        right_foot: Some(spec_make_point(Vector2D(BITS_P10, BITS_P5), 0)),
        left_hand: Some(spec_make_point(Vector2D(BITS_P11_5, BITS_N5), BITS_F01)),
        right_hand: Some(spec_make_point(Vector2D(BITS_P11_5, BITS_N5), BITS_F01)),
        shoulder: Some(spec_make_point(Vector2D(BITS_P5, BITS_N5_5), BITS_F08)),
        butt: Some(spec_make_point(Vector2D(BITS_P5, 0), BITS_F08)),
        ..EntityPoints::spec_empty()
    }
}

/// The four sled points at their default locations and frictions.
pub open spec fn spec_default_sled_points() -> EntityPoints {
    EntityPoints {
        peg: Some(spec_make_point(Vector2D(0, 0), BITS_F08)),
        nose: Some(spec_make_point(Vector2D(BITS_P15, BITS_P5), 0)),
        tail: Some(spec_make_point(Vector2D(0, BITS_P5), 0)),
        rope: Some(spec_make_point(Vector2D(BITS_P17_5, 0), 0)),
        ..EntityPoints::spec_empty()
    }
}

/// All ten points: the sled points joined with the body points.
pub open spec fn spec_default_boshsled_points() -> EntityPoints {
    EntityPoints {
        peg: spec_default_sled_points().peg,
        nose: spec_default_sled_points().nose,
        tail: spec_default_sled_points().tail,
        rope: spec_default_sled_points().rope,
        ..spec_default_bosh_points()
    }
}

/// The body's bones in solve order: six normal bones then the two repel
/// bones between the shoulder and the feet.
pub open spec fn spec_default_bosh_bones(points: EntityPoints) -> Seq<Bone> {
    seq![
        spec_make_bone(points, PointIndex::BoshShoulder, PointIndex::BoshButt, BoneType::Normal),
        spec_make_bone(
            points,
            PointIndex::BoshShoulder,
            PointIndex::BoshLeftHand,
            BoneType::Normal,
        ),
        spec_make_bone(
            points,
            PointIndex::BoshShoulder,
            PointIndex::BoshRightHand,
            BoneType::Normal,
        ),
        spec_make_bone(points, PointIndex::BoshButt, PointIndex::BoshLeftFoot, BoneType::Normal),
        spec_make_bone(points, PointIndex::BoshButt, PointIndex::BoshRightFoot, BoneType::Normal),
        spec_make_bone(
            points,
            PointIndex::BoshShoulder,
            PointIndex::BoshRightHand,
            BoneType::Normal,
        ),
        spec_make_bone(
            points,
            PointIndex::BoshShoulder,
            PointIndex::BoshLeftFoot,
            BoneType::Repel { length_factor: BITS_REPEL_FACTOR },
        ),
        spec_make_bone(
            points,
            PointIndex::BoshShoulder,
            PointIndex::BoshRightFoot,
            BoneType::Repel { length_factor: BITS_REPEL_FACTOR },
        ),
    ]
}

/// The sled's six normal bones in solve order.
pub open spec fn spec_default_sled_bones(points: EntityPoints) -> Seq<Bone> {
    seq![
        spec_make_bone(points, PointIndex::SledPeg, PointIndex::SledTail, BoneType::Normal),
        spec_make_bone(points, PointIndex::SledTail, PointIndex::SledNose, BoneType::Normal),
        spec_make_bone(points, PointIndex::SledNose, PointIndex::SledRope, BoneType::Normal),
        spec_make_bone(points, PointIndex::SledRope, PointIndex::SledPeg, BoneType::Normal),
        spec_make_bone(points, PointIndex::SledPeg, PointIndex::SledNose, BoneType::Normal),
        spec_make_bone(points, PointIndex::SledRope, PointIndex::SledTail, BoneType::Normal),
    ]
}

/// The three mount bones that hold the butt onto the sled.
pub open spec fn spec_default_sled_mounter_bones(points: EntityPoints) -> Seq<Bone> {
    seq![
        spec_make_bone(
            points,
            PointIndex::SledPeg,
            PointIndex::BoshButt,
            BoneType::Mount { endurance: BITS_MOUNT_ENDURANCE },
        ),
        spec_make_bone(
            points,
            PointIndex::SledTail,
            PointIndex::BoshButt,
            BoneType::Mount { endurance: BITS_MOUNT_ENDURANCE },
        ),
        spec_make_bone(
            points,
            PointIndex::SledNose,
            PointIndex::BoshButt,
            BoneType::Mount { endurance: BITS_MOUNT_ENDURANCE },
        ),
    ]
}

/// The five mount bones that hold the body onto the sled.
pub open spec fn spec_default_bosh_mounter_bones(points: EntityPoints) -> Seq<Bone> {
    seq![
        spec_make_bone(
            points,
            PointIndex::BoshShoulder,
            PointIndex::SledPeg,
            BoneType::Mount { endurance: BITS_MOUNT_ENDURANCE },
        ),
        spec_make_bone(
            points,
            PointIndex::SledRope,
            PointIndex::BoshLeftHand,
            BoneType::Mount { endurance: BITS_MOUNT_ENDURANCE },
        ),
        spec_make_bone(
            points,
            PointIndex::SledRope,
            PointIndex::BoshRightHand,
            BoneType::Mount { endurance: BITS_MOUNT_ENDURANCE },
        ),
        spec_make_bone(
            points,
            PointIndex::BoshLeftFoot,
            PointIndex::SledNose,
            BoneType::Mount { endurance: BITS_MOUNT_ENDURANCE },
        ),
        spec_make_bone(
            points,
            PointIndex::BoshRightFoot,
            PointIndex::SledNose,
            BoneType::Mount { endurance: BITS_MOUNT_ENDURANCE },
        ),
    ]
}

/// The mounted rider's bones in solve order: sled bones, sled mounters,
/// body bones, body mounters.
pub open spec fn spec_default_boshsled_bones(points: EntityPoints) -> Seq<Bone> {
    spec_default_sled_bones(points) + spec_default_sled_mounter_bones(points)
        + spec_default_bosh_bones(points) + spec_default_bosh_mounter_bones(points)
}

/// The two joints that watch the mounted rider's posture.
pub open spec fn spec_default_joints() -> Seq<Joint> {
    seq![
        Joint {
            pair1: JointPair { first: PointIndex::BoshShoulder, second: PointIndex::BoshButt },
            pair2: JointPair { first: PointIndex::SledRope, second: PointIndex::SledPeg },
        },
        Joint {
            pair1: JointPair { first: PointIndex::SledPeg, second: PointIndex::SledTail },
            pair2: JointPair { first: PointIndex::SledRope, second: PointIndex::SledPeg },
        },
    ]
}

fn make_point(loc: Vector2D, friction: u64) -> (r: EntityPoint)
    ensures
        r == spec_make_point(loc, friction),
{
    EntityPoint {
        previous_location: loc.minus(Vector2D(BITS_START_VELOCITY_X, 0)),
        location: loc,
        momentum: Vector2D(0, 0),
        friction,
    }
}

fn make_bone(points: &EntityPoints, p1: PointIndex, p2: PointIndex, bone_type: BoneType) -> (r:
    Bone)
    requires
        points.spec_slot(p1) is Some,
        points.spec_slot(p2) is Some,
    ensures
        r == spec_make_bone(*points, p1, p2, bone_type),
{
    let l1 = points.slot(p1).unwrap().location;
    let l2 = points.slot(p2).unwrap().location;
    let resting_length = sqrt_bits(l2.minus(l1).length_squared());
    Bone { p1, p2, resting_length, bone_type }
}

/// The six body points at their default locations and frictions.
pub fn default_bosh_points() -> (r: EntityPoints)
    ensures
        r == spec_default_bosh_points(),
{
    EntityPoints {
        left_foot: Some(make_point(Vector2D(BITS_P10, BITS_P5), 0)),
        right_foot: Some(make_point(Vector2D(BITS_P10, BITS_P5), 0)),
        left_hand: Some(make_point(Vector2D(BITS_P11_5, BITS_N5), BITS_F01)),
        right_hand: Some(make_point(Vector2D(BITS_P11_5, BITS_N5), BITS_F01)),
        shoulder: Some(make_point(Vector2D(BITS_P5, BITS_N5_5), BITS_F08)),
        butt: Some(make_point(Vector2D(BITS_P5, 0), BITS_F08)),
        peg: None,
        tail: None,
        nose: None,
        rope: None,
    }
}

/// The four sled points at their default locations and frictions.
pub fn default_sled_points() -> (r: EntityPoints)
    ensures
        r == spec_default_sled_points(),
{
    EntityPoints {
        left_foot: None,
        right_foot: None,
        left_hand: None,
        right_hand: None,
        shoulder: None,
        butt: None,
        peg: Some(make_point(Vector2D(0, 0), BITS_F08)),
        nose: Some(make_point(Vector2D(BITS_P15, BITS_P5), 0)),
        tail: Some(make_point(Vector2D(0, BITS_P5), 0)),
        rope: Some(make_point(Vector2D(BITS_P17_5, 0), 0)),
    }
}

/// All ten points: the sled points joined with the body points.
pub fn default_boshsled_points() -> (r: EntityPoints)
    ensures
        r == spec_default_boshsled_points(),
{
    let bosh = default_bosh_points();
    let sled = default_sled_points();
    EntityPoints { peg: sled.peg, tail: sled.tail, nose: sled.nose, rope: sled.rope, ..bosh }
}

/// The body's bones in solve order.
pub fn default_bosh_bones(points: &EntityPoints) -> (r: Vec<Bone>)
    requires
        points.left_foot is Some,
        points.right_foot is Some,
        points.left_hand is Some,
        points.right_hand is Some,
        points.shoulder is Some,
        points.butt is Some,
    ensures
        r@ == spec_default_bosh_bones(*points),
{
    let mut bones: Vec<Bone> = Vec::new();
    bones.push(make_bone(points, PointIndex::BoshShoulder, PointIndex::BoshButt, BoneType::Normal));
    bones.push(
        make_bone(points, PointIndex::BoshShoulder, PointIndex::BoshLeftHand, BoneType::Normal),
    );
    bones.push(
        make_bone(points, PointIndex::BoshShoulder, PointIndex::BoshRightHand, BoneType::Normal),
    );
    bones.push(
        make_bone(points, PointIndex::BoshButt, PointIndex::BoshLeftFoot, BoneType::Normal),
    );
    bones.push(
        make_bone(points, PointIndex::BoshButt, PointIndex::BoshRightFoot, BoneType::Normal),
    );
    bones.push(
        make_bone(points, PointIndex::BoshShoulder, PointIndex::BoshRightHand, BoneType::Normal),
    );
    bones.push(
        make_bone(
            points,
            PointIndex::BoshShoulder,
            PointIndex::BoshLeftFoot,
            BoneType::Repel { length_factor: BITS_REPEL_FACTOR },
        ),
    );
    bones.push(
        make_bone(
            points,
            PointIndex::BoshShoulder,
            PointIndex::BoshRightFoot,
            BoneType::Repel { length_factor: BITS_REPEL_FACTOR },
        ),
    );
    proof {
        assert(bones@ =~= spec_default_bosh_bones(*points));
    }
    bones
}

/// The sled's bones in solve order.
pub fn default_sled_bones(points: &EntityPoints) -> (r: Vec<Bone>)
    requires
        points.peg is Some,
        points.tail is Some,
        points.nose is Some,
        points.rope is Some,
    ensures
        r@ == spec_default_sled_bones(*points),
{
    let mut bones: Vec<Bone> = Vec::new();
    bones.push(make_bone(points, PointIndex::SledPeg, PointIndex::SledTail, BoneType::Normal));
    bones.push(make_bone(points, PointIndex::SledTail, PointIndex::SledNose, BoneType::Normal));
    bones.push(make_bone(points, PointIndex::SledNose, PointIndex::SledRope, BoneType::Normal));
    bones.push(make_bone(points, PointIndex::SledRope, PointIndex::SledPeg, BoneType::Normal));
    bones.push(make_bone(points, PointIndex::SledPeg, PointIndex::SledNose, BoneType::Normal));
    bones.push(make_bone(points, PointIndex::SledRope, PointIndex::SledTail, BoneType::Normal));
    proof {
        assert(bones@ =~= spec_default_sled_bones(*points));
    }
    bones
}

/// The three mount bones that hold the butt onto the sled.
pub fn default_sled_mounter_bones(points: &EntityPoints) -> (r: Vec<Bone>)
    requires
        points.peg is Some,
        points.tail is Some,
        points.nose is Some,
        points.butt is Some,
    ensures
        r@ == spec_default_sled_mounter_bones(*points),
{
    let mut bones: Vec<Bone> = Vec::new();
    bones.push(
        make_bone(
            points,
            PointIndex::SledPeg,
            PointIndex::BoshButt,
            BoneType::Mount { endurance: BITS_MOUNT_ENDURANCE },
        ),
    );
    bones.push(
        make_bone(
            points,
            PointIndex::SledTail,
            PointIndex::BoshButt,
            BoneType::Mount { endurance: BITS_MOUNT_ENDURANCE },
        ),
    );
    bones.push(
        make_bone(
            points,
            PointIndex::SledNose,
            PointIndex::BoshButt,
            BoneType::Mount { endurance: BITS_MOUNT_ENDURANCE },
        ),
    );
    proof {
        assert(bones@ =~= spec_default_sled_mounter_bones(*points));
    }
    bones
}

/// The five mount bones that hold the body onto the sled.
pub fn default_bosh_mounter_bones(points: &EntityPoints) -> (r: Vec<Bone>)
    requires
        points.left_foot is Some,
        points.right_foot is Some,
        points.left_hand is Some,
        points.right_hand is Some,
        points.shoulder is Some,
        points.peg is Some,
        points.nose is Some,
        points.rope is Some,
    ensures
        r@ == spec_default_bosh_mounter_bones(*points),
{
    let mut bones: Vec<Bone> = Vec::new();
    bones.push(
        make_bone(
            points,
            PointIndex::BoshShoulder,
            PointIndex::SledPeg,
            BoneType::Mount { endurance: BITS_MOUNT_ENDURANCE },
        ),
    );
    bones.push(
        make_bone(
            points,
            PointIndex::SledRope,
            PointIndex::BoshLeftHand,
            BoneType::Mount { endurance: BITS_MOUNT_ENDURANCE },
        ),
    );
    bones.push(
        make_bone(
            points,
            PointIndex::SledRope,
            PointIndex::BoshRightHand,
            BoneType::Mount { endurance: BITS_MOUNT_ENDURANCE },
        ),
    );
    bones.push(
        make_bone(
            points,
            PointIndex::BoshLeftFoot,
            PointIndex::SledNose,
            BoneType::Mount { endurance: BITS_MOUNT_ENDURANCE },
        ),
    );
    bones.push(
        make_bone(
            points,
            PointIndex::BoshRightFoot,
            PointIndex::SledNose,
            BoneType::Mount { endurance: BITS_MOUNT_ENDURANCE },
        ),
    );
    proof {
        assert(bones@ =~= spec_default_bosh_mounter_bones(*points));
    }
    bones
}

/// The two joints that watch the mounted rider's posture.
pub fn default_joints() -> (r: Vec<Joint>)
    ensures
        r@ == spec_default_joints(),
{
    let mut joints: Vec<Joint> = Vec::new();
    joints.push(
        Joint {
            pair1: JointPair { first: PointIndex::BoshShoulder, second: PointIndex::BoshButt },
            pair2: JointPair { first: PointIndex::SledRope, second: PointIndex::SledPeg },
        },
    );
    joints.push(
        Joint {
            pair1: JointPair { first: PointIndex::SledPeg, second: PointIndex::SledTail },
            pair2: JointPair { first: PointIndex::SledRope, second: PointIndex::SledPeg },
        },
    );
    proof {
        assert(joints@ =~= spec_default_joints());
    }
    joints
}

impl Entity {
    /// The canonical mounted rider: all ten points, the sled and body bones
    /// with the eight mount bones between them, and the two posture joints.
    pub fn default_boshsled() -> (r: Entity)
        ensures
            r.points == spec_default_boshsled_points(),
            r.bones@ == spec_default_boshsled_bones(spec_default_boshsled_points()),
            r.joints@ == spec_default_joints(),
    {
        let points = default_boshsled_points();
        let mut bones = default_sled_bones(&points);
        let mut more = default_sled_mounter_bones(&points);
        bones.append(&mut more);
        let mut more = default_bosh_bones(&points);
        bones.append(&mut more);
        let mut more = default_bosh_mounter_bones(&points);
        bones.append(&mut more);
        let joints = default_joints();
        Entity { points, bones, joints }
    }

    /// The canonical body-only rider.
    pub fn default_bosh() -> (r: Entity)
        ensures
            r.points == spec_default_bosh_points(),
            r.bones@ == spec_default_bosh_bones(spec_default_bosh_points()),
            r.joints@ == Seq::<Joint>::empty(),
    {
        let points = default_bosh_points();
        let bones = default_bosh_bones(&points);
        let joints: Vec<Joint> = Vec::new();
        proof {
            assert(joints@ =~= Seq::<Joint>::empty());
        }
        Entity { points, bones, joints }
    }

    /// The canonical sled-only rider.
    pub fn default_sled() -> (r: Entity)
        ensures
            r.points == spec_default_sled_points(),
            r.bones@ == spec_default_sled_bones(spec_default_sled_points()),
            r.joints@ == Seq::<Joint>::empty(),
    {
        let points = default_sled_points();
        let bones = default_sled_bones(&points);
        let joints: Vec<Joint> = Vec::new();
        proof {
            assert(joints@ =~= Seq::<Joint>::empty());
        }
        Entity { points, bones, joints }
    }
}

fn joints_eq(a: &Vec<Joint>, b: &Vec<Joint>) -> (r: bool)
    ensures
        r == (a@ == b@),
{
    if a.len() != b.len() {
        proof {
            assert(a@.len() != b@.len());
        }
        return false;
    }
    let mut i: usize = 0;
    while i < a.len()
        invariant
            i <= a.len(),
            a@.len() == b@.len(),
            forall|k: int| 0 <= k < i ==> a@[k] == b@[k],
        decreases a.len() - i,
    {
        if a[i] != b[i] {
            return false;
        }
        i = i + 1;
    }
    proof {
        assert(a@ =~= b@);
    }
    true
}

} // verus!
