use bosh::codec::LRComEntity;
use bosh::codec::LRComVec2;
use bosh::codec::lrcom_entity_to_entity;
use bosh::line::Line;
use bosh::line::LineType;
use bosh::physics::UpdateBonesResult;
use bosh::physics::apply_gravity_wells_point;
use bosh::rider::Bone;
use bosh::rider::BoneType;
use bosh::rider::Entity;
use bosh::rider::EntityPoint;
use bosh::rider::EntityPoints;
use bosh::rider::PointIndex;
use bosh::track::Track;
use bosh::vector::Vector2D;

fn b(x: f64) -> u64 {
    x.to_bits()
}

fn v(x: f64, y: f64) -> Vector2D {
    Vector2D(b(x), b(y))
}

fn point_at(x: f64, y: f64) -> EntityPoint {
    EntityPoint {
        previous_location: v(0.0, 0.0),
        location: v(x, y),
        momentum: v(0.0, 0.0),
        friction: b(0.0),
    }
}

fn empty_points() -> EntityPoints {
    EntityPoints {
        left_foot: None,
        right_foot: None,
        left_hand: None,
        right_hand: None,
        shoulder: None,
        butt: None,
        peg: None,
        tail: None,
        nose: None,
        rope: None,
    }
}

fn shoulder_butt_rider(shoulder_x: f64, butt_x: f64) -> Entity {
    let mut points = empty_points();
    points.shoulder = Some(point_at(shoulder_x, 0.0));
    points.butt = Some(point_at(butt_x, 0.0));
    Entity {
        points,
        bones: vec![Bone {
            p1: PointIndex::BoshShoulder,
            p2: PointIndex::BoshButt,
            resting_length: b(5.0),
            bone_type: BoneType::Normal,
        }],
        joints: vec![],
    }
}

fn avg_velocity(entity: &Entity) -> (f64, f64) {
    let slots = [
        entity.points.left_foot,
        entity.points.right_foot,
        entity.points.left_hand,
        entity.points.right_hand,
        entity.points.shoulder,
        entity.points.butt,
        entity.points.peg,
        entity.points.tail,
        entity.points.nose,
        entity.points.rope,
    ];
    let mut sx = 0.0;
    let mut sy = 0.0;
    let mut n = 0.0;
    for slot in slots.iter() {
        if let Some(p) = slot {
            sx += f64::from_bits(p.location.0) - f64::from_bits(p.previous_location.0);
            sy += f64::from_bits(p.location.1) - f64::from_bits(p.previous_location.1);
            n += 1.0;
        }
    }
    (sx / n, sy / n)
}

#[test]
fn update_bones_contract() {
    let bosh = shoulder_butt_rider(10.0, 20.0);

    let bosh = bosh.apply_bones().unwrap_same();

    assert_eq!(bosh.point_at(PointIndex::BoshShoulder), point_at(12.5, 0.0));
    assert_eq!(bosh.point_at(PointIndex::BoshButt), point_at(17.5, 0.0));
}

#[test]
fn update_bones_expand() {
    let bosh = shoulder_butt_rider(10.0, 13.0);

    let bosh = bosh.apply_bones().unwrap_same();

    assert_eq!(bosh.point_at(PointIndex::BoshShoulder), point_at(9.0, 0.0));
    assert_eq!(bosh.point_at(PointIndex::BoshButt), point_at(14.0, 0.0));
}

#[test]
fn update_gravity_wells_flat() {
    let mut point = EntityPoint {
        previous_location: v(10.23, 30.0),
        location: v(10.23, 30.2345345),
        momentum: v(0.0, 0.2),
        friction: b(0.0),
    };
    let line = Line::builder().point(b(0.0), b(25.0)).point(b(100.0), b(25.0)).build();
    let track = Track::new(&vec![], &vec![line]);

    apply_gravity_wells_point(&mut point, track.grid_ref());

    assert_eq!(point.location, v(10.23, 25.0));
}

#[test]
fn rider_physics_bosh_sled_at_rest() {
    let original_bosh_sled = Entity::default_boshsled();
    let new_bosh_sled = original_bosh_sled.duplicate();
    let new_bosh_sled = new_bosh_sled.apply_bones().unwrap_same();

    assert!(original_bosh_sled.same_as(&new_bosh_sled));
}

#[test]
fn rider_physics_bosh_falling() {
    let bosh_sled = Entity::default_boshsled();

    let mut track = Track::new(&vec![bosh_sled], &vec![]);

    let entities = track.entity_positions_at(100);
    assert_eq!(1, entities.len(), "rider broke");

    let x_velocity = avg_velocity(&entities[0]).0;

    assert!(x_velocity < 0.400001, "x velocity was > 0.4");
    assert!(x_velocity > 0.399999, "x velocity was < 0.4");
}

#[test]
fn rider_physics_bosh_falling_under_gravity() {
    let bosh_sled = Entity::default_boshsled();

    let mut track = Track::new(&vec![bosh_sled], &vec![]);

    let entities = track.entity_positions_at(100);
    assert_eq!(1, entities.len(), "rider broke");

    let y_velocity = avg_velocity(&entities[0]).1;
    assert!(y_velocity > 17.49 && y_velocity < 17.51, "y velocity should be about 0.175 * 100");

    let x_at_10 = avg_velocity(&track.entity_positions_at(10)[0]).0;
    assert!(x_at_10 > 0.399999 && x_at_10 < 0.400001, "no horizontal drift");
}

#[test]
fn rider_physics_bosh_with_line() {
    let bosh_sled = Entity::default_boshsled();
    let track_line = Line::builder().point(b(0.0), b(5.0)).point(b(30.0), b(20.0)).build();
    let mut track = Track::new(&vec![bosh_sled], &vec![track_line]);

    let entities = track.entity_positions_at(100);
    assert_eq!(1, entities.len(), "rider broke");

    let x_velocity = avg_velocity(&entities[0]).0;

    assert!(x_velocity > 1.0, "should have significant x velocity");
}

#[test]
fn rider_slingshot() {
    let entity = Entity::default_boshsled();
    let mut track = Track::new(
        &vec![entity],
        &vec![
            Line::builder()
                .point(b(1.2112666897140032), b(-3.0419052379903606))
                .point(b(2.7302375219426875), b(-2.021219126142812))
                .build(),
        ],
    );

    let entities = track.entity_positions_at(10);
    let entity = &entities[0];

    assert_eq!(
        entity.point_at(PointIndex::SledTail),
        EntityPoint {
            previous_location: v(11.862884095165988, -10.089233973375801),
            location: v(14.127750467596647, -10.151751900395013),
            momentum: v(2.2295236487517673, -0.3484422284398246),
            friction: b(0.0),
        }
    );
}

#[test]
fn rider_accel() {
    let entity = Entity::default_boshsled();
    let mut track = Track::new(
        &vec![entity],
        &vec![
            Line::builder()
                .line_type(LineType::Accelerate { amount: 1 })
                .point(b(-5.0), b(1.0))
                .point(b(10.0), b(1.0))
                .build(),
        ],
    );

    let entities = track.entity_positions_at(10);
    let entity = &entities[0];

    assert_eq!(
        entity.point_at(PointIndex::SledTail),
        EntityPoint {
            previous_location: v(8.546038495647734, -17.059432508544703),
            location: v(10.437748868700394, -17.70589979578289),
            momentum: v(1.8303232225405575, -0.8753245061408925),
            friction: b(0.0),
        }
    );
}

#[test]
fn positions_at_is_pure() {
    let entity = Entity::default_boshsled();
    let mut track = Track::new(
        &vec![entity],
        &vec![Line::builder().point(b(0.0), b(5.0)).point(b(30.0), b(20.0)).build()],
    );

    let first = track.entity_positions_at(25);
    let second = track.entity_positions_at(25);

    assert_eq!(first.len(), second.len());
    for (a, c) in first.iter().zip(second.iter()) {
        assert!(a.same_as(c));
    }
}

#[test]
fn broken_rider_splits_into_two() {
    // A rider launched hard at a wall bends far enough that a mount bone or
    // a joint gives and the body separates from the sled.
    let entity = lrcom_entity_to_entity(&LRComEntity {
        start_position: LRComVec2 { x: b(0.0), y: b(0.0) },
        start_velocity: LRComVec2 { x: b(8.0), y: b(0.0) },
        remountable: false,
    });
    let wall = Line::builder().point(b(40.0), b(20.0)).point(b(40.0), b(-20.0)).build();
    let mut track = Track::new(&vec![entity], &vec![wall]);

    let mut broke = false;
    for frame in 0..60 {
        if track.entity_positions_at(frame).len() == 2 {
            broke = true;
            break;
        }
    }
    assert!(broke, "the rider should separate from the sled against a wall");
}

#[test]
fn sled_only_rider_never_breaks() {
    let sled = Entity::default_sled();
    match sled.apply_bones() {
        UpdateBonesResult::Same(_) => {}
        UpdateBonesResult::Broken(_, _) => panic!("a sled alone cannot break"),
    }
}
