use std::collections::hash_map::DefaultHasher;
use std::hash::Hash;
use std::hash::Hasher;

use bosh::codec::BoshTFEntity;
use bosh::codec::LRComLine;
use bosh::codec::LRComLineType;
use bosh::codec::TrackError;
use bosh::codec::TrkLineFlags;
use bosh::codec::TrkLineType;
use bosh::codec::boshtf_entity_to_entity;
use bosh::codec::entity_to_boshtf;
use bosh::codec::entity_to_lrcom_entity;
use bosh::codec::lrcom_line_to_line;
use bosh::codec::line_to_lrcom_line;
use bosh::codec::parse_trk_header;
use bosh::codec::translated_boshsled;
use bosh::fbits::floor_to_i64;
use bosh::fbits::fmod20_bits;
use bosh::fbits::from_u64_bits;
use bosh::fbits::lt_bits;
use bosh::fbits::total_lt_bits;
use bosh::fops::add_bits;
use bosh::fops::div_bits;
use bosh::fops::mul_bits;
use bosh::fops::sqrt_bits;
use bosh::fops::sub_bits;
use bosh::line::Line;
use bosh::line::LineType;
use bosh::physics::distance_below_line;
use bosh::physics::is_moving_into_line;
use bosh::rider::Entity;
use bosh::rider::EntityPoint;
use bosh::track::Track;
use bosh::vector::Vector2D;

fn b(x: f64) -> u64 {
    x.to_bits()
}

/// NaN results compare as NaN: IEEE-754 leaves the sign and payload of a
/// NaN unspecified, and the machine and the library pick different ones.
fn assert_bits_agree(got: u64, expected: f64) {
    if expected.is_nan() {
        assert!(f64::from_bits(got).is_nan());
    } else {
        assert_eq!(got, expected.to_bits());
    }
}

#[test]
fn it_works() {
    let result = 2 + 2;
    assert_eq!(result, 4);
}

#[test]
fn test_distance() {
    let vec1 = Vector2D(b(0.0), b(0.0));
    let vec2 = Vector2D(b(5.0), b(0.0));

    assert_eq!(vec1.distance_squared(vec2), b(25.0));
}

#[test]
fn arithmetic_matches_the_machine() {
    let samples: [f64; 12] = [
        0.0, -0.0, 1.0, -1.5, 0.1, 123.456, -987.654e12, 1e-300, 3.5e300, 0.175, 20.0, -0.057,
    ];
    for &x in samples.iter() {
        for &y in samples.iter() {
            assert_bits_agree(add_bits(b(x), b(y)), x + y);
            assert_bits_agree(sub_bits(b(x), b(y)), x - y);
            assert_bits_agree(mul_bits(b(x), b(y)), x * y);
            assert_bits_agree(div_bits(b(x), b(y)), x / y);
            assert_eq!(lt_bits(b(x), b(y)), x < y);
            assert_eq!(total_lt_bits(b(x), b(y)), x.total_cmp(&y) == std::cmp::Ordering::Less);
        }
        if x >= 0.0 {
            assert_eq!(sqrt_bits(b(x)), b(x.sqrt()));
        }
        if x.is_finite() {
            assert_eq!(fmod20_bits(b(x)), b(x % 20.0));
            assert_eq!(floor_to_i64(b(x)), x.floor() as i64);
        }
    }
    assert_eq!(from_u64_bits(0), b(0.0));
    assert_eq!(from_u64_bits(3), b(3.0));
    assert_eq!(from_u64_bits(u64::MAX), b(u64::MAX as f64));
    assert_eq!(from_u64_bits((1 << 53) + 1), b(((1u64 << 53) + 1) as f64));
}

#[test]
fn vector_equality_is_bit_exact_and_agrees_with_hash() {
    let a = Vector2D(b(1.5), b(-2.25));
    let c = Vector2D(b(1.5), b(-2.25));
    let d = Vector2D(b(1.5), b(2.25));

    assert_eq!(a, a);
    assert_eq!(a == c, c == a);
    assert_eq!(a, c);
    assert_ne!(a, d);
    // The two IEEE zeroes have different bits, so they are different vectors.
    assert_ne!(Vector2D(b(0.0), b(0.0)), Vector2D(b(-0.0), b(0.0)));

    let mut h1 = DefaultHasher::new();
    a.hash(&mut h1);
    let mut h2 = DefaultHasher::new();
    c.hash(&mut h2);
    assert_eq!(h1.finish(), h2.finish());
}

#[test]
fn normalize_and_perpendicular_match_the_machine() {
    let v = Vector2D(b(3.0), b(4.0));
    let n = v.normalize();
    let inv = 1.0 / (3.0f64 * 3.0 + 4.0 * 4.0).sqrt();
    assert_eq!(n, Vector2D(b(3.0 * inv), b(4.0 * inv)));

    let l = Line::builder().point(b(0.0), b(0.0)).point(b(10.0), b(0.0)).build();
    // An unflipped horizontal line pushes straight up (negative y).
    assert_eq!(l.perpendicular(), Vector2D(b(0.0), b(-1.0)));
}

#[test]
fn hitbox_extensions_quarter_length_clamped() {
    let l = Line::builder()
        .point(b(0.0), b(0.0))
        .extended(true)
        .point(b(8.0), b(0.0))
        .extended(true)
        .build();
    assert_eq!(l.hitbox_extensions(), (b(2.0), b(2.0)));

    let long = Line::builder()
        .point(b(0.0), b(0.0))
        .extended(true)
        .point(b(100.0), b(0.0))
        .build();
    assert_eq!(long.hitbox_extensions(), (b(10.0), b(0.0)));
}

#[test]
fn scenery_lines_never_collide() {
    let l = Line::builder()
        .line_type(LineType::Scenery)
        .point(b(0.0), b(25.0))
        .point(b(100.0), b(25.0))
        .build();
    let p = EntityPoint {
        previous_location: Vector2D(b(10.0), b(20.0)),
        location: Vector2D(b(10.0), b(26.0)),
        momentum: Vector2D(b(0.0), b(6.0)),
        friction: b(0.0),
    };
    assert_eq!(distance_below_line(&l, &p), b(0.0));
}

#[test]
fn moving_away_means_no_distance() {
    let l = Line::builder().point(b(0.0), b(25.0)).point(b(100.0), b(25.0)).build();
    let rising = EntityPoint {
        previous_location: Vector2D(b(10.0), b(26.0)),
        location: Vector2D(b(10.0), b(20.0)),
        momentum: Vector2D(b(0.0), b(-6.0)),
        friction: b(0.0),
    };
    assert!(!is_moving_into_line(&l, &rising));
    assert_eq!(distance_below_line(&l, &rising), b(0.0));

    let falling = EntityPoint {
        previous_location: Vector2D(b(10.0), b(20.0)),
        location: Vector2D(b(10.0), b(26.0)),
        momentum: Vector2D(b(0.0), b(6.0)),
        friction: b(0.0),
    };
    assert!(is_moving_into_line(&l, &falling));
    assert_eq!(distance_below_line(&l, &falling), b(1.0));
}

#[test]
fn snap_point_picks_the_closest_endpoint() {
    let l1 = Line::builder().point(b(1.0), b(1.0)).point(b(50.0), b(0.0)).build();
    let l2 = Line::builder().point(b(4.0), b(0.0)).point(b(-40.0), b(0.0)).build();
    let track = Track::new(&vec![], &vec![l1, l2]);

    let snapped = track.snap_point(b(5.0), Vector2D(b(0.0), b(0.0)));
    assert_eq!(snapped, Vector2D(b(1.0), b(1.0)));

    let unmoved = track.snap_point(b(0.5), Vector2D(b(20.0), b(20.0)));
    assert_eq!(unmoved, Vector2D(b(20.0), b(20.0)));
}

#[test]
fn trk_header_parses() {
    let mut bytes: Vec<u8> = vec![b'T', b'R', b'K', 0xF2, 1];
    let features = b"SONGINFO;ZEROSTART";
    bytes.push(features.len() as u8);
    bytes.push(0);
    bytes.extend_from_slice(features);
    bytes.push(3);
    bytes.extend_from_slice(b"abc");
    bytes.extend_from_slice(&2.5f64.to_le_bytes());
    bytes.extend_from_slice(&(-7.25f64).to_le_bytes());

    let (header, used) = parse_trk_header(&bytes).unwrap();
    assert_eq!(used, bytes.len());
    assert_eq!(header.version, 1);
    assert_eq!(header.features, vec![b"SONGINFO".to_vec(), b"ZEROSTART".to_vec()]);
    assert_eq!(header.song, Some(b"abc".to_vec()));
    assert_eq!(header.start_position, Vector2D(b(2.5), b(-7.25)));
}

#[test]
fn trk_header_without_song() {
    let mut bytes: Vec<u8> = vec![b'T', b'R', b'K', 0xF2, 1];
    let features = b"ZEROSTART";
    bytes.push(features.len() as u8);
    bytes.push(0);
    bytes.extend_from_slice(features);
    bytes.extend_from_slice(&0.0f64.to_le_bytes());
    bytes.extend_from_slice(&0.0f64.to_le_bytes());

    let (header, used) = parse_trk_header(&bytes).unwrap();
    assert_eq!(used, bytes.len());
    assert_eq!(header.song, None);
}

#[test]
fn trk_header_rejects_bad_magic_and_truncation() {
    let bad_magic = vec![b'T', b'R', b'K', 0xF1, 1, 0, 0];
    assert!(matches!(parse_trk_header(&bad_magic), Err(TrackError::MalformedTrackHeader)));

    let truncated = vec![b'T', b'R', b'K', 0xF2, 1, 10, 0, b'A'];
    assert!(matches!(parse_trk_header(&truncated), Err(TrackError::MalformedTrackHeader)));
}

#[test]
fn trk_line_flags_unpack() {
    let flags = TrkLineFlags(0b1110_0010);
    assert!(flags.flipped());
    assert_eq!(flags.extensions(), (true, true));
    assert!(matches!(flags.line_type(), TrkLineType::Red));

    let plain = TrkLineFlags(0b0000_0001);
    assert!(!plain.flipped());
    assert_eq!(plain.extensions(), (false, false));
    assert!(matches!(plain.line_type(), TrkLineType::Blue));
    assert!(matches!(TrkLineType::from_u8(17), TrkLineType::Scenery));
}

#[test]
fn lrcom_line_round_trip() {
    let original = Line::builder()
        .point(b(1.0), b(2.0))
        .extended(true)
        .point(b(3.0), b(4.0))
        .flipped(true)
        .line_type(LineType::Accelerate { amount: 1 })
        .build();
    let encoded = line_to_lrcom_line(&original, 7);
    assert_eq!(encoded.id, 7);
    assert!(matches!(encoded.line_type, LRComLineType::Accelerate));
    let decoded = lrcom_line_to_line(&encoded);
    assert_eq!(decoded, original);
}

#[test]
fn lrcom_accelerator_amount_is_fixed_on_decode() {
    let encoded = LRComLine {
        id: 0,
        line_type: LRComLineType::Accelerate,
        x1: b(0.0),
        y1: b(0.0),
        x2: b(1.0),
        y2: b(0.0),
        flipped: false,
        left_extended: false,
        right_extended: false,
    };
    let decoded = lrcom_line_to_line(&encoded);
    assert_eq!(decoded.line_type, LineType::Accelerate { amount: 1 });
}

#[test]
fn exporting_a_sled_less_rider_fails() {
    let body_only = Entity::default_bosh();
    assert_eq!(entity_to_lrcom_entity(&body_only), Err(TrackError::MissingRiderPeg));

    let mounted = Entity::default_boshsled();
    let exported = entity_to_lrcom_entity(&mounted).unwrap();
    assert_eq!(exported.start_position.x, b(0.0));
    // The canonical rider starts with velocity (0.4, 0), so the exported
    // start velocity (previous minus current location) is its negation.
    assert_eq!(exported.start_velocity.x, b(-0.4));
    assert_eq!(exported.start_velocity.y, b(0.0));
    assert!(!exported.remountable);
}

#[test]
fn boshtf_round_trips_riders() {
    // Decoding a default placement yields the canonical rider translated to
    // that position.
    let placed = translated_boshsled(Vector2D(b(0.5), b(0.5)));
    let decoded = boshtf_entity_to_entity(&BoshTFEntity::Default {
        starting_position: Vector2D(b(0.5), b(0.5)),
    });
    assert!(placed.same_as(&decoded));

    // The encoder demands bit-for-bit uniform point velocities before it
    // writes a default placement. The canonical rider starts with velocity
    // (0.4, 0), whose subtraction rounds differently across the default
    // coordinates, so even the canonical rider itself is written in full.
    let sled_only = Entity::default_sled();
    assert!(matches!(entity_to_boshtf(&sled_only), BoshTFEntity::Custom(_)));
    assert!(matches!(entity_to_boshtf(&placed), BoshTFEntity::Custom(_)));
}