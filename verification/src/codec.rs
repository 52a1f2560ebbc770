//! The logic of the track codecs: the binary track header, the line-type
//! tables of the two JSON track dialects, and the rider reconstructions they
//! share. Reading bytes from disk and driving a JSON serializer stay outside
//! the core; everything here is plain data to plain data.

use vstd::prelude::*;

use crate::line::Line;
use crate::line::LineEnds;
use crate::line::LinePoint;
use crate::line::LineType;
use crate::physics::EntityModel;
use crate::rider::Entity;
use crate::rider::EntityPoint;
use crate::rider::EntityPoints;
use crate::rider::spec_default_boshsled_points;
use crate::rider::spec_default_boshsled_bones;
use crate::rider::spec_default_joints;
use crate::vector::Vector2D;
use crate::vector::spec_vec_minus;
use crate::vector::spec_vec_plus;

verus! {

/// What a codec can find wrong with its input.
#[derive(Clone, Copy, PartialEq, Eq, Debug, Structural)]
pub enum TrackError {
    /// A point identifier outside the ten point names.
    UnknownPointName,
    /// A rider without a body/sled/mounted kind.
    MissingEntityKind,
    /// A binary track header failing its magic or length checks.
    MalformedTrackHeader,
    /// An export that needs a mounted rider found one without a peg.
    MissingRiderPeg,
}

// ---------------------------------------------------------------------------
// The binary track header
// ---------------------------------------------------------------------------
/// The line type code of the binary track format.
#[derive(Clone, Copy, PartialEq, Eq, Debug, Structural)]
pub enum TrkLineType {
    Scenery,
    Blue,
    Red,
}

impl TrkLineType {
    /// The line type a code byte denotes; unknown codes read as scenery.
    pub open spec fn spec_from_u8(value: u8) -> TrkLineType {
        if value == 1 {
            TrkLineType::Blue
        } else if value == 2 {
            TrkLineType::Red
        } else {
            TrkLineType::Scenery
        }
    }

    /// The line type a code byte denotes; unknown codes read as scenery.
    pub fn from_u8(value: u8) -> (r: TrkLineType)
        ensures
            r == TrkLineType::spec_from_u8(value),
    {
        match value {
            1 => TrkLineType::Blue,
            2 => TrkLineType::Red,
            _ => TrkLineType::Scenery,
        }
    }
}

/// The packed per-line flag byte of the binary track format.
#[derive(Clone, Copy, PartialEq, Eq, Debug, Structural)]
pub struct TrkLineFlags(pub u8);

impl TrkLineFlags {
    /// The highest bit: whether the line is flipped.
    pub fn flipped(&self) -> (r: bool)
        ensures
            r == (self.0 & 0x80 > 0),
    {
        self.0 & 0x80 > 0
    }

    /// The next two bits: whether the left and the right end extend.
    pub fn extensions(&self) -> (r: (bool, bool))
        ensures
            r == (self.0 & 0x40 > 0, self.0 & 0x20 > 0),
    {
        (self.0 & 0x40 > 0, self.0 & 0x20 > 0)
    }

    /// The low five bits: the line type code.
    pub fn line_type(&self) -> (r: TrkLineType)
        ensures
            r == TrkLineType::spec_from_u8(self.0 & 0x1F),
    {
        TrkLineType::from_u8(self.0 & 0x1F)
    }
}

/// The ghost value of a parsed binary track header.
pub ghost struct TrkHeaderModel {
    pub version: u8,
    pub features: Seq<Seq<u8>>,
    pub song: Option<Seq<u8>>,
    pub start_position: Vector2D,
}

/// A parsed binary track header: the format version, the feature list, the
/// song entry when the features announce one, and the start position.
#[derive(Clone, Debug)]
pub struct TrkHeader {
    pub version: u8,
    pub features: Vec<Vec<u8>>,
    pub song: Option<Vec<u8>>,
    pub start_position: Vector2D,
}

impl TrkHeader {
    pub open spec fn model(&self) -> TrkHeaderModel {
        TrkHeaderModel {
            version: self.version,
            features: self.features@.map_values(|v: Vec<u8>| v@),
            song: match self.song {
                Some(s) => Some(s@),
                None => None,
            },
            start_position: self.start_position,
        }
    }
}

/// The feature name that announces a song entry in the header.
pub open spec fn spec_songinfo() -> Seq<u8> {
    seq![83u8, 79u8, 78u8, 71u8, 73u8, 78u8, 70u8, 79u8]
}

/// Splits a byte string on semicolons, exactly as splitting a string on the
/// separator does: an empty input yields one empty part, and separators at
/// the ends yield empty parts.
pub open spec fn spec_split_semi_acc(s: Seq<u8>, cur: Seq<u8>, parts: Seq<Seq<u8>>) -> Seq<Seq<u8>>
    decreases s.len(),
{
    if s.len() == 0 {
        parts.push(cur)
    } else if s[0] == 59 {
        spec_split_semi_acc(s.drop_first(), Seq::empty(), parts.push(cur))
    } else {
        spec_split_semi_acc(s.drop_first(), cur.push(s[0]), parts)
    }
}

pub open spec fn spec_split_semi(s: Seq<u8>) -> Seq<Seq<u8>> {
    spec_split_semi_acc(s, Seq::empty(), Seq::empty())
}

/// Whether any of the parts is the song feature name.
pub open spec fn spec_has_songinfo(parts: Seq<Seq<u8>>) -> bool
    decreases parts.len(),
{
    if parts.len() == 0 {
        false
    } else {
        spec_has_songinfo(parts.drop_last()) || parts.last() == spec_songinfo()
    }
}

/// A little-endian 64-bit value read at a byte offset.
pub open spec fn spec_le_u64(s: Seq<u8>, off: int) -> u64 {
    (s[off] + s[off + 1] * 0x100 + s[off + 2] * 0x10000 + s[off + 3] * 0x1000000 + s[off + 4]
        * 0x100000000 + s[off + 5] * 0x10000000000 + s[off + 6] * 0x1000000000000 + s[off + 7]
        * 0x100000000000000) as u64
}

/// What parsing a binary track header yields: the header and how many bytes
/// it occupied, or nothing when the magic or a length check fails.
pub open spec fn spec_parse_trk_header(s: Seq<u8>) -> Option<(TrkHeaderModel, int)> {
    if s.len() < 7 {
        None
    } else if !(s[0] == 84 && s[1] == 82 && s[2] == 75 && s[3] == 242) {
        None
    } else {
        let version = s[4];
        let flen = s[5] + s[6] * 0x100;
        if s.len() < 7 + flen {
            None
        } else {
            let features = spec_split_semi(s.subrange(7, 7 + flen));
            let pos0 = 7 + flen;
            if spec_has_songinfo(features) {
                if s.len() < pos0 + 1 {
                    None
                } else {
                    let slen = s[pos0];
                    if s.len() < pos0 + 1 + slen {
                        None
                    } else {
                        let song = s.subrange(pos0 + 1, pos0 + 1 + slen);
                        let pos1 = pos0 + 1 + slen;
                        if s.len() < pos1 + 16 {
                            None
                        } else {
                            Some(
                                (
                                    TrkHeaderModel {
                                        version,
                                        features,
                                        song: Some(song),
                                        start_position: Vector2D(
                                            spec_le_u64(s, pos1),
                                            spec_le_u64(s, pos1 + 8),
                                        ),
                                    },
                                    pos1 + 16,
                                ),
                            )
                        }
                    }
                }
            } else {
                if s.len() < pos0 + 16 {
                    None
                } else {
                    Some(
                        (
                            TrkHeaderModel {
                                version,
                                features,
                                song: None,
                                start_position: Vector2D(
                                    spec_le_u64(s, pos0),
                                    spec_le_u64(s, pos0 + 8),
                                ),
                            },
                            pos0 + 16,
                        ),
                    )
                }
            }
        }
    }
}

fn read_le_u64(s: &Vec<u8>, off: usize) -> (r: u64)
    requires
        off + 8 <= s@.len(),
    ensures
        r == spec_le_u64(s@, off as int),
{
    let n = s.len();
    (s[off] as u64) + (s[off + 1] as u64) * 0x100 + (s[off + 2] as u64) * 0x10000 + (s[off
        + 3] as u64) * 0x1000000 + (s[off + 4] as u64) * 0x100000000 + (s[off + 5] as u64)
        * 0x10000000000 + (s[off + 6] as u64) * 0x1000000000000 + (s[off + 7] as u64)
        * 0x100000000000000
}

fn is_songinfo(part: &Vec<u8>) -> (r: bool)
    ensures
        r == (part@ == spec_songinfo()),
{
    let r = part.len() == 8 && part[0] == 83 && part[1] == 79 && part[2] == 78 && part[3] == 71
        && part[4] == 73 && part[5] == 78 && part[6] == 70 && part[7] == 79;
    proof {
        if r {
            assert(part@ =~= spec_songinfo());
        }
    }
    r
}

fn split_semi(s: &Vec<u8>, from: usize, to: usize) -> (r: Vec<Vec<u8>>)
    requires
        from <= to <= s@.len(),
    ensures
        r@.map_values(|v: Vec<u8>| v@) == spec_split_semi(s@.subrange(from as int, to as int)),
{
    let ghost seg = s@.subrange(from as int, to as int);
    let mut parts: Vec<Vec<u8>> = Vec::new();
    let mut cur: Vec<u8> = Vec::new();
    let mut i: usize = from;
    proof {
        assert(seg.skip(0) =~= seg);
        assert(parts@.map_values(|v: Vec<u8>| v@) =~= Seq::<Seq<u8>>::empty());
    }
    while i < to
        invariant
            from <= i <= to <= s@.len(),
            seg == s@.subrange(from as int, to as int),
            spec_split_semi_acc(
                seg.skip(i - from),
                cur@,
                parts@.map_values(|v: Vec<u8>| v@),
            ) == spec_split_semi(seg),
        decreases to - i,
    {
        let ghost pre_parts = parts@.map_values(|v: Vec<u8>| v@);
        let b = s[i];
        proof {
            assert(seg.skip(i - from)[0] == b);
            assert(seg.skip(i - from).drop_first() =~= seg.skip(i + 1 - from));
        }
        if b == 59 {
            parts.push(cur);
            cur = Vec::new();
            proof {
                assert(parts@.map_values(|v: Vec<u8>| v@) =~= pre_parts.push(
                    parts@.last()@,
                ));
            }
        } else {
            cur.push(b);
        }
        i = i + 1;
    }
    proof {
        assert(seg.skip(to - from) =~= Seq::<u8>::empty());
    }
    parts.push(cur);
    proof {
        assert(parts@.map_values(|v: Vec<u8>| v@) =~= parts@.map_values(
            |v: Vec<u8>| v@,
        ).drop_last().push(parts@.last()@));
    }
    parts
}

fn has_songinfo(parts: &Vec<Vec<u8>>) -> (r: bool)
    ensures
        r == spec_has_songinfo(parts@.map_values(|v: Vec<u8>| v@)),
{
    let ghost ps = parts@.map_values(|v: Vec<u8>| v@);
    let mut any = false;
    let mut i: usize = 0;
    proof {
        assert(ps.take(0) =~= Seq::<Seq<u8>>::empty());
    }
    while i < parts.len()
        invariant
            i <= parts.len(),
            ps == parts@.map_values(|v: Vec<u8>| v@),
            any == spec_has_songinfo(ps.take(i as int)),
        decreases parts.len() - i,
    {
        if is_songinfo(&parts[i]) {
            any = true;
        }
        i = i + 1;
        proof {
            assert(ps.take(i as int).drop_last() =~= ps.take(i - 1));
            assert(ps.take(i as int).last() == ps[i - 1]);
        }
    }
    proof {
        assert(ps.take(ps.len() as int) =~= ps);
    }
    any
}

/// Parses a binary track header from the front of `input`: the magic bytes,
/// a version, a length-prefixed semicolon-separated feature list, a
/// length-prefixed song entry when the features hold the song feature, and
/// the start position. Returns the header and how many bytes it occupied,
/// or the header error when the magic or any length check fails.
pub fn parse_trk_header(input: &Vec<u8>) -> (r: Result<(TrkHeader, usize), TrackError>)
    ensures
        match r {
            Ok(h) => Some((h.0.model(), h.1 as int)) == spec_parse_trk_header(input@),
            Err(e) => e == TrackError::MalformedTrackHeader && spec_parse_trk_header(input@)
                is None,
        },
{
    if input.len() < 7 {
        return Err(TrackError::MalformedTrackHeader);
    }
    if !(input[0] == 84 && input[1] == 82 && input[2] == 75 && input[3] == 242) {
        return Err(TrackError::MalformedTrackHeader);
    }
    let version = input[4];
    let flen: usize = (input[5] as usize) + (input[6] as usize) * 0x100;
    if input.len() < 7 + flen {
        return Err(TrackError::MalformedTrackHeader);
    }
    let features = split_semi(input, 7, 7 + flen);
    let pos0: usize = 7 + flen;
    let n = input.len();
    if has_songinfo(&features) {
        if n - pos0 < 1 {
            return Err(TrackError::MalformedTrackHeader);
        }
        let slen: usize = input[pos0] as usize;
        if n - (pos0 + 1) < slen {
            return Err(TrackError::MalformedTrackHeader);
        }
        let pos1: usize = pos0 + 1 + slen;
        let mut song: Vec<u8> = Vec::new();
        let mut i: usize = pos0 + 1;
        while i < pos1
            invariant
                pos0 + 1 <= i <= pos1,
                pos1 == pos0 + 1 + slen,
                pos1 <= input@.len(),
                song@ == input@.subrange(pos0 + 1, i as int),
            decreases pos1 - i,
        {
            song.push(input[i]);
            i = i + 1;
            proof {
                assert(input@.subrange(pos0 + 1, i as int) =~= input@.subrange(
                    pos0 + 1,
                    i - 1,
                ).push(input@[i - 1]));
            }
        }
        if n - pos1 < 16 {
            return Err(TrackError::MalformedTrackHeader);
        }
        let x = read_le_u64(input, pos1);
        let y = read_le_u64(input, pos1 + 8);
        Ok(
            (
                TrkHeader {
                    version,
                    features,
                    song: Some(song),
                    start_position: Vector2D(x, y),
                },
                pos1 + 16,
            ),
        )
    } else {
        if n - pos0 < 16 {
            return Err(TrackError::MalformedTrackHeader);
        }
        let x = read_le_u64(input, pos0);
        let y = read_le_u64(input, pos0 + 8);
        Ok(
            (TrkHeader { version, features, song: None, start_position: Vector2D(x, y) }, pos0
                + 16),
        )
    }
}

// ---------------------------------------------------------------------------
// The two JSON track dialects
// ---------------------------------------------------------------------------
/// The line type code of the canonical JSON track format.
#[derive(Clone, Copy, PartialEq, Eq, Debug, Structural)]
pub enum LRComLineType {
    Normal,
    Accelerate,
    Scenery,
}

/// The line type code of the native JSON track format.
#[derive(Clone, Copy, PartialEq, Eq, Debug, Structural)]
pub enum SerdeyLineType {
    Normal,
    Accelerate,
    Scenery,
}

/// A 2D vector of the JSON track formats: two binary64 bit patterns.
#[derive(Clone, Copy, PartialEq, Eq, Debug, Structural)]
pub struct LRComVec2 {
    pub x: u64,
    pub y: u64,
}

/// A rider of the canonical JSON format: where the mounted rider starts and
/// the velocity it starts with.
#[derive(Clone, Copy, PartialEq, Eq, Debug, Structural)]
pub struct LRComEntity {
    pub start_position: LRComVec2,
    pub start_velocity: LRComVec2,
    pub remountable: bool,
}

/// A line of the canonical JSON format.
#[derive(Clone, Copy, PartialEq, Eq, Debug, Structural)]
pub struct LRComLine {
    pub id: u64,
    pub line_type: LRComLineType,
    pub x1: u64,
    pub y1: u64,
    pub x2: u64,
    pub y2: u64,
    pub flipped: bool,
    pub left_extended: bool,
    pub right_extended: bool,
}

/// A line of the native JSON format; it carries no extension flags.
#[derive(Clone, Copy, PartialEq, Eq, Debug, Structural)]
pub struct SerdeyLine {
    pub id: u64,
    pub line_type: SerdeyLineType,
    pub x1: u64,
    pub y1: u64,
    pub x2: u64,
    pub y2: u64,
    pub flipped: bool,
}

impl LRComLineType {
    /// The dialect's code for a core line type.
    pub fn of_line_type(line_type: LineType) -> (r: LRComLineType)
        ensures
            r == (match line_type {
                LineType::Normal => LRComLineType::Normal,
                LineType::Accelerate { .. } => LRComLineType::Accelerate,
                LineType::Scenery => LRComLineType::Scenery,
            }),
    {
        match line_type {
            LineType::Normal => LRComLineType::Normal,
            LineType::Accelerate { .. } => LRComLineType::Accelerate,
            LineType::Scenery => LRComLineType::Scenery,
        }
    }

    /// The core line type a code decodes to; an accelerator always decodes
    /// with amount one.
    pub fn to_line_type(self) -> (r: LineType)
        ensures
            r == (match self {
                LRComLineType::Normal => LineType::Normal,
                LRComLineType::Accelerate => LineType::Accelerate { amount: 1 },
                LRComLineType::Scenery => LineType::Scenery,
            }),
    {
        match self {
            LRComLineType::Normal => LineType::Normal,
            LRComLineType::Accelerate => LineType::Accelerate { amount: 1 },
            LRComLineType::Scenery => LineType::Scenery,
        }
    }
}

impl SerdeyLineType {
    /// The dialect's code for a core line type.
    pub fn of_line_type(line_type: LineType) -> (r: SerdeyLineType)
        ensures
            r == (match line_type {
                LineType::Normal => SerdeyLineType::Normal,
                LineType::Accelerate { .. } => SerdeyLineType::Accelerate,
                LineType::Scenery => SerdeyLineType::Scenery,
            }),
    {
        match line_type {
            LineType::Normal => SerdeyLineType::Normal,
            LineType::Accelerate { .. } => SerdeyLineType::Accelerate,
            LineType::Scenery => SerdeyLineType::Scenery,
        }
    }

    /// The core line type a code decodes to; an accelerator always decodes
    /// with amount one.
    pub fn to_line_type(self) -> (r: LineType)
        ensures
            r == (match self {
                SerdeyLineType::Normal => LineType::Normal,
                SerdeyLineType::Accelerate => LineType::Accelerate { amount: 1 },
                SerdeyLineType::Scenery => LineType::Scenery,
            }),
    {
        match self {
            SerdeyLineType::Normal => LineType::Normal,
            SerdeyLineType::Accelerate => LineType::Accelerate { amount: 1 },
            SerdeyLineType::Scenery => LineType::Scenery,
        }
    }
}

/// The core line a canonical-JSON line decodes to.
pub open spec fn spec_lrcom_line_to_line(l: LRComLine) -> Line {
    Line {
        ends: LineEnds {
            start: LinePoint { location: Vector2D(l.x1, l.y1), extended: l.left_extended },
            end: LinePoint { location: Vector2D(l.x2, l.y2), extended: l.right_extended },
        },
        line_type: match l.line_type {
            LRComLineType::Normal => LineType::Normal,
            LRComLineType::Accelerate => LineType::Accelerate { amount: 1 },
            LRComLineType::Scenery => LineType::Scenery,
        },
        flipped: l.flipped,
    }
}

/// The core line a canonical-JSON line decodes to.
pub fn lrcom_line_to_line(l: &LRComLine) -> (r: Line)
    ensures
        r == spec_lrcom_line_to_line(*l),
{
    Line::builder().point(l.x1, l.y1).extended(l.left_extended).point(l.x2, l.y2).extended(
        l.right_extended,
    ).flipped(l.flipped).line_type(LRComLineType::to_line_type(LRComLineType::of_line_type(
        match l.line_type {
            LRComLineType::Normal => LineType::Normal,
            LRComLineType::Accelerate => LineType::Accelerate { amount: 1 },
            LRComLineType::Scenery => LineType::Scenery,
        },
    ))).build()
}

/// The canonical-JSON form of a core line, under an export-local id.
pub fn line_to_lrcom_line(l: &Line, id: u64) -> (r: LRComLine)
    ensures
        r == (LRComLine {
            id,
            line_type: match l.line_type {
                LineType::Normal => LRComLineType::Normal,
                LineType::Accelerate { .. } => LRComLineType::Accelerate,
                LineType::Scenery => LRComLineType::Scenery,
            },
            x1: l.ends.start.location.0,
            y1: l.ends.start.location.1,
            x2: l.ends.end.location.0,
            y2: l.ends.end.location.1,
            flipped: l.flipped,
            left_extended: l.ends.start.extended,
            right_extended: l.ends.end.extended,
        }),
{
    LRComLine {
        id,
        line_type: LRComLineType::of_line_type(l.line_type),
        x1: l.ends.start.location.0,
        y1: l.ends.start.location.1,
        x2: l.ends.end.location.0,
        y2: l.ends.end.location.1,
        flipped: l.flipped,
        left_extended: l.ends.start.extended,
        right_extended: l.ends.end.extended,
    }
}

/// The core line a native-JSON line decodes to; the dialect carries no
/// extension flags, so neither end extends.
pub fn serdey_line_to_line(l: &SerdeyLine) -> (r: Line)
    ensures
        r == (Line {
            ends: LineEnds {
                start: LinePoint { location: Vector2D(l.x1, l.y1), extended: false },
                end: LinePoint { location: Vector2D(l.x2, l.y2), extended: false },
            },
            line_type: match l.line_type {
                SerdeyLineType::Normal => LineType::Normal,
                SerdeyLineType::Accelerate => LineType::Accelerate { amount: 1 },
                SerdeyLineType::Scenery => LineType::Scenery,
            },
            flipped: l.flipped,
        }),
{
    Line {
        ends: LineEnds {
            start: LinePoint { location: Vector2D(l.x1, l.y1), extended: false },
            end: LinePoint { location: Vector2D(l.x2, l.y2), extended: false },
        },
        line_type: SerdeyLineType::to_line_type(l.line_type),
        flipped: l.flipped,
    }
}

/// The native-JSON form of a core line, under an export-local id.
pub fn line_to_serdey_line(l: &Line, id: u64) -> (r: SerdeyLine)
    ensures
        r == (SerdeyLine {
            id,
            line_type: match l.line_type {
                LineType::Normal => SerdeyLineType::Normal,
                LineType::Accelerate { .. } => SerdeyLineType::Accelerate,
                LineType::Scenery => SerdeyLineType::Scenery,
            },
            x1: l.ends.start.location.0,
            y1: l.ends.start.location.1,
            x2: l.ends.end.location.0,
            y2: l.ends.end.location.1,
            flipped: l.flipped,
        }),
{
    SerdeyLine {
        id,
        line_type: SerdeyLineType::of_line_type(l.line_type),
        x1: l.ends.start.location.0,
        y1: l.ends.start.location.1,
        x2: l.ends.end.location.0,
        y2: l.ends.end.location.1,
        flipped: l.flipped,
    }
}

// ---------------------------------------------------------------------------
// Rider reconstruction
// ---------------------------------------------------------------------------
pub open spec fn spec_opt_translate(o: Option<EntityPoint>, by: Vector2D) -> Option<EntityPoint> {
    match o {
        Some(p) => Some(
            EntityPoint {
                previous_location: spec_vec_plus(p.previous_location, by),
                location: spec_vec_plus(p.location, by),
                momentum: p.momentum,
                friction: p.friction,
            },
        ),
        None => None,
    }
}

/// Every populated slot translated by `by`.
pub open spec fn spec_points_translated(p: EntityPoints, by: Vector2D) -> EntityPoints {
    EntityPoints {
        left_foot: spec_opt_translate(p.left_foot, by),
        right_foot: spec_opt_translate(p.right_foot, by),
        left_hand: spec_opt_translate(p.left_hand, by),
        right_hand: spec_opt_translate(p.right_hand, by),
        shoulder: spec_opt_translate(p.shoulder, by),
        butt: spec_opt_translate(p.butt, by),
        peg: spec_opt_translate(p.peg, by),
        tail: spec_opt_translate(p.tail, by),
        nose: spec_opt_translate(p.nose, by),
        rope: spec_opt_translate(p.rope, by),
    }
}

pub open spec fn spec_opt_unlaunch(o: Option<EntityPoint>, vel: Vector2D) -> Option<EntityPoint> {
    match o {
        Some(p) => Some(
            EntityPoint {
                previous_location: spec_vec_minus(p.previous_location, vel),
                location: p.location,
                momentum: p.momentum,
                friction: p.friction,
            },
        ),
        None => None,
    }
}

/// Every populated slot's previous location pulled back by the start
/// velocity, which launches the rider forward.
pub open spec fn spec_points_launched(p: EntityPoints, vel: Vector2D) -> EntityPoints {
    EntityPoints {
        left_foot: spec_opt_unlaunch(p.left_foot, vel),
        right_foot: spec_opt_unlaunch(p.right_foot, vel),
        left_hand: spec_opt_unlaunch(p.left_hand, vel),
        right_hand: spec_opt_unlaunch(p.right_hand, vel),
        shoulder: spec_opt_unlaunch(p.shoulder, vel),
        butt: spec_opt_unlaunch(p.butt, vel),
        peg: spec_opt_unlaunch(p.peg, vel),
        tail: spec_opt_unlaunch(p.tail, vel),
        nose: spec_opt_unlaunch(p.nose, vel),
        rope: spec_opt_unlaunch(p.rope, vel),
    }
}

/// The ghost value of the canonical mounted rider translated to `start`.
pub open spec fn spec_translated_boshsled(start: Vector2D) -> EntityModel {
    EntityModel {
        points: spec_points_translated(spec_default_boshsled_points(), start),
        bones: spec_default_boshsled_bones(spec_default_boshsled_points()),
        joints: spec_default_joints(),
    }
}

/// The ghost value of the canonical mounted rider translated to `start` and
/// launched with `velocity`.
pub open spec fn spec_mounted_boshsled(start: Vector2D, velocity: Vector2D) -> EntityModel {
    EntityModel {
        points: spec_points_launched(
            spec_points_translated(spec_default_boshsled_points(), start),
            velocity,
        ),
        bones: spec_default_boshsled_bones(spec_default_boshsled_points()),
        joints: spec_default_joints(),
    }
}

fn translate_opt(o: Option<EntityPoint>, by: Vector2D) -> (r: Option<EntityPoint>)
    ensures
        r == spec_opt_translate(o, by),
{
    match o {
        Some(p) => Some(
            EntityPoint {
                previous_location: p.previous_location.plus(by),
                location: p.location.plus(by),
                momentum: p.momentum,
                friction: p.friction,
            },
        ),
        None => None,
    }
}

fn unlaunch_opt(o: Option<EntityPoint>, vel: Vector2D) -> (r: Option<EntityPoint>)
    ensures
        r == spec_opt_unlaunch(o, vel),
{
    match o {
        Some(p) => Some(
            EntityPoint {
                previous_location: p.previous_location.minus(vel),
                location: p.location,
                momentum: p.momentum,
                friction: p.friction,
            },
        ),
        None => None,
    }
}

fn translate_points(p: EntityPoints, by: Vector2D) -> (r: EntityPoints)
    ensures
        r == spec_points_translated(p, by),
{
    EntityPoints {
        left_foot: translate_opt(p.left_foot, by),
        right_foot: translate_opt(p.right_foot, by),
        left_hand: translate_opt(p.left_hand, by),
        right_hand: translate_opt(p.right_hand, by),
        shoulder: translate_opt(p.shoulder, by),
        butt: translate_opt(p.butt, by),
        peg: translate_opt(p.peg, by),
        tail: translate_opt(p.tail, by),
        nose: translate_opt(p.nose, by),
        rope: translate_opt(p.rope, by),
    }
}

fn unlaunch_points(p: EntityPoints, vel: Vector2D) -> (r: EntityPoints)
    ensures
        r == spec_points_launched(p, vel),
{
    EntityPoints {
        left_foot: unlaunch_opt(p.left_foot, vel),
        right_foot: unlaunch_opt(p.right_foot, vel),
        left_hand: unlaunch_opt(p.left_hand, vel),
        right_hand: unlaunch_opt(p.right_hand, vel),
        shoulder: unlaunch_opt(p.shoulder, vel),
        butt: unlaunch_opt(p.butt, vel),
        peg: unlaunch_opt(p.peg, vel),
        tail: unlaunch_opt(p.tail, vel),
        nose: unlaunch_opt(p.nose, vel),
        rope: unlaunch_opt(p.rope, vel),
    }
}

/// The canonical mounted rider, every point translated by `start`.
pub fn translated_boshsled(start: Vector2D) -> (r: Entity)
    ensures
        r.model() == spec_translated_boshsled(start),
{
    let mut e = Entity::default_boshsled();
    e.points = translate_points(e.points, start);
    e
}

/// The mounted rider a canonical-JSON rider decodes to: the default layout
/// translated by its start position, launched with its start velocity.
pub fn lrcom_entity_to_entity(e: &LRComEntity) -> (r: Entity)
    ensures
        r.model() == spec_mounted_boshsled(
            Vector2D(e.start_position.x, e.start_position.y),
            Vector2D(e.start_velocity.x, e.start_velocity.y),
        ),
{
    let mut rider = translated_boshsled(Vector2D(e.start_position.x, e.start_position.y));
    rider.points = unlaunch_points(
        rider.points,
        Vector2D(e.start_velocity.x, e.start_velocity.y),
    );
    rider
}

/// The canonical-JSON form of a rider: its peg's location and implied
/// velocity. A rider without a peg has no canonical form.
pub fn entity_to_lrcom_entity(e: &Entity) -> (r: Result<LRComEntity, crate::codec::TrackError>)
    ensures
        match r {
            Ok(out) => e.points.peg is Some && out == (LRComEntity {
                start_position: LRComVec2 {
                    x: e.points.peg.unwrap().location.0,
                    y: e.points.peg.unwrap().location.1,
                },
                start_velocity: LRComVec2 {
                    x: spec_vec_minus(
                        e.points.peg.unwrap().previous_location,
                        e.points.peg.unwrap().location,
                    ).0,
                    y: spec_vec_minus(
                        e.points.peg.unwrap().previous_location,
                        e.points.peg.unwrap().location,
                    ).1,
                },
                remountable: false,
            }),
            Err(err) => e.points.peg is None && err == TrackError::MissingRiderPeg,
        },
{
    match e.points.peg {
        Some(peg) => {
            let vel = peg.previous_location.minus(peg.location);
            Ok(
                LRComEntity {
                    start_position: LRComVec2 { x: peg.location.0, y: peg.location.1 },
                    start_velocity: LRComVec2 { x: vel.0, y: vel.1 },
                    remountable: false,
                },
            )
        },
        None => Err(TrackError::MissingRiderPeg),
    }
}

// ---------------------------------------------------------------------------
// The native track format
// ---------------------------------------------------------------------------
/// A rider of the native JSON format: the canonical mounted rider placed by
/// one position, or a fully custom rider.
#[derive(Clone, Debug)]
pub enum BoshTFEntity {
    Default { starting_position: Vector2D },
    Custom(Entity),
}

/// The ghost value of a native-format rider.
pub ghost enum BoshTFEntityModel {
    Default(Vector2D),
    Custom(EntityModel),
}

impl BoshTFEntity {
    pub open spec fn model(&self) -> BoshTFEntityModel {
        match self {
            BoshTFEntity::Default { starting_position } => BoshTFEntityModel::Default(
                *starting_position,
            ),
            BoshTFEntity::Custom(e) => BoshTFEntityModel::Custom(e.model()),
        }
    }
}

/// A native-format track: its riders and its lines.
#[derive(Clone, Debug)]
pub struct BoshTFTrack {
    pub entites: Vec<BoshTFEntity>,
    pub lines: Vec<Line>,
}

/// The rider a native-format rider decodes to.
pub fn boshtf_entity_to_entity(e: &BoshTFEntity) -> (r: Entity)
    ensures
        match e.model() {
            BoshTFEntityModel::Default(sp) => r.model() == spec_translated_boshsled(sp),
            BoshTFEntityModel::Custom(m) => r.model() == m,
        },
{
    match e {
        BoshTFEntity::Default { starting_position } => translated_boshsled(*starting_position),
        BoshTFEntity::Custom(custom) => custom.duplicate(),
    }
}

/// Whether every populated slot's implied velocity equals `vel` bit for bit.
pub open spec fn spec_opt_velocity_is(o: Option<EntityPoint>, vel: Vector2D) -> bool {
    match o {
        Some(p) => spec_vec_minus(p.previous_location, p.location) == vel,
        None => true,
    }
}

pub open spec fn spec_all_velocities_are(p: EntityPoints, vel: Vector2D) -> bool {
    &&& spec_opt_velocity_is(p.left_foot, vel)
    &&& spec_opt_velocity_is(p.right_foot, vel)
    &&& spec_opt_velocity_is(p.left_hand, vel)
    &&& spec_opt_velocity_is(p.right_hand, vel)
    &&& spec_opt_velocity_is(p.shoulder, vel)
    &&& spec_opt_velocity_is(p.butt, vel)
    &&& spec_opt_velocity_is(p.peg, vel)
    &&& spec_opt_velocity_is(p.tail, vel)
    &&& spec_opt_velocity_is(p.nose, vel)
    &&& spec_opt_velocity_is(p.rope, vel)
}

/// The native form of a rider: the default placement when the rider is the
/// canonical mounted rider uniformly translated and launched from its peg,
/// and a full copy otherwise.
pub open spec fn spec_entity_to_boshtf(m: EntityModel) -> BoshTFEntityModel {
    match m.points.peg {
        None => BoshTFEntityModel::Custom(m),
        Some(peg) => {
            let peg_velocity = spec_vec_minus(peg.previous_location, peg.location);
            if !spec_all_velocities_are(m.points, peg_velocity) {
                BoshTFEntityModel::Custom(m)
            } else {
                let mapped = EntityModel {
                    points: spec_points_translated(
                        m.points,
                        spec_vec_minus(Vector2D(0, 0), peg.location),
                    ),
                    ..m
                };
                if mapped.points == spec_default_boshsled_points() && mapped.bones
                    == spec_default_boshsled_bones(spec_default_boshsled_points()) && mapped.joints
                    == spec_default_joints() {
                    BoshTFEntityModel::Default(peg.location)
                } else {
                    BoshTFEntityModel::Custom(m)
                }
            }
        },
    }
}

fn velocity_is(o: &Option<EntityPoint>, vel: Vector2D) -> (r: bool)
    ensures
        r == spec_opt_velocity_is(*o, vel),
{
    match o {
        Some(p) => {
            let v = p.previous_location.minus(p.location);
            v == vel
        },
        None => true,
    }
}

/// The native form of a rider; see `spec_entity_to_boshtf`.
pub fn entity_to_boshtf(e: &Entity) -> (r: BoshTFEntity)
    ensures
        r.model() == spec_entity_to_boshtf(e.model()),
{
    let peg = match e.points.peg {
        Some(p) => p,
        None => {
            return BoshTFEntity::Custom(e.duplicate());
        },
    };
    let peg_velocity = peg.previous_location.minus(peg.location);
    let ok = velocity_is(&e.points.left_foot, peg_velocity) && velocity_is(
        &e.points.right_foot,
        peg_velocity,
    ) && velocity_is(&e.points.left_hand, peg_velocity) && velocity_is(
        &e.points.right_hand,
        peg_velocity,
    ) && velocity_is(&e.points.shoulder, peg_velocity) && velocity_is(&e.points.butt, peg_velocity)
        && velocity_is(&e.points.peg, peg_velocity) && velocity_is(&e.points.tail, peg_velocity)
        && velocity_is(&e.points.nose, peg_velocity) && velocity_is(&e.points.rope, peg_velocity);
    if !ok {
        return BoshTFEntity::Custom(e.duplicate());
    }
    let mapped_points = translate_points(e.points, Vector2D(0, 0).minus(peg.location));
    let mapped = Entity {
        points: mapped_points,
        bones: e.duplicate().bones,
        joints: e.duplicate().joints,
    };
    let default_boshsled = Entity::default_boshsled();
    if default_boshsled.same_as(&mapped) {
        BoshTFEntity::Default { starting_position: peg.location }
    } else {
        BoshTFEntity::Custom(e.duplicate())
    }
}

} // verus!
