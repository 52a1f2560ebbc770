//! Track lines: directed segments with a type, a flip flag and per-endpoint
//! extension flags.

use vstd::prelude::*;

use crate::fbits::lt_bits;
use crate::fbits::spec_lt_bits;
use crate::fops::mul_bits;
use crate::fops::spec_mul_bits;
use crate::fops::spec_sqrt_bits;
use crate::fops::sqrt_bits;
use crate::vector::Vector2D;
use crate::vector::spec_distance_squared;
use crate::vector::spec_normalize;
use crate::vector::spec_rotate90_left;
use crate::vector::spec_rotate90_right;
use crate::vector::spec_vec_minus;

verus! {

/// Bit pattern of 0.25, the hit-box extension ratio shared by all lines.
pub const BITS_EXTENSION_RATIO: u64 = 0x3FD0_0000_0000_0000;

/// Bit pattern of 10.0, the clamp ceiling of a hit-box extension and the
/// height of a line's gravity well.
pub const BITS_TEN: u64 = 0x4024_0000_0000_0000;

/// What a line does to a rider point that falls into its gravity well.
#[derive(Clone, Copy, PartialEq, Eq, Hash, Debug, Structural)]
pub enum LineType {
    /// Solid line: pushes the point out of the well, with friction.
    Normal,
    /// Solid line that also pushes the point along its direction; `amount`
    /// scales the boost.
    Accelerate { amount: u64 },
    /// Decoration only: collision ignores it.
    Scenery,
}

/// One endpoint of a line: its location and whether the hit-box extends past
/// this end.
#[derive(Clone, Copy, PartialEq, Eq, Hash, Debug, Structural)]
pub struct LinePoint {
    pub location: Vector2D,
    pub extended: bool,
}

/// The two endpoints of a line, in order.
#[derive(Clone, Copy, PartialEq, Eq, Hash, Debug, Structural)]
pub struct LineEnds {
    pub start: LinePoint,
    pub end: LinePoint,
}

/// A directed line segment. `flipped` selects which side collides. Equality
/// and hashing are bit-exact on the endpoint coordinates.
#[derive(Clone, Copy, PartialEq, Eq, Hash, Debug, Structural)]
pub struct Line {
    pub ends: LineEnds,
    pub line_type: LineType,
    pub flipped: bool,
}

pub open spec fn spec_as_vector2d(l: Line) -> Vector2D {
    spec_vec_minus(l.ends.end.location, l.ends.start.location)
}

pub open spec fn spec_line_length_squared(l: Line) -> u64 {
    spec_distance_squared(l.ends.start.location, l.ends.end.location)
}

/// The unit vector pointing out of the colliding side.
pub open spec fn spec_perpendicular(l: Line) -> Vector2D {
    if l.flipped {
        spec_normalize(spec_rotate90_right(spec_as_vector2d(l)))
    } else {
        spec_normalize(spec_rotate90_left(spec_as_vector2d(l)))
    }
}

/// A quarter of the line's length, clamped to [0, 10]: the hit-box extension
/// granted to an endpoint whose `extended` flag is set.
pub open spec fn spec_clamped_extension(l: Line) -> u64 {
    let t = spec_mul_bits(spec_sqrt_bits(spec_line_length_squared(l)), BITS_EXTENSION_RATIO);
    if spec_lt_bits(t, 0) {
        0
    } else if spec_lt_bits(BITS_TEN, t) {
        BITS_TEN
    } else {
        t
    }
}

pub open spec fn spec_hitbox_extensions(l: Line) -> (u64, u64) {
    let c = spec_clamped_extension(l);
    (
        if l.ends.start.extended {
            c
        } else {
            0
        },
        if l.ends.end.extended {
            c
        } else {
            0
        },
    )
}

impl Line {
    /// The vector from the first endpoint to the second.
    pub fn as_vector2d(&self) -> (r: Vector2D)
        ensures
            r == spec_as_vector2d(*self),
    {
        self.ends.end.location.minus(self.ends.start.location)
    }

    /// The squared length of the segment.
    pub fn length_squared(&self) -> (r: u64)
        ensures
            r == spec_line_length_squared(*self),
    {
        self.ends.start.location.distance_squared(self.ends.end.location)
    }

    /// The perpendicular unit vector for this line, facing the side on which
    /// the line applies force.
    pub fn perpendicular(&self) -> (r: Vector2D)
        ensures
            r == spec_perpendicular(*self),
    {
        if self.flipped {
            self.as_vector2d().rotate90_right().normalize()
        } else {
            self.as_vector2d().rotate90_left().normalize()
        }
    }

    /// How far the hit-box reaches past each endpoint: a quarter of the
    /// line's length clamped to [0, 10] where the endpoint's `extended` flag
    /// is set, zero where it is not.
    pub fn hitbox_extensions(&self) -> (r: (u64, u64))
        ensures
            r == spec_hitbox_extensions(*self),
    {
        let len = sqrt_bits(self.length_squared());
        let t = mul_bits(len, BITS_EXTENSION_RATIO);
        let clamped_len = if lt_bits(t, 0) {
            0
        } else if lt_bits(BITS_TEN, t) {
            BITS_TEN
        } else {
            t
        };
        let ext0: u64 = if self.ends.start.extended {
            clamped_len
        } else {
            0
        };
        let ext1: u64 = if self.ends.end.extended {
            clamped_len
        } else {
            0
        };
        (ext0, ext1)
    }
}

impl Default for Line {
    /// The default line: both endpoints at the origin, not extended, type
    /// `Normal`, not flipped.
    fn default() -> (r: Line)
        ensures
            r == Line::spec_default(),
    {
        Line {
            ends: LineEnds {
                start: LinePoint { location: Vector2D(0, 0), extended: false },
                end: LinePoint { location: Vector2D(0, 0), extended: false },
            },
            line_type: LineType::Normal,
            flipped: false,
        }
    }
}

/// Whether a flag is unset; the serializers skip emitting unset flags.
pub fn is_false(flag: &bool) -> (r: bool)
    ensures
        r == !*flag,
{
    !*flag
}

/// Builds a `Line` point by point, as the codecs and tests construct them.
pub struct LineBuilder {
    pub first_location_init: bool,
    pub second_location_init: bool,
    pub line: Line,
}

impl LineBuilder {
    pub fn line_type(self, line_type: LineType) -> (r: LineBuilder)
        ensures
            r.line == (Line { line_type, ..self.line }),
            r.first_location_init == self.first_location_init,
            r.second_location_init == self.second_location_init,
    {
        let mut b = self;
        b.line.line_type = line_type;
        b
    }

    pub fn flipped(self, flipped: bool) -> (r: LineBuilder)
        ensures
            r.line == (Line { flipped, ..self.line }),
            r.first_location_init == self.first_location_init,
            r.second_location_init == self.second_location_init,
    {
        let mut b = self;
        b.line.flipped = flipped;
        b
    }

    /// Sets the first endpoint's location if none is set yet, the second
    /// otherwise. The coordinates are binary64 bit patterns.
    pub fn point(self, p1: u64, p2: u64) -> (r: LineBuilder)
        ensures
            !self.first_location_init ==> r.line == (Line {
                ends: LineEnds {
                    start: LinePoint { location: Vector2D(p1, p2), ..self.line.ends.start },
                    end: self.line.ends.end,
                },
                ..self.line
            }) && r.first_location_init && r.second_location_init == self.second_location_init,
            self.first_location_init ==> r.line == (Line {
                ends: LineEnds {
                    start: self.line.ends.start,
                    end: LinePoint { location: Vector2D(p1, p2), ..self.line.ends.end },
                },
                ..self.line
            }) && r.first_location_init && r.second_location_init,
    {
        let mut b = self;
        if !b.first_location_init {
            b.line.ends.start.location = Vector2D(p1, p2);
            b.first_location_init = true;
        } else {
            b.line.ends.end.location = Vector2D(p1, p2);
            b.second_location_init = true;
        }
        b
    }

    /// Sets a located endpoint's location from a vector; same rules as
    /// `point`.
    pub fn point_vec(self, point: Vector2D) -> (r: LineBuilder)
        ensures
            !self.first_location_init ==> r.line == (Line {
                ends: LineEnds {
                    start: LinePoint { location: point, ..self.line.ends.start },
                    end: self.line.ends.end,
                },
                ..self.line
            }) && r.first_location_init && r.second_location_init == self.second_location_init,
            self.first_location_init ==> r.line == (Line {
                ends: LineEnds {
                    start: self.line.ends.start,
                    end: LinePoint { location: point, ..self.line.ends.end },
                },
                ..self.line
            }) && r.first_location_init && r.second_location_init,
    {
        self.point(point.0, point.1)
    }

    /// Marks the endpoint located last as extended or not. Must follow a
    /// `point` call.
    pub fn extended(self, extended: bool) -> (r: LineBuilder)
        requires
            self.first_location_init,
        ensures
            !self.second_location_init ==> r.line == (Line {
                ends: LineEnds {
                    start: LinePoint { extended, ..self.line.ends.start },
                    end: self.line.ends.end,
                },
                ..self.line
            }),
            self.second_location_init ==> r.line == (Line {
                ends: LineEnds {
                    start: self.line.ends.start,
                    end: LinePoint { extended, ..self.line.ends.end },
                },
                ..self.line
            }),
            r.first_location_init == self.first_location_init,
            r.second_location_init == self.second_location_init,
    {
        let mut b = self;
        if !b.second_location_init {
            b.line.ends.start.extended = extended;
        } else {
            b.line.ends.end.extended = extended;
        }
        b
    }

    pub fn build(self) -> (r: Line)
        ensures
            r == self.line,
    {
        self.line
    }
}

impl Line {
    /// A builder over the default line: both endpoints at the origin, not
    /// extended, type `Normal`, not flipped.
    pub fn builder() -> (r: LineBuilder)
        ensures
            !r.first_location_init,
            !r.second_location_init,
            r.line == Line::spec_default(),
    {
        LineBuilder {
            first_location_init: false,
            second_location_init: false,
            line: Line {
                ends: LineEnds {
                    start: LinePoint { location: Vector2D(0, 0), extended: false },
                    end: LinePoint { location: Vector2D(0, 0), extended: false },
                },
                line_type: LineType::Normal,
                flipped: false,
            },
        }
    }

    /// The default line value.
    pub open spec fn spec_default() -> Line {
        Line {
            ends: LineEnds {
                start: LinePoint { location: Vector2D(0, 0), extended: false },
                end: LinePoint { location: Vector2D(0, 0), extended: false },
            },
            line_type: LineType::Normal,
            flipped: false,
        }
    }
}

} // verus!
