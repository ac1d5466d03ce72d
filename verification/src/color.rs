//! The palette: a closed set of tags, each with a canonical color vector.

use crate::fixed::{lemma_square_above, square, Vec4, ONE, TOLERANCE};
use vstd::prelude::*;

verus! {

/// A tag of the palette. `Unknown` is the default and the fallback of
/// classification.
#[derive(Copy, Clone, Debug, PartialEq, Eq, Structural, Hash)]
pub enum ColorEnum {
    Red,
    Cyan,
    Yellow,
    Black,
    Unknown,
}

impl Default for ColorEnum {
    fn default() -> (tag: ColorEnum)
        ensures
            tag == ColorEnum::Unknown,
    {
        ColorEnum::Unknown
    }
}

impl ColorEnum {
    /// The number of a tag: its position in the palette.
    pub open spec fn to_primitive_spec(self) -> u32 {
        match self {
            ColorEnum::Red => 0,
            ColorEnum::Cyan => 1,
            ColorEnum::Yellow => 2,
            ColorEnum::Black => 3,
            ColorEnum::Unknown => 4,
        }
    }

    /// The tag of a number; every number without a tag of its own gives `Unknown`.
    pub open spec fn from_primitive_spec(number: u32) -> ColorEnum {
        if number == 0 {
            ColorEnum::Red
        } else if number == 1 {
            ColorEnum::Cyan
        } else if number == 2 {
            ColorEnum::Yellow
        } else if number == 3 {
            ColorEnum::Black
        } else {
            ColorEnum::Unknown
        }
    }

    /// The canonical vector of a tag. `Unknown` has opaque white, by convention.
    pub open spec fn color_spec(self) -> Vec4 {
        match self {
            ColorEnum::Red => Vec4 { x: ONE, y: 0, z: 0, w: ONE },
            ColorEnum::Cyan => Vec4 { x: 0, y: ONE, z: ONE, w: ONE },
            ColorEnum::Yellow => Vec4 { x: ONE, y: ONE, z: 0, w: ONE },
            ColorEnum::Black => Vec4 { x: 0, y: 0, z: 0, w: 0 },
            ColorEnum::Unknown => Vec4 { x: ONE, y: ONE, z: ONE, w: ONE },
        }
    }

    /// The tag of the first palette entry, in the order red, cyan, yellow,
    /// black, that lies within the tolerance of `color`; `Unknown` if none does.
    pub open spec fn parse_spec(color: Vec4) -> ColorEnum {
        if color.is_near(ColorEnum::Red.color_spec()) {
            ColorEnum::Red
        } else if color.is_near(ColorEnum::Cyan.color_spec()) {
            ColorEnum::Cyan
        } else if color.is_near(ColorEnum::Yellow.color_spec()) {
            ColorEnum::Yellow
        } else if color.is_near(ColorEnum::Black.color_spec()) {
            ColorEnum::Black
        } else {
            ColorEnum::Unknown
        }
    }

    /// The one-letter name of a tag.
    pub open spec fn letter_spec(self) -> char {
        match self {
            ColorEnum::Red => 'R',
            ColorEnum::Cyan => 'C',
            ColorEnum::Yellow => 'Y',
            ColorEnum::Black => 'B',
            ColorEnum::Unknown => 'U',
        }
    }

    pub fn to_primitive(self) -> (number: u32)
        ensures
            number == self.to_primitive_spec(),
    {
        match self {
            ColorEnum::Red => 0,
            ColorEnum::Cyan => 1,
            ColorEnum::Yellow => 2,
            ColorEnum::Black => 3,
            ColorEnum::Unknown => 4,
        }
    }

    pub fn from_primitive(number: u32) -> (tag: ColorEnum)
        ensures
            tag == Self::from_primitive_spec(number),
    {
        match number {
            0 => ColorEnum::Red,
            1 => ColorEnum::Cyan,
            2 => ColorEnum::Yellow,
            3 => ColorEnum::Black,
            _ => ColorEnum::Unknown,
        }
    }

    /// The one-letter name under which a tag is printed.
    pub fn letter(&self) -> (s: &'static str)
        ensures
            s@ == seq![self.letter_spec()],
    {
        proof {
            reveal_strlit("R");
            reveal_strlit("C");
            reveal_strlit("Y");
            reveal_strlit("B");
            reveal_strlit("U");
        }
        let s: &'static str = match self {
            ColorEnum::Red => "R",
            ColorEnum::Cyan => "C",
            ColorEnum::Yellow => "Y",
            ColorEnum::Black => "B",
            ColorEnum::Unknown => "U",
        };
        s
    }

    /// Classifies a color vector.
    pub fn parse(color: Vec4) -> (tag: ColorEnum)
        ensures
            tag == Self::parse_spec(color),
            tag != ColorEnum::Unknown ==> color.is_near(tag.color_spec()),
            (forall|other: ColorEnum|
                other != ColorEnum::Unknown ==> !color.is_near(#[trigger] other.color_spec()))
                ==> tag == ColorEnum::Unknown,
    {
        let mut number: u32 = 0;
        while number < 5
            invariant
                number <= 5,
                forall|earlier: u32|
                    earlier < number ==> !color.is_near(
                        #[trigger] Self::from_primitive_spec(earlier).color_spec(),
                    ),
            decreases 5 - number,
        {
            let tag = Self::from_primitive(number);
            if color.near(&tag.color()) {
                proof {
                    Self::lemma_first_match(color, number);
                }
                return tag;
            }
            number += 1;
        }
        proof {
            Self::lemma_first_match(color, 4);
        }
        ColorEnum::Unknown
    }

    /// The canonical vector of a tag.
    pub fn color(&self) -> (v: Vec4)
        ensures
            v == self.color_spec(),
    {
        match self {
            ColorEnum::Red => Vec4::new(ONE, 0, 0, ONE),
            ColorEnum::Cyan => Vec4::new(0, ONE, ONE, ONE),
            ColorEnum::Yellow => Vec4::new(ONE, ONE, 0, ONE),
            ColorEnum::Black => Vec4::new(0, 0, 0, 0),
            ColorEnum::Unknown => Vec4::new(ONE, ONE, ONE, ONE),
        }
    }

    /// When no entry before `number` matches, classification is decided by
    /// the entry at `number` if it matches.
    proof fn lemma_first_match(color: Vec4, number: u32)
        requires
            number <= 4,
            forall|earlier: u32|
                earlier < number ==> !color.is_near(
                    #[trigger] Self::from_primitive_spec(earlier).color_spec(),
                ),
        ensures
            color.is_near(Self::from_primitive_spec(number).color_spec()) ==> Self::parse_spec(
                color,
            ) == (if number == 4 {
                ColorEnum::Unknown
            } else {
                Self::from_primitive_spec(number)
            }),
            number == 4 && !color.is_near(Self::from_primitive_spec(number).color_spec())
                ==> Self::parse_spec(color) == ColorEnum::Unknown,
    {
        if number > 0 {
            assert(!color.is_near(Self::from_primitive_spec(0).color_spec()));
        }
        if number > 1 {
            assert(!color.is_near(Self::from_primitive_spec(1).color_spec()));
        }
        if number > 2 {
            assert(!color.is_near(Self::from_primitive_spec(2).color_spec()));
        }
        if number > 3 {
            assert(!color.is_near(Self::from_primitive_spec(3).color_spec()));
        }
    }

    /// Two numbers are inverse to each other on the five tags.
    pub proof fn lemma_primitive_round_trip(tag: ColorEnum)
        ensures
            Self::from_primitive_spec(tag.to_primitive_spec()) == tag,
    {
    }

    /// No vector lies within the tolerance of two canonical vectors: the
    /// canonical vectors are pairwise more than twice the tolerance apart.
    pub proof fn lemma_palette_separated(color: Vec4, first: ColorEnum, second: ColorEnum)
        requires
            color.is_near(first.color_spec()),
            color.is_near(second.color_spec()),
        ensures
            first == second,
    {
        let a = first.color_spec();
        let b = second.color_spec();
        Self::lemma_near_componentwise(color, a);
        Self::lemma_near_componentwise(color, b);
    }

    /// A vector within the tolerance of another is within it in every component.
    proof fn lemma_near_componentwise(color: Vec4, entry: Vec4)
        requires
            color.is_near(entry),
        ensures
            -TOLERANCE <= color.x - entry.x <= TOLERANCE,
            -TOLERANCE <= color.y - entry.y <= TOLERANCE,
            -TOLERANCE <= color.z - entry.z <= TOLERANCE,
            -TOLERANCE <= color.w - entry.w <= TOLERANCE,
    {
        let t = TOLERANCE as int;
        let dx = color.x - entry.x;
        let dy = color.y - entry.y;
        let dz = color.z - entry.z;
        let dw = color.w - entry.w;
        assert(0 <= square(dx)) by (nonlinear_arith);
        assert(0 <= square(dy)) by (nonlinear_arith);
        assert(0 <= square(dz)) by (nonlinear_arith);
        assert(0 <= square(dw)) by (nonlinear_arith);
        if dx > t || dx < -t {
            lemma_square_above(dx, t);
        }
        if dy > t || dy < -t {
            lemma_square_above(dy, t);
        }
        if dz > t || dz < -t {
            lemma_square_above(dz, t);
        }
        if dw > t || dw < -t {
            lemma_square_above(dw, t);
        }
    }

    /// Classification does not depend on the order of the palette: a vector
    /// within the tolerance of a canonical vector gets the tag of that vector.
    pub proof fn lemma_parse_finds_the_near_entry(color: Vec4, tag: ColorEnum)
        requires
            color.is_near(tag.color_spec()),
        ensures
            Self::parse_spec(color) == tag,
    {
        if color.is_near(ColorEnum::Red.color_spec()) {
            Self::lemma_palette_separated(color, tag, ColorEnum::Red);
        } else if color.is_near(ColorEnum::Cyan.color_spec()) {
            Self::lemma_palette_separated(color, tag, ColorEnum::Cyan);
        } else if color.is_near(ColorEnum::Yellow.color_spec()) {
            Self::lemma_palette_separated(color, tag, ColorEnum::Yellow);
        } else if color.is_near(ColorEnum::Black.color_spec()) {
            Self::lemma_palette_separated(color, tag, ColorEnum::Black);
        }
    }

    /// Classifying the canonical vector of a tag gives that tag back.
    pub proof fn lemma_parse_color_round_trip(tag: ColorEnum)
        ensures
            Self::parse_spec(tag.color_spec()) == tag,
    {
        let v = tag.color_spec();
        assert(v.is_near(v));
        Self::lemma_parse_finds_the_near_entry(v, tag);
    }
}

} // verus!
