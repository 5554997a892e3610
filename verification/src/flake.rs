//! Snowflakes, and how one is made from a roll of the dice.

use crate::dice::{random_u16, random_u8, random_usize};
use crate::glyph::{is_candidate, pick_shape, shape_for, SF_CANDIDATES, SNOWFLAKE1};
use vstd::prelude::*;

verus! {

/// A color a stroke can be painted in.
#[derive(Clone, Copy, Debug, PartialEq, Eq, Structural)]
pub enum Color {
    White,
    Green,
    Red,
    Rgb { r: u8, g: u8, b: u8 },
}

/// One falling snowflake: where it is, and what it looks like.
#[derive(Clone, Copy, Debug, PartialEq, Eq, Structural)]
pub struct Snowflake {
    /// Column, counted from the left edge.
    pub x: u16,
    /// Row, counted from the top edge.
    pub y: u16,
    pub color: Color,
    pub shape: char,
}

/// The numbers rolled for one snowflake. A flake is a function of its rolls,
/// so a caller who supplies them decides exactly which flake appears.
#[derive(Clone, Copy, Debug, PartialEq, Eq, Structural)]
pub struct Rolls {
    pub red: u8,
    pub green: u8,
    pub blue: u8,
    pub shape: usize,
    pub column: u16,
}

/// The flake that `rolls` give on a screen `width` columns wide.
///
/// It starts in the top row. Its column is the column roll reduced modulo the
/// width. With `rainbow` its color is the rolled triple, otherwise white;
/// with `random` its shape is the candidate the shape roll selects, otherwise
/// the first candidate.
pub open spec fn spawned(random: bool, rainbow: bool, width: u16, rolls: Rolls) -> Snowflake {
    Snowflake {
        x: (rolls.column % width) as u16,
        y: 0,
        color: if rainbow {
            Color::Rgb { r: rolls.red, g: rolls.green, b: rolls.blue }
        } else {
            Color::White
        },
        shape: if random {
            shape_for(rolls.shape)
        } else {
            SNOWFLAKE1
        },
    }
}

/// Whether `flake` looks as the two modes demand: white without `rainbow`
/// and of a color triple with it; of the first candidate shape without
/// `random` and of one of the six with it.
pub open spec fn in_keeping(flake: Snowflake, random: bool, rainbow: bool) -> bool {
    &&& if rainbow {
        flake.color is Rgb
    } else {
        flake.color == Color::White
    }
    &&& if random {
        is_candidate(flake.shape)
    } else {
        flake.shape == SNOWFLAKE1
    }
}

/// Whether `flake` can be what the factory hands out on a screen `width`
/// columns wide: in the top row, in a column of the screen, and in keeping
/// with the modes.
pub open spec fn is_spawn(flake: Snowflake, random: bool, rainbow: bool, width: u16) -> bool {
    &&& flake.y == 0
    &&& flake.x < width
    &&& in_keeping(flake, random, rainbow)
}

impl Rolls {
    /// Whether the dice that the modes leave unrolled read zero: the three
    /// color dice without `rainbow`, the shape die without `random`.
    pub open spec fn spares_unused(self, random: bool, rainbow: bool) -> bool {
        &&& !rainbow ==> self.red == 0 && self.green == 0 && self.blue == 0
        &&& !random ==> self.shape == 0
    }

    /// Rolls the dice for one flake: the three color dice only with
    /// `rainbow`, the shape die only with `random`, the column die always. A
    /// die that is not rolled reads zero; what the others show is up to
    /// chance.
    pub fn draw(random: bool, rainbow: bool) -> (rolls: Rolls)
        ensures
            rolls.spares_unused(random, rainbow),
    {
        let mut red: u8 = 0;
        let mut green: u8 = 0;
        let mut blue: u8 = 0;
        if rainbow {
            red = random_u8();
            green = random_u8();
            blue = random_u8();
        }
        let mut shape: usize = 0;
        if random {
            shape = random_usize();
        }
        let column: u16 = random_u16();
        Rolls { red, green, blue, shape, column }
    }

    /// Rolls the dice for `count` flakes, one flake after the other.
    pub fn draw_all(count: usize, random: bool, rainbow: bool) -> (all: Vec<Rolls>)
        ensures
            all@.len() == count,
            forall|i: int| 0 <= i < count ==> (#[trigger] all@[i]).spares_unused(random, rainbow),
    {
        let mut all: Vec<Rolls> = Vec::new();
        while all.len() < count
            invariant
                all@.len() <= count,
                forall|i: int|
                    0 <= i < all@.len() ==> (#[trigger] all@[i]).spares_unused(random, rainbow),
            decreases count - all@.len(),
        {
            all.push(Rolls::draw(random, rainbow));
        }
        all
    }
}

impl Snowflake {
    /// Makes the flake that `rolls` give on a screen `width` columns wide.
    pub fn from_rolls(random: bool, rainbow: bool, width: u16, rolls: Rolls) -> (flake: Snowflake)
        requires
            width > 0,
        ensures
            flake == spawned(random, rainbow, width, rolls),
            is_spawn(flake, random, rainbow, width),
    {
        let color = if rainbow {
            Color::Rgb { r: rolls.red, g: rolls.green, b: rolls.blue }
        } else {
            Color::White
        };
        let shape = if random {
            pick_shape(rolls.shape)
        } else {
            SNOWFLAKE1
        };
        proof {
            lemma_spawned_is_spawn(random, rainbow, width, rolls);
        }
        Snowflake { x: rolls.column % width, y: 0, color, shape }
    }
}

/// Makes a new snowflake at a random column of the top row.
///
/// Which flake comes back is up to the dice. Whatever they show, it is the
/// flake that some rolls give, and so a spawn for this width and these modes.
pub fn get_snowflake(random: bool, rainbow: bool, width: u16) -> (flake: Snowflake)
    requires
        width > 0,
    ensures
        exists|rolls: Rolls| flake == spawned(random, rainbow, width, rolls),
        is_spawn(flake, random, rainbow, width),
{
    let rolls = Rolls::draw(random, rainbow);
    Snowflake::from_rolls(random, rainbow, width, rolls)
}

/// Whatever the rolls and the width, the flake they give is in keeping with
/// the modes.
pub proof fn lemma_spawned_in_keeping(random: bool, rainbow: bool, width: u16, rolls: Rolls)
    ensures
        in_keeping(spawned(random, rainbow, width, rolls), random, rainbow),
{
    if random {
        assert(SF_CANDIDATES@[rolls.shape as int % 6] == shape_for(rolls.shape));
    }
}

/// Whatever the rolls, the flake they give is a spawn: it starts in the top
/// row, its column lies on the screen, and it is in keeping with the modes.
pub proof fn lemma_spawned_is_spawn(random: bool, rainbow: bool, width: u16, rolls: Rolls)
    requires
        width > 0,
    ensures
        is_spawn(spawned(random, rainbow, width, rolls), random, rainbow, width),
{
    lemma_spawned_in_keeping(random, rainbow, width, rolls);
}

} // verus!
