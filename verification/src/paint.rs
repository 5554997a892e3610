//! What is painted in a frame: the tree, and the flakes over it.

use crate::flake::{Color, Snowflake};
use vstd::prelude::*;

verus! {

/// The top of the tree.
pub const TREE1: &'static str = "    *    ";

/// The second row of foliage.
pub const TREE2: &'static str = "   ***   ";

/// The third row of foliage.
pub const TREE3: &'static str = "  *****  ";

/// The widest row of foliage.
pub const TREE4: &'static str = " ******* ";

/// The upper row of the trunk.
pub const STOC1: &'static str = "   | |   ";

/// The lower row of the trunk.
pub const STOC2: &'static str = "   | |   ";

/// What a stroke writes.
#[derive(Clone, Copy, Debug, PartialEq, Eq)]
pub enum Text {
    /// A single character: the shape of a flake.
    Glyph(char),
    /// A line of characters: a row of the tree.
    Line(&'static str),
}

/// One stroke of the brush: `text`, written from left to right in `color`,
/// its first character at (`column`, `row`).
#[derive(Clone, Copy, Debug, PartialEq, Eq)]
pub struct Stroke {
    pub column: u16,
    pub row: u16,
    pub color: Color,
    pub text: Text,
}

impl Text {
    /// The characters written, from left to right.
    pub open spec fn chars(self) -> Seq<char> {
        match self {
            Text::Glyph(shape) => seq![shape],
            Text::Line(line) => line@,
        }
    }
}

/// The text of the tree's row `i`, counted from its top: four rows of
/// foliage, then two of trunk.
pub open spec fn tree_text(i: int) -> &'static str {
    if i == 0 {
        TREE1
    } else if i == 1 {
        TREE2
    } else if i == 2 {
        TREE3
    } else if i == 3 {
        TREE4
    } else if i == 4 {
        STOC1
    } else {
        STOC2
    }
}

/// The color of the tree's row `i`: green foliage over a red trunk.
pub open spec fn tree_color(i: int) -> Color {
    if i < 4 {
        Color::Green
    } else {
        Color::Red
    }
}

/// The column where the tree's rows begin: six columns left of the middle of
/// the screen, or the left edge where the screen is too narrow for that.
pub open spec fn tree_column(width: u16) -> u16 {
    if width / 2 >= 6 {
        (width / 2 - 6) as u16
    } else {
        0
    }
}

/// The screen row of the tree's row `i`: the tree stands on the bottom edge,
/// so its six rows are the last six of the screen. A row that would lie above
/// the top edge of a low screen is put on the top edge.
pub open spec fn tree_row(height: u16, i: int) -> u16 {
    if height >= 6 - i {
        (height - (6 - i)) as u16
    } else {
        0
    }
}

/// The stroke of the tree's row `i` on a screen of the given size.
pub open spec fn tree_stroke(width: u16, height: u16, i: int) -> Stroke {
    Stroke {
        column: tree_column(width),
        row: tree_row(height, i),
        color: tree_color(i),
        text: Text::Line(tree_text(i)),
    }
}

/// The tree: its six rows from top to bottom.
pub open spec fn tree(width: u16, height: u16) -> Seq<Stroke> {
    Seq::new(6, |i: int| tree_stroke(width, height, i))
}

/// The stroke of a flake: its shape, in its color, at its place.
pub open spec fn stroke_of(flake: Snowflake) -> Stroke {
    Stroke { column: flake.x, row: flake.y, color: flake.color, text: Text::Glyph(flake.shape) }
}

/// A whole frame: the tree first, unless `notree`, and then every flake in
/// the order of the collection, so that snow falls in front of the tree.
pub open spec fn frame(flakes: Seq<Snowflake>, notree: bool, width: u16, height: u16) -> Seq<
    Stroke,
> {
    let tree = if notree {
        Seq::<Stroke>::empty()
    } else {
        tree(width, height)
    };
    tree + flakes.map_values(|flake: Snowflake| stroke_of(flake))
}

/// The text of the tree's row `i`.
fn tree_line(i: usize) -> (line: &'static str)
    requires
        i < 6,
    ensures
        line == tree_text(i as int),
{
    if i == 0 {
        TREE1
    } else if i == 1 {
        TREE2
    } else if i == 2 {
        TREE3
    } else if i == 3 {
        TREE4
    } else if i == 4 {
        STOC1
    } else {
        STOC2
    }
}

/// The strokes that paint the tree on a screen of the given size.
pub fn tree_strokes(width: u16, height: u16) -> (strokes: Vec<Stroke>)
    ensures
        strokes@ == tree(width, height),
{
    let half = width / 2;
    let column: u16 = if half >= 6 {
        half - 6
    } else {
        0
    };
    let mut strokes: Vec<Stroke> = Vec::new();
    let mut i: usize = 0;
    while i < 6
        invariant
            i <= 6,
            column == tree_column(width),
            strokes@.len() == i,
            forall|j: int| 0 <= j < i ==> #[trigger] strokes@[j] == tree_stroke(width, height, j),
        decreases 6 - i,
    {
        let above: u16 = 6 - i as u16;
        let row: u16 = if height >= above {
            height - above
        } else {
            0
        };
        let color = if i < 4 {
            Color::Green
        } else {
            Color::Red
        };
        strokes.push(Stroke { column, row, color, text: Text::Line(tree_line(i)) });
        i += 1;
    }
    strokes
}

/// The stroke that paints one flake.
pub fn flake_stroke(flake: &Snowflake) -> (stroke: Stroke)
    ensures
        stroke == stroke_of(*flake),
{
    Stroke { column: flake.x, row: flake.y, color: flake.color, text: Text::Glyph(flake.shape) }
}

/// The strokes that paint a whole frame, in the order in which they are to
/// be painted.
pub fn frame_strokes(flakes: &Vec<Snowflake>, notree: bool, width: u16, height: u16) -> (strokes:
    Vec<Stroke>)
    ensures
        strokes@ == frame(flakes@, notree, width, height),
{
    let mut strokes: Vec<Stroke> = if notree {
        Vec::new()
    } else {
        tree_strokes(width, height)
    };
    let ghost tree = strokes@;
    let mut i: usize = 0;
    while i < flakes.len()
        invariant
            i <= flakes.len(),
            strokes@ == tree + flakes@.take(i as int).map_values(
                |flake: Snowflake| stroke_of(flake),
            ),
        decreases flakes.len() - i,
    {
        strokes.push(flake_stroke(&flakes[i]));
        assert(flakes@.take(i + 1) == flakes@.take(i as int).push(flakes@[i as int]));
        i += 1;
    }
    assert(flakes@.take(i as int) == flakes@);
    strokes
}

} // verus!
