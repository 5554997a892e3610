//! The shapes a snowflake can take.

use vstd::prelude::*;

verus! {

/// The snowflake: the shape of every flake unless shapes are random.
pub const SNOWFLAKE1: char = '\u{2744}';

/// The tight trifoliate snowflake.
pub const SNOWFLAKE2: char = '\u{2745}';

/// The heavy chevron snowflake.
pub const SNOWFLAKE3: char = '\u{2746}';

/// The balloon-spoked asterisk.
pub const SNOWFLAKE4: char = '\u{2749}';

/// The eight teardrop-spoked propeller asterisk.
pub const SNOWFLAKE5: char = '\u{274A}';

/// The heavy eight teardrop-spoked propeller asterisk.
pub const SNOWFLAKE6: char = '\u{274B}';

/// The shapes a flake is chosen from when shapes are random; the first is
/// also the shape of every flake when they are not.
pub const SF_CANDIDATES: [char; 6] = [
    SNOWFLAKE1,
    SNOWFLAKE2,
    SNOWFLAKE3,
    SNOWFLAKE4,
    SNOWFLAKE5,
    SNOWFLAKE6,
];

/// Whether `shape` is one of the six candidate shapes.
pub open spec fn is_candidate(shape: char) -> bool {
    exists|i: int| 0 <= i < 6 && SF_CANDIDATES@[i] == shape
}

/// The shape that a roll of the dice selects: the rolls are dealt round the
/// six candidates in turn.
pub open spec fn shape_for(roll: usize) -> char {
    SF_CANDIDATES@[roll as int % 6]
}

/// Selects the candidate shape for a roll.
pub fn pick_shape(roll: usize) -> (shape: char)
    ensures
        shape == shape_for(roll),
        is_candidate(shape),
{
    SF_CANDIDATES[roll % 6]
}

} // verus!
