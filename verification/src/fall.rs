//! How flakes fall, and when they leave the screen.
//!
//! A flake that has reached the bottom edge is taken away; every other flake
//! moves down by the speed. The order of the flakes that stay is kept.

use crate::flake::Snowflake;
use vstd::prelude::*;

verus! {

/// Whether `flake` stays on a screen `height` rows high: it does while it is
/// above the last row. On a screen without rows nothing stays.
pub open spec fn survives(flake: Snowflake, height: u16) -> bool {
    flake.y < height - 1
}

/// `flake`, `speed` rows further down.
pub open spec fn advanced(flake: Snowflake, speed: u16) -> Snowflake {
    Snowflake { x: flake.x, y: (flake.y + speed) as u16, color: flake.color, shape: flake.shape }
}

/// The test that keeps the flakes that stay on a screen `height` rows high.
pub open spec fn staying(height: u16) -> spec_fn(Snowflake) -> bool {
    |flake: Snowflake| survives(flake, height)
}

/// The move that takes a flake `speed` rows down.
pub open spec fn lowering(speed: u16) -> spec_fn(Snowflake) -> Snowflake {
    |flake: Snowflake| advanced(flake, speed)
}

/// The flakes after one fall: those that stay, in their order, each `speed`
/// rows further down.
pub open spec fn fallen(flakes: Seq<Snowflake>, speed: u16, height: u16) -> Seq<Snowflake> {
    flakes.filter(staying(height)).map_values(lowering(speed))
}

/// Whether every flake that stays has a row to fall to: row numbers end at
/// `u16::MAX`, and no flake may be asked to pass it.
pub open spec fn can_fall(flakes: Seq<Snowflake>, speed: u16, height: u16) -> bool {
    forall|i: int|
        0 <= i < flakes.len() && survives(#[trigger] flakes[i], height) ==> flakes[i].y + speed
            <= u16::MAX
}

/// Tells whether `flake` stays on a screen `height` rows high.
pub fn stays(flake: &Snowflake, height: u16) -> (kept: bool)
    ensures
        kept == survives(*flake, height),
{
    height > 0 && flake.y < height - 1
}

/// Tells whether every flake that stays has a row to fall to.
pub fn check_can_fall(flakes: &Vec<Snowflake>, speed: u16, height: u16) -> (ok: bool)
    ensures
        ok == can_fall(flakes@, speed, height),
{
    let mut i: usize = 0;
    while i < flakes.len()
        invariant
            i <= flakes.len(),
            can_fall(flakes@.take(i as int), speed, height),
        decreases flakes.len() - i,
    {
        if stays(&flakes[i], height) && flakes[i].y > u16::MAX - speed {
            return false;
        }
        assert forall|j: int|
            0 <= j < flakes@.take(i + 1).len() && survives(
                #[trigger] flakes@.take(i + 1)[j],
                height,
            ) implies flakes@.take(i + 1)[j].y + speed <= u16::MAX by {
            if j < i {
                assert(flakes@.take(i + 1)[j] == flakes@.take(i as int)[j]);
            }
        }
        i += 1;
    }
    assert(flakes@.take(i as int) == flakes@);
    true
}

/// Lets the flakes fall once: takes away those that have reached the bottom
/// edge and moves the others down by `speed`, keeping their order.
pub fn fall(flakes: &Vec<Snowflake>, speed: u16, height: u16) -> (after: Vec<Snowflake>)
    requires
        can_fall(flakes@, speed, height),
    ensures
        after@ == fallen(flakes@, speed, height),
{
    let mut after: Vec<Snowflake> = Vec::new();
    let mut i: usize = 0;
    while i < flakes.len()
        invariant
            i <= flakes.len(),
            can_fall(flakes@, speed, height),
            after@ == fallen(flakes@.take(i as int), speed, height),
        decreases flakes.len() - i,
    {
        let flake = flakes[i];
        proof {
            let before = flakes@.take(i as int);
            assert(flakes@.take(i + 1) == before.push(flake));
            before.lemma_filter_push(flake, staying(height));
        }
        if stays(&flake, height) {
            after.push(
                Snowflake {
                    x: flake.x,
                    y: flake.y + speed,
                    color: flake.color,
                    shape: flake.shape,
                },
            );
        }
        i += 1;
    }
    assert(flakes@.take(i as int) == flakes@);
    after
}

/// Every flake after a fall is a flake from before that stayed, moved down.
pub proof fn lemma_fallen_origin(flakes: Seq<Snowflake>, speed: u16, height: u16, j: int)
    requires
        0 <= j < fallen(flakes, speed, height).len(),
    ensures
        exists|i: int|
            0 <= i < flakes.len() && survives(#[trigger] flakes[i], height) && fallen(
                flakes,
                speed,
                height,
            )[j] == advanced(flakes[i], speed),
{
    let kept = flakes.filter(staying(height));
    kept.lemma_index_contains(j);
    flakes.lemma_filter_pred(staying(height), j);
    flakes.lemma_filter_contains_rev(staying(height), kept[j]);
    let i = choose|i: int| 0 <= i < flakes.len() && flakes[i] == kept[j];
    assert(survives(flakes[i], height));
}

} // verus!
