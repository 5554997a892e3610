//! One tick of the animation, as a function of the flakes and the dice.
//!
//! A tick first lets one new flake appear. The frame is painted with that
//! flake in it. Then every flake falls, and the rest of the tick's new flakes
//! appear in the top row, where they wait for the next frame.

use crate::args::Args;
use crate::fall::{can_fall, fall, fallen, lemma_fallen_origin, survives};
use crate::flake::{in_keeping, lemma_spawned_in_keeping, spawned, Rolls, Snowflake};
use crate::paint::{frame, frame_strokes, Stroke};
use vstd::prelude::*;

verus! {

/// The making of a flake from its rolls, under the given settings and width.
pub open spec fn spawning(args: Args, width: u16) -> spec_fn(Rolls) -> Snowflake {
    |rolls: Rolls| spawned(args.random(), args.rainbow(), width, rolls)
}

/// The flakes that `rolls` give, one for each, in their order.
pub open spec fn spawned_all(args: Args, width: u16, rolls: Seq<Rolls>) -> Seq<Snowflake> {
    rolls.map_values(spawning(args, width))
}

/// The flakes on show in a tick: those that were there, and behind them the
/// tick's first new flake, made from the first of the tick's rolls.
pub open spec fn on_show(flakes: Seq<Snowflake>, args: Args, width: u16, rolls: Seq<Rolls>) -> Seq<
    Snowflake,
> {
    flakes.push(spawned(args.random(), args.rainbow(), width, rolls[0]))
}

/// What a tick paints: the frame of the flakes on show.
pub open spec fn tick_frame(
    flakes: Seq<Snowflake>,
    args: Args,
    width: u16,
    height: u16,
    rolls: Seq<Rolls>,
) -> Seq<Stroke> {
    frame(on_show(flakes, args, width, rolls), args.notree(), width, height)
}

/// The flakes a tick leaves behind: the flakes on show after their fall, and
/// behind them the flakes made from the remaining rolls.
pub open spec fn after_tick(
    flakes: Seq<Snowflake>,
    args: Args,
    width: u16,
    height: u16,
    rolls: Seq<Rolls>,
) -> Seq<Snowflake> {
    fallen(on_show(flakes, args, width, rolls), args.speed(), height) + spawned_all(
        args,
        width,
        rolls.skip(1),
    )
}

/// Whether every flake of `flakes` is in keeping with the modes of `args`.
pub open spec fn all_in_keeping(flakes: Seq<Snowflake>, args: Args) -> bool {
    forall|i: int|
        0 <= i < flakes.len() ==> in_keeping(#[trigger] flakes[i], args.random(), args.rainbow())
}

/// The flakes of `flakes`, and behind them `flake`.
fn with_flake(flakes: &Vec<Snowflake>, flake: Snowflake) -> (all: Vec<Snowflake>)
    ensures
        all@ == flakes@.push(flake),
{
    let mut all: Vec<Snowflake> = Vec::new();
    let mut i: usize = 0;
    while i < flakes.len()
        invariant
            i <= flakes.len(),
            all@ == flakes@.take(i as int),
        decreases flakes.len() - i,
    {
        all.push(flakes[i]);
        assert(flakes@.take(i + 1) == flakes@.take(i as int).push(flakes@[i as int]));
        i += 1;
    }
    assert(flakes@.take(i as int) == flakes@);
    all.push(flake);
    all
}

/// Appends to `flakes` the flakes that the rolls from index `from` on give.
fn spawn_all(
    flakes: &mut Vec<Snowflake>,
    args: &Args,
    width: u16,
    rolls: &Vec<Rolls>,
    from: usize,
)
    requires
        width > 0,
        from <= rolls@.len(),
    ensures
        final(flakes)@ == old(flakes)@ + spawned_all(*args, width, rolls@.skip(from as int)),
{
    let mut i: usize = from;
    while i < rolls.len()
        invariant
            width > 0,
            from <= i <= rolls@.len(),
            flakes@ == old(flakes)@ + spawned_all(
                *args,
                width,
                rolls@.subrange(from as int, i as int),
            ),
        decreases rolls.len() - i,
    {
        let flake = Snowflake::from_rolls(args.random(), args.rainbow(), width, rolls[i]);
        flakes.push(flake);
        assert(rolls@.subrange(from as int, i + 1) == rolls@.subrange(from as int, i as int).push(
            rolls@[i as int],
        ));
        i += 1;
    }
    assert(rolls@.subrange(from as int, i as int) == rolls@.skip(from as int));
}

/// Makes one tick of `flakes` with the given rolls, one for each flake that
/// appears, on a screen of the given size. Returns the strokes to paint, in
/// the order to paint them, and the flakes that the tick leaves behind.
pub fn tick_flakes(
    flakes: &Vec<Snowflake>,
    args: &Args,
    width: u16,
    height: u16,
    rolls: &Vec<Rolls>,
) -> (out: (Vec<Stroke>, Vec<Snowflake>))
    requires
        width > 0,
        rolls@.len() >= 1,
        can_fall(flakes@, args.speed(), height),
    ensures
        out.0@ == tick_frame(flakes@, *args, width, height, rolls@),
        out.1@ == after_tick(flakes@, *args, width, height, rolls@),
{
    proof {
        lemma_on_show_can_fall(flakes@, *args, width, height, rolls@);
    }
    let first = Snowflake::from_rolls(args.random(), args.rainbow(), width, rolls[0]);
    let shown = with_flake(flakes, first);
    let strokes = frame_strokes(&shown, args.notree(), width, height);
    let mut after = fall(&shown, args.speed(), height);
    spawn_all(&mut after, args, width, rolls, 1);
    (strokes, after)
}

/// A fall never asks more of the flakes on show than of the flakes that were
/// there: the new flake starts in the top row and has room below it.
pub proof fn lemma_on_show_can_fall(
    flakes: Seq<Snowflake>,
    args: Args,
    width: u16,
    height: u16,
    rolls: Seq<Rolls>,
)
    ensures
        can_fall(on_show(flakes, args, width, rolls), args.speed(), height) == can_fall(
            flakes,
            args.speed(),
            height,
        ),
{
    let shown = on_show(flakes, args, width, rolls);
    if can_fall(flakes, args.speed(), height) {
        assert forall|i: int|
            0 <= i < shown.len() && survives(
                #[trigger] shown[i],
                height,
            ) implies shown[i].y + args.speed() <= u16::MAX by {
            if i < flakes.len() {
                assert(shown[i] == flakes[i]);
            }
        }
    }
    if can_fall(shown, args.speed(), height) {
        assert forall|i: int|
            0 <= i < flakes.len() && survives(
                #[trigger] flakes[i],
                height,
            ) implies flakes[i].y + args.speed() <= u16::MAX by {
            assert(shown[i] == flakes[i]);
        }
    }
}

/// A tick keeps the flakes in keeping: what falls keeps its looks, and what
/// appears is made to fit.
pub proof fn lemma_after_tick_in_keeping(
    flakes: Seq<Snowflake>,
    args: Args,
    width: u16,
    height: u16,
    rolls: Seq<Rolls>,
)
    requires
        all_in_keeping(flakes, args),
    ensures
        all_in_keeping(on_show(flakes, args, width, rolls), args),
        all_in_keeping(after_tick(flakes, args, width, height, rolls), args),
{
    let shown = on_show(flakes, args, width, rolls);
    lemma_spawned_in_keeping(args.random(), args.rainbow(), width, rolls[0]);
    assert forall|i: int| 0 <= i < shown.len() implies in_keeping(
        #[trigger] shown[i],
        args.random(),
        args.rainbow(),
    ) by {
        if i < flakes.len() {
            assert(shown[i] == flakes[i]);
        }
    }
    let down = fallen(shown, args.speed(), height);
    let after = after_tick(flakes, args, width, height, rolls);
    assert forall|j: int| 0 <= j < after.len() implies in_keeping(
        #[trigger] after[j],
        args.random(),
        args.rainbow(),
    ) by {
        if j < down.len() {
            lemma_fallen_origin(shown, args.speed(), height, j);
        } else {
            lemma_spawned_in_keeping(
                args.random(),
                args.rainbow(),
                width,
                rolls.skip(1)[j - down.len()],
            );
        }
    }
}

} // verus!
