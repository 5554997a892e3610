//! What holds of the animation, whatever the dice show and the screen does.

use crate::args::{in_range, spawn_count, Args};
use crate::driver::{DriverView, Phase};
use crate::fall::{can_fall, fallen, staying, survives};
use crate::flake::{
    is_spawn, lemma_spawned_in_keeping, lemma_spawned_is_spawn, spawned, Color, Rolls, Snowflake,
};
use crate::glyph::{is_candidate, SF_CANDIDATES, SNOWFLAKE1};
use crate::input::{Key, KeyKind, Polled};
use crate::paint::{frame, stroke_of, tree, tree_color, tree_stroke, tree_text, Text};
use crate::tick::{
    after_tick, all_in_keeping, lemma_after_tick_in_keeping, lemma_on_show_can_fall, on_show,
};
use vstd::arithmetic::div_mod::lemma_small_mod;
use vstd::prelude::*;

verus! {

/// What one tick is given: the size of the screen at that moment, and the
/// rolls for the flakes that appear in it.
pub struct Tick {
    pub width: u16,
    pub height: u16,
    pub rolls: Seq<Rolls>,
}

/// Whether every tick of `ticks` has one roll for each flake that the
/// settings let appear in a tick.
pub open spec fn well_supplied(args: Args, ticks: Seq<Tick>) -> bool {
    forall|k: int|
        0 <= k < ticks.len() ==> (#[trigger] ticks[k]).rolls.len() == spawn_count(args.quantity())
}

/// The flakes after the ticks of `ticks`, made one after the other.
pub open spec fn run(flakes: Seq<Snowflake>, args: Args, ticks: Seq<Tick>) -> Seq<Snowflake>
    decreases ticks.len(),
{
    if ticks.len() == 0 {
        flakes
    } else {
        let first = ticks[0];
        run(
            after_tick(flakes, args, first.width, first.height, first.rolls),
            args,
            ticks.skip(1),
        )
    }
}

/// Whether the ticks of `ticks` go by without a flake reaching the bottom
/// edge: in each of them every flake on show stays.
pub open spec fn nothing_lands(flakes: Seq<Snowflake>, args: Args, ticks: Seq<Tick>) -> bool
    decreases ticks.len(),
{
    if ticks.len() == 0 {
        true
    } else {
        let first = ticks[0];
        let shown = on_show(flakes, args, first.width, first.rolls);
        &&& forall|i: int| 0 <= i < shown.len() ==> survives(#[trigger] shown[i], first.height)
        &&& nothing_lands(
            after_tick(flakes, args, first.width, first.height, first.rolls),
            args,
            ticks.skip(1),
        )
    }
}

/// A filter that every element passes changes nothing.
proof fn lemma_filter_keeps_all(flakes: Seq<Snowflake>, height: u16)
    requires
        forall|i: int| 0 <= i < flakes.len() ==> survives(#[trigger] flakes[i], height),
    ensures
        flakes.filter(staying(height)) == flakes,
    decreases flakes.len(),
{
    reveal(Seq::filter);
    if flakes.len() > 0 {
        lemma_filter_keeps_all(flakes.drop_last(), height);
        assert(flakes.drop_last().push(flakes.last()) == flakes);
    }
}

/// Dropping an element that does not pass a filter changes nothing of what
/// passes.
proof fn lemma_filter_without(flakes: Seq<Snowflake>, height: u16, i: int)
    requires
        0 <= i < flakes.len(),
        !survives(flakes[i], height),
    ensures
        flakes.remove(i).filter(staying(height)) == flakes.filter(staying(height)),
{
    let head = flakes.take(i);
    let tail = flakes.skip(i + 1);
    let one = seq![flakes[i]];
    assert(flakes == head + one + tail);
    assert(flakes.remove(i) == head + tail);
    Seq::filter_distributes_over_add(head + one, tail, staying(height));
    Seq::filter_distributes_over_add(head, one, staying(height));
    Seq::filter_distributes_over_add(head, tail, staying(height));
    assert(one.filter(staying(height)) == Seq::<Snowflake>::empty()) by {
        reveal_with_fuel(Seq::filter, 2);
        assert(one.drop_last().len() == 0);
    }
}

/// The rest of a well supplied run is well supplied.
proof fn lemma_rest_well_supplied(args: Args, ticks: Seq<Tick>)
    requires
        ticks.len() > 0,
        well_supplied(args, ticks),
    ensures
        well_supplied(args, ticks.skip(1)),
{
    assert forall|k: int| 0 <= k < ticks.skip(1).len() implies (#[trigger] ticks.skip(
        1,
    )[k]).rolls.len() == spawn_count(args.quantity()) by {
        assert(ticks.skip(1)[k] == ticks[k + 1]);
    }
}

/// In a fall every flake that stays moves down by exactly the speed and
/// changes in nothing else, and the flakes that stay keep their order. So
/// with a speed of one or more every flake is lower after the fall than it
/// was before.
pub proof fn law_fall_lowers_by_speed(flakes: Seq<Snowflake>, speed: u16, height: u16)
    requires
        can_fall(flakes, speed, height),
    ensures
        fallen(flakes, speed, height).len() == flakes.filter(staying(height)).len(),
        forall|j: int|
            #![trigger fallen(flakes, speed, height)[j]]
            0 <= j < fallen(flakes, speed, height).len() ==> {
                let before = flakes.filter(staying(height))[j];
                let after = fallen(flakes, speed, height)[j];
                &&& survives(before, height)
                &&& after.y == before.y + speed
                &&& after.x == before.x
                &&& after.color == before.color
                &&& after.shape == before.shape
                &&& speed >= 1 ==> after.y > before.y
            },
{
    let kept = flakes.filter(staying(height));
    assert forall|j: int| 0 <= j < kept.len() implies survives(#[trigger] kept[j], height)
        && kept[j].y + speed <= u16::MAX by {
        kept.lemma_index_contains(j);
        flakes.lemma_filter_pred(staying(height), j);
        flakes.lemma_filter_contains_rev(staying(height), kept[j]);
        let i = choose|i: int| 0 <= i < flakes.len() && flakes[i] == kept[j];
        assert(survives(flakes[i], height));
    }
}

/// What a tick leaves behind: first the flakes on show that stay, each lower
/// than before by exactly the speed, and behind them the new flakes, each in
/// the top row, in a column of the screen, and in keeping with the settings.
pub proof fn law_tick_falls_then_spawns(
    flakes: Seq<Snowflake>,
    args: Args,
    width: u16,
    height: u16,
    rolls: Seq<Rolls>,
)
    requires
        in_range(args.speed(), args.quantity()),
        width > 0,
        rolls.len() == spawn_count(args.quantity()),
        can_fall(flakes, args.speed(), height),
    ensures
        ({
            let kept = on_show(flakes, args, width, rolls).filter(staying(height));
            let after = after_tick(flakes, args, width, height, rolls);
            &&& after.len() == kept.len() + spawn_count(args.quantity()) - 1
            &&& forall|j: int|
                0 <= j < kept.len() ==> (#[trigger] after[j]).y == kept[j].y + args.speed()
                    && after[j].y > kept[j].y
            &&& forall|j: int|
                kept.len() <= j < after.len() ==> is_spawn(
                    #[trigger] after[j],
                    args.random(),
                    args.rainbow(),
                    width,
                )
        }),
{
    let shown = on_show(flakes, args, width, rolls);
    let kept = shown.filter(staying(height));
    let down = fallen(shown, args.speed(), height);
    let after = after_tick(flakes, args, width, height, rolls);
    lemma_on_show_can_fall(flakes, args, width, height, rolls);
    law_fall_lowers_by_speed(shown, args.speed(), height);
    assert forall|j: int| 0 <= j < kept.len() implies (#[trigger] after[j]).y == kept[j].y
        + args.speed() && after[j].y > kept[j].y by {
        assert(after[j] == down[j]);
    }
    assert forall|j: int| kept.len() <= j < after.len() implies is_spawn(
        #[trigger] after[j],
        args.random(),
        args.rainbow(),
        width,
    ) by {
        let roll = rolls.skip(1)[j - kept.len()];
        assert(after[j] == spawned(args.random(), args.rainbow(), width, roll));
        lemma_spawned_is_spawn(args.random(), args.rainbow(), width, roll);
    }
}

/// A flake that has reached the bottom edge is gone after the tick, and for
/// good: the tick leaves the same flakes behind as if that flake had not been
/// there at all, and so does every run of ticks that begins with it.
pub proof fn law_landed_flake_is_gone(
    flakes: Seq<Snowflake>,
    args: Args,
    ticks: Seq<Tick>,
    i: int,
)
    requires
        ticks.len() >= 1,
        0 <= i < flakes.len(),
        !survives(flakes[i], ticks[0].height),
    ensures
        after_tick(flakes, args, ticks[0].width, ticks[0].height, ticks[0].rolls) == after_tick(
            flakes.remove(i),
            args,
            ticks[0].width,
            ticks[0].height,
            ticks[0].rolls,
        ),
        run(flakes, args, ticks) == run(flakes.remove(i), args, ticks),
{
    let first = ticks[0];
    let shown = on_show(flakes, args, first.width, first.rolls);
    assert(on_show(flakes.remove(i), args, first.width, first.rolls) == shown.remove(i));
    lemma_filter_without(shown, first.height, i);
}

/// The spawn rate: while no flake reaches the bottom edge, every tick adds
/// as many flakes as the settings let appear in a tick. That number is the
/// quantity, but for a quantity of zero, where it is one.
pub proof fn law_spawn_rate(flakes: Seq<Snowflake>, args: Args, ticks: Seq<Tick>)
    requires
        well_supplied(args, ticks),
        nothing_lands(flakes, args, ticks),
    ensures
        run(flakes, args, ticks).len() == flakes.len() + spawn_count(args.quantity())
            * ticks.len(),
        args.quantity() >= 1 ==> run(flakes, args, ticks).len() == flakes.len() + args.quantity()
            * ticks.len(),
    decreases ticks.len(),
{
    let count = spawn_count(args.quantity());
    if ticks.len() > 0 {
        let first = ticks[0];
        let shown = on_show(flakes, args, first.width, first.rolls);
        let after = after_tick(flakes, args, first.width, first.height, first.rolls);
        lemma_filter_keeps_all(shown, first.height);
        assert(after.len() == flakes.len() + count);
        lemma_rest_well_supplied(args, ticks);
        law_spawn_rate(after, args, ticks.skip(1));
        assert(count * ticks.len() == count + count * ticks.skip(1).len()) by (nonlinear_arith)
            requires
                ticks.len() == ticks.skip(1).len() + 1,
        ;
    } else {
        assert(count * ticks.len() == 0) by (nonlinear_arith)
            requires
                ticks.len() == 0,
        ;
    }
}

/// A new flake appears in the top row and in a column of the screen,
/// whatever the width of the screen and whatever the dice show.
pub proof fn law_spawn_is_on_the_screen(random: bool, rainbow: bool, width: u16, rolls: Rolls)
    requires
        width > 0,
    ensures
        0 <= spawned(random, rainbow, width, rolls).x < width,
        spawned(random, rainbow, width, rolls).y == 0,
{
}

/// Within the screen the dice have the last word: a flake that is a spawn is
/// the flake that some rolls give.
pub proof fn law_every_spawn_can_come(flake: Snowflake, random: bool, rainbow: bool, width: u16)
    requires
        is_spawn(flake, random, rainbow, width),
    ensures
        exists|rolls: Rolls| flake == spawned(random, rainbow, width, rolls),
{
    let (red, green, blue) = match flake.color {
        Color::Rgb { r, g, b } => (r, g, b),
        _ => (0u8, 0u8, 0u8),
    };
    let shape: usize = if random {
        let i = choose|i: int| 0 <= i < 6 && SF_CANDIDATES@[i] == flake.shape;
        i as usize
    } else {
        0
    };
    let rolls = Rolls { red, green, blue, shape, column: flake.x };
    assert(flake.x % width == flake.x) by {
        lemma_small_mod(flake.x as nat, width as nat);
    }
    assert(flake == spawned(random, rainbow, width, rolls));
}

/// With shapes fixed every new flake has the first shape; with shapes random
/// it has one of the six.
pub proof fn law_shape_follows_the_mode(rainbow: bool, width: u16, rolls: Rolls)
    ensures
        spawned(false, rainbow, width, rolls).shape == SNOWFLAKE1,
        is_candidate(spawned(true, rainbow, width, rolls).shape),
{
    lemma_spawned_in_keeping(true, rainbow, width, rolls);
}

/// With colors fixed every new flake is white. With colors random a flake
/// has exactly the color rolled for it: every color can come, and two
/// flakes are of one color only where their color rolls are the same.
pub proof fn law_color_follows_the_mode(random: bool, width: u16, a: Rolls, b: Rolls)
    ensures
        spawned(random, false, width, a).color == Color::White,
        spawned(random, true, width, a).color == (Color::Rgb { r: a.red, g: a.green, b: a.blue }),
        spawned(random, true, width, a).color == spawned(random, true, width, b).color <==> a.red
            == b.red && a.green == b.green && a.blue == b.blue,
{
}

/// Through every run of ticks the flakes stay in keeping with the settings:
/// white unless colors are random, of the first shape unless shapes are
/// random, and then of one of the six shapes.
pub proof fn law_looks_are_kept(flakes: Seq<Snowflake>, args: Args, ticks: Seq<Tick>)
    requires
        all_in_keeping(flakes, args),
    ensures
        all_in_keeping(run(flakes, args, ticks), args),
    decreases ticks.len(),
{
    if ticks.len() > 0 {
        let first = ticks[0];
        let after = after_tick(flakes, args, first.width, first.height, first.rolls);
        lemma_after_tick_in_keeping(flakes, args, first.width, first.height, first.rolls);
        law_looks_are_kept(after, args, ticks.skip(1));
    }
}

/// A frame shows every flake as it is: after the six strokes of the tree,
/// if there is one, comes one stroke for each flake, in the flake's place and
/// color, with the flake's shape for its text. Without the tree the frame
/// holds nothing else.
pub proof fn law_frame_shows_flakes(flakes: Seq<Snowflake>, notree: bool, width: u16, height: u16)
    ensures
        notree ==> {
            let painted = frame(flakes, notree, width, height);
            &&& painted.len() == flakes.len()
            &&& forall|i: int|
                0 <= i < flakes.len() ==> painted[i] == stroke_of(#[trigger] flakes[i])
        },
        !notree ==> {
            let painted = frame(flakes, notree, width, height);
            &&& painted.len() == 6 + flakes.len()
            &&& forall|i: int|
                0 <= i < 6 ==> #[trigger] painted[i] == tree_stroke(width, height, i)
            &&& forall|i: int|
                0 <= i < flakes.len() ==> painted[6 + i] == stroke_of(#[trigger] flakes[i])
        },
        forall|i: int|
            0 <= i < flakes.len() ==> {
                let stroke = stroke_of(#[trigger] flakes[i]);
                &&& stroke.column == flakes[i].x
                &&& stroke.row == flakes[i].y
                &&& stroke.color == flakes[i].color
                &&& stroke.text == Text::Glyph(flakes[i].shape)
            },
{
}

/// The tree looks the same on every screen: six rows of nine characters,
/// four of green foliage over two of red trunk.
pub proof fn law_tree_is_always_the_same(width: u16, height: u16)
    ensures
        tree(width, height).len() == 6,
        forall|i: int|
            0 <= i < 6 ==> {
                let stroke = #[trigger] tree(width, height)[i];
                &&& stroke.text == Text::Line(tree_text(i))
                &&& stroke.text.chars().len() == 9
                &&& stroke.color == tree_color(i)
            },
        tree_text(0)@ == seq![' ', ' ', ' ', ' ', '*', ' ', ' ', ' ', ' '],
        tree_text(1)@ == seq![' ', ' ', ' ', '*', '*', '*', ' ', ' ', ' '],
        tree_text(2)@ == seq![' ', ' ', '*', '*', '*', '*', '*', ' ', ' '],
        tree_text(3)@ == seq![' ', '*', '*', '*', '*', '*', '*', '*', ' '],
        tree_text(4)@ == seq![' ', ' ', ' ', '|', ' ', '|', ' ', ' ', ' '],
        tree_text(5)@ == seq![' ', ' ', ' ', '|', ' ', '|', ' ', ' ', ' '],
{
    reveal_strlit("    *    ");
    reveal_strlit("   ***   ");
    reveal_strlit("  *****  ");
    reveal_strlit(" ******* ");
    reveal_strlit("   | |   ");
}

/// Where the screen is wide and high enough, the tree's six rows are the
/// bottom six rows of the screen, and each runs from six columns left of the
/// middle to three columns right of it.
pub proof fn law_tree_stands_at_the_bottom(width: u16, height: u16)
    requires
        width >= 12,
        height >= 6,
    ensures
        forall|i: int|
            0 <= i < 6 ==> {
                let stroke = #[trigger] tree(width, height)[i];
                &&& stroke.column == width / 2 - 6
                &&& stroke.column + stroke.text.chars().len() == width / 2 + 3
                &&& stroke.row == height - 6 + i
            },
{
    law_tree_is_always_the_same(width, height);
}

/// Only the quit key going down ends the show: after a look at the keyboard
/// the driver is terminating if it was before or if that is what the look
/// found, and not otherwise. The same key coming up ends nothing.
pub proof fn law_only_the_quit_key_ends_the_show(driver: DriverView, polled: Polled)
    ensures
        driver.polled(polled).phase == Phase::Terminating <==> driver.phase == Phase::Terminating
            || polled == (Polled::Key { key: Key::Char('q'), kind: KeyKind::Press }),
        driver.phase == Phase::Running ==> driver.polled(
            Polled::Key { key: Key::Char('q'), kind: KeyKind::Release },
        ).phase == Phase::Running,
        driver.polled(polled).flakes == driver.flakes,
{
}

} // verus!
