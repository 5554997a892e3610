//! The frame driver: the animation as a machine with two phases.
//!
//! The driver owns the flakes. The program around it runs the loop: each
//! round it tells the driver the size of the screen, paints the strokes the
//! driver answers with, waits a moment, looks for a key and tells the driver
//! what it found. The driver answers whether to clear the screen for another
//! round or to hand the terminal back.

use crate::args::{spawn_count, Args};
use crate::fall::{can_fall, check_can_fall};
use crate::flake::{Rolls, Snowflake};
use crate::input::{is_quit, quits, Polled};
use crate::paint::Stroke;
use crate::tick::{
    after_tick, all_in_keeping, lemma_after_tick_in_keeping, tick_flakes, tick_frame,
};
use vstd::prelude::*;

verus! {

/// How long the program rests between two ticks, in milliseconds.
pub const TICK_MILLIS: u64 = 100;

/// Where the animation stands.
#[derive(Clone, Copy, Debug, PartialEq, Eq, Structural)]
pub enum Phase {
    /// Snow is falling.
    Running,
    /// The quit key went down; nothing moves any more.
    Terminating,
}

/// What is to be done with the terminal once the keyboard has been looked at.
#[derive(Clone, Copy, Debug, PartialEq, Eq, Structural)]
pub enum Upkeep {
    /// Clear the screen; another tick follows.
    ClearScreen,
    /// Show the cursor again, clear the screen, leave raw mode, and stop.
    RestoreTerminal,
}

/// The animation: its settings, the flakes in the air, and its phase.
#[derive(Debug)]
pub struct Driver {
    args: Args,
    flakes: Vec<Snowflake>,
    phase: Phase,
}

/// What a driver is: its settings, its flakes from oldest to newest, and its
/// phase.
pub struct DriverView {
    pub args: Args,
    pub flakes: Seq<Snowflake>,
    pub phase: Phase,
}

impl DriverView {
    /// What a tick with the given rolls paints on a screen of the given size:
    /// the frame while running, nothing once terminating.
    pub open spec fn painted(self, width: u16, height: u16, rolls: Seq<Rolls>) -> Seq<Stroke> {
        match self.phase {
            Phase::Running => tick_frame(self.flakes, self.args, width, height, rolls),
            Phase::Terminating => Seq::empty(),
        }
    }

    /// The driver after a tick with the given rolls: while running the flakes
    /// move on, and once terminating nothing changes. A tick never changes
    /// the settings or the phase.
    pub open spec fn ticked(self, width: u16, height: u16, rolls: Seq<Rolls>) -> DriverView {
        match self.phase {
            Phase::Running => DriverView {
                args: self.args,
                flakes: after_tick(self.flakes, self.args, width, height, rolls),
                phase: self.phase,
            },
            Phase::Terminating => self,
        }
    }

    /// The driver after the keyboard has been looked at: the quit key going
    /// down ends the running phase, and nothing ends the terminating phase.
    /// The flakes and the settings stay as they are.
    pub open spec fn polled(self, polled: Polled) -> DriverView {
        DriverView {
            args: self.args,
            flakes: self.flakes,
            phase: if is_quit(polled) {
                Phase::Terminating
            } else {
                self.phase
            },
        }
    }

    /// What is to be done with the terminal in this phase.
    pub open spec fn upkeep(self) -> Upkeep {
        match self.phase {
            Phase::Running => Upkeep::ClearScreen,
            Phase::Terminating => Upkeep::RestoreTerminal,
        }
    }
}

impl View for Driver {
    type V = DriverView;

    closed spec fn view(&self) -> DriverView {
        DriverView { args: self.args, flakes: self.flakes@, phase: self.phase }
    }
}

impl Driver {
    #[verifier::type_invariant]
    spec fn flakes_in_keeping(&self) -> bool {
        all_in_keeping(self.flakes@, self.args)
    }

    /// Whether a tick can be made on a screen of the given size: the screen
    /// has a column for a new flake to appear in, and every flake that stays
    /// has a row to fall to.
    pub open spec fn can_tick(&self, width: u16, height: u16) -> bool {
        width > 0 && can_fall(self@.flakes, self@.args.speed(), height)
    }

    /// Starts an animation: running, with no flake in the air yet.
    pub fn new(args: Args) -> (driver: Driver)
        ensures
            driver@ == (DriverView { args, flakes: Seq::empty(), phase: Phase::Running }),
    {
        Driver { args, flakes: Vec::new(), phase: Phase::Running }
    }

    /// The settings.
    pub fn args(&self) -> (args: Args)
        ensures
            args == self@.args,
    {
        self.args
    }

    /// The phase.
    pub fn phase(&self) -> (phase: Phase)
        ensures
            phase == self@.phase,
    {
        self.phase
    }

    /// The flakes in the air, from oldest to newest. In every state of the
    /// animation each of them is in keeping with the settings: white and of
    /// the first shape unless the settings say otherwise.
    pub fn flakes(&self) -> (flakes: &Vec<Snowflake>)
        ensures
            flakes@ == self@.flakes,
            all_in_keeping(flakes@, self@.args),
    {
        proof {
            use_type_invariant(self);
        }
        &self.flakes
    }

    /// Tells whether a tick can be made on a screen of the given size.
    pub fn ready(&self, width: u16, height: u16) -> (ok: bool)
        ensures
            ok == self.can_tick(width, height),
    {
        width > 0 && check_can_fall(&self.flakes, self.args.speed(), height)
    }

    /// Makes one tick with the given rolls, one for each flake that appears,
    /// and returns the strokes to paint, in the order to paint them.
    pub fn tick_with(&mut self, width: u16, height: u16, rolls: &Vec<Rolls>) -> (strokes: Vec<
        Stroke,
    >)
        requires
            old(self).can_tick(width, height),
            rolls@.len() == spawn_count(old(self)@.args.quantity()),
        ensures
            final(self)@ == old(self)@.ticked(width, height, rolls@),
            strokes@ == old(self)@.painted(width, height, rolls@),
    {
        proof {
            use_type_invariant(&*self);
        }
        match self.phase {
            Phase::Terminating => Vec::new(),
            Phase::Running => {
                proof {
                    lemma_after_tick_in_keeping(self.flakes@, self.args, width, height, rolls@);
                }
                let (strokes, after) = tick_flakes(&self.flakes, &self.args, width, height, rolls);
                self.flakes = after;
                strokes
            },
        }
    }

    /// Makes one tick with rolls of the dice, and returns the strokes to
    /// paint, in the order to paint them.
    ///
    /// Which flakes appear is up to the dice. Whatever they give, the tick is
    /// the one that `tick_with` makes of some rolls, one for each flake that
    /// appears.
    pub fn tick(&mut self, width: u16, height: u16) -> (strokes: Vec<Stroke>)
        requires
            old(self).can_tick(width, height),
        ensures
            exists|rolls: Seq<Rolls>|
                {
                    &&& rolls.len() == spawn_count(old(self)@.args.quantity())
                    &&& final(self)@ == #[trigger] old(self)@.ticked(width, height, rolls)
                    &&& strokes@ == old(self)@.painted(width, height, rolls)
                },
    {
        let count = self.args.spawn_count();
        match self.phase {
            Phase::Terminating => {
                proof {
                    let unrolled = Rolls { red: 0, green: 0, blue: 0, shape: 0, column: 0 };
                    let rolls = Seq::new(count as nat, |i: int| unrolled);
                    assert(self@ == self@.ticked(width, height, rolls));
                }
                Vec::new()
            },
            Phase::Running => {
                let rolls = Rolls::draw_all(count, self.args.random(), self.args.rainbow());
                self.tick_with(width, height, &rolls)
            },
        }
    }

    /// Looks at what the keyboard reported and says what is to be done with
    /// the terminal.
    pub fn poll(&mut self, polled: Polled) -> (upkeep: Upkeep)
        ensures
            final(self)@ == old(self)@.polled(polled),
            upkeep == final(self)@.upkeep(),
    {
        proof {
            use_type_invariant(&*self);
        }
        if quits(polled) {
            self.phase = Phase::Terminating;
        }
        match self.phase {
            Phase::Running => Upkeep::ClearScreen,
            Phase::Terminating => Upkeep::RestoreTerminal,
        }
    }
}

} // verus!
