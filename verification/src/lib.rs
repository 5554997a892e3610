//! Falling snow for the terminal: the rules of the animation.
//!
//! The crate decides what a snow animation does from one tick to the next:
//! which flakes appear, where they are painted, how far they fall, when they
//! leave the screen and when the show ends. It never touches a terminal; the
//! program around it paints the strokes it is handed and reports back the
//! size of the screen and the keys pressed.
//!
//! - [`args`]: the settings of an animation.
//! - [`glyph`]: the shapes of snowflakes.
//! - [`flake`]: snowflakes, and how one is made from a roll of the dice.
//! - [`fall`]: how flakes fall and when they leave the screen.
//! - [`paint`]: the strokes of a frame, the tree among them.
//! - [`tick`]: one tick, as a function of the flakes and the dice.
//! - [`input`]: what the keyboard reports, and which report ends the show.
//! - [`driver`]: the animation as a machine with two phases.
//! - [`laws`]: what holds of all of this, proved.

pub mod args;
mod dice;
pub mod driver;
pub mod fall;
pub mod flake;
pub mod glyph;
pub mod input;
pub mod laws;
pub mod paint;
pub mod tick;
