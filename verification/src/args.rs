//! The settings of an animation.

use vstd::prelude::*;

verus! {

/// The slowest speed of snowfall, in rows per tick.
pub const MIN_SPEED: u16 = 1;

/// The fastest speed of snowfall, in rows per tick.
pub const MAX_SPEED: u16 = 5;

/// The largest quantity of snowflakes per tick.
pub const MAX_QUANTITY: u8 = 100;

/// The settings of an animation, fixed when it starts.
///
/// A value of this type always holds a speed from `MIN_SPEED` to `MAX_SPEED`
/// and a quantity of at most `MAX_QUANTITY`.
#[derive(Clone, Copy, Debug, PartialEq, Eq)]
pub struct Args {
    speed: u16,
    quantity: u8,
    rainbow: bool,
    random: bool,
    notree: bool,
}

/// Whether `speed` and `quantity` are settings an animation can run with.
pub open spec fn in_range(speed: u16, quantity: u8) -> bool {
    MIN_SPEED <= speed <= MAX_SPEED && quantity <= MAX_QUANTITY
}

/// How many flakes appear in a tick. One appears before the frame is
/// painted, whatever the quantity; the rest of the quantity follow after the
/// fall. So a quantity of zero still brings one flake a tick.
pub open spec fn spawn_count(quantity: u8) -> nat {
    if quantity == 0 {
        1
    } else {
        quantity as nat
    }
}

impl Args {
    #[verifier::type_invariant]
    spec fn valid(&self) -> bool {
        in_range(self.speed, self.quantity)
    }

    /// Rows a flake falls per tick.
    pub closed spec fn spec_speed(&self) -> u16 {
        self.speed
    }

    /// Flakes that appear per tick.
    pub closed spec fn spec_quantity(&self) -> u8 {
        self.quantity
    }

    /// Whether each flake has a color of its own.
    pub closed spec fn spec_rainbow(&self) -> bool {
        self.rainbow
    }

    /// Whether each flake has a shape of its own.
    pub closed spec fn spec_random(&self) -> bool {
        self.random
    }

    /// Whether the tree is left out.
    pub closed spec fn spec_notree(&self) -> bool {
        self.notree
    }

    /// Puts the settings together, if the speed and the quantity are in
    /// range.
    pub fn new(speed: u16, quantity: u8, rainbow: bool, random: bool, notree: bool) -> (args:
        Option<Args>)
        ensures
            args is Some <==> in_range(speed, quantity),
            args matches Some(a) ==> {
                &&& a.speed() == speed
                &&& a.quantity() == quantity
                &&& a.rainbow() == rainbow
                &&& a.random() == random
                &&& a.notree() == notree
            },
    {
        if MIN_SPEED <= speed && speed <= MAX_SPEED && quantity <= MAX_QUANTITY {
            Some(Args { speed, quantity, rainbow, random, notree })
        } else {
            None
        }
    }

    /// Rows a flake falls per tick.
    #[verifier::when_used_as_spec(spec_speed)]
    pub fn speed(&self) -> (speed: u16)
        ensures
            speed == self.spec_speed(),
            MIN_SPEED <= speed <= MAX_SPEED,
    {
        proof {
            use_type_invariant(self);
        }
        self.speed
    }

    /// Flakes that appear per tick.
    #[verifier::when_used_as_spec(spec_quantity)]
    pub fn quantity(&self) -> (quantity: u8)
        ensures
            quantity == self.spec_quantity(),
            quantity <= MAX_QUANTITY,
    {
        proof {
            use_type_invariant(self);
        }
        self.quantity
    }

    /// Whether each flake has a color of its own.
    #[verifier::when_used_as_spec(spec_rainbow)]
    pub fn rainbow(&self) -> (rainbow: bool)
        ensures
            rainbow == self.spec_rainbow(),
    {
        self.rainbow
    }

    /// Whether each flake has a shape of its own.
    #[verifier::when_used_as_spec(spec_random)]
    pub fn random(&self) -> (random: bool)
        ensures
            random == self.spec_random(),
    {
        self.random
    }

    /// How many flakes appear in a tick.
    pub fn spawn_count(&self) -> (count: usize)
        ensures
            count == spawn_count(self.quantity()),
            1 <= count <= MAX_QUANTITY,
    {
        proof {
            use_type_invariant(self);
        }
        if self.quantity == 0 {
            1
        } else {
            self.quantity as usize
        }
    }

    /// Whether the tree is left out.
    #[verifier::when_used_as_spec(spec_notree)]
    pub fn notree(&self) -> (notree: bool)
        ensures
            notree == self.spec_notree(),
    {
        self.notree
    }
}

impl Default for Args {
    /// Gentle white snow of one shape, twenty flakes a tick, with the tree.
    fn default() -> (args: Args)
        ensures
            args.speed() == 1,
            args.quantity() == 20,
            !args.rainbow(),
            !args.random(),
            !args.notree(),
    {
        Args { speed: 1, quantity: 20, rainbow: false, random: false, notree: false }
    }
}

} // verus!
