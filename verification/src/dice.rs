//! A roll of two dice, the powers that change it, and what it pays.

use crate::random::sample_below;
use vstd::prelude::*;

verus! {

/// The number of sides of a die; its faces are 1 to `SIDES`.
pub const SIDES: u8 = 6;

/// What a roll that does not reach the bet pays.
pub const LOSING_GOLD: u8 = 2;

/// The face that `Power::FlipOne` turns a low die to.
pub const FLIPPED_FACE: u8 = 4;

/// Two faces in ascending order.
pub open spec fn ordered(a: int, b: int) -> (int, int) {
    if a <= b {
        (a, b)
    } else {
        (b, a)
    }
}

/// What `Power::FlipOne` makes of the faces `low <= high`: a lower die that
/// shows 1, 2 or 3 is turned to 4, and the faces are put in order again.
pub open spec fn flipped(faces: (int, int)) -> (int, int) {
    if 1 <= faces.0 <= 3 {
        ordered(FLIPPED_FACE as int, faces.1)
    } else {
        faces
    }
}

/// What a roll that sums to `sum` pays on `bet`: the bet if the roll reaches
/// it, and the losing gold if not.
pub open spec fn payout(sum: int, bet: int) -> int {
    if bet <= sum {
        bet
    } else {
        LOSING_GOLD as int
    }
}

/// What a player may do to a roll before it is paid out.
#[derive(Clone, Copy, Debug, PartialEq, Eq, Structural)]
pub enum Power {
    /// Leave the roll as it is.
    Nothing,
    /// Roll both dice again.
    Reroll,
    /// Turn the lower die to 4 if it shows less.
    FlipOne,
}

/// A roll of two dice. The faces are kept in ascending order, so that a roll
/// is the same whichever die showed which face.
#[derive(Clone, Copy, Debug, PartialEq, Eq, Structural)]
pub struct Dice {
    d1: u8,
    d2: u8,
}

impl View for Dice {
    type V = (int, int);

    /// The two faces, the lower one first.
    closed spec fn view(&self) -> (int, int) {
        (self.d1 as int, self.d2 as int)
    }
}

impl Dice {
    /// Every roll that a program holds has its faces in ascending order.
    #[verifier::type_invariant]
    spec fn in_order(self) -> bool {
        self.d1 <= self.d2
    }

    /// Both faces are faces of a die, and the lower one comes first.
    pub open spec fn wf(self) -> bool {
        1 <= self@.0 <= self@.1 <= SIDES
    }

    /// The roll that `new` makes of `d1` and `d2`.
    pub closed spec fn spec_new(d1: u8, d2: u8) -> Dice {
        if d1 <= d2 {
            Dice { d1, d2 }
        } else {
            Dice { d1: d2, d2: d1 }
        }
    }

    /// The roll that shows `d1` and `d2`, in either order.
    #[verifier::when_used_as_spec(spec_new)]
    pub fn new(d1: u8, d2: u8) -> (dice: Dice)
        ensures
            dice == Dice::spec_new(d1, d2),
            dice@ == ordered(d1 as int, d2 as int),
            dice@.0 <= dice@.1,
    {
        if d1 <= d2 {
            Dice { d1, d2 }
        } else {
            Dice { d1: d2, d2: d1 }
        }
    }

    /// A fresh roll: two faces drawn one after the other from the
    /// generator of the current thread. Which faces is left to chance.
    pub fn roll() -> (dice: Dice)
        ensures
            dice.wf(),
    {
        let mut rng = rand::thread_rng();
        let d1: u8 = sample_below(&mut rng, 1, SIDES + 1);
        let d2: u8 = sample_below(&mut rng, 1, SIDES + 1);
        Dice::new(d1, d2)
    }

    /// The lower face.
    pub fn low(self) -> (face: u8)
        ensures
            face == self@.0,
            face <= self@.1,
    {
        proof {
            use_type_invariant(self);
        }
        self.d1
    }

    /// The higher face.
    pub fn high(self) -> (face: u8)
        ensures
            face == self@.1,
            self@.0 <= face,
    {
        proof {
            use_type_invariant(self);
        }
        self.d2
    }

    /// The sum of the two faces, as a mathematical integer.
    pub open spec fn total(self) -> int {
        self@.0 + self@.1
    }

    /// The sum of the two faces.
    pub fn sum(self) -> (sum: u8)
        requires
            self.wf(),
        ensures
            sum == self.total(),
            2 <= sum <= 12,
    {
        self.d1 + self.d2
    }

    /// The roll after `power` was used on it. `Power::Reroll` puts a fresh
    /// roll in its place, of which only its validity is known; the other two
    /// powers are exact.
    pub fn modify(self, power: Power) -> (dice: Dice)
        ensures
            power == Power::Nothing ==> dice == self,
            power == Power::FlipOne ==> dice@ == flipped(self@),
            power == Power::Reroll ==> dice.wf(),
            self.wf() ==> dice.wf(),
    {
        match power {
            Power::Nothing => self,
            Power::Reroll => Dice::roll(),
            Power::FlipOne => match self.d1 {
                1 | 2 | 3 => Dice::new(FLIPPED_FACE, self.d2),
                _ => self,
            },
        }
    }

    /// What the roll pays on `bet`.
    pub fn gold(self, bet: u8) -> (gold: u8)
        requires
            self.wf(),
        ensures
            gold == payout(self.total(), bet as int),
    {
        if bet <= self.sum() {
            bet
        } else {
            LOSING_GOLD
        }
    }
}

/// A roll is known by its two faces.
pub proof fn lemma_same_faces_same_dice(a: Dice, b: Dice)
    requires
        a@ == b@,
    ensures
        a == b,
{
}

/// The roll made of two faces shows them in ascending order.
pub proof fn lemma_new_faces(d1: u8, d2: u8)
    ensures
        Dice::new(d1, d2)@ == ordered(d1 as int, d2 as int),
        Dice::new(d1, d2)@.0 <= Dice::new(d1, d2)@.1,
        Dice::new(d1, d2).wf() <==> 1 <= d1 <= SIDES && 1 <= d2 <= SIDES,
{
}

/// It does not matter which die shows which face: the roll is the same,
/// and so is its sum, which is the sum of the two faces.
pub proof fn lemma_new_order_invariant(d1: u8, d2: u8)
    ensures
        Dice::new(d1, d2) == Dice::new(d2, d1),
        Dice::new(d1, d2).total() == Dice::new(d2, d1).total(),
        Dice::new(d1, d2).total() == d1 + d2,
{
}

/// A flip makes a valid roll of a valid roll, never lowers its sum, and
/// leaves no roll below 5.
pub proof fn lemma_flipped_valid(dice: Dice, after: Dice)
    requires
        dice.wf(),
        after@ == flipped(dice@),
    ensures
        after.wf(),
        dice.total() <= after.total(),
        5 <= after.total(),
        dice@.0 > 3 ==> after == dice,
{
}

} // verus!
