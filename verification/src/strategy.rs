//! Strategies: which power to use on a roll, and what playing by one brings.

use crate::average::{lemma_sum_of_constant, sum_of, Average};
use crate::dice::{flipped, payout, Dice, Power, LOSING_GOLD};
use crate::outcome::{Outcome, MAX_BET, MIN_BET};
use vstd::prelude::*;

verus! {

/// The faces that show after `power` was used on `faces`, where a reroll
/// brings `fresh`.
pub open spec fn modified(faces: (int, int), power: Power, fresh: (int, int)) -> (int, int) {
    match power {
        Power::Nothing => faces,
        Power::Reroll => fresh,
        Power::FlipOne => flipped(faces),
    }
}

/// A way to decide, from the bet and the roll, which power to use.
pub trait Strategy: Sized {
    /// The power that the strategy uses on `dice` at `bet`.
    spec fn choice(bet: u8, dice: Dice) -> Power;

    /// Decides which power to use on `dice` at `bet`.
    fn choose_power(bet: u8, dice: Dice) -> (power: Power)
        requires
            dice.wf(),
        ensures
            power == Self::choice(bet, dice),
    ;
}

/// What one trial pays on `bet` to a player of strategy `S` who rolls `dice`
/// and for whom a reroll brings `fresh`.
pub open spec fn trial<S: Strategy>(bet: u8, dice: Dice, fresh: Dice) -> int {
    let faces = modified(dice@, S::choice(bet, dice), fresh@);
    payout(faces.0 + faces.1, bet as int)
}

/// `gold` is what some trial pays on `bet` to a player of strategy `S`.
pub open spec fn is_outcome<S: Strategy>(bet: u8, gold: u8) -> bool {
    exists|dice: Dice, fresh: Dice|
        dice.wf() && fresh.wf() && gold == #[trigger] trial::<S>(bet, dice, fresh)
}

/// Every one of `samples` is what some trial pays on `bet` to a player of
/// strategy `S`.
pub open spec fn are_outcomes<S: Strategy>(bet: u8, samples: Seq<u8>) -> bool {
    forall|i: int| 0 <= i < samples.len() ==> is_outcome::<S>(bet, #[trigger] samples[i])
}

/// Playing by a strategy. Every strategy can be played, and in this one way.
pub trait Play: Strategy {
    /// Plays the roll `dice` at `bet`: uses the power of the strategy's
    /// choice on it and takes the gold. But for a reroll the gold is known
    /// from `bet` and `dice`.
    fn play(bet: u8, dice: Dice) -> (gold: u8)
        requires
            dice.wf(),
        ensures
            Self::choice(bet, dice) != Power::Reroll ==> gold == trial::<Self>(bet, dice, dice),
            exists|fresh: Dice| fresh.wf() && gold == #[trigger] trial::<Self>(bet, dice, fresh),
    {
        let power = Self::choose_power(bet, dice);
        let after = dice.modify(power);
        let gold = after.gold(bet);
        assert(gold == trial::<Self>(bet, dice, after));
        gold
    }

    /// One trial at `bet`: a fresh roll, played.
    fn outcome(bet: u8) -> (gold: u8)
        ensures
            is_outcome::<Self>(bet, gold),
    {
        let dice = Dice::roll();
        Self::play(bet, dice)
    }

    /// Runs `trials` trials at each bet from `MIN_BET` to `MAX_BET` and
    /// averages what they pay.
    fn avg_outcome(trials: u64) -> (outcome: Outcome)
        ensures
            outcome.wf(),
            forall|bet: int|
                MIN_BET <= bet <= MAX_BET ==> {
                    &&& (#[trigger] outcome.samples(bet)).len() == trials
                    &&& are_outcomes::<Self>(bet as u8, outcome.samples(bet))
                },
    {
        let mut rows: Vec<Average> = Vec::new();
        let mut bet: u8 = MIN_BET;
        while bet <= MAX_BET
            invariant
                MIN_BET <= bet <= MAX_BET + 1,
                rows@.len() == bet - MIN_BET,
                forall|row: int|
                    0 <= row < rows@.len() ==> {
                        &&& (#[trigger] rows@[row])@.len() == trials
                        &&& are_outcomes::<Self>((MIN_BET + row) as u8, rows@[row]@)
                    },
            decreases MAX_BET + 1 - bet,
        {
            let mut average = Average::new();
            let mut done: u64 = 0;
            while done < trials
                invariant
                    done <= trials,
                    average@.len() == done,
                    are_outcomes::<Self>(bet, average@),
                decreases trials - done,
            {
                let gold = Self::outcome(bet);
                average.push(gold);
                done = done + 1;
            }
            rows.push(average);
            bet = bet + 1;
        }
        let outcome = Outcome::new(rows);
        assert forall|bet: int| MIN_BET <= bet <= MAX_BET implies {
            &&& (#[trigger] outcome.samples(bet)).len() == trials
            &&& are_outcomes::<Self>(bet as u8, outcome.samples(bet))
        } by {
            assert(outcome.samples(bet) == rows@[bet - MIN_BET]@);
        }
        outcome
    }
}

impl<S: Strategy> Play for S {

}

/// Never uses a power.
pub struct NoPower();

impl Strategy for NoPower {
    open spec fn choice(bet: u8, dice: Dice) -> Power {
        Power::Nothing
    }

    fn choose_power(_bet: u8, _dice: Dice) -> (power: Power) {
        Power::Nothing
    }
}

/// Rolls again whenever the roll does not reach the bet.
pub struct RerollIfLosing();

impl Strategy for RerollIfLosing {
    open spec fn choice(bet: u8, dice: Dice) -> Power {
        if dice.total() < bet {
            Power::Reroll
        } else {
            Power::Nothing
        }
    }

    fn choose_power(bet: u8, dice: Dice) -> (power: Power) {
        if dice.sum() < bet {
            Power::Reroll
        } else {
            Power::Nothing
        }
    }
}

/// Flips on every roll, whatever the bet.
pub struct AlwaysFlip();

impl Strategy for AlwaysFlip {
    open spec fn choice(bet: u8, dice: Dice) -> Power {
        Power::FlipOne
    }

    fn choose_power(_bet: u8, _dice: Dice) -> (power: Power) {
        Power::FlipOne
    }
}

/// Keeps a roll that reaches the bet; flips where the flip reaches it; rolls
/// again where neither does. The flip is tried before the reroll.
pub struct RerollIfLosingOrFlip();

impl Strategy for RerollIfLosingOrFlip {
    open spec fn choice(bet: u8, dice: Dice) -> Power {
        if bet <= dice.total() {
            Power::Nothing
        } else if bet <= flipped(dice@).0 + flipped(dice@).1 {
            Power::FlipOne
        } else {
            Power::Reroll
        }
    }

    fn choose_power(bet: u8, dice: Dice) -> (power: Power) {
        if bet <= dice.sum() {
            Power::Nothing
        } else if bet <= dice.modify(Power::FlipOne).sum() {
            Power::FlipOne
        } else {
            Power::Reroll
        }
    }
}

/// A trial pays the bet or the losing gold, whatever the strategy.
pub proof fn lemma_outcome_is_bet_or_loss<S: Strategy>(bet: u8, gold: u8)
    requires
        is_outcome::<S>(bet, gold),
    ensures
        gold == bet || gold == LOSING_GOLD,
{
}

/// A bet that no roll can miss is paid in every trial, whatever the
/// strategy: both dice show 1 at least.
pub proof fn lemma_sure_bet<S: Strategy>(bet: u8, gold: u8)
    requires
        bet <= 2,
        is_outcome::<S>(bet, gold),
    ensures
        gold == bet,
{
    let (dice, fresh) = choose|dice: Dice, fresh: Dice|
        dice.wf() && fresh.wf() && gold == #[trigger] trial::<S>(bet, dice, fresh);
    assert(gold == trial::<S>(bet, dice, fresh));
}

/// A bet that no roll can reach is lost in every trial, whatever the
/// strategy: both dice show 6 at most.
pub proof fn lemma_hopeless_bet<S: Strategy>(bet: u8, gold: u8)
    requires
        bet > 12,
        is_outcome::<S>(bet, gold),
    ensures
        gold == LOSING_GOLD,
{
    let (dice, fresh) = choose|dice: Dice, fresh: Dice|
        dice.wf() && fresh.wf() && gold == #[trigger] trial::<S>(bet, dice, fresh);
    assert(gold == trial::<S>(bet, dice, fresh));
}

/// At the lowest bet the samples of a run sum to twice their number,
/// whatever the strategy: the average there is 2 exactly.
pub proof fn lemma_lowest_bet_average<S: Strategy>(samples: Seq<u8>)
    requires
        are_outcomes::<S>(MIN_BET, samples),
    ensures
        sum_of(samples) == 2 * samples.len(),
{
    assert forall|i: int| 0 <= i < samples.len() implies samples[i] == 2u8 by {
        lemma_sure_bet::<S>(MIN_BET, samples[i]);
    }
    lemma_sum_of_constant(samples, 2);
}

/// `RerollIfLosingOrFlip` flips just where the roll misses the bet and the
/// flipped roll reaches it, and rolls again just where both miss it. So
/// wherever it does not roll again, the trial pays the bet.
pub proof fn lemma_flip_before_reroll(bet: u8, dice: Dice, fresh: Dice)
    requires
        dice.wf(),
    ensures
        RerollIfLosingOrFlip::choice(bet, dice) == Power::FlipOne <==> dice.total() < bet
            <= flipped(dice@).0 + flipped(dice@).1,
        RerollIfLosingOrFlip::choice(bet, dice) == Power::Reroll <==> flipped(dice@).0 + flipped(
            dice@,
        ).1 < bet,
        RerollIfLosingOrFlip::choice(bet, dice) != Power::Reroll ==> trial::<RerollIfLosingOrFlip>(
            bet,
            dice,
            fresh,
        ) == bet,
{
}

} // verus!
