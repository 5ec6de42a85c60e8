use dice_bet::dice::{Dice, Power};
use dice_bet::strategy::{AlwaysFlip, NoPower, Play, RerollIfLosing, RerollIfLosingOrFlip, Strategy};

#[test]
fn no_power_never_uses_a_power() {
    for bet in 0..=255u8 {
        for d1 in 1..=6u8 {
            for d2 in 1..=6u8 {
                assert_eq!(NoPower::choose_power(bet, Dice::new(d1, d2)), Power::Nothing);
            }
        }
    }
}

#[test]
fn always_flip_flips_whatever_the_bet() {
    for bet in 0..=255u8 {
        for d1 in 1..=6u8 {
            for d2 in 1..=6u8 {
                assert_eq!(AlwaysFlip::choose_power(bet, Dice::new(d1, d2)), Power::FlipOne);
            }
        }
    }
}

#[test]
fn reroll_if_losing_rerolls_a_losing_roll() {
    assert_eq!(RerollIfLosing::choose_power(7, Dice::new(2, 3)), Power::Reroll);
    assert_eq!(RerollIfLosing::choose_power(7, Dice::new(3, 3)), Power::Reroll);
    assert_eq!(RerollIfLosing::choose_power(12, Dice::new(5, 6)), Power::Reroll);
}

#[test]
fn reroll_if_losing_keeps_a_winning_roll() {
    assert_eq!(RerollIfLosing::choose_power(7, Dice::new(3, 4)), Power::Nothing);
    assert_eq!(RerollIfLosing::choose_power(7, Dice::new(6, 6)), Power::Nothing);
    assert_eq!(RerollIfLosing::choose_power(2, Dice::new(1, 1)), Power::Nothing);
}

#[test]
fn reroll_if_losing_on_every_roll() {
    for bet in 2..=12u8 {
        for d1 in 1..=6u8 {
            for d2 in 1..=6u8 {
                let power = RerollIfLosing::choose_power(bet, Dice::new(d1, d2));
                if d1 + d2 < bet {
                    assert_eq!(power, Power::Reroll);
                } else {
                    assert_eq!(power, Power::Nothing);
                }
            }
        }
    }
}

#[test]
fn reroll_if_losing_or_flip_prefers_the_flip() {
    assert_eq!(RerollIfLosingOrFlip::choose_power(7, Dice::new(2, 3)), Power::FlipOne);
}

#[test]
fn reroll_if_losing_or_flip_keeps_a_winning_roll() {
    assert_eq!(RerollIfLosingOrFlip::choose_power(5, Dice::new(2, 3)), Power::Nothing);
    assert_eq!(RerollIfLosingOrFlip::choose_power(7, Dice::new(1, 6)), Power::Nothing);
}

#[test]
fn reroll_if_losing_or_flip_rerolls_where_the_flip_loses_too() {
    // Flipped, 2 and 3 show 3 and 4, which sum to 7.
    assert_eq!(RerollIfLosingOrFlip::choose_power(8, Dice::new(2, 3)), Power::Reroll);
    // Nothing is flipped where the lower die shows 4 or more.
    assert_eq!(RerollIfLosingOrFlip::choose_power(10, Dice::new(4, 5)), Power::Reroll);
    assert_eq!(RerollIfLosingOrFlip::choose_power(12, Dice::new(1, 6)), Power::Reroll);
}

#[test]
fn reroll_if_losing_or_flip_on_every_roll() {
    for bet in 2..=12u8 {
        for d1 in 1..=6u8 {
            for d2 in d1..=6u8 {
                let flipped_sum = if d1 <= 3 { 4 + d2 } else { d1 + d2 };
                let power = RerollIfLosingOrFlip::choose_power(bet, Dice::new(d1, d2));
                if bet <= d1 + d2 {
                    assert_eq!(power, Power::Nothing);
                } else if bet <= flipped_sum {
                    assert_eq!(power, Power::FlipOne);
                } else {
                    assert_eq!(power, Power::Reroll);
                }
            }
        }
    }
}

#[test]
fn play_without_a_power_pays_the_roll_as_it_lies() {
    assert_eq!(NoPower::play(7, Dice::new(3, 4)), 7);
    assert_eq!(NoPower::play(7, Dice::new(2, 3)), 2);
    assert_eq!(NoPower::play(12, Dice::new(6, 6)), 12);
    assert_eq!(NoPower::play(2, Dice::new(1, 1)), 2);
}

#[test]
fn play_with_a_flip_pays_the_flipped_roll() {
    assert_eq!(AlwaysFlip::play(7, Dice::new(2, 3)), 7);
    assert_eq!(AlwaysFlip::play(8, Dice::new(2, 3)), 2);
    assert_eq!(AlwaysFlip::play(5, Dice::new(1, 1)), 5);
    assert_eq!(AlwaysFlip::play(6, Dice::new(1, 1)), 2);
    assert_eq!(AlwaysFlip::play(10, Dice::new(4, 6)), 10);
    assert_eq!(AlwaysFlip::play(11, Dice::new(4, 6)), 2);
}

#[test]
fn play_pays_the_bet_where_the_flip_wins() {
    assert_eq!(RerollIfLosingOrFlip::play(7, Dice::new(2, 3)), 7);
    assert_eq!(RerollIfLosingOrFlip::play(10, Dice::new(1, 6)), 10);
    assert_eq!(RerollIfLosingOrFlip::play(5, Dice::new(2, 3)), 5);
}

#[test]
fn play_keeps_a_winning_roll_under_reroll_if_losing() {
    for bet in 2..=12u8 {
        for d1 in 1..=6u8 {
            for d2 in 1..=6u8 {
                if bet <= d1 + d2 {
                    assert_eq!(RerollIfLosing::play(bet, Dice::new(d1, d2)), bet);
                }
            }
        }
    }
}

#[test]
fn play_pays_the_bet_or_two_after_a_reroll() {
    let mut won = false;
    let mut lost = false;
    for _ in 0..2_000 {
        let gold = RerollIfLosing::play(7, Dice::new(1, 1));
        assert!(gold == 7 || gold == 2);
        won = won || gold == 7;
        lost = lost || gold == 2;
    }
    // The roll is lost as it lies, so a win shows that the dice were rolled again.
    assert!(won);
    assert!(lost);
}

#[test]
fn outcome_pays_the_bet_or_two() {
    for bet in 2..=12u8 {
        for _ in 0..500 {
            let gold = NoPower::outcome(bet);
            assert!(gold == bet || gold == 2);
            let gold = RerollIfLosing::outcome(bet);
            assert!(gold == bet || gold == 2);
            let gold = AlwaysFlip::outcome(bet);
            assert!(gold == bet || gold == 2);
            let gold = RerollIfLosingOrFlip::outcome(bet);
            assert!(gold == bet || gold == 2);
        }
    }
}

#[test]
fn outcome_at_the_lowest_bet_is_always_two() {
    for _ in 0..2_000 {
        assert_eq!(NoPower::outcome(2), 2);
        assert_eq!(RerollIfLosing::outcome(2), 2);
        assert_eq!(AlwaysFlip::outcome(2), 2);
        assert_eq!(RerollIfLosingOrFlip::outcome(2), 2);
    }
}

#[test]
fn outcome_of_a_bet_out_of_reach_is_always_two() {
    for _ in 0..2_000 {
        assert_eq!(NoPower::outcome(13), 2);
        assert_eq!(RerollIfLosing::outcome(13), 2);
        assert_eq!(AlwaysFlip::outcome(13), 2);
        assert_eq!(RerollIfLosingOrFlip::outcome(13), 2);
    }
}

#[test]
fn outcome_with_a_flip_never_loses_a_bet_of_five() {
    for bet in 2..=5u8 {
        for _ in 0..2_000 {
            assert_eq!(AlwaysFlip::outcome(bet), bet);
        }
    }
}
