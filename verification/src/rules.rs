//! The game rules: the three hand signs, the round outcome, and the mapping
//! from a random draw to an opponent's choice.

use vstd::prelude::*;

verus! {

/// One of the three hand signs a player or the opponent can pick.
#[derive(Clone, Copy, PartialEq, Eq, Debug, Structural)]
pub enum Choice {
    Rock,
    Paper,
    Scissors,
}

/// The result of a round, seen from the player's side.
#[derive(Clone, Copy, PartialEq, Eq, Debug, Structural)]
pub enum Outcome {
    Win,
    Lose,
    Draw,
}

/// The complete outcome table: rock beats scissors, scissors beats paper,
/// paper beats rock; identical choices draw.
pub open spec fn spec_battle(player_choice: Choice, ai_choice: Choice) -> Outcome {
    match player_choice {
        Choice::Rock => match ai_choice {
            Choice::Rock => Outcome::Draw,
            Choice::Paper => Outcome::Lose,
            Choice::Scissors => Outcome::Win,
        },
        Choice::Paper => match ai_choice {
            Choice::Rock => Outcome::Win,
            Choice::Paper => Outcome::Draw,
            Choice::Scissors => Outcome::Lose,
        },
        Choice::Scissors => match ai_choice {
            Choice::Rock => Outcome::Lose,
            Choice::Paper => Outcome::Win,
            Choice::Scissors => Outcome::Draw,
        },
    }
}

/// Determine the outcome of a round from the two choices.
pub fn battle(player_choice: &Choice, ai_choice: &Choice) -> (outcome: Outcome)
    ensures
        outcome == spec_battle(*player_choice, *ai_choice),
{
    match player_choice {
        Choice::Rock => {
            match ai_choice {
                Choice::Rock => Outcome::Draw,
                Choice::Paper => Outcome::Lose,
                Choice::Scissors => Outcome::Win,
            }
        },
        Choice::Paper => {
            match ai_choice {
                Choice::Rock => Outcome::Win,
                Choice::Paper => Outcome::Draw,
                Choice::Scissors => Outcome::Lose,
            }
        },
        Choice::Scissors => {
            match ai_choice {
                Choice::Rock => Outcome::Lose,
                Choice::Paper => Outcome::Win,
                Choice::Scissors => Outcome::Draw,
            }
        },
    }
}

/// The outcome relation is anti-symmetric on distinct choices: whenever one
/// side wins, the same pair seen from the other side loses, and a round
/// between distinct choices is never a draw.
pub proof fn lemma_battle_antisymmetric(a: Choice, b: Choice)
    requires
        a != b,
    ensures
        spec_battle(a, b) is Win <==> spec_battle(b, a) is Lose,
        !(spec_battle(a, b) is Draw),
{
}

/// A round is a draw exactly when the two choices are equal.
pub proof fn lemma_battle_draw_iff_equal(a: Choice, b: Choice)
    ensures
        spec_battle(a, b) is Draw <==> a == b,
{
}

/// The mapping from a drawn integer to the opponent's choice.
pub open spec fn spec_random_choice(num: u64) -> Option<Choice> {
    if num == 0 {
        Some(Choice::Rock)
    } else if num == 1 {
        Some(Choice::Paper)
    } else if num == 2 {
        Some(Choice::Scissors)
    } else {
        None
    }
}

/// Map a uniformly drawn integer to a game choice.  The mapping is total on
/// the intended range: every draw below three yields a choice, so no round
/// can end with an undefined opponent pick.
pub fn get_random_choice(num: u64) -> (choice: Option<Choice>)
    ensures
        choice == spec_random_choice(num),
        num < 3 <==> choice is Some,
{
    match num {
        0 => Some(Choice::Rock),
        1 => Some(Choice::Paper),
        2 => Some(Choice::Scissors),
        _ => None,
    }
}

} // verus!
