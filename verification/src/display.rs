//! The display payloads: the exact strings the UI shows for each choice and
//! each outcome — names, glyphs, the banner text, and the image attributes.

use vstd::prelude::*;
use crate::rules::{Choice, Outcome};

verus! {

/// The displayed name of a choice.
pub open spec fn spec_choice_name(choice: Choice) -> Seq<char> {
    match choice {
        Choice::Rock => "Rock"@,
        Choice::Paper => "Paper"@,
        Choice::Scissors => "Scissors"@,
    }
}

/// Convert the game choice into its corresponding display name.
pub fn get_choice(choice: &Choice) -> (name: String)
    ensures
        name@ == spec_choice_name(*choice),
{
    match choice {
        Choice::Rock => String::from_str("Rock"),
        Choice::Paper => String::from_str("Paper"),
        Choice::Scissors => String::from_str("Scissors"),
    }
}

/// The glyph shown for a choice.
pub open spec fn spec_choice_glyph(choice: Choice) -> Seq<char> {
    match choice {
        Choice::Rock => "✊"@,
        Choice::Paper => "🤚"@,
        Choice::Scissors => "✌"@,
    }
}

/// Get the glyph shown for a choice.
pub fn get_choice_image(choice: &Choice) -> (glyph: String)
    ensures
        glyph@ == spec_choice_glyph(*choice),
{
    match choice {
        Choice::Rock => String::from_str("✊"),
        Choice::Paper => String::from_str("🤚"),
        Choice::Scissors => String::from_str("✌"),
    }
}

/// The banner text announcing an outcome.
pub open spec fn spec_outcome_text(outcome: Outcome) -> Seq<char> {
    match outcome {
        Outcome::Win => "You win!"@,
        Outcome::Lose => "You lose!"@,
        Outcome::Draw => "It's a draw!"@,
    }
}

/// Convert the outcome to its corresponding banner text.
pub fn get_outcome(outcome: &Outcome) -> (text: String)
    ensures
        text@ == spec_outcome_text(*outcome),
{
    match outcome {
        Outcome::Win => String::from_str("You win!"),
        Outcome::Lose => String::from_str("You lose!"),
        Outcome::Draw => String::from_str("It's a draw!"),
    }
}

/// The result glyph shown on the player's side for an outcome.
pub open spec fn spec_player_result_glyph(outcome: Outcome) -> Seq<char> {
    match outcome {
        Outcome::Win => "👍"@,
        Outcome::Lose => "👎"@,
        Outcome::Draw => "🖐"@,
    }
}

/// The result glyph shown on the opponent's side for an outcome: the
/// opponent's thumb points the other way on a win or a loss.
pub open spec fn spec_ai_result_glyph(outcome: Outcome) -> Seq<char> {
    match outcome {
        Outcome::Win => "👎"@,
        Outcome::Lose => "👍"@,
        Outcome::Draw => "🖐"@,
    }
}

/// Get the result glyph shown on the player's side.
pub fn get_player_result_image(outcome: &Outcome) -> (glyph: String)
    ensures
        glyph@ == spec_player_result_glyph(*outcome),
{
    match outcome {
        Outcome::Win => String::from_str("👍"),
        Outcome::Lose => String::from_str("👎"),
        Outcome::Draw => String::from_str("🖐"),
    }
}

/// Get the result glyph shown on the opponent's side.
pub fn get_ai_result_image(outcome: &Outcome) -> (glyph: String)
    ensures
        glyph@ == spec_ai_result_glyph(*outcome),
{
    match outcome {
        Outcome::Win => String::from_str("👎"),
        Outcome::Lose => String::from_str("👍"),
        Outcome::Draw => String::from_str("🖐"),
    }
}

/// The image file shown for a choice.
pub open spec fn spec_image_source(choice: Choice) -> Seq<char> {
    match choice {
        Choice::Rock => "rock-500.png"@,
        Choice::Paper => "paper-500.png"@,
        Choice::Scissors => "scissors-500.png"@,
    }
}

/// The descriptive alternative text of a choice's image.
pub open spec fn spec_image_alt(choice: Choice) -> Seq<char> {
    match choice {
        Choice::Rock => "A hand doing a rock sign"@,
        Choice::Paper => "A hand doing a paper sign"@,
        Choice::Scissors => "A hand doing a scissors sign"@,
    }
}

/// Get the image file shown for a choice.
pub fn get_image_source(choice: &Choice) -> (src: String)
    ensures
        src@ == spec_image_source(*choice),
{
    match choice {
        Choice::Rock => String::from_str("rock-500.png"),
        Choice::Paper => String::from_str("paper-500.png"),
        Choice::Scissors => String::from_str("scissors-500.png"),
    }
}

/// Get the descriptive alternative text of a choice's image.
pub fn get_image_alt(choice: &Choice) -> (alt: String)
    ensures
        alt@ == spec_image_alt(*choice),
{
    match choice {
        Choice::Rock => String::from_str("A hand doing a rock sign"),
        Choice::Paper => String::from_str("A hand doing a paper sign"),
        Choice::Scissors => String::from_str("A hand doing a scissors sign"),
    }
}

} // verus!
