//! The UI effects a transition produces, and the selector contract that ties
//! each effect target to the host markup.
//!
//! The controller never touches the document itself: every transition returns
//! a list of [`Effect`] values, and the host runtime applies them in order —
//! toggling the `disabled` and `hidden` attributes, writing text and image
//! attributes, and scheduling single-shot timers.

use vstd::prelude::*;
use crate::display;
use crate::rules::{Choice, Outcome};

verus! {

/// Both reveal delays are this many milliseconds; the pacing is deliberate
/// and not configurable.
pub const STATE_TRANSITION_TIME: u32 = 2000;

/// A named element (or element group) of the host markup.  The exact CSS
/// selector of each target is given by [`get_selector`].
#[derive(Clone, Copy, PartialEq, Eq, Debug, Structural)]
pub enum Target {
    /// The rock choice button.
    RockButton,
    /// The paper choice button.
    PaperButton,
    /// The scissors choice button.
    ScissorsButton,
    /// The play-again button.
    AgainButton,
    /// The menu's start button.
    PlayButton,
    /// The outcome panel.
    OutcomeRegion,
    /// The play panel.
    PlayRegion,
    /// The menu panel.
    MenuRegion,
    /// The player's glyph element.
    PlayerImage,
    /// The player's `img` element.
    PlayerPicture,
    /// The opponent's glyph element.
    AiImage,
    /// The opponent's `img` element.
    AiPicture,
    /// Every glyph element.
    AllImages,
    /// The player's text label.
    PlayerText,
    /// The opponent's text label.
    AiText,
    /// Every text label.
    AllTexts,
    /// The result banner panel.
    ResultRegion,
    /// The heading inside the result banner.
    ResultHeading,
}

/// The text written into an element, given by what it shows rather than by
/// its literal characters; [`resolve_text`] yields the exact string.
#[derive(Clone, Copy, PartialEq, Eq, Debug, Structural)]
pub enum TextPayload {
    /// The displayed name of a choice.
    ChoiceName(Choice),
    /// The glyph of a choice.
    ChoiceGlyph(Choice),
    /// The banner text of an outcome.
    OutcomeBanner(Outcome),
    /// The player-side result glyph of an outcome.
    PlayerResultGlyph(Outcome),
    /// The opponent-side result glyph of an outcome.
    AiResultGlyph(Outcome),
}

/// Which single-shot timer a transition schedules.
#[derive(Clone, Copy, PartialEq, Eq, Debug, Structural)]
pub enum TimerId {
    /// Fires to reveal the two choices and decide the round.
    Reveal,
    /// Fires to reveal the outcome banner and the result glyphs.
    Outcome,
}

/// One observable UI side effect of a transition.
#[derive(Clone, Copy, PartialEq, Eq, Debug, Structural)]
pub enum Effect {
    /// Set the `disabled` attribute on the target.
    Disable(Target),
    /// Remove the `disabled` attribute from the target.
    Enable(Target),
    /// Set the `hidden` attribute on every element the target matches.
    HideAll(Target),
    /// Remove the `hidden` attribute from every element the target matches.
    ShowAll(Target),
    /// Write the payload's text into the target.
    SetText(Target, TextPayload),
    /// Write the choice's image source and alternative text into the target.
    SetImage(Target, Choice),
    /// Schedule the timer to fire once after the given delay in milliseconds.
    Schedule(TimerId, u32),
}

/// The CSS selector of each target, part of the markup contract.
pub open spec fn spec_selector(target: Target) -> Seq<char> {
    match target {
        Target::RockButton => "#rock"@,
        Target::PaperButton => "#paper"@,
        Target::ScissorsButton => "#scissors"@,
        Target::AgainButton => "#again"@,
        Target::PlayButton => "#play"@,
        Target::OutcomeRegion => ".ui__outcome"@,
        Target::PlayRegion => ".ui__play"@,
        Target::MenuRegion => ".ui__menu"@,
        Target::PlayerImage => ".game__element--player .game__element__image"@,
        Target::PlayerPicture => ".game__element--player img"@,
        Target::AiImage => ".game__element--ai .game__element__image"@,
        Target::AiPicture => ".game__element--ai img"@,
        Target::AllImages => ".game__element__image"@,
        Target::PlayerText => ".game__element--player .game__element__text"@,
        Target::AiText => ".game__element--ai .game__element__text"@,
        Target::AllTexts => ".game__element__text"@,
        Target::ResultRegion => ".ui__result"@,
        Target::ResultHeading => ".ui__result h2"@,
    }
}

/// Get the CSS selector a target stands for in the host markup.
pub fn get_selector(target: &Target) -> (selector: String)
    ensures
        selector@ == spec_selector(*target),
{
    match target {
        Target::RockButton => String::from_str("#rock"),
        Target::PaperButton => String::from_str("#paper"),
        Target::ScissorsButton => String::from_str("#scissors"),
        Target::AgainButton => String::from_str("#again"),
        Target::PlayButton => String::from_str("#play"),
        Target::OutcomeRegion => String::from_str(".ui__outcome"),
        Target::PlayRegion => String::from_str(".ui__play"),
        Target::MenuRegion => String::from_str(".ui__menu"),
        Target::PlayerImage => String::from_str(".game__element--player .game__element__image"),
        Target::PlayerPicture => String::from_str(".game__element--player img"),
        Target::AiImage => String::from_str(".game__element--ai .game__element__image"),
        Target::AiPicture => String::from_str(".game__element--ai img"),
        Target::AllImages => String::from_str(".game__element__image"),
        Target::PlayerText => String::from_str(".game__element--player .game__element__text"),
        Target::AiText => String::from_str(".game__element--ai .game__element__text"),
        Target::AllTexts => String::from_str(".game__element__text"),
        Target::ResultRegion => String::from_str(".ui__result"),
        Target::ResultHeading => String::from_str(".ui__result h2"),
    }
}

/// The exact characters a text payload stands for.
pub open spec fn spec_resolve_text(payload: TextPayload) -> Seq<char> {
    match payload {
        TextPayload::ChoiceName(c) => display::spec_choice_name(c),
        TextPayload::ChoiceGlyph(c) => display::spec_choice_glyph(c),
        TextPayload::OutcomeBanner(o) => display::spec_outcome_text(o),
        TextPayload::PlayerResultGlyph(o) => display::spec_player_result_glyph(o),
        TextPayload::AiResultGlyph(o) => display::spec_ai_result_glyph(o),
    }
}

/// Resolve a text payload to the exact string the UI shows.
pub fn resolve_text(payload: &TextPayload) -> (text: String)
    ensures
        text@ == spec_resolve_text(*payload),
{
    match payload {
        TextPayload::ChoiceName(c) => display::get_choice(c),
        TextPayload::ChoiceGlyph(c) => display::get_choice_image(c),
        TextPayload::OutcomeBanner(o) => display::get_outcome(o),
        TextPayload::PlayerResultGlyph(o) => display::get_player_result_image(o),
        TextPayload::AiResultGlyph(o) => display::get_ai_result_image(o),
    }
}

} // verus!
