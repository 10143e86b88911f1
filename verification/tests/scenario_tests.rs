use std::collections::{HashMap, HashSet};

use rock_paper_scissors::controller::{ButtonState, Event, GameController, GameState};
use rock_paper_scissors::effects::{get_selector, resolve_text, Effect, Target, TimerId};
use rock_paper_scissors::rules::{get_random_choice, Choice};

/// A fake document and clock: attributes, texts and hidden flags are kept
/// per selector, and scheduled timers fire when the clock is advanced past
/// their deadline.  The opponent's draw is forced to a fixed value.
struct FakeUi {
    attrs: HashMap<(String, String), String>,
    texts: HashMap<String, String>,
    hidden: HashSet<String>,
    timers: Vec<(u64, TimerId)>,
    clock: u64,
    forced_draw: u64,
}

impl FakeUi {
    fn new(forced_draw: u64) -> FakeUi {
        FakeUi {
            attrs: HashMap::new(),
            texts: HashMap::new(),
            hidden: HashSet::new(),
            timers: Vec::new(),
            clock: 0,
            forced_draw,
        }
    }

    fn apply(&mut self, effects: Vec<Effect>) {
        for effect in effects {
            match effect {
                Effect::Disable(t) => {
                    self.attrs.insert(
                        (get_selector(&t), String::from("disabled")),
                        String::from("true"),
                    );
                }
                Effect::Enable(t) => {
                    self.attrs.remove(&(get_selector(&t), String::from("disabled")));
                }
                Effect::HideAll(t) => {
                    self.hidden.insert(get_selector(&t));
                }
                Effect::ShowAll(t) => {
                    self.hidden.remove(&get_selector(&t));
                }
                Effect::SetText(t, payload) => {
                    self.texts.insert(get_selector(&t), resolve_text(&payload));
                }
                Effect::SetImage(t, choice) => {
                    let src = rock_paper_scissors::display::get_image_source(&choice);
                    let alt = rock_paper_scissors::display::get_image_alt(&choice);
                    self.attrs.insert((get_selector(&t), String::from("src")), src);
                    self.attrs.insert((get_selector(&t), String::from("alt")), alt);
                }
                Effect::Schedule(timer, delay) => {
                    self.timers.push((self.clock + u64::from(delay), timer));
                }
            }
        }
    }

    /// Advance the fake clock and feed every due timer back into the
    /// controller, applying the effects each firing produces.
    fn advance(&mut self, controller: &mut GameController, ms: u64) {
        self.clock += ms;
        loop {
            let due = self
                .timers
                .iter()
                .position(|(deadline, _)| *deadline <= self.clock);
            let Some(index) = due else {
                break;
            };
            let (_, timer) = self.timers.remove(index);
            let event = match timer {
                TimerId::Reveal => {
                    let ai = get_random_choice(self.forced_draw)
                        .expect("the forced draw must map to a choice");
                    Event::RevealTimer(ai)
                }
                TimerId::Outcome => Event::OutcomeTimer,
            };
            let effects = controller.step(&event);
            self.apply(effects);
        }
    }

    fn click(&mut self, controller: &mut GameController, event: Event) {
        let effects = controller.step(&event);
        self.apply(effects);
    }

    fn is_disabled(&self, target: Target) -> bool {
        self.attrs
            .get(&(get_selector(&target), String::from("disabled")))
            .is_some()
    }

    fn is_hidden(&self, target: Target) -> bool {
        self.hidden.contains(&get_selector(&target))
    }

    fn text_of(&self, target: Target) -> &str {
        self.texts
            .get(&get_selector(&target))
            .map(|s| s.as_str())
            .unwrap_or("")
    }

    fn attr_of(&self, target: Target, name: &str) -> &str {
        self.attrs
            .get(&(get_selector(&target), String::from(name)))
            .map(|s| s.as_str())
            .unwrap_or("")
    }
}

/// Build a game that sits in the menu state, with the menu rendered.
fn game_at_menu(forced_draw: u64) -> (FakeUi, GameController) {
    let mut ui = FakeUi::new(forced_draw);
    let (controller, effects) = GameController::new();
    ui.apply(effects);
    (ui, controller)
}

#[test]
fn initial_state_is_menu_with_input_disabled() {
    let (_ui, controller) = game_at_menu(0);
    assert_eq!(controller.state, GameState::Menu);
    assert_eq!(controller.buttons, ButtonState::Disabled);
    assert_eq!(controller.pending_choice, None);
    assert_eq!(controller.last_outcome, None);
}

#[test]
fn from_menu_only_the_play_start_action_is_reachable() {
    let (mut ui, mut controller) = game_at_menu(0);
    let before = controller;
    // None of the other actions moves the machine or touches the UI.
    for event in [
        Event::ChoiceClick(Choice::Rock),
        Event::ChoiceClick(Choice::Paper),
        Event::ChoiceClick(Choice::Scissors),
        Event::AgainClick,
        Event::OutcomeTimer,
        Event::RevealTimer(Choice::Rock),
    ] {
        let effects = controller.step(&event);
        assert!(effects.is_empty());
        assert_eq!(controller, before);
    }
    // The play-start action is the one way out of the menu.
    ui.click(&mut controller, Event::PlayClick);
    assert_eq!(controller.state, GameState::Play);
    assert_eq!(controller.buttons, ButtonState::Enabled);
    assert!(ui.is_hidden(Target::MenuRegion));
    assert!(!ui.is_hidden(Target::PlayRegion));
}

#[test]
fn choice_buttons_stay_disabled_until_play_is_entered() {
    // The menu render never touches the buttons: no effect enables them,
    // and the controller reports them disabled.
    let (controller, effects) = GameController::new();
    assert_eq!(controller.buttons, ButtonState::Disabled);
    for effect in &effects {
        assert!(!matches!(effect, Effect::Enable(_)));
    }
    let (mut ui, mut controller) = game_at_menu(0);
    ui.click(&mut controller, Event::PlayClick);
    assert!(!ui.is_disabled(Target::RockButton));
    assert!(!ui.is_disabled(Target::PaperButton));
    assert!(!ui.is_disabled(Target::ScissorsButton));
}

#[test]
fn choice_click_disables_all_buttons_before_the_reveal() {
    let (mut ui, mut controller) = game_at_menu(0);
    ui.click(&mut controller, Event::PlayClick);
    let effects = controller.step(&Event::ChoiceClick(Choice::Rock));
    // Disabling comes first, the reveal timer last.
    assert_eq!(effects[0], Effect::Disable(Target::RockButton));
    assert_eq!(effects[1], Effect::Disable(Target::PaperButton));
    assert_eq!(effects[2], Effect::Disable(Target::ScissorsButton));
    assert_eq!(effects[3], Effect::Schedule(TimerId::Reveal, 2000));
    assert_eq!(effects.len(), 4);
    ui.apply(effects);
    // Before the reveal timer fires, all three buttons report disabled.
    assert!(ui.is_disabled(Target::RockButton));
    assert!(ui.is_disabled(Target::PaperButton));
    assert!(ui.is_disabled(Target::ScissorsButton));
    assert_eq!(controller.buttons, ButtonState::Disabled);
    // A second click while the reveal is pending does nothing.
    let second = controller.step(&Event::ChoiceClick(Choice::Paper));
    assert!(second.is_empty());
    assert_eq!(controller.pending_choice, Some(Choice::Rock));
}

#[test]
fn rock_against_forced_scissors_wins_end_to_end() {
    // The forced draw 2 maps to scissors.
    let (mut ui, mut controller) = game_at_menu(2);
    ui.click(&mut controller, Event::PlayClick);
    ui.click(&mut controller, Event::ChoiceClick(Choice::Rock));
    ui.advance(&mut controller, 2000);
    assert_eq!(ui.text_of(Target::ResultHeading), "You win!");
    assert_eq!(ui.text_of(Target::PlayerImage), "✊");
    assert_eq!(ui.text_of(Target::AiImage), "✌");
    assert_eq!(ui.text_of(Target::PlayerText), "Rock");
    assert_eq!(ui.text_of(Target::AiText), "Scissors");
    assert_eq!(controller.state, GameState::Win);
    ui.advance(&mut controller, 2000);
    assert_eq!(ui.text_of(Target::PlayerImage), "👍");
    assert_eq!(ui.text_of(Target::AiImage), "👎");
    assert!(!ui.is_hidden(Target::OutcomeRegion));
    assert!(!ui.is_hidden(Target::ResultRegion));
}

#[test]
fn rock_against_forced_paper_loses_end_to_end() {
    // The forced draw 1 maps to paper.
    let (mut ui, mut controller) = game_at_menu(1);
    ui.click(&mut controller, Event::PlayClick);
    ui.click(&mut controller, Event::ChoiceClick(Choice::Rock));
    ui.advance(&mut controller, 2000);
    assert_eq!(ui.text_of(Target::ResultHeading), "You lose!");
    assert_eq!(controller.state, GameState::Lose);
    ui.advance(&mut controller, 2000);
    assert_eq!(ui.text_of(Target::PlayerImage), "👎");
    assert_eq!(ui.text_of(Target::AiImage), "👍");
}

#[test]
fn play_again_resets_the_round() {
    let (mut ui, mut controller) = game_at_menu(2);
    ui.click(&mut controller, Event::PlayClick);
    ui.click(&mut controller, Event::ChoiceClick(Choice::Scissors));
    ui.advance(&mut controller, 4000);
    assert_eq!(controller.state, GameState::Draw);
    ui.click(&mut controller, Event::AgainClick);
    // The outcome panels and the round's texts and glyphs are hidden, the
    // play panel is visible, input is open again and both pictures are back
    // at the rock default.
    assert!(ui.is_hidden(Target::OutcomeRegion));
    assert!(ui.is_hidden(Target::ResultRegion));
    assert!(ui.is_hidden(Target::AllTexts));
    assert!(ui.is_hidden(Target::AllImages));
    assert!(!ui.is_hidden(Target::PlayRegion));
    assert!(!ui.is_disabled(Target::RockButton));
    assert!(!ui.is_disabled(Target::PaperButton));
    assert!(!ui.is_disabled(Target::ScissorsButton));
    assert_eq!(controller.state, GameState::Play);
    assert_eq!(controller.buttons, ButtonState::Enabled);
    assert_eq!(ui.attr_of(Target::PlayerPicture, "src"), "rock-500.png");
    assert_eq!(ui.attr_of(Target::AiPicture, "src"), "rock-500.png");
    assert_eq!(ui.attr_of(Target::PlayerPicture, "alt"), "A hand doing a rock sign");
}

#[test]
fn stray_timers_after_reset_do_nothing() {
    let (mut ui, mut controller) = game_at_menu(0);
    ui.click(&mut controller, Event::PlayClick);
    let before = controller;
    let effects = controller.step(&Event::OutcomeTimer);
    assert!(effects.is_empty());
    assert_eq!(controller, before);
    let effects = controller.step(&Event::RevealTimer(Choice::Paper));
    assert!(effects.is_empty());
    assert_eq!(controller, before);
}
