//! The game controller: a single-threaded state machine driven by user
//! clicks and timer expirations.
//!
//! Every transition is a pure step from the current controller value and an
//! incoming [`Event`] to the next controller value and an ordered list of
//! [`Effect`]s; the host runtime applies the effects and feeds the next
//! event back in.  The whole transition relation is written down once, as
//! [`spec_step`], and the executable [`GameController::step`] is proved to
//! follow it exactly.

use vstd::prelude::*;
use crate::effects::{Effect, Target, TextPayload, TimerId, STATE_TRANSITION_TIME};
use crate::rules::{battle, spec_battle, Choice, Outcome};

verus! {

/// The mutually exclusive top-level states of the game.
#[derive(Clone, Copy, PartialEq, Eq, Debug, Structural)]
pub enum GameState {
    /// The opening menu; only the play-start action leads out of it.
    Menu,
    /// A round is open for input, or a reveal is pending.
    Play,
    /// The round ended and the player won.
    Win,
    /// The round ended and the player lost.
    Lose,
    /// The round ended in a draw.
    Draw,
}

/// Whether the three choice buttons accept input.
#[derive(Clone, Copy, PartialEq, Eq, Debug, Structural)]
pub enum ButtonState {
    Disabled,
    Enabled,
}

/// An external stimulus the controller reacts to: a click on one of the
/// bound buttons, or the expiration of one of the two single-shot timers.
/// The reveal timer carries the opponent's drawn choice, which the host
/// obtains from [`crate::rules::get_random_choice`].
#[derive(Clone, Copy, PartialEq, Eq, Debug, Structural)]
pub enum Event {
    /// The menu's start button was clicked.
    PlayClick,
    /// One of the three choice buttons was clicked.
    ChoiceClick(Choice),
    /// The reveal timer fired; the opponent's choice was drawn.
    RevealTimer(Choice),
    /// The outcome timer fired.
    OutcomeTimer,
    /// The play-again button was clicked.
    AgainClick,
}

/// The controller's whole state: the active game state, the derived button
/// state, the player's captured choice while a reveal is pending, and the
/// round's outcome while it is being revealed.
#[derive(Clone, Copy, PartialEq, Eq, Debug)]
pub struct GameController {
    /// The active game state.
    pub state: GameState,
    /// Whether the choice buttons currently accept input.
    pub buttons: ButtonState,
    /// The player's choice, captured from the click until the reveal timer
    /// fires.
    pub pending_choice: Option<Choice>,
    /// The outcome of the round that is currently being revealed.
    pub last_outcome: Option<Outcome>,
}

/// The game state a round's outcome leads to.
pub open spec fn spec_outcome_state(outcome: Outcome) -> GameState {
    match outcome {
        Outcome::Win => GameState::Win,
        Outcome::Lose => GameState::Lose,
        Outcome::Draw => GameState::Draw,
    }
}

/// Map a round's outcome to the game state it leads to.
pub fn get_outcome_state(outcome: &Outcome) -> (state: GameState)
    ensures
        state == spec_outcome_state(*outcome),
{
    match outcome {
        Outcome::Win => GameState::Win,
        Outcome::Lose => GameState::Lose,
        Outcome::Draw => GameState::Draw,
    }
}

/// The effects that set all three choice buttons to the given state.
pub open spec fn spec_button_effects(state: ButtonState) -> Seq<Effect> {
    match state {
        ButtonState::Disabled => seq![
            Effect::Disable(Target::RockButton),
            Effect::Disable(Target::PaperButton),
            Effect::Disable(Target::ScissorsButton),
        ],
        ButtonState::Enabled => seq![
            Effect::Enable(Target::RockButton),
            Effect::Enable(Target::PaperButton),
            Effect::Enable(Target::ScissorsButton),
        ],
    }
}

/// The effects of entering the menu state.
pub open spec fn spec_menu_effects() -> Seq<Effect> {
    seq![Effect::ShowAll(Target::MenuRegion)]
}

/// The effects of entering the play state: show the play panel and enable
/// input.
pub open spec fn spec_play_effects() -> Seq<Effect> {
    seq![Effect::ShowAll(Target::PlayRegion)] + spec_button_effects(ButtonState::Enabled)
}

/// The effects of entering an outcome state: hide the play panel, show the
/// glyphs, write the banner text and schedule the outcome reveal.
pub open spec fn spec_outcome_entry_effects(outcome: Outcome) -> Seq<Effect> {
    seq![
        Effect::HideAll(Target::PlayRegion),
        Effect::ShowAll(Target::AllImages),
        Effect::SetText(Target::ResultHeading, TextPayload::OutcomeBanner(outcome)),
        Effect::Schedule(TimerId::Outcome, STATE_TRANSITION_TIME),
    ]
}

/// The effects of entering a game state.
pub open spec fn spec_state_effects(state: GameState) -> Seq<Effect> {
    match state {
        GameState::Menu => spec_menu_effects(),
        GameState::Play => spec_play_effects(),
        GameState::Win => spec_outcome_entry_effects(Outcome::Win),
        GameState::Lose => spec_outcome_entry_effects(Outcome::Lose),
        GameState::Draw => spec_outcome_entry_effects(Outcome::Draw),
    }
}

/// The effects of leaving the menu for the play state.
pub open spec fn spec_menu_to_play_effects() -> Seq<Effect> {
    seq![Effect::HideAll(Target::MenuRegion)] + spec_state_effects(GameState::Play)
}

/// The effects of a choice click: disable input at once, then schedule the
/// reveal.
pub open spec fn spec_choice_click_effects() -> Seq<Effect> {
    spec_button_effects(ButtonState::Disabled)
        + seq![Effect::Schedule(TimerId::Reveal, STATE_TRANSITION_TIME)]
}

/// The effects of the reveal: show both choices (glyph, picture and name),
/// then enter the outcome state the battle decides.
pub open spec fn spec_reveal_effects(player_choice: Choice, ai_choice: Choice) -> Seq<Effect> {
    seq![
        Effect::SetText(Target::PlayerImage, TextPayload::ChoiceGlyph(player_choice)),
        Effect::SetText(Target::AiImage, TextPayload::ChoiceGlyph(ai_choice)),
        Effect::SetImage(Target::PlayerPicture, player_choice),
        Effect::SetImage(Target::AiPicture, ai_choice),
        Effect::SetText(Target::PlayerText, TextPayload::ChoiceName(player_choice)),
        Effect::SetText(Target::AiText, TextPayload::ChoiceName(ai_choice)),
        Effect::ShowAll(Target::AllTexts),
    ] + spec_state_effects(spec_outcome_state(spec_battle(player_choice, ai_choice)))
}

/// The effects of the outcome reveal: show the outcome panel and the result
/// banner, and write the two result glyphs.
pub open spec fn spec_outcome_reveal_effects(outcome: Outcome) -> Seq<Effect> {
    seq![
        Effect::ShowAll(Target::OutcomeRegion),
        Effect::ShowAll(Target::ResultRegion),
        Effect::SetText(Target::PlayerImage, TextPayload::PlayerResultGlyph(outcome)),
        Effect::SetText(Target::AiImage, TextPayload::AiResultGlyph(outcome)),
    ]
}

/// The effects of the play-again click: hide the round's texts, glyphs and
/// outcome panels, reset both pictures to the rock default, and re-enter the
/// play state.
pub open spec fn spec_again_effects() -> Seq<Effect> {
    seq![
        Effect::HideAll(Target::AllTexts),
        Effect::HideAll(Target::AllImages),
        Effect::HideAll(Target::OutcomeRegion),
        Effect::HideAll(Target::ResultRegion),
        Effect::SetImage(Target::PlayerPicture, Choice::Rock),
        Effect::SetImage(Target::AiPicture, Choice::Rock),
    ] + spec_state_effects(GameState::Play)
}

/// The controller's initial value: the menu, with input disabled.
pub open spec fn spec_init() -> GameController {
    GameController {
        state: GameState::Menu,
        buttons: ButtonState::Disabled,
        pending_choice: None,
        last_outcome: None,
    }
}

/// The complete transition relation.  An event that is not reachable in the
/// current state (a click on a disabled or hidden button, a stray timer)
/// leaves the controller unchanged and produces no effect.
pub open spec fn spec_step(s: GameController, event: Event) -> (GameController, Seq<Effect>) {
    match event {
        Event::PlayClick => {
            if s.state is Menu {
                (
                    (GameController {
                        state: GameState::Play,
                        buttons: ButtonState::Enabled,
                        pending_choice: None,
                        last_outcome: None,
                    }),
                    spec_menu_to_play_effects(),
                )
            } else {
                (s, Seq::<Effect>::empty())
            }
        },
        Event::ChoiceClick(c) => {
            if s.state is Play && s.buttons is Enabled {
                (
                    (GameController {
                        state: GameState::Play,
                        buttons: ButtonState::Disabled,
                        pending_choice: Some(c),
                        last_outcome: s.last_outcome,
                    }),
                    spec_choice_click_effects(),
                )
            } else {
                (s, Seq::<Effect>::empty())
            }
        },
        Event::RevealTimer(ai_choice) => {
            match s.pending_choice {
                Some(player_choice) => {
                    if s.state is Play {
                        let outcome = spec_battle(player_choice, ai_choice);
                        (
                            (GameController {
                                state: spec_outcome_state(outcome),
                                buttons: ButtonState::Disabled,
                                pending_choice: None,
                                last_outcome: Some(outcome),
                            }),
                            spec_reveal_effects(player_choice, ai_choice),
                        )
                    } else {
                        (s, Seq::<Effect>::empty())
                    }
                },
                None => (s, Seq::<Effect>::empty()),
            }
        },
        Event::OutcomeTimer => {
            match s.last_outcome {
                Some(outcome) => (s, spec_outcome_reveal_effects(outcome)),
                None => (s, Seq::<Effect>::empty()),
            }
        },
        Event::AgainClick => {
            if s.state is Win || s.state is Lose || s.state is Draw {
                (
                    (GameController {
                        state: GameState::Play,
                        buttons: ButtonState::Enabled,
                        pending_choice: None,
                        last_outcome: None,
                    }),
                    spec_again_effects(),
                )
            } else {
                (s, Seq::<Effect>::empty())
            }
        },
    }
}

/// Set all three choice buttons to the given state.
pub fn update_button_disabled_state(state: &ButtonState) -> (effects: Vec<Effect>)
    ensures
        effects@ == spec_button_effects(*state),
{
    let mut effects: Vec<Effect> = Vec::new();
    match state {
        ButtonState::Disabled => {
            effects.push(Effect::Disable(Target::RockButton));
            effects.push(Effect::Disable(Target::PaperButton));
            effects.push(Effect::Disable(Target::ScissorsButton));
        },
        ButtonState::Enabled => {
            effects.push(Effect::Enable(Target::RockButton));
            effects.push(Effect::Enable(Target::PaperButton));
            effects.push(Effect::Enable(Target::ScissorsButton));
        },
    }
    proof {
        assert(effects@ =~= spec_button_effects(*state));
    }
    effects
}

/// The effects of entering the menu state.
pub fn init_menu_state() -> (effects: Vec<Effect>)
    ensures
        effects@ == spec_menu_effects(),
{
    let mut effects: Vec<Effect> = Vec::new();
    effects.push(Effect::ShowAll(Target::MenuRegion));
    proof {
        assert(effects@ =~= spec_menu_effects());
    }
    effects
}

/// The effects of entering the play state.
pub fn init_play_state() -> (effects: Vec<Effect>)
    ensures
        effects@ == spec_play_effects(),
{
    let mut effects: Vec<Effect> = Vec::new();
    effects.push(Effect::ShowAll(Target::PlayRegion));
    let mut buttons = update_button_disabled_state(&ButtonState::Enabled);
    effects.append(&mut buttons);
    proof {
        assert(effects@ =~= spec_play_effects());
    }
    effects
}

/// The effects of entering an outcome state.
pub fn init_outcome_state(outcome: &Outcome) -> (effects: Vec<Effect>)
    ensures
        effects@ == spec_outcome_entry_effects(*outcome),
{
    let mut effects: Vec<Effect> = Vec::new();
    effects.push(Effect::HideAll(Target::PlayRegion));
    effects.push(Effect::ShowAll(Target::AllImages));
    effects.push(Effect::SetText(Target::ResultHeading, TextPayload::OutcomeBanner(*outcome)));
    effects.push(Effect::Schedule(TimerId::Outcome, STATE_TRANSITION_TIME));
    proof {
        assert(effects@ =~= spec_outcome_entry_effects(*outcome));
    }
    effects
}

/// The effects of entering a game state.
pub fn change_state(state: &GameState) -> (effects: Vec<Effect>)
    ensures
        effects@ == spec_state_effects(*state),
{
    match state {
        GameState::Menu => init_menu_state(),
        GameState::Play => init_play_state(),
        GameState::Win => init_outcome_state(&Outcome::Win),
        GameState::Lose => init_outcome_state(&Outcome::Lose),
        GameState::Draw => init_outcome_state(&Outcome::Draw),
    }
}

impl GameController {
    /// The controller is well formed: the buttons accept input exactly when
    /// a round is open and no reveal is pending, a pending choice exists
    /// only during play, and a stored outcome exists exactly in the matching
    /// outcome state.
    pub open spec fn wf(self) -> bool {
        &&& (self.buttons is Enabled <==> (self.state is Play && self.pending_choice is None))
        &&& (self.pending_choice is Some ==> self.state is Play)
        &&& (self.state is Menu ==> self.last_outcome is None)
        &&& (self.state is Play ==> self.last_outcome is None)
        &&& (self.state is Win ==> self.last_outcome == Some(Outcome::Win))
        &&& (self.state is Lose ==> self.last_outcome == Some(Outcome::Lose))
        &&& (self.state is Draw ==> self.last_outcome == Some(Outcome::Draw))
    }

    /// Build the controller in the menu state, together with the effects
    /// that first render the menu.
    pub fn new() -> (r: (GameController, Vec<Effect>))
        ensures
            r.0 == spec_init(),
            r.0.wf(),
            r.1@ == spec_state_effects(GameState::Menu),
    {
        let controller = GameController {
            state: GameState::Menu,
            buttons: ButtonState::Disabled,
            pending_choice: None,
            last_outcome: None,
        };
        let effects = change_state(&GameState::Menu);
        (controller, effects)
    }

    /// Handle a click on a choice button while input is open: disable all
    /// three buttons at once, capture the choice, and schedule the reveal.
    pub fn play(&mut self, player_choice: &Choice) -> (effects: Vec<Effect>)
        requires
            old(self).wf(),
            old(self).state is Play,
            old(self).buttons is Enabled,
        ensures
            *final(self) == (GameController {
                state: GameState::Play,
                buttons: ButtonState::Disabled,
                pending_choice: Some(*player_choice),
                last_outcome: old(self).last_outcome,
            }),
            final(self).wf(),
            effects@ == spec_choice_click_effects(),
    {
        self.buttons = ButtonState::Disabled;
        self.pending_choice = Some(*player_choice);
        let mut effects = update_button_disabled_state(&ButtonState::Disabled);
        effects.push(Effect::Schedule(TimerId::Reveal, STATE_TRANSITION_TIME));
        proof {
            assert(effects@ =~= spec_choice_click_effects());
        }
        effects
    }

    /// Advance the machine by one event.  The new controller value and the
    /// produced effects are exactly those of [`spec_step`].
    pub fn step(&mut self, event: &Event) -> (effects: Vec<Effect>)
        requires
            old(self).wf(),
        ensures
            *final(self) == spec_step(*old(self), *event).0,
            effects@ == spec_step(*old(self), *event).1,
            final(self).wf(),
    {
        match event {
            Event::PlayClick => {
                match self.state {
                    GameState::Menu => {
                        self.state = GameState::Play;
                        self.buttons = ButtonState::Enabled;
                        let mut effects: Vec<Effect> = Vec::new();
                        effects.push(Effect::HideAll(Target::MenuRegion));
                        let mut entry = change_state(&GameState::Play);
                        effects.append(&mut entry);
                        proof {
                            assert(effects@ =~= spec_menu_to_play_effects());
                        }
                        effects
                    },
                    _ => Vec::new(),
                }
            },
            Event::ChoiceClick(c) => {
                match self.state {
                    GameState::Play => {
                        match self.buttons {
                            ButtonState::Enabled => self.play(c),
                            ButtonState::Disabled => Vec::new(),
                        }
                    },
                    _ => Vec::new(),
                }
            },
            Event::RevealTimer(ai_choice) => {
                match self.pending_choice {
                    Some(player_choice) => {
                        match self.state {
                            GameState::Play => {
                                let outcome = battle(&player_choice, ai_choice);
                                let next = get_outcome_state(&outcome);
                                self.state = next;
                                self.buttons = ButtonState::Disabled;
                                self.pending_choice = None;
                                self.last_outcome = Some(outcome);
                                let mut effects: Vec<Effect> = Vec::new();
                                effects.push(Effect::SetText(
                                    Target::PlayerImage,
                                    TextPayload::ChoiceGlyph(player_choice),
                                ));
                                effects.push(Effect::SetText(
                                    Target::AiImage,
                                    TextPayload::ChoiceGlyph(*ai_choice),
                                ));
                                effects.push(Effect::SetImage(Target::PlayerPicture, player_choice));
                                effects.push(Effect::SetImage(Target::AiPicture, *ai_choice));
                                effects.push(Effect::SetText(
                                    Target::PlayerText,
                                    TextPayload::ChoiceName(player_choice),
                                ));
                                effects.push(Effect::SetText(
                                    Target::AiText,
                                    TextPayload::ChoiceName(*ai_choice),
                                ));
                                effects.push(Effect::ShowAll(Target::AllTexts));
                                let mut entry = change_state(&next);
                                effects.append(&mut entry);
                                proof {
                                    assert(effects@ =~= spec_reveal_effects(player_choice, *ai_choice));
                                }
                                effects
                            },
                            _ => Vec::new(),
                        }
                    },
                    None => Vec::new(),
                }
            },
            Event::OutcomeTimer => {
                match self.last_outcome {
                    Some(outcome) => {
                        let mut effects: Vec<Effect> = Vec::new();
                        effects.push(Effect::ShowAll(Target::OutcomeRegion));
                        effects.push(Effect::ShowAll(Target::ResultRegion));
                        effects.push(Effect::SetText(
                            Target::PlayerImage,
                            TextPayload::PlayerResultGlyph(outcome),
                        ));
                        effects.push(Effect::SetText(
                            Target::AiImage,
                            TextPayload::AiResultGlyph(outcome),
                        ));
                        proof {
                            assert(effects@ =~= spec_outcome_reveal_effects(outcome));
                        }
                        effects
                    },
                    None => Vec::new(),
                }
            },
            Event::AgainClick => {
                match self.state {
                    GameState::Win | GameState::Lose | GameState::Draw => {
                        self.state = GameState::Play;
                        self.buttons = ButtonState::Enabled;
                        self.pending_choice = None;
                        self.last_outcome = None;
                        let mut effects: Vec<Effect> = Vec::new();
                        effects.push(Effect::HideAll(Target::AllTexts));
                        effects.push(Effect::HideAll(Target::AllImages));
                        effects.push(Effect::HideAll(Target::OutcomeRegion));
                        effects.push(Effect::HideAll(Target::ResultRegion));
                        effects.push(Effect::SetImage(Target::PlayerPicture, Choice::Rock));
                        effects.push(Effect::SetImage(Target::AiPicture, Choice::Rock));
                        let mut entry = change_state(&GameState::Play);
                        effects.append(&mut entry);
                        proof {
                            assert(effects@ =~= spec_again_effects());
                        }
                        effects
                    },
                    _ => Vec::new(),
                }
            },
        }
    }
}

/// Well-formedness is an invariant of the machine: every step from a well
/// formed controller yields a well formed controller.
pub proof fn lemma_step_preserves_wf(s: GameController, event: Event)
    requires
        s.wf(),
    ensures
        spec_step(s, event).0.wf(),
{
}

/// From the menu, only the play-start action is reachable: the choice
/// buttons are disabled, every other event leaves the controller unchanged
/// with no effect, and the play state can only be entered by the play-start
/// click.
pub proof fn lemma_menu_only_play(s: GameController, event: Event)
    requires
        s.wf(),
        s.state is Menu,
    ensures
        s.buttons is Disabled,
        !(event is PlayClick) ==> spec_step(s, event).0 == s
            && spec_step(s, event).1 =~= Seq::<Effect>::empty(),
        spec_step(s, event).0.state is Play ==> event is PlayClick,
{
}

/// The choice buttons are disabled in every state but an open play round:
/// until the play state is entered, and while a reveal is pending, no choice
/// click gets through.
pub proof fn lemma_buttons_disabled_outside_open_play(s: GameController)
    requires
        s.wf(),
    ensures
        !(s.state is Play && s.pending_choice is None) ==> s.buttons is Disabled,
{
}

/// Immediately after a choice click in an open play round, all three choice
/// buttons are disabled: the very first effects disable them, no effect
/// re-enables them, and the reveal timer is only scheduled after the
/// disabling, so a second click can never reach the machine before the
/// reveal.
pub proof fn lemma_choice_click_disables(s: GameController, c: Choice)
    requires
        s.wf(),
        s.state is Play,
        s.buttons is Enabled,
    ensures
        ({
            let r = spec_step(s, Event::ChoiceClick(c));
            &&& r.0.buttons is Disabled
            &&& r.0.pending_choice == Some(c)
            &&& r.1 =~= spec_choice_click_effects()
            &&& r.1[0] == Effect::Disable(Target::RockButton)
            &&& r.1[1] == Effect::Disable(Target::PaperButton)
            &&& r.1[2] == Effect::Disable(Target::ScissorsButton)
            &&& r.1[3] == Effect::Schedule(TimerId::Reveal, STATE_TRANSITION_TIME)
            &&& forall|i: int| 0 <= i < r.1.len() ==> !(r.1[i] is Enable)
        }),
{
}

} // verus!
