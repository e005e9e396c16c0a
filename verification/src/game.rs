//! The engine: the status on screen, the session in play, the pending sound
//! and the settings, with the operations that drive the game.

use crate::draw::{draw_question, is_draw};
use crate::model::{is_question, EngineView};
use crate::rules::{
    option_count, passing_score, question_count, questions_in_level, time_limit, BOSS_LEVEL,
};
use crate::settings::{default_settings, GameSettings};
use crate::state::{
    lemma_pool_distinct, pool, texts, GameStatus, GameVariant, SessionState, SessionView,
    SoundEvent,
};
use crate::text::{correction_message, eq_ignoring_case, praise_message, time_is_up_message};
use vstd::prelude::*;

verus! {

/// The game: one instance per running game, driven by its shell.
pub struct GameEngine {
    /// The screen to render.
    pub status: GameStatus,
    /// The play-through, while there is one.
    pub session: Option<SessionState>,
    /// The sound that waits to be played. A new one replaces it.
    pub last_sound: SoundEvent,
    /// The preferences in force.
    pub settings: GameSettings,
}

impl View for GameEngine {
    type V = EngineView;

    open spec fn view(&self) -> EngineView {
        EngineView {
            status: self.status@,
            session: match self.session {
                Some(session) => Some(session@),
                None => None,
            },
            last_sound: self.last_sound@,
            settings: self.settings,
        }
    }
}

impl Default for GameEngine {
    fn default() -> (engine: Self)
        ensures
            engine@ == EngineView::initial(default_settings()),
            engine@.coherent(),
    {
        Self::new()
    }
}

impl GameEngine {
    /// An engine at rest with the default settings.
    pub fn new() -> (engine: Self)
        ensures
            engine@ == EngineView::initial(default_settings()),
            engine@.coherent(),
    {
        GameEngine {
            status: GameStatus::Menu,
            session: None,
            last_sound: SoundEvent::Silent,
            settings: GameSettings::default(),
        }
    }

    /// An engine at rest with the given settings.
    pub fn new_with_settings(settings: GameSettings) -> (engine: Self)
        ensures
            engine@ == EngineView::initial(settings),
            engine@.coherent(),
    {
        GameEngine {
            status: GameStatus::Menu,
            session: None,
            last_sound: SoundEvent::Silent,
            settings,
        }
    }

    /// Sets the number of questions of the session to that of its level.
    pub fn setup_level_properties(session: &mut SessionState)
        ensures
            final(session)@ == (SessionView {
                total_questions: questions_in_level(old(session)@.current_level),
                ..old(session)@
            }),
    {
        session.total_questions = question_count(session.current_level);
    }

    /// Puts a new question to the session: a random target out of the pool of
    /// its variant and, with it, as many distinct random items of the pool as
    /// its level offers, in random order. The cursor returns to the first
    /// option and the clock of the level starts anew. Nothing else changes.
    pub fn generate_level_question(session: &mut SessionState)
        ensures
            final(session)@ == old(session)@.asks(final(session)@.question()),
            is_question(
                old(session).variant,
                old(session)@.current_level,
                final(session)@.question(),
            ),
    {
        let count = option_count(session.current_level);
        session.level_time_limit = time_limit(session.current_level);
        session.level_elapsed_time = 0;

        let items = session.variant.item_pool();
        proof {
            lemma_pool_distinct(session.variant);
        }
        let drawn = draw_question(items.len(), count);
        let target = items[drawn.target].clone();
        let mut options: Vec<String> = Vec::new();
        let mut at: usize = 0;
        while at < drawn.options.len()
            invariant
                at <= drawn.options@.len(),
                options@.len() == at,
                is_draw(drawn.target as int, drawn.options@, items@.len() as int, count as int),
                forall|i: int|
                    0 <= i < at ==> (#[trigger] options@[i])@ == items@[drawn.options@[i] as int]@,
            decreases drawn.options@.len() - at,
        {
            options.push(items[drawn.options[at]].clone());
            at += 1;
        }
        proof {
            let shown = texts(options@);
            let all = texts(items@);
            assert forall|i: int| 0 <= i < shown.len() implies shown[i] == all[drawn.options@[i] as int]
                && all.contains(#[trigger] shown[i]) by {}
            assert forall|i: int, j: int|
                0 <= i < shown.len() && 0 <= j < shown.len() && i != j implies shown[i]
                != shown[j] by {
                assert(drawn.options@[i] != drawn.options@[j]);
            }
            let k = choose|k: int| 0 <= k < drawn.options@.len() && drawn.options@[k] == drawn.target;
            assert(shown[k] == target@);
        }
        session.target = target;
        session.options = options;
        session.selected_index = 0;
    }

    /// Goes on after an answer. The question just dealt with is counted. If
    /// the level has questions left, a new one is drawn and played. If not,
    /// the level ends: a passed boss level ends the session with the score of
    /// the level added to the total, and any other level shows its summary.
    /// Without a session nothing happens.
    pub fn next_level(&mut self)
        requires
            old(self)@.next_level_fits(),
        ensures
            final(self)@ == old(self)@.next_level(final(self)@.question()),
            old(self)@.next_level_draws() ==> is_question(
                old(self)@.session.unwrap().variant,
                old(self)@.session.unwrap().current_level,
                final(self)@.question(),
            ),
            old(self)@.coherent() && old(self)@.status is Feedback ==> final(self)@.coherent(),
    {
        if let Some(session) = &mut self.session {
            session.current_question_index += 1;

            if session.current_question_index >= session.total_questions {
                let passed = session.score >= passing_score(session.total_questions);

                if passed && session.current_level >= BOSS_LEVEL {
                    session.total_score += session.score;
                    self.status = GameStatus::SessionComplete { score: session.total_score };
                    self.last_sound = SoundEvent::LevelComplete;
                } else {
                    self.status = GameStatus::LevelComplete {
                        level: session.current_level,
                        score: session.score,
                        passed,
                    };
                    self.last_sound = if passed {
                        SoundEvent::LevelComplete
                    } else {
                        SoundEvent::PlayFailure
                    };
                }
            } else {
                Self::generate_level_question(session);
                self.status = GameStatus::Playing;
                self.last_sound = SoundEvent::SayPrompt(session.target.clone());
            }
        }
    }

    /// Starts a new game on `variant` at the level that the settings name:
    /// a fresh session with no score, its first question drawn and played.
    /// A session in play is replaced.
    pub fn start_game(&mut self, variant: GameVariant)
        ensures
            final(self)@ == old(self)@.start_game(variant, final(self)@.question()),
            is_question(variant, old(self).settings.start_level as nat, final(self)@.question()),
            final(self)@.coherent(),
    {
        let mut session = SessionState {
            variant,
            current_level: self.settings.start_level,
            current_question_index: 0,
            total_questions: 5,
            score: 0,
            total_score: 0,
            target: String::new(),
            options: Vec::new(),
            selected_index: 0,
            level_time_limit: None,
            level_elapsed_time: 0,
        };

        Self::setup_level_properties(&mut session);
        Self::generate_level_question(&mut session);
        let prompt = session.target.clone();
        self.session = Some(session);
        self.status = GameStatus::Playing;
        self.last_sound = SoundEvent::SayPrompt(prompt);
    }

    /// Leaves the summary of a level. A passed level adds its score to the
    /// total; if it was a boss level the session ends there, else the next
    /// level begins. A failed level begins again. In any other status, or
    /// without a session, nothing happens.
    pub fn advance_to_next_level_or_retry(&mut self)
        requires
            old(self)@.advance_fits(),
        ensures
            final(self)@ == old(self)@.advance_to_next_level_or_retry(final(self)@.question()),
            old(self)@.advance_draws() ==> is_question(
                final(self)@.session.unwrap().variant,
                final(self)@.session.unwrap().current_level,
                final(self)@.question(),
            ),
            old(self)@.coherent() ==> final(self)@.coherent(),
    {
        if let GameStatus::LevelComplete { passed, level, .. } = self.status {
            if let Some(session) = &mut self.session {
                if passed {
                    session.total_score += session.score;

                    if level >= BOSS_LEVEL {
                        self.status = GameStatus::SessionComplete { score: session.total_score };
                        self.last_sound = SoundEvent::LevelComplete;
                        return ;
                    }
                    session.current_level += 1;
                }
                session.current_question_index = 0;
                session.score = 0;
                session.level_elapsed_time = 0;
                Self::setup_level_properties(session);

                Self::generate_level_question(session);
                self.status = GameStatus::Playing;
                self.last_sound = SoundEvent::SayPrompt(session.target.clone());
            }
        }
    }

    /// Lets `elapsed_seconds` pass. While a question is live on a level with
    /// a time limit, they are added to the time of the level, and once that
    /// time reaches the limit the question is failed. Otherwise nothing
    /// happens.
    pub fn tick(&mut self, elapsed_seconds: u64)
        requires
            old(self)@.tick_fits(elapsed_seconds as nat),
        ensures
            final(self)@ == old(self)@.tick(elapsed_seconds as nat),
            old(self)@.coherent() ==> final(self)@.coherent(),
    {
        if let GameStatus::Playing = self.status {
            if let Some(session) = &mut self.session {
                if let Some(limit) = session.level_time_limit {
                    session.level_elapsed_time += elapsed_seconds;
                    if session.level_elapsed_time >= limit {
                        self.status = GameStatus::Feedback {
                            success: false,
                            message: time_is_up_message(),
                        };
                        self.last_sound = SoundEvent::PlayFailure;
                    }
                }
            }
        }
    }

    /// Moves the cursor by `delta` options, wrapping round at both ends.
    /// Without a session, or without options, nothing happens.
    pub fn move_selection(&mut self, delta: i32)
        ensures
            final(self)@ == old(self)@.move_selection(delta as int),
            old(self)@.coherent() ==> final(self)@.coherent(),
    {
        if let Some(session) = &mut self.session {
            let length = session.options.len();
            if length == 0 {
                return ;
            }
            let sum: i128 = session.selected_index as i128 + delta as i128;
            proof {
                vstd::arithmetic::div_mod::lemma_mod_bound(sum as int, length as int);
            }
            if let Some(index) = sum.checked_rem_euclid(length as i128) {
                session.selected_index = index as usize;
            }
        }
    }

    /// Gives the option under the cursor as the answer. Without a session,
    /// or with the cursor off the options, nothing happens.
    pub fn submit_current_selection(&mut self)
        requires
            old(self)@.selection_fits(),
        ensures
            final(self)@ == old(self)@.submit_current_selection(),
            old(self)@.coherent() && old(self)@.status is Playing ==> final(self)@.coherent(),
    {
        let mut choice: Option<String> = None;
        if let Some(session) = &self.session {
            if session.selected_index < session.options.len() {
                choice = Some(session.options[session.selected_index].clone());
            }
        }
        if let Some(text) = choice {
            self.submit_answer(text.as_str());
        }
    }

    /// Takes the answer `input`. If it names the target, the case of ASCII
    /// letters set aside, the score goes up by one and the answer is praised;
    /// if not, the target is named. The question is not counted yet. Without
    /// a session nothing happens.
    pub fn submit_answer(&mut self, input: &str)
        requires
            old(self)@.answer_fits(input@),
        ensures
            final(self)@ == old(self)@.submit_answer(input@),
            old(self)@.coherent() && old(self)@.status is Playing ==> final(self)@.coherent(),
    {
        if let Some(session) = &mut self.session {
            if eq_ignoring_case(input, session.target.as_str()) {
                session.score += 1;
                self.status = GameStatus::Feedback {
                    success: true,
                    message: praise_message(input),
                };
                self.last_sound = SoundEvent::PlaySuccess;
            } else {
                self.status = GameStatus::Feedback {
                    success: false,
                    message: correction_message(session.target.as_str()),
                };
                self.last_sound = SoundEvent::PlayFailure;
            }
        }
    }

    /// Tells whether every counter of the session can take one more level's
    /// worth. Where it can, every operation but `tick` may be called.
    pub fn counters_fit(&self) -> (fit: bool)
        ensures
            fit == self@.counters_fit(),
    {
        match &self.session {
            Some(session) => session.score < u32::MAX && session.current_question_index
                < u32::MAX && session.current_level < u32::MAX && session.score <= u32::MAX
                - session.total_score,
            None => true,
        }
    }

    /// Tells whether `tick` may be called with `elapsed_seconds`.
    pub fn tick_fits(&self, elapsed_seconds: u64) -> (fit: bool)
        ensures
            fit == self@.tick_fits(elapsed_seconds as nat),
    {
        if let GameStatus::Playing = self.status {
            if let Some(session) = &self.session {
                if session.level_time_limit.is_some() {
                    return elapsed_seconds <= u64::MAX - session.level_elapsed_time;
                }
            }
        }
        true
    }

    /// Takes the pending sound, so that it is heard once: it is returned, and
    /// nothing is pending any more.
    pub fn consume_sound(&mut self) -> (sound: SoundEvent)
        ensures
            sound@ == old(self)@.last_sound,
            final(self)@ == old(self)@.consume_sound(),
            old(self)@.coherent() ==> final(self)@.coherent(),
    {
        let mut sound = SoundEvent::Silent;
        std::mem::swap(&mut self.last_sound, &mut sound);
        sound
    }

    /// Shows the about screen. Nothing else changes.
    pub fn go_to_about(&mut self)
        ensures
            final(self)@ == old(self)@.go_to_about(),
            old(self)@.coherent() && old(self)@.session is None ==> final(self)@.coherent(),
    {
        self.status = GameStatus::About;
    }
}

} // verus!
