//! The state machine in mathematical terms: the engine as a value, and each
//! operation as a function from the state before it to the state after it.
//! Where an operation draws a new question, the question drawn is an argument
//! of that function, so that everything else is determined.

use crate::rules::{
    is_boss_level, moved_index, options_in_level, passes, questions_in_level, time_limit_of_level,
};
use crate::settings::GameSettings;
use crate::state::{pool, GameVariant, SessionView, SoundView, StatusView};
use crate::text::{correction, praise, same_ignoring_case, time_is_up};
use vstd::prelude::*;

verus! {

/// A question: the item to identify and the items on offer.
pub struct QuestionView {
    pub target: Seq<char>,
    pub options: Seq<Seq<char>>,
}

/// The engine as a value.
pub struct EngineView {
    pub status: StatusView,
    pub session: Option<SessionView>,
    pub last_sound: SoundView,
    pub settings: GameSettings,
}

/// Whether `question` may be asked at `level` of a session on `variant`: the
/// options are items of the variant's pool, none twice, the target is one of
/// them, and there are as many as the level offers (all of the pool, where
/// the pool has fewer).
pub open spec fn is_question(variant: GameVariant, level: nat, question: QuestionView) -> bool {
    &&& question.options.no_duplicates()
    &&& question.options.contains(question.target)
    &&& question.options.len() == if options_in_level(level) <= pool(variant).len() {
        options_in_level(level)
    } else {
        pool(variant).len()
    }
    &&& forall|i: int|
        0 <= i < question.options.len() ==> pool(variant).contains(#[trigger] question.options[i])
}

impl SessionView {
    /// The question that the session holds.
    pub open spec fn question(self) -> QuestionView {
        QuestionView { target: self.target, options: self.options }
    }

    /// The session once `question` has been put to it: the cursor is on the
    /// first option and the clock of the level starts anew.
    pub open spec fn asks(self, question: QuestionView) -> SessionView {
        SessionView {
            target: question.target,
            options: question.options,
            selected_index: 0,
            level_time_limit: time_limit_of_level(self.current_level),
            level_elapsed_time: 0,
            ..self
        }
    }

    /// The session as a game on `variant` begins at `level`, before its first
    /// question is put.
    pub open spec fn begun(variant: GameVariant, level: nat) -> SessionView {
        SessionView {
            variant,
            current_level: level,
            current_question_index: 0,
            total_questions: questions_in_level(level),
            score: 0,
            total_score: 0,
            target: Seq::empty(),
            options: Seq::empty(),
            selected_index: 0,
            level_time_limit: None,
            level_elapsed_time: 0,
        }
    }

    /// Whether `input` names the target, the case of ASCII letters set aside.
    pub open spec fn is_answered_by(self, input: Seq<char>) -> bool {
        same_ignoring_case(input, self.target)
    }

    /// Whether the next question would be one too many for the level.
    pub open spec fn on_last_question(self) -> bool {
        self.current_question_index + 1 >= self.total_questions
    }

    /// Whether the level is passed with the present score.
    pub open spec fn passed(self) -> bool {
        passes(self.score, self.total_questions)
    }

    /// What every session made by the engine keeps: its question fits its
    /// variant and level, the cursor stands on an option, and the number of
    /// questions and the time limit are those of its level.
    pub open spec fn well_formed(self) -> bool {
        &&& is_question(self.variant, self.current_level, self.question())
        &&& self.selected_index < self.options.len()
        &&& self.total_questions == questions_in_level(self.current_level)
        &&& self.level_time_limit == time_limit_of_level(self.current_level)
    }

    /// What holds of a session while its levels are played: it is well
    /// formed, and the total carries at most five points for each level
    /// below the present one, twenty at the most.
    pub open spec fn in_play(self) -> bool {
        &&& self.well_formed()
        &&& self.total_score <= 5 * self.current_level
        &&& self.total_score <= 20
    }
}

impl EngineView {
    /// The engine at rest: the menu, no session, nothing to be heard.
    pub open spec fn initial(settings: GameSettings) -> EngineView {
        EngineView {
            status: StatusView::Menu,
            session: None,
            last_sound: SoundView::Silent,
            settings,
        }
    }

    /// The question of the session, if there is a session.
    pub open spec fn question(self) -> QuestionView {
        match self.session {
            Some(session) => session.question(),
            None => QuestionView { target: Seq::empty(), options: Seq::empty() },
        }
    }

    /// A new game on `variant` whose first question is `question`.
    pub open spec fn start_game(self, variant: GameVariant, question: QuestionView) -> EngineView {
        EngineView {
            status: StatusView::Playing,
            session: Some(
                SessionView::begun(variant, self.settings.start_level as nat).asks(question),
            ),
            last_sound: SoundView::SayPrompt(question.target),
            settings: self.settings,
        }
    }

    /// The answer `input` is given. Without a session nothing happens.
    pub open spec fn submit_answer(self, input: Seq<char>) -> EngineView {
        match self.session {
            None => self,
            Some(session) => if session.is_answered_by(input) {
                EngineView {
                    status: StatusView::Feedback { success: true, message: praise(input) },
                    session: Some(SessionView { score: session.score + 1, ..session }),
                    last_sound: SoundView::PlaySuccess,
                    ..self
                }
            } else {
                EngineView {
                    status: StatusView::Feedback {
                        success: false,
                        message: correction(session.target),
                    },
                    last_sound: SoundView::PlayFailure,
                    ..self
                }
            },
        }
    }

    /// The option under the cursor is given as the answer. Without a session,
    /// or with the cursor off the options, nothing happens.
    pub open spec fn submit_current_selection(self) -> EngineView {
        match self.session {
            Some(session) if session.selected_index < session.options.len() => self.submit_answer(
                session.options[session.selected_index as int],
            ),
            _ => self,
        }
    }

    /// The cursor moves by `delta`. Without a session, or without options,
    /// nothing happens.
    pub open spec fn move_selection(self, delta: int) -> EngineView {
        match self.session {
            Some(session) if session.options.len() > 0 => EngineView {
                session: Some(
                    SessionView {
                        selected_index: moved_index(
                            session.selected_index,
                            delta,
                            session.options.len(),
                        ),
                        ..session
                    },
                ),
                ..self
            },
            _ => self,
        }
    }

    /// Whether going on draws a new question: there is a session and its
    /// level has questions left.
    pub open spec fn next_level_draws(self) -> bool {
        self.session matches Some(session) && !session.on_last_question()
    }

    /// Whether going on ends the session: the last question of a boss level
    /// has been dealt with and the level is passed.
    pub open spec fn next_level_clears_boss(self) -> bool {
        self.session matches Some(session) && session.on_last_question() && session.passed()
            && is_boss_level(session.current_level)
    }

    /// The game goes on after an answer; `question` is the one drawn if the
    /// level has questions left. Without a session nothing happens.
    pub open spec fn next_level(self, question: QuestionView) -> EngineView {
        match self.session {
            None => self,
            Some(before) => {
                let session = SessionView {
                    current_question_index: before.current_question_index + 1,
                    ..before
                };
                if !before.on_last_question() {
                    EngineView {
                        status: StatusView::Playing,
                        session: Some(session.asks(question)),
                        last_sound: SoundView::SayPrompt(question.target),
                        ..self
                    }
                } else if session.passed() && is_boss_level(session.current_level) {
                    let total = session.total_score + session.score;
                    EngineView {
                        status: StatusView::SessionComplete { score: total },
                        session: Some(SessionView { total_score: total, ..session }),
                        last_sound: SoundView::LevelComplete,
                        ..self
                    }
                } else {
                    EngineView {
                        status: StatusView::LevelComplete {
                            level: session.current_level,
                            score: session.score,
                            passed: session.passed(),
                        },
                        session: Some(session),
                        last_sound: if session.passed() {
                            SoundView::LevelComplete
                        } else {
                            SoundView::PlayFailure
                        },
                        ..self
                    }
                }
            },
        }
    }

    /// Whether leaving the summary of a level ends the session: the summary
    /// is that of a passed boss level, and there is a session.
    pub open spec fn advance_clears_boss(self) -> bool {
        &&& self.session is Some
        &&& self.status matches StatusView::LevelComplete { level, passed, .. }
        &&& passed
        &&& is_boss_level(level)
    }

    /// Whether leaving the summary of a level draws a new question: the
    /// status is such a summary, there is a session, and the session does not
    /// end.
    pub open spec fn advance_draws(self) -> bool {
        &&& self.session is Some
        &&& self.status is LevelComplete
        &&& !self.advance_clears_boss()
    }

    /// The summary of a level is left: for the next level if this one was
    /// passed, for another try if not; `question` is the one drawn where the
    /// session goes on. In any other status, or without a session, nothing
    /// happens.
    pub open spec fn advance_to_next_level_or_retry(self, question: QuestionView) -> EngineView {
        match (self.status, self.session) {
            (StatusView::LevelComplete { level, passed, .. }, Some(session)) => {
                let total = if passed {
                    session.total_score + session.score
                } else {
                    session.total_score
                };
                if passed && is_boss_level(level) {
                    EngineView {
                        status: StatusView::SessionComplete { score: total },
                        session: Some(SessionView { total_score: total, ..session }),
                        last_sound: SoundView::LevelComplete,
                        ..self
                    }
                } else {
                    let next = if passed {
                        session.current_level + 1
                    } else {
                        session.current_level
                    };
                    let fresh = SessionView {
                        current_level: next,
                        current_question_index: 0,
                        total_questions: questions_in_level(next),
                        score: 0,
                        total_score: total,
                        ..session
                    };
                    EngineView {
                        status: StatusView::Playing,
                        session: Some(fresh.asks(question)),
                        last_sound: SoundView::SayPrompt(question.target),
                        ..self
                    }
                }
            },
            _ => self,
        }
    }

    /// Whether the clock of the level is running: a question is live and its
    /// level has a time limit.
    pub open spec fn clock_runs(self) -> bool {
        &&& self.status is Playing
        &&& self.session matches Some(session)
        &&& session.level_time_limit is Some
    }

    /// `seconds` pass. While the clock runs they are added to the time of the
    /// level, and once that time reaches the limit the question is failed.
    /// While the clock does not run nothing happens.
    pub open spec fn tick(self, seconds: nat) -> EngineView {
        if self.clock_runs() {
            let session = self.session.unwrap();
            let elapsed = session.level_elapsed_time + seconds;
            let after = EngineView {
                session: Some(SessionView { level_elapsed_time: elapsed, ..session }),
                ..self
            };
            if elapsed >= session.level_time_limit.unwrap() {
                EngineView {
                    status: StatusView::Feedback { success: false, message: time_is_up() },
                    last_sound: SoundView::PlayFailure,
                    ..after
                }
            } else {
                after
            }
        } else {
            self
        }
    }

    /// Whether the counters that `submit_answer` raises stay within 32 bits.
    pub open spec fn answer_fits(self, input: Seq<char>) -> bool {
        self.session matches Some(session) ==> (session.is_answered_by(input) ==> session.score
            < u32::MAX)
    }

    /// Whether the counters that `submit_current_selection` raises stay
    /// within 32 bits.
    pub open spec fn selection_fits(self) -> bool {
        self.session matches Some(session) ==> (session.selected_index < session.options.len()
            ==> self.answer_fits(session.options[session.selected_index as int]))
    }

    /// Whether the counters that `next_level` raises stay within 32 bits.
    pub open spec fn next_level_fits(self) -> bool {
        self.session matches Some(session) ==> {
            &&& session.current_question_index < u32::MAX
            &&& self.next_level_clears_boss() ==> session.total_score + session.score <= u32::MAX
        }
    }

    /// Whether the counters that `advance_to_next_level_or_retry` raises stay
    /// within 32 bits.
    pub open spec fn advance_fits(self) -> bool {
        (self.status matches StatusView::LevelComplete { level, passed, .. } && passed)
            ==> (self.session matches Some(session) ==> {
            &&& session.total_score + session.score <= u32::MAX
            &&& !self.advance_clears_boss() ==> session.current_level < u32::MAX
        })
    }

    /// Whether the time that `tick` adds up stays within 64 bits.
    pub open spec fn tick_fits(self, seconds: nat) -> bool {
        self.clock_runs() ==> self.session.unwrap().level_elapsed_time + seconds <= u64::MAX
    }

    /// Whether every counter of the session can take one more level's worth:
    /// enough for any operation but `tick`, whatever it is given.
    pub open spec fn counters_fit(self) -> bool {
        self.session matches Some(session) ==> {
            &&& session.score < u32::MAX
            &&& session.current_question_index < u32::MAX
            &&& session.current_level < u32::MAX
            &&& session.total_score + session.score <= u32::MAX
        }
    }

    /// The pending sound has been taken.
    pub open spec fn consume_sound(self) -> EngineView {
        EngineView { last_sound: SoundView::Silent, ..self }
    }

    /// The about screen is shown.
    pub open spec fn go_to_about(self) -> EngineView {
        EngineView { status: StatusView::About, ..self }
    }

    /// What holds of the engine as long as it is driven screen by screen:
    /// started from the menu, answered while a question is live, moved on
    /// from feedback, and advanced from the summary of a level. There is a
    /// session exactly on the four screens of play; a live question is one of
    /// the level and is not yet counted; the score never exceeds the
    /// questions dealt with; and each summary shows what the session holds.
    pub open spec fn coherent(self) -> bool {
        match self.status {
            StatusView::Menu | StatusView::Settings { .. } | StatusView::About => self.session
                is None,
            StatusView::Playing => {
                &&& self.session matches Some(session)
                &&& session.in_play()
                &&& session.current_question_index < session.total_questions
                &&& session.score <= session.current_question_index
                &&& session.level_time_limit matches Some(limit) ==> session.level_elapsed_time
                    < limit
            },
            StatusView::Feedback { .. } => {
                &&& self.session matches Some(session)
                &&& session.in_play()
                &&& session.current_question_index < session.total_questions
                &&& session.score <= session.current_question_index + 1
            },
            StatusView::LevelComplete { level, score, passed } => {
                &&& self.session matches Some(session)
                &&& session.in_play()
                &&& session.current_question_index == session.total_questions
                &&& session.score <= session.total_questions
                &&& level == session.current_level
                &&& score == session.score
                &&& passed == session.passed()
            },
            StatusView::SessionComplete { score } => {
                &&& self.session matches Some(session)
                &&& session.well_formed()
                &&& session.score <= session.total_questions
                &&& score == session.total_score
            },
        }
    }
}

} // verus!
