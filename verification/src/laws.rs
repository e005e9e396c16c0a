//! What holds of the game whatever is drawn and whatever is entered.

use crate::controls::Key;
use crate::model::{is_question, EngineView, QuestionView};
use crate::rules::{
    is_boss_level, lemma_move_and_back, lemma_moved_index_in_range, lemma_moves_compose,
    options_in_level, BOSS_TIME_LIMIT,
};
use crate::settings::GameSettings;
use crate::state::{lemma_pool_distinct, GameVariant, SessionView, SoundView, StatusView};
use crate::text::time_is_up;
use vstd::prelude::*;

verus! {

/// In a question the target is on offer exactly once.
pub proof fn lemma_target_occurs_once(variant: GameVariant, level: nat, question: QuestionView)
    requires
        is_question(variant, level, question),
    ensures
        question.options.to_multiset().count(question.target) == 1,
{
    broadcast use vstd::seq_lib::group_to_multiset_ensures;

    question.options.lemma_multiset_has_no_duplicates();
}

/// A question offers as many options as its level asks for, wherever the pool
/// of the variant holds that many: always for numbers and letters, and in
/// levels 1 to 3 for letter teams, of which there are eight.
pub proof fn lemma_question_has_level_count(
    variant: GameVariant,
    level: nat,
    question: QuestionView,
)
    requires
        is_question(variant, level, question),
        variant is LetterTeams ==> 1 <= level <= 3,
    ensures
        question.options.len() == options_in_level(level),
{
    lemma_pool_distinct(variant);
}

/// Moving the cursor by `first` and then by `second` leaves the engine as
/// moving it by their sum does.
pub proof fn lemma_selection_moves_compose(engine: EngineView, first: int, second: int)
    ensures
        engine.move_selection(first).move_selection(second) == engine.move_selection(
            first + second,
        ),
{
    if let Some(session) = engine.session {
        if session.options.len() > 0 {
            lemma_moves_compose(session.selected_index, first, second, session.options.len());
        }
    }
}

/// Moving a cursor that stands on an option by `delta` and then by `-delta`
/// leaves the engine as it was.
pub proof fn lemma_selection_moves_back(engine: EngineView, delta: int)
    requires
        engine.session matches Some(session) ==> session.selected_index < session.options.len(),
    ensures
        engine.move_selection(delta).move_selection(-delta) == engine,
{
    if let Some(session) = engine.session {
        lemma_move_and_back(session.selected_index, delta, session.options.len());
    }
}

/// An answer that names the target, the case of ASCII letters set aside, is a
/// success and raises the score by exactly one. Any other answer is a failure
/// and leaves the session as it was.
pub proof fn lemma_answer_is_judged(engine: EngineView, input: Seq<char>)
    requires
        engine.session is Some,
    ensures
        ({
            let before = engine.session.unwrap();
            let after = engine.submit_answer(input);
            if before.is_answered_by(input) {
                &&& after.status matches StatusView::Feedback { success, .. } && success
                &&& after.session == Some(SessionView { score: before.score + 1, ..before })
            } else {
                &&& after.status matches StatusView::Feedback { success, .. } && !success
                &&& after.session == engine.session
            }
        }),
{
}

/// The target itself is a right answer.
pub proof fn lemma_target_answers(session: SessionView)
    ensures
        session.is_answered_by(session.target),
{
}

/// Leaving the summary of a passed boss level ends the session at once, with
/// the score of the level added to the total of the levels before it. No
/// question is drawn and the game does not return to play.
pub proof fn lemma_boss_clear_ends_session(engine: EngineView, question: QuestionView)
    requires
        engine.session is Some,
        engine.status matches StatusView::LevelComplete { level, passed, .. } && passed
            && is_boss_level(level),
    ensures
        ({
            let before = engine.session.unwrap();
            let after = engine.advance_to_next_level_or_retry(question);
            &&& after.status == StatusView::SessionComplete {
                score: before.total_score + before.score,
            }
            &&& after.session == Some(
                SessionView { total_score: before.total_score + before.score, ..before },
            )
            &&& !engine.advance_draws()
        }),
{
}

/// The sum of a sequence of spans of time.
pub open spec fn total_seconds(spans: Seq<nat>) -> nat
    decreases spans.len(),
{
    if spans.len() == 0 {
        0
    } else {
        total_seconds(spans.drop_last()) + spans.last()
    }
}

/// The engine after one `tick` for each span, in order.
pub open spec fn after_ticks(engine: EngineView, spans: Seq<nat>) -> EngineView
    decreases spans.len(),
{
    if spans.len() == 0 {
        engine
    } else {
        after_ticks(engine, spans.drop_last()).tick(spans.last())
    }
}

/// While the clock runs, a run of ticks fails the question as soon as the
/// time of the level, with the spans added, reaches the limit; until then the
/// ticks only add up and the question stays live.
pub proof fn lemma_ticks_time_out(engine: EngineView, spans: Seq<nat>)
    requires
        engine.clock_runs(),
        spans.len() > 0,
    ensures
        ({
            let session = engine.session.unwrap();
            let elapsed = session.level_elapsed_time + total_seconds(spans);
            let after = after_ticks(engine, spans);
            if elapsed >= session.level_time_limit.unwrap() {
                &&& after.status == StatusView::Feedback { success: false, message: time_is_up() }
                &&& after.last_sound == SoundView::PlayFailure
            } else {
                after == EngineView {
                    session: Some(SessionView { level_elapsed_time: elapsed, ..session }),
                    ..engine
                }
            }
        }),
    decreases spans.len(),
{
    let earlier = spans.drop_last();
    if earlier.len() == 0 {
        assert(after_ticks(engine, earlier) == engine);
    } else {
        lemma_ticks_time_out(engine, earlier);
    }
}

/// A coherent engine keeps what is asked of a session: the target is among
/// the options, no option occurs twice, the cursor stands on an option, the
/// score does not exceed the questions of the level, a live question is one
/// of the level, and there is a session exactly on the screens of play.
pub proof fn lemma_coherent_session(engine: EngineView)
    requires
        engine.coherent(),
    ensures
        engine.session is Some <==> (engine.status is Playing || engine.status is Feedback
            || engine.status is LevelComplete || engine.status is SessionComplete),
        engine.session matches Some(session) ==> {
            &&& session.options.contains(session.target)
            &&& session.options.no_duplicates()
            &&& session.selected_index < session.options.len()
            &&& session.score <= session.total_questions
            &&& engine.status is Playing ==> session.current_question_index
                < session.total_questions
        },
{
}

/// An engine at rest is coherent.
pub proof fn lemma_initial_is_coherent(settings: GameSettings)
    ensures
        EngineView::initial(settings).coherent(),
{
}

/// Starting a game makes the engine coherent, whatever it was before.
pub proof fn lemma_start_game_is_coherent(
    engine: EngineView,
    variant: GameVariant,
    question: QuestionView,
)
    requires
        is_question(variant, engine.settings.start_level as nat, question),
    ensures
        engine.start_game(variant, question).coherent(),
{
    lemma_pool_distinct(variant);
}

/// An answer to a live question keeps the engine coherent.
pub proof fn lemma_answer_keeps_coherent(engine: EngineView, input: Seq<char>)
    requires
        engine.coherent(),
        engine.status is Playing,
    ensures
        engine.submit_answer(input).coherent(),
        engine.submit_current_selection().coherent(),
{
}

/// Moving the cursor, letting time pass and taking the sound keep the engine
/// coherent on every screen, and a return to the menu makes it so.
pub proof fn lemma_steps_keep_coherent(engine: EngineView, delta: int, seconds: nat)
    requires
        engine.coherent(),
    ensures
        engine.move_selection(delta).coherent(),
        engine.tick(seconds).coherent(),
        engine.consume_sound().coherent(),
        engine.reset_to_menu().coherent(),
{
    if let Some(session) = engine.session {
        if session.options.len() > 0 {
            lemma_moved_index_in_range(session.selected_index, delta, session.options.len());
        }
    }
}

/// Going on from feedback keeps the engine coherent.
pub proof fn lemma_next_level_keeps_coherent(engine: EngineView, question: QuestionView)
    requires
        engine.coherent(),
        engine.status is Feedback,
        engine.next_level_draws() ==> is_question(
            engine.session.unwrap().variant,
            engine.session.unwrap().current_level,
            question,
        ),
    ensures
        engine.next_level(question).coherent(),
{
    let session = engine.session.unwrap();
    if engine.next_level_draws() {
        lemma_pool_distinct(session.variant);
    }
}

/// Leaving the summary of a level keeps the engine coherent.
pub proof fn lemma_advance_keeps_coherent(engine: EngineView, question: QuestionView)
    requires
        engine.coherent(),
        engine.advance_draws() ==> is_question(
            engine.advance_to_next_level_or_retry(question).session.unwrap().variant,
            engine.advance_to_next_level_or_retry(question).session.unwrap().current_level,
            question,
        ),
    ensures
        engine.advance_to_next_level_or_retry(question).coherent(),
{
    if engine.advance_draws() {
        let session = engine.advance_to_next_level_or_retry(question).session.unwrap();
        lemma_pool_distinct(session.variant);
    }
}

/// Whatever key is pressed on whatever screen, the engine stays coherent.
pub proof fn lemma_keys_keep_coherent(engine: EngineView, key: Key, question: QuestionView)
    requires
        engine.coherent(),
        engine.key_draws(key) ==> is_question(
            engine.handle_key(key, question).session.unwrap().variant,
            engine.handle_key(key, question).session.unwrap().current_level,
            question,
        ),
    ensures
        engine.handle_key(key, question).coherent(),
{
    match engine.status {
        StatusView::Menu => {
            if engine.key_draws(key) {
                let variant = engine.handle_key(key, question).session.unwrap().variant;
                lemma_start_game_is_coherent(engine, variant, question);
            }
        },
        StatusView::Playing => {
            lemma_steps_keep_coherent(engine, 1, 0);
            lemma_steps_keep_coherent(engine, -1, 0);
            if let Key::Char(c) = key {
                lemma_answer_keeps_coherent(engine, seq![c]);
            } else {
                lemma_answer_keeps_coherent(engine, Seq::empty());
            }
        },
        StatusView::LevelComplete { .. } => {
            if key == Key::Enter {
                lemma_advance_keeps_coherent(engine, question);
            }
        },
        _ => {},
    }
}

/// Going on from where the game waits keeps the engine coherent.
pub proof fn lemma_proceed_keeps_coherent(engine: EngineView, question: QuestionView)
    requires
        engine.coherent(),
        engine.proceed_draws() ==> is_question(
            engine.proceed(question).session.unwrap().variant,
            engine.proceed(question).session.unwrap().current_level,
            question,
        ),
    ensures
        engine.proceed(question).coherent(),
{
    match engine.status {
        StatusView::LevelComplete { .. } => lemma_advance_keeps_coherent(engine, question),
        StatusView::Feedback { .. } => lemma_next_level_keeps_coherent(engine, question),
        _ => {},
    }
}

/// In a coherent engine no counter is near its limit: every key, and every
/// step from feedback or from the summary of a level, fits, and so does any
/// tick that is not within a boss level's time of the largest span.
pub proof fn lemma_coherent_fits(engine: EngineView, key: Key, seconds: nat)
    requires
        engine.coherent(),
    ensures
        engine.key_fits(key),
        engine.proceed_fits(),
        engine.advance_fits(),
        engine.status is Playing ==> engine.selection_fits() && forall|input: Seq<char>|
            engine.answer_fits(input),
        engine.status is Feedback ==> engine.next_level_fits(),
        seconds + BOSS_TIME_LIMIT <= u64::MAX ==> engine.tick_fits(seconds),
{
}

/// Where the counters fit, every operation but `tick` may be called,
/// whatever it is given.
pub proof fn lemma_counters_fit_suffices(engine: EngineView, key: Key, input: Seq<char>)
    requires
        engine.counters_fit(),
    ensures
        engine.answer_fits(input),
        engine.selection_fits(),
        engine.next_level_fits(),
        engine.advance_fits(),
        engine.proceed_fits(),
        engine.key_fits(key),
{
}

} // verus!
