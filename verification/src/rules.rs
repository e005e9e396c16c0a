//! The rules of a level: how many questions it asks, how many options a
//! question offers, how long it may take, and which score passes it.

use vstd::prelude::*;

verus! {

/// The first level that is a boss level.
pub const BOSS_LEVEL: u32 = 4;

/// The seconds that a boss level allows.
pub const BOSS_TIME_LIMIT: u64 = 5;

/// The questions asked in a level: five in levels 1 to 3, one in any other.
pub open spec fn questions_in_level(level: nat) -> nat {
    if 1 <= level <= 3 {
        5
    } else {
        1
    }
}

/// The options that a question of a level offers, the target included.
pub open spec fn options_in_level(level: nat) -> nat {
    if level == 1 {
        2
    } else if level == 2 {
        3
    } else if level == 3 {
        5
    } else {
        9
    }
}

/// The seconds that a level allows: none for levels 1 to 3.
pub open spec fn time_limit_of_level(level: nat) -> Option<nat> {
    if 1 <= level <= 3 {
        None
    } else {
        Some(BOSS_TIME_LIMIT as nat)
    }
}

/// Whether clearing this level ends the session.
pub open spec fn is_boss_level(level: nat) -> bool {
    level >= BOSS_LEVEL
}

/// The least score that passes a level of `total` questions: four fifths of
/// them, rounded up.
pub open spec fn pass_threshold(total: nat) -> nat {
    (4 * total + 4) / 5
}

/// Whether `score` right answers pass a level of `total` questions.
pub open spec fn passes(score: nat, total: nat) -> bool {
    score >= pass_threshold(total)
}

/// The place of the cursor after moving it by `delta` over `length` options,
/// wrapping round at both ends.
pub open spec fn moved_index(index: nat, delta: int, length: nat) -> nat {
    ((index + delta) % (length as int)) as nat
}

/// The threshold is four fifths of the questions, rounded up: the least
/// number whose fivefold reaches the fourfold of the total.
pub proof fn lemma_threshold_is_ceiling(total: nat)
    ensures
        5 * pass_threshold(total) >= 4 * total,
        5 * pass_threshold(total) < 4 * total + 5,
{
}

/// A score passes exactly when five times the score reaches four times the
/// number of questions.
pub proof fn lemma_passes_four_fifths(score: nat, total: nat)
    ensures
        passes(score, total) <==> 5 * score >= 4 * total,
{
}

/// Moving the cursor by `first` and then by `second` is moving it by their sum.
pub proof fn lemma_moves_compose(index: nat, first: int, second: int, length: nat)
    requires
        length > 0,
    ensures
        moved_index(moved_index(index, first, length), second, length) == moved_index(
            index,
            first + second,
            length,
        ),
{
    let m = length as int;
    vstd::arithmetic::div_mod::lemma_mod_bound(index + first, m);
    vstd::arithmetic::div_mod::lemma_add_mod_noop(index + first, second, m);
    vstd::arithmetic::div_mod::lemma_add_mod_noop((index + first) % m, second, m);
    vstd::arithmetic::div_mod::lemma_mod_twice(index + first, m);
}

/// Moving a cursor that stands on an option by `delta` and then by `-delta`
/// brings it back to where it stood.
pub proof fn lemma_move_and_back(index: nat, delta: int, length: nat)
    requires
        index < length,
    ensures
        moved_index(moved_index(index, delta, length), -delta, length) == index,
{
    lemma_moves_compose(index, delta, -delta, length);
    vstd::arithmetic::div_mod::lemma_small_mod(index, length);
}

/// A cursor that has been moved stands on an option.
pub proof fn lemma_moved_index_in_range(index: nat, delta: int, length: nat)
    requires
        length > 0,
    ensures
        moved_index(index, delta, length) < length,
{
    vstd::arithmetic::div_mod::lemma_mod_bound(index + delta, length as int);
}

/// The score with which a level of `total` questions is passed.
pub fn passing_score(total: u32) -> (threshold: u32)
    ensures
        threshold == pass_threshold(total as nat),
{
    let fourfold: u64 = 4 * (total as u64) + 4;
    (fourfold / 5) as u32
}

/// The questions asked in a level.
pub fn question_count(level: u32) -> (count: u32)
    ensures
        count == questions_in_level(level as nat),
{
    if 1 <= level && level <= 3 {
        5
    } else {
        1
    }
}

/// The options that a question of a level offers.
pub fn option_count(level: u32) -> (count: usize)
    ensures
        count == options_in_level(level as nat),
{
    if level == 1 {
        2
    } else if level == 2 {
        3
    } else if level == 3 {
        5
    } else {
        9
    }
}

/// The seconds that a level allows.
pub fn time_limit(level: u32) -> (limit: Option<u64>)
    ensures
        limit is Some <==> time_limit_of_level(level as nat) is Some,
        limit is Some ==> limit.unwrap() == time_limit_of_level(level as nat).unwrap(),
{
    if 1 <= level && level <= 3 {
        None
    } else {
        Some(BOSS_TIME_LIMIT)
    }
}

} // verus!
