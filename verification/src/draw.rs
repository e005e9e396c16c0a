//! Random drawing. The generator is reached through two small unverified
//! functions; what is built on their results is verified for every value that
//! they may hand back.

use rand::seq::SliceRandom;
use vstd::prelude::*;

verus! {

/// Calls `rand::seq::SliceRandom::choose` on the candidates, with the
/// generator of the current thread (`rand::thread_rng`), and copies the
/// element out. Believed, not proved: the result is absent exactly when there
/// is no candidate, and otherwise it is one of the candidates. Which one is
/// left open. The generator panics if the system cannot seed it.
#[verifier::external_body]
fn choose_candidate(candidates: &Vec<usize>) -> (chosen: Option<usize>)
    ensures
        candidates@.len() == 0 ==> chosen is None,
        candidates@.len() > 0 ==> chosen is Some && candidates@.contains(chosen.unwrap()),
{
    candidates.choose(&mut rand::thread_rng()).copied()
}

/// Calls `rand::seq::SliceRandom::shuffle` on the items, with the generator
/// of the current thread (`rand::thread_rng`). Believed, not proved: the
/// shuffle only swaps elements, so afterwards the items are the same ones,
/// each as often as before. Their order is left open.
#[verifier::external_body]
fn shuffle_items(items: &mut Vec<usize>)
    ensures
        final(items)@.to_multiset() == old(items)@.to_multiset(),
{
    items.shuffle(&mut rand::thread_rng());
}

/// The outcome of drawing a question: positions in a pool of `pool_size`
/// items.
pub struct Drawn {
    /// The position of the item to identify.
    pub target: usize,
    /// The positions of the items on offer, in the order in which they are shown.
    pub options: Vec<usize>,
}

/// What holds of every draw of `count` positions out of `pool_size`: as many
/// positions as asked for, or all of them where the pool is smaller; none
/// twice; each within the pool; the target among them.
pub open spec fn is_draw(target: int, options: Seq<usize>, pool_size: int, count: int) -> bool {
    &&& options.len() == if count <= pool_size {
        count
    } else {
        pool_size
    }
    &&& options.no_duplicates()
    &&& forall|i: int| 0 <= i < options.len() ==> 0 <= #[trigger] options[i] < pool_size
    &&& options.contains(target as usize)
    &&& 0 <= target < pool_size
}

/// Two sequences with the same elements, each as often, agree on their
/// length, on what they contain and on whether anything occurs twice.
pub proof fn lemma_same_elements(before: Seq<usize>, after: Seq<usize>)
    requires
        before.to_multiset() == after.to_multiset(),
    ensures
        before.len() == after.len(),
        forall|value: usize| before.contains(value) <==> after.contains(value),
        before.no_duplicates() ==> after.no_duplicates(),
{
    broadcast use vstd::seq_lib::group_to_multiset_ensures;

    assert(after.to_multiset().len() == after.len());
    assert forall|value: usize| before.contains(value) <==> after.contains(value) by {
        assert(after.contains(value) <==> after.to_multiset().count(value) > 0);
    }
    if before.no_duplicates() {
        before.lemma_multiset_has_no_duplicates();
        after.lemma_multiset_has_no_duplicates_conv();
    }
}

/// The place of `value` among the items.
fn position_of(items: &Vec<usize>, value: usize) -> (at: usize)
    requires
        items@.contains(value),
    ensures
        at < items@.len(),
        items@[at as int] == value,
{
    let mut at: usize = 0;
    while at < items.len()
        invariant
            at <= items@.len(),
            forall|i: int| 0 <= i < at ==> items@[i] != value,
        decreases items@.len() - at,
    {
        if items[at] == value {
            return at;
        }
        at += 1;
    }
    0
}

/// The positions `0` up to `pool_size`, in order.
fn all_positions(pool_size: usize) -> (positions: Vec<usize>)
    ensures
        positions@.len() == pool_size,
        forall|i: int| 0 <= i < pool_size ==> positions@[i] == i,
{
    let mut positions: Vec<usize> = Vec::new();
    let mut next: usize = 0;
    while next < pool_size
        invariant
            next <= pool_size,
            positions@.len() == next,
            forall|i: int| 0 <= i < next ==> positions@[i] == i,
        decreases pool_size - next,
    {
        positions.push(next);
        next += 1;
    }
    positions
}

/// Draws a question out of a pool of `pool_size` items: a random target, then
/// further random positions, each drawn among those not yet taken, until
/// `count` are on offer (or the pool is used up), and at last a random order
/// for them.
pub fn draw_question(pool_size: usize, count: usize) -> (drawn: Drawn)
    requires
        pool_size > 0,
        count > 0,
    ensures
        is_draw(drawn.target as int, drawn.options@, pool_size as int, count as int),
{
    let wanted = if count <= pool_size {
        count
    } else {
        pool_size
    };
    let mut candidates = all_positions(pool_size);
    let mut options: Vec<usize> = Vec::new();
    let mut target: usize = 0;
    while options.len() < wanted
        invariant
            wanted <= pool_size,
            0 < wanted,
            options@.len() <= wanted,
            candidates@.len() + options@.len() == pool_size,
            candidates@.no_duplicates(),
            options@.no_duplicates(),
            forall|i: int| 0 <= i < candidates@.len() ==> #[trigger] candidates@[i] < pool_size,
            forall|i: int| 0 <= i < options@.len() ==> #[trigger] options@[i] < pool_size,
            forall|i: int, j: int|
                0 <= i < candidates@.len() && 0 <= j < options@.len() ==> candidates@[i]
                    != options@[j],
            options@.len() > 0 ==> options@[0] == target,
        decreases wanted - options@.len(),
    {
        match choose_candidate(&candidates) {
            Some(value) => {
                let at = position_of(&candidates, value);
                candidates.remove(at);
                if options.len() == 0 {
                    target = value;
                }
                options.push(value);
            },
            None => {
                // With a candidate left, the choice is never absent.
                assert(false);
            },
        }
    }
    let ghost unshuffled = options@;
    shuffle_items(&mut options);
    proof {
        lemma_same_elements(unshuffled, options@);
        assert forall|i: int| 0 <= i < options@.len() implies 0 <= #[trigger] options@[i]
            < pool_size by {
            assert(unshuffled.contains(options@[i]));
        }
    }
    Drawn { target, options }
}

} // verus!
