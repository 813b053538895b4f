//! The dice of the game: one source of random numbers, and the shuffle
//! that is built on it.

use crate::inventory::Thing;
use rand::Rng;
use vstd::prelude::*;

verus! {

/// Draws a number from zero up to, but not including, `bound`.
///
/// This is `rand::Rng::gen_range(0, bound)` on the generator that
/// `rand::thread_rng` keeps for the running thread. Nothing here is proved:
/// the contract repeats what rand documents, that the number drawn lies in
/// the half-open range it was asked for. `gen_range` panics on an empty
/// range, which `bound > 0` rules out. Which number comes is left open, so
/// two draws with one bound may differ. (`thread_rng` itself gives up where
/// the system has no entropy to seed it with.)
#[verifier::external_body]
pub(crate) fn draw_below(bound: usize) -> (drawn: usize)
    requires
        bound > 0,
    ensures
        drawn < bound,
{
    rand::thread_rng().gen_range(0, bound)
}

/// `things` with the items at `i` and `j` exchanged.
pub open spec fn swapped(things: Seq<Thing>, i: int, j: int) -> Seq<Thing> {
    things.update(i, things[j]).update(j, things[i])
}

/// What is left to do of a shuffle when `done` draws have been used: the
/// draw numbered `done` picks, among the items not yet settled, the one
/// that goes to the last unsettled place. A draw that is too large counts
/// round; the shuffle ends when the draws or the places run out.
pub open spec fn shuffled_from(things: Seq<Thing>, draws: Seq<usize>, done: int) -> Seq<Thing>
    decreases draws.len() - done,
{
    if 0 <= done < draws.len() && done + 1 < things.len() {
        let last = things.len() - 1 - done;
        let pick = (draws[done] as int) % (last + 1);
        shuffled_from(swapped(things, last, pick), draws, done + 1)
    } else {
        things
    }
}

/// `things` after a shuffle that is steered by `draws`.
pub open spec fn shuffled(things: Seq<Thing>, draws: Seq<usize>) -> Seq<Thing> {
    shuffled_from(things, draws, 0)
}

/// Whether `draws` are the draws of a full shuffle of `count` items: one
/// for each place but the first, each among the items that were not yet
/// settled when it was made.
pub open spec fn full_draws(draws: Seq<usize>, count: nat) -> bool {
    &&& draws.len() + 1 == count || (draws.len() == 0 && count == 0)
    &&& forall|k: int| 0 <= k < draws.len() ==> (#[trigger] draws[k]) < count - k
}

/// Exchanging two items neither adds nor loses one.
pub proof fn lemma_swapped_keeps_items(things: Seq<Thing>, i: int, j: int)
    requires
        0 <= i < things.len(),
        0 <= j < things.len(),
    ensures
        swapped(things, i, j).len() == things.len(),
        swapped(things, i, j).to_multiset() == things.to_multiset(),
{
    broadcast use vstd::seq_lib::group_to_multiset_ensures;
    broadcast use vstd::multiset::group_multiset_axioms;

    assert(things.contains(things[i]));
    assert(things.contains(things[j]));
    let half = things.update(i, things[j]);
    assert(half.to_multiset() == things.to_multiset().insert(things[j]).remove(things[i]));
    assert(swapped(things, i, j).to_multiset() == half.to_multiset().insert(things[i]).remove(
        half[j],
    ));
    assert(swapped(things, i, j).to_multiset() =~= things.to_multiset());
}

/// A shuffle rearranges: whatever the draws, it hands back the same items,
/// each as often as before.
pub proof fn lemma_shuffled_keeps_items(things: Seq<Thing>, draws: Seq<usize>, done: int)
    requires
        0 <= done,
    ensures
        shuffled_from(things, draws, done).len() == things.len(),
        shuffled_from(things, draws, done).to_multiset() == things.to_multiset(),
    decreases draws.len() - done,
{
    if done < draws.len() && done + 1 < things.len() {
        let last = things.len() - 1 - done;
        let pick = (draws[done] as int) % (last + 1);
        lemma_swapped_keeps_items(things, last, pick);
        lemma_shuffled_keeps_items(swapped(things, last, pick), draws, done + 1);
    }
}

/// Shuffles `things` as `draws` says.
pub fn shuffle_with(things: &mut Vec<Thing>, draws: &Vec<usize>)
    ensures
        final(things)@ == shuffled(old(things)@, draws@),
        final(things)@.len() == old(things)@.len(),
        final(things)@.to_multiset() == old(things)@.to_multiset(),
{
    let count = things.len();
    let mut done: usize = 0;
    while done < draws.len() && done + 1 < count
        invariant
            count == things@.len(),
            count == old(things)@.len(),
            done <= draws.len(),
            shuffled_from(things@, draws@, done as int) == shuffled(old(things)@, draws@),
        decreases draws.len() - done,
    {
        let last = count - 1 - done;
        let pick = draws[done] % (last + 1);
        let upper = things[last];
        let lower = things[pick];
        things.set(last, lower);
        things.set(pick, upper);
        done = done + 1;
    }
    proof {
        lemma_shuffled_keeps_items(old(things)@, draws@, 0);
    }
}

/// Shuffles `things` by fresh draws, one for each place from the last down
/// to the second: the draw for a place picks, among the items up to that
/// place, the one that is put there. Every item stays, each as often as
/// before; which draws come is left to chance.
pub fn shuffle(things: &mut Vec<Thing>)
    ensures
        exists|draws: Seq<usize>|
            full_draws(draws, old(things)@.len()) && final(things)@ == shuffled(
                old(things)@,
                draws,
            ),
        final(things)@.len() == old(things)@.len(),
        final(things)@.to_multiset() == old(things)@.to_multiset(),
{
    let count = things.len();
    let needed = if count > 0 {
        count - 1
    } else {
        0
    };
    let mut draws: Vec<usize> = Vec::new();
    let mut done: usize = 0;
    while done < needed
        invariant
            needed + 1 == count || (needed == 0 && count == 0),
            done <= needed,
            done == draws@.len(),
            forall|k: int| 0 <= k < done ==> (#[trigger] draws@[k]) < count - k,
        decreases needed - done,
    {
        let drawn = draw_below(count - done);
        draws.push(drawn);
        done = done + 1;
    }
    shuffle_with(things, &draws);
    assert(full_draws(draws@, old(things)@.len()));
}

} // verus!
