//! The things a player can carry, and the words a board knows.

use crate::board::Board;
use vstd::prelude::*;

verus! {

/// Something a player carries. Coins bear a denomination, words an id.
#[derive(Clone, Copy, Debug, PartialEq, Eq, Structural)]
pub enum Thing {
    Torch,
    GoldCoin { denom: u32 },
    FakeCoin { denom: u32 },
    MagicWord { id: u32 },
    FakeWord { id: u32 },
}

/// One magic word for each id, in the order of the ids.
pub open spec fn magic_words_of(ids: Seq<u32>) -> Seq<Thing> {
    Seq::new(ids.len(), |i: int| Thing::MagicWord { id: ids[i] })
}

/// One fake word for each id, in the order of the ids.
pub open spec fn fake_words_of(ids: Seq<u32>) -> Seq<Thing> {
    Seq::new(ids.len(), |i: int| Thing::FakeWord { id: ids[i] })
}

/// Every magic word of `board`, in the board's order.
pub fn all_magic_words(board: &Board) -> (words: Vec<Thing>)
    ensures
        words@ == magic_words_of(board@.magic_words),
{
    let ids = board.magic_words();
    let mut words: Vec<Thing> = Vec::new();
    let mut i: usize = 0;
    while i < ids.len()
        invariant
            i <= ids.len(),
            words@ == magic_words_of(ids@.take(i as int)),
        decreases ids.len() - i,
    {
        words.push(Thing::MagicWord { id: ids[i] });
        i = i + 1;
        assert(words@ =~= magic_words_of(ids@.take(i as int)));
    }
    assert(ids@.take(i as int) =~= ids@);
    words
}

/// Every fake word of `board`, in the board's order.
pub fn all_fake_words(board: &Board) -> (words: Vec<Thing>)
    ensures
        words@ == fake_words_of(board@.fake_words),
{
    let ids = board.fake_words();
    let mut words: Vec<Thing> = Vec::new();
    let mut i: usize = 0;
    while i < ids.len()
        invariant
            i <= ids.len(),
            words@ == fake_words_of(ids@.take(i as int)),
        decreases ids.len() - i,
    {
        words.push(Thing::FakeWord { id: ids[i] });
        i = i + 1;
        assert(words@ =~= fake_words_of(ids@.take(i as int)));
    }
    assert(ids@.take(i as int) =~= ids@);
    words
}

} // verus!
