//! Picking the winner among the players' cards.
use vstd::prelude::*;

verus! {

/// Whether position `i` holds the winning entry of `players`: no card is
/// higher than the card at `i`, and every card before `i` is lower. Among
/// equal highest cards the first one wins.
pub open spec fn is_winner_at(players: Seq<(u8, u16)>, i: int) -> bool {
    &&& 0 <= i < players.len()
    &&& forall|j: int| 0 <= j < players.len() ==> (#[trigger] players[j]).1 <= players[i].1
    &&& forall|j: int| 0 <= j < i ==> (#[trigger] players[j]).1 < players[i].1
}

/// Returns the player with the highest card, together with that card.
///
/// Where several players hold the highest card, the one that comes first in
/// `players` wins. Without players there is no winner.
pub fn winner(players: Vec<(u8, u16)>) -> (best: Option<(u8, u16)>)
    ensures
        best is None <==> players@.len() == 0,
        best matches Some(entry) ==> exists|i: int|
            is_winner_at(players@, i) && #[trigger] players@[i] == entry,
{
    if players.len() == 0 {
        return None;
    }
    let mut best: usize = 0;
    let mut k: usize = 1;
    while k < players.len()
        invariant
            1 <= k <= players@.len(),
            best < k,
            forall|j: int| 0 <= j < k ==> (#[trigger] players@[j]).1 <= players@[best as int].1,
            forall|j: int| 0 <= j < best ==> (#[trigger] players@[j]).1 < players@[best as int].1,
        decreases players@.len() - k,
    {
        if players[k].1 > players[best].1 {
            best = k;
        }
        k = k + 1;
    }
    assert(is_winner_at(players@, best as int));
    Some(players[best])
}

/// The winning position is unique: the rule picks one entry and no other.
pub proof fn lemma_winner_is_unique(players: Seq<(u8, u16)>, i: int, j: int)
    requires
        is_winner_at(players, i),
        is_winner_at(players, j),
    ensures
        i == j,
{
    if i < j {
        assert(players[i].1 < players[j].1);
        assert(players[j].1 <= players[i].1);
    } else if j < i {
        assert(players[j].1 < players[i].1);
        assert(players[i].1 <= players[j].1);
    }
}

} // verus!
