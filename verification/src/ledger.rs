//! The ledger of scores as a mathematical sequence: what recording a score
//! does to it, and what holds of that whatever the ledger and the players.

use vstd::prelude::*;

verus! {

/// A ledger: for each player that has reported a score, the player's identity
/// and the score reported last, in the order in which the players first appeared.
pub type Scores = Seq<(Seq<char>, u16)>;

/// `i` is the first place in `scores` that belongs to `player`.
pub open spec fn first_at(scores: Scores, player: Seq<char>, i: int) -> bool {
    &&& 0 <= i < scores.len()
    &&& scores[i].0 == player
    &&& forall|j: int| 0 <= j < i ==> (#[trigger] scores[j]).0 != player
}

/// The first place in `scores` that belongs to `player`, if there is one.
pub open spec fn position(scores: Scores, player: Seq<char>) -> Option<int> {
    if exists|i: int| first_at(scores, player, i) {
        Some(choose|i: int| first_at(scores, player, i))
    } else {
        None
    }
}

/// The ledger after `player` has reported `score`: the player's entry keeps its
/// place and takes the new score, and a player without an entry gets one at the end.
pub open spec fn upsert(scores: Scores, player: Seq<char>, score: u16) -> Scores {
    match position(scores, player) {
        Some(i) => scores.update(i, (player, score)),
        None => scores.push((player, score)),
    }
}

/// No player has two entries.
pub open spec fn unique(scores: Scores) -> bool {
    forall|i: int, j: int|
        0 <= i < j < scores.len() ==> (#[trigger] scores[i]).0 != (#[trigger] scores[j]).0
}

/// Some entry at or before place `i` is the first one of `player`, given that
/// the entry at `i` is the player's.
proof fn lemma_first_exists(scores: Scores, player: Seq<char>, i: int)
    requires
        0 <= i < scores.len(),
        scores[i].0 == player,
    ensures
        exists|k: int| 0 <= k <= i && first_at(scores, player, k),
    decreases i,
{
    if exists|j: int| 0 <= j < i && (#[trigger] scores[j]).0 == player {
        let j = choose|j: int| 0 <= j < i && (#[trigger] scores[j]).0 == player;
        lemma_first_exists(scores, player, j);
    } else {
        assert(first_at(scores, player, i));
    }
}

/// What [`position`] finds: the first entry of the player, or that the player
/// has none.
pub proof fn lemma_position(scores: Scores, player: Seq<char>)
    ensures
        match position(scores, player) {
            Some(i) => first_at(scores, player, i),
            None => forall|j: int| 0 <= j < scores.len() ==> (#[trigger] scores[j]).0 != player,
        },
{
    if position(scores, player) is None {
        assert forall|j: int| 0 <= j < scores.len() implies (#[trigger] scores[j]).0 != player by {
            if scores[j].0 == player {
                lemma_first_exists(scores, player, j);
            }
        }
    }
}

/// A place that is the first one of the player is the one that [`position`] finds.
pub proof fn lemma_position_is(scores: Scores, player: Seq<char>, i: int)
    requires
        first_at(scores, player, i),
    ensures
        position(scores, player) == Some(i),
{
}

/// Where the entry of `player` stands once a score of the player was recorded:
/// at the place it had, or at the end where the player had none.
pub open spec fn place_after_upsert(scores: Scores, player: Seq<char>) -> int {
    match position(scores, player) {
        Some(i) => i,
        None => scores.len() as int,
    }
}

/// Recording a score puts exactly that score at the player's place, makes
/// that place the first one of the player, leaves every other entry as it
/// was, and lengthens the ledger by one only for a player who had no entry.
pub proof fn upsert_writes_one_entry(scores: Scores, player: Seq<char>, score: u16)
    ensures
        ({
            let after = upsert(scores, player, score);
            let place = place_after_upsert(scores, player);
            &&& 0 <= place < after.len()
            &&& position(after, player) == Some(place)
            &&& after[place] == (player, score)
            &&& after.len() == if position(scores, player) is Some {
                scores.len()
            } else {
                scores.len() + 1
            }
            &&& forall|j: int|
                0 <= j < scores.len() && j != place ==> #[trigger] after[j] == scores[j]
        }),
{
    lemma_position(scores, player);
    lemma_position_is(upsert(scores, player, score), player, place_after_upsert(scores, player));
}

/// A ledger in which no player has two entries stays so when a score is
/// recorded.
pub proof fn upsert_keeps_unique(scores: Scores, player: Seq<char>, score: u16)
    requires
        unique(scores),
    ensures
        unique(upsert(scores, player, score)),
{
    lemma_position(scores, player);
}

/// Recording the same score for the same player twice gives the ledger that
/// recording it once gives.
pub proof fn upsert_is_idempotent(scores: Scores, player: Seq<char>, score: u16)
    ensures
        upsert(upsert(scores, player, score), player, score) == upsert(scores, player, score),
{
    upsert_writes_one_entry(scores, player, score);
}

/// A second score of the same player does not lengthen the ledger.
pub proof fn second_upsert_keeps_length(
    scores: Scores,
    player: Seq<char>,
    first: u16,
    second: u16,
)
    ensures
        upsert(upsert(scores, player, first), player, second).len() == upsert(
            scores,
            player,
            first,
        ).len(),
{
    upsert_writes_one_entry(scores, player, first);
}

/// After two scores of the same player, a ledger that had no double entries
/// holds exactly one entry of the player, and it carries the second score.
pub proof fn second_upsert_overwrites(
    scores: Scores,
    player: Seq<char>,
    first: u16,
    second: u16,
)
    requires
        unique(scores),
    ensures
        ({
            let twice = upsert(upsert(scores, player, first), player, second);
            &&& position(twice, player) matches Some(place)
            &&& twice[place] == (player, second)
            &&& forall|j: int|
                0 <= j < twice.len() && (#[trigger] twice[j]).0 == player ==> j == place
        }),
{
    let once = upsert(scores, player, first);
    upsert_writes_one_entry(scores, player, first);
    upsert_writes_one_entry(once, player, second);
    upsert_keeps_unique(scores, player, first);
    upsert_keeps_unique(once, player, second);
}

/// A score of another player does not move a player's entry: where `first`
/// stands after its own score, it stands after the score of `second` too.
pub proof fn upsert_of_another_keeps_place(
    scores: Scores,
    first: Seq<char>,
    first_score: u16,
    second: Seq<char>,
    second_score: u16,
)
    requires
        first != second,
    ensures
        ({
            let once = upsert(scores, first, first_score);
            let twice = upsert(once, second, second_score);
            &&& position(once, first) is Some
            &&& position(twice, first) == position(once, first)
            &&& twice[position(twice, first).unwrap()] == (first, first_score)
        }),
{
    let once = upsert(scores, first, first_score);
    let twice = upsert(once, second, second_score);
    upsert_writes_one_entry(scores, first, first_score);
    upsert_writes_one_entry(once, second, second_score);
    lemma_position(once, first);
    lemma_position_is(twice, first, place_after_upsert(scores, first));
}

/// After a score of `first` and then one of `second`, the entry of `first`
/// stands before that of `second`, unless `second` had an entry already that
/// stood before the place of `first`.
pub proof fn earlier_player_stands_first(
    scores: Scores,
    first: Seq<char>,
    first_score: u16,
    second: Seq<char>,
    second_score: u16,
)
    requires
        first != second,
        position(scores, second) matches Some(j) ==> (position(scores, first) matches Some(i) && i
            < j),
    ensures
        ({
            let twice = upsert(upsert(scores, first, first_score), second, second_score);
            &&& position(twice, first) matches Some(i)
            &&& position(twice, second) matches Some(j)
            &&& i < j
        }),
{
    let once = upsert(scores, first, first_score);
    upsert_writes_one_entry(scores, first, first_score);
    upsert_writes_one_entry(once, second, second_score);
    upsert_of_another_keeps_place(scores, first, first_score, second, second_score);
    lemma_position(scores, first);
    lemma_position(scores, second);
    lemma_position(once, second);
    if let Some(j) = position(scores, second) {
        lemma_position_is(once, second, j);
    }
}

} // verus!
