//! The stored record and the ledger of scores inside it.

use vstd::prelude::*;
use crate::ledger::{lemma_position, lemma_position_is, position, unique, upsert, upsert_keeps_unique, Scores};

verus! {

/// The one record that is kept: a fortune, the identity that owns it, and the
/// scores of the players in the order in which the players first appeared.
#[derive(Debug, PartialEq, Eq)]
pub struct State {
    pub fortune: i32,
    pub owner: String,
    pub scores: Vec<(String, u16)>,
}

/// What a [`State`] holds, as mathematical values.
pub struct StateView {
    pub fortune: i32,
    pub owner: Seq<char>,
    pub scores: Scores,
}

impl View for State {
    type V = StateView;

    open spec fn view(&self) -> StateView {
        StateView { fortune: self.fortune, owner: self.owner@, scores: self.scores.deep_view() }
    }
}

impl StateView {
    /// The invariant of the record: no player has two entries.
    pub open spec fn wf(self) -> bool {
        unique(self.scores)
    }

    /// The record with the ledger replaced by the one in which `player` has `score`.
    pub open spec fn with_score(self, player: Seq<char>, score: u16) -> StateView {
        StateView { scores: upsert(self.scores, player, score), ..self }
    }
}

impl State {
    /// A fresh record: the given fortune and owner, and an empty ledger.
    pub fn new(fortune: i32, owner: String) -> (state: State)
        ensures
            state@ == (StateView { fortune, owner: owner@, scores: Seq::empty() }),
            state@.wf(),
    {
        let state = State { fortune, owner, scores: Vec::new() };
        assert(state.scores.deep_view() =~= Seq::empty());
        state
    }

    /// Whether `caller` is the owner of the record. Identities are compared
    /// character by character, with no folding of any kind.
    pub fn is_owner(&self, caller: &String) -> (yes: bool)
        ensures
            yes == (self@.owner == caller@),
    {
        self.owner == *caller
    }

    /// The place of `player`'s entry in the ledger.
    pub fn find(&self, player: &String) -> (found: Option<usize>)
        ensures
            match found {
                Some(i) => position(self@.scores, player@) == Some(i as int),
                None => position(self@.scores, player@) is None,
            },
    {
        let mut i: usize = 0;
        while i < self.scores.len()
            invariant
                i <= self.scores.len(),
                forall|j: int| 0 <= j < i ==> (#[trigger] self@.scores[j]).0 != player@,
            decreases self.scores.len() - i,
        {
            if self.scores[i].0 == *player {
                proof {
                    lemma_position_is(self@.scores, player@, i as int);
                }
                return Some(i);
            }
            i += 1;
        }
        proof {
            lemma_position(self@.scores, player@);
        }
        None
    }

    /// Records `score` for `player`: an entry of the player keeps its place and
    /// takes the new score, whatever the old one was; a player without an entry
    /// gets one at the end of the ledger. Fortune and owner stay as they are.
    pub fn upsert(&mut self, player: String, score: u16)
        ensures
            final(self)@ == old(self)@.with_score(player@, score),
            old(self)@.wf() ==> final(self)@.wf(),
    {
        let index = self.find(&player);
        match index {
            Some(i) => {
                self.scores[i].1 = score;
                assert(self.scores.deep_view() =~= old(self).scores.deep_view().update(
                    i as int,
                    (player@, score),
                ));
            },
            None => {
                self.scores.push((player, score));
                assert(self.scores.deep_view() =~= old(self).scores.deep_view().push(
                    (player@, score),
                ));
            },
        }
        proof {
            if old(self)@.wf() {
                upsert_keeps_unique(old(self)@.scores, player@, score);
            }
        }
    }
}

impl Clone for State {
    /// A copy that holds the same values.
    fn clone(&self) -> (copy: State)
        ensures
            copy@ == self@,
    {
        let mut scores: Vec<(String, u16)> = Vec::new();
        let mut i: usize = 0;
        while i < self.scores.len()
            invariant
                i <= self.scores.len(),
                scores.len() == i,
                forall|j: int|
                    0 <= j < i ==> (#[trigger] scores@[j]).0@ == self.scores@[j].0@ && scores@[j].1
                        == self.scores@[j].1,
            decreases self.scores.len() - i,
        {
            let entry = (self.scores[i].0.clone(), self.scores[i].1);
            scores.push(entry);
            i += 1;
        }
        assert(scores.deep_view() =~= self.scores.deep_view());
        State { fortune: self.fortune, owner: self.owner.clone(), scores }
    }
}

} // verus!
