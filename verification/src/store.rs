//! The single slot in which the record is kept between commands.

use vstd::prelude::*;
use crate::error::ContractError;
use crate::state::{State, StateView};

verus! {

/// The slot as a command finds it. A command reads the whole record, works on
/// its copy, and writes the whole record back; nothing is updated in part.
#[derive(Debug, Clone, PartialEq, Eq)]
pub enum Store {
    /// Nothing was written yet.
    Empty,
    /// Something was written that does not decode to a record.
    Malformed,
    /// The record that was written last.
    Record(State),
}

/// What a [`Store`] holds, as mathematical values.
pub enum StoreView {
    Empty,
    Malformed,
    Record(StateView),
}

impl View for Store {
    type V = StoreView;

    open spec fn view(&self) -> StoreView {
        match *self {
            Store::Empty => StoreView::Empty,
            Store::Malformed => StoreView::Malformed,
            Store::Record(state) => StoreView::Record(state@),
        }
    }
}

impl StoreView {
    /// A record in the slot keeps its invariant.
    pub open spec fn wf(self) -> bool {
        self matches StoreView::Record(state) ==> state.wf()
    }

    /// What reading the slot gives: the record, or the reason why there is none.
    pub open spec fn load(self) -> Result<StateView, ContractError> {
        match self {
            StoreView::Empty => Err(ContractError::NotFound),
            StoreView::Malformed => Err(ContractError::SerializationFailure),
            StoreView::Record(state) => Ok(state),
        }
    }
}

impl Store {
    /// A slot into which nothing was written.
    pub fn new() -> (store: Store)
        ensures
            store@ == StoreView::Empty,
    {
        Store::Empty
    }

    /// Reads the slot: a copy of the record, `NotFound` where nothing was
    /// written, `SerializationFailure` where what was written is no record.
    pub fn load(&self) -> (read: Result<State, ContractError>)
        ensures
            match self@.load() {
                Ok(state) => read matches Ok(copy) && copy@ == state,
                Err(e) => read == Err::<State, ContractError>(e),
            },
    {
        match self {
            Store::Empty => Err(ContractError::NotFound),
            Store::Malformed => Err(ContractError::SerializationFailure),
            Store::Record(state) => Ok(state.clone()),
        }
    }

    /// Writes `state` over whatever the slot held.
    pub fn save(&mut self, state: State)
        ensures
            final(self)@ == StoreView::Record(state@),
    {
        *self = Store::Record(state);
    }
}

} // verus!
