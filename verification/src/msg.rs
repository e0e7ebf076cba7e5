//! The commands, and the answers to queries.

use vstd::prelude::*;
use crate::ledger::Scores;

verus! {

/// Who sent a command.
#[derive(Debug, Clone, PartialEq, Eq)]
pub struct MessageInfo {
    pub sender: String,
}

/// Asks for a migration. It carries nothing.
#[derive(Debug, Clone, PartialEq, Eq)]
pub struct MigrateMsg {}

/// Asks for the record to be created with this fortune.
#[derive(Debug, Clone, PartialEq, Eq)]
pub struct InstantiateMsg {
    pub fortune: i32,
}

/// A command that may change the record or ask for a transfer.
#[derive(Debug, Clone, PartialEq, Eq)]
pub enum ExecuteMsg {
    /// The sender reports a score.
    UpsertScore { score: u16 },
    /// The sender asks for `amount` units to be moved to `addr`.
    Send { addr: String, amount: u128 },
}

/// What an [`ExecuteMsg`] holds, as mathematical values.
pub enum ExecuteMsgView {
    UpsertScore { score: u16 },
    Send { addr: Seq<char>, amount: u128 },
}

impl View for ExecuteMsg {
    type V = ExecuteMsgView;

    open spec fn view(&self) -> ExecuteMsgView {
        match *self {
            ExecuteMsg::UpsertScore { score } => ExecuteMsgView::UpsertScore { score },
            ExecuteMsg::Send { addr, amount } => ExecuteMsgView::Send { addr: addr@, amount },
        }
    }
}

impl ExecuteMsg {
    /// Whether the command writes the record where it succeeds. Only a score
    /// report does; a request for a transfer reads the record and leaves it.
    pub fn writes(&self) -> (yes: bool)
        ensures
            yes == (self@ is UpsertScore),
    {
        match self {
            ExecuteMsg::UpsertScore { .. } => true,
            ExecuteMsg::Send { .. } => false,
        }
    }
}

/// A question about the record.
#[derive(Debug, Clone, PartialEq, Eq)]
pub enum QueryMsg {
    /// Asks for the fortune.
    GetFortune {},
    /// Asks for the ledger of scores.
    GetScores {},
}

/// The answer to [`QueryMsg::GetFortune`].
#[derive(Debug, Clone, PartialEq, Eq)]
pub struct FortuneResponse {
    pub fortune: i32,
}

/// The answer to [`QueryMsg::GetScores`]: the ledger, in its order.
#[derive(Debug, Clone, PartialEq, Eq)]
pub struct ScoreResponse {
    pub scores: Vec<(String, u16)>,
}

/// The answer to a query, before it is put into bytes.
#[derive(Debug, Clone, PartialEq, Eq)]
pub enum QueryResponse {
    Fortune(FortuneResponse),
    Scores(ScoreResponse),
}

/// What a [`QueryResponse`] holds, as mathematical values.
pub enum QueryResponseView {
    Fortune(i32),
    Scores(Scores),
}

impl View for QueryResponse {
    type V = QueryResponseView;

    open spec fn view(&self) -> QueryResponseView {
        match *self {
            QueryResponse::Fortune(answer) => QueryResponseView::Fortune(answer.fortune),
            QueryResponse::Scores(answer) => QueryResponseView::Scores(answer.scores.deep_view()),
        }
    }
}

} // verus!
