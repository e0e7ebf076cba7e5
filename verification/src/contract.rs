//! The commands. Each one is a single step: it reads the store, decides,
//! writes the store where it has changed the record, and answers. A command
//! that fails leaves the store as it found it.

use vstd::prelude::*;
use crate::error::ContractError;
use crate::msg::{
    ExecuteMsg, ExecuteMsgView, FortuneResponse, InstantiateMsg, MessageInfo, MigrateMsg, QueryMsg,
    QueryResponse, QueryResponseView, ScoreResponse,
};
use crate::response::{transfer_of, Response, ResponseView, TransferInstruction};
use crate::state::{State, StateView};
use crate::store::{Store, StoreView};
use crate::text::{decimal, signed_decimal, signed_text, unsigned_text};

verus! {

/// An answer or a refusal, as mathematical values.
pub open spec fn reply_view(reply: Result<Response, ContractError>) -> Result<
    ResponseView,
    ContractError,
> {
    match reply {
        Ok(response) => Ok(response@),
        Err(e) => Err(e),
    }
}

/// The answer to a query or a refusal, as mathematical values.
pub open spec fn answer_view(answer: Result<QueryResponse, ContractError>) -> Result<
    QueryResponseView,
    ContractError,
> {
    match answer {
        Ok(response) => Ok(response@),
        Err(e) => Err(e),
    }
}

/// The store after the record was created by `sender` with `fortune`.
pub open spec fn created(sender: Seq<char>, fortune: i32) -> StoreView {
    StoreView::Record(StateView { fortune, owner: sender, scores: Seq::empty() })
}

/// The answer to the creation of the record.
pub open spec fn instantiate_reply(sender: Seq<char>, fortune: i32) -> ResponseView {
    ResponseView::empty().attribute("method"@, "instantiate"@).attribute(
        "owner"@,
        sender,
    ).attribute("fortune"@, signed_decimal(fortune as int))
}

/// The answer to a score that was recorded.
pub open spec fn upsert_reply(sender: Seq<char>, score: u16) -> ResponseView {
    ResponseView::empty().attribute("method"@, "upsert"@).attribute("player"@, sender).attribute(
        "score"@,
        decimal(score as nat),
    )
}

/// The answer to a transfer that was granted: three attributes, and the one
/// instruction to move `amount` to `addr`.
pub open spec fn send_reply(addr: Seq<char>, amount: u128) -> ResponseView {
    ResponseView::empty().attribute("method"@, "send"@).attribute("player"@, addr).attribute(
        "amount"@,
        decimal(amount as nat),
    ).message(transfer_of(addr, amount))
}

/// The store and the reply after `sender` has reported `score`.
pub open spec fn upsert_outcome(store: StoreView, sender: Seq<char>, score: u16) -> (
    StoreView,
    Result<ResponseView, ContractError>,
) {
    match store.load() {
        Ok(state) => (
            StoreView::Record(state.with_score(sender, score)),
            Ok(upsert_reply(sender, score)),
        ),
        Err(e) => (store, Err(e)),
    }
}

/// The store and the reply after `sender` has asked for `amount` to be moved
/// to `addr`. The store is the one that was found, whatever the reply.
pub open spec fn send_outcome(store: StoreView, sender: Seq<char>, addr: Seq<char>, amount: u128)
    -> (StoreView, Result<ResponseView, ContractError>) {
    match store.load() {
        Ok(state) => if state.owner == sender {
            (store, Ok(send_reply(addr, amount)))
        } else {
            (store, Err(ContractError::Unauthorized {  }))
        },
        Err(e) => (store, Err(e)),
    }
}

/// The store and the reply after `sender` has given the command `msg`.
pub open spec fn execute_outcome(store: StoreView, sender: Seq<char>, msg: ExecuteMsgView) -> (
    StoreView,
    Result<ResponseView, ContractError>,
) {
    match msg {
        ExecuteMsgView::UpsertScore { score } => upsert_outcome(store, sender, score),
        ExecuteMsgView::Send { addr, amount } => send_outcome(store, sender, addr, amount),
    }
}

/// The answer to the question `msg` about `store`.
pub open spec fn query_outcome(store: StoreView, msg: QueryMsg) -> Result<
    QueryResponseView,
    ContractError,
> {
    match store.load() {
        Ok(state) => match msg {
            QueryMsg::GetFortune {  } => Ok(QueryResponseView::Fortune(state.fortune)),
            QueryMsg::GetScores {  } => Ok(QueryResponseView::Scores(state.scores)),
        },
        Err(e) => Err(e),
    }
}

/// Migrates the record. There is nothing to migrate yet: the store stays as it
/// is, field by field, and the answer is empty.
pub fn migrate(store: &mut Store, _msg: MigrateMsg) -> (reply: Result<Response, ContractError>)
    ensures
        *final(store) == *old(store),
        reply_view(reply) == Ok::<ResponseView, ContractError>(ResponseView::empty()),
{
    Ok(Response::default())
}

/// Creates the record: the sender becomes the owner, the fortune is the one
/// asked for, and the ledger is empty. Whatever the store held is written over.
pub fn instantiate(store: &mut Store, info: MessageInfo, msg: InstantiateMsg) -> (reply: Result<
    Response,
    ContractError,
>)
    ensures
        final(store)@ == created(info.sender@, msg.fortune),
        final(store)@.wf(),
        reply_view(reply) == Ok::<ResponseView, ContractError>(
            instantiate_reply(info.sender@, msg.fortune),
        ),
{
    let state = State::new(msg.fortune, info.sender.clone());
    store.save(state);
    Ok(
        Response::new().add_attribute("method", "instantiate".to_owned()).add_attribute(
            "owner",
            info.sender,
        ).add_attribute("fortune", signed_text(msg.fortune)),
    )
}

/// Carries out a command: a score report or a request for a transfer.
pub fn execute(store: &mut Store, info: MessageInfo, msg: ExecuteMsg) -> (reply: Result<
    Response,
    ContractError,
>)
    ensures
        (final(store)@, reply_view(reply)) == execute_outcome(old(store)@, info.sender@, msg@),
        reply is Err ==> *final(store) == *old(store),
        old(store)@.wf() ==> final(store)@.wf(),
{
    match msg {
        ExecuteMsg::UpsertScore { score } => try_upsert_score(store, info, score),
        ExecuteMsg::Send { addr, amount } => send(store, info, addr, amount),
    }
}

/// Records `score` for the sender: reads the record, puts the score into the
/// ledger, and writes the record back. Where the store cannot be read, the
/// command fails with the reason and the store stays as it is.
pub fn try_upsert_score(store: &mut Store, info: MessageInfo, score: u16) -> (reply: Result<
    Response,
    ContractError,
>)
    ensures
        (final(store)@, reply_view(reply)) == upsert_outcome(old(store)@, info.sender@, score),
        reply is Err ==> *final(store) == *old(store),
        old(store)@.wf() ==> final(store)@.wf(),
{
    let mut state = match store.load() {
        Ok(state) => state,
        Err(e) => {
            return Err(e);
        },
    };
    state.upsert(info.sender.clone(), score);
    store.save(state);
    Ok(
        Response::new().add_attribute("method", "upsert".to_owned()).add_attribute(
            "player",
            info.sender,
        ).add_attribute("score", unsigned_text(score as u128)),
    )
}

/// Asks for `amount` units to be moved to `addr`. Only the owner may ask:
/// any other sender is refused with `Unauthorized` and no instruction is
/// written. The owner gets exactly one instruction, for `amount` units of the
/// fixed currency unit to `addr`. The store is never changed.
pub fn send(store: &mut Store, info: MessageInfo, addr: String, amount: u128) -> (reply: Result<
    Response,
    ContractError,
>)
    ensures
        *final(store) == *old(store),
        reply_view(reply) == send_outcome(old(store)@, info.sender@, addr@, amount).1,
        old(store)@ matches StoreView::Record(state) ==> {
            if state.owner == info.sender@ {
                &&& reply matches Ok(response)
                &&& response@.messages == seq![transfer_of(addr@, amount)]
            } else {
                reply == Err::<Response, ContractError>(ContractError::Unauthorized {  })
            }
        },
{
    let state = match store.load() {
        Ok(state) => state,
        Err(e) => {
            return Err(e);
        },
    };
    if !state.is_owner(&info.sender) {
        return Err(ContractError::Unauthorized {  });
    }
    let msg = TransferInstruction::new(addr.clone(), amount);
    Ok(
        Response::new().add_attribute("method", "send".to_owned()).add_attribute(
            "player",
            addr,
        ).add_attribute("amount", unsigned_text(amount)).add_message(msg),
    )
}

/// Answers a question about the record. The store is only read.
pub fn query(store: &Store, msg: QueryMsg) -> (answer: Result<QueryResponse, ContractError>)
    ensures
        answer_view(answer) == query_outcome(store@, msg),
{
    match msg {
        QueryMsg::GetFortune {  } => match query_fortune(store) {
            Ok(fortune) => Ok(QueryResponse::Fortune(fortune)),
            Err(e) => Err(e),
        },
        QueryMsg::GetScores {  } => match query_scores(store) {
            Ok(scores) => Ok(QueryResponse::Scores(scores)),
            Err(e) => Err(e),
        },
    }
}

/// The fortune of the record.
pub fn query_fortune(store: &Store) -> (answer: Result<FortuneResponse, ContractError>)
    ensures
        match store@.load() {
            Ok(state) => answer matches Ok(response) && response.fortune == state.fortune,
            Err(e) => answer == Err::<FortuneResponse, ContractError>(e),
        },
{
    let state = match store.load() {
        Ok(state) => state,
        Err(e) => {
            return Err(e);
        },
    };
    Ok(FortuneResponse { fortune: state.fortune })
}

/// The ledger of the record, in its order.
pub fn query_scores(store: &Store) -> (answer: Result<ScoreResponse, ContractError>)
    ensures
        match store@.load() {
            Ok(state) => answer matches Ok(response) && response.scores.deep_view()
                == state.scores,
            Err(e) => answer == Err::<ScoreResponse, ContractError>(e),
        },
{
    let state = match store.load() {
        Ok(state) => state,
        Err(e) => {
            return Err(e);
        },
    };
    Ok(ScoreResponse { scores: state.scores })
}

} // verus!
