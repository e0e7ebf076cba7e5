//! What holds of the commands, whatever the store and whoever sends them.

use vstd::prelude::*;
use crate::contract::{created, execute_outcome, query_outcome};
use crate::error::ContractError;
use crate::ledger::upsert_keeps_unique;
use crate::msg::{ExecuteMsgView, QueryMsg, QueryResponseView};
use crate::response::{transfer_of, ResponseView};
use crate::store::StoreView;

verus! {

/// A command that may follow the creation of the record.
pub enum Command {
    /// A migration.
    Migrate,
    /// A score report or a request for a transfer, with the identity that sent it.
    Execute { sender: Seq<char>, msg: ExecuteMsgView },
    /// A question about the record.
    Query { msg: QueryMsg },
}

/// The store that a command leaves. Only a score report writes; a migration,
/// a request for a transfer and a question leave the store that they found.
pub open spec fn after_command(store: StoreView, command: Command) -> StoreView {
    match command {
        Command::Migrate => store,
        Command::Execute { sender, msg } => execute_outcome(store, sender, msg).0,
        Command::Query { .. } => store,
    }
}

/// The store that a sequence of commands leaves, the first command first.
pub open spec fn after_commands(store: StoreView, commands: Seq<Command>) -> StoreView
    decreases commands.len(),
{
    if commands.len() == 0 {
        store
    } else {
        after_command(after_commands(store, commands.drop_last()), commands.last())
    }
}

/// Once a record is stored, no sequence of commands changes its fortune or
/// its owner.
pub proof fn fortune_is_permanent(store: StoreView, commands: Seq<Command>)
    requires
        store is Record,
    ensures
        after_commands(store, commands) matches StoreView::Record(state) && state.fortune
            == store->Record_0.fortune && state.owner == store->Record_0.owner,
    decreases commands.len(),
{
    if commands.len() > 0 {
        fortune_is_permanent(store, commands.drop_last());
    }
}

/// The question for the fortune is answered with the fortune that the record
/// was created with, whatever commands have followed the creation.
pub proof fn fortune_after_creation(sender: Seq<char>, fortune: i32, commands: Seq<Command>)
    ensures
        query_outcome(
            after_commands(created(sender, fortune), commands),
            QueryMsg::GetFortune {  },
        ) == Ok::<QueryResponseView, ContractError>(QueryResponseView::Fortune(fortune)),
{
    fortune_is_permanent(created(sender, fortune), commands);
}

/// A store whose record has no double entries has none after any sequence of
/// commands.
pub proof fn commands_keep_invariant(store: StoreView, commands: Seq<Command>)
    requires
        store.wf(),
    ensures
        after_commands(store, commands).wf(),
    decreases commands.len(),
{
    if commands.len() > 0 {
        commands_keep_invariant(store, commands.drop_last());
        let before = after_commands(store, commands.drop_last());
        if let StoreView::Record(state) = before {
            if let Command::Execute { sender, msg: ExecuteMsgView::UpsertScore { score } } =
                commands.last() {
                upsert_keeps_unique(state.scores, sender, score);
            }
        }
    }
}

/// A command that fails leaves the store exactly as it found it.
pub proof fn failure_changes_nothing(store: StoreView, sender: Seq<char>, msg: ExecuteMsgView)
    requires
        execute_outcome(store, sender, msg).1 is Err,
    ensures
        execute_outcome(store, sender, msg).0 == store,
{
}

/// A question fails only where the store cannot be read, and then with the
/// reason that reading gives.
pub proof fn query_fails_only_unread(store: StoreView, msg: QueryMsg)
    ensures
        query_outcome(store, msg) is Err <==> store.load() is Err,
        store.load() matches Err(e) ==> query_outcome(store, msg) == Err::<
            QueryResponseView,
            ContractError,
        >(e),
{
}

/// Only a score report writes the record: any other command leaves the store
/// as it found it, whether it succeeds or fails.
pub proof fn only_score_reports_write(store: StoreView, sender: Seq<char>, msg: ExecuteMsgView)
    requires
        !(msg is UpsertScore),
    ensures
        execute_outcome(store, sender, msg).0 == store,
{
}

/// A request for a transfer from anyone but the owner is refused as
/// unauthorized: the record stays as it is and no instruction is written.
pub proof fn transfer_needs_owner(
    store: StoreView,
    sender: Seq<char>,
    addr: Seq<char>,
    amount: u128,
)
    requires
        store matches StoreView::Record(state) && state.owner != sender,
    ensures
        execute_outcome(store, sender, ExecuteMsgView::Send { addr, amount }) == (
            store,
            Err::<ResponseView, ContractError>(ContractError::Unauthorized {  }),
        ),
{
}

/// A request for a transfer from the owner is answered with exactly one
/// instruction, to move the amount asked for to the address asked for, and
/// the record stays as it is.
pub proof fn owner_gets_one_transfer(
    store: StoreView,
    sender: Seq<char>,
    addr: Seq<char>,
    amount: u128,
)
    requires
        store matches StoreView::Record(state) && state.owner == sender,
    ensures
        ({
            let outcome = execute_outcome(store, sender, ExecuteMsgView::Send { addr, amount });
            &&& outcome.0 == store
            &&& outcome.1 matches Ok(response)
            &&& response.messages == seq![transfer_of(addr, amount)]
        }),
{
}

} // verus!
