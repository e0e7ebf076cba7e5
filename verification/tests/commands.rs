use clicker::contract::{
    execute, instantiate, migrate, query, query_fortune, query_scores, send, try_upsert_score,
};
use clicker::error::ContractError;
use clicker::msg::{
    ExecuteMsg, FortuneResponse, InstantiateMsg, MessageInfo, MigrateMsg, QueryMsg, QueryResponse,
    ScoreResponse,
};
use clicker::response::{Attribute, Coin, Response, TransferInstruction, DENOM};
use clicker::state::State;
use clicker::store::Store;

fn from(sender: &str) -> MessageInfo {
    MessageInfo { sender: sender.to_string() }
}

fn attr(key: &str, value: &str) -> Attribute {
    Attribute { key: key.to_string(), value: value.to_string() }
}

fn entry(player: &str, score: u16) -> (String, u16) {
    (player.to_string(), score)
}

fn created(owner: &str, fortune: i32) -> Store {
    let mut store = Store::new();
    instantiate(&mut store, from(owner), InstantiateMsg { fortune }).unwrap();
    store
}

fn scores_of(store: &Store) -> Vec<(String, u16)> {
    query_scores(store).unwrap().scores
}

#[test]
fn scenario_create_score_and_send() {
    let mut store = Store::new();
    instantiate(&mut store, from("alice"), InstantiateMsg { fortune: 1234 }).unwrap();
    match &store {
        Store::Record(state) => assert_eq!(state.owner, "alice"),
        _ => panic!("no record after creation"),
    }

    execute(&mut store, from("bob"), ExecuteMsg::UpsertScore { score: 10 }).unwrap();
    assert_eq!(scores_of(&store), vec![entry("bob", 10)]);

    execute(&mut store, from("bob"), ExecuteMsg::UpsertScore { score: 20 }).unwrap();
    assert_eq!(scores_of(&store), vec![entry("bob", 20)]);

    execute(&mut store, from("carol"), ExecuteMsg::UpsertScore { score: 5 }).unwrap();
    assert_eq!(scores_of(&store), vec![entry("bob", 20), entry("carol", 5)]);

    let refused = execute(
        &mut store,
        from("bob"),
        ExecuteMsg::Send { addr: "x".to_string(), amount: 100 },
    );
    assert_eq!(refused, Err(ContractError::Unauthorized {}));

    let granted = execute(
        &mut store,
        from("alice"),
        ExecuteMsg::Send { addr: "x".to_string(), amount: 100 },
    )
    .unwrap();
    assert_eq!(
        granted.messages,
        vec![TransferInstruction {
            to: "x".to_string(),
            funds: vec![Coin { denom: "uusd".to_string(), amount: 100 }],
        }]
    );
}

#[test]
fn instantiate_stores_the_record_and_answers() {
    let mut store = Store::new();
    let reply = instantiate(&mut store, from("alice"), InstantiateMsg { fortune: 1234 });
    assert_eq!(
        store,
        Store::Record(State { fortune: 1234, owner: "alice".to_string(), scores: vec![] })
    );
    assert_eq!(
        reply,
        Ok(Response {
            attributes: vec![
                attr("method", "instantiate"),
                attr("owner", "alice"),
                attr("fortune", "1234"),
            ],
            messages: vec![],
        })
    );
}

#[test]
fn instantiate_writes_a_negative_fortune_with_its_sign() {
    let mut store = Store::new();
    let reply = instantiate(&mut store, from("o"), InstantiateMsg { fortune: -7 }).unwrap();
    assert_eq!(reply.attributes[2], attr("fortune", "-7"));
    assert_eq!(query_fortune(&store), Ok(FortuneResponse { fortune: -7 }));
}

#[test]
fn instantiate_again_writes_over_the_record() {
    let mut store = created("alice", 1);
    execute(&mut store, from("bob"), ExecuteMsg::UpsertScore { score: 3 }).unwrap();
    instantiate(&mut store, from("dave"), InstantiateMsg { fortune: 2 }).unwrap();
    assert_eq!(
        store,
        Store::Record(State { fortune: 2, owner: "dave".to_string(), scores: vec![] })
    );
}

#[test]
fn instantiate_repairs_a_malformed_store() {
    let mut store = Store::Malformed;
    instantiate(&mut store, from("alice"), InstantiateMsg { fortune: 9 }).unwrap();
    assert_eq!(query_fortune(&store), Ok(FortuneResponse { fortune: 9 }));
}

#[test]
fn migrate_changes_nothing() {
    let mut store = created("alice", 1234);
    execute(&mut store, from("bob"), ExecuteMsg::UpsertScore { score: 10 }).unwrap();
    let before = store.clone();
    let reply = migrate(&mut store, MigrateMsg {});
    assert_eq!(reply, Ok(Response { attributes: vec![], messages: vec![] }));
    assert_eq!(store, before);

    let mut empty = Store::new();
    assert_eq!(migrate(&mut empty, MigrateMsg {}), Ok(Response::default()));
    assert_eq!(empty, Store::Empty);
}

#[test]
fn upsert_answers_with_method_player_and_score() {
    let mut store = created("alice", 0);
    let reply = try_upsert_score(&mut store, from("bob"), 65535);
    assert_eq!(
        reply,
        Ok(Response {
            attributes: vec![attr("method", "upsert"), attr("player", "bob"), attr("score", "65535")],
            messages: vec![],
        })
    );
    assert_eq!(scores_of(&store), vec![entry("bob", 65535)]);
}

#[test]
fn upsert_accepts_a_score_of_zero() {
    let mut store = created("alice", 0);
    let reply = try_upsert_score(&mut store, from("bob"), 0).unwrap();
    assert_eq!(reply.attributes[2], attr("score", "0"));
    assert_eq!(scores_of(&store), vec![entry("bob", 0)]);
}

#[test]
fn upsert_twice_keeps_one_entry_with_the_last_score() {
    let mut store = created("alice", 0);
    try_upsert_score(&mut store, from("zed"), 1).unwrap();
    try_upsert_score(&mut store, from("bob"), 7).unwrap();
    let once = scores_of(&store);
    try_upsert_score(&mut store, from("bob"), 9).unwrap();
    let twice = scores_of(&store);
    assert_eq!(once.len(), twice.len());
    assert_eq!(twice, vec![entry("zed", 1), entry("bob", 9)]);
    assert_eq!(twice.iter().filter(|(player, _)| player == "bob").count(), 1);
}

#[test]
fn upsert_of_the_same_score_twice_is_upsert_once() {
    let mut store = created("alice", 0);
    try_upsert_score(&mut store, from("bob"), 7).unwrap();
    let once = store.clone();
    try_upsert_score(&mut store, from("bob"), 7).unwrap();
    assert_eq!(store, once);
}

#[test]
fn upsert_of_another_player_keeps_the_first_in_place() {
    let mut store = created("alice", 0);
    try_upsert_score(&mut store, from("a"), 1).unwrap();
    try_upsert_score(&mut store, from("b"), 2).unwrap();
    assert_eq!(scores_of(&store), vec![entry("a", 1), entry("b", 2)]);
    try_upsert_score(&mut store, from("a"), 3).unwrap();
    assert_eq!(scores_of(&store), vec![entry("a", 3), entry("b", 2)]);
}

#[test]
fn upsert_of_a_player_who_stood_first_leaves_that_player_first() {
    let mut store = created("alice", 0);
    try_upsert_score(&mut store, from("b"), 1).unwrap();
    try_upsert_score(&mut store, from("a"), 2).unwrap();
    try_upsert_score(&mut store, from("b"), 3).unwrap();
    assert_eq!(scores_of(&store), vec![entry("b", 3), entry("a", 2)]);
}

#[test]
fn upsert_by_the_owner_is_a_score_like_any_other() {
    let mut store = created("alice", 0);
    try_upsert_score(&mut store, from("alice"), 4).unwrap();
    assert_eq!(scores_of(&store), vec![entry("alice", 4)]);
}

#[test]
fn identities_are_compared_exactly() {
    let mut store = created("Alice", 0);
    try_upsert_score(&mut store, from("bob"), 1).unwrap();
    try_upsert_score(&mut store, from("Bob"), 2).unwrap();
    try_upsert_score(&mut store, from("bob "), 3).unwrap();
    try_upsert_score(&mut store, from(""), 4).unwrap();
    assert_eq!(
        scores_of(&store),
        vec![entry("bob", 1), entry("Bob", 2), entry("bob ", 3), entry("", 4)]
    );
    let refused = send(&mut store, from("alice"), "x".to_string(), 1);
    assert_eq!(refused, Err(ContractError::Unauthorized {}));
    assert!(send(&mut store, from("Alice"), "x".to_string(), 1).is_ok());
}

#[test]
fn upsert_on_an_empty_store_is_not_found() {
    let mut store = Store::new();
    let reply = execute(&mut store, from("bob"), ExecuteMsg::UpsertScore { score: 1 });
    assert_eq!(reply, Err(ContractError::NotFound));
    assert_eq!(store, Store::Empty);
}

#[test]
fn upsert_on_a_malformed_store_is_a_serialization_failure() {
    let mut store = Store::Malformed;
    let reply = execute(&mut store, from("bob"), ExecuteMsg::UpsertScore { score: 1 });
    assert_eq!(reply, Err(ContractError::SerializationFailure));
    assert_eq!(store, Store::Malformed);
}

#[test]
fn send_from_a_stranger_is_refused_and_changes_nothing() {
    let mut store = created("alice", 1234);
    try_upsert_score(&mut store, from("bob"), 10).unwrap();
    let before = store.clone();
    let reply = send(&mut store, from("bob"), "x".to_string(), 100);
    assert_eq!(reply, Err(ContractError::Unauthorized {}));
    assert_eq!(store, before);
    assert_eq!(query_fortune(&store), Ok(FortuneResponse { fortune: 1234 }));
}

#[test]
fn send_from_the_owner_writes_one_instruction() {
    let mut store = created("alice", 1234);
    try_upsert_score(&mut store, from("bob"), 10).unwrap();
    let before = store.clone();
    let reply = send(&mut store, from("alice"), "terra1dest".to_string(), 100);
    assert_eq!(
        reply,
        Ok(Response {
            attributes: vec![
                attr("method", "send"),
                attr("player", "terra1dest"),
                attr("amount", "100"),
            ],
            messages: vec![TransferInstruction {
                to: "terra1dest".to_string(),
                funds: vec![Coin { denom: DENOM.to_string(), amount: 100 }],
            }],
        })
    );
    assert_eq!(store, before);
}

#[test]
fn send_carries_the_largest_and_the_smallest_amount() {
    let mut store = created("alice", 0);
    let most = send(&mut store, from("alice"), "x".to_string(), u128::MAX).unwrap();
    assert_eq!(most.attributes[2], attr("amount", "340282366920938463463374607431768211455"));
    assert_eq!(most.messages[0].funds, vec![Coin { denom: "uusd".to_string(), amount: u128::MAX }]);
    let none = send(&mut store, from("alice"), "x".to_string(), 0).unwrap();
    assert_eq!(none.attributes[2], attr("amount", "0"));
    assert_eq!(none.messages.len(), 1);
    assert_eq!(none.messages[0].funds[0].amount, 0);
}

#[test]
fn send_on_an_empty_store_is_not_found() {
    let mut store = Store::new();
    let reply = send(&mut store, from("alice"), "x".to_string(), 1);
    assert_eq!(reply, Err(ContractError::NotFound));
    assert_eq!(store, Store::Empty);
}

#[test]
fn send_on_a_malformed_store_is_a_serialization_failure() {
    let mut store = Store::Malformed;
    let reply = send(&mut store, from("alice"), "x".to_string(), 1);
    assert_eq!(reply, Err(ContractError::SerializationFailure));
    assert_eq!(store, Store::Malformed);
}

#[test]
fn query_answers_from_the_record() {
    let mut store = created("alice", 1234);
    try_upsert_score(&mut store, from("bob"), 10).unwrap();
    try_upsert_score(&mut store, from("carol"), 5).unwrap();
    assert_eq!(
        query(&store, QueryMsg::GetFortune {}),
        Ok(QueryResponse::Fortune(FortuneResponse { fortune: 1234 }))
    );
    assert_eq!(
        query(&store, QueryMsg::GetScores {}),
        Ok(QueryResponse::Scores(ScoreResponse {
            scores: vec![entry("bob", 10), entry("carol", 5)]
        }))
    );
}

#[test]
fn query_fails_only_where_the_store_cannot_be_read() {
    assert_eq!(query(&Store::Empty, QueryMsg::GetFortune {}), Err(ContractError::NotFound));
    assert_eq!(query(&Store::Empty, QueryMsg::GetScores {}), Err(ContractError::NotFound));
    assert_eq!(
        query(&Store::Malformed, QueryMsg::GetFortune {}),
        Err(ContractError::SerializationFailure)
    );
    assert_eq!(query_scores(&Store::Malformed), Err(ContractError::SerializationFailure));
    assert_eq!(query_fortune(&Store::Empty), Err(ContractError::NotFound));
}

#[test]
fn fortune_stays_through_every_command() {
    let mut store = created("alice", i32::MIN);
    let asked = |store: &Store| query_fortune(store).unwrap().fortune;
    assert_eq!(asked(&store), i32::MIN);
    execute(&mut store, from("bob"), ExecuteMsg::UpsertScore { score: 1 }).unwrap();
    assert_eq!(asked(&store), i32::MIN);
    let _ = execute(
        &mut store,
        from("bob"),
        ExecuteMsg::Send { addr: "x".to_string(), amount: 5 },
    );
    assert_eq!(asked(&store), i32::MIN);
    execute(&mut store, from("alice"), ExecuteMsg::Send { addr: "x".to_string(), amount: 5 })
        .unwrap();
    assert_eq!(asked(&store), i32::MIN);
    migrate(&mut store, MigrateMsg {}).unwrap();
    query(&store, QueryMsg::GetScores {}).unwrap();
    assert_eq!(asked(&store), i32::MIN);

    let top = created("alice", i32::MAX);
    assert_eq!(asked(&top), i32::MAX);
}
