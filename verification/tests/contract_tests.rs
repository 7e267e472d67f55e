use token_sender::contract::{
    execute, execute_transfer_tokens, get_limit, get_validator, increment_limit, instantiate,
    query, send_token_to_contract, sudo, try_send_tokens, update_limit,
    update_limit_without_check,
};
use token_sender::error::ContractError;
use token_sender::msg::{ExecuteMsg, InstantiateMsg, QueryAnswer, QueryMsg, SudoMsg};
use token_sender::state::{Env, MessageInfo, PlatformAnswers, State};

fn no_answers() -> PlatformAnswers {
    PlatformAnswers { owner_balance: None, validated_sender: None, validated_recipient: None }
}

#[test]
fn instantiate_sets_limit_and_owner() {
    let info = MessageInfo { sender: "creator".to_string() };
    let (state, resp) = instantiate(info, InstantiateMsg { limit: 100 });
    assert_eq!(state.count, 100);
    assert_eq!(state.owner, "creator");
    assert_eq!(get_limit(&state).limit, 100);
    assert_eq!(get_validator(&state).validator, "creator");
    assert_eq!(resp.messages.len(), 0);
    assert_eq!(resp.attributes.len(), 3);
    assert_eq!(resp.attributes[0].key, "method");
    assert_eq!(resp.attributes[0].value, "instantiate");
    assert_eq!(resp.attributes[1].key, "owner");
    assert_eq!(resp.attributes[1].value, "creator");
    assert_eq!(resp.attributes[2].key, "count");
    assert_eq!(resp.attributes[2].value, "100");
}

#[test]
fn increment_accumulates() {
    let mut state = State { count: 7, owner: "alice".to_string() };
    let resp = increment_limit(&mut state);
    assert_eq!(resp.messages.len(), 0);
    assert_eq!(resp.attributes.len(), 0);
    assert_eq!(state.count, 8);
    let _ = get_limit(&state);
    increment_limit(&mut state);
    let _ = get_validator(&state);
    increment_limit(&mut state);
    assert_eq!(state.count, 10);
    assert_eq!(state.owner, "alice");
}

#[test]
fn update_limit_within_balance() {
    let mut state = State { count: 5, owner: "alice".to_string() };
    let resp = update_limit(&mut state, Some(10), 10).unwrap();
    assert_eq!(state.count, 10);
    assert_eq!(resp.messages.len(), 0);
    assert_eq!(resp.attributes.len(), 1);
    assert_eq!(resp.attributes[0].key, "action");
    assert_eq!(resp.attributes[0].value, "update_limit");
}

#[test]
fn update_limit_exceeding_balance_fails() {
    let mut state = State { count: 5, owner: "alice".to_string() };
    let err = update_limit(&mut state, Some(10), 11).unwrap_err();
    assert_eq!(err, ContractError::NotEnoughTokens {});
    assert_eq!(state.count, 5);
}

#[test]
fn update_limit_without_oracle_answer_fails() {
    let mut state = State { count: 5, owner: "alice".to_string() };
    let err = update_limit(&mut state, None, 3).unwrap_err();
    assert_eq!(err, ContractError::OracleError {});
    assert_eq!(state.count, 5);
}

#[test]
fn update_limit_without_check_ignores_balance() {
    let mut state = State { count: 50, owner: "alice".to_string() };
    let resp = update_limit_without_check(&mut state, 1_000_000_000_000_000_000_000_000_000);
    assert_eq!(state.count, 1_000_000_000_000_000_000_000_000_000);
    assert_eq!(resp.attributes[0].value, "update_limit_without_check");
    update_limit_without_check(&mut state, 3);
    assert_eq!(state.count, 3);
    assert_eq!(state.owner, "alice");
}

#[test]
fn consume_within_count() {
    let mut state = State { count: 50, owner: "alice".to_string() };
    let env = Env { contract_address: "contract1".to_string() };
    let resp = send_token_to_contract(&mut state, &env, 30).unwrap();
    assert_eq!(state.count, 20);
    assert_eq!(resp.messages.len(), 1);
    assert_eq!(resp.messages[0].to_address, "contract1");
    assert_eq!(resp.messages[0].denom, "token");
    assert_eq!(resp.messages[0].amount, 30);
    assert_eq!(resp.attributes.len(), 4);
    assert_eq!(resp.attributes[0].key, "action");
    assert_eq!(resp.attributes[0].value, "transfer");
    assert_eq!(resp.attributes[1].key, "from");
    assert_eq!(resp.attributes[1].value, "alice");
    assert_eq!(resp.attributes[2].key, "to");
    assert_eq!(resp.attributes[2].value, "contract1");
    assert_eq!(resp.attributes[3].key, "amount");
    assert_eq!(resp.attributes[3].value, "30");
}

#[test]
fn consume_exceeding_count_fails() {
    let mut state = State { count: 29, owner: "alice".to_string() };
    let env = Env { contract_address: "contract1".to_string() };
    let err = send_token_to_contract(&mut state, &env, 30).unwrap_err();
    assert_eq!(err, ContractError::NotEnoughTokens {});
    assert_eq!(state.count, 29);
}

#[test]
fn transfer_by_sender_succeeds() {
    let info = MessageInfo { sender: "bob".to_string() };
    let resp = execute_transfer_tokens(
        &info,
        "bob".to_string(),
        "carol".to_string(),
        Some("bob".to_string()),
        Some("carol".to_string()),
        4,
    )
    .unwrap();
    assert_eq!(resp.messages.len(), 1);
    assert_eq!(resp.messages[0].to_address, "carol");
    assert_eq!(resp.messages[0].denom, "token");
    assert_eq!(resp.messages[0].amount, 4);
    assert_eq!(resp.attributes.len(), 4);
    assert_eq!(resp.attributes[0].value, "transfer_tokens");
    assert_eq!(resp.attributes[1].key, "sender");
    assert_eq!(resp.attributes[1].value, "bob");
    assert_eq!(resp.attributes[2].key, "recipient");
    assert_eq!(resp.attributes[2].value, "carol");
    assert_eq!(resp.attributes[3].key, "amount");
    assert_eq!(resp.attributes[3].value, "4");
}

#[test]
fn transfer_by_other_caller_unauthorized() {
    let info = MessageInfo { sender: "mallory".to_string() };
    let err = execute_transfer_tokens(
        &info,
        "bob".to_string(),
        "carol".to_string(),
        Some("bob".to_string()),
        Some("carol".to_string()),
        4,
    )
    .unwrap_err();
    assert_eq!(err, ContractError::Unauthorized {});
}

#[test]
fn transfer_with_invalid_sender_address_fails() {
    let info = MessageInfo { sender: "bob".to_string() };
    let err = execute_transfer_tokens(
        &info,
        "not an address".to_string(),
        "carol".to_string(),
        None,
        Some("carol".to_string()),
        4,
    )
    .unwrap_err();
    assert_eq!(err, ContractError::InvalidAddress {});
}

#[test]
fn transfer_with_invalid_recipient_address_fails() {
    let info = MessageInfo { sender: "bob".to_string() };
    let err = execute_transfer_tokens(
        &info,
        "bob".to_string(),
        "not an address".to_string(),
        Some("bob".to_string()),
        None,
        4,
    )
    .unwrap_err();
    assert_eq!(err, ContractError::InvalidAddress {});
}

#[test]
fn send_tokens_to_validated_recipient() {
    let resp = try_send_tokens(Some("carol".to_string()), 12).unwrap();
    assert_eq!(resp.messages.len(), 1);
    assert_eq!(resp.messages[0].to_address, "carol");
    assert_eq!(resp.messages[0].denom, "token");
    assert_eq!(resp.messages[0].amount, 12);
    assert_eq!(resp.attributes.len(), 1);
    assert_eq!(resp.attributes[0].key, "action");
    assert_eq!(resp.attributes[0].value, "send_tokens");
}

#[test]
fn send_tokens_to_invalid_recipient_fails() {
    let err = try_send_tokens(None, 12).unwrap_err();
    assert_eq!(err, ContractError::InvalidAddress {});
}

#[test]
fn update_limit_scenario_keeps_old_limit_on_failure() {
    let info = MessageInfo { sender: "creator".to_string() };
    let (mut state, _) = instantiate(info, InstantiateMsg { limit: 100 });
    let info = MessageInfo { sender: "creator".to_string() };
    let answers = PlatformAnswers { owner_balance: Some(120), ..no_answers() };
    let err = execute(&mut state, &info, ExecuteMsg::UpdateLimit { limit: 150 }, answers)
        .unwrap_err();
    assert_eq!(err, ContractError::NotEnoughTokens {});
    assert_eq!(get_limit(&state).limit, 100);
}

#[test]
fn consume_scenario_via_privileged_entry() {
    let info = MessageInfo { sender: "creator".to_string() };
    let (mut state, _) = instantiate(info, InstantiateMsg { limit: 50 });
    let env = Env { contract_address: "contract1".to_string() };
    let resp = sudo(&mut state, &env, SudoMsg::SendTokenToContract { amount: 30 }).unwrap();
    assert_eq!(get_limit(&state).limit, 20);
    assert_eq!(resp.messages.len(), 1);
    assert_eq!(resp.messages[0].amount, 30);
}

#[test]
fn execute_routes_increment() {
    let mut state = State { count: 0, owner: "alice".to_string() };
    let info = MessageInfo { sender: "anyone".to_string() };
    let resp = execute(&mut state, &info, ExecuteMsg::IncrementLimit {}, no_answers()).unwrap();
    assert_eq!(state.count, 1);
    assert_eq!(resp.messages.len(), 0);
    assert_eq!(resp.attributes.len(), 0);
}

#[test]
fn execute_routes_update_without_check() {
    let mut state = State { count: 9, owner: "alice".to_string() };
    let info = MessageInfo { sender: "anyone".to_string() };
    execute(
        &mut state,
        &info,
        ExecuteMsg::UpdateLimitWithoutCheck { limit: 2 },
        no_answers(),
    )
    .unwrap();
    assert_eq!(state.count, 2);
}

#[test]
fn execute_routes_send_tokens() {
    let mut state = State { count: 9, owner: "alice".to_string() };
    let info = MessageInfo { sender: "anyone".to_string() };
    let answers = PlatformAnswers {
        validated_recipient: Some("carol".to_string()),
        ..no_answers()
    };
    let msg = ExecuteMsg::SendTokens { recipient: "carol".to_string(), amount: 3 };
    let resp = execute(&mut state, &info, msg, answers).unwrap();
    assert_eq!(state.count, 9);
    assert_eq!(resp.messages[0].to_address, "carol");
    assert_eq!(resp.messages[0].amount, 3);
}

#[test]
fn execute_routes_transfer_tokens() {
    let mut state = State { count: 9, owner: "alice".to_string() };
    let info = MessageInfo { sender: "bob".to_string() };
    let answers = PlatformAnswers {
        validated_sender: Some("bob".to_string()),
        validated_recipient: Some("carol".to_string()),
        ..no_answers()
    };
    let msg = ExecuteMsg::TransferTokens {
        sender: "bob".to_string(),
        recipient: "carol".to_string(),
        amount: 5,
    };
    let resp = execute(&mut state, &info, msg, answers).unwrap();
    assert_eq!(state.count, 9);
    assert_eq!(resp.messages[0].to_address, "carol");
    assert_eq!(resp.messages[0].amount, 5);
}

#[test]
fn query_answers_limit_and_validator() {
    let state = State { count: 42, owner: "alice".to_string() };
    match query(&state, QueryMsg::GetLimit {}) {
        QueryAnswer::Limit(resp) => assert_eq!(resp.limit, 42),
        QueryAnswer::Validator(_) => panic!("wrong answer kind"),
    }
    match query(&state, QueryMsg::GetValidator {}) {
        QueryAnswer::Validator(resp) => assert_eq!(resp.validator, "alice"),
        QueryAnswer::Limit(_) => panic!("wrong answer kind"),
    }
}
