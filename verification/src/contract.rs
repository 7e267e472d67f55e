//! The Limit Ledger's state transitions: every operation loads nothing and
//! stores nothing itself — the platform adapter hands in the current record
//! and the answers of the external collaborators, and persists the record
//! afterwards — so each function here is the complete decision logic of one
//! request.

use vstd::prelude::*;

use crate::decimal::{decimal_string, spec_decimal};
use crate::error::ContractError;
use crate::msg::{
    ExecuteMsg, GetLimitResponse, GetValidatorResponse, InstantiateMsg, QueryAnswer, QueryMsg,
    SudoMsg,
};
use crate::response::{
    action_only_response, attr_is, bank_send_is, denom, BankSend, Response,
};
use crate::state::{Env, MessageInfo, PlatformAnswers, State};

verus! {

/// Instantiation created `st` for creator `sender` with initial limit
/// `limit`, and answered with `r`.
pub open spec fn instantiated(sender: Seq<char>, limit: u128, st: State, r: Response) -> bool {
    &&& st.count == limit
    &&& st.owner@ == sender
    &&& r.messages@.len() == 0
    &&& r.attributes@.len() == 3
    &&& attr_is(r.attributes@[0], "method"@, "instantiate"@)
    &&& attr_is(r.attributes@[1], "owner"@, sender)
    &&& attr_is(r.attributes@[2], "count"@, spec_decimal(limit as nat))
}

/// One increment of the limit: the count rises by exactly 1 and the owner is
/// kept.
pub open spec fn increment_step(pre: State, post: State) -> bool {
    post.count == pre.count + 1 && post.owner == pre.owner
}

/// The increment operation applied: one increment step, answered with an
/// empty response.
pub open spec fn increment_applied(pre: State, post: State, r: Response) -> bool {
    &&& increment_step(pre, post)
    &&& r.messages@.len() == 0
    &&& r.attributes@.len() == 0
}

/// The count was overwritten with `limit` and the owner kept.
pub open spec fn limit_set(pre: State, post: State, limit: u128) -> bool {
    post.count == limit && post.owner == pre.owner
}

/// The outcome of the balance-checked update: with an oracle answer `b`, it
/// succeeds exactly when `limit <= b`; without one it fails; on any failure
/// the record is untouched.
pub open spec fn update_limit_outcome(
    pre: State,
    post: State,
    balance: Option<u128>,
    limit: u128,
    r: Result<Response, ContractError>,
) -> bool {
    match balance {
        Some(b) => if limit <= b {
            r matches Ok(resp) && limit_set(pre, post, limit) && action_only_response(
                resp,
                "update_limit"@,
            )
        } else {
            &&& r matches Err(e) && e == (ContractError::NotEnoughTokens {})
            &&& post == pre
        },
        None => {
            &&& r matches Err(e) && e == (ContractError::OracleError {})
            &&& post == pre
        },
    }
}

/// The outcome of the open send: with a validated recipient the contract
/// emits exactly one transfer of `amount` to it; an unvalidated recipient is
/// refused.
pub open spec fn send_tokens_outcome(
    recipient: Option<String>,
    amount: u128,
    r: Result<Response, ContractError>,
) -> bool {
    match recipient {
        Some(to) => {
            &&& r matches Ok(resp)
            &&& resp.messages@.len() == 1
            &&& bank_send_is(resp.messages@[0], to@, amount)
            &&& resp.attributes@.len() == 1
            &&& attr_is(resp.attributes@[0], "action"@, "send_tokens"@)
        },
        None => r matches Err(e) && e == (ContractError::InvalidAddress {}),
    }
}

/// The outcome of the caller-gated transfer: both addresses must validate,
/// the caller must be the validated sender, and only then is exactly one
/// transfer of `amount` to the validated recipient emitted.
pub open spec fn transfer_tokens_outcome(
    caller: Seq<char>,
    sender: Seq<char>,
    recipient: Seq<char>,
    validated_sender: Option<String>,
    validated_recipient: Option<String>,
    amount: u128,
    r: Result<Response, ContractError>,
) -> bool {
    match (validated_sender, validated_recipient) {
        (None, _) => r matches Err(e) && e == (ContractError::InvalidAddress {}),
        (Some(_), None) => r matches Err(e) && e == (ContractError::InvalidAddress {}),
        (Some(s), Some(to)) => if caller != s@ {
            r matches Err(e) && e == (ContractError::Unauthorized {})
        } else {
            &&& r matches Ok(resp)
            &&& resp.messages@.len() == 1
            &&& bank_send_is(resp.messages@[0], to@, amount)
            &&& resp.attributes@.len() == 4
            &&& attr_is(resp.attributes@[0], "action"@, "transfer_tokens"@)
            &&& attr_is(resp.attributes@[1], "sender"@, sender)
            &&& attr_is(resp.attributes@[2], "recipient"@, recipient)
            &&& attr_is(resp.attributes@[3], "amount"@, spec_decimal(amount as nat))
        },
    }
}

/// The outcome of the privileged consumption: with `amount <= count` the
/// count drops by exactly `amount` and one transfer of `amount` to the
/// contract's own address is emitted; otherwise the call fails and the
/// record is untouched.
pub open spec fn consume_outcome(
    pre: State,
    post: State,
    contract_address: Seq<char>,
    amount: u128,
    r: Result<Response, ContractError>,
) -> bool {
    if amount > pre.count {
        &&& r matches Err(e) && e == (ContractError::NotEnoughTokens {})
        &&& post == pre
    } else {
        &&& r matches Ok(resp)
        &&& post.count == pre.count - amount
        &&& post.owner == pre.owner
        &&& resp.messages@.len() == 1
        &&& bank_send_is(resp.messages@[0], contract_address, amount)
        &&& resp.attributes@.len() == 4
        &&& attr_is(resp.attributes@[0], "action"@, "transfer"@)
        &&& attr_is(resp.attributes@[1], "from"@, pre.owner@)
        &&& attr_is(resp.attributes@[2], "to"@, contract_address)
        &&& attr_is(resp.attributes@[3], "amount"@, spec_decimal(amount as nat))
    }
}

/// Create the one ledger record: the caller becomes the owner and the
/// supplied limit becomes the initial count.
pub fn instantiate(info: MessageInfo, msg: InstantiateMsg) -> (r: (State, Response))
    ensures
        instantiated(info.sender@, msg.limit, r.0, r.1),
{
    let state = State { count: msg.limit, owner: info.sender.clone() };
    let resp = Response::new()
        .add_attribute("method", String::from_str("instantiate"))
        .add_attribute("owner", info.sender)
        .add_attribute("count", decimal_string(msg.limit));
    (state, resp)
}

/// Raise the limit by exactly 1. An open operation: no authorization check.
pub fn increment_limit(state: &mut State) -> (r: Response)
    requires
        old(state).count < u128::MAX,
    ensures
        increment_applied(*old(state), *final(state), r),
{
    state.count = state.count + 1;
    Response::new()
}

/// Overwrite the limit with `limit`, but only when the balance oracle's
/// answer for the owner covers it.
pub fn update_limit(state: &mut State, balance: Option<u128>, limit: u128) -> (r: Result<
    Response,
    ContractError,
>)
    ensures
        update_limit_outcome(*old(state), *final(state), balance, limit, r),
{
    let b = match balance {
        Some(b) => b,
        None => {
            return Err(ContractError::OracleError {});
        },
    };
    if limit > b {
        return Err(ContractError::NotEnoughTokens {});
    }
    state.count = limit;
    Ok(Response::new().add_attribute("action", String::from_str("update_limit")))
}

/// Overwrite the limit unconditionally: no balance validation and no
/// authorization check. An administrative bypass path; its callers are
/// trusted by convention, not by an enforced check.
pub fn update_limit_without_check(state: &mut State, limit: u128) -> (r: Response)
    ensures
        limit_set(*old(state), *final(state), limit),
        action_only_response(r, "update_limit_without_check"@),
{
    state.count = limit;
    Response::new().add_attribute("action", String::from_str("update_limit_without_check"))
}

/// Emit one transfer of `amount` from the contract's own holdings to the
/// validated recipient. Does not touch the record, and — deliberately kept
/// as designed — enforces no caller check.
pub fn try_send_tokens(recipient: Option<String>, amount: u128) -> (r: Result<
    Response,
    ContractError,
>)
    ensures
        send_tokens_outcome(recipient, amount, r),
{
    let to_address = match recipient {
        Some(to) => to,
        None => {
            return Err(ContractError::InvalidAddress {});
        },
    };
    let msg = BankSend { to_address, denom: denom(), amount };
    Ok(Response::new().add_message(msg).add_attribute("action", String::from_str("send_tokens")))
}

/// Emit one transfer of `amount` to the validated recipient, but only when
/// the caller is the validated sender. The one operation enforcing
/// caller-identity equality.
pub fn execute_transfer_tokens(
    info: &MessageInfo,
    sender: String,
    recipient: String,
    validated_sender: Option<String>,
    validated_recipient: Option<String>,
    amount: u128,
) -> (r: Result<Response, ContractError>)
    ensures
        transfer_tokens_outcome(
            info.sender@,
            sender@,
            recipient@,
            validated_sender,
            validated_recipient,
            amount,
            r,
        ),
{
    let sender_addr = match validated_sender {
        Some(s) => s,
        None => {
            return Err(ContractError::InvalidAddress {});
        },
    };
    let recipient_addr = match validated_recipient {
        Some(to) => to,
        None => {
            return Err(ContractError::InvalidAddress {});
        },
    };
    if !info.sender.eq(&sender_addr) {
        return Err(ContractError::Unauthorized {});
    }
    let msg = BankSend { to_address: recipient_addr, denom: denom(), amount };
    Ok(
        Response::new()
            .add_message(msg)
            .add_attribute("action", String::from_str("transfer_tokens"))
            .add_attribute("sender", sender)
            .add_attribute("recipient", recipient)
            .add_attribute("amount", decimal_string(amount)),
    )
}

/// Consume `amount` of the limit: decrement the count and emit one transfer
/// of `amount` to the contract's own address. Reached only through the
/// platform's privileged entry.
pub fn send_token_to_contract(state: &mut State, env: &Env, amount: u128) -> (r: Result<
    Response,
    ContractError,
>)
    ensures
        consume_outcome(*old(state), *final(state), env.contract_address@, amount, r),
{
    if amount > state.count {
        return Err(ContractError::NotEnoughTokens {});
    }
    let msg = BankSend { to_address: env.contract_address.clone(), denom: denom(), amount };
    state.count = state.count - amount;
    Ok(
        Response::new()
            .add_message(msg)
            .add_attribute("action", String::from_str("transfer"))
            .add_attribute("from", state.owner.clone())
            .add_attribute("to", env.contract_address.clone())
            .add_attribute("amount", decimal_string(amount)),
    )
}

/// Route a state-changing request to its operation. The platform adapter
/// gathers `answers` — the oracle's and the address validator's replies for
/// whatever the request carries — before the transition runs, so the whole
/// decision stands here.
pub fn execute(
    state: &mut State,
    info: &MessageInfo,
    msg: ExecuteMsg,
    answers: PlatformAnswers,
) -> (r: Result<Response, ContractError>)
    requires
        msg is IncrementLimit ==> old(state).count < u128::MAX,
    ensures
        msg is IncrementLimit ==> (r matches Ok(resp) && increment_applied(
            *old(state),
            *final(state),
            resp,
        )),
        msg matches ExecuteMsg::UpdateLimit { limit } ==> update_limit_outcome(
            *old(state),
            *final(state),
            answers.owner_balance,
            limit,
            r,
        ),
        msg matches ExecuteMsg::UpdateLimitWithoutCheck { limit } ==> (r matches Ok(resp)
            && limit_set(*old(state), *final(state), limit) && action_only_response(
            resp,
            "update_limit_without_check"@,
        )),
        msg matches ExecuteMsg::SendTokens { recipient: _, amount } ==> send_tokens_outcome(
            answers.validated_recipient,
            amount,
            r,
        ) && *final(state) == *old(state),
        msg matches ExecuteMsg::TransferTokens { sender, recipient, amount }
            ==> transfer_tokens_outcome(
            info.sender@,
            sender@,
            recipient@,
            answers.validated_sender,
            answers.validated_recipient,
            amount,
            r,
        ) && *final(state) == *old(state),
{
    match msg {
        ExecuteMsg::IncrementLimit {} => Ok(increment_limit(state)),
        ExecuteMsg::UpdateLimit { limit } => update_limit(state, answers.owner_balance, limit),
        ExecuteMsg::UpdateLimitWithoutCheck { limit } => Ok(
            update_limit_without_check(state, limit),
        ),
        ExecuteMsg::SendTokens { recipient: _, amount } => try_send_tokens(
            answers.validated_recipient,
            amount,
        ),
        ExecuteMsg::TransferTokens { sender, recipient, amount } => execute_transfer_tokens(
            info,
            sender,
            recipient,
            answers.validated_sender,
            answers.validated_recipient,
            amount,
        ),
    }
}

/// Route a privileged request to its operation.
pub fn sudo(state: &mut State, env: &Env, msg: SudoMsg) -> (r: Result<Response, ContractError>)
    ensures
        msg matches SudoMsg::SendTokenToContract { amount } ==> consume_outcome(
            *old(state),
            *final(state),
            env.contract_address@,
            amount,
            r,
        ),
{
    match msg {
        SudoMsg::SendTokenToContract { amount } => send_token_to_contract(state, env, amount),
    }
}

/// Answer a read-only request. No side effects: the record is only read.
pub fn query(state: &State, msg: QueryMsg) -> (r: QueryAnswer)
    ensures
        msg is GetLimit ==> (r matches QueryAnswer::Limit(resp) && resp.limit == state.count),
        msg is GetValidator ==> (r matches QueryAnswer::Validator(resp) && resp.validator@
            == state.owner@),
{
    match msg {
        QueryMsg::GetLimit {} => QueryAnswer::Limit(get_limit(state)),
        QueryMsg::GetValidator {} => QueryAnswer::Validator(get_validator(state)),
    }
}

/// Answer `GetLimit`: the current count, read without side effects.
pub fn get_limit(state: &State) -> (r: GetLimitResponse)
    ensures
        r.limit == state.count,
{
    GetLimitResponse { limit: state.count }
}

/// Answer `GetValidator`: the owner, read without side effects.
pub fn get_validator(state: &State) -> (r: GetValidatorResponse)
    ensures
        r.validator@ == state.owner@,
{
    GetValidatorResponse { validator: state.owner.clone() }
}

/// Chaining the increment operation accumulates exactly: a run of records in
/// which each is one increment step away from the one before ends with the
/// count raised by exactly the number of steps, and the owner kept. Read-only
/// calls take the record by shared reference and so cannot stand between two
/// steps with any effect.
pub proof fn lemma_increment_accumulates(states: Seq<State>)
    requires
        states.len() >= 1,
        forall|i: int|
            0 <= i < states.len() - 1 ==> #[trigger] increment_step(states[i], states[i + 1]),
    ensures
        states.last().count == states.first().count + states.len() - 1,
        states.last().owner == states.first().owner,
    decreases states.len(),
{
    if states.len() > 1 {
        let prefix = states.drop_last();
        assert forall|i: int|
            0 <= i < prefix.len() - 1 implies #[trigger] increment_step(
            prefix[i],
            prefix[i + 1],
        ) by {
            assert(increment_step(states[i], states[i + 1]));
        }
        lemma_increment_accumulates(prefix);
        let n = states.len() as int;
        assert(increment_step(states[n - 2], states[n - 2 + 1]));
    }
}

} // verus!
