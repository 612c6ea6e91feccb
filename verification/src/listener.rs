//! The outcome of a user operation, from the `UserOperationEvent` log that
//! the entry point emitted for it.

use vstd::prelude::*;
use crate::eth::{hash_text, keccak256, keccak256_text, prefixed_hex};
use crate::models::Status;
use crate::text::str_eq;

verus! {

/// A decoded parameter of an event log: its name, and its value when that
/// value is a boolean.
#[derive(Debug)]
pub struct LogParam {
    pub name: String,
    pub value: Option<bool>,
}

/// What the store records for a settled user operation.
#[derive(Debug)]
pub struct UserOpReceipt {
    /// The hash of the transaction that carried the operation (its `Debug` text).
    pub transaction_hash: String,
    /// The text of the operation's status.
    pub status: String,
}

/// The signature of the entry point's event for a handled user operation.
pub open spec fn user_op_event_signature() -> Seq<char> {
    "UserOperationEvent(bytes32,address,address,uint256,bool,uint256,uint256)"@
}

/// The logs to wait for: those of the entry point at `address` whose first
/// topic is the event's signature hash and whose second is the operation's hash.
#[derive(Debug, Clone, Copy)]
pub struct UserOpEventFilter {
    pub address: [u8; 20],
    pub topic0: [u8; 32],
    pub topic1: [u8; 32],
}

/// The filter that finds the `UserOperationEvent` of the operation
/// `user_op_hash` among the entry point's logs.
pub fn user_op_event_filter(entrypoint: [u8; 20], user_op_hash: [u8; 32]) -> (r: UserOpEventFilter)
    ensures
        r.address == entrypoint,
        r.topic0@ == keccak256_text(user_op_event_signature()),
        r.topic1 == user_op_hash,
{
    let topic0 = keccak256("UserOperationEvent(bytes32,address,address,uint256,bool,uint256,uint256)");
    UserOpEventFilter { address: entrypoint, topic0, topic1: user_op_hash }
}

/// The declaration of the entry point's event for a handled user operation.
pub open spec fn user_op_event_declaration() -> Seq<char> {
    "event UserOperationEvent(bytes32 indexed userOpHash, address indexed sender, address indexed paymaster, uint256 nonce, bool success, uint256 actualGasCost, uint256 actualGasUsed)"@
}

/// A decoded parameter as plain values: its name and its boolean value.
pub open spec fn param_view(p: LogParam) -> (Seq<char>, Option<bool>) {
    (p.name@, p.value)
}

/// The decoded parameters as plain values.
pub open spec fn param_views(params: Seq<LogParam>) -> Seq<(Seq<char>, Option<bool>)> {
    params.map_values(|p: LogParam| param_view(p))
}

/// Whether a log with `topics` and `data` decodes as the entry point's
/// `UserOperationEvent`: four topics, the first of them the hash of the
/// event's signature, and at least four words of data, the second of which
/// (the `success` flag) starts with 31 zero bytes.
pub open spec fn decodes_as_user_op_event(topics: Seq<[u8; 32]>, data: Seq<u8>) -> bool {
    &&& topics.len() == 4
    &&& topics[0]@ == keccak256_text(user_op_event_signature())
    &&& data.len() >= 128
    &&& forall|j: int| 32 <= j < 63 ==> data[j] == 0
}

/// The decoded parameters of a `UserOperationEvent`, in declared order: the
/// names, and the value of the one boolean parameter, `success`.
pub open spec fn user_op_event_params(success: bool) -> Seq<(Seq<char>, Option<bool>)> {
    seq![
        ("userOpHash"@, None),
        ("sender"@, None),
        ("paymaster"@, None),
        ("nonce"@, None),
        ("success"@, Some(success)),
        ("actualGasCost"@, None),
        ("actualGasUsed"@, None),
    ]
}

/// Decodes a log as the event of `declaration` with
/// `HumanReadableParser::parse_event` and `Event::parse_log`, keeping each
/// parameter's name and, for a boolean parameter, its value. The declaration
/// is the entry point's `UserOperationEvent`. `parse_log` checks that the
/// first topic is the signature's hash, decodes the other topics as the
/// three indexed parameters (so there must be exactly three of them), and
/// decodes the data as four words, never reading past its end; a boolean
/// word must start with 31 zero bytes and is true when its last byte is 1.
#[verifier::external_body]
fn decode_event_log(declaration: &str, topics: &Vec<[u8; 32]>, data: &Vec<u8>) -> (r: Option<Vec<LogParam>>)
    requires
        declaration@ == user_op_event_declaration(),
    ensures
        r is Some <==> decodes_as_user_op_event(topics@, data@),
        r matches Some(ps) ==> param_views(ps@) == user_op_event_params(data@[63] == 1),
{
    let event = ethers::abi::HumanReadableParser::parse_event(declaration).ok()?;
    let topics = topics.iter().map(|t| ethers::types::H256(*t)).collect();
    let log = event.parse_log(ethers::abi::RawLog { topics, data: data.clone() }).ok()?;
    Some(log.params.into_iter().map(|p| LogParam { name: p.name, value: p.value.into_bool() }).collect())
}

/// The value of the first parameter named `success`, if there is one.
pub open spec fn success_param(params: Seq<(Seq<char>, Option<bool>)>) -> Option<Option<bool>>
    decreases params.len(),
{
    if params.len() == 0 {
        None
    } else if params[0].0 == "success"@ {
        Some(params[0].1)
    } else {
        success_param(params.drop_first())
    }
}

/// The value of the first parameter named `success`, if there is one.
pub fn find_success(params: &Vec<LogParam>) -> (r: Option<Option<bool>>)
    ensures
        r == success_param(param_views(params@)),
{
    let ghost v = param_views(params@);
    let mut i: usize = 0;
    assert(v.subrange(0, v.len() as int) =~= v);
    while i < params.len()
        invariant
            i <= params@.len(),
            v == param_views(params@),
            success_param(v.subrange(i as int, v.len() as int)) == success_param(v),
        decreases params@.len() - i,
    {
        assert(v[i as int] == param_view(params@[i as int]));
        assert(v.subrange(i as int, v.len() as int)[0] == v[i as int]);
        if str_eq(params[i].name.as_str(), "success") {
            return Some(params[i].value);
        }
        assert(v.subrange(i as int, v.len() as int).drop_first() =~= v.subrange(i + 1, v.len() as int));
        i = i + 1;
    }
    None
}

/// `r` is the receipt of a user operation whose event, with the decoded
/// parameters `params`, was logged in the transaction `transaction_hash`:
/// the hash's text, and the status that the first `success` flag reports.
pub open spec fn receipt_of(
    transaction_hash: [u8; 32],
    params: Seq<(Seq<char>, Option<bool>)>,
    r: UserOpReceipt,
) -> bool {
    &&& r.transaction_hash@ == prefixed_hex(transaction_hash@)
    &&& success_param(params) matches Some(Some(success)) && r.status@ == Status::spec_from_success(
        success,
    ).spec_text()
}

/// The receipt of a user operation whose event was logged in the
/// transaction `transaction_hash`: the transaction's hash as text, and
/// `SUCCESS` or `FAILED` as the event's `success` parameter says.
pub fn user_operation_receipt(transaction_hash: [u8; 32], params: &Vec<LogParam>) -> (r: UserOpReceipt)
    requires
        success_param(param_views(params@)) matches Some(Some(_)),
    ensures
        receipt_of(transaction_hash, param_views(params@), r),
{
    let success = match find_success(params) {
        Some(Some(b)) => b,
        _ => {
            assert(false);
            false
        },
    };
    let status = Status::from_success(success);
    UserOpReceipt { transaction_hash: hash_text(transaction_hash), status: status.to_string() }
}

/// The `success` flag of the user operation whose event is the log with
/// `topics` and `data`: present when the log decodes as a
/// `UserOperationEvent`, and then true exactly when the flag's last byte is 1.
pub open spec fn logged_success(topics: Seq<[u8; 32]>, data: Seq<u8>) -> Option<bool> {
    if decodes_as_user_op_event(topics, data) {
        Some(data[63] == 1)
    } else {
        None
    }
}

proof fn lemma_event_success_param(success: bool)
    ensures
        success_param(user_op_event_params(success)) == Some(Some(success)),
{
    reveal_strlit("success");
    reveal_strlit("userOpHash");
    reveal_strlit("sender");
    reveal_strlit("paymaster");
    reveal_strlit("nonce");
    let ps = user_op_event_params(success);
    assert(ps[0].0 == "userOpHash"@);
    assert(ps[0].0.len() != "success"@.len());
    assert(ps[1].0 == "sender"@);
    assert(ps[1].0.len() != "success"@.len());
    assert(ps[2].0 != "success"@);
    assert(ps[3].0 != "success"@);
    assert(ps.drop_first().drop_first().drop_first().drop_first()[0] == ps[4]);
    reveal_with_fuel(success_param, 5);
}

/// `r` is the receipt of a user operation from the raw log of its event:
/// present when the log has a transaction hash and decodes as a
/// `UserOperationEvent`, and then the hash's text and the status that the
/// event's `success` flag reports.
pub open spec fn receipt_from_log(
    transaction_hash: Option<[u8; 32]>,
    topics: Seq<[u8; 32]>,
    data: Seq<u8>,
    r: Option<UserOpReceipt>,
) -> bool {
    &&& (r is Some <==> (transaction_hash is Some && logged_success(topics, data) is Some))
    &&& r matches Some(rc) ==> rc.transaction_hash@ == prefixed_hex(transaction_hash.unwrap()@)
        && rc.status@ == Status::spec_from_success(logged_success(topics, data).unwrap()).spec_text()
}

/// The receipt of a user operation from the raw log of its event: `None`
/// when the log carries no transaction hash, does not decode as a
/// `UserOperationEvent`, or has no boolean `success` parameter; else the
/// transaction's hash as text and the operation's status.
pub fn user_op_receipt_from_log(transaction_hash: Option<[u8; 32]>, topics: &Vec<[u8; 32]>, data: &Vec<u8>) -> (r:
    Option<UserOpReceipt>)
    ensures
        receipt_from_log(transaction_hash, topics@, data@, r),
{
    let hash = match transaction_hash {
        Some(h) => h,
        None => return None,
    };
    let declaration = "event UserOperationEvent(bytes32 indexed userOpHash, address indexed sender, address indexed paymaster, uint256 nonce, bool success, uint256 actualGasCost, uint256 actualGasUsed)";
    let params = match decode_event_log(
        declaration,
        topics,
        data,
    ) {
        Some(ps) => ps,
        None => return None,
    };
    proof {
        lemma_event_success_param(data@[63] == 1);
    }
    match find_success(&params) {
        Some(Some(_)) => Some(user_operation_receipt(hash, &params)),
        _ => None,
    }
}

/// A log as a poll of the chain returns it: the hash of the transaction
/// that emitted it, its topics and its data.
#[derive(Debug)]
pub struct EventLog {
    pub transaction_hash: Option<[u8; 32]>,
    pub topics: Vec<[u8; 32]>,
    pub data: Vec<u8>,
}

/// What the listener does after a poll for the operation's event.
#[derive(Debug)]
pub enum ListenerAction {
    /// No matching log yet: poll again.
    PollAgain,
    /// Write this receipt as the transaction's status; the listener is done.
    Record { receipt: UserOpReceipt },
    /// The first matching log carries no transaction hash, or is not the
    /// event with a boolean `success`: the listener stops without a write.
    Stop,
}

/// `r` is the listener's answer to a poll that returned `logs`: poll again
/// when there is none; else take the first log, and record the receipt it
/// gives, or stop when it gives none.
pub open spec fn answers_poll(logs: Seq<EventLog>, r: ListenerAction) -> bool {
    if logs.len() == 0 {
        r is PollAgain
    } else {
        let log = logs[0];
        match r {
            ListenerAction::PollAgain => false,
            ListenerAction::Record { receipt } => {
                &&& log.transaction_hash is Some
                &&& logged_success(log.topics@, log.data@) is Some
                &&& receipt.transaction_hash@ == prefixed_hex(log.transaction_hash.unwrap()@)
                &&& receipt.status@ == Status::spec_from_success(
                    logged_success(log.topics@, log.data@).unwrap(),
                ).spec_text()
            },
            ListenerAction::Stop => !(log.transaction_hash is Some && logged_success(
                log.topics@,
                log.data@,
            ) is Some),
        }
    }
}

/// The listener's answer to the logs that one poll returned.
pub fn on_polled_logs(logs: &Vec<EventLog>) -> (r: ListenerAction)
    ensures
        answers_poll(logs@, r),
{
    if logs.len() == 0 {
        return ListenerAction::PollAgain;
    }
    let log = &logs[0];
    match user_op_receipt_from_log(log.transaction_hash, &log.topics, &log.data) {
        Some(receipt) => ListenerAction::Record { receipt },
        None => ListenerAction::Stop,
    }
}

} // verus!
