use bundler::listener::{
    on_polled_logs, user_op_receipt_from_log, user_operation_receipt, EventLog, ListenerAction, LogParam,
};
use ethers::abi::Token;
use ethers::types::U256;

fn param(name: &str, value: Option<bool>) -> LogParam {
    LogParam { name: name.to_string(), value }
}

#[test]
fn successful_operation_is_recorded_as_success() {
    let params = vec![param("userOpHash", None), param("sender", None), param("success", Some(true))];
    let mut hash = [0u8; 32];
    hash[0] = 0x12;
    hash[31] = 0xef;
    let r = user_operation_receipt(hash, &params);
    assert_eq!(r.status, "SUCCESS");
    assert_eq!(r.transaction_hash, format!("0x12{}ef", "0".repeat(60)));
}

#[test]
fn failed_operation_is_recorded_as_failed() {
    let params = vec![param("success", Some(false)), param("success", Some(true))];
    let r = user_operation_receipt([0; 32], &params);
    assert_eq!(r.status, "FAILED");
}

#[test]
fn event_filter_matches_the_operation() {
    let f = bundler::listener::user_op_event_filter([3; 20], [4; 32]);
    assert_eq!(f.address, [3; 20]);
    assert_eq!(f.topic1, [4; 32]);
    let expected: Vec<u8> = (0..32)
        .map(|i| {
            u8::from_str_radix(
                &"49628fd1471006c1482da88028e9ce4dbb080b815c9b0344d39e5a8e6ec1419f"[2 * i..2 * i + 2],
                16,
            )
            .unwrap()
        })
        .collect();
    assert_eq!(f.topic0.to_vec(), expected);
}

fn event_topics(user_op_hash: [u8; 32]) -> Vec<[u8; 32]> {
    let topic0 = ethers::utils::keccak256(
        "UserOperationEvent(bytes32,address,address,uint256,bool,uint256,uint256)",
    );
    let mut sender = [0u8; 32];
    sender[31] = 0x11;
    let mut paymaster = [0u8; 32];
    paymaster[31] = 0x22;
    vec![topic0, user_op_hash, sender, paymaster]
}

fn event_data(success: bool) -> Vec<u8> {
    ethers::abi::encode(&[
        Token::Uint(U256::from(7u64)),
        Token::Bool(success),
        Token::Uint(U256::from(21000u64)),
        Token::Uint(U256::from(50000u64)),
    ])
}

#[test]
fn logged_successful_operation_gives_a_success_receipt() {
    let mut tx = [0u8; 32];
    tx[0] = 0xab;
    let r = user_op_receipt_from_log(Some(tx), &event_topics([9; 32]), &event_data(true)).unwrap();
    assert_eq!(r.status, "SUCCESS");
    assert_eq!(r.transaction_hash, format!("0xab{}", "0".repeat(62)));
}

#[test]
fn logged_failed_operation_gives_a_failed_receipt() {
    let r = user_op_receipt_from_log(Some([1; 32]), &event_topics([9; 32]), &event_data(false)).unwrap();
    assert_eq!(r.status, "FAILED");
    assert_eq!(r.transaction_hash, format!("0x{}", "01".repeat(32)));
}

#[test]
fn log_without_transaction_hash_gives_no_receipt() {
    assert!(user_op_receipt_from_log(None, &event_topics([9; 32]), &event_data(true)).is_none());
}

#[test]
fn log_of_another_event_gives_no_receipt() {
    let mut topics = event_topics([9; 32]);
    topics[0] = [0u8; 32];
    assert!(user_op_receipt_from_log(Some([1; 32]), &topics, &event_data(true)).is_none());
}

#[test]
fn log_with_short_data_gives_no_receipt() {
    let data = event_data(true)[..40].to_vec();
    assert!(user_op_receipt_from_log(Some([1; 32]), &event_topics([9; 32]), &data).is_none());
}

#[test]
fn success_word_other_than_one_reads_as_failed() {
    let mut data = event_data(false);
    data[63] = 2;
    let r = user_op_receipt_from_log(Some([1; 32]), &event_topics([9; 32]), &data).unwrap();
    assert_eq!(r.status, "FAILED");
}

#[test]
fn success_word_with_high_bytes_gives_no_receipt() {
    let mut data = event_data(true);
    data[40] = 1;
    assert!(user_op_receipt_from_log(Some([1; 32]), &event_topics([9; 32]), &data).is_none());
}

#[test]
fn log_with_extra_topic_gives_no_receipt() {
    let mut topics = event_topics([9; 32]);
    topics.push([5; 32]);
    assert!(user_op_receipt_from_log(Some([1; 32]), &topics, &event_data(true)).is_none());
    topics.truncate(3);
    assert!(user_op_receipt_from_log(Some([1; 32]), &topics, &event_data(true)).is_none());
}

#[test]
fn trailing_data_is_ignored() {
    let mut data = event_data(true);
    data.extend_from_slice(&[0xff; 40]);
    let r = user_op_receipt_from_log(Some([1; 32]), &event_topics([9; 32]), &data).unwrap();
    assert_eq!(r.status, "SUCCESS");
}

#[test]
fn empty_poll_is_answered_by_polling_again() {
    assert!(matches!(on_polled_logs(&Vec::new()), ListenerAction::PollAgain));
}

#[test]
fn first_log_of_a_poll_is_recorded() {
    let logs = vec![
        EventLog { transaction_hash: Some([2; 32]), topics: event_topics([9; 32]), data: event_data(true) },
        EventLog { transaction_hash: Some([3; 32]), topics: event_topics([9; 32]), data: event_data(false) },
    ];
    match on_polled_logs(&logs) {
        ListenerAction::Record { receipt } => {
            assert_eq!(receipt.status, "SUCCESS");
            assert_eq!(receipt.transaction_hash, format!("0x{}", "02".repeat(32)));
        }
        _ => panic!("expected a receipt"),
    }
}

#[test]
fn undecodable_first_log_stops_the_listener() {
    let logs = vec![EventLog { transaction_hash: None, topics: event_topics([9; 32]), data: event_data(true) }];
    assert!(matches!(on_polled_logs(&logs), ListenerAction::Stop));
}
