use bundler::contracts::{SimpleAccountProvider, UserOperation, VerifyingPaymasterProvider};

fn word_of(v: u8) -> Vec<u8> {
    let mut w = vec![0u8; 32];
    w[31] = v;
    w
}

#[test]
fn execute_builds_call_data() {
    let account = SimpleAccountProvider { address: [0x22; 20] };
    let calldata = account.execute([0x11; 20], "1".to_string(), vec![0xab]).unwrap();
    let mut expected = vec![0xb6, 0x1d, 0x27, 0xf6];
    expected.extend(vec![0u8; 12]);
    expected.extend(vec![0x11u8; 20]);
    expected.extend(word_of(1));
    expected.extend(word_of(0x60));
    expected.extend(word_of(1));
    expected.push(0xab);
    expected.extend(vec![0u8; 31]);
    assert_eq!(calldata, expected);
}

#[test]
fn execute_with_empty_data_and_large_value() {
    let account = SimpleAccountProvider { address: [0; 20] };
    let calldata = account.execute([0; 20], "1000000000000000000".to_string(), vec![]).unwrap();
    assert_eq!(calldata.len(), 4 + 4 * 32);
    // 10^18 = 0x0de0b6b3a7640000
    assert_eq!(&calldata[4 + 32 + 24..4 + 64], &[0x0d, 0xe0, 0xb6, 0xb3, 0xa7, 0x64, 0x00, 0x00]);
    assert_eq!(calldata[4 + 96 + 31], 0);
}

#[test]
fn execute_with_empty_value_text_sends_zero() {
    let account = SimpleAccountProvider { address: [0; 20] };
    let calldata = account.execute([0; 20], String::new(), vec![1; 32]).unwrap();
    assert_eq!(calldata.len(), 4 + 4 * 32 + 32);
    assert_eq!(&calldata[36..68], &[0u8; 32]);
}

#[test]
fn deposit_failure_is_reported() {
    assert_eq!(
        VerifyingPaymasterProvider::get_deposit(None),
        Err("Failed to get balance".to_string())
    );
}

#[test]
fn deposit_is_written_in_ether() {
    let r = VerifyingPaymasterProvider::get_deposit(Some([1395633240123456000, 0, 0, 0]));
    assert_eq!(r, Ok("1.395633240123456000".to_string()));
    let r = VerifyingPaymasterProvider::get_deposit(Some([0, 0, 0, 0]));
    assert_eq!(r, Ok("0.000000000000000000".to_string()));
    let r = VerifyingPaymasterProvider::get_deposit(Some([5, 0, 0, 0]));
    assert_eq!(r, Ok("0.000000000000000005".to_string()));
}

#[test]
fn large_deposit_uses_upper_limbs() {
    // 2^64 wei
    let r = VerifyingPaymasterProvider::get_deposit(Some([0, 1, 0, 0]));
    assert_eq!(r, Ok("18.446744073709551616".to_string()));
}

#[test]
fn user_operation_numbers_are_widened() {
    let op = UserOperation {
        sender: [7; 20],
        nonce: 3,
        init_code: vec![1, 2],
        calldata: vec![3],
        call_gas_limit: 100_000,
        verification_gas_limit: 200_000,
        pre_verification_gas: 50_000,
        max_fee_per_gas: u64::MAX,
        max_priority_fee_per_gas: 1,
        signature: vec![9, 9],
        paymaster_and_data: vec![],
    };
    let p = VerifyingPaymasterProvider::get_verifying_paymaster_user_operation_payload(op);
    assert_eq!(p.sender, [7; 20]);
    assert_eq!(p.nonce, [3, 0, 0, 0]);
    assert_eq!(p.init_code, vec![1, 2]);
    assert_eq!(p.call_data, vec![3]);
    assert_eq!(p.call_gas_limit, [100_000, 0, 0, 0]);
    assert_eq!(p.verification_gas_limit, [200_000, 0, 0, 0]);
    assert_eq!(p.pre_verification_gas, [50_000, 0, 0, 0]);
    assert_eq!(p.max_fee_per_gas, [u64::MAX, 0, 0, 0]);
    assert_eq!(p.max_priority_fee_per_gas, [1, 0, 0, 0]);
    assert_eq!(p.signature, vec![9, 9]);
    assert!(p.paymaster_and_data.is_empty());
}
