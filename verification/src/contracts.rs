//! The smart-account and paymaster contracts: call data for the account's
//! `execute`, the paymaster's deposit in ether, and user operations in the
//! paymaster's layout.

use vstd::prelude::*;
use crate::eth::{
    abi_address_uint_bytes, ether_text, fits_u256_decimal, format_ether, keccak256_text,
    max_abi_data_len, u256_from_dec_str, u256_from_u64, u256_value,
};
use crate::text::dec_value;

verus! {

/// The signature of the smart account's `execute` function.
pub open spec fn execute_signature() -> Seq<char> {
    "execute(address,uint256,bytes)"@
}

/// The call data of `execute(to, value, data)`: the function's selector,
/// then its arguments in the ABI encoding.
pub open spec fn execute_calldata(to: Seq<u8>, value: nat, data: Seq<u8>) -> Seq<u8> {
    keccak256_text(execute_signature()).take(4) + abi_address_uint_bytes(to, value, data)
}

/// The declaration of the smart account's `execute` function.
pub open spec fn execute_declaration() -> Seq<char> {
    "function execute(address dest, uint256 value, bytes func)"@
}

/// Encodes a call of the function `declaration` on `(to, value, data)` with
/// `HumanReadableParser::parse_function` and `Function::encode_input`: the
/// first four bytes of the Keccak-256 hash of the function's signature,
/// then the arguments in the ABI encoding. The declaration is the account's
/// `execute`, which parses, and whose parameter types the address, uint and
/// bytes tokens match, so the encoding succeeds.
#[verifier::external_body]
fn encode_execute_call(declaration: &str, to: [u8; 20], value: [u64; 4], data: &[u8]) -> (r: Option<Vec<u8>>)
    requires
        declaration@ == execute_declaration(),
        data@.len() <= max_abi_data_len(),
    ensures
        r is Some,
        r matches Some(c) ==> c@ == execute_calldata(to@, u256_value(value), data@),
{
    let function = ethers::abi::HumanReadableParser::parse_function(declaration).ok()?;
    function.encode_input(&[
        ethers::abi::Token::Address(ethers::types::Address::from(to)),
        ethers::abi::Token::Uint(ethers::types::U256(value)),
        ethers::abi::Token::Bytes(data.to_vec()),
    ]).ok()
}

/// A user's smart account.
#[derive(Debug, Clone, Copy)]
pub struct SimpleAccountProvider {
    /// The address of the account contract.
    pub address: [u8; 20],
}

impl SimpleAccountProvider {
    /// The call data that makes the account send `value` wei (a decimal
    /// text) and `data` to `to`.
    pub fn execute(&self, to: [u8; 20], value: String, data: Vec<u8>) -> (r: Result<Vec<u8>, String>)
        requires
            fits_u256_decimal(value@),
            data@.len() <= max_abi_data_len(),
        ensures
            r matches Ok(c) && c@ == execute_calldata(to@, dec_value(value@), data@),
    {
        let amount = u256_from_dec_str(value.as_str());
        let amount = match amount {
            Some(a) => a,
            None => {
                assert(false);
                [0u64, 0, 0, 0]
            },
        };
        match encode_execute_call("function execute(address dest, uint256 value, bytes func)", to, amount, data.as_slice()) {
            Some(calldata) => Ok(calldata),
            None => Err("execute data failed".to_string()),
        }
    }
}

/// A user operation as the bundler receives it.
#[derive(Debug)]
pub struct UserOperation {
    pub sender: [u8; 20],
    pub nonce: u64,
    pub init_code: Vec<u8>,
    pub calldata: Vec<u8>,
    pub call_gas_limit: u64,
    pub verification_gas_limit: u64,
    pub pre_verification_gas: u64,
    pub max_fee_per_gas: u64,
    pub max_priority_fee_per_gas: u64,
    pub signature: Vec<u8>,
    pub paymaster_and_data: Vec<u8>,
}

/// A user operation in the verifying paymaster's layout, its numbers as
/// 256-bit unsigned integers (limbs, least significant first).
#[derive(Debug)]
pub struct PaymasterUserOperation {
    pub sender: [u8; 20],
    pub nonce: [u64; 4],
    pub init_code: Vec<u8>,
    pub call_data: Vec<u8>,
    pub call_gas_limit: [u64; 4],
    pub verification_gas_limit: [u64; 4],
    pub pre_verification_gas: [u64; 4],
    pub max_fee_per_gas: [u64; 4],
    pub max_priority_fee_per_gas: [u64; 4],
    pub signature: Vec<u8>,
    pub paymaster_and_data: Vec<u8>,
}

/// `r` is the paymaster's deposit in ether, from the answer to `getDeposit`:
/// an error when the call failed.
pub open spec fn reports_deposit(response: Option<[u64; 4]>, r: Result<String, String>) -> bool {
    match response {
        None => r matches Err(e) && e@ == "Failed to get balance"@,
        Some(wei) => r matches Ok(s) && s@ == ether_text(u256_value(wei)),
    }
}

/// `r` is `user_op` in the paymaster's layout: the same fields, each number
/// widened to 256 bits.
pub open spec fn widens(user_op: UserOperation, r: PaymasterUserOperation) -> bool {
    &&& r.sender == user_op.sender
    &&& u256_value(r.nonce) == user_op.nonce
    &&& r.init_code == user_op.init_code
    &&& r.call_data == user_op.calldata
    &&& u256_value(r.call_gas_limit) == user_op.call_gas_limit
    &&& u256_value(r.verification_gas_limit) == user_op.verification_gas_limit
    &&& u256_value(r.pre_verification_gas) == user_op.pre_verification_gas
    &&& u256_value(r.max_fee_per_gas) == user_op.max_fee_per_gas
    &&& u256_value(r.max_priority_fee_per_gas) == user_op.max_priority_fee_per_gas
    &&& r.signature == user_op.signature
    &&& r.paymaster_and_data == user_op.paymaster_and_data
}

/// The verifying paymaster contract.
#[derive(Debug, Clone, Copy)]
pub struct VerifyingPaymasterProvider;

impl VerifyingPaymasterProvider {
    /// The paymaster's deposit in ether, from the answer to `getDeposit`
    /// (`None` when the call failed).
    pub fn get_deposit(response: Option<[u64; 4]>) -> (r: Result<String, String>)
        ensures
            reports_deposit(response, r),
    {
        match response {
            None => Err(String::from_str("Failed to get balance")),
            Some(wei) => Ok(format_ether(wei)),
        }
    }

    /// The user operation in the paymaster's layout: the same fields, each
    /// number widened to 256 bits.
    pub fn get_verifying_paymaster_user_operation_payload(user_op: UserOperation) -> (r: PaymasterUserOperation)
        ensures
            widens(user_op, r),
    {
        PaymasterUserOperation {
            sender: user_op.sender,
            nonce: u256_from_u64(user_op.nonce),
            init_code: user_op.init_code,
            call_data: user_op.calldata,
            call_gas_limit: u256_from_u64(user_op.call_gas_limit),
            verification_gas_limit: u256_from_u64(user_op.verification_gas_limit),
            pre_verification_gas: u256_from_u64(user_op.pre_verification_gas),
            max_fee_per_gas: u256_from_u64(user_op.max_fee_per_gas),
            max_priority_fee_per_gas: u256_from_u64(user_op.max_priority_fee_per_gas),
            signature: user_op.signature,
            paymaster_and_data: user_op.paymaster_and_data,
        }
    }
}

} // verus!
