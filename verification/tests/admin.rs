use bundler::admin::{AdminService, Constants};
use bundler::errors::ApiError;
use bundler::models::{Balance, PaymasterTopup, Status, TransactionResponse};

fn service() -> AdminService {
    let mut address = [0u8; 20];
    address[0] = 0xAB;
    address[19] = 0x01;
    AdminService { paymaster_address: address }
}

fn balance(currency: &str) -> Balance {
    Balance { chain: "sepolia".to_string(), currency: currency.to_string() }
}

#[test]
fn topup_answers_with_placeholder_transaction() {
    let r = service()
        .topup_paymaster_deposit(PaymasterTopup { address: "0x01".to_string() })
        .unwrap();
    assert_eq!(r.transaction_hash, "hash");
    assert_eq!(r.status, "success");
    assert_eq!(r.explorer, "no");
}

#[test]
fn balance_in_other_currency_is_refused_first() {
    let r = service().get_balance("paymaster", balance("usdc"));
    assert_eq!(r.unwrap_err(), ApiError::BadRequest("Invalid currency".to_string()));
    let r = service().get_balance("wallet", balance("usdc"));
    assert_eq!(r.unwrap_err(), ApiError::BadRequest("Invalid currency".to_string()));
}

#[test]
fn balance_of_other_entity_is_refused() {
    let r = service().get_balance("wallet", balance(Constants::native()));
    assert_eq!(r.unwrap_err(), ApiError::BadRequest("Invalid entity".to_string()));
}

#[test]
fn paymaster_balance_in_native_currency_is_read() {
    let q = service().get_balance(Constants::paymaster(), balance("native")).unwrap();
    assert_eq!(q.currency, "native");
}

#[test]
fn paymaster_balance_reports_deposit_and_address() {
    let q = service().get_balance("paymaster", balance("native")).unwrap();
    let r = service().paymaster_balance(q, Ok("1.500000000000000000".to_string())).unwrap();
    assert_eq!(r.balance, "1.500000000000000000");
    assert_eq!(r.address, "0xab00000000000000000000000000000000000001");
    assert_eq!(r.currency, "native");
}

#[test]
fn paymaster_balance_failure_is_internal_error() {
    let q = service().get_balance("paymaster", balance("native")).unwrap();
    let r = service().paymaster_balance(q, Err("Failed to get balance".to_string()));
    assert_eq!(r.unwrap_err(), ApiError::InternalServer("Failed to get balance".to_string()));
}

#[test]
fn transaction_response_carries_status_text() {
    let r = TransactionResponse::new("0xabc".to_string(), Status::SUCCESS, "https://scan/tx".to_string());
    assert_eq!(r.transaction_hash, "0xabc");
    assert_eq!(r.status, "SUCCESS");
    assert_eq!(r.explorer, "https://scan/tx");
    let r = TransactionResponse::new(String::new(), Status::FAILED, String::new());
    assert_eq!(r.status, "FAILED");
}

#[test]
fn status_follows_success_flag() {
    assert_eq!(Status::from_success(true), Status::SUCCESS);
    assert_eq!(Status::from_success(false), Status::FAILED);
    assert_eq!(Status::SUCCESS.to_string(), "SUCCESS");
}

#[test]
fn wallet_balance_currency_is_lowered() {
    let b = Balance { chain: "Sepolia".to_string(), currency: "USDC".to_string() }.normalized();
    assert_eq!(b.chain, "Sepolia");
    assert_eq!(b.currency, "usdc");
}
