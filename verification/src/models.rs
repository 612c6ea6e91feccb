//! The plain records that requests and replies carry.

use vstd::prelude::*;

verus! {

/// The outcome of a user operation on chain.
#[allow(non_camel_case_types)]
#[derive(Debug, Clone, Copy, PartialEq, Eq, Structural)]
pub enum Status {
    SUCCESS,
    FAILED,
}

impl Status {
    /// The text of the status, as its `Display` prints it: the variant's name.
    pub open spec fn spec_text(self) -> Seq<char> {
        match self {
            Status::SUCCESS => "SUCCESS"@,
            Status::FAILED => "FAILED"@,
        }
    }

    /// The status that a user operation's `success` flag reports.
    pub open spec fn spec_from_success(success: bool) -> Status {
        if success {
            Status::SUCCESS
        } else {
            Status::FAILED
        }
    }

    /// The status that a user operation's `success` flag reports.
    pub fn from_success(success: bool) -> (s: Status)
        ensures
            s == Status::spec_from_success(success),
    {
        if success {
            Status::SUCCESS
        } else {
            Status::FAILED
        }
    }

    /// The text of the status.
    pub fn to_string(&self) -> (s: String)
        ensures
            s@ == self.spec_text(),
    {
        match self {
            Status::SUCCESS => String::from_str("SUCCESS"),
            Status::FAILED => String::from_str("FAILED"),
        }
    }
}

/// The reply to a transaction request.
#[derive(Debug)]
pub struct TransactionResponse {
    pub transaction_hash: String,
    pub status: String,
    pub explorer: String,
}

impl TransactionResponse {
    /// A reply with the given hash and explorer link, and the status's text.
    pub fn new(transaction_hash: String, status: Status, explorer: String) -> (r: TransactionResponse)
        ensures
            r.transaction_hash == transaction_hash,
            r.status@ == status.spec_text(),
            r.explorer == explorer,
    {
        TransactionResponse { transaction_hash, status: status.to_string(), explorer }
    }
}

/// What a balance request asks for.
#[derive(Debug)]
pub struct Balance {
    pub chain: String,
    pub currency: String,
}

/// The lower-case form of a text, as `str::to_lowercase` gives it.
pub uninterp spec fn lowercase(text: Seq<char>) -> Seq<char>;

/// The lower-case form of a text, from `str::to_lowercase`.
#[verifier::external_body]
fn to_lowercase(text: &str) -> (r: String)
    ensures
        r@ == lowercase(text@),
{
    text.to_lowercase()
}

impl Balance {
    /// The request with its currency name in lower case, as a wallet
    /// balance is looked up.
    pub fn normalized(self) -> (r: Balance)
        ensures
            r.chain == self.chain,
            r.currency@ == lowercase(self.currency@),
    {
        let currency = to_lowercase(self.currency.as_str());
        Balance { chain: self.chain, currency }
    }
}

/// The reply to a balance request.
#[derive(Debug)]
pub struct BalanceResponse {
    pub balance: String,
    pub address: String,
    pub currency: String,
}

/// A request to top up the paymaster's deposit.
#[derive(Debug)]
pub struct PaymasterTopup {
    pub address: String,
}

/// A user as the wallet store holds it. An empty `wallet_address` means that
/// no wallet was made for the user yet.
#[derive(Debug)]
pub struct User {
    pub email: String,
    pub name: String,
    pub wallet_address: String,
    pub owner_address: String,
    pub external_user_id: String,
    pub deployed: bool,
}

/// A user's smart-account wallet: its address, the salt it was derived with,
/// and whether its contract is on chain.
#[derive(Debug, Clone, Copy)]
pub struct Wallet {
    pub address: [u8; 20],
    pub salt: u64,
    pub deployed: bool,
}

/// The reply to an address request.
#[derive(Debug, Clone, Copy)]
pub struct AddressResponse {
    pub address: [u8; 20],
}

} // verus!
