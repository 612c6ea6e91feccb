//! The administrator's service: the paymaster's balance and its top-up.

use vstd::prelude::*;
use crate::errors::ApiError;
use crate::eth::{address_text, prefixed_hex};
use crate::models::{Balance, BalanceResponse, PaymasterTopup, TransactionResponse};
use crate::text::str_eq;

verus! {

/// The currency name of the chain's native coin.
pub open spec fn native_currency() -> Seq<char> {
    "native"@
}

/// The entity name of the paymaster.
pub open spec fn paymaster_entity() -> Seq<char> {
    "paymaster"@
}

/// Names that balance requests use.
pub struct Constants;

impl Constants {
    /// The currency name of the chain's native coin.
    pub fn native() -> (r: &'static str)
        ensures
            r@ == native_currency(),
    {
        "native"
    }

    /// The entity name of the paymaster.
    pub fn paymaster() -> (r: &'static str)
        ensures
            r@ == paymaster_entity(),
    {
        "paymaster"
    }
}

/// A balance request that was accepted: the paymaster's deposit is to be
/// read, and reported in `currency`.
#[derive(Debug)]
pub struct PaymasterBalanceQuery {
    pub currency: String,
}

/// `r` answers a top-up request: a fixed placeholder reply, since the
/// top-up is not carried out.
pub open spec fn answers_topup(r: Result<TransactionResponse, ApiError>) -> bool {
    r matches Ok(t) && t.transaction_hash@ == "hash"@ && t.status@ == "success"@ && t.explorer@ == "no"@
}

/// `r` decides a balance request for `entity`: the currency must be the
/// native coin, checked first, and the entity the paymaster; then the
/// paymaster's deposit is to be read, for the request's currency.
pub open spec fn decides_balance_request(
    entity: Seq<char>,
    data: Balance,
    r: Result<PaymasterBalanceQuery, ApiError>,
) -> bool {
    &&& data.currency@ != native_currency() ==> (r matches Err(ApiError::BadRequest(m)) && m@
        == "Invalid currency"@)
    &&& data.currency@ == native_currency() && entity == paymaster_entity() ==> (r matches Ok(q)
        && q.currency == data.currency)
    &&& data.currency@ == native_currency() && entity != paymaster_entity() ==> (r matches Err(
        ApiError::BadRequest(m),
    ) && m@ == "Invalid entity"@)
}

/// The administrator's service.
#[derive(Debug, Clone, Copy)]
pub struct AdminService {
    /// The address of the verifying paymaster on the current chain.
    pub paymaster_address: [u8; 20],
}

impl AdminService {
    /// `r` reports the paymaster's balance for `query` from the deposit that
    /// was read: the reading's error as a server failure, else the balance
    /// with the paymaster's address as text and the request's currency.
    pub open spec fn reports_balance(
        &self,
        query: PaymasterBalanceQuery,
        deposit: Result<String, String>,
        r: Result<BalanceResponse, ApiError>,
    ) -> bool {
        match deposit {
            Err(e) => r == Err::<BalanceResponse, ApiError>(ApiError::InternalServer(e)),
            Ok(b) => r matches Ok(resp) && resp.balance == b && resp.address@ == prefixed_hex(
                self.paymaster_address@,
            ) && resp.currency == query.currency,
        }
    }

    /// Answers a top-up request; the top-up itself is not carried out.
    pub fn topup_paymaster_deposit(&self, topup: PaymasterTopup) -> (r: Result<TransactionResponse, ApiError>)
        ensures
            answers_topup(r),
    {
        Ok(
            TransactionResponse {
                transaction_hash: String::from_str("hash"),
                status: String::from_str("success"),
                explorer: String::from_str("no"),
            },
        )
    }

    /// Decides a balance request for `entity`: the currency must be the
    /// native coin, checked first, and the entity the paymaster; then the
    /// paymaster's deposit is to be read.
    pub fn get_balance(&self, entity: &str, data: Balance) -> (r: Result<PaymasterBalanceQuery, ApiError>)
        ensures
            decides_balance_request(entity@, data, r),
    {
        if !str_eq(data.currency.as_str(), Constants::native()) {
            return Err(ApiError::BadRequest(String::from_str("Invalid currency")));
        }
        if str_eq(Constants::paymaster(), entity) {
            return Ok(PaymasterBalanceQuery { currency: data.currency });
        }
        Err(ApiError::BadRequest(String::from_str("Invalid entity")))
    }

    /// The reply to an accepted balance request, from the deposit that was
    /// read (in ether) or the error that reading it gave.
    pub fn paymaster_balance(&self, query: PaymasterBalanceQuery, deposit: Result<String, String>) -> (r:
        Result<BalanceResponse, ApiError>)
        ensures
            self.reports_balance(query, deposit, r),
    {
        match deposit {
            Err(e) => Err(ApiError::InternalServer(e)),
            Ok(balance) => Ok(
                BalanceResponse {
                    balance,
                    address: address_text(self.paymaster_address),
                    currency: query.currency,
                },
            ),
        }
    }
}

} // verus!
