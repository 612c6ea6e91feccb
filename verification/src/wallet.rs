//! The wallet service: a user's wallet address, found either in the store or
//! by a search over salts for a counterfactual account address that is free
//! or already deployed by this service.
//!
//! The search alternates calls to the chain with decisions. The decisions
//! are a state machine here: `WalletService::advance` takes the search's
//! state and what the last call answered, and gives the next state and the
//! next call to make (or the wallet that was found).

use vstd::prelude::*;
use crate::eth::{address_bytes, address_text, is_address_text, keccak256, keccak256_text, parse_address, prefixed_hex};
use crate::models::{AddressResponse, User, Wallet};
use crate::text::{all_dec_digits, decimal_string, dec_digits};

verus! {

/// Where an address search stands.
#[derive(Debug, Clone, Copy, PartialEq, Eq, Structural)]
pub enum SearchPhase {
    /// Waiting for the salt and the counterfactual address of the seed.
    Deriving,
    /// Waiting to learn whether a contract exists at the address.
    CheckingCode,
    /// Waiting for the deployer identifier of the contract at the address.
    CheckingDeployer,
    /// Waiting for the clock, whose reading makes the next seed's suffix.
    WaitingForClock,
    /// The wallet was found.
    Finished,
}

/// The state of an address search.
pub struct AddressSearch {
    /// The user's identifier in the calling application.
    pub external_user_id: String,
    /// The suffix of the current seed.
    pub suffix: String,
    /// The salt of the current seed.
    pub salt: u64,
    /// The counterfactual account address of the current salt.
    pub address: [u8; 20],
    pub phase: SearchPhase,
    /// The addresses that the search passed over, in order: each had a
    /// contract that another deployer made.
    pub rejected: Ghost<Seq<[u8; 20]>>,
}

/// What the last call answered.
#[derive(Debug)]
pub enum SearchEvent {
    /// The seed's salt, and the account address that the factory gives for it.
    Derived { salt: u64, address: [u8; 20] },
    /// Whether a contract exists at the address.
    CodeChecked { exists: bool },
    /// The contract's deployer identifier, or `None` when reading it failed.
    DeployerRead { deployed_by: Option<String> },
    /// The clock, in nanoseconds since the Unix epoch.
    ClockRead { nanos: u128 },
}

/// The next call to make.
#[derive(Debug)]
pub enum SearchAction {
    /// Hash the seed into a salt and ask the factory for its account address.
    Derive { seed: String },
    /// Ask whether a contract exists at the address (its `Debug` text).
    CheckCode { address_text: String },
    /// Read the deployer identifier of the account contract at the address.
    ReadDeployer { address: [u8; 20] },
    /// Read the clock.
    ReadClock,
    /// The search is over: this is the user's wallet.
    Finish { wallet: Wallet },
}

/// The outcome of an address request before any call: the wallet that the
/// store already holds, or a search that has begun.
pub enum WalletLookup {
    Existing { wallet: Wallet },
    Search { search: AddressSearch, action: SearchAction },
}

/// One step of registering a wallet that a search found.
#[derive(Debug)]
pub enum RegistrationStep {
    /// Write the wallet's row to the store, and wait until it is written.
    StoreWallet { record: WalletRecord },
    /// Start minting the welcome amount to the wallet's address.
    Mint { to: [u8; 20] },
    /// Reply with the wallet's address.
    Reply { response: AddressResponse },
}

/// The store row of a new wallet.
#[derive(Debug)]
pub struct WalletRecord {
    pub email: String,
    pub name: String,
    pub wallet_address: String,
    pub owner_address: String,
    pub external_user_id: String,
    pub salt: u64,
    pub deployed: bool,
}

/// What a transaction listing asks the store for: the user's transactions
/// before row `before_row`, at most `page_size` of them.
#[derive(Debug)]
pub struct TransactionQuery {
    pub page_size: i64,
    pub before_row: i32,
    pub wallet_address: String,
}

/// `r` asks the store for `user`'s transactions before row `id`, or from
/// the last row when no `id` is given, at most `page_size` of them.
pub open spec fn lists_transactions(page_size: i64, id: Option<i32>, user: User, r: TransactionQuery) -> bool {
    &&& r.page_size == page_size
    &&& r.before_row == match id {
        Some(i) => i,
        None => i32::MAX,
    }
    &&& r.wallet_address == user.wallet_address
}

/// The wallet service.
#[derive(Debug)]
pub struct WalletService {
    /// The identifier that account contracts deployed by this service report.
    pub deployed_by_identifier: String,
}

/// The number that `bytes` write in big-endian order.
pub open spec fn big_endian_value(bytes: Seq<u8>) -> nat
    decreases bytes.len(),
{
    if bytes.len() == 0 {
        0
    } else {
        big_endian_value(bytes.drop_last()) * 256 + bytes.last() as nat
    }
}

proof fn lemma_big_endian_bound(bytes: Seq<u8>)
    ensures
        big_endian_value(bytes) < crate::eth::pow256(bytes.len()),
    decreases bytes.len(),
{
    if bytes.len() > 0 {
        lemma_big_endian_bound(bytes.drop_last());
    }
}

/// The salt of a search seed: the first eight bytes of the Keccak-256 hash
/// of the seed's text, read big-endian.
pub fn salt_of(seed: &str) -> (r: u64)
    ensures
        r == big_endian_value(keccak256_text(seed@).take(8)),
{
    let hash = keccak256(seed);
    let mut r: u64 = 0;
    let mut i: usize = 0;
    while i < 8
        invariant
            i <= 8,
            hash@.len() == 32,
            r == big_endian_value(hash@.take(i as int)),
        decreases 8 - i,
    {
        proof {
            lemma_big_endian_bound(hash@.take(i as int));
            assert(hash@.take(i + 1).drop_last() =~= hash@.take(i as int));
            assert(crate::eth::pow256(i as nat) <= 0x100_0000_0000_0000) by {
                reveal_with_fuel(crate::eth::pow256, 8);
            }
        }
        r = r * 256 + hash[i] as u64;
        i = i + 1;
    }
    r
}

impl WalletRecord {
    /// This row is the store row of `wallet`, found for `user`.
    pub open spec fn holds(&self, user: User, wallet: Wallet) -> bool {
        &&& self.email == user.email
        &&& self.name == user.name
        &&& self.wallet_address@ == prefixed_hex(wallet.address@)
        &&& self.owner_address == user.owner_address
        &&& self.external_user_id == user.external_user_id
        &&& self.salt == wallet.salt
        &&& self.deployed == wallet.deployed
    }
}

impl AddressSearch {
    /// The seed's suffix is empty or decimal digits.
    pub open spec fn well_formed(&self) -> bool {
        all_dec_digits(self.suffix@)
    }

    /// Whether `event` answers the call that the search is waiting for.
    pub open spec fn accepts(&self, event: &SearchEvent) -> bool {
        match event {
            SearchEvent::Derived { .. } => self.phase == SearchPhase::Deriving,
            SearchEvent::CodeChecked { .. } => self.phase == SearchPhase::CheckingCode,
            SearchEvent::DeployerRead { .. } => self.phase == SearchPhase::CheckingDeployer,
            SearchEvent::ClockRead { .. } => self.phase == SearchPhase::WaitingForClock,
        }
    }

    /// Whether `event` answers the call that the search is waiting for.
    pub fn accepts_event(&self, event: &SearchEvent) -> (b: bool)
        ensures
            b == self.accepts(event),
    {
        match event {
            SearchEvent::Derived { .. } => self.phase == SearchPhase::Deriving,
            SearchEvent::CodeChecked { .. } => self.phase == SearchPhase::CheckingCode,
            SearchEvent::DeployerRead { .. } => self.phase == SearchPhase::CheckingDeployer,
            SearchEvent::ClockRead { .. } => self.phase == SearchPhase::WaitingForClock,
        }
    }
}

impl WalletService {
    /// Whether a contract's deployer identifier, as read, is this service's.
    pub open spec fn spec_deployed_by_us(&self, deployed_by: Option<String>) -> bool {
        deployed_by matches Some(d) && d@ == self.deployed_by_identifier@
    }

    /// Whether a contract's deployer identifier, as read, is this service's;
    /// a failed read counts as someone else's.
    pub fn is_deployed_by_us(&self, deployed_by: &Option<String>) -> (b: bool)
        ensures
            b == self.spec_deployed_by_us(*deployed_by),
    {
        match deployed_by {
            Some(d) => *d == self.deployed_by_identifier,
            None => false,
        }
    }

    /// The answer to an address request before any call. A user with a
    /// stored address gets that address back (salt zero, deployment as
    /// stored); a user without one starts a search whose first seed is the
    /// external identifier itself.
    pub fn get_wallet_address(&self, user: &User) -> (r: WalletLookup)
        requires
            user.wallet_address@.len() > 0 ==> is_address_text(user.wallet_address@),
        ensures
            self.answers_lookup(*user, r),
    {
        if user.wallet_address.as_str().unicode_len() == 0 {
            let seed = user.external_user_id.clone();
            let search = AddressSearch {
                external_user_id: user.external_user_id.clone(),
                suffix: String::new(),
                salt: 0,
                address: [0u8; 20],
                phase: SearchPhase::Deriving,
                rejected: Ghost(Seq::empty()),
            };
            WalletLookup::Search { search, action: SearchAction::Derive { seed } }
        } else {
            let address = match parse_address(user.wallet_address.as_str()) {
                Some(a) => a,
                None => {
                    assert(false);
                    [0u8; 20]
                },
            };
            WalletLookup::Existing { wallet: Wallet { address, salt: 0, deployed: user.deployed } }
        }
    }

    /// `r` answers an address request of `user` before any call: a user with
    /// a stored address gets that address back (salt zero, deployment as
    /// stored); a user without one starts a search whose first seed is the
    /// external identifier itself, with an empty suffix.
    pub open spec fn answers_lookup(&self, user: User, r: WalletLookup) -> bool {
        &&& user.wallet_address@.len() > 0 ==> (r matches WalletLookup::Existing { wallet }
            && wallet.address@ == address_bytes(user.wallet_address@) && wallet.salt == 0
            && wallet.deployed == user.deployed)
        &&& user.wallet_address@.len() == 0 ==> (r matches WalletLookup::Search { search, action }
            && search.external_user_id == user.external_user_id && search.suffix@.len() == 0
            && search.phase == SearchPhase::Deriving && search.rejected@ == Seq::<[u8; 20]>::empty()
            && search.well_formed() && (action matches SearchAction::Derive { seed }
            && seed@ == user.external_user_id@))
    }

    /// `steps` register `wallet`, found for `user`: store its row, then start
    /// one mint to its address, then reply with its address.
    pub open spec fn registers(&self, user: User, wallet: Wallet, steps: Seq<RegistrationStep>) -> bool {
        &&& steps.len() == 3
        &&& steps[0] matches RegistrationStep::StoreWallet { record } && record.holds(user, wallet)
        &&& steps[1] == (RegistrationStep::Mint { to: wallet.address })
        &&& steps[2] matches RegistrationStep::Reply { response } && response.address == wallet.address
    }

    /// One step of an address search: `r` is the state and the call that
    /// follow `search` once `event` answers the call it waits for.
    pub open spec fn advances(&self, search: AddressSearch, event: SearchEvent, r: (AddressSearch, SearchAction)) -> bool {
        &&& r.0.external_user_id == search.external_user_id
        &&& match event {
            SearchEvent::Derived { salt, address } => {
                &&& r.0.salt == salt
                &&& r.0.address == address
                &&& r.0.suffix == search.suffix
                &&& r.0.rejected == search.rejected
                &&& r.0.phase == SearchPhase::CheckingCode
                &&& r.1 matches SearchAction::CheckCode { address_text: text } && text@ == prefixed_hex(
                    address@,
                )
            },
            SearchEvent::CodeChecked { exists } => {
                &&& r.0.salt == search.salt
                &&& r.0.address == search.address
                &&& r.0.suffix == search.suffix
                &&& r.0.rejected == search.rejected
                &&& exists ==> r.0.phase == SearchPhase::CheckingDeployer && r.1
                    == SearchAction::ReadDeployer { address: search.address }
                &&& !exists ==> r.0.phase == SearchPhase::Finished && r.1 == SearchAction::Finish {
                    wallet: Wallet { address: search.address, salt: search.salt, deployed: false },
                }
            },
            SearchEvent::DeployerRead { deployed_by } => {
                &&& r.0.salt == search.salt
                &&& r.0.address == search.address
                &&& r.0.suffix == search.suffix
                &&& self.spec_deployed_by_us(deployed_by) ==> r.0.rejected == search.rejected
                &&& !self.spec_deployed_by_us(deployed_by) ==> r.0.rejected@ == search.rejected@.push(
                    search.address,
                )
                &&& self.spec_deployed_by_us(deployed_by) ==> r.0.phase == SearchPhase::Finished
                    && r.1 == SearchAction::Finish {
                    wallet: Wallet { address: search.address, salt: search.salt, deployed: true },
                }
                &&& !self.spec_deployed_by_us(deployed_by) ==> r.0.phase
                    == SearchPhase::WaitingForClock && r.1 == SearchAction::ReadClock
            },
            SearchEvent::ClockRead { nanos } => {
                &&& r.0.salt == search.salt
                &&& r.0.address == search.address
                &&& r.0.suffix@ == dec_digits(nanos as nat)
                &&& r.0.rejected == search.rejected
                &&& r.0.phase == SearchPhase::Deriving
                &&& r.1 matches SearchAction::Derive { seed } && seed@ == search.external_user_id@
                    + dec_digits(nanos as nat)
            },
        }
    }

    /// The next step of an address search, from what the last call answered.
    ///
    /// A derived address is checked for a contract. A free address ends the
    /// search with an undeployed wallet there; an occupied one has its
    /// deployer read. A contract deployed by this service ends the search
    /// with a deployed wallet; any other deployer (or a failed read) sends
    /// the search to the clock, whose reading in decimal becomes the next
    /// seed's suffix.
    pub fn advance(&self, search: AddressSearch, event: SearchEvent) -> (r: (AddressSearch, SearchAction))
        requires
            search.accepts(&event),
        ensures
            self.advances(search, event, r),
            search.well_formed() ==> r.0.well_formed(),
    {
        match event {
            SearchEvent::Derived { salt, address } => {
                let text = address_text(address);
                (
                    AddressSearch { salt, address, phase: SearchPhase::CheckingCode, ..search },
                    SearchAction::CheckCode { address_text: text },
                )
            },
            SearchEvent::CodeChecked { exists } => {
                if exists {
                    let address = search.address;
                    (
                        AddressSearch { phase: SearchPhase::CheckingDeployer, ..search },
                        SearchAction::ReadDeployer { address },
                    )
                } else {
                    let wallet = Wallet { address: search.address, salt: search.salt, deployed: false };
                    (
                        AddressSearch { phase: SearchPhase::Finished, ..search },
                        SearchAction::Finish { wallet },
                    )
                }
            },
            SearchEvent::DeployerRead { deployed_by } => {
                if self.is_deployed_by_us(&deployed_by) {
                    let wallet = Wallet { address: search.address, salt: search.salt, deployed: true };
                    (
                        AddressSearch { phase: SearchPhase::Finished, ..search },
                        SearchAction::Finish { wallet },
                    )
                } else {
                    let ghost rejected = search.rejected@.push(search.address);
                    (
                        AddressSearch {
                            phase: SearchPhase::WaitingForClock,
                            rejected: Ghost(rejected),
                            ..search
                        },
                        SearchAction::ReadClock,
                    )
                }
            },
            SearchEvent::ClockRead { nanos } => {
                let suffix = decimal_string(nanos);
                proof {
                    crate::laws::decimal_text_reads_back(nanos as nat);
                }
                let seed = search.external_user_id.clone().concat(suffix.as_str());
                (
                    AddressSearch { suffix, phase: SearchPhase::Deriving, ..search },
                    SearchAction::Derive { seed },
                )
            },
        }
    }

    /// What to do with a wallet that a search found for `user`, step by
    /// step and in this order: store it (its address written as
    /// `format!("{:?}", address)` writes it), then start one mint to its
    /// address, then reply with its address.
    pub fn register_wallet(&self, user: User, wallet: &Wallet) -> (r: Vec<RegistrationStep>)
        ensures
            self.registers(user, *wallet, r@),
    {
        let record = WalletRecord {
            email: user.email,
            name: user.name,
            wallet_address: address_text(wallet.address),
            owner_address: user.owner_address,
            external_user_id: user.external_user_id,
            salt: wallet.salt,
            deployed: wallet.deployed,
        };
        let mut steps: Vec<RegistrationStep> = Vec::new();
        steps.push(RegistrationStep::StoreWallet { record });
        steps.push(RegistrationStep::Mint { to: wallet.address });
        steps.push(RegistrationStep::Reply { response: AddressResponse { address: wallet.address } });
        steps
    }

    /// What a transaction listing asks the store for: rows before `id`, or
    /// from the last row when no `id` is given.
    pub fn list_transactions(&self, page_size: i64, id: Option<i32>, user: User) -> (r: TransactionQuery)
        ensures
            lists_transactions(page_size, id, user, r),
    {
        let before_row = match id {
            Some(i) => i,
            None => i32::MAX,
        };
        TransactionQuery { page_size, before_row, wallet_address: user.wallet_address }
    }
}

} // verus!
