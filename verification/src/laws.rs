//! Properties that span several functions of the library.

use vstd::prelude::*;
use crate::eth::{
    address_bytes, address_digits_text, address_hex_digits, ether_text, hex_bytes,
    is_address_text, is_hex_space, prefixed_hex, wei_per_ether,
};
use crate::admin::{answers_topup, decides_balance_request, AdminService, PaymasterBalanceQuery};
use crate::auth::authorizes;
use crate::contracts::{reports_deposit, widens, PaymasterUserOperation, UserOperation};
use crate::errors::ApiError;
use crate::listener::{
    answers_poll, decodes_as_user_op_event, receipt_from_log, receipt_of, success_param, EventLog,
    ListenerAction, UserOpReceipt,
};
use crate::models::{Balance, BalanceResponse, Status, TransactionResponse, User, Wallet};
use crate::wallet::{
    lists_transactions, AddressSearch, RegistrationStep, SearchAction, SearchEvent, SearchPhase,
    TransactionQuery, WalletLookup, WalletService,
};
use crate::text::{
    all_dec_digits, dec_digit_value, dec_digits, dec_value, digit_char, fixed_digits, hex_char,
    hex_digit_value, hex_lower, is_dec_digit, is_hex_digit,
};

verus! {

/// 10 to the power `k`.
pub open spec fn pow10(k: nat) -> nat
    decreases k,
{
    if k == 0 {
        1
    } else {
        10 * pow10((k - 1) as nat)
    }
}

/// The number of wei that an amount written in ether (whole ethers, a
/// point, eighteen fraction digits) stands for.
pub open spec fn ether_text_value(t: Seq<char>) -> nat {
    dec_value(t.take(t.len() - 19)) * wei_per_ether() + dec_value(t.skip(t.len() - 18))
}

proof fn lemma_digit_char(d: int)
    requires
        0 <= d < 10,
    ensures
        is_dec_digit(digit_char(d)),
        dec_digit_value(digit_char(d)) == d,
{
}

proof fn lemma_dec_value_push(s: Seq<char>, c: char)
    requires
        is_dec_digit(c),
    ensures
        dec_value(s.push(c)) == dec_value(s) * 10 + dec_digit_value(c),
{
    assert(s.push(c).drop_last() =~= s);
}

/// The decimal text of a number reads back as that number: the suffix that
/// an address search takes from the clock stands for the clock's reading.
pub proof fn decimal_text_reads_back(n: nat)
    ensures
        dec_value(dec_digits(n)) == n,
        all_dec_digits(dec_digits(n)),
        dec_digits(n).len() > 0,
    decreases n,
{
    if n < 10 {
        lemma_digit_char(n as int);
        lemma_dec_value_push(seq![], digit_char(n as int));
        assert(seq![digit_char(n as int)] =~= Seq::<char>::empty().push(digit_char(n as int)));
    } else {
        decimal_text_reads_back(n / 10);
        lemma_digit_char((n % 10) as int);
        lemma_dec_value_push(dec_digits(n / 10), digit_char((n % 10) as int));
    }
}

proof fn lemma_fixed_digits(n: nat, width: nat)
    ensures
        dec_value(fixed_digits(n, width)) == n % pow10(width),
        all_dec_digits(fixed_digits(n, width)),
        fixed_digits(n, width).len() == width,
    decreases width,
{
    if width == 0 {
    } else {
        let w1 = (width - 1) as nat;
        lemma_fixed_digits(n / 10, w1);
        lemma_digit_char((n % 10) as int);
        lemma_dec_value_push(fixed_digits(n / 10, w1), digit_char((n % 10) as int));
        assert(pow10(w1) > 0) by {
            lemma_pow10_positive(w1);
        }
        vstd::arithmetic::div_mod::lemma_mod_breakdown(n as int, 10, pow10(w1) as int);
    }
}

proof fn lemma_pow10_positive(k: nat)
    ensures
        pow10(k) > 0,
    decreases k,
{
    if k > 0 {
        lemma_pow10_positive((k - 1) as nat);
    }
}

/// An amount of wei written in ether reads back as the same amount: the
/// deposit that the paymaster reports is exact, with nothing rounded off.
pub proof fn ether_text_reads_back(wei: nat)
    ensures
        ether_text(wei).len() >= 20,
        ether_text(wei)[ether_text(wei).len() - 19] == '.',
        all_dec_digits(ether_text(wei).take(ether_text(wei).len() - 19)),
        all_dec_digits(ether_text(wei).skip(ether_text(wei).len() - 18)),
        ether_text_value(ether_text(wei)) == wei,
{
    let whole = dec_digits(wei / wei_per_ether());
    let frac = fixed_digits(wei % wei_per_ether(), 18);
    let t = ether_text(wei);
    decimal_text_reads_back(wei / wei_per_ether());
    lemma_fixed_digits(wei % wei_per_ether(), 18);
    assert(pow10(18) == wei_per_ether()) by {
        reveal_with_fuel(pow10, 19);
    }
    assert(t.take(t.len() - 19) =~= whole);
    assert(t.skip(t.len() - 18) =~= frac);
    vstd::arithmetic::div_mod::lemma_small_mod(wei % wei_per_ether(), wei_per_ether());
    vstd::arithmetic::div_mod::lemma_fundamental_div_mod(wei as int, wei_per_ether() as int);
}

proof fn lemma_hex_char(d: int)
    requires
        0 <= d < 16,
    ensures
        is_hex_digit(hex_char(d)),
        !is_hex_space(hex_char(d)),
        hex_digit_value(hex_char(d)) == d,
{
}

proof fn lemma_filter_all<A>(s: Seq<A>, pred: spec_fn(A) -> bool)
    requires
        forall|i: int| 0 <= i < s.len() ==> pred(#[trigger] s[i]),
    ensures
        s.filter(pred) == s,
    decreases s.len(),
{
    reveal(Seq::filter);
    if s.len() > 0 {
        lemma_filter_all(s.drop_last(), pred);
        assert(s.drop_last().push(s.last()) =~= s);
    }
}

/// The text that a wallet's address is stored as reads back as that
/// address: a user whose stored address was written by `register_wallet`
/// is answered by `get_wallet_address` with the same address.
pub proof fn stored_address_reads_back(address: [u8; 20])
    ensures
        prefixed_hex(address@).len() > 0,
        is_address_text(prefixed_hex(address@)),
        address_bytes(prefixed_hex(address@)) == address@,
{
    let a = address@;
    let s = prefixed_hex(a);
    let h = hex_lower(a);
    assert(address_digits_text(s) =~= h);
    assert forall|i: int| 0 <= i < h.len() implies is_hex_digit(#[trigger] h[i]) && !is_hex_space(h[i]) by {
        if i % 2 == 0 {
            lemma_hex_char((a[i / 2] / 16) as int);
        } else {
            lemma_hex_char((a[i / 2] % 16) as int);
        }
    }
    lemma_filter_all(h, |c: char| is_hex_digit(c));
    assert(address_hex_digits(s) == h);
    assert forall|i: int| 0 <= i < 20 implies #[trigger] hex_bytes(h)[i] == a[i] by {
        assert(h[2 * i] == hex_char((a[i] / 16) as int));
        assert(h[2 * i + 1] == hex_char((a[i] % 16) as int));
        lemma_hex_char((a[i] / 16) as int);
        lemma_hex_char((a[i] % 16) as int);
    }
    assert(hex_bytes(h) =~= a);
}

/// The addresses that the `Derived` events among `events` gave, in order.
pub open spec fn derived_addresses(events: Seq<SearchEvent>) -> Seq<[u8; 20]>
    decreases events.len(),
{
    if events.len() == 0 {
        Seq::empty()
    } else {
        let before = derived_addresses(events.drop_last());
        match events.last() {
            SearchEvent::Derived { address, .. } => before.push(address),
            _ => before,
        }
    }
}

/// `states`, `events` and `actions` are a run of address-search steps of
/// `svc`: each event answers the call that its state waits for, and the step
/// from `states[i]` on `events[i]` gives `states[i + 1]` and `actions[i]`.
pub open spec fn is_search_run(
    svc: WalletService,
    states: Seq<AddressSearch>,
    events: Seq<SearchEvent>,
    actions: Seq<SearchAction>,
) -> bool {
    &&& states.len() == events.len() + 1
    &&& actions.len() == events.len()
    &&& forall|i: int|
        #![trigger events[i]]
        0 <= i < events.len() ==> states[i].accepts(&events[i]) && svc.advances(
            states[i],
            events[i],
            (states[i + 1], actions[i]),
        )
}

/// Where a search stands against the addresses derived so far: waiting to
/// derive or for the clock, it has passed over all of them; checking or
/// finished, it is at the last one and has passed over all the others.
spec fn search_stage(s: AddressSearch, derived: Seq<[u8; 20]>) -> bool {
    match s.phase {
        SearchPhase::Deriving | SearchPhase::WaitingForClock => s.rejected@ == derived,
        _ => derived.len() > 0 && s.rejected@ == derived.drop_last() && s.address == derived.last(),
    }
}

proof fn lemma_search_run_prefix(
    svc: WalletService,
    states: Seq<AddressSearch>,
    events: Seq<SearchEvent>,
    actions: Seq<SearchAction>,
    k: int,
)
    requires
        is_search_run(svc, states, events, actions),
        states[0].phase == SearchPhase::Deriving,
        states[0].rejected@ == Seq::<[u8; 20]>::empty(),
        states[0].well_formed(),
        0 <= k <= events.len(),
    ensures
        search_stage(states[k], derived_addresses(events.take(k))),
        states[k].well_formed(),
    decreases k,
{
    if k == 0 {
        assert(events.take(0) =~= Seq::<SearchEvent>::empty());
    } else {
        let i = k - 1;
        lemma_search_run_prefix(svc, states, events, actions, i);
        assert(events.take(k).drop_last() =~= events.take(i));
        assert(events.take(k).last() == events[i]);
        let before = derived_addresses(events.take(i));
        assert(states[i].accepts(&events[i]) && svc.advances(states[i], events[i], (states[i + 1], actions[i])));
        match events[i] {
            SearchEvent::Derived { address, .. } => {
                assert(before.push(address).drop_last() =~= before);
            },
            SearchEvent::DeployerRead { deployed_by } => {
                if !svc.spec_deployed_by_us(deployed_by) {
                    assert(before.drop_last().push(before.last()) =~= before);
                }
            },
            SearchEvent::ClockRead { nanos } => {
                decimal_text_reads_back(nanos as nat);
            },
            _ => {},
        }
    }
}

/// An address search, from its start, keeps a seed suffix that is empty or
/// decimal digits, and finishes at the first address it derives that is free
/// or deployed by this service: when a run of steps ends finished, its last
/// call is `Finish` with a wallet at the last address derived, and the search
/// passed over every address derived before it (a step passes over an
/// address only when another deployer made the contract there).
pub proof fn address_search_finishes_at_first_free_or_own_address(
    svc: WalletService,
    states: Seq<AddressSearch>,
    events: Seq<SearchEvent>,
    actions: Seq<SearchAction>,
)
    requires
        is_search_run(svc, states, events, actions),
        states[0].phase == SearchPhase::Deriving,
        states[0].rejected@ == Seq::<[u8; 20]>::empty(),
        states[0].suffix@.len() == 0,
    ensures
        forall|k: int| 0 <= k < states.len() ==> #[trigger] states[k].well_formed(),
        states.last().phase == SearchPhase::Finished ==> {
            let derived = derived_addresses(events);
            &&& derived.len() > 0
            &&& actions.last() matches SearchAction::Finish { wallet } && wallet.address == derived.last()
            &&& states.last().rejected@ == derived.drop_last()
        },
{
    assert(states[0].well_formed());
    assert forall|k: int| 0 <= k < states.len() implies #[trigger] states[k].well_formed() by {
        lemma_search_run_prefix(svc, states, events, actions, k);
    }
    let n = events.len() as int;
    lemma_search_run_prefix(svc, states, events, actions, n);
    assert(events.take(n) =~= events);
    if states.last().phase == SearchPhase::Finished && n > 0 {
        let i = n - 1;
        assert(states[i].accepts(&events[i]) && svc.advances(states[i], events[i], (states[i + 1], actions[i])));
    }
}

/// The listener writes nothing before a matching log arrives: over any run
/// of polls, each answered by the listener, every poll that returned no log
/// is answered by polling again, and an answer that writes a receipt comes
/// only after a poll that returned a log.
pub proof fn listener_writes_only_after_a_log(polls: Seq<Seq<EventLog>>, actions: Seq<ListenerAction>)
    requires
        actions.len() == polls.len(),
        forall|i: int| 0 <= i < polls.len() ==> answers_poll(#[trigger] polls[i], actions[i]),
    ensures
        forall|i: int| 0 <= i < polls.len() ==> (#[trigger] polls[i].len() == 0 <==> actions[i] is PollAgain),
        forall|i: int|
            0 <= i < polls.len() && #[trigger] actions[i] is Record ==> polls[i].len() > 0,
{
    assert forall|i: int| 0 <= i < polls.len() implies (#[trigger] polls[i].len() == 0 <==> actions[i] is PollAgain) by {
        assert(answers_poll(polls[i], actions[i]));
    }
}

/// An error's reply status depends only on its kind, 400 for a bad request,
/// 404 for something not found and 500 for a server failure, and the reply
/// carries the error's message, whatever the message is.
pub proof fn error_reply_by_kind(m: String)
    ensures
        ApiError::BadRequest(m).spec_status() == 400,
        ApiError::NotFound(m).spec_status() == 404,
        ApiError::InternalServer(m).spec_status() == 500,
        ApiError::BadRequest(m).spec_message() == m@,
        ApiError::NotFound(m).spec_message() == m@,
        ApiError::InternalServer(m).spec_message() == m@,
{
}

/// The user of a request is its `user` header's text unchanged, one
/// character per byte of the header, and a request without the header has
/// no user.
pub proof fn authorized_user_is_the_header_text(header: Option<&[u8]>, r: Option<String>)
    requires
        authorizes(header, r),
    ensures
        header is None ==> r is None,
        header matches Some(h) ==> r matches Some(u) && u@.len() == h@.len() && forall|i: int|
            0 <= i < h@.len() ==> #[trigger] u@[i] as int == h@[i] as int,
{
}

/// A poll whose first log is the operation's event, with a transaction
/// hash, is answered by recording the transaction's hash and `SUCCESS` when
/// the event's `success` flag is true, `FAILED` when it is false; a first
/// log that is not so stops the listener.
pub proof fn listener_records_the_logged_outcome(logs: Seq<EventLog>, r: ListenerAction)
    requires
        answers_poll(logs, r),
        logs.len() > 0,
    ensures
        logs[0].transaction_hash is Some && decodes_as_user_op_event(logs[0].topics@, logs[0].data@) ==> (
        r matches ListenerAction::Record { receipt } && receipt.transaction_hash@ == prefixed_hex(
            logs[0].transaction_hash.unwrap()@,
        ) && receipt.status@ == (if logs[0].data@[63] == 1 {
            "SUCCESS"@
        } else {
            "FAILED"@
        })),
        !(logs[0].transaction_hash is Some && decodes_as_user_op_event(logs[0].topics@, logs[0].data@))
            ==> r is Stop,
{
}

/// The receipt of a log is there exactly when the log has a transaction
/// hash and is the operation's event, and then it holds the hash's text and
/// `SUCCESS` when the event's `success` flag is true, `FAILED` when false.
pub proof fn receipt_reports_the_logged_outcome(
    transaction_hash: Option<[u8; 32]>,
    topics: Seq<[u8; 32]>,
    data: Seq<u8>,
    r: Option<UserOpReceipt>,
)
    requires
        receipt_from_log(transaction_hash, topics, data, r),
    ensures
        r is Some <==> (transaction_hash is Some && decodes_as_user_op_event(topics, data)),
        r matches Some(rc) ==> rc.transaction_hash@ == prefixed_hex(transaction_hash.unwrap()@)
            && rc.status@ == (if data[63] == 1 {
            "SUCCESS"@
        } else {
            "FAILED"@
        }),
{
}

/// A search's seed is always the user's external identifier followed by
/// the search's current suffix. A step keeps the identifier; only a clock
/// reading changes the suffix, to that reading in decimal (replacing the
/// old suffix); and a step that asks to derive an address asks it for the
/// identifier followed by the suffix.
pub proof fn search_seed_is_id_and_suffix(
    svc: WalletService,
    search: AddressSearch,
    event: SearchEvent,
    r: (AddressSearch, SearchAction),
)
    requires
        svc.advances(search, event, r),
    ensures
        r.0.external_user_id == search.external_user_id,
        r.1 matches SearchAction::Derive { seed } ==> seed@ == r.0.external_user_id@ + r.0.suffix@,
        event matches SearchEvent::ClockRead { nanos } ==> dec_value(r.0.suffix@) == nanos
            && all_dec_digits(r.0.suffix@) && r.0.suffix@ == dec_digits(nanos as nat),
        !(event is ClockRead) ==> r.0.suffix == search.suffix,
{
    if let SearchEvent::ClockRead { nanos } = event {
        decimal_text_reads_back(nanos as nat);
    }
}

/// An address request of a user with a stored address is answered with
/// that address, salt zero and the stored deployment; one of a user without
/// one starts a search for the user's external identifier, with an empty
/// suffix, whose first seed is the identifier followed by that suffix.
pub proof fn lookup_starts_from_the_stored_address_or_the_id(svc: WalletService, user: User, r: WalletLookup)
    requires
        svc.answers_lookup(user, r),
    ensures
        user.wallet_address@.len() > 0 ==> (r matches WalletLookup::Existing { wallet }
            && wallet.address@ == address_bytes(user.wallet_address@) && wallet.salt == 0
            && wallet.deployed == user.deployed),
        user.wallet_address@.len() == 0 ==> (r matches WalletLookup::Search { search, action }
            && search.external_user_id == user.external_user_id && search.suffix@ == Seq::<char>::empty()
            && search.phase == SearchPhase::Deriving && (action matches SearchAction::Derive { seed }
            && seed@ == search.external_user_id@ + search.suffix@)),
{
    if user.wallet_address@.len() == 0 {
        if let WalletLookup::Search { search, action } = r {
            assert(search.suffix@ =~= Seq::<char>::empty());
            assert(search.external_user_id@ + search.suffix@ =~= search.external_user_id@);
        }
    }
}

/// Registering a wallet stores a row that keeps each of the user's fields
/// in its own column, with the wallet's address as text, its salt and its
/// deployment; then starts exactly one mint, to the wallet's address; then
/// replies with that address.
pub proof fn registration_stores_then_mints_then_replies(
    svc: WalletService,
    user: User,
    wallet: Wallet,
    steps: Seq<RegistrationStep>,
)
    requires
        svc.registers(user, wallet, steps),
    ensures
        steps.len() == 3,
        steps[0] matches RegistrationStep::StoreWallet { record } && record.email == user.email
            && record.name == user.name && record.owner_address == user.owner_address
            && record.external_user_id == user.external_user_id && record.wallet_address@
            == prefixed_hex(wallet.address@) && record.salt == wallet.salt && record.deployed
            == wallet.deployed,
        steps[1] matches RegistrationStep::Mint { to } && to == wallet.address,
        steps[2] matches RegistrationStep::Reply { response } && response.address == wallet.address,
{
}

/// The reply to an error has the status of the error's kind, 400 for a bad
/// request, 404 for something not found and 500 for a server failure, and a
/// body that carries the error's message.
pub proof fn error_response_by_kind(e: ApiError, r: (u16, crate::errors::ErrorResponse))
    requires
        e.answered_by(r),
    ensures
        r.0 == match e {
            ApiError::BadRequest(_) => 400u16,
            ApiError::NotFound(_) => 404u16,
            ApiError::InternalServer(_) => 500u16,
        },
        r.1.message@ == match e {
            ApiError::BadRequest(m) => m@,
            ApiError::NotFound(m) => m@,
            ApiError::InternalServer(m) => m@,
        },
{
}

/// A balance request is refused with a bad request (status 400) unless its
/// currency is `native`; then it is accepted for the entity `paymaster`,
/// keeping the currency, and refused with a bad request for any other.
pub proof fn balance_request_needs_native_currency_and_paymaster(
    entity: Seq<char>,
    data: Balance,
    r: Result<PaymasterBalanceQuery, ApiError>,
)
    requires
        decides_balance_request(entity, data, r),
    ensures
        data.currency@ != "native"@ ==> (r matches Err(ApiError::BadRequest(m)) && m@ == "Invalid currency"@),
        data.currency@ == "native"@ && entity == "paymaster"@ ==> (r matches Ok(q) && q.currency
            == data.currency),
        data.currency@ == "native"@ && entity != "paymaster"@ ==> (r matches Err(ApiError::BadRequest(m))
            && m@ == "Invalid entity"@),
        r matches Err(e) ==> e.spec_status() == 400,
{
}

/// The paymaster's balance reply carries the deposit as read, the
/// paymaster's address as text and the request's currency; a failed read is
/// answered as a server failure (status 500) with the read's error.
pub proof fn balance_report_carries_the_deposit(
    svc: AdminService,
    query: PaymasterBalanceQuery,
    deposit: Result<String, String>,
    r: Result<BalanceResponse, ApiError>,
)
    requires
        svc.reports_balance(query, deposit, r),
    ensures
        deposit matches Err(e) ==> (r matches Err(ApiError::InternalServer(m)) && m == e),
        r matches Err(e) ==> e.spec_status() == 500,
        deposit matches Ok(b) ==> (r matches Ok(resp) && resp.balance == b && resp.currency
            == query.currency && resp.address@ == prefixed_hex(svc.paymaster_address@)),
{
}

/// A top-up request is answered with the placeholder reply `hash`,
/// `success`, `no`.
pub proof fn topup_is_answered_with_a_placeholder(r: Result<TransactionResponse, ApiError>)
    requires
        answers_topup(r),
    ensures
        r matches Ok(t) && t.transaction_hash@ == "hash"@ && t.status@ == "success"@ && t.explorer@ == "no"@,
{
}

/// The paymaster's deposit, when the call answered, is written in ether
/// text that reads back as exactly the wei of its limbs (least significant
/// first); a failed call gives the error `Failed to get balance`.
pub proof fn deposit_text_is_exact(response: Option<[u64; 4]>, r: Result<String, String>)
    requires
        reports_deposit(response, r),
    ensures
        response is None ==> (r matches Err(e) && e@ == "Failed to get balance"@),
        response matches Some(wei) ==> (r matches Ok(s) && ether_text_value(s@) == wei[0] + wei[1]
            * 0x1_0000_0000_0000_0000 + wei[2] * 0x1_0000_0000_0000_0000_0000_0000_0000_0000 + wei[3]
            * 0x1_0000_0000_0000_0000_0000_0000_0000_0000_0000_0000_0000_0000),
{
    if let Some(wei) = response {
        ether_text_reads_back(crate::eth::u256_value(wei));
    }
}

/// The limbs of a 256-bit number below 2^64: the number, then zeros.
proof fn lemma_small_limbs(l: [u64; 4], x: u64)
    requires
        crate::eth::u256_value(l) == x,
    ensures
        l@[0] == x,
        l@[1] == 0,
        l@[2] == 0,
        l@[3] == 0,
{
    let b: int = 0x1_0000_0000_0000_0000;
    let a0: int = l@[0] as int;
    let a1: int = l@[1] as int;
    let a2: int = l@[2] as int;
    let a3: int = l@[3] as int;
    assert(crate::eth::limb_base() == b);
    assert(a0 + a1 * b + a2 * (b * b) + a3 * (b * b * b) == x);
    assert(a0 == x && a1 == 0 && a2 == 0 && a3 == 0) by (nonlinear_arith)
        requires
            b == 0x1_0000_0000_0000_0000,
            0 <= a0,
            0 <= x < b,
            a1 >= 0,
            a2 >= 0,
            a3 >= 0,
            a0 + a1 * b + a2 * (b * b) + a3 * (b * b * b) == x,
    {
        assert(a1 * b + a2 * (b * b) + a3 * (b * b * b) >= b * (a1 + a2 + a3));
    }
}

/// A user operation in the paymaster's layout keeps every field, and each
/// number becomes four 64-bit limbs: the number, then three zeros.
pub proof fn paymaster_layout_keeps_every_field(u: UserOperation, r: PaymasterUserOperation)
    requires
        widens(u, r),
    ensures
        r.sender == u.sender && r.init_code == u.init_code && r.call_data == u.calldata
            && r.signature == u.signature && r.paymaster_and_data == u.paymaster_and_data,
        r.nonce == [u.nonce, 0, 0, 0],
        r.call_gas_limit == [u.call_gas_limit, 0, 0, 0],
        r.verification_gas_limit == [u.verification_gas_limit, 0, 0, 0],
        r.pre_verification_gas == [u.pre_verification_gas, 0, 0, 0],
        r.max_fee_per_gas == [u.max_fee_per_gas, 0, 0, 0],
        r.max_priority_fee_per_gas == [u.max_priority_fee_per_gas, 0, 0, 0],
{
    lemma_small_limbs(r.nonce, u.nonce);
    lemma_small_limbs(r.call_gas_limit, u.call_gas_limit);
    lemma_small_limbs(r.verification_gas_limit, u.verification_gas_limit);
    lemma_small_limbs(r.pre_verification_gas, u.pre_verification_gas);
    lemma_small_limbs(r.max_fee_per_gas, u.max_fee_per_gas);
    lemma_small_limbs(r.max_priority_fee_per_gas, u.max_priority_fee_per_gas);
    assert(r.nonce =~= [u.nonce, 0, 0, 0]);
    assert(r.call_gas_limit =~= [u.call_gas_limit, 0, 0, 0]);
    assert(r.verification_gas_limit =~= [u.verification_gas_limit, 0, 0, 0]);
    assert(r.pre_verification_gas =~= [u.pre_verification_gas, 0, 0, 0]);
    assert(r.max_fee_per_gas =~= [u.max_fee_per_gas, 0, 0, 0]);
    assert(r.max_priority_fee_per_gas =~= [u.max_priority_fee_per_gas, 0, 0, 0]);
}

/// A transaction listing asks the store for the user's own transactions,
/// at most the page size of them, before the given row or, without one,
/// from the last row.
pub proof fn listing_is_for_the_user_before_the_row(
    page_size: i64,
    id: Option<i32>,
    user: User,
    r: TransactionQuery,
)
    requires
        lists_transactions(page_size, id, user, r),
    ensures
        r.page_size == page_size,
        r.wallet_address == user.wallet_address,
        id matches Some(i) ==> r.before_row == i,
        id is None ==> r.before_row == 2147483647,
{
}

/// A user operation's status text is `SUCCESS` for a true `success` flag
/// and `FAILED` for a false one.
pub proof fn status_text_follows_the_flag(success: bool)
    ensures
        Status::spec_from_success(success).spec_text() == (if success {
            "SUCCESS"@
        } else {
            "FAILED"@
        }),
{
}

/// The `success` flag found among decoded parameters is the value of the
/// first parameter named `success`, and there is none only when no
/// parameter has that name.
pub proof fn success_flag_is_the_first_named_success(params: Seq<(Seq<char>, Option<bool>)>)
    ensures
        success_param(params) is None <==> forall|i: int| 0 <= i < params.len() ==> #[trigger] params[i].0
            != "success"@,
        success_param(params) matches Some(v) ==> exists|i: int|
            0 <= i < params.len() && #[trigger] params[i].0 == "success"@ && params[i].1 == v && forall|
                j: int,
            | 0 <= j < i ==> #[trigger] params[j].0 != "success"@,
    decreases params.len(),
{
    if params.len() > 0 {
        let rest = params.drop_first();
        success_flag_is_the_first_named_success(rest);
        assert forall|i: int| 0 < i < params.len() implies #[trigger] params[i] == rest[i - 1] by {}
        if params[0].0 == "success"@ {
            assert(params[0].0 == "success"@);
        } else if let Some(v) = success_param(rest) {
            let k = choose|k: int|
                0 <= k < rest.len() && #[trigger] rest[k].0 == "success"@ && rest[k].1 == v && forall|
                    j: int,
                | 0 <= j < k ==> #[trigger] rest[j].0 != "success"@;
            assert(params[k + 1] == rest[k]);
            assert forall|j: int| 0 <= j < k + 1 implies #[trigger] params[j].0 != "success"@ by {
                if j > 0 {
                    assert(params[j] == rest[j - 1]);
                }
            }
        } else {
            assert forall|i: int| 0 <= i < params.len() implies #[trigger] params[i].0 != "success"@ by {
                if i > 0 {
                    assert(params[i] == rest[i - 1]);
                }
            }
        }
    }
}

/// A receipt built from decoded parameters holds the transaction's hash as
/// text and `SUCCESS` or `FAILED` as the first `success` flag says.
pub proof fn receipt_follows_the_first_success_flag(
    transaction_hash: [u8; 32],
    params: Seq<(Seq<char>, Option<bool>)>,
    r: UserOpReceipt,
)
    requires
        receipt_of(transaction_hash, params, r),
    ensures
        r.transaction_hash@ == prefixed_hex(transaction_hash@),
        success_param(params) matches Some(Some(b)) && r.status@ == (if b {
            "SUCCESS"@
        } else {
            "FAILED"@
        }),
{
}

/// Whether a contract's deployer identifier, as read, is this service's:
/// only a read that gave exactly the service's identifier counts.
pub proof fn deployed_by_us_is_exact_identifier(svc: WalletService, deployed_by: Option<String>)
    ensures
        svc.spec_deployed_by_us(deployed_by) <==> (deployed_by matches Some(d) && d@
            == svc.deployed_by_identifier@),
{
}

/// What each step of an address search does: a derived address is checked
/// for a contract (asked by its text); a free address ends the search with
/// an undeployed wallet at it, an occupied one has its deployer read; the
/// service's own contract ends the search with a deployed wallet at it, any
/// other deployer (or a failed read) passes the address over and asks for
/// the clock; a clock reading asks to derive again.
pub proof fn search_step_outcomes(
    svc: WalletService,
    search: AddressSearch,
    event: SearchEvent,
    r: (AddressSearch, SearchAction),
)
    requires
        svc.advances(search, event, r),
    ensures
        event matches SearchEvent::Derived { salt, address } ==> r.0.salt == salt && r.0.address == address
            && r.0.phase == SearchPhase::CheckingCode && (r.1 matches SearchAction::CheckCode {
            address_text } && address_text@ == prefixed_hex(address@)),
        event matches SearchEvent::CodeChecked { exists } ==> (if exists {
            r.0.phase == SearchPhase::CheckingDeployer && (r.1 matches SearchAction::ReadDeployer { address }
                && address == search.address)
        } else {
            r.0.phase == SearchPhase::Finished && (r.1 matches SearchAction::Finish { wallet }
                && wallet.address == search.address && wallet.salt == search.salt && !wallet.deployed)
        }),
        event matches SearchEvent::DeployerRead { deployed_by } ==> (if deployed_by matches Some(d) && d@
            == svc.deployed_by_identifier@ {
            r.0.phase == SearchPhase::Finished && r.0.rejected == search.rejected && (r.1 matches SearchAction::Finish {
                wallet,
            } && wallet.address == search.address && wallet.salt == search.salt && wallet.deployed)
        } else {
            r.0.phase == SearchPhase::WaitingForClock && r.0.rejected@ == search.rejected@.push(search.address)
                && r.1 is ReadClock
        }),
        event is ClockRead ==> r.0.phase == SearchPhase::Deriving && r.1 is Derive && r.0.salt == search.salt
            && r.0.address == search.address && r.0.rejected == search.rejected,
{
}

} // verus!
