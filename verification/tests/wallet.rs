use bundler::models::User;
use bundler::wallet::{RegistrationStep, SearchAction, SearchEvent, SearchPhase, WalletLookup, WalletService};

fn service() -> WalletService {
    WalletService { deployed_by_identifier: "toad".to_string() }
}

fn user(wallet_address: &str) -> User {
    User {
        email: "a@b.c".to_string(),
        name: "Ann".to_string(),
        wallet_address: wallet_address.to_string(),
        owner_address: "0x00000000000000000000000000000000000000ff".to_string(),
        external_user_id: "user-1".to_string(),
        deployed: true,
    }
}

#[test]
fn stored_address_is_answered_without_search() {
    let lookup = service().get_wallet_address(&user("0xAB000000000000000000000000000000000000Cd"));
    match lookup {
        WalletLookup::Existing { wallet } => {
            let mut expected = [0u8; 20];
            expected[0] = 0xab;
            expected[19] = 0xcd;
            assert_eq!(wallet.address, expected);
            assert_eq!(wallet.salt, 0);
            assert!(wallet.deployed);
        }
        _ => panic!("expected the stored wallet"),
    }
}

#[test]
fn stored_address_without_prefix_reads() {
    let lookup = service().get_wallet_address(&user("0101010101010101010101010101010101010101"));
    match lookup {
        WalletLookup::Existing { wallet } => assert_eq!(wallet.address, [1u8; 20]),
        _ => panic!("expected the stored wallet"),
    }
}

#[test]
fn user_without_wallet_starts_search_with_plain_id() {
    match service().get_wallet_address(&user("")) {
        WalletLookup::Search { search, action } => {
            assert_eq!(search.phase, SearchPhase::Deriving);
            assert_eq!(search.suffix, "");
            match action {
                SearchAction::Derive { seed } => assert_eq!(seed, "user-1"),
                _ => panic!("expected a derivation"),
            }
        }
        _ => panic!("expected a search"),
    }
}

fn started() -> bundler::wallet::AddressSearch {
    match service().get_wallet_address(&user("")) {
        WalletLookup::Search { search, .. } => search,
        _ => panic!("expected a search"),
    }
}

#[test]
fn free_address_ends_search_undeployed() {
    let svc = service();
    let (s, a) = svc.advance(started(), SearchEvent::Derived { salt: 77, address: [0x5a; 20] });
    assert_eq!(s.phase, SearchPhase::CheckingCode);
    match a {
        SearchAction::CheckCode { address_text } => {
            assert_eq!(address_text, format!("0x{}", "5a".repeat(20)))
        }
        _ => panic!("expected a code check"),
    }
    let (s, a) = svc.advance(s, SearchEvent::CodeChecked { exists: false });
    assert_eq!(s.phase, SearchPhase::Finished);
    match a {
        SearchAction::Finish { wallet } => {
            assert_eq!(wallet.address, [0x5a; 20]);
            assert_eq!(wallet.salt, 77);
            assert!(!wallet.deployed);
        }
        _ => panic!("expected the end"),
    }
}

#[test]
fn own_contract_ends_search_deployed() {
    let svc = service();
    let (s, _) = svc.advance(started(), SearchEvent::Derived { salt: 5, address: [1; 20] });
    let (s, a) = svc.advance(s, SearchEvent::CodeChecked { exists: true });
    assert_eq!(s.phase, SearchPhase::CheckingDeployer);
    match a {
        SearchAction::ReadDeployer { address } => assert_eq!(address, [1; 20]),
        _ => panic!("expected a deployer read"),
    }
    let (s, a) = svc.advance(s, SearchEvent::DeployerRead { deployed_by: Some("toad".to_string()) });
    assert_eq!(s.phase, SearchPhase::Finished);
    match a {
        SearchAction::Finish { wallet } => {
            assert_eq!(wallet.address, [1; 20]);
            assert_eq!(wallet.salt, 5);
            assert!(wallet.deployed);
        }
        _ => panic!("expected the end"),
    }
}

#[test]
fn foreign_contract_sends_search_to_clock_and_new_seed() {
    let svc = service();
    let (s, _) = svc.advance(started(), SearchEvent::Derived { salt: 5, address: [1; 20] });
    let (s, _) = svc.advance(s, SearchEvent::CodeChecked { exists: true });
    let (s, a) = svc.advance(s, SearchEvent::DeployerRead { deployed_by: Some("other".to_string()) });
    assert_eq!(s.phase, SearchPhase::WaitingForClock);
    assert!(matches!(a, SearchAction::ReadClock));
    assert!(s.accepts_event(&SearchEvent::ClockRead { nanos: 0 }));
    assert!(!s.accepts_event(&SearchEvent::CodeChecked { exists: true }));
    let (s, a) = svc.advance(s, SearchEvent::ClockRead { nanos: 1_700_000_000_123_456_789 });
    assert_eq!(s.phase, SearchPhase::Deriving);
    assert_eq!(s.suffix, "1700000000123456789");
    match a {
        SearchAction::Derive { seed } => assert_eq!(seed, "user-11700000000123456789"),
        _ => panic!("expected a derivation"),
    }
}

#[test]
fn failed_deployer_read_counts_as_foreign() {
    let svc = service();
    assert!(!svc.is_deployed_by_us(&None));
    assert!(!svc.is_deployed_by_us(&Some("toa".to_string())));
    assert!(svc.is_deployed_by_us(&Some("toad".to_string())));
}

#[test]
fn registered_wallet_reads_back_from_store() {
    let svc = service();
    let mut address = [0u8; 20];
    address[3] = 0xfe;
    address[10] = 0x0a;
    let wallet = bundler::models::Wallet { address, salt: 99, deployed: false };
    let steps = svc.register_wallet(user(""), &wallet);
    assert_eq!(steps.len(), 3);
    let record = match &steps[0] {
        RegistrationStep::StoreWallet { record } => record,
        _ => panic!("expected the store write first"),
    };
    assert_eq!(
        record.wallet_address,
        format!("0x000000fe{}0a{}", "0".repeat(12), "0".repeat(18))
    );
    assert_eq!(record.salt, 99);
    assert!(!record.deployed);
    assert_eq!(record.external_user_id, "user-1");
    match &steps[1] {
        RegistrationStep::Mint { to } => assert_eq!(*to, address),
        _ => panic!("expected the mint second"),
    }
    match &steps[2] {
        RegistrationStep::Reply { response } => assert_eq!(response.address, address),
        _ => panic!("expected the reply last"),
    }
    let stored = User { wallet_address: record.wallet_address.clone(), ..user("") };
    match svc.get_wallet_address(&stored) {
        WalletLookup::Existing { wallet: w } => assert_eq!(w.address, address),
        _ => panic!("expected the stored wallet"),
    }
}

#[test]
fn listing_starts_from_the_last_row_without_id() {
    let q = service().list_transactions(20, None, user("0xabc"));
    assert_eq!(q.page_size, 20);
    assert_eq!(q.before_row, i32::MAX);
    assert_eq!(q.wallet_address, "0xabc");
    let q = service().list_transactions(5, Some(17), user("0xabc"));
    assert_eq!(q.before_row, 17);
}

#[test]
fn stored_address_with_spaces_reads() {
    let text = "0x0101010101 0101010101\t01010101010101010101\n";
    match service().get_wallet_address(&user(text)) {
        WalletLookup::Existing { wallet } => assert_eq!(wallet.address, [1u8; 20]),
        _ => panic!("expected the stored wallet"),
    }
}

#[test]
fn search_passes_over_foreign_contracts_and_finishes_at_first_free_address() {
    let svc = service();
    let (s, _) = svc.advance(started(), SearchEvent::Derived { salt: 5, address: [1; 20] });
    let (s, _) = svc.advance(s, SearchEvent::CodeChecked { exists: true });
    let (s, _) = svc.advance(s, SearchEvent::DeployerRead { deployed_by: Some("other".to_string()) });
    let (s, _) = svc.advance(s, SearchEvent::ClockRead { nanos: 42 });
    assert_eq!(s.suffix, "42");
    let (s, _) = svc.advance(s, SearchEvent::Derived { salt: 6, address: [2; 20] });
    let (s, _) = svc.advance(s, SearchEvent::CodeChecked { exists: true });
    let (s, _) = svc.advance(s, SearchEvent::DeployerRead { deployed_by: None });
    let (s, _) = svc.advance(s, SearchEvent::ClockRead { nanos: 7 });
    assert_eq!(s.suffix, "7");
    let (s, a) = svc.advance(s, SearchEvent::Derived { salt: 8, address: [3; 20] });
    match a {
        SearchAction::CheckCode { address_text } => assert_eq!(address_text, format!("0x{}", "03".repeat(20))),
        _ => panic!("expected a code check"),
    }
    let (s, a) = svc.advance(s, SearchEvent::CodeChecked { exists: false });
    assert_eq!(s.phase, SearchPhase::Finished);
    assert_eq!(s.suffix, "7");
    match a {
        SearchAction::Finish { wallet } => {
            assert_eq!(wallet.address, [3; 20]);
            assert_eq!(wallet.salt, 8);
            assert!(!wallet.deployed);
        }
        _ => panic!("expected the end"),
    }
}

#[test]
fn salt_is_the_first_eight_hash_bytes_big_endian() {
    let hash = ethers::utils::keccak256("user-1".as_bytes());
    let mut first = [0u8; 8];
    first.copy_from_slice(&hash[..8]);
    assert_eq!(bundler::wallet::salt_of("user-1"), u64::from_be_bytes(first));
    // Keccak-256 of the empty text starts c5d2460186f7233c.
    assert_eq!(bundler::wallet::salt_of(""), 0xc5d2460186f7233c);
}
