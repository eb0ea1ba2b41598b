use green_hydrogen_credits::identity::Identity;
use green_hydrogen_credits::ledger::{AccountKey, Ledger, LedgerError};
use green_hydrogen_credits::model::{
    CertifyFacility, CreditEvent, GreenHydrogenCreditsError, InitializeCreditMint, IssueCredits,
    RetireCredits, TransferCredits, ValidateCredits,
};
use green_hydrogen_credits::registry::{
    certify_facility, initialize_credit_mint, issue_credits, retire_credits, transfer_credits,
    validate_credits, Registry,
};

fn who(n: u128) -> Identity {
    Identity::new(0, n)
}

fn producer() -> Identity {
    who(1)
}

fn buyer() -> Identity {
    who(2)
}

fn setup(funds: u64) -> (Registry, Ledger) {
    let registry = initialize_credit_mint(
        &InitializeCreditMint { authority: who(99) },
        "Green Hydrogen Credit".to_string(),
        "GHC".to_string(),
        "https://example.org/ghc.json".to_string(),
    );
    let mut ledger = Ledger::new();
    ledger.mint_to(AccountKey::Personal(producer()), funds).unwrap();
    (registry, ledger)
}

fn personal(ledger: &Ledger, id: Identity) -> u64 {
    ledger.balance_of(&AccountKey::Personal(id))
}

fn custody(ledger: &Ledger, credit: usize) -> u64 {
    ledger.balance_of(&AccountKey::Custody(credit))
}

fn issue(registry: &mut Registry, ledger: &mut Ledger, amount: u64) -> Result<usize, GreenHydrogenCreditsError> {
    issue_credits(
        registry,
        ledger,
        &IssueCredits { producer: producer() },
        amount,
        "wind".to_string(),
        "2024-05-01".to_string(),
        "facility-7".to_string(),
        1000,
    )
}

fn validate(registry: &mut Registry, credit: usize) -> Result<(), GreenHydrogenCreditsError> {
    validate_credits(registry, &ValidateCredits { credit, authorized: true }, "V1".to_string(), 2000)
}

#[test]
fn initialize_records_configuration() {
    let (registry, _) = setup(0);
    let mint = registry.mint();
    assert_eq!(mint.name, "Green Hydrogen Credit");
    assert_eq!(mint.symbol, "GHC");
    assert_eq!(mint.uri, "https://example.org/ghc.json");
    assert_eq!(mint.authority, who(99));
    assert_eq!(registry.credit_count(), 0);
    assert_eq!(registry.facility_count(), 0);
    assert_eq!(registry.event_count(), 0);
}

#[test]
fn issue_locks_amount_in_custody() {
    let (mut registry, mut ledger) = setup(500);
    let id = issue(&mut registry, &mut ledger, 120).unwrap();
    assert_eq!(id, 0);
    assert_eq!(personal(&ledger, producer()), 380);
    assert_eq!(custody(&ledger, id), 120);
    let c = registry.get_credit(id).unwrap();
    assert_eq!(c.amount, 120);
    assert_eq!(c.owner, producer());
    assert_eq!(c.producer, producer());
    assert_eq!(c.renewable_source, "wind");
    assert_eq!(c.production_date, "2024-05-01");
    assert_eq!(c.facility_id, "facility-7");
    assert!(!c.is_validated);
    assert!(!c.is_retired);
    assert_eq!(c.created_at, 1000);
    assert_eq!(c.transferred_at, None);
    match registry.get_event(0).unwrap() {
        CreditEvent::Issued(e) => {
            assert_eq!(e.credit, 0);
            assert_eq!(e.producer, producer());
            assert_eq!(e.amount, 120);
            assert_eq!(e.renewable_source, "wind");
        }
        other => panic!("unexpected event {:?}", other),
    }
}

#[test]
fn issue_zero_amount_is_invalid() {
    let (mut registry, mut ledger) = setup(500);
    assert_eq!(issue(&mut registry, &mut ledger, 0), Err(GreenHydrogenCreditsError::InvalidAmount));
    assert_eq!(registry.credit_count(), 0);
    assert_eq!(personal(&ledger, producer()), 500);
}

#[test]
fn issue_beyond_balance_fails_without_effect() {
    let (mut registry, mut ledger) = setup(99);
    assert_eq!(issue(&mut registry, &mut ledger, 100), Err(GreenHydrogenCreditsError::InsufficientBalance));
    assert_eq!(registry.credit_count(), 0);
    assert_eq!(registry.event_count(), 0);
    assert_eq!(personal(&ledger, producer()), 99);
    assert_eq!(custody(&ledger, 0), 0);
}

#[test]
fn issue_whole_balance() {
    let (mut registry, mut ledger) = setup(100);
    let id = issue(&mut registry, &mut ledger, 100).unwrap();
    assert_eq!(personal(&ledger, producer()), 0);
    assert_eq!(custody(&ledger, id), 100);
}

#[test]
fn full_lifecycle_pays_new_owner() {
    let (mut registry, mut ledger) = setup(100);
    let before = personal(&ledger, buyer());
    let id = issue(&mut registry, &mut ledger, 100).unwrap();
    validate(&mut registry, id).unwrap();
    transfer_credits(&mut registry, &TransferCredits { credit: id, owner: producer() }, buyer(), 3000).unwrap();
    retire_credits(&mut registry, &mut ledger, &RetireCredits { credit: id, owner: buyer() }, 4000).unwrap();
    let c = registry.get_credit(id).unwrap();
    assert!(c.is_validated);
    assert!(c.is_retired);
    assert_eq!(c.owner, buyer());
    assert_eq!(c.validator, Some("V1".to_string()));
    assert_eq!(c.validated_at, Some(2000));
    assert_eq!(c.transferred_at, Some(3000));
    assert_eq!(c.retired_at, Some(4000));
    assert_eq!(custody(&ledger, id), 0);
    assert_eq!(personal(&ledger, buyer()), before + 100);
    assert_eq!(registry.event_count(), 4);
}

#[test]
fn transfer_before_validation_fails() {
    let (mut registry, mut ledger) = setup(50);
    let id = issue(&mut registry, &mut ledger, 50).unwrap();
    let r = transfer_credits(&mut registry, &TransferCredits { credit: id, owner: producer() }, buyer(), 3000);
    assert_eq!(r, Err(GreenHydrogenCreditsError::CreditNotValidated));
    let c = registry.get_credit(id).unwrap();
    assert_eq!(c.owner, producer());
    assert_eq!(c.transferred_at, None);
    assert_eq!(registry.event_count(), 1);
}

#[test]
fn retire_before_validation_fails() {
    let (mut registry, mut ledger) = setup(50);
    let id = issue(&mut registry, &mut ledger, 50).unwrap();
    let r = retire_credits(&mut registry, &mut ledger, &RetireCredits { credit: id, owner: producer() }, 3000);
    assert_eq!(r, Err(GreenHydrogenCreditsError::CreditNotValidated));
    let c = registry.get_credit(id).unwrap();
    assert!(!c.is_retired);
    assert_eq!(c.retired_at, None);
    assert_eq!(custody(&ledger, id), 50);
    assert_eq!(personal(&ledger, producer()), 0);
}

#[test]
fn issue_validate_retire_returns_amount() {
    for amount in [1u64, 7, 250, 1000] {
        let (mut registry, mut ledger) = setup(1000);
        let id = issue(&mut registry, &mut ledger, amount).unwrap();
        assert_eq!(personal(&ledger, producer()), 1000 - amount);
        validate(&mut registry, id).unwrap();
        retire_credits(&mut registry, &mut ledger, &RetireCredits { credit: id, owner: producer() }, 5000).unwrap();
        assert_eq!(personal(&ledger, producer()), 1000);
        assert_eq!(custody(&ledger, id), 0);
        assert_eq!(ledger.total_supply(), 1000);
    }
}

#[test]
fn retired_credit_rejects_every_change() {
    let (mut registry, mut ledger) = setup(80);
    let id = issue(&mut registry, &mut ledger, 80).unwrap();
    validate(&mut registry, id).unwrap();
    retire_credits(&mut registry, &mut ledger, &RetireCredits { credit: id, owner: producer() }, 4000).unwrap();
    let events = registry.event_count();

    assert_eq!(validate(&mut registry, id), Err(GreenHydrogenCreditsError::AlreadyValidated));
    assert_eq!(
        transfer_credits(&mut registry, &TransferCredits { credit: id, owner: producer() }, buyer(), 5000),
        Err(GreenHydrogenCreditsError::CreditAlreadyRetired)
    );
    assert_eq!(
        retire_credits(&mut registry, &mut ledger, &RetireCredits { credit: id, owner: producer() }, 5000),
        Err(GreenHydrogenCreditsError::CreditAlreadyRetired)
    );
    let c = registry.get_credit(id).unwrap();
    assert!(c.is_retired);
    assert_eq!(c.owner, producer());
    assert_eq!(c.validator, Some("V1".to_string()));
    assert_eq!(c.validated_at, Some(2000));
    assert_eq!(c.retired_at, Some(4000));
    assert_eq!(c.transferred_at, None);
    assert_eq!(registry.event_count(), events);
    assert_eq!(personal(&ledger, producer()), 80);
}

#[test]
fn second_retirement_pays_nothing() {
    let (mut registry, mut ledger) = setup(60);
    let id = issue(&mut registry, &mut ledger, 60).unwrap();
    validate(&mut registry, id).unwrap();
    let first = retire_credits(&mut registry, &mut ledger, &RetireCredits { credit: id, owner: producer() }, 4000);
    let second = retire_credits(&mut registry, &mut ledger, &RetireCredits { credit: id, owner: producer() }, 4001);
    assert_eq!(first, Ok(()));
    assert_eq!(second, Err(GreenHydrogenCreditsError::CreditAlreadyRetired));
    assert_eq!(personal(&ledger, producer()), 60);
    assert_eq!(ledger.total_supply(), 60);
    assert_eq!(registry.get_credit(id).unwrap().retired_at, Some(4000));
}

#[test]
fn validating_twice_fails() {
    let (mut registry, mut ledger) = setup(10);
    let id = issue(&mut registry, &mut ledger, 10).unwrap();
    validate(&mut registry, id).unwrap();
    let r = validate_credits(&mut registry, &ValidateCredits { credit: id, authorized: true }, "V2".to_string(), 9000);
    assert_eq!(r, Err(GreenHydrogenCreditsError::AlreadyValidated));
    let c = registry.get_credit(id).unwrap();
    assert_eq!(c.validator, Some("V1".to_string()));
    assert_eq!(c.validated_at, Some(2000));
}

#[test]
fn validation_needs_authorization() {
    let (mut registry, mut ledger) = setup(10);
    let id = issue(&mut registry, &mut ledger, 10).unwrap();
    let r = validate_credits(&mut registry, &ValidateCredits { credit: id, authorized: false }, "V1".to_string(), 2000);
    assert_eq!(r, Err(GreenHydrogenCreditsError::Unauthorized));
    assert!(!registry.get_credit(id).unwrap().is_validated);
}

#[test]
fn validation_records_validator_and_event() {
    let (mut registry, mut ledger) = setup(10);
    let id = issue(&mut registry, &mut ledger, 10).unwrap();
    validate(&mut registry, id).unwrap();
    match registry.get_event(1).unwrap() {
        CreditEvent::Validated(e) => {
            assert_eq!(e.credit, id);
            assert_eq!(e.validator, "V1");
            assert_eq!(e.validated_at, 2000);
        }
        other => panic!("unexpected event {:?}", other),
    }
}

#[test]
fn only_owner_may_transfer_or_retire() {
    let (mut registry, mut ledger) = setup(10);
    let id = issue(&mut registry, &mut ledger, 10).unwrap();
    validate(&mut registry, id).unwrap();
    assert_eq!(
        transfer_credits(&mut registry, &TransferCredits { credit: id, owner: buyer() }, buyer(), 3000),
        Err(GreenHydrogenCreditsError::NotOwner)
    );
    assert_eq!(
        retire_credits(&mut registry, &mut ledger, &RetireCredits { credit: id, owner: buyer() }, 3000),
        Err(GreenHydrogenCreditsError::NotOwner)
    );
    assert_eq!(registry.get_credit(id).unwrap().owner, producer());
    assert_eq!(custody(&ledger, id), 10);
}

#[test]
fn previous_owner_loses_rights_after_transfer() {
    let (mut registry, mut ledger) = setup(10);
    let id = issue(&mut registry, &mut ledger, 10).unwrap();
    validate(&mut registry, id).unwrap();
    transfer_credits(&mut registry, &TransferCredits { credit: id, owner: producer() }, buyer(), 3000).unwrap();
    match registry.get_event(2).unwrap() {
        CreditEvent::Transferred(e) => {
            assert_eq!(e.from, producer());
            assert_eq!(e.to, buyer());
            assert_eq!(e.transferred_at, 3000);
        }
        other => panic!("unexpected event {:?}", other),
    }
    assert_eq!(
        retire_credits(&mut registry, &mut ledger, &RetireCredits { credit: id, owner: producer() }, 4000),
        Err(GreenHydrogenCreditsError::NotOwner)
    );
}

#[test]
fn unknown_credit_is_not_found() {
    let (mut registry, mut ledger) = setup(10);
    assert!(registry.get_credit(0).is_none());
    assert_eq!(validate(&mut registry, 0), Err(GreenHydrogenCreditsError::NotFound));
    assert_eq!(
        transfer_credits(&mut registry, &TransferCredits { credit: 3, owner: producer() }, buyer(), 1),
        Err(GreenHydrogenCreditsError::NotFound)
    );
    assert_eq!(
        retire_credits(&mut registry, &mut ledger, &RetireCredits { credit: 3, owner: producer() }, 1),
        Err(GreenHydrogenCreditsError::NotFound)
    );
}

#[test]
fn certified_facility_is_untouched_by_issuance() {
    let (mut registry, mut ledger) = setup(300);
    let ctx = CertifyFacility { producer: producer(), authorized: true };
    let fid = certify_facility(
        &mut registry,
        &ctx,
        "North Plant".to_string(),
        "Aberdeen".to_string(),
        "wind".to_string(),
        500,
        10,
    )
    .unwrap();
    assert_eq!(fid, 0);
    let a = issue(&mut registry, &mut ledger, 100).unwrap();
    let b = issue(&mut registry, &mut ledger, 200).unwrap();
    assert_ne!(a, b);
    assert_eq!(custody(&ledger, a), 100);
    assert_eq!(custody(&ledger, b), 200);
    let f = registry.get_facility(fid).unwrap();
    assert_eq!(f.name, "North Plant");
    assert_eq!(f.location, "Aberdeen");
    assert_eq!(f.renewable_source, "wind");
    assert_eq!(f.capacity, 500);
    assert_eq!(f.producer, producer());
    assert!(f.is_certified);
    assert_eq!(f.certified_at, 10);
    assert_eq!(registry.facility_count(), 1);
    match registry.get_event(0).unwrap() {
        CreditEvent::Certified(e) => {
            assert_eq!(e.facility, 0);
            assert_eq!(e.capacity, 500);
            assert_eq!(e.renewable_source, "wind");
        }
        other => panic!("unexpected event {:?}", other),
    }
}

#[test]
fn certification_rejects_zero_capacity_and_unauthorized() {
    let (mut registry, _) = setup(0);
    let ok = CertifyFacility { producer: producer(), authorized: true };
    let denied = CertifyFacility { producer: producer(), authorized: false };
    let r = certify_facility(&mut registry, &ok, "A".to_string(), "B".to_string(), "solar".to_string(), 0, 1);
    assert_eq!(r, Err(GreenHydrogenCreditsError::InvalidAmount));
    let r = certify_facility(&mut registry, &denied, "A".to_string(), "B".to_string(), "solar".to_string(), 5, 1);
    assert_eq!(r, Err(GreenHydrogenCreditsError::Unauthorized));
    assert_eq!(registry.facility_count(), 0);
    assert!(registry.get_facility(0).is_none());
    assert_eq!(registry.event_count(), 0);
}

#[test]
fn error_messages() {
    assert_eq!(GreenHydrogenCreditsError::CreditNotValidated.message(), "Credit must be validated before transfer");
    assert_eq!(GreenHydrogenCreditsError::CreditAlreadyRetired.message(), "Credit is already retired");
}

#[test]
fn ledger_transfer_is_all_or_nothing() {
    let mut ledger = Ledger::new();
    let a = AccountKey::Personal(who(1));
    let b = AccountKey::Personal(who(2));
    ledger.mint_to(a, 30).unwrap();
    assert_eq!(ledger.transfer(a, b, 31), Err(LedgerError::InsufficientBalance));
    assert_eq!(ledger.balance_of(&a), 30);
    assert_eq!(ledger.balance_of(&b), 0);
    ledger.transfer(a, b, 30).unwrap();
    assert_eq!(ledger.balance_of(&a), 0);
    assert_eq!(ledger.balance_of(&b), 30);
    ledger.transfer(b, b, 10).unwrap();
    assert_eq!(ledger.balance_of(&b), 30);
    assert_eq!(ledger.total_supply(), 30);
}

#[test]
fn ledger_supply_cannot_overflow() {
    let mut ledger = Ledger::new();
    let a = AccountKey::Personal(who(1));
    let b = AccountKey::Custody(4);
    ledger.mint_to(a, u64::MAX - 5).unwrap();
    assert_eq!(ledger.mint_to(b, 6), Err(LedgerError::SupplyOverflow));
    assert_eq!(ledger.balance_of(&b), 0);
    ledger.mint_to(b, 5).unwrap();
    assert_eq!(ledger.total_supply(), u64::MAX);
    ledger.transfer(a, b, u64::MAX - 5).unwrap();
    assert_eq!(ledger.balance_of(&b), u64::MAX);
}
