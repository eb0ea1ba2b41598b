use green_hydrogen_credits::identity::Identity;
use green_hydrogen_credits::ledger::{AccountKey, Ledger};
use green_hydrogen_credits::model::{
    Credit, Facility, GreenHydrogenCreditsError, InitializeCreditMint, IssueCredits, TransferCredits,
    ValidateCredits,
};
use green_hydrogen_credits::registry::{initialize_credit_mint, issue_credits, transfer_credits, validate_credits};

fn key(n: u128) -> Identity {
    Identity::new(n, 0)
}

fn fresh_credit(amount: u64) -> Result<Credit, GreenHydrogenCreditsError> {
    Credit::issue(key(1), amount, "solar".to_string(), "2024-01-01".to_string(), "f-1".to_string(), 10)
}

#[test]
fn credit_issue_rejects_zero() {
    assert_eq!(fresh_credit(0).err(), Some(GreenHydrogenCreditsError::InvalidAmount));
    let c = fresh_credit(5).unwrap();
    assert_eq!(c.amount, 5);
    assert_eq!(c.owner, key(1));
    assert!(!c.is_validated && !c.is_retired);
}

#[test]
fn credit_methods_follow_lifecycle() {
    let mut c = fresh_credit(5).unwrap();
    assert_eq!(c.check_spendable(&key(1)), Err(GreenHydrogenCreditsError::CreditNotValidated));
    assert_eq!(c.transfer(&key(1), key(2), 11), Err(GreenHydrogenCreditsError::CreditNotValidated));
    assert_eq!(c.mark_retired(&key(1), 11), Err(GreenHydrogenCreditsError::CreditNotValidated));
    c.validate("auditor".to_string(), 12).unwrap();
    assert_eq!(c.validate("auditor".to_string(), 13), Err(GreenHydrogenCreditsError::AlreadyValidated));
    assert_eq!(c.validated_at, Some(12));
    assert_eq!(c.transfer(&key(2), key(3), 14), Err(GreenHydrogenCreditsError::NotOwner));
    c.transfer(&key(1), key(2), 14).unwrap();
    assert_eq!(c.owner, key(2));
    assert_eq!(c.producer, key(1));
    assert_eq!(c.transferred_at, Some(14));
    c.mark_retired(&key(2), 15).unwrap();
    assert_eq!(c.retired_at, Some(15));
    assert_eq!(c.check_spendable(&key(2)), Err(GreenHydrogenCreditsError::CreditAlreadyRetired));
    assert_eq!(c.amount, 5);
}

#[test]
fn facility_certify_rejects_zero_capacity() {
    let r = Facility::certify(key(1), "P".to_string(), "L".to_string(), "wind".to_string(), 0, 3);
    assert_eq!(r.err().map(|e| e.message()), Some("Amount must be greater than zero".to_string()));
    let f = Facility::certify(key(1), "P".to_string(), "L".to_string(), "wind".to_string(), 1, 3).unwrap();
    assert_eq!(f.capacity, 1);
    assert!(f.is_certified);
}

#[test]
fn identity_halves_compare() {
    assert!(key(4).same(&Identity::new(4, 0)));
    assert!(!key(4).same(&Identity::new(0, 4)));
}

#[test]
fn listing_by_owner_and_producer() {
    let mut registry = initialize_credit_mint(
        &InitializeCreditMint { authority: key(9) },
        "n".to_string(),
        "s".to_string(),
        "u".to_string(),
    );
    let mut ledger = Ledger::new();
    ledger.mint_to(AccountKey::Personal(key(1)), 100).unwrap();
    ledger.mint_to(AccountKey::Personal(key(2)), 100).unwrap();
    for (who, amount) in [(1u128, 10u64), (2, 20), (1, 30)] {
        issue_credits(
            &mut registry,
            &mut ledger,
            &IssueCredits { producer: key(who) },
            amount,
            "hydro".to_string(),
            "2024-02-02".to_string(),
            "f-2".to_string(),
            1,
        )
        .unwrap();
    }
    validate_credits(&mut registry, &ValidateCredits { credit: 2, authorized: true }, "v".to_string(), 2).unwrap();
    transfer_credits(&mut registry, &TransferCredits { credit: 2, owner: key(1) }, key(2), 3).unwrap();
    assert_eq!(registry.credits_issued_by(key(1)), vec![0, 2]);
    assert_eq!(registry.credits_issued_by(key(2)), vec![1]);
    assert_eq!(registry.credits_owned_by(key(1)), vec![0]);
    assert_eq!(registry.credits_owned_by(key(2)), vec![1, 2]);
    assert!(registry.credits_owned_by(key(3)).is_empty());
    assert_eq!(ledger.balance_of(&AccountKey::Personal(key(1))), 60);
    assert_eq!(ledger.balance_of(&AccountKey::Custody(2)), 30);
}
