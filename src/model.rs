use vstd::prelude::*;

use crate::identity::Identity;

verus! {

/// Configuration of one registry deployment, fixed when the registry is created.
#[derive(Clone, Debug)]
pub struct CreditMint {
    pub name: String,
    pub symbol: String,
    pub uri: String,
    pub authority: Identity,
}

/// A certificate for `amount` units of renewable-sourced production, whose value
/// sits in the custody account of its id until the credit is retired.
#[derive(Clone, Debug)]
pub struct Credit {
    pub amount: u64,
    pub renewable_source: String,
    pub production_date: String,
    pub facility_id: String,
    /// Who issued the credit.
    pub producer: Identity,
    /// Who holds the credit now.
    pub owner: Identity,
    pub is_validated: bool,
    pub validator: Option<String>,
    pub validated_at: Option<i64>,
    pub is_retired: bool,
    pub retired_at: Option<i64>,
    pub created_at: i64,
    /// Time of the latest transfer; `None` while the credit was never transferred.
    pub transferred_at: Option<i64>,
}

/// A certified renewable-production facility.
#[derive(Clone, Debug)]
pub struct Facility {
    pub name: String,
    pub location: String,
    pub renewable_source: String,
    pub capacity: u64,
    pub producer: Identity,
    pub is_certified: bool,
    pub certified_at: i64,
}

#[derive(Clone, Debug)]
pub struct CreditIssued {
    pub credit: usize,
    pub producer: Identity,
    pub amount: u64,
    pub renewable_source: String,
}

#[derive(Clone, Debug)]
pub struct CreditValidated {
    pub credit: usize,
    pub validator: String,
    pub validated_at: i64,
}

#[derive(Clone, Copy, Debug)]
pub struct CreditTransferred {
    pub credit: usize,
    pub from: Identity,
    pub to: Identity,
    pub transferred_at: i64,
}

#[derive(Clone, Copy, Debug)]
pub struct CreditRetired {
    pub credit: usize,
    pub owner: Identity,
    pub retired_at: i64,
}

#[derive(Clone, Debug)]
pub struct FacilityCertified {
    pub facility: usize,
    pub producer: Identity,
    pub renewable_source: String,
    pub capacity: u64,
}

/// One entry of the registry's outbound event log, written after each
/// successful state change.
#[derive(Clone, Debug)]
pub enum CreditEvent {
    Issued(CreditIssued),
    Validated(CreditValidated),
    Transferred(CreditTransferred),
    Retired(CreditRetired),
    Certified(FacilityCertified),
}

/// Why an operation was refused; a refused operation changes nothing.
#[derive(Clone, Copy, Debug, PartialEq, Eq, Structural)]
pub enum GreenHydrogenCreditsError {
    InvalidAmount,
    InsufficientBalance,
    CreditNotValidated,
    CreditAlreadyRetired,
    AlreadyValidated,
    NotOwner,
    NotFound,
    Unauthorized,
}

impl GreenHydrogenCreditsError {
    /// A sentence that describes the error.
    pub fn message(&self) -> (r: String) {
        match self {
            GreenHydrogenCreditsError::InvalidAmount => "Amount must be greater than zero".to_string(),
            GreenHydrogenCreditsError::InsufficientBalance => "Balance is too low for the custody transfer".to_string(),
            GreenHydrogenCreditsError::CreditNotValidated => "Credit must be validated before transfer".to_string(),
            GreenHydrogenCreditsError::CreditAlreadyRetired => "Credit is already retired".to_string(),
            GreenHydrogenCreditsError::AlreadyValidated => "Credit is already validated".to_string(),
            GreenHydrogenCreditsError::NotOwner => "Caller is not the owner of the credit".to_string(),
            GreenHydrogenCreditsError::NotFound => "No record with this identifier".to_string(),
            GreenHydrogenCreditsError::Unauthorized => "Caller is not authorized".to_string(),
        }
    }
}

/// Who creates a registry.
#[derive(Clone, Copy, Debug)]
pub struct InitializeCreditMint {
    pub authority: Identity,
}

/// Who issues a credit; the value comes from this producer's personal account.
#[derive(Clone, Copy, Debug)]
pub struct IssueCredits {
    pub producer: Identity,
}

/// Which credit to validate, and the answer of the validator policy for the caller.
#[derive(Clone, Copy, Debug)]
pub struct ValidateCredits {
    pub credit: usize,
    pub authorized: bool,
}

/// Which credit to transfer, and the caller, who must be its owner.
#[derive(Clone, Copy, Debug)]
pub struct TransferCredits {
    pub credit: usize,
    pub owner: Identity,
}

/// Which credit to retire, and the caller, who must be its owner.
#[derive(Clone, Copy, Debug)]
pub struct RetireCredits {
    pub credit: usize,
    pub owner: Identity,
}

/// Who certifies a facility, and the answer of the certification policy for them.
#[derive(Clone, Copy, Debug)]
pub struct CertifyFacility {
    pub producer: Identity,
    pub authorized: bool,
}

impl Credit {
    /// The lifecycle invariant of a credit.
    pub open spec fn wf(&self) -> bool {
        &&& self.amount > 0
        &&& self.is_retired ==> self.is_validated
        &&& self.is_validated <==> self.validator is Some
        &&& self.is_validated <==> self.validated_at is Some
        &&& self.is_retired <==> self.retired_at is Some
    }

    /// The value that custody holds for this credit.
    pub open spec fn locked(&self) -> nat {
        if self.is_retired {
            0
        } else {
            self.amount as nat
        }
    }

    /// The credit after validation by `validator` at time `now`.
    pub open spec fn validated_by(self, validator: String, now: i64) -> Credit {
        Credit { is_validated: true, validator: Some(validator), validated_at: Some(now), ..self }
    }

    /// The credit after passing to `new_owner` at time `now`.
    pub open spec fn transferred_to(self, new_owner: Identity, now: i64) -> Credit {
        Credit { owner: new_owner, transferred_at: Some(now), ..self }
    }

    /// The credit after retirement at time `now`.
    pub open spec fn retired(self, now: i64) -> Credit {
        Credit { is_retired: true, retired_at: Some(now), ..self }
    }

    /// Whether `transfer_credits` or `retire_credits` by `caller` may proceed.
    pub open spec fn spendable_by(self, caller: Identity) -> bool {
        self.is_validated && !self.is_retired && self.owner == caller
    }

    /// The error `transfer_credits` or `retire_credits` by `caller` meets, if any.
    pub open spec fn spend_error(self, caller: Identity) -> Option<GreenHydrogenCreditsError> {
        if !self.is_validated {
            Some(GreenHydrogenCreditsError::CreditNotValidated)
        } else if self.is_retired {
            Some(GreenHydrogenCreditsError::CreditAlreadyRetired)
        } else if self.owner != caller {
            Some(GreenHydrogenCreditsError::NotOwner)
        } else {
            None
        }
    }
}

impl Credit {
    /// A new credit of `amount` for `producer`, created at time `now`; the
    /// amount must be positive.
    pub fn issue(
        producer: Identity,
        amount: u64,
        renewable_source: String,
        production_date: String,
        facility_id: String,
        now: i64,
    ) -> (r: Result<Credit, GreenHydrogenCreditsError>)
        ensures
            amount == 0 ==> r == Err::<Credit, GreenHydrogenCreditsError>(
                GreenHydrogenCreditsError::InvalidAmount,
            ),
            amount > 0 ==> r == Ok::<Credit, GreenHydrogenCreditsError>(
                issued_credit(producer, amount, renewable_source, production_date, facility_id, now),
            ),
            r is Ok ==> r->Ok_0.wf(),
    {
        if amount == 0 {
            return Err(GreenHydrogenCreditsError::InvalidAmount);
        }
        Ok(
            Credit {
                amount,
                renewable_source,
                production_date,
                facility_id,
                producer,
                owner: producer,
                is_validated: false,
                validator: None,
                validated_at: None,
                is_retired: false,
                retired_at: None,
                created_at: now,
                transferred_at: None,
            },
        )
    }

    /// Stamps the credit as validated by `validator_id` at time `now`; a credit
    /// is validated once.
    pub fn validate(&mut self, validator_id: String, now: i64) -> (r: Result<(), GreenHydrogenCreditsError>)
        ensures
            r is Ok <==> !old(self).is_validated,
            r is Ok ==> *final(self) == old(self).validated_by(validator_id, now),
            r is Err ==> r == Err::<(), GreenHydrogenCreditsError>(
                GreenHydrogenCreditsError::AlreadyValidated,
            ) && *final(self) == *old(self),
    {
        if self.is_validated {
            return Err(GreenHydrogenCreditsError::AlreadyValidated);
        }
        self.is_validated = true;
        self.validator = Some(validator_id);
        self.validated_at = Some(now);
        Ok(())
    }

    /// Whether `caller` may transfer or retire the credit: it must be validated,
    /// not retired, and owned by `caller`.
    pub fn check_spendable(&self, caller: &Identity) -> (r: Result<(), GreenHydrogenCreditsError>)
        ensures
            r == match self.spend_error(*caller) {
                Some(e) => Err(e),
                None => Ok(()),
            },
    {
        if !self.is_validated {
            Err(GreenHydrogenCreditsError::CreditNotValidated)
        } else if self.is_retired {
            Err(GreenHydrogenCreditsError::CreditAlreadyRetired)
        } else if !self.owner.same(caller) {
            Err(GreenHydrogenCreditsError::NotOwner)
        } else {
            Ok(())
        }
    }

    /// Passes the credit from its owner `caller` to `new_owner` at time `now`.
    pub fn transfer(&mut self, caller: &Identity, new_owner: Identity, now: i64) -> (r: Result<
        (),
        GreenHydrogenCreditsError,
    >)
        ensures
            r == match old(self).spend_error(*caller) {
                Some(e) => Err(e),
                None => Ok(()),
            },
            r is Ok ==> *final(self) == old(self).transferred_to(new_owner, now),
            r is Err ==> *final(self) == *old(self),
    {
        match self.check_spendable(caller) {
            Err(e) => Err(e),
            Ok(()) => {
                self.owner = new_owner;
                self.transferred_at = Some(now);
                Ok(())
            },
        }
    }

    /// Marks the credit retired at time `now` on behalf of its owner `caller`.
    /// The record alone: releasing the custody account is the caller's part
    /// (`registry::retire_credits` does both).
    pub fn mark_retired(&mut self, caller: &Identity, now: i64) -> (r: Result<(), GreenHydrogenCreditsError>)
        ensures
            r == match old(self).spend_error(*caller) {
                Some(e) => Err(e),
                None => Ok(()),
            },
            r is Ok ==> *final(self) == old(self).retired(now),
            r is Err ==> *final(self) == *old(self),
    {
        match self.check_spendable(caller) {
            Err(e) => Err(e),
            Ok(()) => {
                self.is_retired = true;
                self.retired_at = Some(now);
                Ok(())
            },
        }
    }
}

impl Facility {
    /// The record of a facility of `producer` certified at time `now`; the
    /// capacity must be positive.
    pub fn certify(
        producer: Identity,
        name: String,
        location: String,
        renewable_source: String,
        capacity: u64,
        now: i64,
    ) -> (r: Result<Facility, GreenHydrogenCreditsError>)
        ensures
            capacity == 0 ==> r == Err::<Facility, GreenHydrogenCreditsError>(
                GreenHydrogenCreditsError::InvalidAmount,
            ),
            capacity > 0 ==> r == Ok::<Facility, GreenHydrogenCreditsError>(
                certified_facility(producer, name, location, renewable_source, capacity, now),
            ),
    {
        if capacity == 0 {
            return Err(GreenHydrogenCreditsError::InvalidAmount);
        }
        Ok(
            Facility {
                name,
                location,
                renewable_source,
                capacity,
                producer,
                is_certified: true,
                certified_at: now,
            },
        )
    }
}

/// A facility record as certified.
pub open spec fn certified_facility(
    producer: Identity,
    name: String,
    location: String,
    renewable_source: String,
    capacity: u64,
    now: i64,
) -> Facility {
    Facility { name, location, renewable_source, capacity, producer, is_certified: true, certified_at: now }
}

/// A new credit as issued: owned by its producer, neither validated nor retired.
pub open spec fn issued_credit(
    producer: Identity,
    amount: u64,
    renewable_source: String,
    production_date: String,
    facility_id: String,
    now: i64,
) -> Credit {
    Credit {
        amount,
        renewable_source,
        production_date,
        facility_id,
        producer,
        owner: producer,
        is_validated: false,
        validator: None,
        validated_at: None,
        is_retired: false,
        retired_at: None,
        created_at: now,
        transferred_at: None,
    }
}

} // verus!
