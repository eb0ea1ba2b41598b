use vstd::prelude::*;

use crate::identity::Identity;
use crate::ledger::{AccountKey, Ledger};
use crate::model::{GreenHydrogenCreditsError, IssueCredits, RetireCredits, TransferCredits, ValidateCredits};
use crate::registry::{issue_post, retire_post, transfer_post, validate_post, Registry};

verus! {

/// Issuing a credit of a positive amount the producer can cover, validating it
/// and then retiring it as the producer all succeed, and hand exactly the amount
/// back: the producer's balance ends where it started and the credit's custody
/// account ends empty.
pub proof fn issue_validate_retire_conserves(
    reg0: Registry,
    l0: Ledger,
    producer: Identity,
    amount: u64,
    renewable_source: String,
    production_date: String,
    facility_id: String,
    t0: i64,
    ri: Result<usize, GreenHydrogenCreditsError>,
    reg1: Registry,
    l1: Ledger,
    validator_id: String,
    t1: i64,
    rv: Result<(), GreenHydrogenCreditsError>,
    reg2: Registry,
    t2: i64,
    rr: Result<(), GreenHydrogenCreditsError>,
    reg3: Registry,
    l3: Ledger,
)
    requires
        reg0.custody_consistent(&l0),
        amount > 0,
        l0.balance(AccountKey::Personal(producer)) >= amount,
        issue_post(
            reg0,
            l0,
            IssueCredits { producer },
            amount,
            renewable_source,
            production_date,
            facility_id,
            t0,
            ri,
            reg1,
            l1,
        ),
        ri is Ok ==> validate_post(
            reg1,
            ValidateCredits { credit: ri->Ok_0, authorized: true },
            validator_id,
            t1,
            rv,
            reg2,
        ),
        ri is Ok ==> retire_post(
            reg2,
            l1,
            RetireCredits { credit: ri->Ok_0, owner: producer },
            t2,
            rr,
            reg3,
            l3,
        ),
    ensures
        ri is Ok,
        rv is Ok,
        rr is Ok,
        l1.balance(AccountKey::Personal(producer)) + amount == l0.balance(AccountKey::Personal(producer)),
        l3.balance(AccountKey::Personal(producer)) == l0.balance(AccountKey::Personal(producer)),
        l3.balance(AccountKey::Custody(ri->Ok_0)) == 0,
{
    let id = ri->Ok_0;
    assert(reg2.credits()[id as int] == reg1.credits()[id as int].validated_by(validator_id, t1));
    assert(l0.balance(AccountKey::Custody(id)) == 0);
}

/// A credit that was never validated cannot change hands: `transfer_credits`
/// fails with `CreditNotValidated` and leaves the registry as it was.
pub proof fn unvalidated_credit_cannot_be_transferred(
    reg0: Registry,
    ctx: TransferCredits,
    new_owner: Identity,
    now: i64,
    r: Result<(), GreenHydrogenCreditsError>,
    reg1: Registry,
)
    requires
        ctx.credit < reg0.credits().len(),
        !reg0.credits()[ctx.credit as int].is_validated,
        transfer_post(reg0, ctx, new_owner, now, r, reg1),
    ensures
        r == Err::<(), GreenHydrogenCreditsError>(GreenHydrogenCreditsError::CreditNotValidated),
        reg1 == reg0,
{
}

/// A credit that was never validated cannot be retired: `retire_credits` fails
/// with `CreditNotValidated` and leaves the registry and the ledger as they were.
pub proof fn unvalidated_credit_cannot_be_retired(
    reg0: Registry,
    l0: Ledger,
    ctx: RetireCredits,
    now: i64,
    r: Result<(), GreenHydrogenCreditsError>,
    reg1: Registry,
    l1: Ledger,
)
    requires
        ctx.credit < reg0.credits().len(),
        !reg0.credits()[ctx.credit as int].is_validated,
        retire_post(reg0, l0, ctx, now, r, reg1, l1),
    ensures
        r == Err::<(), GreenHydrogenCreditsError>(GreenHydrogenCreditsError::CreditNotValidated),
        reg1 == reg0,
        l1 == l0,
{
}

/// A retired credit is frozen: validating, transferring or retiring it again
/// fails, whoever asks, and changes neither the registry nor the ledger.
pub proof fn retired_credit_is_immutable(
    reg0: Registry,
    l0: Ledger,
    id: usize,
    authorized: bool,
    validator_id: String,
    caller: Identity,
    new_owner: Identity,
    now: i64,
    rv: Result<(), GreenHydrogenCreditsError>,
    reg1: Registry,
    rt: Result<(), GreenHydrogenCreditsError>,
    reg2: Registry,
    rr: Result<(), GreenHydrogenCreditsError>,
    reg3: Registry,
    l3: Ledger,
)
    requires
        reg0.custody_consistent(&l0),
        id < reg0.credits().len(),
        reg0.credits()[id as int].is_retired,
        validate_post(reg0, ValidateCredits { credit: id, authorized }, validator_id, now, rv, reg1),
        transfer_post(reg0, TransferCredits { credit: id, owner: caller }, new_owner, now, rt, reg2),
        retire_post(reg0, l0, RetireCredits { credit: id, owner: caller }, now, rr, reg3, l3),
    ensures
        rv is Err,
        rt == Err::<(), GreenHydrogenCreditsError>(GreenHydrogenCreditsError::CreditAlreadyRetired),
        rr == Err::<(), GreenHydrogenCreditsError>(GreenHydrogenCreditsError::CreditAlreadyRetired),
        reg1 == reg0,
        reg2 == reg0,
        reg3 == reg0,
        l3 == l0,
{
    assert(reg0.credits()[id as int].wf());
}

/// Two retirements of one credit, one after the other: at most one succeeds.
/// Once the first has succeeded the second fails with `CreditAlreadyRetired` and
/// moves no value, so the amount is paid out once.
pub proof fn credit_is_retired_once(
    reg0: Registry,
    l0: Ledger,
    first: RetireCredits,
    t1: i64,
    r1: Result<(), GreenHydrogenCreditsError>,
    reg1: Registry,
    l1: Ledger,
    second: RetireCredits,
    t2: i64,
    r2: Result<(), GreenHydrogenCreditsError>,
    reg2: Registry,
    l2: Ledger,
)
    requires
        first.credit == second.credit,
        retire_post(reg0, l0, first, t1, r1, reg1, l1),
        retire_post(reg1, l1, second, t2, r2, reg2, l2),
    ensures
        !(r1 is Ok && r2 is Ok),
        r1 is Ok ==> r2 == Err::<(), GreenHydrogenCreditsError>(
            GreenHydrogenCreditsError::CreditAlreadyRetired,
        ) && l2 == l1 && reg2 == reg1,
{
}

} // verus!
