use vstd::prelude::*;

use crate::identity::Identity;
use crate::ledger::{AccountKey, Ledger};
use crate::model::{
    certified_facility, issued_credit, CertifyFacility, Credit, CreditEvent, CreditIssued, CreditMint,
    CreditRetired, CreditTransferred, CreditValidated, Facility, FacilityCertified,
    GreenHydrogenCreditsError, InitializeCreditMint, IssueCredits, RetireCredits,
    TransferCredits, ValidateCredits,
};

verus! {

/// The store of all records of one deployment: its configuration, the credits and
/// the facilities, each addressed by its position, and the log of events.
pub struct Registry {
    mint: CreditMint,
    credits: Vec<Credit>,
    facilities: Vec<Facility>,
    events: Vec<CreditEvent>,
}

impl Registry {
    pub closed spec fn config(&self) -> CreditMint {
        self.mint
    }

    pub closed spec fn credits(&self) -> Seq<Credit> {
        self.credits@
    }

    pub closed spec fn facilities(&self) -> Seq<Facility> {
        self.facilities@
    }

    pub closed spec fn events(&self) -> Seq<CreditEvent> {
        self.events@
    }

    /// Every credit keeps its lifecycle invariant, and the custody account of
    /// each credit id holds exactly what that credit locks (nothing for an id
    /// not issued yet).
    pub open spec fn custody_consistent(&self, ledger: &Ledger) -> bool {
        &&& ledger.wf()
        &&& forall|i: usize|
            i < self.credits().len() ==> (#[trigger] self.credits()[i as int]).wf()
                && ledger.balance(AccountKey::Custody(i)) == self.credits()[i as int].locked()
        &&& forall|i: usize|
            i >= self.credits().len() ==> #[trigger] ledger.balance(AccountKey::Custody(i)) == 0
    }

    /// The credit with id `id`.
    pub fn get_credit(&self, id: usize) -> (r: Option<&Credit>)
        ensures
            id < self.credits().len() ==> r == Some(&self.credits()[id as int]),
            id >= self.credits().len() ==> r is None,
    {
        if id < self.credits.len() {
            Some(&self.credits[id])
        } else {
            None
        }
    }

    /// The facility with id `id`.
    pub fn get_facility(&self, id: usize) -> (r: Option<&Facility>)
        ensures
            id < self.facilities().len() ==> r == Some(&self.facilities()[id as int]),
            id >= self.facilities().len() ==> r is None,
    {
        if id < self.facilities.len() {
            Some(&self.facilities[id])
        } else {
            None
        }
    }

    /// The `i`-th event written.
    pub fn get_event(&self, i: usize) -> (r: Option<&CreditEvent>)
        ensures
            i < self.events().len() ==> r == Some(&self.events()[i as int]),
            i >= self.events().len() ==> r is None,
    {
        if i < self.events.len() {
            Some(&self.events[i])
        } else {
            None
        }
    }

    /// Ids of the credits that `holder` owns now, in increasing order.
    pub fn credits_owned_by(&self, holder: Identity) -> (r: Vec<usize>)
        ensures
            forall|k: int| 0 <= k < r@.len() ==> #[trigger] r@[k] < self.credits().len()
                && self.credits()[r@[k] as int].owner == holder,
            forall|k: int, m: int| 0 <= k < m < r@.len() ==> r@[k] < r@[m],
            forall|i: usize| i < self.credits().len() && (#[trigger] self.credits()[i as int]).owner
                == holder ==> r@.contains(i),
    {
        let mut r: Vec<usize> = Vec::new();
        let mut i: usize = 0;
        while i < self.credits.len()
            invariant
                i <= self.credits@.len(),
                forall|k: int| 0 <= k < r@.len() ==> #[trigger] r@[k] < i
                    && self.credits@[r@[k] as int].owner == holder,
                forall|k: int, m: int| 0 <= k < m < r@.len() ==> r@[k] < r@[m],
                forall|j: usize| j < i && (#[trigger] self.credits@[j as int]).owner == holder
                    ==> r@.contains(j),
            decreases self.credits@.len() - i,
        {
            if self.credits[i].owner.same(&holder) {
                let ghost before = r@;
                r.push(i);
                proof {
                    assert forall|j: usize| j < i + 1 && (#[trigger] self.credits@[j as int]).owner
                        == holder implies r@.contains(j) by {
                        if j == i {
                            assert(r@[r@.len() - 1] == i);
                        } else {
                            let k = choose|k: int| 0 <= k < before.len() && before[k] == j;
                            assert(r@[k] == j);
                        }
                    }
                }
            }
            i = i + 1;
        }
        r
    }

    /// Ids of the credits that `producer` issued, in increasing order.
    pub fn credits_issued_by(&self, producer: Identity) -> (r: Vec<usize>)
        ensures
            forall|k: int| 0 <= k < r@.len() ==> #[trigger] r@[k] < self.credits().len()
                && self.credits()[r@[k] as int].producer == producer,
            forall|k: int, m: int| 0 <= k < m < r@.len() ==> r@[k] < r@[m],
            forall|i: usize| i < self.credits().len() && (#[trigger] self.credits()[i as int]).producer
                == producer ==> r@.contains(i),
    {
        let mut r: Vec<usize> = Vec::new();
        let mut i: usize = 0;
        while i < self.credits.len()
            invariant
                i <= self.credits@.len(),
                forall|k: int| 0 <= k < r@.len() ==> #[trigger] r@[k] < i
                    && self.credits@[r@[k] as int].producer == producer,
                forall|k: int, m: int| 0 <= k < m < r@.len() ==> r@[k] < r@[m],
                forall|j: usize| j < i && (#[trigger] self.credits@[j as int]).producer == producer
                    ==> r@.contains(j),
            decreases self.credits@.len() - i,
        {
            if self.credits[i].producer.same(&producer) {
                let ghost before = r@;
                r.push(i);
                proof {
                    assert forall|j: usize| j < i + 1 && (#[trigger] self.credits@[j as int]).producer
                        == producer implies r@.contains(j) by {
                        if j == i {
                            assert(r@[r@.len() - 1] == i);
                        } else {
                            let k = choose|k: int| 0 <= k < before.len() && before[k] == j;
                            assert(r@[k] == j);
                        }
                    }
                }
            }
            i = i + 1;
        }
        r
    }

    pub fn credit_count(&self) -> (r: usize)
        ensures
            r == self.credits().len(),
    {
        self.credits.len()
    }

    pub fn facility_count(&self) -> (r: usize)
        ensures
            r == self.facilities().len(),
    {
        self.facilities.len()
    }

    pub fn event_count(&self) -> (r: usize)
        ensures
            r == self.events().len(),
    {
        self.events.len()
    }

    pub fn mint(&self) -> (r: &CreditMint)
        ensures
            *r == self.config(),
    {
        &self.mint
    }
}

/// Creates the registry of a deployment, configured by `ctx.authority`, with no
/// records yet.
pub fn initialize_credit_mint(ctx: &InitializeCreditMint, name: String, symbol: String, uri: String) -> (r:
    Registry)
    ensures
        r.config() == (CreditMint { name, symbol, uri, authority: ctx.authority }),
        r.credits().len() == 0,
        r.facilities().len() == 0,
        r.events().len() == 0,
        forall|l: &Ledger| l.wf() && (forall|i: usize| #[trigger] l.balance(AccountKey::Custody(i)) == 0)
            ==> r.custody_consistent(l),
{
    Registry {
        mint: CreditMint { name, symbol, uri, authority: ctx.authority },
        credits: Vec::new(),
        facilities: Vec::new(),
        events: Vec::new(),
    }
}

/// What `issue_credits` returns: the next credit id, unless the amount is zero
/// or the producer's balance cannot cover it.
pub open spec fn issue_result(reg: Registry, ledger: Ledger, producer: Identity, amount: u64) -> Result<
    usize,
    GreenHydrogenCreditsError,
> {
    if amount == 0 {
        Err(GreenHydrogenCreditsError::InvalidAmount)
    } else if ledger.balance(AccountKey::Personal(producer)) < amount {
        Err(GreenHydrogenCreditsError::InsufficientBalance)
    } else {
        Ok(reg.credits().len() as usize)
    }
}

/// The effect of `issue_credits`: on success the amount moves from the producer
/// into the custody account of the new credit, which is appended, with its event;
/// on failure nothing changes.
pub open spec fn issue_post(
    reg0: Registry,
    l0: Ledger,
    ctx: IssueCredits,
    amount: u64,
    renewable_source: String,
    production_date: String,
    facility_id: String,
    now: i64,
    r: Result<usize, GreenHydrogenCreditsError>,
    reg1: Registry,
    l1: Ledger,
) -> bool {
    &&& r == issue_result(reg0, l0, ctx.producer, amount)
    &&& r is Err ==> reg1 == reg0 && l1 == l0
    &&& r is Ok ==> {
        let id = r->Ok_0;
        &&& id == reg0.credits().len()
        &&& reg1.config() == reg0.config()
        &&& reg1.facilities() == reg0.facilities()
        &&& reg1.credits() == reg0.credits().push(
            issued_credit(ctx.producer, amount, renewable_source, production_date, facility_id, now),
        )
        &&& reg1.events() == reg0.events().push(
            CreditEvent::Issued(
                CreditIssued { credit: id, producer: ctx.producer, amount, renewable_source },
            ),
        )
        &&& l0.moved(&l1, AccountKey::Personal(ctx.producer), AccountKey::Custody(id), amount as nat)
    }
}

/// Issues a credit of `amount` to `ctx.producer`, locking the amount in the
/// custody account of the new credit's id. The facility id is recorded as given:
/// issuance does not look it up among the certified facilities.
pub fn issue_credits(
    registry: &mut Registry,
    ledger: &mut Ledger,
    ctx: &IssueCredits,
    amount: u64,
    renewable_source: String,
    production_date: String,
    facility_id: String,
    now: i64,
) -> (r: Result<usize, GreenHydrogenCreditsError>)
    requires
        old(registry).custody_consistent(&*old(ledger)),
    ensures
        final(registry).custody_consistent(&*final(ledger)),
        issue_post(
            *old(registry),
            *old(ledger),
            *ctx,
            amount,
            renewable_source,
            production_date,
            facility_id,
            now,
            r,
            *final(registry),
            *final(ledger),
        ),
{
    let event_source = renewable_source.clone();
    let credit = match Credit::issue(
        ctx.producer,
        amount,
        renewable_source,
        production_date,
        facility_id,
        now,
    ) {
        Err(e) => {
            return Err(e);
        },
        Ok(c) => c,
    };
    let id = registry.credits.len();
    let from = AccountKey::Personal(ctx.producer);
    let to = AccountKey::Custody(id);
    match ledger.transfer(from, to, amount) {
        Ok(()) => {},
        Err(_) => {
            return Err(GreenHydrogenCreditsError::InsufficientBalance);
        },
    }
    registry.credits.push(credit);
    registry.events.push(
        CreditEvent::Issued(
            CreditIssued { credit: id, producer: ctx.producer, amount, renewable_source: event_source },
        ),
    );
    proof {
        let n = registry.credits@.len();
        assert forall|i: usize| i >= n implies #[trigger] ledger.balance(AccountKey::Custody(i)) == 0 by {
            assert(old(ledger).balance(AccountKey::Custody(i)) == 0);
        }
        assert forall|i: usize| i < n implies (#[trigger] registry.credits@[i as int]).wf()
            && ledger.balance(AccountKey::Custody(i)) == registry.credits@[i as int].locked() by {
            if i < n - 1 {
                assert(old(registry).credits@[i as int] == registry.credits@[i as int]);
            }
        }
    }
    Ok(id)
}

/// What `validate_credits` returns.
pub open spec fn validate_result(reg: Registry, ctx: ValidateCredits) -> Result<(), GreenHydrogenCreditsError> {
    if ctx.credit >= reg.credits().len() {
        Err(GreenHydrogenCreditsError::NotFound)
    } else if !ctx.authorized {
        Err(GreenHydrogenCreditsError::Unauthorized)
    } else if reg.credits()[ctx.credit as int].is_validated {
        Err(GreenHydrogenCreditsError::AlreadyValidated)
    } else {
        Ok(())
    }
}

/// The effect of `validate_credits`: on success the credit is stamped with the
/// validator and the time, with its event; on failure nothing changes.
pub open spec fn validate_post(
    reg0: Registry,
    ctx: ValidateCredits,
    validator_id: String,
    now: i64,
    r: Result<(), GreenHydrogenCreditsError>,
    reg1: Registry,
) -> bool {
    &&& r == validate_result(reg0, ctx)
    &&& r is Err ==> reg1 == reg0
    &&& r is Ok ==> {
        &&& reg1.config() == reg0.config()
        &&& reg1.facilities() == reg0.facilities()
        &&& reg1.credits() == reg0.credits().update(
            ctx.credit as int,
            reg0.credits()[ctx.credit as int].validated_by(validator_id, now),
        )
        &&& reg1.events() == reg0.events().push(
            CreditEvent::Validated(
                CreditValidated { credit: ctx.credit, validator: validator_id, validated_at: now },
            ),
        )
    }
}

/// What `transfer_credits` returns.
pub open spec fn transfer_result(reg: Registry, ctx: TransferCredits) -> Result<(), GreenHydrogenCreditsError> {
    if ctx.credit >= reg.credits().len() {
        Err(GreenHydrogenCreditsError::NotFound)
    } else {
        match reg.credits()[ctx.credit as int].spend_error(ctx.owner) {
            Some(e) => Err(e),
            None => Ok(()),
        }
    }
}

/// The effect of `transfer_credits`: on success the credit has a new owner and
/// transfer time, with its event; custody does not move; on failure nothing
/// changes.
pub open spec fn transfer_post(
    reg0: Registry,
    ctx: TransferCredits,
    new_owner: Identity,
    now: i64,
    r: Result<(), GreenHydrogenCreditsError>,
    reg1: Registry,
) -> bool {
    &&& r == transfer_result(reg0, ctx)
    &&& r is Err ==> reg1 == reg0
    &&& r is Ok ==> {
        let c = reg0.credits()[ctx.credit as int];
        &&& reg1.config() == reg0.config()
        &&& reg1.facilities() == reg0.facilities()
        &&& reg1.credits() == reg0.credits().update(ctx.credit as int, c.transferred_to(new_owner, now))
        &&& reg1.events() == reg0.events().push(
            CreditEvent::Transferred(
                CreditTransferred { credit: ctx.credit, from: c.owner, to: new_owner, transferred_at: now },
            ),
        )
    }
}

/// What `retire_credits` returns.
pub open spec fn retire_result(reg: Registry, ctx: RetireCredits) -> Result<(), GreenHydrogenCreditsError> {
    if ctx.credit >= reg.credits().len() {
        Err(GreenHydrogenCreditsError::NotFound)
    } else {
        match reg.credits()[ctx.credit as int].spend_error(ctx.owner) {
            Some(e) => Err(e),
            None => Ok(()),
        }
    }
}

/// The effect of `retire_credits`: on success the whole amount moves from the
/// credit's custody account to the owner and the credit is marked retired, with
/// its event; on failure nothing changes.
pub open spec fn retire_post(
    reg0: Registry,
    l0: Ledger,
    ctx: RetireCredits,
    now: i64,
    r: Result<(), GreenHydrogenCreditsError>,
    reg1: Registry,
    l1: Ledger,
) -> bool {
    &&& r == retire_result(reg0, ctx)
    &&& r is Err ==> reg1 == reg0 && l1 == l0
    &&& r is Ok ==> {
        let c = reg0.credits()[ctx.credit as int];
        &&& reg1.config() == reg0.config()
        &&& reg1.facilities() == reg0.facilities()
        &&& reg1.credits() == reg0.credits().update(ctx.credit as int, c.retired(now))
        &&& reg1.events() == reg0.events().push(
            CreditEvent::Retired(CreditRetired { credit: ctx.credit, owner: c.owner, retired_at: now }),
        )
        &&& l0.moved(
            &l1,
            AccountKey::Custody(ctx.credit),
            AccountKey::Personal(ctx.owner),
            c.amount as nat,
        )
    }
}

/// Validates credit `ctx.credit` as `validator_id` at time `now`; a credit is
/// validated once.
pub fn validate_credits(registry: &mut Registry, ctx: &ValidateCredits, validator_id: String, now: i64) -> (r:
    Result<(), GreenHydrogenCreditsError>)
    ensures
        validate_post(*old(registry), *ctx, validator_id, now, r, *final(registry)),
        forall|l: Ledger| #[trigger]
            old(registry).custody_consistent(&l) ==> final(registry).custody_consistent(&l),
{
    let id = ctx.credit;
    if id >= registry.credits.len() {
        return Err(GreenHydrogenCreditsError::NotFound);
    }
    if !ctx.authorized {
        return Err(GreenHydrogenCreditsError::Unauthorized);
    }
    if registry.credits[id].is_validated {
        return Err(GreenHydrogenCreditsError::AlreadyValidated);
    }
    let event_validator = validator_id.clone();
    match registry.credits[id].validate(validator_id, now) {
        Err(e) => {
            return Err(e);
        },
        Ok(()) => {},
    }
    registry.events.push(
        CreditEvent::Validated(CreditValidated { credit: id, validator: event_validator, validated_at: now }),
    );
    proof {
        assert(registry.credits@ =~= old(registry).credits@.update(
            id as int,
            old(registry).credits@[id as int].validated_by(validator_id, now),
        ));
    }
    Ok(())
}

/// Passes credit `ctx.credit` from its owner `ctx.owner` to `new_owner` at time
/// `now`. Only a validated credit that is not retired can change hands; the
/// value stays in the credit's custody account.
pub fn transfer_credits(registry: &mut Registry, ctx: &TransferCredits, new_owner: Identity, now: i64) -> (r:
    Result<(), GreenHydrogenCreditsError>)
    ensures
        transfer_post(*old(registry), *ctx, new_owner, now, r, *final(registry)),
        forall|l: Ledger| #[trigger]
            old(registry).custody_consistent(&l) ==> final(registry).custody_consistent(&l),
{
    let id = ctx.credit;
    if id >= registry.credits.len() {
        return Err(GreenHydrogenCreditsError::NotFound);
    }
    match registry.credits[id].check_spendable(&ctx.owner) {
        Err(e) => {
            return Err(e);
        },
        Ok(()) => {},
    }
    let from = registry.credits[id].owner;
    match registry.credits[id].transfer(&ctx.owner, new_owner, now) {
        Err(e) => {
            return Err(e);
        },
        Ok(()) => {},
    }
    registry.events.push(
        CreditEvent::Transferred(
            CreditTransferred { credit: id, from, to: new_owner, transferred_at: now },
        ),
    );
    proof {
        assert(registry.credits@ =~= old(registry).credits@.update(
            id as int,
            old(registry).credits@[id as int].transferred_to(new_owner, now),
        ));
    }
    Ok(())
}

/// Retires credit `ctx.credit` for its owner `ctx.owner` at time `now`, releasing
/// the whole amount from the credit's custody account to the owner. Retirement
/// is final.
pub fn retire_credits(registry: &mut Registry, ledger: &mut Ledger, ctx: &RetireCredits, now: i64) -> (r:
    Result<(), GreenHydrogenCreditsError>)
    requires
        old(registry).custody_consistent(&*old(ledger)),
    ensures
        final(registry).custody_consistent(&*final(ledger)),
        retire_post(*old(registry), *old(ledger), *ctx, now, r, *final(registry), *final(ledger)),
{
    let id = ctx.credit;
    if id >= registry.credits.len() {
        return Err(GreenHydrogenCreditsError::NotFound);
    }
    match registry.credits[id].check_spendable(&ctx.owner) {
        Err(e) => {
            return Err(e);
        },
        Ok(()) => {},
    }
    let amount = registry.credits[id].amount;
    let owner = registry.credits[id].owner;
    proof {
        assert(old(registry).credits()[id as int].wf());
    }
    match ledger.transfer(AccountKey::Custody(id), AccountKey::Personal(ctx.owner), amount) {
        Ok(()) => {},
        Err(_) => {
            return Err(GreenHydrogenCreditsError::InsufficientBalance);
        },
    }
    match registry.credits[id].mark_retired(&ctx.owner, now) {
        Err(e) => {
            return Err(e);
        },
        Ok(()) => {},
    }
    registry.events.push(CreditEvent::Retired(CreditRetired { credit: id, owner, retired_at: now }));
    proof {
        assert(registry.credits@ =~= old(registry).credits@.update(
            id as int,
            old(registry).credits@[id as int].retired(now),
        ));
        let n = registry.credits@.len();
        assert forall|i: usize| i >= n implies #[trigger] ledger.balance(AccountKey::Custody(i)) == 0 by {
            assert(old(ledger).balance(AccountKey::Custody(i)) == 0);
        }
        assert forall|i: usize| i < n implies (#[trigger] registry.credits@[i as int]).wf()
            && ledger.balance(AccountKey::Custody(i)) == registry.credits@[i as int].locked() by {
            if i != id {
                assert(old(registry).credits@[i as int] == registry.credits@[i as int]);
            }
        }
    }
    Ok(())
}

/// What `certify_facility` returns: the next facility id, unless the policy
/// refused the caller or the capacity is zero.
pub open spec fn certify_result(reg: Registry, ctx: CertifyFacility, capacity: u64) -> Result<
    usize,
    GreenHydrogenCreditsError,
> {
    if !ctx.authorized {
        Err(GreenHydrogenCreditsError::Unauthorized)
    } else if capacity == 0 {
        Err(GreenHydrogenCreditsError::InvalidAmount)
    } else {
        Ok(reg.facilities().len() as usize)
    }
}

/// Records a certified facility of `ctx.producer`; the credits are untouched.
pub fn certify_facility(
    registry: &mut Registry,
    ctx: &CertifyFacility,
    name: String,
    location: String,
    renewable_source: String,
    capacity: u64,
    now: i64,
) -> (r: Result<usize, GreenHydrogenCreditsError>)
    ensures
        r == certify_result(*old(registry), *ctx, capacity),
        r is Err ==> *final(registry) == *old(registry),
        r is Ok ==> {
            &&& r->Ok_0 == old(registry).facilities().len()
            &&& final(registry).config() == old(registry).config()
            &&& final(registry).credits() == old(registry).credits()
            &&& final(registry).facilities() == old(registry).facilities().push(
                certified_facility(ctx.producer, name, location, renewable_source, capacity, now),
            )
            &&& final(registry).events() == old(registry).events().push(
                CreditEvent::Certified(
                    FacilityCertified {
                        facility: r->Ok_0,
                        producer: ctx.producer,
                        renewable_source,
                        capacity,
                    },
                ),
            )
        },
        forall|l: Ledger| #[trigger]
            old(registry).custody_consistent(&l) ==> final(registry).custody_consistent(&l),
{
    if !ctx.authorized {
        return Err(GreenHydrogenCreditsError::Unauthorized);
    }
    let event_source = renewable_source.clone();
    let facility = match Facility::certify(ctx.producer, name, location, renewable_source, capacity, now) {
        Err(e) => {
            return Err(e);
        },
        Ok(f) => f,
    };
    let id = registry.facilities.len();
    registry.facilities.push(facility);
    registry.events.push(
        CreditEvent::Certified(
            FacilityCertified { facility: id, producer: ctx.producer, renewable_source: event_source, capacity },
        ),
    );
    proof {
        assert forall|l: Ledger| #[trigger]
            old(registry).custody_consistent(&l) implies registry.custody_consistent(&l) by {
            assert(registry.credits() == old(registry).credits());
        }
    }
    Ok(id)
}

} // verus!
