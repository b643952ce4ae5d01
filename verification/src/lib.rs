//! An owner-gated vault contract: a single owner account controls
//! ownership transfer, batch airdrop payouts, and withdrawal of the
//! balance that exceeds the storage reserve. The decision logic is
//! verified here; the host runtime (balances, asynchronous transfers,
//! log persistence) is reflected as plain input values and returned
//! action requests, which a thin host binding carries out.
use vstd::prelude::*;

pub mod account;
pub mod internal;
pub mod model;

use crate::account::valid_account_id;
use crate::internal::{decimal_digits, decimal_string, make_event};
use crate::model::{
    event_fields, EventData, HostContext, Participant, TransferRequest, VaultError,
    WithdrawRequest,
};

verus! {

/// The least prepaid execution budget a withdrawal call must carry, so
/// that the completion callback has room to run.
pub const MIN_WITHDRAW_GAS: u64 = 11_000_000_000_000;

/// The vault: a single owner account, which alone may move funds.
pub struct Contract {
    owner: String,
}

/// The first failure a withdrawal of `amount` to `beneficiary` meets,
/// if any. The checks run in this order: execution budget,
/// authorization, beneficiary syntax, storage-reserve underflow, the
/// available-balance cap, and positivity of the amount.
pub open spec fn withdraw_check(
    owner: Seq<char>,
    ctx: HostContext,
    amount: u128,
    beneficiary: Seq<char>,
) -> Option<VaultError> {
    if ctx.prepaid_gas < MIN_WITHDRAW_GAS {
        Some(VaultError::NotEnoughGas)
    } else if ctx.caller@ != owner {
        Some(VaultError::NotOwner)
    } else if !valid_account_id(beneficiary) {
        Some(VaultError::InvalidAccount)
    } else if ctx.balance < ctx.storage_reserve {
        Some(VaultError::BalanceUnderflow)
    } else if amount > ctx.balance - ctx.storage_reserve {
        Some(VaultError::ExceedsAvailable)
    } else if amount == 0 {
        Some(VaultError::NonPositiveAmount)
    } else {
        None
    }
}

/// The first failure a whole-balance withdrawal to `beneficiary`
/// meets, if any. Unlike `withdraw_check` it holds no execution-budget
/// check; the requested amount is the available balance itself, so only
/// authorization, beneficiary syntax, underflow and positivity remain.
pub open spec fn withdraw_all_check(
    owner: Seq<char>,
    ctx: HostContext,
    beneficiary: Seq<char>,
) -> Option<VaultError> {
    if ctx.caller@ != owner {
        Some(VaultError::NotOwner)
    } else if !valid_account_id(beneficiary) {
        Some(VaultError::InvalidAccount)
    } else if ctx.balance < ctx.storage_reserve {
        Some(VaultError::BalanceUnderflow)
    } else if ctx.balance - ctx.storage_reserve == 0 {
        Some(VaultError::NonPositiveAmount)
    } else {
        None
    }
}

/// The first failure an airdrop by `caller` to `participants` meets,
/// if any: authorization, then the syntax of every participant account.
pub open spec fn airdrop_check(
    owner: Seq<char>,
    caller: Seq<char>,
    participants: Seq<Participant>,
) -> Option<VaultError> {
    if caller != owner {
        Some(VaultError::NotOwner)
    } else if exists|i: int|
        0 <= i < participants.len() && !valid_account_id(
            (#[trigger] participants[i]).account@,
        ) {
        Some(VaultError::InvalidAccount)
    } else {
        None
    }
}

/// The first failure an ownership transfer by `caller` to `new_owner`
/// meets, if any: authorization, then the syntax of the new owner.
pub open spec fn ownership_check(
    owner: Seq<char>,
    caller: Seq<char>,
    new_owner: Seq<char>,
) -> Option<VaultError> {
    if caller != owner {
        Some(VaultError::NotOwner)
    } else if !valid_account_id(new_owner) {
        Some(VaultError::InvalidAccount)
    } else {
        None
    }
}

impl Contract {
    /// The owner's account identifier.
    pub closed spec fn spec_owner(&self) -> Seq<char> {
        self.owner@
    }

    /// A well-formed vault holds a syntactically valid owner identifier.
    pub open spec fn wf(&self) -> bool {
        valid_account_id(self.spec_owner())
    }

    /// Constructs the vault with the given owner, which the host has
    /// already validated.
    pub fn new(owner: String) -> (c: Contract)
        requires
            valid_account_id(owner@),
        ensures
            c.wf(),
            c.spec_owner() == owner@,
    {
        Contract { owner }
    }

    /// The current owner. A view: no authorization is required.
    pub fn owner(self) -> (o: String)
        ensures
            o@ == self.spec_owner(),
    {
        self.owner
    }

    /// Fails with an authorization error unless `caller` is the owner.
    pub fn check_owner(&self, caller: &String) -> (r: Result<(), VaultError>)
        ensures
            r is Ok <==> caller@ == self.spec_owner(),
            r is Err ==> r == Err::<(), VaultError>(VaultError::NotOwner),
    {
        if *caller == self.owner {
            Ok(())
        } else {
            Err(VaultError::NotOwner)
        }
    }

    /// Fails with a validation error unless `id` is a syntactically
    /// valid account identifier.
    pub fn valid_account(&self, id: &str) -> (r: Result<(), VaultError>)
        ensures
            r is Ok <==> valid_account_id(id@),
            r is Err ==> r == Err::<(), VaultError>(VaultError::InvalidAccount),
    {
        if crate::account::is_valid_account(id) {
            Ok(())
        } else {
            Err(VaultError::InvalidAccount)
        }
    }

    /// The balance above the storage reserve, the amount the owner may
    /// withdraw. A view: no authorization is required. Fails only when
    /// the reserve exceeds the balance, in which case no difference is
    /// reported at all rather than a clamped or wrapped value.
    pub fn available_withdraw(&self, ctx: &HostContext) -> (r: Result<u128, VaultError>)
        ensures
            ctx.storage_reserve <= ctx.balance ==> r == Ok::<u128, VaultError>(
                (ctx.balance - ctx.storage_reserve) as u128,
            ),
            ctx.storage_reserve > ctx.balance ==> r == Err::<u128, VaultError>(
                VaultError::BalanceUnderflow,
            ),
    {
        if ctx.balance < ctx.storage_reserve {
            Err(VaultError::BalanceUnderflow)
        } else {
            Ok(ctx.balance - ctx.storage_reserve)
        }
    }

    /// Requests a withdrawal of `amount` to `beneficiary`. On success
    /// the returned request carries exactly the given amount and
    /// beneficiary, to be transferred with the `on_withdraw` callback
    /// chained behind the transfer; on failure the first failing check
    /// of `withdraw_check` names the error, and no transfer is
    /// requested. The vault's state never changes.
    pub fn withdraw(&mut self, ctx: &HostContext, amount: u128, beneficiary: String) -> (r: Result<
        WithdrawRequest,
        VaultError,
    >)
        ensures
            *final(self) == *old(self),
            match withdraw_check(old(self).spec_owner(), *ctx, amount, beneficiary@) {
                Some(e) => r == Err::<WithdrawRequest, VaultError>(e),
                None => r matches Ok(req) && req.amount == amount && req.beneficiary@
                    == beneficiary@,
            },
    {
        if ctx.prepaid_gas < MIN_WITHDRAW_GAS {
            return Err(VaultError::NotEnoughGas);
        }
        match self.check_owner(&ctx.caller) {
            Err(e) => {
                return Err(e);
            },
            Ok(()) => {},
        }
        match self.valid_account(beneficiary.as_str()) {
            Err(e) => {
                return Err(e);
            },
            Ok(()) => {},
        }
        let available = match self.available_withdraw(ctx) {
            Err(e) => {
                return Err(e);
            },
            Ok(a) => a,
        };
        if amount > available {
            return Err(VaultError::ExceedsAvailable);
        }
        if amount == 0 {
            return Err(VaultError::NonPositiveAmount);
        }
        Ok(WithdrawRequest { beneficiary, amount })
    }

    /// Requests a withdrawal of the whole available balance, evaluated
    /// now: on success the request's amount is exactly the balance
    /// minus the storage reserve. The execution-budget check of
    /// `withdraw` is deliberately not repeated here. The vault's
    /// state never changes.
    pub fn withdraw_all(&mut self, ctx: &HostContext, beneficiary: String) -> (r: Result<
        WithdrawRequest,
        VaultError,
    >)
        ensures
            *final(self) == *old(self),
            match withdraw_all_check(old(self).spec_owner(), *ctx, beneficiary@) {
                Some(e) => r == Err::<WithdrawRequest, VaultError>(e),
                None => r matches Ok(req) && req.amount == ctx.balance - ctx.storage_reserve
                    && req.beneficiary@ == beneficiary@,
            },
    {
        match self.check_owner(&ctx.caller) {
            Err(e) => {
                return Err(e);
            },
            Ok(()) => {},
        }
        match self.valid_account(beneficiary.as_str()) {
            Err(e) => {
                return Err(e);
            },
            Ok(()) => {},
        }
        let available = match self.available_withdraw(ctx) {
            Err(e) => {
                return Err(e);
            },
            Ok(a) => a,
        };
        if available == 0 {
            return Err(VaultError::NonPositiveAmount);
        }
        Ok(WithdrawRequest { beneficiary, amount: available })
    }

    /// Requests one transfer per participant, in input order, each for
    /// that participant's exact amount. The transfers are independent
    /// and fire-and-forget: no callback observes their outcomes. Every
    /// participant's account is validated before any request is handed
    /// out; on any failure no transfer at all is requested. The vault's
    /// state never changes.
    pub fn airdrop(&mut self, caller: &String, participants: Vec<Participant>) -> (r: Result<
        Vec<TransferRequest>,
        VaultError,
    >)
        ensures
            *final(self) == *old(self),
            match airdrop_check(old(self).spec_owner(), caller@, participants@) {
                Some(e) => r == Err::<Vec<TransferRequest>, VaultError>(e),
                None => r matches Ok(reqs) && reqs@.len() == participants@.len() && forall|i: int|
                    0 <= i < participants@.len() ==> (#[trigger] reqs@[i]).account@
                        == participants@[i].account@ && reqs@[i].amount == participants@[i].amount,
            },
    {
        match self.check_owner(caller) {
            Err(e) => {
                return Err(e);
            },
            Ok(()) => {},
        }
        let ghost owner_snapshot = self.spec_owner();
        let mut reqs: Vec<TransferRequest> = Vec::new();
        let mut i: usize = 0;
        while i < participants.len()
            invariant
                *self == *old(self),
                self.spec_owner() == owner_snapshot,
                caller@ == owner_snapshot,
                i <= participants@.len(),
                reqs@.len() == i,
                forall|j: int|
                    0 <= j < i ==> valid_account_id((#[trigger] participants@[j]).account@),
                forall|j: int|
                    0 <= j < i ==> (#[trigger] reqs@[j]).account@ == participants@[j].account@
                        && reqs@[j].amount == participants@[j].amount,
            decreases participants@.len() - i,
        {
            let p = &participants[i];
            match self.valid_account(p.account.as_str()) {
                Err(e) => {
                    proof {
                        assert(!valid_account_id((participants@[i as int]).account@));
                    }
                    return Err(e);
                },
                Ok(()) => {},
            }
            reqs.push(TransferRequest { account: p.account.clone(), amount: p.amount });
            i = i + 1;
        }
        Ok(reqs)
    }

    /// Replaces the owner and reports an `ownership_transferred` event
    /// carrying the old and the new owner. On any failure the owner is
    /// unchanged and no event is reported.
    pub fn transfer_ownership(&mut self, caller: &String, new_owner: String) -> (r: Result<
        EventData,
        VaultError,
    >)
        ensures
            match ownership_check(old(self).spec_owner(), caller@, new_owner@) {
                Some(e) => r == Err::<EventData, VaultError>(e) && *final(self) == *old(self),
                None => {
                    &&& final(self).spec_owner() == new_owner@
                    &&& final(self).wf()
                    &&& r matches Ok(ev) && event_fields(
                        ev,
                        "ownership_transferred"@,
                        "old_owner"@,
                        old(self).spec_owner(),
                        "new_owner"@,
                        new_owner@,
                    )
                },
            },
    {
        match self.check_owner(caller) {
            Err(e) => {
                return Err(e);
            },
            Ok(()) => {},
        }
        match self.valid_account(new_owner.as_str()) {
            Err(e) => {
                return Err(e);
            },
            Ok(()) => {},
        }
        let old_owner = self.owner.clone();
        let ev = make_event(
            "ownership_transferred",
            "old_owner",
            old_owner,
            "new_owner",
            new_owner.clone(),
        );
        self.owner = new_owner;
        Ok(ev)
    }

    /// The completion callback of a withdrawal: the host invokes it
    /// with the settled outcome of the transfer. On success it reports
    /// success together with exactly one `balance_withdrawn` event
    /// carrying the amount and the beneficiary; on failure it reports
    /// failure and no event. Nothing is retried and no state changes.
    pub fn on_withdraw(success: bool, amount: u128, beneficiary: String) -> (r: (
        bool,
        Option<EventData>,
    ))
        ensures
            r.0 == success,
            success ==> (r.1 matches Some(ev) && event_fields(
                ev,
                "balance_withdrawn"@,
                "amount"@,
                decimal_digits(amount as int),
                "beneficiary"@,
                beneficiary@,
            )),
            !success ==> r.1 is None,
    {
        if success {
            let ev = make_event(
                "balance_withdrawn",
                "amount",
                decimal_string(amount),
                "beneficiary",
                beneficiary,
            );
            (true, Some(ev))
        } else {
            (false, None)
        }
    }
}

/// Law: a caller other than the owner passes no mutating operation's
/// checks. Withdrawal, whole-balance withdrawal, airdrop and ownership
/// transfer all fail for such a caller, whatever the other inputs, and
/// each operation's own contract then keeps the state unchanged.
pub proof fn lemma_non_owner_rejected(
    owner: Seq<char>,
    ctx: HostContext,
    amount: u128,
    beneficiary: Seq<char>,
    participants: Seq<Participant>,
    new_owner: Seq<char>,
)
    requires
        ctx.caller@ != owner,
    ensures
        withdraw_check(owner, ctx, amount, beneficiary) is Some,
        withdraw_all_check(owner, ctx, beneficiary) is Some,
        airdrop_check(owner, ctx.caller@, participants) is Some,
        ownership_check(owner, ctx.caller@, new_owner) is Some,
{
}

/// Law: a syntactically invalid account identifier is rejected before
/// any transfer is requested, wherever it is supplied: as a withdrawal
/// beneficiary, as the new owner, or as any airdrop participant.
pub proof fn lemma_invalid_account_rejected(
    owner: Seq<char>,
    ctx: HostContext,
    amount: u128,
    beneficiary: Seq<char>,
    participants: Seq<Participant>,
    new_owner: Seq<char>,
)
    ensures
        !valid_account_id(beneficiary) ==> withdraw_check(owner, ctx, amount, beneficiary) is Some,
        !valid_account_id(beneficiary) ==> withdraw_all_check(owner, ctx, beneficiary) is Some,
        (exists|i: int|
            0 <= i < participants.len() && !valid_account_id(
                (#[trigger] participants[i]).account@,
            )) ==> airdrop_check(owner, ctx.caller@, participants) is Some,
        !valid_account_id(new_owner) ==> ownership_check(owner, ctx.caller@, new_owner) is Some,
{
}

} // verus!
