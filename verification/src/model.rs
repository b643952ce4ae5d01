//! The vault's data model: the host-context snapshot an operation
//! reads, the transfer requests an operation hands back to the host,
//! the structured events it emits, and its error cases.
use vstd::prelude::*;

verus! {

/// The ways an operation of the vault can fail. Every failure aborts
/// the current call; nothing is retried.
#[derive(Clone, Copy, Debug, PartialEq, Eq, Structural)]
pub enum VaultError {
    /// The caller is not the owner.
    NotOwner,
    /// A supplied account identifier is not syntactically valid.
    InvalidAccount,
    /// The caller attached less execution budget than a withdrawal needs.
    NotEnoughGas,
    /// The requested amount exceeds the balance above the storage reserve.
    ExceedsAvailable,
    /// A withdrawal amount must be positive.
    NonPositiveAmount,
    /// The storage reserve exceeds the balance: the vault is under-funded
    /// relative to its own stored state, a fatal internal condition.
    BalanceUnderflow,
}

/// A snapshot of the host values one call reads: the caller's account,
/// the contract account's balance, the token cost the host reserves for
/// the contract's stored state, and the call's prepaid execution budget.
#[derive(Debug)]
pub struct HostContext {
    pub caller: String,
    pub balance: u128,
    pub storage_reserve: u128,
    pub prepaid_gas: u64,
}

/// One airdrop recipient: an account and the amount it is to receive.
#[derive(Debug)]
pub struct Participant {
    pub account: String,
    pub amount: u128,
}

/// A request that the host transfer `amount` tokens to `account`,
/// issued fire-and-forget: no completion callback observes its outcome.
#[derive(Debug)]
pub struct TransferRequest {
    pub account: String,
    pub amount: u128,
}

/// A request that the host transfer `amount` tokens to `beneficiary`
/// and then invoke the contract's own `on_withdraw` callback with the
/// outcome, the amount and the beneficiary.
#[derive(Debug)]
pub struct WithdrawRequest {
    pub beneficiary: String,
    pub amount: u128,
}

/// A structured log event: a fixed schema identifier, an event name,
/// and a list of key-value string pairs.
#[derive(Debug)]
pub struct EventData {
    pub standard: String,
    pub version: String,
    pub event: String,
    pub data: Option<Vec<(String, String)>>,
}

/// `ev` carries the fixed schema fields, the name `name`, and exactly
/// the two data pairs `(k1, v1)` and `(k2, v2)`, in that order.
pub open spec fn event_fields(
    ev: EventData,
    name: Seq<char>,
    k1: Seq<char>,
    v1: Seq<char>,
    k2: Seq<char>,
    v2: Seq<char>,
) -> bool {
    &&& ev.standard@ == "nep333"@
    &&& ev.version@ == "0.1.0"@
    &&& ev.event@ == name
    &&& ev.data matches Some(d) && d@.len() == 2 && d@[0].0@ == k1 && d@[0].1@ == v1 && d@[1].0@
        == k2 && d@[1].1@ == v2
}

impl Default for EventData {
    /// An event with the fixed schema fields set, no name and no data.
    fn default() -> (e: EventData)
        ensures
            e.standard@ == "nep333"@,
            e.version@ == "0.1.0"@,
            e.event@ == Seq::<char>::empty(),
            e.data is None,
    {
        EventData {
            standard: "nep333".to_owned(),
            version: "0.1.0".to_owned(),
            event: String::new(),
            data: None,
        }
    }
}

} // verus!
