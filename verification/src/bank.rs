//! The account record and its three operations: create, deposit, withdraw.
//!
//! The record mirrors, in its `balance` field, the value that an external
//! value-transfer ledger holds for it. The ledger alone moves real value;
//! the functions here make every decision (authorization, solvency,
//! arithmetic safety) and every mutation of the record, and take what the
//! ledger reported — its authoritative held value, its reserve floor, the
//! outcome of the one transfer an operation asked for — as plain arguments.

use vstd::prelude::*;
use vstd::string::StrSliceExecFns;

verus! {

/// The principal that owns a record: a 256-bit public-key-equivalent
/// identity, held as four 64-bit words.
#[derive(Clone, Copy, PartialEq, Eq, Structural, Debug)]
pub struct Identity {
    pub w0: u64,
    pub w1: u64,
    pub w2: u64,
    pub w3: u64,
}

/// Why an operation was refused.
#[derive(Clone, Copy, PartialEq, Eq, Structural, Debug)]
pub enum BankError {
    /// Create found a record whose display name was already set.
    AlreadyInitialized,
    /// Withdraw was asked for by someone other than the owner.
    Unauthorized,
    /// The withdrawal would leave the record below its reserve floor.
    InsufficientFunds,
    /// The external ledger refused or failed the value transfer.
    TransferFailed,
    /// The mirrored balance cannot represent the sum.
    Overflow,
    /// The withdrawal asks for more than the mirrored balance holds.
    Underflow,
}

/// What the external ledger reported for the one real-value transfer that
/// an operation asked of it.
#[derive(Clone, Copy, PartialEq, Eq, Structural, Debug)]
pub enum TransferOutcome {
    /// The transfer committed atomically.
    Committed,
    /// Nothing moved.
    Failed,
}

/// The account record: a display name (empty while the record is still
/// unwritten), the mirrored balance, and the owner.
pub struct Bank {
    pub name: String,
    pub balance: u64,
    pub owner: Identity,
}

/// The mathematical value of a record.
#[verifier::ext_equal]
pub ghost struct BankView {
    pub name: Seq<char>,
    pub balance: int,
    pub owner: Identity,
}

impl View for Bank {
    type V = BankView;

    open spec fn view(&self) -> BankView {
        BankView { name: self.name@, balance: self.balance as int, owner: self.owner }
    }
}

/// A record accepts a create exactly while its display name is empty.
pub open spec fn create_allowed(v: BankView) -> bool {
    v.name.len() == 0
}

/// The record that a successful create leaves behind.
pub open spec fn created(owner: Identity, name: Seq<char>) -> BankView {
    BankView { name: name, balance: 0, owner: owner }
}

/// Initialize the record: store the display name, zero the balance, fix the
/// owner. Refused with `AlreadyInitialized`, and the record left untouched,
/// once a name is present: a record is written at most once.
pub fn create(bank: &mut Bank, caller: Identity, name: String) -> (r: Result<(), BankError>)
    ensures
        create_allowed(old(bank)@) ==> r is Ok && final(bank)@ == created(caller, name@),
        !create_allowed(old(bank)@) ==> r == Err::<(), BankError>(BankError::AlreadyInitialized)
            && final(bank)@ == old(bank)@,
{
    if bank.name.as_str().unicode_len() > 0 {
        return Err(BankError::AlreadyInitialized);
    }
    bank.name = name;
    bank.balance = 0;
    bank.owner = caller;
    Ok(())
}

/// One successful movement of the mirrored balance, matching one committed
/// real-value transfer of the same magnitude.
#[derive(Clone, Copy, PartialEq, Eq, Structural, Debug)]
pub enum Op {
    Deposit { amount: u64 },
    Withdraw { amount: u64 },
}

/// How one successful operation moves the mirrored balance.
pub open spec fn op_delta(op: Op) -> int {
    match op {
        Op::Deposit { amount } => amount as int,
        Op::Withdraw { amount } => -(amount as int),
    }
}

/// The record after one successful operation: only the balance moves; the
/// display name and the owner are immutable after creation.
pub open spec fn apply_op(v: BankView, op: Op) -> BankView {
    BankView { balance: v.balance + op_delta(op), ..v }
}

/// Whether a deposit of `amount` may go ahead: refused with `Overflow`
/// when the mirrored balance cannot represent the sum, so that the real
/// transfer is never even asked for in that case.
pub open spec fn deposit_decision(v: BankView, amount: u64) -> Result<(), BankError> {
    if v.balance + amount as int > u64::MAX {
        Err(BankError::Overflow)
    } else {
        Ok(())
    }
}

/// Decide a deposit before any value moves: the one refusal is `Overflow`.
/// Only on `Ok` may the caller ask the external ledger for the transfer.
pub fn deposit_check(bank: &Bank, amount: u64) -> (r: Result<(), BankError>)
    requires
        amount > 0,
    ensures
        r == deposit_decision(bank@, amount),
{
    if amount > u64::MAX - bank.balance {
        Err(BankError::Overflow)
    } else {
        Ok(())
    }
}

/// Settle a deposit from the outcome the external ledger reported for the
/// transfer of `amount` into the record. On a committed transfer the
/// mirrored balance grows by exactly `amount`; on a failed one the record
/// is left untouched, so mirror and real value never diverge.
pub fn deposit(bank: &mut Bank, amount: u64, outcome: TransferOutcome) -> (r: Result<
    (),
    BankError,
>)
    requires
        amount > 0,
        old(bank)@.balance + amount as int <= u64::MAX,
    ensures
        outcome is Committed ==> r is Ok && final(bank)@ == apply_op(
            old(bank)@,
            (Op::Deposit { amount }),
        ),
        outcome is Failed ==> r == Err::<(), BankError>(BankError::TransferFailed)
            && final(bank)@ == old(bank)@,
{
    match outcome {
        TransferOutcome::Committed => {
            bank.balance = bank.balance + amount;
            Ok(())
        },
        TransferOutcome::Failed => Err(BankError::TransferFailed),
    }
}

/// Whether a withdrawal of `amount`, asked for by `caller`, may go ahead,
/// judged against the ledger's authoritative `real_value` held and its
/// `reserve` floor. In order: only the owner may withdraw; the record must
/// keep at least `reserve` of real value afterwards (the boundary case,
/// taking everything above the reserve, is allowed); and, defending
/// against any drift between mirror and real value, the mirrored balance
/// itself must cover the amount.
pub open spec fn withdraw_decision(
    v: BankView,
    caller: Identity,
    amount: u64,
    real_value: int,
    reserve: int,
) -> Result<(), BankError> {
    if caller != v.owner {
        Err(BankError::Unauthorized)
    } else if real_value - reserve < amount as int {
        Err(BankError::InsufficientFunds)
    } else if v.balance < amount as int {
        Err(BankError::Underflow)
    } else {
        Ok(())
    }
}

/// Decide a withdrawal before any value moves. `real_value` and `reserve`
/// are what the external ledger reports as the record's current held value
/// and its minimum reserve. Only on `Ok` may the caller ask the ledger for
/// the transfer out of the record.
pub fn withdraw_check(
    bank: &Bank,
    caller: Identity,
    amount: u64,
    real_value: u64,
    reserve: u64,
) -> (r: Result<(), BankError>)
    requires
        amount > 0,
    ensures
        r == withdraw_decision(bank@, caller, amount, real_value as int, reserve as int),
{
    if caller != bank.owner {
        return Err(BankError::Unauthorized);
    }
    let available: u64 = if real_value >= reserve {
        real_value - reserve
    } else {
        0
    };
    if available < amount {
        return Err(BankError::InsufficientFunds);
    }
    if bank.balance < amount {
        return Err(BankError::Underflow);
    }
    Ok(())
}

/// Settle a withdrawal from the outcome the external ledger reported for
/// the transfer of `amount` out of the record. On a committed transfer the
/// mirrored balance shrinks by exactly `amount`; on a failed one the
/// record is left untouched, so mirror and real value never diverge.
pub fn withdraw(bank: &mut Bank, amount: u64, outcome: TransferOutcome) -> (r: Result<
    (),
    BankError,
>)
    requires
        amount > 0,
        amount as int <= old(bank)@.balance,
    ensures
        outcome is Committed ==> r is Ok && final(bank)@ == apply_op(
            old(bank)@,
            (Op::Withdraw { amount }),
        ),
        outcome is Failed ==> r == Err::<(), BankError>(BankError::TransferFailed)
            && final(bank)@ == old(bank)@,
{
    match outcome {
        TransferOutcome::Committed => {
            bank.balance = bank.balance - amount;
            Ok(())
        },
        TransferOutcome::Failed => Err(BankError::TransferFailed),
    }
}

} // verus!
