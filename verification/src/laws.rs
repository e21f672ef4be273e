//! Laws of the account record, stated over the views and spec functions
//! that the operations' contracts use.

use vstd::prelude::*;
use crate::bank::{
    BankError, BankView, Identity, Op, apply_op, create_allowed, created, op_delta,
    withdraw_decision,
};

verus! {

/// Create succeeds on an unwritten record, and once it has stored a
/// non-empty display name, every later create on that record is refused:
/// a record passes from unwritten to written exactly once.
pub proof fn lemma_create_once(v: BankView, owner: Identity, name: Seq<char>)
    requires
        v.name.len() == 0,
        name.len() > 0,
    ensures
        create_allowed(v),
        !create_allowed(created(owner, name)),
{
}

/// The net movement of a sequence of successful operations: the sum of the
/// deposited amounts less the sum of the withdrawn amounts.
pub open spec fn net(ops: Seq<Op>) -> int
    decreases ops.len(),
{
    if ops.len() == 0 {
        0
    } else {
        op_delta(ops[0]) + net(ops.drop_first())
    }
}

/// The record after a sequence of successful operations, applied in order.
pub open spec fn apply_ops(v: BankView, ops: Seq<Op>) -> BankView
    decreases ops.len(),
{
    if ops.len() == 0 {
        v
    } else {
        apply_ops(apply_op(v, ops[0]), ops.drop_first())
    }
}

/// Balance mirror: after any sequence of successful deposits and
/// withdrawals the mirrored balance equals the starting balance plus the
/// net movement, and the display name and owner are untouched. Since this
/// holds of every sequence, it holds of every prefix: at each observation
/// point the balance is exactly the sum of the deposits less the sum of
/// the withdrawals processed so far.
pub proof fn lemma_balance_mirror(v: BankView, ops: Seq<Op>)
    ensures
        apply_ops(v, ops).balance == v.balance + net(ops),
        apply_ops(v, ops).name == v.name,
        apply_ops(v, ops).owner == v.owner,
    decreases ops.len(),
{
    if ops.len() > 0 {
        lemma_balance_mirror(apply_op(v, ops[0]), ops.drop_first());
    }
}

/// Real-value mirror: each successful operation moves the external
/// ledger's real held value by the same amount as the mirrored balance, so
/// a record whose balance equals its real held value keeps that equality
/// at every observation point: both stand at the common start plus the net
/// movement.
pub proof fn lemma_real_value_mirror(v: BankView, real_value: int, ops: Seq<Op>)
    requires
        v.balance == real_value,
    ensures
        apply_ops(v, ops).balance == real_value + net(ops),
{
    lemma_balance_mirror(v, ops);
}

/// Authorization: a withdrawal asked for by anyone other than the owner is
/// refused with `Unauthorized`, whatever the amount, the real held value
/// and the reserve; no transfer is asked for and the record is untouched.
pub proof fn lemma_withdraw_authorization(
    v: BankView,
    caller: Identity,
    amount: u64,
    real_value: int,
    reserve: int,
)
    requires
        caller != v.owner,
    ensures
        withdraw_decision(v, caller, amount, real_value, reserve) == Err::<(), BankError>(
            BankError::Unauthorized,
        ),
{
}

/// Reserve floor: for the owner of a record whose mirrored balance agrees
/// with its real held value, a withdrawal is refused with
/// `InsufficientFunds` exactly when it would take the record below its
/// reserve, and allowed otherwise — including the boundary case that takes
/// everything above the reserve.
pub proof fn lemma_reserve_floor(v: BankView, amount: u64, real_value: int, reserve: int)
    requires
        v.balance == real_value,
        0 <= reserve,
        amount > 0,
    ensures
        real_value - reserve < amount as int ==> withdraw_decision(
            v,
            v.owner,
            amount,
            real_value,
            reserve,
        ) == Err::<(), BankError>(BankError::InsufficientFunds),
        amount as int <= real_value - reserve ==> withdraw_decision(
            v,
            v.owner,
            amount,
            real_value,
            reserve,
        ) is Ok,
{
}

} // verus!
