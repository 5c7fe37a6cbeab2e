use vstd::prelude::*;

verus! {

/// `amount` can move from an account that holds `from` to one that holds
/// `to`: the first holds that much, and the second has room for it.
pub open spec fn can_move(from: u64, to: u64, amount: u64) -> bool {
    from >= amount && to + amount <= u64::MAX
}

/// Two balances are of one ledger: the value that the two accounts hold
/// together is within the width of a balance. Of the accounts of one ledger
/// this holds always, since no value is ever made; so value that moves
/// between them finds room.
pub open spec fn on_one_ledger(one: u64, other: u64) -> bool {
    one + other <= u64::MAX
}

/// Whether two balances are of one ledger.
pub fn are_on_one_ledger(one: u64, other: u64) -> (r: bool)
    ensures
        r == on_one_ledger(one, other),
{
    one <= u64::MAX - other
}

/// Whether `amount` can move from an account that holds `from` to one that
/// holds `to`.
pub fn is_movable(from: u64, to: u64, amount: u64) -> (r: bool)
    ensures
        r == can_move(from, to, amount),
{
    from >= amount && amount <= u64::MAX - to
}

/// Moves `amount` from an account that holds `from` to one that holds `to`,
/// and returns what the two hold after. What leaves the one arrives at the
/// other: their sum stays.
pub fn transfer(from: u64, to: u64, amount: u64) -> (after: (u64, u64))
    requires
        can_move(from, to, amount),
    ensures
        after.0 == from - amount,
        after.1 == to + amount,
        after.0 + after.1 == from + to,
{
    (from - amount, to + amount)
}

} // verus!
