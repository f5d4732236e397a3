use vstd::prelude::*;

verus! {

/// The identifier of a trade: the ledger sequence number in the upper 32 bits,
/// or-ed with the running counter.
pub open spec fn trade_id_of(ledger_sequence: u32, next_id: u64) -> u64 {
    ((ledger_sequence as u64) << 32u64) | next_id
}

/// Computes the identifier of the trade opened at `ledger_sequence` while the
/// counter stands at `next_id`.
pub fn compose_trade_id(ledger_sequence: u32, next_id: u64) -> (id: u64)
    ensures
        id == trade_id_of(ledger_sequence, next_id),
{
    ((ledger_sequence as u64) << 32u64) | next_id
}

/// Fees are given in basis points: parts of ten thousand.
pub const BPS_DIVISOR: i128 = 10_000;

/// The fee withheld from `amount` at `fee_bps` basis points, rounded down.
pub open spec fn fee_of(amount: int, fee_bps: int) -> int {
    amount * fee_bps / 10_000
}

/// How a released amount is divided: what the seller receives and what goes
/// to the treasury.
#[derive(Clone, Copy, Debug, PartialEq, Eq, Structural)]
pub struct Split {
    pub seller_amount: i128,
    pub fee_amount: i128,
}

/// Divides `amount` into the fee at `fee_bps` basis points, rounded down, and
/// the rest for the seller.
pub fn split_amount(amount: i128, fee_bps: u32) -> (split: Split)
    requires
        0 <= amount,
        amount * fee_bps <= i128::MAX,
    ensures
        split.fee_amount == fee_of(amount as int, fee_bps as int),
        split.seller_amount == amount - fee_of(amount as int, fee_bps as int),
{
    let product: i128 = amount * (fee_bps as i128);
    let fee_amount: i128 = product / BPS_DIVISOR;
    assert(0 <= fee_amount <= product) by (nonlinear_arith)
        requires
            fee_amount == product / 10_000,
            0 <= product,
    ;
    Split { seller_amount: amount - fee_amount, fee_amount }
}

} // verus!
