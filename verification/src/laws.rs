use vstd::prelude::*;

use crate::escrow::{next_status, Config, Deposit, EscrowState};
use crate::rules::{fee_of, trade_id_of};
use crate::types::{EscrowError, Trade, TradeStatus};

verus! {

/// `after` is `before` with the trade under `id` moved one step forward in
/// its lifecycle, every other trade and the rest of the state untouched.
pub open spec fn advances_one_step<A>(before: EscrowState<A>, after: EscrowState<A>, id: u64) -> bool {
    &&& before.trades.contains_key(id)
    &&& after.trades.contains_key(id)
    &&& next_status(before.trades[id].status) == Some(after.trades[id].status)
    &&& after.trades.dom() == before.trades.dom()
    &&& forall|k: u64| k != id && #[trigger] before.trades.contains_key(k) ==> after.trades[k]
        == before.trades[k]
    &&& after.config == before.config
    &&& after.deposit == before.deposit
    &&& after.next_trade_id == before.next_trade_id
}

/// A contract is initialized at most once: after a successful `initialize`,
/// every further `initialize` is refused with `AlreadyInitialized`, and no
/// other call changes the configuration.
pub proof fn law_initialize_once<A>(
    s: EscrowState<A>,
    admin: A,
    treasury: A,
    fee_bps: u32,
    buyer: A,
    seller: A,
    token: A,
    amount: i128,
    ledger_sequence: u32,
    id: u64,
    timestamp: u64,
)
    requires
        s.initialize_error() is None,
    ensures
        s.initialized(admin, treasury, fee_bps).initialize_error() == Some(
            EscrowError::AlreadyInitialized,
        ),
        s.initialized(admin, treasury, fee_bps).deposited(buyer, seller, amount).config == Some(
            crate::escrow::Config { admin, treasury, fee_bps },
        ),
        s.initialized(admin, treasury, fee_bps).created(
            ledger_sequence,
            buyer,
            seller,
            token,
            amount,
        ).config == Some(crate::escrow::Config { admin, treasury, fee_bps }),
        s.initialized(admin, treasury, fee_bps).funded(id).config == Some(
            crate::escrow::Config { admin, treasury, fee_bps },
        ),
        s.initialized(admin, treasury, fee_bps).delivered(id, timestamp).config == Some(
            crate::escrow::Config { admin, treasury, fee_bps },
        ),
        s.initialized(admin, treasury, fee_bps).completed(id).config == Some(
            crate::escrow::Config { admin, treasury, fee_bps },
        ),
{
}

/// Each lifecycle call that succeeds moves its trade exactly one step:
/// `mark_funded` from `Created` to `Funded`, `confirm_delivery` from `Funded`
/// to `Delivered`, `release_funds` from `Delivered` to `Completed`; nothing
/// else changes.
pub proof fn law_lifecycle_steps<A>(s: EscrowState<A>, id: u64, timestamp: u64)
    ensures
        s.mark_funded_error(id) is None ==> s.trades[id].status == TradeStatus::Created
            && advances_one_step(s, s.funded(id), id),
        s.confirm_delivery_error(id) is None ==> s.trades[id].status == TradeStatus::Funded
            && advances_one_step(s, s.delivered(id, timestamp), id),
        s.release_funds_error(id) is None ==> s.trades[id].status == TradeStatus::Delivered
            && advances_one_step(s, s.completed(id), id),
{
    assert(s.mark_funded_error(id) is None ==> s.funded(id).trades.dom() =~= s.trades.dom());
    assert(s.confirm_delivery_error(id) is None ==> s.delivered(id, timestamp).trades.dom()
        =~= s.trades.dom());
    assert(s.release_funds_error(id) is None ==> s.completed(id).trades.dom() =~= s.trades.dom());
}

/// A trade can only go forward: a call made out of turn is refused, and a
/// `Completed` trade accepts no lifecycle call at all.
pub proof fn law_out_of_turn_refused<A>(s: EscrowState<A>, id: u64)
    requires
        s.trades.contains_key(id),
    ensures
        s.trades[id].status != TradeStatus::Created ==> s.mark_funded_error(id) == Some(
            EscrowError::NotCreated,
        ),
        s.trades[id].status != TradeStatus::Funded ==> s.confirm_delivery_error(id) == Some(
            EscrowError::NotFunded,
        ),
        s.trades[id].status != TradeStatus::Delivered ==> s.release_funds_error(id) == Some(
            EscrowError::NotDelivered,
        ),
{
}

/// On an initialized contract, a newly created trade goes through funding,
/// delivery and release, and ends `Completed` with its delivery time kept;
/// the seller's part and the fee add up to the escrowed amount.
pub proof fn law_happy_path<A>(s: EscrowState<A>, id: u64, timestamp: u64)
    requires
        s.wf(),
        s.config is Some,
        s.trades.contains_key(id),
        s.trades[id].status == TradeStatus::Created,
    ensures
        s.mark_funded_error(id) is None,
        s.funded(id).confirm_delivery_error(id) is None,
        s.funded(id).delivered(id, timestamp).release_funds_error(id) is None,
        s.funded(id).delivered(id, timestamp).completed(id).trades[id].status
            == TradeStatus::Completed,
        s.funded(id).delivered(id, timestamp).completed(id).trades[id].delivered_at == Some(
            timestamp,
        ),
        s.funded(id).delivered(id, timestamp).completed(id).trades[id].amount
            == s.trades[id].amount,
        (s.trades[id].amount - s.funded(id).delivered(id, timestamp).release_fee(id))
            + s.funded(id).delivered(id, timestamp).release_fee(id) == s.trades[id].amount,
{
}

/// Every call keeps the contract's invariant.
pub proof fn law_invariant_kept<A>(
    s: EscrowState<A>,
    admin: A,
    treasury: A,
    fee_bps: u32,
    buyer: A,
    seller: A,
    token: A,
    amount: i128,
    ledger_sequence: u32,
    id: u64,
    timestamp: u64,
)
    requires
        s.wf(),
    ensures
        EscrowState::<A>::empty().wf(),
        s.initialized(admin, treasury, fee_bps).wf(),
        s.deposited(buyer, seller, amount).wf(),
        s.create_trade_error(amount, ledger_sequence) is None && s.next_trade_id < u64::MAX
            ==> s.created(ledger_sequence, buyer, seller, token, amount).wf(),
        s.mark_funded_error(id) is None ==> s.funded(id).wf(),
        s.confirm_delivery_error(id) is None ==> s.delivered(id, timestamp).wf(),
        s.release_funds_error(id) is None ==> s.completed(id).wf(),
{
    assert(EscrowState::<A>::empty().trades =~= Map::empty());
    if s.create_trade_error(amount, ledger_sequence) is None && s.next_trade_id < u64::MAX {
        law_trade_id_positive(s.next_trade_id, ledger_sequence);
    }
}

/// What `create_trade` writes is what is read back: the trade under the new
/// identifier carries that identifier, the buyer, seller, token and amount
/// given, and status `Created`; no trade stored before is changed.
pub proof fn law_create_then_read<A>(
    s: EscrowState<A>,
    buyer: A,
    seller: A,
    token: A,
    amount: i128,
    ledger_sequence: u32,
)
    requires
        s.create_trade_error(amount, ledger_sequence) is None,
    ensures
        ({
            let id = s.new_trade_id(ledger_sequence);
            let after = s.created(ledger_sequence, buyer, seller, token, amount);
            &&& !s.trades.contains_key(id)
            &&& after.trades.contains_key(id)
            &&& after.trades[id].trade_id == id
            &&& after.trades[id].buyer == buyer
            &&& after.trades[id].seller == seller
            &&& after.trades[id].token == token
            &&& after.trades[id].amount == amount
            &&& after.trades[id].status == TradeStatus::Created
            &&& after.trades[id].delivered_at is None
            &&& forall|k: u64| #[trigger]
                s.trades.contains_key(k) ==> after.trades.contains_key(k) && after.trades[k]
                    == s.trades[k]
        }),
{
}

/// A trade identifier is never zero while the counter is positive.
pub proof fn law_trade_id_positive(next_id: u64, ledger_sequence: u32)
    requires
        next_id >= 1,
    ensures
        trade_id_of(ledger_sequence, next_id) > 0,
{
    let s = ledger_sequence as u64;
    assert(((s << 32u64) | next_id) >= next_id) by (bit_vector);
}

/// While the counter stays below 2^32, a trade identifier is the ledger
/// sequence number times 2^32 plus the counter.
pub proof fn law_trade_id_layout(ledger_sequence: u32, next_id: u64)
    requires
        next_id < 0x1_0000_0000,
    ensures
        trade_id_of(ledger_sequence, next_id) == ledger_sequence as int * 0x1_0000_0000
            + next_id as int,
{
    let s = ledger_sequence as u64;
    assert(((s << 32u64) | next_id) == s * 0x1_0000_0000u64 + next_id) by (bit_vector)
        requires
            s < 0x1_0000_0000u64,
            next_id < 0x1_0000_0000u64,
    ;
}

/// Within one ledger, and while the counter stays below 2^32, trades opened
/// later get larger identifiers.
pub proof fn law_trade_ids_increase<A>(
    s: EscrowState<A>,
    buyer: A,
    seller: A,
    token: A,
    amount: i128,
    ledger_sequence: u32,
)
    requires
        s.next_trade_id + 1 < 0x1_0000_0000,
    ensures
        s.created(ledger_sequence, buyer, seller, token, amount).new_trade_id(ledger_sequence)
            > s.new_trade_id(ledger_sequence),
{
    law_trade_id_layout(ledger_sequence, s.next_trade_id);
    law_trade_id_layout(ledger_sequence, (s.next_trade_id + 1) as u64);
}

/// At a rate of at most 100% the fee lies between zero and the amount, so
/// neither the seller's part nor the fee is negative, and the two add up to
/// the amount.
pub proof fn law_fee_bounds(amount: int, fee_bps: int)
    requires
        0 <= amount,
        0 <= fee_bps <= 10_000,
    ensures
        0 <= fee_of(amount, fee_bps) <= amount,
        (amount - fee_of(amount, fee_bps)) + fee_of(amount, fee_bps) == amount,
        fee_bps == 0 ==> fee_of(amount, fee_bps) == 0,
{
    assert(0 <= amount * fee_bps <= amount * 10_000) by (nonlinear_arith)
        requires
            0 <= amount,
            0 <= fee_bps <= 10_000,
    ;
    assert(0 <= fee_of(amount, fee_bps) <= amount) by (nonlinear_arith)
        requires
            0 <= amount * fee_bps <= amount * 10_000,
            fee_of(amount, fee_bps) == amount * fee_bps / 10_000,
    ;
}

/// The checks that `*_signer` makes before a signature is asked refuse a call
/// with the same error as the call itself.
pub proof fn law_refused_before_signature<A>(s: EscrowState<A>, amount: i128, ledger_sequence: u32, id: u64)
    ensures
        EscrowState::<A>::create_trade_signer_error(amount) is Some ==> s.create_trade_error(
            amount,
            ledger_sequence,
        ) == EscrowState::<A>::create_trade_signer_error(amount),
        s.confirm_delivery_signer_error(id) is Some ==> s.confirm_delivery_error(id)
            == s.confirm_delivery_signer_error(id),
{
}

/// `initialize` is refused exactly when a configuration is recorded, whatever
/// the trades, the counter and the deposit are.
pub proof fn law_initialize_refused_iff_configured<A>(s: EscrowState<A>)
    ensures
        s.config is None <==> s.initialize_error() is None,
        s.config is Some ==> s.initialize_error() == Some(EscrowError::AlreadyInitialized),
{
}

/// `initialize` records the administrator, treasury and fee rate it is given,
/// and touches nothing else.
pub proof fn law_initialize_records<A>(s: EscrowState<A>, admin: A, treasury: A, fee_bps: u32)
    ensures
        s.initialized(admin, treasury, fee_bps).config == Some(Config { admin, treasury, fee_bps }),
        s.initialized(admin, treasury, fee_bps).deposit == s.deposit,
        s.initialized(admin, treasury, fee_bps).next_trade_id == s.next_trade_id,
        s.initialized(admin, treasury, fee_bps).trades == s.trades,
{
}

/// `deposit` records the buyer, seller and amount it is given, and touches
/// nothing else.
pub proof fn law_deposit_records<A>(s: EscrowState<A>, buyer: A, seller: A, amount: i128)
    ensures
        s.deposited(buyer, seller, amount).deposit == Some(Deposit { buyer, seller, amount }),
        s.deposited(buyer, seller, amount).config == s.config,
        s.deposited(buyer, seller, amount).next_trade_id == s.next_trade_id,
        s.deposited(buyer, seller, amount).trades == s.trades,
{
}

/// On an initialized contract a new trade is settled in the treasury that
/// `initialize` recorded, whatever the fee rate; before `initialize`, in the
/// contract's own address.
pub proof fn law_trade_token<A>(s: EscrowState<A>, current_contract: A)
    ensures
        s.config matches Some(c) ==> s.trade_token(current_contract) == c.treasury,
        s.config is None ==> s.trade_token(current_contract) == current_contract,
{
}

/// For every ledger sequence number, while the counter is below 2^32, the
/// next trade's identifier is the sequence number times 2^32 plus the
/// counter.
pub proof fn law_new_trade_id_layout<A>(s: EscrowState<A>, ledger_sequence: u32)
    requires
        s.next_trade_id < 0x1_0000_0000,
    ensures
        s.new_trade_id(ledger_sequence) as int == ledger_sequence as int * 0x1_0000_0000
            + s.next_trade_id as int,
{
    law_trade_id_layout(ledger_sequence, s.next_trade_id);
}

/// `create_trade` adds exactly one trade, under the new identifier, made of
/// the given buyer, seller, token and amount with status `Created` and no
/// delivery time; it advances the counter by one and keeps the rest.
pub proof fn law_create_trade_records<A>(
    s: EscrowState<A>,
    ledger_sequence: u32,
    buyer: A,
    seller: A,
    token: A,
    amount: i128,
)
    requires
        s.next_trade_id < u64::MAX,
    ensures
        ({
            let id = s.new_trade_id(ledger_sequence);
            let after = s.created(ledger_sequence, buyer, seller, token, amount);
            &&& after.next_trade_id == s.next_trade_id + 1
            &&& after.config == s.config
            &&& after.deposit == s.deposit
            &&& after.trades == s.trades.insert(
                id,
                Trade {
                    trade_id: id,
                    buyer,
                    seller,
                    token,
                    amount,
                    status: TradeStatus::Created,
                    delivered_at: None,
                },
            )
        }),
{
}

/// The lifecycle calls change only the status of their trade (and, for
/// `confirm_delivery`, its delivery time): buyer, seller, token, amount and
/// the other trades are kept, and so are configuration, deposit and counter.
pub proof fn law_lifecycle_records<A>(s: EscrowState<A>, id: u64, timestamp: u64)
    requires
        s.trades.contains_key(id),
    ensures
        s.funded(id).trades == s.trades.insert(
            id,
            Trade { status: TradeStatus::Funded, ..s.trades[id] },
        ),
        s.delivered(id, timestamp).trades == s.trades.insert(
            id,
            Trade { status: TradeStatus::Delivered, delivered_at: Some(timestamp), ..s.trades[id] },
        ),
        s.completed(id).trades == s.trades.insert(
            id,
            Trade { status: TradeStatus::Completed, ..s.trades[id] },
        ),
        s.funded(id).config == s.config && s.funded(id).deposit == s.deposit
            && s.funded(id).next_trade_id == s.next_trade_id,
        s.delivered(id, timestamp).config == s.config && s.delivered(id, timestamp).deposit
            == s.deposit && s.delivered(id, timestamp).next_trade_id == s.next_trade_id,
        s.completed(id).config == s.config && s.completed(id).deposit == s.deposit
            && s.completed(id).next_trade_id == s.next_trade_id,
{
}

/// When each call is refused, and with which error.
pub proof fn law_refusals<A>(s: EscrowState<A>, amount: i128, ledger_sequence: u32, id: u64)
    ensures
        EscrowState::<A>::create_trade_signer_error(amount) is None <==> amount > 0,
        amount <= 0 ==> EscrowState::<A>::create_trade_signer_error(amount) == Some(
            EscrowError::NonPositiveAmount,
        ),
        amount <= 0 ==> s.create_trade_error(amount, ledger_sequence) == Some(
            EscrowError::NonPositiveAmount,
        ),
        amount > 0 && s.trades.contains_key(s.new_trade_id(ledger_sequence))
            ==> s.create_trade_error(amount, ledger_sequence) == Some(EscrowError::TradeExists),
        amount > 0 && !s.trades.contains_key(s.new_trade_id(ledger_sequence))
            ==> s.create_trade_error(amount, ledger_sequence) is None,
        !s.trades.contains_key(id) ==> s.mark_funded_error(id) == Some(EscrowError::TradeNotFound)
            && s.confirm_delivery_signer_error(id) == Some(EscrowError::TradeNotFound)
            && s.confirm_delivery_error(id) == Some(EscrowError::TradeNotFound)
            && s.release_funds_error(id) == Some(EscrowError::TradeNotFound),
        s.trades.contains_key(id) ==> s.confirm_delivery_signer_error(id) is None,
        s.trades.contains_key(id) && s.trades[id].status == TradeStatus::Created
            ==> s.mark_funded_error(id) is None,
        s.trades.contains_key(id) && s.trades[id].status == TradeStatus::Funded
            ==> s.confirm_delivery_error(id) is None,
        s.trades.contains_key(id) && s.trades[id].status == TradeStatus::Delivered
            && s.config is Some ==> s.release_funds_error(id) is None,
        s.trades.contains_key(id) && s.trades[id].status == TradeStatus::Delivered
            && s.config is None ==> s.release_funds_error(id) == Some(
            EscrowError::NotInitialized,
        ),
{
}

/// The fee is the amount times the rate in basis points divided by ten
/// thousand, rounded down.
pub proof fn law_fee_rounding(amount: int, fee_bps: int)
    requires
        0 <= amount,
        0 <= fee_bps,
    ensures
        fee_of(amount, fee_bps) * 10_000 <= amount * fee_bps,
        amount * fee_bps < fee_of(amount, fee_bps) * 10_000 + 10_000,
{
    assert(0 <= amount * fee_bps) by (nonlinear_arith)
        requires
            0 <= amount,
            0 <= fee_bps,
    ;
}

/// The fee withheld by `release_funds` is the trade's amount times the
/// recorded rate divided by ten thousand, rounded down.
pub proof fn law_release_fee<A>(s: EscrowState<A>, id: u64)
    requires
        s.wf(),
        s.release_funds_error(id) is None,
    ensures
        ({
            let fee = s.release_fee(id);
            let product = s.trades[id].amount * s.config->Some_0.fee_bps;
            &&& fee * 10_000 <= product
            &&& product < fee * 10_000 + 10_000
        }),
{
    law_fee_rounding(s.trades[id].amount as int, s.config->Some_0.fee_bps as int);
}

/// A freshly deployed contract has no configuration, no deposit, no trade,
/// and its counter at one.
pub proof fn law_empty_state<A>()
    ensures
        EscrowState::<A>::empty().config is None,
        EscrowState::<A>::empty().deposit is None,
        EscrowState::<A>::empty().next_trade_id == 1,
        EscrowState::<A>::empty().trades.dom() == Set::<u64>::empty(),
{
    assert(EscrowState::<A>::empty().trades.dom() =~= Set::<u64>::empty());
}

/// For every ledger sequence number and counter, the low 32 bits of a trade
/// identifier are those of the counter, and the high 32 bits are the ledger
/// sequence number or-ed with the counter's high bits.
pub proof fn law_trade_id_bits(ledger_sequence: u32, next_id: u64)
    ensures
        trade_id_of(ledger_sequence, next_id) & 0xffff_ffffu64 == next_id & 0xffff_ffffu64,
        trade_id_of(ledger_sequence, next_id) >> 32u64 == (ledger_sequence as u64) | (next_id
            >> 32u64),
{
    let s = ledger_sequence as u64;
    assert(((s << 32u64) | next_id) & 0xffff_ffffu64 == next_id & 0xffff_ffffu64) by (bit_vector);
    assert(((s << 32u64) | next_id) >> 32u64 == s | (next_id >> 32u64)) by (bit_vector)
        requires
            s < 0x1_0000_0000u64,
    ;
}

/// The messages with which the contract aborts, one per error.
pub proof fn law_messages()
    ensures
        EscrowError::AlreadyInitialized.message_text() == "AlreadyInitialized"@,
        EscrowError::NotInitialized.message_text()
            == "called `Option::unwrap()` on a `None` value"@,
        EscrowError::NonPositiveAmount.message_text() == "amount_usdc must be greater than zero"@,
        EscrowError::TradeExists.message_text() == "trade already exists"@,
        EscrowError::TradeNotFound.message_text()
            == "called `Option::unwrap()` on a `None` value"@,
        EscrowError::NotCreated.message_text() == "trade must be created"@,
        EscrowError::NotFunded.message_text() == "trade must be funded"@,
        EscrowError::NotDelivered.message_text() == "trade must be delivered"@,
{
}

} // verus!
