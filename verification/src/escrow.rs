use std::collections::HashMap;
use vstd::prelude::*;

use crate::laws::law_trade_id_positive;
use crate::rules::{compose_trade_id, fee_of, split_amount, trade_id_of};
use crate::types::{
    DeliveryConfirmedEvent, EscrowError, FundsReleasedEvent, InitializedEvent, Trade,
    TradeCreatedEvent, TradeStatus,
};

verus! {

broadcast use vstd::std_specs::hash::group_hash_axioms;

/// What `initialize` records: the administrator who releases funds, the
/// treasury that is both the default settlement token and the fee recipient,
/// and the fee rate in basis points.
#[derive(Clone, Debug, PartialEq, Eq)]
pub struct Config<A> {
    pub admin: A,
    pub treasury: A,
    pub fee_bps: u32,
}

/// What `deposit` records; its presence is the contract's "locked" flag.
#[derive(Clone, Debug, PartialEq, Eq)]
pub struct Deposit<A> {
    pub buyer: A,
    pub seller: A,
    pub amount: i128,
}

/// What `release_funds` hands out: two transfers in `token` from the contract,
/// `event.seller_amount` to `seller` and `event.fee_amount` to `treasury`.
#[derive(Clone, Debug, PartialEq, Eq)]
pub struct Settlement<A> {
    pub token: A,
    pub seller: A,
    pub treasury: A,
    pub event: FundsReleasedEvent,
}

/// The contract's state as a mathematical value.
#[verifier::ext_equal]
pub struct EscrowState<A> {
    pub config: Option<Config<A>>,
    pub deposit: Option<Deposit<A>>,
    pub next_trade_id: u64,
    pub trades: Map<u64, Trade<A>>,
}

/// A stored trade is consistent with the key under which it is stored.
pub open spec fn trade_wf<A>(id: u64, t: Trade<A>) -> bool {
    &&& t.trade_id == id
    &&& id > 0
    &&& t.amount > 0
    &&& (t.delivered_at is Some <==> (t.status == TradeStatus::Delivered || t.status
        == TradeStatus::Completed))
}

/// The status that follows `s` in a trade's lifecycle; `Completed` is final.
pub open spec fn next_status(s: TradeStatus) -> Option<TradeStatus> {
    match s {
        TradeStatus::Created => Some(TradeStatus::Funded),
        TradeStatus::Funded => Some(TradeStatus::Delivered),
        TradeStatus::Delivered => Some(TradeStatus::Completed),
        TradeStatus::Completed => None,
    }
}

impl<A> EscrowState<A> {
    /// The state of a freshly deployed contract.
    pub open spec fn empty() -> Self {
        EscrowState { config: None, deposit: None, next_trade_id: 1, trades: Map::empty() }
    }

    /// The invariant that every call keeps: the counter is positive, and each
    /// stored trade carries its own key, a positive amount, and a delivery
    /// time exactly when delivery has been confirmed.
    pub open spec fn wf(self) -> bool {
        &&& self.next_trade_id >= 1
        &&& forall|id: u64| #[trigger] self.trades.contains_key(id) ==> trade_wf(id, self.trades[id])
    }

    /// The token in which a trade opened now is settled.
    pub open spec fn trade_token(self, current_contract: A) -> A {
        match self.config {
            Some(c) => c.treasury,
            None => current_contract,
        }
    }

    // ---- initialize ----
    pub open spec fn initialize_error(self) -> Option<EscrowError> {
        if self.config is Some {
            Some(EscrowError::AlreadyInitialized)
        } else {
            None
        }
    }

    pub open spec fn initialized(self, admin: A, treasury: A, fee_bps: u32) -> Self {
        EscrowState { config: Some(Config { admin, treasury, fee_bps }), ..self }
    }

    // ---- deposit ----
    pub open spec fn deposited(self, buyer: A, seller: A, amount: i128) -> Self {
        EscrowState { deposit: Some(Deposit { buyer, seller, amount }), ..self }
    }

    // ---- create_trade ----
    /// The identifier that the next trade opened at `ledger_sequence` gets.
    pub open spec fn new_trade_id(self, ledger_sequence: u32) -> u64 {
        trade_id_of(ledger_sequence, self.next_trade_id)
    }

    /// Why `create_trade` is refused before the buyer's signature is asked.
    pub open spec fn create_trade_signer_error(amount: i128) -> Option<EscrowError> {
        if amount <= 0 {
            Some(EscrowError::NonPositiveAmount)
        } else {
            None
        }
    }

    pub open spec fn create_trade_error(self, amount: i128, ledger_sequence: u32) -> Option<
        EscrowError,
    > {
        if amount <= 0 {
            Some(EscrowError::NonPositiveAmount)
        } else if self.trades.contains_key(self.new_trade_id(ledger_sequence)) {
            Some(EscrowError::TradeExists)
        } else {
            None
        }
    }

    pub open spec fn created(
        self,
        ledger_sequence: u32,
        buyer: A,
        seller: A,
        token: A,
        amount: i128,
    ) -> Self {
        let id = self.new_trade_id(ledger_sequence);
        EscrowState {
            next_trade_id: (self.next_trade_id + 1) as u64,
            trades: self.trades.insert(
                id,
                Trade {
                    trade_id: id,
                    buyer,
                    seller,
                    token,
                    amount,
                    status: TradeStatus::Created,
                    delivered_at: None,
                },
            ),
            ..self
        }
    }

    // ---- status changes shared by the three lifecycle calls ----
    /// `self` with the trade under `id` moved to `status` and `delivered_at`.
    pub open spec fn with_trade_status(
        self,
        id: u64,
        status: TradeStatus,
        delivered_at: Option<u64>,
    ) -> Self {
        EscrowState {
            trades: self.trades.insert(
                id,
                Trade { status, delivered_at, ..self.trades[id] },
            ),
            ..self
        }
    }

    /// Why a call that expects the trade under `id` in `status` is refused,
    /// `wrong` being the error for a trade in another status.
    pub open spec fn status_error(self, id: u64, status: TradeStatus, wrong: EscrowError) -> Option<
        EscrowError,
    > {
        if !self.trades.contains_key(id) {
            Some(EscrowError::TradeNotFound)
        } else if self.trades[id].status != status {
            Some(wrong)
        } else {
            None
        }
    }

    // ---- mark_funded ----
    pub open spec fn mark_funded_error(self, id: u64) -> Option<EscrowError> {
        self.status_error(id, TradeStatus::Created, EscrowError::NotCreated)
    }

    pub open spec fn funded(self, id: u64) -> Self {
        self.with_trade_status(id, TradeStatus::Funded, self.trades[id].delivered_at)
    }

    // ---- confirm_delivery ----
    pub open spec fn confirm_delivery_signer_error(self, id: u64) -> Option<EscrowError> {
        if !self.trades.contains_key(id) {
            Some(EscrowError::TradeNotFound)
        } else {
            None
        }
    }

    pub open spec fn confirm_delivery_error(self, id: u64) -> Option<EscrowError> {
        self.status_error(id, TradeStatus::Funded, EscrowError::NotFunded)
    }

    pub open spec fn delivered(self, id: u64, timestamp: u64) -> Self {
        self.with_trade_status(id, TradeStatus::Delivered, Some(timestamp))
    }

    // ---- release_funds ----
    pub open spec fn release_funds_error(self, id: u64) -> Option<EscrowError> {
        if self.status_error(id, TradeStatus::Delivered, EscrowError::NotDelivered) is Some {
            self.status_error(id, TradeStatus::Delivered, EscrowError::NotDelivered)
        } else if self.config is None {
            Some(EscrowError::NotInitialized)
        } else {
            None
        }
    }

    /// The fee computation of `release_funds` on the trade under `id` stays
    /// within `i128`.
    pub open spec fn release_fits(self, id: u64) -> bool {
        self.release_funds_error(id) is None ==> self.trades[id].amount
            * self.config->Some_0.fee_bps <= i128::MAX
    }

    pub open spec fn completed(self, id: u64) -> Self {
        self.with_trade_status(id, TradeStatus::Completed, self.trades[id].delivered_at)
    }

    /// The fee withheld when the trade under `id` is released.
    pub open spec fn release_fee(self, id: u64) -> int {
        fee_of(self.trades[id].amount as int, self.config->Some_0.fee_bps as int)
    }
}

/// The escrow contract: its configuration, the last deposit, the trade
/// counter and the trades, keyed by identifier.
pub struct EscrowContract<A> {
    config: Option<Config<A>>,
    deposit: Option<Deposit<A>>,
    next_trade_id: u64,
    trades: HashMap<u64, Trade<A>>,
}

impl<A> View for EscrowContract<A> {
    type V = EscrowState<A>;

    closed spec fn view(&self) -> EscrowState<A> {
        EscrowState {
            config: self.config,
            deposit: self.deposit,
            next_trade_id: self.next_trade_id,
            trades: self.trades@,
        }
    }
}

/// Checks `trade_wf` of a trade stored under its own identifier.
fn check_trade<A>(t: &Trade<A>) -> (ok: bool)
    ensures
        ok == trade_wf(t.trade_id, *t),
{
    let delivered = match t.status {
        TradeStatus::Delivered | TradeStatus::Completed => true,
        _ => false,
    };
    t.trade_id > 0 && t.amount > 0 && t.delivered_at.is_some() == delivered
}

impl<A: Clone> EscrowContract<A> {
    /// A contract with nothing recorded yet.
    pub fn new() -> (c: Self)
        ensures
            c@ == EscrowState::<A>::empty(),
            c@.wf(),
    {
        let c = EscrowContract {
            config: None,
            deposit: None,
            next_trade_id: 1,
            trades: HashMap::new(),
        };
        assert(c@.trades =~= Map::empty());
        c
    }

    /// Rebuilds the contract's state from its stored records: the
    /// configuration, the last deposit, the counter and at most one trade,
    /// keyed by its own identifier. `None` when the records break the
    /// invariant that every call keeps.
    pub fn from_records(
        config: Option<Config<A>>,
        deposit: Option<Deposit<A>>,
        next_trade_id: u64,
        stored: Option<Trade<A>>,
    ) -> (r: Option<Self>)
        ensures
            r is Some <==> (next_trade_id >= 1 && (stored matches Some(t) ==> trade_wf(
                t.trade_id,
                t,
            ))),
            r matches Some(c) ==> {
                &&& c@.wf()
                &&& c@.config == config
                &&& c@.deposit == deposit
                &&& c@.next_trade_id == next_trade_id
                &&& c@.trades == match stored {
                    Some(t) => Map::<u64, Trade<A>>::empty().insert(t.trade_id, t),
                    None => Map::<u64, Trade<A>>::empty(),
                }
            },
    {
        if next_trade_id < 1 {
            return None;
        }
        let mut trades: HashMap<u64, Trade<A>> = HashMap::new();
        match stored {
            Some(t) => {
                if !check_trade(&t) {
                    return None;
                }
                trades.insert(t.trade_id, t);
            },
            None => {},
        }
        let c = EscrowContract { config, deposit, next_trade_id, trades };
        Some(c)
    }

    /// The configuration recorded by `initialize`, if any.
    pub fn config(&self) -> (r: Option<&Config<A>>)
        ensures
            r == match self@.config {
                Some(c) => Some(&c),
                None => None::<&Config<A>>,
            },
    {
        match &self.config {
            Some(c) => Some(c),
            None => None,
        }
    }

    /// The deposit recorded last, if any.
    pub fn last_deposit(&self) -> (r: Option<&Deposit<A>>)
        ensures
            r == match self@.deposit {
                Some(d) => Some(&d),
                None => None::<&Deposit<A>>,
            },
    {
        match &self.deposit {
            Some(d) => Some(d),
            None => None,
        }
    }

    /// The counter from which the next trade identifier is made.
    pub fn next_trade_id(&self) -> (n: u64)
        ensures
            n == self@.next_trade_id,
    {
        self.next_trade_id
    }

    /// Whom `initialize` must be authorized by: the `admin` it names, unless
    /// the contract has already been initialized.
    pub fn initialize_signer<'a>(&self, admin: &'a A) -> (r: Result<&'a A, EscrowError>)
        ensures
            match r {
                Ok(a) => self@.initialize_error() is None && *a == *admin,
                Err(e) => self@.initialize_error() == Some(e),
            },
    {
        if self.config.is_some() {
            Err(EscrowError::AlreadyInitialized)
        } else {
            Ok(admin)
        }
    }

    /// Records the administrator, the treasury and the fee rate, once.
    pub fn initialize(&mut self, admin: A, treasury: A, fee_bps: u32) -> (r: Result<
        InitializedEvent<A>,
        EscrowError,
    >)
        requires
            old(self)@.wf(),
        ensures
            final(self)@.wf(),
            match r {
                Ok(ev) => {
                    &&& old(self)@.initialize_error() is None
                    &&& final(self)@ == old(self)@.initialized(admin, treasury, fee_bps)
                    &&& ev.fee_bps == fee_bps
                    &&& cloned(admin, ev.admin)
                },
                Err(e) => old(self)@.initialize_error() == Some(e) && final(self)@ == old(self)@,
            },
    {
        if self.config.is_some() {
            return Err(EscrowError::AlreadyInitialized);
        }
        let event = InitializedEvent { admin: admin.clone(), fee_bps };
        self.config = Some(Config { admin, treasury, fee_bps });
        Ok(event)
    }

    /// Records a deposit of `amount` from `buyer` for `seller`, replacing the
    /// previous one; authorized by `buyer`.
    pub fn deposit(&mut self, buyer: A, seller: A, amount: i128)
        requires
            old(self)@.wf(),
        ensures
            final(self)@.wf(),
            final(self)@ == old(self)@.deposited(buyer, seller, amount),
    {
        self.deposit = Some(Deposit { buyer, seller, amount });
    }

    /// Whom `create_trade` must be authorized by: the `buyer` it names, unless
    /// the amount is not positive.
    pub fn create_trade_signer<'a>(amount: i128, buyer: &'a A) -> (r: Result<&'a A, EscrowError>)
        ensures
            match r {
                Ok(a) => EscrowState::<A>::create_trade_signer_error(amount) is None && *a == *buyer,
                Err(e) => EscrowState::<A>::create_trade_signer_error(amount) == Some(e),
            },
    {
        if amount <= 0 {
            Err(EscrowError::NonPositiveAmount)
        } else {
            Ok(buyer)
        }
    }

    /// The identifier that a trade opened at `ledger_sequence` would get now.
    pub fn next_id_at(&self, ledger_sequence: u32) -> (id: u64)
        ensures
            id == self@.new_trade_id(ledger_sequence),
    {
        compose_trade_id(ledger_sequence, self.next_trade_id)
    }

    /// Opens a trade of `amount` from `buyer` to `seller` at `ledger_sequence`
    /// and returns its identifier. The trade is settled in the treasury token,
    /// or in `current_contract` before `initialize`.
    pub fn create_trade(
        &mut self,
        buyer: A,
        seller: A,
        amount_usdc: i128,
        ledger_sequence: u32,
        current_contract: A,
    ) -> (r: Result<(u64, TradeCreatedEvent<A>), EscrowError>)
        requires
            old(self)@.wf(),
            amount_usdc > 0 ==> old(self)@.next_trade_id < u64::MAX,
        ensures
            final(self)@.wf(),
            match r {
                Ok((id, ev)) => {
                    &&& old(self)@.create_trade_error(amount_usdc, ledger_sequence) is None
                    &&& id == old(self)@.new_trade_id(ledger_sequence)
                    &&& cloned(old(self)@.trade_token(current_contract), final(self)@.trades[id].token)
                    &&& final(self)@ == old(self)@.created(
                        ledger_sequence,
                        buyer,
                        seller,
                        final(self)@.trades[id].token,
                        amount_usdc,
                    )
                    &&& ev.trade_id == id
                    &&& ev.amount_usdc == amount_usdc
                    &&& cloned(buyer, ev.buyer)
                    &&& cloned(seller, ev.seller)
                },
                Err(e) => {
                    &&& old(self)@.create_trade_error(amount_usdc, ledger_sequence) == Some(e)
                    &&& final(self)@ == old(self)@
                },
            },
    {
        if amount_usdc <= 0 {
            return Err(EscrowError::NonPositiveAmount);
        }
        let trade_id = compose_trade_id(ledger_sequence, self.next_trade_id);
        if self.trades.contains_key(&trade_id) {
            return Err(EscrowError::TradeExists);
        }
        proof {
            law_trade_id_positive(self.next_trade_id, ledger_sequence);
        }
        let token = match &self.config {
            Some(c) => c.treasury.clone(),
            None => current_contract,
        };
        let event = TradeCreatedEvent {
            trade_id,
            buyer: buyer.clone(),
            seller: seller.clone(),
            amount_usdc,
        };
        let ghost old_state = self@;
        let ghost tok = token;
        self.next_trade_id = self.next_trade_id + 1;
        self.trades.insert(
            trade_id,
            Trade {
                trade_id,
                buyer,
                seller,
                token,
                amount: amount_usdc,
                status: TradeStatus::Created,
                delivered_at: None,
            },
        );
        assert(self@ =~= old_state.created(ledger_sequence, buyer, seller, tok, amount_usdc));
        Ok((trade_id, event))
    }

    /// The trade stored under `trade_id`.
    pub fn get_trade(&self, trade_id: u64) -> (r: Result<&Trade<A>, EscrowError>)
        ensures
            match r {
                Ok(t) => self@.trades.contains_key(trade_id) && *t == self@.trades[trade_id],
                Err(e) => !self@.trades.contains_key(trade_id) && e == EscrowError::TradeNotFound,
            },
    {
        match self.trades.get(&trade_id) {
            Some(t) => Ok(t),
            None => Err(EscrowError::TradeNotFound),
        }
    }

    /// Whom `mark_funded` must be authorized by: the buyer of the trade, when
    /// the trade exists and is `Created`.
    pub fn mark_funded_signer(&self, trade_id: u64) -> (r: Result<&A, EscrowError>)
        ensures
            match r {
                Ok(a) => self@.mark_funded_error(trade_id) is None && *a == self@.trades[trade_id].buyer,
                Err(e) => self@.mark_funded_error(trade_id) == Some(e),
            },
    {
        match self.trades.get(&trade_id) {
            None => Err(EscrowError::TradeNotFound),
            Some(t) => if t.status == TradeStatus::Created {
                Ok(&t.buyer)
            } else {
                Err(EscrowError::NotCreated)
            },
        }
    }

    /// Moves the trade under `id` to `status` and `delivered_at`.
    fn set_status(&mut self, id: u64, status: TradeStatus, delivered_at: Option<u64>)
        requires
            old(self)@.trades.contains_key(id),
        ensures
            final(self)@ == old(self)@.with_trade_status(id, status, delivered_at),
    {
        let ghost old_state = self@;
        match self.trades.remove(&id) {
            Some(t) => {
                self.trades.insert(id, Trade { status, delivered_at, ..t });
                assert(self@ =~= old_state.with_trade_status(id, status, delivered_at));
            },
            None => {},
        }
    }

    /// Marks a `Created` trade as funded; authorized by its buyer.
    pub fn mark_funded(&mut self, trade_id: u64) -> (r: Result<(), EscrowError>)
        requires
            old(self)@.wf(),
        ensures
            final(self)@.wf(),
            match r {
                Ok(()) => old(self)@.mark_funded_error(trade_id) is None && final(self)@
                    == old(self)@.funded(trade_id),
                Err(e) => old(self)@.mark_funded_error(trade_id) == Some(e) && final(self)@
                    == old(self)@,
            },
    {
        let delivered_at = match self.trades.get(&trade_id) {
            None => {
                return Err(EscrowError::TradeNotFound);
            },
            Some(t) => {
                if t.status != TradeStatus::Created {
                    return Err(EscrowError::NotCreated);
                }
                t.delivered_at
            },
        };
        self.set_status(trade_id, TradeStatus::Funded, delivered_at);
        Ok(())
    }

    /// Whom `confirm_delivery` must be authorized by: the buyer of the trade,
    /// when the trade exists.
    pub fn confirm_delivery_signer(&self, trade_id: u64) -> (r: Result<&A, EscrowError>)
        ensures
            match r {
                Ok(a) => self@.confirm_delivery_signer_error(trade_id) is None && *a
                    == self@.trades[trade_id].buyer,
                Err(e) => self@.confirm_delivery_signer_error(trade_id) == Some(e),
            },
    {
        match self.trades.get(&trade_id) {
            None => Err(EscrowError::TradeNotFound),
            Some(t) => Ok(&t.buyer),
        }
    }

    /// Records that the goods of a `Funded` trade were delivered at
    /// `timestamp`; authorized by its buyer.
    pub fn confirm_delivery(&mut self, trade_id: u64, timestamp: u64) -> (r: Result<
        DeliveryConfirmedEvent,
        EscrowError,
    >)
        requires
            old(self)@.wf(),
        ensures
            final(self)@.wf(),
            match r {
                Ok(ev) => {
                    &&& old(self)@.confirm_delivery_error(trade_id) is None
                    &&& final(self)@ == old(self)@.delivered(trade_id, timestamp)
                    &&& ev == DeliveryConfirmedEvent { trade_id, delivered_at: timestamp }
                },
                Err(e) => old(self)@.confirm_delivery_error(trade_id) == Some(e) && final(self)@
                    == old(self)@,
            },
    {
        match self.trades.get(&trade_id) {
            None => {
                return Err(EscrowError::TradeNotFound);
            },
            Some(t) => {
                if t.status != TradeStatus::Funded {
                    return Err(EscrowError::NotFunded);
                }
            },
        }
        self.set_status(trade_id, TradeStatus::Delivered, Some(timestamp));
        Ok(DeliveryConfirmedEvent { trade_id, delivered_at: timestamp })
    }

    /// Whom `release_funds` must be authorized by: the administrator, when the
    /// trade exists, is `Delivered`, and the contract is initialized.
    pub fn release_funds_signer(&self, trade_id: u64) -> (r: Result<&A, EscrowError>)
        ensures
            match r {
                Ok(a) => self@.release_funds_error(trade_id) is None && *a
                    == self@.config->Some_0.admin,
                Err(e) => self@.release_funds_error(trade_id) == Some(e),
            },
    {
        match self.trades.get(&trade_id) {
            None => Err(EscrowError::TradeNotFound),
            Some(t) => if t.status != TradeStatus::Delivered {
                Err(EscrowError::NotDelivered)
            } else {
                match &self.config {
                    None => Err(EscrowError::NotInitialized),
                    Some(c) => Ok(&c.admin),
                }
            },
        }
    }

    /// Completes a `Delivered` trade: the seller is paid the amount less the
    /// fee, and the treasury the fee; authorized by the administrator.
    pub fn release_funds(&mut self, trade_id: u64) -> (r: Result<Settlement<A>, EscrowError>)
        requires
            old(self)@.wf(),
            old(self)@.release_fits(trade_id),
        ensures
            final(self)@.wf(),
            match r {
                Ok(s) => {
                    let t = old(self)@.trades[trade_id];
                    let fee = old(self)@.release_fee(trade_id);
                    &&& old(self)@.release_funds_error(trade_id) is None
                    &&& final(self)@ == old(self)@.completed(trade_id)
                    &&& s.event.trade_id == trade_id
                    &&& s.event.fee_amount == fee
                    &&& s.event.seller_amount == t.amount - fee
                    &&& cloned(t.token, s.token)
                    &&& cloned(t.seller, s.seller)
                    &&& cloned(old(self)@.config->Some_0.treasury, s.treasury)
                },
                Err(e) => old(self)@.release_funds_error(trade_id) == Some(e) && final(self)@
                    == old(self)@,
            },
    {
        let (amount, token, seller, delivered_at) = match self.trades.get(&trade_id) {
            None => {
                return Err(EscrowError::TradeNotFound);
            },
            Some(t) => {
                if t.status != TradeStatus::Delivered {
                    return Err(EscrowError::NotDelivered);
                }
                (t.amount, t.token.clone(), t.seller.clone(), t.delivered_at)
            },
        };
        let (fee_bps, treasury) = match &self.config {
            None => {
                return Err(EscrowError::NotInitialized);
            },
            Some(c) => (c.fee_bps, c.treasury.clone()),
        };
        let split = split_amount(amount, fee_bps);
        self.set_status(trade_id, TradeStatus::Completed, delivered_at);
        Ok(Settlement {
            token,
            seller,
            treasury,
            event: FundsReleasedEvent {
                trade_id,
                seller_amount: split.seller_amount,
                fee_amount: split.fee_amount,
            },
        })
    }
}

} // verus!
