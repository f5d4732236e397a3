use vstd::prelude::*;

verus! {

/// Where a trade stands in its lifecycle.
#[derive(Clone, Copy, Debug, PartialEq, Eq, Structural)]
pub enum TradeStatus {
    Created,
    Funded,
    Delivered,
    Completed,
}

/// A trade between a buyer and a seller, settled in `token`.
/// `A` is the type of an account address; the library never looks inside one.
#[derive(Clone, Debug, PartialEq, Eq)]
pub struct Trade<A> {
    pub trade_id: u64,
    pub buyer: A,
    pub seller: A,
    pub token: A,
    pub amount: i128,
    pub status: TradeStatus,
    pub delivered_at: Option<u64>,
}

/// The keys under which the contract keeps its records.
#[derive(Clone, Copy, Debug, PartialEq, Eq, Structural)]
pub enum DataKey {
    Trade(u64),
    Initialized,
    Admin,
    UsdcContract,
    FeeBps,
}

/// Published once the contract has been initialized.
#[derive(Clone, Debug, PartialEq, Eq)]
pub struct InitializedEvent<A> {
    pub admin: A,
    pub fee_bps: u32,
}

/// Published when the escrowed amount of a trade has been paid out.
#[derive(Clone, Copy, Debug, PartialEq, Eq, Structural)]
pub struct FundsReleasedEvent {
    pub trade_id: u64,
    pub seller_amount: i128,
    pub fee_amount: i128,
}

/// Published when a trade has been opened.
#[derive(Clone, Debug, PartialEq, Eq)]
pub struct TradeCreatedEvent<A> {
    pub trade_id: u64,
    pub buyer: A,
    pub seller: A,
    pub amount_usdc: i128,
}

/// Published when the buyer has confirmed delivery.
#[derive(Clone, Copy, Debug, PartialEq, Eq, Structural)]
pub struct DeliveryConfirmedEvent {
    pub trade_id: u64,
    pub delivered_at: u64,
}

/// Why a call is refused. Each variant stands for one way in which the
/// contract aborts a call.
#[derive(Clone, Copy, Debug, PartialEq, Eq, Structural)]
pub enum EscrowError {
    /// `initialize` on a contract that already has its configuration.
    AlreadyInitialized,
    /// The administrator, fee rate or treasury is read before `initialize`.
    NotInitialized,
    /// `create_trade` with an amount that is not greater than zero.
    NonPositiveAmount,
    /// The identifier computed for a new trade is taken.
    TradeExists,
    /// No trade is stored under the identifier.
    TradeNotFound,
    /// `mark_funded` on a trade that is not `Created`.
    NotCreated,
    /// `confirm_delivery` on a trade that is not `Funded`.
    NotFunded,
    /// `release_funds` on a trade that is not `Delivered`.
    NotDelivered,
}

impl EscrowError {
    /// The text with which the contract aborts for this error.
    pub open spec fn message_text(self) -> Seq<char> {
        match self {
            EscrowError::AlreadyInitialized => "AlreadyInitialized"@,
            EscrowError::NotInitialized => "called `Option::unwrap()` on a `None` value"@,
            EscrowError::NonPositiveAmount => "amount_usdc must be greater than zero"@,
            EscrowError::TradeExists => "trade already exists"@,
            EscrowError::TradeNotFound => "called `Option::unwrap()` on a `None` value"@,
            EscrowError::NotCreated => "trade must be created"@,
            EscrowError::NotFunded => "trade must be funded"@,
            EscrowError::NotDelivered => "trade must be delivered"@,
        }
    }

    /// The message with which the contract aborts for this error.
    pub fn message(&self) -> (s: &'static str)
        ensures
            s@ == self.message_text(),
    {
        match self {
            EscrowError::AlreadyInitialized => "AlreadyInitialized",
            EscrowError::NotInitialized => "called `Option::unwrap()` on a `None` value",
            EscrowError::NonPositiveAmount => "amount_usdc must be greater than zero",
            EscrowError::TradeExists => "trade already exists",
            EscrowError::TradeNotFound => "called `Option::unwrap()` on a `None` value",
            EscrowError::NotCreated => "trade must be created",
            EscrowError::NotFunded => "trade must be funded",
            EscrowError::NotDelivered => "trade must be delivered",
        }
    }
}

} // verus!
