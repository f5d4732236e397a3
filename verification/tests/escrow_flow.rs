use amana_escrow::escrow::{Deposit, EscrowContract};
use amana_escrow::rules::{compose_trade_id, split_amount};
use amana_escrow::types::{
    DeliveryConfirmedEvent, EscrowError, InitializedEvent, Trade, TradeCreatedEvent, TradeStatus,
};

type Addr = &'static str;

const ESCROW: Addr = "escrow-contract";
const ADMIN: Addr = "admin";
const BUYER: Addr = "buyer";
const SELLER: Addr = "seller";
const TREASURY: Addr = "treasury";
const TOKEN: Addr = "token";

const LEDGER_SEQUENCE: u32 = 7;
const TIMESTAMP: u64 = 1_700_000_000;

fn setup_base() -> EscrowContract<Addr> {
    EscrowContract::new()
}

/// An initialized contract whose treasury is the token, with one trade of
/// `amount` opened at ledger 7.
fn with_trade(fee_bps: u32, amount: i128) -> (EscrowContract<Addr>, u64) {
    let mut c = setup_base();
    c.initialize(ADMIN, TOKEN, fee_bps).unwrap();
    let (id, _) = c.create_trade(BUYER, SELLER, amount, LEDGER_SEQUENCE, ESCROW).unwrap();
    (c, id)
}

#[test]
fn initialize_happy_path() {
    let mut c = setup_base();
    let fee_bps = 100_u32;
    assert_eq!(c.initialize_signer(&ADMIN), Ok(&ADMIN));
    let ev = c.initialize(ADMIN, TREASURY, fee_bps).unwrap();
    assert_eq!(ev, InitializedEvent { admin: ADMIN, fee_bps: 100 });
    let cfg = c.config().unwrap();
    assert_eq!(cfg.admin, ADMIN);
    assert_eq!(cfg.treasury, TREASURY);
    assert_eq!(cfg.fee_bps, 100);
}

#[test]
fn initialize_fails_if_called_twice() {
    let mut c = setup_base();
    c.initialize(ADMIN, TREASURY, 100).unwrap();
    assert_eq!(c.initialize_signer(&ADMIN), Err(EscrowError::AlreadyInitialized));
    let err = c.initialize(ADMIN, TREASURY, 100).unwrap_err();
    assert_eq!(err, EscrowError::AlreadyInitialized);
    assert_eq!(err.message(), "AlreadyInitialized");
}

#[test]
fn deposit_happy_path() {
    let mut c = setup_base();
    let amount = 2_500_i128;
    c.deposit(BUYER, SELLER, amount);
    assert_eq!(c.last_deposit(), Some(&Deposit { buyer: BUYER, seller: SELLER, amount: 2_500 }));
}

#[test]
fn create_trade_happy_path() {
    let mut c = setup_base();
    c.initialize(ADMIN, TREASURY, 100).unwrap();
    let (trade_id, _) = c.create_trade(BUYER, SELLER, 10_000, 0, ESCROW).unwrap();
    assert!(trade_id > 0);
}

#[test]
fn create_trade_fails_zero_amount() {
    let mut c = setup_base();
    assert_eq!(
        EscrowContract::<Addr>::create_trade_signer(0, &BUYER),
        Err(EscrowError::NonPositiveAmount)
    );
    let err = c.create_trade(BUYER, SELLER, 0, 0, ESCROW).unwrap_err();
    assert_eq!(err, EscrowError::NonPositiveAmount);
    assert_eq!(err.message(), "amount_usdc must be greater than zero");
    assert_eq!(c.next_trade_id(), 1);
}

#[test]
fn create_trade_fails_wrong_caller() {
    let signer = EscrowContract::<Addr>::create_trade_signer(10_000, &BUYER).unwrap();
    assert_eq!(*signer, BUYER);
    assert_ne!(*signer, SELLER);
}

#[test]
fn mark_funded_happy_path() {
    let (mut c, id) = with_trade(100, 10_000);
    assert_eq!(c.mark_funded_signer(id), Ok(&BUYER));
    c.mark_funded(id).unwrap();
    assert_eq!(c.get_trade(id).unwrap().status, TradeStatus::Funded);
}

#[test]
fn mark_funded_fails_wrong_status() {
    let (mut c, id) = with_trade(100, 10_000);
    c.mark_funded(id).unwrap();
    let err = c.mark_funded(id).unwrap_err();
    assert_eq!(err, EscrowError::NotCreated);
    assert_eq!(err.message(), "trade must be created");
    assert_eq!(c.mark_funded_signer(id), Err(EscrowError::NotCreated));
}

#[test]
fn mark_funded_fails_wrong_caller() {
    let (c, id) = with_trade(100, 10_000);
    let signer = c.mark_funded_signer(id).unwrap();
    assert_eq!(*signer, BUYER);
    assert_ne!(*signer, SELLER);
}

#[test]
fn confirm_delivery_happy_path() {
    let (mut c, id) = with_trade(100, 10_000);
    c.mark_funded(id).unwrap();
    let ev = c.confirm_delivery(id, TIMESTAMP).unwrap();
    assert_eq!(ev, DeliveryConfirmedEvent { trade_id: id, delivered_at: TIMESTAMP });
    let t = c.get_trade(id).unwrap();
    assert_eq!(t.status, TradeStatus::Delivered);
    assert_eq!(t.delivered_at, Some(TIMESTAMP));
}

#[test]
fn confirm_delivery_fails_wrong_status() {
    let (mut c, id) = with_trade(100, 10_000);
    let err = c.confirm_delivery(id, TIMESTAMP).unwrap_err();
    assert_eq!(err, EscrowError::NotFunded);
    assert_eq!(err.message(), "trade must be funded");
    assert_eq!(c.get_trade(id).unwrap().status, TradeStatus::Created);
}

#[test]
fn confirm_delivery_fails_wrong_caller() {
    let (mut c, id) = with_trade(100, 10_000);
    c.mark_funded(id).unwrap();
    let signer = c.confirm_delivery_signer(id).unwrap();
    assert_eq!(*signer, BUYER);
    assert_ne!(*signer, SELLER);
}

#[test]
fn release_funds_happy_path_multi_step_flow() {
    let amount = 10_000_i128;
    let (mut c, id) = with_trade(100, amount);
    c.deposit(BUYER, SELLER, amount);
    c.mark_funded(id).unwrap();
    c.confirm_delivery(id, TIMESTAMP).unwrap();
    assert_eq!(c.release_funds_signer(id), Ok(&ADMIN));
    let s = c.release_funds(id).unwrap();
    assert_eq!(s.event.seller_amount, 9_900);
    assert_eq!(s.event.fee_amount, 100);
    assert_eq!(s.token, TOKEN);
    assert_eq!(s.seller, SELLER);
    assert_eq!(s.treasury, TOKEN);
    assert_eq!(c.get_trade(id).unwrap().status, TradeStatus::Completed);
}

#[test]
fn release_funds_fails_wrong_status() {
    let (mut c, id) = with_trade(100, 10_000);
    let err = c.release_funds(id).unwrap_err();
    assert_eq!(err, EscrowError::NotDelivered);
    assert_eq!(err.message(), "trade must be delivered");
}

#[test]
fn release_funds_fails_wrong_caller() {
    let (mut c, id) = with_trade(100, 10_000);
    c.mark_funded(id).unwrap();
    c.confirm_delivery(id, TIMESTAMP).unwrap();
    let signer = c.release_funds_signer(id).unwrap();
    assert_eq!(*signer, ADMIN);
    assert_ne!(*signer, BUYER);
}

#[test]
fn release_funds_rounding_path() {
    let (mut c, id) = with_trade(100, 101);
    c.mark_funded(id).unwrap();
    c.confirm_delivery(id, 0).unwrap();
    let s = c.release_funds(id).unwrap();
    assert_eq!(s.event.seller_amount, 100);
    assert_eq!(s.event.fee_amount, 1);
}

#[test]
fn get_trade_happy_path() {
    let mut c = setup_base();
    c.initialize(ADMIN, TREASURY, 100).unwrap();
    let (trade_id, _) = c.create_trade(BUYER, SELLER, 10_000, 0, ESCROW).unwrap();
    let trade = c.get_trade(trade_id).unwrap();
    assert_eq!(trade.trade_id, trade_id);
}

#[test]
fn create_trade_emits_event() {
    let mut c = setup_base();
    c.initialize(ADMIN, TREASURY, 100).unwrap();
    let (trade_id, ev) = c.create_trade(BUYER, SELLER, 5_000, 0, ESCROW).unwrap();
    assert_eq!(
        ev,
        TradeCreatedEvent { trade_id, buyer: BUYER, seller: SELLER, amount_usdc: 5_000 }
    );
}

#[test]
fn initialize_emits_event() {
    let mut c = setup_base();
    let ev = c.initialize(ADMIN, TREASURY, 100).unwrap();
    assert_eq!(ev.admin, ADMIN);
    assert_eq!(ev.fee_bps, 100);
}

#[test]
fn get_trade_fails_for_unknown_trade() {
    let c = setup_base();
    let err = c.get_trade(999_u64).unwrap_err();
    assert_eq!(err, EscrowError::TradeNotFound);
    assert_eq!(err.message(), "called `Option::unwrap()` on a `None` value");
}

#[test]
fn trade_ids_increment() {
    let mut c = setup_base();
    c.initialize(ADMIN, TREASURY, 100).unwrap();
    let (first, _) = c.create_trade(BUYER, SELLER, 100, 0, ESCROW).unwrap();
    let (second, _) = c.create_trade(BUYER, SELLER, 200, 0, ESCROW).unwrap();
    assert!(second > first);
}

#[test]
fn release_fee_changes_with_bps() {
    let (mut c, id) = with_trade(250, 10_000);
    c.mark_funded(id).unwrap();
    c.confirm_delivery(id, 0).unwrap();
    let s = c.release_funds(id).unwrap();
    assert_eq!(s.event.seller_amount, 9_750);
    assert_eq!(s.event.fee_amount, 250);
}

// ---- further cases ----

#[test]
fn trade_id_holds_ledger_and_counter() {
    assert_eq!(compose_trade_id(7, 1), (7_u64 << 32) | 1);
    assert_eq!(compose_trade_id(7, 1), 30_064_771_073);
    assert_eq!(compose_trade_id(0, 1), 1);
    let (c, id) = with_trade(100, 10_000);
    assert_eq!(id, 7 * 4_294_967_296 + 1);
    assert_eq!(c.next_trade_id(), 2);
    assert_eq!(c.next_id_at(7), 7 * 4_294_967_296 + 2);
}

#[test]
fn trade_ids_wrap_into_ledger_bits() {
    // Past 2^32 the counter shares bits with the ledger sequence.
    assert_eq!(compose_trade_id(1, 4_294_967_295), 8_589_934_591);
    assert_eq!(compose_trade_id(1, 4_294_967_296), 4_294_967_296);
}

#[test]
fn create_trade_refuses_taken_identifier() {
    let stored = Trade {
        trade_id: 5,
        buyer: BUYER,
        seller: SELLER,
        token: TOKEN,
        amount: 10,
        status: TradeStatus::Created,
        delivered_at: None,
    };
    let mut c = EscrowContract::from_records(None, None, 5, Some(stored.clone())).unwrap();
    let err = c.create_trade(BUYER, SELLER, 10, 0, ESCROW).unwrap_err();
    assert_eq!(err, EscrowError::TradeExists);
    assert_eq!(err.message(), "trade already exists");
    assert_eq!(c.next_trade_id(), 5);
    assert_eq!(c.get_trade(5).unwrap(), &stored);
}

#[test]
fn trade_opened_before_initialize_settles_in_contract_token() {
    let mut c = setup_base();
    let (id, _) = c.create_trade(BUYER, SELLER, 300, 2, ESCROW).unwrap();
    let t = c.get_trade(id).unwrap();
    assert_eq!(
        t,
        &Trade {
            trade_id: id,
            buyer: BUYER,
            seller: SELLER,
            token: ESCROW,
            amount: 300,
            status: TradeStatus::Created,
            delivered_at: None,
        }
    );
    c.mark_funded(id).unwrap();
    c.confirm_delivery(id, 9).unwrap();
    assert_eq!(c.release_funds_signer(id), Err(EscrowError::NotInitialized));
    let err = c.release_funds(id).unwrap_err();
    assert_eq!(err, EscrowError::NotInitialized);
    assert_eq!(c.get_trade(id).unwrap().status, TradeStatus::Delivered);
}

#[test]
fn trade_uses_treasury_token_after_initialize() {
    let (c, id) = with_trade(100, 10_000);
    assert_eq!(c.get_trade(id).unwrap().token, TOKEN);
}

#[test]
fn completed_trade_accepts_no_further_call() {
    let (mut c, id) = with_trade(0, 500);
    c.mark_funded(id).unwrap();
    c.confirm_delivery(id, 3).unwrap();
    let s = c.release_funds(id).unwrap();
    assert_eq!(s.event.fee_amount, 0);
    assert_eq!(s.event.seller_amount, 500);
    assert_eq!(c.mark_funded(id), Err(EscrowError::NotCreated));
    assert_eq!(c.confirm_delivery(id, 4), Err(EscrowError::NotFunded));
    assert_eq!(c.release_funds(id).unwrap_err(), EscrowError::NotDelivered);
    let t = c.get_trade(id).unwrap();
    assert_eq!(t.status, TradeStatus::Completed);
    assert_eq!(t.delivered_at, Some(3));
}

#[test]
fn lifecycle_on_unknown_trade_is_refused() {
    let mut c = setup_base();
    assert_eq!(c.mark_funded(42), Err(EscrowError::TradeNotFound));
    assert_eq!(c.confirm_delivery(42, 1), Err(EscrowError::TradeNotFound));
    assert_eq!(c.release_funds(42).unwrap_err(), EscrowError::TradeNotFound);
    assert_eq!(c.mark_funded_signer(42), Err(EscrowError::TradeNotFound));
    assert_eq!(c.confirm_delivery_signer(42), Err(EscrowError::TradeNotFound));
    assert_eq!(c.release_funds_signer(42), Err(EscrowError::TradeNotFound));
}

#[test]
fn deposit_replaces_previous_deposit() {
    let mut c = setup_base();
    c.deposit(BUYER, SELLER, 1);
    c.deposit(SELLER, BUYER, 2);
    assert_eq!(c.last_deposit(), Some(&Deposit { buyer: SELLER, seller: BUYER, amount: 2 }));
    assert!(c.config().is_none());
}

#[test]
fn split_amount_rounds_fee_down() {
    let s = split_amount(101, 100);
    assert_eq!((s.seller_amount, s.fee_amount), (100, 1));
    let s = split_amount(10_000, 10_000);
    assert_eq!((s.seller_amount, s.fee_amount), (0, 10_000));
    let s = split_amount(9_999, 1);
    assert_eq!((s.seller_amount, s.fee_amount), (9_999, 0));
    let s = split_amount(100, 20_000);
    assert_eq!((s.seller_amount, s.fee_amount), (-100, 200));
}

#[test]
fn from_records_rejects_inconsistent_records() {
    let bad = Trade {
        trade_id: 3,
        buyer: BUYER,
        seller: SELLER,
        token: TOKEN,
        amount: 10,
        status: TradeStatus::Delivered,
        delivered_at: None,
    };
    assert!(EscrowContract::from_records(None, None, 1, Some(bad)).is_none());
    assert!(EscrowContract::<Addr>::from_records(None, None, 0, None).is_none());
    let zero_amount = Trade {
        trade_id: 3,
        buyer: BUYER,
        seller: SELLER,
        token: TOKEN,
        amount: 0,
        status: TradeStatus::Created,
        delivered_at: None,
    };
    assert!(EscrowContract::from_records(None, None, 1, Some(zero_amount)).is_none());
}
