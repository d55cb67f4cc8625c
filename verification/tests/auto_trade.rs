use stellar_swipe::auto_trade::{
    complete_trade, history_status, run_trade, trade_status, Execution, HistoryTradeStatus,
    SignalInfo, TradeAction, TradeEvent, TradeMachine, TradeRequest, TradeStage, TradeWorld,
    IS_SELL,
};
use stellar_swipe::{
    AccountId, AddressKind, AutoTradeContract, AutoTradeError, OrderType, TradeStatus,
};

fn user(n: u128) -> AccountId {
    AccountId::new(AddressKind::Account, 0xAB, n)
}

fn signal() -> SignalInfo {
    SignalInfo { expiry: 1_000, base_asset: 7, price: 250 }
}

fn request(amount: i128, order_type: OrderType) -> TradeRequest {
    TradeRequest { user: user(1), signal_id: 42, order_type, amount, now: 500 }
}

fn world(fill: i128) -> TradeWorld {
    TradeWorld {
        signal: Some(signal()),
        authorized: true,
        sufficient_balance: true,
        risk: Ok(false),
        market_fill: Ok(Execution { executed_amount: fill, executed_price: 260 }),
        limit_fill: Ok(Execution { executed_amount: fill / 2, executed_price: 255 }),
        position: Some(1_000),
    }
}

#[test]
fn trade_status_classifies_fills() {
    assert_eq!(trade_status(0, 100), TradeStatus::Failed);
    assert_eq!(trade_status(40, 100), TradeStatus::PartiallyFilled);
    assert_eq!(trade_status(100, 100), TradeStatus::Filled);
    assert_eq!(trade_status(150, 100), TradeStatus::Filled);
    assert_eq!(trade_status(-3, 100), TradeStatus::PartiallyFilled);
}

#[test]
fn history_status_maps_statuses() {
    assert_eq!(history_status(TradeStatus::Filled), HistoryTradeStatus::Executed);
    assert_eq!(history_status(TradeStatus::PartiallyFilled), HistoryTradeStatus::Executed);
    assert_eq!(history_status(TradeStatus::Failed), HistoryTradeStatus::Failed);
    assert_eq!(history_status(TradeStatus::Pending), HistoryTradeStatus::Pending);
}

#[test]
fn machine_asks_in_order_and_completes() {
    let req = request(100, OrderType::Market);
    let mut m = TradeMachine::new(req);
    assert!(m.accepts(&TradeEvent::Begin));
    assert_eq!(m.step(TradeEvent::Begin), TradeAction::RequireUserAuth);
    assert_eq!(m.step(TradeEvent::UserAuthenticated), TradeAction::LoadSignal { signal_id: 42 });
    assert_eq!(
        m.step(TradeEvent::SignalLoaded(Some(signal()))),
        TradeAction::CheckAuthorization { amount: 100 }
    );
    assert_eq!(
        m.step(TradeEvent::AuthorizationChecked(true)),
        TradeAction::CheckBalance { asset: 7, amount: 100 }
    );
    assert_eq!(
        m.step(TradeEvent::BalanceChecked(true)),
        TradeAction::AssessRisk { asset: 7, amount: 100, price: 250, is_sell: IS_SELL }
    );
    assert_eq!(
        m.step(TradeEvent::RiskAssessed(Ok(true))),
        TradeAction::ExecuteOrder {
            order_type: OrderType::Market,
            amount: 100,
            asset: 7,
            price: 250,
            stop_loss_triggered: true
        }
    );
    let fill = Execution { executed_amount: 60, executed_price: 260 };
    assert_eq!(m.step(TradeEvent::OrderExecuted(Ok(fill))), TradeAction::ReadPosition { asset: 7 });
    assert!(!m.accepts(&TradeEvent::Begin));
    assert!(m.accepts(&TradeEvent::PositionRead(None)));
    match m.step(TradeEvent::PositionRead(None)) {
        TradeAction::Finish(c) => {
            assert_eq!(c.trade.status, TradeStatus::PartiallyFilled);
            assert_eq!(c.trade.executed_amount, 60);
            assert_eq!(c.trade.timestamp, 500);
            let p = c.position.unwrap();
            assert_eq!((p.asset, p.amount, p.price), (7, 60, 260));
            let h = c.history.unwrap();
            assert_eq!(h.status, HistoryTradeStatus::Executed);
            assert_eq!((h.signal_id, h.amount, h.fee), (42, 60, 0));
            assert!(!c.risk_limit_block);
            assert!(c.stop_loss_triggered);
        }
        other => panic!("unexpected {:?}", other),
    }
    assert_eq!(m.stage, TradeStage::Done);
    assert!(!m.accepts(&TradeEvent::UserAuthenticated));
}

#[test]
fn machine_rejects_non_positive_amount_at_once() {
    for amount in [0i128, -1] {
        let mut m = TradeMachine::new(request(amount, OrderType::Market));
        assert_eq!(m.step(TradeEvent::Begin), TradeAction::Reject(AutoTradeError::InvalidAmount));
        assert_eq!(m.stage, TradeStage::Done);
    }
}

#[test]
fn machine_refuses_overflowing_position() {
    let mut m = TradeMachine::new(request(100, OrderType::Market));
    m.stage = TradeStage::AwaitingPosition(
        signal(),
        Execution { executed_amount: 10, executed_price: 1 },
        false,
    );
    assert!(!m.accepts(&TradeEvent::PositionRead(Some(i128::MAX))));
    assert!(m.accepts(&TradeEvent::PositionRead(Some(i128::MAX - 10))));
}

#[test]
fn run_trade_filled_market_order() {
    let c = run_trade(request(100, OrderType::Market), &world(100)).unwrap();
    assert_eq!(c.trade.status, TradeStatus::Filled);
    assert_eq!(c.trade.requested_amount, 100);
    assert_eq!(c.trade.executed_price, 260);
    assert_eq!(c.position.unwrap().amount, 1_100);
    assert!(!c.risk_limit_block);
}

#[test]
fn run_trade_limit_order_uses_limit_fill() {
    let c = run_trade(request(100, OrderType::Limit), &world(100)).unwrap();
    assert_eq!(c.trade.executed_amount, 50);
    assert_eq!(c.trade.executed_price, 255);
    assert_eq!(c.trade.status, TradeStatus::PartiallyFilled);
}

#[test]
fn run_trade_nothing_filled_blocks() {
    let c = run_trade(request(100, OrderType::Market), &world(0)).unwrap();
    assert_eq!(c.trade.status, TradeStatus::Failed);
    assert!(c.position.is_none());
    assert!(c.history.is_none());
    assert!(c.risk_limit_block);
}

#[test]
fn run_trade_errors_in_check_order() {
    let req = request(100, OrderType::Market);
    let mut w = world(100);
    w.signal = None;
    assert_eq!(run_trade(req, &w), Err(AutoTradeError::SignalNotFound));

    let mut w = world(100);
    w.signal = Some(SignalInfo { expiry: 499, ..signal() });
    w.authorized = false;
    assert_eq!(run_trade(req, &w), Err(AutoTradeError::SignalExpired));

    let mut w = world(100);
    w.signal = Some(SignalInfo { expiry: 500, ..signal() });
    assert!(run_trade(req, &w).is_ok());

    let mut w = world(100);
    w.authorized = false;
    w.sufficient_balance = false;
    assert_eq!(run_trade(req, &w), Err(AutoTradeError::Unauthorized));

    let mut w = world(100);
    w.sufficient_balance = false;
    assert_eq!(run_trade(req, &w), Err(AutoTradeError::InsufficientBalance));

    let mut w = world(100);
    w.risk = Err(AutoTradeError::PositionLimitExceeded);
    assert_eq!(run_trade(req, &w), Err(AutoTradeError::PositionLimitExceeded));

    let mut w = world(100);
    w.market_fill = Err(AutoTradeError::InsufficientLiquidity);
    assert_eq!(run_trade(req, &w), Err(AutoTradeError::InsufficientLiquidity));

    assert_eq!(
        run_trade(request(0, OrderType::Market), &world(100)),
        Err(AutoTradeError::InvalidAmount)
    );
}

#[test]
fn complete_trade_without_position_starts_from_zero() {
    let c = complete_trade(
        request(100, OrderType::Market),
        signal(),
        false,
        Execution { executed_amount: 30, executed_price: 5 },
        None,
    );
    assert_eq!(c.position.unwrap().amount, 30);
}

#[test]
fn get_trade_after_execute_trade() {
    let mut contract = AutoTradeContract::new();
    assert_eq!(contract.get_trade(user(1), 42), None);
    let result = contract
        .execute_trade(user(1), 42, OrderType::Market, 100, 500, &world(100))
        .unwrap();
    assert_eq!(contract.get_trade(user(1), 42), Some(result.trade));
    assert_eq!(result.trade.user, user(1));
    assert_eq!(result.trade.signal_id, 42);
    assert_eq!(contract.get_trade(user(2), 42), None);
    assert_eq!(contract.get_trade(user(1), 43), None);
}

#[test]
fn failed_trade_stores_nothing() {
    let mut contract = AutoTradeContract::new();
    let mut w = world(100);
    w.authorized = false;
    assert_eq!(
        contract.execute_trade(user(1), 42, OrderType::Market, 100, 500, &w),
        Err(AutoTradeError::Unauthorized)
    );
    assert_eq!(contract.get_trade(user(1), 42), None);
}

#[test]
fn later_trade_replaces_earlier() {
    let mut contract = AutoTradeContract::new();
    contract.execute_trade(user(1), 42, OrderType::Market, 100, 500, &world(100)).unwrap();
    let second = contract
        .execute_trade(user(1), 42, OrderType::Market, 100, 600, &world(0))
        .unwrap();
    assert_eq!(contract.get_trade(user(1), 42), Some(second.trade));
    assert_eq!(second.trade.status, TradeStatus::Failed);
    assert_eq!(second.trade.timestamp, 600);
}

#[test]
fn auto_trade_error_codes() {
    let all = [
        AutoTradeError::InvalidAmount,
        AutoTradeError::Unauthorized,
        AutoTradeError::SignalNotFound,
        AutoTradeError::SignalExpired,
        AutoTradeError::InsufficientBalance,
        AutoTradeError::InsufficientLiquidity,
        AutoTradeError::DailyTradeLimitExceeded,
        AutoTradeError::PositionLimitExceeded,
        AutoTradeError::StopLossTriggered,
        AutoTradeError::DcaStrategyNotFound,
        AutoTradeError::DcaStrategyInactive,
        AutoTradeError::DcaEndTimeReached,
        AutoTradeError::MrStrategyNotFound,
        AutoTradeError::MrInsufficientHistory,
        AutoTradeError::MrLowVolatility,
    ];
    for (i, e) in all.iter().enumerate() {
        assert_eq!(e.code(), i as u32 + 1);
        assert_eq!(AutoTradeError::from_code(i as u32 + 1), Some(*e));
    }
    assert_eq!(AutoTradeError::from_code(0), None);
    assert_eq!(AutoTradeError::from_code(16), None);
}

#[test]
fn completion_reports_stop_loss_from_risk_checks() {
    let mut w = world(100);
    assert!(!run_trade(request(100, OrderType::Market), &w).unwrap().stop_loss_triggered);
    w.risk = Ok(true);
    let c = run_trade(request(100, OrderType::Market), &w).unwrap();
    assert!(c.stop_loss_triggered);
    assert_eq!(c.result().trade, c.trade);
}

#[test]
fn execute_trade_returns_all_effects() {
    let mut contract = AutoTradeContract::new();
    let c = contract
        .execute_trade(user(1), 42, OrderType::Market, 100, 500, &world(40))
        .unwrap();
    let p = c.position.unwrap();
    assert_eq!((p.asset, p.amount, p.price), (7, 1_040, 260));
    let h = c.history.unwrap();
    assert_eq!((h.signal_id, h.asset, h.amount, h.price, h.fee), (42, 7, 40, 260, 0));
    assert_eq!(h.status, HistoryTradeStatus::Executed);
    assert!(!c.risk_limit_block);
    assert!(!c.stop_loss_triggered);
    assert_eq!(contract.get_trade(user(1), 42), Some(c.result().trade));
}

#[test]
fn latest_successful_trade_is_read_back() {
    let mut contract = AutoTradeContract::new();
    let first = contract
        .execute_trade(user(1), 42, OrderType::Market, 100, 500, &world(100))
        .unwrap();
    let mut refused = world(100);
    refused.sufficient_balance = false;
    assert!(contract.execute_trade(user(1), 42, OrderType::Market, 100, 700, &refused).is_err());
    assert_eq!(contract.get_trade(user(1), 42), Some(first.trade));
}
