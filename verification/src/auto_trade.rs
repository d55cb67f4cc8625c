use vstd::prelude::*;

use crate::account::AccountId;
use crate::errors::AutoTradeError;
use crate::keyed::{
    entry_map, keys_distinct, lemma_entry_map_absent, lemma_entry_map_at, lemma_entry_map_empty,
    lemma_entry_map_push, lemma_entry_map_update,
};

verus! {

/// How an order is placed on the exchange.
#[derive(Clone, Copy, Debug, PartialEq, Eq, Structural)]
pub enum OrderType {
    Market,
    Limit,
}

/// How much of a requested trade was filled.
#[derive(Clone, Copy, Debug, PartialEq, Eq, Structural)]
pub enum TradeStatus {
    Pending,
    PartiallyFilled,
    Filled,
    Failed,
}

/// A trade executed on behalf of a user for a signal.
#[derive(Clone, Copy, Debug, PartialEq, Eq, Structural)]
pub struct Trade {
    pub signal_id: u64,
    pub user: AccountId,
    pub requested_amount: i128,
    pub executed_amount: i128,
    pub executed_price: i128,
    pub timestamp: u64,
    pub status: TradeStatus,
}

/// What a successful `execute_trade` answers.
#[derive(Clone, Copy, Debug, PartialEq, Eq, Structural)]
pub struct TradeResult {
    pub trade: Trade,
}

/// The part of a stored trading signal that trade execution reads.
#[derive(Clone, Copy, Debug, PartialEq, Eq, Structural)]
pub struct SignalInfo {
    /// Ledger time after which the signal may no longer be traded.
    pub expiry: u64,
    /// The asset pair the signal trades.
    pub base_asset: u32,
    /// The price the signal quotes.
    pub price: i128,
}

/// What the exchange reports for a placed order.
#[derive(Clone, Copy, Debug, PartialEq, Eq, Structural)]
pub struct Execution {
    pub executed_amount: i128,
    pub executed_price: i128,
}

/// Status under which a trade enters the user's trade history.
#[derive(Clone, Copy, Debug, PartialEq, Eq, Structural)]
pub enum HistoryTradeStatus {
    Pending,
    Executed,
    Failed,
}

/// New size of the user's position in an asset after a fill.
#[derive(Clone, Copy, Debug, PartialEq, Eq, Structural)]
pub struct PositionUpdate {
    pub asset: u32,
    pub amount: i128,
    pub price: i128,
}

/// An entry of the user's trade history.
#[derive(Clone, Copy, Debug, PartialEq, Eq, Structural)]
pub struct HistoryRecord {
    pub signal_id: u64,
    pub asset: u32,
    pub amount: i128,
    pub price: i128,
    pub fee: i128,
    pub status: HistoryTradeStatus,
}

/// Everything a completed trade writes and announces: the trade itself
/// (stored under the user and signal, and announced as `trade_executed`), the
/// new position and the trade record (present when something was filled),
/// the history entry (likewise), whether a stop-loss on the signal's asset
/// was announced (when the risk checks reported one), and whether a
/// risk-limit block is announced (when nothing was filled).
#[derive(Clone, Copy, Debug, PartialEq, Eq, Structural)]
pub struct TradeCompletion {
    pub trade: Trade,
    pub position: Option<PositionUpdate>,
    pub history: Option<HistoryRecord>,
    pub stop_loss_triggered: bool,
    pub risk_limit_block: bool,
}

/// A request to trade `amount` of a signal for `user`, made at ledger time
/// `now`.
#[derive(Clone, Copy, Debug, PartialEq, Eq, Structural)]
pub struct TradeRequest {
    pub user: AccountId,
    pub signal_id: u64,
    pub order_type: OrderType,
    pub amount: i128,
    pub now: u64,
}

/// Trades placed by this contract are buys; a sell would shrink the position.
pub const IS_SELL: bool = false;

/// Status of a trade from what was filled of what was requested.
pub open spec fn status_for(executed: i128, requested: i128) -> TradeStatus {
    if executed == 0 {
        TradeStatus::Failed
    } else if executed < requested {
        TradeStatus::PartiallyFilled
    } else {
        TradeStatus::Filled
    }
}

/// Classifies a fill: nothing filled is a failure, less than requested is a
/// partial fill, otherwise the trade is filled.
pub fn trade_status(executed: i128, requested: i128) -> (r: TradeStatus)
    ensures
        r == status_for(executed, requested),
{
    if executed == 0 {
        TradeStatus::Failed
    } else if executed < requested {
        TradeStatus::PartiallyFilled
    } else {
        TradeStatus::Filled
    }
}

/// History status of a trade status.
pub open spec fn history_status_of(s: TradeStatus) -> HistoryTradeStatus {
    match s {
        TradeStatus::Filled | TradeStatus::PartiallyFilled => HistoryTradeStatus::Executed,
        TradeStatus::Failed => HistoryTradeStatus::Failed,
        TradeStatus::Pending => HistoryTradeStatus::Pending,
    }
}

/// Filled and partially filled trades are recorded as executed; failed and
/// pending ones keep their status.
pub fn history_status(s: TradeStatus) -> (r: HistoryTradeStatus)
    ensures
        r == history_status_of(s),
{
    match s {
        TradeStatus::Filled | TradeStatus::PartiallyFilled => HistoryTradeStatus::Executed,
        TradeStatus::Failed => HistoryTradeStatus::Failed,
        TradeStatus::Pending => HistoryTradeStatus::Pending,
    }
}

/// Size of a position of `current` after a fill of `executed`.
pub open spec fn position_after(current: i128, executed: i128) -> int {
    if IS_SELL {
        current - executed
    } else {
        current + executed
    }
}

/// Whether the position after a fill is representable.
pub open spec fn position_fits(current: Option<i128>, executed: i128) -> bool {
    let c = match current {
        Some(a) => a,
        None => 0,
    };
    i128::MIN <= position_after(c, executed) <= i128::MAX
}

/// What a trade writes once the order came back with `x`, `stop_loss`
/// telling whether the risk checks reported a stop-loss; `current` is the
/// user's position in the asset (absent when none is held), read only when
/// something was filled.
pub open spec fn completion_of(
    req: TradeRequest,
    s: SignalInfo,
    stop_loss: bool,
    x: Execution,
    current: Option<i128>,
) -> TradeCompletion {
    let status = status_for(x.executed_amount, req.amount);
    let c = match current {
        Some(a) => a,
        None => 0,
    };
    TradeCompletion {
        trade: Trade {
            signal_id: req.signal_id,
            user: req.user,
            requested_amount: req.amount,
            executed_amount: x.executed_amount,
            executed_price: x.executed_price,
            timestamp: req.now,
            status,
        },
        position: if x.executed_amount > 0 {
            Some(
                PositionUpdate {
                    asset: s.base_asset,
                    amount: position_after(c, x.executed_amount) as i128,
                    price: x.executed_price,
                },
            )
        } else {
            None
        },
        history: if x.executed_amount > 0 {
            Some(
                HistoryRecord {
                    signal_id: req.signal_id,
                    asset: s.base_asset,
                    amount: x.executed_amount,
                    price: x.executed_price,
                    fee: 0,
                    status: history_status_of(status),
                },
            )
        } else {
            None
        },
        stop_loss_triggered: stop_loss,
        risk_limit_block: status == TradeStatus::Failed,
    }
}

/// Where a trade stands: which answer from the ledger it waits for, and what
/// it has learned so far.
#[derive(Clone, Copy, Debug, PartialEq, Eq, Structural)]
pub enum TradeStage {
    /// Nothing checked yet.
    Start,
    /// Waiting for the user's authorization of the call.
    AwaitingUserAuth,
    /// Waiting for the stored signal.
    AwaitingSignal,
    /// Waiting for the user's trading authorization for the amount.
    AwaitingAuthorization(SignalInfo),
    /// Waiting for the balance check.
    AwaitingBalance(SignalInfo),
    /// Waiting for the risk checks.
    AwaitingRisk(SignalInfo),
    /// Waiting for the exchange to report the order.
    AwaitingExecution(SignalInfo, bool),
    /// Waiting for the user's current position in the asset.
    AwaitingPosition(SignalInfo, Execution, bool),
    /// Finished or rejected.
    Done,
}

/// An answer from the ledger to the last action.
#[derive(Clone, Copy, Debug, PartialEq, Eq)]
pub enum TradeEvent {
    /// The request arrives.
    Begin,
    /// The user authorized the call.
    UserAuthenticated,
    /// The stored signal, if one exists under the requested id.
    SignalLoaded(Option<SignalInfo>),
    /// Whether the user authorized trading the amount.
    AuthorizationChecked(bool),
    /// Whether the user holds enough of the asset.
    BalanceChecked(bool),
    /// Whether a stop-loss fired, or the risk error.
    RiskAssessed(Result<bool, AutoTradeError>),
    /// The order's fill, or the exchange error.
    OrderExecuted(Result<Execution, AutoTradeError>),
    /// The user's position amount in the asset, if one is held.
    PositionRead(Option<i128>),
}

/// What the ledger side is asked to do next.
#[derive(Clone, Copy, Debug, PartialEq, Eq)]
pub enum TradeAction {
    /// Require the user's authorization of this call.
    RequireUserAuth,
    /// Read the signal stored under `signal_id`.
    LoadSignal { signal_id: u64 },
    /// Check the user's trading authorization for `amount`.
    CheckAuthorization { amount: i128 },
    /// Check that the user holds `amount` of `asset`.
    CheckBalance { asset: u32, amount: i128 },
    /// Set the asset's price, then run the risk checks on the trade.
    AssessRisk { asset: u32, amount: i128, price: i128, is_sell: bool },
    /// Announce a stop-loss on `asset` at `price` if one fired, then place
    /// the order.
    ExecuteOrder {
        order_type: OrderType,
        amount: i128,
        asset: u32,
        price: i128,
        stop_loss_triggered: bool,
    },
    /// Read the user's position amount in `asset`.
    ReadPosition { asset: u32 },
    /// Write and announce the completed trade, then answer with it.
    Finish(TradeCompletion),
    /// Answer with the error.
    Reject(AutoTradeError),
}

/// Whether an action ends the trade.
pub open spec fn is_final(a: TradeAction) -> bool {
    a is Finish || a is Reject
}

/// Whether `ev` is an answer the trade can take in stage `st`.
pub open spec fn stage_accepts(st: TradeStage, ev: TradeEvent) -> bool {
    match st {
        TradeStage::Start => ev is Begin,
        TradeStage::AwaitingUserAuth => ev is UserAuthenticated,
        TradeStage::AwaitingSignal => ev is SignalLoaded,
        TradeStage::AwaitingAuthorization(_) => ev is AuthorizationChecked,
        TradeStage::AwaitingBalance(_) => ev is BalanceChecked,
        TradeStage::AwaitingRisk(_) => ev is RiskAssessed,
        TradeStage::AwaitingExecution(_, _) => ev is OrderExecuted,
        TradeStage::AwaitingPosition(_, x, _) => match ev {
            TradeEvent::PositionRead(p) => position_fits(p, x.executed_amount),
            _ => false,
        },
        TradeStage::Done => false,
    }
}

/// The next stage and action of a trade for `req` in stage `st` on answer
/// `ev`: the checks of `execute_trade` in their order, each failing one
/// ending the trade with its error.
pub open spec fn next_step(req: TradeRequest, st: TradeStage, ev: TradeEvent) -> (
    TradeStage,
    TradeAction,
) {
    match (st, ev) {
        (TradeStage::Start, _) => if req.amount <= 0 {
            (TradeStage::Done, TradeAction::Reject(AutoTradeError::InvalidAmount))
        } else {
            (TradeStage::AwaitingUserAuth, TradeAction::RequireUserAuth)
        },
        (TradeStage::AwaitingUserAuth, _) => (
            TradeStage::AwaitingSignal,
            TradeAction::LoadSignal { signal_id: req.signal_id },
        ),
        (TradeStage::AwaitingSignal, TradeEvent::SignalLoaded(found)) => match found {
            None => (TradeStage::Done, TradeAction::Reject(AutoTradeError::SignalNotFound)),
            Some(s) => if req.now > s.expiry {
                (TradeStage::Done, TradeAction::Reject(AutoTradeError::SignalExpired))
            } else {
                (
                    TradeStage::AwaitingAuthorization(s),
                    TradeAction::CheckAuthorization { amount: req.amount },
                )
            },
        },
        (TradeStage::AwaitingAuthorization(s), TradeEvent::AuthorizationChecked(ok)) => if !ok {
            (TradeStage::Done, TradeAction::Reject(AutoTradeError::Unauthorized))
        } else {
            (
                TradeStage::AwaitingBalance(s),
                TradeAction::CheckBalance { asset: s.base_asset, amount: req.amount },
            )
        },
        (TradeStage::AwaitingBalance(s), TradeEvent::BalanceChecked(ok)) => if !ok {
            (TradeStage::Done, TradeAction::Reject(AutoTradeError::InsufficientBalance))
        } else {
            (
                TradeStage::AwaitingRisk(s),
                TradeAction::AssessRisk {
                    asset: s.base_asset,
                    amount: req.amount,
                    price: s.price,
                    is_sell: IS_SELL,
                },
            )
        },
        (TradeStage::AwaitingRisk(s), TradeEvent::RiskAssessed(risk)) => match risk {
            Err(e) => (TradeStage::Done, TradeAction::Reject(e)),
            Ok(stop_loss) => (
                TradeStage::AwaitingExecution(s, stop_loss),
                TradeAction::ExecuteOrder {
                    order_type: req.order_type,
                    amount: req.amount,
                    asset: s.base_asset,
                    price: s.price,
                    stop_loss_triggered: stop_loss,
                },
            ),
        },
        (TradeStage::AwaitingExecution(s, stop), TradeEvent::OrderExecuted(fill)) => match fill {
            Err(e) => (TradeStage::Done, TradeAction::Reject(e)),
            Ok(x) => if x.executed_amount > 0 {
                (
                    TradeStage::AwaitingPosition(s, x, stop),
                    TradeAction::ReadPosition { asset: s.base_asset },
                )
            } else {
                (TradeStage::Done, TradeAction::Finish(completion_of(req, s, stop, x, None)))
            },
        },
        (TradeStage::AwaitingPosition(s, x, stop), TradeEvent::PositionRead(p)) => (
            TradeStage::Done,
            TradeAction::Finish(completion_of(req, s, stop, x, p)),
        ),
        _ => (st, TradeAction::Reject(AutoTradeError::InvalidAmount)),
    }
}

/// The decision procedure of one trade execution. The ledger side performs
/// each action it returns and hands back the answer as the next event.
#[derive(Clone, Copy, Debug, PartialEq, Eq, Structural)]
pub struct TradeMachine {
    pub request: TradeRequest,
    pub stage: TradeStage,
}

impl TradeMachine {
    /// A trade for `request` that has checked nothing yet.
    pub fn new(request: TradeRequest) -> (r: TradeMachine)
        ensures
            r.request == request,
            r.stage == TradeStage::Start,
    {
        TradeMachine { request, stage: TradeStage::Start }
    }

    /// Whether `event` answers what this trade waits for; a position read
    /// must also leave the new position representable.
    pub fn accepts(&self, event: &TradeEvent) -> (r: bool)
        ensures
            r == stage_accepts(self.stage, *event),
    {
        match (self.stage, *event) {
            (TradeStage::Start, TradeEvent::Begin) => true,
            (TradeStage::AwaitingUserAuth, TradeEvent::UserAuthenticated) => true,
            (TradeStage::AwaitingSignal, TradeEvent::SignalLoaded(_)) => true,
            (TradeStage::AwaitingAuthorization(_), TradeEvent::AuthorizationChecked(_)) => true,
            (TradeStage::AwaitingBalance(_), TradeEvent::BalanceChecked(_)) => true,
            (TradeStage::AwaitingRisk(_), TradeEvent::RiskAssessed(_)) => true,
            (TradeStage::AwaitingExecution(_, _), TradeEvent::OrderExecuted(_)) => true,
            (TradeStage::AwaitingPosition(_, x, _), TradeEvent::PositionRead(p)) => {
                let c: i128 = match p {
                    Some(a) => a,
                    None => 0,
                };
                if IS_SELL {
                    c.checked_sub(x.executed_amount).is_some()
                } else {
                    c.checked_add(x.executed_amount).is_some()
                }
            },
            _ => false,
        }
    }

    /// Takes the answer to the last action and returns the next action.
    pub fn step(&mut self, event: TradeEvent) -> (a: TradeAction)
        requires
            stage_accepts(old(self).stage, event),
        ensures
            final(self).request == old(self).request,
            (final(self).stage, a) == next_step(old(self).request, old(self).stage, event),
    {
        let req = self.request;
        match (self.stage, event) {
            (TradeStage::Start, _) => {
                if req.amount <= 0 {
                    self.stage = TradeStage::Done;
                    TradeAction::Reject(AutoTradeError::InvalidAmount)
                } else {
                    self.stage = TradeStage::AwaitingUserAuth;
                    TradeAction::RequireUserAuth
                }
            },
            (TradeStage::AwaitingUserAuth, _) => {
                self.stage = TradeStage::AwaitingSignal;
                TradeAction::LoadSignal { signal_id: req.signal_id }
            },
            (TradeStage::AwaitingSignal, TradeEvent::SignalLoaded(found)) => match found {
                None => {
                    self.stage = TradeStage::Done;
                    TradeAction::Reject(AutoTradeError::SignalNotFound)
                },
                Some(s) => {
                    if req.now > s.expiry {
                        self.stage = TradeStage::Done;
                        TradeAction::Reject(AutoTradeError::SignalExpired)
                    } else {
                        self.stage = TradeStage::AwaitingAuthorization(s);
                        TradeAction::CheckAuthorization { amount: req.amount }
                    }
                },
            },
            (TradeStage::AwaitingAuthorization(s), TradeEvent::AuthorizationChecked(ok)) => {
                if !ok {
                    self.stage = TradeStage::Done;
                    TradeAction::Reject(AutoTradeError::Unauthorized)
                } else {
                    self.stage = TradeStage::AwaitingBalance(s);
                    TradeAction::CheckBalance { asset: s.base_asset, amount: req.amount }
                }
            },
            (TradeStage::AwaitingBalance(s), TradeEvent::BalanceChecked(ok)) => {
                if !ok {
                    self.stage = TradeStage::Done;
                    TradeAction::Reject(AutoTradeError::InsufficientBalance)
                } else {
                    self.stage = TradeStage::AwaitingRisk(s);
                    TradeAction::AssessRisk {
                        asset: s.base_asset,
                        amount: req.amount,
                        price: s.price,
                        is_sell: IS_SELL,
                    }
                }
            },
            (TradeStage::AwaitingRisk(s), TradeEvent::RiskAssessed(risk)) => match risk {
                Err(e) => {
                    self.stage = TradeStage::Done;
                    TradeAction::Reject(e)
                },
                Ok(stop_loss) => {
                    self.stage = TradeStage::AwaitingExecution(s, stop_loss);
                    TradeAction::ExecuteOrder {
                        order_type: req.order_type,
                        amount: req.amount,
                        asset: s.base_asset,
                        price: s.price,
                        stop_loss_triggered: stop_loss,
                    }
                },
            },
            (TradeStage::AwaitingExecution(s, stop), TradeEvent::OrderExecuted(fill)) => match fill {
                Err(e) => {
                    self.stage = TradeStage::Done;
                    TradeAction::Reject(e)
                },
                Ok(x) => {
                    if x.executed_amount > 0 {
                        self.stage = TradeStage::AwaitingPosition(s, x, stop);
                        TradeAction::ReadPosition { asset: s.base_asset }
                    } else {
                        self.stage = TradeStage::Done;
                        TradeAction::Finish(complete_trade(req, s, stop, x, None))
                    }
                },
            },
            (TradeStage::AwaitingPosition(s, x, stop), TradeEvent::PositionRead(p)) => {
                self.stage = TradeStage::Done;
                TradeAction::Finish(complete_trade(req, s, stop, x, p))
            },
            _ => {
                assert(false);
                TradeAction::Reject(AutoTradeError::InvalidAmount)
            },
        }
    }
}

/// Builds what a trade writes once the order came back with `x`.
pub fn complete_trade(
    req: TradeRequest,
    s: SignalInfo,
    stop_loss: bool,
    x: Execution,
    current: Option<i128>,
) -> (r: TradeCompletion)
    requires
        x.executed_amount > 0 ==> position_fits(current, x.executed_amount),
    ensures
        r == completion_of(req, s, stop_loss, x, current),
{
    let status = trade_status(x.executed_amount, req.amount);
    let trade = Trade {
        signal_id: req.signal_id,
        user: req.user,
        requested_amount: req.amount,
        executed_amount: x.executed_amount,
        executed_price: x.executed_price,
        timestamp: req.now,
        status,
    };
    if x.executed_amount > 0 {
        let c: i128 = match current {
            Some(a) => a,
            None => 0,
        };
        let new_amount: i128 = if IS_SELL {
            c - x.executed_amount
        } else {
            c + x.executed_amount
        };
        TradeCompletion {
            trade,
            position: Some(
                PositionUpdate { asset: s.base_asset, amount: new_amount, price: x.executed_price },
            ),
            history: Some(
                HistoryRecord {
                    signal_id: req.signal_id,
                    asset: s.base_asset,
                    amount: x.executed_amount,
                    price: x.executed_price,
                    fee: 0,
                    status: history_status(status),
                },
            ),
            stop_loss_triggered: stop_loss,
            risk_limit_block: status == TradeStatus::Failed,
        }
    } else {
        TradeCompletion {
            trade,
            position: None,
            history: None,
            stop_loss_triggered: stop_loss,
            risk_limit_block: status == TradeStatus::Failed,
        }
    }
}


/// The answers the ledger gives to every question a trade may ask: the
/// stored signal, the user's trading authorization and balance, the risk
/// checks, the fill of a market and of a limit order, and the position held.
#[derive(Clone, Copy, Debug, PartialEq, Eq)]
pub struct TradeWorld {
    pub signal: Option<SignalInfo>,
    pub authorized: bool,
    pub sufficient_balance: bool,
    pub risk: Result<bool, AutoTradeError>,
    pub market_fill: Result<Execution, AutoTradeError>,
    pub limit_fill: Result<Execution, AutoTradeError>,
    pub position: Option<i128>,
}

/// The fill the world reports for an order of type `t`.
pub open spec fn fill_for(w: TradeWorld, t: OrderType) -> Result<Execution, AutoTradeError> {
    match t {
        OrderType::Market => w.market_fill,
        OrderType::Limit => w.limit_fill,
    }
}

/// What executing `req` against the answers in `w` comes to: the first
/// failing check's error (amount, signal, expiry, authorization, balance,
/// risk, order), or what the completed trade writes.
pub open spec fn trade_outcome(req: TradeRequest, w: TradeWorld) -> Result<
    TradeCompletion,
    AutoTradeError,
> {
    if req.amount <= 0 {
        Err(AutoTradeError::InvalidAmount)
    } else {
        match w.signal {
            None => Err(AutoTradeError::SignalNotFound),
            Some(s) => if req.now > s.expiry {
                Err(AutoTradeError::SignalExpired)
            } else if !w.authorized {
                Err(AutoTradeError::Unauthorized)
            } else if !w.sufficient_balance {
                Err(AutoTradeError::InsufficientBalance)
            } else {
                match w.risk {
                    Err(e) => Err(e),
                    Ok(stop_loss) => match fill_for(w, req.order_type) {
                        Err(e) => Err(e),
                        Ok(x) => Ok(
                            completion_of(
                                req,
                                s,
                                stop_loss,
                                x,
                                if x.executed_amount > 0 {
                                    w.position
                                } else {
                                    None
                                },
                            ),
                        ),
                    },
                }
            },
        }
    }
}

/// Whether executing `req` against `w` gets as far as reading the position.
pub open spec fn reaches_position(req: TradeRequest, w: TradeWorld) -> bool {
    &&& req.amount > 0
    &&& w.signal matches Some(s)
    &&& req.now <= s.expiry
    &&& w.authorized
    &&& w.sufficient_balance
    &&& w.risk is Ok
    &&& fill_for(w, req.order_type) matches Ok(x)
    &&& x.executed_amount > 0
}

/// Whether the position a trade would write is representable (the ledger
/// side panics on overflow otherwise).
pub open spec fn trade_fits(req: TradeRequest, w: TradeWorld) -> bool {
    reaches_position(req, w) ==> position_fits(w.position, fill_for(w, req.order_type)->Ok_0.executed_amount)
}

/// The answer the world gives in stage `st`.
pub open spec fn world_answer(w: TradeWorld, req: TradeRequest, st: TradeStage) -> TradeEvent {
    match st {
        TradeStage::Start => TradeEvent::Begin,
        TradeStage::AwaitingUserAuth => TradeEvent::UserAuthenticated,
        TradeStage::AwaitingSignal => TradeEvent::SignalLoaded(w.signal),
        TradeStage::AwaitingAuthorization(_) => TradeEvent::AuthorizationChecked(w.authorized),
        TradeStage::AwaitingBalance(_) => TradeEvent::BalanceChecked(w.sufficient_balance),
        TradeStage::AwaitingRisk(_) => TradeEvent::RiskAssessed(w.risk),
        TradeStage::AwaitingExecution(_, _) => TradeEvent::OrderExecuted(
            fill_for(w, req.order_type),
        ),
        TradeStage::AwaitingPosition(_, _, _) => TradeEvent::PositionRead(w.position),
        TradeStage::Done => TradeEvent::Begin,
    }
}

/// What a trade in stage `st` has established about `w`.
spec fn on_track(w: TradeWorld, req: TradeRequest, st: TradeStage) -> bool {
    match st {
        TradeStage::Start => true,
        TradeStage::AwaitingUserAuth => req.amount > 0,
        TradeStage::AwaitingSignal => req.amount > 0,
        TradeStage::AwaitingAuthorization(s) => req.amount > 0 && w.signal == Some(s)
            && req.now <= s.expiry,
        TradeStage::AwaitingBalance(s) => req.amount > 0 && w.signal == Some(s) && req.now
            <= s.expiry && w.authorized,
        TradeStage::AwaitingRisk(s) => req.amount > 0 && w.signal == Some(s) && req.now
            <= s.expiry && w.authorized && w.sufficient_balance,
        TradeStage::AwaitingExecution(s, stop) => req.amount > 0 && w.signal == Some(s) && req.now
            <= s.expiry && w.authorized && w.sufficient_balance && w.risk == Ok::<
            bool,
            AutoTradeError,
        >(stop),
        TradeStage::AwaitingPosition(s, x, stop) => req.amount > 0 && w.signal == Some(s)
            && req.now <= s.expiry && w.authorized && w.sufficient_balance && w.risk == Ok::<
            bool,
            AutoTradeError,
        >(stop) && fill_for(
            w,
            req.order_type,
        ) == Ok::<Execution, AutoTradeError>(x) && x.executed_amount > 0,
        TradeStage::Done => false,
    }
}

/// Ordering of stages by how much is left to do.
spec fn stages_left(st: TradeStage) -> nat {
    match st {
        TradeStage::Start => 8,
        TradeStage::AwaitingUserAuth => 7,
        TradeStage::AwaitingSignal => 6,
        TradeStage::AwaitingAuthorization(_) => 5,
        TradeStage::AwaitingBalance(_) => 4,
        TradeStage::AwaitingRisk(_) => 3,
        TradeStage::AwaitingExecution(_, _) => 2,
        TradeStage::AwaitingPosition(_, _, _) => 1,
        TradeStage::Done => 0,
    }
}

impl TradeWorld {
    /// The answer to a non-final action.
    pub fn answer(&self, action: &TradeAction) -> (r: TradeEvent)
        ensures
            match *action {
                TradeAction::RequireUserAuth => r == TradeEvent::UserAuthenticated,
                TradeAction::LoadSignal { .. } => r == TradeEvent::SignalLoaded(self.signal),
                TradeAction::CheckAuthorization { .. } => r == TradeEvent::AuthorizationChecked(
                    self.authorized,
                ),
                TradeAction::CheckBalance { .. } => r == TradeEvent::BalanceChecked(
                    self.sufficient_balance,
                ),
                TradeAction::AssessRisk { .. } => r == TradeEvent::RiskAssessed(self.risk),
                TradeAction::ExecuteOrder { order_type, .. } => r == TradeEvent::OrderExecuted(
                    fill_for(*self, order_type),
                ),
                TradeAction::ReadPosition { .. } => r == TradeEvent::PositionRead(self.position),
                _ => r == TradeEvent::Begin,
            },
    {
        match *action {
            TradeAction::RequireUserAuth => TradeEvent::UserAuthenticated,
            TradeAction::LoadSignal { .. } => TradeEvent::SignalLoaded(self.signal),
            TradeAction::CheckAuthorization { .. } => TradeEvent::AuthorizationChecked(
                self.authorized,
            ),
            TradeAction::CheckBalance { .. } => TradeEvent::BalanceChecked(self.sufficient_balance),
            TradeAction::AssessRisk { .. } => TradeEvent::RiskAssessed(self.risk),
            TradeAction::ExecuteOrder { order_type, .. } => TradeEvent::OrderExecuted(
                match order_type {
                    OrderType::Market => self.market_fill,
                    OrderType::Limit => self.limit_fill,
                },
            ),
            TradeAction::ReadPosition { .. } => TradeEvent::PositionRead(self.position),
            _ => TradeEvent::Begin,
        }
    }
}

/// Runs a trade for `req` to its end, answering each action from `w`.
pub fn run_trade(req: TradeRequest, w: &TradeWorld) -> (r: Result<TradeCompletion, AutoTradeError>)
    requires
        trade_fits(req, *w),
    ensures
        r == trade_outcome(req, *w),
{
    let mut m = TradeMachine::new(req);
    let mut event = TradeEvent::Begin;
    loop
        invariant
            m.request == req,
            trade_fits(req, *w),
            on_track(*w, req, m.stage),
            event == world_answer(*w, req, m.stage),
        decreases stages_left(m.stage),
    {
        let action = m.step(event);
        match action {
            TradeAction::Finish(c) => {
                return Ok(c);
            },
            TradeAction::Reject(e) => {
                return Err(e);
            },
            _ => {
                event = w.answer(&action);
            },
        }
    }
}


/// Key under which a trade is stored: the user and the signal traded.
#[derive(Clone, Copy, Debug, PartialEq, Eq, Structural)]
pub struct TradeKey {
    pub user: AccountId,
    pub signal_id: u64,
}

/// The auto-trade contract's trade storage: the last trade executed for each
/// user and signal.
pub struct AutoTradeContract {
    trades: Vec<(TradeKey, Trade)>,
}

impl View for AutoTradeContract {
    type V = Map<TradeKey, Trade>;

    closed spec fn view(&self) -> Map<TradeKey, Trade> {
        entry_map(self.trades@)
    }
}

/// What reading the trade of `user` for `signal_id` answers.
pub open spec fn trade_of(v: Map<TradeKey, Trade>, user: AccountId, signal_id: u64) -> Option<Trade> {
    let key = TradeKey { user, signal_id };
    if v.dom().contains(key) {
        Some(v[key])
    } else {
        None
    }
}

/// The stored trades after executing `req` against `w`: the completed
/// trade replaces what was stored under its user and signal; a refused trade
/// stores nothing.
pub open spec fn trades_after_call(v: Map<TradeKey, Trade>, req: TradeRequest, w: TradeWorld) -> Map<
    TradeKey,
    Trade,
> {
    match trade_outcome(req, w) {
        Ok(c) => v.insert(TradeKey { user: req.user, signal_id: req.signal_id }, c.trade),
        Err(_) => v,
    }
}

impl TradeCompletion {
    /// What the contract answers for this trade.
    pub fn result(&self) -> (r: TradeResult)
        ensures
            r == (TradeResult { trade: self.trade }),
    {
        TradeResult { trade: self.trade }
    }
}

impl AutoTradeContract {
    /// Each key is stored once.
    pub closed spec fn wf(&self) -> bool {
        keys_distinct(self.trades@)
    }

    /// A contract with no stored trades.
    pub fn new() -> (r: AutoTradeContract)
        ensures
            r.wf(),
            r@ == Map::<TradeKey, Trade>::empty(),
    {
        proof {
            lemma_entry_map_empty::<TradeKey, Trade>();
        }
        AutoTradeContract { trades: Vec::new() }
    }

    /// Index of the entry stored under `key`, if any.
    fn find_trade(&self, key: &TradeKey) -> (r: Option<usize>)
        requires
            self.wf(),
        ensures
            match r {
                Some(i) => i < self.trades@.len() && self.trades@[i as int].0 == *key,
                None => forall|i: int| 0 <= i < self.trades@.len() ==> self.trades@[i].0 != *key,
            },
    {
        let n = self.trades.len();
        let mut i: usize = 0;
        while i < n
            invariant
                n == self.trades@.len(),
                i <= n,
                forall|j: int| 0 <= j < i ==> self.trades@[j].0 != *key,
            decreases n - i,
        {
            if self.trades[i].0 == *key {
                return Some(i);
            }
            i = i + 1;
        }
        None
    }

    /// The trade stored for `user` and `signal_id`, if any.
    pub fn get_trade(&self, user: AccountId, signal_id: u64) -> (r: Option<Trade>)
        requires
            self.wf(),
        ensures
            r == trade_of(self@, user, signal_id),
    {
        let key = TradeKey { user, signal_id };
        match self.find_trade(&key) {
            Some(i) => {
                proof {
                    lemma_entry_map_at(self.trades@, i as int);
                }
                Some(self.trades[i].1)
            },
            None => {
                proof {
                    lemma_entry_map_absent(self.trades@, key);
                }
                None
            },
        }
    }

    /// Stores `trade` under its user and signal, replacing what was there.
    fn put_trade(&mut self, trade: Trade)
        requires
            old(self).wf(),
        ensures
            final(self).wf(),
            final(self)@ == old(self)@.insert(
                TradeKey { user: trade.user, signal_id: trade.signal_id },
                trade,
            ),
    {
        let key = TradeKey { user: trade.user, signal_id: trade.signal_id };
        match self.find_trade(&key) {
            Some(i) => {
                proof {
                    lemma_entry_map_update(self.trades@, i as int, trade);
                }
                self.trades.set(i, (key, trade));
            },
            None => {
                proof {
                    lemma_entry_map_absent(self.trades@, key);
                    lemma_entry_map_push(self.trades@, (key, trade));
                }
                self.trades.push((key, trade));
            },
        }
    }

    /// Executes a trade of `amount` for `user` on signal `signal_id` at
    /// ledger time `now`, with `world` answering the ledger's questions. On
    /// success the trade is stored under the user and signal, and everything
    /// the trade writes and announces is returned: the trade (its
    /// `TradeResult`), the new position, the trade record and history entry,
    /// the stop-loss and risk-limit announcements. On failure the first
    /// failing check's error is returned and nothing is stored.
    pub fn execute_trade(
        &mut self,
        user: AccountId,
        signal_id: u64,
        order_type: OrderType,
        amount: i128,
        now: u64,
        world: &TradeWorld,
    ) -> (r: Result<TradeCompletion, AutoTradeError>)
        requires
            old(self).wf(),
            trade_fits(TradeRequest { user, signal_id, order_type, amount, now }, *world),
        ensures
            final(self).wf(),
            r == trade_outcome(TradeRequest { user, signal_id, order_type, amount, now }, *world),
            final(self)@ == trades_after_call(
                old(self)@,
                TradeRequest { user, signal_id, order_type, amount, now },
                *world,
            ),
    {
        let req = TradeRequest { user, signal_id, order_type, amount, now };
        match run_trade(req, world) {
            Ok(c) => {
                self.put_trade(c.trade);
                Ok(c)
            },
            Err(e) => Err(e),
        }
    }
}

} // verus!
