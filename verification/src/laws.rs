//! Properties that hold across calls of the contracts' operations, stated
//! over the step functions their contracts use.
use vstd::prelude::*;

use crate::account::AccountId;
use crate::auto_trade::{
    IS_SELL, OrderType,
    completion_of, fill_for, is_final, position_fits, trade_fits, trades_after_call, next_step, stage_accepts, status_for, trade_of, trade_outcome,
    Execution, HistoryRecord, HistoryTradeStatus, PositionUpdate, SignalInfo, Trade, TradeAction, TradeCompletion, TradeEvent,
    TradeKey, TradeRequest, TradeStage, TradeStatus, TradeWorld,
};
use crate::errors::AutoTradeError;
use crate::fee_collector::{
    claim_fees_step, clamp_fee, collect_fee_outcome, default_fee_config, fee_config_is_valid,
    fee_error_code, fee_error_from_code, initialize_step, pending_fees_of, pending_or_zero,
    set_fee_config_step, set_pending_fees_step, FeeCollectorError, FeeCollectorView, FeeConfig,
    StorageKey,
};

verus! {

/// Every fee-collector error is recovered from its own code, and the codes
/// are 1 to 4.
pub proof fn law_fee_error_code_round_trip(e: FeeCollectorError)
    ensures
        fee_error_from_code(fee_error_code(e)) == Some(e),
        1 <= fee_error_code(e) <= 4,
{
}

/// A code that stands for a fee-collector error is that error's code.
pub proof fn law_fee_error_code_decodes_exactly(code: u32)
    ensures
        fee_error_from_code(code) matches Some(e) ==> fee_error_code(e) == code,
        fee_error_from_code(code) is Some <==> 1 <= code <= 4,
{
}

/// The configuration an initialized contract starts with is valid, and
/// initializing keeps the pending fees.
pub proof fn law_initialize_sets_valid_default(v: FeeCollectorView, admin: AccountId)
    ensures
        initialize_step(v, admin).fee_config == Some(default_fee_config()),
        fee_config_is_valid(default_fee_config()),
        initialize_step(v, admin).pending == v.pending,
        initialize_step(v, admin).admin == Some(admin),
{
}

/// Reading the configuration after a successful `set_fee_config` gives back
/// the configuration written.
pub proof fn law_fee_config_read_after_write(v: FeeCollectorView, config: FeeConfig)
    requires
        fee_config_is_valid(config),
    ensures
        set_fee_config_step(v, config).1 is Ok,
        set_fee_config_step(v, config).0.fee_config == Some(config),
{
}

/// A refused configuration leaves the storage as it was.
pub proof fn law_invalid_fee_config_changes_nothing(v: FeeCollectorView, config: FeeConfig)
    requires
        !fee_config_is_valid(config),
    ensures
        set_fee_config_step(v, config) == (v, Err::<(), FeeCollectorError>(
            FeeCollectorError::InvalidAmount,
        )),
{
}

/// A collected fee lies between the floor and the cap and never exceeds the
/// trade.
pub proof fn law_collected_fee_is_bounded(config: FeeConfig, trade_amount: i128, calculated_fee: i128)
    requires
        fee_config_is_valid(config),
    ensures
        collect_fee_outcome(Some(config), trade_amount, calculated_fee) matches Ok(fee) ==> {
            &&& config.min_fee_per_trade <= fee <= config.max_fee_per_trade
            &&& fee <= trade_amount
        },
{
}

/// A fee already within the bounds and covered by the trade is taken as is.
pub proof fn law_fee_within_bounds_is_kept(config: FeeConfig, trade_amount: i128, fee: i128)
    requires
        fee_config_is_valid(config),
        config.min_fee_per_trade <= fee <= config.max_fee_per_trade,
        fee <= trade_amount,
    ensures
        collect_fee_outcome(Some(config), trade_amount, fee) == Ok::<i128, FeeCollectorError>(fee),
{
}

/// Collecting again with the collected fee gives the same fee.
pub proof fn law_collect_fee_idempotent(config: FeeConfig, trade_amount: i128, calculated_fee: i128)
    requires
        fee_config_is_valid(config),
        collect_fee_outcome(Some(config), trade_amount, calculated_fee) is Ok,
    ensures
        collect_fee_outcome(
            Some(config),
            trade_amount,
            collect_fee_outcome(Some(config), trade_amount, calculated_fee)->Ok_0,
        ) == collect_fee_outcome(Some(config), trade_amount, calculated_fee),
{
}

/// A larger calculated fee never gives a smaller collected fee, and when it
/// is accepted every smaller non-negative one is accepted too.
pub proof fn law_collect_fee_monotone(config: FeeConfig, trade_amount: i128, f1: i128, f2: i128)
    requires
        fee_config_is_valid(config),
        0 <= f1 <= f2,
    ensures
        collect_fee_outcome(Some(config), trade_amount, f2) is Ok ==> collect_fee_outcome(
            Some(config),
            trade_amount,
            f1,
        ) is Ok,
        (collect_fee_outcome(Some(config), trade_amount, f1) is Ok && collect_fee_outcome(
            Some(config),
            trade_amount,
            f2,
        ) is Ok) ==> collect_fee_outcome(Some(config), trade_amount, f1)->Ok_0
            <= collect_fee_outcome(Some(config), trade_amount, f2)->Ok_0,
{
    assert(clamp_fee(f1, config.min_fee_per_trade, config.max_fee_per_trade) <= clamp_fee(
        f2,
        config.min_fee_per_trade,
        config.max_fee_per_trade,
    ));
}

/// Fees written for a provider and token are what a claim pays out.
pub proof fn law_claim_pays_what_was_written(
    v: FeeCollectorView,
    provider: AccountId,
    token: AccountId,
    amount: i128,
)
    ensures
        pending_fees_of(set_pending_fees_step(v, provider, token, amount), provider, token) == Some(
            amount,
        ),
        claim_fees_step(set_pending_fees_step(v, provider, token, amount), provider, token).1.amount
            == amount,
        claim_fees_step(set_pending_fees_step(v, provider, token, amount), provider, token).1.pay_out
            == (amount > 0),
{
}

/// A second claim right after a paying one finds nothing, and a claim that
/// paid nothing changed nothing.
pub proof fn law_claim_settles(v: FeeCollectorView, provider: AccountId, token: AccountId)
    ensures
        claim_fees_step(v, provider, token).1.amount > 0 ==> {
            let after = claim_fees_step(v, provider, token).0;
            &&& claim_fees_step(after, provider, token).1.amount == 0
            &&& !claim_fees_step(after, provider, token).1.pay_out
            &&& claim_fees_step(after, provider, token).0 == after
        },
        claim_fees_step(v, provider, token).1.amount <= 0 ==> claim_fees_step(v, provider, token).0
            == v,
{
}

/// A claim touches only the claimed provider's fees in the claimed token.
pub proof fn law_claim_leaves_other_fees(
    v: FeeCollectorView,
    provider: AccountId,
    token: AccountId,
    other: StorageKey,
)
    requires
        other != StorageKey::ProviderPendingFees(provider, token),
    ensures
        pending_or_zero(claim_fees_step(v, provider, token).0.pending, other) == pending_or_zero(
            v.pending,
            other,
        ),
        claim_fees_step(v, provider, token).0.pending.dom().contains(other) == v.pending.dom().contains(
            other,
        ),
        claim_fees_step(v, provider, token).0.admin == v.admin,
        claim_fees_step(v, provider, token).0.fee_config == v.fee_config,
{
}

/// A non-positive amount is refused before the ledger is asked anything,
/// whatever the ledger would answer.
pub proof fn law_invalid_amount_refused_first(req: TradeRequest, ev: TradeEvent, w: TradeWorld)
    requires
        req.amount <= 0,
    ensures
        next_step(req, TradeStage::Start, ev) == (
            TradeStage::Done,
            TradeAction::Reject(AutoTradeError::InvalidAmount),
        ),
        trade_outcome(req, w) == Err::<TradeCompletion, AutoTradeError>(
            AutoTradeError::InvalidAmount,
        ),
{
}

/// A trade that has ended takes no further answer, and every step that ends
/// a trade leaves it ended.
pub proof fn law_ended_trade_stays_ended(req: TradeRequest, st: TradeStage, ev: TradeEvent)
    requires
        stage_accepts(st, ev),
    ensures
        !stage_accepts(TradeStage::Done, ev),
        is_final(next_step(req, st, ev).1) ==> next_step(req, st, ev).0 == TradeStage::Done,
        !is_final(next_step(req, st, ev).1) ==> next_step(req, st, ev).0 != TradeStage::Done,
{
}

/// For a positive request, nothing filled is a failure, a fill short of the
/// request is partial, and a fill of the request or more fills it.
pub proof fn law_status_classification(executed: i128, requested: i128)
    requires
        requested > 0,
    ensures
        (status_for(executed, requested) == TradeStatus::Failed) == (executed == 0),
        (status_for(executed, requested) == TradeStatus::PartiallyFilled) == (executed != 0
            && executed < requested),
        (status_for(executed, requested) == TradeStatus::Filled) == (executed >= requested),
        status_for(executed, requested) != TradeStatus::Pending,
{
}

/// A completed trade updates the position, records the trade and enters the
/// history exactly when something was filled; the position grows by the
/// fill, the history shows it as executed with no fee, a stop-loss is
/// announced exactly when the risk checks reported one, and a risk-limit
/// block is announced exactly when nothing was filled.
pub proof fn law_completion_effects(
    req: TradeRequest,
    s: SignalInfo,
    stop_loss: bool,
    x: Execution,
    current: Option<i128>,
)
    requires
        req.amount > 0,
        x.executed_amount > 0 ==> position_fits(current, x.executed_amount),
    ensures
        ({
            let c = completion_of(req, s, stop_loss, x, current);
            let held: int = match current {
                Some(a) => a as int,
                None => 0,
            };
            &&& c.position is Some <==> x.executed_amount > 0
            &&& c.history is Some <==> x.executed_amount > 0
            &&& (c.position matches Some(p) ==> p.asset == s.base_asset && p.amount == held
                + x.executed_amount && p.price == x.executed_price)
            &&& (c.history matches Some(h) ==> h.status == HistoryTradeStatus::Executed
                && h.signal_id == req.signal_id && h.asset == s.base_asset && h.amount
                == x.executed_amount && h.price == x.executed_price && h.fee == 0)
            &&& c.stop_loss_triggered == stop_loss
            &&& c.risk_limit_block == (x.executed_amount == 0)
            &&& c.risk_limit_block == (c.trade.status == TradeStatus::Failed)
            &&& c.trade.requested_amount == req.amount
            &&& c.trade.executed_amount == x.executed_amount
            &&& c.trade.executed_price == x.executed_price
            &&& c.trade.user == req.user
            &&& c.trade.signal_id == req.signal_id
            &&& c.trade.timestamp == req.now
        }),
{
}

/// What a successful trade writes and announces, in terms of the ledger's
/// answers: with `s` the stored signal, `x` the order's fill and `p0` the
/// position held before (zero when none), a fill sets the position in the
/// signal's asset to `p0` plus the fill at the fill's price and adds a trade
/// record and an executed history entry without fee, while no fill changes
/// neither; the trade is announced, a risk-limit block is announced exactly
/// when nothing was filled, and a stop-loss exactly when the risk checks
/// reported one.
pub proof fn law_trade_effects(req: TradeRequest, w: TradeWorld)
    requires
        trade_fits(req, w),
        trade_outcome(req, w) is Ok,
    ensures
        ({
            let c = trade_outcome(req, w)->Ok_0;
            let s = w.signal->Some_0;
            let x = fill_for(w, req.order_type)->Ok_0;
            let p0: int = match w.position {
                Some(a) => a as int,
                None => 0,
            };
            &&& w.signal is Some
            &&& fill_for(w, req.order_type) is Ok
            &&& c.trade.executed_amount == x.executed_amount
            &&& c.trade.executed_price == x.executed_price
            &&& (x.executed_amount > 0 ==> c.position == Some(
                PositionUpdate {
                    asset: s.base_asset,
                    amount: (p0 + x.executed_amount) as i128,
                    price: x.executed_price,
                },
            ) && c.history == Some(
                HistoryRecord {
                    signal_id: req.signal_id,
                    asset: s.base_asset,
                    amount: x.executed_amount,
                    price: x.executed_price,
                    fee: 0,
                    status: HistoryTradeStatus::Executed,
                },
            ) && p0 + x.executed_amount == (p0 + x.executed_amount) as i128)
            &&& (x.executed_amount <= 0 ==> c.position is None && c.history is None)
            &&& c.stop_loss_triggered == (w.risk == Ok::<bool, AutoTradeError>(true))
            &&& c.risk_limit_block == (c.trade.status == TradeStatus::Failed)
        }),
{
}

/// After a successful trade the stored trade of the user and signal is the
/// executed one; a failed trade leaves what was stored.
pub proof fn law_trade_read_after_execute(
    before: Map<TradeKey, Trade>,
    req: TradeRequest,
    w: TradeWorld,
)
    ensures
        trade_outcome(req, w) matches Ok(c) ==> trade_of(
            before.insert(TradeKey { user: req.user, signal_id: req.signal_id }, c.trade),
            req.user,
            req.signal_id,
        ) == Some(c.trade),
        trade_outcome(req, w) matches Ok(c) ==> c.trade.user == req.user && c.trade.signal_id
            == req.signal_id,
{
}


/// The stored trades after a sequence of executions, each as its request and
/// the ledger's answers.
pub open spec fn trades_after_calls(
    v: Map<TradeKey, Trade>,
    calls: Seq<(TradeRequest, TradeWorld)>,
) -> Map<TradeKey, Trade>
    decreases calls.len(),
{
    if calls.len() == 0 {
        v
    } else {
        trades_after_call(trades_after_calls(v, calls.drop_last()), calls.last().0, calls.last().1)
    }
}

/// The trade of the last execution for `user` and `signal_id` in `calls`
/// that succeeded, if any did.
pub open spec fn latest_trade(calls: Seq<(TradeRequest, TradeWorld)>, user: AccountId, signal_id: u64) -> Option<
    Trade,
>
    decreases calls.len(),
{
    if calls.len() == 0 {
        None
    } else {
        let (req, w) = calls.last();
        if req.user == user && req.signal_id == signal_id && trade_outcome(req, w) is Ok {
            Some(trade_outcome(req, w)->Ok_0.trade)
        } else {
            latest_trade(calls.drop_last(), user, signal_id)
        }
    }
}

/// Starting from no stored trades, after any sequence of executions the
/// trade read for a user and signal is that of the latest execution for them
/// that succeeded, and nothing when none did: refused executions store
/// nothing.
pub proof fn law_get_trade_sees_latest_success(
    calls: Seq<(TradeRequest, TradeWorld)>,
    user: AccountId,
    signal_id: u64,
)
    ensures
        trade_of(trades_after_calls(Map::empty(), calls), user, signal_id) == latest_trade(
            calls,
            user,
            signal_id,
        ),
    decreases calls.len(),
{
    if calls.len() > 0 {
        law_get_trade_sees_latest_success(calls.drop_last(), user, signal_id);
    }
}

/// Collecting a fee reads only the fee configuration: two storages with the
/// same configuration give the same answer to the same arguments (and the
/// operation takes the contract by shared reference, so it writes nothing).
pub proof fn law_collect_fee_reads_only_config(
    a: FeeCollectorView,
    b: FeeCollectorView,
    trade_amount: i128,
    calculated_fee: i128,
)
    requires
        a.fee_config == b.fee_config,
    ensures
        collect_fee_outcome(a.fee_config, trade_amount, calculated_fee) == collect_fee_outcome(
            b.fee_config,
            trade_amount,
            calculated_fee,
        ),
{
}


/// What collecting a fee answers under a valid configuration, case by case
/// on the inputs: non-positive trades and negative fees are invalid; a trade
/// below the floor is too small; otherwise a fee below the floor becomes the
/// floor, a fee above the cap becomes the cap, a fee between them is kept,
/// and the result is refused as too small exactly when it exceeds the trade.
pub proof fn law_collect_fee_cases(config: FeeConfig, trade_amount: i128, calculated_fee: i128)
    requires
        config.min_fee_per_trade > 0,
        config.max_fee_per_trade > config.min_fee_per_trade,
    ensures
        ({
            let r = collect_fee_outcome(Some(config), trade_amount, calculated_fee);
            let min = config.min_fee_per_trade;
            let max = config.max_fee_per_trade;
            &&& (trade_amount <= 0 || calculated_fee < 0) ==> r == Err::<i128, FeeCollectorError>(
                FeeCollectorError::InvalidAmount,
            )
            &&& (trade_amount > 0 && calculated_fee >= 0 && trade_amount < min) ==> r == Err::<
                i128,
                FeeCollectorError,
            >(FeeCollectorError::TradeTooSmall)
            &&& (trade_amount >= min && 0 <= calculated_fee && calculated_fee < min) ==> r == Ok::<
                i128,
                FeeCollectorError,
            >(min)
            &&& (trade_amount >= min && min <= calculated_fee && calculated_fee <= max
                && calculated_fee <= trade_amount) ==> r == Ok::<i128, FeeCollectorError>(
                calculated_fee,
            )
            &&& (trade_amount >= min && min <= calculated_fee && calculated_fee <= max
                && calculated_fee > trade_amount) ==> r == Err::<i128, FeeCollectorError>(
                FeeCollectorError::TradeTooSmall,
            )
            &&& (trade_amount >= min && calculated_fee > max && max <= trade_amount) ==> r == Ok::<
                i128,
                FeeCollectorError,
            >(max)
            &&& (trade_amount >= min && calculated_fee > max && max > trade_amount) ==> r == Err::<
                i128,
                FeeCollectorError,
            >(FeeCollectorError::TradeTooSmall)
        }),
{
}

/// A configuration is accepted exactly when its floor is positive and lies
/// strictly below its cap; an accepted one is what is stored afterwards,
/// and a refused one leaves the storage unchanged.
pub proof fn law_set_fee_config_accepts_exactly(v: FeeCollectorView, config: FeeConfig)
    ensures
        (set_fee_config_step(v, config).1 is Ok) <==> (config.min_fee_per_trade > 0
            && config.max_fee_per_trade > config.min_fee_per_trade),
        (config.min_fee_per_trade > 0 && config.max_fee_per_trade > config.min_fee_per_trade)
            ==> set_fee_config_step(v, config).0.fee_config == Some(config),
        !(config.min_fee_per_trade > 0 && config.max_fee_per_trade > config.min_fee_per_trade)
            ==> set_fee_config_step(v, config).0 == v,
        set_fee_config_step(v, config).0.admin == v.admin,
        set_fee_config_step(v, config).0.pending == v.pending,
{
}

/// Every question a trade asks the ledger concerns the request as made: the
/// signal requested, the requested amount (for the authorization, the
/// balance, the risk checks and the order, whatever the order type), the
/// requested order type, and the loaded signal's asset and price.
pub proof fn law_questions_carry_the_request(req: TradeRequest, st: TradeStage, ev: TradeEvent)
    requires
        stage_accepts(st, ev),
    ensures
        ({
            let a = next_step(req, st, ev).1;
            &&& (a matches TradeAction::LoadSignal { signal_id } ==> signal_id == req.signal_id)
            &&& (a matches TradeAction::CheckAuthorization { amount } ==> amount == req.amount)
            &&& (a matches TradeAction::CheckBalance { asset, amount } ==> amount == req.amount
                && (ev matches TradeEvent::AuthorizationChecked(_) && st matches TradeStage::AwaitingAuthorization(s)
                && asset == s.base_asset))
            &&& (a matches TradeAction::AssessRisk { asset, amount, price, is_sell } ==> amount
                == req.amount && is_sell == IS_SELL && (st matches TradeStage::AwaitingBalance(s)
                && asset == s.base_asset && price == s.price))
            &&& (a matches TradeAction::ExecuteOrder { order_type, amount, asset, price, .. }
                ==> amount == req.amount && order_type == req.order_type && (
            st matches TradeStage::AwaitingRisk(s) && asset == s.base_asset && price == s.price))
        }),
{
}

/// A limit order and a market order for the same request ask the same
/// questions with the same amounts up to the order itself, which differs
/// only in its type.
pub proof fn law_order_type_only_changes_the_order(
    req: TradeRequest,
    st: TradeStage,
    ev: TradeEvent,
)
    requires
        stage_accepts(st, ev),
        !(st is AwaitingExecution) && !(st is AwaitingPosition) && !(st is Done),
    ensures
        ({
            let market = TradeRequest { order_type: OrderType::Market, ..req };
            let limit = TradeRequest { order_type: OrderType::Limit, ..req };
            &&& next_step(market, st, ev).0 == next_step(limit, st, ev).0
            &&& (next_step(market, st, ev).1 matches TradeAction::ExecuteOrder { amount, asset, price, stop_loss_triggered, .. }
                ==> next_step(limit, st, ev).1 == TradeAction::ExecuteOrder {
                order_type: OrderType::Limit,
                amount,
                asset,
                price,
                stop_loss_triggered,
            })
            &&& (!(next_step(market, st, ev).1 is ExecuteOrder) ==> next_step(market, st, ev).1
                == next_step(limit, st, ev).1)
        }),
{
}


/// Each answer from the ledger ends the trade with its error exactly when
/// the original refuses: no signal, a signal whose expiry lies before the
/// ledger time, a refused authorization, an insufficient balance, or an
/// error from the risk checks or the exchange; a fill of more than nothing
/// asks for the position, any other fill completes the trade.
pub proof fn law_refusals(req: TradeRequest, s: SignalInfo, ev: TradeEvent)
    ensures
        next_step(req, TradeStage::AwaitingSignal, TradeEvent::SignalLoaded(None)).1
            == TradeAction::Reject(AutoTradeError::SignalNotFound),
        (next_step(req, TradeStage::AwaitingSignal, TradeEvent::SignalLoaded(Some(s))).1
            == TradeAction::Reject(AutoTradeError::SignalExpired)) == (req.now > s.expiry),
        req.now <= s.expiry ==> next_step(
            req,
            TradeStage::AwaitingSignal,
            TradeEvent::SignalLoaded(Some(s)),
        ).0 == TradeStage::AwaitingAuthorization(s),
        next_step(req, TradeStage::AwaitingAuthorization(s), TradeEvent::AuthorizationChecked(false)).1
            == TradeAction::Reject(AutoTradeError::Unauthorized),
        !(next_step(req, TradeStage::AwaitingAuthorization(s), TradeEvent::AuthorizationChecked(true)).1 is Reject),
        next_step(req, TradeStage::AwaitingBalance(s), TradeEvent::BalanceChecked(false)).1
            == TradeAction::Reject(AutoTradeError::InsufficientBalance),
        !(next_step(req, TradeStage::AwaitingBalance(s), TradeEvent::BalanceChecked(true)).1 is Reject),
        ev matches TradeEvent::RiskAssessed(Err(e)) ==> next_step(req, TradeStage::AwaitingRisk(s), ev).1
            == TradeAction::Reject(e),
        ev matches TradeEvent::RiskAssessed(Ok(stop)) ==> next_step(req, TradeStage::AwaitingRisk(s), ev).1
            matches TradeAction::ExecuteOrder { stop_loss_triggered, .. } && stop_loss_triggered == stop,
        ev matches TradeEvent::OrderExecuted(Err(e)) ==> next_step(
            req,
            TradeStage::AwaitingExecution(s, false),
            ev,
        ).1 == TradeAction::Reject(e),
        ev matches TradeEvent::OrderExecuted(Ok(x)) ==> (next_step(
            req,
            TradeStage::AwaitingExecution(s, false),
            ev,
        ).1 == TradeAction::ReadPosition { asset: s.base_asset }) == (x.executed_amount > 0),
        ev matches TradeEvent::OrderExecuted(Ok(x)) ==> (next_step(
            req,
            TradeStage::AwaitingExecution(s, false),
            ev,
        ).1 is Finish) == (x.executed_amount <= 0),
{
}

} // verus!
