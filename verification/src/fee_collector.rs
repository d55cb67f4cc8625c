use vstd::prelude::*;

use crate::account::AccountId;
use crate::keyed::{
    entry_map, keys_distinct, lemma_entry_map_absent, lemma_entry_map_at, lemma_entry_map_empty,
    lemma_entry_map_push, lemma_entry_map_update,
};

verus! {

/// Errors the fee collector reports; on the ledger each travels as its
/// numeric code (see [`FeeCollectorError::code`]).
#[derive(Clone, Copy, Debug, PartialEq, Eq, Structural)]
pub enum FeeCollectorError {
    TradeTooSmall,
    ArithmeticOverflow,
    InvalidAmount,
    Unauthorized,
}

/// The ledger code of each fee-collector error: 1 to 4 in declaration order.
pub open spec fn fee_error_code(e: FeeCollectorError) -> u32 {
    match e {
        FeeCollectorError::TradeTooSmall => 1,
        FeeCollectorError::ArithmeticOverflow => 2,
        FeeCollectorError::InvalidAmount => 3,
        FeeCollectorError::Unauthorized => 4,
    }
}

/// The fee-collector error that a ledger code stands for, if any.
pub open spec fn fee_error_from_code(code: u32) -> Option<FeeCollectorError> {
    if code == 1 {
        Some(FeeCollectorError::TradeTooSmall)
    } else if code == 2 {
        Some(FeeCollectorError::ArithmeticOverflow)
    } else if code == 3 {
        Some(FeeCollectorError::InvalidAmount)
    } else if code == 4 {
        Some(FeeCollectorError::Unauthorized)
    } else {
        None
    }
}

impl FeeCollectorError {
    /// The numeric code under which this error is reported on the ledger.
    pub fn code(&self) -> (r: u32)
        ensures
            r == fee_error_code(*self),
    {
        match self {
            FeeCollectorError::TradeTooSmall => 1,
            FeeCollectorError::ArithmeticOverflow => 2,
            FeeCollectorError::InvalidAmount => 3,
            FeeCollectorError::Unauthorized => 4,
        }
    }

    /// The error reported under `code`, or `None` for a code no error uses.
    pub fn from_code(code: u32) -> (r: Option<FeeCollectorError>)
        ensures
            r == fee_error_from_code(code),
    {
        if code == 1 {
            Some(FeeCollectorError::TradeTooSmall)
        } else if code == 2 {
            Some(FeeCollectorError::ArithmeticOverflow)
        } else if code == 3 {
            Some(FeeCollectorError::InvalidAmount)
        } else if code == 4 {
            Some(FeeCollectorError::Unauthorized)
        } else {
            None
        }
    }
}

/// Bounds applied to every collected fee, in stroops.
#[derive(Clone, Copy, Debug, PartialEq, Eq, Structural)]
pub struct FeeConfig {
    /// Largest fee taken from one trade.
    pub max_fee_per_trade: i128,
    /// Smallest fee taken from one trade.
    pub min_fee_per_trade: i128,
}

/// Cap of the configuration set at initialization: 100 XLM.
pub const DEFAULT_MAX_FEE_PER_TRADE: i128 = 1_000_000_000;

/// Floor of the configuration set at initialization: 0.01 XLM.
pub const DEFAULT_MIN_FEE_PER_TRADE: i128 = 100_000;

/// The configuration an initialized contract starts with.
pub open spec fn default_fee_config() -> FeeConfig {
    FeeConfig {
        max_fee_per_trade: DEFAULT_MAX_FEE_PER_TRADE,
        min_fee_per_trade: DEFAULT_MIN_FEE_PER_TRADE,
    }
}

/// A configuration is accepted when its floor is positive and its cap lies
/// strictly above the floor.
pub open spec fn fee_config_is_valid(c: FeeConfig) -> bool {
    c.min_fee_per_trade > 0 && c.max_fee_per_trade > c.min_fee_per_trade
}

/// `fee` brought into `[min, max]`.
pub open spec fn clamp_fee(fee: i128, min: i128, max: i128) -> i128 {
    if fee < min {
        min
    } else if fee > max {
        max
    } else {
        fee
    }
}

/// What collecting a fee answers: the inputs are checked first, then the
/// trade must cover the floor, then the clamped fee must not exceed the trade.
pub open spec fn collect_fee_outcome(
    config: Option<FeeConfig>,
    trade_amount: i128,
    calculated_fee: i128,
) -> Result<i128, FeeCollectorError> {
    if trade_amount <= 0 || calculated_fee < 0 {
        Err(FeeCollectorError::InvalidAmount)
    } else {
        let c = config.unwrap();
        if trade_amount < c.min_fee_per_trade {
            Err(FeeCollectorError::TradeTooSmall)
        } else {
            let fee = clamp_fee(calculated_fee, c.min_fee_per_trade, c.max_fee_per_trade);
            if fee > trade_amount {
                Err(FeeCollectorError::TradeTooSmall)
            } else {
                Ok(fee)
            }
        }
    }
}

/// Persistent storage keys of the fee collector.
#[derive(Clone, Copy, Debug, PartialEq, Eq, Structural)]
pub enum StorageKey {
    /// Fees owed to a provider, in one token: (provider, token).
    ProviderPendingFees(AccountId, AccountId),
}

/// Instance storage keys of the fee collector.
#[derive(Clone, Copy, Debug, PartialEq, Eq, Structural)]
pub enum DataKey {
    Admin,
    FeeConfig,
}

/// What a claim settles: the amount owed, and whether it is paid out (a
/// token transfer from the contract to the provider).
#[derive(Clone, Copy, Debug, PartialEq, Eq, Structural)]
pub struct FeeClaim {
    pub amount: i128,
    pub pay_out: bool,
}

/// The fee collector's storage as values: the admin, the fee configuration
/// (both set by initialization) and the fees pending per provider and token.
#[verifier::ext_equal]
pub struct FeeCollectorView {
    pub admin: Option<AccountId>,
    pub fee_config: Option<FeeConfig>,
    pub pending: Map<StorageKey, i128>,
}

/// The fee collector contract: its storage and the operations on it.
pub struct FeeCollectorContract {
    admin: Option<AccountId>,
    fee_config: Option<FeeConfig>,
    pending: Vec<(StorageKey, i128)>,
}

impl View for FeeCollectorContract {
    type V = FeeCollectorView;

    closed spec fn view(&self) -> FeeCollectorView {
        FeeCollectorView {
            admin: self.admin,
            fee_config: self.fee_config,
            pending: entry_map(self.pending@),
        }
    }
}

/// The amount a storage map holds under `key`, read as zero when absent.
pub open spec fn pending_or_zero(pending: Map<StorageKey, i128>, key: StorageKey) -> i128 {
    if pending.dom().contains(key) {
        pending[key]
    } else {
        0
    }
}

/// Storage after `initialize(admin)`.
pub open spec fn initialize_step(v: FeeCollectorView, admin: AccountId) -> FeeCollectorView {
    FeeCollectorView { admin: Some(admin), fee_config: Some(default_fee_config()), pending: v.pending }
}

/// Storage and answer after `set_fee_config(_, config)`.
pub open spec fn set_fee_config_step(v: FeeCollectorView, config: FeeConfig) -> (
    FeeCollectorView,
    Result<(), FeeCollectorError>,
) {
    if fee_config_is_valid(config) {
        (FeeCollectorView { admin: v.admin, fee_config: Some(config), pending: v.pending }, Ok(()))
    } else {
        (v, Err(FeeCollectorError::InvalidAmount))
    }
}

/// What reading the pending fees of `provider` in `token` answers.
pub open spec fn pending_fees_of(v: FeeCollectorView, provider: AccountId, token: AccountId) -> Option<
    i128,
> {
    let key = StorageKey::ProviderPendingFees(provider, token);
    if v.pending.dom().contains(key) {
        Some(v.pending[key])
    } else {
        None
    }
}

/// Storage after `set_pending_fees(provider, token, amount)`.
pub open spec fn set_pending_fees_step(
    v: FeeCollectorView,
    provider: AccountId,
    token: AccountId,
    amount: i128,
) -> FeeCollectorView {
    FeeCollectorView {
        admin: v.admin,
        fee_config: v.fee_config,
        pending: v.pending.insert(StorageKey::ProviderPendingFees(provider, token), amount),
    }
}

/// Storage and answer after `claim_fees(provider, token)`.
pub open spec fn claim_fees_step(v: FeeCollectorView, provider: AccountId, token: AccountId) -> (
    FeeCollectorView,
    FeeClaim,
) {
    let amount = pending_or_zero(v.pending, StorageKey::ProviderPendingFees(provider, token));
    if amount > 0 {
        (set_pending_fees_step(v, provider, token, 0), FeeClaim { amount, pay_out: true })
    } else {
        (v, FeeClaim { amount, pay_out: false })
    }
}

impl FeeCollectorContract {
    /// The storage invariant: admin and configuration are set together, a
    /// stored configuration is valid, and each pending-fee key is stored once.
    pub closed spec fn wf(&self) -> bool {
        &&& self.admin.is_some() == self.fee_config.is_some()
        &&& (self.fee_config matches Some(c) ==> fee_config_is_valid(c))
        &&& keys_distinct(self.pending@)
    }

    /// Whether `initialize` has run.
    pub open spec fn is_initialized(&self) -> bool {
        self@.fee_config is Some
    }

    /// A contract with empty storage.
    pub fn new() -> (r: FeeCollectorContract)
        ensures
            r.wf(),
            r@.admin is None,
            r@.fee_config is None,
            r@.pending == Map::<StorageKey, i128>::empty(),
    {
        let r = FeeCollectorContract { admin: None, fee_config: None, pending: Vec::new() };
        proof {
            lemma_entry_map_empty::<StorageKey, i128>();
        }
        r
    }

    /// Stores `admin` and the default configuration (cap 100 XLM, floor
    /// 0.01 XLM); pending fees stay as they are.
    pub fn initialize(&mut self, admin: AccountId)
        requires
            old(self).wf(),
        ensures
            final(self).wf(),
            final(self)@.admin == Some(admin),
            final(self)@ == initialize_step(old(self)@, admin),
            final(self)@.fee_config == Some(default_fee_config()),
            final(self)@.pending == old(self)@.pending,
    {
        self.admin = Some(admin);
        self.fee_config = Some(
            FeeConfig {
                max_fee_per_trade: DEFAULT_MAX_FEE_PER_TRADE,
                min_fee_per_trade: DEFAULT_MIN_FEE_PER_TRADE,
            },
        );
    }

    /// Replaces the fee configuration when it is valid; otherwise answers
    /// `InvalidAmount` and changes nothing. The configuration is accepted
    /// from any `caller`: the admin stored at initialization is not compared
    /// with it; that the admin authorized the call is checked by the ledger
    /// host before this runs.
    pub fn set_fee_config(&mut self, caller: AccountId, config: FeeConfig) -> (r: Result<
        (),
        FeeCollectorError,
    >)
        requires
            old(self).wf(),
            old(self).is_initialized(),
        ensures
            final(self).wf(),
            (final(self)@, r) == set_fee_config_step(old(self)@, config),
            r is Ok <==> fee_config_is_valid(config),
            r is Err ==> r == Err::<(), FeeCollectorError>(FeeCollectorError::InvalidAmount),
            r is Ok ==> final(self)@.fee_config == Some(config),
            r is Err ==> final(self)@.fee_config == old(self)@.fee_config,
            final(self)@.admin == old(self)@.admin,
            final(self)@.pending == old(self)@.pending,
    {
        if config.min_fee_per_trade <= 0 || config.max_fee_per_trade <= config.min_fee_per_trade {
            return Err(FeeCollectorError::InvalidAmount);
        }
        self.fee_config = Some(config);
        Ok(())
    }

    /// The stored fee configuration.
    pub fn get_fee_config(&self) -> (r: FeeConfig)
        requires
            self.wf(),
            self.is_initialized(),
        ensures
            self@.fee_config == Some(r),
            fee_config_is_valid(r),
    {
        self.fee_config.unwrap()
    }

    /// The fee to take from a trade of `trade_amount` for which
    /// `calculated_fee` was computed: the fee clamped into the configured
    /// floor and cap, provided the trade covers both the floor and that fee.
    pub fn collect_fee(&self, trade_amount: i128, calculated_fee: i128) -> (r: Result<
        i128,
        FeeCollectorError,
    >)
        requires
            self.wf(),
            trade_amount <= 0 || calculated_fee < 0 || self.is_initialized(),
        ensures
            r == collect_fee_outcome(self@.fee_config, trade_amount, calculated_fee),
            r matches Ok(fee) ==> {
                &&& self@.fee_config.unwrap().min_fee_per_trade <= fee
                &&& fee <= self@.fee_config.unwrap().max_fee_per_trade
                &&& fee <= trade_amount
            },
    {
        if trade_amount <= 0 || calculated_fee < 0 {
            return Err(FeeCollectorError::InvalidAmount);
        }
        let config = self.get_fee_config();
        if trade_amount < config.min_fee_per_trade {
            return Err(FeeCollectorError::TradeTooSmall);
        }
        let clamped_fee = if calculated_fee < config.min_fee_per_trade {
            config.min_fee_per_trade
        } else if calculated_fee > config.max_fee_per_trade {
            config.max_fee_per_trade
        } else {
            calculated_fee
        };
        if clamped_fee > trade_amount {
            return Err(FeeCollectorError::TradeTooSmall);
        }
        Ok(clamped_fee)
    }

    /// Index of the entry stored under `key`, if any.
    fn find_pending(&self, key: &StorageKey) -> (r: Option<usize>)
        requires
            self.wf(),
        ensures
            match r {
                Some(i) => i < self.pending@.len() && self.pending@[i as int].0 == *key,
                None => forall|i: int|
                    0 <= i < self.pending@.len() ==> self.pending@[i].0 != *key,
            },
    {
        let n = self.pending.len();
        let mut i: usize = 0;
        while i < n
            invariant
                n == self.pending@.len(),
                i <= n,
                forall|j: int| 0 <= j < i ==> self.pending@[j].0 != *key,
            decreases n - i,
        {
            if self.pending[i].0 == *key {
                return Some(i);
            }
            i = i + 1;
        }
        None
    }

    /// The pending fees stored for `provider` in `token`, if any were stored.
    pub fn pending_fees(&self, provider: AccountId, token: AccountId) -> (r: Option<i128>)
        requires
            self.wf(),
        ensures
            r == pending_fees_of(self@, provider, token),
    {
        let key = StorageKey::ProviderPendingFees(provider, token);
        match self.find_pending(&key) {
            Some(i) => {
                proof {
                    lemma_entry_map_at(self.pending@, i as int);
                }
                Some(self.pending[i].1)
            },
            None => {
                proof {
                    lemma_entry_map_absent(self.pending@, key);
                }
                None
            },
        }
    }

    /// Stores `amount` as the fees pending for `provider` in `token`.
    pub fn set_pending_fees(&mut self, provider: AccountId, token: AccountId, amount: i128)
        requires
            old(self).wf(),
        ensures
            final(self).wf(),
            final(self)@ == set_pending_fees_step(old(self)@, provider, token, amount),
            final(self)@.pending == old(self)@.pending.insert(
                StorageKey::ProviderPendingFees(provider, token),
                amount,
            ),
            final(self)@.admin == old(self)@.admin,
            final(self)@.fee_config == old(self)@.fee_config,
    {
        let key = StorageKey::ProviderPendingFees(provider, token);
        match self.find_pending(&key) {
            Some(i) => {
                proof {
                    lemma_entry_map_update(self.pending@, i as int, amount);
                }
                self.pending.set(i, (key, amount));
            },
            None => {
                proof {
                    lemma_entry_map_absent(self.pending@, key);
                    lemma_entry_map_push(self.pending@, (key, amount));
                }
                self.pending.push((key, amount));
            },
        }
    }

    /// Settles the fees pending for `provider` in `token`: the amount stored
    /// (zero when none is) is reported, and when it is positive it is paid
    /// out and the stored amount becomes zero; otherwise storage is unchanged.
    pub fn claim_fees(&mut self, provider: AccountId, token: AccountId) -> (r: FeeClaim)
        requires
            old(self).wf(),
        ensures
            final(self).wf(),
            (final(self)@, r) == claim_fees_step(old(self)@, provider, token),
            r.amount == pending_or_zero(
                old(self)@.pending,
                StorageKey::ProviderPendingFees(provider, token),
            ),
            r.pay_out == (r.amount > 0),
            final(self)@.pending == (if r.amount > 0 {
                old(self)@.pending.insert(StorageKey::ProviderPendingFees(provider, token), 0)
            } else {
                old(self)@.pending
            }),
            final(self)@.admin == old(self)@.admin,
            final(self)@.fee_config == old(self)@.fee_config,
    {
        let amount = match self.pending_fees(provider, token) {
            Some(a) => a,
            None => 0,
        };
        if amount > 0 {
            self.set_pending_fees(provider, token, 0);
        }
        FeeClaim { amount, pay_out: amount > 0 }
    }
}

} // verus!
