//! Merchants and their traffic configuration.
//!
//! Rates and balances are held in whole hundredths: a rate of `9500` is 95.00
//! and a balance of `150` is 1.50. The amounts that traffic is generated with
//! are whole currency units. Percentages are whole numbers from 0 to 100.

use crate::chance::{roll_percent, uniform_between};
use crate::identity::{new_uuid, now_millis};
use crate::sampler::{standard_rows, AmountProbabilities};
use vstd::prelude::*;

verus! {

/// Liquidity percentage of a new merchant.
pub const DEFAULT_LIQUIDITY: u64 = 80;

/// Rate applied to a USDT merchant that has none of its own, in hundredths.
pub const DEFAULT_USDT_RATE: u64 = 9500;

/// Rate applied to every rouble merchant, in hundredths.
pub const RUB_RATE: u64 = 100;

#[derive(Debug, Clone, Copy, PartialEq, Eq, Structural)]
pub enum PaymentType {
    Rub,
    UsdtTrc20,
}

/// How a merchant's traffic is generated.
#[derive(Debug, Clone)]
pub struct TrafficConfig {
    pub enabled: bool,
    /// Base interval between two transactions, in milliseconds.
    pub interval_ms: u64,
    /// Bound of the jitter added to or taken from the base interval.
    pub interval_variance: u64,
    /// Cap on the number of transactions of one run, if any.
    pub max_transactions: Option<u64>,
    pub created_count: u64,
    pub amount_probabilities: AmountProbabilities,
}

impl Default for TrafficConfig {
    fn default() -> (config: TrafficConfig)
        ensures
            !config.enabled,
            config.interval_ms == 5000,
            config.interval_variance == 2000,
            config.max_transactions is None,
            config.created_count == 0,
            config.amount_probabilities@ == standard_rows(),
    {
        TrafficConfig {
            enabled: false,
            interval_ms: 5000,
            interval_variance: 2000,
            max_transactions: None,
            created_count: 0,
            amount_probabilities: AmountProbabilities::standard(),
        }
    }
}

/// Shortest delay the configuration allows: the base interval less the jitter
/// bound, clamped at zero.
pub open spec fn shortest_delay(config: TrafficConfig) -> int {
    if config.interval_ms >= config.interval_variance {
        config.interval_ms - config.interval_variance
    } else {
        0
    }
}

/// Longest delay the configuration allows: the base interval plus the jitter
/// bound, clamped at what a `u64` holds.
pub open spec fn longest_delay(config: TrafficConfig) -> int {
    if config.interval_ms + config.interval_variance <= u64::MAX {
        config.interval_ms + config.interval_variance
    } else {
        u64::MAX as int
    }
}

impl TrafficConfig {
    /// Whether a run that has created `created` transactions has reached the
    /// configured cap.
    pub open spec fn cap_reached(&self, created: u64) -> bool {
        self.max_transactions matches Some(max) && created >= max
    }

    /// Exec form of `cap_reached`.
    pub fn limit_reached(&self, created: u64) -> (reached: bool)
        ensures
            reached == self.cap_reached(created),
    {
        match self.max_transactions {
            Some(max) => created >= max,
            None => false,
        }
    }

    /// The delay before the next transaction, in milliseconds: the base
    /// interval itself when no jitter is configured, otherwise a draw from the
    /// base interval plus or minus the jitter bound.
    pub fn next_delay(&self) -> (delay: u64)
        ensures
            self.interval_variance == 0 ==> delay == self.interval_ms,
            shortest_delay(*self) <= delay <= longest_delay(*self),
    {
        if self.interval_variance > 0 {
            let low = self.interval_ms.saturating_sub(self.interval_variance);
            let high = self.interval_ms.saturating_add(self.interval_variance);
            uniform_between(low, high)
        } else {
            self.interval_ms
        }
    }
}

/// A payment account that traffic is generated for.
#[derive(Debug, Clone)]
pub struct Merchant {
    pub id: u128,
    pub name: String,
    pub api_key: String,
    pub callback_url: Option<String>,
    /// Milliseconds since the Unix epoch.
    pub created_at: i64,
    pub traffic_config: TrafficConfig,
    /// Share of transactions treated as real, in percent.
    pub liquidity_percentage: u64,
    pub payment_type: PaymentType,
    /// Exchange rate in hundredths; used for USDT only.
    pub rate: Option<u64>,
    pub is_active: bool,
    /// Balance in hundredths of a USDT.
    pub balance_usdt: u64,
}

impl Merchant {
    /// The liquidity percentage is a percentage.
    pub open spec fn wf(&self) -> bool {
        self.liquidity_percentage <= 100
    }

    /// What a new merchant looks like, apart from its identity.
    pub open spec fn is_fresh(&self, name: String, api_key: String) -> bool {
        &&& self.name == name
        &&& self.api_key == api_key
        &&& self.callback_url is None
        &&& !self.traffic_config.enabled
        &&& self.traffic_config.interval_ms == 5000
        &&& self.traffic_config.interval_variance == 2000
        &&& self.traffic_config.max_transactions is None
        &&& self.traffic_config.created_count == 0
        &&& self.traffic_config.amount_probabilities@ == standard_rows()
        &&& self.liquidity_percentage == DEFAULT_LIQUIDITY
        &&& self.payment_type == PaymentType::Rub
        &&& self.rate is None
        &&& self.is_active
        &&& self.balance_usdt == 0
    }

    /// A new merchant with a fresh random id, created now.
    pub fn new(name: String, api_key: String) -> (merchant: Merchant)
        ensures
            merchant.is_fresh(name, api_key),
            merchant.wf(),
    {
        let id = new_uuid();
        let now = now_millis();
        Merchant::with_identity(id, now, name, api_key)
    }

    /// A new merchant with the given id and creation time.
    pub fn with_identity(id: u128, created_at: i64, name: String, api_key: String) -> (merchant:
        Merchant)
        ensures
            merchant.id == id,
            merchant.created_at == created_at,
            merchant.is_fresh(name, api_key),
            merchant.wf(),
    {
        Merchant {
            id,
            name,
            api_key,
            callback_url: None,
            created_at,
            traffic_config: TrafficConfig::default(),
            liquidity_percentage: DEFAULT_LIQUIDITY,
            payment_type: PaymentType::Rub,
            rate: None,
            is_active: true,
            balance_usdt: 0,
        }
    }

    /// Whether a draw from `[0, 100)` makes a transaction liquid: it does when
    /// it is at most the liquidity percentage.
    pub open spec fn liquid_at(&self, draw: u64) -> bool {
        draw <= self.liquidity_percentage
    }

    /// Exec form of `liquid_at`.
    pub fn is_liquid_for(&self, draw: u64) -> (liquid: bool)
        ensures
            liquid == self.liquid_at(draw),
    {
        draw <= self.liquidity_percentage
    }

    /// Decides by a fresh draw whether the next transaction is liquid.
    pub fn is_liquid(&self) -> (liquid: bool)
        ensures
            self.liquidity_percentage >= 99 ==> liquid,
            exists|draw: u64| draw < 100 && liquid == #[trigger] self.liquid_at(draw),
    {
        let draw = roll_percent();
        let liquid = self.is_liquid_for(draw);
        assert(liquid == self.liquid_at(draw));
        liquid
    }

    /// The rate sent with a transaction of this merchant: its own rate or the
    /// default one for USDT, the fixed rouble rate otherwise.
    pub fn effective_rate(&self) -> (rate: u64)
        ensures
            rate == match self.payment_type {
                PaymentType::UsdtTrc20 => match self.rate {
                    Some(own) => own,
                    None => DEFAULT_USDT_RATE,
                },
                PaymentType::Rub => RUB_RATE,
            },
    {
        match self.payment_type {
            PaymentType::UsdtTrc20 => match self.rate {
                Some(own) => own,
                None => DEFAULT_USDT_RATE,
            },
            PaymentType::Rub => RUB_RATE,
        }
    }
}

} // verus!
