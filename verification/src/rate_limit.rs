//! Rate limits: how many requests per minute each kind of endpoint takes.

use vstd::prelude::*;
use vstd::string::StringSliceAdditionalSpecFns;

verus! {

#[verifier::external_type_specification]
#[verifier::external_body]
pub struct ExRateLimitLayer(tower::limit::RateLimitLayer);

#[verifier::external_type_specification]
#[verifier::external_body]
pub struct ExIdentity(tower::layer::util::Identity);

#[verifier::external_type_specification]
#[verifier::external_body]
#[verifier::reject_recursive_types(Inner)]
#[verifier::reject_recursive_types(Outer)]
pub struct ExStack<Inner, Outer>(tower::layer::util::Stack<Inner, Outer>);

#[verifier::external_type_specification]
#[verifier::external_body]
#[verifier::reject_recursive_types(L)]
pub struct ExServiceBuilder<L>(tower::ServiceBuilder<L>);

/// The number that a sequence of decimal digits spells.
pub open spec fn decimal_value(digits: Seq<u8>) -> nat
    decreases digits.len(),
{
    if digits.len() == 0 {
        0
    } else {
        decimal_value(digits.drop_last()) * 10 + (digits.last() - 0x30) as nat
    }
}

/// Every byte of `digits` is a decimal digit.
pub open spec fn all_decimal(digits: Seq<u8>) -> bool {
    forall|i: int| 0 <= i < digits.len() ==> 0x30 <= #[trigger] digits[i] <= 0x39
}

/// The digits of a number's text: the text without one leading `+`.
pub open spec fn digits_of(text: Seq<u8>) -> Seq<u8> {
    if text.len() > 0 && text[0] == 0x2b {
        text.skip(1)
    } else {
        text
    }
}

/// The 32-bit number that `text` spells: an optional `+`, then one or more
/// decimal digits, whose value fits. Anything else spells no number.
pub open spec fn parsed_u32(text: Seq<u8>) -> Option<u32> {
    let digits = digits_of(text);
    if digits.len() > 0 && all_decimal(digits) && decimal_value(digits) <= u32::MAX {
        Some(decimal_value(digits) as u32)
    } else {
        None
    }
}

proof fn lemma_prefix_value(digits: Seq<u8>, n: int)
    requires
        0 <= n <= digits.len(),
    ensures
        decimal_value(digits.subrange(0, n)) <= decimal_value(digits),
    decreases digits.len() - n,
{
    if n < digits.len() {
        let longer = digits.subrange(0, n + 1);
        assert(longer.drop_last() =~= digits.subrange(0, n));
        lemma_prefix_value(digits, n + 1);
    } else {
        assert(digits.subrange(0, n) =~= digits);
    }
}

/// Reads a 32-bit number from its decimal text.
pub fn parse_u32(text: &[u8]) -> (r: Option<u32>)
    ensures
        r == parsed_u32(text@),
{
    let start: usize = if text.len() > 0 && text[0] == 0x2b {
        1
    } else {
        0
    };
    let ghost digits = digits_of(text@);
    proof {
        assert(digits =~= text@.skip(start as int));
    }
    if start == text.len() {
        return None;
    }
    let mut value: u32 = 0;
    let mut i: usize = start;
    while i < text.len()
        invariant
            start <= i <= text.len(),
            digits == text@.skip(start as int),
            digits == digits_of(text@),
            all_decimal(digits.subrange(0, i - start)),
            value == decimal_value(digits.subrange(0, i - start)),
        decreases text.len() - i,
    {
        let c: u8 = text[i];
        let ghost k = i - start;
        proof {
            assert(digits[k] == c);
            assert(digits.subrange(0, k + 1).drop_last() =~= digits.subrange(0, k));
            lemma_prefix_value(digits, k + 1);
        }
        if c < 0x30 || c > 0x39 {
            proof {
                assert(!(0x30 <= digits[k] <= 0x39));
                assert(!all_decimal(digits));
            }
            return None;
        }
        let d: u32 = (c - 0x30) as u32;
        proof {
            let longer = digits.subrange(0, k + 1);
            assert(longer.last() == c);
            assert(decimal_value(longer) == value * 10 + d);
        }
        if value > (u32::MAX - d) / 10 {
            proof {
                assert(value * 10 + d > u32::MAX);
            }
            return None;
        }
        value = value * 10 + d;
        proof {
            assert forall|j: int| 0 <= j < k + 1 implies 0x30 <= #[trigger] digits.subrange(
                0,
                k + 1,
            )[j] <= 0x39 by {
                if j < k {
                    assert(digits.subrange(0, k)[j] == digits[j]);
                }
            }
        }
        i = i + 1;
    }
    proof {
        assert(digits.subrange(0, i - start) =~= digits);
    }
    Some(value)
}

/// Requests per minute for each kind of endpoint.
#[derive(Debug, Clone, Copy, PartialEq, Eq, Structural)]
pub struct RateLimitConfig {
    /// Verification endpoints.
    pub verify_per_minute: u32,
    /// Settlement endpoints.
    pub settle_per_minute: u32,
    /// Transaction status endpoints.
    pub transaction_status_per_minute: u32,
    /// All other endpoints.
    pub general_per_minute: u32,
}

/// The limits that hold where nothing is configured.
pub open spec fn default_limits() -> RateLimitConfig {
    RateLimitConfig {
        verify_per_minute: 60,
        settle_per_minute: 30,
        transaction_status_per_minute: 120,
        general_per_minute: 300,
    }
}

/// What one setting comes to: the number that its text spells, or the
/// default where the setting is absent or spells no number.
pub open spec fn setting(text: Option<Seq<u8>>, default: u32) -> u32 {
    match text {
        Some(t) => match parsed_u32(t) {
            Some(v) => v,
            None => default,
        },
        None => default,
    }
}

/// The bytes of an optional text.
pub open spec fn text_bytes(text: Option<&str>) -> Option<Seq<u8>> {
    match text {
        Some(t) => Some(t.spec_bytes()),
        None => None,
    }
}

/// The limits that four settings come to.
pub open spec fn configured(
    verify: Option<Seq<u8>>,
    settle: Option<Seq<u8>>,
    transaction_status: Option<Seq<u8>>,
    general: Option<Seq<u8>>,
) -> RateLimitConfig {
    RateLimitConfig {
        verify_per_minute: setting(verify, 60),
        settle_per_minute: setting(settle, 30),
        transaction_status_per_minute: setting(transaction_status, 120),
        general_per_minute: setting(general, 300),
    }
}

/// Rate limiting is switched off: every limit is 0.
pub open spec fn is_disabled(config: RateLimitConfig) -> bool {
    &&& config.verify_per_minute == 0
    &&& config.settle_per_minute == 0
    &&& config.transaction_status_per_minute == 0
    &&& config.general_per_minute == 0
}

fn read_setting(text: Option<&str>, default: u32) -> (r: u32)
    ensures
        r == setting(text_bytes(text), default),
{
    match text {
        Some(t) => match parse_u32(t.as_bytes()) {
            Some(v) => v,
            None => default,
        },
        None => default,
    }
}

/// The layer that `tower::limit::RateLimitLayer::new` makes for `rate`
/// requests in each period of `seconds` seconds.
pub uninterp spec fn layer_of(rate: u64, seconds: u64) -> tower::limit::RateLimitLayer;

/// The builder that `tower::ServiceBuilder::new` gives once `layer` has been
/// added to it: a builder whose only layer is `layer`.
pub uninterp spec fn builder_of(layer: tower::limit::RateLimitLayer) -> tower::ServiceBuilder<
    tower::layer::util::Stack<tower::limit::RateLimitLayer, tower::layer::util::Identity>,
>;

/// The number of seconds over which every limit is counted.
pub open spec fn period_seconds() -> u64 {
    60
}

/// The limit that applies to general endpoints: the configured one, or the
/// largest 32-bit number where nothing is configured.
pub open spec fn general_limit_of(config: Option<&RateLimitConfig>) -> u64 {
    match config {
        Some(c) => c.general_per_minute as u64,
        None => u32::MAX as u64,
    }
}

/// Calls `tower::limit::RateLimitLayer::new` with a period of `seconds`.
/// Trusted: the call returns for a rate and a period above 0 (for 0 it
/// panics), and what it returns is the layer named `layer_of`: the layer
/// holds the rate and the period and nothing else.
#[verifier::external_body]
fn new_layer(rate: u64, seconds: u64) -> (r: tower::limit::RateLimitLayer)
    requires
        rate > 0,
        seconds > 0,
    ensures
        r == layer_of(rate, seconds),
{
    tower::limit::RateLimitLayer::new(rate, std::time::Duration::from_secs(seconds))
}

/// Calls `tower::ServiceBuilder::new` and `layer` on what it gives, with
/// `layer`. Trusted: what comes back is the builder named `builder_of`: the
/// builder holds the layer over an identity layer and nothing else.
#[verifier::external_body]
fn new_builder(layer: tower::limit::RateLimitLayer) -> (r: tower::ServiceBuilder<
    tower::layer::util::Stack<tower::limit::RateLimitLayer, tower::layer::util::Identity>,
>)
    ensures
        r == builder_of(layer),
{
    tower::ServiceBuilder::new().layer(layer)
}

/// A service builder that admits the general limit of `config` per minute,
/// or the largest 32-bit number of requests where there is no `config`.
pub fn create_rate_limited_service_builder(config: Option<&RateLimitConfig>) -> (r:
    tower::ServiceBuilder<
        tower::layer::util::Stack<tower::limit::RateLimitLayer, tower::layer::util::Identity>,
    >)
    requires
        config matches Some(c) ==> c.general_per_minute > 0,
    ensures
        r == builder_of(layer_of(general_limit_of(config), period_seconds())),
{
    new_builder(new_layer(RateLimitConfig::general_limit(config), 60))
}

impl Default for RateLimitConfig {
    fn default() -> (r: RateLimitConfig)
        ensures
            r == default_limits(),
    {
        RateLimitConfig {
            verify_per_minute: 60,
            settle_per_minute: 30,
            transaction_status_per_minute: 120,
            general_per_minute: 300,
        }
    }
}

impl RateLimitConfig {
    /// The limits that the four settings come to, each given as the text
    /// found for it, if any. `None` where rate limiting is switched off:
    /// where every limit comes to 0.
    pub fn from_settings(
        verify: Option<&str>,
        settle: Option<&str>,
        transaction_status: Option<&str>,
        general: Option<&str>,
    ) -> (r: Option<RateLimitConfig>)
        ensures
            r == if is_disabled(
                configured(
                    text_bytes(verify),
                    text_bytes(settle),
                    text_bytes(transaction_status),
                    text_bytes(general),
                ),
            ) {
                None
            } else {
                Some(
                    configured(
                        text_bytes(verify),
                        text_bytes(settle),
                        text_bytes(transaction_status),
                        text_bytes(general),
                    ),
                )
            },
    {
        let verify = read_setting(verify, 60);
        let settle = read_setting(settle, 30);
        let transaction_status = read_setting(transaction_status, 120);
        let general = read_setting(general, 300);
        if verify == 0 && settle == 0 && transaction_status == 0 && general == 0 {
            return None;
        }
        Some(
            RateLimitConfig {
                verify_per_minute: verify,
                settle_per_minute: settle,
                transaction_status_per_minute: transaction_status,
                general_per_minute: general,
            },
        )
    }

    /// The limit that applies to general endpoints: the configured one, or
    /// the largest 32-bit number where nothing is configured.
    pub fn general_limit(config: Option<&RateLimitConfig>) -> (r: u64)
        ensures
            r == general_limit_of(config),
    {
        match config {
            Some(c) => c.general_per_minute as u64,
            None => u32::MAX as u64,
        }
    }

    /// A layer that admits `verify_per_minute` requests per minute.
    pub fn verify_layer(&self) -> (r: tower::limit::RateLimitLayer)
        requires
            self.verify_per_minute > 0,
        ensures
            r == layer_of(self.verify_per_minute as u64, period_seconds()),
    {
        new_layer(self.verify_per_minute as u64, 60)
    }

    /// A layer that admits `settle_per_minute` requests per minute.
    pub fn settle_layer(&self) -> (r: tower::limit::RateLimitLayer)
        requires
            self.settle_per_minute > 0,
        ensures
            r == layer_of(self.settle_per_minute as u64, period_seconds()),
    {
        new_layer(self.settle_per_minute as u64, 60)
    }

    /// A layer that admits `transaction_status_per_minute` requests per minute.
    pub fn transaction_status_layer(&self) -> (r: tower::limit::RateLimitLayer)
        requires
            self.transaction_status_per_minute > 0,
        ensures
            r == layer_of(self.transaction_status_per_minute as u64, period_seconds()),
    {
        new_layer(self.transaction_status_per_minute as u64, 60)
    }

    /// A layer that admits `general_per_minute` requests per minute.
    pub fn general_layer(&self) -> (r: tower::limit::RateLimitLayer)
        requires
            self.general_per_minute > 0,
        ensures
            r == layer_of(self.general_per_minute as u64, period_seconds()),
    {
        new_layer(self.general_per_minute as u64, 60)
    }
}

} // verus!
