//! Repeated attempts with growing delays.

use vstd::prelude::*;

use crate::config::S2cRetryOptions;
use vstd::arithmetic::power2::{lemma_pow2_pos, lemma_pow2_strictly_increases, lemma_pow2_unfold, pow2};
use vstd::bits::lemma_u64_shl_is_mul;

verus! {

/// Counts the attempts of an operation and says how long to wait before the next one.
pub struct BackoffCounter<'a> {
    name: String,
    current_attempt: u32,
    s2c_retry_options: &'a S2cRetryOptions,
}

/// The contents of a [`BackoffCounter`].
pub struct BackoffCounterView {
    pub name: Seq<char>,
    pub current_attempt: u32,
    pub options: S2cRetryOptions,
}

impl<'a> View for BackoffCounter<'a> {
    type V = BackoffCounterView;

    closed spec fn view(&self) -> BackoffCounterView {
        BackoffCounterView {
            name: self.name@,
            current_attempt: self.current_attempt,
            options: *self.s2c_retry_options,
        }
    }
}

impl BackoffCounterView {
    /// The limit leaves room for one more attempt.
    pub open spec fn can_attempt(self) -> bool {
        self.options.max_attempts matches Some(max) ==> self.current_attempt + 1 <= max
    }

    /// The counter after a call of [`BackoffCounter::await_attempt`].
    pub open spec fn after_attempt(self) -> BackoffCounterView {
        if self.can_attempt() {
            BackoffCounterView { current_attempt: (self.current_attempt + 1) as u32, ..self }
        } else {
            self
        }
    }

    /// The counter after a number of calls of [`BackoffCounter::await_attempt`].
    pub open spec fn after_attempts(self, n: nat) -> BackoffCounterView
        decreases n,
    {
        if n == 0 {
            self
        } else {
            self.after_attempts((n - 1) as nat).after_attempt()
        }
    }

    /// The counter after a call of [`BackoffCounter::reset`].
    pub open spec fn after_reset(self) -> BackoffCounterView {
        BackoffCounterView { current_attempt: 0, ..self }
    }
}

/// The longest delay in milliseconds, as a 64-bit number.
pub open spec fn max_delay_ms(options: S2cRetryOptions) -> nat {
    ((options.max_delay_seconds * 1000) % 0x1_0000_0000_0000_0000) as nat
}

/// The longest wait before the given attempt, counted from 1: the base delay, doubled with each
/// further attempt, and never above the longest delay.
pub open spec fn delay_cap(options: S2cRetryOptions, attempt: nat) -> nat
    recommends
        attempt >= 1,
{
    let doubled = options.base_delay_ms as nat * pow2((attempt - 1) as nat);
    if doubled <= max_delay_ms(options) {
        doubled
    } else {
        max_delay_ms(options)
    }
}

impl<'a> BackoffCounter<'a> {
    /// A counter that has seen no attempt.
    pub fn new(name: String, s2c_retry_options: &'a S2cRetryOptions) -> (counter: Self)
        ensures
            counter@ == (BackoffCounterView {
                name: name@,
                current_attempt: 0,
                options: *s2c_retry_options,
            }),
    {
        BackoffCounter { name, current_attempt: 0, s2c_retry_options }
    }

    /// What the counter is for.
    pub fn name(&self) -> (name: &str)
        ensures
            name@ == self@.name,
    {
        self.name.as_str()
    }

    /// Counts the next attempt, if the limit allows one, and gives the longest wait before it in
    /// milliseconds; the caller waits for a random part of that.
    pub fn await_attempt(&mut self) -> (delay_cap_ms: Option<u64>)
        requires
            old(self)@.current_attempt < u32::MAX,
        ensures
            final(self)@ == old(self)@.after_attempt(),
            match delay_cap_ms {
                Some(ms) => old(self)@.can_attempt() && ms == delay_cap(
                    old(self)@.options,
                    final(self)@.current_attempt as nat,
                ),
                None => !old(self)@.can_attempt(),
            },
    {
        if !self.can_attempt() {
            return None;
        }
        self.current_attempt = self.current_attempt + 1;
        Some(self.delay_cap_ms(self.current_attempt))
    }

    /// How many attempts were counted.
    pub fn current_attempt(&self) -> (attempt: u32)
        ensures
            attempt == self@.current_attempt,
    {
        self.current_attempt
    }

    /// Whether the limit allows one more attempt.
    pub fn can_attempt(&self) -> (possible: bool)
        requires
            self@.options.max_attempts is Some ==> self@.current_attempt < u32::MAX,
        ensures
            possible == self@.can_attempt(),
    {
        if let Some(max_attempts) = self.s2c_retry_options.max_attempts {
            return self.current_attempt + 1 <= max_attempts;
        }
        true
    }

    /// Forgets the attempts so far.
    pub fn reset(&mut self)
        ensures
            final(self)@ == old(self)@.after_reset(),
    {
        self.current_attempt = 0;
    }

    /// The longest wait before the given attempt in milliseconds.
    pub fn delay_cap_ms(&self, attempt: u32) -> (ms: u64)
        requires
            attempt >= 1,
        ensures
            ms == delay_cap(self@.options, attempt as nat),
    {
        let max_ms: u64 = truncated_millis(self.s2c_retry_options.max_delay_seconds);
        // -1 for the multiplier to be 1 for the first attempt
        let doublings: u32 = attempt - 1;
        let base_backoff_ms: u64 = self.s2c_retry_options.base_delay_ms;
        let multiplier: u64 = if doublings < 64 {
            proof {
                lemma_doublings(doublings as u64);
            }
            1u64 << (doublings as u64)
        } else {
            u64::MAX
        };
        let calculated_ms: u64 = match base_backoff_ms.checked_mul(multiplier) {
            Some(ms) => ms,
            None => u64::MAX,
        };
        proof {
            lemma_delay_cap(
                base_backoff_ms as nat,
                doublings as nat,
                multiplier as nat,
                calculated_ms as nat,
                max_ms as nat,
            );
        }
        if calculated_ms <= max_ms {
            calculated_ms
        } else {
            max_ms
        }
    }
}

/// A number of seconds in milliseconds, cut to 64 bits.
fn truncated_millis(seconds: u64) -> (ms: u64)
    ensures
        ms == (seconds * 1000) % 0x1_0000_0000_0000_0000,
{
    let millis: u128 = seconds as u128 * 1000;
    assert(millis as u64 == millis % 0x1_0000_0000_0000_0000) by (bit_vector);
    #[verifier::truncate]
    (millis as u64)
}

proof fn lemma_doublings(n: u64)
    requires
        n < 64,
    ensures
        (1u64 << n) == pow2(n as nat),
        pow2(n as nat) <= u64::MAX,
{
    vstd::bits::lemma_u64_pow2_no_overflow(n as nat);
    lemma_u64_shl_is_mul(1u64, n);
}

/// Saturating in 64 bits changes nothing below the longest delay.
proof fn lemma_delay_cap(base: nat, doublings: nat, multiplier: nat, calculated: nat, max: nat)
    requires
        max <= u64::MAX,
        doublings < 64 ==> multiplier == pow2(doublings),
        doublings >= 64 ==> multiplier == u64::MAX,
        base * multiplier <= u64::MAX ==> calculated == base * multiplier,
        base * multiplier > u64::MAX ==> calculated == u64::MAX,
    ensures
        base * pow2(doublings) <= max ==> calculated == base * pow2(doublings),
        base * pow2(doublings) > max ==> (if calculated <= max { calculated } else { max }) == max,
{
    if doublings >= 64 {
        assert(pow2(doublings) > u64::MAX) by {
            vstd::arithmetic::power2::lemma2_to64();
            if doublings > 64 {
                lemma_pow2_strictly_increases(64, doublings);
            }
        }
        if base > 0 {
            assert(base * pow2(doublings) >= pow2(doublings)) by (nonlinear_arith)
                requires
                    base > 0,
            ;
            assert(base * multiplier >= multiplier) by (nonlinear_arith)
                requires
                    base > 0,
            ;
        } else {
            assert(base * pow2(doublings) == 0) by (nonlinear_arith)
                requires
                    base == 0,
            ;
            assert(base * multiplier == 0) by (nonlinear_arith)
                requires
                    base == 0,
            ;
        }
    }
}

/// The wait never goes above the longest delay, and the first one is the base delay.
pub proof fn law_delay_is_bounded(options: S2cRetryOptions, attempt: nat)
    requires
        attempt >= 1,
    ensures
        delay_cap(options, attempt) <= max_delay_ms(options),
        options.base_delay_ms <= max_delay_ms(options) ==> delay_cap(options, 1)
            == options.base_delay_ms,
{
    assert(pow2(0) == 1) by {
        vstd::arithmetic::power2::lemma2_to64();
    }
    assert(options.base_delay_ms as nat * 1 == options.base_delay_ms as nat);
}

/// Each attempt waits up to twice as long as the one before, until the longest delay is reached.
pub proof fn law_delay_doubles(options: S2cRetryOptions, attempt: nat)
    requires
        attempt >= 1,
    ensures
        delay_cap(options, attempt + 1) == if 2 * delay_cap(options, attempt) <= max_delay_ms(
            options,
        ) {
            2 * delay_cap(options, attempt)
        } else {
            max_delay_ms(options)
        },
        delay_cap(options, attempt) <= delay_cap(options, attempt + 1),
{
    let base = options.base_delay_ms as nat;
    let e = (attempt - 1) as nat;
    lemma_pow2_unfold(e + 1);
    assert(base * pow2(e + 1) == 2 * (base * pow2(e))) by (nonlinear_arith)
        requires
            pow2(e + 1) == 2 * pow2(e),
    ;
    assert((attempt + 1 - 1) as nat == e + 1);
    assert(base * pow2(e) >= 0) by (nonlinear_arith);
}

/// With a limit, that many attempts are counted and no more; without one, each call counts.
pub proof fn law_attempts_are_limited(counter: BackoffCounterView, n: nat)
    requires
        counter.current_attempt == 0,
        n <= u32::MAX,
    ensures
        counter.options.max_attempts matches Some(max) ==> counter.after_attempts(
            n,
        ).current_attempt == if n <= max { n } else { max as nat } && (counter.after_attempts(
            n,
        ).can_attempt() <==> n < max),
        counter.options.max_attempts is None ==> counter.after_attempts(n).current_attempt == n
            && counter.after_attempts(n).can_attempt(),
        counter.after_attempts(n).options == counter.options,
        counter.after_attempts(n).name == counter.name,
    decreases n,
{
    if n > 0 {
        law_attempts_are_limited(counter, (n - 1) as nat);
    }
}

/// A reset gives back the counter as it was made.
pub proof fn law_reset_restores(counter: BackoffCounterView, n: nat)
    requires
        counter.current_attempt == 0,
        n <= u32::MAX,
    ensures
        counter.after_attempts(n).after_reset() == counter,
{
    law_attempts_are_limited(counter, n);
}

/// The first wait is the base delay, or the longest delay where that is shorter. The longest delay
/// is the number of seconds in milliseconds, up to a multiple of what 64 bits can count.
pub proof fn law_first_delay(options: S2cRetryOptions)
    ensures
        options.base_delay_ms >= max_delay_ms(options) ==> delay_cap(options, 1) == max_delay_ms(
            options,
        ),
        options.base_delay_ms <= max_delay_ms(options) ==> delay_cap(options, 1)
            == options.base_delay_ms,
        options.max_delay_seconds * 1000 <= u64::MAX ==> max_delay_ms(options)
            == options.max_delay_seconds * 1000,
        max_delay_ms(options) <= u64::MAX,
        exists|k: int|
            options.max_delay_seconds * 1000 == #[trigger] (k * 0x1_0000_0000_0000_0000)
                + max_delay_ms(options),
{
    law_delay_is_bounded(options, 1);
    assert(pow2(0) == 1) by {
        vstd::arithmetic::power2::lemma2_to64();
    }
    assert(options.base_delay_ms as nat * 1 == options.base_delay_ms as nat);
    let k = (options.max_delay_seconds * 1000) / 0x1_0000_0000_0000_0000;
    assert(options.max_delay_seconds * 1000 == (k * 0x1_0000_0000_0000_0000) + max_delay_ms(
        options,
    ));
}

/// An attempt is possible exactly where fewer were counted than the limit, if there is one. A call
/// counts exactly one attempt, where one is possible, and none otherwise; a reset counts none. The
/// name and the options stay.
pub proof fn law_attempts_are_counted_one_by_one(counter: BackoffCounterView)
    requires
        counter.current_attempt < u32::MAX,
    ensures
        match counter.options.max_attempts {
            Some(max) => counter.can_attempt() <==> counter.current_attempt < max,
            None => counter.can_attempt(),
        },
        counter.can_attempt() ==> counter.after_attempt().current_attempt == counter.current_attempt
            + 1,
        !counter.can_attempt() ==> counter.after_attempt() == counter,
        counter.after_attempt().name == counter.name,
        counter.after_attempt().options == counter.options,
        counter.after_reset().current_attempt == 0,
        counter.after_reset().name == counter.name,
        counter.after_reset().options == counter.options,
{
}

} // verus!
