//! Backoff delay policy for retries against the message bus: a flat warm-up
//! period followed by linear growth capped at a ceiling.

use vstd::prelude::*;

verus! {

/// Backoff delay options for the retries to the message bus.
/// All delays are in milliseconds.
#[derive(Clone, Copy, Debug)]
pub struct BackoffOptions {
    /// Initial delay.
    pub init_delay: u64,
    /// The number of attempts with initial delay.
    pub cutoff: u32,
    /// Increase in delay with each retry after cutoff is reached.
    pub step: u64,
    /// Maximum delay.
    pub max_delay: u64,
    /// Maximum retries.
    pub max_retries: u32,
}

/// Default initial delay (5 s).
pub const DEFAULT_INIT_DELAY: u64 = 5000;

/// Default number of attempts made with the initial delay.
pub const DEFAULT_CUTOFF: u32 = 4;

/// Default per-attempt delay increase past the cutoff (2 s).
pub const DEFAULT_STEP: u64 = 2000;

/// Default delay ceiling (10 s).
pub const DEFAULT_MAX_DELAY: u64 = 10000;

/// Default ceiling on attempts before a bounded retry loop gives up.
pub const DEFAULT_MAX_RETRIES: u32 = 10;

impl BackoffOptions {
    /// True if the options are exactly the general-purpose defaults.
    pub open spec fn is_default(self) -> bool {
        &&& self.init_delay == DEFAULT_INIT_DELAY
        &&& self.cutoff == DEFAULT_CUTOFF
        &&& self.step == DEFAULT_STEP
        &&& self.max_delay == DEFAULT_MAX_DELAY
        &&& self.max_retries == DEFAULT_MAX_RETRIES
    }

    /// New options with default values.
    pub fn new() -> (opts: Self)
        ensures
            opts.is_default(),
    {
        Self {
            init_delay: DEFAULT_INIT_DELAY,
            cutoff: DEFAULT_CUTOFF,
            step: DEFAULT_STEP,
            max_delay: DEFAULT_MAX_DELAY,
            max_retries: DEFAULT_MAX_RETRIES,
        }
    }

    /// Initial delay before the first retry.
    pub fn with_init_delay(self, init_delay: u64) -> (opts: Self)
        ensures
            opts == (Self { init_delay, ..self }),
    {
        Self { init_delay, ..self }
    }

    /// Delay added at each iteration past the cutoff.
    pub fn with_delay_step(self, step: u64) -> (opts: Self)
        ensures
            opts == (Self { step, ..self }),
    {
        Self { step, ..self }
    }

    /// Number of tries with the initial delay.
    pub fn with_cutoff(self, cutoff: u32) -> (opts: Self)
        ensures
            opts == (Self { cutoff, ..self }),
    {
        Self { cutoff, ..self }
    }

    /// Maximum delay.
    pub fn with_max_delay(self, max_delay: u64) -> (opts: Self)
        ensures
            opts == (Self { max_delay, ..self }),
    {
        Self { max_delay, ..self }
    }

    /// Maximum number of retries before a bounded retry loop gives up.
    pub fn with_max_retries(self, max_retries: u32) -> (opts: Self)
        ensures
            opts == (Self { max_retries, ..self }),
    {
        Self { max_retries, ..self }
    }

    /// Backoff options used by the publish retry loop. Currently identical to
    /// the general-purpose defaults; kept distinct so the two call sites can
    /// diverge without an interface change.
    pub fn publish_backoff_options() -> (opts: Self)
        ensures
            opts.is_default(),
    {
        Self {
            init_delay: DEFAULT_INIT_DELAY,
            cutoff: DEFAULT_CUTOFF,
            step: DEFAULT_STEP,
            max_delay: DEFAULT_MAX_DELAY,
            max_retries: DEFAULT_MAX_RETRIES,
        }
    }
}

impl Default for BackoffOptions {
    /// Same values as `BackoffOptions::new`.
    fn default() -> (opts: Self)
        ensures
            opts.is_default(),
    {
        Self::new()
    }
}

/// The delay, in milliseconds, that the policy assigns to attempt number
/// `attempts` (counting from 1): `init_delay` through the cutoff, then linear
/// growth by `step` per attempt, capped at `max_delay`.
pub open spec fn delay_millis(options: BackoffOptions, attempts: u32) -> int {
    if attempts <= options.cutoff {
        options.init_delay as int
    } else {
        let grown = options.init_delay + (attempts - options.cutoff - 1) * options.step;
        if grown <= options.max_delay {
            grown
        } else {
            options.max_delay as int
        }
    }
}

/// Simple backoff delay which gets gradually larger up to a 'max' duration.
///
/// Increments the attempt counter (the counter is owned by the retry loop and
/// advanced only here) and returns the delay the caller is to wait before the
/// next attempt.
pub fn backoff_with_options(tries: &mut u32, options: &BackoffOptions) -> (delay: u64)
    requires
        *old(tries) < u32::MAX,
    ensures
        *final(tries) == *old(tries) + 1,
        delay == delay_millis(*options, *final(tries)),
{
    *tries += 1;
    if *tries <= options.cutoff {
        options.init_delay
    } else {
        let extra: u64 = (*tries - options.cutoff - 1) as u64;
        match extra.checked_mul(options.step) {
            Some(growth) => match options.init_delay.checked_add(growth) {
                Some(grown) => {
                    if grown <= options.max_delay {
                        grown
                    } else {
                        options.max_delay
                    }
                },
                None => options.max_delay,
            },
            None => options.max_delay,
        }
    }
}

/// The computed delay never exceeds the ceiling, provided the initial delay
/// respects it.
pub proof fn lemma_backoff_bounded(options: BackoffOptions, attempts: u32)
    requires
        options.init_delay <= options.max_delay,
    ensures
        delay_millis(options, attempts) <= options.max_delay,
{
    if attempts > options.cutoff {
        assert((attempts - options.cutoff - 1) * options.step >= 0) by (nonlinear_arith)
            requires
                options.cutoff < attempts,
        ;
    }
}

/// The computed delay is monotonically non-decreasing in the attempt count,
/// provided the initial delay respects the ceiling.
pub proof fn lemma_backoff_monotonic(options: BackoffOptions, a1: u32, a2: u32)
    requires
        a1 <= a2,
        options.init_delay <= options.max_delay,
    ensures
        delay_millis(options, a1) <= delay_millis(options, a2),
{
    if a1 <= options.cutoff && a2 > options.cutoff {
        assert((a2 - options.cutoff - 1) * options.step >= 0) by (nonlinear_arith)
            requires
                options.cutoff < a2,
        ;
    } else if a1 > options.cutoff {
        assert((a1 - options.cutoff - 1) * options.step <= (a2 - options.cutoff - 1)
            * options.step) by (nonlinear_arith)
            requires
                options.cutoff < a1 <= a2,
        ;
    }
}

} // verus!
