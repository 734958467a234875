//! Protobuf-style points in time and time spans, with normalization to a
//! canonical form.

use vstd::prelude::*;
use vstd::arithmetic::div_mod::lemma_fundamental_div_mod_converse;

verus! {

/// Nanoseconds in a second.
pub const NANOS_PER_SECOND: i32 = 1_000_000_000;

/// A point in time: seconds and nanoseconds since the Unix epoch.
#[derive(Clone, Copy, Debug, PartialEq, Eq, Structural)]
pub struct Timestamp {
    /// Seconds since the epoch.
    pub seconds: i64,
    /// Nanosecond offset within the second.
    pub nanos: i32,
}

/// A span of time in the same shape as `Timestamp`.
#[derive(Clone, Copy, Debug, PartialEq, Eq, Structural)]
pub struct Duration {
    /// Whole seconds of the span.
    pub seconds: i64,
    /// Nanosecond remainder of the span.
    pub nanos: i32,
}

impl Timestamp {
    /// Canonical form: the nanosecond part lies within one second.
    pub open spec fn is_normalized(self) -> bool {
        0 <= self.nanos < NANOS_PER_SECOND
    }

    /// The instant as a single nanosecond count since the epoch.
    pub open spec fn total_nanos(self) -> int {
        self.seconds * (NANOS_PER_SECOND as int) + self.nanos
    }

    /// Normalizes the timestamp to a canonical format: the represented
    /// instant is kept and the nanosecond part is folded into the seconds
    /// until it lies within one second. An instant whose canonical seconds
    /// fall outside the representable range is clamped to the earliest or
    /// latest normal value.
    pub fn normalize(&mut self)
        ensures
            final(self).is_normalized(),
            ({
                let canonical_seconds = old(self).total_nanos() / (NANOS_PER_SECOND as int);
                if canonical_seconds < i64::MIN {
                    final(self).seconds == i64::MIN && final(self).nanos == 0
                } else if canonical_seconds > i64::MAX {
                    final(self).seconds == i64::MAX && final(self).nanos == 999_999_999
                } else {
                    final(self).seconds == canonical_seconds && final(self).nanos == old(
                        self,
                    ).total_nanos() % (NANOS_PER_SECOND as int)
                }
            }),
    {
        let ghost t = self.total_nanos();
        // Make sure nanos is in the range.
        if self.nanos <= -NANOS_PER_SECOND || self.nanos >= NANOS_PER_SECOND {
            let carry: i64 = if self.nanos >= NANOS_PER_SECOND {
                if self.nanos >= 2_000_000_000 {
                    2
                } else {
                    1
                }
            } else {
                if self.nanos <= -2_000_000_000 {
                    -2
                } else {
                    -1
                }
            };
            proof {
                assert(-2 <= carry <= 2);
            }
            let remainder = (self.nanos as i64) - carry * (NANOS_PER_SECOND as i64);
            proof {
                assert(-(NANOS_PER_SECOND as i64) < remainder < (NANOS_PER_SECOND as i64));
            }
            match self.seconds.checked_add(carry) {
                Some(seconds) => {
                    self.seconds = seconds;
                    self.nanos = remainder as i32;
                },
                None => {
                    if self.nanos < 0 {
                        // Negative overflow! Set to the earliest normal value.
                        proof {
                            lemma_clamped_low(
                                t,
                                old(self).seconds + carry,
                                remainder as int,
                            );
                        }
                        self.seconds = i64::MIN;
                        self.nanos = 0;
                    } else {
                        // Positive overflow! Set to the latest normal value.
                        proof {
                            lemma_clamped_high(
                                t,
                                old(self).seconds + carry,
                                remainder as int,
                            );
                        }
                        self.seconds = i64::MAX;
                        self.nanos = 999_999_999;
                    }
                    return ;
                },
            }
        }
        // Nanos is now within one second of zero; fold a negative remainder
        // into the seconds.
        if self.nanos < 0 {
            match self.seconds.checked_sub(1) {
                Some(seconds) => {
                    self.seconds = seconds;
                    self.nanos = self.nanos + NANOS_PER_SECOND;
                },
                None => {
                    // Negative overflow! Set to the earliest normal value.
                    proof {
                        lemma_clamped_low(t, self.seconds as int, self.nanos as int);
                    }
                    self.seconds = i64::MIN;
                    self.nanos = 0;
                    return ;
                },
            }
        }
        proof {
            lemma_fundamental_div_mod_converse(
                t,
                NANOS_PER_SECOND as int,
                self.seconds as int,
                self.nanos as int,
            );
        }
    }
}

/// An instant whose partly-folded form `s1` seconds plus `n1` nanoseconds
/// already undershoots the range has canonical seconds below `i64::MIN`.
proof fn lemma_clamped_low(t: int, s1: int, n1: int)
    requires
        t == s1 * (NANOS_PER_SECOND as int) + n1,
        -(NANOS_PER_SECOND as int) < n1 <= 0,
        s1 < i64::MIN || (s1 == i64::MIN && n1 < 0),
    ensures
        t / (NANOS_PER_SECOND as int) < i64::MIN,
{
    let n = NANOS_PER_SECOND as int;
    if n1 == 0 {
        lemma_fundamental_div_mod_converse(t, n, s1, 0);
    } else {
        assert(t == (s1 - 1) * n + (n1 + n)) by (nonlinear_arith)
            requires
                t == s1 * n + n1,
        ;
        lemma_fundamental_div_mod_converse(t, n, s1 - 1, n1 + n);
    }
}

/// An instant whose partly-folded form `s1` seconds plus `n1` nanoseconds
/// already overshoots the range has canonical seconds above `i64::MAX`.
proof fn lemma_clamped_high(t: int, s1: int, n1: int)
    requires
        t == s1 * (NANOS_PER_SECOND as int) + n1,
        0 <= n1 < (NANOS_PER_SECOND as int),
        s1 > i64::MAX,
    ensures
        t / (NANOS_PER_SECOND as int) > i64::MAX,
{
    lemma_fundamental_div_mod_converse(t, NANOS_PER_SECOND as int, s1, n1);
}

} // verus!
