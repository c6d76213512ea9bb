//! Retry decisions and retry accounting for clients.

use vstd::prelude::*;

use crate::exchange::ClientError;

verus! {

/// Counters of retry behaviour. Each counter wraps around at `u64::MAX`,
/// as an atomic `fetch_add` does.
#[derive(Debug)]
pub struct RetryMetrics {
    total_retries: u64,
    successful_after_retry: u64,
    failed_after_max_retries: u64,
}

/// `n + 1`, wrapping to zero after `u64::MAX`.
pub open spec fn bump(n: u64) -> u64 {
    if n == u64::MAX {
        0
    } else {
        (n + 1) as u64
    }
}

impl RetryMetrics {
    /// Retry attempts made.
    pub closed spec fn total(&self) -> u64 {
        self.total_retries
    }

    /// Requests that succeeded after retrying.
    pub closed spec fn successes(&self) -> u64 {
        self.successful_after_retry
    }

    /// Requests that failed after exhausting their attempts.
    pub closed spec fn failures(&self) -> u64 {
        self.failed_after_max_retries
    }

    /// All counters at zero.
    pub fn new() -> (r: RetryMetrics)
        ensures
            r.total() == 0,
            r.successes() == 0,
            r.failures() == 0,
    {
        RetryMetrics { total_retries: 0, successful_after_retry: 0, failed_after_max_retries: 0 }
    }

    /// Records a retry attempt.
    pub fn increment_total_retries(&mut self)
        ensures
            final(self).total() == bump(old(self).total()),
            final(self).successes() == old(self).successes(),
            final(self).failures() == old(self).failures(),
    {
        self.total_retries = self.total_retries.wrapping_add(1);
    }

    /// Records a request that succeeded after retrying.
    pub fn record_success_after_retry(&mut self)
        ensures
            final(self).total() == old(self).total(),
            final(self).successes() == bump(old(self).successes()),
            final(self).failures() == old(self).failures(),
    {
        self.successful_after_retry = self.successful_after_retry.wrapping_add(1);
    }

    /// Records a request that failed after exhausting its attempts.
    pub fn record_max_retries_exceeded(&mut self)
        ensures
            final(self).total() == old(self).total(),
            final(self).successes() == old(self).successes(),
            final(self).failures() == bump(old(self).failures()),
    {
        self.failed_after_max_retries = self.failed_after_max_retries.wrapping_add(1);
    }

    /// Retry attempts made.
    pub fn get_total_retries(&self) -> (r: u64)
        ensures
            r == self.total(),
    {
        self.total_retries
    }

    /// Requests that succeeded after retrying.
    pub fn get_successful_after_retry(&self) -> (r: u64)
        ensures
            r == self.successes(),
    {
        self.successful_after_retry
    }

    /// Requests that failed after exhausting their attempts.
    pub fn get_failed_after_max_retries(&self) -> (r: u64)
        ensures
            r == self.failures(),
    {
        self.failed_after_max_retries
    }

    /// Sets every counter back to zero.
    pub fn reset(&mut self)
        ensures
            final(self).total() == 0,
            final(self).successes() == 0,
            final(self).failures() == 0,
    {
        self.total_retries = 0;
        self.successful_after_retry = 0;
        self.failed_after_max_retries = 0;
    }
}

impl Default for RetryMetrics {
    fn default() -> (r: RetryMetrics)
        ensures
            r.total() == 0,
            r.successes() == 0,
            r.failures() == 0,
    {
        RetryMetrics::new()
    }
}

/// A user-supplied rule deciding whether an error is worth retrying.
pub trait RetryRule: Send + Sync {
    /// The rule may answer `retry` for `error`.
    spec fn answers(&self, error: ClientError, retry: bool) -> bool;

    fn retryable(&self, error: &ClientError) -> (r: bool)
        ensures
            self.answers(*error, r),
    ;
}

/// Adapts a closure into a [`RetryRule`].
pub struct RetryFn<F: Fn(&ClientError) -> bool + Send + Sync> {
    f: F,
}

impl<F: Fn(&ClientError) -> bool + Send + Sync> RetryFn<F> {
    #[verifier::type_invariant]
    spec fn callable(self) -> bool {
        forall|e: &ClientError| #[trigger] self.f.requires((e,))
    }

    /// The closure the rule applies.
    pub closed spec fn closure(self) -> F {
        self.f
    }

    /// A rule that applies `f`.
    pub fn new(f: F) -> (r: Self)
        requires
            forall|e: &ClientError| #[trigger] f.requires((e,)),
        ensures
            r.closure() == f,
    {
        RetryFn { f }
    }
}

impl<F: Fn(&ClientError) -> bool + Send + Sync> RetryRule for RetryFn<F> {
    /// What the closure may answer for `error`.
    open spec fn answers(&self, error: ClientError, retry: bool) -> bool {
        self.closure().ensures((&error,), retry)
    }

    /// Answers what the closure answers for `error`.
    fn retryable(&self, error: &ClientError) -> (r: bool) {
        proof {
            use_type_invariant(self);
        }
        (self.f)(error)
    }
}

/// Which client errors are retried.
pub enum ErrorPredicate {
    /// Connection and I/O errors only.
    NetworkOnly,
    /// Connection, I/O and protocol errors (a missing answer is a protocol
    /// error).
    NetworkAndTimeout,
    /// A user-supplied rule decides.
    Custom(Box<dyn RetryRule>),
}

/// Whether the built-in predicates retry an error.
pub open spec fn network_error(e: ClientError) -> bool {
    e is Connection || e is Io
}

impl ErrorPredicate {
    /// A predicate that applies the closure `f`.
    pub fn custom<F: Fn(&ClientError) -> bool + Send + Sync + 'static>(f: F) -> (r: ErrorPredicate)
        requires
            forall|e: &ClientError| #[trigger] f.requires((e,)),
        ensures
            r matches ErrorPredicate::Custom(rule) ==> forall|e: ClientError, b: bool|
                rule.answers(e, b) == f.ensures((&e,), b),
            r is Custom,
    {
        ErrorPredicate::Custom(Box::new(RetryFn::new(f)))
    }

    /// Whether `error` should be retried.
    pub fn is_retryable(&self, error: &ClientError) -> (r: bool)
        ensures
            self is NetworkOnly ==> r == network_error(*error),
            self is NetworkOnly ==> (r <==> (error is Connection || error is Io)),
            self is NetworkAndTimeout ==> (r <==> (error is Connection || error is Io
                || error is Protocol)),
            self is NetworkAndTimeout ==> r == (network_error(*error) || error is Protocol),
            self matches ErrorPredicate::Custom(rule) ==> rule.answers(*error, r),
    {
        match self {
            ErrorPredicate::NetworkOnly => match error {
                ClientError::Connection(_) | ClientError::Io(_) => true,
                _ => false,
            },
            ErrorPredicate::NetworkAndTimeout => match error {
                ClientError::Connection(_) | ClientError::Io(_) | ClientError::Protocol(_) => true,
                _ => false,
            },
            ErrorPredicate::Custom(rule) => rule.retryable(error),
        }
    }
}

/// Why a retry configuration is refused, for the limits that are whole
/// numbers.
#[derive(PartialEq, Eq, Structural, Clone, Copy, Debug)]
pub enum RetryLimitError {
    /// `max_attempts` is zero.
    InvalidMaxAttempts(u32),
    /// The initial backoff is not shorter than the maximum backoff; both
    /// are given in nanoseconds.
    InvalidBackoffRange { initial: u128, max: u128 },
}

/// Checks the attempt count and the backoff range (in nanoseconds) of a
/// retry configuration, in that order.
pub fn check_retry_limits(max_attempts: u32, initial_backoff: u128, max_backoff: u128) -> (r: Result<
    (),
    RetryLimitError,
>)
    ensures
        max_attempts == 0 ==> r == Err::<(), RetryLimitError>(RetryLimitError::InvalidMaxAttempts(0)),
        max_attempts != 0 && initial_backoff >= max_backoff ==> r == Err::<(), RetryLimitError>(
            RetryLimitError::InvalidBackoffRange { initial: initial_backoff, max: max_backoff },
        ),
        max_attempts != 0 && initial_backoff < max_backoff ==> r is Ok,
{
    if max_attempts == 0 {
        return Err(RetryLimitError::InvalidMaxAttempts(0));
    }
    if initial_backoff >= max_backoff {
        return Err(RetryLimitError::InvalidBackoffRange { initial: initial_backoff, max: max_backoff });
    }
    Ok(())
}

} // verus!
