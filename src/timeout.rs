//! Bounding how long a call may take.

use std::time::{Duration, Instant};

use vstd::prelude::*;
use vstd::string::StringExecFns;

use crate::layer::Layer;
use crate::service::Service;

verus! {

#[verifier::external_type_specification]
#[verifier::external_body]
pub struct ExInstant(Instant);

/// What a call through [`Timeout`] fails with.
#[derive(Clone, Copy, Debug, PartialEq, Eq)]
pub enum TimeoutError<E> {
    /// The inner service failed with this error.
    Inner(E),
    /// The deadline passed before the inner service answered.
    DeadlineExceeded,
}

impl<E> TimeoutError<E> {
    /// The message that describes a deadline error, and nothing for an
    /// error of the inner service, which describes itself.
    pub fn deadline_message(&self) -> (r: Option<String>)
        ensures
            self is DeadlineExceeded ==> r is Some && r->Some_0@ == "service time out"@,
            self is Inner ==> r is None,
    {
        match self {
            TimeoutError::Inner(_) => None,
            TimeoutError::DeadlineExceeded => {
                let m = String::from_str("service time out");
                proof {
                    reveal_strlit("service time out");
                }
                Some(m)
            },
        }
    }
}

/// Which of the two racing operations of a bounded call finished first.
#[derive(Debug)]
pub enum Race<R, E> {
    /// The inner call resolved to this result before the deadline.
    Finished(Result<R, E>),
    /// The timer went off before the inner call resolved.
    Elapsed,
}

/// The outcome of a bounded call, given which operation won the race: the
/// inner result, its error converted, or a deadline error.
pub open spec fn race_result<R, E>(race: Race<R, E>) -> Result<R, TimeoutError<E>> {
    match race {
        Race::Finished(Ok(v)) => Ok(v),
        Race::Finished(Err(e)) => Err(TimeoutError::Inner(e)),
        Race::Elapsed => Err(TimeoutError::DeadlineExceeded),
    }
}

/// Settles a bounded call once the race between the inner call and the
/// timer is decided: nothing of an abandoned inner call is kept.
pub fn settle<R, E>(race: Race<R, E>) -> (r: Result<R, TimeoutError<E>>)
    ensures
        r == race_result(race),
{
    match race {
        Race::Finished(Ok(v)) => Ok(v),
        Race::Finished(Err(e)) => Err(TimeoutError::Inner(e)),
        Race::Elapsed => Err(TimeoutError::DeadlineExceeded),
    }
}

/// Settles a bounded call whose inner call took `spent_nanos`, against a
/// bound of `limit_nanos`: a call that finished within the bound keeps its
/// result, its error converted; a later one fails with
/// [`TimeoutError::DeadlineExceeded`] and its result is dropped.
pub fn settle_after<R, E>(spent_nanos: u128, limit_nanos: u128, res: Result<R, E>) -> (r: Result<
    R,
    TimeoutError<E>,
>)
    ensures
        r == (if spent_nanos > limit_nanos {
            Err(TimeoutError::DeadlineExceeded)
        } else {
            race_result(Race::Finished(res))
        }),
{
    if spent_nanos > limit_nanos {
        settle(Race::Elapsed)
    } else {
        settle(Race::Finished(res))
    }
}

/// A service that fails calls to `inner` that take longer than `duration`,
/// when one is set.
#[derive(Clone, Copy, Debug)]
pub struct Timeout<S> {
    pub inner: S,
    pub duration: Option<Duration>,
}

impl<S> Timeout<S> {
    /// Wraps `inner`, with `duration` as the bound on each call.
    pub fn new(inner: S, duration: Option<Duration>) -> (r: Self)
        ensures
            r.inner == inner,
            r.duration == duration,
    {
        Self { inner, duration }
    }
}

/// Relies on Instant::now: the current time, when the timer is armed.
#[verifier::external_body]
fn now() -> Instant {
    Instant::now()
}

/// Relies on Instant::elapsed: how much time has passed since `start`.
#[verifier::external_body]
fn elapsed_since(start: &Instant) -> Duration {
    start.elapsed()
}

/// Relies on Duration::as_nanos: the whole nanoseconds in `d`, so that
/// durations are compared as integers.
#[verifier::external_body]
fn nanos_of(d: &Duration) -> u128 {
    d.as_nanos()
}

impl<Cx, Req, S: Service<Cx, Req>> Service<Cx, Req> for Timeout<S> {
    type Response = S::Response;
    type Error = TimeoutError<S::Error>;

    open spec fn accepts(&self, cx: Cx, req: Req) -> bool {
        self.inner.accepts(cx, req)
    }

    open spec fn serves(&self, cx: Cx, req: Req, r: Result<S::Response, TimeoutError<S::Error>>) -> bool {
        match r {
            Ok(v) => self.inner.serves(cx, req, Ok(v)),
            Err(TimeoutError::Inner(e)) => self.inner.serves(cx, req, Err(e)),
            Err(TimeoutError::DeadlineExceeded) => self.duration is Some,
        }
    }

    /// Calls the inner service. With a duration set, a result that comes
    /// later than the deadline is dropped and the call fails with
    /// [`TimeoutError::DeadlineExceeded`]; without one, the inner result
    /// is returned, its error converted.
    fn call(&self, cx: &mut Cx, req: Req) -> (r: Result<S::Response, TimeoutError<S::Error>>) {
        match &self.duration {
            None => settle(Race::Finished(self.inner.call(cx, req))),
            Some(limit) => {
                let start = now();
                let res = self.inner.call(cx, req);
                let spent = elapsed_since(&start);
                settle_after(nanos_of(&spent), nanos_of(limit), res)
            },
        }
    }
}

/// Without a duration no timer is armed: whatever the inner service takes,
/// a call through [`Timeout`] resolves to what the inner call resolved to,
/// its error converted.
pub proof fn lemma_timeout_without_duration<Cx, Req, S: Service<Cx, Req>>(
    t: Timeout<S>,
    cx: Cx,
    req: Req,
    r: Result<S::Response, TimeoutError<S::Error>>,
)
    requires
        t.duration is None,
        t.serves(cx, req, r),
    ensures
        exists|inner_r: Result<S::Response, S::Error>|
            #[trigger] t.inner.serves(cx, req, inner_r) && r == race_result(Race::Finished(inner_r)),
{
    match r {
        Ok(v) => {
            assert(t.inner.serves(cx, req, Ok(v)) && r == race_result(Race::Finished(Ok::<S::Response, S::Error>(v))));
        },
        Err(TimeoutError::Inner(e)) => {
            assert(t.inner.serves(cx, req, Err(e)) && r == race_result(Race::Finished(Err::<S::Response, S::Error>(e))));
        },
        Err(TimeoutError::DeadlineExceeded) => {},
    }
}

/// The layer that wraps services in [`Timeout`].
#[derive(Clone, Copy, Debug)]
pub struct TimeoutLayer {
    pub duration: Option<Duration>,
}

impl TimeoutLayer {
    /// Creates the layer, with `duration` as the bound on each call.
    pub fn new(duration: Option<Duration>) -> (r: Self)
        ensures
            r.duration == duration,
    {
        TimeoutLayer { duration }
    }
}

impl<S> Layer<S> for TimeoutLayer {
    type Service = Timeout<S>;

    open spec fn accepts(&self, inner: S) -> bool {
        true
    }

    open spec fn wraps(&self, inner: S, out: Timeout<S>) -> bool {
        out.inner == inner && out.duration == self.duration
    }

    /// Wraps `inner`, with this layer's duration.
    fn layer(self, inner: S) -> (out: Timeout<S>) {
        Timeout { inner, duration: self.duration }
    }
}

} // verus!
