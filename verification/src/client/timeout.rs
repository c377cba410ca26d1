//! Request timeouts of a client: a default one for every request, and one
//! that is set for the next request only.

use std::time::Duration;
use vstd::prelude::*;

use crate::pubsub::{duration_from_secs, duration_of_secs};

verus! {

/// Default timeout of a request, in seconds
pub const DEFAULT_TIMEOUT_SECONDS: u64 = 10;

/// The timeouts of a client: the default one, and the one set for the next
/// request, if any
pub type TimeoutsModel = (Duration, Option<Duration>);

/// The timeout the next request gets: the one set for it, else the default
pub open spec fn request_timeout(t: TimeoutsModel) -> Duration {
    match t.1 {
        Some(d) => d,
        None => t.0,
    }
}

/// The timeouts after a request took its timeout
pub open spec fn after_request(t: TimeoutsModel) -> TimeoutsModel {
    (t.0, None)
}

/// The timeouts after the timeout of the next request is set to `d`
pub open spec fn with_next_timeout(t: TimeoutsModel, d: Duration) -> TimeoutsModel {
    (t.0, Some(d))
}

/// The timeouts after the default timeout is set to `d`
pub open spec fn with_default_timeout(t: TimeoutsModel, d: Duration) -> TimeoutsModel {
    (d, t.1)
}

/// The timeouts a client gives its requests
#[derive(Debug, Clone, Copy)]
pub struct Timeouts {
    default_timeout: Duration,
    next_timeout: Option<Duration>,
}

impl View for Timeouts {
    type V = TimeoutsModel;

    closed spec fn view(&self) -> TimeoutsModel {
        (self.default_timeout, self.next_timeout)
    }
}

impl Default for Timeouts {
    /// The default timeout is `DEFAULT_TIMEOUT_SECONDS` seconds, and no
    /// timeout is set for the next request
    fn default() -> (t: Self)
        ensures
            t@ == (duration_of_secs(DEFAULT_TIMEOUT_SECONDS), None::<Duration>),
    {
        Self::new(duration_from_secs(DEFAULT_TIMEOUT_SECONDS))
    }
}

impl Timeouts {
    /// Timeouts with the given default and none set for the next request
    pub fn new(default_timeout: Duration) -> (t: Self)
        ensures
            t@ == (default_timeout, None::<Duration>),
    {
        Self { default_timeout, next_timeout: None }
    }

    /// Sets the default timeout of the requests
    pub fn set_default_timeout(&mut self, duration: Duration)
        ensures
            final(self)@ == with_default_timeout(old(self)@, duration),
    {
        self.default_timeout = duration;
    }

    /// Sets the timeout of the next request only
    pub fn set_next_timeout(&mut self, duration: Duration)
        ensures
            final(self)@ == with_next_timeout(old(self)@, duration),
    {
        self.next_timeout = Some(duration);
    }

    /// The timeout of a new request; a timeout set for the next request is
    /// used up by it
    pub fn take_timeout(&mut self) -> (d: Duration)
        ensures
            d == request_timeout(old(self)@),
            final(self)@ == after_request(old(self)@),
    {
        let d = match self.next_timeout {
            Some(t) => t,
            None => self.default_timeout,
        };
        self.next_timeout = None;
        d
    }
}

/// A timeout set for the next request applies to that request only: the
/// request after it gets the default timeout again, and setting the default in
/// between does not take the next request's timeout away.
pub proof fn lemma_next_timeout_applies_once(t: TimeoutsModel, d: Duration, e: Duration)
    ensures
        request_timeout(with_next_timeout(t, d)) == d,
        request_timeout(after_request(with_next_timeout(t, d))) == t.0,
        request_timeout(with_default_timeout(with_next_timeout(t, d), e)) == d,
        request_timeout(after_request(with_default_timeout(with_next_timeout(t, d), e))) == e,
{
}

/// Without a timeout set for the next request, every request gets the default.
pub proof fn lemma_default_timeout_applies(t: TimeoutsModel)
    requires
        t.1 is None,
    ensures
        request_timeout(t) == t.0,
        after_request(t) == t,
{
}

/// Setting the default timeout sets the default for every later request:
/// whatever timeout was set for the next request stays set for it, and every
/// request after that gets the new default.
pub proof fn lemma_default_timeout_sets(t: TimeoutsModel, d: Duration)
    ensures
        with_default_timeout(t, d).0 == d,
        with_default_timeout(t, d).1 == t.1,
        t.1 is None ==> request_timeout(with_default_timeout(t, d)) == d,
        request_timeout(after_request(with_default_timeout(t, d))) == d,
        request_timeout(after_request(after_request(with_default_timeout(t, d)))) == d,
{
}

} // verus!
