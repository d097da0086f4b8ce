use vstd::prelude::*;
use crate::error::Error;
use crate::json::failure_error;

verus! {

/// What a delegate decides about a failure that may be transient.
#[derive(PartialEq, Eq, Structural, Clone, Copy, Debug)]
pub enum Retry {
    /// Surface the failure.
    Abort,
    /// Wait so many milliseconds, then try again.
    After(u64),
}

/// Where a call stands.
#[derive(PartialEq, Eq, Structural, Clone, Copy, Debug)]
pub enum Phase {
    /// A token is to be asked for.
    AcquireToken,
    /// The request is out; its outcome is awaited.
    Send,
    /// The call ended, with success or not.
    Done(bool),
}

/// The state of one call: its phase and how many requests it has sent.
#[derive(PartialEq, Eq, Structural, Clone, Copy, Debug)]
pub struct CallState {
    pub phase: Phase,
    pub attempts: u64,
}

/// What the caller does next.
#[derive(Debug)]
pub enum Action {
    /// Send the request, with `Authorization: Bearer <token>` where a token is given.
    Send(Option<String>),
    /// Wait so many milliseconds, then ask for a token again.
    Wait(u64),
    /// The call ended with this error.
    Fail(Error),
}

/// What happened at one step of a call, as far as its phase and count depend on it.
#[derive(PartialEq, Eq, Structural, Clone, Copy, Debug)]
pub enum Event {
    TokenGranted,
    TokenRefused,
    TransportFailed(Retry),
    ServerFailed(Retry),
    Decoded(bool),
}

/// `n + 1`, kept at `u64::MAX` there.
pub open spec fn bump(n: u64) -> u64 {
    if n < u64::MAX {
        (n + 1) as u64
    } else {
        n
    }
}

/// The state after `e`. An event that does not fit the phase leaves the state as it is.
pub open spec fn next(s: CallState, e: Event) -> CallState {
    match (s.phase, e) {
        (Phase::AcquireToken, Event::TokenGranted) => CallState { phase: Phase::Send, attempts: bump(s.attempts) },
        (Phase::AcquireToken, Event::TokenRefused) => CallState { phase: Phase::Done(false), ..s },
        (Phase::Send, Event::TransportFailed(Retry::After(_))) => CallState { phase: Phase::AcquireToken, ..s },
        (Phase::Send, Event::ServerFailed(Retry::After(_))) => CallState { phase: Phase::AcquireToken, ..s },
        (Phase::Send, Event::TransportFailed(Retry::Abort)) => CallState { phase: Phase::Done(false), ..s },
        (Phase::Send, Event::ServerFailed(Retry::Abort)) => CallState { phase: Phase::Done(false), ..s },
        (Phase::Send, Event::Decoded(ok)) => CallState { phase: Phase::Done(ok), ..s },
        _ => s,
    }
}

/// The state after the events of `es`, in order.
pub open spec fn run(s: CallState, es: Seq<Event>) -> CallState
    decreases es.len(),
{
    if es.len() == 0 {
        s
    } else {
        next(run(s, es.drop_last()), es.last())
    }
}

/// The state of a call that has not started.
pub open spec fn initial() -> CallState {
    CallState { phase: Phase::AcquireToken, attempts: 0 }
}

/// Whether a status is a success (2xx).
pub open spec fn status_success(status: u16) -> bool {
    200 <= status && status <= 299
}

/// Whether a status is a success (2xx).
pub fn is_success(status: u16) -> (r: bool)
    ensures
        r == status_success(status),
{
    200 <= status && status <= 299
}

impl CallState {
    /// A call that has not started: a token is to be asked for, nothing has been sent.
    pub fn new() -> (r: CallState)
        ensures
            r == initial(),
    {
        CallState { phase: Phase::AcquireToken, attempts: 0 }
    }

    /// The token was asked for. `token` is what the provider gave, or, where it failed, what the
    /// delegate put in its place: `Ok(None)` sends the request without a token. An error ends
    /// the call with `MissingToken`.
    pub fn on_token(&mut self, token: Result<Option<String>, String>) -> (a: Action)
        requires
            old(self).phase == Phase::AcquireToken,
        ensures
            match token {
                Ok(t) => *final(self) == next(*old(self), Event::TokenGranted) && a == Action::Send(t),
                Err(e) => *final(self) == next(*old(self), Event::TokenRefused) && a == Action::Fail(
                    Error::MissingToken(e),
                ),
            },
    {
        match token {
            Ok(t) => {
                self.phase = Phase::Send;
                self.attempts = if self.attempts < u64::MAX { self.attempts + 1 } else { self.attempts };
                Action::Send(t)
            },
            Err(e) => {
                self.phase = Phase::Done(false);
                Action::Fail(Error::MissingToken(e))
            },
        }
    }

    /// The request did not reach the server. The delegate's `retry` decides: wait and start
    /// over, or end the call with `HttpError`.
    pub fn on_transport_error(&mut self, err: String, retry: Retry) -> (a: Action)
        requires
            old(self).phase == Phase::Send,
        ensures
            *final(self) == next(*old(self), Event::TransportFailed(retry)),
            match retry {
                Retry::After(d) => a == Action::Wait(d),
                Retry::Abort => a == Action::Fail(Error::HttpError(err)),
            },
    {
        match retry {
            Retry::After(d) => {
                self.phase = Phase::AcquireToken;
                Action::Wait(d)
            },
            Retry::Abort => {
                self.phase = Phase::Done(false);
                Action::Fail(Error::HttpError(err))
            },
        }
    }

    /// The server answered with a status that is not a success. `parsed` is its body as JSON,
    /// where it is JSON. The delegate's `retry` decides: wait and start over, or end the call
    /// with `BadRequest` (the body is JSON) or `Failure` (it is not).
    pub fn on_failure(&mut self, status: u16, body: String, parsed: Option<serde_json::Value>, retry: Retry) -> (a: Action)
        requires
            old(self).phase == Phase::Send,
        ensures
            *final(self) == next(*old(self), Event::ServerFailed(retry)),
            match retry {
                Retry::After(d) => a == Action::Wait(d),
                Retry::Abort => match parsed {
                    Some(v) => a == Action::Fail(Error::BadRequest(v)),
                    None => a == Action::Fail(Error::Failure(crate::error::Response { status, body })),
                },
            },
    {
        match retry {
            Retry::After(d) => {
                self.phase = Phase::AcquireToken;
                Action::Wait(d)
            },
            Retry::Abort => {
                self.phase = Phase::Done(false);
                Action::Fail(failure_error(status, body, parsed))
            },
        }
    }

    /// The server answered with success and `decoded` is its body decoded into the expected
    /// type, or the decoder's complaint. A body that does not decode ends the call with
    /// `JsonDecodeError`; it is never retried.
    pub fn on_success<T>(&mut self, body: String, decoded: Result<T, String>) -> (r: Result<T, Error>)
        requires
            old(self).phase == Phase::Send,
        ensures
            *final(self) == next(*old(self), Event::Decoded(decoded is Ok)),
            match decoded {
                Ok(v) => r == Ok::<T, Error>(v),
                Err(d) => r == Err::<T, Error>(Error::JsonDecodeError(body, d)),
            },
    {
        match decoded {
            Ok(v) => {
                self.phase = Phase::Done(true);
                Ok(v)
            },
            Err(d) => {
                self.phase = Phase::Done(false);
                Err(Error::JsonDecodeError(body, d))
            },
        }
    }
}

pub proof fn lemma_run_concat(s: CallState, a: Seq<Event>, b: Seq<Event>)
    ensures
        run(s, a + b) == run(run(s, a), b),
    decreases b.len(),
{
    if b.len() == 0 {
        assert(a + b =~= a);
    } else {
        assert((a + b).drop_last() =~= a + b.drop_last());
        lemma_run_concat(s, a, b.drop_last());
    }
}

/// `n` rounds in which a token is granted and the transport then fails, each failure retried
/// after `d` milliseconds.
pub open spec fn flaky_rounds(n: nat, d: u64) -> Seq<Event>
    decreases n,
{
    if n == 0 {
        Seq::empty()
    } else {
        flaky_rounds((n - 1) as nat, d) + seq![Event::TokenGranted, Event::TransportFailed(Retry::After(d))]
    }
}

proof fn lemma_flaky_rounds(n: nat, d: u64)
    requires
        n <= u64::MAX,
    ensures
        run(initial(), flaky_rounds(n, d)) == (CallState { phase: Phase::AcquireToken, attempts: n as u64 }),
    decreases n,
{
    if n > 0 {
        lemma_flaky_rounds((n - 1) as nat, d);
        let round = seq![Event::TokenGranted, Event::TransportFailed(Retry::After(d))];
        lemma_run_concat(initial(), flaky_rounds((n - 1) as nat, d), round);
        let s = run(initial(), flaky_rounds((n - 1) as nat, d));
        assert(round.drop_last() =~= seq![Event::TokenGranted]);
        assert(seq![Event::TokenGranted].drop_last() =~= Seq::<Event>::empty());
        assert(run(s, Seq::<Event>::empty()) == s);
        assert(run(s, seq![Event::TokenGranted]) == next(s, Event::TokenGranted));
        assert(run(s, round) == next(run(s, seq![Event::TokenGranted]), round.last()));
    }
}

/// A call whose transport fails `n` times, each failure retried, and that then gets a body that
/// decodes, ends in success after exactly `n + 1` requests.
pub proof fn lemma_retried_failures_then_success(n: nat, d: u64)
    requires
        n + 1 <= u64::MAX,
    ensures
        run(initial(), flaky_rounds(n, d) + seq![Event::TokenGranted, Event::Decoded(true)]) == (CallState {
            phase: Phase::Done(true),
            attempts: (n + 1) as u64,
        }),
{
    lemma_flaky_rounds(n, d);
    let tail = seq![Event::TokenGranted, Event::Decoded(true)];
    lemma_run_concat(initial(), flaky_rounds(n, d), tail);
    let s = run(initial(), flaky_rounds(n, d));
    assert(tail.drop_last() =~= seq![Event::TokenGranted]);
    assert(seq![Event::TokenGranted].drop_last() =~= Seq::<Event>::empty());
    assert(run(s, Seq::<Event>::empty()) == s);
    assert(run(s, seq![Event::TokenGranted]) == next(s, Event::TokenGranted));
    assert(run(s, tail) == next(run(s, seq![Event::TokenGranted]), tail.last()));
}

/// Once a call has ended, no event changes its state: in particular it sends nothing more.
pub proof fn lemma_done_is_final(s: CallState, es: Seq<Event>)
    requires
        s.phase is Done,
    ensures
        run(s, es) == s,
    decreases es.len(),
{
    if es.len() > 0 {
        lemma_done_is_final(s, es.drop_last());
    }
}

/// A call whose first transport failure is not retried, as the default delegate decides, ends
/// in failure after exactly one request, whatever follows.
pub proof fn lemma_unretried_failure_single_attempt(es: Seq<Event>)
    ensures
        run(initial(), seq![Event::TokenGranted, Event::TransportFailed(Retry::Abort)] + es) == (CallState {
            phase: Phase::Done(false),
            attempts: 1,
        }),
{
    let head = seq![Event::TokenGranted, Event::TransportFailed(Retry::Abort)];
    lemma_run_concat(initial(), head, es);
    assert(head.drop_last() =~= seq![Event::TokenGranted]);
    assert(seq![Event::TokenGranted].drop_last() =~= Seq::<Event>::empty());
    assert(run(initial(), Seq::<Event>::empty()) == initial());
    assert(run(initial(), seq![Event::TokenGranted]) == next(initial(), Event::TokenGranted));
    assert(run(initial(), head) == next(run(initial(), seq![Event::TokenGranted]), head.last()));
    lemma_done_is_final(run(initial(), head), es);
}

/// A success response whose body does not decode ends the call after one request; it is not
/// retried, whatever follows.
pub proof fn lemma_decode_failure_not_retried(es: Seq<Event>)
    ensures
        run(initial(), seq![Event::TokenGranted, Event::Decoded(false)] + es) == (CallState {
            phase: Phase::Done(false),
            attempts: 1,
        }),
{
    let head = seq![Event::TokenGranted, Event::Decoded(false)];
    lemma_run_concat(initial(), head, es);
    assert(head.drop_last() =~= seq![Event::TokenGranted]);
    assert(seq![Event::TokenGranted].drop_last() =~= Seq::<Event>::empty());
    assert(run(initial(), Seq::<Event>::empty()) == initial());
    assert(run(initial(), seq![Event::TokenGranted]) == next(initial(), Event::TokenGranted));
    assert(run(initial(), head) == next(run(initial(), seq![Event::TokenGranted]), head.last()));
    lemma_done_is_final(run(initial(), head), es);
}

/// The delegate used where the caller gives none: it retries nothing.
#[derive(Debug, Default)]
pub struct DefaultDelegate;

impl DefaultDelegate {
    /// A failed token request stays failed.
    pub fn token(&mut self, err: String) -> (r: Result<Option<String>, String>)
        ensures
            r == Err::<Option<String>, String>(err),
    {
        Err(err)
    }

    /// A transport failure is not retried.
    pub fn http_error(&mut self, err: &String) -> (r: Retry)
        ensures
            r == Retry::Abort,
    {
        Retry::Abort
    }

    /// A failed response is not retried.
    pub fn http_failure(&mut self, status: u16, parsed: &Option<serde_json::Value>) -> (r: Retry)
        ensures
            r == Retry::Abort,
    {
        Retry::Abort
    }
}

} // verus!
