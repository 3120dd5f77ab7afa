use vstd::prelude::*;

verus! {

/// Delay before the first retry of a failing transition, in milliseconds.
pub const RETRY_BASE_MS: u32 = 1000;

/// Number of attempts a failing transition gets before it falls back.
pub const DEFAULT_MAX_RETRY_ATTEMPTS: u8 = 10;

/// The bring-up states, in the order of the success path.
#[derive(Clone, Copy, Debug, PartialEq, Eq, Structural)]
pub enum State {
    Init,
    PowerOn,
    Configure,
    DeviceReady,
    SimPin,
    SignalQuality,
    RegisteringNetwork,
    AttachingNetwork,
    Connected,
}

/// Position of a state on the success path.
pub open spec fn rank(s: State) -> nat {
    match s {
        State::Init => 0,
        State::PowerOn => 1,
        State::Configure => 2,
        State::DeviceReady => 3,
        State::SimPin => 4,
        State::SignalQuality => 5,
        State::RegisteringNetwork => 6,
        State::AttachingNetwork => 7,
        State::Connected => 8,
    }
}

/// The success path: `Init` first, `Connected` last.
pub open spec fn success_path() -> Seq<State> {
    seq![
        State::Init,
        State::PowerOn,
        State::Configure,
        State::DeviceReady,
        State::SimPin,
        State::SignalQuality,
        State::RegisteringNetwork,
        State::AttachingNetwork,
        State::Connected,
    ]
}

/// The state that a successful action in `s` leads to.
pub open spec fn next_on_success(s: State) -> State {
    match s {
        State::Init => State::PowerOn,
        State::PowerOn => State::Configure,
        State::Configure => State::DeviceReady,
        State::DeviceReady => State::SimPin,
        State::SimPin => State::SignalQuality,
        State::SignalQuality => State::RegisteringNetwork,
        State::RegisteringNetwork => State::AttachingNetwork,
        State::AttachingNetwork => State::Connected,
        State::Connected => State::Connected,
    }
}

/// The state that a failing action in `s` falls back to once its retry
/// budget is exhausted.
pub open spec fn fallback(s: State) -> State {
    match s {
        State::Init => State::Init,
        _ => State::PowerOn,
    }
}

/// States in which a "registered" notification for a cellular network
/// sends the machine back to `RegisteringNetwork`.
pub open spec fn reregisters_from(s: State) -> bool {
    rank(s) >= rank(State::SignalQuality)
}

/// A transition forced by a notification.
pub open spec fn event_step(s: State, t: State) -> bool {
    t == State::Init || (t == State::RegisteringNetwork && reregisters_from(s))
}

/// A transition made by the action of state `s`: stay (retry or backoff),
/// advance on success, or fall back.
pub open spec fn action_step(s: State, t: State) -> bool {
    t == s || t == next_on_success(s) || t == fallback(s)
}

/// The transitions that one poll of the device can make.
pub open spec fn poll_step(s: State, t: State) -> bool {
    event_step(s, t) || action_step(s, t)
}

/// A sequence of states in which every step is one poll's transition.
pub open spec fn is_poll_trace(trace: Seq<State>) -> bool {
    forall|i: int| 0 <= i < trace.len() - 1 ==> #[trigger] poll_step(trace[i], trace[i + 1])
}

/// `p` occurs in `t` in order, not necessarily contiguously.
pub open spec fn is_subsequence(t: Seq<State>, p: Seq<State>) -> bool
    decreases t.len(),
{
    if p.len() == 0 {
        true
    } else if t.len() == 0 {
        false
    } else if t.last() == p.last() {
        is_subsequence(t.drop_last(), p.drop_last())
    } else {
        is_subsequence(t.drop_last(), p)
    }
}

/// The success path up to and including `s`.
pub open spec fn path_to(s: State) -> Seq<State> {
    success_path().take(rank(s) as int + 1)
}

proof fn lemma_subsequence_drop_last(t: Seq<State>, p: Seq<State>)
    requires
        p.len() > 0,
        is_subsequence(t, p),
    ensures
        is_subsequence(t, p.drop_last()),
    decreases t.len(),
{
    if p.len() == 1 {
        assert(p.drop_last().len() == 0);
    } else if t.last() == p.last() {
        lemma_subsequence_drop_last(t.drop_last(), p.drop_last());
    } else {
        lemma_subsequence_drop_last(t.drop_last(), p);
        lemma_subsequence_drop_last(t.drop_last(), p.drop_last());
    }
}

proof fn lemma_subsequence_prefix(t: Seq<State>, p: Seq<State>, n: int)
    requires
        0 <= n <= p.len(),
        is_subsequence(t, p),
    ensures
        is_subsequence(t, p.take(n)),
    decreases p.len() - n,
{
    if n == p.len() {
        assert(p.take(n) =~= p);
    } else {
        lemma_subsequence_drop_last(t, p);
        lemma_subsequence_prefix(t, p.drop_last(), n);
        assert(p.drop_last().take(n) =~= p.take(n));
    }
}

proof fn lemma_subsequence_push(t: Seq<State>, p: Seq<State>, x: State)
    requires
        is_subsequence(t, p),
    ensures
        is_subsequence(t.push(x), p),
        is_subsequence(t.push(x), p.push(x)),
{
    assert(t.push(x).drop_last() =~= t);
    assert(p.push(x).drop_last() =~= p);
    if p.len() > 0 && p.last() == x {
        lemma_subsequence_drop_last(t, p);
    }
}

/// No state of the success path is skipped: in any run of polls that starts
/// in `Init`, the states of the success path up to the current one were all
/// passed through, in order. In particular `Connected` is reached only after
/// `Init`, `PowerOn`, `Configure`, `DeviceReady`, `SimPin`, `SignalQuality`,
/// `RegisteringNetwork` and `AttachingNetwork`, in that order.
pub proof fn lemma_success_path_not_skipped(trace: Seq<State>)
    requires
        trace.len() > 0,
        trace[0] == State::Init,
        is_poll_trace(trace),
    ensures
        is_subsequence(trace, path_to(trace.last())),
        trace.last() == State::Connected ==> is_subsequence(trace, success_path()),
    decreases trace.len(),
{
    if trace.len() == 1 {
        assert(path_to(State::Init) =~= seq![State::Init]);
        assert(trace.drop_last().len() == 0);
        assert(seq![State::Init].drop_last().len() == 0);
        assert(is_subsequence(trace.drop_last(), seq![State::Init].drop_last()));
        assert(is_subsequence(trace, seq![State::Init]));
    } else {
        let t = trace.drop_last();
        let x = trace.last();
        assert forall|i: int| 0 <= i < t.len() - 1 implies #[trigger] poll_step(t[i], t[i + 1]) by {
            assert(poll_step(trace[i], trace[i + 1]));
        }
        lemma_success_path_not_skipped(t);
        let s = t.last();
        let k = trace.len() - 2;
        assert(poll_step(trace[k], trace[k + 1]));
        assert(trace =~= t.push(x));
        if rank(x) <= rank(s) {
            lemma_subsequence_prefix(t, path_to(s), rank(x) as int + 1);
            assert(path_to(s).take(rank(x) as int + 1) =~= path_to(x));
            assert(path_to(x).last() == x);
            lemma_subsequence_drop_last(t, path_to(x));
            lemma_subsequence_push(t, path_to(x).drop_last(), x);
            assert(path_to(x).drop_last().push(x) =~= path_to(x));
        } else {
            assert(x == next_on_success(s));
            assert(path_to(s).push(x) =~= path_to(x));
            lemma_subsequence_push(t, path_to(s), x);
        }
    }
    if trace.last() == State::Connected {
        assert(path_to(State::Connected) =~= success_path());
    }
}

/// Bring-up state with its retry and backoff policy.
pub struct StateMachine {
    pub state: State,
    /// Failed attempts of the current transition so far.
    pub attempt: u8,
    pub max_retry_attempts: u8,
    /// A backoff delay has been armed and not yet seen to elapse.
    pub retry_pending: bool,
}

/// What `retry_or_fail` decided.
#[derive(Clone, Copy, Debug, PartialEq, Eq, Structural)]
pub enum RetryDecision {
    /// A backoff delay of the given length is to be armed.
    Retry(u32),
    /// The retry budget is exhausted.
    StateTimeout,
}

/// Backoff before retry number `attempt` (counted from one).
pub open spec fn backoff_ms(attempt: u8) -> u32 {
    (RETRY_BASE_MS * attempt as u32) as u32
}

impl StateMachine {
    /// The machine as it starts.
    pub open spec fn new_spec() -> StateMachine {
        StateMachine {
            state: State::Init,
            attempt: 0,
            max_retry_attempts: DEFAULT_MAX_RETRY_ATTEMPTS,
            retry_pending: false,
        }
    }

    pub fn new() -> (r: StateMachine)
        ensures
            r == StateMachine::new_spec(),
    {
        StateMachine {
            state: State::Init,
            attempt: 0,
            max_retry_attempts: DEFAULT_MAX_RETRY_ATTEMPTS,
            retry_pending: false,
        }
    }

    pub fn get_state(&self) -> (r: State)
        ensures
            r == self.state,
    {
        self.state
    }

    /// Overwrites the current state; the retry policy is left as it is.
    pub fn set_state(&mut self, s: State)
        ensures
            *final(self) == (StateMachine { state: s, ..*old(self) }),
    {
        self.state = s;
    }

    /// Clears the attempt counter and any pending backoff.
    pub fn reset(&mut self)
        ensures
            *final(self) == (StateMachine { attempt: 0, retry_pending: false, ..*old(self) }),
    {
        self.attempt = 0;
        self.retry_pending = false;
    }

    /// True while a backoff delay is pending.
    pub fn is_retry(&self) -> (r: bool)
        ensures
            r == self.retry_pending,
    {
        self.retry_pending
    }

    /// Marks the pending backoff delay as elapsed.
    pub fn end_backoff(&mut self)
        ensures
            *final(self) == (StateMachine { retry_pending: false, ..*old(self) }),
    {
        self.retry_pending = false;
    }

    pub fn set_max_retry_attempts(&mut self, max: u8)
        ensures
            *final(self) == (StateMachine { max_retry_attempts: max, ..*old(self) }),
    {
        self.max_retry_attempts = max;
    }

    /// Counts one failed attempt. Under the budget, a backoff is to be armed
    /// and the state kept; at the budget, the counter starts over and the
    /// caller is told to fall back.
    pub fn retry_or_fail(&mut self) -> (r: RetryDecision)
        ensures
            final(self).state == old(self).state,
            final(self).max_retry_attempts == old(self).max_retry_attempts,
            old(self).attempt < old(self).max_retry_attempts ==> {
                &&& final(self).attempt == old(self).attempt + 1
                &&& final(self).retry_pending
                &&& r == RetryDecision::Retry(backoff_ms(final(self).attempt))
            },
            old(self).attempt >= old(self).max_retry_attempts ==> {
                &&& final(self).attempt == 0
                &&& !final(self).retry_pending
                &&& r == RetryDecision::StateTimeout
            },
    {
        if self.attempt < self.max_retry_attempts {
            self.attempt = self.attempt + 1;
            self.retry_pending = true;
            RetryDecision::Retry(RETRY_BASE_MS * self.attempt as u32)
        } else {
            self.attempt = 0;
            self.retry_pending = false;
            RetryDecision::StateTimeout
        }
    }
}

} // verus!
