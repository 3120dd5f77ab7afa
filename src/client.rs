use vstd::prelude::*;
use crate::command::{
    AtClient, Command, Event, Functionality, InputPin, OutputPin, PinStatusCode, RadioAccessNetwork,
    Response, Timer, UrcMode,
};
use crate::error::{Error, PollResult, TransportError};
use crate::network::{
    extends, is_failure, issued, ran_until, registration_queries, registration_verdict,
    sequence_result, stopped, Exchange, Network,
};
use crate::sockets::SocketSet;
use crate::state::{action_step, backoff_ms, poll_step, reregisters_from, RetryDecision, State, StateMachine};

verus! {

/// How long the power pin is held low to switch the module on.
pub const PWR_ON_PULL_TIME_MS: u32 = 1000;

/// How long the module takes to boot.
pub const BOOT_WAIT_TIME_MS: u32 = 6000;

/// Highest baud rate the driver can work with.
pub const MAX_BAUD_RATE: u32 = 230_400;

/// Liveness probes made to find out whether the module is already on.
pub const ALIVE_PROBE_ATTEMPTS: u8 = 3;

/// Liveness probes made after the module was switched on.
pub const BOOT_PROBE_ATTEMPTS: u8 = 10;

/// Static configuration of the device; each pin may be absent.
pub struct Config<O, I> {
    pub baud_rate: u32,
    pub flow_control: bool,
    pub hex_mode: bool,
    pub reset_pin: Option<O>,
    pub dtr_pin: Option<O>,
    pub power_pin: Option<O>,
    /// Presence (V_INT) indicator.
    pub vint_pin: Option<I>,
}

impl<O, I> Config<O, I> {
    /// A configuration with the given baud rate, flow control and hex mode
    /// off, and no pins.
    pub fn new(baud_rate: u32) -> (r: Self)
        ensures
            r.baud_rate == baud_rate,
            !r.flow_control,
            !r.hex_mode,
            r.reset_pin is None,
            r.dtr_pin is None,
            r.power_pin is None,
            r.vint_pin is None,
    {
        Config {
            baud_rate,
            flow_control: false,
            hex_mode: false,
            reset_pin: None,
            dtr_pin: None,
            power_pin: None,
            vint_pin: None,
        }
    }
}

/// The commands of `configure`, in order.
pub open spec fn configure_commands(hex_mode: bool, flow_control: bool) -> Seq<Command> {
    seq![
        Command::SetVerboseErrors,
        Command::SetDcdFollowsCarrier,
        Command::SetDtrIgnored,
        Command::DisableUartPowerSaving,
        Command::SetHexMode(hex_mode),
        Command::SetModuleFunctionality(Functionality::AirplaneMode),
        Command::SetFlowControl(flow_control),
        Command::DisableMessageWaitingIndication,
    ]
}

/// The commands of `enable_registration_urcs`, in order.
pub open spec fn registration_urc_commands() -> Seq<Command> {
    seq![
        Command::SetNetworkRegistrationUrc(UrcMode::Verbose),
        Command::SetGprsRegistrationUrc(UrcMode::Verbose),
        Command::SetEpsRegistrationUrc(UrcMode::Verbose),
    ]
}

/// The commands of `DeviceReady`, in order.
pub open spec fn device_ready_commands() -> Seq<Command> {
    seq![
        Command::SetPreferredRadioAccessTechnology,
        Command::SetModuleFunctionality(Functionality::Full),
    ]
}

/// `n` liveness probes.
pub open spec fn probe_commands(n: nat) -> Seq<Command> {
    Seq::new(n, |i: int| Command::At)
}

pub open spec fn is_success(reply: Result<Response, TransportError>) -> bool {
    reply is Ok
}

/// Outcome of a liveness probe run: success on the first reply, else the
/// last failure.
pub open spec fn alive_result(new: Seq<Exchange>) -> Result<(), Error> {
    if stopped(new, |r| is_success(r)) {
        Ok(())
    } else if new.len() == 0 {
        Err(Error::BaudDetection)
    } else {
        Err(Error::Network(new.last().reply->Err_0))
    }
}

/// `new` is a liveness probe run of at most `attempts` probes.
pub open spec fn probe_run(new: Seq<Exchange>, attempts: nat) -> bool {
    ran_until(new, probe_commands(attempts), false, |r| is_success(r))
}

/// The silent reset command.
pub open spec fn restart_command(sim_reset: bool) -> Command {
    Command::SetModuleFunctionality(
        if sim_reset {
            Functionality::SilentResetWithSimReset
        } else {
            Functionality::SilentReset
        },
    )
}

/// After the boot wait, which is the one hardware operation of `h`, made
/// after `at` exchanges: nothing more when it failed, else the final probe
/// run.
pub open spec fn booted(rest: Seq<Exchange>, h: Seq<HwEvent>, at: nat, r: Result<(), Error>) -> bool {
    &&& h.len() == 1
    &&& h[0].at == at
    &&& h[0].op is Delay
    &&& h[0].op->Delay_0 == BOOT_WAIT_TIME_MS
    &&& if h[0].op->Delay_1 {
        rest.len() > 0 && probe_run(rest, BOOT_PROBE_ATTEMPTS as nat) && r == alive_result(rest)
    } else {
        rest.len() == 0 && r == Err::<(), Error>(Error::Busy)
    }
}

/// Switching the module on after the first probe run failed, `at`
/// exchanges into the call: a pulse of the power pin where there is one,
/// else a silent reset; then the boot wait and the final probe run.
pub open spec fn switched_on(
    rest: Seq<Exchange>,
    h: Seq<HwEvent>,
    at: nat,
    has_power_pin: bool,
    r: Result<(), Error>,
) -> bool {
    if has_power_pin {
        &&& h.len() >= 2
        &&& h[0] == hw_at(HwOp::PowerLow, at)
        &&& h[1].at == at
        &&& h[1].op is Delay
        &&& h[1].op->Delay_0 == PWR_ON_PULL_TIME_MS
        &&& if h[1].op->Delay_1 {
            h.len() >= 3 && h[2] == hw_at(HwOp::PowerHigh, at) && booted(rest, h.skip(3), at, r)
        } else {
            h.len() == 2 && rest.len() == 0 && r == Err::<(), Error>(Error::Busy)
        }
    } else {
        &&& rest.len() >= 1
        &&& rest[0].command == restart_command(false)
        &&& !rest[0].drain_urcs
        &&& rest[0].reply is Err ==> rest.len() == 1 && h.len() == 0 && r == Err::<(), Error>(
            Error::Network(rest[0].reply->Err_0),
        )
        &&& rest[0].reply is Ok ==> booted(rest.skip(1), h, (at + 1) as nat, r)
    }
}

/// The exchanges `new` and hardware operations `h` of `power_on`, started
/// after `base` exchanges, and its result. A presence pin that reads high
/// ends it at once; otherwise a short probe run decides whether the module
/// must be switched on.
pub open spec fn power_on_trace(
    new: Seq<Exchange>,
    h: Seq<HwEvent>,
    base: nat,
    has_power_pin: bool,
    has_presence_pin: bool,
    r: Result<(), Error>,
) -> bool {
    let k: int = if has_presence_pin {
        1
    } else {
        0
    };
    &&& has_presence_pin ==> h.len() >= 1 && h[0].at == base && h[0].op is PresenceRead
    &&& if has_presence_pin && h[0].op == HwOp::PresenceRead(true) {
        new.len() == 0 && h.len() == 1 && r == Ok::<(), Error>(())
    } else {
        let probe = new.take(ALIVE_PROBE_ATTEMPTS as int);
        ||| {
            &&& probe_run(new, ALIVE_PROBE_ATTEMPTS as nat)
            &&& stopped(new, |r| is_success(r))
            &&& h.len() == k
            &&& r == Ok::<(), Error>(())
        }
        ||| {
            &&& new.len() >= ALIVE_PROBE_ATTEMPTS
            &&& probe_run(probe, ALIVE_PROBE_ATTEMPTS as nat)
            &&& !stopped(probe, |r| is_success(r))
            &&& switched_on(
                new.skip(ALIVE_PROBE_ATTEMPTS as int),
                h.skip(k),
                base + ALIVE_PROBE_ATTEMPTS as nat,
                has_power_pin,
                r,
            )
        }
    }
}

/// The exchanges of `SimPin` and whether it advanced: the registration
/// notifications are enabled, the SIM must report ready, the attach state
/// is read into `attached`, and packet-domain event reporting is asked for
/// on a best-effort basis.
pub open spec fn sim_pin_trace(new: Seq<Exchange>, advanced: bool, attached: bool) -> bool {
    let urcs = registration_urc_commands();
    &&& advanced ==> {
        &&& new.len() == 6
        &&& forall|i: int| 0 <= i < 3 ==> (#[trigger] new[i]).command == urcs[i] && new[i].reply is Ok
        &&& new[3].command == Command::GetPinStatus
        &&& new[3].reply == Ok::<Response, TransportError>(Response::PinStatus(PinStatusCode::Ready))
        &&& new[4].command == Command::GetGprsAttached && new[4].reply is Ok
        &&& attached == (new[4].reply == Ok::<Response, TransportError>(Response::GprsAttached(true)))
        &&& new[5].command == Command::SetPacketDomainEventReporting(true)
    }
    &&& !advanced ==> new.len() <= 5 && (new.len() <= 3 || new[3].command == Command::GetPinStatus)
        && (new.len() == 5 ==> new[3].reply == Ok::<Response, TransportError>(
        Response::PinStatus(PinStatusCode::Ready),
    ) && new[4].reply is Err)
        && (new.len() == 4 ==> new[3].reply != Ok::<Response, TransportError>(
        Response::PinStatus(PinStatusCode::Ready),
    ))
        && (new.len() <= 3 ==> ran_until(new, urcs, true, |r| is_failure(r)) && sequence_result(new) is Err)
}

/// The exchanges `new` and hardware operations `h` of `RegisteringNetwork`,
/// started after `base` exchanges, and what it decided.
pub open spec fn registering_spec(new: Seq<Exchange>, h: Seq<HwEvent>, base: nat, t: Transition) -> bool {
    let queries = registration_queries(None);
    let stops = |reply| registration_verdict(reply) is Some;
    &&& t == Transition::Advance(State::AttachingNetwork) || t == Transition::Retry(State::PowerOn)
        || t == Transition::Exhaust(State::PowerOn) || t is Abort
    &&& t is Advance || t is Retry ==> ran_until(new, queries, true, stops) && new.len() > 0 && (
    t is Advance) == (registration_verdict(new.last().reply) == Some(PollResult::Done)) && h.len()
        == 0
    &&& t is Exhaust || t is Abort ==> {
        let probe = new.drop_last();
        &&& ran_until(probe, queries, true, stops)
        &&& probe.len() > 0
        &&& registration_verdict(probe.last().reply) == Some(
            PollResult::Fatal(Error::RegistrationDenied),
        )
        &&& new.last().command == restart_command(true)
        &&& !new.last().drain_urcs
        &&& t is Exhaust ==> new.last().reply is Ok && h == seq![
            hw_at(HwOp::Delay(BOOT_WAIT_TIME_MS, true), (base + new.len()) as nat),
        ]
        &&& t matches Transition::Abort(e) ==> if new.last().reply is Err {
            e == Error::Network(new.last().reply->Err_0) && h.len() == 0
        } else {
            e == Error::Busy && h == seq![
                hw_at(HwOp::Delay(BOOT_WAIT_TIME_MS, false), (base + new.len()) as nat),
            ]
        }
    }
}

/// What the action of state `s` did: `new` are the exchanges it made and
/// `h` its hardware operations, started after `base` exchanges; `attached`
/// and `pdp_active` are the connection flags afterwards.
pub open spec fn action_spec(
    s: State,
    new: Seq<Exchange>,
    h: Seq<HwEvent>,
    base: nat,
    baud_rate: u32,
    hex_mode: bool,
    flow_control: bool,
    has_power_pin: bool,
    has_presence_pin: bool,
    was_attached: bool,
    attached: bool,
    pdp_active: bool,
    t: Transition,
) -> bool {
    &&& s != State::PowerOn && s != State::RegisteringNetwork ==> h.len() == 0
    &&& match s {
        State::Init => t == Transition::Advance(State::PowerOn) && new.len() == 0,
        State::PowerOn => exists|res: Result<(), Error>|
            power_on_trace(new, h, base, has_power_pin, has_presence_pin, res) && t == if res is Ok {
                Transition::Advance(State::Configure)
            } else {
                Transition::Retry(State::PowerOn)
            },
        State::Configure => if baud_rate > MAX_BAUD_RATE {
            new.len() == 0 && t == Transition::Retry(State::PowerOn)
        } else {
            &&& ran_until(new, configure_commands(hex_mode, flow_control), false, |r| is_failure(r))
            &&& t == if sequence_result(new) is Ok {
                Transition::Advance(State::DeviceReady)
            } else {
                Transition::Retry(State::PowerOn)
            }
        },
        State::DeviceReady => {
            &&& ran_until(new, device_ready_commands(), true, |r| is_failure(r))
            &&& t == match sequence_result(new) {
                Ok(_) => Transition::Advance(State::SimPin),
                Err(e) => Transition::Abort(e),
            }
        },
        State::SimPin => {
            &&& t == Transition::Advance(State::SignalQuality) || t == Transition::Retry(
                State::PowerOn,
            )
            &&& sim_pin_trace(new, t is Advance, attached)
            &&& t is Advance ==> !pdp_active
        },
        State::SignalQuality => {
            &&& t == Transition::Advance(State::RegisteringNetwork)
            &&& new.len() == 1
            &&& new[0].command == Command::GetCcid
        },
        State::RegisteringNetwork => registering_spec(new, h, base, t),
        State::AttachingNetwork => {
            &&& t == Transition::Advance(State::Connected) || t == Transition::Retry(State::PowerOn)
            &&& (t is Advance) == attached
            &&& was_attached ==> new.len() == 0 && attached
        },
        State::Connected => false,
    }
}

/// Taking `t` from `f0` arms the backoff timer.
pub open spec fn arms(f0: StateMachine, t: Transition) -> bool {
    t is Retry && f0.attempt < f0.max_retry_attempts
}

/// How the state machine `f0` takes transition `t`, giving `f1`.
pub open spec fn committed(f0: StateMachine, t: Transition, f1: StateMachine) -> bool {
    match t {
        Transition::Advance(s) => f1 == StateMachine {
            state: s,
            attempt: if s == State::Connected {
                0
            } else {
                f0.attempt
            },
            ..f0
        },
        Transition::Retry(fb) => if f0.attempt < f0.max_retry_attempts {
            f1 == StateMachine { attempt: (f0.attempt + 1) as u8, retry_pending: true, ..f0 }
        } else {
            f1 == StateMachine { state: fb, attempt: 0, retry_pending: false, ..f0 }
        },
        Transition::Exhaust(fb) => f1 == StateMachine {
            state: fb,
            attempt: 0,
            max_retry_attempts: 0,
            retry_pending: false,
        },
        Transition::Abort(_) => f1 == f0,
    }
}

proof fn lemma_action_moves_along(
    s: State,
    new: Seq<Exchange>,
    h: Seq<HwEvent>,
    base: nat,
    baud_rate: u32,
    hex_mode: bool,
    flow_control: bool,
    has_power_pin: bool,
    has_presence_pin: bool,
    was_attached: bool,
    attached: bool,
    pdp_active: bool,
    t: Transition,
    f0: StateMachine,
    f1: StateMachine,
)
    requires
        f0.state == s,
        action_spec(
            s,
            new,
            h,
            base,
            baud_rate,
            hex_mode,
            flow_control,
            has_power_pin,
            has_presence_pin,
            was_attached,
            attached,
            pdp_active,
            t,
        ),
        committed(f0, t, f1),
    ensures
        action_step(s, f1.state),
{
    if s == State::PowerOn {
        let res = choose|res: Result<(), Error>|
            power_on_trace(new, h, base, has_power_pin, has_presence_pin, res) && t == if res is Ok {
                Transition::Advance(State::Configure)
            } else {
                Transition::Retry(State::PowerOn)
            };
    }
}

proof fn lemma_reaction_is_event_step(s: State, q: Seq<Event>)
    ensures
        first_reaction(s, q) matches Some(t) ==> crate::state::event_step(s, t),
    decreases q.len(),
{
    if q.len() > 0 {
        lemma_reaction_is_event_step(s, q.drop_first());
    }
}

/// A disconnect notification forces `Init` from any state, unless an
/// earlier notification in the queue forced a state change first. With
/// `spin_spec`, the step then ends in `Init` with the queue empty.
pub proof fn lemma_disconnect_forces_init(s: State, q: Seq<Event>, i: int)
    requires
        0 <= i < q.len(),
        q[i] is Disconnected,
        forall|j: int| 0 <= j < i ==> reacts(s, #[trigger] q[j]) is None,
    ensures
        first_reaction(s, q) == Some(State::Init),
    decreases i,
{
    if i > 0 {
        assert(reacts(s, q[0]) is None);
        assert forall|j: int| 0 <= j < i - 1 implies reacts(s, #[trigger] q.drop_first()[j]) is None by {
            assert(q.drop_first()[j] == q[j + 1]);
        }
        lemma_disconnect_forces_init(s, q.drop_first(), i - 1);
    }
}

/// A liveness probe run in which every exchange failed made exactly
/// `attempts` probes and reports a failure.
pub proof fn lemma_failing_probe_uses_every_attempt(new: Seq<Exchange>, attempts: nat)
    requires
        probe_run(new, attempts),
        forall|i: int| 0 <= i < new.len() ==> (#[trigger] new[i]).reply is Err,
    ensures
        new.len() == attempts,
        alive_result(new) is Err,
{
    if new.len() > 0 {
        assert(new.last() == new[new.len() - 1]);
    }
}

/// What `spin` returns after a transition.
pub open spec fn poll_result_of(t: Transition) -> PollResult {
    match t {
        Transition::Abort(e) => PollResult::Fatal(e),
        _ => PollResult::Pending,
    }
}

/// The state change, if any, that notification `e` forces on state `s`.
pub open spec fn reacts(s: State, e: Event) -> Option<State> {
    match e {
        Event::Disconnected(_) => Some(State::Init),
        Event::CellularRegistrationStatusChanged(net, status) => if reregisters_from(s) && (net
            is Utran || net is Eutran) && status.registered() {
            Some(State::RegisteringNetwork)
        } else {
            None
        },
        _ => None,
    }
}

/// The first reaction that queue `q` forces on state `s`, in arrival order.
pub open spec fn first_reaction(s: State, q: Seq<Event>) -> Option<State>
    decreases q.len(),
{
    if q.len() == 0 {
        None
    } else {
        match reacts(s, q[0]) {
            Some(t) => Some(t),
            None => first_reaction(s, q.drop_first()),
        }
    }
}

/// What the action of a state decided.
#[derive(Clone, Copy, Debug, PartialEq, Eq, Structural)]
pub enum Transition {
    /// Succeeded: go on to this state.
    Advance(State),
    /// Failed: retry, falling back to this state once the budget is spent.
    Retry(State),
    /// Failed: spend the whole retry budget and fall back to this state.
    Exhaust(State),
    /// Failed in a way that is reported at once.
    Abort(Error),
}

/// A pin, delay or timer operation of the device.
#[derive(Clone, Copy, Debug, PartialEq, Eq, Structural)]
pub enum HwOp {
    PowerHigh,
    PowerLow,
    /// The presence pin was read, with this level.
    PresenceRead(bool),
    /// A delay of this many milliseconds, and whether it succeeded.
    Delay(u32, bool),
    /// The backoff count-down was started for this many milliseconds.
    TimerStart(u32),
    /// The backoff count-down was checked, and whether it had run out.
    TimerCheck(bool),
}

/// A hardware operation, with the number of exchanges made before it.
pub struct HwEvent {
    pub op: HwOp,
    pub at: nat,
}

pub open spec fn hw_at(op: HwOp, at: nat) -> HwEvent {
    HwEvent { op, at }
}

/// The hardware operations appended to `before`.
pub open spec fn hw_since(before: Seq<HwEvent>, after: Seq<HwEvent>) -> Seq<HwEvent> {
    after.skip(before.len() as int)
}

/// `after` is `before` with hardware operations appended.
pub open spec fn hw_grows(before: Seq<HwEvent>, after: Seq<HwEvent>) -> bool {
    before.len() <= after.len() && after.take(before.len() as int) == before
}

/// The cellular device: bring-up state machine, network layer, pins,
/// timer and optional socket storage.
pub struct Device<C, T, O, I, S, const N: usize> {
    pub fsm: StateMachine,
    pub config: Config<O, I>,
    pub timer: T,
    pub network: Network<C>,
    pub sockets: Option<SocketSet<S, N>>,
    /// Every pin, delay and timer operation made so far.
    pub hw: Ghost<Seq<HwEvent>>,
}

impl<C: AtClient, T: Timer, O: OutputPin, I: InputPin, S, const N: usize> Device<C, T, O, I, S, N> {
    pub open spec fn wf(&self) -> bool {
        &&& self.fsm.state == State::Connected ==> self.fsm.attempt == 0 && !self.fsm.retry_pending
        &&& self.sockets matches Some(set) ==> set.wf()
    }

    /// The exchanges made so far.
    pub open spec fn log(&self) -> Seq<Exchange> {
        self.network.log@
    }

    /// The configuration, the hardware record and everything that
    /// `kept_settings` names are as in `other`.
    pub open spec fn kept(&self, other: &Self) -> bool {
        &&& self.kept_settings(other)
        &&& self.config == other.config
        &&& self.hw@ == other.hw@
    }

    /// The state machine, the settings, which pins are present, the event
    /// queue, the connection flags and the socket storage are as in `other`.
    pub open spec fn kept_settings(&self, other: &Self) -> bool {
        &&& self.fsm == other.fsm
        &&& self.config.baud_rate == other.config.baud_rate
        &&& self.config.flow_control == other.config.flow_control
        &&& self.config.hex_mode == other.config.hex_mode
        &&& self.config.power_pin is Some == other.config.power_pin is Some
        &&& self.config.vint_pin is Some == other.config.vint_pin is Some
        &&& self.network.events@ == other.network.events@
        &&& self.network.attached == other.network.attached
        &&& self.network.pdp_context_active == other.network.pdp_context_active
        &&& self.sockets == other.sockets
    }

    pub fn new(client: C, timer: T, config: Config<O, I>) -> (r: Self)
        ensures
            r.wf(),
            r.fsm == StateMachine::new_spec(),
            r.config == config,
            r.timer == timer,
            r.network.client == client,
            r.network.events@.len() == 0,
            !r.network.attached,
            !r.network.pdp_context_active,
            r.log().len() == 0,
            r.hw@.len() == 0,
            r.sockets is None,
    {
        Device {
            fsm: StateMachine::new(),
            config,
            timer,
            network: Network::new(client),
            sockets: None,
            hw: Ghost(Seq::empty()),
        }
    }

    pub fn set_socket_storage(&mut self, sockets: SocketSet<S, N>)
        requires
            old(self).wf(),
            sockets.wf(),
        ensures
            final(self).wf(),
            final(self).sockets == Some(sockets),
            final(self).fsm == old(self).fsm,
            final(self).config == old(self).config,
            final(self).network == old(self).network,
            final(self).hw@ == old(self).hw@,
    {
        self.sockets = Some(sockets);
    }

    /// Drives the power pin, where there is one, and records it.
    fn drive_power(&mut self, high: bool)
        ensures
            final(self).kept_settings(old(self)),
            final(self).config.vint_pin == old(self).config.vint_pin,
            final(self).log() == old(self).log(),
            old(self).config.power_pin is Some ==> final(self).hw@ == old(self).hw@.push(
                hw_at(
                    if high {
                        HwOp::PowerHigh
                    } else {
                        HwOp::PowerLow
                    },
                    old(self).log().len(),
                ),
            ),
            old(self).config.power_pin is None ==> final(self).hw@ == old(self).hw@
                && final(self).config == old(self).config,
    {
        match &mut self.config.power_pin {
            Some(pwr) => {
                if high {
                    pwr.set_high();
                } else {
                    pwr.set_low();
                }
                let ghost op = if high {
                    HwOp::PowerHigh
                } else {
                    HwOp::PowerLow
                };
                self.hw = Ghost(self.hw@.push(hw_at(op, self.network.log@.len())));
            },
            None => {},
        }
    }

    /// Reads the presence pin, where there is one, and records it; an
    /// absent pin reads low.
    fn read_presence(&mut self) -> (high: bool)
        ensures
            final(self).kept_settings(old(self)),
            final(self).config.power_pin == old(self).config.power_pin,
            final(self).log() == old(self).log(),
            old(self).config.vint_pin is Some ==> final(self).hw@ == old(self).hw@.push(
                hw_at(HwOp::PresenceRead(high), old(self).log().len()),
            ),
            old(self).config.vint_pin is None ==> !high && final(self).hw@ == old(self).hw@,
    {
        match &mut self.config.vint_pin {
            Some(vint) => {
                let high = vint.is_high();
                self.hw = Ghost(self.hw@.push(hw_at(HwOp::PresenceRead(high), self.network.log@.len())));
                high
            },
            None => false,
        }
    }

    /// Starts the backoff count-down and records it.
    fn start_timer(&mut self, ms: u32)
        ensures
            final(self).kept_settings(old(self)),
            final(self).config == old(self).config,
            final(self).log() == old(self).log(),
            final(self).hw@ == old(self).hw@.push(hw_at(HwOp::TimerStart(ms), old(self).log().len())),
    {
        self.timer.start(ms);
        self.hw = Ghost(self.hw@.push(hw_at(HwOp::TimerStart(ms), self.network.log@.len())));
    }

    /// Checks the backoff count-down and records what it answered.
    fn timer_elapsed(&mut self) -> (elapsed: bool)
        ensures
            final(self).kept_settings(old(self)),
            final(self).config == old(self).config,
            final(self).log() == old(self).log(),
            final(self).hw@ == old(self).hw@.push(
                hw_at(HwOp::TimerCheck(elapsed), old(self).log().len()),
            ),
    {
        let elapsed = self.timer.has_elapsed();
        self.hw = Ghost(self.hw@.push(hw_at(HwOp::TimerCheck(elapsed), self.network.log@.len())));
        elapsed
    }

    /// Waits `ms` milliseconds and records whether the delay succeeded.
    fn delay(&mut self, ms: u32) -> (ok: bool)
        ensures
            final(self).kept_settings(old(self)),
            final(self).config == old(self).config,
            final(self).log() == old(self).log(),
            final(self).hw@ == old(self).hw@.push(hw_at(HwOp::Delay(ms, ok), old(self).log().len())),
    {
        let ok = self.timer.delay_ms(ms).is_ok();
        self.hw = Ghost(self.hw@.push(hw_at(HwOp::Delay(ms, ok), self.network.log@.len())));
        ok
    }

    /// Drives the power pin high unless told to leave it alone. Makes no
    /// exchange and cannot fail.
    pub fn initialize(&mut self, leave_power_alone: bool) -> (r: Result<(), Error>)
        requires
            old(self).wf(),
        ensures
            final(self).wf(),
            final(self).kept_settings(old(self)),
            final(self).config.vint_pin == old(self).config.vint_pin,
            final(self).log() == old(self).log(),
            r == Ok::<(), Error>(()),
            !leave_power_alone && old(self).config.power_pin is Some ==> final(self).hw@ == old(
                self,
            ).hw@.push(hw_at(HwOp::PowerHigh, old(self).log().len())),
            leave_power_alone || old(self).config.power_pin is None ==> final(self).config
                == old(self).config && final(self).hw@ == old(self).hw@,
    {
        if !leave_power_alone {
            self.drive_power(true);
        }
        Ok(())
    }

    /// Probes the module with `AT` up to `attempts` times: success on the
    /// first reply, else the last failure.
    pub fn is_alive(&mut self, attempts: u8) -> (r: Result<(), Error>)
        requires
            old(self).wf(),
        ensures
            final(self).wf(),
            final(self).kept(old(self)),
            extends(old(self).log(), final(self).log()),
            probe_run(issued(old(self).log(), final(self).log()), attempts as nat),
            r == alive_result(issued(old(self).log(), final(self).log())),
    {
        let ghost start = self.log();
        proof {
            crate::network::lemma_extends_self(start);
        }
        let mut error = Error::BaudDetection;
        let mut i: u8 = 0;
        while i < attempts
            invariant
                i <= attempts,
                start == old(self).log(),
                self.wf(),
                self.kept(old(self)),
                extends(start, self.log()),
                issued(start, self.log()).len() == i,
                forall|j: int|
                    0 <= j < i ==> (#[trigger] issued(start, self.log())[j]).command == Command::At
                        && !issued(start, self.log())[j].drain_urcs
                        && issued(start, self.log())[j].reply is Err,
                i == 0 ==> error == Error::BaudDetection,
                i > 0 ==> error == Error::Network(issued(start, self.log()).last().reply->Err_0),
            decreases attempts - i,
        {
            let ghost before = self.log();
            let reply = self.network.send_internal(&Command::At, false);
            proof {
                crate::network::lemma_extends_push(start, before, self.log().last());
                assert(self.log() == before.push(self.log().last()));
            }
            match reply {
                Ok(_) => {
                    return Ok(());
                },
                Err(e) => {
                    error = e;
                },
            }
            i = i + 1;
        }
        Err(error)
    }

    /// Brings the module up. When the presence pin reads high or a short
    /// liveness probe succeeds, the module is taken as on. Otherwise it is
    /// switched on by a pulse of the power pin, or by a silent reset where
    /// there is no power pin, and after the boot wait a longer probe must
    /// succeed. A failing delay gives `Busy`.
    pub fn power_on(&mut self) -> (r: Result<(), Error>)
        requires
            old(self).wf(),
        ensures
            final(self).wf(),
            final(self).kept_settings(old(self)),
            extends(old(self).log(), final(self).log()),
            hw_grows(old(self).hw@, final(self).hw@),
            power_on_trace(
                issued(old(self).log(), final(self).log()),
                hw_since(old(self).hw@, final(self).hw@),
                old(self).log().len(),
                old(self).config.power_pin is Some,
                old(self).config.vint_pin is Some,
                r,
            ),
    {
        let ghost start = self.log();
        let ghost h0 = self.hw@;
        let ghost has_vint = self.config.vint_pin.is_some();
        proof {
            crate::network::lemma_extends_self(start);
            assert(h0.take(h0.len() as int) =~= h0);
        }
        let high = self.read_presence();
        let ghost h1 = self.hw@;
        proof {
            assert(h1.take(h0.len() as int) =~= h0);
            assert(hw_since(h0, h1).len() == if has_vint { 1int } else { 0int });
            if has_vint {
                assert(hw_since(h0, h1)[0] == h1.last());
            }
        }
        if high {
            return Ok(());
        }
        let probe = self.is_alive(ALIVE_PROBE_ATTEMPTS);
        let ghost after_probe = self.log();
        if probe.is_ok() {
            return Ok(());
        }
        assert(issued(start, after_probe).len() == ALIVE_PROBE_ATTEMPTS);
        let ghost at = after_probe.len();
        let has_pin = self.config.power_pin.is_some();
        if has_pin {
            self.drive_power(false);
            let pulled = self.delay(PWR_ON_PULL_TIME_MS);
            if !pulled {
                proof {
                    let h = hw_since(h0, self.hw@);
                    assert(self.hw@.take(h0.len() as int) =~= h0);
                    assert(h.skip(if has_vint { 1int } else { 0int }) =~= seq![
                        hw_at(HwOp::PowerLow, at),
                        hw_at(HwOp::Delay(PWR_ON_PULL_TIME_MS, false), at),
                    ]);
                    crate::network::lemma_extends_self(after_probe);
                    crate::network::lemma_extends_trans(start, after_probe, self.log());
                    assert(issued(start, self.log()) =~= issued(start, after_probe));
                    assert(issued(start, self.log()).take(3) =~= issued(start, after_probe));
                    assert(issued(start, self.log()).skip(3).len() == 0);
                }
                return Err(Error::Busy);
            }
            self.drive_power(true);
        } else {
            let reset = self.restart(false);
            proof {
                crate::network::lemma_extends_self(after_probe);
                crate::network::lemma_extends_push(after_probe, after_probe, self.log().last());
                assert(self.log() == after_probe.push(self.log().last()));
                crate::network::lemma_extends_trans(start, after_probe, self.log());
                assert(issued(start, self.log()).take(3) =~= issued(start, after_probe));
                assert(issued(start, self.log()).skip(3) =~= issued(after_probe, self.log()));
                assert(self.hw@ == h1);
                assert(hw_since(h0, self.hw@).skip(if has_vint { 1int } else { 0int }).len() == 0);
            }
            match reset {
                Ok(_) => {},
                Err(e) => {
                    return Err(e);
                },
            }
        }
        let ghost after_switch = self.log();
        let ghost h2 = self.hw@;
        proof {
            if has_pin {
                assert(after_switch == after_probe);
                crate::network::lemma_extends_self(after_probe);
            }
            crate::network::lemma_extends_trans(start, after_probe, after_switch);
        }
        let booted_ok = self.delay(BOOT_WAIT_TIME_MS);
        let ghost h3 = self.hw@;
        if !booted_ok {
            proof {
                let new = issued(start, self.log());
                assert(new.take(3) =~= issued(start, after_probe));
                assert(new.skip(3) =~= issued(after_probe, self.log()));
                if !has_pin {
                    assert(new.skip(3).skip(1).len() == 0);
                }
                let h = hw_since(h0, h3);
                assert(h3.take(h0.len() as int) =~= h0);
                let hk = h.skip(if has_vint { 1int } else { 0int });
                if has_pin {
                    assert(hk.skip(3) =~= seq![hw_at(HwOp::Delay(BOOT_WAIT_TIME_MS, false), at)]);
                    assert(hk[0] == hw_at(HwOp::PowerLow, at));
                } else {
                    assert(hk =~= seq![hw_at(HwOp::Delay(BOOT_WAIT_TIME_MS, false), at + 1)]);
                }
            }
            return Err(Error::Busy);
        }
        let alive = self.is_alive(BOOT_PROBE_ATTEMPTS);
        proof {
            crate::network::lemma_extends_trans(start, after_switch, self.log());
            crate::network::lemma_extends_trans(after_probe, after_switch, self.log());
            crate::network::lemma_extends_trans(start, after_probe, self.log());
            let new = issued(start, self.log());
            assert(new.take(3) =~= issued(start, after_probe));
            assert(new.skip(3) =~= issued(after_probe, self.log()));
            if !has_pin {
                assert(issued(after_probe, after_switch).len() == 1);
                assert(new.skip(3).skip(1) =~= issued(after_switch, self.log()));
            } else {
                assert(new.skip(3) =~= issued(after_switch, self.log()));
            }
            let h = hw_since(h0, self.hw@);
            assert(self.hw@.take(h0.len() as int) =~= h0);
            let hk = h.skip(if has_vint { 1int } else { 0int });
            if has_pin {
                assert(hk.skip(3) =~= seq![hw_at(HwOp::Delay(BOOT_WAIT_TIME_MS, true), at)]);
                assert(hk[0] == hw_at(HwOp::PowerLow, at));
            } else {
                assert(hk =~= seq![hw_at(HwOp::Delay(BOOT_WAIT_TIME_MS, true), at + 1)]);
            }
        }
        alive
    }

    /// Issues a silent reset, with a SIM reset when asked.
    pub fn restart(&mut self, sim_reset: bool) -> (r: Result<(), Error>)
        requires
            old(self).wf(),
        ensures
            final(self).wf(),
            final(self).kept(old(self)),
            final(self).log() == old(self).log().push(
                Exchange {
                    command: restart_command(sim_reset),
                    drain_urcs: false,
                    reply: final(self).log().last().reply,
                },
            ),
            r == sequence_result(seq![final(self).log().last()]),
    {
        let fun = if sim_reset {
            Functionality::SilentResetWithSimReset
        } else {
            Functionality::SilentReset
        };
        let reply = self.network.send_internal(&Command::SetModuleFunctionality(fun), false);
        assert(seq![self.log().last()].last() == self.log().last());
        match reply {
            Ok(_) => Ok(()),
            Err(e) => Err(e),
        }
    }

    /// Configures the serial interface and puts the module in airplane
    /// mode; the first failing command ends it. A baud rate above
    /// `MAX_BAUD_RATE` is refused before any command is sent.
    pub fn configure(&mut self) -> (r: Result<(), Error>)
        requires
            old(self).wf(),
        ensures
            final(self).wf(),
            final(self).kept(old(self)),
            old(self).config.baud_rate > MAX_BAUD_RATE ==> r == Err::<(), Error>(
                Error::BaudUnsupported,
            ) && final(self).log() == old(self).log(),
            old(self).config.baud_rate <= MAX_BAUD_RATE ==> {
                let new = issued(old(self).log(), final(self).log());
                &&& extends(old(self).log(), final(self).log())
                &&& ran_until(
                    new,
                    configure_commands(old(self).config.hex_mode, old(self).config.flow_control),
                    false,
                    |r| is_failure(r),
                )
                &&& r == sequence_result(new)
            },
    {
        if self.config.baud_rate > MAX_BAUD_RATE {
            return Err(Error::BaudUnsupported);
        }
        let cmds: Vec<Command> = vec![
            Command::SetVerboseErrors,
            Command::SetDcdFollowsCarrier,
            Command::SetDtrIgnored,
            Command::DisableUartPowerSaving,
            Command::SetHexMode(self.config.hex_mode),
            Command::SetModuleFunctionality(Functionality::AirplaneMode),
            Command::SetFlowControl(self.config.flow_control),
            Command::DisableMessageWaitingIndication,
        ];
        assert(cmds@ =~= configure_commands(self.config.hex_mode, self.config.flow_control));
        self.network.send_sequence(&cmds, false)
    }

    /// Enables verbose registration notifications for the circuit-switched,
    /// packet-switched and EPS domains; the first failing command ends it.
    pub fn enable_registration_urcs(&mut self) -> (r: Result<(), Error>)
        requires
            old(self).wf(),
        ensures
            final(self).wf(),
            final(self).kept(old(self)),
            extends(old(self).log(), final(self).log()),
            ran_until(
                issued(old(self).log(), final(self).log()),
                registration_urc_commands(),
                true,
                |r| is_failure(r),
            ),
            r == sequence_result(issued(old(self).log(), final(self).log())),
    {
        let cmds: Vec<Command> = vec![
            Command::SetNetworkRegistrationUrc(UrcMode::Verbose),
            Command::SetGprsRegistrationUrc(UrcMode::Verbose),
            Command::SetEpsRegistrationUrc(UrcMode::Verbose),
        ];
        assert(cmds@ =~= registration_urc_commands());
        self.network.send_sequence(&cmds, true)
    }

    /// Sends any command once the device has left `Init`.
    pub fn send_at(&mut self, cmd: &Command) -> (r: Result<Response, Error>)
        requires
            old(self).wf(),
        ensures
            final(self).wf(),
            final(self).kept(old(self)),
            old(self).fsm.state == State::Init ==> r == Err::<Response, Error>(Error::Uninitialized)
                && final(self).log() == old(self).log(),
            old(self).fsm.state != State::Init ==> final(self).log() == old(self).log().push(
                Exchange { command: *cmd, drain_urcs: true, reply: final(self).log().last().reply },
            ) && r == crate::network::lift(final(self).log().last().reply),
    {
        if self.fsm.get_state() == State::Init {
            return Err(Error::Uninitialized);
        }
        self.network.send_internal(cmd, true)
    }

    /// The action of `DeviceReady`: LTE preferred, then full functionality.
    /// A failure is reported at once.
    fn device_ready(&mut self) -> (r: Transition)
        requires
            old(self).wf(),
        ensures
            final(self).wf(),
            final(self).kept(old(self)),
            extends(old(self).log(), final(self).log()),
            ran_until(
                issued(old(self).log(), final(self).log()),
                device_ready_commands(),
                true,
                |r| is_failure(r),
            ),
            r == match sequence_result(issued(old(self).log(), final(self).log())) {
                Ok(_) => Transition::Advance(State::SimPin),
                Err(e) => Transition::Abort(e),
            },
    {
        let cmds: Vec<Command> = vec![
            Command::SetPreferredRadioAccessTechnology,
            Command::SetModuleFunctionality(Functionality::Full),
        ];
        assert(cmds@ =~= device_ready_commands());
        match self.network.send_sequence(&cmds, true) {
            Ok(_) => Transition::Advance(State::SimPin),
            Err(e) => Transition::Abort(e),
        }
    }

    /// The action of `SimPin`.
    fn sim_pin(&mut self) -> (r: Transition)
        requires
            old(self).wf(),
        ensures
            final(self).wf(),
            final(self).fsm == old(self).fsm,
            final(self).sockets == old(self).sockets,
            final(self).config.baud_rate == old(self).config.baud_rate,
            final(self).config.power_pin is Some == old(self).config.power_pin is Some,
            final(self).network.events@ == old(self).network.events@,
            final(self).hw@ == old(self).hw@,
            extends(old(self).log(), final(self).log()),
            r == Transition::Advance(State::SignalQuality) || r == Transition::Retry(State::PowerOn),
            sim_pin_trace(
                issued(old(self).log(), final(self).log()),
                r is Advance,
                final(self).network.attached,
            ),
            r is Advance ==> !final(self).network.pdp_context_active,
            r is Retry ==> final(self).network.attached == old(self).network.attached
                && final(self).network.pdp_context_active == old(self).network.pdp_context_active,
    {
        let ghost start = self.log();
        let urcs = self.enable_registration_urcs();
        let ghost l1 = self.log();
        match urcs {
            Ok(_) => {},
            Err(_) => {
                return Transition::Retry(State::PowerOn);
            },
        }
        assert(issued(start, l1).len() == 3);
        let pin = self.network.send_internal(&Command::GetPinStatus, true);
        let ghost l2 = self.log();
        proof {
            crate::network::lemma_extends_push(start, l1, l2.last());
            assert(l2 == l1.push(l2.last()));
        }
        let ready = match pin {
            Ok(Response::PinStatus(PinStatusCode::Ready)) => true,
            _ => false,
        };
        if !ready {
            return Transition::Retry(State::PowerOn);
        }
        let attached = self.network.send_internal(&Command::GetGprsAttached, true);
        let ghost l3 = self.log();
        proof {
            crate::network::lemma_extends_push(start, l2, l3.last());
            assert(l3 == l2.push(l3.last()));
        }
        let is_attached = match attached {
            Ok(Response::GprsAttached(a)) => a,
            Ok(_) => false,
            Err(_) => {
                return Transition::Retry(State::PowerOn);
            },
        };
        self.network.attached = is_attached;
        self.network.pdp_context_active = false;
        let _ = self.network.set_packet_domain_event_reporting(true);
        proof {
            crate::network::lemma_extends_push(start, l3, self.log().last());
            assert(self.log() == l3.push(self.log().last()));
        }
        Transition::Advance(State::SignalQuality)
    }

    /// The action of `RegisteringNetwork`. A denial restarts the module
    /// with a SIM reset, waits for it to boot and asks for the whole retry
    /// budget to be spent, so that the failure falls back at once.
    fn registering(&mut self) -> (r: Transition)
        requires
            old(self).wf(),
        ensures
            final(self).wf(),
            final(self).kept_settings(old(self)),
            final(self).config == old(self).config,
            extends(old(self).log(), final(self).log()),
            hw_grows(old(self).hw@, final(self).hw@),
            registering_spec(
                issued(old(self).log(), final(self).log()),
                hw_since(old(self).hw@, final(self).hw@),
                old(self).log().len(),
                r,
            ),
    {
        let ghost start = self.log();
        let ghost h0 = self.hw@;
        proof {
            assert(h0.take(h0.len() as int) =~= h0);
            assert(hw_since(h0, h0).len() == 0);
        }
        let verdict = self.network.register(None);
        let ghost l1 = self.log();
        assert(registration_queries(None).len() == 2);
        match verdict {
            PollResult::Done => Transition::Advance(State::AttachingNetwork),
            PollResult::Fatal(Error::RegistrationDenied) => {
                let reset = self.restart(true);
                proof {
                    crate::network::lemma_extends_push(start, l1, self.log().last());
                    assert(self.log() == l1.push(self.log().last()));
                }
                match reset {
                    Ok(_) => {},
                    Err(e) => {
                        return Transition::Abort(e);
                    },
                }
                let booted_ok = self.delay(BOOT_WAIT_TIME_MS);
                proof {
                    assert(self.hw@.take(h0.len() as int) =~= h0);
                    assert(hw_since(h0, self.hw@) =~= seq![self.hw@.last()]);
                    assert(issued(start, self.log()).len() == issued(start, l1).len() + 1);
                }
                if !booted_ok {
                    return Transition::Abort(Error::Busy);
                }
                Transition::Exhaust(State::PowerOn)
            },
            _ => Transition::Retry(State::PowerOn),
        }
    }

    /// What one `spin` did, given the device before (`self`) and after, the
    /// queue `q` it drained and its result `r`.
    pub open spec fn spin_spec(&self, after: &Self, q: Seq<Event>, r: PollResult) -> bool {
        let h = hw_since(self.hw@, after.hw@);
        &&& hw_grows(self.hw@, after.hw@)
        &&& match first_reaction(self.fsm.state, q) {
            Some(t) => {
                &&& after.fsm == StateMachine { state: t, ..self.fsm }
                &&& r == PollResult::Pending
                &&& after.log() == self.log()
                &&& h.len() == 0
                &&& t == State::Init ==> !after.network.attached && !after.network.pdp_context_active
            },
            None => if self.fsm.state == State::Connected {
                &&& r == PollResult::Done
                &&& after.fsm == self.fsm
                &&& after.log() == self.log()
                &&& h.len() == 0
                &&& after.network.attached == self.network.attached
                &&& after.network.pdp_context_active == self.network.pdp_context_active
            } else {
                ||| {
                    // The backoff count-down has not run out.
                    &&& self.fsm.retry_pending
                    &&& h == seq![hw_at(HwOp::TimerCheck(false), self.log().len())]
                    &&& after.fsm == self.fsm
                    &&& after.log() == self.log()
                    &&& after.network.attached == self.network.attached
                    &&& after.network.pdp_context_active == self.network.pdp_context_active
                    &&& r == PollResult::Pending
                }
                ||| exists|t: Transition| #[trigger] self.acted(after, t) && r == poll_result_of(t)
            },
        }
    }

    /// `after` follows from `self` by the action of the current state,
    /// which decided `t`, and by committing `t`. A pending backoff was first
    /// seen to have run out; a retry arms the count-down last.
    pub open spec fn acted(&self, after: &Self, t: Transition) -> bool {
        let h = hw_since(self.hw@, after.hw@);
        let f0 = StateMachine { retry_pending: false, ..self.fsm };
        let pre: int = if self.fsm.retry_pending {
            1
        } else {
            0
        };
        let post: int = if arms(f0, t) {
            1
        } else {
            0
        };
        &&& extends(self.log(), after.log())
        &&& h.len() >= pre + post
        &&& self.fsm.retry_pending ==> h[0] == hw_at(HwOp::TimerCheck(true), self.log().len())
        &&& arms(f0, t) ==> h.last() == hw_at(
            HwOp::TimerStart(backoff_ms(after.fsm.attempt)),
            after.log().len(),
        )
        &&& action_spec(
            self.fsm.state,
            issued(self.log(), after.log()),
            h.subrange(pre, h.len() - post),
            self.log().len(),
            self.config.baud_rate,
            self.config.hex_mode,
            self.config.flow_control,
            self.config.power_pin is Some,
            self.config.vint_pin is Some,
            self.network.attached,
            after.network.attached,
            after.network.pdp_context_active,
            t,
        )
        &&& committed(f0, t, after.fsm)
    }

    /// One non-blocking step of the device. Takes at most one notification
    /// from the transport, then drains the queue in arrival order: a
    /// disconnect goes back to `Init` (clearing the connection flags), and a
    /// "registered" notification for a cellular network, in `SignalQuality`
    /// or later, goes back to `RegisteringNetwork`; either clears the queue
    /// and ends the step. Otherwise, while a backoff delay runs nothing
    /// happens; in `Connected` the step reports `Done`; in any other state
    /// its action runs and its outcome is committed: on success the next
    /// state, on failure a retry after a backoff, or the fallback state once
    /// the retry budget is spent.
    pub fn spin(&mut self) -> (r: PollResult)
        requires
            old(self).wf(),
        ensures
            final(self).wf(),
            final(self).fsm.state == State::Connected ==> final(self).fsm.attempt == 0,
            poll_step(old(self).fsm.state, final(self).fsm.state),
            final(self).sockets == old(self).sockets,
            final(self).network.events@.len() == 0,
            exists|q: Seq<Event>|
                {
                    &&& (q == old(self).network.events@ || exists|e: Event|
                        q == old(self).network.events@.push(e))
                    &&& #[trigger] old(self).spin_spec(final(self), q, r)
                },
    {
        self.network.handle_urc();
        let ghost q = self.network.events@;
        let s0 = self.fsm.get_state();
        let mut forced: Option<State> = None;
        while forced.is_none() && self.network.events.len() > 0
            invariant
                self.wf(),
                s0 == old(self).fsm.state,
                self.config == old(self).config,
                self.hw@ == old(self).hw@,
                self.sockets == old(self).sockets,
                self.log() == old(self).log(),
                forced is None ==> {
                    &&& first_reaction(s0, q) == first_reaction(s0, self.network.events@)
                    &&& self.fsm == old(self).fsm
                    &&& self.network.attached == old(self).network.attached
                    &&& self.network.pdp_context_active == old(self).network.pdp_context_active
                },
                forced matches Some(t) ==> {
                    &&& first_reaction(s0, q) == Some(t)
                    &&& self.fsm == StateMachine { state: t, ..old(self).fsm }
                    &&& self.network.events@.len() == 0
                    &&& t == State::Init ==> !self.network.attached
                        && !self.network.pdp_context_active
                },
            decreases self.network.events@.len() + if forced is None {
                1int
            } else {
                0int
            },
        {
            match self.network.get_event() {
                Some(e) => match reaction(s0, &e) {
                    Some(t) => {
                        self.fsm.set_state(t);
                        self.network.clear_events();
                        if t == State::Init {
                            self.network.attached = false;
                            self.network.pdp_context_active = false;
                        }
                        forced = Some(t);
                    },
                    None => {},
                },
                None => {},
            }
        }
        proof {
            lemma_reaction_is_event_step(s0, q);
        }
        let mut result = PollResult::Pending;
        let ghost h0 = self.hw@;
        proof {
            assert(h0.take(h0.len() as int) =~= h0);
            assert(hw_since(h0, h0).len() == 0);
        }
        if forced.is_none() {
            assert(first_reaction(s0, q) is None);
            let mut waiting = false;
            if self.fsm.is_retry() {
                if self.timer_elapsed() {
                    self.fsm.end_backoff();
                } else {
                    waiting = true;
                }
            }
            let ghost h1 = self.hw@;
            let ghost pre: int = if old(self).fsm.retry_pending {
                1
            } else {
                0
            };
            proof {
                assert(h1.len() == h0.len() + pre);
                assert(h1.take(h0.len() as int) =~= h0);
                if old(self).fsm.retry_pending {
                    assert(hw_since(h0, h1) =~= seq![h1.last()]);
                }
            }
            if waiting {
                result = PollResult::Pending;
            } else if self.fsm.get_state() == State::Connected {
                self.fsm.reset();
                result = PollResult::Done;
            } else {
                let t = self.run_action();
                let ghost h2 = self.hw@;
                self.commit(t);
                let ghost h3 = self.hw@;
                result = match t {
                    Transition::Abort(e) => PollResult::Fatal(e),
                    _ => PollResult::Pending,
                };
                proof {
                    let f0 = StateMachine { retry_pending: false, ..old(self).fsm };
                    let post: int = if arms(f0, t) {
                        1
                    } else {
                        0
                    };
                    assert(h2.take(h1.len() as int) =~= h1);
                    assert(h3.len() == h2.len() + post);
                    assert(h3.take(h2.len() as int) =~= h2);
                    assert(h3.take(h0.len() as int) =~= h0);
                    let h = hw_since(h0, h3);
                    assert(h.subrange(pre, h.len() - post) =~= hw_since(h1, h2));
                    if old(self).fsm.retry_pending {
                        assert(h[0] == h1.last());
                    }
                    if arms(f0, t) {
                        assert(h.last() == h3.last());
                    }
                    lemma_action_moves_along(
                        old(self).fsm.state,
                        issued(old(self).log(), self.log()),
                        hw_since(h1, h2),
                        old(self).log().len(),
                        old(self).config.baud_rate,
                        old(self).config.hex_mode,
                        old(self).config.flow_control,
                        old(self).config.power_pin is Some,
                        old(self).config.vint_pin is Some,
                        old(self).network.attached,
                        self.network.attached,
                        self.network.pdp_context_active,
                        t,
                        f0,
                        self.fsm,
                    );
                    assert(old(self).acted(self, t));
                }
            }
        }
        assert(old(self).spin_spec(self, q, result));
        result
    }

    /// Runs the action of the current state, which must not be `Connected`.
    fn run_action(&mut self) -> (r: Transition)
        requires
            old(self).wf(),
            old(self).fsm.state != State::Connected,
        ensures
            final(self).wf(),
            final(self).fsm == old(self).fsm,
            final(self).sockets == old(self).sockets,
            final(self).network.events@ == old(self).network.events@,
            extends(old(self).log(), final(self).log()),
            hw_grows(old(self).hw@, final(self).hw@),
            action_spec(
                old(self).fsm.state,
                issued(old(self).log(), final(self).log()),
                hw_since(old(self).hw@, final(self).hw@),
                old(self).log().len(),
                old(self).config.baud_rate,
                old(self).config.hex_mode,
                old(self).config.flow_control,
                old(self).config.power_pin is Some,
                old(self).config.vint_pin is Some,
                old(self).network.attached,
                final(self).network.attached,
                final(self).network.pdp_context_active,
                r,
            ),
    {
        let ghost start = self.log();
        let ghost h0 = self.hw@;
        proof {
            crate::network::lemma_extends_self(start);
            assert(h0.take(h0.len() as int) =~= h0);
            assert(hw_since(h0, h0).len() == 0);
        }
        match self.fsm.get_state() {
            State::Init => {
                let _ = self.initialize(true);
                Transition::Advance(State::PowerOn)
            },
            State::PowerOn => {
                let res = self.power_on();
                match res {
                    Ok(_) => Transition::Advance(State::Configure),
                    Err(_) => Transition::Retry(State::PowerOn),
                }
            },
            State::Configure => match self.configure() {
                Ok(_) => Transition::Advance(State::DeviceReady),
                Err(_) => Transition::Retry(State::PowerOn),
            },
            State::DeviceReady => self.device_ready(),
            State::SimPin => self.sim_pin(),
            State::SignalQuality => {
                // The identity of the SIM is read for diagnostics only.
                let _ = self.network.send_internal(&Command::GetCcid, true);
                proof {
                    crate::network::lemma_extends_push(start, start, self.log().last());
                    assert(self.log() == start.push(self.log().last()));
                }
                Transition::Advance(State::RegisteringNetwork)
            },
            State::RegisteringNetwork => self.registering(),
            State::AttachingNetwork => match self.network.attach() {
                PollResult::Done => Transition::Advance(State::Connected),
                _ => Transition::Retry(State::PowerOn),
            },
            State::Connected => Transition::Abort(Error::Unknown),
        }
    }

    /// Commits the outcome of an action to the state machine, arming the
    /// backoff timer when a retry is due.
    fn commit(&mut self, t: Transition)
        requires
            old(self).wf(),
            old(self).fsm.state != State::Connected,
            !old(self).fsm.retry_pending,
        ensures
            final(self).wf(),
            committed(old(self).fsm, t, final(self).fsm),
            final(self).hw@ == if arms(old(self).fsm, t) {
                old(self).hw@.push(
                    hw_at(HwOp::TimerStart(backoff_ms(final(self).fsm.attempt)), old(self).log().len()),
                )
            } else {
                old(self).hw@
            },
            final(self).log() == old(self).log(),
            final(self).sockets == old(self).sockets,
            final(self).network.events@ == old(self).network.events@,
            final(self).network.attached == old(self).network.attached,
            final(self).network.pdp_context_active == old(self).network.pdp_context_active,
    {
        match t {
            Transition::Advance(next) => {
                self.fsm.set_state(next);
                if next == State::Connected {
                    self.fsm.reset();
                }
            },
            Transition::Retry(fallback_state) => match self.fsm.retry_or_fail() {
                RetryDecision::Retry(ms) => self.start_timer(ms),
                RetryDecision::StateTimeout => self.fsm.set_state(fallback_state),
            },
            Transition::Exhaust(fallback_state) => {
                self.fsm.set_max_retry_attempts(0);
                let _ = self.fsm.retry_or_fail();
                self.fsm.set_state(fallback_state);
            },
            Transition::Abort(_) => {},
        }
    }
}

/// The state change, if any, that notification `e` forces on state `s`.
pub fn reaction(s: State, e: &Event) -> (r: Option<State>)
    ensures
        r == reacts(s, *e),
{
    match e {
        Event::Disconnected(_) => Some(State::Init),
        Event::CellularRegistrationStatusChanged(net, status) => {
            let cellular = match net {
                RadioAccessNetwork::Utran | RadioAccessNetwork::Eutran => true,
                RadioAccessNetwork::Geran => false,
            };
            let watching = match s {
                State::SignalQuality
                | State::RegisteringNetwork
                | State::AttachingNetwork
                | State::Connected => true,
                _ => false,
            };
            if watching && cellular && status.is_registered() {
                Some(State::RegisteringNetwork)
            } else {
                None
            }
        },
        _ => None,
    }
}

} // verus!
