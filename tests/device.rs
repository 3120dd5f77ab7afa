use std::cell::{Cell, RefCell};
use std::collections::VecDeque;
use std::rc::Rc;

use ublox_cellular::client::{
    reaction, Config, Device, BOOT_WAIT_TIME_MS, MAX_BAUD_RATE, PWR_ON_PULL_TIME_MS,
};
use ublox_cellular::command::{
    AtClient, Command, Event, Functionality, InputPin, NoPin, OutputPin, PinStatusCode,
    RadioAccessNetwork, RegistrationStatus, Response, Timer, UrcMode,
};
use ublox_cellular::error::{Error, PollResult, TransportError};
use ublox_cellular::state::State;

type Answer = Box<dyn FnMut(&Command) -> Result<Response, TransportError>>;

struct Link {
    sent: Rc<RefCell<Vec<(Command, bool)>>>,
    urcs: Rc<RefCell<VecDeque<Event>>>,
    answer: Answer,
}

impl AtClient for Link {
    fn send(&mut self, cmd: &Command, drain_urcs: bool) -> Result<Response, TransportError> {
        self.sent.borrow_mut().push((cmd.clone(), drain_urcs));
        (self.answer)(cmd)
    }

    fn next_urc(&mut self) -> Option<Event> {
        self.urcs.borrow_mut().pop_front()
    }
}

struct Clock {
    delays: Rc<RefCell<Vec<u32>>>,
    started: Rc<RefCell<Vec<u32>>>,
    delay_fails: Rc<Cell<bool>>,
    elapsed: Rc<Cell<bool>>,
}

impl Timer for Clock {
    fn delay_ms(&mut self, ms: u32) -> Result<(), ()> {
        self.delays.borrow_mut().push(ms);
        if self.delay_fails.get() {
            Err(())
        } else {
            Ok(())
        }
    }

    fn start(&mut self, ms: u32) {
        self.started.borrow_mut().push(ms);
    }

    fn has_elapsed(&mut self) -> bool {
        self.elapsed.get()
    }
}

struct Pin {
    levels: Rc<RefCell<Vec<bool>>>,
}

impl OutputPin for Pin {
    fn set_high(&mut self) {
        self.levels.borrow_mut().push(true);
    }

    fn set_low(&mut self) {
        self.levels.borrow_mut().push(false);
    }
}

struct Level(bool);

impl InputPin for Level {
    fn is_high(&mut self) -> bool {
        self.0
    }
}

type Dev<I> = Device<Link, Clock, Pin, I, u8, 6>;

struct Rig<I> {
    dev: Dev<I>,
    sent: Rc<RefCell<Vec<(Command, bool)>>>,
    urcs: Rc<RefCell<VecDeque<Event>>>,
    delays: Rc<RefCell<Vec<u32>>>,
    started: Rc<RefCell<Vec<u32>>>,
    delay_fails: Rc<Cell<bool>>,
    elapsed: Rc<Cell<bool>>,
}

fn healthy(cmd: &Command) -> Result<Response, TransportError> {
    match cmd {
        Command::GetPinStatus => Ok(Response::PinStatus(PinStatusCode::Ready)),
        Command::GetGprsAttached => Ok(Response::GprsAttached(true)),
        Command::GetEpsRegistrationStatus => Ok(Response::Registration(RegistrationStatus::Home)),
        Command::GetGprsRegistrationStatus => {
            Ok(Response::Registration(RegistrationStatus::Home))
        }
        Command::GetCcid => Ok(Response::Ccid(8944500102198304826)),
        _ => Ok(Response::Done),
    }
}

fn rig_with<I: InputPin>(answer: Answer, config: Config<Pin, I>) -> Rig<I> {
    let sent = Rc::new(RefCell::new(Vec::new()));
    let urcs = Rc::new(RefCell::new(VecDeque::new()));
    let delays = Rc::new(RefCell::new(Vec::new()));
    let started = Rc::new(RefCell::new(Vec::new()));
    let delay_fails = Rc::new(Cell::new(false));
    let elapsed = Rc::new(Cell::new(true));
    let link = Link { sent: sent.clone(), urcs: urcs.clone(), answer };
    let clock = Clock {
        delays: delays.clone(),
        started: started.clone(),
        delay_fails: delay_fails.clone(),
        elapsed: elapsed.clone(),
    };
    Rig { dev: Device::new(link, clock, config), sent, urcs, delays, started, delay_fails, elapsed }
}

fn rig(answer: Answer) -> Rig<NoPin> {
    rig_with(answer, Config::new(115_200))
}

fn commands<I: InputPin>(r: &Rig<I>) -> Vec<Command> {
    r.sent.borrow().iter().map(|(c, _)| c.clone()).collect()
}

fn spin_until_connected<I: InputPin>(r: &mut Rig<I>) -> Vec<State> {
    let mut states = vec![r.dev.fsm.state];
    for _ in 0..50 {
        if r.dev.spin() == PollResult::Done {
            return states;
        }
        if *states.last().unwrap() != r.dev.fsm.state {
            states.push(r.dev.fsm.state);
        }
    }
    panic!("never connected: {:?}", states);
}

#[test]
fn bring_up_passes_every_state_in_order() {
    let mut r = rig(Box::new(healthy));
    let states = spin_until_connected(&mut r);
    assert_eq!(
        states,
        vec![
            State::Init,
            State::PowerOn,
            State::Configure,
            State::DeviceReady,
            State::SimPin,
            State::SignalQuality,
            State::RegisteringNetwork,
            State::AttachingNetwork,
            State::Connected,
        ]
    );
    assert_eq!(r.dev.fsm.attempt, 0);
    assert!(r.dev.network.attached);
    assert!(!r.dev.network.pdp_context_active);
    assert_eq!(r.dev.spin(), PollResult::Done);
}

#[test]
fn connected_resets_attempt_counter() {
    // The first configure fails once, then everything succeeds.
    let failed = Rc::new(Cell::new(false));
    let f = failed.clone();
    let mut r = rig(Box::new(move |cmd: &Command| {
        if *cmd == Command::SetVerboseErrors && !f.get() {
            f.set(true);
            return Err(TransportError::Rejected);
        }
        healthy(cmd)
    }));
    r.dev.spin();
    r.dev.spin();
    assert_eq!(r.dev.fsm.state, State::Configure);
    r.dev.spin();
    assert_eq!(r.dev.fsm.state, State::Configure);
    assert_eq!(r.dev.fsm.attempt, 1);
    assert!(r.dev.fsm.retry_pending);
    assert_eq!(*r.started.borrow(), vec![1000]);
    spin_until_connected(&mut r);
    assert_eq!(r.dev.fsm.state, State::Connected);
    assert_eq!(r.dev.fsm.attempt, 0);
    assert!(!r.dev.fsm.retry_pending);
}

#[test]
fn backoff_blocks_until_timer_elapses() {
    let mut r = rig(Box::new(|cmd: &Command| match cmd {
        Command::SetVerboseErrors => Err(TransportError::Timeout),
        _ => healthy(cmd),
    }));
    r.dev.spin();
    r.dev.spin();
    r.dev.spin();
    assert!(r.dev.fsm.retry_pending);
    r.elapsed.set(false);
    let before = r.sent.borrow().len();
    assert_eq!(r.dev.spin(), PollResult::Pending);
    assert_eq!(r.sent.borrow().len(), before);
    assert_eq!(r.dev.fsm.attempt, 1);
    r.elapsed.set(true);
    assert_eq!(r.dev.spin(), PollResult::Pending);
    assert_eq!(r.dev.fsm.attempt, 2);
    assert_eq!(*r.started.borrow(), vec![1000, 2000]);
}

#[test]
fn exhausted_budget_falls_back_to_power_on() {
    let mut r = rig(Box::new(|cmd: &Command| match cmd {
        Command::SetVerboseErrors => Err(TransportError::Timeout),
        _ => healthy(cmd),
    }));
    r.dev.spin();
    r.dev.spin();
    for i in 1..=10u8 {
        r.dev.spin();
        assert_eq!(r.dev.fsm.state, State::Configure);
        assert_eq!(r.dev.fsm.attempt, i);
    }
    r.dev.spin();
    assert_eq!(r.dev.fsm.state, State::PowerOn);
    assert_eq!(r.dev.fsm.attempt, 0);
    assert!(!r.dev.fsm.retry_pending);
}

#[test]
fn disconnect_event_returns_to_init() {
    let mut r = rig(Box::new(healthy));
    spin_until_connected(&mut r);
    r.dev.network.pdp_context_active = true;
    r.urcs.borrow_mut().push_back(Event::Disconnected(1));
    let before = r.sent.borrow().len();
    assert_eq!(r.dev.spin(), PollResult::Pending);
    assert_eq!(r.dev.fsm.state, State::Init);
    assert!(r.dev.network.events.is_empty());
    assert!(!r.dev.network.attached);
    assert!(!r.dev.network.pdp_context_active);
    assert_eq!(r.sent.borrow().len(), before);
}

#[test]
fn disconnect_event_clears_queued_events() {
    let mut r = rig(Box::new(healthy));
    r.dev.spin();
    r.dev.spin();
    assert_eq!(r.dev.fsm.state, State::Configure);
    r.dev.network.events.push(Event::CellularCellIdChanged(None));
    r.dev.network.events.push(Event::Disconnected(0));
    r.dev.network.events.push(Event::CellularRadioAccessTechnologyChanged(
        RadioAccessNetwork::Eutran,
        7,
    ));
    assert_eq!(r.dev.spin(), PollResult::Pending);
    assert_eq!(r.dev.fsm.state, State::Init);
    assert!(r.dev.network.events.is_empty());
}

#[test]
fn registered_event_while_connected_reregisters() {
    let mut r = rig(Box::new(healthy));
    spin_until_connected(&mut r);
    r.urcs.borrow_mut().push_back(Event::CellularRegistrationStatusChanged(
        RadioAccessNetwork::Eutran,
        RegistrationStatus::Home,
    ));
    assert_eq!(r.dev.spin(), PollResult::Pending);
    assert_eq!(r.dev.fsm.state, State::RegisteringNetwork);
    assert!(r.dev.network.events.is_empty());
}

#[test]
fn registered_event_is_ignored_for_2g_or_early_states() {
    let mut r = rig(Box::new(healthy));
    spin_until_connected(&mut r);
    r.urcs.borrow_mut().push_back(Event::CellularRegistrationStatusChanged(
        RadioAccessNetwork::Geran,
        RegistrationStatus::Home,
    ));
    assert_eq!(r.dev.spin(), PollResult::Done);
    assert_eq!(r.dev.fsm.state, State::Connected);

    let mut early = rig(Box::new(healthy));
    early.dev.spin();
    assert_eq!(early.dev.fsm.state, State::PowerOn);
    early.urcs.borrow_mut().push_back(Event::CellularRegistrationStatusChanged(
        RadioAccessNetwork::Utran,
        RegistrationStatus::Roaming,
    ));
    early.dev.spin();
    assert_eq!(early.dev.fsm.state, State::Configure);
}

#[test]
fn reaction_table() {
    let reg = Event::CellularRegistrationStatusChanged(
        RadioAccessNetwork::Utran,
        RegistrationStatus::Roaming,
    );
    let searching = Event::CellularRegistrationStatusChanged(
        RadioAccessNetwork::Eutran,
        RegistrationStatus::Searching,
    );
    assert_eq!(reaction(State::PowerOn, &Event::Disconnected(3)), Some(State::Init));
    assert_eq!(reaction(State::SignalQuality, &reg), Some(State::RegisteringNetwork));
    assert_eq!(reaction(State::SimPin, &reg), None);
    assert_eq!(reaction(State::Connected, &searching), None);
    assert_eq!(reaction(State::Connected, &Event::CellularCellIdChanged(Some(vec![b'1']))), None);
}

#[test]
fn is_alive_against_failing_transport_uses_exact_attempts() {
    let mut r = rig(Box::new(|_: &Command| Err(TransportError::Timeout)));
    assert_eq!(r.dev.is_alive(4), Err(Error::Network(TransportError::Timeout)));
    assert_eq!(commands(&r), vec![Command::At; 4]);
    let mut none = rig(Box::new(|_: &Command| Err(TransportError::Timeout)));
    assert_eq!(none.dev.is_alive(0), Err(Error::BaudDetection));
    assert!(none.sent.borrow().is_empty());
}

#[test]
fn is_alive_stops_at_first_reply() {
    let calls = Rc::new(Cell::new(0u32));
    let c = calls.clone();
    let mut r = rig(Box::new(move |_: &Command| {
        c.set(c.get() + 1);
        if c.get() < 3 {
            Err(TransportError::Parse)
        } else {
            Ok(Response::Done)
        }
    }));
    assert_eq!(r.dev.is_alive(10), Ok(()));
    assert_eq!(commands(&r), vec![Command::At; 3]);
}

#[test]
fn send_at_before_init_is_refused() {
    let mut r = rig(Box::new(healthy));
    assert_eq!(r.dev.send_at(&Command::Raw(b"AT+CSQ".to_vec())), Err(Error::Uninitialized));
    assert!(r.sent.borrow().is_empty());
    r.dev.spin();
    let reply = r.dev.send_at(&Command::Raw(b"AT+CSQ".to_vec()));
    assert_eq!(reply, Ok(Response::Done));
    assert_eq!(*r.sent.borrow(), vec![(Command::Raw(b"AT+CSQ".to_vec()), true)]);
}

/// The module is off: it answers nothing until it was reset.
fn off_until_reset() -> Answer {
    let reset = Rc::new(Cell::new(false));
    Box::new(move |cmd: &Command| {
        if *cmd == Command::SetModuleFunctionality(Functionality::SilentReset) {
            reset.set(true);
            return Ok(Response::Done);
        }
        if reset.get() {
            healthy(cmd)
        } else {
            Err(TransportError::Timeout)
        }
    })
}

#[test]
fn power_on_without_power_pin_soft_restarts() {
    let mut r = rig(off_until_reset());
    assert_eq!(r.dev.power_on(), Ok(()));
    assert_eq!(
        commands(&r),
        vec![
            Command::At,
            Command::At,
            Command::At,
            Command::SetModuleFunctionality(Functionality::SilentReset),
            Command::At,
        ]
    );
    assert_eq!(*r.delays.borrow(), vec![BOOT_WAIT_TIME_MS]);
}

#[test]
fn power_on_with_power_pin_pulses_it() {
    let levels = Rc::new(RefCell::new(Vec::new()));
    let mut config: Config<Pin, NoPin> = Config::new(115_200);
    config.power_pin = Some(Pin { levels: levels.clone() });
    let pulsed = levels.clone();
    let mut r = rig_with(
        Box::new(move |cmd: &Command| {
            if pulsed.borrow().len() == 2 {
                healthy(cmd)
            } else {
                Err(TransportError::Timeout)
            }
        }),
        config,
    );
    assert_eq!(r.dev.power_on(), Ok(()));
    assert_eq!(*levels.borrow(), vec![false, true]);
    assert_eq!(commands(&r), vec![Command::At; 4]);
    assert_eq!(*r.delays.borrow(), vec![PWR_ON_PULL_TIME_MS, BOOT_WAIT_TIME_MS]);
}

#[test]
fn power_on_skips_when_already_alive() {
    let mut r = rig(Box::new(healthy));
    assert_eq!(r.dev.power_on(), Ok(()));
    assert_eq!(commands(&r), vec![Command::At]);
    assert!(r.delays.borrow().is_empty());
}

#[test]
fn power_on_skips_when_presence_pin_is_high() {
    let mut config: Config<Pin, Level> = Config::new(115_200);
    config.vint_pin = Some(Level(true));
    let mut r = rig_with(Box::new(|_: &Command| Err(TransportError::Timeout)), config);
    assert_eq!(r.dev.power_on(), Ok(()));
    assert!(r.sent.borrow().is_empty());
}

#[test]
fn power_on_delay_failure_is_busy() {
    let mut r = rig(off_until_reset());
    r.delay_fails.set(true);
    assert_eq!(r.dev.power_on(), Err(Error::Busy));
    assert_eq!(commands(&r).len(), 4);
}

#[test]
fn power_on_reports_last_probe_failure() {
    let mut r = rig(Box::new(|cmd: &Command| match cmd {
        Command::At => Err(TransportError::Rejected),
        _ => Ok(Response::Done),
    }));
    assert_eq!(r.dev.power_on(), Err(Error::Network(TransportError::Rejected)));
    assert_eq!(commands(&r).len(), 3 + 1 + 10);
}

#[test]
fn initialize_drives_power_pin_unless_left_alone() {
    let levels = Rc::new(RefCell::new(Vec::new()));
    let mut config: Config<Pin, NoPin> = Config::new(115_200);
    config.power_pin = Some(Pin { levels: levels.clone() });
    let mut r = rig_with(Box::new(healthy), config);
    assert_eq!(r.dev.initialize(true), Ok(()));
    assert!(levels.borrow().is_empty());
    assert_eq!(r.dev.initialize(false), Ok(()));
    assert_eq!(*levels.borrow(), vec![true]);
    assert!(r.sent.borrow().is_empty());
}

#[test]
fn configure_rejects_high_baud_rate_without_commands() {
    let mut r = rig_with::<NoPin>(Box::new(healthy), Config::new(460_800));
    assert_eq!(r.dev.configure(), Err(Error::BaudUnsupported));
    assert!(r.sent.borrow().is_empty());
    let mut edge = rig_with::<NoPin>(Box::new(healthy), Config::new(MAX_BAUD_RATE));
    assert_eq!(edge.dev.configure(), Ok(()));
}

#[test]
fn configure_sends_its_commands_in_order() {
    let mut config: Config<Pin, NoPin> = Config::new(115_200);
    config.hex_mode = true;
    config.flow_control = true;
    let mut r = rig_with(Box::new(healthy), config);
    assert_eq!(r.dev.configure(), Ok(()));
    assert_eq!(
        commands(&r),
        vec![
            Command::SetVerboseErrors,
            Command::SetDcdFollowsCarrier,
            Command::SetDtrIgnored,
            Command::DisableUartPowerSaving,
            Command::SetHexMode(true),
            Command::SetModuleFunctionality(Functionality::AirplaneMode),
            Command::SetFlowControl(true),
            Command::DisableMessageWaitingIndication,
        ]
    );
    assert!(r.sent.borrow().iter().all(|(_, drain)| !drain));
}

#[test]
fn configure_stops_at_first_failure() {
    let mut r = rig(Box::new(|cmd: &Command| match cmd {
        Command::DisableUartPowerSaving => Err(TransportError::Rejected),
        _ => Ok(Response::Done),
    }));
    assert_eq!(r.dev.configure(), Err(Error::Network(TransportError::Rejected)));
    assert_eq!(commands(&r).len(), 4);
}

#[test]
fn restart_selects_reset_kind() {
    let mut r = rig(Box::new(healthy));
    assert_eq!(r.dev.restart(true), Ok(()));
    assert_eq!(r.dev.restart(false), Ok(()));
    assert_eq!(
        commands(&r),
        vec![
            Command::SetModuleFunctionality(Functionality::SilentResetWithSimReset),
            Command::SetModuleFunctionality(Functionality::SilentReset),
        ]
    );
    let mut bad = rig(Box::new(|_: &Command| Err(TransportError::Overflow)));
    assert_eq!(bad.dev.restart(false), Err(Error::Network(TransportError::Overflow)));
}

#[test]
fn registration_urcs_are_enabled_verbosely() {
    let mut r = rig(Box::new(healthy));
    assert_eq!(r.dev.enable_registration_urcs(), Ok(()));
    assert_eq!(
        *r.sent.borrow(),
        vec![
            (Command::SetNetworkRegistrationUrc(UrcMode::Verbose), true),
            (Command::SetGprsRegistrationUrc(UrcMode::Verbose), true),
            (Command::SetEpsRegistrationUrc(UrcMode::Verbose), true),
        ]
    );
}

#[test]
fn device_ready_failure_is_fatal() {
    let mut r = rig(Box::new(|cmd: &Command| match cmd {
        Command::SetPreferredRadioAccessTechnology => Err(TransportError::Rejected),
        _ => healthy(cmd),
    }));
    r.dev.spin();
    r.dev.spin();
    r.dev.spin();
    assert_eq!(r.dev.fsm.state, State::DeviceReady);
    assert_eq!(r.dev.spin(), PollResult::Fatal(Error::Network(TransportError::Rejected)));
    assert_eq!(r.dev.fsm.state, State::DeviceReady);
    assert_eq!(r.dev.fsm.attempt, 0);
}

#[test]
fn sim_not_ready_is_retried() {
    let mut r = rig(Box::new(|cmd: &Command| match cmd {
        Command::GetPinStatus => Ok(Response::PinStatus(PinStatusCode::SimPin)),
        _ => healthy(cmd),
    }));
    for _ in 0..4 {
        r.dev.spin();
    }
    assert_eq!(r.dev.fsm.state, State::SimPin);
    assert_eq!(r.dev.spin(), PollResult::Pending);
    assert_eq!(r.dev.fsm.state, State::SimPin);
    assert_eq!(r.dev.fsm.attempt, 1);
    assert!(!commands(&r).contains(&Command::GetGprsAttached));
}

#[test]
fn sim_pin_reads_attach_state() {
    let mut r = rig(Box::new(|cmd: &Command| match cmd {
        Command::GetGprsAttached => Ok(Response::GprsAttached(false)),
        Command::SetPacketDomainEventReporting(_) => Err(TransportError::Rejected),
        _ => healthy(cmd),
    }));
    r.dev.network.attached = true;
    for _ in 0..5 {
        r.dev.spin();
    }
    assert_eq!(r.dev.fsm.state, State::SignalQuality);
    assert!(!r.dev.network.attached);
    assert!(commands(&r).contains(&Command::SetPacketDomainEventReporting(true)));
}

#[test]
fn registration_denied_restarts_and_exhausts_budget() {
    let deny = Rc::new(Cell::new(false));
    let d = deny.clone();
    let mut r = rig(Box::new(move |cmd: &Command| match cmd {
        Command::GetEpsRegistrationStatus if d.get() => {
            Ok(Response::Registration(RegistrationStatus::Denied))
        }
        Command::At if d.get() => Err(TransportError::Timeout),
        Command::SetModuleFunctionality(Functionality::SilentReset) if d.get() => {
            Err(TransportError::Timeout)
        }
        _ => healthy(cmd),
    }));
    for _ in 0..6 {
        r.dev.spin();
    }
    assert_eq!(r.dev.fsm.state, State::RegisteringNetwork);
    deny.set(true);
    assert_eq!(r.dev.spin(), PollResult::Pending);
    assert_eq!(r.dev.fsm.state, State::PowerOn);
    assert_eq!(r.dev.fsm.max_retry_attempts, 0);
    assert_eq!(r.dev.fsm.attempt, 0);
    assert_eq!(
        commands(&r).last(),
        Some(&Command::SetModuleFunctionality(Functionality::SilentResetWithSimReset))
    );
    assert_eq!(r.delays.borrow().last(), Some(&BOOT_WAIT_TIME_MS));
    // The next failure falls back at once, with no backoff.
    let armed = r.started.borrow().len();
    assert_eq!(r.dev.spin(), PollResult::Pending);
    assert_eq!(r.dev.fsm.state, State::PowerOn);
    assert_eq!(r.dev.fsm.attempt, 0);
    assert!(!r.dev.fsm.retry_pending);
    assert_eq!(r.started.borrow().len(), armed);
}

#[test]
fn attach_failure_falls_back_after_retries() {
    let mut r = rig(Box::new(|cmd: &Command| match cmd {
        Command::GetGprsAttached => Ok(Response::GprsAttached(false)),
        Command::SetGprsAttached(_) => Err(TransportError::Timeout),
        _ => healthy(cmd),
    }));
    for _ in 0..7 {
        r.dev.spin();
    }
    assert_eq!(r.dev.fsm.state, State::AttachingNetwork);
    r.dev.spin();
    assert_eq!(r.dev.fsm.state, State::AttachingNetwork);
    assert_eq!(r.dev.fsm.attempt, 1);
    assert_eq!(commands(&r).last(), Some(&Command::SetGprsAttached(true)));
}

#[test]
fn power_on_pull_delay_failure_stops_the_pulse() {
    let levels = Rc::new(RefCell::new(Vec::new()));
    let mut config: Config<Pin, NoPin> = Config::new(115_200);
    config.power_pin = Some(Pin { levels: levels.clone() });
    let mut r = rig_with(Box::new(|_: &Command| Err(TransportError::Timeout)), config);
    r.delay_fails.set(true);
    assert_eq!(r.dev.power_on(), Err(Error::Busy));
    assert_eq!(*levels.borrow(), vec![false]);
    assert_eq!(*r.delays.borrow(), vec![PWR_ON_PULL_TIME_MS]);
    assert_eq!(commands(&r), vec![Command::At; 3]);
}
