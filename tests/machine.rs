use ublox_cellular::command::{AtClient, Command, Event, RadioAccessNetwork, RegistrationStatus, Response};
use ublox_cellular::error::{Error, PollResult, TransportError};
use ublox_cellular::network::Network;
use ublox_cellular::state::{RetryDecision, State, StateMachine, DEFAULT_MAX_RETRY_ATTEMPTS};

#[test]
fn retry_budget_and_backoff() {
    let mut fsm = StateMachine::new();
    assert_eq!(fsm.get_state(), State::Init);
    assert_eq!(fsm.max_retry_attempts, DEFAULT_MAX_RETRY_ATTEMPTS);
    fsm.set_max_retry_attempts(2);
    assert_eq!(fsm.retry_or_fail(), RetryDecision::Retry(1000));
    assert!(fsm.is_retry());
    assert_eq!(fsm.retry_or_fail(), RetryDecision::Retry(2000));
    assert_eq!(fsm.retry_or_fail(), RetryDecision::StateTimeout);
    assert_eq!(fsm.attempt, 0);
    assert!(!fsm.is_retry());
}

#[test]
fn zero_budget_times_out_at_once() {
    let mut fsm = StateMachine::new();
    fsm.set_max_retry_attempts(0);
    assert_eq!(fsm.retry_or_fail(), RetryDecision::StateTimeout);
}

#[test]
fn reset_clears_counter_and_backoff() {
    let mut fsm = StateMachine::new();
    fsm.set_state(State::SimPin);
    fsm.retry_or_fail();
    fsm.retry_or_fail();
    fsm.reset();
    assert_eq!(fsm.attempt, 0);
    assert!(!fsm.is_retry());
    assert_eq!(fsm.get_state(), State::SimPin);
    fsm.retry_or_fail();
    fsm.end_backoff();
    assert!(!fsm.is_retry());
    assert_eq!(fsm.attempt, 1);
}

struct Script {
    replies: Vec<Result<Response, TransportError>>,
    sent: Vec<Command>,
    urcs: Vec<Event>,
}

impl AtClient for Script {
    fn send(&mut self, cmd: &Command, _drain_urcs: bool) -> Result<Response, TransportError> {
        self.sent.push(cmd.clone());
        self.replies.remove(0)
    }

    fn next_urc(&mut self) -> Option<Event> {
        if self.urcs.is_empty() {
            None
        } else {
            Some(self.urcs.remove(0))
        }
    }
}

fn network(replies: Vec<Result<Response, TransportError>>) -> Network<Script> {
    Network::new(Script { replies, sent: Vec::new(), urcs: Vec::new() })
}

fn status(s: RegistrationStatus) -> Result<Response, TransportError> {
    Ok(Response::Registration(s))
}

#[test]
fn register_checks_lte_then_packet_domain() {
    let mut net = network(vec![
        status(RegistrationStatus::Searching),
        status(RegistrationStatus::Roaming),
    ]);
    assert_eq!(net.register(None), PollResult::Done);
    assert_eq!(
        net.client.sent,
        vec![Command::GetEpsRegistrationStatus, Command::GetGprsRegistrationStatus]
    );
    let mut pending = network(vec![
        status(RegistrationStatus::Searching),
        status(RegistrationStatus::NotRegistered),
    ]);
    assert_eq!(pending.register(None), PollResult::Pending);
}

#[test]
fn register_reports_denial_and_errors() {
    let mut denied = network(vec![status(RegistrationStatus::Denied)]);
    assert_eq!(denied.register(None), PollResult::Fatal(Error::RegistrationDenied));
    assert_eq!(denied.client.sent.len(), 1);
    let mut broken = network(vec![Err(TransportError::Timeout)]);
    assert_eq!(
        broken.register(Some(RadioAccessNetwork::Utran)),
        PollResult::Fatal(Error::Network(TransportError::Timeout))
    );
    assert_eq!(broken.client.sent, vec![Command::GetGprsRegistrationStatus]);
}

#[test]
fn attach_queries_then_requests() {
    let mut net = network(vec![Ok(Response::GprsAttached(false)), Ok(Response::Done)]);
    assert_eq!(net.attach(), PollResult::Pending);
    assert!(!net.attached);
    assert_eq!(net.client.sent, vec![Command::GetGprsAttached, Command::SetGprsAttached(true)]);
    let mut ready = network(vec![Ok(Response::GprsAttached(true))]);
    assert_eq!(ready.attach(), PollResult::Done);
    assert!(ready.attached);
    assert_eq!(ready.attach(), PollResult::Done);
    assert_eq!(ready.client.sent.len(), 1);
}

#[test]
fn events_drain_in_arrival_order() {
    let mut net = network(vec![]);
    net.client.urcs = vec![Event::Disconnected(1), Event::Disconnected(2)];
    net.handle_urc();
    net.handle_urc();
    net.handle_urc();
    assert_eq!(net.get_event(), Some(Event::Disconnected(1)));
    assert_eq!(net.get_event(), Some(Event::Disconnected(2)));
    assert_eq!(net.get_event(), None);
    net.events.push(Event::CellularCellIdChanged(None));
    net.clear_events();
    assert_eq!(net.get_event(), None);
}

#[test]
fn packet_domain_reporting_result() {
    let mut net = network(vec![Ok(Response::Done), Err(TransportError::Rejected)]);
    assert_eq!(net.set_packet_domain_event_reporting(true), Ok(()));
    assert_eq!(
        net.set_packet_domain_event_reporting(false),
        Err(Error::Network(TransportError::Rejected))
    );
    assert_eq!(
        net.client.sent,
        vec![
            Command::SetPacketDomainEventReporting(true),
            Command::SetPacketDomainEventReporting(false),
        ]
    );
}

#[test]
fn registered_statuses() {
    assert!(RegistrationStatus::Home.is_registered());
    assert!(RegistrationStatus::Roaming.is_registered());
    assert!(!RegistrationStatus::Denied.is_registered());
    assert!(!RegistrationStatus::Searching.is_registered());
}
