use vstd::prelude::*;
use crate::error::TransportError;

verus! {

/// Operating mode of the module (`AT+CFUN`).
#[derive(Clone, Copy, Debug, PartialEq, Eq, Structural)]
pub enum Functionality {
    Full,
    AirplaneMode,
    SilentReset,
    SilentResetWithSimReset,
}

/// How much a registration notification reports.
#[derive(Clone, Copy, Debug, PartialEq, Eq, Structural)]
pub enum UrcMode {
    Disabled,
    Enabled,
    Verbose,
}

/// Radio access network a notification is about.
#[derive(Clone, Copy, Debug, PartialEq, Eq, Structural)]
pub enum RadioAccessNetwork {
    /// 2G, circuit-switched.
    Geran,
    Utran,
    Eutran,
}

/// Network registration status reported by the module.
#[derive(Clone, Copy, Debug, PartialEq, Eq, Structural)]
pub enum RegistrationStatus {
    NotRegistered,
    Home,
    Searching,
    Denied,
    Unknown,
    Roaming,
}

impl RegistrationStatus {
    pub open spec fn registered(self) -> bool {
        self is Home || self is Roaming
    }

    pub fn is_registered(&self) -> (r: bool)
        ensures
            r == self.registered(),
    {
        match self {
            RegistrationStatus::Home | RegistrationStatus::Roaming => true,
            _ => false,
        }
    }
}

/// SIM lock state.
#[derive(Clone, Copy, Debug, PartialEq, Eq, Structural)]
pub enum PinStatusCode {
    Ready,
    SimPin,
    SimPuk,
    Other,
}

/// The commands the driver issues, and an escape for any other one.
#[derive(Clone, Debug, PartialEq, Eq)]
pub enum Command {
    /// Liveness probe (`AT`).
    At,
    /// Verbose error result codes (`AT+CMEE=2`).
    SetVerboseErrors,
    /// DCD follows the carrier (`AT&C1`).
    SetDcdFollowsCarrier,
    /// DTR changes are ignored (`AT&D0`).
    SetDtrIgnored,
    /// UART power saving off (`AT+UPSV=0`).
    DisableUartPowerSaving,
    /// Hex mode of the socket commands on or off (`AT+UDCONF=1`).
    SetHexMode(bool),
    SetModuleFunctionality(Functionality),
    /// RTS/CTS flow control on or off (`AT&K`).
    SetFlowControl(bool),
    /// Message-waiting notifications off (`AT+UMWI=0`).
    DisableMessageWaitingIndication,
    /// LTE preferred, then UMTS (`AT+URAT`).
    SetPreferredRadioAccessTechnology,
    /// Circuit-switched registration notifications (`AT+CREG`).
    SetNetworkRegistrationUrc(UrcMode),
    /// Packet-switched registration notifications (`AT+CGREG`).
    SetGprsRegistrationUrc(UrcMode),
    /// EPS registration notifications (`AT+CEREG`).
    SetEpsRegistrationUrc(UrcMode),
    GetPinStatus,
    GetGprsAttached,
    SetGprsAttached(bool),
    GetCcid,
    SetPacketDomainEventReporting(bool),
    GetGprsRegistrationStatus,
    GetEpsRegistrationStatus,
    /// Any other command, as its text.
    Raw(Vec<u8>),
}

/// A parsed response.
#[derive(Clone, Debug, PartialEq, Eq)]
pub enum Response {
    /// A bare `OK`.
    Done,
    PinStatus(PinStatusCode),
    GprsAttached(bool),
    Ccid(u64),
    Registration(RegistrationStatus),
    /// Any other response, as its text.
    Text(Vec<u8>),
}

/// A notification of the module, as the transport parsed it.
#[derive(Clone, Debug, PartialEq, Eq)]
pub enum Event {
    /// The data connection with this identifier was dropped.
    Disconnected(u8),
    CellularRegistrationStatusChanged(RadioAccessNetwork, RegistrationStatus),
    /// The radio access technology in use changed.
    CellularRadioAccessTechnologyChanged(RadioAccessNetwork, u8),
    /// The serving cell changed.
    CellularCellIdChanged(Option<Vec<u8>>),
}

/// The command channel to the module. Implemented by the application over
/// its serial link.
pub trait AtClient {
    /// Sends one command and waits for its response. With `drain_urcs`,
    /// notifications interleaved with the exchange are consumed by it.
    fn send(&mut self, cmd: &Command, drain_urcs: bool) -> Result<Response, TransportError>;

    /// The next pending notification, if any; never blocks.
    fn next_urc(&mut self) -> Option<Event>;
}

/// Millisecond delays and a count-down timer.
pub trait Timer {
    /// Waits `ms` milliseconds.
    fn delay_ms(&mut self, ms: u32) -> Result<(), ()>;

    /// Starts the count-down of `ms` milliseconds.
    fn start(&mut self, ms: u32);

    /// True once the count-down has run out; never blocks.
    fn has_elapsed(&mut self) -> bool;
}

/// A digital output.
pub trait OutputPin {
    fn set_high(&mut self);

    fn set_low(&mut self);
}

/// A digital input.
pub trait InputPin {
    fn is_high(&mut self) -> bool;
}

/// A pin that is not wired: writes do nothing and it reads low.
#[derive(Clone, Copy, Debug, PartialEq, Eq, Structural)]
pub struct NoPin;

impl OutputPin for NoPin {
    fn set_high(&mut self) {
    }

    fn set_low(&mut self) {
    }
}

impl InputPin for NoPin {
    fn is_high(&mut self) -> bool {
        false
    }
}

} // verus!
