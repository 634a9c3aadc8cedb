//! Decisions of the board's services: the main sequence's checks, the
//! daemon endpoint, the Wake-on-LAN timer, the light service's states, the
//! initialisation service, the USB device state, and the test pattern's
//! dimming.

use vstd::prelude::*;
use crate::config::Wol;
use crate::leds::Rgb;
use crate::text::{parse_u64, spec_parse_u64};
use crate::vars::UsbIface;

verus! {

/// The colour of a failure.
pub open spec fn spec_failure_color() -> Rgb {
    Rgb { r: 255, g: 0, b: 0 }
}

/// The colour of waiting.
pub open spec fn spec_waiting_color() -> Rgb {
    Rgb { r: 245, g: 65, b: 5 }
}

/// The colour of success.
pub open spec fn spec_good_color() -> Rgb {
    Rgb { r: 2, g: 18, b: 2 }
}

/// The colour of a failure: red.
pub fn failure_color() -> (r: Rgb)
    ensures
        r == spec_failure_color(),
{
    Rgb::new(255, 0, 0)
}

/// The colour of waiting: orange.
pub fn waiting_color() -> (r: Rgb)
    ensures
        r == spec_waiting_color(),
{
    Rgb::new(245, 65, 5)
}

/// The colour of success: a dim green.
pub fn good_color() -> (r: Rgb)
    ensures
        r == spec_good_color(),
{
    Rgb::new(2, 18, 2)
}

/// The level of the USB output selector: high routes USB to the port, low to
/// the header.
pub fn usb_selector_high(iface: UsbIface) -> (r: bool)
    ensures
        r == (iface == UsbIface::Port),
{
    match iface {
        UsbIface::Header => false,
        UsbIface::Port => true,
    }
}

/// Whether the power requirement is met: a 4A VBUS line, where required, must
/// be sensed.
pub fn vbus_requirement_met(require_4a_vbus: bool, aux_vbus_sense: bool) -> (r: bool)
    ensures
        r == !(require_4a_vbus && !aux_vbus_sense),
{
    !(require_4a_vbus && !aux_vbus_sense)
}

/// The time before the board goes to sleep for Wake-on-LAN, in seconds, if
/// it does.
pub open spec fn spec_wol_delay_secs(wol: Wol) -> Option<u64> {
    match wol {
        Wol::Off => None,
        Wol::Mins5 => Some(300u64),
        Wol::Mins10 => Some(600u64),
        Wol::Mins30 => Some(1800u64),
    }
}

/// The time before the board goes to sleep; see [`spec_wol_delay_secs`].
pub fn wol_delay_secs(wol: Wol) -> (r: Option<u64>)
    ensures
        r == spec_wol_delay_secs(wol),
{
    match wol {
        Wol::Off => None,
        Wol::Mins5 => Some(5 * 60),
        Wol::Mins10 => Some(10 * 60),
        Wol::Mins30 => Some(30 * 60),
    }
}

/// The shortest delay before sleeping that the timer takes, in seconds:
/// sleeping sooner after boot can leave the board unable to take new
/// firmware.
pub const MIN_WOL_DELAY_SECS: u64 = 10;

/// The countdown shown before the board sleeps, in seconds.
pub open spec fn spec_wol_countdown() -> Seq<u8> {
    Seq::new(10, |i: int| (10 - i) as u8)
}

/// A command to the Wake-on-LAN timer.
#[derive(Clone, Copy, Debug, PartialEq, Eq, Structural)]
pub enum WolCmd {
    Off,
    /// Sleep after this many seconds.
    AfterSecs(u64),
}

/// What the timer does for a command: nothing, or wait the delay, then count
/// down from 10 to 1 second by second, then sleep.
pub fn wol_plan(cmd: WolCmd) -> (r: Option<(u64, Vec<u8>)>)
    requires
        cmd matches WolCmd::AfterSecs(d) ==> d >= MIN_WOL_DELAY_SECS,
    ensures
        match cmd {
            WolCmd::Off => r is None,
            WolCmd::AfterSecs(d) => r matches Some((delay, countdown)) && delay == d && countdown@
                == spec_wol_countdown(),
        },
{
    match cmd {
        WolCmd::Off => None,
        WolCmd::AfterSecs(d) => {
            let mut countdown: Vec<u8> = Vec::new();
            let mut n: u8 = 10;
            while n >= 1
                invariant
                    n <= 10,
                    countdown@ =~= spec_wol_countdown().take(10 - n),
                decreases n,
            {
                countdown.push(n);
                n = n - 1;
            }
            assert(countdown@ =~= spec_wol_countdown());
            Some((d, countdown))
        },
    }
}

/// Why the daemon endpoint could not be read.
#[derive(Clone, Copy, Debug, PartialEq, Eq, Structural)]
pub enum EndpointError {
    /// There is no `:` between host and port.
    MissingPort,
    /// The port is not a number from 0 to 65535.
    InvalidPort,
}

/// The position of the first `:`.
pub open spec fn spec_first_colon(b: Seq<u8>, from: int) -> Option<int>
    decreases b.len() - from,
{
    if from < 0 || from >= b.len() {
        None
    } else if b[from] == 0x3A {
        Some(from)
    } else {
        spec_first_colon(b, from + 1)
    }
}

/// The daemon endpoint `host:port`: the length of the host (the text before
/// the first `:`) and the port (the text after it, a decimal number that fits
/// in 16 bits).
pub open spec fn spec_endpoint(b: Seq<u8>) -> Result<(int, u16), EndpointError> {
    match spec_first_colon(b, 0) {
        None => Err(EndpointError::MissingPort),
        Some(i) => match spec_parse_u64(b.subrange(i + 1, b.len() as int)) {
            Some(p) => if p <= 0xFFFF {
                Ok((i, p as u16))
            } else {
                Err(EndpointError::InvalidPort)
            },
            None => Err(EndpointError::InvalidPort),
        },
    }
}

/// Reads the daemon endpoint; see [`spec_endpoint`].
pub fn parse_endpoint(endpoint: &[u8]) -> (r: Result<(usize, u16), EndpointError>)
    ensures
        match r {
            Ok((i, port)) => spec_endpoint(endpoint@) == Ok::<(int, u16), EndpointError>(
                (i as int, port),
            ),
            Err(e) => spec_endpoint(endpoint@) == Err::<(int, u16), EndpointError>(e),
        },
{
    let mut i: usize = 0;
    while i < endpoint.len()
        invariant
            i <= endpoint@.len(),
            spec_first_colon(endpoint@, 0) == spec_first_colon(endpoint@, i as int),
        decreases endpoint@.len() - i,
    {
        if endpoint[i] == 0x3A {
            let port_text = &endpoint[i + 1..endpoint.len()];
            return match parse_u64(port_text) {
                Some(p) => if p <= 0xFFFF {
                    Ok((i, p as u16))
                } else {
                    Err(EndpointError::InvalidPort)
                },
                None => Err(EndpointError::InvalidPort),
            };
        }
        i = i + 1;
    }
    Err(EndpointError::MissingPort)
}

/// The state of the board's lights.
#[derive(Clone, Copy, Debug, PartialEq, Eq, Structural)]
pub enum State {
    Off,
    /// A pull request is about to be run.
    PrPending,
}

impl State {
    /// The published name.
    pub open spec fn spec_name(self) -> Seq<char> {
        match self {
            State::Off => "off"@,
            State::PrPending => "pr_pending"@,
        }
    }

    /// The published name.
    pub fn name(self) -> (r: &'static str)
        ensures
            r@ == self.spec_name(),
    {
        match self {
            State::Off => "off",
            State::PrPending => "pr_pending",
        }
    }
}

/// What the light service sends for a state: all lights off, or the
/// backlight full white.
pub enum LightsAction {
    AllOff,
    SetBacklight(Rgb),
}

/// The light service: the state reached and the state aimed at.
pub struct LightsService {
    pub current: State,
    pub target: State,
}

impl LightsService {
    /// Off, at start.
    pub fn new() -> (r: Self)
        ensures
            r.current == State::Off,
            r.target == State::Off,
    {
        LightsService { current: State::Off, target: State::Off }
    }

    /// Whether a requested state starts a transition: one equal to the state
    /// aimed at is ignored.
    pub fn accepts(&self, state: State) -> (r: bool)
        ensures
            r == (state != self.target),
    {
        state != self.target
    }

    /// Starts a transition to `state`: what to send.
    pub fn request(&mut self, state: State) -> (r: LightsAction)
        ensures
            final(self).target == state,
            final(self).current == old(self).current,
            match state {
                State::Off => r is AllOff,
                State::PrPending => r matches LightsAction::SetBacklight(c) && c == (Rgb {
                    r: 0xFF,
                    g: 0xFF,
                    b: 0xFF,
                }),
            },
    {
        self.target = state;
        match state {
            State::Off => LightsAction::AllOff,
            State::PrPending => LightsAction::SetBacklight(Rgb::grey(0xFF)),
        }
    }

    /// The transition was sent, or another interrupted it: the state aimed
    /// at counts as reached.
    pub fn settle(&mut self)
        ensures
            final(self).current == old(self).target,
            final(self).target == old(self).target,
    {
        self.current = self.target;
    }
}

/// A command to the initialisation service.
#[derive(Clone, Copy, Debug, PartialEq, Eq, Structural)]
pub enum InitCmd {
    Start,
    Finish,
    FactoryReset,
}

/// Where initialisation stands.
#[derive(Clone, Copy, Debug, PartialEq, Eq, Structural)]
pub enum InitPhase {
    /// Waiting to be started.
    Idle,
    /// Taking requests from the host.
    Active,
    /// Done: the settings are written and the board resets.
    Finished,
}

/// What the initialisation service does for a command.
#[derive(Clone, Copy, Debug, PartialEq, Eq, Structural)]
pub enum InitAction {
    /// The command is out of place and ignored.
    Ignore,
    /// Initialisation begins: the link enters initialisation mode, and the
    /// setup screen is shown.
    Begin,
    /// The settings return to their defaults.
    ResetSettings,
    /// The link leaves initialisation mode, the settings are written as
    /// initialised, and the board resets.
    Complete,
}

/// The initialisation service.
pub struct InitService {
    pub phase: InitPhase,
}

impl InitService {
    /// Waiting to be started.
    pub fn new() -> (r: Self)
        ensures
            r.phase == InitPhase::Idle,
    {
        InitService { phase: InitPhase::Idle }
    }

    /// Handles a command.
    pub fn handle(&mut self, cmd: InitCmd) -> (r: InitAction)
        ensures
            match (old(self).phase, cmd) {
                (InitPhase::Idle, InitCmd::Start) => r == InitAction::Begin && final(self).phase
                    == InitPhase::Active,
                (InitPhase::Active, InitCmd::Finish) => r == InitAction::Complete
                    && final(self).phase == InitPhase::Finished,
                (InitPhase::Active, InitCmd::FactoryReset) => r == InitAction::ResetSettings
                    && final(self).phase == InitPhase::Active,
                _ => r == InitAction::Ignore && final(self).phase == old(self).phase,
            },
    {
        match (self.phase, cmd) {
            (InitPhase::Idle, InitCmd::Start) => {
                self.phase = InitPhase::Active;
                InitAction::Begin
            },
            (InitPhase::Active, InitCmd::Finish) => {
                self.phase = InitPhase::Finished;
                InitAction::Complete
            },
            (InitPhase::Active, InitCmd::FactoryReset) => InitAction::ResetSettings,
            _ => InitAction::Ignore,
        }
    }
}

/// The USB device's state: whether the host configured it.
pub struct MyDeviceHandler {
    pub configured: bool,
}

impl MyDeviceHandler {
    /// Not configured.
    pub fn new() -> (r: Self)
        ensures
            !r.configured,
    {
        MyDeviceHandler { configured: false }
    }

    /// The device was enabled or disabled: it is no longer configured.
    pub fn enabled(&mut self, enabled: bool)
        ensures
            !final(self).configured,
    {
        self.configured = false;
    }

    /// The bus was reset: the device is no longer configured.
    pub fn reset(&mut self)
        ensures
            !final(self).configured,
    {
        self.configured = false;
    }

    /// The device got an address: it is not configured yet.
    pub fn addressed(&mut self, addr: u8)
        ensures
            !final(self).configured,
    {
        self.configured = false;
    }

    /// The host configured the device, or withdrew its configuration.
    pub fn set_configured(&mut self, configured: bool)
        ensures
            final(self).configured == configured,
    {
        self.configured = configured;
    }
}

/// The key codes of the test keyboard's reports: the `A` key pressed, then
/// released.
pub fn test_key_reports() -> (r: ([u8; 6], [u8; 6]))
    ensures
        r.0@ == seq![0x04u8, 0, 0, 0, 0, 0],
        r.1@ == seq![0u8, 0, 0, 0, 0, 0],
{
    let down: [u8; 6] = [0x04, 0, 0, 0, 0, 0];
    let up: [u8; 6] = [0, 0, 0, 0, 0, 0];
    assert(down@ =~= seq![0x04u8, 0, 0, 0, 0, 0]);
    assert(up@ =~= seq![0u8, 0, 0, 0, 0, 0]);
    (down, up)
}

/// The number of frames between changes of dimming in the test pattern.
pub const IDLE_TOGGLE_FRAMES: u32 = 100;

/// The test pattern's dimming: whether the lights are dimmed, and the frames
/// left until that changes.
pub struct IdleToggle {
    pub idle: bool,
    pub frames_left: u32,
}

impl IdleToggle {
    /// Not dimmed, for the first 100 frames.
    pub fn new() -> (r: Self)
        ensures
            !r.idle,
            r.frames_left == IDLE_TOGGLE_FRAMES,
    {
        IdleToggle { idle: false, frames_left: IDLE_TOGGLE_FRAMES }
    }

    /// Counts a frame: every 100th frame the dimming changes, and the new
    /// setting is returned.
    pub fn tick(&mut self) -> (r: Option<bool>)
        requires
            0 < old(self).frames_left <= IDLE_TOGGLE_FRAMES,
        ensures
            0 < final(self).frames_left <= IDLE_TOGGLE_FRAMES,
            if old(self).frames_left == 1 {
                &&& final(self).idle == !old(self).idle
                &&& final(self).frames_left == IDLE_TOGGLE_FRAMES
                &&& r == Some(final(self).idle)
            } else {
                &&& final(self).idle == old(self).idle
                &&& final(self).frames_left == old(self).frames_left - 1
                &&& r is None
            },
    {
        self.frames_left = self.frames_left - 1;
        if self.frames_left == 0 {
            self.idle = !self.idle;
            self.frames_left = IDLE_TOGGLE_FRAMES;
            Some(self.idle)
        } else {
            None
        }
    }
}

/// An endpoint: an IPv4 address, as its 32 bits most significant first, and
/// a port.
#[derive(Clone, Copy, Debug, PartialEq, Eq, Structural)]
pub struct Endpoint {
    pub addr: u32,
    pub port: u16,
}

/// A service record found by discovery: its port, and the addresses its
/// target resolved to, in the order received.
pub struct ServiceRecord {
    pub port: u16,
    pub addresses: Vec<u32>,
}

/// The endpoint of the first record, in the order the records were found,
/// whose target has an address: that first address and the record's port.
pub open spec fn spec_select_endpoint(records: Seq<ServiceRecord>, i: int) -> Option<Endpoint>
    decreases records.len() - i,
{
    if i < 0 || i >= records.len() {
        None
    } else if records[i].addresses@.len() > 0 {
        Some(Endpoint { addr: records[i].addresses@[0], port: records[i].port })
    } else {
        spec_select_endpoint(records, i + 1)
    }
}

/// The endpoint of the area controller among the records found; see
/// [`spec_select_endpoint`].
pub fn select_endpoint(records: &[ServiceRecord]) -> (r: Option<Endpoint>)
    ensures
        r == spec_select_endpoint(records@, 0),
{
    let mut i: usize = 0;
    while i < records.len()
        invariant
            i <= records@.len(),
            spec_select_endpoint(records@, 0) == spec_select_endpoint(records@, i as int),
        decreases records@.len() - i,
    {
        if records[i].addresses.len() > 0 {
            return Some(Endpoint { addr: records[i].addresses[0], port: records[i].port });
        }
        i = i + 1;
    }
    None
}

/// What discovery does with what it found.
#[derive(Clone, Copy, Debug, PartialEq, Eq, Structural)]
pub enum DiscoveryAction {
    /// Nothing was found: look again in 3 seconds.
    RetrySoon,
    /// The first endpoint: connect to it, and look again in 10 seconds.
    Connect(Endpoint),
    /// The same endpoint again: look again in 10 seconds.
    Keep,
    /// The endpoint changed: the board resets to connect afresh.
    Reset,
}

/// The discovery of the area controller: the endpoint connected to.
pub struct Discovery {
    pub existing: Option<Endpoint>,
}

impl Discovery {
    /// Nothing found yet.
    pub fn new() -> (r: Self)
        ensures
            r.existing is None,
    {
        Discovery { existing: None }
    }

    /// Takes what a round of discovery found.
    pub fn observe(&mut self, found: Option<Endpoint>) -> (r: DiscoveryAction)
        ensures
            match found {
                None => r == DiscoveryAction::RetrySoon && final(self).existing
                    == old(self).existing,
                Some(e) => match old(self).existing {
                    None => r == DiscoveryAction::Connect(e) && final(self).existing == Some(e),
                    Some(x) => final(self).existing == old(self).existing && r == if x == e {
                        DiscoveryAction::Keep
                    } else {
                        DiscoveryAction::Reset
                    },
                },
            },
    {
        match found {
            None => DiscoveryAction::RetrySoon,
            Some(e) => match self.existing {
                None => {
                    self.existing = Some(e);
                    DiscoveryAction::Connect(e)
                },
                Some(x) => if x == e {
                    DiscoveryAction::Keep
                } else {
                    DiscoveryAction::Reset
                },
            },
        }
    }
}

/// An error of the store's client while synchronising a variable.
#[derive(Clone, Copy, Debug, PartialEq, Eq, Structural)]
pub enum StoreError {
    ProtocolError,
    ReadExact,
    Tcp,
    UnexpectedResponse,
    TooLong,
}

/// Whether an error while synchronising a variable resets the board: a
/// broken connection does; an unexpected reply or an oversized value only
/// skips the variable.
pub fn store_error_resets(e: StoreError) -> (r: bool)
    ensures
        r == !(e == StoreError::UnexpectedResponse || e == StoreError::TooLong),
{
    match e {
        StoreError::ProtocolError | StoreError::ReadExact | StoreError::Tcp => true,
        StoreError::UnexpectedResponse | StoreError::TooLong => false,
    }
}

} // verus!
