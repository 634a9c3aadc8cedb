//! The board's main sequence: report a failed last boot and halt, or start
//! up, wait for the configuration, check the power supply, and then run pull
//! requests one after the other. Each step takes the sequence's state and what
//! happened, and gives the next state, the messages to send to the other
//! services, and what to wait for next.

use vstd::prelude::*;
use crate::blinken::Cmd as BlinkenCmd;
use crate::config::Wol;
use crate::leds::{LedCmd, Rgb};
use crate::oled::{Scene, State as OledState};
use crate::power::{LastBootFailure, PsuCmd, VbusCmd};
use crate::services::{
    failure_color, good_color, spec_failure_color, spec_good_color, spec_waiting_color,
    spec_wol_delay_secs, usb_selector_high, vbus_requirement_met, waiting_color, wol_delay_secs,
    State as LightsState, WolCmd,
};
use crate::vars::UsbIface;

verus! {

/// The text of a status line.
#[derive(Clone, Copy, Debug, PartialEq, Eq)]
pub enum StatusText {
    Text(&'static str),
    /// The board's unique identifier.
    UniqueId,
    /// The name of a boot failure.
    BootFailure(LastBootFailure),
}

/// A line of the status screen, in bold or normal type.
#[derive(Clone, Copy, Debug, PartialEq, Eq)]
pub struct StatusLine {
    pub bold: bool,
    pub text: StatusText,
}

/// The status screen: up to four lines, top to bottom.
#[derive(Clone, Copy, Debug, PartialEq, Eq)]
pub struct StatusScreen {
    pub line1: Option<StatusLine>,
    pub line2: Option<StatusLine>,
    pub line3: Option<StatusLine>,
    pub line4: Option<StatusLine>,
}

/// A message the main sequence sends.
#[derive(Clone, Copy, Debug, PartialEq, Eq)]
pub enum MainMsg {
    Blinken(BlinkenCmd),
    /// Shows an error on the debug LEDs. The LED service's commands in this
    /// source define no such pattern; the message stands for it.
    BlinkenError,
    Leds(LedCmd),
    OledPower(OledState),
    OledScene(Scene),
    OledStatus(StatusScreen),
    Lights(LightsState),
    Vbus(VbusCmd),
    Psu(PsuCmd),
    Wol(WolCmd),
    /// Drives the USB output selector: high routes USB to the port.
    UsbSelectorHigh(bool),
    /// Clears the pull request variables: not running, no title, no author,
    /// number 0.
    ResetPrVars,
}

/// Where the main sequence stands.
#[derive(Clone, Copy, Debug, PartialEq, Eq, Structural)]
pub enum MainPhase {
    /// Not started.
    Start,
    /// Stopped for good: the board must be reset.
    Halted,
    /// Showing the logo while the lights test themselves.
    SelfTest,
    WaitingForConfig,
    WaitingForPr,
    /// A pull request run was announced; the display is powered next.
    PrAnnounced,
    /// The display is on; the run is started next.
    PrPowered,
    /// The run is under way.
    PrRunning,
}

/// The configuration the sequence reads once the board is configured.
#[derive(Clone, Copy, Debug, PartialEq, Eq, Structural)]
pub struct MainConfig {
    pub usb_iface: UsbIface,
    pub require_4a_vbus: bool,
    pub wol: Wol,
}

/// What happened.
#[derive(Clone, Copy, Debug, PartialEq, Eq, Structural)]
pub enum MainEvent {
    /// The board has booted.
    Start,
    /// The wait asked for has passed.
    Elapsed,
    /// The board was configured.
    Configured(MainConfig),
    /// A pull request run was asked for.
    PrRun,
}

/// What the sequence waits for next.
#[derive(Clone, Copy, Debug, PartialEq, Eq, Structural)]
pub enum MainWait {
    /// Nothing more: the sequence is halted.
    Forever,
    Millis(u64),
    /// The board to be configured.
    Configured,
    /// A pull request run to be asked for.
    PrRun,
    /// Whatever it waited for before: the event changed nothing.
    Unchanged,
}

/// The main sequence's state: its phase, whether an auxiliary 4A VBUS line is
/// sensed, how the last boot ended, and the Wake-on-LAN setting once
/// configured.
#[derive(Clone, Copy, Debug, PartialEq, Eq, Structural)]
pub struct MainState {
    pub phase: MainPhase,
    pub aux_vbus_sense: bool,
    pub last_boot_failure: LastBootFailure,
    pub wol: Wol,
}

/// A line of bold text.
pub open spec fn bold(text: &'static str) -> Option<StatusLine> {
    Some(StatusLine { bold: true, text: StatusText::Text(text) })
}

/// A line of normal text.
pub open spec fn normal(text: StatusText) -> Option<StatusLine> {
    Some(StatusLine { bold: false, text })
}

/// The critical failure screen.
pub open spec fn spec_failure_screen(f: LastBootFailure) -> StatusScreen {
    StatusScreen {
        line1: bold("!!  CRITICAL FAILURE  !!"),
        line2: normal(StatusText::BootFailure(f)),
        line3: normal(StatusText::Text("")),
        line4: normal(StatusText::Text("(board must be manually reset)")),
    }
}

/// A two-line screen, shown on the middle lines.
pub open spec fn spec_two_lines(first: &'static str, second: StatusText) -> StatusScreen {
    StatusScreen { line1: None, line2: bold(first), line3: normal(second), line4: None }
}

/// The screen asking for a 4A supply.
pub open spec fn spec_supply_screen() -> StatusScreen {
    StatusScreen {
        line1: bold("4A VBUS line required"),
        line2: normal(StatusText::Text("Connect a 4A-equipped power supply")),
        line3: normal(StatusText::Text("and reboot the Link")),
        line4: None,
    }
}

/// The Wake-on-LAN command for a setting.
pub open spec fn spec_wol_cmd(wol: Wol) -> WolCmd {
    match spec_wol_delay_secs(wol) {
        None => WolCmd::Off,
        Some(d) => WolCmd::AfterSecs(d),
    }
}

/// The messages that start each round of waiting for a pull request.
pub open spec fn spec_round_start(wol: Wol) -> Seq<MainMsg> {
    seq![
        MainMsg::ResetPrVars,
        MainMsg::OledScene(Scene::Logo),
        MainMsg::OledPower(OledState::Idle),
        MainMsg::Lights(LightsState::Off),
        MainMsg::Blinken(BlinkenCmd::Idle),
        MainMsg::Vbus(VbusCmd::Off),
        MainMsg::Psu(PsuCmd::Off),
        MainMsg::Wol(spec_wol_cmd(wol)),
    ]
}

/// The step of the main sequence: the next state, the messages to send, in
/// order, and what to wait for. An event that the phase does not wait for
/// changes nothing.
pub open spec fn spec_main_step(s: MainState, e: MainEvent) -> (MainState, Seq<MainMsg>, MainWait) {
    match (s.phase, e) {
        (MainPhase::Start, MainEvent::Start) => if s.last_boot_failure != LastBootFailure::NoFailure {
            (
                MainState { phase: MainPhase::Halted, ..s },
                seq![
                    MainMsg::BlinkenError,
                    MainMsg::Leds(LedCmd::SetSystemIndicator(spec_failure_color())),
                    MainMsg::OledPower(OledState::On),
                    MainMsg::OledStatus(spec_failure_screen(s.last_boot_failure)),
                ],
                MainWait::Forever,
            )
        } else {
            (
                MainState { phase: MainPhase::SelfTest, ..s },
                seq![
                    MainMsg::Blinken(BlinkenCmd::Config),
                    MainMsg::OledPower(OledState::On),
                    MainMsg::OledScene(Scene::Logo),
                    MainMsg::Leds(LedCmd::SelfTest),
                ],
                MainWait::Millis(5000),
            )
        },
        (MainPhase::SelfTest, MainEvent::Elapsed) => (
            MainState { phase: MainPhase::WaitingForConfig, ..s },
            seq![
                MainMsg::Leds(LedCmd::AllOff),
                MainMsg::Leds(LedCmd::SetSystemIndicator(spec_waiting_color())),
                MainMsg::Leds(LedCmd::SetRemoteIndicator(spec_waiting_color())),
                MainMsg::OledStatus(spec_two_lines("Waiting for config...", StatusText::UniqueId)),
            ],
            MainWait::Configured,
        ),
        (MainPhase::WaitingForConfig, MainEvent::Configured(c)) => {
            let configuring = seq![
                MainMsg::Leds(LedCmd::SetRemoteIndicator(spec_good_color())),
                MainMsg::OledStatus(spec_two_lines("Configuring...", StatusText::UniqueId)),
                MainMsg::UsbSelectorHigh(c.usb_iface == UsbIface::Port),
            ];
            if c.require_4a_vbus && !s.aux_vbus_sense {
                (
                    MainState { phase: MainPhase::Halted, wol: c.wol, ..s },
                    configuring + seq![
                        MainMsg::Leds(LedCmd::SetSystemIndicator(spec_failure_color())),
                        MainMsg::OledStatus(spec_supply_screen()),
                        MainMsg::BlinkenError,
                    ],
                    MainWait::Forever,
                )
            } else {
                (
                    MainState { phase: MainPhase::WaitingForPr, wol: c.wol, ..s },
                    configuring + seq![
                        MainMsg::Leds(LedCmd::SetSystemIndicator(spec_good_color())),
                        MainMsg::Blinken(BlinkenCmd::Idle),
                    ] + spec_round_start(c.wol),
                    MainWait::PrRun,
                )
            }
        },
        (MainPhase::WaitingForPr, MainEvent::PrRun) => (
            MainState { phase: MainPhase::PrAnnounced, ..s },
            seq![
                MainMsg::Wol(WolCmd::Off),
                MainMsg::Lights(LightsState::PrPending),
                MainMsg::OledStatus(
                    spec_two_lines("PR started; fetching configuration", StatusText::Text("")),
                ),
            ],
            MainWait::Millis(10),
        ),
        (MainPhase::PrAnnounced, MainEvent::Elapsed) => (
            MainState { phase: MainPhase::PrPowered, ..s },
            seq![MainMsg::OledPower(OledState::On)],
            MainWait::Millis(10),
        ),
        (MainPhase::PrPowered, MainEvent::Elapsed) => (
            MainState { phase: MainPhase::PrRunning, ..s },
            seq![
                MainMsg::Blinken(BlinkenCmd::On),
                MainMsg::Leds(LedCmd::SetJobIndicator(spec_waiting_color())),
                MainMsg::OledStatus(
                    spec_two_lines("PR started; fetching image", StatusText::Text("connecting...")),
                ),
                MainMsg::Vbus(VbusCmd::On),
            ],
            MainWait::Millis(30_000),
        ),
        (MainPhase::PrRunning, MainEvent::Elapsed) => (
            MainState { phase: MainPhase::WaitingForPr, ..s },
            spec_round_start(s.wol),
            MainWait::PrRun,
        ),
        _ => (s, Seq::empty(), MainWait::Unchanged),
    }
}

/// The main sequence before it starts, on a board whose auxiliary VBUS line
/// is or is not sensed and whose last boot ended as given.
pub fn main_start(aux_vbus_sense: bool, last_boot_failure: LastBootFailure) -> (r: MainState)
    ensures
        r == (MainState { phase: MainPhase::Start, aux_vbus_sense, last_boot_failure, wol: Wol::Off }),
{
    MainState { phase: MainPhase::Start, aux_vbus_sense, last_boot_failure, wol: Wol::Off }
}

fn round_start(out: &mut Vec<MainMsg>, wol: Wol)
    ensures
        final(out)@ == old(out)@ + spec_round_start(wol),
{
    let wol_cmd = match wol_delay_secs(wol) {
        None => WolCmd::Off,
        Some(d) => WolCmd::AfterSecs(d),
    };
    out.push(MainMsg::ResetPrVars);
    out.push(MainMsg::OledScene(Scene::Logo));
    out.push(MainMsg::OledPower(OledState::Idle));
    out.push(MainMsg::Lights(LightsState::Off));
    out.push(MainMsg::Blinken(BlinkenCmd::Idle));
    out.push(MainMsg::Vbus(VbusCmd::Off));
    out.push(MainMsg::Psu(PsuCmd::Off));
    out.push(MainMsg::Wol(wol_cmd));
    assert(final(out)@ =~= old(out)@ + spec_round_start(wol));
}

fn line(bold: bool, text: StatusText) -> (r: Option<StatusLine>)
    ensures
        r == Some(StatusLine { bold, text }),
{
    Some(StatusLine { bold, text })
}

fn two_lines(first: &'static str, second: StatusText) -> (r: StatusScreen)
    ensures
        r == spec_two_lines(first, second),
{
    StatusScreen {
        line1: None,
        line2: line(true, StatusText::Text(first)),
        line3: line(false, second),
        line4: None,
    }
}

/// One step of the main sequence; see [`spec_main_step`].
pub fn main_step(s: MainState, e: MainEvent) -> (r: (MainState, Vec<MainMsg>, MainWait))
    ensures
        (r.0, r.1@, r.2) == spec_main_step(s, e),
{
    let mut out: Vec<MainMsg> = Vec::new();
    match (s.phase, e) {
        (MainPhase::Start, MainEvent::Start) => {
            if s.last_boot_failure != LastBootFailure::NoFailure {
                out.push(MainMsg::BlinkenError);
                out.push(MainMsg::Leds(LedCmd::SetSystemIndicator(failure_color())));
                out.push(MainMsg::OledPower(OledState::On));
                out.push(MainMsg::OledStatus(StatusScreen {
                    line1: line(true, StatusText::Text("!!  CRITICAL FAILURE  !!")),
                    line2: line(false, StatusText::BootFailure(s.last_boot_failure)),
                    line3: line(false, StatusText::Text("")),
                    line4: line(false, StatusText::Text("(board must be manually reset)")),
                }));
                assert(out@ =~= spec_main_step(s, e).1);
                (MainState { phase: MainPhase::Halted, ..s }, out, MainWait::Forever)
            } else {
                out.push(MainMsg::Blinken(BlinkenCmd::Config));
                out.push(MainMsg::OledPower(OledState::On));
                out.push(MainMsg::OledScene(Scene::Logo));
                out.push(MainMsg::Leds(LedCmd::SelfTest));
                assert(out@ =~= spec_main_step(s, e).1);
                (MainState { phase: MainPhase::SelfTest, ..s }, out, MainWait::Millis(5000))
            }
        },
        (MainPhase::SelfTest, MainEvent::Elapsed) => {
            out.push(MainMsg::Leds(LedCmd::AllOff));
            out.push(MainMsg::Leds(LedCmd::SetSystemIndicator(waiting_color())));
            out.push(MainMsg::Leds(LedCmd::SetRemoteIndicator(waiting_color())));
            out.push(MainMsg::OledStatus(two_lines("Waiting for config...", StatusText::UniqueId)));
            assert(out@ =~= spec_main_step(s, e).1);
            (MainState { phase: MainPhase::WaitingForConfig, ..s }, out, MainWait::Configured)
        },
        (MainPhase::WaitingForConfig, MainEvent::Configured(c)) => {
            out.push(MainMsg::Leds(LedCmd::SetRemoteIndicator(good_color())));
            out.push(MainMsg::OledStatus(two_lines("Configuring...", StatusText::UniqueId)));
            out.push(MainMsg::UsbSelectorHigh(usb_selector_high(c.usb_iface)));
            if !vbus_requirement_met(c.require_4a_vbus, s.aux_vbus_sense) {
                out.push(MainMsg::Leds(LedCmd::SetSystemIndicator(failure_color())));
                out.push(MainMsg::OledStatus(StatusScreen {
                    line1: line(true, StatusText::Text("4A VBUS line required")),
                    line2: line(false, StatusText::Text("Connect a 4A-equipped power supply")),
                    line3: line(false, StatusText::Text("and reboot the Link")),
                    line4: None,
                }));
                out.push(MainMsg::BlinkenError);
                assert(out@ =~= spec_main_step(s, e).1);
                (MainState { phase: MainPhase::Halted, wol: c.wol, ..s }, out, MainWait::Forever)
            } else {
                out.push(MainMsg::Leds(LedCmd::SetSystemIndicator(good_color())));
                out.push(MainMsg::Blinken(BlinkenCmd::Idle));
                round_start(&mut out, c.wol);
                assert(out@ =~= spec_main_step(s, e).1);
                (MainState { phase: MainPhase::WaitingForPr, wol: c.wol, ..s }, out, MainWait::PrRun)
            }
        },
        (MainPhase::WaitingForPr, MainEvent::PrRun) => {
            out.push(MainMsg::Wol(WolCmd::Off));
            out.push(MainMsg::Lights(LightsState::PrPending));
            out.push(
                MainMsg::OledStatus(
                    two_lines("PR started; fetching configuration", StatusText::Text("")),
                ),
            );
            assert(out@ =~= spec_main_step(s, e).1);
            (MainState { phase: MainPhase::PrAnnounced, ..s }, out, MainWait::Millis(10))
        },
        (MainPhase::PrAnnounced, MainEvent::Elapsed) => {
            out.push(MainMsg::OledPower(OledState::On));
            assert(out@ =~= spec_main_step(s, e).1);
            (MainState { phase: MainPhase::PrPowered, ..s }, out, MainWait::Millis(10))
        },
        (MainPhase::PrPowered, MainEvent::Elapsed) => {
            out.push(MainMsg::Blinken(BlinkenCmd::On));
            out.push(MainMsg::Leds(LedCmd::SetJobIndicator(waiting_color())));
            out.push(
                MainMsg::OledStatus(
                    two_lines("PR started; fetching image", StatusText::Text("connecting...")),
                ),
            );
            out.push(MainMsg::Vbus(VbusCmd::On));
            assert(out@ =~= spec_main_step(s, e).1);
            (MainState { phase: MainPhase::PrRunning, ..s }, out, MainWait::Millis(30_000))
        },
        (MainPhase::PrRunning, MainEvent::Elapsed) => {
            round_start(&mut out, s.wol);
            assert(out@ =~= spec_main_step(s, e).1);
            (MainState { phase: MainPhase::WaitingForPr, ..s }, out, MainWait::PrRun)
        },
        _ => {
            assert(out@ =~= spec_main_step(s, e).1);
            (s, out, MainWait::Unchanged)
        },
    }
}

} // verus!
