//! The power of the system under test: the VBUS line, which falls back to the
//! auxiliary line on over-current, and the failures that reset the board.

use vstd::prelude::*;

verus! {

/// The time given to the auxiliary line to stabilise before the main line is
/// switched off, in milliseconds.
pub const AUX_VBUS_SWITCH_TIME_MS: u64 = 50;
/// The time given to the main line after it is switched on, in milliseconds.
pub const VBUS_SETTLE_TIME_MS: u64 = 10;

/// Why the last boot failed, as kept across the reset.
#[derive(Clone, Copy, Debug, PartialEq, Eq, Structural)]
pub enum LastBootFailure {
    /// The last boot did not fail.
    NoFailure,
    /// Over-current on VBUS, with no auxiliary line to fall back to.
    VbusOC,
    /// Over-current on the board's own supply.
    PowerMonitorOC,
    /// Over-current on the auxiliary VBUS line.
    AuxVbusOC,
    /// Over-current on the SD card's supply.
    SdOC,
}

/// A failsafe: an over-current alert that resets the board.
#[derive(Clone, Copy, Debug, PartialEq, Eq, Structural)]
pub enum Failsafe {
    BoardPower,
    AuxVbus,
    SdCard,
}

/// The failure a failsafe records before it resets the board.
pub fn failsafe_failure(f: Failsafe) -> (r: LastBootFailure)
    ensures
        r == match f {
            Failsafe::BoardPower => LastBootFailure::PowerMonitorOC,
            Failsafe::AuxVbus => LastBootFailure::AuxVbusOC,
            Failsafe::SdCard => LastBootFailure::SdOC,
        },
{
    match f {
        Failsafe::BoardPower => LastBootFailure::PowerMonitorOC,
        Failsafe::AuxVbus => LastBootFailure::AuxVbusOC,
        Failsafe::SdCard => LastBootFailure::SdOC,
    }
}

/// A command to the VBUS service.
#[derive(Clone, Copy, Debug, PartialEq, Eq, Structural)]
pub enum VbusCmd {
    Off,
    On,
}

/// Which line powers VBUS.
#[derive(Clone, Copy, Debug, PartialEq, Eq, Structural)]
pub enum State {
    Off,
    Vbus,
    AuxVbus,
}

impl State {
    /// The published name.
    pub open spec fn spec_name(self) -> Seq<char> {
        match self {
            State::Off => "off"@,
            State::Vbus => "vbus"@,
            State::AuxVbus => "aux_vbus"@,
        }
    }

    /// The published name.
    pub fn name(self) -> (r: &'static str)
        ensures
            r@ == self.spec_name(),
    {
        match self {
            State::Off => "off",
            State::Vbus => "vbus",
            State::AuxVbus => "aux_vbus",
        }
    }
}

/// What the VBUS service does, in order.
#[derive(Clone, Copy, Debug, PartialEq, Eq, Structural)]
pub enum VbusAction {
    /// Drives the main line's enable (active high).
    MainEnable(bool),
    /// Drives the auxiliary line's enable (active low).
    AuxEnableLow(bool),
    /// Publishes the state.
    Publish(State),
    DelayMs(u64),
    /// Waits for the main line's over-current signal.
    WatchOvercurrent,
    /// Records the failure and resets the board.
    FailAndReset(LastBootFailure),
}

/// The VBUS service: the last command, and whether an auxiliary line is
/// present.
pub struct VbusPower {
    pub cmd: VbusCmd,
    pub aux_vbus_sense: bool,
}

/// The reset every command starts with: both lines off.
pub open spec fn spec_vbus_reset() -> Seq<VbusAction> {
    seq![VbusAction::MainEnable(false), VbusAction::AuxEnableLow(false)]
}

impl VbusPower {
    /// The service at start: off.
    pub fn new(aux_vbus_sense: bool) -> (r: Self)
        ensures
            r.cmd == VbusCmd::Off,
            r.aux_vbus_sense == aux_vbus_sense,
    {
        VbusPower { cmd: VbusCmd::Off, aux_vbus_sense }
    }

    /// Whether a command is acted on: one equal to the last is ignored.
    pub fn accepts(&self, cmd: VbusCmd) -> (r: bool)
        ensures
            r == (cmd != self.cmd),
    {
        cmd != self.cmd
    }

    /// Acts on a command: both lines off, then either publish `off`, or
    /// switch the main line on and watch it.
    pub fn command(&mut self, cmd: VbusCmd) -> (r: Vec<VbusAction>)
        ensures
            final(self).cmd == cmd,
            final(self).aux_vbus_sense == old(self).aux_vbus_sense,
            r@ == spec_vbus_reset() + match cmd {
                VbusCmd::Off => seq![VbusAction::Publish(State::Off)],
                VbusCmd::On => seq![
                    VbusAction::Publish(State::Vbus),
                    VbusAction::MainEnable(true),
                    VbusAction::DelayMs(VBUS_SETTLE_TIME_MS),
                    VbusAction::WatchOvercurrent,
                ],
            },
    {
        self.cmd = cmd;
        let mut r: Vec<VbusAction> = Vec::new();
        r.push(VbusAction::MainEnable(false));
        r.push(VbusAction::AuxEnableLow(false));
        match cmd {
            VbusCmd::Off => {
                r.push(VbusAction::Publish(State::Off));
            },
            VbusCmd::On => {
                r.push(VbusAction::Publish(State::Vbus));
                r.push(VbusAction::MainEnable(true));
                r.push(VbusAction::DelayMs(VBUS_SETTLE_TIME_MS));
                r.push(VbusAction::WatchOvercurrent);
            },
        }
        assert(r@ =~= spec_vbus_reset() + match cmd {
            VbusCmd::Off => seq![VbusAction::Publish(State::Off)],
            VbusCmd::On => seq![
                VbusAction::Publish(State::Vbus),
                VbusAction::MainEnable(true),
                VbusAction::DelayMs(VBUS_SETTLE_TIME_MS),
                VbusAction::WatchOvercurrent,
            ],
        });
        r
    }

    /// The main line signalled over-current: without an auxiliary line the
    /// board records the failure and resets; with one, the auxiliary line is
    /// switched on first and the main line off after it settled.
    pub fn overcurrent(&self) -> (r: Vec<VbusAction>)
        requires
            self.cmd == VbusCmd::On,
        ensures
            r@ == if !self.aux_vbus_sense {
                seq![
                    VbusAction::MainEnable(false),
                    VbusAction::FailAndReset(LastBootFailure::VbusOC),
                ]
            } else {
                seq![
                    VbusAction::AuxEnableLow(true),
                    VbusAction::Publish(State::AuxVbus),
                    VbusAction::DelayMs(AUX_VBUS_SWITCH_TIME_MS),
                    VbusAction::MainEnable(false),
                ]
            },
    {
        let mut r: Vec<VbusAction> = Vec::new();
        if !self.aux_vbus_sense {
            r.push(VbusAction::MainEnable(false));
            r.push(VbusAction::FailAndReset(LastBootFailure::VbusOC));
        } else {
            r.push(VbusAction::AuxEnableLow(true));
            r.push(VbusAction::Publish(State::AuxVbus));
            r.push(VbusAction::DelayMs(AUX_VBUS_SWITCH_TIME_MS));
            r.push(VbusAction::MainEnable(false));
        }
        r
    }
}

/// A command to the system under test's power supply.
#[derive(Clone, Copy, Debug, PartialEq, Eq, Structural)]
pub enum PsuCmd {
    On,
    Off,
}

/// The level of the supply's enable line, which is also the published state.
pub fn psu_level(cmd: PsuCmd) -> (r: bool)
    ensures
        r == (cmd == PsuCmd::On),
{
    match cmd {
        PsuCmd::On => true,
        PsuCmd::Off => false,
    }
}

} // verus!
