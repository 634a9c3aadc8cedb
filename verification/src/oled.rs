//! The OLED display: the SSD1362 controller's command sequences, the driver's
//! power-up and power-down sequences, the power states with their idle
//! cool-down, and the drawing of the animated logo.

use vstd::prelude::*;

verus! {

/// The SSD1362 command that sets the contrast.
pub const CMD_SET_CONTRAST: u8 = 0x81;
/// The SSD1362 command that turns the display on.
pub const CMD_DISPLAY_ON: u8 = 0xAF;
/// The SSD1362 command that turns the display off.
pub const CMD_DISPLAY_OFF: u8 = 0xAE;

/// The display's width, in pixels.
pub const DISPLAY_WIDTH: u64 = 256;

/// The perceptual brightness curve: the contrast for each of 64 steps.
pub open spec fn spec_brightness_curve() -> Seq<u8> {
    seq![
        0u8, 1, 1, 1, 1, 1, 1, 1, 1, 1, 2, 2, 2, 3, 3, 4, 4, 5, 5, 6, 6, 7, 8, 8, 9, 10, 11, 12, 12,
        13, 14, 15, 16, 17, 18, 19, 21, 22, 23, 24, 25, 27, 28, 29, 31, 32, 34, 35, 37, 38, 40, 41,
        43, 45, 46, 48, 50, 52, 53, 55, 57, 59, 61, 63,
    ]
}

/// The contrast for a brightness from 0 to 255: the curve's step
/// `brightness * 63 / 255`.
pub open spec fn spec_curved_contrast(brightness: u8) -> u8 {
    spec_brightness_curve()[brightness * 63 / 255]
}

/// The contrast for a brightness; see [`spec_curved_contrast`].
pub fn curved_contrast(brightness: u8) -> (r: u8)
    ensures
        r == spec_curved_contrast(brightness),
{
    let curve: [u8; 64] = [
        0, 1, 1, 1, 1, 1, 1, 1, 1, 1, 2, 2, 2, 3, 3, 4, 4, 5, 5, 6, 6, 7, 8, 8, 9, 10, 11, 12, 12,
        13, 14, 15, 16, 17, 18, 19, 21, 22, 23, 24, 25, 27, 28, 29, 31, 32, 34, 35, 37, 38, 40, 41,
        43, 45, 46, 48, 50, 52, 53, 55, 57, 59, 61, 63,
    ];
    assert(curve@ =~= spec_brightness_curve());
    let index = (brightness as u16) * 63 / 255;
    assert(index <= 63) by (nonlinear_arith)
        requires
            index == (brightness as u16) * 63 / 255,
            brightness <= 255,
    ;
    curve[index as usize]
}

/// The square-law step of the contrast curve: the whole number nearest to
/// `i * i / 63`, and at least 1 past the first step.
pub open spec fn spec_square_step(i: int) -> int {
    if i == 0 {
        0
    } else if (i * i + 31) / 63 < 1 {
        1
    } else {
        (i * i + 31) / 63
    }
}

proof fn lemma_square_step_monotone(i: int, j: int)
    requires
        0 <= i <= j,
    ensures
        spec_square_step(i) <= spec_square_step(j),
{
    assert(i * i <= j * j) by (nonlinear_arith)
        requires
            0 <= i <= j,
    ;
    assert((i * i + 31) / 63 <= (j * j + 31) / 63) by (nonlinear_arith)
        requires
            i * i <= j * j,
    ;
}

proof fn lemma_curve_is_square_law()
    ensures
        forall|i: int| 0 <= i < 64 ==> #[trigger] spec_brightness_curve()[i] == spec_square_step(i),
{
    let c = spec_brightness_curve();
    assert(c[0] == spec_square_step(0));
    assert(c[1] == spec_square_step(1));
    assert(c[2] == spec_square_step(2));
    assert(c[3] == spec_square_step(3));
    assert(c[4] == spec_square_step(4));
    assert(c[5] == spec_square_step(5));
    assert(c[6] == spec_square_step(6));
    assert(c[7] == spec_square_step(7));
    assert(c[8] == spec_square_step(8));
    assert(c[9] == spec_square_step(9));
    assert(c[10] == spec_square_step(10));
    assert(c[11] == spec_square_step(11));
    assert(c[12] == spec_square_step(12));
    assert(c[13] == spec_square_step(13));
    assert(c[14] == spec_square_step(14));
    assert(c[15] == spec_square_step(15));
    assert(c[16] == spec_square_step(16));
    assert(c[17] == spec_square_step(17));
    assert(c[18] == spec_square_step(18));
    assert(c[19] == spec_square_step(19));
    assert(c[20] == spec_square_step(20));
    assert(c[21] == spec_square_step(21));
    assert(c[22] == spec_square_step(22));
    assert(c[23] == spec_square_step(23));
    assert(c[24] == spec_square_step(24));
    assert(c[25] == spec_square_step(25));
    assert(c[26] == spec_square_step(26));
    assert(c[27] == spec_square_step(27));
    assert(c[28] == spec_square_step(28));
    assert(c[29] == spec_square_step(29));
    assert(c[30] == spec_square_step(30));
    assert(c[31] == spec_square_step(31));
    assert(c[32] == spec_square_step(32));
    assert(c[33] == spec_square_step(33));
    assert(c[34] == spec_square_step(34));
    assert(c[35] == spec_square_step(35));
    assert(c[36] == spec_square_step(36));
    assert(c[37] == spec_square_step(37));
    assert(c[38] == spec_square_step(38));
    assert(c[39] == spec_square_step(39));
    assert(c[40] == spec_square_step(40));
    assert(c[41] == spec_square_step(41));
    assert(c[42] == spec_square_step(42));
    assert(c[43] == spec_square_step(43));
    assert(c[44] == spec_square_step(44));
    assert(c[45] == spec_square_step(45));
    assert(c[46] == spec_square_step(46));
    assert(c[47] == spec_square_step(47));
    assert(c[48] == spec_square_step(48));
    assert(c[49] == spec_square_step(49));
    assert(c[50] == spec_square_step(50));
    assert(c[51] == spec_square_step(51));
    assert(c[52] == spec_square_step(52));
    assert(c[53] == spec_square_step(53));
    assert(c[54] == spec_square_step(54));
    assert(c[55] == spec_square_step(55));
    assert(c[56] == spec_square_step(56));
    assert(c[57] == spec_square_step(57));
    assert(c[58] == spec_square_step(58));
    assert(c[59] == spec_square_step(59));
    assert(c[60] == spec_square_step(60));
    assert(c[61] == spec_square_step(61));
    assert(c[62] == spec_square_step(62));
    assert(c[63] == spec_square_step(63));
    assert forall|i: int| 0 <= i < 64 implies #[trigger] spec_brightness_curve()[i]
        == spec_square_step(i) by {
        assert(
            i == 0 || i == 1 || i == 2 || i == 3 || i == 4 || i == 5 || i == 6 || i == 7
                || i == 8 || i == 9 || i == 10 || i == 11 || i == 12 || i == 13 || i == 14 || i == 15
                || i == 16 || i == 17 || i == 18 || i == 19 || i == 20 || i == 21 || i == 22 || i == 23
                || i == 24 || i == 25 || i == 26 || i == 27 || i == 28 || i == 29 || i == 30 || i == 31
                || i == 32 || i == 33 || i == 34 || i == 35 || i == 36 || i == 37 || i == 38 || i == 39
                || i == 40 || i == 41 || i == 42 || i == 43 || i == 44 || i == 45 || i == 46 || i == 47
                || i == 48 || i == 49 || i == 50 || i == 51 || i == 52 || i == 53 || i == 54 || i == 55
                || i == 56 || i == 57 || i == 58 || i == 59 || i == 60 || i == 61 || i == 62 || i == 63
        );
    }
}

/// The contrast for a brightness follows a square law of the brightness,
/// scaled to 64 steps: step `brightness * 63 / 255` of the curve is the whole
/// number nearest to its square over 63 (at least 1 past the first). So it
/// never falls as the brightness rises, runs from 0 at brightness 0 to 63 at
/// full brightness, and is 40 at step 50.
pub proof fn lemma_contrast_curve(b1: u8, b2: u8)
    ensures
        spec_curved_contrast(b1) == spec_square_step(b1 * 63 / 255),
        b1 <= b2 ==> spec_curved_contrast(b1) <= spec_curved_contrast(b2),
        spec_curved_contrast(0) == 0,
        spec_curved_contrast(255) == 63,
        spec_brightness_curve()[50] == 40,
{
    lemma_curve_is_square_law();
    let i1 = b1 * 63 / 255;
    let i2 = b2 * 63 / 255;
    assert(0 <= i1 < 64) by (nonlinear_arith)
        requires
            i1 == b1 * 63 / 255,
            0 <= b1 <= 255,
    ;
    assert(0 <= i2 < 64) by (nonlinear_arith)
        requires
            i2 == b2 * 63 / 255,
            0 <= b2 <= 255,
    ;
    if b1 <= b2 {
        assert(i1 <= i2) by (nonlinear_arith)
            requires
                i1 == b1 * 63 / 255,
                i2 == b2 * 63 / 255,
                b1 <= b2,
        ;
        lemma_square_step_monotone(i1, i2);
    }
    assert(spec_brightness_curve()[0] == spec_square_step(0));
    assert(spec_brightness_curve()[63] == spec_square_step(63));
    assert(spec_brightness_curve()[50] == spec_square_step(50));
}

/// The commands that set the contrast for a brightness.
pub fn contrast_commands(brightness: u8) -> (r: [u8; 2])
    ensures
        r@ == seq![CMD_SET_CONTRAST, spec_curved_contrast(brightness)],
{
    let r = [CMD_SET_CONTRAST, curved_contrast(brightness)];
    assert(r@ =~= seq![CMD_SET_CONTRAST, spec_curved_contrast(brightness)]);
    r
}

/// The remap and data format byte: flipped, or not.
pub open spec fn spec_remap(flip: bool) -> u8 {
    if flip {
        0b01010010
    } else {
        0b11000011
    }
}

/// The initialisation sequence: unlock, display off, the full column and row
/// range, full contrast, the remap, start line and offset 0, normal mode,
/// 1/64 duty, the internal regulator and reference, the timings and
/// voltages, and display on.
pub open spec fn spec_init_commands(flip: bool) -> Seq<u8> {
    seq![
        0xFDu8, 0x12, 0xAE, 0x15, 0x00, 0x7F, 0x75, 0x00, 0x3F, 0x81, 0xFF, 0xA0, spec_remap(flip),
        0xA1, 0x00, 0xA2, 0x00, 0xA4, 0xA8, 0x3F, 0xAB, 0x01, 0xAD, 0x8E, 0xB1, 0x22, 0xB3, 0xF0,
        0xB6, 0x04, 0xB9, 0xBC, 0x10, 0xBD, 0x01, 0xBE, 0x07, 0xAF,
    ]
}

/// The initialisation sequence; see [`spec_init_commands`].
pub fn init_commands(flip: bool) -> (r: [u8; 38])
    ensures
        r@ == spec_init_commands(flip),
{
    let remap: u8 = if flip {
        0b01010010
    } else {
        0b11000011
    };
    let r: [u8; 38] = [
        0xFD, 0x12, 0xAE, 0x15, 0x00, 0x7F, 0x75, 0x00, 0x3F, 0x81, 0xFF, 0xA0, remap, 0xA1, 0x00,
        0xA2, 0x00, 0xA4, 0xA8, 0x3F, 0xAB, 0x01, 0xAD, 0x8E, 0xB1, 0x22, 0xB3, 0xF0, 0xB6, 0x04,
        0xB9, 0xBC, 0x10, 0xBD, 0x01, 0xBE, 0x07, 0xAF,
    ];
    assert(r@ =~= spec_init_commands(flip));
    r
}

/// The commands that set the full column range (0 to 127) and row range (0 to
/// 63), which puts the write cursor at the start.
pub open spec fn spec_reset_cursor_commands() -> Seq<u8> {
    seq![0x15u8, 0x00, 0x7F, 0x75, 0x00, 0x3F]
}

/// The cursor reset; see [`spec_reset_cursor_commands`].
pub fn reset_cursor_commands() -> (r: [u8; 6])
    ensures
        r@ == spec_reset_cursor_commands(),
{
    let r: [u8; 6] = [0x15, 0x00, 0x7F, 0x75, 0x00, 0x3F];
    assert(r@ =~= spec_reset_cursor_commands());
    r
}

/// The number of bytes of a full frame: 256 by 64 pixels of four bits.
pub const FRAME_BYTES: usize = 8192;

/// The debugging checkerboard: every other byte of a frame set.
pub open spec fn spec_checkers_frame() -> Seq<u8> {
    Seq::new(FRAME_BYTES as nat, |i: int| if i % 2 == 0 { 0xFFu8 } else { 0u8 })
}

/// The debugging checkerboard; see [`spec_checkers_frame`].
pub fn checkers_frame() -> (r: Vec<u8>)
    ensures
        r@ == spec_checkers_frame(),
{
    let mut r: Vec<u8> = Vec::new();
    let mut i: usize = 0;
    while i < FRAME_BYTES
        invariant
            i <= FRAME_BYTES,
            r@ =~= spec_checkers_frame().take(i as int),
        decreases FRAME_BYTES - i,
    {
        r.push(if i % 2 == 0 {
            0xFF
        } else {
            0
        });
        i = i + 1;
    }
    assert(spec_checkers_frame().take(FRAME_BYTES as int) =~= spec_checkers_frame());
    r
}

/// A command to the display driver.
#[derive(Clone, Copy, Debug, PartialEq, Eq, Structural)]
pub enum OledCmd {
    SetPower { enabled: bool },
    /// Sends the frame buffer to the display.
    Render,
    SetBrightness { brightness: u8 },
}

/// What the display driver does, in order.
#[derive(Clone, Copy, Debug, PartialEq, Eq, Structural)]
pub enum DriverAction {
    /// Switches the display's power regulator.
    SetVreg(bool),
    /// Drives the reset line: `false` holds the controller in reset.
    SetReset(bool),
    DelayMs(u32),
    /// Sends one command byte.
    Command(u8),
    /// Sends the frame buffer as display data.
    SendFrame,
    /// Counts a rendered frame.
    CountFrame,
}

/// The commands of `cmds`, one action each.
pub open spec fn spec_commands(cmds: Seq<u8>) -> Seq<DriverAction> {
    cmds.map_values(|c: u8| DriverAction::Command(c))
}

/// A repaint: the cursor reset, then the frame.
pub open spec fn spec_repaint() -> Seq<DriverAction> {
    spec_commands(spec_reset_cursor_commands()) + seq![DriverAction::SendFrame]
}

/// The power-up sequence: regulator on, 10ms; reset pulse of 5ms, 5ms; the
/// initialisation (flipped); and a repaint.
pub open spec fn spec_power_up() -> Seq<DriverAction> {
    seq![
        DriverAction::SetVreg(true),
        DriverAction::DelayMs(10),
        DriverAction::SetReset(false),
        DriverAction::DelayMs(5),
        DriverAction::SetReset(true),
        DriverAction::DelayMs(5),
    ] + spec_commands(spec_init_commands(true)) + spec_repaint()
}

/// The power-down sequence: regulator off, 10ms.
pub open spec fn spec_power_down() -> Seq<DriverAction> {
    seq![DriverAction::SetVreg(false), DriverAction::DelayMs(10)]
}

fn push_commands(out: &mut Vec<DriverAction>, cmds: &[u8])
    ensures
        final(out)@ == old(out)@ + spec_commands(cmds@),
{
    let ghost start = out@;
    let mut i: usize = 0;
    while i < cmds.len()
        invariant
            i <= cmds@.len(),
            out@ == start + spec_commands(cmds@.take(i as int)),
        decreases cmds@.len() - i,
    {
        out.push(DriverAction::Command(cmds[i]));
        assert(spec_commands(cmds@.take(i + 1)) =~= spec_commands(cmds@.take(i as int)).push(
            DriverAction::Command(cmds@[i as int]),
        ));
        i = i + 1;
    }
    assert(cmds@.take(cmds@.len() as int) =~= cmds@);
}

fn push_repaint(out: &mut Vec<DriverAction>)
    ensures
        final(out)@ == old(out)@ + spec_repaint(),
{
    let cursor = reset_cursor_commands();
    push_commands(out, cursor.as_slice());
    out.push(DriverAction::SendFrame);
    assert(final(out)@ =~= old(out)@ + spec_repaint());
}

/// The display driver: whether the regulator is on, and whether it talks to
/// the controller (it does not while the controller is unpowered).
pub struct OledDriver {
    pub vbus: bool,
    pub comms_enabled: bool,
}

impl OledDriver {
    /// The driver at start: unpowered and silent.
    pub fn new() -> (r: Self)
        ensures
            !r.vbus,
            !r.comms_enabled,
    {
        OledDriver { vbus: false, comms_enabled: false }
    }

    /// Handles a command: the actions to perform, in order. Commands to the
    /// controller are only sent while it is powered.
    pub fn handle(&mut self, cmd: OledCmd) -> (r: Vec<DriverAction>)
        ensures
            match cmd {
                OledCmd::SetPower { enabled } => {
                    &&& final(self).vbus == enabled
                    &&& final(self).comms_enabled == if old(self).vbus == enabled {
                        old(self).comms_enabled
                    } else {
                        enabled
                    }
                    &&& r@ == if !old(self).vbus && enabled {
                        spec_power_up()
                    } else if old(self).vbus && !enabled {
                        spec_power_down()
                    } else {
                        Seq::empty()
                    }
                },
                OledCmd::SetBrightness { brightness } => {
                    &&& *final(self) == *old(self)
                    &&& r@ == if old(self).comms_enabled {
                        spec_commands(seq![CMD_SET_CONTRAST, spec_curved_contrast(brightness)])
                    } else {
                        Seq::empty()
                    }
                },
                OledCmd::Render => {
                    &&& *final(self) == *old(self)
                    &&& r@ == if old(self).comms_enabled {
                        spec_repaint()
                    } else {
                        Seq::empty()
                    } + seq![DriverAction::CountFrame]
                },
            },
    {
        let mut r: Vec<DriverAction> = Vec::new();
        match cmd {
            OledCmd::SetPower { enabled } => {
                if !self.vbus && enabled {
                    self.comms_enabled = true;
                    r.push(DriverAction::SetVreg(true));
                    r.push(DriverAction::DelayMs(10));
                    r.push(DriverAction::SetReset(false));
                    r.push(DriverAction::DelayMs(5));
                    r.push(DriverAction::SetReset(true));
                    r.push(DriverAction::DelayMs(5));
                    let init = init_commands(true);
                    push_commands(&mut r, init.as_slice());
                    push_repaint(&mut r);
                    assert(r@ =~= spec_power_up());
                } else if self.vbus && !enabled {
                    self.comms_enabled = false;
                    r.push(DriverAction::SetVreg(false));
                    r.push(DriverAction::DelayMs(10));
                    assert(r@ =~= spec_power_down());
                }
                self.vbus = enabled;
            },
            OledCmd::SetBrightness { brightness } => {
                if self.comms_enabled {
                    let cmds = contrast_commands(brightness);
                    push_commands(&mut r, cmds.as_slice());
                }
            },
            OledCmd::Render => {
                if self.comms_enabled {
                    push_repaint(&mut r);
                }
                r.push(DriverAction::CountFrame);
            },
        }
        r
    }
}

/// A power state of the display.
#[derive(Clone, Copy, Debug, PartialEq, Eq, Structural)]
pub enum State {
    /// Fully on.
    On,
    /// On, then dimmed after an idle period, then off.
    Idle,
    /// Off at once.
    Off,
}

impl State {
    /// The published name.
    pub open spec fn spec_name(self) -> Seq<char> {
        match self {
            State::On => "on"@,
            State::Idle => "idle"@,
            State::Off => "off"@,
        }
    }

    /// The published name.
    pub fn name(self) -> (r: &'static str)
        ensures
            r@ == self.spec_name(),
    {
        match self {
            State::On => "on",
            State::Idle => "idle",
            State::Off => "off",
        }
    }
}

/// The wait before the idle cool-down starts, in milliseconds.
pub const IDLE_WAIT_MS: u32 = 10_000;
/// The wait between cool-down steps, in milliseconds.
pub const IDLE_COOL_OFF_STEP_MS: u32 = 100;
/// The brightness taken off at each cool-down step.
pub const IDLE_COOL_OFF_STEP: u8 = 5;
/// The brightness at which the cool-down ends.
pub const IDLE_MIN_BRIGHTNESS: u8 = 80;
/// The wait before the regulator is switched off, in milliseconds.
pub const IDLE_VREG_OFF_DELAY_MS: u32 = 10_000;

/// How long the power service waits for its next step.
#[derive(Clone, Copy, Debug, PartialEq, Eq, Structural)]
pub enum Wait {
    /// Until a new state is asked for.
    Forever,
    Millis(u32),
}

/// Where a power transition stands.
#[derive(Clone, Copy, Debug, PartialEq, Eq, Structural)]
pub enum PowerPhase {
    /// No transition is under way.
    Done,
    /// Cooling down: the brightness last set.
    Cooling(u8),
    /// Waiting to switch the regulator off.
    PowerOffDelay,
}

/// The commands and the wait of a step of the power service.
pub struct PowerStep {
    pub commands: Vec<OledCmd>,
    pub wait: Wait,
}

/// The display's power service: the state reached, the state aimed at, and
/// the transition under way.
pub struct OledPower {
    pub current: State,
    pub target: State,
    pub phase: PowerPhase,
}

/// The brightness after a cool-down step from `b`.
pub open spec fn spec_cool_step(b: u8) -> u8 {
    if b - IDLE_COOL_OFF_STEP < IDLE_MIN_BRIGHTNESS {
        IDLE_MIN_BRIGHTNESS
    } else {
        (b - IDLE_COOL_OFF_STEP) as u8
    }
}

impl OledPower {
    /// The service at start: off, and waiting.
    pub fn new() -> (r: Self)
        ensures
            r.current == State::Off,
            r.target == State::Off,
            r.phase == PowerPhase::Done,
    {
        OledPower { current: State::Off, target: State::Off, phase: PowerPhase::Done }
    }

    /// Whether a requested state starts a transition: one equal to the state
    /// aimed at is ignored.
    pub fn accepts(&self, state: State) -> (r: bool)
        ensures
            r == (state != self.target),
    {
        state != self.target
    }

    /// Starts a transition to `state`; one under way is abandoned, and its
    /// target counts as reached.
    pub fn request(&mut self, state: State) -> (r: PowerStep)
        ensures
            final(self).current == if old(self).phase == PowerPhase::Done {
                if state == State::On {
                    state
                } else {
                    old(self).current
                }
            } else if state == State::On {
                state
            } else {
                old(self).target
            },
            final(self).target == state,
            match state {
                State::On => {
                    &&& r.commands@ == seq![
                        OledCmd::SetPower { enabled: true },
                        OledCmd::SetBrightness { brightness: 255 },
                    ]
                    &&& r.wait == Wait::Forever
                    &&& final(self).phase == PowerPhase::Done
                },
                State::Idle => {
                    &&& r.commands@ == seq![
                        OledCmd::SetPower { enabled: true },
                        OledCmd::SetBrightness { brightness: 255 },
                    ]
                    &&& r.wait == Wait::Millis(IDLE_WAIT_MS)
                    &&& final(self).phase == PowerPhase::Cooling(255)
                },
                State::Off => {
                    &&& r.commands@ == seq![OledCmd::SetBrightness { brightness: 0 }]
                    &&& r.wait == Wait::Millis(IDLE_VREG_OFF_DELAY_MS)
                    &&& final(self).phase == PowerPhase::PowerOffDelay
                },
            },
    {
        if self.phase != PowerPhase::Done {
            self.current = self.target;
        }
        self.target = state;
        let mut commands: Vec<OledCmd> = Vec::new();
        match state {
            State::On => {
                commands.push(OledCmd::SetPower { enabled: true });
                commands.push(OledCmd::SetBrightness { brightness: 255 });
                self.phase = PowerPhase::Done;
                self.current = state;
                PowerStep { commands, wait: Wait::Forever }
            },
            State::Idle => {
                commands.push(OledCmd::SetPower { enabled: true });
                commands.push(OledCmd::SetBrightness { brightness: 255 });
                self.phase = PowerPhase::Cooling(255);
                PowerStep { commands, wait: Wait::Millis(IDLE_WAIT_MS) }
            },
            State::Off => {
                commands.push(OledCmd::SetBrightness { brightness: 0 });
                self.phase = PowerPhase::PowerOffDelay;
                PowerStep { commands, wait: Wait::Millis(IDLE_VREG_OFF_DELAY_MS) }
            },
        }
    }

    /// The wait of the transition under way has passed: its next step.
    pub fn timeout(&mut self) -> (r: PowerStep)
        requires
            old(self).phase != PowerPhase::Done,
        ensures
            final(self).target == old(self).target,
            match old(self).phase {
                PowerPhase::Cooling(b) => if b > IDLE_MIN_BRIGHTNESS {
                    &&& r.commands@ == seq![OledCmd::SetBrightness { brightness: spec_cool_step(b) }]
                    &&& r.wait == Wait::Millis(IDLE_COOL_OFF_STEP_MS)
                    &&& final(self).phase == PowerPhase::Cooling(spec_cool_step(b))
                    &&& final(self).current == old(self).current
                } else {
                    &&& r.commands@ == Seq::<OledCmd>::empty()
                    &&& r.wait == Wait::Millis(IDLE_VREG_OFF_DELAY_MS)
                    &&& final(self).phase == PowerPhase::PowerOffDelay
                    &&& final(self).current == old(self).current
                },
                _ => {
                    &&& r.commands@ == seq![OledCmd::SetPower { enabled: false }]
                    &&& r.wait == Wait::Forever
                    &&& final(self).phase == PowerPhase::Done
                    &&& final(self).current == old(self).target
                },
            },
    {
        let mut commands: Vec<OledCmd> = Vec::new();
        match self.phase {
            PowerPhase::Cooling(b) => {
                if b > IDLE_MIN_BRIGHTNESS {
                    let lowered = b - IDLE_COOL_OFF_STEP;
                    let next = if lowered < IDLE_MIN_BRIGHTNESS {
                        IDLE_MIN_BRIGHTNESS
                    } else {
                        lowered
                    };
                    commands.push(OledCmd::SetBrightness { brightness: next });
                    self.phase = PowerPhase::Cooling(next);
                    PowerStep { commands, wait: Wait::Millis(IDLE_COOL_OFF_STEP_MS) }
                } else {
                    self.phase = PowerPhase::PowerOffDelay;
                    PowerStep { commands, wait: Wait::Millis(IDLE_VREG_OFF_DELAY_MS) }
                }
            },
            _ => {
                commands.push(OledCmd::SetPower { enabled: false });
                self.phase = PowerPhase::Done;
                self.current = self.target;
                PowerStep { commands, wait: Wait::Forever }
            },
        }
    }
}

/// Each cool-down step lowers the brightness, and never below the minimum.
pub proof fn lemma_cool_step_decreases(b: u8)
    requires
        b > IDLE_MIN_BRIGHTNESS,
    ensures
        IDLE_MIN_BRIGHTNESS <= spec_cool_step(b) < b,
{
}

/// The brightness after `n` cool-down steps from `b`.
pub open spec fn spec_cool_steps(b: u8, n: nat) -> u8
    decreases n,
{
    if n == 0 {
        b
    } else {
        spec_cool_step(spec_cool_steps(b, (n - 1) as nat))
    }
}

/// From full brightness, the cool-down goes down by 5 each step, 250, 245,
/// and so on, and reaches the minimum after 35 steps.
pub proof fn lemma_cool_down_reaches_minimum()
    ensures
        forall|n: nat| n < 35 ==> #[trigger] spec_cool_steps(255, n) == 255 - 5 * n,
        spec_cool_steps(255, 35) == IDLE_MIN_BRIGHTNESS,
{
    assert forall|n: nat| n < 35 implies #[trigger] spec_cool_steps(255, n) == 255 - 5 * n by {
        lemma_cool_steps_linear(n);
    }
    lemma_cool_steps_linear(35);
}

proof fn lemma_cool_steps_linear(n: nat)
    requires
        n <= 35,
    ensures
        spec_cool_steps(255, n) == 255 - 5 * n,
    decreases n,
{
    if n > 0 {
        lemma_cool_steps_linear((n - 1) as nat);
    }
}

/// A command of the logo animation: the end of a frame, a run of pixels of
/// one of four shades, or a run of pixels left as they are.
#[derive(Clone, Copy, Debug, PartialEq, Eq, Structural)]
pub enum LogoCommand {
    End,
    Draw { count: u16, lightness: u8 },
    Skip { count: u16 },
}

/// The grey level of each logo shade.
pub open spec fn spec_logo_grey(lightness: u8) -> u8 {
    if lightness == 0 {
        0x0
    } else if lightness == 1 {
        0x5
    } else if lightness == 2 {
        0xA
    } else {
        0xF
    }
}

/// A pixel to set: its column, its row and its grey level.
pub type LogoPixel = (u64, u64, u8);

/// The pixel at position `pos` of a logo `width` pixels wide, centred on the
/// display.
pub open spec fn spec_logo_pixel(pos: nat, width: nat, grey: u8) -> LogoPixel {
    (((pos % width) + (128 - width / 2)) as u64, (pos / width) as u64, grey)
}

/// A run of `count` pixels from position `pos`.
pub open spec fn spec_logo_run(pos: nat, count: nat, width: nat, grey: u8) -> Seq<LogoPixel> {
    Seq::new(count, |i: int| spec_logo_pixel((pos + i) as nat, width, grey))
}

/// The pixels drawn by the commands from the `k`-th on, up to the end of the
/// frame, the position being `pos`.
pub open spec fn spec_logo_pixels_from(
    cmds: Seq<LogoCommand>,
    k: int,
    pos: nat,
    width: nat,
) -> Seq<LogoPixel>
    decreases cmds.len() - k,
{
    if k < 0 || k >= cmds.len() {
        Seq::empty()
    } else {
        match cmds[k] {
            LogoCommand::End => Seq::empty(),
            LogoCommand::Draw { count, lightness } => spec_logo_run(
                pos,
                count as nat,
                width,
                spec_logo_grey(lightness),
            ) + spec_logo_pixels_from(cmds, k + 1, (pos + count) as nat, width),
            LogoCommand::Skip { count } => spec_logo_pixels_from(cmds, k + 1, (pos + count) as nat, width),
        }
    }
}

/// Whether the commands hold the end of a frame, and every run of pixels
/// before it has one of the four shades.
pub open spec fn spec_logo_frame_ok(cmds: Seq<LogoCommand>) -> bool {
    exists|e: int|
        0 <= e < cmds.len() && cmds[e] is End && forall|k: int|
            0 <= k < e ==> (#[trigger] cmds[k] matches LogoCommand::Draw { lightness, .. }
                ==> lightness < 4)
}

/// The pixels of one frame of the logo animation, `width` pixels wide; see
/// [`spec_logo_pixels_from`].
pub fn render_logo_frame(cmds: &[LogoCommand], width: u64) -> (r: Vec<LogoPixel>)
    requires
        spec_logo_frame_ok(cmds@),
        0 < width <= DISPLAY_WIDTH,
        cmds@.len() <= u32::MAX,
    ensures
        r@ == spec_logo_pixels_from(cmds@, 0, 0, width as nat),
{
    let ghost e = choose|e: int|
        0 <= e < cmds@.len() && cmds@[e] is End && forall|k: int|
            0 <= k < e ==> (#[trigger] cmds@[k] matches LogoCommand::Draw { lightness, .. }
                ==> lightness < 4);
    let ghost total = spec_logo_pixels_from(cmds@, 0, 0, width as nat);
    let mut out: Vec<LogoPixel> = Vec::new();
    let mut pos: u64 = 0;
    let mut k: usize = 0;
    loop
        invariant
            0 <= k <= e < cmds@.len(),
            cmds@[e] is End,
            forall|j: int|
                0 <= j < e ==> (#[trigger] cmds@[j] matches LogoCommand::Draw { lightness, .. }
                    ==> lightness < 4),
            0 < width <= DISPLAY_WIDTH,
            cmds@.len() <= u32::MAX,
            pos <= k * 0x1_0000,
            total == spec_logo_pixels_from(cmds@, 0, 0, width as nat),
            out@ + spec_logo_pixels_from(cmds@, k as int, pos as nat, width as nat) == total,
        ensures
            out@ == total,
        decreases e - k,
    {
        match cmds[k] {
            LogoCommand::End => {
                assert(spec_logo_pixels_from(cmds@, k as int, pos as nat, width as nat)
                    =~= Seq::empty());
                assert(out@ =~= total);
                break;
            },
            LogoCommand::Draw { count, lightness } => {
                let grey: u8 = if lightness == 0 {
                    0x0
                } else if lightness == 1 {
                    0x5
                } else if lightness == 2 {
                    0xA
                } else {
                    0xF
                };
                let ghost rest = spec_logo_pixels_from(cmds@, k + 1, (pos + count) as nat, width as nat);
                let ghost run = spec_logo_run(pos as nat, count as nat, width as nat, grey);
                let ghost before = out@;
                let mut i: u16 = 0;
                while i < count
                    invariant
                        i <= count,
                        0 < width <= DISPLAY_WIDTH,
                        pos <= k * 0x1_0000,
                        k < cmds@.len() <= u32::MAX,
                        run == spec_logo_run(pos as nat, count as nat, width as nat, grey),
                        out@ == before + run.take(i as int),
                    decreases count - i,
                {
                    let p = pos + (i as u64);
                    let x = (p % width) + (128 - width / 2);
                    let y = p / width;
                    out.push((x, y, grey));
                    assert(run.take(i + 1) =~= run.take(i as int).push(run[i as int]));
                    i = i + 1;
                }
                assert(run.take(count as int) =~= run);
                assert(out@ + rest =~= before + (run + rest));
                pos = pos + (count as u64);
                k = k + 1;
            },
            LogoCommand::Skip { count } => {
                pos = pos + (count as u64);
                k = k + 1;
            },
        }
    }
    out
}

/// The frame period of the logo animation, in milliseconds, at `fps` frames
/// per second.
pub fn logo_frame_period_ms(fps: u64) -> (r: u64)
    requires
        fps > 0,
    ensures
        r == 1000u64 / fps,
{
    1000 / fps
}

/// Where a status line starts: centred on the display for a text `width`
/// pixels wide, on line `index` of four, each 16 pixels high.
pub fn status_line_origin(index: u8, width: u32) -> (r: (i64, i64))
    requires
        index < 4,
    ensures
        r.0 == 128 - width / 2,
        r.1 == index * 16,
{
    (128 - ((width / 2) as i64), (index as i64) * 16)
}

/// A scene the display shows.
#[derive(Clone, Copy, Debug, PartialEq, Eq, Structural)]
pub enum Scene {
    /// The animated logo.
    Logo,
}

/// The scene being shown.
pub struct SceneTracker {
    pub current: Scene,
}

impl SceneTracker {
    /// The logo, at start.
    pub fn new() -> (r: Self)
        ensures
            r.current == Scene::Logo,
    {
        SceneTracker { current: Scene::Logo }
    }

    /// Asks for `scene`: whether it has to be started, which it has unless it
    /// is already shown.
    pub fn select(&self, scene: Scene) -> (r: bool)
        ensures
            r == (scene != self.current),
    {
        scene != self.current
    }

    /// Starts `scene`, from its first frame.
    pub fn force(&mut self, scene: Scene)
        ensures
            final(self).current == scene,
    {
        self.current = scene;
    }
}

/// A message to the display service, which runs the scenes on the driver.
#[derive(Clone, Copy, Debug, PartialEq, Eq, Structural)]
pub enum ServiceMsg {
    /// Switches the display's power.
    SetPower(bool),
    /// Renders the next frame of the current scene.
    Render,
    SetBrightness(u8),
    /// Asks for a power state of the display.
    SetState(State),
    /// Asks for a scene; it is started unless it is already shown.
    SetScene(Scene),
    /// Starts a scene from its first frame.
    ForceSetScene(Scene),
}

/// What the display service does, in order.
#[derive(Clone, Copy, Debug, PartialEq, Eq, Structural)]
pub enum ServiceAction {
    /// An action of the display driver.
    Driver(DriverAction),
    /// Hands a requested power state to the power manager.
    SetPowerState(State),
    /// Sends [`ServiceMsg::ForceSetScene`] with this scene to the service
    /// itself.
    ForceSetScene(Scene),
    /// Clears the frame buffer, renders the first frame of the scene and
    /// schedules the next.
    StartScene(Scene),
    /// Renders the next frame of the current scene and schedules the one
    /// after.
    RenderScene,
}

/// Driver actions, as actions of the service.
pub open spec fn spec_driver_actions(acts: Seq<DriverAction>) -> Seq<ServiceAction> {
    acts.map_values(|a: DriverAction| ServiceAction::Driver(a))
}

fn push_driver_actions(out: &mut Vec<ServiceAction>, acts: &Vec<DriverAction>)
    ensures
        final(out)@ == old(out)@ + spec_driver_actions(acts@),
{
    let ghost start = out@;
    let mut i: usize = 0;
    while i < acts.len()
        invariant
            i <= acts@.len(),
            out@ == start + spec_driver_actions(acts@.take(i as int)),
        decreases acts@.len() - i,
    {
        out.push(ServiceAction::Driver(acts[i]));
        assert(spec_driver_actions(acts@.take(i + 1)) =~= spec_driver_actions(
            acts@.take(i as int),
        ).push(ServiceAction::Driver(acts@[i as int])));
        i = i + 1;
    }
    assert(acts@.take(acts@.len() as int) =~= acts@);
}

/// The display service: the driver's state and the scene being shown.
pub struct OledService {
    pub driver: OledDriver,
    pub scene: SceneTracker,
}

impl OledService {
    /// The service at start: unpowered, showing the logo.
    pub fn new() -> (r: Self)
        ensures
            !r.driver.vbus,
            !r.driver.comms_enabled,
            r.scene.current == Scene::Logo,
    {
        OledService { driver: OledDriver::new(), scene: SceneTracker::new() }
    }

    /// Handles a message: the actions to perform, in order. Once the display
    /// is powered up, the current scene is started again.
    pub fn handle(&mut self, msg: ServiceMsg) -> (r: Vec<ServiceAction>)
        ensures
            match msg {
                ServiceMsg::SetPower(enabled) => {
                    &&& final(self).scene == old(self).scene
                    &&& final(self).driver.vbus == enabled
                    &&& final(self).driver.comms_enabled == if old(self).driver.vbus == enabled {
                        old(self).driver.comms_enabled
                    } else {
                        enabled
                    }
                    &&& r@ == if !old(self).driver.vbus && enabled {
                        spec_driver_actions(spec_power_up()) + seq![
                            ServiceAction::ForceSetScene(old(self).scene.current),
                        ]
                    } else if old(self).driver.vbus && !enabled {
                        spec_driver_actions(spec_power_down())
                    } else {
                        Seq::empty()
                    }
                },
                ServiceMsg::SetBrightness(brightness) => {
                    &&& *final(self) == *old(self)
                    &&& r@ == if old(self).driver.comms_enabled {
                        spec_driver_actions(
                            spec_commands(seq![CMD_SET_CONTRAST, spec_curved_contrast(brightness)]),
                        )
                    } else {
                        Seq::empty()
                    }
                },
                ServiceMsg::SetState(state) => {
                    &&& *final(self) == *old(self)
                    &&& r@ == seq![ServiceAction::SetPowerState(state)]
                },
                ServiceMsg::SetScene(scene) => {
                    &&& *final(self) == *old(self)
                    &&& r@ == if scene != old(self).scene.current {
                        seq![ServiceAction::ForceSetScene(scene)]
                    } else {
                        Seq::empty()
                    }
                },
                ServiceMsg::ForceSetScene(scene) => {
                    &&& final(self).driver == old(self).driver
                    &&& final(self).scene.current == scene
                    &&& r@ == seq![ServiceAction::StartScene(scene)] + if old(self).driver.comms_enabled {
                        spec_driver_actions(spec_repaint())
                    } else {
                        Seq::empty()
                    }
                },
                ServiceMsg::Render => {
                    &&& *final(self) == *old(self)
                    &&& r@ == seq![ServiceAction::RenderScene] + if old(self).driver.comms_enabled {
                        spec_driver_actions(spec_repaint())
                    } else {
                        Seq::empty()
                    }
                },
            },
    {
        let mut r: Vec<ServiceAction> = Vec::new();
        match msg {
            ServiceMsg::SetPower(enabled) => {
                let powering_up = !self.driver.vbus && enabled;
                let acts = self.driver.handle(OledCmd::SetPower { enabled });
                push_driver_actions(&mut r, &acts);
                if powering_up {
                    r.push(ServiceAction::ForceSetScene(self.scene.current));
                }
            },
            ServiceMsg::SetBrightness(brightness) => {
                let acts = self.driver.handle(OledCmd::SetBrightness { brightness });
                push_driver_actions(&mut r, &acts);
            },
            ServiceMsg::SetState(state) => {
                r.push(ServiceAction::SetPowerState(state));
            },
            ServiceMsg::SetScene(scene) => {
                if self.scene.select(scene) {
                    r.push(ServiceAction::ForceSetScene(scene));
                }
            },
            ServiceMsg::ForceSetScene(scene) => {
                self.scene.force(scene);
                r.push(ServiceAction::StartScene(scene));
                if self.driver.comms_enabled {
                    let mut acts: Vec<DriverAction> = Vec::new();
                    push_repaint(&mut acts);
                    assert(acts@ =~= spec_repaint());
                    push_driver_actions(&mut r, &acts);
                }
            },
            ServiceMsg::Render => {
                r.push(ServiceAction::RenderScene);
                if self.driver.comms_enabled {
                    let mut acts: Vec<DriverAction> = Vec::new();
                    push_repaint(&mut acts);
                    assert(acts@ =~= spec_repaint());
                    push_driver_actions(&mut r, &acts);
                }
            },
        }
        r
    }
}

} // verus!
