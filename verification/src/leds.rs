//! The LED controller chip (an IS31FL3236A with 36 PWM channels) and the way
//! LED commands become channel brightness updates.

use vstd::prelude::*;

verus! {

/// The chip's I2C address.
pub const ADDR: u8 = 0x3C;

/// Number of PWM channels, numbered 1 to 36.
pub const NUM_CHANNELS: usize = 36;

/// Channel 0 is no light: an update to it sets the brightness shift of all
/// channels.
pub const SHIFT_CHANNEL: usize = 0;

/// The shift applied in idle mode (a division by 16).
pub const IDLE_SHIFT: u8 = 4;

/// The lowest brightness of a lit channel in idle mode.
pub const IDLE_MIN: u8 = 2;

/// Register address of the PWM registers (the first byte of a PWM frame).
pub const REG_PWM: u8 = 0x01;

/// Register address of the channel control registers.
pub const REG_CONTROL: u8 = 0x26;

/// The output current limit of a channel.
#[derive(Clone, Copy, Debug, PartialEq, Eq, Structural)]
pub enum MaxCurrent {
    Imax,
    ImaxDiv2,
    ImaxDiv3,
    ImaxDiv4,
}

impl MaxCurrent {
    pub open spec fn spec_code(self) -> u8 {
        match self {
            MaxCurrent::Imax => 0,
            MaxCurrent::ImaxDiv2 => 1,
            MaxCurrent::ImaxDiv3 => 2,
            MaxCurrent::ImaxDiv4 => 3,
        }
    }

    pub fn code(self) -> (r: u8)
        ensures
            r == self.spec_code(),
    {
        match self {
            MaxCurrent::Imax => 0,
            MaxCurrent::ImaxDiv2 => 1,
            MaxCurrent::ImaxDiv3 => 2,
            MaxCurrent::ImaxDiv4 => 3,
        }
    }
}

/// The PWM output frequency.
#[derive(Clone, Copy, Debug, PartialEq, Eq, Structural)]
pub enum OutputFrequency {
    Khz3,
    Khz22,
}

impl OutputFrequency {
    pub open spec fn spec_code(self) -> u8 {
        match self {
            OutputFrequency::Khz3 => 0,
            OutputFrequency::Khz22 => 1,
        }
    }

    pub fn code(self) -> (r: u8)
        ensures
            r == self.spec_code(),
    {
        match self {
            OutputFrequency::Khz3 => 0,
            OutputFrequency::Khz22 => 1,
        }
    }
}

/// The current limit the board uses on every channel.
pub fn board_max_current() -> (r: MaxCurrent)
    ensures
        r == MaxCurrent::ImaxDiv4,
{
    MaxCurrent::ImaxDiv4
}

/// A channel control register: bit 0 switches the channel on, bits 1..3 hold
/// the current limit.
#[derive(Clone, Copy, Debug, PartialEq, Eq, Structural)]
pub struct ChannelState(pub u8);

impl ChannelState {
    /// Off, full current.
    pub fn new() -> (r: Self)
        ensures
            r.0 == 0,
    {
        ChannelState(0)
    }

    /// Switches the channel on.
    pub fn with_on(self) -> (r: Self)
        ensures
            r.0 == self.0 | 1,
    {
        ChannelState(self.0 | 0x01u8)
    }

    /// Switches the channel off.
    pub fn with_off(self) -> (r: Self)
        ensures
            r.0 == self.0 & !1u8,
    {
        ChannelState(self.0 & !0x01u8)
    }

    /// Sets the current limit.
    pub fn with_max_current(self, max_current: MaxCurrent) -> (r: Self)
        ensures
            r.0 == (self.0 & !6u8) | (max_current.spec_code() << 1u8),
    {
        ChannelState((self.0 & !6u8) | (max_current.code() << 1u8))
    }

    pub fn from_u8(value: u8) -> (r: Self)
        ensures
            r.0 == value,
    {
        ChannelState(value)
    }

    pub fn to_u8(self) -> (r: u8)
        ensures
            r == self.0,
    {
        self.0
    }
}

/// Bit 0 of a channel state register.
pub open spec fn is_on(v: u8) -> bool {
    v & 1 == 1
}

/// Bits 1..3 of a channel state register.
pub open spec fn current_code(v: u8) -> u8 {
    (v >> 1u8) & 3
}

/// Switching a channel on or off touches only bit 0, and setting the current
/// limit touches only bits 1..3.
pub proof fn lemma_channel_state_fields(v: u8, code: u8)
    by (bit_vector)
    requires
        code < 4,
    ensures
        (v | 1) & 1 == 1,
        ((v | 1) >> 1u8) & 3 == (v >> 1u8) & 3,
        (v & !1u8) & 1 == 0,
        ((v & !1u8) >> 1u8) & 3 == (v >> 1u8) & 3,
        (((v & !6u8) | (code << 1u8)) >> 1u8) & 3 == code,
        ((v & !6u8) | (code << 1u8)) & 1 == v & 1,
        ((v & !6u8) | (code << 1u8)) >> 3u8 == v >> 3u8,
{
}

/// The channel state register of a lit channel at the board's current limit.
pub open spec fn on_state() -> u8 {
    7
}

/// The channel state register of a dark channel at the board's current limit.
pub open spec fn off_state() -> u8 {
    6
}

/// The register values the board writes for a lit and a dark channel.
pub fn board_channel_state(on: bool) -> (r: ChannelState)
    ensures
        r.0 == if on {
            on_state()
        } else {
            off_state()
        },
{
    let base = ChannelState::new().with_max_current(board_max_current());
    assert((0u8 & !6u8) | (3u8 << 1u8) == 6u8 && (6u8 | 1u8) == 7u8 && (6u8 & !1u8) == 6u8)
        by (bit_vector);
    if on {
        base.with_on()
    } else {
        base.with_off()
    }
}

/// The brightness a lit channel shows under a global shift: the shifted value,
/// but no less than [`IDLE_MIN`]; a dark channel stays dark.
pub open spec fn spec_shifted(pwm: u8, shift: u8) -> u8 {
    if pwm > 0 {
        if (pwm >> shift) > IDLE_MIN {
            pwm >> shift
        } else {
            IDLE_MIN
        }
    } else {
        0
    }
}

/// The chip's register shadow: the PWM frame (register address, 36 values,
/// the update register) and the channel control frame (register address, 36
/// values), and the global brightness shift.
pub struct LedChip {
    pwm_state: [u8; 38],
    ch_state: [u8; 37],
    global_shift: u8,
}

impl LedChip {
    pub closed spec fn pwm(&self) -> Seq<u8> {
        self.pwm_state@
    }

    pub closed spec fn control(&self) -> Seq<u8> {
        self.ch_state@
    }

    pub closed spec fn shift(&self) -> u8 {
        self.global_shift
    }

    /// All channels dark and off, no shift.
    pub fn new() -> (r: Self)
        ensures
            r.pwm() == seq![REG_PWM].add(Seq::new(37, |i: int| 0u8)),
            r.control() == seq![REG_CONTROL].add(Seq::new(36, |i: int| 0u8)),
            r.shift() == 0,
    {
        let mut pwm_state: [u8; 38] = [0u8; 38];
        let mut ch_state: [u8; 37] = [0u8; 37];
        pwm_state[0] = REG_PWM;
        ch_state[0] = REG_CONTROL;
        let r = LedChip { pwm_state, ch_state, global_shift: 0 };
        assert(r.pwm() =~= seq![REG_PWM].add(Seq::new(37, |i: int| 0u8)));
        assert(r.control() =~= seq![REG_CONTROL].add(Seq::new(36, |i: int| 0u8)));
        r
    }

    /// Sets the global brightness shift.
    pub fn set_shift(&mut self, shift: u8)
        ensures
            final(self).shift() == shift,
            final(self).pwm() == old(self).pwm(),
            final(self).control() == old(self).control(),
    {
        self.global_shift = shift;
    }

    /// Sets the PWM value of a channel (1 to 36).
    pub fn set_pwm(&mut self, channel: usize, value: u8)
        requires
            1 <= channel <= NUM_CHANNELS,
        ensures
            final(self).pwm() == old(self).pwm().update(channel as int, value),
            final(self).control() == old(self).control(),
            final(self).shift() == old(self).shift(),
    {
        self.pwm_state[channel] = value;
    }

    /// Sets the control register of a channel (1 to 36).
    pub fn set_ch_state(&mut self, channel: usize, value: ChannelState)
        requires
            1 <= channel <= NUM_CHANNELS,
        ensures
            final(self).control() == old(self).control().update(channel as int, value.0),
            final(self).pwm() == old(self).pwm(),
            final(self).shift() == old(self).shift(),
    {
        self.ch_state[channel] = value.0;
    }

    /// Applies a brightness update: channel 0 sets the shift; a lit channel
    /// gets its PWM value and is switched on; a dark one gets PWM 0 and is
    /// switched off.
    pub fn update_channel(&mut self, ch: usize, brightness: u8)
        requires
            ch <= NUM_CHANNELS,
        ensures
            ch == SHIFT_CHANNEL ==> final(self).shift() == brightness && final(self).pwm() == old(
                self,
            ).pwm() && final(self).control() == old(self).control(),
            ch != SHIFT_CHANNEL ==> final(self).shift() == old(self).shift() && final(self).pwm()
                == old(self).pwm().update(ch as int, brightness) && final(self).control() == old(
                self,
            ).control().update(
                ch as int,
                if brightness > 0 {
                    on_state()
                } else {
                    off_state()
                },
            ),
    {
        if ch == SHIFT_CHANNEL {
            self.set_shift(brightness);
        } else if brightness > 0 {
            self.set_pwm(ch, brightness);
            self.set_ch_state(ch, board_channel_state(true));
        } else {
            self.set_pwm(ch, 0);
            self.set_ch_state(ch, board_channel_state(false));
        }
    }

    /// The PWM frame to write to the chip, and the 36 brightness values it
    /// shows: under a shift, each lit channel shows [`spec_shifted`].
    pub fn pwm_frame(&self) -> (r: (Vec<u8>, Vec<u8>))
        requires
            self.shift() < 8,
        ensures
            r.0@.len() == 38,
            r.0@[0] == self.pwm()[0],
            r.0@[37] == self.pwm()[37],
            forall|i: int|
                1 <= i <= 36 ==> r.0@[i] == if self.shift() > 0 {
                    spec_shifted(self.pwm()[i], self.shift())
                } else {
                    self.pwm()[i]
                },
            r.1@ == r.0@.subrange(1, 37),
    {
        let mut frame: Vec<u8> = Vec::new();
        let mut i: usize = 0;
        while i < 38
            invariant
                i <= 38,
                self.shift() < 8,
                frame@.len() == i,
                frame@.len() > 0 ==> frame@[0] == self.pwm()[0],
                forall|j: int|
                    1 <= j < i && j <= 36 ==> frame@[j] == if self.shift() > 0 {
                        spec_shifted(self.pwm()[j], self.shift())
                    } else {
                        self.pwm()[j]
                    },
                i == 38 ==> frame@[37] == self.pwm()[37],
            decreases 38 - i,
        {
            let v = self.pwm_state[i];
            let shown: u8 = if self.global_shift > 0 && 1 <= i && i <= 36 && v > 0 {
                let s = v >> self.global_shift;
                if s > IDLE_MIN {
                    s
                } else {
                    IDLE_MIN
                }
            } else {
                v
            };
            frame.push(shown);
            i = i + 1;
        }
        let mut shown: Vec<u8> = Vec::new();
        let mut j: usize = 1;
        while j < 37
            invariant
                1 <= j <= 37,
                frame@.len() == 38,
                shown@ =~= frame@.subrange(1, j as int),
            decreases 37 - j,
        {
            shown.push(frame[j]);
            j = j + 1;
        }
        (frame, shown)
    }

    /// The channel control frame to write to the chip.
    pub fn state_frame(&self) -> (r: Vec<u8>)
        ensures
            r@ == self.control(),
    {
        let mut frame: Vec<u8> = Vec::new();
        let mut i: usize = 0;
        while i < 37
            invariant
                i <= 37,
                frame@ =~= self.control().take(i as int),
            decreases 37 - i,
        {
            frame.push(self.ch_state[i]);
            i = i + 1;
        }
        assert(self.control().take(37) =~= self.control());
        frame
    }
}

/// The write that latches the control registers after a state frame.
pub fn update_frame() -> (r: [u8; 2])
    ensures
        r@ == seq![0x25u8, 0x00u8],
{
    [0x25, 0x00]
}

/// The write that takes the chip out of (`false`) or into (`true`) shutdown.
pub fn shutdown_frame(is_shutdown: bool) -> (r: [u8; 2])
    ensures
        r@ == seq![0x00u8, if is_shutdown { 0x00u8 } else { 0x01u8 }],
{
    [0x00, if is_shutdown {
        0x00
    } else {
        0x01
    }]
}

/// The write that resets all registers.
pub fn reset_frame() -> (r: [u8; 2])
    ensures
        r@ == seq![0x4Fu8, 0x00u8],
{
    [0x4F, 0x00]
}

/// The write that enables (`true`) or disables (`false`) all channels.
pub fn global_enable_frame(enabled: bool) -> (r: [u8; 2])
    ensures
        r@ == seq![0x4Au8, if enabled { 0x00u8 } else { 0x01u8 }],
{
    [0x4A, if enabled {
        0x00
    } else {
        0x01
    }]
}

/// The write that sets the PWM output frequency.
pub fn frequency_frame(frequency: OutputFrequency) -> (r: [u8; 2])
    ensures
        r@ == seq![0x4Bu8, frequency.spec_code()],
{
    [0x4B, frequency.code()]
}


/// A color.
#[derive(Clone, Copy, Debug, PartialEq, Eq, Structural)]
pub struct Rgb {
    pub r: u8,
    pub g: u8,
    pub b: u8,
}

impl Rgb {
    pub fn new(r: u8, g: u8, b: u8) -> (c: Self)
        ensures
            c == (Rgb { r, g, b }),
    {
        Rgb { r, g, b }
    }

    /// A grey of lightness `v`.
    pub fn grey(v: u8) -> (c: Self)
        ensures
            c == (Rgb { r: v, g: v, b: v }),
    {
        Rgb { r: v, g: v, b: v }
    }
}

/// A brightness update of one channel.
pub type LightUpdate = (usize, u8);

/// The updates for an RGB light on three channels.
pub fn rgb_light_updates(color: Rgb, ch_r: usize, ch_g: usize, ch_b: usize) -> (r: Vec<
    LightUpdate,
>)
    ensures
        r@ == seq![(ch_r, color.r), (ch_g, color.g), (ch_b, color.b)],
{
    let mut r: Vec<LightUpdate> = Vec::new();
    r.push((ch_r, color.r));
    r.push((ch_g, color.g));
    r.push((ch_b, color.b));
    assert(r@ =~= seq![(ch_r, color.r), (ch_g, color.g), (ch_b, color.b)]);
    r
}

/// `value` on each of `chs`, in order.
pub open spec fn spec_all_to(chs: Seq<usize>, value: u8) -> Seq<LightUpdate> {
    Seq::new(chs.len(), |i: int| (chs[i], value))
}

/// Appends `value` on each of `chs`.
fn push_all_to(out: &mut Vec<LightUpdate>, chs: &[usize], value: u8)
    ensures
        final(out)@ == old(out)@ + spec_all_to(chs@, value),
{
    let ghost start = out@;
    let mut i: usize = 0;
    while i < chs.len()
        invariant
            i <= chs@.len(),
            out@ =~= start + spec_all_to(chs@.take(i as int), value),
        decreases chs@.len() - i,
    {
        out.push((chs[i], value));
        i = i + 1;
    }
    assert(chs@.take(chs@.len() as int) =~= chs@);
}

/// The updates for an RGB light spread over several channels per color: all
/// red channels, then all green ones, then all blue ones.
pub fn multi_rgb_light_updates(color: Rgb, ch_r: &[usize], ch_g: &[usize], ch_b: &[usize]) -> (r:
    Vec<LightUpdate>)
    ensures
        r@ == spec_all_to(ch_r@, color.r) + spec_all_to(ch_g@, color.g) + spec_all_to(
            ch_b@,
            color.b,
        ),
{
    let mut r: Vec<LightUpdate> = Vec::new();
    push_all_to(&mut r, ch_r, color.r);
    push_all_to(&mut r, ch_g, color.g);
    push_all_to(&mut r, ch_b, color.b);
    assert(r@ =~= spec_all_to(ch_r@, color.r) + spec_all_to(ch_g@, color.g) + spec_all_to(
        ch_b@,
        color.b,
    ));
    r
}

/// The updates for a white light spread over several channels.
pub fn multi_grey_light_updates(value: u8, chs: &[usize]) -> (r: Vec<LightUpdate>)
    ensures
        r@ == spec_all_to(chs@, value),
{
    let mut r: Vec<LightUpdate> = Vec::new();
    push_all_to(&mut r, chs, value);
    assert(r@ =~= spec_all_to(chs@, value));
    r
}

/// A light that is either fully on or off; it sends an update only when its
/// state changes.
pub struct OnOffLight {
    pub ch: usize,
    pub state: bool,
}

impl OnOffLight {
    /// A light on channel `ch`, initially off.
    pub fn new(ch: usize) -> (r: Self)
        ensures
            r.ch == ch,
            !r.state,
    {
        OnOffLight { ch, state: false }
    }

    /// Asks the light to be on or off: the update to send, if the state
    /// changed.
    pub fn receive(&mut self, new_state: bool) -> (r: Option<LightUpdate>)
        ensures
            final(self).ch == old(self).ch,
            final(self).state == new_state,
            r == if new_state != old(self).state {
                Some(
                    (
                        old(self).ch,
                        if new_state {
                            255u8
                        } else {
                            0u8
                        },
                    ),
                )
            } else {
                None::<LightUpdate>
            },
    {
        if new_state != self.state {
            self.state = new_state;
            let brightness: u8 = if new_state {
                255
            } else {
                0
            };
            Some((self.ch, brightness))
        } else {
            None
        }
    }
}

/// Channels of the SD card lights.
pub const CH_SD_CABLE_SENSE: usize = 36;
pub const CH_SD_CARD_ACTIVITY: usize = 2;
pub const CH_SD_CARD_SENSE: usize = 1;

/// The backlight's red, green, blue and white channels.
pub open spec fn backlight_red() -> Seq<usize> {
    seq![19usize, 10, 5, 15, 13, 25, 21]
}

pub open spec fn backlight_green() -> Seq<usize> {
    seq![18usize, 9, 6, 16, 12, 26, 22]
}

pub open spec fn backlight_blue() -> Seq<usize> {
    seq![20usize, 11, 4, 17, 14, 24, 23]
}

pub open spec fn backlight_white() -> Seq<usize> {
    seq![7usize, 8, 3]
}

/// The status lights' RGB LEDs as wired on the board: red, green and blue
/// channels of the system, remote link and job indicators.
pub open spec fn spec_system_led() -> (usize, usize, usize) {
    (34, 33, 35)
}

pub open spec fn spec_remote_led() -> (usize, usize, usize) {
    (31, 30, 32)
}

pub open spec fn spec_job_led() -> (usize, usize, usize) {
    (28, 29, 27)
}

/// An RGB LED's channels set to a colour: red, green, then blue.
pub open spec fn spec_rgb_updates(led: (usize, usize, usize), c: Rgb) -> Seq<LightUpdate> {
    seq![(led.0, c.r), (led.1, c.g), (led.2, c.b)]
}

/// The backlight's seven RGB LEDs as wired on the board: each LED's red,
/// green and blue channels.
pub open spec fn spec_backlight_leds() -> Seq<(usize, usize, usize)> {
    seq![
        (19usize, 18usize, 20usize),
        (10, 9, 11),
        (5, 6, 4),
        (15, 16, 17),
        (13, 12, 14),
        (25, 26, 24),
        (21, 22, 23),
    ]
}

/// The backlight's colour channels are those of its seven RGB LEDs: the red
/// channels are the LEDs' red channels, in LED order, and likewise green and
/// blue.
pub proof fn lemma_backlight_wiring()
    ensures
        backlight_red().len() == 7 && backlight_green().len() == 7 && backlight_blue().len() == 7,
        forall|i: int|
            0 <= i < 7 ==> backlight_red()[i] == (#[trigger] spec_backlight_leds()[i]).0
                && backlight_green()[i] == spec_backlight_leds()[i].1
                && backlight_blue()[i] == spec_backlight_leds()[i].2,
{
    let leds = spec_backlight_leds();
    assert forall|i: int|
        0 <= i < 7 implies backlight_red()[i] == (#[trigger] spec_backlight_leds()[i]).0
            && backlight_green()[i] == spec_backlight_leds()[i].1
            && backlight_blue()[i] == spec_backlight_leds()[i].2 by {
        assert(i == 0 || i == 1 || i == 2 || i == 3 || i == 4 || i == 5 || i == 6);
    }
}

/// A command to the LED service.
#[derive(Clone, Copy, Debug, PartialEq, Eq)]
pub enum LedCmd {
    /// Turns off all lights.
    AllOff,
    /// Runs the self-test sequence; see [`self_test_steps`].
    SelfTest,
    /// Dims (`true`) or undims all lights.
    SetIdle(bool),
    /// Sets the backlight: the color part and the white part.
    SetBacklight { color: Rgb, white: u8 },
    SetSystemIndicator(Rgb),
    SetRemoteIndicator(Rgb),
    SetJobIndicator(Rgb),
    SetSdCableIndicator(bool),
    SetSdCardIndicator(bool),
    SetSdSenseIndicator(bool),
    /// Sets all 36 channels, in channel order.
    SetManualState { state: [u8; 36] },
}

/// Every channel (1 to 36) set to `value`, in channel order.
pub open spec fn spec_every_channel(value: u8) -> Seq<LightUpdate> {
    Seq::new(36, |i: int| ((i + 1) as usize, value))
}

/// The channels set to the given 36 values, in channel order.
pub open spec fn spec_manual(state: Seq<u8>) -> Seq<LightUpdate> {
    Seq::new(36, |i: int| ((i + 1) as usize, state[i]))
}

/// Every channel (1 to 36) set to `value`, in channel order.
pub fn every_channel(value: u8) -> (r: Vec<LightUpdate>)
    ensures
        r@ == spec_every_channel(value),
{
    let mut r: Vec<LightUpdate> = Vec::new();
    let mut ch: usize = 1;
    while ch <= 36
        invariant
            1 <= ch <= 37,
            r@ =~= spec_every_channel(value).take(ch - 1),
        decreases 37 - ch,
    {
        r.push((ch, value));
        ch = ch + 1;
    }
    assert(spec_every_channel(value).take(36) =~= spec_every_channel(value));
    r
}

/// One step of a timed light sequence: updates, then a pause.
pub struct LightStep {
    pub updates: Vec<LightUpdate>,
    pub wait_ms: u32,
}

/// The routing of LED commands to channel updates, with the state of the
/// three SD card lights.
pub struct LedRouter {
    pub sd_cable: OnOffLight,
    pub sd_card: OnOffLight,
    pub sd_sense: OnOffLight,
}

impl LedRouter {
    /// The board's routing, all SD lights off.
    pub fn new() -> (r: Self)
        ensures
            r.sd_cable.ch == CH_SD_CABLE_SENSE && !r.sd_cable.state,
            r.sd_card.ch == CH_SD_CARD_ACTIVITY && !r.sd_card.state,
            r.sd_sense.ch == CH_SD_CARD_SENSE && !r.sd_sense.state,
    {
        LedRouter {
            sd_cable: OnOffLight::new(CH_SD_CABLE_SENSE),
            sd_card: OnOffLight::new(CH_SD_CARD_ACTIVITY),
            sd_sense: OnOffLight::new(CH_SD_CARD_SENSE),
        }
    }

    /// The channel updates a command causes; `SelfTest` is a timed sequence
    /// and is given by [`self_test_steps`] instead.
    pub fn route(&mut self, cmd: LedCmd) -> (r: Vec<LightUpdate>)
        ensures
            match cmd {
                LedCmd::AllOff => r@ == spec_every_channel(0),
                LedCmd::SetIdle(idle) => r@ == seq![
                    (SHIFT_CHANNEL, if idle { IDLE_SHIFT } else { 0u8 }),
                ],
                LedCmd::SetBacklight { color, white } => {
                    &&& r@ == spec_all_to(backlight_red(), color.r) + spec_all_to(
                        backlight_green(),
                        color.g,
                    ) + spec_all_to(backlight_blue(), color.b) + spec_all_to(
                        backlight_white(),
                        white,
                    )
                    &&& forall|i: int|
                        0 <= i < 7 ==> r@[i] == ((#[trigger] spec_backlight_leds()[i]).0, color.r)
                            && r@[7 + i] == (spec_backlight_leds()[i].1, color.g)
                            && r@[14 + i] == (spec_backlight_leds()[i].2, color.b)
                },
                LedCmd::SetSystemIndicator(c) => r@ == seq![(34usize, c.r), (33usize, c.g), (35usize, c.b)]
                    && r@ == spec_rgb_updates(spec_system_led(), c),
                LedCmd::SetRemoteIndicator(c) => r@ == seq![(31usize, c.r), (30usize, c.g), (32usize, c.b)]
                    && r@ == spec_rgb_updates(spec_remote_led(), c),
                LedCmd::SetJobIndicator(c) => r@ == seq![(28usize, c.r), (29usize, c.g), (27usize, c.b)]
                    && r@ == spec_rgb_updates(spec_job_led(), c),
                LedCmd::SetSdCableIndicator(on) => r@ == (if on != old(self).sd_cable.state {
                    seq![(old(self).sd_cable.ch, if on { 255u8 } else { 0u8 })]
                } else {
                    Seq::<LightUpdate>::empty()
                }) && final(self).sd_cable.state == on,
                LedCmd::SetSdCardIndicator(on) => r@ == (if on != old(self).sd_card.state {
                    seq![(old(self).sd_card.ch, if on { 255u8 } else { 0u8 })]
                } else {
                    Seq::<LightUpdate>::empty()
                }) && final(self).sd_card.state == on,
                LedCmd::SetSdSenseIndicator(on) => r@ == (if on != old(self).sd_sense.state {
                    seq![(old(self).sd_sense.ch, if on { 255u8 } else { 0u8 })]
                } else {
                    Seq::<LightUpdate>::empty()
                }) && final(self).sd_sense.state == on,
                LedCmd::SetManualState { state } => r@ == spec_manual(state@),
                LedCmd::SelfTest => r@.len() == 0,
            },
            final(self).sd_cable.ch == old(self).sd_cable.ch,
            final(self).sd_card.ch == old(self).sd_card.ch,
            final(self).sd_sense.ch == old(self).sd_sense.ch,
            !(cmd is SetSdCableIndicator) ==> final(self).sd_cable.state == old(self).sd_cable.state,
            !(cmd is SetSdCardIndicator) ==> final(self).sd_card.state == old(self).sd_card.state,
            !(cmd is SetSdSenseIndicator) ==> final(self).sd_sense.state == old(self).sd_sense.state,
    {
        let mut r: Vec<LightUpdate> = Vec::new();
        match cmd {
            LedCmd::AllOff => {
                r = every_channel(0);
            },
            LedCmd::SelfTest => {},
            LedCmd::SetIdle(idle) => {
                r.push((SHIFT_CHANNEL, if idle {
                    IDLE_SHIFT
                } else {
                    0
                }));
            },
            LedCmd::SetBacklight { color, white } => {
                let red: [usize; 7] = [19, 10, 5, 15, 13, 25, 21];
                let green: [usize; 7] = [18, 9, 6, 16, 12, 26, 22];
                let blue: [usize; 7] = [20, 11, 4, 17, 14, 24, 23];
                let whites: [usize; 3] = [7, 8, 3];
                push_all_to(&mut r, red.as_slice(), color.r);
                push_all_to(&mut r, green.as_slice(), color.g);
                push_all_to(&mut r, blue.as_slice(), color.b);
                push_all_to(&mut r, whites.as_slice(), white);
                assert(red@ =~= backlight_red());
                assert(green@ =~= backlight_green());
                assert(blue@ =~= backlight_blue());
                assert(whites@ =~= backlight_white());
                proof {
                    lemma_backlight_wiring();
                }
            },
            LedCmd::SetSystemIndicator(c) => {
                r = rgb_light_updates(c, 34, 33, 35);
            },
            LedCmd::SetRemoteIndicator(c) => {
                r = rgb_light_updates(c, 31, 30, 32);
            },
            LedCmd::SetJobIndicator(c) => {
                r = rgb_light_updates(c, 28, 29, 27);
            },
            LedCmd::SetSdCableIndicator(on) => {
                if let Some(u) = self.sd_cable.receive(on) {
                    r.push(u);
                }
            },
            LedCmd::SetSdCardIndicator(on) => {
                if let Some(u) = self.sd_card.receive(on) {
                    r.push(u);
                }
            },
            LedCmd::SetSdSenseIndicator(on) => {
                if let Some(u) = self.sd_sense.receive(on) {
                    r.push(u);
                }
            },
            LedCmd::SetManualState { state } => {
                let mut i: usize = 0;
                while i < 36
                    invariant
                        i <= 36,
                        r@ =~= spec_manual(state@).take(i as int),
                    decreases 36 - i,
                {
                    r.push((i + 1, state[i]));
                    i = i + 1;
                }
                assert(spec_manual(state@).take(36) =~= spec_manual(state@));
            },
        }
        r
    }
}

/// The self-test sequence, step by step: three times all channels full then
/// dark, 250ms each; then each channel in turn full for 50ms and dark again.
pub open spec fn spec_self_test_step(i: int) -> (Seq<LightUpdate>, u32) {
    if i < 6 {
        (spec_every_channel(if i % 2 == 0 { 255u8 } else { 0u8 }), 250u32)
    } else {
        let ch = ((i - 6) / 2 + 1) as usize;
        if (i - 6) % 2 == 0 {
            (seq![(ch, 255u8)], 50u32)
        } else {
            (seq![(ch, 0u8)], 0u32)
        }
    }
}

/// The number of steps of the self-test sequence.
pub const SELF_TEST_STEPS: usize = 78;

/// The self-test sequence: each step's updates and the pause after them.
pub fn self_test_steps() -> (r: Vec<LightStep>)
    ensures
        r@.len() == SELF_TEST_STEPS,
        forall|i: int|
            0 <= i < r@.len() ==> (#[trigger] r@[i]).updates@ == spec_self_test_step(i).0
                && r@[i].wait_ms == spec_self_test_step(i).1,
{
    let mut r: Vec<LightStep> = Vec::new();
    let mut round: usize = 0;
    while round < 3
        invariant
            round <= 3,
            r@.len() == 2 * round,
            forall|i: int|
                0 <= i < r@.len() ==> (#[trigger] r@[i]).updates@ == spec_self_test_step(i).0
                    && r@[i].wait_ms == spec_self_test_step(i).1,
        decreases 3 - round,
    {
        r.push(LightStep { updates: every_channel(255), wait_ms: 250 });
        r.push(LightStep { updates: every_channel(0), wait_ms: 250 });
        round = round + 1;
    }
    let mut ch: usize = 1;
    while ch <= 36
        invariant
            1 <= ch <= 37,
            r@.len() == 6 + 2 * (ch - 1),
            forall|i: int|
                0 <= i < r@.len() ==> (#[trigger] r@[i]).updates@ == spec_self_test_step(i).0
                    && r@[i].wait_ms == spec_self_test_step(i).1,
        decreases 37 - ch,
    {
        let mut on: Vec<LightUpdate> = Vec::new();
        on.push((ch, 255));
        let mut off: Vec<LightUpdate> = Vec::new();
        off.push((ch, 0));
        let ghost n = r@.len() as int;
        assert(on@ =~= spec_self_test_step(n).0);
        assert(off@ =~= spec_self_test_step(n + 1).0);
        r.push(LightStep { updates: on, wait_ms: 50 });
        r.push(LightStep { updates: off, wait_ms: 0 });
        ch = ch + 1;
    }
    r
}

} // verus!
