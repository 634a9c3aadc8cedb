//! The three debug LEDs: the blink pattern, the breathing pattern of
//! configuration mode, and what each command shows. A new command interrupts
//! a pattern at any wait.

use vstd::prelude::*;

verus! {

/// The number of debug LEDs.
pub const LED_COUNT: usize = 3;
/// The period of one breathing step, in microseconds.
pub const CONFIG_DUTY_PERIOD: u16 = 1000;
/// The length of the breathing waveform, in steps: up, down, then dark.
pub const CONFIG_WAVE_LEN: u64 = 3000;
/// The wait at the end of each blink cycle in idle mode, in milliseconds.
pub const IDLE_CYCLE_DELAY_MS: u64 = 10_000;

/// A command to the debug LEDs.
#[derive(Clone, Copy, Debug, PartialEq, Eq)]
pub enum Cmd {
    /// Blink continuously.
    On,
    /// Blink, with a pause after each cycle.
    Idle,
    /// Breathe, each LED a third of the waveform after the previous one.
    Config,
    /// All dark.
    Off,
    /// Each LED lit or dark as given.
    Manual { states: [bool; 3] },
}

/// A change of the LEDs.
#[derive(Clone, Copy, Debug, PartialEq, Eq, Structural)]
pub enum LedChange {
    /// Lights (`true`) or darkens one LED.
    One { led: usize, lit: bool },
    /// Darkens every LED.
    AllOff,
    /// Leaves the LEDs as they are.
    Nothing,
}

/// A change, then a wait.
#[derive(Clone, Copy, Debug, PartialEq, Eq, Structural)]
pub struct TimedStep {
    pub change: LedChange,
    pub wait_ms: u64,
}

/// The steps for one LED in a blink cycle: two flashes of 10ms, 20ms apart,
/// and a gap of 30ms.
pub open spec fn spec_led_blinks(led: usize) -> Seq<TimedStep> {
    seq![
        TimedStep { change: LedChange::One { led, lit: true }, wait_ms: 10 },
        TimedStep { change: LedChange::One { led, lit: false }, wait_ms: 20 },
        TimedStep { change: LedChange::One { led, lit: true }, wait_ms: 10 },
        TimedStep { change: LedChange::One { led, lit: false }, wait_ms: 20 },
        TimedStep { change: LedChange::Nothing, wait_ms: 30 },
    ]
}

/// One blink cycle: each LED in turn, then, where there is a delay, all dark
/// for that long.
pub open spec fn spec_blink_cycle(delay_ms: Option<u64>) -> Seq<TimedStep> {
    spec_led_blinks(0) + spec_led_blinks(1) + spec_led_blinks(2) + match delay_ms {
        Some(d) => seq![TimedStep { change: LedChange::AllOff, wait_ms: d }],
        None => Seq::empty(),
    }
}

fn push_led_blinks(out: &mut Vec<TimedStep>, led: usize)
    ensures
        final(out)@ == old(out)@ + spec_led_blinks(led),
{
    out.push(TimedStep { change: LedChange::One { led, lit: true }, wait_ms: 10 });
    out.push(TimedStep { change: LedChange::One { led, lit: false }, wait_ms: 20 });
    out.push(TimedStep { change: LedChange::One { led, lit: true }, wait_ms: 10 });
    out.push(TimedStep { change: LedChange::One { led, lit: false }, wait_ms: 20 });
    out.push(TimedStep { change: LedChange::Nothing, wait_ms: 30 });
    assert(final(out)@ =~= old(out)@ + spec_led_blinks(led));
}

/// One blink cycle, repeated until a command arrives; see
/// [`spec_blink_cycle`].
pub fn blink_cycle(delay_ms: Option<u64>) -> (r: Vec<TimedStep>)
    ensures
        r@ == spec_blink_cycle(delay_ms),
{
    let mut r: Vec<TimedStep> = Vec::new();
    push_led_blinks(&mut r, 0);
    push_led_blinks(&mut r, 1);
    push_led_blinks(&mut r, 2);
    match delay_ms {
        Some(d) => r.push(TimedStep { change: LedChange::AllOff, wait_ms: d }),
        None => {},
    }
    assert(r@ =~= spec_blink_cycle(delay_ms));
    r
}

/// The breathing waveform: the lit time, in microseconds of each step, at
/// position `k`: rising from 0 to 999, falling from 999 to 0, then 1000 steps
/// dark.
pub open spec fn spec_config_wave(k: int) -> u16 {
    if k < 1000 {
        k as u16
    } else if k < 2000 {
        (1999 - k) as u16
    } else {
        0
    }
}

/// The lit time of LED `led` at step `t`: the waveform, each LED a third of
/// the period (333 steps) ahead of the previous one.
pub open spec fn spec_config_duty(t: nat, led: int) -> u16 {
    spec_config_wave((t + led * (CONFIG_DUTY_PERIOD / 3)) % (CONFIG_WAVE_LEN as int))
}

/// The lit time of each LED at breathing step `t`; see [`spec_config_duty`].
pub fn config_duties(t: u64) -> (r: [u16; 3])
    ensures
        forall|i: int| 0 <= i < 3 ==> #[trigger] r@[i] == spec_config_duty(t as nat, i),
{
    let d0 = wave_at(t % CONFIG_WAVE_LEN);
    let d1 = wave_at((t % CONFIG_WAVE_LEN + 333) % CONFIG_WAVE_LEN);
    let d2 = wave_at((t % CONFIG_WAVE_LEN + 666) % CONFIG_WAVE_LEN);
    proof {
        assert(((t % 3000) + 333) % 3000 == (t + 333) % 3000) by (nonlinear_arith);
        assert(((t % 3000) + 666) % 3000 == (t + 666) % 3000) by (nonlinear_arith);
    }
    let r = [d0, d1, d2];
    assert(r@[0] == spec_config_duty(t as nat, 0));
    assert(r@[1] == spec_config_duty(t as nat, 1));
    assert(r@[2] == spec_config_duty(t as nat, 2));
    r
}

fn wave_at(k: u64) -> (r: u16)
    requires
        k < CONFIG_WAVE_LEN,
    ensures
        r == spec_config_wave(k as int),
{
    if k < 1000 {
        k as u16
    } else if k < 2000 {
        (1999 - k) as u16
    } else {
        0
    }
}

/// One breathing step of one LED: lit for `duty` microseconds (not at all for
/// 0), then dark for the rest of the period.
pub open spec fn spec_duty_steps(led: usize, duty: u16) -> Seq<(LedChange, u64)> {
    if duty > 0 {
        seq![
            (LedChange::One { led, lit: true }, duty as u64),
            (LedChange::One { led, lit: false }, (CONFIG_DUTY_PERIOD - duty) as u64),
        ]
    } else {
        seq![(LedChange::One { led, lit: false }, CONFIG_DUTY_PERIOD as u64)]
    }
}

/// One breathing step of one LED, as changes each followed by a wait in
/// microseconds; see [`spec_duty_steps`].
pub fn duty_steps(led: usize, duty: u16) -> (r: Vec<(LedChange, u64)>)
    requires
        duty <= CONFIG_DUTY_PERIOD,
    ensures
        r@ == spec_duty_steps(led, duty),
{
    let mut r: Vec<(LedChange, u64)> = Vec::new();
    if duty > 0 {
        r.push((LedChange::One { led, lit: true }, duty as u64));
    }
    r.push((LedChange::One { led, lit: false }, (CONFIG_DUTY_PERIOD - duty) as u64));
    assert(r@ =~= spec_duty_steps(led, duty));
    r
}

/// What the LEDs show for a command.
#[derive(Clone, Copy, Debug)]
pub enum Pattern {
    /// Blink cycles, each followed by the delay if there is one.
    Blink { delay_ms: Option<u64> },
    /// The breathing waveform.
    Breathe,
    /// Fixed: each LED lit or dark.
    Fixed { lit: [bool; 3] },
}

/// What the LEDs show for a command: blinking continuously, blinking with a
/// pause, breathing, all dark, or as given.
pub fn pattern_for(cmd: Cmd) -> (r: Pattern)
    ensures
        r == match cmd {
            Cmd::On => Pattern::Blink { delay_ms: None },
            Cmd::Idle => Pattern::Blink { delay_ms: Some(IDLE_CYCLE_DELAY_MS) },
            Cmd::Config => Pattern::Breathe,
            Cmd::Off => Pattern::Fixed { lit: [false, false, false] },
            Cmd::Manual { states } => Pattern::Fixed { lit: states },
        },
{
    match cmd {
        Cmd::On => Pattern::Blink { delay_ms: None },
        Cmd::Idle => Pattern::Blink { delay_ms: Some(IDLE_CYCLE_DELAY_MS) },
        Cmd::Config => Pattern::Breathe,
        Cmd::Off => Pattern::Fixed { lit: [false, false, false] },
        Cmd::Manual { states } => Pattern::Fixed { lit: states },
    }
}

/// Every lit time of the breathing waveform fits in a step.
pub proof fn lemma_config_duty_fits(t: nat, led: int)
    ensures
        spec_config_duty(t, led) < CONFIG_DUTY_PERIOD,
{
}

} // verus!
