//! Register model and fixed-point arithmetic for the board's current/power
//! monitor chip (an INA-style I2C power monitor).

use vstd::prelude::*;

verus! {

/// The I2C address of the power monitor chip.
pub const ADDR: u8 = 0x40;

/// The calibration value at which the current register counts whole milliamps.
pub const MA_CALIBRATION: u16 = 0x0A00;

/// The highest current (in mA) the board reports; above the 2A rating so that
/// excursions stay visible.
pub const BOARD_MAX_RATED_MA: u16 = 4000;

/// Register addresses used by the driver.
pub const REG_CONFIGURATION: u8 = 0x00;
pub const REG_CURRENT: u8 = 0x04;
pub const REG_CALIBRATION: u8 = 0x05;
pub const REG_MASK_ENABLE: u8 = 0x06;
pub const REG_ALERT_LIMIT: u8 = 0x07;
pub const REG_MANUFACTURER_ID: u8 = 0xFE;
pub const REG_DIE_ID: u8 = 0xFF;

/// Number of samples averaged per conversion.
#[derive(Clone, Copy, PartialEq, Eq, Debug)]
pub enum AverageSamples {
    Avg1,
    Avg4,
    Avg16,
    Avg64,
    Avg128,
    Avg256,
    Avg512,
    Avg1024,
}

impl AverageSamples {
    /// The number of samples averaged.
    pub open spec fn sample_count(self) -> nat {
        match self {
            AverageSamples::Avg1 => 1,
            AverageSamples::Avg4 => 4,
            AverageSamples::Avg16 => 16,
            AverageSamples::Avg64 => 64,
            AverageSamples::Avg128 => 128,
            AverageSamples::Avg256 => 256,
            AverageSamples::Avg512 => 512,
            AverageSamples::Avg1024 => 1024,
        }
    }
}

/// Conversion time of the bus or shunt voltage measurement.
#[derive(Clone, Copy, PartialEq, Eq, Debug)]
pub enum ConverstionTime {
    Us140,
    Us204,
    Us332,
    Us588,
    Ms1p1,
    Ms2p116,
    Ms4p156,
    Ms8p244,
}

impl ConverstionTime {
    /// The conversion time, in microseconds.
    pub open spec fn micros(self) -> nat {
        match self {
            ConverstionTime::Us140 => 140,
            ConverstionTime::Us204 => 204,
            ConverstionTime::Us332 => 332,
            ConverstionTime::Us588 => 588,
            ConverstionTime::Ms1p1 => 1100,
            ConverstionTime::Ms2p116 => 2116,
            ConverstionTime::Ms4p156 => 4156,
            ConverstionTime::Ms8p244 => 8244,
        }
    }
}

/// Operating mode of the chip.
#[derive(Clone, Copy, PartialEq, Eq, Debug)]
pub enum Mode {
    PowerDown,
    ShuntVoltageTriggered,
    BusVoltageTriggered,
    ShuntAndBusTriggered,
    PowerDown2,
    ShuntVoltageContinuous,
    BusVoltageContinuous,
    ShuntAndBusContinuous,
}

impl AverageSamples {
    /// The 3-bit field value of this setting.
    pub open spec fn spec_code(self) -> u16 {
        match self {
            AverageSamples::Avg1 => 0,
            AverageSamples::Avg4 => 1,
            AverageSamples::Avg16 => 2,
            AverageSamples::Avg64 => 3,
            AverageSamples::Avg128 => 4,
            AverageSamples::Avg256 => 5,
            AverageSamples::Avg512 => 6,
            AverageSamples::Avg1024 => 7,
        }
    }

    pub fn code(self) -> (r: u16)
        ensures
            r == self.spec_code(),
            r < 8,
    {
        match self {
            AverageSamples::Avg1 => 0,
            AverageSamples::Avg4 => 1,
            AverageSamples::Avg16 => 2,
            AverageSamples::Avg64 => 3,
            AverageSamples::Avg128 => 4,
            AverageSamples::Avg256 => 5,
            AverageSamples::Avg512 => 6,
            AverageSamples::Avg1024 => 7,
        }
    }
}

impl ConverstionTime {
    /// The 3-bit field value of this setting.
    pub open spec fn spec_code(self) -> u16 {
        match self {
            ConverstionTime::Us140 => 0,
            ConverstionTime::Us204 => 1,
            ConverstionTime::Us332 => 2,
            ConverstionTime::Us588 => 3,
            ConverstionTime::Ms1p1 => 4,
            ConverstionTime::Ms2p116 => 5,
            ConverstionTime::Ms4p156 => 6,
            ConverstionTime::Ms8p244 => 7,
        }
    }

    pub fn code(self) -> (r: u16)
        ensures
            r == self.spec_code(),
            r < 8,
    {
        match self {
            ConverstionTime::Us140 => 0,
            ConverstionTime::Us204 => 1,
            ConverstionTime::Us332 => 2,
            ConverstionTime::Us588 => 3,
            ConverstionTime::Ms1p1 => 4,
            ConverstionTime::Ms2p116 => 5,
            ConverstionTime::Ms4p156 => 6,
            ConverstionTime::Ms8p244 => 7,
        }
    }
}

impl Mode {
    /// The 3-bit field value of this setting.
    pub open spec fn spec_code(self) -> u16 {
        match self {
            Mode::PowerDown => 0,
            Mode::ShuntVoltageTriggered => 1,
            Mode::BusVoltageTriggered => 2,
            Mode::ShuntAndBusTriggered => 3,
            Mode::PowerDown2 => 4,
            Mode::ShuntVoltageContinuous => 5,
            Mode::BusVoltageContinuous => 6,
            Mode::ShuntAndBusContinuous => 7,
        }
    }

    pub fn code(self) -> (r: u16)
        ensures
            r == self.spec_code(),
            r < 8,
    {
        match self {
            Mode::PowerDown => 0,
            Mode::ShuntVoltageTriggered => 1,
            Mode::BusVoltageTriggered => 2,
            Mode::ShuntAndBusTriggered => 3,
            Mode::PowerDown2 => 4,
            Mode::ShuntVoltageContinuous => 5,
            Mode::BusVoltageContinuous => 6,
            Mode::ShuntAndBusContinuous => 7,
        }
    }
}

impl Mode {
    /// Whether the chip measures the shunt voltage in this mode.
    pub open spec fn measures_shunt(self) -> bool {
        self is ShuntVoltageTriggered || self is ShuntAndBusTriggered
            || self is ShuntVoltageContinuous || self is ShuntAndBusContinuous
    }

    /// Whether the chip measures the bus voltage in this mode.
    pub open spec fn measures_bus(self) -> bool {
        self is BusVoltageTriggered || self is ShuntAndBusTriggered
            || self is BusVoltageContinuous || self is ShuntAndBusContinuous
    }

    /// Whether the chip measures continuously rather than once when triggered.
    pub open spec fn continuous(self) -> bool {
        self is ShuntVoltageContinuous || self is BusVoltageContinuous
            || self is ShuntAndBusContinuous
    }
}

/// The configuration register (register 0x00).
#[derive(Clone, Copy, PartialEq, Eq, Debug)]
pub struct Configuration(pub u16);

/// The value of bits `shift..shift + 3` of `v`.
pub open spec fn field3(v: u16, shift: u16) -> u16 {
    (v >> shift) & 7
}

impl Configuration {
    /// An all-zero configuration.
    pub fn new() -> (r: Self)
        ensures
            r.0 == 0,
    {
        Configuration(0x0000)
    }

    /// The configuration that, once written, resets the chip.
    pub fn reset() -> (r: Self)
        ensures
            r.0 == 0x8000,
    {
        Configuration(0x8000)
    }

    /// The value the chip reports after a reset.
    pub fn default_value() -> (r: Self)
        ensures
            r.0 == 0x4127,
    {
        Configuration(0x4127)
    }

    /// Sets the averaging field (bits 9..12).
    pub fn with_average_samples(self, samples: AverageSamples) -> (r: Self)
        ensures
            r.0 == (self.0 & !(7u16 << 9u16)) | (samples.spec_code() << 9u16),
    {
        Configuration((self.0 & !(0b111u16 << 9u16)) | (samples.code() << 9u16))
    }

    /// Sets the bus conversion time field (bits 6..9).
    pub fn with_bus_conversion_time(self, time: ConverstionTime) -> (r: Self)
        ensures
            r.0 == (self.0 & !(7u16 << 6u16)) | (time.spec_code() << 6u16),
    {
        Configuration((self.0 & !(0b111u16 << 6u16)) | (time.code() << 6u16))
    }

    /// Sets the shunt conversion time field (bits 3..6).
    pub fn with_shunt_conversion_time(self, time: ConverstionTime) -> (r: Self)
        ensures
            r.0 == (self.0 & !(7u16 << 3u16)) | (time.spec_code() << 3u16),
    {
        Configuration((self.0 & !(0b111u16 << 3u16)) | (time.code() << 3u16))
    }

    /// Sets the mode field (bits 0..3).
    pub fn with_mode(self, mode: Mode) -> (r: Self)
        ensures
            r.0 == (self.0 & !7u16) | mode.spec_code(),
    {
        Configuration((self.0 & !0b111u16) | mode.code())
    }

    pub fn from_u16(value: u16) -> (r: Self)
        ensures
            r.0 == value,
    {
        Configuration(value)
    }

    pub fn to_u16(self) -> (r: u16)
        ensures
            r == self.0,
    {
        self.0
    }
}


/// The mask/enable register (register 0x06): which condition drives the alert
/// pin, and how.
#[derive(Clone, Copy, PartialEq, Eq, Debug)]
pub struct MaskEnableRegister(pub u16);

impl MaskEnableRegister {
    /// No alert source enabled.
    pub fn new() -> (r: Self)
        ensures
            r.0 == 0,
    {
        MaskEnableRegister(0)
    }

    /// Alert on shunt over-voltage (bit 15).
    pub fn with_shunt_overvoltage(self) -> (r: Self)
        ensures
            r.0 == self.0 | 0x8000,
    {
        MaskEnableRegister(self.0 | 0x8000u16)
    }

    /// Alert on shunt under-voltage (bit 14).
    pub fn with_shunt_undervoltage(self) -> (r: Self)
        ensures
            r.0 == self.0 | 0x4000,
    {
        MaskEnableRegister(self.0 | 0x4000u16)
    }

    /// Alert on bus over-voltage (bit 13).
    pub fn with_bus_overvoltage(self) -> (r: Self)
        ensures
            r.0 == self.0 | 0x2000,
    {
        MaskEnableRegister(self.0 | 0x2000u16)
    }

    /// Alert on bus under-voltage (bit 12).
    pub fn with_bus_undervoltage(self) -> (r: Self)
        ensures
            r.0 == self.0 | 0x1000,
    {
        MaskEnableRegister(self.0 | 0x1000u16)
    }

    /// Alert when the power register exceeds the limit (bit 11).
    pub fn with_power_over_limit(self) -> (r: Self)
        ensures
            r.0 == self.0 | 0x0800,
    {
        MaskEnableRegister(self.0 | 0x0800u16)
    }

    /// Alert when a conversion is ready (bit 10).
    pub fn with_conversion_ready(self) -> (r: Self)
        ensures
            r.0 == self.0 | 0x0400,
    {
        MaskEnableRegister(self.0 | 0x0400u16)
    }

    /// Invert the alert pin's polarity (bit 1).
    pub fn with_alert_polarity_invert(self) -> (r: Self)
        ensures
            r.0 == self.0 | 0x0002,
    {
        MaskEnableRegister(self.0 | 0x0002u16)
    }

    /// Latch the alert pin until the register is read (bit 0).
    pub fn with_alert_latch(self) -> (r: Self)
        ensures
            r.0 == self.0 | 0x0001,
    {
        MaskEnableRegister(self.0 | 0x0001u16)
    }

    /// The same as [`MaskEnableRegister::new`].
    pub fn default_value() -> (r: Self)
        ensures
            r.0 == 0,
    {
        Self::new()
    }

    pub fn from_u16(v: u16) -> (r: Self)
        ensures
            r.0 == v,
    {
        MaskEnableRegister(v)
    }

    pub fn to_u16(self) -> (r: u16)
        ensures
            r == self.0,
    {
        self.0
    }
}

/// The bus voltage register value for a voltage in millivolts (1.25mV per
/// bit, computed as `mV * 8 / 10`).
pub open spec fn spec_bus_voltage(millivolts: u16) -> int {
    (millivolts * 8) / 10
}

/// The shunt value that yields `milliamps` at the whole-milliamp calibration.
pub open spec fn spec_shunt_at_ma(milliamps: u16) -> int {
    (milliamps * 2048) / (MA_CALIBRATION as int)
}

/// The unrounded alert power value of [`calculate_alert_power_value`], before
/// it is narrowed to 16 bits.
pub open spec fn spec_alert_power(millivolts: u16, milliamp_limit: u16, calibration: u16) -> int {
    let current_limit = (spec_shunt_at_ma(milliamp_limit) * calibration) / 2048;
    (spec_bus_voltage(millivolts) * current_limit) / 20_000
}

/// Calculates the power register level at which the alert must trigger, given
/// the expected bus voltage (mV), the current limit (mA) and the calibration
/// register.
///
/// The power register is `BusVoltage * Current / 20000`; the bus voltage
/// register counts 1.25mV per bit, and the current register is
/// `ShuntVoltage * Calibration / 2048`.
///
/// The product of the bus voltage and the current limit must fit in 32 bits.
pub fn calculate_alert_power_value(millivolts: u16, milliamp_limit: u16, calibration: u16) -> (r:
    u16)
    requires
        spec_bus_voltage(millivolts) * ((spec_shunt_at_ma(milliamp_limit) * calibration) / 2048)
            <= u32::MAX,
    ensures
        r == spec_alert_power(millivolts, milliamp_limit, calibration) as u16,
{
    let mv: u32 = millivolts as u32;
    let ma: u32 = milliamp_limit as u32;
    let cal: u32 = calibration as u32;
    let bus_voltage: u32 = (mv * 8) / 10;
    let shunt_at_ma: u32 = (ma * 2048) / (MA_CALIBRATION as u32);
    assert(shunt_at_ma * cal <= u32::MAX) by (nonlinear_arith)
        requires
            shunt_at_ma <= 52428,
            cal <= 65535,
    ;
    let current_limit: u32 = (shunt_at_ma * cal) / 2048;
    let power: u32 = (bus_voltage * current_limit) / 20_000;
    power as u16
}

/// The unrounded calibration value of [`calculate_high_res_calibration`].
pub open spec fn spec_high_res_calibration(max_rated_ma: u16) -> int {
    (i16::MAX as int * 2048) / spec_shunt_at_ma(max_rated_ma)
}

/// Calculates the calibration register value that makes the maximum rated
/// current (mA) the highest reportable current, for the best resolution.
///
/// The current must be at least 2mA: below that the intermediate shunt value is
/// zero and the division has no result.
pub fn calculate_high_res_calibration(max_rated_ma: u16) -> (r: u16)
    requires
        spec_shunt_at_ma(max_rated_ma) > 0,
    ensures
        r == spec_high_res_calibration(max_rated_ma) as u16,
{
    let ma: u32 = max_rated_ma as u32;
    let shunt_at_ma: u32 = (ma * 2048) / (MA_CALIBRATION as u32);
    let max_value: u32 = 32767;
    ((max_value * 2048) / shunt_at_ma) as u16
}

/// The current in microamps that [`calculate_ma_from_calibration`] derives from
/// the current register and the calibration register.
pub open spec fn spec_current_ua(current_register: u16, calibration: u16) -> int {
    let shunt_value = (current_register * 2048) / (calibration as int);
    (shunt_value * (MA_CALIBRATION * 1000)) / 2048
}

/// Converts the current register to `(milliamps, microamps)`, the integer and
/// the three-digit fractional part of the current in milliamps.
///
/// The calibration must be non-zero. The arithmetic is done in 64 bits, so
/// every register value is converted exactly.
pub fn calculate_ma_from_calibration(current_register: u16, calibration: u16) -> (r: (u16, u16))
    requires
        calibration != 0,
    ensures
        r.0 == (spec_current_ua(current_register, calibration) / 1000) as u16,
        r.1 == spec_current_ua(current_register, calibration) % 1000,
{
    let reg: u64 = current_register as u64;
    let cal: u64 = calibration as u64;
    let shunt_value: u64 = (reg * 2048) / cal;
    let scale: u64 = (MA_CALIBRATION as u64) * 1000;
    assert(shunt_value <= reg * 2048) by (nonlinear_arith)
        requires
            cal >= 1,
            shunt_value == (reg * 2048) / (cal as int),
    ;
    assert(shunt_value * scale <= 0xFFFF * 2048 * 2_560_000) by (nonlinear_arith)
        requires
            shunt_value <= 0xFFFFu64 * 2048,
            scale == 2_560_000,
    ;
    let current_ua: u64 = (shunt_value * scale) / 2048;
    ((current_ua / 1000) as u16, (current_ua % 1000) as u16)
}

/// The board current (mA) at which the power monitor raises its over-current
/// alert.
pub const ALERT_ON_CURRENT_MA: u16 = 1900;

/// The board's supply voltage in millivolts.
pub const BOARD_SUPPLY_MV: u16 = 5000;

/// The three bytes of an I2C register write: the register address followed by
/// the value, high byte first.
pub fn register_write_frame(reg: u8, value: u16) -> (r: [u8; 3])
    ensures
        r@ == seq![reg, (value / 256) as u8, (value % 256) as u8],
{
    let r: [u8; 3] = [reg, (value >> 8u16) as u8, (value & 0xFFu16) as u8];
    assert((value >> 8u16) as u8 == (value / 256) as u8 && (value & 0xFFu16) as u8 == (value % 256)
        as u8) by (bit_vector);
    assert(r@ =~= seq![reg, (value / 256) as u8, (value % 256) as u8]);
    r
}

/// The register value read back from the chip, high byte first.
pub fn register_read_value(buf: [u8; 2]) -> (r: u16)
    ensures
        r == buf[0] * 256 + buf[1],
{
    let hi: u16 = buf[0] as u16;
    let lo: u16 = buf[1] as u16;
    hi * 256 + lo
}

/// Whether the configuration register read back after a reset holds the
/// chip's documented reset value.
pub fn reset_succeeded(readback: u16) -> (r: bool)
    ensures
        r == (readback == 0x4127),
{
    readback == Configuration::default_value().0
}

/// The configuration the driver programs: 64-sample averaging, 140us bus and
/// shunt conversions, continuous shunt and bus measurement.
pub fn board_configuration() -> (r: Configuration)
    ensures
        r.0 == 0x0607,
{
    let c = Configuration::new().with_average_samples(AverageSamples::Avg64).with_bus_conversion_time(
        ConverstionTime::Us140,
    ).with_shunt_conversion_time(ConverstionTime::Us140).with_mode(Mode::ShuntAndBusContinuous);
    assert((0u16 & !(7u16 << 9u16)) | (3u16 << 9u16) == 0x0600u16 && (0x0600u16 & !(7u16 << 6u16)) | (
    0u16 << 6u16) == 0x0600u16 && (0x0600u16 & !(7u16 << 3u16)) | (0u16 << 3u16) == 0x0600u16 && (
    0x0600u16 & !7u16) | 7u16 == 0x0607u16) by (bit_vector);
    c
}

/// The register writes that configure the chip once it has been reset, in
/// order: configuration, alert source (power over limit, latched), alert
/// limit for the board's over-current threshold, and calibration.
pub fn setup_writes() -> (r: Vec<(u8, u16)>)
    ensures
        r@ == seq![
            (REG_CONFIGURATION, 0x0607u16),
            (REG_MASK_ENABLE, 0x0801u16),
            (REG_ALERT_LIMIT, spec_alert_power(
                BOARD_SUPPLY_MV,
                ALERT_ON_CURRENT_MA,
                spec_high_res_calibration(BOARD_MAX_RATED_MA) as u16,
            ) as u16),
            (REG_CALIBRATION, spec_high_res_calibration(BOARD_MAX_RATED_MA) as u16),
        ],
{
    let calibration = calculate_high_res_calibration(BOARD_MAX_RATED_MA);
    assert(spec_shunt_at_ma(BOARD_MAX_RATED_MA) == 3200);
    assert((32767int * 2048) / 3200 == 20970);
    assert(calibration == 20970);
    assert(spec_bus_voltage(BOARD_SUPPLY_MV) == 4000);
    assert(spec_shunt_at_ma(ALERT_ON_CURRENT_MA) == 1520);
    assert((1520int * 20970) / 2048 == 15563);
    let config = board_configuration();
    let mask = MaskEnableRegister::new().with_power_over_limit().with_alert_latch();
    assert(0u16 | 0x0800u16 | 0x0001u16 == 0x0801u16) by (bit_vector);
    let alert = calculate_alert_power_value(BOARD_SUPPLY_MV, ALERT_ON_CURRENT_MA, calibration);
    let mut r: Vec<(u8, u16)> = Vec::new();
    r.push((REG_CONFIGURATION, config.0));
    r.push((REG_MASK_ENABLE, mask.0));
    r.push((REG_ALERT_LIMIT, alert));
    r.push((REG_CALIBRATION, calibration));
    r
}

/// The chip numbers its averaging settings by the number of samples: a
/// setting that averages more samples has a higher 3-bit code. With eight
/// settings and eight codes, the fewest samples (1) take code 0 and the most
/// (1024) code 7, so 256 samples take 5 and 512 take 6.
pub proof fn lemma_average_codes_follow_sample_counts(a: AverageSamples, b: AverageSamples)
    ensures
        a.spec_code() < 8,
        a.sample_count() < b.sample_count() <==> a.spec_code() < b.spec_code(),
        a.sample_count() == b.sample_count() <==> a.spec_code() == b.spec_code(),
{
}

/// The chip numbers its conversion times by length: a longer conversion has a
/// higher 3-bit code, from 140us at 0 to 8.244ms at 7.
pub proof fn lemma_conversion_codes_follow_times(a: ConverstionTime, b: ConverstionTime)
    ensures
        a.spec_code() < 8,
        a.micros() < b.micros() <==> a.spec_code() < b.spec_code(),
        a.micros() == b.micros() <==> a.spec_code() == b.spec_code(),
{
}

/// The chip's mode field is three flags: bit 0 selects the shunt voltage,
/// bit 1 the bus voltage, bit 2 continuous measurement. A mode that measures
/// nothing powers the chip down (codes 0 and 4).
pub proof fn lemma_mode_code_bits(m: Mode)
    ensures
        m.spec_code() < 8,
        m.measures_shunt() <==> m.spec_code() % 2 == 1,
        m.measures_bus() <==> (m.spec_code() / 2) % 2 == 1,
        (m.measures_shunt() || m.measures_bus()) ==> (m.continuous() <==> m.spec_code() >= 4),
        !(m.measures_shunt() || m.measures_bus()) <==> (m is PowerDown || m is PowerDown2),
{
}

/// Setting a configuration field stores exactly that field's code and leaves
/// every other bit of the register as it was.
pub proof fn lemma_set_field(v: u16, c: u16, shift: u16)
    by (bit_vector)
    requires
        c < 8,
        shift == 0 || shift == 3 || shift == 6 || shift == 9,
    ensures
        ((((v & !(7u16 << shift)) | (c << shift)) >> shift) & 7) == c,
        forall|other: u16|
            (other == 0 || other == 3 || other == 6 || other == 9) && other != shift ==> ((((v
                & !(7u16 << shift)) | (c << shift)) >> other) & 7) == ((v >> other) & 7),
        (((v & !(7u16 << shift)) | (c << shift)) >> 12u16) == (v >> 12u16),
{
}

/// Each configuration setter writes its own 3-bit field and keeps the other
/// fields and the top nibble: the averaging field is bits 9..12, the bus
/// conversion time bits 6..9, the shunt conversion time bits 3..6 and the mode
/// bits 0..3.
pub proof fn lemma_configuration_setters(
    c: Configuration,
    samples: AverageSamples,
    time: ConverstionTime,
    mode: Mode,
)
    ensures
        ({
            let r = (c.0 & !(7u16 << 9u16)) | (samples.spec_code() << 9u16);
            field3(r, 9) == samples.spec_code() && field3(r, 6) == field3(c.0, 6) && field3(r, 3)
                == field3(c.0, 3) && field3(r, 0) == field3(c.0, 0) && (r >> 12u16) == (c.0 >> 12u16)
        }),
        ({
            let r = (c.0 & !(7u16 << 6u16)) | (time.spec_code() << 6u16);
            field3(r, 6) == time.spec_code() && field3(r, 9) == field3(c.0, 9) && field3(r, 3)
                == field3(c.0, 3) && field3(r, 0) == field3(c.0, 0) && (r >> 12u16) == (c.0 >> 12u16)
        }),
        ({
            let r = (c.0 & !(7u16 << 3u16)) | (time.spec_code() << 3u16);
            field3(r, 3) == time.spec_code() && field3(r, 9) == field3(c.0, 9) && field3(r, 6)
                == field3(c.0, 6) && field3(r, 0) == field3(c.0, 0) && (r >> 12u16) == (c.0 >> 12u16)
        }),
        ({
            let r = (c.0 & !7u16) | mode.spec_code();
            field3(r, 0) == mode.spec_code() && field3(r, 9) == field3(c.0, 9) && field3(r, 6)
                == field3(c.0, 6) && field3(r, 3) == field3(c.0, 3) && (r >> 12u16) == (c.0 >> 12u16)
        }),
{
    lemma_set_field(c.0, samples.spec_code(), 9);
    lemma_set_field(c.0, time.spec_code(), 6);
    lemma_set_field(c.0, time.spec_code(), 3);
    lemma_set_field(c.0, mode.spec_code(), 0);
    let (v, m) = (c.0, mode.spec_code());
    assert((v & !(7u16 << 0u16)) | (m << 0u16) == (v & !7u16) | m) by (bit_vector);
}

} // verus!
