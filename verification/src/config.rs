//! The board's configuration options, received as MQTT messages: the value
//! types they hold, how a message's payload is read, and the option that hands
//! out its default once and then each newly received value.

use vstd::prelude::*;
use vstd::utf8::{decode_utf8, valid_utf8};
use crate::text::{parse_u64, spec_parse_u64, str_eq};

verus! {

/// How the system under test is powered.
#[derive(Clone, Copy, Debug, PartialEq, Eq, Structural)]
pub enum PowerType {
    Usb,
    UsbVbus,
    Psu,
}

impl PowerType {
    /// `usb`, `vbus` or `psu`.
    pub open spec fn spec_from_str(s: Seq<char>) -> Result<PowerType, ()> {
        if s == "usb"@ {
            Ok(PowerType::Usb)
        } else if s == "vbus"@ {
            Ok(PowerType::UsbVbus)
        } else if s == "psu"@ {
            Ok(PowerType::Psu)
        } else {
            Err(())
        }
    }

    /// Reads a power type; see [`PowerType::spec_from_str`].
    pub fn from_str(s: &str) -> (r: Result<PowerType, ()>)
        ensures
            r == Self::spec_from_str(s@),
    {
        if str_eq(s, "usb") {
            Ok(PowerType::Usb)
        } else if str_eq(s, "vbus") {
            Ok(PowerType::UsbVbus)
        } else if str_eq(s, "psu") {
            Ok(PowerType::Psu)
        } else {
            Err(())
        }
    }
}

/// Which USB interface of the system under test is used.
#[derive(Clone, Copy, Debug, PartialEq, Eq, Structural)]
pub enum UsbIface {
    Port,
    Header,
}

impl UsbIface {
    /// `port` or `header`.
    pub open spec fn spec_from_str(s: Seq<char>) -> Result<UsbIface, ()> {
        if s == "port"@ {
            Ok(UsbIface::Port)
        } else if s == "header"@ {
            Ok(UsbIface::Header)
        } else {
            Err(())
        }
    }

    /// Reads a USB interface; see [`UsbIface::spec_from_str`].
    pub fn from_str(s: &str) -> (r: Result<UsbIface, ()>)
        ensures
            r == Self::spec_from_str(s@),
    {
        if str_eq(s, "port") {
            Ok(UsbIface::Port)
        } else if str_eq(s, "header") {
            Ok(UsbIface::Header)
        } else {
            Err(())
        }
    }
}

/// Where the system under test boots from.
#[derive(Clone, Copy, Debug, PartialEq, Eq, Structural)]
pub enum BootSource {
    UsbMsd,
    Sd,
}

impl BootSource {
    /// `usb_msd` or `sd`.
    pub open spec fn spec_from_str(s: Seq<char>) -> Result<BootSource, ()> {
        if s == "usb_msd"@ {
            Ok(BootSource::UsbMsd)
        } else if s == "sd"@ {
            Ok(BootSource::Sd)
        } else {
            Err(())
        }
    }

    /// Reads a boot source; see [`BootSource::spec_from_str`].
    pub fn from_str(s: &str) -> (r: Result<BootSource, ()>)
        ensures
            r == Self::spec_from_str(s@),
    {
        if str_eq(s, "usb_msd") {
            Ok(BootSource::UsbMsd)
        } else if str_eq(s, "sd") {
            Ok(BootSource::Sd)
        } else {
            Err(())
        }
    }
}

/// How long the board stays awake for Wake-on-LAN before it sleeps.
#[derive(Clone, Copy, Debug, PartialEq, Eq, Structural)]
pub enum Wol {
    Off,
    Mins5,
    Mins10,
    Mins30,
}

impl Wol {
    /// `off`, `5m`, `10m` or `30m`.
    pub open spec fn spec_from_str(s: Seq<char>) -> Result<Wol, ()> {
        if s == "off"@ {
            Ok(Wol::Off)
        } else if s == "5m"@ {
            Ok(Wol::Mins5)
        } else if s == "10m"@ {
            Ok(Wol::Mins10)
        } else if s == "30m"@ {
            Ok(Wol::Mins30)
        } else {
            Err(())
        }
    }

    /// Reads a Wake-on-LAN setting; see [`Wol::spec_from_str`].
    pub fn from_str(s: &str) -> (r: Result<Wol, ()>)
        ensures
            r == Self::spec_from_str(s@),
    {
        if str_eq(s, "off") {
            Ok(Wol::Off)
        } else if str_eq(s, "5m") {
            Ok(Wol::Mins5)
        } else if str_eq(s, "10m") {
            Ok(Wol::Mins10)
        } else if str_eq(s, "30m") {
            Ok(Wol::Mins30)
        } else {
            Err(())
        }
    }
}

/// `true` or `false`, as the standard library reads a boolean.
pub open spec fn spec_bool_from_str(s: Seq<char>) -> Result<bool, ()> {
    if s == "true"@ {
        Ok(true)
    } else if s == "false"@ {
        Ok(false)
    } else {
        Err(())
    }
}

/// Reads a boolean; see [`spec_bool_from_str`].
pub fn bool_from_str(s: &str) -> (r: Result<bool, ()>)
    ensures
        r == spec_bool_from_str(s@),
{
    if str_eq(s, "true") {
        Ok(true)
    } else if str_eq(s, "false") {
        Ok(false)
    } else {
        Err(())
    }
}

/// The text of `bytes`, if they are valid UTF-8.
///
/// Calls `core::str::from_utf8`, which its documentation says accepts exactly
/// the valid UTF-8 byte sequences and keeps their characters.
#[verifier::external_body]
fn str_from_utf8(bytes: &[u8]) -> (r: Option<&str>)
    ensures
        r is Some <==> valid_utf8(bytes@),
        r matches Some(s) ==> s@ == decode_utf8(bytes@),
{
    core::str::from_utf8(bytes).ok()
}

/// A value that a configuration message can carry: the payload is UTF-8 text
/// that reads as the value.
pub trait ConfigValue: Sized {
    /// Whether a payload reads as a value.
    spec fn spec_accepts(payload: Seq<u8>) -> bool;

    /// Whether `v` is the value that a payload reads as.
    spec fn spec_reads_as(payload: Seq<u8>, v: Self) -> bool;

    /// Reads a payload.
    fn from_payload(payload: &[u8]) -> (r: Option<Self>)
        ensures
            r is Some <==> Self::spec_accepts(payload@),
            r matches Some(v) ==> Self::spec_reads_as(payload@, v),
    ;
}

/// The value of a payload that reads as text, by the reader `f`.
pub open spec fn spec_text_value<T>(payload: Seq<u8>, f: spec_fn(Seq<char>) -> Result<T, ()>) -> Option<
    T,
> {
    if valid_utf8(payload) {
        f(decode_utf8(payload)).ok()
    } else {
        None
    }
}

impl ConfigValue for PowerType {
    open spec fn spec_accepts(payload: Seq<u8>) -> bool {
        spec_text_value(payload, |t: Seq<char>| PowerType::spec_from_str(t)) is Some
    }

    open spec fn spec_reads_as(payload: Seq<u8>, v: PowerType) -> bool {
        spec_text_value(payload, |t: Seq<char>| PowerType::spec_from_str(t)) == Some(v)
    }

    fn from_payload(payload: &[u8]) -> (r: Option<PowerType>) {
        match str_from_utf8(payload) {
            Some(s) => PowerType::from_str(s).ok(),
            None => None,
        }
    }
}

impl ConfigValue for UsbIface {
    open spec fn spec_accepts(payload: Seq<u8>) -> bool {
        spec_text_value(payload, |t: Seq<char>| UsbIface::spec_from_str(t)) is Some
    }

    open spec fn spec_reads_as(payload: Seq<u8>, v: UsbIface) -> bool {
        spec_text_value(payload, |t: Seq<char>| UsbIface::spec_from_str(t)) == Some(v)
    }

    fn from_payload(payload: &[u8]) -> (r: Option<UsbIface>) {
        match str_from_utf8(payload) {
            Some(s) => UsbIface::from_str(s).ok(),
            None => None,
        }
    }
}

impl ConfigValue for BootSource {
    open spec fn spec_accepts(payload: Seq<u8>) -> bool {
        spec_text_value(payload, |t: Seq<char>| BootSource::spec_from_str(t)) is Some
    }

    open spec fn spec_reads_as(payload: Seq<u8>, v: BootSource) -> bool {
        spec_text_value(payload, |t: Seq<char>| BootSource::spec_from_str(t)) == Some(v)
    }

    fn from_payload(payload: &[u8]) -> (r: Option<BootSource>) {
        match str_from_utf8(payload) {
            Some(s) => BootSource::from_str(s).ok(),
            None => None,
        }
    }
}

impl ConfigValue for Wol {
    open spec fn spec_accepts(payload: Seq<u8>) -> bool {
        spec_text_value(payload, |t: Seq<char>| Wol::spec_from_str(t)) is Some
    }

    open spec fn spec_reads_as(payload: Seq<u8>, v: Wol) -> bool {
        spec_text_value(payload, |t: Seq<char>| Wol::spec_from_str(t)) == Some(v)
    }

    fn from_payload(payload: &[u8]) -> (r: Option<Wol>) {
        match str_from_utf8(payload) {
            Some(s) => Wol::from_str(s).ok(),
            None => None,
        }
    }
}

impl ConfigValue for bool {
    open spec fn spec_accepts(payload: Seq<u8>) -> bool {
        spec_text_value(payload, |t: Seq<char>| spec_bool_from_str(t)) is Some
    }

    open spec fn spec_reads_as(payload: Seq<u8>, v: bool) -> bool {
        spec_text_value(payload, |t: Seq<char>| spec_bool_from_str(t)) == Some(v)
    }

    fn from_payload(payload: &[u8]) -> (r: Option<bool>) {
        match str_from_utf8(payload) {
            Some(s) => bool_from_str(s).ok(),
            None => None,
        }
    }
}

impl ConfigValue for u64 {
    open spec fn spec_accepts(payload: Seq<u8>) -> bool {
        valid_utf8(payload) && spec_parse_u64(payload) is Some
    }

    open spec fn spec_reads_as(payload: Seq<u8>, v: u64) -> bool {
        valid_utf8(payload) && spec_parse_u64(payload) == Some(v)
    }

    fn from_payload(payload: &[u8]) -> (r: Option<u64>) {
        match str_from_utf8(payload) {
            Some(_) => parse_u64(payload),
            None => None,
        }
    }
}

/// The most bytes a text option holds.
pub const CONFIG_TEXT_CAPACITY: usize = 64;

/// A text option's value: at most [`CONFIG_TEXT_CAPACITY`] bytes of UTF-8.
#[derive(Clone, Debug, PartialEq, Eq)]
pub struct ConfigText(pub String);

impl ConfigValue for ConfigText {
    open spec fn spec_accepts(payload: Seq<u8>) -> bool {
        valid_utf8(payload) && payload.len() <= CONFIG_TEXT_CAPACITY
    }

    open spec fn spec_reads_as(payload: Seq<u8>, v: ConfigText) -> bool {
        v.0@ == decode_utf8(payload)
    }

    fn from_payload(payload: &[u8]) -> (r: Option<ConfigText>) {
        match str_from_utf8(payload) {
            Some(s) => if payload.len() <= CONFIG_TEXT_CAPACITY {
                Some(ConfigText(s.to_owned()))
            } else {
                None
            },
            None => None,
        }
    }
}

/// A value that can be taken out once.
pub struct OnceValue<T> {
    value: Option<T>,
}

impl<T> OnceValue<T> {
    /// The value, while it has not been taken.
    pub closed spec fn peek(&self) -> Option<T> {
        self.value
    }

    /// Holds `v` until it is taken.
    pub fn new(v: T) -> (r: Self)
        ensures
            r.peek() == Some(v),
    {
        OnceValue { value: Some(v) }
    }

    /// The value on the first call; `None` on every later one.
    pub fn take(&mut self) -> (r: Option<T>)
        ensures
            r == old(self).peek(),
            final(self).peek() is None,
            r == spec_takes(old(self).peek(), 1)[0],
    {
        self.value.take()
    }
}

/// The results of `k` calls of [`OnceValue::take`] on a value that holds
/// `held`: the first hands out what is held, and leaves nothing behind.
pub open spec fn spec_takes<T>(held: Option<T>, k: nat) -> Seq<Option<T>>
    decreases k,
{
    if k == 0 {
        Seq::empty()
    } else {
        seq![held] + spec_takes(None, (k - 1) as nat)
    }
}

/// Of any number of calls of `take` on `OnceValue::new(v)`, the first returns
/// `v` and every other returns `None`: at most one returns a value.
pub proof fn lemma_once_value_single_use<T>(v: T, k: nat)
    ensures
        spec_takes(Some(v), k).len() == k,
        k >= 1 ==> spec_takes(Some(v), k)[0] == Some(v),
        forall|i: int| 1 <= i < k ==> #[trigger] spec_takes(Some(v), k)[i] is None,
{
    if k >= 1 {
        lemma_takes_none::<T>((k - 1) as nat);
        let rest = spec_takes(None::<T>, (k - 1) as nat);
        assert(spec_takes(Some(v), k) == seq![Some(v)] + rest);
        assert forall|i: int| 1 <= i < k implies #[trigger] spec_takes(Some(v), k)[i] is None by {
            assert(spec_takes(Some(v), k)[i] == rest[i - 1]);
        }
    }
}

proof fn lemma_takes_none<T>(k: nat)
    ensures
        spec_takes(None::<T>, k).len() == k,
        forall|i: int| 0 <= i < k ==> #[trigger] spec_takes(None::<T>, k)[i] is None,
    decreases k,
{
    if k >= 1 {
        lemma_takes_none::<T>((k - 1) as nat);
        let rest = spec_takes(None::<T>, (k - 1) as nat);
        assert forall|i: int| 0 <= i < k implies #[trigger] spec_takes(None::<T>, k)[i] is None by {
            if i > 0 {
                assert(spec_takes(None::<T>, k)[i] == rest[i - 1]);
            }
        }
    }
}

/// A configuration option: the suffix of its topic, the default that is
/// handed out before any received value, and the last received value not yet
/// handed out.
pub struct Opt<T> {
    topic_suffix: &'static str,
    default: OnceValue<Option<T>>,
    received: Option<T>,
}

impl<T> Opt<T> {
    /// The topic suffix.
    pub closed spec fn spec_suffix(&self) -> &'static str {
        self.topic_suffix
    }

    /// The default, while it has not been handed out: `Some(None)` for an
    /// option without one.
    pub closed spec fn spec_default(&self) -> Option<Option<T>> {
        self.default.peek()
    }

    /// The last received value not yet handed out.
    pub closed spec fn spec_received(&self) -> Option<T> {
        self.received
    }

    /// An option without a default.
    pub fn new(suffix: &'static str) -> (r: Self)
        ensures
            r.spec_suffix() == suffix,
            r.spec_default() == Some(None::<T>),
            r.spec_received() is None,
    {
        Opt { topic_suffix: suffix, default: OnceValue::new(None), received: None }
    }

    /// An option whose first value is `default`.
    pub fn new_with_default(suffix: &'static str, default: T) -> (r: Self)
        ensures
            r.spec_suffix() == suffix,
            r.spec_default() == Some(Some(default)),
            r.spec_received() is None,
    {
        Opt { topic_suffix: suffix, default: OnceValue::new(Some(default)), received: None }
    }

    /// The topic suffix.
    pub fn suffix(&self) -> (r: &'static str)
        ensures
            r == self.spec_suffix(),
    {
        self.topic_suffix
    }

    /// The next value: the default the first time, if there is one; else the
    /// last received value, once. `None` means that the caller waits for a
    /// message.
    pub fn next(&mut self) -> (r: Option<T>)
        ensures
            final(self).spec_suffix() == old(self).spec_suffix(),
            final(self).spec_default() is None,
            match old(self).spec_default() {
                Some(Some(d)) => r == Some(d) && final(self).spec_received()
                    == old(self).spec_received(),
                _ => r == old(self).spec_received() && final(self).spec_received() is None,
            },
    {
        if let Some(Some(v)) = self.default.take() {
            return Some(v);
        }
        self.received.take()
    }
}

impl<T: ConfigValue> Opt<T> {
    /// Receives a message's payload: a payload that reads as a value replaces
    /// the last received one; any other is ignored. Returns whether it was
    /// taken.
    pub fn update(&mut self, payload: &[u8]) -> (r: bool)
        ensures
            r == T::spec_accepts(payload@),
            final(self).spec_suffix() == old(self).spec_suffix(),
            final(self).spec_default() == old(self).spec_default(),
            r ==> (final(self).spec_received() matches Some(v) && T::spec_reads_as(payload@, v)),
            !r ==> final(self).spec_received() == old(self).spec_received(),
    {
        match T::from_payload(payload) {
            Some(v) => {
                self.received = Some(v);
                true
            },
            None => false,
        }
    }
}

} // verus!
