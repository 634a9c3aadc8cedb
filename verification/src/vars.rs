//! Variables shared with the remote store: each has a name, a value that may
//! be absent, and a permission that says in which direction it is copied.
//! Readable variables are published by the board; writable ones are fetched
//! from the store.

use vstd::prelude::*;
use crate::text::str_eq;

verus! {

/// The direction in which a variable is copied.
#[derive(Clone, Copy, Debug, PartialEq, Eq, Structural)]
pub enum Perm {
    /// Published by the board.
    RO,
    /// Published when changed here, fetched otherwise.
    RW,
    /// Fetched from the store.
    WO,
}

impl Perm {
    /// Whether the store can read the variable.
    pub fn read(self) -> (r: bool)
        ensures
            r == (self is RO || self is RW),
    {
        match self {
            Perm::RO | Perm::RW => true,
            Perm::WO => false,
        }
    }

    /// Whether the store can write the variable.
    pub fn write(self) -> (r: bool)
        ensures
            r == (self is WO || self is RW),
    {
        match self {
            Perm::WO | Perm::RW => true,
            Perm::RO => false,
        }
    }
}

/// How the system under test is powered, as stored.
#[derive(Clone, Copy, Debug, PartialEq, Eq, Structural)]
pub enum PowerType {
    Usb,
    UsbVbus,
    Psu,
}

impl PowerType {
    /// The stored name.
    pub open spec fn spec_name(self) -> Seq<char> {
        match self {
            PowerType::Usb => "usb"@,
            PowerType::UsbVbus => "usb_vbus"@,
            PowerType::Psu => "psu"@,
        }
    }

    /// The variant with the stored name `s`.
    pub open spec fn spec_from_str(s: Seq<char>) -> Result<PowerType, ()> {
        if s == "usb"@ {
            Ok(PowerType::Usb)
        } else if s == "usb_vbus"@ {
            Ok(PowerType::UsbVbus)
        } else if s == "psu"@ {
            Ok(PowerType::Psu)
        } else {
            Err(())
        }
    }

    /// The stored name.
    pub fn name(self) -> (r: &'static str)
        ensures
            r@ == self.spec_name(),
    {
        match self {
            PowerType::Usb => "usb",
            PowerType::UsbVbus => "usb_vbus",
            PowerType::Psu => "psu",
        }
    }

    /// Reads a stored name; see [`PowerType::spec_from_str`].
    pub fn from_str(s: &str) -> (r: Result<PowerType, ()>)
        ensures
            r == Self::spec_from_str(s@),
    {
        if str_eq(s, "usb") {
            Ok(PowerType::Usb)
        } else if str_eq(s, "usb_vbus") {
            Ok(PowerType::UsbVbus)
        } else if str_eq(s, "psu") {
            Ok(PowerType::Psu)
        } else {
            Err(())
        }
    }
}

/// Which USB interface of the system under test is used, as stored.
#[derive(Clone, Copy, Debug, PartialEq, Eq, Structural)]
pub enum UsbIface {
    Port,
    Header,
}

impl UsbIface {
    /// The stored name.
    pub open spec fn spec_name(self) -> Seq<char> {
        match self {
            UsbIface::Port => "port"@,
            UsbIface::Header => "header"@,
        }
    }

    /// The variant with the stored name `s`.
    pub open spec fn spec_from_str(s: Seq<char>) -> Result<UsbIface, ()> {
        if s == "port"@ {
            Ok(UsbIface::Port)
        } else if s == "header"@ {
            Ok(UsbIface::Header)
        } else {
            Err(())
        }
    }

    /// The stored name.
    pub fn name(self) -> (r: &'static str)
        ensures
            r@ == self.spec_name(),
    {
        match self {
            UsbIface::Port => "port",
            UsbIface::Header => "header",
        }
    }

    /// Reads a stored name; see [`UsbIface::spec_from_str`].
    pub fn from_str(s: &str) -> (r: Result<UsbIface, ()>)
        ensures
            r == Self::spec_from_str(s@),
    {
        if str_eq(s, "port") {
            Ok(UsbIface::Port)
        } else if str_eq(s, "header") {
            Ok(UsbIface::Header)
        } else {
            Err(())
        }
    }
}

/// Where the system under test boots from, as stored.
#[derive(Clone, Copy, Debug, PartialEq, Eq, Structural)]
pub enum BootSource {
    UsbMsd,
    Sd,
}

impl BootSource {
    /// The stored name.
    pub open spec fn spec_name(self) -> Seq<char> {
        match self {
            BootSource::UsbMsd => "usb"@,
            BootSource::Sd => "sd"@,
        }
    }

    /// The variant with the stored name `s`.
    pub open spec fn spec_from_str(s: Seq<char>) -> Result<BootSource, ()> {
        if s == "usb"@ {
            Ok(BootSource::UsbMsd)
        } else if s == "sd"@ {
            Ok(BootSource::Sd)
        } else {
            Err(())
        }
    }

    /// The stored name.
    pub fn name(self) -> (r: &'static str)
        ensures
            r@ == self.spec_name(),
    {
        match self {
            BootSource::UsbMsd => "usb",
            BootSource::Sd => "sd",
        }
    }

    /// Reads a stored name; see [`BootSource::spec_from_str`].
    pub fn from_str(s: &str) -> (r: Result<BootSource, ()>)
        ensures
            r == Self::spec_from_str(s@),
    {
        if str_eq(s, "usb") {
            Ok(BootSource::UsbMsd)
        } else if str_eq(s, "sd") {
            Ok(BootSource::Sd)
        } else {
            Err(())
        }
    }
}

/// Every stored power type reads back as itself.
pub proof fn lemma_power_type_name_roundtrip(p: PowerType)
    ensures
        PowerType::spec_from_str(p.spec_name()) == Ok::<PowerType, ()>(p),
{
    reveal_strlit("usb");
    reveal_strlit("usb_vbus");
    reveal_strlit("psu");
    assert("usb_vbus"@.len() != "usb"@.len());
    assert("psu"@[0] != "usb"@[0]);
    assert("psu"@.len() != "usb_vbus"@.len());
}

/// Every stored USB interface reads back as itself.
pub proof fn lemma_usb_iface_name_roundtrip(u: UsbIface)
    ensures
        UsbIface::spec_from_str(u.spec_name()) == Ok::<UsbIface, ()>(u),
{
    reveal_strlit("port");
    reveal_strlit("header");
    assert("header"@.len() != "port"@.len());
}

/// The configuration option's USB interface for a stored one of the same
/// name.
pub open spec fn spec_config_usb_iface(u: UsbIface) -> crate::config::UsbIface {
    match u {
        UsbIface::Port => crate::config::UsbIface::Port,
        UsbIface::Header => crate::config::UsbIface::Header,
    }
}

/// The stored USB interface and the configuration option that sets it name
/// the interfaces by the same words: every text reads as the same interface
/// (or as none) in both, and the stored name of each interface reads, as an
/// option, as that interface.
pub proof fn lemma_usb_iface_agrees_with_config(s: Seq<char>, u: UsbIface)
    ensures
        match (UsbIface::spec_from_str(s), crate::config::UsbIface::spec_from_str(s)) {
            (Ok(a), Ok(b)) => spec_config_usb_iface(a) == b,
            (Err(_), Err(_)) => true,
            _ => false,
        },
        crate::config::UsbIface::spec_from_str(u.spec_name()) == Ok::<crate::config::UsbIface, ()>(
            spec_config_usb_iface(u),
        ),
{
    reveal_strlit("port");
    reveal_strlit("header");
    assert("header"@.len() != "port"@.len());
}

/// Every stored boot source reads back as itself.
pub proof fn lemma_boot_source_name_roundtrip(b: BootSource)
    ensures
        BootSource::spec_from_str(b.spec_name()) == Ok::<BootSource, ()>(b),
{
    reveal_strlit("usb");
    reveal_strlit("sd");
    assert("sd"@.len() != "usb"@.len());
}

/// A variable: its name, its value if it has one, and whether it changed here
/// since it was last published. `READ` and `WRITE` are its permission.
pub struct Key<T, const READ: bool, const WRITE: bool> {
    name: &'static str,
    value: Option<T>,
    dirty: bool,
}

/// A variable that the store can read.
pub trait CanRead {

}

/// A variable that the store can write.
pub trait CanWrite {

}

impl<T, const WRITE: bool> CanRead for Key<T, true, WRITE> {

}

impl<T, const READ: bool> CanWrite for Key<T, READ, true> {

}

/// What a synchronisation of a variable with the store does.
#[derive(Clone, Copy, Debug, PartialEq, Eq, Structural)]
pub enum SyncOp {
    /// Nothing to do.
    Skip,
    /// Store the current value under the variable's name.
    Push,
    /// Remove the variable's name from the store.
    Delete,
    /// Fetch the value stored under the variable's name, and hand it to
    /// [`Key::finish_pull`].
    Pull,
}

impl<T, const READ: bool, const WRITE: bool> Key<T, READ, WRITE> {
    /// The name.
    pub closed spec fn spec_name(&self) -> &'static str {
        self.name
    }

    /// The value.
    pub closed spec fn spec_value(&self) -> Option<T> {
        self.value
    }

    /// Whether the value changed here since it was last published.
    pub closed spec fn spec_dirty(&self) -> bool {
        self.dirty
    }

    /// A variable without a value; a readable one is to be published.
    pub fn new(name: &'static str) -> (r: Self)
        ensures
            r.spec_name() == name,
            r.spec_value() is None,
            r.spec_dirty() == READ,
    {
        Key { name, value: None, dirty: READ }
    }

    /// The same variable with a default value, to be published.
    pub fn with_default(self, default: T) -> (r: Self)
        ensures
            r.spec_name() == self.spec_name(),
            r.spec_value() == Some(default),
            r.spec_dirty(),
    {
        Key { name: self.name, value: Some(default), dirty: true }
    }

    /// The name.
    pub fn name(&self) -> (r: &'static str)
        ensures
            r == self.spec_name(),
    {
        self.name
    }

    /// The current value, as published by [`SyncOp::Push`].
    pub fn current(&self) -> (r: Option<&T>)
        ensures
            r is Some == self.spec_value() is Some,
            r matches Some(v) ==> self.spec_value() == Some(*v),
    {
        match &self.value {
            Some(v) => Some(v),
            None => None,
        }
    }
}

impl<T, const READ: bool, const WRITE: bool> Key<T, READ, WRITE> where Self: CanRead {
    /// Sets the value, to be published.
    pub fn set(&mut self, value: T)
        ensures
            final(self).spec_name() == old(self).spec_name(),
            final(self).spec_value() == Some(value),
            final(self).spec_dirty(),
    {
        self.value = Some(value);
        self.dirty = true;
    }

    /// Removes the value, to be removed from the store.
    pub fn unset(&mut self)
        ensures
            final(self).spec_name() == old(self).spec_name(),
            final(self).spec_value() is None,
            final(self).spec_dirty(),
    {
        self.value = None;
        self.dirty = true;
    }
}

impl<T, const READ: bool, const WRITE: bool> Key<T, READ, WRITE> where Self: CanWrite {
    /// The value fetched from the store, if any has arrived; `None` means
    /// that the caller waits and asks again.
    pub fn get(&self) -> (r: Option<&T>)
        ensures
            r is Some == self.spec_value() is Some,
            r matches Some(v) ==> self.spec_value() == Some(*v),
    {
        self.current()
    }

    /// Takes what a [`SyncOp::Pull`] fetched: the stored value, or `None`
    /// where the name is not in the store.
    pub fn finish_pull(&mut self, remote: Option<T>)
        ensures
            final(self).spec_name() == old(self).spec_name(),
            final(self).spec_value() == remote,
            final(self).spec_dirty() == old(self).spec_dirty(),
    {
        self.value = remote;
    }
}

impl<const READ: bool, const WRITE: bool> Key<bool, READ, WRITE> where Self: CanWrite {
    /// Whether the variable holds `desired` (`None` for no value); a caller
    /// waiting for a value asks again after a while until it does.
    pub fn holds(&self, desired: Option<bool>) -> (r: bool)
        ensures
            r == (self.spec_value() == desired),
    {
        match (self.value, desired) {
            (Some(a), Some(b)) => a == b,
            (None, None) => true,
            _ => false,
        }
    }
}

/// A variable that is synchronised with the store.
pub trait SyncVar {
    /// Starts a synchronisation: what to do with the store.
    fn begin_sync(&mut self) -> SyncOp;
}

/// The synchronisation of a published variable: a changed value is pushed, or
/// deleted where there is none; an unchanged one is left alone.
impl<T> SyncVar for Key<T, true, false> {
    fn begin_sync(&mut self) -> (r: SyncOp)
        ensures
            final(self).spec_name() == old(self).spec_name(),
            final(self).spec_value() == old(self).spec_value(),
            !final(self).spec_dirty(),
            r == if !old(self).spec_dirty() {
                SyncOp::Skip
            } else if old(self).spec_value() is Some {
                SyncOp::Push
            } else {
                SyncOp::Delete
            },
    {
        if self.dirty {
            self.dirty = false;
            if self.value.is_some() {
                SyncOp::Push
            } else {
                SyncOp::Delete
            }
        } else {
            SyncOp::Skip
        }
    }
}

/// The synchronisation of a variable in both directions: a value changed here
/// is pushed, or deleted where there is none; otherwise the stored value is
/// fetched.
impl<T> SyncVar for Key<T, true, true> {
    fn begin_sync(&mut self) -> (r: SyncOp)
        ensures
            final(self).spec_name() == old(self).spec_name(),
            final(self).spec_value() == old(self).spec_value(),
            !final(self).spec_dirty(),
            r == if !old(self).spec_dirty() {
                SyncOp::Pull
            } else if old(self).spec_value() is Some {
                SyncOp::Push
            } else {
                SyncOp::Delete
            },
    {
        if self.dirty {
            self.dirty = false;
            if self.value.is_some() {
                SyncOp::Push
            } else {
                SyncOp::Delete
            }
        } else {
            SyncOp::Pull
        }
    }
}

/// The synchronisation of a fetched variable: the stored value is fetched.
impl<T> SyncVar for Key<T, false, true> {
    fn begin_sync(&mut self) -> (r: SyncOp)
        ensures
            final(self).spec_name() == old(self).spec_name(),
            final(self).spec_value() == old(self).spec_value(),
            final(self).spec_dirty() == old(self).spec_dirty(),
            r == SyncOp::Pull,
    {
        SyncOp::Pull
    }
}

} // verus!
