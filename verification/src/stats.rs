//! Statistics the board publishes: each has a topic suffix, a quality of
//! service, whether it is retained, and the last value set and not yet
//! published.

use vstd::prelude::*;
use vstd::std_specs::convert::TryIntoSpec;

verus! {

/// The MQTT quality of service a statistic is published with.
#[derive(Clone, Copy, Debug, PartialEq, Eq, Structural)]
pub enum QoS {
    /// At most once.
    Q0,
    /// At least once.
    Q1,
}

impl QoS {
    /// The level's number.
    pub fn level(self) -> (r: u8)
        ensures
            r == match self {
                QoS::Q0 => 0u8,
                QoS::Q1 => 1u8,
            },
    {
        match self {
            QoS::Q0 => 0,
            QoS::Q1 => 1,
        }
    }
}

/// A boolean statistic, published as the text `true` or `false`.
#[derive(Clone, Copy, Debug, PartialEq, Eq, Structural)]
pub struct Boolized(pub bool);

impl From<bool> for Boolized {
    fn from(value: bool) -> (r: Self) {
        Boolized(value)
    }
}

impl vstd::std_specs::convert::FromSpecImpl<bool> for Boolized {
    open spec fn obeys_from_spec() -> bool {
        true
    }

    open spec fn from_spec(v: bool) -> Boolized {
        Boolized(v)
    }
}

impl Boolized {
    /// The published text.
    pub open spec fn spec_text(self) -> Seq<char> {
        if self.0 {
            "true"@
        } else {
            "false"@
        }
    }

    /// The published text.
    pub fn as_str(&self) -> (r: &'static str)
        ensures
            r@ == self.spec_text(),
    {
        if self.0 {
            "true"
        } else {
            "false"
        }
    }
}

/// A statistic: where and how it is published, and the value waiting to be.
pub struct Stat<T> {
    topic_suffix: &'static str,
    qos: QoS,
    retain: bool,
    pending: Option<T>,
}

impl<T> Stat<T> {
    /// The topic suffix.
    pub closed spec fn spec_suffix(&self) -> &'static str {
        self.topic_suffix
    }

    /// The quality of service.
    pub closed spec fn spec_qos(&self) -> QoS {
        self.qos
    }

    /// Whether the broker retains the value.
    pub closed spec fn spec_retain(&self) -> bool {
        self.retain
    }

    /// The value set and not yet published.
    pub closed spec fn spec_pending(&self) -> Option<T> {
        self.pending
    }

    /// A statistic published at least once and retained.
    pub fn new(topic: &'static str) -> (r: Self)
        ensures
            r.spec_suffix() == topic,
            r.spec_qos() == QoS::Q1,
            r.spec_retain(),
            r.spec_pending() is None,
    {
        Stat { topic_suffix: topic, qos: QoS::Q1, retain: true, pending: None }
    }

    /// A statistic with the given quality of service and retention.
    pub fn with_options(topic: &'static str, qos: QoS, retain: bool) -> (r: Self)
        ensures
            r.spec_suffix() == topic,
            r.spec_qos() == qos,
            r.spec_retain() == retain,
            r.spec_pending() is None,
    {
        Stat { topic_suffix: topic, qos, retain, pending: None }
    }

    /// Sets the value; it replaces one not yet published.
    pub fn set(&mut self, v: T)
        ensures
            final(self).spec_pending() == Some(v),
            final(self).spec_suffix() == old(self).spec_suffix(),
            final(self).spec_qos() == old(self).spec_qos(),
            final(self).spec_retain() == old(self).spec_retain(),
    {
        self.pending = Some(v);
    }

    /// Converts `v` and sets it as the value to publish; a value that does
    /// not convert leaves the stat as it was and hands back the error.
    pub fn try_set<V: TryInto<T>>(&mut self, v: V) -> (r: Result<(), V::Error>)
        ensures
            final(self).spec_suffix() == old(self).spec_suffix(),
            final(self).spec_qos() == old(self).spec_qos(),
            final(self).spec_retain() == old(self).spec_retain(),
            r is Ok ==> final(self).spec_pending() is Some,
            r is Err ==> final(self).spec_pending() == old(self).spec_pending(),
            V::obeys_try_into_spec() ==> match v.try_into_spec() {
                Ok(t) => r is Ok && final(self).spec_pending() == Some(t),
                Err(e) => r == Err::<(), V::Error>(e),
            },
    {
        match v.try_into() {
            Ok(t) => {
                self.pending = Some(t);
                Ok(())
            },
            Err(e) => Err(e),
        }
    }

    /// The value to publish, once; `None` means that the publisher waits.
    pub fn take(&mut self) -> (r: Option<T>)
        ensures
            r == old(self).spec_pending(),
            final(self).spec_pending() is None,
            final(self).spec_suffix() == old(self).spec_suffix(),
            final(self).spec_qos() == old(self).spec_qos(),
            final(self).spec_retain() == old(self).spec_retain(),
    {
        self.pending.take()
    }

    /// The topic suffix.
    pub fn suffix(&self) -> (r: &'static str)
        ensures
            r == self.spec_suffix(),
    {
        self.topic_suffix
    }

    /// The quality of service.
    pub fn qos(&self) -> (r: QoS)
        ensures
            r == self.spec_qos(),
    {
        self.qos
    }

    /// Whether the broker retains the value.
    pub fn retain(&self) -> (r: bool)
        ensures
            r == self.spec_retain(),
    {
        self.retain
    }
}

} // verus!
