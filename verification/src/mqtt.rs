//! The board's MQTT naming and connection state: topics are prefixed with the
//! board's identifier and held in a fixed-capacity string, and the transport
//! runs over a socket that was accepted before the session started.

use vstd::prelude::*;
use vstd::string::StringSliceAdditionalSpecFns;

verus! {

/// The capacity of a topic, in bytes.
pub const TOPIC_CAPACITY: usize = 64;

/// A string of at most [`TOPIC_CAPACITY`] bytes, held in a
/// `heapless::String<64>`.
#[verifier::external_body]
pub struct TopicString {
    inner: heapless::String<64>,
}

/// The bytes held by a topic string.
pub uninterp spec fn topic_bytes(s: TopicString) -> Seq<u8>;

/// An empty topic string.
///
/// Calls `heapless::String::new`, which makes an empty string.
#[verifier::external_body]
fn topic_string_new() -> (r: TopicString)
    ensures
        topic_bytes(r) == Seq::<u8>::empty(),
{
    TopicString { inner: heapless::String::new() }
}

/// Appends `text` if it fits; returns whether it did.
///
/// Calls `heapless::String::push_str`, which appends the bytes of `text` when
/// the string's length and theirs together are at most its capacity, and
/// otherwise leaves the string as it was and returns an error.
#[verifier::external_body]
fn topic_string_push_str(s: &mut TopicString, text: &str) -> (r: bool)
    ensures
        r == (topic_bytes(*old(s)).len() + text.spec_bytes().len() <= TOPIC_CAPACITY),
        r ==> topic_bytes(*final(s)) == topic_bytes(*old(s)) + text.spec_bytes(),
        !r ==> topic_bytes(*final(s)) == topic_bytes(*old(s)),
{
    s.inner.push_str(text).is_ok()
}

/// Appends the character `c` if it fits; returns whether it did.
///
/// Calls `heapless::String::push`, which appends the UTF-8 bytes of `c` when
/// the string's length and theirs together are at most its capacity, and
/// otherwise leaves the string as it was and returns an error.
#[verifier::external_body]
fn topic_string_push(s: &mut TopicString, c: char) -> (r: bool)
    ensures
        r == (topic_bytes(*old(s)).len() + vstd::utf8::encode_utf8(seq![c]).len()
            <= TOPIC_CAPACITY),
        r ==> topic_bytes(*final(s)) == topic_bytes(*old(s)) + vstd::utf8::encode_utf8(seq![c]),
        !r ==> topic_bytes(*final(s)) == topic_bytes(*old(s)),
{
    s.inner.push(c).is_ok()
}

/// The length of a topic string, in bytes.
///
/// Calls `len` on the string's text, which counts its bytes.
#[verifier::external_body]
fn topic_string_len(s: &TopicString) -> (r: usize)
    ensures
        r == topic_bytes(*s).len(),
{
    s.inner.len()
}

/// A copy of a topic string.
///
/// Calls `Clone::clone` of `heapless::String`, which copies the string's bytes
/// one for one.
#[verifier::external_body]
fn topic_string_clone(s: &TopicString) -> (r: TopicString)
    ensures
        topic_bytes(r) == topic_bytes(*s),
{
    TopicString { inner: s.inner.clone() }
}

/// The text of a topic string.
///
/// Calls `heapless::String::as_str`, which views the string's bytes as text.
#[verifier::external_body]
fn topic_string_as_str(s: &TopicString) -> (r: &str)
    ensures
        r.spec_bytes() == topic_bytes(*s),
{
    s.inner.as_str()
}

/// The capacity of a topic string, in bytes.
///
/// Calls `heapless::String::capacity`, which returns the capacity the string
/// type was declared with.
#[verifier::external_body]
fn topic_string_capacity(s: &TopicString) -> (r: usize)
    ensures
        r == TOPIC_CAPACITY,
{
    s.inner.capacity()
}

/// A topic prefixed with the board's identifier: `prefix/suffix`.
pub struct PrefixedTopic(pub TopicString);

impl PrefixedTopic {
    /// The bytes of the topic.
    pub open spec fn bytes(&self) -> Seq<u8> {
        topic_bytes(self.0)
    }

    /// The text of the topic.
    pub fn as_str(&self) -> (r: &str)
        ensures
            r.spec_bytes() == self.bytes(),
    {
        topic_string_as_str(&self.0)
    }
}

/// The bytes of `prefix/suffix`.
pub open spec fn spec_prefixed(prefix: Seq<u8>, suffix: Seq<u8>) -> Seq<u8> {
    prefix + seq![0x2Fu8] + suffix
}

/// The board's topic prefix, as handed to [`IntoPrefixedTopic`].
pub struct Prefix<'a>(&'a str);

impl<'a> Prefix<'a> {
    /// The bytes of the prefix.
    pub closed spec fn bytes(&self) -> Seq<u8> {
        self.0.spec_bytes()
    }
}

/// A value from which a checked, prefixed topic is made.
pub trait IntoPrefixedTopic: Sized {
    /// The bytes of the topic made under a prefix of bytes `prefix`, or `None`
    /// where it would be too long.
    spec fn spec_topic(&self, prefix: Seq<u8>) -> Option<Seq<u8>>;

    /// The topic under `prefix`; the value itself where it would be too long.
    fn into_prefixed_topic(self, prefix: Prefix) -> (r: Result<PrefixedTopic, Self>)
        ensures
            r is Ok <==> self.spec_topic(prefix.bytes()) is Some,
            r matches Ok(t) ==> self.spec_topic(prefix.bytes()) == Some(t.bytes()),
            r matches Err(e) ==> e == self,
    ;
}

impl<'s> IntoPrefixedTopic for &'s str {
    /// `prefix/suffix`, if it fits in [`TOPIC_CAPACITY`] bytes.
    open spec fn spec_topic(&self, prefix: Seq<u8>) -> Option<Seq<u8>> {
        if prefix.len() + 1 + self.spec_bytes().len() <= TOPIC_CAPACITY {
            Some(spec_prefixed(prefix, self.spec_bytes()))
        } else {
            None
        }
    }

    fn into_prefixed_topic(self, prefix: Prefix) -> (r: Result<PrefixedTopic, Self>) {
        let mut r = topic_string_new();
        if !topic_string_push_str(&mut r, prefix.0) {
            return Err(self);
        }
        proof {
            let slash = seq!['/'];
            assert(vstd::utf8::is_ascii_chars(slash));
            vstd::utf8::is_ascii_chars_encode_utf8(slash);
            assert(('/' as u8) == 0x2Fu8);
            assert(vstd::utf8::encode_utf8(slash) =~= seq![0x2Fu8]);
        }
        if !topic_string_push(&mut r, '/') {
            return Err(self);
        }
        if self.as_bytes().len() > topic_string_capacity(&r) - topic_string_len(&r) {
            return Err(self);
        }
        let pushed = topic_string_push_str(&mut r, self);
        assert(pushed);
        Ok(PrefixedTopic(r))
    }
}

impl IntoPrefixedTopic for PrefixedTopic {
    /// A topic that is already prefixed stays as it is.
    open spec fn spec_topic(&self, prefix: Seq<u8>) -> Option<Seq<u8>> {
        Some(self.bytes())
    }

    fn into_prefixed_topic(self, prefix: Prefix) -> (r: Result<PrefixedTopic, Self>) {
        Ok(self)
    }
}

impl<'t> IntoPrefixedTopic for &'t PrefixedTopic {
    /// A copy of a topic that is already prefixed stays as it is.
    open spec fn spec_topic(&self, prefix: Seq<u8>) -> Option<Seq<u8>> {
        Some(self.bytes())
    }

    fn into_prefixed_topic(self, prefix: Prefix) -> (r: Result<PrefixedTopic, Self>) {
        Ok(PrefixedTopic(topic_string_clone(&self.0)))
    }
}

/// The topic for `topic` under the board's `prefix`; `topic` itself where it
/// would be too long.
pub fn try_prepare_topic<T: IntoPrefixedTopic>(prefix: &str, topic: T) -> (r: Result<PrefixedTopic, T>)
    ensures
        r is Ok <==> topic.spec_topic(prefix.spec_bytes()) is Some,
        r matches Ok(t) ==> topic.spec_topic(prefix.spec_bytes()) == Some(t.bytes()),
        r matches Err(e) ==> e == topic,
{
    topic.into_prefixed_topic(Prefix(prefix))
}

/// The topic for `topic` under the board's `prefix`; it must not be too long.
pub fn prepare_topic<T: IntoPrefixedTopic>(prefix: &str, topic: T) -> (r: PrefixedTopic)
    requires
        topic.spec_topic(prefix.spec_bytes()) is Some,
    ensures
        topic.spec_topic(prefix.spec_bytes()) == Some(r.bytes()),
{
    match try_prepare_topic(prefix, topic) {
        Ok(t) => t,
        Err(_) => {
            assert(false);
            PrefixedTopic(topic_string_new())
        },
    }
}

/// An error of the transport.
#[derive(Clone, Copy, Debug, PartialEq, Eq, Structural)]
pub enum ConnectionError {
    /// The connection was refused.
    ConnectionRefused,
    /// No more requests can be made.
    RequestsDone,
}

/// The transport's socket is not available.
#[derive(Clone, Copy, Debug, PartialEq, Eq, Structural)]
pub struct InvalidState;

/// An MQTT transport over a socket that was accepted before the session
/// started. Connecting and disconnecting do nothing, since the socket is
/// already connected and managed elsewhere; the socket is always available.
pub struct ConnectedSocketTransport<S> {
    socket: S,
    has_connected: bool,
}

/// Whether a transport is connected after `k` more calls of
/// [`ConnectedSocketTransport::connect`], from `connected`.
pub open spec fn spec_connected_after(connected: bool, k: nat) -> bool
    decreases k,
{
    if k == 0 {
        connected
    } else {
        spec_connected_after(true, (k - 1) as nat)
    }
}

/// A transport built by [`ConnectedSocketTransport::new`] is connected after
/// `k` calls of `connect` exactly when `k` is at least one, and a connected
/// transport stays connected however often it is connected again.
pub proof fn lemma_connected_after_calls(k: nat)
    ensures
        spec_connected_after(false, k) == (k >= 1),
        spec_connected_after(true, k),
    decreases k,
{
    if k > 0 {
        lemma_connected_after_calls((k - 1) as nat);
    }
}

impl<S> ConnectedSocketTransport<S> {
    /// Whether the transport has connected.
    pub closed spec fn spec_connected(&self) -> bool {
        self.has_connected
    }

    /// The socket.
    pub closed spec fn spec_socket(&self) -> S {
        self.socket
    }

    /// A transport over `socket`, not yet connected.
    pub fn new(socket: S) -> (r: Self)
        ensures
            r.spec_socket() == socket,
            !r.spec_connected(),
    {
        ConnectedSocketTransport { socket, has_connected: false }
    }

    /// Marks the transport connected; the socket already is, so this always
    /// succeeds.
    pub fn connect(&mut self) -> (r: Result<(), ConnectionError>)
        ensures
            final(self).spec_socket() == old(self).spec_socket(),
            final(self).spec_connected() == spec_connected_after(old(self).spec_connected(), 1),
            final(self).spec_connected(),
            r == Ok::<(), ConnectionError>(()),
    {
        self.has_connected = true;
        assert(spec_connected_after(true, 0));
        Ok(())
    }

    /// Does nothing, since the socket is managed outside the transport; always
    /// succeeds.
    pub fn disconnect(&mut self) -> (r: Result<(), ConnectionError>)
        ensures
            *final(self) == *old(self),
            r == Ok::<(), ConnectionError>(()),
    {
        Ok(())
    }

    /// Whether the transport has connected.
    pub fn is_connected(&self) -> (r: bool)
        ensures
            r == self.spec_connected(),
    {
        self.has_connected
    }

    /// The socket, which is always available.
    pub fn socket(&mut self) -> (r: Result<&mut S, InvalidState>)
        ensures
            final(self).spec_connected() == old(self).spec_connected(),
            r matches Ok(s) && *s == old(self).spec_socket() && final(self).spec_socket()
                == *final(s),
    {
        Ok(&mut self.socket)
    }
}

/// An error of the MQTT wrapper.
#[derive(Clone, Copy, Debug, PartialEq, Eq, Structural)]
pub enum MqttError {
    /// The client failed to publish.
    Mqtt,
    /// The prefixed topic does not fit.
    TopicTooLong,
}

/// The host name the board advertises over mDNS.
pub const ADVERTISED_HOSTNAME: &'static str = "orolink";
/// The service the board advertises over mDNS.
pub const ADVERTISED_SERVICE: &'static str = "_orolink";
/// The protocol of the advertised service.
pub const ADVERTISED_PROTOCOL: &'static str = "_tcp";
/// The port on which the board accepts its session connection.
pub const SERVICE_PORT: u16 = 1883;
/// The priority of the advertised service record.
pub const SERVICE_PRIORITY: u16 = 1;
/// The weight of the advertised service record.
pub const SERVICE_WEIGHT: u16 = 5;
/// The lifetime of the advertised records, in seconds.
pub const ADVERTISED_TTL_SECS: u32 = 5;
/// The MQTT keep-alive interval, in seconds.
pub const KEEPALIVE_SECS: u64 = 50;

/// How waiting for the session connection ended.
#[derive(Clone, Copy, Debug, PartialEq, Eq, Structural)]
pub enum WaitOutcome {
    /// The mDNS responder returned without an error.
    ResponderStopped,
    /// The mDNS responder failed.
    ResponderFailed,
    /// A client connected.
    Connected,
    /// Accepting the connection failed.
    AcceptFailed,
}

/// Why a session could not start.
#[derive(Clone, Copy, Debug, PartialEq, Eq, Structural)]
pub enum StartError {
    /// The mDNS responder failed.
    Mdns,
    /// The network went down before discovery.
    LinkDown,
    /// The mDNS responder stopped while waiting for a connection.
    MdnsStopped,
    /// Accepting the connection failed.
    Accept,
    /// The session stopped after it was established.
    SessionStopped,
}

/// What ends the wait for the session connection: a connected client lets
/// the session start; anything else is its error.
pub fn wait_outcome(outcome: WaitOutcome) -> (r: Result<(), StartError>)
    ensures
        r == match outcome {
            WaitOutcome::ResponderStopped => Err::<(), StartError>(StartError::MdnsStopped),
            WaitOutcome::ResponderFailed => Err::<(), StartError>(StartError::Mdns),
            WaitOutcome::Connected => Ok::<(), StartError>(()),
            WaitOutcome::AcceptFailed => Err::<(), StartError>(StartError::Accept),
        },
{
    match outcome {
        WaitOutcome::ResponderStopped => Err(StartError::MdnsStopped),
        WaitOutcome::ResponderFailed => Err(StartError::Mdns),
        WaitOutcome::Connected => Ok(()),
        WaitOutcome::AcceptFailed => Err(StartError::Accept),
    }
}

} // verus!
