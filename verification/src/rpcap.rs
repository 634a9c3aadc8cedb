//! The part of the remote packet capture protocol (RPCAP) that the capture
//! daemon speaks.
//!
//! Every message starts with an eight-byte header: the protocol version
//! (always 0 here), the message type, a 16-bit value and the 32-bit length of
//! the payload that follows, both big-endian. Replies carry the request's type
//! with the top bit set. Every message the daemon sends is padded with zero
//! bytes to a multiple of 32 bits.

use vstd::prelude::*;
use vstd::utf8::{decode_utf8, encode_utf8, valid_utf8};
use crate::cbor::{be2, be4, from_be2, from_be4, lemma_be_roundtrip};

verus! {

/// Message type of an error report.
pub const MSG_ERROR: u8 = 0x01;
/// Message type of a request for the capture interfaces.
pub const MSG_FIND_ALL_IF_REQ: u8 = 0x02;
/// Message type of a request to open an interface.
pub const MSG_OPEN_REQ: u8 = 0x03;
/// Message type of a request to start capturing.
pub const MSG_START_CAP_REQ: u8 = 0x04;
/// Message type of a request to change the capture filter.
pub const MSG_UPDATE_FILTER_REQ: u8 = 0x05;
/// Message type of a captured packet.
pub const MSG_PACKET: u8 = 0x07;
/// Message type of an authentication request.
pub const MSG_AUTH_REQ: u8 = 0x08;
/// The bit that marks a reply to a request of the same type.
pub const MSG_REPLY: u8 = 0x80;

/// Error code: the requested authentication is not supported.
pub const ERR_AUTH_TYPE_NOT_SUPPORTED: u16 = 20;
/// Error code: the message was not expected.
pub const ERR_WRONG_MESSAGE: u16 = 16;
/// Error code: the interface could not be opened.
pub const ERR_OPEN: u16 = 6;

/// The interface flags always reported: up, running and connected.
pub const INTERFACE_FLAGS: u32 = 0x02 | 0x04 | 0x10;
/// The link type reported for an opened interface (Ethernet).
pub const LINK_TYPE_ETHERNET: u32 = 1;
/// The capture buffer size reported when a capture starts.
pub const CAPTURE_BUFFER_SIZE: u32 = 1514;

/// The authentication a client asks for.
#[derive(Clone, Copy, Debug, PartialEq, Eq, Structural)]
pub enum AuthType {
    Null,
    Basic,
    Unknown,
}

/// A capture interface, as listed to clients.
#[derive(Clone, Debug)]
pub struct Interface {
    pub name: String,
    pub description: String,
}

impl View for Interface {
    type V = (Seq<char>, Seq<char>);

    open spec fn view(&self) -> (Seq<char>, Seq<char>) {
        (self.name@, self.description@)
    }
}

/// A message of the protocol, in either direction.
#[derive(Clone, Debug)]
pub enum RPCAPMessage {
    AuthRequest { auth_type: AuthType },
    /// Authentication accepted.
    AuthResponse,
    /// An error reported by the client: its code and text.
    Error(u16, String),
    AuthNotSupError(String),
    WrongMessageError(String),
    OpenError(String),
    OpenDeviceRequest { device_name: String },
    /// The interface is open; it is always reported as Ethernet.
    OpenDeviceResponse,
    FindAllDevsRequest,
    FindAllDevsResponse(Vec<Interface>),
    StartCapRequest,
    StartCapResponse { server_port: u16 },
    /// Filters are not supported; such requests are acknowledged.
    UpdateFilterRequest,
    UpdateFilterResponse,
    /// A captured packet: its bytes, its arrival time as whole seconds and
    /// microseconds since the Unix epoch, and its sequence number.
    Packet { data: Vec<u8>, arrival_secs: u64, arrival_micros: u32, number: usize },
}

/// The content of a message: texts as characters, interfaces as their name
/// and description.
pub enum MessageModel {
    AuthRequest { auth_type: AuthType },
    AuthResponse,
    Error(u16, Seq<char>),
    AuthNotSupError(Seq<char>),
    WrongMessageError(Seq<char>),
    OpenError(Seq<char>),
    OpenDeviceRequest { device_name: Seq<char> },
    OpenDeviceResponse,
    FindAllDevsRequest,
    FindAllDevsResponse(Seq<(Seq<char>, Seq<char>)>),
    StartCapRequest,
    StartCapResponse { server_port: u16 },
    UpdateFilterRequest,
    UpdateFilterResponse,
    Packet { data: Seq<u8>, arrival_secs: u64, arrival_micros: u32, number: usize },
}

impl View for RPCAPMessage {
    type V = MessageModel;

    open spec fn view(&self) -> MessageModel {
        match self {
            RPCAPMessage::AuthRequest { auth_type } => MessageModel::AuthRequest {
                auth_type: *auth_type,
            },
            RPCAPMessage::AuthResponse => MessageModel::AuthResponse,
            RPCAPMessage::Error(code, text) => MessageModel::Error(*code, text@),
            RPCAPMessage::AuthNotSupError(text) => MessageModel::AuthNotSupError(text@),
            RPCAPMessage::WrongMessageError(text) => MessageModel::WrongMessageError(text@),
            RPCAPMessage::OpenError(text) => MessageModel::OpenError(text@),
            RPCAPMessage::OpenDeviceRequest { device_name } => MessageModel::OpenDeviceRequest {
                device_name: device_name@,
            },
            RPCAPMessage::OpenDeviceResponse => MessageModel::OpenDeviceResponse,
            RPCAPMessage::FindAllDevsRequest => MessageModel::FindAllDevsRequest,
            RPCAPMessage::FindAllDevsResponse(devs) => MessageModel::FindAllDevsResponse(
                devs@.map_values(|d: Interface| d@),
            ),
            RPCAPMessage::StartCapRequest => MessageModel::StartCapRequest,
            RPCAPMessage::StartCapResponse { server_port } => MessageModel::StartCapResponse {
                server_port: *server_port,
            },
            RPCAPMessage::UpdateFilterRequest => MessageModel::UpdateFilterRequest,
            RPCAPMessage::UpdateFilterResponse => MessageModel::UpdateFilterResponse,
            RPCAPMessage::Packet { data, arrival_secs, arrival_micros, number } =>
                MessageModel::Packet {
                data: data@,
                arrival_secs: *arrival_secs,
                arrival_micros: *arrival_micros,
                number: *number,
            },
        }
    }
}

/// The header of a message of type `msg_type` with value `value` and a
/// payload of `len` bytes.
pub open spec fn spec_header(msg_type: u8, value: u16, len: u32) -> Seq<u8> {
    seq![0u8, msg_type] + be2(value as u64) + be4(len as u64)
}

/// The number of zero bytes that pad `n` bytes to a multiple of four bytes.
pub open spec fn spec_pad_len(n: nat) -> nat {
    ((4 - n % 4) % 4) as nat
}

/// The zero bytes that pad `n` bytes to a multiple of four bytes.
pub open spec fn spec_padding(n: nat) -> Seq<u8> {
    Seq::new(spec_pad_len(n), |_i: int| 0u8)
}

/// What the padding of `n` bytes reads back as: as many NUL characters.
pub open spec fn spec_nul_padding(n: nat) -> Seq<char> {
    Seq::new(spec_pad_len(n), |_i: int| '\0')
}

/// The length field of a payload of `n` bytes and its padding, written in
/// the field's 32 bits.
pub open spec fn spec_padded_len(n: nat) -> u32 {
    ((n + spec_pad_len(n)) % 0x1_0000_0000) as u32
}

/// An error report with code `code` and text `text`, padded to a multiple of
/// four bytes; the padding counts in the length.
pub open spec fn spec_error_message(code: u16, text: Seq<char>) -> Seq<u8> {
    spec_header(MSG_ERROR, code, spec_padded_len(encode_utf8(text).len())) + encode_utf8(text)
        + spec_padding(encode_utf8(text).len())
}

/// The entry of one interface in the interface list: the lengths of its name
/// and description, its flags, no addresses, and then the two texts.
pub open spec fn spec_interface_entry(d: (Seq<char>, Seq<char>)) -> Seq<u8> {
    be2(encode_utf8(d.0).len() as u64) + be2(encode_utf8(d.1).len() as u64) + be4(
        INTERFACE_FLAGS as u64,
    ) + be2(0) + be2(0) + encode_utf8(d.0) + encode_utf8(d.1)
}

/// The entries of the interfaces, one after the other.
pub open spec fn spec_interface_entries(devs: Seq<(Seq<char>, Seq<char>)>) -> Seq<u8>
    decreases devs.len(),
{
    if devs.len() == 0 {
        Seq::empty()
    } else {
        spec_interface_entries(devs.drop_last()) + spec_interface_entry(devs.last())
    }
}

/// The length of the interface entries: twelve bytes each, and their texts.
pub open spec fn spec_interface_entries_len(devs: Seq<(Seq<char>, Seq<char>)>) -> nat
    decreases devs.len(),
{
    if devs.len() == 0 {
        0
    } else {
        spec_interface_entries_len(devs.drop_last()) + 12 + encode_utf8(devs.last().0).len()
            + encode_utf8(devs.last().1).len()
    }
}

/// The messages the daemon sends, with the limits that its lengths and counts
/// must keep.
pub open spec fn spec_encodable(m: MessageModel) -> bool {
    match m {
        MessageModel::AuthNotSupError(_) => true,
        MessageModel::WrongMessageError(_) => true,
        MessageModel::OpenError(_) => true,
        MessageModel::AuthResponse => true,
        MessageModel::OpenDeviceResponse => true,
        MessageModel::FindAllDevsResponse(devs) => {
            &&& devs.len() < u16::MAX
            &&& forall|i: int|
                0 <= i < devs.len() ==> encode_utf8((#[trigger] devs[i]).0).len() <= u16::MAX
                    && encode_utf8(devs[i].1).len() <= u16::MAX
        },
        MessageModel::StartCapResponse { .. } => true,
        MessageModel::UpdateFilterResponse => true,
        MessageModel::Packet { data, .. } => (data.len() as u32) + 20 + spec_pad_len(data.len())
            <= u32::MAX,
        _ => false,
    }
}

/// The bytes of a message the daemon sends. Every message is padded with
/// zero bytes to a multiple of four bytes, and the length in the header counts
/// the padding. Lengths and counts are written in the width of their field,
/// that is modulo its range.
pub open spec fn spec_encode(m: MessageModel) -> Seq<u8> {
    match m {
        MessageModel::AuthNotSupError(text) => spec_error_message(ERR_AUTH_TYPE_NOT_SUPPORTED, text),
        MessageModel::WrongMessageError(text) => spec_error_message(ERR_WRONG_MESSAGE, text),
        MessageModel::OpenError(text) => spec_error_message(ERR_OPEN, text),
        MessageModel::AuthResponse => spec_header(MSG_AUTH_REQ | MSG_REPLY, 0, 0),
        MessageModel::OpenDeviceResponse => spec_header(MSG_OPEN_REQ | MSG_REPLY, 0, 8) + be4(
            LINK_TYPE_ETHERNET as u64,
        ) + be4(0),
        MessageModel::FindAllDevsResponse(devs) => spec_header(
            MSG_FIND_ALL_IF_REQ | MSG_REPLY,
            devs.len() as u16,
            spec_padded_len(spec_interface_entries_len(devs)),
        ) + spec_interface_entries(devs) + spec_padding(spec_interface_entries_len(devs)),
        MessageModel::StartCapResponse { server_port } => spec_header(
            MSG_START_CAP_REQ | MSG_REPLY,
            0,
            8,
        ) + be4(CAPTURE_BUFFER_SIZE as u64) + be2(server_port as u64) + be2(0),
        MessageModel::UpdateFilterResponse => spec_header(MSG_UPDATE_FILTER_REQ | MSG_REPLY, 0, 0),
        MessageModel::Packet { data, arrival_secs, arrival_micros, number } => spec_header(
            MSG_PACKET,
            0,
            ((data.len() as u32) + 20 + spec_pad_len(data.len())) as u32,
        ) + be4(arrival_secs as u32 as u64) + be4((arrival_micros % 1_000_000) as u64) + be4(
            data.len() as u32 as u64,
        ) + be4(data.len() as u32 as u64) + be4(number as u32 as u64) + data + spec_padding(
            data.len(),
        ),
        _ => Seq::empty(),
    }
}

/// Why bytes could not be read as a message.
#[derive(Clone, Copy, Debug, PartialEq, Eq, Structural)]
pub enum ParseError {
    /// The message is longer than the bytes given.
    Incomplete,
    /// The message type is not one the daemon handles.
    Unsupported(u8),
}

/// What `String::from_utf8_lossy` makes of bytes that are not valid UTF-8.
pub uninterp spec fn utf8_lossy(bytes: Seq<u8>) -> Seq<char>;

/// The text of received bytes: their characters where they are valid UTF-8.
pub open spec fn spec_received_text(bytes: Seq<u8>) -> Seq<char> {
    if valid_utf8(bytes) {
        decode_utf8(bytes)
    } else {
        utf8_lossy(bytes)
    }
}

/// The authentication type of its code.
pub open spec fn spec_auth_type(code: u16) -> AuthType {
    if code == 0 {
        AuthType::Null
    } else if code == 1 {
        AuthType::Basic
    } else {
        AuthType::Unknown
    }
}

/// The number of bytes of the message whose header starts `b`: the header,
/// and the payload where the message has one.
pub open spec fn spec_required_length(b: Seq<u8>) -> Result<int, ParseError> {
    let t = b[1];
    let len = from_be4(b, 4) as int;
    if t == MSG_ERROR || t == MSG_OPEN_REQ || t == MSG_START_CAP_REQ || t == MSG_UPDATE_FILTER_REQ {
        Ok(8 + len)
    } else if t == MSG_AUTH_REQ {
        Ok(16)
    } else if t == MSG_FIND_ALL_IF_REQ {
        Ok(8)
    } else {
        Err(ParseError::Unsupported(t))
    }
}

/// The message at the start of `b` (a request, or an error report) and its
/// length.
pub open spec fn spec_parse(b: Seq<u8>) -> Result<(MessageModel, int), ParseError> {
    if b.len() < 8 {
        Err(ParseError::Incomplete)
    } else {
        match spec_required_length(b) {
            Err(e) => Err(e),
            Ok(n) => if b.len() < n {
                Err(ParseError::Incomplete)
            } else {
                let t = b[1];
                let m = if t == MSG_ERROR {
                    MessageModel::Error(from_be2(b, 2) as u16, spec_received_text(b.subrange(8, n)))
                } else if t == MSG_OPEN_REQ {
                    MessageModel::OpenDeviceRequest {
                        device_name: spec_received_text(b.subrange(8, n)),
                    }
                } else if t == MSG_START_CAP_REQ {
                    MessageModel::StartCapRequest
                } else if t == MSG_UPDATE_FILTER_REQ {
                    MessageModel::UpdateFilterRequest
                } else if t == MSG_AUTH_REQ {
                    MessageModel::AuthRequest { auth_type: spec_auth_type(from_be2(b, 8) as u16) }
                } else {
                    MessageModel::FindAllDevsRequest
                };
                Ok((m, n))
            },
        }
    }
}

/// The text of `bytes`, with each invalid UTF-8 sequence replaced.
///
/// Calls `String::from_utf8_lossy`, whose documentation says that valid UTF-8
/// keeps its characters; what an invalid sequence becomes is left to the name
/// `utf8_lossy`.
#[verifier::external_body]
fn string_from_utf8_lossy(bytes: &[u8]) -> (r: String)
    ensures
        valid_utf8(bytes@) ==> r@ == decode_utf8(bytes@),
        !valid_utf8(bytes@) ==> r@ == utf8_lossy(bytes@),
{
    String::from_utf8_lossy(bytes).into_owned()
}

fn push_u16(out: &mut Vec<u8>, v: u16)
    ensures
        final(out)@ == old(out)@ + be2(v as u64),
{
    let w = v as u64;
    out.push(((w >> 8u64) & 0xFF) as u8);
    out.push((w & 0xFF) as u8);
    assert(final(out)@ =~= old(out)@ + be2(v as u64));
}

fn push_u32(out: &mut Vec<u8>, v: u32)
    ensures
        final(out)@ == old(out)@ + be4(v as u64),
{
    let w = v as u64;
    out.push(((w >> 24u64) & 0xFF) as u8);
    out.push(((w >> 16u64) & 0xFF) as u8);
    out.push(((w >> 8u64) & 0xFF) as u8);
    out.push((w & 0xFF) as u8);
    assert(final(out)@ =~= old(out)@ + be4(v as u64));
}

fn push_bytes(out: &mut Vec<u8>, bytes: &[u8])
    ensures
        final(out)@ == old(out)@ + bytes@,
{
    let ghost start = out@;
    let mut i: usize = 0;
    while i < bytes.len()
        invariant
            i <= bytes@.len(),
            out@ == start + bytes@.take(i as int),
        decreases bytes@.len() - i,
    {
        out.push(bytes[i]);
        assert(bytes@.take(i + 1) =~= bytes@.take(i as int).push(bytes@[i as int]));
        i = i + 1;
    }
    assert(bytes@.take(bytes@.len() as int) =~= bytes@);
}

fn push_header(out: &mut Vec<u8>, msg_type: u8, value: u16, len: u32)
    ensures
        final(out)@ == old(out)@ + spec_header(msg_type, value, len),
{
    out.push(0u8);
    out.push(msg_type);
    push_u16(out, value);
    push_u32(out, len);
    assert(final(out)@ =~= old(out)@ + spec_header(msg_type, value, len));
}

fn pad_len(n: u64) -> (r: u64)
    ensures
        r == spec_pad_len(n as nat),
{
    (4 - n % 4) % 4
}

fn push_padding(out: &mut Vec<u8>, n: u64)
    ensures
        final(out)@ == old(out)@ + spec_padding(n as nat),
{
    let ghost start = out@;
    let p = pad_len(n);
    let mut i: u64 = 0;
    while i < p
        invariant
            i <= p,
            p == spec_pad_len(n as nat),
            out@ == start + Seq::new(i as nat, |_j: int| 0u8),
        decreases p - i,
    {
        out.push(0u8);
        assert(Seq::new((i + 1) as nat, |_j: int| 0u8) =~= Seq::new(i as nat, |_j: int| 0u8).push(0u8));
        i = i + 1;
    }
    assert(Seq::new(p as nat, |_j: int| 0u8) =~= spec_padding(n as nat));
}

fn padded_len(n: u64) -> (r: u32)
    ensures
        r == spec_padded_len(n as nat),
{
    let p = pad_len(n);
    let low = n % 0x1_0000_0000u64;
    let sum = low + p;
    assert(sum % 0x1_0000_0000 == (n + p) % 0x1_0000_0000);
    (sum % 0x1_0000_0000u64) as u32
}

fn push_error_message(out: &mut Vec<u8>, code: u16, text: &String)
    ensures
        final(out)@ == old(out)@ + spec_error_message(code, text@),
{
    let bytes = text.as_str().as_bytes();
    let n = bytes.len() as u64;
    push_header(out, MSG_ERROR, code, padded_len(n));
    push_bytes(out, bytes);
    push_padding(out, n);
    assert(final(out)@ =~= old(out)@ + spec_error_message(code, text@));
}

proof fn lemma_entries_len(devs: Seq<(Seq<char>, Seq<char>)>)
    ensures
        spec_interface_entries(devs).len() == spec_interface_entries_len(devs),
    decreases devs.len(),
{
    if devs.len() > 0 {
        lemma_entries_len(devs.drop_last());
    }
}

fn push_interface_entries(out: &mut Vec<u8>, devs: &Vec<Interface>)
    requires
        forall|i: int|
            0 <= i < devs@.len() ==> encode_utf8((#[trigger] devs@[i]).name@).len() <= u16::MAX
                && encode_utf8(devs@[i].description@).len() <= u16::MAX,
    ensures
        final(out)@ == old(out)@ + spec_interface_entries(devs@.map_values(|d: Interface| d@)),
{
    let ghost start = out@;
    let ghost dm = devs@.map_values(|d: Interface| d@);
    let mut i: usize = 0;
    while i < devs.len()
        invariant
            i <= devs@.len(),
            dm == devs@.map_values(|d: Interface| d@),
            forall|k: int|
                0 <= k < devs@.len() ==> encode_utf8((#[trigger] devs@[k]).name@).len() <= u16::MAX
                    && encode_utf8(devs@[k].description@).len() <= u16::MAX,
            out@ == start + spec_interface_entries(dm.take(i as int)),
        decreases devs@.len() - i,
    {
        let dev = &devs[i];
        let name = dev.name.as_str().as_bytes();
        let description = dev.description.as_str().as_bytes();
        let ghost before = out@;
        push_u16(out, name.len() as u16);
        push_u16(out, description.len() as u16);
        push_u32(out, INTERFACE_FLAGS);
        push_u16(out, 0);
        push_u16(out, 0);
        push_bytes(out, name);
        push_bytes(out, description);
        proof {
            assert(dm.take(i + 1).drop_last() =~= dm.take(i as int));
            assert(dm.take(i + 1).last() == dev@);
            assert(out@ =~= before + spec_interface_entry(dev@));
        }
        i = i + 1;
    }
    assert(dm.take(devs@.len() as int) =~= dm);
}

fn interface_entries_len(devs: &Vec<Interface>) -> (r: u64)
    requires
        devs@.len() < u16::MAX,
        forall|i: int|
            0 <= i < devs@.len() ==> encode_utf8((#[trigger] devs@[i]).name@).len() <= u16::MAX
                && encode_utf8(devs@[i].description@).len() <= u16::MAX,
    ensures
        r == spec_interface_entries_len(devs@.map_values(|d: Interface| d@)),
{
    let ghost dm = devs@.map_values(|d: Interface| d@);
    let mut total: u64 = 0;
    let mut i: usize = 0;
    while i < devs.len()
        invariant
            i <= devs@.len() < u16::MAX,
            dm == devs@.map_values(|d: Interface| d@),
            forall|k: int|
                0 <= k < devs@.len() ==> encode_utf8((#[trigger] devs@[k]).name@).len() <= u16::MAX
                    && encode_utf8(devs@[k].description@).len() <= u16::MAX,
            total == spec_interface_entries_len(dm.take(i as int)),
            total <= i * 0x3_0000,
        decreases devs@.len() - i,
    {
        let dev = &devs[i];
        let name = dev.name.as_str().as_bytes().len() as u64;
        let description = dev.description.as_str().as_bytes().len() as u64;
        proof {
            assert(dm.take(i + 1).drop_last() =~= dm.take(i as int));
            assert(dm.take(i + 1).last() == dev@);
        }
        total = total + 12 + name + description;
        i = i + 1;
    }
    assert(dm.take(devs@.len() as int) =~= dm);
    total
}

proof fn lemma_padded_aligned(n: nat)
    ensures
        (n + spec_padding(n).len()) % 4 == 0,
{
}

proof fn lemma_encode_aligned(m: MessageModel)
    requires
        spec_encodable(m),
    ensures
        spec_encode(m).len() % 4 == 0,
{
    match m {
        MessageModel::AuthNotSupError(t) => lemma_padded_aligned(encode_utf8(t).len()),
        MessageModel::WrongMessageError(t) => lemma_padded_aligned(encode_utf8(t).len()),
        MessageModel::OpenError(t) => lemma_padded_aligned(encode_utf8(t).len()),
        MessageModel::FindAllDevsResponse(devs) => {
            lemma_entries_len(devs);
            lemma_padded_aligned(spec_interface_entries_len(devs));
        },
        MessageModel::Packet { data, .. } => lemma_padded_aligned(data.len()),
        _ => {},
    }
}

impl RPCAPMessage {
    /// Whether the daemon can send this message.
    pub open spec fn encodable(&self) -> bool {
        spec_encodable(self@)
    }

    /// Whether the daemon can send this message; see [`spec_encodable`].
    pub fn is_encodable(&self) -> (r: bool)
        ensures
            r == self.encodable(),
    {
        match self {
            RPCAPMessage::AuthNotSupError(_) => true,
            RPCAPMessage::WrongMessageError(_) => true,
            RPCAPMessage::OpenError(_) => true,
            RPCAPMessage::AuthResponse => true,
            RPCAPMessage::OpenDeviceResponse => true,
            RPCAPMessage::FindAllDevsResponse(devs) => {
                if devs.len() >= 0xFFFF {
                    return false;
                }
                let ghost dm = devs@.map_values(|d: Interface| d@);
                assert(self@ == MessageModel::FindAllDevsResponse(dm));
                let mut i: usize = 0;
                while i < devs.len()
                    invariant
                        i <= devs@.len(),
                        dm == devs@.map_values(|d: Interface| d@),
                        self@ == MessageModel::FindAllDevsResponse(dm),
                        devs@.len() < 0xFFFF,
                        forall|k: int|
                            0 <= k < i ==> encode_utf8((#[trigger] dm[k]).0).len() <= u16::MAX
                                && encode_utf8(dm[k].1).len() <= u16::MAX,
                    decreases devs@.len() - i,
                {
                    let dev = &devs[i];
                    assert(dm[i as int] == dev@);
                    let name = dev.name.as_str();
                    let description = dev.description.as_str();
                    let name_len = name.as_bytes().len();
                    let description_len = description.as_bytes().len();
                    assert(name_len == encode_utf8(dev.name@).len());
                    assert(description_len == encode_utf8(dev.description@).len());
                    if name_len > 0xFFFF || description_len > 0xFFFF {
                        proof {
                            assert(self@ == MessageModel::FindAllDevsResponse(dm));
                            assert(encode_utf8(dm[i as int].0).len() > u16::MAX || encode_utf8(
                                dm[i as int].1,
                            ).len() > u16::MAX);
                        }
                        return false;
                    }
                    i = i + 1;
                }
                true
            },
            RPCAPMessage::StartCapResponse { .. } => true,
            RPCAPMessage::UpdateFilterResponse => true,
            RPCAPMessage::Packet { data, .. } => {
                let len32 = #[verifier::truncate] (data.len() as u32);
                let len = len32 as u64;
                len + 20 + pad_len(data.len() as u64) <= 0xFFFF_FFFF
            },
            _ => false,
        }
    }

    /// The bytes of a message the daemon sends.
    pub fn encode(&self) -> (r: Vec<u8>)
        requires
            self.encodable(),
        ensures
            r@ == spec_encode(self@),
            r@.len() % 4 == 0,
    {
        let mut out: Vec<u8> = Vec::new();
        match self {
            RPCAPMessage::AuthNotSupError(text) => {
                push_error_message(&mut out, ERR_AUTH_TYPE_NOT_SUPPORTED, text);
            },
            RPCAPMessage::WrongMessageError(text) => {
                push_error_message(&mut out, ERR_WRONG_MESSAGE, text);
            },
            RPCAPMessage::OpenError(text) => {
                push_error_message(&mut out, ERR_OPEN, text);
            },
            RPCAPMessage::AuthResponse => {
                push_header(&mut out, MSG_AUTH_REQ | MSG_REPLY, 0, 0);
            },
            RPCAPMessage::OpenDeviceResponse => {
                push_header(&mut out, MSG_OPEN_REQ | MSG_REPLY, 0, 8);
                push_u32(&mut out, LINK_TYPE_ETHERNET);
                push_u32(&mut out, 0);
            },
            RPCAPMessage::FindAllDevsResponse(devs) => {
                let ghost dm = devs@.map_values(|d: Interface| d@);
                proof {
                    assert forall|i: int| 0 <= i < devs@.len() implies encode_utf8(
                        (#[trigger] devs@[i]).name@,
                    ).len() <= u16::MAX && encode_utf8(devs@[i].description@).len()
                        <= u16::MAX by {
                        assert(dm[i] == devs@[i]@);
                    }
                }
                let total = interface_entries_len(devs);
                push_header(&mut out, MSG_FIND_ALL_IF_REQ | MSG_REPLY, devs.len() as u16, padded_len(total));
                push_interface_entries(&mut out, devs);
                push_padding(&mut out, total);
            },
            RPCAPMessage::StartCapResponse { server_port } => {
                push_header(&mut out, MSG_START_CAP_REQ | MSG_REPLY, 0, 8);
                push_u32(&mut out, CAPTURE_BUFFER_SIZE);
                push_u16(&mut out, *server_port);
                push_u16(&mut out, 0);
            },
            RPCAPMessage::UpdateFilterResponse => {
                push_header(&mut out, MSG_UPDATE_FILTER_REQ | MSG_REPLY, 0, 0);
            },
            RPCAPMessage::Packet { data, arrival_secs, arrival_micros, number } => {
                let len = data.len() as u32;
                let n = data.len() as u64;
                let p = pad_len(n);
                push_header(&mut out, MSG_PACKET, 0, len + 20 + (p as u32));
                push_u32(&mut out, *arrival_secs as u32);
                push_u32(&mut out, *arrival_micros % 1_000_000);
                push_u32(&mut out, len);
                push_u32(&mut out, len);
                push_u32(&mut out, *number as u32);
                push_bytes(&mut out, data.as_slice());
                push_padding(&mut out, n);
            },
            _ => {},
        }
        assert(out@ =~= spec_encode(self@));
        proof {
            lemma_encode_aligned(self@);
        }
        out
    }

    /// The message at the start of `b` (a request, or an error report) and
    /// its length in bytes; see [`spec_parse`].
    pub fn parse(b: &[u8]) -> (r: Result<(RPCAPMessage, usize), ParseError>)
        ensures
            match r {
                Ok((m, n)) => spec_parse(b@) == Ok::<(MessageModel, int), ParseError>((m@, n as int)),
                Err(e) => spec_parse(b@) == Err::<(MessageModel, int), ParseError>(e),
            },
    {
        if b.len() < 8 {
            return Err(ParseError::Incomplete);
        }
        let n = match required_length(b) {
            Err(e) => {
                return Err(e);
            },
            Ok(n) => n,
        };
        if (b.len() as u64) < n {
            return Err(ParseError::Incomplete);
        }
        let n = n as usize;
        let t = b[1];
        let m = if t == MSG_ERROR {
            RPCAPMessage::Error(read_u16(b, 2), string_from_utf8_lossy(&b[8..n]))
        } else if t == MSG_OPEN_REQ {
            RPCAPMessage::OpenDeviceRequest { device_name: string_from_utf8_lossy(&b[8..n]) }
        } else if t == MSG_START_CAP_REQ {
            RPCAPMessage::StartCapRequest
        } else if t == MSG_UPDATE_FILTER_REQ {
            RPCAPMessage::UpdateFilterRequest
        } else if t == MSG_AUTH_REQ {
            let code = read_u16(b, 8);
            let auth_type = if code == 0 {
                AuthType::Null
            } else if code == 1 {
                AuthType::Basic
            } else {
                AuthType::Unknown
            };
            RPCAPMessage::AuthRequest { auth_type }
        } else {
            RPCAPMessage::FindAllDevsRequest
        };
        Ok((m, n))
    }
}

fn read_u16(b: &[u8], pos: usize) -> (r: u16)
    requires
        pos + 2 <= b@.len(),
    ensures
        r == from_be2(b@, pos as int) as u16,
{
    let v: u64 = ((b[pos] as u64) << 8u64) | (b[pos + 1] as u64);
    v as u16
}

fn read_u32(b: &[u8], pos: usize) -> (r: u32)
    requires
        pos + 4 <= b@.len(),
    ensures
        r == from_be4(b@, pos as int),
{
    let b0 = b[pos];
    let b1 = b[pos + 1];
    let b2 = b[pos + 2];
    let b3 = b[pos + 3];
    let v: u64 = ((b0 as u64) << 24u64) | ((b1 as u64) << 16u64) | ((b2 as u64) << 8u64) | (
    b3 as u64);
    assert(v < 0x1_0000_0000) by (bit_vector)
        requires
            v == ((b0 as u64) << 24u64) | ((b1 as u64) << 16u64) | ((b2 as u64) << 8u64) | (
            b3 as u64),
    ;
    v as u32
}

/// The number of bytes of the message whose header starts `header`; see
/// [`spec_required_length`]. A reader that has the header reads this many
/// bytes in all before calling [`RPCAPMessage::parse`].
pub fn required_length(header: &[u8]) -> (r: Result<u64, ParseError>)
    requires
        header@.len() >= 8,
    ensures
        match r {
            Ok(n) => spec_required_length(header@) == Ok::<int, ParseError>(n as int),
            Err(e) => spec_required_length(header@) == Err::<int, ParseError>(e),
        },
{
    let t = header[1];
    let len = read_u32(header, 4) as u64;
    if t == MSG_ERROR || t == MSG_OPEN_REQ || t == MSG_START_CAP_REQ || t == MSG_UPDATE_FILTER_REQ {
        Ok(8 + len)
    } else if t == MSG_AUTH_REQ {
        Ok(16)
    } else if t == MSG_FIND_ALL_IF_REQ {
        Ok(8)
    } else {
        Err(ParseError::Unsupported(t))
    }
}

proof fn lemma_encode_utf8_concat(a: Seq<char>, b: Seq<char>)
    ensures
        encode_utf8(a + b) == encode_utf8(a) + encode_utf8(b),
    decreases a.len(),
{
    if a.len() == 0 {
        assert(a + b =~= b);
        assert(encode_utf8(a) + encode_utf8(b) =~= encode_utf8(b));
    } else {
        lemma_encode_utf8_concat(a.drop_first(), b);
        assert((a + b).drop_first() =~= a.drop_first() + b);
        assert((a + b)[0] == a[0]);
        assert(encode_utf8(a + b) =~= encode_utf8(a) + encode_utf8(b));
    }
}

proof fn lemma_padding_is_nuls(n: nat)
    ensures
        encode_utf8(spec_nul_padding(n)) == spec_padding(n),
{
    let nuls = spec_nul_padding(n);
    assert(vstd::utf8::is_ascii_chars(nuls));
    vstd::utf8::is_ascii_chars_encode_utf8(nuls);
    assert(('\0' as u8) == 0u8);
    assert(encode_utf8(nuls) =~= spec_padding(n));
}

/// An error report is read back, whole, with the code it was written with and
/// its text followed by the NUL characters of its padding.
pub proof fn lemma_error_message_roundtrip(code: u16, text: Seq<char>)
    requires
        encode_utf8(text).len() + 3 <= u32::MAX,
    ensures
        spec_parse(spec_error_message(code, text)) == Ok::<(MessageModel, int), ParseError>(
            (
                MessageModel::Error(code, text + spec_nul_padding(encode_utf8(text).len())),
                spec_error_message(code, text).len() as int,
            ),
        ),
{
    let enc = encode_utf8(text);
    let nuls = spec_nul_padding(enc.len());
    let pad = spec_padding(enc.len());
    let b = spec_error_message(code, text);
    let len = spec_padded_len(enc.len());
    assert(len == enc.len() + pad.len());
    lemma_be_roundtrip(code as u64);
    lemma_be_roundtrip(len as u64);
    assert(b[1] == MSG_ERROR);
    assert(from_be2(b, 2) == code as u64);
    assert(from_be4(b, 4) == len as u64);
    lemma_encode_utf8_concat(text, nuls);
    lemma_padding_is_nuls(enc.len());
    assert(b.subrange(8, 8 + len as int) =~= encode_utf8(text + nuls));
    vstd::utf8::encode_utf8_valid_utf8(text + nuls);
    vstd::utf8::encode_utf8_decode_utf8(text + nuls);
}

/// Each error the daemon sends is read back as an error report with its code
/// and its text, followed by the NUL characters of its padding.
pub proof fn lemma_sent_error_roundtrip(m: MessageModel)
    requires
        m is AuthNotSupError || m is WrongMessageError || m is OpenError,
        match m {
            MessageModel::AuthNotSupError(t) => encode_utf8(t).len() + 3 <= u32::MAX,
            MessageModel::WrongMessageError(t) => encode_utf8(t).len() + 3 <= u32::MAX,
            MessageModel::OpenError(t) => encode_utf8(t).len() + 3 <= u32::MAX,
            _ => true,
        },
    ensures
        spec_parse(spec_encode(m)) == Ok::<(MessageModel, int), ParseError>(
            (
                match m {
                    MessageModel::AuthNotSupError(t) => MessageModel::Error(
                        ERR_AUTH_TYPE_NOT_SUPPORTED,
                        t + spec_nul_padding(encode_utf8(t).len()),
                    ),
                    MessageModel::WrongMessageError(t) => MessageModel::Error(
                        ERR_WRONG_MESSAGE,
                        t + spec_nul_padding(encode_utf8(t).len()),
                    ),
                    MessageModel::OpenError(t) => MessageModel::Error(
                        ERR_OPEN,
                        t + spec_nul_padding(encode_utf8(t).len()),
                    ),
                    _ => m,
                },
                spec_encode(m).len() as int,
            ),
        ),
{
    match m {
        MessageModel::AuthNotSupError(t) => lemma_error_message_roundtrip(ERR_AUTH_TYPE_NOT_SUPPORTED, t),
        MessageModel::WrongMessageError(t) => lemma_error_message_roundtrip(ERR_WRONG_MESSAGE, t),
        MessageModel::OpenError(t) => lemma_error_message_roundtrip(ERR_OPEN, t),
        _ => {},
    }
}

} // verus!
