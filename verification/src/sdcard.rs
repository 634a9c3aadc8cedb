//! The SD card's SPI protocol, as far as the board uses it: the frames of
//! CMD0 (go idle) and of commands with an argument, and the reading of the R1
//! and R7 responses out of the bytes clocked back.

use vstd::prelude::*;
use crate::cbor::{be4, from_be4};

verus! {

/// The argument of CMD8: 2.7-3.6V, and the check pattern `0xAA`.
pub const CMD8_ARG: u32 = 0x0000_01AA;
/// The CRC of CMD8 with [`CMD8_ARG`].
pub const CMD8_CRC: u8 = 0x87;
/// The CRC of CMD0.
pub const CMD0_CRC: u8 = 0x95;
/// The length of a command frame: the command, and room for the response.
pub const COMMAND_FRAME_LEN: usize = 22;
/// The length of the CMD0 frame.
pub const CMD0_FRAME_LEN: usize = 24;
/// Where the response of a command starts in its frame.
pub const RESPONSE_START: usize = 6;

/// An R1 response: the card's status bits.
#[derive(Clone, Copy, Debug, PartialEq, Eq, Structural)]
pub struct R1(pub u8);

impl R1 {
    /// Whether bit `k` is set.
    pub open spec fn bit(self, k: u8) -> bool {
        self.0 & (1u8 << k) != 0
    }

    /// No status bit is set.
    pub fn is_zero(&self) -> (r: bool)
        ensures
            r == (self.0 == 0),
    {
        self.0 == 0
    }

    /// The card is in the idle state.
    pub fn is_idle(&self) -> (r: bool)
        ensures
            r == self.bit(0),
    {
        self.0 & (1u8 << 0u8) != 0
    }

    /// An erase sequence was cleared before executing.
    pub fn is_erase_reset(&self) -> (r: bool)
        ensures
            r == self.bit(1),
    {
        self.0 & (1u8 << 1u8) != 0
    }

    /// The command is not known to the card.
    pub fn is_illegal_command(&self) -> (r: bool)
        ensures
            r == self.bit(2),
    {
        self.0 & (1u8 << 2u8) != 0
    }

    /// The command's CRC was wrong.
    pub fn is_com_crc_error(&self) -> (r: bool)
        ensures
            r == self.bit(3),
    {
        self.0 & (1u8 << 3u8) != 0
    }

    /// An erase sequence was out of order.
    pub fn is_erasure_sequence_error(&self) -> (r: bool)
        ensures
            r == self.bit(4),
    {
        self.0 & (1u8 << 4u8) != 0
    }

    /// A misaligned address was used.
    pub fn is_address_error(&self) -> (r: bool)
        ensures
            r == self.bit(5),
    {
        self.0 & (1u8 << 5u8) != 0
    }

    /// The command's argument was out of range.
    pub fn is_parameter_error(&self) -> (r: bool)
        ensures
            r == self.bit(6),
    {
        self.0 & (1u8 << 6u8) != 0
    }
}

/// An R7 response: the R1 status and the 32 bits that follow.
#[derive(Clone, Copy, Debug, PartialEq, Eq, Structural)]
pub struct R7 {
    pub r1: R1,
    pub echo_back: u32,
}

/// Why talking to the card failed.
#[derive(Clone, Copy, Debug, PartialEq, Eq, Structural)]
pub enum SdCardError {
    /// The SPI transfer failed.
    Spi,
    NotIdle,
    NoResponse,
}

/// The kind of card, as far as CMD8 tells.
#[derive(Clone, Copy, Debug, PartialEq, Eq, Structural)]
pub enum SdCardType {
    SDv1,
    SDv2,
    SDHC,
}

/// The frame of command `cmd` with argument `arg`: the start bit and index,
/// the argument big-endian, the CRC byte, then sixteen bytes of `0xFF` during
/// which the response is clocked in.
pub open spec fn spec_command_frame(cmd: u8, arg: u32, crc: u8) -> Seq<u8> {
    seq![0x40u8 | cmd] + be4(arg as u64) + seq![crc] + Seq::new(16, |i: int| 0xFFu8)
}

/// The frame of command `cmd`; see [`spec_command_frame`]. The index takes
/// six bits.
pub fn command_frame(cmd: u8, arg: u32, crc: u8) -> (r: [u8; 22])
    requires
        cmd & 0xC0 == 0,
    ensures
        r@ == spec_command_frame(cmd, arg, crc),
{
    let mut r = [0xFFu8; 22];
    let a = arg as u64;
    r[0] = 0x40 | cmd;
    r[1] = ((a >> 24u64) & 0xFF) as u8;
    r[2] = ((a >> 16u64) & 0xFF) as u8;
    r[3] = ((a >> 8u64) & 0xFF) as u8;
    r[4] = (a & 0xFF) as u8;
    r[5] = crc;
    assert(r@ =~= spec_command_frame(cmd, arg, crc));
    r
}

/// The frame of CMD0: index 0, argument 0, its CRC, and eighteen bytes of
/// `0xFF`.
pub open spec fn spec_cmd0_frame() -> Seq<u8> {
    seq![0x40u8, 0x00, 0x00, 0x00, 0x00, CMD0_CRC] + Seq::new(18, |i: int| 0xFFu8)
}

/// The frame of CMD0; see [`spec_cmd0_frame`].
pub fn cmd0_frame() -> (r: [u8; 24])
    ensures
        r@ == spec_cmd0_frame(),
{
    let mut r = [0xFFu8; 24];
    r[0] = 0x40;
    r[1] = 0x00;
    r[2] = 0x00;
    r[3] = 0x00;
    r[4] = 0x00;
    r[5] = CMD0_CRC;
    assert(r@ =~= spec_cmd0_frame());
    r
}

/// Whether a byte can start a response: its top bit is clear.
pub open spec fn is_response_byte(b: u8) -> bool {
    b & 0x80 == 0
}

/// The first position from `from` on that holds a response byte.
pub open spec fn spec_first_response(r: Seq<u8>, from: int) -> Option<int>
    decreases r.len() - from,
{
    if from < 0 || from >= r.len() {
        None
    } else if is_response_byte(r[from]) {
        Some(from)
    } else {
        spec_first_response(r, from + 1)
    }
}

fn first_response(r: &[u8], from: usize) -> (k: Option<usize>)
    ensures
        match k {
            Some(k) => from <= k < r@.len() && spec_first_response(r@, from as int) == Some(
                k as int,
            ),
            None => spec_first_response(r@, from as int) is None,
        },
{
    let mut j = from;
    while j < r.len()
        invariant
            from <= j,
            spec_first_response(r@, from as int) == spec_first_response(r@, j as int),
        decreases r@.len() - j,
    {
        if r[j] & 0x80 == 0 {
            return Some(j);
        }
        j = j + 1;
    }
    None
}

/// The R1 response in the bytes clocked back after a command: the first
/// response byte after the command.
pub open spec fn spec_r1_response(r: Seq<u8>) -> Result<R1, SdCardError> {
    match spec_first_response(r, RESPONSE_START as int) {
        Some(k) => Ok(R1(r[k])),
        None => Err(SdCardError::NoResponse),
    }
}

/// Reads an R1 response; see [`spec_r1_response`].
pub fn r1_response(r: &[u8]) -> (res: Result<R1, SdCardError>)
    ensures
        res == spec_r1_response(r@),
{
    match first_response(r, RESPONSE_START) {
        Some(k) => Ok(R1(r[k])),
        None => Err(SdCardError::NoResponse),
    }
}

/// The R7 response in the bytes clocked back after a command: the first
/// response byte after the command, and the four bytes after it, which must
/// be there.
pub open spec fn spec_r7_response(r: Seq<u8>) -> Result<R7, SdCardError> {
    match spec_first_response(r, RESPONSE_START as int) {
        Some(k) => if k > r.len() - 5 {
            Err(SdCardError::NoResponse)
        } else {
            Ok(R7 { r1: R1(r[k]), echo_back: from_be4(r, k + 1) as u32 })
        },
        None => Err(SdCardError::NoResponse),
    }
}

/// Reads an R7 response; see [`spec_r7_response`].
pub fn r7_response(r: &[u8]) -> (res: Result<R7, SdCardError>)
    requires
        r@.len() >= 5,
    ensures
        res == spec_r7_response(r@),
{
    match first_response(r, RESPONSE_START) {
        Some(k) => {
            if k > r.len() - 5 {
                return Err(SdCardError::NoResponse);
            }
            let b0 = r[k + 1];
            let b1 = r[k + 2];
            let b2 = r[k + 3];
            let b3 = r[k + 4];
            let v: u64 = ((b0 as u64) << 24u64) | ((b1 as u64) << 16u64) | ((b2 as u64) << 8u64)
                | (b3 as u64);
            Ok(R7 { r1: R1(r[k]), echo_back: v as u32 })
        },
        None => Err(SdCardError::NoResponse),
    }
}

/// The first position that holds `0x01`, the idle status.
pub open spec fn spec_first_idle(r: Seq<u8>, from: int) -> Option<int>
    decreases r.len() - from,
{
    if from < 0 || from >= r.len() {
        None
    } else if r[from] == 0x01 {
        Some(from)
    } else {
        spec_first_idle(r, from + 1)
    }
}

/// Whether the bytes clocked back during CMD0 say that the card went idle:
/// some byte is `0x01`, and every byte after the first such is `0xFF`.
pub open spec fn spec_cmd0_accepted(r: Seq<u8>) -> bool {
    match spec_first_idle(r, 0) {
        Some(i) => forall|j: int| i < j < r.len() ==> r[j] == 0xFF,
        None => false,
    }
}

/// Checks the response to CMD0; see [`spec_cmd0_accepted`].
pub fn check_cmd0_response(r: &[u8]) -> (res: Result<(), SdCardError>)
    ensures
        res == if spec_cmd0_accepted(r@) {
            Ok::<(), SdCardError>(())
        } else {
            Err::<(), SdCardError>(SdCardError::NotIdle)
        },
{
    let mut i: usize = 0;
    let mut found = false;
    while i < r.len()
        invariant_except_break
            !found,
            spec_first_idle(r@, 0) == spec_first_idle(r@, i as int),
        invariant
            i <= r@.len(),
        ensures
            found ==> i < r@.len() && spec_first_idle(r@, 0) == Some(i as int),
            !found ==> spec_first_idle(r@, 0) is None,
        decreases r@.len() - i,
    {
        let b = r[i];
        if b & 0x80 == 0 {
            if b == 0x01 {
                found = true;
                break;
            }
        } else {
            assert(b != 0x01) by (bit_vector)
                requires
                    b & 0x80 != 0,
            ;
        }
        i = i + 1;
    }
    if !found {
        return Err(SdCardError::NotIdle);
    }
    let n = r.len();
    let mut j = i + 1;
    while j < n
        invariant
            i < j <= n == r@.len(),
            spec_first_idle(r@, 0) == Some(i as int),
            forall|k: int| i < k < j ==> r@[k] == 0xFF,
        decreases r@.len() - j,
    {
        if r[j] != 0xFF {
            assert(!spec_cmd0_accepted(r@));
            return Err(SdCardError::NotIdle);
        }
        j = j + 1;
    }
    Ok(())
}

/// What the response to CMD8 says of the card: a card that does not know the
/// command is a version 1 card; one that knows it must be idle and echo the
/// check pattern, and is a version 2 card.
pub open spec fn spec_cmd8_card_type(r7: R7) -> Result<SdCardType, SdCardError> {
    if r7.r1.bit(2) {
        Ok(SdCardType::SDv1)
    } else if !r7.r1.bit(0) {
        Err(SdCardError::NotIdle)
    } else if r7.echo_back & 0xFFF != 0x1AA {
        Err(SdCardError::NoResponse)
    } else {
        Ok(SdCardType::SDv2)
    }
}

/// Reads the card type from the response to CMD8; see
/// [`spec_cmd8_card_type`].
pub fn cmd8_card_type(r7: R7) -> (r: Result<SdCardType, SdCardError>)
    ensures
        r == spec_cmd8_card_type(r7),
{
    if r7.r1.is_illegal_command() {
        return Ok(SdCardType::SDv1);
    }
    if !r7.r1.is_idle() {
        return Err(SdCardError::NotIdle);
    }
    if r7.echo_back & 0xFFF != 0x1AA {
        return Err(SdCardError::NoResponse);
    }
    Ok(SdCardType::SDv2)
}

/// An idle card that knows CMD8 and echoes its argument is a version 2 card.
pub proof fn lemma_cmd8_echo_accepted(r1: R1)
    requires
        !r1.bit(2),
        r1.bit(0),
    ensures
        spec_cmd8_card_type(R7 { r1, echo_back: CMD8_ARG }) == Ok::<SdCardType, SdCardError>(
            SdCardType::SDv2,
        ),
{
    assert(CMD8_ARG & 0xFFF == 0x1AA) by (bit_vector);
}

} // verus!
