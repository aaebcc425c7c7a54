//! The wire format: ten bytes per packet, most significant bit first.
//!
//! | byte | content |
//! |------|---------|
//! | 0    | header, always `0x00` |
//! | 1..4 | red, green, blue |
//! | 4    | off, dim, flash (one bit each), speed mask (three bits), two unused bits |
//! | 5    | music index (four bits), play, repeat, two unused bits |
//! | 6    | volume (four bits), mute, three unused bits |
//! | 7..9 | footer, always `0xFF22`, high byte first |
//! | 9    | unused, written as zero |

use vstd::prelude::*;
use crate::state::BlyncControl;
use crate::state::FlashSpeed;
use crate::state::LightState;

verus! {

/// Number of bytes in a packet.
pub const PACKET_LEN: usize = 10;

/// The first byte of every packet.
pub const HEADER: u8 = 0x00;

/// The two-byte mark that closes the fields of every packet.
pub const FOOTER: u16 = 0xFF22;

/// Why a buffer is not a packet.
#[derive(Clone, Copy, Debug, PartialEq, Eq, Structural)]
pub enum FormatError {
    /// The buffer does not hold exactly ten bytes.
    WrongLength { length: usize },
    /// Bytes 7 and 8 do not hold the footer.
    BadFooter { footer: u16 },
}

/// What a well-framed packet holds.
#[derive(Clone, Copy, Debug, PartialEq, Eq, Structural)]
pub struct Decoded {
    /// The state of the light that the packet describes.
    pub state: BlyncControl,
    /// The header byte as it was found. Anything but zero is an anomaly
    /// that the reader may want to report.
    pub header: u8,
}

impl Decoded {
    /// True when the header byte was not the expected zero.
    pub fn header_anomaly(&self) -> (odd: bool)
        ensures
            odd == (self.header != HEADER),
    {
        self.header != HEADER
    }
}

/// One for a set flag, zero for a cleared one.
pub open spec fn bit(flag: bool) -> int {
    if flag {
        1
    } else {
        0
    }
}

/// Byte 4: off, dim and flash in the three top bits, then the speed mask.
pub open spec fn flags_byte(s: LightState) -> int {
    128 * bit(s.off) + 64 * bit(s.dim) + 32 * bit(s.flash) + 4 * s.speed
}

/// Byte 5: the music index in the top four bits, then play and repeat.
pub open spec fn music_byte(s: LightState) -> int {
    16 * s.music + 8 * bit(s.play) + 4 * bit(s.repeat)
}

/// Byte 6: the volume in the top four bits, then mute.
pub open spec fn volume_byte(s: LightState) -> int {
    16 * s.volume + 8 * bit(s.mute)
}

/// The packet that stands for a state.
pub open spec fn encode_spec(s: LightState) -> Seq<u8> {
    seq![
        HEADER,
        s.red,
        s.green,
        s.blue,
        flags_byte(s) as u8,
        music_byte(s) as u8,
        volume_byte(s) as u8,
        0xFFu8,
        0x22u8,
        0u8,
    ]
}

/// The footer as read from bytes 7 and 8 of a ten-byte buffer.
pub open spec fn footer_of(bytes: Seq<u8>) -> int {
    256 * bytes[7] + bytes[8]
}

/// The state that the fields of a ten-byte buffer describe. Unused bits
/// are not looked at.
pub open spec fn fields_of(bytes: Seq<u8>) -> LightState {
    LightState {
        red: bytes[1],
        green: bytes[2],
        blue: bytes[3],
        off: bytes[4] / 128 == 1,
        dim: (bytes[4] / 64) % 2 == 1,
        flash: (bytes[4] / 32) % 2 == 1,
        speed: ((bytes[4] / 4) % 8) as u8,
        music: (bytes[5] / 16) as u8,
        play: (bytes[5] / 8) % 2 == 1,
        repeat: (bytes[5] / 4) % 2 == 1,
        volume: (bytes[6] / 16) as u8,
        mute: (bytes[6] / 8) % 2 == 1,
    }
}

/// Whether a buffer is a packet: ten bytes with the footer in place.
pub open spec fn well_framed(bytes: Seq<u8>) -> bool {
    bytes.len() == PACKET_LEN && footer_of(bytes) == FOOTER
}

/// What reading a buffer gives: the state and the header byte found, or
/// the reason why the buffer is no packet. The length is looked at first.
pub open spec fn decode_spec(bytes: Seq<u8>) -> Result<(LightState, u8), FormatError> {
    if bytes.len() != PACKET_LEN {
        Err(FormatError::WrongLength { length: bytes.len() as usize })
    } else if footer_of(bytes) != FOOTER {
        Err(FormatError::BadFooter { footer: footer_of(bytes) as u16 })
    } else {
        Ok((fields_of(bytes), bytes[0]))
    }
}

/// Turns a state into its packet.
pub fn encode(state: &BlyncControl) -> (packet: [u8; 10])
    ensures
        packet@ == encode_spec(state@),
        packet@[0] == HEADER,
        footer_of(packet@) == FOOTER,
{
    let s = state.state();
    let off: u8 = if s.off { 0x80 } else { 0 };
    let dim: u8 = if s.dim { 0x40 } else { 0 };
    let flash: u8 = if s.flash { 0x20 } else { 0 };
    let play: u8 = if s.play { 0x08 } else { 0 };
    let repeat: u8 = if s.repeat { 0x04 } else { 0 };
    let mute: u8 = if s.mute { 0x08 } else { 0 };
    let flags: u8 = off + dim + flash + s.speed * 4;
    let music: u8 = s.music * 16 + play + repeat;
    let volume: u8 = s.volume * 16 + mute;
    let packet: [u8; 10] = [HEADER, s.red, s.green, s.blue, flags, music, volume, 0xFF, 0x22, 0];
    assert(packet@ =~= encode_spec(state@));
    packet
}

/// Reads a packet back into a state.
///
/// Fails when the buffer is not ten bytes long, and otherwise when bytes 7
/// and 8 are not the footer. The header byte is not checked: it is handed
/// back beside the state, for the caller to report when it is not zero.
pub fn decode(bytes: &[u8]) -> (read: Result<Decoded, FormatError>)
    ensures
        match read {
            Ok(found) => decode_spec(bytes@) == Ok::<(LightState, u8), FormatError>(
                (found.state@, found.header),
            ),
            Err(reason) => decode_spec(bytes@) == Err::<(LightState, u8), FormatError>(reason),
        },
        bytes@.len() != PACKET_LEN ==> read is Err,
        well_framed(bytes@) <==> read is Ok,
{
    if bytes.len() != PACKET_LEN {
        return Err(FormatError::WrongLength { length: bytes.len() });
    }
    let footer: u16 = (bytes[7] as u16) * 256 + (bytes[8] as u16);
    if footer != FOOTER {
        return Err(FormatError::BadFooter { footer });
    }
    let fields = LightState {
        red: bytes[1],
        green: bytes[2],
        blue: bytes[3],
        off: bytes[4] / 128 == 1,
        dim: (bytes[4] / 64) % 2 == 1,
        flash: (bytes[4] / 32) % 2 == 1,
        speed: (bytes[4] / 4) % 8,
        music: bytes[5] / 16,
        play: (bytes[5] / 8) % 2 == 1,
        repeat: (bytes[5] / 4) % 2 == 1,
        volume: bytes[6] / 16,
        mute: (bytes[6] / 8) % 2 == 1,
    };
    assert(fields == fields_of(bytes@));
    Ok(Decoded { state: BlyncControl::from_valid(fields), header: bytes[0] })
}

/// Whatever the bytes, the fields read from them fit their widths.
pub proof fn lemma_fields_fit(bytes: Seq<u8>)
    ensures
        fields_of(bytes).valid(),
{
}

/// Every packet that `encode` builds is ten bytes long, opens with the
/// header and carries the footer in bytes 7 and 8.
pub proof fn lemma_encode_framing(s: LightState)
    ensures
        encode_spec(s).len() == PACKET_LEN,
        encode_spec(s)[0] == HEADER,
        encode_spec(s)[7] == 0xFF,
        encode_spec(s)[8] == 0x22,
        well_framed(encode_spec(s)),
{
}

/// Decoding what was encoded gives the state back, with a zero header.
pub proof fn lemma_decode_encode(s: LightState)
    requires
        s.valid(),
    ensures
        decode_spec(encode_spec(s)) == Ok::<(LightState, u8), FormatError>((s, HEADER)),
{
    let bytes = encode_spec(s);
    lemma_encode_framing(s);
    assert(fields_of(bytes) == s);
}

/// The speed mask sits in bits 4 to 2 of byte 4: a blinking state
/// carries the mask bit of its speed there, so the fast speed reads as
/// `0b100`.
pub proof fn lemma_speed_on_the_wire(r: u8, g: u8, b: u8, speed: FlashSpeed)
    ensures
        fields_of(encode_spec(LightState::blinking(r, g, b, speed))).speed == speed.mask(),
        (encode_spec(LightState::blinking(r, g, b, speed))[4] / 4) % 8 == speed.mask(),
        encode_spec(LightState::blinking(r, g, b, FlashSpeed::Fast))[4] == 0x30,
{
}

/// No buffer of another length than ten decodes.
pub proof fn lemma_wrong_length_rejected(bytes: Seq<u8>)
    requires
        bytes.len() != PACKET_LEN,
    ensures
        decode_spec(bytes) == Err::<(LightState, u8), FormatError>(
            FormatError::WrongLength { length: bytes.len() as usize },
        ),
{
}

} // verus!
