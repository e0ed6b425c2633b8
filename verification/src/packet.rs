//! The packets of the lighting protocol and the control transfer that carries them.

use vstd::prelude::*;
use vstd::string::StringExecFns;
use crate::color::Color;
use crate::text::push_decimal;

verus! {

/// The length of every packet.
pub const PACKET_SIZE: usize = 64;

pub const RGB_CODE: u8 = 0x81;

pub const HEADER_CODE: u8 = 0x04;

pub const DISPLAY_CODE: u8 = 0xf2;

pub const PACKET_CNT: u8 = 0x01;

pub const CTRL_REQUEST_TYPE_OUT: u8 = 0x21;

pub const CTRL_REQUEST_OUT: u8 = 0x09;

pub const CTRL_VALUE: u16 = 0x0300;

pub const CTRL_INDEX: u16 = 0x0000;

/// How long a control transfer may take, in milliseconds.
pub const TRANSFER_TIMEOUT_MILLIS: u64 = 1000;

/// The packet that announces one display packet: two codes, a count, zeros elsewhere.
pub open spec fn header_packet() -> Seq<u8> {
    Seq::new(
        PACKET_SIZE as nat,
        |i: int|
            if i == 0 {
                HEADER_CODE
            } else if i == 1 {
                DISPLAY_CODE
            } else if i == 8 {
                PACKET_CNT
            } else {
                0
            },
    )
}

/// The eight bytes that give the upper and the lower diode their color.
pub open spec fn solid_prefix(upper: Color, lower: Color) -> Seq<u8> {
    seq![RGB_CODE, upper.r, upper.g, upper.b, RGB_CODE, lower.r, lower.g, lower.b]
}

/// The display packet for two colors, filled up with zeros.
pub open spec fn solid_packet(upper: Color, lower: Color) -> Seq<u8> {
    Seq::new(
        PACKET_SIZE as nat,
        |i: int|
            if i < 8 {
                solid_prefix(upper, lower)[i]
            } else {
                0
            },
    )
}

/// Builds the packet that announces a display packet.
pub fn build_header_packet() -> (p: [u8; PACKET_SIZE])
    ensures
        p@ == header_packet(),
        p@.len() == 64,
        p@[0] == 0x04,
        p@[1] == 0xf2,
        p@[8] == 0x01,
        forall|i: int| 2 <= i < 64 && i != 8 ==> #[trigger] p@[i] == 0,
{
    let mut p = [0u8; PACKET_SIZE];
    p[0] = HEADER_CODE;
    p[1] = DISPLAY_CODE;
    p[8] = PACKET_CNT;
    assert(p@ =~= header_packet());
    p
}

/// Builds the display packet for two colors.
pub fn build_solid_packet(upper: Color, lower: Color) -> (p: [u8; PACKET_SIZE])
    ensures
        p@ == solid_packet(upper, lower),
        p@.len() == 64,
        p@[0] == 0x81,
        p@[1] == upper.r,
        p@[2] == upper.g,
        p@[3] == upper.b,
        p@[4] == 0x81,
        p@[5] == lower.r,
        p@[6] == lower.g,
        p@[7] == lower.b,
        forall|i: int| 8 <= i < 64 ==> #[trigger] p@[i] == 0,
{
    let mut p = [0u8; PACKET_SIZE];
    p[0] = RGB_CODE;
    p[1] = upper.r;
    p[2] = upper.g;
    p[3] = upper.b;
    p[4] = RGB_CODE;
    p[5] = lower.r;
    p[6] = lower.g;
    p[7] = lower.b;
    assert(p@ =~= solid_packet(upper, lower));
    p
}

/// A control transfer to the device, with the bytes to write.
#[derive(Debug)]
pub struct ControlTransfer<'a> {
    pub request_type: u8,
    pub request: u8,
    pub value: u16,
    pub index: u16,
    pub data: &'a [u8],
    pub timeout_millis: u64,
}

/// The transfer that sends `packet`.
pub fn send_control_packet(packet: &[u8]) -> (t: ControlTransfer<'_>)
    ensures
        t.request_type == CTRL_REQUEST_TYPE_OUT,
        t.request == CTRL_REQUEST_OUT,
        t.value == CTRL_VALUE,
        t.index == CTRL_INDEX,
        t.data@ == packet@,
        t.timeout_millis == TRANSFER_TIMEOUT_MILLIS,
        t.request_type == 0x21,
        t.request == 0x09,
        t.value == 0x0300,
        t.index == 0,
        t.timeout_millis == 1000,
{
    ControlTransfer {
        request_type: CTRL_REQUEST_TYPE_OUT,
        request: CTRL_REQUEST_OUT,
        value: CTRL_VALUE,
        index: CTRL_INDEX,
        data: packet,
        timeout_millis: TRANSFER_TIMEOUT_MILLIS,
    }
}

/// The device took another number of bytes than the packet has.
#[derive(Debug, Clone, Copy, PartialEq, Eq, Structural)]
pub struct ShortTransfer {
    pub sent: usize,
    pub expected: usize,
}

/// Accepts a transfer that wrote the whole packet, and no other.
pub fn check_sent(sent: usize, expected: usize) -> (r: Result<(), ShortTransfer>)
    ensures
        r == (if sent == expected {
            Ok::<(), ShortTransfer>(())
        } else {
            Err(ShortTransfer { sent, expected })
        }),
{
    if sent != expected {
        Err(ShortTransfer { sent, expected })
    } else {
        Ok(())
    }
}

pub open spec fn short_transfer_message(e: ShortTransfer) -> Seq<char> {
    "short control transfer: "@ + crate::text::decimal(e.sent as nat) + " of "@
        + crate::text::decimal(e.expected as nat)
}

impl ShortTransfer {
    /// The error in words.
    pub fn message(&self) -> (m: String)
        ensures
            m@ == short_transfer_message(*self),
            m@ == "short control transfer: "@ + crate::text::decimal(self.sent as nat) + " of "@
                + crate::text::decimal(self.expected as nat),
    {
        let mut m = "short control transfer: ".to_owned();
        push_decimal(&mut m, self.sent as u64);
        m.append(" of ");
        push_decimal(&mut m, self.expected as u64);
        m
    }
}

/// A display packet tells both colors apart: equal packets carry equal colors.
pub proof fn law_solid_packet_determines_colors(
    upper: Color,
    lower: Color,
    other_upper: Color,
    other_lower: Color,
)
    requires
        solid_packet(upper, lower) == solid_packet(other_upper, other_lower),
    ensures
        upper == other_upper,
        lower == other_lower,
{
    let (p, q) = (solid_packet(upper, lower), solid_packet(other_upper, other_lower));
    assert forall|i: int| 0 <= i < 8 implies #[trigger] solid_prefix(upper, lower)[i]
        == solid_prefix(other_upper, other_lower)[i] by {
        assert(p[i] == q[i]);
    }
    let (a, b) = (solid_prefix(upper, lower), solid_prefix(other_upper, other_lower));
    assert(a[1] == b[1] && a[2] == b[2] && a[3] == b[3] && a[5] == b[5] && a[6] == b[6] && a[7]
        == b[7]);
}

/// No display packet can be taken for a header.
pub proof fn law_header_is_no_solid_packet(upper: Color, lower: Color)
    ensures
        header_packet() != solid_packet(upper, lower),
{
    assert(header_packet()[0] == HEADER_CODE);
    assert(solid_packet(upper, lower)[0] == RGB_CODE);
}

/// The header, byte by byte.
pub proof fn law_header_bytes()
    ensures
        header_packet().len() == 64,
        header_packet()[0] == 0x04,
        header_packet()[1] == 0xf2,
        header_packet()[8] == 0x01,
        forall|i: int| 2 <= i < 64 && i != 8 ==> #[trigger] header_packet()[i] == 0,
{
}

/// The display packet, byte by byte: behind a code of its own for each diode stand the red, green
/// and blue of that diode, and zeros fill up the rest, whether the colors are equal or not.
pub proof fn law_solid_bytes(upper: Color, lower: Color)
    ensures
        ({
            let p = solid_packet(upper, lower);
            &&& p.len() == 64
            &&& p[0] == 0x81 && p[1] == upper.r && p[2] == upper.g && p[3] == upper.b
            &&& p[4] == 0x81 && p[5] == lower.r && p[6] == lower.g && p[7] == lower.b
            &&& forall|i: int| 8 <= i < 64 ==> #[trigger] p[i] == 0
        }),
{
}

} // verus!
