//! Encoding of frames into the SPI byte stream that a WS281x strip reads.
//!
//! The strip's one-wire protocol carries each data bit as two SPI bytes
//! whose high bits hold the line up for the right number of 64 ns cycles.
//! The encoding of one pixel is done by the SPI driver crate; this module
//! states its byte stream exactly and concatenates pixels into frames.

use crate::color::Rgb;
use vstd::prelude::*;

verus! {

/// The two SPI bytes that carry one data bit: a long high pulse for a one,
/// a short one for a zero.
pub open spec fn spi_bit_bytes(bit: bool) -> Seq<u8> {
    if bit {
        seq![0xffu8, 0x80u8]
    } else {
        seq![0xf8u8, 0x00u8]
    }
}

/// Bit `j` of a colour byte, counting from the most significant bit.
pub open spec fn color_bit(x: u8, j: int) -> bool {
    (x >> ((7 - j) as u8)) & 1 == 1
}

/// The 16 SPI bytes that carry one colour byte, most significant bit first.
pub open spec fn spi_color_bytes(x: u8) -> Seq<u8> {
    Seq::new(16, |k: int| spi_bit_bytes(color_bit(x, k / 2))[k % 2])
}

/// The 48 SPI bytes that carry one pixel: its colour bytes in the strip's
/// green, red, blue order.
pub open spec fn spi_pixel_bytes(p: Rgb) -> Seq<u8> {
    spi_color_bytes(p.g) + spi_color_bytes(p.r) + spi_color_bytes(p.b)
}

/// The SPI byte stream for a whole frame: the pixels' encodings in order.
pub open spec fn spi_frame_bytes(frame: Seq<Rgb>) -> Seq<u8>
    decreases frame.len(),
{
    if frame.len() == 0 {
        Seq::empty()
    } else {
        spi_frame_bytes(frame.drop_last()) + spi_pixel_bytes(frame.last())
    }
}

/// Relies on ws2818_rgb_led_spi_driver::encoding::encode_rgb: each of the
/// 24 colour bits, bytes in G, R, B order and the most significant bit of
/// each byte first, becomes two SPI bytes, 0xFF 0x80 for a one and
/// 0xF8 0x00 for a zero.
#[verifier::external_body]
fn encode_rgb_spi(p: Rgb) -> (out: [u8; 48])
    ensures
        out@ == spi_pixel_bytes(p),
{
    ws2818_rgb_led_spi_driver::encoding::encode_rgb(p.r, p.g, p.b)
}

/// Encodes a frame into its SPI byte stream, 48 bytes per pixel, one pixel
/// at a time through the SPI driver crate's encoder.
pub fn encode_frame(frame: &Vec<Rgb>) -> (out: Vec<u8>)
    ensures
        out@ == spi_frame_bytes(frame@),
{
    let mut out: Vec<u8> = Vec::new();
    for i in 0..frame.len()
        invariant
            out@ == spi_frame_bytes(frame@.take(i as int)),
    {
        let enc = encode_rgb_spi(frame[i]);
        let mut j: usize = 0;
        while j < 48
            invariant
                j <= 48,
                enc@ == spi_pixel_bytes(frame@[i as int]),
                i < frame@.len(),
                out@ == spi_frame_bytes(frame@.take(i as int)) + enc@.take(j as int),
            decreases 48 - j,
        {
            out.push(enc[j]);
            j += 1;
            proof {
                assert(enc@.take(j as int) =~= enc@.take(j - 1int).push(enc@[j - 1int]));
            }
        }
        proof {
            let taken = frame@.take(i + 1int);
            assert(taken.drop_last() =~= frame@.take(i as int));
            assert(enc@.take(48) =~= enc@);
            assert(out@ == spi_frame_bytes(taken));
        }
    }
    proof {
        assert(frame@.take(frame@.len() as int) =~= frame@);
    }
    out
}

} // verus!
