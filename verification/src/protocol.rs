//! The wire format spoken to the LED-driving device: a 6-byte header with an
//! XOR checksum over the LED count, followed by the raw RGB triples.

use vstd::prelude::*;
use crate::color::RGB8;

verus! {

/// The header bytes announcing a frame of `n_leds` LED colors: the magic
/// `'A','d','a'`, the LED count minus one split into high and low byte, and
/// a checksum byte tying the two count bytes together.
pub open spec fn header_spec(n_leds: u16) -> Seq<u8>
    recommends
        1 <= n_leds,
{
    let count = (n_leds - 1) as u16;
    let high = (count >> 8) as u8;
    let low = (count & 0xff) as u8;
    seq![65u8, 100u8, 97u8, high, low, high ^ low ^ 0x55]
}

/// Builds the frame header expected by the LED streaming device. The count
/// fields carry the LED count minus one; the device insists on that encoding.
pub fn new_pixel_buf_header(n_leds: u16) -> (h: [u8; 6])
    requires
        1 <= n_leds,
    ensures
        h@ == header_spec(n_leds),
{
    let count: u16 = n_leds - 1;
    let count_high: u8 = (count >> 8) as u8; // LED count high byte
    let count_low: u8 = (count & 0xff) as u8; // LED count low byte
    let h: [u8; 6] = [
        65, // 'A'
        100, // 'd'
        97, // 'a'
        count_high,
        count_low,
        count_high ^ count_low ^ 0x55, // checksum
    ];
    proof {
        assert(h@ =~= header_spec(n_leds));
    }
    h
}

/// Flattens the output buffer into the frame payload: the RGB triples in LED
/// index order, three bytes per LED, no padding and no delimiters.
pub fn rgbs_as_bytes(colors: &Vec<RGB8>) -> (bytes: Vec<u8>)
    ensures
        bytes@.len() == 3 * colors@.len(),
        forall|i: int|
            0 <= i < colors@.len() ==> {
                let c = #[trigger] colors@[i];
                bytes@[3 * i] == c.r && bytes@[3 * i + 1] == c.g && bytes@[3 * i + 2] == c.b
            },
{
    let mut bytes: Vec<u8> = Vec::new();
    let mut k: usize = 0;
    while k < colors.len()
        invariant
            k <= colors@.len(),
            bytes@.len() == 3 * k,
            forall|i: int|
                0 <= i < k ==> {
                    let c = #[trigger] colors@[i];
                    bytes@[3 * i] == c.r && bytes@[3 * i + 1] == c.g && bytes@[3 * i + 2] == c.b
                },
        decreases colors@.len() - k,
    {
        let c = colors[k];
        bytes.push(c.r);
        bytes.push(c.g);
        bytes.push(c.b);
        k = k + 1;
    }
    bytes
}

/// What a single transport write came to: every byte went out, fewer bytes
/// than expected went out, or the transport reported an error.
#[derive(Clone, Copy, Debug, PartialEq, Eq, Structural)]
pub enum WriteCheck {
    Complete,
    Short,
    TransportError,
}

/// Classifies a transport write report against the byte count that was
/// handed to the transport. A `Short` or `TransportError` frame is dropped
/// by the caller; it is never retried or resumed.
pub fn check_write(expected: usize, result: Option<usize>) -> (c: WriteCheck)
    ensures
        c == (match result {
            Some(n) => if n == expected {
                WriteCheck::Complete
            } else {
                WriteCheck::Short
            },
            None => WriteCheck::TransportError,
        }),
{
    match result {
        Some(n) => {
            if n == expected {
                WriteCheck::Complete
            } else {
                WriteCheck::Short
            }
        },
        None => WriteCheck::TransportError,
    }
}

} // verus!
