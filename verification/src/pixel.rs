//! The pixel data that carries an address: one row of RGB pixels whose
//! channel bytes are the octets of the address, padded with zeros.

use vstd::prelude::*;
use crate::address::ClientAddress;

verus! {

/// Bytes per pixel: red, green and blue, eight bits each.
pub const CHANNELS: usize = 3;

/// Every image is a single row of pixels.
pub const CANVAS_HEIGHT: u32 = 1;

/// Width in pixels of the image for `addr`: 2 for IPv4, 6 for IPv6.
pub open spec fn canvas_width_of(addr: ClientAddress) -> u32 {
    match addr {
        ClientAddress::V4(_) => 2,
        ClientAddress::V6(_) => 6,
    }
}

/// The raw pixel bytes for `addr`: as many bytes as the canvas has channels,
/// the octets of the address first, every byte after them zero.
pub open spec fn pixel_data(addr: ClientAddress) -> Seq<u8> {
    Seq::new(
        (CHANNELS * canvas_width_of(addr)) as nat,
        |i: int| if i < addr.octets().len() { addr.octets()[i] } else { 0u8 },
    )
}

/// Picks the canvas width for `addr`. It is the least width whose channels
/// hold every octet of the address.
pub fn canvas_width(addr: &ClientAddress) -> (w: u32)
    ensures
        w == canvas_width_of(*addr),
        CHANNELS * (w - 1) < addr.octets().len() <= CHANNELS * w,
{
    match addr {
        ClientAddress::V4(_) => 2,
        ClientAddress::V6(_) => 6,
    }
}

/// Builds the pixel buffer for `addr`: a zeroed buffer of three bytes per
/// pixel, with the octets of the address copied to its start.
pub fn pixel_buffer(addr: &ClientAddress) -> (buf: Vec<u8>)
    ensures
        buf@ == pixel_data(*addr),
{
    let width: u32 = canvas_width(addr);
    let capacity: usize = CHANNELS * (width as usize);
    let octets: Vec<u8> = addr.to_octets();
    let mut buf: Vec<u8> = vec![0u8; capacity];
    let mut i: usize = 0;
    while i < octets.len()
        invariant
            i <= octets@.len() <= capacity,
            octets@ == addr.octets(),
            buf@.len() == capacity,
            forall|j: int| 0 <= j < i ==> buf@[j] == octets@[j],
            forall|j: int| i <= j < capacity ==> buf@[j] == 0u8,
        decreases octets@.len() - i,
    {
        buf.set(i, octets[i]);
        i += 1;
    }
    buf
}

/// The pixel data of an IPv4 address is its four octets and two zero bytes,
/// on a canvas two pixels wide.
pub proof fn lemma_ipv4_pixel_data(o: [u8; 4])
    ensures
        canvas_width_of(ClientAddress::V4(o)) == 2,
        pixel_data(ClientAddress::V4(o)) == seq![o@[0], o@[1], o@[2], o@[3], 0u8, 0u8],
{
    assert(pixel_data(ClientAddress::V4(o)) =~= seq![o@[0], o@[1], o@[2], o@[3], 0u8, 0u8]);
}

/// The pixel data of an IPv6 address is its sixteen octets and two zero
/// bytes, on a canvas six pixels wide.
pub proof fn lemma_ipv6_pixel_data(o: [u8; 16])
    ensures
        canvas_width_of(ClientAddress::V6(o)) == 6,
        pixel_data(ClientAddress::V6(o)) == o@ + seq![0u8, 0u8],
{
    assert(pixel_data(ClientAddress::V6(o)) =~= o@ + seq![0u8, 0u8]);
}

/// The pixel data fills the canvas exactly, starts with the octets of the
/// address and is zero after them.
pub proof fn lemma_pixel_data_shape(addr: ClientAddress)
    ensures
        pixel_data(addr).len() == CHANNELS * canvas_width_of(addr) * CANVAS_HEIGHT,
        addr.octets().len() <= pixel_data(addr).len(),
        pixel_data(addr).subrange(0, addr.octets().len() as int) == addr.octets(),
        forall|i: int| addr.octets().len() <= i < pixel_data(addr).len()
            ==> pixel_data(addr)[i] == 0u8,
{
    assert(pixel_data(addr).subrange(0, addr.octets().len() as int) =~= addr.octets());
}

/// Reading the pixel data back gives the address: the canvas width tells the
/// family, the leading bytes are the octets, so two addresses with the same
/// pixel data are the same address.
pub proof fn lemma_pixel_data_identifies_address(a: ClientAddress, b: ClientAddress)
    requires
        pixel_data(a) == pixel_data(b),
    ensures
        a == b,
{
    lemma_pixel_data_shape(a);
    lemma_pixel_data_shape(b);
    assert(a.octets() =~= b.octets());
    match (a, b) {
        (ClientAddress::V4(x), ClientAddress::V4(y)) => assert(x == y),
        (ClientAddress::V6(x), ClientAddress::V6(y)) => assert(x == y),
        _ => {},
    }
}

} // verus!
