//! The PNG image of an address: the pixel data, encoded by the `png` crate.

use vstd::prelude::*;
use crate::address::ClientAddress;
use crate::pixel::{
    canvas_width, canvas_width_of, pixel_buffer, pixel_data, CANVAS_HEIGHT, CHANNELS,
};

verus! {

/// `png::EncodingError`, the error type of the `png` encoder. Verified code
/// carries such a value through and never looks inside it.
#[verifier::external_type_specification]
#[verifier::external_body]
pub struct ExEncodingError(png::EncodingError);

/// The PNG stream that the `png` encoder writes for an image of `width` by
/// `height` pixels with the channel bytes `pixels`, in RGB colour at eight
/// bits per channel with its fastest compression setting: what `encode_rgb8`
/// returns on success. It stands for the encoder's output and has no
/// definition here; all that is assumed is that the same dimensions and
/// pixel bytes always give the same stream.
pub uninterp spec fn png_rgb8_stream(width: u32, height: u32, pixels: Seq<u8>) -> Seq<u8>;

/// Runs the `png` encoder on an in-memory buffer: `png::Encoder::new` with
/// the given dimensions, `set_color` with `ColorType::RGB`, `set_depth` with
/// `BitDepth::Eight`, `set_compression` with `Compression::Fast`,
/// `write_header`, then `Writer::write_image_data` with `pixels`; dropping
/// the writer ends the stream.
///
/// Trusted, not proved:
/// - When the encoder succeeds, the buffer holds the stream named by
///   `png_rgb8_stream`, which depends on the dimensions and the pixel bytes
///   alone.
/// - The encoder succeeds whenever width and height are not zero. Its
///   source refuses a zero width, a zero height, a colour and depth that do
///   not go together, and pixel data of the wrong length; RGB at eight bits
///   go together and the length is demanded here. Every other error is one
///   that the sink returned, and the sink is a `Vec<u8>`, whose writes only
///   append.
///
/// The length demanded of `pixels` also keeps the encoder's size arithmetic
/// in range.
#[verifier::external_body]
fn encode_rgb8(
    width: u32,
    height: u32,
    pixels: &[u8],
) -> (r: Result<Vec<u8>, png::EncodingError>)
    requires
        pixels@.len() == CHANNELS * width * height,
    ensures
        r matches Ok(stream) ==> stream@ == png_rgb8_stream(width, height, pixels@),
        width > 0 && height > 0 ==> r is Ok,
{
    let mut out: Vec<u8> = Vec::new();
    {
        let mut encoder = png::Encoder::new(&mut out, width, height);
        encoder.set_color(png::ColorType::RGB);
        encoder.set_depth(png::BitDepth::Eight);
        encoder.set_compression(png::Compression::Fast);
        let mut writer = encoder.write_header()?;
        writer.write_image_data(pixels)?;
    }
    Ok(out)
}

/// The `Debug` text of a `png::EncodingError`, as `format!` renders it.
///
/// Trusted, not proved: nothing is claimed about the text.
#[verifier::external_body]
pub(crate) fn encoding_error_text(error: &png::EncodingError) -> String {
    format!("{:?}", error)
}

/// The encoded image of `addr`: the PNG stream of its pixel data on a canvas
/// one pixel high.
pub open spec fn encoded_image(addr: ClientAddress) -> Seq<u8> {
    png_rgb8_stream(canvas_width_of(addr), CANVAS_HEIGHT, pixel_data(addr))
}

/// Encodes `addr` as a PNG image whose pixels hold the octets of the address.
///
/// Every address has an image: the canvas is never empty and the encoder
/// writes to memory, so the result is always `Ok`, and its bytes are the
/// encoded image of `addr`.
pub fn ip_to_image(addr: ClientAddress) -> (r: Result<Vec<u8>, png::EncodingError>)
    ensures
        r matches Ok(image) && image@ == encoded_image(addr),
{
    let width: u32 = canvas_width(&addr);
    let pixels: Vec<u8> = pixel_buffer(&addr);
    encode_rgb8(width, CANVAS_HEIGHT, pixels.as_slice())
}

/// Encoding is repeatable: two encodings of the same address are the same
/// bytes, and so hold the same pixels.
pub proof fn lemma_encoding_repeatable(addr: ClientAddress, first: Seq<u8>, second: Seq<u8>)
    requires
        first == encoded_image(addr),
        second == encoded_image(addr),
    ensures
        first == second,
{
}

} // verus!
