//! The answer to a request for the pixel: the image with status 200, or a
//! plain-text description of the failure with status 500.

use vstd::prelude::*;
use vstd::string::*;
use vstd::utf8::encode_utf8;
use crate::address::ClientAddress;
use crate::error::{address_unavailable_text, PixelError};
use crate::image::{encoded_image, encoding_error_text, ip_to_image};

verus! {

/// Status of a successful response.
pub const STATUS_OK: u16 = 200;

/// Status of a failed response.
pub const STATUS_INTERNAL_SERVER_ERROR: u16 = 500;

/// The content types that a response declares.
#[derive(Clone, Copy, Debug, PartialEq, Eq)]
pub enum ContentType {
    ImagePng,
    TextPlain,
}

impl ContentType {
    /// The value of the `Content-Type` header.
    pub open spec fn header_text(self) -> Seq<char> {
        match self {
            ContentType::ImagePng => "image/png"@,
            ContentType::TextPlain => "text/plain"@,
        }
    }

    /// The value of the `Content-Type` header.
    pub fn as_str(&self) -> (value: &'static str)
        ensures
            value@ == self.header_text(),
    {
        match self {
            ContentType::ImagePng => "image/png",
            ContentType::TextPlain => "text/plain",
        }
    }
}

/// An HTTP response, as far as this service decides it.
#[derive(Debug, PartialEq, Eq)]
pub struct Response {
    pub status: u16,
    pub content_type: ContentType,
    pub body: Vec<u8>,
}

/// A response with its body as a sequence of bytes.
pub struct ResponseView {
    pub status: u16,
    pub content_type: ContentType,
    pub body: Seq<u8>,
}

impl View for Response {
    type V = ResponseView;

    open spec fn view(&self) -> ResponseView {
        ResponseView { status: self.status, content_type: self.content_type, body: self.body@ }
    }
}

/// The response that delivers `image`.
pub open spec fn success_response(image: Seq<u8>) -> ResponseView {
    ResponseView { status: STATUS_OK, content_type: ContentType::ImagePng, body: image }
}

/// The response that reports a failure described by `message`: the message
/// as UTF-8 text.
pub open spec fn failure_response(message: Seq<char>) -> ResponseView {
    ResponseView {
        status: STATUS_INTERNAL_SERVER_ERROR,
        content_type: ContentType::TextPlain,
        body: encode_utf8(message),
    }
}

/// Turns what the encoder returned into the outcome of the request: an
/// image stays as it is, an encoder error becomes an `EncodingFailure`.
pub fn encoding_outcome(
    encoded: Result<Vec<u8>, png::EncodingError>,
) -> (r: Result<Vec<u8>, PixelError>)
    ensures
        encoded matches Ok(image) ==> (r matches Ok(bytes) && bytes@ == image@),
        encoded is Err ==> r matches Err(PixelError::EncodingFailure(_)),
{
    match encoded {
        Ok(image) => Ok(image),
        Err(error) => Err(PixelError::EncodingFailure(encoding_error_text(&error))),
    }
}

/// Obtains the image for the caller at `addr`.
///
/// Without an address the request fails with `AddressUnavailable`. With one,
/// the outcome is the encoded image of that address.
pub fn resolve_image(addr: Option<ClientAddress>) -> (r: Result<Vec<u8>, PixelError>)
    ensures
        addr is None ==> r == Err::<Vec<u8>, PixelError>(PixelError::AddressUnavailable),
        addr matches Some(a) ==> (r matches Ok(image) && image@ == encoded_image(a)),
{
    match addr {
        None => Err(PixelError::AddressUnavailable),
        Some(a) => encoding_outcome(ip_to_image(a)),
    }
}

/// The response that answers `outcome`: an image is delivered, a failure is
/// reported with its description.
pub open spec fn response_to(outcome: Result<Vec<u8>, PixelError>) -> ResponseView {
    match outcome {
        Ok(image) => success_response(image@),
        Err(error) => failure_response(error.message_text()),
    }
}

/// Maps the outcome of a request to its response: an image is delivered
/// with status 200 as `image/png`, a failure is reported with status 500 as
/// `text/plain`, the body being its description.
pub fn respond(outcome: Result<Vec<u8>, PixelError>) -> (resp: Response)
    ensures
        resp@ == response_to(outcome),
{
    match outcome {
        Ok(image) => Response {
            status: STATUS_OK,
            content_type: ContentType::ImagePng,
            body: image,
        },
        Err(error) => {
            let text = error.message();
            Response {
                status: STATUS_INTERNAL_SERVER_ERROR,
                content_type: ContentType::TextPlain,
                body: text.as_str().as_bytes_vec(),
            }
        },
    }
}

/// A request fully succeeds or fully fails: the response to an image has
/// status 200 and type `image/png` and its body is the image, the response
/// to a failure has status 500 and type `text/plain` and its body is the
/// description of the failure as UTF-8 text.
pub proof fn lemma_response_matches_outcome(outcome: Result<Vec<u8>, PixelError>)
    ensures
        outcome is Ok <==> response_to(outcome).status == STATUS_OK,
        outcome is Err <==> response_to(outcome).status == STATUS_INTERNAL_SERVER_ERROR,
        outcome is Ok <==> response_to(outcome).content_type == ContentType::ImagePng,
        outcome is Err <==> response_to(outcome).content_type == ContentType::TextPlain,
        outcome matches Ok(image) ==> response_to(outcome).body == image@,
        outcome matches Err(error) ==> response_to(outcome).body == encode_utf8(
            error.message_text(),
        ),
{
}

/// Answers a request for the tracking pixel made from `addr`. The nonce only
/// defeats caches and has no bearing on the answer.
///
/// With an address the answer is the encoded image of that address, with
/// status 200. Without one it is the failure response that says so, with
/// status 500.
pub fn tracking_pixel_handler(
    _cache_nonce: String,
    addr: Option<ClientAddress>,
) -> (resp: Response)
    ensures
        addr matches Some(a) ==> resp@ == success_response(encoded_image(a)),
        addr is None ==> resp@ == failure_response(address_unavailable_text()),
        resp.status == STATUS_OK <==> addr is Some,
        resp.status == STATUS_INTERNAL_SERVER_ERROR <==> addr is None,
{
    let outcome = resolve_image(addr);
    respond(outcome)
}

} // verus!
