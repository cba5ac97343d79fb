//! A tracking pixel that shows the caller its own address.
//!
//! The library turns a client's network address into the pixel data of a
//! one-row RGB image, has that image encoded as a PNG stream, tells which
//! request paths ask for the pixel, and decides which HTTP response answers
//! such a request.

pub mod address;
pub mod pixel;
pub mod image;
pub mod error;
pub mod dispatch;
pub mod routing;
pub mod service;

pub use crate::address::ClientAddress;
pub use crate::dispatch::{tracking_pixel_handler, ContentType, Response};
pub use crate::error::PixelError;
pub use crate::image::ip_to_image;
pub use crate::routing::{route, Route};
pub use crate::service::ServiceConfig;
