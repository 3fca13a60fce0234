//! Requests to the screenshot portal of the desktop, and the replies to them.
//!
//! [`token`] holds the token that names a request, [`request`] the options
//! that a request is sent with, and [`response`] the reply: its status, its
//! failures, and the codec between a reply and its form on the wire.

pub mod request;
pub mod response;
pub mod token;

pub use request::{ColorOptions, ScreenshotOptions, WindowIdentifier};
pub use response::ResponseError;
pub use token::{HandleInvalidCharacter, HandleToken};
