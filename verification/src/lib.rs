//! Decoding of captured network traffic for live display: an HTTP/1.1 request
//! decoder, a TLS 1.3 ClientHello record decoder, the rendering of capture
//! records as display lines, and the state of the view that shows them.

pub mod capture;
pub mod command;
pub mod cursor;
pub mod draw;
pub mod http_request;
pub mod request;
pub mod session;
pub mod split;
pub mod text;
pub mod tls_cipher_suite;
pub mod tls_extension;
pub mod tls_request;
pub mod ui;

pub use http_request::HTTPRequest;
pub use request::Request;
