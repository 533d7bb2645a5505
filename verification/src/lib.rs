//! A small inventory library: an in-memory product store and the pure
//! response logic of the web handlers that read and extend it.

pub mod handlers;
pub mod html;
pub mod render;
pub mod product;
pub mod response;
pub mod store;
pub mod text;
