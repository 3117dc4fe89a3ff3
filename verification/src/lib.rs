//! Client-side logic of the JObfuscator Web API: the request parameters that
//! a configured client sends, the packing of Java sources for the wire and
//! what becomes of the service's replies.
pub mod client;
pub mod codec;
pub mod laws;
pub mod response;

pub use client::{JObfuscator, ParamName};
pub use response::{JObfuscatorResponse, JObfuscatorResult, Reply};
