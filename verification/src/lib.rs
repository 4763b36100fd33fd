//! Binding of the typed methods of a service to JSON-RPC requests and responses.
//!
//! One description of a method, its [`method::RpcMethod`], is the source of both
//! ends of the wire:
//!
//! - [`signature`]: the declaration of a method, as plain data;
//! - [`method`]: the descriptor that a declaration gives, and from it the shape of
//!   the argument record, the arm of the dispatch table and the client's stub;
//! - [`params`]: the argument record, laid out under the parameter names and found
//!   again by name;
//! - [`envelope`]: requests and responses;
//! - [`dispatch`]: the dispatch table of a service, which decides what is done with
//!   a request;
//! - [`proxy`]: the stub through which a client calls a method;
//! - [`wire`]: what is proved of the two ends together.
//!
//! Values travel in the form that the codec has given them. The library neither
//! encodes nor decodes a value, calls no method and sends nothing: it says what is
//! to be called or sent, and with what.

pub mod dispatch;
pub mod envelope;
mod literal;
pub mod method;
pub mod params;
pub mod proxy;
pub mod signature;
pub mod wire;
