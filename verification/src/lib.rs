//! A transport-agnostic request/response correlation layer.
//!
//! [`Mux`] pairs each inbound response with the request that is waiting for
//! it, [`Mapped`] re-exposes a [`Connector`] under another message schema,
//! and [`Muxed`] is the envelope that tells requests from responses.

pub mod completion;
pub mod connector;
pub mod correlation;
pub mod error;
pub mod mapped;
pub mod mock;
pub mod mux;
pub mod muxed;
pub mod wire;

pub use crate::connector::Connector;
pub use crate::error::ConnectorError;
pub use crate::mapped::{Mapped, Mapper};
pub use crate::mux::Mux;
pub use crate::muxed::Muxed;
