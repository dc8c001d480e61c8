//! The verified core of a desktop chat shell: the local resource server, the
//! host-channel framing and the command dispatcher that sit between a native
//! window, an embedded content surface and an external process.

pub mod channel;
pub mod host;
pub mod icon;
pub mod index;
pub mod message;
pub mod resource;
pub mod text;
