//! A verified core for a binding to the libgphoto2 camera library.
//!
//! The native layer is reached by the embedding program. This crate holds
//! what the binding decides: how native status codes become typed errors,
//! how native text becomes strings, how list entries are found, and how each
//! handle's model follows the replies of the native calls.

pub mod abilities;
pub mod camera;
pub mod context;
pub mod error;
pub mod media;
pub mod pairs;
pub mod port;
pub mod storage;
pub mod text;

pub use abilities::Abilities;
pub use camera::{Camera, CameraFile, CameraList};
pub use context::Context;
pub use error::{Error, ErrorKind};
pub use media::{FileMedia, Media};
pub use port::{Port, PortList, PortType};
pub use storage::Storage;
