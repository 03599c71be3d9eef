//! Share text and files through the platform's native share facilities, and
//! receive content that other applications share with this one.
//!
//! The decisions of every flow live here and are verified: the pending-content
//! store, the listener registry, content extraction from a share-target
//! activation, the single-instance activation coordinator, and the outbound
//! share session. The native calls they drive are made by the host.
pub mod error;
pub mod models;
pub mod store;
pub mod kit;
pub mod commands;
pub mod session;
pub mod listeners;
pub mod extract;
pub mod activation;

pub use error::{ShareError, Result};
pub use models::{
    SharedContent, SharedContentType, SharedFile, ShareFileOptions, ShareFilePayload,
    ShareTextOptions, ShareTextPayload,
};
