//! Request classification and response building for the web front door of a
//! local music player.
//!
//! The library decides, for one inbound request, which handler answers it,
//! and builds the answers that need no network or disk: bundled assets, the
//! application shell, the API exploration page and the fixed error replies.

pub mod assets;
pub mod bootstrap;
pub mod discovery;
pub mod gateway;
pub mod media;
pub mod response;
pub mod route;
pub mod text;
