//! A desktop screenshot core: a single-slot cache of the last captured
//! full-display frame with action-dependent invalidation, pixel-exact region
//! cropping, lossless RGBA PNG encoding, and the dispatch that turns one
//! capture request into a data URI, a file-save plan or raw clipboard bytes.
//!
//! The capture provider — whatever actually grabs the screen — is an
//! external collaborator: the host invokes it exactly when the cache's own
//! verified decision asks for a refresh, and hands its response in as plain
//! values.

pub mod action;
pub mod cache;
pub mod command;
pub mod encode;
pub mod errors;
pub mod frame;
