//! Verified core of an asset-synchronization pipeline for raster images.
//!
//! The library models the pipeline's logic as plain data and verified
//! functions: the manifest identity model, the cache-map builder, the
//! upload protocol state machines (legacy cookie/CSRF and the
//! operation-polling cloud API), and the alpha-bleed image normalization
//! step. Network transport and file I/O live outside the library; callers
//! drive the state machines with the responses they receive.

pub mod api;
pub mod cache_map;
pub mod codec;
pub mod commands;
pub mod legacy;
pub mod manifest;
pub mod open_cloud;
pub mod raster;
pub mod sync;
pub mod text;
pub mod xml_scan;
