//! Capture-and-crop engine for a screenshot tool.
//!
//! The crate holds the decisions of one capture cycle: how the platform's raw
//! answers become a [`capture::Screenshot`], how a selection is resolved
//! against it, and in which order drawing resources are acquired, used and
//! given back. The platform calls themselves are made by the embedding
//! program, which hands plain values in and makes the calls handed out.
//!
//! - [`geometry`]: rectangles and selectors.
//! - [`pixels`]: row packing and byte order of pixel buffers.
//! - [`enumerate`]: which windows a screenshot records.
//! - [`guard`]: ownership of native handles and the order of their release.
//! - [`capture`]: the screenshot and how it is made.
//! - [`cropper`]: resolving a selection to a region.
//! - [`clipboard`]: the export of a region, call by call.
//! - [`protocol`]: the state of an export, and what holds of every export.

pub mod capture;
pub mod clipboard;
pub mod cropper;
pub mod enumerate;
pub mod geometry;
pub mod guard;
pub mod pixels;
pub mod protocol;
