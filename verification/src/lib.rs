//! Core engine of a file-selection widget: incremental directory scanning,
//! entry classification, icon resolution, and mode-aware selection tracking.
//!
//! The filesystem itself (enumeration, canonicalization, metadata reads) is an
//! external service: callers hand the engine plain values describing what the
//! filesystem reported, and every decision made on those values is verified.

pub mod permissions;
pub mod paths;
pub mod entry;
pub mod mime_db;
pub mod dir_unit;
pub mod scanner;
pub mod selection;
pub mod portal_option;
pub mod icon;
pub mod filter;
pub mod chooser;
