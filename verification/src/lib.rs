//! Stable class-name generation for a CSS-in-JS source transform.
//!
//! The crate has three cooperating parts: a package-root resolver that walks
//! ancestor directories looking for a package manifest (with a memoizing
//! cache), a stable-identifier generator that turns a package identity and a
//! path fragment into a short hash-based label with a per-file counter, and an
//! import-usage registry that decides, per call site, whether naming applies.

pub mod hash;
pub mod label;
pub mod paths;
pub mod registry;
pub mod resolver;
pub mod str_map;
pub mod transformer;
