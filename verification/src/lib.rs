//! Verified wrapping primitives for a native widget toolkit.
//!
//! A binding layer over a C widget toolkit rests on a handful of generic
//! mechanisms: an owned, reference-counted, type-checked handle around an
//! opaque native object; a property bag that is validated against the target
//! class's schema before the one native construction call; a registry of
//! typed signal connections; and a plain value type for colors with a small
//! textual grammar. This crate states those mechanisms as verified models:
//! the native object store is an explicit heap of reference-counted slots,
//! the class hierarchy is an explicit capability registry, and every
//! operation carries a contract describing exactly what it does to them.

pub mod color;
pub mod handle;
pub mod props;
pub mod signal;
pub mod statusbar;
pub mod text;
