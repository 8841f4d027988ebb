//! A verified webhook relay core.
//!
//! The library accepts an inbound HTTP notification as plain values (method,
//! path, headers, raw body bytes), checks an HMAC-SHA256 signature against a
//! per-provider shared secret, extracts a normalized build notification from
//! the JSON body, renders the message forwarded to a downstream chat webhook,
//! and classifies the outcome of that delivery.  All routing, verification and
//! classification decisions are verified; the surrounding HTTP I/O lives in an
//! ordinary binary built on top of this crate.

pub mod bytes;
pub mod hexcode;
pub mod signature;
pub mod notification;
pub mod extract;
pub mod relay;
pub mod router;
pub mod handler;
