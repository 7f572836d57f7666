//! Verified core of an NGINX stream-module binding: configuration lookups by
//! module index, per-session module contexts, handler status conversion and
//! phase-handler registration, stated over plain-value models of the NGINX
//! structures they read.

pub mod base;
pub mod stream;
