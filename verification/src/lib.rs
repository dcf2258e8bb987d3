//! The decisions of a bridge from heart-rate sensor broadcasts to an OSC client.
//!
//! A wearable sensor broadcasts its heart rate in the manufacturer payload of its
//! Bluetooth Low Energy advertisements. This library settles on one device of one
//! vendor ([`gate`]), decodes the heart rate ([`decoder`], [`binary32`]), builds and
//! encodes the two messages that a reading gives rise to ([`codec`]), and keeps track
//! of which deliveries have been confirmed ([`sink`]). [`pipeline`] puts them together:
//! one broadcast in, what to send out.
//!
//! The library performs no input or output. Its caller scans, transmits the bytes it is
//! handed, and reports back whether they were delivered.

pub mod advertisement;
pub mod binary32;
pub mod codec;
pub mod config;
pub mod decoder;
pub mod gate;
pub mod pipeline;
pub mod sink;
