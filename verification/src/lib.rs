//! Over-the-air distribution of kernel images: the catalog of published
//! versions, the checksums that bind a record to the bytes of its image, and
//! what the server answers to each request.
//!
//! Nothing here reads a file or a socket. Callers read and write, hand over
//! what they found as plain values, and send what they get back.

pub mod catalog;
pub mod checksum;
pub mod clock;
pub mod config;
pub mod handlers;
pub mod mdns;
pub mod metadata;
pub mod metadata_manager;
pub mod report;
pub mod text;
