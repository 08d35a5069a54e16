//! HTTP-to-RPC order gateway: translation, response mapping, and metrics.
//!
//! The gateway sits between JSON/HTTP clients and an order-matching engine
//! that speaks a binary RPC protocol. This crate holds the verified core:
//! the request translator (with its 0-as-absent sentinel normalization), the
//! response mapper, and the per-route latency metrics with their text
//! exposition. Network I/O and the RPC transport live outside the library.

pub mod dto;
pub mod expo;
pub mod metrics;
pub mod respond;
pub mod routes;
pub mod rpc;
pub mod text;
pub mod translate;
