//! A terminal client for the Discord gateway: the JSON model of gateway
//! payloads, the gateway events with their encoding and decoding, the
//! heartbeat protocol that keeps a session alive, and the state of the
//! terminal user interface.

pub mod app;
pub mod event;
pub mod gateway;
pub mod guild;
pub mod json;
pub mod text;
