//! A bridge between a Meshtastic mesh channel and a Signal group: the
//! handling of messages in both directions, the delivery-ack correlator and the
//! dispatcher that routes each action to its side.
pub mod bridge;
pub mod config;
pub mod contacts;
pub mod dumb_packet_router;
pub mod laws;
pub mod linking;
pub mod mesh;
pub mod meshy;
pub mod model;
pub mod signal;
pub mod text;
pub mod update;
