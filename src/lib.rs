//! Client-side signalling for a single peer-to-peer media call: the call
//! lifecycle state machine, the negotiation coordinator that sits between the
//! signalling channel and the media engine, and the wire codec of the
//! negotiation messages.

pub mod state;
pub mod codec;
pub mod session;
