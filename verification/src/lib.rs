//! AutoBridge Win: the Windows end of a transparent tunnel between ISTA, a diagnostic
//! client on the local network, and a BMW that AutoBridge Mac reaches.
//!
//! ISTA and the vehicle speak their protocol end to end, through the tunnel: this end
//! passes on raw bytes.
//!
//! ```text
//!   ISTA -> UDP  discovery            -> 0x01 + datagram -> relay -> Mac -> BMW
//!   ISTA -> TCP  diagnostic stream    -> 0x00 + bytes    -> relay -> Mac -> BMW
//!   Mac  -> relay  channel + bytes    -> ISTA, over UDP or TCP
//! ```

pub mod frame;
pub mod interfaces;
pub mod json;
pub mod laws;
pub mod message;
pub mod relay_test;
pub mod session;
pub mod setup;
pub mod state;
pub mod text;
pub mod tunnel;
