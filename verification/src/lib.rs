//! An MQTT broker core: the byte-level codec for the 3.1.1 and 5.0 control
//! packets, the per-connection state machine from CONNECT to DISCONNECT, the
//! subscription registry with its fan-out broadcaster, and the device
//! registry the HTTP collaborator reads. Every decision the broker makes is
//! taken here, under contract; the runtime around it only moves bytes and
//! channel messages.

use vstd::prelude::*;

pub mod config;
pub mod hex;
pub mod http_model;
pub mod laws;
pub mod machine;
pub mod message;
pub mod pack_tool;
pub mod protocol;
pub mod reason_code;
pub mod server_config;
pub mod subscript;
pub mod types;
pub mod un_pack_tool;
pub mod v3;
pub mod v3_handle;
pub mod v3_packet;
pub mod v3_unpacket;
pub mod v5;
pub mod v5_packet;
pub mod v5_unpacket;

verus! {

/// Greatest value a variable byte integer (remaining length) can carry:
/// four groups of seven bits.
pub open spec fn varint_max() -> nat {
    268435455
}

} // verus!
