//! The control-channel packets and stream identifiers the core exchanges
//! with the streaming server, modeled as exact integer and string data.
//! Serialization onto the wire is the embedding program's concern.

use vstd::prelude::*;

verus! {

/// Subject identifier of the video sub-stream.
pub const VIDEO: u16 = 0;

/// Subject identifier of the audio sub-stream.
pub const AUDIO: u16 = 1;

/// Subject identifier of the haptics sub-stream.
pub const HAPTICS: u16 = 2;

/// Subject identifier of the tracking sub-stream.
pub const TRACKING: u16 = 3;

/// Subject identifier of the statistics sub-stream.
pub const STATISTICS: u16 = 4;

/// Control packets sent from the client to the server during streaming.
/// The battery gauge is carried in thousandths of full charge.
#[derive(Clone, PartialEq, Debug)]
pub enum ClientControlPacket {
    StreamReady,
    KeepAlive,
    RequestIdr,
    Battery { device_id: u64, gauge_millis: u32, plugged: bool },
}

/// Control packets the server sends to the client. Variants the core does
/// not react to are collapsed into `Reserved`.
#[derive(Clone, PartialEq, Debug)]
pub enum ServerControlPacket {
    StartStream,
    Restarting,
    InitializeDecoder { config: Vec<u8> },
    Reserved,
}

/// Streaming capabilities advertised in the connection request. Refresh
/// rates are in millihertz.
#[derive(Clone, PartialEq, Debug)]
pub struct VideoStreamingCapabilities {
    pub default_view_width: u32,
    pub default_view_height: u32,
    pub supported_refresh_rates_millihz: Vec<u32>,
    pub microphone_sample_rate: u32,
}

/// The packet sent once after the control channel connects: it accepts the
/// connection and advertises this client.
#[derive(Clone, PartialEq, Debug)]
pub struct ConnectionRequest {
    pub client_protocol_id: u64,
    pub display_name: String,
    pub server_ip: String,
    pub capabilities: Option<VideoStreamingCapabilities>,
}

/// Header of one reassembled video packet.
#[derive(Clone, Copy, PartialEq, Debug)]
pub struct VideoPacketHeader {
    pub timestamp_ns: u64,
    pub is_idr: bool,
}

/// Builds the connection request for the handshake's first step.
pub fn build_connection_request(
    client_protocol_id: u64,
    display_name: String,
    server_ip: String,
    capabilities: VideoStreamingCapabilities,
) -> (r: ConnectionRequest)
    ensures
        r.client_protocol_id == client_protocol_id,
        r.display_name == display_name,
        r.server_ip == server_ip,
        r.capabilities == Some(capabilities),
{
    ConnectionRequest { client_protocol_id, display_name, server_ip, capabilities: Some(
        capabilities,
    ) }
}

} // verus!
