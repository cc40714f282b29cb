//! The user-visible HUD texts and the formatting of the full HUD message:
//! a header with version, hostname and local IP, then the body.

use vstd::prelude::*;
use vstd::string::StringExecFns;

verus! {

/// The full HUD text for a given identity and body message.
pub open spec fn spec_hud_text(
    version: Seq<char>,
    hostname: Seq<char>,
    ip: Seq<char>,
    body: Seq<char>,
) -> Seq<char> {
    "ALVR v"@ + version + "\nhostname: "@ + hostname + "\nIP: "@ + ip + "\n\n"@ + body
}

/// Formats the HUD message: version, hostname and IP header, blank line,
/// then the body.
pub fn format_hud_message(version: &str, hostname: &str, ip: &str, body: &str) -> (r: String)
    ensures
        r@ == spec_hud_text(version@, hostname@, ip@, body@),
{
    let mut m = String::from_str("ALVR v");
    m.append(version);
    m.append("\nhostname: ");
    m.append(hostname);
    m.append("\nIP: ");
    m.append(ip);
    m.append("\n\n");
    m.append(body);
    m
}

/// Body shown while searching for a streaming peer.
pub fn initial_message() -> (r: &'static str)
    ensures
        r@ == spec_initial_message(),
{
    "Searching for streamer...\nOpen ALVR on your PC then click \"Trust\"\nnext to the client entry"
}

pub open spec fn spec_initial_message() -> Seq<char> {
    "Searching for streamer...\nOpen ALVR on your PC then click \"Trust\"\nnext to the client entry"@
}

/// Body shown when the announcement broadcast cannot reach the network.
pub fn network_unreachable_message() -> (r: &'static str)
    ensures
        r@ == spec_network_unreachable_message(),
{
    "Cannot connect to the internet"
}

pub open spec fn spec_network_unreachable_message() -> Seq<char> {
    "Cannot connect to the internet"@
}

/// Body shown when the server has accepted and the stream is about to start.
pub fn stream_starting_message() -> (r: &'static str)
    ensures
        r@ == spec_stream_starting_message(),
{
    "The stream will begin soon\nPlease wait..."
}

pub open spec fn spec_stream_starting_message() -> Seq<char> {
    "The stream will begin soon\nPlease wait..."@
}

/// Body shown when the server announced that it is restarting.
pub fn server_restart_message() -> (r: &'static str)
    ensures
        r@ == spec_server_restart_message(),
{
    "The streamer is restarting\nPlease wait..."
}

pub open spec fn spec_server_restart_message() -> Seq<char> {
    "The streamer is restarting\nPlease wait..."@
}

/// Body shown when the control channel to the server broke.
pub fn server_disconnected_message() -> (r: &'static str)
    ensures
        r@ == spec_server_disconnected_message(),
{
    "The streamer has disconnected."
}

pub open spec fn spec_server_disconnected_message() -> Seq<char> {
    "The streamer has disconnected."@
}

/// Body shown when the handshake peek returned a packet the core does not
/// expect at that point.
pub fn unexpected_packet_message() -> (r: &'static str)
    ensures
        r@ == spec_unexpected_packet_message(),
{
    "Unexpected packet"
}

pub open spec fn spec_unexpected_packet_message() -> Seq<char> {
    "Unexpected packet"@
}

/// The HUD body for a failed connection attempt, wrapping the error text.
pub open spec fn spec_connection_error_text(cause: Seq<char>) -> Seq<char> {
    "Connection error:\n"@ + cause + "\nCheck the PC for more details"@
}

/// Formats the HUD body for a failed connection attempt.
pub fn format_connection_error(cause: &str) -> (r: String)
    ensures
        r@ == spec_connection_error_text(cause@),
{
    let mut m = String::from_str("Connection error:\n");
    m.append(cause);
    m.append("\nCheck the PC for more details");
    m
}

} // verus!
