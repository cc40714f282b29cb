//! The session supervisor's decisions: one connection attempt walks through
//! Discovering, Handshaking, Configuring, Streaming and TearingDown. The
//! embedding program performs the I/O — broadcasts, connects, sends,
//! receives, sleeps — and feeds every outcome to these functions, which
//! decide the next move and post the HUD messages. A session never goes
//! back from TearingDown to Streaming; a new attempt starts from
//! Discovering.

use vstd::prelude::*;
use vstd::string::StringExecFns;

use crate::config::decoder_config_from_settings;
use crate::config::frame_interval_ns;
use crate::config::negotiate;
use crate::config::spec_frame_interval_ns;
use crate::config::spec_negotiate;
use crate::config::NegotiatedOptions;
use crate::config::StatisticsManager;
use crate::config::StreamSettings;
use crate::messages;
use crate::packets::ClientControlPacket;
use crate::packets::ServerControlPacket;
use crate::packets::STATISTICS;
use crate::packets::TRACKING;
use crate::session::ClientCore;
use crate::session::ConnectionRuntime;
use crate::session::ControlChannelSender;
use crate::session::StreamSenderHandle;
use crate::session::StreamingSession;

verus! {

/// Pause between discovery connect attempts.
pub const DISCOVERY_RETRY_PAUSE_MS: u64 = 500;

/// Minimum pause after a broadcast failure before the attempt restarts.
pub const RETRY_CONNECT_MIN_INTERVAL_MS: u64 = 1_000;

/// Period of the keepalive sender.
pub const NETWORK_KEEPALIVE_INTERVAL_MS: u64 = 1_000;

/// Pause between connection attempts.
pub const CONNECTION_RETRY_INTERVAL_MS: u64 = 1_000;

/// Timeout for the stream config packet after `ConnectionAccepted`.
pub const STREAM_CONFIG_TIMEOUT_MS: u64 = 1_000;

/// The non-blocking peek for an immediately available `StartStream`.
pub const HANDSHAKE_PEEK_TIMEOUT_MS: u64 = 1;

/// The non-blocking bind of the stream socket.
pub const STREAM_BIND_TIMEOUT_MS: u64 = 1;

/// Timeout for the stream socket accept.
pub const STREAM_ACCEPT_TIMEOUT_MS: u64 = 2_000;

/// Why a connection attempt ended without streaming: the liveness flag
/// dropped, or a failure the supervisor reports and retries.
#[derive(Clone, PartialEq, Debug)]
pub enum ConnectionError {
    Interrupted,
    Other { cause: String },
}

/// What the lifecycle loop does before an attempt.
#[derive(Clone, Copy, PartialEq, Eq, Structural, Debug)]
pub enum AttemptGate {
    /// Liveness dropped: leave the lifecycle loop.
    Exit,
    /// Run one connection attempt.
    Attempt,
    /// The device is sleeping: skip this round and sleep the retry interval.
    Skip,
}

/// The guard at the top of the lifecycle loop: no attempt unless alive and
/// resumed; exit once liveness drops.
pub fn poll_lifecycle(alive: bool, resumed: bool) -> (r: AttemptGate)
    ensures
        !alive ==> r is Exit,
        alive && resumed ==> r is Attempt,
        alive && !resumed ==> r is Skip,
{
    if !alive {
        AttemptGate::Exit
    } else if resumed {
        AttemptGate::Attempt
    } else {
        AttemptGate::Skip
    }
}

/// Digests one attempt's outcome: an interruption leaves the lifecycle
/// loop; any other failure posts the connection-error HUD and retries after
/// the retry interval; success retries silently.
pub fn handle_attempt_result(
    core: &mut ClientCore,
    outcome: &Result<(), ConnectionError>,
) -> (exit: bool)
    requires
        old(core).wf(),
    ensures
        final(core).wf(),
        old(core).only_queue_changed(*final(core)),
        exit == (outcome matches Err(ConnectionError::Interrupted)),
        outcome matches Err(ConnectionError::Other { cause }) ==> old(core).queue_gains_hud(
            *final(core),
            old(core).hud_text_for(messages::spec_connection_error_text(cause@)),
        ),
        !(outcome matches Err(ConnectionError::Other { .. })) ==> final(core).queue == old(
            core,
        ).queue,
{
    match outcome {
        Ok(_) => false,
        Err(ConnectionError::Interrupted) => true,
        Err(ConnectionError::Other { cause }) => {
            let body = messages::format_connection_error(cause.as_str());
            core.set_hud_message(body.as_str());
            false
        },
    }
}

/// What the discovery loop does after one broadcast-and-race round.
#[derive(Clone, Copy, PartialEq, Eq, Structural, Debug)]
pub enum DiscoveryStep {
    /// Liveness dropped: the attempt ends as interrupted.
    Interrupted,
    /// The broadcast could not reach the network: the unreachable HUD is
    /// up; sleep the minimum retry interval, restore the initial HUD, and
    /// end the attempt quietly.
    OfflinePause,
    /// Nobody answered within the discovery pause: broadcast and race
    /// again.
    RetryConnect,
    /// A peer connected: move on to the handshake.
    Connected,
}

/// One round of discovery: broadcast, then race the control-channel connect
/// against the discovery pause.
pub fn discovery_step(
    core: &mut ClientCore,
    alive: bool,
    broadcast_ok: bool,
    peer_found: bool,
) -> (r: DiscoveryStep)
    requires
        old(core).wf(),
    ensures
        final(core).wf(),
        old(core).only_queue_changed(*final(core)),
        !alive ==> r is Interrupted && final(core).queue == old(core).queue,
        alive && !broadcast_ok ==> r is OfflinePause && old(core).queue_gains_hud(
            *final(core),
            old(core).hud_text_for(messages::spec_network_unreachable_message()),
        ),
        alive && broadcast_ok && !peer_found ==> r is RetryConnect && final(core).queue == old(
            core,
        ).queue,
        alive && broadcast_ok && peer_found ==> r is Connected && final(core).queue == old(
            core,
        ).queue,
{
    if !alive {
        DiscoveryStep::Interrupted
    } else if !broadcast_ok {
        core.set_hud_message(messages::network_unreachable_message());
        DiscoveryStep::OfflinePause
    } else if peer_found {
        DiscoveryStep::Connected
    } else {
        DiscoveryStep::RetryConnect
    }
}

/// Puts the initial "searching" HUD back up, after the offline pause.
pub fn restore_initial_hud(core: &mut ClientCore)
    requires
        old(core).wf(),
    ensures
        final(core).wf(),
        old(core).only_queue_changed(*final(core)),
        old(core).queue_gains_hud(
            *final(core),
            old(core).hud_text_for(messages::spec_initial_message()),
        ),
{
    core.set_hud_message(messages::initial_message());
}

/// The wait for the stream config packet after `ConnectionAccepted`: not
/// receiving it within the timeout is fatal to the attempt.
pub fn on_stream_config_wait(received: bool) -> (r: Result<(), ConnectionError>)
    ensures
        received <==> r is Ok,
        !received ==> (r matches Err(ConnectionError::Other { cause }) && cause@
            == "Timeout waiting for stream config"@),
{
    if received {
        Ok(())
    } else {
        Err(ConnectionError::Other { cause: String::from_str("Timeout waiting for stream config") })
    }
}

/// Builds the session singletons from the derived settings and the
/// negotiated map: defaults applied, the statistics clock pinned to
/// `1 / refresh_rate`, the decoder parameters projected, the control
/// outbox empty. Nothing is installed yet; that happens atomically in
/// `ClientCore::start_streaming`.
pub fn prepare_session(settings: StreamSettings, opts: &NegotiatedOptions) -> (r: StreamingSession)
    requires
        opts.refresh_rate_millihz matches Some(h) ==> h >= 1,
    ensures
        r.wf(),
        r.negotiated == spec_negotiate(*opts),
        r.settings == settings,
        r.statistics.history_size == settings.statistics_history_size,
        r.statistics.frame_interval_ns == spec_frame_interval_ns(
            spec_negotiate(*opts).refresh_rate_millihz,
        ),
        r.statistics.steamvr_pipeline_frames_milli == (
        if settings.steamvr_pipeline_frames_milli is Some {
            settings.steamvr_pipeline_frames_milli->0
        } else {
            0u32
        }),
        r.statistics.history@ =~= Seq::<u64>::empty(),
        r.decoder_config.max_buffering_frames_milli == settings.max_buffering_frames_milli,
        r.decoder_config.buffering_history_weight_milli == settings.buffering_history_weight_milli,
        r.decoder_config.options@ == settings.mediacodec_extra_options@,
        r.control_sender.outbox@ =~= Seq::<ClientControlPacket>::empty(),
        r.tracking_sender.subject == TRACKING,
        r.statistics_sender.subject == STATISTICS,
{
    let negotiated = negotiate(opts);
    let frame_ns = frame_interval_ns(negotiated.refresh_rate_millihz);
    let pipeline_frames = match settings.steamvr_pipeline_frames_milli {
        Some(v) => v,
        None => 0,
    };
    let statistics = StatisticsManager::new(
        settings.statistics_history_size,
        frame_ns,
        pipeline_frames,
    );
    let decoder_config = decoder_config_from_settings(&settings);
    StreamingSession {
        runtime: ConnectionRuntime {  },
        tracking_sender: StreamSenderHandle { subject: TRACKING },
        statistics_sender: StreamSenderHandle { subject: STATISTICS },
        control_sender: ControlChannelSender { outbox: Vec::new() },
        statistics,
        decoder_config,
        negotiated,
        settings,
    }
}

/// Outcome of the non-blocking peek for the first control packet after the
/// stream config was parsed.
#[derive(Clone, Copy, PartialEq, Eq, Structural, Debug)]
pub enum HandshakePeek {
    /// `StartStream` was already there: go on to Configuring.
    Proceed,
    /// The server is restarting: end the attempt quietly, before Streaming.
    RestartAbort,
    /// The channel broke (or nothing was there): treat as a disconnect.
    DisconnectAbort,
    /// Some other packet: abort the attempt.
    UnexpectedAbort,
}

/// The handshake's last step: a 1 ms peek for an immediately available
/// `StartStream`. Anything else ends the attempt without entering
/// Streaming, with the matching HUD message.
pub fn on_handshake_peek(
    core: &mut ClientCore,
    packet: Option<&ServerControlPacket>,
) -> (r: HandshakePeek)
    requires
        old(core).wf(),
    ensures
        final(core).wf(),
        old(core).only_queue_changed(*final(core)),
        packet matches Some(p) && p is StartStream ==> r is Proceed && old(core).queue_gains_hud(
            *final(core),
            old(core).hud_text_for(messages::spec_stream_starting_message()),
        ),
        packet matches Some(p) && p is Restarting ==> r is RestartAbort && old(
            core,
        ).queue_gains_hud(
            *final(core),
            old(core).hud_text_for(messages::spec_server_restart_message()),
        ),
        packet is None ==> r is DisconnectAbort && old(core).queue_gains_hud(
            *final(core),
            old(core).hud_text_for(messages::spec_server_disconnected_message()),
        ),
        packet matches Some(p) && !(p is StartStream) && !(p is Restarting) ==> r
            is UnexpectedAbort && old(core).queue_gains_hud(
            *final(core),
            old(core).hud_text_for(messages::spec_unexpected_packet_message()),
        ),
{
    match packet {
        Some(ServerControlPacket::StartStream) => {
            core.set_hud_message(messages::stream_starting_message());
            HandshakePeek::Proceed
        },
        Some(ServerControlPacket::Restarting) => {
            core.set_hud_message(messages::server_restart_message());
            HandshakePeek::RestartAbort
        },
        None => {
            core.set_hud_message(messages::server_disconnected_message());
            HandshakePeek::DisconnectAbort
        },
        Some(_) => {
            core.set_hud_message(messages::unexpected_packet_message());
            HandshakePeek::UnexpectedAbort
        },
    }
}

/// The stream socket bind, raced against its non-blocking timeout: not
/// binding at once is fatal to the attempt.
pub fn on_stream_socket_bind(bound: bool) -> (r: Result<(), ConnectionError>)
    ensures
        bound <==> r is Ok,
        !bound ==> (r matches Err(ConnectionError::Other { cause }) && cause@
            == "Timeout while binding stream socket"@),
{
    if bound {
        Ok(())
    } else {
        Err(
            ConnectionError::Other {
                cause: String::from_str("Timeout while binding stream socket"),
            },
        )
    }
}

/// After the bind, `StreamReady` is sent on the control channel; a send
/// error is a disconnect and ends the attempt quietly.
pub fn on_stream_ready_sent(core: &mut ClientCore, send_ok: bool) -> (proceed: bool)
    requires
        old(core).wf(),
    ensures
        final(core).wf(),
        old(core).only_queue_changed(*final(core)),
        proceed == send_ok,
        send_ok ==> final(core).queue == old(core).queue,
        !send_ok ==> old(core).queue_gains_hud(
            *final(core),
            old(core).hud_text_for(messages::spec_server_disconnected_message()),
        ),
{
    if !send_ok {
        core.set_hud_message(messages::server_disconnected_message());
    }
    send_ok
}

/// The stream socket accept, raced against its timeout: not completing in
/// time is fatal to the attempt.
pub fn on_stream_socket_accept(accepted: bool) -> (r: Result<(), ConnectionError>)
    ensures
        accepted <==> r is Ok,
        !accepted ==> (r matches Err(ConnectionError::Other { cause }) && cause@
            == "Timeout while setting up streams"@),
{
    if accepted {
        Ok(())
    } else {
        Err(ConnectionError::Other { cause: String::from_str("Timeout while setting up streams") })
    }
}

/// Which tasks the streaming task graph runs: the audio loops only when
/// their sides are enabled, everything else always.
#[derive(Clone, Copy, PartialEq, Eq, Structural, Debug)]
pub struct TaskPlan {
    pub receive: bool,
    pub game_audio: bool,
    pub microphone: bool,
    pub video_receive: bool,
    pub haptics_receive: bool,
    pub control_send: bool,
    pub keepalive: bool,
    pub control_receive: bool,
}

/// Composes the task graph for a session.
pub fn plan_task_graph(settings: &StreamSettings) -> (r: TaskPlan)
    ensures
        r.receive && r.video_receive && r.haptics_receive && r.control_send && r.keepalive
            && r.control_receive,
        r.game_audio == settings.game_audio_enabled,
        r.microphone == settings.microphone_enabled,
{
    TaskPlan {
        receive: true,
        game_audio: settings.game_audio_enabled,
        microphone: settings.microphone_enabled,
        video_receive: true,
        haptics_receive: true,
        control_send: true,
        keepalive: true,
        control_receive: true,
    }
}

/// What the control receive loop does with one packet.
#[derive(Clone, Copy, PartialEq, Eq, Structural, Debug)]
pub enum ControlLoopStep {
    /// Nothing to do for this packet.
    Continue,
    /// `InitializeDecoder` arrived: create the decoder with its config.
    CreateDecoder,
    /// The session ends: the select observes this loop's completion.
    Exit,
}

/// One packet of the control receive loop during streaming:
/// `InitializeDecoder` creates the decoder, `Restarting` ends the session
/// with the restart HUD, a receive error ends it with the disconnect HUD,
/// anything else is ignored.
pub fn on_control_packet(
    core: &mut ClientCore,
    packet: Option<&ServerControlPacket>,
) -> (r: ControlLoopStep)
    requires
        old(core).wf(),
    ensures
        final(core).wf(),
        old(core).only_queue_changed(*final(core)),
        packet matches Some(p) && p is InitializeDecoder ==> r is CreateDecoder && final(core).queue == old(core).queue,
        packet matches Some(p) && p is Restarting ==> r is Exit && old(core).queue_gains_hud(
            *final(core),
            old(core).hud_text_for(messages::spec_server_restart_message()),
        ),
        packet matches Some(p) && !(p is InitializeDecoder) && !(p is Restarting) ==> r is Continue
            && final(core).queue == old(core).queue,
        packet is None ==> r is Exit && old(core).queue_gains_hud(
            *final(core),
            old(core).hud_text_for(messages::spec_server_disconnected_message()),
        ),
{
    match packet {
        Some(ServerControlPacket::InitializeDecoder { .. }) => ControlLoopStep::CreateDecoder,
        Some(ServerControlPacket::Restarting) => {
            core.set_hud_message(messages::server_restart_message());
            ControlLoopStep::Exit
        },
        Some(_) => ControlLoopStep::Continue,
        None => {
            core.set_hud_message(messages::server_disconnected_message());
            ControlLoopStep::Exit
        },
    }
}

/// What the keepalive sender does after one send.
#[derive(Clone, Copy, PartialEq, Eq, Structural, Debug)]
pub enum KeepaliveStep {
    /// The send went through: sleep one keepalive interval and send again.
    SleepThenContinue,
    /// The send failed: the session ends with the disconnect HUD.
    Exit,
}

/// One round of the keepalive sender: a `KeepAlive` leaves every interval,
/// and the first send error terminates the task graph.
pub fn on_keepalive_tick(core: &mut ClientCore, send_ok: bool) -> (r: KeepaliveStep)
    requires
        old(core).wf(),
    ensures
        final(core).wf(),
        old(core).only_queue_changed(*final(core)),
        send_ok ==> r is SleepThenContinue && final(core).queue == old(core).queue,
        !send_ok ==> r is Exit && old(core).queue_gains_hud(
            *final(core),
            old(core).hud_text_for(messages::spec_server_disconnected_message()),
        ),
{
    if send_ok {
        KeepaliveStep::SleepThenContinue
    } else {
        core.set_hud_message(messages::server_disconnected_message());
        KeepaliveStep::Exit
    }
}

/// The stream-socket receive loop ended (with or without an error): the
/// session ends with the disconnect HUD.
pub fn on_receive_loop_ended(core: &mut ClientCore)
    requires
        old(core).wf(),
    ensures
        final(core).wf(),
        old(core).only_queue_changed(*final(core)),
        old(core).queue_gains_hud(
            *final(core),
            old(core).hud_text_for(messages::spec_server_disconnected_message()),
        ),
{
    core.set_hud_message(messages::server_disconnected_message());
}

/// One battery poll during streaming: a changed status queues a `Battery`
/// control packet, an unchanged one queues nothing.
pub fn on_battery_status(
    core: &mut ClientCore,
    device_id: u64,
    gauge_millis: u32,
    plugged: bool,
    prev_gauge_millis: u32,
    prev_plugged: bool,
) -> (r: bool)
    requires
        old(core).wf(),
        old(core).streaming,
    ensures
        final(core).wf(),
        final(core).identity == old(core).identity,
        final(core).streaming == old(core).streaming,
        final(core).queue == old(core).queue,
        r == (gauge_millis != prev_gauge_millis || plugged != prev_plugged),
        !r ==> final(core).session == old(core).session,
        r ==> (final(core).session matches Some(s) && old(core).session matches Some(os)
            && crate::session::same_but_outbox(os, s) && s.control_sender.outbox@
            == os.control_sender.outbox@.push(
            ClientControlPacket::Battery { device_id, gauge_millis, plugged },
        )),
{
    if gauge_millis != prev_gauge_millis || plugged != prev_plugged {
        core.queue_control_packet(ClientControlPacket::Battery { device_id, gauge_millis, plugged });
        true
    } else {
        false
    }
}

} // verus!
