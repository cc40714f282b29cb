use connection_core::config::{NegotiatedOptions, SocketProtocol, StatisticsManager, StreamSettings};
use connection_core::events::ClientCoreEvent;
use connection_core::messages::{format_hud_message, initial_message, stream_starting_message};
use connection_core::packets::{ClientControlPacket, ServerControlPacket, VideoPacketHeader};
use connection_core::session::{ClientCore, ClientIdentity};
use connection_core::supervisor::{
    discovery_step, on_control_packet, on_handshake_peek, on_keepalive_tick, on_battery_status,
    on_stream_config_wait, on_stream_ready_sent, on_stream_socket_accept, on_stream_socket_bind,
    prepare_session, ControlLoopStep, DiscoveryStep, HandshakePeek, KeepaliveStep,
    CONNECTION_RETRY_INTERVAL_MS, NETWORK_KEEPALIVE_INTERVAL_MS,
};
use connection_core::video::{VideoPacketStep, VideoPipeline};

fn streaming_identity() -> ClientIdentity {
    ClientIdentity {
        version: "20.6.0".to_string(),
        hostname: "head1".to_string(),
        local_ip: "10.0.0.2".to_string(),
    }
}

fn streaming_settings(avoid_video_glitching: bool) -> StreamSettings {
    StreamSettings {
        stream_port: 9944,
        stream_protocol: SocketProtocol::Udp,
        client_send_buffer_bytes: 100_000,
        client_recv_buffer_bytes: 100_000,
        packet_size: 1400,
        statistics_history_size: 256,
        avoid_video_glitching,
        max_buffering_frames_milli: 1_500,
        buffering_history_weight_milli: 900,
        mediacodec_extra_options: vec![],
        game_audio_enabled: false,
        game_audio_buffering_ms: 60,
        microphone_enabled: false,
        steamvr_pipeline_frames_milli: None,
    }
}

fn streaming_core(avoid_video_glitching: bool) -> ClientCore {
    let opts = NegotiatedOptions {
        view_resolution: Some((1832, 1920)),
        refresh_rate_millihz: Some(90_000),
        game_audio_sample_rate: None,
    };
    let session = prepare_session(streaming_settings(avoid_video_glitching), &opts);
    let mut core = ClientCore::new(streaming_identity());
    core.start_streaming(session);
    core
}

fn outbox(core: &ClientCore) -> &Vec<ClientControlPacket> {
    &core.session.as_ref().unwrap().control_sender.outbox
}

#[test]
fn singletons_present_iff_streaming() {
    // The streaming flag and the six session singletons rise and fall
    // together, across a full start/stop cycle.
    let mut core = ClientCore::new(streaming_identity());
    assert!(!core.is_streaming());
    assert!(core.session.is_none());
    let opts = NegotiatedOptions {
        view_resolution: None,
        refresh_rate_millihz: None,
        game_audio_sample_rate: None,
    };
    let session = prepare_session(streaming_settings(true), &opts);
    core.start_streaming(session);
    assert!(core.is_streaming());
    assert!(core.session.is_some());
    core.tear_down();
    assert!(!core.is_streaming());
    assert!(core.session.is_none());
}

#[test]
fn corruption_state_machine_trace() {
    // Trace [IDR, P, P(lost), P, IDR, P] with avoid_video_glitching on:
    // packets 1 and 2 pushed; 3 and 4 dropped; RequestIdr sent exactly once
    // at packet 3; 5 and 6 pushed.
    let mut core = streaming_core(true);
    let mut pipe = VideoPipeline::new(true);
    let trace = [
        (true, false),
        (false, false),
        (false, true),
        (false, false),
        (true, false),
        (false, false),
    ];
    let mut pushed: Vec<usize> = vec![];
    for (i, (is_idr, had_loss)) in trace.iter().enumerate() {
        let header = VideoPacketHeader { timestamp_ns: i as u64 * 11_111_111, is_idr: *is_idr };
        let step = core.handle_video_packet(&mut pipe, header, *had_loss, true);
        if matches!(step, VideoPacketStep::Push) {
            pushed.push(i + 1);
            core.handle_decoder_result(&mut pipe, true);
        }
    }
    assert_eq!(pushed, vec![1, 2, 5, 6]);
    assert_eq!(outbox(&core).len(), 1);
    assert!(matches!(outbox(&core)[0], ClientControlPacket::RequestIdr));
}

#[test]
fn decoder_saturation_requests_idr() {
    // Trace [IDR, P, P, P, IDR]; the decoder rejects packet 3: 1 and 2
    // decoded, 3 triggers RequestIdr, 4 dropped, 5 re-clears corruption and
    // is decoded.
    let mut core = streaming_core(true);
    let mut pipe = VideoPipeline::new(true);
    let trace = [true, false, false, false, true];
    let mut decoded: Vec<usize> = vec![];
    for (i, is_idr) in trace.iter().enumerate() {
        let header = VideoPacketHeader { timestamp_ns: i as u64 * 11_111_111, is_idr: *is_idr };
        let step = core.handle_video_packet(&mut pipe, header, false, true);
        if matches!(step, VideoPacketStep::Push) {
            let accepted = i != 2;
            core.handle_decoder_result(&mut pipe, accepted);
            if accepted {
                decoded.push(i + 1);
            }
        }
    }
    assert_eq!(decoded, vec![1, 2, 5]);
    assert_eq!(outbox(&core).len(), 1);
    assert!(matches!(outbox(&core)[0], ClientControlPacket::RequestIdr));
}

#[test]
fn glitching_allowed_pushes_corrupted_payloads() {
    // With avoid_video_glitching off, payloads are pushed even while the
    // stream is corrupted, though RequestIdr still goes out on loss.
    let mut core = streaming_core(false);
    let mut pipe = VideoPipeline::new(false);
    let header = VideoPacketHeader { timestamp_ns: 0, is_idr: false };
    let step = core.handle_video_packet(&mut pipe, header, true, true);
    assert!(matches!(step, VideoPacketStep::Push));
    assert_eq!(outbox(&core).len(), 1);
}

#[test]
fn resume_toggle_exits_video_loop() {
    // IS_RESUMED drops during streaming: the video loop exits cleanly and
    // teardown follows.
    let mut core = streaming_core(true);
    let mut pipe = VideoPipeline::new(true);
    let header = VideoPacketHeader { timestamp_ns: 0, is_idr: true };
    let step = core.handle_video_packet(&mut pipe, header, false, false);
    assert!(matches!(step, VideoPacketStep::Exit));
    core.tear_down();
    assert!(!core.is_streaming());
    assert!(matches!(core.queue.last(), Some(ClientCoreEvent::StreamingStopped)));
}

#[test]
fn keepalive_cadence_over_five_seconds() {
    // Over 5 s of streaming the keepalive sender emits 5±1 packets; the
    // first send error terminates the task graph with the disconnect HUD.
    let mut core = streaming_core(true);
    let mut now_ms: u64 = 0;
    let mut sends: u32 = 0;
    loop {
        sends += 1;
        match on_keepalive_tick(&mut core, true) {
            KeepaliveStep::SleepThenContinue => now_ms += NETWORK_KEEPALIVE_INTERVAL_MS,
            KeepaliveStep::Exit => panic!("keepalive must keep going while sends succeed"),
        }
        if now_ms > 5_000 {
            break;
        }
    }
    assert!((4..=6).contains(&sends), "sent {} keepalives", sends);
    let before = core.queue.len();
    let step = on_keepalive_tick(&mut core, false);
    assert!(matches!(step, KeepaliveStep::Exit));
    assert_eq!(core.queue.len(), before + 1);
    match core.queue.last() {
        Some(ClientCoreEvent::UpdateHudMessage { message }) => assert_eq!(
            message,
            &format_hud_message("20.6.0", "head1", "10.0.0.2", "The streamer has disconnected.")
        ),
        other => panic!("expected the disconnect HUD, got {:?}", other),
    }
}

#[test]
fn restart_during_streaming_ends_task_graph() {
    // A Restarting packet during Streaming terminates the graph and shows
    // the restart HUD; the outer loop resumes after the retry interval.
    let mut core = streaming_core(true);
    let step = on_control_packet(&mut core, Some(&ServerControlPacket::Restarting));
    assert!(matches!(step, ControlLoopStep::Exit));
    match core.queue.last() {
        Some(ClientCoreEvent::UpdateHudMessage { message }) => assert_eq!(
            message,
            &format_hud_message("20.6.0", "head1", "10.0.0.2", "The streamer is restarting\nPlease wait...")
        ),
        other => panic!("expected the restart HUD, got {:?}", other),
    }
    core.tear_down();
    assert!(!core.is_streaming());
    assert_eq!(CONNECTION_RETRY_INTERVAL_MS, 1_000);
}

#[test]
fn control_loop_reacts_per_packet() {
    let mut core = streaming_core(true);
    let init = ServerControlPacket::InitializeDecoder { config: vec![0, 1, 2] };
    assert!(matches!(on_control_packet(&mut core, Some(&init)), ControlLoopStep::CreateDecoder));
    assert!(matches!(
        on_control_packet(&mut core, Some(&ServerControlPacket::StartStream)),
        ControlLoopStep::Continue
    ));
    assert!(matches!(
        on_control_packet(&mut core, Some(&ServerControlPacket::Reserved)),
        ControlLoopStep::Continue
    ));
    assert!(matches!(on_control_packet(&mut core, None), ControlLoopStep::Exit));
}

#[test]
fn teardown_clears_flag_before_stopped_event() {
    // After the task graph returns, IS_STREAMING is false before
    // StreamingStopped becomes visible in the queue.
    let mut core = streaming_core(true);
    let events_before = core.queue.len();
    core.tear_down();
    assert!(!core.is_streaming());
    assert!(core.session.is_none());
    assert_eq!(core.queue.len(), events_before + 1);
    assert!(matches!(core.queue.last(), Some(ClientCoreEvent::StreamingStopped)));
}

#[test]
fn haptics_ordering_within_session() {
    // StreamingStarted precedes any Haptics of the session, and no Haptics
    // follows StreamingStopped.
    let mut core = streaming_core(true);
    core.post_haptics(77, 40_000_000, 320_000, 500);
    core.post_haptics(77, 10_000_000, 160_000, 900);
    core.tear_down();
    let started = core
        .queue
        .iter()
        .position(|e| matches!(e, ClientCoreEvent::StreamingStarted { .. }))
        .unwrap();
    let stopped = core
        .queue
        .iter()
        .position(|e| matches!(e, ClientCoreEvent::StreamingStopped))
        .unwrap();
    let haptics: Vec<usize> = core
        .queue
        .iter()
        .enumerate()
        .filter(|(_, e)| matches!(e, ClientCoreEvent::Haptics { .. }))
        .map(|(i, _)| i)
        .collect();
    assert_eq!(haptics.len(), 2);
    for i in haptics {
        assert!(started < i && i < stopped);
    }
}

#[test]
fn control_outbox_is_fifo() {
    let mut core = streaming_core(true);
    assert!(core.queue_control_packet(ClientControlPacket::RequestIdr));
    assert!(core.queue_control_packet(ClientControlPacket::KeepAlive));
    assert_eq!(core.next_control_packet(), Some(ClientControlPacket::RequestIdr));
    assert_eq!(core.next_control_packet(), Some(ClientControlPacket::KeepAlive));
    assert_eq!(core.next_control_packet(), None);
}

#[test]
fn control_channel_guarded_by_streaming_flag() {
    let mut core = ClientCore::new(streaming_identity());
    assert!(!core.queue_control_packet(ClientControlPacket::KeepAlive));
    assert!(core.session.is_none());
}

#[test]
fn battery_packet_only_on_change() {
    let mut core = streaming_core(true);
    assert!(!on_battery_status(&mut core, 99, 800, true, 800, true));
    assert!(outbox(&core).is_empty());
    assert!(on_battery_status(&mut core, 99, 790, true, 800, true));
    assert_eq!(
        outbox(&core)[0],
        ClientControlPacket::Battery { device_id: 99, gauge_millis: 790, plugged: true }
    );
    assert!(on_battery_status(&mut core, 99, 790, false, 790, true));
    assert_eq!(outbox(&core).len(), 2);
}

#[test]
fn statistics_history_evicts_oldest() {
    let mut stats = StatisticsManager::new(3, 16_666_666, 0);
    stats.report_video_packet_received(10);
    stats.report_video_packet_received(20);
    stats.report_video_packet_received(30);
    assert_eq!(stats.history, vec![10, 20, 30]);
    stats.report_video_packet_received(40);
    assert_eq!(stats.history, vec![20, 30, 40]);
    let mut none = StatisticsManager::new(0, 16_666_666, 0);
    none.report_video_packet_received(10);
    assert!(none.history.is_empty());
}

#[test]
fn clean_session_event_sequence() {
    // Clean session: discovery answers, the session negotiates 90 Hz at
    // 1832x1920, StartStream is peeked, ten clean video packets stream,
    // then the disconnect notifier fires. Expected events: searching HUD,
    // starting HUD, StreamingStarted, StreamingStopped.
    let mut core = ClientCore::new(streaming_identity());
    core.set_hud_message(initial_message());
    assert!(matches!(discovery_step(&mut core, true, true, true), DiscoveryStep::Connected));
    assert!(on_stream_config_wait(true).is_ok());
    let opts = NegotiatedOptions {
        view_resolution: Some((1832, 1920)),
        refresh_rate_millihz: Some(90_000),
        game_audio_sample_rate: None,
    };
    let session = prepare_session(streaming_settings(true), &opts);
    assert!(matches!(
        on_handshake_peek(&mut core, Some(&ServerControlPacket::StartStream)),
        HandshakePeek::Proceed
    ));
    assert!(on_stream_socket_bind(true).is_ok());
    assert!(on_stream_ready_sent(&mut core, true));
    assert!(on_stream_socket_accept(true).is_ok());
    core.start_streaming(session);
    let mut pipe = VideoPipeline::new(true);
    for i in 0..10u64 {
        let header = VideoPacketHeader { timestamp_ns: i * 11_111_111, is_idr: i % 5 == 0 };
        let step = core.handle_video_packet(&mut pipe, header, false, true);
        assert!(matches!(step, VideoPacketStep::Push));
        core.handle_decoder_result(&mut pipe, true);
    }
    core.tear_down();
    assert_eq!(core.queue.len(), 4);
    assert_eq!(
        hud_text(&core, 0),
        format_hud_message("20.6.0", "head1", "10.0.0.2", initial_message())
    );
    assert_eq!(
        hud_text(&core, 1),
        format_hud_message("20.6.0", "head1", "10.0.0.2", stream_starting_message())
    );
    match &core.queue[2] {
        ClientCoreEvent::StreamingStarted { view_width, view_height, refresh_rate_millihz } => {
            assert_eq!(*view_width, 1832);
            assert_eq!(*view_height, 1920);
            assert_eq!(*refresh_rate_millihz, 90_000);
        }
        other => panic!("expected StreamingStarted, got {:?}", other),
    }
    assert!(matches!(core.queue[3], ClientCoreEvent::StreamingStopped));
    assert!(core.session.is_none());
}

fn hud_text(core: &ClientCore, index: usize) -> String {
    match &core.queue[index] {
        ClientCoreEvent::UpdateHudMessage { message } => message.clone(),
        other => panic!("expected a HUD update, got {:?}", other),
    }
}
