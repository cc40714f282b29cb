//! Negotiated session parameters and the statistics manager.
//!
//! The server sends a string-keyed map of negotiated values; the core reads
//! three known keys and falls back to defaults for any that are missing.
//! Rates are carried in millihertz so that the whole configuration is exact
//! integer data.

use vstd::prelude::*;

verus! {

/// Default refresh rate when the server does not negotiate one: 60 Hz.
pub const DEFAULT_REFRESH_RATE_MILLIHZ: u32 = 60_000;

/// Default game audio sample rate when the server does not negotiate one.
pub const DEFAULT_GAME_AUDIO_SAMPLE_RATE: u32 = 44_100;

/// The three negotiated keys the core understands, each `None` when the
/// server's map did not contain the key (or its value had the wrong shape).
/// Unknown keys are dropped by the caller before this point.
#[derive(Clone, Copy, PartialEq, Eq, Debug)]
pub struct NegotiatedOptions {
    pub view_resolution: Option<(u32, u32)>,
    pub refresh_rate_millihz: Option<u32>,
    pub game_audio_sample_rate: Option<u32>,
}

/// The negotiated configuration after defaults are applied; fixed for the
/// whole session.
#[derive(Clone, Copy, PartialEq, Eq, Structural, Debug)]
pub struct NegotiatedConfig {
    pub view_width: u32,
    pub view_height: u32,
    pub refresh_rate_millihz: u32,
    pub game_audio_sample_rate: u32,
}

/// The defaults, applied: a missing view resolution is (0, 0), a missing
/// refresh rate is 60 Hz, a missing game audio sample rate is 44100 Hz.
pub open spec fn spec_negotiate(opts: NegotiatedOptions) -> NegotiatedConfig {
    NegotiatedConfig {
        view_width: if opts.view_resolution is Some {
            (opts.view_resolution->0).0
        } else {
            0u32
        },
        view_height: if opts.view_resolution is Some {
            (opts.view_resolution->0).1
        } else {
            0u32
        },
        refresh_rate_millihz: if opts.refresh_rate_millihz is Some {
            opts.refresh_rate_millihz->0
        } else {
            DEFAULT_REFRESH_RATE_MILLIHZ
        },
        game_audio_sample_rate: if opts.game_audio_sample_rate is Some {
            opts.game_audio_sample_rate->0
        } else {
            DEFAULT_GAME_AUDIO_SAMPLE_RATE
        },
    }
}

/// Applies the defaults: a missing view resolution is (0, 0), a missing
/// refresh rate is 60 Hz, a missing game audio sample rate is 44100 Hz.
pub fn negotiate(opts: &NegotiatedOptions) -> (r: NegotiatedConfig)
    ensures
        r == spec_negotiate(*opts),
{
    let (view_width, view_height) = match opts.view_resolution {
        Some(pair) => pair,
        None => (0, 0),
    };
    let refresh_rate_millihz = match opts.refresh_rate_millihz {
        Some(r) => r,
        None => DEFAULT_REFRESH_RATE_MILLIHZ,
    };
    let game_audio_sample_rate = match opts.game_audio_sample_rate {
        Some(r) => r,
        None => DEFAULT_GAME_AUDIO_SAMPLE_RATE,
    };
    NegotiatedConfig { view_width, view_height, refresh_rate_millihz, game_audio_sample_rate }
}

/// The statistics clock basis: the duration of one frame, in nanoseconds,
/// for a refresh rate given in millihertz.
pub open spec fn spec_frame_interval_ns(refresh_rate_millihz: u32) -> u64
    recommends
        refresh_rate_millihz >= 1,
{
    (1_000_000_000_000u64 / refresh_rate_millihz as u64) as u64
}

/// Computes `1 / refresh_rate` as nanoseconds. A zero rate would make the
/// session clock undefined, so it is excluded.
pub fn frame_interval_ns(refresh_rate_millihz: u32) -> (r: u64)
    requires
        refresh_rate_millihz >= 1,
    ensures
        r == spec_frame_interval_ns(refresh_rate_millihz),
{
    1_000_000_000_000u64 / (refresh_rate_millihz as u64)
}

/// Transport chosen for the stream socket.
#[derive(Clone, Copy, PartialEq, Eq, Structural, Debug)]
pub enum SocketProtocol {
    Udp,
    Tcp,
}

/// The slice of the merged session settings that the connection core reads.
/// Weights and frame counts that the session description states as
/// fractional values are carried in thousandths.
#[derive(Clone, PartialEq, Debug)]
pub struct StreamSettings {
    pub stream_port: u16,
    pub stream_protocol: SocketProtocol,
    pub client_send_buffer_bytes: u32,
    pub client_recv_buffer_bytes: u32,
    pub packet_size: u32,
    pub statistics_history_size: usize,
    pub avoid_video_glitching: bool,
    pub max_buffering_frames_milli: u32,
    pub buffering_history_weight_milli: u32,
    pub mediacodec_extra_options: Vec<(String, String)>,
    pub game_audio_enabled: bool,
    pub game_audio_buffering_ms: u32,
    pub microphone_enabled: bool,
    pub steamvr_pipeline_frames_milli: Option<u32>,
}

/// The decoder initialization parameters published for the decoder before
/// streaming begins.
#[derive(Clone, PartialEq, Debug)]
pub struct DecoderInitConfig {
    pub max_buffering_frames_milli: u32,
    pub buffering_history_weight_milli: u32,
    pub options: Vec<(String, String)>,
}

/// Projects the video settings into the decoder initialization parameters.
pub fn decoder_config_from_settings(s: &StreamSettings) -> (r: DecoderInitConfig)
    ensures
        r.max_buffering_frames_milli == s.max_buffering_frames_milli,
        r.buffering_history_weight_milli == s.buffering_history_weight_milli,
        r.options@ == s.mediacodec_extra_options@,
{
    let opts = &s.mediacodec_extra_options;
    let mut options: Vec<(String, String)> = Vec::new();
    let mut i: usize = 0;
    while i < opts.len()
        invariant
            i <= opts@.len(),
            options@ =~= opts@.subrange(0, i as int),
        decreases opts@.len() - i,
    {
        let pair = &opts[i];
        options.push((pair.0.clone(), pair.1.clone()));
        assert(options@ =~= opts@.subrange(0, i as int + 1));
        i += 1;
    }
    assert(options@ =~= opts@);
    DecoderInitConfig {
        max_buffering_frames_milli: s.max_buffering_frames_milli,
        buffering_history_weight_milli: s.buffering_history_weight_milli,
        options,
    }
}

/// Session-scoped timing bookkeeping for received video packets. The clock
/// basis `frame_interval_ns` is fixed at construction for the whole session.
#[derive(Clone, PartialEq, Debug)]
pub struct StatisticsManager {
    pub history_size: usize,
    pub frame_interval_ns: u64,
    pub steamvr_pipeline_frames_milli: u32,
    pub history: Vec<u64>,
}

/// How one reported packet relates the manager's state after to the state
/// before: the configuration is untouched and the timestamp enters the
/// history, evicting the oldest entry once the history is full.
pub open spec fn reported(before: StatisticsManager, after: StatisticsManager, t: u64) -> bool {
    &&& after.history_size == before.history_size
    &&& after.frame_interval_ns == before.frame_interval_ns
    &&& after.steamvr_pipeline_frames_milli == before.steamvr_pipeline_frames_milli
    &&& (before.history_size == 0 ==> after.history@ == before.history@)
    &&& (before.history@.len() < before.history_size ==> after.history@ == before.history@.push(
        t,
    ))
    &&& (before.history@.len() == before.history_size && before.history_size > 0
        ==> after.history@ == before.history@.remove(0).push(t))
}

impl StatisticsManager {
    /// The timestamp history never outgrows the configured size.
    pub open spec fn wf(self) -> bool {
        self.history@.len() <= self.history_size
    }

    /// A fresh manager with an empty history.
    pub fn new(
        history_size: usize,
        frame_interval_ns: u64,
        steamvr_pipeline_frames_milli: u32,
    ) -> (r: Self)
        ensures
            r.history_size == history_size,
            r.frame_interval_ns == frame_interval_ns,
            r.steamvr_pipeline_frames_milli == steamvr_pipeline_frames_milli,
            r.history@ =~= Seq::<u64>::empty(),
            r.wf(),
    {
        StatisticsManager { history_size, frame_interval_ns, steamvr_pipeline_frames_milli, history: Vec::new() }
    }

    /// Records one received video packet's timestamp, evicting the oldest
    /// entry once the history is full. The clock basis never changes.
    pub fn report_video_packet_received(&mut self, timestamp_ns: u64)
        requires
            old(self).wf(),
        ensures
            final(self).wf(),
            reported(*old(self), *final(self), timestamp_ns),
    {
        if self.history_size == 0 {
            return ;
        }
        if self.history.len() >= self.history_size {
            self.history.remove(0);
        }
        self.history.push(timestamp_ns);
    }
}

} // verus!
