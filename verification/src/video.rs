//! The video receive path: a two-state corruption machine (`ok`,
//! `corrupted`) driven by three events — an IDR header clears corruption,
//! observed packet loss sets it and asks the server for a new IDR, and a
//! decoder rejection does the same. While corrupted, payloads are dropped
//! if and only if the session avoids video glitching. IDR detection
//! precedes loss detection within one packet, so an IDR arriving after loss
//! immediately re-clears corruption.

use vstd::prelude::*;

use crate::config::reported;
use crate::packets::ClientControlPacket;
use crate::packets::VideoPacketHeader;
use crate::session::same_session_core;
use crate::session::ClientCore;

verus! {

/// The corruption state machine of one video session.
#[derive(Clone, Copy, PartialEq, Eq, Structural, Debug)]
pub struct VideoPipeline {
    pub corrupted: bool,
    pub avoid_video_glitching: bool,
}

/// What the loop does with one packet after the header was examined.
#[derive(Clone, Copy, PartialEq, Eq, Structural, Debug)]
pub struct PacketDirective {
    pub request_idr: bool,
    pub push_payload: bool,
}

/// The loop's reaction to one reassembled packet.
#[derive(Clone, Copy, PartialEq, Eq, Structural, Debug)]
pub enum VideoPacketStep {
    /// The device left the resumed state: the loop exits cleanly.
    Exit,
    /// The payload is dropped while waiting for an IDR frame.
    Drop,
    /// The payload goes to the decoder.
    Push,
}

impl VideoPipeline {
    /// A fresh pipeline: not corrupted.
    pub fn new(avoid_video_glitching: bool) -> (r: Self)
        ensures
            !r.corrupted,
            r.avoid_video_glitching == avoid_video_glitching,
    {
        VideoPipeline { corrupted: false, avoid_video_glitching }
    }

    /// Examines one packet header: an IDR clears corruption; otherwise
    /// observed loss sets it and requests an IDR. The payload is pushed
    /// unless the stream is corrupted and glitch avoidance is on.
    pub fn on_packet_header(&mut self, is_idr: bool, had_loss: bool) -> (r: PacketDirective)
        ensures
            final(self).avoid_video_glitching == old(self).avoid_video_glitching,
            final(self).corrupted == (if is_idr {
                false
            } else {
                old(self).corrupted || had_loss
            }),
            r.request_idr == (!is_idr && had_loss),
            r.push_payload == (!final(self).corrupted || !old(self).avoid_video_glitching),
    {
        let mut request_idr = false;
        if is_idr {
            self.corrupted = false;
        } else if had_loss {
            self.corrupted = true;
            request_idr = true;
        }
        let push_payload = !self.corrupted || !self.avoid_video_glitching;
        PacketDirective { request_idr, push_payload }
    }

    /// Records the decoder's verdict on a pushed payload: a rejection
    /// (saturation) corrupts the stream and requests an IDR.
    pub fn on_decoder_result(&mut self, accepted: bool) -> (r: bool)
        ensures
            final(self).avoid_video_glitching == old(self).avoid_video_glitching,
            final(self).corrupted == (old(self).corrupted || !accepted),
            r == !accepted,
    {
        if !accepted {
            self.corrupted = true;
        }
        !accepted
    }
}

impl ClientCore {
    /// One iteration of the video receive loop, after a packet was
    /// reassembled: exit if the device is no longer resumed; otherwise
    /// report the timestamp to the statistics manager, run the corruption
    /// machine, queue `RequestIdr` on observed loss, and say whether the
    /// payload goes to the decoder.
    pub fn handle_video_packet(
        &mut self,
        pipeline: &mut VideoPipeline,
        header: VideoPacketHeader,
        had_loss: bool,
        resumed: bool,
    ) -> (r: VideoPacketStep)
        requires
            old(self).wf(),
            old(self).streaming,
        ensures
            final(self).wf(),
            final(self).streaming,
            final(self).identity == old(self).identity,
            final(self).queue == old(self).queue,
            !resumed ==> (r is Exit && *final(self) == *old(self) && *final(pipeline) == *old(
                pipeline,
            )),
            resumed ==> ({
                &&& !(r is Exit)
                &&& final(pipeline).avoid_video_glitching == old(pipeline).avoid_video_glitching
                &&& final(pipeline).corrupted == (if header.is_idr {
                    false
                } else {
                    old(pipeline).corrupted || had_loss
                })
                &&& (r is Push <==> (!final(pipeline).corrupted || !old(
                    pipeline,
                ).avoid_video_glitching))
                &&& final(self).session matches Some(s) && old(self).session matches Some(os)
                    && same_session_core(os, s) && reported(
                    os.statistics,
                    s.statistics,
                    header.timestamp_ns,
                ) && (if !header.is_idr && had_loss {
                    s.control_sender.outbox@ == os.control_sender.outbox@.push(
                        ClientControlPacket::RequestIdr,
                    )
                } else {
                    s.control_sender.outbox@ == os.control_sender.outbox@
                })
            }),
    {
        if !resumed {
            return VideoPacketStep::Exit;
        }
        match &mut self.session {
            Some(session) => {
                session.statistics.report_video_packet_received(header.timestamp_ns);
            },
            None => unreached(),
        }
        let directive = pipeline.on_packet_header(header.is_idr, had_loss);
        if directive.request_idr {
            self.queue_control_packet(ClientControlPacket::RequestIdr);
        }
        if directive.push_payload {
            VideoPacketStep::Push
        } else {
            VideoPacketStep::Drop
        }
    }

    /// Records the decoder's verdict on a payload this loop pushed: a
    /// rejection corrupts the stream and queues `RequestIdr`.
    pub fn handle_decoder_result(&mut self, pipeline: &mut VideoPipeline, accepted: bool)
        requires
            old(self).wf(),
            old(self).streaming,
        ensures
            final(self).wf(),
            final(self).streaming,
            final(self).identity == old(self).identity,
            final(self).queue == old(self).queue,
            final(pipeline).avoid_video_glitching == old(pipeline).avoid_video_glitching,
            final(pipeline).corrupted == (old(pipeline).corrupted || !accepted),
            accepted ==> final(self).session == old(self).session,
            !accepted ==> (final(self).session matches Some(s) && old(self).session matches Some(
                os,
            ) && same_session_core(os, s) && s.statistics == os.statistics
                && s.control_sender.outbox@ == os.control_sender.outbox@.push(
                ClientControlPacket::RequestIdr,
            )),
    {
        let request = pipeline.on_decoder_result(accepted);
        if request {
            self.queue_control_packet(ClientControlPacket::RequestIdr);
        }
    }
}

} // verus!
