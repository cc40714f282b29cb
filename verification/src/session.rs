//! The process-wide streaming state: the client's identity, the outward
//! event queue, the `streaming` flag and the session singletons. The
//! singletons are kept as one optional record so that the supervisor
//! installs and clears them atomically, and the flag is equivalent to their
//! presence at every observation point.

use vstd::prelude::*;

use crate::config::spec_frame_interval_ns;
use crate::config::DecoderInitConfig;
use crate::config::NegotiatedConfig;
use crate::config::StatisticsManager;
use crate::config::StreamSettings;
use crate::events::events_ordered;
use crate::events::lemma_push_event;
use crate::events::session_open;
use crate::events::ClientCoreEvent;
use crate::messages;
use crate::packets::ClientControlPacket;
use crate::packets::STATISTICS;
use crate::packets::TRACKING;

verus! {

/// The client's identity as shown in HUD messages and announcements.
#[derive(Clone, PartialEq, Debug)]
pub struct ClientIdentity {
    pub version: String,
    pub hostname: String,
    pub local_ip: String,
}

/// Stands for the cooperative task runtime that drives one streaming
/// session; only its presence matters to the state machine, its scheduling
/// lives outside this model.
#[derive(Clone, Copy, PartialEq, Eq, Structural, Debug)]
pub struct ConnectionRuntime {}

/// An outbound per-subject stream handle, identified by its subject.
#[derive(Clone, Copy, PartialEq, Eq, Structural, Debug)]
pub struct StreamSenderHandle {
    pub subject: u16,
}

/// The outbound control channel: the single path by which non-supervisor
/// code sends control packets. Packets leave in FIFO order.
#[derive(Clone, PartialEq, Debug)]
pub struct ControlChannelSender {
    pub outbox: Vec<ClientControlPacket>,
}

/// The session singletons, present exactly while streaming: the connection
/// runtime, the tracking and statistics senders, the outbound control
/// channel, the statistics manager and the decoder initialization
/// parameters — together with the configuration they were derived from.
#[derive(Clone, PartialEq, Debug)]
pub struct StreamingSession {
    pub runtime: ConnectionRuntime,
    pub tracking_sender: StreamSenderHandle,
    pub statistics_sender: StreamSenderHandle,
    pub control_sender: ControlChannelSender,
    pub statistics: StatisticsManager,
    pub decoder_config: DecoderInitConfig,
    pub negotiated: NegotiatedConfig,
    pub settings: StreamSettings,
}

impl StreamingSession {
    /// Senders carry their fixed subjects, the statistics history is within
    /// bounds, and the statistics clock basis is `1 / refresh_rate`, fixed
    /// for the session.
    pub open spec fn wf(self) -> bool {
        &&& self.tracking_sender.subject == TRACKING
        &&& self.statistics_sender.subject == STATISTICS
        &&& self.statistics.wf()
        &&& self.negotiated.refresh_rate_millihz >= 1
        &&& self.statistics.frame_interval_ns == spec_frame_interval_ns(
            self.negotiated.refresh_rate_millihz,
        )
    }
}

/// The two sessions agree on every field except the statistics manager and
/// the outbound control channel, the only parts the task graph mutates.
pub open spec fn same_session_core(a: StreamingSession, b: StreamingSession) -> bool {
    &&& b.runtime == a.runtime
    &&& b.tracking_sender == a.tracking_sender
    &&& b.statistics_sender == a.statistics_sender
    &&& b.decoder_config == a.decoder_config
    &&& b.negotiated == a.negotiated
    &&& b.settings == a.settings
}

/// The two sessions agree on every field except the outbound control
/// channel.
pub open spec fn same_but_outbox(a: StreamingSession, b: StreamingSession) -> bool {
    &&& same_session_core(a, b)
    &&& b.statistics == a.statistics
}

/// The streaming core's process-wide state. `queue` is the history of
/// outward events in the order they were posted; consumption happens
/// outside this model.
pub struct ClientCore {
    pub identity: ClientIdentity,
    pub queue: Vec<ClientCoreEvent>,
    pub streaming: bool,
    pub session: Option<StreamingSession>,
}

impl ClientCore {
    /// The singleton invariant and the event-queue discipline: the
    /// streaming flag is equivalent to the presence of the session record,
    /// the session is well formed, the posted events are well ordered, and
    /// while streaming the event history shows an open session.
    pub open spec fn wf(self) -> bool {
        &&& (self.streaming <==> self.session is Some)
        &&& (self.session matches Some(s) ==> s.wf())
        &&& events_ordered(self.queue@)
        &&& (self.streaming ==> session_open(self.queue@))
    }

    /// A fresh core: not streaming, no singletons, no events posted.
    pub fn new(identity: ClientIdentity) -> (r: Self)
        ensures
            r.wf(),
            !r.streaming,
            r.session is None,
            r.queue@ =~= Seq::<ClientCoreEvent>::empty(),
            r.identity == identity,
    {
        ClientCore { identity, queue: Vec::new(), streaming: false, session: None }
    }

    /// The `IS_STREAMING` flag that guards all external access to the
    /// session singletons.
    pub fn is_streaming(&self) -> (r: bool)
        ensures
            r == self.streaming,
    {
        self.streaming
    }

    /// Everything but the event queue is unchanged.
    pub open spec fn only_queue_changed(self, new: ClientCore) -> bool {
        &&& new.identity == self.identity
        &&& new.streaming == self.streaming
        &&& new.session == self.session
    }

    /// The full HUD text this core shows for a body message.
    pub open spec fn hud_text_for(self, body: Seq<char>) -> Seq<char> {
        messages::spec_hud_text(
            self.identity.version@,
            self.identity.hostname@,
            self.identity.local_ip@,
            body,
        )
    }

    /// The event queue gained exactly one HUD update carrying `text`.
    pub open spec fn queue_gains_hud(self, new: ClientCore, text: Seq<char>) -> bool {
        &&& new.queue@.len() == self.queue@.len() + 1
        &&& new.queue@.drop_last() == self.queue@
        &&& new.queue@.last() matches ClientCoreEvent::UpdateHudMessage { message } && message@
            == text
    }

    /// Posts a HUD update built from the identity header and `body`.
    pub fn set_hud_message(&mut self, body: &str)
        requires
            old(self).wf(),
        ensures
            final(self).wf(),
            old(self).only_queue_changed(*final(self)),
            old(self).queue_gains_hud(*final(self), old(self).hud_text_for(body@)),
    {
        let message = messages::format_hud_message(
            self.identity.version.as_str(),
            self.identity.hostname.as_str(),
            self.identity.local_ip.as_str(),
            body,
        );
        let event = ClientCoreEvent::UpdateHudMessage { message };
        proof {
            lemma_push_event(self.queue@, event);
        }
        self.queue.push(event);
        proof {
            assert(self.queue@.drop_last() =~= old(self).queue@);
        }
    }

    /// Installs the session singletons and raises the streaming flag in one
    /// step, then posts `StreamingStarted`. From the supervisor's view this
    /// is the atomic transition into the Streaming phase.
    pub fn start_streaming(&mut self, session: StreamingSession)
        requires
            old(self).wf(),
            !old(self).streaming,
            session.wf(),
        ensures
            final(self).wf(),
            final(self).streaming,
            final(self).session == Some(session),
            final(self).identity == old(self).identity,
            final(self).queue@ == old(self).queue@.push(
                ClientCoreEvent::StreamingStarted {
                    view_width: session.negotiated.view_width,
                    view_height: session.negotiated.view_height,
                    refresh_rate_millihz: session.negotiated.refresh_rate_millihz,
                },
            ),
    {
        let event = ClientCoreEvent::StreamingStarted {
            view_width: session.negotiated.view_width,
            view_height: session.negotiated.view_height,
            refresh_rate_millihz: session.negotiated.refresh_rate_millihz,
        };
        proof {
            lemma_push_event(self.queue@, event);
        }
        self.streaming = true;
        self.session = Some(session);
        self.queue.push(event);
    }

    /// Tears the session down: clears the streaming flag and drops the
    /// singletons first, and only then posts `StreamingStopped`, so an
    /// observer that sees the event also sees the flag already lowered.
    pub fn tear_down(&mut self)
        requires
            old(self).wf(),
            old(self).streaming,
        ensures
            final(self).wf(),
            !final(self).streaming,
            final(self).session is None,
            final(self).identity == old(self).identity,
            final(self).queue@ == old(self).queue@.push(ClientCoreEvent::StreamingStopped),
    {
        proof {
            lemma_push_event(self.queue@, ClientCoreEvent::StreamingStopped);
        }
        self.streaming = false;
        self.session = None;
        self.queue.push(ClientCoreEvent::StreamingStopped);
    }

    /// Posts a haptics event; only the task graph calls this, so streaming
    /// is in progress.
    pub fn post_haptics(
        &mut self,
        device_id: u64,
        duration_ns: u64,
        frequency_millihz: u32,
        amplitude_millis: u32,
    )
        requires
            old(self).wf(),
            old(self).streaming,
        ensures
            final(self).wf(),
            old(self).only_queue_changed(*final(self)),
            final(self).queue@ == old(self).queue@.push(
                ClientCoreEvent::Haptics { device_id, duration_ns, frequency_millihz, amplitude_millis },
            ),
    {
        let event = ClientCoreEvent::Haptics {
            device_id,
            duration_ns,
            frequency_millihz,
            amplitude_millis,
        };
        proof {
            lemma_push_event(self.queue@, event);
        }
        self.queue.push(event);
    }

    /// Queues a control packet on the outbound control channel, guarded by
    /// the streaming flag: outside a session nothing is queued and `false`
    /// comes back.
    pub fn queue_control_packet(&mut self, packet: ClientControlPacket) -> (r: bool)
        requires
            old(self).wf(),
        ensures
            final(self).wf(),
            final(self).identity == old(self).identity,
            final(self).streaming == old(self).streaming,
            final(self).queue == old(self).queue,
            r == old(self).streaming,
            !old(self).streaming ==> final(self).session == old(self).session,
            old(self).streaming ==> (final(self).session matches Some(s) && old(self).session
                matches Some(os) && same_but_outbox(os, s) && s.control_sender.outbox@
                == os.control_sender.outbox@.push(packet)),
    {
        match &mut self.session {
            Some(session) => {
                session.control_sender.outbox.push(packet);
                true
            },
            None => false,
        }
    }

    /// Takes the next control packet to write to the control channel, in
    /// FIFO order; `None` when the outbox is empty.
    pub fn next_control_packet(&mut self) -> (r: Option<ClientControlPacket>)
        requires
            old(self).wf(),
            old(self).streaming,
        ensures
            final(self).wf(),
            final(self).identity == old(self).identity,
            final(self).streaming == old(self).streaming,
            final(self).queue == old(self).queue,
            old(self).session matches Some(os) && final(self).session matches Some(s)
                && same_but_outbox(os, s) && (if os.control_sender.outbox@.len() == 0 {
                r is None && s == os
            } else {
                r == Some(os.control_sender.outbox@[0]) && s.control_sender.outbox@
                    == os.control_sender.outbox@.remove(0)
            }),
    {
        match &mut self.session {
            Some(session) => {
                if session.control_sender.outbox.len() == 0 {
                    None
                } else {
                    Some(session.control_sender.outbox.remove(0))
                }
            },
            None => unreached(),
        }
    }

    /// Whether the connection runtime singleton is present.
    pub open spec fn runtime_present(self) -> bool {
        self.session is Some
    }

    /// Whether the tracking sender singleton is present.
    pub open spec fn tracking_sender_present(self) -> bool {
        self.session is Some
    }

    /// Whether the statistics sender singleton is present.
    pub open spec fn statistics_sender_present(self) -> bool {
        self.session is Some
    }

    /// Whether the outbound control channel singleton is present.
    pub open spec fn control_sender_present(self) -> bool {
        self.session is Some
    }

    /// Whether the statistics manager singleton is present.
    pub open spec fn statistics_manager_present(self) -> bool {
        self.session is Some
    }

    /// Whether the decoder initialization config singleton is present.
    pub open spec fn decoder_config_present(self) -> bool {
        self.session is Some
    }
}

/// Singleton invariant: at any observation point the streaming flag holds
/// exactly when all six session singletons are present.
pub proof fn lemma_singleton_invariant(c: ClientCore)
    requires
        c.wf(),
    ensures
        c.streaming <==> (c.runtime_present() && c.tracking_sender_present()
            && c.statistics_sender_present() && c.control_sender_present()
            && c.statistics_manager_present() && c.decoder_config_present()),
{
}

/// Teardown ordering: whenever `StreamingStopped` is the latest visible
/// event, the streaming flag is already false — observers never see the
/// event before the flag drops.
pub proof fn lemma_stopped_implies_not_streaming(c: ClientCore)
    requires
        c.wf(),
        c.queue@.len() > 0,
        c.queue@.last() is StreamingStopped,
    ensures
        !c.streaming,
{
}

} // verus!
