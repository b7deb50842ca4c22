//! The pub/sub session state machine.
//!
//! The session owns the broker-facing behaviour of the bridge: subscribe
//! and announce itself when a connection comes up, decode inbound output
//! commands, publish input transitions and periodic heartbeats, fall back
//! to a fixed reconnect delay when the connection drops, and stop cleanly
//! on cancellation.  The unverified loop around it performs the network
//! calls; every decision — which topic, which payload, which counters,
//! which phase comes next — is taken here.

use vstd::prelude::*;

use crate::codec::{
    bool_text, decode_topic, decode_value, full_topic, heartbeat_rel, input_rel,
    is_output_topic, lit_heartbeat, lit_output_filter, lit_status, output_filter_rel,
    spec_bool_text, spec_decode_topic, spec_decode_value, spec_full_topic, spec_input_rel,
    spec_is_output_topic, status_rel,
};
use crate::event::KBusEvent;
use crate::stats::{spec_inc, ConnectionStats, HeartbeatStats};

verus! {

/// How long the session waits after losing the connection before it tries
/// to connect again, in milliseconds.
pub const RECONNECT_DELAY_MS: u64 = 3000;

/// The payload literal `"online"`.
pub open spec fn lit_online() -> Seq<u8> {
    seq!['o' as u8, 'n' as u8, 'l' as u8, 'i' as u8, 'n' as u8, 'e' as u8]
}

/// The payload literal `"offline"`.
pub open spec fn lit_offline() -> Seq<u8> {
    seq!['o' as u8, 'f' as u8, 'f' as u8, 'l' as u8, 'i' as u8, 'n' as u8, 'e' as u8]
}

/// Message delivery guarantees of the pub/sub protocol.
#[derive(Debug, Clone, Copy, PartialEq, Eq, Structural)]
pub enum Qos {
    /// Delivered at most once.
    AtMostOnce,
    /// Delivered at least once.
    AtLeastOnce,
    /// Delivered exactly once.
    ExactlyOnce,
}

/// One message for the unverified loop to publish.
#[derive(Debug, Clone)]
pub struct PublishRequest {
    /// The full topic to publish on.
    pub topic: Vec<u8>,
    /// The payload bytes.
    pub payload: Vec<u8>,
    /// The delivery guarantee to request.
    pub qos: Qos,
    /// Whether the broker should retain the message.
    pub retain: bool,
}

/// The status message for the prefix's status topic: retained, at the
/// highest guarantee, `"online"` or `"offline"`.
pub open spec fn is_status_publish(p: PublishRequest, prefix: Seq<u8>, online: bool) -> bool {
    &&& p.topic@ == spec_full_topic(prefix, lit_status())
    &&& p.payload@ == if online {
        lit_online()
    } else {
        lit_offline()
    }
    &&& p.qos == Qos::ExactlyOnce
    &&& p.retain == true
}

/// The publish for one input-channel transition: `{prefix}/input/{channel}`
/// carrying the boolean's canonical text, at least once, not retained.
pub open spec fn is_input_publish(p: PublishRequest, prefix: Seq<u8>, event: KBusEvent) -> bool {
    &&& p.topic@ == spec_full_topic(prefix, spec_input_rel(event.channel))
    &&& p.payload@ == spec_bool_text(event.value)
    &&& p.qos == Qos::AtLeastOnce
    &&& p.retain == false
}

/// The coarse states of the session.
#[derive(Debug, Clone, Copy, PartialEq, Eq, Structural)]
pub enum SessionPhase {
    /// Trying to bring a connection up.
    Connecting,
    /// Connected, subscribed and announced; the sub-loops are running.
    Active,
    /// The connection was lost; waiting out the reconnect delay.
    Backoff,
    /// Terminal: cancelled, or stopped by a fatal error.
    Stopped,
}

/// What the session decided about one inbound message.
#[derive(Debug, Clone, Copy, PartialEq, Eq, Structural)]
pub enum InboundOutcome {
    /// The message decoded into an output command: forward this event to
    /// the poller.
    Forward(KBusEvent),
    /// The topic addressed an output channel but the channel number or
    /// the payload failed to decode: counted, never fatal.
    Rejected,
    /// The topic did not address an output channel at all: ignored.
    Ignored,
}

/// One heartbeat publish: its topic, delivery guarantee, retain flag and
/// the counter snapshot its payload reports.
#[derive(Debug, Clone)]
pub struct HeartbeatDue {
    /// The full heartbeat topic.
    pub topic: Vec<u8>,
    /// The delivery guarantee to request.
    pub qos: Qos,
    /// Whether the broker should retain the message.
    pub retain: bool,
    /// The counters the payload reports.
    pub stats: HeartbeatStats,
}

/// The pub/sub session: its phase, the fixed topic prefix, the heartbeat
/// interval (zero disables the heartbeat) and the message counters.  The
/// state is private: it moves only through the transitions below, so the
/// phase discipline and the counters' monotonicity cannot be bypassed.
pub struct Session {
    phase: SessionPhase,
    prefix: Vec<u8>,
    heartbeat_interval_ms: u64,
    stats: ConnectionStats,
    failed: bool,
}

/// The parts of a session fixed for its lifetime: the topic prefix and
/// the heartbeat interval.
pub open spec fn spec_same_identity(pre: Session, post: Session) -> bool {
    &&& post.spec_prefix() == pre.spec_prefix()
    &&& post.spec_heartbeat_interval_ms() == pre.spec_heartbeat_interval_ms()
}

impl Session {
    /// The current coarse state.
    pub closed spec fn spec_phase(&self) -> SessionPhase {
        self.phase
    }

    /// The device's topic prefix, fixed for the session's lifetime.
    pub closed spec fn spec_prefix(&self) -> Seq<u8> {
        self.prefix@
    }

    /// Milliseconds between heartbeats; zero means no heartbeat is ever
    /// published.
    pub closed spec fn spec_heartbeat_interval_ms(&self) -> u64 {
        self.heartbeat_interval_ms
    }

    /// The session's message counters.
    pub closed spec fn spec_stats(&self) -> ConnectionStats {
        self.stats
    }

    /// Whether the session stopped because of a fatal error rather than
    /// cancellation.
    pub closed spec fn spec_failed(&self) -> bool {
        self.failed
    }

    /// Reads the current coarse state.
    pub fn phase(&self) -> (p: SessionPhase)
        ensures
            p == self.spec_phase(),
    {
        self.phase
    }

    /// Reads the message counters.
    pub fn stats(&self) -> (s: ConnectionStats)
        ensures
            s == self.spec_stats(),
    {
        self.stats
    }

    /// True once the session stopped because of a fatal error rather
    /// than cancellation.
    pub fn has_failed(&self) -> (b: bool)
        ensures
            b == self.spec_failed(),
    {
        self.failed
    }

    /// A fresh session: connecting, zero counters, no failure.
    pub fn new(prefix: Vec<u8>, heartbeat_interval_ms: u64) -> (s: Session)
        ensures
            s.spec_phase() == SessionPhase::Connecting,
            s.spec_prefix() == prefix@,
            s.spec_heartbeat_interval_ms() == heartbeat_interval_ms,
            s.spec_stats() == (ConnectionStats {
                sent: 0,
                received: 0,
                processed: 0,
                rejected: 0,
            }),
            s.spec_failed() == false,
    {
        Session {
            phase: SessionPhase::Connecting,
            prefix,
            heartbeat_interval_ms,
            stats: ConnectionStats::new(),
            failed: false,
        }
    }

    /// The last-will message the unverified loop registers before it
    /// connects: the broker publishes `"offline"` on the status topic,
    /// retained, if the session disappears without a goodbye.
    pub fn last_will(&self) -> (p: PublishRequest)
        ensures
            is_status_publish(p, self.spec_prefix(), false),
    {
        offline_publish(&self.prefix)
    }

    /// The connection is up: subscribe to the output-command filter at the
    /// highest guarantee, then announce `"online"` on the status topic.
    /// The session becomes active.
    pub fn on_connected(&mut self) -> (r: (Vec<u8>, Qos, PublishRequest))
        requires
            old(self).spec_phase() == SessionPhase::Connecting,
        ensures
            final(self).spec_phase() == SessionPhase::Active,
            spec_same_identity(*old(self), *final(self)),
            final(self).spec_stats() == old(self).spec_stats(),
            final(self).spec_failed() == old(self).spec_failed(),
            r.0@ == old(self).spec_prefix() + seq!['/' as u8] + lit_output_filter(),
            r.1 == Qos::ExactlyOnce,
            is_status_publish(r.2, old(self).spec_prefix(), true),
    {
        let mut filter: Vec<u8> = Vec::new();
        append_vec(&mut filter, &self.prefix);
        filter.push('/' as u8);
        let rel = output_filter_rel();
        append_vec(&mut filter, &rel);
        proof {
            assert(filter@ =~= self.prefix@ + seq!['/' as u8] + lit_output_filter());
        }
        let online = online_publish(&self.prefix);
        self.phase = SessionPhase::Active;
        (filter, Qos::ExactlyOnce, online)
    }

    /// Decodes one inbound message while active.  The received counter
    /// always moves.  A message on an output-command topic either decodes
    /// into a command — the processed counter moves and the command is
    /// forwarded — or fails on its channel number or its payload, which
    /// moves the rejected counter.  A topic of any other shape is
    /// ignored.  None of this ever stops the session.
    pub fn on_inbound(&mut self, topic: &[u8], payload: &[u8]) -> (r: InboundOutcome)
        requires
            old(self).spec_phase() == SessionPhase::Active,
        ensures
            final(self).spec_phase() == old(self).spec_phase(),
            spec_same_identity(*old(self), *final(self)),
            final(self).spec_failed() == old(self).spec_failed(),
            final(self).spec_stats().received == spec_inc(old(self).spec_stats().received),
            final(self).spec_stats().sent == old(self).spec_stats().sent,
            if !spec_is_output_topic(old(self).spec_prefix(), topic@) {
                &&& r == InboundOutcome::Ignored
                &&& final(self).spec_stats().processed == old(self).spec_stats().processed
                &&& final(self).spec_stats().rejected == old(self).spec_stats().rejected
            } else {
                match spec_decode_topic(old(self).spec_prefix(), topic@) {
                    Some(channel) => match spec_decode_value(payload@) {
                        Some(value) => {
                            &&& r == InboundOutcome::Forward(KBusEvent { channel, value })
                            &&& final(self).spec_stats().processed == spec_inc(
                                old(self).spec_stats().processed,
                            )
                            &&& final(self).spec_stats().rejected == old(
                                self,
                            ).spec_stats().rejected
                        },
                        None => {
                            &&& r == InboundOutcome::Rejected
                            &&& final(self).spec_stats().rejected == spec_inc(
                                old(self).spec_stats().rejected,
                            )
                            &&& final(self).spec_stats().processed == old(
                                self,
                            ).spec_stats().processed
                        },
                    },
                    None => {
                        &&& r == InboundOutcome::Rejected
                        &&& final(self).spec_stats().rejected == spec_inc(
                            old(self).spec_stats().rejected,
                        )
                        &&& final(self).spec_stats().processed == old(
                            self,
                        ).spec_stats().processed
                    },
                }
            },
    {
        self.stats.record_received();
        if !is_output_topic(self.prefix.as_slice(), topic) {
            return InboundOutcome::Ignored;
        }
        match decode_topic(self.prefix.as_slice(), topic) {
            Some(channel) => match decode_value(payload) {
                Some(value) => {
                    self.stats.record_processed();
                    InboundOutcome::Forward(KBusEvent { channel, value })
                },
                None => {
                    self.stats.record_rejected();
                    InboundOutcome::Rejected
                },
            },
            None => {
                self.stats.record_rejected();
                InboundOutcome::Rejected
            },
        }
    }

    /// The publish for one event taken from the input event channel.  The
    /// sent counter moves only once the publish succeeds, through
    /// [`Session::record_publish_ok`].
    pub fn on_input_event(&self, event: &KBusEvent) -> (p: PublishRequest)
        requires
            self.spec_phase() == SessionPhase::Active,
        ensures
            is_input_publish(p, self.spec_prefix(), *event),
    {
        let rel = input_rel(event.channel);
        let topic = full_topic(self.prefix.as_slice(), rel.as_slice());
        let payload = bool_text(event.value);
        PublishRequest { topic, payload, qos: Qos::AtLeastOnce, retain: false }
    }

    /// Counts one successfully delivered publish.
    pub fn record_publish_ok(&mut self)
        ensures
            final(self).spec_phase() == old(self).spec_phase(),
            spec_same_identity(*old(self), *final(self)),
            final(self).spec_failed() == old(self).spec_failed(),
            final(self).spec_stats() == (ConnectionStats {
                sent: spec_inc(old(self).spec_stats().sent),
                ..old(self).spec_stats()
            }),
    {
        self.stats.record_sent();
    }

    /// Whether this session publishes heartbeats at all.
    pub fn heartbeat_enabled(&self) -> (r: bool)
        ensures
            r == (self.spec_heartbeat_interval_ms() != 0),
    {
        self.heartbeat_interval_ms != 0
    }

    /// A heartbeat fell due.  With a zero interval no heartbeat is ever
    /// published; otherwise the heartbeat topic is published at least
    /// once, not retained, with the counters as they stand now.  The
    /// unverified loop renders the payload around the returned counters,
    /// since it also samples the clock and the host's utilization.
    pub fn on_heartbeat_due(&self) -> (r: Option<HeartbeatDue>)
        requires
            self.spec_phase() == SessionPhase::Active,
        ensures
            self.spec_heartbeat_interval_ms() == 0 ==> r is None,
            self.spec_heartbeat_interval_ms() != 0 ==> match r {
                Some(hb) => {
                    &&& hb.topic@ == spec_full_topic(self.spec_prefix(), lit_heartbeat())
                    &&& hb.qos == Qos::AtLeastOnce
                    &&& hb.retain == false
                    &&& hb.stats == self.spec_stats().spec_snapshot()
                },
                None => false,
            },
    {
        if self.heartbeat_interval_ms == 0 {
            return None;
        }
        let rel = heartbeat_rel();
        let topic = full_topic(self.prefix.as_slice(), rel.as_slice());
        let stats = self.stats.snapshot();
        Some(HeartbeatDue { topic, qos: Qos::AtLeastOnce, retain: false, stats })
    }

    /// The connection dropped, or could not be brought up.  While active,
    /// a best-effort `"offline"` is attempted first; either way the
    /// session waits out the reconnect delay.  A connection fault never
    /// stops the session.
    pub fn on_connection_lost(&mut self) -> (r: (Option<PublishRequest>, u64))
        requires
            old(self).spec_phase() == SessionPhase::Connecting || old(self).spec_phase()
                == SessionPhase::Active,
        ensures
            final(self).spec_phase() == SessionPhase::Backoff,
            spec_same_identity(*old(self), *final(self)),
            final(self).spec_stats() == old(self).spec_stats(),
            final(self).spec_failed() == old(self).spec_failed(),
            r.1 == RECONNECT_DELAY_MS,
            old(self).spec_phase() == SessionPhase::Active ==> match r.0 {
                Some(p) => is_status_publish(p, old(self).spec_prefix(), false),
                None => false,
            },
            old(self).spec_phase() == SessionPhase::Connecting ==> r.0 is None,
    {
        let farewell = if matches!(self.phase, SessionPhase::Active) {
            Some(offline_publish(&self.prefix))
        } else {
            None
        };
        self.phase = SessionPhase::Backoff;
        (farewell, RECONNECT_DELAY_MS)
    }

    /// The reconnect delay elapsed: try to connect again.
    pub fn on_backoff_elapsed(&mut self)
        requires
            old(self).spec_phase() == SessionPhase::Backoff,
        ensures
            final(self).spec_phase() == SessionPhase::Connecting,
            spec_same_identity(*old(self), *final(self)),
            final(self).spec_stats() == old(self).spec_stats(),
            final(self).spec_failed() == old(self).spec_failed(),
    {
        self.phase = SessionPhase::Connecting;
    }

    /// The input event channel closed: the poller is gone, which is fatal
    /// to the session.  A best-effort `"offline"` is attempted, the
    /// session stops and reports failure.
    pub fn on_input_closed(&mut self) -> (r: Option<PublishRequest>)
        requires
            old(self).spec_phase() == SessionPhase::Active,
        ensures
            final(self).spec_phase() == SessionPhase::Stopped,
            final(self).spec_failed() == true,
            spec_same_identity(*old(self), *final(self)),
            final(self).spec_stats() == old(self).spec_stats(),
            match r {
                Some(p) => is_status_publish(p, old(self).spec_prefix(), false),
                None => false,
            },
    {
        let farewell = offline_publish(&self.prefix);
        self.phase = SessionPhase::Stopped;
        self.failed = true;
        Some(farewell)
    }

    /// Cancellation: the session stops cleanly, without an error of its
    /// own.  If it was active, a best-effort `"offline"` goodbye is
    /// attempted first.
    pub fn on_cancel(&mut self) -> (r: Option<PublishRequest>)
        ensures
            final(self).spec_phase() == SessionPhase::Stopped,
            final(self).spec_failed() == old(self).spec_failed(),
            spec_same_identity(*old(self), *final(self)),
            final(self).spec_stats() == old(self).spec_stats(),
            old(self).spec_phase() == SessionPhase::Active ==> match r {
                Some(p) => is_status_publish(p, old(self).spec_prefix(), false),
                None => false,
            },
            old(self).spec_phase() != SessionPhase::Active ==> r is None,
    {
        let farewell = if matches!(self.phase, SessionPhase::Active) {
            Some(offline_publish(&self.prefix))
        } else {
            None
        };
        self.phase = SessionPhase::Stopped;
        farewell
    }
}

/// The retained `"online"` status announcement.
fn online_publish(prefix: &Vec<u8>) -> (p: PublishRequest)
    ensures
        is_status_publish(p, prefix@, true),
{
    let topic = status_topic(prefix);
    let mut payload: Vec<u8> = Vec::new();
    payload.push('o' as u8);
    payload.push('n' as u8);
    payload.push('l' as u8);
    payload.push('i' as u8);
    payload.push('n' as u8);
    payload.push('e' as u8);
    proof {
        assert(payload@ =~= lit_online());
    }
    PublishRequest { topic, payload, qos: Qos::ExactlyOnce, retain: true }
}

/// The retained `"offline"` status message, also used as the last will.
fn offline_publish(prefix: &Vec<u8>) -> (p: PublishRequest)
    ensures
        is_status_publish(p, prefix@, false),
{
    let topic = status_topic(prefix);
    let mut payload: Vec<u8> = Vec::new();
    payload.push('o' as u8);
    payload.push('f' as u8);
    payload.push('f' as u8);
    payload.push('l' as u8);
    payload.push('i' as u8);
    payload.push('n' as u8);
    payload.push('e' as u8);
    proof {
        assert(payload@ =~= lit_offline());
    }
    PublishRequest { topic, payload, qos: Qos::ExactlyOnce, retain: true }
}

/// The full status topic for this prefix.
fn status_topic(prefix: &Vec<u8>) -> (t: Vec<u8>)
    ensures
        t@ == spec_full_topic(prefix@, lit_status()),
{
    let rel = status_rel();
    full_topic(prefix.as_slice(), rel.as_slice())
}

/// Copies every byte of `extra` onto the end of `out`.
fn append_vec(out: &mut Vec<u8>, extra: &Vec<u8>)
    ensures
        final(out)@ == old(out)@ + extra@,
{
    for i in 0..extra.len()
        invariant
            out@ == old(out)@ + extra@.take(i as int),
    {
        out.push(extra[i]);
        proof {
            assert(out@ =~= old(out)@ + extra@.take(i + 1));
        }
    }
    proof {
        assert(extra@.take(extra@.len() as int) =~= extra@);
    }
}

} // verus!
