//! The consume loop's state machine.
//!
//! The surrounding program owns the transport: it polls the bus with a
//! bounded wait and hands each outcome in as a [`PollEvent`], together
//! with the current value of the shutdown flag. This module makes every
//! decision: when to stop and why, which messages to discard, which
//! device is new, and which announcements to publish before the enriched
//! reading. The caller performs what the returned [`Step`] says.
//!
//! Per iteration the order is: parse, then — only for a device not seen
//! before — the discovery announcements, then the enriched reading. Since
//! the loop is single-threaded, a device's announcements always precede
//! its first enriched reading in program order.

use vstd::prelude::*;

use crate::config::{Config, ConfigView};
use crate::hass_discovery::{
    discovery_payload_spec, discovery_topic_spec, HassDiscoveryMessages,
};
use crate::message::OutboundMessage;
use crate::registry::DeviceRegistry;
use crate::ruuvi::{is_reading_of, reading_accepted, ParseError, RuuviMessage};
use crate::text::strip_colons_spec;

verus! {

/// What one bounded poll of the transport yielded.
pub enum PollEvent {
    /// A message arrived: the topic it came in on and its raw payload.
    Message { topic: String, payload: Vec<u8> },
    /// The bounded wait elapsed without a message.
    Timeout,
    /// The transport signalled a disconnect or closed the channel.
    Disconnected,
}

/// Why the loop is over.
pub enum StopReason {
    /// The shutdown flag was set; the caller returns success.
    Graceful,
    /// The transport disconnected; unrecoverable at this layer.
    TransportFatal,
}

/// What the caller must do after one event.
pub enum Step {
    /// Leave the loop for the given reason.
    Stop { reason: StopReason },
    /// Nothing to publish: the wait timed out (`error` is `None`) or the
    /// message was malformed (`error` carries the rejection, to be logged
    /// and forgotten — per-message failures never stop the loop).
    Skip { error: Option<ParseError> },
    /// A reading was accepted. The caller publishes every discovery
    /// announcement first — a failure there is fatal — and then derives
    /// and publishes the enriched reading, best-effort. `discovery` is
    /// empty when the device was announced before.
    Process { discovery: Vec<OutboundMessage>, reading: RuuviMessage },
}

/// The mathematical content of an [`Orchestrator`]: its settings and the
/// set of device identifiers announced so far.
pub struct OrchestratorView {
    pub config: ConfigView,
    pub seen: Set<Seq<char>>,
}

/// The enrichment orchestrator: owns the device registry and the
/// per-event decisions of the consume loop.
pub struct Orchestrator {
    config: Config,
    known_devices: DeviceRegistry,
}

impl View for Orchestrator {
    type V = OrchestratorView;

    closed spec fn view(&self) -> OrchestratorView {
        OrchestratorView { config: self.config@, seen: self.known_devices@ }
    }
}

impl Orchestrator {
    /// A fresh orchestrator: no device has been announced yet.
    pub fn new(config: Config) -> (r: Orchestrator)
        ensures
            r@.config == config@,
            r@.seen == Set::<Seq<char>>::empty(),
    {
        Orchestrator { config, known_devices: DeviceRegistry::new() }
    }

    /// The settings the orchestrator runs with.
    pub fn config(&self) -> (r: &Config)
        ensures
            r@ == self@.config,
    {
        &self.config
    }

    /// Decides one loop iteration.
    ///
    /// The shutdown flag wins over everything: once it is set the step is
    /// a graceful stop and no further message is processed. A disconnect
    /// stops the loop fatally. A malformed message is skipped. An accepted
    /// reading is handed back for publication, preceded by the discovery
    /// announcements exactly when its device had not been seen before;
    /// the device is recorded as seen either way.
    pub fn handle_event(&mut self, shutdown: bool, event: PollEvent) -> (r: Step)
        ensures
            final(self)@.config == old(self)@.config,
            shutdown ==> (r matches Step::Stop { reason } && reason == StopReason::Graceful)
                && final(self)@.seen == old(self)@.seen,
            !shutdown && event is Timeout ==> (r matches Step::Skip { error } && error is None)
                && final(self)@.seen == old(self)@.seen,
            !shutdown && event is Disconnected ==> (r matches Step::Stop { reason } && reason
                == StopReason::TransportFatal) && final(self)@.seen == old(self)@.seen,
            !shutdown ==> (event matches PollEvent::Message { topic, payload } ==> {
                &&& !(r is Stop)
                &&& (r is Process <==> reading_accepted(payload@))
                &&& (r matches Step::Skip { error } ==> error is Some && final(self)@.seen
                    == old(self)@.seen)
                &&& (r matches Step::Process { discovery, reading } ==> {
                    &&& is_reading_of(topic@, payload@, reading)
                    &&& final(self)@.seen == old(self)@.seen.insert(reading.device_id@)
                    &&& (old(self)@.seen.contains(reading.device_id@) ==> discovery@.len() == 0)
                    &&& (!old(self)@.seen.contains(reading.device_id@) ==> discovery@.len() == 1
                        && discovery@[0].topic@ == discovery_topic_spec(
                        old(self)@.config.hass_discovery_topic,
                        strip_colons_spec(reading.device_id@),
                    ) && discovery@[0].payload@ == discovery_payload_spec(
                        strip_colons_spec(reading.device_id@),
                        reading.model_id@,
                    ))
                })
            }),
    {
        if shutdown {
            return Step::Stop { reason: StopReason::Graceful };
        }
        match event {
            PollEvent::Timeout => Step::Skip { error: None },
            PollEvent::Disconnected => Step::Stop { reason: StopReason::TransportFatal },
            PollEvent::Message { topic, payload } => {
                let reading = match RuuviMessage::parse(topic.as_str(), payload.as_slice()) {
                    Ok(reading) => reading,
                    Err(error) => {
                        return Step::Skip { error: Some(error) };
                    },
                };
                let announce = !self.known_devices.is_known(&reading.device_id);
                self.known_devices.record(reading.device_id.clone());
                let discovery: Vec<OutboundMessage> = if announce {
                    let builder = HassDiscoveryMessages::new(&self.config, &reading);
                    let messages = builder.iter_messages();
                    proof {
                        assert(messages@[0].topic@ =~= discovery_topic_spec(
                            self@.config.hass_discovery_topic,
                            strip_colons_spec(reading.device_id@),
                        ));
                    }
                    messages
                } else {
                    Vec::new()
                };
                Step::Process { discovery, reading }
            },
        }
    }
}

/// The set of device identifiers occurring in `ids`, built up in order.
pub open spec fn seen_after(ids: Seq<Seq<char>>) -> Set<Seq<char>>
    decreases ids.len(),
{
    if ids.len() == 0 {
        Set::empty()
    } else {
        seen_after(ids.drop_last()).insert(ids.last())
    }
}

/// `seen_after` holds exactly the identifiers that occur.
pub proof fn lemma_seen_after_contains(ids: Seq<Seq<char>>, x: Seq<char>)
    ensures
        seen_after(ids).contains(x) <==> ids.contains(x),
    decreases ids.len(),
{
    if ids.len() > 0 {
        lemma_seen_after_contains(ids.drop_last(), x);
        if ids.contains(x) {
            let k = choose|k: int| 0 <= k < ids.len() && ids[k] == x;
            if k < ids.len() - 1 {
                assert(ids.drop_last()[k] == x);
                assert(ids.drop_last().contains(x));
            }
        }
        if ids.drop_last().contains(x) {
            let k = choose|k: int| 0 <= k < ids.drop_last().len() && ids.drop_last()[k] == x;
            assert(ids[k] == x);
        }
    }
}

/// Law (deduplicated discovery): in any sequence of accepted readings,
/// the registry does not yet contain the `i`-th device identifier — which,
/// by `handle_event`'s contract, is exactly when the discovery
/// announcements for it are produced, and after which the identifier is
/// in the registry — precisely when no earlier reading carried the same
/// identifier. Announcements therefore go out on the first occurrence of
/// a device and never again within the process lifetime.
pub proof fn lemma_discovery_exactly_once(ids: Seq<Seq<char>>, i: int)
    requires
        0 <= i < ids.len(),
    ensures
        !seen_after(ids.take(i)).contains(ids[i]) <==> (forall|k: int|
            0 <= k < i ==> ids[k] != ids[i]),
{
    lemma_seen_after_contains(ids.take(i), ids[i]);
    if ids.take(i).contains(ids[i]) {
        let k = choose|k: int| 0 <= k < i && ids.take(i)[k] == ids[i];
        assert(ids[k] == ids[i]);
    }
    if exists|k: int| 0 <= k < i && ids[k] == ids[i] {
        let k = choose|k: int| 0 <= k < i && ids[k] == ids[i];
        assert(ids.take(i)[k] == ids[i]);
        assert(ids.take(i).contains(ids[i]));
    }
}

/// Law (no re-announcement): once a device identifier has occurred, every
/// later occurrence finds it in the seen set already — so, by
/// `handle_event`'s contract, no discovery announcements are produced for
/// it again within the process lifetime.
pub proof fn lemma_no_reannouncement(ids: Seq<Seq<char>>, i: int, j: int)
    requires
        0 <= i < j < ids.len(),
        ids[i] == ids[j],
    ensures
        seen_after(ids.take(j)).contains(ids[j]),
{
    lemma_seen_after_contains(ids.take(j), ids[j]);
    assert(ids.take(j)[i] == ids[j]);
    assert(ids.take(j).contains(ids[j]));
}

} // verus!
