//! Enrichment pipeline for RuuviTag sensor telemetry.
//!
//! The library parses inbound sensor payloads into typed readings, derives
//! the dew-point message topics and payloads, builds the Home Assistant
//! discovery announcements for each newly seen device, and drives the
//! consume loop's state machine.

mod config;
mod hass_discovery;
mod json;
mod json_value;
mod message;
mod orchestrator;
mod registry;
mod ruuvi;
mod text;

pub use config::{Config, ConfigView};
pub use hass_discovery::{
    discovery_device_name_spec, discovery_payload_spec, discovery_topic_spec,
    discovery_uniq_id_spec, lemma_discovery_idempotent, HassDiscoveryMessages,
    HassDiscoveryMessagesView,
};
pub use json::{
    after_last_colon, colon_free, json_escape, json_escape_char_spec, json_escape_spec,
    json_quote, json_quoted_spec,
};
pub use json_value::{
    json_accepts, json_error_text, json_has_member, json_is_object, json_member_keys,
    json_member_number_text, json_member_string,
};
pub use message::OutboundMessage;
pub use orchestrator::{
    lemma_discovery_exactly_once, lemma_no_reannouncement, lemma_seen_after_contains, seen_after,
    Orchestrator, OrchestratorView, PollEvent, Step, StopReason,
};
pub use registry::DeviceRegistry;
pub use ruuvi::{
    enriched_payload_spec, enriched_topic_of_stripped, enriched_topic_spec, entry_keys,
    extract_dewpoint_text, extract_dewpoint_text_spec, is_interpreted_key, is_reading_of,
    lemma_enriched_payload_round_trip, reading_accepted, uninterpreted_keys, ParseError,
    ParseErrorKind, RuuviAdditionalMessage, RuuviMessage,
};
pub use text::{
    strip_colons, strip_colons_spec, tail_chars, tail_chars_spec, trim_topic_wildcards,
    trim_topic_wildcards_spec,
};
