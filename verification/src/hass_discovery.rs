//! Home Assistant auto-discovery announcements.
//!
//! For every newly seen device the bridge publishes one retained
//! configuration message per derived quantity — currently exactly one, the
//! dew point, announced under the `absolute_humidity` device class (a
//! deliberate mapping to a class the consumer recognizes, not a physically
//! accurate name) with degrees Celsius as its unit.

use vstd::prelude::*;
use vstd::string::StrSliceExecFns;
use vstd::string::StringExecFns;

use crate::config::Config;
use crate::json::{json_quote, json_quoted_spec};
use crate::message::OutboundMessage;
use crate::ruuvi::{enriched_topic_of_stripped, RuuviMessage};
use crate::text::{strip_colons, strip_colons_spec, tail_chars, tail_chars_spec};

verus! {

/// The mathematical content of a [`HassDiscoveryMessages`] builder.
pub struct HassDiscoveryMessagesView {
    pub device_id: Seq<char>,
    pub topic_prefix: Seq<char>,
    pub model_id: Seq<char>,
}

/// Builder for the discovery announcements of one device.
pub struct HassDiscoveryMessages {
    /// The device identifier with its colons removed.
    device_id: String,
    /// The announcement topic up to the quantity name.
    topic_prefix: String,
    model_id: String,
}

impl View for HassDiscoveryMessages {
    type V = HassDiscoveryMessagesView;

    closed spec fn view(&self) -> HassDiscoveryMessagesView {
        HassDiscoveryMessagesView {
            device_id: self.device_id@,
            topic_prefix: self.topic_prefix@,
            model_id: self.model_id@,
        }
    }
}

/// The topic one announcement is published on:
/// `{prefix}/sensor/{device_id_no_colons}-{quantity}/config`, with the
/// dew point as the quantity.
pub open spec fn discovery_topic_spec(prefix: Seq<char>, device_id_no_colons: Seq<char>) -> Seq<
    char,
> {
    prefix + "/sensor/"@ + device_id_no_colons + "-"@ + "dewpoint/config"@
}

/// The identifier the discovery consumer deduplicates on:
/// `{device_id_no_colons}-{quantity}`, unique per (device, quantity) pair.
pub open spec fn discovery_uniq_id_spec(device_id_no_colons: Seq<char>) -> Seq<char> {
    device_id_no_colons + "-dewpoint"@
}

/// The display name of the announced device: `RuuviTag-` followed by the
/// last six characters of the colon-free identifier.
pub open spec fn discovery_device_name_spec(device_id_no_colons: Seq<char>) -> Seq<char> {
    "RuuviTag-"@ + tail_chars_spec(device_id_no_colons, 6)
}

/// The payload of one announcement: a JSON object with the keys `stat_t`,
/// `dev_cla`, `unit_of_meas`, `state_class`, `name`, `uniq_id`, `val_tpl`
/// and the `device` block, in that order.
pub open spec fn discovery_payload_spec(
    device_id_no_colons: Seq<char>,
    model_id: Seq<char>,
) -> Seq<char> {
    "{\"stat_t\":"@ + json_quoted_spec(enriched_topic_of_stripped(device_id_no_colons))
        + ",\"dev_cla\":\"absolute_humidity\",\"unit_of_meas\":\"\u{00B0}C\",\"state_class\":\"measurement\",\"name\":"@
        + json_quoted_spec(model_id + "-dewpoint"@) + ",\"uniq_id\":"@ + json_quoted_spec(
        discovery_uniq_id_spec(device_id_no_colons),
    ) + ",\"val_tpl\":\"{{ value_json.dewpoint | is_defined }}\",\"device\":{\"ids\":["@
        + json_quoted_spec(device_id_no_colons) + "],\"cns\":[[\"mac\","@ + json_quoted_spec(
        device_id_no_colons,
    ) + "]],\"mf\":\"Ruuvi\",\"mdl\":"@ + json_quoted_spec(model_id) + ",\"name\":"@
        + json_quoted_spec(discovery_device_name_spec(device_id_no_colons))
        + ",\"via_device\":\"RuuviTag Additions\"}}"@
}

impl HassDiscoveryMessages {
    /// Prepares the announcement builder for the device a reading came
    /// from: the identifier loses its colons, and the topic prefix is laid
    /// down up to the quantity name.
    pub fn new(config: &Config, ruuvi_message: &RuuviMessage) -> (r: HassDiscoveryMessages)
        ensures
            r@.device_id == strip_colons_spec(ruuvi_message.device_id@),
            r@.topic_prefix == config@.hass_discovery_topic + "/sensor/"@ + strip_colons_spec(
                ruuvi_message.device_id@,
            ) + "-"@,
            r@.model_id == ruuvi_message.model_id@,
    {
        let device_id = strip_colons(ruuvi_message.device_id.as_str());
        let mut topic_prefix = config.hass_discovery_topic().to_owned();
        topic_prefix.append("/sensor/");
        topic_prefix.append(device_id.as_str());
        topic_prefix.append("-");
        HassDiscoveryMessages {
            device_id,
            topic_prefix,
            model_id: ruuvi_message.model_id.clone(),
        }
    }

    /// The announcements for this device, one per derived quantity —
    /// currently exactly one, for the dew point.
    pub fn iter_messages(&self) -> (r: Vec<OutboundMessage>)
        ensures
            r@.len() == 1,
            r@[0].topic@ == self@.topic_prefix + "dewpoint/config"@,
            r@[0].payload@ == discovery_payload_spec(self@.device_id, self@.model_id),
    {
        let mut topic = self.topic_prefix.clone();
        topic.append("dewpoint/config");

        let mut stat_t_value = String::from_str("home/Radd/RuuviTagAdditions/");
        stat_t_value.append(self.device_id.as_str());

        let mut name_value = self.model_id.clone();
        name_value.append("-dewpoint");

        let mut uniq_id_value = self.device_id.clone();
        uniq_id_value.append("-dewpoint");

        let mut device_name_value = String::from_str("RuuviTag-");
        let tail = tail_chars(self.device_id.as_str(), 6);
        device_name_value.append(tail.as_str());

        let mut p = String::from_str("{\"stat_t\":");
        let q_stat_t = json_quote(stat_t_value.as_str());
        p.append(q_stat_t.as_str());
        p.append(
            ",\"dev_cla\":\"absolute_humidity\",\"unit_of_meas\":\"\u{00B0}C\",\"state_class\":\"measurement\",\"name\":",
        );
        let q_name = json_quote(name_value.as_str());
        p.append(q_name.as_str());
        p.append(",\"uniq_id\":");
        let q_uniq_id = json_quote(uniq_id_value.as_str());
        p.append(q_uniq_id.as_str());
        p.append(",\"val_tpl\":\"{{ value_json.dewpoint | is_defined }}\",\"device\":{\"ids\":[");
        let q_device_id = json_quote(self.device_id.as_str());
        p.append(q_device_id.as_str());
        p.append("],\"cns\":[[\"mac\",");
        p.append(q_device_id.as_str());
        p.append("]],\"mf\":\"Ruuvi\",\"mdl\":");
        let q_model_id = json_quote(self.model_id.as_str());
        p.append(q_model_id.as_str());
        p.append(",\"name\":");
        let q_device_name = json_quote(device_name_value.as_str());
        p.append(q_device_name.as_str());
        p.append(",\"via_device\":\"RuuviTag Additions\"}}");
        proof {
            assert(p@ =~= discovery_payload_spec(self@.device_id, self@.model_id));
        }

        let mut out: Vec<OutboundMessage> = Vec::new();
        out.push(OutboundMessage { topic, payload: p });
        out
    }
}

/// Law (idempotent discovery): the announcement topic, unique id and
/// payload depend on the discovery prefix, the device identifier and the
/// model identifier alone, so building the announcements twice for the
/// same `(device_id, model_id)` pair yields identical text both times.
pub proof fn lemma_discovery_idempotent(prefix: Seq<char>, m1: RuuviMessage, m2: RuuviMessage)
    requires
        m1.device_id@ == m2.device_id@,
        m1.model_id@ == m2.model_id@,
    ensures
        discovery_topic_spec(prefix, strip_colons_spec(m1.device_id@)) == discovery_topic_spec(
            prefix,
            strip_colons_spec(m2.device_id@),
        ),
        discovery_uniq_id_spec(strip_colons_spec(m1.device_id@)) == discovery_uniq_id_spec(
            strip_colons_spec(m2.device_id@),
        ),
        discovery_payload_spec(strip_colons_spec(m1.device_id@), m1.model_id@)
            == discovery_payload_spec(strip_colons_spec(m2.device_id@), m2.model_id@),
{
}

} // verus!
