use ruuvitag_additions::{ParseErrorKind, RuuviMessage};

const SAMPLE: &str = "{\"name\": \"Ruuvi 346C\", \"id\": \"D4:D8:D8:CB:34:6C\", \"rssi\": -84, \
     \"brand\": \"Ruuvi\", \"model\": \"RuuviTag\", \"model_id\": \"RuuviTag_RAWv2\", \
     \"type\": \"ACEL\", \"tempc\": -19.575, \"hum\": 60.7725, \"pres\": 1010.48, \
     \"mac\": \"D4:D8:D8:CB:34:6C\"}";

#[test]
fn parse_accepts_a_full_reading() {
    let reading = RuuviMessage::parse("+/+/BTtoMQTT/D4D8D8CB346C", SAMPLE.as_bytes()).unwrap();
    assert_eq!(reading.topic, "+/+/BTtoMQTT/D4D8D8CB346C");
    assert_eq!(reading.name, "Ruuvi 346C");
    assert_eq!(reading.device_id, "D4:D8:D8:CB:34:6C");
    assert_eq!(reading.brand, "Ruuvi");
    assert_eq!(reading.model, "RuuviTag");
    assert_eq!(reading.model_id, "RuuviTag_RAWv2");
    assert_eq!(reading.reading_type, "ACEL");
    assert_eq!(reading.temperature_celsius_text, "-19.575");
    assert_eq!(reading.relative_humidity_percent_text, "60.7725");
    assert_eq!(reading.pressure_millibar_text, "1010.48");
}

#[test]
fn parse_keeps_exactly_the_uninterpreted_fields() {
    let reading = RuuviMessage::parse("t", SAMPLE.as_bytes()).unwrap();
    // The decoder's map is ordered by key: "mac" before "rssi". The nine
    // interpreted members must not appear here.
    assert_eq!(reading.other_data.len(), 2);
    assert_eq!(reading.other_data[0].0, "mac");
    assert_eq!(
        reading.other_data[0].1.as_str().unwrap(),
        "D4:D8:D8:CB:34:6C"
    );
    assert_eq!(reading.other_data[1].0, "rssi");
    assert_eq!(reading.other_data[1].1.as_i64().unwrap(), -84);
}

#[test]
fn parse_sets_topic_from_transport_not_payload() {
    let payload = "{\"name\": \"n\", \"topic\": \"forged\", \"id\": \"AA:BB\", \"brand\": \"b\", \
         \"model\": \"m\", \"model_id\": \"mi\", \"type\": \"t\", \"tempc\": 1, \"hum\": 2, \
         \"pres\": 3}";
    let reading = RuuviMessage::parse("real/topic", payload.as_bytes()).unwrap();
    assert_eq!(reading.topic, "real/topic");
}

#[test]
fn parse_rejects_payload_missing_id() {
    let payload = "{\"name\": \"Ruuvi 346C\", \"brand\": \"Ruuvi\", \"model\": \"RuuviTag\", \
         \"model_id\": \"RuuviTag_RAWv2\", \"type\": \"ACEL\", \"tempc\": -19.575, \
         \"hum\": 60.7725, \"pres\": 1010.48}";
    let error = RuuviMessage::parse("t", payload.as_bytes()).unwrap_err();
    assert_eq!(error.kind, ParseErrorKind::MissingField);
    assert_eq!(error.field, "id");
    assert_eq!(error.payload, payload.as_bytes());
}

#[test]
fn parse_rejects_invalid_json() {
    let payload = b"not json at all";
    let error = RuuviMessage::parse("t", payload).unwrap_err();
    assert_eq!(error.kind, ParseErrorKind::InvalidJson);
    assert!(!error.detail.is_empty());
    assert_eq!(error.payload, payload);
}

#[test]
fn parse_rejects_non_object_payload() {
    let error = RuuviMessage::parse("t", b"[1, 2, 3]").unwrap_err();
    assert_eq!(error.kind, ParseErrorKind::NotAnObject);
}

#[test]
fn parse_rejects_wrongly_typed_member() {
    let payload = "{\"name\": \"n\", \"id\": \"AA:BB\", \"brand\": \"b\", \"model\": \"m\", \
         \"model_id\": \"mi\", \"type\": \"t\", \"tempc\": \"warm\", \"hum\": 2, \"pres\": 3}";
    let error = RuuviMessage::parse("t", payload.as_bytes()).unwrap_err();
    assert_eq!(error.kind, ParseErrorKind::WrongType);
    assert_eq!(error.field, "tempc");
}

#[test]
fn parse_rejects_empty_device_id() {
    let payload = "{\"name\": \"n\", \"id\": \"\", \"brand\": \"b\", \"model\": \"m\", \
         \"model_id\": \"mi\", \"type\": \"t\", \"tempc\": 1, \"hum\": 2, \"pres\": 3}";
    let error = RuuviMessage::parse("t", payload.as_bytes()).unwrap_err();
    assert_eq!(error.kind, ParseErrorKind::EmptyDeviceId);
    assert_eq!(error.field, "id");
}

#[test]
fn display_string_summarises_the_reading() {
    let reading = RuuviMessage::parse("top", SAMPLE.as_bytes()).unwrap();
    assert_eq!(
        reading.display_string(),
        "top: Ruuvi 346C (RuuviTag_RAWv2; ACEL) T=-19.575\u{00B0}C Rh=60.7725% p=1010.48mbar"
    );
}
