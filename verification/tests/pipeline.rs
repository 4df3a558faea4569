use ruuvitag_additions::{
    extract_dewpoint_text, Config, DeviceRegistry, Orchestrator, PollEvent, RuuviMessage, Step,
    StopReason,
};

fn sample_config() -> Config {
    Config::parse_env(
        String::from("debug"),
        String::from("tcp://localhost:1883"),
        String::from("user"),
        String::from("secret"),
        String::from("+/+/BTtoMQTT/#"),
        String::from("homeassistant"),
    )
}

fn reading_payload(device_id: &str) -> Vec<u8> {
    format!(
        "{{\"name\": \"Ruuvi\", \"id\": \"{device_id}\", \"brand\": \"Ruuvi\", \
         \"model\": \"RuuviTag\", \"model_id\": \"RuuviTag_RAWv2\", \"type\": \"ACEL\", \
         \"tempc\": 20.0, \"hum\": 50.0, \"pres\": 1013.0}}"
    )
    .into_bytes()
}

fn message_event(device_id: &str) -> PollEvent {
    PollEvent::Message {
        topic: String::from("+/+/BTtoMQTT/test"),
        payload: reading_payload(device_id),
    }
}

fn sample_reading() -> RuuviMessage {
    RuuviMessage::parse("t", &reading_payload("D4:D8:D8:CB:34:6C")).unwrap()
}

#[test]
fn registry_grows_and_stays() {
    let mut registry = DeviceRegistry::new();
    let id = String::from("D4:D8:D8:CB:34:6C");
    assert!(!registry.is_known(&id));
    registry.record(id.clone());
    assert!(registry.is_known(&id));
    registry.record(id.clone());
    assert!(registry.is_known(&id));
    assert!(!registry.is_known(&String::from("other")));
}

#[test]
fn enriched_topic_is_derived_from_device_id() {
    let enriched = sample_reading().create_additional_message(String::from("9.27"));
    assert_eq!(enriched.topic, "home/Radd/RuuviTagAdditions/D4D8D8CB346C");
    let message = enriched.to_message();
    assert_eq!(message.topic, "home/Radd/RuuviTagAdditions/D4D8D8CB346C");
}

#[test]
fn enriched_payload_has_the_wire_shape() {
    let enriched = sample_reading().create_additional_message(String::from("9.27"));
    let message = enriched.to_message();
    assert_eq!(
        message.payload,
        "{\"name\":\"Ruuvi\",\"id\":\"D4:D8:D8:CB:34:6C\",\"brand\":\"Ruuvi\",\
         \"model\":\"RuuviTag\",\"model_id\":\"RuuviTag_RAWv2\",\"mac\":\"D4:D8:D8:CB:34:6C\",\
         \"type\":\"ACEL\",\"dewpoint\":9.27}"
    );
}

#[test]
fn enriched_payload_round_trips_dewpoint() {
    let dewpoint: f32 = 9.27;
    let text = format!("{dewpoint}");
    let enriched = sample_reading().create_additional_message(text.clone());
    let message = enriched.to_message();

    assert_eq!(extract_dewpoint_text(&message.payload), Some(text));

    let decoded: serde_json::Value = serde_json::from_str(&message.payload).unwrap();
    let recovered = decoded["dewpoint"].as_f64().unwrap() as f32;
    assert_eq!(recovered, dewpoint);
    assert_eq!(decoded["mac"].as_str().unwrap(), "D4:D8:D8:CB:34:6C");
}

#[test]
fn orchestrator_announces_each_device_exactly_once() {
    let mut orchestrator = Orchestrator::new(sample_config());
    let lens: Vec<usize> = [
        "AA:AA:AA:AA:AA:01",
        "AA:AA:AA:AA:AA:01",
        "AA:AA:AA:AA:AA:02",
        "AA:AA:AA:AA:AA:01",
        "AA:AA:AA:AA:AA:02",
    ]
    .iter()
    .map(|id| match orchestrator.handle_event(false, message_event(id)) {
        Step::Process { discovery, .. } => discovery.len(),
        _ => panic!("expected a processed reading"),
    })
    .collect();
    assert_eq!(lens, vec![1, 0, 1, 0, 0]);
}

#[test]
fn orchestrator_publishes_discovery_before_enriched_reading() {
    let mut orchestrator = Orchestrator::new(sample_config());
    match orchestrator.handle_event(false, message_event("D4:D8:D8:CB:34:6C")) {
        Step::Process { discovery, reading } => {
            assert_eq!(discovery.len(), 1);
            assert_eq!(
                discovery[0].topic,
                "homeassistant/sensor/D4D8D8CB346C-dewpoint/config"
            );
            assert_eq!(reading.device_id, "D4:D8:D8:CB:34:6C");
        }
        _ => panic!("expected a processed reading"),
    }
}

#[test]
fn orchestrator_skips_malformed_message_without_publishing() {
    let mut orchestrator = Orchestrator::new(sample_config());
    let event = PollEvent::Message {
        topic: String::from("t"),
        payload: b"{\"name\": \"no id here\"}".to_vec(),
    };
    match orchestrator.handle_event(false, event) {
        Step::Skip { error } => {
            assert!(error.is_some());
        }
        _ => panic!("expected the message to be skipped"),
    }
    // The rejected message must not have marked the device as seen.
    match orchestrator.handle_event(false, message_event("AA:BB")) {
        Step::Process { discovery, .. } => assert_eq!(discovery.len(), 1),
        _ => panic!("expected a processed reading"),
    }
}

#[test]
fn orchestrator_timeout_skips_quietly() {
    let mut orchestrator = Orchestrator::new(sample_config());
    assert!(matches!(
        orchestrator.handle_event(false, PollEvent::Timeout),
        Step::Skip { error: None }
    ));
}

#[test]
fn orchestrator_disconnect_is_fatal() {
    let mut orchestrator = Orchestrator::new(sample_config());
    assert!(matches!(
        orchestrator.handle_event(false, PollEvent::Disconnected),
        Step::Stop { reason: StopReason::TransportFatal }
    ));
}

#[test]
fn orchestrator_shutdown_wins_and_processes_nothing() {
    let mut orchestrator = Orchestrator::new(sample_config());
    assert!(matches!(
        orchestrator.handle_event(true, message_event("AA:BB")),
        Step::Stop { reason: StopReason::Graceful }
    ));
    // The message handed in alongside the shutdown flag was not processed:
    // its device still counts as new afterwards.
    match orchestrator.handle_event(false, message_event("AA:BB")) {
        Step::Process { discovery, .. } => assert_eq!(discovery.len(), 1),
        _ => panic!("expected a processed reading"),
    }
}
