use ruuvitag_additions::{Config, HassDiscoveryMessages, RuuviMessage};

fn sample_config() -> Config {
    Config::parse_env(
        String::from("debug"),
        String::from("tcp://localhost:1883"),
        String::from("user"),
        String::from("secret"),
        String::from("+/+/BTtoMQTT/#"),
        String::from("homeassistant/#"),
    )
}

fn sample_reading() -> RuuviMessage {
    let payload = "{\"name\": \"Ruuvi 346C\", \"id\": \"D4:D8:D8:CB:34:6C\", \"brand\": \"Ruuvi\", \
         \"model\": \"RuuviTag\", \"model_id\": \"RuuviTag_RAWv2\", \"type\": \"ACEL\", \
         \"tempc\": -19.575, \"hum\": 60.7725, \"pres\": 1010.48}";
    RuuviMessage::parse("+/+/BTtoMQTT/D4D8D8CB346C", payload.as_bytes()).unwrap()
}

#[test]
fn config_trims_discovery_topic() {
    let config = sample_config();
    assert_eq!(config.hass_discovery_topic(), "homeassistant");
    assert_eq!(config.log_level(), "debug");
    assert_eq!(config.broker_url(), "tcp://localhost:1883");
    assert_eq!(config.username(), "user");
    assert_eq!(config.password(), "secret");
    assert_eq!(config.listen_topic(), "+/+/BTtoMQTT/#");
}

#[test]
fn discovery_topic_is_derived_from_device_id() {
    let config = sample_config();
    let reading = sample_reading();
    let messages = HassDiscoveryMessages::new(&config, &reading).iter_messages();
    assert_eq!(messages.len(), 1);
    assert_eq!(
        messages[0].topic,
        "homeassistant/sensor/D4D8D8CB346C-dewpoint/config"
    );
}

#[test]
fn discovery_payload_has_the_announcement_shape() {
    let config = sample_config();
    let reading = sample_reading();
    let messages = HassDiscoveryMessages::new(&config, &reading).iter_messages();
    let payload: serde_json::Value = serde_json::from_str(&messages[0].payload).unwrap();
    assert_eq!(
        payload["stat_t"].as_str().unwrap(),
        "home/Radd/RuuviTagAdditions/D4D8D8CB346C"
    );
    assert_eq!(payload["dev_cla"].as_str().unwrap(), "absolute_humidity");
    assert_eq!(payload["unit_of_meas"].as_str().unwrap(), "\u{00B0}C");
    assert_eq!(payload["state_class"].as_str().unwrap(), "measurement");
    assert_eq!(payload["name"].as_str().unwrap(), "RuuviTag_RAWv2-dewpoint");
    assert_eq!(payload["uniq_id"].as_str().unwrap(), "D4D8D8CB346C-dewpoint");
    assert_eq!(
        payload["val_tpl"].as_str().unwrap(),
        "{{ value_json.dewpoint | is_defined }}"
    );
    let device = &payload["device"];
    assert_eq!(device["ids"][0].as_str().unwrap(), "D4D8D8CB346C");
    assert_eq!(device["cns"][0][0].as_str().unwrap(), "mac");
    assert_eq!(device["cns"][0][1].as_str().unwrap(), "D4D8D8CB346C");
    assert_eq!(device["mf"].as_str().unwrap(), "Ruuvi");
    assert_eq!(device["mdl"].as_str().unwrap(), "RuuviTag_RAWv2");
    assert_eq!(device["name"].as_str().unwrap(), "RuuviTag-CB346C");
    assert_eq!(device["via_device"].as_str().unwrap(), "RuuviTag Additions");
}

#[test]
fn discovery_is_idempotent_for_the_same_device() {
    let config = sample_config();
    let reading = sample_reading();
    let first = HassDiscoveryMessages::new(&config, &reading).iter_messages();
    let second = HassDiscoveryMessages::new(&config, &reading).iter_messages();
    assert_eq!(first.len(), second.len());
    assert_eq!(first[0].topic, second[0].topic);
    assert_eq!(first[0].payload, second[0].payload);
}
