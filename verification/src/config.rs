//! Runtime configuration of the bridge. The raw values come from the
//! process environment, which the surrounding program reads; this type
//! holds them and normalises the discovery topic prefix.

use vstd::prelude::*;
use crate::text::{trim_topic_wildcards, trim_topic_wildcards_spec};

verus! {

/// The mathematical content of a [`Config`]: each setting as its character
/// sequence.
pub struct ConfigView {
    pub log_level: Seq<char>,
    pub broker_url: Seq<char>,
    pub username: Seq<char>,
    pub password: Seq<char>,
    pub listen_topic: Seq<char>,
    pub hass_discovery_topic: Seq<char>,
}

/// The settings the bridge runs with.
pub struct Config {
    log_level: String,
    broker_url: String,
    username: String,
    password: String,
    listen_topic: String,
    hass_discovery_topic: String,
}

impl View for Config {
    type V = ConfigView;

    closed spec fn view(&self) -> ConfigView {
        ConfigView {
            log_level: self.log_level@,
            broker_url: self.broker_url@,
            username: self.username@,
            password: self.password@,
            listen_topic: self.listen_topic@,
            hass_discovery_topic: self.hass_discovery_topic@,
        }
    }
}

impl Config {
    /// Builds the configuration from the values of the six environment
    /// variables. Five are kept verbatim; the discovery topic prefix is
    /// stripped of trailing `/`, `+` and `#` characters, so that the topics
    /// derived from it never carry a separator twice or a wildcard.
    pub fn parse_env(
        log_level: String,
        broker_url: String,
        username: String,
        password: String,
        listen_topic: String,
        hass_discovery_topic: String,
    ) -> (r: Config)
        ensures
            r@.log_level == log_level@,
            r@.broker_url == broker_url@,
            r@.username == username@,
            r@.password == password@,
            r@.listen_topic == listen_topic@,
            r@.hass_discovery_topic == trim_topic_wildcards_spec(hass_discovery_topic@),
    {
        let hass_discovery_topic = trim_topic_wildcards(hass_discovery_topic.as_str());
        Config { log_level, broker_url, username, password, listen_topic, hass_discovery_topic }
    }

    pub fn log_level(&self) -> (r: &str)
        ensures
            r@ == self@.log_level,
    {
        self.log_level.as_str()
    }

    pub fn broker_url(&self) -> (r: &str)
        ensures
            r@ == self@.broker_url,
    {
        self.broker_url.as_str()
    }

    pub fn username(&self) -> (r: &str)
        ensures
            r@ == self@.username,
    {
        self.username.as_str()
    }

    pub fn password(&self) -> (r: &str)
        ensures
            r@ == self@.password,
    {
        self.password.as_str()
    }

    pub fn listen_topic(&self) -> (r: &str)
        ensures
            r@ == self@.listen_topic,
    {
        self.listen_topic.as_str()
    }

    /// Topic prefix for Home Assistant discovery, without trailing `/`, `+`
    /// or `#`.
    pub fn hass_discovery_topic(&self) -> (r: &str)
        ensures
            r@ == self@.hass_discovery_topic,
    {
        self.hass_discovery_topic.as_str()
    }
}

} // verus!
