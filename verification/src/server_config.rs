use vstd::prelude::*;

verus! {

/// Where the HTTP surface listens.
#[derive(Debug, Clone)]
pub struct HttpParam {
    pub ip: String,
    pub port: u16,
}

/// Where the broker listens.
#[derive(Debug, Clone)]
pub struct MqttParam {
    pub ip: String,
    pub port: u16,
}

/// Where preloaded device data is fetched from.
#[derive(Debug, Clone)]
pub struct PreloadParam {
    pub url: String,
}

/// How often the server probes its peers.
#[derive(Debug, Clone)]
pub struct PingParam {
    pub interval: u64,
}

/// The runtime configuration a server process starts from; each part is
/// there only when the configuration file gave it.
#[derive(Debug, Clone)]
pub struct Config {
    pub http: Option<HttpParam>,
    pub mqtt: Option<MqttParam>,
    pub preload: Option<PreloadParam>,
    pub ping: Option<PingParam>,
}

impl Config {
    pub fn get_http_ip(&self) -> (r: &String)
        requires
            self.http is Some,
        ensures
            r@ == self.http.unwrap().ip@,
    {
        &self.http.as_ref().unwrap().ip
    }

    pub fn get_http_port(&self) -> (r: u16)
        requires
            self.http is Some,
        ensures
            r == self.http.unwrap().port,
    {
        self.http.as_ref().unwrap().port
    }

    pub fn get_mqtt_ip(&self) -> (r: &String)
        requires
            self.mqtt is Some,
        ensures
            r@ == self.mqtt.unwrap().ip@,
    {
        &self.mqtt.as_ref().unwrap().ip
    }

    pub fn get_mqtt_port(&self) -> (r: u16)
        requires
            self.mqtt is Some,
        ensures
            r == self.mqtt.unwrap().port,
    {
        self.mqtt.as_ref().unwrap().port
    }

    pub fn get_preload_url(&self) -> (r: &String)
        requires
            self.preload is Some,
        ensures
            r@ == self.preload.unwrap().url@,
    {
        &self.preload.as_ref().unwrap().url
    }

    pub fn get_ping_interval(&self) -> (r: u64)
        requires
            self.ping is Some,
        ensures
            r == self.ping.unwrap().interval,
    {
        self.ping.as_ref().unwrap().interval
    }
}

} // verus!
