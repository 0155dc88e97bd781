use vstd::prelude::*;
use vstd::string::StringExecFns;
use vstd::utf8::encode_utf8;
use crate::protocol::{
    MQTT_PROTOCOL_NAME, MqttProtocolLevel, MqttQos, MqttRetain, MqttWillFlag,
};

verus! {

/// The will a client-side configuration declares.
#[derive(Debug)]
pub struct Will {
    pub will_flag: MqttWillFlag,
    pub will_qos: MqttQos,
    pub will_retain: MqttRetain,
    pub will_topic: Option<String>,
    pub will_message: Option<String>,
}

impl Will {
    pub fn will_flag(&self) -> (r: MqttWillFlag)
        ensures
            r == self.will_flag,
    {
        self.will_flag
    }

    pub fn will_qos(&self) -> (r: MqttQos)
        ensures
            r == self.will_qos,
    {
        self.will_qos
    }

    pub fn will_retain(&self) -> (r: MqttRetain)
        ensures
            r == self.will_retain,
    {
        self.will_retain
    }

    pub fn will_topic(&self) -> (r: Option<String>)
        ensures
            crate::message::opt_view(r) == crate::message::opt_view(self.will_topic),
    {
        match self.will_topic.as_ref() {
            Some(t) => Some(t.clone()),
            None => None,
        }
    }

    pub fn will_message(&self) -> (r: Option<String>)
        ensures
            crate::message::opt_view(r) == crate::message::opt_view(self.will_message),
    {
        match self.will_message.as_ref() {
            Some(t) => Some(t.clone()),
            None => None,
        }
    }
}

/// A client-side connection configuration.
#[derive(Debug)]
pub struct Config {
    pub client_id: String,
    pub username: Option<String>,
    pub password: Option<String>,
    pub keep_alive: u16,
    pub protocol_name: String,
    pub protocol_level: MqttProtocolLevel,
    pub delay: u32,
    pub max_attempts: i32,
    pub will: Will,
}

impl Config {
    pub fn client_id(&self) -> (r: String)
        ensures
            r@ == self.client_id@,
    {
        self.client_id.clone()
    }

    pub fn username(&self) -> (r: Option<String>)
        ensures
            crate::message::opt_view(r) == crate::message::opt_view(self.username),
    {
        match self.username.as_ref() {
            Some(t) => Some(t.clone()),
            None => None,
        }
    }

    pub fn password(&self) -> (r: Option<String>)
        ensures
            crate::message::opt_view(r) == crate::message::opt_view(self.password),
    {
        match self.password.as_ref() {
            Some(t) => Some(t.clone()),
            None => None,
        }
    }

    pub fn keep_alive(&self) -> (r: u16)
        ensures
            r == self.keep_alive,
    {
        self.keep_alive
    }

    pub fn protocol_name(&self) -> (r: String)
        ensures
            r@ == self.protocol_name@,
    {
        self.protocol_name.clone()
    }

    pub fn protocol_level(&self) -> (r: MqttProtocolLevel)
        ensures
            r == self.protocol_level,
    {
        self.protocol_level
    }

    pub fn delay(&self) -> (r: u32)
        ensures
            r == self.delay,
    {
        self.delay
    }

    pub fn max_attempts(&self) -> (r: i32)
        ensures
            r == self.max_attempts,
    {
        self.max_attempts
    }

    pub fn will(&self) -> (r: &Will)
        ensures
            r == &self.will,
    {
        &self.will
    }
}

/// A configuration under construction: built field by field, checked whole.
#[derive(Debug)]
pub struct ConfigBuilder {
    pub client_id: Option<String>,
    pub username: Option<String>,
    pub password: Option<String>,
    pub keep_alive: Option<u16>,
    pub protocol_name: Option<String>,
    pub protocol_level: Option<MqttProtocolLevel>,
    pub delay: Option<u32>,
    pub max_attempts: Option<i32>,
    pub will: Option<Will>,
}

impl ConfigBuilder {
    pub fn new() -> (r: ConfigBuilder)
        ensures
            r.client_id is None,
            r.username is None,
            r.password is None,
            r.keep_alive is None,
            r.protocol_name is None,
            r.protocol_level is None,
            r.delay is None,
            r.max_attempts is None,
            r.will is None,
    {
        ConfigBuilder {
            client_id: None,
            username: None,
            password: None,
            keep_alive: None,
            protocol_name: None,
            protocol_level: None,
            delay: None,
            max_attempts: None,
            will: None,
        }
    }

    pub fn client_id(self, client_id: String) -> (r: ConfigBuilder)
        ensures
            r.client_id == Some(client_id),
            r.username == self.username,
            r.password == self.password,
            r.keep_alive == self.keep_alive,
            r.protocol_name == self.protocol_name,
            r.protocol_level == self.protocol_level,
            r.delay == self.delay,
            r.max_attempts == self.max_attempts,
    {
        let mut s = self;
        s.client_id = Some(client_id);
        s
    }

    pub fn username(self, username: String) -> (r: ConfigBuilder)
        ensures
            r.username == Some(username),
            r.client_id == self.client_id,
    {
        let mut s = self;
        s.username = Some(username);
        s
    }

    pub fn password(self, password: String) -> (r: ConfigBuilder)
        ensures
            r.password == Some(password),
            r.client_id == self.client_id,
    {
        let mut s = self;
        s.password = Some(password);
        s
    }

    pub fn keep_alive(self, keep_alive: u16) -> (r: ConfigBuilder)
        ensures
            r.keep_alive == Some(keep_alive),
            r.client_id == self.client_id,
    {
        let mut s = self;
        s.keep_alive = Some(keep_alive);
        s
    }

    pub fn protocol_name(self, protocol_name: String) -> (r: ConfigBuilder)
        ensures
            r.protocol_name == Some(protocol_name),
            r.client_id == self.client_id,
    {
        let mut s = self;
        s.protocol_name = Some(protocol_name);
        s
    }

    pub fn protocol_level(self, protocol_level: MqttProtocolLevel) -> (r: ConfigBuilder)
        ensures
            r.protocol_level == Some(protocol_level),
            r.client_id == self.client_id,
    {
        let mut s = self;
        s.protocol_level = Some(protocol_level);
        s
    }

    pub fn delay(self, delay: u32) -> (r: ConfigBuilder)
        ensures
            r.delay == Some(delay),
            r.client_id == self.client_id,
    {
        let mut s = self;
        s.delay = Some(delay);
        s
    }

    pub fn max_attempts(self, max_attempts: i32) -> (r: ConfigBuilder)
        ensures
            r.max_attempts == Some(max_attempts),
            r.client_id == self.client_id,
    {
        let mut s = self;
        s.max_attempts = Some(max_attempts);
        s
    }

    pub fn will(self, will: Will) -> (r: ConfigBuilder)
        ensures
            r.will is Some,
            r.client_id == self.client_id,
    {
        let mut s = self;
        s.will = Some(will);
        s
    }

    /// Whether every field a configuration needs has been given.
    fn check(&self) -> (r: bool)
        ensures
            r == (self.client_id is Some && self.keep_alive is Some && self.protocol_name is Some
                && self.protocol_level is Some && self.delay is Some && self.max_attempts is Some
                && self.will is Some),
    {
        self.client_id.is_some() && self.keep_alive.is_some() && self.protocol_name.is_some()
            && self.protocol_level.is_some() && self.delay.is_some() && self.max_attempts.is_some()
            && self.will.is_some()
    }

    /// The finished configuration, when every needed field has been given.
    pub fn build(self) -> (r: Option<Config>)
        ensures
            r is Some <==> (self.client_id is Some && self.keep_alive is Some
                && self.protocol_name is Some && self.protocol_level is Some && self.delay is Some
                && self.max_attempts is Some && self.will is Some),
            r matches Some(c) ==> {
                &&& Some(c.client_id) == self.client_id
                &&& c.username == self.username
                &&& c.password == self.password
                &&& Some(c.keep_alive) == self.keep_alive
                &&& Some(c.protocol_name) == self.protocol_name
                &&& Some(c.protocol_level) == self.protocol_level
                &&& Some(c.delay) == self.delay
                &&& Some(c.max_attempts) == self.max_attempts
                &&& Some(c.will) == self.will
            },
    {
        if !self.check() {
            return None;
        }
        let ConfigBuilder {
            client_id,
            username,
            password,
            keep_alive,
            protocol_name,
            protocol_level,
            delay,
            max_attempts,
            will,
        } = self;
        Some(
            Config {
                client_id: client_id.unwrap(),
                username,
                password,
                keep_alive: keep_alive.unwrap(),
                protocol_name: protocol_name.unwrap(),
                protocol_level: protocol_level.unwrap(),
                delay: delay.unwrap(),
                max_attempts: max_attempts.unwrap(),
                will: will.unwrap(),
            },
        )
    }
}

impl Default for ConfigBuilder {
    /// The builder a test client starts from: protocol 3.1.1, a keep-alive
    /// of one minute, and no will.
    fn default() -> (r: Self)
        ensures
            r.client_id is Some,
            r.keep_alive == Some(60u16),
            r.protocol_name is Some,
            r.protocol_level == Some(MqttProtocolLevel::Level3_1_1),
            r.delay == Some(3000u32),
            r.max_attempts == Some(-1i32),
            r.will is Some,
    {
        ConfigBuilder {
            client_id: Some(String::from_str("rs-mqtt-test")),
            username: None,
            password: None,
            keep_alive: Some(60),
            protocol_name: Some(String::from_str(MQTT_PROTOCOL_NAME)),
            protocol_level: Some(MqttProtocolLevel::Level3_1_1),
            delay: Some(3000),
            max_attempts: Some(-1),
            will: Some(
                Will {
                    will_flag: MqttWillFlag::Disable,
                    will_qos: MqttQos::Qos0,
                    will_retain: MqttRetain::Disable,
                    will_topic: None,
                    will_message: None,
                },
            ),
        }
    }
}

} // verus!
