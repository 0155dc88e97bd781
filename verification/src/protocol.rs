use vstd::prelude::*;

verus! {

/// Protocol name of MQTT 3.1.
pub const MQISDP_PROTOCOL_NAME: &'static str = "MQIsdp";

/// Protocol name of MQTT 3.1.1 and 5.0.
pub const MQTT_PROTOCOL_NAME: &'static str = "MQTT";

/// Protocol levels carried in the CONNECT variable header.
#[derive(Debug, Copy, Clone, PartialEq, Eq, Structural)]
pub enum MqttProtocolLevel {
    Level3_1,
    Level3_1_1,
    Level5,
}

/// The wire byte of a protocol level.
pub open spec fn spec_level_num(l: MqttProtocolLevel) -> u8 {
    match l {
        MqttProtocolLevel::Level3_1 => 3,
        MqttProtocolLevel::Level3_1_1 => 4,
        MqttProtocolLevel::Level5 => 5,
    }
}

/// The protocol level with the given wire byte, if any.
pub open spec fn spec_level_of_num(n: u8) -> Option<MqttProtocolLevel> {
    if n == 3 {
        Some(MqttProtocolLevel::Level3_1)
    } else if n == 4 {
        Some(MqttProtocolLevel::Level3_1_1)
    } else if n == 5 {
        Some(MqttProtocolLevel::Level5)
    } else {
        None
    }
}

impl MqttProtocolLevel {
    pub fn from_num(n: u8) -> (r: Option<MqttProtocolLevel>)
        ensures
            r == spec_level_of_num(n),
            r matches Some(l) ==> spec_level_num(l) == n,
    {
        match n {
            3 => Some(MqttProtocolLevel::Level3_1),
            4 => Some(MqttProtocolLevel::Level3_1_1),
            5 => Some(MqttProtocolLevel::Level5),
            _ => None,
        }
    }

    pub fn as_num(&self) -> (r: u8)
        ensures
            r == spec_level_num(*self),
    {
        match *self {
            MqttProtocolLevel::Level3_1 => 3,
            MqttProtocolLevel::Level3_1_1 => 4,
            MqttProtocolLevel::Level5 => 5,
        }
    }

    pub fn is_level_3_1(&self) -> (r: bool)
        ensures
            r == (*self == MqttProtocolLevel::Level3_1),
    {
        matches!(self, MqttProtocolLevel::Level3_1)
    }

    pub fn is_level_3_1_1(&self) -> (r: bool)
        ensures
            r == (*self == MqttProtocolLevel::Level3_1_1),
    {
        matches!(self, MqttProtocolLevel::Level3_1_1)
    }

    pub fn is_level_5(&self) -> (r: bool)
        ensures
            r == (*self == MqttProtocolLevel::Level5),
    {
        matches!(self, MqttProtocolLevel::Level5)
    }
}

/// Quality of service: at most once, at least once, exactly once, or the
/// failure code a SUBACK can answer with.
#[derive(Debug, Copy, Clone, PartialEq, Eq, Structural)]
pub enum MqttQos {
    Qos0,
    Qos1,
    Qos2,
    Failure,
}

/// The wire byte of a quality-of-service value.
pub open spec fn spec_qos_num(q: MqttQos) -> u8 {
    match q {
        MqttQos::Qos0 => 0,
        MqttQos::Qos1 => 1,
        MqttQos::Qos2 => 2,
        MqttQos::Failure => 128,
    }
}

/// The quality-of-service value with the given wire byte, if any.
pub open spec fn spec_qos_of_num(n: u8) -> Option<MqttQos> {
    if n == 0 {
        Some(MqttQos::Qos0)
    } else if n == 1 {
        Some(MqttQos::Qos1)
    } else if n == 2 {
        Some(MqttQos::Qos2)
    } else if n == 128 {
        Some(MqttQos::Failure)
    } else {
        None
    }
}

/// The name of a quality-of-service grant.
pub open spec fn spec_qos_name(q: MqttQos) -> Seq<char> {
    match q {
        MqttQos::Qos0 => "Granted QoS 0"@,
        MqttQos::Qos1 => "Granted QoS 1"@,
        MqttQos::Qos2 => "Granted QoS 2"@,
        MqttQos::Failure => "Granted Fail"@,
    }
}

impl MqttQos {
    pub fn from_num(n: u8) -> (r: Option<MqttQos>)
        ensures
            r == spec_qos_of_num(n),
            r matches Some(q) ==> spec_qos_num(q) == n,
    {
        match n {
            0 => Some(MqttQos::Qos0),
            1 => Some(MqttQos::Qos1),
            2 => Some(MqttQos::Qos2),
            128 => Some(MqttQos::Failure),
            _ => None,
        }
    }

    pub fn as_str(&self) -> (r: &'static str)
        ensures
            r@ == spec_qos_name(*self),
    {
        match *self {
            MqttQos::Qos0 => "Granted QoS 0",
            MqttQos::Qos1 => "Granted QoS 1",
            MqttQos::Qos2 => "Granted QoS 2",
            MqttQos::Failure => "Granted Fail",
        }
    }

    pub fn as_byte(&self) -> (r: u8)
        ensures
            r == spec_qos_num(*self),
    {
        match *self {
            MqttQos::Qos0 => 0,
            MqttQos::Qos1 => 1,
            MqttQos::Qos2 => 2,
            MqttQos::Failure => 128,
        }
    }
}

/// Whether a CONNECT carries a will message.
#[derive(Debug, Copy, Clone, PartialEq, Eq, Structural)]
pub enum MqttWillFlag {
    Disable,
    Enable,
}

/// Whether a PUBLISH asks the broker to retain the message.
#[derive(Debug, Copy, Clone, PartialEq, Eq, Structural)]
pub enum MqttRetain {
    Disable,
    Enable,
}

/// Whether a PUBLISH is a retransmission.
#[derive(Debug, Copy, Clone, PartialEq, Eq, Structural)]
pub enum MqttDup {
    Disable,
    Enable,
}

/// Whether a CONNECT asks for a clean session.
#[derive(Debug, Copy, Clone, PartialEq, Eq, Structural)]
pub enum MqttCleanSession {
    Disable,
    Enable,
}

/// Whether a will topic is present.
#[derive(Debug, Copy, Clone, PartialEq, Eq, Structural)]
pub enum MqttWillTopic {
    Disable,
    Enable,
}

/// Whether a will message is present.
#[derive(Debug, Copy, Clone, PartialEq, Eq, Structural)]
pub enum MqttWillMessage {
    Disable,
    Enable,
}

/// Whether a CONNECT payload carries a user name.
#[derive(Debug, Copy, Clone, PartialEq, Eq, Structural)]
pub enum MqttUsernameFlag {
    Disable,
    Enable,
}

/// Whether a CONNECT payload carries a password.
#[derive(Debug, Copy, Clone, PartialEq, Eq, Structural)]
pub enum MqttPasswordFlag {
    Disable,
    Enable,
}

/// Whether a CONNACK reports a resumed session.
#[derive(Debug, Copy, Clone, PartialEq, Eq, Structural)]
pub enum MqttSessionPresent {
    Disable,
    Enable,
}

/// The v5 subscription option that suppresses self-delivery.
#[derive(Debug, Copy, Clone, PartialEq, Eq, Structural)]
pub enum MqttNoLocal {
    Disable,
    Enable,
}

/// The v5 subscription option that keeps the retain flag as published.
#[derive(Debug, Copy, Clone, PartialEq, Eq, Structural)]
pub enum MqttRetainAsPublished {
    Disable,
    Enable,
}

/// The bit behind each of the two-valued flags: zero disables, one enables.
pub open spec fn spec_flag_bit(enabled: bool) -> u8 {
    if enabled {
        1
    } else {
        0
    }
}

impl MqttWillFlag {
    pub fn from_bit(n: u8) -> (r: Option<MqttWillFlag>)
        ensures
            n == 0 ==> r == Some(MqttWillFlag::Disable),
            n == 1 ==> r == Some(MqttWillFlag::Enable),
            n > 1 ==> r is None,
    {
        match n {
            0 => Some(MqttWillFlag::Disable),
            1 => Some(MqttWillFlag::Enable),
            _ => None,
        }
    }
}

impl MqttRetain {
    pub fn from_bit(n: u8) -> (r: Option<MqttRetain>)
        ensures
            n == 0 ==> r == Some(MqttRetain::Disable),
            n == 1 ==> r == Some(MqttRetain::Enable),
            n > 1 ==> r is None,
    {
        match n {
            0 => Some(MqttRetain::Disable),
            1 => Some(MqttRetain::Enable),
            _ => None,
        }
    }
}

impl MqttDup {
    pub fn from_bit(n: u8) -> (r: Option<MqttDup>)
        ensures
            n == 0 ==> r == Some(MqttDup::Disable),
            n == 1 ==> r == Some(MqttDup::Enable),
            n > 1 ==> r is None,
    {
        match n {
            0 => Some(MqttDup::Disable),
            1 => Some(MqttDup::Enable),
            _ => None,
        }
    }
}

impl MqttCleanSession {
    pub fn from_bit(n: u8) -> (r: Option<MqttCleanSession>)
        ensures
            n == 0 ==> r == Some(MqttCleanSession::Disable),
            n == 1 ==> r == Some(MqttCleanSession::Enable),
            n > 1 ==> r is None,
    {
        match n {
            0 => Some(MqttCleanSession::Disable),
            1 => Some(MqttCleanSession::Enable),
            _ => None,
        }
    }
}

impl MqttUsernameFlag {
    pub fn from_bit(n: u8) -> (r: Option<MqttUsernameFlag>)
        ensures
            n == 0 ==> r == Some(MqttUsernameFlag::Disable),
            n == 1 ==> r == Some(MqttUsernameFlag::Enable),
            n > 1 ==> r is None,
    {
        match n {
            0 => Some(MqttUsernameFlag::Disable),
            1 => Some(MqttUsernameFlag::Enable),
            _ => None,
        }
    }
}

impl MqttPasswordFlag {
    pub fn from_bit(n: u8) -> (r: Option<MqttPasswordFlag>)
        ensures
            n == 0 ==> r == Some(MqttPasswordFlag::Disable),
            n == 1 ==> r == Some(MqttPasswordFlag::Enable),
            n > 1 ==> r is None,
    {
        match n {
            0 => Some(MqttPasswordFlag::Disable),
            1 => Some(MqttPasswordFlag::Enable),
            _ => None,
        }
    }
}

impl MqttSessionPresent {
    pub fn from_bit(n: u8) -> (r: Option<MqttSessionPresent>)
        ensures
            n == 0 ==> r == Some(MqttSessionPresent::Disable),
            n == 1 ==> r == Some(MqttSessionPresent::Enable),
            n > 1 ==> r is None,
    {
        match n {
            0 => Some(MqttSessionPresent::Disable),
            1 => Some(MqttSessionPresent::Enable),
            _ => None,
        }
    }
}

impl MqttNoLocal {
    pub fn from_bit(n: u8) -> (r: Option<MqttNoLocal>)
        ensures
            n == 0 ==> r == Some(MqttNoLocal::Disable),
            n == 1 ==> r == Some(MqttNoLocal::Enable),
            n > 1 ==> r is None,
    {
        match n {
            0 => Some(MqttNoLocal::Disable),
            1 => Some(MqttNoLocal::Enable),
            _ => None,
        }
    }
}

impl MqttRetainAsPublished {
    pub fn from_bit(n: u8) -> (r: Option<MqttRetainAsPublished>)
        ensures
            n == 0 ==> r == Some(MqttRetainAsPublished::Disable),
            n == 1 ==> r == Some(MqttRetainAsPublished::Enable),
            n > 1 ==> r is None,
    {
        match n {
            0 => Some(MqttRetainAsPublished::Disable),
            1 => Some(MqttRetainAsPublished::Enable),
            _ => None,
        }
    }
}

} // verus!
