use vstd::prelude::*;

use crate::protocol::{MqttQos, spec_qos_num, spec_qos_name};

verus! {

/// CONNACK return codes of MQTT 3.1.1.
#[derive(Debug, Copy, Clone, PartialEq, Eq, Structural)]
pub enum ReasonCodeV3 {
    ConnectionAccepted,
    UnacceptableProtocolVersion,
    IdentifierRejected,
    ServerUnavailable,
    BadUsernameOrPassword,
    NotAuthorized,
}

/// The wire byte of a v3 return code.
pub open spec fn spec_v3_code_num(c: ReasonCodeV3) -> u8 {
    match c {
        ReasonCodeV3::ConnectionAccepted => 0x00,
        ReasonCodeV3::UnacceptableProtocolVersion => 0x01,
        ReasonCodeV3::IdentifierRejected => 0x02,
        ReasonCodeV3::ServerUnavailable => 0x03,
        ReasonCodeV3::BadUsernameOrPassword => 0x04,
        ReasonCodeV3::NotAuthorized => 0x05,
    }
}

/// The v3 return code with the given wire byte, if any.
pub open spec fn spec_v3_code_of_num(n: u8) -> Option<ReasonCodeV3> {
    if n == 0x00 {
        Some(ReasonCodeV3::ConnectionAccepted)
    } else if n == 0x01 {
        Some(ReasonCodeV3::UnacceptableProtocolVersion)
    } else if n == 0x02 {
        Some(ReasonCodeV3::IdentifierRejected)
    } else if n == 0x03 {
        Some(ReasonCodeV3::ServerUnavailable)
    } else if n == 0x04 {
        Some(ReasonCodeV3::BadUsernameOrPassword)
    } else if n == 0x05 {
        Some(ReasonCodeV3::NotAuthorized)
    } else {
        None
    }
}

/// The description of a v3 return code.
pub open spec fn spec_v3_code_text(c: ReasonCodeV3) -> Seq<char> {
    match c {
        ReasonCodeV3::ConnectionAccepted => "Connection accepted"@,
        ReasonCodeV3::UnacceptableProtocolVersion => "The Server does not support the level of the MQTT protocol requested by the Client"@,
        ReasonCodeV3::IdentifierRejected => "The Client identifier is correct UTF-8 but not allowed by the Server"@,
        ReasonCodeV3::ServerUnavailable => "The Network Connection has been made but the MQTT service is unavailable"@,
        ReasonCodeV3::BadUsernameOrPassword => "The data in the user name or password is malformed"@,
        ReasonCodeV3::NotAuthorized => "The Client is not authorized to connect"@,
    }
}

impl ReasonCodeV3 {
    pub fn as_str(&self) -> (r: &'static str)
        ensures
            r@ == spec_v3_code_text(*self),
    {
        match *self {
            ReasonCodeV3::ConnectionAccepted => "Connection accepted",
            ReasonCodeV3::UnacceptableProtocolVersion => "The Server does not support the level of the MQTT protocol requested by the Client",
            ReasonCodeV3::IdentifierRejected => "The Client identifier is correct UTF-8 but not allowed by the Server",
            ReasonCodeV3::ServerUnavailable => "The Network Connection has been made but the MQTT service is unavailable",
            ReasonCodeV3::BadUsernameOrPassword => "The data in the user name or password is malformed",
            ReasonCodeV3::NotAuthorized => "The Client is not authorized to connect",
        }
    }

    pub fn as_byte(&self) -> (r: u8)
        ensures
            r == spec_v3_code_num(*self),
    {
        match *self {
            ReasonCodeV3::ConnectionAccepted => 0x00,
            ReasonCodeV3::UnacceptableProtocolVersion => 0x01,
            ReasonCodeV3::IdentifierRejected => 0x02,
            ReasonCodeV3::ServerUnavailable => 0x03,
            ReasonCodeV3::BadUsernameOrPassword => 0x04,
            ReasonCodeV3::NotAuthorized => 0x05,
        }
    }

    pub fn from_num(n: u8) -> (r: Option<ReasonCodeV3>)
        ensures
            r == spec_v3_code_of_num(n),
            r matches Some(c) ==> spec_v3_code_num(c) == n,
    {
        match n {
            0x00 => Some(ReasonCodeV3::ConnectionAccepted),
            0x01 => Some(ReasonCodeV3::UnacceptableProtocolVersion),
            0x02 => Some(ReasonCodeV3::IdentifierRejected),
            0x03 => Some(ReasonCodeV3::ServerUnavailable),
            0x04 => Some(ReasonCodeV3::BadUsernameOrPassword),
            0x05 => Some(ReasonCodeV3::NotAuthorized),
            _ => None,
        }
    }
}

/// Reason codes of MQTT 5.0 packets.
#[derive(Debug, Copy, Clone, PartialEq, Eq, Structural)]
pub enum ReasonPhrases {
    Success,
    DisconnectWithWillMessage,
    NoMatchingSubscribers,
    NoSubscriptionExisted,
    ContinueAuthentication,
    ReAuthenticate,
    UnspecifiedError,
    MalformedPacket,
    ProtocolError,
    ImplementationSpecificError,
    UnsupportedProtocolVersion,
    ClientIdentifierNotValid,
    BadUserNameOrPassword,
    NotAuthorized,
    ServerUnavailable,
    ServerBusy,
    Banned,
    ServerShuttingDown,
    BadAuthenticationMethod,
    KeepAliveTimeout,
    SessionTakenOver,
    TopicFilterInvalid,
    TopicNameInvalid,
    PacketIdentifierInUse,
    PacketIdentifierNotFound,
    ReceiveMaximumExceeded,
    TopicAliasInvalid,
    PacketTooLarge,
    MessageRateTooHigh,
    QuotaExceeded,
    AdministrativeAction,
    PayloadFormatInvalid,
    RetainNotSupported,
    QosNotSupported,
    UseAnotherServer,
    ServerMoved,
    SharedSubscriptionsNotSupported,
    ConnectionRateExceeded,
    MaximumConnectTime,
    SubscriptionIdentifiersNotSupported,
    WildcardSubscriptionsNotSupported,
}

/// The wire byte of a v5 reason code.
pub open spec fn spec_phrase_num(c: ReasonPhrases) -> u8 {
    match c {
        ReasonPhrases::Success => 0x00,
        ReasonPhrases::DisconnectWithWillMessage => 0x04,
        ReasonPhrases::NoMatchingSubscribers => 0x10,
        ReasonPhrases::NoSubscriptionExisted => 0x11,
        ReasonPhrases::ContinueAuthentication => 0x18,
        ReasonPhrases::ReAuthenticate => 0x19,
        ReasonPhrases::UnspecifiedError => 0x80,
        ReasonPhrases::MalformedPacket => 0x81,
        ReasonPhrases::ProtocolError => 0x82,
        ReasonPhrases::ImplementationSpecificError => 0x83,
        ReasonPhrases::UnsupportedProtocolVersion => 0x84,
        ReasonPhrases::ClientIdentifierNotValid => 0x85,
        ReasonPhrases::BadUserNameOrPassword => 0x86,
        ReasonPhrases::NotAuthorized => 0x87,
        ReasonPhrases::ServerUnavailable => 0x88,
        ReasonPhrases::ServerBusy => 0x89,
        ReasonPhrases::Banned => 0x8A,
        ReasonPhrases::ServerShuttingDown => 0x8B,
        ReasonPhrases::BadAuthenticationMethod => 0x8C,
        ReasonPhrases::KeepAliveTimeout => 0x8D,
        ReasonPhrases::SessionTakenOver => 0x8E,
        ReasonPhrases::TopicFilterInvalid => 0x8F,
        ReasonPhrases::TopicNameInvalid => 0x90,
        ReasonPhrases::PacketIdentifierInUse => 0x91,
        ReasonPhrases::PacketIdentifierNotFound => 0x92,
        ReasonPhrases::ReceiveMaximumExceeded => 0x93,
        ReasonPhrases::TopicAliasInvalid => 0x94,
        ReasonPhrases::PacketTooLarge => 0x95,
        ReasonPhrases::MessageRateTooHigh => 0x96,
        ReasonPhrases::QuotaExceeded => 0x97,
        ReasonPhrases::AdministrativeAction => 0x98,
        ReasonPhrases::PayloadFormatInvalid => 0x99,
        ReasonPhrases::RetainNotSupported => 0x9A,
        ReasonPhrases::QosNotSupported => 0x9B,
        ReasonPhrases::UseAnotherServer => 0x9C,
        ReasonPhrases::ServerMoved => 0x9D,
        ReasonPhrases::SharedSubscriptionsNotSupported => 0x9E,
        ReasonPhrases::ConnectionRateExceeded => 0x9F,
        ReasonPhrases::MaximumConnectTime => 0xA0,
        ReasonPhrases::SubscriptionIdentifiersNotSupported => 0xA1,
        ReasonPhrases::WildcardSubscriptionsNotSupported => 0xA2,
    }
}

/// The v5 reason code with the given wire byte, if any.
pub open spec fn spec_phrase_of_num(n: u8) -> Option<ReasonPhrases> {
    if n == 0x00 {
        Some(ReasonPhrases::Success)
    } else if n == 0x04 {
        Some(ReasonPhrases::DisconnectWithWillMessage)
    } else if n == 0x10 {
        Some(ReasonPhrases::NoMatchingSubscribers)
    } else if n == 0x11 {
        Some(ReasonPhrases::NoSubscriptionExisted)
    } else if n == 0x18 {
        Some(ReasonPhrases::ContinueAuthentication)
    } else if n == 0x19 {
        Some(ReasonPhrases::ReAuthenticate)
    } else if n == 0x80 {
        Some(ReasonPhrases::UnspecifiedError)
    } else if n == 0x81 {
        Some(ReasonPhrases::MalformedPacket)
    } else if n == 0x82 {
        Some(ReasonPhrases::ProtocolError)
    } else if n == 0x83 {
        Some(ReasonPhrases::ImplementationSpecificError)
    } else if n == 0x84 {
        Some(ReasonPhrases::UnsupportedProtocolVersion)
    } else if n == 0x85 {
        Some(ReasonPhrases::ClientIdentifierNotValid)
    } else if n == 0x86 {
        Some(ReasonPhrases::BadUserNameOrPassword)
    } else if n == 0x87 {
        Some(ReasonPhrases::NotAuthorized)
    } else if n == 0x88 {
        Some(ReasonPhrases::ServerUnavailable)
    } else if n == 0x89 {
        Some(ReasonPhrases::ServerBusy)
    } else if n == 0x8A {
        Some(ReasonPhrases::Banned)
    } else if n == 0x8B {
        Some(ReasonPhrases::ServerShuttingDown)
    } else if n == 0x8C {
        Some(ReasonPhrases::BadAuthenticationMethod)
    } else if n == 0x8D {
        Some(ReasonPhrases::KeepAliveTimeout)
    } else if n == 0x8E {
        Some(ReasonPhrases::SessionTakenOver)
    } else if n == 0x8F {
        Some(ReasonPhrases::TopicFilterInvalid)
    } else if n == 0x90 {
        Some(ReasonPhrases::TopicNameInvalid)
    } else if n == 0x91 {
        Some(ReasonPhrases::PacketIdentifierInUse)
    } else if n == 0x92 {
        Some(ReasonPhrases::PacketIdentifierNotFound)
    } else if n == 0x93 {
        Some(ReasonPhrases::ReceiveMaximumExceeded)
    } else if n == 0x94 {
        Some(ReasonPhrases::TopicAliasInvalid)
    } else if n == 0x95 {
        Some(ReasonPhrases::PacketTooLarge)
    } else if n == 0x96 {
        Some(ReasonPhrases::MessageRateTooHigh)
    } else if n == 0x97 {
        Some(ReasonPhrases::QuotaExceeded)
    } else if n == 0x98 {
        Some(ReasonPhrases::AdministrativeAction)
    } else if n == 0x99 {
        Some(ReasonPhrases::PayloadFormatInvalid)
    } else if n == 0x9A {
        Some(ReasonPhrases::RetainNotSupported)
    } else if n == 0x9B {
        Some(ReasonPhrases::QosNotSupported)
    } else if n == 0x9C {
        Some(ReasonPhrases::UseAnotherServer)
    } else if n == 0x9D {
        Some(ReasonPhrases::ServerMoved)
    } else if n == 0x9E {
        Some(ReasonPhrases::SharedSubscriptionsNotSupported)
    } else if n == 0x9F {
        Some(ReasonPhrases::ConnectionRateExceeded)
    } else if n == 0xA0 {
        Some(ReasonPhrases::MaximumConnectTime)
    } else if n == 0xA1 {
        Some(ReasonPhrases::SubscriptionIdentifiersNotSupported)
    } else if n == 0xA2 {
        Some(ReasonPhrases::WildcardSubscriptionsNotSupported)
    } else {
        None
    }
}

/// The description of a v5 reason code.
pub open spec fn spec_phrase_text(c: ReasonPhrases) -> Seq<char> {
    match c {
        ReasonPhrases::Success => "Success"@,
        ReasonPhrases::DisconnectWithWillMessage => "Disconnect with will mqtt.message"@,
        ReasonPhrases::NoMatchingSubscribers => "No matching subscribers"@,
        ReasonPhrases::NoSubscriptionExisted => "No subscription existed"@,
        ReasonPhrases::ContinueAuthentication => "continue authentication"@,
        ReasonPhrases::ReAuthenticate => "Re authenticate"@,
        ReasonPhrases::UnspecifiedError => "Unspecified error"@,
        ReasonPhrases::MalformedPacket => "Malformed packet"@,
        ReasonPhrases::ProtocolError => "Protocol error"@,
        ReasonPhrases::ImplementationSpecificError => "Implementation specific error"@,
        ReasonPhrases::UnsupportedProtocolVersion => "Unsupported protocol version"@,
        ReasonPhrases::ClientIdentifierNotValid => "ClientIdentifier not valid"@,
        ReasonPhrases::BadUserNameOrPassword => "Bad user name or password"@,
        ReasonPhrases::NotAuthorized => "Not authorized"@,
        ReasonPhrases::ServerUnavailable => "Server unavailable"@,
        ReasonPhrases::ServerBusy => "Server busy"@,
        ReasonPhrases::Banned => "Banned"@,
        ReasonPhrases::ServerShuttingDown => "Server shutting down"@,
        ReasonPhrases::BadAuthenticationMethod => "Bad authentication method"@,
        ReasonPhrases::KeepAliveTimeout => "Keep alive timeout"@,
        ReasonPhrases::SessionTakenOver => "Session taken over"@,
        ReasonPhrases::TopicFilterInvalid => "Topic filter invalid"@,
        ReasonPhrases::TopicNameInvalid => "Topic name invalid"@,
        ReasonPhrases::PacketIdentifierInUse => "Packet identifierInUse"@,
        ReasonPhrases::PacketIdentifierNotFound => "Packet identifier not found"@,
        ReasonPhrases::ReceiveMaximumExceeded => "Receive maximum exceeded"@,
        ReasonPhrases::TopicAliasInvalid => "Topic alias invalid"@,
        ReasonPhrases::PacketTooLarge => "Packet too large"@,
        ReasonPhrases::MessageRateTooHigh => "Message rate too high"@,
        ReasonPhrases::QuotaExceeded => "Quota exceeded"@,
        ReasonPhrases::AdministrativeAction => "Administrative action"@,
        ReasonPhrases::PayloadFormatInvalid => "Payload format invalid"@,
        ReasonPhrases::RetainNotSupported => "Retain not supported"@,
        ReasonPhrases::QosNotSupported => "Qos not supported"@,
        ReasonPhrases::UseAnotherServer => "Use another server"@,
        ReasonPhrases::ServerMoved => "Server moved"@,
        ReasonPhrases::SharedSubscriptionsNotSupported => "Shared subscriptions not supported"@,
        ReasonPhrases::ConnectionRateExceeded => "Connection rate exceeded"@,
        ReasonPhrases::MaximumConnectTime => "Maximum connect time"@,
        ReasonPhrases::SubscriptionIdentifiersNotSupported => "Subscription identifiers not supported"@,
        ReasonPhrases::WildcardSubscriptionsNotSupported => "Wildcard subscriptions not supported"@,
    }
}

impl ReasonPhrases {
    pub fn as_str(&self) -> (r: &'static str)
        ensures
            r@ == spec_phrase_text(*self),
    {
        match *self {
            ReasonPhrases::Success => "Success",
            ReasonPhrases::DisconnectWithWillMessage => "Disconnect with will mqtt.message",
            ReasonPhrases::NoMatchingSubscribers => "No matching subscribers",
            ReasonPhrases::NoSubscriptionExisted => "No subscription existed",
            ReasonPhrases::ContinueAuthentication => "continue authentication",
            ReasonPhrases::ReAuthenticate => "Re authenticate",
            ReasonPhrases::UnspecifiedError => "Unspecified error",
            ReasonPhrases::MalformedPacket => "Malformed packet",
            ReasonPhrases::ProtocolError => "Protocol error",
            ReasonPhrases::ImplementationSpecificError => "Implementation specific error",
            ReasonPhrases::UnsupportedProtocolVersion => "Unsupported protocol version",
            ReasonPhrases::ClientIdentifierNotValid => "ClientIdentifier not valid",
            ReasonPhrases::BadUserNameOrPassword => "Bad user name or password",
            ReasonPhrases::NotAuthorized => "Not authorized",
            ReasonPhrases::ServerUnavailable => "Server unavailable",
            ReasonPhrases::ServerBusy => "Server busy",
            ReasonPhrases::Banned => "Banned",
            ReasonPhrases::ServerShuttingDown => "Server shutting down",
            ReasonPhrases::BadAuthenticationMethod => "Bad authentication method",
            ReasonPhrases::KeepAliveTimeout => "Keep alive timeout",
            ReasonPhrases::SessionTakenOver => "Session taken over",
            ReasonPhrases::TopicFilterInvalid => "Topic filter invalid",
            ReasonPhrases::TopicNameInvalid => "Topic name invalid",
            ReasonPhrases::PacketIdentifierInUse => "Packet identifierInUse",
            ReasonPhrases::PacketIdentifierNotFound => "Packet identifier not found",
            ReasonPhrases::ReceiveMaximumExceeded => "Receive maximum exceeded",
            ReasonPhrases::TopicAliasInvalid => "Topic alias invalid",
            ReasonPhrases::PacketTooLarge => "Packet too large",
            ReasonPhrases::MessageRateTooHigh => "Message rate too high",
            ReasonPhrases::QuotaExceeded => "Quota exceeded",
            ReasonPhrases::AdministrativeAction => "Administrative action",
            ReasonPhrases::PayloadFormatInvalid => "Payload format invalid",
            ReasonPhrases::RetainNotSupported => "Retain not supported",
            ReasonPhrases::QosNotSupported => "Qos not supported",
            ReasonPhrases::UseAnotherServer => "Use another server",
            ReasonPhrases::ServerMoved => "Server moved",
            ReasonPhrases::SharedSubscriptionsNotSupported => "Shared subscriptions not supported",
            ReasonPhrases::ConnectionRateExceeded => "Connection rate exceeded",
            ReasonPhrases::MaximumConnectTime => "Maximum connect time",
            ReasonPhrases::SubscriptionIdentifiersNotSupported => "Subscription identifiers not supported",
            ReasonPhrases::WildcardSubscriptionsNotSupported => "Wildcard subscriptions not supported",
        }
    }

    pub fn as_byte(&self) -> (r: u8)
        ensures
            r == spec_phrase_num(*self),
    {
        match *self {
            ReasonPhrases::Success => 0x00,
            ReasonPhrases::DisconnectWithWillMessage => 0x04,
            ReasonPhrases::NoMatchingSubscribers => 0x10,
            ReasonPhrases::NoSubscriptionExisted => 0x11,
            ReasonPhrases::ContinueAuthentication => 0x18,
            ReasonPhrases::ReAuthenticate => 0x19,
            ReasonPhrases::UnspecifiedError => 0x80,
            ReasonPhrases::MalformedPacket => 0x81,
            ReasonPhrases::ProtocolError => 0x82,
            ReasonPhrases::ImplementationSpecificError => 0x83,
            ReasonPhrases::UnsupportedProtocolVersion => 0x84,
            ReasonPhrases::ClientIdentifierNotValid => 0x85,
            ReasonPhrases::BadUserNameOrPassword => 0x86,
            ReasonPhrases::NotAuthorized => 0x87,
            ReasonPhrases::ServerUnavailable => 0x88,
            ReasonPhrases::ServerBusy => 0x89,
            ReasonPhrases::Banned => 0x8A,
            ReasonPhrases::ServerShuttingDown => 0x8B,
            ReasonPhrases::BadAuthenticationMethod => 0x8C,
            ReasonPhrases::KeepAliveTimeout => 0x8D,
            ReasonPhrases::SessionTakenOver => 0x8E,
            ReasonPhrases::TopicFilterInvalid => 0x8F,
            ReasonPhrases::TopicNameInvalid => 0x90,
            ReasonPhrases::PacketIdentifierInUse => 0x91,
            ReasonPhrases::PacketIdentifierNotFound => 0x92,
            ReasonPhrases::ReceiveMaximumExceeded => 0x93,
            ReasonPhrases::TopicAliasInvalid => 0x94,
            ReasonPhrases::PacketTooLarge => 0x95,
            ReasonPhrases::MessageRateTooHigh => 0x96,
            ReasonPhrases::QuotaExceeded => 0x97,
            ReasonPhrases::AdministrativeAction => 0x98,
            ReasonPhrases::PayloadFormatInvalid => 0x99,
            ReasonPhrases::RetainNotSupported => 0x9A,
            ReasonPhrases::QosNotSupported => 0x9B,
            ReasonPhrases::UseAnotherServer => 0x9C,
            ReasonPhrases::ServerMoved => 0x9D,
            ReasonPhrases::SharedSubscriptionsNotSupported => 0x9E,
            ReasonPhrases::ConnectionRateExceeded => 0x9F,
            ReasonPhrases::MaximumConnectTime => 0xA0,
            ReasonPhrases::SubscriptionIdentifiersNotSupported => 0xA1,
            ReasonPhrases::WildcardSubscriptionsNotSupported => 0xA2,
        }
    }

    pub fn from_num(n: u8) -> (r: Option<ReasonPhrases>)
        ensures
            r == spec_phrase_of_num(n),
            r matches Some(c) ==> spec_phrase_num(c) == n,
    {
        match n {
            0x00 => Some(ReasonPhrases::Success),
            0x04 => Some(ReasonPhrases::DisconnectWithWillMessage),
            0x10 => Some(ReasonPhrases::NoMatchingSubscribers),
            0x11 => Some(ReasonPhrases::NoSubscriptionExisted),
            0x18 => Some(ReasonPhrases::ContinueAuthentication),
            0x19 => Some(ReasonPhrases::ReAuthenticate),
            0x80 => Some(ReasonPhrases::UnspecifiedError),
            0x81 => Some(ReasonPhrases::MalformedPacket),
            0x82 => Some(ReasonPhrases::ProtocolError),
            0x83 => Some(ReasonPhrases::ImplementationSpecificError),
            0x84 => Some(ReasonPhrases::UnsupportedProtocolVersion),
            0x85 => Some(ReasonPhrases::ClientIdentifierNotValid),
            0x86 => Some(ReasonPhrases::BadUserNameOrPassword),
            0x87 => Some(ReasonPhrases::NotAuthorized),
            0x88 => Some(ReasonPhrases::ServerUnavailable),
            0x89 => Some(ReasonPhrases::ServerBusy),
            0x8A => Some(ReasonPhrases::Banned),
            0x8B => Some(ReasonPhrases::ServerShuttingDown),
            0x8C => Some(ReasonPhrases::BadAuthenticationMethod),
            0x8D => Some(ReasonPhrases::KeepAliveTimeout),
            0x8E => Some(ReasonPhrases::SessionTakenOver),
            0x8F => Some(ReasonPhrases::TopicFilterInvalid),
            0x90 => Some(ReasonPhrases::TopicNameInvalid),
            0x91 => Some(ReasonPhrases::PacketIdentifierInUse),
            0x92 => Some(ReasonPhrases::PacketIdentifierNotFound),
            0x93 => Some(ReasonPhrases::ReceiveMaximumExceeded),
            0x94 => Some(ReasonPhrases::TopicAliasInvalid),
            0x95 => Some(ReasonPhrases::PacketTooLarge),
            0x96 => Some(ReasonPhrases::MessageRateTooHigh),
            0x97 => Some(ReasonPhrases::QuotaExceeded),
            0x98 => Some(ReasonPhrases::AdministrativeAction),
            0x99 => Some(ReasonPhrases::PayloadFormatInvalid),
            0x9A => Some(ReasonPhrases::RetainNotSupported),
            0x9B => Some(ReasonPhrases::QosNotSupported),
            0x9C => Some(ReasonPhrases::UseAnotherServer),
            0x9D => Some(ReasonPhrases::ServerMoved),
            0x9E => Some(ReasonPhrases::SharedSubscriptionsNotSupported),
            0x9F => Some(ReasonPhrases::ConnectionRateExceeded),
            0xA0 => Some(ReasonPhrases::MaximumConnectTime),
            0xA1 => Some(ReasonPhrases::SubscriptionIdentifiersNotSupported),
            0xA2 => Some(ReasonPhrases::WildcardSubscriptionsNotSupported),
            _ => None,
        }
    }
}

/// A v5 reason code: either a granted quality of service or a reason phrase.
#[derive(Debug, Copy, Clone, PartialEq, Eq, Structural)]
pub enum ReasonCodeV5 {
    Qos(MqttQos),
    ReasonPhrases(ReasonPhrases),
}

/// The wire byte of a v5 reason code of either shape.
pub open spec fn spec_v5_code_num(c: ReasonCodeV5) -> u8 {
    match c {
        ReasonCodeV5::Qos(q) => spec_qos_num(q),
        ReasonCodeV5::ReasonPhrases(p) => spec_phrase_num(p),
    }
}

/// The description of a v5 reason code of either shape.
pub open spec fn spec_v5_code_text(c: ReasonCodeV5) -> Seq<char> {
    match c {
        ReasonCodeV5::Qos(q) => spec_qos_name(q),
        ReasonCodeV5::ReasonPhrases(p) => spec_phrase_text(p),
    }
}

impl ReasonCodeV5 {
    pub fn as_str(&self) -> (r: &'static str)
        ensures
            r@ == spec_v5_code_text(*self),
    {
        match self {
            ReasonCodeV5::Qos(mq) => mq.as_str(),
            ReasonCodeV5::ReasonPhrases(rp) => rp.as_str(),
        }
    }

    pub fn as_byte(&self) -> (r: u8)
        ensures
            r == spec_v5_code_num(*self),
    {
        match self {
            ReasonCodeV5::Qos(mq) => mq.as_byte(),
            ReasonCodeV5::ReasonPhrases(rp) => rp.as_byte(),
        }
    }
}

/// A return or reason code of either protocol version.
#[derive(Debug, Copy, Clone, PartialEq, Eq, Structural)]
pub enum ReasonCodes {
    V3(ReasonCodeV3),
    V5(ReasonCodeV5),
}

/// The wire byte of a return or reason code of either version.
pub open spec fn spec_codes_num(c: ReasonCodes) -> u8 {
    match c {
        ReasonCodes::V3(v) => spec_v3_code_num(v),
        ReasonCodes::V5(v) => spec_v5_code_num(v),
    }
}

/// The description of a return or reason code of either version.
pub open spec fn spec_codes_text(c: ReasonCodes) -> Seq<char> {
    match c {
        ReasonCodes::V3(v) => spec_v3_code_text(v),
        ReasonCodes::V5(v) => spec_v5_code_text(v),
    }
}

impl ReasonCodes {
    pub fn is_v3(&self) -> (r: bool)
        ensures
            r == (self matches ReasonCodes::V3(_)),
    {
        matches!(self, ReasonCodes::V3(_))
    }

    pub fn is_v5(&self) -> (r: bool)
        ensures
            r == (self matches ReasonCodes::V5(_)),
    {
        matches!(self, ReasonCodes::V5(_))
    }

    pub fn as_str(&self) -> (r: &'static str)
        ensures
            r@ == spec_codes_text(*self),
    {
        match self {
            ReasonCodes::V3(code) => code.as_str(),
            ReasonCodes::V5(code) => code.as_str(),
        }
    }

    pub fn as_byte(&self) -> (r: u8)
        ensures
            r == spec_codes_num(*self),
    {
        match self {
            ReasonCodes::V3(code) => code.as_byte(),
            ReasonCodes::V5(code) => code.as_byte(),
        }
    }
}

} // verus!
