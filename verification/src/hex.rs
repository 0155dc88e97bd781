use vstd::prelude::*;
use vstd::seq_lib::*;
use vstd::slice::{slice_subrange, slice_to_vec};
use vstd::utf8::encode_utf8;
use crate::pack_tool::{spec_short, spec_long, spec_varint, spec_string_bytes};
use crate::un_pack_tool::{spec_be16, spec_be32, spec_parse_string, spec_varint_decode};

pub mod pack_property;
pub mod un_pack_property;

verus! {

/// The property identifiers of MQTT 5.0.
#[derive(Debug, Copy, Clone, PartialEq, Eq, Structural)]
pub enum Property {
    PayloadFormatIndicator,
    MessageExpiryInterval,
    ContentType,
    ResponseTopic,
    CorrelationData,
    SubscriptionIdentifier,
    SessionExpiryInterval,
    AssignedClientIdentifier,
    ServerKeepAlive,
    AuthenticationMethod,
    AuthenticationData,
    RequestProblemInformation,
    WillDelayInterval,
    RequestResponseInformation,
    ResponseInformation,
    ServerReference,
    ReasonString,
    ReceiveMaximum,
    TopicAliasMaximum,
    TopicAlias,
    MaximumQos,
    RetainAvailable,
    UserProperty,
    MaximumPacketSize,
    WildcardSubscriptionAvailable,
    SubscriptionIdentifierAvailable,
    SharedSubscriptionAvailable,
}

/// The wire byte of a property identifier.
pub open spec fn spec_property_num(p: Property) -> u8 {
    match p {
        Property::PayloadFormatIndicator => 0x01,
        Property::MessageExpiryInterval => 0x02,
        Property::ContentType => 0x03,
        Property::ResponseTopic => 0x08,
        Property::CorrelationData => 0x09,
        Property::SubscriptionIdentifier => 0x0B,
        Property::SessionExpiryInterval => 0x11,
        Property::AssignedClientIdentifier => 0x12,
        Property::ServerKeepAlive => 0x13,
        Property::AuthenticationMethod => 0x15,
        Property::AuthenticationData => 0x16,
        Property::RequestProblemInformation => 0x17,
        Property::WillDelayInterval => 0x18,
        Property::RequestResponseInformation => 0x19,
        Property::ResponseInformation => 0x1A,
        Property::ServerReference => 0x1C,
        Property::ReasonString => 0x1F,
        Property::ReceiveMaximum => 0x21,
        Property::TopicAliasMaximum => 0x22,
        Property::TopicAlias => 0x23,
        Property::MaximumQos => 0x24,
        Property::RetainAvailable => 0x25,
        Property::UserProperty => 0x26,
        Property::MaximumPacketSize => 0x27,
        Property::WildcardSubscriptionAvailable => 0x28,
        Property::SubscriptionIdentifierAvailable => 0x29,
        Property::SharedSubscriptionAvailable => 0x2A,
    }
}

/// The property with the given wire byte, if any.
pub open spec fn spec_property_of_num(n: u8) -> Option<Property> {
    if n == 0x01 {
        Some(Property::PayloadFormatIndicator)
    } else if n == 0x02 {
        Some(Property::MessageExpiryInterval)
    } else if n == 0x03 {
        Some(Property::ContentType)
    } else if n == 0x08 {
        Some(Property::ResponseTopic)
    } else if n == 0x09 {
        Some(Property::CorrelationData)
    } else if n == 0x0B {
        Some(Property::SubscriptionIdentifier)
    } else if n == 0x11 {
        Some(Property::SessionExpiryInterval)
    } else if n == 0x12 {
        Some(Property::AssignedClientIdentifier)
    } else if n == 0x13 {
        Some(Property::ServerKeepAlive)
    } else if n == 0x15 {
        Some(Property::AuthenticationMethod)
    } else if n == 0x16 {
        Some(Property::AuthenticationData)
    } else if n == 0x17 {
        Some(Property::RequestProblemInformation)
    } else if n == 0x18 {
        Some(Property::WillDelayInterval)
    } else if n == 0x19 {
        Some(Property::RequestResponseInformation)
    } else if n == 0x1A {
        Some(Property::ResponseInformation)
    } else if n == 0x1C {
        Some(Property::ServerReference)
    } else if n == 0x1F {
        Some(Property::ReasonString)
    } else if n == 0x21 {
        Some(Property::ReceiveMaximum)
    } else if n == 0x22 {
        Some(Property::TopicAliasMaximum)
    } else if n == 0x23 {
        Some(Property::TopicAlias)
    } else if n == 0x24 {
        Some(Property::MaximumQos)
    } else if n == 0x25 {
        Some(Property::RetainAvailable)
    } else if n == 0x26 {
        Some(Property::UserProperty)
    } else if n == 0x27 {
        Some(Property::MaximumPacketSize)
    } else if n == 0x28 {
        Some(Property::WildcardSubscriptionAvailable)
    } else if n == 0x29 {
        Some(Property::SubscriptionIdentifierAvailable)
    } else if n == 0x2A {
        Some(Property::SharedSubscriptionAvailable)
    } else {
        None
    }
}

/// The name of a property.
pub open spec fn spec_property_name(p: Property) -> Seq<char> {
    match p {
        Property::PayloadFormatIndicator => "payload_format_indicator"@,
        Property::MessageExpiryInterval => "message_expiry_interval"@,
        Property::ContentType => "content_type"@,
        Property::ResponseTopic => "response_topic"@,
        Property::CorrelationData => "correlation_data"@,
        Property::SubscriptionIdentifier => "subscription_identifier"@,
        Property::SessionExpiryInterval => "session_expiry_interval"@,
        Property::AssignedClientIdentifier => "assigned_client_identifier"@,
        Property::ServerKeepAlive => "server_keep_alive"@,
        Property::AuthenticationMethod => "authentication_method"@,
        Property::AuthenticationData => "authentication_data"@,
        Property::RequestProblemInformation => "request_problem_information"@,
        Property::WillDelayInterval => "will_delay_interval"@,
        Property::RequestResponseInformation => "request_response_information"@,
        Property::ResponseInformation => "response_information"@,
        Property::ServerReference => "server_reference"@,
        Property::ReasonString => "reason_string"@,
        Property::ReceiveMaximum => "receive_maximum"@,
        Property::TopicAliasMaximum => "topic_alias_maximum"@,
        Property::TopicAlias => "topic_alias"@,
        Property::MaximumQos => "maximum_qos"@,
        Property::RetainAvailable => "retain_available"@,
        Property::UserProperty => "user_property"@,
        Property::MaximumPacketSize => "maximum_packet_size"@,
        Property::WildcardSubscriptionAvailable => "wildcard_subscription_available"@,
        Property::SubscriptionIdentifierAvailable => "subscription_identifier_available"@,
        Property::SharedSubscriptionAvailable => "shared_subscription_available"@,
    }
}

/// Properties a CONNECT packet accepts.
pub open spec fn spec_is_connect_property(p: Property) -> bool {
    match p {
        Property::SessionExpiryInterval
        | Property::AuthenticationMethod
        | Property::AuthenticationData
        | Property::RequestProblemInformation
        | Property::RequestResponseInformation
        | Property::ReceiveMaximum
        | Property::TopicAlias
        | Property::UserProperty
        | Property::MaximumPacketSize => true,
        _ => false,
    }
}

/// Properties a CONNACK packet accepts.
pub open spec fn spec_is_connack_property(p: Property) -> bool {
    match p {
        Property::SessionExpiryInterval
        | Property::AssignedClientIdentifier
        | Property::ServerKeepAlive
        | Property::AuthenticationMethod
        | Property::AuthenticationData
        | Property::ResponseInformation
        | Property::ServerReference
        | Property::ReasonString
        | Property::ReceiveMaximum
        | Property::TopicAliasMaximum
        | Property::MaximumQos
        | Property::RetainAvailable
        | Property::UserProperty
        | Property::MaximumPacketSize
        | Property::WildcardSubscriptionAvailable
        | Property::SubscriptionIdentifierAvailable
        | Property::SharedSubscriptionAvailable => true,
        _ => false,
    }
}

/// Properties a PUBLISH packet accepts.
pub open spec fn spec_is_publish_property(p: Property) -> bool {
    match p {
        Property::PayloadFormatIndicator
        | Property::MessageExpiryInterval
        | Property::ContentType
        | Property::ResponseTopic
        | Property::CorrelationData
        | Property::SubscriptionIdentifier
        | Property::TopicAlias
        | Property::UserProperty => true,
        _ => false,
    }
}

/// Properties the acknowledgment packets and SUBACK accept.
pub open spec fn spec_is_pub_and_sub_property(p: Property) -> bool {
    match p {
        Property::ReasonString
        | Property::UserProperty => true,
        _ => false,
    }
}

/// Properties a SUBSCRIBE packet accepts.
pub open spec fn spec_is_subscribe_property(p: Property) -> bool {
    match p {
        Property::SubscriptionIdentifier
        | Property::UserProperty => true,
        _ => false,
    }
}

/// Properties an UNSUBSCRIBE packet accepts.
pub open spec fn spec_is_unsubscribe_property(p: Property) -> bool {
    match p {
        Property::UserProperty => true,
        _ => false,
    }
}

/// Properties a DISCONNECT packet accepts.
pub open spec fn spec_is_disconnect_property(p: Property) -> bool {
    match p {
        Property::SessionExpiryInterval
        | Property::ServerReference
        | Property::ReasonString
        | Property::UserProperty => true,
        _ => false,
    }
}

/// Properties an AUTH packet accepts.
pub open spec fn spec_is_auth_property(p: Property) -> bool {
    match p {
        Property::AuthenticationMethod
        | Property::AuthenticationData
        | Property::ReasonString
        | Property::UserProperty => true,
        _ => false,
    }
}

/// Properties the will block of a CONNECT payload accepts.
pub open spec fn spec_is_will_property(p: Property) -> bool {
    match p {
        Property::PayloadFormatIndicator
        | Property::MessageExpiryInterval
        | Property::ContentType
        | Property::ResponseTopic
        | Property::CorrelationData
        | Property::WillDelayInterval
        | Property::UserProperty => true,
        _ => false,
    }
}

impl Property {
    pub fn as_str(&self) -> (r: &'static str)
        ensures
            r@ == spec_property_name(*self),
    {
        match *self {
            Property::PayloadFormatIndicator => "payload_format_indicator",
            Property::MessageExpiryInterval => "message_expiry_interval",
            Property::ContentType => "content_type",
            Property::ResponseTopic => "response_topic",
            Property::CorrelationData => "correlation_data",
            Property::SubscriptionIdentifier => "subscription_identifier",
            Property::SessionExpiryInterval => "session_expiry_interval",
            Property::AssignedClientIdentifier => "assigned_client_identifier",
            Property::ServerKeepAlive => "server_keep_alive",
            Property::AuthenticationMethod => "authentication_method",
            Property::AuthenticationData => "authentication_data",
            Property::RequestProblemInformation => "request_problem_information",
            Property::WillDelayInterval => "will_delay_interval",
            Property::RequestResponseInformation => "request_response_information",
            Property::ResponseInformation => "response_information",
            Property::ServerReference => "server_reference",
            Property::ReasonString => "reason_string",
            Property::ReceiveMaximum => "receive_maximum",
            Property::TopicAliasMaximum => "topic_alias_maximum",
            Property::TopicAlias => "topic_alias",
            Property::MaximumQos => "maximum_qos",
            Property::RetainAvailable => "retain_available",
            Property::UserProperty => "user_property",
            Property::MaximumPacketSize => "maximum_packet_size",
            Property::WildcardSubscriptionAvailable => "wildcard_subscription_available",
            Property::SubscriptionIdentifierAvailable => "subscription_identifier_available",
            Property::SharedSubscriptionAvailable => "shared_subscription_available",
        }
    }

    /// The wire byte of this property identifier.
    pub fn as_num(&self) -> (r: u8)
        ensures
            r == spec_property_num(*self),
    {
        match *self {
            Property::PayloadFormatIndicator => 0x01,
            Property::MessageExpiryInterval => 0x02,
            Property::ContentType => 0x03,
            Property::ResponseTopic => 0x08,
            Property::CorrelationData => 0x09,
            Property::SubscriptionIdentifier => 0x0B,
            Property::SessionExpiryInterval => 0x11,
            Property::AssignedClientIdentifier => 0x12,
            Property::ServerKeepAlive => 0x13,
            Property::AuthenticationMethod => 0x15,
            Property::AuthenticationData => 0x16,
            Property::RequestProblemInformation => 0x17,
            Property::WillDelayInterval => 0x18,
            Property::RequestResponseInformation => 0x19,
            Property::ResponseInformation => 0x1A,
            Property::ServerReference => 0x1C,
            Property::ReasonString => 0x1F,
            Property::ReceiveMaximum => 0x21,
            Property::TopicAliasMaximum => 0x22,
            Property::TopicAlias => 0x23,
            Property::MaximumQos => 0x24,
            Property::RetainAvailable => 0x25,
            Property::UserProperty => 0x26,
            Property::MaximumPacketSize => 0x27,
            Property::WildcardSubscriptionAvailable => 0x28,
            Property::SubscriptionIdentifierAvailable => 0x29,
            Property::SharedSubscriptionAvailable => 0x2A,
        }
    }

    /// The property identifier with the given wire byte, if any.
    pub fn from_num(n: u8) -> (r: Option<Property>)
        ensures
            r == spec_property_of_num(n),
            r matches Some(p) ==> spec_property_num(p) == n,
    {
        match n {
            0x01 => Some(Property::PayloadFormatIndicator),
            0x02 => Some(Property::MessageExpiryInterval),
            0x03 => Some(Property::ContentType),
            0x08 => Some(Property::ResponseTopic),
            0x09 => Some(Property::CorrelationData),
            0x0B => Some(Property::SubscriptionIdentifier),
            0x11 => Some(Property::SessionExpiryInterval),
            0x12 => Some(Property::AssignedClientIdentifier),
            0x13 => Some(Property::ServerKeepAlive),
            0x15 => Some(Property::AuthenticationMethod),
            0x16 => Some(Property::AuthenticationData),
            0x17 => Some(Property::RequestProblemInformation),
            0x18 => Some(Property::WillDelayInterval),
            0x19 => Some(Property::RequestResponseInformation),
            0x1A => Some(Property::ResponseInformation),
            0x1C => Some(Property::ServerReference),
            0x1F => Some(Property::ReasonString),
            0x21 => Some(Property::ReceiveMaximum),
            0x22 => Some(Property::TopicAliasMaximum),
            0x23 => Some(Property::TopicAlias),
            0x24 => Some(Property::MaximumQos),
            0x25 => Some(Property::RetainAvailable),
            0x26 => Some(Property::UserProperty),
            0x27 => Some(Property::MaximumPacketSize),
            0x28 => Some(Property::WildcardSubscriptionAvailable),
            0x29 => Some(Property::SubscriptionIdentifierAvailable),
            0x2A => Some(Property::SharedSubscriptionAvailable),
            _ => None,
        }
    }

    pub fn is_connect_property(&self) -> (r: bool)
        ensures
            r == spec_is_connect_property(*self),
    {
        match self {
            Property::SessionExpiryInterval
            | Property::AuthenticationMethod
            | Property::AuthenticationData
            | Property::RequestProblemInformation
            | Property::RequestResponseInformation
            | Property::ReceiveMaximum
            | Property::TopicAlias
            | Property::UserProperty
            | Property::MaximumPacketSize => true,
            _ => false,
        }
    }

    pub fn is_connack_property(&self) -> (r: bool)
        ensures
            r == spec_is_connack_property(*self),
    {
        match self {
            Property::SessionExpiryInterval
            | Property::AssignedClientIdentifier
            | Property::ServerKeepAlive
            | Property::AuthenticationMethod
            | Property::AuthenticationData
            | Property::ResponseInformation
            | Property::ServerReference
            | Property::ReasonString
            | Property::ReceiveMaximum
            | Property::TopicAliasMaximum
            | Property::MaximumQos
            | Property::RetainAvailable
            | Property::UserProperty
            | Property::MaximumPacketSize
            | Property::WildcardSubscriptionAvailable
            | Property::SubscriptionIdentifierAvailable
            | Property::SharedSubscriptionAvailable => true,
            _ => false,
        }
    }

    pub fn is_publish_property(&self) -> (r: bool)
        ensures
            r == spec_is_publish_property(*self),
    {
        match self {
            Property::PayloadFormatIndicator
            | Property::MessageExpiryInterval
            | Property::ContentType
            | Property::ResponseTopic
            | Property::CorrelationData
            | Property::SubscriptionIdentifier
            | Property::TopicAlias
            | Property::UserProperty => true,
            _ => false,
        }
    }

    pub fn is_pub_and_sub_property(&self) -> (r: bool)
        ensures
            r == spec_is_pub_and_sub_property(*self),
    {
        match self {
            Property::ReasonString
            | Property::UserProperty => true,
            _ => false,
        }
    }

    pub fn is_subscribe_property(&self) -> (r: bool)
        ensures
            r == spec_is_subscribe_property(*self),
    {
        match self {
            Property::SubscriptionIdentifier
            | Property::UserProperty => true,
            _ => false,
        }
    }

    pub fn is_unsubscribe_property(&self) -> (r: bool)
        ensures
            r == spec_is_unsubscribe_property(*self),
    {
        match self {
            Property::UserProperty => true,
            _ => false,
        }
    }

    pub fn is_disconnect_property(&self) -> (r: bool)
        ensures
            r == spec_is_disconnect_property(*self),
    {
        match self {
            Property::SessionExpiryInterval
            | Property::ServerReference
            | Property::ReasonString
            | Property::UserProperty => true,
            _ => false,
        }
    }

    pub fn is_auth_property(&self) -> (r: bool)
        ensures
            r == spec_is_auth_property(*self),
    {
        match self {
            Property::AuthenticationMethod
            | Property::AuthenticationData
            | Property::ReasonString
            | Property::UserProperty => true,
            _ => false,
        }
    }

    pub fn is_will_property(&self) -> (r: bool)
        ensures
            r == spec_is_will_property(*self),
    {
        match self {
            Property::PayloadFormatIndicator
            | Property::MessageExpiryInterval
            | Property::ContentType
            | Property::ResponseTopic
            | Property::CorrelationData
            | Property::WillDelayInterval
            | Property::UserProperty => true,
            _ => false,
        }
    }

}

/// A property value: the wire shape is fixed by the property identifier.
#[derive(Debug, Clone)]
pub enum PropertyValue {
    Long(u32),
    Short(u16),
    Byte(u8),
    String(String),
    Pair(String, String),
    VarInt(u32),
}

/// The mathematical shape of a property value.
pub ghost enum PropertyValueModel {
    Long(u32),
    Short(u16),
    Byte(u8),
    String(Seq<char>),
    Pair(Seq<char>, Seq<char>),
    VarInt(u32),
}

impl View for PropertyValue {
    type V = PropertyValueModel;

    open spec fn view(&self) -> PropertyValueModel {
        match self {
            PropertyValue::Long(v) => PropertyValueModel::Long(*v),
            PropertyValue::Short(v) => PropertyValueModel::Short(*v),
            PropertyValue::Byte(v) => PropertyValueModel::Byte(*v),
            PropertyValue::String(s) => PropertyValueModel::String(s@),
            PropertyValue::Pair(k, v) => PropertyValueModel::Pair(k@, v@),
            PropertyValue::VarInt(v) => PropertyValueModel::VarInt(*v),
        }
    }
}

/// One property: an identifier and its value.
#[derive(Debug, Clone)]
pub struct PropertyItem(pub Property, pub PropertyValue);

/// The mathematical shape of one property.
pub ghost struct PropertyItemModel {
    pub id: Property,
    pub value: PropertyValueModel,
}

impl View for PropertyItem {
    type V = PropertyItemModel;

    open spec fn view(&self) -> PropertyItemModel {
        PropertyItemModel { id: self.0, value: self.1@ }
    }
}

impl PropertyItem {
    pub fn as_long(&self) -> (r: Option<u32>)
        ensures
            r matches Some(v) ==> self.1@ == PropertyValueModel::Long(v),
            r is None ==> !(self.1@ is Long),
    {
        match self.1 {
            PropertyValue::Long(val) => Some(val),
            _ => None,
        }
    }

    pub fn as_short(&self) -> (r: Option<u16>)
        ensures
            r matches Some(v) ==> self.1@ == PropertyValueModel::Short(v),
            r is None ==> !(self.1@ is Short),
    {
        match self.1 {
            PropertyValue::Short(val) => Some(val),
            _ => None,
        }
    }

    pub fn as_byte(&self) -> (r: Option<u8>)
        ensures
            r matches Some(v) ==> self.1@ == PropertyValueModel::Byte(v),
            r is None ==> !(self.1@ is Byte),
    {
        match self.1 {
            PropertyValue::Byte(val) => Some(val),
            _ => None,
        }
    }

    pub fn as_str(&self) -> (r: Option<&String>)
        ensures
            r matches Some(v) ==> self.1@ == PropertyValueModel::String(v@),
            r is None ==> !(self.1@ is String),
    {
        match self.1 {
            PropertyValue::String(ref val) => Some(val),
            _ => None,
        }
    }

    pub fn as_map(&self) -> (r: Option<(&String, &String)>)
        ensures
            r matches Some(v) ==> self.1@ == PropertyValueModel::Pair(v.0@, v.1@),
            r is None ==> !(self.1@ is Pair),
    {
        match self.1 {
            PropertyValue::Pair(ref key, ref value) => Some((key, value)),
            _ => None,
        }
    }

    pub fn as_var_int(&self) -> (r: Option<u32>)
        ensures
            r matches Some(v) ==> self.1@ == PropertyValueModel::VarInt(v),
            r is None ==> !(self.1@ is VarInt),
    {
        match self.1 {
            PropertyValue::VarInt(val) => Some(val),
            _ => None,
        }
    }
}

/// Whether a property value has the wire shape its identifier fixes.
pub open spec fn spec_property_value_fits(m: PropertyItemModel) -> bool {
    match m.id {
        Property::SessionExpiryInterval | Property::MessageExpiryInterval | Property::WillDelayInterval | Property::MaximumPacketSize => m.value is Long,
        Property::ContentType | Property::ResponseTopic | Property::CorrelationData | Property::AssignedClientIdentifier | Property::ResponseInformation | Property::ServerReference | Property::ReasonString | Property::AuthenticationMethod | Property::AuthenticationData => m.value matches PropertyValueModel::String(s) && encode_utf8(s).len() <= 65535,
        Property::PayloadFormatIndicator | Property::MaximumQos | Property::RetainAvailable | Property::WildcardSubscriptionAvailable | Property::SubscriptionIdentifierAvailable | Property::SharedSubscriptionAvailable | Property::RequestProblemInformation | Property::RequestResponseInformation => m.value is Byte,
        Property::ServerKeepAlive | Property::ReceiveMaximum | Property::TopicAlias | Property::TopicAliasMaximum => m.value is Short,
        Property::UserProperty => m.value matches PropertyValueModel::Pair(k, v) && encode_utf8(
            k,
        ).len() <= 65535 && encode_utf8(v).len() <= 65535,
        Property::SubscriptionIdentifier => m.value matches PropertyValueModel::VarInt(v) && v
            <= crate::varint_max(),
    }
}

/// The wire bytes of one property: its identifier byte, then its value in the
/// shape the identifier fixes.
pub open spec fn spec_property_bytes(m: PropertyItemModel) -> Seq<u8> {
    seq![spec_property_num(m.id)] + match m.value {
        PropertyValueModel::Long(v) => spec_long(v),
        PropertyValueModel::Short(v) => spec_short(v),
        PropertyValueModel::Byte(v) => seq![v],
        PropertyValueModel::String(s) => spec_string_bytes(s),
        PropertyValueModel::Pair(k, v) => spec_string_bytes(k) + spec_string_bytes(v),
        PropertyValueModel::VarInt(v) => spec_varint(v as nat),
    }
}

/// The wire bytes of a property list, in declaration order.
pub open spec fn spec_properties_bytes(items: Seq<PropertyItemModel>) -> Seq<u8>
    decreases items.len(),
{
    if items.len() == 0 {
        Seq::empty()
    } else {
        spec_property_bytes(items[0]) + spec_properties_bytes(items.skip(1))
    }
}

/// The view of a property list.
pub open spec fn items_view(v: Seq<PropertyItem>) -> Seq<PropertyItemModel> {
    v.map(|i: int, p: PropertyItem| p@)
}

/// Whether every property of a list fits its wire shape.
pub open spec fn spec_props_fit(s: Seq<PropertyItemModel>) -> bool {
    forall|i: int| 0 <= i < s.len() ==> spec_property_value_fits(#[trigger] s[i])
}

/// Whether every property of an optional list fits its wire shape.
pub open spec fn spec_opt_props_fit(ps: Option<Seq<PropertyItemModel>>) -> bool {
    match ps {
        Some(s) => spec_props_fit(s),
        None => true,
    }
}

/// When every mapped property fits its wire shape, so does each list entry.
pub proof fn lemma_items_view_fits(v: Seq<PropertyItem>)
    requires
        spec_opt_props_fit(Some(items_view(v))),
    ensures
        forall|i: int| 0 <= i < v.len() ==> spec_property_value_fits(#[trigger] v[i]@),
{
    assert(spec_props_fit(items_view(v)));
    assert(items_view(v).len() == v.len());
    assert forall|i: int| 0 <= i < v.len() implies spec_property_value_fits(#[trigger] v[i]@) by {
        assert(items_view(v)[i] == v[i]@);
        assert(spec_property_value_fits(items_view(v)[i]));
    }
}

/// Which packet kind's property rule a codec call applies.
#[derive(Debug, Copy, Clone, PartialEq, Eq, Structural)]
pub enum PropertyFilter {
    Connect,
    Connack,
    Publish,
    PubAndSub,
    Subscribe,
    Unsubscribe,
    Disconnect,
    Auth,
    Will,
}

/// Whether a property is accepted under the given rule.
pub open spec fn spec_filter_allows(f: PropertyFilter, p: Property) -> bool {
    match f {
        PropertyFilter::Connect => spec_is_connect_property(p),
        PropertyFilter::Connack => spec_is_connack_property(p),
        PropertyFilter::Publish => spec_is_publish_property(p),
        PropertyFilter::PubAndSub => spec_is_pub_and_sub_property(p),
        PropertyFilter::Subscribe => spec_is_subscribe_property(p),
        PropertyFilter::Unsubscribe => spec_is_unsubscribe_property(p),
        PropertyFilter::Disconnect => spec_is_disconnect_property(p),
        PropertyFilter::Auth => spec_is_auth_property(p),
        PropertyFilter::Will => spec_is_will_property(p),
    }
}

/// Whether a property is accepted under the given rule.
pub fn filter_allows(f: PropertyFilter, p: Property) -> (r: bool)
    ensures
        r == spec_filter_allows(f, p),
{
    match f {
        PropertyFilter::Connect => p.is_connect_property(),
        PropertyFilter::Connack => p.is_connack_property(),
        PropertyFilter::Publish => p.is_publish_property(),
        PropertyFilter::PubAndSub => p.is_pub_and_sub_property(),
        PropertyFilter::Subscribe => p.is_subscribe_property(),
        PropertyFilter::Unsubscribe => p.is_unsubscribe_property(),
        PropertyFilter::Disconnect => p.is_disconnect_property(),
        PropertyFilter::Auth => p.is_auth_property(),
        PropertyFilter::Will => p.is_will_property(),
    }
}

/// The wire bytes of a property block: the properties that the rule accepts,
/// in order, behind their total byte length as a variable byte integer.
pub open spec fn spec_property_block_bytes(items: Seq<PropertyItemModel>, f: PropertyFilter) -> Seq<
    u8,
> {
    let kept = items.filter(|m: PropertyItemModel| spec_filter_allows(f, m.id));
    spec_varint(spec_properties_bytes(kept).len()) + spec_properties_bytes(kept)
}

/// Parsing of one property value, of the wire shape its identifier fixes: the
/// value and the count of bytes consumed.
pub open spec fn spec_parse_property_value(id: Property, b: Seq<u8>) -> Option<
    (PropertyValueModel, int),
> {
    match id {
        Property::SessionExpiryInterval
        | Property::MessageExpiryInterval
        | Property::WillDelayInterval
        | Property::MaximumPacketSize => if b.len() >= 4 {
            Some((PropertyValueModel::Long(spec_be32(b)), 4))
        } else {
            None
        },
        Property::ContentType
        | Property::ResponseTopic
        | Property::CorrelationData
        | Property::AssignedClientIdentifier
        | Property::ResponseInformation
        | Property::ServerReference
        | Property::ReasonString
        | Property::AuthenticationMethod
        | Property::AuthenticationData => match spec_parse_string(b) {
            Some((s, c)) => Some((PropertyValueModel::String(s), c)),
            None => None,
        },
        Property::PayloadFormatIndicator
        | Property::MaximumQos
        | Property::RetainAvailable
        | Property::WildcardSubscriptionAvailable
        | Property::SubscriptionIdentifierAvailable
        | Property::SharedSubscriptionAvailable
        | Property::RequestProblemInformation
        | Property::RequestResponseInformation => if b.len() >= 1 {
            Some((PropertyValueModel::Byte(b[0]), 1))
        } else {
            None
        },
        Property::ServerKeepAlive
        | Property::ReceiveMaximum
        | Property::TopicAlias
        | Property::TopicAliasMaximum => if b.len() >= 2 {
            Some((PropertyValueModel::Short(spec_be16(b)), 2))
        } else {
            None
        },
        Property::UserProperty => match spec_parse_string(b) {
            Some((k, c1)) => match spec_parse_string(b.skip(c1)) {
                Some((v, c2)) => Some((PropertyValueModel::Pair(k, v), c1 + c2)),
                None => None,
            },
            None => None,
        },
        Property::SubscriptionIdentifier => match spec_varint_decode(b) {
            Some((v, c)) => Some((PropertyValueModel::VarInt(v as u32), c as int)),
            None => None,
        },
    }
}

/// Parsing of a property block of `remaining` bytes under the given rule:
/// accepted properties are kept in order, others are consumed and dropped;
/// an unknown identifier or a truncated value is a parse failure.
pub open spec fn spec_unpack_properties(b: Seq<u8>, remaining: nat, f: PropertyFilter) -> Option<
    Seq<PropertyItemModel>,
>
    decreases remaining,
{
    if remaining == 0 {
        Some(Seq::empty())
    } else if b.len() == 0 {
        None
    } else {
        match spec_property_of_num(b[0]) {
            None => None,
            Some(id) => match spec_parse_property_value(id, b.skip(1)) {
                None => None,
                Some((v, c)) => if c < 0 || 1 + c > remaining {
                    None
                } else {
                    match spec_unpack_properties(b.skip(1 + c), (remaining - 1 - c) as nat, f) {
                        None => None,
                        Some(rest) => if spec_filter_allows(f, id) {
                            Some(seq![PropertyItemModel { id, value: v }] + rest)
                        } else {
                            Some(rest)
                        },
                    }
                },
            },
        }
    }
}

/// Appending one property to a list appends its bytes to the list's bytes.
pub proof fn lemma_properties_bytes_push(s: Seq<PropertyItemModel>, x: PropertyItemModel)
    ensures
        spec_properties_bytes(s.push(x)) == spec_properties_bytes(s) + spec_property_bytes(x),
    decreases s.len(),
{
    if s.len() == 0 {
        assert(s.push(x)[0] == x);
        assert(s.push(x).skip(1) =~= Seq::<PropertyItemModel>::empty());
        assert(spec_properties_bytes(Seq::<PropertyItemModel>::empty())
            == Seq::<u8>::empty());
        assert(spec_properties_bytes(s.push(x)) == spec_property_bytes(x) + Seq::<u8>::empty());
        assert(spec_property_bytes(x) + Seq::<u8>::empty() =~= spec_property_bytes(x));
        assert(spec_properties_bytes(s) + spec_property_bytes(x) =~= spec_property_bytes(x));
    } else {
        assert(s.push(x)[0] == s[0]);
        assert(s.push(x).skip(1) =~= s.skip(1).push(x));
        lemma_properties_bytes_push(s.skip(1), x);
        assert(spec_properties_bytes(s.push(x)) == spec_property_bytes(s[0])
            + spec_properties_bytes(s.skip(1).push(x)));
        assert(spec_properties_bytes(s) == spec_property_bytes(s[0]) + spec_properties_bytes(
            s.skip(1),
        ));
        assert(spec_property_bytes(s[0]) + (spec_properties_bytes(s.skip(1))
            + spec_property_bytes(x)) =~= (spec_property_bytes(s[0]) + spec_properties_bytes(
            s.skip(1),
        )) + spec_property_bytes(x));
    }
}

impl Property {
    /// Serializes one property onto the back of a property block body and
    /// counts the bytes written: the identifier byte, then the value in the
    /// shape the identifier fixes.
    pub fn pack_property_handle(item: &PropertyItem, length: &mut usize, body: &mut Vec<u8>)
        requires
            spec_property_value_fits(item@),
            *old(length) == old(body)@.len(),
        ensures
            final(body)@ == old(body)@ + spec_property_bytes(item@),
            *final(length) == final(body)@.len(),
    {
        body.push(item.0.as_num());
        match &item.1 {
            PropertyValue::Long(v) => {
                let mut b = crate::pack_tool::pack_long_int(*v);
                body.append(&mut b);
            },
            PropertyValue::Short(v) => {
                let mut b = crate::pack_tool::pack_short_int(*v);
                body.append(&mut b);
            },
            PropertyValue::Byte(v) => {
                body.push(*v);
            },
            PropertyValue::String(s) => {
                let mut b = crate::pack_tool::pack_string(s);
                body.append(&mut b);
            },
            PropertyValue::Pair(k, v) => {
                let mut kb = crate::pack_tool::pack_string(k);
                body.append(&mut kb);
                let mut vb = crate::pack_tool::pack_string(v);
                body.append(&mut vb);
            },
            PropertyValue::VarInt(v) => {
                let mut b = crate::pack_tool::pack_var_int(*v as usize);
                body.append(&mut b);
            },
        }
        *length = body.len();
        assert(final(body)@ =~= old(body)@ + spec_property_bytes(item@));
    }

    /// Parses this property's value off the head of the buffer and charges
    /// the identifier and value bytes against the block budget.
    pub fn unpack_property_handle<'a>(&self, length: &mut u32, data: &'a [u8]) -> (r: Option<
        (PropertyItem, &'a [u8]),
    >)
        ensures
            match spec_parse_property_value(*self, data@) {
                Some((vm, c)) => if 1 + c <= *old(length) {
                    &&& r matches Some((item, rest))
                    &&& item@ == (PropertyItemModel { id: *self, value: vm })
                    &&& rest@ == data@.skip(c)
                    &&& *final(length) == *old(length) - 1 - c
                } else {
                    r is None
                },
                None => r is None,
            },
    {
        match self {
            Property::SessionExpiryInterval
            | Property::MessageExpiryInterval
            | Property::WillDelayInterval
            | Property::MaximumPacketSize => {
                if data.len() < 4 || *length < 5 {
                    return None;
                }
                let (val, last_data) = crate::un_pack_tool::parse_long_int(data);
                *length = *length - 5;
                Some((PropertyItem(*self, PropertyValue::Long(val)), last_data))
            },
            Property::ContentType
            | Property::ResponseTopic
            | Property::CorrelationData
            | Property::AssignedClientIdentifier
            | Property::ResponseInformation
            | Property::ServerReference
            | Property::ReasonString
            | Property::AuthenticationMethod
            | Property::AuthenticationData => {
                match crate::un_pack_tool::parse_string(data) {
                    Ok((val, last_data)) => {
                        let consumed = val.as_str().len() + 2;
                        if consumed >= (*length as usize) {
                            return None;
                        }
                        *length = *length - (consumed as u32) - 1;
                        let last = match last_data {
                            Some(l) => l,
                            None => {
                                proof {
                                    assert(false);
                                }
                                data
                            },
                        };
                        Some((PropertyItem(*self, PropertyValue::String(val)), last))
                    },
                    Err(_) => None,
                }
            },
            Property::PayloadFormatIndicator
            | Property::MaximumQos
            | Property::RetainAvailable
            | Property::WildcardSubscriptionAvailable
            | Property::SubscriptionIdentifierAvailable
            | Property::SharedSubscriptionAvailable
            | Property::RequestProblemInformation
            | Property::RequestResponseInformation => {
                if data.len() < 1 || *length < 2 {
                    return None;
                }
                let (val, last_data) = crate::un_pack_tool::parse_byte(data);
                *length = *length - 2;
                Some((PropertyItem(*self, PropertyValue::Byte(val)), last_data))
            },
            Property::ServerKeepAlive
            | Property::ReceiveMaximum
            | Property::TopicAlias
            | Property::TopicAliasMaximum => {
                if data.len() < 2 || *length < 3 {
                    return None;
                }
                let (val, last_data) = crate::un_pack_tool::parse_short_int(data);
                *length = *length - 3;
                Some((PropertyItem(*self, PropertyValue::Short(val)), last_data))
            },
            Property::UserProperty => {
                match crate::un_pack_tool::parse_string(data) {
                    Ok((user_key, last_data)) => {
                        let c1 = user_key.as_str().len() + 2;
                        let last1 = match last_data {
                            Some(l) => l,
                            None => {
                                proof {
                                    assert(false);
                                }
                                data
                            },
                        };
                        match crate::un_pack_tool::parse_string(last1) {
                            Ok((user_value, last_data2)) => {
                                let c2 = user_value.as_str().len() + 2;
                                let total = c1 + c2;
                                if total >= (*length as usize) {
                                    return None;
                                }
                                *length = *length - (total as u32) - 1;
                                let last2 = match last_data2 {
                                    Some(l) => l,
                                    None => {
                                        proof {
                                            assert(false);
                                        }
                                        data
                                    },
                                };
                                proof {
                                    assert(data@.skip(c1 as int).skip(c2 as int) =~= data@.skip(
                                        c1 + c2,
                                    ));
                                }
                                Some(
                                    (
                                        PropertyItem(
                                            *self,
                                            PropertyValue::Pair(user_key, user_value),
                                        ),
                                        last2,
                                    ),
                                )
                            },
                            Err(_) => None,
                        }
                    },
                    Err(_) => None,
                }
            },
            Property::SubscriptionIdentifier => {
                proof {
                    crate::un_pack_tool::lemma_varint_decode_max(data@);
                }
                match crate::un_pack_tool::unpack_var_int(data) {
                    Some((val, rest)) => {
                        let consumed = data.len() - rest.len();
                        if consumed >= (*length as usize) {
                            return None;
                        }
                        *length = *length - (consumed as u32) - 1;
                        Some((PropertyItem(*self, PropertyValue::VarInt(val)), rest))
                    },
                    None => None,
                }
            },
        }
    }
}

} // verus!
