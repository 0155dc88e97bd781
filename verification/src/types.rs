use vstd::prelude::*;

verus! {

/// The fifteen MQTT control packet kinds, numbered one to fifteen on the wire.
#[derive(Debug, Copy, Clone, PartialEq, Eq, Structural)]
pub enum TypeKind {
    CONNECT,
    CONNACK,
    PUBLISH,
    PUBACK,
    PUBREC,
    PUBREL,
    PUBCOMP,
    SUBSCRIBE,
    SUBACK,
    UNSUBSCRIBE,
    UNSUBACK,
    PINGREQ,
    PINGRESP,
    DISCONNECT,
    AUTH,
}

/// The wire number of a packet kind: the high nibble of the fixed header.
pub open spec fn spec_kind_num(k: TypeKind) -> u8 {
    match k {
        TypeKind::CONNECT => 1,
        TypeKind::CONNACK => 2,
        TypeKind::PUBLISH => 3,
        TypeKind::PUBACK => 4,
        TypeKind::PUBREC => 5,
        TypeKind::PUBREL => 6,
        TypeKind::PUBCOMP => 7,
        TypeKind::SUBSCRIBE => 8,
        TypeKind::SUBACK => 9,
        TypeKind::UNSUBSCRIBE => 10,
        TypeKind::UNSUBACK => 11,
        TypeKind::PINGREQ => 12,
        TypeKind::PINGRESP => 13,
        TypeKind::DISCONNECT => 14,
        TypeKind::AUTH => 15,
    }
}

/// The packet kind with the given wire number, if any.
pub open spec fn spec_kind_of_num(n: u8) -> Option<TypeKind> {
    if n == 1 {
        Some(TypeKind::CONNECT)
    } else if n == 2 {
        Some(TypeKind::CONNACK)
    } else if n == 3 {
        Some(TypeKind::PUBLISH)
    } else if n == 4 {
        Some(TypeKind::PUBACK)
    } else if n == 5 {
        Some(TypeKind::PUBREC)
    } else if n == 6 {
        Some(TypeKind::PUBREL)
    } else if n == 7 {
        Some(TypeKind::PUBCOMP)
    } else if n == 8 {
        Some(TypeKind::SUBSCRIBE)
    } else if n == 9 {
        Some(TypeKind::SUBACK)
    } else if n == 10 {
        Some(TypeKind::UNSUBSCRIBE)
    } else if n == 11 {
        Some(TypeKind::UNSUBACK)
    } else if n == 12 {
        Some(TypeKind::PINGREQ)
    } else if n == 13 {
        Some(TypeKind::PINGRESP)
    } else if n == 14 {
        Some(TypeKind::DISCONNECT)
    } else if n == 15 {
        Some(TypeKind::AUTH)
    } else {
        None
    }
}

/// The name of a packet kind.
pub open spec fn spec_kind_name(k: TypeKind) -> Seq<char> {
    match k {
        TypeKind::CONNECT => "connect"@,
        TypeKind::CONNACK => "connack"@,
        TypeKind::PUBLISH => "publish"@,
        TypeKind::PUBACK => "puback"@,
        TypeKind::PUBREC => "pubrec"@,
        TypeKind::PUBREL => "pubrel"@,
        TypeKind::PUBCOMP => "pubcomp"@,
        TypeKind::SUBSCRIBE => "subscribe"@,
        TypeKind::SUBACK => "suback"@,
        TypeKind::UNSUBSCRIBE => "unsubscribe"@,
        TypeKind::UNSUBACK => "unsuback"@,
        TypeKind::PINGREQ => "pingreq"@,
        TypeKind::PINGRESP => "pingresp"@,
        TypeKind::DISCONNECT => "disconnect"@,
        TypeKind::AUTH => "auth"@,
    }
}

impl TypeKind {
    pub fn is_pubrel(&self) -> (r: bool)
        ensures
            r == (*self == TypeKind::PUBREL),
    {
        matches!(self, TypeKind::PUBREL)
    }

    /// The packet kind named by the high nibble of a fixed header byte.
    pub fn from_num(n: u8) -> (r: Option<TypeKind>)
        ensures
            r == spec_kind_of_num(n),
            r matches Some(k) ==> spec_kind_num(k) == n,
    {
        match n {
            1 => Some(TypeKind::CONNECT),
            2 => Some(TypeKind::CONNACK),
            3 => Some(TypeKind::PUBLISH),
            4 => Some(TypeKind::PUBACK),
            5 => Some(TypeKind::PUBREC),
            6 => Some(TypeKind::PUBREL),
            7 => Some(TypeKind::PUBCOMP),
            8 => Some(TypeKind::SUBSCRIBE),
            9 => Some(TypeKind::SUBACK),
            10 => Some(TypeKind::UNSUBSCRIBE),
            11 => Some(TypeKind::UNSUBACK),
            12 => Some(TypeKind::PINGREQ),
            13 => Some(TypeKind::PINGRESP),
            14 => Some(TypeKind::DISCONNECT),
            15 => Some(TypeKind::AUTH),
            _ => None,
        }
    }

    pub fn as_str(&self) -> (r: &'static str)
        ensures
            r@ == spec_kind_name(*self),
    {
        match *self {
            TypeKind::CONNECT => "connect",
            TypeKind::CONNACK => "connack",
            TypeKind::PUBLISH => "publish",
            TypeKind::PUBACK => "puback",
            TypeKind::PUBREC => "pubrec",
            TypeKind::PUBREL => "pubrel",
            TypeKind::PUBCOMP => "pubcomp",
            TypeKind::SUBSCRIBE => "subscribe",
            TypeKind::SUBACK => "suback",
            TypeKind::UNSUBSCRIBE => "unsubscribe",
            TypeKind::UNSUBACK => "unsuback",
            TypeKind::PINGREQ => "pingreq",
            TypeKind::PINGRESP => "pingresp",
            TypeKind::DISCONNECT => "disconnect",
            TypeKind::AUTH => "auth",
        }
    }

    /// The wire number of this kind.
    pub fn as_num(&self) -> (r: u8)
        ensures
            r == spec_kind_num(*self),
    {
        match *self {
            TypeKind::CONNECT => 1,
            TypeKind::CONNACK => 2,
            TypeKind::PUBLISH => 3,
            TypeKind::PUBACK => 4,
            TypeKind::PUBREC => 5,
            TypeKind::PUBREL => 6,
            TypeKind::PUBCOMP => 7,
            TypeKind::SUBSCRIBE => 8,
            TypeKind::SUBACK => 9,
            TypeKind::UNSUBSCRIBE => 10,
            TypeKind::UNSUBACK => 11,
            TypeKind::PINGREQ => 12,
            TypeKind::PINGRESP => 13,
            TypeKind::DISCONNECT => 14,
            TypeKind::AUTH => 15,
        }
    }

    /// The fixed header byte with this kind in the high nibble and clear flags.
    pub fn as_header_byte(&self) -> (r: u8)
        ensures
            r == spec_kind_num(*self) * 16,
    {
        self.as_num() * 16
    }
}

} // verus!
