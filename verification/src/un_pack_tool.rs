use vstd::prelude::*;
use vstd::slice::{slice_subrange, slice_to_vec};
use vstd::utf8::{valid_utf8, decode_utf8, encode_utf8};
use crate::protocol::{MqttDup, MqttQos, MqttRetain, MqttProtocolLevel, spec_qos_of_num,
    spec_level_of_num};
use crate::types::{TypeKind, spec_kind_of_num};
use crate::hex::{PropertyFilter, PropertyItemModel, spec_unpack_properties};
use crate::message::{ConnectMessagePayload, ConnectPayloadModel};
use crate::protocol::{MqttCleanSession, MqttPasswordFlag, MqttUsernameFlag, MqttWillFlag};

verus! {

broadcast use vstd::utf8::encode_utf8_valid_utf8, vstd::utf8::encode_utf8_decode_utf8,
    vstd::utf8::decode_utf8_encode_utf8;

/// Why a packet could not be decoded.
#[derive(Debug, Copy, Clone, PartialEq, Eq, Structural)]
pub enum CodecError {
    /// A field or flag is inconsistent with the packet kind, or the body is truncated.
    MalformedPacket,
    /// A length-prefixed string overruns the buffer or is not valid UTF-8.
    MalformedString,
    /// A variable byte integer is truncated or runs over four bytes.
    MalformedVarInt,
    /// A packet arrived in a connection state that does not admit it.
    ProtocolError,
    /// A property is not accepted on this packet kind.
    UnsupportedCapability,
}

/// The 16-bit big-endian integer at the head of a byte sequence.
pub open spec fn spec_be16(b: Seq<u8>) -> u16
    recommends
        b.len() >= 2,
{
    ((b[0] as int) * 256 + (b[1] as int)) as u16
}

/// The 32-bit big-endian integer at the head of a byte sequence.
pub open spec fn spec_be32(b: Seq<u8>) -> u32
    recommends
        b.len() >= 4,
{
    ((b[0] as int) * 0x1000000 + (b[1] as int) * 0x10000 + (b[2] as int) * 256 + (b[3] as int)) as u32
}

/// Decoding of a variable byte integer at the head of a byte sequence, with
/// `budget` bytes still allowed: the value and the count of bytes consumed,
/// or nothing when the sequence is truncated or the integer too long.
pub open spec fn spec_varint_decode_rec(b: Seq<u8>, budget: nat, mult: nat, acc: nat) -> Option<
    (nat, nat),
>
    decreases budget,
{
    if budget == 0 || b.len() == 0 {
        None
    } else {
        let acc2 = (acc + (b[0] % 128) * mult) as nat;
        if b[0] < 128 {
            Some((acc2, 1))
        } else {
            match spec_varint_decode_rec(b.skip(1), (budget - 1) as nat, mult * 128, acc2) {
                Some((v, c)) => Some((v, c + 1)),
                None => None,
            }
        }
    }
}

/// Decoding of a variable byte integer of at most four bytes.
pub open spec fn spec_varint_decode(b: Seq<u8>) -> Option<(nat, nat)> {
    spec_varint_decode_rec(b, 4, 1, 0)
}

proof fn lemma_varint_decode_rec_encode(n: nat, rest: Seq<u8>, budget: nat, mult: nat, acc: nat)
    requires
        crate::pack_tool::spec_varint(n).len() <= budget,
        mult >= 1,
    ensures
        spec_varint_decode_rec(crate::pack_tool::spec_varint(n) + rest, budget, mult, acc)
            == Some(((acc + n * mult) as nat, crate::pack_tool::spec_varint(n).len())),
    decreases n,
{
    let e = crate::pack_tool::spec_varint(n);
    let b = e + rest;
    assert(b[0] == e[0]);
    if n < 128 {
        assert(b[0] == n as u8);
        assert(acc + (b[0] % 128) * mult == acc + n * mult);
    } else {
        let head = (n % 128 + 128) as u8;
        assert(b[0] == head);
        assert(head >= 128);
        let acc2 = (acc + (head % 128) * mult) as nat;
        assert(head % 128 == n % 128);
        let tail = crate::pack_tool::spec_varint(n / 128);
        assert(b.skip(1) =~= tail + rest);
        lemma_varint_decode_rec_encode(n / 128, rest, (budget - 1) as nat, mult * 128, acc2);
        assert(acc2 + (n / 128) * (mult * 128) == acc + n * mult) by (nonlinear_arith)
            requires
                acc2 == acc + (n % 128) * mult,
                n >= 128,
                mult >= 1,
        ;
    }
}

/// A variable byte integer decodes back to the value it was encoded from, and
/// consumes exactly the encoding.
pub proof fn lemma_varint_round_trip(n: nat, rest: Seq<u8>)
    requires
        n <= crate::varint_max(),
    ensures
        spec_varint_decode(crate::pack_tool::spec_varint(n) + rest)
            == Some((n, crate::pack_tool::spec_varint(n).len())),
{
    crate::pack_tool::lemma_spec_varint_len(n);
    lemma_varint_decode_rec_encode(n, rest, 4, 1, 0);
}

/// Powers of 128: the multipliers of the groups of a variable byte integer.
spec fn pow128(k: nat) -> nat
    decreases k,
{
    if k == 0 {
        1
    } else {
        128 * pow128((k - 1) as nat)
    }
}

proof fn lemma_pow128_pos(k: nat)
    ensures
        pow128(k) >= 1,
    decreases k,
{
    if k > 0 {
        lemma_pow128_pos((k - 1) as nat);
    }
}

proof fn lemma_varint_decode_rec_bounds(b: Seq<u8>, budget: nat, mult: nat, acc: nat)
    requires
        mult >= 1,
    ensures
        spec_varint_decode_rec(b, budget, mult, acc) matches Some((v, c)) ==> {
            &&& 1 <= c <= budget
            &&& c <= b.len()
            &&& acc <= v
            &&& v <= acc + (pow128(budget) - 1) * mult
        },
    decreases budget,
{
    if budget > 0 && b.len() > 0 && b[0] < 128 {
        lemma_pow128_pos((budget - 1) as nat);
        assert(pow128(budget) == 128 * pow128((budget - 1) as nat));
        assert((b[0] % 128) * mult <= (pow128(budget) - 1) * mult) by (nonlinear_arith)
            requires
                b[0] % 128 < 128,
                pow128(budget) >= 128,
                mult >= 1,
        ;
    }
    if budget > 0 && b.len() > 0 && b[0] >= 128 {
        let acc2 = (acc + (b[0] % 128) * mult) as nat;
        lemma_varint_decode_rec_bounds(b.skip(1), (budget - 1) as nat, mult * 128, acc2);
        if spec_varint_decode_rec(b, budget, mult, acc) is Some {
            lemma_pow128_pos((budget - 1) as nat);
            assert(pow128(budget) == 128 * pow128((budget - 1) as nat));
            assert(acc2 + (pow128((budget - 1) as nat) - 1) * (mult * 128) <= acc + (pow128(budget)
                - 1) * mult) by (nonlinear_arith)
                requires
                    acc2 == acc + (b[0] % 128) * mult,
                    b[0] % 128 < 128,
                    mult >= 1,
                    budget >= 1,
                    pow128((budget - 1) as nat) >= 1,
                    pow128(budget) == 128 * pow128((budget - 1) as nat),
            ;
        }
    }
}

/// A variable byte integer decode never consumes more bytes than are there.
pub proof fn lemma_varint_decode_rec_len(b: Seq<u8>, budget: nat)
    ensures
        spec_varint_decode_rec(b, budget, 1, 0) matches Some((v, c)) ==> 1 <= c <= b.len(),
{
    lemma_varint_decode_rec_bounds(b, budget, 1, 0);
}

/// A variable byte integer decode reads only the bytes it consumes: any
/// prefix that covers them decodes the same.
pub proof fn lemma_varint_decode_rec_prefix(b: Seq<u8>, budget: nat, mult: nat, acc: nat, k: int)
    ensures
        match spec_varint_decode_rec(b, budget, mult, acc) {
            Some((v, c)) => c <= k <= b.len() ==> spec_varint_decode_rec(
                b.take(k),
                budget,
                mult,
                acc,
            ) == Some((v, c)),
            None => true,
        },
    decreases budget,
{
    if budget > 0 && b.len() > 0 && spec_varint_decode_rec(b, budget, mult, acc) is Some && 1 <= k
        <= b.len() {
        assert(b.take(k)[0] == b[0]);
        if b[0] >= 128 {
            let acc2 = (acc + (b[0] % 128) * mult) as nat;
            lemma_varint_decode_rec_prefix(b.skip(1), (budget - 1) as nat, mult * 128, acc2, k - 1);
            assert(b.take(k).skip(1) =~= b.skip(1).take(k - 1));
        }
    }
}

/// What a decoded variable byte integer of at most four bytes can be: at most
/// the greatest encodable value.
pub proof fn lemma_varint_decode_max(b: Seq<u8>)
    ensures
        spec_varint_decode(b) matches Some((v, c)) ==> v <= crate::varint_max() && 1 <= c <= 4 && c
            <= b.len(),
{
    lemma_varint_decode_rec_bounds(b, 4, 1, 0);
    assert(pow128(0) == 1);
    assert(pow128(1) == 128);
    assert(pow128(2) == 16384);
    assert(pow128(3) == 2097152);
    assert(pow128(4) == 268435456);
}

/// One byte off the head of the buffer, and what follows it.
pub fn parse_byte<'a>(data: &'a [u8]) -> (r: (u8, &'a [u8]))
    requires
        data@.len() >= 1,
    ensures
        r.0 == data@[0],
        r.1@ == data@.skip(1),
{
    (data[0], slice_subrange(data, 1, data.len()))
}

/// A two byte big-endian integer off the head of the buffer.
pub fn parse_short_int<'a>(data: &'a [u8]) -> (r: (u16, &'a [u8]))
    requires
        data@.len() >= 2,
    ensures
        r.0 == spec_be16(data@),
        r.1@ == data@.skip(2),
{
    let v = (data[0] as u16) * 256 + (data[1] as u16);
    (v, slice_subrange(data, 2, data.len()))
}

/// A four byte big-endian integer off the head of the buffer.
pub fn parse_long_int<'a>(data: &'a [u8]) -> (r: (u32, &'a [u8]))
    requires
        data@.len() >= 4,
    ensures
        r.0 == spec_be32(data@),
        r.1@ == data@.skip(4),
{
    let v = (data[0] as u32) * 0x1000000 + (data[1] as u32) * 0x10000 + (data[2] as u32) * 256 + (
    data[3] as u32);
    (v, slice_subrange(data, 4, data.len()))
}

/// Parsing of a length-prefixed UTF-8 string at the head of a byte sequence:
/// the characters and the count of bytes consumed, or nothing when the
/// declared length overruns the buffer or the bytes are not valid UTF-8.
pub open spec fn spec_parse_string(b: Seq<u8>) -> Option<(Seq<char>, int)> {
    if b.len() < 2 {
        None
    } else {
        let n = spec_be16(b) as int;
        if 2 + n > b.len() {
            None
        } else if !valid_utf8(b.subrange(2, 2 + n)) {
            None
        } else {
            Some((decode_utf8(b.subrange(2, 2 + n)), 2 + n))
        }
    }
}

/// Relies on String::from_utf8: returns the string whose UTF-8 encoding is
/// exactly the input bytes, or nothing when they are not valid UTF-8.
#[verifier::external_body]
pub(crate) fn string_from_utf8(bytes: Vec<u8>) -> (r: Option<String>)
    ensures
        match r {
            Some(s) => encode_utf8(s@) == bytes@,
            None => !valid_utf8(bytes@),
        },
{
    String::from_utf8(bytes).ok()
}

/// A length-prefixed UTF-8 string off the head of the buffer.
pub fn parse_string<'a>(data: &'a [u8]) -> (r: Result<(String, Option<&'a [u8]>), CodecError>)
    ensures
        match spec_parse_string(data@) {
            Some((s, c)) => {
                &&& r matches Ok((t, rest))
                &&& t@ == s
                &&& encode_utf8(t@) == data@.subrange(2, c)
                &&& rest matches Some(re) && re@ == data@.skip(c)
            },
            None => r matches Err(e) && e == CodecError::MalformedString,
        },
{
    if data.len() < 2 {
        return Err(CodecError::MalformedString);
    }
    let (length, _) = parse_short_int(data);
    let length = length as usize;
    if data.len() - 2 < length {
        return Err(CodecError::MalformedString);
    }
    let value = slice_subrange(data, 2, 2 + length);
    let bytes = slice_to_vec(value);
    match string_from_utf8(bytes) {
        Some(s) => {
            let rest = slice_subrange(data, 2 + length, data.len());
            assert(decode_utf8(data@.subrange(2, 2 + length as int)) == s@);
            Ok((s, Some(rest)))
        },
        None => Err(CodecError::MalformedString),
    }
}


/// The remaining-length field that starts at the second byte of a fixed
/// header: its value and the count of header bytes before the body.
pub fn get_remaining_length(data: &[u8]) -> (r: Result<(usize, usize), &'static str>)
    requires
        data@.len() >= 1,
    ensures
        match spec_varint_decode(data@.skip(1)) {
            Some((v, c)) => r matches Ok(p) && p.0 as nat == v && p.1 as nat == c + 1,
            None => r is Err,
        },
{
    let ghost whole = data@.skip(1);
    let mut head_index: usize = 1;
    let mut multiplier: usize = 1;
    let mut value: usize = 0;
    assert(pow128(0) == 1);
    loop
        invariant
            1 <= head_index <= 5,
            head_index <= data@.len(),
            data@.len() >= 1,
            multiplier as nat == pow128((head_index - 1) as nat),
            multiplier <= 0x10000000,
            value < multiplier,
            whole == data@.skip(1),
            ({
                let sub = spec_varint_decode_rec(
                    data@.skip(head_index as int),
                    (5 - head_index) as nat,
                    multiplier as nat,
                    value as nat,
                );
                match sub {
                    Some((v, c)) => spec_varint_decode(whole) == Some(
                        (v, (c + head_index - 1) as nat),
                    ),
                    None => spec_varint_decode(whole) is None,
                }
            }),
        decreases 5 - head_index,
    {
        if head_index >= data.len() || head_index >= 5 {
            return Err("Malformed Variable Byte Integer");
        }
        proof {
            assert(pow128(0) == 1);
            assert(pow128(1) == 128);
            assert(pow128(2) == 16384);
            assert(pow128(3) == 2097152);
        }
        let byte = data[head_index];
        let digit = (byte % 128) as usize;
        assert(value + digit * multiplier < 128 * multiplier) by (nonlinear_arith)
            requires
                value < multiplier,
                digit < 128,
        ;
        value = value + digit * multiplier;
        proof {
            assert(data@.skip(head_index as int).skip(1) =~= data@.skip(head_index + 1));
        }
        head_index = head_index + 1;
        if byte < 128 {
            return Ok((value, head_index));
        }
        multiplier = multiplier * 128;
    }
}

/// The body of a packet: the bytes behind the fixed header, as far as the
/// remaining-length field declares them.
pub open spec fn spec_remaining_data(b: Seq<u8>) -> Option<Seq<u8>> {
    if b.len() < 1 {
        None
    } else {
        match spec_varint_decode(b.skip(1)) {
            Some((v, c)) => if 1 + c + v <= b.len() {
                Some(b.subrange(1 + c as int, 1 + c as int + v as int))
            } else {
                None
            },
            None => None,
        }
    }
}

/// The body of a packet, or nothing when the remaining-length field is
/// malformed or declares more bytes than are there.
pub fn try_get_remaining_data<'a>(data: &'a [u8]) -> (r: Option<&'a [u8]>)
    ensures
        match spec_remaining_data(data@) {
            Some(bs) => r matches Some(s) && s@ == bs,
            None => r is None,
        },
{
    if data.len() < 1 {
        return None;
    }
    proof {
        lemma_varint_decode_max(data@.skip(1));
    }
    match get_remaining_length(data) {
        Ok((value, head_bytes)) => {
            if value <= data.len() - head_bytes {
                Some(slice_subrange(data, head_bytes, head_bytes + value))
            } else {
                None
            }
        },
        Err(_) => None,
    }
}

/// The body of a packet whose remaining-length field is known to be sound.
pub fn get_remaining_data<'a>(data: &'a [u8]) -> (r: &'a [u8])
    requires
        spec_remaining_data(data@) is Some,
    ensures
        Some(r@) == spec_remaining_data(data@),
{
    let r = try_get_remaining_data(data);
    r.unwrap()
}

/// The PUBLISH flags out of a fixed-header byte: RETAIN in the lowest bit,
/// the QoS in the two above it, DUP above those.
pub fn get_publish_header(data: u8) -> (r: (Option<MqttRetain>, Option<MqttQos>, Option<MqttDup>))
    ensures
        r.0 == Some(
            if data % 2 == 1 {
                MqttRetain::Enable
            } else {
                MqttRetain::Disable
            },
        ),
        r.1 == spec_qos_of_num((data / 2) % 4),
        r.2 == Some(
            if (data / 8) % 2 == 1 {
                MqttDup::Enable
            } else {
                MqttDup::Disable
            },
        ),
{
    let retain = data % 2;
    let qos = (data / 2) % 4;
    let dup = (data / 8) % 2;
    (MqttRetain::from_bit(retain), MqttQos::from_num(qos), MqttDup::from_bit(dup))
}

/// The packet kind out of the first byte, the PUBLISH flags when the kind is
/// PUBLISH, and the body bytes when the remaining-length field is sound.
pub fn get_type<'a>(data: &'a [u8]) -> (r: (
    Option<TypeKind>,
    Option<MqttRetain>,
    Option<MqttQos>,
    Option<MqttDup>,
    Option<&'a [u8]>,
))
    requires
        data@.len() >= 1,
    ensures
        r.0 == spec_kind_of_num(data@[0] / 16),
        if r.0 == Some(TypeKind::PUBLISH) {
            &&& r.1 == Some(
                if data@[0] % 2 == 1 {
                    MqttRetain::Enable
                } else {
                    MqttRetain::Disable
                },
            )
            &&& r.2 == spec_qos_of_num((data@[0] / 2) % 4)
            &&& r.3 == Some(
                if (data@[0] / 8) % 2 == 1 {
                    MqttDup::Enable
                } else {
                    MqttDup::Disable
                },
            )
        } else {
            r.1 is None && r.2 is None && r.3 is None
        },
        match spec_remaining_data(data@) {
            Some(bs) => r.4 matches Some(s) && s@ == bs,
            None => r.4 is None,
        },
{
    let kind = TypeKind::from_num(data[0] / 16);
    let rest = try_get_remaining_data(data);
    if let Some(k) = kind {
        if k == TypeKind::PUBLISH {
            let (retain, qos, dup) = get_publish_header(data[0]);
            return (Some(k), retain, qos, dup, rest);
        }
    }
    (kind, None, None, None, rest)
}

/// A variable byte integer off the head of the buffer: its value and what
/// follows it, or nothing when it is truncated or runs over four bytes.
pub fn unpack_var_int<'a>(data: &'a [u8]) -> (r: Option<(u32, &'a [u8])>)
    ensures
        match spec_varint_decode(data@) {
            Some((v, c)) => r matches Some(p) && p.0 as nat == v && p.1@ == data@.skip(c as int),
            None => r is None,
        },
{
    proof {
        lemma_varint_decode_max(data@);
    }
    let ghost whole = data@;
    let mut head_index: usize = 0;
    let mut multiplier: u32 = 1;
    let mut value: u32 = 0;
    assert(pow128(0) == 1);
    assert(data@.skip(0) =~= data@);
    loop
        invariant
            0 <= head_index <= 4,
            head_index <= data@.len(),
            multiplier as nat == pow128(head_index as nat),
            multiplier <= 0x10000000,
            value < multiplier,
            whole == data@,
            ({
                let sub = spec_varint_decode_rec(
                    data@.skip(head_index as int),
                    (4 - head_index) as nat,
                    multiplier as nat,
                    value as nat,
                );
                match sub {
                    Some((v, c)) => spec_varint_decode(whole) == Some((v, (c + head_index) as nat)),
                    None => spec_varint_decode(whole) is None,
                }
            }),
        decreases 4 - head_index,
    {
        if head_index >= data.len() || head_index >= 4 {
            return None;
        }
        proof {
            assert(pow128(0) == 1);
            assert(pow128(1) == 128);
            assert(pow128(2) == 16384);
            assert(pow128(3) == 2097152);
        }
        let byte = data[head_index];
        let digit = (byte % 128) as u32;
        assert(value + digit * multiplier < 128 * multiplier) by (nonlinear_arith)
            requires
                value < multiplier,
                digit < 128,
        ;
        value = value + digit * multiplier;
        proof {
            assert(data@.skip(head_index as int).skip(1) =~= data@.skip(head_index + 1));
        }
        head_index = head_index + 1;
        if byte < 128 {
            return Some((value, slice_subrange(data, head_index, data.len())));
        }
        multiplier = multiplier * 128;
    }
}

/// The protocol name and protocol level a CONNECT body opens with: the
/// length-prefixed name, then the level byte right behind it.
pub fn get_protocol_name_and_version<'a>(data: &'a [u8]) -> (r: (
    Option<String>,
    Option<MqttProtocolLevel>,
))
    ensures
        match spec_parse_string(data@) {
            Some((s, c)) => (r.0 matches Some(t) && t@ == s) && r.1 == (if c < data@.len() {
                spec_level_of_num(data@[c])
            } else {
                None::<MqttProtocolLevel>
            }),
            None => r.0 is None && r.1 is None,
        },
{
    match parse_string(data) {
        Ok((name, rest)) => {
            let rest = match rest {
                Some(re) => re,
                None => {
                    proof {
                        assert(false);
                    }
                    data
                },
            };
            let version = if rest.len() >= 1 {
                MqttProtocolLevel::from_num(rest[0])
            } else {
                None
            };
            (Some(name), version)
        },
        Err(_) => (None, None),
    }
}

/// Reads a CONNECT variable header off the packet body: protocol name,
/// level, the connect flags bit by bit, and the keep-alive; what follows is
/// the payload.
pub fn get_connect_variable_header<'a>(data: &'a [u8]) -> (r: Result<
    (crate::v3::VariableHeader, &'a [u8]),
    CodecError,
>)
    ensures
        match spec_parse_string(data@) {
            None => r is Err,
            Some((name, c)) => if c + 4 > data@.len() {
                r is Err
            } else {
                r matches Ok((vh, rest)) && {
                    &&& vh.protocol_name matches Some(s) && s@ == name
                    &&& vh.protocol_level == spec_level_of_num(data@[c])
                    &&& vh.clean_session == Some(
                        if (data@[c + 1] / 2) % 2 == 1 {
                            MqttCleanSession::Enable
                        } else {
                            MqttCleanSession::Disable
                        },
                    )
                    &&& vh.will_flag == Some(
                        if (data@[c + 1] / 4) % 2 == 1 {
                            MqttWillFlag::Enable
                        } else {
                            MqttWillFlag::Disable
                        },
                    )
                    &&& vh.will_qos == spec_qos_of_num((data@[c + 1] / 8) % 4)
                    &&& vh.will_retain == Some(
                        if (data@[c + 1] / 32) % 2 == 1 {
                            MqttRetain::Enable
                        } else {
                            MqttRetain::Disable
                        },
                    )
                    &&& vh.password_flag == Some(
                        if (data@[c + 1] / 64) % 2 == 1 {
                            MqttPasswordFlag::Enable
                        } else {
                            MqttPasswordFlag::Disable
                        },
                    )
                    &&& vh.username_flag == Some(
                        if (data@[c + 1] / 128) % 2 == 1 {
                            MqttUsernameFlag::Enable
                        } else {
                            MqttUsernameFlag::Disable
                        },
                    )
                    &&& vh.keep_alive == Some(spec_be16(data@.subrange(c + 2, c + 4)))
                    &&& rest@ == data@.skip(c + 4)
                }
            },
        },
{
    let (protocol_name, after_name) = match parse_string(data) {
        Ok((s, rest)) => (s, rest),
        Err(e) => {
            return Err(e);
        },
    };
    let after_name = match after_name {
        Some(re) => re,
        None => {
            proof {
                assert(false);
            }
            data
        },
    };
    if after_name.len() < 4 {
        return Err(CodecError::MalformedPacket);
    }
    let ghost c = spec_parse_string(data@).unwrap().1;
    let protocol_level = MqttProtocolLevel::from_num(after_name[0]);
    let flags = after_name[1];
    let clean_session = (flags / 2) % 2;
    let will_flag = (flags / 4) % 2;
    let will_qos = (flags / 8) % 4;
    let will_retain = (flags / 32) % 2;
    let password_flag = (flags / 64) % 2;
    let username_flag = (flags / 128) % 2;
    let ka_slice = slice_subrange(after_name, 2, 4);
    let (keep_alive, _) = parse_short_int(ka_slice);
    proof {
        assert(data@.skip(c)[0] == data@[c]);
        assert(data@.skip(c)[1] == data@[c + 1]);
        assert(data@.skip(c).subrange(2, 4) =~= data@.subrange(c + 2, c + 4));
        assert(data@.skip(c).skip(4) =~= data@.skip(c + 4));
    }

    Ok(
        (
            crate::v3::VariableHeader {
                protocol_name: Some(protocol_name),
                keep_alive: Some(keep_alive),
                protocol_level,
                clean_session: MqttCleanSession::from_bit(clean_session),
                will_flag: MqttWillFlag::from_bit(will_flag),
                will_qos: MqttQos::from_num(will_qos),
                will_retain: MqttRetain::from_bit(will_retain),
                password_flag: MqttPasswordFlag::from_bit(password_flag),
                username_flag: MqttUsernameFlag::from_bit(username_flag),
            },
            slice_subrange(after_name, 4, after_name.len()),
        ),
    )
}

/// Parsing of the optional will property block at the head of a v5 CONNECT
/// payload's will part: absent below level five, otherwise a variable byte
/// integer length and that many property bytes.
pub open spec fn spec_parse_will_props(level: MqttProtocolLevel, b: Seq<u8>) -> Option<
    (Option<Seq<PropertyItemModel>>, Seq<u8>),
> {
    if level != MqttProtocolLevel::Level5 {
        Some((None, b))
    } else {
        match spec_varint_decode(b) {
            None => None,
            Some((n, c)) => if n == 0 {
                Some((None, b.skip(c as int)))
            } else if c + n > b.len() {
                None
            } else {
                match spec_unpack_properties(
                    b.subrange(c as int, (c + n) as int),
                    n,
                    PropertyFilter::Will,
                ) {
                    None => None,
                    Some(ps) => Some((Some(ps), b.skip((c + n) as int))),
                }
            },
        }
    }
}

/// Parsing of the will part of a CONNECT payload: nothing when the will flag
/// is off, otherwise the will properties, topic and message in order.
pub open spec fn spec_parse_will_block(
    level: MqttProtocolLevel,
    b: Seq<u8>,
    will_flag: MqttWillFlag,
) -> Option<(Option<Seq<PropertyItemModel>>, Option<Seq<char>>, Option<Seq<char>>, Seq<u8>)> {
    if will_flag != MqttWillFlag::Enable {
        Some((None, None, None, b))
    } else {
        match spec_parse_will_props(level, b) {
            None => None,
            Some((props, b1)) => match spec_parse_string(b1) {
                None => None,
                Some((wt, c1)) => match spec_parse_string(b1.skip(c1)) {
                    None => None,
                    Some((wm, c2)) => Some((props, Some(wt), Some(wm), b1.skip(c1).skip(c2))),
                },
            },
        }
    }
}

/// Parsing of a string that a flag announces: nothing is consumed when the
/// flag is off.
pub open spec fn spec_parse_opt_string(enabled: bool, b: Seq<u8>) -> Option<
    (Option<Seq<char>>, Seq<u8>),
> {
    if enabled {
        match spec_parse_string(b) {
            None => None,
            Some((s, c)) => Some((Some(s), b.skip(c))),
        }
    } else {
        Some((None, b))
    }
}

/// Parsing of a whole CONNECT payload: client identifier, will part, user
/// name and password, each as far as its flag announces it.
pub open spec fn spec_parse_connect_payload(
    level: MqttProtocolLevel,
    b: Seq<u8>,
    will_flag: MqttWillFlag,
    username_flag: MqttUsernameFlag,
    password_flag: MqttPasswordFlag,
) -> Option<ConnectPayloadModel> {
    match spec_parse_string(b) {
        None => None,
        Some((cid, c0)) => match spec_parse_will_block(level, b.skip(c0), will_flag) {
            None => None,
            Some((props, wt, wm, b2)) => match spec_parse_opt_string(
                username_flag == MqttUsernameFlag::Enable,
                b2,
            ) {
                None => None,
                Some((un, b3)) => match spec_parse_opt_string(
                    password_flag == MqttPasswordFlag::Enable,
                    b3,
                ) {
                    None => None,
                    Some((pw, _b4)) => Some(
                        ConnectPayloadModel {
                            client_id: cid,
                            will_topic: wt,
                            will_message: wm,
                            user_name: un,
                            password: pw,
                            properties: props,
                        },
                    ),
                },
            },
        },
    }
}

/// Reads a CONNECT payload off the buffer, the flags telling which parts are
/// there.
#[verifier::rlimit(100)]
#[verifier::spinoff_prover]
pub fn get_connect_payload_data(
    protocol_level: MqttProtocolLevel,
    data: &[u8],
    will_flag: MqttWillFlag,
    username_flag: MqttUsernameFlag,
    password_flag: MqttPasswordFlag,
) -> (r: Result<ConnectMessagePayload, CodecError>)
    ensures
        match spec_parse_connect_payload(protocol_level, data@, will_flag, username_flag,
            password_flag) {
            Some(pm) => r matches Ok(p) && p@ == pm,
            None => r is Err,
        },
{
    let (client_id, after_id) = match parse_string(data) {
        Ok((s, rest)) => (s, rest),
        Err(e) => {
            return Err(e);
        },
    };
    let b1 = match after_id {
        Some(rest) => rest,
        None => {
            proof {
                assert(false);
            }
            data
        },
    };

    let (properties, will_topic, will_message, b2) = if will_flag == MqttWillFlag::Enable {
        let (properties, after_props) = if protocol_level == MqttProtocolLevel::Level5 {
            proof {
                lemma_varint_decode_max(b1@);
            }
            let (properties_total_length, after_len) = match unpack_var_int(b1) {
                Some(p) => p,
                None => {
                    return Err(CodecError::MalformedVarInt);
                },
            };
            let varint_len = b1.len() - after_len.len();
            if properties_total_length > 0 {
                if after_len.len() < properties_total_length as usize {
                    return Err(CodecError::MalformedPacket);
                }
                let prop_slice = slice_subrange(
                    b1,
                    varint_len,
                    varint_len + properties_total_length as usize,
                );
                let props = match crate::hex::un_pack_property::will_properties(
                    properties_total_length,
                    prop_slice,
                ) {
                    Ok(ps) => ps,
                    Err(e) => {
                        return Err(e);
                    },
                };
                proof {
                    let c = spec_varint_decode(b1@).unwrap().1;
                    assert(b1@.skip(c as int).skip(properties_total_length as int) =~= b1@.skip(
                        c + properties_total_length as int,
                    ));
                    assert(b1@.skip(c as int).subrange(0, properties_total_length as int)
                        =~= b1@.subrange(c as int, c + properties_total_length as int));
                }
                (
                    Some(props),
                    slice_subrange(
                        b1,
                        varint_len + properties_total_length as usize,
                        b1.len(),
                    ),
                )
            } else {
                (None, after_len)
            }
        } else {
            (None, b1)
        };

        let (will_topic, after_topic) = match parse_string(after_props) {
            Ok((s, rest)) => (s, rest),
            Err(e) => {
                return Err(e);
            },
        };
        let wt_rest = match after_topic {
            Some(rest) => rest,
            None => {
                proof {
                    assert(false);
                }
                data
            },
        };
        let (will_message, after_message) = match parse_string(wt_rest) {
            Ok((s, rest)) => (s, rest),
            Err(e) => {
                return Err(e);
            },
        };
        let wm_rest = match after_message {
            Some(rest) => rest,
            None => {
                proof {
                    assert(false);
                }
                data
            },
        };
        (properties, Some(will_topic), Some(will_message), wm_rest)
    } else {
        (None, None, None, b1)
    };

    let (user_name, b3) = if username_flag == MqttUsernameFlag::Enable {
        match parse_string(b2) {
            Ok((s, rest)) => {
                let rest = match rest {
                    Some(r) => r,
                    None => {
                        proof {
                            assert(false);
                        }
                        data
                    },
                };
                (Some(s), rest)
            },
            Err(e) => {
                return Err(e);
            },
        }
    } else {
        (None, b2)
    };

    let password = if password_flag == MqttPasswordFlag::Enable {
        match parse_string(b3) {
            Ok((s, _)) => Some(s),
            Err(e) => {
                return Err(e);
            },
        }
    } else {
        None
    };

    Ok(
        ConnectMessagePayload {
            client_id,
            will_topic,
            will_message,
            user_name,
            password,
            properties,
        },
    )
}


} // verus!
