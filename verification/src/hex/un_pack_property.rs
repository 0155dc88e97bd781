use vstd::prelude::*;
use vstd::slice::slice_subrange;
use crate::hex::{
    Property, PropertyFilter, PropertyItem, PropertyItemModel, items_view, spec_filter_allows,
    spec_parse_property_value, spec_property_of_num, spec_unpack_properties,
};
use crate::un_pack_tool::CodecError;

verus! {

/// Parses a property block of `length` bytes: properties the rule accepts are
/// kept in order, others are consumed and dropped; an unknown identifier or a
/// truncated value fails the block.
pub(crate) fn unpack_list(length: u32, data: &[u8], filter: PropertyFilter) -> (r: Result<
    Vec<PropertyItem>,
    CodecError,
>)
    ensures
        match spec_unpack_properties(data@, length as nat, filter) {
            Some(models) => r matches Ok(v) && items_view(v@) == models,
            None => r is Err,
        },
    decreases length,
{
    if length == 0 {
        let r: Vec<PropertyItem> = Vec::new();
        assert(items_view(r@) =~= Seq::<PropertyItemModel>::empty());
        return Ok(r);
    }
    if data.len() == 0 {
        return Err(CodecError::MalformedPacket);
    }
    let id = match Property::from_num(data[0]) {
        Some(p) => p,
        None => {
            return Err(CodecError::MalformedPacket);
        },
    };
    let mut remaining = length;
    let tail = slice_subrange(data, 1, data.len());
    match id.unpack_property_handle(&mut remaining, tail) {
        None => Err(CodecError::MalformedPacket),
        Some((item, rest)) => {
            let ghost c = spec_parse_property_value(id, data@.skip(1)).unwrap().1;
            proof {
                crate::un_pack_tool::lemma_varint_decode_max(data@.skip(1));
                if id == Property::UserProperty {
                    let k = crate::un_pack_tool::spec_parse_string(data@.skip(1)).unwrap();
                    assert(crate::un_pack_tool::spec_parse_string(data@.skip(1).skip(k.1))
                        is Some ==> c <= data@.skip(1).len());
                }
                assert(0 <= c <= data@.skip(1).len());
                assert(data@.skip(1).skip(c) =~= data@.skip(1 + c));
            }
            match unpack_list(remaining, rest, filter) {
                Ok(mut items) => {
                    let keep = crate::hex::filter_allows(filter, id);
                    if keep {
                        items.insert(0, item);
                        proof {
                            let ms = spec_unpack_properties(data@, length as nat, filter).unwrap();
                            assert(items_view(items@) =~= ms);
                        }
                    } else {
                        proof {
                            let ms = spec_unpack_properties(data@, length as nat, filter).unwrap();
                            assert(items_view(items@) =~= ms);
                        }
                    }
                    Ok(items)
                },
                Err(e) => Err(e),
            }
        },
    }
}

/// Parses the property block of a CONNECT variable header.
pub fn connect(length: u32, data: &[u8]) -> (r: Result<Vec<PropertyItem>, CodecError>)
    ensures
        match spec_unpack_properties(data@, length as nat, PropertyFilter::Connect) {
            Some(models) => r matches Ok(v) && items_view(v@) == models,
            None => r is Err,
        },
{
    unpack_list(length, data, PropertyFilter::Connect)
}

/// Parses the property block of a CONNACK.
pub fn connack(length: u32, data: &[u8]) -> (r: Result<Vec<PropertyItem>, CodecError>)
    ensures
        match spec_unpack_properties(data@, length as nat, PropertyFilter::Connack) {
            Some(models) => r matches Ok(v) && items_view(v@) == models,
            None => r is Err,
        },
{
    unpack_list(length, data, PropertyFilter::Connack)
}

/// Parses the property block of a PUBLISH.
pub fn publish(length: u32, data: &[u8]) -> (r: Result<Vec<PropertyItem>, CodecError>)
    ensures
        match spec_unpack_properties(data@, length as nat, PropertyFilter::Publish) {
            Some(models) => r matches Ok(v) && items_view(v@) == models,
            None => r is Err,
        },
{
    unpack_list(length, data, PropertyFilter::Publish)
}

/// Parses the property block of a SUBSCRIBE.
pub fn subscribe(length: u32, data: &[u8]) -> (r: Result<Vec<PropertyItem>, CodecError>)
    ensures
        match spec_unpack_properties(data@, length as nat, PropertyFilter::Subscribe) {
            Some(models) => r matches Ok(v) && items_view(v@) == models,
            None => r is Err,
        },
{
    unpack_list(length, data, PropertyFilter::Subscribe)
}

/// Parses the property block of an UNSUBSCRIBE.
pub fn unsubscribe(length: u32, data: &[u8]) -> (r: Result<Vec<PropertyItem>, CodecError>)
    ensures
        match spec_unpack_properties(data@, length as nat, PropertyFilter::Unsubscribe) {
            Some(models) => r matches Ok(v) && items_view(v@) == models,
            None => r is Err,
        },
{
    unpack_list(length, data, PropertyFilter::Unsubscribe)
}

/// Parses the property block of a SUBACK.
pub fn suback(length: u32, data: &[u8]) -> (r: Result<Vec<PropertyItem>, CodecError>)
    ensures
        match spec_unpack_properties(data@, length as nat, PropertyFilter::PubAndSub) {
            Some(models) => r matches Ok(v) && items_view(v@) == models,
            None => r is Err,
        },
{
    unpack_list(length, data, PropertyFilter::PubAndSub)
}

/// Parses the property block of an UNSUBACK.
pub fn unsuback(length: u32, data: &[u8]) -> (r: Result<Vec<PropertyItem>, CodecError>)
    ensures
        match spec_unpack_properties(data@, length as nat, PropertyFilter::PubAndSub) {
            Some(models) => r matches Ok(v) && items_view(v@) == models,
            None => r is Err,
        },
{
    unpack_list(length, data, PropertyFilter::PubAndSub)
}

/// Parses the property block of a DISCONNECT.
pub fn disconnect(length: u32, data: &[u8]) -> (r: Result<Vec<PropertyItem>, CodecError>)
    ensures
        match spec_unpack_properties(data@, length as nat, PropertyFilter::Disconnect) {
            Some(models) => r matches Ok(v) && items_view(v@) == models,
            None => r is Err,
        },
{
    unpack_list(length, data, PropertyFilter::Disconnect)
}

/// Parses the property block of an AUTH.
pub fn auth(length: u32, data: &[u8]) -> (r: Result<Vec<PropertyItem>, CodecError>)
    ensures
        match spec_unpack_properties(data@, length as nat, PropertyFilter::Auth) {
            Some(models) => r matches Ok(v) && items_view(v@) == models,
            None => r is Err,
        },
{
    unpack_list(length, data, PropertyFilter::Auth)
}

/// Parses the property block of the acknowledgment packets.
pub fn pub_and_sub(length: u32, data: &[u8]) -> (r: Result<Vec<PropertyItem>, CodecError>)
    ensures
        match spec_unpack_properties(data@, length as nat, PropertyFilter::PubAndSub) {
            Some(models) => r matches Ok(v) && items_view(v@) == models,
            None => r is Err,
        },
{
    unpack_list(length, data, PropertyFilter::PubAndSub)
}

/// Parses the property block of the will part of a CONNECT payload.
pub fn will_properties(length: u32, data: &[u8]) -> (r: Result<Vec<PropertyItem>, CodecError>)
    ensures
        match spec_unpack_properties(data@, length as nat, PropertyFilter::Will) {
            Some(models) => r matches Ok(v) && items_view(v@) == models,
            None => r is Err,
        },
{
    unpack_list(length, data, PropertyFilter::Will)
}

} // verus!
