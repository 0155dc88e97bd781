use vstd::prelude::*;
use vstd::seq_lib::*;
use crate::hex::{
    Property, PropertyFilter, PropertyItem, PropertyItemModel, filter_allows, items_view,
    lemma_properties_bytes_push, spec_filter_allows, spec_properties_bytes,
    spec_property_block_bytes, spec_property_value_fits,
};
use crate::pack_tool::pack_var_int;

verus! {

/// Serializes the properties a rule accepts, in order, behind their total
/// byte length as a variable byte integer.
fn pack_list(data: &Vec<PropertyItem>, filter: PropertyFilter) -> (r: Vec<u8>)
    requires
        forall|i: int| 0 <= i < data@.len() ==> spec_property_value_fits(#[trigger] data@[i]@),
    ensures
        r@ == spec_property_block_bytes(items_view(data@), filter),
{
    let ghost pred = |m: PropertyItemModel| spec_filter_allows(filter, m.id);
    let mut length: usize = 0;
    let mut body: Vec<u8> = Vec::new();
    proof {
        reveal(Seq::filter);
        assert(items_view(data@).take(0) =~= Seq::empty());
        assert(spec_properties_bytes(items_view(data@).take(0).filter(pred)) =~= Seq::empty());
    }
    let mut i: usize = 0;
    while i < data.len()
        invariant
            i <= data@.len(),
            length == body@.len(),
            forall|j: int| 0 <= j < data@.len() ==> spec_property_value_fits(#[trigger] data@[j]@),
            pred == (|m: PropertyItemModel| spec_filter_allows(filter, m.id)),
            body@ == spec_properties_bytes(items_view(data@).take(i as int).filter(pred)),
        decreases data@.len() - i,
    {
        let item = &data[i];
        let ghost prefix = items_view(data@).take(i as int);
        let ghost m = data@[i as int]@;
        if filter_allows(filter, item.0) {
            Property::pack_property_handle(item, &mut length, &mut body);
        }
        proof {
            reveal(Seq::filter);
            assert(items_view(data@).take(i + 1).drop_last() =~= prefix);
            assert(items_view(data@).take(i + 1).last() == m);
            assert(items_view(data@).take(i + 1) =~= prefix.push(m));
            if pred(m) {
                lemma_properties_bytes_push(prefix.filter(pred), m);
                assert(prefix.push(m).filter(pred) =~= prefix.filter(pred).push(m));
            } else {
                assert(prefix.push(m).filter(pred) =~= prefix.filter(pred));
            }
        }
        i = i + 1;
    }
    proof {
        assert(items_view(data@).take(data@.len() as int) =~= items_view(data@));
    }
    let mut package = pack_var_int(body.len());
    package.append(&mut body);
    assert(package@ =~= spec_property_block_bytes(items_view(data@), filter));
    package
}

/// Serializes the property block of a CONNECT variable header.
pub fn connect(data: &Vec<PropertyItem>) -> (r: Vec<u8>)
    requires
        forall|i: int| 0 <= i < data@.len() ==> spec_property_value_fits(#[trigger] data@[i]@),
    ensures
        r@ == spec_property_block_bytes(items_view(data@), PropertyFilter::Connect),
{
    pack_list(data, PropertyFilter::Connect)
}

/// Serializes the property block of a CONNACK.
pub fn connack(data: &Vec<PropertyItem>) -> (r: Vec<u8>)
    requires
        forall|i: int| 0 <= i < data@.len() ==> spec_property_value_fits(#[trigger] data@[i]@),
    ensures
        r@ == spec_property_block_bytes(items_view(data@), PropertyFilter::Connack),
{
    pack_list(data, PropertyFilter::Connack)
}

/// Serializes the property block of the will part of a CONNECT payload.
pub fn will_properties(data: &Vec<PropertyItem>) -> (r: Vec<u8>)
    requires
        forall|i: int| 0 <= i < data@.len() ==> spec_property_value_fits(#[trigger] data@[i]@),
    ensures
        r@ == spec_property_block_bytes(items_view(data@), PropertyFilter::Will),
{
    pack_list(data, PropertyFilter::Will)
}

/// Serializes the property block of a SUBSCRIBE.
pub fn subscribe(data: &Vec<PropertyItem>) -> (r: Vec<u8>)
    requires
        forall|i: int| 0 <= i < data@.len() ==> spec_property_value_fits(#[trigger] data@[i]@),
    ensures
        r@ == spec_property_block_bytes(items_view(data@), PropertyFilter::Subscribe),
{
    pack_list(data, PropertyFilter::Subscribe)
}

/// Serializes the property block of a SUBACK or an acknowledgment packet.
pub fn suback(data: &Vec<PropertyItem>) -> (r: Vec<u8>)
    requires
        forall|i: int| 0 <= i < data@.len() ==> spec_property_value_fits(#[trigger] data@[i]@),
    ensures
        r@ == spec_property_block_bytes(items_view(data@), PropertyFilter::PubAndSub),
{
    pack_list(data, PropertyFilter::PubAndSub)
}

/// Serializes the property block of a DISCONNECT.
pub fn disconnect(data: &Vec<PropertyItem>) -> (r: Vec<u8>)
    requires
        forall|i: int| 0 <= i < data@.len() ==> spec_property_value_fits(#[trigger] data@[i]@),
    ensures
        r@ == spec_property_block_bytes(items_view(data@), PropertyFilter::Disconnect),
{
    pack_list(data, PropertyFilter::Disconnect)
}

/// Serializes the property block of an AUTH.
pub fn auth(data: &Vec<PropertyItem>) -> (r: Vec<u8>)
    requires
        forall|i: int| 0 <= i < data@.len() ==> spec_property_value_fits(#[trigger] data@[i]@),
    ensures
        r@ == spec_property_block_bytes(items_view(data@), PropertyFilter::Auth),
{
    pack_list(data, PropertyFilter::Auth)
}

/// Serializes the property block of a PUBLISH.
pub fn publish(data: &Vec<PropertyItem>) -> (r: Vec<u8>)
    requires
        forall|i: int| 0 <= i < data@.len() ==> spec_property_value_fits(#[trigger] data@[i]@),
    ensures
        r@ == spec_property_block_bytes(items_view(data@), PropertyFilter::Publish),
{
    pack_list(data, PropertyFilter::Publish)
}

} // verus!
