//! What a payload looks like as JSON.
//!
//! A payload is an object whose members carry the names that the receiving
//! service reads, in a fixed order. An importer that is absent is written as
//! `null`, and the items are an array even when there are none.

use crate::json::{has_member, Json, JsonView};
use crate::payload::{Item, TransferPayload};
use vstd::prelude::*;

verus! {

/// The importer as JSON: its name, or `null` where there is none.
pub open spec fn importer_model<N>(importer: Option<String>) -> JsonView<N> {
    match importer {
        Some(name) => JsonView::Text(name@),
        None => JsonView::Null,
    }
}

/// An item as JSON.
pub open spec fn item_model<N>(item: Item<N>) -> JsonView<N> {
    JsonView::Object(
        seq![
            ("manufacturer"@, JsonView::Text(item.manufacturer@)),
            ("importer"@, importer_model(item.importer)),
            ("country"@, JsonView::Text(item.country@)),
            ("model"@, JsonView::Text(item.model@)),
            ("caliber"@, JsonView::Text(item.caliber@)),
            ("type"@, JsonView::Text(item.item_type@)),
            ("serial"@, JsonView::Text(item.serial@)),
            ("sku"@, JsonView::Text(item.sku@)),
            ("mpn"@, JsonView::Text(item.mpn@)),
            ("upc"@, JsonView::Text(item.upc@)),
            ("barrel_length"@, JsonView::Number(item.barrel_length)),
            ("overall_length"@, JsonView::Number(item.overall_length)),
            ("cost"@, JsonView::Number(item.cost)),
            ("price"@, JsonView::Number(item.price)),
            ("condition"@, JsonView::Text(item.condition@)),
            ("note"@, JsonView::Text(item.note@)),
        ],
    )
}

/// Strings as a JSON array of texts, in order.
pub open spec fn texts_model<N>(texts: Seq<String>) -> JsonView<N> {
    JsonView::Array(Seq::new(texts.len(), |i: int| JsonView::Text(texts[i]@)))
}

/// Items as a JSON array of objects, in order.
pub open spec fn items_model<N>(items: Seq<Item<N>>) -> JsonView<N> {
    JsonView::Array(Seq::new(items.len(), |i: int| item_model(items[i])))
}

/// A payload as JSON.
pub open spec fn payload_model<N>(payload: TransferPayload<N>) -> JsonView<N> {
    JsonView::Object(
        seq![
            ("$schema"@, JsonView::Text(payload.schema@)),
            ("idempotency_key"@, JsonView::Text(payload.idempotency_key@)),
            ("transferor"@, JsonView::Text(payload.transferor@)),
            ("transferee"@, JsonView::Text(payload.transferee@)),
            ("transferee_emails"@, texts_model(payload.transferee_emails@)),
            ("tracking_number"@, JsonView::Text(payload.tracking_number@)),
            ("po_number"@, JsonView::Text(payload.po_number@)),
            ("invoice_number"@, JsonView::Text(payload.invoice_number@)),
            ("acquire_type"@, JsonView::Text(payload.acquire_type@)),
            ("note"@, JsonView::Text(payload.note@)),
            ("items"@, items_model(payload.items@)),
        ],
    )
}

/// Every payload has exactly one member called `items`, and it is an array
/// with one object for each item, in order. For a payload without items it is
/// the empty array: the member is neither `null` nor left out.
pub proof fn lemma_items_member<N>(payload: TransferPayload<N>)
    ensures
        has_member(payload_model(payload), "items"@, items_model(payload.items@)),
        items_model(payload.items@) is Array,
        items_model(payload.items@)->Array_0.len() == payload.items@.len(),
        payload.items@.len() == 0 ==> has_member(
            payload_model(payload),
            "items"@,
            JsonView::Array(Seq::empty()),
        ),
{
    reveal_strlit("$schema");
    reveal_strlit("idempotency_key");
    reveal_strlit("transferor");
    reveal_strlit("transferee");
    reveal_strlit("transferee_emails");
    reveal_strlit("tracking_number");
    reveal_strlit("po_number");
    reveal_strlit("invoice_number");
    reveal_strlit("acquire_type");
    reveal_strlit("note");
    reveal_strlit("items");
    let members = payload_model(payload)->Object_0;
    assert forall|j: int| 0 <= j < members.len() && (#[trigger] members[j]).0 == "items"@ implies j
        == 10 by {
        if j != 10 {
            assert(members[j].0.len() != 5);
        }
    }
    if payload.items@.len() == 0 {
        assert(items_model(payload.items@)->Array_0 =~= Seq::<JsonView<N>>::empty());
    }
}

/// Every item has exactly one member called `importer`. It is `null` exactly
/// when the item has no importer, and the importer's name otherwise: an
/// absent importer is never written as an empty text.
pub proof fn lemma_importer_member<N>(item: Item<N>)
    ensures
        has_member(item_model(item), "importer"@, importer_model(item.importer)),
        item.importer is None <==> importer_model::<N>(item.importer) == JsonView::<N>::Null,
        item.importer matches Some(name) ==> importer_model::<N>(item.importer) == JsonView::<N>::Text(
            name@,
        ),
{
    reveal_strlit("manufacturer");
    reveal_strlit("importer");
    reveal_strlit("country");
    reveal_strlit("model");
    reveal_strlit("caliber");
    reveal_strlit("type");
    reveal_strlit("serial");
    reveal_strlit("sku");
    reveal_strlit("mpn");
    reveal_strlit("upc");
    reveal_strlit("barrel_length");
    reveal_strlit("overall_length");
    reveal_strlit("cost");
    reveal_strlit("price");
    reveal_strlit("condition");
    reveal_strlit("note");
    let members = item_model(item)->Object_0;
    assert forall|j: int| 0 <= j < members.len() && (#[trigger] members[j]).0 == "importer"@ implies j
        == 1 by {
        if j != 1 {
            assert(members[j].0.len() != 8);
        }
    }
}

/// A member whose value is a text.
fn text_member<N>(name: &str, text: &String) -> (member: (String, Json<N>))
    ensures
        member.0@ == name@,
        member.1@ == JsonView::<N>::Text(text@),
{
    (name.to_owned(), Json::Text(text.clone()))
}

/// A member whose value is a number.
fn number_member<N: Copy>(name: &str, number: N) -> (member: (String, Json<N>))
    ensures
        member.0@ == name@,
        member.1@ == JsonView::Number(number),
{
    (name.to_owned(), Json::Number(number))
}

/// Writes an item as a JSON object.
pub fn item_to_json<N: Copy>(item: &Item<N>) -> (json: Json<N>)
    ensures
        json@ == item_model(*item),
{
    let importer = match &item.importer {
        Some(name) => Json::Text(name.clone()),
        None => Json::Null,
    };
    assert(importer@ == importer_model::<N>(item.importer));
    let mut members: Vec<(String, Json<N>)> = Vec::new();
    members.push(text_member("manufacturer", &item.manufacturer));
    members.push(("importer".to_owned(), importer));
    members.push(text_member("country", &item.country));
    members.push(text_member("model", &item.model));
    members.push(text_member("caliber", &item.caliber));
    members.push(text_member("type", &item.item_type));
    members.push(text_member("serial", &item.serial));
    members.push(text_member("sku", &item.sku));
    members.push(text_member("mpn", &item.mpn));
    members.push(text_member("upc", &item.upc));
    members.push(number_member("barrel_length", item.barrel_length));
    members.push(number_member("overall_length", item.overall_length));
    members.push(number_member("cost", item.cost));
    members.push(number_member("price", item.price));
    members.push(text_member("condition", &item.condition));
    members.push(text_member("note", &item.note));
    let json = Json::Object(members);
    assert(json@->Object_0 =~= item_model(*item)->Object_0);
    json
}

/// Writes strings as a JSON array of texts.
pub fn texts_to_json<N>(texts: &Vec<String>) -> (json: Json<N>)
    ensures
        json@ == texts_model::<N>(texts@),
{
    let mut values: Vec<Json<N>> = Vec::new();
    let mut i: usize = 0;
    while i < texts.len()
        invariant
            i <= texts.len(),
            values@.len() == i,
            forall|k: int| 0 <= k < i ==> (#[trigger] values@[k])@ == JsonView::<N>::Text(texts@[k]@),
        decreases texts.len() - i,
    {
        values.push(Json::Text(texts[i].clone()));
        i += 1;
    }
    let json = Json::Array(values);
    assert(json@->Array_0 =~= texts_model::<N>(texts@)->Array_0);
    json
}

/// Writes items as a JSON array of objects.
pub fn items_to_json<N: Copy>(items: &Vec<Item<N>>) -> (json: Json<N>)
    ensures
        json@ == items_model(items@),
{
    let mut values: Vec<Json<N>> = Vec::new();
    let mut i: usize = 0;
    while i < items.len()
        invariant
            i <= items.len(),
            values@.len() == i,
            forall|k: int| 0 <= k < i ==> (#[trigger] values@[k])@ == item_model(items@[k]),
        decreases items.len() - i,
    {
        values.push(item_to_json(&items[i]));
        i += 1;
    }
    let json = Json::Array(values);
    assert(json@->Array_0 =~= items_model(items@)->Array_0);
    json
}

/// Writes a payload as a JSON object.
pub fn payload_to_json<N: Copy>(payload: &TransferPayload<N>) -> (json: Json<N>)
    ensures
        json@ == payload_model(*payload),
{
    let mut members: Vec<(String, Json<N>)> = Vec::new();
    members.push(text_member("$schema", &payload.schema));
    members.push(text_member("idempotency_key", &payload.idempotency_key));
    members.push(text_member("transferor", &payload.transferor));
    members.push(text_member("transferee", &payload.transferee));
    members.push(("transferee_emails".to_owned(), texts_to_json(&payload.transferee_emails)));
    members.push(text_member("tracking_number", &payload.tracking_number));
    members.push(text_member("po_number", &payload.po_number));
    members.push(text_member("invoice_number", &payload.invoice_number));
    members.push(text_member("acquire_type", &payload.acquire_type));
    members.push(text_member("note", &payload.note));
    members.push(("items".to_owned(), items_to_json(&payload.items)));
    let json = Json::Object(members);
    assert(json@->Object_0 =~= payload_model(*payload)->Object_0);
    json
}

} // verus!
