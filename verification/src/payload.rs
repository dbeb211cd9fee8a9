//! The transfer record that is sent: a shipment, its items and its key.

use crate::key::{
    generate_idempotency_key, idempotency_key, is_key_text, newline_free, readable, texts, TransferIdentity,
};
use vstd::prelude::*;

verus! {

/// The schema that every payload names.
pub const SCHEMA_URI: &'static str = "https://schemas.fastbound.org/transfers-push-v1.json";

/// One transferred unit.
///
/// The library never computes with the measures and amounts of an item, so
/// their number type `N` is the caller's choice.
#[derive(Debug, PartialEq)]
pub struct Item<N> {
    pub manufacturer: String,
    /// The importer, where there is one.
    pub importer: Option<String>,
    pub country: String,
    pub model: String,
    pub caliber: String,
    pub item_type: String,
    /// The serial number, by which the idempotency key refers to the item.
    pub serial: String,
    pub sku: String,
    pub mpn: String,
    pub upc: String,
    pub barrel_length: N,
    pub overall_length: N,
    pub cost: N,
    pub price: N,
    pub condition: String,
    pub note: String,
}

/// What is known of a shipment before its items are attached.
#[derive(Debug, PartialEq)]
pub struct Shipment {
    pub shipment_date: String,
    pub transferor: String,
    pub transferee: String,
    pub transferee_emails: Vec<String>,
    pub tracking_number: String,
    pub po_number: String,
    pub invoice_number: String,
    pub acquire_type: String,
    pub note: String,
}

/// One shipment transaction, as it is sent.
#[derive(Debug, PartialEq)]
pub struct TransferPayload<N> {
    pub schema: String,
    pub idempotency_key: String,
    pub transferor: String,
    pub transferee: String,
    pub transferee_emails: Vec<String>,
    pub tracking_number: String,
    pub po_number: String,
    pub invoice_number: String,
    pub acquire_type: String,
    pub note: String,
    pub items: Vec<Item<N>>,
}

impl<N> TransferPayload<N> {
    /// Whether the payload names the schema and carries a key of the right
    /// shape.
    pub open spec fn well_formed(&self) -> bool {
        &&& self.schema@ == SCHEMA_URI@
        &&& is_key_text(self.idempotency_key@)
    }
}

/// The serial numbers of the items, in order.
pub open spec fn serials_of<N>(items: Seq<Item<N>>) -> Seq<Seq<char>> {
    Seq::new(items.len(), |i: int| items[i].serial@)
}

/// The identity of a shipment with the given items.
pub open spec fn shipment_identity<N>(shipment: Shipment, items: Seq<Item<N>>) -> TransferIdentity {
    TransferIdentity {
        shipment_date: shipment.shipment_date@,
        transferor: shipment.transferor@,
        transferee: shipment.transferee@,
        tracking_number: shipment.tracking_number@,
        po_number: shipment.po_number@,
        invoice_number: shipment.invoice_number@,
        serial_numbers: serials_of(items),
    }
}

/// Whether each field that identifies the shipment is a single line.
pub open spec fn single_lines(shipment: Shipment) -> bool {
    &&& newline_free(shipment.shipment_date@)
    &&& newline_free(shipment.transferor@)
    &&& newline_free(shipment.transferee@)
    &&& newline_free(shipment.tracking_number@)
    &&& newline_free(shipment.po_number@)
    &&& newline_free(shipment.invoice_number@)
}

/// Whether every item has a serial number: a single line that is not empty.
/// Nothing enforces this when a payload is assembled.
pub open spec fn have_serials<N>(items: Seq<Item<N>>) -> bool {
    forall|i: int|
        0 <= i < items.len() ==> (#[trigger] items[i]).serial@.len() > 0 && newline_free(
            items[i].serial@,
        )
}

/// A shipment of single lines whose items all have serial numbers has an
/// identity that can be read back from its canonical text, so that any change
/// to it changes the key unless SHA-256 collides.
pub proof fn lemma_identity_is_readable<N>(shipment: Shipment, items: Seq<Item<N>>)
    requires
        single_lines(shipment),
        have_serials(items),
    ensures
        readable(shipment_identity(shipment, items)),
{
    let serials = serials_of(items);
    assert forall|i: int| 0 <= i < serials.len() implies newline_free(#[trigger] serials[i]) by {
        assert(serials[i] == items[i].serial@);
    }
}

/// Copies out the serial numbers of the items, in order.
pub fn serial_numbers<N>(items: &Vec<Item<N>>) -> (serials: Vec<String>)
    ensures
        texts(serials@) == serials_of(items@),
{
    let mut serials: Vec<String> = Vec::new();
    let mut i: usize = 0;
    while i < items.len()
        invariant
            i <= items.len(),
            serials@.len() == i,
            forall|k: int| 0 <= k < i ==> serials@[k]@ == items@[k].serial@,
        decreases items.len() - i,
    {
        serials.push(items[i].serial.clone());
        i += 1;
    }
    serials
}

/// Assembles the payload of a shipment: names the schema, derives the
/// idempotency key from the shipment and the serial numbers of the items, and
/// carries everything else over as it was given. The items are neither
/// reordered nor changed; no items stay no items, and an absent importer stays
/// absent.
pub fn assemble<N>(shipment: Shipment, items: Vec<Item<N>>) -> (payload: TransferPayload<N>)
    ensures
        payload.well_formed(),
        payload.idempotency_key@ == idempotency_key(shipment_identity(shipment, items@)),
        payload.transferor == shipment.transferor,
        payload.transferee == shipment.transferee,
        payload.transferee_emails == shipment.transferee_emails,
        payload.tracking_number == shipment.tracking_number,
        payload.po_number == shipment.po_number,
        payload.invoice_number == shipment.invoice_number,
        payload.acquire_type == shipment.acquire_type,
        payload.note == shipment.note,
        payload.items == items,
{
    let serials = serial_numbers(&items);
    let idempotency_key = generate_idempotency_key(
        shipment.shipment_date.as_str(),
        shipment.transferor.as_str(),
        shipment.transferee.as_str(),
        shipment.tracking_number.as_str(),
        shipment.po_number.as_str(),
        shipment.invoice_number.as_str(),
        serials.as_slice(),
    );
    TransferPayload {
        schema: SCHEMA_URI.to_owned(),
        idempotency_key,
        transferor: shipment.transferor,
        transferee: shipment.transferee,
        transferee_emails: shipment.transferee_emails,
        tracking_number: shipment.tracking_number,
        po_number: shipment.po_number,
        invoice_number: shipment.invoice_number,
        acquire_type: shipment.acquire_type,
        note: shipment.note,
        items,
    }
}

} // verus!
