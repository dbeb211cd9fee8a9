use transfers::key::generate_idempotency_key;
use transfers::payload::{assemble, serial_numbers, Item, Shipment, SCHEMA_URI};

fn pistol(serial: &str, importer: Option<&str>, barrel_length: f64) -> Item<f64> {
    Item {
        manufacturer: "Glock".to_string(),
        importer: importer.map(|s| s.to_string()),
        country: "Austria".to_string(),
        model: "G17".to_string(),
        caliber: "9mm".to_string(),
        item_type: "Pistol".to_string(),
        serial: serial.to_string(),
        sku: "GLK-G17".to_string(),
        mpn: "G17MPN".to_string(),
        upc: "123456789012".to_string(),
        barrel_length,
        overall_length: 8.03,
        cost: 500.00,
        price: 650.00,
        condition: "New".to_string(),
        note: "Brand new firearm".to_string(),
    }
}

fn shipment() -> Shipment {
    Shipment {
        shipment_date: "2025-03-14".to_string(),
        transferor: "1-23-456-78-9A-12345".to_string(),
        transferee: "1-23-456-78-9B-54321".to_string(),
        transferee_emails: vec![
            "transferee@example.com".to_string(),
            "transferee@example.net".to_string(),
            "transferee@example.org".to_string(),
        ],
        tracking_number: "1Z999AA10123456784".to_string(),
        po_number: "PO123456".to_string(),
        invoice_number: "INV98765".to_string(),
        acquire_type: "Purchase".to_string(),
        note: "This is a test transfer.".to_string(),
    }
}

#[test]
fn schema_uri_names_the_push_schema() {
    assert_eq!(SCHEMA_URI, "https://schemas.fastbound.org/transfers-push-v1.json");
}

#[test]
fn serial_numbers_come_in_item_order() {
    let items = vec![pistol("ABC123456", None, 4.48), pistol("XYZ987654", None, 3.1), pistol("ABC123456", None, 4.48)];
    assert_eq!(serial_numbers(&items), vec!["ABC123456", "XYZ987654", "ABC123456"]);
    let none: Vec<Item<f64>> = Vec::new();
    assert!(serial_numbers(&none).is_empty());
}

#[test]
fn assembled_payload_names_schema_and_key() {
    let items = vec![pistol("ABC123456", None, 4.48), pistol("XYZ987654", None, 3.1)];
    let payload = assemble(shipment(), items);
    assert_eq!(payload.schema, "https://schemas.fastbound.org/transfers-push-v1.json");
    assert_eq!(payload.idempotency_key, "a2ac1e15a3d6817da487e43d472e82ba817fa2954cdf7542e65985bf258e7cb7");
}

#[test]
fn assembled_payload_carries_the_shipment_over() {
    let payload = assemble(shipment(), vec![pistol("ABC123456", None, 4.48)]);
    let given = shipment();
    assert_eq!(payload.transferor, given.transferor);
    assert_eq!(payload.transferee, given.transferee);
    assert_eq!(payload.transferee_emails, given.transferee_emails);
    assert_eq!(payload.tracking_number, given.tracking_number);
    assert_eq!(payload.po_number, given.po_number);
    assert_eq!(payload.invoice_number, given.invoice_number);
    assert_eq!(payload.acquire_type, "Purchase");
    assert_eq!(payload.note, "This is a test transfer.");
}

#[test]
fn assembled_payload_keeps_items_as_given() {
    let items = vec![pistol("ABC123456", None, 4.48), pistol("XYZ987654", Some("Importer Inc."), 3.1)];
    let payload = assemble(shipment(), items);
    assert_eq!(payload.items.len(), 2);
    assert_eq!(payload.items[0].serial, "ABC123456");
    assert_eq!(payload.items[0].importer, None);
    assert_eq!(payload.items[0].barrel_length, 4.48);
    assert_eq!(payload.items[0].overall_length, 8.03);
    assert_eq!(payload.items[0].cost, 500.00);
    assert_eq!(payload.items[0].price, 650.00);
    assert_eq!(payload.items[1].serial, "XYZ987654");
    assert_eq!(payload.items[1].importer, Some("Importer Inc.".to_string()));
    assert_eq!(payload.items[1].barrel_length, 3.1);
    assert_eq!(payload.items[1].manufacturer, "Glock");
    assert_eq!(payload.items[1].item_type, "Pistol");
}

#[test]
fn assembled_payload_without_items_has_an_empty_item_list() {
    let none: Vec<Item<f64>> = Vec::new();
    let payload = assemble(shipment(), none);
    assert!(payload.items.is_empty());
    let given = shipment();
    let expected = generate_idempotency_key(
        &given.shipment_date,
        &given.transferor,
        &given.transferee,
        &given.tracking_number,
        &given.po_number,
        &given.invoice_number,
        &[],
    );
    assert_eq!(payload.idempotency_key, expected);
}

#[test]
fn assembled_key_is_the_key_of_the_serials() {
    let items = vec![pistol("S1", None, 4.48), pistol("S2", None, 4.48)];
    let given = Shipment {
        shipment_date: "2024-01-01".to_string(),
        transferor: "T1".to_string(),
        transferee: "T2".to_string(),
        transferee_emails: Vec::new(),
        tracking_number: "TRK1".to_string(),
        po_number: "PO1".to_string(),
        invoice_number: "INV1".to_string(),
        acquire_type: "Purchase".to_string(),
        note: String::new(),
    };
    let payload = assemble(given, items);
    assert_eq!(payload.idempotency_key, "925d1aaea40d62099c910cdbfa5a794f71541e91ae6ee6b992b581aa3559c9d6");
    assert!(payload.transferee_emails.is_empty());
}

#[test]
fn assembled_key_ignores_what_does_not_identify_the_shipment() {
    let first = assemble(shipment(), vec![pistol("ABC123456", None, 4.48)]);
    let mut other = shipment();
    other.note = "Another note".to_string();
    other.acquire_type = "Consignment".to_string();
    other.transferee_emails = Vec::new();
    let second = assemble(other, vec![pistol("ABC123456", Some("Importer Inc."), 5.0)]);
    assert_eq!(first.idempotency_key, second.idempotency_key);
}
