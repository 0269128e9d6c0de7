use flute::customers::{customer_list_table, customer_table, extract_customer_items, payment_method_quiet, payment_method_table, payment_methods_table};
use flute::devices::{device_list_table, device_table, extract_devices, ttp_jwt_table};
use flute::json::{parse_json, Json};
use flute::settlements::extract_settlement_items;
use flute::terminals::{extract_items, terminal_list_table, terminal_status_table};
use flute::tokens::{extract_tokens, token_create_table, token_list_table};

fn j(text: &str) -> Json {
    parse_json(text).unwrap()
}

#[test]
fn customer_table_shows_all_fields() {
    let v = j(r#"{ "id": "cust-001", "firstName": "Alice", "lastName": "Smith", "email": "alice@example.com",
        "mobilePhoneNumber": "5550001234", "companyName": "Acme Corp", "createdOn": "2024-01-15T10:00:00Z" }"#);
    let table = customer_table(&v);
    for s in ["cust-001", "Alice", "Smith", "alice@example.com", "5550001234", "Acme Corp", "2024-01-15"] {
        assert!(table.contains(s), "missing {s}");
    }
}

#[test]
fn customer_table_missing_fields_show_dash() {
    let table = customer_table(&j(r#"{ "id": "cust-002" }"#));
    assert!(table.contains("cust-002"));
    assert!(table.contains('—'));
}

#[test]
fn customer_table_exact_layout() {
    let table = customer_table(&j(r#"{ "id": "c" }"#));
    assert_eq!(
        table,
        "id:                 c\nfirstName:          —\nlastName:           —\nemail:              —\nmobilePhoneNumber:  —\ncompanyName:        —\ncreatedOn:          —"
    );
}

#[test]
fn customer_list_table_renders_header_and_rows() {
    let items = vec![
        j(r#"{ "id": "cust-001", "firstName": "Alice", "lastName": "Smith", "email": "alice@example.com",
            "mobilePhoneNumber": "5550001234", "createdOn": "2024-01-15T10:00:00Z" }"#),
        j(r#"{ "id": "cust-002", "firstName": "Bob", "lastName": "Jones", "email": "bob@example.com",
            "mobilePhoneNumber": null, "createdOn": "2024-02-20T08:00:00Z" }"#),
    ];
    let table = customer_list_table(&items);
    for s in ["ID", "NAME", "EMAIL", "cust-001", "Alice Smith", "alice@example.com", "2024-01-15", "cust-002", "Bob Jones"] {
        assert!(table.contains(s), "missing {s}");
    }
}

#[test]
fn customer_list_table_empty_list_returns_header_only() {
    let table = customer_list_table(&Vec::new());
    assert!(table.contains("ID"));
    assert!(table.contains("NAME"));
    let lines: Vec<&str> = table.lines().collect();
    assert_eq!(lines.len(), 2);
}

#[test]
fn customer_list_table_columns_line_up() {
    let items = vec![j(r#"{ "id": "c-1", "firstName": "A", "createdOn": "2024" }"#), j(r#"{}"#)];
    let table = customer_list_table(&items);
    let widths: Vec<usize> = table.lines().map(|l| l.chars().count()).collect();
    assert_eq!(widths, vec![124, 124, 124, 124]);
    assert!(table.lines().nth(2).unwrap().contains("A    "));
    assert!(table.lines().nth(2).unwrap().contains("2024"));
}

#[test]
fn payment_methods_table_renders_card_row() {
    let items = vec![j(r#"{ "id": "pm-001", "typeName": "Visa", "panMask": "411111****1111",
        "expirationMonth": 12, "expirationYear": 2026, "isDefault": true }"#)];
    let table = payment_methods_table(&items);
    for s in ["pm-001", "Visa", "411111", "12/2026", "yes"] {
        assert!(table.contains(s), "missing {s}");
    }
}

#[test]
fn payment_methods_table_renders_ach_row() {
    let items = vec![j(r#"{ "id": "pm-ach-001", "typeName": "ACH", "accountNumber": "123456789", "isDefault": false }"#)];
    let table = payment_methods_table(&items);
    for s in ["pm-ach-001", "ACH", "123456789", "no"] {
        assert!(table.contains(s), "missing {s}");
    }
}

#[test]
fn payment_methods_table_empty_returns_header_only() {
    let table = payment_methods_table(&Vec::new());
    assert!(table.contains("ID"));
    assert!(table.contains("TYPE"));
    assert_eq!(table.lines().count(), 2);
}

#[test]
fn render_payment_method_table_shows_id_typename_pan() {
    let v = j(r#"{ "id": "pm-card-42", "typeName": "Visa", "panMask": "411111****1111",
        "expirationMonth": 9, "expirationYear": 2028, "isDefault": false }"#);
    let table = payment_method_table(&v);
    assert!(table.contains("pm-card-42"), "must contain id");
    assert!(table.contains("Visa"), "must contain typeName");
    assert!(table.contains("411111****1111"), "must contain panMask");
    assert!(table.contains("09/2028"), "must contain formatted expiry");
    assert!(table.contains("no"), "must contain isDefault=no");
}

#[test]
fn render_payment_method_table_ach_shows_account_number() {
    let v = j(r#"{ "id": "pm-ach-77", "typeName": "ACH", "accountNumber": "987654321", "isDefault": true }"#);
    let table = payment_method_table(&v);
    assert!(table.contains("pm-ach-77"), "must contain id");
    assert!(table.contains("ACH"), "must contain typeName");
    assert!(table.contains("987654321"), "must contain accountNumber");
    assert!(table.contains("yes"), "must contain isDefault=yes");
    assert!(table.contains('—'), "missing exp must render as —");
}

#[test]
fn render_payment_method_quiet_returns_just_id() {
    let v = j(r#"{ "id": "pm-quiet-99", "typeName": "ACH", "accountNumber": "987654321" }"#);
    assert_eq!(payment_method_quiet(&v), Some("pm-quiet-99"));
}

#[test]
fn render_payment_method_quiet_returns_none_when_no_id() {
    assert_eq!(payment_method_quiet(&j(r#"{ "typeName": "Visa" }"#)), None);
}

#[test]
fn customers_extract_items_from_page_wrapper() {
    let (items, total) = extract_customer_items(&j(r#"{ "items": [{"id": "c1"}, {"id": "c2"}], "total": 42 }"#));
    assert_eq!(items.len(), 2);
    assert_eq!(total, 42);
}

#[test]
fn customers_extract_items_falls_back_to_array() {
    let (items, total) = extract_customer_items(&j(r#"[{"id": "c1"}, {"id": "c2"}, {"id": "c3"}]"#));
    assert_eq!(items.len(), 3);
    assert_eq!(total, 3);
}

fn sample_device() -> Json {
    j(r#"{ "deviceId": "d-1", "deviceName": "iPhone16,2", "tapToPayStatus": "Active", "tapToPayEnabled": true, "apiKeyName": "ARISE Mobile App" }"#)
}

#[test]
fn device_list_table_renders_header_and_rows() {
    let table = device_list_table(&vec![sample_device()]);
    for s in ["DEVICE ID", "NAME", "TAP-TO-PAY", "ENABLED", "API KEY", "d-1", "iPhone16,2", "Active", "true", "ARISE Mobile App"] {
        assert!(table.contains(s), "missing {s}");
    }
}

#[test]
fn device_list_table_empty_returns_header_only() {
    let table = device_list_table(&Vec::new());
    assert!(table.contains("DEVICE ID"));
    assert!(table.contains("TAP-TO-PAY"));
    assert_eq!(table.lines().count(), 2);
}

#[test]
fn device_list_table_missing_fields_show_dash() {
    let table = device_list_table(&vec![j(r#"{ "deviceId": "d-002" }"#)]);
    assert!(table.contains("d-002"));
    assert!(table.contains('—'));
}

#[test]
fn device_list_table_falls_back_to_id_when_no_device_id() {
    let table = device_list_table(&vec![j(r#"{ "id": "fallback-id" }"#)]);
    assert!(table.contains("fallback-id"));
}

#[test]
fn device_table_shows_all_live_fields() {
    let table = device_table(&sample_device());
    for s in ["d-1", "iPhone16,2", "Active", "true", "ARISE Mobile App"] {
        assert!(table.contains(s), "missing {s}");
    }
}

#[test]
fn device_table_missing_fields_show_dash() {
    let table = device_table(&j(r#"{ "deviceId": "d-999" }"#));
    assert!(table.contains("d-999"));
    assert!(table.contains('—'));
}

#[test]
fn device_table_falls_back_to_id_when_no_device_id() {
    let table = device_table(&j(r#"{ "id": "fallback-id", "deviceName": "Test" }"#));
    assert!(table.contains("fallback-id"));
}

#[test]
fn device_id_that_is_not_a_string_shows_dash() {
    let table = device_table(&j(r#"{ "deviceId": 5, "id": "not-used" }"#));
    assert!(table.starts_with("deviceId:       —"));
}

#[test]
fn ttp_jwt_table_shows_jwt_and_device_id() {
    let table = ttp_jwt_table(&j(r#"{ "jwt": "eyJhbGciOiJSUzI1NiJ9.test.sig", "deviceId": "DEVICE-ABC-123" }"#));
    assert!(table.contains("eyJhbGciOiJSUzI1NiJ9"));
    assert!(table.contains("DEVICE-ABC-123"));
}

#[test]
fn ttp_jwt_table_missing_fields_show_dash() {
    assert!(ttp_jwt_table(&j("{}")).contains('—'));
}

#[test]
fn extract_devices_from_devices_key() {
    assert_eq!(extract_devices(&j(r#"{ "devices": [ { "id": "d1" }, { "id": "d2" } ] }"#)).len(), 2);
}

#[test]
fn extract_devices_falls_back_to_array() {
    assert_eq!(extract_devices(&j(r#"[{ "id": "d1" }, { "id": "d2" }, { "id": "d3" }]"#)).len(), 3);
}

#[test]
fn extract_devices_returns_empty_for_unknown_shape() {
    assert!(extract_devices(&j(r#"{ "other": "data" }"#)).is_empty());
}

#[test]
fn token_create_table_shows_client_id_and_secret() {
    let table = token_create_table(&j(r#"{ "clientId": "client-abc-123", "clientSecret": "super-secret-one-shot" }"#));
    assert!(table.contains("client-abc-123"), "must contain clientId");
    assert!(table.contains("super-secret-one-shot"), "must contain clientSecret");
    assert!(table.contains("ONLY ONCE"), "must contain one-shot warning");
}

#[test]
fn token_create_table_missing_fields_show_dash() {
    let table = token_create_table(&j("{}"));
    assert!(table.contains('—'), "missing fields must render as —");
    assert!(table.contains("ONLY ONCE"), "must still show one-shot warning");
}

#[test]
fn token_list_table_renders_header_and_rows() {
    let items = vec![
        j(r#"{ "clientId": "client-abc-123", "tokenName": "My App Token", "merchantId": "merchant-001", "creationDate": "2024-03-15T10:00:00Z" }"#),
        j(r#"{ "clientId": "client-def-456", "tokenName": "Another Token", "merchantId": "merchant-002", "creationDate": "2024-04-20T08:00:00Z" }"#),
    ];
    let table = token_list_table(&items);
    for s in ["CLIENT ID", "NAME", "MERCHANT", "CREATED", "client-abc-123", "My App Token", "merchant-001", "2024-03-15", "client-def-456"] {
        assert!(table.contains(s), "missing {s}");
    }
    assert!(!table.contains("T10:00"));
}

#[test]
fn token_list_table_empty_returns_header_only() {
    let table = token_list_table(&Vec::new());
    assert!(table.contains("CLIENT ID"));
    assert!(table.contains("NAME"));
    assert_eq!(table.lines().count(), 2);
}

#[test]
fn token_list_table_missing_fields_show_dash() {
    let table = token_list_table(&vec![j(r#"{ "clientId": "client-only" }"#)]);
    assert!(table.contains("client-only"));
    assert!(table.contains('—'));
}

#[test]
fn extract_tokens_from_tokens_key() {
    assert_eq!(extract_tokens(&j(r#"{ "tokens": [ { "clientId": "c1" }, { "clientId": "c2" } ] }"#)).len(), 2);
}

#[test]
fn extract_tokens_falls_back_to_array() {
    assert_eq!(extract_tokens(&j(r#"[{ "clientId": "c1" }, { "clientId": "c2" }]"#)).len(), 2);
}

#[test]
fn extract_tokens_returns_empty_for_unknown_shape() {
    assert!(extract_tokens(&j(r#"{ "other": "data" }"#)).is_empty());
}

fn sample_item() -> Json {
    j(r#"{ "id": "term-001", "serialNumber": "SN123456", "terminalManufacturer": "Ingenico", "terminalModel": "Desk/5000",
        "terminalModeName": "Desk 5000", "connectionStatus": "Online", "deliveryStatusName": "Delivered", "lastSeenTimestamp": "2024-06-01T10:00:00Z" }"#)
}

fn sample_status() -> Json {
    j(r#"{ "terminalId": "term-001", "terminalPosStatus": "Active", "connectionStatus": "Online", "connectionType": "WiFi",
        "wifiConnectionStrength": 85, "batteryLevel": 72, "availabilityStatus": "Available", "ariseTerminalVersion": "2.1.0",
        "printerStatus": "Ready", "lastSeenTimestamp": "2024-06-01T10:00:00Z" }"#)
}

#[test]
fn terminal_list_table_renders_header_and_rows() {
    let table = terminal_list_table(&vec![sample_item()]);
    for s in ["ID", "SERIAL", "MODEL", "CONNECTION", "LAST SEEN", "term-001", "SN123456", "Desk/5000", "Desk 5000", "Online"] {
        assert!(table.contains(s), "missing {s}");
    }
}

#[test]
fn terminal_list_table_empty_returns_header_only() {
    let table = terminal_list_table(&Vec::new());
    assert!(table.contains("ID"));
    assert!(table.contains("SERIAL"));
    assert_eq!(table.lines().count(), 2);
}

#[test]
fn terminal_list_table_missing_fields_show_dash() {
    let table = terminal_list_table(&vec![j(r#"{ "id": "term-002" }"#)]);
    assert!(table.contains("term-002"));
    assert!(table.contains('—'));
}

#[test]
fn terminal_status_table_shows_all_key_fields() {
    let table = terminal_status_table(&sample_status());
    for s in ["term-001", "Active", "Online", "WiFi", "72", "85", "Available", "Ready", "2024-06-01"] {
        assert!(table.contains(s), "missing {s}");
    }
}

#[test]
fn terminal_status_table_missing_fields_show_dash() {
    let table = terminal_status_table(&j(r#"{ "terminalId": "term-999" }"#));
    assert!(table.contains("term-999"));
    assert!(table.contains('—'));
}

#[test]
fn terminals_extract_items_from_page_wrapper() {
    let (items, total) = extract_items(&j(r#"{ "items": [{ "id": "t1" }, { "id": "t2" }], "total": 42 }"#));
    assert_eq!(items.len(), 2);
    assert_eq!(total, 42);
}

#[test]
fn terminals_extract_items_falls_back_to_array() {
    let (items, total) = extract_items(&j(r#"[{ "id": "t1" }, { "id": "t2" }, { "id": "t3" }]"#));
    assert_eq!(items.len(), 3);
    assert_eq!(total, 3);
}

#[test]
fn settlements_extract_items_from_page_wrapper() {
    let (items, total) = extract_settlement_items(&j(r#"{ "items": [{"id": "b1"}, {"id": "b2"}], "total": 42 }"#));
    assert_eq!(items.len(), 2);
    assert_eq!(total, 42);
}

#[test]
fn settlements_extract_items_falls_back_to_array() {
    let (items, total) = extract_settlement_items(&j(r#"[{"id": "b1"}, {"id": "b2"}, {"id": "b3"}]"#));
    assert_eq!(items.len(), 3);
    assert_eq!(total, 3);
}

#[test]
fn extract_items_returns_empty_for_unknown_shape() {
    let (items, total) = extract_settlement_items(&j(r#"{ "other": "data" }"#));
    assert!(items.is_empty());
    assert_eq!(total, 0);
}

#[test]
fn page_with_non_array_items_reads_as_empty_with_total() {
    let (items, total) = extract_settlement_items(&j(r#"{ "items": 3, "total": 9 }"#));
    assert!(items.is_empty());
    assert_eq!(total, 9);
}
