use flute::api::{ApiRequest, HttpMethod, Reply};
use flute::json::{parse_json, to_json_text, Json};
use flute::money::{parse_amount, parse_rate};
use flute::transactions::{
    build_capture_body, build_refund_body, build_sale_body, build_settle_body, build_tip_adjust_body,
    build_void_body, filter_items, parse_product, parse_products, ExpiryError, ProductError, SaleArgs,
};
use flute::money::MoneyError;

fn keys(j: &Json) -> Vec<String> {
    match j {
        Json::Object(es) => es.iter().map(|(k, _)| k.clone()).collect(),
        _ => panic!("not an object"),
    }
}

fn keyed_sale() -> SaleArgs {
    SaleArgs {
        amount: parse_amount("100.00").unwrap(),
        card: Some("4111111111111111".into()),
        exp: Some("12/26".into()),
        cvv: Some("123".into()),
        tip_amount: None,
        customer_id: None,
        payment_method_id: None,
        currency_id: Some(1),
        card_data_source: 1,
        l2_tax_rate: None,
        l3_invoice: None,
        l3_po: None,
        l3_products: Vec::new(),
        reference_id: None,
    }
}

#[test]
fn sale_body_maps_card_flags_to_api_fields() {
    let body = build_sale_body(&keyed_sale()).unwrap();
    assert_eq!(to_json_text(body.get("amount").unwrap()), "100.00");
    assert_eq!(body.str_at("accountNumber"), Some("4111111111111111"));
    assert_eq!(body.str_at("securityCode"), Some("123"));
    assert_eq!(body.get("expirationMonth"), Some(&Json::Number("12".into())));
    assert_eq!(body.get("expirationYear"), Some(&Json::Number("2026".into())));
    assert_eq!(body.get("currencyId"), Some(&Json::Number("1".into())));
    assert_eq!(body.get("cardDataSource"), Some(&Json::Number("1".into())));
    assert_eq!(body.bool_at("customerInitiatedTransaction"), Some(false));
    assert!(body.get("tipAmount").is_none());
    assert!(body.get("l2").is_none());
    assert!(body.get("l3").is_none());
}

#[test]
fn sale_body_omits_currency_when_not_given() {
    let mut args = keyed_sale();
    args.currency_id = None;
    args.card = None;
    args.cvv = None;
    args.exp = None;
    args.payment_method_id = Some("pm-1".into());
    args.customer_id = Some("c-1".into());
    let body = build_sale_body(&args).unwrap();
    assert_eq!(
        keys(&body),
        vec!["amount", "customerId", "paymentMethodId", "cardDataSource", "customerInitiatedTransaction"]
    );
}

#[test]
fn sale_body_nests_level_two_and_three_data() {
    let mut args = keyed_sale();
    args.tip_amount = Some(parse_amount("2.50").unwrap());
    args.l2_tax_rate = Some(parse_rate("0.08").unwrap());
    args.l3_po = Some("PO-7".into());
    args.reference_id = Some("ref-1".into());
    let body = build_sale_body(&args).unwrap();
    assert_eq!(to_json_text(body.get("tipAmount").unwrap()), "2.50");
    let l2 = body.get("l2").unwrap();
    assert_eq!(to_json_text(l2), "{\"salesTaxRate\":0.08}");
    let l3 = body.get("l3").unwrap();
    assert_eq!(keys(l3), vec!["purchaseOrder"]);
    assert_eq!(l3.str_at("purchaseOrder"), Some("PO-7"));
    assert_eq!(body.str_at("referenceId"), Some("ref-1"));
}

#[test]
fn sale_body_refuses_a_bad_expiry() {
    let mut args = keyed_sale();
    args.exp = Some("13/26".into());
    assert_eq!(build_sale_body(&args), Err(ExpiryError::MonthOutOfRange(13, "13/26".into())));
    args.exp = Some("1226".into());
    assert_eq!(build_sale_body(&args), Err(ExpiryError::MissingSlash("1226".into())));
}

#[test]
fn four_digit_expiry_year_is_sent_as_typed() {
    let mut args = keyed_sale();
    args.exp = Some("03/2027".into());
    let body = build_sale_body(&args).unwrap();
    assert_eq!(body.get("expirationMonth"), Some(&Json::Number("3".into())));
    assert_eq!(body.get("expirationYear"), Some(&Json::Number("2027".into())));
}

#[test]
fn capture_body_sends_amount_only_for_partial_capture() {
    let full = build_capture_body("t-1", None);
    assert_eq!(to_json_text(&full), "{\"transactionId\":\"t-1\"}");
    let partial = build_capture_body("t-1", Some(parse_amount("5.25").unwrap()));
    assert_eq!(to_json_text(&partial), "{\"amount\":5.25,\"transactionId\":\"t-1\"}");
    assert_eq!(keys(&partial), vec!["transactionId", "amount"]);
}

#[test]
fn void_and_settle_bodies_carry_one_id() {
    assert_eq!(to_json_text(&build_void_body("t-2")), "{\"transactionId\":\"t-2\"}");
    assert_eq!(to_json_text(&build_settle_body("pp-9")), "{\"paymentProcessorId\":\"pp-9\"}");
}

#[test]
fn refund_body_always_names_card_data_source() {
    let full = build_refund_body("t-3", None, 1);
    assert_eq!(to_json_text(&full), "{\"cardDataSource\":1,\"transactionId\":\"t-3\"}");
    let partial = build_refund_body("t-3", Some(parse_amount("1").unwrap()), 7);
    assert_eq!(to_json_text(&partial), "{\"amount\":1,\"cardDataSource\":7,\"transactionId\":\"t-3\"}");
    assert_eq!(keys(&partial), vec!["transactionId", "cardDataSource", "amount"]);
}

#[test]
fn tip_adjust_body_keeps_the_exact_decimal() {
    let body = build_tip_adjust_body("t-4", parse_amount("3.50").unwrap());
    assert_eq!(to_json_text(&body), "{\"tipAmount\":3.50,\"transactionId\":\"t-4\"}");
}

#[test]
fn transaction_endpoints_follow_the_api() {
    let b = build_void_body("t");
    let cases = [
        (ApiRequest::capture(b.deep_clone()), "/pay-api/v1/transactions/capture"),
        (ApiRequest::void(b.deep_clone()), "/pay-api/v1/transactions/void"),
        (ApiRequest::refund(b.deep_clone()), "/pay-api/v1/transactions/return"),
        (ApiRequest::settle(b.deep_clone()), "/pay-api/v1/transactions/settle"),
        (ApiRequest::tip_adjust(b.deep_clone()), "/pay-api/v1/transactions/tip-adjustment"),
    ];
    for (r, path) in cases {
        assert_eq!(r.method, HttpMethod::Post);
        assert_eq!(r.path, path);
        assert_eq!(r.body, Some(b.deep_clone()));
        assert_eq!(r.reply, Reply::Json);
    }
    let g = ApiRequest::get_transaction("abc");
    assert_eq!(g.method, HttpMethod::Get);
    assert_eq!(g.path, "/pay-api/v1/transactions/abc");
    assert!(g.body.is_none());
}

#[test]
fn transaction_list_sends_page_size_and_unsettled_flag() {
    assert_eq!(ApiRequest::list_transactions(None, Some(25), None).path, "/pay-api/v1/transactions?pageSize=25");
    assert_eq!(
        ApiRequest::list_transactions(Some(2), Some(10), Some(true)).path,
        "/pay-api/v1/transactions?page=2&pageSize=10&noBatch=true"
    );
    assert_eq!(ApiRequest::list_transactions(None, None, None).path, "/pay-api/v1/transactions");
}

fn page() -> Vec<Json> {
    let doc = parse_json(
        r#"[
            {"id": "a", "status": "Approved", "date": "2026-06-01T10:00:00Z"},
            {"id": "b", "status": "declined", "date": "2026-06-03T09:00:00Z"},
            {"id": "c", "status": "APPROVED", "date": "2026-06-05T23:59:59Z"},
            {"id": "d", "date": "2026-06-02"},
            {"id": "e", "status": "Approved"}
        ]"#,
    )
    .unwrap();
    match doc {
        Json::Array(items) => items,
        _ => panic!("not an array"),
    }
}

fn ids(items: &[Json]) -> Vec<&str> {
    items.iter().map(|j| j.str_at("id").unwrap()).collect()
}

#[test]
fn list_filters_keep_everything_when_none_is_given() {
    let items = page();
    assert_eq!(ids(&filter_items(&items, None, None, None)), vec!["a", "b", "c", "d", "e"]);
}

#[test]
fn status_filter_ignores_case() {
    let items = page();
    assert_eq!(ids(&filter_items(&items, Some("approved"), None, None)), vec!["a", "c", "e"]);
    assert_eq!(ids(&filter_items(&items, Some("DECLINED"), None, None)), vec!["b"]);
}

#[test]
fn date_filters_are_inclusive_days() {
    let items = page();
    assert_eq!(ids(&filter_items(&items, None, Some("2026-06-03"), None)), vec!["b", "c"]);
    assert_eq!(ids(&filter_items(&items, None, None, Some("2026-06-03"))), vec!["a", "b", "d"]);
    assert_eq!(ids(&filter_items(&items, None, Some("2026-06-02"), Some("2026-06-04"))), vec!["b", "d"]);
    assert_eq!(
        ids(&filter_items(&items, Some("approved"), Some("2026-06-01"), Some("2026-06-05"))),
        vec!["a", "c"]
    );
}

#[test]
fn product_line_reads_five_fields() {
    let p = parse_product("Widget, W-1 ,9.99,EA,2").unwrap();
    assert_eq!(keys(&p), vec!["description", "sku", "unitPrice", "unitOfMeasure", "quantity"]);
    assert_eq!(p.str_at("description"), Some("Widget"));
    assert_eq!(p.str_at("sku"), Some("W-1"));
    assert_eq!(to_json_text(p.get("unitPrice").unwrap()), "9.99");
    assert_eq!(p.str_at("unitOfMeasure"), Some("EA"));
    assert_eq!(to_json_text(p.get("quantity").unwrap()), "2");
}

#[test]
fn product_line_refusals() {
    assert_eq!(parse_product("Widget,W-1,9.99,EA"), Err(ProductError::FieldCount(4, "Widget,W-1,9.99,EA".into())));
    assert_eq!(parse_product("a,b,c,d,e,f"), Err(ProductError::FieldCount(6, "a,b,c,d,e,f".into())));
    assert_eq!(parse_product("W,S,9.999,EA,1"), Err(ProductError::UnitPrice(MoneyError::TooManyPlaces("9.999".into()))));
    assert_eq!(parse_product("W,S,9.99,EA,-1"), Err(ProductError::Quantity(MoneyError::Negative("-1".into()))));
    assert_eq!(
        parse_product("W,S,x,EA,1").unwrap_err().describe(),
        "unit price: invalid amount: x"
    );
    let lines = vec!["A,1,1.00,EA,1".to_string(), "B,2,oops,EA,1".to_string(), "C".to_string()];
    assert_eq!(parse_products(&lines), Err(ProductError::UnitPrice(MoneyError::Invalid("oops".into()))));
}

#[test]
fn sale_body_sends_products_inside_l3() {
    let mut args = keyed_sale();
    args.l3_invoice = Some("INV-1".into());
    args.l3_products = parse_products(&vec!["Widget,W-1,9.99,EA,2".to_string(), "Bolt,B-2,0.50,EA,10".to_string()]).unwrap();
    let body = build_sale_body(&args).unwrap();
    let l3 = body.get("l3").unwrap();
    assert_eq!(keys(l3), vec!["invoiceNumber", "products"]);
    match l3.get("products") {
        Some(Json::Array(items)) => {
            assert_eq!(items.len(), 2);
            assert_eq!(items[1].str_at("sku"), Some("B-2"));
        }
        other => panic!("expected an array, got {other:?}"),
    }
    let mut only_products = keyed_sale();
    only_products.l3_products = parse_products(&vec!["W,S,1,EA,1".to_string()]).unwrap();
    assert_eq!(keys(build_sale_body(&only_products).unwrap().get("l3").unwrap()), vec!["products"]);
}

#[test]
fn inspect_table_shows_fields_amounts_and_operations() {
    let v = parse_json(
        r#"{
            "transactionId": "t-9",
            "transactionDateTime": "2026-06-01T10:00:00Z",
            "status": "Approved",
            "authCode": "A1",
            "responseCode": "00",
            "customerPan": "411111******1111",
            "cardDataSource": 1,
            "amount": { "baseAmount": 10.00, "tipAmount": 1.50, "totalAmount": 11.50 },
            "availableOperations": ["Void", "Refund"]
        }"#,
    )
    .unwrap();
    let t = flute::transactions::inspect_table(&v);
    let lines: Vec<&str> = t.lines().collect();
    assert_eq!(lines.len(), 14);
    assert_eq!(lines[0], "transactionId:       t-9");
    assert_eq!(lines[5], "responseDescription: —");
    assert_eq!(lines[7], "cardDataSource:      1");
    assert_eq!(lines[9], "baseAmount:          10.00");
    assert_eq!(lines[11], "surchargeAmount:     —");
    assert_eq!(lines[12], "totalAmount:         11.50");
    assert_eq!(lines[13], "availableOperations: Void, Refund");
    let bare = flute::transactions::inspect_table(&parse_json(r#"{"availableOperations": []}"#).unwrap());
    assert!(bare.ends_with("availableOperations: —"));
}
