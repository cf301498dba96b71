use order_lookup::decode::decode_order_wrapper;
use order_lookup::document::parse_document;
use order_lookup::error::DecodeError;
use order_lookup::lookup::{
    order_from_body, order_from_document, order_from_response, request_url, resolve,
    FetchOrderError, ENDPOINT,
};
use order_lookup::structs::OrderWrapper;

const ORDER: &str = r#"{"order":{"id":"A1","status_order_id":1,"status_order_name":null,
"customer_id":2,"submitted_at":"2020-01-01T00:00:00Z","comments_customer":null,
"address":"Street 1","address2":null,"city":null,"province":null,"country":null,
"postal_code":null,"shipping_costs":"1.5","shipping_tracking_url":null,
"shipping_tracking_urls_by_number":[],"total_products_before_discount":1,
"discount_percentage":0,"total_products_before_vat":1,"total_before_vat":1,"total_vat":0,
"total_products_after_vat":1,"gross_total":2.5,"extra_fields":{"k":1},"order_products":[],
"customer_order_reference":"R1","customer_email":null,"customer_company":null,
"customer_name":null,"customer_phone":null,"customer_reference_code":null}}"#;

fn wrapper() -> OrderWrapper {
    decode_order_wrapper(&parse_document(ORDER).unwrap()).unwrap()
}

fn body(count: usize) -> String {
    format!("[{}]", vec![ORDER; count].join(","))
}

#[test]
fn no_match_is_not_found() {
    assert!(matches!(order_from_body("[]"), Err(FetchOrderError::NotFound)));
    assert!(matches!(resolve(vec![]), Err(FetchOrderError::NotFound)));
    assert!(matches!(
        order_from_document(&parse_document("[]").unwrap()),
        Err(FetchOrderError::NotFound)
    ));
}

#[test]
fn one_match_is_found() {
    let order = order_from_body(&body(1)).unwrap();
    assert_eq!(order, wrapper().order);
    assert_eq!(resolve(vec![wrapper()]).unwrap(), wrapper().order);
    assert_eq!(order.customer.customer_order_reference, Some("R1".to_string()));
}

#[test]
fn several_matches_are_all_handed_back() {
    match order_from_body(&body(2)) {
        Err(FetchOrderError::MultipleFound(all)) => {
            assert_eq!(all, vec![wrapper(), wrapper()]);
        }
        other => panic!("expected all matches, got {:?}", other),
    }
    match order_from_body(&body(3)) {
        Err(FetchOrderError::MultipleFound(all)) => assert_eq!(all.len(), 3),
        other => panic!("expected all matches, got {:?}", other),
    }
}

#[test]
fn several_matches_keep_their_order() {
    let mut first = wrapper();
    first.order.address = "first".to_string();
    let mut second = wrapper();
    second.order.address = "second".to_string();
    let mut third = wrapper();
    third.order.address = "third".to_string();
    match resolve(vec![first, second, third]) {
        Err(FetchOrderError::MultipleFound(all)) => {
            let addresses: Vec<&str> = all.iter().map(|w| w.order.address.as_str()).collect();
            assert_eq!(addresses, vec!["first", "second", "third"]);
        }
        other => panic!("expected all matches, got {:?}", other),
    }
}

#[test]
fn a_body_of_another_shape_is_a_decode_failure() {
    assert!(matches!(
        order_from_body("{"),
        Err(FetchOrderError::Deserialization(DecodeError::Syntax(_)))
    ));
    assert!(matches!(
        order_from_body("{}"),
        Err(FetchOrderError::Deserialization(DecodeError::Field(_)))
    ));
    assert!(matches!(
        order_from_body(r#"[{"order":{}}]"#),
        Err(FetchOrderError::Deserialization(DecodeError::Field(_)))
    ));
}

#[test]
fn a_response_that_arrived_is_decoded() {
    assert_eq!(order_from_response(Ok(body(1))).unwrap(), wrapper().order);
    assert!(matches!(order_from_response(Ok("[]".to_string())), Err(FetchOrderError::NotFound)));
}

#[test]
fn a_failed_request_is_handed_on() {
    let failure = reqwest::blocking::Client::new().get("not an address").send().unwrap_err();
    let text = failure.to_string();
    match order_from_response(Err(failure)) {
        Err(FetchOrderError::Reqwest(e)) => assert_eq!(e.to_string(), text),
        other => panic!("expected the failed request, got {:?}", other),
    }
}

#[test]
fn errors_convert_into_their_variants() {
    let failure = reqwest::blocking::Client::new().get("not an address").send().unwrap_err();
    assert!(matches!(FetchOrderError::from(failure), FetchOrderError::Reqwest(_)));
    let syntax = parse_document("{").unwrap_err();
    assert!(matches!(
        FetchOrderError::from(DecodeError::Syntax(syntax)),
        FetchOrderError::Deserialization(DecodeError::Syntax(_))
    ));
    assert!(matches!(
        FetchOrderError::from(vec![wrapper(), wrapper()]),
        FetchOrderError::MultipleFound(_)
    ));
}

#[test]
fn the_reference_follows_the_endpoint() {
    assert_eq!(
        request_url("99991111"),
        "https://b2b.bigecommercewebsite.com/api_customer/orders?customer_order_reference_eq=99991111"
    );
    assert_eq!(request_url(""), ENDPOINT);
    assert_eq!(request_url("a b&c"), format!("{}a b&c", ENDPOINT));
}
