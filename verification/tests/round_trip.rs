use order_lookup::datetime::{parse, Timestamp};
use order_lookup::decode::{decode_address_book, decode_order, decode_order_product, decode_order_wrapper};
use order_lookup::document::parse_document;
use order_lookup::encode::{
    encode_address_book, encode_float, encode_integer, encode_optional_text, encode_order,
    encode_order_product, encode_order_wrapper, encode_texts, encode_timestamp,
};
use order_lookup::json::{member, Float, Json, JsonNumber};
use order_lookup::structs::{Order, OrderWrapper};

const ORDER: &str = r#"{"order":{"id":"A1","status_order_id":1,"status_order_name":"Sent",
"customer_id":2,"submitted_at":"2020-01-01T01:00:00.5+01:00","comments_customer":" ",
"comments_wholesaler":"","address":"Street 1","address2":null,"city":"City","province":"",
"country":"NL","postal_code":"1000","shipping_option_id":4,"shipping_costs":"1.5",
"shipping_tracking":"T","shipping_tracking_url":null,
"shipping_tracking_urls_by_number":["u1","u2"],"total_products_before_discount":1,
"discount_percentage":0,"discount_total":0.25,"total_products_before_vat":1,
"total_before_vat":1,"total_vat":"0.21","total_products_after_vat":1.21,"gross_total":2.5,
"extra_fields":{"k":[1,2.5,"x",null]},"request_delivery_at":null,"integration_ref":"ref",
"order_products":[{"order_product":{"id":10,"order_id":20,"product_id":30,"quantity":2,
"price":"0.5","final_price":0.5,"discount_percentage":0,"vat_percentage":21,
"total_before_vat":1,"total_vat":0.21,"total_after_vat":1.21,"status_order_id":3,
"status_order_name":"","estimated_delivery_date":"2020-01-03T00:00:00Z",
"addressbook":{"reference_code":"rc","name":"n","address":"a","address2":" ","city":"c",
"province":"p","country":"NL","postal_code":"pc","phone":null,"comments":"hello"},
"product_name":"Thing","product_code":"TH-1"}}],
"customer_order_reference":"R1","customer_email":"a@b.c","customer_company":"",
"customer_name":"Name","customer_phone":null,"customer_reference_code":"crc",
"addressbook_reference_code":null,"replacement_tracking_number":"","sent_date":null}}"#;

fn wrapper() -> OrderWrapper {
    decode_order_wrapper(&parse_document(ORDER).unwrap()).unwrap()
}

fn order() -> Order {
    wrapper().order
}

#[test]
fn an_order_that_is_written_and_read_again_is_the_same() {
    let written = encode_order(&order()).unwrap();
    assert_eq!(decode_order(&written).unwrap(), order());
    let again = encode_order(&decode_order(&written).unwrap()).unwrap();
    assert_eq!(again, written);
}

#[test]
fn a_wrapped_order_that_is_written_and_read_again_is_the_same() {
    let written = encode_order_wrapper(&wrapper()).unwrap();
    assert_eq!(decode_order_wrapper(&written).unwrap(), wrapper());
    match &written {
        Json::Object(members) => {
            assert_eq!(members.len(), 1);
            assert_eq!(members[0].0, "order");
        }
        other => panic!("expected an object, got {:?}", other),
    }
}

#[test]
fn the_parts_of_an_order_are_written_and_read_again() {
    let order = order();
    let product = &order.order_products[0].order_product;
    let written = encode_order_product(product).unwrap();
    assert_eq!(&decode_order_product(&written).unwrap(), product);
    let written = encode_address_book(&product.addressbook);
    assert_eq!(decode_address_book(&written).unwrap(), product.addressbook);
}

#[test]
fn the_customer_is_written_beside_the_order() {
    let written = encode_order(&order()).unwrap();
    match &written {
        Json::Object(members) => {
            assert_eq!(members.len(), 39);
            assert_eq!(members[0].0, "id");
            assert_eq!(members[29].0, "order_products");
            assert_eq!(members[30].0, "customer_order_reference");
            assert_eq!(members[35].0, "customer_reference_code");
            assert_eq!(members[38].0, "sent_date");
            assert_eq!(member(members, "customer"), None);
            assert_eq!(member(members, "customer_email"), Some(&Json::Text("a@b.c".to_string())));
            assert_eq!(member(members, "customer_company"), Some(&Json::Null));
            assert_eq!(member(members, "comments_wholesaler"), Some(&Json::Text(String::new())));
        }
        other => panic!("expected an object, got {:?}", other),
    }
}

#[test]
fn a_written_order_is_what_serde_json_reads_from_its_text() {
    let written = encode_order(&order()).unwrap();
    let text = r#"{"id":"A1","status_order_id":1,"status_order_name":"Sent"}"#;
    let read = parse_document(text).unwrap();
    match (&written, &read) {
        (Json::Object(ours), Json::Object(theirs)) => {
            for (key, value) in theirs {
                assert_eq!(member(ours, key), Some(value), "{}", key);
            }
        }
        other => panic!("expected two objects, got {:?}", other),
    }
}

#[test]
fn scalars_are_written() {
    assert_eq!(
        encode_integer(-3),
        Json::Number(JsonNumber {
            unsigned: None,
            signed: Some(-3),
            float: Some(Float { bits: (-3.0f64).to_bits() }),
        })
    );
    assert_eq!(encode_integer(7), parse_document("7").unwrap());
    assert_eq!(encode_integer(i64::MIN), parse_document("-9223372036854775808").unwrap());
    assert_eq!(encode_float(Float { bits: 2.5f64.to_bits() }), parse_document("2.5").unwrap());
    assert_eq!(encode_float(Float { bits: f64::NAN.to_bits() }), Json::Null);
    assert_eq!(encode_float(Float { bits: f64::INFINITY.to_bits() }), Json::Null);
    assert_eq!(encode_optional_text(&None), Json::Null);
    assert_eq!(encode_optional_text(&Some("x".to_string())), Json::Text("x".to_string()));
    assert_eq!(
        encode_texts(&vec!["a".to_string(), "b".to_string()]),
        parse_document(r#"["a","b"]"#).unwrap()
    );
}

#[test]
fn instants_are_written_as_rfc_3339_in_utc() {
    let at = Timestamp { seconds: 1556631305, nanos: 0 };
    assert_eq!(encode_timestamp(at), Some(Json::Text("2019-04-30T13:35:05Z".to_string())));
    let at = Timestamp { seconds: 1556631305, nanos: 250_000_000 };
    assert_eq!(encode_timestamp(at), Some(Json::Text("2019-04-30T13:35:05.250Z".to_string())));
    let at = Timestamp { seconds: -1, nanos: 1 };
    assert_eq!(
        encode_timestamp(at),
        Some(Json::Text("1969-12-31T23:59:59.000000001Z".to_string()))
    );
    assert_eq!(parse("1969-12-31T23:59:59.000000001Z"), Ok(at));
    assert_eq!(encode_timestamp(Timestamp { seconds: i64::MAX, nanos: 0 }), None);
    assert_eq!(encode_timestamp(Timestamp { seconds: 0, nanos: 2_000_000_000 }), None);
}

#[test]
fn a_date_past_the_year_9999_is_written_but_not_read_back() {
    let late = "9999-12-31T23:59:59-01:00";
    let at = parse(late).unwrap();
    assert_eq!(at, Timestamp { seconds: 253402300799 + 3600, nanos: 0 });
    let written = encode_timestamp(at).unwrap();
    assert_eq!(written, Json::Text("+10000-01-01T00:59:59Z".to_string()));
    assert!(parse("+10000-01-01T00:59:59Z").is_err());
}
