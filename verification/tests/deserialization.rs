use chrono::{TimeZone, Utc};
use order_lookup::datetime::Timestamp;
use order_lookup::error::{DecodeError, FieldError, Path, Reason};
use order_lookup::json::{Float, Json};
use order_lookup::lookup::{decode_body, order_from_body};
use order_lookup::structs::{
    AddressBook, CustomerId, CustomerInfo, Order, OrderId, OrderProduct, OrderProductId,
    OrderProductOrderId, OrderProductWrapper, OrderWrapper, ProductId, StatusOrderId,
};

const ORDERS: &str = r#"[
  {
    "order": {
      "id": "B2B111",
      "status_order_id": 5,
      "status_order_name": "Sent",
      "customer_id": 1,
      "submitted_at": "2019-04-30T13:35:05+00:00",
      "comments_customer": "",
      "comments_wholesaler": null,
      "address": "Teststraat 10",
      "address2": "",
      "city": "Rotterdam",
      "province": "",
      "country": "NL",
      "postal_code": "9101AA",
      "shipping_option_id": null,
      "shipping_costs": 0,
      "shipping_tracking": null,
      "shipping_tracking_url": null,
      "shipping_tracking_urls_by_number": [],
      "total_products_before_discount": "2.0",
      "discount_percentage": 0,
      "discount_total": null,
      "total_products_before_vat": "2.0",
      "total_before_vat": "2.0",
      "total_vat": "0.0",
      "total_products_after_vat": "2.154",
      "gross_total": "3.6648",
      "extra_fields": {},
      "request_delivery_at": null,
      "integration_ref": null,
      "order_products": [
        {
          "order_product": {
            "id": 1234,
            "order_id": 123,
            "product_id": 9999,
            "quantity": 1,
            "price": 2.0,
            "final_price": 2.0,
            "discount_percentage": 0.0,
            "vat_percentage": 7.7,
            "total_before_vat": 2.0,
            "total_vat": 0.154,
            "total_after_vat": 2.154,
            "status_order_id": null,
            "status_order_name": null,
            "estimated_delivery_date": null,
            "estimated_dispatch_date": null,
            "addressbook": {
              "reference_code": null,
              "name": "test",
              "address": "test",
              "address2": "",
              "city": "tes",
              "province": "tes",
              "country": "NL",
              "postal_code": "1234",
              "phone": "",
              "comments": ""
            },
            "product_name": "Test product",
            "product_code": "123456"
          }
        }
      ],
      "customer_order_reference": "99991111",
      "customer_email": "examplemail@gmail.com",
      "customer_company": "Example-company",
      "customer_name": "Example name",
      "customer_phone": "1234568129",
      "customer_reference_code": "",
      "addressbook_reference_code": null,
      "replacement_tracking_number": "**************",
      "sent_date": null
    }
  }
]"#;

fn float(x: f64) -> Float {
    Float { bits: x.to_bits() }
}

fn expected_order() -> Order {
    let submitted = Utc.with_ymd_and_hms(2019, 4, 30, 13, 35, 5).unwrap();
    Order {
        id: OrderId("B2B111".to_string()),
        status_order_id: StatusOrderId(5),
        status_order_name: Some("Sent".to_string()),
        customer_id: CustomerId(1),
        submitted_at: Timestamp { seconds: submitted.timestamp(), nanos: 0 },
        comments_customer: None,
        comments_wholesaler: None,
        address: "Teststraat 10".to_string(),
        address2: None,
        city: Some("Rotterdam".to_string()),
        province: None,
        country: Some("NL".to_string()),
        postal_code: Some("9101AA".to_string()),
        shipping_option_id: None,
        shipping_costs: float(0.0),
        shipping_tracking: None,
        shipping_tracking_url: None,
        shipping_tracking_urls_by_number: vec![],
        total_products_before_discount: float(2.0),
        discount_percentage: float(0.0),
        discount_total: None,
        total_products_before_vat: float(2.0),
        total_before_vat: float(2.0),
        total_vat: float(0.0),
        total_products_after_vat: float(2.154),
        gross_total: float(3.6648),
        extra_fields: Json::Object(vec![]),
        request_delivery_at: None,
        integration_ref: None,
        order_products: vec![OrderProductWrapper {
            order_product: OrderProduct {
                id: OrderProductId(1234),
                order_id: OrderProductOrderId(123),
                product_id: ProductId(9999),
                quantity: float(1.0),
                price: float(2.0),
                final_price: float(2.0),
                discount_percentage: float(0.0),
                vat_percentage: float(7.7),
                total_before_vat: float(2.0),
                total_vat: float(0.154),
                total_after_vat: float(2.154),
                status_order_id: None,
                status_order_name: None,
                estimated_delivery_date: None,
                estimated_dispatch_date: None,
                addressbook: AddressBook {
                    reference_code: None,
                    name: "test".to_string(),
                    address: Some("test".to_string()),
                    address2: None,
                    city: "tes".to_string(),
                    province: "tes".to_string(),
                    country: "NL".to_string(),
                    postal_code: "1234".to_string(),
                    phone: None,
                    comments: None,
                },
                product_name: "Test product".to_string(),
                product_code: Some("123456".to_string()),
            },
        }],
        customer: CustomerInfo {
            customer_order_reference: Some("99991111".to_string()),
            customer_email: Some("examplemail@gmail.com".to_string()),
            customer_company: Some("Example-company".to_string()),
            customer_name: Some("Example name".to_string()),
            customer_phone: Some("1234568129".to_string()),
            customer_reference_code: None,
        },
        addressbook_reference_code: None,
        replacement_tracking_number: Some("**************".to_string()),
        sent_date: None,
    }
}

#[test]
fn deserialization() {
    let deserialized: Vec<OrderWrapper> = decode_body(ORDERS).unwrap();

    let expected = vec![OrderWrapper { order: expected_order() }];

    assert_eq!(deserialized, expected);
}

#[test]
fn end_to_end_lookup_finds_the_order() {
    let order = order_from_body(ORDERS).unwrap();
    assert_eq!(order.status_order_name, Some("Sent".to_string()));
    assert_eq!(f64::from_bits(order.shipping_costs.bits), 0.0);
    assert_eq!(order.order_products.len(), 1);
    assert_eq!(order.order_products[0].order_product.product_name, "Test product");
    assert_eq!(order.customer.customer_order_reference, Some("99991111".to_string()));
    assert_eq!(order, expected_order());
}

#[test]
fn submitted_at_is_the_utc_instant() {
    let order = order_from_body(ORDERS).unwrap();
    assert_eq!(order.submitted_at, Timestamp { seconds: 1556631305, nanos: 0 });
}

#[test]
fn numbers_and_numeric_strings_give_the_same_totals() {
    let order = order_from_body(ORDERS).unwrap();
    let product = &order.order_products[0].order_product;
    assert_eq!(order.total_products_after_vat, product.total_after_vat);
    assert_eq!(order.total_before_vat, product.total_before_vat);
    assert_eq!(order.gross_total.bits, 0x400d5182a9930be1);
    assert_eq!(product.vat_percentage.bits, 0x401ecccccccccccd);
}

#[test]
fn customer_and_order_come_from_one_object() {
    let order = order_from_body(ORDERS).unwrap();
    assert_eq!(order.id, OrderId("B2B111".to_string()));
    assert_eq!(order.customer.customer_email, Some("examplemail@gmail.com".to_string()));
    assert_eq!(order.customer.customer_reference_code, None);
}

fn changed(change: impl FnOnce(&mut serde_json::Map<String, serde_json::Value>)) -> String {
    let mut document: serde_json::Value = serde_json::from_str(ORDERS).unwrap();
    change(document[0]["order"].as_object_mut().unwrap());
    document.to_string()
}

fn changed_product(
    change: impl FnOnce(&mut serde_json::Map<String, serde_json::Value>),
) -> String {
    changed(|order| {
        change(order["order_products"][0]["order_product"].as_object_mut().unwrap());
    })
}

fn number(text: &str) -> serde_json::Value {
    serde_json::from_str(text).unwrap()
}

fn refusal(body: &str) -> FieldError {
    match decode_body(body) {
        Err(DecodeError::Field(e)) => e,
        other => panic!("expected a refused field, got {:?}", other),
    }
}

fn in_order(key: &'static str, reason: Reason) -> FieldError {
    FieldError {
        path: Path::Index(
            0,
            Box::new(Path::Key("order", Box::new(Path::Key(key, Box::new(Path::Here))))),
        ),
        reason,
    }
}

#[test]
fn a_missing_required_member_is_refused() {
    let body = changed(|order| {
        order.remove("id");
    });
    assert_eq!(refusal(&body), in_order("id", Reason::Missing));
    let body = changed(|order| {
        order.remove("extra_fields");
    });
    assert_eq!(refusal(&body), in_order("extra_fields", Reason::Missing));
}

#[test]
fn a_member_under_the_blank_rule_must_be_there() {
    let body = changed(|order| {
        order.remove("status_order_name");
    });
    assert_eq!(refusal(&body), in_order("status_order_name", Reason::Missing));
    let body = changed(|order| {
        order.remove("customer_phone");
    });
    assert_eq!(refusal(&body), in_order("customer_phone", Reason::Missing));
}

#[test]
fn a_plain_optional_member_may_be_left_out() {
    let body = changed(|order| {
        order.remove("comments_wholesaler");
        order.remove("shipping_option_id");
        order.remove("discount_total");
        order.remove("sent_date");
    });
    assert_eq!(order_from_body(&body).unwrap(), expected_order());
    let body = changed_product(|product| {
        product.remove("estimated_delivery_date");
        product.remove("estimated_dispatch_date");
        product.remove("status_order_id");
    });
    assert_eq!(order_from_body(&body).unwrap(), expected_order());
}

#[test]
fn a_plain_optional_text_keeps_a_blank_string() {
    let body = changed(|order| {
        order.insert("comments_wholesaler".to_string(), serde_json::Value::String("  ".to_string()));
    });
    let order = order_from_body(&body).unwrap();
    assert_eq!(order.comments_wholesaler, Some("  ".to_string()));
}

#[test]
fn a_text_under_the_blank_rule_keeps_its_content() {
    let body = changed(|order| {
        order.insert("city".to_string(), serde_json::Value::String(" Den Haag ".to_string()));
        order.insert("province".to_string(), serde_json::Value::String(" \t\n".to_string()));
    });
    let order = order_from_body(&body).unwrap();
    assert_eq!(order.city, Some(" Den Haag ".to_string()));
    assert_eq!(order.province, None);
}

#[test]
fn a_wrong_type_is_refused_where_no_rule_applies() {
    let body = changed(|order| {
        order.insert("address".to_string(), number("5"));
    });
    assert_eq!(refusal(&body), in_order("address", Reason::NotText));
    let body = changed(|order| {
        order.insert("customer_id".to_string(), serde_json::Value::String("1".to_string()));
    });
    assert_eq!(refusal(&body), in_order("customer_id", Reason::NotInteger));
    let body = changed(|order| {
        order.insert("status_order_id".to_string(), number("5.5"));
    });
    assert_eq!(refusal(&body), in_order("status_order_id", Reason::NotInteger));
    let body = changed(|order| {
        order.insert("shipping_option_id".to_string(), number("18446744073709551615"));
    });
    assert_eq!(refusal(&body), in_order("shipping_option_id", Reason::NotInteger));
    let body = changed(|order| {
        order.insert("discount_total".to_string(), serde_json::Value::String("1.5".to_string()));
    });
    assert_eq!(refusal(&body), in_order("discount_total", Reason::NotNumber));
    let body = changed(|order| {
        order.insert("order_products".to_string(), serde_json::Value::Null);
    });
    assert_eq!(refusal(&body), in_order("order_products", Reason::NotArray));
    let body = changed(|order| {
        order.insert("status_order_name".to_string(), number("1"));
    });
    assert_eq!(refusal(&body), in_order("status_order_name", Reason::NotText));
}

#[test]
fn numeric_members_are_coerced_or_refused() {
    let body = changed(|order| {
        order.insert("shipping_costs".to_string(), number("2.5"));
        order.insert("gross_total".to_string(), serde_json::Value::String("2.5".to_string()));
    });
    let order = order_from_body(&body).unwrap();
    assert_eq!(order.shipping_costs, order.gross_total);
    assert_eq!(f64::from_bits(order.gross_total.bits), 2.5);
    let body = changed(|order| {
        order.insert("gross_total".to_string(), serde_json::Value::String("abc".to_string()));
    });
    assert_eq!(refusal(&body), in_order("gross_total", Reason::NotNumericText));
    let body = changed(|order| {
        order.insert("gross_total".to_string(), serde_json::Value::Bool(true));
    });
    assert_eq!(refusal(&body), in_order("gross_total", Reason::NotFloatOrText));
    let body = changed(|order| {
        order.insert("gross_total".to_string(), serde_json::Value::Null);
    });
    assert_eq!(refusal(&body), in_order("gross_total", Reason::NotFloatOrText));
}

#[test]
fn optional_plain_members_take_their_values() {
    let body = changed(|order| {
        order.insert("shipping_option_id".to_string(), number("-3"));
        order.insert("discount_total".to_string(), number("1"));
        order.insert("sent_date".to_string(), serde_json::Value::String("".to_string()));
    });
    let order = order_from_body(&body).unwrap();
    assert_eq!(order.shipping_option_id, Some(-3));
    assert_eq!(order.discount_total, Some(float(1.0)));
    assert_eq!(order.sent_date, Some("".to_string()));
    let body = changed_product(|product| {
        product.insert("status_order_id".to_string(), number("7"));
        product.insert(
            "estimated_delivery_date".to_string(),
            serde_json::Value::String("2019-05-02T08:00:00.250+02:00".to_string()),
        );
    });
    let order = order_from_body(&body).unwrap();
    let product = &order.order_products[0].order_product;
    assert_eq!(product.status_order_id, Some(StatusOrderId(7)));
    assert_eq!(
        product.estimated_delivery_date,
        Some(Timestamp { seconds: 1556776800, nanos: 250_000_000 })
    );
    assert_eq!(product.estimated_dispatch_date, None);
}

#[test]
fn a_timestamp_that_is_no_date_is_refused() {
    let body = changed(|order| {
        order.insert("submitted_at".to_string(), serde_json::Value::String("not-a-date".to_string()));
    });
    let e = refusal(&body);
    assert!(matches!(e.reason, Reason::Timestamp(_)));
    assert_eq!(e.path, in_order("submitted_at", Reason::Missing).path);
    let body = changed(|order| {
        order.insert("submitted_at".to_string(), serde_json::Value::Null);
    });
    assert_eq!(refusal(&body), in_order("submitted_at", Reason::NotText));
    let body = changed_product(|product| {
        product.insert("estimated_dispatch_date".to_string(), number("5"));
    });
    assert_eq!(refusal(&body).reason, Reason::NotText);
}

#[test]
fn extra_fields_keep_any_document() {
    let body = changed(|order| {
        order.insert("extra_fields".to_string(), number(r#"{"b":[1,{"c":null}],"a":"x"}"#));
        order.insert("some_new_member".to_string(), number("[true]"));
    });
    let order = order_from_body(&body).unwrap();
    match &order.extra_fields {
        Json::Object(members) => {
            assert_eq!(members.len(), 2);
            assert_eq!(members[0].0, "a");
            assert_eq!(members[0].1, Json::Text("x".to_string()));
            assert_eq!(members[1].0, "b");
            match &members[1].1 {
                Json::Array(items) => {
                    assert_eq!(items.len(), 2);
                    assert_eq!(
                        items[1],
                        Json::Object(vec![("c".to_string(), Json::Null)])
                    );
                }
                other => panic!("expected an array, got {:?}", other),
            }
        }
        other => panic!("expected an object, got {:?}", other),
    }
    let body = changed(|order| {
        order.insert("extra_fields".to_string(), serde_json::Value::Null);
    });
    assert_eq!(order_from_body(&body).unwrap().extra_fields, Json::Null);
}

#[test]
fn tracking_urls_are_a_list_of_texts() {
    let body = changed(|order| {
        order.insert("shipping_tracking_urls_by_number".to_string(), number(r#"["a","","b"]"#));
    });
    let order = order_from_body(&body).unwrap();
    assert_eq!(
        order.shipping_tracking_urls_by_number,
        vec!["a".to_string(), "".to_string(), "b".to_string()]
    );
    let body = changed(|order| {
        order.insert("shipping_tracking_urls_by_number".to_string(), number(r#"["a",1,2]"#));
    });
    assert_eq!(
        refusal(&body),
        FieldError {
            path: Path::Index(
                0,
                Box::new(Path::Key(
                    "order",
                    Box::new(Path::Key(
                        "shipping_tracking_urls_by_number",
                        Box::new(Path::Index(1, Box::new(Path::Here)))
                    ))
                ))
            ),
            reason: Reason::NotText,
        }
    );
}

#[test]
fn a_refusal_deep_in_a_line_item_names_its_path() {
    let body = changed_product(|product| {
        product["addressbook"].as_object_mut().unwrap().insert("city".to_string(), number("1"));
    });
    let path = Path::Index(
        0,
        Box::new(Path::Key(
            "order",
            Box::new(Path::Key(
                "order_products",
                Box::new(Path::Index(
                    0,
                    Box::new(Path::Key(
                        "order_product",
                        Box::new(Path::Key(
                            "addressbook",
                            Box::new(Path::Key("city", Box::new(Path::Here))),
                        )),
                    )),
                )),
            )),
        )),
    );
    assert_eq!(refusal(&body), FieldError { path, reason: Reason::NotText });
}

#[test]
fn the_first_refused_member_is_reported() {
    let body = changed(|order| {
        order.insert("gross_total".to_string(), serde_json::Value::String("abc".to_string()));
        order.insert("address".to_string(), number("5"));
        order.remove("sent_date");
        order.remove("customer_email");
    });
    assert_eq!(refusal(&body), in_order("address", Reason::NotText));
    let body = changed(|order| {
        order.remove("customer_email");
        order.insert("addressbook_reference_code".to_string(), number("5"));
    });
    assert_eq!(refusal(&body), in_order("customer_email", Reason::Missing));
}

#[test]
fn the_shape_of_the_response_is_checked() {
    assert_eq!(refusal("{}"), FieldError { path: Path::Here, reason: Reason::NotArray });
    assert_eq!(
        refusal("[1]"),
        FieldError { path: Path::Index(0, Box::new(Path::Here)), reason: Reason::NotObject }
    );
    assert_eq!(
        refusal("[{}]"),
        FieldError {
            path: Path::Index(0, Box::new(Path::Key("order", Box::new(Path::Here)))),
            reason: Reason::Missing
        }
    );
    assert_eq!(
        refusal(r#"[{"order":[]}]"#),
        FieldError {
            path: Path::Index(0, Box::new(Path::Key("order", Box::new(Path::Here)))),
            reason: Reason::NotObject
        }
    );
    let two = format!("[{},{}]", &ORDERS[1..ORDERS.len() - 1], r#"{"order":{}}"#);
    assert_eq!(
        refusal(&two),
        FieldError {
            path: Path::Index(
                1,
                Box::new(Path::Key("order", Box::new(Path::Key("id", Box::new(Path::Here)))))
            ),
            reason: Reason::Missing
        }
    );
}

#[test]
fn a_body_that_is_not_json_is_a_syntax_error() {
    assert!(matches!(decode_body("not json"), Err(DecodeError::Syntax(_))));
    assert!(matches!(decode_body(""), Err(DecodeError::Syntax(_))));
    assert!(matches!(decode_body("[1,]"), Err(DecodeError::Syntax(_))));
}
