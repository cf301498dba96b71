use vstd::prelude::*;
use crate::datetime::Timestamp;
use crate::json::{
    items_view, lemma_array_view, lemma_object_view, members_view, Float, Json, JsonNumber,
    JsonView, Members,
};
use crate::structs::{
    AddressBook, AddressBookView, Order, OrderProduct, OrderProductView, OrderProductWrapper,
    OrderProductWrapperView, OrderView, OrderWrapper, OrderWrapperView, StatusOrderId,
};

verus! {

/// The binary64 number nearest to an integer.
pub uninterp spec fn integer_float(i: i64) -> Option<Float>;

/// The text that chrono writes for an instant: RFC 3339 with as many
/// fraction digits as the instant needs and `Z` for the zone; none where
/// chrono cannot hold the instant.
pub uninterp spec fn timestamp_text(at: Timestamp) -> Option<Seq<char>>;

/// A JSON number that holds an integer.
pub open spec fn integer_number(i: i64) -> JsonNumber {
    JsonNumber {
        unsigned: if i >= 0 {
            Some(i as u64)
        } else {
            None
        },
        signed: Some(i),
        float: integer_float(i),
    }
}

/// `serde_json::Number::from` at a signed integer, read through
/// `Number::as_u64`, `Number::as_i64` and `Number::as_f64`: the integer comes
/// back signed, and unsigned too where it is not negative.
#[verifier::external_body]
fn number_from_integer(i: i64) -> (n: JsonNumber)
    ensures
        n.unsigned == (if i >= 0 {
            Some(i as u64)
        } else {
            None
        }),
        n.signed == Some(i),
        n.float == integer_float(i),
{
    let n = serde_json::Number::from(i);
    JsonNumber {
        unsigned: n.as_u64(),
        signed: n.as_i64(),
        float: n.as_f64().map(|x| Float { bits: x.to_bits() }),
    }
}

/// `chrono::DateTime::from_timestamp`, written with
/// `DateTime::to_rfc3339_opts` at `SecondsFormat::AutoSi` and with `Z` for
/// the zone; nothing where `from_timestamp` gives no date.
#[verifier::external_body]
fn format_timestamp(at: Timestamp) -> (r: Option<String>)
    ensures
        r.deep_view() == timestamp_text(at),
{
    chrono::DateTime::from_timestamp(at.seconds, at.nanos).map(
        |at| at.to_rfc3339_opts(chrono::SecondsFormat::AutoSi, true),
    )
}

/// An integer as a document.
pub open spec fn integer_json(i: i64) -> JsonView {
    JsonView::Number(integer_number(i))
}

/// An integer that may be missing, as a document.
pub open spec fn optional_integer_json(i: Option<i64>) -> JsonView {
    match i {
        Some(i) => integer_json(i),
        None => JsonView::Null,
    }
}

/// A status code that may be missing, as a document.
pub open spec fn optional_status_json(status: Option<StatusOrderId>) -> JsonView {
    match status {
        Some(status) => integer_json(status.0),
        None => JsonView::Null,
    }
}

/// A text that may be missing, as a document.
pub open spec fn optional_text_json(text: Option<Seq<char>>) -> JsonView {
    match text {
        Some(s) => JsonView::Text(s),
        None => JsonView::Null,
    }
}

/// A number as a document: JSON has no number that is not finite, and null
/// stands in for one.
pub open spec fn float_json(x: Float) -> JsonView {
    if x.finite() {
        JsonView::Number(JsonNumber { unsigned: None, signed: None, float: Some(x) })
    } else {
        JsonView::Null
    }
}

/// A number that may be missing, as a document.
pub open spec fn optional_float_json(x: Option<Float>) -> JsonView {
    match x {
        Some(x) => float_json(x),
        None => JsonView::Null,
    }
}

/// An instant as a document, where chrono can write it.
pub open spec fn timestamp_json(at: Timestamp) -> Option<JsonView> {
    match timestamp_text(at) {
        Some(s) => Some(JsonView::Text(s)),
        None => None,
    }
}

/// An instant that may be missing, as a document.
pub open spec fn optional_timestamp_json(at: Option<Timestamp>) -> Option<JsonView> {
    match at {
        Some(at) => timestamp_json(at),
        None => Some(JsonView::Null),
    }
}

/// A list of texts as a document.
pub open spec fn texts_json(texts: Seq<Seq<char>>) -> JsonView {
    JsonView::Array(Seq::new(texts.len(), |i: int| JsonView::Text(texts[i])))
}

pub fn encode_integer(i: i64) -> (r: Json)
    ensures
        r@ == integer_json(i),
{
    Json::Number(number_from_integer(i))
}

pub fn encode_optional_integer(i: Option<i64>) -> (r: Json)
    ensures
        r@ == optional_integer_json(i),
{
    match i {
        Some(i) => encode_integer(i),
        None => Json::Null,
    }
}

pub fn encode_optional_status(status: Option<StatusOrderId>) -> (r: Json)
    ensures
        r@ == optional_status_json(status),
{
    match status {
        Some(status) => encode_integer(status.0),
        None => Json::Null,
    }
}

pub fn encode_optional_text(text: &Option<String>) -> (r: Json)
    ensures
        r@ == optional_text_json(text.deep_view()),
{
    match text {
        Some(s) => Json::Text(s.clone()),
        None => Json::Null,
    }
}

pub fn encode_float(x: Float) -> (r: Json)
    ensures
        r@ == float_json(x),
{
    if x.is_finite() {
        Json::Number(JsonNumber { unsigned: None, signed: None, float: Some(x) })
    } else {
        Json::Null
    }
}

pub fn encode_optional_float(x: Option<Float>) -> (r: Json)
    ensures
        r@ == optional_float_json(x),
{
    match x {
        Some(x) => encode_float(x),
        None => Json::Null,
    }
}

pub fn encode_timestamp(at: Timestamp) -> (r: Option<Json>)
    ensures
        r.deep_view() == timestamp_json(at),
{
    match format_timestamp(at) {
        Some(s) => Some(Json::Text(s)),
        None => None,
    }
}

pub fn encode_optional_timestamp(at: Option<Timestamp>) -> (r: Option<Json>)
    ensures
        r.deep_view() == optional_timestamp_json(at),
{
    match at {
        Some(at) => encode_timestamp(at),
        None => Some(Json::Null),
    }
}

pub fn encode_texts(texts: &Vec<String>) -> (r: Json)
    ensures
        r@ == texts_json(texts.deep_view()),
{
    let mut items: Vec<Json> = Vec::new();
    let mut i: usize = 0;
    while i < texts.len()
        invariant
            i <= texts.len(),
            items@.len() == i,
            forall|k: int| 0 <= k < i ==> (#[trigger] items@[k])@ == JsonView::Text(texts@[k]@),
        decreases texts.len() - i,
    {
        items.push(Json::Text(texts[i].clone()));
        i += 1;
    }
    let r = Json::Array(items);
    proof {
        lemma_array_view(r);
        assert(items_view(items@) =~= texts_json(texts.deep_view())->Array_0);
    }
    r
}

/// The members of a destination, in the order of its fields.
pub open spec fn address_book_members(book: AddressBookView) -> Members {
    seq![
        ("reference_code"@, optional_text_json(book.reference_code)),
        ("name"@, JsonView::Text(book.name)),
        ("address"@, optional_text_json(book.address)),
        ("address2"@, optional_text_json(book.address2)),
        ("city"@, JsonView::Text(book.city)),
        ("province"@, JsonView::Text(book.province)),
        ("country"@, JsonView::Text(book.country)),
        ("postal_code"@, JsonView::Text(book.postal_code)),
        ("phone"@, optional_text_json(book.phone)),
        ("comments"@, optional_text_json(book.comments)),
    ]
}

/// A destination as a document.
pub open spec fn address_book_json(book: AddressBookView) -> JsonView {
    JsonView::Object(address_book_members(book))
}

pub fn encode_address_book(book: &AddressBook) -> (r: Json)
    ensures
        r@ == address_book_json(book@),
{
    let mut members: Vec<(String, Json)> = Vec::new();
    members.push(("reference_code".to_owned(), encode_optional_text(&book.reference_code)));
    members.push(("name".to_owned(), Json::Text(book.name.clone())));
    members.push(("address".to_owned(), encode_optional_text(&book.address)));
    members.push(("address2".to_owned(), encode_optional_text(&book.address2)));
    members.push(("city".to_owned(), Json::Text(book.city.clone())));
    members.push(("province".to_owned(), Json::Text(book.province.clone())));
    members.push(("country".to_owned(), Json::Text(book.country.clone())));
    members.push(("postal_code".to_owned(), Json::Text(book.postal_code.clone())));
    members.push(("phone".to_owned(), encode_optional_text(&book.phone)));
    members.push(("comments".to_owned(), encode_optional_text(&book.comments)));
    let r = Json::Object(members);
    proof {
        lemma_object_view(r);
        assert(members_view(members@) =~= address_book_members(book@));
    }
    r
}

/// The members of a line item, in the order of its fields; its two dates are
/// handed in as documents.
pub open spec fn order_product_members(
    product: OrderProductView,
    estimated_delivery_date: JsonView,
    estimated_dispatch_date: JsonView,
) -> Members {
    seq![
        ("id"@, integer_json(product.id.0)),
        ("order_id"@, integer_json(product.order_id.0)),
        ("product_id"@, integer_json(product.product_id.0)),
        ("quantity"@, float_json(product.quantity)),
        ("price"@, float_json(product.price)),
        ("final_price"@, float_json(product.final_price)),
        ("discount_percentage"@, float_json(product.discount_percentage)),
        ("vat_percentage"@, float_json(product.vat_percentage)),
        ("total_before_vat"@, float_json(product.total_before_vat)),
        ("total_vat"@, float_json(product.total_vat)),
        ("total_after_vat"@, float_json(product.total_after_vat)),
        ("status_order_id"@, optional_status_json(product.status_order_id)),
        ("status_order_name"@, optional_text_json(product.status_order_name)),
        ("estimated_delivery_date"@, estimated_delivery_date),
        ("estimated_dispatch_date"@, estimated_dispatch_date),
        ("addressbook"@, address_book_json(product.addressbook)),
        ("product_name"@, JsonView::Text(product.product_name)),
        ("product_code"@, optional_text_json(product.product_code)),
    ]
}

/// A line item as a document, where its dates can be written.
pub open spec fn order_product_json(product: OrderProductView) -> Option<JsonView> {
    match optional_timestamp_json(product.estimated_delivery_date) {
        None => None,
        Some(estimated_delivery_date) => {
            match optional_timestamp_json(product.estimated_dispatch_date) {
                None => None,
                Some(estimated_dispatch_date) => Some(
                    JsonView::Object(
                        order_product_members(
                            product,
                            estimated_delivery_date,
                            estimated_dispatch_date,
                        ),
                    ),
                ),
            }
        },
    }
}

pub fn encode_order_product(product: &OrderProduct) -> (r: Option<Json>)
    ensures
        r.deep_view() == order_product_json(product@),
{
    let estimated_delivery_date = encode_optional_timestamp(product.estimated_delivery_date)?;
    let estimated_dispatch_date = encode_optional_timestamp(product.estimated_dispatch_date)?;
    let ghost written = (estimated_delivery_date@, estimated_dispatch_date@);
    let mut members: Vec<(String, Json)> = Vec::new();
    members.push(("id".to_owned(), encode_integer(product.id.0)));
    members.push(("order_id".to_owned(), encode_integer(product.order_id.0)));
    members.push(("product_id".to_owned(), encode_integer(product.product_id.0)));
    members.push(("quantity".to_owned(), encode_float(product.quantity)));
    members.push(("price".to_owned(), encode_float(product.price)));
    members.push(("final_price".to_owned(), encode_float(product.final_price)));
    members.push(("discount_percentage".to_owned(), encode_float(product.discount_percentage)));
    members.push(("vat_percentage".to_owned(), encode_float(product.vat_percentage)));
    members.push(("total_before_vat".to_owned(), encode_float(product.total_before_vat)));
    members.push(("total_vat".to_owned(), encode_float(product.total_vat)));
    members.push(("total_after_vat".to_owned(), encode_float(product.total_after_vat)));
    members.push(("status_order_id".to_owned(), encode_optional_status(product.status_order_id)));
    members.push(
        ("status_order_name".to_owned(), encode_optional_text(&product.status_order_name)),
    );
    members.push(("estimated_delivery_date".to_owned(), estimated_delivery_date));
    members.push(("estimated_dispatch_date".to_owned(), estimated_dispatch_date));
    members.push(("addressbook".to_owned(), encode_address_book(&product.addressbook)));
    members.push(("product_name".to_owned(), Json::Text(product.product_name.clone())));
    members.push(("product_code".to_owned(), encode_optional_text(&product.product_code)));
    let r = Json::Object(members);
    proof {
        lemma_object_view(r);
        assert(members_view(members@) =~= order_product_members(product@, written.0, written.1));
    }
    Some(r)
}

/// A wrapped line item as a document: the line item under the key
/// `order_product`.
pub open spec fn order_product_wrapper_json(wrapper: OrderProductWrapperView) -> Option<
    JsonView,
> {
    match order_product_json(wrapper.order_product) {
        Some(order_product) => Some(JsonView::Object(seq![("order_product"@, order_product)])),
        None => None,
    }
}

pub fn encode_order_product_wrapper(wrapper: &OrderProductWrapper) -> (r: Option<Json>)
    ensures
        r.deep_view() == order_product_wrapper_json(wrapper@),
{
    let order_product = encode_order_product(&wrapper.order_product)?;
    let ghost written = order_product@;
    let mut members: Vec<(String, Json)> = Vec::new();
    members.push(("order_product".to_owned(), order_product));
    let r = Json::Object(members);
    proof {
        lemma_object_view(r);
        assert(members_view(members@) =~= seq![("order_product"@, written)]);
    }
    Some(r)
}

/// The first `count` of a list of wrapped line items, as documents.
pub open spec fn order_products_json_up_to(
    items: Seq<OrderProductWrapperView>,
    count: nat,
) -> Option<Seq<JsonView>>
    decreases count,
{
    if count == 0 {
        Some(Seq::empty())
    } else {
        match order_products_json_up_to(items, (count - 1) as nat) {
            None => None,
            Some(done) => match order_product_wrapper_json(items[count - 1]) {
                Some(item) => Some(done.push(item)),
                None => None,
            },
        }
    }
}

/// A line item that cannot be written leaves every longer run unwritten.
pub proof fn lemma_order_products_unwritten(
    items: Seq<OrderProductWrapperView>,
    failed: nat,
    count: nat,
)
    requires
        order_products_json_up_to(items, failed) is None,
        failed <= count,
    ensures
        order_products_json_up_to(items, count) is None,
    decreases count,
{
    if failed < count {
        lemma_order_products_unwritten(items, failed, (count - 1) as nat);
    }
}

/// A list of wrapped line items as a document.
pub open spec fn order_products_json(items: Seq<OrderProductWrapperView>) -> Option<JsonView> {
    match order_products_json_up_to(items, items.len()) {
        Some(documents) => Some(JsonView::Array(documents)),
        None => None,
    }
}

pub fn encode_order_products(items: &Vec<OrderProductWrapper>) -> (r: Option<Json>)
    ensures
        r.deep_view() == order_products_json(items.deep_view()),
{
    let mut documents: Vec<Json> = Vec::new();
    let mut i: usize = 0;
    assert(items_view(documents@) =~= Seq::<JsonView>::empty());
    while i < items.len()
        invariant
            i <= items.len(),
            order_products_json_up_to(items.deep_view(), i as nat) == Some(items_view(documents@)),
        decreases items.len() - i,
    {
        let ghost before = items_view(documents@);
        match encode_order_product_wrapper(&items[i]) {
            Some(document) => {
                documents.push(document);
                assert(items_view(documents@) =~= before.push(document@));
            },
            None => {
                proof {
                    lemma_order_products_unwritten(
                        items.deep_view(),
                        (i + 1) as nat,
                        items@.len(),
                    );
                }
                return None;
            },
        }
        i += 1;
    }
    let r = Json::Array(documents);
    proof {
        lemma_array_view(r);
    }
    Some(r)
}

/// The members of an order, in the order of its fields, with the customer's
/// contact data among them; its date and its line items are handed in as
/// documents.
pub open spec fn order_members(
    order: OrderView,
    submitted_at: JsonView,
    order_products: JsonView,
) -> Members {
    seq![
        ("id"@, JsonView::Text(order.id)),
        ("status_order_id"@, integer_json(order.status_order_id.0)),
        ("status_order_name"@, optional_text_json(order.status_order_name)),
        ("customer_id"@, integer_json(order.customer_id.0)),
        ("submitted_at"@, submitted_at),
        ("comments_customer"@, optional_text_json(order.comments_customer)),
        ("comments_wholesaler"@, optional_text_json(order.comments_wholesaler)),
        ("address"@, JsonView::Text(order.address)),
        ("address2"@, optional_text_json(order.address2)),
        ("city"@, optional_text_json(order.city)),
        ("province"@, optional_text_json(order.province)),
        ("country"@, optional_text_json(order.country)),
        ("postal_code"@, optional_text_json(order.postal_code)),
        ("shipping_option_id"@, optional_integer_json(order.shipping_option_id)),
        ("shipping_costs"@, float_json(order.shipping_costs)),
        ("shipping_tracking"@, optional_text_json(order.shipping_tracking)),
        ("shipping_tracking_url"@, optional_text_json(order.shipping_tracking_url)),
        ("shipping_tracking_urls_by_number"@, texts_json(order.shipping_tracking_urls_by_number)),
        ("total_products_before_discount"@, float_json(order.total_products_before_discount)),
        ("discount_percentage"@, float_json(order.discount_percentage)),
        ("discount_total"@, optional_float_json(order.discount_total)),
        ("total_products_before_vat"@, float_json(order.total_products_before_vat)),
        ("total_before_vat"@, float_json(order.total_before_vat)),
        ("total_vat"@, float_json(order.total_vat)),
        ("total_products_after_vat"@, float_json(order.total_products_after_vat)),
        ("gross_total"@, float_json(order.gross_total)),
        ("extra_fields"@, order.extra_fields),
        ("request_delivery_at"@, optional_text_json(order.request_delivery_at)),
        ("integration_ref"@, optional_text_json(order.integration_ref)),
        ("order_products"@, order_products),
        ("customer_order_reference"@, optional_text_json(order.customer.customer_order_reference)),
        ("customer_email"@, optional_text_json(order.customer.customer_email)),
        ("customer_company"@, optional_text_json(order.customer.customer_company)),
        ("customer_name"@, optional_text_json(order.customer.customer_name)),
        ("customer_phone"@, optional_text_json(order.customer.customer_phone)),
        ("customer_reference_code"@, optional_text_json(order.customer.customer_reference_code)),
        ("addressbook_reference_code"@, optional_text_json(order.addressbook_reference_code)),
        ("replacement_tracking_number"@, optional_text_json(order.replacement_tracking_number)),
        ("sent_date"@, optional_text_json(order.sent_date)),
    ]
}

/// An order as a document, where its dates can be written.
pub open spec fn order_json(order: OrderView) -> Option<JsonView> {
    match timestamp_json(order.submitted_at) {
        None => None,
        Some(submitted_at) => {
            match order_products_json(order.order_products) {
                None => None,
                Some(order_products) => Some(
                    JsonView::Object(order_members(order, submitted_at, order_products)),
                ),
            }
        },
    }
}

pub fn encode_order(order: &Order) -> (r: Option<Json>)
    ensures
        r.deep_view() == order_json(order@),
{
    let submitted_at = encode_timestamp(order.submitted_at)?;
    let order_products = encode_order_products(&order.order_products)?;
    let ghost written = (submitted_at@, order_products@);
    let mut members: Vec<(String, Json)> = Vec::new();
    members.push(("id".to_owned(), Json::Text(order.id.0.clone())));
    members.push(("status_order_id".to_owned(), encode_integer(order.status_order_id.0)));
    members.push(("status_order_name".to_owned(), encode_optional_text(&order.status_order_name)));
    members.push(("customer_id".to_owned(), encode_integer(order.customer_id.0)));
    members.push(("submitted_at".to_owned(), submitted_at));
    members.push(("comments_customer".to_owned(), encode_optional_text(&order.comments_customer)));
    members.push(
        ("comments_wholesaler".to_owned(), encode_optional_text(&order.comments_wholesaler)),
    );
    members.push(("address".to_owned(), Json::Text(order.address.clone())));
    members.push(("address2".to_owned(), encode_optional_text(&order.address2)));
    members.push(("city".to_owned(), encode_optional_text(&order.city)));
    members.push(("province".to_owned(), encode_optional_text(&order.province)));
    members.push(("country".to_owned(), encode_optional_text(&order.country)));
    members.push(("postal_code".to_owned(), encode_optional_text(&order.postal_code)));
    members.push(
        ("shipping_option_id".to_owned(), encode_optional_integer(order.shipping_option_id)),
    );
    members.push(("shipping_costs".to_owned(), encode_float(order.shipping_costs)));
    members.push(("shipping_tracking".to_owned(), encode_optional_text(&order.shipping_tracking)));
    members.push(
        ("shipping_tracking_url".to_owned(), encode_optional_text(&order.shipping_tracking_url)),
    );
    members.push(
        (
            "shipping_tracking_urls_by_number".to_owned(),
            encode_texts(&order.shipping_tracking_urls_by_number),
        ),
    );
    members.push(
        (
            "total_products_before_discount".to_owned(),
            encode_float(order.total_products_before_discount),
        ),
    );
    members.push(("discount_percentage".to_owned(), encode_float(order.discount_percentage)));
    members.push(("discount_total".to_owned(), encode_optional_float(order.discount_total)));
    members.push(
        ("total_products_before_vat".to_owned(), encode_float(order.total_products_before_vat)),
    );
    members.push(("total_before_vat".to_owned(), encode_float(order.total_before_vat)));
    members.push(("total_vat".to_owned(), encode_float(order.total_vat)));
    members.push(
        ("total_products_after_vat".to_owned(), encode_float(order.total_products_after_vat)),
    );
    members.push(("gross_total".to_owned(), encode_float(order.gross_total)));
    members.push(("extra_fields".to_owned(), order.extra_fields.duplicate()));
    members.push(
        ("request_delivery_at".to_owned(), encode_optional_text(&order.request_delivery_at)),
    );
    members.push(("integration_ref".to_owned(), encode_optional_text(&order.integration_ref)));
    members.push(("order_products".to_owned(), order_products));
    members.push(
        (
            "customer_order_reference".to_owned(),
            encode_optional_text(&order.customer.customer_order_reference),
        ),
    );
    members.push(
        ("customer_email".to_owned(), encode_optional_text(&order.customer.customer_email)),
    );
    members.push(
        ("customer_company".to_owned(), encode_optional_text(&order.customer.customer_company)),
    );
    members.push(("customer_name".to_owned(), encode_optional_text(&order.customer.customer_name)));
    members.push(
        ("customer_phone".to_owned(), encode_optional_text(&order.customer.customer_phone)),
    );
    members.push(
        (
            "customer_reference_code".to_owned(),
            encode_optional_text(&order.customer.customer_reference_code),
        ),
    );
    members.push(
        (
            "addressbook_reference_code".to_owned(),
            encode_optional_text(&order.addressbook_reference_code),
        ),
    );
    members.push(
        (
            "replacement_tracking_number".to_owned(),
            encode_optional_text(&order.replacement_tracking_number),
        ),
    );
    members.push(("sent_date".to_owned(), encode_optional_text(&order.sent_date)));
    let r = Json::Object(members);
    proof {
        lemma_object_view(r);
        assert(members_view(members@) =~= order_members(order@, written.0, written.1));
    }
    Some(r)
}

/// A wrapped order as a document: the order under the key `order`.
pub open spec fn order_wrapper_json(wrapper: OrderWrapperView) -> Option<JsonView> {
    match order_json(wrapper.order) {
        Some(order) => Some(JsonView::Object(seq![("order"@, order)])),
        None => None,
    }
}

pub fn encode_order_wrapper(wrapper: &OrderWrapper) -> (r: Option<Json>)
    ensures
        r.deep_view() == order_wrapper_json(wrapper@),
{
    let order = encode_order(&wrapper.order)?;
    let ghost written = order@;
    let mut members: Vec<(String, Json)> = Vec::new();
    members.push(("order".to_owned(), order));
    let r = Json::Object(members);
    proof {
        lemma_object_view(r);
        assert(members_view(members@) =~= seq![("order"@, written)]);
    }
    Some(r)
}

} // verus!
