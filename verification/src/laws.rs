use vstd::prelude::*;
use crate::datetime::{instant_of, parse_spec, Timestamp};
use crate::decode::{
    address_book_of, customer_info_of, order_of, order_of_members, order_product_of,
    order_product_wrapper_of, order_products_of, order_products_up_to, order_wrapper_of,
    required_order_products,
};
use crate::encode::{
    address_book_json, float_json, integer_json, optional_float_json, optional_integer_json,
    optional_text_json, order_json, order_members, order_product_json,
    order_product_wrapper_json, order_products_json, order_products_json_up_to,
    order_wrapper_json, texts_json, timestamp_text,
};
use crate::error::{FieldError, Reason};
use crate::fields::{
    blankable_text, optional_float, optional_integer, optional_text, required_float,
    required_integer, required_json, required_text, required_texts, required_timestamp, texts_of,
    texts_up_to,
};
use crate::json::{lemma_member_at, member_from, member_of, JsonView, Members};
use crate::structs::{
    AddressBookView, CustomerInfoView, OrderProductView, OrderProductWrapperView, OrderView,
    OrderWrapperView,
};
use crate::text::blank;

verus! {

/// A text under the rule that blank means absent: if present, not blank.
pub open spec fn filled(text: Option<Seq<char>>) -> bool {
    text matches Some(s) ==> !blank(s)
}

/// Whether an instant can be written and read back: chrono writes a text
/// for it, and that text denotes it.
pub open spec fn legible(at: Timestamp) -> bool {
    timestamp_text(at) matches Some(s) && parse_spec(s) == Ok::<_, chrono::ParseError>(at)
}

/// The same of an instant that may be missing.
pub open spec fn optionally_legible(at: Option<Timestamp>) -> bool {
    at matches Some(at) ==> legible(at)
}

impl AddressBookView {
    /// What decoding leaves of a destination: no optional text that is blank.
    pub open spec fn normalized(self) -> bool {
        &&& filled(self.address)
        &&& filled(self.address2)
        &&& filled(self.phone)
        &&& filled(self.comments)
    }
}

impl CustomerInfoView {
    /// What decoding leaves of contact data: no optional text that is blank.
    pub open spec fn normalized(self) -> bool {
        &&& filled(self.customer_order_reference)
        &&& filled(self.customer_email)
        &&& filled(self.customer_company)
        &&& filled(self.customer_name)
        &&& filled(self.customer_phone)
        &&& filled(self.customer_reference_code)
    }
}

impl OrderProductView {
    /// What decoding leaves of a line item: no optional text that is blank and
    /// no number that is not finite.
    pub open spec fn normalized(self) -> bool {
        &&& self.quantity.finite()
        &&& self.price.finite()
        &&& self.final_price.finite()
        &&& self.discount_percentage.finite()
        &&& self.vat_percentage.finite()
        &&& self.total_before_vat.finite()
        &&& self.total_vat.finite()
        &&& self.total_after_vat.finite()
        &&& filled(self.status_order_name)
        &&& self.addressbook.normalized()
        &&& filled(self.product_code)
    }

    /// Whether the dates of the line item can be written and read back.
    pub open spec fn legible(self) -> bool {
        &&& optionally_legible(self.estimated_delivery_date)
        &&& optionally_legible(self.estimated_dispatch_date)
    }
}

impl OrderView {
    /// What decoding leaves of an order: no optional text that is blank and no
    /// number that is not finite, in the order and in its line items.
    pub open spec fn normalized(self) -> bool {
        &&& filled(self.status_order_name)
        &&& filled(self.comments_customer)
        &&& filled(self.address2)
        &&& filled(self.city)
        &&& filled(self.province)
        &&& filled(self.country)
        &&& filled(self.postal_code)
        &&& self.shipping_costs.finite()
        &&& filled(self.shipping_tracking_url)
        &&& self.total_products_before_discount.finite()
        &&& self.discount_percentage.finite()
        &&& (self.discount_total matches Some(x) ==> x.finite())
        &&& self.total_products_before_vat.finite()
        &&& self.total_before_vat.finite()
        &&& self.total_vat.finite()
        &&& self.total_products_after_vat.finite()
        &&& self.gross_total.finite()
        &&& forall|i: int|
            0 <= i < self.order_products.len() ==> (
            #[trigger] self.order_products[i]).order_product.normalized()
        &&& self.customer.normalized()
    }

    /// Whether the dates of the order and of its line items can be written
    /// and read back.
    pub open spec fn legible(self) -> bool {
        &&& legible(self.submitted_at)
        &&& forall|i: int|
            0 <= i < self.order_products.len() ==> (
            #[trigger] self.order_products[i]).order_product.legible()
    }
}

/// What sets the names of the members of a destination apart: their lengths, and a
/// character where two have the same length.
pub proof fn lemma_address_book_keys()
    ensures
        "reference_code"@.len() == 14,
        "name"@.len() == 4,
        "name"@[0] == 'n',
        "address"@.len() == 7,
        "address"@[0] == 'a',
        "address2"@.len() == 8,
        "address2"@[0] == 'a',
        "city"@.len() == 4,
        "city"@[0] == 'c',
        "province"@.len() == 8,
        "province"@[0] == 'p',
        "country"@.len() == 7,
        "country"@[0] == 'c',
        "postal_code"@.len() == 11,
        "phone"@.len() == 5,
        "comments"@.len() == 8,
        "comments"@[0] == 'c',
{
    reveal_strlit("reference_code");
    reveal_strlit("name");
    reveal_strlit("address");
    reveal_strlit("address2");
    reveal_strlit("city");
    reveal_strlit("province");
    reveal_strlit("country");
    reveal_strlit("postal_code");
    reveal_strlit("phone");
    reveal_strlit("comments");
}

/// What sets the names of the members of a line item apart: their lengths, and a
/// character where two have the same length.
pub proof fn lemma_order_product_keys()
    ensures
        "id"@.len() == 2,
        "order_id"@.len() == 8,
        "order_id"@[0] == 'o',
        "product_id"@.len() == 10,
        "quantity"@.len() == 8,
        "quantity"@[0] == 'q',
        "price"@.len() == 5,
        "final_price"@.len() == 11,
        "final_price"@[0] == 'f',
        "discount_percentage"@.len() == 19,
        "vat_percentage"@.len() == 14,
        "total_before_vat"@.len() == 16,
        "total_vat"@.len() == 9,
        "total_after_vat"@.len() == 15,
        "total_after_vat"@[0] == 't',
        "status_order_id"@.len() == 15,
        "status_order_id"@[0] == 's',
        "status_order_name"@.len() == 17,
        "estimated_delivery_date"@.len() == 23,
        "estimated_delivery_date"@[11] == 'e',
        "estimated_dispatch_date"@.len() == 23,
        "estimated_dispatch_date"@[11] == 'i',
        "addressbook"@.len() == 11,
        "addressbook"@[0] == 'a',
        "product_name"@.len() == 12,
        "product_name"@[8] == 'n',
        "product_code"@.len() == 12,
        "product_code"@[8] == 'c',
{
    reveal_strlit("id");
    reveal_strlit("order_id");
    reveal_strlit("product_id");
    reveal_strlit("quantity");
    reveal_strlit("price");
    reveal_strlit("final_price");
    reveal_strlit("discount_percentage");
    reveal_strlit("vat_percentage");
    reveal_strlit("total_before_vat");
    reveal_strlit("total_vat");
    reveal_strlit("total_after_vat");
    reveal_strlit("status_order_id");
    reveal_strlit("status_order_name");
    reveal_strlit("estimated_delivery_date");
    reveal_strlit("estimated_dispatch_date");
    reveal_strlit("addressbook");
    reveal_strlit("product_name");
    reveal_strlit("product_code");
}

/// What sets the names of the members of an order apart: their lengths, and a
/// character where two have the same length.
pub proof fn lemma_order_keys()
    ensures
        "id"@.len() == 2,
        "status_order_id"@.len() == 15,
        "status_order_id"@[0] == 's',
        "status_order_name"@.len() == 17,
        "status_order_name"@[0] == 's',
        "status_order_name"@[1] == 't',
        "customer_id"@.len() == 11,
        "customer_id"@[0] == 'c',
        "submitted_at"@.len() == 12,
        "submitted_at"@[0] == 's',
        "comments_customer"@.len() == 17,
        "comments_customer"@[0] == 'c',
        "comments_wholesaler"@.len() == 19,
        "comments_wholesaler"@[0] == 'c',
        "address"@.len() == 7,
        "address"@[0] == 'a',
        "address2"@.len() == 8,
        "address2"@[0] == 'a',
        "city"@.len() == 4,
        "province"@.len() == 8,
        "province"@[0] == 'p',
        "country"@.len() == 7,
        "country"@[0] == 'c',
        "postal_code"@.len() == 11,
        "postal_code"@[0] == 'p',
        "shipping_option_id"@.len() == 18,
        "shipping_costs"@.len() == 14,
        "shipping_costs"@[0] == 's',
        "shipping_tracking"@.len() == 17,
        "shipping_tracking"@[0] == 's',
        "shipping_tracking"@[1] == 'h',
        "shipping_tracking_url"@.len() == 21,
        "shipping_tracking_urls_by_number"@.len() == 32,
        "total_products_before_discount"@.len() == 30,
        "discount_percentage"@.len() == 19,
        "discount_percentage"@[0] == 'd',
        "discount_total"@.len() == 14,
        "discount_total"@[0] == 'd',
        "total_products_before_vat"@.len() == 25,
        "total_before_vat"@.len() == 16,
        "total_before_vat"@[0] == 't',
        "total_vat"@.len() == 9,
        "total_vat"@[0] == 't',
        "total_products_after_vat"@.len() == 24,
        "total_products_after_vat"@[0] == 't',
        "gross_total"@.len() == 11,
        "gross_total"@[0] == 'g',
        "extra_fields"@.len() == 12,
        "extra_fields"@[0] == 'e',
        "request_delivery_at"@.len() == 19,
        "request_delivery_at"@[0] == 'r',
        "integration_ref"@.len() == 15,
        "integration_ref"@[0] == 'i',
        "order_products"@.len() == 14,
        "order_products"@[0] == 'o',
        "customer_order_reference"@.len() == 24,
        "customer_order_reference"@[0] == 'c',
        "customer_email"@.len() == 14,
        "customer_email"@[0] == 'c',
        "customer_email"@[9] == 'e',
        "customer_company"@.len() == 16,
        "customer_company"@[0] == 'c',
        "customer_name"@.len() == 13,
        "customer_phone"@.len() == 14,
        "customer_phone"@[0] == 'c',
        "customer_phone"@[9] == 'p',
        "customer_reference_code"@.len() == 23,
        "addressbook_reference_code"@.len() == 26,
        "replacement_tracking_number"@.len() == 27,
        "sent_date"@.len() == 9,
        "sent_date"@[0] == 's',
{
    reveal_strlit("id");
    reveal_strlit("status_order_id");
    reveal_strlit("status_order_name");
    reveal_strlit("customer_id");
    reveal_strlit("submitted_at");
    reveal_strlit("comments_customer");
    reveal_strlit("comments_wholesaler");
    reveal_strlit("address");
    reveal_strlit("address2");
    reveal_strlit("city");
    reveal_strlit("province");
    reveal_strlit("country");
    reveal_strlit("postal_code");
    reveal_strlit("shipping_option_id");
    reveal_strlit("shipping_costs");
    reveal_strlit("shipping_tracking");
    reveal_strlit("shipping_tracking_url");
    reveal_strlit("shipping_tracking_urls_by_number");
    reveal_strlit("total_products_before_discount");
    reveal_strlit("discount_percentage");
    reveal_strlit("discount_total");
    reveal_strlit("total_products_before_vat");
    reveal_strlit("total_before_vat");
    reveal_strlit("total_vat");
    reveal_strlit("total_products_after_vat");
    reveal_strlit("gross_total");
    reveal_strlit("extra_fields");
    reveal_strlit("request_delivery_at");
    reveal_strlit("integration_ref");
    reveal_strlit("order_products");
    reveal_strlit("customer_order_reference");
    reveal_strlit("customer_email");
    reveal_strlit("customer_company");
    reveal_strlit("customer_name");
    reveal_strlit("customer_phone");
    reveal_strlit("customer_reference_code");
    reveal_strlit("addressbook_reference_code");
    reveal_strlit("replacement_tracking_number");
    reveal_strlit("sent_date");
}

/// A destination that is written and read again is the same destination.
pub proof fn lemma_address_book_round_trip(book: AddressBookView)
    requires
        book.normalized(),
    ensures
        address_book_of(address_book_json(book)) == Ok::<_, FieldError>(book),
{
    lemma_address_book_keys();
    reveal_with_fuel(member_from, 11);
}

/// A line item that is written and read again is the same line item.
pub proof fn lemma_order_product_round_trip(product: OrderProductView)
    requires
        product.normalized(),
        product.legible(),
    ensures
        order_product_json(product) matches Some(document) && order_product_of(document) == Ok::<
            _,
            FieldError,
        >(product),
{
    lemma_address_book_round_trip(product.addressbook);
    lemma_order_product_keys();
    reveal_with_fuel(member_from, 19);
}

/// A wrapped line item that is written and read again is the same.
pub proof fn lemma_order_product_wrapper_round_trip(wrapper: OrderProductWrapperView)
    requires
        wrapper.order_product.normalized(),
        wrapper.order_product.legible(),
    ensures
        order_product_wrapper_json(wrapper) matches Some(document) && order_product_wrapper_of(
            document,
        ) == Ok::<_, FieldError>(wrapper),
{
    lemma_order_product_round_trip(wrapper.order_product);
    reveal_strlit("order_product");
}

/// The first `count` line items, written: as many documents, each the one
/// of its line item.
pub proof fn lemma_order_products_written(items: Seq<OrderProductWrapperView>, count: nat)
    requires
        count <= items.len(),
        forall|i: int| 0 <= i < items.len() ==> (#[trigger] items[i]).order_product.legible(),
    ensures
        order_products_json_up_to(items, count) matches Some(documents) && documents.len() == count
            && forall|i: int|
            0 <= i < count ==> order_product_wrapper_json(items[i]) == Some(
                #[trigger] documents[i],
            ),
    decreases count,
{
    if count > 0 {
        lemma_order_products_written(items, (count - 1) as nat);
        assert(items[count - 1].order_product.legible());
    }
}

/// The first `count` of the documents written for a list of line items,
/// read again: the first `count` line items.
pub proof fn lemma_order_products_read(
    items: Seq<OrderProductWrapperView>,
    documents: Seq<JsonView>,
    count: nat,
)
    requires
        count <= items.len(),
        documents.len() == items.len(),
        forall|i: int| 0 <= i < items.len() ==> (#[trigger] items[i]).order_product.normalized(),
        forall|i: int| 0 <= i < items.len() ==> (#[trigger] items[i]).order_product.legible(),
        forall|i: int|
            0 <= i < items.len() ==> order_product_wrapper_json(items[i]) == Some(
                #[trigger] documents[i],
            ),
    ensures
        order_products_up_to(documents, count) == Ok::<_, FieldError>(items.take(count as int)),
    decreases count,
{
    if count == 0 {
        assert(items.take(0) =~= Seq::empty());
    } else {
        lemma_order_products_read(items, documents, (count - 1) as nat);
        lemma_order_product_wrapper_round_trip(items[count - 1]);
        assert(items.take(count as int) =~= items.take(count - 1).push(items[count - 1]));
    }
}

/// A list of line items that is written and read again is the same list.
pub proof fn lemma_order_products_round_trip(items: Seq<OrderProductWrapperView>)
    requires
        forall|i: int| 0 <= i < items.len() ==> (#[trigger] items[i]).order_product.normalized(),
        forall|i: int| 0 <= i < items.len() ==> (#[trigger] items[i]).order_product.legible(),
    ensures
        order_products_json(items) matches Some(document) && order_products_of(document) == Ok::<
            _,
            FieldError,
        >(items),
{
    lemma_order_products_written(items, items.len());
    let documents = order_products_json_up_to(items, items.len())->Some_0;
    lemma_order_products_read(items, documents, items.len());
    assert(items.take(items.len() as int) =~= items);
}

/// The first `count` of the documents written for a list of texts, read
/// again: the first `count` texts.
pub proof fn lemma_texts_read(texts: Seq<Seq<char>>, count: nat)
    requires
        count <= texts.len(),
    ensures
        texts_up_to(texts_json(texts)->Array_0, count) == Ok::<_, FieldError>(
            texts.take(count as int),
        ),
    decreases count,
{
    if count == 0 {
        assert(texts.take(0) =~= Seq::empty());
    } else {
        lemma_texts_read(texts, (count - 1) as nat);
        assert(texts.take(count as int) =~= texts.take(count - 1).push(texts[count - 1]));
    }
}

/// A list of texts that is written and read again is the same list.
pub proof fn lemma_texts_round_trip(texts: Seq<Seq<char>>)
    ensures
        texts_of(texts_json(texts)) == Ok::<_, FieldError>(texts),
{
    lemma_texts_read(texts, texts.len());
    assert(texts.take(texts.len() as int) =~= texts);
}

/// Each member of an order as it is written is found under its name.
pub proof fn lemma_order_lookups(
    order: OrderView,
    submitted_at: JsonView,
    order_products: JsonView,
    members: Members,
)
    requires
        members == order_members(order, submitted_at, order_products),
    ensures
        member_of(members, "id"@) == Some(JsonView::Text(order.id)),
        member_of(members, "status_order_id"@) == Some(integer_json(order.status_order_id.0)),
        member_of(members, "status_order_name"@)
            == Some(optional_text_json(order.status_order_name)),
        member_of(members, "customer_id"@) == Some(integer_json(order.customer_id.0)),
        member_of(members, "submitted_at"@) == Some(submitted_at),
        member_of(members, "comments_customer"@)
            == Some(optional_text_json(order.comments_customer)),
        member_of(members, "comments_wholesaler"@)
            == Some(optional_text_json(order.comments_wholesaler)),
        member_of(members, "address"@) == Some(JsonView::Text(order.address)),
        member_of(members, "address2"@) == Some(optional_text_json(order.address2)),
        member_of(members, "city"@) == Some(optional_text_json(order.city)),
        member_of(members, "province"@) == Some(optional_text_json(order.province)),
        member_of(members, "country"@) == Some(optional_text_json(order.country)),
        member_of(members, "postal_code"@) == Some(optional_text_json(order.postal_code)),
        member_of(members, "shipping_option_id"@)
            == Some(optional_integer_json(order.shipping_option_id)),
        member_of(members, "shipping_costs"@) == Some(float_json(order.shipping_costs)),
        member_of(members, "shipping_tracking"@)
            == Some(optional_text_json(order.shipping_tracking)),
        member_of(members, "shipping_tracking_url"@)
            == Some(optional_text_json(order.shipping_tracking_url)),
        member_of(members, "shipping_tracking_urls_by_number"@)
            == Some(texts_json(order.shipping_tracking_urls_by_number)),
        member_of(members, "total_products_before_discount"@)
            == Some(float_json(order.total_products_before_discount)),
        member_of(members, "discount_percentage"@) == Some(float_json(order.discount_percentage)),
        member_of(members, "discount_total"@) == Some(optional_float_json(order.discount_total)),
        member_of(members, "total_products_before_vat"@)
            == Some(float_json(order.total_products_before_vat)),
        member_of(members, "total_before_vat"@) == Some(float_json(order.total_before_vat)),
        member_of(members, "total_vat"@) == Some(float_json(order.total_vat)),
        member_of(members, "total_products_after_vat"@)
            == Some(float_json(order.total_products_after_vat)),
        member_of(members, "gross_total"@) == Some(float_json(order.gross_total)),
        member_of(members, "extra_fields"@) == Some(order.extra_fields),
        member_of(members, "request_delivery_at"@)
            == Some(optional_text_json(order.request_delivery_at)),
        member_of(members, "integration_ref"@) == Some(optional_text_json(order.integration_ref)),
        member_of(members, "order_products"@) == Some(order_products),
        member_of(members, "customer_order_reference"@)
            == Some(optional_text_json(order.customer.customer_order_reference)),
        member_of(members, "customer_email"@)
            == Some(optional_text_json(order.customer.customer_email)),
        member_of(members, "customer_company"@)
            == Some(optional_text_json(order.customer.customer_company)),
        member_of(members, "customer_name"@)
            == Some(optional_text_json(order.customer.customer_name)),
        member_of(members, "customer_phone"@)
            == Some(optional_text_json(order.customer.customer_phone)),
        member_of(members, "customer_reference_code"@)
            == Some(optional_text_json(order.customer.customer_reference_code)),
        member_of(members, "addressbook_reference_code"@)
            == Some(optional_text_json(order.addressbook_reference_code)),
        member_of(members, "replacement_tracking_number"@)
            == Some(optional_text_json(order.replacement_tracking_number)),
        member_of(members, "sent_date"@) == Some(optional_text_json(order.sent_date)),
{
    lemma_order_keys();
    assert(member_of(members, "id"@) == Some(JsonView::Text(order.id))) by {
        lemma_member_at(members, "id"@, 0);
    }
    assert(
        member_of(members, "status_order_id"@) == Some(integer_json(order.status_order_id.0))
    ) by {
        lemma_member_at(members, "status_order_id"@, 1);
    }
    assert(
        member_of(members, "status_order_name"@)
            == Some(optional_text_json(order.status_order_name))
    ) by {
        lemma_member_at(members, "status_order_name"@, 2);
    }
    assert(member_of(members, "customer_id"@) == Some(integer_json(order.customer_id.0))) by {
        lemma_member_at(members, "customer_id"@, 3);
    }
    assert(member_of(members, "submitted_at"@) == Some(submitted_at)) by {
        lemma_member_at(members, "submitted_at"@, 4);
    }
    assert(
        member_of(members, "comments_customer"@)
            == Some(optional_text_json(order.comments_customer))
    ) by {
        lemma_member_at(members, "comments_customer"@, 5);
    }
    assert(
        member_of(members, "comments_wholesaler"@)
            == Some(optional_text_json(order.comments_wholesaler))
    ) by {
        lemma_member_at(members, "comments_wholesaler"@, 6);
    }
    assert(member_of(members, "address"@) == Some(JsonView::Text(order.address))) by {
        lemma_member_at(members, "address"@, 7);
    }
    assert(member_of(members, "address2"@) == Some(optional_text_json(order.address2))) by {
        lemma_member_at(members, "address2"@, 8);
    }
    assert(member_of(members, "city"@) == Some(optional_text_json(order.city))) by {
        lemma_member_at(members, "city"@, 9);
    }
    assert(member_of(members, "province"@) == Some(optional_text_json(order.province))) by {
        lemma_member_at(members, "province"@, 10);
    }
    assert(member_of(members, "country"@) == Some(optional_text_json(order.country))) by {
        lemma_member_at(members, "country"@, 11);
    }
    assert(member_of(members, "postal_code"@) == Some(optional_text_json(order.postal_code))) by {
        lemma_member_at(members, "postal_code"@, 12);
    }
    assert(
        member_of(members, "shipping_option_id"@)
            == Some(optional_integer_json(order.shipping_option_id))
    ) by {
        lemma_member_at(members, "shipping_option_id"@, 13);
    }
    assert(member_of(members, "shipping_costs"@) == Some(float_json(order.shipping_costs))) by {
        lemma_member_at(members, "shipping_costs"@, 14);
    }
    assert(
        member_of(members, "shipping_tracking"@)
            == Some(optional_text_json(order.shipping_tracking))
    ) by {
        lemma_member_at(members, "shipping_tracking"@, 15);
    }
    assert(
        member_of(members, "shipping_tracking_url"@)
            == Some(optional_text_json(order.shipping_tracking_url))
    ) by {
        lemma_member_at(members, "shipping_tracking_url"@, 16);
    }
    assert(
        member_of(members, "shipping_tracking_urls_by_number"@)
            == Some(texts_json(order.shipping_tracking_urls_by_number))
    ) by {
        lemma_member_at(members, "shipping_tracking_urls_by_number"@, 17);
    }
    assert(
        member_of(members, "total_products_before_discount"@)
            == Some(float_json(order.total_products_before_discount))
    ) by {
        lemma_member_at(members, "total_products_before_discount"@, 18);
    }
    assert(
        member_of(members, "discount_percentage"@) == Some(float_json(order.discount_percentage))
    ) by {
        lemma_member_at(members, "discount_percentage"@, 19);
    }
    assert(
        member_of(members, "discount_total"@) == Some(optional_float_json(order.discount_total))
    ) by {
        lemma_member_at(members, "discount_total"@, 20);
    }
    assert(
        member_of(members, "total_products_before_vat"@)
            == Some(float_json(order.total_products_before_vat))
    ) by {
        lemma_member_at(members, "total_products_before_vat"@, 21);
    }
    assert(
        member_of(members, "total_before_vat"@) == Some(float_json(order.total_before_vat))
    ) by {
        lemma_member_at(members, "total_before_vat"@, 22);
    }
    assert(member_of(members, "total_vat"@) == Some(float_json(order.total_vat))) by {
        lemma_member_at(members, "total_vat"@, 23);
    }
    assert(
        member_of(members, "total_products_after_vat"@)
            == Some(float_json(order.total_products_after_vat))
    ) by {
        lemma_member_at(members, "total_products_after_vat"@, 24);
    }
    assert(member_of(members, "gross_total"@) == Some(float_json(order.gross_total))) by {
        lemma_member_at(members, "gross_total"@, 25);
    }
    assert(member_of(members, "extra_fields"@) == Some(order.extra_fields)) by {
        lemma_member_at(members, "extra_fields"@, 26);
    }
    assert(
        member_of(members, "request_delivery_at"@)
            == Some(optional_text_json(order.request_delivery_at))
    ) by {
        lemma_member_at(members, "request_delivery_at"@, 27);
    }
    assert(
        member_of(members, "integration_ref"@) == Some(optional_text_json(order.integration_ref))
    ) by {
        lemma_member_at(members, "integration_ref"@, 28);
    }
    assert(member_of(members, "order_products"@) == Some(order_products)) by {
        lemma_member_at(members, "order_products"@, 29);
    }
    assert(
        member_of(members, "customer_order_reference"@)
            == Some(optional_text_json(order.customer.customer_order_reference))
    ) by {
        lemma_member_at(members, "customer_order_reference"@, 30);
    }
    assert(
        member_of(members, "customer_email"@)
            == Some(optional_text_json(order.customer.customer_email))
    ) by {
        lemma_member_at(members, "customer_email"@, 31);
    }
    assert(
        member_of(members, "customer_company"@)
            == Some(optional_text_json(order.customer.customer_company))
    ) by {
        lemma_member_at(members, "customer_company"@, 32);
    }
    assert(
        member_of(members, "customer_name"@)
            == Some(optional_text_json(order.customer.customer_name))
    ) by {
        lemma_member_at(members, "customer_name"@, 33);
    }
    assert(
        member_of(members, "customer_phone"@)
            == Some(optional_text_json(order.customer.customer_phone))
    ) by {
        lemma_member_at(members, "customer_phone"@, 34);
    }
    assert(
        member_of(members, "customer_reference_code"@)
            == Some(optional_text_json(order.customer.customer_reference_code))
    ) by {
        lemma_member_at(members, "customer_reference_code"@, 35);
    }
    assert(
        member_of(members, "addressbook_reference_code"@)
            == Some(optional_text_json(order.addressbook_reference_code))
    ) by {
        lemma_member_at(members, "addressbook_reference_code"@, 36);
    }
    assert(
        member_of(members, "replacement_tracking_number"@)
            == Some(optional_text_json(order.replacement_tracking_number))
    ) by {
        lemma_member_at(members, "replacement_tracking_number"@, 37);
    }
    assert(member_of(members, "sent_date"@) == Some(optional_text_json(order.sent_date))) by {
        lemma_member_at(members, "sent_date"@, 38);
    }
}

/// An object in which each member of an order is found under its name, as it is
/// written, reads as that order.
pub proof fn lemma_order_read(
    order: OrderView,
    submitted_at: JsonView,
    order_products: JsonView,
    members: Members,
)
    requires
        order.normalized(),
        instant_of(submitted_at) == Ok::<_, Reason>(order.submitted_at),
        order_products_of(order_products) == Ok::<_, FieldError>(order.order_products),
        member_of(members, "id"@) == Some(JsonView::Text(order.id)),
        member_of(members, "status_order_id"@) == Some(integer_json(order.status_order_id.0)),
        member_of(members, "status_order_name"@)
            == Some(optional_text_json(order.status_order_name)),
        member_of(members, "customer_id"@) == Some(integer_json(order.customer_id.0)),
        member_of(members, "submitted_at"@) == Some(submitted_at),
        member_of(members, "comments_customer"@)
            == Some(optional_text_json(order.comments_customer)),
        member_of(members, "comments_wholesaler"@)
            == Some(optional_text_json(order.comments_wholesaler)),
        member_of(members, "address"@) == Some(JsonView::Text(order.address)),
        member_of(members, "address2"@) == Some(optional_text_json(order.address2)),
        member_of(members, "city"@) == Some(optional_text_json(order.city)),
        member_of(members, "province"@) == Some(optional_text_json(order.province)),
        member_of(members, "country"@) == Some(optional_text_json(order.country)),
        member_of(members, "postal_code"@) == Some(optional_text_json(order.postal_code)),
        member_of(members, "shipping_option_id"@)
            == Some(optional_integer_json(order.shipping_option_id)),
        member_of(members, "shipping_costs"@) == Some(float_json(order.shipping_costs)),
        member_of(members, "shipping_tracking"@)
            == Some(optional_text_json(order.shipping_tracking)),
        member_of(members, "shipping_tracking_url"@)
            == Some(optional_text_json(order.shipping_tracking_url)),
        member_of(members, "shipping_tracking_urls_by_number"@)
            == Some(texts_json(order.shipping_tracking_urls_by_number)),
        member_of(members, "total_products_before_discount"@)
            == Some(float_json(order.total_products_before_discount)),
        member_of(members, "discount_percentage"@) == Some(float_json(order.discount_percentage)),
        member_of(members, "discount_total"@) == Some(optional_float_json(order.discount_total)),
        member_of(members, "total_products_before_vat"@)
            == Some(float_json(order.total_products_before_vat)),
        member_of(members, "total_before_vat"@) == Some(float_json(order.total_before_vat)),
        member_of(members, "total_vat"@) == Some(float_json(order.total_vat)),
        member_of(members, "total_products_after_vat"@)
            == Some(float_json(order.total_products_after_vat)),
        member_of(members, "gross_total"@) == Some(float_json(order.gross_total)),
        member_of(members, "extra_fields"@) == Some(order.extra_fields),
        member_of(members, "request_delivery_at"@)
            == Some(optional_text_json(order.request_delivery_at)),
        member_of(members, "integration_ref"@) == Some(optional_text_json(order.integration_ref)),
        member_of(members, "order_products"@) == Some(order_products),
        member_of(members, "customer_order_reference"@)
            == Some(optional_text_json(order.customer.customer_order_reference)),
        member_of(members, "customer_email"@)
            == Some(optional_text_json(order.customer.customer_email)),
        member_of(members, "customer_company"@)
            == Some(optional_text_json(order.customer.customer_company)),
        member_of(members, "customer_name"@)
            == Some(optional_text_json(order.customer.customer_name)),
        member_of(members, "customer_phone"@)
            == Some(optional_text_json(order.customer.customer_phone)),
        member_of(members, "customer_reference_code"@)
            == Some(optional_text_json(order.customer.customer_reference_code)),
        member_of(members, "addressbook_reference_code"@)
            == Some(optional_text_json(order.addressbook_reference_code)),
        member_of(members, "replacement_tracking_number"@)
            == Some(optional_text_json(order.replacement_tracking_number)),
        member_of(members, "sent_date"@) == Some(optional_text_json(order.sent_date)),
    ensures
        order_of_members(members) == Ok::<_, FieldError>(order),
{
    lemma_texts_round_trip(order.shipping_tracking_urls_by_number);
    assert(required_text(members, "id") == Ok::<_, FieldError>(order.id));
    assert(
        required_integer(members, "status_order_id") == Ok::<_, FieldError>(order.status_order_id.0)
    );
    assert(
        blankable_text(members, "status_order_name") == Ok::<_, FieldError>(order.status_order_name)
    );
    assert(required_integer(members, "customer_id") == Ok::<_, FieldError>(order.customer_id.0));
    assert(required_timestamp(members, "submitted_at") == Ok::<_, FieldError>(order.submitted_at));
    assert(
        blankable_text(members, "comments_customer") == Ok::<_, FieldError>(order.comments_customer)
    );
    assert(
        optional_text(members, "comments_wholesaler")
            == Ok::<_, FieldError>(order.comments_wholesaler)
    );
    assert(required_text(members, "address") == Ok::<_, FieldError>(order.address));
    assert(blankable_text(members, "address2") == Ok::<_, FieldError>(order.address2));
    assert(blankable_text(members, "city") == Ok::<_, FieldError>(order.city));
    assert(blankable_text(members, "province") == Ok::<_, FieldError>(order.province));
    assert(blankable_text(members, "country") == Ok::<_, FieldError>(order.country));
    assert(blankable_text(members, "postal_code") == Ok::<_, FieldError>(order.postal_code));
    assert(
        optional_integer(members, "shipping_option_id")
            == Ok::<_, FieldError>(order.shipping_option_id)
    );
    assert(required_float(members, "shipping_costs") == Ok::<_, FieldError>(order.shipping_costs));
    assert(
        optional_text(members, "shipping_tracking") == Ok::<_, FieldError>(order.shipping_tracking)
    );
    assert(
        blankable_text(members, "shipping_tracking_url")
            == Ok::<_, FieldError>(order.shipping_tracking_url)
    );
    assert(
        required_texts(members, "shipping_tracking_urls_by_number")
            == Ok::<_, FieldError>(order.shipping_tracking_urls_by_number)
    );
    assert(
        required_float(members, "total_products_before_discount")
            == Ok::<_, FieldError>(order.total_products_before_discount)
    );
    assert(
        required_float(members, "discount_percentage")
            == Ok::<_, FieldError>(order.discount_percentage)
    );
    assert(optional_float(members, "discount_total") == Ok::<_, FieldError>(order.discount_total));
    assert(
        required_float(members, "total_products_before_vat")
            == Ok::<_, FieldError>(order.total_products_before_vat)
    );
    assert(
        required_float(members, "total_before_vat") == Ok::<_, FieldError>(order.total_before_vat)
    );
    assert(required_float(members, "total_vat") == Ok::<_, FieldError>(order.total_vat));
    assert(
        required_float(members, "total_products_after_vat")
            == Ok::<_, FieldError>(order.total_products_after_vat)
    );
    assert(required_float(members, "gross_total") == Ok::<_, FieldError>(order.gross_total));
    assert(required_json(members, "extra_fields") == Ok::<_, FieldError>(order.extra_fields));
    assert(
        optional_text(members, "request_delivery_at")
            == Ok::<_, FieldError>(order.request_delivery_at)
    );
    assert(optional_text(members, "integration_ref") == Ok::<_, FieldError>(order.integration_ref));
    assert(
        required_order_products(members, "order_products")
            == Ok::<_, FieldError>(order.order_products)
    );
    assert(
        blankable_text(members, "customer_order_reference")
            == Ok::<_, FieldError>(order.customer.customer_order_reference)
    );
    assert(
        blankable_text(members, "customer_email")
            == Ok::<_, FieldError>(order.customer.customer_email)
    );
    assert(
        blankable_text(members, "customer_company")
            == Ok::<_, FieldError>(order.customer.customer_company)
    );
    assert(
        blankable_text(members, "customer_name")
            == Ok::<_, FieldError>(order.customer.customer_name)
    );
    assert(
        blankable_text(members, "customer_phone")
            == Ok::<_, FieldError>(order.customer.customer_phone)
    );
    assert(
        blankable_text(members, "customer_reference_code")
            == Ok::<_, FieldError>(order.customer.customer_reference_code)
    );
    assert(customer_info_of(members) == Ok::<_, FieldError>(order.customer));
    assert(
        optional_text(members, "addressbook_reference_code")
            == Ok::<_, FieldError>(order.addressbook_reference_code)
    );
    assert(
        optional_text(members, "replacement_tracking_number")
            == Ok::<_, FieldError>(order.replacement_tracking_number)
    );
    assert(optional_text(members, "sent_date") == Ok::<_, FieldError>(order.sent_date));
}

/// An order that is written and read again is the same order.
pub proof fn lemma_order_round_trip(order: OrderView)
    requires
        order.normalized(),
        order.legible(),
    ensures
        order_json(order) matches Some(document) && order_of(document) == Ok::<_, FieldError>(
            order,
        ),
{
    lemma_order_products_round_trip(order.order_products);
    let submitted_at = JsonView::Text(timestamp_text(order.submitted_at)->Some_0);
    let order_products = order_products_json(order.order_products)->Some_0;
    let members = order_members(order, submitted_at, order_products);
    lemma_order_lookups(order, submitted_at, order_products, members);
    lemma_order_read(order, submitted_at, order_products, members);
}

/// A wrapped order that is written and read again is the same.
pub proof fn lemma_order_wrapper_round_trip(wrapper: OrderWrapperView)
    requires
        wrapper.order.normalized(),
        wrapper.order.legible(),
    ensures
        order_wrapper_json(wrapper) matches Some(document) && order_wrapper_of(document) == Ok::<
            _,
            FieldError,
        >(wrapper),
{
    lemma_order_round_trip(wrapper.order);
    reveal_strlit("order");
}

/// A destination that was read is normalized.
pub proof fn lemma_address_book_normalized(document: JsonView)
    requires
        address_book_of(document) is Ok,
    ensures
        address_book_of(document)->Ok_0.normalized(),
{
}

/// Contact data that were read are normalized.
pub proof fn lemma_customer_info_normalized(members: Members)
    requires
        customer_info_of(members) is Ok,
    ensures
        customer_info_of(members)->Ok_0.normalized(),
{
}

/// A line item that was read is normalized.
pub proof fn lemma_order_product_normalized(document: JsonView)
    requires
        order_product_of(document) is Ok,
    ensures
        order_product_of(document)->Ok_0.normalized(),
{
    let members = document->Object_0;
    let addressbook = member_of(members, "addressbook"@)->Some_0;
    lemma_address_book_normalized(addressbook);
}

/// Line items that were read are normalized, each of them.
pub proof fn lemma_order_products_normalized(items: Seq<JsonView>, count: nat)
    requires
        order_products_up_to(items, count) is Ok,
    ensures
        order_products_up_to(items, count)->Ok_0.len() == count,
        forall|i: int|
            0 <= i < count ==> (#[trigger] order_products_up_to(
                items,
                count,
            )->Ok_0[i]).order_product.normalized(),
    decreases count,
{
    if count > 0 {
        lemma_order_products_normalized(items, (count - 1) as nat);
        let document = items[count - 1];
        let product = member_of(document->Object_0, "order_product"@)->Some_0;
        lemma_order_product_normalized(product);
    }
}

/// An order that was read is normalized.
pub proof fn lemma_order_normalized(document: JsonView)
    requires
        order_of(document) is Ok,
    ensures
        order_of(document)->Ok_0.normalized(),
{
    let members = document->Object_0;
    lemma_customer_info_normalized(members);
    let order_products = member_of(members, "order_products"@)->Some_0;
    lemma_order_products_normalized(order_products->Array_0, order_products->Array_0.len());
}

/// Reading is idempotent: an order that was read from a document, written
/// and read again, is the same order, where chrono writes its dates in a
/// form that it reads back.
pub proof fn law_round_trip(document: JsonView)
    requires
        order_of(document) is Ok,
        order_of(document)->Ok_0.legible(),
    ensures
        order_json(order_of(document)->Ok_0) matches Some(again) && order_of(again) == order_of(
            document,
        ),
{
    lemma_order_normalized(document);
    lemma_order_round_trip(order_of(document)->Ok_0);
}

/// The customer's contact data and the order's own members come from one
/// object: where an object reads as an order, its members read as the
/// customer of that order.
pub proof fn law_flattening(document: JsonView)
    requires
        order_of(document) is Ok,
    ensures
        document is Object,
        customer_info_of(document->Object_0) == Ok::<_, FieldError>(
            order_of(document)->Ok_0.customer,
        ),
{
}

} // verus!
