use vstd::prelude::*;
use crate::deser::deep;
use crate::error::{FieldError, Reason};
use crate::fields::{
    blankable_text, missing, nest, nested, optional_float, optional_integer, optional_text,
    optional_timestamp, read_blankable_text, read_float, read_integer, read_json,
    read_optional_float, read_optional_integer, read_optional_text, read_optional_timestamp,
    read_text, read_texts, read_timestamp, required_float, required_integer, required_json,
    required_text, required_texts, required_timestamp,
};
use crate::json::{
    items_view, lemma_array_view, lemma_object_view, member, member_of, members_view, Json,
    JsonView, Members,
};
use crate::laws::{
    lemma_address_book_normalized, lemma_order_normalized, lemma_order_product_normalized,
};
use crate::structs::{
    AddressBook, AddressBookView, CustomerId, CustomerInfo, CustomerInfoView, Order, OrderId,
    OrderProduct, OrderProductId, OrderProductOrderId, OrderProductView, OrderProductWrapper,
    OrderProductWrapperView, OrderView, OrderWrapper, OrderWrapperView, ProductId, StatusOrderId,
};

verus! {

/// A status code that may be missing.
pub open spec fn status_of(code: Option<i64>) -> Option<StatusOrderId> {
    match code {
        Some(code) => Some(StatusOrderId(code)),
        None => None,
    }
}

pub fn status_from(code: Option<i64>) -> (r: Option<StatusOrderId>)
    ensures
        r == status_of(code),
{
    match code {
        Some(code) => Some(StatusOrderId(code)),
        None => None,
    }
}

/// The destination that the members of an object describe. Of several
/// members that are refused, the first in the order below is reported.
pub open spec fn address_book_of_members(members: Members) -> Result<AddressBookView, FieldError> {
    let reference_code = optional_text(members, "reference_code");
    let name = required_text(members, "name");
    let address = blankable_text(members, "address");
    let address2 = blankable_text(members, "address2");
    let city = required_text(members, "city");
    let province = required_text(members, "province");
    let country = required_text(members, "country");
    let postal_code = required_text(members, "postal_code");
    let phone = blankable_text(members, "phone");
    let comments = blankable_text(members, "comments");
    if reference_code is Err {
        Err(reference_code->Err_0)
    } else if name is Err {
        Err(name->Err_0)
    } else if address is Err {
        Err(address->Err_0)
    } else if address2 is Err {
        Err(address2->Err_0)
    } else if city is Err {
        Err(city->Err_0)
    } else if province is Err {
        Err(province->Err_0)
    } else if country is Err {
        Err(country->Err_0)
    } else if postal_code is Err {
        Err(postal_code->Err_0)
    } else if phone is Err {
        Err(phone->Err_0)
    } else if comments is Err {
        Err(comments->Err_0)
    } else {
        Ok(
            AddressBookView {
                reference_code: reference_code->Ok_0,
                name: name->Ok_0,
                address: address->Ok_0,
                address2: address2->Ok_0,
                city: city->Ok_0,
                province: province->Ok_0,
                country: country->Ok_0,
                postal_code: postal_code->Ok_0,
                phone: phone->Ok_0,
                comments: comments->Ok_0,
            },
        )
    }
}

pub fn decode_address_book_members(members: &Vec<(String, Json)>) -> (r: Result<
    AddressBook,
    FieldError,
>)
    ensures
        deep(r) == address_book_of_members(members_view(members@)),
{
    let reference_code = read_optional_text(members, "reference_code")?;
    let name = read_text(members, "name")?;
    let address = read_blankable_text(members, "address")?;
    let address2 = read_blankable_text(members, "address2")?;
    let city = read_text(members, "city")?;
    let province = read_text(members, "province")?;
    let country = read_text(members, "country")?;
    let postal_code = read_text(members, "postal_code")?;
    let phone = read_blankable_text(members, "phone")?;
    let comments = read_blankable_text(members, "comments")?;
    Ok(
        AddressBook {
            reference_code,
            name,
            address,
            address2,
            city,
            province,
            country,
            postal_code,
            phone,
            comments,
        },
    )
}

/// A destination: an object with the members of `AddressBook`.
pub open spec fn address_book_of(value: JsonView) -> Result<AddressBookView, FieldError> {
    match value {
        JsonView::Object(members) => address_book_of_members(members),
        _ => Err(FieldError::here(Reason::NotObject)),
    }
}

pub fn decode_address_book(value: &Json) -> (r: Result<AddressBook, FieldError>)
    ensures
        deep(r) == address_book_of(value@),
        r matches Ok(read) ==> read@.normalized(),
{
    match value {
        Json::Object(members) => {
            proof {
                lemma_object_view(*value);
                if address_book_of(value@) is Ok {
                    lemma_address_book_normalized(value@);
                }
            }
            decode_address_book_members(members)
        },
        _ => Err(FieldError::at(Reason::NotObject)),
    }
}

/// A required member that is a destination.
pub open spec fn required_address_book(members: Members, key: &'static str) -> Result<
    AddressBookView,
    FieldError,
> {
    match member_of(members, key@) {
        Some(value) => nested(address_book_of(value), key),
        None => Err(missing(key)),
    }
}

pub fn read_address_book(members: &Vec<(String, Json)>, key: &'static str) -> (r: Result<
    AddressBook,
    FieldError,
>)
    ensures
        deep(r) == required_address_book(members_view(members@), key),
{
    match member(members, key) {
        Some(value) => nest(decode_address_book(value), key),
        None => Err(FieldError::at(Reason::Missing).in_key(key)),
    }
}

/// The line item that the members of an object describe. Of several members
/// that are refused, the first in the order below is reported.
pub open spec fn order_product_of_members(members: Members) -> Result<
    OrderProductView,
    FieldError,
> {
    let id = required_integer(members, "id");
    let order_id = required_integer(members, "order_id");
    let product_id = required_integer(members, "product_id");
    let quantity = required_float(members, "quantity");
    let price = required_float(members, "price");
    let final_price = required_float(members, "final_price");
    let discount_percentage = required_float(members, "discount_percentage");
    let vat_percentage = required_float(members, "vat_percentage");
    let total_before_vat = required_float(members, "total_before_vat");
    let total_vat = required_float(members, "total_vat");
    let total_after_vat = required_float(members, "total_after_vat");
    let status_order_id = optional_integer(members, "status_order_id");
    let status_order_name = blankable_text(members, "status_order_name");
    let estimated_delivery_date = optional_timestamp(members, "estimated_delivery_date");
    let estimated_dispatch_date = optional_timestamp(members, "estimated_dispatch_date");
    let addressbook = required_address_book(members, "addressbook");
    let product_name = required_text(members, "product_name");
    let product_code = blankable_text(members, "product_code");
    if id is Err {
        Err(id->Err_0)
    } else if order_id is Err {
        Err(order_id->Err_0)
    } else if product_id is Err {
        Err(product_id->Err_0)
    } else if quantity is Err {
        Err(quantity->Err_0)
    } else if price is Err {
        Err(price->Err_0)
    } else if final_price is Err {
        Err(final_price->Err_0)
    } else if discount_percentage is Err {
        Err(discount_percentage->Err_0)
    } else if vat_percentage is Err {
        Err(vat_percentage->Err_0)
    } else if total_before_vat is Err {
        Err(total_before_vat->Err_0)
    } else if total_vat is Err {
        Err(total_vat->Err_0)
    } else if total_after_vat is Err {
        Err(total_after_vat->Err_0)
    } else if status_order_id is Err {
        Err(status_order_id->Err_0)
    } else if status_order_name is Err {
        Err(status_order_name->Err_0)
    } else if estimated_delivery_date is Err {
        Err(estimated_delivery_date->Err_0)
    } else if estimated_dispatch_date is Err {
        Err(estimated_dispatch_date->Err_0)
    } else if addressbook is Err {
        Err(addressbook->Err_0)
    } else if product_name is Err {
        Err(product_name->Err_0)
    } else if product_code is Err {
        Err(product_code->Err_0)
    } else {
        Ok(
            OrderProductView {
                id: OrderProductId(id->Ok_0),
                order_id: OrderProductOrderId(order_id->Ok_0),
                product_id: ProductId(product_id->Ok_0),
                quantity: quantity->Ok_0,
                price: price->Ok_0,
                final_price: final_price->Ok_0,
                discount_percentage: discount_percentage->Ok_0,
                vat_percentage: vat_percentage->Ok_0,
                total_before_vat: total_before_vat->Ok_0,
                total_vat: total_vat->Ok_0,
                total_after_vat: total_after_vat->Ok_0,
                status_order_id: status_of(status_order_id->Ok_0),
                status_order_name: status_order_name->Ok_0,
                estimated_delivery_date: estimated_delivery_date->Ok_0,
                estimated_dispatch_date: estimated_dispatch_date->Ok_0,
                addressbook: addressbook->Ok_0,
                product_name: product_name->Ok_0,
                product_code: product_code->Ok_0,
            },
        )
    }
}

pub fn decode_order_product_members(members: &Vec<(String, Json)>) -> (r: Result<
    OrderProduct,
    FieldError,
>)
    ensures
        deep(r) == order_product_of_members(members_view(members@)),
{
    let id = read_integer(members, "id")?;
    let order_id = read_integer(members, "order_id")?;
    let product_id = read_integer(members, "product_id")?;
    let quantity = read_float(members, "quantity")?;
    let price = read_float(members, "price")?;
    let final_price = read_float(members, "final_price")?;
    let discount_percentage = read_float(members, "discount_percentage")?;
    let vat_percentage = read_float(members, "vat_percentage")?;
    let total_before_vat = read_float(members, "total_before_vat")?;
    let total_vat = read_float(members, "total_vat")?;
    let total_after_vat = read_float(members, "total_after_vat")?;
    let status_order_id = read_optional_integer(members, "status_order_id")?;
    let status_order_name = read_blankable_text(members, "status_order_name")?;
    let estimated_delivery_date = read_optional_timestamp(members, "estimated_delivery_date")?;
    let estimated_dispatch_date = read_optional_timestamp(members, "estimated_dispatch_date")?;
    let addressbook = read_address_book(members, "addressbook")?;
    let product_name = read_text(members, "product_name")?;
    let product_code = read_blankable_text(members, "product_code")?;
    Ok(
        OrderProduct {
            id: OrderProductId(id),
            order_id: OrderProductOrderId(order_id),
            product_id: ProductId(product_id),
            quantity,
            price,
            final_price,
            discount_percentage,
            vat_percentage,
            total_before_vat,
            total_vat,
            total_after_vat,
            status_order_id: status_from(status_order_id),
            status_order_name,
            estimated_delivery_date,
            estimated_dispatch_date,
            addressbook,
            product_name,
            product_code,
        },
    )
}

/// A line item: an object with the members of `OrderProduct`.
pub open spec fn order_product_of(value: JsonView) -> Result<OrderProductView, FieldError> {
    match value {
        JsonView::Object(members) => order_product_of_members(members),
        _ => Err(FieldError::here(Reason::NotObject)),
    }
}

pub fn decode_order_product(value: &Json) -> (r: Result<OrderProduct, FieldError>)
    ensures
        deep(r) == order_product_of(value@),
        r matches Ok(read) ==> read@.normalized(),
{
    match value {
        Json::Object(members) => {
            proof {
                lemma_object_view(*value);
                if order_product_of(value@) is Ok {
                    lemma_order_product_normalized(value@);
                }
            }
            decode_order_product_members(members)
        },
        _ => Err(FieldError::at(Reason::NotObject)),
    }
}

/// A required member that is a line item.
pub open spec fn required_order_product(members: Members, key: &'static str) -> Result<
    OrderProductView,
    FieldError,
> {
    match member_of(members, key@) {
        Some(value) => nested(order_product_of(value), key),
        None => Err(missing(key)),
    }
}

pub fn read_order_product(members: &Vec<(String, Json)>, key: &'static str) -> (r: Result<
    OrderProduct,
    FieldError,
>)
    ensures
        deep(r) == required_order_product(members_view(members@), key),
{
    match member(members, key) {
        Some(value) => nest(decode_order_product(value), key),
        None => Err(FieldError::at(Reason::Missing).in_key(key)),
    }
}

/// A wrapped line item: an object whose member `order_product` is a line
/// item; other members are ignored.
pub open spec fn order_product_wrapper_of(value: JsonView) -> Result<
    OrderProductWrapperView,
    FieldError,
> {
    match value {
        JsonView::Object(members) => match required_order_product(members, "order_product") {
            Ok(order_product) => Ok(OrderProductWrapperView { order_product }),
            Err(e) => Err(e),
        },
        _ => Err(FieldError::here(Reason::NotObject)),
    }
}

pub fn decode_order_product_wrapper(value: &Json) -> (r: Result<OrderProductWrapper, FieldError>)
    ensures
        deep(r) == order_product_wrapper_of(value@),
{
    match value {
        Json::Object(members) => {
            proof {
                lemma_object_view(*value);
            }
            match read_order_product(members, "order_product") {
                Ok(order_product) => Ok(OrderProductWrapper { order_product }),
                Err(e) => Err(e),
            }
        },
        _ => Err(FieldError::at(Reason::NotObject)),
    }
}

/// The first `count` elements of an array of wrapped line items.
pub open spec fn order_products_up_to(items: Seq<JsonView>, count: nat) -> Result<
    Seq<OrderProductWrapperView>,
    FieldError,
>
    decreases count,
{
    if count == 0 {
        Ok(Seq::empty())
    } else {
        match order_products_up_to(items, (count - 1) as nat) {
            Err(e) => Err(e),
            Ok(done) => match order_product_wrapper_of(items[count - 1]) {
                Ok(item) => Ok(done.push(item)),
                Err(e) => Err(e.under_index((count - 1) as usize)),
            },
        }
    }
}

/// A failure among the first elements is the failure of every longer run.
pub proof fn lemma_order_products_failure_stays(items: Seq<JsonView>, failed: nat, count: nat)
    requires
        order_products_up_to(items, failed) is Err,
        failed <= count,
    ensures
        order_products_up_to(items, count) == order_products_up_to(items, failed),
    decreases count,
{
    if failed < count {
        lemma_order_products_failure_stays(items, failed, (count - 1) as nat);
    }
}

/// An array of wrapped line items. The first element that is refused decides.
pub open spec fn order_products_of(value: JsonView) -> Result<
    Seq<OrderProductWrapperView>,
    FieldError,
> {
    match value {
        JsonView::Array(items) => order_products_up_to(items, items.len()),
        _ => Err(FieldError::here(Reason::NotArray)),
    }
}

pub fn decode_order_products(value: &Json) -> (r: Result<Vec<OrderProductWrapper>, FieldError>)
    ensures
        deep(r) == order_products_of(value@),
{
    match value {
        Json::Array(items) => {
            proof {
                lemma_array_view(*value);
            }
            let mut out: Vec<OrderProductWrapper> = Vec::new();
            let mut i: usize = 0;
            assert(out.deep_view() =~= Seq::<OrderProductWrapperView>::empty());
            while i < items.len()
                invariant
                    i <= items.len(),
                    value@ == JsonView::Array(items_view(items@)),
                    order_products_up_to(items_view(items@), i as nat) == Ok::<_, FieldError>(
                        out.deep_view(),
                    ),
                decreases items.len() - i,
            {
                let ghost before = out.deep_view();
                match decode_order_product_wrapper(&items[i]) {
                    Ok(item) => {
                        out.push(item);
                        assert(out.deep_view() =~= before.push(item@));
                    },
                    Err(e) => {
                        proof {
                            lemma_order_products_failure_stays(
                                items_view(items@),
                                (i + 1) as nat,
                                items@.len(),
                            );
                        }
                        return Err(e.in_index(i));
                    },
                }
                i += 1;
            }
            Ok(out)
        },
        _ => Err(FieldError::at(Reason::NotArray)),
    }
}

/// A required member that is an array of wrapped line items.
pub open spec fn required_order_products(members: Members, key: &'static str) -> Result<
    Seq<OrderProductWrapperView>,
    FieldError,
> {
    match member_of(members, key@) {
        Some(value) => nested(order_products_of(value), key),
        None => Err(missing(key)),
    }
}

pub fn read_order_products(members: &Vec<(String, Json)>, key: &'static str) -> (r: Result<
    Vec<OrderProductWrapper>,
    FieldError,
>)
    ensures
        deep(r) == required_order_products(members_view(members@), key),
{
    match member(members, key) {
        Some(value) => nest(decode_order_products(value), key),
        None => Err(FieldError::at(Reason::Missing).in_key(key)),
    }
}

/// The customer's contact data among the members of an order: they are read
/// from the object that holds the order's own members.
pub open spec fn customer_info_of(members: Members) -> Result<CustomerInfoView, FieldError> {
    let customer_order_reference = blankable_text(members, "customer_order_reference");
    let customer_email = blankable_text(members, "customer_email");
    let customer_company = blankable_text(members, "customer_company");
    let customer_name = blankable_text(members, "customer_name");
    let customer_phone = blankable_text(members, "customer_phone");
    let customer_reference_code = blankable_text(members, "customer_reference_code");
    if customer_order_reference is Err {
        Err(customer_order_reference->Err_0)
    } else if customer_email is Err {
        Err(customer_email->Err_0)
    } else if customer_company is Err {
        Err(customer_company->Err_0)
    } else if customer_name is Err {
        Err(customer_name->Err_0)
    } else if customer_phone is Err {
        Err(customer_phone->Err_0)
    } else if customer_reference_code is Err {
        Err(customer_reference_code->Err_0)
    } else {
        Ok(
            CustomerInfoView {
                customer_order_reference: customer_order_reference->Ok_0,
                customer_email: customer_email->Ok_0,
                customer_company: customer_company->Ok_0,
                customer_name: customer_name->Ok_0,
                customer_phone: customer_phone->Ok_0,
                customer_reference_code: customer_reference_code->Ok_0,
            },
        )
    }
}

pub fn decode_customer_info(members: &Vec<(String, Json)>) -> (r: Result<
    CustomerInfo,
    FieldError,
>)
    ensures
        deep(r) == customer_info_of(members_view(members@)),
{
    let customer_order_reference = read_blankable_text(members, "customer_order_reference")?;
    let customer_email = read_blankable_text(members, "customer_email")?;
    let customer_company = read_blankable_text(members, "customer_company")?;
    let customer_name = read_blankable_text(members, "customer_name")?;
    let customer_phone = read_blankable_text(members, "customer_phone")?;
    let customer_reference_code = read_blankable_text(members, "customer_reference_code")?;
    Ok(
        CustomerInfo {
            customer_order_reference,
            customer_email,
            customer_company,
            customer_name,
            customer_phone,
            customer_reference_code,
        },
    )
}

/// The order that the members of an object describe; the customer's contact
/// data are read from the same members. Of several members that are refused,
/// the first in the order below is reported.
pub open spec fn order_of_members(members: Members) -> Result<OrderView, FieldError> {
    let id = required_text(members, "id");
    let status_order_id = required_integer(members, "status_order_id");
    let status_order_name = blankable_text(members, "status_order_name");
    let customer_id = required_integer(members, "customer_id");
    let submitted_at = required_timestamp(members, "submitted_at");
    let comments_customer = blankable_text(members, "comments_customer");
    let comments_wholesaler = optional_text(members, "comments_wholesaler");
    let address = required_text(members, "address");
    let address2 = blankable_text(members, "address2");
    let city = blankable_text(members, "city");
    let province = blankable_text(members, "province");
    let country = blankable_text(members, "country");
    let postal_code = blankable_text(members, "postal_code");
    let shipping_option_id = optional_integer(members, "shipping_option_id");
    let shipping_costs = required_float(members, "shipping_costs");
    let shipping_tracking = optional_text(members, "shipping_tracking");
    let shipping_tracking_url = blankable_text(members, "shipping_tracking_url");
    let shipping_tracking_urls_by_number = required_texts(
        members,
        "shipping_tracking_urls_by_number",
    );
    let total_products_before_discount = required_float(members, "total_products_before_discount");
    let discount_percentage = required_float(members, "discount_percentage");
    let discount_total = optional_float(members, "discount_total");
    let total_products_before_vat = required_float(members, "total_products_before_vat");
    let total_before_vat = required_float(members, "total_before_vat");
    let total_vat = required_float(members, "total_vat");
    let total_products_after_vat = required_float(members, "total_products_after_vat");
    let gross_total = required_float(members, "gross_total");
    let extra_fields = required_json(members, "extra_fields");
    let request_delivery_at = optional_text(members, "request_delivery_at");
    let integration_ref = optional_text(members, "integration_ref");
    let order_products = required_order_products(members, "order_products");
    let customer = customer_info_of(members);
    let addressbook_reference_code = optional_text(members, "addressbook_reference_code");
    let replacement_tracking_number = optional_text(members, "replacement_tracking_number");
    let sent_date = optional_text(members, "sent_date");
    if id is Err {
        Err(id->Err_0)
    } else if status_order_id is Err {
        Err(status_order_id->Err_0)
    } else if status_order_name is Err {
        Err(status_order_name->Err_0)
    } else if customer_id is Err {
        Err(customer_id->Err_0)
    } else if submitted_at is Err {
        Err(submitted_at->Err_0)
    } else if comments_customer is Err {
        Err(comments_customer->Err_0)
    } else if comments_wholesaler is Err {
        Err(comments_wholesaler->Err_0)
    } else if address is Err {
        Err(address->Err_0)
    } else if address2 is Err {
        Err(address2->Err_0)
    } else if city is Err {
        Err(city->Err_0)
    } else if province is Err {
        Err(province->Err_0)
    } else if country is Err {
        Err(country->Err_0)
    } else if postal_code is Err {
        Err(postal_code->Err_0)
    } else if shipping_option_id is Err {
        Err(shipping_option_id->Err_0)
    } else if shipping_costs is Err {
        Err(shipping_costs->Err_0)
    } else if shipping_tracking is Err {
        Err(shipping_tracking->Err_0)
    } else if shipping_tracking_url is Err {
        Err(shipping_tracking_url->Err_0)
    } else if shipping_tracking_urls_by_number is Err {
        Err(shipping_tracking_urls_by_number->Err_0)
    } else if total_products_before_discount is Err {
        Err(total_products_before_discount->Err_0)
    } else if discount_percentage is Err {
        Err(discount_percentage->Err_0)
    } else if discount_total is Err {
        Err(discount_total->Err_0)
    } else if total_products_before_vat is Err {
        Err(total_products_before_vat->Err_0)
    } else if total_before_vat is Err {
        Err(total_before_vat->Err_0)
    } else if total_vat is Err {
        Err(total_vat->Err_0)
    } else if total_products_after_vat is Err {
        Err(total_products_after_vat->Err_0)
    } else if gross_total is Err {
        Err(gross_total->Err_0)
    } else if extra_fields is Err {
        Err(extra_fields->Err_0)
    } else if request_delivery_at is Err {
        Err(request_delivery_at->Err_0)
    } else if integration_ref is Err {
        Err(integration_ref->Err_0)
    } else if order_products is Err {
        Err(order_products->Err_0)
    } else if customer is Err {
        Err(customer->Err_0)
    } else if addressbook_reference_code is Err {
        Err(addressbook_reference_code->Err_0)
    } else if replacement_tracking_number is Err {
        Err(replacement_tracking_number->Err_0)
    } else if sent_date is Err {
        Err(sent_date->Err_0)
    } else {
        Ok(
            OrderView {
                id: id->Ok_0,
                status_order_id: StatusOrderId(status_order_id->Ok_0),
                status_order_name: status_order_name->Ok_0,
                customer_id: CustomerId(customer_id->Ok_0),
                submitted_at: submitted_at->Ok_0,
                comments_customer: comments_customer->Ok_0,
                comments_wholesaler: comments_wholesaler->Ok_0,
                address: address->Ok_0,
                address2: address2->Ok_0,
                city: city->Ok_0,
                province: province->Ok_0,
                country: country->Ok_0,
                postal_code: postal_code->Ok_0,
                shipping_option_id: shipping_option_id->Ok_0,
                shipping_costs: shipping_costs->Ok_0,
                shipping_tracking: shipping_tracking->Ok_0,
                shipping_tracking_url: shipping_tracking_url->Ok_0,
                shipping_tracking_urls_by_number: shipping_tracking_urls_by_number->Ok_0,
                total_products_before_discount: total_products_before_discount->Ok_0,
                discount_percentage: discount_percentage->Ok_0,
                discount_total: discount_total->Ok_0,
                total_products_before_vat: total_products_before_vat->Ok_0,
                total_before_vat: total_before_vat->Ok_0,
                total_vat: total_vat->Ok_0,
                total_products_after_vat: total_products_after_vat->Ok_0,
                gross_total: gross_total->Ok_0,
                extra_fields: extra_fields->Ok_0,
                request_delivery_at: request_delivery_at->Ok_0,
                integration_ref: integration_ref->Ok_0,
                order_products: order_products->Ok_0,
                customer: customer->Ok_0,
                addressbook_reference_code: addressbook_reference_code->Ok_0,
                replacement_tracking_number: replacement_tracking_number->Ok_0,
                sent_date: sent_date->Ok_0,
            },
        )
    }
}

pub fn decode_order_members(members: &Vec<(String, Json)>) -> (r: Result<Order, FieldError>)
    ensures
        deep(r) == order_of_members(members_view(members@)),
{
    let id = read_text(members, "id")?;
    let status_order_id = read_integer(members, "status_order_id")?;
    let status_order_name = read_blankable_text(members, "status_order_name")?;
    let customer_id = read_integer(members, "customer_id")?;
    let submitted_at = read_timestamp(members, "submitted_at")?;
    let comments_customer = read_blankable_text(members, "comments_customer")?;
    let comments_wholesaler = read_optional_text(members, "comments_wholesaler")?;
    let address = read_text(members, "address")?;
    let address2 = read_blankable_text(members, "address2")?;
    let city = read_blankable_text(members, "city")?;
    let province = read_blankable_text(members, "province")?;
    let country = read_blankable_text(members, "country")?;
    let postal_code = read_blankable_text(members, "postal_code")?;
    let shipping_option_id = read_optional_integer(members, "shipping_option_id")?;
    let shipping_costs = read_float(members, "shipping_costs")?;
    let shipping_tracking = read_optional_text(members, "shipping_tracking")?;
    let shipping_tracking_url = read_blankable_text(members, "shipping_tracking_url")?;
    let shipping_tracking_urls_by_number = read_texts(members, "shipping_tracking_urls_by_number")?;
    let total_products_before_discount = read_float(members, "total_products_before_discount")?;
    let discount_percentage = read_float(members, "discount_percentage")?;
    let discount_total = read_optional_float(members, "discount_total")?;
    let total_products_before_vat = read_float(members, "total_products_before_vat")?;
    let total_before_vat = read_float(members, "total_before_vat")?;
    let total_vat = read_float(members, "total_vat")?;
    let total_products_after_vat = read_float(members, "total_products_after_vat")?;
    let gross_total = read_float(members, "gross_total")?;
    let extra_fields = read_json(members, "extra_fields")?;
    let request_delivery_at = read_optional_text(members, "request_delivery_at")?;
    let integration_ref = read_optional_text(members, "integration_ref")?;
    let order_products = read_order_products(members, "order_products")?;
    let customer = decode_customer_info(members)?;
    let addressbook_reference_code = read_optional_text(members, "addressbook_reference_code")?;
    let replacement_tracking_number = read_optional_text(members, "replacement_tracking_number")?;
    let sent_date = read_optional_text(members, "sent_date")?;
    Ok(
        Order {
            id: OrderId(id),
            status_order_id: StatusOrderId(status_order_id),
            status_order_name,
            customer_id: CustomerId(customer_id),
            submitted_at,
            comments_customer,
            comments_wholesaler,
            address,
            address2,
            city,
            province,
            country,
            postal_code,
            shipping_option_id,
            shipping_costs,
            shipping_tracking,
            shipping_tracking_url,
            shipping_tracking_urls_by_number,
            total_products_before_discount,
            discount_percentage,
            discount_total,
            total_products_before_vat,
            total_before_vat,
            total_vat,
            total_products_after_vat,
            gross_total,
            extra_fields,
            request_delivery_at,
            integration_ref,
            order_products,
            customer,
            addressbook_reference_code,
            replacement_tracking_number,
            sent_date,
        },
    )
}

/// An order: an object with the members of `Order` and of `CustomerInfo`.
pub open spec fn order_of(value: JsonView) -> Result<OrderView, FieldError> {
    match value {
        JsonView::Object(members) => order_of_members(members),
        _ => Err(FieldError::here(Reason::NotObject)),
    }
}

pub fn decode_order(value: &Json) -> (r: Result<Order, FieldError>)
    ensures
        deep(r) == order_of(value@),
        r matches Ok(read) ==> read@.normalized(),
{
    match value {
        Json::Object(members) => {
            proof {
                lemma_object_view(*value);
                if order_of(value@) is Ok {
                    lemma_order_normalized(value@);
                }
            }
            decode_order_members(members)
        },
        _ => Err(FieldError::at(Reason::NotObject)),
    }
}

/// A required member that is an order.
pub open spec fn required_order(members: Members, key: &'static str) -> Result<
    OrderView,
    FieldError,
> {
    match member_of(members, key@) {
        Some(value) => nested(order_of(value), key),
        None => Err(missing(key)),
    }
}

pub fn read_order(members: &Vec<(String, Json)>, key: &'static str) -> (r: Result<
    Order,
    FieldError,
>)
    ensures
        deep(r) == required_order(members_view(members@), key),
{
    match member(members, key) {
        Some(value) => nest(decode_order(value), key),
        None => Err(FieldError::at(Reason::Missing).in_key(key)),
    }
}

/// A wrapped order: an object whose member `order` is an order; other
/// members are ignored.
pub open spec fn order_wrapper_of(value: JsonView) -> Result<OrderWrapperView, FieldError> {
    match value {
        JsonView::Object(members) => match required_order(members, "order") {
            Ok(order) => Ok(OrderWrapperView { order }),
            Err(e) => Err(e),
        },
        _ => Err(FieldError::here(Reason::NotObject)),
    }
}

pub fn decode_order_wrapper(value: &Json) -> (r: Result<OrderWrapper, FieldError>)
    ensures
        deep(r) == order_wrapper_of(value@),
{
    match value {
        Json::Object(members) => {
            proof {
                lemma_object_view(*value);
            }
            match read_order(members, "order") {
                Ok(order) => Ok(OrderWrapper { order }),
                Err(e) => Err(e),
            }
        },
        _ => Err(FieldError::at(Reason::NotObject)),
    }
}

/// The first `count` elements of an array of wrapped orders.
pub open spec fn orders_up_to(items: Seq<JsonView>, count: nat) -> Result<
    Seq<OrderWrapperView>,
    FieldError,
>
    decreases count,
{
    if count == 0 {
        Ok(Seq::empty())
    } else {
        match orders_up_to(items, (count - 1) as nat) {
            Err(e) => Err(e),
            Ok(done) => match order_wrapper_of(items[count - 1]) {
                Ok(item) => Ok(done.push(item)),
                Err(e) => Err(e.under_index((count - 1) as usize)),
            },
        }
    }
}

/// A failure among the first elements is the failure of every longer run.
pub proof fn lemma_orders_failure_stays(items: Seq<JsonView>, failed: nat, count: nat)
    requires
        orders_up_to(items, failed) is Err,
        failed <= count,
    ensures
        orders_up_to(items, count) == orders_up_to(items, failed),
    decreases count,
{
    if failed < count {
        lemma_orders_failure_stays(items, failed, (count - 1) as nat);
    }
}

/// A response: an array of wrapped orders. The first element that is refused
/// decides.
pub open spec fn orders_of(value: JsonView) -> Result<Seq<OrderWrapperView>, FieldError> {
    match value {
        JsonView::Array(items) => orders_up_to(items, items.len()),
        _ => Err(FieldError::here(Reason::NotArray)),
    }
}

pub fn decode_orders(value: &Json) -> (r: Result<Vec<OrderWrapper>, FieldError>)
    ensures
        deep(r) == orders_of(value@),
{
    match value {
        Json::Array(items) => {
            proof {
                lemma_array_view(*value);
            }
            let mut out: Vec<OrderWrapper> = Vec::new();
            let mut i: usize = 0;
            assert(out.deep_view() =~= Seq::<OrderWrapperView>::empty());
            while i < items.len()
                invariant
                    i <= items.len(),
                    value@ == JsonView::Array(items_view(items@)),
                    orders_up_to(items_view(items@), i as nat) == Ok::<_, FieldError>(
                        out.deep_view(),
                    ),
                decreases items.len() - i,
            {
                let ghost before = out.deep_view();
                match decode_order_wrapper(&items[i]) {
                    Ok(item) => {
                        out.push(item);
                        assert(out.deep_view() =~= before.push(item@));
                    },
                    Err(e) => {
                        proof {
                            lemma_orders_failure_stays(
                                items_view(items@),
                                (i + 1) as nat,
                                items@.len(),
                            );
                        }
                        return Err(e.in_index(i));
                    },
                }
                i += 1;
            }
            Ok(out)
        },
        _ => Err(FieldError::at(Reason::NotArray)),
    }
}

} // verus!
