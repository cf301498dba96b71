use vstd::prelude::*;
use vstd::std_specs::convert::FromSpecImpl;
use itertools::Itertools;
use crate::decode::{decode_orders, orders_of};
use crate::document::{parse_document, text_json};
use crate::error::DecodeError;
use crate::json::{Json, JsonView};
use crate::structs::{Order, OrderWrapper, OrderWrapperView};

verus! {

/// `reqwest::Error`: carried to the caller as it came.
#[verifier::external_type_specification]
#[verifier::external_body]
pub struct ExTransportError(reqwest::Error);

/// The address that a lookup asks, up to the reference that is looked up.
pub const ENDPOINT: &'static str =
    "https://b2b.bigecommercewebsite.com/api_customer/orders?customer_order_reference_eq=";

/// Why a lookup gave no order.
#[derive(Debug)]
pub enum FetchOrderError {
    /// The request failed, or its answer could not be read as text.
    Reqwest(reqwest::Error),
    /// The answer is not a list of orders.
    Deserialization(DecodeError),
    /// No order has the reference.
    NotFound,
    /// Several orders have the reference: all of them, in the order of the
    /// answer.
    MultipleFound(Vec<OrderWrapper>),
}

impl From<reqwest::Error> for FetchOrderError {
    fn from(e: reqwest::Error) -> (r: FetchOrderError) {
        FetchOrderError::Reqwest(e)
    }
}

impl FromSpecImpl<reqwest::Error> for FetchOrderError {
    open spec fn obeys_from_spec() -> bool {
        true
    }

    open spec fn from_spec(e: reqwest::Error) -> FetchOrderError {
        FetchOrderError::Reqwest(e)
    }
}

impl From<DecodeError> for FetchOrderError {
    fn from(e: DecodeError) -> (r: FetchOrderError) {
        FetchOrderError::Deserialization(e)
    }
}

impl FromSpecImpl<DecodeError> for FetchOrderError {
    open spec fn obeys_from_spec() -> bool {
        true
    }

    open spec fn from_spec(e: DecodeError) -> FetchOrderError {
        FetchOrderError::Deserialization(e)
    }
}

impl From<Vec<OrderWrapper>> for FetchOrderError {
    fn from(orders: Vec<OrderWrapper>) -> (r: FetchOrderError) {
        FetchOrderError::MultipleFound(orders)
    }
}

impl FromSpecImpl<Vec<OrderWrapper>> for FetchOrderError {
    open spec fn obeys_from_spec() -> bool {
        true
    }

    open spec fn from_spec(orders: Vec<OrderWrapper>) -> FetchOrderError {
        FetchOrderError::MultipleFound(orders)
    }
}

/// The address to ask for the orders with the reference `reference`: the
/// reference follows the endpoint as it stands.
pub fn request_url(reference: &str) -> (url: String)
    ensures
        url@ == ENDPOINT@ + reference@,
{
    let mut url = ENDPOINT.to_owned();
    url.append(reference);
    url
}

/// `Itertools::at_most_one` on the elements of `items`, front to back: no
/// element gives `Ok(None)`, one gives it back, and more give all of them
/// back as the error, in their order.
#[verifier::external_body]
fn at_most_one<T>(items: Vec<T>) -> (r: Result<Option<T>, Vec<T>>)
    ensures
        match r {
            Ok(None) => items@.len() == 0,
            Ok(Some(only)) => items@ =~= seq![only],
            Err(all) => items@.len() >= 2 && all@ == items@,
        },
{
    items.into_iter().at_most_one().map_err(|all| all.collect())
}

/// The one order among those that matched: none matching and several
/// matching are failures of their own, and of several none is picked.
pub fn resolve(orders: Vec<OrderWrapper>) -> (r: Result<Order, FetchOrderError>)
    ensures
        match r {
            Ok(order) => orders@.len() == 1 && order == orders@[0].order,
            Err(FetchOrderError::NotFound) => orders@.len() == 0,
            Err(FetchOrderError::MultipleFound(all)) => orders@.len() >= 2 && all@ == orders@,
            Err(_) => false,
        },
{
    match at_most_one(orders) {
        Ok(Some(wrapper)) => Ok(wrapper.order),
        Ok(None) => Err(FetchOrderError::NotFound),
        Err(all) => Err(FetchOrderError::MultipleFound(all)),
    }
}

/// Whether `r` is the answer to a lookup that `matched` orders: with none
/// the lookup found nothing, with one it found that order, and with more it
/// hands all of them back.
pub open spec fn answers(
    matched: Seq<OrderWrapperView>,
    r: Result<Order, FetchOrderError>,
) -> bool {
    if matched.len() == 0 {
        r matches Err(FetchOrderError::NotFound)
    } else if matched.len() == 1 {
        r matches Ok(order) && order@ == matched[0].order
    } else {
        r matches Err(FetchOrderError::MultipleFound(all)) && all.deep_view() == matched
    }
}

/// Whether `r` is the outcome of a lookup whose answer held `document`.
pub open spec fn outcome_of(document: JsonView, r: Result<Order, FetchOrderError>) -> bool {
    match orders_of(document) {
        Ok(matched) => answers(matched, r),
        Err(e) => r matches Err(FetchOrderError::Deserialization(DecodeError::Field(f))) && f == e,
    }
}

/// The outcome of a lookup whose answer held `document`.
pub fn order_from_document(document: &Json) -> (r: Result<Order, FetchOrderError>)
    ensures
        outcome_of(document@, r),
{
    match decode_orders(document) {
        Ok(orders) => {
            let ghost matched = orders.deep_view();
            let r = resolve(orders);
            proof {
                if matched.len() >= 2 {
                    assert(r->Err_0->MultipleFound_0.deep_view() =~= matched);
                }
            }
            r
        },
        Err(e) => Err(FetchOrderError::Deserialization(DecodeError::Field(e))),
    }
}

/// The wrapped orders that the text `body` holds: the text must be JSON, and
/// the document an array of wrapped orders.
pub fn decode_body(body: &str) -> (r: Result<Vec<OrderWrapper>, DecodeError>)
    ensures
        match text_json(body@) {
            Some(document) => match orders_of(document) {
                Ok(orders) => r matches Ok(out) && out.deep_view() == orders,
                Err(e) => r matches Err(DecodeError::Field(f)) && f == e,
            },
            None => r matches Err(DecodeError::Syntax(_)),
        },
{
    match parse_document(body) {
        Ok(document) => match decode_orders(&document) {
            Ok(orders) => Ok(orders),
            Err(e) => Err(DecodeError::Field(e)),
        },
        Err(e) => Err(DecodeError::Syntax(e)),
    }
}

/// The outcome of a lookup whose answer was the text `body`.
pub fn order_from_body(body: &str) -> (r: Result<Order, FetchOrderError>)
    ensures
        match text_json(body@) {
            Some(document) => outcome_of(document, r),
            None => r matches Err(FetchOrderError::Deserialization(DecodeError::Syntax(_))),
        },
{
    match parse_document(body) {
        Ok(document) => order_from_document(&document),
        Err(e) => Err(FetchOrderError::Deserialization(DecodeError::Syntax(e))),
    }
}

/// The outcome of a lookup, given how the request went: a failed request is
/// handed on, an answer is decoded and resolved.
pub fn order_from_response(response: Result<String, reqwest::Error>) -> (r: Result<
    Order,
    FetchOrderError,
>)
    ensures
        match response {
            Err(e) => r matches Err(FetchOrderError::Reqwest(f)) && f == e,
            Ok(body) => match text_json(body@) {
                Some(document) => outcome_of(document, r),
                None => r matches Err(FetchOrderError::Deserialization(DecodeError::Syntax(_))),
            },
        },
{
    match response {
        Ok(body) => order_from_body(body.as_str()),
        Err(e) => Err(FetchOrderError::Reqwest(e)),
    }
}

} // verus!
