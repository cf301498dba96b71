use vstd::prelude::*;
use crate::datetime::Timestamp;
use crate::json::{Float, Json, JsonView};

verus! {

/// The identifier of an order.
#[derive(Debug, PartialEq, Eq, Clone)]
pub struct OrderId(pub String);

impl View for OrderId {
    type V = Seq<char>;

    open spec fn view(&self) -> Seq<char> {
        self.0@
    }
}

impl DeepView for OrderId {
    type V = Seq<char>;

    open spec fn deep_view(&self) -> Seq<char> {
        self@
    }
}

/// The identifier that a line item holds of the order it belongs to.
#[derive(Debug, PartialEq, Eq, Clone, Copy, Structural)]
pub struct OrderProductOrderId(pub i64);

/// The identifier of a customer.
#[derive(Debug, PartialEq, Eq, Clone, Copy, Structural)]
pub struct CustomerId(pub i64);

/// The identifier of a product.
#[derive(Debug, PartialEq, Eq, Clone, Copy, Structural)]
pub struct ProductId(pub i64);

/// The identifier of a line item.
#[derive(Debug, PartialEq, Eq, Clone, Copy, Structural)]
pub struct OrderProductId(pub i64);

/// The code of an order status.
#[derive(Debug, PartialEq, Eq, Clone, Copy, Structural)]
pub struct StatusOrderId(pub i64);

/// The destination of a line item, as it was when the order was placed.
#[derive(Debug, PartialEq, Eq)]
pub struct AddressBook {
    pub reference_code: Option<String>,
    pub name: String,
    pub address: Option<String>,
    pub address2: Option<String>,
    pub city: String,
    pub province: String,
    pub country: String,
    pub postal_code: String,
    pub phone: Option<String>,
    pub comments: Option<String>,
}

/// The model of `AddressBook`.
pub struct AddressBookView {
    pub reference_code: Option<Seq<char>>,
    pub name: Seq<char>,
    pub address: Option<Seq<char>>,
    pub address2: Option<Seq<char>>,
    pub city: Seq<char>,
    pub province: Seq<char>,
    pub country: Seq<char>,
    pub postal_code: Seq<char>,
    pub phone: Option<Seq<char>>,
    pub comments: Option<Seq<char>>,
}

impl View for AddressBook {
    type V = AddressBookView;

    open spec fn view(&self) -> AddressBookView {
        AddressBookView {
            reference_code: self.reference_code.deep_view(),
            name: self.name@,
            address: self.address.deep_view(),
            address2: self.address2.deep_view(),
            city: self.city@,
            province: self.province@,
            country: self.country@,
            postal_code: self.postal_code@,
            phone: self.phone.deep_view(),
            comments: self.comments.deep_view(),
        }
    }
}

impl DeepView for AddressBook {
    type V = AddressBookView;

    open spec fn deep_view(&self) -> AddressBookView {
        self@
    }
}

/// One line item of an order.
#[derive(Debug, PartialEq, Eq)]
pub struct OrderProduct {
    pub id: OrderProductId,
    pub order_id: OrderProductOrderId,
    pub product_id: ProductId,
    pub quantity: Float,
    pub price: Float,
    pub final_price: Float,
    pub discount_percentage: Float,
    pub vat_percentage: Float,
    pub total_before_vat: Float,
    pub total_vat: Float,
    pub total_after_vat: Float,
    pub status_order_id: Option<StatusOrderId>,
    pub status_order_name: Option<String>,
    pub estimated_delivery_date: Option<Timestamp>,
    pub estimated_dispatch_date: Option<Timestamp>,
    pub addressbook: AddressBook,
    pub product_name: String,
    pub product_code: Option<String>,
}

/// The model of `OrderProduct`.
pub struct OrderProductView {
    pub id: OrderProductId,
    pub order_id: OrderProductOrderId,
    pub product_id: ProductId,
    pub quantity: Float,
    pub price: Float,
    pub final_price: Float,
    pub discount_percentage: Float,
    pub vat_percentage: Float,
    pub total_before_vat: Float,
    pub total_vat: Float,
    pub total_after_vat: Float,
    pub status_order_id: Option<StatusOrderId>,
    pub status_order_name: Option<Seq<char>>,
    pub estimated_delivery_date: Option<Timestamp>,
    pub estimated_dispatch_date: Option<Timestamp>,
    pub addressbook: AddressBookView,
    pub product_name: Seq<char>,
    pub product_code: Option<Seq<char>>,
}

impl View for OrderProduct {
    type V = OrderProductView;

    open spec fn view(&self) -> OrderProductView {
        OrderProductView {
            id: self.id,
            order_id: self.order_id,
            product_id: self.product_id,
            quantity: self.quantity,
            price: self.price,
            final_price: self.final_price,
            discount_percentage: self.discount_percentage,
            vat_percentage: self.vat_percentage,
            total_before_vat: self.total_before_vat,
            total_vat: self.total_vat,
            total_after_vat: self.total_after_vat,
            status_order_id: self.status_order_id,
            status_order_name: self.status_order_name.deep_view(),
            estimated_delivery_date: self.estimated_delivery_date,
            estimated_dispatch_date: self.estimated_dispatch_date,
            addressbook: self.addressbook@,
            product_name: self.product_name@,
            product_code: self.product_code.deep_view(),
        }
    }
}

impl DeepView for OrderProduct {
    type V = OrderProductView;

    open spec fn deep_view(&self) -> OrderProductView {
        self@
    }
}

/// A line item as the wire holds it: under the key `order_product`.
#[derive(Debug, PartialEq, Eq)]
pub struct OrderProductWrapper {
    pub order_product: OrderProduct,
}

/// The model of `OrderProductWrapper`.
pub struct OrderProductWrapperView {
    pub order_product: OrderProductView,
}

impl View for OrderProductWrapper {
    type V = OrderProductWrapperView;

    open spec fn view(&self) -> OrderProductWrapperView {
        OrderProductWrapperView { order_product: self.order_product@ }
    }
}

impl DeepView for OrderProductWrapper {
    type V = OrderProductWrapperView;

    open spec fn deep_view(&self) -> OrderProductWrapperView {
        self@
    }
}

/// The customer's contact data, as they were when the order was placed.
#[derive(Debug, PartialEq, Eq)]
pub struct CustomerInfo {
    pub customer_order_reference: Option<String>,
    pub customer_email: Option<String>,
    pub customer_company: Option<String>,
    pub customer_name: Option<String>,
    pub customer_phone: Option<String>,
    pub customer_reference_code: Option<String>,
}

/// The model of `CustomerInfo`.
pub struct CustomerInfoView {
    pub customer_order_reference: Option<Seq<char>>,
    pub customer_email: Option<Seq<char>>,
    pub customer_company: Option<Seq<char>>,
    pub customer_name: Option<Seq<char>>,
    pub customer_phone: Option<Seq<char>>,
    pub customer_reference_code: Option<Seq<char>>,
}

impl View for CustomerInfo {
    type V = CustomerInfoView;

    open spec fn view(&self) -> CustomerInfoView {
        CustomerInfoView {
            customer_order_reference: self.customer_order_reference.deep_view(),
            customer_email: self.customer_email.deep_view(),
            customer_company: self.customer_company.deep_view(),
            customer_name: self.customer_name.deep_view(),
            customer_phone: self.customer_phone.deep_view(),
            customer_reference_code: self.customer_reference_code.deep_view(),
        }
    }
}

impl DeepView for CustomerInfo {
    type V = CustomerInfoView;

    open spec fn deep_view(&self) -> CustomerInfoView {
        self@
    }
}

/// A purchase order. On the wire the members of `customer` stand beside the
/// order's own, in one object.
#[derive(Debug, PartialEq, Eq)]
pub struct Order {
    pub id: OrderId,
    pub status_order_id: StatusOrderId,
    pub status_order_name: Option<String>,
    pub customer_id: CustomerId,
    pub submitted_at: Timestamp,
    pub comments_customer: Option<String>,
    pub comments_wholesaler: Option<String>,
    pub address: String,
    pub address2: Option<String>,
    pub city: Option<String>,
    pub province: Option<String>,
    pub country: Option<String>,
    pub postal_code: Option<String>,
    pub shipping_option_id: Option<i64>,
    pub shipping_costs: Float,
    pub shipping_tracking: Option<String>,
    pub shipping_tracking_url: Option<String>,
    pub shipping_tracking_urls_by_number: Vec<String>,
    pub total_products_before_discount: Float,
    pub discount_percentage: Float,
    pub discount_total: Option<Float>,
    pub total_products_before_vat: Float,
    pub total_before_vat: Float,
    pub total_vat: Float,
    pub total_products_after_vat: Float,
    pub gross_total: Float,
    pub extra_fields: Json,
    pub request_delivery_at: Option<String>,
    pub integration_ref: Option<String>,
    pub order_products: Vec<OrderProductWrapper>,
    pub customer: CustomerInfo,
    pub addressbook_reference_code: Option<String>,
    pub replacement_tracking_number: Option<String>,
    pub sent_date: Option<String>,
}

/// The model of `Order`.
pub struct OrderView {
    pub id: Seq<char>,
    pub status_order_id: StatusOrderId,
    pub status_order_name: Option<Seq<char>>,
    pub customer_id: CustomerId,
    pub submitted_at: Timestamp,
    pub comments_customer: Option<Seq<char>>,
    pub comments_wholesaler: Option<Seq<char>>,
    pub address: Seq<char>,
    pub address2: Option<Seq<char>>,
    pub city: Option<Seq<char>>,
    pub province: Option<Seq<char>>,
    pub country: Option<Seq<char>>,
    pub postal_code: Option<Seq<char>>,
    pub shipping_option_id: Option<i64>,
    pub shipping_costs: Float,
    pub shipping_tracking: Option<Seq<char>>,
    pub shipping_tracking_url: Option<Seq<char>>,
    pub shipping_tracking_urls_by_number: Seq<Seq<char>>,
    pub total_products_before_discount: Float,
    pub discount_percentage: Float,
    pub discount_total: Option<Float>,
    pub total_products_before_vat: Float,
    pub total_before_vat: Float,
    pub total_vat: Float,
    pub total_products_after_vat: Float,
    pub gross_total: Float,
    pub extra_fields: JsonView,
    pub request_delivery_at: Option<Seq<char>>,
    pub integration_ref: Option<Seq<char>>,
    pub order_products: Seq<OrderProductWrapperView>,
    pub customer: CustomerInfoView,
    pub addressbook_reference_code: Option<Seq<char>>,
    pub replacement_tracking_number: Option<Seq<char>>,
    pub sent_date: Option<Seq<char>>,
}

impl View for Order {
    type V = OrderView;

    open spec fn view(&self) -> OrderView {
        OrderView {
            id: self.id@,
            status_order_id: self.status_order_id,
            status_order_name: self.status_order_name.deep_view(),
            customer_id: self.customer_id,
            submitted_at: self.submitted_at,
            comments_customer: self.comments_customer.deep_view(),
            comments_wholesaler: self.comments_wholesaler.deep_view(),
            address: self.address@,
            address2: self.address2.deep_view(),
            city: self.city.deep_view(),
            province: self.province.deep_view(),
            country: self.country.deep_view(),
            postal_code: self.postal_code.deep_view(),
            shipping_option_id: self.shipping_option_id,
            shipping_costs: self.shipping_costs,
            shipping_tracking: self.shipping_tracking.deep_view(),
            shipping_tracking_url: self.shipping_tracking_url.deep_view(),
            shipping_tracking_urls_by_number: self.shipping_tracking_urls_by_number.deep_view(),
            total_products_before_discount: self.total_products_before_discount,
            discount_percentage: self.discount_percentage,
            discount_total: self.discount_total,
            total_products_before_vat: self.total_products_before_vat,
            total_before_vat: self.total_before_vat,
            total_vat: self.total_vat,
            total_products_after_vat: self.total_products_after_vat,
            gross_total: self.gross_total,
            extra_fields: self.extra_fields@,
            request_delivery_at: self.request_delivery_at.deep_view(),
            integration_ref: self.integration_ref.deep_view(),
            order_products: self.order_products.deep_view(),
            customer: self.customer@,
            addressbook_reference_code: self.addressbook_reference_code.deep_view(),
            replacement_tracking_number: self.replacement_tracking_number.deep_view(),
            sent_date: self.sent_date.deep_view(),
        }
    }
}

impl DeepView for Order {
    type V = OrderView;

    open spec fn deep_view(&self) -> OrderView {
        self@
    }
}

/// An order as the wire holds it: under the key `order`.
#[derive(Debug, PartialEq, Eq)]
pub struct OrderWrapper {
    pub order: Order,
}

/// The model of `OrderWrapper`.
pub struct OrderWrapperView {
    pub order: OrderView,
}

impl View for OrderWrapper {
    type V = OrderWrapperView;

    open spec fn view(&self) -> OrderWrapperView {
        OrderWrapperView { order: self.order@ }
    }
}

impl DeepView for OrderWrapper {
    type V = OrderWrapperView;

    open spec fn deep_view(&self) -> OrderWrapperView {
        self@
    }
}

} // verus!
