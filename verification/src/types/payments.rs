//! Invoices, orders and payments.

use crate::types::primitive::Integer;
use crate::types::user::User;
use vstd::prelude::*;

verus! {

/// Basic information about an invoice.
#[derive(Debug, Clone, PartialEq, Eq)]
pub struct Invoice {
    /// Product name.
    pub title: String,
    /// Product description.
    pub description: String,
    /// Unique deep-linking parameter that can be used to generate this invoice.
    pub start_parameter: String,
    /// Three-letter ISO 4217 currency code.
    pub currency: String,
    /// Total price in the smallest units of the currency: 145 for US$ 1.45.
    pub total_amount: Integer,
}

/// A portion of the price for goods or services.
#[derive(Debug, Clone, PartialEq, Eq)]
pub struct LabeledPrice {
    /// Portion label.
    pub label: String,
    /// Price of the portion in the smallest units of the currency.
    pub amount: Integer,
}

/// Information about an order.
#[derive(Debug, Clone, PartialEq, Eq)]
pub struct OrderInfo {
    /// User name.
    pub name: Option<String>,
    /// User's phone number.
    pub phone_number: Option<String>,
    /// User email.
    pub email: Option<String>,
    /// User shipping address.
    pub shipping_address: Option<ShippingAddress>,
}

/// An incoming pre-checkout query.
#[derive(Debug, Clone, PartialEq, Eq)]
pub struct PreCheckoutQuery {
    /// Unique query identifier.
    pub id: String,
    /// User who sent the query.
    pub from: User,
    /// Three-letter ISO 4217 currency code.
    pub currency: String,
    /// Total price in the smallest units of the currency.
    pub total_amount: Integer,
    /// Invoice payload specified by the bot.
    pub invoice_payload: String,
    /// Identifier of the shipping option chosen by the user.
    pub shipping_option_id: Option<String>,
    /// Order info provided by the user.
    pub order_info: Option<OrderInfo>,
}

/// A shipping address.
#[derive(Debug, Clone, PartialEq, Eq)]
pub struct ShippingAddress {
    /// ISO 3166-1 alpha-2 country code.
    pub country_code: String,
    /// State, if applicable.
    pub state: String,
    /// City.
    pub city: String,
    /// First line of the address.
    pub street_line1: String,
    /// Second line of the address.
    pub street_line2: String,
    /// Address post code.
    pub post_code: String,
}

/// One shipping option.
#[derive(Debug, Clone, PartialEq, Eq)]
pub struct ShippingOption {
    /// Shipping option identifier.
    pub id: String,
    /// Option title.
    pub title: String,
    /// Price portions.
    pub prices: Vec<LabeledPrice>,
}

/// An incoming shipping query.
#[derive(Debug, Clone, PartialEq, Eq)]
pub struct ShippingQuery {
    /// Unique query identifier.
    pub id: String,
    /// User who sent the query.
    pub from: User,
    /// Invoice payload specified by the bot.
    pub invoice_payload: String,
    /// Shipping address specified by the user.
    pub shipping_address: ShippingAddress,
}

/// Basic information about a successful payment.
#[derive(Debug, Clone, PartialEq, Eq)]
pub struct SuccessfulPayment {
    /// Three-letter ISO 4217 currency code.
    pub currency: String,
    /// Total price in the smallest units of the currency.
    pub total_amount: Integer,
    /// Invoice payload specified by the bot.
    pub invoice_payload: String,
    /// Identifier of the shipping option chosen by the user.
    pub shipping_option_id: Option<String>,
    /// Order info provided by the user.
    pub order_info: Option<OrderInfo>,
    /// Payment identifier of the remote API.
    pub telegram_payment_charge_id: String,
    /// Payment identifier of the provider.
    pub provider_payment_charge_id: String,
}

} // verus!
