use botline::types::payments::{
    Invoice, LabeledPrice, OrderInfo, PreCheckoutQuery, ShippingAddress, ShippingOption,
    ShippingQuery, SuccessfulPayment,
};
use botline::types::user::User;

fn user() -> User {
    User {
        id: 1,
        is_bot: false,
        first_name: String::from("test"),
        last_name: None,
        username: Some(String::from("username1")),
        language_code: None,
    }
}

fn address() -> ShippingAddress {
    ShippingAddress {
        country_code: String::from("RU"),
        state: String::from("Chechen Republic"),
        city: String::from("Gudermes"),
        street_line1: String::from("Nuradilov st., 12"),
        street_line2: String::new(),
        post_code: String::from("366200"),
    }
}

#[test]
fn payment_shapes_hold_their_fields() {
    let invoice = Invoice {
        title: String::from("invoice title"),
        description: String::from("invoice description"),
        start_parameter: String::from("invoice start parameter"),
        currency: String::from("RUB"),
        total_amount: 100,
    };
    assert_eq!(invoice.clone(), invoice);
    assert_eq!(invoice.total_amount, 100);

    let info = OrderInfo {
        name: Some(String::from("magticom")),
        phone_number: None,
        email: None,
        shipping_address: Some(address()),
    };
    let query = PreCheckoutQuery {
        id: String::from("query id"),
        from: user(),
        currency: String::from("GEL"),
        total_amount: 100,
        invoice_payload: String::from("invoice payload"),
        shipping_option_id: None,
        order_info: Some(info.clone()),
    };
    assert_eq!(query.order_info.as_ref().unwrap().shipping_address, Some(address()));

    let option = ShippingOption {
        id: String::from("id"),
        title: String::from("title"),
        prices: vec![LabeledPrice { label: String::from("price label"), amount: 145 }],
    };
    assert_eq!(option.prices[0].amount, 145);

    let shipping = ShippingQuery {
        id: String::from("query-id"),
        from: user(),
        invoice_payload: String::from("payload"),
        shipping_address: address(),
    };
    assert_eq!(shipping.from.id, 1);

    let paid = SuccessfulPayment {
        currency: String::from("RUB"),
        total_amount: 145,
        invoice_payload: String::from("invoice payload"),
        shipping_option_id: Some(String::from("option id")),
        order_info: Some(info),
        telegram_payment_charge_id: String::from("tg-charge-id"),
        provider_payment_charge_id: String::from("provider-charge-id"),
    };
    assert_eq!(paid.total_amount, 145);
    assert_ne!(paid.clone().currency, "USD");
}
