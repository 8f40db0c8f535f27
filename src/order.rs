use vstd::prelude::*;

verus! {

/// An order placed by a broker on behalf of a client.
#[derive(Debug)]
pub struct Order {
    pub stock_name: String,
    pub order_type: String,
    pub quantity: i32,
    pub price: i32,
    pub prev_price: i32,
    pub reason: String,
    pub order_category: String,
}

impl Order {
    pub fn new(
        stock_name: String,
        order_type: String,
        quantity: i32,
        price: i32,
        prev_price: i32,
        reason: String,
        order_category: String,
    ) -> (r: Self)
        ensures
            r.stock_name == stock_name,
            r.order_type == order_type,
            r.quantity == quantity,
            r.price == price,
            r.prev_price == prev_price,
            r.reason == reason,
            r.order_category == order_category,
    {
        Order { stock_name, order_type, quantity, price, prev_price, reason, order_category }
    }
}

pub open spec fn digit_char(d: nat) -> char {
    ((d % 10) + ('0' as nat)) as char
}

/// The decimal digits of a natural number, most significant first.
pub open spec fn digits(n: nat) -> Seq<char>
    decreases n,
{
    if n < 10 {
        seq![digit_char(n)]
    } else {
        digits(n / 10).push(digit_char(n % 10))
    }
}

/// An integer written in decimal, with a leading `-` when negative.
pub open spec fn decimal(n: int) -> Seq<char> {
    if n < 0 {
        seq!['-'] + digits((-n) as nat)
    } else {
        digits(n as nat)
    }
}

/// Relies on std's `Display` for `i32` (through `format!`): the value in decimal, after
/// the given text.
#[verifier::external_body]
pub(crate) fn text_with_value(prefix: &str, value: i32) -> (r: String)
    ensures
        r@ == prefix@ + decimal(value as int),
{
    format!("{}{}", prefix, value)
}

} // verus!
