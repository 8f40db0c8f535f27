use stock_market::broker::{QUANTITY_MAX, QUANTITY_MIN};
use stock_market::{Broker, ClientPreference, Order, OrderCategory, Side, Stock, StockType};

fn stock(name: &str, v: i32, prev_v: i32) -> Stock {
    Stock { name: name.to_string(), v, prev_v }
}

fn client(name: &str, sector: StockType, category: OrderCategory, buy: i32, sell: i32) -> ClientPreference {
    ClientPreference {
        client: name.to_string(),
        sector,
        category,
        min_change_buy: buy,
        min_change_sell: sell,
    }
}

fn market_tech(name: &str) -> ClientPreference {
    client(name, StockType::Tech, OrderCategory::Market, 0, 0)
}

fn limit_food(name: &str) -> ClientPreference {
    client(name, StockType::Food, OrderCategory::Limit, 25, 40)
}

#[test]
fn order_new_keeps_fields() {
    let o = Order::new(
        "AMZN".to_string(),
        "buying".to_string(),
        42,
        180,
        200,
        "why".to_string(),
        "Market".to_string(),
    );
    assert_eq!(o.stock_name, "AMZN");
    assert_eq!(o.order_type, "buying");
    assert_eq!((o.quantity, o.price, o.prev_price), (42, 180, 200));
    assert_eq!(o.reason, "why");
    assert_eq!(o.order_category, "Market");
}

#[test]
fn category_names() {
    assert_eq!(OrderCategory::Market.name(), "Market");
    assert_eq!(OrderCategory::Limit.name(), "Limit");
}

#[test]
fn market_client_trades_on_any_move_in_sector() {
    let p = market_tech("John");
    assert_eq!(p.decide(&stock("AMZN", 199, 200)), Some(Side::Buy));
    assert_eq!(p.decide(&stock("AMZN", 201, 200)), Some(Side::Sell));
    assert_eq!(p.decide(&stock("AMZN", 260, 200)), Some(Side::Sell));
    assert_eq!(p.decide(&stock("AMZN", 160, 200)), Some(Side::Buy));
    assert_eq!(p.decide(&stock("AMZN", 200, 200)), None);
}

#[test]
fn client_ignores_other_sectors() {
    let p = market_tech("John");
    assert_eq!(p.decide(&stock("KO", 100, 200)), None);
    assert_eq!(p.decide(&stock("NOW", 100, 200)), None);
}

#[test]
fn limit_client_skips_inside_open_interval() {
    let p = limit_food("James");
    assert_eq!(p.decide(&stock("KO", 110, 100)), None);
    assert_eq!(p.decide(&stock("KO", 76, 100)), None);
    assert_eq!(p.decide(&stock("KO", 139, 100)), None);
}

#[test]
fn limit_client_trades_at_the_bounds() {
    let p = limit_food("James");
    assert_eq!(p.decide(&stock("KO", 75, 100)), Some(Side::Buy));
    assert_eq!(p.decide(&stock("KO", 140, 100)), Some(Side::Sell));
    assert_eq!(p.decide(&stock("KO", 40, 100)), Some(Side::Buy));
    assert_eq!(p.decide(&stock("KO", 160, 100)), Some(Side::Sell));
}

#[test]
fn limit_client_scenario_through_broker() {
    let mut b = Broker::new("Broker 2".to_string(), vec![limit_food("James")], 10);
    let orders = b.process_update_with(&stock("KO", 110, 100), &vec![50]);
    assert!(orders[0].is_none());
    assert_eq!(b.counts[0], 0);
    let orders = b.process_update_with(&stock("KO", 75, 100), &vec![50]);
    assert_eq!(orders[0].as_ref().unwrap().order_type, "buying");
    let orders = b.process_update_with(&stock("KO", 140, 100), &vec![20]);
    assert_eq!(orders[0].as_ref().unwrap().order_type, "selling");
    assert_eq!(b.counts[0], 2);
    assert_eq!(b.earnings[0], Some(800));
}

#[test]
fn single_buy_fills_quota() {
    let mut b = Broker::new("Broker 1".to_string(), vec![market_tech("John")], 1);
    assert!(b.has_pending());
    let orders = b.process_update(&stock("AMZN", 180, 200));
    let o = orders[0].as_ref().unwrap();
    assert_eq!(o.order_type, "buying");
    assert_eq!(o.stock_name, "AMZN");
    assert_eq!((o.price, o.prev_price), (180, 200));
    assert!(QUANTITY_MIN <= o.quantity && o.quantity <= QUANTITY_MAX);
    assert_eq!(o.reason, "Executed a buy due to price decrease to 180");
    assert_eq!(o.order_category, "Market");
    assert_eq!(b.counts[0], 1);
    assert!(!b.has_pending());
    assert_eq!(b.earnings[0], None);
    assert!(b.earnings_report().is_empty());
}

#[test]
fn single_sell_earns_quantity_times_change() {
    let mut b = Broker::new("Broker 1".to_string(), vec![market_tech("John")], 1);
    let orders = b.process_update_with(&stock("AMZN", 230, 200), &vec![50]);
    let o = orders[0].as_ref().unwrap();
    assert_eq!(o.order_type, "selling");
    assert_eq!(o.quantity, 50);
    assert_eq!(o.reason, "Executed a sell due to price increase to 230");
    assert_eq!(b.counts[0], 1);
    assert_eq!(b.earnings[0], Some(1500));
    assert_eq!(b.earnings_report(), vec![("John".to_string(), 1500)]);
    assert!(!b.has_pending());
}

#[test]
fn reason_with_negative_price() {
    let p = market_tech("John");
    let o = p.make_order(&stock("AMZN", -5, 20), Side::Buy, 10);
    assert_eq!(o.reason, "Executed a buy due to price decrease to -5");
}

#[test]
fn client_at_quota_places_no_more_orders() {
    let mut b = Broker::new(
        "Broker 3".to_string(),
        vec![market_tech("Mike"), client("Alex", StockType::Healthcare, OrderCategory::Limit, 10, 30)],
        2,
    );
    for _ in 0..5 {
        b.process_update_with(&stock("AMZN", 250, 200), &vec![10, 10]);
    }
    assert_eq!(b.counts[0], 2);
    assert_eq!(b.counts[1], 0);
    assert_eq!(b.earnings[0], Some(1000));
    assert!(b.has_pending());
    b.process_update_with(&stock("MRK", 100, 150), &vec![10, 10]);
    b.process_update_with(&stock("MRK", 160, 100), &vec![10, 30]);
    assert_eq!(b.counts[1], 2);
    assert_eq!(b.earnings[1], Some(1800));
    assert!(!b.has_pending());
    let orders = b.process_update_with(&stock("MRK", 300, 100), &vec![10, 10]);
    assert!(orders.iter().all(|o| o.is_none()));
    assert_eq!(
        b.earnings_report(),
        vec![("Mike".to_string(), 1000), ("Alex".to_string(), 1800)]
    );
}

#[test]
fn counts_never_decrease_nor_exceed_limit() {
    let mut b = Broker::new(
        "Broker 1".to_string(),
        vec![market_tech("John"), market_tech("Peter"), limit_food("James")],
        3,
    );
    let updates = [
        stock("AMZN", 180, 200),
        stock("KO", 300, 250),
        stock("TSLA", 300, 300),
        stock("FB", 400, 300),
        stock("KO", 200, 250),
        stock("MSFT", 100, 130),
        stock("KO", 250, 200),
        stock("INTC", 1, 2),
    ];
    let mut last: Vec<i32> = b.counts.clone();
    for s in updates.iter() {
        b.process_update(s);
        for i in 0..3 {
            assert!(b.counts[i] >= last[i]);
            assert!(b.counts[i] <= 3);
        }
        last = b.counts.clone();
    }
    assert_eq!(b.counts, vec![3, 3, 3]);
    assert!(!b.has_pending());
}

#[test]
fn zero_limit_has_nothing_pending() {
    let b = Broker::new("Broker 1".to_string(), vec![market_tech("John")], 0);
    assert!(!b.has_pending());
    let empty = Broker::new("Broker 4".to_string(), Vec::new(), 5);
    assert!(!empty.has_pending());
}

#[test]
fn room_for_sale_checks_headroom() {
    let mut b = Broker::new("Broker 1".to_string(), vec![market_tech("John")], 5);
    assert!(b.has_room_for_sale());
    b.earnings[0] = Some(i64::MAX - 10);
    assert!(!b.has_room_for_sale());
    b.earnings[0] = Some(5);
    assert!(b.has_room_for_sale());
}
