use vstd::prelude::*;
use crate::stock::{Stock, StockType, sector_of};
use crate::order::{Order, decimal, text_with_value};
use crate::draw::uniform_inclusive;

verus! {

/// How a client's orders are triggered.
#[derive(Debug, Clone, Copy, PartialEq, Eq, Structural, Hash)]
pub enum OrderCategory {
    /// Trades on any move of the price in the client's sector.
    Market,
    /// Trades only when the move crosses the client's thresholds.
    Limit,
}

/// The direction of an order.
#[derive(Debug, Clone, Copy, PartialEq, Eq, Structural, Hash)]
pub enum Side {
    Buy,
    Sell,
}

/// What one client of a broker wants traded.
#[derive(Debug, Clone)]
pub struct ClientPreference {
    pub client: String,
    pub sector: StockType,
    pub category: OrderCategory,
    pub min_change_buy: i32,
    pub min_change_sell: i32,
}

/// The smallest quantity of an order.
pub const QUANTITY_MIN: i32 = 10;

/// The largest quantity of an order.
pub const QUANTITY_MAX: i32 = 100;

/// Room kept below `i64::MAX` for one more sale; more than any `QUANTITY_MAX * change`.
pub const EARNINGS_HEADROOM: i64 = 1_000_000_000_000;

pub open spec fn price_change(s: Stock) -> int {
    s.v - s.prev_v
}

/// The client ignores this update: another sector, or a limit client whose thresholds
/// the move does not reach.
pub open spec fn skips(p: ClientPreference, s: Stock) -> bool {
    ||| sector_of(s.name@) != Some(p.sector)
    ||| (p.category == OrderCategory::Limit && -p.min_change_buy < price_change(s)
        < p.min_change_sell)
}

pub open spec fn buy_triggers(p: ClientPreference, s: Stock) -> bool {
    (p.category == OrderCategory::Market || price_change(s) <= -p.min_change_buy) && s.v
        < s.prev_v
}

pub open spec fn sell_triggers(p: ClientPreference, s: Stock) -> bool {
    (p.category == OrderCategory::Market || price_change(s) >= p.min_change_sell) && s.v
        > s.prev_v
}

/// The order, if any, that the rules give for this client and this update.
pub open spec fn side_for(p: ClientPreference, s: Stock) -> Option<Side> {
    if skips(p, s) {
        None
    } else if buy_triggers(p, s) {
        Some(Side::Buy)
    } else if sell_triggers(p, s) {
        Some(Side::Sell)
    } else {
        None
    }
}

pub open spec fn side_text(side: Side) -> Seq<char> {
    match side {
        Side::Buy => "buying"@,
        Side::Sell => "selling"@,
    }
}

pub open spec fn category_text(c: OrderCategory) -> Seq<char> {
    match c {
        OrderCategory::Market => "Market"@,
        OrderCategory::Limit => "Limit"@,
    }
}

pub open spec fn reason_text(side: Side, price: int) -> Seq<char> {
    match side {
        Side::Buy => "Executed a buy due to price decrease to "@ + decimal(price),
        Side::Sell => "Executed a sell due to price increase to "@ + decimal(price),
    }
}

/// `o` is the order of `side` and `quantity` for client `p` on update `s`.
pub open spec fn is_order(o: Order, p: ClientPreference, s: Stock, side: Side, quantity: int) -> bool {
    &&& o.stock_name@ == s.name@
    &&& o.order_type@ == side_text(side)
    &&& o.quantity == quantity
    &&& o.price == s.v
    &&& o.prev_price == s.prev_v
    &&& o.reason@ == reason_text(side, s.v as int)
    &&& o.order_category@ == category_text(p.category)
}

impl OrderCategory {
    pub fn name(&self) -> (r: String)
        ensures
            r@ == category_text(*self),
    {
        match self {
            OrderCategory::Market => "Market".to_owned(),
            OrderCategory::Limit => "Limit".to_owned(),
        }
    }
}

impl ClientPreference {
    /// The side on which this client trades on update `s`, if any.
    pub fn decide(&self, s: &Stock) -> (r: Option<Side>)
        ensures
            r == side_for(*self, *s),
    {
        let change: i64 = s.v as i64 - s.prev_v as i64;
        let market = self.category == OrderCategory::Market;
        let in_sector = match s.classify() {
            Some(t) => t == self.sector,
            None => false,
        };
        if !in_sector || (!market && -(self.min_change_buy as i64) < change && change
            < self.min_change_sell as i64) {
            None
        } else if (market || change <= -(self.min_change_buy as i64)) && s.v < s.prev_v {
            Some(Side::Buy)
        } else if (market || change >= self.min_change_sell as i64) && s.v > s.prev_v {
            Some(Side::Sell)
        } else {
            None
        }
    }

    /// The order of `side` and `quantity` that this client places on update `s`.
    pub fn make_order(&self, s: &Stock, side: Side, quantity: i32) -> (o: Order)
        ensures
            is_order(o, *self, *s, side, quantity as int),
    {
        let (order_type, reason) = match side {
            Side::Buy => (
                "buying".to_owned(),
                text_with_value("Executed a buy due to price decrease to ", s.v),
            ),
            Side::Sell => (
                "selling".to_owned(),
                text_with_value("Executed a sell due to price increase to ", s.v),
            ),
        };
        Order::new(s.name.clone(), order_type, quantity, s.v, s.prev_v, reason, self.category.name())
    }
}

/// One broker worker's roster and its own bookkeeping: per client, the number of
/// transactions made and the earnings from sales (`None` until the first sale).
pub struct Broker {
    pub name: String,
    pub clients: Vec<ClientPreference>,
    pub transaction_limit: i32,
    pub counts: Vec<i32>,
    pub earnings: Vec<Option<i64>>,
}

/// What client `i` does on update `s`: nothing once its quota is reached.
pub open spec fn trade_of(b: Broker, i: int, s: Stock) -> Option<Side> {
    if b.counts@[i] < b.transaction_limit {
        side_for(b.clients@[i], s)
    } else {
        None
    }
}

/// The earnings after a trade of `side` and `quantity` on update `s`.
pub open spec fn earned(before: Option<i64>, side: Option<Side>, s: Stock, quantity: int) -> Option<i64> {
    if side == Some(Side::Sell) {
        Some(
            (match before {
                Some(e) => e as int,
                None => 0,
            } + quantity * price_change(s)) as i64,
        )
    } else {
        before
    }
}

/// Client `i` of `after` is client `i` of `before` after update `s`, with `quantity` drawn
/// for it, and `order` is the order it placed, if any.
pub open spec fn client_stepped(before: Broker, after: Broker, i: int, s: Stock, quantity: int, order: Option<Order>) -> bool {
    let side = trade_of(before, i, s);
    &&& after.counts@[i] == before.counts@[i] + (if side is Some { 1int } else { 0int })
    &&& after.earnings@[i] == earned(before.earnings@[i], side, s, quantity)
    &&& match side {
        None => order is None,
        Some(sd) => order matches Some(o) && is_order(o, before.clients@[i], s, sd, quantity),
    }
}

/// `after` is `before` after update `s`, with `quantities[i]` drawn for client `i`, and
/// `orders[i]` is the order that client `i` placed, if any.
pub open spec fn stepped(before: Broker, after: Broker, s: Stock, quantities: Seq<i32>, orders: Seq<Option<Order>>) -> bool {
    &&& after.name@ == before.name@
    &&& after.clients@ == before.clients@
    &&& after.transaction_limit == before.transaction_limit
    &&& after.counts@.len() == before.counts@.len()
    &&& after.earnings@.len() == before.earnings@.len()
    &&& orders.len() == before.clients@.len()
    &&& forall|i: int|
        0 <= i < before.clients@.len() ==> #[trigger] client_stepped(
            before,
            after,
            i,
            s,
            quantities[i] as int,
            orders[i],
        )
}

/// The earnings of the clients that have sold, in roster order, by client name.
pub open spec fn report_of(clients: Seq<ClientPreference>, earnings: Seq<Option<i64>>) -> Seq<(Seq<char>, i64)>
    decreases clients.len(),
{
    if clients.len() == 0 || earnings.len() != clients.len() {
        seq![]
    } else {
        let rest = report_of(clients.drop_last(), earnings.drop_last());
        match earnings.last() {
            Some(e) => rest.push((clients.last().client@, e)),
            None => rest,
        }
    }
}

impl Broker {
    /// One count and one earnings entry per client; counts never negative nor above the
    /// limit (taken as zero when negative); earnings never negative.
    pub open spec fn wf(&self) -> bool {
        &&& self.counts@.len() == self.clients@.len()
        &&& self.earnings@.len() == self.clients@.len()
        &&& forall|i: int| 0 <= i < self.counts@.len() ==> 0 <= #[trigger] self.counts@[i]
        &&& forall|i: int|
            0 <= i < self.counts@.len() ==> #[trigger] self.counts@[i] <= self.transaction_limit
                || self.counts@[i] == 0
        &&& forall|i: int|
            0 <= i < self.earnings@.len() ==> (#[trigger] self.earnings@[i] matches Some(e) ==> 0 <= e)
    }

    /// Every client's earnings leave room for one more sale.
    pub open spec fn has_room(&self) -> bool {
        forall|i: int|
            0 <= i < self.earnings@.len() ==> (#[trigger] self.earnings@[i] matches Some(e) ==> e
                <= i64::MAX - EARNINGS_HEADROOM)
    }

    /// Some client is still below the quota.
    pub open spec fn pending(&self) -> bool {
        exists|i: int| 0 <= i < self.counts@.len() && #[trigger] self.counts@[i] < self.transaction_limit
    }

    /// A broker with no transaction and no earnings yet.
    pub fn new(name: String, clients: Vec<ClientPreference>, transaction_limit: i32) -> (r: Broker)
        ensures
            r.wf(),
            r.name@ == name@,
            r.clients@ == clients@,
            r.transaction_limit == transaction_limit,
            forall|i: int| 0 <= i < r.counts@.len() ==> #[trigger] r.counts@[i] == 0,
            forall|i: int| 0 <= i < r.earnings@.len() ==> #[trigger] r.earnings@[i] is None,
    {
        let n = clients.len();
        let mut counts: Vec<i32> = Vec::new();
        let mut earnings: Vec<Option<i64>> = Vec::new();
        while counts.len() < n
            invariant
                counts@.len() <= n,
                earnings@.len() == counts@.len(),
                forall|i: int| 0 <= i < counts@.len() ==> #[trigger] counts@[i] == 0,
                forall|i: int| 0 <= i < earnings@.len() ==> #[trigger] earnings@[i] is None,
            decreases n - counts@.len(),
        {
            counts.push(0);
            earnings.push(None);
        }
        Broker { name, clients, transaction_limit, counts, earnings }
    }

    /// Whether some client is still below the quota: the worker's loop condition.
    pub fn has_pending(&self) -> (r: bool)
        requires
            self.wf(),
        ensures
            r == self.pending(),
    {
        let mut k: usize = 0;
        while k < self.counts.len()
            invariant
                0 <= k <= self.counts@.len(),
                forall|i: int| 0 <= i < k ==> #[trigger] self.counts@[i] >= self.transaction_limit,
            decreases self.counts@.len() - k,
        {
            if self.counts[k] < self.transaction_limit {
                return true;
            }
            k += 1;
        }
        false
    }

    /// Whether every client's earnings leave room for one more sale.
    pub fn has_room_for_sale(&self) -> (r: bool)
        requires
            self.wf(),
        ensures
            r == self.has_room(),
    {
        let mut k: usize = 0;
        while k < self.earnings.len()
            invariant
                0 <= k <= self.earnings@.len(),
                forall|i: int|
                    0 <= i < k ==> (#[trigger] self.earnings@[i] matches Some(e) ==> e <= i64::MAX
                        - EARNINGS_HEADROOM),
            decreases self.earnings@.len() - k,
        {
            match self.earnings[k] {
                Some(e) => {
                    if e > i64::MAX - EARNINGS_HEADROOM {
                        return false;
                    }
                },
                None => {},
            }
            k += 1;
        }
        true
    }

    /// Evaluates every client's rules on update `s`, with `quantities[i]` as the quantity of
    /// client `i`'s order: a client below its quota whose rules trigger places one order,
    /// which counts one transaction and, for a sale, adds `quantity * price change` to its
    /// earnings. Returns, per client, the order it placed.
    pub fn process_update_with(&mut self, s: &Stock, quantities: &Vec<i32>) -> (orders: Vec<Option<Order>>)
        requires
            old(self).wf(),
            old(self).has_room(),
            quantities@.len() == old(self).clients@.len(),
            forall|i: int|
                0 <= i < quantities@.len() ==> QUANTITY_MIN <= #[trigger] quantities@[i] <= QUANTITY_MAX,
        ensures
            final(self).wf(),
            stepped(*old(self), *final(self), *s, quantities@, orders@),
    {
        let n = self.clients.len();
        let mut orders: Vec<Option<Order>> = Vec::new();
        let mut k: usize = 0;
        while k < n
            invariant
                n == old(self).clients@.len(),
                0 <= k <= n,
                orders@.len() == k,
                quantities@.len() == n,
                forall|i: int|
                    0 <= i < quantities@.len() ==> QUANTITY_MIN <= #[trigger] quantities@[i] <= QUANTITY_MAX,
                old(self).wf(),
                old(self).has_room(),
                self.wf(),
                self.name@ == old(self).name@,
                self.clients@ == old(self).clients@,
                self.transaction_limit == old(self).transaction_limit,
                forall|i: int| k <= i < n ==> #[trigger] self.counts@[i] == old(self).counts@[i],
                forall|i: int| k <= i < n ==> #[trigger] self.earnings@[i] == old(self).earnings@[i],
                forall|i: int|
                    0 <= i < k ==> #[trigger] client_stepped(
                        *old(self),
                        *self,
                        i,
                        *s,
                        quantities@[i] as int,
                        orders@[i],
                    ),
            decreases n - k,
        {
            let ghost prev = *self;
            let ghost prev_orders = orders@;
            let count = self.counts[k];
            let side = if count < self.transaction_limit {
                self.clients[k].decide(s)
            } else {
                None
            };
            match side {
                None => {
                    orders.push(None);
                },
                Some(sd) => {
                    let quantity = quantities[k];
                    let order = self.clients[k].make_order(s, sd, quantity);
                    if sd == Side::Sell {
                        let change: i64 = s.v as i64 - s.prev_v as i64;
                        assert(0 < change <= 0x1_0000_0000);
                        assert(quantity * change <= 100 * 0x1_0000_0000) by (nonlinear_arith)
                            requires
                                0 < change <= 0x1_0000_0000,
                                10 <= quantity <= 100,
                        ;
                        assert(0 <= quantity * change) by (nonlinear_arith)
                            requires
                                0 < change,
                                10 <= quantity,
                        ;
                        let before: i64 = match self.earnings[k] {
                            Some(e) => e,
                            None => 0,
                        };
                        self.earnings.set(k, Some(before + quantity as i64 * change));
                    }
                    self.counts.set(k, count + 1);
                    orders.push(Some(order));
                },
            }
            assert forall|i: int| 0 <= i < k + 1 implies #[trigger] client_stepped(
                *old(self),
                *self,
                i,
                *s,
                quantities@[i] as int,
                orders@[i],
            ) by {
                if i < k {
                    assert(client_stepped(*old(self), prev, i, *s, quantities@[i] as int, prev_orders[i]));
                }
            }
            k += 1;
        }
        orders
    }

    /// Evaluates every client's rules on update `s`, as `process_update_with` does, with
    /// each order's quantity drawn from `[QUANTITY_MIN, QUANTITY_MAX]`.
    pub fn process_update(&mut self, s: &Stock) -> (orders: Vec<Option<Order>>)
        requires
            old(self).wf(),
            old(self).has_room(),
        ensures
            final(self).wf(),
            exists|quantities: Seq<i32>|
                quantities.len() == old(self).clients@.len() && (forall|i: int|
                    0 <= i < quantities.len() ==> QUANTITY_MIN <= #[trigger] quantities[i]
                        <= QUANTITY_MAX) && stepped(*old(self), *final(self), *s, quantities, orders@),
    {
        let n = self.clients.len();
        let mut quantities: Vec<i32> = Vec::new();
        while quantities.len() < n
            invariant
                quantities@.len() <= n,
                forall|i: int|
                    0 <= i < quantities@.len() ==> QUANTITY_MIN <= #[trigger] quantities@[i] <= QUANTITY_MAX,
            decreases n - quantities@.len(),
        {
            quantities.push(uniform_inclusive(QUANTITY_MIN, QUANTITY_MAX));
        }
        let orders = self.process_update_with(s, &quantities);
        assert(stepped(*old(self), *self, *s, quantities@, orders@));
        orders
    }

    /// The earnings of every client that has sold, in roster order, by client name.
    pub fn earnings_report(&self) -> (r: Vec<(String, i64)>)
        requires
            self.wf(),
        ensures
            r@.map_values(|e: (String, i64)| (e.0@, e.1)) == report_of(self.clients@, self.earnings@),
    {
        let mut r: Vec<(String, i64)> = Vec::new();
        let mut k: usize = 0;
        while k < self.clients.len()
            invariant
                self.wf(),
                0 <= k <= self.clients@.len(),
                r@.map_values(|e: (String, i64)| (e.0@, e.1)) == report_of(
                    self.clients@.take(k as int),
                    self.earnings@.take(k as int),
                ),
            decreases self.clients@.len() - k,
        {
            assert(self.clients@.take(k + 1).drop_last() =~= self.clients@.take(k as int));
            assert(self.earnings@.take(k + 1).drop_last() =~= self.earnings@.take(k as int));
            match self.earnings[k] {
                Some(e) => {
                    r.push((self.clients[k].client.clone(), e));
                },
                None => {},
            }
            assert(r@.map_values(|e: (String, i64)| (e.0@, e.1)) =~= report_of(
                self.clients@.take(k + 1),
                self.earnings@.take(k + 1),
            ));
            k += 1;
        }
        assert(self.clients@.take(k as int) =~= self.clients@);
        assert(self.earnings@.take(k as int) =~= self.earnings@);
        r
    }
}


/// A broker's transaction counts never go down, and with a non-negative limit one update
/// never takes a count above the limit.
pub proof fn lemma_counts_monotone_and_bounded(
    before: Broker,
    after: Broker,
    s: Stock,
    quantities: Seq<i32>,
    orders: Seq<Option<Order>>,
)
    requires
        before.wf(),
        before.transaction_limit >= 0,
        stepped(before, after, s, quantities, orders),
    ensures
        forall|i: int|
            0 <= i < before.counts@.len() ==> before.counts@[i] <= #[trigger] after.counts@[i]
                <= after.transaction_limit,
{
    assert forall|i: int| 0 <= i < before.counts@.len() implies before.counts@[i]
        <= #[trigger] after.counts@[i] <= after.transaction_limit by {
        assert(client_stepped(before, after, i, s, quantities[i] as int, orders[i]));
    }
}

/// A market client below its quota trades on every update of its sector whatever the size
/// of the move: it buys on a fall, sells on a rise, and only an unchanged price places no
/// order.
pub proof fn lemma_market_client_always_eligible(b: Broker, i: int, s: Stock)
    requires
        b.wf(),
        0 <= i < b.clients@.len(),
        b.clients@[i].category == OrderCategory::Market,
        sector_of(s.name@) == Some(b.clients@[i].sector),
        b.counts@[i] < b.transaction_limit,
    ensures
        !skips(b.clients@[i], s),
        s.v < s.prev_v ==> trade_of(b, i, s) == Some(Side::Buy),
        s.v > s.prev_v ==> trade_of(b, i, s) == Some(Side::Sell),
        s.v == s.prev_v ==> trade_of(b, i, s) is None,
{
}

/// A limit client of the update's sector is skipped exactly when the price change lies in
/// the open interval `(-min_change_buy, min_change_sell)`; at or past either bound it is
/// evaluated, and trades in the direction of the move.
pub proof fn lemma_limit_client_thresholds(p: ClientPreference, s: Stock)
    requires
        p.category == OrderCategory::Limit,
        p.min_change_buy >= 0,
        p.min_change_sell >= 0,
        sector_of(s.name@) == Some(p.sector),
    ensures
        skips(p, s) <==> -p.min_change_buy < price_change(s) < p.min_change_sell,
        price_change(s) <= -p.min_change_buy && s.v < s.prev_v ==> side_for(p, s) == Some(Side::Buy),
        price_change(s) >= p.min_change_sell && s.v > s.prev_v ==> side_for(p, s) == Some(Side::Sell),
        skips(p, s) ==> side_for(p, s) is None,
{
}

} // verus!
