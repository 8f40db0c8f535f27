use vstd::prelude::*;
use crate::stock::Stock;
use crate::draw::uniform_inclusive;

verus! {

/// The smallest change of an instrument's value in one tick.
pub const DELTA_MIN: i32 = -40;

/// The largest change of an instrument's value in one tick.
pub const DELTA_MAX: i32 = 60;

#[verifier::external_type_specification]
#[verifier::external_body]
#[verifier::reject_recursive_types(T)]
pub struct ExSender<T>(crossbeam_channel::Sender<T>);

/// Relies on crossbeam_channel's `Sender::send`: it hands the value to the channel and
/// fails only once every receiver is gone.
#[verifier::external_body]
fn publish(sender: &crossbeam_channel::Sender<Stock>, s: Stock) -> (delivered: bool) {
    sender.send(s).is_ok()
}

/// A value that a tick can move by any delta of `[DELTA_MIN, DELTA_MAX]` without overflow.
pub open spec fn tickable(s: Stock) -> bool {
    i32::MIN - DELTA_MIN <= s.v <= i32::MAX - DELTA_MAX
}

/// `after` is `before` moved by `delta` in one tick.
pub open spec fn moved_by(before: Stock, after: Stock, delta: int) -> bool {
    &&& after.name@ == before.name@
    &&& after.prev_v == before.v
    &&& after.v == before.v + delta
}

/// `after` is `before` after one tick: the old value saved, the new one within the bounds.
pub open spec fn ticked(before: Stock, after: Stock) -> bool {
    &&& after.name@ == before.name@
    &&& after.prev_v == before.v
    &&& DELTA_MIN <= after.v - after.prev_v <= DELTA_MAX
}

impl Stock {
    /// A copy of the instrument, as handed to the channel.
    pub fn snapshot(&self) -> (r: Stock)
        ensures
            r.name@ == self.name@,
            r.v == self.v,
            r.prev_v == self.prev_v,
    {
        Stock { name: self.name.clone(), v: self.v, prev_v: self.prev_v }
    }

    /// Saves the current value as the previous one and moves the current one by `delta`.
    pub fn apply_delta(&mut self, delta: i32)
        requires
            DELTA_MIN <= delta <= DELTA_MAX,
            tickable(*old(self)),
        ensures
            moved_by(*old(self), *final(self), delta as int),
    {
        self.prev_v = self.v;
        self.v = self.v + delta;
    }
}

/// Whether every instrument can take one more tick without overflow.
pub fn all_tickable(stocks: &Vec<Stock>) -> (r: bool)
    ensures
        r == forall|i: int| 0 <= i < stocks@.len() ==> tickable(#[trigger] stocks@[i]),
{
    let mut k: usize = 0;
    while k < stocks.len()
        invariant
            0 <= k <= stocks@.len(),
            forall|i: int| 0 <= i < k ==> tickable(#[trigger] stocks@[i]),
        decreases stocks@.len() - k,
    {
        if stocks[k].v < i32::MIN - DELTA_MIN || stocks[k].v > i32::MAX - DELTA_MAX {
            assert(!tickable(stocks@[k as int]));
            return false;
        }
        k += 1;
    }
    true
}

/// One tick with given deltas: every instrument moves by its own delta.
pub fn apply_tick(stocks: &mut Vec<Stock>, deltas: &Vec<i32>)
    requires
        deltas@.len() == old(stocks)@.len(),
        forall|i: int| 0 <= i < deltas@.len() ==> DELTA_MIN <= #[trigger] deltas@[i] <= DELTA_MAX,
        forall|i: int| 0 <= i < old(stocks)@.len() ==> tickable(#[trigger] old(stocks)@[i]),
    ensures
        final(stocks)@.len() == old(stocks)@.len(),
        forall|i: int|
            0 <= i < old(stocks)@.len() ==> moved_by(
                #[trigger] old(stocks)@[i],
                final(stocks)@[i],
                deltas@[i] as int,
            ),
{
    let n = stocks.len();
    let mut k: usize = 0;
    while k < n
        invariant
            n == stocks@.len(),
            n == old(stocks)@.len(),
            n == deltas@.len(),
            0 <= k <= n,
            forall|i: int| 0 <= i < deltas@.len() ==> DELTA_MIN <= #[trigger] deltas@[i] <= DELTA_MAX,
            forall|i: int| k <= i < n ==> stocks@[i] == old(stocks)@[i],
            forall|i: int| 0 <= i < n ==> tickable(#[trigger] old(stocks)@[i]),
            forall|i: int|
                0 <= i < k ==> moved_by(#[trigger] old(stocks)@[i], stocks@[i], deltas@[i] as int),
        decreases n - k,
    {
        let mut s = stocks[k].snapshot();
        s.apply_delta(deltas[k]);
        stocks.set(k, s);
        k += 1;
    }
}

/// Hands each instrument of `stocks` to the channel in order, until the channel refuses
/// one. Returns how many were handed over.
pub fn publish_all(stocks: &Vec<Stock>, sender: &crossbeam_channel::Sender<Stock>) -> (published: usize)
    ensures
        published <= stocks@.len(),
{
    let mut k: usize = 0;
    while k < stocks.len()
        invariant
            0 <= k <= stocks@.len(),
        decreases stocks@.len() - k,
    {
        if !publish(sender, stocks[k].snapshot()) {
            return k;
        }
        k += 1;
    }
    k
}

/// One tick of the price generator: a delta drawn from `[DELTA_MIN, DELTA_MAX]` for each
/// instrument, the whole registry moved by them, then every updated instrument published in
/// registry order until the channel refuses one. Returns how many were published.
pub fn update_all(stocks: &mut Vec<Stock>, sender: &crossbeam_channel::Sender<Stock>) -> (published: usize)
    requires
        forall|i: int| 0 <= i < old(stocks)@.len() ==> tickable(#[trigger] old(stocks)@[i]),
    ensures
        final(stocks)@.len() == old(stocks)@.len(),
        forall|i: int| 0 <= i < old(stocks)@.len() ==> ticked(#[trigger] old(stocks)@[i], final(stocks)@[i]),
        published <= final(stocks)@.len(),
{
    let n = stocks.len();
    let mut deltas: Vec<i32> = Vec::new();
    while deltas.len() < n
        invariant
            deltas@.len() <= n,
            forall|i: int| 0 <= i < deltas@.len() ==> DELTA_MIN <= #[trigger] deltas@[i] <= DELTA_MAX,
        decreases n - deltas@.len(),
    {
        deltas.push(uniform_inclusive(DELTA_MIN, DELTA_MAX));
    }
    apply_tick(stocks, &deltas);
    publish_all(stocks, sender)
}

} // verus!
