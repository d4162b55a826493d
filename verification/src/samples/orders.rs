//! Orders and their totals.

use vstd::prelude::*;

verus! {

/// The most items a total counts.
pub const MAX_ITEMS: usize = 10;

/// The version whose length a total adds.
pub const VERSION: &'static str = "1.0";

/// An order: the prices of its items.
pub struct Order {
    pub items: Vec<u32>,
}

/// The sum of `s`.
pub open spec fn sum_of(s: Seq<u32>) -> int
    decreases s.len(),
{
    if s.len() == 0 {
        0
    } else {
        sum_of(s.drop_last()) + s.last()
    }
}

/// The sum of at most the first `MAX_ITEMS` prices.
pub open spec fn counted_sum(prices: Seq<u32>) -> int {
    if prices.len() <= MAX_ITEMS {
        sum_of(prices)
    } else {
        sum_of(prices.take(MAX_ITEMS as int))
    }
}

/// The total of an order: its first `MAX_ITEMS` prices, the tax, and the
/// length of the version text.
pub fn order_total(prices: &[u32], tax: u32) -> (r: u32)
    requires
        counted_sum(prices@) + tax + 3 <= u32::MAX,
    ensures
        r == counted_sum(prices@) + tax + 3,
{
    let n = if prices.len() < MAX_ITEMS { prices.len() } else { MAX_ITEMS };
    let ghost counted = prices@.take(n as int);
    assert(counted_sum(prices@) == sum_of(counted)) by {
        if prices@.len() <= MAX_ITEMS {
            assert(counted =~= prices@);
        }
    }
    let mut base: u32 = 0;
    let mut i: usize = 0;
    while i < n
        invariant
            n <= prices@.len(),
            i <= n,
            counted == prices@.take(n as int),
            sum_of(counted) + tax + 3 <= u32::MAX,
            base == sum_of(counted.take(i as int)),
        decreases n - i,
    {
        assert(counted.take(i + 1).drop_last() =~= counted.take(i as int));
        proof {
            lemma_sum_prefix(counted, i + 1);
        }
        base = base + prices[i];
        i = i + 1;
    }
    assert(counted.take(n as int) =~= counted);
    proof {
        reveal_strlit("1.0");
        vstd::string::is_ascii_spec_bytes(VERSION);
    }
    let version_len = VERSION.len();
    assert(version_len == 3);
    base + tax + version_len as u32
}

/// A prefix sums to no more than the whole.
proof fn lemma_sum_prefix(s: Seq<u32>, k: int)
    requires
        0 <= k <= s.len(),
    ensures
        sum_of(s.take(k)) <= sum_of(s),
    decreases s.len() - k,
{
    if k < s.len() {
        lemma_sum_prefix(s, k + 1);
        assert(s.take(k + 1).drop_last() =~= s.take(k));
    } else {
        assert(s.take(k) =~= s);
    }
}

/// Adds an item to an order.
pub fn add_item(order: &mut Order, item: u32)
    ensures
        final(order).items@ == old(order).items@.push(item),
{
    order.items.push(item);
}

impl Order {
    /// How many items the order has.
    pub fn count(&self) -> (r: usize)
        ensures
            r == self.items@.len(),
    {
        self.items.len()
    }

    /// Removes every item.
    pub fn clear(&mut self)
        ensures
            final(self).items@ == Seq::<u32>::empty(),
    {
        self.items.clear();
    }
}

} // verus!
