//! The price/inflation oracle: three read-mostly feeds (CPI by country, FX
//! rate by currency pair, price by asset), each a key-to-integer store that
//! reads as zero for an unset key.

use vstd::prelude::*;
use crate::LedgerError;

verus! {

/// The value a feed holds for key `k`: the most recently set entry wins, and
/// an unset key reads as zero.
pub open spec fn feed_find(entries: Seq<(String, i128)>, k: Seq<char>) -> Option<i128>
    decreases entries.len(),
{
    if entries.len() == 0 {
        None
    } else if entries[0].0@ == k {
        Some(entries[0].1)
    } else {
        feed_find(entries.skip(1), k)
    }
}

/// One feed: a list of key/value entries where the entry nearest the front
/// wins, so setting a key prepends.
pub struct Feed {
    entries: Vec<(String, i128)>,
}

/// Skipping entries that do not match the key leaves a lookup unchanged.
proof fn lemma_feed_find_skip(entries: Seq<(String, i128)>, k: Seq<char>, i: int)
    requires
        0 <= i <= entries.len(),
        forall|j: int| 0 <= j < i ==> (#[trigger] entries[j].0)@ != k,
    ensures
        feed_find(entries, k) == feed_find(entries.skip(i), k),
    decreases i,
{
    if i > 0 {
        assert(entries[0].0@ != k);
        assert forall|j: int| 0 <= j < i - 1 implies (#[trigger] entries.skip(1)[j].0)@ != k by {
            assert(entries.skip(1)[j] == entries[j + 1]);
            assert(entries[j + 1].0@ != k);
        }
        lemma_feed_find_skip(entries.skip(1), k, i - 1);
        assert(entries.skip(1).skip(i - 1) =~= entries.skip(i));
    } else {
        assert(entries.skip(0) =~= entries);
    }
}

impl Feed {
    /// What the feed answers for key `k`.
    pub closed spec fn value_of(self, k: Seq<char>) -> i128 {
        match feed_find(self.entries@, k) {
            Some(v) => v,
            None => 0,
        }
    }

    /// A fresh feed: every key reads as zero.
    pub fn new() -> (r: Feed)
        ensures
            forall|k: Seq<char>| #[trigger] r.value_of(k) == 0,
    {
        Feed { entries: Vec::new() }
    }

    /// Set `key` to `value`; every other key keeps its reading.
    pub fn set(&mut self, key: String, value: i128)
        ensures
            final(self).value_of(key@) == value,
            forall|k: Seq<char>| k != key@ ==> #[trigger] final(self).value_of(k) == old(
                self,
            ).value_of(k),
    {
        self.entries.insert(0, (key, value));
        proof {
            assert forall|k: Seq<char>| k != key@ implies #[trigger] self.value_of(k) == old(
                self,
            ).value_of(k) by {
                assert(self.entries@.skip(1) =~= old(self).entries@);
            }
        }
    }

    /// Replace the whole feed with `data`: a key reads as the value of its
    /// first entry in `data`, and a key absent from `data` reads as zero.
    pub fn replace_all(&mut self, data: Vec<(String, i128)>)
        ensures
            forall|k: Seq<char>| #[trigger] final(self).value_of(k) == match feed_find(data@, k) {
                Some(v) => v,
                None => 0,
            },
    {
        self.entries = data;
    }

    /// Read the feed for `key`; an unset key reads as zero.
    pub fn get(&self, key: &String) -> (r: i128)
        ensures
            r == self.value_of(key@),
    {
        let n = self.entries.len();
        let mut i: usize = 0;
        while i < n
            invariant
                n == self.entries@.len(),
                0 <= i <= n,
                forall|j: int| 0 <= j < i ==> (#[trigger] self.entries@[j].0)@ != key@,
            decreases n - i,
        {
            if self.entries[i].0 == *key {
                proof {
                    lemma_feed_find_skip(self.entries@, key@, i as int);
                    assert(self.entries@.skip(i as int)[0] == self.entries@[i as int]);
                }
                return self.entries[i].1;
            }
            i += 1;
        }
        proof {
            lemma_feed_find_skip(self.entries@, key@, n as int);
        }
        0
    }
}

/// The oracle: CPI readings keyed by country, FX rates keyed by currency
/// pair, and prices keyed by asset symbol. Unset keys read as zero.
pub struct OracleContract {
    cpi: Feed,
    fx: Feed,
    assets: Feed,
}

impl OracleContract {
    pub closed spec fn cpi_of(self, k: Seq<char>) -> i128 {
        self.cpi.value_of(k)
    }

    pub closed spec fn fx_of(self, k: Seq<char>) -> i128 {
        self.fx.value_of(k)
    }

    pub closed spec fn asset_price_of(self, k: Seq<char>) -> i128 {
        self.assets.value_of(k)
    }

    /// A fresh oracle: every feed reads as zero everywhere.
    pub fn new() -> (r: OracleContract)
        ensures
            forall|k: Seq<char>| #[trigger] r.cpi_of(k) == 0,
            forall|k: Seq<char>| #[trigger] r.fx_of(k) == 0,
            forall|k: Seq<char>| #[trigger] r.asset_price_of(k) == 0,
    {
        OracleContract { cpi: Feed::new(), fx: Feed::new(), assets: Feed::new() }
    }

    /// Record a CPI reading for one country.
    pub fn set_cpi(&mut self, country: String, cpi: i128)
        ensures
            final(self).cpi_of(country@) == cpi,
            forall|k: Seq<char>| k != country@ ==> #[trigger] final(self).cpi_of(k) == old(
                self,
            ).cpi_of(k),
            forall|k: Seq<char>| #[trigger] final(self).fx_of(k) == old(self).fx_of(k),
            forall|k: Seq<char>| #[trigger] final(self).asset_price_of(k) == old(
                self,
            ).asset_price_of(k),
    {
        self.cpi.set(country, cpi);
    }

    /// Replace all CPI readings at once.
    pub fn set_multi_cpi(&mut self, data: Vec<(String, i128)>)
        ensures
            forall|k: Seq<char>| #[trigger] final(self).cpi_of(k) == match feed_find(data@, k) {
                Some(v) => v,
                None => 0,
            },
            forall|k: Seq<char>| #[trigger] final(self).fx_of(k) == old(self).fx_of(k),
            forall|k: Seq<char>| #[trigger] final(self).asset_price_of(k) == old(
                self,
            ).asset_price_of(k),
    {
        self.cpi.replace_all(data);
    }

    /// Read the CPI for a country; an unset country reads as zero.
    pub fn get_cpi(&self, country: &String) -> (r: i128)
        ensures
            r == self.cpi_of(country@),
    {
        self.cpi.get(country)
    }

    /// Record an FX rate for one currency pair.
    pub fn set_fx(&mut self, pair: String, rate: i128)
        ensures
            final(self).fx_of(pair@) == rate,
            forall|k: Seq<char>| k != pair@ ==> #[trigger] final(self).fx_of(k) == old(self).fx_of(
                k,
            ),
            forall|k: Seq<char>| #[trigger] final(self).cpi_of(k) == old(self).cpi_of(k),
            forall|k: Seq<char>| #[trigger] final(self).asset_price_of(k) == old(
                self,
            ).asset_price_of(k),
    {
        self.fx.set(pair, rate);
    }

    /// Replace all FX rates at once.
    pub fn set_multi_fx(&mut self, data: Vec<(String, i128)>)
        ensures
            forall|k: Seq<char>| #[trigger] final(self).fx_of(k) == match feed_find(data@, k) {
                Some(v) => v,
                None => 0,
            },
            forall|k: Seq<char>| #[trigger] final(self).cpi_of(k) == old(self).cpi_of(k),
            forall|k: Seq<char>| #[trigger] final(self).asset_price_of(k) == old(
                self,
            ).asset_price_of(k),
    {
        self.fx.replace_all(data);
    }

    /// Read the FX rate for a pair; an unset pair reads as zero.
    pub fn get_fx(&self, pair: &String) -> (r: i128)
        ensures
            r == self.fx_of(pair@),
    {
        self.fx.get(pair)
    }

    /// Record a price for one asset.
    pub fn set_asset_price(&mut self, asset: String, price: i128)
        ensures
            final(self).asset_price_of(asset@) == price,
            forall|k: Seq<char>| k != asset@ ==> #[trigger] final(self).asset_price_of(k) == old(
                self,
            ).asset_price_of(k),
            forall|k: Seq<char>| #[trigger] final(self).cpi_of(k) == old(self).cpi_of(k),
            forall|k: Seq<char>| #[trigger] final(self).fx_of(k) == old(self).fx_of(k),
    {
        self.assets.set(asset, price);
    }

    /// Replace all asset prices at once.
    pub fn set_multi_asset_price(&mut self, data: Vec<(String, i128)>)
        ensures
            forall|k: Seq<char>| #[trigger] final(self).asset_price_of(k) == match feed_find(
                data@,
                k,
            ) {
                Some(v) => v,
                None => 0,
            },
            forall|k: Seq<char>| #[trigger] final(self).cpi_of(k) == old(self).cpi_of(k),
            forall|k: Seq<char>| #[trigger] final(self).fx_of(k) == old(self).fx_of(k),
    {
        self.assets.replace_all(data);
    }

    /// Read the price for an asset; an unset asset reads as zero.
    pub fn get_asset_price(&self, asset: &String) -> (r: i128)
        ensures
            r == self.asset_price_of(asset@),
    {
        self.assets.get(asset)
    }
}

} // verus!
