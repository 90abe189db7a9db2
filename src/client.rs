//! The price-feed cache: reads, refreshes and on-demand reads.

use vstd::prelude::*;
use vstd::string::*;
use crate::feed::{
    cache_after, fetch_entries, latest_for, parse_market_data, FeedError, JsonValue,
};
use crate::types::HyperliquidMarketData;

verus! {

/// The price-feed cache: where the feed is polled, how often, and the entries of the last
/// successful refresh, in the order the feed listed them.
pub struct HyperliquidClient {
    pub api_url: String,
    pub poll_interval_ms: u64,
    pub cached_data: Vec<HyperliquidMarketData>,
}

impl HyperliquidClient {
    /// A client for `api_url` with nothing cached yet.
    pub fn new(api_url: String, poll_interval_ms: u64) -> (r: HyperliquidClient)
        ensures
            r.api_url == api_url,
            r.poll_interval_ms == poll_interval_ms,
            r.cached_data@ == Seq::<HyperliquidMarketData>::empty(),
    {
        HyperliquidClient { api_url, poll_interval_ms, cached_data: Vec::new() }
    }

    /// The cached entry for `coin`, or `None` where the last refresh brought none or there
    /// was no refresh yet.
    pub fn get_market_data(&self, coin: &str) -> (r: Option<HyperliquidMarketData>)
        ensures
            r == latest_for(self.cached_data@, coin@),
    {
        let target = String::from_str(coin);
        let ghost es = self.cached_data@;
        let mut i: usize = self.cached_data.len();
        assert(es.subrange(0, i as int) =~= es);
        while i > 0
            invariant
                es == self.cached_data@,
                i <= es.len(),
                target@ == coin@,
                latest_for(es, coin@) == latest_for(es.subrange(0, i as int), coin@),
            decreases i,
        {
            let ghost pre = es.subrange(0, i as int);
            assert(pre.drop_last() =~= es.subrange(0, i - 1));
            assert(pre.last() == es[i - 1]);
            if self.cached_data[i - 1].coin == target {
                return Some(self.cached_data[i - 1].copied());
            }
            i = i - 1;
        }
        None
    }

    /// Applies the outcome of one fetch of the feed: where it brought a well-formed response,
    /// the cache is replaced by its entries and their number is returned; otherwise the cache
    /// is left exactly as it was and the failure is returned.
    pub fn apply_fetch(&mut self, outcome: Result<JsonValue, FeedError>) -> (r: Result<usize, FeedError>)
        ensures
            final(self).cached_data@ == cache_after(old(self).cached_data@, outcome),
            final(self).api_url == old(self).api_url,
            final(self).poll_interval_ms == old(self).poll_interval_ms,
            match fetch_entries(outcome) {
                Ok(es) => r == Ok::<usize, FeedError>(es.len() as usize),
                Err(e) => r == Err::<usize, FeedError>(e),
            },
    {
        let fetched = match outcome {
            Ok(v) => parse_market_data(&v),
            Err(e) => Err(e),
        };
        self.replace_entries(fetched)
    }

    /// Swaps in the entries of a refresh, or keeps the cache exactly as it was where the
    /// refresh failed.
    pub fn replace_entries(&mut self, fetched: Result<Vec<HyperliquidMarketData>, FeedError>) -> (r:
        Result<usize, FeedError>)
        ensures
            final(self).api_url == old(self).api_url,
            final(self).poll_interval_ms == old(self).poll_interval_ms,
            match fetched {
                Ok(es) => final(self).cached_data@ == es@ && r == Ok::<usize, FeedError>(es@.len() as usize),
                Err(e) => final(self).cached_data@ == old(self).cached_data@ && r == Err::<usize, FeedError>(e),
            },
    {
        match fetched {
            Ok(es) => {
                let n = es.len();
                self.cached_data = es;
                Ok(n)
            },
            Err(e) => Err(e),
        }
    }

    /// Applies a fetch made on demand, then reads `coin` from the cache: the fetch's failure
    /// where it failed, `NotFound` where the new contents have no entry for `coin`.
    pub fn get_fresh_market_data(&mut self, outcome: Result<JsonValue, FeedError>, coin: &str) -> (r:
        Result<HyperliquidMarketData, FeedError>)
        ensures
            final(self).cached_data@ == cache_after(old(self).cached_data@, outcome),
            final(self).api_url == old(self).api_url,
            final(self).poll_interval_ms == old(self).poll_interval_ms,
            match fetch_entries(outcome) {
                Err(e) => r == Err::<HyperliquidMarketData, FeedError>(e),
                Ok(es) => match latest_for(es, coin@) {
                    Some(d) => r == Ok::<HyperliquidMarketData, FeedError>(d),
                    None => r == Err::<HyperliquidMarketData, FeedError>(FeedError::NotFound),
                },
            },
    {
        match self.apply_fetch(outcome) {
            Err(e) => Err(e),
            Ok(_) => match self.get_market_data(coin) {
                Some(d) => Ok(d),
                None => Err(FeedError::NotFound),
            },
        }
    }
}

/// A refresh that fails, for whatever reason, leaves the cache as it was: every market reads
/// the same entry after it as before.
pub proof fn lemma_failed_refresh_keeps_cache(
    cached: Seq<HyperliquidMarketData>,
    outcome: Result<JsonValue, FeedError>,
    coin: Seq<char>,
)
    requires
        fetch_entries(outcome) is Err,
    ensures
        cache_after(cached, outcome) == cached,
        latest_for(cache_after(cached, outcome), coin) == latest_for(cached, coin),
{
}

} // verus!
