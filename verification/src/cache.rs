//! The rules of the result cache.
//!
//! Results are kept under a key made of the site and the query, for one
//! day. A result is stored only if it answers the request in full: a
//! result with fewer products than were asked for may be incomplete, and a
//! later request must scrape again rather than be served from it. What is
//! stored is the whole result; a hit is cut to the limit of the request
//! that it serves. A cache that cannot be reached or read is no error: the
//! request goes on as after a miss.

use vstd::prelude::*;
use vstd::string::StringExecFns;
use crate::extract::capped;
use crate::scraper::scraper_model::{views, Listing};

verus! {

/// Seconds for which a stored result is kept: one day.
pub const CACHE_TTL_SECS: u64 = 86400;

/// The key under which the results of `query` on `site` are kept.
pub open spec fn key_text(site: Seq<char>, query: Seq<char>) -> Seq<char> {
    site + seq![':'] + query
}

/// The key under which the results of a query on a site are kept.
pub fn cache_key(site: &str, query: &str) -> (key: String)
    ensures
        key@ == key_text(site@, query@),
{
    let mut key = site.to_owned();
    key.push(':');
    key.append(query);
    key
}

/// Whether a result of `found` products may be stored after a request for
/// `limit`: it is not empty and holds as many products as were asked for.
pub open spec fn storable(found: nat, limit: nat) -> bool {
    found > 0 && found >= limit
}

/// Whether a result may be stored.
pub fn should_store(found: usize, limit: usize) -> (store: bool)
    ensures
        store == storable(found as nat, limit as nat),
{
    found > 0 && found >= limit
}

/// What the cache gave for a key.
#[derive(Debug)]
pub enum CacheReply<T> {
    /// The cache could not be reached.
    Unavailable,
    /// Nothing is kept under the key, or what is kept is empty.
    Missing,
    /// What is kept under the key cannot be read as a list of products.
    Unreadable,
    /// The products kept under the key.
    Stored(Vec<T>),
}

/// What a request for `limit` products is served from the cache: the
/// first `limit` of the stored products, and nothing unless products are
/// stored.
pub open spec fn served<T>(reply: CacheReply<T>, limit: nat) -> Option<Seq<T>> {
    match reply {
        CacheReply::Stored(products) => Some(capped(products@, limit)),
        _ => None,
    }
}

/// Serves a request from what the cache gave, if it gave products.
pub fn serve_from_cache<T>(reply: CacheReply<T>, limit: usize) -> (hit: Option<Vec<T>>)
    ensures
        match hit {
            Some(products) => served(reply, limit as nat) == Some(products@),
            None => served(reply, limit as nat) is None,
        },
{
    match reply {
        CacheReply::Stored(products) => {
            let mut products = products;
            products.truncate(limit);
            Some(products)
        },
        _ => None,
    }
}

/// What becomes of a fresh result.
#[derive(Debug)]
pub struct Settlement<T> {
    /// The products to store, where the result may be stored: all of them.
    pub store: Option<Vec<T>>,
    /// The products to return: at most as many as were asked for.
    pub answer: Vec<T>,
}

/// The first `n` of `products`, copied.
pub fn copy_first<T: Listing>(products: &Vec<T>, n: usize) -> (copies: Vec<T>)
    ensures
        views(copies@) == capped(views(products@), n as nat),
{
    let mut copies: Vec<T> = Vec::new();
    let mut i: usize = 0;
    while i < products.len() && i < n
        invariant
            i <= products@.len(),
            i <= n,
            views(copies@) == views(products@).take(i as int),
        decreases products@.len() - i,
    {
        let ghost before = views(copies@);
        let copy = products[i].duplicate();
        copies.push(copy);
        assert(views(copies@) == before.push(copy@));
        i += 1;
    }
    assert(views(products@).take(products@.len() as int) == views(products@));
    copies
}

/// Settles a fresh result of a request for `limit` products: the whole
/// result is to be stored exactly if it may be stored, and the first
/// `limit` products are the answer.
pub fn settle<T: Listing>(found: Vec<T>, limit: usize) -> (settlement: Settlement<T>)
    ensures
        views(settlement.answer@) == capped(views(found@), limit as nat),
        match settlement.store {
            Some(products) => storable(found@.len(), limit as nat) && products@ == found@,
            None => !storable(found@.len(), limit as nat),
        },
{
    let answer = copy_first(&found, limit);
    let store = if should_store(found.len(), limit) {
        Some(found)
    } else {
        None
    };
    Settlement { store, answer }
}

} // verus!
