//! The Blibli search service, without its browser and its cache backend:
//! what to look up, what a page gives, and what becomes of a result.

use vstd::prelude::*;
use crate::blibli::blibli_model::BlibliProduct;
use crate::blibli::blibli_repository::{blibli_rules, blibli_selectors, BlibliRepository};
use crate::cache::{
    cache_key, key_text, serve_from_cache, served, settle, storable, CacheReply, Settlement,
};
use crate::extract::capped;
use crate::scraper::scraper_model::{distinct_urls, views, ProductView};

verus! {

/// Serves Blibli searches.
#[derive(Debug)]
pub struct BlibliService {
    /// Reads the pages.
    pub repository: BlibliRepository,
}

impl BlibliService {
    /// Every product that the page `html` gives.
    pub open spec fn all_products(&self, html: Seq<char>) -> Seq<ProductView> {
        self.repository.products(html, usize::MAX as nat)
    }

    /// A service that reads Blibli pages as the site builds them.
    pub fn new() -> (service: Self)
        ensures
            service.repository.profile@ == blibli_rules(),
            service.repository.selectors@ == blibli_selectors(),
    {
        BlibliService { repository: BlibliRepository::new() }
    }

    /// The key under which the results of `query` are kept.
    pub fn cache_key(&self, query: &str) -> (key: String)
        ensures
            key@ == key_text("blibli"@, query@),
    {
        cache_key("blibli", query)
    }

    /// Serves a request for `limit` products from what the cache gave, if
    /// it gave products: the first `limit` of them.
    pub fn serve_cached(&self, reply: CacheReply<BlibliProduct>, limit: usize) -> (hit: Option<
        Vec<BlibliProduct>,
    >)
        ensures
            match hit {
                Some(products) => served(reply, limit as nat) == Some(products@),
                None => served(reply, limit as nat) is None,
            },
    {
        serve_from_cache(reply, limit)
    }

    /// Extracts every product of a search page.
    pub fn extract(&self, html: &str) -> (products: Vec<BlibliProduct>)
        ensures
            views(products@) == self.all_products(html@),
            forall|k: int| 0 <= k < products@.len() ==> (#[trigger] products@[k])@.complete(),
            distinct_urls(views(products@)),
    {
        self.repository.parse_products_from_dom(html, usize::MAX)
    }

    /// Settles the result of a fresh search for `limit` products on the
    /// page `html`: every product of the page is to be stored exactly if
    /// there are at least `limit` and at least one, and the first `limit`
    /// are the answer.
    pub fn settle_page(&self, html: &str, limit: usize) -> (settlement: Settlement<BlibliProduct>)
        ensures
            views(settlement.answer@) == capped(self.all_products(html@), limit as nat),
            match settlement.store {
                Some(products) => storable(self.all_products(html@).len(), limit as nat) && views(
                    products@,
                ) == self.all_products(html@),
                None => !storable(self.all_products(html@).len(), limit as nat),
            },
    {
        settle(self.extract(html), limit)
    }
}

} // verus!
