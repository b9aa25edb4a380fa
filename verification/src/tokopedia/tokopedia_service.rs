//! The Tokopedia search service, without its browser and its cache
//! backend: what to look up, where to search, what a page gives, and what
//! becomes of a result.

use vstd::prelude::*;
use vstd::string::StringExecFns;
use crate::cache::{
    cache_key, key_text, serve_from_cache, served, settle, storable, CacheReply, Settlement,
};
use crate::extract::capped;
use crate::scraper::scraper_model::{views, Product, ProductView};
use crate::scraper::scraper_service::{extract_products, page_products, search_stem};
use crate::structured::{sound, standard_keys};
use crate::tokopedia::tokopedia_repository::{
    container_selector, open_selectors, scoped_selectors, tokopedia_rules, TokopediaRepository,
};
use crate::url::{encode_query, encoded_text};

verus! {

/// Serves Tokopedia searches.
#[derive(Debug)]
pub struct TokopediaService {
    /// Reads the pages.
    pub repository: TokopediaRepository,
}

impl TokopediaService {
    /// Every product that the page `html` gives.
    pub open spec fn all_products(&self, html: Seq<char>) -> Seq<ProductView> {
        page_products(self.repository, html, usize::MAX as nat)
    }

    /// A service that reads Tokopedia pages as the site builds them.
    pub fn new() -> (service: Self)
        ensures
            service.repository.profile@ == tokopedia_rules(),
            service.repository.keys@ == standard_keys(),
            service.repository.container@ == container_selector(),
            service.repository.inside@ == scoped_selectors(),
            service.repository.anywhere@ == open_selectors(),
    {
        TokopediaService { repository: TokopediaRepository::new() }
    }

    /// The key under which the results of `query` are kept.
    pub fn cache_key(&self, query: &str) -> (key: String)
        ensures
            key@ == key_text("tokopedia"@, query@),
    {
        cache_key("tokopedia", query)
    }

    /// The address of the search page for `query`.
    pub fn build_search_url(&self, query: &str) -> (url: String)
        ensures
            url@ == search_stem() + encoded_text(query),
    {
        let mut url = "https://www.tokopedia.com/search?st=product&q=".to_owned();
        url.append(encode_query(query).as_str());
        url
    }

    /// Serves a request for `limit` products from what the cache gave, if
    /// it gave products: the first `limit` of them.
    pub fn serve_cached(&self, reply: CacheReply<Product>, limit: usize) -> (hit: Option<
        Vec<Product>,
    >)
        ensures
            match hit {
                Some(products) => served(reply, limit as nat) == Some(products@),
                None => served(reply, limit as nat) is None,
            },
    {
        serve_from_cache(reply, limit)
    }

    /// Extracts every product of a search page: from its structured data
    /// first, from its cards where that gives nothing.
    pub fn extract(&self, html: &str) -> (products: Vec<Product>)
        ensures
            views(products@) == self.all_products(html@),
            sound(views(products@)),
    {
        extract_products(&self.repository, html, usize::MAX)
    }

    /// Settles the result of a fresh search for `limit` products on the
    /// page `html`: every product of the page is to be stored exactly if
    /// there are at least `limit` and at least one, and the first `limit`
    /// are the answer.
    pub fn settle_page(&self, html: &str, limit: usize) -> (settlement: Settlement<Product>)
        ensures
            views(settlement.answer@) == capped(self.all_products(html@), limit as nat),
            sound(views(settlement.answer@)),
            match settlement.store {
                Some(products) => storable(self.all_products(html@).len(), limit as nat) && views(
                    products@,
                ) == self.all_products(html@),
                None => !storable(self.all_products(html@).len(), limit as nat),
            },
    {
        let found = self.extract(html);
        let settlement = settle(found, limit);
        assert(sound(views(settlement.answer@))) by {
            let all = views(found@);
            let answer = views(settlement.answer@);
            assert(forall|k: int| 0 <= k < answer.len() ==> answer[k] == all[k]);
        }
        settlement
    }
}

} // verus!
