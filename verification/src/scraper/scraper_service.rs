//! The extraction service: where to search, and what a page gives.

use vstd::prelude::*;
use vstd::string::StringExecFns;
use crate::scraper::scraper_model::{views, Product, ProductView};
use crate::structured::{sound, standard_keys};
use crate::tokopedia::tokopedia_repository::{
    container_selector, open_selectors, scoped_selectors, tokopedia_rules, TokopediaRepository,
};
use crate::url::{encode_query, encoded_text};

verus! {

/// The address of the Tokopedia search page with its fixed parameters, up
/// to the search term.
pub open spec fn search_stem() -> Seq<char> {
    "https://www.tokopedia.com/search?st=product&q="@
}

/// The products of the page `html`, at most `limit` of them: those that
/// its structured data gives, or, where that gives none, those that its
/// cards show. The two are never mixed.
pub open spec fn page_products(repository: TokopediaRepository, html: Seq<char>, limit: nat) -> Seq<
    ProductView,
> {
    match repository.data_products(html, limit) {
        Some(products) => if products.len() > 0 {
            products
        } else {
            repository.card_products(html, limit)
        },
        None => repository.card_products(html, limit),
    }
}

/// Extracts the products of a page: from its structured data first, from
/// its cards where that gives nothing. A page that gives nothing either
/// way has no products, which is no error. Each product has a name and a
/// price, and no two that have an address have the same.
pub fn extract_products(repository: &TokopediaRepository, html: &str, limit: usize) -> (products:
    Vec<Product>)
    ensures
        views(products@) == page_products(*repository, html@, limit as nat),
        sound(views(products@)),
        products@.len() <= limit,
{
    match repository.parse_products_from_json(html, limit) {
        Some(products) => {
            if products.len() > 0 {
                return products;
            }
        },
        None => {},
    }
    let products = repository.parse_products_from_dom(html, limit);
    assert(sound(views(products@))) by {
        assert forall|k: int| 0 <= k < products@.len() implies (#[trigger] views(
            products@,
        )[k]).complete() by {
            assert(views(products@)[k] == products@[k]@);
        }
    }
    products
}

/// Searches Tokopedia by relevance among the better-rated products.
#[derive(Debug)]
pub struct ScraperService {
    /// Reads the pages.
    pub repository: TokopediaRepository,
}

impl ScraperService {
    /// A service that reads Tokopedia pages as the site builds them.
    pub fn new() -> (service: Self)
        ensures
            service.repository.profile@ == tokopedia_rules(),
            service.repository.keys@ == standard_keys(),
            service.repository.container@ == container_selector(),
            service.repository.inside@ == scoped_selectors(),
            service.repository.anywhere@ == open_selectors(),
    {
        ScraperService { repository: TokopediaRepository::new() }
    }

    /// The address of the search page for `query`, sorted and filtered by
    /// rating.
    pub fn build_search_url(&self, query: &str) -> (url: String)
        ensures
            url@ == search_stem() + encoded_text(query) + "&ob=3&rt=4,5"@,
    {
        let mut url = "https://www.tokopedia.com/search?st=product&q=".to_owned();
        url.append(encode_query(query).as_str());
        url.append("&ob=3&rt=4,5");
        url
    }

    /// Extracts the products of a search page, at most `limit` of them.
    pub fn extract(&self, html: &str, limit: usize) -> (products: Vec<Product>)
        ensures
            views(products@) == page_products(self.repository, html@, limit as nat),
            sound(views(products@)),
            products@.len() <= limit,
    {
        extract_products(&self.repository, html, limit)
    }
}

} // verus!
