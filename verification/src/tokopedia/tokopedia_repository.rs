//! Reading Tokopedia search-result pages.

use vstd::prelude::*;
use vstd::string::StrSliceExecFns;
use crate::config::{cities, indonesian_cities};
use crate::dom::{
    card_views, count_elements, element_count, page_cards, select_cards, Card, CardSelectors,
    CardSelectorsView, CardView,
};
use crate::extract::{extracted, products_from_cards};
use crate::fetch::{FetchAction, FetchPlan, FetchSession, FetchState};
use crate::profile::{PriceRule, SiteProfile, SiteProfileView};
use crate::scraper::scraper_model::{distinct_urls, views, Product, ProductView};
use crate::structured::{
    parse_structured, sound, standard_keys, structured_products, ProductKeys,
};
use crate::text::chars_of;

verus! {

/// The script that counts the result cards of a Tokopedia page: the
/// product links inside the element that holds the search results, each
/// address once, that show more than ten characters of text.
pub const CARD_COUNT_SCRIPT: &'static str = "(function() {
    const container = document.querySelector('div[data-testid=\"divSRPContentProducts\"]');
    if (!container) return 0;
    const seen = new Set();
    let count = 0;
    for (const link of container.querySelectorAll('a[href*=\"tokopedia.com\"]')) {
        const href = link.getAttribute('href') || '';
        const url = !href.startsWith('http') && href.startsWith('/')
            ? 'https://www.tokopedia.com' + href : href;
        if (!url || url.includes('/search') || url.includes('/discovery/')
            || url.includes('/top-ads/') || url.includes('/promo/') || seen.has(url)) continue;
        seen.add(url);
        if (link.textContent.trim().length > 10) count++;
    }
    return count;
})();";

/// The first `max_chars` characters of `s`, or all of `s` where it has no
/// more.
pub fn truncate_str(s: &str, max_chars: usize) -> (head: &str)
    ensures
        head@ == (if s@.len() <= max_chars {
            s@
        } else {
            s@.take(max_chars as int)
        }),
{
    if s.unicode_len() <= max_chars {
        s
    } else {
        s.substring_char(0, max_chars)
    }
}

/// How the cards of a Tokopedia page are read. The price is read as a
/// token and brought into display form; the words that rule a text out as
/// a price are held for a reader that takes the price as the page shows
/// it.
pub open spec fn tokopedia_rules() -> SiteProfileView {
    SiteProfileView {
        base_url: "https://www.tokopedia.com"@,
        joins_bare_paths: false,
        excluded_paths: seq!["/search"@, "/discovery/"@, "/top-ads/"@, "/promo/"@],
        name_min_chars: 15,
        name_skips_numbers: true,
        sold_marker: "terjual"@,
        places: indonesian_cities(),
        last_place_wins: true,
        price_rule: PriceRule::Token,
        price_blockers: seq!["Cashback"@, "%"@],
    }
}

/// The selector of the element that holds the search results.
pub open spec fn container_selector() -> Seq<char> {
    "div[data-testid=\"divSRPContentProducts\"]"@
}

/// Where the cards of a Tokopedia page are found inside the element that
/// holds the search results.
pub open spec fn scoped_selectors() -> CardSelectorsView {
    CardSelectorsView {
        card: "div[data-testid=\"divSRPContentProducts\"] a[href*='tokopedia.com']"@,
        block: "span"@,
        price_box: None,
        image: "img[alt='product-image']"@,
    }
}

/// Where the cards of a Tokopedia page are found on a page without such
/// an element.
pub open spec fn open_selectors() -> CardSelectorsView {
    CardSelectorsView {
        card: "a[href*='tokopedia.com']"@,
        block: "span"@,
        price_box: None,
        image: "img[alt='product-image']"@,
    }
}

/// Reads product listings out of Tokopedia pages.
#[derive(Debug)]
pub struct TokopediaRepository {
    /// How the cards are read.
    pub profile: SiteProfile,
    /// Under which keys structured data names the fields of a product.
    pub keys: ProductKeys,
    /// Finds the element that holds the search results.
    pub container: String,
    /// Where the cards are found on a page that has such an element.
    pub inside: CardSelectors,
    /// Where the cards are found on a page that has none.
    pub anywhere: CardSelectors,
}

impl TokopediaRepository {
    /// The result cards of the page `html`: the product links inside the
    /// elements that hold the search results, or on a page without such
    /// an element every product link.
    pub open spec fn page_cards(&self, html: Seq<char>) -> Seq<CardView> {
        if element_count(html, self.container@) > 0 {
            page_cards(html, self.inside@)
        } else {
            page_cards(html, self.anywhere@)
        }
    }

    /// The products that the cards of the page `html` show, at most
    /// `limit` of them.
    pub open spec fn card_products(&self, html: Seq<char>, limit: nat) -> Seq<ProductView> {
        extracted(self.profile@, self.page_cards(html), limit)
    }

    /// The products that the structured data of the page `html` gives, at
    /// most `limit` of them.
    pub open spec fn data_products(&self, html: Seq<char>, limit: nat) -> Option<
        Seq<ProductView>,
    > {
        structured_products(self.profile@, self.keys@, html, limit)
    }

    /// A reader of Tokopedia pages as the site builds them.
    pub fn new() -> (repository: Self)
        ensures
            repository.profile@ == tokopedia_rules(),
            repository.keys@ == standard_keys(),
            repository.container@ == container_selector(),
            repository.inside@ == scoped_selectors(),
            repository.anywhere@ == open_selectors(),
    {
        let excluded: Vec<Vec<char>> = vec![
            chars_of("/search"),
            chars_of("/discovery/"),
            chars_of("/top-ads/"),
            chars_of("/promo/"),
        ];
        let blockers: Vec<Vec<char>> = vec![chars_of("Cashback"), chars_of("%")];
        let profile = SiteProfile {
            base_url: chars_of("https://www.tokopedia.com"),
            joins_bare_paths: false,
            excluded_paths: excluded,
            name_min_chars: 15,
            name_skips_numbers: true,
            sold_marker: chars_of("terjual"),
            places: cities(),
            last_place_wins: true,
            price_rule: PriceRule::Token,
            price_blockers: blockers,
        };
        assert(profile@.excluded_paths == tokopedia_rules().excluded_paths);
        assert(profile@.price_blockers == tokopedia_rules().price_blockers);
        TokopediaRepository {
            profile,
            keys: ProductKeys::standard(),
            container: "div[data-testid=\"divSRPContentProducts\"]".to_owned(),
            inside: CardSelectors {
                card: "div[data-testid=\"divSRPContentProducts\"] a[href*='tokopedia.com']".to_owned(),
                block: "span".to_owned(),
                price_box: None,
                image: "img[alt='product-image']".to_owned(),
            },
            anywhere: CardSelectors {
                card: "a[href*='tokopedia.com']".to_owned(),
                block: "span".to_owned(),
                price_box: None,
                image: "img[alt='product-image']".to_owned(),
            },
        }
    }

    /// Begins the session that brings a search page into the state in
    /// which it is read: the title is read as a test that the page
    /// answers, and the page is given three seconds before it is polled.
    pub fn begin_fetch(&self) -> (started: (FetchSession, FetchAction))
        ensures
            started.0@ == FetchState::start(crate::fetch::tokopedia_plan()),
            started.1 == FetchAction::OpenTab,
    {
        FetchSession::begin(FetchPlan::tokopedia())
    }

    /// The result cards of a page.
    pub fn cards(&self, html: &str) -> (cards: Vec<Card>)
        ensures
            card_views(cards@) == self.page_cards(html@),
    {
        if count_elements(html, self.container.as_str()) > 0 {
            select_cards(html, &self.inside)
        } else {
            select_cards(html, &self.anywhere)
        }
    }

    /// Reads the products that the cards of a page show, at most `limit`
    /// of them. Each has a name and a price, and no two have the same
    /// address.
    pub fn parse_products_from_dom(&self, html: &str, limit: usize) -> (products: Vec<Product>)
        ensures
            views(products@) == self.card_products(html@, limit as nat),
            forall|k: int| 0 <= k < products@.len() ==> (#[trigger] products@[k])@.complete(),
            distinct_urls(views(products@)),
            products@.len() <= limit,
    {
        let cards = self.cards(html);
        products_from_cards(&self.profile, &cards, limit)
    }

    /// Reads products out of the structured data that a page embeds, at
    /// most `limit` of them; `None` where the page gives none that way.
    /// Each has a name and a price, and no two that have an address have
    /// the same.
    pub fn parse_products_from_json(&self, html: &str, limit: usize) -> (found: Option<
        Vec<Product>,
    >)
        ensures
            match found {
                Some(products) => self.data_products(html@, limit as nat) == Some(
                    views(products@),
                ) && sound(views(products@)) && products@.len() <= limit,
                None => self.data_products(html@, limit as nat) is None,
            },
    {
        parse_structured(&self.profile, &self.keys, html, limit)
    }
}

} // verus!
