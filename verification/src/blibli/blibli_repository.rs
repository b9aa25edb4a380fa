//! Reading Blibli search-result pages.

use vstd::prelude::*;
use vstd::string::StringExecFns;
use crate::blibli::blibli_model::BlibliProduct;
use crate::dom::{card_views, page_cards, select_cards, Card, CardSelectors, CardSelectorsView};
use crate::extract::{card_price, extracted, products_from_cards, read_card_price};
use crate::fetch::{FetchAction, FetchPlan, FetchSession, FetchState};
use crate::price::{format_price, price_text};
use crate::profile::{PriceRule, SiteProfile, SiteProfileView};
use crate::scraper::scraper_model::{distinct_urls, views, ProductView};
use crate::text::chars_of;
use crate::url::{escape_spaces, spaces_escaped};

verus! {

/// The script that counts the result cards of a Blibli page.
pub const CARD_COUNT_SCRIPT: &'static str =
    "(function() { return document.querySelectorAll('a.elf-product-card').length; })();";

/// How the cards of a Blibli page are read.
pub open spec fn blibli_rules() -> SiteProfileView {
    SiteProfileView {
        base_url: "https://www.blibli.com"@,
        joins_bare_paths: true,
        excluded_paths: Seq::empty(),
        name_min_chars: 10,
        name_skips_numbers: false,
        sold_marker: "terjual"@,
        places: seq!["Kab."@, "Kota"@, "Jakarta"@, "Bandung"@, "Surabaya"@],
        last_place_wins: false,
        price_rule: PriceRule::Token,
        price_blockers: Seq::empty(),
    }
}

/// Where the cards of a Blibli page and their parts are found.
pub open spec fn blibli_selectors() -> CardSelectorsView {
    CardSelectorsView {
        card: "a.elf-product-card"@,
        block: "div"@,
        price_box: Some(".els-product__fixed-price"@),
        image: "img"@,
    }
}

/// Reads product listings out of Blibli pages.
#[derive(Debug)]
pub struct BlibliRepository {
    /// How the cards are read.
    pub profile: SiteProfile,
    /// Where the cards and their parts are found.
    pub selectors: CardSelectors,
}

impl BlibliRepository {
    /// The products that the cards of the page `html` show, at most
    /// `limit` of them.
    pub open spec fn products(&self, html: Seq<char>, limit: nat) -> Seq<ProductView> {
        extracted(self.profile@, page_cards(html, self.selectors@), limit)
    }

    /// A reader of Blibli pages as the site builds them.
    pub fn new() -> (repository: Self)
        ensures
            repository.profile@ == blibli_rules(),
            repository.selectors@ == blibli_selectors(),
    {
        let places: Vec<Vec<char>> = vec![
            chars_of("Kab."),
            chars_of("Kota"),
            chars_of("Jakarta"),
            chars_of("Bandung"),
            chars_of("Surabaya"),
        ];
        let profile = SiteProfile {
            base_url: chars_of("https://www.blibli.com"),
            joins_bare_paths: true,
            excluded_paths: Vec::new(),
            name_min_chars: 10,
            name_skips_numbers: false,
            sold_marker: chars_of("terjual"),
            places,
            last_place_wins: false,
            price_rule: PriceRule::Token,
            price_blockers: Vec::new(),
        };
        assert(profile@.places == blibli_rules().places);
        assert(profile@.excluded_paths == blibli_rules().excluded_paths);
        assert(profile@.price_blockers == blibli_rules().price_blockers);
        let selectors = CardSelectors {
            card: "a.elf-product-card".to_owned(),
            block: "div".to_owned(),
            price_box: Some(".els-product__fixed-price".to_owned()),
            image: "img".to_owned(),
        };
        BlibliRepository { profile, selectors }
    }

    /// The address of the search page for `query`.
    pub fn search_url(&self, query: &str) -> (url: String)
        ensures
            url@ == "https://www.blibli.com/cari/"@ + spaces_escaped(query@),
    {
        let mut url = "https://www.blibli.com/cari/".to_owned();
        url.append(escape_spaces(query).as_str());
        url
    }

    /// Begins the session that brings a search page into the state in
    /// which it is read: no title is read, and the page is given four
    /// seconds before it is polled.
    pub fn begin_fetch(&self) -> (started: (FetchSession, FetchAction))
        ensures
            started.0@ == FetchState::start(crate::fetch::blibli_plan()),
            started.1 == FetchAction::OpenTab,
    {
        FetchSession::begin(FetchPlan::blibli())
    }

    /// The result cards of a page.
    pub fn cards(&self, html: &str) -> (cards: Vec<Card>)
        ensures
            card_views(cards@) == page_cards(html@, self.selectors@),
    {
        select_cards(html, &self.selectors)
    }

    /// The price on a card: the amount in the element that holds the price
    /// to pay, or else the first price token among the texts of the card,
    /// in display form; the zero price where the card shows neither.
    pub fn extract_price_from_card(&self, card: &Card) -> (price: String)
        ensures
            price@ == card_price(self.profile@, card@),
    {
        read_card_price(&self.profile, card)
    }

    /// Formats an amount for display, with dots as thousands separators.
    pub fn format_price(&self, price: u64) -> (text: String)
        ensures
            text@ == price_text(price as nat),
    {
        format_price(price)
    }

    /// Reads the products that cards show, at most `limit` of them. Each
    /// has a name and a price, and no two have the same address.
    pub fn products_from_cards(&self, cards: &Vec<Card>, limit: usize) -> (products: Vec<
        BlibliProduct,
    >)
        ensures
            views(products@) == extracted(self.profile@, card_views(cards@), limit as nat),
            forall|k: int| 0 <= k < products@.len() ==> (#[trigger] products@[k])@.complete(),
            distinct_urls(views(products@)),
            products@.len() <= limit,
    {
        let found = products_from_cards(&self.profile, cards, limit);
        let mut products: Vec<BlibliProduct> = Vec::new();
        let mut i: usize = 0;
        while i < found.len()
            invariant
                i <= found@.len(),
                views(products@) == views(found@).take(i as int),
            decreases found@.len() - i,
        {
            let ghost before = views(products@);
            let listing = BlibliProduct::from_product(&found[i]);
            products.push(listing);
            assert(views(products@) == before.push(listing@));
            i += 1;
        }
        assert(views(found@).take(i as int) == views(found@));
        assert forall|k: int| 0 <= k < products@.len() implies (#[trigger] products@[k])@.complete() by {
            assert(views(products@)[k] == products@[k]@);
            assert(views(found@)[k] == found@[k]@);
        }
        products
    }

    /// Reads the products of a page, at most `limit` of them. Each has a
    /// name and a price, and no two have the same address.
    pub fn parse_products_from_dom(&self, html: &str, limit: usize) -> (products: Vec<
        BlibliProduct,
    >)
        ensures
            views(products@) == self.products(html@, limit as nat),
            forall|k: int| 0 <= k < products@.len() ==> (#[trigger] products@[k])@.complete(),
            distinct_urls(views(products@)),
            products@.len() <= limit,
    {
        let cards = self.cards(html);
        self.products_from_cards(&cards, limit)
    }
}

} // verus!
