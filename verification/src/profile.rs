//! What differs from site to site, gathered in one record.

use vstd::prelude::*;

verus! {

/// The sites that are searched.
#[derive(Debug, Clone, Copy, PartialEq, Eq, Structural)]
pub enum Site {
    Tokopedia,
    Blibli,
}

/// How the price of a card is found.
#[derive(Debug, Clone, Copy, PartialEq, Eq, Structural)]
pub enum PriceRule {
    /// The element that holds the price to pay, or else the first price
    /// token among the texts of the card, brought into display form; the
    /// zero price where neither is there.
    Token,
    /// The longest text of the card that begins with the currency prefix
    /// and holds none of the blocked words, as the page shows it; none
    /// where no text qualifies. The text is not brought into display
    /// form, so an amount with more than one separator is kept whole.
    Longest,
}

/// The texts and thresholds by which the cards of one site are read.
/// Texts are held as characters.
#[derive(Debug)]
pub struct SiteProfile {
    /// Scheme and host of the site, put before relative product links.
    pub base_url: Vec<char>,
    /// Whether a link that begins neither with `http` nor with a slash is
    /// joined to the base address with a slash. Where not, it is kept.
    pub joins_bare_paths: bool,
    /// Parts of an address that mark a page which is no product page.
    pub excluded_paths: Vec<Vec<char>>,
    /// A name has more characters than this.
    pub name_min_chars: usize,
    /// Whether a text of digits, dots and commas alone is refused as a
    /// name.
    pub name_skips_numbers: bool,
    /// The word that marks a sold count, in lower case.
    pub sold_marker: Vec<char>,
    /// Names of cities and regions, and words that go before them.
    pub places: Vec<Vec<char>>,
    /// Whether the last text that names a place is the shop location.
    /// Where not, the first is.
    pub last_place_wins: bool,
    /// How the price is found.
    pub price_rule: PriceRule,
    /// Words that rule a text out as the price under `PriceRule::Longest`.
    pub price_blockers: Vec<Vec<char>>,
}

/// A profile as plain values.
pub struct SiteProfileView {
    pub base_url: Seq<char>,
    pub joins_bare_paths: bool,
    pub excluded_paths: Seq<Seq<char>>,
    pub name_min_chars: nat,
    pub name_skips_numbers: bool,
    pub sold_marker: Seq<char>,
    pub places: Seq<Seq<char>>,
    pub last_place_wins: bool,
    pub price_rule: PriceRule,
    pub price_blockers: Seq<Seq<char>>,
}

/// The texts of a list of character vectors.
pub open spec fn char_lists(v: Seq<Vec<char>>) -> Seq<Seq<char>> {
    v.map_values(|t: Vec<char>| t@)
}

impl View for SiteProfile {
    type V = SiteProfileView;

    open spec fn view(&self) -> SiteProfileView {
        SiteProfileView {
            base_url: self.base_url@,
            joins_bare_paths: self.joins_bare_paths,
            excluded_paths: char_lists(self.excluded_paths@),
            name_min_chars: self.name_min_chars as nat,
            name_skips_numbers: self.name_skips_numbers,
            sold_marker: self.sold_marker@,
            places: char_lists(self.places@),
            last_place_wins: self.last_place_wins,
            price_rule: self.price_rule,
            price_blockers: char_lists(self.price_blockers@),
        }
    }
}

} // verus!
