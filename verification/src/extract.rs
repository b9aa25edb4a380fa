//! Turning result cards into products.
//!
//! Each card is read on its own: its link gives the product address, its
//! texts are sorted into name, price, rating, shop location and sold count
//! by the tests of the site. Cards are taken in page order; a card whose
//! address was met before gives nothing, and the requested limit ends the
//! walk.

use vstd::hash_set::StringHashSet;
use vstd::prelude::*;
use crate::dom::{card_views, Card, CardView};
use crate::price::{
    currency_prefix, format_price, price_text, read_price_token, token_value, zero_price,
};
use crate::profile::{char_lists, PriceRule, SiteProfile, SiteProfileView};
use crate::rules::{
    boxed_amount, contains_any, contains_any_of, find_first, find_last, find_longest,
    first_passing, has_currency_prefix, last_passing, longest_passing, passes, read_boxed_amount,
    TextTest,
};
use crate::scraper::scraper_model::{distinct_urls, views, Product, ProductView};
use crate::text::{
    chars_of, has_prefix, opt_text, starts_with, string_of, tail_of, texts, trim, trimmed,
};

verus! {

/// The text `http`, with which an absolute address begins.
pub open spec fn http() -> Seq<char> {
    seq!['h', 't', 't', 'p']
}

/// The text `/`, with which a path from the site's root begins.
pub open spec fn slash() -> Seq<char> {
    seq!['/']
}

/// The absolute address that the link `href` of a card stands for. A link
/// that begins with `http` is absolute already; a path from the root is
/// put behind the base address; any other link is joined to the base
/// address with a slash or kept, as the site has it. No link gives the
/// empty address.
pub open spec fn canonical_url(p: SiteProfileView, href: Option<Seq<char>>) -> Seq<char> {
    match href {
        None => Seq::empty(),
        Some(link) => if starts_with(link, http()) {
            link
        } else if starts_with(link, slash()) {
            p.base_url + link
        } else if p.joins_bare_paths {
            p.base_url + slash() + link
        } else {
            link
        },
    }
}

/// Whether `url` may be the address of a product page: it is not empty
/// and holds no excluded part.
pub open spec fn url_accepted(p: SiteProfileView, url: Seq<char>) -> bool {
    url.len() > 0 && !contains_any(url, p.excluded_paths)
}

/// Every text of `raw` without the white space around it.
pub open spec fn trimmed_all(raw: Seq<Seq<char>>) -> Seq<Seq<char>> {
    raw.map_values(|t: Seq<char>| trim(t))
}

/// The text at position `at`, if there is a position.
pub open spec fn picked(texts: Seq<Seq<char>>, at: Option<int>) -> Option<Seq<char>> {
    match at {
        Some(i) => Some(texts[i]),
        None => None,
    }
}

/// The name on a card with the texts `blocks`: the longest text that may
/// be a name, the last of several; empty where there is none.
pub open spec fn card_name(p: SiteProfileView, blocks: Seq<Seq<char>>) -> Seq<char> {
    match longest_passing(p, TextTest::Name, blocks, blocks.len() as int) {
        Some(i) => blocks[i],
        None => Seq::empty(),
    }
}

/// The amount of the first text at or after `from` that begins with the
/// currency prefix and has a readable price token behind it.
pub open spec fn token_amount(nodes: Seq<Seq<char>>, from: int) -> Option<u64>
    decreases nodes.len() - from,
{
    if from < 0 || from >= nodes.len() {
        None
    } else if starts_with(nodes[from], currency_prefix()) && token_value(nodes[from].skip(2)) is Some {
        token_value(nodes[from].skip(2))
    } else {
        token_amount(nodes, from + 1)
    }
}

/// The amount in the element that holds the price to pay, if the card has
/// one and it shows a number.
pub open spec fn card_boxed_amount(card: CardView) -> Option<u64> {
    match card.price_box {
        Some(text) => boxed_amount(text),
        None => None,
    }
}

/// The price on a card, by the rule of the site.
pub open spec fn card_price(p: SiteProfileView, card: CardView) -> Seq<char> {
    let nodes = trimmed_all(card.text_nodes);
    match p.price_rule {
        PriceRule::Token => match card_boxed_amount(card) {
            Some(n) => price_text(n as nat),
            None => match token_amount(nodes, 0) {
                Some(n) => price_text(n as nat),
                None => zero_price(),
            },
        },
        PriceRule::Longest => match longest_passing(
            p,
            TextTest::ShownPrice,
            nodes,
            nodes.len() as int,
        ) {
            Some(i) => nodes[i],
            None => Seq::empty(),
        },
    }
}

/// Whether `text` is a price in display form.
pub open spec fn is_price_text(text: Seq<char>) -> bool {
    exists|n: u64| text == price_text(n as nat)
}

/// Under the token rule the price on a card is in display form, whatever
/// the card shows.
pub proof fn lemma_token_price_is_normal(p: SiteProfileView, card: CardView)
    requires
        p.price_rule == PriceRule::Token,
    ensures
        is_price_text(card_price(p, card)),
{
    let nodes = trimmed_all(card.text_nodes);
    match card_boxed_amount(card) {
        Some(n) => {
            assert(card_price(p, card) == price_text(n as nat));
        },
        None => match token_amount(nodes, 0) {
            Some(n) => {
                assert(card_price(p, card) == price_text(n as nat));
            },
            None => {
                assert(card_price(p, card) == price_text(0u64 as nat));
            },
        },
    }
}

/// The shop location on a card: the first or the last text that names a
/// place, as the site has it.
pub open spec fn card_location(p: SiteProfileView, blocks: Seq<Seq<char>>) -> Option<Seq<char>> {
    if p.last_place_wins {
        picked(blocks, last_passing(p, TextTest::Place, blocks, blocks.len() as int))
    } else {
        picked(blocks, first_passing(p, TextTest::Place, blocks, 0))
    }
}

/// The image address on a card; empty where it shows no image.
pub open spec fn card_image(card: CardView) -> Seq<char> {
    match card.image {
        Some(address) => address,
        None => Seq::empty(),
    }
}

/// The product that a card shows, if it shows a name and a price.
pub open spec fn product_of(p: SiteProfileView, card: CardView) -> Option<ProductView> {
    let blocks = trimmed_all(card.blocks);
    let name = card_name(p, blocks);
    let price = card_price(p, card);
    if name.len() == 0 || price.len() == 0 {
        None
    } else {
        Some(
            ProductView {
                name,
                price,
                rating: picked(blocks, first_passing(p, TextTest::Rating, blocks, 0)),
                image_url: card_image(card),
                product_url: canonical_url(p, card.href),
                shop_location: card_location(p, blocks),
                sold: picked(blocks, first_passing(p, TextTest::Sold, blocks, 0)),
            },
        )
    }
}

/// The product that a card shows has a name and a price, and its rating,
/// if it has one, is a decimal number of at most five.
pub proof fn lemma_product_complete(p: SiteProfileView, card: CardView)
    ensures
        product_of(p, card) matches Some(product) ==> product.complete(),
{
    let blocks = trimmed_all(card.blocks);
    crate::rules::lemma_first_passing(p, TextTest::Rating, blocks, 0);
}

/// A card none of whose texts may be a name gives no product.
pub proof fn lemma_card_without_name(p: SiteProfileView, card: CardView)
    requires
        forall|i: int|
            0 <= i < trimmed_all(card.blocks).len() ==> !passes(
                p,
                TextTest::Name,
                #[trigger] trimmed_all(card.blocks)[i],
            ),
    ensures
        product_of(p, card) is None,
{
    let blocks = trimmed_all(card.blocks);
    crate::rules::lemma_longest_passing(p, TextTest::Name, blocks, blocks.len() as int);
}

/// The product address of card `i`.
pub open spec fn card_url(p: SiteProfileView, cards: Seq<CardView>, i: int) -> Seq<char> {
    canonical_url(p, cards[i].href)
}

/// Whether no card before card `i` has the same product address.
pub open spec fn first_of_its_url(p: SiteProfileView, cards: Seq<CardView>, i: int) -> bool {
    forall|j: int| 0 <= j < i ==> #[trigger] card_url(p, cards, j) != card_url(p, cards, i)
}

/// What card `i` adds to the result: its product, if its address is
/// accepted and was not met before.
pub open spec fn yield_of(p: SiteProfileView, cards: Seq<CardView>, i: int) -> Option<ProductView> {
    if url_accepted(p, card_url(p, cards, i)) && first_of_its_url(p, cards, i) {
        product_of(p, cards[i])
    } else {
        None
    }
}

/// What the first `n` cards add to the result, in page order.
pub open spec fn yields_upto(p: SiteProfileView, cards: Seq<CardView>, n: int) -> Seq<ProductView>
    decreases n,
{
    if n <= 0 {
        Seq::empty()
    } else {
        match yield_of(p, cards, n - 1) {
            Some(product) => yields_upto(p, cards, n - 1).push(product),
            None => yields_upto(p, cards, n - 1),
        }
    }
}

/// The first `limit` items of `all`, or all of them where there are fewer.
pub open spec fn capped<T>(all: Seq<T>, limit: nat) -> Seq<T> {
    if all.len() <= limit {
        all
    } else {
        all.take(limit as int)
    }
}

/// The products of a page with the cards `cards`, at most `limit` of them.
pub open spec fn extracted(p: SiteProfileView, cards: Seq<CardView>, limit: nat) -> Seq<
    ProductView,
> {
    capped(yields_upto(p, cards, cards.len() as int), limit)
}

/// What more cards add comes behind what fewer cards add.
pub proof fn lemma_yields_grow(p: SiteProfileView, cards: Seq<CardView>, m: int, n: int)
    requires
        0 <= m <= n,
    ensures
        yields_upto(p, cards, m).len() <= yields_upto(p, cards, n).len(),
        yields_upto(p, cards, n).take(yields_upto(p, cards, m).len() as int) == yields_upto(
            p,
            cards,
            m,
        ),
    decreases n - m,
{
    if m < n {
        lemma_yields_grow(p, cards, m, n - 1);
        let fewer = yields_upto(p, cards, m);
        let before = yields_upto(p, cards, n - 1);
        assert(yields_upto(p, cards, n).take(fewer.len() as int) == before.take(
            fewer.len() as int,
        ));
    } else {
        assert(yields_upto(p, cards, n).take(yields_upto(p, cards, m).len() as int)
            == yields_upto(p, cards, m));
    }
}

/// Every product that the first `n` cards add comes from one of them: it
/// has a name and a price, it is the product of a card whose address is
/// accepted and met for the first time, and products come in the order of
/// their cards.
pub proof fn lemma_yields_sources(p: SiteProfileView, cards: Seq<CardView>, n: int) -> (sources:
    Seq<int>)
    requires
        0 <= n,
    ensures
        sources.len() == yields_upto(p, cards, n).len(),
        forall|k: int|
            0 <= k < sources.len() ==> 0 <= #[trigger] sources[k] < n && yield_of(
                p,
                cards,
                sources[k],
            ) == Some(yields_upto(p, cards, n)[k]),
        forall|k: int, l: int| 0 <= k < l < sources.len() ==> sources[k] < sources[l],
    decreases n,
{
    if n == 0 {
        Seq::empty()
    } else {
        let before = lemma_yields_sources(p, cards, n - 1);
        match yield_of(p, cards, n - 1) {
            Some(product) => before.push(n - 1),
            None => before,
        }
    }
}

/// A card whose product address was met on an earlier card adds nothing:
/// of two cards with the same address only the first can give a product.
pub proof fn lemma_first_card_wins(p: SiteProfileView, cards: Seq<CardView>, i: int, j: int)
    requires
        0 <= i < j,
        card_url(p, cards, i) == card_url(p, cards, j),
    ensures
        yield_of(p, cards, j) is None,
{
}

/// Every product of an extraction has a name and a price, and no two have
/// the same address.
pub proof fn lemma_extracted_sound(p: SiteProfileView, cards: Seq<CardView>, limit: nat)
    ensures
        forall|k: int|
            0 <= k < extracted(p, cards, limit).len() ==> (#[trigger] extracted(
                p,
                cards,
                limit,
            )[k]).complete(),
        distinct_urls(extracted(p, cards, limit)),
        extracted(p, cards, limit).len() <= limit,
        extracted(p, cards, limit).len() <= cards.len(),
{
    let all = yields_upto(p, cards, cards.len() as int);
    let sources = lemma_yields_sources(p, cards, cards.len() as int);
    let result = extracted(p, cards, limit);
    assert forall|k: int| 0 <= k < result.len() implies (#[trigger] result[k]).complete() by {
        assert(result[k] == all[k]);
        assert(yield_of(p, cards, sources[k]) == Some(all[k]));
        lemma_product_complete(p, cards[sources[k]]);
    }
    assert forall|k: int, l: int| 0 <= k < l < result.len() implies #[trigger] result[k].product_url
        != #[trigger] result[l].product_url by {
        assert(result[k] == all[k] && result[l] == all[l]);
        assert(yield_of(p, cards, sources[k]) == Some(all[k]));
        assert(yield_of(p, cards, sources[l]) == Some(all[l]));
        assert(sources[k] < sources[l]);
        assert(card_url(p, cards, sources[k]) != card_url(p, cards, sources[l]));
    }
    lemma_strictly_increasing_bound(sources, cards.len() as int);
}

/// Under the token rule every product of an extraction has its price in
/// display form.
pub proof fn lemma_extracted_prices(p: SiteProfileView, cards: Seq<CardView>, limit: nat)
    requires
        p.price_rule == PriceRule::Token,
    ensures
        forall|k: int|
            0 <= k < extracted(p, cards, limit).len() ==> is_price_text(
                (#[trigger] extracted(p, cards, limit)[k]).price,
            ),
{
    let all = yields_upto(p, cards, cards.len() as int);
    let sources = lemma_yields_sources(p, cards, cards.len() as int);
    let result = extracted(p, cards, limit);
    assert forall|k: int| 0 <= k < result.len() implies is_price_text(
        (#[trigger] result[k]).price,
    ) by {
        assert(result[k] == all[k]);
        assert(yield_of(p, cards, sources[k]) == Some(all[k]));
        lemma_token_price_is_normal(p, cards[sources[k]]);
    }
}

/// A strictly increasing sequence of indices below `n` has at most `n`
/// members.
proof fn lemma_strictly_increasing_bound(s: Seq<int>, n: int)
    requires
        0 <= n,
        forall|k: int| 0 <= k < s.len() ==> 0 <= #[trigger] s[k] < n,
        forall|k: int, l: int| 0 <= k < l < s.len() ==> s[k] < s[l],
    ensures
        s.len() <= n,
    decreases s.len(),
{
    if s.len() > 0 {
        let shorter = s.drop_last();
        assert(0 <= s[s.len() - 1] < n);
        assert(forall|k: int| 0 <= k < shorter.len() ==> shorter[k] == s[k]);
        assert forall|k: int| 0 <= k < shorter.len() implies 0 <= #[trigger] shorter[k] < n - 1 by {
            assert(s[k] < s[s.len() - 1]);
        }
        lemma_strictly_increasing_bound(shorter, n - 1);
    }
}

/// The characters of `a` followed by those of `b`.
pub fn join_chars(a: &Vec<char>, b: &Vec<char>) -> (whole: Vec<char>)
    ensures
        whole@ == a@ + b@,
{
    let mut whole: Vec<char> = Vec::new();
    let mut i: usize = 0;
    while i < a.len()
        invariant
            i <= a@.len(),
            whole@ == a@.take(i as int),
        decreases a@.len() - i,
    {
        whole.push(a[i]);
        i += 1;
    }
    assert(a@.take(i as int) == a@);
    let mut j: usize = 0;
    while j < b.len()
        invariant
            j <= b@.len(),
            whole@ == a@ + b@.take(j as int),
        decreases b@.len() - j,
    {
        whole.push(b[j]);
        j += 1;
    }
    assert(b@.take(j as int) == b@);
    whole
}

/// The absolute address that the link of a card stands for.
pub fn resolve_url(profile: &SiteProfile, href: &Option<String>) -> (url: Vec<char>)
    ensures
        url@ == canonical_url(profile@, opt_text(*href)),
{
    match href {
        None => Vec::new(),
        Some(link) => {
            let link = chars_of(link.as_str());
            let scheme: Vec<char> = vec!['h', 't', 't', 'p'];
            let root: Vec<char> = vec!['/'];
            assert(scheme@ == http());
            assert(root@ == slash());
            if has_prefix(&link, &scheme) {
                link
            } else if has_prefix(&link, &root) {
                join_chars(&profile.base_url, &link)
            } else if profile.joins_bare_paths {
                let home = join_chars(&profile.base_url, &root);
                join_chars(&home, &link)
            } else {
                link
            }
        },
    }
}

/// Whether `url` may be the address of a product page.
pub fn is_url_accepted(profile: &SiteProfile, url: &Vec<char>) -> (b: bool)
    ensures
        b == url_accepted(profile@, url@),
{
    url.len() > 0 && !contains_any_of(url, &profile.excluded_paths)
}

/// Every text of `raw`, as characters, without the white space around it.
pub fn trim_all(raw: &Vec<String>) -> (clean: Vec<Vec<char>>)
    ensures
        char_lists(clean@) == trimmed_all(texts(raw@)),
{
    let mut clean: Vec<Vec<char>> = Vec::new();
    let mut i: usize = 0;
    while i < raw.len()
        invariant
            i <= raw@.len(),
            char_lists(clean@) == trimmed_all(texts(raw@)).take(i as int),
        decreases raw@.len() - i,
    {
        let ghost before = char_lists(clean@);
        let text = trimmed(&chars_of(raw[i].as_str()));
        clean.push(text);
        assert(char_lists(clean@) == before.push(text@));
        i += 1;
    }
    assert(trimmed_all(texts(raw@)).take(i as int) == trimmed_all(texts(raw@)));
    clean
}

/// Reads the amount of the first of `nodes` that begins with the currency
/// prefix and has a readable price token behind it.
pub fn find_token_amount(nodes: &Vec<Vec<char>>) -> (amount: Option<u64>)
    ensures
        amount == token_amount(char_lists(nodes@), 0),
{
    let mut i: usize = 0;
    while i < nodes.len()
        invariant
            i <= nodes@.len(),
            token_amount(char_lists(nodes@), 0) == token_amount(char_lists(nodes@), i as int),
        decreases nodes@.len() - i,
    {
        if has_currency_prefix(&nodes[i]) {
            let rest = tail_of(&nodes[i], 2);
            let amount = read_price_token(&rest);
            if amount.is_some() {
                return amount;
            }
        }
        i += 1;
    }
    None
}

/// Reads the price on a card, by the rule of the site.
pub fn read_card_price(profile: &SiteProfile, card: &Card) -> (price: String)
    ensures
        price@ == card_price(profile@, card@),
        profile@.price_rule == PriceRule::Token ==> is_price_text(price@),
{
    proof {
        if profile@.price_rule == PriceRule::Token {
            lemma_token_price_is_normal(profile@, card@);
        }
    }
    let nodes = trim_all(&card.text_nodes);
    match profile.price_rule {
        PriceRule::Token => {
            let boxed = match &card.price_box {
                Some(text) => read_boxed_amount(&chars_of(text.as_str())),
                None => None,
            };
            match boxed {
                Some(n) => format_price(n),
                None => match find_token_amount(&nodes) {
                    Some(n) => format_price(n),
                    None => format_price(0),
                },
            }
        },
        PriceRule::Longest => match find_longest(profile, TextTest::ShownPrice, &nodes) {
            Some(i) => string_of(&nodes[i]),
            None => String::new(),
        },
    }
}

fn pick(texts: &Vec<Vec<char>>, at: Option<usize>) -> (text: Option<String>)
    requires
        at matches Some(i) ==> i < texts@.len(),
    ensures
        opt_text(text) == picked(
            char_lists(texts@),
            match at {
                Some(i) => Some(i as int),
                None => None,
            },
        ),
{
    match at {
        Some(i) => Some(string_of(&texts[i])),
        None => None,
    }
}

/// Reads the product that a card shows, if it shows a name and a price.
pub fn product_from_card(profile: &SiteProfile, card: &Card) -> (product: Option<Product>)
    ensures
        match product {
            Some(found) => product_of(profile@, card@) == Some(found@) && found@.complete(),
            None => product_of(profile@, card@) is None,
        },
{
    let blocks = trim_all(&card.blocks);
    let ghost shown = char_lists(blocks@);
    let name = match find_longest(profile, TextTest::Name, &blocks) {
        Some(i) => string_of(&blocks[i]),
        None => String::new(),
    };
    let price = read_card_price(profile, card);
    if name.as_str().unicode_len() == 0 || price.as_str().unicode_len() == 0 {
        return None;
    }
    let rating_at = find_first(profile, TextTest::Rating, &blocks);
    let sold_at = find_first(profile, TextTest::Sold, &blocks);
    let place_at = if profile.last_place_wins {
        find_last(profile, TextTest::Place, &blocks)
    } else {
        find_first(profile, TextTest::Place, &blocks)
    };
    proof {
        crate::rules::lemma_first_passing(profile@, TextTest::Rating, shown, 0);
        crate::rules::lemma_first_passing(profile@, TextTest::Sold, shown, 0);
        crate::rules::lemma_first_passing(profile@, TextTest::Place, shown, 0);
        crate::rules::lemma_last_passing(profile@, TextTest::Place, shown, shown.len() as int);
    }
    let image_url = match &card.image {
        Some(address) => address.clone(),
        None => String::new(),
    };
    Some(
        Product {
            name,
            price,
            rating: pick(&blocks, rating_at),
            image_url,
            product_url: string_of(&resolve_url(profile, &card.href)),
            shop_location: pick(&blocks, place_at),
            sold: pick(&blocks, sold_at),
        },
    )
}

/// Whether `seen` holds the accepted addresses of the first `n` cards and
/// no others.
pub open spec fn holds_urls_upto(
    p: SiteProfileView,
    cards: Seq<CardView>,
    n: int,
    seen: Set<Seq<char>>,
) -> bool {
    &&& forall|j: int|
        0 <= j < n && url_accepted(p, #[trigger] card_url(p, cards, j)) ==> seen.contains(
            card_url(p, cards, j),
        )
    &&& forall|url: Seq<char>| #[trigger]
        seen.contains(url) ==> exists|j: int| 0 <= j < n && #[trigger] card_url(p, cards, j) == url
}

/// An accepted address is new exactly if it is not among those seen.
proof fn lemma_new_url(p: SiteProfileView, cards: Seq<CardView>, i: int, seen: Set<Seq<char>>)
    requires
        0 <= i,
        holds_urls_upto(p, cards, i, seen),
        url_accepted(p, card_url(p, cards, i)),
    ensures
        first_of_its_url(p, cards, i) == !seen.contains(card_url(p, cards, i)),
{
    let url = card_url(p, cards, i);
    if seen.contains(url) {
        let j = choose|j: int| 0 <= j < i && #[trigger] card_url(p, cards, j) == url;
        assert(card_url(p, cards, j) == card_url(p, cards, i));
    } else {
        assert forall|j: int| 0 <= j < i implies #[trigger] card_url(p, cards, j) != url by {
            if card_url(p, cards, j) == url {
                assert(seen.contains(card_url(p, cards, j)));
            }
        }
    }
}

/// With the address of card `i` added, `seen` holds the addresses of one
/// card more; and so it does unchanged, where that address is not
/// accepted or is in it already.
proof fn lemma_url_added(p: SiteProfileView, cards: Seq<CardView>, i: int, seen: Set<Seq<char>>)
    requires
        0 <= i,
        holds_urls_upto(p, cards, i, seen),
    ensures
        holds_urls_upto(p, cards, i + 1, seen.insert(card_url(p, cards, i))),
        !url_accepted(p, card_url(p, cards, i)) || seen.contains(card_url(p, cards, i))
            ==> holds_urls_upto(p, cards, i + 1, seen),
{
    let added = card_url(p, cards, i);
    let more = seen.insert(added);
    assert forall|url: Seq<char>| #[trigger] more.contains(url) implies exists|j: int|
        0 <= j < i + 1 && #[trigger] card_url(p, cards, j) == url by {
        if seen.contains(url) {
            let j = choose|j: int| 0 <= j < i && #[trigger] card_url(p, cards, j) == url;
            assert(card_url(p, cards, j) == url);
        } else {
            assert(card_url(p, cards, i) == url);
        }
    }
    if !url_accepted(p, added) || seen.contains(added) {
        assert forall|url: Seq<char>| #[trigger] seen.contains(url) implies exists|j: int|
            0 <= j < i + 1 && #[trigger] card_url(p, cards, j) == url by {
            let j = choose|j: int| 0 <= j < i && #[trigger] card_url(p, cards, j) == url;
            assert(card_url(p, cards, j) == url);
        }
    }
}

/// Reads the products that the cards of a page show, in page order and at
/// most `limit` of them. A card gives a product if its address is
/// accepted, no earlier card had the same address, and it shows a name
/// and a price.
pub fn products_from_cards(profile: &SiteProfile, cards: &Vec<Card>, limit: usize) -> (products:
    Vec<Product>)
    ensures
        views(products@) == extracted(profile@, card_views(cards@), limit as nat),
        forall|k: int| 0 <= k < products@.len() ==> (#[trigger] products@[k])@.complete(),
        distinct_urls(views(products@)),
        products@.len() <= limit,
        products@.len() <= cards@.len(),
        profile@.price_rule == PriceRule::Token ==> forall|k: int|
            0 <= k < products@.len() ==> is_price_text((#[trigger] products@[k])@.price),
{
    let ghost p = profile@;
    let ghost shown = card_views(cards@);
    let mut products: Vec<Product> = Vec::new();
    let mut seen = StringHashSet::new();
    let mut i: usize = 0;
    while i < cards.len() && products.len() < limit
        invariant
            i <= cards@.len(),
            p == profile@,
            shown == card_views(cards@),
            products@.len() <= limit,
            views(products@) == yields_upto(p, shown, i as int),
            holds_urls_upto(p, shown, i as int, seen@),
        decreases cards@.len() - i,
    {
        let ghost before = views(products@);
        let ghost seen_before = seen@;
        let url = resolve_url(profile, &cards[i].href);
        assert(url@ == card_url(p, shown, i as int));
        let address = string_of(&url);
        let fresh = is_url_accepted(profile, &url) && !seen.contains(address.as_str());
        proof {
            lemma_url_added(p, shown, i as int, seen_before);
            if url_accepted(p, url@) {
                lemma_new_url(p, shown, i as int, seen_before);
            }
        }
        assert(fresh == (url_accepted(p, url@) && first_of_its_url(p, shown, i as int)));
        if fresh {
            match product_from_card(profile, &cards[i]) {
                Some(product) => {
                    products.push(product);
                    assert(views(products@) == before.push(product@));
                },
                None => {},
            }
            seen.insert(address);
        }
        i += 1;
    }
    proof {
        let all = yields_upto(p, shown, shown.len() as int);
        lemma_yields_grow(p, shown, i as int, shown.len() as int);
        if i < cards@.len() {
            assert(all.take(limit as int) == views(products@));
        }
        assert(views(products@) == extracted(p, shown, limit as nat));
        lemma_extracted_sound(p, shown, limit as nat);
        assert forall|k: int| 0 <= k < products@.len() implies (#[trigger] products@[k])@.complete() by {
            assert(views(products@)[k] == products@[k]@);
        }
        if p.price_rule == PriceRule::Token {
            lemma_extracted_prices(p, shown, limit as nat);
            assert forall|k: int| 0 <= k < products@.len() implies is_price_text(
                (#[trigger] products@[k])@.price,
            ) by {
                assert(views(products@)[k] == products@[k]@);
            }
        }
    }
    products
}

} // verus!
