//! Reading result cards out of page markup.
//!
//! The markup is parsed and queried with CSS selectors by the `scraper`
//! crate. What it finds is copied into plain records, and everything that
//! is decided about a card is decided on those records.

use vstd::prelude::*;
use vstd::string::StringExecFns;
use crate::text::{copy_text, opt_text, texts};

verus! {

/// What is read from one element of a page.
#[derive(Debug)]
pub struct Element {
    /// Its `href` attribute.
    pub href: Option<String>,
    /// Its `src` attribute.
    pub src: Option<String>,
    /// Its `data-src` attribute, which holds the address of an image that
    /// is loaded late.
    pub lazy_src: Option<String>,
    /// The text nodes below it, in document order.
    pub text_nodes: Vec<String>,
}

/// An element as plain text values.
pub struct ElementView {
    pub href: Option<Seq<char>>,
    pub src: Option<Seq<char>>,
    pub lazy_src: Option<Seq<char>>,
    pub text_nodes: Seq<Seq<char>>,
}

impl View for Element {
    type V = ElementView;

    open spec fn view(&self) -> ElementView {
        ElementView {
            href: opt_text(self.href),
            src: opt_text(self.src),
            lazy_src: opt_text(self.lazy_src),
            text_nodes: texts(self.text_nodes@),
        }
    }
}

/// The elements of a list as plain values.
pub open spec fn element_views(v: Seq<Element>) -> Seq<ElementView> {
    v.map_values(|e: Element| e@)
}

/// The elements of a list of lists as plain values.
pub open spec fn nested_views(v: Seq<Vec<Element>>) -> Seq<Seq<ElementView>> {
    v.map_values(|inner: Vec<Element>| element_views(inner@))
}

/// The elements of the document `html` that match the CSS selector
/// `selector`, in the order in which the parser yields them; `None` where
/// `selector` is no valid selector.
pub uninterp spec fn html_elements(html: Seq<char>, selector: Seq<char>) -> Option<
    Seq<ElementView>,
>;

/// For each element of the document `html` that matches `outer`, the
/// elements below it that match `inner`, in document order; `None` where
/// one of the two is no valid selector.
pub uninterp spec fn html_elements_within(
    html: Seq<char>,
    outer: Seq<char>,
    inner: Seq<char>,
) -> Option<Seq<Seq<ElementView>>>;

/// Parses `html` as a document with `scraper::Html::parse_document`,
/// parses `selector` with `scraper::Selector::parse`, and copies the
/// attributes and text nodes of every element that `Html::select` yields.
/// The parser accepts any text; an invalid selector gives `None`.
#[verifier::external_body]
fn select_elements(html: &str, selector: &str) -> (found: Option<Vec<Element>>)
    ensures
        match found {
            Some(list) => html_elements(html@, selector@) == Some(element_views(list@)),
            None => html_elements(html@, selector@) is None,
        },
{
    let document = ::scraper::Html::parse_document(html);
    let selector = ::scraper::Selector::parse(selector).ok()?;
    Some(
        document.select(&selector).map(
            |e|
                Element {
                    href: e.attr("href").map(String::from),
                    src: e.attr("src").map(String::from),
                    lazy_src: e.attr("data-src").map(String::from),
                    text_nodes: e.text().map(String::from).collect(),
                },
        ).collect(),
    )
}

/// Parses `html` as a document with `scraper::Html::parse_document` and
/// the two selectors with `scraper::Selector::parse`. For every element
/// that `Html::select` yields for `outer`, copies the attributes and text
/// nodes of every element that `ElementRef::select` yields below it for
/// `inner`. An invalid selector gives `None`.
#[verifier::external_body]
fn select_elements_within(html: &str, outer: &str, inner: &str) -> (found: Option<
    Vec<Vec<Element>>,
>)
    ensures
        match found {
            Some(lists) => html_elements_within(html@, outer@, inner@) == Some(
                nested_views(lists@),
            ),
            None => html_elements_within(html@, outer@, inner@) is None,
        },
{
    let document = ::scraper::Html::parse_document(html);
    let outer = ::scraper::Selector::parse(outer).ok()?;
    let inner = ::scraper::Selector::parse(inner).ok()?;
    let copy = |e: ::scraper::ElementRef| Element {
        href: e.attr("href").map(String::from),
        src: e.attr("src").map(String::from),
        lazy_src: e.attr("data-src").map(String::from),
        text_nodes: e.text().map(String::from).collect(),
    };
    Some(document.select(&outer).map(|o| o.select(&inner).map(copy).collect()).collect())
}

/// How many elements of the page `html` match `selector`; none where
/// `selector` is no valid selector.
pub open spec fn element_count(html: Seq<char>, selector: Seq<char>) -> nat {
    match html_elements(html, selector) {
        Some(found) => found.len(),
        None => 0,
    }
}

/// Counts the elements of a page that match a selector.
pub fn count_elements(html: &str, selector: &str) -> (count: usize)
    ensures
        count == element_count(html@, selector@),
{
    match select_elements(html, selector) {
        Some(found) => found.len(),
        None => 0,
    }
}

/// The parts of a text written one behind the other.
pub open spec fn joined(parts: Seq<Seq<char>>) -> Seq<char>
    decreases parts.len(),
{
    if parts.len() == 0 {
        Seq::empty()
    } else {
        joined(parts.drop_last()) + parts.last()
    }
}

/// Writes the strings of `parts` one behind the other.
pub fn join(parts: &Vec<String>) -> (whole: String)
    ensures
        whole@ == joined(texts(parts@)),
{
    let mut whole = String::new();
    let mut i: usize = 0;
    while i < parts.len()
        invariant
            i <= parts@.len(),
            whole@ == joined(texts(parts@).take(i as int)),
        decreases parts@.len() - i,
    {
        assert(texts(parts@).take(i + 1).drop_last() == texts(parts@).take(i as int));
        whole.append(parts[i].as_str());
        i += 1;
    }
    assert(texts(parts@).take(i as int) == texts(parts@));
    whole
}

/// The selectors that find the result cards of a site and the parts of a
/// card.
#[derive(Debug)]
pub struct CardSelectors {
    /// Finds the cards, one element per product.
    pub card: String,
    /// Finds, inside a card, the elements whose text is read.
    pub block: String,
    /// Finds, inside a card, the element that holds the price to pay, on
    /// sites that have one.
    pub price_box: Option<String>,
    /// Finds, inside a card, the product image.
    pub image: String,
}

/// Selectors as plain text values.
pub struct CardSelectorsView {
    pub card: Seq<char>,
    pub block: Seq<char>,
    pub price_box: Option<Seq<char>>,
    pub image: Seq<char>,
}

impl View for CardSelectors {
    type V = CardSelectorsView;

    open spec fn view(&self) -> CardSelectorsView {
        CardSelectorsView {
            card: self.card@,
            block: self.block@,
            price_box: opt_text(self.price_box),
            image: self.image@,
        }
    }
}

/// One result card: the repeated element of a search-result page that
/// shows one product.
#[derive(Debug)]
pub struct Card {
    /// The `href` attribute of the card.
    pub href: Option<String>,
    /// Every text node inside the card, in document order.
    pub text_nodes: Vec<String>,
    /// The whole text of each text-bearing element inside the card, in
    /// document order.
    pub blocks: Vec<String>,
    /// The whole text of the first element that holds the price to pay.
    pub price_box: Option<String>,
    /// The address of the first image: its `src` attribute, or else its
    /// `data-src` attribute.
    pub image: Option<String>,
}

/// A card as plain text values.
pub struct CardView {
    pub href: Option<Seq<char>>,
    pub text_nodes: Seq<Seq<char>>,
    pub blocks: Seq<Seq<char>>,
    pub price_box: Option<Seq<char>>,
    pub image: Option<Seq<char>>,
}

impl View for Card {
    type V = CardView;

    open spec fn view(&self) -> CardView {
        CardView {
            href: opt_text(self.href),
            text_nodes: texts(self.text_nodes@),
            blocks: texts(self.blocks@),
            price_box: opt_text(self.price_box),
            image: opt_text(self.image),
        }
    }
}

/// The cards of a list as plain values.
pub open spec fn card_views(v: Seq<Card>) -> Seq<CardView> {
    v.map_values(|c: Card| c@)
}

/// The whole text of each of `elements`.
pub open spec fn block_texts(elements: Seq<ElementView>) -> Seq<Seq<char>> {
    elements.map_values(|e: ElementView| joined(e.text_nodes))
}

/// The whole text of the first of `elements`.
pub open spec fn first_text(elements: Seq<ElementView>) -> Option<Seq<char>> {
    if elements.len() > 0 {
        Some(joined(elements[0].text_nodes))
    } else {
        None
    }
}

/// The image address of the first of `elements`: its `src`, or else its
/// `data-src`.
pub open spec fn first_image(elements: Seq<ElementView>) -> Option<Seq<char>> {
    if elements.len() > 0 {
        match elements[0].src {
            Some(src) => Some(src),
            None => elements[0].lazy_src,
        }
    } else {
        None
    }
}

/// The entry of `lists` for card `i`; empty where there is none.
pub open spec fn row(lists: Option<Seq<Seq<ElementView>>>, i: int) -> Seq<ElementView> {
    match lists {
        Some(lists) => if 0 <= i < lists.len() {
            lists[i]
        } else {
            Seq::empty()
        },
        None => Seq::empty(),
    }
}

/// What is found inside the cards of `html` for an optional selector.
pub open spec fn optional_within(html: Seq<char>, outer: Seq<char>, inner: Option<Seq<char>>)
    -> Option<Seq<Seq<ElementView>>> {
    match inner {
        Some(inner) => html_elements_within(html, outer, inner),
        None => None,
    }
}

/// The result cards of the page `html`, in the order in which the page is
/// read. A page on which the card selector is not valid has none.
pub open spec fn page_cards(html: Seq<char>, selectors: CardSelectorsView) -> Seq<CardView> {
    match html_elements(html, selectors.card) {
        Some(cards) => Seq::new(
            cards.len(),
            |i: int|
                CardView {
                    href: cards[i].href,
                    text_nodes: cards[i].text_nodes,
                    blocks: block_texts(
                        row(html_elements_within(html, selectors.card, selectors.block), i),
                    ),
                    price_box: first_text(
                        row(optional_within(html, selectors.card, selectors.price_box), i),
                    ),
                    image: first_image(
                        row(html_elements_within(html, selectors.card, selectors.image), i),
                    ),
                },
        ),
        None => Seq::empty(),
    }
}

fn clone_texts(v: &Vec<String>) -> (copy: Vec<String>)
    ensures
        copy@ == v@,
{
    let mut copy: Vec<String> = Vec::new();
    let mut i: usize = 0;
    while i < v.len()
        invariant
            i <= v@.len(),
            copy@ == v@.take(i as int),
        decreases v@.len() - i,
    {
        copy.push(v[i].clone());
        i += 1;
    }
    assert(v@.take(i as int) == v@);
    copy
}

fn block_texts_of(elements: &Vec<Element>) -> (blocks: Vec<String>)
    ensures
        texts(blocks@) == block_texts(element_views(elements@)),
{
    let mut blocks: Vec<String> = Vec::new();
    let mut i: usize = 0;
    while i < elements.len()
        invariant
            i <= elements@.len(),
            texts(blocks@) == block_texts(element_views(elements@)).take(i as int),
        decreases elements@.len() - i,
    {
        let ghost before = texts(blocks@);
        let text = join(&elements[i].text_nodes);
        blocks.push(text);
        assert(texts(blocks@) == before.push(text@));
        i += 1;
    }
    assert(block_texts(element_views(elements@)).take(i as int) == block_texts(
        element_views(elements@),
    ));
    blocks
}

fn first_text_of(elements: &Vec<Element>) -> (text: Option<String>)
    ensures
        opt_text(text) == first_text(element_views(elements@)),
{
    if elements.len() > 0 {
        Some(join(&elements[0].text_nodes))
    } else {
        None
    }
}

fn first_image_of(elements: &Vec<Element>) -> (address: Option<String>)
    ensures
        opt_text(address) == first_image(element_views(elements@)),
{
    if elements.len() > 0 {
        match &elements[0].src {
            Some(src) => Some(src.clone()),
            None => copy_text(&elements[0].lazy_src),
        }
    } else {
        None
    }
}

/// The named entry of `lists` for card `i`, as `row` gives it.
pub open spec fn row_of_lists(lists: Option<Vec<Vec<Element>>>, i: int) -> Seq<ElementView> {
    match lists {
        Some(lists) => if 0 <= i < lists@.len() {
            element_views(lists@[i]@)
        } else {
            Seq::empty()
        },
        None => Seq::empty(),
    }
}

fn block_row(lists: &Option<Vec<Vec<Element>>>, i: usize) -> (blocks: Vec<String>)
    ensures
        texts(blocks@) == block_texts(row_of_lists(*lists, i as int)),
{
    match lists {
        Some(lists) => if i < lists.len() {
            block_texts_of(&lists[i])
        } else {
            let empty: Vec<String> = Vec::new();
            assert(texts(empty@) == block_texts(Seq::<ElementView>::empty()));
            empty
        },
        None => {
            let empty: Vec<String> = Vec::new();
            assert(texts(empty@) == block_texts(Seq::<ElementView>::empty()));
            empty
        },
    }
}

fn text_row(lists: &Option<Vec<Vec<Element>>>, i: usize) -> (text: Option<String>)
    ensures
        opt_text(text) == first_text(row_of_lists(*lists, i as int)),
{
    match lists {
        Some(lists) => if i < lists.len() {
            first_text_of(&lists[i])
        } else {
            None
        },
        None => None,
    }
}

fn image_row(lists: &Option<Vec<Vec<Element>>>, i: usize) -> (address: Option<String>)
    ensures
        opt_text(address) == first_image(row_of_lists(*lists, i as int)),
{
    match lists {
        Some(lists) => if i < lists.len() {
            first_image_of(&lists[i])
        } else {
            None
        },
        None => None,
    }
}

/// Reads the result cards of a page.
pub fn select_cards(html: &str, selectors: &CardSelectors) -> (cards: Vec<Card>)
    ensures
        card_views(cards@) == page_cards(html@, selectors@),
{
    let mut cards: Vec<Card> = Vec::new();
    let found = select_elements(html, selectors.card.as_str());
    let elements = match found {
        Some(elements) => elements,
        None => {
            assert(card_views(cards@) == Seq::<CardView>::empty());
            return cards;
        },
    };
    let blocks = select_elements_within(html, selectors.card.as_str(), selectors.block.as_str());
    let boxes = match &selectors.price_box {
        Some(price_box) => select_elements_within(
            html,
            selectors.card.as_str(),
            price_box.as_str(),
        ),
        None => None,
    };
    let images = select_elements_within(html, selectors.card.as_str(), selectors.image.as_str());
    let ghost goal = page_cards(html@, selectors@);
    assert(goal.len() == elements@.len());
    let mut i: usize = 0;
    while i < elements.len()
        invariant
            i <= elements@.len(),
            goal == page_cards(html@, selectors@),
            goal.len() == elements@.len(),
            html_elements(html@, selectors@.card) == Some(element_views(elements@)),
            forall|k: int|
                row(html_elements_within(html@, selectors@.card, selectors@.block), k)
                    == row_of_lists(blocks, k),
            forall|k: int|
                row(optional_within(html@, selectors@.card, selectors@.price_box), k)
                    == row_of_lists(boxes, k),
            forall|k: int|
                row(html_elements_within(html@, selectors@.card, selectors@.image), k)
                    == row_of_lists(images, k),
            card_views(cards@) == goal.take(i as int),
        decreases elements@.len() - i,
    {
        let ghost before = card_views(cards@);
        let card = Card {
            href: copy_text(&elements[i].href),
            text_nodes: clone_texts(&elements[i].text_nodes),
            blocks: block_row(&blocks, i),
            price_box: text_row(&boxes, i),
            image: image_row(&images, i),
        };
        assert(card@ == goal[i as int]);
        cards.push(card);
        assert(card_views(cards@) == before.push(card@));
        i += 1;
    }
    assert(goal.take(i as int) == goal);
    cards
}

} // verus!
