//! Products from the structured data that a page embeds.
//!
//! Some pages carry the data they were rendered from as a JSON document
//! inside a script block. The document is searched for lists of
//! product-shaped objects, and the first list that gives a product gives
//! the result.

use vstd::hash_set::StringHashSet;
use vstd::prelude::*;
use vstd::string::StrSliceExecFns;
use crate::extract::{canonical_url, capped, join_chars, resolve_url};
use crate::json::{
    item_views, json_of, lemma_array_view, lemma_object_view, member_views, parse_json, JsonMember,
    JsonValue, JsonView, MemberView,
};
use crate::price::{all_digits, currency_prefix, number, parse_digits};
use crate::profile::{SiteProfile, SiteProfileView};
use crate::rules::{decimal_rating, is_decimal_rating};
use crate::scraper::scraper_model::{views, Product, ProductView};
use crate::text::{
    chars_of, find_from, first_occurrence, opt_text, slice_of, string_of, tail_of, texts, trim,
    trimmed,
};

verus! {

/// The word that marks the script block with the embedded data.
pub open spec fn marker() -> Seq<char> {
    "__NEXT_DATA__"@
}

/// The end of a script block.
pub open spec fn script_end() -> Seq<char> {
    "</script>"@
}

/// The character that ends a tag.
pub open spec fn tag_end() -> Seq<char> {
    seq!['>']
}

/// `s` up to the first occurrence of `pat`; all of `s` where there is none.
pub open spec fn until(s: Seq<char>, pat: Seq<char>) -> Seq<char> {
    match first_occurrence(s, pat, 0) {
        Some(i) => s.take(i),
        None => s,
    }
}

/// `s` behind the first occurrence of `pat`.
pub open spec fn after_first(s: Seq<char>, pat: Seq<char>) -> Option<Seq<char>> {
    match first_occurrence(s, pat, 0) {
        Some(i) => Some(s.skip(i + pat.len())),
        None => None,
    }
}

/// The text of the embedded data in the page `html`. The marker names
/// the script block that holds the data: the opening tag of the block ends
/// with the first `>` behind the first marker, and the data is what stands
/// between that and the end of the block, or the end of the page where the
/// block is not closed, without the white space around it. A page without
/// marker, or without a `>` behind it, has none.
pub open spec fn payload_text(html: Seq<char>) -> Option<Seq<char>> {
    match after_first(html, marker()) {
        Some(rest) => match after_first(rest, tag_end()) {
            Some(body) => Some(trim(until(body, script_end()))),
            None => None,
        },
        None => None,
    }
}

fn cut_until(s: &Vec<char>, pat: &Vec<char>) -> (head: Vec<char>)
    ensures
        head@ == until(s@, pat@),
{
    match find_from(s, pat, 0) {
        Some(i) => {
            assert(s@.subrange(0, i as int) == s@.take(i as int));
            slice_of(s, 0, i)
        },
        None => {
            assert(s@.subrange(0, s@.len() as int) == s@);
            slice_of(s, 0, s.len())
        },
    }
}

fn cut_behind(s: &Vec<char>, pat: &Vec<char>) -> (rest: Option<Vec<char>>)
    ensures
        match rest {
            Some(rest) => after_first(s@, pat@) == Some(rest@),
            None => after_first(s@, pat@) is None,
        },
{
    match find_from(s, pat, 0) {
        Some(i) => {
            let n = s.len();
            Some(tail_of(s, i + pat.len()))
        },
        None => None,
    }
}

/// Finds the text of the embedded data in a page.
pub fn locate_payload(html: &str) -> (payload: Option<String>)
    ensures
        opt_text(payload) == payload_text(html@),
{
    let page = chars_of(html);
    let mark = chars_of("__NEXT_DATA__");
    let close: Vec<char> = vec!['>'];
    let end = chars_of("</script>");
    assert(close@ == tag_end());
    let rest = match cut_behind(&page, &mark) {
        Some(rest) => rest,
        None => {
            return None;
        },
    };
    match cut_behind(&rest, &close) {
        Some(body) => Some(string_of(&trimmed(&cut_until(&body, &end)))),
        None => None,
    }
}

/// The position of the first member of `members`, at or after `from`,
/// with the key `key`.
pub open spec fn member_at(members: Seq<MemberView>, key: Seq<char>, from: int) -> Option<int>
    decreases members.len() - from,
{
    if from < 0 || from >= members.len() {
        None
    } else if members[from].key == key {
        Some(from)
    } else {
        member_at(members, key, from + 1)
    }
}

/// The value that `members` holds under `key`.
pub open spec fn member_value(members: Seq<MemberView>, key: Seq<char>) -> Option<JsonView> {
    match member_at(members, key, 0) {
        Some(i) => Some(members[i].value),
        None => None,
    }
}

/// The fields of a product that are looked up in an object.
#[derive(Debug, Clone, Copy, PartialEq, Eq, Structural)]
pub enum Field {
    /// The name: a string of at least three characters.
    Name,
    /// The price: a string that is not empty, or a whole number, which is
    /// shown with the currency prefix before it.
    Price,
    /// The rating: a string or a number that reads as a decimal number of
    /// at most five.
    Rating,
    /// An address or a place: any string.
    Plain,
    /// The sold count: a string or a whole number.
    Sold,
}

/// Whether `n` is a whole number that fits in a signed 64-bit integer:
/// decimal digits, with a minus sign before them or none.
pub open spec fn whole_number(n: Seq<char>) -> bool {
    if n.len() > 0 && n[0] == '-' {
        n.len() > 1 && all_digits(n.skip(1)) && number(n.skip(1)) <= 0x8000_0000_0000_0000
    } else {
        n.len() > 0 && all_digits(n) && number(n) <= 0x7fff_ffff_ffff_ffff
    }
}

/// The text that the value `v` gives for the field `field`, if it can be
/// used for it.
pub open spec fn usable(field: Field, v: JsonView) -> Option<Seq<char>> {
    match field {
        Field::Name => match v {
            JsonView::Text(s) => if s.len() >= 3 {
                Some(s)
            } else {
                None
            },
            _ => None,
        },
        Field::Price => match v {
            JsonView::Text(s) => if s.len() > 0 {
                Some(s)
            } else {
                None
            },
            JsonView::Number(n) => if whole_number(n) {
                Some(currency_prefix() + n)
            } else {
                None
            },
            _ => None,
        },
        Field::Rating => match v {
            JsonView::Text(s) => if decimal_rating(s) {
                Some(s)
            } else {
                None
            },
            JsonView::Number(n) => if decimal_rating(n) {
                Some(n)
            } else {
                None
            },
            _ => None,
        },
        Field::Plain => match v {
            JsonView::Text(s) => Some(s),
            _ => None,
        },
        Field::Sold => match v {
            JsonView::Text(s) => Some(s),
            JsonView::Number(n) => if whole_number(n) {
                Some(n)
            } else {
                None
            },
            _ => None,
        },
    }
}

/// The text of the first of `keys`, at or after position `from`, under
/// which `members` holds a value that can be used for `field`.
pub open spec fn first_usable(
    members: Seq<MemberView>,
    keys: Seq<Seq<char>>,
    field: Field,
    from: int,
) -> Option<Seq<char>>
    decreases keys.len() - from,
{
    if from < 0 || from >= keys.len() {
        None
    } else {
        match member_value(members, keys[from]) {
            Some(v) => match usable(field, v) {
                Some(text) => Some(text),
                None => first_usable(members, keys, field, from + 1),
            },
            None => first_usable(members, keys, field, from + 1),
        }
    }
}

/// Whether `n` is a whole number that fits in a signed 64-bit integer.
pub fn is_whole_number(n: &Vec<char>) -> (b: bool)
    ensures
        b == whole_number(n@),
{
    if n.len() > 0 && n[0] == '-' {
        let digits = tail_of(n, 1);
        match parse_digits(&digits) {
            Some(value) => value <= 0x8000_0000_0000_0000,
            None => false,
        }
    } else {
        match parse_digits(n) {
            Some(value) => value <= 0x7fff_ffff_ffff_ffff,
            None => false,
        }
    }
}

/// The text that a value gives for a field, if it can be used for it.
pub fn usable_text(field: Field, value: &JsonValue) -> (text: Option<String>)
    ensures
        opt_text(text) == usable(field, value@),
{
    match value {
        JsonValue::Text(s) => {
            let keep = match field {
                Field::Name => s.as_str().unicode_len() >= 3,
                Field::Price => s.as_str().unicode_len() > 0,
                Field::Rating => is_decimal_rating(&chars_of(s.as_str())),
                Field::Plain => true,
                Field::Sold => true,
            };
            if keep {
                Some(s.clone())
            } else {
                None
            }
        },
        JsonValue::Number(n) => {
            let digits = chars_of(n.as_str());
            match field {
                Field::Price => if is_whole_number(&digits) {
                    let rp: Vec<char> = vec!['R', 'p'];
                    assert(rp@ == currency_prefix());
                    Some(string_of(&join_chars(&rp, &digits)))
                } else {
                    None
                },
                Field::Rating => if is_decimal_rating(&digits) {
                    Some(n.clone())
                } else {
                    None
                },
                Field::Sold => if is_whole_number(&digits) {
                    Some(n.clone())
                } else {
                    None
                },
                _ => None,
            }
        },
        _ => None,
    }
}

/// The value that an object holds under a key.
pub fn member<'a>(members: &'a Vec<JsonMember>, key: &String) -> (found: Option<&'a JsonValue>)
    ensures
        match found {
            Some(value) => member_value(member_views(members@), key@) == Some(value@),
            None => member_value(member_views(members@), key@) is None,
        },
{
    let mut i: usize = 0;
    while i < members.len()
        invariant
            i <= members@.len(),
            member_at(member_views(members@), key@, 0) == member_at(
                member_views(members@),
                key@,
                i as int,
            ),
        decreases members@.len() - i,
    {
        if members[i].key == *key {
            return Some(&members[i].value);
        }
        i += 1;
    }
    None
}

/// The text of the first of `keys` under which an object holds a value
/// that can be used for `field`.
pub fn find_usable(members: &Vec<JsonMember>, keys: &Vec<String>, field: Field) -> (text: Option<
    String,
>)
    ensures
        opt_text(text) == first_usable(member_views(members@), texts(keys@), field, 0),
{
    let mut k: usize = 0;
    while k < keys.len()
        invariant
            k <= keys@.len(),
            first_usable(member_views(members@), texts(keys@), field, 0) == first_usable(
                member_views(members@),
                texts(keys@),
                field,
                k as int,
            ),
        decreases keys@.len() - k,
    {
        match member(members, &keys[k]) {
            Some(value) => {
                let text = usable_text(field, value);
                if text.is_some() {
                    return text;
                }
            },
            None => {},
        }
        k += 1;
    }
    None
}

/// The keys under which the fields of a product are looked up, each list
/// in the order in which its keys are tried.
#[derive(Debug)]
pub struct ProductKeys {
    /// Keys of which a product-shaped object has at least one.
    pub indicators: Vec<String>,
    /// Keys of the name.
    pub name: Vec<String>,
    /// Keys of the price.
    pub price: Vec<String>,
    /// Keys of the rating.
    pub rating: Vec<String>,
    /// Keys of the image address.
    pub image: Vec<String>,
    /// Keys of the product address.
    pub url: Vec<String>,
    /// Key of the object that describes the shop.
    pub shop: String,
    /// Key of the location inside the shop object.
    pub shop_location: String,
    /// Keys of the shop location beside the shop object.
    pub location: Vec<String>,
    /// Keys of the sold count.
    pub sold: Vec<String>,
}

/// Product keys as plain values.
pub struct ProductKeysView {
    pub indicators: Seq<Seq<char>>,
    pub name: Seq<Seq<char>>,
    pub price: Seq<Seq<char>>,
    pub rating: Seq<Seq<char>>,
    pub image: Seq<Seq<char>>,
    pub url: Seq<Seq<char>>,
    pub shop: Seq<char>,
    pub shop_location: Seq<char>,
    pub location: Seq<Seq<char>>,
    pub sold: Seq<Seq<char>>,
}

impl View for ProductKeys {
    type V = ProductKeysView;

    open spec fn view(&self) -> ProductKeysView {
        ProductKeysView {
            indicators: texts(self.indicators@),
            name: texts(self.name@),
            price: texts(self.price@),
            rating: texts(self.rating@),
            image: texts(self.image@),
            url: texts(self.url@),
            shop: self.shop@,
            shop_location: self.shop_location@,
            location: texts(self.location@),
            sold: texts(self.sold@),
        }
    }
}

/// The keys in common use.
pub open spec fn standard_keys() -> ProductKeysView {
    ProductKeysView {
        indicators: seq!["name"@, "title"@, "id"@, "productName"@, "product_name"@],
        name: seq!["name"@, "title"@, "product_name"@, "productName"@],
        price: seq!["price"@, "priceInt"@, "product_price"@],
        rating: seq!["rating"@, "ratingScore"@],
        image: seq!["imageUrl"@, "image"@, "imageURL"@],
        url: seq!["url"@, "link"@, "productUrl"@],
        shop: "shop"@,
        shop_location: "location"@,
        location: seq!["shopLocation"@, "location"@],
        sold: seq!["sold"@, "soldCount"@, "totalSold"@],
    }
}

impl ProductKeys {
    /// The keys in common use.
    pub fn standard() -> (keys: Self)
        ensures
            keys@ == standard_keys(),
    {
        let keys = ProductKeys {
            indicators: vec![
                "name".to_owned(),
                "title".to_owned(),
                "id".to_owned(),
                "productName".to_owned(),
                "product_name".to_owned(),
            ],
            name: vec![
                "name".to_owned(),
                "title".to_owned(),
                "product_name".to_owned(),
                "productName".to_owned(),
            ],
            price: vec!["price".to_owned(), "priceInt".to_owned(), "product_price".to_owned()],
            rating: vec!["rating".to_owned(), "ratingScore".to_owned()],
            image: vec!["imageUrl".to_owned(), "image".to_owned(), "imageURL".to_owned()],
            url: vec!["url".to_owned(), "link".to_owned(), "productUrl".to_owned()],
            shop: "shop".to_owned(),
            shop_location: "location".to_owned(),
            location: vec!["shopLocation".to_owned(), "location".to_owned()],
            sold: vec!["sold".to_owned(), "soldCount".to_owned(), "totalSold".to_owned()],
        };
        assert(keys@.indicators == standard_keys().indicators);
        assert(keys@.name == standard_keys().name);
        assert(keys@.price == standard_keys().price);
        assert(keys@.rating == standard_keys().rating);
        assert(keys@.image == standard_keys().image);
        assert(keys@.url == standard_keys().url);
        assert(keys@.location == standard_keys().location);
        assert(keys@.sold == standard_keys().sold);
        keys
    }
}

/// The location that the shop object of `members` names.
pub open spec fn shop_location(keys: ProductKeysView, members: Seq<MemberView>) -> Option<
    Seq<char>,
> {
    match member_value(members, keys.shop) {
        Some(JsonView::Object(shop)) => match member_value(shop, keys.shop_location) {
            Some(v) => usable(Field::Plain, v),
            None => None,
        },
        _ => None,
    }
}

/// The text of `found`; empty where there is none.
pub open spec fn or_empty(found: Option<Seq<char>>) -> Seq<char> {
    match found {
        Some(text) => text,
        None => Seq::empty(),
    }
}

/// The product that the object with the members `members` describes, if
/// it gives a name and a price. A price that is a number is shown with the
/// currency prefix before its digits, without grouping.
pub open spec fn object_product(
    p: SiteProfileView,
    keys: ProductKeysView,
    members: Seq<MemberView>,
) -> Option<ProductView> {
    match (
        first_usable(members, keys.name, Field::Name, 0),
        first_usable(members, keys.price, Field::Price, 0),
    ) {
        (Some(name), Some(price)) => Some(
            ProductView {
                name,
                price,
                rating: first_usable(members, keys.rating, Field::Rating, 0),
                image_url: or_empty(first_usable(members, keys.image, Field::Plain, 0)),
                product_url: canonical_url(p, first_usable(members, keys.url, Field::Plain, 0)),
                shop_location: match shop_location(keys, members) {
                    Some(place) => Some(place),
                    None => first_usable(members, keys.location, Field::Plain, 0),
                },
                sold: first_usable(members, keys.sold, Field::Sold, 0),
            },
        ),
        _ => None,
    }
}

/// The product that the value `v` describes, if it is an object that
/// gives a name and a price.
pub open spec fn value_product(p: SiteProfileView, keys: ProductKeysView, v: JsonView) -> Option<
    ProductView,
> {
    match v {
        JsonView::Object(members) => object_product(p, keys, members),
        _ => None,
    }
}

/// Whether `members` holds one of `keys`, at or after position `from`.
pub open spec fn holds_any(members: Seq<MemberView>, keys: Seq<Seq<char>>, from: int) -> bool
    decreases keys.len() - from,
{
    if from < 0 || from >= keys.len() {
        false
    } else {
        member_value(members, keys[from]) is Some || holds_any(members, keys, from + 1)
    }
}

/// Whether `items` is a list of products by its looks: its first item is
/// an object that holds one of the indicating keys.
pub open spec fn is_candidate(keys: ProductKeysView, items: Seq<JsonView>) -> bool {
    items.len() > 0 && match items[0] {
        JsonView::Object(members) => holds_any(members, keys.indicators, 0),
        _ => false,
    }
}

/// The products that the first `n` of `items` describe, in order.
pub open spec fn listed(p: SiteProfileView, keys: ProductKeysView, items: Seq<JsonView>, n: int)
    -> Seq<ProductView>
    decreases n,
{
    if n <= 0 || n > items.len() {
        Seq::empty()
    } else {
        match value_product(p, keys, items[n - 1]) {
            Some(product) => listed(p, keys, items, n - 1).push(product),
            None => listed(p, keys, items, n - 1),
        }
    }
}

/// Whether the product at position `i` is kept: it has no address, or no
/// product before it has the same address.
pub open spec fn is_kept(all: Seq<ProductView>, i: int) -> bool {
    all[i].product_url.len() == 0 || forall|j: int|
        0 <= j < i ==> (#[trigger] all[j]).product_url != all[i].product_url
}

/// The first `n` of `all` without those that repeat the address of an
/// earlier product; of products with the same address the first stays.
pub open spec fn unique_upto(all: Seq<ProductView>, n: int) -> Seq<ProductView>
    decreases n,
{
    if n <= 0 || n > all.len() {
        Seq::empty()
    } else if is_kept(all, n - 1) {
        unique_upto(all, n - 1).push(all[n - 1])
    } else {
        unique_upto(all, n - 1)
    }
}

/// The products of the list `items`, none where it does not look like a
/// list of products.
pub open spec fn candidate_products(p: SiteProfileView, keys: ProductKeysView, items: Seq<JsonView>)
    -> Seq<ProductView> {
    if is_candidate(keys, items) {
        let all = listed(p, keys, items, items.len() as int);
        unique_upto(all, all.len() as int)
    } else {
        Seq::empty()
    }
}

/// The products of the first list in `v` that looks like a list of
/// products and gives at least one. The document is read from the top:
/// a list comes before the lists inside it, and those come in the order
/// of their places.
pub open spec fn found_in(p: SiteProfileView, keys: ProductKeysView, v: JsonView) -> Option<
    Seq<ProductView>,
>
    decreases v, 0nat,
{
    match v {
        JsonView::Array(items) => if candidate_products(p, keys, items).len() > 0 {
            Some(candidate_products(p, keys, items))
        } else {
            found_among(p, keys, items, 0)
        },
        JsonView::Object(members) => found_under(p, keys, members, 0),
        _ => None,
    }
}

/// What `found_in` gives for the first of `items`, at or after `from`,
/// for which it gives anything.
pub open spec fn found_among(
    p: SiteProfileView,
    keys: ProductKeysView,
    items: Seq<JsonView>,
    from: int,
) -> Option<Seq<ProductView>>
    decreases items, items.len() - from,
{
    if from < 0 || from >= items.len() {
        None
    } else {
        match found_in(p, keys, items[from]) {
            Some(products) => Some(products),
            None => found_among(p, keys, items, from + 1),
        }
    }
}

/// What `found_in` gives for the value of the first of `members`, at or
/// after `from`, for which it gives anything.
pub open spec fn found_under(
    p: SiteProfileView,
    keys: ProductKeysView,
    members: Seq<MemberView>,
    from: int,
) -> Option<Seq<ProductView>>
    decreases members, members.len() - from,
{
    if from < 0 || from >= members.len() {
        None
    } else {
        match found_in(p, keys, members[from].value) {
            Some(products) => Some(products),
            None => found_under(p, keys, members, from + 1),
        }
    }
}

/// The products that the structured data of the page `html` gives, at
/// most `limit` of them; `None` where the page embeds no data, the data
/// is no JSON document, or no list in it gives a product.
pub open spec fn structured_products(
    p: SiteProfileView,
    keys: ProductKeysView,
    html: Seq<char>,
    limit: nat,
) -> Option<Seq<ProductView>> {
    match payload_text(html) {
        Some(text) => match json_of(text) {
            Some(document) => match found_in(p, keys, document) {
                Some(products) => Some(capped(products, limit)),
                None => None,
            },
            None => None,
        },
        None => None,
    }
}

/// Whether every product of `list` has a name, a price and, if it has a
/// rating, one of at most five, and no two that have an address have the
/// same.
pub open spec fn sound(list: Seq<ProductView>) -> bool {
    &&& forall|k: int| 0 <= k < list.len() ==> (#[trigger] list[k]).complete()
    &&& forall|k: int, l: int|
        0 <= k < l < list.len() && list[l].product_url.len() > 0 ==> (#[trigger] list[k]).product_url
            != (#[trigger] list[l]).product_url
}

/// A text that is found for the name has at least three characters, one
/// that is found for the price is not empty, and one that is found for the
/// rating is a decimal number of at most five.
pub proof fn lemma_first_usable(
    members: Seq<MemberView>,
    keys: Seq<Seq<char>>,
    field: Field,
    from: int,
)
    ensures
        first_usable(members, keys, field, from) matches Some(text) ==> (field == Field::Name
            ==> text.len() >= 3) && (field == Field::Price ==> text.len() > 0) && (field
            == Field::Rating ==> decimal_rating(text)),
    decreases keys.len() - from,
{
    if 0 <= from < keys.len() {
        lemma_first_usable(members, keys, field, from + 1);
    }
}

/// Every product that a list of values describes has a name and a price.
pub proof fn lemma_listed_complete(
    p: SiteProfileView,
    keys: ProductKeysView,
    items: Seq<JsonView>,
    n: int,
)
    ensures
        forall|k: int|
            0 <= k < listed(p, keys, items, n).len() ==> (#[trigger] listed(
                p,
                keys,
                items,
                n,
            )[k]).complete(),
    decreases n,
{
    if 0 < n <= items.len() {
        lemma_listed_complete(p, keys, items, n - 1);
        let before = listed(p, keys, items, n - 1);
        let all = listed(p, keys, items, n);
        match items[n - 1] {
            JsonView::Object(members) => {
                lemma_first_usable(members, keys.name, Field::Name, 0);
                lemma_first_usable(members, keys.price, Field::Price, 0);
                lemma_first_usable(members, keys.rating, Field::Rating, 0);
            },
            _ => {},
        }
        assert forall|k: int| 0 <= k < all.len() implies (#[trigger] all[k]).complete() by {
            if k < before.len() {
                assert(all[k] == before[k]);
            } else {
                assert(value_product(p, keys, items[n - 1]) == Some(all[k]));
            }
        }
    }
}

/// What stays of a list of products is part of it, in the same order,
/// and no address occurs twice in it.
pub proof fn lemma_unique_sources(all: Seq<ProductView>, n: int) -> (sources: Seq<int>)
    requires
        0 <= n <= all.len(),
    ensures
        sources.len() == unique_upto(all, n).len(),
        forall|k: int|
            0 <= k < sources.len() ==> 0 <= #[trigger] sources[k] < n && is_kept(all, sources[k])
                && unique_upto(all, n)[k] == all[sources[k]],
        forall|k: int, l: int| 0 <= k < l < sources.len() ==> sources[k] < sources[l],
        n > 0 ==> sources.len() > 0,
    decreases n,
{
    if n == 0 {
        Seq::empty()
    } else {
        let before = lemma_unique_sources(all, n - 1);
        if is_kept(all, n - 1) {
            before.push(n - 1)
        } else {
            before
        }
    }
}

/// The products of a list that looks like a list of products are sound.
pub proof fn lemma_candidate_sound(p: SiteProfileView, keys: ProductKeysView, items: Seq<JsonView>)
    ensures
        sound(candidate_products(p, keys, items)),
{
    if is_candidate(keys, items) {
        let all = listed(p, keys, items, items.len() as int);
        let kept = unique_upto(all, all.len() as int);
        lemma_listed_complete(p, keys, items, items.len() as int);
        let sources = lemma_unique_sources(all, all.len() as int);
        assert forall|k: int| 0 <= k < kept.len() implies (#[trigger] kept[k]).complete() by {
            assert(kept[k] == all[sources[k]]);
        }
        assert forall|k: int, l: int|
            0 <= k < l < kept.len() && kept[l].product_url.len() > 0 implies (#[trigger] kept[k]).product_url
            != (#[trigger] kept[l]).product_url by {
            assert(kept[k] == all[sources[k]]);
            assert(kept[l] == all[sources[l]]);
            assert(is_kept(all, sources[l]));
            assert(sources[k] < sources[l]);
        }
    }
}

/// What is found in a document is not empty and sound.
pub proof fn lemma_found_sound(p: SiteProfileView, keys: ProductKeysView, v: JsonView)
    ensures
        found_in(p, keys, v) matches Some(list) ==> list.len() > 0 && sound(list),
    decreases v, 0nat,
{
    match v {
        JsonView::Array(items) => {
            lemma_candidate_sound(p, keys, items);
            lemma_found_among_sound(p, keys, items, 0);
        },
        JsonView::Object(members) => {
            lemma_found_under_sound(p, keys, members, 0);
        },
        _ => {},
    }
}

proof fn lemma_found_among_sound(
    p: SiteProfileView,
    keys: ProductKeysView,
    items: Seq<JsonView>,
    from: int,
)
    ensures
        found_among(p, keys, items, from) matches Some(list) ==> list.len() > 0 && sound(list),
    decreases items, items.len() - from,
{
    if 0 <= from < items.len() {
        lemma_found_sound(p, keys, items[from]);
        lemma_found_among_sound(p, keys, items, from + 1);
    }
}

proof fn lemma_found_under_sound(
    p: SiteProfileView,
    keys: ProductKeysView,
    members: Seq<MemberView>,
    from: int,
)
    ensures
        found_under(p, keys, members, from) matches Some(list) ==> list.len() > 0 && sound(list),
    decreases members, members.len() - from,
{
    if 0 <= from < members.len() {
        lemma_found_sound(p, keys, members[from].value);
        lemma_found_under_sound(p, keys, members, from + 1);
    }
}

/// Structured data gives sound products, at least one unless the limit
/// is zero, and never more than the limit.
pub proof fn lemma_structured_sound(
    p: SiteProfileView,
    keys: ProductKeysView,
    html: Seq<char>,
    limit: nat,
)
    ensures
        structured_products(p, keys, html, limit) matches Some(list) ==> sound(list) && list.len()
            <= limit && (limit > 0 ==> list.len() > 0),
{
    match payload_text(html) {
        Some(text) => match json_of(text) {
            Some(document) => {
                lemma_found_sound(p, keys, document);
            },
            None => {},
        },
        None => {},
    }
}

/// What stays of the first `n` products does not depend on those behind
/// them.
proof fn lemma_unique_prefix(all: Seq<ProductView>, more: Seq<ProductView>, n: int)
    requires
        0 <= n <= all.len() <= more.len(),
        forall|i: int| 0 <= i < all.len() ==> all[i] == more[i],
    ensures
        unique_upto(more, n) == unique_upto(all, n),
    decreases n,
{
    if n > 0 {
        lemma_unique_prefix(all, more, n - 1);
        assert(is_kept(more, n - 1) == is_kept(all, n - 1)) by {
            assert(forall|j: int| 0 <= j < n - 1 ==> all[j] == more[j]);
        }
    }
}

/// The shop location that an object names.
fn find_shop_location(keys: &ProductKeys, members: &Vec<JsonMember>) -> (place: Option<String>)
    ensures
        opt_text(place) == shop_location(keys@, member_views(members@)),
{
    match member(members, &keys.shop) {
        Some(JsonValue::Object(shop)) => {
            proof {
                lemma_object_view(*shop);
            }
            match member(shop, &keys.shop_location) {
                Some(value) => usable_text(Field::Plain, value),
                None => None,
            }
        },
        _ => None,
    }
}

/// Reads the product that an object describes, if it gives a name and a
/// price.
pub fn product_from_object(profile: &SiteProfile, keys: &ProductKeys, members: &Vec<JsonMember>)
    -> (product: Option<Product>)
    ensures
        match product {
            Some(found) => object_product(profile@, keys@, member_views(members@)) == Some(found@)
                && found@.complete(),
            None => object_product(profile@, keys@, member_views(members@)) is None,
        },
{
    proof {
        lemma_first_usable(member_views(members@), keys@.name, Field::Name, 0);
        lemma_first_usable(member_views(members@), keys@.price, Field::Price, 0);
        lemma_first_usable(member_views(members@), keys@.rating, Field::Rating, 0);
    }
    let name = match find_usable(members, &keys.name, Field::Name) {
        Some(name) => name,
        None => {
            return None;
        },
    };
    let price = match find_usable(members, &keys.price, Field::Price) {
        Some(price) => price,
        None => {
            return None;
        },
    };
    let image_url = match find_usable(members, &keys.image, Field::Plain) {
        Some(address) => address,
        None => String::new(),
    };
    let link = find_usable(members, &keys.url, Field::Plain);
    let shop_location = match find_shop_location(keys, members) {
        Some(place) => Some(place),
        None => find_usable(members, &keys.location, Field::Plain),
    };
    Some(
        Product {
            name,
            price,
            rating: find_usable(members, &keys.rating, Field::Rating),
            image_url,
            product_url: string_of(&resolve_url(profile, &link)),
            shop_location,
            sold: find_usable(members, &keys.sold, Field::Sold),
        },
    )
}

/// Whether an object holds one of `keys`.
fn holds_any_of(members: &Vec<JsonMember>, keys: &Vec<String>) -> (b: bool)
    ensures
        b == holds_any(member_views(members@), texts(keys@), 0),
{
    let mut k: usize = 0;
    while k < keys.len()
        invariant
            k <= keys@.len(),
            holds_any(member_views(members@), texts(keys@), 0) == holds_any(
                member_views(members@),
                texts(keys@),
                k as int,
            ),
        decreases keys@.len() - k,
    {
        if member(members, &keys[k]).is_some() {
            return true;
        }
        k += 1;
    }
    false
}

/// Whether a list looks like a list of products.
fn looks_like_products(keys: &ProductKeys, items: &Vec<JsonValue>) -> (b: bool)
    ensures
        b == is_candidate(keys@, item_views(items@)),
{
    if items.len() == 0 {
        return false;
    }
    match &items[0] {
        JsonValue::Object(members) => {
            proof {
                lemma_object_view(*members);
            }
            holds_any_of(members, &keys.indicators)
        },
        _ => false,
    }
}

/// Whether `seen` holds the addresses of the products `all` and no others.
pub open spec fn holds_urls_of(all: Seq<ProductView>, seen: Set<Seq<char>>) -> bool {
    &&& forall|j: int| 0 <= j < all.len() ==> seen.contains((#[trigger] all[j]).product_url)
    &&& forall|url: Seq<char>| #[trigger]
        seen.contains(url) ==> exists|j: int|
            0 <= j < all.len() && (#[trigger] all[j]).product_url == url
}

/// A product that comes behind `all` is kept exactly if it has no address
/// or its address is not among those seen, and with its address added
/// `seen` holds the addresses of one product more.
proof fn lemma_next_kept(all: Seq<ProductView>, seen: Set<Seq<char>>, next: ProductView)
    requires
        holds_urls_of(all, seen),
    ensures
        is_kept(all.push(next), all.len() as int) == (next.product_url.len() == 0
            || !seen.contains(next.product_url)),
        holds_urls_of(all.push(next), seen.insert(next.product_url)),
{
    let more = all.push(next);
    let url = next.product_url;
    if seen.contains(url) {
        let j = choose|j: int| 0 <= j < all.len() && (#[trigger] all[j]).product_url == url;
        assert(more[j].product_url == url);
    } else {
        assert forall|j: int| 0 <= j < all.len() implies (#[trigger] more[j]).product_url
            != url by {
            assert(more[j] == all[j]);
        }
    }
    assert forall|j: int| 0 <= j < more.len() implies seen.insert(url).contains(
        (#[trigger] more[j]).product_url,
    ) by {
        if j < all.len() {
            assert(more[j] == all[j]);
        }
    }
    assert forall|u: Seq<char>| #[trigger] seen.insert(url).contains(u) implies exists|j: int|
        0 <= j < more.len() && (#[trigger] more[j]).product_url == u by {
        if seen.contains(u) {
            let j = choose|j: int| 0 <= j < all.len() && (#[trigger] all[j]).product_url == u;
            assert(more[j].product_url == u);
        } else {
            assert(more[all.len() as int].product_url == u);
        }
    }
}

/// Reads the products of a list, none where it does not look like a list
/// of products. Of products with the same address only the first is kept.
pub fn products_of_list(profile: &SiteProfile, keys: &ProductKeys, items: &Vec<JsonValue>) -> (products:
    Vec<Product>)
    ensures
        views(products@) == candidate_products(profile@, keys@, item_views(items@)),
{
    let mut products: Vec<Product> = Vec::new();
    if !looks_like_products(keys, items) {
        return products;
    }
    let ghost p = profile@;
    let ghost k = keys@;
    let ghost shown = item_views(items@);
    let mut seen = StringHashSet::new();
    let mut i: usize = 0;
    while i < items.len()
        invariant
            i <= items@.len(),
            p == profile@,
            k == keys@,
            shown == item_views(items@),
            holds_urls_of(listed(p, k, shown, i as int), seen@),
            views(products@) == unique_upto(
                listed(p, k, shown, i as int),
                listed(p, k, shown, i as int).len() as int,
            ),
        decreases items@.len() - i,
    {
        let ghost all = listed(p, k, shown, i as int);
        let ghost before = views(products@);
        let found = match &items[i] {
            JsonValue::Object(members) => {
                proof {
                    lemma_object_view(*members);
                }
                product_from_object(profile, keys, members)
            },
            _ => None,
        };
        match found {
            Some(product) => {
                let keep = product.product_url.as_str().unicode_len() == 0 || !seen.contains(
                    product.product_url.as_str(),
                );
                proof {
                    let more = all.push(product@);
                    assert(listed(p, k, shown, i + 1) == more);
                    lemma_unique_prefix(all, more, all.len() as int);
                    lemma_next_kept(all, seen@, product@);
                }
                seen.insert(product.product_url.clone());
                if keep {
                    products.push(product);
                    assert(views(products@) == before.push(product@));
                }
            },
            None => {},
        }
        i += 1;
    }
    products
}

/// Searches a document for the first list that looks like a list of
/// products and gives at least one, and reads its products.
#[verifier::loop_isolation(false)]
pub fn find_products(profile: &SiteProfile, keys: &ProductKeys, value: &JsonValue) -> (found:
    Option<Vec<Product>>)
    ensures
        match found {
            Some(products) => found_in(profile@, keys@, value@) == Some(views(products@)),
            None => found_in(profile@, keys@, value@) is None,
        },
    decreases value,
{
    match value {
        JsonValue::Array(items) => {
            let ghost shown = item_views(items@);
            proof {
                lemma_array_view(*items);
            }
            let own = products_of_list(profile, keys, items);
            if own.len() > 0 {
                return Some(own);
            }
            let mut i: usize = 0;
            while i < items.len()
                invariant
                    i <= items@.len(),
                    found_among(profile@, keys@, shown, 0) == found_among(
                        profile@,
                        keys@,
                        shown,
                        i as int,
                    ),
                decreases items@.len() - i,
            {
                match find_products(profile, keys, &items[i]) {
                    Some(products) => {
                        return Some(products);
                    },
                    None => {},
                }
                i += 1;
            }
            None
        },
        JsonValue::Object(members) => {
            let ghost shown = member_views(members@);
            proof {
                lemma_object_view(*members);
            }
            let mut i: usize = 0;
            while i < members.len()
                invariant
                    i <= members@.len(),
                    found_under(profile@, keys@, shown, 0) == found_under(
                        profile@,
                        keys@,
                        shown,
                        i as int,
                    ),
                decreases members@.len() - i,
            {
                match find_products(profile, keys, &members[i].value) {
                    Some(products) => {
                        return Some(products);
                    },
                    None => {},
                }
                i += 1;
            }
            None
        },
        _ => None,
    }
}

/// Reads products out of the structured data that a page embeds, at most
/// `limit` of them. Gives `None` where the page embeds no data, the data
/// is no JSON document, or no list in it gives a product. Every product
/// has a name and a price, and no two that have an address have the same.
pub fn parse_structured(profile: &SiteProfile, keys: &ProductKeys, html: &str, limit: usize) -> (found:
    Option<Vec<Product>>)
    ensures
        match found {
            Some(products) => structured_products(profile@, keys@, html@, limit as nat) == Some(
                views(products@),
            ) && sound(views(products@)) && products@.len() <= limit,
            None => structured_products(profile@, keys@, html@, limit as nat) is None,
        },
{
    let text = match locate_payload(html) {
        Some(text) => text,
        None => {
            return None;
        },
    };
    let document = match parse_json(text.as_str()) {
        Some(document) => document,
        None => {
            return None;
        },
    };
    match find_products(profile, keys, &document) {
        Some(products) => {
            let mut products = products;
            let ghost all = views(products@);
            products.truncate(limit);
            assert(views(products@) == capped(all, limit as nat));
            proof {
                lemma_structured_sound(profile@, keys@, html@, limit as nat);
            }
            Some(products)
        },
        None => None,
    }
}

} // verus!
