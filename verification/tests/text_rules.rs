use ecommerce_scraper::extract::{
    join_chars, is_url_accepted, product_from_card, read_card_price, resolve_url, trim_all,
};
use ecommerce_scraper::dom::{count_elements, join, select_cards, Card, CardSelectors};
use ecommerce_scraper::json::{parse_json, JsonValue};
use ecommerce_scraper::price::{digit_run_len, is_digit_char};
use ecommerce_scraper::profile::{PriceRule, SiteProfile};
use ecommerce_scraper::rules::{
    check, contains_any_of, find_first, find_last, find_longest, has_currency_prefix,
    is_all_digits, is_decimal_rating, is_numbers_only, is_rating_like, read_boxed_amount,
    remove_all, TextTest,
};
use ecommerce_scraper::structured::{
    find_products, is_whole_number, locate_payload, member, product_from_object, usable_text,
    Field, ProductKeys,
};
use ecommerce_scraper::text::{
    chars_of, contains_text, find_from, has_prefix, is_whitespace_char, matches_at, slice_of,
    string_of, string_of_range, tail_of, trim_bounds, trimmed,
};
use ecommerce_scraper::tokopedia::tokopedia_repository::TokopediaRepository;

fn c(s: &str) -> Vec<char> {
    s.chars().collect()
}

fn s(v: &[char]) -> String {
    v.iter().collect()
}

#[test]
fn characters_and_strings() {
    assert_eq!(chars_of("héllo"), c("héllo"));
    assert_eq!(chars_of(""), c(""));
    assert_eq!(string_of(&c("Rp1.000 ☕")), "Rp1.000 ☕");
    assert_eq!(string_of_range(&c("abcdef"), 2, 4), "cd");
    assert_eq!(slice_of(&c("abcdef"), 0, 0), c(""));
    assert_eq!(tail_of(&c("abcdef"), 4), c("ef"));
    assert_eq!(join_chars(&c("ab"), &c("cd")), c("abcd"));
    assert_eq!(join(&vec!["a ".to_string(), "".to_string(), "b".to_string()]), "a b");
}

#[test]
fn white_space_is_trimmed_as_unicode_has_it() {
    for ch in [' ', '\t', '\n', '\r', '\u{b}', '\u{c}', '\u{85}', '\u{a0}', '\u{1680}', '\u{2003}', '\u{2028}', '\u{2029}', '\u{202f}', '\u{205f}', '\u{3000}'] {
        assert!(is_whitespace_char(ch), "{:?}", ch);
        assert!(ch.is_whitespace());
    }
    for ch in ['a', '0', '-', '\u{200b}', '\u{feff}', '\u{1c}', '\u{180e}'] {
        assert_eq!(is_whitespace_char(ch), ch.is_whitespace(), "{:?}", ch);
    }
    assert_eq!(s(&trimmed(&c("  \n Rp 1 \u{a0}\t"))), "Rp 1");
    assert_eq!(s(&trimmed(&c(" \n "))), "");
    assert_eq!(s(&trimmed(&c("x"))), "x");
    assert_eq!(trim_bounds(&c("  ab ")), (2, 4));
    assert_eq!(trim_bounds(&c("   ")), (3, 3));
    let lists = trim_all(&vec![" a ".to_string(), "b".to_string(), "\n".to_string()]);
    assert_eq!(lists, vec![c("a"), c("b"), c("")]);
}

#[test]
fn searching_texts() {
    let text = c("abcabcabd");
    assert!(matches_at(&text, &c("abc"), 3));
    assert!(!matches_at(&text, &c("abc"), 6));
    assert!(!matches_at(&text, &c("abd"), 7));
    assert!(matches_at(&text, &c(""), 9));
    assert!(!matches_at(&text, &c(""), 10));
    assert_eq!(find_from(&text, &c("abc"), 0), Some(0));
    assert_eq!(find_from(&text, &c("abc"), 1), Some(3));
    assert_eq!(find_from(&text, &c("abd"), 0), Some(6));
    assert_eq!(find_from(&text, &c("abe"), 0), None);
    assert_eq!(find_from(&text, &c(""), 9), Some(9));
    assert_eq!(find_from(&text, &c("a"), 10), None);
    assert_eq!(find_from(&c(""), &c(""), 0), Some(0));
    assert!(contains_text(&text, &c("cab")));
    assert!(!contains_text(&text, &c("cba")));
    assert!(has_prefix(&text, &c("abca")));
    assert!(!has_prefix(&text, &c("bca")));
    assert!(has_prefix(&text, &c("")));
    assert!(contains_any_of(&c("Kota Bandung"), &vec![c("Jakarta"), c("Bandung")]));
    assert!(!contains_any_of(&c("Kota Medan"), &vec![c("Jakarta"), c("Bandung")]));
    assert!(!contains_any_of(&c("Kota Medan"), &vec![]));
}

#[test]
fn digits() {
    assert!(is_digit_char('0') && is_digit_char('9'));
    assert!(!is_digit_char('/') && !is_digit_char(':') && !is_digit_char('٣'));
    assert_eq!(digit_run_len(&c("123a45"), 0), 3);
    assert_eq!(digit_run_len(&c("123a45"), 3), 0);
    assert_eq!(digit_run_len(&c("123a45"), 4), 2);
    assert_eq!(digit_run_len(&c("123"), 3), 0);
    assert_eq!(digit_run_len(&c("123"), 7), 0);
    assert!(is_all_digits(&c("0123")) && is_all_digits(&c("")));
    assert!(!is_all_digits(&c("12.3")));
    assert!(is_numbers_only(&c("1.234,50")) && is_numbers_only(&c("")));
    assert!(!is_numbers_only(&c("1.234 ")));
}

#[test]
fn taking_texts_out() {
    assert_eq!(s(&remove_all(&c("Rp1.250.000"), &c("."))), "Rp1250000");
    assert_eq!(s(&remove_all(&c("RpRRpp5"), &c("Rp"))), "Rp5");
    assert_eq!(s(&remove_all(&c("aaaa"), &c("aa"))), "");
    assert_eq!(s(&remove_all(&c("aaa"), &c("aa"))), "a");
    assert_eq!(s(&remove_all(&c("abc"), &c("abcd"))), "abc");
    assert_eq!(s(&remove_all(&c(""), &c("x"))), "");
    assert_eq!(s(&remove_all(&c("abc"), &c(""))), "abc");
}

#[test]
fn amounts_in_the_price_box() {
    assert_eq!(read_boxed_amount(&c("\n Rp\n 60.270\n")), Some(60270));
    assert_eq!(read_boxed_amount(&c("Rp 1.250.000,")), Some(1250000));
    assert_eq!(read_boxed_amount(&c("75,000")), Some(75000));
    assert_eq!(read_boxed_amount(&c("000")), Some(0));
    assert_eq!(read_boxed_amount(&c("")), None);
    assert_eq!(read_boxed_amount(&c("Rp")), None);
    assert_eq!(read_boxed_amount(&c("Rp 8.250,-")), None);
    assert_eq!(read_boxed_amount(&c("Rp 1 000")), None);
    assert_eq!(read_boxed_amount(&c("+5")), None);
    assert_eq!(read_boxed_amount(&c("18.446.744.073.709.551.615")), Some(u64::MAX));
    assert_eq!(read_boxed_amount(&c("18.446.744.073.709.551.616")), None);
}

#[test]
fn ratings_are_decimals_of_at_most_five() {
    for good in ["4.8", "5.0", "5.", ".5", "0.0", "05.000", "-7.5", "+4.25", "4.99999999999999999999", "0000000000000000000000004.9"] {
        assert!(is_rating_like(&c(good)), "{}", good);
        assert!(is_decimal_rating(&c(good)), "{}", good);
    }
    for whole in ["5", "0", "-9", "+3", "004"] {
        assert!(is_decimal_rating(&c(whole)), "{}", whole);
        assert!(!is_rating_like(&c(whole)), "{}", whole);
    }
    for bad in ["5.1", "5.0000001", "6.0", "10.0", "99999999999999999999999.0", "", ".", "-", "+.", "4.8.1", "4,8", "4.8 ", "4.8/5", "1e1", "0.5e1", "inf", "NaN", "٤.٨", "--1.0"] {
        assert!(!is_rating_like(&c(bad)), "{}", bad);
        assert!(!is_decimal_rating(&c(bad)), "{}", bad);
    }
}

fn profile() -> SiteProfile {
    TokopediaRepository::new().profile
}

#[test]
fn texts_are_tested_for_what_they_may_be() {
    let p = profile();
    assert!(check(&p, TextTest::Name, &c("A name of sixteen")));
    assert!(!check(&p, TextTest::Name, &c("Fifteen letters")));
    assert!(!check(&p, TextTest::Name, &c("Rp a name that begins like a price")));
    assert!(!check(&p, TextTest::Name, &c("A name with terjual in it")));
    assert!(check(&p, TextTest::Name, &c("A name with Terjual in it")));
    assert!(!check(&p, TextTest::Name, &c("1.234.567.890,123")));
    assert!(check(&p, TextTest::Rating, &c("4.5")));
    assert!(!check(&p, TextTest::Rating, &c("45")));
    assert!(check(&p, TextTest::Sold, &c("1rb+ TERJUAL")));
    assert!(!check(&p, TextTest::Sold, &c("1rb+ sold")));
    assert!(check(&p, TextTest::Place, &c("Kab. Bogor")));
    assert!(!check(&p, TextTest::Place, &c("Bogor")));
    assert!(check(&p, TextTest::ShownPrice, &c("Rp10")));
    assert!(!check(&p, TextTest::ShownPrice, &c("Rp10 Cashback")));
    assert!(!check(&p, TextTest::ShownPrice, &c("Rp10 (5%)")));
    assert!(!check(&p, TextTest::ShownPrice, &c(" Rp10")));
    assert!(has_currency_prefix(&c("Rp")) && !has_currency_prefix(&c("rp1")) && !has_currency_prefix(&c("R")));
}

#[test]
fn first_last_and_longest() {
    let p = profile();
    let texts = vec![c("x"), c("4.1"), c("Medan"), c("4.22"), c("Bali"), c("3.9"), c("y")];
    assert_eq!(find_first(&p, TextTest::Rating, &texts), Some(1));
    assert_eq!(find_last(&p, TextTest::Rating, &texts), Some(5));
    assert_eq!(find_longest(&p, TextTest::Rating, &texts), Some(3));
    assert_eq!(find_first(&p, TextTest::Place, &texts), Some(2));
    assert_eq!(find_last(&p, TextTest::Place, &texts), Some(4));
    assert_eq!(find_longest(&p, TextTest::Place, &texts), Some(2));
    assert_eq!(find_first(&p, TextTest::Sold, &texts), None);
    assert_eq!(find_last(&p, TextTest::Sold, &texts), None);
    assert_eq!(find_longest(&p, TextTest::Sold, &texts), None);
    let ties = vec![c("1.1"), c("2.2"), c("3.3")];
    assert_eq!(find_longest(&p, TextTest::Rating, &ties), Some(2));
    assert_eq!(find_longest(&p, TextTest::Rating, &vec![]), None);
}

#[test]
fn addresses() {
    let mut p = profile();
    let url = |p: &SiteProfile, href: Option<&str>| s(&resolve_url(p, &href.map(str::to_string)));
    assert_eq!(url(&p, None), "");
    assert_eq!(url(&p, Some("http://x.example/a")), "http://x.example/a");
    assert_eq!(url(&p, Some("/a/b")), "https://www.tokopedia.com/a/b");
    assert_eq!(url(&p, Some("a/b")), "a/b");
    assert_eq!(url(&p, Some("")), "");
    p.joins_bare_paths = true;
    assert_eq!(url(&p, Some("a/b")), "https://www.tokopedia.com/a/b");
    assert_eq!(url(&p, Some("")), "https://www.tokopedia.com/");
    assert!(is_url_accepted(&p, &c("https://www.tokopedia.com/shop/item")));
    assert!(!is_url_accepted(&p, &c("")));
    assert!(!is_url_accepted(&p, &c("https://www.tokopedia.com/search?q=1")));
    assert!(!is_url_accepted(&p, &c("https://www.tokopedia.com/promo/x")));
}

fn card(blocks: &[&str], nodes: &[&str]) -> Card {
    Card {
        href: Some("/p/1".to_string()),
        text_nodes: nodes.iter().map(|t| t.to_string()).collect(),
        blocks: blocks.iter().map(|t| t.to_string()).collect(),
        price_box: None,
        image: Some("https://img.example/1.png".to_string()),
    }
}

#[test]
fn product_of_one_card() {
    let mut p = profile();
    p.price_rule = PriceRule::Longest;
    let shown = card(&[" A product name of some length ", "4.7"], &["Rp5.000  ", "Rp12.345.678", "Rp99.999.999 Cashback"]);
    assert_eq!(read_card_price(&p, &shown), "Rp12.345.678");
    let product = product_from_card(&p, &shown).unwrap();
    assert_eq!(product.name, "A product name of some length");
    assert_eq!(product.price, "Rp12.345.678");
    assert_eq!(product.rating.as_deref(), Some("4.7"));
    assert_eq!(product.image_url, "https://img.example/1.png");
    assert_eq!(product.product_url, "https://www.tokopedia.com/p/1");
    assert!(product_from_card(&p, &card(&["short"], &["Rp5.000"])).is_none());
    assert!(product_from_card(&p, &card(&["A product name of some length"], &["5.000"])).is_none());
    p.price_rule = PriceRule::Token;
    assert_eq!(read_card_price(&p, &shown), "Rp5.000");
    assert_eq!(read_card_price(&p, &card(&[], &["Rp", "Rp99999999999999999999", " Rp7"])), "Rp7");
    assert_eq!(read_card_price(&p, &card(&[], &[])), "Rp0");
}

#[test]
fn pages_are_queried_with_selectors() {
    let html = "<ul><li class='x'><b>one</b><i>1</i></li><li><b>two</b></li><li class='x'></li></ul>";
    assert_eq!(count_elements(html, "li"), 3);
    assert_eq!(count_elements(html, "li.x"), 2);
    assert_eq!(count_elements(html, "table"), 0);
    assert_eq!(count_elements(html, "li["), 0);
    let selectors = |card: &str, block: &str| CardSelectors {
        card: card.to_string(),
        block: block.to_string(),
        price_box: Some("i".to_string()),
        image: "img".to_string(),
    };
    let cards = select_cards(html, &selectors("li", "b"));
    assert_eq!(cards.len(), 3);
    assert_eq!(cards[0].blocks, ["one"]);
    assert_eq!(cards[0].text_nodes, ["one", "1"]);
    assert_eq!(cards[0].price_box.as_deref(), Some("1"));
    assert_eq!(cards[1].price_box, None);
    assert!(cards[2].blocks.is_empty() && cards[2].text_nodes.is_empty());
    assert!(cards.iter().all(|c| c.href.is_none() && c.image.is_none()));
    // a card selector that is not valid finds no cards
    assert!(select_cards(html, &selectors("li[", "b")).is_empty());
    // a part selector that is not valid finds no parts
    let cards = select_cards(html, &selectors("li", "b["));
    assert_eq!(cards.len(), 3);
    assert!(cards.iter().all(|c| c.blocks.is_empty()));
    assert_eq!(cards[0].price_box.as_deref(), Some("1"));
}

#[test]
fn json_is_read_into_a_tree() {
    let value = parse_json(r#"{"b":[1,-2,3.5,1e3,true,null,"s"],"a":{"x":18446744073709551615}}"#).unwrap();
    let JsonValue::Object(members) = value else { panic!("an object was written") };
    let keys: Vec<&str> = members.iter().map(|m| m.key.as_str()).collect();
    assert_eq!(keys, ["a", "b"]);
    let JsonValue::Array(items) = &members[1].value else { panic!("a list was written") };
    let shown: Vec<String> = items
        .iter()
        .map(|item| match item {
            JsonValue::Null => "null".to_string(),
            JsonValue::Bool(b) => format!("bool {}", b),
            JsonValue::Number(n) => format!("number {}", n),
            JsonValue::Text(t) => format!("text {}", t),
            JsonValue::Array(_) => "list".to_string(),
            JsonValue::Object(_) => "object".to_string(),
        })
        .collect();
    assert_eq!(
        shown,
        ["number 1", "number -2", "number 3.5", "number 1000.0", "bool true", "null", "text s"]
    );
    let JsonValue::Object(inner) = &members[0].value else { panic!("an object was written") };
    assert!(matches!(&inner[0].value, JsonValue::Number(n) if n == "18446744073709551615"));
    assert!(parse_json("").is_none());
    assert!(parse_json("{").is_none());
    assert!(parse_json("[1,]").is_none());
    assert!(matches!(parse_json(" 7 "), Some(JsonValue::Number(n)) if n == "7"));
    let repeated = parse_json(r#"{"k":1,"k":2}"#).unwrap();
    let JsonValue::Object(members) = repeated else { panic!("an object was written") };
    assert_eq!(members.len(), 1);
    assert!(matches!(&members[0].value, JsonValue::Number(n) if n == "2"));
}

#[test]
fn payload_is_located_behind_the_marker() {
    let found = |html: &str| locate_payload(html);
    assert_eq!(found("no marker here"), None);
    assert_eq!(found("<script id=\"__NEXT_DATA__\"> {\"a\":1} </script>y").as_deref(), Some("{\"a\":1}"));
    assert_eq!(
        found("<script id=__NEXT_DATA__ type=\"application/json\">[1]</script><script>2</script>").as_deref(),
        Some("[1]")
    );
    // the data may hold the marker and the character that ends a tag
    assert_eq!(
        found("<a id=__NEXT_DATA__>[\"__NEXT_DATA__\", \"a > b\"]</script>").as_deref(),
        Some("[\"__NEXT_DATA__\", \"a > b\"]")
    );
    assert_eq!(found("__NEXT_DATA__> never closed ").as_deref(), Some("never closed"));
    assert_eq!(found("__NEXT_DATA__>").as_deref(), Some(""));
    assert_eq!(found("__NEXT_DATA__></script>").as_deref(), Some(""));
    // the first marker counts, and a tag must end behind it
    assert_eq!(found("__NEXT_DATA__ one __NEXT_DATA__> two </script>").as_deref(), Some("two"));
    assert_eq!(found("__NEXT_DATA__").as_deref(), None);
    assert_eq!(found("<p>__NEXT_DATA__ {\"a\":1}").as_deref(), None);
    assert_eq!(found("</script>__NEXT_DATA__</script>rest").as_deref(), Some("rest"));
}

#[test]
fn values_are_usable_for_fields() {
    let text = |t: &str| JsonValue::Text(t.to_string());
    let number = |n: &str| JsonValue::Number(n.to_string());
    assert_eq!(usable_text(Field::Name, &text("abc")).as_deref(), Some("abc"));
    assert_eq!(usable_text(Field::Name, &text("ab")), None);
    assert_eq!(usable_text(Field::Name, &number("123")), None);
    assert_eq!(usable_text(Field::Price, &text("Rp1")).as_deref(), Some("Rp1"));
    assert_eq!(usable_text(Field::Price, &text("")), None);
    assert_eq!(usable_text(Field::Price, &number("15000000")).as_deref(), Some("Rp15000000"));
    assert_eq!(usable_text(Field::Price, &number("1.5")), None);
    assert_eq!(usable_text(Field::Price, &JsonValue::Bool(true)), None);
    assert_eq!(usable_text(Field::Rating, &number("4.8")).as_deref(), Some("4.8"));
    assert_eq!(usable_text(Field::Rating, &number("7")), None);
    assert_eq!(usable_text(Field::Rating, &text("4.8/5")), None);
    assert_eq!(usable_text(Field::Plain, &text("")).as_deref(), Some(""));
    assert_eq!(usable_text(Field::Plain, &number("1")), None);
    assert_eq!(usable_text(Field::Sold, &number("12")).as_deref(), Some("12"));
    assert_eq!(usable_text(Field::Sold, &number("1.2e3")), None);
    assert_eq!(usable_text(Field::Sold, &JsonValue::Null), None);
    assert!(is_whole_number(&c("-9223372036854775808")) && is_whole_number(&c("9223372036854775807")));
    assert!(!is_whole_number(&c("-9223372036854775809")) && !is_whole_number(&c("9223372036854775808")));
    assert!(!is_whole_number(&c("")) && !is_whole_number(&c("-")) && !is_whole_number(&c("1.0")));
}

#[test]
fn objects_give_products() {
    let p = profile();
    let keys = ProductKeys::standard();
    let value = parse_json(
        r#"{"name":7,"title":"From the title","price":"","priceInt":2500,"rating":"n/a","ratingScore":"4.0",
            "shop":{"location":5},"location":"Medan","url":"/x"}"#,
    )
    .unwrap();
    let JsonValue::Object(members) = &value else { panic!("an object was written") };
    assert!(member(members, &"title".to_string()).is_some());
    assert!(member(members, &"Title".to_string()).is_none());
    let product = product_from_object(&p, &keys, members).unwrap();
    assert_eq!(product.name, "From the title");
    assert_eq!(product.price, "Rp2500");
    assert_eq!(product.rating.as_deref(), Some("4.0"));
    assert_eq!(product.shop_location.as_deref(), Some("Medan"));
    assert_eq!(product.product_url, "https://www.tokopedia.com/x");
    assert_eq!(product.sold, None);

    // a list inside a list that gives nothing is searched too
    let nested = parse_json(r#"[[{"id":1}],[{"name":"Deep inside","price":1}]]"#).unwrap();
    let found = find_products(&p, &keys, &nested).unwrap();
    assert_eq!(found[0].name, "Deep inside");
    // a list whose first item shows no known key is no list of products
    let hidden = parse_json(r#"[{"other":1},{"name":"Behind a stranger","price":1}]"#).unwrap();
    assert!(find_products(&p, &keys, &hidden).is_none());
    assert!(find_products(&p, &keys, &JsonValue::Null).is_none());
}
