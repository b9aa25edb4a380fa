use ecommerce_scraper::profile::PriceRule;
use ecommerce_scraper::tokopedia::tokopedia_repository::{truncate_str, TokopediaRepository};

fn page(cards: &str) -> String {
    format!(
        r#"<html><body><div data-testid="divSRPContentProducts">{}</div>
        <a href="https://www.tokopedia.com/outside/item"><span>A link outside of the results</span><span>Rp1.000</span></a>
        </body></html>"#,
        cards
    )
}

fn card(href: &str, name: &str, price: &str, extra: &str) -> String {
    format!(
        r#"<a href="{}"><img alt="product-image" src="https://img.example/{}.jpg">
        <span>{}</span><span> {} </span>{}</a>"#,
        href,
        name.len(),
        name,
        price,
        extra
    )
}

#[test]
fn dom_reads_name_price_and_details() {
    let html = page(&card(
        "https://www.tokopedia.com/shop/iphone-15-pro",
        "Apple iPhone 15 Pro 256GB Garansi Resmi",
        "Rp899.000",
        "<span>4.9</span><span>250+ Terjual</span><span>Jakarta Pusat</span><span>Kota Bandung</span>",
    ));
    let products = TokopediaRepository::new().parse_products_from_dom(&html, 10);
    assert_eq!(products.len(), 1);
    let p = &products[0];
    assert_eq!(p.name, "Apple iPhone 15 Pro 256GB Garansi Resmi");
    assert_eq!(p.price, "Rp899.000");
    assert_eq!(p.rating.as_deref(), Some("4.9"));
    assert_eq!(p.sold.as_deref(), Some("250+ Terjual"));
    assert_eq!(p.shop_location.as_deref(), Some("Kota Bandung"));
    assert_eq!(p.image_url, "https://img.example/39.jpg");
    assert_eq!(p.product_url, "https://www.tokopedia.com/shop/iphone-15-pro");
}

#[test]
fn dom_skips_cards_without_name_and_prices_cards_without_price_at_zero() {
    let cards = [
        card("https://www.tokopedia.com/a/1", "short name", "Rp10.000", ""),
        card("https://www.tokopedia.com/a/2", "A product name that is long enough", "free", ""),
        card("https://www.tokopedia.com/a/3", "Another product with a long name", "Rp25.000", ""),
    ]
    .concat();
    let products = TokopediaRepository::new().parse_products_from_dom(&page(&cards), 10);
    // a card without a price text gets the zero price; one without a name is left out
    assert_eq!(products.len(), 2);
    assert_eq!(products[0].product_url, "https://www.tokopedia.com/a/2");
    assert_eq!(products[0].price, "Rp0");
    assert_eq!(products[1].product_url, "https://www.tokopedia.com/a/3");
    assert_eq!(products[1].price, "Rp25.000");
    for p in &products {
        assert!(!p.name.is_empty() && !p.price.is_empty());
    }
}

#[test]
fn dom_keeps_the_first_card_of_an_address() {
    let cards = [
        card("https://www.tokopedia.com/a/1", "The first card with this address", "Rp10.000", ""),
        card("https://www.tokopedia.com/a/2", "A card with another address here", "Rp20.000", ""),
        card("https://www.tokopedia.com/a/1", "The second card with this address", "Rp30.000", ""),
    ]
    .concat();
    let products = TokopediaRepository::new().parse_products_from_dom(&page(&cards), 10);
    assert_eq!(products.len(), 2);
    assert_eq!(products[0].name, "The first card with this address");
    assert_eq!(products[1].name, "A card with another address here");
}

#[test]
fn dom_address_without_product_blocks_later_cards() {
    let cards = [
        card("https://www.tokopedia.com/a/1", "no name", "Rp10.000", ""),
        card("https://www.tokopedia.com/a/1", "The second card with this address", "Rp30.000", ""),
    ]
    .concat();
    let products = TokopediaRepository::new().parse_products_from_dom(&page(&cards), 10);
    assert!(products.is_empty());
}

#[test]
fn dom_leaves_out_pages_that_are_no_product_pages() {
    let cards = [
        card("https://www.tokopedia.com/search?q=x", "A link to the search page itself", "Rp10.000", ""),
        card("https://www.tokopedia.com/discovery/deals", "A link to a discovery page here", "Rp10.000", ""),
        card("https://www.tokopedia.com/top-ads/slot", "A link to an advertisement slot", "Rp10.000", ""),
        card("https://www.tokopedia.com/promo/today", "A link to the promotion of today", "Rp10.000", ""),
        card("https://www.tokopedia.com/shop/item", "A link to a true product page", "Rp10.000", ""),
    ]
    .concat();
    let products = TokopediaRepository::new().parse_products_from_dom(&page(&cards), 10);
    assert_eq!(products.len(), 1);
    assert_eq!(products[0].product_url, "https://www.tokopedia.com/shop/item");
}

#[test]
fn dom_stops_at_the_limit() {
    let cards: String = (0..5)
        .map(|i| {
            card(
                &format!("https://www.tokopedia.com/a/{}", i),
                &format!("Product number {} with a long name", i),
                "Rp10.000",
                "",
            )
        })
        .collect();
    let repo = TokopediaRepository::new();
    assert_eq!(repo.parse_products_from_dom(&page(&cards), 3).len(), 3);
    assert_eq!(repo.parse_products_from_dom(&page(&cards), 5).len(), 5);
    assert_eq!(repo.parse_products_from_dom(&page(&cards), 9).len(), 5);
    assert_eq!(repo.parse_products_from_dom(&page(&cards), 0).len(), 0);
}

const SEVERAL_PRICES: &str = "<span>Rp1.250.000</span><span>Rp99.999.999 Cashback</span><span>Rp10.000.000 50%</span><span>Rp7.777.777</span>";

#[test]
fn dom_price_is_the_first_token_in_display_form() {
    let html = page(&card(
        "https://www.tokopedia.com/shop/item",
        "A product with several price texts",
        "Rp9.000 ",
        SEVERAL_PRICES,
    ));
    let products = TokopediaRepository::new().parse_products_from_dom(&html, 10);
    assert_eq!(products.len(), 1);
    assert_eq!(products[0].price, "Rp9.000");
}

#[test]
fn dom_price_token_has_one_separator() {
    let html = page(&card(
        "https://www.tokopedia.com/shop/item",
        "A product with a price in the millions",
        "Rp18.999.000",
        "",
    ));
    let products = TokopediaRepository::new().parse_products_from_dom(&html, 10);
    assert_eq!(products[0].price, "Rp18.999");
}

#[test]
fn dom_price_as_the_page_shows_it() {
    let html = page(&card(
        "https://www.tokopedia.com/shop/item",
        "A product with several price texts",
        "Rp9.000",
        SEVERAL_PRICES,
    ));
    let mut repository = TokopediaRepository::new();
    repository.profile.price_rule = PriceRule::Longest;
    let products = repository.parse_products_from_dom(&html, 10);
    assert_eq!(products.len(), 1);
    // the longest text with the prefix and without a blocked word, the last of two
    assert_eq!(products[0].price, "Rp7.777.777");
    let unpriced = page(&card("https://www.tokopedia.com/shop/other", "A product without any price text", "5.000", ""));
    assert!(repository.parse_products_from_dom(&unpriced, 10).is_empty());
}

#[test]
fn dom_name_is_the_last_of_the_longest_texts() {
    let html = page(&card(
        "https://www.tokopedia.com/shop/item",
        "First name of equal length A",
        "Rp9.000",
        "<span>Other name of equal length B</span><span>A shorter name here</span><span>1.234.567.890.123.456.789.012.345</span>",
    ));
    let products = TokopediaRepository::new().parse_products_from_dom(&html, 10);
    assert_eq!(products[0].name, "Other name of equal length B");
}

#[test]
fn dom_without_container_reads_every_product_link() {
    let html = format!(
        "<html><body>{}</body></html>",
        card("https://www.tokopedia.com/shop/item", "A product on a page without container", "Rp5.000", "")
    );
    let products = TokopediaRepository::new().parse_products_from_dom(&html, 10);
    assert_eq!(products.len(), 1);
}

#[test]
fn dom_with_container_ignores_links_outside() {
    let products = TokopediaRepository::new().parse_products_from_dom(&page(""), 10);
    assert!(products.is_empty());
}

fn embed(json: &str) -> String {
    format!(
        r#"<html><script id=__NEXT_DATA__ type="application/json">{}</script><body></body></html>"#,
        json
    )
}

#[test]
fn structured_data_gives_one_product() {
    let html = embed(r#"{"products":[{"name":"iPhone 15","price":15000000}]}"#);
    let products = TokopediaRepository::new().parse_products_from_json(&html, 10).unwrap();
    assert_eq!(products.len(), 1);
    assert_eq!(products[0].name, "iPhone 15");
    assert_eq!(products[0].price, "Rp15000000");
    assert_eq!(products[0].product_url, "");
    assert_eq!(products[0].image_url, "");
    assert_eq!(products[0].rating, None);
}

#[test]
fn structured_data_reads_every_field() {
    let html = embed(
        r#"{"props":{"pageProps":{"items":[
        {"title":"Samsung Galaxy S24","priceInt":12500000,"ratingScore":4.8,"image":"https://img/x.jpg",
         "link":"/shop/galaxy","shop":{"location":"Jakarta"},"soldCount":120},
        {"product_name":"Xiaomi 14","product_price":"Rp9.999.000","rating":"4.5","imageURL":"u","productUrl":"https://www.tokopedia.com/x/14","shopLocation":"Bandung","totalSold":"1rb+"},
        {"name":"ab","price":1},
        {"name":"No price at all"},
        42
        ]}}}"#,
    );
    let products = TokopediaRepository::new().parse_products_from_json(&html, 10).unwrap();
    assert_eq!(products.len(), 2);
    assert_eq!(products[0].name, "Samsung Galaxy S24");
    assert_eq!(products[0].price, "Rp12500000");
    assert_eq!(products[0].rating.as_deref(), Some("4.8"));
    assert_eq!(products[0].image_url, "https://img/x.jpg");
    assert_eq!(products[0].product_url, "https://www.tokopedia.com/shop/galaxy");
    assert_eq!(products[0].shop_location.as_deref(), Some("Jakarta"));
    assert_eq!(products[0].sold.as_deref(), Some("120"));
    assert_eq!(products[1].name, "Xiaomi 14");
    assert_eq!(products[1].price, "Rp9.999.000");
    assert_eq!(products[1].rating.as_deref(), Some("4.5"));
    assert_eq!(products[1].shop_location.as_deref(), Some("Bandung"));
    assert_eq!(products[1].sold.as_deref(), Some("1rb+"));
}

#[test]
fn structured_data_takes_the_first_list_that_gives_a_product() {
    let html = embed(
        r#"{"a":[{"id":1},{"id":2}],"b":[{"name":"From the second list","price":"Rp1"}],"c":[{"name":"From the third list","price":"Rp2"}]}"#,
    );
    let products = TokopediaRepository::new().parse_products_from_json(&html, 10).unwrap();
    assert_eq!(products.len(), 1);
    assert_eq!(products[0].name, "From the second list");
}

#[test]
fn structured_data_is_capped_and_deduplicated() {
    let html = embed(
        r#"[{"name":"One","price":1,"url":"/p/1"},{"name":"Two","price":2,"url":"/p/2"},
            {"name":"One again","price":3,"url":"/p/1"},{"name":"Three","price":4,"url":"/p/3"},
            {"name":"No address","price":5},{"name":"No address either","price":6}]"#,
    );
    let repo = TokopediaRepository::new();
    let all = repo.parse_products_from_json(&html, 10).unwrap();
    let names: Vec<&str> = all.iter().map(|p| p.name.as_str()).collect();
    assert_eq!(names, ["One", "Two", "Three", "No address", "No address either"]);
    let two = repo.parse_products_from_json(&html, 2).unwrap();
    assert_eq!(two.len(), 2);
    assert_eq!(two[1].name, "Two");
}

#[test]
fn structured_data_absent_or_unusable_gives_none() {
    let repo = TokopediaRepository::new();
    assert!(repo.parse_products_from_json("<html><body>plain page</body></html>", 10).is_none());
    assert!(repo.parse_products_from_json(&embed("{not json"), 10).is_none());
    assert!(repo.parse_products_from_json(&embed(r#"{"items":[1,2,3]}"#), 10).is_none());
    assert!(repo.parse_products_from_json(&embed(r#"{"items":[{"name":"Only a name"}]}"#), 10).is_none());
    assert!(repo.parse_products_from_json(&embed(r#"[{"name":"Price is a fraction","price":1.5}]"#), 10).is_none());
    assert!(repo.parse_products_from_json("__NEXT_DATA__ [{\"name\":\"abc\",\"price\":1}]", 10).is_none());
}

#[test]
fn structured_data_of_the_script_block_as_pages_write_it() {
    let repo = TokopediaRepository::new();
    let data = r#"{"products":[{"name":"iPhone 15","price":15000000}]}"#;
    for opening in [
        r#"<script id="__NEXT_DATA__" type="application/json">"#,
        r#"<script id=__NEXT_DATA__ type="application/json">"#,
        r#"<script id='__NEXT_DATA__' type='application/json'>"#,
        r#"<script id="__NEXT_DATA__" type="application/json" crossorigin="anonymous" nonce="n0">"#,
        r#"<script type="application/json" id="__NEXT_DATA__">"#,
    ] {
        let html = format!("<html><head>{}\n  {}\n</script></head><body></body></html>", opening, data);
        let products = repo.parse_products_from_json(&html, 10).expect(opening);
        assert_eq!(products.len(), 1);
        assert_eq!(products[0].name, "iPhone 15");
        assert_eq!(products[0].price, "Rp15000000");
    }
}

#[test]
fn structured_number_forms() {
    let html = embed(
        r#"[{"name":"Whole","price":-5,"rating":5,"sold":7},
            {"name":"High rating","price":9223372036854775807,"rating":5.1,"sold":1.5},
            {"name":"Too large","price":9223372036854775808}]"#,
    );
    let products = TokopediaRepository::new().parse_products_from_json(&html, 10).unwrap();
    assert_eq!(products.len(), 2);
    assert_eq!(products[0].price, "Rp-5");
    assert_eq!(products[0].rating.as_deref(), Some("5"));
    assert_eq!(products[0].sold.as_deref(), Some("7"));
    assert_eq!(products[1].price, "Rp9223372036854775807");
    assert_eq!(products[1].rating, None);
    assert_eq!(products[1].sold, None);
}

#[test]
fn truncate_str_counts_characters() {
    assert_eq!(truncate_str("héllo wörld", 5), "héllo");
    assert_eq!(truncate_str("abc", 3), "abc");
    assert_eq!(truncate_str("abc", 10), "abc");
    assert_eq!(truncate_str("abc", 0), "");
}
