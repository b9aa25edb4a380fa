use ecommerce_scraper::blibli::blibli_model::BlibliProduct;
use ecommerce_scraper::blibli::blibli_repository::BlibliRepository;
use ecommerce_scraper::dom::Card;
use ecommerce_scraper::scraper::scraper_model::{Listing, Product};

fn page(cards: &[&str]) -> String {
    format!("<html><body><main>{}</main></body></html>", cards.concat())
}

#[test]
fn reads_every_field_of_a_card() {
    let html = page(&[r#"<a class="elf-product-card" href="/p/sepatu-lari/ps--ABC-123">
        <img data-src="https://cdn.example/lazy.jpg">
        <img src="https://cdn.example/second.jpg">
        <div class="info">
          <div class="name"> Sepatu Lari Pria Original </div>
          <div class="els-product__fixed-price"><span>Rp</span><span>1.250.000</span></div>
          <div>4.8</div>
          <div>1,2 rb Terjual</div>
          <div>Kota Surabaya</div>
          <div>Jakarta Barat</div>
        </div></a>"#]);
    let products = BlibliRepository::new().parse_products_from_dom(&html, 10);
    assert_eq!(products.len(), 1);
    let p = &products[0];
    // the outer block holds the text of all inner blocks and is the longest
    assert!(p.name.starts_with("Sepatu Lari Pria Original"));
    assert!(p.name.ends_with("Jakarta Barat"));
    assert_eq!(p.price, "Rp1.250.000");
    assert_eq!(p.rating.as_deref(), Some("4.8"));
    // the first block whose lower-case form holds the marker is the outer one too
    assert_eq!(p.sold.as_deref(), Some(p.name.as_str()));
    assert_eq!(p.image_url, "https://cdn.example/lazy.jpg");
    assert_eq!(p.product_url, "https://www.blibli.com/p/sepatu-lari/ps--ABC-123");
    // the first block that names a place is the outer one
    assert_eq!(p.shop_location.as_deref(), Some(p.name.as_str()));
}

fn flat_card(href: &str, blocks: &[&str]) -> String {
    let inner: String = blocks.iter().map(|b| format!("<div>{}</div>", b)).collect();
    format!(r#"<a class="elf-product-card" href="{}">{}</a>"#, href, inner)
}

#[test]
fn classifies_the_texts_of_a_card() {
    let html = page(&[&flat_card(
        "https://www.blibli.com/p/1",
        &[
            "Rp99.000 harga coret",
            "short",
            "5.01",
            "Kemeja Flanel Lengan Panjang",
            "9 terjual dan lainnya",
            "Kaos Polos Katun Combed 30s.",
            "4.9",
            "3.5",
            "120 TERJUAL",
            "Bandung",
            "Kab. Sleman",
        ],
    )]);
    let products = BlibliRepository::new().parse_products_from_dom(&html, 10);
    let p = &products[0];
    // both names have 28 characters: the last of the longest wins
    assert_eq!(p.name, "Kaos Polos Katun Combed 30s.");
    assert_eq!(p.price, "Rp99.000");
    assert_eq!(p.rating.as_deref(), Some("4.9"));
    assert_eq!(p.sold.as_deref(), Some("9 terjual dan lainnya"));
    assert_eq!(p.shop_location.as_deref(), Some("Bandung"));
    assert_eq!(p.image_url, "");
}

#[test]
fn card_without_a_name_is_left_out() {
    let repo = BlibliRepository::new();
    let html = page(&[&flat_card("/p/1", &["Rp10.000", "tiny"])]);
    assert!(repo.parse_products_from_dom(&html, 10).is_empty());
    let html = "<a class='elf-product-card' href='/p/x'><div>Rp45.000</div></a>";
    assert!(repo.parse_products_from_dom(html, 10).is_empty());
    // a text of ten characters is not yet a name, one of eleven is
    let html = page(&[&flat_card("/p/1", &["Ten chars.", "Rp10.000"])]);
    assert!(repo.parse_products_from_dom(&html, 10).is_empty());
    let html = page(&[&flat_card("/p/1", &["Eleven char", "Rp10.000"])]);
    let products = repo.parse_products_from_dom(&html, 10);
    assert_eq!(products.len(), 1);
    assert_eq!(products[0].name, "Eleven char");
    assert_eq!(products[0].rating, None);
    assert_eq!(products[0].sold, None);
    assert_eq!(products[0].shop_location, None);
}

#[test]
fn card_without_a_name_still_takes_its_address() {
    let html = page(&[
        &flat_card("/p/1", &["tiny", "Rp1.000"]),
        &flat_card("/p/1", &["A later card of the same address", "Rp2.000"]),
    ]);
    assert!(BlibliRepository::new().parse_products_from_dom(&html, 10).is_empty());
}

#[test]
fn addresses_are_made_absolute() {
    let html = page(&[
        &flat_card("https://www.blibli.com/p/absolute", &["An absolute address"]),
        &flat_card("/p/rooted", &["A rooted address"]),
        &flat_card("p/bare", &["A bare address"]),
        &flat_card("", &["An empty address"]),
        r#"<a class="elf-product-card"><div>No address at all</div></a>"#,
    ]);
    let products = BlibliRepository::new().parse_products_from_dom(&html, 10);
    let urls: Vec<&str> = products.iter().map(|p| p.product_url.as_str()).collect();
    assert_eq!(
        urls,
        [
            "https://www.blibli.com/p/absolute",
            "https://www.blibli.com/p/rooted",
            "https://www.blibli.com/p/bare",
            "https://www.blibli.com/",
        ]
    );
}

#[test]
fn of_two_cards_with_one_address_the_first_gives_the_product() {
    let html = page(&[
        &flat_card("/p/1", &["The first card of the address", "Rp1.000"]),
        &flat_card("/p/2", &["A card of another address", "Rp2.000"]),
        &flat_card("https://www.blibli.com/p/1", &["The second card of the address", "Rp3.000"]),
        &flat_card("/p/2", &["One more card of the other address", "Rp4.000"]),
    ]);
    let products = BlibliRepository::new().parse_products_from_dom(&html, 10);
    assert_eq!(products.len(), 2);
    assert_eq!(products[0].name, "The first card of the address");
    assert_eq!(products[0].price, "Rp1.000");
    assert_eq!(products[1].name, "A card of another address");
    let mut urls: Vec<&str> = products.iter().map(|p| p.product_url.as_str()).collect();
    urls.dedup();
    assert_eq!(urls.len(), products.len());
}

#[test]
fn every_product_has_name_and_price() {
    let html = page(&[
        &flat_card("/p/1", &[]),
        &flat_card("/p/2", &["x"]),
        &flat_card("/p/3", &["Rp", "Rp.", "terjual"]),
        &flat_card("/p/4", &["A proper product name", "Rp12.345"]),
        &flat_card("/p/5", &["A product without a price"]),
        &flat_card("/p/6", &["Rp a price that is as long as a name", "9 terjual, sold like a name"]),
    ]);
    let products = BlibliRepository::new().parse_products_from_dom(&html, 10);
    assert_eq!(products.len(), 2);
    for p in &products {
        assert!(!p.name.is_empty());
        assert!(!p.price.is_empty());
    }
    assert_eq!(products[0].price, "Rp12.345");
    // a card that names a product and shows no price gets the zero price
    assert_eq!(products[1].name, "A product without a price");
    assert_eq!(products[1].price, "Rp0");
}

#[test]
fn limit_ends_the_walk() {
    let cards: Vec<String> =
        (0..6).map(|i| flat_card(&format!("/p/{}", i), &["Some product name"])).collect();
    let refs: Vec<&str> = cards.iter().map(|c| c.as_str()).collect();
    let html = page(&refs);
    let repo = BlibliRepository::new();
    assert_eq!(repo.parse_products_from_dom(&html, 0).len(), 0);
    assert_eq!(repo.parse_products_from_dom(&html, 4).len(), 4);
    assert_eq!(repo.parse_products_from_dom(&html, 6).len(), 6);
    assert_eq!(repo.parse_products_from_dom(&html, usize::MAX).len(), 6);
    assert_eq!(
        repo.parse_products_from_dom(&html, 2)[1].product_url,
        "https://www.blibli.com/p/1"
    );
}

#[test]
fn page_without_cards_has_no_products() {
    let repo = BlibliRepository::new();
    assert!(repo.parse_products_from_dom("", 10).is_empty());
    assert!(repo.parse_products_from_dom("<html><body><a href='/x'>x</a></body></html>", 10).is_empty());
    assert!(repo.cards("<p>nothing here</p>").is_empty());
}

#[test]
fn cards_hold_what_the_page_shows() {
    let html = r#"<a class="elf-product-card" href="/p/9"><div>one <b>two</b></div>three<img src="a.png" data-src="b.png"></a>"#;
    let cards = BlibliRepository::new().cards(html);
    assert_eq!(cards.len(), 1);
    let card = &cards[0];
    assert_eq!(card.href.as_deref(), Some("/p/9"));
    assert_eq!(card.text_nodes, ["one ", "two", "three"]);
    assert_eq!(card.blocks, ["one two"]);
    assert_eq!(card.price_box, None);
    assert_eq!(card.image.as_deref(), Some("a.png"));
}

#[test]
fn products_from_cards_written_by_hand() {
    let card = |href: &str, name: &str| Card {
        href: Some(href.to_string()),
        text_nodes: vec!["  Rp 12.000".to_string(), "Rp7.500,00".to_string()],
        blocks: vec![name.to_string(), "  -0.5 ".to_string()],
        price_box: Some("Rp 8.250,-".to_string()),
        image: None,
    };
    let cards = vec![
        card("/a", "A name that is long enough"),
        card("/a", "Same address again"),
        card("/b", "B"),
        card("/c", "Another name that is long enough"),
    ];
    let repo = BlibliRepository::new();
    let products = repo.products_from_cards(&cards, 10);
    assert_eq!(products.len(), 2);
    assert_eq!(products[0].name, "A name that is long enough");
    // the price box does not show a number: the first token among the texts is taken
    assert_eq!(products[0].price, "Rp7.500");
    assert_eq!(products[0].rating.as_deref(), Some("-0.5"));
    assert_eq!(products[1].name, "Another name that is long enough");
    assert_eq!(products[1].product_url, "https://www.blibli.com/c");
}

#[test]
fn listing_records_can_be_copied_and_converted() {
    let product = Product {
        name: "Name".to_string(),
        price: "Rp1".to_string(),
        rating: Some("4.5".to_string()),
        image_url: "i".to_string(),
        product_url: "u".to_string(),
        shop_location: None,
        sold: Some("3 terjual".to_string()),
    };
    let copy = product.duplicate();
    assert_eq!(copy.name, "Name");
    assert_eq!(copy.rating.as_deref(), Some("4.5"));
    assert_eq!(copy.sold.as_deref(), Some("3 terjual"));
    let listing = BlibliProduct::from_product(&product);
    assert_eq!(listing.price, "Rp1");
    assert_eq!(listing.image_url, "i");
    assert_eq!(listing.product_url, "u");
    assert_eq!(listing.shop_location, None);
    let again = listing.duplicate();
    assert_eq!(again.name, "Name");
    assert_eq!(again.sold.as_deref(), Some("3 terjual"));
}

#[test]
fn search_address_escapes_spaces() {
    let repo = BlibliRepository::new();
    assert_eq!(repo.search_url("iphone"), "https://www.blibli.com/cari/iphone");
    assert_eq!(
        repo.search_url("iphone 15 pro  max"),
        "https://www.blibli.com/cari/iphone%2015%20pro%20%20max"
    );
    assert_eq!(repo.search_url(""), "https://www.blibli.com/cari/");
}
