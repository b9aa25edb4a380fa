use ecommerce_scraper::blibli::blibli_repository::BlibliRepository;
use ecommerce_scraper::dom::Card;

fn first_card(repo: &BlibliRepository, html: &str) -> Card {
    repo.cards(html).into_iter().next().unwrap()
}

#[test]
fn test_extract_price_from_card_with_discount() {
    let html = r#"
            <a class="elf-product-card">
                <div class="els-product__price-wrapper">
                    <div class="els-product__price-top">
                        <div class="els-product__fixed-price-wrapper">
                            <div title="60.270" class="els-product__fixed-price">
                                <span class="els-product__fixed-price-label">Rp</span>
                                <span>60.270</span>
                            </div>
                        </div>
                        <span title="86.100" class="els-product__discount-price">86.100</span>
                        <div class="els-product__discount-wrapper">
                            <div class="els-promo-label b-discount b-small">
                                <div class="els-promo-label__text">30% </div>
                            </div>
                        </div>
                    </div>
                </div>
            </a>
        "#;

    let repo = BlibliRepository::new();
    let card = first_card(&repo, html);
    let price = repo.extract_price_from_card(&card);

    assert_eq!(price, "Rp60.270");
}

#[test]
fn test_extract_price_from_card_without_discount() {
    let html = r#"
            <a class="elf-product-card">
                <div>Rp45.000</div>
                <div>Product name</div>
            </a>
        "#;

    let repo = BlibliRepository::new();
    let card = first_card(&repo, html);
    let price = repo.extract_price_from_card(&card);

    assert_eq!(price, "Rp45.000");
}

#[test]
fn test_extract_price_from_card_mixed_content() {
    let html = r#"
            <a class="elf-product-card">
                <div>Rp58.05061.0505% Diskon 50%</div>
                <div>Product name with discount</div>
            </a>
        "#;

    let repo = BlibliRepository::new();
    let card = first_card(&repo, html);
    let price = repo.extract_price_from_card(&card);

    // Should extract clean price without discount info
    assert_eq!(price, "Rp58.050");
}

#[test]
fn card_without_any_price_gets_the_zero_price() {
    let html = r#"<a class="elf-product-card" href="/p/1"><div>Just a product name</div></a>"#;
    let repo = BlibliRepository::new();
    let card = first_card(&repo, html);
    assert_eq!(repo.extract_price_from_card(&card), "Rp0");
}

#[test]
fn price_box_wins_over_other_price_texts() {
    let html = r#"<a class="elf-product-card"><div>Rp99.000</div>
        <div class="els-product__fixed-price">Rp 1.250.000</div></a>"#;
    let repo = BlibliRepository::new();
    let card = first_card(&repo, html);
    assert_eq!(card.price_box.as_deref(), Some("Rp 1.250.000"));
    assert_eq!(repo.extract_price_from_card(&card), "Rp1.250.000");
}

#[test]
fn unreadable_price_box_falls_back_to_the_texts() {
    let html = r#"<a class="elf-product-card"><div class="els-product__fixed-price">call us</div>
        <div> Rp75.500 </div></a>"#;
    let repo = BlibliRepository::new();
    let card = first_card(&repo, html);
    assert_eq!(repo.extract_price_from_card(&card), "Rp75.500");
}

#[test]
fn format_price_of_the_repository() {
    let repo = BlibliRepository::new();
    assert_eq!(repo.format_price(60270), "Rp60.270");
    assert_eq!(repo.format_price(0), "Rp0");
}
