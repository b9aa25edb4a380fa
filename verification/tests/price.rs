use ecommerce_scraper::price::{format_price, normalize_price, parse_digits, read_price_token};

fn chars(s: &str) -> Vec<char> {
    s.chars().collect()
}

#[test]
fn format_price_groups_thousands() {
    assert_eq!(format_price(0), "Rp0");
    assert_eq!(format_price(7), "Rp7");
    assert_eq!(format_price(999), "Rp999");
    assert_eq!(format_price(1000), "Rp1.000");
    assert_eq!(format_price(60270), "Rp60.270");
    assert_eq!(format_price(123456), "Rp123.456");
    assert_eq!(format_price(1250000), "Rp1.250.000");
    assert_eq!(format_price(u64::MAX), "Rp18.446.744.073.709.551.615");
}

#[test]
fn token_stops_after_three_digits_behind_the_dot() {
    assert_eq!(read_price_token(&chars("58.05061.0505% Diskon 50%")), Some(58050));
    assert_eq!(normalize_price("Rp58.05061.0505% Diskon 50%"), "Rp58.050");
}

#[test]
fn token_of_a_plain_price() {
    assert_eq!(normalize_price("Rp45.000"), "Rp45.000");
    assert_eq!(normalize_price("Rp5"), "Rp5");
    assert_eq!(normalize_price("Rp12.5"), "Rp125");
}

#[test]
fn token_allows_one_separator_only() {
    assert_eq!(read_price_token(&chars("1.234.567")), Some(1234));
    assert_eq!(normalize_price("Rp1.234.567"), "Rp1.234");
}

#[test]
fn token_ends_at_the_first_other_character() {
    assert_eq!(read_price_token(&chars("12abc")), Some(12));
    assert_eq!(read_price_token(&chars("12,500")), Some(12));
    assert_eq!(read_price_token(&chars(".5")), Some(5));
}

#[test]
fn text_without_amount_gives_zero_price() {
    assert_eq!(normalize_price("Rp"), "Rp0");
    assert_eq!(normalize_price("Rp abc"), "Rp0");
    assert_eq!(normalize_price("Rp."), "Rp0");
    assert_eq!(normalize_price("45.000"), "Rp0");
    assert_eq!(normalize_price(""), "Rp0");
    assert_eq!(read_price_token(&chars("")), None);
}

#[test]
fn amount_beyond_64_bits_is_not_read() {
    assert_eq!(read_price_token(&chars("18446744073709551615")), Some(u64::MAX));
    assert_eq!(read_price_token(&chars("18446744073709551616")), None);
    assert_eq!(normalize_price("Rp99999999999999999999999"), "Rp0");
    assert_eq!(parse_digits(&chars("00000000000000000000000042")), Some(42));
    assert_eq!(parse_digits(&chars("")), None);
    assert_eq!(parse_digits(&chars("12a")), None);
    assert_eq!(parse_digits(&chars("+12")), None);
}

#[test]
fn normalizing_a_formatted_price_changes_nothing() {
    for n in [0u64, 1, 9, 10, 99, 100, 999, 1000, 1001, 45000, 60270, 99999, 100000, 999999] {
        let shown = format_price(n);
        assert_eq!(normalize_price(&shown), shown);
    }
}
