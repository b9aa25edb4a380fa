//! Defaults and fixed settings shared by every site integration.

use std::time::Duration;
use vstd::prelude::*;
use crate::profile::char_lists;
use crate::text::chars_of;

verus! {

/// The duration of `secs` whole seconds and nothing more, as
/// `Duration::from_secs` makes it.
pub uninterp spec fn seconds(secs: u64) -> Duration;

/// Search term used when a request names none.
pub const DEFAULT_QUERY: &'static str = "iphone";

/// Number of products returned when a request names no limit.
pub const DEFAULT_LIMIT: usize = 10;

/// Address the API server binds to.
pub const SERVER_HOST: &'static str = "0.0.0.0";

/// Port the API server listens on.
pub const SERVER_PORT: u16 = 4103;

/// Seconds a page may take to load before the browser gives up.
pub const PAGE_LOAD_TIMEOUT_SECS: u64 = 15;

/// Scheme and host of Tokopedia.
pub const TOKOPEDIA_BASE_URL: &'static str = "https://www.tokopedia.com";

/// Path of the Tokopedia search page.
pub const SEARCH_ENDPOINT: &'static str = "/search";

/// Names of Indonesian cities and regions, and the words that go before
/// the name of a regency or a city, by which a shop location is known.
pub open spec fn indonesian_cities() -> Seq<Seq<char>> {
    seq![
        "Jakarta"@,
        "Bandung"@,
        "Surabaya"@,
        "Malang"@,
        "Kab."@,
        "Kota"@,
        "Semarang"@,
        "Yogyakarta"@,
        "Medan"@,
        "Makassar"@,
        "Bali"@,
    ]
}

/// The names by which a shop location is known.
pub fn cities() -> (names: Vec<Vec<char>>)
    ensures
        char_lists(names@) == indonesian_cities(),
{
    let names: Vec<Vec<char>> = vec![
        chars_of("Jakarta"),
        chars_of("Bandung"),
        chars_of("Surabaya"),
        chars_of("Malang"),
        chars_of("Kab."),
        chars_of("Kota"),
        chars_of("Semarang"),
        chars_of("Yogyakarta"),
        chars_of("Medan"),
        chars_of("Makassar"),
        chars_of("Bali"),
    ];
    assert(char_lists(names@) == indonesian_cities());
    names
}

/// The search term a request gets when it names none.
pub fn default_query() -> (query: String)
    ensures
        query@ == DEFAULT_QUERY@,
{
    DEFAULT_QUERY.to_owned()
}

/// The result limit a request gets when it names none.
pub fn default_limit() -> (limit: usize)
    ensures
        limit == DEFAULT_LIMIT,
{
    DEFAULT_LIMIT
}

/// `Duration::from_secs` makes the duration of that many whole seconds,
/// with no part of a second beside them. It depends on the number alone.
pub assume_specification[ Duration::from_secs ](secs: u64) -> (d: Duration)
    ensures
        d == seconds(secs),
;

/// How long a page may take to load: fifteen seconds.
pub fn get_page_load_timeout() -> (timeout: Duration)
    ensures
        timeout == seconds(PAGE_LOAD_TIMEOUT_SECS),
{
    Duration::from_secs(PAGE_LOAD_TIMEOUT_SECS)
}

} // verus!
