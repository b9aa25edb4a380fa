//! Product extraction for e-commerce search-result pages.
//!
//! A search page of a marketplace is rendered by a browser, polled until
//! its result cards are there, scrolled until it has loaded them all, and
//! read. Products are taken from the structured data that the page embeds
//! or, where that gives none, from the texts of its result cards; prices
//! are brought into one display form, and results are cached by rules of
//! their own.
//!
//! The library decides and computes; it drives no browser and reaches no
//! cache. [`fetch`] gives the steps that bring a page up, [`dom`] and
//! [`json`] read markup and data into plain records, [`extract`] and
//! [`structured`] turn those into products, and [`cache`] holds the rules
//! of the result cache. The modules [`tokopedia`] and [`blibli`] bind
//! these to the two sites.

pub mod blibli;
pub mod cache;
pub mod config;
pub mod dom;
pub mod extract;
pub mod fetch;
pub mod json;
pub mod price;
pub mod profile;
pub mod readiness;
pub mod rules;
pub mod scraper;
pub mod scroll;
pub mod structured;
pub mod text;
pub mod tokopedia;
pub mod url;
