//! The product record.

use vstd::prelude::*;
use crate::rules::decimal_rating;
use crate::text::{copy_text, opt_text};

verus! {

/// One product listing taken from a search-result page.
#[derive(Debug, Clone)]
pub struct Product {
    /// Product name; never empty in an extraction result.
    pub name: String,
    /// Price in display form, such as `Rp60.270`; never empty in an
    /// extraction result.
    pub price: String,
    /// Rating, where the page shows one.
    pub rating: Option<String>,
    /// Address of the product image; empty where the page shows none.
    pub image_url: String,
    /// Absolute address of the product page. Within one extraction result
    /// no two products share it.
    pub product_url: String,
    /// Where the shop is, where the page says so.
    pub shop_location: Option<String>,
    /// Units sold, where the page says so.
    pub sold: Option<String>,
}

/// A product as plain text values.
pub struct ProductView {
    pub name: Seq<char>,
    pub price: Seq<char>,
    pub rating: Option<Seq<char>>,
    pub image_url: Seq<char>,
    pub product_url: Seq<char>,
    pub shop_location: Option<Seq<char>>,
    pub sold: Option<Seq<char>>,
}

impl View for Product {
    type V = ProductView;

    open spec fn view(&self) -> ProductView {
        ProductView {
            name: self.name@,
            price: self.price@,
            rating: opt_text(self.rating),
            image_url: self.image_url@,
            product_url: self.product_url@,
            shop_location: opt_text(self.shop_location),
            sold: opt_text(self.sold),
        }
    }
}

impl ProductView {
    /// Whether the record may stand in an extraction result: it has a name
    /// and a price, and its rating, if it has one, is a decimal number of
    /// at most five.
    pub open spec fn complete(self) -> bool {
        &&& self.name.len() > 0
        &&& self.price.len() > 0
        &&& self.rating matches Some(rating) ==> decimal_rating(rating)
    }
}

/// The records of `v` as plain values.
pub open spec fn views<T: View>(v: Seq<T>) -> Seq<T::V> {
    v.map_values(|p: T| p@)
}

/// A record of a listing, of which a second record can be made.
pub trait Listing: View + Sized {
    /// A second record of the same listing.
    fn duplicate(&self) -> (copy: Self)
        ensures
            copy@ == self@,
    ;
}

impl Listing for Product {
    fn duplicate(&self) -> (copy: Self) {
        Product {
            name: self.name.clone(),
            price: self.price.clone(),
            rating: copy_text(&self.rating),
            image_url: self.image_url.clone(),
            product_url: self.product_url.clone(),
            shop_location: copy_text(&self.shop_location),
            sold: copy_text(&self.sold),
        }
    }
}

/// Whether no two of `products` share a product address.
pub open spec fn distinct_urls(products: Seq<ProductView>) -> bool {
    forall|i: int, j: int|
        0 <= i < j < products.len() ==> #[trigger] products[i].product_url
            != #[trigger] products[j].product_url
}

} // verus!
