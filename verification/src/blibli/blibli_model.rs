//! The product record of the Blibli endpoint.

use vstd::prelude::*;
use crate::scraper::scraper_model::{Listing, Product, ProductView};
use crate::text::{copy_text, opt_text};

verus! {

/// One product listing taken from a Blibli search-result page.
#[derive(Debug, Clone)]
pub struct BlibliProduct {
    /// Product name.
    pub name: String,
    /// Price in display form.
    pub price: String,
    /// Rating, where the page shows one.
    pub rating: Option<String>,
    /// Address of the product image.
    pub image_url: String,
    /// Absolute address of the product page.
    pub product_url: String,
    /// Where the shop is, where the page says so.
    pub shop_location: Option<String>,
    /// Units sold, where the page says so.
    pub sold: Option<String>,
}

impl View for BlibliProduct {
    type V = ProductView;

    open spec fn view(&self) -> ProductView {
        ProductView {
            name: self.name@,
            price: self.price@,
            rating: opt_text(self.rating),
            image_url: self.image_url@,
            product_url: self.product_url@,
            shop_location: opt_text(self.shop_location),
            sold: opt_text(self.sold),
        }
    }
}

impl Listing for BlibliProduct {
    fn duplicate(&self) -> (copy: Self) {
        BlibliProduct {
            name: self.name.clone(),
            price: self.price.clone(),
            rating: copy_text(&self.rating),
            image_url: self.image_url.clone(),
            product_url: self.product_url.clone(),
            shop_location: copy_text(&self.shop_location),
            sold: copy_text(&self.sold),
        }
    }

}

impl BlibliProduct {
    /// The same listing as a record of the Blibli endpoint.
    pub fn from_product(product: &Product) -> (listing: Self)
        ensures
            listing@ == product@,
    {
        BlibliProduct {
            name: product.name.clone(),
            price: product.price.clone(),
            rating: copy_text(&product.rating),
            image_url: product.image_url.clone(),
            product_url: product.product_url.clone(),
            shop_location: copy_text(&product.shop_location),
            sold: copy_text(&product.sold),
        }
    }
}

} // verus!
