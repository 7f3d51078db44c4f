//! Value types and request-building logic of the catalog client. The
//! client fetches product records keyed by GTIN from a fixed REST
//! endpoint; the HTTP round trip itself lives outside this library, and
//! only hands plain values in and out.

use vstd::prelude::*;

use crate::gtin::GTIN;
use crate::gtin::spec_render;

verus! {

/// A product record of the catalog service, as decoded from its JSON
/// body: the canonical GTIN it is keyed by, and two nullable text
/// fields.
#[derive(Debug, PartialEq)]
pub struct Product {
    pub gtin14: GTIN,
    pub brand_name: Option<String>,
    pub name: Option<String>,
}

/// An ordered list of product records; the order is the server's
/// response order.
#[derive(Debug, PartialEq)]
pub struct ProductList(Vec<Product>);

/// The single opaque transport error of the catalog client: a failed
/// HTTP call or a non-decodable response body, not distinguished
/// further.
#[derive(Debug, PartialEq, Eq, Structural, Clone, Copy)]
pub struct BrocadeError;

impl View for ProductList {
    type V = Seq<Product>;

    closed spec fn view(&self) -> Seq<Product> {
        self.0@
    }
}

impl ProductList {
    /// Wraps decoded records in response order, verbatim.
    pub fn new(items: Vec<Product>) -> (r: ProductList)
        ensures
            r@ == items@,
    {
        ProductList(items)
    }

    /// How many records the server returned.
    pub fn len(&self) -> (n: usize)
        ensures
            n == self@.len(),
    {
        self.0.len()
    }

    /// The record at position `i` of the response order.
    pub fn get(&self, i: usize) -> (r: &Product)
        requires
            i < self@.len(),
        ensures
            *r == self@[i as int],
    {
        &self.0[i]
    }

    /// Gives the records up, still in response order.
    pub fn into_vec(self) -> (r: Vec<Product>)
        ensures
            r@ == self@,
    {
        self.0
    }
}

impl BrocadeError {
    /// A human-readable description of the error.
    pub fn message(&self) -> (r: &'static str)
        ensures
            r@ == "brocade error"@,
    {
        "brocade error"
    }
}

/// The fixed base URL of the catalog service.
pub open spec fn spec_base_url() -> Seq<char> {
    "https://www.brocade.io/products"@
}

/// The base URL of the catalog service: one GET here returns the full
/// unfiltered product list.
pub fn base_url() -> (r: &'static str)
    ensures
        r@ == spec_base_url(),
{
    "https://www.brocade.io/products"
}

/// The URL fetching the single product record keyed by `gtin`: the base
/// URL, a slash, and the canonical 14-digit rendering of the GTIN.
pub fn product_url(gtin: &GTIN) -> (r: String)
    requires
        gtin.wf(),
    ensures
        r@ == spec_base_url() + "/"@ + spec_render(gtin@),
{
    let mut url = String::from_str(base_url());
    url.append("/");
    let digits = gtin.to_string();
    url.append(digits.as_str());
    url
}

/// The URL fetching the product list filtered by `query`: the base URL
/// followed by the query-string parameter, the query text verbatim.
pub fn query_url(query: &str) -> (r: String)
    ensures
        r@ == spec_base_url() + "?query="@ + query@,
{
    let mut url = String::from_str(base_url());
    url.append("?query=");
    url.append(query);
    url
}

} // verus!
