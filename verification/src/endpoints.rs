//! Paths and query parameters of the market-data endpoints.
//!
//! The caller joins each path onto its base URL, attaches the query
//! parameters, and performs the HTTP GET; everything that can be
//! computed from plain values is built — and specified — here.

use vstd::prelude::*;

use crate::digits::spec_dec;
use crate::digits::u32_to_dec;
use crate::decode::JsonStream;
use crate::paginate::StreamHandle;
use crate::paginate::initial_query;
use crate::paginate::query_view;

verus! {

/// A path under `/products/<product_id>`.
fn product_path(product_id: &str, suffix: &str) -> (r: String)
    ensures
        r@ == "/products/"@ + product_id@ + suffix@,
{
    let mut s = String::from_str("/products/");
    s.append(product_id);
    s.append(suffix);
    s
}

/// Path of the product list.
pub fn products_path() -> (r: String)
    ensures
        r@ == "/products"@,
{
    String::from_str("/products")
}

/// Path of a product's order book.
pub fn order_book_path(product_id: &str) -> (r: String)
    ensures
        r@ == "/products/"@ + product_id@ + "/book"@,
{
    product_path(product_id, "/book")
}

/// Query of the order-book endpoint: the aggregation level, rendered
/// in decimal.
pub fn order_book_query(level: u32) -> (r: Vec<(String, String)>)
    ensures
        query_view(r@) == seq![("level"@, spec_dec(level as nat))],
{
    let mut q: Vec<(String, String)> = Vec::new();
    q.push((String::from_str("level"), u32_to_dec(level)));
    proof {
        assert(query_view(q@) =~= seq![("level"@, spec_dec(level as nat))]);
    }
    q
}

/// Path of a product's ticker.
pub fn ticker_path(product_id: &str) -> (r: String)
    ensures
        r@ == "/products/"@ + product_id@ + "/ticker"@,
{
    product_path(product_id, "/ticker")
}

/// Path of a product's trades, the paginated endpoint.
pub fn trades_path(product_id: &str) -> (r: String)
    ensures
        r@ == "/products/"@ + product_id@ + "/trades"@,
{
    product_path(product_id, "/trades")
}

/// Path of a product's historic candles.
pub fn candles_path(product_id: &str) -> (r: String)
    ensures
        r@ == "/products/"@ + product_id@ + "/candles"@,
{
    product_path(product_id, "/candles")
}

/// Query of the historic-candles endpoint: the window bounds as the
/// caller rendered them, and the granularity in decimal.
pub fn candles_query(start: &str, end: &str, granularity: u32) -> (r: Vec<(String, String)>)
    ensures
        query_view(r@) == seq![
            ("start"@, start@),
            ("end"@, end@),
            ("granularity"@, spec_dec(granularity as nat)),
        ],
{
    let mut q: Vec<(String, String)> = Vec::new();
    q.push((String::from_str("start"), start.to_owned()));
    q.push((String::from_str("end"), end.to_owned()));
    q.push((String::from_str("granularity"), u32_to_dec(granularity)));
    proof {
        assert(query_view(q@) =~= seq![
            ("start"@, start@),
            ("end"@, end@),
            ("granularity"@, spec_dec(granularity as nat)),
        ]);
    }
    q
}

/// Path of a product's 24-hour stats.
pub fn stats_path(product_id: &str) -> (r: String)
    ensures
        r@ == "/products/"@ + product_id@ + "/stats"@,
{
    product_path(product_id, "/stats")
}

/// Path of the currency list.
pub fn currencies_path() -> (r: String)
    ensures
        r@ == "/currencies"@,
{
    String::from_str("/currencies")
}

/// Path of the server-time endpoint.
pub fn time_path() -> (r: String)
    ensures
        r@ == "/time"@,
{
    String::from_str("/time")
}

/// The decoded trade stream for one product: a pagination handle
/// aimed at the product's trades, its first request — carrying the
/// page-size limit — counted as dispatched, wrapped in the decode
/// stage.
pub fn trades_stream(base: String, product_id: &str, limit: u32) -> (s: JsonStream)
    ensures
        s.wf(),
        s.is_active(),
        s.inner().history() == Seq::<
            Result<crate::page::RawPage, crate::page::TransportError>,
        >::empty(),
        s.inner().base_chars() == base@,
        s.inner().path_chars() == "/products/"@ + product_id@ + "/trades"@,
        s.inner().limit_chars() == spec_dec(limit as nat),
        s.inner().pending_query() == initial_query(spec_dec(limit as nat)),
{
    let path = trades_path(product_id);
    StreamHandle::new(base, path, limit).into_json()
}

} // verus!
