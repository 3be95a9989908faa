//! The texts sent to the server: endpoint URLs and the queries behind the
//! table commands.

use vstd::prelude::*;
use crate::text::{trim_end_char, trim_end_matching};

verus! {

/// A server address without its trailing slashes.
pub fn normalize_base_url(base_url: &str) -> (r: String)
    ensures
        r@ == trim_end_char(base_url@, '/'),
{
    String::from_str(trim_end_matching(base_url, '/'))
}

/// The health endpoint of the server at `base_url` (already normalized).
pub fn health_url(base_url: &str) -> (r: String)
    ensures
        r@ == base_url@ + "/health"@,
{
    let mut r = String::from_str(base_url);
    r.append("/health");
    r
}

/// The query endpoint of the server at `base_url` (already normalized).
pub fn query_url(base_url: &str) -> (r: String)
    ensures
        r@ == base_url@ + "/query"@,
{
    let mut r = String::from_str(base_url);
    r.append("/query");
    r
}

pub open spec fn tables_query_text(pattern: Option<Seq<char>>) -> Seq<char> {
    match pattern {
        Some(p) => "SHOW TABLES LIKE '"@ + p + "'"@,
        None => "SHOW TABLES"@,
    }
}

/// The query that lists the tables, those matching `pattern` where one is given.
pub fn tables_query(pattern: Option<&str>) -> (r: String)
    ensures
        r@ == tables_query_text(match pattern {
            Some(p) => Some(p@),
            None => None,
        }),
{
    match pattern {
        Some(p) => {
            let mut r = String::from_str("SHOW TABLES LIKE '");
            r.append(p);
            r.append("'");
            r
        },
        None => String::from_str("SHOW TABLES"),
    }
}

/// The query that describes the structure of `table`.
pub fn describe_query(table: &str) -> (r: String)
    ensures
        r@ == "DESCRIBE "@ + table@,
{
    let mut r = String::from_str("DESCRIBE ");
    r.append(table);
    r
}

} // verus!
