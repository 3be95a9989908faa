//! What rendering reads of a server response that parses as JSON.

use vstd::prelude::*;
use serde_json::Value;

verus! {

/// The shape of a parsed response, with the compact JSON text of its members.
#[derive(Debug)]
pub enum JsonShape {
    /// An object: each key with the compact text of its value, in map order.
    Object(Vec<(String, String)>),
    /// An array: the compact text of each element.
    Array(Vec<String>),
    /// A string, number, boolean or null.
    Scalar,
}

/// A response that parses as JSON, as rendering sees it.
#[derive(Debug)]
pub struct ParsedResponse {
    pub shape: JsonShape,
    /// The value serialized compactly.
    pub compact: String,
    /// The value serialized with indentation.
    pub pretty: String,
}

pub enum ShapeView {
    Object(Seq<(Seq<char>, Seq<char>)>),
    Array(Seq<Seq<char>>),
    Scalar,
}

pub struct ParsedView {
    pub shape: ShapeView,
    pub compact: Seq<char>,
    pub pretty: Seq<char>,
}

pub open spec fn entry_view(e: (String, String)) -> (Seq<char>, Seq<char>) {
    (e.0@, e.1@)
}

impl View for JsonShape {
    type V = ShapeView;

    open spec fn view(&self) -> ShapeView {
        match self {
            JsonShape::Object(entries) => ShapeView::Object(entries@.map_values(|e: (String, String)| entry_view(e))),
            JsonShape::Array(items) => ShapeView::Array(items@.map_values(|s: String| s@)),
            JsonShape::Scalar => ShapeView::Scalar,
        }
    }
}

impl View for ParsedResponse {
    type V = ParsedView;

    open spec fn view(&self) -> ParsedView {
        ParsedView { shape: self.shape@, compact: self.compact@, pretty: self.pretty@ }
    }
}

pub open spec fn reading_view(p: Option<ParsedResponse>) -> Option<ParsedView> {
    match p {
        Some(r) => Some(r@),
        None => None,
    }
}

/// What serde_json makes of a text: nothing where it does not parse, else
/// the value's shape and its compact and indented serializations.
pub uninterp spec fn json_reading(raw: Seq<char>) -> Option<ParsedView>;

/// Relies on `serde_json::from_str` to parse the text into a `Value`, and on
/// `Value`'s `Display` (compact; indented under `{:#}`, which serde_json
/// writes as `to_string_pretty` does) for the texts. Map order is serde_json's.
#[verifier::external_body]
pub(crate) fn read_json(raw: &str) -> (r: Option<ParsedResponse>)
    ensures
        reading_view(r) == json_reading(raw@),
{
    let v: Value = serde_json::from_str(raw).ok()?;
    let shape = match &v {
        Value::Object(m) => JsonShape::Object(m.iter().map(|(k, x)| (k.clone(), x.to_string())).collect()),
        Value::Array(a) => JsonShape::Array(a.iter().map(|x| x.to_string()).collect()),
        _ => JsonShape::Scalar,
    };
    Some(ParsedResponse { shape, compact: v.to_string(), pretty: format!("{:#}", v) })
}

} // verus!
