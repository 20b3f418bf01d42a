use vstd::prelude::*;
use crate::client::ApiConfig;
use crate::json::{spec_get, text_of_opt, JsonValue};

verus! {

/// What the service answered to one request: the status code and, where the body
/// parsed as JSON, the document. A request that got no answer at all is `None`.
pub struct Reply {
    pub status: u16,
    pub body: Option<JsonValue>,
}

/// The address of the search for `isbn`.
pub open spec fn search_url(params: ApiConfig, isbn: Seq<char>) -> Seq<char> {
    params.base_uri@ + "volumes/?projection=full&key="@ + params.api_key@ + "&q=isbn:"@ + isbn
}

/// The id of the first search result: `None` where `items` is missing, not an array
/// or empty; the empty text where the first item has no string `id`.
pub open spec fn first_result(data: JsonValue) -> Option<Seq<char>> {
    match spec_get(data, "items"@) {
        Some(JsonValue::Array(items)) => if items@.len() > 0 {
            Some(text_of_opt(spec_get(items@[0], "id"@)))
        } else {
            None
        },
        _ => None,
    }
}

/// The document of a successful reply: status 200 with a body that parsed.
pub open spec fn ok_body(reply: Option<Reply>) -> Option<JsonValue> {
    match reply {
        Some(r) => if r.status == 200 { r.body } else { None },
        None => None,
    }
}

/// The result id that a search reply yields, if any.
pub open spec fn search_outcome(reply: Option<Reply>) -> Option<Seq<char>> {
    match ok_body(reply) {
        Some(d) => first_result(d),
        None => None,
    }
}

pub fn get_url(isbn: &str, params: &ApiConfig) -> (r: String)
    ensures
        r@ == search_url(*params, isbn@),
{
    let mut url = params.base_uri.clone();
    url.append("volumes/?projection=full&key=");
    url.append(params.api_key.as_str());
    url.append("&q=isbn:");
    url.append(isbn);
    url
}

pub fn get_first_result(data: &JsonValue) -> (r: Option<String>)
    ensures
        match r {
            Some(s) => first_result(*data) == Some(s@),
            None => first_result(*data) is None,
        },
{
    match data.get("items") {
        Some(JsonValue::Array(items)) => {
            if items.len() > 0 {
                match items[0].get("id") {
                    Some(JsonValue::Str(id)) => Some(id.clone()),
                    _ => Some(String::new()),
                }
            } else {
                None
            }
        },
        _ => None,
    }
}

/// The result id that a search reply yields: only a status 200 with a parsed body
/// that lists at least one item gives one.
pub fn search_isbn(reply: &Option<Reply>) -> (r: Option<String>)
    ensures
        match r {
            Some(s) => search_outcome(*reply) == Some(s@),
            None => search_outcome(*reply) is None,
        },
{
    match reply {
        Some(rep) => {
            if rep.status == 200 {
                match &rep.body {
                    Some(data) => get_first_result(data),
                    None => None,
                }
            } else {
                None
            }
        },
        None => None,
    }
}

} // verus!
