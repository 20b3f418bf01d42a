use vstd::prelude::*;
use crate::client::ApiConfig;
use crate::json::{spec_get, text_of, text_of_opt, JsonValue};
use crate::search::{ok_body, Reply};
use crate::volume::Volume;

verus! {

/// The address of the details of the result `volume_id`.
pub open spec fn volume_url(params: ApiConfig, volume_id: Seq<char>) -> Seq<char> {
    params.base_uri@ + "volumes/"@ + volume_id + "?key="@ + params.api_key@
}

/// The integer of a value that is an `i64`, and 0 for any other value.
pub open spec fn int_of(v: JsonValue) -> i64 {
    match v {
        JsonValue::Int(n) => n,
        _ => 0,
    }
}

/// A page count: the integer of the value where it is one and not negative, else 0.
pub open spec fn page_count(v: JsonValue) -> i64 {
    if int_of(v) >= 0 {
        int_of(v)
    } else {
        0
    }
}

/// The field `key` of a value that may be missing.
pub open spec fn field(v: Option<JsonValue>, key: Seq<char>) -> Option<JsonValue> {
    match v {
        Some(x) => spec_get(x, key),
        None => None,
    }
}

/// The author names of an `authors` field: each item's text, in order.
pub open spec fn authors_of(v: Option<JsonValue>) -> Seq<Seq<char>> {
    match v {
        Some(JsonValue::Array(items)) => items@.map_values(|x: JsonValue| text_of(x)),
        _ => Seq::empty(),
    }
}

/// The texts of a sequence of strings.
pub open spec fn texts(v: Seq<String>) -> Seq<Seq<char>> {
    v.map_values(|s: String| s@)
}

/// `v` holds, but for its identifier, what the detail document `data` says of a
/// book: the fields of its `volumeInfo`, each defaulting where it is missing or
/// of another type.
pub open spec fn describes_fields(v: Volume, data: JsonValue) -> bool {
    let info = spec_get(data, "volumeInfo"@);
    &&& v.title@ == text_of_opt(field(info, "title"@))
    &&& v.description@ == text_of_opt(field(info, "description"@))
    &&& v.publisher@ == text_of_opt(field(info, "publisher"@))
    &&& v.published_date@ == text_of_opt(field(info, "publishedDate"@))
    &&& v.language@ == text_of_opt(field(info, "language"@))
    &&& v.pages == (match field(info, "pageCount"@) {
        Some(x) => page_count(x),
        None => 0,
    })
    &&& v.image@ == text_of_opt(field(field(info, "imageLinks"@), "thumbnail"@))
    &&& texts(v.authors@) == authors_of(field(info, "authors"@))
}

/// `v` is what `data` describes, with an empty identifier.
pub open spec fn describes(v: Volume, data: JsonValue) -> bool {
    &&& v.isbn@ == Seq::<char>::empty()
    &&& v.pages >= 0
    &&& describes_fields(v, data)
}

pub fn get_url(volume_id: &str, params: &ApiConfig) -> (r: String)
    ensures
        r@ == volume_url(*params, volume_id@),
{
    let mut url = params.base_uri.clone();
    url.append("volumes/");
    url.append(volume_id);
    url.append("?key=");
    url.append(params.api_key.as_str());
    url
}

pub fn as_string(v: &JsonValue) -> (r: String)
    ensures
        r@ == text_of(*v),
{
    match v {
        JsonValue::Str(s) => s.clone(),
        _ => String::new(),
    }
}

pub fn as_i64(v: &JsonValue) -> (r: i64)
    ensures
        r == int_of(*v),
{
    match v {
        JsonValue::Int(n) => *n,
        _ => 0,
    }
}

fn text_field(info: Option<&JsonValue>, key: &str) -> (r: String)
    ensures
        r@ == text_of_opt(field(opt_val(info), key@)),
{
    match info {
        Some(i) => match i.get(key) {
            Some(x) => as_string(x),
            None => String::new(),
        },
        None => String::new(),
    }
}

/// The value behind an optional reference.
pub open spec fn opt_val(v: Option<&JsonValue>) -> Option<JsonValue> {
    match v {
        Some(x) => Some(*x),
        None => None,
    }
}

fn authors(v: &JsonValue) -> (r: Vec<String>)
    ensures
        texts(r@) == authors_of(Some(*v)),
{
    let mut out: Vec<String> = Vec::new();
    assert(texts(out@) =~= Seq::<Seq<char>>::empty());
    match v {
        JsonValue::Array(items) => {
            let mut i: usize = 0;
            while i < items.len()
                invariant
                    i <= items@.len(),
                    texts(out@) =~= items@.subrange(0, i as int).map_values(|x: JsonValue| text_of(x)),
                decreases items@.len() - i,
            {
                let s = as_string(&items[i]);
                let ghost before = out@;
                out.push(s);
                assert(texts(out@) =~= texts(before).push(s@));
                assert(items@.subrange(0, i + 1) =~= items@.subrange(0, i as int).push(items@[i as int]));
                i += 1;
            }
            assert(items@.subrange(0, items@.len() as int) =~= items@);
        },
        _ => {},
    }
    out
}

/// Reads a book out of a detail document, field by field; a missing or
/// malformed field takes its default and never stops the rest.
pub fn create_volume(data: &JsonValue) -> (r: Volume)
    ensures
        describes(r, *data),
{
    let info = data.get("volumeInfo");
    let mut volume = Volume::empty();
    assert(texts(volume.authors@) =~= Seq::<Seq<char>>::empty());
    volume.title = text_field(info, "title");
    volume.description = text_field(info, "description");
    volume.publisher = text_field(info, "publisher");
    volume.published_date = text_field(info, "publishedDate");
    volume.language = text_field(info, "language");
    match info {
        Some(i) => {
            match i.get("pageCount") {
                Some(x) => {
                    let n = as_i64(x);
                    volume.pages = if n >= 0 { n } else { 0 };
                },
                None => {},
            }
            match i.get("imageLinks") {
                Some(links) => {
                    match links.get("thumbnail") {
                        Some(t) => volume.image = as_string(t),
                        None => {},
                    }
                },
                None => {},
            }
            match i.get("authors") {
                Some(a) => volume.authors = authors(a),
                None => {},
            }
        },
        None => {},
    }
    volume
}

/// The book that a detail reply yields: a status 200 with a parsed body gives one.
pub fn get_volume(reply: &Option<Reply>) -> (r: Option<Volume>)
    ensures
        match ok_body(*reply) {
            Some(d) => r matches Some(v) && describes(v, d),
            None => r is None,
        },
{
    match reply {
        Some(rep) => {
            if rep.status == 200 {
                match &rep.body {
                    Some(data) => Some(create_volume(data)),
                    None => None,
                }
            } else {
                None
            }
        },
        None => None,
    }
}

} // verus!
