use vstd::prelude::*;
use crate::isbn::Isbn;
use crate::json::{lookup, spec_get, JsonValue};
use crate::library::Library;
use crate::volume::Volume;

verus! {

/// What a volume holds, as plain values.
pub struct VolumeView {
    pub isbn: Seq<char>,
    pub title: Seq<char>,
    pub description: Seq<char>,
    pub publisher: Seq<char>,
    pub published_date: Seq<char>,
    pub image: Seq<char>,
    pub language: Seq<char>,
    pub authors: Seq<Seq<char>>,
    pub pages: i64,
}

impl View for Volume {
    type V = VolumeView;

    open spec fn view(&self) -> VolumeView {
        VolumeView {
            isbn: self.isbn@,
            title: self.title@,
            description: self.description@,
            publisher: self.publisher@,
            published_date: self.published_date@,
            image: self.image@,
            language: self.language@,
            authors: self.authors@.map_values(|s: String| s@),
            pages: self.pages,
        }
    }
}

/// The volumes of a catalog, as plain values.
pub open spec fn views(vols: Seq<Volume>) -> Seq<VolumeView> {
    vols.map_values(|v: Volume| v@)
}

/// The text under `key`, where `d` holds a string there.
pub open spec fn read_text(d: JsonValue, key: Seq<char>) -> Option<Seq<char>> {
    match spec_get(d, key) {
        Some(JsonValue::Str(s)) => Some(s@),
        _ => None,
    }
}

/// The integer under `key`, where `d` holds one there.
pub open spec fn read_int(d: JsonValue, key: Seq<char>) -> Option<i64> {
    match spec_get(d, key) {
        Some(JsonValue::Int(n)) => Some(n),
        _ => None,
    }
}

/// The texts under `key`, where `d` holds an array of strings there.
pub open spec fn read_texts(d: JsonValue, key: Seq<char>) -> Option<Seq<Seq<char>>> {
    match spec_get(d, key) {
        Some(JsonValue::Array(items)) => if forall|i: int|
            0 <= i < items@.len() ==> (#[trigger] items@[i]) is Str {
            Some(items@.map_values(|x: JsonValue| x->Str_0@))
        } else {
            None
        },
        _ => None,
    }
}

/// The identifier of a stored volume: a string under `value` in an object under `isbn`.
pub open spec fn read_isbn(d: JsonValue) -> Option<Seq<char>> {
    match spec_get(d, "isbn"@) {
        Some(x) => read_text(x, "value"@),
        None => None,
    }
}

/// The volume that a stored record holds, where every field is there with its type.
pub open spec fn read_volume(d: JsonValue) -> Option<VolumeView> {
    if read_isbn(d) is Some && read_text(d, "title"@) is Some && read_text(d, "description"@) is Some
        && read_text(d, "publisher"@) is Some && read_text(d, "published_date"@) is Some
        && read_text(d, "image"@) is Some && read_text(d, "language"@) is Some && read_texts(
        d,
        "authors"@,
    ) is Some && read_int(d, "pages"@) is Some {
        Some(
            VolumeView {
                isbn: read_isbn(d)->Some_0,
                title: read_text(d, "title"@)->Some_0,
                description: read_text(d, "description"@)->Some_0,
                publisher: read_text(d, "publisher"@)->Some_0,
                published_date: read_text(d, "published_date"@)->Some_0,
                image: read_text(d, "image"@)->Some_0,
                language: read_text(d, "language"@)->Some_0,
                authors: read_texts(d, "authors"@)->Some_0,
                pages: read_int(d, "pages"@)->Some_0,
            },
        )
    } else {
        None
    }
}

/// The catalog that a snapshot holds: an array under `volumes` whose every item
/// is a complete record. Anything else holds no catalog.
pub open spec fn read_library(d: JsonValue) -> Option<Seq<VolumeView>> {
    match spec_get(d, "volumes"@) {
        Some(JsonValue::Array(items)) => if forall|i: int|
            0 <= i < items@.len() ==> (#[trigger] read_volume(items@[i])) is Some {
            Some(items@.map_values(|x: JsonValue| read_volume(x)->Some_0))
        } else {
            None
        },
        _ => None,
    }
}

/// What loading `doc` gives: the catalog it holds, or an empty one.
pub open spec fn loads_as(doc: Option<JsonValue>, lib: Library) -> bool {
    match doc {
        Some(d) => match read_library(d) {
            Some(vs) => views(lib.volumes@) == vs,
            None => lib.volumes@.len() == 0,
        },
        None => lib.volumes@.len() == 0,
    }
}

fn entry(key: &str, value: JsonValue) -> (r: (String, JsonValue))
    ensures
        r.0@ == key@,
        r.1 == value,
{
    (String::from_str(key), value)
}

fn texts_to_json(list: &Vec<String>) -> (r: JsonValue)
    ensures
        r is Array,
        forall|i: int| 0 <= i < r->Array_0@.len() ==> (#[trigger] r->Array_0@[i]) is Str,
        r->Array_0@.map_values(|x: JsonValue| x->Str_0@) == list@.map_values(|s: String| s@),
{
    let mut items: Vec<JsonValue> = Vec::new();
    let mut i: usize = 0;
    while i < list.len()
        invariant
            i <= list@.len(),
            items@.len() == i,
            forall|k: int| 0 <= k < i ==> (#[trigger] items@[k]) is Str && items@[k]->Str_0@ == list@[k]@,
        decreases list@.len() - i,
    {
        items.push(JsonValue::Str(list[i].clone()));
        i += 1;
    }
    let r = JsonValue::Array(items);
    assert(r->Array_0@.map_values(|x: JsonValue| x->Str_0@) =~= list@.map_values(|s: String| s@));
    r
}

proof fn lemma_lookup_at(entries: Seq<(String, JsonValue)>, j: int, key: Seq<char>)
    requires
        0 <= j < entries.len(),
        entries[j].0@ == key,
        forall|i: int| 0 <= i < j ==> (#[trigger] entries[i]).0@ != key,
    ensures
        lookup(entries, key) == Some(entries[j].1),
    decreases j,
{
    if j > 0 {
        assert forall|i: int| 0 <= i < j - 1 implies (#[trigger] entries.drop_first()[i]).0@ != key by {
            assert(entries.drop_first()[i] == entries[i + 1]);
        }
        lemma_lookup_at(entries.drop_first(), j - 1, key);
    }
}

/// The keys of a stored record, in the order they are written.
pub open spec fn record_keys() -> Seq<Seq<char>> {
    seq![
        "isbn"@,
        "title"@,
        "description"@,
        "publisher"@,
        "published_date"@,
        "image"@,
        "language"@,
        "authors"@,
        "pages"@,
    ]
}

/// `d` is a string value holding `t`.
pub open spec fn is_text(d: JsonValue, t: Seq<char>) -> bool {
    d is Str && d->Str_0@ == t
}

/// `d` is exactly the stored record of `v`: an object with the nine record keys
/// in order, the identifier as an object with the one key `value`, the authors
/// as an array of strings and the page count as an integer.
pub open spec fn is_record_of(d: JsonValue, v: Volume) -> bool {
    &&& d is Object
    &&& d->Object_0@.len() == 9
    &&& forall|j: int| 0 <= j < 9 ==> (#[trigger] d->Object_0@[j]).0@ == record_keys()[j]
    &&& {
        let e = d->Object_0@;
        &&& e[0].1 is Object
        &&& e[0].1->Object_0@.len() == 1
        &&& e[0].1->Object_0@[0].0@ == "value"@
        &&& is_text(e[0].1->Object_0@[0].1, v.isbn@)
        &&& is_text(e[1].1, v.title@)
        &&& is_text(e[2].1, v.description@)
        &&& is_text(e[3].1, v.publisher@)
        &&& is_text(e[4].1, v.published_date@)
        &&& is_text(e[5].1, v.image@)
        &&& is_text(e[6].1, v.language@)
        &&& e[7].1 is Array
        &&& forall|i: int|
            0 <= i < e[7].1->Array_0@.len() ==> (#[trigger] e[7].1->Array_0@[i]) is Str
        &&& e[7].1->Array_0@.map_values(|x: JsonValue| x->Str_0@) == v@.authors
        &&& e[8].1 == JsonValue::Int(v.pages)
    }
}

/// `d` is exactly the snapshot of `vols`: an object with the one key `volumes`,
/// holding the stored record of each volume, in order.
pub open spec fn is_snapshot_of(d: JsonValue, vols: Seq<Volume>) -> bool {
    &&& d is Object
    &&& d->Object_0@.len() == 1
    &&& d->Object_0@[0].0@ == "volumes"@
    &&& d->Object_0@[0].1 is Array
    &&& d->Object_0@[0].1->Array_0@.len() == vols.len()
    &&& forall|k: int|
        0 <= k < vols.len() ==> is_record_of(#[trigger] d->Object_0@[0].1->Array_0@[k], vols[k])
}

proof fn lemma_record_keys_distinct()
    ensures
        forall|i: int, j: int|
            0 <= i < j < 9 ==> (#[trigger] record_keys()[i]) != (#[trigger] record_keys()[j]),
{
    reveal_strlit("isbn");
    reveal_strlit("title");
    reveal_strlit("description");
    reveal_strlit("publisher");
    reveal_strlit("published_date");
    reveal_strlit("image");
    reveal_strlit("language");
    reveal_strlit("authors");
    reveal_strlit("pages");
    let k = record_keys();
    assert forall|i: int, j: int| 0 <= i < j < 9 implies (#[trigger] k[i]) != (#[trigger] k[j]) by {
        if k[i].len() == k[j].len() {
            assert(k[i][0] != k[j][0]);
        }
    }
}

/// A stored record reads back as the volume it was written from.
proof fn lemma_record_reads(d: JsonValue, v: Volume)
    requires
        is_record_of(d, v),
    ensures
        read_volume(d) == Some(v@),
{
    let e = d->Object_0@;
    let k = record_keys();
    lemma_record_keys_distinct();
    assert forall|j: int| 0 <= j < 9 implies lookup(e, #[trigger] k[j]) == Some(e[j].1) by {
        assert forall|i: int| 0 <= i < j implies (#[trigger] e[i]).0@ != k[j] by {
            assert(e[i].0@ == k[i]);
        }
        lemma_lookup_at(e, j, k[j]);
    }
    assert(lookup(e, k[0]) == Some(e[0].1));
    assert(lookup(e, k[1]) == Some(e[1].1));
    assert(lookup(e, k[2]) == Some(e[2].1));
    assert(lookup(e, k[3]) == Some(e[3].1));
    assert(lookup(e, k[4]) == Some(e[4].1));
    assert(lookup(e, k[5]) == Some(e[5].1));
    assert(lookup(e, k[6]) == Some(e[6].1));
    assert(lookup(e, k[7]) == Some(e[7].1));
    assert(lookup(e, k[8]) == Some(e[8].1));
}

/// The stored record of a volume.
pub fn volume_to_json(v: &Volume) -> (r: JsonValue)
    ensures
        is_record_of(r, *v),
        read_volume(r) == Some(v@),
{
    let mut inner: Vec<(String, JsonValue)> = Vec::new();
    inner.push(entry("value", JsonValue::Str(v.isbn.value.clone())));
    let mut e: Vec<(String, JsonValue)> = Vec::new();
    e.push(entry("isbn", JsonValue::Object(inner)));
    e.push(entry("title", JsonValue::Str(v.title.clone())));
    e.push(entry("description", JsonValue::Str(v.description.clone())));
    e.push(entry("publisher", JsonValue::Str(v.publisher.clone())));
    e.push(entry("published_date", JsonValue::Str(v.published_date.clone())));
    e.push(entry("image", JsonValue::Str(v.image.clone())));
    e.push(entry("language", JsonValue::Str(v.language.clone())));
    e.push(entry("authors", texts_to_json(&v.authors)));
    e.push(entry("pages", JsonValue::Int(v.pages)));
    let r = JsonValue::Object(e);
    assert forall|j: int| 0 <= j < 9 implies (#[trigger] r->Object_0@[j]).0@ == record_keys()[j] by {
    }
    proof {
        lemma_record_reads(r, *v);
    }
    r
}

impl Library {
    /// The snapshot of the catalog: its records, in order, under `volumes`.
    pub fn to_json(&self) -> (r: JsonValue)
        ensures
            is_snapshot_of(r, self.volumes@),
            read_library(r) == Some(views(self.volumes@)),
    {
        let mut items: Vec<JsonValue> = Vec::new();
        let mut i: usize = 0;
        while i < self.volumes.len()
            invariant
                i <= self.volumes@.len(),
                items@.len() == i,
                forall|k: int| 0 <= k < i ==> (#[trigger] read_volume(items@[k])) == Some(self.volumes@[k]@),
                forall|k: int| 0 <= k < i ==> is_record_of(#[trigger] items@[k], self.volumes@[k]),
            decreases self.volumes@.len() - i,
        {
            items.push(volume_to_json(&self.volumes[i]));
            i += 1;
        }
        let mut e: Vec<(String, JsonValue)> = Vec::new();
        e.push(entry("volumes", JsonValue::Array(items)));
        let r = JsonValue::Object(e);
        proof {
            reveal_with_fuel(lookup, 2);
            assert(spec_get(r, "volumes"@) == Some(JsonValue::Array(items)));
            assert forall|k: int| 0 <= k < items@.len() implies (#[trigger] read_volume(items@[k])) is Some by {
                assert(read_volume(items@[k]) == Some(self.volumes@[k]@));
            }
            assert(items@.map_values(|x: JsonValue| read_volume(x)->Some_0) =~= views(self.volumes@));
        }
        r
    }
}

fn text_at(d: &JsonValue, key: &str) -> (r: Option<String>)
    ensures
        match r {
            Some(t) => read_text(*d, key@) == Some(t@),
            None => read_text(*d, key@) is None,
        },
{
    match d.get(key) {
        Some(JsonValue::Str(t)) => Some(t.clone()),
        _ => None,
    }
}

fn int_at(d: &JsonValue, key: &str) -> (r: Option<i64>)
    ensures
        r == read_int(*d, key@),
{
    match d.get(key) {
        Some(JsonValue::Int(n)) => Some(*n),
        _ => None,
    }
}

fn texts_at(d: &JsonValue, key: &str) -> (r: Option<Vec<String>>)
    ensures
        match r {
            Some(l) => read_texts(*d, key@) == Some(l@.map_values(|s: String| s@)),
            None => read_texts(*d, key@) is None,
        },
{
    match d.get(key) {
        Some(JsonValue::Array(items)) => {
            let mut out: Vec<String> = Vec::new();
            let mut i: usize = 0;
            while i < items.len()
                invariant
                    i <= items@.len(),
                    out@.len() == i,
                    spec_get(*d, key@) == Some(JsonValue::Array(*items)),
                    forall|k: int| 0 <= k < i ==> (#[trigger] items@[k]) is Str && out@[k]@ == items@[k]->Str_0@,
                decreases items@.len() - i,
            {
                match &items[i] {
                    JsonValue::Str(t) => out.push(t.clone()),
                    _ => return None,
                }
                i += 1;
            }
            assert(out@.map_values(|s: String| s@) =~= items@.map_values(|x: JsonValue| x->Str_0@));
            Some(out)
        },
        _ => None,
    }
}

fn isbn_at(d: &JsonValue) -> (r: Option<Isbn>)
    ensures
        match r {
            Some(i) => read_isbn(*d) == Some(i@),
            None => read_isbn(*d) is None,
        },
{
    match d.get("isbn") {
        Some(x) => match text_at(x, "value") {
            Some(value) => Some(Isbn { value }),
            None => None,
        },
        None => None,
    }
}

/// The volume of a stored record; `None` unless every field is there with its type.
pub fn volume_from_json(d: &JsonValue) -> (r: Option<Volume>)
    ensures
        match r {
            Some(v) => read_volume(*d) == Some(v@),
            None => read_volume(*d) is None,
        },
{
    let isbn = isbn_at(d);
    let title = text_at(d, "title");
    let description = text_at(d, "description");
    let publisher = text_at(d, "publisher");
    let published_date = text_at(d, "published_date");
    let image = text_at(d, "image");
    let language = text_at(d, "language");
    let authors = texts_at(d, "authors");
    let pages = int_at(d, "pages");
    match (isbn, title, description, publisher, published_date, image, language, authors, pages) {
        (
            Some(isbn),
            Some(title),
            Some(description),
            Some(publisher),
            Some(published_date),
            Some(image),
            Some(language),
            Some(authors),
            Some(pages),
        ) => Some(
            Volume {
                isbn,
                title,
                description,
                publisher,
                published_date,
                image,
                language,
                authors,
                pages,
            },
        ),
        _ => None,
    }
}

impl Library {
    /// The catalog that a snapshot holds; `None` unless `volumes` is an array of
    /// complete records.
    pub fn from_json(d: &JsonValue) -> (r: Option<Library>)
        ensures
            match read_library(*d) {
                Some(vs) => r matches Some(l) && views(l.volumes@) == vs,
                None => r is None,
            },
    {
        match d.get("volumes") {
            Some(JsonValue::Array(items)) => {
                let mut volumes: Vec<Volume> = Vec::new();
                let mut i: usize = 0;
                while i < items.len()
                    invariant
                        i <= items@.len(),
                        volumes@.len() == i,
                        spec_get(*d, "volumes"@) == Some(JsonValue::Array(*items)),
                        forall|k: int| 0 <= k < i ==> (#[trigger] read_volume(items@[k])) == Some(volumes@[k]@),
                    decreases items@.len() - i,
                {
                    match volume_from_json(&items[i]) {
                        Some(v) => volumes.push(v),
                        None => return None,
                    }
                    i += 1;
                }
                assert forall|k: int| 0 <= k < items@.len() implies (#[trigger] read_volume(items@[k])) is Some by {
                    assert(read_volume(items@[k]) == Some(volumes@[k]@));
                }
                assert(views(volumes@) =~= items@.map_values(|x: JsonValue| read_volume(x)->Some_0));
                Some(Library { volumes })
            },
            _ => None,
        }
    }
}

impl crate::storage::Storage {
    /// The snapshot to write at the store's location: the whole catalog.
    pub fn save(&self, library: &Library) -> (r: JsonValue)
        ensures
            is_snapshot_of(r, library.volumes@),
            read_library(r) == Some(views(library.volumes@)),
    {
        library.to_json()
    }

    /// The catalog from the snapshot read at the store's location: empty where
    /// there was none, or where it holds no catalog.
    pub fn load(&self, doc: Option<JsonValue>) -> (r: Library)
        ensures
            loads_as(doc, r),
    {
        match doc {
            Some(d) => match Library::from_json(&d) {
                Some(l) => l,
                None => Library::new(),
            },
            None => Library::new(),
        }
    }
}

/// Saving a catalog and loading what was saved gives back the same records, in
/// the same order.
pub proof fn lemma_round_trip(lib: Library, doc: JsonValue, back: Library)
    requires
        read_library(doc) == Some(views(lib.volumes@)),
        loads_as(Some(doc), back),
    ensures
        views(back.volumes@) == views(lib.volumes@),
{
}

} // verus!
