use books::isbn::Isbn;
use books::json::JsonValue;
use books::library::Library;
use books::snapshot::volume_from_json;
use books::storage::Storage;
use books::volume::Volume;

fn book(isbn: &str, title: &str, authors: Vec<&str>, pages: i64) -> Volume {
    let mut v = Volume::empty();
    v.isbn = Isbn::new(isbn);
    v.title = title.to_string();
    v.description = "d".to_string();
    v.publisher = "p".to_string();
    v.published_date = "2001".to_string();
    v.image = "http://img".to_string();
    v.language = "en".to_string();
    v.authors = authors.into_iter().map(|a| a.to_string()).collect();
    v.pages = pages;
    v
}

fn summary(l: &Library) -> Vec<(String, String, Vec<String>, i64, String)> {
    l.volumes
        .iter()
        .map(|v| (v.isbn.to_string(), v.title.clone(), v.authors.clone(), v.pages, v.published_date.clone()))
        .collect()
}

#[test]
fn saved_catalog_loads_back_unchanged() {
    let lib = Library { volumes: vec![book("1", "One", vec!["A", "B"], 10), book("2", "Two", vec![], 0)] };
    let storage = Storage::new("library.json");
    let doc = storage.save(&lib);
    let back = storage.load(Some(doc));
    assert_eq!(summary(&back), summary(&lib));
    assert_eq!(back.volumes[1].image, "http://img");
}

#[test]
fn missing_or_broken_snapshot_loads_empty() {
    let storage = Storage::new("library.json");
    assert!(storage.load(None).volumes.is_empty());
    assert!(storage.load(Some(JsonValue::Array(vec![]))).volumes.is_empty());
    let lib = Library { volumes: vec![book("1", "One", vec![], 1)] };
    let mut doc = lib.to_json();
    if let JsonValue::Object(entries) = &mut doc {
        if let JsonValue::Array(items) = &mut entries[0].1 {
            if let JsonValue::Object(fields) = &mut items[0] {
                fields.retain(|(k, _)| k != "pages");
            }
        }
    }
    assert!(storage.load(Some(doc)).volumes.is_empty());
    assert_eq!(storage.path(), "library.json");
}

#[test]
fn record_needs_every_field_with_its_type() {
    let good = Library { volumes: vec![book("9", "Nine", vec!["X"], 9)] }.to_json();
    let item = match good {
        JsonValue::Object(mut e) => match e.remove(0).1 {
            JsonValue::Array(mut items) => items.remove(0),
            _ => panic!("not an array"),
        },
        _ => panic!("not an object"),
    };
    let v = volume_from_json(&item).unwrap();
    assert_eq!(v.title, "Nine");
    assert_eq!(v.authors, vec!["X".to_string()]);
    let bad = JsonValue::Object(vec![("title".to_string(), JsonValue::Int(1))]);
    assert!(volume_from_json(&bad).is_none());
}

#[test]
fn snapshot_has_one_volumes_field_of_full_records() {
    let lib = Library { volumes: vec![book("7", "Seven", vec!["Z"], 7)] };
    let doc = Storage::new("library.json").save(&lib);
    match doc {
        JsonValue::Object(entries) => {
            assert_eq!(entries.len(), 1);
            assert_eq!(entries[0].0, "volumes");
            match &entries[0].1 {
                JsonValue::Array(items) => {
                    assert_eq!(items.len(), 1);
                    match &items[0] {
                        JsonValue::Object(fields) => {
                            let keys: Vec<&str> = fields.iter().map(|(k, _)| k.as_str()).collect();
                            assert_eq!(
                                keys,
                                vec!["isbn", "title", "description", "publisher", "published_date", "image", "language", "authors", "pages"]
                            );
                            assert!(matches!(fields[8].1, JsonValue::Int(7)));
                        }
                        _ => panic!("record is not an object"),
                    }
                }
                _ => panic!("volumes is not an array"),
            }
        }
        _ => panic!("snapshot is not an object"),
    }
}
