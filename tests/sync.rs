use books::cli::Args;
use books::client::{ApiConfig, Client, Lookup};
use books::config::Config;
use books::fetch::FetchCommand;
use books::isbn::Isbn;
use books::json::JsonValue;
use books::library::{collect_found, Library, LibraryService};
use books::search::Reply;
use books::storage::Storage;
use books::volume::Volume;

fn text(s: &str) -> JsonValue {
    JsonValue::Str(s.to_string())
}

fn object(entries: Vec<(&str, JsonValue)>) -> JsonValue {
    JsonValue::Object(entries.into_iter().map(|(k, v)| (k.to_string(), v)).collect())
}

fn config() -> Config {
    Config {
        base_url: "https://books.example/".to_string(),
        api_key: "KEY".to_string(),
        output: "library.json".to_string(),
    }
}

fn volume_with(isbn: &str, title: &str) -> Volume {
    let mut v = Volume::empty();
    v.isbn = Isbn::new(isbn);
    v.title = title.to_string();
    v
}

fn ok_reply(body: JsonValue) -> Option<Reply> {
    Some(Reply { status: 200, body: Some(body) })
}

/// Runs one lookup against canned replies, as the program does against the service.
fn resolve(client: &Client, isbn: &Isbn, replies: Vec<Option<Reply>>) -> (Option<Volume>, Vec<String>) {
    let (mut state, first) = client.search_book(isbn);
    let mut sent = vec![first];
    for reply in replies {
        let (next, url) = client.step(state, reply);
        state = next;
        match url {
            Some(u) => sent.push(u),
            None => break,
        }
    }
    match state {
        Lookup::Finished(v) => (v, sent),
        _ => (None, sent),
    }
}

fn titles(cmd: &FetchCommand) -> Vec<String> {
    cmd.get_service().library().volumes.iter().map(|v| v.title.clone()).collect()
}

#[test]
fn new_isbn_is_resolved_and_added() {
    let mut cmd = FetchCommand::create(&config(), Library::new());
    let list = vec![Isbn::new("978-0-13-468599-1")];
    let pending = cmd.pending(&list);
    assert_eq!(pending.len(), 1);
    let client = cmd.get_service().get_client();
    let search = object(vec![("items", JsonValue::Array(vec![object(vec![("id", text("vol1"))])]))]);
    let detail = object(vec![("volumeInfo", object(vec![("title", text("Example Book"))]))]);
    let (found, sent) = resolve(client, &pending[0], vec![ok_reply(search), ok_reply(detail)]);
    assert_eq!(
        sent,
        vec![
            "https://books.example/volumes/?projection=full&key=KEY&q=isbn:9780134685991".to_string(),
            "https://books.example/volumes/vol1?key=KEY".to_string(),
        ]
    );
    let stats = cmd.record(&list, vec![found]);
    assert_eq!(stats.input_list, 1);
    assert_eq!(stats.new_volumes, 1);
    let vols = &cmd.get_service().library().volumes;
    assert_eq!(vols.len(), 1);
    assert_eq!(vols[0].isbn.value, "9780134685991");
    assert_eq!(vols[0].title, "Example Book");
}

#[test]
fn known_isbn_is_skipped() {
    let loaded = Library { volumes: vec![volume_with("9780134685991", "Known")] };
    let mut cmd = FetchCommand::create(&config(), loaded);
    let list = vec![Isbn::new("978-0-13-468599-1")];
    let pending = cmd.pending(&list);
    assert!(pending.is_empty());
    let stats = cmd.record(&list, vec![]);
    assert_eq!(stats.input_list, 1);
    assert_eq!(stats.new_volumes, 0);
    assert_eq!(titles(&cmd), vec!["Known".to_string()]);
}

#[test]
fn search_without_items_adds_nothing() {
    let mut cmd = FetchCommand::create(&config(), Library::new());
    let list = vec![Isbn::new("0000000000")];
    let pending = cmd.pending(&list);
    let client = cmd.get_service().get_client();
    let empty = object(vec![("totalItems", JsonValue::Int(0))]);
    let (found, sent) = resolve(client, &pending[0], vec![ok_reply(empty)]);
    assert!(found.is_none());
    assert_eq!(sent.len(), 1);
    let stats = cmd.record(&list, vec![found]);
    assert_eq!(stats.input_list, 1);
    assert_eq!(stats.new_volumes, 0);
    assert!(titles(&cmd).is_empty());
}

#[test]
fn failed_write_fails_run_but_keeps_merge() {
    let mut cmd = FetchCommand::create(&config(), Library::new());
    let list = vec![Isbn::new("1111")];
    let stats = cmd.record(&list, vec![Some(volume_with("1111", "Kept"))]);
    let r = cmd.finish(stats, Err("permission denied".to_string()));
    assert_eq!(r.err(), Some("Impossible to write library"));
    assert_eq!(titles(&cmd), vec!["Kept".to_string()]);
}

#[test]
fn successful_write_returns_stats() {
    let mut cmd = FetchCommand::create(&config(), Library::new());
    let list = vec![Isbn::new("1111"), Isbn::new("2222")];
    let stats = cmd.record(&list, vec![Some(volume_with("1111", "A")), None]);
    let r = cmd.finish(stats, Ok(())).ok().unwrap();
    assert_eq!(r.input_list, 2);
    assert_eq!(r.new_volumes, 1);
}

#[test]
fn dedupe_keeps_only_unknown_identifiers_in_order() {
    let loaded = Library { volumes: vec![volume_with("2", "two")] };
    let service = LibraryService::new(
        Client::new(ApiConfig { base_uri: String::new(), api_key: String::new() }),
        Storage::new("x.json"),
        loaded,
    );
    let list = vec![Isbn::new("3"), Isbn::new("2"), Isbn::new("1"), Isbn::new("3")];
    let r: Vec<String> = service.identify_new_isbns(&list).iter().map(|i| i.to_string()).collect();
    assert_eq!(r, vec!["3".to_string(), "1".to_string(), "3".to_string()]);
    let reordered = vec![Isbn::new("1"), Isbn::new("3"), Isbn::new("2")];
    let mut a: Vec<String> = service.identify_new_isbns(&reordered).iter().map(|i| i.to_string()).collect();
    let mut b = r.clone();
    a.sort();
    a.dedup();
    b.sort();
    b.dedup();
    assert_eq!(a, b);
}

#[test]
fn second_sync_adds_nothing() {
    let mut cmd = FetchCommand::create(&config(), Library::new());
    let list = vec![Isbn::new("1"), Isbn::new("2")];
    // the service finds "1" and not "2"
    let first = cmd.pending(&list);
    let results: Vec<Option<Volume>> =
        first.iter().map(|i| if i.value == "1" { Some(volume_with("1", "one")) } else { None }).collect();
    let s1 = cmd.record(&list, results);
    assert_eq!(s1.new_volumes, 1);
    let second = cmd.pending(&list);
    assert_eq!(second.len(), 1);
    let results: Vec<Option<Volume>> =
        second.iter().map(|i| if i.value == "1" { Some(volume_with("1", "one")) } else { None }).collect();
    let s2 = cmd.record(&list, results);
    assert_eq!(s2.input_list, 2);
    assert_eq!(s2.new_volumes, 0);
}

#[test]
fn partial_failures_are_dropped() {
    let results = vec![None, Some(volume_with("a", "A")), None, Some(volume_with("b", "B")), None];
    let found = collect_found(results);
    assert_eq!(found.len(), 2);
    assert_eq!(found[0].title, "A");
    assert_eq!(found[1].title, "B");
}

#[test]
fn stats_never_exceed_input() {
    let mut cmd = FetchCommand::create(&config(), Library::new());
    let list = vec![Isbn::new("5"), Isbn::new("6"), Isbn::new("7")];
    let stats = cmd.record(&list, vec![Some(volume_with("5", "")), Some(volume_with("6", "")), None]);
    assert!(stats.new_volumes <= stats.input_list);
    assert_eq!(stats.new_volumes, 2);
    assert_eq!(stats.input_list, 3);
}

#[test]
fn detail_failure_yields_nothing() {
    let client = Client::new(ApiConfig { base_uri: "b/".to_string(), api_key: "k".to_string() });
    let search = object(vec![("items", JsonValue::Array(vec![object(vec![("id", text("X"))])]))]);
    let (found, sent) = resolve(&client, &Isbn::new("1"), vec![ok_reply(search), Some(Reply { status: 404, body: None })]);
    assert!(found.is_none());
    assert_eq!(sent.len(), 2);
    let (found, _) = resolve(&client, &Isbn::new("1"), vec![None]);
    assert!(found.is_none());
}

#[test]
fn config_takes_output_from_arguments() {
    let args = Args {
        input_file: None,
        output_file: "out.json".to_string(),
        config_file: "c.json".to_string(),
        isbn_list: vec![],
    };
    let mut c = config();
    c.set_default(&args);
    assert_eq!(c.output, "out.json");
    assert!(c.is_valid());
    let d = Config::default();
    assert_eq!(d.output, "library.json");
    assert!(!d.is_valid());
}

#[test]
fn save_reports_write_failure_in_words() {
    let service = LibraryService::new(
        Client::new(ApiConfig { base_uri: String::new(), api_key: String::new() }),
        Storage::new("x.json"),
        Library::new(),
    );
    assert_eq!(service.save(Err("read-only".to_string())), Err("Impossible to write library"));
    assert_eq!(service.save(Ok(())), Ok(()));
}

#[test]
fn merge_keeps_identifiers_unique() {
    let loaded = Library { volumes: vec![volume_with("1", "one")] };
    let mut cmd = FetchCommand::create(&config(), loaded);
    let list = vec![Isbn::new("1"), Isbn::new("2"), Isbn::new("3")];
    let pending = cmd.pending(&list);
    let results: Vec<Option<Volume>> = pending.iter().map(|i| Some(volume_with(&i.value, "new"))).collect();
    let stats = cmd.record(&list, results);
    assert_eq!(stats.new_volumes, 2);
    let mut ids: Vec<String> = cmd.get_service().library().volumes.iter().map(|v| v.isbn.to_string()).collect();
    assert_eq!(ids, vec!["1".to_string(), "2".to_string(), "3".to_string()]);
    ids.dedup();
    assert_eq!(ids.len(), 3);
}
