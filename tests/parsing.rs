use books::cli::{Args, BuildError, ConfigBuilder};
use books::config::Config;
use books::detail::{as_i64, as_string, create_volume, get_url as volume_url};
use books::error::AppError;
use books::input::{input_source, map_list_to_isbn, parse_input_to_isbn, InputError, InputReader, InputSource};
use books::isbn::Isbn;
use books::json::JsonValue;
use books::client::ApiConfig;
use books::search::{get_first_result, get_url as search_url, search_isbn, Reply};

fn text(s: &str) -> JsonValue {
    JsonValue::Str(s.to_string())
}

fn object(entries: Vec<(&str, JsonValue)>) -> JsonValue {
    JsonValue::Object(entries.into_iter().map(|(k, v)| (k.to_string(), v)).collect())
}

fn values(v: Vec<Isbn>) -> Vec<String> {
    v.iter().map(|i| i.to_string()).collect()
}

fn args(list: Vec<&str>, file: Option<&str>) -> Args {
    Args {
        input_file: file.map(|f| f.to_string()),
        output_file: "./library.json".to_string(),
        config_file: "c.json".to_string(),
        isbn_list: list.into_iter().map(|s| s.to_string()).collect(),
    }
}

#[test]
fn isbn_strips_hyphens() {
    assert_eq!(Isbn::new("978-0-13-468599-1").to_string(), "9780134685991");
    assert_eq!(Isbn::new("---").to_string(), "");
    assert_eq!(Isbn::new("123"), Isbn::new("1-2-3"));
}

#[test]
fn text_input_splits_lines_and_spaces() {
    assert_eq!(values(parse_input_to_isbn("1-2 34\n5\n")), vec!["12", "34", "5"]);
    assert_eq!(values(parse_input_to_isbn("a\r\nb")), vec!["a", "b"]);
    assert_eq!(values(parse_input_to_isbn("a  b")), vec!["a", "", "b"]);
    assert!(parse_input_to_isbn("").is_empty());
    assert_eq!(values(parse_input_to_isbn("\n")), vec![""]);
    assert_eq!(values(parse_input_to_isbn("x\r")), vec!["x\r"]);
}

#[test]
fn list_maps_one_for_one() {
    let r = map_list_to_isbn(vec!["1-1".to_string(), "2".to_string()]);
    assert_eq!(values(r), vec!["11", "2"]);
}

#[test]
fn source_prefers_arguments_then_file_then_stream() {
    assert!(matches!(input_source(&args(vec!["1"], Some("f")), true), InputSource::Arguments));
    assert!(matches!(input_source(&args(vec![], Some("f")), true), InputSource::File(p) if p == "f"));
    assert!(matches!(input_source(&args(vec![], None), true), InputSource::Stream));
    assert!(matches!(input_source(&args(vec![], None), false), InputSource::Arguments));
}

#[test]
fn reader_uses_text_or_arguments() {
    let r = InputReader::read(&args(vec![], Some("f")), false, Ok("1-2\n3".to_string())).ok().unwrap();
    assert_eq!(values(r), vec!["12", "3"]);
    let r = InputReader::read(&args(vec!["4-4"], Some("f")), false, Ok("1".to_string())).ok().unwrap();
    assert_eq!(values(r), vec!["44"]);
    let e = InputReader::read(&args(vec![], None), true, Err(InputError::IoError("closed".to_string())));
    assert!(matches!(e, Err(InputError::IoError(m)) if m == "closed"));
}

#[test]
fn error_messages() {
    let e = InputError::ReadFileError("f.txt".to_string(), "missing".to_string());
    assert_eq!(e.message(), "Cannot read from file \"f.txt\": missing");
    assert_eq!(InputError::NoFileProvided.message(), "No input file provided.");
    assert_eq!(AppError::from_build(BuildError::InvalidConfig).message(), "Configuration error: Invalid configuration provided");
    assert_eq!(AppError::from_input(InputError::IoError("x".to_string())).message(), "Input data error. Impossible to read stdin: x");
    assert_eq!(AppError::from_runtime("Impossible to write library").message(), "Runtime error: Impossible to write library");
}

#[test]
fn builder_validates_settings() {
    let a = args(vec![], None);
    let good = Config { base_url: "u".to_string(), api_key: "k".to_string(), output: "o".to_string() };
    let c = ConfigBuilder::from_cli_args(&a, Ok(good)).ok().unwrap();
    assert_eq!(c.output, "./library.json");
    assert!(matches!(ConfigBuilder::from_cli_args(&a, Ok(Config::default())), Err(BuildError::InvalidConfig)));
    assert!(matches!(
        ConfigBuilder::from_cli_args(&a, Err(BuildError::ConfigDirNotDefined)),
        Err(BuildError::ConfigDirNotDefined)
    ));
}

#[test]
fn urls() {
    let p = ApiConfig { base_uri: "https://h/".to_string(), api_key: "K".to_string() };
    assert_eq!(search_url("123", &p), "https://h/volumes/?projection=full&key=K&q=isbn:123");
    assert_eq!(volume_url("abc", &p), "https://h/volumes/abc?key=K");
}

#[test]
fn first_result_id() {
    let d = object(vec![("items", JsonValue::Array(vec![object(vec![("id", text("A"))]), object(vec![("id", text("B"))])]))]);
    assert_eq!(get_first_result(&d), Some("A".to_string()));
    let no_id = object(vec![("items", JsonValue::Array(vec![object(vec![])]))]);
    assert_eq!(get_first_result(&no_id), Some(String::new()));
    let empty = object(vec![("items", JsonValue::Array(vec![]))]);
    assert_eq!(get_first_result(&empty), None);
    assert_eq!(get_first_result(&object(vec![("items", text("x"))])), None);
    assert_eq!(search_isbn(&Some(Reply { status: 500, body: Some(d) })), None);
    assert_eq!(search_isbn(&None), None);
}

#[test]
fn volume_fields_are_coerced() {
    let info = object(vec![
        ("title", text("T")),
        ("description", JsonValue::Int(3)),
        ("publisher", text("P")),
        ("publishedDate", text("2020")),
        ("language", text("en")),
        ("pageCount", JsonValue::Int(321)),
        ("imageLinks", object(vec![("thumbnail", text("img"))])),
        ("authors", JsonValue::Array(vec![text("A"), JsonValue::Null, text("B")])),
        ("unknown", text("ignored")),
    ]);
    let v = create_volume(&object(vec![("volumeInfo", info)]));
    assert_eq!(v.title, "T");
    assert_eq!(v.description, "");
    assert_eq!(v.publisher, "P");
    assert_eq!(v.published_date, "2020");
    assert_eq!(v.language, "en");
    assert_eq!(v.pages, 321);
    assert_eq!(v.image, "img");
    assert_eq!(v.authors, vec!["A".to_string(), String::new(), "B".to_string()]);
    assert_eq!(v.isbn.to_string(), "");
    let bare = create_volume(&object(vec![("volumeInfo", text("no"))]));
    assert_eq!(bare.title, "");
    assert_eq!(bare.pages, 0);
    assert!(bare.authors.is_empty());
    assert_eq!(as_string(&JsonValue::Bool(true)), "");
    assert_eq!(as_i64(&JsonValue::OtherNumber), 0);
    assert_eq!(as_i64(&JsonValue::Int(-4)), -4);
}

#[test]
fn negative_page_count_reads_as_zero() {
    let info = object(vec![("pageCount", JsonValue::Int(-5)), ("title", text("T"))]);
    let v = create_volume(&object(vec![("volumeInfo", info)]));
    assert_eq!(v.pages, 0);
    assert_eq!(v.title, "T");
    let info = object(vec![("pageCount", JsonValue::Int(0))]);
    assert_eq!(create_volume(&object(vec![("volumeInfo", info)])).pages, 0);
}
