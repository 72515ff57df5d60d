use serde_json::{Number, Value};
use volt_plugin_api::config::{config_from_parse, decode_config, encode_config, text_from_write};

fn settings() -> Value {
    let mut map = serde_json::Map::new();
    map.insert("enabled".to_string(), Value::Bool(true));
    map.insert("api_key".to_string(), Value::String("test123".to_string()));
    Value::Object(map)
}

#[test]
fn a_saved_document_loads_as_it_was() {
    let config = settings();
    let text = encode_config(&config).unwrap();
    let loaded = decode_config(Some(&text)).unwrap();
    assert_eq!(config, loaded);
}

#[test]
fn nested_documents_round_trip() {
    let mut inner = serde_json::Map::new();
    inner.insert("depth".to_string(), Value::Number(Number::from(2)));
    inner.insert("nothing".to_string(), Value::Null);
    let mut map = serde_json::Map::new();
    map.insert("inner".to_string(), Value::Object(inner));
    map.insert(
        "list".to_string(),
        Value::Array(vec![
            Value::Number(Number::from(-1)),
            Value::String("two".to_string()),
            Value::Bool(false),
        ]),
    );
    let config = Value::Object(map);
    let text = encode_config(&config).unwrap();
    assert_eq!(decode_config(Some(&text)).unwrap(), config);
}

#[test]
fn a_document_is_written_indented_with_sorted_names() {
    let text = encode_config(&settings()).unwrap();
    assert_eq!(text, "{\n  \"api_key\": \"test123\",\n  \"enabled\": true\n}");
}

#[test]
fn a_missing_file_loads_as_the_empty_document() {
    let loaded = decode_config(None).unwrap();
    assert_eq!(loaded, Value::Object(serde_json::Map::new()));
    assert_eq!(encode_config(&loaded).unwrap(), "{}");
}

#[test]
fn an_empty_file_is_not_the_empty_document() {
    let error = decode_config(Some("")).unwrap_err();
    assert_eq!(
        error,
        "Failed to parse config: EOF while parsing a value at line 1 column 0"
    );
}

#[test]
fn malformed_content_is_reported() {
    let error = decode_config(Some("{\"enabled\": tru}")).unwrap_err();
    assert!(error.starts_with("Failed to parse config: "));
    assert_eq!(
        error,
        "Failed to parse config: expected ident at line 1 column 16"
    );
    assert!(decode_config(Some("{} trailing")).is_err());
}

#[test]
fn content_is_read_as_json() {
    assert_eq!(decode_config(Some("{}")).unwrap(), Value::Object(serde_json::Map::new()));
    assert_eq!(decode_config(Some(" [1, 2] ")).unwrap(),
        Value::Array(vec![Value::Number(Number::from(1)), Value::Number(Number::from(2))]));
    assert_eq!(decode_config(Some("null")).unwrap(), Value::Null);
}

#[test]
fn parse_results_pass_through() {
    let good: Result<Value, serde_json::Error> = serde_json::from_str("{\"a\": 1}");
    let mut map = serde_json::Map::new();
    map.insert("a".to_string(), Value::Number(Number::from(1)));
    assert_eq!(config_from_parse(good).unwrap(), Value::Object(map));

    let bad: Result<Value, serde_json::Error> = serde_json::from_str("[1,");
    let expected = format!(
        "Failed to parse config: {}",
        serde_json::from_str::<Value>("[1,").unwrap_err()
    );
    assert_eq!(config_from_parse(bad).unwrap_err(), expected);
}

#[test]
fn write_results_pass_through() {
    assert_eq!(text_from_write(Ok("{}".to_string())), Ok("{}".to_string()));
    let failure = serde_json::from_str::<Value>("?").unwrap_err();
    let shown = failure.to_string();
    assert_eq!(
        text_from_write(Err(failure)),
        Err(format!("Failed to serialize config: {}", shown))
    );
}

struct BrokenStream;

impl std::io::Read for BrokenStream {
    fn read(&mut self, _buffer: &mut [u8]) -> std::io::Result<usize> {
        Err(std::io::Error::new(std::io::ErrorKind::Other, "the stream broke"))
    }
}

#[test]
fn a_stream_failure_is_worded_by_the_library() {
    let failure = serde_json::from_reader::<BrokenStream, Value>(BrokenStream).unwrap_err();
    assert!(failure.is_io());
    assert_eq!(
        config_from_parse(Err(failure)),
        Err("Failed to parse config: I/O error".to_string())
    );
    let failure = serde_json::from_reader::<BrokenStream, Value>(BrokenStream).unwrap_err();
    assert_eq!(
        text_from_write(Err(failure)),
        Err("Failed to serialize config: I/O error".to_string())
    );
}

#[test]
fn numbers_come_back_to_the_last_digit() {
    // read with less care, this one comes back as 1.0715660391465825e-75
    let number = f64::from_bits(0x305f050c368dcc74);
    let config = Value::from(number);
    let text = encode_config(&config).unwrap();
    assert_eq!(text, "1.0715660391465826e-75");
    assert_eq!(decode_config(Some(&text)).unwrap(), config);

    let mut state: u64 = 0x9E3779B97F4A7C15;
    let mut list = Vec::new();
    for _ in 0..50_000 {
        state ^= state << 13;
        state ^= state >> 7;
        state ^= state << 17;
        let number = f64::from_bits(state);
        if number.is_finite() {
            list.push(Value::from(number));
        }
    }
    let config = Value::Array(list);
    let text = encode_config(&config).unwrap();
    assert_eq!(decode_config(Some(&text)).unwrap(), config);
}

#[test]
fn strings_and_names_come_back_as_they_were() {
    let mut map = serde_json::Map::new();
    map.insert(
        "quote \" and \\ and \n".to_string(),
        Value::String("tab\t, bell\u{7}, snowman \u{2603}, \u{1F600}".to_string()),
    );
    map.insert(String::new(), Value::Array(Vec::new()));
    map.insert("big".to_string(), Value::Number(Number::from(u64::MAX)));
    map.insert("small".to_string(), Value::Number(Number::from(i64::MIN)));
    let config = Value::Object(map);
    let text = encode_config(&config).unwrap();
    assert_eq!(decode_config(Some(&text)).unwrap(), config);
}
