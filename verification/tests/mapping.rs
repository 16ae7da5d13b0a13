use fluvio_duck::bind::{Cell, DataChunk, DuckDBTypeEnum};
use fluvio_duck::error::ConfigError;
use fluvio_duck::json::{
    check_path, check_path_readable, classify, select, JsonFound, PathClass, PathGroup, Step,
};
use fluvio_duck::mapping::{
    coerce, ColumnMapping, JqlMapper, Mapping, OffsetMapper, TimestampMapper, ValueMapper,
};
use fluvio_duck::record::Record;

fn json_cell(payload: &str, path: &str, ty: DuckDBTypeEnum) -> (Cell, bool) {
    let mapper = JqlMapper::new(path.to_string()).expect("valid path");
    let record = Record::new(0, 0, payload.as_bytes().to_vec());
    let mut chunk = DataChunk::new(2, 4);
    let done = mapper.map(&record, 1, 2, &mut chunk, &ty);
    assert_eq!(chunk.get_vector(0).get(2), Cell::Empty);
    assert_eq!(chunk.get_vector(1).get(1), Cell::Empty);
    (chunk.get_vector(1).get(2), done.is_ok())
}

#[test]
fn offset_is_written_whole_into_a_wide_column() {
    let record = Record::new(0x1_0000_0005, 9, vec![]);
    let mut chunk = DataChunk::new(1, 2);
    assert!(OffsetMapper().map(&record, 0, 1, &mut chunk, &DuckDBTypeEnum::Ubigint).is_ok());
    assert_eq!(chunk.get_vector(0).get(1), Cell::UInt64(0x1_0000_0005));
    assert_eq!(chunk.get_vector(0).get(0), Cell::Empty);
    assert!(OffsetMapper().map(&record, 0, 0, &mut chunk, &DuckDBTypeEnum::Bigint).is_ok());
    assert_eq!(chunk.get_vector(0).get(0), Cell::UInt64(0x1_0000_0005));
}

#[test]
fn offset_is_truncated_to_a_narrow_column() {
    let record = Record::new(0x1_0000_0005, 9, vec![]);
    let mut chunk = DataChunk::new(1, 2);
    assert!(OffsetMapper().map(&record, 0, 0, &mut chunk, &DuckDBTypeEnum::Integer).is_ok());
    assert_eq!(chunk.get_vector(0).get(0), Cell::UInt32(5));
}

#[test]
fn timestamp_is_copied() {
    let record = Record::new(1, -42, vec![]);
    let mut chunk = DataChunk::new(2, 2);
    assert!(TimestampMapper().map(&record, 1, 0, &mut chunk, &DuckDBTypeEnum::TimestampMs).is_ok());
    assert_eq!(chunk.get_vector(1).get(0), Cell::Int64(-42));
}

#[test]
fn value_is_copied_without_reading_it() {
    let record = Record::new(1, 2, vec![0xff, 0x00, b'{']);
    let mut chunk = DataChunk::new(1, 1);
    assert!(ValueMapper().map(&record, 0, 0, &mut chunk, &DuckDBTypeEnum::Varchar).is_ok());
    assert_eq!(chunk.get_vector(0).get(0), Cell::Bytes(vec![0xff, 0x00, b'{']));
}

#[test]
fn mapping_dispatches_by_variant() {
    let record = Record::new(3, 4, b"{\"a\": true}".to_vec());
    let mut chunk = DataChunk::new(4, 1);
    let jql = JqlMapper::new("\"a\"".to_string()).unwrap();
    assert!(Mapping::Offset(OffsetMapper()).map(&record, 0, 0, &mut chunk, &DuckDBTypeEnum::Ubigint).is_ok());
    assert!(Mapping::Timestamp(TimestampMapper()).map(&record, 1, 0, &mut chunk, &DuckDBTypeEnum::TimestampMs).is_ok());
    assert!(Mapping::Value(ValueMapper()).map(&record, 2, 0, &mut chunk, &DuckDBTypeEnum::Varchar).is_ok());
    assert!(Mapping::Jql(jql).map(&record, 3, 0, &mut chunk, &DuckDBTypeEnum::Boolean).is_ok());
    assert_eq!(chunk.get_vector(0).get(0), Cell::UInt64(3));
    assert_eq!(chunk.get_vector(1).get(0), Cell::Int64(4));
    assert_eq!(chunk.get_vector(2).get(0), Cell::Bytes(b"{\"a\": true}".to_vec()));
    assert_eq!(chunk.get_vector(3).get(0), Cell::UInt8(1));
}

#[test]
fn null_gives_the_zero_of_a_numeric_type() {
    let doc = "{\"n\": null}";
    assert_eq!(json_cell(doc, "\"n\"", DuckDBTypeEnum::Integer), (Cell::Int32(0), true));
    assert_eq!(json_cell(doc, "\"n\"", DuckDBTypeEnum::Ubigint), (Cell::UInt64(0), true));
    assert_eq!(json_cell(doc, "\"n\"", DuckDBTypeEnum::Float), (Cell::Float(0.0f64.to_bits()), true));
    assert_eq!(json_cell(doc, "\"n\"", DuckDBTypeEnum::Double), (Cell::Double(0.0f64.to_bits()), true));
}

#[test]
fn null_gives_the_word_in_a_text_column_and_nothing_elsewhere() {
    let doc = "{\"n\": null}";
    assert_eq!(json_cell(doc, "\"n\"", DuckDBTypeEnum::Varchar), (Cell::Bytes(b"null".to_vec()), true));
    assert_eq!(json_cell(doc, "\"n\"", DuckDBTypeEnum::TimestampMs), (Cell::Empty, true));
    assert_eq!(json_cell(doc, "\"n\"", DuckDBTypeEnum::Blob), (Cell::Empty, true));
}

#[test]
fn timestamp_text_becomes_epoch_millis() {
    let doc = "{\"at\": \"2023-01-28T23:54:23.405Z\"}";
    assert_eq!(
        json_cell(doc, "\"at\"", DuckDBTypeEnum::TimestampMs),
        (Cell::Int64(1_674_950_063_405), true)
    );
    let doc = "{\"at\": \"1970-01-01T01:00:00+01:00\", \"before\": \"1969-12-31T23:59:59.5Z\"}";
    assert_eq!(json_cell(doc, "\"at\"", DuckDBTypeEnum::TimestampMs), (Cell::Int64(0), true));
    assert_eq!(json_cell(doc, "\"before\"", DuckDBTypeEnum::TimestampMs), (Cell::Int64(-500), true));
}

#[test]
fn unreadable_timestamp_leaves_the_cell_alone() {
    let doc = "{\"at\": \"yesterday\"}";
    assert_eq!(json_cell(doc, "\"at\"", DuckDBTypeEnum::TimestampMs), (Cell::Empty, true));
    let doc = "{\"at\": \"2023-01-28 23:54\"}";
    assert_eq!(json_cell(doc, "\"at\"", DuckDBTypeEnum::TimestampMs), (Cell::Empty, true));
    let doc = "{\"at\": \"\"}";
    assert_eq!(json_cell(doc, "\"at\"", DuckDBTypeEnum::TimestampMs), (Cell::Empty, true));
}

#[test]
fn text_is_written_verbatim() {
    let doc = "{\"s\": \"gr\u{fc}n\"}";
    assert_eq!(json_cell(doc, "\"s\"", DuckDBTypeEnum::Varchar), (Cell::Bytes("gr\u{fc}n".as_bytes().to_vec()), true));
    assert_eq!(json_cell(doc, "\"s\"", DuckDBTypeEnum::Integer), (Cell::Bytes("gr\u{fc}n".as_bytes().to_vec()), true));
}

#[test]
fn numbers_are_coerced_to_the_column() {
    let doc = "{\"n\": 7, \"neg\": -1, \"big\": 4294967301, \"x\": 1.5}";
    assert_eq!(json_cell(doc, "\"n\"", DuckDBTypeEnum::Integer), (Cell::Int32(7), true));
    assert_eq!(json_cell(doc, "\"big\"", DuckDBTypeEnum::Integer), (Cell::Int32(5), true));
    assert_eq!(json_cell(doc, "\"n\"", DuckDBTypeEnum::Ubigint), (Cell::UInt64(7), true));
    assert_eq!(json_cell(doc, "\"neg\"", DuckDBTypeEnum::Ubigint), (Cell::UInt64(u64::MAX), true));
    assert_eq!(json_cell(doc, "\"x\"", DuckDBTypeEnum::Double), (Cell::Double(1.5f64.to_bits()), true));
    assert_eq!(json_cell(doc, "\"x\"", DuckDBTypeEnum::Float), (Cell::Float(1.5f64.to_bits()), true));
    assert_eq!(json_cell(doc, "\"n\"", DuckDBTypeEnum::Double), (Cell::Double(7.0f64.to_bits()), true));
}

#[test]
fn numbers_that_do_not_fit_are_dropped() {
    let doc = "{\"x\": 1.5, \"huge\": 18446744073709551615, \"n\": 7}";
    assert_eq!(json_cell(doc, "\"x\"", DuckDBTypeEnum::Integer), (Cell::Empty, true));
    assert_eq!(json_cell(doc, "\"huge\"", DuckDBTypeEnum::Ubigint), (Cell::Empty, true));
    assert_eq!(json_cell(doc, "\"n\"", DuckDBTypeEnum::Varchar), (Cell::Empty, true));
    assert_eq!(json_cell(doc, "\"n\"", DuckDBTypeEnum::TimestampMs), (Cell::Empty, true));
}

#[test]
fn booleans_are_one_byte() {
    let doc = "{\"t\": true, \"f\": false}";
    assert_eq!(json_cell(doc, "\"t\"", DuckDBTypeEnum::Boolean), (Cell::UInt8(1), true));
    assert_eq!(json_cell(doc, "\"f\"", DuckDBTypeEnum::Boolean), (Cell::UInt8(0), true));
    assert_eq!(json_cell(doc, "\"t\"", DuckDBTypeEnum::Ubigint), (Cell::UInt8(1), true));
}

#[test]
fn objects_and_arrays_are_written_as_json_text() {
    let doc = "{\"o\": {\"b\": 1, \"a\": [1, 2]}, \"l\": [1, \"x\", null]}";
    assert_eq!(
        json_cell(doc, "\"o\"", DuckDBTypeEnum::Varchar),
        (Cell::Bytes(b"{\"b\":1,\"a\":[1,2]}".to_vec()), true)
    );
    assert_eq!(
        json_cell(doc, "\"l\"", DuckDBTypeEnum::Integer),
        (Cell::Bytes(b"[1,\"x\",null]".to_vec()), true)
    );
    assert_eq!(json_cell(doc, "\"l\".[1]", DuckDBTypeEnum::Varchar), (Cell::Bytes(b"x".to_vec()), true));
}

#[test]
fn missing_path_writes_the_engines_message() {
    let (cell, ok) = json_cell("{\"a\": 1}", "\"b\"", DuckDBTypeEnum::Integer);
    assert!(ok);
    assert_eq!(cell, Cell::Bytes(b"Node \"b\" not found on the parent element".to_vec()));
}

#[test]
fn malformed_payload_is_a_map_error() {
    let mapper = JqlMapper::new("\"a\"".to_string()).unwrap();
    let record = Record::new(0, 0, b"{\"a\": ".to_vec());
    let mut chunk = DataChunk::new(1, 1);
    let error = mapper.map(&record, 0, 0, &mut chunk, &DuckDBTypeEnum::Integer).unwrap_err();
    assert!(error.to_string().contains("EOF"));
    assert_eq!(error.to_string(), error.message);
    assert_eq!(chunk.get_vector(0).get(0), Cell::Empty);
}

#[test]
fn select_tells_the_kinds_apart() {
    let doc = b"{\"a\": {\"s\": \"x\", \"n\": 2, \"f\": 2.5, \"b\": false, \"z\": null, \"l\": []}}";
    assert_eq!(select(doc, "\"a\".\"s\""), Some(Ok(JsonFound::Text("x".to_string()))));
    assert_eq!(select(doc, "\"a\".\"n\""), Some(Ok(JsonFound::Number(Some(2), Some(2.0f64.to_bits())))));
    assert_eq!(select(doc, "\"a\".\"f\""), Some(Ok(JsonFound::Number(None, Some(2.5f64.to_bits())))));
    assert_eq!(select(doc, "\"a\".\"b\""), Some(Ok(JsonFound::Bool(false))));
    assert_eq!(select(doc, "\"a\".\"z\""), Some(Ok(JsonFound::Null)));
    assert_eq!(select(doc, "\"a\".\"l\""), Some(Ok(JsonFound::Composite("[]".to_string()))));
    assert_eq!(select(doc, "\"a\".\"q\""), Some(Ok(JsonFound::Missing("Node \"q\" not found on parent node \"a\"".to_string()))));
    assert!(matches!(select(b"nope", "\"a\""), Some(Err(_))));
    assert_eq!(select(doc, "[2:1]"), None);
    assert_eq!(select(b"nope", "[2:1]"), None);
    assert_eq!(select(doc, "a.b"), None);
    assert_eq!(
        select(b"[1, 2, 3, 4]", "[1:2]"),
        Some(Ok(JsonFound::Composite("[2,3]".to_string())))
    );
}

#[test]
fn coerce_on_given_values() {
    assert_eq!(coerce(&JsonFound::Null, &DuckDBTypeEnum::Integer, None), Some(Cell::Int32(0)));
    assert_eq!(coerce(&JsonFound::Null, &DuckDBTypeEnum::Date, None), None);
    assert_eq!(coerce(&JsonFound::Bool(true), &DuckDBTypeEnum::Varchar, None), Some(Cell::UInt8(1)));
    assert_eq!(
        coerce(&JsonFound::Number(Some(-2), None), &DuckDBTypeEnum::Integer, None),
        Some(Cell::Int32(-2))
    );
    assert_eq!(
        coerce(&JsonFound::Number(Some(i64::MIN), None), &DuckDBTypeEnum::Integer, None),
        Some(Cell::Int32(0))
    );
    assert_eq!(coerce(&JsonFound::Number(None, Some(9)), &DuckDBTypeEnum::Integer, None), None);
    assert_eq!(coerce(&JsonFound::Number(None, Some(9)), &DuckDBTypeEnum::Float, None), Some(Cell::Float(9)));
    assert_eq!(
        coerce(&JsonFound::Text("t".to_string()), &DuckDBTypeEnum::TimestampMs, Some(12)),
        Some(Cell::Int64(12))
    );
    assert_eq!(coerce(&JsonFound::Text("t".to_string()), &DuckDBTypeEnum::TimestampMs, None), None);
    assert_eq!(
        coerce(&JsonFound::Text("t".to_string()), &DuckDBTypeEnum::Varchar, Some(12)),
        Some(Cell::Bytes(b"t".to_vec()))
    );
    assert_eq!(
        coerce(&JsonFound::Missing("gone".to_string()), &DuckDBTypeEnum::Double, None),
        Some(Cell::Bytes(b"gone".to_vec()))
    );
    assert_eq!(
        coerce(&JsonFound::Composite("{}".to_string()), &DuckDBTypeEnum::Double, None),
        Some(Cell::Bytes(b"{}".to_vec()))
    );
}

#[test]
fn column_names_and_type_tags() {
    let m = || Mapping::Value(ValueMapper());
    let cases = [
        ("a:i", "a", DuckDBTypeEnum::Integer),
        ("a:l", "a", DuckDBTypeEnum::Ubigint),
        ("a:f", "a", DuckDBTypeEnum::Float),
        ("a:d", "a", DuckDBTypeEnum::Double),
        ("a:s", "a", DuckDBTypeEnum::Varchar),
        ("a:t", "a", DuckDBTypeEnum::TimestampMs),
        ("a:x", "a", DuckDBTypeEnum::Varchar),
        ("a:ii", "a", DuckDBTypeEnum::Varchar),
        ("a:", "a", DuckDBTypeEnum::Varchar),
        ("a", "a", DuckDBTypeEnum::Varchar),
        ("a:i:d", "a", DuckDBTypeEnum::Integer),
        (":d", "", DuckDBTypeEnum::Double),
        ("", "", DuckDBTypeEnum::Varchar),
        ("na\u{ef}ve:t", "na\u{ef}ve", DuckDBTypeEnum::TimestampMs),
    ];
    for (name_ty, name, ty) in cases {
        let column = ColumnMapping::new(name_ty.to_string(), m());
        assert_eq!(column.name, name, "{}", name_ty);
        assert_eq!(column.ty, ty, "{}", name_ty);
        assert!(matches!(column.mapping, Mapping::Value(_)));
    }
}

#[test]
fn readable_paths() {
    for path in [
        "\"a\"", "\"a\",\"b\"", "[1,2]", "[1:2]", "{\"a\",\"b\"}", "\"a\"|\"b\"", "\"a\" . \"b\"", "[2:1]",
        "[123456789]", "\"[,1] {[0]} 1234567890\"", "\"q\\\" {[\"", "|={\"a\":\"b\"}", "", "a b",
    ] {
        assert!(check_path_readable(path), "{}", path);
    }
    for path in [
        "[,1]", "[ ,1]", "[ 1 ]", "[1 ,2]", "[1, 2]", "[1 2]", "[1:2 3]", "[1234567890]", "{[0]}", "{\"a\",[1:2]}",
        "{[]}", "\"a\"|{[1]}", "\"a\\\\\"[1 2]",
    ] {
        assert!(!check_path_readable(path), "{}", path);
        assert_eq!(check_path(path), PathClass::Unsupported, "{}", path);
        assert!(JqlMapper::new(path.to_string()).is_err());
    }
}

#[test]
fn classes_of_paths() {
    for path in ["\"a\"", "\"a\".\"b\"", ".", "\"a\".[0]", "[7]", "\"with space\"", "..\"a\"!", "\"a\".[]",
        "{\"a\"}", "\"a\"|\"b\"", "\"a\"|={\"b\",\"c\":\"d\"}", "\"a\"|[0]|{\"b\"}"] {
        assert_eq!(check_path(path), PathClass::Steady, "{}", path);
    }
    for path in ["\"a\",\"b\"", "[1,2]", "{\"a\",\"b\"}", "\"a\"|[0,1]", "\"a\"|{\"b\",\"c\"}", ".,\"a\""] {
        assert_eq!(check_path(path), PathClass::Unsteady, "{}", path);
        assert!(!JqlMapper::new(path.to_string()).unwrap().is_steady());
    }
    for path in ["[1:2]", "\"a\".[:3]", "\"a\"|[0:1]", "[0:]", "[:]", "[3:3]", "\"a\".[1:2].\"b\""] {
        assert_eq!(check_path(path), PathClass::Steady, "{}", path);
    }
    assert_eq!(check_path("[1:2],\"a\""), PathClass::Unsteady);
    for path in ["[2:1]", "\"a\".[3:]", "\"a\"|[1:0]", "\"a\",[2:]", "[1:2].\"a\"", "[:2].[0]"] {
        assert_eq!(check_path(path), PathClass::Unsupported, "{}", path);
        assert_eq!(
            JqlMapper::new(path.to_string()).unwrap_err(),
            ConfigError::UnsupportedPath(path.to_string())
        );
    }
    for path in ["", "a.b", "contact.ph", "?", "|\"a\"", "\"a\",", "!"] {
        assert_eq!(check_path(path), PathClass::Empty, "{}", path);
        assert_eq!(
            JqlMapper::new(path.to_string()).unwrap_err(),
            ConfigError::InvalidPath(path.to_string())
        );
    }
    let steady = JqlMapper::new("\"a\"".to_string()).unwrap();
    assert_eq!(steady.selectors(), "\"a\"");
    assert!(steady.is_steady());
    assert_eq!(steady.clone().selectors(), "\"a\"");
}

#[test]
fn classes_of_groups() {
    let group = |rooted: bool, selectors: Vec<Step>, filters: Vec<Step>| PathGroup { rooted, selectors, filters };
    assert_eq!(classify(&vec![]), PathClass::Empty);
    assert_eq!(classify(&vec![group(false, vec![], vec![Step::Name])]), PathClass::Empty);
    assert_eq!(classify(&vec![group(true, vec![], vec![])]), PathClass::Steady);
    assert_eq!(
        classify(&vec![group(false, vec![Step::Name, Step::Index(1), Step::Array, Step::Object(1)], vec![Step::Lens])]),
        PathClass::Steady
    );
    assert_eq!(classify(&vec![group(false, vec![Step::Index(2)], vec![])]), PathClass::Unsteady);
    assert_eq!(classify(&vec![group(false, vec![Step::Name], vec![Step::Object(3)])]), PathClass::Unsteady);
    assert_eq!(
        classify(&vec![group(false, vec![Step::Name], vec![]), group(true, vec![], vec![])]),
        PathClass::Unsteady
    );
    let up = Step::Range(Some(1), Some(2));
    let down = Step::Range(Some(2), Some(1));
    assert_eq!(classify(&vec![group(false, vec![Step::Name, up], vec![])]), PathClass::Steady);
    assert_eq!(classify(&vec![group(false, vec![up], vec![up])]), PathClass::Steady);
    assert_eq!(classify(&vec![group(false, vec![up, Step::Name], vec![])]), PathClass::Unsupported);
    assert_eq!(classify(&vec![group(false, vec![Step::Name, down], vec![])]), PathClass::Unsupported);
    assert_eq!(classify(&vec![group(false, vec![Step::Name], vec![down])]), PathClass::Unsupported);
    assert_eq!(
        classify(&vec![group(false, vec![Step::Range(Some(1), None)], vec![])]),
        PathClass::Unsupported
    );
    assert_eq!(
        classify(&vec![group(false, vec![Step::Range(Some(0), None)], vec![Step::Range(None, None)])]),
        PathClass::Steady
    );
    assert_eq!(
        classify(&vec![group(false, vec![Step::Name], vec![]), group(false, vec![], vec![down])]),
        PathClass::Empty
    );
}

#[test]
fn wider_paths_are_served() {
    let doc = "{\"a\": [{\"b\": 1, \"c\": \"x\"}, {\"b\": 2}, {\"c\": \"y\"}], \"n\": 7}";
    assert_eq!(json_cell(doc, "\"n\",\"a\".[0].\"b\"", DuckDBTypeEnum::Varchar), (Cell::Bytes(b"[7,1]".to_vec()), true));
    assert_eq!(json_cell(doc, "\"a\".[2,0]", DuckDBTypeEnum::Varchar), (Cell::Bytes(b"[{\"c\":\"y\"},{\"b\":1,\"c\":\"x\"}]".to_vec()), true));
    assert_eq!(json_cell(doc, "\"a\".[0].{\"c\",\"b\"}", DuckDBTypeEnum::Varchar), (Cell::Bytes(b"{\"c\":\"x\",\"b\":1}".to_vec()), true));
    assert_eq!(json_cell(doc, "\"a\"|={\"b\"}|\"b\"", DuckDBTypeEnum::Varchar), (Cell::Bytes(b"[1,2]".to_vec()), true));
    assert_eq!(json_cell(doc, "\"a\"|={\"c\":\"y\"}", DuckDBTypeEnum::Varchar), (Cell::Bytes(b"[{\"c\":\"y\"}]".to_vec()), true));
    assert_eq!(json_cell(doc, "\"a\".[1].{\"b\"}", DuckDBTypeEnum::Varchar), (Cell::Bytes(b"{\"b\":2}".to_vec()), true));
    let (cell, ok) = json_cell(doc, "\"x\",\"y\"", DuckDBTypeEnum::Varchar);
    assert!(ok);
    assert!(
        cell == Cell::Bytes(b"Node \"x\" not found on the parent element".to_vec())
            || cell == Cell::Bytes(b"Node \"y\" not found on the parent element".to_vec())
    );
}
