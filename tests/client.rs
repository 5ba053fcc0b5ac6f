use bigquery_storage::{
    ArrowSchema, AvroSchema, DataFormat, ReadSession, ReadSessionBuilder, RequestMetadata,
    Schema, StorageError, Table, Timestamp,
};

fn session(schema: Option<Schema>, names: &[&str]) -> ReadSession {
    ReadSession::new(schema, names.iter().map(|s| s.to_string()).collect())
}

fn arrow() -> Schema {
    Schema::ArrowSchema(ArrowSchema { serialized_schema: vec![0xFF, 0xFF, 0xFF, 0xFF, 1] })
}

#[test]
fn table_formats_to_its_path() {
    let t = Table::new("proj", "ds", "t");
    assert_eq!(t.to_string(), "projects/proj/datasets/ds/tables/t");
    assert_eq!(t.project_id(), "proj");
}

#[test]
fn zero_stream_count_is_no_constraint() {
    let zero = ReadSessionBuilder::new(Table::new("p", "d", "t")).max_stream_count(0).build();
    let unset = ReadSessionBuilder::new(Table::new("p", "d", "t")).build();
    let five = ReadSessionBuilder::new(Table::new("p", "d", "t")).max_stream_count(5).build();
    assert_eq!(zero.max_stream_count, 0);
    assert_eq!(unset.max_stream_count, 0);
    assert_eq!(five.max_stream_count, 5);
}

#[test]
fn session_request_defaults() {
    let req = ReadSessionBuilder::new(Table::new("bigquery-public-data", "london_bicycles", "cycle_stations")).build();
    assert_eq!(req.parent, "projects/bigquery-public-data");
    assert_eq!(
        req.read_session.table,
        "projects/bigquery-public-data/datasets/london_bicycles/tables/cycle_stations"
    );
    assert_eq!(req.read_session.data_format, DataFormat::Arrow);
    assert!(req.read_session.table_modifiers.is_none());
    assert!(req.read_session.read_options.is_none());
    assert_eq!(
        req.routing_params(),
        "read_session.table=projects/bigquery-public-data/datasets/london_bicycles/tables/cycle_stations"
    );
}

#[test]
fn session_request_options() {
    let req = ReadSessionBuilder::new(Table::new("p", "d", "t"))
        .parent_project_id("openquery-dev".to_string())
        .data_format(DataFormat::Avro)
        .snapshot_time(Timestamp { seconds: 12, nanos: 3 })
        .row_restriction("x > 5".to_string())
        .build();
    assert_eq!(req.parent, "projects/openquery-dev");
    assert_eq!(req.read_session.data_format, DataFormat::Avro);
    let modifiers = req.read_session.table_modifiers.unwrap();
    assert_eq!(modifiers.snapshot_time, Some(Timestamp { seconds: 12, nanos: 3 }));
    let options = req.read_session.read_options.unwrap();
    assert!(options.selected_fields.is_empty());
    assert_eq!(options.row_restriction, "x > 5");
}

#[test]
fn session_request_selected_fields() {
    let req = ReadSessionBuilder::new(Table::new("p", "d", "t"))
        .selected_fields(vec!["a".to_string(), "b".to_string()])
        .build();
    let options = req.read_session.read_options.unwrap();
    assert_eq!(options.selected_fields, vec!["a".to_string(), "b".to_string()]);
    assert_eq!(options.row_restriction, "");
}

#[test]
fn each_stream_is_handed_out_once() {
    let mut s = session(Some(arrow()), &["s0", "s1", "s2"]);
    let mut seen = Vec::new();
    for _ in 0..3 {
        let reader = s.next_stream().unwrap().unwrap();
        seen.push(reader.stream_name().to_string());
    }
    assert!(s.next_stream().unwrap().is_none());
    assert_eq!(s.remaining_streams(), 0);
    seen.sort();
    assert_eq!(seen, vec!["s0", "s1", "s2"]);
}

#[test]
fn empty_session_has_no_stream() {
    let mut s = session(Some(arrow()), &[]);
    assert!(s.next_stream().unwrap().is_none());
}

#[test]
fn stream_reader_carries_schema_and_request() {
    let mut s = session(Some(arrow()), &["only"]);
    let reader = s.next_stream().unwrap().unwrap();
    match reader.schema() {
        Schema::ArrowSchema(a) => assert_eq!(a.serialized_schema, vec![0xFF, 0xFF, 0xFF, 0xFF, 1]),
        Schema::AvroSchema(_) => panic!("wrong schema"),
    }
    let req = reader.read_rows_request();
    assert_eq!(req.read_stream, "only");
    assert_eq!(req.offset, 0);
    assert_eq!(req.routing_params(), "read_stream=only");
    let mut builder = reader.arrow_stream_builder().unwrap();
    assert!(builder.push(&bigquery_storage::ReadRowsResponse { row_count: 0, rows: None }).is_err());
    assert_eq!(builder.finish(), vec![1, 0, 0, 0, 0]);
}

#[test]
fn avro_session_reader_cannot_build_arrow() {
    let mut s = session(Some(Schema::AvroSchema(AvroSchema { schema: "{}".to_string() })), &["x"]);
    let reader = s.next_stream().unwrap().unwrap();
    assert!(reader.arrow_stream_builder().is_err());
}

#[test]
fn session_without_schema_fails() {
    let mut s = session(None, &["a", "b"]);
    match s.next_stream() {
        Err(StorageError::InvalidResponse(r)) => assert_eq!(r, "empty schema response"),
        _ => panic!("expected an invalid response"),
    }
    assert_eq!(s.remaining_streams(), 1);
}

#[test]
fn request_metadata_carries_bearer_and_params() {
    let m = RequestMetadata::new("abc.def", "read_stream=x").unwrap();
    assert_eq!(m.authorization, "Bearer abc.def");
    assert_eq!(m.request_params, "read_stream=x");
}

#[test]
fn request_metadata_rejects_bad_header_text() {
    assert!(matches!(
        RequestMetadata::new("bad\ntoken", "p"),
        Err(StorageError::MetadataEncoding(_))
    ));
    assert!(matches!(
        RequestMetadata::new("ok", "p\u{7f}"),
        Err(StorageError::MetadataEncoding(_))
    ));
    assert!(RequestMetadata::new("tab\there", "caf\u{e9}").is_ok());
}
