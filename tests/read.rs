use bigquery_storage::{
    assemble_arrow_stream, strip_continuation_bytes, ArrowRecordBatch, ArrowSchema,
    ArrowStreamBuilder, AvroRows, AvroSchema, ReadRowsResponse, Rows, Schema, StorageError,
};

fn framed(payload: &[u8]) -> Vec<u8> {
    let mut v = vec![0xFF, 0xFF, 0xFF, 0xFF];
    v.extend_from_slice(payload);
    v
}

fn arrow_schema(bytes: Vec<u8>) -> Schema {
    Schema::ArrowSchema(ArrowSchema { serialized_schema: bytes })
}

fn batch(bytes: Vec<u8>) -> ReadRowsResponse {
    ReadRowsResponse {
        row_count: 1,
        rows: Some(Rows::ArrowRecordBatch(ArrowRecordBatch {
            serialized_record_batch: bytes,
            row_count: 1,
        })),
    }
}

fn avro_rows() -> ReadRowsResponse {
    ReadRowsResponse {
        row_count: 1,
        rows: Some(Rows::AvroRows(AvroRows { serialized_binary_rows: framed(&[9]), row_count: 1 })),
    }
}

fn reason(e: StorageError) -> String {
    match e {
        StorageError::InvalidResponse(s) => s,
        other => panic!("unexpected error {:?}", other),
    }
}

#[test]
fn strip_yields_the_payload() {
    let m = framed(&[1, 2, 3]);
    assert_eq!(strip_continuation_bytes(&m).unwrap(), &[1u8, 2, 3][..]);
}

#[test]
fn strip_rejects_a_short_message() {
    let e = strip_continuation_bytes(&[0xFF, 0xFF, 0xFF]).unwrap_err();
    assert_eq!(reason(e), "arrow message of invalid len");
    let e = strip_continuation_bytes(&[]).unwrap_err();
    assert_eq!(reason(e), "arrow message of invalid len");
}

#[test]
fn strip_rejects_a_wrong_marker() {
    let e = strip_continuation_bytes(&[0xFF, 0xFF, 0xFF, 0xFE, 1]).unwrap_err();
    assert_eq!(reason(e), "invalid arrow message");
    let e = strip_continuation_bytes(&[0, 0, 0, 0]).unwrap_err();
    assert_eq!(reason(e), "invalid arrow message");
}

#[test]
fn strip_rejects_the_bare_marker() {
    let e = strip_continuation_bytes(&[0xFF, 0xFF, 0xFF, 0xFF]).unwrap_err();
    assert_eq!(reason(e), "empty arrow message");
}

#[test]
fn reconstruction_concatenates_in_order() {
    let schema = arrow_schema(framed(&[10, 11]));
    let msgs = vec![batch(framed(&[20])), batch(framed(&[30, 31, 32])), batch(framed(&[40]))];
    let out = assemble_arrow_stream(&schema, &msgs).unwrap();
    assert_eq!(out, vec![10, 11, 20, 30, 31, 32, 40, 0, 0, 0, 0]);
}

#[test]
fn zero_messages_give_schema_and_end_marker() {
    let schema = arrow_schema(framed(&[1, 2, 3, 4, 5]));
    let out = assemble_arrow_stream(&schema, &[]).unwrap();
    assert_eq!(out, vec![1, 2, 3, 4, 5, 0, 0, 0, 0]);
}

#[test]
fn non_arrow_schema_fails_every_reconstruction() {
    let schema = Schema::AvroSchema(AvroSchema { schema: "{}".to_string() });
    let e = assemble_arrow_stream(&schema, &[]).unwrap_err();
    assert_eq!(reason(e), "expected arrow schema");
    let e = assemble_arrow_stream(&schema, &[batch(framed(&[1]))]).unwrap_err();
    assert_eq!(reason(e), "expected arrow schema");
    assert!(ArrowStreamBuilder::new(&schema).is_err());
}

#[test]
fn bad_schema_frame_fails() {
    let e = assemble_arrow_stream(&arrow_schema(vec![1, 2, 3, 4, 5]), &[]).unwrap_err();
    assert_eq!(reason(e), "invalid arrow message");
}

#[test]
fn wrong_row_tag_fails_at_once() {
    let schema = arrow_schema(framed(&[7]));
    let msgs = vec![batch(framed(&[1])), avro_rows(), batch(framed(&[2]))];
    let e = assemble_arrow_stream(&schema, &msgs).unwrap_err();
    assert_eq!(reason(e), "expected arrow record batch");

    let mut builder = ArrowStreamBuilder::new(&schema).unwrap();
    builder.push(&msgs[0]).unwrap();
    let e = builder.push(&msgs[1]).unwrap_err();
    assert_eq!(reason(e), "expected arrow record batch");
    assert_eq!(builder.finish(), vec![7, 1, 0, 0, 0, 0]);
}

#[test]
fn message_without_rows_fails() {
    let schema = arrow_schema(framed(&[7]));
    let msgs = vec![ReadRowsResponse { row_count: 0, rows: None }];
    let e = assemble_arrow_stream(&schema, &msgs).unwrap_err();
    assert_eq!(reason(e), "no rows received");
}

#[test]
fn malformed_batch_frame_fails() {
    let schema = arrow_schema(framed(&[7]));
    let e = assemble_arrow_stream(&schema, &[batch(vec![0xFF, 0xFF, 0xFF, 0xFF])]).unwrap_err();
    assert_eq!(reason(e), "empty arrow message");
}

#[test]
fn builder_matches_whole_reconstruction() {
    let schema = arrow_schema(framed(&[5, 6]));
    let msgs = vec![batch(framed(&[1, 2])), batch(framed(&[3]))];
    let mut builder = ArrowStreamBuilder::new(&schema).unwrap();
    for m in &msgs {
        builder.push(m).unwrap();
    }
    assert_eq!(builder.finish(), assemble_arrow_stream(&schema, &msgs).unwrap());
}

#[test]
fn invalid_builds_an_invalid_response() {
    assert_eq!(reason(StorageError::invalid("why")), "why");
}
