//! A client library for the BigQuery Storage read API.
//!
//! The verified core of the library is the reframing of the service's
//! continuation-framed Arrow IPC messages into one Arrow IPC stream
//! (`read`), the distribution of a read session's streams and the
//! construction of the session request (`client`), and the metadata that
//! every outbound request carries (`metadata`). Network calls, the token
//! provider and the Arrow decoder are driven by the caller.
pub mod error;
pub mod client;
pub mod metadata;
pub mod read;

pub use client::{
    CreateReadSessionRequest, DataFormat, ReadRowsRequest, ReadSession, ReadSessionBuilder,
    ReadSessionOptions, RequestedSession, RowsStreamReader, Table, TableModifiers,
    TableReadOptions, Timestamp,
};
pub use error::StorageError;
pub use metadata::RequestMetadata;
pub use read::{
    assemble_arrow_stream, strip_continuation_bytes, ArrowRecordBatch, ArrowSchema,
    ArrowStreamBuilder, AvroRows, AvroSchema, ReadRowsResponse, Rows, Schema,
};

