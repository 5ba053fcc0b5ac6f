//! Tables, read session requests, and the distribution of a read session's
//! streams.
use vstd::prelude::*;

use crate::error::{is_invalid_response, StorageError};
use crate::read::{ArrowStreamBuilder, Schema, SchemaView, schema_outcome, agrees};

verus! {

/// The mathematical view of a [`Table`].
pub struct TableView {
    pub project_id: Seq<char>,
    pub dataset_id: Seq<char>,
    pub table_id: Seq<char>,
}

/// A fully qualified BigQuery table. This requires a `project_id`, a
/// `dataset_id` and a `table_id`.
pub struct Table {
    project_id: String,
    dataset_id: String,
    table_id: String,
}

impl View for Table {
    type V = TableView;

    closed spec fn view(&self) -> TableView {
        TableView {
            project_id: self.project_id@,
            dataset_id: self.dataset_id@,
            table_id: self.table_id@,
        }
    }
}

/// The canonical path of the table `t`.
pub open spec fn table_path(t: TableView) -> Seq<char> {
    "projects/"@ + t.project_id + "/datasets/"@ + t.dataset_id + "/tables/"@ + t.table_id
}

impl Table {
    /// The table `table_id` of the dataset `dataset_id` in the project
    /// `project_id`.
    pub fn new(project_id: &str, dataset_id: &str, table_id: &str) -> (r: Self)
        ensures
            r@ == (TableView {
                project_id: project_id@,
                dataset_id: dataset_id@,
                table_id: table_id@,
            }),
    {
        Table {
            project_id: String::from_str(project_id),
            dataset_id: String::from_str(dataset_id),
            table_id: String::from_str(table_id),
        }
    }

    /// The project that owns the table.
    pub fn project_id(&self) -> (r: &str)
        ensures
            r@ == self@.project_id,
    {
        self.project_id.as_str()
    }

    /// The canonical path `projects/<p>/datasets/<d>/tables/<t>`.
    pub fn to_string(&self) -> (r: String)
        ensures
            r@ == table_path(self@),
    {
        let mut s = String::from_str("projects/");
        s.append(self.project_id.as_str());
        s.append("/datasets/");
        s.append(self.dataset_id.as_str());
        s.append("/tables/");
        s.append(self.table_id.as_str());
        s
    }
}

/// The format in which the service serializes rows.
#[derive(Clone, Copy, Debug, PartialEq, Eq, Structural)]
pub enum DataFormat {
    Unspecified,
    Avro,
    Arrow,
}

/// A point in time, as seconds and nanoseconds since the Unix epoch.
#[derive(Clone, Copy, Debug, PartialEq, Eq, Structural)]
pub struct Timestamp {
    pub seconds: i64,
    pub nanos: i32,
}

/// The options of a read session; an absent option takes its default.
pub struct ReadSessionOptions {
    /// The output format; Arrow when absent.
    pub data_format: Option<DataFormat>,
    /// The snapshot of the table to read; the present when absent.
    pub snapshot_time: Option<Timestamp>,
    /// The names of the fields to read; all fields when absent.
    pub selected_fields: Option<Vec<String>>,
    /// A filter on the rows, like a SQL `WHERE` clause; no filter when absent.
    pub row_restriction: Option<String>,
    /// The largest number of streams; the service decides when absent or zero.
    pub max_stream_count: Option<i32>,
    /// The project that owns the session; the table's project when absent.
    pub parent_project_id: Option<String>,
}

/// Options that are all absent.
pub open spec fn absent_options() -> ReadSessionOptions {
    ReadSessionOptions {
        data_format: None,
        snapshot_time: None,
        selected_fields: None,
        row_restriction: None,
        max_stream_count: None,
        parent_project_id: None,
    }
}

impl ReadSessionOptions {
    /// Options that are all absent.
    pub fn new() -> (r: Self)
        ensures
            r == absent_options(),
    {
        ReadSessionOptions {
            data_format: None,
            snapshot_time: None,
            selected_fields: None,
            row_restriction: None,
            max_stream_count: None,
            parent_project_id: None,
        }
    }
}

/// The snapshot of a table that a session reads.
pub struct TableModifiers {
    pub snapshot_time: Option<Timestamp>,
}

/// The fields and rows of a table that a session reads.
pub struct TableReadOptions {
    /// The names of the fields to read; all fields when empty.
    pub selected_fields: Vec<String>,
    /// A filter on the rows; no filter when empty.
    pub row_restriction: String,
}

/// The session that a session-creation request asks for.
pub struct RequestedSession {
    /// The path of the table to read.
    pub table: String,
    pub data_format: DataFormat,
    pub table_modifiers: Option<TableModifiers>,
    pub read_options: Option<TableReadOptions>,
}

/// A request to create a read session.
pub struct CreateReadSessionRequest {
    /// `projects/<id>` of the project that owns the session.
    pub parent: String,
    pub read_session: RequestedSession,
    /// The largest number of streams; zero lets the service decide.
    pub max_stream_count: i32,
}

/// The project that owns a session on `table` with the options `opts`.
pub open spec fn parent_project(table: TableView, opts: ReadSessionOptions) -> Seq<char> {
    match opts.parent_project_id {
        Some(p) => p@,
        None => table.project_id,
    }
}

/// The routing parameters of a session-creation request on the table whose
/// path is `path`.
pub open spec fn session_routing_params(path: Seq<char>) -> Seq<char> {
    "read_session.table="@ + path
}

/// The routing parameters of a row-read request on the stream `stream`.
pub open spec fn stream_routing_params(stream: Seq<char>) -> Seq<char> {
    "read_stream="@ + stream
}

impl CreateReadSessionRequest {
    /// The routing parameters that go with this request.
    pub fn routing_params(&self) -> (r: String)
        ensures
            r@ == session_routing_params(self.read_session.table@),
    {
        let mut s = String::from_str("read_session.table=");
        s.append(self.read_session.table.as_str());
        s
    }
}

/// A builder for a [`CreateReadSessionRequest`] on one table.
pub struct ReadSessionBuilder {
    pub table: Table,
    pub opts: ReadSessionOptions,
}

impl ReadSessionBuilder {
    /// A builder for `table` with every option absent.
    pub fn new(table: Table) -> (r: Self)
        ensures
            r.table@ == table@,
            r.opts == absent_options(),
    {
        ReadSessionBuilder { table, opts: ReadSessionOptions::new() }
    }

    /// Sets the data format of the output data. Defaults to Arrow if not set.
    pub fn data_format(self, data_format: DataFormat) -> (r: Self)
        ensures
            r.table == self.table,
            r.opts == (ReadSessionOptions { data_format: Some(data_format), ..self.opts }),
    {
        let mut r = self;
        r.opts.data_format = Some(data_format);
        r
    }

    /// Sets the snapshot time of the table. If not set, interpreted as now.
    pub fn snapshot_time(self, snapshot_time: Timestamp) -> (r: Self)
        ensures
            r.table == self.table,
            r.opts == (ReadSessionOptions { snapshot_time: Some(snapshot_time), ..self.opts }),
    {
        let mut r = self;
        r.opts.snapshot_time = Some(snapshot_time);
        r
    }

    /// Names of the fields in the table that should be read. If empty or not
    /// set, all fields will be read.
    pub fn selected_fields(self, selected_fields: Vec<String>) -> (r: Self)
        ensures
            r.table == self.table,
            r.opts == (ReadSessionOptions { selected_fields: Some(selected_fields), ..self.opts }),
    {
        let mut r = self;
        r.opts.selected_fields = Some(selected_fields);
        r
    }

    /// SQL text filtering statement, similar to a `WHERE` clause in a query.
    pub fn row_restriction(self, row_restriction: String) -> (r: Self)
        ensures
            r.table == self.table,
            r.opts == (ReadSessionOptions { row_restriction: Some(row_restriction), ..self.opts }),
    {
        let mut r = self;
        r.opts.row_restriction = Some(row_restriction);
        r
    }

    /// Max initial number of streams. If unset or zero, the service chooses.
    pub fn max_stream_count(self, max_stream_count: i32) -> (r: Self)
        ensures
            r.table == self.table,
            r.opts == (ReadSessionOptions { max_stream_count: Some(max_stream_count), ..self.opts }),
    {
        let mut r = self;
        r.opts.max_stream_count = Some(max_stream_count);
        r
    }

    /// The project that owns the session. Defaults to the table's project.
    pub fn parent_project_id(self, parent_project_id: String) -> (r: Self)
        ensures
            r.table == self.table,
            r.opts == (ReadSessionOptions {
                parent_project_id: Some(parent_project_id),
                ..self.opts
            }),
    {
        let mut r = self;
        r.opts.parent_project_id = Some(parent_project_id);
        r
    }

    /// The session-creation request that the table and options make.
    pub fn build(self) -> (r: CreateReadSessionRequest)
        ensures
            r.parent@ == "projects/"@ + parent_project(self.table@, self.opts),
            r.read_session.table@ == table_path(self.table@),
            r.read_session.data_format == match self.opts.data_format {
                Some(f) => f,
                None => DataFormat::Arrow,
            },
            r.read_session.table_modifiers == match self.opts.snapshot_time {
                Some(t) => Some(TableModifiers { snapshot_time: Some(t) }),
                None => None,
            },
            (self.opts.selected_fields is None && self.opts.row_restriction is None)
                <==> r.read_session.read_options is None,
            r.read_session.read_options is Some ==> {
                let ro = r.read_session.read_options->Some_0;
                &&& ro.selected_fields@ == match self.opts.selected_fields {
                    Some(f) => f@,
                    None => Seq::empty(),
                }
                &&& ro.row_restriction@ == match self.opts.row_restriction {
                    Some(s) => s@,
                    None => Seq::empty(),
                }
            },
            r.max_stream_count == match self.opts.max_stream_count {
                Some(n) => n,
                None => 0i32,
            },
    {
        let table = self.table.to_string();
        let data_format = match self.opts.data_format {
            Some(f) => f,
            None => DataFormat::Arrow,
        };
        let table_modifiers = match self.opts.snapshot_time {
            Some(t) => Some(TableModifiers { snapshot_time: Some(t) }),
            None => None,
        };
        let read_options = match (self.opts.selected_fields, self.opts.row_restriction) {
            (None, None) => None,
            (fields, restriction) => Some(
                TableReadOptions {
                    selected_fields: match fields {
                        Some(f) => f,
                        None => Vec::new(),
                    },
                    row_restriction: match restriction {
                        Some(s) => s,
                        None => String::new(),
                    },
                },
            ),
        };
        let mut parent = String::from_str("projects/");
        match &self.opts.parent_project_id {
            Some(p) => parent.append(p.as_str()),
            None => parent.append(self.table.project_id.as_str()),
        }
        let max_stream_count = match self.opts.max_stream_count {
            Some(n) => n,
            None => 0i32,
        };
        CreateReadSessionRequest {
            parent,
            read_session: RequestedSession { table, data_format, table_modifiers, read_options },
            max_stream_count,
        }
    }
}

/// A request to read the rows of one stream from its start.
pub struct ReadRowsRequest {
    /// The name of the stream.
    pub read_stream: String,
    /// The row to start at.
    pub offset: i64,
}

impl ReadRowsRequest {
    /// The routing parameters that go with this request.
    pub fn routing_params(&self) -> (r: String)
        ensures
            r@ == stream_routing_params(self.read_stream@),
    {
        let mut s = String::from_str("read_stream=");
        s.append(self.read_stream.as_str());
        s
    }
}

/// The mathematical view of a [`RowsStreamReader`].
pub struct RowsStreamReaderView {
    pub stream: Seq<char>,
    pub schema: SchemaView,
}

/// One stream of a read session, with the session's schema.
pub struct RowsStreamReader {
    stream: String,
    schema: Schema,
}

impl View for RowsStreamReader {
    type V = RowsStreamReaderView;

    closed spec fn view(&self) -> RowsStreamReaderView {
        RowsStreamReaderView { stream: self.stream@, schema: self.schema@ }
    }
}

impl RowsStreamReader {
    /// The name of the stream.
    pub fn stream_name(&self) -> (r: &str)
        ensures
            r@ == self@.stream,
    {
        self.stream.as_str()
    }

    /// The schema of the session that the stream belongs to.
    pub fn schema(&self) -> (r: &Schema)
        ensures
            r@ == self@.schema,
    {
        &self.schema
    }

    /// The request that reads the whole stream.
    pub fn read_rows_request(&self) -> (r: ReadRowsRequest)
        ensures
            r.read_stream@ == self@.stream,
            r.offset == 0,
    {
        ReadRowsRequest { read_stream: self.stream.clone(), offset: 0 }
    }

    /// Starts the Arrow stream of this stream's rows with the session's schema.
    pub fn arrow_stream_builder(&self) -> (r: Result<ArrowStreamBuilder, StorageError>)
        ensures
            agrees(r, schema_outcome(self@.schema)),
    {
        ArrowStreamBuilder::new(&self.schema)
    }
}

/// The mathematical view of a [`ReadSession`].
pub struct ReadSessionView {
    pub schema: Option<SchemaView>,
    pub streams: Seq<Seq<char>>,
}

/// A read session as the service created it: the schema and the streams that
/// have not been handed out yet.
pub struct ReadSession {
    schema: Option<Schema>,
    streams: Vec<String>,
}

/// The view of an optional schema.
pub open spec fn schema_view(s: Option<Schema>) -> Option<SchemaView> {
    match s {
        Some(s) => Some(s@),
        None => None,
    }
}

/// The names of the streams `v`.
pub open spec fn stream_names(v: Seq<String>) -> Seq<Seq<char>> {
    v.map_values(|s: String| s@)
}

impl View for ReadSession {
    type V = ReadSessionView;

    closed spec fn view(&self) -> ReadSessionView {
        ReadSessionView { schema: schema_view(self.schema), streams: stream_names(self.streams@) }
    }
}

impl ReadSession {
    /// The session that the service described with `schema` and the streams
    /// `streams`.
    pub fn new(schema: Option<Schema>, streams: Vec<String>) -> (r: Self)
        ensures
            r@ == (ReadSessionView { schema: schema_view(schema), streams: stream_names(streams@) }),
    {
        ReadSession { schema, streams }
    }

    /// The number of streams not handed out yet.
    pub fn remaining_streams(&self) -> (r: usize)
        ensures
            r == self@.streams.len(),
    {
        self.streams.len()
    }

    /// Take the next stream in this read session. Returns `None` when all
    /// streams have been taken. A stream taken from a session without a
    /// schema is lost, and an error is returned.
    pub fn next_stream(&mut self) -> (r: Result<Option<RowsStreamReader>, StorageError>)
        ensures
            final(self)@.schema == old(self)@.schema,
            old(self)@.streams.len() == 0 ==> r is Ok && r->Ok_0 is None && final(self)@ == old(
                self,
            )@,
            old(self)@.streams.len() > 0 ==> {
                &&& final(self)@.streams == old(self)@.streams.drop_last()
                &&& match old(self)@.schema {
                    Some(s) => r is Ok && r->Ok_0 is Some && r->Ok_0->Some_0@ == (
                    RowsStreamReaderView { stream: old(self)@.streams.last(), schema: s }),
                    None => r is Err && is_invalid_response(
                        r->Err_0,
                        "empty schema response"@,
                    ),
                }
            },
    {
        match self.streams.pop() {
            Some(stream) => {
                assert(stream_names(self.streams@) =~= stream_names(old(self).streams@).drop_last());
                match &self.schema {
                    Some(s) => Ok(Some(RowsStreamReader { stream, schema: s.duplicate() })),
                    None => Err(StorageError::invalid("empty schema response")),
                }
            },
            None => Ok(None),
        }
    }
}

/// The streams that `k` successive calls of [`ReadSession::next_stream`]
/// hand out from a session whose streams are `h`, in the order handed out.
pub open spec fn handed_out<T>(h: Seq<T>, k: nat) -> Seq<T>
    decreases k,
{
    if k == 0 || h.len() == 0 {
        Seq::empty()
    } else {
        seq![h.last()] + handed_out(h.drop_last(), (k - 1) as nat)
    }
}

/// The streams that remain in a session whose streams are `h` after `k`
/// successive calls of [`ReadSession::next_stream`].
pub open spec fn remaining<T>(h: Seq<T>, k: nat) -> Seq<T>
    decreases k,
{
    if k == 0 || h.len() == 0 {
        h
    } else {
        remaining(h.drop_last(), (k - 1) as nat)
    }
}

/// Taking the streams of a session with `k` streams `k` times hands out each
/// stream exactly once: the `i`-th call hands out the stream at position
/// `k - 1 - i`. No stream remains, so the next call returns `None`.
pub proof fn distribution_hands_out_each_once<T>(h: Seq<T>)
    ensures
        handed_out(h, h.len()).len() == h.len(),
        forall|i: int|
            0 <= i < h.len() ==> #[trigger] handed_out(h, h.len())[i] == h[h.len() - 1 - i],
        remaining(h, h.len()).len() == 0,
    decreases h.len(),
{
    if h.len() > 0 {
        let t = h.drop_last();
        distribution_hands_out_each_once(t);
        assert(h.len() - 1 == t.len());
        let out = handed_out(h, h.len());
        assert(out == seq![h.last()] + handed_out(t, t.len()));
        assert forall|i: int| 0 <= i < h.len() implies #[trigger] out[i] == h[h.len() - 1 - i] by {
            if i > 0 {
                assert(out[i] == handed_out(t, t.len())[i - 1]);
            }
        }
    }
}

} // verus!
