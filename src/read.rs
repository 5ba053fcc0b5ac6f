//! Reconstruction of one Arrow IPC stream from the messages of a read stream.
//!
//! The service frames the serialized schema and every serialized record batch
//! on its own, each behind the 4-byte continuation marker `FF FF FF FF`. An
//! Arrow stream decoder expects one stream instead: the schema message, then
//! each record batch message, then a 4-byte zero end-of-stream marker. The
//! functions here strip the markers, keep the order of arrival, and add the
//! end-of-stream marker.
use vstd::prelude::*;
use vstd::slice::{slice_subrange, slice_to_vec};

use crate::error::{is_invalid_response, StorageError};

verus! {

/// An Arrow schema as the service serializes it.
pub struct ArrowSchema {
    /// The continuation-framed IPC schema message.
    pub serialized_schema: Vec<u8>,
}

/// An Avro schema as the service serializes it.
pub struct AvroSchema {
    /// The JSON text of the schema.
    pub schema: String,
}

/// The schema of a read session, tagged by output format.
pub enum Schema {
    AvroSchema(AvroSchema),
    ArrowSchema(ArrowSchema),
}

/// The mathematical view of a [`Schema`].
pub enum SchemaView {
    Avro(Seq<char>),
    Arrow(Seq<u8>),
}

impl View for Schema {
    type V = SchemaView;

    open spec fn view(&self) -> SchemaView {
        match self {
            Schema::AvroSchema(a) => SchemaView::Avro(a.schema@),
            Schema::ArrowSchema(a) => SchemaView::Arrow(a.serialized_schema@),
        }
    }
}

impl Schema {
    /// A copy of this schema.
    pub fn duplicate(&self) -> (r: Schema)
        ensures
            r@ == self@,
    {
        match self {
            Schema::AvroSchema(a) => Schema::AvroSchema(AvroSchema { schema: a.schema.clone() }),
            Schema::ArrowSchema(a) => Schema::ArrowSchema(
                ArrowSchema { serialized_schema: slice_to_vec(a.serialized_schema.as_slice()) },
            ),
        }
    }
}

/// One Arrow record batch as the service serializes it.
pub struct ArrowRecordBatch {
    /// The continuation-framed IPC record batch message.
    pub serialized_record_batch: Vec<u8>,
    /// The number of rows in the batch.
    pub row_count: i64,
}

/// A block of Avro rows as the service serializes it.
pub struct AvroRows {
    /// The binary-encoded rows.
    pub serialized_binary_rows: Vec<u8>,
    /// The number of rows in the block.
    pub row_count: i64,
}

/// The row data of one streamed message, tagged by output format.
pub enum Rows {
    AvroRows(AvroRows),
    ArrowRecordBatch(ArrowRecordBatch),
}

/// One message of a read stream.
pub struct ReadRowsResponse {
    /// The number of rows in this message.
    pub row_count: i64,
    /// The row data, absent when the service sent none.
    pub rows: Option<Rows>,
}

/// The bytes of the Arrow record batch that `m` carries, if it carries one.
pub open spec fn arrow_batch_bytes(m: ReadRowsResponse) -> Option<Seq<u8>> {
    match m.rows {
        Some(Rows::ArrowRecordBatch(b)) => Some(b.serialized_record_batch@),
        _ => None,
    }
}

/// The 4-byte continuation marker.
pub open spec fn continuation_marker() -> Seq<u8> {
    seq![0xFFu8, 0xFFu8, 0xFFu8, 0xFFu8]
}

/// The 4-byte end-of-stream marker.
pub open spec fn end_of_stream() -> Seq<u8> {
    seq![0u8, 0u8, 0u8, 0u8]
}

/// `m` begins with the continuation marker.
pub open spec fn starts_with_marker(m: Seq<u8>) -> bool {
    m.len() >= 4 && m.subrange(0, 4) == continuation_marker()
}

/// The payload of the framed message `m`, or the reason why `m` is no such
/// message.
pub open spec fn frame_outcome(m: Seq<u8>) -> Result<Seq<u8>, Seq<char>> {
    if m.len() < 4 {
        Err("arrow message of invalid len"@)
    } else if !starts_with_marker(m) {
        Err("invalid arrow message"@)
    } else if m.len() == 4 {
        Err("empty arrow message"@)
    } else {
        Ok(m.subrange(4, m.len() as int))
    }
}

/// The stripped schema message of `s`, or the reason why there is none.
pub open spec fn schema_outcome(s: SchemaView) -> Result<Seq<u8>, Seq<char>> {
    match s {
        SchemaView::Arrow(b) => frame_outcome(b),
        SchemaView::Avro(_) => Err("expected arrow schema"@),
    }
}

/// The stripped record batch message of `m`, or the reason why there is none.
pub open spec fn message_outcome(m: ReadRowsResponse) -> Result<Seq<u8>, Seq<char>> {
    match m.rows {
        None => Err("no rows received"@),
        Some(Rows::AvroRows(_)) => Err("expected arrow record batch"@),
        Some(Rows::ArrowRecordBatch(b)) => frame_outcome(b.serialized_record_batch@),
    }
}

/// `prefix` followed by the stripped record batch of each message of `msgs`
/// in order, or the reason of the first message that has none.
pub open spec fn batches_outcome(prefix: Seq<u8>, msgs: Seq<ReadRowsResponse>) -> Result<
    Seq<u8>,
    Seq<char>,
>
    decreases msgs.len(),
{
    if msgs.len() == 0 {
        Ok(prefix)
    } else {
        match message_outcome(msgs[0]) {
            Ok(p) => batches_outcome(prefix + p, msgs.drop_first()),
            Err(reason) => Err(reason),
        }
    }
}

/// The Arrow IPC stream that `schema` and `msgs` make, or the reason why they
/// make none.
pub open spec fn stream_outcome(schema: SchemaView, msgs: Seq<ReadRowsResponse>) -> Result<
    Seq<u8>,
    Seq<char>,
> {
    match schema_outcome(schema) {
        Err(reason) => Err(reason),
        Ok(s) => match batches_outcome(s, msgs) {
            Ok(b) => Ok(b + end_of_stream()),
            Err(reason) => Err(reason),
        },
    }
}

/// `r` is `Ok` with a value whose bytes are those of `o`, or `r` reports the
/// reason of `o`.
pub open spec fn agrees<T: View<V = Seq<u8>>>(
    r: Result<T, StorageError>,
    o: Result<Seq<u8>, Seq<char>>,
) -> bool {
    match o {
        Ok(p) => r is Ok && r->Ok_0@ == p,
        Err(reason) => r is Err && is_invalid_response(r->Err_0, reason),
    }
}

/// Remove the continuation bytes segment of a valid Arrow IPC message.
pub fn strip_continuation_bytes(msg: &[u8]) -> (r: Result<&[u8], StorageError>)
    ensures
        agrees(r, frame_outcome(msg@)),
{
    if msg.len() < 4 {
        return Err(StorageError::invalid("arrow message of invalid len"));
    }
    if msg[0] != 0xFF || msg[1] != 0xFF || msg[2] != 0xFF || msg[3] != 0xFF {
        proof {
            assert(msg@.subrange(0, 4)[0] == msg@[0]);
            assert(msg@.subrange(0, 4)[1] == msg@[1]);
            assert(msg@.subrange(0, 4)[2] == msg@[2]);
            assert(msg@.subrange(0, 4)[3] == msg@[3]);
        }
        return Err(StorageError::invalid("invalid arrow message"));
    }
    assert(msg@.subrange(0, 4) =~= continuation_marker());
    if msg.len() == 4 {
        return Err(StorageError::invalid("empty arrow message"));
    }
    Ok(slice_subrange(msg, 4, msg.len()))
}

/// An Arrow IPC stream under construction: the stripped schema message and
/// the stripped record batches pushed so far.
pub struct ArrowStreamBuilder {
    buf: Vec<u8>,
}

impl View for ArrowStreamBuilder {
    type V = Seq<u8>;

    closed spec fn view(&self) -> Seq<u8> {
        self.buf@
    }
}

impl ArrowStreamBuilder {
    /// Starts a stream with the schema message of `schema`, which must be an
    /// Arrow schema.
    pub fn new(schema: &Schema) -> (r: Result<ArrowStreamBuilder, StorageError>)
        ensures
            agrees(r, schema_outcome(schema@)),
    {
        match schema {
            Schema::ArrowSchema(a) => {
                let body = strip_continuation_bytes(a.serialized_schema.as_slice())?;
                Ok(ArrowStreamBuilder { buf: slice_to_vec(body) })
            },
            Schema::AvroSchema(_) => Err(StorageError::invalid("expected arrow schema")),
        }
    }

    /// Appends the record batch of `msg`, which must be an Arrow record batch.
    /// On failure nothing is appended.
    pub fn push(&mut self, msg: &ReadRowsResponse) -> (r: Result<(), StorageError>)
        ensures
            match message_outcome(*msg) {
                Ok(p) => r is Ok && final(self)@ == old(self)@ + p,
                Err(reason) => r is Err && is_invalid_response(r->Err_0, reason) && final(self)@
                    == old(self)@,
            },
    {
        match &msg.rows {
            Some(Rows::ArrowRecordBatch(b)) => {
                let body = strip_continuation_bytes(b.serialized_record_batch.as_slice())?;
                self.buf.extend_from_slice(body);
                assert(self.buf@ =~= old(self).buf@ + body@);
                Ok(())
            },
            Some(Rows::AvroRows(_)) => Err(StorageError::invalid("expected arrow record batch")),
            None => Err(StorageError::invalid("no rows received")),
        }
    }

    /// The completed stream: what was pushed, then the end-of-stream marker.
    pub fn finish(self) -> (r: Vec<u8>)
        ensures
            r@ == self@ + end_of_stream(),
    {
        let mut buf = self.buf;
        buf.push(0u8);
        buf.push(0u8);
        buf.push(0u8);
        buf.push(0u8);
        assert(buf@ =~= self@ + end_of_stream());
        buf
    }
}

/// Reconstructs the Arrow IPC stream that `schema` and the messages `msgs`
/// make, failing on the first part that is not a framed Arrow message.
pub fn assemble_arrow_stream(schema: &Schema, msgs: &[ReadRowsResponse]) -> (r: Result<
    Vec<u8>,
    StorageError,
>)
    ensures
        agrees(r, stream_outcome(schema@, msgs@)),
{
    let mut builder = ArrowStreamBuilder::new(schema)?;
    let n = msgs.len();
    let mut i: usize = 0;
    assert(msgs@.subrange(0, n as int) =~= msgs@);
    while i < n
        invariant
            n == msgs@.len(),
            0 <= i <= n,
            schema_outcome(schema@) is Ok,
            batches_outcome(builder@, msgs@.subrange(i as int, n as int)) == batches_outcome(
                schema_outcome(schema@)->Ok_0,
                msgs@,
            ),
        decreases n - i,
    {
        assert(msgs@.subrange(i as int, n as int).drop_first() =~= msgs@.subrange(
            i as int + 1,
            n as int,
        ));
        assert(msgs@.subrange(i as int, n as int)[0] == msgs@[i as int]);
        builder.push(&msgs[i])?;
        i = i + 1;
    }
    assert(msgs@.subrange(n as int, n as int) =~= Seq::<ReadRowsResponse>::empty());
    Ok(builder.finish())
}

/// A message that is the continuation marker followed by a non-empty payload
/// `p` strips to exactly `p`.
pub proof fn strip_yields_payload(p: Seq<u8>)
    requires
        p.len() > 0,
    ensures
        frame_outcome(continuation_marker() + p) == Ok::<Seq<u8>, Seq<char>>(p),
{
    let m = continuation_marker() + p;
    assert(m.subrange(0, 4) =~= continuation_marker());
    assert(m.subrange(4, m.len() as int) =~= p);
}

/// A message shorter than the marker, one that does not begin with the marker,
/// and the bare marker each fail to strip, each with its own reason.
pub proof fn strip_rejects_malformed(m: Seq<u8>)
    ensures
        m.len() < 4 ==> frame_outcome(m) == Err::<Seq<u8>, Seq<char>>(
            "arrow message of invalid len"@,
        ),
        m.len() >= 4 && !starts_with_marker(m) ==> frame_outcome(m) == Err::<Seq<u8>, Seq<char>>(
            "invalid arrow message"@,
        ),
        m == continuation_marker() ==> frame_outcome(m) == Err::<Seq<u8>, Seq<char>>(
            "empty arrow message"@,
        ),
{
    assert(continuation_marker().subrange(0, 4) =~= continuation_marker());
}

proof fn lemma_framed_batches(prefix: Seq<u8>, msgs: Seq<ReadRowsResponse>, bs: Seq<Seq<u8>>)
    requires
        msgs.len() == bs.len(),
        forall|i: int|
            0 <= i < msgs.len() ==> bs[i].len() > 0 && arrow_batch_bytes(#[trigger] msgs[i])
                == Some(continuation_marker() + bs[i]),
    ensures
        batches_outcome(prefix, msgs) == Ok::<Seq<u8>, Seq<char>>(prefix + bs.flatten()),
    decreases msgs.len(),
{
    if msgs.len() == 0 {
        assert(prefix + bs.flatten() =~= prefix);
    } else {
        strip_yields_payload(bs[0]);
        assert(message_outcome(msgs[0]) == Ok::<Seq<u8>, Seq<char>>(bs[0]));
        let rest = msgs.drop_first();
        let brest = bs.drop_first();
        assert forall|i: int| 0 <= i < rest.len() implies brest[i].len() > 0 && arrow_batch_bytes(
            #[trigger] rest[i],
        ) == Some(continuation_marker() + brest[i]) by {
            assert(rest[i] == msgs[i + 1]);
        }
        lemma_framed_batches(prefix + bs[0], rest, brest);
        assert(prefix + bs[0] + brest.flatten() =~= prefix + bs.flatten());
    }
}

/// Reconstructing from an Arrow schema whose message is the marker followed
/// by `s`, and from Arrow record batches whose messages are the marker
/// followed by `bs[0]`, ..., `bs[n - 1]`, yields `s`, then each `bs[i]` in
/// order, then the end-of-stream marker.
pub proof fn reconstruction_round_trip(
    schema: SchemaView,
    msgs: Seq<ReadRowsResponse>,
    s: Seq<u8>,
    bs: Seq<Seq<u8>>,
)
    requires
        schema == SchemaView::Arrow(continuation_marker() + s),
        s.len() > 0,
        msgs.len() == bs.len(),
        forall|i: int|
            0 <= i < msgs.len() ==> bs[i].len() > 0 && arrow_batch_bytes(#[trigger] msgs[i])
                == Some(continuation_marker() + bs[i]),
    ensures
        stream_outcome(schema, msgs) == Ok::<Seq<u8>, Seq<char>>(
            s + bs.flatten() + end_of_stream(),
        ),
{
    strip_yields_payload(s);
    lemma_framed_batches(s, msgs, bs);
}

/// A schema that is not an Arrow schema makes every reconstruction fail with
/// the schema reason, whatever messages follow.
pub proof fn non_arrow_schema_fails(schema: SchemaView, msgs: Seq<ReadRowsResponse>)
    requires
        schema is Avro,
    ensures
        stream_outcome(schema, msgs) == Err::<Seq<u8>, Seq<char>>("expected arrow schema"@),
{
}

/// A message without a framed Arrow record batch fails the reconstruction
/// with its own reason, whatever the messages after it hold.
pub proof fn failing_message_stops(prefix: Seq<u8>, msgs: Seq<ReadRowsResponse>, i: int)
    requires
        0 <= i < msgs.len(),
        forall|j: int| 0 <= j < i ==> #[trigger] message_outcome(msgs[j]) is Ok,
        message_outcome(msgs[i]) is Err,
    ensures
        batches_outcome(prefix, msgs) == Err::<Seq<u8>, Seq<char>>(
            message_outcome(msgs[i])->Err_0,
        ),
    decreases i,
{
    if i > 0 {
        let rest = msgs.drop_first();
        assert(message_outcome(msgs[0]) is Ok);
        assert forall|j: int| 0 <= j < i - 1 implies #[trigger] message_outcome(rest[j]) is Ok by {
            assert(rest[j] == msgs[j + 1]);
        }
        assert(rest[i - 1] == msgs[i]);
        failing_message_stops(prefix + message_outcome(msgs[0])->Ok_0, rest, i - 1);
    }
}

} // verus!
