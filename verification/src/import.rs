use vstd::prelude::*;
use vstd::string::*;
use crate::types::{arrow_pg_name, arrow_to_pg_type, pg_oid_arrow, ArrowType, TypeMapError};

verus! {

/// A column of an Arrow schema.
#[derive(Debug, Clone, PartialEq, Eq)]
pub struct Field {
    pub name: String,
    pub data_type: ArrowType,
    pub nullable: bool,
}

/// The columns of an Arrow record batch stream.
#[derive(Debug, Clone, PartialEq, Eq)]
pub struct Schema {
    pub fields: Vec<Field>,
}

/// The items of `list`, with `sep` between each two of them.
pub open spec fn join_seqs(list: Seq<Seq<char>>, sep: Seq<char>) -> Seq<char>
    decreases list.len(),
{
    if list.len() == 0 {
        Seq::empty()
    } else if list.len() == 1 {
        list[0]
    } else {
        join_seqs(list.drop_last(), sep) + sep + list.last()
    }
}

/// Whether every field has a PostgreSQL column type.
pub open spec fn all_fields_mapped(fields: Seq<Field>) -> bool {
    forall|i: int| 0 <= i < fields.len() ==> (#[trigger] arrow_pg_name(fields[i].data_type)) is Some
}

/// `"name" TYPE`, followed by ` NOT NULL` for a column that is not nullable.
pub open spec fn column_def(f: Field) -> Seq<char> {
    "\""@ + f.name@ + "\" "@ + arrow_pg_name(f.data_type)->Some_0 + if f.nullable {
        ""@
    } else {
        " NOT NULL"@
    }
}

/// The column definitions of a list of fields.
pub open spec fn column_defs(fields: Seq<Field>) -> Seq<Seq<char>> {
    fields.map_values(|f: Field| column_def(f))
}

/// `CREATE TABLE "table" (<column definitions>);`
pub open spec fn create_table_ddl(table: Seq<char>, fields: Seq<Field>) -> Seq<char> {
    "CREATE TABLE \""@ + table + "\" ("@ + join_seqs(column_defs(fields), ", "@) + ");"@
}

/// The `CREATE TABLE` statement for a table with the columns of an Arrow
/// schema; an error when a field's type has no PostgreSQL counterpart.
pub fn generate_create_table_ddl(table: &str, schema: &Schema) -> (r: Result<String, TypeMapError>)
    ensures
        all_fields_mapped(schema.fields@) ==> (r matches Ok(s) && s@ == create_table_ddl(
            table@,
            schema.fields@,
        )),
        !all_fields_mapped(schema.fields@) ==> r == Err::<String, TypeMapError>(
            TypeMapError::UnsupportedArrowType,
        ),
{
    let fields = &schema.fields;
    let ghost defs = column_defs(fields@);
    let mut body = String::new();
    let mut i: usize = 0;
    while i < fields.len()
        invariant
            defs == column_defs(fields@),
            fields@ == schema.fields@,
            i <= fields.len(),
            forall|j: int| 0 <= j < i ==> (#[trigger] arrow_pg_name(fields@[j].data_type)) is Some,
            body@ == join_seqs(defs.take(i as int), ", "@),
        decreases fields.len() - i,
    {
        let field = &fields[i];
        let pg_type = match arrow_to_pg_type(&field.data_type) {
            Ok(t) => t,
            Err(e) => {
                assert(arrow_pg_name(fields@[i as int].data_type) is None);
                assert(!all_fields_mapped(schema.fields@));
                return Err(e);
            },
        };
        let mut def = String::from_str("\"");
        def.append(field.name.as_str());
        def.append("\" ");
        def.append(pg_type.as_str());
        if !field.nullable {
            def.append(" NOT NULL");
        }
        proof {
            reveal_strlit("");
        }
        assert(def@ =~= column_def(fields@[i as int]));
        if i > 0 {
            body.append(", ");
        }
        body.append(def.as_str());
        assert(defs.take(i + 1).drop_last() =~= defs.take(i as int));
        i = i + 1;
    }
    assert(defs.take(fields.len() as int) =~= defs);
    let mut ddl = String::from_str("CREATE TABLE \"");
    ddl.append(table);
    ddl.append("\" (");
    ddl.append(body.as_str());
    ddl.append(");");
    Ok(ddl)
}

} // verus!

verus! {

/// One value of a row sent with the binary `COPY` protocol.
#[derive(Debug, Clone, PartialEq, Eq)]
pub enum CopyCell {
    /// SQL `NULL`.
    Null,
    /// A value of a `Boolean` column.
    Bool(bool),
    /// A value of an `Int16` column.
    Int16(i16),
    /// A value of an `Int32` column.
    Int32(i32),
    /// A value of an `Int64` column.
    Int64(i64),
    /// A value of a `Float32` column, by its IEEE 754 bits.
    Float32Bits(u32),
    /// A value of a `Float64` column, by its IEEE 754 bits.
    Float64Bits(u64),
    /// A value of a `Utf8` or `LargeUtf8` column, as its UTF-8 bytes.
    Text(Vec<u8>),
    /// A value of a `Binary` or `LargeBinary` column.
    Binary(Vec<u8>),
    /// A value of a column of any other type.
    Other,
}

/// Why a row cannot be sent.
#[derive(Debug, Clone, Copy, PartialEq, Eq, Structural)]
pub enum CopyError {
    /// The column, by index, holds a value of a type the import cannot send.
    UnsupportedType { column: usize },
}

/// The four bytes of `u`, most significant first.
pub open spec fn be32(u: u32) -> Seq<u8> {
    seq![
        (u / 0x100_0000) as u8,
        ((u / 0x1_0000) % 0x100) as u8,
        ((u / 0x100) % 0x100) as u8,
        (u % 0x100) as u8,
    ]
}

/// The eight bytes of `u`, most significant first.
pub open spec fn be64(u: u64) -> Seq<u8> {
    be32((u / 0x1_0000_0000) as u32) + be32((u % 0x1_0000_0000) as u32)
}

/// The two bytes of `u`, most significant first.
pub open spec fn be16(u: u16) -> Seq<u8> {
    seq![(u / 0x100) as u8, (u % 0x100) as u8]
}

/// The signature, flags field and header extension length that open a
/// binary `COPY` stream.
pub open spec fn copy_header_bytes() -> Seq<u8> {
    seq![0x50u8, 0x47, 0x43, 0x4f, 0x50, 0x59, 0x0a, 0xff, 0x0d, 0x0a, 0x00] + be32(0) + be32(0)
}

/// The field count `-1` that closes a binary `COPY` stream.
pub open spec fn copy_trailer_bytes() -> Seq<u8> {
    be16((-1i16) as u16)
}

/// Whether values of a column of type `t` can be sent.
pub open spec fn sendable(t: ArrowType) -> bool {
    match t {
        ArrowType::Boolean | ArrowType::Int16 | ArrowType::Int32 | ArrowType::Int64
        | ArrowType::Float32 | ArrowType::Float64 | ArrowType::Utf8 | ArrowType::LargeUtf8
        | ArrowType::Binary | ArrowType::LargeBinary => true,
        _ => false,
    }
}

/// Whether a non-null value is of the kind that a column of type `t` holds.
pub open spec fn cell_matches(t: ArrowType, c: CopyCell) -> bool {
    match c {
        CopyCell::Bool(_) => t is Boolean,
        CopyCell::Int16(_) => t is Int16,
        CopyCell::Int32(_) => t is Int32,
        CopyCell::Int64(_) => t is Int64,
        CopyCell::Float32Bits(_) => t is Float32,
        CopyCell::Float64Bits(_) => t is Float64,
        CopyCell::Text(_) => t is Utf8 || t is LargeUtf8,
        CopyCell::Binary(_) => t is Binary || t is LargeBinary,
        _ => false,
    }
}

/// Whether a value can stand in a column of type `t` at all: `NULL`, a value
/// of the column's kind, or, in a column that cannot be sent, `Other`.
pub open spec fn cell_fits(t: ArrowType, c: CopyCell) -> bool {
    c is Null || if sendable(t) {
        cell_matches(t, c)
    } else {
        c is Other
    }
}

/// The bytes of one value in a column of type `t`: its length (`-1` for
/// `NULL`) and its bytes in the binary format of the column's PostgreSQL
/// type. `None` when a value stands in a column of a type that cannot be sent.
pub open spec fn cell_encoding(t: ArrowType, c: CopyCell) -> Option<Seq<u8>> {
    if c is Null {
        Some(be32(0xffff_ffff))
    } else if !cell_matches(t, c) {
        None
    } else {
        match c {
            CopyCell::Bool(v) => Some(be32(1) + seq![if v { 1u8 } else { 0u8 }]),
            CopyCell::Int16(v) => Some(be32(2) + be16(v as u16)),
            CopyCell::Int32(v) => Some(be32(4) + be32(v as u32)),
            CopyCell::Int64(v) => Some(be32(8) + be64(v as u64)),
            CopyCell::Float32Bits(v) => Some(be32(4) + be32(v)),
            CopyCell::Float64Bits(v) => Some(be32(8) + be64(v)),
            CopyCell::Text(b) => Some(be32((b.len() as i32) as u32) + b@),
            CopyCell::Binary(b) => Some(be32((b.len() as i32) as u32) + b@),
            _ => None,
        }
    }
}

/// Every value that fits a column read from PostgreSQL can be sent back: each
/// type that a PostgreSQL column is read as can be sent.
pub proof fn lemma_exported_values_sendable(oid: u32, c: CopyCell)
    requires
        pg_oid_arrow(oid) is Some,
        cell_fits(pg_oid_arrow(oid)->Some_0, c),
    ensures
        sendable(pg_oid_arrow(oid)->Some_0),
        cell_encoding(pg_oid_arrow(oid)->Some_0, c) is Some,
{
}

/// The bytes of the first `k` values of a row, or the first column that
/// cannot be sent.
pub open spec fn cells_encoding(types: Seq<ArrowType>, cells: Seq<CopyCell>, k: int) -> Result<
    Seq<u8>,
    CopyError,
>
    decreases k,
{
    if k <= 0 {
        Ok(Seq::empty())
    } else {
        match cells_encoding(types, cells, k - 1) {
            Err(e) => Err(e),
            Ok(bytes) => match cell_encoding(types[k - 1], cells[k - 1]) {
                Some(b) => Ok(bytes + b),
                None => Err(CopyError::UnsupportedType { column: (k - 1) as usize }),
            },
        }
    }
}

/// The bytes of a row: its field count, then each value.
pub open spec fn row_encoding(types: Seq<ArrowType>, cells: Seq<CopyCell>) -> Result<
    Seq<u8>,
    CopyError,
> {
    match cells_encoding(types, cells, cells.len() as int) {
        Ok(bytes) => Ok(be16((cells.len() as i16) as u16) + bytes),
        Err(e) => Err(e),
    }
}

/// Once a value cannot be sent, every longer prefix of the row fails on it.
proof fn lemma_cells_error_sticks(types: Seq<ArrowType>, cells: Seq<CopyCell>, k: int, m: int)
    requires
        0 <= k < m,
        cells_encoding(types, cells, k) is Ok,
        cell_encoding(types[k], cells[k]) is None,
    ensures
        cells_encoding(types, cells, m) == Err::<Seq<u8>, CopyError>(
            CopyError::UnsupportedType { column: k as usize },
        ),
    decreases m,
{
    if m > k + 1 {
        lemma_cells_error_sticks(types, cells, k, m - 1);
    }
}

fn push_be32(out: &mut Vec<u8>, u: u32)
    ensures
        final(out)@ == old(out)@ + be32(u),
{
    assert((u >> 24u32) == u / 0x100_0000) by (bit_vector);
    assert(((u >> 16u32) & 0xff) == (u / 0x1_0000) % 0x100) by (bit_vector);
    assert(((u >> 8u32) & 0xff) == (u / 0x100) % 0x100) by (bit_vector);
    assert((u & 0xff) == u % 0x100) by (bit_vector);
    out.push((u >> 24u32) as u8);
    out.push(((u >> 16u32) & 0xff) as u8);
    out.push(((u >> 8u32) & 0xff) as u8);
    out.push((u & 0xff) as u8);
    assert(final(out)@ =~= old(out)@ + be32(u));
}

fn push_be16(out: &mut Vec<u8>, u: u16)
    ensures
        final(out)@ == old(out)@ + be16(u),
{
    assert((u >> 8u16) == u / 0x100) by (bit_vector);
    assert((u & 0xff) == u % 0x100) by (bit_vector);
    out.push((u >> 8u16) as u8);
    out.push((u & 0xff) as u8);
    assert(final(out)@ =~= old(out)@ + be16(u));
}

fn push_be64(out: &mut Vec<u8>, u: u64)
    ensures
        final(out)@ == old(out)@ + be64(u),
{
    assert((u >> 32u64) == u / 0x1_0000_0000) by (bit_vector);
    assert((u & 0xffff_ffff) == u % 0x1_0000_0000) by (bit_vector);
    push_be32(out, (u >> 32u64) as u32);
    push_be32(out, (u & 0xffff_ffff) as u32);
    assert(final(out)@ =~= old(out)@ + be64(u));
}

fn push_bytes(out: &mut Vec<u8>, b: &Vec<u8>)
    ensures
        final(out)@ == old(out)@ + b@,
{
    let mut j: usize = 0;
    while j < b.len()
        invariant
            j <= b.len(),
            out@ == old(out)@ + b@.take(j as int),
        decreases b.len() - j,
    {
        out.push(b[j]);
        assert(b@.take(j + 1) =~= b@.take(j as int).push(b@[j as int]));
        j = j + 1;
    }
    assert(b@.take(b.len() as int) =~= b@);
}

/// Appends the encoding of one value, or reports that it has none.
fn push_cell(out: &mut Vec<u8>, t: &ArrowType, c: &CopyCell) -> (sent: bool)
    ensures
        match cell_encoding(*t, *c) {
            Some(bytes) => sent && final(out)@ == old(out)@ + bytes,
            None => !sent && final(out)@ == old(out)@,
        },
{
    let ok = match c {
        CopyCell::Null => true,
        CopyCell::Bool(_) => matches!(t, ArrowType::Boolean),
        CopyCell::Int16(_) => matches!(t, ArrowType::Int16),
        CopyCell::Int32(_) => matches!(t, ArrowType::Int32),
        CopyCell::Int64(_) => matches!(t, ArrowType::Int64),
        CopyCell::Float32Bits(_) => matches!(t, ArrowType::Float32),
        CopyCell::Float64Bits(_) => matches!(t, ArrowType::Float64),
        CopyCell::Text(_) => matches!(t, ArrowType::Utf8 | ArrowType::LargeUtf8),
        CopyCell::Binary(_) => matches!(t, ArrowType::Binary | ArrowType::LargeBinary),
        CopyCell::Other => false,
    };
    if !ok {
        return false;
    }
    match c {
        CopyCell::Null => push_be32(out, 0xffff_ffff),
        CopyCell::Bool(v) => {
            push_be32(out, 1);
            out.push(if *v { 1u8 } else { 0u8 });
        },
        CopyCell::Int16(v) => {
            push_be32(out, 2);
            push_be16(out, *v as u16);
        },
        CopyCell::Int32(v) => {
            push_be32(out, 4);
            push_be32(out, *v as u32);
        },
        CopyCell::Int64(v) => {
            push_be32(out, 8);
            push_be64(out, *v as u64);
        },
        CopyCell::Float32Bits(v) => {
            push_be32(out, 4);
            push_be32(out, *v);
        },
        CopyCell::Float64Bits(v) => {
            push_be32(out, 8);
            push_be64(out, *v);
        },
        CopyCell::Text(b) | CopyCell::Binary(b) => {
            push_be32(out, (b.len() as i32) as u32);
            push_bytes(out, b);
        },
        CopyCell::Other => {},
    }
    true
}

/// The bytes that open a binary `COPY` stream.
pub fn copy_header() -> (r: Vec<u8>)
    ensures
        r@ == copy_header_bytes(),
{
    let mut r: Vec<u8> = vec![0x50u8, 0x47, 0x43, 0x4f, 0x50, 0x59, 0x0a, 0xff, 0x0d, 0x0a, 0x00];
    push_be32(&mut r, 0);
    push_be32(&mut r, 0);
    r
}

/// The bytes that close a binary `COPY` stream.
pub fn copy_trailer() -> (r: Vec<u8>)
    ensures
        r@ == copy_trailer_bytes(),
{
    let mut r: Vec<u8> = Vec::new();
    push_be16(&mut r, (-1i16) as u16);
    assert(r@ =~= copy_trailer_bytes());
    r
}

/// Encodes one row for the binary `COPY` protocol, given the type of each
/// column; an error names the first column that holds a value of a type the
/// import cannot send.
pub fn encode_copy_row(types: &Vec<ArrowType>, cells: &Vec<CopyCell>) -> (r: Result<
    Vec<u8>,
    CopyError,
>)
    requires
        types.len() == cells.len(),
        forall|i: int| 0 <= i < cells.len() ==> cell_fits(#[trigger] types@[i], cells@[i]),
    ensures
        match row_encoding(types@, cells@) {
            Ok(bytes) => r matches Ok(v) && v@ == bytes,
            Err(e) => r == Err::<Vec<u8>, CopyError>(e),
        },
{
    let n = cells.len();
    let mut out: Vec<u8> = Vec::new();
    push_be16(&mut out, (n as i16) as u16);
    let ghost head = be16((n as i16) as u16);
    let mut k: usize = 0;
    while k < n
        invariant
            n == cells.len(),
            types.len() == cells.len(),
            forall|i: int| 0 <= i < cells.len() ==> cell_fits(#[trigger] types@[i], cells@[i]),
            k <= n,
            cells_encoding(types@, cells@, k as int) matches Ok(bytes) && out@ == head + bytes,
        decreases n - k,
    {
        if !push_cell(&mut out, &types[k], &cells[k]) {
            proof {
                lemma_cells_error_sticks(types@, cells@, k as int, n as int);
            }
            return Err(CopyError::UnsupportedType { column: k });
        }
        k = k + 1;
    }
    Ok(out)
}

/// A row buffer is sent once it holds more than this many bytes.
pub const COPY_FLUSH_BYTES: usize = 8192;

/// The rows' bytes one after another.
pub open spec fn joined(rows: Seq<Seq<u8>>) -> Seq<u8>
    decreases rows.len(),
{
    if rows.len() == 0 {
        Seq::empty()
    } else {
        joined(rows.drop_last()) + rows.last()
    }
}

/// A binary `COPY` stream being written: the bytes not yet handed out, and,
/// for the proofs, what was handed out and the encoding of each row so far.
pub struct CopyStream {
    pending: Vec<u8>,
    sent: Ghost<Seq<u8>>,
    rows: Ghost<Seq<Seq<u8>>>,
}

pub struct CopyStreamView {
    pub pending: Seq<u8>,
    pub sent: Seq<u8>,
    pub rows: Seq<Seq<u8>>,
}

impl View for CopyStream {
    type V = CopyStreamView;

    closed spec fn view(&self) -> CopyStreamView {
        CopyStreamView { pending: self.pending@, sent: self.sent@, rows: self.rows@ }
    }
}

/// What holds of a stream throughout: what was handed out, then what is
/// pending, is the header followed by each row's bytes; and no more than
/// `COPY_FLUSH_BYTES` are pending.
pub open spec fn copy_stream_wf(s: CopyStreamView) -> bool {
    &&& s.sent + s.pending == copy_header_bytes() + joined(s.rows)
    &&& s.pending.len() <= COPY_FLUSH_BYTES
}

impl CopyStream {
    /// Starts a stream; returns it and the header, to be sent first.
    pub fn new() -> (r: (CopyStream, Vec<u8>))
        ensures
            r.1@ == copy_header_bytes(),
            r.0@ == (CopyStreamView { pending: Seq::empty(), sent: copy_header_bytes(), rows: Seq::empty() }),
            copy_stream_wf(r.0@),
    {
        let header = copy_header();
        let s = CopyStream {
            pending: Vec::new(),
            sent: Ghost(copy_header_bytes()),
            rows: Ghost(Seq::empty()),
        };
        assert(copy_header_bytes() + Seq::<u8>::empty() =~= copy_header_bytes() + joined(
            Seq::<Seq<u8>>::empty(),
        ));
        (s, header)
    }

    /// Adds a row. When the pending bytes then exceed `COPY_FLUSH_BYTES`
    /// they are returned, to be sent, and nothing is pending any more. A row
    /// that cannot be sent leaves the stream as it was, and the import ends
    /// there.
    pub fn push_row(&mut self, types: &Vec<ArrowType>, cells: &Vec<CopyCell>) -> (r: Result<
        Option<Vec<u8>>,
        CopyError,
    >)
        requires
            copy_stream_wf(old(self)@),
            types.len() == cells.len(),
            forall|i: int| 0 <= i < cells.len() ==> cell_fits(#[trigger] types@[i], cells@[i]),
        ensures
            copy_stream_wf(final(self)@),
            match row_encoding(types@, cells@) {
                Ok(bytes) => {
                    let all = old(self)@.pending + bytes;
                    &&& final(self)@.rows == old(self)@.rows.push(bytes)
                    &&& if all.len() > COPY_FLUSH_BYTES {
                        &&& r matches Ok(Some(chunk)) && chunk@ == all
                        &&& final(self)@.pending == Seq::<u8>::empty()
                        &&& final(self)@.sent == old(self)@.sent + all
                    } else {
                        &&& r matches Ok(None)
                        &&& final(self)@.pending == all
                        &&& final(self)@.sent == old(self)@.sent
                    }
                },
                Err(e) => r matches Err(x) && x == e && final(self)@ == old(self)@,
            },
    {
        match encode_copy_row(types, cells) {
            Err(e) => Err(e),
            Ok(bytes) => {
                let ghost old_pending = self.pending@;
                push_bytes(&mut self.pending, &bytes);
                proof {
                    let rows = self.rows@.push(bytes@);
                    assert(rows.drop_last() =~= self.rows@);
                    assert(joined(rows) == joined(self.rows@) + bytes@);
                    assert(copy_header_bytes() + joined(rows) =~= (copy_header_bytes() + joined(
                        self.rows@,
                    )) + bytes@);
                    self.rows = Ghost(rows);
                }
                if self.pending.len() > COPY_FLUSH_BYTES {
                    let mut chunk: Vec<u8> = Vec::new();
                    std::mem::swap(&mut chunk, &mut self.pending);
                    proof {
                        self.sent = Ghost(self.sent@ + chunk@);
                        assert(self.sent@ + self.pending@ =~= old(self)@.sent + old_pending + bytes@);
                    }
                    Ok(Some(chunk))
                } else {
                    assert(self.sent@ + self.pending@ =~= old(self)@.sent + old_pending + bytes@);
                    Ok(None)
                }
            },
        }
    }

    /// Ends the stream: returns the pending bytes followed by the trailer,
    /// the last bytes to send, and counts them as handed out.
    pub fn finish(&mut self) -> (r: Vec<u8>)
        ensures
            r@ == old(self)@.pending + copy_trailer_bytes(),
            final(self)@ == (CopyStreamView {
                pending: Seq::empty(),
                sent: old(self)@.sent + r@,
                rows: old(self)@.rows,
            }),
    {
        let mut r: Vec<u8> = Vec::new();
        std::mem::swap(&mut r, &mut self.pending);
        let t = copy_trailer();
        push_bytes(&mut r, &t);
        proof {
            self.sent = Ghost(self.sent@ + r@);
        }
        r
    }
}

/// Everything a stream hands out, in order, is the header, each row's bytes
/// in the order the rows were added, and the trailer.
pub proof fn lemma_copy_stream_complete(s: CopyStreamView)
    requires
        copy_stream_wf(s),
    ensures
        s.sent + (s.pending + copy_trailer_bytes()) == copy_header_bytes() + joined(s.rows)
            + copy_trailer_bytes(),
{
    assert(s.sent + (s.pending + copy_trailer_bytes()) =~= (s.sent + s.pending)
        + copy_trailer_bytes());
}

/// `COPY "table" FROM STDIN WITH (FORMAT binary)`
pub open spec fn copy_in_statement_of(table: Seq<char>) -> Seq<char> {
    "COPY \""@ + table + "\" FROM STDIN WITH (FORMAT binary)"@
}

/// The statement that starts a binary `COPY` into a table.
pub fn copy_in_statement(table: &str) -> (r: String)
    ensures
        r@ == copy_in_statement_of(table@),
{
    let mut r = String::from_str("COPY \"");
    r.append(table);
    r.append("\" FROM STDIN WITH (FORMAT binary)");
    r
}

} // verus!

verus! {

/// A copy of a column type.
fn copy_type(t: &ArrowType) -> (r: ArrowType)
    ensures
        r == *t,
{
    match t {
        ArrowType::Null => ArrowType::Null,
        ArrowType::Boolean => ArrowType::Boolean,
        ArrowType::Int8 => ArrowType::Int8,
        ArrowType::Int16 => ArrowType::Int16,
        ArrowType::Int32 => ArrowType::Int32,
        ArrowType::Int64 => ArrowType::Int64,
        ArrowType::UInt8 => ArrowType::UInt8,
        ArrowType::UInt16 => ArrowType::UInt16,
        ArrowType::UInt32 => ArrowType::UInt32,
        ArrowType::UInt64 => ArrowType::UInt64,
        ArrowType::Float16 => ArrowType::Float16,
        ArrowType::Float32 => ArrowType::Float32,
        ArrowType::Float64 => ArrowType::Float64,
        ArrowType::Utf8 => ArrowType::Utf8,
        ArrowType::LargeUtf8 => ArrowType::LargeUtf8,
        ArrowType::Binary => ArrowType::Binary,
        ArrowType::LargeBinary => ArrowType::LargeBinary,
        ArrowType::Date32 => ArrowType::Date32,
        ArrowType::Date64 => ArrowType::Date64,
        ArrowType::Time32(u) => ArrowType::Time32(*u),
        ArrowType::Time64(u) => ArrowType::Time64(*u),
        ArrowType::Timestamp(u, tz) => ArrowType::Timestamp(
            *u,
            match tz {
                Some(z) => Some(z.clone()),
                None => None,
            },
        ),
        ArrowType::Decimal128(p, sc) => ArrowType::Decimal128(*p, *sc),
        ArrowType::Other(n) => ArrowType::Other(n.clone()),
    }
}

/// The type of each column of a schema.
pub open spec fn column_types_of(fields: Seq<Field>) -> Seq<ArrowType> {
    fields.map_values(|f: Field| f.data_type)
}

/// The type of each column of a schema, in order.
pub fn column_types(schema: &Schema) -> (v: Vec<ArrowType>)
    ensures
        v@ == column_types_of(schema.fields@),
{
    let mut v: Vec<ArrowType> = Vec::new();
    let mut i: usize = 0;
    while i < schema.fields.len()
        invariant
            i <= schema.fields.len(),
            v@ == column_types_of(schema.fields@.take(i as int)),
        decreases schema.fields.len() - i,
    {
        v.push(copy_type(&schema.fields[i].data_type));
        assert(column_types_of(schema.fields@.take(i + 1)) =~= column_types_of(
            schema.fields@.take(i as int),
        ).push(schema.fields@[i as int].data_type));
        i = i + 1;
    }
    assert(schema.fields@.take(schema.fields.len() as int) =~= schema.fields@);
    v
}

/// Why an import of rows into a table stopped.
#[derive(Debug, Clone, PartialEq, Eq)]
pub enum ImportError {
    /// A column's type has no PostgreSQL counterpart, so the table cannot be created.
    Ddl(TypeMapError),
    /// The column, by index, holds a value of a type the import cannot send.
    UnsupportedType { column: usize },
    /// The database or the row source reported a failure, with its message.
    Failed(String),
}

pub enum ImportErrorView {
    Ddl(TypeMapError),
    UnsupportedType { column: usize },
    Failed(Seq<char>),
}

impl View for ImportError {
    type V = ImportErrorView;

    open spec fn view(&self) -> ImportErrorView {
        match self {
            ImportError::Ddl(e) => ImportErrorView::Ddl(*e),
            ImportError::UnsupportedType { column } => ImportErrorView::UnsupportedType {
                column: *column,
            },
            ImportError::Failed(m) => ImportErrorView::Failed(m@),
        }
    }
}

/// What an import asks of the connection and of the row source next.
#[derive(Debug, PartialEq, Eq)]
pub enum ImportEffect {
    /// Execute a statement. `Done` or `Failed`.
    Execute(String),
    /// Start a `COPY ... FROM STDIN` with this statement. `Done` or `Failed`.
    BeginCopy(String),
    /// Send bytes of the `COPY` stream. `Done` or `Failed`.
    Send(Vec<u8>),
    /// Hand over the next row. `Row`, `EndOfRows` or `Failed`.
    NextRow,
    /// End the `COPY`. `Done` or `Failed`.
    FinishCopy,
    /// The import is over, with this result.
    Finish(Result<(), ImportError>),
}

pub enum ImportEffectView {
    Execute(Seq<char>),
    BeginCopy(Seq<char>),
    Send(Seq<u8>),
    NextRow,
    FinishCopy,
    Finish(Result<(), ImportErrorView>),
}

impl View for ImportEffect {
    type V = ImportEffectView;

    open spec fn view(&self) -> ImportEffectView {
        match self {
            ImportEffect::Execute(q) => ImportEffectView::Execute(q@),
            ImportEffect::BeginCopy(q) => ImportEffectView::BeginCopy(q@),
            ImportEffect::Send(b) => ImportEffectView::Send(b@),
            ImportEffect::NextRow => ImportEffectView::NextRow,
            ImportEffect::FinishCopy => ImportEffectView::FinishCopy,
            ImportEffect::Finish(r) => ImportEffectView::Finish(
                match r {
                    Ok(()) => Ok(()),
                    Err(e) => Err(e@),
                },
            ),
        }
    }
}

/// What the connection or the row source reported.
#[derive(Debug, Clone, PartialEq, Eq)]
pub enum ImportEvent {
    Done,
    Failed(String),
    /// The values of the next row, one per column.
    Row(Vec<CopyCell>),
    EndOfRows,
}

pub enum ImportEventView {
    Done,
    Failed(Seq<char>),
    Row(Seq<CopyCell>),
    EndOfRows,
}

impl View for ImportEvent {
    type V = ImportEventView;

    open spec fn view(&self) -> ImportEventView {
        match self {
            ImportEvent::Done => ImportEventView::Done,
            ImportEvent::Failed(m) => ImportEventView::Failed(m@),
            ImportEvent::Row(c) => ImportEventView::Row(c@),
            ImportEvent::EndOfRows => ImportEventView::EndOfRows,
        }
    }
}

/// Where an import stands: which effect it waits on.
#[derive(Debug, Clone, Copy, PartialEq, Eq, Structural)]
pub enum ImportPhase {
    CreatingTable,
    BeginningCopy,
    SendingHeader,
    AwaitingRow,
    SendingRows,
    SendingLast,
    FinishingCopy,
    Finished,
}

/// An import of rows into a table: the table is created first when asked,
/// then a binary `COPY` is begun, its header sent, the rows sent in chunks
/// of more than `COPY_FLUSH_BYTES` bytes as they come, and the rest with the
/// trailer sent before the `COPY` is ended. Any failure ends the import with
/// nothing more sent.
pub struct Import {
    table: String,
    types: Vec<ArrowType>,
    stream: CopyStream,
    phase: ImportPhase,
}

pub struct ImportView {
    pub table: Seq<char>,
    pub types: Seq<ArrowType>,
    pub stream: CopyStreamView,
    pub phase: ImportPhase,
}

impl View for Import {
    type V = ImportView;

    closed spec fn view(&self) -> ImportView {
        ImportView {
            table: self.table@,
            types: self.types@,
            stream: self.stream@,
            phase: self.phase,
        }
    }
}

/// The state of an import before its end: the stream keeps its invariant
/// until the last bytes are handed out.
pub open spec fn import_wf(s: ImportView) -> bool {
    (s.phase == ImportPhase::CreatingTable || s.phase == ImportPhase::BeginningCopy || s.phase
        == ImportPhase::SendingHeader || s.phase == ImportPhase::AwaitingRow || s.phase
        == ImportPhase::SendingRows) ==> copy_stream_wf(s.stream)
}

/// Whether a reported row can be handed to the import: one value per
/// column, each fitting its column.
pub open spec fn row_fits(types: Seq<ArrowType>, cells: Seq<CopyCell>) -> bool {
    &&& types.len() == cells.len()
    &&& forall|i: int| 0 <= i < cells.len() ==> cell_fits(#[trigger] types[i], cells[i])
}

pub open spec fn import_in(s: ImportView, p: ImportPhase) -> ImportView {
    ImportView { phase: p, ..s }
}

/// The end of an import on a failure reported by the connection or the source.
pub open spec fn import_failed(s: ImportView, o: ImportEventView) -> (ImportView, ImportEffectView) {
    let m = match o {
        ImportEventView::Failed(m) => m,
        _ => Seq::empty(),
    };
    (import_in(s, ImportPhase::Finished), ImportEffectView::Finish(Err(ImportErrorView::Failed(m))))
}

/// The first state and effect of an import into `table` of rows with the
/// columns `fields`.
pub open spec fn import_begin(table: Seq<char>, create_table: bool, fields: Seq<Field>) -> (
    ImportView,
    ImportEffectView,
) {
    let s = ImportView {
        table,
        types: column_types_of(fields),
        stream: CopyStreamView {
            pending: Seq::empty(),
            sent: copy_header_bytes(),
            rows: Seq::empty(),
        },
        phase: ImportPhase::BeginningCopy,
    };
    if !create_table {
        (s, ImportEffectView::BeginCopy(copy_in_statement_of(table)))
    } else if all_fields_mapped(fields) {
        (
            import_in(s, ImportPhase::CreatingTable),
            ImportEffectView::Execute(create_table_ddl(table, fields)),
        )
    } else {
        (
            import_in(s, ImportPhase::Finished),
            ImportEffectView::Finish(Err(ImportErrorView::Ddl(TypeMapError::UnsupportedArrowType))),
        )
    }
}

/// The next state and effect of an import, given what the last effect gave.
pub open spec fn import_next(s: ImportView, o: ImportEventView) -> (ImportView, ImportEffectView) {
    let st = s.stream;
    match s.phase {
        ImportPhase::CreatingTable => if o == ImportEventView::Done {
            (
                import_in(s, ImportPhase::BeginningCopy),
                ImportEffectView::BeginCopy(copy_in_statement_of(s.table)),
            )
        } else {
            import_failed(s, o)
        },
        ImportPhase::BeginningCopy => if o == ImportEventView::Done {
            (import_in(s, ImportPhase::SendingHeader), ImportEffectView::Send(copy_header_bytes()))
        } else {
            import_failed(s, o)
        },
        ImportPhase::SendingHeader | ImportPhase::SendingRows => if o == ImportEventView::Done {
            (import_in(s, ImportPhase::AwaitingRow), ImportEffectView::NextRow)
        } else {
            import_failed(s, o)
        },
        ImportPhase::AwaitingRow => match o {
            ImportEventView::Row(cells) => match row_encoding(s.types, cells) {
                Ok(bytes) => {
                    let all = st.pending + bytes;
                    let rows = st.rows.push(bytes);
                    if all.len() > COPY_FLUSH_BYTES {
                        (
                            ImportView {
                                stream: CopyStreamView { pending: Seq::empty(), sent: st.sent + all, rows },
                                phase: ImportPhase::SendingRows,
                                ..s
                            },
                            ImportEffectView::Send(all),
                        )
                    } else {
                        (
                            ImportView {
                                stream: CopyStreamView { pending: all, sent: st.sent, rows },
                                ..s
                            },
                            ImportEffectView::NextRow,
                        )
                    }
                },
                Err(CopyError::UnsupportedType { column }) => (
                    import_in(s, ImportPhase::Finished),
                    ImportEffectView::Finish(Err(ImportErrorView::UnsupportedType { column })),
                ),
            },
            ImportEventView::EndOfRows => {
                let last = st.pending + copy_trailer_bytes();
                (
                    ImportView {
                        stream: CopyStreamView { pending: Seq::empty(), sent: st.sent + last, rows: st.rows },
                        phase: ImportPhase::SendingLast,
                        ..s
                    },
                    ImportEffectView::Send(last),
                )
            },
            _ => import_failed(s, o),
        },
        ImportPhase::SendingLast => if o == ImportEventView::Done {
            (import_in(s, ImportPhase::FinishingCopy), ImportEffectView::FinishCopy)
        } else {
            import_failed(s, o)
        },
        ImportPhase::FinishingCopy => if o == ImportEventView::Done {
            (import_in(s, ImportPhase::Finished), ImportEffectView::Finish(Ok(())))
        } else {
            import_failed(s, o)
        },
        ImportPhase::Finished => (s, ImportEffectView::Finish(Ok(()))),
    }
}

impl Import {
    /// Begins an import into `table` of rows with the columns of `schema`,
    /// creating the table first when asked. Returns the import and its
    /// first effect.
    pub fn new(table: &str, create_table: bool, schema: &Schema) -> (r: (Import, ImportEffect))
        ensures
            (r.0@, r.1@) == import_begin(table@, create_table, schema.fields@),
            import_wf(r.0@),
    {
        let (stream, _header) = CopyStream::new();
        let mut import = Import {
            table: String::from_str(table),
            types: column_types(schema),
            stream,
            phase: ImportPhase::BeginningCopy,
        };
        if !create_table {
            return (import, ImportEffect::BeginCopy(copy_in_statement(table)));
        }
        match generate_create_table_ddl(table, schema) {
            Ok(ddl) => {
                import.phase = ImportPhase::CreatingTable;
                (import, ImportEffect::Execute(ddl))
            },
            Err(e) => {
                import.phase = ImportPhase::Finished;
                (import, ImportEffect::Finish(Err(ImportError::Ddl(e))))
            },
        }
    }

    fn fail(&mut self, o: &ImportEvent) -> (e: ImportEffect)
        ensures
            (final(self)@, e@) == import_failed(old(self)@, o@),
    {
        let m = match o {
            ImportEvent::Failed(m) => m.clone(),
            _ => String::new(),
        };
        self.phase = ImportPhase::Finished;
        ImportEffect::Finish(Err(ImportError::Failed(m)))
    }

    /// Takes in what the last effect gave and returns the next effect. A
    /// reported row has one value per column, each fitting its column.
    pub fn step(&mut self, o: &ImportEvent) -> (e: ImportEffect)
        requires
            import_wf(old(self)@),
            old(self)@.phase == ImportPhase::AwaitingRow ==> (o matches ImportEvent::Row(cells)
                ==> row_fits(old(self)@.types, cells@)),
        ensures
            import_wf(final(self)@),
            (final(self)@, e@) == import_next(old(self)@, o@),
    {
        match self.phase {
            ImportPhase::CreatingTable => match o {
                ImportEvent::Done => {
                    self.phase = ImportPhase::BeginningCopy;
                    ImportEffect::BeginCopy(copy_in_statement(self.table.as_str()))
                },
                _ => self.fail(o),
            },
            ImportPhase::BeginningCopy => match o {
                ImportEvent::Done => {
                    self.phase = ImportPhase::SendingHeader;
                    ImportEffect::Send(copy_header())
                },
                _ => self.fail(o),
            },
            ImportPhase::SendingHeader | ImportPhase::SendingRows => match o {
                ImportEvent::Done => {
                    self.phase = ImportPhase::AwaitingRow;
                    ImportEffect::NextRow
                },
                _ => self.fail(o),
            },
            ImportPhase::AwaitingRow => match o {
                ImportEvent::Row(cells) => match self.stream.push_row(&self.types, cells) {
                    Ok(Some(chunk)) => {
                        self.phase = ImportPhase::SendingRows;
                        ImportEffect::Send(chunk)
                    },
                    Ok(None) => ImportEffect::NextRow,
                    Err(CopyError::UnsupportedType { column }) => {
                        self.phase = ImportPhase::Finished;
                        ImportEffect::Finish(Err(ImportError::UnsupportedType { column }))
                    },
                },
                ImportEvent::EndOfRows => {
                    let last = self.stream.finish();
                    self.phase = ImportPhase::SendingLast;
                    ImportEffect::Send(last)
                },
                _ => self.fail(o),
            },
            ImportPhase::SendingLast => match o {
                ImportEvent::Done => {
                    self.phase = ImportPhase::FinishingCopy;
                    ImportEffect::FinishCopy
                },
                _ => self.fail(o),
            },
            ImportPhase::FinishingCopy => match o {
                ImportEvent::Done => {
                    self.phase = ImportPhase::Finished;
                    ImportEffect::Finish(Ok(()))
                },
                _ => self.fail(o),
            },
            ImportPhase::Finished => ImportEffect::Finish(Ok(())),
        }
    }
}

} // verus!

verus! {

/// The order of an import: the table is created only as the first effect,
/// and only when asked; the `COPY` begins first or right after the table was
/// created; bytes are sent only once it has begun; it is ended only after
/// its last bytes were sent; a reported failure ends the import with that
/// failure, and it succeeds only once the `COPY` has ended.
pub proof fn lemma_import_order(
    table: Seq<char>,
    create_table: bool,
    fields: Seq<Field>,
    s: ImportView,
    o: ImportEventView,
)
    ensures
        import_begin(table, create_table, fields).1 is Execute ==> create_table,
        !create_table ==> import_begin(table, create_table, fields).1
            == ImportEffectView::BeginCopy(copy_in_statement_of(table)),
        !(import_next(s, o).1 is Execute),
        import_next(s, o).1 is BeginCopy ==> s.phase == ImportPhase::CreatingTable && o
            == ImportEventView::Done,
        import_next(s, o).1 is Send ==> (s.phase == ImportPhase::BeginningCopy || s.phase
            == ImportPhase::AwaitingRow),
        import_next(s, o).1 is FinishCopy ==> s.phase == ImportPhase::SendingLast && o
            == ImportEventView::Done,
        s.phase != ImportPhase::Finished && o is Failed ==> import_next(s, o).1
            == ImportEffectView::Finish(Err(ImportErrorView::Failed(o->Failed_0))),
        s.phase != ImportPhase::Finished && import_next(s, o).1 == ImportEffectView::Finish(Ok(()))
            ==> s.phase == ImportPhase::FinishingCopy && o == ImportEventView::Done,
{
}

/// What an import sends is the `COPY` stream: the header first, then each
/// send carries the stream's next bytes, and the last one completes it with
/// every row's bytes, in order, and the trailer.
pub proof fn lemma_import_sends_stream(s: ImportView, o: ImportEventView)
    requires
        import_wf(s),
    ensures
        import_next(s, o).1 matches ImportEffectView::Send(b) ==> (s.phase
            == ImportPhase::BeginningCopy && b == copy_header_bytes()) || (s.phase
            == ImportPhase::AwaitingRow && import_next(s, o).0.stream.sent == s.stream.sent + b),
        s.phase == ImportPhase::AwaitingRow && o == ImportEventView::EndOfRows ==> import_next(
            s,
            o,
        ).0.stream.sent == copy_header_bytes() + joined(s.stream.rows) + copy_trailer_bytes(),
{
    if s.phase == ImportPhase::AwaitingRow {
        lemma_copy_stream_complete(s.stream);
    }
}

} // verus!

verus! {

/// The number that four bytes stand for, most significant first.
pub open spec fn be_value(b: Seq<u8>) -> int
    decreases b.len(),
{
    if b.len() == 0 {
        0
    } else {
        be_value(b.drop_last()) * 256 + b.last() as int
    }
}

proof fn lemma_be_value_concat4(a: Seq<u8>, b: Seq<u8>)
    requires
        b.len() == 4,
    ensures
        be_value(a + b) == be_value(a) * 0x1_0000_0000 + be_value(b),
{
    let e = Seq::<u8>::empty();
    let a1 = a.push(b[0]);
    let a2 = a1.push(b[1]);
    let a3 = a2.push(b[2]);
    let a4 = a3.push(b[3]);
    assert(a + b =~= a4);
    assert(a4.drop_last() =~= a3);
    assert(a3.drop_last() =~= a2);
    assert(a2.drop_last() =~= a1);
    assert(a1.drop_last() =~= a);
    let c1 = e.push(b[0]);
    let c2 = c1.push(b[1]);
    let c3 = c2.push(b[2]);
    assert(b =~= c3.push(b[3]));
    assert(b.drop_last() =~= c3);
    assert(c3.drop_last() =~= c2);
    assert(c2.drop_last() =~= c1);
    assert(c1.drop_last() =~= e);
    let v = be_value(a);
    let (x0, x1, x2, x3) = (b[0] as int, b[1] as int, b[2] as int, b[3] as int);
    assert(be_value(a1) == v * 256 + x0);
    assert(be_value(a2) == be_value(a1) * 256 + x1);
    assert(be_value(a3) == be_value(a2) * 256 + x2);
    assert(be_value(a4) == be_value(a3) * 256 + x3);
    assert(be_value(c1) == x0) by {
        reveal_with_fuel(be_value, 2);
    }
    assert(be_value(c2) == be_value(c1) * 256 + x1);
    assert(be_value(c3) == be_value(c2) * 256 + x2);
    assert(be_value(b) == be_value(c3) * 256 + x3);
    assert(be_value(a + b) == (((v * 256 + x0) * 256 + x1) * 256 + x2) * 256 + x3);
    assert(be_value(b) == ((x0 * 256 + x1) * 256 + x2) * 256 + x3);
    assert((((v * 256 + x0) * 256 + x1) * 256 + x2) * 256 + x3 == v * 0x1_0000_0000 + (((x0
        * 256 + x1) * 256 + x2) * 256 + x3)) by (nonlinear_arith);
}

proof fn lemma_be32_value(u: u32)
    ensures
        be32(u).len() == 4 && be_value(be32(u)) == u,
{
    let b = be32(u);
    assert(b.drop_last().drop_last().drop_last().drop_last() =~= Seq::<u8>::empty());
    reveal_with_fuel(be_value, 5);
    let q3 = u / 0x100_0000;
    let q2 = (u / 0x1_0000) % 0x100;
    let q1 = (u / 0x100) % 0x100;
    let q0 = u % 0x100;
    assert(be_value(b) == ((q3 * 256 + q2) * 256 + q1) * 256 + q0);
    assert(((q3 * 256 + q2) * 256 + q1) * 256 + q0 == u) by (nonlinear_arith)
        requires
            q3 == u / 0x100_0000,
            q2 == (u / 0x1_0000) % 0x100,
            q1 == (u / 0x100) % 0x100,
            q0 == u % 0x100,
    {
        assert(u / 0x100_0000 == (u / 0x1_0000) / 0x100);
        assert(u / 0x1_0000 == (u / 0x100) / 0x100);
    }
}

/// Integers go out in big-endian order: the bytes of `be16`, `be32` and
/// `be64` read back, most significant first, as the number they were made
/// from.
pub proof fn lemma_big_endian(a: u16, u: u32, w: u64)
    ensures
        be16(a).len() == 2 && be_value(be16(a)) == a,
        be32(u).len() == 4 && be_value(be32(u)) == u,
        be64(w).len() == 8 && be_value(be64(w)) == w,
{
    let b16 = be16(a);
    assert(b16.drop_last().drop_last() =~= Seq::<u8>::empty());
    reveal_with_fuel(be_value, 3);
    assert(be_value(b16) == (a / 0x100) * 256 + a % 0x100);
    lemma_be32_value(u);
    let hi = (w / 0x1_0000_0000) as u32;
    let lo = (w % 0x1_0000_0000) as u32;
    lemma_be32_value(hi);
    lemma_be32_value(lo);
    lemma_be_value_concat4(be32(hi), be32(lo));
    assert(hi * 0x1_0000_0000 + lo == w);
}

/// Every value sent starts with its length: `-1` for `NULL`, otherwise the
/// number of bytes that follow (for values under 2 GiB).
pub proof fn lemma_cell_length_prefix(t: ArrowType, c: CopyCell)
    requires
        cell_encoding(t, c) is Some,
        c matches CopyCell::Text(v) ==> v.len() <= 0x7fff_ffff,
        c matches CopyCell::Binary(v) ==> v.len() <= 0x7fff_ffff,
    ensures
        ({
            let b = cell_encoding(t, c)->Some_0;
            &&& b.len() >= 4
            &&& c is Null ==> b.len() == 4 && be_value(b.take(4)) == 0xffff_ffff
            &&& !(c is Null) ==> be_value(b.take(4)) == b.len() - 4
        }),
{
    let b = cell_encoding(t, c)->Some_0;
    match c {
        CopyCell::Null => {
            lemma_big_endian(0, 0xffff_ffff, 0);
            assert(b.take(4) =~= b);
        },
        CopyCell::Bool(v) => {
            lemma_big_endian(0, 1, 0);
            assert(b.take(4) =~= be32(1));
        },
        CopyCell::Int16(v) => {
            lemma_big_endian(v as u16, 2, 0);
            assert(b.take(4) =~= be32(2));
        },
        CopyCell::Int32(v) => {
            lemma_big_endian(0, 4, 0);
            lemma_big_endian(0, v as u32, 0);
            assert(b.take(4) =~= be32(4));
        },
        CopyCell::Int64(v) => {
            lemma_big_endian(0, 8, v as u64);
            assert(b.take(4) =~= be32(8));
        },
        CopyCell::Float32Bits(v) => {
            lemma_big_endian(0, 4, 0);
            lemma_big_endian(0, v, 0);
            assert(b.take(4) =~= be32(4));
        },
        CopyCell::Float64Bits(v) => {
            lemma_big_endian(0, 8, v);
            assert(b.take(4) =~= be32(8));
        },
        CopyCell::Text(v) => {
            let n = (v.len() as i32) as u32;
            assert(n == v.len());
            lemma_big_endian(0, n, 0);
            assert(b.take(4) =~= be32(n));
        },
        CopyCell::Binary(v) => {
            let n = (v.len() as i32) as u32;
            assert(n == v.len());
            lemma_big_endian(0, n, 0);
            assert(b.take(4) =~= be32(n));
        },
        CopyCell::Other => {},
    }
}

} // verus!
