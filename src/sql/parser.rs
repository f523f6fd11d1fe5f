use crate::utils::same_text;
use vstd::prelude::*;

verus! {

/// How a column's values are read and written out, chosen by the type name
/// that the driver reports for the column.
#[derive(Debug, Clone, Copy, PartialEq, Eq, Structural)]
pub enum ValueKind {
    Int16,
    Int32,
    Int64,
    Float32,
    Float64,
    Bool,
    Text,
    /// Binary data, shown as a marker.
    Blob,
    /// A type with no conversion, shown as a marker.
    Unsupported,
}

/// Text shown for binary values.
pub const BLOB_MARKER: &'static str = "BLOB...";

/// Text shown for values of a type with no conversion.
pub const UNSUPPORTED_MARKER: &'static str = "UNIMPLEMENTED";

/// A table from type names to kinds, as the names and kinds it holds.
pub open spec fn table_view(t: Seq<(&'static str, ValueKind)>) -> Seq<(Seq<char>, ValueKind)> {
    t.map_values(|e: (&'static str, ValueKind)| (e.0@, e.1))
}

/// The kind of the first entry of `table` named `name`, if any.
pub open spec fn lookup_kind(table: Seq<(Seq<char>, ValueKind)>, name: Seq<char>) -> Option<
    ValueKind,
>
    decreases table.len(),
{
    if table.len() == 0 {
        None
    } else if table[0].0 == name {
        Some(table[0].1)
    } else {
        lookup_kind(table.drop_first(), name)
    }
}

pub open spec fn mysql_table() -> Seq<(Seq<char>, ValueKind)> {
    seq![
        ("TINYINT"@, ValueKind::Int16),
        ("BOOL"@, ValueKind::Int16),
        ("SMALLINT"@, ValueKind::Int16),
        ("TINYINT UNSIGNED"@, ValueKind::Int16),
        ("SMALLINT UNSIGNED"@, ValueKind::Int16),
        ("INT"@, ValueKind::Int32),
        ("INT UNSIGNED"@, ValueKind::Int32),
        ("BIGINT"@, ValueKind::Int64),
        ("BIGINT UNSIGNED"@, ValueKind::Int64),
        ("FLOAT"@, ValueKind::Float32),
        ("DOUBLE"@, ValueKind::Float64),
        ("VARCHAR"@, ValueKind::Text),
        ("CHAR"@, ValueKind::Text),
        ("TEXT"@, ValueKind::Text),
        ("INET4"@, ValueKind::Text),
        ("INET6"@, ValueKind::Text),
        ("VARBINARY"@, ValueKind::Blob),
        ("BINARY"@, ValueKind::Blob),
        ("BLOB"@, ValueKind::Blob),
    ]
}

pub open spec fn sqlite_table() -> Seq<(Seq<char>, ValueKind)> {
    seq![
        ("BOOLEAN"@, ValueKind::Bool),
        ("INTEGER"@, ValueKind::Int32),
        ("INT8"@, ValueKind::Int64),
        ("REAL"@, ValueKind::Float64),
    ]
}

pub open spec fn postgres_table() -> Seq<(Seq<char>, ValueKind)> {
    seq![
        ("SMALLSERIAL"@, ValueKind::Int16),
        ("INT2"@, ValueKind::Int16),
        ("SERIAL"@, ValueKind::Int32),
        ("INT4"@, ValueKind::Int32),
        ("BIGSERIAL"@, ValueKind::Int64),
        ("FLOAT4"@, ValueKind::Float32),
        ("DOUBLE PRECISION"@, ValueKind::Float64),
        ("FLOAT8"@, ValueKind::Float64),
        ("BYTEA"@, ValueKind::Blob),
    ]
}

/// The kind for a type name: looked up in the MySQL table, then the SQLite
/// table, then the PostgreSQL table; unsupported when no table names it.
pub open spec fn kind_of(name: Seq<char>) -> ValueKind {
    match lookup_kind(mysql_table(), name) {
        Some(k) => k,
        None => match lookup_kind(sqlite_table(), name) {
            Some(k) => k,
            None => match lookup_kind(postgres_table(), name) {
                Some(k) => k,
                None => ValueKind::Unsupported,
            },
        },
    }
}

fn mysql_types() -> (r: Vec<(&'static str, ValueKind)>)
    ensures
        table_view(r@) == mysql_table(),
{
    let r = vec![
        ("TINYINT", ValueKind::Int16),
        ("BOOL", ValueKind::Int16),
        ("SMALLINT", ValueKind::Int16),
        ("TINYINT UNSIGNED", ValueKind::Int16),
        ("SMALLINT UNSIGNED", ValueKind::Int16),
        ("INT", ValueKind::Int32),
        ("INT UNSIGNED", ValueKind::Int32),
        ("BIGINT", ValueKind::Int64),
        ("BIGINT UNSIGNED", ValueKind::Int64),
        ("FLOAT", ValueKind::Float32),
        ("DOUBLE", ValueKind::Float64),
        ("VARCHAR", ValueKind::Text),
        ("CHAR", ValueKind::Text),
        ("TEXT", ValueKind::Text),
        ("INET4", ValueKind::Text),
        ("INET6", ValueKind::Text),
        ("VARBINARY", ValueKind::Blob),
        ("BINARY", ValueKind::Blob),
        ("BLOB", ValueKind::Blob),
    ];
    proof {
        assert(table_view(r@) =~= mysql_table());
    }
    r
}

fn sqlite_types() -> (r: Vec<(&'static str, ValueKind)>)
    ensures
        table_view(r@) == sqlite_table(),
{
    let r = vec![
        ("BOOLEAN", ValueKind::Bool),
        ("INTEGER", ValueKind::Int32),
        ("INT8", ValueKind::Int64),
        ("REAL", ValueKind::Float64),
    ];
    proof {
        assert(table_view(r@) =~= sqlite_table());
    }
    r
}

fn postgres_types() -> (r: Vec<(&'static str, ValueKind)>)
    ensures
        table_view(r@) == postgres_table(),
{
    let r = vec![
        ("SMALLSERIAL", ValueKind::Int16),
        ("INT2", ValueKind::Int16),
        ("SERIAL", ValueKind::Int32),
        ("INT4", ValueKind::Int32),
        ("BIGSERIAL", ValueKind::Int64),
        ("FLOAT4", ValueKind::Float32),
        ("DOUBLE PRECISION", ValueKind::Float64),
        ("FLOAT8", ValueKind::Float64),
        ("BYTEA", ValueKind::Blob),
    ];
    proof {
        assert(table_view(r@) =~= postgres_table());
    }
    r
}

/// The kind of the first entry of `table` named `name`, if any.
fn find_kind(table: &Vec<(&'static str, ValueKind)>, name: &str) -> (r: Option<ValueKind>)
    ensures
        r == lookup_kind(table_view(table@), name@),
{
    let ghost t = table_view(table@);
    assert(t.subrange(0, t.len() as int) =~= t);
    let mut i: usize = 0;
    while i < table.len()
        invariant
            i <= table@.len(),
            t == table_view(table@),
            t.len() == table@.len(),
            lookup_kind(t, name@) == lookup_kind(t.subrange(i as int, t.len() as int), name@),
        decreases table@.len() - i,
    {
        let ghost rest = t.subrange(i as int, t.len() as int);
        assert(rest[0] == t[i as int]);
        assert(rest.drop_first() =~= t.subrange(i + 1, t.len() as int));
        let entry = table[i];
        if same_text(entry.0, name) {
            return Some(entry.1);
        }
        i += 1;
    }
    assert(t.subrange(i as int, t.len() as int).len() == 0);
    None
}

/// Conversion from driver values to display text.
pub struct SqlParser;

impl SqlParser {
    /// The kind of conversion for a column whose driver type is `column_type`.
    pub fn value_kind(column_type: &str) -> (r: ValueKind)
        ensures
            r == kind_of(column_type@),
    {
        if let Some(k) = find_kind(&mysql_types(), column_type) {
            return k;
        }
        if let Some(k) = find_kind(&sqlite_types(), column_type) {
            return k;
        }
        if let Some(k) = find_kind(&postgres_types(), column_type) {
            return k;
        }
        ValueKind::Unsupported
    }

    /// The fixed text shown for values of `kind`, for the kinds that show
    /// one: binary values and unsupported types.
    pub fn marker(kind: ValueKind) -> (r: Option<&'static str>)
        ensures
            kind == ValueKind::Blob ==> r == Some(BLOB_MARKER),
            kind == ValueKind::Unsupported ==> r == Some(UNSUPPORTED_MARKER),
            kind != ValueKind::Blob && kind != ValueKind::Unsupported ==> r is None,
    {
        match kind {
            ValueKind::Blob => Some(BLOB_MARKER),
            ValueKind::Unsupported => Some(UNSUPPORTED_MARKER),
            _ => None,
        }
    }
}

} // verus!
