//! What the storage sinks write: SQL statements for the relational stores
//! and rows for the CSV file. A record is its list of fields in order, each
//! a name and, when the value is a string, that string.
use vstd::prelude::*;
use vstd::string::StrSliceExecFns;
use vstd::string::StringExecFns;
use crate::query::{decimal, decimal_string};

verus! {

/// The text a field value is written as: the string, or empty when the value
/// is not a string.
pub open spec fn text_of(v: Option<String>) -> Seq<char> {
    match v {
        Some(s) => s@,
        None => Seq::empty(),
    }
}

/// The views of a list of strings.
pub open spec fn texts(parts: Seq<String>) -> Seq<Seq<char>> {
    parts.map_values(|s: String| s@)
}

/// The field names of a record, in order.
pub open spec fn column_names(record: Seq<(String, Option<String>)>) -> Seq<Seq<char>> {
    record.map_values(|f: (String, Option<String>)| f.0@)
}

/// The texts of a record's values, in order.
pub open spec fn value_texts(record: Seq<(String, Option<String>)>) -> Seq<Seq<char>> {
    record.map_values(|f: (String, Option<String>)| text_of(f.1))
}

/// The text of the first field named `name`, or empty when there is none.
pub open spec fn lookup(record: Seq<(String, Option<String>)>, name: Seq<char>) -> Seq<char>
    decreases record.len(),
{
    if record.len() == 0 {
        Seq::empty()
    } else if record[0].0@ == name {
        text_of(record[0].1)
    } else {
        lookup(record.skip(1), name)
    }
}

/// The parts, with `sep` between each two.
pub open spec fn joined(parts: Seq<Seq<char>>, sep: Seq<char>) -> Seq<char>
    decreases parts.len(),
{
    if parts.len() == 0 {
        Seq::empty()
    } else if parts.len() == 1 {
        parts[0]
    } else {
        joined(parts.drop_last(), sep) + sep + parts.last()
    }
}

/// The numbered parameters `$1` to `$n`.
pub open spec fn parameter_list(n: nat) -> Seq<Seq<char>> {
    Seq::new(n, |i: int| "$"@ + decimal((i + 1) as nat))
}

/// `column = $k` for the k-th column, counting from one.
pub open spec fn assignment_list(columns: Seq<Seq<char>>) -> Seq<Seq<char>> {
    Seq::new(columns.len(), |i: int| columns[i] + " = $"@ + decimal((i + 1) as nat))
}

/// The primary key column of a table: `address` for the account table,
/// `transaction_hash` for any other.
pub open spec fn primary_key(table: Seq<char>) -> Seq<char> {
    if table == "ethereum_accounts"@ {
        "address"@
    } else {
        "transaction_hash"@
    }
}

/// The PostgreSQL statement that inserts a record, or updates the row with
/// the same primary key.
pub open spec fn postgres_upsert(table: Seq<char>, columns: Seq<Seq<char>>) -> Seq<char> {
    "INSERT INTO "@ + table + " ("@ + joined(columns, ", "@) + ") VALUES ("@ + joined(
        parameter_list(columns.len()),
        ", "@,
    ) + ") ON CONFLICT ("@ + primary_key(table) + ") DO UPDATE SET "@ + joined(
        assignment_list(columns),
        ", "@,
    )
}

/// The SQLite statement that inserts a record, replacing a row with the same
/// key.
pub open spec fn sqlite_insert(table: Seq<char>, columns: Seq<Seq<char>>) -> Seq<char> {
    "INSERT OR REPLACE INTO "@ + table + " ("@ + joined(columns, ", "@) + ") VALUES ("@ + joined(
        parameter_list(columns.len()),
        ", "@,
    ) + ")"@
}

/// Whether two texts are equal.
pub fn same_text(a: &str, b: &str) -> (r: bool)
    ensures
        r == (a@ == b@),
{
    let n = a.unicode_len();
    if n != b.unicode_len() {
        return false;
    }
    let mut i: usize = 0;
    while i < n
        invariant
            n == a@.len(),
            n == b@.len(),
            i <= n,
            forall|j: int| 0 <= j < i ==> a@[j] == b@[j],
        decreases n - i,
    {
        if a.get_char(i) != b.get_char(i) {
            return false;
        }
        i = i + 1;
    }
    assert(a@ =~= b@);
    true
}

/// The primary key column of `table`.
pub fn table_primary_key(table: &str) -> (r: &'static str)
    ensures
        r@ == primary_key(table@),
{
    if same_text(table, "ethereum_accounts") {
        "address"
    } else {
        "transaction_hash"
    }
}

/// The parts, with `sep` between each two.
pub fn join_texts(parts: &[String], sep: &str) -> (r: String)
    ensures
        r@ == joined(texts(parts@), sep@),
{
    if parts.len() == 0 {
        return String::new();
    }
    let mut out = parts[0].clone();
    let mut i: usize = 1;
    assert(texts(parts@).take(1) =~= seq![parts@[0]@]);
    while i < parts.len()
        invariant
            1 <= i <= parts@.len(),
            out@ == joined(texts(parts@).take(i as int), sep@),
        decreases parts@.len() - i,
    {
        out.append(sep);
        out.append(parts[i].as_str());
        assert(texts(parts@).take(i + 1).drop_last() =~= texts(parts@).take(i as int));
        i = i + 1;
    }
    assert(texts(parts@).take(i as int) =~= texts(parts@));
    out
}

/// The numbered parameters `$1` to `$n`, separated by commas.
pub fn parameter_text(n: usize) -> (r: String)
    ensures
        r@ == joined(parameter_list(n as nat), ", "@),
{
    let mut items: Vec<String> = Vec::new();
    let mut i: usize = 0;
    while i < n
        invariant
            i <= n,
            texts(items@) =~= parameter_list(i as nat),
        decreases n - i,
    {
        let mut item = String::from_str("$");
        let number = decimal_string(i as u64 + 1);
        item.append(number.as_str());
        proof {
            reveal_strlit("$");
        }
        let ghost prev = items@;
        assert(item@ == "$"@ + decimal((i + 1) as nat));
        items.push(item);
        assert(texts(items@) =~= texts(prev).push("$"@ + decimal((i + 1) as nat)));
        assert(texts(items@) =~= parameter_list((i + 1) as nat));
        i = i + 1;
    }
    join_texts(items.as_slice(), ", ")
}

/// The field names of a record, in order.
pub fn record_columns(record: &[(String, Option<String>)]) -> (r: Vec<String>)
    ensures
        texts(r@) == column_names(record@),
{
    let mut r: Vec<String> = Vec::new();
    let mut i: usize = 0;
    while i < record.len()
        invariant
            i <= record@.len(),
            texts(r@) =~= column_names(record@).take(i as int),
        decreases record@.len() - i,
    {
        let ghost prev = r@;
        let name = record[i].0.clone();
        assert(name@ == record@[i as int].0@);
        r.push(name);
        assert(texts(r@) =~= texts(prev).push(name@));
        assert(texts(r@) =~= column_names(record@).take(i + 1));
        i = i + 1;
    }
    assert(column_names(record@).take(i as int) =~= column_names(record@));
    r
}

/// The values bound to a record's statement, in the order of its fields:
/// each string value, or empty text for a value that is not a string.
pub fn bound_values(record: &[(String, Option<String>)]) -> (r: Vec<String>)
    ensures
        texts(r@) == value_texts(record@),
{
    let mut r: Vec<String> = Vec::new();
    let mut i: usize = 0;
    while i < record.len()
        invariant
            i <= record@.len(),
            texts(r@) =~= value_texts(record@).take(i as int),
        decreases record@.len() - i,
    {
        let text = match &record[i].1 {
            Some(s) => s.clone(),
            None => String::new(),
        };
        assert(text@ == text_of(record@[i as int].1));
        let ghost prev = r@;
        r.push(text);
        assert(texts(r@) =~= texts(prev).push(text@));
        assert(texts(r@) =~= value_texts(record@).take(i + 1));
        i = i + 1;
    }
    assert(value_texts(record@).take(i as int) =~= value_texts(record@));
    r
}

/// `column = $k` for each column, counting from one, separated by commas.
pub fn assignment_text(columns: &[String]) -> (r: String)
    ensures
        r@ == joined(assignment_list(texts(columns@)), ", "@),
{
    let mut items: Vec<String> = Vec::new();
    let mut i: usize = 0;
    while i < columns.len()
        invariant
            i <= columns@.len(),
            texts(items@) =~= assignment_list(texts(columns@)).take(i as int),
        decreases columns@.len() - i,
    {
        let mut item = columns[i].clone();
        item.append(" = $");
        let number = decimal_string(i as u64 + 1);
        item.append(number.as_str());
        let ghost prev = items@;
        assert(item@ == columns@[i as int]@ + " = $"@ + decimal((i + 1) as nat));
        items.push(item);
        assert(texts(items@) =~= texts(prev).push(item@));
        assert(texts(items@) =~= assignment_list(texts(columns@)).take(i + 1));
        i = i + 1;
    }
    assert(assignment_list(texts(columns@)).take(i as int) =~= assignment_list(texts(columns@)));
    join_texts(items.as_slice(), ", ")
}

/// The PostgreSQL statement that upserts `record` into `table`, keyed by the
/// table's primary key, with the record's own fields as columns.
pub fn postgres_upsert_sql(table: &str, record: &[(String, Option<String>)]) -> (r: String)
    ensures
        r@ == postgres_upsert(table@, column_names(record@)),
{
    let columns = record_columns(record);
    let column_text = join_texts(columns.as_slice(), ", ");
    let params = parameter_text(columns.len());
    let assignments = assignment_text(columns.as_slice());
    let mut r = String::from_str("INSERT INTO ");
    r.append(table);
    r.append(" (");
    r.append(column_text.as_str());
    r.append(") VALUES (");
    r.append(params.as_str());
    r.append(") ON CONFLICT (");
    r.append(table_primary_key(table));
    r.append(") DO UPDATE SET ");
    r.append(assignments.as_str());
    assert(columns@.len() == column_names(record@).len());
    r
}

/// The SQLite statement that inserts `record` into `table`, replacing a row
/// with the same key, with the record's own fields as columns.
pub fn sqlite_insert_sql(table: &str, record: &[(String, Option<String>)]) -> (r: String)
    ensures
        r@ == sqlite_insert(table@, column_names(record@)),
{
    let columns = record_columns(record);
    let column_text = join_texts(columns.as_slice(), ", ");
    let params = parameter_text(columns.len());
    let mut r = String::from_str("INSERT OR REPLACE INTO ");
    r.append(table);
    r.append(" (");
    r.append(column_text.as_str());
    r.append(") VALUES (");
    r.append(params.as_str());
    r.append(")");
    assert(columns@.len() == column_names(record@).len());
    r
}

/// The text of the first field of `record` named `name`, or empty text.
pub fn field_text(record: &[(String, Option<String>)], name: &str) -> (r: String)
    ensures
        r@ == lookup(record@, name@),
{
    let mut i: usize = 0;
    assert(record@.skip(0) =~= record@);
    while i < record.len()
        invariant
            i <= record@.len(),
            lookup(record@.skip(i as int), name@) == lookup(record@, name@),
        decreases record@.len() - i,
    {
        assert(record@.skip(i as int).skip(1) =~= record@.skip(i + 1));
        if same_text(record[i].0.as_str(), name) {
            return match &record[i].1 {
                Some(s) => s.clone(),
                None => String::new(),
            };
        }
        i = i + 1;
    }
    String::new()
}

/// The CSV row of `record`: for each of `fields` in order, the text of the
/// field of that name, or empty text where the record has none.
pub fn csv_row(record: &[(String, Option<String>)], fields: &[&str]) -> (r: Vec<String>)
    ensures
        r@.len() == fields@.len(),
        forall|k: int| 0 <= k < fields@.len() ==> #[trigger] r@[k]@ == lookup(record@, fields@[k]@),
{
    let mut r: Vec<String> = Vec::new();
    let mut k: usize = 0;
    while k < fields.len()
        invariant
            k <= fields@.len(),
            r@.len() == k,
            forall|j: int| 0 <= j < k ==> #[trigger] r@[j]@ == lookup(record@, fields@[j]@),
        decreases fields@.len() - k,
    {
        r.push(field_text(record, fields[k]));
        k = k + 1;
    }
    r
}

} // verus!
