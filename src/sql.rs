use vstd::prelude::*;
use crate::report::Status;

verus! {

/// Why no insert statement could be built.
#[derive(Clone, Copy, Debug, PartialEq, Eq, Structural)]
pub enum SqlError {
    /// A batch of no rows is never written.
    EmptyBatch,
    /// The table name holds something other than a plain, possibly
    /// schema-qualified, identifier.
    InvalidTable,
}

pub open spec fn name_char(c: char) -> bool {
    ('a' <= c && c <= 'z') || ('A' <= c && c <= 'Z') || ('0' <= c && c <= '9') || c == '_' || c
        == '.'
}

/// A table name that can stand in a statement as it is: letters, digits,
/// underscores and dots, neither starting nor ending with a dot.
pub open spec fn valid_table_name(t: Seq<char>) -> bool {
    &&& t.len() > 0
    &&& t[0] != '.'
    &&& t[t.len() - 1] != '.'
    &&& forall|i: int| 0 <= i < t.len() ==> name_char(#[trigger] t[i])
}

/// `(?, ?)` once per row, separated by `, `.
pub open spec fn row_placeholders(n: nat) -> Seq<char>
    decreases n,
{
    if n <= 1 {
        "(?, ?)"@
    } else {
        row_placeholders((n - 1) as nat) + ", (?, ?)"@
    }
}

/// The parameterized multi-row insert of `n` rows into `table`.
pub open spec fn insert_sql(table: Seq<char>, n: nat) -> Seq<char> {
    "INSERT INTO "@ + table + " (client_id, status) VALUES "@ + row_placeholders(n)
}

/// The values bound to the placeholders: client id, then status, row by row.
pub open spec fn flat_params(rows: Seq<Status>) -> Seq<String>
    decreases rows.len(),
{
    if rows.len() == 0 {
        Seq::empty()
    } else {
        flat_params(rows.drop_last()) + seq![rows.last().client_id, rows.last().status]
    }
}

/// How many `?` markers a text holds.
pub open spec fn marks(s: Seq<char>) -> nat
    decreases s.len(),
{
    if s.len() == 0 {
        0
    } else {
        marks(s.drop_last()) + if s.last() == '?' {
            1nat
        } else {
            0nat
        }
    }
}

proof fn lemma_marks_concat(a: Seq<char>, b: Seq<char>)
    ensures
        marks(a + b) == marks(a) + marks(b),
    decreases b.len(),
{
    if b.len() == 0 {
        assert(a + b =~= a);
    } else {
        assert((a + b).drop_last() =~= a + b.drop_last());
        lemma_marks_concat(a, b.drop_last());
    }
}

proof fn lemma_marks_none(s: Seq<char>)
    requires
        forall|i: int| 0 <= i < s.len() ==> #[trigger] s[i] != '?',
    ensures
        marks(s) == 0,
    decreases s.len(),
{
    if s.len() > 0 {
        lemma_marks_none(s.drop_last());
    }
}

proof fn lemma_marks_placeholders(n: nat)
    requires
        n >= 1,
    ensures
        marks(row_placeholders(n)) == 2 * n,
    decreases n,
{
    reveal_strlit("(?, ?)");
    reveal_strlit(", (?, ?)");
    reveal_with_fuel(marks, 9);
    if n > 1 {
        lemma_marks_placeholders((n - 1) as nat);
        lemma_marks_concat(row_placeholders((n - 1) as nat), ", (?, ?)"@);
    }
}

proof fn lemma_flat_params_len(rows: Seq<Status>)
    ensures
        flat_params(rows).len() == 2 * rows.len(),
    decreases rows.len(),
{
    if rows.len() > 0 {
        lemma_flat_params_len(rows.drop_last());
    }
}

/// The statement built for a batch has exactly one `?` marker for each
/// value bound to it: two per row, none from the table name or the fixed
/// text.
pub proof fn lemma_one_marker_per_value(table: Seq<char>, rows: Seq<Status>)
    requires
        valid_table_name(table),
        rows.len() > 0,
    ensures
        marks(insert_sql(table, rows.len())) == flat_params(rows).len(),
{
    reveal_strlit("INSERT INTO ");
    reveal_strlit(" (client_id, status) VALUES ");
    let a = "INSERT INTO "@;
    let c = " (client_id, status) VALUES "@;
    lemma_marks_none(a);
    lemma_marks_none(c);
    assert forall|i: int| 0 <= i < table.len() implies #[trigger] table[i] != '?' by {
        assert(name_char(table[i]));
    }
    lemma_marks_none(table);
    lemma_marks_placeholders(rows.len());
    lemma_marks_concat(a, table);
    lemma_marks_concat(a + table, c);
    lemma_marks_concat(a + table + c, row_placeholders(rows.len()));
    lemma_flat_params_len(rows);
}

/// Checks a table name against `valid_table_name`.
pub fn is_valid_table_name(table: &str) -> (r: bool)
    ensures
        r == valid_table_name(table@),
{
    let n = table.unicode_len();
    if n == 0 {
        return false;
    }
    if table.get_char(0) == '.' || table.get_char(n - 1) == '.' {
        return false;
    }
    let mut i: usize = 0;
    while i < n
        invariant
            n == table@.len(),
            i <= n,
            forall|j: int| 0 <= j < i ==> name_char(#[trigger] table@[j]),
        decreases n - i,
    {
        let c = table.get_char(i);
        if !(('a' <= c && c <= 'z') || ('A' <= c && c <= 'Z') || ('0' <= c && c <= '9') || c
            == '_' || c == '.') {
            return false;
        }
        i = i + 1;
    }
    true
}

/// Builds the insert statement for `rows` rows: one `(?, ?)` group per row,
/// values to be bound, never written into the text.
pub fn insert_statement(table: &str, rows: usize) -> (r: Result<String, SqlError>)
    ensures
        rows == 0 ==> r == Err::<String, SqlError>(SqlError::EmptyBatch),
        rows > 0 && !valid_table_name(table@) ==> r == Err::<String, SqlError>(
            SqlError::InvalidTable,
        ),
        rows > 0 && valid_table_name(table@) ==> r is Ok,
        r matches Ok(s) ==> s@ == insert_sql(table@, rows as nat),
{
    if rows == 0 {
        return Err(SqlError::EmptyBatch);
    }
    if !is_valid_table_name(table) {
        return Err(SqlError::InvalidTable);
    }
    let mut s = String::from_str("INSERT INTO ");
    s.append(table);
    s.append(" (client_id, status) VALUES ");
    s.append("(?, ?)");
    let ghost head = "INSERT INTO "@ + table@ + " (client_id, status) VALUES "@;
    let mut i: usize = 1;
    while i < rows
        invariant
            1 <= i <= rows,
            s@ == head + row_placeholders(i as nat),
        decreases rows - i,
    {
        s.append(", (?, ?)");
        i = i + 1;
        assert(s@ =~= head + row_placeholders(i as nat));
    }
    Ok(s)
}

/// The values to bind to the statement of `insert_statement`, in order.
pub fn insert_params(rows: &Vec<Status>) -> (r: Vec<String>)
    ensures
        r@ == flat_params(rows@),
        r@.len() == 2 * rows@.len(),
{
    let mut out: Vec<String> = Vec::new();
    let mut i: usize = 0;
    while i < rows.len()
        invariant
            i <= rows@.len(),
            out@ == flat_params(rows@.take(i as int)),
            out@.len() == 2 * i,
        decreases rows@.len() - i,
    {
        let row = &rows[i];
        out.push(row.client_id.clone());
        out.push(row.status.clone());
        assert(rows@.take(i + 1).drop_last() =~= rows@.take(i as int));
        i = i + 1;
        assert(out@ =~= flat_params(rows@.take(i as int)));
    }
    assert(rows@.take(i as int) =~= rows@);
    out
}

} // verus!
