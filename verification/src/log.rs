//! The plan of the telemetry log: which statements bring the table's columns
//! up to the feed's schema, what the insert statement is, where a batch of
//! rows begins and ends, and what is bound to each parameter of a row.
//!
//! The log is an SQL table `points` with the column `realtime_ns` and one
//! column for each key. Running the statements is the program's part.

use crate::interface::FeedValue;
use vstd::prelude::*;

verus! {

/// The number of rows that one transaction takes.
pub const BATCH_SIZE: u32 = 5000;

/// What has to be done to the table before rows can go in.
#[derive(Debug, PartialEq, Eq)]
pub struct SchemaPlan {
    /// The table has no column yet and is to be created.
    pub create_table: bool,
    /// The keys for which a column is to be added, in the order of the keys.
    pub add_columns: Vec<String>,
}

/// The keys of `keys` that are not among `existing`, in their order.
pub open spec fn missing_columns(existing: Seq<Seq<char>>, keys: Seq<Seq<char>>) -> Seq<
    Seq<char>,
> {
    keys.filter(|key: Seq<char>| !existing.contains(key))
}

/// Whether `name` is one of `names`.
fn contains_name(names: &Vec<String>, name: &String) -> (r: bool)
    ensures
        r == names.deep_view().contains(name@),
{
    let mut i: usize = 0;
    while i < names.len()
        invariant
            i <= names@.len(),
            forall|k: int| 0 <= k < i ==> names.deep_view()[k] != name@,
        decreases names@.len() - i,
    {
        if names[i] == *name {
            assert(names.deep_view()[i as int] == name@);
            return true;
        }
        i += 1;
    }
    false
}

/// Plans the change of the table's columns. `existing` holds the names of
/// the columns that the table has, `keys` the schema of the feed. The table
/// is created if it has no column, and a column is added for every key that
/// the table lacks. No column is ever removed.
pub fn plan_columns(existing: &Vec<String>, keys: &Vec<String>) -> (plan: SchemaPlan)
    ensures
        plan.create_table == (existing@.len() == 0),
        plan.add_columns.deep_view() == missing_columns(existing.deep_view(), keys.deep_view()),
{
    let ghost have = existing.deep_view();
    let ghost want = keys.deep_view();
    let mut add: Vec<String> = Vec::new();
    let mut i: usize = 0;
    proof {
        reveal(Seq::filter);
    }
    while i < keys.len()
        invariant
            i <= keys@.len(),
            have == existing.deep_view(),
            want == keys.deep_view(),
            add.deep_view() == missing_columns(have, want.take(i as int)),
        decreases keys@.len() - i,
    {
        proof {
            reveal(Seq::filter);
            assert(want.take(i + 1).drop_last() =~= want.take(i as int));
        }
        if !contains_name(existing, &keys[i]) {
            add.push(keys[i].clone());
        }
        i += 1;
    }
    assert(want.take(i as int) =~= want);
    SchemaPlan { create_table: existing.len() == 0, add_columns: add }
}

/// The statement that creates the table.
pub fn create_table_statement() -> (sql: String)
    ensures
        sql@ == "CREATE TABLE points (realtime_ns INTEGER);"@,
{
    String::from_str("CREATE TABLE points (realtime_ns INTEGER);")
}

/// The statement that adds the column for `key`.
pub fn add_column_statement(key: &str) -> (sql: String)
    ensures
        sql@ == "ALTER TABLE points ADD COLUMN '"@ + key@ + "' REAL;"@,
{
    let mut sql = String::from_str("ALTER TABLE points ADD COLUMN '");
    sql.append(key);
    sql.append("' REAL;");
    sql
}

/// The column list of the insert statement after `realtime_ns`: each key in
/// quotes, with a comma before it.
pub open spec fn column_list(keys: Seq<Seq<char>>) -> Seq<char>
    decreases keys.len(),
{
    if keys.len() == 0 {
        Seq::empty()
    } else {
        column_list(keys.drop_last()) + ", '"@ + keys.last() + "'"@
    }
}

/// The parameter list of the insert statement after the first mark: a mark
/// for each of `n` keys, with a comma before it.
pub open spec fn mark_list(n: nat) -> Seq<char>
    decreases n,
{
    if n == 0 {
        Seq::empty()
    } else {
        mark_list((n - 1) as nat) + ", ?"@
    }
}

/// The text of the insert statement for a schema.
pub open spec fn insert_text(keys: Seq<Seq<char>>) -> Seq<char> {
    "insert into points (realtime_ns"@ + column_list(keys) + ") values (?"@ + mark_list(keys.len())
        + ")"@
}

/// The statement that inserts one row: the time first, then a value for
/// each key.
pub fn insert_statement(keys: &Vec<String>) -> (sql: String)
    ensures
        sql@ == insert_text(keys.deep_view()),
{
    let ghost want = keys.deep_view();
    let mut sql = String::from_str("insert into points (realtime_ns");
    let mut i: usize = 0;
    while i < keys.len()
        invariant
            i <= keys@.len(),
            want == keys.deep_view(),
            sql@ == "insert into points (realtime_ns"@ + column_list(want.take(i as int)),
        decreases keys@.len() - i,
    {
        proof {
            assert(want.take(i + 1).drop_last() =~= want.take(i as int));
        }
        sql.append(", '");
        sql.append(keys[i].as_str());
        sql.append("'");
        assert(sql@ =~= "insert into points (realtime_ns"@ + column_list(want.take(i + 1)));
        i += 1;
    }
    assert(want.take(i as int) =~= want);
    sql.append(") values (?");
    let ghost head = sql@;
    let mut j: usize = 0;
    while j < keys.len()
        invariant
            j <= keys@.len(),
            sql@ == head + mark_list(j as nat),
        decreases keys@.len() - j,
    {
        sql.append(", ?");
        assert(sql@ =~= head + mark_list((j + 1) as nat));
        j += 1;
    }
    sql.append(")");
    sql
}

/// Where the log stands within its current transaction.
pub struct Batch {
    /// The rows that the open transaction still takes; 0 when none is open.
    remaining: u32,
}

/// What surrounds the insertion of one row.
#[derive(Debug, PartialEq, Eq, Clone, Copy)]
pub struct RowPlan {
    /// A transaction is begun before the row.
    pub begin: bool,
    /// The transaction is committed after the row.
    pub commit: bool,
}

impl Batch {
    /// The rows that the open transaction still takes; 0 when none is open.
    pub closed spec fn remaining(&self) -> nat {
        self.remaining as nat
    }

    /// No transaction takes more than [`BATCH_SIZE`] rows.
    #[verifier::type_invariant]
    pub closed spec fn wf(&self) -> bool {
        self.remaining < BATCH_SIZE
    }

    /// A log with no transaction open.
    pub fn new() -> (batch: Batch)
        ensures
            batch.remaining() == 0,
    {
        Batch { remaining: 0 }
    }

    /// Whether a transaction is open.
    pub fn is_open(&self) -> (open: bool)
        ensures
            open == (self.remaining() > 0),
    {
        self.remaining > 0
    }

    /// Accounts for one row. A transaction is begun if none is open, and it
    /// is committed once it holds [`BATCH_SIZE`] rows.
    pub fn row(&mut self) -> (plan: RowPlan)
        ensures
            plan.begin == (old(self).remaining() == 0),
            final(self).remaining() == (if old(self).remaining() == 0 {
                BATCH_SIZE - 1
            } else {
                old(self).remaining() - 1
            }),
            plan.commit == (final(self).remaining() == 0),
    {
        proof {
            use_type_invariant(&*self);
        }
        let begin = self.remaining == 0;
        let left: u32 = if begin {
            BATCH_SIZE - 1
        } else {
            self.remaining - 1
        };
        self.remaining = left;
        RowPlan { begin, commit: left == 0 }
    }

    /// Ends the log. Returns whether a transaction is open and has to be
    /// committed.
    pub fn finish(self) -> (commit: bool)
        ensures
            commit == (self.remaining() > 0),
    {
        self.remaining > 0
    }
}

/// What is bound to a parameter of the insert statement.
#[derive(Debug, PartialEq, Eq, Clone, Copy)]
pub enum Bound {
    /// An integer.
    Integer(i64),
    /// A real number, by the bits of its double.
    Real(u64),
}

/// A parameter of the insert statement, counted from 1, and what is bound
/// to it.
#[derive(Debug, PartialEq, Eq, Clone, Copy)]
pub struct Binding {
    pub index: usize,
    pub value: Bound,
}

/// What is bound for a sample value.
pub open spec fn bound_of(v: FeedValue) -> Bound {
    match v {
        FeedValue::Int(n) => Bound::Integer(n as i64),
        FeedValue::Float(bits) => Bound::Real(bits),
    }
}

/// The bindings of one row: the time, in nanoseconds since the epoch, to
/// the first parameter, and the value at `i` to the parameter `i + 2`.
pub open spec fn bindings_of(time_ns: i64, values: Seq<FeedValue>) -> Seq<Binding> {
    Seq::new(
        values.len() + 1,
        |i: int|
            if i == 0 {
                Binding { index: 1, value: Bound::Integer(time_ns) }
            } else {
                Binding { index: (i + 1) as usize, value: bound_of(values[i - 1]) }
            },
    )
}

/// The bindings of one row.
pub fn row_bindings(time_ns: i64, values: &Vec<FeedValue>) -> (bindings: Vec<Binding>)
    requires
        values@.len() + 1 <= usize::MAX,
    ensures
        bindings@ == bindings_of(time_ns, values@),
{
    let mut bindings: Vec<Binding> = Vec::new();
    bindings.push(Binding { index: 1, value: Bound::Integer(time_ns) });
    let mut i: usize = 0;
    while i < values.len()
        invariant
            i <= values@.len(),
            values@.len() + 1 <= usize::MAX,
            bindings@.len() == i + 1,
            forall|k: int| 0 <= k <= i ==> bindings@[k] == bindings_of(time_ns, values@)[k],
        decreases values@.len() - i,
    {
        let value = match values[i] {
            FeedValue::Int(n) => Bound::Integer(n as i64),
            FeedValue::Float(bits) => Bound::Real(bits),
        };
        bindings.push(Binding { index: i + 2, value });
        i += 1;
    }
    bindings
}

} // verus!
