//! The waitlist store: one entry per email address, written once and never
//! changed.
//!
//! [`Waitlist`] is the table as this library understands it, held in memory.
//! The durable table is kept by a database that is reached from outside this
//! library; [`save_statements`] says what it is asked to do.

use vstd::prelude::*;
use crate::text::text_view;

verus! {

/// How many connections to the database may be open at once. This bounds the
/// number of submissions that are being stored at the same time.
pub const MAX_CONNECTIONS: u32 = 5;

/// Creates the table where it does not exist yet. Safe to repeat.
pub const CREATE_TABLE_SQL: &'static str =
    "CREATE TABLE IF NOT EXISTS waitlist (id SERIAL PRIMARY KEY, email TEXT NOT NULL UNIQUE, country TEXT NOT NULL, state TEXT, created_at TIMESTAMP WITH TIME ZONE DEFAULT CURRENT_TIMESTAMP)";

/// Inserts an entry unless one with the same email exists, in one statement.
pub const INSERT_SQL: &'static str =
    "INSERT INTO waitlist (email, country, state) VALUES ($1, $2, $3) ON CONFLICT (email) DO NOTHING";

/// Why the store could not take an entry.
#[derive(Clone, Copy, Debug, PartialEq, Eq, Structural)]
pub enum StoreError {
    /// The store could not be reached.
    Connectivity,
    /// The store refused the entry.
    Constraint,
}

/// One sign-up.
#[derive(Debug, PartialEq, Eq)]
pub struct WaitlistEntry {
    pub email: String,
    pub country: String,
    pub state: Option<String>,
    /// When the entry was first stored.
    pub created_at: u64,
}

/// An entry as a mathematical value.
pub struct EntryView {
    pub email: Seq<char>,
    pub country: Seq<char>,
    pub state: Option<Seq<char>>,
    pub created_at: u64,
}

impl View for WaitlistEntry {
    type V = EntryView;

    open spec fn view(&self) -> EntryView {
        EntryView {
            email: self.email@,
            country: self.country@,
            state: match self.state {
                Some(s) => Some(s@),
                None => None,
            },
            created_at: self.created_at,
        }
    }
}

/// No two rows share an email.
pub open spec fn distinct_emails(rows: Seq<EntryView>) -> bool {
    forall|i: int, j: int| 0 <= i < j < rows.len() ==> rows[i].email != rows[j].email
}

/// Some row has this email.
pub open spec fn holds(rows: Seq<EntryView>, email: Seq<char>) -> bool {
    exists|i: int| 0 <= i < rows.len() && rows[i].email == email
}

/// How many rows have this email.
pub open spec fn count_of(rows: Seq<EntryView>, email: Seq<char>) -> nat
    decreases rows.len(),
{
    if rows.len() == 0 {
        0
    } else {
        count_of(rows.drop_last(), email) + if rows.last().email == email {
            1nat
        } else {
            0nat
        }
    }
}

/// The table after an insert that gives way to an existing entry: unchanged
/// where the email is taken, one row longer where it is not.
pub open spec fn inserted_if_absent(rows: Seq<EntryView>, entry: EntryView) -> Seq<EntryView> {
    if holds(rows, entry.email) {
        rows
    } else {
        rows.push(entry)
    }
}

/// The entry that a sign-up makes.
pub open spec fn entry_view(
    email: Seq<char>,
    country: Seq<char>,
    state: Option<Seq<char>>,
    created_at: u64,
) -> EntryView {
    EntryView { email, country, state, created_at }
}

/// The waitlist table, oldest entry first.
pub struct Waitlist {
    rows: Vec<WaitlistEntry>,
}

impl View for Waitlist {
    type V = Seq<EntryView>;

    closed spec fn view(&self) -> Seq<EntryView> {
        Seq::new(self.rows@.len(), |i: int| self.rows@[i]@)
    }
}

impl Waitlist {
    /// The table is well formed: no two entries share an email.
    pub open spec fn wf(&self) -> bool {
        distinct_emails(self@)
    }

    /// An empty table.
    pub fn new() -> (table: Waitlist)
        ensures
            table.wf(),
            table@ == Seq::<EntryView>::empty(),
    {
        let table = Waitlist { rows: Vec::new() };
        assert(table@ =~= Seq::<EntryView>::empty());
        table
    }

    /// The number of entries.
    pub fn len(&self) -> (n: usize)
        ensures
            n == self@.len(),
    {
        self.rows.len()
    }

    /// The entry stored for `email`, if there is one.
    pub fn find(&self, email: &str) -> (found: Option<&WaitlistEntry>)
        ensures
            found is Some <==> holds(self@, email@),
            found matches Some(entry) ==> entry@.email == email@ && self@.contains(entry@),
    {
        let wanted = email.to_owned();
        let mut i: usize = 0;
        while i < self.rows.len()
            invariant
                i <= self.rows@.len(),
                wanted@ == email@,
                forall|k: int| 0 <= k < i ==> self@[k].email != email@,
            decreases self.rows@.len() - i,
        {
            if self.rows[i].email == wanted {
                assert(self@[i as int] == self.rows@[i as int]@);
                return Some(&self.rows[i]);
            }
            i += 1;
        }
        None
    }

    /// How many entries are stored for `email`.
    pub fn count(&self, email: &str) -> (n: usize)
        ensures
            n == count_of(self@, email@),
    {
        let wanted = email.to_owned();
        let mut n: usize = 0;
        let mut i: usize = 0;
        while i < self.rows.len()
            invariant
                i <= self.rows@.len(),
                wanted@ == email@,
                n <= i,
                n == count_of(self@.take(i as int), email@),
            decreases self.rows@.len() - i,
        {
            assert(self@.take(i + 1).drop_last() == self@.take(i as int));
            if self.rows[i].email == wanted {
                n += 1;
            }
            i += 1;
        }
        assert(self@.take(i as int) == self@);
        n
    }
}

/// Stores a sign-up unless its email is stored already. An existing entry is
/// left as it is, and the call succeeds either way.
pub fn save_user(
    table: &mut Waitlist,
    email: &str,
    country: &str,
    state: Option<&str>,
    now: u64,
) -> (result: Result<(), StoreError>)
    requires
        old(table).wf(),
    ensures
        result is Ok,
        final(table).wf(),
        final(table)@ == inserted_if_absent(
            old(table)@,
            entry_view(email@, country@, text_view(state), now),
        ),
{
    let wanted = email.to_owned();
    let mut i: usize = 0;
    while i < table.rows.len()
        invariant
            i <= table.rows@.len(),
            wanted@ == email@,
            *table == *old(table),
            table.wf(),
            forall|k: int| 0 <= k < i ==> table@[k].email != email@,
        decreases table.rows@.len() - i,
    {
        if table.rows[i].email == wanted {
            assert(table@[i as int].email == email@);
            return Ok(());
        }
        i += 1;
    }
    let kept_state = match state {
        Some(s) => Some(s.to_owned()),
        None => None,
    };
    table.rows.push(
        WaitlistEntry { email: wanted, country: country.to_owned(), state: kept_state, created_at: now },
    );
    assert(table@ =~= old(table)@.push(entry_view(email@, country@, text_view(state), now)));
    Ok(())
}

/// One statement for the database, with the values bound to its
/// placeholders in order. An absent value binds SQL `NULL`.
#[derive(Debug, PartialEq, Eq)]
pub struct Statement {
    pub sql: String,
    pub params: Vec<Option<String>>,
}

/// A statement as a mathematical value.
pub struct StatementView {
    pub sql: Seq<char>,
    pub params: Seq<Option<Seq<char>>>,
}

impl View for Statement {
    type V = StatementView;

    open spec fn view(&self) -> StatementView {
        StatementView {
            sql: self.sql@,
            params: Seq::new(
                self.params@.len(),
                |i: int|
                    match self.params@[i] {
                        Some(p) => Some(p@),
                        None => None,
                    },
            ),
        }
    }
}

/// The statements as mathematical values, in the same order.
pub open spec fn statement_views(statements: Seq<Statement>) -> Seq<StatementView> {
    Seq::new(statements.len(), |i: int| statements[i]@)
}

/// What the database is asked to do for one sign-up: make sure the table
/// exists, then insert the entry in a single statement that gives way to an
/// existing email.
pub open spec fn save_plan(
    email: Seq<char>,
    country: Seq<char>,
    state: Option<Seq<char>>,
) -> Seq<StatementView> {
    seq![
        StatementView { sql: CREATE_TABLE_SQL@, params: seq![] },
        StatementView { sql: INSERT_SQL@, params: seq![Some(email), Some(country), state] },
    ]
}

/// The statements that store a sign-up in the database, to be run in order
/// and given up at the first that fails. Run against a reachable database,
/// they do to its table what [`save_user`] does to a [`Waitlist`].
pub fn save_statements(email: &str, country: &str, state: Option<&str>) -> (statements: Vec<
    Statement,
>)
    ensures
        statement_views(statements@) == save_plan(email@, country@, text_view(state)),
{
    let create = Statement { sql: CREATE_TABLE_SQL.to_owned(), params: Vec::new() };
    let mut params: Vec<Option<String>> = Vec::new();
    params.push(Some(email.to_owned()));
    params.push(Some(country.to_owned()));
    params.push(
        match state {
            Some(s) => Some(s.to_owned()),
            None => None,
        },
    );
    let insert = Statement { sql: INSERT_SQL.to_owned(), params };
    assert(create@.params =~= seq![]);
    assert(insert@.params =~= seq![Some(email@), Some(country@), text_view(state)]);
    let mut statements: Vec<Statement> = Vec::new();
    statements.push(create);
    statements.push(insert);
    assert(statement_views(statements@) =~= save_plan(email@, country@, text_view(state)));
    statements
}

} // verus!
