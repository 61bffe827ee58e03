//! Statements that write the connection store.
//!
//! Each function here turns a request into the text of one statement and
//! the values bound to its placeholders, in order. Running the statement
//! is left to the caller.

use vstd::prelude::*;
use vstd::string::StringExecFns;
use crate::ambient::{new_uuid, unix_time};
use crate::db::models::{
    CreateGroup, CreatePortForward, CreateSession, CreateSshKey, UpdateGroup, UpdatePortForward,
    UpdateSession, UpdateSshKey,
};

verus! {

/// A value bound to a placeholder.
#[derive(Debug, PartialEq, Eq)]
pub enum Bind {
    Text(String),
    Integer(i64),
    /// A text or the null value.
    OptionalText(Option<String>),
    /// An integer or the null value.
    OptionalInteger(Option<i64>),
}

/// Mathematical value of a [`Bind`].
pub enum BindView {
    Text(Seq<char>),
    Integer(i64),
    OptionalText(Option<Seq<char>>),
    OptionalInteger(Option<i64>),
}

/// The characters of an optional text.
pub open spec fn text_view(text: Option<String>) -> Option<Seq<char>> {
    match text {
        Some(t) => Some(t@),
        None => None,
    }
}

impl View for Bind {
    type V = BindView;

    open spec fn view(&self) -> BindView {
        match *self {
            Bind::Text(t) => BindView::Text(t@),
            Bind::Integer(i) => BindView::Integer(i),
            Bind::OptionalText(t) => BindView::OptionalText(text_view(t)),
            Bind::OptionalInteger(i) => BindView::OptionalInteger(i),
        }
    }
}

/// The values of a list of binds, in order.
pub open spec fn binds_view(binds: Seq<Bind>) -> Seq<BindView> {
    Seq::new(binds.len(), |i: int| binds[i]@)
}

/// The text of a statement and the values bound to its placeholders, in
/// the order of the placeholders.
#[derive(Debug, PartialEq, Eq)]
pub struct Statement {
    pub sql: String,
    pub binds: Vec<Bind>,
}

impl Statement {
    /// Whether the statement has the text `sql` and binds `binds`.
    pub open spec fn holds(&self, sql: Seq<char>, binds: Seq<BindView>) -> bool {
        self.sql@ == sql && binds_view(self.binds@) == binds
    }
}

// ---------------------------------------------------------------------
// The text of an update
// ---------------------------------------------------------------------

/// The numbered placeholder `$index`, for an index from 1 to 9.
pub open spec fn placeholder(index: int) -> Seq<char> {
    if index == 1 {
        "$1"@
    } else if index == 2 {
        "$2"@
    } else if index == 3 {
        "$3"@
    } else if index == 4 {
        "$4"@
    } else if index == 5 {
        "$5"@
    } else if index == 6 {
        "$6"@
    } else if index == 7 {
        "$7"@
    } else if index == 8 {
        "$8"@
    } else {
        "$9"@
    }
}

/// The parts, with `separator` between each two neighbours.
pub open spec fn join(parts: Seq<Seq<char>>, separator: Seq<char>) -> Seq<char>
    decreases parts.len(),
{
    if parts.len() == 0 {
        Seq::empty()
    } else if parts.len() == 1 {
        parts[0]
    } else {
        join(parts.drop_last(), separator) + separator + parts.last()
    }
}

/// The assignment of placeholder `index` to `column`.
pub open spec fn assignment(column: Seq<char>, index: int) -> Seq<char> {
    column + " = "@ + placeholder(index)
}

/// One assignment for each column, with placeholders numbered from
/// `first` on.
pub open spec fn assignments(columns: Seq<Seq<char>>, first: int) -> Seq<Seq<char>> {
    Seq::new(columns.len(), |i: int| assignment(columns[i], first + i))
}

/// The text of an update: `head`, then the assignments separated by a
/// comma and a space, then the condition on the identity, whose
/// placeholder takes the number after the last assignment's.
pub open spec fn update_sql(head: Seq<char>, columns: Seq<Seq<char>>, first: int) -> Seq<char> {
    head + join(assignments(columns, first), ", "@) + " WHERE id = "@ + placeholder(
        first + columns.len(),
    )
}

/// The characters of each name, in order.
pub open spec fn names_view(names: Seq<&'static str>) -> Seq<Seq<char>> {
    Seq::new(names.len(), |i: int| names[i]@)
}

/// The numbered placeholder `$index`.
fn placeholder_text(index: usize) -> (text: &'static str)
    requires
        1 <= index <= 9,
    ensures
        text@ == placeholder(index as int),
{
    if index == 1 {
        "$1"
    } else if index == 2 {
        "$2"
    } else if index == 3 {
        "$3"
    } else if index == 4 {
        "$4"
    } else if index == 5 {
        "$5"
    } else if index == 6 {
        "$6"
    } else if index == 7 {
        "$7"
    } else if index == 8 {
        "$8"
    } else {
        "$9"
    }
}

/// Writes the text of an update.
fn render_update(head: &str, columns: &Vec<&'static str>, first: usize) -> (sql: String)
    requires
        1 <= first,
        first + columns@.len() <= 9,
    ensures
        sql@ == update_sql(head@, names_view(columns@), first as int),
{
    let ghost names = names_view(columns@);
    let ghost parts = assignments(names, first as int);
    let mut sql = String::from_str(head);
    let mut i: usize = 0;
    assert(parts.take(0) =~= Seq::<Seq<char>>::empty());
    assert(sql@ =~= head@ + join(parts.take(0), ", "@));
    while i < columns.len()
        invariant
            i <= columns@.len(),
            1 <= first,
            first + columns@.len() <= 9,
            names == names_view(columns@),
            parts == assignments(names, first as int),
            sql@ == head@ + join(parts.take(i as int), ", "@),
        decreases columns@.len() - i,
    {
        let ghost before = sql@;
        if i > 0 {
            sql.append(", ");
        }
        sql.append(columns[i]);
        sql.append(" = ");
        sql.append(placeholder_text(first + i));
        proof {
            let done = parts.take(i as int);
            let next = parts.take(i + 1);
            assert(next.drop_last() =~= done);
            assert(next.last() == assignment(names[i as int], first + i));
            if i == 0 {
                assert(join(done, ", "@) =~= Seq::<char>::empty());
                assert(join(next, ", "@) == next[0]);
                assert(sql@ =~= head@ + join(next, ", "@));
            } else {
                assert(sql@ =~= head@ + join(next, ", "@));
            }
        }
        i = i + 1;
    }
    assert(parts.take(i as int) =~= parts);
    sql.append(" WHERE id = ");
    sql.append(placeholder_text(first + columns.len()));
    assert(sql@ =~= update_sql(head@, names, first as int));
    sql
}

// ---------------------------------------------------------------------
// The fields of an update
// ---------------------------------------------------------------------

/// The column `name` where the field is present, else nothing.
pub open spec fn column_if(present: bool, name: Seq<char>) -> Seq<Seq<char>> {
    if present {
        seq![name]
    } else {
        seq![]
    }
}

/// The bind of a text field that is present, else nothing.
pub open spec fn text_bind(value: Option<String>) -> Seq<BindView> {
    match value {
        Some(t) => seq![BindView::Text(t@)],
        None => seq![],
    }
}

/// The bind of an integer field that is present, else nothing.
pub open spec fn integer_bind(value: Option<i64>) -> Seq<BindView> {
    match value {
        Some(i) => seq![BindView::Integer(i)],
        None => seq![],
    }
}

/// The bind of a nullable text field that is present, else nothing.
pub open spec fn nullable_bind(value: Option<Option<String>>) -> Seq<BindView> {
    match value {
        Some(t) => seq![BindView::OptionalText(text_view(t))],
        None => seq![],
    }
}

/// Adds the assignment of a text field, where the field is present.
fn assign_text(
    column: &'static str,
    value: Option<String>,
    columns: &mut Vec<&'static str>,
    binds: &mut Vec<Bind>,
)
    ensures
        names_view(final(columns)@) == names_view(old(columns)@) + column_if(
            value is Some,
            column@,
        ),
        binds_view(final(binds)@) == binds_view(old(binds)@) + text_bind(value),
{
    match value {
        Some(text) => {
            columns.push(column);
            binds.push(Bind::Text(text));
        },
        None => {},
    }
    assert(names_view(columns@) =~= names_view(old(columns)@) + column_if(value is Some, column@));
    assert(binds_view(binds@) =~= binds_view(old(binds)@) + text_bind(value));
}

/// Adds the assignment of an integer field, where the field is present.
fn assign_integer(
    column: &'static str,
    value: Option<i64>,
    columns: &mut Vec<&'static str>,
    binds: &mut Vec<Bind>,
)
    ensures
        names_view(final(columns)@) == names_view(old(columns)@) + column_if(
            value is Some,
            column@,
        ),
        binds_view(final(binds)@) == binds_view(old(binds)@) + integer_bind(value),
{
    match value {
        Some(number) => {
            columns.push(column);
            binds.push(Bind::Integer(number));
        },
        None => {},
    }
    assert(names_view(columns@) =~= names_view(old(columns)@) + column_if(value is Some, column@));
    assert(binds_view(binds@) =~= binds_view(old(binds)@) + integer_bind(value));
}

/// Adds the assignment of a nullable text field, where the field is
/// present.
fn assign_nullable(
    column: &'static str,
    value: Option<Option<String>>,
    columns: &mut Vec<&'static str>,
    binds: &mut Vec<Bind>,
)
    ensures
        names_view(final(columns)@) == names_view(old(columns)@) + column_if(
            value is Some,
            column@,
        ),
        binds_view(final(binds)@) == binds_view(old(binds)@) + nullable_bind(value),
{
    match value {
        Some(text) => {
            columns.push(column);
            binds.push(Bind::OptionalText(text));
        },
        None => {},
    }
    assert(names_view(columns@) =~= names_view(old(columns)@) + column_if(value is Some, column@));
    assert(binds_view(binds@) =~= binds_view(old(binds)@) + nullable_bind(value));
}

// ---------------------------------------------------------------------
// Groups
// ---------------------------------------------------------------------

/// Text of the statement that inserts a group.
pub const INSERT_GROUP: &'static str = "INSERT INTO groups (id, name, color) VALUES (?, ?, ?)";

/// Head of the statement that updates a group.
pub const UPDATE_GROUP: &'static str = "UPDATE groups SET ";

/// The statement that inserts a group under the identity `id`.
pub fn create_group_statement(id: &str, input: CreateGroup) -> (statement: Statement)
    ensures
        statement.holds(
            INSERT_GROUP@,
            seq![
                BindView::Text(id@),
                BindView::Text(input.name@),
                BindView::OptionalText(text_view(input.color)),
            ],
        ),
{
    let mut binds: Vec<Bind> = Vec::new();
    binds.push(Bind::Text(String::from_str(id)));
    binds.push(Bind::Text(input.name));
    binds.push(Bind::OptionalText(input.color));
    assert(binds_view(binds@) =~= seq![
        BindView::Text(id@),
        BindView::Text(input.name@),
        BindView::OptionalText(text_view(input.color)),
    ]);
    Statement { sql: String::from_str(INSERT_GROUP), binds }
}

/// The statement that inserts a group under a new random identity,
/// and that identity.
pub fn new_group_statement(input: CreateGroup) -> (created: (String, Statement))
    ensures
        created.1.holds(
            INSERT_GROUP@,
            seq![
                BindView::Text(created.0@),
                BindView::Text(input.name@),
                BindView::OptionalText(text_view(input.color)),
            ],
        ),
{
    let id = new_uuid();
    let statement = create_group_statement(id.as_str(), input);
    (id, statement)
}

/// The columns that an update of a group assigns, in order.
pub open spec fn group_columns(input: UpdateGroup) -> Seq<Seq<char>> {
    column_if(input.name is Some, "name"@) + column_if(input.color is Some, "color"@)
}

/// The values that an update of the group `id` binds, in order: one
/// for each assigned column, then the identity.
pub open spec fn group_binds(input: UpdateGroup, id: Seq<char>) -> Seq<BindView> {
    text_bind(input.name) + text_bind(input.color) + seq![BindView::Text(id)]
}

/// The statement that updates the group `id`, or `None` where the
/// input names no field, so that there is nothing to write.
pub fn update_group_statement(id: &str, input: UpdateGroup) -> (statement: Option<Statement>)
    ensures
        group_columns(input).len() == 0 <==> statement is None,
        statement matches Some(st) ==> st.holds(
            update_sql(UPDATE_GROUP@, group_columns(input), 1),
            group_binds(input, id@),
        ),
{
    let mut columns: Vec<&'static str> = Vec::new();
    let mut binds: Vec<Bind> = Vec::new();
    assert(names_view(columns@) =~= seq![] && binds_view(binds@) =~= seq![]);
    assign_text("name", input.name, &mut columns, &mut binds);
    assign_text("color", input.color, &mut columns, &mut binds);
    assert(names_view(columns@) =~= group_columns(input));
    if columns.len() == 0 {
        return None;
    }
    let ghost assigned = binds_view(binds@);
    binds.push(Bind::Text(String::from_str(id)));
    assert(binds_view(binds@) =~= assigned + seq![BindView::Text(id@)]);
    assert(binds_view(binds@) =~= group_binds(input, id@));
    let sql = render_update(UPDATE_GROUP, &columns, 1);
    Some(Statement { sql, binds })
}

// ---------------------------------------------------------------------
// Keys
// ---------------------------------------------------------------------

/// Text of the statement that inserts a key.
pub const INSERT_SSH_KEY: &'static str =
    "INSERT INTO ssh_keys (id, name, type, public_key, private_key_path, fingerprint, has_passphrase, created_at)\n         VALUES (?, ?, ?, ?, ?, ?, ?, ?)";

/// Text of the statement that renames a key.
pub const UPDATE_SSH_KEY: &'static str = "UPDATE ssh_keys SET name = ? WHERE id = ?";

/// A flag as the store holds it: one for true, zero for false.
pub open spec fn flag(value: bool) -> i64 {
    if value {
        1
    } else {
        0
    }
}

/// The values that the insertion of a key binds, in order.
pub open spec fn insert_ssh_key_binds(id: Seq<char>, input: CreateSshKey, now: i64) -> Seq<
    BindView,
> {
    seq![
        BindView::Text(id),
        BindView::Text(input.name@),
        BindView::Text(input.key_type@),
        BindView::Text(input.public_key@),
        BindView::OptionalText(text_view(input.private_key_path)),
        BindView::Text(input.fingerprint@),
        BindView::Integer(flag(input.has_passphrase)),
        BindView::Integer(now),
    ]
}

/// The statement that inserts a key under the identity `id`, created
/// at the time `now`, in seconds since the epoch.
pub fn create_ssh_key_statement(id: &str, input: CreateSshKey, now: i64) -> (statement: Statement)
    ensures
        statement.holds(
            INSERT_SSH_KEY@,
            insert_ssh_key_binds(id@, input, now),
        ),
{
    let mut binds: Vec<Bind> = Vec::new();
    binds.push(Bind::Text(String::from_str(id)));
    binds.push(Bind::Text(input.name));
    binds.push(Bind::Text(input.key_type));
    binds.push(Bind::Text(input.public_key));
    binds.push(Bind::OptionalText(input.private_key_path));
    binds.push(Bind::Text(input.fingerprint));
    binds.push(Bind::Integer(if input.has_passphrase { 1 } else { 0 }));
    binds.push(Bind::Integer(now));
    assert(binds_view(binds@) =~= insert_ssh_key_binds(id@, input, now));
    Statement { sql: String::from_str(INSERT_SSH_KEY), binds }
}

/// The statement that inserts a key under a new random identity,
/// created now, and that identity.
pub fn new_ssh_key_statement(input: CreateSshKey) -> (created: (String, Statement))
    ensures
        exists|now: i64|
            created.1.holds(
                INSERT_SSH_KEY@,
                #[trigger] insert_ssh_key_binds(created.0@, input, now),
            ),
{
    let id = new_uuid();
    let now = unix_time();
    let statement = create_ssh_key_statement(id.as_str(), input, now);
    let created = (id, statement);
    assert(created.1.holds(INSERT_SSH_KEY@, insert_ssh_key_binds(created.0@, input, now)));
    created
}

/// The statement that renames the key `id`, or `None` where the input
/// gives no name.
pub fn update_ssh_key_statement(id: &str, input: UpdateSshKey) -> (statement: Option<Statement>)
    ensures
        input.name is None <==> statement is None,
        statement matches Some(st) ==> st.holds(
            UPDATE_SSH_KEY@,
            seq![BindView::Text(input.name->Some_0@), BindView::Text(id@)],
        ),
{
    match input.name {
        Some(name) => {
            let mut binds: Vec<Bind> = Vec::new();
            binds.push(Bind::Text(name));
            binds.push(Bind::Text(String::from_str(id)));
            assert(binds_view(binds@) =~= seq![BindView::Text(name@), BindView::Text(id@)]);
            Some(Statement { sql: String::from_str(UPDATE_SSH_KEY), binds })
        },
        None => None,
    }
}

// ---------------------------------------------------------------------
// Sessions
// ---------------------------------------------------------------------

/// Text of the statement that inserts a session.
pub const INSERT_SESSION: &'static str =
    "INSERT INTO sessions (id, name, group_id, host, port, username, auth_method, key_id, created_at, updated_at)\n         VALUES (?, ?, ?, ?, ?, ?, ?, ?, ?, ?)";

/// Head of the statement that updates a session. Its placeholder
/// takes the time of the update, so the assignments count from two.
pub const UPDATE_SESSION: &'static str = "UPDATE sessions SET updated_at = ?";

/// The values that the insertion of a session binds, in order. The
/// time is bound twice: as the time of creation and as that of the last
/// update.
pub open spec fn insert_session_binds(id: Seq<char>, input: CreateSession, now: i64) -> Seq<
    BindView,
> {
    seq![
        BindView::Text(id),
        BindView::Text(input.name@),
        BindView::OptionalText(text_view(input.group_id)),
        BindView::Text(input.host@),
        BindView::Integer(input.port),
        BindView::Text(input.username@),
        BindView::Text(input.auth_method@),
        BindView::OptionalText(text_view(input.key_id)),
        BindView::Integer(now),
        BindView::Integer(now),
    ]
}

/// The statement that inserts a session under the identity `id`,
/// created at the time `now`, in seconds since the epoch.
pub fn create_session_statement(id: &str, input: CreateSession, now: i64) -> (statement: Statement)
    ensures
        statement.holds(
            INSERT_SESSION@,
            insert_session_binds(id@, input, now),
        ),
{
    let mut binds: Vec<Bind> = Vec::new();
    binds.push(Bind::Text(String::from_str(id)));
    binds.push(Bind::Text(input.name));
    binds.push(Bind::OptionalText(input.group_id));
    binds.push(Bind::Text(input.host));
    binds.push(Bind::Integer(input.port));
    binds.push(Bind::Text(input.username));
    binds.push(Bind::Text(input.auth_method));
    binds.push(Bind::OptionalText(input.key_id));
    binds.push(Bind::Integer(now));
    binds.push(Bind::Integer(now));
    assert(binds_view(binds@) =~= insert_session_binds(id@, input, now));
    Statement { sql: String::from_str(INSERT_SESSION), binds }
}

/// The statement that inserts a session under a new random identity,
/// created now, and that identity.
pub fn new_session_statement(input: CreateSession) -> (created: (String, Statement))
    ensures
        exists|now: i64|
            created.1.holds(
                INSERT_SESSION@,
                #[trigger] insert_session_binds(created.0@, input, now),
            ),
{
    let id = new_uuid();
    let now = unix_time();
    let statement = create_session_statement(id.as_str(), input, now);
    let created = (id, statement);
    assert(created.1.holds(INSERT_SESSION@, insert_session_binds(created.0@, input, now)));
    created
}

/// The statement that updates the session `id` now, or `None` where
/// the input names no field.
pub fn touch_session_statement(id: &str, input: UpdateSession) -> (statement: Option<Statement>)
    ensures
        session_columns(input).len() == 0 <==> statement is None,
        statement matches Some(st) ==> exists|now: i64|
            st.holds(
                update_sql(UPDATE_SESSION@, session_columns(input), 2),
                #[trigger] session_binds(input, id@, now),
            ),
{
    let now = unix_time();
    update_session_statement(id, input, now)
}

/// The columns that an update of a session assigns, in order.
pub open spec fn session_columns(input: UpdateSession) -> Seq<Seq<char>> {
    column_if(input.name is Some, "name"@) + column_if(input.group_id is Some, "group_id"@)
        + column_if(input.host is Some, "host"@) + column_if(input.port is Some, "port"@)
        + column_if(input.username is Some, "username"@) + column_if(
        input.auth_method is Some,
        "auth_method"@,
    ) + column_if(input.key_id is Some, "key_id"@)
}

/// The values that an update of the session `id` at the time `now`
/// binds, in order: the time, one for each assigned column, then the
/// identity.
pub open spec fn session_binds(input: UpdateSession, id: Seq<char>, now: i64) -> Seq<BindView> {
    seq![BindView::Integer(now)] + text_bind(input.name) + nullable_bind(input.group_id)
        + text_bind(input.host) + integer_bind(input.port) + text_bind(input.username)
        + text_bind(input.auth_method) + nullable_bind(input.key_id) + seq![BindView::Text(id)]
}

/// The statement that updates the session `id` at the time `now`, in
/// seconds since the epoch, or `None` where the input names no field.
/// The assignments follow the head as they are, joined by a comma and a
/// space.
pub fn update_session_statement(id: &str, input: UpdateSession, now: i64) -> (statement: Option<
    Statement,
>)
    ensures
        session_columns(input).len() == 0 <==> statement is None,
        statement matches Some(st) ==> st.holds(
            update_sql(UPDATE_SESSION@, session_columns(input), 2),
            session_binds(input, id@, now),
        ),
{
    let mut columns: Vec<&'static str> = Vec::new();
    let mut binds: Vec<Bind> = Vec::new();
    binds.push(Bind::Integer(now));
    assert(names_view(columns@) =~= seq![] && binds_view(binds@) =~= seq![BindView::Integer(now)]);
    assign_text("name", input.name, &mut columns, &mut binds);
    assign_nullable("group_id", input.group_id, &mut columns, &mut binds);
    assign_text("host", input.host, &mut columns, &mut binds);
    assign_integer("port", input.port, &mut columns, &mut binds);
    assign_text("username", input.username, &mut columns, &mut binds);
    assign_text("auth_method", input.auth_method, &mut columns, &mut binds);
    assign_nullable("key_id", input.key_id, &mut columns, &mut binds);
    assert(names_view(columns@) =~= session_columns(input));
    if columns.len() == 0 {
        return None;
    }
    let ghost assigned = binds_view(binds@);
    binds.push(Bind::Text(String::from_str(id)));
    assert(binds_view(binds@) =~= assigned + seq![BindView::Text(id@)]);
    assert(binds_view(binds@) =~= session_binds(input, id@, now));
    let sql = render_update(UPDATE_SESSION, &columns, 2);
    Some(Statement { sql, binds })
}

// ---------------------------------------------------------------------
// Port forwards
// ---------------------------------------------------------------------

/// Text of the statement that inserts a port forward.
pub const INSERT_PORT_FORWARD: &'static str =
    "INSERT INTO port_forwards (id, session_id, name, type, local_host, local_port, remote_host, remote_port)\n         VALUES (?, ?, ?, ?, ?, ?, ?, ?)";

/// Head of the statement that updates a port forward.
pub const UPDATE_PORT_FORWARD: &'static str = "UPDATE port_forwards SET ";

/// The statement that inserts a port forward under the identity `id`.
pub fn create_port_forward_statement(id: &str, input: CreatePortForward) -> (statement: Statement)
    ensures
        statement.holds(
            INSERT_PORT_FORWARD@,
            seq![
                BindView::Text(id@),
                BindView::Text(input.session_id@),
                BindView::Text(input.name@),
                BindView::Text(input.forward_type@),
                BindView::Text(input.local_host@),
                BindView::Integer(input.local_port),
                BindView::OptionalText(text_view(input.remote_host)),
                BindView::OptionalInteger(input.remote_port),
            ],
        ),
{
    let mut binds: Vec<Bind> = Vec::new();
    binds.push(Bind::Text(String::from_str(id)));
    binds.push(Bind::Text(input.session_id));
    binds.push(Bind::Text(input.name));
    binds.push(Bind::Text(input.forward_type));
    binds.push(Bind::Text(input.local_host));
    binds.push(Bind::Integer(input.local_port));
    binds.push(Bind::OptionalText(input.remote_host));
    binds.push(Bind::OptionalInteger(input.remote_port));
    assert(binds_view(binds@) =~= seq![
        BindView::Text(id@),
        BindView::Text(input.session_id@),
        BindView::Text(input.name@),
        BindView::Text(input.forward_type@),
        BindView::Text(input.local_host@),
        BindView::Integer(input.local_port),
        BindView::OptionalText(text_view(input.remote_host)),
        BindView::OptionalInteger(input.remote_port),
    ]);
    Statement { sql: String::from_str(INSERT_PORT_FORWARD), binds }
}

/// The statement that inserts a port forward under a new random
/// identity, and that identity.
pub fn new_port_forward_statement(input: CreatePortForward) -> (created: (String, Statement))
    ensures
        created.1.holds(
            INSERT_PORT_FORWARD@,
            seq![
                BindView::Text(created.0@),
                BindView::Text(input.session_id@),
                BindView::Text(input.name@),
                BindView::Text(input.forward_type@),
                BindView::Text(input.local_host@),
                BindView::Integer(input.local_port),
                BindView::OptionalText(text_view(input.remote_host)),
                BindView::OptionalInteger(input.remote_port),
            ],
        ),
{
    let id = new_uuid();
    let statement = create_port_forward_statement(id.as_str(), input);
    (id, statement)
}

/// The columns that an update of a port forward assigns, in order.
pub open spec fn port_forward_columns(input: UpdatePortForward) -> Seq<Seq<char>> {
    column_if(input.name is Some, "name"@) + column_if(input.forward_type is Some, "type"@)
        + column_if(input.local_host is Some, "local_host"@) + column_if(
        input.local_port is Some,
        "local_port"@,
    ) + column_if(input.remote_host is Some, "remote_host"@) + column_if(
        input.remote_port is Some,
        "remote_port"@,
    )
}

/// The values that an update of the port forward `id` binds, in order:
/// one for each assigned column, then the identity.
pub open spec fn port_forward_binds(input: UpdatePortForward, id: Seq<char>) -> Seq<BindView> {
    text_bind(input.name) + text_bind(input.forward_type) + text_bind(input.local_host)
        + integer_bind(input.local_port) + nullable_bind(input.remote_host) + integer_bind(
        input.remote_port,
    ) + seq![BindView::Text(id)]
}

/// The statement that updates the port forward `id`, or `None` where
/// the input names no field.
pub fn update_port_forward_statement(id: &str, input: UpdatePortForward) -> (statement: Option<
    Statement,
>)
    ensures
        port_forward_columns(input).len() == 0 <==> statement is None,
        statement matches Some(st) ==> st.holds(
            update_sql(UPDATE_PORT_FORWARD@, port_forward_columns(input), 1),
            port_forward_binds(input, id@),
        ),
{
    let mut columns: Vec<&'static str> = Vec::new();
    let mut binds: Vec<Bind> = Vec::new();
    assert(names_view(columns@) =~= seq![] && binds_view(binds@) =~= seq![]);
    assign_text("name", input.name, &mut columns, &mut binds);
    assign_text("type", input.forward_type, &mut columns, &mut binds);
    assign_text("local_host", input.local_host, &mut columns, &mut binds);
    assign_integer("local_port", input.local_port, &mut columns, &mut binds);
    assign_nullable("remote_host", input.remote_host, &mut columns, &mut binds);
    assign_integer("remote_port", input.remote_port, &mut columns, &mut binds);
    assert(names_view(columns@) =~= port_forward_columns(input));
    if columns.len() == 0 {
        return None;
    }
    let ghost assigned = binds_view(binds@);
    binds.push(Bind::Text(String::from_str(id)));
    assert(binds_view(binds@) =~= assigned + seq![BindView::Text(id@)]);
    assert(binds_view(binds@) =~= port_forward_binds(input, id@));
    let sql = render_update(UPDATE_PORT_FORWARD, &columns, 1);
    Some(Statement { sql, binds })
}

// ---------------------------------------------------------------------
// Records that are not there
// ---------------------------------------------------------------------

/// The report that no record of the kind `kind` has the identity `id`.
pub open spec fn not_found_text(kind: Seq<char>, id: Seq<char>) -> Seq<char> {
    kind + " "@ + id + " not found"@
}

/// The report that no record of the kind `kind` has the identity `id`.
pub fn not_found(kind: &str, id: &str) -> (text: String)
    ensures
        text@ == not_found_text(kind@, id@),
{
    let mut text = String::from_str(kind);
    text.append(" ");
    text.append(id);
    text.append(" not found");
    text
}

/// Judges a deletion by the number of rows that it removed: a deletion
/// that removed none met no record, and is reported as such.
pub fn check_deleted(kind: &str, id: &str, rows_affected: u64) -> (result: Result<(), String>)
    ensures
        rows_affected > 0 ==> result is Ok,
        rows_affected == 0 ==> (result matches Err(text) && text@ == not_found_text(kind@, id@)),
{
    if rows_affected == 0 {
        Err(not_found(kind, id))
    } else {
        Ok(())
    }
}

} // verus!
