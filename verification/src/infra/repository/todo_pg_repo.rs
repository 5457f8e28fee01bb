use crate::domain::entity::timestamp::Timestamp;
use crate::domain::entity::todo::Todo;
use crate::domain::repository::todo_repository::{
    wanted, CountTodoError, CreateTodoError, DeleteError, FindManyTodoError,
    FindManyTodoPaginatedArgs, FindTodoError, UpdateError,
};
use vstd::prelude::*;

verus! {

/// A value bound to a placeholder of a statement.
#[derive(Debug)]
pub enum SqlValue {
    Text(String),
    Bool(bool),
    BigInt(i64),
    Timestamp(Timestamp),
    OptionalTimestamp(Option<Timestamp>),
}

/// A bound value as a mathematical value.
pub ghost enum SqlValueModel {
    Text(Seq<char>),
    Bool(bool),
    BigInt(int),
    Timestamp(Timestamp),
    OptionalTimestamp(Option<Timestamp>),
}

impl View for SqlValue {
    type V = SqlValueModel;

    open spec fn view(&self) -> SqlValueModel {
        match self {
            SqlValue::Text(text) => SqlValueModel::Text(text@),
            SqlValue::Bool(flag) => SqlValueModel::Bool(*flag),
            SqlValue::BigInt(number) => SqlValueModel::BigInt(*number as int),
            SqlValue::Timestamp(at) => SqlValueModel::Timestamp(*at),
            SqlValue::OptionalTimestamp(at) => SqlValueModel::OptionalTimestamp(*at),
        }
    }
}

/// A statement for the relational backend: its text, with a placeholder
/// `$n` for the `n`-th bound value, and the bound values in that order.
#[derive(Debug)]
pub struct SqlQuery {
    pub sql: String,
    pub binds: Vec<SqlValue>,
}

impl SqlQuery {
    /// The bound values as mathematical values.
    pub open spec fn bind_views(&self) -> Seq<SqlValueModel> {
        self.binds@.map_values(|value: SqlValue| value@)
    }
}

/// The error of the `sqlx` crate. Nothing of what it holds is read.
#[verifier::external_type_specification]
#[verifier::external_body]
pub struct ExSqlxError(sqlx::Error);

/// Stores a new todo and reads it back.
pub const CREATE_TODO_SQL: &'static str =
    "INSERT INTO todos (id, description, done, created_at, updated_at, done_at) VALUES ($1, $2, $3, $4, $5, $6) RETURNING *";

/// Reads the todo with an identifier.
pub const FIND_BY_ID_SQL: &'static str = "SELECT * FROM todos WHERE id = $1";

/// Replaces all of a todo but its identifier and the time of its creation,
/// and reads it back.
pub const UPDATE_SQL: &'static str =
    "UPDATE todos SET description = $1, done = $2, updated_at = $3, done_at = $4 WHERE id = $5 RETURNING *";

/// Deletes the todo with an identifier.
pub const DELETE_SQL: &'static str = "DELETE FROM todos WHERE id = $1";

/// Empties the table of the todos.
pub const TRUNCATE_SQL: &'static str = "TRUNCATE TABLE todos";

/// Deletes every todo that is done.
pub const DELETE_DONE_SQL: &'static str = "DELETE FROM todos WHERE done = true";

/// Counts the todos that are done, or those that are not.
pub const COUNT_FILTERED_SQL: &'static str = "SELECT COUNT(*) FROM todos WHERE done = $1";

/// Counts all todos.
pub const COUNT_ALL_SQL: &'static str = "SELECT COUNT(*) FROM todos";

/// The statement that stores a new todo and reads it back.
pub fn create_todo_query(todo: Todo) -> (query: SqlQuery)
    ensures
        query.sql@ == CREATE_TODO_SQL@,
        query.bind_views() == seq![
            SqlValueModel::Text(todo@.id),
            SqlValueModel::Text(todo@.description),
            SqlValueModel::Bool(todo@.done),
            SqlValueModel::Timestamp(todo@.created_at),
            SqlValueModel::Timestamp(todo@.updated_at),
            SqlValueModel::OptionalTimestamp(todo@.done_at),
        ],
{
    let mut binds: Vec<SqlValue> = Vec::new();
    binds.push(SqlValue::Text(todo.id));
    binds.push(SqlValue::Text(todo.description));
    binds.push(SqlValue::Bool(todo.done));
    binds.push(SqlValue::Timestamp(todo.created_at));
    binds.push(SqlValue::Timestamp(todo.updated_at));
    binds.push(SqlValue::OptionalTimestamp(todo.done_at));
    let query = SqlQuery { sql: String::from_str(CREATE_TODO_SQL), binds };
    assert(query.bind_views() =~= seq![
        SqlValueModel::Text(todo@.id),
        SqlValueModel::Text(todo@.description),
        SqlValueModel::Bool(todo@.done),
        SqlValueModel::Timestamp(todo@.created_at),
        SqlValueModel::Timestamp(todo@.updated_at),
        SqlValueModel::OptionalTimestamp(todo@.done_at),
    ]);
    query
}

/// The statement that reads the todo with an identifier.
pub fn find_by_id_query(id: String) -> (query: SqlQuery)
    ensures
        query.sql@ == FIND_BY_ID_SQL@,
        query.bind_views() == seq![SqlValueModel::Text(id@)],
{
    let mut binds: Vec<SqlValue> = Vec::new();
    binds.push(SqlValue::Text(id));
    let query = SqlQuery { sql: String::from_str(FIND_BY_ID_SQL), binds };
    assert(query.bind_views() =~= seq![SqlValueModel::Text(id@)]);
    query
}

/// The statement that replaces all of a todo but its identifier and the
/// time of its creation, and reads it back.
pub fn update_query(todo: Todo) -> (query: SqlQuery)
    ensures
        query.sql@ == UPDATE_SQL@,
        query.bind_views() == seq![
            SqlValueModel::Text(todo@.description),
            SqlValueModel::Bool(todo@.done),
            SqlValueModel::Timestamp(todo@.updated_at),
            SqlValueModel::OptionalTimestamp(todo@.done_at),
            SqlValueModel::Text(todo@.id),
        ],
{
    let mut binds: Vec<SqlValue> = Vec::new();
    binds.push(SqlValue::Text(todo.description));
    binds.push(SqlValue::Bool(todo.done));
    binds.push(SqlValue::Timestamp(todo.updated_at));
    binds.push(SqlValue::OptionalTimestamp(todo.done_at));
    binds.push(SqlValue::Text(todo.id));
    let query = SqlQuery { sql: String::from_str(UPDATE_SQL), binds };
    assert(query.bind_views() =~= seq![
        SqlValueModel::Text(todo@.description),
        SqlValueModel::Bool(todo@.done),
        SqlValueModel::Timestamp(todo@.updated_at),
        SqlValueModel::OptionalTimestamp(todo@.done_at),
        SqlValueModel::Text(todo@.id),
    ]);
    query
}

/// The statement that deletes the todo with an identifier.
pub fn delete_query(id: String) -> (query: SqlQuery)
    ensures
        query.sql@ == DELETE_SQL@,
        query.bind_views() == seq![SqlValueModel::Text(id@)],
{
    let mut binds: Vec<SqlValue> = Vec::new();
    binds.push(SqlValue::Text(id));
    let query = SqlQuery { sql: String::from_str(DELETE_SQL), binds };
    assert(query.bind_views() =~= seq![SqlValueModel::Text(id@)]);
    query
}

/// The statement that deletes every todo that is done.
pub fn delete_done_query() -> (query: SqlQuery)
    ensures
        query.sql@ == DELETE_DONE_SQL@,
        query.bind_views() == Seq::<SqlValueModel>::empty(),
{
    let query = SqlQuery { sql: String::from_str(DELETE_DONE_SQL), binds: Vec::new() };
    assert(query.bind_views() =~= Seq::<SqlValueModel>::empty());
    query
}

/// The statement that counts the todos under a filter, or all of them.
pub fn count_query(done: Option<&bool>) -> (query: SqlQuery)
    ensures
        match wanted(done) {
            Some(flag) => query.sql@ == COUNT_FILTERED_SQL@ && query.bind_views() == seq![
                SqlValueModel::Bool(flag),
            ],
            None => query.sql@ == COUNT_ALL_SQL@ && query.bind_views()
                == Seq::<SqlValueModel>::empty(),
        },
{
    let mut binds: Vec<SqlValue> = Vec::new();
    match done {
        Some(flag) => {
            binds.push(SqlValue::Bool(*flag));
            let query = SqlQuery { sql: String::from_str(COUNT_FILTERED_SQL), binds };
            assert(query.bind_views() =~= seq![SqlValueModel::Bool(*flag)]);
            query
        },
        None => {
            let query = SqlQuery { sql: String::from_str(COUNT_ALL_SQL), binds };
            assert(query.bind_views() =~= Seq::<SqlValueModel>::empty());
            query
        },
    }
}

/// What the backend answers after it stored a todo: the row it read back,
/// or `DBInternalError` for any failure, a broken rule of the table too.
pub fn create_todo_outcome(fetched: Result<Todo, sqlx::Error>) -> (created: Result<
    Todo,
    CreateTodoError,
>)
    ensures
        match fetched {
            Ok(todo) => created == Ok::<Todo, CreateTodoError>(todo),
            Err(_) => created == Err::<Todo, CreateTodoError>(CreateTodoError::DBInternalError),
        },
{
    match fetched {
        Ok(todo) => Ok(todo),
        Err(_) => Err(CreateTodoError::DBInternalError),
    }
}

/// What the backend answers after it looked a todo up: the row,
/// `NotFound` where there is none, `DBInternalError` for any failure.
pub fn find_by_id_outcome(fetched: Result<Option<Todo>, sqlx::Error>) -> (found: Result<
    Todo,
    FindTodoError,
>)
    ensures
        match fetched {
            Ok(Some(todo)) => found == Ok::<Todo, FindTodoError>(todo),
            Ok(None) => found == Err::<Todo, FindTodoError>(FindTodoError::NotFound),
            Err(_) => found == Err::<Todo, FindTodoError>(FindTodoError::DBInternalError),
        },
{
    match fetched {
        Ok(Some(todo)) => Ok(todo),
        Ok(None) => Err(FindTodoError::NotFound),
        Err(_) => Err(FindTodoError::DBInternalError),
    }
}

/// What the backend answers after it read a page: the rows, or
/// `DBInternalError` for any failure.
pub fn find_many_todos_outcome(fetched: Result<Vec<Todo>, sqlx::Error>) -> (found: Result<
    Vec<Todo>,
    FindManyTodoError,
>)
    ensures
        match fetched {
            Ok(todos) => found == Ok::<Vec<Todo>, FindManyTodoError>(todos),
            Err(_) => found == Err::<Vec<Todo>, FindManyTodoError>(
                FindManyTodoError::DBInternalError,
            ),
        },
{
    match fetched {
        Ok(todos) => Ok(todos),
        Err(_) => Err(FindManyTodoError::DBInternalError),
    }
}

/// What the backend answers after it replaced a todo: the row it read
/// back, `NotFound` where no row had the identifier, `DBInternalError` for
/// any failure.
pub fn update_outcome(fetched: Result<Option<Todo>, sqlx::Error>) -> (updated: Result<
    Todo,
    UpdateError,
>)
    ensures
        match fetched {
            Ok(Some(todo)) => updated == Ok::<Todo, UpdateError>(todo),
            Ok(None) => updated == Err::<Todo, UpdateError>(UpdateError::NotFound),
            Err(_) => updated == Err::<Todo, UpdateError>(UpdateError::DBInternalError),
        },
{
    match fetched {
        Ok(Some(todo)) => Ok(todo),
        Ok(None) => Err(UpdateError::NotFound),
        Err(_) => Err(UpdateError::DBInternalError),
    }
}

/// What the backend answers after it ran the deletion of one todo, given
/// how many rows the statement deleted: success where it deleted any,
/// `NotFound` where it deleted none, `DBInternalError` for any failure.
pub fn delete_outcome(executed: Result<u64, sqlx::Error>) -> (deleted: Result<(), DeleteError>)
    ensures
        match executed {
            Ok(rows) => if rows > 0 {
                deleted == Ok::<(), DeleteError>(())
            } else {
                deleted == Err::<(), DeleteError>(DeleteError::NotFound)
            },
            Err(_) => deleted == Err::<(), DeleteError>(DeleteError::DBInternalError),
        },
{
    match executed {
        Ok(rows) => if rows > 0 {
            Ok(())
        } else {
            Err(DeleteError::NotFound)
        },
        Err(_) => Err(DeleteError::DBInternalError),
    }
}

/// What the backend answers after it ran the deletion of the done todos,
/// given how many rows the statement deleted: success, however many there
/// were, or `DBInternalError` for any failure.
pub fn delete_done_outcome(executed: Result<u64, sqlx::Error>) -> (deleted: Result<
    (),
    DeleteError,
>)
    ensures
        match executed {
            Ok(_) => deleted == Ok::<(), DeleteError>(()),
            Err(_) => deleted == Err::<(), DeleteError>(DeleteError::DBInternalError),
        },
{
    match executed {
        Ok(_) => Ok(()),
        Err(_) => Err(DeleteError::DBInternalError),
    }
}

/// What the backend answers after it counted: the count, or
/// `DBInternalError` for any failure.
pub fn count_outcome(fetched: Result<i64, sqlx::Error>) -> (counted: Result<i64, CountTodoError>)
    ensures
        match fetched {
            Ok(count) => counted == Ok::<i64, CountTodoError>(count),
            Err(_) => counted == Err::<i64, CountTodoError>(CountTodoError::DBInternalError),
        },
{
    match fetched {
        Ok(count) => Ok(count),
        Err(_) => Err(CountTodoError::DBInternalError),
    }
}

/// The text of the statement that reads a page of todos: the newest
/// first, after the cursor where there is one, under the filter where there
/// is one, and no more than the page holds.
pub open spec fn find_many_sql(has_cursor: bool, has_filter: bool) -> Seq<char> {
    if has_cursor && has_filter {
        "SELECT * FROM todos WHERE id > $1 AND done = $2 ORDER BY created_at DESC LIMIT $3;"@
    } else if has_cursor {
        "SELECT * FROM todos WHERE id > $1 ORDER BY created_at DESC LIMIT $2;"@
    } else if has_filter {
        "SELECT * FROM todos WHERE done = $1 ORDER BY created_at DESC LIMIT $2;"@
    } else {
        "SELECT * FROM todos ORDER BY created_at DESC LIMIT $1;"@
    }
}

/// The values bound to the statement that reads a page of todos: the
/// cursor, the filter, the size of the page.
pub open spec fn find_many_binds(cursor: Option<Seq<char>>, done: Option<bool>, take: int) -> Seq<
    SqlValueModel,
> {
    let after = match cursor {
        Some(id) => seq![SqlValueModel::Text(id)],
        None => Seq::empty(),
    };
    let under = match done {
        Some(flag) => seq![SqlValueModel::Bool(flag)],
        None => Seq::empty(),
    };
    after + under + seq![SqlValueModel::BigInt(take)]
}

/// The placeholder of the next value to bind.
fn push_placeholder(query: &mut SqlQuery)
    requires
        old(query).binds@.len() < 3,
    ensures
        final(query).binds == old(query).binds,
        final(query).sql@ == old(query).sql@ + (if old(query).binds@.len() == 0 {
            "$1"@
        } else if old(query).binds@.len() == 1 {
            "$2"@
        } else {
            "$3"@
        }),
{
    let used = query.binds.len();
    if used == 0 {
        query.sql.append("$1");
    } else if used == 1 {
        query.sql.append("$2");
    } else {
        query.sql.append("$3");
    }
}

/// The statement that reads a page of todos.
pub fn find_many_todos_query(args: FindManyTodoPaginatedArgs) -> (query: SqlQuery)
    ensures
        query.sql@ == find_many_sql(args.cursor is Some, args.filters.done is Some),
        query.bind_views() == find_many_binds(
            match args.cursor {
                Some(id) => Some(id@),
                None => None,
            },
            args.filters.done,
            args.take as int,
        ),
{
    let mut query = SqlQuery { sql: String::from_str("SELECT * FROM todos"), binds: Vec::new() };
    let mut have_where_clause = false;
    if !args.filters.is_empty() || args.cursor.is_some() {
        query.sql.append(" WHERE");
    }
    if let Some(cursor) = args.cursor {
        query.sql.append(" id > ");
        push_placeholder(&mut query);
        query.binds.push(SqlValue::Text(cursor));
        have_where_clause = true;
    }
    if let Some(done) = args.filters.done {
        if have_where_clause {
            query.sql.append(" AND");
        }
        query.sql.append(" done = ");
        push_placeholder(&mut query);
        query.binds.push(SqlValue::Bool(done));
    }
    query.sql.append(" ORDER BY created_at DESC");
    query.sql.append(" LIMIT ");
    push_placeholder(&mut query);
    query.binds.push(SqlValue::BigInt(args.take));
    query.sql.append(";");
    proof {
        reveal_strlit("SELECT * FROM todos");
        reveal_strlit(" WHERE");
        reveal_strlit(" id > ");
        reveal_strlit(" AND");
        reveal_strlit(" done = ");
        reveal_strlit(" ORDER BY created_at DESC");
        reveal_strlit(" LIMIT ");
        reveal_strlit(";");
        reveal_strlit("$1");
        reveal_strlit("$2");
        reveal_strlit("$3");
        reveal_strlit(
            "SELECT * FROM todos WHERE id > $1 AND done = $2 ORDER BY created_at DESC LIMIT $3;",
        );
        reveal_strlit("SELECT * FROM todos WHERE id > $1 ORDER BY created_at DESC LIMIT $2;");
        reveal_strlit("SELECT * FROM todos WHERE done = $1 ORDER BY created_at DESC LIMIT $2;");
        reveal_strlit("SELECT * FROM todos ORDER BY created_at DESC LIMIT $1;");
        assert(query.sql@ =~= find_many_sql(args.cursor is Some, args.filters.done is Some));
        assert(query.bind_views() =~= find_many_binds(
            match args.cursor {
                Some(id) => Some(id@),
                None => None,
            },
            args.filters.done,
            args.take as int,
        ));
    }
    query
}

} // verus!
