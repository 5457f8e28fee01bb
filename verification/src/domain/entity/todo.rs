use crate::domain::entity::timestamp::{Timestamp, NANOS_PER_SEC};
use vstd::prelude::*;

verus! {

/// The text that `chrono` writes for the instant `secs`, `nanos` under the
/// pattern `%Y-%m-%d %H:%M:%S`, in UTC; the empty text for an instant that
/// its calendar does not hold.
pub uninterp spec fn formatted_timestamp(secs: int, nanos: int) -> Seq<char>;

pub open spec fn is_lower_hex(c: char) -> bool {
    ('0' <= c && c <= '9') || ('a' <= c && c <= 'f')
}

/// The hyphenated lower-case form of a random (version 4) UUID:
/// `xxxxxxxx-xxxx-4xxx-yxxx-xxxxxxxxxxxx` with `y` one of `8`, `9`, `a`, `b`.
pub open spec fn is_hyphenated_uuid_v4(s: Seq<char>) -> bool {
    &&& s.len() == 36
    &&& forall|i: int|
        0 <= i < 36 ==> if i == 8 || i == 13 || i == 18 || i == 23 {
            #[trigger] s[i] == '-'
        } else {
            is_lower_hex(s[i])
        }
    &&& s[14] == '4'
    &&& (s[19] == '8' || s[19] == '9' || s[19] == 'a' || s[19] == 'b')
}

/// Draws a random identifier with `uuid::Uuid::new_v4` and writes it through
/// its `Display` impl. Claimed of every outcome: the text has the hyphenated
/// version 4 shape.
#[verifier::external_body]
pub(crate) fn random_uuid_string() -> (id: String)
    ensures
        is_hyphenated_uuid_v4(id@),
{
    uuid::Uuid::new_v4().to_string()
}

/// Reads the clock with `chrono::Utc::now`. Claimed of every outcome: the
/// instant is one the calendar represents, not before 1970, and not inside a
/// leap second.
#[verifier::external_body]
pub(crate) fn current_timestamp() -> (now: Timestamp)
    ensures
        now.is_valid(),
        now.secs >= 0,
        now.nanos < NANOS_PER_SEC,
{
    let now = chrono::Utc::now();
    Timestamp { secs: now.timestamp(), nanos: now.timestamp_subsec_nanos() }
}

/// Makes the instant with `chrono::DateTime::from_timestamp` and writes it
/// with `chrono::DateTime::format` under the pattern `%Y-%m-%d %H:%M:%S`;
/// where `from_timestamp` makes none, the text is empty. Claimed: the text
/// depends on the instant alone.
#[verifier::external_body]
pub(crate) fn format_timestamp(at: Timestamp) -> (text: String)
    ensures
        text@ == formatted_timestamp(at.secs as int, at.nanos as int),
{
    match chrono::DateTime::from_timestamp(at.secs, at.nanos) {
        Some(moment) => moment.format("%Y-%m-%d %H:%M:%S").to_string(),
        None => String::new(),
    }
}

/// A todo as a mathematical value.
pub ghost struct TodoModel {
    pub id: Seq<char>,
    pub description: Seq<char>,
    pub done: bool,
    pub created_at: Timestamp,
    pub updated_at: Timestamp,
    pub done_at: Option<Timestamp>,
}

impl TodoModel {
    /// A todo as it is right after creation at `now`.
    pub open spec fn fresh(id: Seq<char>, description: Seq<char>, now: Timestamp) -> TodoModel {
        TodoModel { id, description, done: false, created_at: now, updated_at: now, done_at: None }
    }

    /// The todo after it was marked done or not done at `now`.
    pub open spec fn marked(self, done: bool, now: Timestamp) -> TodoModel {
        TodoModel {
            done,
            updated_at: now,
            done_at: if done {
                Some(now)
            } else {
                None
            },
            ..self
        }
    }

    /// Every instant the todo holds is one the calendar represents.
    pub open spec fn has_valid_times(self) -> bool {
        &&& self.created_at.is_valid()
        &&& self.updated_at.is_valid()
        &&& self.done_at matches Some(at) ==> at.is_valid()
    }

    /// The invariant of a todo: it carries a completion time exactly while it
    /// is done, and it was never updated before it was created.
    pub open spec fn wf(self) -> bool {
        &&& self.has_valid_times()
        &&& self.done_at is Some <==> self.done
        &&& self.created_at.spec_not_after(self.updated_at)
    }
}

#[derive(Debug)]
pub struct Todo {
    pub id: String,
    pub description: String,
    pub done: bool,
    pub created_at: Timestamp,
    pub updated_at: Timestamp,
    pub done_at: Option<Timestamp>,
}

impl View for Todo {
    type V = TodoModel;

    open spec fn view(&self) -> TodoModel {
        TodoModel {
            id: self.id@,
            description: self.description@,
            done: self.done,
            created_at: self.created_at,
            updated_at: self.updated_at,
            done_at: self.done_at,
        }
    }
}

impl Clone for Todo {
    fn clone(&self) -> (copy: Todo)
        ensures
            copy == *self,
    {
        Todo {
            id: self.id.clone(),
            description: self.description.clone(),
            done: self.done,
            created_at: self.created_at,
            updated_at: self.updated_at,
            done_at: self.done_at,
        }
    }
}

impl Default for Todo {
    fn default() -> (todo: Todo)
        ensures
            todo@ == TodoModel::fresh(Seq::empty(), Seq::empty(), Timestamp { secs: 0, nanos: 0 }),
    {
        let epoch = Timestamp { secs: 0, nanos: 0 };
        Todo {
            id: String::new(),
            description: String::new(),
            done: false,
            created_at: epoch,
            updated_at: epoch,
            done_at: None,
        }
    }
}

impl Todo {
    /// A new todo with a random identifier, created now and not done.
    pub fn new(description: String) -> (todo: Todo)
        ensures
            todo@ == TodoModel::fresh(todo.id@, description@, todo.created_at),
            is_hyphenated_uuid_v4(todo.id@),
            todo.created_at.secs >= 0,
            todo.created_at.nanos < NANOS_PER_SEC,
            todo@.wf(),
    {
        let id = random_uuid_string();
        let now = current_timestamp();
        Todo::from_parts(id, description, now)
    }

    /// The todo with the given identifier, created at `now` and not done.
    pub fn from_parts(id: String, description: String, now: Timestamp) -> (todo: Todo)
        ensures
            todo@ == TodoModel::fresh(id@, description@, now),
            now.is_valid() ==> todo@.wf(),
    {
        Todo { id, description, done: false, created_at: now, updated_at: now, done_at: None }
    }

    /// The `n`-th todo of a demonstration list: every third one is done, as
    /// of `now`; all were created, and last updated, at `created`.
    pub fn seeded(n: u32, id: String, description: String, created: Timestamp, now: Timestamp) -> (todo:
        Todo)
        ensures
            todo@ == (TodoModel {
                id: id@,
                description: description@,
                done: n % 3 == 0,
                created_at: created,
                updated_at: created,
                done_at: if n % 3 == 0 {
                    Some(now)
                } else {
                    None
                },
            }),
            created.is_valid() && now.is_valid() ==> todo@.wf(),
    {
        let done = n % 3 == 0;
        Todo {
            id,
            description,
            done,
            created_at: created,
            updated_at: created,
            done_at: if done {
                Some(now)
            } else {
                None
            },
        }
    }

    /// Marks the todo done or not done as of the current reading of the
    /// clock: the completion time is that reading or absent, and the time of
    /// the last update is that reading.
    pub fn mark_as_done(&mut self, done: bool) -> (marked: &mut Todo)
        ensures
            marked@ == old(self)@.marked(done, marked.updated_at),
            marked.updated_at.is_valid(),
            marked.updated_at.secs >= 0,
            marked.updated_at.nanos < NANOS_PER_SEC,
            *final(self) == *final(marked),
    {
        let now = current_timestamp();
        self.mark_as_done_at(done, now);
        self
    }

    /// Marks the todo done or not done as of `now`.
    pub fn mark_as_done_at(&mut self, done: bool, now: Timestamp)
        ensures
            final(self)@ == old(self)@.marked(done, now),
            old(self)@.wf() && now.is_valid() && old(self).created_at.spec_not_after(now)
                ==> final(self)@.wf(),
    {
        self.done = done;
        self.done_at = if done {
            Some(now)
        } else {
            None
        };
        self.updated_at = now;
    }
}

/// A todo has no completion time right after its creation. Marking it done
/// at an instant not before its creation gives it that instant as completion
/// time; marking it not done afterwards takes the completion time away.
/// Whatever the instant, a marked todo has a completion time exactly where
/// it was marked done.
pub proof fn lemma_completion_time_follows_marks(
    id: Seq<char>,
    description: Seq<char>,
    created: Timestamp,
    marked_at: Timestamp,
    unmarked_at: Timestamp,
)
    requires
        created.spec_not_after(marked_at),
    ensures
        TodoModel::fresh(id, description, created).done_at is None,
        TodoModel::fresh(id, description, created).marked(true, marked_at).done_at == Some(
            marked_at,
        ),
        TodoModel::fresh(id, description, created).marked(true, marked_at).created_at.spec_not_after(
            marked_at,
        ),
        TodoModel::fresh(id, description, created).marked(true, marked_at).marked(
            false,
            unmarked_at,
        ).done_at is None,
        forall|todo: TodoModel, done: bool, now: Timestamp|
            (#[trigger] todo.marked(done, now)).done_at is Some <==> done,
{
}

/// What was done to a todo.
#[derive(Debug, Clone, Copy, PartialEq, Eq, Structural)]
pub enum TodoOperation {
    Create,
    Read,
    Update,
    MarkAsDone,
    MarkAsUndone,
    Delete,
}

impl TodoOperation {
    /// The name of the operation, as its variant is written.
    pub open spec fn label(self) -> Seq<char> {
        match self {
            TodoOperation::Create => "Create"@,
            TodoOperation::Read => "Read"@,
            TodoOperation::Update => "Update"@,
            TodoOperation::MarkAsDone => "MarkAsDone"@,
            TodoOperation::MarkAsUndone => "MarkAsUndone"@,
            TodoOperation::Delete => "Delete"@,
        }
    }

    pub fn to_string(&self) -> (name: String)
        ensures
            name@ == self.label(),
    {
        match self {
            TodoOperation::Create => String::from_str("Create"),
            TodoOperation::Read => String::from_str("Read"),
            TodoOperation::Update => String::from_str("Update"),
            TodoOperation::MarkAsDone => String::from_str("MarkAsDone"),
            TodoOperation::MarkAsUndone => String::from_str("MarkAsUndone"),
            TodoOperation::Delete => String::from_str("Delete"),
        }
    }
}

/// What the reader of a view may do with the todo it shows.
#[derive(Debug, Clone, Copy, PartialEq, Eq, Structural)]
pub enum TodoCan {
    Read,
    Write,
}

impl TodoCan {
    /// The name of the permission, as its variant is written.
    pub open spec fn label(self) -> Seq<char> {
        match self {
            TodoCan::Read => "Read"@,
            TodoCan::Write => "Write"@,
        }
    }

    /// The name of the permission in capitals, as a view carries it.
    pub open spec fn upper_label(self) -> Seq<char> {
        match self {
            TodoCan::Read => "READ"@,
            TodoCan::Write => "WRITE"@,
        }
    }

    pub fn to_string(&self) -> (name: String)
        ensures
            name@ == self.label(),
    {
        match self {
            TodoCan::Read => String::from_str("Read"),
            TodoCan::Write => String::from_str("Write"),
        }
    }

    pub fn to_upper_string(&self) -> (name: String)
        ensures
            name@ == self.upper_label(),
    {
        match self {
            TodoCan::Read => String::from_str("READ"),
            TodoCan::Write => String::from_str("WRITE"),
        }
    }
}

/// A todo view as a mathematical value.
pub ghost struct TodoViewModel {
    pub id: Seq<char>,
    pub description: Seq<char>,
    pub done: bool,
    pub created_at: Seq<char>,
    pub updated_at: Seq<char>,
    pub done_at: Seq<char>,
    pub kind: Seq<char>,
    pub can: Seq<char>,
}

impl TodoViewModel {
    /// The view of `todo` after the operation `kind`, for a reader with the
    /// permission `can`: the instants are written out, an absent completion
    /// time is the empty text.
    pub open spec fn of(todo: TodoModel, kind: TodoOperation, can: TodoCan) -> TodoViewModel {
        TodoViewModel {
            id: todo.id,
            description: todo.description,
            done: todo.done,
            created_at: formatted_timestamp(
                todo.created_at.secs as int,
                todo.created_at.nanos as int,
            ),
            updated_at: formatted_timestamp(
                todo.updated_at.secs as int,
                todo.updated_at.nanos as int,
            ),
            done_at: match todo.done_at {
                Some(at) => formatted_timestamp(at.secs as int, at.nanos as int),
                None => Seq::empty(),
            },
            kind: kind.label(),
            can: can.upper_label(),
        }
    }

    /// The same view for a reader with the permission `can`.
    pub open spec fn with_can(self, can: TodoCan) -> TodoViewModel {
        TodoViewModel { can: can.upper_label(), ..self }
    }
}

/// A todo as a page shows it: every field but `done` is text.
#[derive(Debug)]
pub struct TodoView {
    pub id: String,
    pub description: String,
    pub done: bool,
    pub created_at: String,
    pub updated_at: String,
    pub done_at: String,
    pub kind: String,
    pub can: String,
}

impl View for TodoView {
    type V = TodoViewModel;

    open spec fn view(&self) -> TodoViewModel {
        TodoViewModel {
            id: self.id@,
            description: self.description@,
            done: self.done,
            created_at: self.created_at@,
            updated_at: self.updated_at@,
            done_at: self.done_at@,
            kind: self.kind@,
            can: self.can@,
        }
    }
}

impl Clone for TodoView {
    fn clone(&self) -> (copy: TodoView)
        ensures
            copy == *self,
    {
        TodoView {
            id: self.id.clone(),
            description: self.description.clone(),
            done: self.done,
            created_at: self.created_at.clone(),
            updated_at: self.updated_at.clone(),
            done_at: self.done_at.clone(),
            kind: self.kind.clone(),
            can: self.can.clone(),
        }
    }
}

impl TodoView {
    pub fn new(todo: Todo, kind: TodoOperation, can: TodoCan) -> (view: TodoView)
        ensures
            view@ == TodoViewModel::of(todo@, kind, can),
    {
        let created_at = format_timestamp(todo.created_at);
        let updated_at = format_timestamp(todo.updated_at);
        let done_at = match todo.done_at {
            Some(at) => format_timestamp(at),
            None => String::new(),
        };
        TodoView {
            id: todo.id,
            description: todo.description,
            done: todo.done,
            created_at,
            updated_at,
            done_at,
            kind: kind.to_string(),
            can: can.to_upper_string(),
        }
    }
}

} // verus!
