use crate::domain::entity::todo::{Todo, TodoModel};
use vstd::prelude::*;

verus! {

#[derive(Debug, Clone, Copy, PartialEq, Eq, Structural)]
pub enum CreateTodoError {
    AlreadyExists,
    DBInternalError,
}

#[derive(Debug, Clone, Copy, PartialEq, Eq, Structural)]
pub enum FindTodoError {
    NotFound,
    DBInternalError,
}

#[derive(Debug, Clone, Copy, PartialEq, Eq, Structural)]
pub enum FindManyTodoError {
    DBInternalError,
}

#[derive(Debug, Clone, Copy, PartialEq, Eq, Structural)]
pub enum UpdateError {
    NotFound,
    DBInternalError,
}

#[derive(Debug, Clone, Copy, PartialEq, Eq, Structural)]
pub enum DeleteError {
    NotFound,
    DBInternalError,
}

#[derive(Debug, Clone, Copy, PartialEq, Eq, Structural)]
pub enum CountTodoError {
    DBInternalError,
}

/// The most records a repository holds: a count of them is an `i64`.
pub const MAX_RECORDS: u64 = 9_223_372_036_854_775_807;

/// The todos of a list as mathematical values, in the same order.
pub open spec fn models(todos: Seq<Todo>) -> Seq<TodoModel> {
    todos.map_values(|todo: Todo| todo@)
}

/// No two records share an identifier.
pub open spec fn ids_distinct(records: Seq<TodoModel>) -> bool {
    forall|i: int, j: int|
        0 <= i < j < records.len() ==> (#[trigger] records[i]).id != (#[trigger] records[j]).id
}

/// Some record carries the identifier.
pub open spec fn has_id(records: Seq<TodoModel>, id: Seq<char>) -> bool {
    exists|i: int| 0 <= i < records.len() && (#[trigger] records[i]).id == id
}

/// The record at `i` carries the identifier and none before it does.
pub open spec fn is_first_with_id(records: Seq<TodoModel>, id: Seq<char>, i: int) -> bool {
    &&& 0 <= i < records.len()
    &&& records[i].id == id
    &&& forall|j: int| 0 <= j < i ==> (#[trigger] records[j]).id != id
}

/// Where the first record with the identifier stands. Meaningful only where
/// [`has_id`] holds.
pub open spec fn position_of(records: Seq<TodoModel>, id: Seq<char>) -> int {
    choose|i: int| is_first_with_id(records, id, i)
}

/// A status filter lets a record through: no filter lets every record
/// through, a filter only those whose `done` equals it.
pub open spec fn passes(todo: TodoModel, done: Option<bool>) -> bool {
    done matches Some(wanted) ==> todo.done == wanted
}

/// The records that a status filter lets through, in their order.
pub open spec fn filtered(records: Seq<TodoModel>, done: Option<bool>) -> Seq<TodoModel> {
    records.filter(|todo: TodoModel| passes(todo, done))
}

/// The records that are not done, in their order.
pub open spec fn pending(records: Seq<TodoModel>) -> Seq<TodoModel> {
    filtered(records, Some(false))
}

/// The record at `i` comes before the record at `j` on a page: it was created
/// later, or at the same instant and stands earlier in the repository.
pub open spec fn ranks_before(records: Seq<TodoModel>, i: int, j: int) -> bool {
    records[j].created_at.spec_before(records[i].created_at) || (records[i].created_at
        == records[j].created_at && i < j)
}

/// How many records a page of size `take` under a status filter holds: all
/// that pass, but no more than `take` and none where `take` is negative.
pub open spec fn page_len(records: Seq<TodoModel>, done: Option<bool>, take: int) -> nat {
    let passing = filtered(records, done).len();
    if take <= 0 {
        0
    } else if take < passing {
        take as nat
    } else {
        passing
    }
}

/// `order` lists the positions of the records of a page: the first `take`
/// of those that pass the filter, newest first, records created at the same
/// instant in the order in which the repository holds them.
pub open spec fn is_page_order(
    records: Seq<TodoModel>,
    done: Option<bool>,
    take: int,
    order: Seq<int>,
) -> bool {
    &&& order.len() == page_len(records, done, take)
    &&& forall|a: int|
        0 <= a < order.len() ==> 0 <= #[trigger] order[a] < records.len() && passes(
            records[order[a]],
            done,
        )
    &&& forall|a: int, b: int|
        0 <= a < b < order.len() ==> ranks_before(records, #[trigger] order[a], #[trigger] order[b])
    &&& forall|i: int, a: int|
        #![trigger records[i], order[a]]
        0 <= i < records.len() && passes(records[i], done) && !order.contains(i) && 0 <= a
            < order.len() ==> ranks_before(records, order[a], i)
}

/// `page` is the page of size `take` under a status filter.
pub open spec fn is_page(
    records: Seq<TodoModel>,
    done: Option<bool>,
    take: int,
    page: Seq<TodoModel>,
) -> bool {
    exists|order: Seq<int>|
        #![auto]
        is_page_order(records, done, take, order) && page == order.map_values(
            |i: int| records[i],
        )
}

/// The filter that a borrowed flag stands for.
pub open spec fn wanted(done: Option<&bool>) -> Option<bool> {
    match done {
        Some(flag) => Some(*flag),
        None => None,
    }
}

/// What a page of todos is asked with: its size, the identifier after which
/// it starts, and the filters.
#[derive(Debug)]
pub struct FindManyPaginatedArgs<W> {
    pub take: i64,
    pub cursor: Option<String>,
    pub filters: W,
}

#[derive(Debug)]
pub struct FindManyPageInfo {
    pub has_next_page: bool,
    pub has_prev_page: bool,
    pub start_cursor: Option<String>,
    pub end_cursor: Option<String>,
}

#[derive(Debug)]
pub struct FindManyPaginated<T> {
    pub data: Vec<T>,
    pub page_info: FindManyPageInfo,
}

/// The filters on a list of todos: by completion, or none.
#[derive(Debug)]
pub struct FindManyTodoArgs {
    pub done: Option<bool>,
}

impl Default for FindManyTodoArgs {
    fn default() -> (args: FindManyTodoArgs)
        ensures
            args.done is None,
    {
        FindManyTodoArgs { done: None }
    }
}

impl FindManyTodoArgs {
    /// Whether no filter is set.
    pub fn is_empty(&self) -> (empty: bool)
        ensures
            empty == (self.done is None),
    {
        if !self.done.is_none() {
            return false;
        }
        true
    }
}

pub type FindManyTodoPaginatedArgs = FindManyPaginatedArgs<FindManyTodoArgs>;

/// The size of a page where none is asked for.
pub const DEFAULT_TAKE: i64 = 100;

impl FindManyPaginatedArgs<FindManyTodoArgs> {
    /// The arguments with their defaults filled in: a page of
    /// [`DEFAULT_TAKE`] and no filter.
    pub fn new(take: Option<i64>, cursor: Option<String>, filters: Option<FindManyTodoArgs>) -> (args:
        Self)
        ensures
            args.take == (match take {
                Some(size) => size,
                None => DEFAULT_TAKE,
            }),
            args.cursor == cursor,
            args.filters.done == (match filters {
                Some(given) => given.done,
                None => None,
            }),
    {
        let take = match take {
            Some(size) => size,
            None => DEFAULT_TAKE,
        };
        let filters = match filters {
            Some(given) => given,
            None => FindManyTodoArgs::default(),
        };
        FindManyPaginatedArgs { take, cursor, filters }
    }
}

/// A store of todos. `records` is what it holds, in the order in which
/// they were created through it. A store that is `dependable` fails only
/// for the reasons that the contracts below name; any other may also answer
/// `DBInternalError`, and then holds what it held.
pub trait TodoRepository {
    spec fn records(&self) -> Seq<TodoModel>;

    spec fn dependable(&self) -> bool;

    /// Adds the todo behind the records. Refused as `AlreadyExists` where
    /// a record already has its identifier, and as `DBInternalError` where
    /// [`MAX_RECORDS`] are held.
    fn create_todo(&mut self, todo: Todo) -> (created: Result<Todo, CreateTodoError>)
        ensures
            final(self).dependable() == old(self).dependable(),
            ids_distinct(old(self).records()) ==> ids_distinct(final(self).records()),
            match created {
                Ok(stored) => {
                    &&& stored@ == todo@
                    &&& !has_id(old(self).records(), todo@.id)
                    &&& final(self).records() == old(self).records().push(todo@)
                },
                Err(CreateTodoError::AlreadyExists) => {
                    &&& has_id(old(self).records(), todo@.id)
                    &&& final(self).records() == old(self).records()
                },
                Err(CreateTodoError::DBInternalError) => {
                    &&& final(self).records() == old(self).records()
                    &&& !old(self).dependable() || (!has_id(old(self).records(), todo@.id)
                        && old(self).records().len() >= MAX_RECORDS)
                },
            },
            old(self).dependable() && has_id(old(self).records(), todo@.id) ==> created == Err::<
                Todo,
                CreateTodoError,
            >(CreateTodoError::AlreadyExists),
            old(self).dependable() ==> (created is Ok <==> !has_id(old(self).records(), todo@.id)
                && old(self).records().len() < MAX_RECORDS),
    ;

    /// The first record with the identifier.
    fn find_by_id(&self, id: String) -> (found: Result<Todo, FindTodoError>)
        ensures
            match found {
                Ok(todo) => has_id(self.records(), id@) && todo@ == self.records()[position_of(
                    self.records(),
                    id@,
                )],
                Err(FindTodoError::NotFound) => !has_id(self.records(), id@),
                Err(FindTodoError::DBInternalError) => !self.dependable(),
            },
    ;

    /// The page of size `args.take` under the filter `args.filters.done`.
    fn find_many_todos(&self, args: FindManyTodoPaginatedArgs) -> (found: Result<
        Vec<Todo>,
        FindManyTodoError,
    >)
        ensures
            match found {
                Ok(page) => args.cursor is None ==> is_page(
                    self.records(),
                    args.filters.done,
                    args.take as int,
                    models(page@),
                ),
                Err(_) => !self.dependable(),
            },
    ;

    /// Puts the todo in the place of the first record with its identifier.
    fn update(&mut self, todo: Todo) -> (updated: Result<Todo, UpdateError>)
        ensures
            final(self).dependable() == old(self).dependable(),
            ids_distinct(old(self).records()) ==> ids_distinct(final(self).records()),
            match updated {
                Ok(stored) => {
                    &&& stored@ == todo@
                    &&& has_id(old(self).records(), todo@.id)
                    &&& final(self).records() == old(self).records().update(
                        position_of(old(self).records(), todo@.id),
                        todo@,
                    )
                },
                Err(UpdateError::NotFound) => {
                    &&& !has_id(old(self).records(), todo@.id)
                    &&& final(self).records() == old(self).records()
                },
                Err(UpdateError::DBInternalError) => {
                    &&& !old(self).dependable()
                    &&& final(self).records() == old(self).records()
                },
            },
    ;

    /// Removes the first record with the identifier.
    fn delete(&mut self, id: String) -> (deleted: Result<(), DeleteError>)
        ensures
            final(self).dependable() == old(self).dependable(),
            ids_distinct(old(self).records()) ==> ids_distinct(final(self).records()),
            match deleted {
                Ok(_) => {
                    &&& has_id(old(self).records(), id@)
                    &&& final(self).records() == old(self).records().remove(
                        position_of(old(self).records(), id@),
                    )
                },
                Err(DeleteError::NotFound) => {
                    &&& !has_id(old(self).records(), id@)
                    &&& final(self).records() == old(self).records()
                },
                Err(DeleteError::DBInternalError) => {
                    &&& !old(self).dependable()
                    &&& final(self).records() == old(self).records()
                },
            },
    ;

    /// Removes every record that is done.
    fn delete_done_todos(&mut self) -> (deleted: Result<(), DeleteError>)
        ensures
            final(self).dependable() == old(self).dependable(),
            ids_distinct(old(self).records()) ==> ids_distinct(final(self).records()),
            match deleted {
                Ok(_) => final(self).records() == pending(old(self).records()),
                Err(_) => !old(self).dependable() && final(self).records() == old(
                    self,
                ).records(),
            },
    ;

    /// How many records pass the filter.
    fn count(&self, done: Option<&bool>) -> (counted: Result<i64, CountTodoError>)
        ensures
            match counted {
                Ok(n) => n == filtered(self.records(), wanted(done)).len(),
                Err(_) => !self.dependable(),
            },
    ;
}

/// Where some record carries an identifier, [`position_of`] names the first
/// that does.
pub proof fn lemma_position_of_known_id(records: Seq<TodoModel>, id: Seq<char>)
    requires
        has_id(records, id),
    ensures
        is_first_with_id(records, id, position_of(records, id)),
{
    let some = choose|i: int| 0 <= i < records.len() && (#[trigger] records[i]).id == id;
    lemma_first_exists_up_to(records, id, some);
}

/// Where the record at `last` carries an identifier, some record is the
/// first to carry it.
proof fn lemma_first_exists_up_to(records: Seq<TodoModel>, id: Seq<char>, last: int)
    requires
        0 <= last < records.len(),
        records[last].id == id,
    ensures
        exists|i: int| is_first_with_id(records, id, i),
    decreases last,
{
    if exists|j: int| 0 <= j < last && (#[trigger] records[j]).id == id {
        let j = choose|j: int| 0 <= j < last && (#[trigger] records[j]).id == id;
        lemma_first_exists_up_to(records, id, j);
    } else {
        assert(is_first_with_id(records, id, last));
    }
}

/// A record that was created is found again under its identifier, as it
/// was given.
pub proof fn lemma_created_is_found(records: Seq<TodoModel>, todo: TodoModel)
    requires
        !has_id(records, todo.id),
    ensures
        has_id(records.push(todo), todo.id),
        position_of(records.push(todo), todo.id) == records.len(),
        records.push(todo)[position_of(records.push(todo), todo.id)] == todo,
        ids_distinct(records) ==> ids_distinct(records.push(todo)),
{
    let longer = records.push(todo);
    assert(longer[records.len() as int].id == todo.id);
    assert forall|j: int| 0 <= j < records.len() implies (#[trigger] longer[j]).id != todo.id by {
        assert(longer[j] == records[j]);
    }
    assert(is_first_with_id(longer, todo.id, records.len() as int));
    lemma_position_of_known_id(longer, todo.id);
    let chosen = position_of(longer, todo.id);
    if chosen < records.len() {
        assert(longer[chosen].id != todo.id);
    }
    if ids_distinct(records) {
        assert forall|i: int, j: int| 0 <= i < j < longer.len() implies (#[trigger] longer[i]).id
            != (#[trigger] longer[j]).id by {
            assert(longer[i] == records[i]);
            if j < records.len() {
                assert(longer[j] == records[j]);
            }
        }
    }
}

/// A record that was updated is found again under its identifier, as it
/// was given, and every other record is as it was.
pub proof fn lemma_updated_is_found(records: Seq<TodoModel>, todo: TodoModel)
    requires
        has_id(records, todo.id),
    ensures
        has_id(records.update(position_of(records, todo.id), todo), todo.id),
        position_of(records.update(position_of(records, todo.id), todo), todo.id) == position_of(
            records,
            todo.id,
        ),
        records.update(position_of(records, todo.id), todo)[position_of(records, todo.id)]
            == todo,
        ids_distinct(records) ==> ids_distinct(
            records.update(position_of(records, todo.id), todo),
        ),
{
    lemma_position_of_known_id(records, todo.id);
    let at = position_of(records, todo.id);
    let changed = records.update(at, todo);
    assert(changed[at].id == todo.id);
    assert forall|j: int| 0 <= j < at implies (#[trigger] changed[j]).id != todo.id by {
        assert(changed[j] == records[j]);
    }
    assert(is_first_with_id(changed, todo.id, at));
    lemma_position_of_known_id(changed, todo.id);
    let chosen = position_of(changed, todo.id);
    if chosen < at {
        assert(changed[chosen].id != todo.id);
    }
    if ids_distinct(records) {
        assert forall|i: int, j: int| 0 <= i < j < changed.len() implies (#[trigger] changed[i]).id
            != (#[trigger] changed[j]).id by {
            assert(records[i].id != records[j].id);
            assert(records[at].id == todo.id);
        }
    }
}

/// Where no two records share an identifier, a record that was deleted is
/// not found again: a second deletion meets no record with its identifier.
pub proof fn lemma_deleted_is_gone(records: Seq<TodoModel>, id: Seq<char>)
    requires
        ids_distinct(records),
        has_id(records, id),
    ensures
        !has_id(records.remove(position_of(records, id)), id),
        ids_distinct(records.remove(position_of(records, id))),
        records.remove(position_of(records, id)).len() == records.len() - 1,
{
    lemma_position_of_known_id(records, id);
    let at = position_of(records, id);
    let shorter = records.remove(at);
    assert forall|j: int| 0 <= j < shorter.len() implies (#[trigger] shorter[j]).id != id by {
        if j < at {
            assert(shorter[j] == records[j]);
            assert(records[j].id != records[at].id);
        } else {
            assert(shorter[j] == records[j + 1]);
            assert(records[at].id != records[j + 1].id);
        }
    }
    assert forall|i: int, j: int| 0 <= i < j < shorter.len() implies (#[trigger] shorter[i]).id
        != (#[trigger] shorter[j]).id by {
        let from_i = if i < at {
            i
        } else {
            i + 1
        };
        let from_j = if j < at {
            j
        } else {
            j + 1
        };
        assert(shorter[i] == records[from_i] && shorter[j] == records[from_j]);
        assert(records[from_i].id != records[from_j].id);
    }
}

/// A page holds only records that pass its filter: done ones under the
/// filter for done, pending ones under the filter for pending.
pub proof fn lemma_page_passes_filter(
    records: Seq<TodoModel>,
    done: Option<bool>,
    take: int,
    page: Seq<TodoModel>,
)
    requires
        is_page(records, done, take, page),
    ensures
        forall|a: int| 0 <= a < page.len() ==> passes(#[trigger] page[a], done),
        done matches Some(wanted) ==> forall|a: int|
            0 <= a < page.len() ==> (#[trigger] page[a]).done == wanted,
        forall|a: int| 0 <= a < page.len() ==> records.contains(#[trigger] page[a]),
{
    let order = choose|order: Seq<int>|
        #![auto]
        is_page_order(records, done, take, order) && page == order.map_values(
            |i: int| records[i],
        );
    assert forall|a: int| 0 <= a < page.len() implies passes(#[trigger] page[a], done)
        && records.contains(page[a]) by {
        assert(page[a] == records[order[a]]);
    }
}

/// A page is sorted: no record on it was created before one that follows it.
pub proof fn lemma_page_is_newest_first(
    records: Seq<TodoModel>,
    done: Option<bool>,
    take: int,
    page: Seq<TodoModel>,
)
    requires
        is_page(records, done, take, page),
    ensures
        forall|a: int, b: int|
            0 <= a < b < page.len() ==> !(#[trigger] page[a]).created_at.spec_before(
                (#[trigger] page[b]).created_at,
            ),
{
    let order = choose|order: Seq<int>|
        #![auto]
        is_page_order(records, done, take, order) && page == order.map_values(
            |i: int| records[i],
        );
    assert forall|a: int, b: int| 0 <= a < b < page.len() implies !(
    #[trigger] page[a]).created_at.spec_before((#[trigger] page[b]).created_at) by {
        assert(ranks_before(records, order[a], order[b]));
    }
}

/// Every record passes where there is no filter.
pub proof fn lemma_no_filter_keeps_all(records: Seq<TodoModel>)
    ensures
        filtered(records, None) == records,
    decreases records.len(),
{
    reveal(Seq::filter);
    if records.len() > 0 {
        lemma_no_filter_keeps_all(records.drop_last());
        assert(records.drop_last().push(records.last()) =~= records);
    }
}

/// A page that is at least as large as the number of records that pass its
/// filter holds as many records as a count under the same filter gives.
pub proof fn lemma_count_is_page_length(
    records: Seq<TodoModel>,
    done: Option<bool>,
    take: int,
    page: Seq<TodoModel>,
)
    requires
        is_page(records, done, take, page),
        take >= filtered(records, done).len(),
    ensures
        page.len() == filtered(records, done).len(),
{
}

/// Without a filter, a page that is at least as large as the repository
/// holds every record.
pub proof fn lemma_unfiltered_page_holds_all(
    records: Seq<TodoModel>,
    take: int,
    page: Seq<TodoModel>,
)
    requires
        is_page(records, None, take, page),
        take >= records.len(),
    ensures
        page.len() == records.len(),
        forall|i: int| 0 <= i < records.len() ==> page.contains(#[trigger] records[i]),
{
    lemma_no_filter_keeps_all(records);
    let order = choose|order: Seq<int>|
        #![auto]
        is_page_order(records, None, take, order) && page == order.map_values(
            |i: int| records[i],
        );
    let n = records.len() as int;
    assert(order.len() == n);
    assert forall|a: int, b: int| 0 <= a < order.len() && 0 <= b < order.len() && a
        != b implies order[a] != order[b] by {
        if a < b {
            assert(ranks_before(records, order[a], order[b]));
        } else {
            assert(ranks_before(records, order[b], order[a]));
        }
    }
    order.unique_seq_to_set();
    vstd::set_lib::lemma_int_range(0, n);
    let range = vstd::set_lib::set_int_range(0, n);
    assert(order.to_set().subset_of(range)) by {
        assert forall|i: int| order.to_set().contains(i) implies range.contains(i) by {
            let a = choose|a: int| 0 <= a < order.len() && order[a] == i;
            assert(0 <= order[a] < n);
        }
    }
    vstd::set_lib::lemma_set_subset_finite(range, order.to_set());
    vstd::set_lib::lemma_subset_equality(order.to_set(), range);
    assert forall|i: int| 0 <= i < records.len() implies page.contains(#[trigger] records[i]) by {
        assert(range.contains(i));
        assert(order.to_set().contains(i));
        let a = choose|a: int| 0 <= a < order.len() && order[a] == i;
        assert(page[a] == records[i]);
    }
}

/// Of two positions one comes before the other on a page, and never both.
pub proof fn lemma_ranks_before_is_total(records: Seq<TodoModel>, i: int, j: int)
    ensures
        i != j ==> ranks_before(records, i, j) || ranks_before(records, j, i),
        !(ranks_before(records, i, j) && ranks_before(records, j, i)),
        !ranks_before(records, i, i),
{
}

/// The positions of a page are determined: two orders of the same page
/// agree at every place.
pub proof fn lemma_page_order_is_unique(
    records: Seq<TodoModel>,
    done: Option<bool>,
    take: int,
    first: Seq<int>,
    second: Seq<int>,
    at: int,
)
    requires
        is_page_order(records, done, take, first),
        is_page_order(records, done, take, second),
        0 <= at < first.len(),
    ensures
        first[at] == second[at],
    decreases at,
{
    if at > 0 {
        lemma_page_order_is_unique(records, done, take, first, second, at - 1);
    }
    assert forall|b: int| 0 <= b < at implies first[b] == second[b] by {
        lemma_page_order_is_unique(records, done, take, first, second, b);
    }
    lemma_one_sided_agreement(records, done, take, first, second, at);
    lemma_one_sided_agreement(records, done, take, second, first, at);
    lemma_ranks_before_is_total(records, first[at], second[at]);
}

/// Where two orders of a page agree before `at`, the position that the
/// first has at `at` does not come before the one that the second has there.
proof fn lemma_one_sided_agreement(
    records: Seq<TodoModel>,
    done: Option<bool>,
    take: int,
    first: Seq<int>,
    second: Seq<int>,
    at: int,
)
    requires
        is_page_order(records, done, take, first),
        is_page_order(records, done, take, second),
        0 <= at < first.len(),
        forall|b: int| 0 <= b < at ==> first[b] == second[b],
    ensures
        !ranks_before(records, first[at], second[at]),
{
    let i = first[at];
    if ranks_before(records, i, second[at]) {
        assert(passes(records[i], done));
        if second.contains(i) {
            let b = choose|b: int| 0 <= b < second.len() && second[b] == i;
            if b < at {
                assert(ranks_before(records, first[b], first[at]));
            } else if b > at {
                assert(ranks_before(records, second[at], second[b]));
            }
        } else {
            assert(ranks_before(records, second[at], i));
        }
    }
}

/// A page is determined by the records, the filter and the size.
pub proof fn lemma_page_is_unique(
    records: Seq<TodoModel>,
    done: Option<bool>,
    take: int,
    first: Seq<TodoModel>,
    second: Seq<TodoModel>,
)
    requires
        is_page(records, done, take, first),
        is_page(records, done, take, second),
    ensures
        first == second,
{
    let first_order = choose|order: Seq<int>|
        #![auto]
        is_page_order(records, done, take, order) && first == order.map_values(
            |i: int| records[i],
        );
    let second_order = choose|order: Seq<int>|
        #![auto]
        is_page_order(records, done, take, order) && second == order.map_values(
            |i: int| records[i],
        );
    assert forall|a: int| 0 <= a < first.len() implies first[a] == second[a] by {
        lemma_page_order_is_unique(records, done, take, first_order, second_order, a);
    }
    assert(first =~= second);
}

} // verus!
