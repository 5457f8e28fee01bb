use crate::domain::entity::timestamp::{Timestamp, NANOS_PER_SEC, SECS_PER_DAY};
use crate::domain::entity::todo::{
    current_timestamp, is_hyphenated_uuid_v4, random_uuid_string, Todo, TodoModel,
};
use crate::domain::repository::todo_repository::{
    filtered, has_id, ids_distinct, is_first_with_id, is_page, is_page_order, models, page_len,
    passes, pending, position_of, ranks_before, wanted, CountTodoError, CreateTodoError,
    DeleteError, FindManyTodoError, FindManyTodoPaginatedArgs, FindTodoError, TodoRepository,
    UpdateError, MAX_RECORDS,
};
use crate::infra::chance::{random_below, random_english_word};
use vstd::prelude::*;

verus! {

/// How many todos a demonstration list is made of.
pub const SEED_COUNT: u32 = 500;

/// The most days that the calendar reaches back from 1970.
pub const MAX_DAYS_BACK: i64 = 96_465_292;

/// The whole days from the first calendar date to the second, as `chrono`
/// counts them, or nothing where one of the two is no date of its calendar.
pub uninterp spec fn calendar_days_between(
    from_year: int,
    from_month: int,
    from_day: int,
    to_year: int,
    to_month: int,
    to_day: int,
) -> Option<int>;

/// Makes both dates with `chrono::NaiveDate::from_ymd_opt`, subtracts the
/// first from the second and reads `num_days` of the difference. Claimed:
/// the answer depends on the six numbers alone.
#[verifier::external_body]
fn days_between(from: (i32, u32, u32), to: (i32, u32, u32)) -> (days: Option<i64>)
    ensures
        match days {
            Some(n) => calendar_days_between(
                from.0 as int,
                from.1 as int,
                from.2 as int,
                to.0 as int,
                to.1 as int,
                to.2 as int,
            ) == Some(n as int),
            None => calendar_days_between(
                from.0 as int,
                from.1 as int,
                from.2 as int,
                to.0 as int,
                to.1 as int,
                to.2 as int,
            ) is None,
        },
{
    let start = chrono::NaiveDate::from_ymd_opt(from.0, from.1, from.2)?;
    let end = chrono::NaiveDate::from_ymd_opt(to.0, to.1, to.2)?;
    Some((end - start).num_days())
}

/// The first day of the span of days over which a demonstration list is
/// spread, as year, month and day.
pub const SEED_SPAN_START: (i32, u32, u32) = (2023, 1, 1);

/// The day after the last of that span.
pub const SEED_SPAN_END: (i32, u32, u32) = (2024, 1, 1);

/// How many days a todo may lie back that is spread over the days from
/// `start` to `end`: fewer than the days between the two, and none where
/// they span no day or more than the calendar reaches back.
pub open spec fn days_back_limit(start: (i32, u32, u32), end: (i32, u32, u32)) -> int {
    match calendar_days_between(
        start.0 as int,
        start.1 as int,
        start.2 as int,
        end.0 as int,
        end.1 as int,
        end.2 as int,
    ) {
        Some(days) => if 0 < days <= MAX_DAYS_BACK {
            days
        } else {
            1
        },
        None => 1,
    }
}

/// An instant a random number of whole days before `now`, fewer than the
/// days from `start` to `end`. Where the two dates span no day, or more
/// than the calendar reaches back, the instant is `now` itself.
fn random_date_in_range(now: Timestamp, start: (i32, u32, u32), end: (i32, u32, u32)) -> (date:
    Timestamp)
    requires
        now.is_valid(),
        now.secs >= 0,
        now.nanos < NANOS_PER_SEC,
    ensures
        date.is_valid(),
        date.spec_not_after(now),
        date.nanos == now.nanos,
        0 <= now.secs - date.secs < days_back_limit(start, end) * SECS_PER_DAY,
        (now.secs - date.secs) % (SECS_PER_DAY as int) == 0,
{
    let days_in_range = match days_between(start, end) {
        Some(days) => days,
        None => 0,
    };
    let random_days: i64 = if 0 < days_in_range && days_in_range <= MAX_DAYS_BACK {
        random_below(days_in_range)
    } else {
        0
    };
    let date = now.days_earlier(random_days);
    assert((random_days * SECS_PER_DAY) % (SECS_PER_DAY as int) == 0) by (nonlinear_arith)
        requires
            SECS_PER_DAY > 0,
    ;
    date
}

/// A todo as a demonstration list makes it when the clock reads `now`: it
/// was created a whole number of days before that reading, fewer than the
/// span of the list has, was not updated since, and is done as of that
/// reading or not done.
pub open spec fn is_made_at(record: TodoModel, now: Timestamp) -> bool {
    &&& now.is_valid()
    &&& now.secs >= 0
    &&& now.nanos < NANOS_PER_SEC
    &&& is_hyphenated_uuid_v4(record.id)
    &&& record.updated_at == record.created_at
    &&& record.created_at.nanos == now.nanos
    &&& 0 <= now.secs - record.created_at.secs < days_back_limit(SEED_SPAN_START, SEED_SPAN_END)
        * SECS_PER_DAY
    &&& (now.secs - record.created_at.secs) % (SECS_PER_DAY as int) == 0
    &&& record.done_at == if record.done {
        Some(now)
    } else {
        None::<Timestamp>
    }
}

/// A todo of a demonstration list: a well-formed todo that was made at
/// some reading of the clock.
pub open spec fn is_seeded(record: TodoModel) -> bool {
    &&& record.wf()
    &&& exists|now: Timestamp| #[trigger] is_made_at(record, now)
}

/// The todos that a store keeps of those handed to it one after the other:
/// each but those whose identifier an earlier one already had.
pub open spec fn first_of_each_id(todos: Seq<TodoModel>) -> Seq<TodoModel>
    decreases todos.len(),
{
    if todos.len() == 0 {
        Seq::empty()
    } else {
        let kept = first_of_each_id(todos.drop_last());
        if has_id(kept, todos.last().id) {
            kept
        } else {
            kept.push(todos.last())
        }
    }
}

/// The todos as they are made for a demonstration list, before any is left
/// out: [`SEED_COUNT`] of them, each as [`is_seeded`] says, every third of
/// them done.
pub open spec fn is_seed_run(made: Seq<TodoModel>) -> bool {
    &&& made.len() == SEED_COUNT
    &&& forall|i: int|
        0 <= i < made.len() ==> is_seeded(#[trigger] made[i]) && made[i].done == ((i + 1) % 3
            == 0)
}

/// Of todos handed to a store one after the other the first is always
/// kept, and no more are kept than were handed over.
pub proof fn lemma_first_of_each_id_keeps_the_first(todos: Seq<TodoModel>)
    requires
        todos.len() > 0,
    ensures
        1 <= first_of_each_id(todos).len() <= todos.len(),
        first_of_each_id(todos)[0] == todos[0],
    decreases todos.len(),
{
    if todos.len() == 1 {
        assert(todos.drop_last().len() == 0);
        assert(first_of_each_id(todos.drop_last()) =~= Seq::<TodoModel>::empty());
        assert(!has_id(first_of_each_id(todos.drop_last()), todos.last().id));
    } else {
        lemma_first_of_each_id_keeps_the_first(todos.drop_last());
    }
}

/// Where no two of the todos handed to a store share an identifier, the
/// store keeps them all: a demonstration list then holds [`SEED_COUNT`]
/// todos.
pub proof fn lemma_first_of_each_id_of_distinct(todos: Seq<TodoModel>)
    requires
        ids_distinct(todos),
    ensures
        first_of_each_id(todos) == todos,
    decreases todos.len(),
{
    if todos.len() == 0 {
        assert(first_of_each_id(todos) =~= todos);
    } else {
        let earlier = todos.drop_last();
        assert forall|i: int, j: int| 0 <= i < j < earlier.len() implies (#[trigger] earlier[i]).id
            != (#[trigger] earlier[j]).id by {
            assert(todos[i].id != todos[j].id);
        }
        lemma_first_of_each_id_of_distinct(earlier);
        assert(!has_id(earlier, todos.last().id)) by {
            assert forall|i: int| 0 <= i < earlier.len() implies (#[trigger] earlier[i]).id
                != todos.last().id by {
                assert(todos[i].id != todos[todos.len() - 1].id);
            }
        }
        assert(earlier.push(todos.last()) =~= todos);
    }
}

/// Of the first `k` todos of a run in which every third is done, a third
/// are done, rounded down, and the others are pending.
pub proof fn lemma_every_third_is_done(made: Seq<TodoModel>, k: int)
    requires
        0 <= k <= made.len(),
        forall|i: int| 0 <= i < made.len() ==> (#[trigger] made[i]).done == ((i + 1) % 3 == 0),
    ensures
        filtered(made.take(k), Some(true)).len() == k / 3,
        filtered(made.take(k), Some(false)).len() == k - k / 3,
    decreases k,
{
    if k == 0 {
        lemma_filtered_start(made, Some(true));
        lemma_filtered_start(made, Some(false));
    } else {
        lemma_every_third_is_done(made, k - 1);
        lemma_filtered_step(made, Some(true), k - 1);
        lemma_filtered_step(made, Some(false), k - 1);
        assert(made[k - 1].done == (k % 3 == 0));
    }
}

/// Of the todos made for a demonstration list 166 are done and 334 are
/// pending.
pub proof fn lemma_seed_run_counts(made: Seq<TodoModel>)
    requires
        is_seed_run(made),
    ensures
        filtered(made, Some(true)).len() == 166,
        filtered(made, Some(false)).len() == 334,
{
    lemma_every_third_is_done(made, made.len() as int);
    lemma_filtered_start(made, Some(true));
}

/// A repository that keeps its todos in a list, in the order in which they
/// were created. No two of them share an identifier.
pub struct TodoInMemoryRepository {
    todos: Vec<Todo>,
}

/// The record at `i` is the first with the identifier, so it is the one
/// that [`position_of`] names.
pub proof fn lemma_first_is_position(records: Seq<TodoModel>, id: Seq<char>, i: int)
    requires
        is_first_with_id(records, id, i),
    ensures
        has_id(records, id),
        position_of(records, id) == i,
{
    let chosen = position_of(records, id);
    assert(is_first_with_id(records, id, chosen));
    if chosen < i {
        assert(records[chosen].id != id);
    }
    if i < chosen {
        assert(records[i].id != id);
    }
}

/// Where the first todo with the identifier stands, if there is one.
fn position(todos: &Vec<Todo>, id: &String) -> (at: Option<usize>)
    ensures
        match at {
            Some(i) => is_first_with_id(models(todos@), id@, i as int),
            None => !has_id(models(todos@), id@),
        },
{
    let mut i: usize = 0;
    while i < todos.len()
        invariant
            i <= todos.len(),
            forall|j: int| 0 <= j < i ==> (#[trigger] models(todos@)[j]).id != id@,
        decreases todos.len() - i,
    {
        if todos[i].id == *id {
            return Some(i);
        }
        i += 1;
    }
    None
}

/// Looking at one more record lengthens the filtered records by that
/// record where it passes, and leaves them as they are where it does not.
pub proof fn lemma_filtered_step(records: Seq<TodoModel>, done: Option<bool>, i: int)
    requires
        0 <= i < records.len(),
    ensures
        filtered(records.take(i + 1), done) == if passes(records[i], done) {
            filtered(records.take(i), done).push(records[i])
        } else {
            filtered(records.take(i), done)
        },
{
    reveal(Seq::filter);
    assert(records.take(i + 1).drop_last() =~= records.take(i));
}

/// No record passes a filter before the first is looked at.
pub proof fn lemma_filtered_start(records: Seq<TodoModel>, done: Option<bool>)
    ensures
        filtered(records.take(0), done) == Seq::<TodoModel>::empty(),
        records.take(records.len() as int) == records,
{
    reveal(Seq::filter);
    assert(records.take(records.len() as int) =~= records);
}

/// How many todos pass the filter.
fn count_passing(todos: &Vec<Todo>, done: Option<bool>) -> (n: usize)
    ensures
        n == filtered(models(todos@), done).len(),
{
    let ghost records = models(todos@);
    let mut n: usize = 0;
    let mut i: usize = 0;
    proof {
        lemma_filtered_start(records, done);
    }
    while i < todos.len()
        invariant
            i <= todos.len(),
            records == models(todos@),
            n <= i,
            n == filtered(records.take(i as int), done).len(),
        decreases todos.len() - i,
    {
        proof {
            lemma_filtered_step(records, done, i as int);
        }
        let lets_through = match done {
            Some(flag) => todos[i].done == flag,
            None => true,
        };
        if lets_through {
            n += 1;
        }
        i += 1;
    }
    proof {
        lemma_filtered_start(records, done);
    }
    n
}

/// The todos that are not done, in their order.
fn keep_pending(todos: Vec<Todo>) -> (kept: Vec<Todo>)
    ensures
        models(kept@) == pending(models(todos@)),
        kept@.len() <= todos@.len(),
        ids_distinct(models(todos@)) ==> ids_distinct(models(kept@)),
{
    let ghost records = models(todos@);
    let mut kept: Vec<Todo> = Vec::new();
    let ghost mut source: Seq<int> = Seq::empty();
    let mut i: usize = 0;
    proof {
        lemma_filtered_start(records, Some(false));
        assert(models(kept@) =~= Seq::<TodoModel>::empty());
    }
    while i < todos.len()
        invariant
            i <= todos.len(),
            records == models(todos@),
            models(kept@) == filtered(records.take(i as int), Some(false)),
            source.len() == kept@.len(),
            kept@.len() <= i,
            forall|k: int| 0 <= k < source.len() ==> 0 <= #[trigger] source[k] < i,
            forall|k: int| 0 <= k < source.len() ==> models(kept@)[k] == records[#[trigger] source[k]],
            forall|k: int, l: int|
                0 <= k < l < source.len() ==> #[trigger] source[k] < #[trigger] source[l],
        decreases todos.len() - i,
    {
        proof {
            lemma_filtered_step(records, Some(false), i as int);
        }
        if !todos[i].done {
            let ghost before = models(kept@);
            kept.push(todos[i].clone());
            proof {
                assert(models(kept@) =~= before.push(records[i as int]));
                source = source.push(i as int);
            }
        }
        i += 1;
    }
    proof {
        lemma_filtered_start(records, Some(false));
        if ids_distinct(records) {
            assert forall|k: int, l: int| 0 <= k < l < models(kept@).len() implies (
            #[trigger] models(kept@)[k]).id != (#[trigger] models(kept@)[l]).id by {
                assert(source[k] < source[l]);
                assert(records[source[k]].id != records[source[l]].id);
            }
        }
    }
    kept
}

/// Positions as mathematical integers.
pub open spec fn positions(order: Seq<usize>) -> Seq<int> {
    order.map_values(|at: usize| at as int)
}

/// `order` ranks every record before position `n` that passes the filter:
/// each stands in it once, newest first.
pub open spec fn is_ranking(
    records: Seq<TodoModel>,
    done: Option<bool>,
    n: int,
    order: Seq<usize>,
) -> bool {
    &&& order.len() == filtered(records.take(n), done).len()
    &&& forall|a: int|
        0 <= a < order.len() ==> 0 <= #[trigger] order[a] < n && passes(
            records[order[a] as int],
            done,
        )
    &&& forall|a: int, b: int|
        0 <= a < b < order.len() ==> ranks_before(
            records,
            #[trigger] order[a] as int,
            #[trigger] order[b] as int,
        )
    &&& forall|i: int|
        0 <= i < n && passes(#[trigger] records[i], done) ==> exists|a: int|
            0 <= a < order.len() && #[trigger] order[a] == i
}

/// Putting position `i` at place `at` of a ranking of the records before
/// `i` gives a ranking of the records up to `i`, where every position from
/// `at` on was created before `i` and none before `at` was.
proof fn lemma_ranking_insert(
    records: Seq<TodoModel>,
    done: Option<bool>,
    i: int,
    order: Seq<usize>,
    at: int,
)
    requires
        0 <= i < records.len(),
        i <= usize::MAX,
        passes(records[i], done),
        is_ranking(records, done, i, order),
        0 <= at <= order.len(),
        forall|a: int|
            at <= a < order.len() ==> records[#[trigger] order[a] as int].created_at.spec_before(
                records[i].created_at,
            ),
        at > 0 ==> !records[order[at - 1] as int].created_at.spec_before(records[i].created_at),
    ensures
        is_ranking(records, done, i + 1, order.insert(at, i as usize)),
{
    let longer = order.insert(at, i as usize);
    lemma_filtered_step(records, done, i);
    assert forall|a: int, b: int| 0 <= a < b < longer.len() implies ranks_before(
        records,
        #[trigger] longer[a] as int,
        #[trigger] longer[b] as int,
    ) by {
        if b < at {
            assert(longer[a] == order[a] && longer[b] == order[b]);
        } else if b == at {
            assert(longer[a] == order[a]);
            if a < at - 1 {
                assert(ranks_before(records, order[a] as int, order[at - 1] as int));
            }
        } else if a < at {
            assert(longer[a] == order[a] && longer[b] == order[b - 1]);
        } else if a == at {
            assert(longer[b] == order[b - 1]);
        } else {
            assert(longer[a] == order[a - 1] && longer[b] == order[b - 1]);
        }
    }
    assert forall|a: int| 0 <= a < longer.len() implies 0 <= #[trigger] longer[a] < i + 1
        && passes(records[longer[a] as int], done) by {
        if a < at {
            assert(longer[a] == order[a]);
        } else if a > at {
            assert(longer[a] == order[a - 1]);
        }
    }
    assert forall|k: int| 0 <= k < i + 1 && passes(#[trigger] records[k], done) implies exists|
        a: int,
    |
        0 <= a < longer.len() && #[trigger] longer[a] == k by {
        if k == i {
            assert(longer[at] == k);
        } else {
            let a = choose|a: int| 0 <= a < order.len() && #[trigger] order[a] == k;
            if a < at {
                assert(longer[a] == k);
            } else {
                assert(longer[a + 1] == k);
            }
        }
    }
}

/// The first `k` places of a ranking of all records are the order of the
/// page of that size.
proof fn lemma_ranking_prefix_is_page(
    records: Seq<TodoModel>,
    done: Option<bool>,
    take: int,
    order: Seq<usize>,
)
    requires
        is_ranking(records, done, records.len() as int, order),
    ensures
        page_len(records, done, take) <= order.len(),
        is_page_order(
            records,
            done,
            take,
            positions(order.take(page_len(records, done, take) as int)),
        ),
{
    lemma_filtered_start(records, done);
    let k = page_len(records, done, take) as int;
    let page = positions(order.take(k));
    assert forall|a: int| 0 <= a < page.len() implies page[a] == order[a] as int by {}
    assert forall|i: int, a: int|
        #![trigger records[i], page[a]]
        0 <= i < records.len() && passes(records[i], done) && !page.contains(i) && 0 <= a
            < page.len() implies ranks_before(records, page[a], i) by {
        let b = choose|b: int| 0 <= b < order.len() && #[trigger] order[b] == i;
        if b < k {
            assert(page[b] == i);
        }
        assert(ranks_before(records, order[a] as int, order[b] as int));
    }
}

/// The positions of the todos of the page of size `take` under a filter.
fn page_positions(todos: &Vec<Todo>, done: Option<bool>, take: i64) -> (order: Vec<usize>)
    ensures
        is_page_order(models(todos@), done, take as int, positions(order@)),
{
    let ghost records = models(todos@);
    let mut order: Vec<usize> = Vec::new();
    let mut i: usize = 0;
    proof {
        lemma_filtered_start(records, done);
    }
    while i < todos.len()
        invariant
            i <= todos.len(),
            records == models(todos@),
            is_ranking(records, done, i as int, order@),
        decreases todos.len() - i,
    {
        let lets_through = match done {
            Some(flag) => todos[i].done == flag,
            None => true,
        };
        if lets_through {
            let mut at: usize = order.len();
            while at > 0 && todos[order[at - 1]].created_at.before(&todos[i].created_at)
                invariant
                    at <= order.len(),
                    i < todos.len(),
                    records == models(todos@),
                    forall|a: int| 0 <= a < order.len() ==> 0 <= #[trigger] order[a] < i,
                    forall|a: int|
                        at <= a < order.len() ==> records[#[trigger] order[a] as int].created_at.spec_before(
                        records[i as int].created_at),
                decreases at,
            {
                at -= 1;
            }
            proof {
                lemma_ranking_insert(records, done, i as int, order@, at as int);
            }
            order.insert(at, i);
        } else {
            proof {
                lemma_filtered_step(records, done, i as int);
            }
        }
        i += 1;
    }
    proof {
        lemma_ranking_prefix_is_page(records, done, take as int, order@);
        lemma_filtered_start(records, done);
    }
    let all = order.len();
    let size: usize = if take <= 0 {
        0
    } else if (take as u64) < (all as u64) {
        take as usize
    } else {
        all
    };
    let ghost ranking = order@;
    order.truncate(size);
    assert(order@ =~= ranking.take(size as int));
    order
}

impl TodoInMemoryRepository {
    #[verifier::type_invariant]
    spec fn inv(self) -> bool {
        &&& ids_distinct(models(self.todos@))
        &&& self.todos@.len() <= MAX_RECORDS
    }

    /// A repository that holds nothing.
    pub fn empty() -> (repo: TodoInMemoryRepository)
        ensures
            repo.records() == Seq::<TodoModel>::empty(),
            repo.dependable(),
    {
        let repo = TodoInMemoryRepository { todos: Vec::new() };
        assert(models(repo.todos@) =~= Seq::<TodoModel>::empty());
        repo
    }

    /// A demonstration list: [`SEED_COUNT`] todos are made with random
    /// identifiers and English words, created on random days of the year
    /// before now, every third of them done, and stored in that order. One
    /// whose identifier an earlier one already has is left out.
    pub fn new() -> (repo: TodoInMemoryRepository)
        ensures
            repo.dependable(),
            ids_distinct(repo.records()),
            exists|made: Seq<TodoModel>|
                is_seed_run(made) && repo.records() == #[trigger] first_of_each_id(made),
            1 <= repo.records().len() <= SEED_COUNT,
            forall|i: int| 0 <= i < repo.records().len() ==> is_seeded(#[trigger] repo.records()[i]),
    {
        let mut repo = TodoInMemoryRepository::empty();
        let ghost mut made: Seq<TodoModel> = Seq::empty();
        let mut n: u32 = 1;
        while n <= SEED_COUNT
            invariant
                1 <= n <= SEED_COUNT + 1,
                repo.dependable(),
                ids_distinct(repo.records()),
                made.len() == n - 1,
                repo.records() == first_of_each_id(made),
                repo.records().len() <= n - 1,
                forall|i: int|
                    0 <= i < made.len() ==> is_seeded(#[trigger] made[i]) && made[i].done == ((i
                        + 1) % 3 == 0),
                forall|i: int|
                    0 <= i < repo.records().len() ==> is_seeded(#[trigger] repo.records()[i]),
            decreases SEED_COUNT + 1 - n,
        {
            let now = current_timestamp();
            let created = random_date_in_range(now, SEED_SPAN_START, SEED_SPAN_END);
            let todo = Todo::seeded(n, random_uuid_string(), random_english_word(), created, now);
            proof {
                assert(is_made_at(todo@, now));
                assert(made.push(todo@).drop_last() =~= made);
                made = made.push(todo@);
            }
            let _ = repo.create_todo(todo);
            n += 1;
        }
        proof {
            lemma_first_of_each_id_keeps_the_first(made);
            assert(is_seed_run(made));
        }
        repo
    }

    /// Takes the list out and leaves an empty one.
    fn take_todos(&mut self) -> (todos: Vec<Todo>)
        ensures
            todos == old(self).todos,
            final(self).todos@.len() == 0,
    {
        let mut todos: Vec<Todo> = Vec::new();
        core::mem::swap(&mut self.todos, &mut todos);
        todos
    }
}

impl Default for TodoInMemoryRepository {
    fn default() -> (repo: TodoInMemoryRepository)
        ensures
            repo.dependable(),
            ids_distinct(repo.records()),
            exists|made: Seq<TodoModel>|
                is_seed_run(made) && repo.records() == #[trigger] first_of_each_id(made),
            1 <= repo.records().len() <= SEED_COUNT,
            forall|i: int| 0 <= i < repo.records().len() ==> is_seeded(#[trigger] repo.records()[i]),
    {
        TodoInMemoryRepository::new()
    }
}

impl TodoRepository for TodoInMemoryRepository {
    closed spec fn records(&self) -> Seq<TodoModel> {
        models(self.todos@)
    }

    open spec fn dependable(&self) -> bool {
        true
    }

    fn create_todo(&mut self, todo: Todo) -> (created: Result<Todo, CreateTodoError>)
        ensures
            ids_distinct(final(self).records()),
    {
        proof {
            use_type_invariant(&*self);
        }
        if let Some(i) = position(&self.todos, &todo.id) {
            proof {
                lemma_first_is_position(models(self.todos@), todo@.id, i as int);
            }
            return Err(CreateTodoError::AlreadyExists);
        }
        if self.todos.len() as u64 >= MAX_RECORDS {
            return Err(CreateTodoError::DBInternalError);
        }
        let mut todos = self.take_todos();
        todos.push(todo.clone());
        assert(models(todos@) =~= models(old(self).todos@).push(todo@));
        self.todos = todos;
        Ok(todo)
    }

    fn find_by_id(&self, id: String) -> (found: Result<Todo, FindTodoError>)
        ensures
            ids_distinct(self.records()),
    {
        proof {
            use_type_invariant(self);
        }
        match position(&self.todos, &id) {
            Some(i) => {
                proof {
                    lemma_first_is_position(models(self.todos@), id@, i as int);
                }
                Ok(self.todos[i].clone())
            },
            None => Err(FindTodoError::NotFound),
        }
    }

    fn find_many_todos(&self, args: FindManyTodoPaginatedArgs) -> (found: Result<
        Vec<Todo>,
        FindManyTodoError,
    >)
        ensures
            found matches Ok(page) && is_page(
                self.records(),
                args.filters.done,
                args.take as int,
                models(page@),
            ),
            ids_distinct(self.records()),
    {
        proof {
            use_type_invariant(self);
        }
        let order = page_positions(&self.todos, args.filters.done, args.take);
        let ghost records = models(self.todos@);
        let mut page: Vec<Todo> = Vec::new();
        let mut a: usize = 0;
        while a < order.len()
            invariant
                a <= order.len(),
                records == models(self.todos@),
                is_page_order(records, args.filters.done, args.take as int, positions(order@)),
                page@.len() == a,
                forall|b: int| 0 <= b < a ==> (#[trigger] page@[b])@ == records[order@[b] as int],
            decreases order.len() - a,
        {
            assert(0 <= positions(order@)[a as int] < records.len());
            page.push(self.todos[order[a]].clone());
            a += 1;
        }
        proof {
            assert(models(page@) =~= positions(order@).map_values(|i: int| records[i]));
        }
        Ok(page)
    }

    fn update(&mut self, todo: Todo) -> (updated: Result<Todo, UpdateError>)
        ensures
            ids_distinct(final(self).records()),
    {
        proof {
            use_type_invariant(&*self);
        }
        match position(&self.todos, &todo.id) {
            Some(i) => {
                proof {
                    lemma_first_is_position(models(self.todos@), todo@.id, i as int);
                }
                let mut todos = self.take_todos();
                todos.set(i, todo.clone());
                assert(models(todos@) =~= models(old(self).todos@).update(i as int, todo@));
                self.todos = todos;
                Ok(todo)
            },
            None => Err(UpdateError::NotFound),
        }
    }

    fn delete(&mut self, id: String) -> (deleted: Result<(), DeleteError>)
        ensures
            ids_distinct(final(self).records()),
    {
        proof {
            use_type_invariant(&*self);
        }
        match position(&self.todos, &id) {
            Some(i) => {
                proof {
                    lemma_first_is_position(models(self.todos@), id@, i as int);
                }
                let mut todos = self.take_todos();
                todos.remove(i);
                assert(models(todos@) =~= models(old(self).todos@).remove(i as int));
                self.todos = todos;
                Ok(())
            },
            None => Err(DeleteError::NotFound),
        }
    }

    fn delete_done_todos(&mut self) -> (deleted: Result<(), DeleteError>)
        ensures
            ids_distinct(final(self).records()),
    {
        proof {
            use_type_invariant(&*self);
        }
        let todos = self.take_todos();
        self.todos = keep_pending(todos);
        Ok(())
    }

    fn count(&self, done: Option<&bool>) -> (counted: Result<i64, CountTodoError>)
        ensures
            ids_distinct(self.records()),
    {
        proof {
            use_type_invariant(self);
        }
        let n = match done {
            Some(flag) => count_passing(&self.todos, Some(*flag)),
            None => count_passing(&self.todos, None),
        };
        Ok(n as i64)
    }
}

} // verus!
