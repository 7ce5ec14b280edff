//! The list of tasks: which tasks are shown, and in which order.

use crate::api::api_client::{ApiClient, ApiError, Request};
use crate::api::tasks::tasks_service::{task_request, TasksService, TASKS_URI};
use crate::api::tasks::todo_task::{task_views, Priority, TodoTask, TodoTaskView};
use crate::components::atoms::dropdown::{labelled, option_views, DropdownOption};
use crate::components::pages::error_data::{ErrorData, ErrorDataView};
use crate::store::{SessionStore, TaskStore, TaskStoreView};
use crate::text::{
    compare_text, lemma_lex_less_asymmetric, lemma_lex_not_after_transitive, lex_less, lowercase,
    text_less, Order,
};
use crate::utils::{handle_api_error, session_after_error};
use vstd::prelude::*;
use vstd::string::*;

verus! {

/// Which tasks the list shows.
#[derive(Clone, Copy, Debug, PartialEq, Eq, Structural)]
pub enum FilterMode {
    All,
    CompletedTasks,
    IncompletedTasks,
    PriorityA,
    PriorityB,
    PriorityC,
}

/// By what the list is ordered.
#[derive(Clone, Copy, Debug, PartialEq, Eq, Structural)]
pub enum SortMode {
    Title,
    Priority,
    Created,
}

impl FilterMode {
    /// Whether the list shows a task.
    pub open spec fn accepts(self, task: TodoTaskView) -> bool {
        match self {
            FilterMode::All => true,
            FilterMode::CompletedTasks => task.completed_at is Some,
            FilterMode::IncompletedTasks => task.completed_at is None,
            FilterMode::PriorityA => task.priority == Some(Priority::A),
            FilterMode::PriorityB => task.priority == Some(Priority::B),
            FilterMode::PriorityC => task.priority == Some(Priority::C),
        }
    }
}

impl FilterMode {
    /// The filter that a value of the filter dropdown stands for. A value
    /// that names no filter stands for showing all tasks.
    pub open spec fn of_value(value: Seq<char>) -> FilterMode {
        if value == "completed"@ {
            FilterMode::CompletedTasks
        } else if value == "incompleted"@ {
            FilterMode::IncompletedTasks
        } else if value == "priority-a"@ {
            FilterMode::PriorityA
        } else if value == "priority-b"@ {
            FilterMode::PriorityB
        } else if value == "priority-c"@ {
            FilterMode::PriorityC
        } else {
            FilterMode::All
        }
    }

    /// Reads the filter from a value of the filter dropdown.
    pub fn from_value(value: &str) -> (r: FilterMode)
        ensures
            r == Self::of_value(value@),
    {
        if value.eq("completed") {
            FilterMode::CompletedTasks
        } else if value.eq("incompleted") {
            FilterMode::IncompletedTasks
        } else if value.eq("priority-a") {
            FilterMode::PriorityA
        } else if value.eq("priority-b") {
            FilterMode::PriorityB
        } else if value.eq("priority-c") {
            FilterMode::PriorityC
        } else {
            FilterMode::All
        }
    }
}

impl SortMode {
    /// The order that a value of the sort dropdown stands for. A value
    /// that names no order stands for the order of creation.
    pub open spec fn of_value(value: Seq<char>) -> SortMode {
        if value == "title"@ {
            SortMode::Title
        } else if value == "priority"@ {
            SortMode::Priority
        } else {
            SortMode::Created
        }
    }

    /// Reads the order from a value of the sort dropdown.
    pub fn from_value(value: &str) -> (r: SortMode)
        ensures
            r == Self::of_value(value@),
    {
        if value.eq("title") {
            SortMode::Title
        } else if value.eq("priority") {
            SortMode::Priority
        } else {
            SortMode::Created
        }
    }
}

/// The choices of the filter dropdown.
pub open spec fn filter_options() -> Seq<crate::components::atoms::dropdown::DropdownOptionView> {
    seq![
        labelled("None"@, "none"@),
        labelled("Completed tasks"@, "completed"@),
        labelled("Incompleted tasks"@, "incompleted"@),
        labelled("Priority A"@, "priority-a"@),
        labelled("Priority B"@, "priority-b"@),
        labelled("Priority C"@, "priority-c"@),
    ]
}

/// The choices of the sort dropdown.
pub open spec fn sort_options() -> Seq<crate::components::atoms::dropdown::DropdownOptionView> {
    seq![
        labelled("Title"@, "title"@),
        labelled("Priority"@, "priority"@),
        labelled("Creation time"@, "created"@),
    ]
}

/// The choice with which the sort dropdown starts.
pub fn get_sort_selected_option() -> (r: DropdownOption)
    ensures
        r@ == labelled("Creation time"@, "created"@),
        SortMode::of_value(r.value@) == SortMode::Created,
{
    proof {
        reveal_strlit("created");
        reveal_strlit("title");
        reveal_strlit("priority");
        assert("created"@.len() == 7 && "title"@.len() == 5 && "priority"@.len() == 8);
    }
    DropdownOption::new("Creation time", "created")
}

/// The choices of the sort dropdown.
pub fn get_sort_options() -> (r: Vec<DropdownOption>)
    ensures
        option_views(r@) == sort_options(),
{
    let mut options: Vec<DropdownOption> = Vec::new();
    options.push(DropdownOption::new("Title", "title"));
    options.push(DropdownOption::new("Priority", "priority"));
    options.push(DropdownOption::new("Creation time", "created"));
    assert(option_views(options@) =~= sort_options());
    options
}

/// The choice with which the filter dropdown starts.
pub fn get_filter_selected_option() -> (r: DropdownOption)
    ensures
        r@ == labelled("None"@, "none"@),
        FilterMode::of_value(r.value@) == FilterMode::All,
{
    proof {
        reveal_strlit("none");
        reveal_strlit("completed");
        reveal_strlit("incompleted");
        reveal_strlit("priority-a");
        reveal_strlit("priority-b");
        reveal_strlit("priority-c");
        assert("none"@.len() == 4 && "completed"@.len() == 9 && "incompleted"@.len() == 11);
        assert("priority-a"@.len() == 10 && "priority-b"@.len() == 10 && "priority-c"@.len()
            == 10);
    }
    DropdownOption::new("None", "none")
}

/// The choices of the filter dropdown.
pub fn get_filter_options() -> (r: Vec<DropdownOption>)
    ensures
        option_views(r@) == filter_options(),
{
    let mut options: Vec<DropdownOption> = Vec::new();
    options.push(DropdownOption::new("None", "none"));
    options.push(DropdownOption::new("Completed tasks", "completed"));
    options.push(DropdownOption::new("Incompleted tasks", "incompleted"));
    options.push(DropdownOption::new("Priority A", "priority-a"));
    options.push(DropdownOption::new("Priority B", "priority-b"));
    options.push(DropdownOption::new("Priority C", "priority-c"));
    assert(option_views(options@) =~= filter_options());
    options
}

/// The place of an optional priority in the ranking: a task without a
/// priority ranks after every task that has one.
pub open spec fn priority_rank(priority: Option<Priority>) -> int {
    match priority {
        Some(p) => p.rank(),
        None => 3,
    }
}

impl SortMode {
    /// Whether the order puts task `a` strictly before task `b`: by the
    /// title in lower case, by the rank of the priority, or by the
    /// identifier, which the server hands out in the order of creation.
    pub open spec fn before(self, a: TodoTaskView, b: TodoTaskView) -> bool {
        match self {
            SortMode::Title => text_less(lowercase(a.title), lowercase(b.title)),
            SortMode::Priority => priority_rank(a.priority) < priority_rank(b.priority),
            SortMode::Created => a.id < b.id,
        }
    }

    /// How task `a` stands to task `b` in the order.
    pub open spec fn order(self, a: TodoTaskView, b: TodoTaskView) -> Order {
        if self.before(a, b) {
            Order::Less
        } else if self.before(b, a) {
            Order::Greater
        } else {
            Order::Equal
        }
    }
}

/// Each order is a strict weak order: no task stands before itself, of two
/// tasks at most one stands before the other, and "not after" is
/// transitive.
pub proof fn lemma_sort_order_is_strict_weak(
    mode: SortMode,
    a: TodoTaskView,
    b: TodoTaskView,
    c: TodoTaskView,
)
    ensures
        !mode.before(a, a),
        mode.before(a, b) ==> !mode.before(b, a),
        !mode.before(b, a) && !mode.before(c, b) ==> !mode.before(c, a),
{
    let ka = vstd::utf8::encode_utf8(lowercase(a.title));
    let kb = vstd::utf8::encode_utf8(lowercase(b.title));
    let kc = vstd::utf8::encode_utf8(lowercase(c.title));
    lemma_lex_less_asymmetric(ka, kb);
    if !lex_less(kb, ka) && !lex_less(kc, kb) {
        lemma_lex_not_after_transitive(ka, kb, kc);
    }
}

/// Whether the task at place `x` of a list stands before the task at place
/// `y` once the list is sorted: the order decides, and where the order
/// does not tell the two apart, the earlier place stands first.
pub open spec fn stands_before(input: Seq<TodoTaskView>, mode: SortMode, x: int, y: int) -> bool {
    mode.before(input[x], input[y]) || (!mode.before(input[y], input[x]) && x < y)
}

/// Whether `places` shows `sorted` to be the stable sort of `input`: place
/// `i` of the sorted list holds the task from place `places[i]` of the
/// input, no place of the input is used twice, and each task stands before
/// those that follow it.
pub open spec fn is_stable_sorting(
    places: Seq<int>,
    sorted: Seq<TodoTaskView>,
    input: Seq<TodoTaskView>,
    mode: SortMode,
) -> bool {
    &&& places.len() == input.len()
    &&& sorted.len() == input.len()
    &&& forall|i: int|
        0 <= i < places.len() ==> 0 <= #[trigger] places[i] < input.len() && sorted[i]
            == input[places[i]]
    &&& forall|i: int, j: int|
        0 <= i < j < places.len() ==> #[trigger] places[i] != #[trigger] places[j]
    &&& forall|i: int, j: int|
        0 <= i < j < places.len() ==> stands_before(
            input,
            mode,
            #[trigger] places[i],
            #[trigger] places[j],
        )
}

/// Whether `sorted` is the stable sort of `input`: it holds the same tasks,
/// in the order of `mode`, and tasks that the order does not tell apart
/// keep the order in which they came.
pub open spec fn is_stable_sort(
    sorted: Seq<TodoTaskView>,
    input: Seq<TodoTaskView>,
    mode: SortMode,
) -> bool {
    exists|places: Seq<int>| is_stable_sorting(places, sorted, input, mode)
}

spec fn prefix_sorted(
    places: Seq<int>,
    current: Seq<TodoTaskView>,
    input: Seq<TodoTaskView>,
    mode: SortMode,
    i: int,
) -> bool {
    &&& places.len() == input.len()
    &&& current.len() == input.len()
    &&& 0 <= i <= input.len()
    &&& forall|j: int|
        0 <= j < places.len() ==> 0 <= #[trigger] places[j] < input.len() && current[j]
            == input[places[j]]
    &&& forall|j: int| 0 <= j < i ==> #[trigger] places[j] < i
    &&& forall|j: int| i <= j < places.len() ==> #[trigger] places[j] == j
    &&& forall|a: int, b: int|
        0 <= a < b < i ==> stands_before(input, mode, #[trigger] places[a], #[trigger] places[b])
}

proof fn lemma_insert_keeps_prefix_sorted(
    places: Seq<int>,
    current: Seq<TodoTaskView>,
    input: Seq<TodoTaskView>,
    mode: SortMode,
    i: int,
    k: int,
)
    requires
        prefix_sorted(places, current, input, mode, i),
        0 <= k <= i < input.len(),
        forall|j: int| k <= j < i ==> mode.before(current[i], #[trigger] current[j]),
        k > 0 ==> !mode.before(current[i], current[k - 1]),
    ensures
        prefix_sorted(
            places.remove(i).insert(k, i),
            current.remove(i).insert(k, current[i]),
            input,
            mode,
            i + 1,
        ),
{
    let new_places = places.remove(i).insert(k, i);
    let new_current = current.remove(i).insert(k, current[i]);
    assert(places[i] == i);
    assert forall|j: int| 0 <= j < new_places.len() implies 0 <= #[trigger] new_places[j]
        < input.len() && new_current[j] == input[new_places[j]] by {
        if j < k {
            assert(new_places[j] == places[j]);
        } else if j == k {
        } else if j <= i {
            assert(new_places[j] == places[j - 1]);
        } else {
            assert(new_places[j] == places[j]);
        }
    }
    assert forall|j: int| 0 <= j < i + 1 implies #[trigger] new_places[j] < i + 1 by {
        if j < k {
            assert(new_places[j] == places[j]);
        } else if j == k {
        } else {
            assert(new_places[j] == places[j - 1]);
        }
    }
    assert forall|j: int| i + 1 <= j < new_places.len() implies #[trigger] new_places[j] == j by {
        assert(new_places[j] == places[j]);
    }
    assert forall|a: int, b: int| 0 <= a < b < i + 1 implies stands_before(
        input,
        mode,
        #[trigger] new_places[a],
        #[trigger] new_places[b],
    ) by {
        let old_a = if a < k {
            a
        } else {
            a - 1
        };
        let old_b = if b < k {
            b
        } else {
            b - 1
        };
        if a == k {
            assert(new_places[b] == places[old_b]);
            assert(current[old_b] == input[places[old_b]]);
            assert(mode.before(current[i], current[old_b]));
        } else if b == k {
            assert(new_places[a] == places[a]);
            assert(current[a] == input[places[a]]);
            assert(places[a] < i);
            assert(current[k - 1] == input[places[k - 1]]);
            if a < k - 1 {
                assert(stands_before(input, mode, places[a], places[k - 1]));
                lemma_sort_order_is_strict_weak(mode, current[a], current[k - 1], current[i]);
            }
            assert(!mode.before(current[i], current[a]));
        } else {
            assert(new_places[a] == places[old_a]);
            assert(new_places[b] == places[old_b]);
            assert(stands_before(input, mode, places[old_a], places[old_b]));
        }
    }
}

proof fn lemma_sorted_prefix_is_stable_sorting(
    places: Seq<int>,
    current: Seq<TodoTaskView>,
    input: Seq<TodoTaskView>,
    mode: SortMode,
)
    requires
        prefix_sorted(places, current, input, mode, input.len() as int),
    ensures
        is_stable_sorting(places, current, input, mode),
{
    assert forall|i: int, j: int| 0 <= i < j < places.len() implies #[trigger] places[i]
        != #[trigger] places[j] by {
        assert(stands_before(input, mode, places[i], places[j]));
        lemma_sort_order_is_strict_weak(
            mode,
            input[places[i]],
            input[places[i]],
            input[places[i]],
        );
    }
}

proof fn lemma_places_cover(places: Seq<int>, n: int, x: int)
    requires
        places.len() == n,
        forall|i: int| 0 <= i < n ==> 0 <= #[trigger] places[i] < n,
        forall|i: int, j: int| 0 <= i < j < n ==> #[trigger] places[i] != #[trigger] places[j],
        0 <= x < n,
    ensures
        exists|m: int| 0 <= m < n && places[m] == x,
{
    assert(places.no_duplicates()) by {
        assert forall|i: int, j: int|
            0 <= i < places.len() && 0 <= j < places.len() && i != j implies places[i]
            != places[j] by {
            if i < j {
                assert(places[i] != places[j]);
            } else {
                assert(places[j] != places[i]);
            }
        }
    }
    places.unique_seq_to_set();
    vstd::set_lib::lemma_int_range(0, n);
    let used = places.to_set();
    let all = vstd::set_lib::set_int_range(0, n);
    assert(used.subset_of(all)) by {
        assert forall|e: int| used.contains(e) implies all.contains(e) by {
            let i = choose|i: int| 0 <= i < places.len() && places[i] == e;
            assert(0 <= places[i] < n);
        }
    }
    vstd::set_lib::lemma_len_subset(used, all);
    vstd::set_lib::lemma_subset_equality(used, all);
    assert(all.contains(x));
    assert(used.contains(x));
    assert(places.contains(x));
}

proof fn lemma_places_agree(
    p: Seq<int>,
    q: Seq<int>,
    a: Seq<TodoTaskView>,
    b: Seq<TodoTaskView>,
    input: Seq<TodoTaskView>,
    mode: SortMode,
    k: int,
)
    requires
        is_stable_sorting(p, a, input, mode),
        is_stable_sorting(q, b, input, mode),
        0 <= k <= input.len(),
    ensures
        forall|m: int| 0 <= m < k ==> p[m] == q[m],
    decreases k,
{
    if k > 0 {
        lemma_places_agree(p, q, a, b, input, mode, k - 1);
        let n = input.len() as int;
        let x = p[k - 1];
        let y = q[k - 1];
        if x != y {
            lemma_places_cover(q, n, x);
            let mq = choose|m: int| 0 <= m < n && q[m] == x;
            if mq < k - 1 {
                assert(p[mq] == q[mq]);
                assert(p[mq] != p[k - 1]);
            }
            assert(mq > k - 1);
            assert(stands_before(input, mode, q[k - 1], q[mq]));
            lemma_places_cover(p, n, y);
            let mp = choose|m: int| 0 <= m < n && p[m] == y;
            if mp < k - 1 {
                assert(p[mp] == q[mp]);
                assert(q[mp] != q[k - 1]);
            }
            assert(mp > k - 1);
            assert(stands_before(input, mode, p[k - 1], p[mp]));
            lemma_sort_order_is_strict_weak(mode, input[x], input[y], input[x]);
            lemma_sort_order_is_strict_weak(mode, input[y], input[x], input[y]);
            assert(false);
        }
    }
}

/// A list has one stable sort and no other: two lists that are both the
/// stable sort of the same list in the same order are equal.
pub proof fn lemma_stable_sort_is_unique(
    a: Seq<TodoTaskView>,
    b: Seq<TodoTaskView>,
    input: Seq<TodoTaskView>,
    mode: SortMode,
)
    requires
        is_stable_sort(a, input, mode),
        is_stable_sort(b, input, mode),
    ensures
        a == b,
{
    let p = choose|p: Seq<int>| is_stable_sorting(p, a, input, mode);
    let q = choose|q: Seq<int>| is_stable_sorting(q, b, input, mode);
    lemma_places_agree(p, q, a, b, input, mode, input.len() as int);
    assert forall|i: int| 0 <= i < a.len() implies a[i] == b[i] by {
        assert(p[i] == q[i]);
        assert(a[i] == input[p[i]]);
        assert(b[i] == input[q[i]]);
    }
    assert(a =~= b);
}

/// A stable sort is sorted and stable: no task stands after one that
/// follows it, and of two tasks that the order does not tell apart, the
/// one that came first in the input stands first.
pub proof fn lemma_stable_sort_is_sorted_and_stable(
    places: Seq<int>,
    sorted: Seq<TodoTaskView>,
    input: Seq<TodoTaskView>,
    mode: SortMode,
    i: int,
    j: int,
)
    requires
        is_stable_sorting(places, sorted, input, mode),
        0 <= i < j < sorted.len(),
    ensures
        !mode.before(sorted[j], sorted[i]),
        !mode.before(sorted[i], sorted[j]) ==> places[i] < places[j],
{
    assert(stands_before(input, mode, places[i], places[j]));
    assert(sorted[i] == input[places[i]]);
    assert(sorted[j] == input[places[j]]);
    lemma_sort_order_is_strict_weak(mode, sorted[i], sorted[j], sorted[i]);
}

/// Sorted by priority, the tasks stand by rank, `A` first, and a task
/// without a priority stands after every task that has one.
pub proof fn lemma_priority_sort_puts_unranked_last(
    sorted: Seq<TodoTaskView>,
    input: Seq<TodoTaskView>,
    i: int,
    j: int,
)
    requires
        is_stable_sort(sorted, input, SortMode::Priority),
        0 <= i < j < sorted.len(),
    ensures
        priority_rank(sorted[i].priority) <= priority_rank(sorted[j].priority),
        sorted[i].priority is None ==> sorted[j].priority is None,
{
    let places = choose|places: Seq<int>|
        is_stable_sorting(places, sorted, input, SortMode::Priority);
    lemma_stable_sort_is_sorted_and_stable(places, sorted, input, SortMode::Priority, i, j);
}

/// How one task stands to another in an order.
pub fn get_sort(sort: SortMode, task_a: &TodoTask, task_b: &TodoTask) -> (r: Order)
    ensures
        r == sort.order(task_a@, task_b@),
{
    match sort {
        SortMode::Title => {
            let a = task_a.title.as_str().to_lowercase();
            let b = task_b.title.as_str().to_lowercase();
            compare_text(a.as_str(), b.as_str())
        },
        SortMode::Priority => {
            let a: u8 = match &task_a.priority {
                Some(p) => p.ranking(),
                None => 3,
            };
            let b: u8 = match &task_b.priority {
                Some(p) => p.ranking(),
                None => 3,
            };
            if a < b {
                Order::Less
            } else if a > b {
                Order::Greater
            } else {
                Order::Equal
            }
        },
        SortMode::Created => {
            if task_a.id < task_b.id {
                Order::Less
            } else if task_a.id > task_b.id {
                Order::Greater
            } else {
                Order::Equal
            }
        },
    }
}

fn insertion_point(tasks: &Vec<TodoTask>, i: usize, task: &TodoTask, sort: SortMode) -> (k: usize)
    requires
        i <= tasks.len(),
    ensures
        k <= i,
        forall|j: int| k <= j < i ==> sort.before(task@, #[trigger] tasks@[j]@),
        k > 0 ==> !sort.before(task@, tasks@[k - 1]@),
{
    let mut k = i;
    while k > 0
        invariant
            k <= i,
            i <= tasks.len(),
            forall|j: int| k <= j < i ==> sort.before(task@, #[trigger] tasks@[j]@),
        decreases k,
    {
        match get_sort(sort, task, &tasks[k - 1]) {
            Order::Less => {
                k = k - 1;
            },
            _ => {
                return k;
            },
        }
    }
    k
}

/// Sorts the tasks. The sort is stable: tasks that the order does not tell
/// apart keep the order in which they came.
pub fn sort_tasks(tasks: Vec<TodoTask>, sort: SortMode) -> (r: Vec<TodoTask>)
    ensures
        is_stable_sort(task_views(r@), task_views(tasks@), sort),
{
    let ghost input = task_views(tasks@);
    let ghost mut places: Seq<int> = Seq::new(tasks.len() as nat, |j: int| j);
    let mut tasks = tasks;
    let n = tasks.len();
    let mut i: usize = 0;
    while i < n
        invariant
            tasks.len() == n,
            prefix_sorted(places, task_views(tasks@), input, sort, i as int),
        decreases n - i,
    {
        let ghost current = task_views(tasks@);
        let task = tasks.remove(i);
        assert(task@ == current[i as int]);
        assert(task_views(tasks@) =~= current.remove(i as int));
        let k = insertion_point(&tasks, i, &task, sort);
        proof {
            assert forall|j: int| k <= j < i implies sort.before(
                current[i as int],
                #[trigger] current[j],
            ) by {
                assert(current[j] == tasks@[j]@);
            }
            if k > 0 {
                assert(current[k - 1] == tasks@[k - 1]@);
            }
            lemma_insert_keeps_prefix_sorted(places, current, input, sort, i as int, k as int);
            places = places.remove(i as int).insert(k as int, i as int);
        }
        let ghost removed = tasks@;
        tasks.insert(k, task);
        assert(task_views(tasks@) =~= task_views(removed).insert(k as int, current[i as int]));
        i = i + 1;
    }
    proof {
        lemma_sorted_prefix_is_stable_sorting(places, task_views(tasks@), input, sort);
    }
    tasks
}

/// A task if the list shows it, and nothing if it does not.
pub fn get_filter(filter: FilterMode, task: &TodoTask) -> (r: Option<TodoTask>)
    ensures
        match r {
            Some(kept) => filter.accepts(task@) && kept@ == task@,
            None => !filter.accepts(task@),
        },
{
    let keep = match filter {
        FilterMode::All => true,
        FilterMode::CompletedTasks => task.completed_at.is_some(),
        FilterMode::IncompletedTasks => task.completed_at.is_none(),
        FilterMode::PriorityA => match task.priority {
            Some(Priority::A) => true,
            _ => false,
        },
        FilterMode::PriorityB => match task.priority {
            Some(Priority::B) => true,
            _ => false,
        },
        FilterMode::PriorityC => match task.priority {
            Some(Priority::C) => true,
            _ => false,
        },
    };
    if keep {
        Some(task.duplicate())
    } else {
        None
    }
}

/// The tasks that the list shows, in the order in which they came.
pub fn filter_tasks(tasks: Vec<TodoTask>, filter: FilterMode) -> (r: Vec<TodoTask>)
    ensures
        task_views(r@) == task_views(tasks@).filter(|task: TodoTaskView| filter.accepts(task)),
{
    filter_list(&tasks, filter)
}

fn filter_list(tasks: &Vec<TodoTask>, filter: FilterMode) -> (r: Vec<TodoTask>)
    ensures
        task_views(r@) == task_views(tasks@).filter(|task: TodoTaskView| filter.accepts(task)),
{
    let ghost accepts = |task: TodoTaskView| filter.accepts(task);
    let ghost input = task_views(tasks@);
    let mut kept: Vec<TodoTask> = Vec::new();
    let mut i: usize = 0;
    proof {
        reveal(Seq::filter);
        assert(input.take(0) =~= Seq::<TodoTaskView>::empty());
        assert(task_views(kept@) =~= Seq::<TodoTaskView>::empty());
    }
    while i < tasks.len()
        invariant
            i <= tasks.len(),
            input == task_views(tasks@),
            accepts == |task: TodoTaskView| filter.accepts(task),
            task_views(kept@) == input.take(i as int).filter(accepts),
        decreases tasks.len() - i,
    {
        let ghost before = task_views(kept@);
        proof {
            assert(input.take(i as int + 1) =~= input.take(i as int) + seq![input[i as int]]);
            Seq::filter_distributes_over_add(input.take(i as int), seq![input[i as int]], accepts);
            reveal_with_fuel(Seq::filter, 2);
            assert(seq![input[i as int]].drop_last() =~= Seq::<TodoTaskView>::empty());
            assert(seq![input[i as int]].last() == input[i as int]);
            assert(input[i as int] == tasks@[i as int]@);
        }
        match get_filter(filter, &tasks[i]) {
            Some(task) => {
                kept.push(task);
                assert(task_views(kept@) =~= before + seq![input[i as int]]);
                assert(seq![input[i as int]].filter(accepts) =~= seq![input[i as int]]);
            },
            None => {
                assert(seq![input[i as int]].filter(accepts) =~= Seq::<TodoTaskView>::empty());
                assert(before + Seq::<TodoTaskView>::empty() =~= before);
            },
        }
        i = i + 1;
    }
    assert(input.take(tasks.len() as int) =~= input);
    kept
}

/// The tasks that the list works on: what the cache serves, and no task
/// while the cache serves nothing.
pub open spec fn listed(store: TaskStoreView) -> Seq<TodoTaskView> {
    match store.served() {
        Some(tasks) => tasks,
        None => Seq::empty(),
    }
}

/// The tasks to show: those that the cache serves and the filter accepts,
/// in the chosen order.
pub fn tasks(task_store: &TaskStore, filter: FilterMode, sort: SortMode) -> (r: Vec<TodoTask>)
    ensures
        is_stable_sort(
            task_views(r@),
            listed(task_store@).filter(|task: TodoTaskView| filter.accepts(task)),
            sort,
        ),
{
    let shown = match task_store.read() {
        Some(list) => filter_list(list, filter),
        None => {
            let empty: Vec<TodoTask> = Vec::new();
            proof {
                reveal(Seq::filter);
                assert(task_views(empty@) =~= Seq::<TodoTaskView>::empty());
            }
            empty
        },
    };
    sort_tasks(shown, sort)
}

/// What a read of the tasks has to do first. While the cache is valid,
/// nothing: the list is served without a call. While it is stale and no
/// fetch is under way, the list is fetched, and the fetch is noted in the
/// cache. While a fetch is under way, nothing: its answer will fill the
/// cache.
pub fn update_tasks_in_store(client: &ApiClient, token: String, task_store: &mut TaskStore) -> (r:
    Option<Request>)
    ensures
        r is None <==> old(task_store).tasks_valid || old(task_store).fetch_in_flight,
        match r {
            Some(request) => {
                &&& request@ == task_request(
                    *client,
                    TASKS_URI@,
                    crate::api::api_client::Method::GET,
                    None,
                    token@,
                )
                &&& final(task_store)@ == old(task_store)@.fetch_started()
            },
            None => final(task_store)@ == old(task_store)@,
        },
{
    if task_store.begin_fetch() {
        Some(TasksService::get_tasks_request(client, token))
    } else {
        None
    }
}

/// The request that the delete button of a task sends.
pub fn delete_task_callback(client: &ApiClient, task: &TodoTask, token: String) -> (r: Request)
    ensures
        r@ == task_request(
            *client,
            crate::api::tasks::tasks_service::task_uri(task.id),
            crate::api::api_client::Method::DELETE,
            None,
            token@,
        ),
{
    TasksService::delete_task_request(client, token, task.id)
}

/// The request that the completion box of a task sends.
pub fn toggle_completed_callback(client: &ApiClient, task_id: i32, token: String) -> (r: Request)
    ensures
        r@ == task_request(
            *client,
            crate::api::tasks::tasks_service::task_completed_uri(task_id),
            crate::api::api_client::Method::PATCH,
            None,
            token@,
        ),
{
    TasksService::task_toggle_completed_request(client, token, task_id)
}

/// What follows from a failed call: the session after the error, and the
/// banner that shows the error, where the page has one.
pub open spec fn failure_surfaced(
    error: crate::api::api_client::ApiErrorView,
    old_session: crate::store::SessionView,
    new_session: crate::store::SessionView,
    has_banner: bool,
    shown: Option<ErrorData>,
) -> bool {
    &&& new_session == session_after_error(old_session, error)
    &&& shown is Some <==> has_banner
    &&& shown matches Some(banner) ==> banner@ == ErrorDataView::raised(
        error.message(),
        banner.uuid,
    )
}

/// Takes in the answer to a fetch of the tasks. Either way the fetch is no
/// longer under way. A list that arrived is stored and makes the cache
/// valid. A failure leaves what the cache holds and its validity as they
/// were, and is surfaced: the result is the banner to show, if the page
/// has one.
pub fn tasks_fetched(
    response: Result<Vec<TodoTask>, ApiError>,
    task_store: &mut TaskStore,
    session: &mut SessionStore,
    error_data: Option<ErrorData>,
) -> (r: Option<ErrorData>)
    ensures
        match response {
            Ok(tasks) => {
                &&& final(task_store)@ == TaskStoreView::fetched(task_views(tasks@))
                &&& final(session)@ == old(session)@
                &&& r is None
            },
            Err(error) => {
                &&& final(task_store)@ == old(task_store)@.fetch_failed()
                &&& failure_surfaced(
                    error@,
                    old(session)@,
                    final(session)@,
                    error_data is Some,
                    r,
                )
            },
        },
{
    match response {
        Ok(tasks) => {
            task_store.store_fetched(tasks);
            None
        },
        Err(error) => {
            task_store.fetch_failed();
            handle_api_error(&error, session, error_data)
        },
    }
}

/// Takes in the answer to an operation that changes a task. Success makes
/// the cache stale, whichever task changed. A failure leaves the cache as
/// it was and is surfaced: the result is the banner to show, if the page
/// has one.
pub fn task_changed(
    response: Result<(), ApiError>,
    task_store: &mut TaskStore,
    session: &mut SessionStore,
    error_data: Option<ErrorData>,
) -> (r: Option<ErrorData>)
    ensures
        match response {
            Ok(_) => {
                &&& final(task_store)@ == old(task_store)@.invalidated()
                &&& final(session)@ == old(session)@
                &&& r is None
            },
            Err(error) => {
                &&& final(task_store)@ == old(task_store)@
                &&& failure_surfaced(
                    error@,
                    old(session)@,
                    final(session)@,
                    error_data is Some,
                    r,
                )
            },
        },
{
    match response {
        Ok(_) => {
            task_store.invalidate();
            None
        },
        Err(error) => handle_api_error(&error, session, error_data),
    }
}

} // verus!
