//! Creating, assigning and listing tasks, and the per-user cache of task lists.

use vstd::prelude::*;
use vstd::string::*;

use crate::auth::Claims;
use crate::cache::{cache_key_of, lemma_cache_key_injective, task_cache_key, TASK_CACHE_TTL_SECS};
use crate::error::{AppError, AppErrorView};
use crate::ids::UuidBytes;
use crate::models::task::TaskPriority;
use crate::models::user::{role_name, role_str, Role};

verus! {

/// A request to create a task.
#[derive(Debug, PartialEq, Eq)]
pub struct CreateTaskRequest {
    pub title: String,
    pub description: Option<String>,
    pub priority: TaskPriority,
}

/// A task as shown to clients.
#[derive(Debug, PartialEq, Eq)]
pub struct TaskItem {
    pub id: UuidBytes,
    pub title: String,
    pub status: String,
    pub priority: String,
    pub assigned_to: Option<String>,
}

/// The value of a [`TaskItem`].
pub struct TaskItemView {
    pub id: UuidBytes,
    pub title: Seq<char>,
    pub status: Seq<char>,
    pub priority: Seq<char>,
    pub assigned_to: Option<Seq<char>>,
}

pub open spec fn optional_text(s: Option<String>) -> Option<Seq<char>> {
    match s {
        Some(t) => Some(t@),
        None => None,
    }
}

impl View for TaskItem {
    type V = TaskItemView;

    open spec fn view(&self) -> TaskItemView {
        TaskItemView {
            id: self.id,
            title: self.title@,
            status: self.status@,
            priority: self.priority@,
            assigned_to: optional_text(self.assigned_to),
        }
    }
}

/// The values of a list of tasks.
pub open spec fn items_view(items: Seq<TaskItem>) -> Seq<TaskItemView> {
    items.map_values(|t: TaskItem| t@)
}

fn duplicate_optional_text(s: &Option<String>) -> (c: Option<String>)
    ensures
        optional_text(c) == optional_text(*s),
{
    match s {
        Some(t) => Some(t.clone()),
        None => None,
    }
}

/// The text of a column that may be null; null reads as the empty text.
pub open spec fn text_or_empty(s: Option<String>) -> Seq<char> {
    match s {
        Some(t) => t@,
        None => Seq::empty(),
    }
}

fn read_text_or_empty(s: &Option<String>) -> (t: String)
    ensures
        t@ == text_or_empty(*s),
{
    match s {
        Some(v) => v.clone(),
        None => String::new(),
    }
}

impl TaskItem {
    /// Another task with the same fields.
    pub fn duplicate(&self) -> (c: TaskItem)
        ensures
            c@ == self@,
    {
        TaskItem {
            id: self.id,
            title: self.title.clone(),
            status: self.status.clone(),
            priority: self.priority.clone(),
            assigned_to: duplicate_optional_text(&self.assigned_to),
        }
    }
}

/// Another list with the same tasks, in the same order.
pub fn duplicate_items(items: &Vec<TaskItem>) -> (c: Vec<TaskItem>)
    ensures
        items_view(c@) == items_view(items@),
{
    let mut out: Vec<TaskItem> = Vec::new();
    let n = items.len();
    for i in 0..n
        invariant
            n == items@.len(),
            out@.len() == i,
            forall|j: int| 0 <= j < i ==> #[trigger] out@[j]@ == items@[j]@,
    {
        out.push(items[i].duplicate());
    }
    assert(items_view(out@) =~= items_view(items@));
    out
}

/// A task to insert into the database.
#[derive(Debug, PartialEq, Eq)]
pub struct NewTask {
    pub title: String,
    pub description: Option<String>,
    pub priority: TaskPriority,
    pub created_by_id: UuidBytes,
}

/// The answer to a request by a user who is not an administrator.
pub open spec fn admins_only(action: Seq<char>) -> AppErrorView {
    AppErrorView::Forbidden("only admins can "@ + action)
}

/// Decides a task creation: only an administrator may create tasks; the task
/// is created by the requesting user with the requested fields.
pub fn plan_create_task(claims: &Claims, body: CreateTaskRequest) -> (out: Result<NewTask, AppError>)
    ensures
        claims.role != Role::Admin ==> (out matches Err(e) && e@ == admins_only("create tasks"@)),
        claims.role == Role::Admin ==> (out matches Ok(t) && t == NewTask {
            title: body.title,
            description: body.description,
            priority: body.priority,
            created_by_id: claims.sub,
        }),
{
    if claims.role != Role::Admin {
        proof {
            reveal_strlit("only admins can create tasks");
            reveal_strlit("only admins can ");
            reveal_strlit("create tasks");
            assert("only admins can create tasks"@ =~= "only admins can "@ + "create tasks"@);
        }
        return Err(AppError::Forbidden(String::from_str("only admins can create tasks")));
    }
    Ok(NewTask {
        title: body.title,
        description: body.description,
        priority: body.priority,
        created_by_id: claims.sub,
    })
}

/// A user who is not an administrator is answered `403 Forbidden` when
/// creating or assigning tasks.
pub proof fn law_non_admin_forbidden(action: Seq<char>)
    ensures
        crate::error::status_of(admins_only(action)) == 403,
{
}

/// A task as the database returns it after insertion; status and priority
/// are read as text and may be null.
#[derive(Debug, PartialEq, Eq)]
pub struct CreatedTaskRow {
    pub id: UuidBytes,
    pub title: String,
    pub status: Option<String>,
    pub priority: Option<String>,
}

/// The task shown for a freshly created row: not assigned to anyone.
pub open spec fn created_item(row: CreatedTaskRow) -> TaskItemView {
    TaskItemView {
        id: row.id,
        title: row.title@,
        status: text_or_empty(row.status),
        priority: text_or_empty(row.priority),
        assigned_to: None,
    }
}

/// The task shown for a freshly created row: not assigned to anyone.
pub fn created_task_item(row: &CreatedTaskRow) -> (item: TaskItem)
    ensures
        item@ == created_item(*row),
{
    TaskItem {
        id: row.id,
        title: row.title.clone(),
        status: read_text_or_empty(&row.status),
        priority: read_text_or_empty(&row.priority),
        assigned_to: None,
    }
}

/// A request to assign tasks to a user.
#[derive(Debug, PartialEq, Eq)]
pub struct AssignTasksRequest {
    pub task_ids: Vec<UuidBytes>,
    pub user_id: UuidBytes,
}

/// How many tasks an assignment changed.
#[derive(Debug, Clone, Copy, PartialEq, Eq)]
pub struct AssignResponse {
    pub assigned: u64,
}

/// A user's cached task list.
#[derive(Debug, PartialEq, Eq)]
pub struct CachedTasks {
    pub tasks: Vec<TaskItem>,
}

/// An entry to write to the task cache: `value` under `key`, for `ttl_secs` seconds.
#[derive(Debug, PartialEq, Eq)]
pub struct CacheEntry {
    pub key: String,
    pub value: CachedTasks,
    pub ttl_secs: u64,
}

/// The value of a [`CacheEntry`].
pub struct CacheEntryView {
    pub key: Seq<char>,
    pub tasks: Seq<TaskItemView>,
    pub ttl_secs: u64,
}

impl View for CacheEntry {
    type V = CacheEntryView;

    open spec fn view(&self) -> CacheEntryView {
        CacheEntryView { key: self.key@, tasks: items_view(self.value.tasks@), ttl_secs: self.ttl_secs }
    }
}

/// An assignment to carry out: which tasks go to which user.
#[derive(Debug, PartialEq, Eq)]
pub struct AssignPlan {
    pub task_ids: Vec<UuidBytes>,
    pub user_id: UuidBytes,
}

/// Decides a task assignment: only an administrator may assign tasks; the
/// requested tasks go to the requested user.
pub fn plan_assign_tasks(claims: &Claims, body: AssignTasksRequest) -> (out: Result<AssignPlan, AppError>)
    ensures
        claims.role != Role::Admin ==> (out matches Err(e) && e@ == admins_only("assign tasks"@)),
        claims.role == Role::Admin ==> (out matches Ok(p) && p.task_ids == body.task_ids
            && p.user_id == body.user_id),
{
    if claims.role != Role::Admin {
        proof {
            reveal_strlit("only admins can assign tasks");
            reveal_strlit("only admins can ");
            reveal_strlit("assign tasks");
            assert("only admins can assign tasks"@ =~= "only admins can "@ + "assign tasks"@);
        }
        return Err(AppError::Forbidden(String::from_str("only admins can assign tasks")));
    }
    Ok(AssignPlan { task_ids: body.task_ids, user_id: body.user_id })
}

/// The cache keys of the users who held the updated tasks before, in order
/// (a task held by nobody adds no key).
pub open spec fn previous_keys(previous: Seq<Option<UuidBytes>>) -> Seq<Seq<char>>
    decreases previous.len(),
{
    if previous.len() == 0 {
        Seq::empty()
    } else {
        previous_keys(previous.drop_last()) + match previous.last() {
            Some(p) => seq![cache_key_of(p@)],
            None => Seq::empty(),
        }
    }
}

/// The cache keys an assignment to `assignee` makes stale: the assignee's, and
/// those of every user who held one of the updated tasks before.
pub open spec fn stale_keys_of(assignee: UuidBytes, previous: Seq<Option<UuidBytes>>) -> Seq<Seq<char>> {
    seq![cache_key_of(assignee@)] + previous_keys(previous)
}

/// The users whose task lists an assignment to `assignee` changes.
pub open spec fn is_affected(assignee: UuidBytes, previous: Seq<Option<UuidBytes>>, user: UuidBytes) -> bool {
    user == assignee || previous.contains(Some(user))
}

/// The texts of a list of strings.
pub open spec fn texts(v: Seq<String>) -> Seq<Seq<char>> {
    v.map_values(|s: String| s@)
}

/// What an assignment answers, and which cache entries it removes.
#[derive(Debug, PartialEq, Eq)]
pub struct AssignOutcome {
    pub response: AssignResponse,
    pub stale_keys: Vec<String>,
}

/// Finishes an assignment, given for each updated task the user it was
/// assigned to before (if any): the answer counts the updated tasks, and the
/// cached lists of the assignee and of every previous holder are removed.
pub fn finish_assignment(plan: &AssignPlan, previous: &Vec<Option<UuidBytes>>) -> (out: AssignOutcome)
    ensures
        out.response.assigned == previous@.len(),
        texts(out.stale_keys@) == stale_keys_of(plan.user_id, previous@),
{
    let mut keys: Vec<String> = Vec::new();
    keys.push(task_cache_key(plan.user_id));
    let n = previous.len();
    for i in 0..n
        invariant
            n == previous@.len(),
            texts(keys@) == seq![cache_key_of(plan.user_id@)] + previous_keys(previous@.take(i as int)),
    {
        let ghost before = keys@;
        assert(previous@.take(i + 1).drop_last() =~= previous@.take(i as int));
        match previous[i] {
            Some(p) => {
                keys.push(task_cache_key(p));
                assert(texts(keys@) =~= texts(before).push(cache_key_of(p@)));
            },
            None => {},
        }
        assert(texts(keys@) =~= seq![cache_key_of(plan.user_id@)] + previous_keys(previous@.take(i + 1)));
    }
    assert(previous@.take(n as int) =~= previous@);
    AssignOutcome { response: AssignResponse { assigned: n as u64 }, stale_keys: keys }
}

proof fn lemma_previous_keys(previous: Seq<Option<UuidBytes>>, user: UuidBytes)
    ensures
        previous_keys(previous).contains(cache_key_of(user@)) <==> previous.contains(Some(user)),
    decreases previous.len(),
{
    if previous.len() > 0 {
        let rest = previous.drop_last();
        lemma_previous_keys(rest, user);
        assert(previous =~= rest.push(previous.last()));
        let tail: Seq<Seq<char>> = match previous.last() {
            Some(p) => seq![cache_key_of(p@)],
            None => Seq::empty(),
        };
        let all = previous_keys(previous);
        assert(all == previous_keys(rest) + tail);
        if previous.contains(Some(user)) {
            let i = choose|i: int| 0 <= i < previous.len() && previous[i] == Some(user);
            if i < previous.len() - 1 {
                assert(rest[i] == Some(user));
                let j = choose|j: int| 0 <= j < previous_keys(rest).len() && previous_keys(rest)[j] == cache_key_of(user@);
                assert(all[j] == cache_key_of(user@));
            } else {
                assert(all[all.len() - 1] == cache_key_of(user@));
            }
        }
        if all.contains(cache_key_of(user@)) {
            let j = choose|j: int| 0 <= j < all.len() && all[j] == cache_key_of(user@);
            if j < previous_keys(rest).len() {
                assert(previous_keys(rest)[j] == cache_key_of(user@));
                let i = choose|i: int| 0 <= i < rest.len() && rest[i] == Some(user);
                assert(previous[i] == Some(user));
            } else {
                let p = previous.last()->Some_0;
                assert(cache_key_of(p@) == cache_key_of(user@));
                lemma_cache_key_injective(p, user);
                assert(previous[previous.len() - 1] == Some(user));
            }
        }
    }
}

/// A user's key is among the stale keys of an assignment exactly when the
/// assignment affects that user.
pub proof fn lemma_stale_key_iff_affected(assignee: UuidBytes, previous: Seq<Option<UuidBytes>>, user: UuidBytes)
    ensures
        stale_keys_of(assignee, previous).contains(cache_key_of(user@)) <==> is_affected(assignee, previous, user),
{
    lemma_previous_keys(previous, user);
    let all = stale_keys_of(assignee, previous);
    if user == assignee {
        assert(all[0] == cache_key_of(user@));
    }
    if previous.contains(Some(user)) {
        let j = choose|j: int| 0 <= j < previous_keys(previous).len() && previous_keys(previous)[j] == cache_key_of(user@);
        assert(all[j + 1] == cache_key_of(user@));
    }
    if all.contains(cache_key_of(user@)) {
        let j = choose|j: int| 0 <= j < all.len() && all[j] == cache_key_of(user@);
        if j == 0 {
            lemma_cache_key_injective(assignee, user);
        } else {
            assert(previous_keys(previous)[j - 1] == cache_key_of(user@));
        }
    }
}

/// A task assigned to the requesting user, as the database returns it.
#[derive(Debug, PartialEq, Eq)]
pub struct AssignedTaskRow {
    pub id: UuidBytes,
    pub title: String,
    pub status: Option<String>,
    pub priority: Option<String>,
    /// The email of the user the task is assigned to.
    pub assigned_to: String,
}

/// Who is asking, as shown in the task list.
#[derive(Debug, PartialEq, Eq)]
pub struct UserSummary {
    pub email: String,
    pub role: String,
}

/// Totals over the task list.
#[derive(Debug, Clone, Copy, PartialEq, Eq)]
pub struct Summary {
    pub total_assigned_tasks: usize,
}

/// Whether the task list came from the cache.
#[derive(Debug, Clone, Copy, PartialEq, Eq)]
pub struct CacheMeta {
    pub hit: bool,
}

/// The answer to a user asking for their tasks.
#[derive(Debug, PartialEq, Eq)]
pub struct ViewMyTasksResponse {
    pub user: UserSummary,
    pub tasks: Vec<TaskItem>,
    pub summary: Summary,
    pub cache: CacheMeta,
}

/// The value of a [`ViewMyTasksResponse`].
pub struct MyTasksView {
    pub email: Seq<char>,
    pub role: Seq<char>,
    pub tasks: Seq<TaskItemView>,
    pub total_assigned_tasks: int,
    pub hit: bool,
}

impl View for ViewMyTasksResponse {
    type V = MyTasksView;

    open spec fn view(&self) -> MyTasksView {
        MyTasksView {
            email: self.user.email@,
            role: self.user.role@,
            tasks: items_view(self.tasks@),
            total_assigned_tasks: self.summary.total_assigned_tasks as int,
            hit: self.cache.hit,
        }
    }
}

/// The task list answered to `claims`' user: their email and role, the tasks,
/// how many there are, and whether they came from the cache.
pub open spec fn my_tasks(claims: Claims, tasks: Seq<TaskItemView>, hit: bool) -> MyTasksView {
    MyTasksView {
        email: claims.email@,
        role: role_name(claims.role),
        tasks,
        total_assigned_tasks: tasks.len() as int,
        hit,
    }
}

/// The task shown for an assigned row.
pub open spec fn row_item(r: AssignedTaskRow) -> TaskItemView {
    TaskItemView {
        id: r.id,
        title: r.title@,
        status: text_or_empty(r.status),
        priority: text_or_empty(r.priority),
        assigned_to: Some(r.assigned_to@),
    }
}

/// The tasks shown for the assigned rows, in their order.
pub open spec fn rows_items(rows: Seq<AssignedTaskRow>) -> Seq<TaskItemView> {
    rows.map_values(|r: AssignedTaskRow| row_item(r))
}

fn user_summary(claims: &Claims) -> (u: UserSummary)
    ensures
        u.email@ == claims.email@,
        u.role@ == role_name(claims.role),
{
    UserSummary { email: claims.email.clone(), role: role_str(&claims.role) }
}

/// The task list answered from a cached entry.
pub fn view_from_cache(claims: &Claims, cached: CachedTasks) -> (resp: ViewMyTasksResponse)
    ensures
        resp@ == my_tasks(*claims, items_view(cached.tasks@), true),
{
    let tasks = cached.tasks;
    let total = tasks.len();
    ViewMyTasksResponse {
        user: user_summary(claims),
        tasks,
        summary: Summary { total_assigned_tasks: total },
        cache: CacheMeta { hit: true },
    }
}

/// The next step of a request for one's tasks, given the cached entry (if any).
#[derive(Debug, PartialEq, Eq)]
pub enum ViewStep {
    /// The response to send.
    Answer(ViewMyTasksResponse),
    /// Nothing cached: read the tasks from the database.
    ReadDatabase,
}

/// Decides a request for one's tasks on the cache lookup: a cached list is
/// answered as it is (`cache.hit` true); otherwise the database is read.
pub fn view_step(claims: &Claims, cached: Option<CachedTasks>) -> (step: ViewStep)
    ensures
        match cached {
            Some(c) => step matches ViewStep::Answer(r) && r@ == my_tasks(*claims, items_view(c.tasks@), true),
            None => step == ViewStep::ReadDatabase,
        },
{
    match cached {
        Some(c) => ViewStep::Answer(view_from_cache(claims, c)),
        None => ViewStep::ReadDatabase,
    }
}

/// The task list answered from the database rows, with the cache entry to
/// store for the next request (under the user's key, for five minutes).
pub fn view_from_rows(claims: &Claims, rows: &Vec<AssignedTaskRow>) -> (out: (
    ViewMyTasksResponse,
    CacheEntry,
))
    ensures
        out.0@ == my_tasks(*claims, rows_items(rows@), false),
        out.1@ == (CacheEntryView {
            key: cache_key_of(claims.sub@),
            tasks: rows_items(rows@),
            ttl_secs: TASK_CACHE_TTL_SECS,
        }),
{
    let mut tasks: Vec<TaskItem> = Vec::new();
    let n = rows.len();
    for i in 0..n
        invariant
            n == rows@.len(),
            tasks@.len() == i,
            forall|j: int| 0 <= j < i ==> #[trigger] tasks@[j]@ == row_item(rows@[j]),
    {
        let row = &rows[i];
        tasks.push(
            TaskItem {
                id: row.id,
                title: row.title.clone(),
                status: read_text_or_empty(&row.status),
                priority: read_text_or_empty(&row.priority),
                assigned_to: Some(row.assigned_to.clone()),
            },
        );
    }
    assert(items_view(tasks@) =~= rows_items(rows@));
    let payload = CachedTasks { tasks: duplicate_items(&tasks) };
    let key = task_cache_key(claims.sub);
    let total = tasks.len();
    let resp = ViewMyTasksResponse {
        user: user_summary(claims),
        tasks,
        summary: Summary { total_assigned_tasks: total },
        cache: CacheMeta { hit: false },
    };
    (resp, CacheEntry { key, value: payload, ttl_secs: TASK_CACHE_TTL_SECS })
}

/// The task cache as a map from keys to the task lists stored under them.
pub type TaskCacheStore = Map<Seq<char>, Seq<TaskItemView>>;

/// The task list cached for a user, if any.
pub open spec fn cached_for(store: TaskCacheStore, user: UuidBytes) -> Option<Seq<TaskItemView>> {
    if store.dom().contains(cache_key_of(user@)) {
        Some(store[cache_key_of(user@)])
    } else {
        None
    }
}

/// A request for one's tasks against the cache `store`, with `rows` the tasks
/// the database holds for the user at that time: the answer, and the cache
/// afterwards. A cached list is answered as it is; otherwise the rows are
/// answered and stored.
pub open spec fn view_my_tasks_model(
    claims: Claims,
    store: TaskCacheStore,
    rows: Seq<AssignedTaskRow>,
) -> (MyTasksView, TaskCacheStore) {
    match cached_for(store, claims.sub) {
        Some(tasks) => (my_tasks(claims, tasks, true), store),
        None => (
            my_tasks(claims, rows_items(rows), false),
            store.insert(cache_key_of(claims.sub@), rows_items(rows)),
        ),
    }
}

/// A stored text reads back unchanged; only a null column reads as the empty text.
pub proof fn law_stored_text_reads_back(t: String)
    ensures
        text_or_empty(Some(t)) == t@,
        text_or_empty(None) == Seq::<char>::empty(),
{
}

/// A created task is answered with its row's id and title, its status and
/// priority as stored (a null column as the empty text), and no assignee.
pub proof fn law_created_task_as_stored(row: CreatedTaskRow)
    ensures
        created_item(row).id == row.id,
        created_item(row).title == row.title@,
        created_item(row).status == (match row.status {
            Some(t) => t@,
            None => Seq::<char>::empty(),
        }),
        created_item(row).priority == (match row.priority {
            Some(t) => t@,
            None => Seq::<char>::empty(),
        }),
        created_item(row).assigned_to is None,
{
}

/// A task's value holds its own fields.
pub proof fn law_task_item_value(t: TaskItem)
    ensures
        t@.id == t.id,
        t@.title == t.title@,
        t@.status == t.status@,
        t@.priority == t.priority@,
        t@.assigned_to == (match t.assigned_to {
            Some(a) => Some(a@),
            None => None::<Seq<char>>,
        }),
{
}

/// A list of tasks has one value per task, in order.
pub proof fn law_items_in_order(items: Seq<TaskItem>)
    ensures
        items_view(items).len() == items.len(),
        forall|i: int| 0 <= i < items.len() ==> #[trigger] items_view(items)[i] == items[i]@,
{
}

/// The task list read from the database has one task per row, in the rows'
/// order, each with its row's id, title and assignee and its status and
/// priority as stored (a null column as the empty text): no row is dropped,
/// added or changed.
pub proof fn law_rows_listed_in_order(rows: Seq<AssignedTaskRow>)
    ensures
        rows_items(rows).len() == rows.len(),
        forall|i: int|
            0 <= i < rows.len() ==> #[trigger] rows_items(rows)[i] == (TaskItemView {
                id: rows[i].id,
                title: rows[i].title@,
                status: match rows[i].status {
                    Some(t) => t@,
                    None => Seq::<char>::empty(),
                },
                priority: match rows[i].priority {
                    Some(t) => t@,
                    None => Seq::<char>::empty(),
                },
                assigned_to: Some(rows[i].assigned_to@),
            }),
{
}

/// A task list shows the caller's own email and role name (`admin` for an
/// administrator, `staff` for staff), the tasks given, their number, and
/// whether they came from the cache.
pub proof fn law_task_list_shows_caller(claims: Claims, tasks: Seq<TaskItemView>, hit: bool)
    ensures
        my_tasks(claims, tasks, hit).email == claims.email@,
        claims.role == Role::Admin ==> my_tasks(claims, tasks, hit).role == "admin"@,
        claims.role == Role::Staff ==> my_tasks(claims, tasks, hit).role == "staff"@,
        my_tasks(claims, tasks, hit).tasks == tasks,
        my_tasks(claims, tasks, hit).total_assigned_tasks == tasks.len(),
        my_tasks(claims, tasks, hit).hit == hit,
{
}

/// Asking twice for one's tasks: the first answer comes from the database
/// (`cache.hit` false), the second from the cache (`cache.hit` true), and
/// both show the same user, the same tasks and the same total, whatever the
/// database holds by the second request.
pub proof fn law_second_view_from_cache(
    claims: Claims,
    store: TaskCacheStore,
    rows: Seq<AssignedTaskRow>,
    later_rows: Seq<AssignedTaskRow>,
)
    requires
        cached_for(store, claims.sub) is None,
    ensures
        ({
            let (first, after) = view_my_tasks_model(claims, store, rows);
            let (second, _) = view_my_tasks_model(claims, after, later_rows);
            &&& !first.hit
            &&& first.tasks == rows_items(rows)
            &&& second.hit
            &&& second.tasks == first.tasks
            &&& second.total_assigned_tasks == first.total_assigned_tasks
            &&& second.total_assigned_tasks == second.tasks.len()
            &&& second.email == first.email
            &&& second.role == first.role
        }),
{
}

/// An assignment removes the cached task list of every user it affects (the
/// assignee and each previous holder of a moved task), so each of them is next
/// answered from the database; every other user's cached list stays as it was.
pub proof fn law_assignment_invalidates_affected(
    store: TaskCacheStore,
    assignee: UuidBytes,
    previous: Seq<Option<UuidBytes>>,
    user: UuidBytes,
    claims: Claims,
    rows: Seq<AssignedTaskRow>,
)
    requires
        claims.sub == user,
    ensures
        ({
            let after = store.remove_keys(stale_keys_of(assignee, previous).to_set());
            &&& is_affected(assignee, previous, user) ==> cached_for(after, user) is None
            &&& is_affected(assignee, previous, user) ==> !view_my_tasks_model(claims, after, rows).0.hit
            &&& is_affected(assignee, previous, user) ==> view_my_tasks_model(claims, after, rows).0.tasks
                == rows_items(rows)
            &&& !is_affected(assignee, previous, user) ==> cached_for(after, user) == cached_for(store, user)
        }),
{
    lemma_stale_key_iff_affected(assignee, previous, user);
    let keys = stale_keys_of(assignee, previous).to_set();
    assert(keys.contains(cache_key_of(user@)) <==> stale_keys_of(assignee, previous).contains(cache_key_of(user@)));
}

} // verus!
