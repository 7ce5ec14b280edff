//! The state that outlives a page: the session and the cached tasks.

use crate::api::auth::auth::{opt_auth, Auth, AuthView};
use crate::api::tasks::todo_task::{task_views, TodoTask, TodoTaskView};
use crate::text::opt_text;
use vstd::prelude::*;

verus! {

/// The session of the tab: the signed-in user, if any, and the chosen
/// theme, if any.
#[derive(Clone, Debug, PartialEq)]
pub struct SessionStore {
    pub user: Option<Auth>,
    pub theme: Option<String>,
}

/// What the session holds, as mathematical values.
pub struct SessionView {
    pub user: Option<AuthView>,
    pub theme: Option<Seq<char>>,
}

impl View for SessionStore {
    type V = SessionView;

    open spec fn view(&self) -> SessionView {
        SessionView { user: opt_auth(self.user), theme: opt_text(self.theme) }
    }
}

impl SessionView {
    /// The session of a tab that nobody has signed in to.
    pub open spec fn empty() -> SessionView {
        SessionView { user: None, theme: None }
    }

    /// The session after a sign-in.
    pub open spec fn signed_in(self, auth: AuthView) -> SessionView {
        SessionView { user: Some(auth), theme: self.theme }
    }

    /// The session after a sign-out: the theme stays.
    pub open spec fn signed_out(self) -> SessionView {
        SessionView { user: None, theme: self.theme }
    }

    /// The session after a theme was chosen.
    pub open spec fn with_theme(self, name: Seq<char>) -> SessionView {
        SessionView { user: self.user, theme: Some(name) }
    }

    /// The token of the signed-in user.
    pub open spec fn token(self) -> Option<Seq<char>> {
        match self.user {
            Some(auth) => Some(auth.token),
            None => None,
        }
    }
}

impl Default for SessionStore {
    /// The session of a tab that nobody has signed in to.
    fn default() -> (r: SessionStore)
        ensures
            r@ == SessionView::empty(),
    {
        SessionStore { user: None, theme: None }
    }
}

impl SessionStore {
    /// Signs a user in.
    pub fn login(&mut self, auth: Auth)
        ensures
            final(self)@ == old(self)@.signed_in(auth@),
    {
        self.user = Some(auth);
    }

    /// Signs the user out.
    pub fn logout(&mut self)
        ensures
            final(self)@ == old(self)@.signed_out(),
    {
        self.user = None;
    }

    /// Chooses a theme.
    pub fn set_theme(&mut self, name: String)
        ensures
            final(self)@ == old(self)@.with_theme(name@),
    {
        self.theme = Some(name);
    }

    /// The token of the signed-in user.
    pub fn token(&self) -> (r: Option<String>)
        ensures
            opt_text(r) == self@.token(),
    {
        match &self.user {
            Some(auth) => Some(auth.token.clone()),
            None => None,
        }
    }
}

/// The cached tasks: the list that was fetched last, whether it still
/// stands for what the server holds, and whether a fetch is under way.
///
/// The cache is valid only between a fetch that succeeded and the next
/// operation that changed a task. While it is not valid, nothing is served
/// from it, and a read has the list fetched, unless a fetch is under way
/// already.
#[derive(Clone, Debug, PartialEq)]
pub struct TaskStore {
    pub tasks: Option<Vec<TodoTask>>,
    pub tasks_valid: bool,
    pub fetch_in_flight: bool,
}

/// What the cache holds, as mathematical values.
pub struct TaskStoreView {
    pub tasks: Option<Seq<TodoTaskView>>,
    pub tasks_valid: bool,
    pub fetch_in_flight: bool,
}

/// The view of an optional list of tasks.
pub open spec fn opt_tasks(tasks: Option<Vec<TodoTask>>) -> Option<Seq<TodoTaskView>> {
    match tasks {
        Some(list) => Some(task_views(list@)),
        None => None,
    }
}

impl View for TaskStore {
    type V = TaskStoreView;

    open spec fn view(&self) -> TaskStoreView {
        TaskStoreView {
            tasks: opt_tasks(self.tasks),
            tasks_valid: self.tasks_valid,
            fetch_in_flight: self.fetch_in_flight,
        }
    }
}

impl TaskStoreView {
    /// The cache before anything was fetched.
    pub open spec fn empty() -> TaskStoreView {
        TaskStoreView { tasks: None, tasks_valid: false, fetch_in_flight: false }
    }

    /// The cache after a fetch that succeeded.
    pub open spec fn fetched(tasks: Seq<TodoTaskView>) -> TaskStoreView {
        TaskStoreView { tasks: Some(tasks), tasks_valid: true, fetch_in_flight: false }
    }

    /// The cache after an operation that changed a task: whatever changed,
    /// the whole list is no longer valid. A fetch that is under way may
    /// bring the list as it was before the change, so it no longer stands
    /// in the way of a new one.
    pub open spec fn invalidated(self) -> TaskStoreView {
        TaskStoreView { tasks: self.tasks, tasks_valid: false, fetch_in_flight: false }
    }

    /// The cache after a fetch was started.
    pub open spec fn fetch_started(self) -> TaskStoreView {
        TaskStoreView { fetch_in_flight: true, ..self }
    }

    /// The cache after a fetch failed: what it holds and whether that is
    /// valid stay as they were, and no fetch is under way any more.
    pub open spec fn fetch_failed(self) -> TaskStoreView {
        TaskStoreView { fetch_in_flight: false, ..self }
    }

    /// What a read is served from the cache: the list if the cache is
    /// valid, and nothing if it is not.
    pub open spec fn served(self) -> Option<Seq<TodoTaskView>> {
        if self.tasks_valid {
            self.tasks
        } else {
            None
        }
    }

    /// Whether a read has to start a fetch: the validity flag alone says
    /// whether the list is wanted, and a fetch that is under way is not
    /// started a second time.
    pub open spec fn must_fetch(self) -> bool {
        !self.tasks_valid && !self.fetch_in_flight
    }
}

impl Default for TaskStore {
    /// The cache before anything was fetched.
    fn default() -> (r: TaskStore)
        ensures
            r@ == TaskStoreView::empty(),
    {
        TaskStore { tasks: None, tasks_valid: false, fetch_in_flight: false }
    }
}

impl TaskStore {
    /// Serves a read from the cache: the list if the cache is valid, and
    /// `None` if it is not.
    pub fn read(&self) -> (r: Option<&Vec<TodoTask>>)
        ensures
            match r {
                Some(list) => self@.served() == Some(task_views(list@)),
                None => self@.served() is None,
            },
    {
        if self.tasks_valid {
            match &self.tasks {
                Some(list) => Some(list),
                None => None,
            }
        } else {
            None
        }
    }

    /// Whether a read has to start a fetch.
    pub fn needs_fetch(&self) -> (r: bool)
        ensures
            r == self@.must_fetch(),
            !r <==> self.tasks_valid || self.fetch_in_flight,
    {
        !self.tasks_valid && !self.fetch_in_flight
    }

    /// Decides whether a read has to start a fetch, and notes the fetch as
    /// under way if it has.
    pub fn begin_fetch(&mut self) -> (r: bool)
        ensures
            r == old(self)@.must_fetch(),
            final(self)@ == (if r {
                old(self)@.fetch_started()
            } else {
                old(self)@
            }),
    {
        if self.needs_fetch() {
            self.fetch_in_flight = true;
            true
        } else {
            false
        }
    }

    /// Stores the list that a fetch brought.
    pub fn store_fetched(&mut self, tasks: Vec<TodoTask>)
        ensures
            final(self)@ == TaskStoreView::fetched(task_views(tasks@)),
    {
        self.tasks = Some(tasks);
        self.tasks_valid = true;
        self.fetch_in_flight = false;
    }

    /// Notes that a fetch failed.
    pub fn fetch_failed(&mut self)
        ensures
            final(self)@ == old(self)@.fetch_failed(),
    {
        self.fetch_in_flight = false;
    }

    /// Marks the cache as stale, after an operation that changed a task.
    pub fn invalidate(&mut self)
        ensures
            final(self)@ == old(self)@.invalidated(),
    {
        self.tasks_valid = false;
        self.fetch_in_flight = false;
    }

    /// Forgets the list, when the user changes.
    pub fn clear(&mut self)
        ensures
            final(self)@ == TaskStoreView::empty(),
    {
        self.tasks = None;
        self.tasks_valid = false;
        self.fetch_in_flight = false;
    }
}

/// After an operation that changed a task, the cache serves nothing and
/// the next read has to fetch, whatever the cache held. Only a fetch that
/// succeeds makes the cache serve again, and then it serves what was
/// fetched.
pub proof fn lemma_mutation_forces_refetch(cache: TaskStoreView, fetched: Seq<TodoTaskView>)
    ensures
        !cache.invalidated().tasks_valid,
        cache.invalidated().served() is None,
        cache.invalidated().must_fetch(),
        cache.invalidated().invalidated() == cache.invalidated(),
        cache.invalidated().fetch_started().fetch_failed().must_fetch(),
        TaskStoreView::fetched(fetched).served() == Some(fetched),
        TaskStoreView::fetched(fetched).invalidated().served() is None,
        TaskStoreView::fetched(fetched).invalidated().must_fetch(),
        TaskStoreView::empty().served() is None,
        TaskStoreView::empty().must_fetch(),
{
}

/// The validity flag alone says whether the list is wanted, and a fetch
/// is never started twice: while the cache is valid no read fetches; a
/// read of a stale cache starts one fetch; and until that fetch has come
/// back, or a task was changed, no further read starts another.
pub proof fn lemma_fetch_is_not_duplicated(cache: TaskStoreView, fetched: Seq<TodoTaskView>)
    ensures
        cache.tasks_valid ==> !cache.must_fetch(),
        !cache.fetch_started().must_fetch(),
        cache.must_fetch() ==> !cache.fetch_started().tasks_valid,
        cache.fetch_started().served() == cache.served(),
        !TaskStoreView::fetched(fetched).must_fetch(),
        !cache.tasks_valid ==> cache.fetch_started().fetch_failed().must_fetch(),
{
}

} // verus!
