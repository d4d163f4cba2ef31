//! The persistence context: one identifier counter, one repository per entity
//! type, and the integrity checks that guard the assignment relation.

use std::collections::HashMap;
use vstd::prelude::*;

use crate::error::{decimal, text_with_id, text_with_ids, Error, ErrorKind};
use crate::ids::IdGenerator;
use crate::record::{Project, ProjectView, Task, TaskAssignment, TaskStatus, TaskView, User, UserView};

verus! {

broadcast use vstd::std_specs::hash::group_hash_axioms;

/// The abstract state of the store.
pub struct ManagerView {
    /// The id that the next creation will issue.
    pub next_id: u64,
    pub projects: Map<u64, ProjectView>,
    pub tasks: Map<u64, TaskView>,
    pub users: Map<u64, UserView>,
    /// Stored assignment pairs, as `(user_id, task_id)`.
    pub assignments: Set<(u64, u64)>,
}

pub open spec fn project_missing_text(id: u64) -> Seq<char> {
    "Project with id="@ + decimal(id as nat) + " not found"@
}

pub open spec fn task_missing_text(id: u64) -> Seq<char> {
    "Task with id="@ + decimal(id as nat) + " not found"@
}

pub open spec fn user_missing_text(id: u64) -> Seq<char> {
    "User with id="@ + decimal(id as nat) + " not found"@
}

pub open spec fn assign_missing_text(task_id: u64, user_id: u64) -> Seq<char> {
    "Task with id="@ + decimal(task_id as nat) + " or user with id="@ + decimal(user_id as nat)
        + " not found"@
}

pub open spec fn assign_duplicate_text(task_id: u64, user_id: u64) -> Seq<char> {
    "Task with id="@ + decimal(task_id as nat) + " is already assigned to user with id="@
        + decimal(user_id as nat) + ""@
}

pub open spec fn unassign_missing_text(task_id: u64, user_id: u64) -> Seq<char> {
    "Task with id="@ + decimal(task_id as nat) + " is not assigned to user with id="@
        + decimal(user_id as nat) + ""@
}

/// The error, if any, that assigning `task_id` to `user_id` meets in state `s`:
/// a missing task or user first, then an existing pair.
pub open spec fn assign_error(s: ManagerView, task_id: u64, user_id: u64) -> Option<ErrorKind> {
    if !(s.tasks.contains_key(task_id) && s.users.contains_key(user_id)) {
        Some(ErrorKind::NotFound)
    } else if s.assignments.contains((user_id, task_id)) {
        Some(ErrorKind::InvalidInput)
    } else {
        None
    }
}

/// The state after assigning `task_id` to `user_id` in state `s`.
pub open spec fn after_assign(s: ManagerView, task_id: u64, user_id: u64) -> ManagerView {
    if assign_error(s, task_id, user_id) is None {
        ManagerView { assignments: s.assignments.insert((user_id, task_id)), ..s }
    } else {
        s
    }
}

/// The error, if any, that removing the pair `(user_id, task_id)` meets in `s`.
pub open spec fn unassign_error(s: ManagerView, task_id: u64, user_id: u64) -> Option<ErrorKind> {
    if s.assignments.contains((user_id, task_id)) {
        None
    } else {
        Some(ErrorKind::NotFound)
    }
}

/// The state after removing the pair `(user_id, task_id)` from `s`.
pub open spec fn after_unassign(s: ManagerView, task_id: u64, user_id: u64) -> ManagerView {
    ManagerView { assignments: s.assignments.remove((user_id, task_id)), ..s }
}

/// A creation step: `id` is the counter's value before, and the counter moved on by one.
pub open spec fn issues_id(pre: ManagerView, post: ManagerView, id: u64) -> bool {
    id == pre.next_id && post.next_id == pre.next_id + 1
}

pub open spec fn after_delete_project(s: ManagerView, id: u64) -> ManagerView {
    ManagerView { projects: s.projects.remove(id), ..s }
}

pub open spec fn after_delete_task(s: ManagerView, id: u64) -> ManagerView {
    ManagerView { tasks: s.tasks.remove(id), ..s }
}

pub open spec fn after_delete_user(s: ManagerView, id: u64) -> ManagerView {
    ManagerView { users: s.users.remove(id), ..s }
}

/// The pairs held by a sequence of stored assignments.
pub open spec fn pairs_of(v: Seq<TaskAssignment>) -> Set<(u64, u64)> {
    Set::new(|k: (u64, u64)| exists|i: int| 0 <= i < v.len() && #[trigger] v[i].key() == k)
}

/// No pair is stored twice.
pub open spec fn unique_pairs(v: Seq<TaskAssignment>) -> bool {
    forall|i: int, j: int| 0 <= i < v.len() && 0 <= j < v.len() && i != j ==> v[i].key() != v[j].key()
}

proof fn lemma_pairs_after_push(before: Seq<TaskAssignment>, a: TaskAssignment)
    ensures
        pairs_of(before.push(a)) == pairs_of(before).insert(a.key()),
{
    let after = before.push(a);
    assert(after[before.len() as int].key() == a.key());
    assert forall|k: (u64, u64)|
        pairs_of(after).contains(k) == pairs_of(before).insert(a.key()).contains(k) by {
        if pairs_of(before).contains(k) {
            let i = choose|i: int| 0 <= i < before.len() && #[trigger] before[i].key() == k;
            assert(after[i].key() == k);
        }
        if pairs_of(after).contains(k) && k != a.key() {
            let i = choose|i: int| 0 <= i < after.len() && #[trigger] after[i].key() == k;
            assert(before[i].key() == k);
        }
    }
    assert(pairs_of(after) =~= pairs_of(before).insert(a.key()));
}

proof fn lemma_pairs_after_remove(before: Seq<TaskAssignment>, idx: int)
    requires
        0 <= idx < before.len(),
        unique_pairs(before),
    ensures
        pairs_of(before.remove(idx)) == pairs_of(before).remove(before[idx].key()),
        unique_pairs(before.remove(idx)),
{
    let after = before.remove(idx);
    let key = before[idx].key();
    assert forall|k: (u64, u64)|
        pairs_of(after).contains(k) == pairs_of(before).remove(key).contains(k) by {
        if pairs_of(after).contains(k) {
            let i = choose|i: int| 0 <= i < after.len() && #[trigger] after[i].key() == k;
            if i < idx {
                assert(before[i].key() == k);
            } else {
                assert(before[i + 1].key() == k);
            }
        }
        if pairs_of(before).contains(k) && k != key {
            let i = choose|i: int| 0 <= i < before.len() && #[trigger] before[i].key() == k;
            if i < idx {
                assert(after[i].key() == k);
            } else {
                assert(after[i - 1].key() == k);
            }
        }
    }
    assert(pairs_of(after) =~= pairs_of(before).remove(key));
    assert forall|i: int, j: int| 0 <= i < after.len() && 0 <= j < after.len() && i != j implies after[i].key()
        != after[j].key() by {
        let bi = if i < idx { i } else { i + 1 };
        let bj = if j < idx { j } else { j + 1 };
        assert(after[i] == before[bi]);
        assert(after[j] == before[bj]);
    }
}

/// The store: an id generator shared by all entity types, a repository per
/// entity type keyed by id, and the assignment relation.
pub struct ProjectManager {
    ids: IdGenerator,
    projects: HashMap<u64, Project>,
    tasks: HashMap<u64, Task>,
    users: HashMap<u64, User>,
    assignments: Vec<TaskAssignment>,
}

impl View for ProjectManager {
    type V = ManagerView;

    closed spec fn view(&self) -> ManagerView {
        ManagerView {
            next_id: self.ids@,
            projects: self.projects@.map_values(|p: Project| p@),
            tasks: self.tasks@.map_values(|t: Task| t@),
            users: self.users@.map_values(|u: User| u@),
            assignments: pairs_of(self.assignments@),
        }
    }
}

impl ProjectManager {
    /// Each record is stored under its own id, every stored id was issued
    /// already, and no assignment pair is stored twice.
    pub closed spec fn wf(&self) -> bool {
        &&& forall|k: u64| #[trigger]
            self.projects@.contains_key(k) ==> self.projects@[k].id == k && k < self.ids@
        &&& forall|k: u64| #[trigger]
            self.tasks@.contains_key(k) ==> self.tasks@[k].id == k && k < self.ids@
        &&& forall|k: u64| #[trigger]
            self.users@.contains_key(k) ==> self.users@[k].id == k && k < self.ids@
        &&& unique_pairs(self.assignments@)
    }

    /// An empty store whose counter starts at zero.
    pub fn new() -> (r: ProjectManager)
        ensures
            r.wf(),
            r@.next_id == 0,
            r@.projects == Map::<u64, ProjectView>::empty(),
            r@.tasks == Map::<u64, TaskView>::empty(),
            r@.users == Map::<u64, UserView>::empty(),
            r@.assignments == Set::<(u64, u64)>::empty(),
    {
        let r = ProjectManager {
            ids: IdGenerator::new(),
            projects: HashMap::new(),
            tasks: HashMap::new(),
            users: HashMap::new(),
            assignments: Vec::new(),
        };
        assert(r@.projects =~= Map::<u64, ProjectView>::empty());
        assert(r@.tasks =~= Map::<u64, TaskView>::empty());
        assert(r@.users =~= Map::<u64, UserView>::empty());
        assert(r@.assignments =~= Set::<(u64, u64)>::empty());
        r
    }

    /// The id that the next creation will issue.
    pub fn next_id(&self) -> (r: u64)
        ensures
            r == self@.next_id,
    {
        self.ids.peek()
    }

    /// Stores a new project under a freshly issued id and returns a copy.
    pub fn add_project(
        &mut self,
        name: String,
        description: String,
        start_date: u64,
        due_date: u64,
    ) -> (r: Result<Project, Error>)
        requires
            old(self).wf(),
            old(self)@.next_id < u64::MAX,
        ensures
            final(self).wf(),
            r is Ok,
            r matches Ok(p) ==> {
                &&& p@ == (ProjectView {
                    id: old(self)@.next_id,
                    name: name@,
                    description: description@,
                    start_date,
                    due_date,
                })
                &&& !old(self)@.projects.contains_key(p.id)
                &&& issues_id(old(self)@, final(self)@, p.id)
                &&& final(self)@ == (ManagerView {
                    next_id: final(self)@.next_id,
                    projects: old(self)@.projects.insert(p.id, p@),
                    ..old(self)@
                })
            },
    {
        let id = self.ids.next_id();
        let project = Project { id, name, description, start_date, due_date };
        let copy = project.duplicate();
        self.projects.insert(id, project);
        assert(self@.projects =~= old(self)@.projects.insert(id, copy@));
        Ok(copy)
    }

    /// Removes the project stored under `id`.
    pub fn delete_project(&mut self, id: u64) -> (r: Result<(), Error>)
        requires
            old(self).wf(),
        ensures
            final(self).wf(),
            final(self)@ == after_delete_project(old(self)@, id),
            r is Ok <==> old(self)@.projects.contains_key(id),
            r matches Err(e) ==> {
                &&& e.kind() == ErrorKind::NotFound
                &&& e.spec_message() == project_missing_text(id)
            },
    {
        let removed = self.projects.remove(&id);
        assert(self@.projects =~= old(self)@.projects.remove(id));
        match removed {
            Some(_) => Ok(()),
            None => Err(Error::NotFound { msg: text_with_id("Project with id=", id, " not found") }),
        }
    }

    /// A copy of the project stored under `id`.
    pub fn get_project(&self, id: u64) -> (r: Result<Project, Error>)
        requires
            self.wf(),
        ensures
            r is Ok <==> self@.projects.contains_key(id),
            r matches Ok(p) ==> p@ == self@.projects[id] && p.id == id,
            r matches Err(e) ==> {
                &&& e.kind() == ErrorKind::NotFound
                &&& e.spec_message() == project_missing_text(id)
            },
    {
        match self.projects.get(&id) {
            Some(p) => Ok(p.duplicate()),
            None => Err(Error::NotFound { msg: text_with_id("Project with id=", id, " not found") }),
        }
    }

    /// Replaces every mutable field of the project stored under `id`; the id stays.
    pub fn update_project(
        &mut self,
        id: u64,
        name: String,
        description: String,
        start_date: u64,
        due_date: u64,
    ) -> (r: Result<Project, Error>)
        requires
            old(self).wf(),
        ensures
            final(self).wf(),
            r is Ok <==> old(self)@.projects.contains_key(id),
            r matches Ok(p) ==> {
                &&& p@ == (ProjectView { id, name: name@, description: description@, start_date, due_date })
                &&& final(self)@ == (ManagerView {
                    projects: old(self)@.projects.insert(id, p@),
                    ..old(self)@
                })
            },
            r matches Err(e) ==> {
                &&& e.kind() == ErrorKind::NotFound
                &&& e.spec_message() == project_missing_text(id)
                &&& final(self)@ == old(self)@
            },
    {
        if !self.projects.contains_key(&id) {
            return Err(Error::NotFound { msg: text_with_id("Project with id=", id, " not found") });
        }
        let project = Project { id, name, description, start_date, due_date };
        let copy = project.duplicate();
        self.projects.insert(id, project);
        assert(self@.projects =~= old(self)@.projects.insert(id, copy@));
        Ok(copy)
    }

    /// Stores a new task, with status `Todo`, under a freshly issued id and returns a copy.
    /// Neither `project_id` nor `assigned_users` is checked against stored records.
    pub fn add_task(
        &mut self,
        project_id: u64,
        name: String,
        description: String,
        start_date: u64,
        due_date: u64,
        assigned_users: Vec<u64>,
    ) -> (r: Result<Task, Error>)
        requires
            old(self).wf(),
            old(self)@.next_id < u64::MAX,
        ensures
            final(self).wf(),
            r is Ok,
            r matches Ok(t) ==> {
                &&& t@ == (TaskView {
                    id: old(self)@.next_id,
                    project_id,
                    name: name@,
                    description: description@,
                    start_date,
                    due_date,
                    status: TaskStatus::Todo,
                    assigned_users: assigned_users@,
                })
                &&& !old(self)@.tasks.contains_key(t.id)
                &&& issues_id(old(self)@, final(self)@, t.id)
                &&& final(self)@ == (ManagerView {
                    next_id: final(self)@.next_id,
                    tasks: old(self)@.tasks.insert(t.id, t@),
                    ..old(self)@
                })
            },
    {
        let id = self.ids.next_id();
        let task = Task {
            id,
            project_id,
            name,
            description,
            start_date,
            due_date,
            status: TaskStatus::Todo,
            assigned_users,
        };
        let copy = task.duplicate();
        self.tasks.insert(id, task);
        assert(self@.tasks =~= old(self)@.tasks.insert(id, copy@));
        Ok(copy)
    }

    /// Removes the task stored under `id`; its assignments stay.
    pub fn delete_task(&mut self, id: u64) -> (r: Result<(), Error>)
        requires
            old(self).wf(),
        ensures
            final(self).wf(),
            final(self)@ == after_delete_task(old(self)@, id),
            r is Ok <==> old(self)@.tasks.contains_key(id),
            r matches Err(e) ==> {
                &&& e.kind() == ErrorKind::NotFound
                &&& e.spec_message() == task_missing_text(id)
            },
    {
        let removed = self.tasks.remove(&id);
        assert(self@.tasks =~= old(self)@.tasks.remove(id));
        match removed {
            Some(_) => Ok(()),
            None => Err(Error::NotFound { msg: text_with_id("Task with id=", id, " not found") }),
        }
    }

    /// A copy of the task stored under `id`.
    pub fn get_task(&self, id: u64) -> (r: Result<Task, Error>)
        requires
            self.wf(),
        ensures
            r is Ok <==> self@.tasks.contains_key(id),
            r matches Ok(t) ==> t@ == self@.tasks[id] && t.id == id,
            r matches Err(e) ==> {
                &&& e.kind() == ErrorKind::NotFound
                &&& e.spec_message() == task_missing_text(id)
            },
    {
        match self.tasks.get(&id) {
            Some(t) => Ok(t.duplicate()),
            None => Err(Error::NotFound { msg: text_with_id("Task with id=", id, " not found") }),
        }
    }

    /// Replaces name, description, dates, status and assigned users of the task
    /// stored under `id`; its id and project id stay.
    pub fn update_task(
        &mut self,
        id: u64,
        name: String,
        description: String,
        start_date: u64,
        due_date: u64,
        status: TaskStatus,
        assigned_users: Vec<u64>,
    ) -> (r: Result<Task, Error>)
        requires
            old(self).wf(),
        ensures
            final(self).wf(),
            r is Ok <==> old(self)@.tasks.contains_key(id),
            r matches Ok(t) ==> {
                &&& t@ == (TaskView {
                    id,
                    project_id: old(self)@.tasks[id].project_id,
                    name: name@,
                    description: description@,
                    start_date,
                    due_date,
                    status,
                    assigned_users: assigned_users@,
                })
                &&& final(self)@ == (ManagerView {
                    tasks: old(self)@.tasks.insert(id, t@),
                    ..old(self)@
                })
            },
            r matches Err(e) ==> {
                &&& e.kind() == ErrorKind::NotFound
                &&& e.spec_message() == task_missing_text(id)
                &&& final(self)@ == old(self)@
            },
    {
        let project_id = match self.tasks.get(&id) {
            Some(t) => t.project_id,
            None => {
                return Err(Error::NotFound { msg: text_with_id("Task with id=", id, " not found") });
            },
        };
        let task = Task {
            id,
            project_id,
            name,
            description,
            start_date,
            due_date,
            status,
            assigned_users,
        };
        let copy = task.duplicate();
        self.tasks.insert(id, task);
        assert(self@.tasks =~= old(self)@.tasks.insert(id, copy@));
        Ok(copy)
    }

    /// Sets status and assigned users of the task stored under `task_id`;
    /// every other field stays.
    pub fn change_task_status(
        &mut self,
        task_id: u64,
        status: TaskStatus,
        assigned_users: Vec<u64>,
    ) -> (r: Result<Task, Error>)
        requires
            old(self).wf(),
        ensures
            final(self).wf(),
            r is Ok <==> old(self)@.tasks.contains_key(task_id),
            r matches Ok(t) ==> {
                &&& t@ == (TaskView {
                    status,
                    assigned_users: assigned_users@,
                    ..old(self)@.tasks[task_id]
                })
                &&& t.id == task_id
                &&& final(self)@ == (ManagerView {
                    tasks: old(self)@.tasks.insert(task_id, t@),
                    ..old(self)@
                })
            },
            r matches Err(e) ==> {
                &&& e.kind() == ErrorKind::NotFound
                &&& e.spec_message() == task_missing_text(task_id)
                &&& final(self)@ == old(self)@
            },
    {
        let task = match self.tasks.get(&task_id) {
            Some(t) => Task {
                id: t.id,
                project_id: t.project_id,
                name: t.name.clone(),
                description: t.description.clone(),
                start_date: t.start_date,
                due_date: t.due_date,
                status,
                assigned_users,
            },
            None => {
                return Err(
                    Error::NotFound { msg: text_with_id("Task with id=", task_id, " not found") },
                );
            },
        };
        let copy = task.duplicate();
        self.tasks.insert(task_id, task);
        assert(self@.tasks =~= old(self)@.tasks.insert(task_id, copy@));
        Ok(copy)
    }

    /// Stores a new user under a freshly issued id and returns a copy.
    pub fn add_user(&mut self, name: String) -> (r: Result<User, Error>)
        requires
            old(self).wf(),
            old(self)@.next_id < u64::MAX,
        ensures
            final(self).wf(),
            r is Ok,
            r matches Ok(u) ==> {
                &&& u@ == (UserView { id: old(self)@.next_id, name: name@ })
                &&& !old(self)@.users.contains_key(u.id)
                &&& issues_id(old(self)@, final(self)@, u.id)
                &&& final(self)@ == (ManagerView {
                    next_id: final(self)@.next_id,
                    users: old(self)@.users.insert(u.id, u@),
                    ..old(self)@
                })
            },
    {
        let id = self.ids.next_id();
        let user = User { id, name };
        let copy = user.duplicate();
        self.users.insert(id, user);
        assert(self@.users =~= old(self)@.users.insert(id, copy@));
        Ok(copy)
    }

    /// Removes the user stored under `id`; their assignments stay.
    pub fn delete_user(&mut self, id: u64) -> (r: Result<(), Error>)
        requires
            old(self).wf(),
        ensures
            final(self).wf(),
            final(self)@ == after_delete_user(old(self)@, id),
            r is Ok <==> old(self)@.users.contains_key(id),
            r matches Err(e) ==> {
                &&& e.kind() == ErrorKind::NotFound
                &&& e.spec_message() == user_missing_text(id)
            },
    {
        let removed = self.users.remove(&id);
        assert(self@.users =~= old(self)@.users.remove(id));
        match removed {
            Some(_) => Ok(()),
            None => Err(Error::NotFound { msg: text_with_id("User with id=", id, " not found") }),
        }
    }

    /// A copy of the user stored under `id`.
    pub fn get_user(&self, id: u64) -> (r: Result<User, Error>)
        requires
            self.wf(),
        ensures
            r is Ok <==> self@.users.contains_key(id),
            r matches Ok(u) ==> u@ == self@.users[id] && u.id == id,
            r matches Err(e) ==> {
                &&& e.kind() == ErrorKind::NotFound
                &&& e.spec_message() == user_missing_text(id)
            },
    {
        match self.users.get(&id) {
            Some(u) => Ok(u.duplicate()),
            None => Err(Error::NotFound { msg: text_with_id("User with id=", id, " not found") }),
        }
    }

    /// Replaces the name of the user stored under `id`; the id stays.
    pub fn update_user(&mut self, id: u64, name: String) -> (r: Result<User, Error>)
        requires
            old(self).wf(),
        ensures
            final(self).wf(),
            r is Ok <==> old(self)@.users.contains_key(id),
            r matches Ok(u) ==> {
                &&& u@ == (UserView { id, name: name@ })
                &&& final(self)@ == (ManagerView {
                    users: old(self)@.users.insert(id, u@),
                    ..old(self)@
                })
            },
            r matches Err(e) ==> {
                &&& e.kind() == ErrorKind::NotFound
                &&& e.spec_message() == user_missing_text(id)
                &&& final(self)@ == old(self)@
            },
    {
        if !self.users.contains_key(&id) {
            return Err(Error::NotFound { msg: text_with_id("User with id=", id, " not found") });
        }
        let user = User { id, name };
        let copy = user.duplicate();
        self.users.insert(id, user);
        assert(self@.users =~= old(self)@.users.insert(id, copy@));
        Ok(copy)
    }

    /// The position of the stored pair `(user_id, task_id)`, if it is stored.
    fn find_assignment(&self, task_id: u64, user_id: u64) -> (r: Option<usize>)
        ensures
            r matches Some(i) ==> i < self.assignments@.len()
                && self.assignments@[i as int].key() == (user_id, task_id),
            r is None ==> !pairs_of(self.assignments@).contains((user_id, task_id)),
    {
        let mut i: usize = 0;
        while i < self.assignments.len()
            invariant
                i <= self.assignments@.len(),
                forall|j: int| 0 <= j < i ==> self.assignments@[j].key() != (user_id, task_id),
            decreases self.assignments@.len() - i,
        {
            let a = self.assignments[i];
            if a.user_id == user_id && a.task_id == task_id {
                return Some(i);
            }
            i = i + 1;
        }
        None
    }

    /// Whether the pair `(user_id, task_id)` is stored.
    pub fn is_assigned(&self, task_id: u64, user_id: u64) -> (r: bool)
        ensures
            r == self@.assignments.contains((user_id, task_id)),
    {
        self.find_assignment(task_id, user_id).is_some()
    }

    /// Stores the pair `(user_id, task_id)` once both the task and the user
    /// exist and the pair is not stored yet.
    pub fn assign_task_to_user(&mut self, task_id: u64, user_id: u64) -> (r: Result<(), Error>)
        requires
            old(self).wf(),
        ensures
            final(self).wf(),
            final(self)@ == after_assign(old(self)@, task_id, user_id),
            r is Ok <==> assign_error(old(self)@, task_id, user_id) is None,
            r matches Err(e) ==> {
                &&& assign_error(old(self)@, task_id, user_id) == Some(e.kind())
                &&& e.kind() == ErrorKind::NotFound ==> e.spec_message() == assign_missing_text(
                    task_id,
                    user_id,
                )
                &&& e.kind() == ErrorKind::InvalidInput ==> e.spec_message()
                    == assign_duplicate_text(task_id, user_id)
            },
    {
        let task_exists = self.tasks.contains_key(&task_id);
        let user_exists = self.users.contains_key(&user_id);
        if !(task_exists && user_exists) {
            return Err(
                Error::NotFound {
                    msg: text_with_ids("Task with id=", task_id, " or user with id=", user_id, " not found"),
                },
            );
        }
        if self.is_assigned(task_id, user_id) {
            return Err(
                Error::InvalidInput {
                    msg: text_with_ids(
                        "Task with id=",
                        task_id,
                        " is already assigned to user with id=",
                        user_id,
                        "",
                    ),
                },
            );
        }
        let ghost before = self.assignments@;
        self.assignments.push(TaskAssignment { user_id, task_id });
        proof {
            lemma_pairs_after_push(before, TaskAssignment { user_id, task_id });
        }
        Ok(())
    }

    /// Removes the stored pair `(user_id, task_id)`; the task and the user are
    /// not looked up.
    pub fn unassign_task_from_user(&mut self, task_id: u64, user_id: u64) -> (r: Result<(), Error>)
        requires
            old(self).wf(),
        ensures
            final(self).wf(),
            final(self)@ == after_unassign(old(self)@, task_id, user_id),
            r is Ok <==> unassign_error(old(self)@, task_id, user_id) is None,
            r matches Err(e) ==> {
                &&& e.kind() == ErrorKind::NotFound
                &&& e.spec_message() == unassign_missing_text(task_id, user_id)
            },
    {
        match self.find_assignment(task_id, user_id) {
            None => {
                assert(pairs_of(self.assignments@) =~= pairs_of(self.assignments@).remove(
                    (user_id, task_id),
                ));
                Err(
                    Error::NotFound {
                        msg: text_with_ids(
                            "Task with id=",
                            task_id,
                            " is not assigned to user with id=",
                            user_id,
                            "",
                        ),
                    },
                )
            },
            Some(idx) => {
                let ghost before = self.assignments@;
                self.assignments.remove(idx);
                proof {
                    lemma_pairs_after_remove(before, idx as int);
                }
                Ok(())
            },
        }
    }
}

} // verus!
