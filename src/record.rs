//! The four record types and their mathematical views.

use vstd::prelude::*;

verus! {

/// Life-cycle state of a task; new tasks start as `Todo`.
#[derive(Clone, Copy, Debug, PartialEq, Eq, Structural)]
pub enum TaskStatus {
    Todo,
    InProgress,
    Done,
}

#[derive(Clone, Debug)]
pub struct Project {
    pub id: u64,
    pub name: String,
    pub description: String,
    pub start_date: u64,
    pub due_date: u64,
}

#[derive(Clone, Debug)]
pub struct Task {
    pub id: u64,
    /// Advisory only: never checked against the stored projects.
    pub project_id: u64,
    pub name: String,
    pub description: String,
    pub start_date: u64,
    pub due_date: u64,
    pub status: TaskStatus,
    /// Caller-supplied user ids, independent of the assignment relation.
    pub assigned_users: Vec<u64>,
}

#[derive(Clone, Debug)]
pub struct User {
    pub id: u64,
    pub name: String,
}

#[derive(Clone, Copy, Debug, PartialEq, Eq, Structural)]
pub struct TaskAssignment {
    pub user_id: u64,
    pub task_id: u64,
}

pub struct ProjectView {
    pub id: u64,
    pub name: Seq<char>,
    pub description: Seq<char>,
    pub start_date: u64,
    pub due_date: u64,
}

pub struct TaskView {
    pub id: u64,
    pub project_id: u64,
    pub name: Seq<char>,
    pub description: Seq<char>,
    pub start_date: u64,
    pub due_date: u64,
    pub status: TaskStatus,
    pub assigned_users: Seq<u64>,
}

pub struct UserView {
    pub id: u64,
    pub name: Seq<char>,
}

impl View for Project {
    type V = ProjectView;

    open spec fn view(&self) -> ProjectView {
        ProjectView {
            id: self.id,
            name: self.name@,
            description: self.description@,
            start_date: self.start_date,
            due_date: self.due_date,
        }
    }
}

impl View for Task {
    type V = TaskView;

    open spec fn view(&self) -> TaskView {
        TaskView {
            id: self.id,
            project_id: self.project_id,
            name: self.name@,
            description: self.description@,
            start_date: self.start_date,
            due_date: self.due_date,
            status: self.status,
            assigned_users: self.assigned_users@,
        }
    }
}

impl View for User {
    type V = UserView;

    open spec fn view(&self) -> UserView {
        UserView { id: self.id, name: self.name@ }
    }
}

impl TaskAssignment {
    /// The stored relation is keyed by `(user_id, task_id)`.
    pub open spec fn key(self) -> (u64, u64) {
        (self.user_id, self.task_id)
    }
}

impl Project {
    /// A field-by-field copy whose view equals the original's.
    pub fn duplicate(&self) -> (r: Project)
        ensures
            r@ == self@,
    {
        Project {
            id: self.id,
            name: self.name.clone(),
            description: self.description.clone(),
            start_date: self.start_date,
            due_date: self.due_date,
        }
    }
}

/// Copies a list of user ids element by element.
fn copy_ids(v: &Vec<u64>) -> (r: Vec<u64>)
    ensures
        r@ == v@,
{
    let mut r: Vec<u64> = Vec::new();
    let mut i: usize = 0;
    while i < v.len()
        invariant
            i <= v.len(),
            r@ == v@.subrange(0, i as int),
        decreases v.len() - i,
    {
        r.push(v[i]);
        i = i + 1;
        assert(r@ =~= v@.subrange(0, i as int));
    }
    assert(v@.subrange(0, v.len() as int) =~= v@);
    r
}

impl Task {
    /// A field-by-field copy whose view equals the original's.
    pub fn duplicate(&self) -> (r: Task)
        ensures
            r@ == self@,
    {
        Task {
            id: self.id,
            project_id: self.project_id,
            name: self.name.clone(),
            description: self.description.clone(),
            start_date: self.start_date,
            due_date: self.due_date,
            status: self.status,
            assigned_users: copy_ids(&self.assigned_users),
        }
    }
}

impl User {
    /// A field-by-field copy whose view equals the original's.
    pub fn duplicate(&self) -> (r: User)
        ensures
            r@ == self@,
    {
        User { id: self.id, name: self.name.clone() }
    }
}

} // verus!
