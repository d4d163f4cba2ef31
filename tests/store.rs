use project_manager::{Error, ErrorKind, IdGenerator, ProjectManager, TaskStatus};

fn not_found(e: &Error) -> bool {
    e.kind() == ErrorKind::NotFound
}

#[test]
fn example_trace() {
    let mut m = ProjectManager::new();
    let p = m.add_project("P1".to_string(), "d".to_string(), 100, 200).unwrap();
    assert_eq!(p.id, 0);
    let u = m.add_user("Alice".to_string()).unwrap();
    assert_eq!(u.id, 1);
    let t = m.add_task(0, "T1".to_string(), "d".to_string(), 100, 200, vec![]).unwrap();
    assert_eq!(t.id, 2);
    assert_eq!(t.status, TaskStatus::Todo);
    assert!(m.assign_task_to_user(2, 1).is_ok());
    let e = m.assign_task_to_user(2, 1).unwrap_err();
    assert_eq!(e.kind(), ErrorKind::InvalidInput);
    assert!(m.unassign_task_from_user(2, 1).is_ok());
    let e = m.unassign_task_from_user(2, 1).unwrap_err();
    assert_eq!(e.kind(), ErrorKind::NotFound);
}

#[test]
fn ids_strictly_increase_across_entity_types() {
    let mut m = ProjectManager::new();
    let mut ids = Vec::new();
    for round in 0..3u64 {
        ids.push(m.add_user(format!("u{}", round)).unwrap().id);
        ids.push(m.add_task(round, "t".to_string(), "".to_string(), 1, 2, vec![round]).unwrap().id);
        ids.push(m.add_project("p".to_string(), "".to_string(), 3, 4).unwrap().id);
    }
    assert_eq!(ids, vec![0, 1, 2, 3, 4, 5, 6, 7, 8]);
    assert_eq!(m.next_id(), 9);
}

#[test]
fn deletes_do_not_rewind_the_counter() {
    let mut m = ProjectManager::new();
    let a = m.add_user("a".to_string()).unwrap().id;
    m.delete_user(a).unwrap();
    let b = m.add_user("b".to_string()).unwrap().id;
    assert!(b > a);
}

#[test]
fn get_after_delete_project() {
    let mut m = ProjectManager::new();
    let p = m.add_project("p".to_string(), "d".to_string(), 1, 2).unwrap();
    assert_eq!(m.get_project(p.id).unwrap().name, "p");
    assert!(m.delete_project(p.id).is_ok());
    let e = m.get_project(p.id).unwrap_err();
    assert!(not_found(&e));
    assert_eq!(e.message(), "Project with id=0 not found");
    let e = m.delete_project(p.id).unwrap_err();
    assert!(not_found(&e));
}

#[test]
fn get_after_delete_task() {
    let mut m = ProjectManager::new();
    m.add_user("x".to_string()).unwrap();
    let t = m.add_task(7, "t".to_string(), "d".to_string(), 1, 2, vec![3, 4]).unwrap();
    assert_eq!(m.get_task(t.id).unwrap().assigned_users, vec![3, 4]);
    assert!(m.delete_task(t.id).is_ok());
    let e = m.get_task(t.id).unwrap_err();
    assert!(not_found(&e));
    assert_eq!(e.message(), "Task with id=1 not found");
    assert!(not_found(&m.delete_task(t.id).unwrap_err()));
}

#[test]
fn get_after_delete_user() {
    let mut m = ProjectManager::new();
    let u = m.add_user("u".to_string()).unwrap();
    assert_eq!(m.get_user(u.id).unwrap().name, "u");
    assert!(m.delete_user(u.id).is_ok());
    assert!(not_found(&m.get_user(u.id).unwrap_err()));
    let e = m.delete_user(u.id).unwrap_err();
    assert_eq!(e.message(), "User with id=0 not found");
}

#[test]
fn update_project_replaces_fields_and_keeps_id() {
    let mut m = ProjectManager::new();
    m.add_user("x".to_string()).unwrap();
    let p = m.add_project("old".to_string(), "old d".to_string(), 1, 2).unwrap();
    let q = m.update_project(p.id, "new".to_string(), "new d".to_string(), 30, 10).unwrap();
    assert_eq!(q.id, p.id);
    let g = m.get_project(p.id).unwrap();
    assert_eq!(g.id, 1);
    assert_eq!(g.name, "new");
    assert_eq!(g.description, "new d");
    assert_eq!(g.start_date, 30);
    assert_eq!(g.due_date, 10);
    assert_eq!(m.next_id(), 2);
}

#[test]
fn update_missing_records_fail_with_not_found() {
    let mut m = ProjectManager::new();
    let e = m.update_project(12, "n".to_string(), "d".to_string(), 0, 0).unwrap_err();
    assert_eq!(e.message(), "Project with id=12 not found");
    let e = m.update_task(345, "n".to_string(), "d".to_string(), 0, 0, TaskStatus::Done, vec![]).unwrap_err();
    assert_eq!(e.message(), "Task with id=345 not found");
    let e = m.change_task_status(6789, TaskStatus::Done, vec![]).unwrap_err();
    assert_eq!(e.message(), "Task with id=6789 not found");
    let e = m.update_user(10, "n".to_string()).unwrap_err();
    assert_eq!(e.message(), "User with id=10 not found");
    assert_eq!(e.kind(), ErrorKind::NotFound);
    assert_eq!(m.next_id(), 0);
}

#[test]
fn update_task_replaces_fields_and_keeps_ids() {
    let mut m = ProjectManager::new();
    let t = m.add_task(40, "t".to_string(), "d".to_string(), 1, 2, vec![1]).unwrap();
    let u = m
        .update_task(t.id, "t2".to_string(), "d2".to_string(), 5, 6, TaskStatus::InProgress, vec![8, 9])
        .unwrap();
    assert_eq!(u.id, t.id);
    assert_eq!(u.project_id, 40);
    let g = m.get_task(t.id).unwrap();
    assert_eq!(g.name, "t2");
    assert_eq!(g.description, "d2");
    assert_eq!((g.start_date, g.due_date), (5, 6));
    assert_eq!(g.status, TaskStatus::InProgress);
    assert_eq!(g.assigned_users, vec![8, 9]);
    assert_eq!(g.project_id, 40);
}

#[test]
fn change_task_status_touches_only_status_and_users() {
    let mut m = ProjectManager::new();
    let t = m.add_task(3, "name".to_string(), "desc".to_string(), 11, 22, vec![5]).unwrap();
    let c = m.change_task_status(t.id, TaskStatus::Done, vec![6, 7]).unwrap();
    assert_eq!(c.id, t.id);
    let g = m.get_task(t.id).unwrap();
    assert_eq!(g.status, TaskStatus::Done);
    assert_eq!(g.assigned_users, vec![6, 7]);
    assert_eq!(g.name, "name");
    assert_eq!(g.description, "desc");
    assert_eq!((g.start_date, g.due_date, g.project_id), (11, 22, 3));
}

#[test]
fn update_user_keeps_id() {
    let mut m = ProjectManager::new();
    let u = m.add_user("a".to_string()).unwrap();
    let v = m.update_user(u.id, "b".to_string()).unwrap();
    assert_eq!(v.id, u.id);
    assert_eq!(m.get_user(u.id).unwrap().name, "b");
}

#[test]
fn assign_twice_fails_with_invalid_input() {
    let mut m = ProjectManager::new();
    let u = m.add_user("u".to_string()).unwrap().id;
    let t = m.add_task(0, "t".to_string(), "".to_string(), 0, 0, vec![]).unwrap().id;
    assert!(m.assign_task_to_user(t, u).is_ok());
    let e = m.assign_task_to_user(t, u).unwrap_err();
    assert_eq!(e.kind(), ErrorKind::InvalidInput);
    assert_eq!(e.message(), "Task with id=1 is already assigned to user with id=0");
    assert!(m.is_assigned(t, u));
    assert!(m.unassign_task_from_user(t, u).is_ok());
    assert!(!m.is_assigned(t, u));
}

#[test]
fn assign_requires_task_and_user() {
    let mut m = ProjectManager::new();
    let u = m.add_user("u".to_string()).unwrap().id;
    let t = m.add_task(0, "t".to_string(), "".to_string(), 0, 0, vec![]).unwrap().id;
    let e = m.assign_task_to_user(99, u).unwrap_err();
    assert!(not_found(&e));
    assert_eq!(e.message(), "Task with id=99 or user with id=0 not found");
    assert!(!m.is_assigned(99, u));
    let e = m.assign_task_to_user(t, 98).unwrap_err();
    assert!(not_found(&e));
    assert!(!m.is_assigned(t, 98));
    let e = m.assign_task_to_user(97, 96).unwrap_err();
    assert!(not_found(&e));
    // ids are shared across types, so a user id is no task id
    let e = m.assign_task_to_user(u, t).unwrap_err();
    assert!(not_found(&e));
    assert!(!m.is_assigned(u, t));
}

#[test]
fn unassign_removes_only_its_pair() {
    let mut m = ProjectManager::new();
    let u1 = m.add_user("a".to_string()).unwrap().id;
    let u2 = m.add_user("b".to_string()).unwrap().id;
    let t1 = m.add_task(0, "t".to_string(), "".to_string(), 0, 0, vec![]).unwrap().id;
    let t2 = m.add_task(0, "s".to_string(), "".to_string(), 0, 0, vec![]).unwrap().id;
    for &(t, u) in &[(t1, u1), (t1, u2), (t2, u1), (t2, u2)] {
        m.assign_task_to_user(t, u).unwrap();
    }
    assert!(m.unassign_task_from_user(t1, u2).is_ok());
    assert!(!m.is_assigned(t1, u2));
    assert!(m.is_assigned(t1, u1));
    assert!(m.is_assigned(t2, u1));
    assert!(m.is_assigned(t2, u2));
    let e = m.unassign_task_from_user(t1, u2).unwrap_err();
    assert!(not_found(&e));
    assert_eq!(e.message(), "Task with id=2 is not assigned to user with id=1");
}

#[test]
fn deletes_do_not_cascade_to_assignments() {
    let mut m = ProjectManager::new();
    let u = m.add_user("u".to_string()).unwrap().id;
    let t = m.add_task(0, "t".to_string(), "".to_string(), 0, 0, vec![]).unwrap().id;
    m.assign_task_to_user(t, u).unwrap();
    m.delete_task(t).unwrap();
    m.delete_user(u).unwrap();
    assert!(m.is_assigned(t, u));
    // unassign does not look the task or the user up
    assert!(m.unassign_task_from_user(t, u).is_ok());
}

#[test]
fn assignment_relation_is_independent_of_assigned_users() {
    let mut m = ProjectManager::new();
    let u = m.add_user("u".to_string()).unwrap().id;
    let t = m.add_task(0, "t".to_string(), "".to_string(), 0, 0, vec![42]).unwrap().id;
    m.assign_task_to_user(t, u).unwrap();
    assert_eq!(m.get_task(t).unwrap().assigned_users, vec![42]);
}

#[test]
fn id_generator_issues_consecutive_values() {
    let mut g = IdGenerator::new();
    assert_eq!(g.next_id(), 0);
    assert_eq!(g.next_id(), 1);
    assert_eq!(g.peek(), 2);
}

#[test]
fn large_ids_are_written_in_full() {
    let m = ProjectManager::new();
    let e = m.get_task(18446744073709551615).unwrap_err();
    assert_eq!(e.message(), "Task with id=18446744073709551615 not found");
    let e = m.get_user(1020304).unwrap_err();
    assert_eq!(e.message(), "User with id=1020304 not found");
}
