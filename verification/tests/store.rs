use taskforge::access::{authorize, decide, principal, role_is_elevated, Access, Operation, PrincipalFault};
use taskforge::error::AppError;
use taskforge::models::AuthUser;
use taskforge::store::tasks::TaskPatch;
use taskforge::store::{Store, StoreError};

const ALL: [Operation; 14] = [
    Operation::ViewOrganization,
    Operation::ListMembers,
    Operation::CreateProject,
    Operation::ListProjects,
    Operation::ViewProject,
    Operation::UpdateProject,
    Operation::DeleteProject,
    Operation::CreateTask,
    Operation::ListTasks,
    Operation::ViewTask,
    Operation::UpdateTask,
    Operation::DeleteTask,
    Operation::CreateComment,
    Operation::ListComments,
];

#[test]
fn every_member_may_do_everything_but_delete_projects() {
    for role in ["owner", "admin", "manager", "member", "Owner", "", "anything"] {
        for op in ALL {
            let expected = if op == Operation::DeleteProject && role != "owner" && role != "admin" {
                Access::Forbidden
            } else {
                Access::Permitted
            };
            assert_eq!(decide(op, &Some(role.to_string())), expected, "{:?} {:?}", op, role);
        }
    }
}

#[test]
fn strangers_are_refused_everything() {
    let hidden = [
        Operation::ViewOrganization,
        Operation::ListMembers,
        Operation::ListProjects,
        Operation::ViewProject,
        Operation::DeleteProject,
        Operation::ListTasks,
        Operation::ViewTask,
        Operation::DeleteTask,
        Operation::ListComments,
    ];
    for op in ALL {
        let expected = if hidden.contains(&op) { Access::NotFound } else { Access::Forbidden };
        assert_eq!(decide(op, &None), expected, "{:?}", op);
        let e = authorize(op, &None).unwrap_err();
        assert_eq!(e.status_code(), if hidden.contains(&op) { 404 } else { 403 });
    }
}

#[test]
fn elevated_roles_are_compared_exactly() {
    assert!(role_is_elevated("owner"));
    assert!(role_is_elevated("admin"));
    for role in ["Owner", "ADMIN", "manager", "member", "", "owner ", "administrator"] {
        assert!(!role_is_elevated(role), "{:?}", role);
    }
    assert!(authorize(Operation::DeleteProject, &Some("admin".to_string())).is_ok());
    match authorize(Operation::DeleteProject, &Some("member".to_string())) {
        Err(AppError::Authorization(m)) => assert_eq!(m, "Only organization owners and admins can delete projects"),
        other => panic!("{:?}", other),
    }
}

#[test]
fn principal_is_read_from_the_request_context() {
    let good = AuthUser { user_id: "550e8400-e29b-41d4-a716-446655440000".to_string() };
    assert_eq!(principal(&good, PrincipalFault::Internal).unwrap(), 0x550e8400_e29b_41d4_a716_446655440000);
    let bad = AuthUser { user_id: "someone".to_string() };
    match principal(&bad, PrincipalFault::Internal) {
        Err(AppError::InternalServerError(m)) => assert_eq!(m, "Invalid user ID"),
        other => panic!("{:?}", other),
    }
    match principal(&bad, PrincipalFault::Authentication) {
        Err(AppError::Authentication(m)) => assert_eq!(m, "Invalid user ID"),
        other => panic!("{:?}", other),
    }
}

#[test]
fn store_assigns_identifiers_in_turn() {
    let mut store = Store::new();
    let u = store.insert_user("a@x.com".to_string(), "h".to_string(), None, None, 1).unwrap();
    let o = store.insert_organization("Acme".to_string(), "acme".to_string(), None, 2).unwrap();
    let m = store.insert_member(o.id, u.id, "owner".to_string(), None, 3).unwrap();
    let p = store
        .insert_project(o.id, "P".to_string(), "p".to_string(), None, "planning".to_string(), None, u.id, 4)
        .unwrap();
    let t = store
        .insert_task(p.id, "t".to_string(), None, "todo".to_string(), "medium".to_string(), None, u.id, None, 0, 5)
        .unwrap();
    let c = store.insert_comment(t.id, u.id, "c".to_string(), 6).unwrap();
    assert_eq!((u.id, o.id, m.id, p.id, t.id, c.id), (1, 2, 3, 4, 5, 6));
    assert!(u.is_active && !u.is_email_verified);
    assert_eq!((u.email_verified_at, u.last_login_at, u.created_at, u.updated_at), (None, None, 1, 1));
    assert!(o.is_active);
    assert_eq!((o.logo_url, o.website, o.created_at, o.updated_at), (None, None, 2, 2));
    assert_eq!((m.organization_id, m.user_id, m.role.as_str(), m.invited_by, m.joined_at), (2, 1, "owner", None, 3));
    assert_eq!((t.completed_at, t.position), (None, 0));
}

#[test]
fn store_keeps_its_keys_unique() {
    let mut store = Store::new();
    store.insert_user("a@x.com".to_string(), "h".to_string(), None, None, 1).unwrap();
    assert_eq!(
        store.insert_user("A@X.com".to_string(), "h".to_string(), None, None, 1).unwrap_err(),
        StoreError::UniqueViolation
    );
    let o = store.insert_organization("Acme".to_string(), "acme".to_string(), None, 2).unwrap();
    assert_eq!(
        store.insert_organization("Acme 2".to_string(), "acme".to_string(), None, 2).unwrap_err(),
        StoreError::UniqueViolation
    );
    assert!(store.insert_organization("Acme 2".to_string(), "Acme".to_string(), None, 2).is_ok());
    assert!(store.organization_slug_exists("acme"));
    assert!(!store.organization_slug_exists("acm"));
    store.insert_member(o.id, 9, "member".to_string(), None, 3).unwrap();
    assert_eq!(
        store.insert_member(o.id, 9, "admin".to_string(), None, 3).unwrap_err(),
        StoreError::UniqueViolation
    );
    assert_eq!(
        store.insert_member(o.id + 100, 9, "admin".to_string(), None, 3).unwrap_err(),
        StoreError::ForeignKeyViolation
    );
    assert!(store.membership(o.id, 10).is_none());
    assert_eq!(store.membership(o.id, 9).unwrap().role, "member");
    store
        .insert_project(o.id, "P".to_string(), "p".to_string(), None, "s".to_string(), None, 9, 4)
        .unwrap();
    assert_eq!(
        store
            .insert_project(o.id, "Q".to_string(), "p".to_string(), None, "s".to_string(), None, 9, 4)
            .unwrap_err(),
        StoreError::UniqueViolation
    );
    assert!(store.project_slug_exists(o.id, "p"));
    assert!(!store.project_slug_exists(o.id + 1, "p"));
    assert_eq!(StoreError::UniqueViolation.description(), "duplicate key value violates unique constraint");
}

#[test]
fn store_resolves_roles_through_the_owning_organization() {
    let mut store = Store::new();
    let a = store.insert_organization("A".to_string(), "a".to_string(), None, 1).unwrap();
    let b = store.insert_organization("B".to_string(), "b".to_string(), None, 1).unwrap();
    store.insert_member(a.id, 100, "owner".to_string(), None, 2).unwrap();
    store.insert_member(b.id, 100, "member".to_string(), None, 2).unwrap();
    store.insert_member(b.id, 200, "admin".to_string(), None, 2).unwrap();
    let pa = store.insert_project(a.id, "P".to_string(), "p".to_string(), None, "s".to_string(), None, 100, 3).unwrap();
    let pb = store.insert_project(b.id, "P".to_string(), "p".to_string(), None, "s".to_string(), None, 200, 3).unwrap();
    let ta = store.insert_task(pa.id, "t".to_string(), None, "todo".to_string(), "m".to_string(), None, 100, None, 0, 4).unwrap();
    let tb = store.insert_task(pb.id, "t".to_string(), None, "todo".to_string(), "m".to_string(), None, 200, None, 0, 4).unwrap();
    assert_eq!(store.role_for_project(pa.id, 100).as_deref(), Some("owner"));
    assert_eq!(store.role_for_project(pb.id, 100).as_deref(), Some("member"));
    assert_eq!(store.role_for_project(pa.id, 200), None);
    assert_eq!(store.role_for_project(pb.id, 200).as_deref(), Some("admin"));
    assert_eq!(store.role_for_project(999, 100), None);
    assert_eq!(store.role_for_task(ta.id, 100).as_deref(), Some("owner"));
    assert_eq!(store.role_for_task(tb.id, 100).as_deref(), Some("member"));
    assert_eq!(store.role_for_task(ta.id, 200), None);
    assert_eq!(store.role_for_task(999, 200), None);
    assert!(store.project_for_member(pa.id, 200).is_none());
    assert_eq!(store.project_for_member(pb.id, 200).unwrap().id, pb.id);
    assert!(store.task_for_member(ta.id, 200).is_none());
    assert_eq!(store.task_for_member(ta.id, 100).unwrap().id, ta.id);
    assert_eq!(store.project_for_member(pa.id, 100).unwrap().organization_id, a.id);
}

#[test]
fn store_finds_the_greatest_position_of_a_column() {
    let mut store = Store::new();
    assert_eq!(store.max_position(1, "todo"), None);
    for (project, status, position) in [(1u128, "todo", 3), (1, "todo", -5), (1, "done", 7), (2, "todo", 9), (1, "todo", 4)] {
        store
            .insert_task(project, "t".to_string(), None, status.to_string(), "m".to_string(), None, 1, None, position, 1)
            .unwrap();
    }
    assert_eq!(store.max_position(1, "todo"), Some(4));
    assert_eq!(store.max_position(1, "done"), Some(7));
    assert_eq!(store.max_position(2, "todo"), Some(9));
    assert_eq!(store.max_position(2, "done"), None);
    assert_eq!(store.max_position(1, "TODO"), None);
}

#[test]
fn store_updates_and_deletes_by_identifier() {
    let mut store = Store::new();
    let empty = || TaskPatch {
        title: None,
        description: None,
        status: None,
        priority: None,
        assigned_to: None,
        due_date: None,
        position: None,
        completed_at: None,
    };
    assert_eq!(store.update_task(1, empty(), 1).unwrap_err(), StoreError::RowNotFound);
    assert_eq!(store.update_project(1, None, None, None, None, 1).unwrap_err(), StoreError::RowNotFound);
    let t = store
        .insert_task(1, "t".to_string(), Some("d".to_string()), "todo".to_string(), "m".to_string(), Some(5), 1, Some(6), 0, 1)
        .unwrap();
    let u = store
        .insert_task(1, "u".to_string(), None, "todo".to_string(), "m".to_string(), None, 1, None, 1, 1)
        .unwrap();
    let mut patch = empty();
    patch.completed_at = Some(9);
    patch.assigned_to = Some(8);
    let updated = store.update_task(t.id, patch, 2).unwrap();
    assert_eq!((updated.completed_at, updated.assigned_to, updated.due_date, updated.description.as_deref(), updated.updated_at), (Some(9), Some(8), Some(6), Some("d"), 2));
    let untouched = store.update_task(t.id, empty(), 3).unwrap();
    assert_eq!((untouched.completed_at, untouched.assigned_to, untouched.updated_at), (Some(9), Some(8), 3));
    store.delete_task(t.id);
    store.delete_task(t.id);
    let left: Vec<u128> = store.tasks_of_project(1).iter().map(|x| x.id).collect();
    assert_eq!(left, vec![u.id]);
    store.record_login(42, 1);
    assert!(store.user_by_id(42).is_none());
    assert!(store.active_organization(1).is_none());
}
