use taskforge::store::protocol::{
    comment_at, comments_at, done_at, flag_at, member_at, members_at, organization_at,
    organizations_at, position_at, project_at, projects_at, role_at, task_at, tasks_at, user_at,
    Fault, Reply, Statement,
};
use taskforge::store::tasks::TaskPatch;
use taskforge::store::Store;

fn seeded() -> Store {
    let mut store = Store::new();
    store.insert_user("a@x.com".to_string(), "h".to_string(), None, None, 1).unwrap();
    let o = store.insert_organization("Acme".to_string(), "acme".to_string(), None, 2).unwrap();
    store.insert_member(o.id, 1, "owner".to_string(), None, 3).unwrap();
    let p = store
        .insert_project(o.id, "P".to_string(), "p".to_string(), None, "planning".to_string(), None, 1, 4)
        .unwrap();
    let t = store
        .insert_task(p.id, "t".to_string(), None, "todo".to_string(), "medium".to_string(), None, 1, None, 0, 5)
        .unwrap();
    store.insert_comment(t.id, 1, "c".to_string(), 6).unwrap();
    store
}

#[test]
fn reads_reply_with_what_the_store_holds() {
    let mut store = seeded();
    match store.perform(Statement::UserByEmail { email: "A@X.COM".to_string() }, 0) {
        Reply::User(Some(u)) => assert_eq!(u.id, 1),
        other => panic!("{:?}", other),
    }
    assert!(matches!(store.perform(Statement::UserById { id: 99 }, 0), Reply::User(None)));
    assert!(matches!(store.perform(Statement::OrganizationSlugExists { slug: "acme".to_string() }, 0), Reply::Flag(true)));
    assert!(matches!(store.perform(Statement::OrganizationSlugExists { slug: "other".to_string() }, 0), Reply::Flag(false)));
    match store.perform(Statement::Membership { organization_id: 2, user_id: 1 }, 0) {
        Reply::Member(Some(m)) => assert_eq!(m.role, "owner"),
        other => panic!("{:?}", other),
    }
    assert!(matches!(store.perform(Statement::Membership { organization_id: 2, user_id: 5 }, 0), Reply::Member(None)));
    assert!(matches!(store.perform(Statement::ActiveOrganization { id: 2 }, 0), Reply::Organization(Some(_))));
    match store.perform(Statement::OrganizationsOfUser { user_id: 1 }, 0) {
        Reply::Organizations(rows) => assert_eq!((rows.len(), rows[0].role.as_str()), (1, "owner")),
        other => panic!("{:?}", other),
    }
    match store.perform(Statement::MembersOfOrganization { organization_id: 2 }, 0) {
        Reply::Members(rows) => assert_eq!((rows.len(), rows[0].user.email.as_str()), (1, "a@x.com")),
        other => panic!("{:?}", other),
    }
    assert!(matches!(store.perform(Statement::ProjectSlugExists { organization_id: 2, slug: "p".to_string() }, 0), Reply::Flag(true)));
    match store.perform(Statement::ProjectsOfOrganization { organization_id: 2 }, 0) {
        Reply::Projects(rows) => assert_eq!(rows.len(), 1),
        other => panic!("{:?}", other),
    }
    assert!(matches!(store.perform(Statement::ProjectForMember { project_id: 4, user_id: 1 }, 0), Reply::Project(Some(_))));
    assert!(matches!(store.perform(Statement::ProjectForMember { project_id: 4, user_id: 2 }, 0), Reply::Project(None)));
    match store.perform(Statement::RoleForProject { project_id: 4, user_id: 1 }, 0) {
        Reply::Role(role) => assert_eq!(role.as_deref(), Some("owner")),
        other => panic!("{:?}", other),
    }
    match store.perform(Statement::RoleForTask { task_id: 5, user_id: 1 }, 0) {
        Reply::Role(role) => assert_eq!(role.as_deref(), Some("owner")),
        other => panic!("{:?}", other),
    }
    assert!(matches!(store.perform(Statement::MaxPosition { project_id: 4, status: "todo".to_string() }, 0), Reply::Position(Some(0))));
    assert!(matches!(store.perform(Statement::MaxPosition { project_id: 4, status: "done".to_string() }, 0), Reply::Position(None)));
    match store.perform(Statement::TasksOfProject { project_id: 4 }, 0) {
        Reply::Tasks(rows) => assert_eq!(rows.len(), 1),
        other => panic!("{:?}", other),
    }
    assert!(matches!(store.perform(Statement::TaskForMember { task_id: 5, user_id: 1 }, 0), Reply::Task(Some(_))));
    match store.perform(Statement::CommentsOfTask { task_id: 5 }, 0) {
        Reply::Comments(rows) => assert_eq!(rows[0].content, "c"),
        other => panic!("{:?}", other),
    }
}

#[test]
fn writes_reply_with_the_new_row_or_the_refusal() {
    let mut store = seeded();
    match store.perform(
        Statement::InsertUser { email: "b@x.com".to_string(), password_hash: "h".to_string(), first_name: None, last_name: None },
        10,
    ) {
        Reply::User(Some(u)) => assert_eq!((u.id, u.created_at), (7, 10)),
        other => panic!("{:?}", other),
    }
    match store.perform(
        Statement::InsertUser { email: "B@x.com".to_string(), password_hash: "h".to_string(), first_name: None, last_name: None },
        10,
    ) {
        Reply::Failed(text) => assert_eq!(text, "duplicate key value violates unique constraint"),
        other => panic!("{:?}", other),
    }
    assert!(matches!(store.perform(Statement::RecordLogin { id: 1 }, 11), Reply::Done));
    assert_eq!(store.user_by_id(1).unwrap().last_login_at, Some(11));
    match store.perform(Statement::InsertOrganization { name: "X".to_string(), slug: "acme".to_string(), description: None }, 12) {
        Reply::Failed(text) => assert_eq!(text, "duplicate key value violates unique constraint"),
        other => panic!("{:?}", other),
    }
    match store.perform(Statement::InsertMember { organization_id: 99, user_id: 1, role: "member".to_string(), invited_by: None }, 12) {
        Reply::Failed(text) => assert_eq!(text, "insert or update violates foreign key constraint"),
        other => panic!("{:?}", other),
    }
    match store.perform(Statement::InsertMember { organization_id: 2, user_id: 7, role: "member".to_string(), invited_by: Some(1) }, 12) {
        Reply::Member(Some(m)) => assert_eq!((m.user_id, m.invited_by, m.joined_at), (7, Some(1), 12)),
        other => panic!("{:?}", other),
    }
    match store.perform(
        Statement::UpdateProject { id: 4, name: Some("Q".to_string()), description: None, status: None, color: None },
        13,
    ) {
        Reply::Project(Some(p)) => assert_eq!((p.name.as_str(), p.slug.as_str(), p.updated_at), ("Q", "p", 13)),
        other => panic!("{:?}", other),
    }
    match store.perform(Statement::UpdateProject { id: 99, name: None, description: None, status: None, color: None }, 13) {
        Reply::Failed(text) => assert_eq!(text, "no rows returned by a query that expected to return at least one row"),
        other => panic!("{:?}", other),
    }
    let patch = TaskPatch { title: None, description: None, status: Some("done".to_string()), priority: None, assigned_to: None, due_date: None, position: None, completed_at: Some(14) };
    match store.perform(Statement::UpdateTask { id: 5, patch }, 14) {
        Reply::Task(Some(t)) => assert_eq!((t.status.as_str(), t.completed_at, t.updated_at), ("done", Some(14), 14)),
        other => panic!("{:?}", other),
    }
    match store.perform(Statement::InsertComment { task_id: 5, user_id: 7, content: "d".to_string() }, 15) {
        Reply::Comment(Some(c)) => assert_eq!((c.user_id, c.created_at), (7, 15)),
        other => panic!("{:?}", other),
    }
    assert!(matches!(store.perform(Statement::DeleteTask { id: 5 }, 0), Reply::Done));
    assert!(matches!(store.perform(Statement::TaskForMember { task_id: 5, user_id: 1 }, 0), Reply::Task(None)));
    assert!(matches!(store.perform(Statement::DeleteProject { id: 4 }, 0), Reply::Done));
    assert!(matches!(store.perform(Statement::ProjectForMember { project_id: 4, user_id: 1 }, 0), Reply::Project(None)));
    match store.perform(
        Statement::InsertProject { organization_id: 2, name: "N".to_string(), slug: "p".to_string(), description: None, status: "s".to_string(), color: None, created_by: 1 },
        16,
    ) {
        Reply::Project(Some(p)) => assert_eq!(p.slug, "p"),
        other => panic!("{:?}", other),
    }
    match store.perform(
        Statement::InsertTask { project_id: 4, title: "t".to_string(), description: None, status: "todo".to_string(), priority: "low".to_string(), assigned_to: None, created_by: 1, due_date: None, position: 3 },
        17,
    ) {
        Reply::Task(Some(t)) => assert_eq!((t.position, t.completed_at), (3, None)),
        other => panic!("{:?}", other),
    }
}

#[test]
fn replies_are_read_by_their_kind() {
    let replies = vec![
        Reply::Flag(true),
        Reply::Role(Some("owner".to_string())),
        Reply::Position(Some(3)),
        Reply::Done,
        Reply::Failed("down".to_string()),
        Reply::User(None),
        Reply::Organization(None),
        Reply::Member(None),
        Reply::Project(None),
        Reply::Task(None),
        Reply::Comment(None),
        Reply::Organizations(vec![]),
        Reply::Members(vec![]),
        Reply::Projects(vec![]),
        Reply::Tasks(vec![]),
        Reply::Comments(vec![]),
    ];
    assert_eq!(flag_at(&replies, 0).unwrap(), Some(&true));
    assert_eq!(role_at(&replies, 1).unwrap().unwrap().as_deref(), Some("owner"));
    assert_eq!(position_at(&replies, 2).unwrap(), Some(&Some(3)));
    assert_eq!(done_at(&replies, 3).unwrap(), true);
    assert_eq!(done_at(&replies, 16).unwrap(), false);
    assert!(matches!(user_at(&replies, 5), Ok(Some(None))));
    assert!(matches!(organization_at(&replies, 6), Ok(Some(None))));
    assert!(matches!(member_at(&replies, 7), Ok(Some(None))));
    assert!(matches!(project_at(&replies, 8), Ok(Some(None))));
    assert!(matches!(task_at(&replies, 9), Ok(Some(None))));
    assert!(matches!(comment_at(&replies, 10), Ok(Some(None))));
    assert_eq!(organizations_at(&replies, 11).unwrap().unwrap().len(), 0);
    assert_eq!(members_at(&replies, 12).unwrap().unwrap().len(), 0);
    assert_eq!(projects_at(&replies, 13).unwrap().unwrap().len(), 0);
    assert_eq!(tasks_at(&replies, 14).unwrap().unwrap().len(), 0);
    assert_eq!(comments_at(&replies, 15).unwrap().unwrap().len(), 0);
    assert!(matches!(flag_at(&replies, 16), Ok(None)));
    assert!(matches!(flag_at(&replies, 1), Err(Fault::Unexpected)));
    assert!(matches!(role_at(&replies, 0), Err(Fault::Unexpected)));
    match flag_at(&replies, 4) {
        Err(Fault::Failed(text)) => assert_eq!(text, "down"),
        other => panic!("{:?}", other),
    }
    match done_at(&replies, 4) {
        Err(Fault::Failed(text)) => assert_eq!(text, "down"),
        other => panic!("{:?}", other),
    }
    assert!(matches!(done_at(&replies, 0), Err(Fault::Unexpected)));
}
