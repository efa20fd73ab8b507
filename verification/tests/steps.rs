use taskforge::api::auth::{login_step, me_step, register_step, LoginRequest, RegisterRequest};
use taskforge::api::organizations::{
    create_organization_step, get_my_organizations_step, get_organization_members_step,
    get_organization_step, CreateOrganizationRequest,
};
use taskforge::api::projects::{
    create_project, create_project_step, delete_project_step, get_organization_projects_step,
    get_project_step, update_project_step,
};
use taskforge::api::tasks::{
    create_comment_step, create_task_step, delete_task_step, get_project_tasks_step,
    get_task_comments_step, get_task_step, update_task_step,
};
use taskforge::config::{
    Config, CorsConfig, DatabaseConfig, JwtConfig, RedisConfig, ServerConfig, StorageConfig,
};
use taskforge::credentials::{validate_token, verify_password};
use taskforge::error::AppError;
use taskforge::ident::{id_to_text, parse_id};
use taskforge::models::{
    AuthUser, CreateCommentRequest, CreateProjectRequest, CreateTaskRequest, Organization,
    OrganizationMember, Project, Task, TaskComment, UpdateProjectRequest, UpdateTaskRequest, User,
};
use taskforge::state::AppState;
use taskforge::store::protocol::{Progress, Reply, Statement};
use taskforge::store::Store;

fn caller(id: u128) -> AuthUser {
    AuthUser { user_id: id_to_text(id) }
}

fn jwt() -> JwtConfig {
    JwtConfig { secret: "test-secret-key".to_string(), expiration: 3600 }
}

fn fresh_state() -> AppState {
    AppState {
        store: Store::new(),
        config: Config {
            server: ServerConfig { host: "h".to_string(), port: 1 },
            database: DatabaseConfig { url: "u".to_string(), max_connections: 1 },
            redis: RedisConfig { url: "r".to_string() },
            jwt: jwt(),
            storage: StorageConfig {
                s3_endpoint: "e".to_string(),
                s3_access_key: "a".to_string(),
                s3_secret_key: "s".to_string(),
                s3_bucket: "b".to_string(),
                s3_region: "r".to_string(),
                max_file_size: 1,
                upload_dir: "d".to_string(),
            },
            cors: CorsConfig { origin: "o".to_string() },
        },
    }
}

fn member(role: &str) -> OrganizationMember {
    OrganizationMember {
        id: 9,
        organization_id: 2,
        user_id: 1,
        role: role.to_string(),
        invited_by: None,
        joined_at: 0,
    }
}

fn organization() -> Organization {
    Organization {
        id: 2,
        name: "Acme".to_string(),
        slug: "acme".to_string(),
        description: None,
        logo_url: None,
        website: None,
        is_active: true,
        created_at: 5,
        updated_at: 5,
    }
}

fn project() -> Project {
    Project {
        id: 3,
        organization_id: 2,
        name: "Pilot".to_string(),
        slug: "pilot".to_string(),
        description: None,
        status: "planning".to_string(),
        color: Some("#3B82F6".to_string()),
        created_by: 1,
        created_at: 6,
        updated_at: 6,
    }
}

fn task() -> Task {
    Task {
        id: 4,
        project_id: 3,
        title: "t".to_string(),
        description: None,
        status: "todo".to_string(),
        priority: "medium".to_string(),
        assigned_to: None,
        created_by: 1,
        due_date: None,
        completed_at: None,
        position: 0,
        created_at: 7,
        updated_at: 7,
    }
}

fn user(active: bool, password_hash: &str) -> User {
    User {
        id: 1,
        email: "a@x.com".to_string(),
        password_hash: password_hash.to_string(),
        first_name: None,
        last_name: None,
        is_active: active,
        is_email_verified: false,
        email_verified_at: None,
        last_login_at: None,
        created_at: 1,
        updated_at: 1,
    }
}

fn new_project_request() -> CreateProjectRequest {
    CreateProjectRequest {
        name: "Pilot".to_string(),
        slug: "pilot".to_string(),
        description: None,
        status: None,
        color: None,
    }
}

fn failed() -> Reply {
    Reply::Failed("connection reset".to_string())
}

fn database_error<T: std::fmt::Debug>(step: Result<Progress<T>, AppError>, message: &str) {
    match step {
        Err(AppError::DatabaseError(m)) => assert_eq!(m, message),
        other => panic!("{:?}", other),
    }
}

fn unexpected<T: std::fmt::Debug>(step: Result<Progress<T>, AppError>) {
    match step {
        Err(AppError::Internal(m)) => assert_eq!(m, "Unexpected reply from the store"),
        other => panic!("{:?}", other),
    }
}

#[test]
fn creation_of_a_project_step_by_step() {
    let who = caller(1);
    let request = new_project_request();
    let mut replies = Vec::new();

    match create_project_step(&who, 2, &request, &replies).unwrap() {
        Progress::Ask(Statement::Membership { organization_id, user_id }) => {
            assert_eq!((organization_id, user_id), (2, 1))
        }
        other => panic!("{:?}", other),
    }
    replies.push(Reply::Member(Some(member("member"))));
    match create_project_step(&who, 2, &request, &replies).unwrap() {
        Progress::Ask(Statement::ProjectSlugExists { organization_id, slug }) => {
            assert_eq!((organization_id, slug.as_str()), (2, "pilot"))
        }
        other => panic!("{:?}", other),
    }
    replies.push(Reply::Flag(false));
    match create_project_step(&who, 2, &request, &replies).unwrap() {
        Progress::Ask(Statement::InsertProject {
            organization_id,
            name,
            slug,
            description,
            status,
            color,
            created_by,
        }) => {
            assert_eq!((organization_id, name.as_str(), slug.as_str(), description), (2, "Pilot", "pilot", None));
            assert_eq!((status.as_str(), color.as_deref(), created_by), ("planning", Some("#3B82F6"), 1));
        }
        other => panic!("{:?}", other),
    }
    replies.push(Reply::Project(Some(project())));
    match create_project_step(&who, 2, &request, &replies).unwrap() {
        Progress::Finished((code, response)) => {
            assert_eq!(code, 201);
            assert_eq!((response.id, response.name.as_str(), response.created_at), (3, "Pilot", 6));
        }
        other => panic!("{:?}", other),
    }
}

#[test]
fn creation_of_a_project_ends_at_the_first_refusal() {
    let who = caller(1);
    let request = new_project_request();
    match create_project_step(&AuthUser { user_id: "x".to_string() }, 2, &request, &vec![]) {
        Err(AppError::Authentication(m)) => assert_eq!(m, "Invalid user ID"),
        other => panic!("{:?}", other),
    }
    match create_project_step(&who, 2, &request, &vec![Reply::Member(None)]) {
        Err(e @ AppError::Authorization(_)) => assert_eq!(e.status_code(), 403),
        other => panic!("{:?}", other),
    }
    match create_project_step(&who, 2, &request, &vec![Reply::Member(Some(member("member"))), Reply::Flag(true)]) {
        Err(e @ AppError::Conflict(_)) => assert_eq!(e.status_code(), 409),
        other => panic!("{:?}", other),
    }
    match create_project_step(&who, 2, &request, &vec![Reply::Member(None), Reply::Flag(false), Reply::Project(Some(project()))]) {
        Err(e @ AppError::Authorization(_)) => assert_eq!(e.status_code(), 403),
        other => panic!("{:?}", other),
    }
}

#[test]
fn failed_statements_of_projects_are_reported_without_their_detail() {
    let who = caller(1);
    let request = new_project_request();
    let m = || Reply::Member(Some(member("owner")));
    database_error(create_project_step(&who, 2, &request, &vec![failed()]), "Failed to check organization membership");
    database_error(create_project_step(&who, 2, &request, &vec![m(), failed()]), "Failed to check project slug");
    database_error(create_project_step(&who, 2, &request, &vec![m(), Reply::Flag(false), failed()]), "Failed to create project");
    unexpected(create_project_step(&who, 2, &request, &vec![Reply::Done]));
    unexpected(create_project_step(&who, 2, &request, &vec![m(), Reply::Role(None)]));
    unexpected(create_project_step(&who, 2, &request, &vec![m(), Reply::Flag(false), Reply::Project(None)]));

    database_error(get_organization_projects_step(&who, 2, &vec![failed()]), "Failed to check organization membership");
    database_error(get_organization_projects_step(&who, 2, &vec![m(), failed()]), "Failed to fetch projects");
    database_error(get_project_step(&who, 3, &vec![failed()]), "Failed to fetch project");
    let patch = UpdateProjectRequest { name: None, description: None, status: None, color: None };
    let r = || Reply::Role(Some("member".to_string()));
    database_error(update_project_step(&who, 3, &patch, &vec![failed()]), "Failed to check project access");
    database_error(update_project_step(&who, 3, &patch, &vec![r(), failed()]), "Failed to update project");
    database_error(delete_project_step(&who, 3, &vec![failed()]), "Failed to check project access");
    database_error(delete_project_step(&who, 3, &vec![Reply::Role(Some("owner".to_string())), failed()]), "Failed to delete project");
}

#[test]
fn failed_statements_of_tasks_are_reported_without_their_detail() {
    let who = caller(1);
    let r = || Reply::Role(Some("member".to_string()));
    let request = CreateTaskRequest { title: "t".to_string(), description: None, status: None, priority: None, assigned_to: None, due_date: None };
    database_error(create_task_step(&who, 3, &request, &vec![failed()]), "Failed to check project access");
    database_error(create_task_step(&who, 3, &request, &vec![r(), failed()]), "Failed to get max position");
    database_error(create_task_step(&who, 3, &request, &vec![r(), Reply::Position(None), failed()]), "Failed to create task");
    database_error(get_project_tasks_step(&who, 3, &vec![r(), failed()]), "Failed to fetch tasks");
    database_error(get_task_step(&who, 4, &vec![failed()]), "Failed to fetch task");
    let patch = UpdateTaskRequest { title: None, description: None, status: None, priority: None, assigned_to: None, due_date: None, position: None };
    database_error(update_task_step(&who, 4, &patch, 9, &vec![failed()]), "Failed to check task access");
    database_error(update_task_step(&who, 4, &patch, 9, &vec![r(), failed()]), "Failed to update task");
    database_error(delete_task_step(&who, 4, &vec![r(), failed()]), "Failed to delete task");
    let comment = CreateCommentRequest { content: "c".to_string() };
    database_error(create_comment_step(&who, 4, &comment, &vec![r(), failed()]), "Failed to create comment");
    database_error(get_task_comments_step(&who, 4, &vec![r(), failed()]), "Failed to fetch comments");
    unexpected(get_task_step(&who, 4, &vec![Reply::Flag(true)]));
}

#[test]
fn creation_of_a_task_asks_for_the_column_and_takes_the_next_position() {
    let who = caller(1);
    let request = CreateTaskRequest { title: "t".to_string(), description: None, status: Some("doing".to_string()), priority: None, assigned_to: Some(5), due_date: Some(6) };
    let r = || Reply::Role(Some("member".to_string()));
    match create_task_step(&who, 3, &request, &vec![r()]).unwrap() {
        Progress::Ask(Statement::MaxPosition { project_id, status }) => assert_eq!((project_id, status.as_str()), (3, "doing")),
        other => panic!("{:?}", other),
    }
    for (top, expected) in [(None, 0), (Some(0), 1), (Some(41), 42), (Some(-7), -6)] {
        match create_task_step(&who, 3, &request, &vec![r(), Reply::Position(top)]).unwrap() {
            Progress::Ask(Statement::InsertTask { project_id, title, status, priority, assigned_to, created_by, due_date, position, .. }) => {
                assert_eq!((project_id, title.as_str(), status.as_str(), priority.as_str()), (3, "t", "doing", "medium"));
                assert_eq!((assigned_to, created_by, due_date, position), (Some(5), 1, Some(6), expected));
            }
            other => panic!("{:?}", other),
        }
    }
    match create_task_step(&who, 3, &request, &vec![r(), Reply::Position(Some(i32::MAX))]) {
        Err(AppError::Internal(m)) => assert_eq!(m, "Task position out of range"),
        other => panic!("{:?}", other),
    }
    match create_task_step(&who, 3, &request, &vec![r(), Reply::Position(None), Reply::Task(Some(task()))]).unwrap() {
        Progress::Finished((code, response)) => assert_eq!((code, response.id), (201, 4)),
        other => panic!("{:?}", other),
    }
}

#[test]
fn update_of_a_task_carries_the_instant_of_completion() {
    let who = caller(1);
    let r = || Reply::Role(Some("member".to_string()));
    let mut patch = UpdateTaskRequest { title: None, description: None, status: Some("done".to_string()), priority: None, assigned_to: None, due_date: None, position: Some(3) };
    match update_task_step(&who, 4, &patch, 99, &vec![r()]).unwrap() {
        Progress::Ask(Statement::UpdateTask { id, patch }) => {
            assert_eq!((id, patch.status.as_deref(), patch.position, patch.completed_at), (4, Some("done"), Some(3), Some(99)))
        }
        other => panic!("{:?}", other),
    }
    patch.status = Some("todo".to_string());
    match update_task_step(&who, 4, &patch, 99, &vec![r()]).unwrap() {
        Progress::Ask(Statement::UpdateTask { patch, .. }) => assert_eq!(patch.completed_at, None),
        other => panic!("{:?}", other),
    }
    match update_task_step(&who, 4, &patch, 99, &vec![Reply::Role(None)]) {
        Err(e) => assert_eq!(e.status_code(), 403),
        other => panic!("{:?}", other),
    }
}

#[test]
fn deletion_steps_follow_the_role() {
    let who = caller(1);
    match delete_project_step(&who, 3, &vec![]).unwrap() {
        Progress::Ask(Statement::RoleForProject { project_id, user_id }) => assert_eq!((project_id, user_id), (3, 1)),
        other => panic!("{:?}", other),
    }
    for role in ["member", "manager"] {
        match delete_project_step(&who, 3, &vec![Reply::Role(Some(role.to_string()))]) {
            Err(e) => assert_eq!(e.status_code(), 403),
            other => panic!("{:?}", other),
        }
    }
    match delete_project_step(&who, 3, &vec![Reply::Role(None)]) {
        Err(e) => assert_eq!(e.status_code(), 404),
        other => panic!("{:?}", other),
    }
    match delete_project_step(&who, 3, &vec![Reply::Role(Some("admin".to_string()))]).unwrap() {
        Progress::Ask(Statement::DeleteProject { id }) => assert_eq!(id, 3),
        other => panic!("{:?}", other),
    }
    match delete_project_step(&who, 3, &vec![Reply::Role(Some("admin".to_string())), Reply::Done]).unwrap() {
        Progress::Finished(code) => assert_eq!(code, 204),
        other => panic!("{:?}", other),
    }
    match delete_task_step(&who, 4, &vec![Reply::Role(Some("member".to_string()))]).unwrap() {
        Progress::Ask(Statement::DeleteTask { id }) => assert_eq!(id, 4),
        other => panic!("{:?}", other),
    }
    match delete_task_step(&who, 4, &vec![Reply::Role(None)]) {
        Err(e) => assert_eq!(e.status_code(), 404),
        other => panic!("{:?}", other),
    }
}

#[test]
fn creation_of_an_organization_step_by_step() {
    let who = caller(1);
    let request = CreateOrganizationRequest { name: "Acme".to_string(), slug: "acme".to_string(), description: None };
    match create_organization_step(&who, &request, &vec![]).unwrap() {
        Progress::Ask(Statement::OrganizationSlugExists { slug }) => assert_eq!(slug, "acme"),
        other => panic!("{:?}", other),
    }
    match create_organization_step(&who, &request, &vec![Reply::Flag(false)]).unwrap() {
        Progress::Ask(Statement::InsertOrganization { name, slug, description }) => {
            assert_eq!((name.as_str(), slug.as_str(), description), ("Acme", "acme", None))
        }
        other => panic!("{:?}", other),
    }
    let made = || Reply::Organization(Some(organization()));
    match create_organization_step(&who, &request, &vec![Reply::Flag(false), made()]).unwrap() {
        Progress::Ask(Statement::InsertMember { organization_id, user_id, role, invited_by }) => {
            assert_eq!((organization_id, user_id, role.as_str(), invited_by), (2, 1, "owner", None))
        }
        other => panic!("{:?}", other),
    }
    match create_organization_step(&who, &request, &vec![Reply::Flag(false), made(), Reply::Member(Some(member("owner")))]).unwrap() {
        Progress::Finished((code, response)) => {
            assert_eq!((code, response.id, response.role.as_deref()), (201, 2, Some("owner")))
        }
        other => panic!("{:?}", other),
    }
    match create_organization_step(&who, &request, &vec![Reply::Flag(true)]) {
        Err(AppError::Conflict(m)) => assert_eq!(m, "Organization with slug 'acme' already exists"),
        other => panic!("{:?}", other),
    }
    database_error(create_organization_step(&who, &request, &vec![failed()]), "connection reset");
    database_error(create_organization_step(&who, &request, &vec![Reply::Flag(false), failed()]), "connection reset");
    database_error(create_organization_step(&who, &request, &vec![Reply::Flag(false), made(), failed()]), "connection reset");
    database_error(get_my_organizations_step(&who, &vec![failed()]), "connection reset");
    database_error(get_organization_step(&who, 2, &vec![Reply::Member(Some(member("member"))), failed()]), "connection reset");
    database_error(get_organization_members_step(&who, 2, &vec![failed()]), "connection reset");
}

#[test]
fn reading_an_organization_step_by_step() {
    let who = caller(1);
    match get_organization_step(&who, 2, &vec![]).unwrap() {
        Progress::Ask(Statement::Membership { organization_id, user_id }) => assert_eq!((organization_id, user_id), (2, 1)),
        other => panic!("{:?}", other),
    }
    match get_organization_step(&who, 2, &vec![Reply::Member(None)]) {
        Err(AppError::NotFound(m)) => assert_eq!(m, "Organization not found or you don't have access"),
        other => panic!("{:?}", other),
    }
    match get_organization_step(&who, 2, &vec![Reply::Member(Some(member("manager")))]).unwrap() {
        Progress::Ask(Statement::ActiveOrganization { id }) => assert_eq!(id, 2),
        other => panic!("{:?}", other),
    }
    match get_organization_step(&who, 2, &vec![Reply::Member(Some(member("manager"))), Reply::Organization(None)]) {
        Err(AppError::NotFound(m)) => assert_eq!(m, "Organization not found"),
        other => panic!("{:?}", other),
    }
    match get_organization_step(&who, 2, &vec![Reply::Member(Some(member("manager"))), Reply::Organization(Some(organization()))]).unwrap() {
        Progress::Finished(response) => assert_eq!((response.id, response.role.as_deref()), (2, Some("manager"))),
        other => panic!("{:?}", other),
    }
}

#[test]
fn registration_step_by_step() {
    let config = jwt();
    let request = RegisterRequest { email: "a@x.com".to_string(), password: "password123".to_string(), first_name: None, last_name: Some("L".to_string()) };
    match register_step(&config, &request, &vec![]).unwrap() {
        Progress::Ask(Statement::UserByEmail { email }) => assert_eq!(email, "a@x.com"),
        other => panic!("{:?}", other),
    }
    match register_step(&config, &request, &vec![Reply::User(Some(user(true, "h")))]) {
        Err(AppError::Conflict(m)) => assert_eq!(m, "Email already registered"),
        other => panic!("{:?}", other),
    }
    let hash = match register_step(&config, &request, &vec![Reply::User(None)]).unwrap() {
        Progress::Ask(Statement::InsertUser { email, password_hash, first_name, last_name }) => {
            assert_eq!((email.as_str(), first_name, last_name.as_deref()), ("a@x.com", None, Some("L")));
            assert!(verify_password("password123", &password_hash).unwrap());
            password_hash
        }
        other => panic!("{:?}", other),
    };
    match register_step(&config, &request, &vec![Reply::User(None), Reply::User(Some(user(true, &hash)))]).unwrap() {
        Progress::Finished((code, response)) => {
            assert_eq!((code, response.user.id), (201, 1));
            let claims = validate_token(&response.token, "test-secret-key").unwrap();
            assert_eq!(parse_id(&claims.sub), Some(1));
        }
        other => panic!("{:?}", other),
    }
    match register_step(&config, &request, &vec![failed()]) {
        Err(AppError::Database(m)) => assert_eq!(m, "connection reset"),
        other => panic!("{:?}", other),
    }
    match register_step(&config, &request, &vec![Reply::User(None), failed()]) {
        Err(e @ AppError::Database(_)) => assert_eq!(e.client_message(), "Database error occurred"),
        other => panic!("{:?}", other),
    }
    unexpected(register_step(&config, &request, &vec![Reply::User(None), Reply::User(None)]));
}

#[test]
fn login_step_by_step() {
    let config = jwt();
    let hash = taskforge::credentials::hash_password("password123").unwrap();
    let request = LoginRequest { email: "a@x.com".to_string(), password: "password123".to_string() };
    match login_step(&config, &request, &vec![]).unwrap() {
        Progress::Ask(Statement::UserByEmail { email }) => assert_eq!(email, "a@x.com"),
        other => panic!("{:?}", other),
    }
    match login_step(&config, &request, &vec![Reply::User(None)]) {
        Err(AppError::Authentication(m)) => assert_eq!(m, "Invalid credentials"),
        other => panic!("{:?}", other),
    }
    match login_step(&config, &request, &vec![Reply::User(Some(user(false, &hash)))]) {
        Err(AppError::Authentication(m)) => assert_eq!(m, "Account is deactivated"),
        other => panic!("{:?}", other),
    }
    match login_step(&config, &request, &vec![Reply::User(Some(user(true, "garbage")))]) {
        Err(AppError::Authentication(m)) => assert_eq!(m, "Invalid credentials"),
        other => panic!("{:?}", other),
    }
    match login_step(&config, &request, &vec![Reply::User(Some(user(true, &hash)))]).unwrap() {
        Progress::Ask(Statement::RecordLogin { id }) => assert_eq!(id, 1),
        other => panic!("{:?}", other),
    }
    match login_step(&config, &request, &vec![Reply::User(Some(user(true, &hash))), Reply::Done]).unwrap() {
        Progress::Finished(response) => {
            assert_eq!(response.user.email, "a@x.com");
            assert!(validate_token(&response.token, "test-secret-key").is_ok());
        }
        other => panic!("{:?}", other),
    }
    let wrong = LoginRequest { email: "a@x.com".to_string(), password: "password124".to_string() };
    match login_step(&config, &wrong, &vec![Reply::User(Some(user(true, &hash))), Reply::Done]) {
        Err(AppError::Authentication(m)) => assert_eq!(m, "Invalid credentials"),
        other => panic!("{:?}", other),
    }
    match me_step(&caller(1), &vec![]).unwrap() {
        Progress::Ask(Statement::UserById { id }) => assert_eq!(id, 1),
        other => panic!("{:?}", other),
    }
    match me_step(&caller(1), &vec![Reply::User(None)]) {
        Err(AppError::NotFound(m)) => assert_eq!(m, "User not found"),
        other => panic!("{:?}", other),
    }
}

#[test]
fn listings_answer_in_the_order_of_the_reply() {
    let who = caller(1);
    let mut second = project();
    second.id = 30;
    match get_organization_projects_step(&who, 2, &vec![Reply::Member(Some(member("member"))), Reply::Projects(vec![second, project()])]).unwrap() {
        Progress::Finished(list) => assert_eq!(list.iter().map(|p| p.id).collect::<Vec<_>>(), vec![30, 3]),
        other => panic!("{:?}", other),
    }
    let mut other_task = task();
    other_task.id = 40;
    match get_project_tasks_step(&who, 3, &vec![Reply::Role(Some("member".to_string())), Reply::Tasks(vec![task(), other_task])]).unwrap() {
        Progress::Finished(list) => assert_eq!(list.iter().map(|t| t.id).collect::<Vec<_>>(), vec![4, 40]),
        other => panic!("{:?}", other),
    }
    let comment = TaskComment { id: 8, task_id: 4, user_id: 1, content: "c".to_string(), created_at: 1, updated_at: 1 };
    match get_task_comments_step(&who, 4, &vec![Reply::Role(Some("member".to_string())), Reply::Comments(vec![comment])]).unwrap() {
        Progress::Finished(list) => assert_eq!(list.len(), 1),
        other => panic!("{:?}", other),
    }
    match create_comment_step(&who, 4, &CreateCommentRequest { content: "c".to_string() }, &vec![Reply::Role(Some("member".to_string()))]).unwrap() {
        Progress::Ask(Statement::InsertComment { task_id, user_id, content }) => assert_eq!((task_id, user_id, content.as_str()), (4, 1, "c")),
        other => panic!("{:?}", other),
    }
}

#[test]
fn steps_run_on_the_store_answer_as_the_handler() {
    let mut by_steps = fresh_state();
    let mut by_handler = fresh_state();
    for state in [&mut by_steps, &mut by_handler] {
        let o = state.store.insert_organization("Acme".to_string(), "acme".to_string(), None, 1).unwrap();
        state.store.insert_member(o.id, 7, "member".to_string(), None, 2).unwrap();
    }
    let who = caller(7);
    let request = new_project_request();
    let mut replies = Vec::new();
    let stepped = loop {
        match create_project_step(&who, 1, &request, &replies) {
            Ok(Progress::Ask(statement)) => replies.push(by_steps.store.perform(statement, 50)),
            Ok(Progress::Finished(answer)) => break Ok(answer),
            Err(e) => break Err(e),
        }
    };
    let handled = create_project(&mut by_handler, &who, 1, new_project_request(), 50);
    let (a, b) = (stepped.unwrap(), handled.unwrap());
    assert_eq!(replies.len(), 3);
    assert_eq!((a.0, a.1.id, a.1.slug.as_str(), a.1.created_at), (b.0, b.1.id, b.1.slug.as_str(), b.1.created_at));
    assert_eq!((a.0, a.1.id, a.1.created_at), (201, 3, 50));
    assert!(by_steps.store.project_slug_exists(1, "pilot"));
}

#[test]
fn listings_hide_what_a_stranger_asks_for() {
    let who = caller(9);
    match get_organization_members_step(&who, 2, &vec![Reply::Member(None)]) {
        Err(e @ AppError::NotFound(_)) => {
            assert_eq!(e.client_message(), "Organization not found or you don't have access");
            assert_eq!(e.status_code(), 404);
        }
        other => panic!("{:?}", other),
    }
    match get_organization_projects_step(&who, 2, &vec![Reply::Member(None)]) {
        Err(e @ AppError::NotFound(_)) => {
            assert_eq!(e.client_message(), "Organization not found or you don't have access");
            assert_eq!(e.status_code(), 404);
        }
        other => panic!("{:?}", other),
    }
    match get_project_tasks_step(&who, 3, &vec![Reply::Role(None)]) {
        Err(e @ AppError::NotFound(_)) => {
            assert_eq!(e.client_message(), "Project not found");
            assert_eq!(e.status_code(), 404);
        }
        other => panic!("{:?}", other),
    }
    match get_task_comments_step(&who, 4, &vec![Reply::Role(None)]) {
        Err(e @ AppError::NotFound(_)) => {
            assert_eq!(e.client_message(), "Task not found");
            assert_eq!(e.status_code(), 404);
        }
        other => panic!("{:?}", other),
    }
}
