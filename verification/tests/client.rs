use taskforge::client::api::{
    authorization_header, decimal_text, failure, get, get_token, post, remove_token, set_token, ApiError, Method,
    TokenStore, API_BASE_URL,
};
use taskforge::client::auth::{
    authenticated, get_current_user, is_authenticated, login, logout, register, AuthResponse, User,
};
use taskforge::client::auth_context::AuthContext;
use taskforge::client::organization_context::OrganizationContext;
use taskforge::client::organizations::{
    create_organization, get_my_organizations, get_organization, get_organization_members,
    Organization,
};
use taskforge::client::projects::{
    create_project, delete_project, get_organization_projects, get_project, update_project,
    CreateProjectRequest, UpdateProjectRequest,
};
use taskforge::client::tasks::{
    create_comment, create_task, delete_task, get_project_tasks, get_task, get_task_comments,
    tasks_with_status, update_task, CreateCommentRequest, CreateTaskRequest, Task,
    UpdateTaskRequest,
};
use taskforge::credentials::extract_token_from_header;

fn user(first: Option<&str>, last: Option<&str>) -> User {
    User {
        id: "1".to_string(),
        email: "a@x.com".to_string(),
        first_name: first.map(|s| s.to_string()),
        last_name: last.map(|s| s.to_string()),
        is_active: true,
        is_email_verified: false,
        created_at: "2024-01-01T00:00:00Z".to_string(),
    }
}

fn organization(id: u128, slug: &str) -> Organization {
    Organization {
        id,
        name: slug.to_uppercase(),
        slug: slug.to_string(),
        description: None,
        logo_url: None,
        website: None,
        is_active: true,
        role: Some("owner".to_string()),
    }
}

fn task(id: u128, status: &str) -> Task {
    Task {
        id,
        project_id: 1,
        title: format!("t{}", id),
        description: None,
        status: status.to_string(),
        priority: "medium".to_string(),
        assigned_to: None,
        created_by: 1,
        due_date: None,
        completed_at: None,
        position: 0,
        created_at: 0,
        updated_at: 0,
    }
}

#[test]
fn full_name_prefers_the_names_over_the_email() {
    assert_eq!(user(Some("Ada"), Some("Lovelace")).full_name(), "Ada Lovelace");
    assert_eq!(user(Some("Ada"), None).full_name(), "Ada");
    assert_eq!(user(None, Some("Lovelace")).full_name(), "Lovelace");
    assert_eq!(user(None, None).full_name(), "a@x.com");
    assert_eq!(user(Some(""), Some("")).full_name(), " ");
}

#[test]
fn token_is_kept_and_forgotten() {
    let mut store = TokenStore { token: None };
    assert_eq!(get_token(&store), None);
    assert!(!is_authenticated(&store));
    set_token(&mut store, "abc");
    assert_eq!(get_token(&store).as_deref(), Some("abc"));
    assert!(is_authenticated(&store));
    set_token(&mut store, "def");
    assert_eq!(get_token(&store).as_deref(), Some("def"));
    remove_token(&mut store);
    assert_eq!(get_token(&store), None);
    set_token(&mut store, "ghi");
    logout(&mut store);
    assert!(!is_authenticated(&store));
}

#[test]
fn requests_carry_the_kept_token() {
    let mut store = TokenStore { token: None };
    let r = get(&store, "/api/auth/me");
    assert_eq!(r.method, Method::Get);
    assert_eq!(r.url, "http://localhost:3000/api/auth/me");
    assert_eq!(r.url, format!("{}{}", API_BASE_URL, "/api/auth/me"));
    assert_eq!((r.content_type, r.authorization, r.body), (None, None, None));
    set_token(&mut store, "abc");
    let r = get(&store, "/api/organizations");
    assert_eq!(r.authorization.as_deref(), Some("Bearer abc"));
    let r = post(&store, "/api/organizations", "{\"name\":\"Acme\"}".to_string());
    assert_eq!(r.method, Method::Post);
    assert_eq!(r.url, "http://localhost:3000/api/organizations");
    assert_eq!(r.content_type.as_deref(), Some("application/json"));
    assert_eq!(r.authorization.as_deref(), Some("Bearer abc"));
    assert_eq!(r.body.as_deref(), Some("{\"name\":\"Acme\"}"));
}

#[test]
fn the_server_reads_the_token_that_the_client_sends() {
    for token in ["abc", "", "a.b.c", "with space"] {
        let store = TokenStore { token: Some(token.to_string()) };
        let header = authorization_header(&store).unwrap();
        assert_eq!(extract_token_from_header(&header).unwrap(), token);
    }
    assert_eq!(authorization_header(&TokenStore { token: None }), None);
}

#[test]
fn failures_carry_the_body_or_the_status() {
    assert_eq!(failure(Some("{\"error\":\"x\"}".to_string()), 409).message, "{\"error\":\"x\"}");
    assert_eq!(failure(None, 404).message, "HTTP error: 404");
    assert_eq!(failure(None, 0).message, "HTTP error: 0");
    assert_eq!(failure(None, 65535).message, "HTTP error: 65535");
    assert_eq!(ApiError { message: "m".to_string() }.to_text(), "m");
}

#[test]
fn authentication_requests_and_answers() {
    let (endpoint, body) = register("a@x.com".to_string(), "password123".to_string(), Some("Ada".to_string()), None);
    assert_eq!(endpoint, "/api/auth/register");
    assert_eq!((body.email.as_str(), body.password.as_str(), body.first_name.as_deref(), body.last_name), ("a@x.com", "password123", Some("Ada"), None));
    let (endpoint, body) = login("a@x.com".to_string(), "password123".to_string());
    assert_eq!(endpoint, "/api/auth/login");
    assert_eq!((body.email.as_str(), body.password.as_str()), ("a@x.com", "password123"));
    assert_eq!(get_current_user(), "/api/auth/me");

    let mut store = TokenStore { token: Some("old".to_string()) };
    let failed = authenticated(&mut store, Err(ApiError { message: "no".to_string() }));
    assert_eq!(failed.unwrap_err().message, "no");
    assert_eq!(store.token.as_deref(), Some("old"));
    let answer = AuthResponse { user: user(None, None), token: "new".to_string() };
    let passed = authenticated(&mut store, Ok(answer)).unwrap();
    assert_eq!(passed.token, "new");
    assert_eq!(store.token.as_deref(), Some("new"));
}

#[test]
fn auth_context_follows_the_answers() {
    let mut store = TokenStore { token: Some("t".to_string()) };
    let mut context = AuthContext::new();
    assert!(!context.is_authenticated());
    assert!(!context.is_loading);
    assert_eq!(context.error, None);

    assert!(AuthContext::should_load_user(&store));
    context.begin();
    assert!(context.is_loading);
    context.load_user(&mut store, Ok(user(Some("Ada"), None)));
    assert!(context.is_authenticated());
    assert!(!context.is_loading);
    assert_eq!(store.token.as_deref(), Some("t"));

    context.begin();
    context.load_user(&mut store, Err(ApiError { message: "expired".to_string() }));
    assert!(!context.is_authenticated());
    assert_eq!(context.error.as_deref(), Some("expired"));
    assert_eq!(store.token, None);
    assert!(!AuthContext::should_load_user(&store));

    context.begin();
    assert_eq!(context.error, None);
    let outcome = context.login(Err(ApiError { message: "bad".to_string() }));
    assert_eq!(outcome, Err("bad".to_string()));
    assert_eq!(context.error.as_deref(), Some("bad"));
    assert!(!context.is_loading);
    assert!(!context.is_authenticated());

    context.begin();
    let outcome = context.login(Ok(AuthResponse { user: user(None, None), token: "n".to_string() }));
    assert_eq!(outcome, Ok(()));
    assert!(context.is_authenticated());
    assert_eq!(context.error, None);

    context.begin();
    let outcome = context.register(Err(ApiError { message: "taken".to_string() }));
    assert_eq!(outcome, Err("taken".to_string()));
    assert!(context.is_authenticated());
    let outcome = context.register(Ok(AuthResponse { user: user(Some("B"), None), token: "n".to_string() }));
    assert_eq!(outcome, Ok(()));
    assert_eq!(context.user.as_ref().unwrap().full_name(), "B");

    set_token(&mut store, "n");
    context.logout(&mut store);
    assert!(!context.is_authenticated());
    assert_eq!(context.error, None);
    assert_eq!(store.token, None);
}

#[test]
fn organization_context_follows_the_answers() {
    let mut context = OrganizationContext::new();
    assert_eq!(context.organizations.len(), 0);
    assert!(context.current_org.is_none());

    context.begin();
    assert!(context.is_loading);
    context.load_organizations(Err(ApiError { message: "down".to_string() }));
    assert!(!context.is_loading);
    assert_eq!(context.error.as_deref(), Some("Failed to load organizations: down"));

    context.begin();
    context.load_organizations(Ok(vec![]));
    assert!(context.current_org.is_none());
    assert_eq!(context.error, None);

    context.load_organizations(Ok(vec![organization(1, "a"), organization(2, "b")]));
    assert_eq!(context.organizations.len(), 2);
    assert_eq!(context.current_org.as_ref().unwrap().id, 1);
    context.load_organizations(Ok(vec![organization(2, "b"), organization(3, "c")]));
    assert_eq!(context.current_org.as_ref().unwrap().id, 1);

    context.set_current_organization_by_id(3);
    assert_eq!(context.current_org.as_ref().unwrap().id, 3);
    context.set_current_organization_by_id(99);
    assert_eq!(context.current_org.as_ref().unwrap().id, 3);
    context.set_current_organization(organization(7, "g"));
    assert_eq!(context.current_org.as_ref().unwrap().id, 7);

    context.begin();
    let created = context.create_organization(Ok(organization(4, "d"))).unwrap();
    assert_eq!(created.id, 4);
    let ids: Vec<u128> = context.organizations.iter().map(|o| o.id).collect();
    assert_eq!(ids, vec![2, 3, 4]);
    assert_eq!(context.current_org.as_ref().unwrap().id, 4);
    assert!(!context.is_loading);

    context.begin();
    let failed = context.create_organization(Err(ApiError { message: "conflict".to_string() }));
    assert_eq!(failed.unwrap_err(), "Failed to create organization: conflict");
    assert_eq!(context.error.as_deref(), Some("Failed to create organization: conflict"));
    assert_eq!(context.organizations.len(), 3);
    assert_eq!(context.current_org.as_ref().unwrap().id, 4);
}

#[test]
fn first_of_two_organizations_with_one_identifier_is_selected() {
    let mut context = OrganizationContext::new();
    context.load_organizations(Ok(vec![organization(1, "a"), organization(2, "first"), organization(2, "second")]));
    context.set_current_organization_by_id(2);
    assert_eq!(context.current_org.as_ref().unwrap().slug, "first");
}

#[test]
fn endpoints() {
    let id: u128 = 0x550e8400_e29b_41d4_a716_446655440000;
    assert_eq!(get_my_organizations(), "/api/organizations");
    let (endpoint, body) = create_organization("Acme".to_string(), "acme".to_string(), None);
    assert_eq!(endpoint, "/api/organizations");
    assert_eq!((body.name.as_str(), body.slug.as_str(), body.description), ("Acme", "acme", None));
    assert_eq!(get_organization(id), "/api/organizations/550e8400-e29b-41d4-a716-446655440000");
    assert_eq!(get_organization_members(id), "/api/organizations/550e8400-e29b-41d4-a716-446655440000/members");

    assert_eq!(get_organization_projects("o1"), "/api/organizations/o1/projects");
    let request = CreateProjectRequest { name: "P".to_string(), slug: "p".to_string(), description: None, status: None, color: None };
    assert_eq!(create_project("o1", request).0, "/api/organizations/o1/projects");
    assert_eq!(get_project("pilot"), "/api/projects/pilot");
    let request = UpdateProjectRequest { name: None, description: None, status: None, color: None };
    assert_eq!(update_project("pilot", request).0, "/api/projects/pilot");
    assert_eq!(delete_project("pilot"), "/api/projects/pilot");

    assert_eq!(get_project_tasks("pilot"), "/api/projects/pilot/tasks");
    let request = CreateTaskRequest { title: "t".to_string(), description: None, status: None, priority: None, assigned_to: None, due_date: None };
    let (endpoint, body) = create_task("pilot", request);
    assert_eq!((endpoint.as_str(), body.title.as_str()), ("/api/projects/pilot/tasks", "t"));
    assert_eq!(get_task("t1"), "/api/tasks/t1");
    let request = UpdateTaskRequest { title: None, description: None, status: Some("done".to_string()), priority: None, assigned_to: None, due_date: None, position: None };
    let (endpoint, body) = update_task("t1", request);
    assert_eq!((endpoint.as_str(), body.status.as_deref()), ("/api/tasks/t1", Some("done")));
    assert_eq!(delete_task("t1"), "/api/tasks/t1");
    assert_eq!(get_task_comments("t1"), "/api/tasks/t1/comments");
    let (endpoint, body) = create_comment("t1", CreateCommentRequest { content: "c".to_string() });
    assert_eq!((endpoint.as_str(), body.content.as_str()), ("/api/tasks/t1/comments", "c"));
}

#[test]
fn board_columns_keep_the_order_of_the_board() {
    let tasks = vec![task(1, "todo"), task(2, "done"), task(3, "todo"), task(4, "in_progress"), task(5, "todo")];
    let ids = |status: &str| -> Vec<u128> { tasks_with_status(&tasks, status).iter().map(|t| t.id).collect() };
    assert_eq!(ids("todo"), vec![1, 3, 5]);
    assert_eq!(ids("in_progress"), vec![4]);
    assert_eq!(ids("done"), vec![2]);
    assert_eq!(ids("archived"), Vec::<u128>::new());
}

#[test]
fn numbers_are_written_in_decimal_without_leading_zeros() {
    for (n, text) in [(0u16, "0"), (7, "7"), (9, "9"), (10, "10"), (99, "99"), (100, "100"), (404, "404"), (1000, "1000"), (9999, "9999"), (10000, "10000"), (65535, "65535")] {
        assert_eq!(decimal_text(n), text);
        assert_eq!(decimal_text(n), n.to_string());
    }
}
