use taskforge::client::organizations::{Organization, OrganizationMember};
use taskforge::client::pages::{
    after_logout, dashboard_loads_user, LoginPage, OrganizationDetailPage, OrganizationsPage,
    ProjectDetailPage, ProjectsPage,
};
use taskforge::client::projects::Project;
use taskforge::client::tasks::Task;

fn organization(id: u128) -> Organization {
    Organization {
        id,
        name: "Acme".to_string(),
        slug: "acme".to_string(),
        description: None,
        logo_url: None,
        website: None,
        is_active: true,
        role: Some("owner".to_string()),
    }
}

fn project(id: u128) -> Project {
    Project {
        id,
        organization_id: 1,
        name: "P".to_string(),
        slug: "p".to_string(),
        description: None,
        status: "planning".to_string(),
        color: None,
        created_by: 1,
        created_at: 0,
        updated_at: 0,
    }
}

fn task(id: u128, status: &str) -> Task {
    Task {
        id,
        project_id: 1,
        title: format!("t{}", id),
        description: None,
        status: status.to_string(),
        priority: "medium".to_string(),
        assigned_to: None,
        created_by: 1,
        due_date: None,
        completed_at: None,
        position: 0,
        created_at: 0,
        updated_at: 0,
    }
}

#[test]
fn login_page_checks_the_form_before_it_sends() {
    let mut page = LoginPage::new();
    assert!(page.handle_login().is_none());
    assert_eq!(page.local_error.as_deref(), Some("Email and password are required"));
    page.email = "a@x.com".to_string();
    page.password = "short".to_string();
    let request = page.handle_login().unwrap();
    assert_eq!((request.email.as_str(), request.password.as_str()), ("a@x.com", "short"));
    assert_eq!(page.local_error, None);
    assert!(page.handle_register().is_none());
    assert_eq!(page.local_error.as_deref(), Some("Password must be at least 8 characters"));
    page.password = "password123".to_string();
    page.last_name = "L".to_string();
    let request = page.handle_register().unwrap();
    assert_eq!((request.first_name, request.last_name.as_deref()), (None, Some("L")));
    assert_eq!(page.local_error, None);
}

#[test]
fn login_page_goes_to_the_dashboard_or_shows_the_failure() {
    let mut page = LoginPage::new();
    assert_eq!(page.settled(Err("Invalid credentials".to_string())), None);
    assert_eq!(page.local_error.as_deref(), Some("Invalid credentials"));
    assert_eq!(page.settled(Ok(())).as_deref(), Some("/dashboard"));
    assert_eq!(after_logout(), "/login");
    assert!(dashboard_loads_user(false));
    assert!(!dashboard_loads_user(true));
}

#[test]
fn organizations_page_proposes_the_slug_and_resets_after_success() {
    let mut page = OrganizationsPage::new();
    page.show_create_modal = true;
    assert!(page.handle_create().is_none());
    assert_eq!(page.local_error.as_deref(), Some("Organization name is required"));
    page.handle_name_change("Acme Corp".to_string());
    assert_eq!((page.name.as_str(), page.slug.as_str()), ("Acme Corp", "acme-corp"));
    page.description = "d".to_string();
    let request = page.handle_create().unwrap();
    assert_eq!((request.name.as_str(), request.slug.as_str(), request.description.as_deref()), ("Acme Corp", "acme-corp", Some("d")));
    page.settled(Err("Failed to create organization: conflict".to_string()));
    assert_eq!(page.local_error.as_deref(), Some("Failed to create organization: conflict"));
    assert_eq!(page.name, "Acme Corp");
    assert!(page.show_create_modal);
    page.settled(Ok(organization(1)));
    assert_eq!((page.name.as_str(), page.slug.as_str(), page.description.as_str()), ("", "", ""));
    assert!(!page.show_create_modal);
    assert_eq!(page.local_error, None);
}

#[test]
fn organization_page_loads_the_organization_and_then_its_members() {
    assert_eq!(OrganizationDetailPage::org_id(None), None);
    assert_eq!(OrganizationDetailPage::org_id(Some("nope")), None);
    assert_eq!(OrganizationDetailPage::org_id(Some("00000000-0000-0000-0000-000000000002")), Some(2));
    let mut page = OrganizationDetailPage::new();
    page.begin();
    assert!(!page.organization_loaded(Err("404".to_string())));
    assert_eq!(page.error.as_deref(), Some("Failed to load organization: 404"));
    assert!(!page.is_loading);
    page.begin();
    assert_eq!(page.error, None);
    assert!(page.organization_loaded(Ok(organization(2))));
    assert!(page.is_loading);
    page.members_loaded(Err("down".to_string()));
    assert_eq!(page.error.as_deref(), Some("Failed to load members: down"));
    assert!(!page.is_loading);
    let member = OrganizationMember {
        id: 3,
        user_id: 4,
        user_email: "a@x.com".to_string(),
        user_first_name: None,
        user_last_name: None,
        role: "owner".to_string(),
        joined_at: 0,
    };
    page.members_loaded(Ok(vec![member]));
    assert_eq!(page.members.len(), 1);
    assert_eq!(page.organization.as_ref().unwrap().id, 2);
}

#[test]
fn projects_page_follows_the_answers() {
    assert!(ProjectsPage::should_load("o1"));
    assert!(!ProjectsPage::should_load(""));
    let mut page = ProjectsPage::new();
    assert!(page.loading);
    assert_eq!((page.status.as_str(), page.color.as_str()), ("planning", "#3B82F6"));
    page.loaded(Err("down".to_string()));
    assert_eq!(page.error.as_deref(), Some("Failed to load projects: down"));
    assert!(!page.loading);
    page.loaded(Ok(vec![project(1)]));
    assert_eq!((page.projects.len(), page.error.clone()), (1, None));

    assert!(page.handle_create().is_none());
    assert_eq!(page.create_error.as_deref(), Some("Project name is required"));
    page.name_changed("My Project".to_string());
    assert_eq!(page.slug, "my-project");
    page.name_changed("".to_string());
    assert_eq!(page.slug, "my-project");
    assert!(page.handle_create().is_none());
    page.name_changed("Next".to_string());
    page.status = "active".to_string();
    page.show_create_modal = true;
    let request = page.handle_create().unwrap();
    assert_eq!((request.name.as_str(), request.slug.as_str(), request.description), ("Next", "next", None));
    assert_eq!((request.status.as_deref(), request.color.as_deref()), (Some("active"), Some("#3B82F6")));
    page.created(Err("conflict".to_string()));
    assert_eq!(page.create_error.as_deref(), Some("Failed to create project: conflict"));
    assert_eq!((page.projects.len(), page.show_create_modal), (1, true));
    page.created(Ok(project(2)));
    assert_eq!(page.projects.iter().map(|p| p.id).collect::<Vec<_>>(), vec![1, 2]);
    assert_eq!((page.name.as_str(), page.slug.as_str(), page.status.as_str(), page.color.as_str()), ("", "", "planning", "#3B82F6"));
    assert_eq!((page.show_create_modal, page.create_error.clone()), (false, None));
}

#[test]
fn project_page_keeps_the_board() {
    let mut page = ProjectDetailPage::new();
    page.loaded(Err("down".to_string()));
    assert_eq!(page.error.as_deref(), Some("Failed to load tasks: down"));
    page.loaded(Ok(vec![task(1, "todo"), task(2, "done"), task(3, "in_progress"), task(4, "todo")]));
    assert_eq!(page.error, None);
    assert_eq!(page.todo_tasks().iter().map(|t| t.id).collect::<Vec<_>>(), vec![1, 4]);
    assert_eq!(page.in_progress_tasks().iter().map(|t| t.id).collect::<Vec<_>>(), vec![3]);
    assert_eq!(page.done_tasks().iter().map(|t| t.id).collect::<Vec<_>>(), vec![2]);

    assert!(page.handle_create().is_none());
    assert_eq!(page.create_error.as_deref(), Some("Task title is required"));
    page.title = "new".to_string();
    page.priority = "high".to_string();
    let request = page.handle_create().unwrap();
    assert_eq!((request.title.as_str(), request.status.as_deref(), request.priority.as_deref()), ("new", Some("todo"), Some("high")));
    page.created(Err("403".to_string()));
    assert_eq!(page.create_error.as_deref(), Some("Failed to create task: 403"));
    page.created(Ok(task(5, "todo")));
    assert_eq!(page.tasks.len(), 5);
    assert_eq!((page.title.as_str(), page.priority.as_str(), page.create_error.clone()), ("", "medium", None));

    page.status_changed(1, Ok(task(1, "done")));
    assert_eq!(page.todo_tasks().iter().map(|t| t.id).collect::<Vec<_>>(), vec![4, 5]);
    assert_eq!(page.done_tasks().iter().map(|t| t.id).collect::<Vec<_>>(), vec![1, 2]);
    page.status_changed(4, Err("down".to_string()));
    assert_eq!(page.todo_tasks().len(), 2);
    page.status_changed(99, Ok(task(99, "done")));
    assert_eq!(page.tasks.len(), 5);
}
