use taskforge::client::forms::{
    login_form, notice_of_failure, optional, organization_form, organization_slug, project_form,
    project_slug, register_form, slug_has_only_fitting_characters, status_change, task_form,
};
use taskforge::client::tasks::{priority_color, replace_task, Task};

fn s(text: &str) -> String {
    text.to_string()
}

fn card(id: u128, title: &str) -> Task {
    Task {
        id,
        project_id: 1,
        title: title.to_string(),
        description: None,
        status: "todo".to_string(),
        priority: "medium".to_string(),
        assigned_to: None,
        created_by: 1,
        due_date: None,
        completed_at: None,
        position: 0,
        created_at: 0,
        updated_at: 0,
    }
}

#[test]
fn organization_slug_joins_the_words_of_the_name() {
    assert_eq!(organization_slug("Acme"), "acme");
    assert_eq!(organization_slug("Acme Corp"), "acme-corp");
    assert_eq!(organization_slug("  Acme   Corp!  "), "acme-corp");
    assert_eq!(organization_slug("Acme--Corp"), "acme-corp");
    assert_eq!(organization_slug("-a-"), "a");
    assert_eq!(organization_slug("A & B, Inc."), "a-b-inc");
    assert_eq!(organization_slug("Zoë 2"), "zoë-2");
    assert_eq!(organization_slug(""), "");
    assert_eq!(organization_slug("!!!"), "");
    assert_eq!(organization_slug("a_b"), "a-b");
}

#[test]
fn project_slug_keeps_hyphens_and_drops_the_rest() {
    assert_eq!(project_slug("My Project", s("old")), "my-project");
    assert_eq!(project_slug("My  Project!", s("old")), "my--project");
    assert_eq!(project_slug(" a ", s("old")), "-a-");
    assert_eq!(project_slug("a_b.c", s("old")), "abc");
    assert_eq!(project_slug("!!!", s("old")), "");
    assert_eq!(project_slug("", s("old")), "old");
}

#[test]
fn empty_fields_are_not_sent() {
    assert_eq!(optional(s("")), None);
    assert_eq!(optional(s(" ")), Some(s(" ")));
    assert_eq!(optional(s("x")), Some(s("x")));
}

#[test]
fn login_form_requires_both_fields() {
    assert_eq!(login_form(s(""), s("p")).unwrap_err(), "Email and password are required");
    assert_eq!(login_form(s("a@x.com"), s("")).unwrap_err(), "Email and password are required");
    let request = login_form(s("a@x.com"), s("p")).unwrap();
    assert_eq!((request.email.as_str(), request.password.as_str()), ("a@x.com", "p"));
}

#[test]
fn register_form_counts_the_bytes_of_the_password() {
    assert_eq!(register_form(s(""), s("password123"), s(""), s("")).unwrap_err(), "Email and password are required");
    assert_eq!(register_form(s("a@x.com"), s(""), s(""), s("")).unwrap_err(), "Email and password are required");
    assert_eq!(register_form(s("a@x.com"), s("1234567"), s(""), s("")).unwrap_err(), "Password must be at least 8 characters");
    let request = register_form(s("a@x.com"), s("12345678"), s("Ada"), s("")).unwrap();
    assert_eq!((request.email.as_str(), request.password.as_str()), ("a@x.com", "12345678"));
    assert_eq!((request.first_name.as_deref(), request.last_name), (Some("Ada"), None));
    assert!(register_form(s("a@x.com"), s("ééééé"), s(""), s("")).is_ok());
    assert!(register_form(s("a@x.com"), s("ééé"), s(""), s("")).is_err());
}

#[test]
fn organization_form_checks_name_and_slug() {
    assert_eq!(organization_form(s(""), s("acme"), s("")).unwrap_err(), "Organization name is required");
    assert_eq!(organization_form(s("Acme"), s(""), s("")).unwrap_err(), "Organization slug is required");
    assert_eq!(
        organization_form(s("Acme"), s("ac me"), s("")).unwrap_err(),
        "Slug can only contain letters, numbers, and hyphens"
    );
    let request = organization_form(s("Acme"), s("acme-1"), s("")).unwrap();
    assert_eq!((request.name.as_str(), request.slug.as_str(), request.description), ("Acme", "acme-1", None));
    let request = organization_form(s("Acme"), s("acme"), s("d")).unwrap();
    assert_eq!(request.description.as_deref(), Some("d"));
    assert!(slug_has_only_fitting_characters("zoë-2"));
    assert!(slug_has_only_fitting_characters(""));
    assert!(!slug_has_only_fitting_characters("a_b"));
}

#[test]
fn project_form_checks_name_and_slug() {
    assert_eq!(project_form(s(""), s("p"), s(""), s("planning"), s("#3B82F6")).unwrap_err(), "Project name is required");
    assert_eq!(project_form(s("P"), s(""), s(""), s("planning"), s("#3B82F6")).unwrap_err(), "Project slug is required");
    let request = project_form(s("P"), s("p"), s(""), s("planning"), s("#3B82F6")).unwrap();
    assert_eq!((request.name.as_str(), request.slug.as_str(), request.description), ("P", "p", None));
    assert_eq!((request.status.as_deref(), request.color.as_deref()), (Some("planning"), Some("#3B82F6")));
}

#[test]
fn task_form_requires_the_title() {
    assert_eq!(task_form(s(""), s("d"), s("high")).unwrap_err(), "Task title is required");
    let request = task_form(s("t"), s(""), s("high")).unwrap();
    assert_eq!((request.title.as_str(), request.description, request.status.as_deref()), ("t", None, Some("todo")));
    assert_eq!((request.priority.as_deref(), request.assigned_to, request.due_date), (Some("high"), None, None));
}

#[test]
fn status_change_changes_only_the_status() {
    let request = status_change(s("done"));
    assert_eq!(request.status.as_deref(), Some("done"));
    assert_eq!((request.title, request.description, request.priority), (None, None, None));
    assert_eq!((request.assigned_to, request.due_date, request.position), (None, None, None));
}

#[test]
fn failure_notices() {
    assert_eq!(notice_of_failure("load projects", "down"), "Failed to load projects: down");
    assert_eq!(notice_of_failure("create task", ""), "Failed to create task: ");
}

#[test]
fn updated_task_takes_the_place_of_the_first_with_its_identifier() {
    let mut board = vec![card(1, "a"), card(2, "b"), card(2, "c"), card(3, "d")];
    replace_task(&mut board, 2, card(2, "B"));
    let titles: Vec<&str> = board.iter().map(|t| t.title.as_str()).collect();
    assert_eq!(titles, vec!["a", "B", "c", "d"]);
    replace_task(&mut board, 9, card(9, "z"));
    assert_eq!(board.len(), 4);
    replace_task(&mut board, 3, card(7, "moved"));
    let ids: Vec<u128> = board.iter().map(|t| t.id).collect();
    assert_eq!(ids, vec![1, 2, 2, 7]);
    let mut empty: Vec<Task> = vec![];
    replace_task(&mut empty, 1, card(1, "a"));
    assert!(empty.is_empty());
}

#[test]
fn priorities_have_their_colors() {
    assert_eq!(priority_color("high"), "border-l-4 border-red-500");
    assert_eq!(priority_color("medium"), "border-l-4 border-yellow-500");
    assert_eq!(priority_color("low"), "border-l-4 border-green-500");
    assert_eq!(priority_color("urgent"), "border-l-4 border-gray-300");
    assert_eq!(priority_color("High"), "border-l-4 border-gray-300");
    assert_eq!(priority_color(""), "border-l-4 border-gray-300");
}
