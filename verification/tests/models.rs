use taskforge::error::AppError;
use taskforge::models::{
    CommentResponse, MemberRole, Organization, OrganizationResponse, Project, ProjectResponse, Task,
    TaskComment, TaskResponse, User, UserResponse,
};

#[test]
fn roles_have_their_stored_names() {
    assert_eq!(MemberRole::Owner.as_str(), "owner");
    assert_eq!(MemberRole::Admin.as_str(), "admin");
    assert_eq!(MemberRole::Manager.as_str(), "manager");
    assert_eq!(MemberRole::Member.as_str(), "member");
    assert_eq!(MemberRole::Member.to_text(), "member");
}

#[test]
fn roles_are_read_from_their_exact_names() {
    assert_eq!(MemberRole::from_str("owner"), Some(MemberRole::Owner));
    assert_eq!(MemberRole::from_str("admin"), Some(MemberRole::Admin));
    assert_eq!(MemberRole::from_str("manager"), Some(MemberRole::Manager));
    assert_eq!(MemberRole::from_str("member"), Some(MemberRole::Member));
}

#[test]
fn role_names_in_another_case_are_rejected() {
    for name in ["Owner", "OWNER", "ADMIN", "Admin", "mAnAgEr", "Manager", "MEMBER", "Member"] {
        assert_eq!(MemberRole::from_str(name), None, "{:?}", name);
    }
}

#[test]
fn unknown_roles_are_rejected() {
    for name in ["", "guest", "owner ", " owner", "owners", "admin\n", "root"] {
        assert_eq!(MemberRole::from_str(name), None, "{:?}", name);
    }
}

#[test]
fn role_names_round_trip() {
    for role in [MemberRole::Owner, MemberRole::Admin, MemberRole::Manager, MemberRole::Member] {
        assert_eq!(MemberRole::from_str(role.as_str()), Some(role));
    }
}

#[test]
fn errors_map_to_status_codes() {
    let m = || "m".to_string();
    assert_eq!(AppError::DatabaseError(m()).status_code(), 500);
    assert_eq!(AppError::Database(m()).status_code(), 500);
    assert_eq!(AppError::Validation(m()).status_code(), 400);
    assert_eq!(AppError::Authentication(m()).status_code(), 401);
    assert_eq!(AppError::Authorization(m()).status_code(), 403);
    assert_eq!(AppError::NotFound(m()).status_code(), 404);
    assert_eq!(AppError::Conflict(m()).status_code(), 409);
    assert_eq!(AppError::InternalServerError(m()).status_code(), 500);
    assert_eq!(AppError::Internal(m()).status_code(), 500);
    assert_eq!(AppError::BadRequest(m()).status_code(), 400);
    assert_eq!(AppError::ExternalService(m()).status_code(), 502);
}

#[test]
fn errors_hide_what_belongs_in_the_log() {
    let m = || "relation \"users\" does not exist".to_string();
    assert_eq!(AppError::DatabaseError(m()).client_message(), "Database error occurred");
    assert_eq!(AppError::Database(m()).client_message(), "Database error occurred");
    assert_eq!(AppError::InternalServerError(m()).client_message(), "Internal server error");
    assert_eq!(AppError::Internal(m()).client_message(), "Internal server error");
    assert_eq!(AppError::ExternalService(m()).client_message(), "External service error");
    assert!(AppError::DatabaseError(m()).logs_detail());
    assert!(AppError::Internal(m()).logs_detail());
    assert!(!AppError::NotFound(m()).logs_detail());
    for e in [
        AppError::Validation(m()),
        AppError::Authentication(m()),
        AppError::Authorization(m()),
        AppError::NotFound(m()),
        AppError::Conflict(m()),
        AppError::BadRequest(m()),
    ] {
        assert_eq!(e.client_message(), m());
    }
}

#[test]
fn errors_describe_themselves() {
    let m = || "x".to_string();
    assert_eq!(AppError::DatabaseError(m()).message(), "Database error: x");
    assert_eq!(AppError::Database(m()).message(), "Database error");
    assert_eq!(AppError::Validation(m()).message(), "Validation error: x");
    assert_eq!(AppError::Authentication(m()).message(), "Authentication error: x");
    assert_eq!(AppError::Authorization(m()).message(), "Authorization error: x");
    assert_eq!(AppError::NotFound(m()).message(), "Not found: x");
    assert_eq!(AppError::Conflict(m()).message(), "Conflict: x");
    assert_eq!(AppError::InternalServerError(m()).message(), "Internal server error: x");
    assert_eq!(AppError::Internal(m()).message(), "Internal server error: x");
    assert_eq!(AppError::BadRequest(m()).message(), "Bad request: x");
    assert_eq!(AppError::ExternalService(m()).message(), "External service error: x");
}

#[test]
fn user_response_leaves_the_credential_out() {
    let user = User {
        id: 1,
        email: "a@x.com".to_string(),
        password_hash: "$argon2id$secret".to_string(),
        first_name: Some("Ada".to_string()),
        last_name: None,
        is_active: true,
        is_email_verified: false,
        email_verified_at: None,
        last_login_at: Some(5),
        created_at: 3,
        updated_at: 4,
    };
    let response = UserResponse::from(user.clone());
    assert_eq!(response.id, 1);
    assert_eq!(response.email, "a@x.com");
    assert_eq!(response.first_name.as_deref(), Some("Ada"));
    assert_eq!(response.last_name, None);
    assert!(response.is_active);
    assert!(!response.is_email_verified);
    assert_eq!(response.created_at, 3);
    assert!(!format!("{:?}", response).contains("argon2"));
}

#[test]
fn responses_copy_the_rows() {
    let organization = Organization {
        id: 2,
        name: "Acme".to_string(),
        slug: "acme".to_string(),
        description: Some("d".to_string()),
        logo_url: None,
        website: None,
        is_active: true,
        created_at: 10,
        updated_at: 11,
    };
    let r = OrganizationResponse::from(organization);
    assert_eq!((r.id, r.name.as_str(), r.slug.as_str(), r.description.as_deref(), r.created_at), (2, "Acme", "acme", Some("d"), 10));

    let project = Project {
        id: 3,
        organization_id: 2,
        name: "Pilot".to_string(),
        slug: "pilot".to_string(),
        description: None,
        status: "active".to_string(),
        color: Some("#fff".to_string()),
        created_by: 1,
        created_at: 20,
        updated_at: 21,
    };
    let r = ProjectResponse::from(project);
    assert_eq!((r.id, r.organization_id, r.name.as_str(), r.slug.as_str()), (3, 2, "Pilot", "pilot"));
    assert_eq!((r.description, r.status.as_str(), r.color.as_deref(), r.created_by, r.created_at, r.updated_at), (None, "active", Some("#fff"), 1, 20, 21));

    let task = Task {
        id: 4,
        project_id: 3,
        title: "T".to_string(),
        description: None,
        status: "todo".to_string(),
        priority: "high".to_string(),
        assigned_to: Some(1),
        created_by: 1,
        due_date: Some(99),
        completed_at: None,
        position: 7,
        created_at: 30,
        updated_at: 31,
    };
    let r = TaskResponse::from(task);
    assert_eq!((r.id, r.project_id, r.title.as_str(), r.status.as_str(), r.priority.as_str()), (4, 3, "T", "todo", "high"));
    assert_eq!((r.assigned_to, r.created_by, r.due_date, r.completed_at, r.position, r.created_at, r.updated_at), (Some(1), 1, Some(99), None, 7, 30, 31));

    let comment = TaskComment { id: 5, task_id: 4, user_id: 1, content: "c".to_string(), created_at: 40, updated_at: 41 };
    let r = CommentResponse::from(comment);
    assert_eq!((r.id, r.task_id, r.user_id, r.content.as_str(), r.created_at, r.updated_at), (5, 4, 1, "c", 40, 41));
}
