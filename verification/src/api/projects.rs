//! The handlers of projects.

use vstd::prelude::*;
use vstd::string::StringExecFns;
use crate::access::{
    Access, Operation, PrincipalFault, authorize, decision, principal, principal_error, refusal,
    role_text,
};
use crate::error::{AppError, ErrorView, agrees};
use crate::ident::uuid_parsed;
use crate::models::{
    AuthUser, CreateProjectRequest, Id, Project, ProjectResponse, Timestamp, UpdateProjectRequest,
    project_response,
};
use crate::state::AppState;
use crate::store::listing::is_listing;
use crate::api::steps::{failed_while, failure_while, gated, member_role};
use crate::store::projects::{patched_project, project_of, project_order};
use crate::store::protocol::{
    Progress, Reply, Statement, done_at, fault_of, flag_at, member_at, project_at, projects_at,
    record, role_at,
};
use crate::store::Tables;
use crate::text::{clone_optional_text, text_or, text_or_default};

verus! {

/// The status of a project that is created without one.
pub open spec fn default_project_status() -> Seq<char> {
    "planning"@
}

/// The color of a project that is created without one.
pub open spec fn default_project_color() -> Seq<char> {
    "#3B82F6"@
}

/// `row` is the project that a request creates under the identifier `id`.
pub open spec fn is_new_project(
    row: Project,
    id: Id,
    organization_id: Id,
    payload: CreateProjectRequest,
    user_id: Id,
    now: Timestamp,
) -> bool {
    &&& row.id == id
    &&& row.organization_id == organization_id
    &&& row.name == payload.name
    &&& row.slug == payload.slug
    &&& row.description == payload.description
    &&& row.status@ == text_or(payload.status, default_project_status())
    &&& row.color matches Some(c)
    &&& c@ == text_or(payload.color, default_project_color())
    &&& row.created_by == user_id
    &&& row.created_at == now
    &&& row.updated_at == now
}

/// Why a project cannot be created, if it cannot: the first of the checks that
/// fails.
pub open spec fn create_project_refusal(
    tables: Tables,
    user_id: Option<Id>,
    organization_id: Id,
    slug: Seq<char>,
) -> Option<ErrorView> {
    match user_id {
        None => Some(principal_error(PrincipalFault::Authentication)),
        Some(uid) => if tables.role_in_organization(organization_id, uid) is None {
            Some(refusal(Operation::CreateProject, None))
        } else if tables.project_slug_taken(organization_id, slug) {
            Some(
                ErrorView::Conflict(
                    "A project with this slug already exists in this organization"@,
                ),
            )
        } else if tables.next_id == u128::MAX {
            Some(ErrorView::DatabaseError("Failed to create project"@))
        } else {
            None
        },
    }
}

/// The responses for listed projects, in their order.
pub open spec fn project_responses(rows: Seq<Project>) -> Seq<ProjectResponse> {
    rows.map_values(|p: Project| project_response(p))
}

/// What `get_project` answers: the project, or the first refusal. A caller who
/// is no member of the owning organization and a missing project get the same
/// answer.
pub open spec fn project_view(tables: Tables, user_id: Option<Id>, project_id: Id) -> Result<
    ProjectResponse,
    ErrorView,
> {
    match user_id {
        None => Err(principal_error(PrincipalFault::Authentication)),
        Some(uid) => match tables.project_for_member(project_id, uid) {
            Some(project) => Ok(project_response(project)),
            None => Err(refusal(Operation::ViewProject, None)),
        },
    }
}

/// Why a request on a project is refused, if it is.
pub open spec fn project_refusal(tables: Tables, op: Operation, user_id: Option<Id>, project_id: Id) -> Option<
    ErrorView,
> {
    match user_id {
        None => Some(principal_error(PrincipalFault::Authentication)),
        Some(uid) => {
            let role = role_text(tables.role_for_project(project_id, uid));
            if decision(op, role) == Access::Permitted {
                None
            } else {
                Some(refusal(op, role))
            }
        },
    }
}

/// Lets a slug pass that no project of the organization has, and refuses one
/// that is taken.
pub fn ensure_project_slug_free(taken: bool) -> (checked: Result<(), AppError>)
    ensures
        match checked {
            Ok(()) => !taken,
            Err(e) => taken && e@ == ErrorView::Conflict(
                "A project with this slug already exists in this organization"@,
            ),
        },
{
    if taken {
        Err(
            AppError::Conflict(
                String::from_str("A project with this slug already exists in this organization"),
            ),
        )
    } else {
        Ok(())
    }
}

/// The response for the project that was looked up, or the answer that there is
/// none.
pub fn project_or_not_found(found: Option<Project>) -> (response: Result<ProjectResponse, AppError>)
    ensures
        match response {
            Ok(r) => found matches Some(p) && r == project_response(p),
            Err(e) => found is None && e@ == refusal(Operation::ViewProject, None),
        },
{
    match found {
        Some(project) => Ok(ProjectResponse::from(project)),
        None => Err(AppError::NotFound(String::from_str("Project not found"))),
    }
}

/// Maps listed projects to their responses.
pub fn respond_with_projects(rows: &Vec<Project>) -> (responses: Vec<ProjectResponse>)
    ensures
        responses@ == project_responses(rows@),
{
    let mut responses: Vec<ProjectResponse> = Vec::new();
    let mut i: usize = 0;
    assert(rows@.subrange(0, 0) =~= Seq::<Project>::empty());
    while i < rows.len()
        invariant
            i <= rows.len(),
            responses@ == project_responses(rows@.subrange(0, i as int)),
        decreases rows.len() - i,
    {
        responses.push(ProjectResponse::from(rows[i].clone()));
        i += 1;
        assert(responses@ =~= project_responses(rows@.subrange(0, i as int)));
    }
    assert(rows@.subrange(0, rows.len() as int) =~= rows@);
    responses
}

/// What the next step of the creation of a project is, given the replies so
/// far: the membership of the caller in the organization is asked for; for a
/// member, whether the slug is taken there; for a free slug, the project is
/// added; then the answer is 201 with the project.
pub open spec fn create_project_plan(
    step: Result<Progress<(u16, ProjectResponse)>, AppError>,
    user_id: Option<Id>,
    org_id: Id,
    payload: CreateProjectRequest,
    replies: Seq<Reply>,
) -> bool {
    match user_id {
        None => step matches Err(e) && e@ == principal_error(PrincipalFault::Authentication),
        Some(uid) => if replies.len() == 0 {
            step matches Ok(Progress::Ask(Statement::Membership { organization_id, user_id: u }))
                && organization_id == org_id && u == uid
        } else {
            match replies[0] {
                Reply::Member(member) => if member is None {
                    step matches Err(e) && e@ == refusal(Operation::CreateProject, None)
                } else if replies.len() == 1 {
                    step matches Ok(
                        Progress::Ask(Statement::ProjectSlugExists { organization_id, slug }),
                    ) && organization_id == org_id && slug == payload.slug
                } else {
                    match replies[1] {
                        Reply::Flag(taken) => if taken {
                            step matches Err(e) && e@ == ErrorView::Conflict(
                                "A project with this slug already exists in this organization"@,
                            )
                        } else if replies.len() == 2 {
                            &&& step matches Ok(
                                Progress::Ask(
                                    Statement::InsertProject {
                                        organization_id,
                                        name,
                                        slug,
                                        description,
                                        status,
                                        color,
                                        created_by,
                                    },
                                ),
                            )
                            &&& organization_id == org_id
                            &&& name == payload.name
                            &&& slug == payload.slug
                            &&& description == payload.description
                            &&& status@ == text_or(payload.status, default_project_status())
                            &&& color matches Some(c)
                            &&& c@ == text_or(payload.color, default_project_color())
                            &&& created_by == uid
                        } else {
                            match replies[2] {
                                Reply::Project(Some(project)) => step matches Ok(
                                    Progress::Finished((code, response)),
                                ) && code == 201 && response == project_response(project),
                                other => step matches Err(e) && e@ == failure_while(
                                    fault_of(other),
                                    "Failed to create project"@,
                                ),
                            }
                        },
                        other => step matches Err(e) && e@ == failure_while(
                            fault_of(other),
                            "Failed to check project slug"@,
                        ),
                    }
                },
                other => step matches Err(e) && e@ == failure_while(
                    fault_of(other),
                    "Failed to check organization membership"@,
                ),
            }
        },
    }
}

/// The next step of the creation of a project.
pub fn create_project_step(
    auth_user: &AuthUser,
    org_id: Id,
    payload: &CreateProjectRequest,
    replies: &Vec<Reply>,
) -> (step: Result<Progress<(u16, ProjectResponse)>, AppError>)
    ensures
        create_project_plan(step, uuid_parsed(auth_user.user_id@), org_id, *payload, replies@),
        replies.len() >= 3 ==> !(step matches Ok(Progress::Ask(_))),
{
    let user_id = principal(auth_user, PrincipalFault::Authentication)?;
    let member = match member_at(replies, 0) {
        Ok(Some(member)) => member,
        Ok(None) => {
            return Ok(Progress::Ask(Statement::Membership { organization_id: org_id, user_id }));
        },
        Err(fault) => {
            return Err(failed_while(fault, "Failed to check organization membership"));
        },
    };
    authorize(Operation::CreateProject, &member_role(member))?;
    let taken = match flag_at(replies, 1) {
        Ok(Some(taken)) => *taken,
        Ok(None) => {
            return Ok(
                Progress::Ask(
                    Statement::ProjectSlugExists {
                        organization_id: org_id,
                        slug: payload.slug.clone(),
                    },
                ),
            );
        },
        Err(fault) => {
            return Err(failed_while(fault, "Failed to check project slug"));
        },
    };
    ensure_project_slug_free(taken)?;
    match project_at(replies, 2) {
        Ok(Some(Some(project))) => Ok(
            Progress::Finished((201, ProjectResponse::from(project.clone()))),
        ),
        Ok(Some(None)) => Err(AppError::unexpected()),
        Ok(None) => Ok(
            Progress::Ask(
                Statement::InsertProject {
                    organization_id: org_id,
                    name: payload.name.clone(),
                    slug: payload.slug.clone(),
                    description: clone_optional_text(&payload.description),
                    status: text_or_default(clone_optional_text(&payload.status), "planning"),
                    color: Some(text_or_default(clone_optional_text(&payload.color), "#3B82F6")),
                    created_by: user_id,
                },
            ),
        ),
        Err(fault) => Err(failed_while(fault, "Failed to create project")),
    }
}

/// Creates a project in an organization. Every member may.
pub fn create_project(
    state: &mut AppState,
    auth_user: &AuthUser,
    org_id: Id,
    payload: CreateProjectRequest,
    now: Timestamp,
) -> (created: Result<(u16, ProjectResponse), AppError>)
    requires
        old(state).store.wf(),
    ensures
        final(state).store.wf(),
        final(state).config == old(state).config,
        match created {
            Ok((code, response)) => {
                let row = final(state).store@.projects.last();
                &&& create_project_refusal(
                    old(state).store@,
                    uuid_parsed(auth_user.user_id@),
                    org_id,
                    payload.slug@,
                ) is None
                &&& code == 201
                &&& final(state).store@ == old(state).store@.with_project(row)
                &&& is_new_project(
                    row,
                    old(state).store@.next_id,
                    org_id,
                    payload,
                    uuid_parsed(auth_user.user_id@)->0,
                    now,
                )
                &&& response == project_response(row)
            },
            Err(e) => {
                &&& create_project_refusal(
                    old(state).store@,
                    uuid_parsed(auth_user.user_id@),
                    org_id,
                    payload.slug@,
                ) == Some(e@)
                &&& final(state).store@ == old(state).store@
            },
        },
{
    let mut replies: Vec<Reply> = Vec::new();
    match create_project_step(auth_user, org_id, &payload, &replies)? {
        Progress::Finished(answer) => {
            return Ok(answer);
        },
        Progress::Ask(statement) => record(&mut state.store, &mut replies, statement, now),
    }
    match create_project_step(auth_user, org_id, &payload, &replies)? {
        Progress::Finished(answer) => {
            return Ok(answer);
        },
        Progress::Ask(statement) => record(&mut state.store, &mut replies, statement, now),
    }
    match create_project_step(auth_user, org_id, &payload, &replies)? {
        Progress::Finished(answer) => {
            return Ok(answer);
        },
        Progress::Ask(statement) => record(&mut state.store, &mut replies, statement, now),
    }
    match create_project_step(auth_user, org_id, &payload, &replies)? {
        Progress::Finished(answer) => Ok(answer),
        Progress::Ask(_) => Err(AppError::unexpected()),
    }
}

/// What the next step of the listing of the projects of an organization is,
/// given the replies so far: the membership of the caller is asked for; for a
/// member, the projects; then the answer is their responses.
pub open spec fn list_projects_plan(
    step: Result<Progress<Vec<ProjectResponse>>, AppError>,
    user_id: Option<Id>,
    org_id: Id,
    replies: Seq<Reply>,
) -> bool {
    match user_id {
        None => step matches Err(e) && e@ == principal_error(PrincipalFault::Authentication),
        Some(uid) => if replies.len() == 0 {
            step matches Ok(Progress::Ask(Statement::Membership { organization_id, user_id: u }))
                && organization_id == org_id && u == uid
        } else {
            match replies[0] {
                Reply::Member(member) => if member is None {
                    step matches Err(e) && e@ == refusal(Operation::ListProjects, None)
                } else if replies.len() == 1 {
                    step matches Ok(
                        Progress::Ask(Statement::ProjectsOfOrganization { organization_id }),
                    ) && organization_id == org_id
                } else {
                    match replies[1] {
                        Reply::Projects(rows) => step matches Ok(Progress::Finished(responses))
                            && responses@ == project_responses(rows@),
                        other => step matches Err(e) && e@ == failure_while(
                            fault_of(other),
                            "Failed to fetch projects"@,
                        ),
                    }
                },
                other => step matches Err(e) && e@ == failure_while(
                    fault_of(other),
                    "Failed to check organization membership"@,
                ),
            }
        },
    }
}

/// The next step of the listing of the projects of an organization.
pub fn get_organization_projects_step(auth_user: &AuthUser, org_id: Id, replies: &Vec<Reply>) -> (step:
    Result<Progress<Vec<ProjectResponse>>, AppError>)
    ensures
        list_projects_plan(step, uuid_parsed(auth_user.user_id@), org_id, replies@),
        replies.len() >= 2 ==> !(step matches Ok(Progress::Ask(_))),
{
    let user_id = principal(auth_user, PrincipalFault::Authentication)?;
    let member = match member_at(replies, 0) {
        Ok(Some(member)) => member,
        Ok(None) => {
            return Ok(Progress::Ask(Statement::Membership { organization_id: org_id, user_id }));
        },
        Err(fault) => {
            return Err(failed_while(fault, "Failed to check organization membership"));
        },
    };
    authorize(Operation::ListProjects, &member_role(member))?;
    match projects_at(replies, 1) {
        Ok(Some(rows)) => Ok(Progress::Finished(respond_with_projects(rows))),
        Ok(None) => Ok(
            Progress::Ask(Statement::ProjectsOfOrganization { organization_id: org_id }),
        ),
        Err(fault) => Err(failed_while(fault, "Failed to fetch projects")),
    }
}

/// The projects of an organization, newest first. Every member may see them.
pub fn get_organization_projects(state: &mut AppState, auth_user: &AuthUser, org_id: Id) -> (listed:
    Result<Vec<ProjectResponse>, AppError>)
    requires
        old(state).store.wf(),
    ensures
        final(state).store.wf(),
        final(state).config == old(state).config,
        final(state).store@ == old(state).store@,
        match listed {
            Ok(responses) => {
                &&& uuid_parsed(auth_user.user_id@) matches Some(uid)
                &&& old(state).store@.role_in_organization(org_id, uid) is Some
                &&& exists|found: Seq<Project>|
                    #![trigger project_responses(found)]
                    is_listing(
                        found,
                        old(state).store@.projects,
                        project_of(org_id),
                        project_order(),
                    ) && responses@ == project_responses(found)
            },
            Err(e) => match uuid_parsed(auth_user.user_id@) {
                None => e@ == principal_error(PrincipalFault::Authentication),
                Some(uid) => old(state).store@.role_in_organization(org_id, uid) is None && e@
                    == refusal(Operation::ListProjects, None),
            },
        },
{
    let mut replies: Vec<Reply> = Vec::new();
    match get_organization_projects_step(auth_user, org_id, &replies)? {
        Progress::Finished(answer) => {
            return Ok(answer);
        },
        Progress::Ask(statement) => record(&mut state.store, &mut replies, statement, 0),
    }
    match get_organization_projects_step(auth_user, org_id, &replies)? {
        Progress::Finished(answer) => {
            return Ok(answer);
        },
        Progress::Ask(statement) => record(&mut state.store, &mut replies, statement, 0),
    }
    match get_organization_projects_step(auth_user, org_id, &replies)? {
        Progress::Finished(answer) => {
            assert(replies@[1] is Projects);
            assert(answer@ == project_responses(replies@[1]->Projects_0@));
            Ok(answer)
        },
        Progress::Ask(_) => Err(AppError::unexpected()),
    }
}

/// What the next step of the reading of a project is, given the replies so far:
/// the project is asked for as the caller may see it; then the answer is the
/// project, or that there is none.
pub open spec fn get_project_plan(
    step: Result<Progress<ProjectResponse>, AppError>,
    user_id: Option<Id>,
    project_id: Id,
    replies: Seq<Reply>,
) -> bool {
    match user_id {
        None => step matches Err(e) && e@ == principal_error(PrincipalFault::Authentication),
        Some(uid) => if replies.len() == 0 {
            step matches Ok(Progress::Ask(Statement::ProjectForMember { project_id: p, user_id: u }))
                && p == project_id && u == uid
        } else {
            match replies[0] {
                Reply::Project(Some(project)) => step matches Ok(Progress::Finished(response))
                    && response == project_response(project),
                Reply::Project(None) => step matches Err(e) && e@ == refusal(
                    Operation::ViewProject,
                    None,
                ),
                other => step matches Err(e) && e@ == failure_while(
                    fault_of(other),
                    "Failed to fetch project"@,
                ),
            }
        },
    }
}

/// The next step of the reading of a project.
pub fn get_project_step(auth_user: &AuthUser, project_id: Id, replies: &Vec<Reply>) -> (step: Result<
    Progress<ProjectResponse>,
    AppError,
>)
    ensures
        get_project_plan(step, uuid_parsed(auth_user.user_id@), project_id, replies@),
        replies.len() >= 1 ==> !(step matches Ok(Progress::Ask(_))),
{
    let user_id = principal(auth_user, PrincipalFault::Authentication)?;
    match project_at(replies, 0) {
        Ok(Some(found)) => Ok(Progress::Finished(project_or_not_found(clone_project(found))?)),
        Ok(None) => Ok(Progress::Ask(Statement::ProjectForMember { project_id, user_id })),
        Err(fault) => Err(failed_while(fault, "Failed to fetch project")),
    }
}

/// A copy of a project that was looked up.
fn clone_project(found: &Option<Project>) -> (copy: Option<Project>)
    ensures
        copy == *found,
{
    match found {
        Some(project) => Some(project.clone()),
        None => None,
    }
}

/// One project. Only members of the organization that owns it see it.
pub fn get_project(state: &mut AppState, auth_user: &AuthUser, project_id: Id) -> (found: Result<
    ProjectResponse,
    AppError,
>)
    requires
        old(state).store.wf(),
    ensures
        final(state).store.wf(),
        final(state).config == old(state).config,
        final(state).store@ == old(state).store@,
        agrees(
            found,
            project_view(old(state).store@, uuid_parsed(auth_user.user_id@), project_id),
        ),
{
    let mut replies: Vec<Reply> = Vec::new();
    match get_project_step(auth_user, project_id, &replies)? {
        Progress::Finished(answer) => {
            return Ok(answer);
        },
        Progress::Ask(statement) => record(&mut state.store, &mut replies, statement, 0),
    }
    match get_project_step(auth_user, project_id, &replies)? {
        Progress::Finished(answer) => Ok(answer),
        Progress::Ask(_) => Err(AppError::unexpected()),
    }
}

/// What the next step of the update of a project is, given the replies so far:
/// the role of the caller towards the project is asked for; for a member, the
/// project is changed; then the answer is the changed project.
pub open spec fn update_project_plan(
    step: Result<Progress<ProjectResponse>, AppError>,
    user_id: Option<Id>,
    project_id: Id,
    payload: UpdateProjectRequest,
    replies: Seq<Reply>,
) -> bool {
    gated(
        step,
        user_id,
        Operation::UpdateProject,
        replies,
        "Failed to check project access"@,
        |statement: Statement, uid: Id|
            statement == (Statement::RoleForProject { project_id, user_id: uid }),
        |uid: Id|
            if replies.len() == 1 {
                step == Ok::<Progress<ProjectResponse>, AppError>(
                    Progress::Ask(
                        Statement::UpdateProject {
                            id: project_id,
                            name: payload.name,
                            description: payload.description,
                            status: payload.status,
                            color: payload.color,
                        },
                    ),
                )
            } else {
                match replies[1] {
                    Reply::Project(Some(project)) => step matches Ok(Progress::Finished(response))
                        && response == project_response(project),
                    other => step matches Err(e) && e@ == failure_while(
                        fault_of(other),
                        "Failed to update project"@,
                    ),
                }
            },
    )
}

/// The next step of the update of a project.
pub fn update_project_step(
    auth_user: &AuthUser,
    project_id: Id,
    payload: &UpdateProjectRequest,
    replies: &Vec<Reply>,
) -> (step: Result<Progress<ProjectResponse>, AppError>)
    ensures
        update_project_plan(step, uuid_parsed(auth_user.user_id@), project_id, *payload, replies@),
        replies.len() >= 2 ==> !(step matches Ok(Progress::Ask(_))),
{
    let user_id = principal(auth_user, PrincipalFault::Authentication)?;
    let role = match role_at(replies, 0) {
        Ok(Some(role)) => role,
        Ok(None) => {
            return Ok(Progress::Ask(Statement::RoleForProject { project_id, user_id }));
        },
        Err(fault) => {
            return Err(failed_while(fault, "Failed to check project access"));
        },
    };
    authorize(Operation::UpdateProject, role)?;
    match project_at(replies, 1) {
        Ok(Some(Some(project))) => Ok(Progress::Finished(ProjectResponse::from(project.clone()))),
        Ok(Some(None)) => Err(AppError::unexpected()),
        Ok(None) => Ok(
            Progress::Ask(
                Statement::UpdateProject {
                    id: project_id,
                    name: clone_optional_text(&payload.name),
                    description: clone_optional_text(&payload.description),
                    status: clone_optional_text(&payload.status),
                    color: clone_optional_text(&payload.color),
                },
            ),
        ),
        Err(fault) => Err(failed_while(fault, "Failed to update project")),
    }
}

/// Changes the fields of a project for which the request gives a value. Every
/// member of the organization that owns it may.
pub fn update_project(
    state: &mut AppState,
    auth_user: &AuthUser,
    project_id: Id,
    payload: UpdateProjectRequest,
    now: Timestamp,
) -> (updated: Result<ProjectResponse, AppError>)
    requires
        old(state).store.wf(),
    ensures
        final(state).store.wf(),
        final(state).config == old(state).config,
        match updated {
            Ok(response) => {
                &&& project_refusal(
                    old(state).store@,
                    Operation::UpdateProject,
                    uuid_parsed(auth_user.user_id@),
                    project_id,
                ) is None
                &&& old(state).store@.project_by_id(project_id) matches Some(before)
                &&& response == project_response(
                    patched_project(
                        before,
                        payload.name,
                        payload.description,
                        payload.status,
                        payload.color,
                        now,
                    ),
                )
                &&& final(state).store@ == old(state).store@.with_project_at(
                    old(state).store@.project_row(project_id),
                    patched_project(
                        before,
                        payload.name,
                        payload.description,
                        payload.status,
                        payload.color,
                        now,
                    ),
                )
            },
            Err(e) => {
                &&& project_refusal(
                    old(state).store@,
                    Operation::UpdateProject,
                    uuid_parsed(auth_user.user_id@),
                    project_id,
                ) == Some(e@)
                &&& final(state).store@ == old(state).store@
            },
        },
{
    let mut replies: Vec<Reply> = Vec::new();
    match update_project_step(auth_user, project_id, &payload, &replies)? {
        Progress::Finished(answer) => {
            return Ok(answer);
        },
        Progress::Ask(statement) => record(&mut state.store, &mut replies, statement, now),
    }
    match update_project_step(auth_user, project_id, &payload, &replies)? {
        Progress::Finished(answer) => {
            return Ok(answer);
        },
        Progress::Ask(statement) => record(&mut state.store, &mut replies, statement, now),
    }
    match update_project_step(auth_user, project_id, &payload, &replies)? {
        Progress::Finished(answer) => Ok(answer),
        Progress::Ask(_) => Err(AppError::unexpected()),
    }
}

/// What the next step of the deletion of a project is, given the replies so
/// far: first the role of the caller towards the project is asked for; a
/// permitted caller has the project deleted; then the answer is 204.
pub open spec fn delete_project_plan(
    step: Result<Progress<u16>, AppError>,
    user_id: Option<Id>,
    project_id: Id,
    replies: Seq<Reply>,
) -> bool {
    gated(
        step,
        user_id,
        Operation::DeleteProject,
        replies,
        "Failed to check project access"@,
        |statement: Statement, uid: Id|
            statement == (Statement::RoleForProject { project_id, user_id: uid }),
        |uid: Id|
            if replies.len() == 1 {
                step == Ok::<Progress<u16>, AppError>(
                    Progress::Ask(Statement::DeleteProject { id: project_id }),
                )
            } else {
                match replies[1] {
                    Reply::Done => step == Ok::<Progress<u16>, AppError>(Progress::Finished(204)),
                    other => step matches Err(e) && e@ == failure_while(
                        fault_of(other),
                        "Failed to delete project"@,
                    ),
                }
            },
    )
}

/// The next step of the deletion of a project.
pub fn delete_project_step(auth_user: &AuthUser, project_id: Id, replies: &Vec<Reply>) -> (step: Result<
    Progress<u16>,
    AppError,
>)
    ensures
        delete_project_plan(step, uuid_parsed(auth_user.user_id@), project_id, replies@),
        replies.len() >= 2 ==> !(step matches Ok(Progress::Ask(_))),
{
    let user_id = principal(auth_user, PrincipalFault::Authentication)?;
    let role = match role_at(replies, 0) {
        Ok(Some(role)) => role,
        Ok(None) => {
            return Ok(Progress::Ask(Statement::RoleForProject { project_id, user_id }));
        },
        Err(fault) => {
            return Err(failed_while(fault, "Failed to check project access"));
        },
    };
    authorize(Operation::DeleteProject, role)?;
    match done_at(replies, 1) {
        Ok(true) => Ok(Progress::Finished(204)),
        Ok(false) => Ok(Progress::Ask(Statement::DeleteProject { id: project_id })),
        Err(fault) => Err(failed_while(fault, "Failed to delete project")),
    }
}

/// Deletes a project. Only an owner or an admin of the organization that owns it
/// may; to any other member it is forbidden, and to a caller who is no member
/// the project does not exist.
pub fn delete_project(state: &mut AppState, auth_user: &AuthUser, project_id: Id) -> (deleted: Result<
    u16,
    AppError,
>)
    requires
        old(state).store.wf(),
    ensures
        final(state).store.wf(),
        final(state).config == old(state).config,
        match deleted {
            Ok(code) => {
                &&& project_refusal(
                    old(state).store@,
                    Operation::DeleteProject,
                    uuid_parsed(auth_user.user_id@),
                    project_id,
                ) is None
                &&& code == 204
                &&& final(state).store@ == old(state).store@.without_project(project_id)
                &&& final(state).store@.project_by_id(project_id) is None
            },
            Err(e) => {
                &&& project_refusal(
                    old(state).store@,
                    Operation::DeleteProject,
                    uuid_parsed(auth_user.user_id@),
                    project_id,
                ) == Some(e@)
                &&& final(state).store@ == old(state).store@
            },
        },
{
    let mut replies: Vec<Reply> = Vec::new();
    match delete_project_step(auth_user, project_id, &replies)? {
        Progress::Finished(code) => {
            return Ok(code);
        },
        Progress::Ask(statement) => record(&mut state.store, &mut replies, statement, 0),
    }
    match delete_project_step(auth_user, project_id, &replies)? {
        Progress::Finished(code) => {
            return Ok(code);
        },
        Progress::Ask(statement) => record(&mut state.store, &mut replies, statement, 0),
    }
    match delete_project_step(auth_user, project_id, &replies)? {
        Progress::Finished(code) => Ok(code),
        Progress::Ask(_) => Err(AppError::unexpected()),
    }
}

} // verus!
