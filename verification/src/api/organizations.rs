//! The handlers of organizations and their members.

use vstd::prelude::*;
use vstd::string::StringExecFns;
use vstd::string::StrSliceExecFns;
use crate::access::{Operation, PrincipalFault, authorize, principal, principal_error, refusal};
use crate::api::steps::{failed_with_text, failure_with_text, member_role};
use crate::error::{AppError, ErrorView, agrees};
use crate::ident::uuid_parsed;
use crate::models::{AuthUser, Id, MemberRole, Organization, Timestamp};
use crate::state::AppState;
use crate::store::organizations::{
    MemberWithUser, OrganizationWithRole, created_organization, granted_membership,
};
use crate::store::protocol::{
    Progress, Reply, Statement, fault_of, flag_at, member_at, members_at, organization_at,
    organizations_at, record,
};
use crate::store::{StoreError, Tables, store_error_text};
use crate::text::{clone_optional_text, is_ascii_alnum};

verus! {

/// The body of a request to create an organization.
#[derive(Debug)]
pub struct CreateOrganizationRequest {
    pub name: String,
    pub slug: String,
    pub description: Option<String>,
}

/// An organization as the caller sees it, with the caller's own role.
#[derive(Debug)]
pub struct OrganizationResponse {
    pub id: Id,
    pub name: String,
    pub slug: String,
    pub description: Option<String>,
    pub logo_url: Option<String>,
    pub website: Option<String>,
    pub is_active: bool,
    pub role: Option<String>,
}

/// A member of an organization with the profile of the user.
#[derive(Debug)]
pub struct OrganizationMemberResponse {
    pub id: Id,
    pub user_id: Id,
    pub user_email: String,
    pub user_first_name: Option<String>,
    pub user_last_name: Option<String>,
    pub role: String,
    pub joined_at: Timestamp,
}

/// A slug is one or more ASCII letters, digits and hyphens.
pub open spec fn valid_slug(slug: Seq<char>) -> bool {
    slug.len() > 0 && forall|i: int|
        0 <= i < slug.len() ==> is_ascii_alnum(#[trigger] slug[i]) || slug[i] == '-'
}

/// The response for an organization and the caller's role in it.
pub open spec fn organization_response(organization: Organization, role: String) -> OrganizationResponse {
    OrganizationResponse {
        id: organization.id,
        name: organization.name,
        slug: organization.slug,
        description: organization.description,
        logo_url: organization.logo_url,
        website: organization.website,
        is_active: organization.is_active,
        role: Some(role),
    }
}

/// The response for a listed organization.
pub open spec fn listed_organization_response(listed: OrganizationWithRole) -> OrganizationResponse {
    organization_response(listed.organization, listed.role)
}

/// The response for a listed member.
pub open spec fn member_response(listed: MemberWithUser) -> OrganizationMemberResponse {
    OrganizationMemberResponse {
        id: listed.member.id,
        user_id: listed.member.user_id,
        user_email: listed.user.email,
        user_first_name: listed.user.first_name,
        user_last_name: listed.user.last_name,
        role: listed.member.role,
        joined_at: listed.member.joined_at,
    }
}

/// The responses for listed organizations, in their order.
pub open spec fn organization_responses(rows: Seq<OrganizationWithRole>) -> Seq<OrganizationResponse> {
    rows.map_values(|x: OrganizationWithRole| listed_organization_response(x))
}

/// The responses for listed members, in their order.
pub open spec fn member_responses(rows: Seq<MemberWithUser>) -> Seq<OrganizationMemberResponse> {
    rows.map_values(|x: MemberWithUser| member_response(x))
}

/// The message for a slug that is taken.
pub open spec fn slug_conflict_message(slug: Seq<char>) -> Seq<char> {
    "Organization with slug '"@ + slug + "' already exists"@
}

/// Why an organization cannot be created, if it cannot: the first of the checks
/// that fails.
pub open spec fn create_organization_refusal(tables: Tables, user_id: Option<Id>, slug: Seq<char>) -> Option<
    ErrorView,
> {
    if user_id is None {
        Some(principal_error(PrincipalFault::Internal))
    } else if !valid_slug(slug) {
        Some(ErrorView::Validation("Slug can only contain letters, numbers, and hyphens"@))
    } else if tables.organization_slug_taken(slug) {
        Some(ErrorView::Conflict(slug_conflict_message(slug)))
    } else if tables.next_id + 1 >= u128::MAX {
        Some(ErrorView::DatabaseError(store_error_text(StoreError::IdentifiersExhausted)))
    } else {
        None
    }
}

/// Whether a slug is one or more ASCII letters, digits and hyphens.
pub fn slug_is_valid(slug: &str) -> (valid: bool)
    ensures
        valid == valid_slug(slug@),
{
    let n = slug.unicode_len();
    if n == 0 {
        return false;
    }
    let mut i: usize = 0;
    while i < n
        invariant
            i <= n,
            n == slug@.len(),
            forall|j: int| 0 <= j < i ==> is_ascii_alnum(#[trigger] slug@[j]) || slug@[j] == '-',
        decreases n - i,
    {
        let c = slug.get_char(i);
        let fits = (c >= 'a' && c <= 'z') || (c >= 'A' && c <= 'Z') || (c >= '0' && c <= '9') || c
            == '-';
        if !fits {
            return false;
        }
        i += 1;
    }
    true
}

/// Lets a valid slug pass and refuses any other.
pub fn check_slug(slug: &str) -> (checked: Result<(), AppError>)
    ensures
        match checked {
            Ok(()) => valid_slug(slug@),
            Err(e) => !valid_slug(slug@) && e@ == ErrorView::Validation(
                "Slug can only contain letters, numbers, and hyphens"@,
            ),
        },
{
    if slug_is_valid(slug) {
        Ok(())
    } else {
        Err(
            AppError::Validation(
                String::from_str("Slug can only contain letters, numbers, and hyphens"),
            ),
        )
    }
}

/// Lets a slug pass that no organization has, and refuses one that is taken.
pub fn ensure_slug_free(taken: bool, slug: &str) -> (checked: Result<(), AppError>)
    ensures
        match checked {
            Ok(()) => !taken,
            Err(e) => taken && e@ == ErrorView::Conflict(slug_conflict_message(slug@)),
        },
{
    if taken {
        let message = String::from_str("Organization with slug '").concat(slug).concat(
            "' already exists",
        );
        Err(AppError::Conflict(message))
    } else {
        Ok(())
    }
}

/// The response for an organization and the caller's role in it.
pub fn respond_with_organization(organization: Organization, role: String) -> (response:
    OrganizationResponse)
    ensures
        response == organization_response(organization, role),
{
    OrganizationResponse {
        id: organization.id,
        name: organization.name,
        slug: organization.slug,
        description: organization.description,
        logo_url: organization.logo_url,
        website: organization.website,
        is_active: organization.is_active,
        role: Some(role),
    }
}

/// The organization that was looked up, or the answer that there is none.
pub fn organization_or_not_found(found: Option<Organization>) -> (organization: Result<
    Organization,
    AppError,
>)
    ensures
        match organization {
            Ok(o) => found == Some(o),
            Err(e) => found is None && e@ == ErrorView::NotFound("Organization not found"@),
        },
{
    match found {
        Some(o) => Ok(o),
        None => Err(AppError::NotFound(String::from_str("Organization not found"))),
    }
}

/// Maps listed organizations to their responses.
pub fn respond_with_organizations(rows: &Vec<OrganizationWithRole>) -> (responses: Vec<
    OrganizationResponse,
>)
    ensures
        responses@ == organization_responses(rows@),
{
    let mut responses: Vec<OrganizationResponse> = Vec::new();
    let mut i: usize = 0;
    assert(rows@.subrange(0, 0) =~= Seq::<OrganizationWithRole>::empty());
    while i < rows.len()
        invariant
            i <= rows.len(),
            responses@ == organization_responses(rows@.subrange(0, i as int)),
        decreases rows.len() - i,
    {
        responses.push(
            respond_with_organization(rows[i].organization.clone(), rows[i].role.clone()),
        );
        i += 1;
        assert(responses@ =~= organization_responses(rows@.subrange(0, i as int)));
    }
    assert(rows@.subrange(0, rows.len() as int) =~= rows@);
    responses
}

/// Maps listed members to their responses.
pub fn respond_with_members(rows: &Vec<MemberWithUser>) -> (responses: Vec<
    OrganizationMemberResponse,
>)
    ensures
        responses@ == member_responses(rows@),
{
    let mut responses: Vec<OrganizationMemberResponse> = Vec::new();
    let mut i: usize = 0;
    assert(rows@.subrange(0, 0) =~= Seq::<MemberWithUser>::empty());
    while i < rows.len()
        invariant
            i <= rows.len(),
            responses@ == member_responses(rows@.subrange(0, i as int)),
        decreases rows.len() - i,
    {
        let row = &rows[i];
        responses.push(
            OrganizationMemberResponse {
                id: row.member.id,
                user_id: row.member.user_id,
                user_email: row.user.email.clone(),
                user_first_name: clone_optional_text(&row.user.first_name),
                user_last_name: clone_optional_text(&row.user.last_name),
                role: row.member.role.clone(),
                joined_at: row.member.joined_at,
            },
        );
        i += 1;
        assert(responses@ =~= member_responses(rows@.subrange(0, i as int)));
    }
    assert(rows@.subrange(0, rows.len() as int) =~= rows@);
    responses
}

/// A copy of an organization that was looked up.
fn clone_organization(found: &Option<Organization>) -> (copy: Option<Organization>)
    ensures
        copy == *found,
{
    match found {
        Some(organization) => Some(organization.clone()),
        None => None,
    }
}

/// What the next step of the creation of an organization is, given the replies
/// so far: for a valid slug it is asked whether the slug is taken; for a free
/// slug the organization is added; then the caller is made its owner; then the
/// answer is 201 with the organization and the role `owner`.
pub open spec fn create_organization_plan(
    step: Result<Progress<(u16, OrganizationResponse)>, AppError>,
    user_id: Option<Id>,
    req: CreateOrganizationRequest,
    replies: Seq<Reply>,
) -> bool {
    match user_id {
        None => step matches Err(e) && e@ == principal_error(PrincipalFault::Internal),
        Some(uid) => if !valid_slug(req.slug@) {
            step matches Err(e) && e@ == ErrorView::Validation(
                "Slug can only contain letters, numbers, and hyphens"@,
            )
        } else if replies.len() == 0 {
            step == Ok::<Progress<(u16, OrganizationResponse)>, AppError>(
                Progress::Ask(Statement::OrganizationSlugExists { slug: req.slug }),
            )
        } else {
            match replies[0] {
                Reply::Flag(taken) => if taken {
                    step matches Err(e) && e@ == ErrorView::Conflict(
                        slug_conflict_message(req.slug@),
                    )
                } else if replies.len() == 1 {
                    step == Ok::<Progress<(u16, OrganizationResponse)>, AppError>(
                        Progress::Ask(
                            Statement::InsertOrganization {
                                name: req.name,
                                slug: req.slug,
                                description: req.description,
                            },
                        ),
                    )
                } else {
                    match replies[1] {
                        Reply::Organization(Some(organization)) => if replies.len() == 2 {
                            &&& step matches Ok(
                                Progress::Ask(
                                    Statement::InsertMember {
                                        organization_id,
                                        user_id: u,
                                        role,
                                        invited_by,
                                    },
                                ),
                            )
                            &&& organization_id == organization.id
                            &&& u == uid
                            &&& role@ == "owner"@
                            &&& invited_by is None
                        } else {
                            match replies[2] {
                                Reply::Member(Some(_)) => {
                                    &&& step matches Ok(Progress::Finished((code, response)))
                                    &&& code == 201
                                    &&& response.role matches Some(role)
                                    &&& role@ == "owner"@
                                    &&& response == organization_response(organization, role)
                                },
                                other => step matches Err(e) && e@ == failure_with_text(
                                    fault_of(other),
                                ),
                            }
                        },
                        other => step matches Err(e) && e@ == failure_with_text(fault_of(other)),
                    }
                },
                other => step matches Err(e) && e@ == failure_with_text(fault_of(other)),
            }
        },
    }
}

/// The next step of the creation of an organization.
pub fn create_organization_step(
    auth: &AuthUser,
    req: &CreateOrganizationRequest,
    replies: &Vec<Reply>,
) -> (step: Result<Progress<(u16, OrganizationResponse)>, AppError>)
    ensures
        create_organization_plan(step, uuid_parsed(auth.user_id@), *req, replies@),
        replies.len() >= 3 ==> !(step matches Ok(Progress::Ask(_))),
{
    let user_id = principal(auth, PrincipalFault::Internal)?;
    check_slug(req.slug.as_str())?;
    let taken = match flag_at(replies, 0) {
        Ok(Some(taken)) => *taken,
        Ok(None) => {
            return Ok(Progress::Ask(Statement::OrganizationSlugExists { slug: req.slug.clone() }));
        },
        Err(fault) => {
            return Err(failed_with_text(fault));
        },
    };
    ensure_slug_free(taken, req.slug.as_str())?;
    let organization = match organization_at(replies, 1) {
        Ok(Some(Some(organization))) => organization,
        Ok(Some(None)) => {
            return Err(AppError::unexpected());
        },
        Ok(None) => {
            return Ok(
                Progress::Ask(
                    Statement::InsertOrganization {
                        name: req.name.clone(),
                        slug: req.slug.clone(),
                        description: clone_optional_text(&req.description),
                    },
                ),
            );
        },
        Err(fault) => {
            return Err(failed_with_text(fault));
        },
    };
    match member_at(replies, 2) {
        Ok(Some(Some(_))) => Ok(
            Progress::Finished(
                (201, respond_with_organization(organization.clone(), MemberRole::Owner.to_text())),
            ),
        ),
        Ok(Some(None)) => Err(AppError::unexpected()),
        Ok(None) => Ok(
            Progress::Ask(
                Statement::InsertMember {
                    organization_id: organization.id,
                    user_id,
                    role: MemberRole::Owner.to_text(),
                    invited_by: None,
                },
            ),
        ),
        Err(fault) => Err(failed_with_text(fault)),
    }
}

/// Creates an organization and makes the caller its owner.
pub fn create_organization(
    state: &mut AppState,
    auth: &AuthUser,
    req: CreateOrganizationRequest,
    now: Timestamp,
) -> (created: Result<(u16, OrganizationResponse), AppError>)
    requires
        old(state).store.wf(),
    ensures
        final(state).store.wf(),
        final(state).config == old(state).config,
        match created {
            Ok((code, response)) => {
                let organization = created_organization(
                    old(state).store@.next_id,
                    req.name,
                    req.slug,
                    req.description,
                    now,
                );
                &&& create_organization_refusal(
                    old(state).store@,
                    uuid_parsed(auth.user_id@),
                    req.slug@,
                ) is None
                &&& code == 201
                &&& response.role matches Some(role)
                &&& role@ == "owner"@
                &&& response == organization_response(organization, role)
                &&& final(state).store@.members.len() == old(state).store@.members.len() + 1
                &&& final(state).store@.members.last().role@ == "owner"@
                &&& final(state).store@.members.last() == granted_membership(
                    (organization.id + 1) as Id,
                    organization.id,
                    uuid_parsed(auth.user_id@)->0,
                    final(state).store@.members.last().role,
                    None,
                    now,
                )
                &&& final(state).store@ == old(state).store@.with_organization(
                    organization,
                ).with_member(final(state).store@.members.last())
            },
            Err(e) => {
                &&& create_organization_refusal(
                    old(state).store@,
                    uuid_parsed(auth.user_id@),
                    req.slug@,
                ) == Some(e@)
                &&& final(state).store@ == if e@ is DatabaseError && old(state).store@.next_id
                    < u128::MAX {
                    old(state).store@.with_organization(
                        created_organization(
                            old(state).store@.next_id,
                            req.name,
                            req.slug,
                            req.description,
                            now,
                        ),
                    )
                } else {
                    old(state).store@
                }
            },
        },
{
    let mut replies: Vec<Reply> = Vec::new();
    match create_organization_step(auth, &req, &replies)? {
        Progress::Finished(answer) => {
            return Ok(answer);
        },
        Progress::Ask(statement) => record(&mut state.store, &mut replies, statement, now),
    }
    match create_organization_step(auth, &req, &replies)? {
        Progress::Finished(answer) => {
            return Ok(answer);
        },
        Progress::Ask(statement) => record(&mut state.store, &mut replies, statement, now),
    }
    proof {
        let t = old(state).store@;
        let grown = state.store@;
        if let Reply::Organization(Some(organization)) = replies@[1] {
            assert(grown.organizations.last() == organization);
            assert(grown.organization_has_id(t.organizations.len() as int, organization.id));
            assert forall|i: int|
                !grown.member_joins(i, organization.id, uuid_parsed(auth.user_id@)->0) by {
                if grown.member_joins(i, organization.id, uuid_parsed(auth.user_id@)->0) {
                    assert(t.members[i].organization_id < t.next_id);
                }
            }
        }
    }
    match create_organization_step(auth, &req, &replies)? {
        Progress::Finished(answer) => {
            return Ok(answer);
        },
        Progress::Ask(statement) => record(&mut state.store, &mut replies, statement, now),
    }
    match create_organization_step(auth, &req, &replies)? {
        Progress::Finished(answer) => Ok(answer),
        Progress::Ask(_) => Err(AppError::unexpected()),
    }
}

/// What the next step of the listing of the organizations of the caller is,
/// given the replies so far: the organizations are asked for; then the answer
/// is their responses.
pub open spec fn list_organizations_plan(
    step: Result<Progress<Vec<OrganizationResponse>>, AppError>,
    user_id: Option<Id>,
    replies: Seq<Reply>,
) -> bool {
    match user_id {
        None => step matches Err(e) && e@ == principal_error(PrincipalFault::Internal),
        Some(uid) => if replies.len() == 0 {
            step == Ok::<Progress<Vec<OrganizationResponse>>, AppError>(
                Progress::Ask(Statement::OrganizationsOfUser { user_id: uid }),
            )
        } else {
            match replies[0] {
                Reply::Organizations(rows) => step matches Ok(Progress::Finished(responses))
                    && responses@ == organization_responses(rows@),
                other => step matches Err(e) && e@ == failure_with_text(fault_of(other)),
            }
        },
    }
}

/// The next step of the listing of the organizations of the caller.
pub fn get_my_organizations_step(auth: &AuthUser, replies: &Vec<Reply>) -> (step: Result<
    Progress<Vec<OrganizationResponse>>,
    AppError,
>)
    ensures
        list_organizations_plan(step, uuid_parsed(auth.user_id@), replies@),
        replies.len() >= 1 ==> !(step matches Ok(Progress::Ask(_))),
{
    let user_id = principal(auth, PrincipalFault::Internal)?;
    match organizations_at(replies, 0) {
        Ok(Some(rows)) => Ok(Progress::Finished(respond_with_organizations(rows))),
        Ok(None) => Ok(Progress::Ask(Statement::OrganizationsOfUser { user_id })),
        Err(fault) => Err(failed_with_text(fault)),
    }
}

/// The organizations of the caller, each with the caller's role, newest first.
pub fn get_my_organizations(state: &mut AppState, auth: &AuthUser) -> (listed: Result<
    Vec<OrganizationResponse>,
    AppError,
>)
    requires
        old(state).store.wf(),
    ensures
        final(state).store.wf(),
        final(state).config == old(state).config,
        final(state).store@ == old(state).store@,
        match listed {
            Ok(responses) => {
                &&& uuid_parsed(auth.user_id@) is Some
                &&& exists|found: Seq<OrganizationWithRole>|
                    #![trigger organization_responses(found)]
                    old(state).store@.lists_organizations(found, uuid_parsed(auth.user_id@)->0)
                        && responses@ == organization_responses(found)
            },
            Err(e) => uuid_parsed(auth.user_id@) is None && e@ == principal_error(
                PrincipalFault::Internal,
            ),
        },
{
    let mut replies: Vec<Reply> = Vec::new();
    match get_my_organizations_step(auth, &replies)? {
        Progress::Finished(answer) => {
            return Ok(answer);
        },
        Progress::Ask(statement) => record(&mut state.store, &mut replies, statement, 0),
    }
    match get_my_organizations_step(auth, &replies)? {
        Progress::Finished(answer) => {
            assert(replies@[0] is Organizations);
            assert(answer@ == organization_responses(replies@[0]->Organizations_0@));
            Ok(answer)
        },
        Progress::Ask(_) => Err(AppError::unexpected()),
    }
}

/// What `get_organization` answers: the organization with the caller's role, or
/// the first refusal. A caller who is no member and a missing organization get
/// the same kind of answer.
pub open spec fn organization_view(tables: Tables, user_id: Option<Id>, organization_id: Id) -> Result<
    OrganizationResponse,
    ErrorView,
> {
    match user_id {
        None => Err(principal_error(PrincipalFault::Internal)),
        Some(uid) => match tables.role_in_organization(organization_id, uid) {
            None => Err(refusal(Operation::ViewOrganization, None)),
            Some(role) => match tables.active_organization(organization_id) {
                None => Err(ErrorView::NotFound("Organization not found"@)),
                Some(organization) => Ok(organization_response(organization, role)),
            },
        },
    }
}

/// What the next step of the reading of an organization is, given the replies
/// so far: the membership of the caller is asked for; for a member, the active
/// organization; then the answer is the organization with the caller's role, or
/// that there is none.
pub open spec fn get_organization_plan(
    step: Result<Progress<OrganizationResponse>, AppError>,
    user_id: Option<Id>,
    org_id: Id,
    replies: Seq<Reply>,
) -> bool {
    match user_id {
        None => step matches Err(e) && e@ == principal_error(PrincipalFault::Internal),
        Some(uid) => if replies.len() == 0 {
            step == Ok::<Progress<OrganizationResponse>, AppError>(
                Progress::Ask(Statement::Membership { organization_id: org_id, user_id: uid }),
            )
        } else {
            match replies[0] {
                Reply::Member(None) => step matches Err(e) && e@ == refusal(
                    Operation::ViewOrganization,
                    None,
                ),
                Reply::Member(Some(member)) => if replies.len() == 1 {
                    step == Ok::<Progress<OrganizationResponse>, AppError>(
                        Progress::Ask(Statement::ActiveOrganization { id: org_id }),
                    )
                } else {
                    match replies[1] {
                        Reply::Organization(None) => step matches Err(e) && e@
                            == ErrorView::NotFound("Organization not found"@),
                        Reply::Organization(Some(organization)) => step matches Ok(
                            Progress::Finished(response),
                        ) && response == organization_response(organization, member.role),
                        other => step matches Err(e) && e@ == failure_with_text(fault_of(other)),
                    }
                },
                other => step matches Err(e) && e@ == failure_with_text(fault_of(other)),
            }
        },
    }
}

/// The next step of the reading of an organization.
pub fn get_organization_step(auth: &AuthUser, org_id: Id, replies: &Vec<Reply>) -> (step: Result<
    Progress<OrganizationResponse>,
    AppError,
>)
    ensures
        get_organization_plan(step, uuid_parsed(auth.user_id@), org_id, replies@),
        replies.len() >= 2 ==> !(step matches Ok(Progress::Ask(_))),
{
    let user_id = principal(auth, PrincipalFault::Internal)?;
    let member = match member_at(replies, 0) {
        Ok(Some(member)) => member,
        Ok(None) => {
            return Ok(Progress::Ask(Statement::Membership { organization_id: org_id, user_id }));
        },
        Err(fault) => {
            return Err(failed_with_text(fault));
        },
    };
    let role = member_role(member);
    authorize(Operation::ViewOrganization, &role)?;
    let found = match organization_at(replies, 1) {
        Ok(Some(found)) => found,
        Ok(None) => {
            return Ok(Progress::Ask(Statement::ActiveOrganization { id: org_id }));
        },
        Err(fault) => {
            return Err(failed_with_text(fault));
        },
    };
    let organization = organization_or_not_found(clone_organization(found))?;
    match role {
        Some(r) => Ok(Progress::Finished(respond_with_organization(organization, r))),
        None => Err(AppError::unexpected()),
    }
}

/// One organization with the caller's role in it. Only members see it.
pub fn get_organization(state: &mut AppState, auth: &AuthUser, org_id: Id) -> (found: Result<
    OrganizationResponse,
    AppError,
>)
    requires
        old(state).store.wf(),
    ensures
        final(state).store.wf(),
        final(state).config == old(state).config,
        final(state).store@ == old(state).store@,
        agrees(found, organization_view(old(state).store@, uuid_parsed(auth.user_id@), org_id)),
{
    let mut replies: Vec<Reply> = Vec::new();
    match get_organization_step(auth, org_id, &replies)? {
        Progress::Finished(answer) => {
            return Ok(answer);
        },
        Progress::Ask(statement) => record(&mut state.store, &mut replies, statement, 0),
    }
    match get_organization_step(auth, org_id, &replies)? {
        Progress::Finished(answer) => {
            return Ok(answer);
        },
        Progress::Ask(statement) => record(&mut state.store, &mut replies, statement, 0),
    }
    match get_organization_step(auth, org_id, &replies)? {
        Progress::Finished(answer) => Ok(answer),
        Progress::Ask(_) => Err(AppError::unexpected()),
    }
}

/// What the next step of the listing of the members of an organization is,
/// given the replies so far: the membership of the caller is asked for; for a
/// member, the members; then the answer is their responses.
pub open spec fn list_members_plan(
    step: Result<Progress<Vec<OrganizationMemberResponse>>, AppError>,
    user_id: Option<Id>,
    org_id: Id,
    replies: Seq<Reply>,
) -> bool {
    match user_id {
        None => step matches Err(e) && e@ == principal_error(PrincipalFault::Internal),
        Some(uid) => if replies.len() == 0 {
            step == Ok::<Progress<Vec<OrganizationMemberResponse>>, AppError>(
                Progress::Ask(Statement::Membership { organization_id: org_id, user_id: uid }),
            )
        } else {
            match replies[0] {
                Reply::Member(None) => step matches Err(e) && e@ == refusal(
                    Operation::ListMembers,
                    None,
                ),
                Reply::Member(Some(_)) => if replies.len() == 1 {
                    step == Ok::<Progress<Vec<OrganizationMemberResponse>>, AppError>(
                        Progress::Ask(
                            Statement::MembersOfOrganization { organization_id: org_id },
                        ),
                    )
                } else {
                    match replies[1] {
                        Reply::Members(rows) => step matches Ok(Progress::Finished(responses))
                            && responses@ == member_responses(rows@),
                        other => step matches Err(e) && e@ == failure_with_text(fault_of(other)),
                    }
                },
                other => step matches Err(e) && e@ == failure_with_text(fault_of(other)),
            }
        },
    }
}

/// The next step of the listing of the members of an organization.
pub fn get_organization_members_step(auth: &AuthUser, org_id: Id, replies: &Vec<Reply>) -> (step:
    Result<Progress<Vec<OrganizationMemberResponse>>, AppError>)
    ensures
        list_members_plan(step, uuid_parsed(auth.user_id@), org_id, replies@),
        replies.len() >= 2 ==> !(step matches Ok(Progress::Ask(_))),
{
    let user_id = principal(auth, PrincipalFault::Internal)?;
    let member = match member_at(replies, 0) {
        Ok(Some(member)) => member,
        Ok(None) => {
            return Ok(Progress::Ask(Statement::Membership { organization_id: org_id, user_id }));
        },
        Err(fault) => {
            return Err(failed_with_text(fault));
        },
    };
    authorize(Operation::ListMembers, &member_role(member))?;
    match members_at(replies, 1) {
        Ok(Some(rows)) => Ok(Progress::Finished(respond_with_members(rows))),
        Ok(None) => Ok(
            Progress::Ask(Statement::MembersOfOrganization { organization_id: org_id }),
        ),
        Err(fault) => Err(failed_with_text(fault)),
    }
}

/// The members of an organization with the profiles of their users, in the
/// order of joining. Only members see them.
pub fn get_organization_members(state: &mut AppState, auth: &AuthUser, org_id: Id) -> (listed: Result<
    Vec<OrganizationMemberResponse>,
    AppError,
>)
    requires
        old(state).store.wf(),
    ensures
        final(state).store.wf(),
        final(state).config == old(state).config,
        final(state).store@ == old(state).store@,
        match listed {
            Ok(responses) => match uuid_parsed(auth.user_id@) {
                Some(uid) => {
                    &&& old(state).store@.role_in_organization(org_id, uid) is Some
                    &&& exists|found: Seq<MemberWithUser>|
                        #![trigger member_responses(found)]
                        old(state).store@.lists_members(found, org_id) && responses@
                            == member_responses(found)
                },
                None => false,
            },
            Err(e) => match uuid_parsed(auth.user_id@) {
                None => e@ == principal_error(PrincipalFault::Internal),
                Some(uid) => old(state).store@.role_in_organization(org_id, uid) is None && e@
                    == refusal(Operation::ListMembers, None),
            },
        },
{
    let mut replies: Vec<Reply> = Vec::new();
    match get_organization_members_step(auth, org_id, &replies)? {
        Progress::Finished(answer) => {
            return Ok(answer);
        },
        Progress::Ask(statement) => record(&mut state.store, &mut replies, statement, 0),
    }
    match get_organization_members_step(auth, org_id, &replies)? {
        Progress::Finished(answer) => {
            return Ok(answer);
        },
        Progress::Ask(statement) => record(&mut state.store, &mut replies, statement, 0),
    }
    match get_organization_members_step(auth, org_id, &replies)? {
        Progress::Finished(answer) => {
            assert(replies@[1] is Members);
            assert(answer@ == member_responses(replies@[1]->Members_0@));
            Ok(answer)
        },
        Progress::Ask(_) => Err(AppError::unexpected()),
    }
}

} // verus!
