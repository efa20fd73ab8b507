//! The state of the pages of the user interface: what their forms hold, what
//! they show, and how both follow the answers to their requests.

use vstd::prelude::*;
use vstd::string::StringExecFns;
use crate::client::auth::{LoginRequest, RegisterRequest};
use crate::client::forms::{
    failure_notice, filled, is_task_request, login_form, login_form_fault, notice_of_failure,
    organization_form, organization_form_fault, organization_slug, project_form,
    project_form_fault, project_slug, proposed_organization_slug, proposed_project_slug,
    register_form, register_form_fault, task_form, task_form_fault,
};
use crate::client::organizations::{CreateOrganizationRequest, Organization, OrganizationMember};
use crate::client::projects::{CreateProjectRequest, Project};
use crate::client::tasks::{
    CreateTaskRequest, Task, column_of, replace_task, tasks_with_status, with_updated,
};
use crate::ident::{parse_id, uuid_parsed};
use crate::models::Id;

verus! {

/// Where the user is sent after logging in or registering.
pub open spec fn dashboard_path() -> Seq<char> {
    "/dashboard"@
}

/// Where the user is sent after logging out.
pub open spec fn login_path() -> Seq<char> {
    "/login"@
}

/// The page that logs in and registers.
#[derive(Debug)]
pub struct LoginPage {
    pub email: String,
    pub password: String,
    pub first_name: String,
    pub last_name: String,
    pub local_error: Option<String>,
}

impl LoginPage {
    /// The page as it opens: an empty form, no error.
    pub fn new() -> (page: LoginPage)
        ensures
            page.email@.len() == 0,
            page.password@.len() == 0,
            page.first_name@.len() == 0,
            page.last_name@.len() == 0,
            page.local_error is None,
    {
        LoginPage {
            email: String::new(),
            password: String::new(),
            first_name: String::new(),
            last_name: String::new(),
            local_error: None,
        }
    }

    /// The login form is submitted: a complete form gives the request to send,
    /// an incomplete one shows what it misses.
    pub fn handle_login(&mut self) -> (request: Option<LoginRequest>)
        ensures
            final(self).email == old(self).email,
            final(self).password == old(self).password,
            final(self).first_name == old(self).first_name,
            final(self).last_name == old(self).last_name,
            match login_form_fault(old(self).email@, old(self).password@) {
                Some(m) => {
                    &&& request is None
                    &&& final(self).local_error matches Some(shown)
                    &&& shown@ == m
                },
                None => final(self).local_error is None && request == Some(
                    LoginRequest { email: old(self).email, password: old(self).password },
                ),
            },
    {
        match login_form(self.email.clone(), self.password.clone()) {
            Ok(request) => {
                self.local_error = None;
                Some(request)
            },
            Err(m) => {
                self.local_error = Some(m);
                None
            },
        }
    }

    /// The registration form is submitted: a complete form gives the request to
    /// send, an incomplete one shows what it misses.
    pub fn handle_register(&mut self) -> (request: Option<RegisterRequest>)
        ensures
            final(self).email == old(self).email,
            final(self).password == old(self).password,
            final(self).first_name == old(self).first_name,
            final(self).last_name == old(self).last_name,
            match register_form_fault(old(self).email@, old(self).password@) {
                Some(m) => {
                    &&& request is None
                    &&& final(self).local_error matches Some(shown)
                    &&& shown@ == m
                },
                None => final(self).local_error is None && request == Some(
                    RegisterRequest {
                        email: old(self).email,
                        password: old(self).password,
                        first_name: filled(old(self).first_name),
                        last_name: filled(old(self).last_name),
                    },
                ),
            },
    {
        match register_form(
            self.email.clone(),
            self.password.clone(),
            self.first_name.clone(),
            self.last_name.clone(),
        ) {
            Ok(request) => {
                self.local_error = None;
                Some(request)
            },
            Err(m) => {
                self.local_error = Some(m);
                None
            },
        }
    }

    /// The answer to a login or a registration has come: success sends the user
    /// to the dashboard, a failure is shown.
    pub fn settled(&mut self, outcome: Result<(), String>) -> (go_to: Option<String>)
        ensures
            final(self).email == old(self).email,
            final(self).password == old(self).password,
            final(self).first_name == old(self).first_name,
            final(self).last_name == old(self).last_name,
            match outcome {
                Ok(()) => go_to matches Some(path) && path@ == dashboard_path()
                    && final(self).local_error == old(self).local_error,
                Err(e) => go_to is None && final(self).local_error == Some(e),
            },
    {
        match outcome {
            Ok(()) => Some(String::from_str("/dashboard")),
            Err(e) => {
                self.local_error = Some(e);
                None
            },
        }
    }
}

/// The page that lists the organizations of the user and creates new ones.
#[derive(Debug)]
pub struct OrganizationsPage {
    pub show_create_modal: bool,
    pub name: String,
    pub slug: String,
    pub description: String,
    pub local_error: Option<String>,
}

impl OrganizationsPage {
    /// The page as it opens: the form closed and empty, no error.
    pub fn new() -> (page: OrganizationsPage)
        ensures
            !page.show_create_modal,
            page.name@.len() == 0,
            page.slug@.len() == 0,
            page.description@.len() == 0,
            page.local_error is None,
    {
        OrganizationsPage {
            show_create_modal: false,
            name: String::new(),
            slug: String::new(),
            description: String::new(),
            local_error: None,
        }
    }

    /// The name was typed: the slug is proposed from it.
    pub fn handle_name_change(&mut self, value: String)
        ensures
            final(self).name == value,
            final(self).slug@ == proposed_organization_slug(value@),
            final(self).description == old(self).description,
            final(self).show_create_modal == old(self).show_create_modal,
            final(self).local_error == old(self).local_error,
    {
        self.slug = organization_slug(value.as_str());
        self.name = value;
    }

    /// The form is submitted: a complete form gives the request to send, an
    /// incomplete one shows what it misses.
    pub fn handle_create(&mut self) -> (request: Option<CreateOrganizationRequest>)
        ensures
            final(self).name == old(self).name,
            final(self).slug == old(self).slug,
            final(self).description == old(self).description,
            final(self).show_create_modal == old(self).show_create_modal,
            match organization_form_fault(old(self).name@, old(self).slug@) {
                Some(m) => {
                    &&& request is None
                    &&& final(self).local_error matches Some(shown)
                    &&& shown@ == m
                },
                None => final(self).local_error is None && request == Some(
                    CreateOrganizationRequest {
                        name: old(self).name,
                        slug: old(self).slug,
                        description: filled(old(self).description),
                    },
                ),
            },
    {
        match organization_form(self.name.clone(), self.slug.clone(), self.description.clone()) {
            Ok(request) => {
                self.local_error = None;
                Some(request)
            },
            Err(m) => {
                self.local_error = Some(m);
                None
            },
        }
    }

    /// The answer to the creation has come: success empties and closes the form,
    /// a failure is shown and leaves the form as it is.
    pub fn settled(&mut self, outcome: Result<Organization, String>)
        ensures
            match outcome {
                Ok(_) => {
                    &&& final(self).name@.len() == 0
                    &&& final(self).slug@.len() == 0
                    &&& final(self).description@.len() == 0
                    &&& !final(self).show_create_modal
                    &&& final(self).local_error is None
                },
                Err(e) => {
                    &&& final(self).name == old(self).name
                    &&& final(self).slug == old(self).slug
                    &&& final(self).description == old(self).description
                    &&& final(self).show_create_modal == old(self).show_create_modal
                    &&& final(self).local_error == Some(e)
                },
            },
    {
        match outcome {
            Ok(_) => {
                self.name = String::new();
                self.slug = String::new();
                self.description = String::new();
                self.show_create_modal = false;
                self.local_error = None;
            },
            Err(e) => {
                self.local_error = Some(e);
            },
        }
    }
}

/// The page of one organization: the organization and its members.
#[derive(Debug)]
pub struct OrganizationDetailPage {
    pub organization: Option<Organization>,
    pub members: Vec<OrganizationMember>,
    pub is_loading: bool,
    pub error: Option<String>,
}

impl OrganizationDetailPage {
    /// The page as it opens: nothing loaded yet.
    pub fn new() -> (page: OrganizationDetailPage)
        ensures
            page.organization is None,
            page.members@.len() == 0,
            page.is_loading,
            page.error is None,
    {
        OrganizationDetailPage {
            organization: None,
            members: Vec::new(),
            is_loading: true,
            error: None,
        }
    }

    /// The organization that the address of the page names, if it names one.
    pub fn org_id(param: Option<&str>) -> (id: Option<Id>)
        ensures
            id == match param {
                Some(text) => uuid_parsed(text@),
                None => None,
            },
    {
        match param {
            Some(text) => parse_id(text),
            None => None,
        }
    }

    /// Loading starts.
    pub fn begin(&mut self)
        ensures
            final(self).is_loading,
            final(self).error is None,
            final(self).organization == old(self).organization,
            final(self).members == old(self).members,
    {
        self.is_loading = true;
        self.error = None;
    }

    /// The answer to the request for the organization has come. Success goes on
    /// to the members; a failure is shown and ends the loading.
    pub fn organization_loaded(&mut self, answer: Result<Organization, String>) -> (go_on: bool)
        ensures
            final(self).members == old(self).members,
            match answer {
                Ok(organization) => {
                    &&& go_on
                    &&& final(self).organization == Some(organization)
                    &&& final(self).is_loading == old(self).is_loading
                    &&& final(self).error == old(self).error
                },
                Err(e) => {
                    &&& !go_on
                    &&& final(self).organization == old(self).organization
                    &&& !final(self).is_loading
                    &&& final(self).error matches Some(m)
                    &&& m@ == failure_notice("load organization"@, e@)
                },
            },
    {
        match answer {
            Ok(organization) => {
                self.organization = Some(organization);
                true
            },
            Err(e) => {
                self.error = Some(notice_of_failure("load organization", e.as_str()));
                self.is_loading = false;
                false
            },
        }
    }

    /// The answer to the request for the members has come, and the loading ends.
    pub fn members_loaded(&mut self, answer: Result<Vec<OrganizationMember>, String>)
        ensures
            !final(self).is_loading,
            final(self).organization == old(self).organization,
            match answer {
                Ok(members) => final(self).members == members && final(self).error == old(
                    self,
                ).error,
                Err(e) => {
                    &&& final(self).members == old(self).members
                    &&& final(self).error matches Some(m)
                    &&& m@ == failure_notice("load members"@, e@)
                },
            },
    {
        match answer {
            Ok(members) => {
                self.members = members;
            },
            Err(e) => {
                self.error = Some(notice_of_failure("load members", e.as_str()));
            },
        }
        self.is_loading = false;
    }
}

/// The page that lists the projects of an organization and creates new ones.
#[derive(Debug)]
pub struct ProjectsPage {
    pub projects: Vec<Project>,
    pub loading: bool,
    pub error: Option<String>,
    pub show_create_modal: bool,
    pub name: String,
    pub slug: String,
    pub description: String,
    pub status: String,
    pub color: String,
    pub create_error: Option<String>,
}

impl ProjectsPage {
    /// Whether the form is as it is when the page opens: empty, with the
    /// defaults for status and color.
    pub open spec fn form_is_fresh(self) -> bool {
        &&& self.name@.len() == 0
        &&& self.slug@.len() == 0
        &&& self.description@.len() == 0
        &&& self.status@ == "planning"@
        &&& self.color@ == "#3B82F6"@
        &&& self.create_error is None
    }

    /// The page as it opens: loading, no projects, the form closed and fresh.
    pub fn new() -> (page: ProjectsPage)
        ensures
            page.projects@.len() == 0,
            page.loading,
            page.error is None,
            !page.show_create_modal,
            page.form_is_fresh(),
    {
        ProjectsPage {
            projects: Vec::new(),
            loading: true,
            error: None,
            show_create_modal: false,
            name: String::new(),
            slug: String::new(),
            description: String::new(),
            status: String::from_str("planning"),
            color: String::from_str("#3B82F6"),
            create_error: None,
        }
    }

    /// Whether there is anything to load: only where the address of the page
    /// names an organization.
    pub fn should_load(org_id: &str) -> (load: bool)
        ensures
            load == (org_id@.len() > 0),
    {
        !org_id.is_empty()
    }

    /// The answer to the request for the projects has come, and the loading
    /// ends.
    pub fn loaded(&mut self, answer: Result<Vec<Project>, String>)
        ensures
            !final(self).loading,
            final(self).show_create_modal == old(self).show_create_modal,
            final(self).name == old(self).name,
            final(self).slug == old(self).slug,
            final(self).create_error == old(self).create_error,
            match answer {
                Ok(projects) => final(self).projects == projects && final(self).error is None,
                Err(e) => {
                    &&& final(self).projects == old(self).projects
                    &&& final(self).error matches Some(m)
                    &&& m@ == failure_notice("load projects"@, e@)
                },
            },
    {
        match answer {
            Ok(projects) => {
                self.projects = projects;
                self.error = None;
            },
            Err(e) => {
                self.error = Some(notice_of_failure("load projects", e.as_str()));
            },
        }
        self.loading = false;
    }

    /// The name was typed: the slug is proposed from it, unless the name is
    /// empty.
    pub fn name_changed(&mut self, value: String)
        ensures
            final(self).name == value,
            value@.len() == 0 ==> final(self).slug == old(self).slug,
            value@.len() > 0 ==> final(self).slug@ == proposed_project_slug(value@),
            final(self).projects == old(self).projects,
            final(self).description == old(self).description,
            final(self).status == old(self).status,
            final(self).color == old(self).color,
    {
        let current = self.slug.clone();
        self.slug = project_slug(value.as_str(), current);
        self.name = value;
    }

    /// The form is submitted: a complete form gives the request to send, an
    /// incomplete one shows what it misses.
    pub fn handle_create(&mut self) -> (request: Option<CreateProjectRequest>)
        ensures
            final(self).projects == old(self).projects,
            final(self).name == old(self).name,
            final(self).slug == old(self).slug,
            final(self).show_create_modal == old(self).show_create_modal,
            match project_form_fault(old(self).name@, old(self).slug@) {
                Some(m) => {
                    &&& request is None
                    &&& final(self).create_error matches Some(shown)
                    &&& shown@ == m
                },
                None => final(self).create_error == old(self).create_error && request == Some(
                    CreateProjectRequest {
                        name: old(self).name,
                        slug: old(self).slug,
                        description: filled(old(self).description),
                        status: Some(old(self).status),
                        color: Some(old(self).color),
                    },
                ),
            },
    {
        match project_form(
            self.name.clone(),
            self.slug.clone(),
            self.description.clone(),
            self.status.clone(),
            self.color.clone(),
        ) {
            Ok(request) => Some(request),
            Err(m) => {
                self.create_error = Some(m);
                None
            },
        }
    }

    /// The answer to the creation has come: a project that came joins the list
    /// and the form is closed and fresh again; a failure is shown.
    pub fn created(&mut self, answer: Result<Project, String>)
        ensures
            final(self).loading == old(self).loading,
            final(self).error == old(self).error,
            match answer {
                Ok(project) => {
                    &&& final(self).projects@ == old(self).projects@.push(project)
                    &&& !final(self).show_create_modal
                    &&& final(self).form_is_fresh()
                },
                Err(e) => {
                    &&& final(self).projects == old(self).projects
                    &&& final(self).show_create_modal == old(self).show_create_modal
                    &&& final(self).name == old(self).name
                    &&& final(self).slug == old(self).slug
                    &&& final(self).create_error matches Some(m)
                    &&& m@ == failure_notice("create project"@, e@)
                },
            },
    {
        match answer {
            Ok(project) => {
                self.projects.push(project);
                self.show_create_modal = false;
                self.name = String::new();
                self.slug = String::new();
                self.description = String::new();
                self.status = String::from_str("planning");
                self.color = String::from_str("#3B82F6");
                self.create_error = None;
            },
            Err(e) => {
                self.create_error = Some(notice_of_failure("create project", e.as_str()));
            },
        }
    }
}

/// The page of one project: its tasks on a board of three columns.
#[derive(Debug)]
pub struct ProjectDetailPage {
    pub tasks: Vec<Task>,
    pub loading: bool,
    pub error: Option<String>,
    pub show_create_modal: bool,
    pub title: String,
    pub description: String,
    pub priority: String,
    pub create_error: Option<String>,
}

impl ProjectDetailPage {
    /// Whether the form is as it is when the page opens: empty, with the default
    /// priority.
    pub open spec fn form_is_fresh(self) -> bool {
        &&& self.title@.len() == 0
        &&& self.description@.len() == 0
        &&& self.priority@ == "medium"@
        &&& self.create_error is None
    }

    /// The page as it opens: loading, no tasks, the form closed and fresh.
    pub fn new() -> (page: ProjectDetailPage)
        ensures
            page.tasks@.len() == 0,
            page.loading,
            page.error is None,
            !page.show_create_modal,
            page.form_is_fresh(),
    {
        ProjectDetailPage {
            tasks: Vec::new(),
            loading: true,
            error: None,
            show_create_modal: false,
            title: String::new(),
            description: String::new(),
            priority: String::from_str("medium"),
            create_error: None,
        }
    }

    /// The answer to the request for the tasks has come, and the loading ends.
    pub fn loaded(&mut self, answer: Result<Vec<Task>, String>)
        ensures
            !final(self).loading,
            final(self).show_create_modal == old(self).show_create_modal,
            final(self).create_error == old(self).create_error,
            match answer {
                Ok(tasks) => final(self).tasks == tasks && final(self).error is None,
                Err(e) => {
                    &&& final(self).tasks == old(self).tasks
                    &&& final(self).error matches Some(m)
                    &&& m@ == failure_notice("load tasks"@, e@)
                },
            },
    {
        match answer {
            Ok(tasks) => {
                self.tasks = tasks;
                self.error = None;
            },
            Err(e) => {
                self.error = Some(notice_of_failure("load tasks", e.as_str()));
            },
        }
        self.loading = false;
    }

    /// The form is submitted: a form with a title gives the request to send, one
    /// without shows what it misses.
    pub fn handle_create(&mut self) -> (request: Option<CreateTaskRequest>)
        ensures
            final(self).tasks == old(self).tasks,
            final(self).title == old(self).title,
            final(self).show_create_modal == old(self).show_create_modal,
            match task_form_fault(old(self).title@) {
                Some(m) => {
                    &&& request is None
                    &&& final(self).create_error matches Some(shown)
                    &&& shown@ == m
                },
                None => {
                    &&& final(self).create_error == old(self).create_error
                    &&& request matches Some(r)
                    &&& is_task_request(r, old(self).title, old(self).description, old(self).priority)
                },
            },
    {
        match task_form(self.title.clone(), self.description.clone(), self.priority.clone()) {
            Ok(request) => Some(request),
            Err(m) => {
                self.create_error = Some(m);
                None
            },
        }
    }

    /// The answer to the creation has come: a task that came joins the board and
    /// the form is closed and fresh again; a failure is shown.
    pub fn created(&mut self, answer: Result<Task, String>)
        ensures
            final(self).loading == old(self).loading,
            final(self).error == old(self).error,
            match answer {
                Ok(task) => {
                    &&& final(self).tasks@ == old(self).tasks@.push(task)
                    &&& !final(self).show_create_modal
                    &&& final(self).form_is_fresh()
                },
                Err(e) => {
                    &&& final(self).tasks == old(self).tasks
                    &&& final(self).show_create_modal == old(self).show_create_modal
                    &&& final(self).title == old(self).title
                    &&& final(self).create_error matches Some(m)
                    &&& m@ == failure_notice("create task"@, e@)
                },
            },
    {
        match answer {
            Ok(task) => {
                self.tasks.push(task);
                self.show_create_modal = false;
                self.title = String::new();
                self.description = String::new();
                self.priority = String::from_str("medium");
                self.create_error = None;
            },
            Err(e) => {
                self.create_error = Some(notice_of_failure("create task", e.as_str()));
            },
        }
    }

    /// The answer to the move of a task to another status has come: the task
    /// that came takes the place of the task on the board; a failure leaves the
    /// board as it is.
    pub fn status_changed(&mut self, task_id: Id, answer: Result<Task, String>)
        ensures
            final(self).tasks@ == match answer {
                Ok(updated) => with_updated(old(self).tasks@, task_id, updated),
                Err(_) => old(self).tasks@,
            },
            final(self).loading == old(self).loading,
            final(self).error == old(self).error,
            final(self).create_error == old(self).create_error,
    {
        match answer {
            Ok(updated) => replace_task(&mut self.tasks, task_id, updated),
            Err(_) => {},
        }
    }

    /// The tasks of the column of tasks to do.
    pub fn todo_tasks(&self) -> (column: Vec<Task>)
        ensures
            column@ == column_of(self.tasks@, "todo"@),
    {
        tasks_with_status(&self.tasks, "todo")
    }

    /// The tasks of the column of tasks in progress.
    pub fn in_progress_tasks(&self) -> (column: Vec<Task>)
        ensures
            column@ == column_of(self.tasks@, "in_progress"@),
    {
        tasks_with_status(&self.tasks, "in_progress")
    }

    /// The tasks of the column of finished tasks.
    pub fn done_tasks(&self) -> (column: Vec<Task>)
        ensures
            column@ == column_of(self.tasks@, "done"@),
    {
        tasks_with_status(&self.tasks, "done")
    }
}

/// What the dashboard does when it opens: the profile is loaded where no user
/// is known yet.
pub fn dashboard_loads_user(user_known: bool) -> (load: bool)
    ensures
        load == !user_known,
{
    !user_known
}

/// Where the dashboard sends the user after logging out.
pub fn after_logout() -> (path: String)
    ensures
        path@ == login_path(),
{
    String::from_str("/login")
}

} // verus!
