//! The forms of the user interface: what they require before a request is sent,
//! and how a slug is proposed from a name.

use vstd::prelude::*;
use vstd::string::StringExecFns;
use vstd::string::StrSliceExecFns;
use vstd::utf8::encode_utf8;
use crate::client::auth::{LoginRequest, RegisterRequest};
use crate::client::organizations::CreateOrganizationRequest;
use crate::client::projects::CreateProjectRequest;
use crate::client::tasks::{CreateTaskRequest, UpdateTaskRequest};
use crate::text::lowercase;
use crate::text::is_ascii_alnum;

verus! {

/// Whether a character is a letter or a digit of any script, as
/// `char::is_alphanumeric` decides it.
pub uninterp spec fn alphanumeric(c: char) -> bool;

/// `char::is_alphanumeric`: whether a character is a letter or a digit by the
/// Unicode standard. Among the ASCII characters those are the letters `a` to `z`
/// and `A` to `Z` and the digits.
pub assume_specification[ char::is_alphanumeric ](c: char) -> (b: bool)
    ensures
        b == alphanumeric(c),
        (c as u32) < 128 ==> b == is_ascii_alnum(c),
;

/// Collecting characters into a `String`: the string holds the characters in
/// their order.
#[verifier::external_body]
fn text_of(chars: &Vec<char>) -> (text: String)
    ensures
        text@ == chars@,
{
    chars.iter().collect()
}

/// A character of a name as it enters a slug: letters and digits as they are, a
/// hyphen for anything else.
pub open spec fn slug_char(c: char) -> char {
    if alphanumeric(c) {
        c
    } else {
        '-'
    }
}

/// The words of a text joined by single hyphens, where a word is a run of
/// letters and digits: no hyphen at either end, and no two in a row.
pub open spec fn hyphenated(s: Seq<char>) -> Seq<char>
    decreases s.len(),
{
    if s.len() == 0 {
        s
    } else {
        let words = hyphenated(s.drop_last());
        if !alphanumeric(s.last()) {
            words
        } else if s.len() >= 2 && !alphanumeric(s[s.len() - 2]) && words.len() > 0 {
            words.push('-').push(s.last())
        } else {
            words.push(s.last())
        }
    }
}

/// The slug proposed for an organization of this name: the words of the name in
/// lowercase, joined by hyphens.
pub open spec fn proposed_organization_slug(name: Seq<char>) -> Seq<char> {
    hyphenated(lowercase(name))
}

/// Whether a character may stand in the slug of a project.
pub open spec fn fits_project_slug() -> spec_fn(char) -> bool {
    |c: char| alphanumeric(c) || c == '-'
}

/// A character with a hyphen in place of a space.
pub open spec fn space_to_hyphen() -> spec_fn(char) -> char {
    |c: char| if c == ' ' {
            '-'
        } else {
            c
        }
}

/// The slug proposed for a project of this name: the name in lowercase with a
/// hyphen for each space, without the characters that are neither letters, digits
/// nor hyphens.
pub open spec fn proposed_project_slug(name: Seq<char>) -> Seq<char> {
    lowercase(name).map_values(space_to_hyphen()).filter(fits_project_slug())
}

/// The slug to propose for an organization of this name.
pub fn organization_slug(name: &str) -> (slug: String)
    ensures
        slug@ == proposed_organization_slug(name@),
{
    let lowered = name.to_lowercase();
    let n = lowered.as_str().unicode_len();
    let mut out: Vec<char> = Vec::new();
    let mut after_gap = false;
    let mut i: usize = 0;
    assert(lowered@.subrange(0, 0) =~= Seq::<char>::empty());
    while i < n
        invariant
            i <= n,
            n == lowered@.len(),
            out@ == hyphenated(lowered@.subrange(0, i as int)),
            after_gap == (i > 0 && !alphanumeric(lowered@[i - 1])),
        decreases n - i,
    {
        let c = lowered.as_str().get_char(i);
        proof {
            let next = lowered@.subrange(0, i + 1);
            assert(next.drop_last() =~= lowered@.subrange(0, i as int));
            assert(next.last() == c);
            if i > 0 {
                assert(next[next.len() - 2] == lowered@[i - 1]);
            }
        }
        if c.is_alphanumeric() {
            if after_gap && out.len() > 0 {
                out.push('-');
            }
            out.push(c);
            after_gap = false;
        } else {
            after_gap = true;
        }
        i += 1;
    }
    assert(lowered@.subrange(0, n as int) =~= lowered@);
    text_of(&out)
}

/// The slug to propose for a project of this name. An empty name proposes
/// nothing: the slug stays as it is.
pub fn project_slug(name: &str, current: String) -> (slug: String)
    ensures
        name@.len() == 0 ==> slug == current,
        name@.len() > 0 ==> slug@ == proposed_project_slug(name@),
{
    if name.is_empty() {
        return current;
    }
    let lowered = name.to_lowercase();
    let n = lowered.as_str().unicode_len();
    let mut out: Vec<char> = Vec::new();
    let mut i: usize = 0;
    let ghost mapped = lowered@.map_values(space_to_hyphen());
    proof {
        reveal(Seq::filter);
        assert(mapped.subrange(0, 0) =~= Seq::<char>::empty());
    }
    while i < n
        invariant
            i <= n,
            n == lowered@.len(),
            mapped == lowered@.map_values(space_to_hyphen()),
            out@ == mapped.subrange(0, i as int).filter(fits_project_slug()),
        decreases n - i,
    {
        let read = lowered.as_str().get_char(i);
        let c = if read == ' ' {
            '-'
        } else {
            read
        };
        proof {
            reveal(Seq::filter);
            assert(mapped.subrange(0, i + 1).drop_last() =~= mapped.subrange(0, i as int));
            assert(mapped.subrange(0, i + 1).last() == c);
        }
        if c.is_alphanumeric() || c == '-' {
            out.push(c);
        }
        i += 1;
    }
    assert(mapped.subrange(0, n as int) =~= mapped);
    text_of(&out)
}

/// A field that was left empty, as no value.
pub open spec fn filled(text: String) -> Option<String> {
    if text@.len() == 0 {
        None
    } else {
        Some(text)
    }
}

/// The value of a field, or none where the field was left empty.
pub fn optional(text: String) -> (value: Option<String>)
    ensures
        value == filled(text),
{
    if text.as_str().is_empty() {
        None
    } else {
        Some(text)
    }
}

/// The least number of bytes of a password that the registration form accepts.
pub const MIN_PASSWORD_BYTES: usize = 8;

/// What the login form misses, if anything.
pub open spec fn login_form_fault(email: Seq<char>, password: Seq<char>) -> Option<Seq<char>> {
    if email.len() == 0 || password.len() == 0 {
        Some("Email and password are required"@)
    } else {
        None
    }
}

/// What the registration form misses, if anything. The length of the password
/// is counted in bytes.
pub open spec fn register_form_fault(email: Seq<char>, password: Seq<char>) -> Option<Seq<char>> {
    if email.len() == 0 || password.len() == 0 {
        Some("Email and password are required"@)
    } else if encode_utf8(password).len() < MIN_PASSWORD_BYTES {
        Some("Password must be at least 8 characters"@)
    } else {
        None
    }
}

/// Whether every character of a slug is a letter, a digit or a hyphen.
pub open spec fn slug_fits(slug: Seq<char>) -> bool {
    forall|i: int| 0 <= i < slug.len() ==> alphanumeric(#[trigger] slug[i]) || slug[i] == '-'
}

/// What the form of a new organization misses, if anything.
pub open spec fn organization_form_fault(name: Seq<char>, slug: Seq<char>) -> Option<Seq<char>> {
    if name.len() == 0 {
        Some("Organization name is required"@)
    } else if slug.len() == 0 {
        Some("Organization slug is required"@)
    } else if !slug_fits(slug) {
        Some("Slug can only contain letters, numbers, and hyphens"@)
    } else {
        None
    }
}

/// What the form of a new project misses, if anything.
pub open spec fn project_form_fault(name: Seq<char>, slug: Seq<char>) -> Option<Seq<char>> {
    if name.len() == 0 {
        Some("Project name is required"@)
    } else if slug.len() == 0 {
        Some("Project slug is required"@)
    } else {
        None
    }
}

/// What the form of a new task misses, if anything.
pub open spec fn task_form_fault(title: Seq<char>) -> Option<Seq<char>> {
    if title.len() == 0 {
        Some("Task title is required"@)
    } else {
        None
    }
}

/// Whether a form gives the request, or the message for what it misses.
pub open spec fn form_gives<T>(outcome: Result<T, String>, fault: Option<Seq<char>>, request: T) -> bool {
    match outcome {
        Ok(r) => fault is None && r == request,
        Err(m) => fault == Some(m@),
    }
}

/// The login form: both fields are required.
pub fn login_form(email: String, password: String) -> (outcome: Result<LoginRequest, String>)
    ensures
        form_gives(
            outcome,
            login_form_fault(email@, password@),
            LoginRequest { email, password },
        ),
{
    if email.as_str().is_empty() || password.as_str().is_empty() {
        return Err(String::from_str("Email and password are required"));
    }
    Ok(LoginRequest { email, password })
}

/// The registration form: email address and password are required, and the
/// password must be at least eight bytes long. Names that are left empty are
/// not sent.
pub fn register_form(email: String, password: String, first_name: String, last_name: String) -> (outcome:
    Result<RegisterRequest, String>)
    ensures
        form_gives(
            outcome,
            register_form_fault(email@, password@),
            RegisterRequest {
                email,
                password,
                first_name: filled(first_name),
                last_name: filled(last_name),
            },
        ),
{
    if email.as_str().is_empty() || password.as_str().is_empty() {
        return Err(String::from_str("Email and password are required"));
    }
    if password.as_str().as_bytes().len() < MIN_PASSWORD_BYTES {
        return Err(String::from_str("Password must be at least 8 characters"));
    }
    Ok(
        RegisterRequest {
            email,
            password,
            first_name: optional(first_name),
            last_name: optional(last_name),
        },
    )
}

/// Whether every character of a slug is a letter, a digit or a hyphen.
pub fn slug_has_only_fitting_characters(slug: &str) -> (fits: bool)
    ensures
        fits == slug_fits(slug@),
{
    let n = slug.unicode_len();
    let mut i: usize = 0;
    while i < n
        invariant
            i <= n,
            n == slug@.len(),
            forall|j: int| 0 <= j < i ==> alphanumeric(#[trigger] slug@[j]) || slug@[j] == '-',
        decreases n - i,
    {
        let c = slug.get_char(i);
        if !(c.is_alphanumeric() || c == '-') {
            return false;
        }
        i += 1;
    }
    true
}

/// The form of a new organization: name and slug are required, and the slug
/// holds only letters, digits and hyphens. A description that is left empty is
/// not sent.
pub fn organization_form(name: String, slug: String, description: String) -> (outcome: Result<
    CreateOrganizationRequest,
    String,
>)
    ensures
        form_gives(
            outcome,
            organization_form_fault(name@, slug@),
            CreateOrganizationRequest { name, slug, description: filled(description) },
        ),
{
    if name.as_str().is_empty() {
        return Err(String::from_str("Organization name is required"));
    }
    if slug.as_str().is_empty() {
        return Err(String::from_str("Organization slug is required"));
    }
    if !slug_has_only_fitting_characters(slug.as_str()) {
        return Err(String::from_str("Slug can only contain letters, numbers, and hyphens"));
    }
    Ok(CreateOrganizationRequest { name, slug, description: optional(description) })
}

/// The form of a new project: name and slug are required. A description that is
/// left empty is not sent; status and color always are.
pub fn project_form(
    name: String,
    slug: String,
    description: String,
    status: String,
    color: String,
) -> (outcome: Result<CreateProjectRequest, String>)
    ensures
        form_gives(
            outcome,
            project_form_fault(name@, slug@),
            CreateProjectRequest {
                name,
                slug,
                description: filled(description),
                status: Some(status),
                color: Some(color),
            },
        ),
{
    if name.as_str().is_empty() {
        return Err(String::from_str("Project name is required"));
    }
    if slug.as_str().is_empty() {
        return Err(String::from_str("Project slug is required"));
    }
    Ok(
        CreateProjectRequest {
            name,
            slug,
            description: optional(description),
            status: Some(status),
            color: Some(color),
        },
    )
}

/// `request` is what the form of a new task sends for these fields: a task to
/// do, unassigned and without a due date.
pub open spec fn is_task_request(
    request: CreateTaskRequest,
    title: String,
    description: String,
    priority: String,
) -> bool {
    &&& request.title == title
    &&& request.description == filled(description)
    &&& request.status matches Some(s)
    &&& s@ == "todo"@
    &&& request.priority == Some(priority)
    &&& request.assigned_to is None
    &&& request.due_date is None
}

/// The form of a new task: the title is required. A description that is left
/// empty is not sent.
pub fn task_form(title: String, description: String, priority: String) -> (outcome: Result<
    CreateTaskRequest,
    String,
>)
    ensures
        match outcome {
            Ok(request) => task_form_fault(title@) is None && is_task_request(
                request,
                title,
                description,
                priority,
            ),
            Err(m) => task_form_fault(title@) == Some(m@),
        },
{
    if title.as_str().is_empty() {
        return Err(String::from_str("Task title is required"));
    }
    Ok(
        CreateTaskRequest {
            title,
            description: optional(description),
            status: Some(String::from_str("todo")),
            priority: Some(priority),
            assigned_to: None,
            due_date: None,
        },
    )
}

/// The update that moves a task to another status and changes nothing else.
pub fn status_change(new_status: String) -> (request: UpdateTaskRequest)
    ensures
        request == (UpdateTaskRequest {
            title: None,
            description: None,
            status: Some(new_status),
            priority: None,
            assigned_to: None,
            due_date: None,
            position: None,
        }),
{
    UpdateTaskRequest {
        title: None,
        description: None,
        status: Some(new_status),
        priority: None,
        assigned_to: None,
        due_date: None,
        position: None,
    }
}

/// The message shown when something could not be done: what was tried, then
/// why it failed.
pub open spec fn failure_notice(tried: Seq<char>, why: Seq<char>) -> Seq<char> {
    "Failed to "@ + tried + ": "@ + why
}

/// The message shown when something could not be done.
pub fn notice_of_failure(tried: &str, why: &str) -> (notice: String)
    ensures
        notice@ == failure_notice(tried@, why@),
{
    String::from_str("Failed to ").concat(tried).concat(": ").concat(why)
}

} // verus!
