//! The data a lookup works on: its target, the request, the records and
//! errors that a variable store hands back, and the calls made to that store.

use vstd::prelude::*;

verus! {

/// The scope a variable is looked up in: a project or a group, never both.
pub enum LookupTarget {
    /// A project, by numeric ID or URL-encoded `NAMESPACE/PROJECT` path.
    Project(String),
    /// A group, by numeric ID or URL-encoded path.
    Group(String),
}

/// A fully resolved lookup request.
pub struct VariableRequest {
    pub target: LookupTarget,
    /// The variable's name.
    pub name: String,
    /// The environment a project variable is scoped to; `*` is the wildcard.
    pub environment: String,
    /// Whether a failed lookup in a named environment is retried in `*`.
    pub fallback_to_wildcard: bool,
}

/// A variable as the store returns it.
pub struct VariableRecord {
    pub value: String,
}

/// What went wrong in a lookup.
#[derive(Clone, Copy, Debug, PartialEq, Eq, Structural)]
pub enum ErrorKind {
    /// The variable does not exist in the queried scope and environment.
    NotFound,
    /// The store could not be reached, or refused the request.
    Transport,
    /// Both or neither of a project and a group were given.
    InvalidTarget,
}

/// A failed lookup: its kind and a description of the cause.
pub struct VariableError {
    pub kind: ErrorKind,
    pub detail: String,
}

/// One call to the variable store.
pub enum StoreCall {
    /// Fetch the variable `name` of group `group`.
    Group { group: String, name: String },
    /// Fetch the variable `name` of project `project` in `environment`.
    Project { project: String, name: String, environment: String },
}

/// The mathematical form of a [`StoreCall`].
pub enum CallView {
    Group { group: Seq<char>, name: Seq<char> },
    Project { project: Seq<char>, name: Seq<char>, environment: Seq<char> },
}

impl View for StoreCall {
    type V = CallView;

    open spec fn view(&self) -> CallView {
        match self {
            StoreCall::Group { group, name } => CallView::Group { group: group@, name: name@ },
            StoreCall::Project { project, name, environment } => CallView::Project {
                project: project@,
                name: name@,
                environment: environment@,
            },
        }
    }
}

/// The percent-encoding of `s`, as `urlencoding::encode` computes it.
pub uninterp spec fn url_encoded(s: Seq<char>) -> Seq<char>;

/// Relies on `urlencoding::encode`: percent-encodes every byte of the UTF-8
/// form of `s` but ASCII alphanumerics and `-`, `_`, `.`, `~`; the result
/// depends on `s` alone.
#[verifier::external_body]
fn url_encode(s: &str) -> (r: String)
    ensures
        r@ == url_encoded(s@),
{
    urlencoding::encode(s)
}

/// Picks the lookup target from an already encoded project and a group.
/// Exactly one of the two must be given.
pub fn select_target(project: Option<String>, group: Option<String>) -> (r: Result<
    LookupTarget,
    VariableError,
>)
    ensures
        match (project, group) {
            (Some(p), None) => r == Ok::<LookupTarget, VariableError>(LookupTarget::Project(p)),
            (None, Some(g)) => r == Ok::<LookupTarget, VariableError>(LookupTarget::Group(g)),
            _ => r is Err && r->Err_0.kind == ErrorKind::InvalidTarget,
        },
{
    match (project, group) {
        (Some(p), None) => Ok(LookupTarget::Project(p)),
        (None, Some(g)) => Ok(LookupTarget::Group(g)),
        _ => Err(
            VariableError {
                kind: ErrorKind::InvalidTarget,
                detail: "exactly one of a project and a group must be given".to_owned(),
            },
        ),
    }
}

/// Picks the lookup target from a project path, which is percent-encoded
/// here, and a group. Exactly one of the two must be given.
pub fn encoded_target(project: Option<&str>, group: Option<String>) -> (r: Result<
    LookupTarget,
    VariableError,
>)
    ensures
        match (project, group) {
            (Some(p), None) => {
                &&& r is Ok
                &&& r->Ok_0 matches LookupTarget::Project(e)
                &&& e@ == url_encoded(p@)
            },
            (None, Some(g)) => r == Ok::<LookupTarget, VariableError>(LookupTarget::Group(g)),
            _ => r is Err && r->Err_0.kind == ErrorKind::InvalidTarget,
        },
{
    let encoded = match project {
        Some(p) => Some(url_encode(p)),
        None => None,
    };
    select_target(encoded, group)
}

} // verus!
