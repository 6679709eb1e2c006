//! The lookup strategy. The caller makes [`GetVariableCommand::first_call`],
//! hands its outcome to [`GetVariableCommand::after_primary`], and, where that
//! asks for a second call, hands the second outcome to
//! [`GetVariableCommand::after_fallback`]. No more than two calls are ever
//! asked for.

use vstd::prelude::*;
use crate::request::{
    encoded_target, url_encoded, CallView, ErrorKind, LookupTarget, StoreCall, VariableError,
    VariableRecord, VariableRequest,
};

verus! {

/// What to do after a lookup: make one more call, or report the result.
pub enum Step {
    Fetch(StoreCall),
    Done(Result<String, VariableError>),
}

/// The mathematical form of a [`Step`].
pub enum Next {
    Fetch(CallView),
    Done(Result<String, VariableError>),
}

impl View for Step {
    type V = Next;

    open spec fn view(&self) -> Next {
        match self {
            Step::Fetch(c) => Next::Fetch(c@),
            Step::Done(r) => Next::Done(*r),
        }
    }
}

/// The wildcard environment, which matches any or no specific environment.
pub open spec fn wildcard() -> Seq<char> {
    "*"@
}

/// What a lookup reports: the value of the record found, or the store's error.
pub open spec fn value_of(fetched: Result<VariableRecord, VariableError>) -> Result<
    String,
    VariableError,
> {
    match fetched {
        Ok(record) => Ok(record.value),
        Err(e) => Err(e),
    }
}

/// The first call a request makes: in the group, or in the project and the
/// requested environment.
pub open spec fn primary_call(req: VariableRequest) -> CallView {
    match req.target {
        LookupTarget::Group(g) => CallView::Group { group: g@, name: req.name@ },
        LookupTarget::Project(p) => CallView::Project {
            project: p@,
            name: req.name@,
            environment: req.environment@,
        },
    }
}

/// Whether a failed project lookup is retried in the wildcard environment.
pub open spec fn may_fall_back(req: VariableRequest) -> bool {
    req.fallback_to_wildcard && req.environment@ != wildcard()
}

/// The second call a project request makes, in the wildcard environment.
pub open spec fn fallback_call(req: VariableRequest, p: Seq<char>) -> CallView {
    CallView::Project { project: p, name: req.name@, environment: wildcard() }
}

/// What follows the first outcome of a lookup in project `p`.
pub open spec fn project_next(
    req: VariableRequest,
    p: Seq<char>,
    fetched: Result<VariableRecord, VariableError>,
) -> Next {
    if fetched is Err && may_fall_back(req) {
        Next::Fetch(fallback_call(req, p))
    } else {
        Next::Done(value_of(fetched))
    }
}

/// What follows the outcome of a request's first call. A group lookup is
/// final whatever its environment and fallback flag say.
pub open spec fn primary_next(
    req: VariableRequest,
    fetched: Result<VariableRecord, VariableError>,
) -> Next {
    match req.target {
        LookupTarget::Group(_) => Next::Done(value_of(fetched)),
        LookupTarget::Project(p) => project_next(req, p@, fetched),
    }
}

/// The command that fetches one variable, with the connection parameters
/// that the store is reached with.
pub struct GetVariableCommand {
    pub request: VariableRequest,
    /// The platform's base URL.
    pub url: String,
    /// The API token.
    pub token: String,
}

impl GetVariableCommand {
    /// Builds a command from its parts as given on the command line: the
    /// project path is percent-encoded, and exactly one of `project` and
    /// `group` must be given.
    pub fn new(
        name: String,
        project: Option<&str>,
        group: Option<String>,
        environment: String,
        from_all_if_missing: bool,
        url: String,
        token: String,
    ) -> (r: Result<GetVariableCommand, VariableError>)
        ensures
            (project is Some) != (group is Some) <==> r is Ok,
            r is Err ==> r->Err_0.kind == ErrorKind::InvalidTarget,
            r matches Ok(cmd) ==> {
                &&& cmd.request.name == name
                &&& cmd.request.environment == environment
                &&& cmd.request.fallback_to_wildcard == from_all_if_missing
                &&& cmd.url == url
                &&& cmd.token == token
                &&& (project matches Some(p) ==> cmd.request.target matches LookupTarget::Project(
                    e,
                ) && e@ == url_encoded(p@))
                &&& (group matches Some(g) ==> cmd.request.target == LookupTarget::Group(g))
            },
    {
        match encoded_target(project, group) {
            Ok(target) => Ok(
                GetVariableCommand {
                    request: VariableRequest {
                        target,
                        name,
                        environment,
                        fallback_to_wildcard: from_all_if_missing,
                    },
                    url,
                    token,
                },
            ),
            Err(e) => Err(e),
        }
    }

    /// The first call to make.
    pub fn first_call(&self) -> (c: StoreCall)
        ensures
            c@ == primary_call(self.request),
    {
        match &self.request.target {
            LookupTarget::Group(g) => StoreCall::Group {
                group: g.clone(),
                name: self.request.name.clone(),
            },
            LookupTarget::Project(p) => StoreCall::Project {
                project: p.clone(),
                name: self.request.name.clone(),
                environment: self.request.environment.clone(),
            },
        }
    }

    /// The result of a group lookup: the value found, or the store's error
    /// unchanged.
    pub fn get_variable_from_group(
        &self,
        fetched: Result<VariableRecord, VariableError>,
    ) -> (r: Result<String, VariableError>)
        ensures
            r == value_of(fetched),
    {
        match fetched {
            Ok(record) => Ok(record.value),
            Err(e) => Err(e),
        }
    }

    /// What follows the first lookup in project `p`: the value found; else a
    /// second call in the wildcard environment where the request asks for a
    /// fallback from a named environment; else the store's error unchanged.
    pub fn get_variable_from_project(
        &self,
        p: &str,
        fetched: Result<VariableRecord, VariableError>,
    ) -> (s: Step)
        ensures
            s@ == project_next(self.request, p@, fetched),
    {
        match fetched {
            Ok(record) => Step::Done(Ok(record.value)),
            Err(e) => {
                let wildcard = "*".to_owned();
                let named = !(self.request.environment == wildcard);
                if named && self.request.fallback_to_wildcard {
                    Step::Fetch(
                        StoreCall::Project {
                            project: p.to_owned(),
                            name: self.request.name.clone(),
                            environment: wildcard,
                        },
                    )
                } else {
                    Step::Done(Err(e))
                }
            },
        }
    }

    /// What follows the outcome of the first call.
    pub fn after_primary(&self, fetched: Result<VariableRecord, VariableError>) -> (s: Step)
        ensures
            s@ == primary_next(self.request, fetched),
    {
        match &self.request.target {
            LookupTarget::Group(_) => Step::Done(self.get_variable_from_group(fetched)),
            LookupTarget::Project(p) => self.get_variable_from_project(p.as_str(), fetched),
        }
    }

    /// The result of the fallback call, which replaces the first call's
    /// error whether it succeeded or not.
    pub fn after_fallback(
        &self,
        fetched: Result<VariableRecord, VariableError>,
    ) -> (r: Result<String, VariableError>)
        ensures
            r == value_of(fetched),
    {
        match fetched {
            Ok(record) => Ok(record.value),
            Err(e) => Err(e),
        }
    }
}

} // verus!
