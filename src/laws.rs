//! A whole resolution against a store, and what holds of every one.
//!
//! A store is modelled as a function from the call made to the outcome it
//! gives. A resolution makes the first call, then the second call where the
//! decision after the first asks for one, and reports the final result.

use vstd::prelude::*;
use crate::request::{CallView, VariableError, VariableRecord, VariableRequest};
use crate::resolver::{
    primary_call, primary_next, value_of, wildcard, Next,
};

verus! {

/// The calls that a resolution of `req` against `store` makes, in order.
pub open spec fn resolution_calls(
    req: VariableRequest,
    store: spec_fn(CallView) -> Result<VariableRecord, VariableError>,
) -> Seq<CallView> {
    let first = primary_call(req);
    match primary_next(req, store(first)) {
        Next::Fetch(second) => seq![first, second],
        Next::Done(_) => seq![first],
    }
}

/// The result that a resolution of `req` against `store` reports.
pub open spec fn resolution_result(
    req: VariableRequest,
    store: spec_fn(CallView) -> Result<VariableRecord, VariableError>,
) -> Result<String, VariableError> {
    match primary_next(req, store(primary_call(req))) {
        Next::Fetch(second) => value_of(store(second)),
        Next::Done(r) => r,
    }
}

/// A group lookup makes exactly one call, in the group, and reports that
/// call's outcome unchanged, whatever the environment and fallback flag.
pub proof fn group_lookup_is_one_call(
    req: VariableRequest,
    store: spec_fn(CallView) -> Result<VariableRecord, VariableError>,
)
    requires
        req.target is Group,
    ensures
        resolution_calls(req, store) == seq![
            CallView::Group { group: req.target->Group_0@, name: req.name@ },
        ],
        resolution_result(req, store) == value_of(
            store(CallView::Group { group: req.target->Group_0@, name: req.name@ }),
        ),
{
}

/// Without the fallback flag, a project lookup makes exactly one call, in
/// the requested environment, and reports that call's outcome unchanged.
pub proof fn project_lookup_without_fallback_is_one_call(
    req: VariableRequest,
    store: spec_fn(CallView) -> Result<VariableRecord, VariableError>,
)
    requires
        req.target is Project,
        !req.fallback_to_wildcard,
    ensures
        ({
            let call = CallView::Project {
                project: req.target->Project_0@,
                name: req.name@,
                environment: req.environment@,
            };
            &&& resolution_calls(req, store) == seq![call]
            &&& resolution_result(req, store) == value_of(store(call))
        }),
{
}

/// With the fallback flag and a named environment, a failed first project
/// lookup is followed by exactly one more, in the wildcard environment, and
/// the second call's outcome is reported, even where it fails too.
pub proof fn failed_named_lookup_falls_back_to_wildcard(
    req: VariableRequest,
    store: spec_fn(CallView) -> Result<VariableRecord, VariableError>,
)
    requires
        req.target is Project,
        req.fallback_to_wildcard,
        req.environment@ != wildcard(),
        store(primary_call(req)) is Err,
    ensures
        ({
            let first = CallView::Project {
                project: req.target->Project_0@,
                name: req.name@,
                environment: req.environment@,
            };
            let second = CallView::Project {
                project: req.target->Project_0@,
                name: req.name@,
                environment: wildcard(),
            };
            &&& resolution_calls(req, store) == seq![first, second]
            &&& resolution_result(req, store) == value_of(store(second))
        }),
{
}

/// A project lookup in the wildcard environment makes one call only, and
/// reports its outcome unchanged, fallback flag or not.
pub proof fn wildcard_lookup_never_falls_back(
    req: VariableRequest,
    store: spec_fn(CallView) -> Result<VariableRecord, VariableError>,
)
    requires
        req.target is Project,
        req.environment@ == wildcard(),
    ensures
        resolution_calls(req, store).len() == 1,
        resolution_result(req, store) == value_of(store(primary_call(req))),
{
}

/// Every resolution makes one or two calls, the first always the primary one.
pub proof fn resolution_makes_one_or_two_calls(
    req: VariableRequest,
    store: spec_fn(CallView) -> Result<VariableRecord, VariableError>,
)
    ensures
        1 <= resolution_calls(req, store).len() <= 2,
        resolution_calls(req, store)[0] == primary_call(req),
{
}

/// A resolution depends on the request and the store's answers alone: two
/// stores that answer the calls made alike give the same calls and result.
pub proof fn resolution_is_deterministic(
    req: VariableRequest,
    store1: spec_fn(CallView) -> Result<VariableRecord, VariableError>,
    store2: spec_fn(CallView) -> Result<VariableRecord, VariableError>,
)
    requires
        forall|i: int|
            0 <= i < resolution_calls(req, store1).len() ==> store1(
                #[trigger] resolution_calls(req, store1)[i],
            ) == store2(resolution_calls(req, store1)[i]),
    ensures
        resolution_calls(req, store1) == resolution_calls(req, store2),
        resolution_result(req, store1) == resolution_result(req, store2),
{
    assert(resolution_calls(req, store1)[0] == primary_call(req));
    if let Next::Fetch(second) = primary_next(req, store1(primary_call(req))) {
        assert(resolution_calls(req, store1)[1] == second);
    }
}

} // verus!
