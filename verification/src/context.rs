//! The immutable per-request value carrying the correlation token.

use vstd::prelude::*;

verus! {

/// Contains data that identifies the command, query or request that's being
/// executed. Built once per request by the extraction guard, read by the
/// handler and the observability pipeline, and never shared across requests.
#[derive(Debug)]
pub struct Context {
    pub request_id: String,
}

impl Context {
    /// A context is well formed when its correlation token is non-empty.
    pub open spec fn wf(&self) -> bool {
        self.request_id@.len() > 0
    }
}

impl PartialEq for Context {
    fn eq(&self, other: &Context) -> (r: bool) {
        self.request_id == other.request_id
    }
}

impl vstd::std_specs::cmp::PartialEqSpecImpl for Context {
    open spec fn obeys_eq_spec() -> bool {
        true
    }

    open spec fn eq_spec(&self, other: &Context) -> bool {
        self.request_id@ == other.request_id@
    }
}

impl Default for Context {
    fn default() -> (r: Context)
        ensures
            r.request_id@ == Seq::<char>::empty(),
    {
        Context { request_id: String::new() }
    }
}

} // verus!
