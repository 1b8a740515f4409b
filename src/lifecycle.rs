use vstd::prelude::*;

verus! {

#[verifier::external_type_specification]
#[verifier::external_body]
pub struct ExPathBuf(std::path::PathBuf);

/// Per-loader configuration, fixed when the loader is set up.
pub struct LoaderLifecycleState {
    pub execution_paths: Vec<std::path::PathBuf>,
}

impl LoaderLifecycleState {
    pub fn new(execution_paths: Vec<std::path::PathBuf>) -> (r: LoaderLifecycleState)
        ensures
            r.execution_paths@ == execution_paths@,
    {
        LoaderLifecycleState { execution_paths }
    }
}

} // verus!
