//! A library unit paired with its test project.

use crate::path_util::{is_lib_file, project_of, with_test_extension};
use vstd::prelude::*;

verus! {

/// One library unit under test: the library file and the directory of the
/// project that exercises it. The project path is never stored independently:
/// it is always the library path with its extension replaced.
#[derive(Debug)]
pub struct Test {
    /// Path of the library file being tested.
    pub library: String,
    /// Path of the test-project directory for that library.
    pub project: String,
}

impl Test {
    /// The pairing invariant: `project` is `library` with only its extension
    /// replaced.
    pub open spec fn wf(self) -> bool {
        &&& is_lib_file(self.library@)
        &&& self.project@ == project_of(self.library@)
    }

    /// Pair a library file with its test project.
    pub fn new(library: String) -> (t: Test)
        requires
            is_lib_file(library@),
        ensures
            t.library == library,
            t.project@ == project_of(library@),
            t.wf(),
    {
        let project = with_test_extension(library.as_str());
        Test { library, project }
    }
}

} // verus!
