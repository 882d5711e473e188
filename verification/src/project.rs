//! Scaffolding for test projects: where a project lives under the
//! scratch directory, and the paths inside it that the harness edits and
//! builds. Creating directories and running builds happen outside the
//! library; the paths are computed here.

use vstd::prelude::*;
use crate::paths::{join, spec_join, spec_parent, parent_of};

verus! {

/// The checkout root: the parent of the directory holding the harness's
/// own manifest.
pub fn root_directory(manifest_dir: &str) -> (r: Option<String>)
    ensures
        match r {
            Some(p) => spec_parent(manifest_dir@) == Some(p@),
            None => spec_parent(manifest_dir@) is None,
        },
{
    parent_of(manifest_dir)
}

/// The runtime's own project directory under the checkout root.
pub fn hotbolt_project_dir(root: &str) -> (r: String)
    ensures
        r@ == spec_join(root@, "hotbolt"@),
{
    join(root, "hotbolt")
}

/// Builds test projects under one scratch directory.
pub struct Builder {
    pub dir: String,
}

/// A test project: its directory, and the source file the harness edits.
pub struct Project {
    pub dir: String,
    pub code: String,
}

impl Builder {
    /// A builder whose projects live under `temp/hotbolt`.
    pub fn new(temp: &str) -> (b: Builder)
        ensures
            b.dir@ == spec_join(temp@, "hotbolt"@),
    {
        Builder { dir: join(temp, "hotbolt") }
    }

    /// Lays a project named `name` out under the scratch directory: its
    /// directory, and its library source file inside `src`.
    pub fn build(&self, name: &str) -> (p: Project)
        ensures
            p.dir@ == spec_join(self.dir@, name@),
            p.code@ == spec_join(spec_join(self.dir@, name@), "src/lib.rs"@),
    {
        let dir = join(self.dir.as_str(), name);
        let code = join(dir.as_str(), "src/lib.rs");
        Project { dir, code }
    }
}

} // verus!
