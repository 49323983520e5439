//! Resolving the paths that a format reader asks for, relative to a base path.

use vstd::prelude::*;

use super::path::{component_views, joined_with_components, ComponentView, Path, PathComponent};

verus! {

/// Resolver of the files that a format reader asks for, such as the other segments of a
/// split image, relative to a base path in a file system.
pub struct VfsFileResolver {
    base_path: Path,
}

impl VfsFileResolver {
    /// Base path that requested paths are relative to.
    pub closed spec fn base(&self) -> Seq<ComponentView> {
        self.base_path@
    }

    /// Creates a resolver relative to a base path.
    pub fn new(base_path: Path) -> (resolver: Self)
        ensures
            resolver.base() == base_path@,
    {
        VfsFileResolver { base_path }
    }

    /// Retrieves the path in the file system of the requested path components: the base path
    /// joined with them.
    pub fn get_path(&self, path_components: &[PathComponent]) -> (path: Path)
        ensures
            path@ == joined_with_components(self.base(), component_views(path_components@)),
    {
        self.base_path.new_with_join_path_components(path_components)
    }
}

} // verus!
