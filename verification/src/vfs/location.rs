//! Location in the virtual file system: a path in a back-end, layered on the location of the
//! data it was opened from.

use std::sync::Arc;

use vstd::prelude::*;

use crate::text::push_str;

use super::enums::{vfs_type_name, VfsType};
use super::path::{path_text, ComponentView, Path, PathComponent};

verus! {

/// Segments of a text separated by "/", as `str::split("/")` gives them: one more than the
/// number of separators, each possibly empty.
pub open spec fn slash_segments(text: Seq<char>) -> Seq<Seq<char>>
    decreases text.len(),
{
    if text.len() == 0 {
        seq![Seq::<char>::empty()]
    } else {
        let segments: Seq<Seq<char>> = slash_segments(text.drop_last());
        if text.last() == '/' {
            segments.push(Seq::<char>::empty())
        } else {
            segments.update(segments.len() - 1, segments.last().push(text.last()))
        }
    }
}

/// Components after one more segment of a path text: an empty segment is the root at the
/// start and is ignored elsewhere; "." is the current directory at the start and is ignored
/// elsewhere; ".." accumulates at the start and after other parent directories, stops at the
/// root and removes any other last component; a name replaces a trailing current directory
/// and is appended.
pub open spec fn with_path_segment(components: Seq<ComponentView>, segment: Seq<char>) -> Seq<
    ComponentView,
> {
    if segment.len() == 0 {
        if components.len() == 0 {
            seq![ComponentView::Root]
        } else {
            components
        }
    } else if segment == "."@ {
        if components.len() == 0 {
            seq![ComponentView::Current]
        } else {
            components
        }
    } else if segment == ".."@ {
        if components.len() == 0 || components.last() == ComponentView::Parent {
            components.push(ComponentView::Parent)
        } else if components.last() == ComponentView::Root {
            components
        } else {
            components.drop_last()
        }
    } else if components.len() > 0 && components.last() == ComponentView::Current {
        components.drop_last().push(ComponentView::Name(segment))
    } else {
        components.push(ComponentView::Name(segment))
    }
}

/// Components after the segments of a path text, one after the other.
pub open spec fn with_path_segments(segments: Seq<Seq<char>>) -> Seq<ComponentView>
    decreases segments.len(),
{
    if segments.len() == 0 {
        seq![]
    } else {
        with_path_segment(with_path_segments(segments.drop_last()), segments.last())
    }
}

/// Path that `keramics_formats::Path::from(&str)` reads from a string: none for the empty
/// string, the root for "/", and otherwise its segments one after the other.
pub open spec fn parsed_path(text: Seq<char>) -> Seq<ComponentView> {
    if text.len() == 0 {
        seq![]
    } else if text == "/"@ {
        seq![ComponentView::Root]
    } else {
        with_path_segments(slash_segments(text))
    }
}

/// Reads a path from a string with `keramics_formats::Path::from(&str)`, and converts its
/// components one by one. The contract claims that the result is what `parsed_path` says;
/// `From<&str>` creates only root, current, parent and string components.
#[verifier::external_body]
fn parse_path(text: &str) -> (path: Path)
    ensures
        path@ == parsed_path(text@),
{
    let parsed: keramics_formats::Path = keramics_formats::Path::from(text);
    let mut components: Vec<PathComponent> = Vec::new();
    for component in parsed.components {
        components.push(match component {
            keramics_formats::PathComponent::Current => PathComponent::Current,
            keramics_formats::PathComponent::Parent => PathComponent::Parent,
            keramics_formats::PathComponent::Root => PathComponent::Root,
            keramics_formats::PathComponent::String(name) => PathComponent::String(name),
            other => PathComponent::String(other.to_string()),
        });
    }
    Path { components }
}

/// Location in the virtual file system.
pub enum VfsLocation {
    /// Location in a back-end that is opened on its own.
    Base { path: Path, vfs_type: VfsType },
    /// Location in a back-end that is opened on the data at a parent location.
    Layer { path: Path, parent: Arc<VfsLocation>, vfs_type: VfsType },
}

/// Model of a location: the back-end types and paths from the base to the location itself.
pub ghost struct LocationStep {
    pub vfs_type: VfsType,
    pub path: Seq<ComponentView>,
}

impl VfsLocation {
    /// Steps from the base location to this one.
    pub open spec fn steps(&self) -> Seq<LocationStep>
        decreases self,
    {
        match self {
            VfsLocation::Base { path, vfs_type } => seq![
                LocationStep { vfs_type: *vfs_type, path: path@ },
            ],
            VfsLocation::Layer { path, parent, vfs_type } => (**parent).steps().push(
                LocationStep { vfs_type: *vfs_type, path: path@ },
            ),
        }
    }
}

/// Text of the steps of a location: one line per step, base first, of the form
/// "TYPE: path".
pub open spec fn steps_text(steps: Seq<LocationStep>) -> Seq<char>
    decreases steps.len(),
{
    if steps.len() == 0 {
        Seq::empty()
    } else {
        steps_text(steps.drop_last()) + vfs_type_name(steps.last().vfs_type) + ": "@ + path_text(
            steps.last().path,
        ) + "\n"@
    }
}

impl VfsLocation {
    /// Creates a base location.
    pub fn new_base(vfs_type: &VfsType, path: Path) -> (location: VfsLocation)
        ensures
            location.steps() == seq![LocationStep { vfs_type: *vfs_type, path: path@ }],
            location is Base,
    {
        VfsLocation::Base { path, vfs_type: *vfs_type }
    }

    /// Creates a copy of the location, sharing its parent.
    pub fn copy(&self) -> (location: VfsLocation)
        ensures
            location.steps() == self.steps(),
            location is Base <==> self is Base,
    {
        match self {
            VfsLocation::Base { path, vfs_type } => VfsLocation::Base {
                path: path.copy(),
                vfs_type: *vfs_type,
            },
            VfsLocation::Layer { path, parent, vfs_type } => VfsLocation::Layer {
                path: path.copy(),
                parent: parent.clone(),
                vfs_type: *vfs_type,
            },
        }
    }

    /// Creates a location in a back-end opened on the data at this location.
    pub fn new_with_layer(&self, vfs_type: &VfsType, path: Path) -> (location: VfsLocation)
        ensures
            location.steps() == self.steps().push(LocationStep { vfs_type: *vfs_type, path: path@ }),
            location matches VfsLocation::Layer { parent, .. } && (*parent).steps() == self.steps(),
    {
        VfsLocation::Layer { path, parent: Arc::new(self.copy()), vfs_type: *vfs_type }
    }

    /// Creates a location with another path in the same back-end, on the same parent.
    pub fn new_with_parent(&self, path: Path) -> (location: VfsLocation)
        ensures
            location.steps() == self.steps().drop_last().push(
                LocationStep { vfs_type: self.steps().last().vfs_type, path: path@ },
            ),
            location is Base <==> self is Base,
    {
        match self {
            VfsLocation::Base { vfs_type, .. } => {
                let location: VfsLocation = VfsLocation::Base { path, vfs_type: *vfs_type };
                assert(location.steps() =~= self.steps().drop_last().push(
                    LocationStep { vfs_type: self.steps().last().vfs_type, path: path@ },
                ));
                location
            },
            VfsLocation::Layer { parent, vfs_type, .. } => {
                let location: VfsLocation = VfsLocation::Layer {
                    path,
                    parent: parent.clone(),
                    vfs_type: *vfs_type,
                };
                assert(self.steps().drop_last() =~= (**parent).steps());
                location
            },
        }
    }

    /// Retrieves the parent location; a base location has none.
    pub fn get_parent(&self) -> (parent: Option<&VfsLocation>)
        ensures
            self is Base ==> parent is None,
            self is Layer ==> (parent matches Some(location) && location.steps()
                == self.steps().drop_last()),
    {
        match self {
            VfsLocation::Base { .. } => None,
            VfsLocation::Layer { parent, .. } => {
                assert(self.steps().drop_last() =~= (**parent).steps());
                Some(&**parent)
            },
        }
    }

    /// Retrieves the path.
    pub fn get_path(&self) -> (path: &Path)
        ensures
            path@ == self.steps().last().path,
    {
        match self {
            VfsLocation::Base { path, .. } => path,
            VfsLocation::Layer { path, .. } => path,
        }
    }

    /// Retrieves the back-end type.
    pub fn get_type(&self) -> (vfs_type: &VfsType)
        ensures
            *vfs_type == self.steps().last().vfs_type,
    {
        match self {
            VfsLocation::Base { vfs_type, .. } => vfs_type,
            VfsLocation::Layer { vfs_type, .. } => vfs_type,
        }
    }

    /// Text of the location: one line per step from the base, of the form "TYPE: path".
    pub fn to_string(&self) -> (text: String)
        ensures
            text@ == steps_text(self.steps()),
        decreases self,
    {
        let (mut text, vfs_type, path): (String, &VfsType, &Path) = match self {
            VfsLocation::Base { path, vfs_type } => (String::new(), vfs_type, path),
            VfsLocation::Layer { path, parent, vfs_type } => (parent.to_string(), vfs_type, path),
        };
        push_str(&mut text, vfs_type.as_str());
        push_str(&mut text, ": ");
        let path_string: String = path.to_string();
        push_str(&mut text, path_string.as_str());
        push_str(&mut text, "\n");
        proof {
            let steps: Seq<LocationStep> = self.steps();
            assert(steps.drop_last() =~= match self {
                VfsLocation::Base { .. } => Seq::<LocationStep>::empty(),
                VfsLocation::Layer { parent, .. } => (**parent).steps(),
            });
            assert(Seq::<char>::empty() + vfs_type_name(*vfs_type) =~= vfs_type_name(*vfs_type));
            assert(steps.last().vfs_type == *vfs_type);
            assert(steps.last().path == path@);
            assert(steps.len() > 0);
            assert(steps_text(steps) == steps_text(steps.drop_last()) + vfs_type_name(*vfs_type) + ": "@ + path_text(path@) + "\n"@);
        }
        text
    }
}

/// Creates a location in the operating system file system from a path string.
pub fn new_os_vfs_location(path: &str) -> (location: VfsLocation)
    ensures
        location is Base,
        location.steps() == seq![LocationStep { vfs_type: VfsType::Os, path: parsed_path(path@) }],
{
    VfsLocation::Base { path: parse_path(path), vfs_type: VfsType::Os }
}

} // verus!
