//! Storage media image as a file system: the root directory holds one file per image layer,
//! named by the image type's prefix and the layer number ("qcow1", "qcow2", ...).

use std::sync::Arc;

use vstd::prelude::*;

use crate::text::{push_decimal, push_str};
use crate::uuid::Uuid;

use super::enums::VfsFileType;
use super::error::VfsError;
use super::path::{
    is_relative_path, numbered_name, numeric_suffix, law_numeric_suffix_of_numbered_name,
    ComponentView, Path, PathComponent,
};

verus! {

/// Identifier of an image layer.
#[derive(Clone, Copy, Debug, Eq, PartialEq, Structural)]
pub enum VfsImageIdentifier {
    /// Identifier that is a UUID.
    Uuid(Uuid),
}

/// Layer of a storage media image, as the file system sees it.
#[derive(Clone, Copy, Debug)]
pub struct VfsImageLayer {
    /// Size of the media data of the layer.
    pub media_size: u64,
    /// Identifier of the layer, where the image type has one.
    pub identifier: Option<VfsImageIdentifier>,
}

/// Storage media image, as the file system sees it.
pub struct VfsImage {
    /// Prefix of the names of the layer file entries.
    pub name_prefix: String,
    /// Bytes per sector of the media.
    pub bytes_per_sector: u32,
    /// Layers, in order.
    pub layers: Vec<VfsImageLayer>,
}

/// Where a path leads in an image file system: the root, or a layer by its index.
pub ghost enum ImageTarget {
    Root,
    Layer(nat),
}

/// Where a path leads in an image file system with a name prefix and a number of layers.
/// An absolute path of the root alone leads to the root; the root followed by the prefix and
/// a layer number from 1 to the number of layers leads to that layer; nothing else leads
/// anywhere.
pub open spec fn image_target(path: Seq<ComponentView>, prefix: Seq<char>, count: nat) -> Option<
    ImageTarget,
> {
    if path.len() == 0 || is_relative_path(path) || path.len() > 2 {
        None
    } else if path.len() == 1 {
        Some(ImageTarget::Root)
    } else {
        match numeric_suffix(path[1], prefix) {
            Some(number) => if 1 <= number <= count {
                Some(ImageTarget::Layer((number - 1) as nat))
            } else {
                None
            },
            None => None,
        }
    }
}

/// Whether a file entry exists at a path, as the image file system decides it.
pub open spec fn image_entry_exists(path: Seq<ComponentView>, prefix: Seq<char>, count: nat) -> bool {
    if is_relative_path(path) {
        false
    } else if path.len() >= 2 {
        if path.len() > 2 {
            false
        } else {
            match numeric_suffix(path[1], prefix) {
                Some(number) => number != 0 && number <= count,
                None => false,
            }
        }
    } else {
        path.len() != 0
    }
}

/// Model of an image file entry.
pub ghost enum ImageEntryView {
    Layer { index: nat, prefix: Seq<char>, layer: VfsImageLayer },
    Root { prefix: Seq<char>, layers: Seq<VfsImageLayer> },
}

/// The file entry that a target stands for, in an image with a prefix and layers.
pub open spec fn image_entry_of(target: ImageTarget, prefix: Seq<char>, layers: Seq<VfsImageLayer>) -> ImageEntryView {
    match target {
        ImageTarget::Root => ImageEntryView::Root { prefix, layers },
        ImageTarget::Layer(index) => ImageEntryView::Layer { index, prefix, layer: layers[index as int] },
    }
}

/// Name of an image file entry: the root component for the root, the prefix followed by the
/// layer number for a layer.
pub open spec fn image_entry_name(entry: ImageEntryView) -> ComponentView {
    match entry {
        ImageEntryView::Layer { index, prefix, .. } => ComponentView::Name(
            numbered_name(prefix, index + 1),
        ),
        ImageEntryView::Root { .. } => ComponentView::Root,
    }
}

/// Virtual File System (VFS) image file entry: the root directory or a layer.
pub enum VfsImageFileEntry {
    Layer { name_index: usize, name_prefix: String, layer: VfsImageLayer },
    Root { image: Arc<VfsImage> },
}

impl View for VfsImageFileEntry {
    type V = ImageEntryView;

    open spec fn view(&self) -> ImageEntryView {
        match self {
            VfsImageFileEntry::Layer { name_index, name_prefix, layer } => ImageEntryView::Layer {
                index: *name_index as nat,
                prefix: name_prefix@,
                layer: *layer,
            },
            VfsImageFileEntry::Root { image } => ImageEntryView::Root {
                prefix: image.name_prefix@,
                layers: image.layers@,
            },
        }
    }
}

impl VfsImageFileEntry {
    /// Retrieves the file type: a file for a layer, a directory for the root.
    pub fn get_file_type(&self) -> (file_type: VfsFileType)
        ensures
            file_type == (if self@ is Layer {
                VfsFileType::File
            } else {
                VfsFileType::Directory
            }),
    {
        match self {
            VfsImageFileEntry::Layer { .. } => VfsFileType::File,
            VfsImageFileEntry::Root { .. } => VfsFileType::Directory,
        }
    }

    /// Retrieves the identifier of a layer; the root has none.
    pub fn get_identifier(&self) -> (identifier: Option<VfsImageIdentifier>)
        ensures
            identifier == (match self@ {
                ImageEntryView::Layer { layer, .. } => layer.identifier,
                ImageEntryView::Root { .. } => None,
            }),
    {
        match self {
            VfsImageFileEntry::Layer { layer, .. } => layer.identifier,
            VfsImageFileEntry::Root { .. } => None,
        }
    }

    /// Retrieves the layer number, one more than the layer index; the root has none.
    pub fn get_layer_number(&self) -> (number: Option<usize>)
        requires
            self@ matches ImageEntryView::Layer { index, .. } ==> index < usize::MAX,
        ensures
            number == (match self@ {
                ImageEntryView::Layer { index, .. } => Some((index + 1) as usize),
                ImageEntryView::Root { .. } => None,
            }),
    {
        match self {
            VfsImageFileEntry::Layer { name_index, .. } => Some(name_index + 1),
            VfsImageFileEntry::Root { .. } => None,
        }
    }

    /// Retrieves the name: the prefix followed by the layer number for a layer, the root
    /// component for the root.
    pub fn get_name(&self) -> (name: PathComponent)
        requires
            self@ matches ImageEntryView::Layer { index, .. } ==> index < usize::MAX,
        ensures
            name@ == image_entry_name(self@),
    {
        match self {
            VfsImageFileEntry::Layer { name_index, name_prefix, .. } => {
                let mut name: String = String::new();
                push_str(&mut name, name_prefix.as_str());
                let number: usize = name_index + 1;
                push_decimal(&mut name, number as u64);
                PathComponent::String(name)
            },
            VfsImageFileEntry::Root { .. } => PathComponent::Root,
        }
    }

    /// Retrieves the size: the media size of a layer, zero for the root.
    pub fn get_size(&self) -> (size: u64)
        ensures
            size == (match self@ {
                ImageEntryView::Layer { layer, .. } => layer.media_size,
                ImageEntryView::Root { .. } => 0,
            }),
    {
        match self {
            VfsImageFileEntry::Layer { layer, .. } => layer.media_size,
            VfsImageFileEntry::Root { .. } => 0,
        }
    }

    /// Retrieves the number of sub file entries: the number of layers for the root, none for
    /// a layer.
    pub fn get_number_of_sub_file_entries(&self) -> (count: usize)
        ensures
            count == (match self@ {
                ImageEntryView::Layer { .. } => 0,
                ImageEntryView::Root { layers, .. } => layers.len(),
            }),
    {
        match self {
            VfsImageFileEntry::Layer { .. } => 0,
            VfsImageFileEntry::Root { image } => image.layers.len(),
        }
    }

    /// Retrieves a sub file entry by its index: the layer with that index, for the root.
    pub fn get_sub_file_entry_by_index(&self, sub_file_entry_index: usize) -> (result: Result<
        VfsImageFileEntry,
        VfsError,
    >)
        ensures
            match self@ {
                ImageEntryView::Layer { .. } => result == Err::<VfsImageFileEntry, VfsError>(
                    VfsError::NoSubFileEntries,
                ),
                ImageEntryView::Root { prefix, layers } => if sub_file_entry_index < layers.len() {
                    result matches Ok(entry) && entry@ == image_entry_of(
                        ImageTarget::Layer(sub_file_entry_index as nat),
                        prefix,
                        layers,
                    )
                } else {
                    result == Err::<VfsImageFileEntry, VfsError>(
                        VfsError::MissingLayer(sub_file_entry_index),
                    )
                },
            },
    {
        match self {
            VfsImageFileEntry::Layer { .. } => Err(VfsError::NoSubFileEntries),
            VfsImageFileEntry::Root { image } => {
                if sub_file_entry_index < image.layers.len() {
                    Ok(
                        VfsImageFileEntry::Layer {
                            name_index: sub_file_entry_index,
                            name_prefix: image.name_prefix.clone(),
                            layer: image.layers[sub_file_entry_index],
                        },
                    )
                } else {
                    Err(VfsError::MissingLayer(sub_file_entry_index))
                }
            },
        }
    }

    /// Determines if the file entry is the root.
    pub fn is_root_file_entry(&self) -> (root: bool)
        ensures
            root == (self@ is Root),
    {
        match self {
            VfsImageFileEntry::Root { .. } => true,
            _ => false,
        }
    }
}

} // verus!

verus! {

/// Virtual File System (VFS) image based file system.
pub struct VfsImageFileSystem {
    image: Arc<VfsImage>,
    number_of_layers: usize,
}

impl VfsImageFileSystem {
    #[verifier::type_invariant]
    spec fn number_of_layers_matches(self) -> bool {
        self.number_of_layers == self.image.layers.len()
    }

    /// Prefix of the names of the layer file entries.
    pub closed spec fn name_prefix(&self) -> Seq<char> {
        self.image.name_prefix@
    }

    /// Layers of the image.
    pub closed spec fn layers(&self) -> Seq<VfsImageLayer> {
        self.image.layers@
    }

    /// Bytes per sector of the image.
    pub closed spec fn bytes_per_sector(&self) -> u32 {
        self.image.bytes_per_sector
    }

    /// Creates a new file system, with an image of no layers, for an image type whose layer
    /// names start with a prefix.
    pub fn new(name_prefix: &str) -> (file_system: Self)
        ensures
            file_system.name_prefix() == name_prefix@,
            file_system.layers().len() == 0,
            file_system.bytes_per_sector() == 0,
    {
        let image: VfsImage = VfsImage {
            name_prefix: name_prefix.to_owned(),
            bytes_per_sector: 0,
            layers: Vec::new(),
        };
        VfsImageFileSystem { image: Arc::new(image), number_of_layers: 0 }
    }

    /// Opens the file system on the layers and bytes per sector read from an image.
    pub fn open(&mut self, bytes_per_sector: u32, layers: Vec<VfsImageLayer>)
        ensures
            final(self).name_prefix() == old(self).name_prefix(),
            final(self).layers() == layers@,
            final(self).bytes_per_sector() == bytes_per_sector,
    {
        let name_prefix: String = self.image.name_prefix.clone();
        let number_of_layers: usize = layers.len();
        let image: VfsImage = VfsImage { name_prefix, bytes_per_sector, layers };
        *self = VfsImageFileSystem { image: Arc::new(image), number_of_layers };
    }

    /// Determines if the file entry with the specified path exists.
    pub fn file_entry_exists(&self, path: &Path) -> (exists: bool)
        ensures
            exists == image_entry_exists(path@, self.name_prefix(), self.layers().len()),
    {
        proof {
            use_type_invariant(self);
        }
        if path.is_relative() {
            return false;
        }
        match path.get_component_by_index(1) {
            Some(path_component) => {
                if path.get_number_of_components() > 2 {
                    return false;
                }
                let layer_index: usize = match Path::get_numeric_suffix(
                    path_component,
                    self.image.name_prefix.as_str(),
                ) {
                    Some(layer_index) => layer_index,
                    None => return false,
                };
                if layer_index == 0 || layer_index > self.number_of_layers {
                    false
                } else {
                    true
                }
            },
            None => {
                if path.is_empty() {
                    false
                } else {
                    true
                }
            },
        }
    }

    /// Retrieves the bytes per sector.
    pub fn get_bytes_per_sector(&self) -> (bytes_per_sector: u32)
        ensures
            bytes_per_sector == self.bytes_per_sector(),
    {
        self.image.bytes_per_sector
    }

    /// Retrieves the file entry with the specified path.
    pub fn get_file_entry_by_path(&self, path: &Path) -> (result: Result<
        Option<VfsImageFileEntry>,
        VfsError,
    >)
        ensures
            result matches Ok(found) && match image_target(
                path@,
                self.name_prefix(),
                self.layers().len(),
            ) {
                Some(target) => found matches Some(entry) && entry@ == image_entry_of(
                    target,
                    self.name_prefix(),
                    self.layers(),
                ),
                None => found is None,
            },
    {
        proof {
            use_type_invariant(self);
        }
        if path.is_relative() {
            return Ok(None);
        }
        match path.get_component_by_index(1) {
            Some(path_component) => {
                if path.get_number_of_components() > 2 {
                    return Ok(None);
                }
                let mut layer_index: usize = match Path::get_numeric_suffix(
                    path_component,
                    self.image.name_prefix.as_str(),
                ) {
                    Some(layer_index) => layer_index,
                    None => return Ok(None),
                };
                if layer_index == 0 || layer_index > self.number_of_layers {
                    return Ok(None);
                }
                layer_index -= 1;
                Ok(
                    Some(
                        VfsImageFileEntry::Layer {
                            name_index: layer_index,
                            name_prefix: self.image.name_prefix.clone(),
                            layer: self.image.layers[layer_index],
                        },
                    ),
                )
            },
            None => {
                if path.is_empty() {
                    return Ok(None);
                }
                Ok(Some(self.get_root_file_entry()))
            },
        }
    }

    /// Retrieves the root file entry.
    pub fn get_root_file_entry(&self) -> (entry: VfsImageFileEntry)
        ensures
            entry@ == image_entry_of(ImageTarget::Root, self.name_prefix(), self.layers()),
    {
        VfsImageFileEntry::Root { image: self.image.clone() }
    }
}

/// A file entry exists at a path exactly when a file entry is found at it.
pub proof fn law_image_exists_iff_found(path: Seq<ComponentView>, prefix: Seq<char>, count: nat)
    ensures
        image_entry_exists(path, prefix, count) == (image_target(path, prefix, count) is Some),
{
}

/// The root path leads to the root file entry.
pub proof fn law_image_root_path(prefix: Seq<char>, count: nat)
    ensures
        image_target(seq![ComponentView::Root], prefix, count) == Some(ImageTarget::Root),
{
}

/// The name of each sub file entry of the root leads back to that entry: the path of the
/// root followed by the name of layer `index` finds layer `index`.
pub proof fn law_image_sub_entry_name_resolves(
    prefix: Seq<char>,
    layers: Seq<VfsImageLayer>,
    index: nat,
)
    requires
        index < layers.len(),
    ensures
        image_target(
            seq![
                ComponentView::Root,
                image_entry_name(image_entry_of(ImageTarget::Layer(index), prefix, layers)),
            ],
            prefix,
            layers.len(),
        ) == Some(ImageTarget::Layer(index)),
{
    law_numeric_suffix_of_numbered_name(prefix, index + 1);
}

} // verus!
