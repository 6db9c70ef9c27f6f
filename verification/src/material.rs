//! The backdrop material and the shader bindings that are derived from it.

use crate::image::{ImageHandle, TextureViewDimension};
use std::collections::HashMap;
use vstd::prelude::*;

verus! {

broadcast use vstd::std_specs::hash::group_hash_axioms;

/// The label under which the backdrop's bind group is created.
pub const BIND_GROUP_LABEL: &'static str = "cubemap_texture_material_bind_group";

/// The material of the backdrop: at most one cube texture, sampled unlit.
#[derive(Clone, Copy, Debug, PartialEq, Eq, Structural, Hash)]
pub struct CubemapMaterial {
    pub base_color_texture: Option<ImageHandle>,
}

/// An image as the device-side cache holds it once it is uploaded: the
/// identifiers of its texture view and of its sampler.
#[derive(Clone, Copy, Debug, PartialEq, Eq, Structural)]
pub struct GpuImage {
    pub texture_view: u64,
    pub sampler: u64,
}

/// A device resource that a binding refers to.
#[derive(Clone, Copy, Debug, PartialEq, Eq, Structural)]
pub enum BindingResource {
    TextureView(u64),
    Sampler(u64),
}

/// One entry of a bind group: a binding index and the resource bound to it.
#[derive(Clone, Copy, Debug, PartialEq, Eq, Structural)]
pub struct BindGroupEntry {
    pub binding: u32,
    pub resource: BindingResource,
}

/// Why no bind group could be prepared.
#[derive(Clone, Copy, Debug, PartialEq, Eq, Structural)]
pub enum AsBindGroupError {
    /// An input is not resolved yet: not a fault, the caller tries again in
    /// the next preparation cycle.
    RetryNextUpdate,
}

/// The shader stages to which a binding is visible.
#[derive(Clone, Copy, Debug, PartialEq, Eq, Structural)]
pub struct ShaderStages {
    pub vertex: bool,
    pub fragment: bool,
    pub compute: bool,
}

/// The kind of value that sampling a texture yields.
#[derive(Clone, Copy, Debug, PartialEq, Eq, Structural)]
pub enum TextureSampleType {
    Float { filterable: bool },
    Depth,
    Sint,
    Uint,
}

/// How a sampler binding samples.
#[derive(Clone, Copy, Debug, PartialEq, Eq, Structural)]
pub enum SamplerBindingType {
    Filtering,
    NonFiltering,
    Comparison,
}

/// What a layout entry binds.
#[derive(Clone, Copy, Debug, PartialEq, Eq, Structural)]
pub enum BindingType {
    Texture { sample_type: TextureSampleType, view_dimension: TextureViewDimension, multisampled: bool },
    Sampler(SamplerBindingType),
}

/// One entry of a bind group layout.
#[derive(Clone, Copy, Debug, PartialEq, Eq, Structural)]
pub struct BindGroupLayoutEntry {
    pub binding: u32,
    pub visibility: ShaderStages,
    pub ty: BindingType,
    pub count: Option<u32>,
}

/// The description from which a device creates a bind group layout.
#[derive(Clone, Debug, PartialEq, Eq)]
pub struct BindGroupLayoutDescriptor {
    pub label: Option<&'static str>,
    pub entries: Vec<BindGroupLayoutEntry>,
}

/// The description from which a device creates a bind group.
#[derive(Clone, Debug, PartialEq, Eq)]
pub struct BindGroupDescriptor {
    pub label: Option<&'static str>,
    pub entries: Vec<BindGroupEntry>,
}

/// A bind group as prepared for one render-preparation cycle: what to create
/// on the device, the resources it keeps alive, and the data stored with it.
#[derive(Clone, Debug, PartialEq, Eq)]
pub struct PreparedBindGroup {
    pub bind_group: BindGroupDescriptor,
    pub bindings: Vec<BindingResource>,
    pub data: CubemapMaterial,
}

/// The contents of a prepared bind group.
pub ghost struct PreparedBindGroupView {
    pub label: Option<Seq<char>>,
    pub entries: Seq<BindGroupEntry>,
    pub bindings: Seq<BindingResource>,
    pub data: CubemapMaterial,
}

impl View for PreparedBindGroup {
    type V = PreparedBindGroupView;

    open spec fn view(&self) -> PreparedBindGroupView {
        PreparedBindGroupView {
            label: match self.bind_group.label {
                Some(label) => Some(label@),
                None => None,
            },
            entries: self.bind_group.entries@,
            bindings: self.bindings@,
            data: self.data,
        }
    }
}

/// Visible to the fragment stage alone.
pub open spec fn fragment_only() -> ShaderStages {
    ShaderStages { vertex: false, fragment: true, compute: false }
}

/// The layout of the backdrop's bindings: binding 0 is a cube texture whose
/// samples are filterable floats, binding 1 a filtering sampler, both visible
/// to the fragment stage.
pub open spec fn layout_entries() -> Seq<BindGroupLayoutEntry> {
    seq![
        BindGroupLayoutEntry {
            binding: 0,
            visibility: fragment_only(),
            ty: BindingType::Texture {
                sample_type: TextureSampleType::Float { filterable: true },
                view_dimension: TextureViewDimension::Cube,
                multisampled: false,
            },
            count: None,
        },
        BindGroupLayoutEntry {
            binding: 1,
            visibility: fragment_only(),
            ty: BindingType::Sampler(SamplerBindingType::Filtering),
            count: None,
        },
    ]
}

/// The bind group built from a resolved image: binding 0 is its texture view,
/// binding 1 its sampler; the stored material carries no texture.
pub open spec fn bind_group_of(image: GpuImage) -> PreparedBindGroupView {
    PreparedBindGroupView {
        label: Some(BIND_GROUP_LABEL@),
        entries: seq![
            BindGroupEntry { binding: 0, resource: BindingResource::TextureView(image.texture_view) },
            BindGroupEntry { binding: 1, resource: BindingResource::Sampler(image.sampler) },
        ],
        bindings: seq![
            BindingResource::TextureView(image.texture_view),
            BindingResource::Sampler(image.sampler),
        ],
        data: CubemapMaterial { base_color_texture: None },
    }
}

/// What preparation yields for a material, given the images that the device
/// cache holds: deferral while the texture is unset or not uploaded yet, else
/// the bind group of the uploaded image.
pub open spec fn preparation(material: CubemapMaterial, images: Map<u64, GpuImage>) -> Result<
    PreparedBindGroupView,
    AsBindGroupError,
> {
    match material.base_color_texture {
        None => Err(AsBindGroupError::RetryNextUpdate),
        Some(handle) => if images.contains_key(handle.id) {
            Ok(bind_group_of(images[handle.id]))
        } else {
            Err(AsBindGroupError::RetryNextUpdate)
        },
    }
}

/// Whether `result` is what preparation yields for `material` and `images`.
pub open spec fn is_preparation(
    result: Result<PreparedBindGroup, AsBindGroupError>,
    material: CubemapMaterial,
    images: Map<u64, GpuImage>,
) -> bool {
    match result {
        Ok(prepared) => preparation(material, images) == Ok::<
            PreparedBindGroupView,
            AsBindGroupError,
        >(prepared@),
        Err(error) => preparation(material, images) == Err::<
            PreparedBindGroupView,
            AsBindGroupError,
        >(error),
    }
}

impl CubemapMaterial {
    /// Prepares the bind group of this material from the images that the
    /// device cache holds, keyed by image identifier. Nothing is kept between
    /// calls: every call derives the bindings anew.
    pub fn as_bind_group(&self, images: &HashMap<u64, GpuImage>) -> (result: Result<
        PreparedBindGroup,
        AsBindGroupError,
    >)
        ensures
            is_preparation(result, *self, images@),
    {
        let handle = match self.base_color_texture {
            Some(handle) => handle,
            None => {
                return Err(AsBindGroupError::RetryNextUpdate);
            },
        };
        let image = match images.get(&handle.id) {
            Some(image) => *image,
            None => {
                return Err(AsBindGroupError::RetryNextUpdate);
            },
        };
        let mut entries: Vec<BindGroupEntry> = Vec::new();
        entries.push(
            BindGroupEntry { binding: 0, resource: BindingResource::TextureView(image.texture_view) },
        );
        entries.push(
            BindGroupEntry { binding: 1, resource: BindingResource::Sampler(image.sampler) },
        );
        let mut bindings: Vec<BindingResource> = Vec::new();
        bindings.push(BindingResource::TextureView(image.texture_view));
        bindings.push(BindingResource::Sampler(image.sampler));
        let prepared = PreparedBindGroup {
            bind_group: BindGroupDescriptor { label: Some(BIND_GROUP_LABEL), entries },
            bindings,
            data: CubemapMaterial { base_color_texture: None },
        };
        assert(prepared@.entries =~= bind_group_of(image).entries);
        assert(prepared@.bindings =~= bind_group_of(image).bindings);
        Ok(prepared)
    }

    /// The layout of the bindings that `as_bind_group` prepares.
    pub fn bind_group_layout() -> (layout: BindGroupLayoutDescriptor)
        ensures
            layout.label is None,
            layout.entries@ == layout_entries(),
    {
        let visibility = ShaderStages { vertex: false, fragment: true, compute: false };
        let mut entries: Vec<BindGroupLayoutEntry> = Vec::new();
        entries.push(
            BindGroupLayoutEntry {
                binding: 0,
                visibility,
                ty: BindingType::Texture {
                    sample_type: TextureSampleType::Float { filterable: true },
                    view_dimension: TextureViewDimension::Cube,
                    multisampled: false,
                },
                count: None,
            },
        );
        entries.push(
            BindGroupLayoutEntry {
                binding: 1,
                visibility,
                ty: BindingType::Sampler(SamplerBindingType::Filtering),
                count: None,
            },
        );
        assert(entries@ =~= layout_entries());
        BindGroupLayoutDescriptor { label: None, entries }
    }
}

/// Preparing twice from the same material and the same device cache gives the
/// same binding contents: a second call adds nothing to the first.
pub proof fn lemma_preparation_repeats(
    material: CubemapMaterial,
    images: Map<u64, GpuImage>,
    first: Result<PreparedBindGroup, AsBindGroupError>,
    second: Result<PreparedBindGroup, AsBindGroupError>,
)
    requires
        is_preparation(first, material, images),
        is_preparation(second, material, images),
    ensures
        first is Ok == second is Ok,
        first is Ok ==> first->Ok_0@ == second->Ok_0@,
        first is Err ==> first->Err_0 == second->Err_0,
{
}

/// While the material's texture is unset, preparation is deferred, whatever
/// the device cache holds.
pub proof fn lemma_unset_texture_defers(
    images: Map<u64, GpuImage>,
    result: Result<PreparedBindGroup, AsBindGroupError>,
)
    requires
        is_preparation(result, CubemapMaterial { base_color_texture: None }, images),
    ensures
        result == Err::<PreparedBindGroup, AsBindGroupError>(AsBindGroupError::RetryNextUpdate),
{
}

} // verus!
