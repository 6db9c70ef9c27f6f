use skybox::image::{ImageHandle, TextureViewDimension};
use skybox::material::{
    AsBindGroupError, BindGroupEntry, BindGroupLayoutEntry, BindingResource, BindingType,
    CubemapMaterial, GpuImage, SamplerBindingType, ShaderStages, TextureSampleType,
    BIND_GROUP_LABEL,
};
use std::collections::HashMap;

#[test]
fn unset_texture_defers() {
    let material = CubemapMaterial { base_color_texture: None };
    let empty: HashMap<u64, GpuImage> = HashMap::new();
    assert_eq!(material.as_bind_group(&empty), Err(AsBindGroupError::RetryNextUpdate));
    let mut images: HashMap<u64, GpuImage> = HashMap::new();
    images.insert(1, GpuImage { texture_view: 10, sampler: 20 });
    assert_eq!(material.as_bind_group(&images), Err(AsBindGroupError::RetryNextUpdate));
}

#[test]
fn texture_that_is_not_uploaded_defers() {
    let material = CubemapMaterial { base_color_texture: Some(ImageHandle { id: 2 }) };
    let mut images: HashMap<u64, GpuImage> = HashMap::new();
    assert_eq!(material.as_bind_group(&images), Err(AsBindGroupError::RetryNextUpdate));
    images.insert(1, GpuImage { texture_view: 10, sampler: 20 });
    assert_eq!(material.as_bind_group(&images), Err(AsBindGroupError::RetryNextUpdate));
}

#[test]
fn resolved_texture_gives_view_and_sampler() {
    let material = CubemapMaterial { base_color_texture: Some(ImageHandle { id: 2 }) };
    let mut images: HashMap<u64, GpuImage> = HashMap::new();
    images.insert(1, GpuImage { texture_view: 10, sampler: 20 });
    images.insert(2, GpuImage { texture_view: 11, sampler: 21 });
    let prepared = material.as_bind_group(&images).unwrap();
    assert_eq!(prepared.bind_group.label, Some("cubemap_texture_material_bind_group"));
    assert_eq!(prepared.bind_group.label, Some(BIND_GROUP_LABEL));
    assert_eq!(
        prepared.bind_group.entries,
        vec![
            BindGroupEntry { binding: 0, resource: BindingResource::TextureView(11) },
            BindGroupEntry { binding: 1, resource: BindingResource::Sampler(21) },
        ]
    );
    assert_eq!(
        prepared.bindings,
        vec![BindingResource::TextureView(11), BindingResource::Sampler(21)]
    );
    assert_eq!(prepared.data, CubemapMaterial { base_color_texture: None });
}

#[test]
fn preparing_twice_gives_the_same_bindings() {
    let material = CubemapMaterial { base_color_texture: Some(ImageHandle { id: 5 }) };
    let mut images: HashMap<u64, GpuImage> = HashMap::new();
    images.insert(5, GpuImage { texture_view: 7, sampler: 8 });
    let first = material.as_bind_group(&images);
    let second = material.as_bind_group(&images);
    assert!(first.is_ok());
    assert_eq!(first, second);
    assert_eq!(images.len(), 1);
}

#[test]
fn preparation_follows_the_cache() {
    let material = CubemapMaterial { base_color_texture: Some(ImageHandle { id: 5 }) };
    let mut images: HashMap<u64, GpuImage> = HashMap::new();
    assert_eq!(material.as_bind_group(&images), Err(AsBindGroupError::RetryNextUpdate));
    images.insert(5, GpuImage { texture_view: 7, sampler: 8 });
    let first = material.as_bind_group(&images).unwrap();
    assert_eq!(first.bindings[0], BindingResource::TextureView(7));
    images.insert(5, GpuImage { texture_view: 9, sampler: 8 });
    let second = material.as_bind_group(&images).unwrap();
    assert_eq!(second.bindings[0], BindingResource::TextureView(9));
    images.remove(&5);
    assert_eq!(material.as_bind_group(&images), Err(AsBindGroupError::RetryNextUpdate));
}

#[test]
fn layout_is_cube_texture_and_filtering_sampler() {
    let layout = CubemapMaterial::bind_group_layout();
    let fragment = ShaderStages { vertex: false, fragment: true, compute: false };
    assert_eq!(layout.label, None);
    assert_eq!(
        layout.entries,
        vec![
            BindGroupLayoutEntry {
                binding: 0,
                visibility: fragment,
                ty: BindingType::Texture {
                    sample_type: TextureSampleType::Float { filterable: true },
                    view_dimension: TextureViewDimension::Cube,
                    multisampled: false,
                },
                count: None,
            },
            BindGroupLayoutEntry {
                binding: 1,
                visibility: fragment,
                ty: BindingType::Sampler(SamplerBindingType::Filtering),
                count: None,
            },
        ]
    );
}
