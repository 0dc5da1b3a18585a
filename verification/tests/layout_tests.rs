use wgputoy::layout::{
    compute_bind_group_layout_entries, create_compute_bind_group, pass_format, BindGroupEntry,
    BindGroupLayoutEntry, BindingKind, BindingResource, BufferId, FilterMode, TextureFormat,
    TextureId, ViewDimension, BIND_GROUP_ENTRIES,
};

const SLOTS: [u32; 14] = [0, 1, 2, 3, 4, 5, 6, 7, 8, 10, 11, 20, 21, 22];

#[test]
fn layout_has_fourteen_entries_in_both_modes() {
    assert_eq!(BIND_GROUP_ENTRIES, 14);
    assert_eq!(compute_bind_group_layout_entries(false).len(), 14);
    assert_eq!(compute_bind_group_layout_entries(true).len(), 14);
    assert_eq!(create_compute_bind_group().len(), 14);
}

#[test]
fn layout_uses_fixed_binding_numbers() {
    for pass_f32 in [false, true] {
        let entries = compute_bind_group_layout_entries(pass_f32);
        let bindings: Vec<u32> = entries.iter().map(|entry| entry.binding).collect();
        assert_eq!(bindings, SLOTS.to_vec());
    }
    let bindings: Vec<u32> = create_compute_bind_group().iter().map(|entry| entry.binding).collect();
    assert_eq!(bindings, SLOTS.to_vec());
}

#[test]
fn layout_at_half_precision_is_exact() {
    let expected = [
        BindGroupLayoutEntry { binding: 0, kind: BindingKind::UniformBuffer },
        BindGroupLayoutEntry { binding: 1, kind: BindingKind::UniformBuffer },
        BindGroupLayoutEntry { binding: 2, kind: BindingKind::UniformBuffer },
        BindGroupLayoutEntry { binding: 3, kind: BindingKind::UniformBuffer },
        BindGroupLayoutEntry {
            binding: 4,
            kind: BindingKind::StorageTexture { format: TextureFormat::Rgba16Float, dimension: ViewDimension::D2 },
        },
        BindGroupLayoutEntry { binding: 5, kind: BindingKind::StorageBuffer { read_only: false } },
        BindGroupLayoutEntry {
            binding: 6,
            kind: BindingKind::SampledTexture { filterable: true, dimension: ViewDimension::D2Array },
        },
        BindGroupLayoutEntry {
            binding: 7,
            kind: BindingKind::StorageTexture { format: TextureFormat::Rgba16Float, dimension: ViewDimension::D2Array },
        },
        BindGroupLayoutEntry { binding: 8, kind: BindingKind::StorageBuffer { read_only: false } },
        BindGroupLayoutEntry {
            binding: 10,
            kind: BindingKind::SampledTexture { filterable: true, dimension: ViewDimension::D2 },
        },
        BindGroupLayoutEntry {
            binding: 11,
            kind: BindingKind::SampledTexture { filterable: true, dimension: ViewDimension::D2 },
        },
        BindGroupLayoutEntry { binding: 20, kind: BindingKind::Sampler { filtering: false } },
        BindGroupLayoutEntry { binding: 21, kind: BindingKind::Sampler { filtering: true } },
        BindGroupLayoutEntry { binding: 22, kind: BindingKind::Sampler { filtering: true } },
    ];
    assert_eq!(compute_bind_group_layout_entries(false), expected);
}

#[test]
fn full_precision_changes_pass_textures_only() {
    let half = compute_bind_group_layout_entries(false);
    let full = compute_bind_group_layout_entries(true);
    for i in 0..14 {
        if i == 6 {
            assert_eq!(
                full[i].kind,
                BindingKind::SampledTexture { filterable: false, dimension: ViewDimension::D2Array }
            );
        } else if i == 7 {
            assert_eq!(
                full[i].kind,
                BindingKind::StorageTexture { format: TextureFormat::Rgba32Float, dimension: ViewDimension::D2Array }
            );
        } else {
            assert_eq!(full[i], half[i]);
        }
    }
}

#[test]
fn pass_format_follows_precision() {
    assert_eq!(pass_format(false), TextureFormat::Rgba16Float);
    assert_eq!(pass_format(true), TextureFormat::Rgba32Float);
}

#[test]
fn bind_group_is_exact() {
    let view = |texture, dimension| BindingResource::TextureView { texture, dimension };
    let sampler = |filter, mipmap_filter| BindingResource::Sampler {
        mag_filter: filter,
        min_filter: filter,
        mipmap_filter,
    };
    let expected = [
        BindGroupEntry { binding: 0, resource: BindingResource::Buffer(BufferId::Custom) },
        BindGroupEntry { binding: 1, resource: BindingResource::Buffer(BufferId::Time) },
        BindGroupEntry { binding: 2, resource: BindingResource::Buffer(BufferId::Mouse) },
        BindGroupEntry { binding: 3, resource: BindingResource::Buffer(BufferId::Keys) },
        BindGroupEntry { binding: 4, resource: view(TextureId::Screen, None) },
        BindGroupEntry { binding: 5, resource: BindingResource::Buffer(BufferId::Storage) },
        BindGroupEntry { binding: 6, resource: view(TextureId::PassRead, Some(ViewDimension::D2Array)) },
        BindGroupEntry { binding: 7, resource: view(TextureId::PassWrite, Some(ViewDimension::D2Array)) },
        BindGroupEntry { binding: 8, resource: BindingResource::Buffer(BufferId::Debug) },
        BindGroupEntry { binding: 10, resource: view(TextureId::Channel0, None) },
        BindGroupEntry { binding: 11, resource: view(TextureId::Channel1, None) },
        BindGroupEntry { binding: 20, resource: sampler(FilterMode::Nearest, FilterMode::Nearest) },
        BindGroupEntry { binding: 21, resource: sampler(FilterMode::Linear, FilterMode::Nearest) },
        BindGroupEntry { binding: 22, resource: sampler(FilterMode::Linear, FilterMode::Linear) },
    ];
    assert_eq!(create_compute_bind_group(), expected);
}

#[test]
fn prelude_declares_a_variable_at_each_slot() {
    for pass_f32 in [false, true] {
        let prelude = wgputoy::shader::prelude(&Vec::new(), pass_f32);
        let entries = compute_bind_group_layout_entries(pass_f32);
        for entry in entries.iter() {
            let declaration = format!("@group(0) @binding({}) var", entry.binding);
            assert_eq!(prelude.matches(&declaration).count(), 1);
        }
        assert_eq!(prelude.matches("@binding(").count(), entries.len());
    }
}
