//! The bind group shared by every compute pass: its layout and the
//! resources bound at each slot.
//!
//! The binding numbers are part of the contract with shader authors: the
//! generated prelude declares a variable at each of them.

use vstd::prelude::*;

verus! {

/// Number of entries in the compute bind group.
pub const BIND_GROUP_ENTRIES: usize = 14;

pub const BINDING_CUSTOM: u32 = 0;

pub const BINDING_TIME: u32 = 1;

pub const BINDING_MOUSE: u32 = 2;

pub const BINDING_KEYS: u32 = 3;

pub const BINDING_SCREEN: u32 = 4;

pub const BINDING_ATOMIC_STORAGE: u32 = 5;

pub const BINDING_PASS_IN: u32 = 6;

pub const BINDING_PASS_OUT: u32 = 7;

pub const BINDING_ASSERT_COUNTS: u32 = 8;

pub const BINDING_CHANNEL0: u32 = 10;

pub const BINDING_CHANNEL1: u32 = 11;

pub const BINDING_NEAREST: u32 = 20;

pub const BINDING_BILINEAR: u32 = 21;

pub const BINDING_TRILINEAR: u32 = 22;

/// Texel formats used by the renderer's textures.
#[derive(Clone, Copy, Debug, PartialEq, Eq, Structural)]
pub enum TextureFormat {
    Rgba8Unorm,
    Rgba8UnormSrgb,
    Rgba16Float,
    Rgba32Float,
}

/// How a texture is seen through a view.
#[derive(Clone, Copy, Debug, PartialEq, Eq, Structural)]
pub enum ViewDimension {
    D2,
    D2Array,
}

/// Texel filtering of a sampler.
#[derive(Clone, Copy, Debug, PartialEq, Eq, Structural)]
pub enum FilterMode {
    Nearest,
    Linear,
}

/// What a layout slot accepts. Every slot is visible to the compute stage
/// only; buffers have no dynamic offset and no minimum size, storage
/// textures are write-only, sampled textures are single-sampled floats.
#[derive(Clone, Copy, Debug, PartialEq, Eq, Structural)]
pub enum BindingKind {
    UniformBuffer,
    StorageBuffer { read_only: bool },
    StorageTexture { format: TextureFormat, dimension: ViewDimension },
    SampledTexture { filterable: bool, dimension: ViewDimension },
    Sampler { filtering: bool },
}

/// One slot of the bind group layout.
#[derive(Clone, Copy, Debug, PartialEq, Eq, Structural)]
pub struct BindGroupLayoutEntry {
    pub binding: u32,
    pub kind: BindingKind,
}

/// The buffers of the uniform set.
#[derive(Clone, Copy, Debug, PartialEq, Eq, Structural)]
pub enum BufferId {
    Custom,
    Time,
    Mouse,
    Keys,
    Storage,
    Debug,
}

/// The textures a pass can see.
#[derive(Clone, Copy, Debug, PartialEq, Eq, Structural)]
pub enum TextureId {
    Screen,
    PassRead,
    PassWrite,
    Channel0,
    Channel1,
}

/// The resource bound at a slot. A buffer is bound whole; a texture view
/// with no dimension takes the dimension of its texture.
#[derive(Clone, Copy, Debug, PartialEq, Eq, Structural)]
pub enum BindingResource {
    Buffer(BufferId),
    TextureView { texture: TextureId, dimension: Option<ViewDimension> },
    Sampler { mag_filter: FilterMode, min_filter: FilterMode, mipmap_filter: FilterMode },
}

/// One entry of the bind group.
#[derive(Clone, Copy, Debug, PartialEq, Eq, Structural)]
pub struct BindGroupEntry {
    pub binding: u32,
    pub resource: BindingResource,
}

/// Format of the intermediate pass textures for a precision mode.
pub open spec fn pass_format_spec(pass_f32: bool) -> TextureFormat {
    if pass_f32 {
        TextureFormat::Rgba32Float
    } else {
        TextureFormat::Rgba16Float
    }
}

/// The binding numbers, in the order of the entries.
pub open spec fn binding_slots() -> Seq<u32> {
    seq![0u32, 1u32, 2u32, 3u32, 4u32, 5u32, 6u32, 7u32, 8u32, 10u32, 11u32, 20u32, 21u32, 22u32]
}

/// What the layout accepts at a binding number.
pub open spec fn binding_kind(binding: u32, pass_f32: bool) -> BindingKind {
    if binding <= BINDING_KEYS {
        BindingKind::UniformBuffer
    } else if binding == BINDING_SCREEN {
        BindingKind::StorageTexture {
            format: TextureFormat::Rgba16Float,
            dimension: ViewDimension::D2,
        }
    } else if binding == BINDING_ATOMIC_STORAGE || binding == BINDING_ASSERT_COUNTS {
        BindingKind::StorageBuffer { read_only: false }
    } else if binding == BINDING_PASS_IN {
        BindingKind::SampledTexture { filterable: !pass_f32, dimension: ViewDimension::D2Array }
    } else if binding == BINDING_PASS_OUT {
        BindingKind::StorageTexture {
            format: pass_format_spec(pass_f32),
            dimension: ViewDimension::D2Array,
        }
    } else if binding == BINDING_CHANNEL0 || binding == BINDING_CHANNEL1 {
        BindingKind::SampledTexture { filterable: true, dimension: ViewDimension::D2 }
    } else {
        BindingKind::Sampler { filtering: binding != BINDING_NEAREST }
    }
}

/// The resource bound at a binding number.
pub open spec fn binding_resource(binding: u32) -> BindingResource {
    if binding == BINDING_CUSTOM {
        BindingResource::Buffer(BufferId::Custom)
    } else if binding == BINDING_TIME {
        BindingResource::Buffer(BufferId::Time)
    } else if binding == BINDING_MOUSE {
        BindingResource::Buffer(BufferId::Mouse)
    } else if binding == BINDING_KEYS {
        BindingResource::Buffer(BufferId::Keys)
    } else if binding == BINDING_SCREEN {
        BindingResource::TextureView { texture: TextureId::Screen, dimension: None }
    } else if binding == BINDING_ATOMIC_STORAGE {
        BindingResource::Buffer(BufferId::Storage)
    } else if binding == BINDING_PASS_IN {
        BindingResource::TextureView {
            texture: TextureId::PassRead,
            dimension: Some(ViewDimension::D2Array),
        }
    } else if binding == BINDING_PASS_OUT {
        BindingResource::TextureView {
            texture: TextureId::PassWrite,
            dimension: Some(ViewDimension::D2Array),
        }
    } else if binding == BINDING_ASSERT_COUNTS {
        BindingResource::Buffer(BufferId::Debug)
    } else if binding == BINDING_CHANNEL0 {
        BindingResource::TextureView { texture: TextureId::Channel0, dimension: None }
    } else if binding == BINDING_CHANNEL1 {
        BindingResource::TextureView { texture: TextureId::Channel1, dimension: None }
    } else {
        BindingResource::Sampler {
            mag_filter: if binding == BINDING_NEAREST {
                FilterMode::Nearest
            } else {
                FilterMode::Linear
            },
            min_filter: if binding == BINDING_NEAREST {
                FilterMode::Nearest
            } else {
                FilterMode::Linear
            },
            mipmap_filter: if binding == BINDING_TRILINEAR {
                FilterMode::Linear
            } else {
                FilterMode::Nearest
            },
        }
    }
}

/// The layout of the compute bind group for a precision mode.
pub open spec fn layout_entries_spec(pass_f32: bool) -> Seq<BindGroupLayoutEntry> {
    Seq::new(
        14,
        |i: int|
            BindGroupLayoutEntry {
                binding: binding_slots()[i],
                kind: binding_kind(binding_slots()[i], pass_f32),
            },
    )
}

/// The entries of the compute bind group.
pub open spec fn bind_group_spec() -> Seq<BindGroupEntry> {
    Seq::new(
        14,
        |i: int|
            BindGroupEntry {
                binding: binding_slots()[i],
                resource: binding_resource(binding_slots()[i]),
            },
    )
}

/// Whether a resource may be bound at a slot of the given kind.
pub open spec fn resource_fits(kind: BindingKind, resource: BindingResource) -> bool {
    match kind {
        BindingKind::UniformBuffer => resource matches BindingResource::Buffer(id) && (id
            == BufferId::Custom || id == BufferId::Time || id == BufferId::Mouse || id
            == BufferId::Keys),
        BindingKind::StorageBuffer { .. } => resource matches BindingResource::Buffer(id) && (id
            == BufferId::Storage || id == BufferId::Debug),
        BindingKind::StorageTexture { dimension, .. } => resource matches BindingResource::TextureView {
            texture,
            dimension: view,
        } && (texture == TextureId::Screen || texture == TextureId::PassWrite) && (view == Some(
            ViewDimension::D2Array,
        ) <==> dimension == ViewDimension::D2Array),
        BindingKind::SampledTexture { dimension, .. } => resource matches BindingResource::TextureView {
            texture,
            dimension: view,
        } && texture != TextureId::Screen && texture != TextureId::PassWrite && (view == Some(
            ViewDimension::D2Array,
        ) <==> dimension == ViewDimension::D2Array),
        BindingKind::Sampler { filtering } => resource matches BindingResource::Sampler {
            mag_filter,
            min_filter,
            ..
        } && (filtering <==> mag_filter == FilterMode::Linear) && (filtering <==> min_filter
            == FilterMode::Linear),
    }
}

pub fn pass_format(pass_f32: bool) -> (format: TextureFormat)
    ensures
        format == pass_format_spec(pass_f32),
{
    if pass_f32 {
        TextureFormat::Rgba32Float
    } else {
        TextureFormat::Rgba16Float
    }
}

fn uniform_slot(binding: u32) -> (entry: BindGroupLayoutEntry)
    requires
        binding <= BINDING_KEYS,
    ensures
        forall|pass_f32: bool|
            entry == (BindGroupLayoutEntry {
                binding,
                kind: #[trigger] binding_kind(binding, pass_f32),
            }),
{
    BindGroupLayoutEntry { binding, kind: BindingKind::UniformBuffer }
}

fn storage_slot(binding: u32) -> (entry: BindGroupLayoutEntry)
    requires
        binding == BINDING_ATOMIC_STORAGE || binding == BINDING_ASSERT_COUNTS,
    ensures
        forall|pass_f32: bool|
            entry == (BindGroupLayoutEntry {
                binding,
                kind: #[trigger] binding_kind(binding, pass_f32),
            }),
{
    BindGroupLayoutEntry { binding, kind: BindingKind::StorageBuffer { read_only: false } }
}

fn channel_slot(binding: u32) -> (entry: BindGroupLayoutEntry)
    requires
        binding == BINDING_CHANNEL0 || binding == BINDING_CHANNEL1,
    ensures
        forall|pass_f32: bool|
            entry == (BindGroupLayoutEntry {
                binding,
                kind: #[trigger] binding_kind(binding, pass_f32),
            }),
{
    BindGroupLayoutEntry {
        binding,
        kind: BindingKind::SampledTexture { filterable: true, dimension: ViewDimension::D2 },
    }
}

fn sampler_slot(binding: u32) -> (entry: BindGroupLayoutEntry)
    requires
        BINDING_NEAREST <= binding <= BINDING_TRILINEAR,
    ensures
        forall|pass_f32: bool|
            entry == (BindGroupLayoutEntry {
                binding,
                kind: #[trigger] binding_kind(binding, pass_f32),
            }),
{
    BindGroupLayoutEntry {
        binding,
        kind: BindingKind::Sampler { filtering: binding != BINDING_NEAREST },
    }
}

/// The layout of the compute bind group: fourteen slots whatever the
/// precision mode. Only the two pass textures depend on it: full precision
/// makes the read texture unfilterable and the write texture 32-bit.
pub fn compute_bind_group_layout_entries(pass_f32: bool) -> (entries: [BindGroupLayoutEntry; 14])
    ensures
        entries@ == layout_entries_spec(pass_f32),
{
    let entries = [
        uniform_slot(BINDING_CUSTOM),
        uniform_slot(BINDING_TIME),
        uniform_slot(BINDING_MOUSE),
        uniform_slot(BINDING_KEYS),
        BindGroupLayoutEntry {
            binding: BINDING_SCREEN,
            kind: BindingKind::StorageTexture {
                format: TextureFormat::Rgba16Float,
                dimension: ViewDimension::D2,
            },
        },
        storage_slot(BINDING_ATOMIC_STORAGE),
        BindGroupLayoutEntry {
            binding: BINDING_PASS_IN,
            kind: BindingKind::SampledTexture {
                filterable: !pass_f32,
                dimension: ViewDimension::D2Array,
            },
        },
        BindGroupLayoutEntry {
            binding: BINDING_PASS_OUT,
            kind: BindingKind::StorageTexture {
                format: pass_format(pass_f32),
                dimension: ViewDimension::D2Array,
            },
        },
        storage_slot(BINDING_ASSERT_COUNTS),
        channel_slot(BINDING_CHANNEL0),
        channel_slot(BINDING_CHANNEL1),
        sampler_slot(BINDING_NEAREST),
        sampler_slot(BINDING_BILINEAR),
        sampler_slot(BINDING_TRILINEAR),
    ];
    assert(entries@ =~= layout_entries_spec(pass_f32));
    entries
}

fn buffer_entry(binding: u32, buffer: BufferId) -> (entry: BindGroupEntry)
    requires
        binding_resource(binding) == BindingResource::Buffer(buffer),
    ensures
        entry == (BindGroupEntry { binding, resource: binding_resource(binding) }),
{
    BindGroupEntry { binding, resource: BindingResource::Buffer(buffer) }
}

fn texture_entry(binding: u32, texture: TextureId, dimension: Option<ViewDimension>) -> (entry:
    BindGroupEntry)
    requires
        binding_resource(binding) == (BindingResource::TextureView { texture, dimension }),
    ensures
        entry == (BindGroupEntry { binding, resource: binding_resource(binding) }),
{
    BindGroupEntry { binding, resource: BindingResource::TextureView { texture, dimension } }
}

fn sampler_entry(binding: u32, filter: FilterMode, mipmap_filter: FilterMode) -> (entry:
    BindGroupEntry)
    requires
        binding_resource(binding) == (BindingResource::Sampler {
            mag_filter: filter,
            min_filter: filter,
            mipmap_filter,
        }),
    ensures
        entry == (BindGroupEntry { binding, resource: binding_resource(binding) }),
{
    BindGroupEntry {
        binding,
        resource: BindingResource::Sampler { mag_filter: filter, min_filter: filter, mipmap_filter },
    }
}

/// The entries of the compute bind group: which resource stands at each of
/// the fourteen slots. It names resources, not their contents, so it stays
/// the same across shader reloads; the host builds the group anew whenever
/// one of the named resources is replaced.
pub fn create_compute_bind_group() -> (entries: [BindGroupEntry; 14])
    ensures
        entries@ == bind_group_spec(),
{
    let entries = [
        buffer_entry(BINDING_CUSTOM, BufferId::Custom),
        buffer_entry(BINDING_TIME, BufferId::Time),
        buffer_entry(BINDING_MOUSE, BufferId::Mouse),
        buffer_entry(BINDING_KEYS, BufferId::Keys),
        texture_entry(BINDING_SCREEN, TextureId::Screen, None),
        buffer_entry(BINDING_ATOMIC_STORAGE, BufferId::Storage),
        texture_entry(BINDING_PASS_IN, TextureId::PassRead, Some(ViewDimension::D2Array)),
        texture_entry(BINDING_PASS_OUT, TextureId::PassWrite, Some(ViewDimension::D2Array)),
        buffer_entry(BINDING_ASSERT_COUNTS, BufferId::Debug),
        texture_entry(BINDING_CHANNEL0, TextureId::Channel0, None),
        texture_entry(BINDING_CHANNEL1, TextureId::Channel1, None),
        sampler_entry(BINDING_NEAREST, FilterMode::Nearest, FilterMode::Nearest),
        sampler_entry(BINDING_BILINEAR, FilterMode::Linear, FilterMode::Nearest),
        sampler_entry(BINDING_TRILINEAR, FilterMode::Linear, FilterMode::Linear),
    ];
    assert(entries@ =~= bind_group_spec());
    entries
}

/// The bind group has fourteen entries, whatever the precision mode, and
/// so has its layout.
pub proof fn lemma_entry_count(pass_f32: bool)
    ensures
        layout_entries_spec(pass_f32).len() == BIND_GROUP_ENTRIES,
        bind_group_spec().len() == BIND_GROUP_ENTRIES,
{
}

/// The binding numbers rise from entry to entry, so no two entries share
/// a slot.
pub proof fn lemma_bindings_increase(pass_f32: bool, i: int, j: int)
    requires
        0 <= i < j < 14,
    ensures
        layout_entries_spec(pass_f32)[i].binding < layout_entries_spec(pass_f32)[j].binding,
        bind_group_spec()[i].binding < bind_group_spec()[j].binding,
{
}

/// Entry by entry the bind group matches its layout: the same binding
/// number, and a resource of the kind that the slot accepts.
pub proof fn lemma_bind_group_fits_layout(pass_f32: bool, i: int)
    requires
        0 <= i < 14,
    ensures
        bind_group_spec()[i].binding == layout_entries_spec(pass_f32)[i].binding,
        resource_fits(layout_entries_spec(pass_f32)[i].kind, bind_group_spec()[i].resource),
{
}

/// The precision mode changes the two pass textures and nothing else.
pub proof fn lemma_precision_touches_pass_textures(i: int)
    requires
        0 <= i < 14,
        binding_slots()[i] != BINDING_PASS_IN,
        binding_slots()[i] != BINDING_PASS_OUT,
    ensures
        layout_entries_spec(true)[i] == layout_entries_spec(false)[i],
{
}

} // verus!
