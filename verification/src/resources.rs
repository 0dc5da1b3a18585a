//! Descriptors of the buffers and textures that the renderer asks its host
//! to allocate. All of them are sized by the viewport or fixed; they are
//! allocated together and replaced together.

use crate::layout::{pass_format, pass_format_spec, BufferId, TextureFormat};
use vstd::prelude::*;

verus! {

/// Bytes of the time block: frame counter and elapsed seconds.
pub const TIME_SIZE: u64 = 8;

/// Bytes of the mouse block: position and click flag.
pub const MOUSE_SIZE: u64 = 12;

/// Bytes of the key bitmap: one bit per key code.
pub const KEYS_SIZE: u64 = 32;

/// Most custom parameters a shader can declare.
pub const MAX_CUSTOM_PARAMS: usize = 16;

/// Bytes of the custom parameter block.
pub const CUSTOM_SIZE: u64 = 64;

/// Number of assertion counters.
pub const NUM_ASSERT_COUNTERS: usize = 10;

/// Bytes of the assertion counters.
pub const DEBUG_SIZE: u64 = 40;

/// Bytes of atomic storage per pixel of the viewport.
pub const STORAGE_BYTES_PER_PIXEL: u64 = 16;

/// Layers of the two pass textures.
pub const PASS_LAYERS: u32 = 4;

/// What a buffer may be used for.
#[derive(Clone, Copy, Debug, PartialEq, Eq, Structural)]
pub struct BufferUsages {
    pub map_read: bool,
    pub copy_src: bool,
    pub copy_dst: bool,
    pub uniform: bool,
    pub storage: bool,
}

/// A buffer to allocate, unmapped.
#[derive(Clone, Copy, Debug, PartialEq, Eq, Structural)]
pub struct BufferDescriptor {
    pub size: u64,
    pub usage: BufferUsages,
}

/// What a texture may be used for.
#[derive(Clone, Copy, Debug, PartialEq, Eq, Structural)]
pub struct TextureUsages {
    pub copy_src: bool,
    pub copy_dst: bool,
    pub texture_binding: bool,
    pub storage_binding: bool,
}

/// A two-dimensional, single-sampled texture to allocate.
#[derive(Clone, Copy, Debug, PartialEq, Eq, Structural)]
pub struct TextureDescriptor {
    pub width: u32,
    pub height: u32,
    pub depth_or_array_layers: u32,
    pub mip_level_count: u32,
    pub format: TextureFormat,
    pub usage: TextureUsages,
}

/// The buffers and textures sized by the viewport.
#[derive(Clone, Copy, Debug, PartialEq, Eq, Structural)]
pub struct Uniforms {
    pub time: BufferDescriptor,
    pub mouse: BufferDescriptor,
    pub keys: BufferDescriptor,
    pub custom: BufferDescriptor,
    pub storage_buffer: BufferDescriptor,
    pub debug_buffer: BufferDescriptor,
    pub tex_read: TextureDescriptor,
    pub tex_write: TextureDescriptor,
    pub tex_screen: TextureDescriptor,
}

/// How the rows of an image lie in the bytes written to a texture. A stride
/// of zero is no stride.
#[derive(Clone, Copy, Debug, PartialEq, Eq, Structural)]
pub struct ImageDataLayout {
    pub offset: u64,
    pub bytes_per_row: Option<u32>,
    pub rows_per_image: Option<u32>,
}

/// A texture to allocate and the layout of the pixels written to it.
#[derive(Clone, Copy, Debug, PartialEq, Eq, Structural)]
pub struct TextureUpload {
    pub texture: TextureDescriptor,
    pub layout: ImageDataLayout,
}

/// Bytes of the atomic storage buffer for a viewport.
pub open spec fn storage_size(width: u32, height: u32) -> int {
    16 * (width as int) * (height as int)
}

/// Whether the atomic storage of a viewport can be addressed.
pub open spec fn viewport_fits(width: u32, height: u32) -> bool {
    storage_size(width, height) <= u64::MAX
}

/// A buffer written by the host every frame and read as a uniform.
pub open spec fn uniform_buffer(size: u64) -> BufferDescriptor {
    BufferDescriptor {
        size,
        usage: BufferUsages {
            map_read: false,
            copy_src: false,
            copy_dst: true,
            uniform: true,
            storage: false,
        },
    }
}

/// A texture of the viewport's size.
pub open spec fn viewport_texture(
    width: u32,
    height: u32,
    layers: u32,
    format: TextureFormat,
    usage: TextureUsages,
) -> TextureDescriptor {
    TextureDescriptor {
        width,
        height,
        depth_or_array_layers: layers,
        mip_level_count: 1,
        format,
        usage,
    }
}

/// The uniform set of a viewport.
pub open spec fn uniforms_spec(width: u32, height: u32, pass_f32: bool) -> Uniforms {
    Uniforms {
        time: uniform_buffer(TIME_SIZE),
        mouse: uniform_buffer(MOUSE_SIZE),
        keys: uniform_buffer(KEYS_SIZE),
        custom: uniform_buffer(CUSTOM_SIZE),
        storage_buffer: BufferDescriptor {
            size: storage_size(width, height) as u64,
            usage: BufferUsages {
                map_read: false,
                copy_src: false,
                copy_dst: false,
                uniform: false,
                storage: true,
            },
        },
        debug_buffer: BufferDescriptor {
            size: DEBUG_SIZE,
            usage: BufferUsages {
                map_read: false,
                copy_src: true,
                copy_dst: true,
                uniform: false,
                storage: true,
            },
        },
        tex_read: viewport_texture(
            width,
            height,
            PASS_LAYERS,
            pass_format_spec(pass_f32),
            TextureUsages {
                copy_src: false,
                copy_dst: true,
                texture_binding: true,
                storage_binding: false,
            },
        ),
        tex_write: viewport_texture(
            width,
            height,
            PASS_LAYERS,
            pass_format_spec(pass_f32),
            TextureUsages {
                copy_src: true,
                copy_dst: false,
                texture_binding: false,
                storage_binding: true,
            },
        ),
        tex_screen: viewport_texture(
            width,
            height,
            1,
            TextureFormat::Rgba16Float,
            TextureUsages {
                copy_src: false,
                copy_dst: false,
                texture_binding: true,
                storage_binding: true,
            },
        ),
    }
}

/// The descriptor of one of the buffers of a uniform set.
pub open spec fn buffer_of(uniforms: Uniforms, buffer: BufferId) -> BufferDescriptor {
    match buffer {
        BufferId::Custom => uniforms.custom,
        BufferId::Time => uniforms.time,
        BufferId::Mouse => uniforms.mouse,
        BufferId::Keys => uniforms.keys,
        BufferId::Storage => uniforms.storage_buffer,
        BufferId::Debug => uniforms.debug_buffer,
    }
}

/// A count that is zero stands for none.
pub open spec fn nonzero(n: u32) -> Option<u32> {
    if n == 0 {
        None
    } else {
        Some(n)
    }
}

/// The texture that receives a decoded RGBA image and the layout of its
/// rows: four bytes per pixel, rows packed.
pub open spec fn texture_upload_spec(width: u32, height: u32, format: TextureFormat) -> TextureUpload {
    TextureUpload {
        texture: viewport_texture(
            width,
            height,
            1,
            format,
            TextureUsages {
                copy_src: false,
                copy_dst: true,
                texture_binding: true,
                storage_binding: false,
            },
        ),
        layout: ImageDataLayout {
            offset: 0,
            bytes_per_row: nonzero((4 * width) as u32),
            rows_per_image: nonzero(height),
        },
    }
}

/// Tells whether the atomic storage of a viewport can be addressed.
pub fn can_address_viewport(width: u32, height: u32) -> (fits: bool)
    ensures
        fits == viewport_fits(width, height),
{
    let pixels: u64 = pixel_count(width, height);
    assert(16 * pixels == storage_size(width, height)) by (nonlinear_arith)
        requires
            pixels == width * height,
    ;
    pixels <= u64::MAX / STORAGE_BYTES_PER_PIXEL
}

/// Pixels of a viewport.
pub fn pixel_count(width: u32, height: u32) -> (pixels: u64)
    ensures
        pixels == width * height,
{
    assert(0 <= width * height <= 0xffff_ffff * 0xffff_ffff) by (nonlinear_arith)
        requires
            0 <= width <= 0xffff_ffff,
            0 <= height <= 0xffff_ffff,
    ;
    (width as u64) * (height as u64)
}

fn uniform_buffer_of(size: u64) -> (buffer: BufferDescriptor)
    ensures
        buffer == uniform_buffer(size),
{
    BufferDescriptor {
        size,
        usage: BufferUsages {
            map_read: false,
            copy_src: false,
            copy_dst: true,
            uniform: true,
            storage: false,
        },
    }
}

fn pass_texture(width: u32, height: u32, pass_f32: bool, usage: TextureUsages) -> (texture:
    TextureDescriptor)
    ensures
        texture == viewport_texture(width, height, PASS_LAYERS, pass_format_spec(pass_f32), usage),
{
    TextureDescriptor {
        width,
        height,
        depth_or_array_layers: PASS_LAYERS,
        mip_level_count: 1,
        format: pass_format(pass_f32),
        usage,
    }
}

/// Describes the uniform set of a viewport: the four uniform blocks, the
/// atomic storage (sixteen bytes per pixel), the assertion counters, the
/// two four-layer pass textures in the precision mode's format and the
/// screen texture.
pub fn create_uniforms(width: u32, height: u32, pass_f32: bool) -> (uniforms: Uniforms)
    requires
        viewport_fits(width, height),
    ensures
        uniforms == uniforms_spec(width, height, pass_f32),
        uniforms.storage_buffer.size == 16 * width * height,
        uniforms.tex_read.width == width && uniforms.tex_read.height == height,
        uniforms.tex_write.width == width && uniforms.tex_write.height == height,
        uniforms.tex_screen.width == width && uniforms.tex_screen.height == height,
{
    let pixels: u64 = pixel_count(width, height);
    assert(16 * pixels == storage_size(width, height)) by (nonlinear_arith)
        requires
            pixels == width * height,
    ;
    Uniforms {
        time: uniform_buffer_of(TIME_SIZE),
        mouse: uniform_buffer_of(MOUSE_SIZE),
        keys: uniform_buffer_of(KEYS_SIZE),
        custom: uniform_buffer_of(CUSTOM_SIZE),
        storage_buffer: BufferDescriptor {
            size: STORAGE_BYTES_PER_PIXEL * pixels,
            usage: BufferUsages {
                map_read: false,
                copy_src: false,
                copy_dst: false,
                uniform: false,
                storage: true,
            },
        },
        debug_buffer: BufferDescriptor {
            size: DEBUG_SIZE,
            usage: BufferUsages {
                map_read: false,
                copy_src: true,
                copy_dst: true,
                uniform: false,
                storage: true,
            },
        },
        tex_read: pass_texture(
            width,
            height,
            pass_f32,
            TextureUsages {
                copy_src: false,
                copy_dst: true,
                texture_binding: true,
                storage_binding: false,
            },
        ),
        tex_write: pass_texture(
            width,
            height,
            pass_f32,
            TextureUsages {
                copy_src: true,
                copy_dst: false,
                texture_binding: false,
                storage_binding: true,
            },
        ),
        tex_screen: TextureDescriptor {
            width,
            height,
            depth_or_array_layers: 1,
            mip_level_count: 1,
            format: TextureFormat::Rgba16Float,
            usage: TextureUsages {
                copy_src: false,
                copy_dst: false,
                texture_binding: true,
                storage_binding: true,
            },
        },
    }
}

/// Describes the texture that receives a decoded image of four bytes per
/// pixel, and the layout of the bytes written to it.
pub fn create_texture_from_image(width: u32, height: u32, format: TextureFormat) -> (upload:
    TextureUpload)
    requires
        4 * width <= u32::MAX,
    ensures
        upload == texture_upload_spec(width, height, format),
        upload.layout.bytes_per_row == nonzero((4 * width) as u32),
        upload.layout.rows_per_image == nonzero(height),
{
    let stride: u32 = 4 * width;
    TextureUpload {
        texture: TextureDescriptor {
            width,
            height,
            depth_or_array_layers: 1,
            mip_level_count: 1,
            format,
            usage: TextureUsages {
                copy_src: false,
                copy_dst: true,
                texture_binding: true,
                storage_binding: false,
            },
        },
        layout: ImageDataLayout {
            offset: 0,
            bytes_per_row: if stride == 0 {
                None
            } else {
                Some(stride)
            },
            rows_per_image: if height == 0 {
                None
            } else {
                Some(height)
            },
        },
    }
}

} // verus!
