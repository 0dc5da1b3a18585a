use wgputoy::layout::TextureFormat;
use wgputoy::resources::{
    can_address_viewport, create_texture_from_image, create_uniforms, pixel_count, BufferDescriptor,
    BufferUsages, ImageDataLayout, TextureDescriptor, TextureUsages,
};

fn uniform(size: u64) -> BufferDescriptor {
    BufferDescriptor {
        size,
        usage: BufferUsages { map_read: false, copy_src: false, copy_dst: true, uniform: true, storage: false },
    }
}

#[test]
fn uniforms_have_fixed_block_sizes() {
    let uniforms = create_uniforms(1920, 1080, false);
    assert_eq!(uniforms.time, uniform(8));
    assert_eq!(uniforms.mouse, uniform(12));
    assert_eq!(uniforms.keys, uniform(32));
    assert_eq!(uniforms.custom, uniform(64));
    assert_eq!(
        uniforms.debug_buffer,
        BufferDescriptor {
            size: 40,
            usage: BufferUsages { map_read: false, copy_src: true, copy_dst: true, uniform: false, storage: true },
        }
    );
}

#[test]
fn uniforms_follow_viewport() {
    let uniforms = create_uniforms(1920, 1080, false);
    assert_eq!(
        uniforms.storage_buffer,
        BufferDescriptor {
            size: 33_177_600,
            usage: BufferUsages { map_read: false, copy_src: false, copy_dst: false, uniform: false, storage: true },
        }
    );
    assert_eq!(
        uniforms.tex_read,
        TextureDescriptor {
            width: 1920,
            height: 1080,
            depth_or_array_layers: 4,
            mip_level_count: 1,
            format: TextureFormat::Rgba16Float,
            usage: TextureUsages { copy_src: false, copy_dst: true, texture_binding: true, storage_binding: false },
        }
    );
    assert_eq!(
        uniforms.tex_write,
        TextureDescriptor {
            width: 1920,
            height: 1080,
            depth_or_array_layers: 4,
            mip_level_count: 1,
            format: TextureFormat::Rgba16Float,
            usage: TextureUsages { copy_src: true, copy_dst: false, texture_binding: false, storage_binding: true },
        }
    );
    assert_eq!(
        uniforms.tex_screen,
        TextureDescriptor {
            width: 1920,
            height: 1080,
            depth_or_array_layers: 1,
            mip_level_count: 1,
            format: TextureFormat::Rgba16Float,
            usage: TextureUsages { copy_src: false, copy_dst: false, texture_binding: true, storage_binding: true },
        }
    );
}

#[test]
fn uniforms_at_full_precision_use_wide_pass_textures() {
    let uniforms = create_uniforms(16, 9, true);
    assert_eq!(uniforms.tex_read.format, TextureFormat::Rgba32Float);
    assert_eq!(uniforms.tex_write.format, TextureFormat::Rgba32Float);
    assert_eq!(uniforms.tex_screen.format, TextureFormat::Rgba16Float);
    assert_eq!(uniforms.storage_buffer.size, 16 * 16 * 9);
}

#[test]
fn uniforms_of_empty_viewport() {
    let uniforms = create_uniforms(0, 1080, false);
    assert_eq!(uniforms.storage_buffer.size, 0);
    assert_eq!((uniforms.tex_screen.width, uniforms.tex_screen.height), (0, 1080));
}

#[test]
fn viewport_must_be_addressable() {
    assert!(can_address_viewport(1920, 1080));
    assert!(can_address_viewport(0, u32::MAX));
    assert!(can_address_viewport(u32::MAX, 0x1000_0000));
    assert!(can_address_viewport(0x4000_0000, 0x3fff_ffff));
    assert!(!can_address_viewport(0x4000_0000, 0x4000_0000));
    assert!(!can_address_viewport(u32::MAX, u32::MAX));
}

#[test]
fn pixel_count_is_product() {
    assert_eq!(pixel_count(1920, 1080), 2_073_600);
    assert_eq!(pixel_count(u32::MAX, u32::MAX), 18_446_744_065_119_617_025);
    assert_eq!(pixel_count(0, 7), 0);
}

#[test]
fn texture_from_image_packs_rows() {
    let upload = create_texture_from_image(640, 480, TextureFormat::Rgba8UnormSrgb);
    assert_eq!(
        upload.texture,
        TextureDescriptor {
            width: 640,
            height: 480,
            depth_or_array_layers: 1,
            mip_level_count: 1,
            format: TextureFormat::Rgba8UnormSrgb,
            usage: TextureUsages { copy_src: false, copy_dst: true, texture_binding: true, storage_binding: false },
        }
    );
    assert_eq!(upload.layout, ImageDataLayout { offset: 0, bytes_per_row: Some(2560), rows_per_image: Some(480) });
}

#[test]
fn texture_from_empty_image_has_no_stride() {
    let upload = create_texture_from_image(0, 0, TextureFormat::Rgba8Unorm);
    assert_eq!(upload.layout, ImageDataLayout { offset: 0, bytes_per_row: None, rows_per_image: None });
    let upload = create_texture_from_image(0x3fff_ffff, 1, TextureFormat::Rgba8Unorm);
    assert_eq!(upload.layout.bytes_per_row, Some(0xffff_fffc));
}
