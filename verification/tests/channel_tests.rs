use wgputoy::channel::{
    channel_from_image, channel_from_radiance, channel_upload, flatten_rgbe, mip_level_count,
    ChannelTexture, ChannelUpload, ColourSpace, DecodeError, DecodedImage, RadianceImage, Rgbe,
};
use wgputoy::layout::{FilterMode, TextureFormat};
use wgputoy::resources::{ImageDataLayout, TextureDescriptor, TextureUsages};

fn decode(bytes: &[u8]) -> Result<DecodedImage, String> {
    let image = image::load_from_memory(bytes).map_err(|error| error.to_string())?;
    let (width, height) = image::GenericImageView::dimensions(&image);
    Ok(DecodedImage { width, height, pixels: image.to_rgba8().into_raw() })
}

fn decode_hdr(bytes: &[u8]) -> Result<RadianceImage, String> {
    let decoder = image::codecs::hdr::HdrDecoder::new(bytes).map_err(|error| error.to_string())?;
    let meta = decoder.metadata();
    let pixels = decoder.read_image_native().map_err(|error| error.to_string())?;
    Ok(RadianceImage {
        width: meta.width,
        height: meta.height,
        pixels: pixels.iter().map(|p| Rgbe { r: p.c[0], g: p.c[1], b: p.c[2], e: p.e }).collect(),
    })
}

fn load_image(bytes: &[u8]) -> Result<ChannelUpload, DecodeError> {
    channel_from_image(decode(bytes))
}

fn load_radiance(bytes: &[u8]) -> Result<ChannelUpload, DecodeError> {
    channel_from_radiance(decode_hdr(bytes))
}

fn png(width: u32, height: u32, pixels: Vec<u8>) -> Vec<u8> {
    let image = image::RgbaImage::from_raw(width, height, pixels).expect("four bytes for each pixel");
    let mut bytes = std::io::Cursor::new(Vec::new());
    image::DynamicImage::ImageRgba8(image)
        .write_to(&mut bytes, image::ImageOutputFormat::Png)
        .expect("an image can be encoded");
    bytes.into_inner()
}

fn radiance(width: u32, height: u32, pixels: &[u8]) -> Vec<u8> {
    let mut bytes = format!("#?RADIANCE\nFORMAT=32-bit_rle_rgbe\n\n-Y {} +X {}\n", height, width).into_bytes();
    bytes.extend_from_slice(pixels);
    bytes
}

#[test]
fn mip_level_count_of_powers_of_two() {
    assert_eq!(mip_level_count(1, 1), 1);
    assert_eq!(mip_level_count(2, 1), 2);
    assert_eq!(mip_level_count(1, 2), 2);
    assert_eq!(mip_level_count(256, 256), 9);
    assert_eq!(mip_level_count(1024, 512), 11);
}

#[test]
fn mip_level_count_rounds_down() {
    assert_eq!(mip_level_count(3, 3), 2);
    assert_eq!(mip_level_count(255, 7), 8);
    assert_eq!(mip_level_count(257, 7), 9);
    assert_eq!(mip_level_count(1920, 1080), 11);
    assert_eq!(mip_level_count(1023, 1), 10);
}

#[test]
fn mip_level_count_at_the_edges() {
    assert_eq!(mip_level_count(0, 0), 1);
    assert_eq!(mip_level_count(u32::MAX, 1), 32);
    assert_eq!(mip_level_count(0x8000_0000, 0), 32);
    assert_eq!(mip_level_count(0x7fff_ffff, 0), 31);
    assert_eq!(mip_level_count(0x0100_0001, 0), 25);
    assert_eq!(mip_level_count(0x01ff_ffff, 0), 25);
}

#[test]
fn flatten_rgbe_keeps_order() {
    let pixels = vec![Rgbe { r: 1, g: 2, b: 3, e: 4 }, Rgbe { r: 5, g: 6, b: 7, e: 8 }];
    assert_eq!(flatten_rgbe(&pixels), vec![1, 2, 3, 4, 5, 6, 7, 8]);
    assert!(flatten_rgbe(&Vec::new()).is_empty());
}

#[test]
fn channel_upload_describes_source_and_texture() {
    let upload = channel_upload(
        640,
        480,
        vec![7; 4],
        TextureFormat::Rgba8UnormSrgb,
        ColourSpace::Linear,
        TextureFormat::Rgba8UnormSrgb,
    );
    assert_eq!(
        upload.source.texture,
        TextureDescriptor {
            width: 640,
            height: 480,
            depth_or_array_layers: 1,
            mip_level_count: 1,
            format: TextureFormat::Rgba8UnormSrgb,
            usage: TextureUsages { copy_src: false, copy_dst: true, texture_binding: true, storage_binding: false },
        }
    );
    assert_eq!(upload.source.layout, ImageDataLayout { offset: 0, bytes_per_row: Some(2560), rows_per_image: Some(480) });
    assert_eq!(upload.pixels, vec![7; 4]);
    assert_eq!(upload.colour_space, ColourSpace::Linear);
    assert_eq!(upload.filter, FilterMode::Linear);
    assert_eq!(
        upload.texture,
        ChannelTexture { width: 640, height: 480, mip_level_count: 10, format: TextureFormat::Rgba8UnormSrgb }
    );
}

#[test]
fn load_image_decodes_png() {
    let pixels = vec![255, 0, 0, 255, 0, 255, 0, 255, 0, 0, 255, 128, 9, 8, 7, 6, 1, 2, 3, 4, 5, 6, 7, 8];
    let upload = load_image(&png(3, 2, pixels.clone())).expect("a valid image");
    assert_eq!(upload.pixels, pixels);
    assert_eq!(upload.colour_space, ColourSpace::Linear);
    assert_eq!(upload.source.texture.format, TextureFormat::Rgba8UnormSrgb);
    assert_eq!((upload.source.texture.width, upload.source.texture.height), (3, 2));
    assert_eq!(upload.source.layout.bytes_per_row, Some(12));
    assert_eq!(upload.source.layout.rows_per_image, Some(2));
    assert_eq!(
        upload.texture,
        ChannelTexture { width: 3, height: 2, mip_level_count: 2, format: TextureFormat::Rgba8UnormSrgb }
    );
}

#[test]
fn load_image_refuses_malformed_bytes() {
    for bytes in [&b"this is no image"[..], &[][..], &png(2, 2, vec![0; 16])[..20]] {
        match load_image(bytes) {
            Err(DecodeError::Malformed(message)) => assert!(!message.is_empty()),
            other => panic!("unexpected outcome: {:?}", other),
        }
    }
}

#[test]
fn load_radiance_decodes_rgbe() {
    let pixels = [128u8, 64, 32, 129, 10, 20, 30, 128];
    let upload = load_radiance(&radiance(2, 1, &pixels)).expect("a valid radiance image");
    assert_eq!(upload.pixels, pixels.to_vec());
    assert_eq!(upload.colour_space, ColourSpace::Rgbe);
    assert_eq!(upload.source.texture.format, TextureFormat::Rgba8Unorm);
    assert_eq!(upload.source.layout.bytes_per_row, Some(8));
    assert_eq!(upload.filter, FilterMode::Linear);
    assert_eq!(
        upload.texture,
        ChannelTexture { width: 2, height: 1, mip_level_count: 2, format: TextureFormat::Rgba16Float }
    );
}

#[test]
fn load_radiance_refuses_malformed_bytes() {
    for bytes in [&b"this is no image"[..], &[][..], &radiance(2, 1, &[1, 2, 3])[..], &png(1, 1, vec![0; 4])[..]] {
        match load_radiance(bytes) {
            Err(DecodeError::Malformed(message)) => assert!(!message.is_empty()),
            other => panic!("unexpected outcome: {:?}", other),
        }
    }
}

#[test]
fn channel_from_image_passes_message_on() {
    match channel_from_image(Err("truncated".to_string())) {
        Err(DecodeError::Malformed(message)) => assert_eq!(message, "truncated"),
        other => panic!("unexpected outcome: {:?}", other),
    }
    match channel_from_radiance(Err("truncated".to_string())) {
        Err(DecodeError::Malformed(message)) => assert_eq!(message, "truncated"),
        other => panic!("unexpected outcome: {:?}", other),
    }
}

#[test]
fn channel_from_image_refuses_long_rows() {
    let wide = DecodedImage { width: 0x4000_0000, height: 0, pixels: Vec::new() };
    assert!(matches!(channel_from_image(Ok(wide)), Err(DecodeError::RowTooLong)));
    let widest = DecodedImage { width: 0x3fff_ffff, height: 0, pixels: Vec::new() };
    let upload = channel_from_image(Ok(widest)).expect("rows fit");
    assert_eq!(upload.source.layout.bytes_per_row, Some(0xffff_fffc));
    assert_eq!(upload.texture.mip_level_count, 30);
    let wide = RadianceImage { width: u32::MAX, height: 0, pixels: Vec::new() };
    assert!(matches!(channel_from_radiance(Ok(wide)), Err(DecodeError::RowTooLong)));
}

#[test]
fn channel_from_radiance_flattens_pixels() {
    let image = RadianceImage {
        width: 1,
        height: 2,
        pixels: vec![Rgbe { r: 1, g: 2, b: 3, e: 4 }, Rgbe { r: 5, g: 6, b: 7, e: 8 }],
    };
    let upload = channel_from_radiance(Ok(image)).expect("rows fit");
    assert_eq!(upload.pixels, vec![1, 2, 3, 4, 5, 6, 7, 8]);
    assert_eq!(upload.texture.format, TextureFormat::Rgba16Float);
    assert_eq!(upload.texture.mip_level_count, 2);
}

#[test]
fn decode_error_message_is_decoders_or_fixed() {
    assert_eq!(DecodeError::Malformed("unexpected end".to_string()).message(), "unexpected end");
    assert_eq!(DecodeError::RowTooLong.message(), "the rows of the image are too long for a texture");
    let error = load_image(b"this is no image").expect_err("no image");
    assert!(error.message().to_lowercase().contains("format"));
}
