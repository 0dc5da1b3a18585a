//! Channel textures: images that the host has decoded are described for
//! upload and given their chain of mip levels.
//!
//! Decoding is the host's, for the reason that parsing is: a decoder may
//! stop the thread on bytes that it cannot handle, and what it makes of
//! some bytes depends on the machine's word. The host hands over width,
//! height and pixels, or the decoder's message.

use crate::layout::{FilterMode, TextureFormat};
use crate::resources::{create_texture_from_image, texture_upload_spec, TextureUpload};
use vstd::prelude::*;

verus! {

/// Number of channel slots.
pub const NUM_CHANNELS: usize = 2;

/// What is said of an image whose rows are too long.
pub const ROW_TOO_LONG: &'static str = "the rows of the image are too long for a texture";

/// How the bytes of a channel's source texture encode colour.
#[derive(Clone, Copy, Debug, PartialEq, Eq, Structural)]
pub enum ColourSpace {
    /// Red, green, blue and alpha, eight bits each.
    Linear,
    /// Red, green and blue mantissas with a shared exponent.
    Rgbe,
}

/// A decoded image: rows of pixels, four bytes each.
#[derive(Debug)]
pub struct DecodedImage {
    pub width: u32,
    pub height: u32,
    pub pixels: Vec<u8>,
}

/// A pixel of a radiance image: three mantissas and their exponent.
#[derive(Clone, Copy, Debug, PartialEq, Eq, Structural)]
pub struct Rgbe {
    pub r: u8,
    pub g: u8,
    pub b: u8,
    pub e: u8,
}

/// A decoded radiance image.
#[derive(Debug)]
pub struct RadianceImage {
    pub width: u32,
    pub height: u32,
    pub pixels: Vec<Rgbe>,
}

/// Why an image could not be made a channel.
#[derive(Debug)]
pub enum DecodeError {
    /// The bytes are no image: the decoder's message.
    Malformed(String),
    /// A row of the image has more bytes than a texture row can hold.
    RowTooLong,
}

/// A decode error as a value.
pub enum DecodeErrorView {
    Malformed(Seq<char>),
    RowTooLong,
}

impl View for DecodeError {
    type V = DecodeErrorView;

    open spec fn view(&self) -> DecodeErrorView {
        match self {
            DecodeError::Malformed(message) => DecodeErrorView::Malformed(message@),
            DecodeError::RowTooLong => DecodeErrorView::RowTooLong,
        }
    }
}

impl DecodeError {
    /// The error in words: the decoder's own message, or that the rows
    /// are too long.
    pub fn message(&self) -> (text: String)
        ensures
            text@ == match self@ {
                DecodeErrorView::Malformed(message) => message,
                DecodeErrorView::RowTooLong => ROW_TOO_LONG@,
            },
    {
        match self {
            DecodeError::Malformed(message) => message.clone(),
            DecodeError::RowTooLong => ROW_TOO_LONG.to_owned(),
        }
    }
}

/// The texture that a channel slot holds.
#[derive(Clone, Copy, Debug, PartialEq, Eq, Structural)]
pub struct ChannelTexture {
    pub width: u32,
    pub height: u32,
    pub mip_level_count: u32,
    pub format: TextureFormat,
}

/// What the host does to fill a channel slot: it writes the pixels to a
/// source texture and resamples that, with the given filter, into the
/// channel texture and its mip levels.
#[derive(Debug)]
pub struct ChannelUpload {
    pub source: TextureUpload,
    pub pixels: Vec<u8>,
    pub colour_space: ColourSpace,
    pub filter: FilterMode,
    pub texture: ChannelTexture,
}

/// A channel upload as a value.
pub struct ChannelUploadView {
    pub source: TextureUpload,
    pub pixels: Seq<u8>,
    pub colour_space: ColourSpace,
    pub filter: FilterMode,
    pub texture: ChannelTexture,
}

impl View for ChannelUpload {
    type V = ChannelUploadView;

    open spec fn view(&self) -> ChannelUploadView {
        ChannelUploadView {
            source: self.source,
            pixels: self.pixels@,
            colour_space: self.colour_space,
            filter: self.filter,
            texture: self.texture,
        }
    }
}

/// The view of what the image decoder hands back.
pub open spec fn decoded_view(decoded: Result<DecodedImage, String>) -> Result<
    (u32, u32, Seq<u8>),
    Seq<char>,
> {
    match decoded {
        Ok(image) => Ok((image.width, image.height, image.pixels@)),
        Err(message) => Err(message@),
    }
}

/// The view of what the radiance decoder hands back.
pub open spec fn radiance_view(decoded: Result<RadianceImage, String>) -> Result<
    (u32, u32, Seq<Rgbe>),
    Seq<char>,
> {
    match decoded {
        Ok(image) => Ok((image.width, image.height, image.pixels@)),
        Err(message) => Err(message@),
    }
}

/// The largest `k` with `2^k <= n`, and zero for zero.
pub open spec fn floor_log2(n: nat) -> nat
    decreases n,
{
    if n <= 1 {
        0
    } else {
        1 + floor_log2(n / 2)
    }
}

/// The longer side of an image.
pub open spec fn longer_side(width: u32, height: u32) -> u32 {
    if width >= height {
        width
    } else {
        height
    }
}

/// Mip levels of a channel texture: one, and one more for each halving
/// of the longer side down to one pixel.
pub open spec fn mip_levels(width: u32, height: u32) -> nat {
    1 + floor_log2(longer_side(width, height) as nat)
}

/// The bytes of radiance pixels: mantissas, then exponent, pixel by pixel.
pub open spec fn rgbe_bytes(pixels: Seq<Rgbe>) -> Seq<u8>
    decreases pixels.len(),
{
    if pixels.len() == 0 {
        Seq::empty()
    } else {
        rgbe_bytes(pixels.drop_last()) + seq![
            pixels.last().r,
            pixels.last().g,
            pixels.last().b,
            pixels.last().e,
        ]
    }
}

/// The upload that fills a channel with decoded pixels.
pub open spec fn channel_upload_spec(
    width: u32,
    height: u32,
    pixels: Seq<u8>,
    source_format: TextureFormat,
    colour_space: ColourSpace,
    format: TextureFormat,
) -> ChannelUploadView {
    ChannelUploadView {
        source: texture_upload_spec(width, height, source_format),
        pixels,
        colour_space,
        filter: FilterMode::Linear,
        texture: ChannelTexture {
            width,
            height,
            mip_level_count: mip_levels(width, height) as u32,
            format,
        },
    }
}

/// The upload, or the error, that the outcome of a decode gives.
pub open spec fn decoded_channel(
    decoded: Result<(u32, u32, Seq<u8>), Seq<char>>,
    source_format: TextureFormat,
    colour_space: ColourSpace,
    format: TextureFormat,
) -> Result<ChannelUploadView, DecodeErrorView> {
    match decoded {
        Ok((width, height, pixels)) => if 4 * width <= u32::MAX {
            Ok(channel_upload_spec(width, height, pixels, source_format, colour_space, format))
        } else {
            Err(DecodeErrorView::RowTooLong)
        },
        Err(message) => Err(DecodeErrorView::Malformed(message)),
    }
}

/// The outcome of an image decode as a channel.
pub open spec fn image_channel_spec(decoded: Result<(u32, u32, Seq<u8>), Seq<char>>) -> Result<
    ChannelUploadView,
    DecodeErrorView,
> {
    decoded_channel(
        decoded,
        TextureFormat::Rgba8UnormSrgb,
        ColourSpace::Linear,
        TextureFormat::Rgba8UnormSrgb,
    )
}

/// The outcome of a radiance decode as a channel.
pub open spec fn radiance_channel_spec(decoded: Result<(u32, u32, Seq<Rgbe>), Seq<char>>) -> Result<
    ChannelUploadView,
    DecodeErrorView,
> {
    decoded_channel(
        match decoded {
            Ok((width, height, pixels)) => Ok((width, height, rgbe_bytes(pixels))),
            Err(message) => Err(message),
        },
        TextureFormat::Rgba8Unorm,
        ColourSpace::Rgbe,
        TextureFormat::Rgba16Float,
    )
}

/// The view of an upload or a decode error.
pub open spec fn outcome_view(outcome: Result<ChannelUpload, DecodeError>) -> Result<
    ChannelUploadView,
    DecodeErrorView,
> {
    match outcome {
        Ok(upload) => Ok(upload@),
        Err(error) => Err(error@),
    }
}

proof fn lemma_floor_log2_bound(n: nat)
    requires
        n <= u32::MAX,
    ensures
        floor_log2(n) <= 31,
{
    reveal_with_fuel(floor_log2, 34);
}

/// Counts the mip levels of a channel texture.
pub fn mip_level_count(width: u32, height: u32) -> (levels: u32)
    ensures
        levels == mip_levels(width, height),
        1 <= levels <= 32,
{
    let mut side: u32 = if width >= height {
        width
    } else {
        height
    };
    let mut levels: u32 = 1;
    proof {
        lemma_floor_log2_bound(side as nat);
    }
    while side > 1
        invariant
            1 <= levels,
            levels + floor_log2(side as nat) == mip_levels(width, height) <= 32,
        decreases side,
    {
        side = side / 2;
        levels = levels + 1;
    }
    levels
}

/// Lays radiance pixels out as bytes, four for each pixel.
pub fn flatten_rgbe(pixels: &Vec<Rgbe>) -> (bytes: Vec<u8>)
    ensures
        bytes@ == rgbe_bytes(pixels@),
{
    let mut bytes: Vec<u8> = Vec::new();
    let mut i: usize = 0;
    assert(pixels@.take(0) =~= Seq::<Rgbe>::empty());
    while i < pixels.len()
        invariant
            i <= pixels.len(),
            bytes@ == rgbe_bytes(pixels@.take(i as int)),
        decreases pixels.len() - i,
    {
        let ghost before = bytes@;
        let pixel = pixels[i];
        assert(pixels@.take(i + 1).drop_last() =~= pixels@.take(i as int));
        bytes.push(pixel.r);
        bytes.push(pixel.g);
        bytes.push(pixel.b);
        bytes.push(pixel.e);
        assert(bytes@ =~= before + seq![pixel.r, pixel.g, pixel.b, pixel.e]);
        i = i + 1;
    }
    assert(pixels@.take(i as int) =~= pixels@);
    bytes
}

/// Describes the upload that fills a channel with decoded pixels: the
/// source texture that takes the pixels, and the channel texture of the
/// same size with its full chain of mip levels.
pub fn channel_upload(
    width: u32,
    height: u32,
    pixels: Vec<u8>,
    source_format: TextureFormat,
    colour_space: ColourSpace,
    format: TextureFormat,
) -> (upload: ChannelUpload)
    requires
        4 * width <= u32::MAX,
    ensures
        upload@ == channel_upload_spec(
            width,
            height,
            pixels@,
            source_format,
            colour_space,
            format,
        ),
{
    ChannelUpload {
        source: create_texture_from_image(width, height, source_format),
        pixels,
        colour_space,
        filter: FilterMode::Linear,
        texture: ChannelTexture {
            width,
            height,
            mip_level_count: mip_level_count(width, height),
            format,
        },
    }
}

/// Makes a channel of the outcome of a decode. A decoder's error is
/// passed on with its message; an image whose rows are too long for a
/// texture is refused; any other image gives its upload.
pub fn channel_from_image(decoded: Result<DecodedImage, String>) -> (outcome: Result<
    ChannelUpload,
    DecodeError,
>)
    ensures
        outcome_view(outcome) == image_channel_spec(decoded_view(decoded)),
{
    match decoded {
        Ok(image) => {
            if image.width > u32::MAX / 4 {
                return Err(DecodeError::RowTooLong);
            }
            Ok(
                channel_upload(
                    image.width,
                    image.height,
                    image.pixels,
                    TextureFormat::Rgba8UnormSrgb,
                    ColourSpace::Linear,
                    TextureFormat::Rgba8UnormSrgb,
                ),
            )
        },
        Err(message) => Err(DecodeError::Malformed(message)),
    }
}

/// Makes a channel of the outcome of a radiance decode, as
/// `channel_from_image` does. The pixels keep their shared exponent: the
/// source texture holds them as plain bytes and the channel texture
/// holds floats.
pub fn channel_from_radiance(decoded: Result<RadianceImage, String>) -> (outcome: Result<
    ChannelUpload,
    DecodeError,
>)
    ensures
        outcome_view(outcome) == radiance_channel_spec(radiance_view(decoded)),
{
    match decoded {
        Ok(image) => {
            if image.width > u32::MAX / 4 {
                return Err(DecodeError::RowTooLong);
            }
            Ok(
                channel_upload(
                    image.width,
                    image.height,
                    flatten_rgbe(&image.pixels),
                    TextureFormat::Rgba8Unorm,
                    ColourSpace::Rgbe,
                    TextureFormat::Rgba16Float,
                ),
            )
        },
        Err(message) => Err(DecodeError::Malformed(message)),
    }
}

/// `floor_log2` rounds the binary logarithm down: the power of two that
/// it names is the largest one not above the number.
pub proof fn lemma_floor_log2_is_floor(n: nat)
    requires
        n >= 1,
    ensures
        vstd::arithmetic::power2::pow2(floor_log2(n)) <= n < 2 * vstd::arithmetic::power2::pow2(
            floor_log2(n),
        ),
    decreases n,
{
    if n <= 1 {
        vstd::arithmetic::power2::lemma2_to64();
    } else {
        lemma_floor_log2_is_floor(n / 2);
        vstd::arithmetic::power2::lemma_pow2_unfold(floor_log2(n));
    }
}

/// The chain of mip levels of a channel texture ends at one pixel: with
/// the longer side halved once for each level after the first, rounding
/// down, the last level has a longer side of one.
pub proof fn lemma_mip_chain_ends_at_one_pixel(width: u32, height: u32)
    requires
        width >= 1 || height >= 1,
    ensures
        longer_side(width, height) as nat / vstd::arithmetic::power2::pow2(
            (mip_levels(width, height) - 1) as nat,
        ) == 1,
{
    let side = longer_side(width, height) as nat;
    let top = vstd::arithmetic::power2::pow2(floor_log2(side));
    lemma_floor_log2_is_floor(side);
    vstd::arithmetic::power2::lemma_pow2_pos(floor_log2(side));
    assert(side / top == 1) by (nonlinear_arith)
        requires
            0 < top <= side < 2 * top,
    ;
}

/// A texture of one pixel has one mip level, and each doubling of the
/// longer side adds one.
pub proof fn lemma_mip_levels_double(side: u32)
    requires
        1 <= side,
        2 * side <= u32::MAX,
    ensures
        mip_levels(1, 1) == 1,
        mip_levels((2 * side) as u32, 1) == mip_levels(side, 1) + 1,
{
    reveal_with_fuel(floor_log2, 2);
    assert((2 * side) as nat / 2 == side as nat);
}

} // verus!
