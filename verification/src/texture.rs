//! Texture metadata and the table that maps image layouts to the GL
//! enumerants the upload calls take.  The GL calls themselves (creation,
//! upload, deletion) are the graphics binding's side of the boundary; what
//! stands here is everything that can be decided from plain values: which
//! internal format, pixel format and data type an image uses, and the
//! registry that owns texture records.

use vstd::prelude::*;

verus! {

use crate::glenum;
use crate::{GlProperty, GpuResource};

#[derive(Clone, Copy, Debug, PartialEq, Eq, Structural)]
pub enum TextureError {
    /// The decoded image arrived in a pixel layout the loader does not
    /// accept.
    UnsupportedFormat,
}

/// The pixel layouts a decoded image can arrive in.
#[derive(Clone, Copy, Debug, PartialEq, Eq, Structural)]
pub enum DecodedLayout {
    Luma8,
    LumaA8,
    Rgb8,
    Rgba8,
    Luma16,
    LumaA16,
    Rgb16,
    Rgba16,
    Rgb32F,
    Rgba32F,
    /// Any layout the loader does not accept.
    Other,
}

/// The image format for a GL texture: the number and meaning of the
/// components of each pixel.
#[derive(Debug, Clone, Copy, PartialEq, Eq, Structural, PartialOrd, Ord, Hash)]
pub enum ImageFormat {
    SingleChannel,
    DualChannel,
    Rgb,
    Bgr,
    Rgba,
    Bgra,
    SingleChannelInteger,
    DualChannelInteger,
    RgbInteger,
    BgrInteger,
    RgbaInteger,
    BgraInteger,
    Depth,
    Stencil,
    DepthStencil,
}

/// The data type of the pixels of a GL texture; together with
/// [`ImageFormat`] it determines the internal format.
#[derive(Debug, Clone, Copy, PartialEq, Eq, Structural, PartialOrd, Ord, Hash)]
pub enum ImageType {
    SingleBit,
    Bits332,
    Bits4,
    Bits5,
    Bits8,
    Bits10,
    Bits12,
    Bits16,
    Bits24,
    Bits2PackedByte1,
    Bits4PackedByte2,
    Bits8Snorm,
    Bits16Snorm,
    Bits8Linear,
    Bits9Shared5,
    Float16,
    Float32,
    Float111110,
    Integer8,
    Integer16,
    Integer32,
    Integer8U,
    Integer16U,
    Integer32U,
}

/// Whether the format carries an alpha component.
pub open spec fn spec_has_alpha(format: ImageFormat) -> bool {
    match format {
        ImageFormat::Rgba | ImageFormat::Bgra | ImageFormat::RgbaInteger
            | ImageFormat::BgraInteger => true,
        _ => false,
    }
}

/// The GL pixel-format enumerant of each format.
pub open spec fn spec_gl_format(format: ImageFormat) -> u32 {
    match format {
        ImageFormat::SingleChannel => glenum::RED,
        ImageFormat::DualChannel => glenum::RG,
        ImageFormat::Rgb => glenum::RGB,
        ImageFormat::Rgba => glenum::RGBA,
        ImageFormat::Bgr => glenum::BGR,
        ImageFormat::Bgra => glenum::BGRA,
        ImageFormat::SingleChannelInteger => glenum::RED_INTEGER,
        ImageFormat::DualChannelInteger => glenum::RG_INTEGER,
        ImageFormat::RgbInteger => glenum::RGB_INTEGER,
        ImageFormat::RgbaInteger => glenum::RGBA_INTEGER,
        ImageFormat::BgrInteger => glenum::BGR_INTEGER,
        ImageFormat::BgraInteger => glenum::BGRA_INTEGER,
        ImageFormat::Depth => glenum::DEPTH_COMPONENT,
        ImageFormat::Stencil => glenum::STENCIL_INDEX,
        ImageFormat::DepthStencil => glenum::DEPTH_STENCIL,
    }
}

/// The GL data-type enumerant of each pixel type; packed five-bit and
/// ten-bit colours use their packed types only when alpha is present.
pub open spec fn spec_gl_type(pixel: ImageType, alpha: bool) -> u32 {
    match pixel {
        ImageType::Bits5 => if alpha {
            glenum::UNSIGNED_SHORT_5_5_5_1
        } else {
            glenum::UNSIGNED_BYTE
        },
        ImageType::Bits10 => if alpha {
            glenum::UNSIGNED_INT_10_10_10_2
        } else {
            glenum::UNSIGNED_INT
        },
        ImageType::Bits332 => glenum::UNSIGNED_BYTE_3_3_2,
        ImageType::SingleBit | ImageType::Bits2PackedByte1 | ImageType::Bits4PackedByte2
            | ImageType::Bits8Linear | ImageType::Bits8Snorm | ImageType::Bits4
            | ImageType::Bits8 => glenum::UNSIGNED_BYTE,
        ImageType::Bits16Snorm | ImageType::Bits16 | ImageType::Bits12 => glenum::UNSIGNED_SHORT,
        ImageType::Bits24 => glenum::UNSIGNED_INT,
        ImageType::Bits9Shared5 => glenum::UNSIGNED_INT_5_9_9_9_REV,
        ImageType::Float16 | ImageType::Float32 | ImageType::Float111110 => glenum::FLOAT,
        ImageType::Integer8 | ImageType::Integer16 | ImageType::Integer32 => glenum::INT,
        ImageType::Integer8U | ImageType::Integer16U | ImageType::Integer32U => glenum::UNSIGNED_INT
        ,
    }
}

/// The sized GL internal format of each accepted (format, pixel type) pair,
/// and nothing for the pairs GL has no internal format for.
pub open spec fn spec_internal_format(format: ImageFormat, pixel: ImageType) -> Option<u32> {
    match format {
        ImageFormat::SingleChannel => match pixel {
            ImageType::Bits8 => Some(glenum::R8),
            ImageType::Bits16 => Some(glenum::R16),
            ImageType::Bits8Snorm => Some(glenum::R8_SNORM),
            ImageType::Bits16Snorm => Some(glenum::R16_SNORM),
            ImageType::Float16 => Some(glenum::R16F),
            ImageType::Float32 => Some(glenum::R32F),
            _ => None,
        },
        ImageFormat::DualChannel => match pixel {
            ImageType::Bits8 => Some(glenum::RG8),
            ImageType::Bits16 => Some(glenum::RG16),
            ImageType::Bits8Snorm => Some(glenum::RG8_SNORM),
            ImageType::Bits16Snorm => Some(glenum::RG16_SNORM),
            ImageType::Float16 => Some(glenum::RG16F),
            ImageType::Float32 => Some(glenum::RG32F),
            _ => None,
        },
        ImageFormat::Rgb | ImageFormat::Bgr => match pixel {
            ImageType::Bits332 => Some(glenum::R3_G3_B2),
            ImageType::Bits4 => Some(glenum::RGB4),
            ImageType::Bits5 => Some(glenum::RGB5),
            ImageType::Bits8 => Some(glenum::RGB8),
            ImageType::Bits16 => Some(glenum::RGB16),
            ImageType::Bits8Snorm => Some(glenum::RGB8_SNORM),
            ImageType::Bits10 => Some(glenum::RGB10),
            ImageType::Bits12 => Some(glenum::RGB12),
            ImageType::Bits16Snorm => Some(glenum::RGB16_SNORM),
            ImageType::Bits8Linear => Some(glenum::SRGB8),
            ImageType::Float16 => Some(glenum::RGB16F),
            ImageType::Float32 => Some(glenum::RGB32F),
            ImageType::Float111110 => Some(glenum::R11F_G11F_B10F),
            ImageType::Bits2PackedByte1 => Some(glenum::RGBA2),
            ImageType::Bits4PackedByte2 => Some(glenum::RGBA4),
            ImageType::Bits9Shared5 => Some(glenum::RGB9_E5),
            _ => None,
        },
        ImageFormat::Rgba | ImageFormat::Bgra => match pixel {
            ImageType::Bits5 => Some(glenum::RGB5_A1),
            ImageType::Bits8 => Some(glenum::RGBA8),
            ImageType::Bits8Snorm => Some(glenum::RGBA8_SNORM),
            ImageType::Bits10 => Some(glenum::RGB10_A2),
            ImageType::Bits12 => Some(glenum::RGBA12),
            ImageType::Bits16 => Some(glenum::RGBA16),
            ImageType::Bits8Linear => Some(glenum::SRGB8_ALPHA8),
            ImageType::Bits16Snorm => Some(glenum::RGBA16_SNORM),
            ImageType::Float16 => Some(glenum::RGBA16F),
            ImageType::Float32 => Some(glenum::RGBA32F),
            _ => None,
        },
        ImageFormat::SingleChannelInteger => match pixel {
            ImageType::Integer8 => Some(glenum::R8I),
            ImageType::Integer16 => Some(glenum::R16I),
            ImageType::Integer32 => Some(glenum::R32I),
            ImageType::Integer8U => Some(glenum::R8UI),
            ImageType::Integer16U => Some(glenum::R16UI),
            ImageType::Integer32U => Some(glenum::R32UI),
            _ => None,
        },
        ImageFormat::DualChannelInteger => match pixel {
            ImageType::Integer8 => Some(glenum::RG8I),
            ImageType::Integer16 => Some(glenum::RG16I),
            ImageType::Integer32 => Some(glenum::RG32I),
            ImageType::Integer8U => Some(glenum::RG8UI),
            ImageType::Integer16U => Some(glenum::RG16UI),
            ImageType::Integer32U => Some(glenum::RG32UI),
            _ => None,
        },
        ImageFormat::RgbInteger | ImageFormat::BgrInteger => match pixel {
            ImageType::Integer8 => Some(glenum::RGB8I),
            ImageType::Integer16 => Some(glenum::RGB16I),
            ImageType::Integer32 => Some(glenum::RGB32I),
            ImageType::Integer8U => Some(glenum::RGB8UI),
            ImageType::Integer16U => Some(glenum::RGB16UI),
            ImageType::Integer32U => Some(glenum::RGB32UI),
            _ => None,
        },
        ImageFormat::RgbaInteger | ImageFormat::BgraInteger => match pixel {
            ImageType::Integer8 => Some(glenum::RGBA8I),
            ImageType::Integer16 => Some(glenum::RGBA16I),
            ImageType::Integer32 => Some(glenum::RGBA32I),
            ImageType::Integer8U => Some(glenum::RGBA8UI),
            ImageType::Integer16U => Some(glenum::RGBA16UI),
            ImageType::Integer32U => Some(glenum::RGBA32UI),
            _ => None,
        },
        ImageFormat::Depth => match pixel {
            ImageType::Bits16 => Some(glenum::DEPTH_COMPONENT16),
            ImageType::Bits24 => Some(glenum::DEPTH_COMPONENT24),
            ImageType::Integer32 => Some(glenum::DEPTH_COMPONENT32),
            ImageType::Float32 => Some(glenum::DEPTH_COMPONENT32F),
            _ => None,
        },
        ImageFormat::Stencil => match pixel {
            ImageType::SingleBit => Some(glenum::STENCIL_INDEX1),
            ImageType::Bits4 => Some(glenum::STENCIL_INDEX4),
            ImageType::Bits8 => Some(glenum::STENCIL_INDEX8),
            ImageType::Bits16 => Some(glenum::STENCIL_INDEX16),
            _ => None,
        },
        ImageFormat::DepthStencil => match pixel {
            ImageType::Bits24 => Some(glenum::DEPTH24_STENCIL8),
            ImageType::Float32 => Some(glenum::DEPTH32F_STENCIL8),
            _ => None,
        },
    }
}

/// A (format, pixel type) pair is compatible when GL has a sized internal
/// format for it.
pub open spec fn compatible_format(format: ImageFormat, pixel: ImageType) -> bool {
    spec_internal_format(format, pixel) is Some
}

impl ImageFormat {
    pub fn has_alpha(&self) -> (r: bool)
        ensures
            r == spec_has_alpha(*self),
    {
        matches!(
            self,
            ImageFormat::Rgba | ImageFormat::Bgra | ImageFormat::RgbaInteger
                | ImageFormat::BgraInteger
        )
    }

    pub fn to_gl_format(self) -> (r: u32)
        ensures
            r == spec_gl_format(self),
    {
        match self {
            ImageFormat::SingleChannel => glenum::RED,
            ImageFormat::DualChannel => glenum::RG,
            ImageFormat::Rgb => glenum::RGB,
            ImageFormat::Rgba => glenum::RGBA,
            ImageFormat::Bgr => glenum::BGR,
            ImageFormat::Bgra => glenum::BGRA,
            ImageFormat::SingleChannelInteger => glenum::RED_INTEGER,
            ImageFormat::DualChannelInteger => glenum::RG_INTEGER,
            ImageFormat::RgbInteger => glenum::RGB_INTEGER,
            ImageFormat::RgbaInteger => glenum::RGBA_INTEGER,
            ImageFormat::BgrInteger => glenum::BGR_INTEGER,
            ImageFormat::BgraInteger => glenum::BGRA_INTEGER,
            ImageFormat::Depth => glenum::DEPTH_COMPONENT,
            ImageFormat::Stencil => glenum::STENCIL_INDEX,
            ImageFormat::DepthStencil => glenum::DEPTH_STENCIL,
        }
    }
}

impl ImageType {
    pub fn to_gl_type(self, alpha: bool) -> (r: u32)
        ensures
            r == spec_gl_type(self, alpha),
    {
        match self {
            ImageType::Bits5 => if alpha {
                glenum::UNSIGNED_SHORT_5_5_5_1
            } else {
                glenum::UNSIGNED_BYTE
            },
            ImageType::Bits10 => if alpha {
                glenum::UNSIGNED_INT_10_10_10_2
            } else {
                glenum::UNSIGNED_INT
            },
            ImageType::Bits332 => glenum::UNSIGNED_BYTE_3_3_2,
            ImageType::SingleBit | ImageType::Bits2PackedByte1 | ImageType::Bits4PackedByte2
                | ImageType::Bits8Linear | ImageType::Bits8Snorm | ImageType::Bits4
                | ImageType::Bits8 => glenum::UNSIGNED_BYTE,
            ImageType::Bits16Snorm | ImageType::Bits16 | ImageType::Bits12 => glenum::UNSIGNED_SHORT
            ,
            ImageType::Bits24 => glenum::UNSIGNED_INT,
            ImageType::Bits9Shared5 => glenum::UNSIGNED_INT_5_9_9_9_REV,
            ImageType::Float16 | ImageType::Float32 | ImageType::Float111110 => glenum::FLOAT,
            ImageType::Integer8 | ImageType::Integer16 | ImageType::Integer32 => glenum::INT,
            ImageType::Integer8U | ImageType::Integer16U | ImageType::Integer32U
                => glenum::UNSIGNED_INT,
        }
    }
}

/// The three GL enumerants one upload call needs.
#[derive(Clone, Copy, Debug, PartialEq, Eq, Structural)]
pub struct GlFormat {
    pub internal: u32,
    pub format: u32,
    pub data_type: u32,
}

/// Whether [`choose_gl_format`] accepts the pair.
pub fn is_compatible_format(format: ImageFormat, pixel: ImageType) -> (r: bool)
    ensures
        r == compatible_format(format, pixel),
{
    match format {
        ImageFormat::SingleChannel | ImageFormat::DualChannel => matches!(
            pixel,
            ImageType::Bits8 | ImageType::Bits16 | ImageType::Bits8Snorm | ImageType::Bits16Snorm
                | ImageType::Float16 | ImageType::Float32
        ),
        ImageFormat::Rgb | ImageFormat::Bgr => matches!(
            pixel,
            ImageType::Bits332 | ImageType::Bits4 | ImageType::Bits5 | ImageType::Bits8
                | ImageType::Bits16 | ImageType::Bits8Snorm | ImageType::Bits10 | ImageType::Bits12
                | ImageType::Bits16Snorm | ImageType::Bits8Linear | ImageType::Float16
                | ImageType::Float32 | ImageType::Float111110 | ImageType::Bits2PackedByte1
                | ImageType::Bits4PackedByte2 | ImageType::Bits9Shared5
        ),
        ImageFormat::Rgba | ImageFormat::Bgra => matches!(
            pixel,
            ImageType::Bits5 | ImageType::Bits8 | ImageType::Bits8Snorm | ImageType::Bits10
                | ImageType::Bits12 | ImageType::Bits16 | ImageType::Bits8Linear
                | ImageType::Bits16Snorm | ImageType::Float16 | ImageType::Float32
        ),
        ImageFormat::SingleChannelInteger | ImageFormat::DualChannelInteger
            | ImageFormat::RgbInteger | ImageFormat::BgrInteger | ImageFormat::RgbaInteger
            | ImageFormat::BgraInteger => matches!(
            pixel,
            ImageType::Integer8 | ImageType::Integer16 | ImageType::Integer32
                | ImageType::Integer8U | ImageType::Integer16U | ImageType::Integer32U
        ),
        ImageFormat::Depth => matches!(
            pixel,
            ImageType::Bits16 | ImageType::Bits24 | ImageType::Integer32 | ImageType::Float32
        ),
        ImageFormat::Stencil => matches!(
            pixel,
            ImageType::SingleBit | ImageType::Bits4 | ImageType::Bits8 | ImageType::Bits16
        ),
        ImageFormat::DepthStencil => matches!(pixel, ImageType::Bits24 | ImageType::Float32),
    }
}

/// The GL enumerant triple an upload of `format` data with `pixel` typed
/// components uses.  Pairs GL has no internal format for are excluded:
/// callers test with [`is_compatible_format`] first.
pub fn choose_gl_format(format: ImageFormat, pixel: ImageType) -> (r: GlFormat)
    requires
        compatible_format(format, pixel),
    ensures
        Some(r.internal) == spec_internal_format(format, pixel),
        r.format == spec_gl_format(format),
        r.data_type == spec_gl_type(pixel, spec_has_alpha(format)),
{
    let internal: u32 = match format {
        ImageFormat::SingleChannel => match pixel {
            ImageType::Bits8 => glenum::R8,
            ImageType::Bits16 => glenum::R16,
            ImageType::Bits8Snorm => glenum::R8_SNORM,
            ImageType::Bits16Snorm => glenum::R16_SNORM,
            ImageType::Float16 => glenum::R16F,
            ImageType::Float32 => glenum::R32F,
            _ => 0,
        },
        ImageFormat::DualChannel => match pixel {
            ImageType::Bits8 => glenum::RG8,
            ImageType::Bits16 => glenum::RG16,
            ImageType::Bits8Snorm => glenum::RG8_SNORM,
            ImageType::Bits16Snorm => glenum::RG16_SNORM,
            ImageType::Float16 => glenum::RG16F,
            ImageType::Float32 => glenum::RG32F,
            _ => 0,
        },
        ImageFormat::Rgb | ImageFormat::Bgr => match pixel {
            ImageType::Bits332 => glenum::R3_G3_B2,
            ImageType::Bits4 => glenum::RGB4,
            ImageType::Bits5 => glenum::RGB5,
            ImageType::Bits8 => glenum::RGB8,
            ImageType::Bits16 => glenum::RGB16,
            ImageType::Bits8Snorm => glenum::RGB8_SNORM,
            ImageType::Bits10 => glenum::RGB10,
            ImageType::Bits12 => glenum::RGB12,
            ImageType::Bits16Snorm => glenum::RGB16_SNORM,
            ImageType::Bits8Linear => glenum::SRGB8,
            ImageType::Float16 => glenum::RGB16F,
            ImageType::Float32 => glenum::RGB32F,
            ImageType::Float111110 => glenum::R11F_G11F_B10F,
            ImageType::Bits2PackedByte1 => glenum::RGBA2,
            ImageType::Bits4PackedByte2 => glenum::RGBA4,
            ImageType::Bits9Shared5 => glenum::RGB9_E5,
            _ => 0,
        },
        ImageFormat::Rgba | ImageFormat::Bgra => match pixel {
            ImageType::Bits5 => glenum::RGB5_A1,
            ImageType::Bits8 => glenum::RGBA8,
            ImageType::Bits8Snorm => glenum::RGBA8_SNORM,
            ImageType::Bits10 => glenum::RGB10_A2,
            ImageType::Bits12 => glenum::RGBA12,
            ImageType::Bits16 => glenum::RGBA16,
            ImageType::Bits8Linear => glenum::SRGB8_ALPHA8,
            ImageType::Bits16Snorm => glenum::RGBA16_SNORM,
            ImageType::Float16 => glenum::RGBA16F,
            ImageType::Float32 => glenum::RGBA32F,
            _ => 0,
        },
        ImageFormat::SingleChannelInteger => match pixel {
            ImageType::Integer8 => glenum::R8I,
            ImageType::Integer16 => glenum::R16I,
            ImageType::Integer32 => glenum::R32I,
            ImageType::Integer8U => glenum::R8UI,
            ImageType::Integer16U => glenum::R16UI,
            ImageType::Integer32U => glenum::R32UI,
            _ => 0,
        },
        ImageFormat::DualChannelInteger => match pixel {
            ImageType::Integer8 => glenum::RG8I,
            ImageType::Integer16 => glenum::RG16I,
            ImageType::Integer32 => glenum::RG32I,
            ImageType::Integer8U => glenum::RG8UI,
            ImageType::Integer16U => glenum::RG16UI,
            ImageType::Integer32U => glenum::RG32UI,
            _ => 0,
        },
        ImageFormat::RgbInteger | ImageFormat::BgrInteger => match pixel {
            ImageType::Integer8 => glenum::RGB8I,
            ImageType::Integer16 => glenum::RGB16I,
            ImageType::Integer32 => glenum::RGB32I,
            ImageType::Integer8U => glenum::RGB8UI,
            ImageType::Integer16U => glenum::RGB16UI,
            ImageType::Integer32U => glenum::RGB32UI,
            _ => 0,
        },
        ImageFormat::RgbaInteger | ImageFormat::BgraInteger => match pixel {
            ImageType::Integer8 => glenum::RGBA8I,
            ImageType::Integer16 => glenum::RGBA16I,
            ImageType::Integer32 => glenum::RGBA32I,
            ImageType::Integer8U => glenum::RGBA8UI,
            ImageType::Integer16U => glenum::RGBA16UI,
            ImageType::Integer32U => glenum::RGBA32UI,
            _ => 0,
        },
        ImageFormat::Depth => match pixel {
            ImageType::Bits16 => glenum::DEPTH_COMPONENT16,
            ImageType::Bits24 => glenum::DEPTH_COMPONENT24,
            ImageType::Integer32 => glenum::DEPTH_COMPONENT32,
            ImageType::Float32 => glenum::DEPTH_COMPONENT32F,
            _ => 0,
        },
        ImageFormat::Stencil => match pixel {
            ImageType::SingleBit => glenum::STENCIL_INDEX1,
            ImageType::Bits4 => glenum::STENCIL_INDEX4,
            ImageType::Bits8 => glenum::STENCIL_INDEX8,
            ImageType::Bits16 => glenum::STENCIL_INDEX16,
            _ => 0,
        },
        ImageFormat::DepthStencil => match pixel {
            ImageType::Bits24 => glenum::DEPTH24_STENCIL8,
            ImageType::Float32 => glenum::DEPTH32F_STENCIL8,
            _ => 0,
        },
    };
    let alpha = format.has_alpha();
    GlFormat { internal, format: format.to_gl_format(), data_type: pixel.to_gl_type(alpha) }
}

/// The image type and format each decoded pixel layout uploads as, and an
/// `UnsupportedFormat` error for the layouts the loader does not accept.
pub open spec fn spec_classify_layout(layout: DecodedLayout) -> Result<
    (ImageType, ImageFormat),
    TextureError,
> {
    match layout {
        DecodedLayout::Rgb8 => Ok::<(ImageType, ImageFormat), TextureError>(
            (ImageType::Bits8, ImageFormat::Rgb),
        ),
        DecodedLayout::Rgba8 => Ok((ImageType::Bits8, ImageFormat::Rgba)),
        DecodedLayout::Rgb16 => Ok((ImageType::Bits16, ImageFormat::Rgb)),
        DecodedLayout::Rgba16 => Ok((ImageType::Bits16, ImageFormat::Rgba)),
        DecodedLayout::Rgb32F => Ok((ImageType::Float32, ImageFormat::Rgb)),
        DecodedLayout::Rgba32F => Ok((ImageType::Float32, ImageFormat::Rgba)),
        DecodedLayout::Luma8 => Ok((ImageType::Bits8, ImageFormat::SingleChannel)),
        DecodedLayout::LumaA8 => Ok((ImageType::Bits8, ImageFormat::DualChannel)),
        DecodedLayout::Luma16 => Ok((ImageType::Bits16, ImageFormat::SingleChannel)),
        DecodedLayout::LumaA16 => Ok((ImageType::Bits16, ImageFormat::DualChannel)),
        DecodedLayout::Other => Err(TextureError::UnsupportedFormat),
    }
}

/// The image type and format a decoded pixel layout uploads as, or an
/// `UnsupportedFormat` error for the layouts the loader does not accept.
pub fn classify_layout(layout: DecodedLayout) -> (r: Result<(ImageType, ImageFormat), TextureError>)
    ensures
        r == spec_classify_layout(layout),
{
    match layout {
        DecodedLayout::Rgb8 => Ok((ImageType::Bits8, ImageFormat::Rgb)),
        DecodedLayout::Rgba8 => Ok((ImageType::Bits8, ImageFormat::Rgba)),
        DecodedLayout::Rgb16 => Ok((ImageType::Bits16, ImageFormat::Rgb)),
        DecodedLayout::Rgba16 => Ok((ImageType::Bits16, ImageFormat::Rgba)),
        DecodedLayout::Rgb32F => Ok((ImageType::Float32, ImageFormat::Rgb)),
        DecodedLayout::Rgba32F => Ok((ImageType::Float32, ImageFormat::Rgba)),
        DecodedLayout::Luma8 => Ok((ImageType::Bits8, ImageFormat::SingleChannel)),
        DecodedLayout::LumaA8 => Ok((ImageType::Bits8, ImageFormat::DualChannel)),
        DecodedLayout::Luma16 => Ok((ImageType::Bits16, ImageFormat::SingleChannel)),
        DecodedLayout::LumaA16 => Ok((ImageType::Bits16, ImageFormat::DualChannel)),
        DecodedLayout::Other => Err(TextureError::UnsupportedFormat),
    }
}

/// Why loading an image failed.
#[derive(Debug, Clone, PartialEq, Eq)]
pub enum ImageLoadError {
    /// The bytes did not decode as any recognised image format; carries the
    /// decoder's description.
    Decoding(String),
    /// The decoded image arrived in a pixel layout the loader does not
    /// accept.
    UnsupportedLayout,
}

#[verifier::external_type_specification]
#[verifier::external_body]
pub struct ExDynamicImage(image::DynamicImage);

#[verifier::external_type_specification]
#[verifier::external_body]
pub struct ExImageError(image::ImageError);

/// Relies on `image::load_from_memory`: decodes an encoded image, guessing
/// the format from the bytes.  The decoded value is opaque here; what the
/// library reads of it comes out as plain values through the accessors
/// below.
#[verifier::external_body]
fn decode_from_memory(encoded: &[u8]) -> Result<image::DynamicImage, image::ImageError> {
    image::load_from_memory(encoded)
}

/// Relies on `image::DynamicImage::width`.
#[verifier::external_body]
fn decoded_width(img: &image::DynamicImage) -> u32 {
    img.width()
}

/// Relies on `image::DynamicImage::height`.
#[verifier::external_body]
fn decoded_height(img: &image::DynamicImage) -> u32 {
    img.height()
}

/// Relies on `image::DynamicImage::as_bytes`: the image's pixels as a
/// native-endian byte vector.
#[verifier::external_body]
fn decoded_bytes(img: &image::DynamicImage) -> Vec<u8> {
    img.as_bytes().to_vec()
}

/// Relies on `image::DynamicImage`'s variants: tells them apart, one arm
/// for each pixel layout the loader accepts.
#[verifier::external_body]
fn decoded_layout(img: &image::DynamicImage) -> DecodedLayout {
    match img {
        image::DynamicImage::ImageLuma8(_) => DecodedLayout::Luma8,
        image::DynamicImage::ImageLumaA8(_) => DecodedLayout::LumaA8,
        image::DynamicImage::ImageRgb8(_) => DecodedLayout::Rgb8,
        image::DynamicImage::ImageRgba8(_) => DecodedLayout::Rgba8,
        image::DynamicImage::ImageLuma16(_) => DecodedLayout::Luma16,
        image::DynamicImage::ImageLumaA16(_) => DecodedLayout::LumaA16,
        image::DynamicImage::ImageRgb16(_) => DecodedLayout::Rgb16,
        image::DynamicImage::ImageRgba16(_) => DecodedLayout::Rgba16,
        image::DynamicImage::ImageRgb32F(_) => DecodedLayout::Rgb32F,
        image::DynamicImage::ImageRgba32F(_) => DecodedLayout::Rgba32F,
        _ => DecodedLayout::Other,
    }
}

/// Relies on `image::ImageError`'s `Display`: the decoder's description of
/// what went wrong.
#[verifier::external_body]
fn describe_image_error(error: &image::ImageError) -> String {
    format!("{error}")
}

/// Everything the rest of the program reads of a decoded image, as plain
/// values.
#[derive(Debug, Clone, PartialEq, Eq)]
pub struct DecodedImage {
    pub width: u32,
    pub height: u32,
    pub layout: DecodedLayout,
    pub bytes: Vec<u8>,
}

/// Decodes an encoded image, the format guessed from the bytes, into plain
/// values.  What the decoder produces cannot be pinned down here — the
/// decoder stands behind trusted items — but every outcome is handed on
/// whole, and the only failure this path itself reports is a decoding
/// failure.
pub fn decode_image(encoded: &[u8]) -> (r: Result<DecodedImage, ImageLoadError>)
    ensures
        r matches Err(e) ==> e is Decoding,
{
    match decode_from_memory(encoded) {
        Ok(img) => Ok(
            DecodedImage {
                width: decoded_width(&img),
                height: decoded_height(&img),
                layout: decoded_layout(&img),
                bytes: decoded_bytes(&img),
            },
        ),
        Err(error) => Err(ImageLoadError::Decoding(describe_image_error(&error))),
    }
}

/// Decodes an encoded image and hands out its raw pixel data.
pub fn read_image_data(encoded: &[u8]) -> (r: Result<Vec<u8>, ImageLoadError>)
    ensures
        r matches Err(e) ==> e is Decoding,
{
    match decode_image(encoded) {
        Ok(decoded) => Ok(decoded.bytes),
        Err(error) => Err(error),
    }
}

/// The metadata an upload of `decoded` would carry: the size together with
/// the image type and format its layout classifies to.  Refused exactly
/// when the layout is one the loader does not accept.
pub fn image_metadata(decoded: &DecodedImage) -> (r: Result<ImageMetadata, ImageLoadError>)
    requires
        decoded.width <= i32::MAX,
        decoded.height <= i32::MAX,
    ensures
        decoded.layout is Other <==> r == Err::<ImageMetadata, ImageLoadError>(
            ImageLoadError::UnsupportedLayout,
        ),
        r matches Ok(meta) ==> {
            &&& meta.spec_width() == decoded.width
            &&& meta.spec_height() == decoded.height
            &&& Ok::<(ImageType, ImageFormat), TextureError>(
                (meta.spec_pixel(), meta.spec_format()),
            ) == spec_classify_layout(decoded.layout)
        },
{
    match classify_layout(decoded.layout) {
        Ok((pixel, format)) => Ok(
            ImageMetadata::new(decoded.width as i32, decoded.height as i32, format, pixel),
        ),
        Err(TextureError::UnsupportedFormat) => Err(ImageLoadError::UnsupportedLayout),
    }
}

/// The GL texture targets the upload layer distinguishes.
#[derive(Debug, Clone, Copy, PartialEq, Eq, Structural, PartialOrd, Ord, Hash)]
pub enum TextureTarget {
    Flat,
    Cube,
    Array,
}

impl Default for TextureTarget {
    fn default() -> (r: Self)
        ensures
            r == TextureTarget::Flat,
    {
        TextureTarget::Flat
    }
}

/// Texture filtering choices; the mipmapped choices carry whether the
/// filtering inside the mipmap is linear.
#[derive(Debug, Clone, Copy, PartialEq, Eq, Structural, PartialOrd, Ord, Hash)]
pub enum TextureFiltering {
    Linear,
    Nearest,
    NearestMipmap(bool),
    LinearMipmap(bool),
}

impl Default for TextureFiltering {
    fn default() -> (r: Self)
        ensures
            r == TextureFiltering::Nearest,
    {
        TextureFiltering::Nearest
    }
}

/// The base (non-mipmapped) filtering a filtering choice coerces to: the
/// magnification filter does not permit mipmaps.
pub open spec fn spec_base_filtering(filtering: TextureFiltering) -> TextureFiltering {
    match filtering {
        TextureFiltering::NearestMipmap(linear) => if linear {
            TextureFiltering::Linear
        } else {
            TextureFiltering::Nearest
        },
        TextureFiltering::LinearMipmap(linear) => if linear {
            TextureFiltering::Linear
        } else {
            TextureFiltering::Nearest
        },
        base => base,
    }
}

impl TextureFiltering {
    /// Coerces a mipmapped filtering choice to its base filtering, as the
    /// magnification filter requires.
    pub fn force_base_filtering(self) -> (r: TextureFiltering)
        ensures
            r == spec_base_filtering(self),
    {
        match self {
            TextureFiltering::NearestMipmap(linear) => if linear {
                TextureFiltering::Linear
            } else {
                TextureFiltering::Nearest
            },
            TextureFiltering::LinearMipmap(linear) => if linear {
                TextureFiltering::Linear
            } else {
                TextureFiltering::Nearest
            },
            base => base,
        }
    }
}

/// Texture coordinate wrapping choices.
#[derive(Debug, Clone, Copy, PartialEq, Eq, Structural, PartialOrd, Ord, Hash)]
pub enum TextureWrapping {
    Clamp,
    Repeat,
    Mirrored,
}

impl Default for TextureWrapping {
    fn default() -> (r: Self)
        ensures
            r == TextureWrapping::Clamp,
    {
        TextureWrapping::Clamp
    }
}

impl GlProperty for TextureTarget {
    fn property_enum(self) -> u32 {
        match self {
            TextureTarget::Flat => glenum::TEXTURE_2D,
            TextureTarget::Cube => glenum::TEXTURE_3D,
            TextureTarget::Array => glenum::TEXTURE_2D_ARRAY,
        }
    }
}

impl GlProperty for TextureFiltering {
    fn property_enum(self) -> u32 {
        match self {
            TextureFiltering::Linear => glenum::LINEAR,
            TextureFiltering::Nearest => glenum::NEAREST,
            TextureFiltering::NearestMipmap(true) => glenum::NEAREST_MIPMAP_LINEAR,
            TextureFiltering::NearestMipmap(false) => glenum::NEAREST_MIPMAP_NEAREST,
            TextureFiltering::LinearMipmap(true) => glenum::LINEAR_MIPMAP_LINEAR,
            TextureFiltering::LinearMipmap(false) => glenum::LINEAR_MIPMAP_NEAREST,
        }
    }
}

impl GlProperty for TextureWrapping {
    fn property_enum(self) -> u32 {
        match self {
            TextureWrapping::Clamp => glenum::CLAMP_TO_EDGE,
            TextureWrapping::Repeat => glenum::REPEAT,
            TextureWrapping::Mirrored => glenum::MIRRORED_REPEAT,
        }
    }
}

impl GlProperty for ImageFormat {
    fn property_enum(self) -> u32 {
        self.to_gl_format()
    }
}

impl GlProperty for ImageType {
    fn property_enum(self) -> u32 {
        self.to_gl_type(false)
    }
}

/// Size, format and pixel type of an uploaded image.
#[derive(Debug, Clone, Copy, PartialEq, Eq, Structural, PartialOrd, Ord, Hash)]
pub struct ImageMetadata {
    width: i32,
    height: i32,
    format: ImageFormat,
    pixel: ImageType,
}

impl ImageMetadata {
    pub closed spec fn spec_width(&self) -> i32 {
        self.width
    }

    pub closed spec fn spec_height(&self) -> i32 {
        self.height
    }

    pub closed spec fn spec_format(&self) -> ImageFormat {
        self.format
    }

    pub closed spec fn spec_pixel(&self) -> ImageType {
        self.pixel
    }

    pub fn new(width: i32, height: i32, format: ImageFormat, pixel: ImageType) -> (r: Self)
        ensures
            r.spec_width() == width,
            r.spec_height() == height,
            r.spec_format() == format,
            r.spec_pixel() == pixel,
    {
        ImageMetadata { width, height, format, pixel }
    }

    /// The larger of the two sides.
    pub fn max_size(&self) -> (r: i32)
        ensures
            r == (if self.spec_width() >= self.spec_height() {
                self.spec_width()
            } else {
                self.spec_height()
            }),
    {
        if self.width >= self.height {
            self.width
        } else {
            self.height
        }
    }

    pub fn width(&self) -> (r: i32)
        ensures
            r == self.spec_width(),
    {
        self.width
    }

    pub fn height(&self) -> (r: i32)
        ensures
            r == self.spec_height(),
    {
        self.height
    }

    pub fn format(&self) -> (r: ImageFormat)
        ensures
            r == self.spec_format(),
    {
        self.format
    }

    pub fn pixel(&self) -> (r: ImageType)
        ensures
            r == self.spec_pixel(),
    {
        self.pixel
    }
}

/// The owning record of a GL texture: the GL name the binding layer
/// allocated for it, and the image's metadata.  The binding layer
/// allocates, uploads and eventually deletes the GL resource; this record
/// is where the rest of the program keeps it.
#[derive(Debug, PartialEq, Eq, Structural, PartialOrd, Ord, Hash)]
pub struct Texture {
    gl_pointer: u32,
    pub metadata: ImageMetadata,
}

/// A non-owning reference to a GL texture: a copy of the GL name, with no
/// effect on the resource's lifetime.
#[derive(Clone, Debug, Copy, PartialEq, Eq, Structural, PartialOrd, Ord, Hash)]
pub struct TextureView {
    gl_pointer: u32,
}

impl TextureView {
    pub closed spec fn spec_id(&self) -> u32 {
        self.gl_pointer
    }
}

impl Texture {
    pub closed spec fn spec_id(&self) -> u32 {
        self.gl_pointer
    }

    pub closed spec fn spec_metadata(&self) -> ImageMetadata {
        self.metadata
    }

    pub fn new(gl_pointer: u32, metadata: ImageMetadata) -> (r: Self)
        ensures
            r.spec_id() == gl_pointer,
            r.spec_metadata() == metadata,
    {
        Texture { gl_pointer, metadata }
    }

    /// A view of this texture: the same GL name, without ownership.
    pub fn view(&self) -> (r: TextureView)
        ensures
            r.spec_id() == self.spec_id(),
    {
        TextureView { gl_pointer: self.gl_pointer }
    }
}

impl GpuResource for Texture {
    fn resource_id(&self) -> u32 {
        self.gl_pointer
    }
}

impl GpuResource for TextureView {
    fn resource_id(&self) -> u32 {
        self.gl_pointer
    }
}

/// Persistent storage for texture records, addressed by index.
#[derive(Debug)]
pub struct Textures {
    inner: Vec<Texture>,
}

impl Textures {
    pub closed spec fn textures(&self) -> Seq<Texture> {
        self.inner@
    }

    pub fn new() -> (r: Self)
        ensures
            r.textures().len() == 0,
    {
        Textures { inner: Vec::new() }
    }

    pub fn with_capacity(capacity: usize) -> (r: Self)
        ensures
            r.textures().len() == 0,
    {
        Textures { inner: Vec::with_capacity(capacity) }
    }

    pub fn from(textures: Vec<Texture>) -> (r: Self)
        ensures
            r.textures() == textures@,
    {
        Textures { inner: textures }
    }

    /// The owning record at `index`.
    pub fn owner(&self, index: usize) -> (r: &Texture)
        requires
            index < self.textures().len(),
        ensures
            *r == self.textures()[index as int],
    {
        &self.inner[index]
    }

    /// Removes and returns the record at `index`; the records after it move
    /// down by one.
    pub fn delete(&mut self, index: usize) -> (r: Texture)
        requires
            index < old(self).textures().len(),
        ensures
            r == old(self).textures()[index as int],
            final(self).textures() == old(self).textures().remove(index as int),
    {
        self.inner.remove(index)
    }

    /// A view of the record at `index`.
    pub fn view(&self, index: usize) -> (r: TextureView)
        requires
            index < self.textures().len(),
        ensures
            r.spec_id() == self.textures()[index as int].spec_id(),
    {
        self.inner[index].view()
    }

    /// Stores a record and returns its index.
    pub fn put(&mut self, texture: Texture) -> (r: usize)
        ensures
            final(self).textures() == old(self).textures().push(texture),
            r == old(self).textures().len(),
    {
        let i = self.inner.len();
        self.inner.push(texture);
        i
    }

    /// Stores a record and returns a view of it.
    pub fn put_and_view(&mut self, texture: Texture) -> (r: TextureView)
        ensures
            final(self).textures() == old(self).textures().push(texture),
            r.spec_id() == texture.spec_id(),
    {
        let view = texture.view();
        self.inner.push(texture);
        view
    }
}

} // verus!
