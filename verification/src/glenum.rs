//! OpenGL enumerant values used by the texture layer, as fixed in the
//! Khronos OpenGL registry.  They are plain numbers of the GL ABI; the
//! texture functions state which one they return for which input.

use vstd::prelude::*;

verus! {

// Texture targets
pub const TEXTURE_2D: u32 = 0x0DE1;

pub const TEXTURE_3D: u32 = 0x806F;

pub const TEXTURE_2D_ARRAY: u32 = 0x8C1A;

// Filtering
pub const NEAREST: u32 = 0x2600;

pub const LINEAR: u32 = 0x2601;

pub const NEAREST_MIPMAP_NEAREST: u32 = 0x2700;

pub const LINEAR_MIPMAP_NEAREST: u32 = 0x2701;

pub const NEAREST_MIPMAP_LINEAR: u32 = 0x2702;

pub const LINEAR_MIPMAP_LINEAR: u32 = 0x2703;

// Wrapping
pub const CLAMP_TO_EDGE: u32 = 0x812F;

pub const REPEAT: u32 = 0x2901;

pub const MIRRORED_REPEAT: u32 = 0x8370;

// Pixel formats
pub const RED: u32 = 0x1903;

pub const RG: u32 = 0x8227;

pub const RGB: u32 = 0x1907;

pub const RGBA: u32 = 0x1908;

pub const BGR: u32 = 0x80E0;

pub const BGRA: u32 = 0x80E1;

pub const RED_INTEGER: u32 = 0x8D94;

pub const RG_INTEGER: u32 = 0x8228;

pub const RGB_INTEGER: u32 = 0x8D98;

pub const RGBA_INTEGER: u32 = 0x8D99;

pub const BGR_INTEGER: u32 = 0x8D9A;

pub const BGRA_INTEGER: u32 = 0x8D9B;

pub const DEPTH_COMPONENT: u32 = 0x1902;

pub const STENCIL_INDEX: u32 = 0x1901;

pub const DEPTH_STENCIL: u32 = 0x84F9;

// Pixel data types
pub const UNSIGNED_BYTE: u32 = 0x1401;

pub const UNSIGNED_SHORT: u32 = 0x1403;

pub const UNSIGNED_INT: u32 = 0x1405;

pub const INT: u32 = 0x1404;

pub const FLOAT: u32 = 0x1406;

pub const UNSIGNED_BYTE_3_3_2: u32 = 0x8032;

pub const UNSIGNED_SHORT_5_5_5_1: u32 = 0x8034;

pub const UNSIGNED_INT_10_10_10_2: u32 = 0x8036;

pub const UNSIGNED_INT_5_9_9_9_REV: u32 = 0x8C3E;

// Sized internal formats
pub const R8: u32 = 0x8229;

pub const R16: u32 = 0x822A;

pub const RG8: u32 = 0x822B;

pub const RG16: u32 = 0x822C;

pub const R16F: u32 = 0x822D;

pub const R32F: u32 = 0x822E;

pub const RG16F: u32 = 0x822F;

pub const RG32F: u32 = 0x8230;

pub const R8I: u32 = 0x8231;

pub const R8UI: u32 = 0x8232;

pub const R16I: u32 = 0x8233;

pub const R16UI: u32 = 0x8234;

pub const R32I: u32 = 0x8235;

pub const R32UI: u32 = 0x8236;

pub const RG8I: u32 = 0x8237;

pub const RG8UI: u32 = 0x8238;

pub const RG16I: u32 = 0x8239;

pub const RG16UI: u32 = 0x823A;

pub const RG32I: u32 = 0x823B;

pub const RG32UI: u32 = 0x823C;

pub const R8_SNORM: u32 = 0x8F94;

pub const RG8_SNORM: u32 = 0x8F95;

pub const RGB8_SNORM: u32 = 0x8F96;

pub const RGBA8_SNORM: u32 = 0x8F97;

pub const R16_SNORM: u32 = 0x8F98;

pub const RG16_SNORM: u32 = 0x8F99;

pub const RGB16_SNORM: u32 = 0x8F9A;

pub const RGBA16_SNORM: u32 = 0x8F9B;

pub const R3_G3_B2: u32 = 0x2A10;

pub const RGB4: u32 = 0x804F;

pub const RGB5: u32 = 0x8050;

pub const RGB8: u32 = 0x8051;

pub const RGB10: u32 = 0x8052;

pub const RGB12: u32 = 0x8053;

pub const RGB16: u32 = 0x8054;

pub const RGBA2: u32 = 0x8055;

pub const RGBA4: u32 = 0x8056;

pub const RGB5_A1: u32 = 0x8057;

pub const RGBA8: u32 = 0x8058;

pub const RGB10_A2: u32 = 0x8059;

pub const RGBA12: u32 = 0x805A;

pub const RGBA16: u32 = 0x805B;

pub const SRGB8: u32 = 0x8C41;

pub const SRGB8_ALPHA8: u32 = 0x8C43;

pub const RGB16F: u32 = 0x881B;

pub const RGB32F: u32 = 0x8815;

pub const RGBA16F: u32 = 0x881A;

pub const RGBA32F: u32 = 0x8814;

pub const R11F_G11F_B10F: u32 = 0x8C3A;

pub const RGB9_E5: u32 = 0x8C3D;

pub const RGB8I: u32 = 0x8D8F;

pub const RGB16I: u32 = 0x8D89;

pub const RGB32I: u32 = 0x8D83;

pub const RGB8UI: u32 = 0x8D7D;

pub const RGB16UI: u32 = 0x8D77;

pub const RGB32UI: u32 = 0x8D71;

pub const RGBA8I: u32 = 0x8D8E;

pub const RGBA16I: u32 = 0x8D88;

pub const RGBA32I: u32 = 0x8D82;

pub const RGBA8UI: u32 = 0x8D7C;

pub const RGBA16UI: u32 = 0x8D76;

pub const RGBA32UI: u32 = 0x8D70;

pub const DEPTH_COMPONENT16: u32 = 0x81A5;

pub const DEPTH_COMPONENT24: u32 = 0x81A6;

pub const DEPTH_COMPONENT32: u32 = 0x81A7;

pub const DEPTH_COMPONENT32F: u32 = 0x8CAC;

pub const STENCIL_INDEX1: u32 = 0x8D46;

pub const STENCIL_INDEX4: u32 = 0x8D47;

pub const STENCIL_INDEX8: u32 = 0x8D48;

pub const STENCIL_INDEX16: u32 = 0x8D49;

pub const DEPTH24_STENCIL8: u32 = 0x88F0;

pub const DEPTH32F_STENCIL8: u32 = 0x8CAD;

} // verus!
