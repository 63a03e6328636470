//! The native constants that cross the driver boundary, each with the value
//! that the OpenGL registry assigns to it.

use vstd::prelude::*;

verus! {

/// The boolean "true" of the driver, as an integer status or flag.
pub const TRUE: u8 = 1;

/// The boolean "false" of the driver.
pub const FALSE: u8 = 0;

// Shader stages and the status queries of shaders and programs.
pub const FRAGMENT_SHADER: u32 = 0x8B30;

pub const VERTEX_SHADER: u32 = 0x8B31;

pub const COMPILE_STATUS: u32 = 0x8B81;

pub const LINK_STATUS: u32 = 0x8B82;

pub const INFO_LOG_LENGTH: u32 = 0x8B84;

// Buffer binding points and usage hints.
pub const ARRAY_BUFFER: u32 = 0x8892;

pub const ELEMENT_ARRAY_BUFFER: u32 = 0x8893;

pub const STREAM_DRAW: u32 = 0x88E0;

pub const STATIC_DRAW: u32 = 0x88E4;

pub const DYNAMIC_DRAW: u32 = 0x88E8;

// Primitive topologies.
pub const POINTS: u32 = 0x0000;

pub const LINES: u32 = 0x0001;

pub const LINE_LOOP: u32 = 0x0002;

pub const LINE_STRIP: u32 = 0x0003;

pub const TRIANGLES: u32 = 0x0004;

pub const TRIANGLE_STRIP: u32 = 0x0005;

pub const TRIANGLE_FAN: u32 = 0x0006;

// Query targets and the parameters of a query object.
pub const SAMPLES_PASSED: u32 = 0x8914;

pub const QUERY_RESULT: u32 = 0x8866;

pub const QUERY_RESULT_AVAILABLE: u32 = 0x8867;

// Texture targets.
pub const TEXTURE_1D: u32 = 0x0DE0;

pub const TEXTURE_2D: u32 = 0x0DE1;

pub const TEXTURE_3D: u32 = 0x806F;

pub const TEXTURE_RECTANGLE: u32 = 0x84F5;

pub const TEXTURE_CUBE_MAP: u32 = 0x8513;

pub const TEXTURE_1D_ARRAY: u32 = 0x8C18;

pub const TEXTURE_2D_ARRAY: u32 = 0x8C1A;

pub const TEXTURE_BUFFER: u32 = 0x8C2A;

/// The first texture unit; unit `n` is `TEXTURE0 + n`.
pub const TEXTURE0: u32 = 0x84C0;

// Texture parameters.
pub const TEXTURE_BORDER_COLOR: u32 = 0x1004;

pub const TEXTURE_MAG_FILTER: u32 = 0x2800;

pub const TEXTURE_MIN_FILTER: u32 = 0x2801;

pub const TEXTURE_WRAP_S: u32 = 0x2802;

pub const TEXTURE_WRAP_T: u32 = 0x2803;

pub const TEXTURE_WRAP_R: u32 = 0x8072;

// Wrap modes.
pub const REPEAT: u32 = 0x2901;

pub const CLAMP_TO_BORDER: u32 = 0x812D;

pub const CLAMP_TO_EDGE: u32 = 0x812F;

pub const MIRRORED_REPEAT: u32 = 0x8370;

// Filter methods.
pub const NEAREST: u32 = 0x2600;

pub const LINEAR: u32 = 0x2601;

pub const NEAREST_MIPMAP_NEAREST: u32 = 0x2700;

pub const LINEAR_MIPMAP_NEAREST: u32 = 0x2701;

pub const NEAREST_MIPMAP_LINEAR: u32 = 0x2702;

pub const LINEAR_MIPMAP_LINEAR: u32 = 0x2703;

// Pixel formats.
pub const RED: u32 = 0x1903;

pub const RGB: u32 = 0x1907;

pub const RGBA: u32 = 0x1908;

pub const BGR: u32 = 0x80E0;

pub const BGRA: u32 = 0x80E1;

pub const RG: u32 = 0x8227;

// Component types of pixels and vertex attributes.
pub const BYTE: u32 = 0x1400;

pub const UNSIGNED_BYTE: u32 = 0x1401;

pub const SHORT: u32 = 0x1402;

pub const UNSIGNED_SHORT: u32 = 0x1403;

pub const INT: u32 = 0x1404;

pub const UNSIGNED_INT: u32 = 0x1405;

pub const FLOAT: u32 = 0x1406;

pub const DOUBLE: u32 = 0x140A;

pub const UNSIGNED_BYTE_3_3_2: u32 = 0x8032;

pub const UNSIGNED_SHORT_4_4_4_4: u32 = 0x8033;

pub const UNSIGNED_SHORT_5_5_5_1: u32 = 0x8034;

pub const UNSIGNED_INT_8_8_8_8: u32 = 0x8035;

pub const UNSIGNED_INT_10_10_10_2: u32 = 0x8036;

pub const UNSIGNED_BYTE_2_3_3_REV: u32 = 0x8362;

pub const UNSIGNED_SHORT_5_6_5: u32 = 0x8363;

pub const UNSIGNED_SHORT_5_6_5_REV: u32 = 0x8364;

pub const UNSIGNED_SHORT_4_4_4_4_REV: u32 = 0x8365;

pub const UNSIGNED_SHORT_1_5_5_5_REV: u32 = 0x8366;

pub const UNSIGNED_INT_8_8_8_8_REV: u32 = 0x8367;

pub const UNSIGNED_INT_2_10_10_10_REV: u32 = 0x8368;

} // verus!
