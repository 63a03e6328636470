//! Formats and component types of the pixels handed to an image upload.

use vstd::prelude::*;
use crate::native;

verus! {

/// Which components a pixel of the source data holds, and in what order.
#[allow(non_camel_case_types)]
#[derive(Clone, Copy, Debug, PartialEq, Eq, Structural)]
pub enum PixelFormat {
    RED,
    RG,
    RGB,
    BGR,
    RGBA,
    BGRA,
}

impl PixelFormat {
    /// The native constant of each format.
    pub open spec fn glenum(&self) -> u32 {
        match self {
            PixelFormat::RED => native::RED,
            PixelFormat::RG => native::RG,
            PixelFormat::RGB => native::RGB,
            PixelFormat::BGR => native::BGR,
            PixelFormat::RGBA => native::RGBA,
            PixelFormat::BGRA => native::BGRA,
        }
    }

    pub fn to_glenum(&self) -> (native: u32)
        ensures
            native == self.glenum(),
    {
        match self {
            PixelFormat::RED => native::RED,
            PixelFormat::RG => native::RG,
            PixelFormat::RGB => native::RGB,
            PixelFormat::BGR => native::BGR,
            PixelFormat::RGBA => native::RGBA,
            PixelFormat::BGRA => native::BGRA,
        }
    }
}

/// How the components of one pixel of the source data are stored.
#[allow(non_camel_case_types)]
#[derive(Clone, Copy, Debug, PartialEq, Eq, Structural)]
pub enum PixelType {
    UNSIGNED_BYTE,
    BYTE,
    UNSIGNED_SHORT,
    SHORT,
    UNSIGNED_INT,
    INT,
    FLOAT,
    UNSIGNED_BYTE_3_3_2,
    UNSIGNED_BYTE_2_3_3_REV,
    UNSIGNED_SHORT_5_6_5,
    UNSIGNED_SHORT_5_6_5_REV,
    UNSIGNED_SHORT_4_4_4_4,
    UNSIGNED_SHORT_4_4_4_4_REV,
    UNSIGNED_SHORT_5_5_5_1,
    UNSIGNED_SHORT_1_5_5_5_REV,
    UNSIGNED_INT_8_8_8_8,
    UNSIGNED_INT_8_8_8_8_REV,
    UNSIGNED_INT_10_10_10_2,
    UNSIGNED_INT_2_10_10_10_REV,
}

impl PixelType {
    /// The native constant of each component type.
    pub open spec fn glenum(&self) -> u32 {
        match self {
            PixelType::UNSIGNED_BYTE => native::UNSIGNED_BYTE,
            PixelType::BYTE => native::BYTE,
            PixelType::UNSIGNED_SHORT => native::UNSIGNED_SHORT,
            PixelType::SHORT => native::SHORT,
            PixelType::UNSIGNED_INT => native::UNSIGNED_INT,
            PixelType::INT => native::INT,
            PixelType::FLOAT => native::FLOAT,
            PixelType::UNSIGNED_BYTE_3_3_2 => native::UNSIGNED_BYTE_3_3_2,
            PixelType::UNSIGNED_BYTE_2_3_3_REV => native::UNSIGNED_BYTE_2_3_3_REV,
            PixelType::UNSIGNED_SHORT_5_6_5 => native::UNSIGNED_SHORT_5_6_5,
            PixelType::UNSIGNED_SHORT_5_6_5_REV => native::UNSIGNED_SHORT_5_6_5_REV,
            PixelType::UNSIGNED_SHORT_4_4_4_4 => native::UNSIGNED_SHORT_4_4_4_4,
            PixelType::UNSIGNED_SHORT_4_4_4_4_REV => native::UNSIGNED_SHORT_4_4_4_4_REV,
            PixelType::UNSIGNED_SHORT_5_5_5_1 => native::UNSIGNED_SHORT_5_5_5_1,
            PixelType::UNSIGNED_SHORT_1_5_5_5_REV => native::UNSIGNED_SHORT_1_5_5_5_REV,
            PixelType::UNSIGNED_INT_8_8_8_8 => native::UNSIGNED_INT_8_8_8_8,
            PixelType::UNSIGNED_INT_8_8_8_8_REV => native::UNSIGNED_INT_8_8_8_8_REV,
            PixelType::UNSIGNED_INT_10_10_10_2 => native::UNSIGNED_INT_10_10_10_2,
            PixelType::UNSIGNED_INT_2_10_10_10_REV => native::UNSIGNED_INT_2_10_10_10_REV,
        }
    }

    pub fn to_glenum(&self) -> (native: u32)
        ensures
            native == self.glenum(),
    {
        match self {
            PixelType::UNSIGNED_BYTE => native::UNSIGNED_BYTE,
            PixelType::BYTE => native::BYTE,
            PixelType::UNSIGNED_SHORT => native::UNSIGNED_SHORT,
            PixelType::SHORT => native::SHORT,
            PixelType::UNSIGNED_INT => native::UNSIGNED_INT,
            PixelType::INT => native::INT,
            PixelType::FLOAT => native::FLOAT,
            PixelType::UNSIGNED_BYTE_3_3_2 => native::UNSIGNED_BYTE_3_3_2,
            PixelType::UNSIGNED_BYTE_2_3_3_REV => native::UNSIGNED_BYTE_2_3_3_REV,
            PixelType::UNSIGNED_SHORT_5_6_5 => native::UNSIGNED_SHORT_5_6_5,
            PixelType::UNSIGNED_SHORT_5_6_5_REV => native::UNSIGNED_SHORT_5_6_5_REV,
            PixelType::UNSIGNED_SHORT_4_4_4_4 => native::UNSIGNED_SHORT_4_4_4_4,
            PixelType::UNSIGNED_SHORT_4_4_4_4_REV => native::UNSIGNED_SHORT_4_4_4_4_REV,
            PixelType::UNSIGNED_SHORT_5_5_5_1 => native::UNSIGNED_SHORT_5_5_5_1,
            PixelType::UNSIGNED_SHORT_1_5_5_5_REV => native::UNSIGNED_SHORT_1_5_5_5_REV,
            PixelType::UNSIGNED_INT_8_8_8_8 => native::UNSIGNED_INT_8_8_8_8,
            PixelType::UNSIGNED_INT_8_8_8_8_REV => native::UNSIGNED_INT_8_8_8_8_REV,
            PixelType::UNSIGNED_INT_10_10_10_2 => native::UNSIGNED_INT_10_10_10_2,
            PixelType::UNSIGNED_INT_2_10_10_10_REV => native::UNSIGNED_INT_2_10_10_10_REV,
        }
    }
}

} // verus!
