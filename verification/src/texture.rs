//! Texture objects, their sampling state and the upload of images.

use vstd::prelude::*;
use crate::call::Call;
use crate::native;
use crate::texture::pixel::{PixelFormat, PixelType};

pub mod pixel;

verus! {

/// The class of a texture: how many dimensions its images have and how they
/// are laid out.
#[derive(Clone, Copy, Debug, PartialEq, Eq, Structural)]
pub enum TextureTarget {
    Texture1D,
    Texture2D,
    Texture3D,
    Texture1DArray,
    Texture2DArray,
    TextureRectangle,
    /// Cube maps can be created and configured; no image can be uploaded to
    /// one through `load_data`.
    TextureCubeMap,
    TextureBuffer,
}

impl TextureTarget {
    /// The native constant of each target.
    pub open spec fn glenum(&self) -> u32 {
        match self {
            TextureTarget::Texture1D => native::TEXTURE_1D,
            TextureTarget::Texture2D => native::TEXTURE_2D,
            TextureTarget::Texture3D => native::TEXTURE_3D,
            TextureTarget::Texture1DArray => native::TEXTURE_1D_ARRAY,
            TextureTarget::Texture2DArray => native::TEXTURE_2D_ARRAY,
            TextureTarget::TextureRectangle => native::TEXTURE_RECTANGLE,
            TextureTarget::TextureCubeMap => native::TEXTURE_CUBE_MAP,
            TextureTarget::TextureBuffer => native::TEXTURE_BUFFER,
        }
    }

    pub fn to_glenum(&self) -> (native: u32)
        ensures
            native == self.glenum(),
    {
        match self {
            TextureTarget::Texture1D => native::TEXTURE_1D,
            TextureTarget::Texture2D => native::TEXTURE_2D,
            TextureTarget::Texture3D => native::TEXTURE_3D,
            TextureTarget::Texture1DArray => native::TEXTURE_1D_ARRAY,
            TextureTarget::Texture2DArray => native::TEXTURE_2D_ARRAY,
            TextureTarget::TextureRectangle => native::TEXTURE_RECTANGLE,
            TextureTarget::TextureCubeMap => native::TEXTURE_CUBE_MAP,
            TextureTarget::TextureBuffer => native::TEXTURE_BUFFER,
        }
    }
}

/// What sampling does outside the unit square.
#[derive(Clone, Copy, Debug, PartialEq, Eq, Structural)]
pub enum WrapMode {
    ClampToEdge,
    ClampToBorder,
    Repeat,
    MirroredRepeat,
}

impl WrapMode {
    /// The native constant of each wrap mode.
    pub open spec fn glenum(&self) -> u32 {
        match self {
            WrapMode::ClampToEdge => native::CLAMP_TO_EDGE,
            WrapMode::ClampToBorder => native::CLAMP_TO_BORDER,
            WrapMode::Repeat => native::REPEAT,
            WrapMode::MirroredRepeat => native::MIRRORED_REPEAT,
        }
    }

    pub fn to_glenum(&self) -> (native: u32)
        ensures
            native == self.glenum(),
    {
        match self {
            WrapMode::ClampToEdge => native::CLAMP_TO_EDGE,
            WrapMode::ClampToBorder => native::CLAMP_TO_BORDER,
            WrapMode::Repeat => native::REPEAT,
            WrapMode::MirroredRepeat => native::MIRRORED_REPEAT,
        }
    }
}

/// How a texel is chosen when the texture is minified or magnified.
#[derive(Clone, Copy, Debug, PartialEq, Eq, Structural)]
pub enum FilterMethod {
    Nearest,
    Linear,
    NearestMipmapNearest,
    LinearMipmapNearest,
    NearestMipmapLinear,
    LinearMipmapLinear,
}

impl FilterMethod {
    /// The native constant of each filter method.
    pub open spec fn glenum(&self) -> u32 {
        match self {
            FilterMethod::Nearest => native::NEAREST,
            FilterMethod::Linear => native::LINEAR,
            FilterMethod::NearestMipmapNearest => native::NEAREST_MIPMAP_NEAREST,
            FilterMethod::LinearMipmapNearest => native::LINEAR_MIPMAP_NEAREST,
            FilterMethod::NearestMipmapLinear => native::NEAREST_MIPMAP_LINEAR,
            FilterMethod::LinearMipmapLinear => native::LINEAR_MIPMAP_LINEAR,
        }
    }

    pub fn to_glenum(&self) -> (native: u32)
        ensures
            native == self.glenum(),
    {
        match self {
            FilterMethod::Nearest => native::NEAREST,
            FilterMethod::Linear => native::LINEAR,
            FilterMethod::NearestMipmapNearest => native::NEAREST_MIPMAP_NEAREST,
            FilterMethod::LinearMipmapNearest => native::LINEAR_MIPMAP_NEAREST,
            FilterMethod::NearestMipmapLinear => native::NEAREST_MIPMAP_LINEAR,
            FilterMethod::LinearMipmapLinear => native::LINEAR_MIPMAP_LINEAR,
        }
    }
}

/// A dimension of an image.
#[derive(Clone, Copy, Debug, PartialEq, Eq, Structural)]
pub enum Dimension {
    Width,
    Height,
}

/// An upload of `arity` dimensions lacks the dimension `lacks`.
#[derive(Clone, Copy, Debug, PartialEq, Eq, Structural)]
pub struct MissingDimension {
    pub arity: u8,
    pub lacks: Dimension,
}

/// The size of an image, by the number of its dimensions.
#[derive(Clone, Copy, Debug, PartialEq, Eq, Structural)]
pub enum Extent {
    One { width: i32 },
    Two { width: i32, height: i32 },
    Three { width: i32, height: i32, depth: i32 },
}

/// Everything an image upload takes but the pixels.
///
/// Values are built by chaining setters, each of which hands back the value
/// with one field replaced:
///
/// ```text
/// ImageInfo::new().width(4).level(3).pixel_type(PixelType::BYTE)
/// ```
///
/// Internal formats are many, so they stay plain integers. How many
/// dimensions the image has follows from which of `width`, `height` and
/// `depth` were set.
#[derive(Clone, Copy, Debug, PartialEq, Eq)]
pub struct ImageInfo {
    pub level: i32,
    pub internal_format: i32,
    pub width: Option<i32>,
    pub height: Option<i32>,
    pub depth: Option<i32>,
    pub format: PixelFormat,
    pub ptype: PixelType,
}

impl ImageInfo {
    /// Level 0, no dimension set, four-component storage, and source pixels
    /// of four components in single precision.
    pub fn new() -> (info: ImageInfo)
        ensures
            info == (ImageInfo {
                level: 0,
                internal_format: 0x1908,
                width: None,
                height: None,
                depth: None,
                format: PixelFormat::RGBA,
                ptype: PixelType::FLOAT,
            }),
    {
        ImageInfo {
            level: 0,
            internal_format: 0x1908,
            width: None,
            height: None,
            depth: None,
            format: PixelFormat::RGBA,
            ptype: PixelType::FLOAT,
        }
    }

    /// Set the mipmap level.
    pub fn level(self, level: i32) -> (info: ImageInfo)
        ensures
            info == (ImageInfo { level, ..self }),
    {
        ImageInfo { level, ..self }
    }

    /// Set the width. An image of one dimension has a width only.
    pub fn width(self, s: i32) -> (info: ImageInfo)
        ensures
            info == (ImageInfo { width: Some(s), ..self }),
    {
        ImageInfo { width: Some(s), ..self }
    }

    /// Set the height. Images of two and of three dimensions need one.
    pub fn height(self, s: i32) -> (info: ImageInfo)
        ensures
            info == (ImageInfo { height: Some(s), ..self }),
    {
        ImageInfo { height: Some(s), ..self }
    }

    /// Set the depth. Only an image of three dimensions has one.
    pub fn depth(self, s: i32) -> (info: ImageInfo)
        ensures
            info == (ImageInfo { depth: Some(s), ..self }),
    {
        ImageInfo { depth: Some(s), ..self }
    }

    /// Set the format of the source pixels.
    pub fn pixel_format(self, format: PixelFormat) -> (info: ImageInfo)
        ensures
            info == (ImageInfo { format, ..self }),
    {
        ImageInfo { format, ..self }
    }

    /// Set the component type of the source pixels.
    pub fn pixel_type(self, ptype: PixelType) -> (info: ImageInfo)
        ensures
            info == (ImageInfo { ptype, ..self }),
    {
        ImageInfo { ptype, ..self }
    }

    /// Set the internal format.
    pub fn internal_format(self, ifmt: i32) -> (info: ImageInfo)
        ensures
            info == (ImageInfo { internal_format: ifmt, ..self }),
    {
        ImageInfo { internal_format: ifmt, ..self }
    }

    /// The number of dimensions of the upload that this value asks for:
    /// three where a depth is set, else two where a height is set, else one.
    pub open spec fn arity(&self) -> u8 {
        if self.depth is Some {
            3
        } else if self.height is Some {
            2
        } else {
            1
        }
    }

    /// Whether every dimension that the arity needs is set: always the
    /// width, and the height where there is a depth.
    pub open spec fn complete(&self) -> bool {
        &&& self.width is Some
        &&& self.depth is Some ==> self.height is Some
    }

    /// The size of the image, in as many dimensions as `arity` says.
    pub open spec fn size(&self) -> Extent
        recommends
            self.complete(),
    {
        if self.arity() == 3 {
            Extent::Three {
                width: self.width->0,
                height: self.height->0,
                depth: self.depth->0,
            }
        } else if self.arity() == 2 {
            Extent::Two { width: self.width->0, height: self.height->0 }
        } else {
            Extent::One { width: self.width->0 }
        }
    }

    /// The size of the image, or the first dimension that its arity needs
    /// and that was never set, the width before the height.
    pub fn extent(&self) -> (found: Result<Extent, MissingDimension>)
        ensures
            self.complete() ==> found == Ok::<Extent, MissingDimension>(self.size()),
            !self.complete() ==> found == Err::<Extent, MissingDimension>(
                MissingDimension {
                    arity: self.arity(),
                    lacks: if self.width is None {
                        Dimension::Width
                    } else {
                        Dimension::Height
                    },
                },
            ),
    {
        match self.depth {
            None => match self.height {
                None => match self.width {
                    Some(width) => Ok(Extent::One { width }),
                    None => Err(MissingDimension { arity: 1, lacks: Dimension::Width }),
                },
                Some(height) => match self.width {
                    Some(width) => Ok(Extent::Two { width, height }),
                    None => Err(MissingDimension { arity: 2, lacks: Dimension::Width }),
                },
            },
            Some(depth) => match self.width {
                None => Err(MissingDimension { arity: 3, lacks: Dimension::Width }),
                Some(width) => match self.height {
                    Some(height) => Ok(Extent::Three { width, height, depth }),
                    None => Err(MissingDimension { arity: 3, lacks: Dimension::Height }),
                },
            },
        }
    }
}

/// A texture object.
pub struct Texture {
    name: u32,
    target: u32,
}

impl Texture {
    /// The name that the driver gave the object.
    pub closed spec fn id(&self) -> u32 {
        self.name
    }

    /// The native constant of the target that the texture was made for.
    pub closed spec fn target(&self) -> u32 {
        self.target
    }

    /// The call that binds the texture to its target.
    pub open spec fn binding(&self) -> Call<'static> {
        Call::BindTexture { target: self.target(), texture: self.id() }
    }

    /// Binding the texture, then setting its integer parameter `pname`.
    pub open spec fn setting(&self, pname: u32, param: i32) -> Seq<Call<'static>> {
        seq![self.binding(), Call::TexParameteri { target: self.target(), pname, param }]
    }

    /// The image upload that `info` describes, on this texture's target.
    pub open spec fn upload(&self, info: ImageInfo) -> Call<'static>
        recommends
            info.complete(),
    {
        match info.size() {
            Extent::One { width } => Call::TexImage1D {
                target: self.target(),
                level: info.level,
                internal_format: info.internal_format,
                width,
                border: 0,
                format: info.format.glenum(),
                kind: info.ptype.glenum(),
            },
            Extent::Two { width, height } => Call::TexImage2D {
                target: self.target(),
                level: info.level,
                internal_format: info.internal_format,
                width,
                height,
                border: 0,
                format: info.format.glenum(),
                kind: info.ptype.glenum(),
            },
            Extent::Three { width, height, depth } => Call::TexImage3D {
                target: self.target(),
                level: info.level,
                internal_format: info.internal_format,
                width,
                height,
                depth,
                border: 0,
                format: info.format.glenum(),
                kind: info.ptype.glenum(),
            },
        }
    }

    /// Wraps `name`, which the driver generated in answer to
    /// `Call::GenTextures`, as a texture of class `target`. Nothing is bound.
    pub fn new(name: u32, target: TextureTarget) -> (texture: Texture)
        ensures
            texture.id() == name,
            texture.target() == target.glenum(),
    {
        Texture { name, target: target.to_glenum() }
    }

    pub fn bind(&self) -> (call: Call<'static>)
        ensures
            call == self.binding(),
    {
        Call::BindTexture { target: self.target, texture: self.name }
    }

    fn set_parameter(&self, pname: u32, param: i32) -> (calls: Vec<Call<'static>>)
        ensures
            calls@ == self.setting(pname, param),
    {
        vec![self.bind(), Call::TexParameteri { target: self.target, pname, param }]
    }

    /// Sets the wrap mode of all three axes, one after the other.
    pub fn wrap(&self, w: WrapMode) -> (calls: Vec<Call<'static>>)
        ensures
            calls@ == self.setting(native::TEXTURE_WRAP_S, w.glenum() as i32)
                + self.setting(native::TEXTURE_WRAP_T, w.glenum() as i32)
                + self.setting(native::TEXTURE_WRAP_R, w.glenum() as i32),
    {
        let mut calls = self.wrap_s(w);
        let mut t = self.wrap_t(w);
        let mut r = self.wrap_r(w);
        calls.append(&mut t);
        calls.append(&mut r);
        calls
    }

    pub fn wrap_s(&self, w: WrapMode) -> (calls: Vec<Call<'static>>)
        ensures
            calls@ == self.setting(native::TEXTURE_WRAP_S, w.glenum() as i32),
    {
        self.set_parameter(native::TEXTURE_WRAP_S, w.to_glenum() as i32)
    }

    pub fn wrap_t(&self, w: WrapMode) -> (calls: Vec<Call<'static>>)
        ensures
            calls@ == self.setting(native::TEXTURE_WRAP_T, w.glenum() as i32),
    {
        self.set_parameter(native::TEXTURE_WRAP_T, w.to_glenum() as i32)
    }

    pub fn wrap_r(&self, w: WrapMode) -> (calls: Vec<Call<'static>>)
        ensures
            calls@ == self.setting(native::TEXTURE_WRAP_R, w.glenum() as i32),
    {
        self.set_parameter(native::TEXTURE_WRAP_R, w.to_glenum() as i32)
    }

    /// Sets the color that `ClampToBorder` samples outside the image: red,
    /// green, blue and alpha, each of single precision and given by its bit
    /// pattern.
    pub fn border_color(&self, rgba: [u32; 4]) -> (calls: Vec<Call<'static>>)
        ensures
            calls@ == seq![
                self.binding(),
                Call::TexParameterfv {
                    target: self.target(),
                    pname: native::TEXTURE_BORDER_COLOR,
                    params: rgba,
                },
            ],
    {
        vec![
            self.bind(),
            Call::TexParameterfv {
                target: self.target,
                pname: native::TEXTURE_BORDER_COLOR,
                params: rgba,
            },
        ]
    }

    /// Sets the minifying filter, then the magnifying one.
    pub fn filter(&self, fm: FilterMethod) -> (calls: Vec<Call<'static>>)
        ensures
            calls@ == self.setting(native::TEXTURE_MIN_FILTER, fm.glenum() as i32)
                + self.setting(native::TEXTURE_MAG_FILTER, fm.glenum() as i32),
    {
        let mut calls = self.min_filter(fm);
        let mut mag = self.mag_filter(fm);
        calls.append(&mut mag);
        calls
    }

    pub fn min_filter(&self, fm: FilterMethod) -> (calls: Vec<Call<'static>>)
        ensures
            calls@ == self.setting(native::TEXTURE_MIN_FILTER, fm.glenum() as i32),
    {
        self.set_parameter(native::TEXTURE_MIN_FILTER, fm.to_glenum() as i32)
    }

    pub fn mag_filter(&self, fm: FilterMethod) -> (calls: Vec<Call<'static>>)
        ensures
            calls@ == self.setting(native::TEXTURE_MAG_FILTER, fm.glenum() as i32),
    {
        self.set_parameter(native::TEXTURE_MAG_FILTER, fm.to_glenum() as i32)
    }

    /// Builds the chain of mipmaps from level 0 of whatever texture is bound
    /// to this texture's target.
    ///
    /// SAFETY NOTE: an image must have been uploaded with `load_data`
    /// before this call is made.
    pub fn gen_mipmaps(&self) -> (call: Call<'static>)
        ensures
            call == (Call::GenerateMipmap { target: self.target() }),
    {
        Call::GenerateMipmap { target: self.target }
    }

    /// Binds the texture and uploads one image to it, in as many dimensions
    /// as `info` has. The pixels travel beside the second call; the driver
    /// reads them as `info.format` and `info.ptype` say, whatever they are.
    pub fn load_data(&self, info: ImageInfo) -> (calls: Vec<Call<'static>>)
        requires
            info.complete(),
        ensures
            calls@ == seq![self.binding(), self.upload(info)],
    {
        let format = info.format.to_glenum();
        let kind = info.ptype.to_glenum();
        let target = self.target;
        let level = info.level;
        let internal_format = info.internal_format;
        let width = info.width.unwrap();
        let upload = match info.depth {
            None => match info.height {
                None => Call::TexImage1D {
                    target,
                    level,
                    internal_format,
                    width,
                    border: 0,
                    format,
                    kind,
                },
                Some(height) => Call::TexImage2D {
                    target,
                    level,
                    internal_format,
                    width,
                    height,
                    border: 0,
                    format,
                    kind,
                },
            },
            Some(depth) => Call::TexImage3D {
                target,
                level,
                internal_format,
                width,
                height: info.height.unwrap(),
                depth,
                border: 0,
                format,
                kind,
            },
        };
        vec![self.bind(), upload]
    }

    /// Makes texture unit `num` the active one and binds the texture to it.
    pub fn activate(&self, num: u32) -> (calls: Vec<Call<'static>>)
        requires
            native::TEXTURE0 + num <= u32::MAX,
        ensures
            calls@ == seq![
                Call::ActiveTexture { unit: (native::TEXTURE0 + num) as u32 },
                self.binding(),
            ],
    {
        vec![Call::ActiveTexture { unit: native::TEXTURE0 + num }, self.bind()]
    }

    /// Gives the object up: the call that deletes it.
    pub fn release(self) -> (call: Call<'static>)
        ensures
            call == (Call::DeleteTextures { texture: self.id() }),
    {
        Call::DeleteTextures { texture: self.name }
    }
}

/// An upload goes by the dimensions that were set, whatever the texture was
/// made for: a width alone is uploaded as an image of one dimension, a width
/// and a height as one of two, all three as one of three. Every other
/// choice of dimensions is incomplete and is never uploaded.
pub proof fn lemma_upload_by_arity(texture: Texture, info: ImageInfo)
    ensures
        info.complete() <==> {
            ||| info.width is Some && info.height is None && info.depth is None
            ||| info.width is Some && info.height is Some && info.depth is None
            ||| info.width is Some && info.height is Some && info.depth is Some
        },
        info.complete() && info.height is None ==> texture.upload(info) is TexImage1D,
        info.complete() && info.height is Some && info.depth is None ==> texture.upload(
            info,
        ) is TexImage2D,
        info.complete() && info.depth is Some ==> texture.upload(info) is TexImage3D,
{
}

} // verus!
