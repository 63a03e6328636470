//! Typed handles for the objects of an OpenGL 3.1 core context with GLSL 140:
//! shaders, programs, buffers, vertex arrays, textures and queries.
//!
//! The crate decides which driver calls an operation makes and what their
//! answers mean; it never speaks to the driver itself (see [`call`]).
//!
//! *NOTE*: the `bind` and `activate` methods bind their object, and so do
//! most other methods. None of them restores the binding it found. Bind
//! again before any operation that depends on what is bound.

use vstd::prelude::*;

pub mod buffer;
pub mod call;
pub mod diagnostic;
pub mod native;
pub mod program;
pub mod query;
pub mod text;
pub mod texture;
pub mod vao;

pub use crate::buffer::{BufferUsage, Ebo, Vbo};
pub use crate::call::{Call, Reply};
pub use crate::program::{Program, Shader, ShaderType};
pub use crate::query::Query;
pub use crate::texture::{ImageInfo, Texture};
pub use crate::vao::Vao;

verus! {

/// The kinds of primitive that a draw call assembles from a run of vertices.
#[derive(Clone, Copy, Debug, PartialEq, Eq, Structural)]
pub enum Primitive {
    Points,
    Lines,
    LineStrip,
    LineLoop,
    Triangles,
    TriangleStrip,
    TriangleFan,
}

impl Primitive {
    /// The native constant of each primitive kind.
    pub open spec fn glenum(&self) -> u32 {
        match self {
            Primitive::Points => native::POINTS,
            Primitive::Lines => native::LINES,
            Primitive::LineStrip => native::LINE_STRIP,
            Primitive::LineLoop => native::LINE_LOOP,
            Primitive::Triangles => native::TRIANGLES,
            Primitive::TriangleStrip => native::TRIANGLE_STRIP,
            Primitive::TriangleFan => native::TRIANGLE_FAN,
        }
    }

    pub fn to_glenum(&self) -> (native: u32)
        ensures
            native == self.glenum(),
    {
        match self {
            Primitive::Points => native::POINTS,
            Primitive::Lines => native::LINES,
            Primitive::LineStrip => native::LINE_STRIP,
            Primitive::LineLoop => native::LINE_LOOP,
            Primitive::Triangles => native::TRIANGLES,
            Primitive::TriangleStrip => native::TRIANGLE_STRIP,
            Primitive::TriangleFan => native::TRIANGLE_FAN,
        }
    }
}

/// The call that makes `index` the index that restarts a primitive.
pub fn restart_index(index: u32) -> (call: Call<'static>)
    ensures
        call == (Call::PrimitiveRestartIndex { index }),
{
    Call::PrimitiveRestartIndex { index }
}

} // verus!
