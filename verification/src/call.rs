//! Driver calls as values.
//!
//! No function of this crate reaches the graphics driver. Each operation
//! returns the calls that carry it out, in the order in which they are to be
//! made, and an executor that owns the context makes them. A call holds every
//! scalar argument of its entry point and the text it is given. Bulk data
//! (vertices, indices, pixels) is never copied into a call: the executor
//! passes the address of the data that the operation was planned for.

use vstd::prelude::*;

verus! {

/// One call of a driver entry point, named after it.
#[derive(Clone, Copy, Debug, PartialEq, Eq)]
pub enum Call<'a> {
    /// Creates a shader object of stage `kind`; answered with its name.
    CreateShader { kind: u32 },
    /// Replaces the source of `shader` by one fragment of `length` bytes.
    ShaderSource { shader: u32, source: &'a str, length: i32 },
    CompileShader { shader: u32 },
    /// Reads the integer parameter `pname` of a shader object.
    GetShaderiv { shader: u32, pname: u32 },
    /// Fetches the log of a shader object into a buffer of `buf_size` bytes;
    /// answered with the bytes written, the terminator left out.
    GetShaderInfoLog { shader: u32, buf_size: i32 },
    /// Asks whether `object` names a shader object.
    IsShader { object: u32 },
    DeleteShader { shader: u32 },
    /// Creates a program object; answered with its name.
    CreateProgram,
    AttachShader { program: u32, shader: u32 },
    LinkProgram { program: u32 },
    /// Reads the integer parameter `pname` of a program object.
    GetProgramiv { program: u32, pname: u32 },
    /// Fetches the log of a program object into a buffer of `buf_size`
    /// bytes; answered with the bytes written, the terminator left out.
    GetProgramInfoLog { program: u32, buf_size: i32 },
    UseProgram { program: u32 },
    BindFragDataLocation { program: u32, color: u32, name: &'a str },
    /// Answered with the location of the uniform `name`.
    GetUniformLocation { program: u32, name: &'a str },
    /// Answered with the location of the vertex input `name`.
    GetAttribLocation { program: u32, name: &'a str },
    DeleteProgram { program: u32 },
    /// Generates one buffer name.
    GenBuffers,
    BindBuffer { target: u32, buffer: u32 },
    /// Replaces the store of the buffer bound to `target` by `size` bytes of
    /// data.
    BufferData { target: u32, size: isize, usage: u32 },
    DeleteBuffers { buffer: u32 },
    /// Generates one vertex array name.
    GenVertexArrays,
    BindVertexArray { array: u32 },
    EnableVertexAttribArray { index: u32 },
    DisableVertexAttribArray { index: u32 },
    /// Lays out the vertex input `index` over the bound vertex buffer:
    /// `components` values of type `kind` per vertex, `stride` bytes from one
    /// vertex to the next, the first at byte `offset`.
    VertexAttribPointer {
        index: u32,
        components: i32,
        kind: u32,
        normalized: bool,
        stride: i32,
        offset: usize,
    },
    VertexAttribIPointer { index: u32, components: i32, kind: u32, stride: i32, offset: usize },
    VertexAttribLPointer { index: u32, components: i32, kind: u32, stride: i32, offset: usize },
    DrawArrays { mode: u32, first: i32, count: i32 },
    /// Draws `count` indices of type `kind`, read from byte `first` of the
    /// bound index buffer.
    DrawElements { mode: u32, count: i32, kind: u32, first: i32 },
    DeleteVertexArrays { array: u32 },
    PrimitiveRestartIndex { index: u32 },
    /// Generates one texture name.
    GenTextures,
    BindTexture { target: u32, texture: u32 },
    ActiveTexture { unit: u32 },
    TexParameteri { target: u32, pname: u32, param: i32 },
    /// Sets the parameter `pname` to four components of single precision,
    /// each given by its bit pattern.
    TexParameterfv { target: u32, pname: u32, params: [u32; 4] },
    GenerateMipmap { target: u32 },
    TexImage1D {
        target: u32,
        level: i32,
        internal_format: i32,
        width: i32,
        border: i32,
        format: u32,
        kind: u32,
    },
    TexImage2D {
        target: u32,
        level: i32,
        internal_format: i32,
        width: i32,
        height: i32,
        border: i32,
        format: u32,
        kind: u32,
    },
    TexImage3D {
        target: u32,
        level: i32,
        internal_format: i32,
        width: i32,
        height: i32,
        depth: i32,
        border: i32,
        format: u32,
        kind: u32,
    },
    DeleteTextures { texture: u32 },
    /// Generates one query name.
    GenQueries,
    BeginQuery { target: u32, id: u32 },
    EndQuery { target: u32 },
    /// Reads the parameter `pname` of a query object.
    GetQueryObjectuiv { id: u32, pname: u32 },
    DeleteQueries { id: u32 },
}

/// What the driver hands back for a call.
#[derive(Debug, PartialEq, Eq)]
pub enum Reply {
    /// The call has no result.
    Nothing,
    /// An unsigned result: a fresh name, the value of a query.
    Unsigned(u32),
    /// A signed result: a status, a length, a location.
    Signed(i32),
    /// The bytes that the call wrote into its buffer.
    Bytes(Vec<u8>),
}

impl Reply {
    /// The unsigned result; zero, the name of no object, where the reply
    /// holds none.
    pub open spec fn unsigned(&self) -> u32 {
        match self {
            Reply::Unsigned(value) => *value,
            _ => 0,
        }
    }

    /// The signed result; zero, which is both "false" and the empty length,
    /// where the reply holds none.
    pub open spec fn signed(&self) -> i32 {
        match self {
            Reply::Signed(value) => *value,
            _ => 0,
        }
    }

    /// The bytes written; none where the reply holds no buffer.
    pub open spec fn bytes(&self) -> Seq<u8> {
        match self {
            Reply::Bytes(buffer) => buffer@,
            _ => Seq::empty(),
        }
    }

    /// Reads the reply as an unsigned result.
    pub fn to_unsigned(&self) -> (value: u32)
        ensures
            value == self.unsigned(),
    {
        match self {
            Reply::Unsigned(value) => *value,
            _ => 0,
        }
    }

    /// Reads the reply as a signed result.
    pub fn to_signed(&self) -> (value: i32)
        ensures
            value == self.signed(),
    {
        match self {
            Reply::Signed(value) => *value,
            _ => 0,
        }
    }

    /// Takes the buffer out of the reply.
    pub fn into_bytes(self) -> (buffer: Vec<u8>)
        ensures
            buffer@ == self.bytes(),
    {
        match self {
            Reply::Bytes(buffer) => buffer,
            _ => Vec::new(),
        }
    }
}

} // verus!
