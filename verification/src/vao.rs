//! Vertex array objects: which buffer feeds which input of a program, and
//! the draw calls.

use vstd::prelude::*;
use vstd::string::StringSliceAdditionalSpecFns;
use crate::call::Call;
use crate::native;
use crate::program::Program;
use crate::text::nul_free;
use crate::Primitive;

verus! {

/// What is done with a vertex input once the driver has said where it is.
#[derive(Clone, Copy, Debug, PartialEq, Eq, Structural)]
pub enum Attrib {
    /// Enable it and feed it `elts` components of type `kind`, converted to
    /// single precision and not normalized.
    Float { kind: u32, elts: i32, stride: i32, offset: usize },
    /// Enable it and feed it `elts` integers of type `kind`, kept as
    /// integers.
    Integer { kind: u32, elts: i32, stride: i32, offset: usize },
    /// Enable it and feed it `elts` components of double precision.
    Double { elts: i32, stride: i32, offset: usize },
    /// Disable it.
    Disable,
}

/// The index of the vertex input at `location`: the location itself where
/// it is at or above zero. The location of an input that the program lacks
/// is negative; it wraps around the top of the unsigned range, to an index
/// that the driver refuses.
pub open spec fn attrib_index(location: i32) -> u32 {
    if location >= 0 {
        location as u32
    } else {
        (location + 0x1_0000_0000) as u32
    }
}

impl Attrib {
    /// The calls that carry the action out on the input at `location`.
    pub open spec fn calls(&self, location: i32) -> Seq<Call<'static>> {
        let index = attrib_index(location);
        match *self {
            Attrib::Float { kind, elts, stride, offset } => seq![
                Call::EnableVertexAttribArray { index },
                Call::VertexAttribPointer {
                    index,
                    components: elts,
                    kind,
                    normalized: false,
                    stride,
                    offset,
                },
            ],
            Attrib::Integer { kind, elts, stride, offset } => seq![
                Call::EnableVertexAttribArray { index },
                Call::VertexAttribIPointer { index, components: elts, kind, stride, offset },
            ],
            Attrib::Double { elts, stride, offset } => seq![
                Call::EnableVertexAttribArray { index },
                Call::VertexAttribLPointer {
                    index,
                    components: elts,
                    kind: native::DOUBLE,
                    stride,
                    offset,
                },
            ],
            Attrib::Disable => seq![Call::DisableVertexAttribArray { index }],
        }
    }

    /// Takes the driver's answer to `Call::GetAttribLocation`.
    pub fn at(self, location: i32) -> (calls: Vec<Call<'static>>)
        ensures
            calls@ == self.calls(location),
    {
        let index = #[verifier::truncate] (location as u32);
        proof {
            assert(location >= 0 ==> location as u32 == location) by (bit_vector);
            assert(location < 0 ==> (location as u32) as int == location + 0x1_0000_0000)
                by (bit_vector);
        }
        match self {
            Attrib::Float { kind, elts, stride, offset } => vec![
                Call::EnableVertexAttribArray { index },
                Call::VertexAttribPointer {
                    index,
                    components: elts,
                    kind,
                    normalized: false,
                    stride,
                    offset,
                },
            ],
            Attrib::Integer { kind, elts, stride, offset } => vec![
                Call::EnableVertexAttribArray { index },
                Call::VertexAttribIPointer { index, components: elts, kind, stride, offset },
            ],
            Attrib::Double { elts, stride, offset } => vec![
                Call::EnableVertexAttribArray { index },
                Call::VertexAttribLPointer {
                    index,
                    components: elts,
                    kind: native::DOUBLE,
                    stride,
                    offset,
                },
            ],
            Attrib::Disable => vec![Call::DisableVertexAttribArray { index }],
        }
    }
}

/// A vertex array object
#[derive(Debug, PartialEq, Eq)]
pub struct Vao {
    name: u32,
}

impl Vao {
    /// The name that the driver gave the object.
    pub closed spec fn id(&self) -> u32 {
        self.name
    }

    /// Binding this vertex array, then asking `program` where its input
    /// `name` is.
    pub open spec fn lookup<'a>(&self, program: &Program, name: &'a str) -> Seq<Call<'a>> {
        seq![
            Call::BindVertexArray { array: self.id() },
            Call::GetAttribLocation { program: program.id(), name },
        ]
    }

    /// Wraps `name`, which the driver generated in answer to
    /// `Call::GenVertexArrays`.
    pub fn new(name: u32) -> (vao: Vao)
        ensures
            vao.id() == name,
    {
        Vao { name }
    }

    /// The call that makes this the vertex array that draws.
    pub fn bind(&self) -> (call: Call<'static>)
        ensures
            call == (Call::BindVertexArray { array: self.id() }),
    {
        Call::BindVertexArray { array: self.name }
    }

    /// The same call as `bind`.
    pub fn activate(&self) -> (call: Call<'static>)
        ensures
            call == (Call::BindVertexArray { array: self.id() }),
    {
        self.bind()
    }

    fn locate<'a>(&self, program: &Program, name: &'a str) -> (calls: Vec<Call<'a>>)
        ensures
            calls@ == self.lookup(program, name),
    {
        vec![
            Call::BindVertexArray { array: self.name },
            Call::GetAttribLocation { program: program.get_name(), name },
        ]
    }

    /// Define and enable an array of generic vertex attribute data for `name`
    /// in `program`, in this VAO, using the bound VBO. The values are not
    /// normalized.
    ///
    /// Gives the calls that bind the VAO and look `name` up, and what to do
    /// at the location that the driver answers.
    ///
    /// NOTE: a VBO that holds enough data for the layout has to be bound
    /// when the calls are made. Nothing here can tell whether one is.
    pub fn enable_attrib<'a>(
        &self,
        program: &Program,
        name: &'a str,
        type_: u32,
        elts: i32,
        stride: i32,
        offset: usize,
    ) -> (asked: (Vec<Call<'a>>, Attrib))
        requires
            nul_free(name.spec_bytes()),
        ensures
            asked.0@ == self.lookup(program, name),
            asked.1 == (Attrib::Float { kind: type_, elts, stride, offset }),
    {
        (self.locate(program, name), Attrib::Float { kind: type_, elts, stride, offset })
    }

    /// As enable_attrib, but the values stay integers
    pub fn enable_int_attrib<'a>(
        &self,
        program: &Program,
        name: &'a str,
        type_: u32,
        elts: i32,
        stride: i32,
        offset: usize,
    ) -> (asked: (Vec<Call<'a>>, Attrib))
        requires
            nul_free(name.spec_bytes()),
        ensures
            asked.0@ == self.lookup(program, name),
            asked.1 == (Attrib::Integer { kind: type_, elts, stride, offset }),
    {
        (self.locate(program, name), Attrib::Integer { kind: type_, elts, stride, offset })
    }

    /// As enable_attrib, but the values are of double precision and stay so
    pub fn enable_double_attrib<'a>(
        &self,
        program: &Program,
        name: &'a str,
        elts: i32,
        stride: i32,
        offset: usize,
    ) -> (asked: (Vec<Call<'a>>, Attrib))
        requires
            nul_free(name.spec_bytes()),
        ensures
            asked.0@ == self.lookup(program, name),
            asked.1 == (Attrib::Double { elts, stride, offset }),
    {
        (self.locate(program, name), Attrib::Double { elts, stride, offset })
    }

    /// Gives the calls that bind the VAO and look `name` up; the input at
    /// the location that the driver answers is then disabled.
    pub fn disable_attrib<'a>(&self, program: &Program, name: &'a str) -> (asked: (
        Vec<Call<'a>>,
        Attrib,
    ))
        requires
            nul_free(name.spec_bytes()),
        ensures
            asked.0@ == self.lookup(program, name),
            asked.1 == Attrib::Disable,
    {
        (self.locate(program, name), Attrib::Disable)
    }

    /// Draw the given primitive, using `count` vertices starting at offset
    /// `first` in the currently bound VBO.
    pub fn draw_array(&self, primitive: Primitive, first: i32, count: i32) -> (call: Call<
        'static,
    >)
        ensures
            call == (Call::DrawArrays { mode: primitive.glenum(), first, count }),
    {
        Call::DrawArrays { mode: primitive.to_glenum(), first, count }
    }

    /// Draw the given primitive, using `count` indices starting at offset
    /// `first` in the currently bound EBO. The indices are unsigned integers
    /// of 32 bits; no other width can be drawn.
    pub fn draw_elements(&self, primitive: Primitive, first: i32, count: i32) -> (call: Call<
        'static,
    >)
        ensures
            call == (Call::DrawElements {
                mode: primitive.glenum(),
                count,
                kind: native::UNSIGNED_INT,
                first,
            }),
    {
        Call::DrawElements {
            mode: primitive.to_glenum(),
            count,
            kind: native::UNSIGNED_INT,
            first,
        }
    }

    /// Gives the object up: the call that deletes it.
    pub fn release(self) -> (call: Call<'static>)
        ensures
            call == (Call::DeleteVertexArrays { array: self.id() }),
    {
        Call::DeleteVertexArrays { array: self.name }
    }
}

} // verus!
