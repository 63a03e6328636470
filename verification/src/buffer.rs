//! Buffers of vertex data and of indices.

use vstd::prelude::*;
use vstd::layout::size_of;
use crate::call::Call;
use crate::native;

verus! {

/// Frequency with which a buffer is expected to be updated. A hint to the
/// driver about where to keep the store, and nothing more.
#[derive(Clone, Copy, Debug, PartialEq, Eq, Structural)]
pub enum BufferUsage {
    /// Updated once, drawn many times
    StaticDraw,
    /// Updated many times, drawn many times
    DynamicDraw,
    /// Updated once, drawn once
    StreamDraw,
}

/// The usage hint, as vertex buffers call it.
pub type VboUsage = BufferUsage;

impl BufferUsage {
    /// The native constant of each hint.
    pub open spec fn glenum(&self) -> u32 {
        match self {
            BufferUsage::StaticDraw => native::STATIC_DRAW,
            BufferUsage::DynamicDraw => native::DYNAMIC_DRAW,
            BufferUsage::StreamDraw => native::STREAM_DRAW,
        }
    }

    pub fn to_glenum(&self) -> (native: u32)
        ensures
            native == self.glenum(),
    {
        match self {
            BufferUsage::StaticDraw => native::STATIC_DRAW,
            BufferUsage::DynamicDraw => native::DYNAMIC_DRAW,
            BufferUsage::StreamDraw => native::STREAM_DRAW,
        }
    }
}

/// The number of bytes that `count` elements of type `T` take.
pub open spec fn byte_len<T>(count: nat) -> nat {
    count * size_of::<T>()
}

/// Binding `buffer` to `target`, then replacing its store by `size` bytes.
pub open spec fn upload(target: u32, buffer: u32, size: nat, usage: BufferUsage) -> Seq<
    Call<'static>,
> {
    seq![
        Call::BindBuffer { target, buffer },
        Call::BufferData { target, size: size as isize, usage: usage.glenum() },
    ]
}

/// The usage hint decides nothing but itself: uploads that differ in the
/// hint alone bind the same buffer and hand over the same number of bytes,
/// to the same target.
pub proof fn lemma_usage_is_a_hint(
    target: u32,
    buffer: u32,
    size: nat,
    one: BufferUsage,
    other: BufferUsage,
)
    ensures
        upload(target, buffer, size, one).len() == upload(target, buffer, size, other).len(),
        upload(target, buffer, size, one)[0] == upload(target, buffer, size, other)[0],
        upload(target, buffer, size, one)[1] == (Call::BufferData {
            target,
            size: size as isize,
            usage: one.glenum(),
        }),
        upload(target, buffer, size, other)[1] == (Call::BufferData {
            target,
            size: size as isize,
            usage: other.glenum(),
        }),
{
}

fn load<T>(target: u32, buffer: u32, data: &[T], usage: BufferUsage) -> (calls: Vec<
    Call<'static>,
>)
    requires
        byte_len::<T>(data@.len()) <= isize::MAX,
    ensures
        calls@ == upload(target, buffer, byte_len::<T>(data@.len()), usage),
{
    let size: usize = data.len() * core::mem::size_of::<T>();
    vec![
        Call::BindBuffer { target, buffer },
        Call::BufferData { target, size: size as isize, usage: usage.to_glenum() },
    ]
}

/// A vertex buffer object
#[derive(Debug, PartialEq, Eq)]
pub struct Vbo {
    name: u32,
}

impl Vbo {
    /// The name that the driver gave the object.
    pub closed spec fn id(&self) -> u32 {
        self.name
    }

    /// Wraps `name`, which the driver generated in answer to
    /// `Call::GenBuffers`. Nothing is bound and nothing uploaded.
    pub fn new(name: u32) -> (vbo: Vbo)
        ensures
            vbo.id() == name,
    {
        Vbo { name }
    }

    /// Wraps the fresh name `name` and uploads `data` to the buffer.
    pub fn from_data<T>(name: u32, data: &[T], usage: BufferUsage) -> (made: (
        Vbo,
        Vec<Call<'static>>,
    ))
        requires
            byte_len::<T>(data@.len()) <= isize::MAX,
        ensures
            made.0.id() == name,
            made.1@ == upload(native::ARRAY_BUFFER, name, byte_len::<T>(data@.len()), usage),
    {
        let vbo = Vbo::new(name);
        let calls = vbo.load_data(data, usage);
        (vbo, calls)
    }

    /// Load data into this vbo: whatever the buffer held is replaced by the
    /// elements of `data`, byte for byte. The data travels beside the second
    /// call.
    pub fn load_data<T>(&self, data: &[T], usage: BufferUsage) -> (calls: Vec<Call<'static>>)
        requires
            byte_len::<T>(data@.len()) <= isize::MAX,
        ensures
            calls@ == upload(
                native::ARRAY_BUFFER,
                self.id(),
                byte_len::<T>(data@.len()),
                usage,
            ),
    {
        load(native::ARRAY_BUFFER, self.name, data, usage)
    }

    /// The call that makes this buffer the source of vertex data.
    pub fn bind(&self) -> (call: Call<'static>)
        ensures
            call == (Call::BindBuffer { target: native::ARRAY_BUFFER, buffer: self.id() }),
    {
        Call::BindBuffer { target: native::ARRAY_BUFFER, buffer: self.name }
    }

    /// The same call as `bind`.
    pub fn activate(&self) -> (call: Call<'static>)
        ensures
            call == (Call::BindBuffer { target: native::ARRAY_BUFFER, buffer: self.id() }),
    {
        self.bind()
    }

    /// Gives the object up: the call that deletes it.
    pub fn release(self) -> (call: Call<'static>)
        ensures
            call == (Call::DeleteBuffers { buffer: self.id() }),
    {
        Call::DeleteBuffers { buffer: self.name }
    }
}

/// An Element Buffer Object, aka GL_ELEMENT_ARRAY_BUFFER.
#[derive(Debug, PartialEq, Eq)]
pub struct Ebo {
    name: u32,
}

impl Ebo {
    /// The name that the driver gave the object.
    pub closed spec fn id(&self) -> u32 {
        self.name
    }

    /// Wraps `name`, which the driver generated in answer to
    /// `Call::GenBuffers`. Nothing is bound and nothing uploaded.
    pub fn new(name: u32) -> (ebo: Ebo)
        ensures
            ebo.id() == name,
    {
        Ebo { name }
    }

    /// Wraps the fresh name `name` and uploads `indices` to the buffer, as
    /// data that is updated many times.
    pub fn from_indices(name: u32, indices: &[u32]) -> (made: (Ebo, Vec<Call<'static>>))
        requires
            byte_len::<u32>(indices@.len()) <= isize::MAX,
        ensures
            made.0.id() == name,
            made.1@ == upload(
                native::ELEMENT_ARRAY_BUFFER,
                name,
                byte_len::<u32>(indices@.len()),
                BufferUsage::DynamicDraw,
            ),
    {
        let ebo = Ebo::new(name);
        let calls = ebo.load_data(indices, BufferUsage::DynamicDraw);
        (ebo, calls)
    }

    /// Load new index data into this EBO: whatever the buffer held is
    /// replaced by the elements of `data`, byte for byte. The data travels
    /// beside the second call.
    pub fn load_data<T>(&self, data: &[T], usage: BufferUsage) -> (calls: Vec<Call<'static>>)
        requires
            byte_len::<T>(data@.len()) <= isize::MAX,
        ensures
            calls@ == upload(
                native::ELEMENT_ARRAY_BUFFER,
                self.id(),
                byte_len::<T>(data@.len()),
                usage,
            ),
    {
        load(native::ELEMENT_ARRAY_BUFFER, self.name, data, usage)
    }

    /// The call that makes this buffer the source of indices.
    pub fn bind(&self) -> (call: Call<'static>)
        ensures
            call == (Call::BindBuffer {
                target: native::ELEMENT_ARRAY_BUFFER,
                buffer: self.id(),
            }),
    {
        Call::BindBuffer { target: native::ELEMENT_ARRAY_BUFFER, buffer: self.name }
    }

    /// The same call as `bind`.
    pub fn activate(&self) -> (call: Call<'static>)
        ensures
            call == (Call::BindBuffer {
                target: native::ELEMENT_ARRAY_BUFFER,
                buffer: self.id(),
            }),
    {
        self.bind()
    }

    /// Gives the object up: the call that deletes it.
    pub fn release(self) -> (call: Call<'static>)
        ensures
            call == (Call::DeleteBuffers { buffer: self.id() }),
    {
        Call::DeleteBuffers { buffer: self.name }
    }
}

} // verus!
