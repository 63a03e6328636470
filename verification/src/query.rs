//! Query objects: measurements that the driver takes while it draws.

use vstd::prelude::*;
use crate::call::Call;
use crate::native;

verus! {

/// What a query measures.
#[derive(Clone, Copy, Debug, PartialEq, Eq, Structural)]
pub enum QueryTarget {
    SamplesPassed,
}

impl QueryTarget {
    /// The native constant of each target.
    pub open spec fn glenum(&self) -> u32 {
        match self {
            QueryTarget::SamplesPassed => native::SAMPLES_PASSED,
        }
    }

    pub fn to_glenum(&self) -> (native: u32)
        ensures
            native == self.glenum(),
    {
        match self {
            QueryTarget::SamplesPassed => native::SAMPLES_PASSED,
        }
    }
}

/// A query object and the target that it measures.
#[derive(Debug, PartialEq, Eq)]
pub struct Query {
    name: u32,
    target: u32,
}

impl Query {
    /// The name that the driver gave the object.
    pub closed spec fn id(&self) -> u32 {
        self.name
    }

    /// The native constant of the target that the query measures.
    pub closed spec fn target(&self) -> u32 {
        self.target
    }

    /// Whether the answer `params` to the call of `result_available` says
    /// that the result can be read.
    pub open spec fn available(params: u32) -> bool {
        params == native::TRUE
    }

    /// Wraps `name`, which the driver generated in answer to
    /// `Call::GenQueries`, as a query of `target`.
    pub fn new(name: u32, target: QueryTarget) -> (query: Query)
        ensures
            query.id() == name,
            query.target() == target.glenum(),
    {
        Query { name, target: target.to_glenum() }
    }

    /// The call that opens the measured region. Regions of one target do
    /// not nest.
    pub fn begin(&self) -> (call: Call<'static>)
        ensures
            call == (Call::BeginQuery { target: self.target(), id: self.id() }),
    {
        Call::BeginQuery { target: self.target, id: self.name }
    }

    /// The call that closes the measured region.
    pub fn end(&self) -> (call: Call<'static>)
        ensures
            call == (Call::EndQuery { target: self.target() }),
    {
        Call::EndQuery { target: self.target }
    }

    /// The call that asks, without waiting, whether the result can be read.
    /// `is_available` reads the answer.
    pub fn result_available(&self) -> (call: Call<'static>)
        ensures
            call == (Call::GetQueryObjectuiv {
                id: self.id(),
                pname: native::QUERY_RESULT_AVAILABLE,
            }),
    {
        Call::GetQueryObjectuiv { id: self.name, pname: native::QUERY_RESULT_AVAILABLE }
    }

    /// Reads the answer to the call of `result_available`.
    pub fn is_available(params: u32) -> (ready: bool)
        ensures
            ready == Query::available(params),
    {
        params == native::TRUE as u32
    }

    /// The call that reads the result; the driver's answer is the measured
    /// value. Before the result is available the answer means nothing.
    pub fn result(&self) -> (call: Call<'static>)
        ensures
            call == (Call::GetQueryObjectuiv { id: self.id(), pname: native::QUERY_RESULT }),
    {
        Call::GetQueryObjectuiv { id: self.name, pname: native::QUERY_RESULT }
    }

    /// Gives the object up: the call that deletes it.
    pub fn release(self) -> (call: Call<'static>)
        ensures
            call == (Call::DeleteQueries { id: self.id() }),
    {
        Call::DeleteQueries { id: self.name }
    }
}

} // verus!
