//! Retrieval of the log that the driver keeps of a compilation or a link.
//!
//! Shaders and programs report in the same way: an integer status and, where
//! it is not "true", a log whose length is asked for before the text is
//! fetched. [`InfoLog`] is that exchange as a state machine: each state has
//! one call pending, and the driver's reply to it decides what follows.

use vstd::prelude::*;
use vstd::slice::slice_subrange;
use vstd::string::StringSliceAdditionalSpecFns;
use vstd::utf8::{decode_utf8, encode_utf8_decode_utf8, valid_utf8};
use crate::call::{Call, Reply};
use crate::native;

verus! {

/// The class of object that a log is kept of. It decides the pair of entry
/// points that read the status and fetch the text.
#[derive(Clone, Copy, Debug, PartialEq, Eq, Structural)]
pub enum LogSource {
    Shader,
    Program,
}

impl LogSource {
    /// The call that reads the integer parameter `pname` of `object`.
    pub open spec fn query(&self, object: u32, pname: u32) -> Call<'static> {
        match self {
            LogSource::Shader => Call::GetShaderiv { shader: object, pname },
            LogSource::Program => Call::GetProgramiv { program: object, pname },
        }
    }

    /// The call that fetches the log of `object` into `buf_size` bytes.
    pub open spec fn fetch(&self, object: u32, buf_size: i32) -> Call<'static> {
        match self {
            LogSource::Shader => Call::GetShaderInfoLog { shader: object, buf_size },
            LogSource::Program => Call::GetProgramInfoLog { program: object, buf_size },
        }
    }

    fn query_call(&self, object: u32, pname: u32) -> (call: Call<'static>)
        ensures
            call == self.query(object, pname),
    {
        match self {
            LogSource::Shader => Call::GetShaderiv { shader: object, pname },
            LogSource::Program => Call::GetProgramiv { program: object, pname },
        }
    }

    fn fetch_call(&self, object: u32, buf_size: i32) -> (call: Call<'static>)
        ensures
            call == self.fetch(object, buf_size),
    {
        match self {
            LogSource::Shader => Call::GetShaderInfoLog { shader: object, buf_size },
            LogSource::Program => Call::GetProgramInfoLog { program: object, buf_size },
        }
    }
}

/// How far a retrieval has come: which answer it waits for.
#[derive(Clone, Copy, Debug, PartialEq, Eq, Structural)]
pub enum LogStage {
    /// The status `pname` was asked for.
    Status { pname: u32 },
    /// The status was not "true"; the length of the log was asked for.
    Length,
    /// The log is `length` bytes long, its terminator counted; the text was
    /// asked for.
    Text { length: i32 },
}

/// A retrieval under way for the object `object`.
#[derive(Clone, Copy, Debug, PartialEq, Eq, Structural)]
pub struct InfoLog {
    pub object: u32,
    pub source: LogSource,
    pub stage: LogStage,
}

/// What a retrieval does once a reply has come in.
#[derive(Debug, PartialEq, Eq)]
pub enum LogStep {
    /// Make the call and hand its reply to the state.
    Ask(Call<'static>, InfoLog),
    /// The retrieval is over: `None` where the status was "true", else the
    /// bytes of the log.
    Done(Option<Vec<u8>>),
}

/// The first `room` bytes of `bytes`, all of them where there are no more,
/// none where `room` is negative.
pub open spec fn clip(bytes: Seq<u8>, room: int) -> Seq<u8> {
    if room <= 0 {
        Seq::empty()
    } else if bytes.len() <= room {
        bytes
    } else {
        bytes.take(room)
    }
}

/// What a whole retrieval yields from a driver that reports `status`,
/// announces a log of `length` bytes and, asked for them, writes `written`:
/// nothing where the status is "true"; else the empty log where none is
/// announced; else what was written, cut to the announced length less the
/// terminator.
pub open spec fn info_log(status: i32, length: i32, written: Seq<u8>) -> Option<Seq<u8>> {
    if status == native::TRUE {
        None
    } else if length <= 0 {
        Some(Seq::empty())
    } else {
        Some(clip(written, length - 1))
    }
}

impl InfoLog {
    /// The call whose reply the state waits for.
    pub open spec fn pending(&self) -> Call<'static> {
        match self.stage {
            LogStage::Status { pname } => self.source.query(self.object, pname),
            LogStage::Length => self.source.query(self.object, native::INFO_LOG_LENGTH),
            LogStage::Text { length } => self.source.fetch(self.object, length),
        }
    }

    /// Whether `reply` ends the retrieval: a status of "true", a length of
    /// zero (none below zero is ever reported; one is read as zero), any
    /// text.
    pub open spec fn ends(&self, reply: &Reply) -> bool {
        match self.stage {
            LogStage::Status { .. } => reply.signed() == native::TRUE,
            LogStage::Length => reply.signed() <= 0,
            LogStage::Text { .. } => true,
        }
    }

    /// The log that the retrieval ends with, where `reply` ends it.
    pub open spec fn log(&self, reply: &Reply) -> Option<Seq<u8>> {
        match self.stage {
            LogStage::Status { .. } => None,
            LogStage::Length => Some(Seq::empty()),
            LogStage::Text { length } => Some(clip(reply.bytes(), length - 1)),
        }
    }

    /// The state that follows, where `reply` does not end the retrieval.
    pub open spec fn follow(&self, reply: &Reply) -> InfoLog {
        match self.stage {
            LogStage::Status { .. } => InfoLog { stage: LogStage::Length, ..*self },
            _ => InfoLog { stage: LogStage::Text { length: reply.signed() }, ..*self },
        }
    }

    /// Takes the driver's reply to the pending call. A reply that holds no
    /// value of the kind asked for counts as no answer: the status stays
    /// "false", the length zero, the text empty.
    pub fn step(self, reply: Reply) -> (next: LogStep)
        ensures
            match next {
                LogStep::Ask(call, state) => {
                    &&& !self.ends(&reply)
                    &&& state == self.follow(&reply)
                    &&& call == state.pending()
                },
                LogStep::Done(None) => self.ends(&reply) && self.log(&reply) is None,
                LogStep::Done(Some(bytes)) => {
                    self.ends(&reply) && self.log(&reply) == Some(bytes@)
                },
            },
    {
        match self.stage {
            LogStage::Status { .. } => {
                if reply.to_signed() == native::TRUE as i32 {
                    LogStep::Done(None)
                } else {
                    let state = InfoLog { stage: LogStage::Length, ..self };
                    LogStep::Ask(
                        self.source.query_call(self.object, native::INFO_LOG_LENGTH),
                        state,
                    )
                }
            },
            LogStage::Length => {
                let length = reply.to_signed();
                if length <= 0 {
                    LogStep::Done(Some(Vec::new()))
                } else {
                    let state = InfoLog { stage: LogStage::Text { length }, ..self };
                    LogStep::Ask(self.source.fetch_call(self.object, length), state)
                }
            },
            LogStage::Text { length } => {
                let mut bytes = reply.into_bytes();
                if length <= 1 {
                    bytes.truncate(0);
                } else {
                    let room: usize = (length - 1) as usize;
                    if bytes.len() > room {
                        bytes.truncate(room);
                    }
                }
                LogStep::Done(Some(bytes))
            },
        }
    }

    /// Whether the log that `reply` ends the retrieval with, if it ends it
    /// with one, is valid UTF-8.
    pub open spec fn spec_yields_text(&self, reply: &Reply) -> bool {
        self.ends(reply) ==> (self.log(reply) matches Some(bytes) ==> valid_utf8(bytes))
    }

    /// Tells, before `reply` is taken, whether the log that it ends the
    /// retrieval with is text.
    #[verifier::when_used_as_spec(spec_yields_text)]
    pub fn yields_text(&self, reply: &Reply) -> (valid: bool)
        ensures
            valid == self.spec_yields_text(reply),
    {
        match self.stage {
            LogStage::Text { length } => match reply {
                Reply::Bytes(buffer) => {
                    let room: usize = if length <= 1 {
                        0
                    } else {
                        (length - 1) as usize
                    };
                    let kept: usize = if buffer.len() > room {
                        room
                    } else {
                        buffer.len()
                    };
                    assert(buffer@.subrange(0, kept as int) == clip(buffer@, length - 1));
                    is_text(slice_subrange(buffer.as_slice(), 0, kept))
                },
                _ => true,
            },
            _ => true,
        }
    }
}

/// Begins the retrieval of the log of `object`: the call that reads the
/// status `status`, and the state that takes its reply.
pub fn get_info_log(object: u32, source: LogSource, status: u32) -> (begun: (
    Call<'static>,
    InfoLog,
))
    ensures
        begun.1 == (InfoLog { object, source, stage: LogStage::Status { pname: status } }),
        begun.0 == begun.1.pending(),
{
    let state = InfoLog { object, source, stage: LogStage::Status { pname: status } };
    (source.query_call(object, status), state)
}

/// A retrieval makes at most three calls, and what it yields is
/// `info_log` of the three replies: the first is read as the status, the
/// second as the length, the third as the text.
pub proof fn lemma_retrieval(
    object: u32,
    source: LogSource,
    status: u32,
    first: Reply,
    second: Reply,
    third: Reply,
)
    ensures
        ({
            let asked = InfoLog { object, source, stage: LogStage::Status { pname: status } };
            let wanted = info_log(first.signed(), second.signed(), third.bytes());
            if asked.ends(&first) {
                asked.log(&first) == wanted
            } else if asked.follow(&first).ends(&second) {
                asked.follow(&first).log(&second) == wanted
            } else {
                &&& asked.follow(&first).follow(&second).ends(&third)
                &&& asked.follow(&first).follow(&second).log(&third) == wanted
            }
        }),
{
}

/// `core::str::from_utf8`: the bytes as text, where they are valid UTF-8,
/// and nothing where they are not. The text is the very bytes given.
#[verifier::external_body]
fn text_of(bytes: &[u8]) -> (text: Option<&str>)
    ensures
        text is Some <==> valid_utf8(bytes@),
        text matches Some(s) ==> s.spec_bytes() == bytes@,
{
    core::str::from_utf8(bytes).ok()
}

/// Whether a log can be read as text.
pub fn is_text(log: &[u8]) -> (valid: bool)
    ensures
        valid == valid_utf8(log@),
{
    text_of(log).is_some()
}

/// Reads a log as text. A log that is no text is an error of the
/// environment that the caller has to stop at: see `is_text`.
pub fn decode(log: &[u8]) -> (text: String)
    requires
        valid_utf8(log@),
    ensures
        text@ == decode_utf8(log@),
{
    let slice = text_of(log).unwrap();
    proof {
        encode_utf8_decode_utf8(slice@);
    }
    slice.to_owned()
}

} // verus!
