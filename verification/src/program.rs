//! Shaders and the programs linked from them.

use vstd::prelude::*;
use vstd::string::StringSliceAdditionalSpecFns;
use vstd::utf8::{decode_utf8, valid_utf8};
use crate::call::{Call, Reply};
use crate::diagnostic::{decode, info_log, InfoLog, LogSource, LogStage, LogStep};
use crate::native;
use crate::text::nul_free;

verus! {

/// The programmable stage that a shader is written for.
#[derive(Clone, Copy, Debug, PartialEq, Eq, Structural)]
pub enum ShaderType {
    VertexShader,
    FragmentShader,
}

impl ShaderType {
    /// The native constant of each stage.
    pub open spec fn glenum(&self) -> u32 {
        match self {
            ShaderType::VertexShader => native::VERTEX_SHADER,
            ShaderType::FragmentShader => native::FRAGMENT_SHADER,
        }
    }

    /// Convert a ShaderType into its corresponding GL value
    pub fn to_glenum(&self) -> (native: u32)
        ensures
            native == self.glenum(),
    {
        match self {
            ShaderType::VertexShader => native::VERTEX_SHADER,
            ShaderType::FragmentShader => native::FRAGMENT_SHADER,
        }
    }
}

/// A compiled shader object.
#[derive(Debug, PartialEq, Eq)]
pub struct Shader {
    name: u32,
    type_: ShaderType,
}

/// A program, which consists of multiple compiled shaders "linked" together.
/// Its name is never zero, the name of no object, and is that of a link that
/// the driver reported as done.
#[derive(Debug, PartialEq, Eq)]
pub struct Program {
    name: u32,
}

/// How far a compilation or a link has come.
#[derive(Clone, Copy, Debug, PartialEq, Eq)]
pub enum Stage {
    /// The object was asked for; its name is awaited.
    Create,
    /// The object was compiled or linked; its log is being retrieved.
    Retrieve(InfoLog),
}

/// A compilation under way.
#[derive(Clone, Copy, Debug, PartialEq, Eq)]
pub struct Compile<'a> {
    pub kind: ShaderType,
    pub source: &'a str,
    pub stage: Stage,
}

/// What a compilation does once a reply has come in.
#[derive(Debug, PartialEq, Eq)]
pub enum CompileStep<'a> {
    /// Make the calls in order and hand the reply of the last to the state.
    Ask(Vec<Call<'a>>, Compile<'a>),
    /// Make the calls in order; the compilation is over, with the shader or
    /// with the text of the driver's log.
    Done(Vec<Call<'a>>, Result<Shader, String>),
}

impl<'a> Compile<'a> {
    /// The length of the source fits the driver's signed length.
    pub open spec fn wf(&self) -> bool {
        self.source.len() <= i32::MAX
    }

    /// The calls that hand the source to the object `shader` as one fragment
    /// with its length in bytes, compile it and read how that went.
    pub open spec fn submission(&self, shader: u32) -> Seq<Call<'a>> {
        seq![
            Call::ShaderSource {
                shader,
                source: self.source,
                length: self.source.len() as i32,
            },
            Call::CompileShader { shader },
            Call::GetShaderiv { shader, pname: native::COMPILE_STATUS },
        ]
    }

    /// Whether `reply` ends the compilation: it does where it ends the
    /// retrieval of the log.
    pub open spec fn ends(&self, reply: &Reply) -> bool {
        self.stage matches Stage::Retrieve(log) && log.ends(reply)
    }

    /// The state that follows, where `reply` does not end the compilation.
    pub open spec fn follow(&self, reply: &Reply) -> Compile<'a> {
        match self.stage {
            Stage::Create => Compile {
                stage: Stage::Retrieve(
                    InfoLog {
                        object: reply.unsigned(),
                        source: LogSource::Shader,
                        stage: LogStage::Status { pname: native::COMPILE_STATUS },
                    },
                ),
                ..*self
            },
            Stage::Retrieve(log) => Compile {
                stage: Stage::Retrieve(log.follow(reply)),
                ..*self
            },
        }
    }

    /// The calls to make once `reply` has come in. A compilation that
    /// failed ends by deleting the object it created.
    pub open spec fn asks(&self, reply: &Reply) -> Seq<Call<'a>> {
        match self.stage {
            Stage::Create => self.submission(reply.unsigned()),
            Stage::Retrieve(log) => {
                if !log.ends(reply) {
                    seq![log.follow(reply).pending()]
                } else if log.log(reply) is None {
                    Seq::empty()
                } else {
                    seq![Call::DeleteShader { shader: log.object }]
                }
            },
        }
    }

    /// What the compilation ends with, where `reply` ends it: the name and
    /// stage of the shader, or the driver's log read as text.
    pub open spec fn verdict(&self, reply: &Reply) -> Result<(u32, ShaderType), Seq<char>>
        recommends
            self.ends(reply),
    {
        match self.stage {
            Stage::Retrieve(log) => match log.log(reply) {
                None => Ok((log.object, self.kind)),
                Some(bytes) => Err(decode_utf8(bytes)),
            },
            Stage::Create => Err(Seq::empty()),
        }
    }

    /// Whether `reply` can be taken: a log that ends the compilation has to
    /// be valid UTF-8.
    pub open spec fn spec_admits(&self, reply: &Reply) -> bool {
        self.stage matches Stage::Retrieve(log) ==> log.spec_yields_text(reply)
    }

    /// Tells whether `reply` can be taken. A reply that cannot is a defect
    /// of the environment, at which the caller has to stop.
    #[verifier::when_used_as_spec(spec_admits)]
    pub fn admits(&self, reply: &Reply) -> (ok: bool)
        ensures
            ok == self.spec_admits(reply),
    {
        match self.stage {
            Stage::Create => true,
            Stage::Retrieve(log) => log.yields_text(reply),
        }
    }

    /// Takes the driver's reply to the last call asked.
    pub fn step(self, reply: Reply) -> (next: CompileStep<'a>)
        requires
            self.wf(),
            self.admits(&reply),
        ensures
            match next {
                CompileStep::Ask(calls, state) => {
                    &&& !self.ends(&reply)
                    &&& calls@ == self.asks(&reply)
                    &&& state == self.follow(&reply)
                    &&& state.wf()
                },
                CompileStep::Done(calls, Ok(shader)) => {
                    &&& self.ends(&reply)
                    &&& calls@ == self.asks(&reply)
                    &&& self.verdict(&reply) == Ok::<(u32, ShaderType), Seq<char>>(
                        (shader.id(), shader.kind()),
                    )
                },
                CompileStep::Done(calls, Err(text)) => {
                    &&& self.ends(&reply)
                    &&& calls@ == self.asks(&reply)
                    &&& self.verdict(&reply) == Err::<(u32, ShaderType), Seq<char>>(text@)
                },
            },
    {
        match self.stage {
            Stage::Create => {
                let shader = reply.to_unsigned();
                let length = self.source.len() as i32;
                let log = InfoLog {
                    object: shader,
                    source: LogSource::Shader,
                    stage: LogStage::Status { pname: native::COMPILE_STATUS },
                };
                let calls = vec![
                    Call::ShaderSource { shader, source: self.source, length },
                    Call::CompileShader { shader },
                    Call::GetShaderiv { shader, pname: native::COMPILE_STATUS },
                ];
                CompileStep::Ask(calls, Compile { stage: Stage::Retrieve(log), ..self })
            },
            Stage::Retrieve(log) => match log.step(reply) {
                LogStep::Ask(call, state) => CompileStep::Ask(
                    vec![call],
                    Compile { stage: Stage::Retrieve(state), ..self },
                ),
                LogStep::Done(None) => CompileStep::Done(
                    Vec::new(),
                    Ok(Shader::new_raw(log.object, self.kind)),
                ),
                LogStep::Done(Some(bytes)) => CompileStep::Done(
                    vec![Call::DeleteShader { shader: log.object }],
                    Err(decode(bytes.as_slice())),
                ),
            },
        }
    }
}

impl Shader {
    /// The name that the driver gave the object.
    pub closed spec fn id(&self) -> u32 {
        self.name
    }

    /// The stage that the shader was compiled for.
    pub closed spec fn kind(&self) -> ShaderType {
        self.type_
    }

    /// Adopts `name`, an object made elsewhere, as a shader of stage
    /// `type_`. `probe` is the driver's answer to `Call::IsShader` for that
    /// name, or `None` in a build that leaves the question out. A name that
    /// the driver denies is never adopted.
    pub fn from_name(name: u32, type_: ShaderType, probe: Option<u8>) -> (shader: Shader)
        requires
            probe != Some(native::FALSE),
        ensures
            shader.id() == name,
            shader.kind() == type_,
    {
        Shader::new_raw(name, type_)
    }

    fn new_raw(id: u32, type_: ShaderType) -> (shader: Shader)
        ensures
            shader.id() == id,
            shader.kind() == type_,
    {
        Shader { name: id, type_ }
    }

    /// Returns the name (id) of the shader.
    pub fn name(&self) -> (name: u32)
        ensures
            name == self.id(),
    {
        self.name
    }

    /// Compile a shader.
    ///
    /// Takes the shader contents as a string and begins with the call that
    /// creates the object. Once every reply has been taken, the compilation
    /// ends with the shader or, where the driver reports a failure, with the
    /// complete log of the compilation.
    pub fn compile<'a>(source: &'a str, type_: ShaderType) -> (first: CompileStep<'a>)
        requires
            source.len() <= i32::MAX,
        ensures
            first matches CompileStep::Ask(calls, state) && {
                &&& calls@ == seq![Call::CreateShader { kind: type_.glenum() }]
                &&& state == (Compile { kind: type_, source, stage: Stage::Create })
                &&& state.wf()
            },
    {
        CompileStep::Ask(
            vec![Call::CreateShader { kind: type_.to_glenum() }],
            Compile { kind: type_, source, stage: Stage::Create },
        )
    }

    /// Gives the object up: the call that deletes it.
    pub fn release(self) -> (call: Call<'static>)
        ensures
            call == (Call::DeleteShader { shader: self.id() }),
    {
        Call::DeleteShader { shader: self.name }
    }
}

/// A link under way.
#[derive(Clone, Copy, Debug, PartialEq, Eq)]
pub struct Link<'a> {
    pub shaders: &'a [Shader],
    pub stage: Stage,
}

/// What a link does once a reply has come in.
#[derive(Debug, PartialEq, Eq)]
pub enum LinkStep<'a> {
    /// Make the calls in order and hand the reply of the last to the state.
    Ask(Vec<Call<'static>>, Link<'a>),
    /// Make the calls in order; the link is over, with the program or with
    /// the text of the driver's log.
    Done(Vec<Call<'static>>, Result<Program, String>),
}

/// One call for each shader, in their order, that attaches it to `program`.
pub open spec fn attachments(program: u32, shaders: Seq<Shader>) -> Seq<Call<'static>> {
    Seq::new(shaders.len(), |i: int| Call::AttachShader { program, shader: shaders[i].id() })
}

impl<'a> Link<'a> {
    /// The calls that attach every shader to the object `program`, link it
    /// and read how that went.
    pub open spec fn linkage(&self, program: u32) -> Seq<Call<'static>> {
        attachments(program, self.shaders@) + seq![
            Call::LinkProgram { program },
            Call::GetProgramiv { program, pname: native::LINK_STATUS },
        ]
    }

    /// Whether `reply` ends the link: it does where it ends the retrieval of
    /// the log.
    pub open spec fn ends(&self, reply: &Reply) -> bool {
        self.stage matches Stage::Retrieve(log) && log.ends(reply)
    }

    /// The state that follows, where `reply` does not end the link.
    pub open spec fn follow(&self, reply: &Reply) -> Link<'a> {
        match self.stage {
            Stage::Create => Link {
                stage: Stage::Retrieve(
                    InfoLog {
                        object: reply.unsigned(),
                        source: LogSource::Program,
                        stage: LogStage::Status { pname: native::LINK_STATUS },
                    },
                ),
                ..*self
            },
            Stage::Retrieve(log) => Link { stage: Stage::Retrieve(log.follow(reply)), ..*self },
        }
    }

    /// The calls to make once `reply` has come in. A link that gave no
    /// program ends by deleting the object it created.
    pub open spec fn asks(&self, reply: &Reply) -> Seq<Call<'static>> {
        match self.stage {
            Stage::Create => self.linkage(reply.unsigned()),
            Stage::Retrieve(log) => {
                if !log.ends(reply) {
                    seq![log.follow(reply).pending()]
                } else if self.verdict(reply) is Ok {
                    Seq::empty()
                } else {
                    seq![Call::DeleteProgram { program: log.object }]
                }
            },
        }
    }

    /// What the link ends with, where `reply` ends it: the name of the
    /// program, or the driver's log read as text. Where the driver named no
    /// object there is no program, whatever the status says, and no log.
    pub open spec fn verdict(&self, reply: &Reply) -> Result<u32, Seq<char>>
        recommends
            self.ends(reply),
    {
        match self.stage {
            Stage::Retrieve(log) => match log.log(reply) {
                None if log.object != 0 => Ok(log.object),
                None => Err(Seq::empty()),
                Some(bytes) => Err(decode_utf8(bytes)),
            },
            Stage::Create => Err(Seq::empty()),
        }
    }

    /// Whether `reply` can be taken: a log that ends the link has to be
    /// valid UTF-8.
    pub open spec fn spec_admits(&self, reply: &Reply) -> bool {
        self.stage matches Stage::Retrieve(log) ==> log.spec_yields_text(reply)
    }

    /// Tells whether `reply` can be taken. A reply that cannot is a defect
    /// of the environment, at which the caller has to stop.
    #[verifier::when_used_as_spec(spec_admits)]
    pub fn admits(&self, reply: &Reply) -> (ok: bool)
        ensures
            ok == self.spec_admits(reply),
    {
        match self.stage {
            Stage::Create => true,
            Stage::Retrieve(log) => log.yields_text(reply),
        }
    }

    /// Takes the driver's reply to the last call asked.
    pub fn step(self, reply: Reply) -> (next: LinkStep<'a>)
        requires
            self.admits(&reply),
        ensures
            match next {
                LinkStep::Ask(calls, state) => {
                    &&& !self.ends(&reply)
                    &&& calls@ == self.asks(&reply)
                    &&& state == self.follow(&reply)
                },
                LinkStep::Done(calls, Ok(program)) => {
                    &&& self.ends(&reply)
                    &&& calls@ == self.asks(&reply)
                    &&& self.verdict(&reply) == Ok::<u32, Seq<char>>(program.id())
                },
                LinkStep::Done(calls, Err(text)) => {
                    &&& self.ends(&reply)
                    &&& calls@ == self.asks(&reply)
                    &&& self.verdict(&reply) == Err::<u32, Seq<char>>(text@)
                },
            },
    {
        match self.stage {
            Stage::Create => {
                let program = reply.to_unsigned();
                let mut calls: Vec<Call<'static>> = Vec::new();
                let shaders = self.shaders;
                let mut i: usize = 0;
                while i < shaders.len()
                    invariant
                        i <= shaders@.len(),
                        calls@ == attachments(program, shaders@.take(i as int)),
                    decreases shaders@.len() - i,
                {
                    // there are no relevant errors to handle here.
                    calls.push(Call::AttachShader { program, shader: shaders[i].name });
                    i += 1;
                }
                assert(shaders@.take(i as int) == shaders@);
                calls.push(Call::LinkProgram { program });
                calls.push(Call::GetProgramiv { program, pname: native::LINK_STATUS });
                let log = InfoLog {
                    object: program,
                    source: LogSource::Program,
                    stage: LogStage::Status { pname: native::LINK_STATUS },
                };
                LinkStep::Ask(calls, Link { stage: Stage::Retrieve(log), ..self })
            },
            Stage::Retrieve(log) => match log.step(reply) {
                LogStep::Ask(call, state) => LinkStep::Ask(
                    vec![call],
                    Link { stage: Stage::Retrieve(state), ..self },
                ),
                LogStep::Done(None) => {
                    if log.object != 0 {
                        LinkStep::Done(Vec::new(), Ok(Program { name: log.object }))
                    } else {
                        LinkStep::Done(
                            vec![Call::DeleteProgram { program: log.object }],
                            Err(String::new()),
                        )
                    }
                },
                LogStep::Done(Some(bytes)) => LinkStep::Done(
                    vec![Call::DeleteProgram { program: log.object }],
                    Err(decode(bytes.as_slice())),
                ),
            },
        }
    }
}

impl Program {
    #[verifier::type_invariant]
    spec fn named(&self) -> bool {
        self.name != 0
    }

    /// The name that the driver gave the object.
    pub closed spec fn id(&self) -> u32 {
        self.name
    }

    /// Link shaders into a program
    ///
    /// Begins with the call that creates the object. Any number of shaders
    /// can be linked, none too: whether the driver takes them is for the
    /// driver to say. The shaders are attached, not kept: they can be
    /// released once the link is over.
    pub fn link<'a>(shaders: &'a [Shader]) -> (first: LinkStep<'a>)
        ensures
            first matches LinkStep::Ask(calls, state) && {
                &&& calls@ == seq![Call::CreateProgram]
                &&& state == (Link { shaders, stage: Stage::Create })
            },
    {
        LinkStep::Ask(vec![Call::CreateProgram], Link { shaders, stage: Stage::Create })
    }

    /// Returns the name (id) of the program.
    pub fn get_name(&self) -> (name: u32)
        ensures
            name == self.id(),
            name != 0,
    {
        proof {
            use_type_invariant(self);
        }
        self.name
    }

    /// The call that makes this program the one that draws.
    pub fn bind(&self) -> (call: Call<'static>)
        ensures
            call == (Call::UseProgram { program: self.id() }),
    {
        Call::UseProgram { program: self.name }
    }

    /// The same call as `bind`.
    pub fn activate(&self) -> (call: Call<'static>)
        ensures
            call == (Call::UseProgram { program: self.id() }),
    {
        self.bind()
    }

    /// The call that binds the fragment output `name` to color attachment
    /// `color_number`.
    pub fn bind_frag<'a>(&self, color_number: u32, name: &'a str) -> (call: Call<'a>)
        requires
            nul_free(name.spec_bytes()),
        ensures
            call == (Call::BindFragDataLocation {
                program: self.id(),
                color: color_number,
                name,
            }),
    {
        Call::BindFragDataLocation { program: self.name, color: color_number, name }
    }

    /// The call that looks the uniform `name` up. The driver's answer is the
    /// location, whatever it is: a name that the program does not use gets
    /// the driver's own mark for that.
    pub fn uniform<'a>(&self, name: &'a str) -> (call: Call<'a>)
        requires
            nul_free(name.spec_bytes()),
        ensures
            call == (Call::GetUniformLocation { program: self.id(), name }),
    {
        Call::GetUniformLocation { program: self.name, name }
    }

    /// Gives the object up: the call that deletes it.
    pub fn release(self) -> (call: Call<'static>)
        ensures
            call == (Call::DeleteProgram { program: self.id() }),
    {
        Call::DeleteProgram { program: self.name }
    }
}

/// A compilation that the driver reports as done ends at once: with a shader
/// of the stage asked for, under the name that the driver gave the object,
/// with no diagnostic and no call left to make.
pub proof fn lemma_compile_success(source: &str, kind: ShaderType, created: Reply, status: Reply)
    requires
        status.signed() == native::TRUE,
    ensures
        ({
            let begun = Compile { kind, source, stage: Stage::Create };
            let sent = begun.follow(&created);
            &&& !begun.ends(&created)
            &&& begun.asks(&created) == begun.submission(created.unsigned())
            &&& sent.ends(&status)
            &&& sent.admits(&status)
            &&& sent.verdict(&status) == Ok::<(u32, ShaderType), Seq<char>>(
                (created.unsigned(), kind),
            )
            &&& sent.asks(&status) == Seq::<Call>::empty()
        }),
{
}

/// A compilation that the driver reports as failed ends with the log that
/// `info_log` retrieves, read as text, and deletes the object it created.
/// The text is empty only where the log is.
pub proof fn lemma_compile_failure(
    source: &str,
    kind: ShaderType,
    created: Reply,
    status: Reply,
    length: Reply,
    text: Reply,
)
    requires
        status.signed() != native::TRUE,
    ensures
        ({
            let sent = Compile { kind, source, stage: Stage::Create }.follow(&created);
            let asked = sent.follow(&status);
            let log = info_log(status.signed(), length.signed(), text.bytes());
            let failed = Err::<(u32, ShaderType), Seq<char>>(decode_utf8(log->0));
            let release = seq![Call::DeleteShader { shader: created.unsigned() }];
            &&& !sent.ends(&status)
            &&& log is Some
            &&& if asked.ends(&length) {
                asked.verdict(&length) == failed && asked.asks(&length) == release
            } else {
                &&& asked.follow(&length).ends(&text)
                &&& asked.follow(&length).verdict(&text) == failed
                &&& asked.follow(&length).asks(&text) == release
            }
            &&& valid_utf8(log->0) && log->0.len() > 0 ==> decode_utf8(log->0).len() > 0
        }),
{
}

/// A link of no shader attaches nothing: the object is created, linked and
/// asked for its status, and the driver's answer alone decides how the link
/// ends.
pub proof fn lemma_link_of_nothing(shaders: &[Shader], created: Reply, status: Reply)
    requires
        shaders@.len() == 0,
    ensures
        ({
            let begun = Link { shaders, stage: Stage::Create };
            let program = created.unsigned();
            let sent = begun.follow(&created);
            &&& begun.asks(&created) == seq![
                Call::LinkProgram { program },
                Call::GetProgramiv { program, pname: native::LINK_STATUS },
            ]
            &&& sent.ends(&status) <==> status.signed() == native::TRUE
            &&& sent.ends(&status) && program != 0 ==> {
                &&& sent.verdict(&status) == Ok::<u32, Seq<char>>(program)
                &&& sent.asks(&status) == Seq::<Call>::empty()
            }
        }),
{
}

} // verus!
