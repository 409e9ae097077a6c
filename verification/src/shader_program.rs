//! Building a linked GL shader program from a vertex and a fragment source.
//!
//! The GL itself is driven by the caller: a build hands out one GL call at a
//! time, the caller performs it and hands back what the GL returned, and
//! `program` decides the next call. The order is that of compiling each
//! shader (create, set source, compile, read the info log and print it when
//! it is not empty), vertex first, then creating the program, attaching both
//! shaders, linking, and deleting both shaders.

use vstd::prelude::*;
use vstd::utf8::valid_utf8;

verus! {

/// Size of the buffer the info log of a compiled shader is read into.
pub const INFO_LOG_CAPACITY: usize = 1024;

/// The two shader stages of a program.
#[derive(Clone, Copy, PartialEq, Eq, Structural, Debug)]
pub enum ShaderStage {
    Vertex,
    Fragment,
}

/// A GL call the caller is to perform.
#[derive(Debug, PartialEq, Eq)]
pub enum GlCall {
    /// `glCreateShader` for the stage; answer with the new shader's name.
    CreateShader { stage: ShaderStage },
    /// `glShaderSource` with this text as the only string.
    ShaderSource { shader: u32, source: String },
    /// `glCompileShader`.
    CompileShader { shader: u32 },
    /// `glGetShaderInfoLog` into a buffer of `capacity` bytes; answer with the
    /// length the GL reported and the buffer.
    GetShaderInfoLog { shader: u32, capacity: usize },
    /// Print these bytes, read as UTF-8, as one line.
    PrintInfoLog { text: Vec<u8> },
    /// `glCreateProgram`; answer with the new program's name.
    CreateProgram,
    /// `glAttachShader`.
    AttachShader { program: u32, shader: u32 },
    /// `glLinkProgram`.
    LinkProgram { program: u32 },
    /// `glDeleteShader`.
    DeleteShader { shader: u32 },
    /// Nothing more to do: the program is built.
    Finished { program: u32 },
}

/// What the caller hands back after performing a call.
#[derive(Debug, PartialEq, Eq)]
pub enum GlReply {
    /// The call returns nothing.
    Done,
    /// The name of a created shader or program.
    Name { id: u32 },
    /// The length the GL reported and the info log buffer.
    InfoLog { len: i32, log: Vec<u8> },
}

/// A GL call as a mathematical value.
pub ghost enum CallModel {
    CreateShader(ShaderStage),
    ShaderSource(u32, Seq<char>),
    CompileShader(u32),
    GetShaderInfoLog(u32, nat),
    PrintInfoLog(Seq<u8>),
    CreateProgram,
    AttachShader(u32, u32),
    LinkProgram(u32),
    DeleteShader(u32),
    Finished(u32),
}

/// A reply as a mathematical value.
pub ghost enum ReplyModel {
    Done,
    Name(u32),
    InfoLog(int, Seq<u8>),
}

impl View for GlCall {
    type V = CallModel;

    open spec fn view(&self) -> CallModel {
        match self {
            GlCall::CreateShader { stage } => CallModel::CreateShader(*stage),
            GlCall::ShaderSource { shader, source } => CallModel::ShaderSource(*shader, source@),
            GlCall::CompileShader { shader } => CallModel::CompileShader(*shader),
            GlCall::GetShaderInfoLog { shader, capacity } => CallModel::GetShaderInfoLog(
                *shader,
                *capacity as nat,
            ),
            GlCall::PrintInfoLog { text } => CallModel::PrintInfoLog(text@),
            GlCall::CreateProgram => CallModel::CreateProgram,
            GlCall::AttachShader { program, shader } => CallModel::AttachShader(*program, *shader),
            GlCall::LinkProgram { program } => CallModel::LinkProgram(*program),
            GlCall::DeleteShader { shader } => CallModel::DeleteShader(*shader),
            GlCall::Finished { program } => CallModel::Finished(*program),
        }
    }
}

impl View for GlReply {
    type V = ReplyModel;

    open spec fn view(&self) -> ReplyModel {
        match self {
            GlReply::Done => ReplyModel::Done,
            GlReply::Name { id } => ReplyModel::Name(*id),
            GlReply::InfoLog { len, log } => ReplyModel::InfoLog(*len as int, log@),
        }
    }
}

/// The call a build has handed out and waits to hear back from.
#[derive(Clone, Copy, PartialEq, Eq, Structural, Debug)]
pub enum Phase {
    CreatingShader(ShaderStage),
    SettingSource(ShaderStage),
    Compiling(ShaderStage),
    ReadingLog(ShaderStage),
    PrintingLog(ShaderStage),
    CreatingProgram,
    AttachingVertex,
    AttachingFragment,
    Linking,
    DeletingVertex,
    DeletingFragment,
    Finished,
}

/// A build in progress: the two sources, the call it waits on, and the names
/// the GL has handed out so far.
pub struct ProgramBuild {
    vertex_source: String,
    fragment_source: String,
    phase: Phase,
    vertex: u32,
    fragment: u32,
    program: u32,
}

/// A build as a mathematical value.
pub ghost struct BuildModel {
    pub vertex_source: Seq<char>,
    pub fragment_source: Seq<char>,
    pub phase: Phase,
    pub vertex: u32,
    pub fragment: u32,
    pub program: u32,
}

impl View for ProgramBuild {
    type V = BuildModel;

    closed spec fn view(&self) -> BuildModel {
        BuildModel {
            vertex_source: self.vertex_source@,
            fragment_source: self.fragment_source@,
            phase: self.phase,
            vertex: self.vertex,
            fragment: self.fragment,
            program: self.program,
        }
    }
}

/// A fresh build of these two sources, waiting on `glCreateShader` for the
/// vertex stage.
pub open spec fn start(vs: Seq<char>, fs: Seq<char>) -> BuildModel {
    BuildModel {
        vertex_source: vs,
        fragment_source: fs,
        phase: Phase::CreatingShader(ShaderStage::Vertex),
        vertex: 0,
        fragment: 0,
        program: 0,
    }
}

/// An info log reply the build can print: the buffer of `INFO_LOG_CAPACITY`
/// bytes, a reported length within it, and valid UTF-8 up to that length.
pub open spec fn log_fits(len: int, log: Seq<u8>) -> bool {
    &&& log.len() == INFO_LOG_CAPACITY
    &&& 0 <= len <= log.len()
    &&& valid_utf8(log.take(len))
}

/// Tells whether bytes are valid UTF-8, by `std::str::from_utf8`, which
/// accepts exactly the byte sequences that are UTF-8 (the contract claims
/// that its verdict is vstd's `valid_utf8`).
#[verifier::external_body]
fn is_utf8(bytes: &[u8]) -> (ok: bool)
    ensures
        ok == valid_utf8(bytes@),
{
    std::str::from_utf8(bytes).is_ok()
}

impl BuildModel {
    /// The source of a stage.
    pub open spec fn source_of(self, stage: ShaderStage) -> Seq<char> {
        match stage {
            ShaderStage::Vertex => self.vertex_source,
            ShaderStage::Fragment => self.fragment_source,
        }
    }

    /// The shader name of a stage.
    pub open spec fn shader_of(self, stage: ShaderStage) -> u32 {
        match stage {
            ShaderStage::Vertex => self.vertex,
            ShaderStage::Fragment => self.fragment,
        }
    }

    /// The build with the shader name of a stage set.
    pub open spec fn with_shader(self, stage: ShaderStage, id: u32) -> BuildModel {
        match stage {
            ShaderStage::Vertex => BuildModel { vertex: id, ..self },
            ShaderStage::Fragment => BuildModel { fragment: id, ..self },
        }
    }

    /// Whether the build can take this reply to the call it waits on: a name
    /// for a create call; for a log read, the buffer of `INFO_LOG_CAPACITY`
    /// bytes that was asked for, with a reported length within it and a log
    /// that is valid UTF-8 up to that length; nothing for the other calls; and
    /// no reply once the build is finished.
    pub open spec fn accepts(self, reply: ReplyModel) -> bool {
        match self.phase {
            Phase::CreatingShader(_) | Phase::CreatingProgram => reply is Name,
            Phase::ReadingLog(_) => match reply {
                ReplyModel::InfoLog(len, log) => log_fits(len, log),
                _ => false,
            },
            Phase::Finished => false,
            _ => reply is Done,
        }
    }

    /// The state a build moves to once the shader of `stage` is compiled and
    /// its log handled, and the call it hands out: the fragment shader comes
    /// after the vertex shader, the program after both.
    pub open spec fn after_shader(self, stage: ShaderStage) -> (BuildModel, CallModel) {
        match stage {
            ShaderStage::Vertex => (
                BuildModel { phase: Phase::CreatingShader(ShaderStage::Fragment), ..self },
                CallModel::CreateShader(ShaderStage::Fragment),
            ),
            ShaderStage::Fragment => (
                BuildModel { phase: Phase::CreatingProgram, ..self },
                CallModel::CreateProgram,
            ),
        }
    }

    /// The next state and the next call of a build that is given `reply`.
    pub open spec fn advance(self, reply: ReplyModel) -> (BuildModel, CallModel)
        recommends
            self.accepts(reply),
    {
        match self.phase {
            Phase::CreatingShader(stage) => {
                let b = self.with_shader(stage, reply->Name_0);
                (
                    BuildModel { phase: Phase::SettingSource(stage), ..b },
                    CallModel::ShaderSource(b.shader_of(stage), b.source_of(stage)),
                )
            },
            Phase::SettingSource(stage) => (
                BuildModel { phase: Phase::Compiling(stage), ..self },
                CallModel::CompileShader(self.shader_of(stage)),
            ),
            Phase::Compiling(stage) => (
                BuildModel { phase: Phase::ReadingLog(stage), ..self },
                CallModel::GetShaderInfoLog(self.shader_of(stage), INFO_LOG_CAPACITY as nat),
            ),
            Phase::ReadingLog(stage) => {
                let len = reply->InfoLog_0;
                let log = reply->InfoLog_1;
                if len != 0 {
                    (
                        BuildModel { phase: Phase::PrintingLog(stage), ..self },
                        CallModel::PrintInfoLog(log.take(len)),
                    )
                } else {
                    self.after_shader(stage)
                }
            },
            Phase::PrintingLog(stage) => self.after_shader(stage),
            Phase::CreatingProgram => {
                let p = reply->Name_0;
                (
                    BuildModel { phase: Phase::AttachingVertex, program: p, ..self },
                    CallModel::AttachShader(p, self.vertex),
                )
            },
            Phase::AttachingVertex => (
                BuildModel { phase: Phase::AttachingFragment, ..self },
                CallModel::AttachShader(self.program, self.fragment),
            ),
            Phase::AttachingFragment => (
                BuildModel { phase: Phase::Linking, ..self },
                CallModel::LinkProgram(self.program),
            ),
            Phase::Linking => (
                BuildModel { phase: Phase::DeletingVertex, ..self },
                CallModel::DeleteShader(self.vertex),
            ),
            Phase::DeletingVertex => (
                BuildModel { phase: Phase::DeletingFragment, ..self },
                CallModel::DeleteShader(self.fragment),
            ),
            Phase::DeletingFragment => (
                BuildModel { phase: Phase::Finished, ..self },
                CallModel::Finished(self.program),
            ),
            Phase::Finished => (self, CallModel::Finished(self.program)),
        }
    }
}

impl ProgramBuild {
    /// Starts building a program from a vertex and a fragment shader source,
    /// and hands out the first call: creating the vertex shader.
    pub fn new(vs: &str, fs: &str) -> (res: (ProgramBuild, GlCall))
        ensures
            res.0@ == start(vs@, fs@),
            res.1@ == CallModel::CreateShader(ShaderStage::Vertex),
    {
        let build = ProgramBuild {
            vertex_source: vs.to_string(),
            fragment_source: fs.to_string(),
            phase: Phase::CreatingShader(ShaderStage::Vertex),
            vertex: 0,
            fragment: 0,
            program: 0,
        };
        (build, GlCall::CreateShader { stage: ShaderStage::Vertex })
    }

    /// Whether the build can take this reply (see `BuildModel::accepts`).
    pub fn accepts(&self, reply: &GlReply) -> (ok: bool)
        ensures
            ok == self@.accepts(reply@),
    {
        match self.phase {
            Phase::CreatingShader(_) | Phase::CreatingProgram => match reply {
                GlReply::Name { .. } => true,
                _ => false,
            },
            Phase::ReadingLog(_) => match reply {
                GlReply::InfoLog { len, log } => {
                    if log.len() == INFO_LOG_CAPACITY && 0 <= *len && *len as usize <= log.len() {
                        let prefix = vstd::slice::slice_subrange(log.as_slice(), 0, *len as usize);
                        assert(prefix@ =~= log@.take(*len as int));
                        is_utf8(prefix)
                    } else {
                        false
                    }
                },
                _ => false,
            },
            Phase::Finished => false,
            _ => match reply {
                GlReply::Done => true,
                _ => false,
            },
        }
    }

    /// The build's phase.
    pub fn phase(&self) -> (p: Phase)
        ensures
            p == self@.phase,
    {
        self.phase
    }

    fn source_of(&self, stage: ShaderStage) -> (s: String)
        ensures
            s@ == self@.source_of(stage),
    {
        match stage {
            ShaderStage::Vertex => self.vertex_source.clone(),
            ShaderStage::Fragment => self.fragment_source.clone(),
        }
    }

    fn shader_of(&self, stage: ShaderStage) -> (id: u32)
        ensures
            id == self@.shader_of(stage),
    {
        match stage {
            ShaderStage::Vertex => self.vertex,
            ShaderStage::Fragment => self.fragment,
        }
    }

    fn finish_shader(&mut self, stage: ShaderStage) -> (call: GlCall)
        ensures
            (final(self)@, call@) == old(self)@.after_shader(stage),
    {
        match stage {
            ShaderStage::Vertex => {
                self.phase = Phase::CreatingShader(ShaderStage::Fragment);
                GlCall::CreateShader { stage: ShaderStage::Fragment }
            },
            ShaderStage::Fragment => {
                self.phase = Phase::CreatingProgram;
                GlCall::CreateProgram
            },
        }
    }
}

/// Law of the log read: while a build waits on reading a shader's info log,
/// it takes exactly the replies that carry the buffer of 1024 bytes asked
/// for, a length from 0 to 1024, and bytes that are valid UTF-8 up to that
/// length, whatever those bytes are; and it takes no other kind of reply.
pub proof fn law_log_replies_taken(b: BuildModel, stage: ShaderStage, len: int, log: Seq<u8>)
    requires
        b.phase == Phase::ReadingLog(stage),
    ensures
        b.accepts(ReplyModel::InfoLog(len, log)) == (log.len() == 1024 && 0 <= len <= 1024
            && valid_utf8(log.take(len))),
        !b.accepts(ReplyModel::Done),
        forall|id: u32| !#[trigger] b.accepts(ReplyModel::Name(id)),
{
}

/// Takes the reply to the call a build waits on, and hands out the next
/// call, as `BuildModel::advance` lays down.
pub fn program(build: &mut ProgramBuild, reply: GlReply) -> (call: GlCall)
    requires
        old(build)@.accepts(reply@),
    ensures
        (final(build)@, call@) == old(build)@.advance(reply@),
{
    match build.phase {
        Phase::CreatingShader(stage) => {
            let id = match reply {
                GlReply::Name { id } => id,
                _ => 0,
            };
            match stage {
                ShaderStage::Vertex => build.vertex = id,
                ShaderStage::Fragment => build.fragment = id,
            }
            build.phase = Phase::SettingSource(stage);
            let source = build.source_of(stage);
            GlCall::ShaderSource { shader: id, source }
        },
        Phase::SettingSource(stage) => {
            build.phase = Phase::Compiling(stage);
            GlCall::CompileShader { shader: build.shader_of(stage) }
        },
        Phase::Compiling(stage) => {
            build.phase = Phase::ReadingLog(stage);
            GlCall::GetShaderInfoLog { shader: build.shader_of(stage), capacity: INFO_LOG_CAPACITY }
        },
        Phase::ReadingLog(stage) => {
            match reply {
                GlReply::InfoLog { len, log } => {
                    if len != 0 {
                        let mut text = log;
                        text.truncate(len as usize);
                        build.phase = Phase::PrintingLog(stage);
                        GlCall::PrintInfoLog { text }
                    } else {
                        build.finish_shader(stage)
                    }
                },
                _ => build.finish_shader(stage),
            }
        },
        Phase::PrintingLog(stage) => build.finish_shader(stage),
        Phase::CreatingProgram => {
            let p = match reply {
                GlReply::Name { id } => id,
                _ => 0,
            };
            build.program = p;
            build.phase = Phase::AttachingVertex;
            GlCall::AttachShader { program: p, shader: build.vertex }
        },
        Phase::AttachingVertex => {
            build.phase = Phase::AttachingFragment;
            GlCall::AttachShader { program: build.program, shader: build.fragment }
        },
        Phase::AttachingFragment => {
            build.phase = Phase::Linking;
            GlCall::LinkProgram { program: build.program }
        },
        Phase::Linking => {
            build.phase = Phase::DeletingVertex;
            GlCall::DeleteShader { shader: build.vertex }
        },
        Phase::DeletingVertex => {
            build.phase = Phase::DeletingFragment;
            GlCall::DeleteShader { shader: build.fragment }
        },
        Phase::DeletingFragment => {
            build.phase = Phase::Finished;
            GlCall::Finished { program: build.program }
        },
        Phase::Finished => GlCall::Finished { program: build.program },
    }
}

} // verus!
