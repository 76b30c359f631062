//! Shader stages and programs, driven without touching the graphics API.
//!
//! Compiling a stage and linking a program are both conversations with the
//! graphics driver: a call is made, the driver answers, and the answer decides
//! the next call. The types here hold the state of such a conversation. They
//! say which call comes next and take the driver's answer; the caller makes
//! the call.
use crate::convert::{reinterpret, to_signed};
use vstd::prelude::*;
use vstd::string::*;

verus! {

/// The pipeline stage a shader is written for.
#[derive(Debug, Clone, Copy, PartialEq, Eq, Structural)]
pub enum ShaderType {
    Vertex,
    Fragment,
}

impl ShaderType {
    /// The stage's name as it appears in diagnostics.
    pub open spec fn spec_name(self) -> Seq<char> {
        match self {
            ShaderType::Vertex => "Vertex"@,
            ShaderType::Fragment => "Fragment"@,
        }
    }

    /// The stage's name as it appears in diagnostics.
    pub fn name(&self) -> (name: String)
        ensures
            name@ == self.spec_name(),
    {
        match self {
            ShaderType::Vertex => String::from_str("Vertex"),
            ShaderType::Fragment => String::from_str("Fragment"),
        }
    }
}

/// What the driver answers to a call.
#[derive(Debug, PartialEq, Eq)]
pub enum ShaderReply {
    /// The call returns nothing.
    Done,
    /// The name of a newly created object.
    Handle(u32),
    /// A compile or link status: zero for failure.
    Status(i32),
    /// The bytes of an information log.
    Log(Vec<u8>),
}

/// Why a shader or a program could not be made.
#[derive(Debug, PartialEq, Eq)]
pub enum ShaderError {
    /// The source text holds a zero byte, first at `position`.
    InvalidSource { position: usize },
    /// The driver's compiler rejected the stage; `log` is its information log.
    CompilationFailed { stage: ShaderType, log: Vec<u8> },
    /// The driver's linker rejected the program; `log` is its information log.
    LinkFailed { log: Vec<u8> },
}

/// The text that `String::from_utf8_lossy` makes of `bytes`.
pub uninterp spec fn lossy_utf8(bytes: Seq<u8>) -> Seq<char>;

/// The text that the `{:?}` format makes of a string: quoted and escaped.
pub uninterp spec fn debug_form(text: Seq<char>) -> Seq<char>;

/// Calls `String::from_utf8_lossy`: decodes `bytes` as UTF-8, each invalid
/// sequence replaced by U+FFFD. The contract only names the result.
#[verifier::external_body]
fn decode_lossy(bytes: &[u8]) -> (text: String)
    ensures
        text@ == lossy_utf8(bytes@),
{
    String::from_utf8_lossy(bytes).into_owned()
}

/// Formats `text` with `{:?}`, as `<str as Debug>::fmt` writes it. The
/// contract only names the result.
#[verifier::external_body]
fn format_debug(text: &str) -> (quoted: String)
    ensures
        quoted@ == debug_form(text@),
{
    format!("{:?}", text)
}

/// The message of a failed compilation of `stage` with the given diagnostic.
pub open spec fn spec_compilation_message(stage: ShaderType, diagnostic: Seq<char>) -> Seq<char> {
    "ERROR::SHADER::"@ + stage.spec_name() + "::COMPILATION_FAILED\n"@ + diagnostic
}

/// The message of a failed link with the given diagnostic.
pub open spec fn spec_link_message(diagnostic: Seq<char>) -> Seq<char> {
    "ERROR::SHADER::Program::COMPILATION_FAILED\n"@ + diagnostic
}

/// The message of a failed compilation: a fixed frame around the stage's
/// name, then the diagnostic on a line of its own.
pub fn compilation_message(stage: ShaderType, diagnostic: &str) -> (message: String)
    ensures
        message@ == spec_compilation_message(stage, diagnostic@),
{
    let mut message = String::from_str("ERROR::SHADER::");
    let name = stage.name();
    message.append(name.as_str());
    message.append("::COMPILATION_FAILED\n");
    message.append(diagnostic);
    message
}

/// The message of a failed link: a fixed first line, then the diagnostic.
pub fn link_message(diagnostic: &str) -> (message: String)
    ensures
        message@ == spec_link_message(diagnostic@),
{
    let mut message = String::from_str("ERROR::SHADER::Program::COMPILATION_FAILED\n");
    message.append(diagnostic);
    message
}

impl ShaderError {
    /// The error's message.
    pub open spec fn spec_message(self) -> Seq<char> {
        match self {
            ShaderError::InvalidSource { .. } => "data provided contains a nul byte"@,
            ShaderError::CompilationFailed { stage, log } => spec_compilation_message(
                stage,
                debug_form(lossy_utf8(log@)),
            ),
            ShaderError::LinkFailed { log } => spec_link_message(debug_form(lossy_utf8(log@))),
        }
    }

    /// The error's message. For a rejected stage or program it embeds the
    /// driver's log, decoded leniently and written as a quoted string.
    pub fn message(&self) -> (text: String)
        ensures
            text@ == self.spec_message(),
    {
        match self {
            ShaderError::InvalidSource { .. } => String::from_str(
                "data provided contains a nul byte",
            ),
            ShaderError::CompilationFailed { stage, log } => {
                let decoded = decode_lossy(log.as_slice());
                let quoted = format_debug(decoded.as_str());
                compilation_message(*stage, quoted.as_str())
            },
            ShaderError::LinkFailed { log } => {
                let decoded = decode_lossy(log.as_slice());
                let quoted = format_debug(decoded.as_str());
                link_message(quoted.as_str())
            },
        }
    }
}

/// Whether `part` stands in `text` at index `at`.
pub open spec fn stands_at(text: Seq<char>, part: Seq<char>, at: int) -> bool {
    0 <= at && at + part.len() <= text.len() && text.subrange(at, at + part.len()) == part
}

/// The message of a failed compilation holds the stage's name, right after
/// the fifteen characters of its opening, and ends with the diagnostic.
pub proof fn lemma_compilation_message_holds_stage_and_diagnostic(
    stage: ShaderType,
    diagnostic: Seq<char>,
)
    ensures
        stands_at(spec_compilation_message(stage, diagnostic), stage.spec_name(), 15),
        stands_at(
            spec_compilation_message(stage, diagnostic),
            diagnostic,
            spec_compilation_message(stage, diagnostic).len() - diagnostic.len(),
        ),
        stage.spec_name().len() > 0,
{
    reveal_strlit("ERROR::SHADER::");
    reveal_strlit("Vertex");
    reveal_strlit("Fragment");
    let message = spec_compilation_message(stage, diagnostic);
    let name = stage.spec_name();
    assert(message.subrange(15, 15int + name.len()) =~= name);
    let start = message.len() - diagnostic.len();
    assert(message.subrange(start, start + diagnostic.len()) =~= diagnostic);
}

/// A call to make for a stage that is being compiled.
#[derive(Debug, Clone, Copy, PartialEq, Eq, Structural)]
pub enum ShaderCall {
    /// Create a shader object for the stage; the answer is its handle.
    Create { stage: ShaderType },
    /// Give the shader object its source text.
    Source { shader: u32 },
    /// Compile the shader object.
    Compile { shader: u32 },
    /// Ask for the compile status; the answer is a status.
    CompileStatus { shader: u32 },
    /// Ask for the information log; the answer is a log.
    InfoLog { shader: u32 },
}

/// How far the compilation of a stage has come: the call it waits on, or how
/// it ended.
#[derive(Debug, Clone, Copy, PartialEq, Eq, Structural)]
pub enum CompileStep {
    Create,
    Source,
    Compile,
    Status,
    Log,
    Ready,
    Failed,
}

/// A stage on its way from source text to a compiled shader object.
pub struct Shader {
    shader_type: ShaderType,
    shader_program_id: u32,
    shader_program: Vec<u8>,
    step: CompileStep,
    log: Vec<u8>,
}

/// What a `Shader` stands for.
pub struct ShaderView {
    pub stage: ShaderType,
    /// The source text.
    pub source: Seq<u8>,
    /// The shader object's handle, zero until the driver has given one.
    pub id: u32,
    pub step: CompileStep,
    /// The information log, empty unless the compilation failed.
    pub log: Seq<u8>,
}

/// Whether `position` is the index of the first zero byte of `bytes`.
pub open spec fn is_first_zero(bytes: Seq<u8>, position: int) -> bool {
    &&& 0 <= position < bytes.len()
    &&& bytes[position] == 0
    &&& forall|i: int| 0 <= i < position ==> bytes[i] != 0
}

impl ShaderView {
    /// The state of a stage whose source text was just accepted.
    pub open spec fn start(stage: ShaderType, source: Seq<u8>) -> ShaderView {
        ShaderView { stage, source, id: 0, step: CompileStep::Create, log: Seq::empty() }
    }

    /// The call to make now, if the compilation has not ended.
    pub open spec fn call(self) -> Option<ShaderCall> {
        match self.step {
            CompileStep::Create => Some(ShaderCall::Create { stage: self.stage }),
            CompileStep::Source => Some(ShaderCall::Source { shader: self.id }),
            CompileStep::Compile => Some(ShaderCall::Compile { shader: self.id }),
            CompileStep::Status => Some(ShaderCall::CompileStatus { shader: self.id }),
            CompileStep::Log => Some(ShaderCall::InfoLog { shader: self.id }),
            CompileStep::Ready | CompileStep::Failed => None,
        }
    }

    /// Whether `reply` is the kind of answer that the call of this state gets.
    pub open spec fn awaits(self, reply: ShaderReply) -> bool {
        match self.step {
            CompileStep::Create => reply is Handle,
            CompileStep::Source | CompileStep::Compile => reply is Done,
            CompileStep::Status => reply is Status,
            CompileStep::Log => reply is Log,
            CompileStep::Ready | CompileStep::Failed => false,
        }
    }

    /// The state after `reply`. An answer of another kind than the one
    /// awaited changes nothing; a state that has ended stays as it is.
    pub open spec fn next(self, reply: ShaderReply) -> ShaderView {
        match (self.step, reply) {
            (CompileStep::Create, ShaderReply::Handle(id)) => ShaderView {
                id,
                step: CompileStep::Source,
                ..self
            },
            (CompileStep::Source, ShaderReply::Done) => ShaderView {
                step: CompileStep::Compile,
                ..self
            },
            (CompileStep::Compile, ShaderReply::Done) => ShaderView {
                step: CompileStep::Status,
                ..self
            },
            (CompileStep::Status, ShaderReply::Status(status)) => ShaderView {
                step: if status == 0 {
                    CompileStep::Log
                } else {
                    CompileStep::Ready
                },
                ..self
            },
            (CompileStep::Log, ShaderReply::Log(log)) => ShaderView {
                step: CompileStep::Failed,
                log: log@,
                ..self
            },
            _ => self,
        }
    }

    /// Whether the compilation has ended, well or badly.
    pub open spec fn ended(self) -> bool {
        self.step is Ready || self.step is Failed
    }

    /// The calls of a whole compilation, in order: the log is read only
    /// after a failure.
    pub open spec fn script(self, compiled: bool) -> Seq<ShaderCall> {
        let first = seq![
            ShaderCall::Create { stage: self.stage },
            ShaderCall::Source { shader: self.id },
            ShaderCall::Compile { shader: self.id },
            ShaderCall::CompileStatus { shader: self.id },
        ];
        if compiled {
            first
        } else {
            first.push(ShaderCall::InfoLog { shader: self.id })
        }
    }

    /// How many calls of the script have been answered.
    pub open spec fn position(self) -> nat {
        match self.step {
            CompileStep::Create => 0,
            CompileStep::Source => 1,
            CompileStep::Compile => 2,
            CompileStep::Status => 3,
            CompileStep::Log => 4,
            CompileStep::Ready => 4,
            CompileStep::Failed => 5,
        }
    }
}

impl View for Shader {
    type V = ShaderView;

    closed spec fn view(&self) -> ShaderView {
        ShaderView {
            stage: self.shader_type,
            source: self.shader_program@,
            id: self.shader_program_id,
            step: self.step,
            log: self.log@,
        }
    }
}

/// The index of the first zero byte of `bytes`, if there is one.
fn first_zero(bytes: &Vec<u8>) -> (found: Option<usize>)
    ensures
        match found {
            Some(position) => is_first_zero(bytes@, position as int),
            None => !bytes@.contains(0u8),
        },
{
    let mut i: usize = 0;
    while i < bytes.len()
        invariant
            i <= bytes.len(),
            forall|j: int| 0 <= j < i ==> bytes@[j] != 0,
        decreases bytes.len() - i,
    {
        if bytes[i] == 0 {
            return Some(i);
        }
        i += 1;
    }
    None
}

impl Shader {
    /// Takes the source text of a stage and starts its compilation.
    ///
    /// The text goes to the driver as a C string, so a zero byte in it is an
    /// error, reported with the index of the first one. Otherwise the result
    /// is a compilation that waits for its first call.
    pub fn load_shader(shader_type: ShaderType, source: Vec<u8>) -> (result: Result<
        Shader,
        ShaderError,
    >)
        ensures
            match result {
                Ok(shader) => !source@.contains(0u8) && shader@ == ShaderView::start(
                    shader_type,
                    source@,
                ),
                Err(error) => error matches ShaderError::InvalidSource { position }
                    && is_first_zero(source@, position as int),
            },
    {
        match first_zero(&source) {
            Some(position) => Err(ShaderError::InvalidSource { position }),
            None => Ok(
                Shader {
                    shader_type,
                    shader_program_id: 0,
                    shader_program: source,
                    step: CompileStep::Create,
                    log: Vec::new(),
                },
            ),
        }
    }

    /// The source text.
    pub fn source(&self) -> (source: &Vec<u8>)
        ensures
            source@ == self@.source,
    {
        &self.shader_program
    }

    /// The call to make now, or `None` once the compilation has ended.
    pub fn next_call(&self) -> (call: Option<ShaderCall>)
        ensures
            call == self@.call(),
    {
        match self.step {
            CompileStep::Create => Some(ShaderCall::Create { stage: self.shader_type }),
            CompileStep::Source => Some(ShaderCall::Source { shader: self.shader_program_id }),
            CompileStep::Compile => Some(ShaderCall::Compile { shader: self.shader_program_id }),
            CompileStep::Status => Some(
                ShaderCall::CompileStatus { shader: self.shader_program_id },
            ),
            CompileStep::Log => Some(ShaderCall::InfoLog { shader: self.shader_program_id }),
            CompileStep::Ready | CompileStep::Failed => None,
        }
    }

    /// Takes the driver's answer to the call last asked for.
    pub fn advance(&mut self, reply: ShaderReply)
        ensures
            final(self)@ == old(self)@.next(reply),
    {
        match (self.step, reply) {
            (CompileStep::Create, ShaderReply::Handle(id)) => {
                self.shader_program_id = id;
                self.step = CompileStep::Source;
            },
            (CompileStep::Source, ShaderReply::Done) => {
                self.step = CompileStep::Compile;
            },
            (CompileStep::Compile, ShaderReply::Done) => {
                self.step = CompileStep::Status;
            },
            (CompileStep::Status, ShaderReply::Status(status)) => {
                if status == 0 {
                    self.step = CompileStep::Log;
                } else {
                    self.step = CompileStep::Ready;
                }
            },
            (CompileStep::Log, ShaderReply::Log(log)) => {
                self.log = log;
                self.step = CompileStep::Failed;
            },
            _ => {},
        }
    }

    /// How the compilation ended: the shader object's handle, or the error
    /// with the driver's log. `None` while calls are still to be made.
    pub fn outcome(&self) -> (outcome: Option<Result<u32, ShaderError>>)
        ensures
            !self@.ended() ==> outcome is None,
            self@.step is Ready ==> outcome == Some::<Result<u32, ShaderError>>(Ok(self@.id)),
            self@.step is Failed ==> (outcome matches Some(
                Err(ShaderError::CompilationFailed { stage, log }),
            ) && stage == self@.stage && log@ == self@.log),
    {
        match self.step {
            CompileStep::Ready => Some(Ok(self.shader_program_id)),
            CompileStep::Failed => Some(
                Err(ShaderError::CompilationFailed { stage: self.shader_type, log: self.log.clone() }),
            ),
            _ => None,
        }
    }
}

/// A compilation asks for the calls of its script, in order, and for
/// nothing once the script is through.
pub proof fn lemma_compilation_follows_script(state: ShaderView, compiled: bool)
    requires
        state.step is Ready ==> compiled,
        state.step is Log || state.step is Failed ==> !compiled,
    ensures
        state.call() == if state.position() < state.script(compiled).len() {
            Some(state.script(compiled)[state.position() as int])
        } else {
            None
        },
{
}

/// An awaited answer moves a compilation one call further; nothing else
/// moves it at all. Only the first answer sets the handle, which the state
/// had at zero until then.
pub proof fn lemma_compilation_moves_by_answers(state: ShaderView, reply: ShaderReply)
    ensures
        state.awaits(reply) ==> state.next(reply).position() == state.position() + 1,
        !state.awaits(reply) ==> state.next(reply) == state,
        state.ended() ==> !state.awaits(reply),
        !(state.step is Create) ==> state.next(reply).id == state.id,
        state.next(reply).stage == state.stage,
        state.next(reply).source == state.source,
{
}

/// A call to make for a program.
#[derive(Debug, Clone, Copy, PartialEq, Eq, Structural)]
pub enum ProgramCall {
    /// Attach a compiled shader object to the program.
    Attach { program: u32, shader: u32 },
    /// Link the program.
    Link { program: u32 },
    /// Ask for the link status; the answer is a status.
    LinkStatus { program: u32 },
    /// Ask for the information log; the answer is a log.
    InfoLog { program: u32 },
    /// Delete a shader object.
    DeleteShader { shader: u32 },
    /// Make the program the current one.
    Use { program: u32 },
}

/// How far the build of a program has come: the call it waits on, with the
/// index of the shader where the call has one, or how it ended.
#[derive(Debug, Clone, Copy, PartialEq, Eq, Structural)]
pub enum BuildStep {
    Attach(usize),
    Link,
    Status,
    Log,
    Delete(usize),
    Linked,
    Failed,
}

/// A program handle.
pub struct ShaderProgram {
    pub shader_program_id: u32,
}

/// A program on its way from compiled shader objects to a linked whole.
pub struct ProgramBuild {
    program: u32,
    shaders: Vec<u32>,
    step: BuildStep,
    log: Vec<u8>,
}

/// What a `ProgramBuild` stands for.
pub struct ProgramBuildView {
    pub program: u32,
    /// The shader objects, in the order in which they are attached.
    pub shaders: Seq<u32>,
    pub step: BuildStep,
    /// The information log, empty unless the link failed.
    pub log: Seq<u8>,
}

impl ProgramBuildView {
    /// The state of a build of which no call has been made.
    pub open spec fn start(program: u32, shaders: Seq<u32>) -> ProgramBuildView {
        ProgramBuildView {
            program,
            shaders,
            step: if shaders.len() == 0 {
                BuildStep::Link
            } else {
                BuildStep::Attach(0)
            },
            log: Seq::empty(),
        }
    }

    /// A step that names a shader names one of the build's.
    pub open spec fn wf(self) -> bool {
        match self.step {
            BuildStep::Attach(i) => i < self.shaders.len(),
            BuildStep::Delete(i) => i < self.shaders.len(),
            _ => true,
        }
    }

    /// The call to make now, if the build has not ended.
    pub open spec fn call(self) -> Option<ProgramCall> {
        match self.step {
            BuildStep::Attach(i) => Some(
                ProgramCall::Attach { program: self.program, shader: self.shaders[i as int] },
            ),
            BuildStep::Link => Some(ProgramCall::Link { program: self.program }),
            BuildStep::Status => Some(ProgramCall::LinkStatus { program: self.program }),
            BuildStep::Log => Some(ProgramCall::InfoLog { program: self.program }),
            BuildStep::Delete(i) => Some(ProgramCall::DeleteShader { shader: self.shaders[i as int] }),
            BuildStep::Linked | BuildStep::Failed => None,
        }
    }

    /// Whether `reply` is the kind of answer that the call of this state gets.
    pub open spec fn awaits(self, reply: ShaderReply) -> bool {
        match self.step {
            BuildStep::Attach(_) | BuildStep::Link | BuildStep::Delete(_) => reply is Done,
            BuildStep::Status => reply is Status,
            BuildStep::Log => reply is Log,
            BuildStep::Linked | BuildStep::Failed => false,
        }
    }

    /// The step after the shader at index `i` was attached.
    pub open spec fn after_attach(self, i: usize) -> BuildStep {
        if i + 1 < self.shaders.len() {
            BuildStep::Attach((i + 1) as usize)
        } else {
            BuildStep::Link
        }
    }

    /// The step after the shader at index `i` was deleted.
    pub open spec fn after_delete(self, i: usize) -> BuildStep {
        if i + 1 < self.shaders.len() {
            BuildStep::Delete((i + 1) as usize)
        } else {
            BuildStep::Linked
        }
    }

    /// The step after the link status was read.
    pub open spec fn after_status(self, status: i32) -> BuildStep {
        if status == 0 {
            BuildStep::Log
        } else if self.shaders.len() == 0 {
            BuildStep::Linked
        } else {
            BuildStep::Delete(0)
        }
    }

    /// The state after `reply`. An answer of another kind than the one
    /// awaited changes nothing; a state that has ended stays as it is.
    pub open spec fn next(self, reply: ShaderReply) -> ProgramBuildView {
        match (self.step, reply) {
            (BuildStep::Attach(i), ShaderReply::Done) => ProgramBuildView {
                step: self.after_attach(i),
                ..self
            },
            (BuildStep::Link, ShaderReply::Done) => ProgramBuildView {
                step: BuildStep::Status,
                ..self
            },
            (BuildStep::Status, ShaderReply::Status(status)) => ProgramBuildView {
                step: self.after_status(status),
                ..self
            },
            (BuildStep::Log, ShaderReply::Log(log)) => ProgramBuildView {
                step: BuildStep::Failed,
                log: log@,
                ..self
            },
            (BuildStep::Delete(i), ShaderReply::Done) => ProgramBuildView {
                step: self.after_delete(i),
                ..self
            },
            _ => self,
        }
    }

    /// Whether the build has ended, well or badly.
    pub open spec fn ended(self) -> bool {
        self.step is Linked || self.step is Failed
    }

    /// The calls of a whole build, in order: each shader attached, the link,
    /// its status, and then each shader deleted if the link held, or the log
    /// read if it did not.
    pub open spec fn script(self, linked: bool) -> Seq<ProgramCall> {
        let attach = Seq::new(
            self.shaders.len(),
            |i: int| ProgramCall::Attach { program: self.program, shader: self.shaders[i] },
        );
        let link = seq![
            ProgramCall::Link { program: self.program },
            ProgramCall::LinkStatus { program: self.program },
        ];
        let close = if linked {
            Seq::new(
                self.shaders.len(),
                |i: int| ProgramCall::DeleteShader { shader: self.shaders[i] },
            )
        } else {
            seq![ProgramCall::InfoLog { program: self.program }]
        };
        attach + link + close
    }

    /// How many calls of the script have been answered.
    pub open spec fn position(self) -> nat {
        let n = self.shaders.len();
        match self.step {
            BuildStep::Attach(i) => i as nat,
            BuildStep::Link => n,
            BuildStep::Status => n + 1,
            BuildStep::Log => n + 2,
            BuildStep::Failed => n + 3,
            BuildStep::Delete(i) => n + 2 + i as nat,
            BuildStep::Linked => n + 2 + n,
        }
    }
}

impl View for ProgramBuild {
    type V = ProgramBuildView;

    closed spec fn view(&self) -> ProgramBuildView {
        ProgramBuildView {
            program: self.program,
            shaders: self.shaders@,
            step: self.step,
            log: self.log@,
        }
    }
}

/// A copy of `values`.
fn copy_handles(values: &[u32]) -> (copy: Vec<u32>)
    ensures
        copy@ == values@,
{
    let mut copy: Vec<u32> = Vec::new();
    let mut i: usize = 0;
    while i < values.len()
        invariant
            i <= values.len(),
            copy@ == values@.subrange(0, i as int),
        decreases values.len() - i,
    {
        copy.push(values[i]);
        assert(values@.subrange(0, i as int).push(values@[i as int]) =~= values@.subrange(
            0,
            i + 1,
        ));
        i += 1;
    }
    assert(values@.subrange(0, values@.len() as int) =~= values@);
    copy
}

impl ProgramBuild {
    #[verifier::type_invariant]
    spec fn inv(self) -> bool {
        self@.wf()
    }

    /// The call to make now, or `None` once the build has ended.
    pub fn next_call(&self) -> (call: Option<ProgramCall>)
        ensures
            call == self@.call(),
            self@.wf(),
    {
        proof {
            use_type_invariant(self);
        }
        match self.step {
            BuildStep::Attach(i) => Some(
                ProgramCall::Attach { program: self.program, shader: self.shaders[i] },
            ),
            BuildStep::Link => Some(ProgramCall::Link { program: self.program }),
            BuildStep::Status => Some(ProgramCall::LinkStatus { program: self.program }),
            BuildStep::Log => Some(ProgramCall::InfoLog { program: self.program }),
            BuildStep::Delete(i) => Some(ProgramCall::DeleteShader { shader: self.shaders[i] }),
            BuildStep::Linked | BuildStep::Failed => None,
        }
    }

    /// Takes the driver's answer to the call last asked for.
    pub fn advance(&mut self, reply: ShaderReply)
        ensures
            final(self)@ == old(self)@.next(reply),
            final(self)@.wf(),
    {
        proof {
            use_type_invariant(&*self);
        }
        let count = self.shaders.len();
        match (self.step, reply) {
            (BuildStep::Attach(i), ShaderReply::Done) => {
                if i + 1 < count {
                    self.step = BuildStep::Attach(i + 1);
                } else {
                    self.step = BuildStep::Link;
                }
            },
            (BuildStep::Link, ShaderReply::Done) => {
                self.step = BuildStep::Status;
            },
            (BuildStep::Status, ShaderReply::Status(status)) => {
                if status == 0 {
                    self.step = BuildStep::Log;
                } else if count == 0 {
                    self.step = BuildStep::Linked;
                } else {
                    self.step = BuildStep::Delete(0);
                }
            },
            (BuildStep::Log, ShaderReply::Log(log)) => {
                self.step = BuildStep::Failed;
                self.log = log;
            },
            (BuildStep::Delete(i), ShaderReply::Done) => {
                if i + 1 < count {
                    self.step = BuildStep::Delete(i + 1);
                } else {
                    self.step = BuildStep::Linked;
                }
            },
            _ => {},
        }
    }

    /// How the build ended: well, or with the driver's log. `None` while
    /// calls are still to be made.
    pub fn outcome(&self) -> (outcome: Option<Result<(), ShaderError>>)
        ensures
            !self@.ended() ==> outcome is None,
            self@.step is Linked ==> outcome == Some::<Result<(), ShaderError>>(Ok(())),
            self@.step is Failed ==> (outcome matches Some(Err(ShaderError::LinkFailed { log }))
                && log@ == self@.log),
    {
        match self.step {
            BuildStep::Linked => Some(Ok(())),
            BuildStep::Failed => Some(Err(ShaderError::LinkFailed { log: self.log.clone() })),
            _ => None,
        }
    }
}

/// A call that sets an integer uniform of a program. The name is looked up
/// when the call is made; a name that the program does not have makes the
/// call do nothing.
#[derive(Debug, PartialEq, Eq)]
pub struct UniformCall {
    pub program: u32,
    pub name: String,
    pub value: i32,
}

/// A call that reads an integer uniform of a program.
#[derive(Debug, PartialEq, Eq)]
pub struct UniformQuery {
    pub program: u32,
    pub name: String,
}

impl ShaderProgram {
    /// A program with the handle that the driver gave it.
    pub fn new(shader_program_id: u32) -> (program: Self)
        ensures
            program.shader_program_id == shader_program_id,
    {
        ShaderProgram { shader_program_id }
    }

    /// Starts the build of the program from compiled shader objects, which
    /// are attached in the order given. The build links them, and deletes
    /// them once the link has held.
    pub fn build(&self, shaders: &[u32]) -> (build: ProgramBuild)
        ensures
            build@ == ProgramBuildView::start(self.shader_program_id, shaders@),
            build@.wf(),
    {
        let step = if shaders.len() == 0 {
            BuildStep::Link
        } else {
            BuildStep::Attach(0)
        };
        ProgramBuild {
            program: self.shader_program_id,
            shaders: copy_handles(shaders),
            step,
            log: Vec::new(),
        }
    }

    /// The call that makes the program the current one.
    pub fn use_program(&self) -> (call: ProgramCall)
        ensures
            call == (ProgramCall::Use { program: self.shader_program_id }),
    {
        ProgramCall::Use { program: self.shader_program_id }
    }

    /// The call that sets the uniform `name` to one for `true`, zero for
    /// `false`.
    pub fn set_bool(&self, name: &str, value: bool) -> (call: UniformCall)
        ensures
            call.program == self.shader_program_id,
            call.name@ == name@,
            call.value == if value {
                1i32
            } else {
                0i32
            },
    {
        let number: i32 = if value {
            1
        } else {
            0
        };
        UniformCall { program: self.shader_program_id, name: String::from_str(name), value: number }
    }

    /// The call that sets the uniform `name` to `value`, its bits read as a
    /// signed integer.
    pub fn set_int(&self, name: &str, value: u32) -> (call: UniformCall)
        ensures
            call.program == self.shader_program_id,
            call.name@ == name@,
            call.value == reinterpret(value),
    {
        UniformCall {
            program: self.shader_program_id,
            name: String::from_str(name),
            value: to_signed(value),
        }
    }

    /// The call that reads the uniform `name`.
    pub fn get_int(&self, name: &str) -> (query: UniformQuery)
        ensures
            query.program == self.shader_program_id,
            query.name@ == name@,
    {
        UniformQuery { program: self.shader_program_id, name: String::from_str(name) }
    }
}

/// A build asks for the calls of its script, in order, and for nothing once
/// the script is through.
pub proof fn lemma_build_follows_script(state: ProgramBuildView, linked: bool)
    requires
        state.wf(),
        state.step is Delete || state.step is Linked ==> linked,
        state.step is Log || state.step is Failed ==> !linked,
    ensures
        state.call() == if state.position() < state.script(linked).len() {
            Some(state.script(linked)[state.position() as int])
        } else {
            None
        },
{
}

/// An awaited answer moves a build one call further and keeps it well
/// formed; nothing else moves it at all. No answer changes the program or
/// the shaders.
pub proof fn lemma_build_moves_by_answers(state: ProgramBuildView, reply: ShaderReply)
    requires
        state.wf(),
        state.shaders.len() <= usize::MAX,
    ensures
        state.awaits(reply) ==> state.next(reply).position() == state.position() + 1,
        !state.awaits(reply) ==> state.next(reply) == state,
        state.ended() ==> !state.awaits(reply),
        state.next(reply).wf(),
        state.next(reply).program == state.program,
        state.next(reply).shaders == state.shaders,
{
}

/// After the status of the link, a build deletes shaders if and only if the
/// status was not zero, and reads the log if and only if it was.
pub proof fn lemma_build_deletes_only_after_link(state: ProgramBuildView, status: i32)
    requires
        state.step is Status,
    ensures
        status == 0 <==> state.next(ShaderReply::Status(status)).step is Log,
        status != 0 ==> state.next(ShaderReply::Status(status)).script(true) == state.script(true),
        status != 0 ==> state.next(ShaderReply::Status(status)).position()
            == state.shaders.len() + 2,
{
}

} // verus!
