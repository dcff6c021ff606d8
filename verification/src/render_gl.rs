//! Compiling shaders and linking them into a program, as dialogues with the
//! host that owns the GPU context.

use crate::driver::Next;
use crate::driver::Reply;
use crate::driver::ReplyView;
use crate::driver::Request;
use crate::driver::RequestView;
use crate::driver::ShaderKind;
use crate::driver::Step;
use crate::driver::Turn;
use crate::driver::ask;
use crate::driver::ask_all;
use crate::resources;
use crate::resources::load_start;
use crate::resources::terminated;
use crate::resources::LoadJob;
use crate::resources::LoadStep;
use crate::resources::LoadTurn;
use crate::resources::NulTerminated;
use crate::resources::Resources;
use vstd::prelude::*;
use vstd::utf8::decode_utf8;
use vstd::utf8::decode_utf8_encode_utf8;
use vstd::utf8::encode_utf8;
use vstd::utf8::valid_utf8;
use vstd::string::StrSliceExecFns;
use vstd::string::StringExecFns;

verus! {

/// The text that `String::from_utf8_lossy` makes of bytes that are not valid
/// UTF-8: the bytes decoded, with a replacement character for each sequence
/// that cannot be.
pub uninterp spec fn utf8_lossy(bytes: Seq<u8>) -> Seq<char>;

/// The text that bytes are decoded to: what they encode where they are
/// valid UTF-8, and the lossy decoding where they are not.
pub open spec fn decoded(bytes: Seq<u8>) -> Seq<char> {
    if valid_utf8(bytes) {
        decode_utf8(bytes)
    } else {
        utf8_lossy(bytes)
    }
}

/// `String::from_utf8_lossy`, with the result copied into an owned string.
/// Trusted: bytes that are valid UTF-8 give the text that they encode, as
/// the documentation says; of any other bytes the text depends on the bytes
/// alone, and is named by [`utf8_lossy`]. Bytes that are not empty give a
/// text that is not empty: each byte is kept in a character or replaced by
/// one. The call accepts every byte sequence.
#[verifier::external_body]
fn lossy_text(bytes: &Vec<u8>) -> (text: String)
    ensures
        text@ == if valid_utf8(bytes@) {
            decode_utf8(bytes@)
        } else {
            utf8_lossy(bytes@)
        },
        bytes@.len() > 0 ==> text@.len() > 0,
{
    String::from_utf8_lossy(bytes).into_owned()
}

/// How many bytes of `bytes` stand before its first zero: all of them where
/// it has none.
pub open spec fn text_length(bytes: Seq<u8>) -> int
    decreases bytes.len(),
{
    if bytes.len() == 0 || bytes[0] == 0 {
        0
    } else {
        1 + text_length(bytes.drop_first())
    }
}

/// The bytes of `bytes` before its first zero: the text that a buffer holds
/// when it is read as a NUL-terminated string, and the whole buffer where
/// nothing terminates it.
pub open spec fn before_terminator(bytes: Seq<u8>) -> Seq<u8> {
    bytes.take(text_length(bytes))
}

/// The text ends where the first zero stands: a position with no zero before
/// it, which is the end of the bytes or holds a zero, is the length of the
/// text.
pub proof fn text_ends_at_first_zero(bytes: Seq<u8>, end: int)
    requires
        0 <= end <= bytes.len(),
        forall|i: int| 0 <= i < end ==> bytes[i] != 0,
        end == bytes.len() || bytes[end] == 0,
    ensures
        text_length(bytes) == end,
    decreases end,
{
    if end > 0 {
        let rest = bytes.drop_first();
        assert forall|i: int| 0 <= i < end - 1 implies rest[i] != 0 by {
            assert(rest[i] == bytes[i + 1]);
        }
        text_ends_at_first_zero(rest, end - 1);
    }
}

/// The text of a buffer is a part of the buffer without a zero in it, and
/// nothing but a zero, or the end of the buffer, follows it.
pub proof fn text_is_cut_at_terminator(bytes: Seq<u8>)
    ensures
        0 <= text_length(bytes) <= bytes.len(),
        !before_terminator(bytes).contains(0u8),
        text_length(bytes) == bytes.len() || bytes[text_length(bytes)] == 0,
    decreases bytes.len(),
{
    if !(bytes.len() == 0 || bytes[0] == 0) {
        let rest = bytes.drop_first();
        text_is_cut_at_terminator(rest);
        let text = before_terminator(bytes);
        assert forall|i: int| 0 <= i < text.len() implies text[i] != 0 by {
            if i > 0 {
                assert(text[i] == before_terminator(rest)[i - 1]);
                assert(before_terminator(rest).contains(text[i]));
            }
        }
    }
}

/// The bytes of `buffer` before its first zero.
pub fn cut_at_terminator(buffer: &Vec<u8>) -> (text: Vec<u8>)
    ensures
        text@ == before_terminator(buffer@),
{
    let mut text: Vec<u8> = Vec::new();
    let mut at: usize = 0;
    while at < buffer.len() && buffer[at] != 0
        invariant
            at <= buffer@.len(),
            text@ == buffer@.take(at as int),
            forall|i: int| 0 <= i < at ==> buffer@[i] != 0,
        decreases buffer@.len() - at,
    {
        text.push(buffer[at]);
        at = at + 1;
        assert(text@ =~= buffer@.take(at as int));
    }
    proof {
        text_ends_at_first_zero(buffer@, at as int);
    }
    text
}

/// What the driver says of a refusal: the text of the info log that it wrote
/// into the buffer `log`, up to the terminator, decoded.
pub open spec fn diagnostic(log: Seq<u8>) -> Seq<char> {
    decoded(before_terminator(log))
}

/// A diagnostic is empty only where the driver wrote none: a log whose text
/// is valid UTF-8 and not empty gives a message that is not empty.
pub proof fn diagnostic_says_something(log: Seq<u8>)
    requires
        valid_utf8(before_terminator(log)),
        before_terminator(log).len() > 0,
    ensures
        diagnostic(log) == decode_utf8(before_terminator(log)),
        diagnostic(log).len() > 0,
{
    let text = before_terminator(log);
    decode_utf8_encode_utf8(text);
    if decode_utf8(text).len() == 0 {
        assert(encode_utf8(decode_utf8(text)) =~= Seq::<u8>::empty());
    }
}

/// Whether the driver said something in the buffer `log`: the text before
/// the terminator is not empty.
pub open spec fn says_something(log: Seq<u8>) -> bool {
    before_terminator(log).len() > 0
}

/// Whether the diagnostic that is made of `reply`, where it holds an info
/// log, is not empty unless the driver said nothing.
pub open spec fn diagnostic_is_told(reply: ReplyView) -> bool {
    match reply {
        ReplyView::Bytes(log) => says_something(log) ==> diagnostic(log).len() > 0,
        _ => true,
    }
}

/// The message of a refusal whose info log came back as `log`: the driver's
/// diagnostic, which is not empty where the driver said something.
pub fn diagnostic_text(log: &Vec<u8>) -> (message: String)
    ensures
        message@ == diagnostic(log@),
        says_something(log@) ==> message@.len() > 0,
{
    lossy_text(&cut_at_terminator(log))
}

/// Why a shader or a program could not be made.
#[derive(Debug)]
pub enum Error {
    /// The resource `name` could not be loaded.
    ResourceLoad { name: String, inner: resources::Error },
    /// The name of the resource ends in no known shader suffix.
    CannotDetermineShaderTypeForResource { name: String },
    /// The driver refused to compile the resource `name`, and said why.
    CompileError { name: String, message: String },
    /// The driver refused to link the shaders of `name`, and said why.
    LinkError { name: String, message: String },
}

/// An error as a mathematical value.
pub enum ErrorView {
    ResourceLoad { name: Seq<char>, inner: resources::Error },
    CannotDetermineShaderTypeForResource { name: Seq<char> },
    CompileError { name: Seq<char>, message: Seq<char> },
    LinkError { name: Seq<char>, message: Seq<char> },
}

impl View for Error {
    type V = ErrorView;

    open spec fn view(&self) -> ErrorView {
        match *self {
            Error::ResourceLoad { name, inner } => ErrorView::ResourceLoad { name: name@, inner },
            Error::CannotDetermineShaderTypeForResource { name } => {
                ErrorView::CannotDetermineShaderTypeForResource { name: name@ }
            },
            Error::CompileError { name, message } => ErrorView::CompileError {
                name: name@,
                message: message@,
            },
            Error::LinkError { name, message } => ErrorView::LinkError {
                name: name@,
                message: message@,
            },
        }
    }
}

/// A shader as a mathematical value: the name of the compiled shader object
/// and the stage it was compiled for.
pub struct ShaderView {
    pub id: u32,
    pub kind: ShaderKind,
}

/// One compiled shader object. A value exists only for an object that the
/// driver compiled without complaint, and it cannot be copied: whoever holds
/// it holds the object, until [`Shader::delete`] gives it up.
#[derive(Debug)]
pub struct Shader {
    id: u32,
    kind: ShaderKind,
}

impl View for Shader {
    type V = ShaderView;

    closed spec fn view(&self) -> ShaderView {
        ShaderView { id: self.id, kind: self.kind }
    }
}

/// One linked program object. A value exists only for an object that the
/// driver linked without complaint, and it cannot be copied: whoever holds it
/// holds the object, until [`Program::delete`] gives it up.
#[derive(Debug)]
pub struct Program {
    id: u32,
}

impl View for Program {
    type V = u32;

    /// The name of the program object.
    closed spec fn view(&self) -> u32 {
        self.id
    }
}

/// `len` spaces; none where `len` is not positive.
pub open spec fn whitespace(len: int) -> Seq<u8> {
    Seq::new(
        if len > 0 {
            len as nat
        } else {
            0
        },
        |i: int| 0x20u8,
    )
}

/// A buffer of `len` spaces for the driver to write an info log into.
pub fn create_whitespace_cstring_with_len(len: usize) -> (buffer: Vec<u8>)
    ensures
        buffer@ == whitespace(len as int),
{
    let mut buffer: Vec<u8> = Vec::new();
    let mut filled: usize = 0;
    while filled < len
        invariant
            filled <= len,
            buffer@ == whitespace(filled as int),
        decreases len - filled,
    {
        buffer.push(0x20u8);
        filled = filled + 1;
        assert(buffer@ =~= whitespace(filled as int));
    }
    buffer
}

/// The buffer for an info log whose length the driver gave as `len`.
fn log_buffer(len: i32) -> (buffer: Vec<u8>)
    ensures
        buffer@ == whitespace(len as int),
{
    if len > 0 {
        create_whitespace_cstring_with_len(len as usize)
    } else {
        create_whitespace_cstring_with_len(0)
    }
}

/// Whether `text` ends with `suffix`.
pub open spec fn ends_with(text: Seq<char>, suffix: Seq<char>) -> bool {
    text.len() >= suffix.len() && text.skip(text.len() - suffix.len()) == suffix
}

/// Whether `text` ends with `suffix`.
pub fn has_suffix(text: &str, suffix: &str) -> (found: bool)
    ensures
        found == ends_with(text@, suffix@),
{
    let length: usize = text.unicode_len();
    let wanted: usize = suffix.unicode_len();
    if length < wanted {
        return false;
    }
    let offset: usize = length - wanted;
    let mut at: usize = 0;
    while at < wanted
        invariant
            length == text@.len(),
            wanted == suffix@.len(),
            offset + wanted == length,
            at <= wanted,
            forall|i: int| 0 <= i < at ==> text@[offset + i] == suffix@[i],
        decreases wanted - at,
    {
        if text.get_char(offset + at) != suffix.get_char(at) {
            assert(text@.skip(offset as int)[at as int] != suffix@[at as int]);
            return false;
        }
        at = at + 1;
    }
    assert(text@.skip(offset as int) =~= suffix@);
    true
}

/// The stage that a resource's name stands for: its suffix says.
pub open spec fn kind_of(name: Seq<char>) -> Option<ShaderKind> {
    if ends_with(name, ".vert"@) {
        Some(ShaderKind::Vertex)
    } else if ends_with(name, ".frag"@) {
        Some(ShaderKind::Fragment)
    } else {
        None
    }
}

/// The stage that a resource's name stands for, if its suffix is known.
pub fn shader_kind(name: &str) -> (kind: Option<ShaderKind>)
    ensures
        kind == kind_of(name@),
{
    if has_suffix(name, ".vert") {
        Some(ShaderKind::Vertex)
    } else if has_suffix(name, ".frag") {
        Some(ShaderKind::Fragment)
    } else {
        None
    }
}

/// Where the compilation of one source stands, as a mathematical value.
pub enum CompileState {
    /// The shader object was asked for.
    Created { kind: ShaderKind, source: Seq<u8> },
    /// The source was handed over and compiled; the status was asked for.
    Status { shader: u32, kind: ShaderKind },
    /// The compilation failed; the length of the info log was asked for.
    LogLength { shader: u32 },
    /// The info log was asked for.
    Log { shader: u32 },
}

#[derive(Debug)]
enum CompileStage {
    Created { kind: ShaderKind, source: Vec<u8> },
    Status { id: u32, kind: ShaderKind },
    LogLength { id: u32 },
    Log { id: u32 },
}

/// The compilation of one source, waiting for a reply.
#[derive(Debug)]
pub struct CompileJob {
    stage: CompileStage,
}

impl View for CompileJob {
    type V = CompileState;

    closed spec fn view(&self) -> CompileState {
        match self.stage {
            CompileStage::Created { kind, source } => CompileState::Created {
                kind,
                source: source@,
            },
            CompileStage::Status { id, kind } => CompileState::Status { shader: id, kind },
            CompileStage::LogLength { id } => CompileState::LogLength { shader: id },
            CompileStage::Log { id } => CompileState::Log { shader: id },
        }
    }
}

/// A turn of a compilation: its requests, and the job that waits or the
/// outcome.
pub type CompileStep = Step<CompileJob, Result<Shader, String>>;

/// A turn of a compilation as a mathematical value.
pub type CompileTurn = Turn<CompileState, Result<ShaderView, Seq<char>>>;

/// What a compilation comes to, as a mathematical value: the shader, or the
/// driver's complaint.
pub open spec fn compile_outcome_view(outcome: Result<Shader, String>) -> Result<
    ShaderView,
    Seq<char>,
> {
    match outcome {
        Ok(shader) => Ok(shader@),
        Err(message) => Err(message@),
    }
}

impl View for CompileStep {
    type V = CompileTurn;

    open spec fn view(&self) -> Self::V {
        Turn {
            requests: self.requests.deep_view(),
            next: match self.next {
                Next::Await(job) => Next::Await(job@),
                Next::Done(outcome) => Next::Done(compile_outcome_view(outcome)),
            },
        }
    }
}

/// The first turn of compiling `source` for the stage `kind`: a shader
/// object is asked for.
pub open spec fn compile_start(kind: ShaderKind, source: Seq<u8>) -> CompileTurn {
    Turn {
        requests: seq![RequestView::CreateShader { kind }],
        next: Next::Await(CompileState::Created { kind, source }),
    }
}

/// How a compilation takes a reply.
///
/// - The new object gets the source, is compiled, and is asked for its
///   status.
/// - A status other than zero ends the compilation with the shader. A status
///   of zero asks for the length of the info log.
/// - The length asks for the info log itself, into a buffer of as many
///   spaces.
/// - The info log releases the object and ends the compilation with the
///   driver's diagnostic: the text in the buffer up to its terminator.
///
/// A reply of another kind than the one awaited is not taken.
pub open spec fn compile_resumed(state: CompileState, reply: ReplyView) -> Option<CompileTurn> {
    match (state, reply) {
        (CompileState::Created { kind, source }, ReplyView::Handle(id)) => Some(
            Turn {
                requests: seq![
                    RequestView::ShaderSource { shader: id, source },
                    RequestView::CompileShader { shader: id },
                    RequestView::GetCompileStatus { shader: id },
                ],
                next: Next::Await(CompileState::Status { shader: id, kind }),
            },
        ),
        (CompileState::Status { shader, kind }, ReplyView::Value(status)) => Some(
            if status != 0 {
                Turn {
                    requests: Seq::empty(),
                    next: Next::Done(Ok(ShaderView { id: shader, kind })),
                }
            } else {
                Turn {
                    requests: seq![RequestView::GetShaderLogLength { shader }],
                    next: Next::Await(CompileState::LogLength { shader }),
                }
            },
        ),
        (CompileState::LogLength { shader }, ReplyView::Value(len)) => Some(
            Turn {
                requests: seq![
                    RequestView::GetShaderInfoLog { shader, buffer: whitespace(len as int) },
                ],
                next: Next::Await(CompileState::Log { shader }),
            },
        ),
        (CompileState::Log { shader }, ReplyView::Bytes(log)) => Some(
            Turn {
                requests: seq![RequestView::DeleteShader { shader }],
                next: Next::Done(Err(diagnostic(log))),
            },
        ),
        _ => None,
    }
}

/// Whether a compilation waits for the info log.
pub open spec fn compile_awaits_log(state: CompileState) -> bool {
    state is Log
}

/// A copy of `bytes`.
fn copy_bytes(bytes: &Vec<u8>) -> (copy: Vec<u8>)
    ensures
        copy@ == bytes@,
{
    let mut copy: Vec<u8> = Vec::new();
    let mut at: usize = 0;
    while at < bytes.len()
        invariant
            at <= bytes@.len(),
            copy@ == bytes@.take(at as int),
        decreases bytes@.len() - at,
    {
        copy.push(bytes[at]);
        at = at + 1;
        assert(copy@ =~= bytes@.take(at as int));
    }
    assert(bytes@.take(at as int) =~= bytes@);
    copy
}

impl Shader {
    /// Starts to compile `source` for the stage `kind`.
    pub fn from_source(source: &NulTerminated, kind: ShaderKind) -> (step: CompileStep)
        ensures
            step@ == compile_start(kind, source@),
            terminated(source@),
    {
        let mut requests: Vec<Request> = Vec::new();
        requests.push(Request::CreateShader { kind });
        let job = CompileJob {
            stage: CompileStage::Created { kind, source: copy_bytes(source.as_bytes()) },
        };
        let step: CompileStep = Step { requests, next: Next::Await(job) };
        assert(step@.requests =~= compile_start(kind, source@).requests);
        step
    }

    /// Starts to compile `source` as a vertex shader.
    pub fn from_vert_source(source: &NulTerminated) -> (step: CompileStep)
        ensures
            step@ == compile_start(ShaderKind::Vertex, source@),
            terminated(source@),
    {
        Shader::from_source(source, ShaderKind::Vertex)
    }

    /// Starts to compile `source` as a fragment shader.
    pub fn from_frag_source(source: &NulTerminated) -> (step: CompileStep)
        ensures
            step@ == compile_start(ShaderKind::Fragment, source@),
            terminated(source@),
    {
        Shader::from_source(source, ShaderKind::Fragment)
    }

    /// The name of the shader object.
    pub fn id(&self) -> (id: u32)
        ensures
            id == self@.id,
    {
        self.id
    }

    /// The stage that the shader was compiled for.
    pub fn kind(&self) -> (kind: ShaderKind)
        ensures
            kind == self@.kind,
    {
        self.kind
    }

    /// Gives the shader up: the request that releases its object.
    pub fn delete(self) -> (request: Request)
        ensures
            request@ == (RequestView::DeleteShader { shader: self@.id }),
    {
        Request::DeleteShader { shader: self.id }
    }
}

impl CompileJob {
    /// Takes the reply to the last request, as [`compile_resumed`] says. The
    /// diagnostic of a refusal is not empty where the driver said something.
    pub fn resume(self, reply: Reply) -> (step: Option<CompileStep>)
        ensures
            match step {
                Some(step) => compile_resumed(self@, reply@) == Some(step@),
                None => compile_resumed(self@, reply@) is None,
            },
            compile_awaits_log(self@) ==> diagnostic_is_told(reply@),
    {
        let mut requests: Vec<Request> = Vec::new();
        match (self.stage, reply) {
            (CompileStage::Created { kind, source }, Reply::Handle(id)) => {
                requests.push(Request::ShaderSource { shader: id, source });
                requests.push(Request::CompileShader { shader: id });
                requests.push(Request::GetCompileStatus { shader: id });
                let job = CompileJob { stage: CompileStage::Status { id, kind } };
                let step: CompileStep = Step { requests, next: Next::Await(job) };
                assert(step@.requests =~= compile_resumed(self@, reply@).unwrap().requests);
                Some(step)
            },
            (CompileStage::Status { id, kind }, Reply::Value(status)) => {
                if status != 0 {
                    let step: CompileStep = Step {
                        requests,
                        next: Next::Done(Ok(Shader { id, kind })),
                    };
                    assert(step@.requests =~= compile_resumed(self@, reply@).unwrap().requests);
                    Some(step)
                } else {
                    requests.push(Request::GetShaderLogLength { shader: id });
                    let job = CompileJob { stage: CompileStage::LogLength { id } };
                    let step: CompileStep = Step { requests, next: Next::Await(job) };
                    assert(step@.requests =~= compile_resumed(self@, reply@).unwrap().requests);
                    Some(step)
                }
            },
            (CompileStage::LogLength { id }, Reply::Value(len)) => {
                requests.push(Request::GetShaderInfoLog { shader: id, buffer: log_buffer(len) });
                let job = CompileJob { stage: CompileStage::Log { id } };
                let step: CompileStep = Step { requests, next: Next::Await(job) };
                assert(step@.requests =~= compile_resumed(self@, reply@).unwrap().requests);
                Some(step)
            },
            (CompileStage::Log { id }, Reply::Bytes(log)) => {
                requests.push(Request::DeleteShader { shader: id });
                let step: CompileStep = Step { requests, next: Next::Done(Err(diagnostic_text(&log))) };
                assert(step@.requests =~= compile_resumed(self@, reply@).unwrap().requests);
                Some(step)
            },
            _ => None,
        }
    }
}

/// The names of the shader objects of `shaders`, in order.
pub open spec fn shader_ids(shaders: Seq<Shader>) -> Seq<u32> {
    Seq::new(shaders.len(), |i: int| shaders[i]@.id)
}

/// One request to attach each of `shaders` to `program`, in order.
pub open spec fn attach_all(program: u32, shaders: Seq<u32>) -> Seq<RequestView> {
    Seq::new(shaders.len(), |i: int| RequestView::AttachShader { program, shader: shaders[i] })
}

/// One request to detach each of `shaders` from `program`, in order.
pub open spec fn detach_all(program: u32, shaders: Seq<u32>) -> Seq<RequestView> {
    Seq::new(shaders.len(), |i: int| RequestView::DetachShader { program, shader: shaders[i] })
}

/// Where the linking of a program stands, as a mathematical value.
pub enum LinkState {
    /// The program object was asked for.
    Created { shaders: Seq<u32> },
    /// The shaders were attached and linked; the status was asked for.
    Status { program: u32, shaders: Seq<u32> },
    /// The linking failed; the length of the info log was asked for.
    LogLength { program: u32 },
    /// The info log was asked for.
    Log { program: u32 },
}

#[derive(Debug)]
enum LinkStage {
    Created { shaders: Vec<u32> },
    Status { id: u32, shaders: Vec<u32> },
    LogLength { id: u32 },
    Log { id: u32 },
}

/// The linking of a program, waiting for a reply.
#[derive(Debug)]
pub struct LinkJob {
    stage: LinkStage,
}

impl View for LinkJob {
    type V = LinkState;

    closed spec fn view(&self) -> LinkState {
        match self.stage {
            LinkStage::Created { shaders } => LinkState::Created { shaders: shaders@ },
            LinkStage::Status { id, shaders } => LinkState::Status {
                program: id,
                shaders: shaders@,
            },
            LinkStage::LogLength { id } => LinkState::LogLength { program: id },
            LinkStage::Log { id } => LinkState::Log { program: id },
        }
    }
}

/// A turn of a linking: its requests, and the job that waits or the
/// outcome.
pub type LinkStep = Step<LinkJob, Result<Program, String>>;

/// A turn of a linking as a mathematical value.
pub type LinkTurn = Turn<LinkState, Result<u32, Seq<char>>>;

/// What a linking comes to, as a mathematical value: the name of the program
/// object, or the driver's complaint.
pub open spec fn link_outcome_view(outcome: Result<Program, String>) -> Result<u32, Seq<char>> {
    match outcome {
        Ok(program) => Ok(program@),
        Err(message) => Err(message@),
    }
}

impl View for LinkStep {
    type V = LinkTurn;

    open spec fn view(&self) -> Self::V {
        Turn {
            requests: self.requests.deep_view(),
            next: match self.next {
                Next::Await(job) => Next::Await(job@),
                Next::Done(outcome) => Next::Done(link_outcome_view(outcome)),
            },
        }
    }
}

/// The first turn of linking the shader objects `shaders`: a program object
/// is asked for.
pub open spec fn link_start(shaders: Seq<u32>) -> LinkTurn {
    Turn {
        requests: seq![RequestView::CreateProgram],
        next: Next::Await(LinkState::Created { shaders }),
    }
}

/// How a linking takes a reply.
///
/// - The new object gets every shader attached, is linked, and is asked for
///   its status.
/// - A status other than zero detaches every shader and ends the linking
///   with the program. A status of zero asks for the length of the info log.
/// - The length asks for the info log itself, into a buffer of as many
///   spaces.
/// - The info log releases the object and ends the linking with the
///   driver's diagnostic: the text in the buffer up to its terminator.
///
/// A reply of another kind than the one awaited is not taken.
pub open spec fn link_resumed(state: LinkState, reply: ReplyView) -> Option<LinkTurn> {
    match (state, reply) {
        (LinkState::Created { shaders }, ReplyView::Handle(program)) => Some(
            Turn {
                requests: attach_all(program, shaders) + seq![
                    RequestView::LinkProgram { program },
                    RequestView::GetLinkStatus { program },
                ],
                next: Next::Await(LinkState::Status { program, shaders }),
            },
        ),
        (LinkState::Status { program, shaders }, ReplyView::Value(status)) => Some(
            if status != 0 {
                Turn { requests: detach_all(program, shaders), next: Next::Done(Ok(program)) }
            } else {
                Turn {
                    requests: seq![RequestView::GetProgramLogLength { program }],
                    next: Next::Await(LinkState::LogLength { program }),
                }
            },
        ),
        (LinkState::LogLength { program }, ReplyView::Value(len)) => Some(
            Turn {
                requests: seq![
                    RequestView::GetProgramInfoLog { program, buffer: whitespace(len as int) },
                ],
                next: Next::Await(LinkState::Log { program }),
            },
        ),
        (LinkState::Log { program }, ReplyView::Bytes(log)) => Some(
            Turn {
                requests: seq![RequestView::DeleteProgram { program }],
                next: Next::Done(Err(diagnostic(log))),
            },
        ),
        _ => None,
    }
}

/// Whether a linking waits for the info log.
pub open spec fn link_awaits_log(state: LinkState) -> bool {
    state is Log
}

/// Starts to link the shader objects named by `ids`.
fn link_ids(ids: Vec<u32>) -> (step: LinkStep)
    ensures
        step@ == link_start(ids@),
{
    let mut requests: Vec<Request> = Vec::new();
    requests.push(Request::CreateProgram);
    let job = LinkJob { stage: LinkStage::Created { shaders: ids } };
    let step: LinkStep = Step { requests, next: Next::Await(job) };
    assert(step@.requests =~= link_start(ids@).requests);
    step
}

impl Program {
    /// Starts to link `shaders` into a program. The shaders stay with the
    /// caller, who releases them when the linking has ended.
    pub fn from_shaders(shaders: &[Shader]) -> (step: LinkStep)
        ensures
            step@ == link_start(shader_ids(shaders@)),
    {
        let mut ids: Vec<u32> = Vec::new();
        let mut at: usize = 0;
        while at < shaders.len()
            invariant
                at <= shaders@.len(),
                ids@ == shader_ids(shaders@).take(at as int),
            decreases shaders@.len() - at,
        {
            ids.push(shaders[at].id());
            at = at + 1;
            assert(ids@ =~= shader_ids(shaders@).take(at as int));
        }
        assert(shader_ids(shaders@).take(at as int) =~= shader_ids(shaders@));
        link_ids(ids)
    }

    /// The name of the program object.
    pub fn id(&self) -> (id: u32)
        ensures
            id == self@,
    {
        self.id
    }

    /// The request that makes this program the current one, so that the
    /// draw calls after it run its code.
    pub fn set_used(&self) -> (request: Request)
        ensures
            request@ == (RequestView::UseProgram { program: self@ }),
    {
        Request::UseProgram { program: self.id }
    }

    /// Gives the program up: the request that releases its object.
    pub fn delete(self) -> (request: Request)
        ensures
            request@ == (RequestView::DeleteProgram { program: self@ }),
    {
        Request::DeleteProgram { program: self.id }
    }
}

impl LinkJob {
    /// Takes the reply to the last request, as [`link_resumed`] says. The
    /// diagnostic of a refusal is not empty where the driver said something.
    pub fn resume(self, reply: Reply) -> (step: Option<LinkStep>)
        ensures
            match step {
                Some(step) => link_resumed(self@, reply@) == Some(step@),
                None => link_resumed(self@, reply@) is None,
            },
            link_awaits_log(self@) ==> diagnostic_is_told(reply@),
    {
        let mut requests: Vec<Request> = Vec::new();
        match (self.stage, reply) {
            (LinkStage::Created { shaders }, Reply::Handle(id)) => {
                let mut at: usize = 0;
                while at < shaders.len()
                    invariant
                        at <= shaders@.len(),
                        requests.deep_view() == attach_all(id, shaders@).take(at as int),
                    decreases shaders@.len() - at,
                {
                    ask(&mut requests, Request::AttachShader { program: id, shader: shaders[at] });
                    at = at + 1;
                    assert(requests.deep_view() =~= attach_all(id, shaders@).take(at as int));
                }
                assert(attach_all(id, shaders@).take(at as int) =~= attach_all(id, shaders@));
                requests.push(Request::LinkProgram { program: id });
                requests.push(Request::GetLinkStatus { program: id });
                let job = LinkJob { stage: LinkStage::Status { id, shaders } };
                let step: LinkStep = Step { requests, next: Next::Await(job) };
                assert(step@.requests =~= link_resumed(self@, reply@).unwrap().requests);
                Some(step)
            },
            (LinkStage::Status { id, shaders }, Reply::Value(status)) => {
                if status != 0 {
                    let mut at: usize = 0;
                    while at < shaders.len()
                        invariant
                            at <= shaders@.len(),
                            requests.deep_view() == detach_all(id, shaders@).take(at as int),
                        decreases shaders@.len() - at,
                    {
                        ask(
                            &mut requests,
                            Request::DetachShader { program: id, shader: shaders[at] },
                        );
                        at = at + 1;
                        assert(requests.deep_view() =~= detach_all(id, shaders@).take(at as int));
                    }
                    assert(detach_all(id, shaders@).take(at as int) =~= detach_all(id, shaders@));
                    let step: LinkStep = Step { requests, next: Next::Done(Ok(Program { id })) };
                    Some(step)
                } else {
                    requests.push(Request::GetProgramLogLength { program: id });
                    let job = LinkJob { stage: LinkStage::LogLength { id } };
                    let step: LinkStep = Step { requests, next: Next::Await(job) };
                    assert(step@.requests =~= link_resumed(self@, reply@).unwrap().requests);
                    Some(step)
                }
            },
            (LinkStage::LogLength { id }, Reply::Value(len)) => {
                requests.push(Request::GetProgramInfoLog { program: id, buffer: log_buffer(len) });
                let job = LinkJob { stage: LinkStage::Log { id } };
                let step: LinkStep = Step { requests, next: Next::Await(job) };
                assert(step@.requests =~= link_resumed(self@, reply@).unwrap().requests);
                Some(step)
            },
            (LinkStage::Log { id }, Reply::Bytes(log)) => {
                requests.push(Request::DeleteProgram { program: id });
                let step: LinkStep = Step { requests, next: Next::Done(Err(diagnostic_text(&log))) };
                assert(step@.requests =~= link_resumed(self@, reply@).unwrap().requests);
                Some(step)
            },
            _ => None,
        }
    }
}

/// Where the making of a shader from a resource stands, as a mathematical
/// value.
#[allow(inconsistent_fields)]
pub enum ShaderState {
    /// The resource is being loaded.
    Reading { name: Seq<char>, kind: ShaderKind, job: LoadJob },
    /// The text of the resource is being compiled.
    Compiling { name: Seq<char>, job: CompileState },
}

#[derive(Debug)]
#[allow(inconsistent_fields)]
enum ShaderStage {
    Reading { name: String, kind: ShaderKind, job: LoadJob },
    Compiling { name: String, job: CompileJob },
}

/// The making of a shader from a resource, waiting for a reply.
#[derive(Debug)]
pub struct ShaderJob {
    stage: ShaderStage,
}

impl View for ShaderJob {
    type V = ShaderState;

    closed spec fn view(&self) -> ShaderState {
        match self.stage {
            ShaderStage::Reading { name, kind, job } => ShaderState::Reading {
                name: name@,
                kind,
                job,
            },
            ShaderStage::Compiling { name, job } => ShaderState::Compiling {
                name: name@,
                job: job@,
            },
        }
    }
}

/// A turn of making a shader from a resource: its requests, and the job
/// that waits or the outcome.
pub type ShaderStep = Step<ShaderJob, Result<Shader, Error>>;

/// A turn of making a shader from a resource as a mathematical value.
pub type ShaderTurn = Turn<ShaderState, Result<ShaderView, ErrorView>>;

/// What the making of a shader from a resource comes to, as a mathematical
/// value.
pub open spec fn shader_outcome_view(outcome: Result<Shader, Error>) -> Result<
    ShaderView,
    ErrorView,
> {
    match outcome {
        Ok(shader) => Ok(shader@),
        Err(error) => Err(error@),
    }
}

impl View for ShaderStep {
    type V = ShaderTurn;

    open spec fn view(&self) -> Self::V {
        Turn {
            requests: self.requests.deep_view(),
            next: match self.next {
                Next::Await(job) => Next::Await(job@),
                Next::Done(outcome) => Next::Done(shader_outcome_view(outcome)),
            },
        }
    }
}

/// A turn of compiling the text of the resource `name`, as a turn of making
/// the shader of that resource: a complaint of the driver becomes a
/// `CompileError` that names the resource.
pub open spec fn while_compiling(
    name: Seq<char>,
    turn: CompileTurn,
) -> ShaderTurn {
    Turn {
        requests: turn.requests,
        next: match turn.next {
            Next::Await(job) => Next::Await(ShaderState::Compiling { name, job }),
            Next::Done(Ok(shader)) => Next::Done(Ok(shader)),
            Next::Done(Err(message)) => Next::Done(Err(ErrorView::CompileError { name, message })),
        },
    }
}

/// A turn of loading the resource `name`, as a turn of making the shader of
/// that resource: a failed load becomes a `ResourceLoad` that names the
/// resource, and a text that was loaded is compiled at once.
pub open spec fn while_loading(
    name: Seq<char>,
    kind: ShaderKind,
    turn: LoadTurn,
) -> ShaderTurn {
    match turn.next {
        Next::Await(job) => Turn {
            requests: turn.requests,
            next: Next::Await(ShaderState::Reading { name, kind, job }),
        },
        Next::Done(Err(inner)) => Turn {
            requests: turn.requests,
            next: Next::Done(Err(ErrorView::ResourceLoad { name, inner })),
        },
        Next::Done(Ok(source)) => {
            let compiling = while_compiling(name, compile_start(kind, source));
            Turn { requests: turn.requests + compiling.requests, next: compiling.next }
        },
    }
}

/// The first turn of making a shader from the resource `name` below the
/// root with the bytes `root`. A name with no known suffix ends the dialogue
/// before any request; any other name asks for its file.
pub open spec fn shader_start(root: Seq<u8>, name: Seq<char>) -> ShaderTurn {
    match kind_of(name) {
        None => Turn {
            requests: Seq::empty(),
            next: Next::Done(Err(ErrorView::CannotDetermineShaderTypeForResource { name })),
        },
        Some(kind) => while_loading(name, kind, load_start(root, name)),
    }
}

/// How the making of a shader from a resource takes a reply: as the load
/// does while the resource is loaded, and as the compilation does after.
pub open spec fn shader_resumed(state: ShaderState, reply: ReplyView) -> Option<ShaderTurn> {
    match state {
        ShaderState::Reading { name, kind, job } => match job.resumed(reply) {
            Some(turn) => Some(while_loading(name, kind, turn)),
            None => None,
        },
        ShaderState::Compiling { name, job } => match compile_resumed(job, reply) {
            Some(turn) => Some(while_compiling(name, turn)),
            None => None,
        },
    }
}

/// Whether the making of a shader from a resource waits for the info log.
pub open spec fn shader_awaits_log(state: ShaderState) -> bool {
    state matches ShaderState::Compiling { job, .. } && compile_awaits_log(job)
}

fn compiling(name: String, step: CompileStep) -> (made: ShaderStep)
    ensures
        made@ == while_compiling(name@, step@),
{
    let next = match step.next {
        Next::Await(job) => Next::Await(ShaderJob { stage: ShaderStage::Compiling { name, job } }),
        Next::Done(Ok(shader)) => Next::Done(Ok(shader)),
        Next::Done(Err(message)) => Next::Done(Err(Error::CompileError { name, message })),
    };
    Step { requests: step.requests, next }
}

fn loading(
    name: String,
    kind: ShaderKind,
    step: LoadStep,
) -> (made: ShaderStep)
    ensures
        made@ == while_loading(name@, kind, step@),
{
    match step.next {
        Next::Await(job) => Step {
            requests: step.requests,
            next: Next::Await(ShaderJob { stage: ShaderStage::Reading { name, kind, job } }),
        },
        Next::Done(Err(inner)) => Step {
            requests: step.requests,
            next: Next::Done(Err(Error::ResourceLoad { name, inner })),
        },
        Next::Done(Ok(source)) => {
            let following = compiling(name, Shader::from_source(&source, kind));
            let mut requests = step.requests;
            ask_all(&mut requests, following.requests);
            Step { requests, next: following.next }
        },
    }
}

impl Shader {
    /// Starts to make a shader from the resource `name`: the suffix of the
    /// name says for which stage, the resource is loaded, and its text is
    /// compiled.
    pub fn from_resource(resource: &Resources, name: &str) -> (step: ShaderStep)
        ensures
            step@ == shader_start(resource@, name@),
    {
        match shader_kind(name) {
            None => {
                let step: ShaderStep = Step {
                    requests: Vec::new(),
                    next: Next::Done(
                        Err(
                            Error::CannotDetermineShaderTypeForResource {
                                name: String::from_str(name),
                            },
                        ),
                    ),
                };
                assert(step@.requests =~= Seq::<RequestView>::empty());
                step
            },
            Some(kind) => loading(String::from_str(name), kind, resource.load_cstring(name)),
        }
    }
}

impl ShaderJob {
    /// Takes the reply to the last request, as [`shader_resumed`] says. The
    /// diagnostic of a refusal is not empty where the driver said something.
    pub fn resume(self, reply: Reply) -> (step: Option<ShaderStep>)
        ensures
            match step {
                Some(step) => shader_resumed(self@, reply@) == Some(step@),
                None => shader_resumed(self@, reply@) is None,
            },
            shader_awaits_log(self@) ==> diagnostic_is_told(reply@),
    {
        match self.stage {
            ShaderStage::Reading { name, kind, job } => match job.resume(reply) {
                Some(step) => Some(loading(name, kind, step)),
                None => None,
            },
            ShaderStage::Compiling { name, job } => match job.resume(reply) {
                Some(step) => Some(compiling(name, step)),
                None => None,
            },
        }
    }
}

/// Where the making of a program from a pair of resources stands, as a
/// mathematical value.
#[allow(inconsistent_fields)]
pub enum ProgramState {
    /// The vertex shader is being made; `fragment` is the turn that starts
    /// the fragment shader after it.
    Vertex {
        name: Seq<char>,
        job: ShaderState,
        fragment: ShaderTurn,
    },
    /// The fragment shader is being made.
    Fragment { name: Seq<char>, vertex: ShaderView, job: ShaderState },
    /// The two shaders are being linked.
    Linking { name: Seq<char>, vertex: ShaderView, fragment: ShaderView, job: LinkState },
}

#[derive(Debug)]
#[allow(inconsistent_fields)]
enum ProgramStage {
    Vertex { name: String, job: ShaderJob, fragment: ShaderStep },
    Fragment { name: String, vertex: Shader, job: ShaderJob },
    Linking { name: String, vertex: Shader, fragment: Shader, job: LinkJob },
}

/// The making of a program from a pair of resources, waiting for a reply.
#[derive(Debug)]
pub struct ProgramJob {
    stage: ProgramStage,
}

impl View for ProgramJob {
    type V = ProgramState;

    closed spec fn view(&self) -> ProgramState {
        match self.stage {
            ProgramStage::Vertex { name, job, fragment } => ProgramState::Vertex {
                name: name@,
                job: job@,
                fragment: fragment@,
            },
            ProgramStage::Fragment { name, vertex, job } => ProgramState::Fragment {
                name: name@,
                vertex: vertex@,
                job: job@,
            },
            ProgramStage::Linking { name, vertex, fragment, job } => ProgramState::Linking {
                name: name@,
                vertex: vertex@,
                fragment: fragment@,
                job: job@,
            },
        }
    }
}

/// A turn of making a program from a pair of resources: its requests, and
/// the job that waits or the outcome.
pub type ProgramStep = Step<ProgramJob, Result<Program, Error>>;

/// A turn of making a program from a pair of resources as a mathematical
/// value.
pub type ProgramTurn = Turn<ProgramState, Result<u32, ErrorView>>;

/// What the making of a program from a pair of resources comes to, as a
/// mathematical value.
pub open spec fn program_outcome_view(outcome: Result<Program, Error>) -> Result<u32, ErrorView> {
    match outcome {
        Ok(program) => Ok(program@),
        Err(error) => Err(error@),
    }
}

impl View for ProgramStep {
    type V = ProgramTurn;

    open spec fn view(&self) -> Self::V {
        Turn {
            requests: self.requests.deep_view(),
            next: match self.next {
                Next::Await(job) => Next::Await(job@),
                Next::Done(outcome) => Next::Done(program_outcome_view(outcome)),
            },
        }
    }
}

/// A turn of linking the two shaders of `name`, as a turn of making the
/// program. When the linking has ended, either way, both shaders are
/// released; a complaint of the driver becomes a `LinkError` that names the
/// pair.
pub open spec fn while_linking(
    name: Seq<char>,
    vertex: ShaderView,
    fragment: ShaderView,
    turn: LinkTurn,
) -> ProgramTurn {
    let release = seq![
        RequestView::DeleteShader { shader: vertex.id },
        RequestView::DeleteShader { shader: fragment.id },
    ];
    match turn.next {
        Next::Await(job) => Turn {
            requests: turn.requests,
            next: Next::Await(ProgramState::Linking { name, vertex, fragment, job }),
        },
        Next::Done(Ok(program)) => Turn {
            requests: turn.requests + release,
            next: Next::Done(Ok(program)),
        },
        Next::Done(Err(message)) => Turn {
            requests: turn.requests + release,
            next: Next::Done(Err(ErrorView::LinkError { name, message })),
        },
    }
}

/// A turn of making the fragment shader of `name`, as a turn of making the
/// program. A failure releases the vertex shader and ends the dialogue; the
/// shader that was made is linked with the vertex shader at once.
pub open spec fn while_fragment(
    name: Seq<char>,
    vertex: ShaderView,
    turn: ShaderTurn,
) -> ProgramTurn {
    match turn.next {
        Next::Await(job) => Turn {
            requests: turn.requests,
            next: Next::Await(ProgramState::Fragment { name, vertex, job }),
        },
        Next::Done(Err(error)) => Turn {
            requests: turn.requests + seq![RequestView::DeleteShader { shader: vertex.id }],
            next: Next::Done(Err(error)),
        },
        Next::Done(Ok(fragment)) => {
            let linking = while_linking(
                name,
                vertex,
                fragment,
                link_start(seq![vertex.id, fragment.id]),
            );
            Turn { requests: turn.requests + linking.requests, next: linking.next }
        },
    }
}

/// A turn of making the vertex shader of `name`, as a turn of making the
/// program. A failure ends the dialogue; after the shader that was made, the
/// fragment shader is started with the turn `fragment`.
pub open spec fn while_vertex(
    name: Seq<char>,
    turn: ShaderTurn,
    fragment: ShaderTurn,
) -> ProgramTurn {
    match turn.next {
        Next::Await(job) => Turn {
            requests: turn.requests,
            next: Next::Await(ProgramState::Vertex { name, job, fragment }),
        },
        Next::Done(Err(error)) => Turn { requests: turn.requests, next: Next::Done(Err(error)) },
        Next::Done(Ok(vertex)) => {
            let following = while_fragment(name, vertex, fragment);
            Turn { requests: turn.requests + following.requests, next: following.next }
        },
    }
}

/// The first turn of making a program from the resources `name` with the
/// suffixes `.vert` and `.frag`, below the root with the bytes `root`.
pub open spec fn program_start(root: Seq<u8>, name: Seq<char>) -> ProgramTurn {
    while_vertex(name, shader_start(root, name + ".vert"@), shader_start(root, name + ".frag"@))
}

/// How the making of a program takes a reply: as the shader or the linking
/// does that is under way.
pub open spec fn program_resumed(state: ProgramState, reply: ReplyView) -> Option<ProgramTurn> {
    match state {
        ProgramState::Vertex { name, job, fragment } => match shader_resumed(job, reply) {
            Some(turn) => Some(while_vertex(name, turn, fragment)),
            None => None,
        },
        ProgramState::Fragment { name, vertex, job } => match shader_resumed(job, reply) {
            Some(turn) => Some(while_fragment(name, vertex, turn)),
            None => None,
        },
        ProgramState::Linking { name, vertex, fragment, job } => match link_resumed(job, reply) {
            Some(turn) => Some(while_linking(name, vertex, fragment, turn)),
            None => None,
        },
    }
}

/// Whether the making of a program waits for an info log, of a shader or of
/// the program.
pub open spec fn program_awaits_log(state: ProgramState) -> bool {
    match state {
        ProgramState::Vertex { job, .. } => shader_awaits_log(job),
        ProgramState::Fragment { job, .. } => shader_awaits_log(job),
        ProgramState::Linking { job, .. } => link_awaits_log(job),
    }
}

fn linking(
    name: String,
    vertex: Shader,
    fragment: Shader,
    step: LinkStep,
) -> (made: ProgramStep)
    ensures
        made@ == while_linking(name@, vertex@, fragment@, step@),
{
    let mut requests = step.requests;
    match step.next {
        Next::Await(job) => Step {
            requests,
            next: Next::Await(
                ProgramJob { stage: ProgramStage::Linking { name, vertex, fragment, job } },
            ),
        },
        Next::Done(outcome) => {
            let ghost asked = requests.deep_view();
            ask(&mut requests, vertex.delete());
            ask(&mut requests, fragment.delete());
            assert(requests.deep_view() =~= asked + seq![
                RequestView::DeleteShader { shader: vertex@.id },
                RequestView::DeleteShader { shader: fragment@.id },
            ]);
            match outcome {
                Ok(program) => Step { requests, next: Next::Done(Ok(program)) },
                Err(message) => Step {
                    requests,
                    next: Next::Done(Err(Error::LinkError { name, message })),
                },
            }
        },
    }
}

fn fragment_made(name: String, vertex: Shader, step: ShaderStep) -> (made:
    ProgramStep)
    ensures
        made@ == while_fragment(name@, vertex@, step@),
{
    let mut requests = step.requests;
    match step.next {
        Next::Await(job) => Step {
            requests,
            next: Next::Await(ProgramJob { stage: ProgramStage::Fragment { name, vertex, job } }),
        },
        Next::Done(Err(error)) => {
            let ghost asked = requests.deep_view();
            ask(&mut requests, vertex.delete());
            assert(requests.deep_view() =~= asked + seq![
                RequestView::DeleteShader { shader: vertex@.id },
            ]);
            Step { requests, next: Next::Done(Err(error)) }
        },
        Next::Done(Ok(fragment)) => {
            let mut ids: Vec<u32> = Vec::new();
            ids.push(vertex.id());
            ids.push(fragment.id());
            assert(ids@ =~= seq![vertex@.id, fragment@.id]);
            let following = linking(name, vertex, fragment, link_ids(ids));
            ask_all(&mut requests, following.requests);
            Step { requests, next: following.next }
        },
    }
}

fn vertex_made(
    name: String,
    step: ShaderStep,
    fragment: ShaderStep,
) -> (made: ProgramStep)
    ensures
        made@ == while_vertex(name@, step@, fragment@),
{
    let mut requests = step.requests;
    match step.next {
        Next::Await(job) => Step {
            requests,
            next: Next::Await(ProgramJob { stage: ProgramStage::Vertex { name, job, fragment } }),
        },
        Next::Done(Err(error)) => Step { requests, next: Next::Done(Err(error)) },
        Next::Done(Ok(vertex)) => {
            let following = fragment_made(name, vertex, fragment);
            ask_all(&mut requests, following.requests);
            Step { requests, next: following.next }
        },
    }
}

impl Program {
    /// Starts to make a program from the two resources `name` with the
    /// suffixes `.vert` and `.frag`: each is made into a shader, the two are
    /// linked, and both shaders are released.
    pub fn from_resource(resource: &Resources, name: &str) -> (step: ProgramStep)
        ensures
            step@ == program_start(resource@, name@),
    {
        let vertex_name = String::from_str(name).concat(".vert");
        let fragment_name = String::from_str(name).concat(".frag");
        let vertex = Shader::from_resource(resource, vertex_name.as_str());
        let fragment = Shader::from_resource(resource, fragment_name.as_str());
        vertex_made(String::from_str(name), vertex, fragment)
    }
}

impl ProgramJob {
    /// Takes the reply to the last request, as [`program_resumed`] says. The
    /// diagnostic of a refusal is not empty where the driver said something.
    pub fn resume(self, reply: Reply) -> (step: Option<ProgramStep>)
        ensures
            match step {
                Some(step) => program_resumed(self@, reply@) == Some(step@),
                None => program_resumed(self@, reply@) is None,
            },
            program_awaits_log(self@) ==> diagnostic_is_told(reply@),
    {
        match self.stage {
            ProgramStage::Vertex { name, job, fragment } => match job.resume(reply) {
                Some(step) => Some(vertex_made(name, step, fragment)),
                None => None,
            },
            ProgramStage::Fragment { name, vertex, job } => match job.resume(reply) {
                Some(step) => Some(fragment_made(name, vertex, step)),
                None => None,
            },
            ProgramStage::Linking { name, vertex, fragment, job } => match job.resume(reply) {
                Some(step) => Some(linking(name, vertex, fragment, step)),
                None => None,
            },
        }
    }
}

} // verus!
