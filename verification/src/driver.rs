//! The boundary between the library and its host. The library performs no
//! file or GPU operation itself: it hands its host the requests to carry
//! out, in order, and takes the reply to the last of them. This module holds
//! that vocabulary and the mathematical model of a whole dialogue.

use crate::resources::path_text;
use std::path::PathBuf;
use vstd::prelude::*;

verus! {

/// The pipeline stage that a shader is compiled for.
#[derive(Clone, Copy, Debug, PartialEq, Eq, Structural)]
pub enum ShaderKind {
    Vertex,
    Fragment,
}

/// One operation that the host carries out for the library.
#[derive(Debug, PartialEq, Eq)]
pub enum Request {
    /// Read the whole file at `path`. Answered by [`Reply::File`].
    ReadFile { path: PathBuf },
    /// Create a shader object. Answered by [`Reply::Handle`].
    CreateShader { kind: ShaderKind },
    /// Set the source of `shader` to the NUL-terminated text `source`.
    ShaderSource { shader: u32, source: Vec<u8> },
    /// Compile `shader`.
    CompileShader { shader: u32 },
    /// Query the compile status of `shader`. Answered by [`Reply::Value`].
    GetCompileStatus { shader: u32 },
    /// Query the length of the info log of `shader`. Answered by
    /// [`Reply::Value`].
    GetShaderLogLength { shader: u32 },
    /// Let the driver write the info log of `shader` into `buffer`. Answered
    /// by [`Reply::Bytes`] with the buffer as the driver left it.
    GetShaderInfoLog { shader: u32, buffer: Vec<u8> },
    /// Release `shader`.
    DeleteShader { shader: u32 },
    /// Create a program object. Answered by [`Reply::Handle`].
    CreateProgram,
    /// Attach `shader` to `program`.
    AttachShader { program: u32, shader: u32 },
    /// Link `program`.
    LinkProgram { program: u32 },
    /// Query the link status of `program`. Answered by [`Reply::Value`].
    GetLinkStatus { program: u32 },
    /// Query the length of the info log of `program`. Answered by
    /// [`Reply::Value`].
    GetProgramLogLength { program: u32 },
    /// Let the driver write the info log of `program` into `buffer`. Answered
    /// by [`Reply::Bytes`] with the buffer as the driver left it.
    GetProgramInfoLog { program: u32, buffer: Vec<u8> },
    /// Detach `shader` from `program`.
    DetachShader { program: u32, shader: u32 },
    /// Release `program`.
    DeleteProgram { program: u32 },
    /// Make `program` the current program of the context.
    UseProgram { program: u32 },
    /// Clear the colour buffer of the frame.
    ClearFrame,
    /// Bind the vertex array object `array`.
    BindVertexArray { array: u32 },
    /// Draw `count` vertices as triangles, starting at vertex `first`.
    DrawTriangles { first: i32, count: i32 },
    /// Show the frame that was drawn.
    PresentFrame,
}

/// A request as a mathematical value.
pub enum RequestView {
    ReadFile { path: Seq<u8> },
    CreateShader { kind: ShaderKind },
    ShaderSource { shader: u32, source: Seq<u8> },
    CompileShader { shader: u32 },
    GetCompileStatus { shader: u32 },
    GetShaderLogLength { shader: u32 },
    GetShaderInfoLog { shader: u32, buffer: Seq<u8> },
    DeleteShader { shader: u32 },
    CreateProgram,
    AttachShader { program: u32, shader: u32 },
    LinkProgram { program: u32 },
    GetLinkStatus { program: u32 },
    GetProgramLogLength { program: u32 },
    GetProgramInfoLog { program: u32, buffer: Seq<u8> },
    DetachShader { program: u32, shader: u32 },
    DeleteProgram { program: u32 },
    UseProgram { program: u32 },
    ClearFrame,
    BindVertexArray { array: u32 },
    DrawTriangles { first: i32, count: i32 },
    PresentFrame,
}

impl View for Request {
    type V = RequestView;

    open spec fn view(&self) -> RequestView {
        match *self {
            Request::ReadFile { path } => RequestView::ReadFile { path: path_text(path) },
            Request::CreateShader { kind } => RequestView::CreateShader { kind },
            Request::ShaderSource { shader, source } => RequestView::ShaderSource {
                shader,
                source: source@,
            },
            Request::CompileShader { shader } => RequestView::CompileShader { shader },
            Request::GetCompileStatus { shader } => RequestView::GetCompileStatus { shader },
            Request::GetShaderLogLength { shader } => RequestView::GetShaderLogLength { shader },
            Request::GetShaderInfoLog { shader, buffer } => RequestView::GetShaderInfoLog {
                shader,
                buffer: buffer@,
            },
            Request::DeleteShader { shader } => RequestView::DeleteShader { shader },
            Request::CreateProgram => RequestView::CreateProgram,
            Request::AttachShader { program, shader } => RequestView::AttachShader {
                program,
                shader,
            },
            Request::LinkProgram { program } => RequestView::LinkProgram { program },
            Request::GetLinkStatus { program } => RequestView::GetLinkStatus { program },
            Request::GetProgramLogLength { program } => RequestView::GetProgramLogLength {
                program,
            },
            Request::GetProgramInfoLog { program, buffer } => RequestView::GetProgramInfoLog {
                program,
                buffer: buffer@,
            },
            Request::DetachShader { program, shader } => RequestView::DetachShader {
                program,
                shader,
            },
            Request::DeleteProgram { program } => RequestView::DeleteProgram { program },
            Request::UseProgram { program } => RequestView::UseProgram { program },
            Request::ClearFrame => RequestView::ClearFrame,
            Request::BindVertexArray { array } => RequestView::BindVertexArray { array },
            Request::DrawTriangles { first, count } => RequestView::DrawTriangles { first, count },
            Request::PresentFrame => RequestView::PresentFrame,
        }
    }
}

impl DeepView for Request {
    type V = RequestView;

    open spec fn deep_view(&self) -> RequestView {
        self@
    }
}

/// What the host answers to the last request of a batch.
#[derive(Debug)]
pub enum Reply {
    /// The request has no result.
    Nothing,
    /// The name of the object that was created.
    Handle(u32),
    /// The integer that was queried.
    Value(i32),
    /// The buffer that the driver filled.
    Bytes(Vec<u8>),
    /// The contents of the file, or why it could not be read.
    File(Result<Vec<u8>, std::io::Error>),
}

/// A reply as a mathematical value.
pub enum ReplyView {
    Nothing,
    Handle(u32),
    Value(i32),
    Bytes(Seq<u8>),
    File(Result<Seq<u8>, std::io::Error>),
}

impl View for Reply {
    type V = ReplyView;

    open spec fn view(&self) -> ReplyView {
        match *self {
            Reply::Nothing => ReplyView::Nothing,
            Reply::Handle(handle) => ReplyView::Handle(handle),
            Reply::Value(value) => ReplyView::Value(value),
            Reply::Bytes(bytes) => ReplyView::Bytes(bytes@),
            Reply::File(Ok(bytes)) => ReplyView::File(Ok(bytes@)),
            Reply::File(Err(error)) => ReplyView::File(Err(error)),
        }
    }
}

/// How a dialogue goes on after a batch of requests: with a job that waits
/// for the reply to the last of them, or not at all.
#[derive(Debug)]
pub enum Next<J, T> {
    Await(J),
    Done(T),
}

/// One turn of a dialogue: the requests that the host carries out now, in
/// order, and what follows them.
#[derive(Debug)]
pub struct Step<J, T> {
    pub requests: Vec<Request>,
    pub next: Next<J, T>,
}

/// Adds `request` at the end of `requests`.
pub fn ask(requests: &mut Vec<Request>, request: Request)
    ensures
        final(requests).deep_view() == old(requests).deep_view().push(request@),
{
    requests.push(request);
    assert(requests.deep_view() =~= old(requests).deep_view().push(request@));
}

/// Adds every request of `more`, in order, at the end of `requests`.
pub fn ask_all(requests: &mut Vec<Request>, more: Vec<Request>)
    ensures
        final(requests).deep_view() == old(requests).deep_view() + more.deep_view(),
{
    let ghost added = more.deep_view();
    let mut rest = more;
    requests.append(&mut rest);
    assert(requests.deep_view() =~= old(requests).deep_view() + added);
}

/// A turn of a dialogue as a mathematical value, over the view `J` of the job
/// and the view `T` of the outcome.
pub struct Turn<J, T> {
    pub requests: Seq<RequestView>,
    pub next: Next<J, T>,
}

/// What a dialogue came to: every request made, in order, and the outcome if
/// the dialogue reached one.
pub struct Transcript<T> {
    pub requests: Seq<RequestView>,
    pub outcome: Option<T>,
}

/// The dialogue that starts with `turn` and is answered by `replies`, where
/// `resume` is the job's rule for taking a reply. It stops at the outcome, at
/// the end of the replies, or at a reply that the job does not take.
pub open spec fn dialogue<J, T>(
    resume: spec_fn(J, ReplyView) -> Option<Turn<J, T>>,
    turn: Turn<J, T>,
    replies: Seq<ReplyView>,
) -> Transcript<T>
    decreases replies.len(),
{
    match turn.next {
        Next::Done(outcome) => Transcript { requests: turn.requests, outcome: Some(outcome) },
        Next::Await(job) => {
            if replies.len() == 0 {
                Transcript { requests: turn.requests, outcome: None }
            } else {
                match resume(job, replies[0]) {
                    None => Transcript { requests: turn.requests, outcome: None },
                    Some(following) => {
                        let rest = dialogue(resume, following, replies.drop_first());
                        Transcript {
                            requests: turn.requests + rest.requests,
                            outcome: rest.outcome,
                        }
                    },
                }
            }
        },
    }
}

/// A dialogue whose first reply is taken goes on with the turn that the
/// reply leads to, and with the rest of the replies.
pub proof fn dialogue_unfolds<J, T>(
    resume: spec_fn(J, ReplyView) -> Option<Turn<J, T>>,
    turn: Turn<J, T>,
    replies: Seq<ReplyView>,
    following: Turn<J, T>,
)
    requires
        replies.len() > 0,
        turn.next matches Next::Await(job) && resume(job, replies[0]) == Some(following),
    ensures
        dialogue(resume, turn, replies).requests == turn.requests + dialogue(
            resume,
            following,
            replies.drop_first(),
        ).requests,
        dialogue(resume, turn, replies).outcome == dialogue(
            resume,
            following,
            replies.drop_first(),
        ).outcome,
{
}

/// A dialogue that has reached its outcome makes no further request,
/// whatever replies are left.
pub proof fn dialogue_ends<J, T>(
    resume: spec_fn(J, ReplyView) -> Option<Turn<J, T>>,
    turn: Turn<J, T>,
    replies: Seq<ReplyView>,
)
    requires
        turn.next is Done,
    ensures
        dialogue(resume, turn, replies) == (Transcript {
            requests: turn.requests,
            outcome: Some(turn.next->Done_0),
        }),
{
}

/// How often `wanted` stands in `requests`.
pub open spec fn occurrences(requests: Seq<RequestView>, wanted: RequestView) -> nat
    decreases requests.len(),
{
    if requests.len() == 0 {
        0
    } else {
        occurrences(requests.drop_last(), wanted) + if requests.last() == wanted {
            1nat
        } else {
            0nat
        }
    }
}

/// The occurrences in two sequences written one after the other add up.
pub proof fn occurrences_of_parts(
    front: Seq<RequestView>,
    back: Seq<RequestView>,
    wanted: RequestView,
)
    ensures
        occurrences(front + back, wanted) == occurrences(front, wanted) + occurrences(
            back,
            wanted,
        ),
    decreases back.len(),
{
    if back.len() == 0 {
        assert(front + back =~= front);
    } else {
        assert((front + back).drop_last() =~= front + back.drop_last());
        occurrences_of_parts(front, back.drop_last(), wanted);
    }
}

/// What does not stand in a sequence occurs in it no times.
pub proof fn occurrences_of_none(requests: Seq<RequestView>, wanted: RequestView)
    requires
        !requests.contains(wanted),
    ensures
        occurrences(requests, wanted) == 0,
    decreases requests.len(),
{
    if requests.len() > 0 {
        assert(requests.last() == requests[requests.len() - 1]);
        assert forall|i: int| 0 <= i < requests.drop_last().len() implies requests.drop_last()[i]
            != wanted by {
            assert(requests[i] == requests.drop_last()[i]);
        }
        occurrences_of_none(requests.drop_last(), wanted);
    }
}

/// A single request occurs once where it is the wanted one, and no times
/// where it is not.
pub proof fn occurrences_of_one(request: RequestView, wanted: RequestView)
    ensures
        occurrences(seq![request], wanted) == if request == wanted {
            1nat
        } else {
            0nat
        },
{
    let single = seq![request];
    assert(single.drop_last() =~= Seq::<RequestView>::empty());
    assert(occurrences(single.drop_last(), wanted) == 0);
    assert(single.last() == request);
}

} // verus!
