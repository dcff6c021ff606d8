//! What holds of whole dialogues: the requests that the library makes of its
//! host from the first to the last, and what they come to, for every answer
//! that the host may give.

use crate::driver::dialogue;
use crate::driver::dialogue_ends;
use crate::driver::dialogue_unfolds;
use crate::driver::occurrences;
use crate::driver::occurrences_of_none;
use crate::driver::occurrences_of_one;
use crate::driver::occurrences_of_parts;
use crate::driver::ReplyView;
use crate::driver::RequestView;
use crate::driver::ShaderKind;
use crate::driver::Transcript;
use crate::render_gl::attach_all;
use crate::render_gl::compile_resumed;
use crate::render_gl::compile_start;
use crate::render_gl::detach_all;
use crate::render_gl::kind_of;
use crate::render_gl::link_resumed;
use crate::render_gl::link_start;
use crate::render_gl::program_resumed;
use crate::render_gl::program_start;
use crate::render_gl::shader_resumed;
use crate::render_gl::shader_start;
use crate::render_gl::before_terminator;
use crate::render_gl::diagnostic;
use crate::render_gl::diagnostic_says_something;
use crate::render_gl::while_linking;
use crate::render_gl::whitespace;
use crate::render_gl::CompileState;
use crate::render_gl::ErrorView;
use crate::render_gl::LinkState;
use crate::render_gl::ProgramState;
use crate::render_gl::ShaderState;
use crate::render_gl::ShaderView;
use crate::resources;
use crate::resources::loaded;
use crate::resources::located;
use crate::resources::segments;
use crate::resources::terminated;
use vstd::prelude::*;
use vstd::utf8::decode_utf8;
use vstd::utf8::valid_utf8;

verus! {

/// The dialogue of compiling `source` for the stage `kind`, answered by
/// `replies`.
pub open spec fn compile_dialogue(kind: ShaderKind, source: Seq<u8>, replies: Seq<ReplyView>)
    -> Transcript<Result<ShaderView, Seq<char>>> {
    dialogue(
        |job: CompileState, reply: ReplyView| compile_resumed(job, reply),
        compile_start(kind, source),
        replies,
    )
}

/// The dialogue of linking the shader objects `shaders`, answered by
/// `replies`.
pub open spec fn link_dialogue(shaders: Seq<u32>, replies: Seq<ReplyView>) -> Transcript<
    Result<u32, Seq<char>>,
> {
    dialogue(
        |job: LinkState, reply: ReplyView| link_resumed(job, reply),
        link_start(shaders),
        replies,
    )
}

/// The dialogue of making a shader from the resource `name` below the root
/// with the bytes `root`, answered by `replies`.
pub open spec fn shader_dialogue(root: Seq<u8>, name: Seq<char>, replies: Seq<ReplyView>)
    -> Transcript<Result<ShaderView, ErrorView>> {
    dialogue(
        |job: ShaderState, reply: ReplyView| shader_resumed(job, reply),
        shader_start(root, name),
        replies,
    )
}

/// The dialogue of making a program from the pair of resources `name` below
/// the root with the bytes `root`, answered by `replies`.
pub open spec fn program_dialogue(root: Seq<u8>, name: Seq<char>, replies: Seq<ReplyView>)
    -> Transcript<Result<u32, ErrorView>> {
    dialogue(
        |job: ProgramState, reply: ReplyView| program_resumed(job, reply),
        program_start(root, name),
        replies,
    )
}

/// The requests that compile `source` as the shader object `shader`, up to
/// the query of the status.
pub open spec fn compile_requests(kind: ShaderKind, source: Seq<u8>, shader: u32) -> Seq<
    RequestView,
> {
    seq![
        RequestView::CreateShader { kind },
        RequestView::ShaderSource { shader, source },
        RequestView::CompileShader { shader },
        RequestView::GetCompileStatus { shader },
    ]
}

/// The requests that fetch the info log of the shader object `shader`, whose
/// length the driver gave as `len`, and release the object.
pub open spec fn shader_failure_requests(shader: u32, len: i32) -> Seq<RequestView> {
    seq![
        RequestView::GetShaderLogLength { shader },
        RequestView::GetShaderInfoLog { shader, buffer: whitespace(len as int) },
        RequestView::DeleteShader { shader },
    ]
}

/// The requests that link `shaders` as the program object `program`, up to
/// the query of the status.
pub open spec fn link_requests(shaders: Seq<u32>, program: u32) -> Seq<RequestView> {
    seq![RequestView::CreateProgram] + attach_all(program, shaders) + seq![
        RequestView::LinkProgram { program },
        RequestView::GetLinkStatus { program },
    ]
}

/// The requests that fetch the info log of the program object `program`,
/// whose length the driver gave as `len`, and release the object.
pub open spec fn program_failure_requests(program: u32, len: i32) -> Seq<RequestView> {
    seq![
        RequestView::GetProgramLogLength { program },
        RequestView::GetProgramInfoLog { program, buffer: whitespace(len as int) },
        RequestView::DeleteProgram { program },
    ]
}

/// A source that the driver compiles becomes a shader with the name that the
/// driver gave the object, and nothing is released: after the object is
/// created as `shader` and the status is anything but zero, the dialogue
/// ends with that shader.
pub proof fn compiled_source_becomes_shader(
    kind: ShaderKind,
    source: Seq<u8>,
    shader: u32,
    status: i32,
)
    requires
        status != 0,
    ensures
        compile_dialogue(
            kind,
            source,
            seq![ReplyView::Handle(shader), ReplyView::Value(status)],
        ) == (Transcript {
            requests: compile_requests(kind, source, shader),
            outcome: Some(Ok::<ShaderView, Seq<char>>(ShaderView { id: shader, kind })),
        }),
{
    let resume = |job: CompileState, reply: ReplyView| compile_resumed(job, reply);
    let replies = seq![ReplyView::Handle(shader), ReplyView::Value(status)];
    let first = compile_start(kind, source);
    let second = compile_resumed(first.next->Await_0, replies[0]).unwrap();
    let third = compile_resumed(second.next->Await_0, replies[1]).unwrap();
    let after_first = replies.drop_first();
    let after_second = after_first.drop_first();
    assert(after_first[0] == replies[1]);
    assert(dialogue(resume, third, after_second).requests == third.requests);
    assert(dialogue(resume, second, after_first).requests == second.requests + third.requests);
    assert(dialogue(resume, first, replies).requests == first.requests + (second.requests
        + third.requests));
    assert(first.requests + (second.requests + third.requests) =~= compile_requests(
        kind,
        source,
        shader,
    ));
}

/// A source that the driver refuses leaves no shader object behind: after
/// the object is created as `shader` and the status is zero, the info log is
/// fetched into a buffer of the length that the driver gave, the object is
/// released, and the dialogue ends with the driver's diagnostic.
pub proof fn refused_source_releases_shader(
    kind: ShaderKind,
    source: Seq<u8>,
    shader: u32,
    len: i32,
    log: Seq<u8>,
)
    ensures
        compile_dialogue(
            kind,
            source,
            seq![
                ReplyView::Handle(shader),
                ReplyView::Value(0),
                ReplyView::Value(len),
                ReplyView::Bytes(log),
            ],
        ) == (Transcript {
            requests: compile_requests(kind, source, shader) + shader_failure_requests(shader, len),
            outcome: Some(Err::<ShaderView, Seq<char>>(diagnostic(log))),
        }),
{
    let resume = |job: CompileState, reply: ReplyView| compile_resumed(job, reply);
    let r0 = seq![
        ReplyView::Handle(shader),
        ReplyView::Value(0),
        ReplyView::Value(len),
        ReplyView::Bytes(log),
    ];
    let r1 = r0.drop_first();
    let r2 = r1.drop_first();
    let r3 = r2.drop_first();
    let r4 = r3.drop_first();
    let t0 = compile_start(kind, source);
    let t1 = compile_resumed(t0.next->Await_0, r0[0]).unwrap();
    let t2 = compile_resumed(t1.next->Await_0, r1[0]).unwrap();
    let t3 = compile_resumed(t2.next->Await_0, r2[0]).unwrap();
    let t4 = compile_resumed(t3.next->Await_0, r3[0]).unwrap();
    dialogue_unfolds(resume, t0, r0, t1);
    dialogue_unfolds(resume, t1, r1, t2);
    dialogue_unfolds(resume, t2, r2, t3);
    dialogue_unfolds(resume, t3, r3, t4);
    dialogue_ends(resume, t4, r4);
    assert(t0.requests + (t1.requests + (t2.requests + (t3.requests + t4.requests)))
        =~= compile_requests(kind, source, shader) + shader_failure_requests(shader, len));
}

/// Shaders that the driver links become a usable program, and the program
/// object is kept: after the object is created as `program` and the status
/// is anything but zero, every shader is detached and the dialogue ends with
/// the program of that name. No request releases it.
pub proof fn linked_shaders_become_program(shaders: Seq<u32>, program: u32, status: i32)
    requires
        status != 0,
    ensures
        link_dialogue(shaders, seq![ReplyView::Handle(program), ReplyView::Value(status)]) == (
        Transcript {
            requests: link_requests(shaders, program) + detach_all(program, shaders),
            outcome: Some(Ok::<u32, Seq<char>>(program)),
        }),
        !(link_requests(shaders, program) + detach_all(program, shaders)).contains(
            RequestView::DeleteProgram { program },
        ),
{
    let resume = |job: LinkState, reply: ReplyView| link_resumed(job, reply);
    let r0 = seq![ReplyView::Handle(program), ReplyView::Value(status)];
    let r1 = r0.drop_first();
    let r2 = r1.drop_first();
    let t0 = link_start(shaders);
    let t1 = link_resumed(t0.next->Await_0, r0[0]).unwrap();
    let t2 = link_resumed(t1.next->Await_0, r1[0]).unwrap();
    dialogue_unfolds(resume, t0, r0, t1);
    dialogue_unfolds(resume, t1, r1, t2);
    dialogue_ends(resume, t2, r2);
    assert(t0.requests + (t1.requests + t2.requests) =~= link_requests(shaders, program)
        + detach_all(program, shaders));
}

/// Shaders that the driver refuses to link leave no program object behind:
/// after the object is created as `program` and the status is zero, the info
/// log is fetched, the object is released, and the dialogue ends with the
/// driver's diagnostic. The program is created once and released once, by the last
/// request.
pub proof fn refused_link_releases_program(
    shaders: Seq<u32>,
    program: u32,
    len: i32,
    log: Seq<u8>,
)
    ensures
        link_dialogue(
            shaders,
            seq![
                ReplyView::Handle(program),
                ReplyView::Value(0),
                ReplyView::Value(len),
                ReplyView::Bytes(log),
            ],
        ) == (Transcript {
            requests: link_requests(shaders, program) + program_failure_requests(program, len),
            outcome: Some(Err::<u32, Seq<char>>(diagnostic(log))),
        }),
        occurrences(
            link_requests(shaders, program) + program_failure_requests(program, len),
            RequestView::CreateProgram,
        ) == 1,
        occurrences(
            link_requests(shaders, program) + program_failure_requests(program, len),
            RequestView::DeleteProgram { program },
        ) == 1,
        (link_requests(shaders, program) + program_failure_requests(program, len)).last() == (
        RequestView::DeleteProgram { program }),
{
    let resume = |job: LinkState, reply: ReplyView| link_resumed(job, reply);
    let r0 = seq![
        ReplyView::Handle(program),
        ReplyView::Value(0),
        ReplyView::Value(len),
        ReplyView::Bytes(log),
    ];
    let r1 = r0.drop_first();
    let r2 = r1.drop_first();
    let r3 = r2.drop_first();
    let r4 = r3.drop_first();
    let t0 = link_start(shaders);
    let t1 = link_resumed(t0.next->Await_0, r0[0]).unwrap();
    let t2 = link_resumed(t1.next->Await_0, r1[0]).unwrap();
    let t3 = link_resumed(t2.next->Await_0, r2[0]).unwrap();
    let t4 = link_resumed(t3.next->Await_0, r3[0]).unwrap();
    dialogue_unfolds(resume, t0, r0, t1);
    dialogue_unfolds(resume, t1, r1, t2);
    dialogue_unfolds(resume, t2, r2, t3);
    dialogue_unfolds(resume, t3, r3, t4);
    dialogue_ends(resume, t4, r4);
    let all = link_requests(shaders, program) + program_failure_requests(program, len);
    assert(t0.requests + (t1.requests + (t2.requests + (t3.requests + t4.requests))) =~= all);
    let create = RequestView::CreateProgram;
    let delete = RequestView::DeleteProgram { program };
    let attach = attach_all(program, shaders);
    let link = seq![
        RequestView::LinkProgram { program },
        RequestView::GetLinkStatus { program },
    ];
    let failure = program_failure_requests(program, len);
    assert(all =~= seq![create] + attach + link + failure);
    occurrences_of_parts(seq![create] + attach + link, failure, create);
    occurrences_of_parts(seq![create] + attach + link, failure, delete);
    occurrences_of_parts(seq![create] + attach, link, create);
    occurrences_of_parts(seq![create] + attach, link, delete);
    occurrences_of_parts(seq![create], attach, create);
    occurrences_of_parts(seq![create], attach, delete);
    occurrences_of_none(attach, create);
    occurrences_of_none(attach, delete);
    occurrences_of_none(link, create);
    occurrences_of_none(link, delete);
    occurrences_of_one(create, create);
    occurrences_of_one(create, delete);
    assert(failure.drop_last() =~= seq![
        RequestView::GetProgramLogLength { program },
        RequestView::GetProgramInfoLog { program, buffer: whitespace(len as int) },
    ]);
    occurrences_of_none(failure.drop_last(), create);
    occurrences_of_none(failure.drop_last(), delete);
}

/// A name with no known suffix is refused before anything is asked of the
/// host: whatever the replies, the dialogue holds no request, neither of the
/// driver nor of the file system, and ends with the error that carries the
/// name.
pub proof fn unknown_suffix_asks_nothing(root: Seq<u8>, name: Seq<char>, replies: Seq<ReplyView>)
    requires
        kind_of(name) is None,
    ensures
        shader_dialogue(root, name, replies) == (Transcript {
            requests: Seq::<RequestView>::empty(),
            outcome: Some(
                Err::<ShaderView, ErrorView>(
                    ErrorView::CannotDetermineShaderTypeForResource { name },
                ),
            ),
        }),
{
}

/// What is made of the contents of a file is the whole contents or nothing:
/// contents with a zero byte anywhere are refused as such, and any other
/// contents come back unchanged with the terminator after them.
pub proof fn loaded_text_is_whole(bytes: Seq<u8>)
    ensures
        bytes.contains(0u8) ==> loaded(Ok(bytes)) == Err::<Seq<u8>, resources::Error>(
            resources::Error::FileContainsNil,
        ),
        !bytes.contains(0u8) ==> loaded(Ok(bytes)) == Ok::<Seq<u8>, resources::Error>(
            bytes.push(0u8),
        ),
        loaded(Ok(bytes)) matches Ok(text) ==> terminated(text) && text.drop_last() == bytes,
{
    if !bytes.contains(0u8) {
        assert(bytes.push(0u8).drop_last() =~= bytes);
    }
}

/// A resource whose contents hold a zero byte never reaches the driver: the
/// file is read, nothing else is asked, and the dialogue ends with the error
/// that names the resource.
pub proof fn resource_with_nul_is_refused(
    root: Seq<u8>,
    name: Seq<char>,
    bytes: Seq<u8>,
    replies: Seq<ReplyView>,
)
    requires
        kind_of(name) is Some,
        bytes.contains(0u8),
        replies.len() > 0,
        replies[0] == ReplyView::File(Ok(bytes)),
    ensures
        shader_dialogue(root, name, replies) == (Transcript {
            requests: seq![RequestView::ReadFile { path: located(root, segments(name)) }],
            outcome: Some(
                Err::<ShaderView, ErrorView>(
                    ErrorView::ResourceLoad { name, inner: resources::Error::FileContainsNil },
                ),
            ),
        }),
{
    let resume = |job: ShaderState, reply: ReplyView| shader_resumed(job, reply);
    let t0 = shader_start(root, name);
    let t1 = shader_resumed(t0.next->Await_0, replies[0]).unwrap();
    dialogue_unfolds(resume, t0, replies, t1);
    dialogue_ends(resume, t1, replies.drop_first());
    assert(t0.requests + t1.requests =~= t0.requests);
}

/// A resource that the driver refuses to compile is reported under its own
/// name, with the driver's diagnostic as the message, and its shader object is
/// released: the file is read, its contents are compiled with the
/// terminator after them, the log is fetched, and the object is deleted.
pub proof fn refused_resource_names_itself(
    root: Seq<u8>,
    name: Seq<char>,
    bytes: Seq<u8>,
    shader: u32,
    len: i32,
    log: Seq<u8>,
)
    requires
        kind_of(name) is Some,
        !bytes.contains(0u8),
    ensures
        shader_dialogue(
            root,
            name,
            seq![
                ReplyView::File(Ok(bytes)),
                ReplyView::Handle(shader),
                ReplyView::Value(0),
                ReplyView::Value(len),
                ReplyView::Bytes(log),
            ],
        ) == (Transcript {
            requests: seq![RequestView::ReadFile { path: located(root, segments(name)) }]
                + compile_requests(kind_of(name).unwrap(), bytes.push(0u8), shader)
                + shader_failure_requests(shader, len),
            outcome: Some(
                Err::<ShaderView, ErrorView>(
                    ErrorView::CompileError { name, message: diagnostic(log) },
                ),
            ),
        }),
{
    let resume = |job: ShaderState, reply: ReplyView| shader_resumed(job, reply);
    let r0 = seq![
        ReplyView::File(Ok(bytes)),
        ReplyView::Handle(shader),
        ReplyView::Value(0),
        ReplyView::Value(len),
        ReplyView::Bytes(log),
    ];
    let r1 = r0.drop_first();
    let r2 = r1.drop_first();
    let r3 = r2.drop_first();
    let r4 = r3.drop_first();
    let r5 = r4.drop_first();
    let t0 = shader_start(root, name);
    let t1 = shader_resumed(t0.next->Await_0, r0[0]).unwrap();
    let t2 = shader_resumed(t1.next->Await_0, r1[0]).unwrap();
    let t3 = shader_resumed(t2.next->Await_0, r2[0]).unwrap();
    let t4 = shader_resumed(t3.next->Await_0, r3[0]).unwrap();
    let t5 = shader_resumed(t4.next->Await_0, r4[0]).unwrap();
    dialogue_unfolds(resume, t0, r0, t1);
    dialogue_unfolds(resume, t1, r1, t2);
    dialogue_unfolds(resume, t2, r2, t3);
    dialogue_unfolds(resume, t3, r3, t4);
    dialogue_unfolds(resume, t4, r4, t5);
    dialogue_ends(resume, t5, r5);
    assert(t0.requests + (t1.requests + (t2.requests + (t3.requests + (t4.requests
        + t5.requests)))) =~= seq![
        RequestView::ReadFile { path: located(root, segments(name)) },
    ] + compile_requests(kind_of(name).unwrap(), bytes.push(0u8), shader)
        + shader_failure_requests(shader, len));
}

/// A resource that the driver refuses to compile is reported with a message
/// that says something, whenever the driver said something: where the text
/// that the driver wrote into the log is valid UTF-8 and not empty, the
/// error carries the name of the resource and that text, which is not
/// empty.
pub proof fn refused_resource_says_why(
    root: Seq<u8>,
    name: Seq<char>,
    bytes: Seq<u8>,
    shader: u32,
    len: i32,
    log: Seq<u8>,
)
    requires
        kind_of(name) is Some,
        !bytes.contains(0u8),
        valid_utf8(before_terminator(log)),
        before_terminator(log).len() > 0,
    ensures
        shader_dialogue(
            root,
            name,
            seq![
                ReplyView::File(Ok(bytes)),
                ReplyView::Handle(shader),
                ReplyView::Value(0),
                ReplyView::Value(len),
                ReplyView::Bytes(log),
            ],
        ).outcome == Some(
            Err::<ShaderView, ErrorView>(
                ErrorView::CompileError { name, message: decode_utf8(before_terminator(log)) },
            ),
        ),
        decode_utf8(before_terminator(log)).len() > 0,
{
    refused_resource_names_itself(root, name, bytes, shader, len, log);
    diagnostic_says_something(log);
}

/// The two resources of a pair are always taken for what they are: the name
/// with `.vert` after it stands for a vertex shader, and the name with
/// `.frag` after it for a fragment shader.
pub proof fn pair_names_have_kinds(name: Seq<char>)
    ensures
        kind_of(name + ".vert"@) == Some(ShaderKind::Vertex),
        kind_of(name + ".frag"@) == Some(ShaderKind::Fragment),
{
    reveal_strlit(".vert");
    reveal_strlit(".frag");
    let vertex = name + ".vert"@;
    let fragment = name + ".frag"@;
    assert(vertex.skip(vertex.len() - 5) =~= ".vert"@);
    assert(fragment.skip(fragment.len() - 5) =~= ".frag"@);
    assert(fragment.skip(fragment.len() - 5)[1] == 'f');
    assert(".vert"@[1] == 'v');
}

/// The requests that load the resource `name` and compile its contents
/// `bytes` as the shader object `shader`, up to the query of the status.
pub open spec fn shader_requests(
    root: Seq<u8>,
    name: Seq<char>,
    kind: ShaderKind,
    bytes: Seq<u8>,
    shader: u32,
) -> Seq<RequestView> {
    seq![RequestView::ReadFile { path: located(root, segments(name)) }] + compile_requests(
        kind,
        bytes.push(0u8),
        shader,
    )
}

/// The requests that release the two shaders of a pair.
pub open spec fn release_requests(vertex: u32, fragment: u32) -> Seq<RequestView> {
    seq![
        RequestView::DeleteShader { shader: vertex },
        RequestView::DeleteShader { shader: fragment },
    ]
}

/// The replies of a host that reads both files, without a zero byte in
/// either, and whose driver compiles both shaders.
pub open spec fn pair_compiled(
    vertex_bytes: Seq<u8>,
    vertex: u32,
    vertex_status: i32,
    fragment_bytes: Seq<u8>,
    fragment: u32,
    fragment_status: i32,
) -> Seq<ReplyView> {
    seq![
        ReplyView::File(Ok(vertex_bytes)),
        ReplyView::Handle(vertex),
        ReplyView::Value(vertex_status),
        ReplyView::File(Ok(fragment_bytes)),
        ReplyView::Handle(fragment),
        ReplyView::Value(fragment_status),
    ]
}

/// The dialogue of linking the shaders of the pair `name`, inside the making
/// of the program, answered by `replies`.
pub open spec fn pair_linking(
    name: Seq<char>,
    vertex: ShaderView,
    fragment: ShaderView,
    replies: Seq<ReplyView>,
) -> Transcript<Result<u32, ErrorView>> {
    dialogue(
        |job: ProgramState, reply: ReplyView| program_resumed(job, reply),
        while_linking(name, vertex, fragment, link_start(seq![vertex.id, fragment.id])),
        replies,
    )
}

/// Once both shaders of a pair are compiled, the making of the program goes
/// on with the linking of the two: up to there each file was read and
/// compiled, the vertex shader first, and nothing else was asked.
pub proof fn compiled_pair_is_linked(
    root: Seq<u8>,
    name: Seq<char>,
    vertex_bytes: Seq<u8>,
    vertex: u32,
    vertex_status: i32,
    fragment_bytes: Seq<u8>,
    fragment: u32,
    fragment_status: i32,
    rest: Seq<ReplyView>,
)
    requires
        !vertex_bytes.contains(0u8),
        !fragment_bytes.contains(0u8),
        vertex_status != 0,
        fragment_status != 0,
    ensures
        ({
            let linking = pair_linking(
                name,
                ShaderView { id: vertex, kind: ShaderKind::Vertex },
                ShaderView { id: fragment, kind: ShaderKind::Fragment },
                rest,
            );
            program_dialogue(
                root,
                name,
                pair_compiled(
                    vertex_bytes,
                    vertex,
                    vertex_status,
                    fragment_bytes,
                    fragment,
                    fragment_status,
                ) + rest,
            ) == (Transcript {
                requests: shader_requests(
                    root,
                    name + ".vert"@,
                    ShaderKind::Vertex,
                    vertex_bytes,
                    vertex,
                ) + shader_requests(
                    root,
                    name + ".frag"@,
                    ShaderKind::Fragment,
                    fragment_bytes,
                    fragment,
                ) + linking.requests,
                outcome: linking.outcome,
            })
        }),
{
    pair_names_have_kinds(name);
    let resume = |job: ProgramState, reply: ReplyView| program_resumed(job, reply);
    let r0 = pair_compiled(
        vertex_bytes,
        vertex,
        vertex_status,
        fragment_bytes,
        fragment,
        fragment_status,
    ) + rest;
    let r1 = r0.drop_first();
    let r2 = r1.drop_first();
    let r3 = r2.drop_first();
    let r4 = r3.drop_first();
    let r5 = r4.drop_first();
    let r6 = r5.drop_first();
    assert(r6 =~= rest);
    let t0 = program_start(root, name);
    let t1 = program_resumed(t0.next->Await_0, r0[0]).unwrap();
    let t2 = program_resumed(t1.next->Await_0, r1[0]).unwrap();
    let t3 = program_resumed(t2.next->Await_0, r2[0]).unwrap();
    let t4 = program_resumed(t3.next->Await_0, r3[0]).unwrap();
    let t5 = program_resumed(t4.next->Await_0, r4[0]).unwrap();
    let t6 = program_resumed(t5.next->Await_0, r5[0]).unwrap();
    dialogue_unfolds(resume, t0, r0, t1);
    dialogue_unfolds(resume, t1, r1, t2);
    dialogue_unfolds(resume, t2, r2, t3);
    dialogue_unfolds(resume, t3, r3, t4);
    dialogue_unfolds(resume, t4, r4, t5);
    dialogue_unfolds(resume, t5, r5, t6);
    let start = while_linking(
        name,
        ShaderView { id: vertex, kind: ShaderKind::Vertex },
        ShaderView { id: fragment, kind: ShaderKind::Fragment },
        link_start(seq![vertex, fragment]),
    );
    assert(t6.next == start.next);
    assert(t6.requests =~= start.requests);
    assert(t6 == start);
    let linking = dialogue(resume, start, rest);
    assert(t0.requests + (t1.requests + (t2.requests + (t3.requests + (t4.requests + (t5.requests
        + linking.requests))))) =~= shader_requests(
        root,
        name + ".vert"@,
        ShaderKind::Vertex,
        vertex_bytes,
        vertex,
    ) + shader_requests(root, name + ".frag"@, ShaderKind::Fragment, fragment_bytes, fragment)
        + linking.requests);
}

/// A pair of resources that the driver compiles and links becomes a program,
/// and only the program is left: each file is read and compiled, the vertex
/// shader first, the two shaders are attached, linked and detached, both
/// shaders are released, and the dialogue ends with the program of the name
/// that the driver gave it.
pub proof fn pair_becomes_program(
    root: Seq<u8>,
    name: Seq<char>,
    vertex_bytes: Seq<u8>,
    vertex: u32,
    vertex_status: i32,
    fragment_bytes: Seq<u8>,
    fragment: u32,
    fragment_status: i32,
    program: u32,
    status: i32,
)
    requires
        !vertex_bytes.contains(0u8),
        !fragment_bytes.contains(0u8),
        vertex_status != 0,
        fragment_status != 0,
        status != 0,
    ensures
        program_dialogue(
            root,
            name,
            pair_compiled(
                vertex_bytes,
                vertex,
                vertex_status,
                fragment_bytes,
                fragment,
                fragment_status,
            ) + seq![ReplyView::Handle(program), ReplyView::Value(status)],
        ) == (Transcript {
            requests: shader_requests(
                root,
                name + ".vert"@,
                ShaderKind::Vertex,
                vertex_bytes,
                vertex,
            ) + shader_requests(
                root,
                name + ".frag"@,
                ShaderKind::Fragment,
                fragment_bytes,
                fragment,
            ) + (link_requests(seq![vertex, fragment], program) + detach_all(
                program,
                seq![vertex, fragment],
            ) + release_requests(vertex, fragment)),
            outcome: Some(Ok::<u32, ErrorView>(program)),
        }),
{
    let rest = seq![ReplyView::Handle(program), ReplyView::Value(status)];
    compiled_pair_is_linked(
        root,
        name,
        vertex_bytes,
        vertex,
        vertex_status,
        fragment_bytes,
        fragment,
        fragment_status,
        rest,
    );
    let resume = |job: ProgramState, reply: ReplyView| program_resumed(job, reply);
    let v = ShaderView { id: vertex, kind: ShaderKind::Vertex };
    let f = ShaderView { id: fragment, kind: ShaderKind::Fragment };
    let r0 = rest;
    let r1 = r0.drop_first();
    let r2 = r1.drop_first();
    let t0 = while_linking(name, v, f, link_start(seq![vertex, fragment]));
    let t1 = program_resumed(t0.next->Await_0, r0[0]).unwrap();
    let t2 = program_resumed(t1.next->Await_0, r1[0]).unwrap();
    dialogue_unfolds(resume, t0, r0, t1);
    dialogue_unfolds(resume, t1, r1, t2);
    dialogue_ends(resume, t2, r2);
    assert(t0.requests + (t1.requests + t2.requests) =~= link_requests(
        seq![vertex, fragment],
        program,
    ) + detach_all(program, seq![vertex, fragment]) + release_requests(vertex, fragment));
}

/// A pair of shaders that the driver refuses to link leaves nothing behind:
/// the info log is fetched, the program object is released, both shaders are
/// released, and the dialogue ends with the error that carries the name of
/// the pair and the driver's diagnostic.
pub proof fn refused_pair_releases_everything(
    root: Seq<u8>,
    name: Seq<char>,
    vertex_bytes: Seq<u8>,
    vertex: u32,
    vertex_status: i32,
    fragment_bytes: Seq<u8>,
    fragment: u32,
    fragment_status: i32,
    program: u32,
    len: i32,
    log: Seq<u8>,
)
    requires
        !vertex_bytes.contains(0u8),
        !fragment_bytes.contains(0u8),
        vertex_status != 0,
        fragment_status != 0,
    ensures
        program_dialogue(
            root,
            name,
            pair_compiled(
                vertex_bytes,
                vertex,
                vertex_status,
                fragment_bytes,
                fragment,
                fragment_status,
            ) + seq![
                ReplyView::Handle(program),
                ReplyView::Value(0),
                ReplyView::Value(len),
                ReplyView::Bytes(log),
            ],
        ) == (Transcript {
            requests: shader_requests(
                root,
                name + ".vert"@,
                ShaderKind::Vertex,
                vertex_bytes,
                vertex,
            ) + shader_requests(
                root,
                name + ".frag"@,
                ShaderKind::Fragment,
                fragment_bytes,
                fragment,
            ) + (link_requests(seq![vertex, fragment], program) + program_failure_requests(
                program,
                len,
            ) + release_requests(vertex, fragment)),
            outcome: Some(
                Err::<u32, ErrorView>(ErrorView::LinkError { name, message: diagnostic(log) }),
            ),
        }),
{
    let rest = seq![
        ReplyView::Handle(program),
        ReplyView::Value(0),
        ReplyView::Value(len),
        ReplyView::Bytes(log),
    ];
    compiled_pair_is_linked(
        root,
        name,
        vertex_bytes,
        vertex,
        vertex_status,
        fragment_bytes,
        fragment,
        fragment_status,
        rest,
    );
    let resume = |job: ProgramState, reply: ReplyView| program_resumed(job, reply);
    let v = ShaderView { id: vertex, kind: ShaderKind::Vertex };
    let f = ShaderView { id: fragment, kind: ShaderKind::Fragment };
    let r0 = rest;
    let r1 = r0.drop_first();
    let r2 = r1.drop_first();
    let r3 = r2.drop_first();
    let r4 = r3.drop_first();
    let t0 = while_linking(name, v, f, link_start(seq![vertex, fragment]));
    let t1 = program_resumed(t0.next->Await_0, r0[0]).unwrap();
    let t2 = program_resumed(t1.next->Await_0, r1[0]).unwrap();
    let t3 = program_resumed(t2.next->Await_0, r2[0]).unwrap();
    let t4 = program_resumed(t3.next->Await_0, r3[0]).unwrap();
    dialogue_unfolds(resume, t0, r0, t1);
    dialogue_unfolds(resume, t1, r1, t2);
    dialogue_unfolds(resume, t2, r2, t3);
    dialogue_unfolds(resume, t3, r3, t4);
    dialogue_ends(resume, t4, r4);
    assert(t0.requests + (t1.requests + (t2.requests + (t3.requests + t4.requests)))
        =~= link_requests(seq![vertex, fragment], program) + program_failure_requests(
        program,
        len,
    ) + release_requests(vertex, fragment));
}

} // verus!
