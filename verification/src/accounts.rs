//! Keeping account of the driver's objects: every dialogue that comes to an
//! end, whatever the host answered on the way, has released each object that
//! it created, but for the one that it hands out.

use crate::driver::dialogue;
use crate::driver::Next;
use crate::driver::ReplyView;
use crate::driver::RequestView;
use crate::driver::ShaderKind;
use crate::driver::Turn;
use crate::laws::compile_dialogue;
use crate::laws::link_dialogue;
use crate::laws::program_dialogue;
use crate::laws::shader_dialogue;
use crate::render_gl::attach_all;
use crate::render_gl::compile_resumed;
use crate::render_gl::compile_start;
use crate::render_gl::detach_all;
use crate::render_gl::kind_of;
use crate::render_gl::link_resumed;
use crate::render_gl::link_start;
use crate::render_gl::program_resumed;
use crate::render_gl::program_start;
use crate::render_gl::shader_resumed;
use crate::render_gl::shader_start;
use crate::render_gl::while_compiling;
use crate::render_gl::while_fragment;
use crate::render_gl::while_linking;
use crate::render_gl::while_loading;
use crate::render_gl::while_vertex;
use crate::render_gl::CompileState;
use crate::render_gl::ErrorView;
use crate::render_gl::LinkState;
use crate::render_gl::ProgramState;
use crate::render_gl::ShaderState;
use crate::render_gl::ShaderView;
use crate::render_gl::CompileTurn;
use crate::render_gl::LinkTurn;
use crate::render_gl::ShaderTurn;
use crate::render_gl::ProgramTurn;
use crate::resources;
use crate::resources::load_start;
use crate::resources::LoadJob;
use crate::resources::LoadTurn;
use vstd::prelude::*;

verus! {

/// How many objects of the driver are alive: those created and not yet
/// released.
pub struct Ledger {
    pub shaders: int,
    pub programs: int,
}

/// No object.
pub open spec fn nothing() -> Ledger {
    Ledger { shaders: 0, programs: 0 }
}

/// One shader object.
pub open spec fn one_shader() -> Ledger {
    Ledger { shaders: 1, programs: 0 }
}

/// One program object.
pub open spec fn one_program() -> Ledger {
    Ledger { shaders: 0, programs: 1 }
}

/// The objects of two ledgers together.
pub open spec fn plus(a: Ledger, b: Ledger) -> Ledger {
    Ledger { shaders: a.shaders + b.shaders, programs: a.programs + b.programs }
}

/// What one request does to the objects alive: it creates one, releases
/// one, or neither.
pub open spec fn entry(request: RequestView) -> Ledger {
    match request {
        RequestView::CreateShader { .. } => Ledger { shaders: 1, programs: 0 },
        RequestView::DeleteShader { .. } => Ledger { shaders: -1, programs: 0 },
        RequestView::CreateProgram => Ledger { shaders: 0, programs: 1 },
        RequestView::DeleteProgram { .. } => Ledger { shaders: 0, programs: -1 },
        _ => nothing(),
    }
}

/// The objects that `requests` leave alive: one for each that they create,
/// less one for each that they release.
pub open spec fn left_by(requests: Seq<RequestView>) -> Ledger
    decreases requests.len(),
{
    if requests.len() == 0 {
        nothing()
    } else {
        plus(left_by(requests.drop_last()), entry(requests.last()))
    }
}

/// What two sequences of requests leave alive, one after the other, is the
/// sum of what each leaves.
pub proof fn left_by_parts(front: Seq<RequestView>, back: Seq<RequestView>)
    ensures
        left_by(front + back) == plus(left_by(front), left_by(back)),
    decreases back.len(),
{
    if back.len() == 0 {
        assert(front + back =~= front);
    } else {
        assert((front + back).drop_last() =~= front + back.drop_last());
        left_by_parts(front, back.drop_last());
    }
}

/// Requests that neither create nor release leave nothing alive.
pub proof fn left_by_idle(requests: Seq<RequestView>)
    requires
        forall|i: int| 0 <= i < requests.len() ==> entry(#[trigger] requests[i]) == nothing(),
    ensures
        left_by(requests) == nothing(),
    decreases requests.len(),
{
    if requests.len() > 0 {
        left_by_idle(requests.drop_last());
    }
}

/// No request leaves nothing alive, and one request leaves what it enters.
pub proof fn left_by_one(a: RequestView)
    ensures
        left_by(Seq::<RequestView>::empty()) == nothing(),
        left_by(seq![a]) == entry(a),
{
    assert(seq![a].drop_last() =~= Seq::<RequestView>::empty());
    assert(left_by(seq![a].drop_last()) == nothing());
    assert(seq![a].last() == a);
}

/// What two requests leave alive.
pub proof fn left_by_two(a: RequestView, b: RequestView)
    ensures
        left_by(seq![a, b]) == plus(entry(a), entry(b)),
{
    left_by_one(a);
    assert(seq![a, b].drop_last() =~= seq![a]);
    assert(seq![a, b].last() == b);
}

/// What three requests leave alive.
pub proof fn left_by_three(a: RequestView, b: RequestView, c: RequestView)
    ensures
        left_by(seq![a, b, c]) == plus(plus(entry(a), entry(b)), entry(c)),
{
    left_by_two(a, b);
    assert(seq![a, b, c].drop_last() =~= seq![a, b]);
    assert(seq![a, b, c].last() == c);
}

/// Whether `turn` settles the account: with `before` alive ahead of it, its
/// requests leave alive what the job that waits holds, which must be a job
/// in order, or what the outcome keeps.
pub open spec fn settles<J, T>(
    valid: spec_fn(J) -> bool,
    held: spec_fn(J) -> Ledger,
    kept: spec_fn(T) -> Ledger,
    before: Ledger,
    turn: Turn<J, T>,
) -> bool {
    match turn.next {
        Next::Await(job) => valid(job) && plus(before, left_by(turn.requests)) == held(job),
        Next::Done(outcome) => plus(before, left_by(turn.requests)) == kept(outcome),
    }
}

/// If every turn that a job in order can take settles the account, then so
/// does every dialogue that comes to an end: its requests leave alive what
/// its outcome keeps.
pub proof fn dialogue_settles<J, T>(
    resume: spec_fn(J, ReplyView) -> Option<Turn<J, T>>,
    valid: spec_fn(J) -> bool,
    held: spec_fn(J) -> Ledger,
    kept: spec_fn(T) -> Ledger,
    before: Ledger,
    turn: Turn<J, T>,
    replies: Seq<ReplyView>,
)
    requires
        forall|job: J, reply: ReplyView|
            valid(job) ==> match #[trigger] resume(job, reply) {
                Some(following) => settles(valid, held, kept, held(job), following),
                None => true,
            },
        settles(valid, held, kept, before, turn),
    ensures
        dialogue(resume, turn, replies).outcome matches Some(outcome) ==> plus(
            before,
            left_by(dialogue(resume, turn, replies).requests),
        ) == kept(outcome),
    decreases replies.len(),
{
    match turn.next {
        Next::Done(_) => {},
        Next::Await(job) => {
            if replies.len() > 0 {
                match resume(job, replies[0]) {
                    None => {},
                    Some(following) => {
                        dialogue_settles(
                            resume,
                            valid,
                            held,
                            kept,
                            held(job),
                            following,
                            replies.drop_first(),
                        );
                        left_by_parts(
                            turn.requests,
                            dialogue(resume, following, replies.drop_first()).requests,
                        );
                    },
                }
            }
        },
    }
}

/// What an outcome keeps that hands out one object on success: that object,
/// or nothing.
pub open spec fn kept_if_made<V, E>(outcome: Result<V, E>, made: Ledger) -> Ledger {
    match outcome {
        Ok(_) => made,
        Err(_) => nothing(),
    }
}

/// Every turn of a compilation has one shader object alive after it, until
/// the compilation ends: then the shader keeps it, or it was released.
pub proof fn compile_turn_settles(job: CompileState, reply: ReplyView)
    ensures
        match compile_resumed(job, reply) {
            Some(following) => settles(
                |job: CompileState| true,
                |job: CompileState| one_shader(),
                |outcome: Result<ShaderView, Seq<char>>| kept_if_made(outcome, one_shader()),
                one_shader(),
                following,
            ),
            None => true,
        },
{
    match compile_resumed(job, reply) {
        Some(following) => {
            match (job, reply) {
                (CompileState::Created { kind, source }, ReplyView::Handle(id)) => {
                    left_by_three(
                        RequestView::ShaderSource { shader: id, source },
                        RequestView::CompileShader { shader: id },
                        RequestView::GetCompileStatus { shader: id },
                    );
                },
                (CompileState::Status { shader, kind }, ReplyView::Value(status)) => {
                    let request = RequestView::GetShaderLogLength { shader };
                    left_by_one(request);
                },
                (CompileState::LogLength { shader }, ReplyView::Value(len)) => {
                    let request = following.requests[0];
                    left_by_one(request);
                    assert(following.requests =~= seq![request]);
                },
                (CompileState::Log { shader }, ReplyView::Bytes(log)) => {
                    let request = RequestView::DeleteShader { shader };
                    left_by_one(request);
                },
                _ => {},
            }
        },
        None => {},
    }
}

/// Every turn of a linking has one program object alive after it, until the
/// linking ends: then the program keeps it, or it was released.
pub proof fn link_turn_settles(job: LinkState, reply: ReplyView)
    ensures
        match link_resumed(job, reply) {
            Some(following) => settles(
                |job: LinkState| true,
                |job: LinkState| one_program(),
                |outcome: Result<u32, Seq<char>>| kept_if_made(outcome, one_program()),
                one_program(),
                following,
            ),
            None => true,
        },
{
    match link_resumed(job, reply) {
        Some(following) => {
            match (job, reply) {
                (LinkState::Created { shaders }, ReplyView::Handle(program)) => {
                    let link = RequestView::LinkProgram { program };
                    let status = RequestView::GetLinkStatus { program };
                    left_by_idle(attach_all(program, shaders));
                    left_by_two(link, status);
                    left_by_parts(attach_all(program, shaders), seq![link, status]);
                },
                (LinkState::Status { program, shaders }, ReplyView::Value(status)) => {
                    let request = RequestView::GetProgramLogLength { program };
                    left_by_one(request);
                    left_by_idle(detach_all(program, shaders));
                },
                (LinkState::LogLength { program }, ReplyView::Value(len)) => {
                    let request = following.requests[0];
                    left_by_one(request);
                    assert(following.requests =~= seq![request]);
                },
                (LinkState::Log { program }, ReplyView::Bytes(log)) => {
                    let request = RequestView::DeleteProgram { program };
                    left_by_one(request);
                },
                _ => {},
            }
        },
        None => {},
    }
}

/// The objects that the making of a shader from a resource has alive while
/// it waits: none while the resource is loaded, one shader after.
pub open spec fn shader_job_holds(job: ShaderState) -> Ledger {
    match job {
        ShaderState::Reading { .. } => nothing(),
        ShaderState::Compiling { .. } => one_shader(),
    }
}

/// Whether a turn of making a shader from a resource settles the account
/// with `before` alive ahead of it.
pub open spec fn shader_turn_is_settled(
    before: Ledger,
    turn: ShaderTurn,
) -> bool {
    settles(
        |job: ShaderState| true,
        |job: ShaderState| shader_job_holds(job),
        |outcome: Result<ShaderView, ErrorView>| kept_if_made(outcome, one_shader()),
        before,
        turn,
    )
}

/// A turn of a compilation that settles the account settles it as a turn of
/// making the shader of a resource too.
pub proof fn compiling_settles(
    name: Seq<char>,
    before: Ledger,
    turn: CompileTurn,
)
    requires
        settles(
            |job: CompileState| true,
            |job: CompileState| one_shader(),
            |outcome: Result<ShaderView, Seq<char>>| kept_if_made(outcome, one_shader()),
            before,
            turn,
        ),
    ensures
        shader_turn_is_settled(before, while_compiling(name, turn)),
{
}

/// A turn of a load, which asks nothing of the driver, settles the account
/// as a turn of making the shader of a resource.
pub proof fn loading_settles(
    name: Seq<char>,
    kind: ShaderKind,
    turn: LoadTurn,
)
    requires
        left_by(turn.requests) == nothing(),
    ensures
        shader_turn_is_settled(nothing(), while_loading(name, kind, turn)),
{
    match turn.next {
        Next::Done(Ok(source)) => {
            let start = compile_start(kind, source);
            let request = RequestView::CreateShader { kind };
            left_by_one(request);
            compiling_settles(name, nothing(), start);
            left_by_parts(turn.requests, while_compiling(name, start).requests);
        },
        _ => {},
    }
}

/// The first turn of making a shader from a resource settles the account.
pub proof fn shader_start_settles(root: Seq<u8>, name: Seq<char>)
    ensures
        shader_turn_is_settled(nothing(), shader_start(root, name)),
{
    match kind_of(name) {
        Some(kind) => {
            let start = load_start(root, name);
            let read = start.requests[0];
            left_by_one(read);
            assert(start.requests =~= seq![read]);
            loading_settles(name, kind, start);
        },
        None => {},
    }
}

/// Every turn that the making of a shader from a resource takes settles the
/// account.
pub proof fn shader_turn_settles(job: ShaderState, reply: ReplyView)
    ensures
        match shader_resumed(job, reply) {
            Some(following) => shader_turn_is_settled(shader_job_holds(job), following),
            None => true,
        },
{
    match job {
        ShaderState::Reading { name, kind, job } => {
            match job.resumed(reply) {
                Some(turn) => {
                    left_by_one(RequestView::CreateShader { kind });
                    loading_settles(name, kind, turn);
                },
                None => {},
            }
        },
        ShaderState::Compiling { name, job } => {
            match compile_resumed(job, reply) {
                Some(turn) => {
                    compile_turn_settles(job, reply);
                    compiling_settles(name, one_shader(), turn);
                },
                None => {},
            }
        },
    }
}

/// The objects that the making of a program has alive while it waits: those
/// of the shader or of the linking under way, and each shader already made.
pub open spec fn program_job_holds(job: ProgramState) -> Ledger {
    match job {
        ProgramState::Vertex { job, .. } => shader_job_holds(job),
        ProgramState::Fragment { job, .. } => plus(one_shader(), shader_job_holds(job)),
        ProgramState::Linking { .. } => Ledger { shaders: 2, programs: 1 },
    }
}

/// Whether a job of making a program is in order: the turn that it keeps
/// for starting the fragment shader settles the account.
pub open spec fn program_job_in_order(job: ProgramState) -> bool {
    match job {
        ProgramState::Vertex { fragment, .. } => shader_turn_is_settled(nothing(), fragment),
        _ => true,
    }
}

/// Whether a turn of making a program settles the account with `before`
/// alive ahead of it.
pub open spec fn program_turn_is_settled(
    before: Ledger,
    turn: ProgramTurn,
) -> bool {
    settles(
        |job: ProgramState| program_job_in_order(job),
        |job: ProgramState| program_job_holds(job),
        |outcome: Result<u32, ErrorView>| kept_if_made(outcome, one_program()),
        before,
        turn,
    )
}

/// A turn of linking the two shaders of a pair settles the account of the
/// making of the program: when the linking ends, both shaders are released.
pub proof fn linking_settles(
    name: Seq<char>,
    vertex: ShaderView,
    fragment: ShaderView,
    before: Ledger,
    turn: LinkTurn,
)
    requires
        settles(
            |job: LinkState| true,
            |job: LinkState| one_program(),
            |outcome: Result<u32, Seq<char>>| kept_if_made(outcome, one_program()),
            before,
            turn,
        ),
    ensures
        program_turn_is_settled(
            plus(before, Ledger { shaders: 2, programs: 0 }),
            while_linking(name, vertex, fragment, turn),
        ),
{
    let first = RequestView::DeleteShader { shader: vertex.id };
    let second = RequestView::DeleteShader { shader: fragment.id };
    left_by_two(first, second);
    left_by_parts(turn.requests, seq![first, second]);
}

/// A turn of making the fragment shader settles the account of the making
/// of the program, which has the vertex shader alive besides.
pub proof fn fragment_settles(
    name: Seq<char>,
    vertex: ShaderView,
    before: Ledger,
    turn: ShaderTurn,
)
    requires
        shader_turn_is_settled(before, turn),
    ensures
        program_turn_is_settled(plus(before, one_shader()), while_fragment(name, vertex, turn)),
{
    match turn.next {
        Next::Await(job) => {},
        Next::Done(Err(error)) => {
            let release = RequestView::DeleteShader { shader: vertex.id };
            left_by_one(release);
            left_by_parts(turn.requests, seq![release]);
        },
        Next::Done(Ok(fragment)) => {
            let start = link_start(seq![vertex.id, fragment.id]);
            let create = RequestView::CreateProgram;
            left_by_one(create);
            linking_settles(name, vertex, fragment, nothing(), start);
            left_by_parts(turn.requests, while_linking(name, vertex, fragment, start).requests);
        },
    }
}

/// A turn of making the vertex shader settles the account of the making of
/// the program, if the turn kept for the fragment shader does.
pub proof fn vertex_settles(
    name: Seq<char>,
    before: Ledger,
    turn: ShaderTurn,
    fragment: ShaderTurn,
)
    requires
        shader_turn_is_settled(before, turn),
        shader_turn_is_settled(nothing(), fragment),
    ensures
        program_turn_is_settled(before, while_vertex(name, turn, fragment)),
{
    match turn.next {
        Next::Done(Ok(vertex)) => {
            fragment_settles(name, vertex, nothing(), fragment);
            left_by_parts(turn.requests, while_fragment(name, vertex, fragment).requests);
        },
        _ => {},
    }
}

/// Every turn that the making of a program takes, from a job in order,
/// settles the account.
pub proof fn program_turn_settles(job: ProgramState, reply: ReplyView)
    requires
        program_job_in_order(job),
    ensures
        match program_resumed(job, reply) {
            Some(following) => program_turn_is_settled(program_job_holds(job), following),
            None => true,
        },
{
    match job {
        ProgramState::Vertex { name, job, fragment } => {
            match shader_resumed(job, reply) {
                Some(turn) => {
                    shader_turn_settles(job, reply);
                    vertex_settles(name, shader_job_holds(job), turn, fragment);
                },
                None => {},
            }
        },
        ProgramState::Fragment { name, vertex, job } => {
            match shader_resumed(job, reply) {
                Some(turn) => {
                    shader_turn_settles(job, reply);
                    fragment_settles(name, vertex, shader_job_holds(job), turn);
                },
                None => {},
            }
        },
        ProgramState::Linking { name, vertex, fragment, job } => {
            match link_resumed(job, reply) {
                Some(turn) => {
                    link_turn_settles(job, reply);
                    linking_settles(name, vertex, fragment, one_program(), turn);
                },
                None => {},
            }
        },
    }
}

/// A compilation that comes to an end, whatever the host answered, leaves
/// alive the one shader object that it hands out, or none if it failed.
pub proof fn compilation_leaves_only_its_shader(
    kind: ShaderKind,
    source: Seq<u8>,
    replies: Seq<ReplyView>,
)
    ensures
        compile_dialogue(kind, source, replies).outcome matches Some(outcome) ==> left_by(
            compile_dialogue(kind, source, replies).requests,
        ) == kept_if_made(outcome, one_shader()),
{
    let resume = |job: CompileState, reply: ReplyView| compile_resumed(job, reply);
    let valid = |job: CompileState| true;
    let held = |job: CompileState| one_shader();
    let kept = |outcome: Result<ShaderView, Seq<char>>| kept_if_made(outcome, one_shader());
    let create = RequestView::CreateShader { kind };
    left_by_one(create);
    assert forall|job: CompileState, reply: ReplyView| valid(job) implies match #[trigger] resume(
        job,
        reply,
    ) {
        Some(following) => settles(valid, held, kept, held(job), following),
        None => true,
    } by {
        compile_turn_settles(job, reply);
    }
    dialogue_settles(resume, valid, held, kept, nothing(), compile_start(kind, source), replies);
}

/// A linking that comes to an end, whatever the host answered, leaves alive
/// the one program object that it hands out, or none if it failed: what was
/// created is released.
pub proof fn linking_leaves_only_its_program(shaders: Seq<u32>, replies: Seq<ReplyView>)
    ensures
        link_dialogue(shaders, replies).outcome matches Some(outcome) ==> left_by(
            link_dialogue(shaders, replies).requests,
        ) == kept_if_made(outcome, one_program()),
{
    let resume = |job: LinkState, reply: ReplyView| link_resumed(job, reply);
    let valid = |job: LinkState| true;
    let held = |job: LinkState| one_program();
    let kept = |outcome: Result<u32, Seq<char>>| kept_if_made(outcome, one_program());
    let create = RequestView::CreateProgram;
    left_by_one(create);
    assert forall|job: LinkState, reply: ReplyView| valid(job) implies match #[trigger] resume(
        job,
        reply,
    ) {
        Some(following) => settles(valid, held, kept, held(job), following),
        None => true,
    } by {
        link_turn_settles(job, reply);
    }
    dialogue_settles(resume, valid, held, kept, nothing(), link_start(shaders), replies);
}

/// The making of a shader from a resource that comes to an end, whatever
/// the host answered, leaves alive the one shader object that it hands out,
/// or none if it failed.
pub proof fn shader_leaves_only_itself(root: Seq<u8>, name: Seq<char>, replies: Seq<ReplyView>)
    ensures
        shader_dialogue(root, name, replies).outcome matches Some(outcome) ==> left_by(
            shader_dialogue(root, name, replies).requests,
        ) == kept_if_made(outcome, one_shader()),
{
    let resume = |job: ShaderState, reply: ReplyView| shader_resumed(job, reply);
    let valid = |job: ShaderState| true;
    let held = |job: ShaderState| shader_job_holds(job);
    let kept = |outcome: Result<ShaderView, ErrorView>| kept_if_made(outcome, one_shader());
    shader_start_settles(root, name);
    assert forall|job: ShaderState, reply: ReplyView| valid(job) implies match #[trigger] resume(
        job,
        reply,
    ) {
        Some(following) => settles(valid, held, kept, held(job), following),
        None => true,
    } by {
        shader_turn_settles(job, reply);
    }
    dialogue_settles(resume, valid, held, kept, nothing(), shader_start(root, name), replies);
}

/// The making of a program that comes to an end, whatever the host
/// answered, leaves alive no shader object, and no program object but the
/// one that it hands out: every object that was created on the way is
/// released.
pub proof fn program_leaves_only_itself(root: Seq<u8>, name: Seq<char>, replies: Seq<ReplyView>)
    ensures
        program_dialogue(root, name, replies).outcome matches Some(outcome) ==> left_by(
            program_dialogue(root, name, replies).requests,
        ) == kept_if_made(outcome, one_program()),
{
    let resume = |job: ProgramState, reply: ReplyView| program_resumed(job, reply);
    let valid = |job: ProgramState| program_job_in_order(job);
    let held = |job: ProgramState| program_job_holds(job);
    let kept = |outcome: Result<u32, ErrorView>| kept_if_made(outcome, one_program());
    shader_start_settles(root, name + ".vert"@);
    shader_start_settles(root, name + ".frag"@);
    vertex_settles(
        name,
        nothing(),
        shader_start(root, name + ".vert"@),
        shader_start(root, name + ".frag"@),
    );
    assert forall|job: ProgramState, reply: ReplyView| valid(job) implies match #[trigger] resume(
        job,
        reply,
    ) {
        Some(following) => settles(valid, held, kept, held(job), following),
        None => true,
    } by {
        program_turn_settles(job, reply);
    }
    dialogue_settles(resume, valid, held, kept, nothing(), program_start(root, name), replies);
}

} // verus!
