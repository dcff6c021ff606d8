use gl_bootstrap::driver::Next;
use gl_bootstrap::driver::Reply;
use gl_bootstrap::driver::Request;
use gl_bootstrap::driver::ShaderKind;
use gl_bootstrap::driver::Step;
use gl_bootstrap::render_gl::create_whitespace_cstring_with_len;
use gl_bootstrap::render_gl::cut_at_terminator;
use gl_bootstrap::render_gl::has_suffix;
use gl_bootstrap::render_gl::shader_kind;
use gl_bootstrap::render_gl::CompileJob;
use gl_bootstrap::render_gl::Error;
use gl_bootstrap::render_gl::LinkJob;
use gl_bootstrap::render_gl::Program;
use gl_bootstrap::render_gl::ProgramJob;
use gl_bootstrap::render_gl::Shader;
use gl_bootstrap::render_gl::ShaderJob;
use gl_bootstrap::resources;
use gl_bootstrap::resources::NulTerminated;
use gl_bootstrap::resources::Resources;
use std::io;
use std::path::PathBuf;

const VERTEX_TEXT: &[u8] = b"#version 330 core\nvoid main() { gl_Position = vec4(0.0); }\n";
const FRAGMENT_TEXT: &[u8] = b"#version 330 core\nout vec4 c;\nvoid main() { c = vec4(1.0); }\n";

/// A host that plays the file system and the driver from a script, and
/// keeps every request that it carried out.
struct Host {
    files: Vec<(PathBuf, Vec<u8>)>,
    refused: Vec<ShaderKind>,
    refuses_link: bool,
    log: Vec<u8>,
    next_handle: u32,
    kinds: Vec<(u32, ShaderKind)>,
    seen: Vec<Request>,
}

impl Host {
    fn new() -> Host {
        Host {
            files: vec![
                (PathBuf::from("/opt/app/assets/shaders/triangle.vert"), VERTEX_TEXT.to_vec()),
                (PathBuf::from("/opt/app/assets/shaders/triangle.frag"), FRAGMENT_TEXT.to_vec()),
            ],
            refused: Vec::new(),
            refuses_link: false,
            log: b"0:1: syntax error\0".to_vec(),
            next_handle: 7,
            kinds: Vec::new(),
            seen: Vec::new(),
        }
    }

    fn handle(&mut self) -> u32 {
        let handle = self.next_handle;
        self.next_handle += 1;
        handle
    }

    fn filled(&self, buffer: &Vec<u8>) -> Vec<u8> {
        let mut filled = buffer.clone();
        let written = filled.len().min(self.log.len());
        filled[..written].copy_from_slice(&self.log[..written]);
        filled
    }

    fn perform(&mut self, request: Request) -> Reply {
        let reply = match &request {
            Request::ReadFile { path } => Reply::File(
                match self.files.iter().find(|(known, _)| known == path) {
                    Some((_, contents)) => Ok(contents.clone()),
                    None => Err(io::Error::new(io::ErrorKind::NotFound, "no such file")),
                },
            ),
            Request::CreateShader { kind } => {
                let handle = self.handle();
                self.kinds.push((handle, *kind));
                Reply::Handle(handle)
            },
            Request::CreateProgram => Reply::Handle(self.handle()),
            Request::GetCompileStatus { shader } => {
                let kind = self.kinds.iter().find(|(known, _)| known == shader).map(|(_, k)| *k);
                let refused = kind.map_or(true, |kind| self.refused.contains(&kind));
                Reply::Value(if refused { 0 } else { 1 })
            },
            Request::GetLinkStatus { .. } => Reply::Value(if self.refuses_link { 0 } else { 1 }),
            Request::GetShaderLogLength { .. } | Request::GetProgramLogLength { .. } => {
                Reply::Value(self.log.len() as i32)
            },
            Request::GetShaderInfoLog { buffer, .. } => Reply::Bytes(self.filled(buffer)),
            Request::GetProgramInfoLog { buffer, .. } => Reply::Bytes(self.filled(buffer)),
            _ => Reply::Nothing,
        };
        self.seen.push(request);
        reply
    }

    fn count(&self, wanted: fn(&Request) -> bool) -> usize {
        self.seen.iter().filter(|request| wanted(request)).count()
    }
}

fn drive<J, T>(
    first: Step<J, T>,
    resume: fn(J, Reply) -> Option<Step<J, T>>,
    host: &mut Host,
) -> T {
    let mut step = first;
    loop {
        let mut last = Reply::Nothing;
        for request in step.requests {
            last = host.perform(request);
        }
        match step.next {
            Next::Done(outcome) => return outcome,
            Next::Await(job) => {
                step = match resume(job, last) {
                    Some(step) => step,
                    None => panic!("the job did not take the reply"),
                }
            },
        }
    }
}

fn resources() -> Resources {
    let exe = PathBuf::from("/opt/app/game");
    match Resources::from_relative_exe_path(Ok(exe), &PathBuf::from("assets")) {
        Ok(resources) => resources,
        Err(error) => panic!("no resources: {:?}", error),
    }
}

fn terminated(text: &[u8]) -> NulTerminated {
    match NulTerminated::new(text.to_vec()) {
        Ok(text) => text,
        Err(error) => panic!("refused: {:?}", error),
    }
}

fn with_terminator(text: &[u8]) -> Vec<u8> {
    let mut bytes = text.to_vec();
    bytes.push(0);
    bytes
}

fn is_create_shader(request: &Request) -> bool {
    matches!(request, Request::CreateShader { .. })
}

fn is_delete_shader(request: &Request) -> bool {
    matches!(request, Request::DeleteShader { .. })
}

fn is_create_program(request: &Request) -> bool {
    matches!(request, Request::CreateProgram)
}

fn is_delete_program(request: &Request) -> bool {
    matches!(request, Request::DeleteProgram { .. })
}

fn is_driver_call(request: &Request) -> bool {
    !matches!(request, Request::ReadFile { .. })
}

fn compiled(host: &mut Host, text: &[u8], kind: ShaderKind) -> Shader {
    match drive(Shader::from_source(&terminated(text), kind), CompileJob::resume, host) {
        Ok(shader) => shader,
        Err(message) => panic!("refused: {}", message),
    }
}

#[test]
fn suffix_is_found_at_the_end_only() {
    assert!(has_suffix("triangle.vert", ".vert"));
    assert!(has_suffix(".vert", ".vert"));
    assert!(has_suffix("anything", ""));
    assert!(has_suffix("", ""));
    assert!(!has_suffix("vert", ".vert"));
    assert!(!has_suffix("triangle.vert ", ".vert"));
    assert!(!has_suffix("triangle.vert.txt", ".vert"));
    assert!(!has_suffix("", ".vert"));
    assert!(!has_suffix("triangle.VERT", ".vert"));
}

#[test]
fn suffix_agrees_with_std() {
    for text in ["", "a", ".frag", "x.frag", "x.fra", "frag.", "größe.frag", "x.frag.vert"] {
        for suffix in ["", ".frag", ".vert", "g", "ö", "größe.frag"] {
            assert_eq!(has_suffix(text, suffix), text.ends_with(suffix));
        }
    }
}

#[test]
fn kind_follows_the_suffix() {
    assert_eq!(shader_kind("shaders/triangle.vert"), Some(ShaderKind::Vertex));
    assert_eq!(shader_kind("shaders/triangle.frag"), Some(ShaderKind::Fragment));
    assert_eq!(shader_kind(".vert"), Some(ShaderKind::Vertex));
    assert_eq!(shader_kind("a.vert.frag"), Some(ShaderKind::Fragment));
    assert_eq!(shader_kind("a.frag.vert"), Some(ShaderKind::Vertex));
}

#[test]
fn kind_of_other_names_is_unknown() {
    assert_eq!(shader_kind("shaders/triangle"), None);
    assert_eq!(shader_kind("shaders/triangle.glsl"), None);
    assert_eq!(shader_kind("triangle.vert.bak"), None);
    assert_eq!(shader_kind("vert"), None);
    assert_eq!(shader_kind(""), None);
}

#[test]
fn whitespace_buffer_has_the_length_asked_for() {
    assert_eq!(create_whitespace_cstring_with_len(0), Vec::<u8>::new());
    assert_eq!(create_whitespace_cstring_with_len(1), b" ".to_vec());
    assert_eq!(create_whitespace_cstring_with_len(5), b"     ".to_vec());
    assert_eq!(create_whitespace_cstring_with_len(300), vec![b' '; 300]);
}

#[test]
fn compile_asks_for_a_shader_of_the_kind() {
    let step = Shader::from_source(&terminated(VERTEX_TEXT), ShaderKind::Vertex);
    assert_eq!(step.requests, vec![Request::CreateShader { kind: ShaderKind::Vertex }]);
    assert!(matches!(step.next, Next::Await(_)));
    let step = Shader::from_vert_source(&terminated(VERTEX_TEXT));
    assert_eq!(step.requests, vec![Request::CreateShader { kind: ShaderKind::Vertex }]);
    let step = Shader::from_frag_source(&terminated(FRAGMENT_TEXT));
    assert_eq!(step.requests, vec![Request::CreateShader { kind: ShaderKind::Fragment }]);
}

#[test]
fn compiled_source_becomes_a_shader() {
    let mut host = Host::new();
    let outcome = drive(
        Shader::from_frag_source(&terminated(FRAGMENT_TEXT)),
        CompileJob::resume,
        &mut host,
    );
    match outcome {
        Ok(shader) => {
            assert_eq!(shader.id(), 7);
            assert_eq!(shader.kind(), ShaderKind::Fragment);
        },
        Err(message) => panic!("refused: {}", message),
    }
    assert_eq!(
        host.seen,
        vec![
            Request::CreateShader { kind: ShaderKind::Fragment },
            Request::ShaderSource { shader: 7, source: with_terminator(FRAGMENT_TEXT) },
            Request::CompileShader { shader: 7 },
            Request::GetCompileStatus { shader: 7 },
        ]
    );
}

#[test]
fn any_status_but_zero_is_success() {
    for status in [1, -1, 2, i32::MAX, i32::MIN] {
        let first = Shader::from_vert_source(&terminated(VERTEX_TEXT));
        let job = match first.next {
            Next::Await(job) => job,
            Next::Done(_) => panic!("ended early"),
        };
        let second = job.resume(Reply::Handle(3)).expect("the reply fits");
        let job = match second.next {
            Next::Await(job) => job,
            Next::Done(_) => panic!("ended early"),
        };
        let third = job.resume(Reply::Value(status)).expect("the reply fits");
        assert!(third.requests.is_empty());
        match third.next {
            Next::Done(Ok(shader)) => assert_eq!(shader.id(), 3),
            _ => panic!("status {} was not taken as success", status),
        }
    }
}

#[test]
fn refused_source_releases_the_shader() {
    let mut host = Host::new();
    host.refused.push(ShaderKind::Vertex);
    let outcome = drive(
        Shader::from_vert_source(&terminated(b"void main( {")),
        CompileJob::resume,
        &mut host,
    );
    match outcome {
        Ok(_) => panic!("compiled"),
        Err(message) => assert_eq!(message, "0:1: syntax error"),
    }
    assert_eq!(
        host.seen,
        vec![
            Request::CreateShader { kind: ShaderKind::Vertex },
            Request::ShaderSource { shader: 7, source: b"void main( {\0".to_vec() },
            Request::CompileShader { shader: 7 },
            Request::GetCompileStatus { shader: 7 },
            Request::GetShaderLogLength { shader: 7 },
            Request::GetShaderInfoLog { shader: 7, buffer: vec![b' '; 18] },
            Request::DeleteShader { shader: 7 },
        ]
    );
}

#[test]
fn log_that_is_not_text_is_decoded_with_replacements() {
    let mut host = Host::new();
    host.refused.push(ShaderKind::Vertex);
    host.log = vec![b'a', 0xff, b'b'];
    let outcome =
        drive(Shader::from_vert_source(&terminated(b"x")), CompileJob::resume, &mut host);
    match outcome {
        Ok(_) => panic!("compiled"),
        Err(message) => assert_eq!(message, "a\u{fffd}b"),
    }
}

#[test]
fn log_of_no_length_gets_an_empty_buffer() {
    for len in [0, -1, i32::MIN] {
        let job = match Shader::from_vert_source(&terminated(b"x")).next {
            Next::Await(job) => job,
            Next::Done(_) => panic!("ended early"),
        };
        let job = match job.resume(Reply::Handle(4)).expect("the reply fits").next {
            Next::Await(job) => job,
            Next::Done(_) => panic!("ended early"),
        };
        let job = match job.resume(Reply::Value(0)).expect("the reply fits").next {
            Next::Await(job) => job,
            Next::Done(_) => panic!("ended early"),
        };
        let step = job.resume(Reply::Value(len)).expect("the reply fits");
        assert_eq!(
            step.requests,
            vec![Request::GetShaderInfoLog { shader: 4, buffer: Vec::new() }]
        );
        let job = match step.next {
            Next::Await(job) => job,
            Next::Done(_) => panic!("ended early"),
        };
        let step = job.resume(Reply::Bytes(Vec::new())).expect("the reply fits");
        assert_eq!(step.requests, vec![Request::DeleteShader { shader: 4 }]);
        match step.next {
            Next::Done(Err(message)) => assert_eq!(message, ""),
            _ => panic!("not refused"),
        }
    }
}

#[test]
fn compile_takes_no_reply_of_another_kind() {
    let job = match Shader::from_vert_source(&terminated(b"x")).next {
        Next::Await(job) => job,
        Next::Done(_) => panic!("ended early"),
    };
    assert!(job.resume(Reply::Value(1)).is_none());
    let job = match Shader::from_vert_source(&terminated(b"x")).next {
        Next::Await(job) => job,
        Next::Done(_) => panic!("ended early"),
    };
    assert!(job.resume(Reply::Nothing).is_none());
    let job = match Shader::from_vert_source(&terminated(b"x")).next {
        Next::Await(job) => job,
        Next::Done(_) => panic!("ended early"),
    };
    let job = match job.resume(Reply::Handle(1)).expect("the reply fits").next {
        Next::Await(job) => job,
        Next::Done(_) => panic!("ended early"),
    };
    assert!(job.resume(Reply::Handle(2)).is_none());
}

#[test]
fn shader_gives_itself_up_by_a_delete() {
    let mut host = Host::new();
    let shader = compiled(&mut host, VERTEX_TEXT, ShaderKind::Vertex);
    assert_eq!(shader.delete(), Request::DeleteShader { shader: 7 });
}

#[test]
fn linked_shaders_become_a_program() {
    let mut host = Host::new();
    let shaders = vec![
        compiled(&mut host, VERTEX_TEXT, ShaderKind::Vertex),
        compiled(&mut host, FRAGMENT_TEXT, ShaderKind::Fragment),
    ];
    host.seen.clear();
    let outcome = drive(Program::from_shaders(&shaders), LinkJob::resume, &mut host);
    let program = match outcome {
        Ok(program) => program,
        Err(message) => panic!("refused: {}", message),
    };
    assert_eq!(program.id(), 9);
    assert_eq!(
        host.seen,
        vec![
            Request::CreateProgram,
            Request::AttachShader { program: 9, shader: 7 },
            Request::AttachShader { program: 9, shader: 8 },
            Request::LinkProgram { program: 9 },
            Request::GetLinkStatus { program: 9 },
            Request::DetachShader { program: 9, shader: 7 },
            Request::DetachShader { program: 9, shader: 8 },
        ]
    );
    assert_eq!(program.set_used(), Request::UseProgram { program: 9 });
    assert_eq!(program.delete(), Request::DeleteProgram { program: 9 });
}

#[test]
fn refused_link_releases_the_program() {
    let mut host = Host::new();
    let shaders = vec![
        compiled(&mut host, VERTEX_TEXT, ShaderKind::Vertex),
        compiled(&mut host, FRAGMENT_TEXT, ShaderKind::Fragment),
    ];
    host.seen.clear();
    host.refuses_link = true;
    host.log = b"interface mismatch\0".to_vec();
    let outcome = drive(Program::from_shaders(&shaders), LinkJob::resume, &mut host);
    match outcome {
        Ok(_) => panic!("linked"),
        Err(message) => assert_eq!(message, "interface mismatch"),
    }
    assert_eq!(
        host.seen,
        vec![
            Request::CreateProgram,
            Request::AttachShader { program: 9, shader: 7 },
            Request::AttachShader { program: 9, shader: 8 },
            Request::LinkProgram { program: 9 },
            Request::GetLinkStatus { program: 9 },
            Request::GetProgramLogLength { program: 9 },
            Request::GetProgramInfoLog { program: 9, buffer: vec![b' '; 19] },
            Request::DeleteProgram { program: 9 },
        ]
    );
    assert_eq!(host.count(is_create_program), 1);
    assert_eq!(host.count(is_delete_program), 1);
    assert_eq!(host.count(is_delete_shader), 0);
}

#[test]
fn link_of_no_shaders_attaches_nothing() {
    let mut host = Host::new();
    let outcome = drive(Program::from_shaders(&[]), LinkJob::resume, &mut host);
    assert!(outcome.is_ok());
    assert_eq!(
        host.seen,
        vec![
            Request::CreateProgram,
            Request::LinkProgram { program: 7 },
            Request::GetLinkStatus { program: 7 },
        ]
    );
}

#[test]
fn link_attaches_in_the_order_given() {
    let mut host = Host::new();
    let shaders = vec![
        compiled(&mut host, FRAGMENT_TEXT, ShaderKind::Fragment),
        compiled(&mut host, VERTEX_TEXT, ShaderKind::Vertex),
        compiled(&mut host, VERTEX_TEXT, ShaderKind::Vertex),
    ];
    let job = match Program::from_shaders(&shaders).next {
        Next::Await(job) => job,
        Next::Done(_) => panic!("ended early"),
    };
    let step = job.resume(Reply::Handle(20)).expect("the reply fits");
    assert_eq!(
        step.requests,
        vec![
            Request::AttachShader { program: 20, shader: 7 },
            Request::AttachShader { program: 20, shader: 8 },
            Request::AttachShader { program: 20, shader: 9 },
            Request::LinkProgram { program: 20 },
            Request::GetLinkStatus { program: 20 },
        ]
    );
}

#[test]
fn link_takes_no_reply_of_another_kind() {
    let job = match Program::from_shaders(&[]).next {
        Next::Await(job) => job,
        Next::Done(_) => panic!("ended early"),
    };
    assert!(job.resume(Reply::Bytes(Vec::new())).is_none());
    let job = match Program::from_shaders(&[]).next {
        Next::Await(job) => job,
        Next::Done(_) => panic!("ended early"),
    };
    let failed = io::Error::new(io::ErrorKind::Other, "no");
    assert!(job.resume(Reply::File(Err(failed))).is_none());
}

#[test]
fn shader_from_resource_reads_then_compiles() {
    let mut host = Host::new();
    let outcome = drive(
        Shader::from_resource(&resources(), "shaders/triangle.frag"),
        ShaderJob::resume,
        &mut host,
    );
    match outcome {
        Ok(shader) => {
            assert_eq!(shader.id(), 7);
            assert_eq!(shader.kind(), ShaderKind::Fragment);
        },
        Err(error) => panic!("failed: {:?}", error),
    }
    assert_eq!(
        host.seen,
        vec![
            Request::ReadFile { path: PathBuf::from("/opt/app/assets/shaders/triangle.frag") },
            Request::CreateShader { kind: ShaderKind::Fragment },
            Request::ShaderSource { shader: 7, source: with_terminator(FRAGMENT_TEXT) },
            Request::CompileShader { shader: 7 },
            Request::GetCompileStatus { shader: 7 },
        ]
    );
}

#[test]
fn unknown_suffix_asks_nothing() {
    let step = Shader::from_resource(&resources(), "shaders/triangle.glsl");
    assert!(step.requests.is_empty());
    match step.next {
        Next::Done(Err(Error::CannotDetermineShaderTypeForResource { name })) => {
            assert_eq!(name, "shaders/triangle.glsl")
        },
        _ => panic!("the name was not refused"),
    }
}

#[test]
fn unknown_suffix_reaches_no_host() {
    let mut host = Host::new();
    let outcome =
        drive(Shader::from_resource(&resources(), "shaders/triangle"), ShaderJob::resume, &mut host);
    assert!(matches!(outcome, Err(Error::CannotDetermineShaderTypeForResource { .. })));
    assert!(host.seen.is_empty());
}

#[test]
fn refused_resource_names_itself() {
    let mut host = Host::new();
    host.refused.push(ShaderKind::Vertex);
    let outcome = drive(
        Shader::from_resource(&resources(), "shaders/triangle.vert"),
        ShaderJob::resume,
        &mut host,
    );
    match outcome {
        Err(Error::CompileError { name, message }) => {
            assert_eq!(name, "shaders/triangle.vert");
            assert_eq!(message, "0:1: syntax error");
            assert!(!message.is_empty());
        },
        other => panic!("not a compile error: {:?}", other),
    }
    assert_eq!(host.count(is_create_shader), 1);
    assert_eq!(host.count(is_delete_shader), 1);
    assert_eq!(host.seen.last(), Some(&Request::DeleteShader { shader: 7 }));
}

#[test]
fn resource_with_embedded_terminator_reaches_no_driver() {
    let mut host = Host::new();
    host.files.push((PathBuf::from("/opt/app/assets/bad.vert"), b"void\0main".to_vec()));
    let outcome =
        drive(Shader::from_resource(&resources(), "bad.vert"), ShaderJob::resume, &mut host);
    match outcome {
        Err(Error::ResourceLoad { name, inner }) => {
            assert_eq!(name, "bad.vert");
            assert!(matches!(inner, resources::Error::FileContainsNil));
        },
        other => panic!("not a load error: {:?}", other),
    }
    assert_eq!(host.seen, vec![Request::ReadFile { path: PathBuf::from("/opt/app/assets/bad.vert") }]);
    assert_eq!(host.count(is_driver_call), 0);
}

#[test]
fn resource_that_cannot_be_read_reaches_no_driver() {
    let mut host = Host::new();
    let outcome =
        drive(Shader::from_resource(&resources(), "missing.frag"), ShaderJob::resume, &mut host);
    match outcome {
        Err(Error::ResourceLoad { name, inner }) => {
            assert_eq!(name, "missing.frag");
            match inner {
                resources::Error::Io(inner) => assert_eq!(inner.kind(), io::ErrorKind::NotFound),
                other => panic!("not an I/O error: {:?}", other),
            }
        },
        other => panic!("not a load error: {:?}", other),
    }
    assert_eq!(host.count(is_driver_call), 0);
}

#[test]
fn pair_becomes_a_program() {
    let mut host = Host::new();
    let outcome = drive(
        Program::from_resource(&resources(), "shaders/triangle"),
        ProgramJob::resume,
        &mut host,
    );
    let program = match outcome {
        Ok(program) => program,
        Err(error) => panic!("failed: {:?}", error),
    };
    assert_eq!(program.id(), 9);
    assert_eq!(
        host.seen,
        vec![
            Request::ReadFile { path: PathBuf::from("/opt/app/assets/shaders/triangle.vert") },
            Request::CreateShader { kind: ShaderKind::Vertex },
            Request::ShaderSource { shader: 7, source: with_terminator(VERTEX_TEXT) },
            Request::CompileShader { shader: 7 },
            Request::GetCompileStatus { shader: 7 },
            Request::ReadFile { path: PathBuf::from("/opt/app/assets/shaders/triangle.frag") },
            Request::CreateShader { kind: ShaderKind::Fragment },
            Request::ShaderSource { shader: 8, source: with_terminator(FRAGMENT_TEXT) },
            Request::CompileShader { shader: 8 },
            Request::GetCompileStatus { shader: 8 },
            Request::CreateProgram,
            Request::AttachShader { program: 9, shader: 7 },
            Request::AttachShader { program: 9, shader: 8 },
            Request::LinkProgram { program: 9 },
            Request::GetLinkStatus { program: 9 },
            Request::DetachShader { program: 9, shader: 7 },
            Request::DetachShader { program: 9, shader: 8 },
            Request::DeleteShader { shader: 7 },
            Request::DeleteShader { shader: 8 },
        ]
    );
    assert!(matches!(host.perform(program.set_used()), Reply::Nothing));
    assert_eq!(host.seen.last(), Some(&Request::UseProgram { program: 9 }));
}

#[test]
fn refused_pair_leaves_nothing_behind() {
    let mut host = Host::new();
    host.refuses_link = true;
    host.log = b"error: varying not written\0".to_vec();
    let outcome = drive(
        Program::from_resource(&resources(), "shaders/triangle"),
        ProgramJob::resume,
        &mut host,
    );
    match outcome {
        Err(Error::LinkError { name, message }) => {
            assert_eq!(name, "shaders/triangle");
            assert_eq!(message, "error: varying not written");
        },
        other => panic!("not a link error: {:?}", other),
    }
    assert_eq!(host.count(is_create_program), 1);
    assert_eq!(host.count(is_delete_program), 1);
    assert_eq!(host.count(is_create_shader), 2);
    assert_eq!(host.count(is_delete_shader), 2);
    let tail: Vec<&Request> = host.seen.iter().rev().take(3).rev().collect();
    assert_eq!(
        tail,
        vec![
            &Request::DeleteProgram { program: 9 },
            &Request::DeleteShader { shader: 7 },
            &Request::DeleteShader { shader: 8 },
        ]
    );
}

#[test]
fn refused_vertex_shader_stops_the_pair() {
    let mut host = Host::new();
    host.refused.push(ShaderKind::Vertex);
    let outcome = drive(
        Program::from_resource(&resources(), "shaders/triangle"),
        ProgramJob::resume,
        &mut host,
    );
    match outcome {
        Err(Error::CompileError { name, .. }) => assert_eq!(name, "shaders/triangle.vert"),
        other => panic!("not a compile error: {:?}", other),
    }
    assert_eq!(host.count(is_create_shader), 1);
    assert_eq!(host.count(is_delete_shader), 1);
    assert_eq!(host.count(is_create_program), 0);
    assert!(!host.seen.contains(
        &Request::ReadFile { path: PathBuf::from("/opt/app/assets/shaders/triangle.frag") }
    ));
}

#[test]
fn refused_fragment_shader_releases_the_vertex_shader() {
    let mut host = Host::new();
    host.refused.push(ShaderKind::Fragment);
    let outcome = drive(
        Program::from_resource(&resources(), "shaders/triangle"),
        ProgramJob::resume,
        &mut host,
    );
    match outcome {
        Err(Error::CompileError { name, .. }) => assert_eq!(name, "shaders/triangle.frag"),
        other => panic!("not a compile error: {:?}", other),
    }
    assert_eq!(host.count(is_create_shader), 2);
    assert_eq!(host.count(is_delete_shader), 2);
    assert_eq!(host.count(is_create_program), 0);
    let tail: Vec<&Request> = host.seen.iter().rev().take(2).rev().collect();
    assert_eq!(
        tail,
        vec![&Request::DeleteShader { shader: 8 }, &Request::DeleteShader { shader: 7 }]
    );
}

#[test]
fn missing_fragment_file_releases_the_vertex_shader() {
    let mut host = Host::new();
    host.files.pop();
    let outcome = drive(
        Program::from_resource(&resources(), "shaders/triangle"),
        ProgramJob::resume,
        &mut host,
    );
    match outcome {
        Err(Error::ResourceLoad { name, .. }) => assert_eq!(name, "shaders/triangle.frag"),
        other => panic!("not a load error: {:?}", other),
    }
    assert_eq!(host.count(is_create_shader), 1);
    assert_eq!(host.count(is_delete_shader), 1);
    assert_eq!(host.seen.last(), Some(&Request::DeleteShader { shader: 7 }));
}

#[test]
fn missing_vertex_file_asks_for_nothing_more() {
    let mut host = Host::new();
    host.files.clear();
    let outcome = drive(
        Program::from_resource(&resources(), "shaders/triangle"),
        ProgramJob::resume,
        &mut host,
    );
    match outcome {
        Err(Error::ResourceLoad { name, .. }) => assert_eq!(name, "shaders/triangle.vert"),
        other => panic!("not a load error: {:?}", other),
    }
    assert_eq!(
        host.seen,
        vec![Request::ReadFile { path: PathBuf::from("/opt/app/assets/shaders/triangle.vert") }]
    );
}

#[test]
fn program_takes_no_reply_of_another_kind() {
    let job = match Program::from_resource(&resources(), "shaders/triangle").next {
        Next::Await(job) => job,
        Next::Done(_) => panic!("ended early"),
    };
    assert!(job.resume(Reply::Handle(1)).is_none());
}

#[test]
fn text_of_a_buffer_ends_at_the_first_zero() {
    assert_eq!(cut_at_terminator(&b"error\0".to_vec()), b"error".to_vec());
    assert_eq!(cut_at_terminator(&b"error\0   ".to_vec()), b"error".to_vec());
    assert_eq!(cut_at_terminator(&b"a\0b\0c".to_vec()), b"a".to_vec());
    assert_eq!(cut_at_terminator(&b"\0error".to_vec()), Vec::<u8>::new());
}

#[test]
fn text_of_a_buffer_without_zero_is_the_buffer() {
    assert_eq!(cut_at_terminator(&b"error".to_vec()), b"error".to_vec());
    assert_eq!(cut_at_terminator(&Vec::new()), Vec::<u8>::new());
}

#[test]
fn message_holds_no_placeholder_and_no_terminator() {
    let mut host = Host::new();
    host.refused.push(ShaderKind::Fragment);
    host.log = b"0:3: undeclared identifier\0".to_vec();
    let outcome = drive(
        Shader::from_resource(&resources(), "shaders/triangle.frag"),
        ShaderJob::resume,
        &mut host,
    );
    match outcome {
        Err(Error::CompileError { name, message }) => {
            assert_eq!(name, "shaders/triangle.frag");
            assert_eq!(message, "0:3: undeclared identifier");
            assert!(!message.is_empty());
            assert!(!message.contains('\0'));
            assert!(!message.ends_with(' '));
        },
        other => panic!("not a compile error: {:?}", other),
    }
}

#[test]
fn message_leaves_out_what_follows_the_terminator() {
    let job = match Shader::from_vert_source(&terminated(b"x")).next {
        Next::Await(job) => job,
        Next::Done(_) => panic!("ended early"),
    };
    let job = match job.resume(Reply::Handle(4)).expect("the reply fits").next {
        Next::Await(job) => job,
        Next::Done(_) => panic!("ended early"),
    };
    let job = match job.resume(Reply::Value(0)).expect("the reply fits").next {
        Next::Await(job) => job,
        Next::Done(_) => panic!("ended early"),
    };
    let job = match job.resume(Reply::Value(12)).expect("the reply fits").next {
        Next::Await(job) => job,
        Next::Done(_) => panic!("ended early"),
    };
    let step = job.resume(Reply::Bytes(b"bad\0        ".to_vec())).expect("the reply fits");
    match step.next {
        Next::Done(Err(message)) => assert_eq!(message, "bad"),
        _ => panic!("not refused"),
    }
}

#[test]
fn link_message_ends_at_the_terminator() {
    let job = match Program::from_shaders(&[]).next {
        Next::Await(job) => job,
        Next::Done(_) => panic!("ended early"),
    };
    let job = match job.resume(Reply::Handle(3)).expect("the reply fits").next {
        Next::Await(job) => job,
        Next::Done(_) => panic!("ended early"),
    };
    let job = match job.resume(Reply::Value(0)).expect("the reply fits").next {
        Next::Await(job) => job,
        Next::Done(_) => panic!("ended early"),
    };
    let step = job.resume(Reply::Value(2)).expect("the reply fits");
    assert_eq!(
        step.requests,
        vec![Request::GetProgramInfoLog { program: 3, buffer: vec![b' '; 2] }]
    );
    let job = match step.next {
        Next::Await(job) => job,
        Next::Done(_) => panic!("ended early"),
    };
    let step = job.resume(Reply::Bytes(b"e\0".to_vec())).expect("the reply fits");
    assert_eq!(step.requests, vec![Request::DeleteProgram { program: 3 }]);
    match step.next {
        Next::Done(Err(message)) => assert_eq!(message, "e"),
        _ => panic!("not refused"),
    }
}
