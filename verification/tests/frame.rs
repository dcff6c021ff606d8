use gl_bootstrap::driver::Next;
use gl_bootstrap::driver::Reply;
use gl_bootstrap::driver::Request;
use gl_bootstrap::frame::frame;
use gl_bootstrap::frame::Input;
use gl_bootstrap::render_gl::Program;

fn linked(handle: u32) -> Program {
    let job = match Program::from_shaders(&[]).next {
        Next::Await(job) => job,
        Next::Done(_) => panic!("ended early"),
    };
    let job = match job.resume(Reply::Handle(handle)).expect("the reply fits").next {
        Next::Await(job) => job,
        Next::Done(_) => panic!("ended early"),
    };
    match job.resume(Reply::Value(1)).expect("the reply fits").next {
        Next::Done(Ok(program)) => program,
        _ => panic!("not linked"),
    }
}

#[test]
fn frame_is_drawn_with_the_program() {
    let program = linked(42);
    assert_eq!(
        frame(&Vec::new(), &program, 5),
        Some(vec![
            Request::ClearFrame,
            Request::UseProgram { program: 42 },
            Request::BindVertexArray { array: 5 },
            Request::DrawTriangles { first: 0, count: 3 },
            Request::PresentFrame,
        ])
    );
}

#[test]
fn other_inputs_are_ignored() {
    let program = linked(1);
    let drawn = frame(&vec![Input::Other, Input::Other, Input::Other], &program, 2);
    assert_eq!(drawn.map(|requests| requests.len()), Some(5));
}

#[test]
fn quit_ends_the_loop() {
    let program = linked(1);
    assert_eq!(frame(&vec![Input::Quit], &program, 2), None);
    assert_eq!(frame(&vec![Input::Other, Input::Quit, Input::Other], &program, 2), None);
    assert_eq!(frame(&vec![Input::Other, Input::Other, Input::Quit], &program, 2), None);
}
