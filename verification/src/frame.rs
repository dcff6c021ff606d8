//! One round of the render loop: whether to go on, and what to draw.

use crate::driver::ask;
use crate::driver::Request;
use crate::driver::RequestView;
use crate::render_gl::Program;
use vstd::prelude::*;

verus! {

/// What the window reports of one input event: that the user asked to quit,
/// or anything else.
#[derive(Clone, Copy, Debug, PartialEq, Eq, Structural)]
pub enum Input {
    Quit,
    Other,
}

/// The requests that draw one frame with `program` from the vertex array
/// `vertex_array`: the frame is cleared, the program is made current, the
/// array is bound, its three vertices are drawn as one triangle, and the
/// frame is shown.
pub open spec fn frame_requests(program: u32, vertex_array: u32) -> Seq<RequestView> {
    seq![
        RequestView::ClearFrame,
        RequestView::UseProgram { program },
        RequestView::BindVertexArray { array: vertex_array },
        RequestView::DrawTriangles { first: 0, count: 3 },
        RequestView::PresentFrame,
    ]
}

/// The draw call of a frame runs the code of the frame's program: the
/// program is made current before the triangle is drawn, and no other
/// program is made current in between.
pub proof fn frame_draws_with_its_program(program: u32, vertex_array: u32)
    ensures
        frame_requests(program, vertex_array)[1] == (RequestView::UseProgram { program }),
        frame_requests(program, vertex_array)[3] == (RequestView::DrawTriangles {
            first: 0,
            count: 3,
        }),
        forall|i: int, other: u32|
            0 <= i < frame_requests(program, vertex_array).len() && frame_requests(
                program,
                vertex_array,
            )[i] == (RequestView::UseProgram { program: other }) ==> other == program,
{
}

/// Decides one round of the render loop from the inputs that were polled
/// since the last: the loop ends, with nothing drawn, if the user asked to
/// quit; every other input is ignored, and the frame is drawn.
pub fn frame(inputs: &Vec<Input>, program: &Program, vertex_array: u32) -> (requests: Option<
    Vec<Request>,
>)
    ensures
        match requests {
            None => inputs@.contains(Input::Quit),
            Some(requests) => !inputs@.contains(Input::Quit) && requests.deep_view()
                == frame_requests(program@, vertex_array),
        },
{
    let mut at: usize = 0;
    while at < inputs.len()
        invariant
            at <= inputs@.len(),
            forall|i: int| 0 <= i < at ==> inputs@[i] != Input::Quit,
        decreases inputs@.len() - at,
    {
        if inputs[at] == Input::Quit {
            return None;
        }
        at = at + 1;
    }
    let mut requests: Vec<Request> = Vec::new();
    ask(&mut requests, Request::ClearFrame);
    ask(&mut requests, program.set_used());
    ask(&mut requests, Request::BindVertexArray { array: vertex_array });
    ask(&mut requests, Request::DrawTriangles { first: 0, count: 3 });
    ask(&mut requests, Request::PresentFrame);
    assert(requests.deep_view() =~= frame_requests(program@, vertex_array));
    Some(requests)
}

} // verus!
