use gl_bootstrap::failure_to_string;
use gl_bootstrap::report::Cause;

fn cause(message: &str, backtrace: Option<&str>) -> Cause {
    Cause { message: message.to_string(), backtrace: backtrace.map(|trace| trace.to_string()) }
}

#[test]
fn empty_chain_renders_as_nothing() {
    assert_eq!(failure_to_string(&Vec::new()), "");
}

#[test]
fn single_cause_takes_one_line() {
    assert_eq!(failure_to_string(&vec![cause("I/O error", None)]), "I/O error\n");
}

#[test]
fn causes_come_in_the_order_of_the_chain() {
    let chain = vec![
        cause("Failed to load resource shaders/triangle.vert", None),
        cause("I/O error", None),
        cause("No such file or directory (os error 2)", None),
    ];
    assert_eq!(
        failure_to_string(&chain),
        "Failed to load resource shaders/triangle.vert\n   Which cause the following issue:\n\
         I/O error\n   Which cause the following issue:\n\
         No such file or directory (os error 2)\n"
    );
}

#[test]
fn backtrace_follows_its_cause() {
    let chain = vec![cause("outer", Some("frame 0\nframe 1")), cause("inner", None)];
    assert_eq!(
        failure_to_string(&chain),
        "outer This happened at frame 0\nframe 1\n   Which cause the following issue:\ninner\n"
    );
}

#[test]
fn empty_backtrace_is_left_out() {
    let chain = vec![cause("outer", Some("")), cause("inner", Some(""))];
    assert_eq!(failure_to_string(&chain), "outer\n   Which cause the following issue:\ninner\n");
}

#[test]
fn text_is_not_the_text_of_another_chain() {
    let one = vec![cause("outer", None), cause("inner", None)];
    let other = vec![cause("inner", None), cause("outer", None)];
    assert_ne!(failure_to_string(&one), failure_to_string(&other));
    assert_ne!(failure_to_string(&one), "\n");
    assert!(failure_to_string(&one).starts_with("outer\n"));
    assert!(failure_to_string(&one).ends_with("inner\n"));
}
