//! Rendering a failure and the causes behind it as text for the user.

use vstd::prelude::*;
use vstd::string::StringExecFns;

verus! {

/// One link of a chain of causes: what the failure says of itself, and the
/// backtrace that it carries, if any, as text.
#[derive(Debug)]
pub struct Cause {
    pub message: String,
    pub backtrace: Option<String>,
}

/// A cause as a mathematical value.
pub struct CauseView {
    pub message: Seq<char>,
    pub backtrace: Option<Seq<char>>,
}

impl View for Cause {
    type V = CauseView;

    open spec fn view(&self) -> CauseView {
        CauseView {
            message: self.message@,
            backtrace: match self.backtrace {
                Some(trace) => Some(trace@),
                None => None,
            },
        }
    }
}

impl DeepView for Cause {
    type V = CauseView;

    open spec fn deep_view(&self) -> CauseView {
        self@
    }
}

/// The line, or lines, that one cause takes: what it says, then where it
/// happened if its backtrace has any text.
pub open spec fn rendered_cause(cause: CauseView) -> Seq<char> {
    match cause.backtrace {
        Some(trace) => if trace.len() > 0 {
            cause.message + " This happened at "@ + trace + "\n"@
        } else {
            cause.message + "\n"@
        },
        None => cause.message + "\n"@,
    }
}

/// The text of a chain of causes: each cause in the order of the chain, the
/// innermost last, with a line between each two that ties them together.
pub open spec fn rendered(chain: Seq<CauseView>) -> Seq<char>
    decreases chain.len(),
{
    if chain.len() == 0 {
        Seq::empty()
    } else if chain.len() == 1 {
        rendered_cause(chain[0])
    } else {
        rendered(chain.drop_last()) + "   Which cause the following issue:\n"@ + rendered_cause(
            chain.last(),
        )
    }
}

/// Renders a failure and the causes behind it for the user. The chain is
/// given from the failure itself to its root cause, each cause with what it
/// says of itself and the text of the backtrace that it carries, if any.
pub fn failure_to_string(chain: &Vec<Cause>) -> (text: String)
    ensures
        text@ == rendered(chain.deep_view()),
{
    let mut text = String::new();
    let mut at: usize = 0;
    assert(chain.deep_view().take(0) =~= Seq::<CauseView>::empty());
    while at < chain.len()
        invariant
            at <= chain@.len(),
            text@ == rendered(chain.deep_view().take(at as int)),
        decreases chain@.len() - at,
    {
        let ghost before = chain.deep_view().take(at as int);
        let ghost now = chain.deep_view().take(at + 1);
        assert(now.drop_last() =~= before);
        assert(now.last() == chain@[at as int]@);
        if at > 0 {
            text.append("   Which cause the following issue:\n");
        }
        let cause = &chain[at];
        text.append(cause.message.as_str());
        match &cause.backtrace {
            Some(trace) => {
                if !trace.as_str().is_empty() {
                    text.append(" This happened at ");
                    text.append(trace.as_str());
                    text.append("\n");
                } else {
                    text.append("\n");
                }
            },
            None => {
                text.append("\n");
            },
        }
        assert(text@ =~= rendered(now));
        at = at + 1;
    }
    assert(chain.deep_view().take(at as int) =~= chain.deep_view());
    text
}

} // verus!
