//! Execution: assembles the context that is handed to the model.

use vstd::prelude::*;
use vstd::string::StringExecFns;
use crate::agent::Plan;

verus! {

/// One line per step: the word `Step`, a colon, a space, the label and a
/// line feed.
pub open spec fn steps_text(steps: Seq<Seq<char>>) -> Seq<char>
    decreases steps.len(),
{
    if steps.len() == 0 {
        Seq::empty()
    } else {
        steps_text(steps.drop_last()) + "Step: "@ + steps.last() + "\n"@
    }
}

/// The context of a request: the lines of the steps, the separator, and the
/// request as it was given.
pub open spec fn context_text(steps: Seq<Seq<char>>, request: Seq<char>) -> Seq<char> {
    steps_text(steps) + "\nUser Request:\n"@ + request
}

/// Assembles the context for the model: the steps of `plan`, one line each
/// and in their order, then the separator and the user's prompt unchanged.
pub fn execute(plan: Plan, user_prompt: &str) -> (context: String)
    ensures
        context@ == context_text(plan@, user_prompt@),
{
    let mut context = String::new();
    let mut i: usize = 0;
    while i < plan.steps.len()
        invariant
            i <= plan.steps.len(),
            context@ == steps_text(plan@.take(i as int)),
        decreases plan.steps.len() - i,
    {
        context.append("Step: ");
        context.append(plan.steps[i].as_str());
        context.append("\n");
        proof {
            let upto = plan@.take(i + 1);
            assert(upto.drop_last() =~= plan@.take(i as int));
            assert(upto.last() == plan.steps[i as int]@);
        }
        i += 1;
    }
    assert(plan@.take(i as int) =~= plan@);
    context.append("\nUser Request:\n");
    context.append(user_prompt);
    context
}

} // verus!
