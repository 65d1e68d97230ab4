//! Planning: the reasoning steps that are put before a request.

use vstd::prelude::*;

verus! {

/// An ordered list of step labels.
pub struct Plan {
    pub steps: Vec<String>,
}

impl View for Plan {
    type V = Seq<Seq<char>>;

    open spec fn view(&self) -> Seq<Seq<char>> {
        self.steps@.map_values(|step: String| step@)
    }
}

/// The steps of every plan, in order.
pub open spec fn plan_steps() -> Seq<Seq<char>> {
    seq![
        "Understand context"@,
        "Retrieve identity memory"@,
        "Formulate optimized strategy"@,
        "Execute core reasoning"@,
        "Verify & Output"@,
    ]
}

/// Plans the work on a prompt. The plan is the same five steps for every
/// prompt: what the prompt says is not looked at.
pub fn plan(prompt: &str) -> (plan: Plan)
    ensures
        plan@ == plan_steps(),
{
    let mut steps: Vec<String> = Vec::new();
    steps.push("Understand context".to_owned());
    steps.push("Retrieve identity memory".to_owned());
    steps.push("Formulate optimized strategy".to_owned());
    steps.push("Execute core reasoning".to_owned());
    steps.push("Verify & Output".to_owned());
    let plan = Plan { steps };
    assert(plan@ =~= plan_steps());
    plan
}

} // verus!
