//! Model selection: which model serves which kind of task.

use vstd::prelude::*;
use crate::models::ModelKind;
use crate::router::TaskType;

verus! {

/// The model for each kind of task.
pub open spec fn model_for(task: TaskType) -> ModelKind {
    match task {
        TaskType::Code => ModelKind::Coder,
        TaskType::Reasoning => ModelKind::Reasoner,
        TaskType::Search => ModelKind::Fast,
        TaskType::Chat => ModelKind::Fast,
    }
}

/// Selects the model for a task: the coder for code, the reasoner for
/// reasoning, the fast model for everything else.
pub fn select_model(task: TaskType) -> (kind: ModelKind)
    ensures
        kind == model_for(task),
{
    match task {
        TaskType::Code => ModelKind::Coder,
        TaskType::Reasoning => ModelKind::Reasoner,
        _ => ModelKind::Fast,
    }
}

} // verus!
