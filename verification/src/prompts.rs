//! The system prompt that introduces each kind of task to the model.

use vstd::prelude::*;
use crate::router::TaskType;

verus! {

/// The system prompt of each kind of task.
pub open spec fn prompt_text(task: TaskType) -> Seq<char> {
    match task {
        TaskType::Code =>
            "You are an expert software engineer. Respond with clean, correct, production-quality code. Use markdown and code blocks."@,
        TaskType::Reasoning =>
            "You are a careful analytical assistant. Think step by step, explain clearly, and structure your response."@,
        TaskType::Search =>
            "You summarize and synthesize known information accurately and concisely."@,
        TaskType::Chat => "You are a helpful, friendly AI assistant. Respond naturally and clearly."@,
    }
}

/// The system prompt for `task`.
pub fn system_prompt(task: TaskType) -> (prompt: &'static str)
    ensures
        prompt@ == prompt_text(task),
{
    match task {
        TaskType::Code =>
            "You are an expert software engineer. Respond with clean, correct, production-quality code. Use markdown and code blocks.",
        TaskType::Reasoning =>
            "You are a careful analytical assistant. Think step by step, explain clearly, and structure your response.",
        TaskType::Search =>
            "You summarize and synthesize known information accurately and concisely.",
        TaskType::Chat => "You are a helpful, friendly AI assistant. Respond naturally and clearly.",
    }
}

} // verus!
