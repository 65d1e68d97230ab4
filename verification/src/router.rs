//! Task classification: which kind of work a prompt asks for.

use vstd::prelude::*;
use crate::text::{chars_of, contains, contains_text, lowercased};

verus! {

/// The kind of work a prompt asks for.
#[derive(Clone, Copy, Debug, PartialEq, Eq, Structural)]
pub enum TaskType {
    Code,
    Reasoning,
    Chat,
    Search,
}

/// Keywords that mark a prompt as a coding task.
pub open spec fn code_keywords() -> Seq<Seq<char>> {
    seq!["write code"@, "function"@, "bug"@, "typescript"@, "rust"@, "code"@]
}

/// Keywords that mark a prompt as a reasoning task.
pub open spec fn reasoning_keywords() -> Seq<Seq<char>> {
    seq!["why"@, "explain"@, "analyze"@, "reason"@]
}

/// Keywords that mark a prompt as a search task.
pub open spec fn search_keywords() -> Seq<Seq<char>> {
    seq!["search"@, "find"@, "lookup"@]
}

/// `text` contains at least one of `keywords`.
pub open spec fn mentions_any(text: Seq<char>, keywords: Seq<Seq<char>>) -> bool {
    exists|k: int| 0 <= k < keywords.len() && contains_text(text, #[trigger] keywords[k])
}

/// The category of an already lowercased text: the first of Code, Reasoning
/// and Search whose keywords it mentions, and Chat when it mentions none.
pub open spec fn category_of(text: Seq<char>) -> TaskType {
    if mentions_any(text, code_keywords()) {
        TaskType::Code
    } else if mentions_any(text, reasoning_keywords()) {
        TaskType::Reasoning
    } else if mentions_any(text, search_keywords()) {
        TaskType::Search
    } else {
        TaskType::Chat
    }
}

fn mentions(text: &Vec<char>, keyword: &str) -> (found: bool)
    ensures
        found == contains_text(text@, keyword@),
{
    let needle = chars_of(keyword);
    contains(text, &needle)
}

/// Classifies a text that is already in lowercase.
pub fn classify_lowered(text: &str) -> (task: TaskType)
    ensures
        task == category_of(text@),
{
    let p = chars_of(text);
    if mentions(&p, "write code") || mentions(&p, "function") || mentions(&p, "bug") || mentions(
        &p,
        "typescript",
    ) || mentions(&p, "rust") || mentions(&p, "code") {
        proof {
            let ks = code_keywords();
            assert(ks[0] == "write code"@ && ks[1] == "function"@ && ks[2] == "bug"@ && ks[3]
                == "typescript"@ && ks[4] == "rust"@ && ks[5] == "code"@);
        }
        TaskType::Code
    } else if mentions(&p, "why") || mentions(&p, "explain") || mentions(&p, "analyze") || mentions(
        &p,
        "reason",
    ) {
        proof {
            let ks = reasoning_keywords();
            assert(ks[0] == "why"@ && ks[1] == "explain"@ && ks[2] == "analyze"@ && ks[3]
                == "reason"@);
        }
        TaskType::Reasoning
    } else if mentions(&p, "search") || mentions(&p, "find") || mentions(&p, "lookup") {
        proof {
            let ks = search_keywords();
            assert(ks[0] == "search"@ && ks[1] == "find"@ && ks[2] == "lookup"@);
        }
        TaskType::Search
    } else {
        TaskType::Chat
    }
}

/// Classifies a prompt by case-insensitive keyword matching, with the
/// precedence Code, Reasoning, Search, and Chat as the fallback.
pub fn classify(prompt: &str) -> (task: TaskType)
    ensures
        task == category_of(lowercased(prompt@)),
{
    let p = prompt.to_lowercase();
    classify_lowered(p.as_str())
}

/// Precedence: a text that mentions a Code keyword is a Code task, whichever
/// Reasoning or Search keywords it mentions besides.
pub proof fn lemma_code_takes_precedence(text: Seq<char>)
    requires
        mentions_any(text, code_keywords()),
    ensures
        category_of(text) == TaskType::Code,
{
}

} // verus!
