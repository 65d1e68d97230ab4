//! The catalog of local models and where each one's artifact lies.

use vstd::prelude::*;

verus! {

/// One of the local models.
#[derive(Clone, Copy, Debug, PartialEq, Eq, Structural)]
pub enum ModelKind {
    Fast,
    Coder,
    Reasoner,
}

/// The artifact path of each model.
pub open spec fn path_of(kind: ModelKind) -> Seq<char> {
    match kind {
        ModelKind::Fast => "models/phi-2.q4.gguf"@,
        ModelKind::Coder => "models/qwen2.5-coder-7b.q4.gguf"@,
        ModelKind::Reasoner => "models/mistral-7b-instruct.q4.gguf"@,
    }
}

/// Where the artifact of `kind` lies. The path is fixed; whether a file is
/// there is not looked at.
pub fn model_path(kind: ModelKind) -> (path: &'static str)
    ensures
        path@ == path_of(kind),
{
    match kind {
        ModelKind::Fast => "models/phi-2.q4.gguf",
        ModelKind::Coder => "models/qwen2.5-coder-7b.q4.gguf",
        ModelKind::Reasoner => "models/mistral-7b-instruct.q4.gguf",
    }
}

/// The catalog is one to one: two models with the same path are the same
/// model.
pub proof fn lemma_paths_are_distinct(a: ModelKind, b: ModelKind)
    requires
        path_of(a) == path_of(b),
    ensures
        a == b,
{
    reveal_strlit("models/phi-2.q4.gguf");
    reveal_strlit("models/qwen2.5-coder-7b.q4.gguf");
    reveal_strlit("models/mistral-7b-instruct.q4.gguf");
    assert(path_of(ModelKind::Fast)[7] == 'p');
    assert(path_of(ModelKind::Coder)[7] == 'q');
    assert(path_of(ModelKind::Reasoner)[7] == 'm');
}

} // verus!
