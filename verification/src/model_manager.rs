//! Model residency: at most one engine is loaded at any time, and a model is
//! loaded only when another one than the resident is asked for.
//!
//! Loading is outside work, so a switch takes two calls. `load` decides: it
//! either finds the model resident, or releases whatever is resident and
//! asks for the artifact to be loaded. `install` takes what the loading gave.

use vstd::prelude::*;
use crate::models::{model_path, path_of, ModelKind};
use crate::safety::{safe_threads, threads_for, DEVICE_CORES};

verus! {

/// Why a model could not be made resident.
#[derive(Clone, Copy, Debug, PartialEq, Eq, Structural)]
pub enum LoadError {
    /// No engine could be constructed from the artifact.
    EngineInitFailed,
}

/// What `load` asks of its caller.
#[derive(Clone, Copy, Debug, PartialEq, Eq)]
pub enum LoadStep {
    /// The model is resident: nothing is to be done.
    Ready,
    /// Nothing is resident any more: construct an engine from `path` with
    /// `threads` threads and hand the outcome to `install`.
    Load { path: &'static str, threads: i32 },
}

/// A request of `load`, with its path as characters.
pub ghost enum Step {
    Ready,
    Load { path: Seq<char>, threads: int },
}

impl View for LoadStep {
    type V = Step;

    open spec fn view(&self) -> Step {
        match self {
            LoadStep::Ready => Step::Ready,
            LoadStep::Load { path, threads } => Step::Load { path: path@, threads: *threads as int },
        }
    }
}

/// What a manager holds: the resident model and its engine.
pub ghost struct Residency<E> {
    pub current: Option<ModelKind>,
    pub engine: Option<E>,
}

/// The state in which nothing is resident.
pub open spec fn unloaded<E>() -> Residency<E> {
    Residency { current: None, engine: None }
}

/// A model is named exactly when an engine is held.
pub open spec fn consistent<E>(r: Residency<E>) -> bool {
    r.current is Some <==> r.engine is Some
}

/// How many engines are held: none or one.
pub open spec fn engines_held<E>(r: Residency<E>) -> nat {
    if r.engine is Some {
        1
    } else {
        0
    }
}

/// The state after `load`: unchanged when `kind` is resident, and with
/// nothing resident otherwise.
pub open spec fn after_load<E>(r: Residency<E>, kind: ModelKind) -> Residency<E> {
    if r.current == Some(kind) {
        r
    } else {
        unloaded()
    }
}

/// What `load` asks for: nothing when `kind` is resident, and otherwise
/// the loading of its artifact with the device's thread budget.
pub open spec fn request_for<E>(r: Residency<E>, kind: ModelKind) -> Step {
    if r.current == Some(kind) {
        Step::Ready
    } else {
        Step::Load { path: path_of(kind), threads: threads_for(DEVICE_CORES as int) }
    }
}

/// The state after `install`: `kind` with its engine when one was
/// constructed, and nothing resident when none was.
pub open spec fn after_install<E>(r: Residency<E>, kind: ModelKind, outcome: Option<E>) -> Residency<
    E,
> {
    match outcome {
        Some(engine) => Residency { current: Some(kind), engine: Some(engine) },
        None => unloaded(),
    }
}

/// The state after a whole switch to `kind`, in which the loading that
/// `load` may ask for gives `outcome`.
pub open spec fn after_switch<E>(r: Residency<E>, kind: ModelKind, outcome: Option<E>) -> Residency<
    E,
> {
    if request_for(r, kind) is Ready {
        after_load(r, kind)
    } else {
        after_install(after_load(r, kind), kind, outcome)
    }
}

/// Cache hit: once a switch to `kind` has succeeded, a second switch to the
/// same `kind` asks for no loading and leaves the manager, and with it the
/// engine it holds, exactly as it was, whatever a loading would have given.
pub proof fn lemma_same_model_is_not_reloaded<E>(
    r: Residency<E>,
    kind: ModelKind,
    engine: E,
    other: Option<E>,
)
    requires
        consistent(r),
    ensures
        ({
            let loaded = after_switch(r, kind, Some(engine));
            &&& loaded.current == Some(kind)
            &&& request_for(loaded, kind) is Ready
            &&& after_load(loaded, kind) == loaded
            &&& after_switch(loaded, kind, other) == loaded
        }),
{
}

/// Single residency: a switch to another model than the resident one
/// releases the resident engine, one if one was held and none otherwise,
/// before it asks for the loading, so that the new engine is constructed
/// while none is held.
pub proof fn lemma_release_comes_before_loading<E>(r: Residency<E>, kind: ModelKind)
    requires
        consistent(r),
        r.current != Some(kind),
    ensures
        request_for(r, kind) is Load,
        engines_held(after_load(r, kind)) == 0,
        engines_held(r) - engines_held(after_load(r, kind)) == (if r.current is Some {
            1int
        } else {
            0int
        }),
{
}

/// No state of a switch holds more than one engine, and each is consistent.
pub proof fn lemma_at_most_one_engine<E>(r: Residency<E>, kind: ModelKind, outcome: Option<E>)
    requires
        consistent(r),
    ensures
        engines_held(r) <= 1,
        engines_held(after_load(r, kind)) <= 1,
        engines_held(after_switch(r, kind, outcome)) <= 1,
        consistent(after_load(r, kind)),
        consistent(after_switch(r, kind, outcome)),
{
}

/// A failed loading leaves nothing resident and is not remembered: the next
/// switch to the same model asks for the loading again.
pub proof fn lemma_failed_load_is_retried<E>(r: Residency<E>, kind: ModelKind)
    requires
        consistent(r),
        r.current != Some(kind),
    ensures
        after_switch(r, kind, None) == unloaded::<E>(),
        request_for(after_switch(r, kind, None), kind) == request_for(r, kind),
        request_for(after_switch(r, kind, None), kind) is Load,
{
}

/// Rollback: when nothing was resident, a failed loading leaves the manager
/// as it was before the attempt.
pub proof fn lemma_failed_load_rolls_back<E>(r: Residency<E>, kind: ModelKind)
    requires
        consistent(r),
        r.current is None,
    ensures
        after_switch(r, kind, None) == r,
{
}

fn held_mut<E>(slot: &mut Option<E>) -> (held: Option<&mut E>)
    ensures
        match *old(slot) {
            None => held is None && *final(slot) == *old(slot),
            Some(engine) => held is Some && *held.unwrap() == engine && *final(slot) == Some(
                *final(held.unwrap()),
            ),
        },
    no_unwind
{
    match slot {
        Some(engine) => Some(engine),
        None => None,
    }
}

/// Owns the engine of the resident model, if any.
pub struct ModelManager<E> {
    current: Option<ModelKind>,
    engine: Option<E>,
}

impl<E> View for ModelManager<E> {
    type V = Residency<E>;

    closed spec fn view(&self) -> Residency<E> {
        Residency { current: self.current, engine: self.engine }
    }
}

impl<E> ModelManager<E> {
    #[verifier::type_invariant]
    spec fn well_formed(self) -> bool {
        self.current is Some <==> self.engine is Some
    }

    /// A manager with nothing resident.
    pub fn new() -> (manager: Self)
        ensures
            manager@ == unloaded::<E>(),
    {
        ModelManager { current: None, engine: None }
    }

    /// The resident model, if any.
    pub fn current(&self) -> (kind: Option<ModelKind>)
        ensures
            kind == self@.current,
            consistent(self@),
    {
        proof {
            use_type_invariant(self);
        }
        self.current
    }

    /// First half of a switch to `kind`. When `kind` is resident, nothing
    /// changes and nothing is asked for. Otherwise the resident engine, if
    /// any, is released first, and only then is the loading asked for: the
    /// request is handed out by a manager that holds no engine.
    pub fn load(&mut self, kind: ModelKind) -> (step: LoadStep)
        ensures
            final(self)@ == after_load(old(self)@, kind),
            step@ == request_for(old(self)@, kind),
            consistent(old(self)@),
            consistent(final(self)@),
            step is Load ==> engines_held(final(self)@) == 0,
    {
        proof {
            use_type_invariant(&*self);
        }
        let resident = match self.current {
            Some(current) => current == kind,
            None => false,
        };
        if resident {
            return LoadStep::Ready;
        }
        self.release();
        LoadStep::Load { path: model_path(kind), threads: safe_threads() }
    }

    /// Second half of a switch to `kind`: takes what the loading gave. With
    /// an engine, `kind` becomes resident. Without one, nothing is
    /// resident and the failure is reported. An engine that is still held
    /// is released either way.
    pub fn install(&mut self, kind: ModelKind, outcome: Option<E>) -> (result: Result<(), LoadError>)
        ensures
            final(self)@ == after_install(old(self)@, kind, outcome),
            consistent(final(self)@),
            result == (match outcome {
                Some(_) => Ok::<(), LoadError>(()),
                None => Err::<(), LoadError>(LoadError::EngineInitFailed),
            }),
    {
        self.release();
        match outcome {
            Some(engine) => {
                self.hold(kind, engine);
                Ok(())
            },
            None => Err(LoadError::EngineInitFailed),
        }
    }

    /// The resident engine, if any, for use by one generation.
    pub fn engine_mut(&mut self) -> (engine: Option<&mut E>)
        ensures
            match old(self)@.engine {
                None => engine is None && final(self)@ == old(self)@,
                Some(held) => engine is Some && *engine.unwrap() == held && final(self)@ == (
                Residency { current: old(self)@.current, engine: Some(*final(engine.unwrap())) }),
            },
    {
        proof {
            use_type_invariant(&*self);
        }
        held_mut(&mut self.engine)
    }

    fn release(&mut self)
        ensures
            final(self)@ == unloaded::<E>(),
    {
        *self = ModelManager { current: None, engine: None };
    }

    fn hold(&mut self, kind: ModelKind, engine: E)
        ensures
            final(self)@ == (Residency { current: Some(kind), engine: Some(engine) }),
    {
        *self = ModelManager { current: Some(kind), engine: Some(engine) };
    }
}

} // verus!
