//! Activation: resolving each hook's target and driving its slot through
//! initialize and enable, in declaration order, stopping at the first failure.
//!
//! The library never touches machine code. It tells the host which engine
//! operation comes next; the host performs it and hands the engine's answer
//! back.

use vstd::prelude::*;
use crate::error::{EngineError, Error, activation_result, reported};
use crate::lookup::{LoadedModule, LookupData, ModuleTable, resolution, resolve};
use crate::slot::{
    DetourSlot,
    EngineRequest,
    SlotState,
    SlotView,
    outcome_of,
    plan,
    slot_after,
};

verus! {

/// Resolves one hook and hands the address to `init`, which initializes
/// and enables the slot. A target that cannot be resolved is reported without
/// `init` being called; what `init` reports is passed on.
pub fn init_detour<F>(lookup_data: &LookupData, table: &ModuleTable, init: F) -> (r: Result<
    (),
    Error,
>) where F: FnOnce(usize) -> Result<(), EngineError>
    requires
        resolution(*lookup_data, table.modules@) matches Ok(address) ==> init.requires(
            (address,),
        ),
    ensures
        match resolution(*lookup_data, table.modules@) {
            Err(e) => r == Err::<(), Error>(e),
            Ok(address) => exists|answer: Result<(), EngineError>|
                init.ensures((address,), answer) && r == reported(answer),
        },
{
    match resolve(lookup_data, table) {
        Err(e) => Err(e),
        Ok(address) => {
            let answer = init(address);
            activation_result(answer)
        },
    }
}

/// One declared hook: where its target is, and its slot.
#[derive(Debug, PartialEq, Eq)]
pub struct Hook {
    pub lookup: LookupData,
    pub slot: DetourSlot,
}

/// The hooks of a module in declaration order. The host owns the registry
/// and passes it to the activation.
#[derive(Debug, PartialEq, Eq)]
pub struct Registry {
    pub hooks: Vec<Hook>,
}

/// What the host does next.
#[derive(Debug, PartialEq, Eq)]
pub enum Step {
    /// Have the engine perform `request` for the hook at index `hook`, then
    /// call `resume` with its answer.
    Ask { hook: usize, request: EngineRequest },
    /// The activation is over, with this result.
    Done(Result<(), Error>),
}

/// A hook as a value.
pub struct HookView {
    pub lookup: LookupData,
    pub slot: SlotView,
}

impl View for Hook {
    type V = HookView;

    open spec fn view(&self) -> HookView {
        HookView { lookup: self.lookup, slot: self.slot@ }
    }
}

impl View for Registry {
    type V = Seq<HookView>;

    open spec fn view(&self) -> Seq<HookView> {
        self.hooks@.map_values(|hook: Hook| hook@)
    }
}

/// The step that begins the activation of the hooks from index `from` on:
/// the hook is resolved, and the engine is asked to initialize its slot.
/// Where the target cannot be resolved or the slot refuses, the activation
/// is over with that failure; where no hook is left, it is over with success.
pub open spec fn step_from(hooks: Seq<HookView>, from: int, modules: Seq<LoadedModule>) -> Step {
    if from < 0 || from >= hooks.len() {
        Step::Done(Ok(()))
    } else {
        match resolution(hooks[from].lookup, modules) {
            Err(e) => Step::Done(Err(e)),
            Ok(address) => match plan(hooks[from].slot, EngineRequest::Install { address }) {
                Err(e) => Step::Done(Err(Error::DetourError(e))),
                Ok(_) => Step::Ask {
                    hook: from as usize,
                    request: EngineRequest::Install { address },
                },
            },
        }
    }
}

/// The hooks once the engine's answer to `request` for `hook` is recorded.
pub open spec fn hooks_after(
    hooks: Seq<HookView>,
    hook: int,
    request: EngineRequest,
    answer: Result<(), EngineError>,
) -> Seq<HookView> {
    if 0 <= hook < hooks.len() {
        hooks.update(
            hook,
            HookView { slot: slot_after(hooks[hook].slot, request, answer), ..hooks[hook] },
        )
    } else {
        hooks
    }
}

/// The step after the engine's answer to `request` for `hook`. A failure
/// ends the activation: the hooks before stay as they are. After a slot is
/// initialized it is enabled; after that the next hook's turn comes.
pub open spec fn step_after(
    hooks: Seq<HookView>,
    hook: int,
    request: EngineRequest,
    answer: Result<(), EngineError>,
    modules: Seq<LoadedModule>,
) -> Step {
    if hook < 0 || hook >= hooks.len() {
        Step::Done(Ok(()))
    } else {
        match outcome_of(hooks[hook].slot, request, answer) {
            Err(e) => Step::Done(Err(Error::DetourError(e))),
            Ok(()) => {
                let after = hooks_after(hooks, hook, request, answer);
                if request is Install {
                    match plan(after[hook].slot, EngineRequest::Enable) {
                        Err(e) => Step::Done(Err(Error::DetourError(e))),
                        Ok(Some(next)) => Step::Ask { hook: hook as usize, request: next },
                        Ok(None) => step_from(after, hook + 1, modules),
                    }
                } else {
                    step_from(after, hook + 1, modules)
                }
            },
        }
    }
}

impl Registry {
    /// A registry without hooks.
    pub fn new() -> (r: Registry)
        ensures
            r@ == Seq::<HookView>::empty(),
    {
        let r = Registry { hooks: Vec::new() };
        r
    }

    /// Declares one more hook, with a slot of its own; returns its index.
    pub fn register(&mut self, lookup: LookupData) -> (r: usize)
        ensures
            r == old(self)@.len(),
            final(self)@ == old(self)@.push(
                HookView {
                    lookup,
                    slot: SlotView { state: SlotState::Uninitialized, original_fn: None },
                },
            ),
    {
        let index = self.hooks.len();
        self.hooks.push(Hook { lookup, slot: DetourSlot::new() });
        index
    }

    pub fn len(&self) -> (r: usize)
        ensures
            r == self@.len(),
    {
        self.hooks.len()
    }

    /// The slot of the hook at index `hook`.
    pub fn slot(&self, hook: usize) -> (r: Option<&DetourSlot>)
        ensures
            match r {
                Some(slot) => hook < self@.len() && slot@ == self@[hook as int].slot,
                None => hook >= self@.len(),
            },
    {
        if hook < self.hooks.len() {
            Some(&self.hooks[hook].slot)
        } else {
            None
        }
    }

    fn begin(&self, from: usize, table: &ModuleTable) -> (r: Step)
        ensures
            r == step_from(self@, from as int, table.modules@),
    {
        if from >= self.hooks.len() {
            return Step::Done(Ok(()));
        }
        let hook = &self.hooks[from];
        match resolve(&hook.lookup, table) {
            Err(e) => Step::Done(Err(e)),
            Ok(address) => match hook.slot.plan(EngineRequest::Install { address }) {
                Err(e) => Step::Done(Err(Error::DetourError(e))),
                Ok(_) => Step::Ask { hook: from, request: EngineRequest::Install { address } },
            },
        }
    }

    /// Begins the activation of all hooks, in declaration order.
    pub fn init_detours(&self, table: &ModuleTable) -> (r: Step)
        ensures
            r == step_from(self@, 0, table.modules@),
    {
        self.begin(0, table)
    }

    /// Continues the activation with the engine's answer to the request
    /// that the last step asked for.
    pub fn resume(
        &mut self,
        hook: usize,
        request: EngineRequest,
        answer: Result<(), EngineError>,
        table: &ModuleTable,
    ) -> (r: Step)
        ensures
            r == step_after(old(self)@, hook as int, request, answer, table.modules@),
            final(self)@ == hooks_after(old(self)@, hook as int, request, answer),
    {
        if hook >= self.hooks.len() {
            return Step::Done(Ok(()));
        }
        let recorded = self.hooks[hook].slot.apply(request, answer);
        match recorded {
            Err(e) => Step::Done(Err(Error::DetourError(e))),
            Ok(()) => {
                if let EngineRequest::Install { .. } = request {
                    match self.hooks[hook].slot.plan(EngineRequest::Enable) {
                        Err(e) => Step::Done(Err(Error::DetourError(e))),
                        Ok(Some(next)) => Step::Ask { hook, request: next },
                        Ok(None) => self.begin(hook + 1, table),
                    }
                } else {
                    self.begin(hook + 1, table)
                }
            },
        }
    }
}


/// The slot of a hook that has been declared and nothing more.
pub open spec fn fresh() -> SlotView {
    SlotView { state: SlotState::Uninitialized, original_fn: None }
}

/// Recording an answer changes the slot of the hook that was asked about
/// and no other: what was enabled before stays enabled.
pub proof fn lemma_no_rollback(
    hooks: Seq<HookView>,
    hook: int,
    request: EngineRequest,
    answer: Result<(), EngineError>,
)
    ensures
        hooks_after(hooks, hook, request, answer).len() == hooks.len(),
        forall|j: int|
            0 <= j < hooks.len() && j != hook ==> #[trigger] hooks_after(
                hooks,
                hook,
                request,
                answer,
            )[j] == hooks[j],
        forall|j: int|
            0 <= j < hooks.len() ==> (#[trigger] hooks_after(hooks, hook, request, answer)[j]).lookup
                == hooks[j].lookup,
{
}

/// Of two declared hooks, let the first resolve and the second name a module
/// that is not loaded, and let the engine do what it is asked. Then the
/// activation initializes and enables the first slot, ends with
/// `ModuleNotLoaded`, and leaves the first slot enabled.
pub proof fn lemma_failure_keeps_earlier_hooks(
    hooks: Seq<HookView>,
    modules: Seq<LoadedModule>,
    address: usize,
)
    requires
        hooks.len() == 2,
        hooks[0].slot == fresh(),
        hooks[1].slot == fresh(),
        resolution(hooks[0].lookup, modules) == Ok::<usize, Error>(address),
        resolution(hooks[1].lookup, modules) == Err::<usize, Error>(Error::ModuleNotLoaded),
    ensures
        ({
            let install = EngineRequest::Install { address };
            let initialized = hooks_after(hooks, 0, install, Ok(()));
            let enabled = hooks_after(initialized, 0, EngineRequest::Enable, Ok(()));
            &&& step_from(hooks, 0, modules) == (Step::Ask { hook: 0, request: install })
            &&& step_after(hooks, 0, install, Ok(()), modules) == (Step::Ask {
                hook: 0,
                request: EngineRequest::Enable,
            })
            &&& step_after(initialized, 0, EngineRequest::Enable, Ok(()), modules) == Step::Done(
                Err(Error::ModuleNotLoaded),
            )
            &&& enabled[0].slot.state == SlotState::Enabled
            &&& enabled[0].slot.original_fn == Some(address)
            &&& enabled[1].slot == fresh()
        }),
{
}

/// An activation never ends in success while a hook is left whose target
/// cannot be resolved: the first step that reaches it reports the failure.
pub proof fn lemma_unresolved_hook_stops(hooks: Seq<HookView>, from: int, modules: Seq<LoadedModule>)
    requires
        0 <= from < hooks.len(),
        resolution(hooks[from].lookup, modules) is Err,
    ensures
        step_from(hooks, from, modules) == Step::Done(
            Err(resolution(hooks[from].lookup, modules)->Err_0),
        ),
{
}

} // verus!
