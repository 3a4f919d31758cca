//! The lifecycle of one interception slot.
//!
//! A slot starts uninitialized, is initialized once with the address of the
//! code it intercepts, and is then enabled and disabled at will. The slot
//! itself patches nothing: it decides which operation the hooking engine has
//! to perform, and records the operation once the engine has answered.

use vstd::prelude::*;
use crate::error::EngineError;

verus! {

/// Where a slot stands in its lifecycle.
#[derive(Debug, Clone, Copy, PartialEq, Eq, Structural)]
pub enum SlotState {
    Uninitialized,
    Initialized,
    Enabled,
    Disabled,
}

/// An operation on a slot, to be performed by the hooking engine.
#[derive(Debug, Clone, Copy, PartialEq, Eq, Structural)]
pub enum EngineRequest {
    /// Bind the slot's call-through path to the code at `address`.
    Install { address: usize },
    /// Install the redirection.
    Enable,
    /// Take the redirection out.
    Disable,
}

/// A slot as a value: its state and the captured address of the original
/// code, which is the call-through path.
pub struct SlotView {
    pub state: SlotState,
    pub original_fn: Option<usize>,
}

/// One interception slot.
#[derive(Debug, PartialEq, Eq)]
pub struct DetourSlot {
    state: SlotState,
    original_fn: Option<usize>,
}

/// A slot holds an address from its initialization on, and not before.
pub open spec fn slot_wf(slot: SlotView) -> bool {
    slot.original_fn is Some <==> slot.state != SlotState::Uninitialized
}

/// What the engine has to do for `request`, if anything, or why the request
/// is refused.
///
/// A slot is initialized from `Uninitialized` only. Enabling an enabled slot
/// and disabling a slot that is not enabled need no work. A slot that was
/// never initialized can be neither enabled nor disabled.
pub open spec fn plan(slot: SlotView, request: EngineRequest) -> Result<
    Option<EngineRequest>,
    EngineError,
> {
    match request {
        EngineRequest::Install { .. } => match slot.state {
            SlotState::Uninitialized => Ok(Some(request)),
            _ => Err(EngineError::AlreadyInitialized),
        },
        EngineRequest::Enable => match slot.state {
            SlotState::Uninitialized => Err(EngineError::NotInitialized),
            SlotState::Enabled => Ok(None),
            _ => Ok(Some(request)),
        },
        EngineRequest::Disable => match slot.state {
            SlotState::Uninitialized => Err(EngineError::NotInitialized),
            SlotState::Enabled => Ok(Some(request)),
            _ => Ok(None),
        },
    }
}

/// The slot once the engine has performed `request`.
pub open spec fn performed(slot: SlotView, request: EngineRequest) -> SlotView {
    match request {
        EngineRequest::Install { address } => SlotView {
            state: SlotState::Initialized,
            original_fn: Some(address),
        },
        EngineRequest::Enable => SlotView { state: SlotState::Enabled, ..slot },
        EngineRequest::Disable => SlotView { state: SlotState::Disabled, ..slot },
    }
}

/// The result of `request` on a slot, given what the engine answered (or
/// would have answered, where it is not asked): a refused request and a
/// failed operation leave the slot as it was and are reported; a request that
/// needs no work succeeds and leaves the slot as it was; otherwise the
/// operation is recorded.
pub open spec fn outcome_of(
    slot: SlotView,
    request: EngineRequest,
    answer: Result<(), EngineError>,
) -> Result<(), EngineError> {
    match plan(slot, request) {
        Err(refused) => Err(refused),
        Ok(None) => Ok(()),
        Ok(Some(_)) => answer,
    }
}

/// The slot after `request`, given what the engine answered.
pub open spec fn slot_after(
    slot: SlotView,
    request: EngineRequest,
    answer: Result<(), EngineError>,
) -> SlotView {
    if plan(slot, request) matches Ok(Some(_)) && answer is Ok {
        performed(slot, request)
    } else {
        slot
    }
}

impl View for DetourSlot {
    type V = SlotView;

    closed spec fn view(&self) -> SlotView {
        SlotView { state: self.state, original_fn: self.original_fn }
    }
}

impl DetourSlot {
    #[verifier::type_invariant]
    spec fn inv(self) -> bool {
        self.original_fn is Some <==> self.state != SlotState::Uninitialized
    }

    /// A slot that has not been initialized.
    pub fn new() -> (r: DetourSlot)
        ensures
            r@ == (SlotView { state: SlotState::Uninitialized, original_fn: None }),
    {
        DetourSlot { state: SlotState::Uninitialized, original_fn: None }
    }

    pub fn state(&self) -> (r: SlotState)
        ensures
            r == self@.state,
    {
        self.state
    }

    /// The address of the original code: the call-through path. It is there
    /// from the initialization on.
    pub fn original_fn(&self) -> (r: Option<usize>)
        ensures
            r == self@.original_fn,
            slot_wf(self@),
    {
        proof {
            use_type_invariant(self);
        }
        self.original_fn
    }

    pub fn is_enabled(&self) -> (r: bool)
        ensures
            r == (self@.state == SlotState::Enabled),
    {
        self.state == SlotState::Enabled
    }

    /// Decides what the engine has to do for `request`.
    pub fn plan(&self, request: EngineRequest) -> (r: Result<Option<EngineRequest>, EngineError>)
        ensures
            r == plan(self@, request),
            slot_wf(self@),
    {
        proof {
            use_type_invariant(self);
        }
        match request {
            EngineRequest::Install { .. } => match self.state {
                SlotState::Uninitialized => Ok(Some(request)),
                _ => Err(EngineError::AlreadyInitialized),
            },
            EngineRequest::Enable => match self.state {
                SlotState::Uninitialized => Err(EngineError::NotInitialized),
                SlotState::Enabled => Ok(None),
                _ => Ok(Some(request)),
            },
            EngineRequest::Disable => match self.state {
                SlotState::Uninitialized => Err(EngineError::NotInitialized),
                SlotState::Enabled => Ok(Some(request)),
                _ => Ok(None),
            },
        }
    }

    /// Records the engine's answer to `request`. Where `plan` asks for no
    /// work or refuses, the answer is not looked at.
    pub fn apply(&mut self, request: EngineRequest, answer: Result<(), EngineError>) -> (r: Result<
        (),
        EngineError,
    >)
        ensures
            r == outcome_of(old(self)@, request, answer),
            final(self)@ == slot_after(old(self)@, request, answer),
            slot_wf(final(self)@),
    {
        proof {
            use_type_invariant(&*self);
        }
        let planned = self.plan(request);
        match planned {
            Err(refused) => Err(refused),
            Ok(None) => Ok(()),
            Ok(Some(_)) => {
                if answer.is_ok() {
                    match request {
                        EngineRequest::Install { address } => {
                            *self = DetourSlot {
                                state: SlotState::Initialized,
                                original_fn: Some(address),
                            };
                        },
                        EngineRequest::Enable => {
                            self.state = SlotState::Enabled;
                        },
                        EngineRequest::Disable => {
                            self.state = SlotState::Disabled;
                        },
                    }
                }
                answer
            },
        }
    }

    /// Binds the slot to the code at `address`, if the engine has done so.
    pub fn initialize(&mut self, address: usize, answer: Result<(), EngineError>) -> (r: Result<
        (),
        EngineError,
    >)
        ensures
            r == outcome_of(old(self)@, EngineRequest::Install { address }, answer),
            final(self)@ == slot_after(old(self)@, EngineRequest::Install { address }, answer),
    {
        self.apply(EngineRequest::Install { address }, answer)
    }

    /// Marks the redirection as installed, if the engine has installed it.
    pub fn enable(&mut self, answer: Result<(), EngineError>) -> (r: Result<(), EngineError>)
        ensures
            r == outcome_of(old(self)@, EngineRequest::Enable, answer),
            final(self)@ == slot_after(old(self)@, EngineRequest::Enable, answer),
    {
        self.apply(EngineRequest::Enable, answer)
    }

    /// Marks the redirection as taken out, if the engine has taken it out.
    pub fn disable(&mut self, answer: Result<(), EngineError>) -> (r: Result<(), EngineError>)
        ensures
            r == outcome_of(old(self)@, EngineRequest::Disable, answer),
            final(self)@ == slot_after(old(self)@, EngineRequest::Disable, answer),
    {
        self.apply(EngineRequest::Disable, answer)
    }
}

/// Enabling a slot that is enabled asks nothing of the engine, succeeds
/// whatever the engine would have answered, and leaves the slot as it is: the
/// redirection is never installed twice.
pub proof fn lemma_enable_is_idempotent(slot: SlotView, answer: Result<(), EngineError>)
    requires
        slot.state == SlotState::Enabled,
    ensures
        plan(slot, EngineRequest::Enable) == Ok::<Option<EngineRequest>, EngineError>(None),
        outcome_of(slot, EngineRequest::Enable, answer) == Ok::<(), EngineError>(()),
        slot_after(slot, EngineRequest::Enable, answer) == slot,
{
}

/// A slot that is initialized refuses to be initialized again, and keeps its
/// call-through path.
pub proof fn lemma_initialized_once(
    slot: SlotView,
    address: usize,
    answer: Result<(), EngineError>,
)
    requires
        slot.state != SlotState::Uninitialized,
    ensures
        outcome_of(slot, EngineRequest::Install { address }, answer) == Err::<(), EngineError>(
            EngineError::AlreadyInitialized,
        ),
        slot_after(slot, EngineRequest::Install { address }, answer) == slot,
{
}

/// Whatever is requested and answered, a slot stays well formed, never goes
/// back to `Uninitialized`, and keeps the call-through path it has.
pub proof fn lemma_lifecycle(slot: SlotView, request: EngineRequest, answer: Result<(), EngineError>)
    requires
        slot_wf(slot),
    ensures
        slot_wf(slot_after(slot, request, answer)),
        slot.state != SlotState::Uninitialized ==> slot_after(slot, request, answer).state
            != SlotState::Uninitialized,
        slot.original_fn is Some ==> slot_after(slot, request, answer).original_fn
            == slot.original_fn,
        slot_after(slot, request, answer).state == SlotState::Enabled ==> slot.state
            == SlotState::Enabled || (request == EngineRequest::Enable && answer is Ok),
{
}

} // verus!
