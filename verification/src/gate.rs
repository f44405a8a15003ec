//! The two one-shot flags that coalesce repeated start-up requests.
//!
//! "Initialised" and "activation handler registered" each go from false to
//! true once in the life of a process and never back.

use vstd::prelude::*;

verus! {

/// The value of an [`ActivationGate`].
pub struct GateView {
    pub initialized: bool,
    pub registered: bool,
}

/// One start-up request.
#[derive(Clone, Copy, Debug, PartialEq, Eq, Structural)]
pub enum GateCall {
    Initialize,
    Register,
}

/// Whether an initialise request broadcasts the ready event: it does unless
/// both flags are already set.
pub open spec fn initialize_fires(g: GateView) -> bool {
    !(g.initialized && g.registered)
}

/// The flags after an initialise request.
pub open spec fn after_initialize(g: GateView) -> GateView {
    if initialize_fires(g) {
        GateView { initialized: true, registered: g.registered }
    } else {
        g
    }
}

/// Whether a register request installs the activation handler.
pub open spec fn register_fires(g: GateView) -> bool {
    !g.registered
}

/// The flags after a register request.
pub open spec fn after_register(g: GateView) -> GateView {
    GateView { initialized: g.initialized, registered: true }
}

/// Whether `call` has an effect outside the flags when they stand at `g`.
pub open spec fn call_fires(g: GateView, call: GateCall) -> bool {
    match call {
        GateCall::Initialize => initialize_fires(g),
        GateCall::Register => register_fires(g),
    }
}

/// The flags after `call`.
pub open spec fn after_call(g: GateView, call: GateCall) -> GateView {
    match call {
        GateCall::Initialize => after_initialize(g),
        GateCall::Register => after_register(g),
    }
}

/// The flags after `calls`, one after the other.
pub open spec fn after_calls(g: GateView, calls: Seq<GateCall>) -> GateView
    decreases calls.len(),
{
    if calls.len() == 0 {
        g
    } else {
        after_call(after_calls(g, calls.drop_last()), calls.last())
    }
}

/// How many of `calls` are requests of `kind` that fire, starting at `g`.
pub open spec fn fired(g: GateView, calls: Seq<GateCall>, kind: GateCall) -> nat
    decreases calls.len(),
{
    if calls.len() == 0 {
        0
    } else {
        let before = after_calls(g, calls.drop_last());
        fired(g, calls.drop_last(), kind) + if calls.last() == kind && call_fires(
            before,
            kind,
        ) {
            1nat
        } else {
            0nat
        }
    }
}

/// A sequence holds a value where its front or its last item does.
proof fn lemma_contains_last(calls: Seq<GateCall>, kind: GateCall)
    requires
        calls.len() > 0,
    ensures
        calls.contains(kind) == (calls.drop_last().contains(kind) || calls.last() == kind),
{
    let front = calls.drop_last();
    if calls.contains(kind) && calls.last() != kind {
        let k = choose|k: int| 0 <= k < calls.len() && calls[k] == kind;
        assert(front[k] == kind);
    }
    if front.contains(kind) {
        let k = choose|k: int| 0 <= k < front.len() && front[k] == kind;
        assert(calls[k] == kind);
    }
    if calls.last() == kind {
        assert(calls[calls.len() - 1] == kind);
    }
}

/// A flag that is set stays set, whatever is requested, and the handler
/// counts as registered exactly from the first register request on.
pub proof fn lemma_flags_stay_set(g: GateView, calls: Seq<GateCall>)
    ensures
        g.initialized ==> after_calls(g, calls).initialized,
        after_calls(g, calls).registered == (g.registered || calls.contains(GateCall::Register)),
    decreases calls.len(),
{
    if calls.len() > 0 {
        lemma_flags_stay_set(g, calls.drop_last());
        lemma_contains_last(calls, GateCall::Register);
    }
}

/// Once both flags are set, an initialise request does nothing: no
/// broadcast, and the flags stay as they are.
pub proof fn lemma_initialize_settled(g: GateView)
    requires
        g.initialized,
        g.registered,
    ensures
        !initialize_fires(g),
        after_initialize(g) == g,
{
}

/// A second register request does nothing: the handler is installed by the
/// first of two requests or was installed before, and never by the second.
pub proof fn lemma_register_twice(g: GateView)
    ensures
        register_fires(g) == !g.registered,
        !register_fires(after_register(g)),
        after_register(after_register(g)) == after_register(g),
{
}

/// In any run of requests the handler is installed at most once: once if the
/// run starts unregistered and holds a register request, else never.
pub proof fn lemma_installed_once(g: GateView, calls: Seq<GateCall>)
    ensures
        fired(g, calls, GateCall::Register) == if !g.registered && calls.contains(
            GateCall::Register,
        ) {
            1nat
        } else {
            0nat
        },
    decreases calls.len(),
{
    if calls.len() > 0 {
        let front = calls.drop_last();
        lemma_installed_once(g, front);
        lemma_flags_stay_set(g, front);
        lemma_contains_last(calls, GateCall::Register);
    }
}

/// Once the handler is registered, the ready event is broadcast at most
/// once more: by the first initialise request, if none came before.
pub proof fn lemma_broadcast_once_registered(g: GateView, calls: Seq<GateCall>)
    requires
        g.registered,
    ensures
        fired(g, calls, GateCall::Initialize) == if !g.initialized && calls.contains(
            GateCall::Initialize,
        ) {
            1nat
        } else {
            0nat
        },
        after_calls(g, calls).initialized == (g.initialized || calls.contains(
            GateCall::Initialize,
        )),
    decreases calls.len(),
{
    if calls.len() > 0 {
        let front = calls.drop_last();
        lemma_broadcast_once_registered(g, front);
        lemma_flags_stay_set(g, front);
        lemma_contains_last(calls, GateCall::Initialize);
    }
}

/// The first initialise request of a process broadcasts the ready event
/// and sets the flag.
pub proof fn lemma_first_initialize(g: GateView)
    requires
        !g.initialized,
    ensures
        initialize_fires(g),
        after_initialize(g).initialized,
        after_initialize(g).registered == g.registered,
{
}

/// In a run of requests that starts with both flags set, no ready event is
/// broadcast.
pub proof fn lemma_no_broadcast_when_settled(g: GateView, calls: Seq<GateCall>)
    requires
        g.initialized,
        g.registered,
    ensures
        fired(g, calls, GateCall::Initialize) == 0,
        after_calls(g, calls) == g,
    decreases calls.len(),
{
    if calls.len() > 0 {
        lemma_no_broadcast_when_settled(g, calls.drop_last());
    }
}

/// The one-shot flags of a process.
#[derive(Debug)]
pub struct ActivationGate {
    initialized: bool,
    registered: bool,
}

impl View for ActivationGate {
    type V = GateView;

    closed spec fn view(&self) -> GateView {
        GateView { initialized: self.initialized, registered: self.registered }
    }
}

impl ActivationGate {
    /// The flags of a process that has just started: neither is set.
    pub fn new() -> (gate: ActivationGate)
        ensures
            gate@ == (GateView { initialized: false, registered: false }),
    {
        ActivationGate { initialized: false, registered: false }
    }

    /// Whether the ready event has been broadcast.
    pub fn is_initialized(&self) -> (r: bool)
        ensures
            r == self@.initialized,
    {
        self.initialized
    }

    /// Whether the activation handler has been installed.
    pub fn is_registered(&self) -> (r: bool)
        ensures
            r == self@.registered,
    {
        self.registered
    }

    /// Takes an initialise request. Returns whether the ready event is to
    /// be broadcast now.
    pub fn initialize(&mut self) -> (broadcast: bool)
        ensures
            broadcast == initialize_fires(old(self)@),
            final(self)@ == after_initialize(old(self)@),
    {
        if self.initialized && self.registered {
            return false;
        }
        self.initialized = true;
        true
    }

    /// Takes a register request. Returns whether the activation handler is
    /// to be installed now.
    pub fn register_activation(&mut self) -> (install: bool)
        ensures
            install == register_fires(old(self)@),
            final(self)@ == after_register(old(self)@),
    {
        if self.registered {
            return false;
        }
        self.registered = true;
        true
    }
}

} // verus!
