//! The plugin lifecycle state machine.
//!
//! A loaded plugin is driven through a fixed lifecycle: `init` exactly once,
//! `tick` any number of times (including zero), `shutdown` exactly once, and
//! nothing after `shutdown`. A [`PluginHandle`] records the state and carries
//! a ghost trace of every lifecycle call authorized through it, so the
//! ordering guarantee is a proved invariant, not a convention.

use vstd::prelude::*;

use crate::codec::MetaView;
use crate::codec::RustTypePluginMetadata;
use crate::codec::meta_wf;

verus! {

/// One lifecycle call into a plugin.
#[derive(Clone, Copy, PartialEq, Eq, Structural, Debug)]
pub enum PluginEvent {
    Init,
    Tick,
    Shutdown,
}

/// Where a plugin stands in its lifecycle. `Loaded` means the module is
/// mapped and its metadata decoded; nothing has been called through its
/// table yet. `ShutDown` is terminal.
#[derive(Clone, Copy, PartialEq, Eq, Structural, Debug)]
pub enum LifecycleState {
    Loaded,
    Initialized,
    ShutDown,
}

/// Every event in `t` is a tick.
pub open spec fn all_ticks(t: Seq<PluginEvent>) -> bool {
    forall|i: int| 0 <= i < t.len() ==> t[i] == PluginEvent::Tick
}

/// The traces a plugin can have observed at any point of its life:
/// nothing yet, or an init followed by ticks, or an init followed by ticks
/// and then one final shutdown.
pub open spec fn trace_ok(t: Seq<PluginEvent>) -> bool {
    ||| t.len() == 0
    ||| (t.len() >= 1 && t[0] == PluginEvent::Init && all_ticks(t.skip(1)))
    ||| (t.len() >= 2 && t[0] == PluginEvent::Init && t[t.len() - 1] == PluginEvent::Shutdown
        && all_ticks(t.subrange(1, t.len() - 1)))
}

/// The trace a given state admits.
pub open spec fn state_trace_ok(s: LifecycleState, t: Seq<PluginEvent>) -> bool {
    match s {
        LifecycleState::Loaded => t.len() == 0,
        LifecycleState::Initialized => t.len() >= 1 && t[0] == PluginEvent::Init && all_ticks(
            t.skip(1),
        ),
        LifecycleState::ShutDown => t.len() >= 2 && t[0] == PluginEvent::Init && t[t.len() - 1]
            == PluginEvent::Shutdown && all_ticks(t.subrange(1, t.len() - 1)),
    }
}

/// Law: in any reachable trace, a tick is only ever observed after the init,
/// and a shutdown is the last event ever observed — so no tick (or anything
/// else) follows it.
pub proof fn lemma_trace_ordering(t: Seq<PluginEvent>)
    requires
        trace_ok(t),
    ensures
        forall|i: int|
            0 <= i < t.len() && t[i] == PluginEvent::Tick ==> exists|j: int|
                0 <= j < i && t[j] == PluginEvent::Init,
        forall|i: int| 0 <= i < t.len() && t[i] == PluginEvent::Shutdown ==> i == t.len() - 1,
{
    assert forall|i: int|
        0 <= i < t.len() && t[i] == PluginEvent::Tick implies exists|j: int|
        0 <= j < i && t[j] == PluginEvent::Init by {
        assert(t[0] == PluginEvent::Init);
        assert(i != 0);
        assert(0 <= 0 < i && t[0] == PluginEvent::Init);
    }
    assert forall|i: int|
        0 <= i < t.len() && t[i] == PluginEvent::Shutdown implies i == t.len() - 1 by {
        if t.len() >= 1 && t[0] == PluginEvent::Init && all_ticks(t.skip(1)) {
            if i >= 1 {
                assert(t.skip(1)[i - 1] == t[i]);
            }
        } else if t.len() >= 2 && t[0] == PluginEvent::Init && t[t.len() - 1]
            == PluginEvent::Shutdown {
            if 1 <= i < t.len() - 1 {
                assert(t.subrange(1, t.len() - 1)[i - 1] == t[i]);
            }
        }
    }
}

/// The abstract value of a plugin handle.
pub ghost struct HandleView {
    pub module: u64,
    pub metadata: MetaView,
    pub state: LifecycleState,
    pub trace: Seq<PluginEvent>,
}

/// The handle invariant: the trace matches the state, so it is always one of
/// the reachable shapes, and the metadata is well formed.
pub open spec fn handle_wf(h: HandleView) -> bool {
    state_trace_ok(h.state, h.trace) && meta_wf(h.metadata)
}

/// A loaded plugin as the host owns it: the key of the mapped module (the
/// module's lifetime is bound to this handle), the decoded metadata, and the
/// lifecycle record. The raw function table never appears here; the front
/// end that owns it performs each call exactly when a `mark_*` method
/// authorizes it.
pub struct PluginHandle {
    module: u64,
    metadata: RustTypePluginMetadata,
    state: LifecycleState,
    trace: Ghost<Seq<PluginEvent>>,
}

impl View for PluginHandle {
    type V = HandleView;

    closed spec fn view(&self) -> HandleView {
        HandleView {
            module: self.module,
            metadata: self.metadata@,
            state: self.state,
            trace: self.trace@,
        }
    }
}

impl PluginHandle {
    /// The handle's invariant; see [`handle_wf`].
    pub open spec fn wf(&self) -> bool {
        handle_wf(self@)
    }

    /// Bundle a freshly mapped module with its decoded metadata. The plugin
    /// starts in `Loaded`: nothing has been called through its table.
    pub fn new(module: u64, metadata: RustTypePluginMetadata) -> (h: PluginHandle)
        requires
            meta_wf(metadata@),
        ensures
            h.wf(),
            h@ == (HandleView {
                module,
                metadata: metadata@,
                state: LifecycleState::Loaded,
                trace: Seq::<PluginEvent>::empty(),
            }),
    {
        PluginHandle { module, metadata, state: LifecycleState::Loaded, trace: Ghost(Seq::empty()) }
    }

    pub fn module(&self) -> (m: u64)
        ensures
            m == self@.module,
    {
        self.module
    }

    pub fn state(&self) -> (s: LifecycleState)
        ensures
            s == self@.state,
    {
        self.state
    }

    pub fn metadata(&self) -> (m: &RustTypePluginMetadata)
        ensures
            m@ == self@.metadata,
    {
        &self.metadata
    }

    /// Authorize the one `init` call. Only a freshly loaded plugin can be
    /// initialized, and only once.
    pub fn mark_initialized(&mut self)
        requires
            old(self).wf(),
            old(self)@.state == LifecycleState::Loaded,
        ensures
            final(self).wf(),
            final(self)@ == (HandleView {
                state: LifecycleState::Initialized,
                trace: old(self)@.trace.push(PluginEvent::Init),
                ..old(self)@
            }),
    {
        self.state = LifecycleState::Initialized;
        proof {
            let t = self.trace@.push(PluginEvent::Init);
            assert(t.skip(1) =~= Seq::<PluginEvent>::empty());
        }
        self.trace = Ghost(self.trace@.push(PluginEvent::Init));
    }

    /// Authorize one `tick` call: strictly after `init`, strictly before
    /// `shutdown`.
    pub fn mark_tick(&mut self)
        requires
            old(self).wf(),
            old(self)@.state == LifecycleState::Initialized,
        ensures
            final(self).wf(),
            final(self)@ == (HandleView {
                trace: old(self)@.trace.push(PluginEvent::Tick),
                ..old(self)@
            }),
    {
        proof {
            let t0 = self.trace@;
            let t = t0.push(PluginEvent::Tick);
            assert forall|i: int| 0 <= i < t.skip(1).len() implies t.skip(1)[i]
                == PluginEvent::Tick by {
                assert(t.skip(1)[i] == t[i + 1]);
                if i + 1 < t.len() - 1 {
                    assert(t0.skip(1)[i] == t0[i + 1]);
                }
            }
        }
        self.trace = Ghost(self.trace@.push(PluginEvent::Tick));
    }

    /// Authorize the one `shutdown` call; the handle is terminal afterwards
    /// and no further call is ever authorized through it.
    pub fn mark_shutdown(&mut self)
        requires
            old(self).wf(),
            old(self)@.state == LifecycleState::Initialized,
        ensures
            final(self).wf(),
            final(self)@ == (HandleView {
                state: LifecycleState::ShutDown,
                trace: old(self)@.trace.push(PluginEvent::Shutdown),
                ..old(self)@
            }),
    {
        self.state = LifecycleState::ShutDown;
        proof {
            let t0 = self.trace@;
            let t = t0.push(PluginEvent::Shutdown);
            assert(t.subrange(1, t.len() - 1) =~= t0.skip(1));
        }
        self.trace = Ghost(self.trace@.push(PluginEvent::Shutdown));
    }

    /// Every reachable trace has one of the lawful shapes.
    pub proof fn lemma_wf_trace_ok(&self)
        requires
            self.wf(),
        ensures
            trace_ok(self@.trace),
    {
    }
}

} // verus!
