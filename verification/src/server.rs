//! The host: its callback surface as plugins observe it, and the registry of
//! loaded plugins with its broadcast driver.
//!
//! The host builds one function table per process; its version field and the
//! observable effect of each callback are modeled here. The registry is an
//! append-only sequence of plugin handles: insertion order is load order is
//! broadcast order, and every broadcast visits every plugin exactly once, in
//! that order.

use vstd::prelude::*;

use crate::codec::WireArena;
use crate::codec::wire_live;
use crate::codec::wire_decodable;
use crate::codec::decoded_view;
use crate::lifecycle::HandleView;
use crate::lifecycle::LifecycleState;
use crate::lifecycle::PluginEvent;
use crate::lifecycle::PluginHandle;
use crate::loader::LoadError;
use crate::loader::LoadEvent;
use crate::loader::load;
use crate::utf8::is_valid_utf8;
use crate::utf8::utf8_valid;

verus! {

/// The one interface version this host implements. A plugin compiled against
/// another version must be rejected during its `init`.
pub const PLUGIN_API_VERSION: u32 = 1;

/// One entry in the host's log, as a plugin's `log` callback produced it.
/// A null or non-text message is reported, never a crash.
#[derive(PartialEq, Eq, Debug)]
pub enum LogEntry {
    /// The plugin passed a null message.
    NullMessage,
    /// The message bytes were not well-formed text.
    InvalidUtf8,
    /// A well-formed message, recorded as handed over.
    Message(Vec<u8>),
}

/// The abstract value of a log entry.
pub ghost enum LogView {
    NullMessage,
    InvalidUtf8,
    Message(Seq<u8>),
}

impl View for LogEntry {
    type V = LogView;

    open spec fn view(&self) -> LogView {
        match self {
            LogEntry::NullMessage => LogView::NullMessage,
            LogEntry::InvalidUtf8 => LogView::InvalidUtf8,
            LogEntry::Message(b) => LogView::Message(b@),
        }
    }
}

/// How the host classifies one `log` callback: a null reference, non-text
/// bytes, or a well-formed message.
pub open spec fn classify_message(m: Option<Seq<u8>>) -> LogView {
    match m {
        Option::None => LogView::NullMessage,
        Option::Some(b) => if is_valid_utf8(b) {
            LogView::Message(b)
        } else {
            LogView::InvalidUtf8
        },
    }
}

pub open spec fn opt_bytes_view(m: Option<Vec<u8>>) -> Option<Seq<u8>> {
    match m {
        Option::None => Option::None,
        Option::Some(b) => Option::Some(b@),
    }
}

/// One call a plugin makes back into the host through the function table.
#[derive(PartialEq, Eq, Debug)]
pub enum HostCall {
    /// `log`: a borrowed message; the bytes as handed over.
    Log(Vec<u8>),
    /// `spawnEntity`: fire-and-forget with an opaque identifier.
    SpawnEntity(u32),
}

/// The abstract value of a host call.
pub ghost enum HostCallView {
    Log(Seq<u8>),
    SpawnEntity(u32),
}

impl View for HostCall {
    type V = HostCallView;

    open spec fn view(&self) -> HostCallView {
        match self {
            HostCall::Log(b) => HostCallView::Log(b@),
            HostCall::SpawnEntity(id) => HostCallView::SpawnEntity(*id),
        }
    }
}

/// The abstract value of the host.
pub ghost struct ServerView {
    pub host_version: u32,
    pub number: u32,
    pub log: Seq<LogView>,
    pub spawned: Seq<u32>,
    pub plugins: Seq<HandleView>,
}

/// The modules a broadcast visits, in registry order.
pub open spec fn broadcast_order(ps: Seq<HandleView>) -> Seq<u64> {
    Seq::new(ps.len(), |i: int| ps[i].module)
}

/// Law: registering one more plugin appends its module to the broadcast
/// order and reorders nothing: insertion order is broadcast order.
pub proof fn lemma_broadcast_order_push(ps: Seq<HandleView>, h: HandleView)
    ensures
        broadcast_order(ps.push(h)) == broadcast_order(ps).push(h.module),
{
    assert(broadcast_order(ps.push(h)) =~= broadcast_order(ps).push(h.module));
}

/// Law: for every plugin a host holds, however it was loaded and driven, a
/// tick is only ever authorized after that plugin's init, and nothing is
/// ever authorized after its shutdown.
pub proof fn lemma_registry_tick_ordering(s: &Server, i: int)
    requires
        s.wf(),
        0 <= i < s@.plugins.len(),
    ensures
        forall|k: int|
            0 <= k < s@.plugins[i].trace.len() && s@.plugins[i].trace[k] == PluginEvent::Tick
                ==> exists|j: int| 0 <= j < k && s@.plugins[i].trace[j] == PluginEvent::Init,
        forall|k: int|
            0 <= k < s@.plugins[i].trace.len() && s@.plugins[i].trace[k] == PluginEvent::Shutdown
                ==> k == s@.plugins[i].trace.len() - 1,
{
    assert(crate::lifecycle::handle_wf(s@.plugins[i]));
    crate::lifecycle::lemma_trace_ordering(s@.plugins[i].trace);
}

/// The host process: the version it offers plugins, its mutable number, the
/// observable record of every callback plugins made, and the registry of
/// loaded plugins. The registry owns each module's lifetime, so it outlives
/// every call made through a registered handle.
pub struct Server {
    host_version: u32,
    number: u32,
    log: Vec<LogEntry>,
    spawned: Vec<u32>,
    plugins: Vec<PluginHandle>,
}

impl View for Server {
    type V = ServerView;

    closed spec fn view(&self) -> ServerView {
        ServerView {
            host_version: self.host_version,
            number: self.number,
            log: Seq::new(self.log@.len(), |i: int| self.log@[i]@),
            spawned: self.spawned@,
            plugins: Seq::new(self.plugins@.len(), |i: int| self.plugins@[i]@),
        }
    }
}

impl Server {
    /// Every registered handle satisfies its lifecycle invariant.
    pub open spec fn wf(&self) -> bool {
        forall|i: int|
            0 <= i < self@.plugins.len() ==> crate::lifecycle::handle_wf(#[trigger] self@.plugins[i])
    }

    /// Build the host: one function table per process, version set to the
    /// host's single supported interface version. Pure data assembly, no
    /// failure mode.
    pub fn new() -> (s: Server)
        ensures
            s.wf(),
            s@ == (ServerView {
                host_version: PLUGIN_API_VERSION,
                number: 42,
                log: Seq::<LogView>::empty(),
                spawned: Seq::<u32>::empty(),
                plugins: Seq::<HandleView>::empty(),
            }),
    {
        let s = Server {
            host_version: PLUGIN_API_VERSION,
            number: 42,
            log: Vec::new(),
            spawned: Vec::new(),
            plugins: Vec::new(),
        };
        proof {
            assert(s@.log =~= Seq::<LogView>::empty());
            assert(s@.plugins =~= Seq::<HandleView>::empty());
        }
        s
    }

    pub fn host_version(&self) -> (v: u32)
        ensures
            v == self@.host_version,
    {
        self.host_version
    }

    pub fn plugin_count(&self) -> (n: usize)
        ensures
            n == self@.plugins.len(),
    {
        self.plugins.len()
    }

    pub fn plugin_state(&self, i: usize) -> (s: LifecycleState)
        requires
            i < self@.plugins.len(),
        ensures
            s == self@.plugins[i as int].state,
    {
        let h = &self.plugins[i];
        h.state()
    }

    pub fn plugin_metadata(&self, i: usize) -> (m: &crate::codec::RustTypePluginMetadata)
        requires
            i < self@.plugins.len(),
        ensures
            m@ == self@.plugins[i as int].metadata,
    {
        let h = &self.plugins[i];
        h.metadata()
    }

    pub fn spawned(&self) -> (r: &Vec<u32>)
        ensures
            r@ == self@.spawned,
    {
        &self.spawned
    }

    pub fn log_entries(&self) -> (r: &Vec<LogEntry>)
        ensures
            r@.len() == self@.log.len(),
            forall|i: int| 0 <= i < r@.len() ==> r@[i]@ == self@.log[i],
    {
        &self.log
    }

    /// The `log` callback: record a message from a plugin. The message is
    /// borrowed, never retained beyond the call; a null reference (`None`)
    /// or non-text bytes are recorded as reportable conditions, not crashes.
    pub fn log_message(&mut self, message: Option<Vec<u8>>)
        ensures
            final(self)@ == (ServerView {
                log: old(self)@.log.push(classify_message(opt_bytes_view(message))),
                ..old(self)@
            }),
    {
        match message {
            Option::None => self.log.push(LogEntry::NullMessage),
            Option::Some(b) => {
                if utf8_valid(&b) {
                    self.log.push(LogEntry::Message(b));
                } else {
                    self.log.push(LogEntry::InvalidUtf8);
                }
            },
        }
        proof {
            assert(self@.log =~= old(self)@.log.push(classify_message(opt_bytes_view(message))));
            assert(self@.plugins =~= old(self)@.plugins);
        }
    }

    /// The `spawnEntity` callback: fire-and-forget; the identifier is
    /// recorded once the call returns.
    pub fn spawn_entity(&mut self, entity_id: u32)
        ensures
            final(self)@ == (ServerView {
                spawned: old(self)@.spawned.push(entity_id),
                ..old(self)@
            }),
    {
        self.spawned.push(entity_id);
        proof {
            assert(self@.log =~= old(self)@.log);
            assert(self@.plugins =~= old(self)@.plugins);
        }
    }

    /// The `getEventuallyModifiedNumber` callback: a pure query of
    /// host-controlled state that may change between calls; plugins must not
    /// cache it.
    pub fn get_eventually_modified_number(&self) -> (n: u32)
        ensures
            n == self@.number,
    {
        self.number
    }

    /// Apply one host call a plugin made through the table.
    pub fn perform(&mut self, call: HostCall)
        ensures
            call matches HostCall::Log(b) ==> final(self)@ == (ServerView {
                log: old(self)@.log.push(classify_message(Option::Some(b@))),
                ..old(self)@
            }),
            call matches HostCall::SpawnEntity(id) ==> final(self)@ == (ServerView {
                spawned: old(self)@.spawned.push(id),
                ..old(self)@
            }),
    {
        match call {
            HostCall::Log(b) => self.log_message(Some(b)),
            HostCall::SpawnEntity(id) => self.spawn_entity(id),
        }
    }

    /// Append an initialized plugin to the registry. The registry is
    /// append-only: nothing is ever removed or reordered, so load order is
    /// broadcast order for the plugin's whole life.
    pub fn register(&mut self, h: PluginHandle)
        requires
            old(self).wf(),
            h.wf(),
            h@.state == LifecycleState::Initialized,
        ensures
            final(self).wf(),
            final(self)@ == (ServerView { plugins: old(self)@.plugins.push(h@), ..old(self)@ }),
    {
        let ghost hv = h@;
        self.plugins.push(h);
        proof {
            assert(self@.plugins =~= old(self)@.plugins.push(hv));
            assert(self@.log =~= old(self)@.log);
        }
    }

    /// Load, initialize and register one plugin, as the front end reports
    /// the two outside outcomes: what happened while mapping the module
    /// (`event`), and — when the module was mapped and its metadata decoded —
    /// whether the plugin's `init` accepted the host's version (`init_ok`).
    /// The version check itself is the plugin's responsibility; a plugin that
    /// rejects fails fast and is never registered. On every failure the
    /// registry is unchanged; handed-over wire buffers are always released.
    pub fn load_plugin(&mut self, arena: &mut WireArena, event: LoadEvent, init_ok: bool) -> (r:
        Result<(), LoadError>)
        requires
            old(self).wf(),
            event matches LoadEvent::ModuleLoaded { module, wire } ==> wire_live(old(arena)@, wire),
        ensures
            final(self).wf(),
            event == LoadEvent::CannotOpenModule ==> r is Err && r->Err_0 == LoadError::CannotOpen
                && final(self)@ == old(self)@ && final(arena)@ == old(arena)@,
            event == LoadEvent::MissingEntrySymbol ==> r is Err && r->Err_0
                == LoadError::MissingEntryPoint && final(self)@ == old(self)@ && final(arena)@
                == old(arena)@,
            event matches LoadEvent::ModuleLoaded { module, wire } ==> {
                &&& crate::codec::wire_released(old(arena)@, final(arena)@, wire)
                &&& (!wire_decodable(old(arena)@, wire) ==> r is Err && r->Err_0
                    == LoadError::BadMetadata(crate::codec::MetadataError::InvalidEncoding)
                    && final(self)@ == old(self)@)
                &&& (wire_decodable(old(arena)@, wire) && !init_ok ==> r is Err && r->Err_0
                    == LoadError::VersionMismatch && final(self)@ == old(self)@)
                &&& (wire_decodable(old(arena)@, wire) && init_ok ==> r is Ok && final(self)@
                    == (ServerView {
                    plugins: old(self)@.plugins.push(
                        HandleView {
                            module,
                            metadata: decoded_view(old(arena)@, wire),
                            state: LifecycleState::Initialized,
                            trace: seq![PluginEvent::Init],
                        },
                    ),
                    ..old(self)@
                }))
            },
    {
        match load(arena, event) {
            Err(e) => Err(e),
            Ok(mut h) => {
                if !init_ok {
                    return Err(LoadError::VersionMismatch);
                }
                h.mark_initialized();
                proof {
                    assert(h@.trace =~= seq![PluginEvent::Init]);
                }
                self.register(h);
                Ok(())
            },
        }
    }

    /// Broadcast `tick`: authorize one tick for every registered plugin, in
    /// registry order, and return the modules to call, in exactly that
    /// order. The schedule is a pure function of the registry, which the
    /// broadcast leaves unchanged, so repeated broadcasts visit the same
    /// modules in the same order.
    pub fn tick_plugins(&mut self) -> (order: Vec<u64>)
        requires
            old(self).wf(),
            forall|i: int|
                0 <= i < old(self)@.plugins.len() ==> (#[trigger] old(self)@.plugins[i]).state
                    == LifecycleState::Initialized,
        ensures
            final(self).wf(),
            order@ == broadcast_order(old(self)@.plugins),
            broadcast_order(final(self)@.plugins) == broadcast_order(old(self)@.plugins),
            final(self)@.plugins.len() == old(self)@.plugins.len(),
            forall|i: int|
                0 <= i < old(self)@.plugins.len() ==> final(self)@.plugins[i] == (HandleView {
                    trace: old(self)@.plugins[i].trace.push(PluginEvent::Tick),
                    ..old(self)@.plugins[i]
                }),
            final(self)@.host_version == old(self)@.host_version,
            final(self)@.number == old(self)@.number,
            final(self)@.log == old(self)@.log,
            final(self)@.spawned == old(self)@.spawned,
    {
        let n = self.plugins.len();
        let mut order: Vec<u64> = Vec::new();
        let mut i: usize = 0;
        while i < n
            invariant
                i <= n,
                n == self.plugins@.len(),
                n == old(self)@.plugins.len(),
                forall|j: int|
                    0 <= j < n ==> (#[trigger] old(self)@.plugins[j]).state
                        == LifecycleState::Initialized,
                order@.len() == i,
                forall|j: int| 0 <= j < i ==> order@[j] == old(self)@.plugins[j].module,
                forall|j: int|
                    0 <= j < i ==> #[trigger] self@.plugins[j] == (HandleView {
                        trace: old(self)@.plugins[j].trace.push(PluginEvent::Tick),
                        ..old(self)@.plugins[j]
                    }),
                forall|j: int| i <= j < n ==> #[trigger] self@.plugins[j] == old(self)@.plugins[j],
                forall|j: int|
                    0 <= j < n ==> crate::lifecycle::handle_wf(#[trigger] self@.plugins[j]),
                self@.host_version == old(self)@.host_version,
                self@.number == old(self)@.number,
                self@.log == old(self)@.log,
                self@.spawned == old(self)@.spawned,
            decreases n - i,
        {
            proof {
                assert(self@.plugins[i as int] == old(self)@.plugins[i as int]);
                assert(crate::lifecycle::handle_wf(self@.plugins[i as int]));
                assert(old(self)@.plugins[i as int].state == LifecycleState::Initialized);
            }
            let ghost prev = self@.plugins;
            let m = {
                let h = &self.plugins[i];
                h.module()
            };
            order.push(m);
            self.plugins[i].mark_tick();
            proof {
                assert(self@.plugins[i as int] == (HandleView {
                    trace: prev[i as int].trace.push(PluginEvent::Tick),
                    ..prev[i as int]
                }));
                assert forall|j: int| 0 <= j < n && j != i implies #[trigger] self@.plugins[j]
                    == prev[j] by {
                    assert(self.plugins@[j] == self.plugins@[j]);
                }
            }
            i = i + 1;
        }
        proof {
            assert(order@ =~= broadcast_order(old(self)@.plugins));
            assert(broadcast_order(self@.plugins) =~= broadcast_order(old(self)@.plugins));
        }
        order
    }

    /// Broadcast `shutdown`: authorize the one shutdown of every registered
    /// plugin, in registry order, and return the modules to call, in exactly
    /// that order. Every handle is terminal afterwards.
    pub fn shutdown_plugins(&mut self) -> (order: Vec<u64>)
        requires
            old(self).wf(),
            forall|i: int|
                0 <= i < old(self)@.plugins.len() ==> (#[trigger] old(self)@.plugins[i]).state
                    == LifecycleState::Initialized,
        ensures
            final(self).wf(),
            order@ == broadcast_order(old(self)@.plugins),
            broadcast_order(final(self)@.plugins) == broadcast_order(old(self)@.plugins),
            final(self)@.plugins.len() == old(self)@.plugins.len(),
            forall|i: int|
                0 <= i < old(self)@.plugins.len() ==> final(self)@.plugins[i] == (HandleView {
                    state: LifecycleState::ShutDown,
                    trace: old(self)@.plugins[i].trace.push(PluginEvent::Shutdown),
                    ..old(self)@.plugins[i]
                }),
            final(self)@.host_version == old(self)@.host_version,
            final(self)@.number == old(self)@.number,
            final(self)@.log == old(self)@.log,
            final(self)@.spawned == old(self)@.spawned,
    {
        let n = self.plugins.len();
        let mut order: Vec<u64> = Vec::new();
        let mut i: usize = 0;
        while i < n
            invariant
                i <= n,
                n == self.plugins@.len(),
                n == old(self)@.plugins.len(),
                forall|j: int|
                    0 <= j < n ==> (#[trigger] old(self)@.plugins[j]).state
                        == LifecycleState::Initialized,
                order@.len() == i,
                forall|j: int| 0 <= j < i ==> order@[j] == old(self)@.plugins[j].module,
                forall|j: int|
                    0 <= j < i ==> #[trigger] self@.plugins[j] == (HandleView {
                        state: LifecycleState::ShutDown,
                        trace: old(self)@.plugins[j].trace.push(PluginEvent::Shutdown),
                        ..old(self)@.plugins[j]
                    }),
                forall|j: int| i <= j < n ==> #[trigger] self@.plugins[j] == old(self)@.plugins[j],
                forall|j: int|
                    0 <= j < n ==> crate::lifecycle::handle_wf(#[trigger] self@.plugins[j]),
                self@.host_version == old(self)@.host_version,
                self@.number == old(self)@.number,
                self@.log == old(self)@.log,
                self@.spawned == old(self)@.spawned,
            decreases n - i,
        {
            proof {
                assert(self@.plugins[i as int] == old(self)@.plugins[i as int]);
                assert(crate::lifecycle::handle_wf(self@.plugins[i as int]));
                assert(old(self)@.plugins[i as int].state == LifecycleState::Initialized);
            }
            let ghost prev = self@.plugins;
            let m = {
                let h = &self.plugins[i];
                h.module()
            };
            order.push(m);
            self.plugins[i].mark_shutdown();
            proof {
                assert(self@.plugins[i as int] == (HandleView {
                    state: LifecycleState::ShutDown,
                    trace: prev[i as int].trace.push(PluginEvent::Shutdown),
                    ..prev[i as int]
                }));
                assert forall|j: int| 0 <= j < n && j != i implies #[trigger] self@.plugins[j]
                    == prev[j] by {
                    assert(self.plugins@[j] == self.plugins@[j]);
                }
            }
            i = i + 1;
        }
        proof {
            assert(order@ =~= broadcast_order(old(self)@.plugins));
            assert(broadcast_order(self@.plugins) =~= broadcast_order(old(self)@.plugins));
        }
        order
    }
}

} // verus!
