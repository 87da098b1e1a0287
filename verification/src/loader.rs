//! The loader: turns the outcome of mapping a dynamic module into either a
//! plugin handle in the `Loaded` state or a typed load failure.
//!
//! Mapping a file into the process and resolving the entry symbol is outside
//! work that the unverified front end performs; it reports what happened as a
//! [`LoadEvent`]. Everything the host decides from that point on — decoding
//! the wire metadata, releasing its buffers, refusing to register a broken
//! module — is verified here.

use vstd::prelude::*;

use crate::codec::MetadataError;
use crate::codec::OwnedMetadata;
use crate::codec::WireArena;
use crate::codec::decode;
use crate::codec::decoded_view;
use crate::codec::wire_decodable;
use crate::codec::wire_live;
use crate::codec::wire_released;
use crate::lifecycle::LifecycleState;
use crate::lifecycle::PluginEvent;
use crate::lifecycle::HandleView;
use crate::lifecycle::PluginHandle;

verus! {

/// What the front end observed while mapping a module and resolving its
/// entry symbol. On success it hands over the key of the mapped module and
/// the wire metadata obtained from the module's own metadata function.
#[derive(Clone, Copy, PartialEq, Eq, Structural, Debug)]
pub enum LoadEvent {
    /// The path did not resolve to a loadable module.
    CannotOpenModule,
    /// The module is mapped but exports no entry symbol.
    MissingEntrySymbol,
    /// The module is mapped, the entry symbol resolved, and its metadata
    /// function returned the four wire strings held by `wire`.
    ModuleLoaded { module: u64, wire: OwnedMetadata },
}

/// Why a load failed. Every failure is returned to the caller; none is
/// swallowed.
#[derive(Clone, Copy, PartialEq, Eq, Structural, Debug)]
pub enum LoadError {
    /// The path did not resolve to a loadable module.
    CannotOpen,
    /// The module exports no entry symbol.
    MissingEntryPoint,
    /// The module's wire metadata did not decode.
    BadMetadata(MetadataError),
    /// The plugin rejected the host's interface version during `init`.
    VersionMismatch,
}

/// Build a plugin handle from a load outcome. On any failure the error is
/// returned and no handle exists; when metadata was handed over, its four
/// wire buffers are released exactly once whether or not decoding succeeds.
pub fn load(arena: &mut WireArena, event: LoadEvent) -> (r: Result<PluginHandle, LoadError>)
    requires
        event matches LoadEvent::ModuleLoaded { module, wire } ==> wire_live(old(arena)@, wire),
    ensures
        event == LoadEvent::CannotOpenModule ==> r is Err && r->Err_0 == LoadError::CannotOpen
            && final(arena)@ == old(arena)@,
        event == LoadEvent::MissingEntrySymbol ==> r is Err && r->Err_0
            == LoadError::MissingEntryPoint && final(arena)@ == old(arena)@,
        event matches LoadEvent::ModuleLoaded { module, wire } ==> {
            &&& wire_released(old(arena)@, final(arena)@, wire)
            &&& (r is Ok <==> wire_decodable(old(arena)@, wire))
            &&& (r is Ok ==> r->Ok_0.wf() && r->Ok_0@ == (HandleView {
                module,
                metadata: decoded_view(old(arena)@, wire),
                state: LifecycleState::Loaded,
                trace: Seq::<PluginEvent>::empty(),
            }))
            &&& (r is Err ==> r->Err_0 == LoadError::BadMetadata(MetadataError::InvalidEncoding))
        },
{
    match event {
        LoadEvent::CannotOpenModule => Err(LoadError::CannotOpen),
        LoadEvent::MissingEntrySymbol => Err(LoadError::MissingEntryPoint),
        LoadEvent::ModuleLoaded { module, wire } => match decode(arena, wire) {
            Ok(meta) => Ok(PluginHandle::new(module, meta)),
            Err(e) => Err(LoadError::BadMetadata(e)),
        },
    }
}

} // verus!
