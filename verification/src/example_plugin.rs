//! A verified model of the example plugin: everything the plugin decides,
//! with every call it would make through the host table returned as data.
//!
//! The real plugin is an independently compiled module driven through raw
//! function pointers; what is modeled here is its lifecycle contract: the
//! metadata it hands over, the version check it performs during `init` (the
//! check is the plugin's responsibility in this design), and the host calls
//! each lifecycle entry makes. The unverified front end, or a test, plays the
//! boundary: it passes the host's version and number in and applies the
//! returned host calls.

use vstd::prelude::*;

use crate::codec::MetaView;
use crate::codec::OwnedMetadata;
use crate::codec::RustTypePluginMetadata;
use crate::codec::WireArena;
use crate::codec::meta_wf;
use crate::codec::encode;
use crate::codec::decoded_view;
use crate::codec::wire_decodable;
use crate::codec::wire_live;
use crate::server::HostCall;
use crate::server::HostCallView;
use crate::utf8::lemma_ascii_valid_utf8;

verus! {

/// The plugin's name, as its metadata reports it.
pub open spec fn example_name() -> Seq<u8> {
    seq![0x45u8, 0x78, 0x61, 0x6d, 0x70, 0x6c, 0x65, 0x20, 0x50, 0x6c, 0x75, 0x67, 0x69, 0x6e]
}

fn example_name_vec() -> (v: Vec<u8>)
    ensures
        v@ == example_name(),
{
    let mut v: Vec<u8> = Vec::new();
    v.push(0x45);
    v.push(0x78);
    v.push(0x61);
    v.push(0x6d);
    v.push(0x70);
    v.push(0x6c);
    v.push(0x65);
    v.push(0x20);
    v.push(0x50);
    v.push(0x6c);
    v.push(0x75);
    v.push(0x67);
    v.push(0x69);
    v.push(0x6e);
    proof {
        assert(v@ =~= example_name());
    }
    v
}

/// The plugin's author field.
pub open spec fn example_author() -> Seq<u8> {
    seq![0x59u8, 0x6f, 0x75, 0x72, 0x20, 0x4e, 0x61, 0x6d, 0x65]
}

fn example_author_vec() -> (v: Vec<u8>)
    ensures
        v@ == example_author(),
{
    let mut v: Vec<u8> = Vec::new();
    v.push(0x59);
    v.push(0x6f);
    v.push(0x75);
    v.push(0x72);
    v.push(0x20);
    v.push(0x4e);
    v.push(0x61);
    v.push(0x6d);
    v.push(0x65);
    proof {
        assert(v@ =~= example_author());
    }
    v
}

/// The plugin's description field.
pub open spec fn example_description() -> Seq<u8> {
    seq![0x41u8, 0x6e, 0x20, 0x65, 0x78, 0x61, 0x6d, 0x70, 0x6c, 0x65, 0x20, 0x70, 0x6c, 0x75, 0x67, 0x69, 0x6e, 0x20, 0x66, 0x6f, 0x72, 0x20, 0x74, 0x68, 0x65, 0x20, 0x73, 0x65, 0x72, 0x76, 0x65, 0x72, 0x2e]
}

fn example_description_vec() -> (v: Vec<u8>)
    ensures
        v@ == example_description(),
{
    let mut v: Vec<u8> = Vec::new();
    v.push(0x41);
    v.push(0x6e);
    v.push(0x20);
    v.push(0x65);
    v.push(0x78);
    v.push(0x61);
    v.push(0x6d);
    v.push(0x70);
    v.push(0x6c);
    v.push(0x65);
    v.push(0x20);
    v.push(0x70);
    v.push(0x6c);
    v.push(0x75);
    v.push(0x67);
    v.push(0x69);
    v.push(0x6e);
    v.push(0x20);
    v.push(0x66);
    v.push(0x6f);
    v.push(0x72);
    v.push(0x20);
    v.push(0x74);
    v.push(0x68);
    v.push(0x65);
    v.push(0x20);
    v.push(0x73);
    v.push(0x65);
    v.push(0x72);
    v.push(0x76);
    v.push(0x65);
    v.push(0x72);
    v.push(0x2e);
    proof {
        assert(v@ =~= example_description());
    }
    v
}

/// The plugin's own version string (not the interface version).
pub open spec fn example_version() -> Seq<u8> {
    seq![0x30u8, 0x2e, 0x31, 0x2e, 0x30]
}

fn example_version_vec() -> (v: Vec<u8>)
    ensures
        v@ == example_version(),
{
    let mut v: Vec<u8> = Vec::new();
    v.push(0x30);
    v.push(0x2e);
    v.push(0x31);
    v.push(0x2e);
    v.push(0x30);
    proof {
        assert(v@ =~= example_version());
    }
    v
}

/// What the plugin logs during a successful `init`.
pub open spec fn init_message() -> Seq<u8> {
    seq![0x50u8, 0x6c, 0x75, 0x67, 0x69, 0x6e, 0x20, 0x69, 0x6e, 0x69, 0x74, 0x69, 0x61, 0x6c, 0x69, 0x7a, 0x65, 0x64, 0x21]
}

fn init_message_vec() -> (v: Vec<u8>)
    ensures
        v@ == init_message(),
{
    let mut v: Vec<u8> = Vec::new();
    v.push(0x50);
    v.push(0x6c);
    v.push(0x75);
    v.push(0x67);
    v.push(0x69);
    v.push(0x6e);
    v.push(0x20);
    v.push(0x69);
    v.push(0x6e);
    v.push(0x69);
    v.push(0x74);
    v.push(0x69);
    v.push(0x61);
    v.push(0x6c);
    v.push(0x69);
    v.push(0x7a);
    v.push(0x65);
    v.push(0x64);
    v.push(0x21);
    proof {
        assert(v@ =~= init_message());
    }
    v
}

/// What the plugin logs during `shutdown`.
pub open spec fn shutdown_message() -> Seq<u8> {
    seq![0x50u8, 0x6c, 0x75, 0x67, 0x69, 0x6e, 0x20, 0x73, 0x68, 0x75, 0x74, 0x74, 0x69, 0x6e, 0x67, 0x20, 0x64, 0x6f, 0x77, 0x6e, 0x2e]
}

fn shutdown_message_vec() -> (v: Vec<u8>)
    ensures
        v@ == shutdown_message(),
{
    let mut v: Vec<u8> = Vec::new();
    v.push(0x50);
    v.push(0x6c);
    v.push(0x75);
    v.push(0x67);
    v.push(0x69);
    v.push(0x6e);
    v.push(0x20);
    v.push(0x73);
    v.push(0x68);
    v.push(0x75);
    v.push(0x74);
    v.push(0x74);
    v.push(0x69);
    v.push(0x6e);
    v.push(0x67);
    v.push(0x20);
    v.push(0x64);
    v.push(0x6f);
    v.push(0x77);
    v.push(0x6e);
    v.push(0x2e);
    proof {
        assert(v@ =~= shutdown_message());
    }
    v
}

/// The metadata the example plugin reports.
pub open spec fn example_metadata() -> MetaView {
    MetaView {
        name: example_name(),
        author: example_author(),
        description: example_description(),
        version: example_version(),
    }
}

/// The example plugin's metadata fields are nul-free well-formed text.
pub proof fn lemma_example_metadata_wf()
    ensures
        meta_wf(example_metadata()),
{
    assert(forall|i: int|
        0 <= i < example_name().len() ==> example_name()[i] <= 0x7F && example_name()[i] != 0);
    assert(forall|i: int|
        0 <= i < example_author().len() ==> example_author()[i] <= 0x7F && example_author()[i]
            != 0);
    assert(forall|i: int|
        0 <= i < example_description().len() ==> example_description()[i] <= 0x7F
            && example_description()[i] != 0);
    assert(forall|i: int|
        0 <= i < example_version().len() ==> example_version()[i] <= 0x7F && example_version()[i]
            != 0);
    lemma_ascii_valid_utf8(example_name());
    lemma_ascii_valid_utf8(example_author());
    lemma_ascii_valid_utf8(example_description());
    lemma_ascii_valid_utf8(example_version());
}

/// The decimal digits of `n`, most significant first.
pub open spec fn decimal_digits(n: nat) -> Seq<u8>
    decreases n,
{
    if n < 10 {
        seq![(0x30 + n) as u8]
    } else {
        decimal_digits(n / 10).push((0x30 + n % 10) as u8)
    }
}

/// Render `n` in decimal, as the plugin does when it logs the host's number.
pub fn u32_decimal(n: u32) -> (r: Vec<u8>)
    ensures
        r@ == decimal_digits(n as nat),
    decreases n,
{
    if n < 10 {
        let mut v: Vec<u8> = Vec::new();
        v.push(0x30 + (n as u8));
        proof {
            assert(v@ =~= decimal_digits(n as nat));
        }
        v
    } else {
        let mut v = u32_decimal(n / 10);
        v.push(0x30 + ((n % 10) as u8));
        v
    }
}

/// The plugin's `metadata` entry: it allocates four fresh wire strings into
/// the boundary arena and hands their ownership to the caller.
pub fn plugin_metadata(arena: &mut WireArena) -> (w: OwnedMetadata)
    ensures
        wire_live(final(arena)@, w),
        wire_decodable(final(arena)@, w),
        decoded_view(final(arena)@, w) == example_metadata(),
        w.name == old(arena)@.len(),
        final(arena)@ == old(arena)@.push(Some(crate::codec::c_encode(example_name()))).push(
            Some(crate::codec::c_encode(example_author())),
        ).push(Some(crate::codec::c_encode(example_description()))).push(
            Some(crate::codec::c_encode(example_version())),
        ),
{
    let meta = RustTypePluginMetadata {
        name: example_name_vec(),
        author: example_author_vec(),
        description: example_description_vec(),
        version: example_version_vec(),
    };
    proof {
        lemma_example_metadata_wf();
    }
    encode(arena, &meta)
}

/// The plugin aborted its `init`: the host's interface version is not the
/// one it was compiled against.
#[derive(Clone, Copy, PartialEq, Eq, Structural, Debug)]
pub enum InitError {
    VersionMismatch,
}

/// The example plugin's process-wide state: its compiled-in expectation of
/// the host's interface version, and the host version it stored during
/// `init` (written once, read by every later entry).
pub struct ExamplePlugin {
    expected_version: u32,
    host_version: Option<u32>,
}

impl ExamplePlugin {
    /// The interface version the plugin was compiled against.
    pub closed spec fn expected_version_spec(&self) -> u32 {
        self.expected_version
    }

    /// The host version stored during `init`, if `init` has run.
    pub closed spec fn stored_host_version(&self) -> Option<u32> {
        self.host_version
    }

    pub fn new(expected_version: u32) -> (p: ExamplePlugin)
        ensures
            p.expected_version_spec() == expected_version,
            p.stored_host_version() is None,
    {
        ExamplePlugin { expected_version, host_version: None }
    }

    /// The plugin's `init`: store the host table's version, compare it with
    /// the compiled-in expectation, and fail fast on mismatch — before any
    /// host call is made. On a match the plugin logs once and spawns entity
    /// 1001.
    pub fn plugin_init(&mut self, host_version: u32) -> (r: Result<Vec<HostCall>, InitError>)
        requires
            old(self).stored_host_version() is None,
        ensures
            final(self).expected_version_spec() == old(self).expected_version_spec(),
            final(self).stored_host_version() == Some(host_version),
            host_version == old(self).expected_version_spec() ==> {
                &&& r is Ok
                &&& r->Ok_0@.len() == 2
                &&& r->Ok_0@[0]@ == HostCallView::Log(init_message())
                &&& r->Ok_0@[1]@ == HostCallView::SpawnEntity(1001)
            },
            host_version != old(self).expected_version_spec() ==> r is Err && r->Err_0
                == InitError::VersionMismatch,
    {
        self.host_version = Some(host_version);
        if host_version != self.expected_version {
            return Err(InitError::VersionMismatch);
        }
        let mut calls: Vec<HostCall> = Vec::new();
        calls.push(HostCall::Log(init_message_vec()));
        calls.push(HostCall::SpawnEntity(1001));
        Ok(calls)
    }

    /// The plugin's `tick`: it queries the host's number (passed in here as
    /// the query's result), logs its decimal rendering, and spawns entity
    /// 1002.
    pub fn plugin_tick(&self, number: u32) -> (calls: Vec<HostCall>)
        requires
            self.stored_host_version() is Some,
        ensures
            calls@.len() == 2,
            calls@[0]@ == HostCallView::Log(decimal_digits(number as nat)),
            calls@[1]@ == HostCallView::SpawnEntity(1002),
    {
        let mut calls: Vec<HostCall> = Vec::new();
        calls.push(HostCall::Log(u32_decimal(number)));
        calls.push(HostCall::SpawnEntity(1002));
        calls
    }

    /// The plugin's `shutdown`: one farewell log, nothing else.
    pub fn plugin_shutdown(&self) -> (calls: Vec<HostCall>)
        requires
            self.stored_host_version() is Some,
        ensures
            calls@.len() == 1,
            calls@[0]@ == HostCallView::Log(shutdown_message()),
    {
        let mut calls: Vec<HostCall> = Vec::new();
        calls.push(HostCall::Log(shutdown_message_vec()));
        calls
    }
}

} // verus!
