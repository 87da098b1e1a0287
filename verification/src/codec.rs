//! The metadata codec: converts between the boundary-owned wire form of a
//! plugin's metadata and the host's native form, and pins down who frees what.
//!
//! A wire string is a nul-terminated byte buffer owned by the boundary. The
//! buffers live in a [`WireArena`], the model of the boundary allocator:
//! decoding releases every buffer exactly once, whether or not decoding
//! succeeds, so no buffer can leak or be freed twice.

use vstd::prelude::*;

use crate::utf8::is_valid_utf8;
use crate::utf8::utf8_valid;

verus! {

/// Index of the first nul byte in `b`, or `b.len()` when none occurs.
pub open spec fn first_nul(b: Seq<u8>) -> int
    decreases b.len(),
{
    if b.len() == 0 {
        0
    } else if b[0] == 0 {
        0
    } else {
        1 + first_nul(b.skip(1))
    }
}

/// The text content of a wire buffer: everything before the first nul.
pub open spec fn c_content(b: Seq<u8>) -> Seq<u8> {
    b.subrange(0, first_nul(b))
}

/// The wire encoding of nul-free content: the content followed by one nul.
pub open spec fn c_encode(s: Seq<u8>) -> Seq<u8> {
    s.push(0)
}

/// `s` holds no nul byte, so it can cross the boundary as a wire string.
pub open spec fn nul_free(s: Seq<u8>) -> bool {
    forall|i: int| 0 <= i < s.len() ==> s[i] != 0
}

/// A well-shaped wire buffer: non-empty, exactly one nul, at the end.
pub open spec fn wire_str_wf(b: Seq<u8>) -> bool {
    &&& b.len() >= 1
    &&& b[b.len() - 1] == 0
    &&& forall|i: int| 0 <= i < b.len() - 1 ==> b[i] != 0
}

/// A valid wire buffer: well-shaped, and its content is well-formed text.
pub open spec fn wire_str_valid(b: Seq<u8>) -> bool {
    wire_str_wf(b) && is_valid_utf8(c_content(b))
}

pub proof fn lemma_first_nul(b: Seq<u8>)
    ensures
        0 <= first_nul(b) <= b.len(),
        first_nul(b) < b.len() ==> b[first_nul(b)] == 0,
        forall|i: int| 0 <= i < first_nul(b) ==> b[i] != 0,
    decreases b.len(),
{
    if b.len() == 0 {
    } else if b[0] == 0 {
    } else {
        lemma_first_nul(b.skip(1));
        assert forall|i: int| 0 <= i < first_nul(b) implies b[i] != 0 by {
            if i >= 1 {
                assert(b.skip(1)[i - 1] == b[i]);
            }
        }
        if first_nul(b) < b.len() {
            assert(b.skip(1)[first_nul(b) - 1] == b[first_nul(b)]);
        }
    }
}

/// The content of any wire buffer is nul-free.
pub proof fn lemma_content_nul_free(b: Seq<u8>)
    ensures
        nul_free(c_content(b)),
{
    lemma_first_nul(b);
}

/// Law: decoding a well-shaped wire buffer and encoding the content again
/// reproduces the wire bytes exactly.
pub proof fn lemma_wire_round_trip(b: Seq<u8>)
    requires
        wire_str_wf(b),
    ensures
        c_encode(c_content(b)) == b,
{
    lemma_first_nul(b);
    assert(first_nul(b) == b.len() - 1) by {
        if first_nul(b) < b.len() - 1 {
            assert(b[first_nul(b)] == 0);
        }
        if first_nul(b) == b.len() {
            assert(b[b.len() - 1] != 0);
        }
    };
    assert(c_encode(c_content(b)) =~= b);
}

/// Law: encoding nul-free content and decoding the wire buffer again gives
/// back the content exactly.
pub proof fn lemma_content_round_trip(s: Seq<u8>)
    requires
        nul_free(s),
    ensures
        c_content(c_encode(s)) == s,
{
    let b = c_encode(s);
    lemma_first_nul(b);
    assert(first_nul(b) == s.len()) by {
        if first_nul(b) < s.len() {
            assert(b[first_nul(b)] == 0);
            assert(b[first_nul(b)] == s[first_nul(b)]);
        }
        if first_nul(b) > s.len() {
            assert(b[s.len() as int] != 0);
        }
    };
    assert(c_content(b) =~= s);
}

/// Law: for any valid wire buffer, decoding yields well-formed nul-free text
/// and re-encoding that text reproduces the original wire bytes exactly.
pub proof fn lemma_decode_encode_round_trip(b: Seq<u8>)
    requires
        wire_str_valid(b),
    ensures
        field_wf(c_content(b)),
        c_encode(c_content(b)) == b,
{
    lemma_content_nul_free(b);
    lemma_wire_round_trip(b);
}

/// The encoding of nul-free content is a well-shaped wire buffer.
pub proof fn lemma_encode_wf(s: Seq<u8>)
    requires
        nul_free(s),
    ensures
        wire_str_wf(c_encode(s)),
{
}

/// The model of the boundary allocator. Every string handed across the
/// boundary occupies one slot; releasing a slot models freeing the buffer.
/// A slot can be released only while it is live, so a released handle can
/// never be released again.
pub struct WireArena {
    slots: Vec<Option<Vec<u8>>>,
}

impl View for WireArena {
    type V = Seq<Option<Seq<u8>>>;

    closed spec fn view(&self) -> Seq<Option<Seq<u8>>> {
        Seq::new(
            self.slots@.len(),
            |i: int|
                match self.slots@[i] {
                    Some(v) => Some(v@),
                    None => None,
                },
        )
    }
}

impl WireArena {
    pub fn new() -> (a: WireArena)
        ensures
            a@ == Seq::<Option<Seq<u8>>>::empty(),
    {
        let a = WireArena { slots: Vec::new() };
        proof {
            assert(a@ =~= Seq::<Option<Seq<u8>>>::empty());
        }
        a
    }

    /// Number of slots ever allocated, live or released.
    pub fn slot_count(&self) -> (n: usize)
        ensures
            n == self@.len(),
    {
        self.slots.len()
    }

    /// Whether handle `h` is still live (allocated and not yet released).
    pub fn is_live(&self, h: usize) -> (r: bool)
        ensures
            r == (h < self@.len() && self@[h as int] is Some),
    {
        h < self.slots.len() && self.slots[h].is_some()
    }

    /// Allocate a buffer into the arena; the handle stands for the buffer
    /// until the slot is released.
    pub fn allocate(&mut self, bytes: Vec<u8>) -> (h: usize)
        ensures
            h == old(self)@.len(),
            final(self)@ == old(self)@.push(Some(bytes@)),
    {
        let h = self.slots.len();
        self.slots.push(Some(bytes));
        proof {
            assert(self@ =~= old(self)@.push(Some(bytes@)));
        }
        h
    }

    /// Release a live slot, transferring the buffer out of the boundary's
    /// ownership. The slot is dead afterwards.
    pub fn release(&mut self, h: usize) -> (bytes: Vec<u8>)
        requires
            h < old(self)@.len(),
            old(self)@[h as int] is Some,
        ensures
            final(self)@ == old(self)@.update(h as int, None),
            bytes@ == old(self)@[h as int]->Some_0,
    {
        let slot = self.slots.remove(h);
        self.slots.insert(h, None);
        proof {
            assert(self@ =~= old(self)@.update(h as int, None));
        }
        match slot {
            Some(b) => b,
            None => {
                proof {
                    assert(false);
                }
                Vec::new()
            },
        }
    }
}

/// A decoding failure: some field of the wire metadata is not valid text.
#[derive(Clone, Copy, PartialEq, Eq, Structural, Debug)]
pub enum MetadataError {
    InvalidEncoding,
}

/// The wire form of a plugin's metadata: four boundary-owned string handles.
/// Ownership of the four buffers transfers to whoever decodes them.
#[derive(Clone, Copy, PartialEq, Eq, Structural, Debug)]
pub struct OwnedMetadata {
    pub name: usize,
    pub author: usize,
    pub description: usize,
    pub version: usize,
}

/// The abstract value of decoded metadata: four byte strings.
pub ghost struct MetaView {
    pub name: Seq<u8>,
    pub author: Seq<u8>,
    pub description: Seq<u8>,
    pub version: Seq<u8>,
}

/// The host-side form of a plugin's metadata: four host-owned strings, each
/// nul-free well-formed text, independent of the wire buffers they came from.
#[derive(Debug)]
pub struct RustTypePluginMetadata {
    pub name: Vec<u8>,
    pub author: Vec<u8>,
    pub description: Vec<u8>,
    pub version: Vec<u8>,
}

impl View for RustTypePluginMetadata {
    type V = MetaView;

    open spec fn view(&self) -> MetaView {
        MetaView {
            name: self.name@,
            author: self.author@,
            description: self.description@,
            version: self.version@,
        }
    }
}

/// Well-formed decoded field: nul-free, valid text.
pub open spec fn field_wf(s: Seq<u8>) -> bool {
    nul_free(s) && is_valid_utf8(s)
}

pub open spec fn meta_wf(m: MetaView) -> bool {
    field_wf(m.name) && field_wf(m.author) && field_wf(m.description) && field_wf(m.version)
}

/// The four wire handles are live in the arena and pairwise distinct.
pub open spec fn wire_live(a: Seq<Option<Seq<u8>>>, w: OwnedMetadata) -> bool {
    &&& w.name < a.len() && a[w.name as int] is Some
    &&& w.author < a.len() && a[w.author as int] is Some
    &&& w.description < a.len() && a[w.description as int] is Some
    &&& w.version < a.len() && a[w.version as int] is Some
    &&& w.name != w.author && w.name != w.description && w.name != w.version
    &&& w.author != w.description && w.author != w.version
    &&& w.description != w.version
}

/// The buffer a live handle stands for.
pub open spec fn slot_bytes(a: Seq<Option<Seq<u8>>>, h: usize) -> Seq<u8> {
    a[h as int]->Some_0
}

/// The four slots of `w` are released in `a1` relative to `a0`, and nothing
/// else changed: exactly one release per field.
pub open spec fn wire_released(
    a0: Seq<Option<Seq<u8>>>,
    a1: Seq<Option<Seq<u8>>>,
    w: OwnedMetadata,
) -> bool {
    &&& a1.len() == a0.len()
    &&& a1[w.name as int] is None
    &&& a1[w.author as int] is None
    &&& a1[w.description as int] is None
    &&& a1[w.version as int] is None
    &&& forall|i: int|
        0 <= i < a0.len() && i != w.name && i != w.author && i != w.description && i != w.version
            ==> a1[i] == a0[i]
}

/// What decoding the wire value `w` from arena contents `a` must produce.
pub open spec fn decoded_view(a: Seq<Option<Seq<u8>>>, w: OwnedMetadata) -> MetaView {
    MetaView {
        name: c_content(slot_bytes(a, w.name)),
        author: c_content(slot_bytes(a, w.author)),
        description: c_content(slot_bytes(a, w.description)),
        version: c_content(slot_bytes(a, w.version)),
    }
}

/// Whether every field of the wire value decodes to well-formed text.
pub open spec fn wire_decodable(a: Seq<Option<Seq<u8>>>, w: OwnedMetadata) -> bool {
    &&& is_valid_utf8(c_content(slot_bytes(a, w.name)))
    &&& is_valid_utf8(c_content(slot_bytes(a, w.author)))
    &&& is_valid_utf8(c_content(slot_bytes(a, w.description)))
    &&& is_valid_utf8(c_content(slot_bytes(a, w.version)))
}

/// Copy the first `n` bytes of `s` into a fresh vector.
fn copy_prefix(s: &Vec<u8>, n: usize) -> (r: Vec<u8>)
    requires
        n <= s@.len(),
    ensures
        r@ == s@.subrange(0, n as int),
{
    let mut r: Vec<u8> = Vec::new();
    let mut j: usize = 0;
    proof {
        assert(r@ =~= s@.subrange(0, 0));
    }
    while j < n
        invariant
            j <= n,
            n <= s@.len(),
            r@ == s@.subrange(0, j as int),
        decreases n - j,
    {
        r.push(s[j]);
        proof {
            assert(r@ =~= s@.subrange(0, j as int + 1));
        }
        j = j + 1;
    }
    r
}

/// Decode one wire buffer: take the content before the first nul and check
/// that it is well-formed text.
fn decode_field(bytes: Vec<u8>) -> (r: Result<Vec<u8>, MetadataError>)
    ensures
        r is Ok <==> is_valid_utf8(c_content(bytes@)),
        r is Ok ==> r->Ok_0@ == c_content(bytes@),
        r is Err ==> r->Err_0 == MetadataError::InvalidEncoding,
{
    let len = bytes.len();
    let mut n: usize = 0;
    while n < len && bytes[n] != 0
        invariant
            n <= len,
            len == bytes@.len(),
            forall|i: int| 0 <= i < n ==> bytes@[i] != 0,
        decreases len - n,
    {
        n = n + 1;
    }
    proof {
        lemma_first_nul(bytes@);
        assert(n == first_nul(bytes@)) by {
            if n < first_nul(bytes@) {
                assert(bytes@[n as int] != 0);
            }
            if first_nul(bytes@) < n {
                assert(bytes@[first_nul(bytes@)] == 0);
            }
        };
    }
    let content = copy_prefix(&bytes, n);
    if utf8_valid(&content) {
        Ok(content)
    } else {
        Err(MetadataError::InvalidEncoding)
    }
}

/// Decode a plugin's wire metadata. All four wire buffers are released from
/// the arena exactly once, whether decoding succeeds or fails; on success the
/// host receives its own copy of each field's content. A field's content is
/// everything before its first nul; a buffer without one (which a
/// nul-terminated boundary never produces) is taken whole.
pub fn decode(arena: &mut WireArena, wire: OwnedMetadata) -> (r: Result<
    RustTypePluginMetadata,
    MetadataError,
>)
    requires
        wire_live(old(arena)@, wire),
    ensures
        wire_released(old(arena)@, final(arena)@, wire),
        r is Ok <==> wire_decodable(old(arena)@, wire),
        r is Ok ==> r->Ok_0@ == decoded_view(old(arena)@, wire),
        r is Ok ==> meta_wf(r->Ok_0@),
        r is Err ==> r->Err_0 == MetadataError::InvalidEncoding,
{
    let name_b = arena.release(wire.name);
    let author_b = arena.release(wire.author);
    let description_b = arena.release(wire.description);
    let version_b = arena.release(wire.version);
    proof {
        lemma_content_nul_free(name_b@);
        lemma_content_nul_free(author_b@);
        lemma_content_nul_free(description_b@);
        lemma_content_nul_free(version_b@);
    }
    let name = match decode_field(name_b) {
        Ok(c) => c,
        Err(e) => {
            return Err(e);
        },
    };
    let author = match decode_field(author_b) {
        Ok(c) => c,
        Err(e) => {
            return Err(e);
        },
    };
    let description = match decode_field(description_b) {
        Ok(c) => c,
        Err(e) => {
            return Err(e);
        },
    };
    let version = match decode_field(version_b) {
        Ok(c) => c,
        Err(e) => {
            return Err(e);
        },
    };
    Ok(RustTypePluginMetadata { name, author, description, version })
}

/// Encode one nul-free field into a fresh wire buffer in the arena.
fn encode_field(arena: &mut WireArena, s: &Vec<u8>) -> (h: usize)
    requires
        nul_free(s@),
    ensures
        h == old(arena)@.len(),
        final(arena)@ == old(arena)@.push(Some(c_encode(s@))),
{
    let mut buf = copy_prefix(s, s.len());
    proof {
        assert(buf@ =~= s@);
    }
    buf.push(0);
    arena.allocate(buf)
}

/// Encode host-side metadata back into four fresh wire buffers, allocated at
/// the end of the arena in field order. The four handles are live, distinct,
/// and hold exactly the wire encodings of the four fields.
pub fn encode(arena: &mut WireArena, meta: &RustTypePluginMetadata) -> (w: OwnedMetadata)
    requires
        meta_wf(meta@),
    ensures
        w.name == old(arena)@.len(),
        w.author == old(arena)@.len() + 1,
        w.description == old(arena)@.len() + 2,
        w.version == old(arena)@.len() + 3,
        final(arena)@ == old(arena)@.push(Some(c_encode(meta@.name))).push(
            Some(c_encode(meta@.author)),
        ).push(Some(c_encode(meta@.description))).push(Some(c_encode(meta@.version))),
        wire_live(final(arena)@, w),
        decoded_view(final(arena)@, w) == meta@,
        wire_decodable(final(arena)@, w),
{
    let name = encode_field(arena, &meta.name);
    let author = encode_field(arena, &meta.author);
    let description = encode_field(arena, &meta.description);
    let version = encode_field(arena, &meta.version);
    let w = OwnedMetadata { name, author, description, version };
    proof {
        lemma_content_round_trip(meta@.name);
        lemma_content_round_trip(meta@.author);
        lemma_content_round_trip(meta@.description);
        lemma_content_round_trip(meta@.version);
    }
    w
}

} // verus!
