use plugin_host::codec::MetadataError;
use plugin_host::codec::OwnedMetadata;
use plugin_host::codec::RustTypePluginMetadata;
use plugin_host::codec::WireArena;
use plugin_host::codec::decode;
use plugin_host::codec::encode;
use plugin_host::utf8::utf8_valid;

fn alloc_wire(arena: &mut WireArena, name: &[u8], author: &[u8], description: &[u8], version: &[u8]) -> OwnedMetadata {
    OwnedMetadata {
        name: arena.allocate(name.to_vec()),
        author: arena.allocate(author.to_vec()),
        description: arena.allocate(description.to_vec()),
        version: arena.allocate(version.to_vec()),
    }
}

#[test]
fn decode_reads_content_before_nul() {
    let mut arena = WireArena::new();
    let wire = alloc_wire(&mut arena, b"Alpha\0", b"Ada\0", b"A plugin.\0", b"1.0\0");
    let meta = decode(&mut arena, wire).unwrap();
    assert_eq!(meta.name, b"Alpha".to_vec());
    assert_eq!(meta.author, b"Ada".to_vec());
    assert_eq!(meta.description, b"A plugin.".to_vec());
    assert_eq!(meta.version, b"1.0".to_vec());
}

#[test]
fn decode_releases_every_field_on_success() {
    let mut arena = WireArena::new();
    let wire = alloc_wire(&mut arena, b"Alpha\0", b"Ada\0", b"A plugin.\0", b"1.0\0");
    assert!(arena.is_live(wire.name));
    let _ = decode(&mut arena, wire).unwrap();
    assert_eq!(arena.slot_count(), 4);
    assert!(!arena.is_live(wire.name));
    assert!(!arena.is_live(wire.author));
    assert!(!arena.is_live(wire.description));
    assert!(!arena.is_live(wire.version));
}

#[test]
fn decode_rejects_malformed_encoding_and_still_releases_every_field() {
    let mut arena = WireArena::new();
    // 0xC0 0x80 is an overlong encoding: not well-formed text.
    let wire = alloc_wire(&mut arena, b"Alpha\0", b"\xC0\x80\0", b"A plugin.\0", b"1.0\0");
    let r = decode(&mut arena, wire);
    assert_eq!(r.unwrap_err(), MetadataError::InvalidEncoding);
    assert_eq!(arena.slot_count(), 4);
    assert!(!arena.is_live(wire.name));
    assert!(!arena.is_live(wire.author));
    assert!(!arena.is_live(wire.description));
    assert!(!arena.is_live(wire.version));
}

#[test]
fn decode_without_nul_takes_the_whole_buffer() {
    let mut arena = WireArena::new();
    let wire = alloc_wire(&mut arena, b"Hi", b"A", b"B", b"C");
    let meta = decode(&mut arena, wire).unwrap();
    assert_eq!(meta.name, b"Hi".to_vec());
}

#[test]
fn decode_accepts_empty_fields() {
    let mut arena = WireArena::new();
    let wire = alloc_wire(&mut arena, b"\0", b"\0", b"\0", b"\0");
    let meta = decode(&mut arena, wire).unwrap();
    assert_eq!(meta.name, Vec::<u8>::new());
    assert_eq!(meta.version, Vec::<u8>::new());
}

#[test]
fn encode_then_decode_round_trips_the_text() {
    let mut arena = WireArena::new();
    let meta = RustTypePluginMetadata {
        name: b"Alpha".to_vec(),
        author: b"Ada".to_vec(),
        description: b"A plugin.".to_vec(),
        version: b"1.0".to_vec(),
    };
    let wire = encode(&mut arena, &meta);
    let back = decode(&mut arena, wire).unwrap();
    assert_eq!(back.name, b"Alpha".to_vec());
    assert_eq!(back.author, b"Ada".to_vec());
    assert_eq!(back.description, b"A plugin.".to_vec());
    assert_eq!(back.version, b"1.0".to_vec());
}

#[test]
fn decode_then_encode_reproduces_the_wire_bytes() {
    let mut arena = WireArena::new();
    let wire = alloc_wire(&mut arena, b"Alpha\0", b"Ada\0", b"A plugin.\0", b"1.0\0");
    let meta = decode(&mut arena, wire).unwrap();
    let wire2 = encode(&mut arena, &meta);
    assert_eq!(arena.release(wire2.name), b"Alpha\0".to_vec());
    assert_eq!(arena.release(wire2.author), b"Ada\0".to_vec());
    assert_eq!(arena.release(wire2.description), b"A plugin.\0".to_vec());
    assert_eq!(arena.release(wire2.version), b"1.0\0".to_vec());
}

#[test]
fn utf8_accepts_well_formed_sequences() {
    assert!(utf8_valid(&b"".to_vec()));
    assert!(utf8_valid(&b"plain ascii".to_vec()));
    // Two-, three- and four-byte sequences.
    assert!(utf8_valid(&vec![0xC3, 0xA9]));
    assert!(utf8_valid(&vec![0xE2, 0x82, 0xAC]));
    assert!(utf8_valid(&vec![0xF0, 0x9F, 0x98, 0x80]));
    // The largest code point, U+10FFFF.
    assert!(utf8_valid(&vec![0xF4, 0x8F, 0xBF, 0xBF]));
    assert!(utf8_valid("héllo wörld".as_bytes().to_vec().as_ref()));
}

#[test]
fn utf8_rejects_malformed_sequences() {
    // Stray continuation byte.
    assert!(!utf8_valid(&vec![0x80]));
    // Overlong encodings.
    assert!(!utf8_valid(&vec![0xC0, 0xAF]));
    assert!(!utf8_valid(&vec![0xE0, 0x80, 0x80]));
    // Surrogate code point U+D800.
    assert!(!utf8_valid(&vec![0xED, 0xA0, 0x80]));
    // Beyond U+10FFFF.
    assert!(!utf8_valid(&vec![0xF4, 0x90, 0x80, 0x80]));
    assert!(!utf8_valid(&vec![0xF5, 0x80, 0x80, 0x80]));
    // Truncated sequences.
    assert!(!utf8_valid(&vec![0xE2, 0x82]));
    assert!(!utf8_valid(&vec![0xC3]));
}
